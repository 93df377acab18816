//! Decimal text for integers: how every numeric setting is written to and
//! read from the settings store.
//!
//! The accepted language is an optional sign followed by one or more ASCII
//! digits, with nothing before or after. Signed values take `+` or `-`,
//! unsigned values only `+`. A number outside the range of its type is
//! rejected, never wrapped.

use vstd::prelude::*;
use vstd::string::*;

verus! {

/// `c` is one of the ten ASCII digits.
pub open spec fn is_digit(c: char) -> bool {
    '0' <= c <= '9'
}

/// The number that the digit `c` stands for.
pub open spec fn digit_value(c: char) -> int {
    c as int - 48
}

/// The character that writes the digit `d`, for `0 <= d <= 9`.
pub open spec fn digit_char(d: int) -> char {
    ((d + 48) as u8) as char
}

/// Every character of `s` is a digit.
pub open spec fn all_digits(s: Seq<char>) -> bool {
    forall|i: int| 0 <= i < s.len() ==> is_digit(#[trigger] s[i])
}

/// The number written by a run of digits, most significant first.
pub open spec fn digits_value(s: Seq<char>) -> int
    decreases s.len(),
{
    if s.len() == 0 {
        0
    } else {
        digits_value(s.drop_last()) * 10 + digit_value(s.last())
    }
}

/// The digits of `n`, most significant first, without leading zeros.
pub open spec fn nat_digits(n: nat) -> Seq<char>
    decreases n,
{
    if n < 10 {
        seq![digit_char(n as int)]
    } else {
        nat_digits(n / 10).push(digit_char((n % 10) as int))
    }
}

/// The decimal text of `v`: a minus sign for negative values, then the digits.
pub open spec fn int_decimal(v: int) -> Seq<char> {
    if v < 0 {
        seq!['-'] + nat_digits((-v) as nat)
    } else {
        nat_digits(v as nat)
    }
}

/// `width` zeros' worth of padding in front of the digits of `n`: the text is
/// at least `width` characters long and is never cut.
pub open spec fn padded_decimal(n: nat, width: nat) -> Seq<char> {
    let digits = nat_digits(n);
    if digits.len() >= width {
        digits
    } else {
        Seq::new((width - digits.len()) as nat, |i: int| '0') + digits
    }
}

/// The digits of `s` once a leading sign is taken away. `signed` says whether
/// a minus sign counts as a sign.
pub open spec fn unsigned_part(s: Seq<char>, signed: bool) -> Seq<char> {
    if s.len() > 0 && (s[0] == '+' || (signed && s[0] == '-')) {
        s.drop_first()
    } else {
        s
    }
}

/// What the text `s` means as an integer between `lo` and `hi`, if anything.
pub open spec fn parse_decimal(s: Seq<char>, signed: bool, lo: int, hi: int) -> Option<int> {
    let body = unsigned_part(s, signed);
    let negative = signed && s.len() > 0 && s[0] == '-';
    let value = if negative {
        -digits_value(body)
    } else {
        digits_value(body)
    };
    if body.len() > 0 && all_digits(body) && lo <= value <= hi {
        Some(value)
    } else {
        None
    }
}

/// The meaning of `s` as a 32-bit signed integer.
pub open spec fn parse_i32_spec(s: Seq<char>) -> Option<int> {
    parse_decimal(s, true, i32::MIN as int, i32::MAX as int)
}

/// The meaning of `s` as a 64-bit signed integer.
pub open spec fn parse_i64_spec(s: Seq<char>) -> Option<int> {
    parse_decimal(s, true, i64::MIN as int, i64::MAX as int)
}

/// The meaning of `s` as a 32-bit unsigned integer.
pub open spec fn parse_u32_spec(s: Seq<char>) -> Option<int> {
    parse_decimal(s, false, 0, u32::MAX as int)
}

/// A run of digits never stands for a negative number.
pub proof fn lemma_digits_value_nonnegative(s: Seq<char>)
    requires
        all_digits(s),
    ensures
        digits_value(s) >= 0,
    decreases s.len(),
{
    if s.len() > 0 {
        lemma_digits_value_nonnegative(s.drop_last());
    }
}

/// Reading more digits never makes the number smaller.
pub proof fn lemma_digits_value_prefix(s: Seq<char>, k: int)
    requires
        all_digits(s),
        0 <= k <= s.len(),
    ensures
        digits_value(s.subrange(0, k)) <= digits_value(s),
    decreases s.len() - k,
{
    if k == s.len() {
        assert(s.subrange(0, k) =~= s);
    } else {
        lemma_digits_value_prefix(s, k + 1);
        let longer = s.subrange(0, k + 1);
        assert(longer.drop_last() =~= s.subrange(0, k));
        assert(is_digit(s[k]));
        assert(longer.last() == s[k]);
        assert(all_digits(s.subrange(0, k))) by {
            assert forall|i: int| 0 <= i < k implies is_digit(#[trigger] s.subrange(0, k)[i]) by {
                assert(s.subrange(0, k)[i] == s[i]);
            }
        }
        lemma_digits_value_nonnegative(s.subrange(0, k));
    }
}

/// The digits written for `n` are digits, at least one of them, and they
/// read back as `n`.
pub proof fn lemma_nat_digits(n: nat)
    ensures
        nat_digits(n).len() > 0,
        all_digits(nat_digits(n)),
        digits_value(nat_digits(n)) == n,
    decreases n,
{
    if n < 10 {
        let s = nat_digits(n);
        assert(s.len() == 1);
        assert(s[0] == digit_char(n as int));
        assert(s.drop_last() =~= Seq::<char>::empty());
        assert(digits_value(s.drop_last()) == 0);
        assert(digit_value(digit_char(n as int)) == n as int);
    } else {
        lemma_nat_digits(n / 10);
        let head = nat_digits(n / 10);
        let d = digit_char((n % 10) as int);
        let s = head.push(d);
        assert(s.drop_last() =~= head);
        assert(s.last() == d);
        assert(digit_value(d) == (n % 10) as int);
        assert(is_digit(d));
        assert forall|i: int| 0 <= i < s.len() implies is_digit(#[trigger] s[i]) by {
            if i < head.len() {
                assert(s[i] == head[i]);
            }
        }
    }
}

/// Round trip: the decimal text of `v` means `v` again, for every range
/// that holds `v`, and for unsigned readers as long as `v` is not negative.
pub proof fn lemma_decimal_round_trip(v: int, signed: bool, lo: int, hi: int)
    requires
        lo <= v <= hi,
        signed || v >= 0,
    ensures
        parse_decimal(int_decimal(v), signed, lo, hi) == Some(v),
{
    if v < 0 {
        let digits = nat_digits((-v) as nat);
        lemma_nat_digits((-v) as nat);
        let s = seq!['-'] + digits;
        assert(s[0] == '-');
        assert(s.drop_first() =~= digits);
    } else {
        let digits = nat_digits(v as nat);
        lemma_nat_digits(v as nat);
        assert(is_digit(digits[0]));
        assert(digits[0] != '+' && digits[0] != '-');
    }
}

/// Text outside the ASCII range is never a number.
pub proof fn lemma_non_ascii_is_no_number(s: Seq<char>, signed: bool, lo: int, hi: int)
    requires
        !vstd::utf8::is_ascii_chars(s),
    ensures
        parse_decimal(s, signed, lo, hi) is None,
{
    let body = unsigned_part(s, signed);
    if body.len() > 0 && all_digits(body) {
        assert forall|i: int| 0 <= i < s.len() implies '\0' <= #[trigger] s[i] <= '\u{7f}' by {
            if body.len() == s.len() {
                assert(is_digit(body[i]));
            } else if i > 0 {
                assert(body[i - 1] == s[i]);
                assert(is_digit(body[i - 1]));
            } else {
                assert(s[0] == '+' || s[0] == '-');
            }
        }
    }
}

/// The one-character text of a digit.
fn digit_text(d: u8) -> (s: &'static str)
    requires
        d < 10,
    ensures
        s@ == seq![digit_char(d as int)],
{
    proof {
        reveal_strlit("0");
        reveal_strlit("1");
        reveal_strlit("2");
        reveal_strlit("3");
        reveal_strlit("4");
        reveal_strlit("5");
        reveal_strlit("6");
        reveal_strlit("7");
        reveal_strlit("8");
        reveal_strlit("9");
    }
    let s = if d == 0 {
        "0"
    } else if d == 1 {
        "1"
    } else if d == 2 {
        "2"
    } else if d == 3 {
        "3"
    } else if d == 4 {
        "4"
    } else if d == 5 {
        "5"
    } else if d == 6 {
        "6"
    } else if d == 7 {
        "7"
    } else if d == 8 {
        "8"
    } else {
        "9"
    };
    assert(s@ =~= seq![digit_char(d as int)]);
    s
}

/// Appends the digits of `n` to `out`.
pub fn push_decimal(out: &mut String, n: u64)
    ensures
        final(out)@ == old(out)@ + nat_digits(n as nat),
    decreases n,
{
    if n >= 10 {
        push_decimal(out, n / 10);
    }
    let d: u8 = (n % 10) as u8;
    out.append(digit_text(d));
    assert(out@ =~= old(out)@ + nat_digits(n as nat));
}

/// Appends the digits of `n` to `out`, with zeros in front up to `width`
/// characters.
pub fn push_padded(out: &mut String, n: u64, width: usize)
    ensures
        final(out)@ == old(out)@ + padded_decimal(n as nat, width as nat),
{
    let mut digits = String::new();
    push_decimal(&mut digits, n);
    let len: usize = digits.as_str().unicode_len();
    proof {
        reveal_strlit("0");
        assert(digits@ =~= nat_digits(n as nat));
    }
    let mut i: usize = len;
    while i < width
        invariant
            len <= i,
            i <= width || i == len,
            len == nat_digits(n as nat).len(),
            out@ == old(out)@ + Seq::new((i - len) as nat, |k: int| '0'),
            "0"@ == seq!['0'],
        decreases width - i,
    {
        out.append("0");
        i = i + 1;
        assert(out@ =~= old(out)@ + Seq::new((i - len) as nat, |k: int| '0'));
    }
    out.append(digits.as_str());
    assert(out@ =~= old(out)@ + padded_decimal(n as nat, width as nat));
}

/// The decimal text of a 64-bit signed integer.
pub fn format_i64(v: i64) -> (s: String)
    ensures
        s@ == int_decimal(v as int),
{
    let mut out = String::new();
    if v < 0 {
        proof {
            reveal_strlit("-");
        }
        out.append("-");
        let magnitude: u64 = ((-(v + 1)) as u64) + 1;
        push_decimal(&mut out, magnitude);
        assert(out@ =~= int_decimal(v as int));
    } else {
        push_decimal(&mut out, v as u64);
        assert(out@ =~= int_decimal(v as int));
    }
    out
}

/// The decimal text of a 32-bit signed integer.
pub fn format_i32(v: i32) -> (s: String)
    ensures
        s@ == int_decimal(v as int),
{
    format_i64(v as i64)
}

/// The decimal text of a 32-bit unsigned integer.
pub fn format_u32(v: u32) -> (s: String)
    ensures
        s@ == int_decimal(v as int),
{
    format_i64(v as i64)
}

/// Reads the digits of `bytes` from `start` to the end as a number of at
/// most `limit`.
fn parse_magnitude(bytes: &[u8], text: Ghost<Seq<char>>, start: usize, limit: u64) -> (r: Option<u64>)
    requires
        start <= bytes@.len(),
        bytes@.len() == text@.len(),
        forall|i: int| 0 <= i < text@.len() ==> text@[i] as int == #[trigger] bytes@[i] as int,
    ensures
        ({
            let body = text@.subrange(start as int, text@.len() as int);
            match r {
                Some(v) => body.len() > 0 && all_digits(body) && digits_value(body) == v && v
                    <= limit,
                None => !(body.len() > 0 && all_digits(body) && digits_value(body) <= limit),
            }
        }),
{
    let ghost body = text@.subrange(start as int, text@.len() as int);
    let n: usize = bytes.len();
    if start == n {
        return None;
    }
    let mut acc: u64 = 0;
    let mut i: usize = start;
    while i < n
        invariant
            start <= i <= n,
            n == bytes@.len(),
            bytes@.len() == text@.len(),
            body == text@.subrange(start as int, text@.len() as int),
            forall|k: int| 0 <= k < text@.len() ==> text@[k] as int == #[trigger] bytes@[k] as int,
            all_digits(body.subrange(0, i - start)),
            digits_value(body.subrange(0, i - start)) == acc,
            acc <= limit,
        decreases n - i,
    {
        let b: u8 = bytes[i];
        let ghost read = body.subrange(0, i - start);
        let ghost next = body.subrange(0, i - start + 1);
        proof {
            assert(body[i - start] == text@[i as int]);
            assert(next.drop_last() =~= read);
            assert(next.last() == body[i - start]);
        }
        if b < 48 || b > 57 {
            assert(!is_digit(body[i - start]));
            return None;
        }
        let d: u64 = (b - 48) as u64;
        assert(is_digit(body[i - start]));
        assert(digit_value(body[i - start]) == d);
        assert(all_digits(next)) by {
            assert forall|k: int| 0 <= k < next.len() implies is_digit(#[trigger] next[k]) by {
                if k < read.len() {
                    assert(next[k] == read[k]);
                }
            }
        }
        assert(digits_value(next) == acc * 10 + d);
        if d > limit || acc > (limit - d) / 10 {
            proof {
                assert(acc * 10 + d > limit);
                if all_digits(body) {
                    lemma_digits_value_prefix(body, i - start + 1);
                }
            }
            return None;
        }
        acc = acc * 10 + d;
        i = i + 1;
    }
    proof {
        assert(body.subrange(0, i - start) =~= body);
    }
    Some(acc)
}

/// Reads `s` as a 64-bit signed integer.
pub fn parse_i64(s: &str) -> (r: Option<i64>)
    ensures
        match r {
            Some(v) => parse_i64_spec(s@) == Some(v as int),
            None => parse_i64_spec(s@) is None,
        },
{
    if !s.is_ascii() {
        proof {
            lemma_non_ascii_is_no_number(s@, true, i64::MIN as int, i64::MAX as int);
        }
        return None;
    }
    let bytes = s.as_bytes();
    proof {
        broadcast use is_ascii_spec_bytes;

        assert(bytes@.len() == s@.len());
        assert forall|i: int| 0 <= i < s@.len() implies s@[i] as int == #[trigger] bytes@[i] as int by {
            assert('\0' <= s@[i] <= '\u{7f}');
            assert(bytes@[i] == s@[i] as u8);
        }
    }
    if bytes.len() == 0 {
        return None;
    }
    let first: u8 = bytes[0];
    assert(first as int == s@[0] as int);
    let ghost body = unsigned_part(s@, true);
    if first == 45 {
        assert(s@[0] == '-');
        assert(body =~= s@.subrange(1, s@.len() as int));
        match parse_magnitude(bytes, Ghost(s@), 1, 9223372036854775808u64) {
            Some(m) => {
                if m == 9223372036854775808u64 {
                    Some(-9223372036854775808i64)
                } else {
                    Some(-(m as i64))
                }
            },
            None => {
                proof {
                    if body.len() > 0 && all_digits(body) {
                        lemma_digits_value_nonnegative(body);
                    }
                }
                None
            },
        }
    } else {
        let start: usize = if first == 43 {
            1
        } else {
            0
        };
        proof {
            if first == 43 {
                assert(s@[0] == '+');
                assert(body =~= s@.subrange(1, s@.len() as int));
            } else {
                assert(s@[0] != '+' && s@[0] != '-');
                assert(body =~= s@.subrange(0, s@.len() as int));
            }
        }
        match parse_magnitude(bytes, Ghost(s@), start, 9223372036854775807u64) {
            Some(m) => Some(m as i64),
            None => {
                proof {
                    if body.len() > 0 && all_digits(body) {
                        lemma_digits_value_nonnegative(body);
                    }
                }
                None
            },
        }
    }
}

/// Reads `s` as a 32-bit signed integer.
pub fn parse_i32(s: &str) -> (r: Option<i32>)
    ensures
        match r {
            Some(v) => parse_i32_spec(s@) == Some(v as int),
            None => parse_i32_spec(s@) is None,
        },
{
    match parse_i64(s) {
        Some(v) => {
            if -2147483648i64 <= v && v <= 2147483647i64 {
                Some(v as i32)
            } else {
                None
            }
        },
        None => {
            proof {
                let body = unsigned_part(s@, true);
                if body.len() > 0 && all_digits(body) {
                    lemma_digits_value_nonnegative(body);
                }
            }
            None
        },
    }
}

/// Reads `s` as a 32-bit unsigned integer.
pub fn parse_u32(s: &str) -> (r: Option<u32>)
    ensures
        match r {
            Some(v) => parse_u32_spec(s@) == Some(v as int),
            None => parse_u32_spec(s@) is None,
        },
{
    if !s.is_ascii() {
        proof {
            lemma_non_ascii_is_no_number(s@, false, 0, u32::MAX as int);
        }
        return None;
    }
    let bytes = s.as_bytes();
    proof {
        broadcast use is_ascii_spec_bytes;

        assert(bytes@.len() == s@.len());
        assert forall|i: int| 0 <= i < s@.len() implies s@[i] as int == #[trigger] bytes@[i] as int by {
            assert('\0' <= s@[i] <= '\u{7f}');
            assert(bytes@[i] == s@[i] as u8);
        }
    }
    if bytes.len() == 0 {
        return None;
    }
    let first: u8 = bytes[0];
    assert(first as int == s@[0] as int);
    let ghost body = unsigned_part(s@, false);
    let start: usize = if first == 43 {
        1
    } else {
        0
    };
    proof {
        if first == 43 {
            assert(s@[0] == '+');
            assert(body =~= s@.subrange(1, s@.len() as int));
        } else {
            assert(s@[0] != '+');
            assert(body =~= s@.subrange(0, s@.len() as int));
        }
    }
    match parse_magnitude(bytes, Ghost(s@), start, 4294967295u64) {
        Some(m) => Some(m as u32),
        None => None,
    }
}

} // verus!
