//! Counts of seconds. The engine keeps them in 32 bits; whatever is computed
//! from configured minutes or stored counters is computed exactly and then
//! brought into that range.

use vstd::prelude::*;

verus! {

/// The value of `x` limited to the range of a 32-bit signed integer.
pub open spec fn clamp_i32(x: int) -> int {
    if x < i32::MIN as int {
        i32::MIN as int
    } else if x > i32::MAX as int {
        i32::MAX as int
    } else {
        x
    }
}

/// The seconds in `minutes` minutes.
pub open spec fn minutes_in_seconds(minutes: u32) -> int {
    minutes * 60
}

/// Narrows a count of seconds to 32 bits, saturating at either end.
pub fn saturate_i32(x: i128) -> (r: i32)
    ensures
        r as int == clamp_i32(x as int),
{
    if x < -2147483648i128 {
        -2147483648i32
    } else if x > 2147483647i128 {
        2147483647i32
    } else {
        x as i32
    }
}

/// The seconds in `minutes` minutes, exactly.
pub fn minutes_to_seconds(minutes: u32) -> (seconds: i64)
    ensures
        seconds == minutes_in_seconds(minutes),
{
    minutes as i64 * 60
}

} // verus!
