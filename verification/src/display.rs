//! What the readouts show: the remaining time as text, the colour that goes
//! with it, and lengths scaled to the resolution of the screen.

use vstd::prelude::*;
use vstd::string::*;
use crate::clock::LocalTime;
use crate::decimal::{nat_digits, padded_decimal, push_decimal, push_padded};
use crate::pause::{get_max_pause_duration, max_pause_duration};
use crate::seconds::{clamp_i32, saturate_i32};
use crate::settings::{pause_config, pause_used_today, Settings};
use crate::state::TimerState;
use crate::store::SettingsStore;

verus! {

/// The resolution at which lengths are meant, in dots per inch.
pub const STANDARD_DPI: u32 = 96;

/// Orange, for the last five minutes. Colours are blue-green-red.
pub const COLOR_ACCENT: u32 = 0x00ff9933;

/// White, for time that is not short.
pub const COLOR_TEXT_WHITE: u32 = 0x00FFFFFF;

/// Light grey, for a countdown that is not loaded.
pub const COLOR_TEXT_LIGHT: u32 = 0x00CCCCCC;

/// Red, for the last minute.
pub const COLOR_ERROR: u32 = 0x004444FF;

/// Light blue, for a paused countdown.
pub const COLOR_PAUSED: u32 = 0x0066CCFF;

/// The quotient of `a` by a positive `b`, rounded toward zero.
pub open spec fn quotient_toward_zero(a: int, b: int) -> int {
    if a >= 0 {
        a / b
    } else {
        -((-a) / b)
    }
}

/// A length meant at 96 dots per inch, at `dpi` dots per inch, to the
/// nearest unit and limited to 32 bits.
pub open spec fn scaled(value: i32, dpi: u32) -> int {
    clamp_i32(quotient_toward_zero(value * dpi + 48, 96))
}

/// The hours in `seconds`.
pub open spec fn hours_of(seconds: i32) -> nat {
    (seconds / 3600) as nat
}

/// The minutes in `seconds` beyond the full hours.
pub open spec fn minutes_of(seconds: i32) -> nat {
    ((seconds % 3600) / 60) as nat
}

/// The seconds in `seconds` beyond the full minutes.
pub open spec fn seconds_of(seconds: i32) -> nat {
    (seconds % 60) as nat
}

/// The remaining time as `H:MM:SS`, or `M:SS` under an hour, or `--:--`
/// for a countdown that is not loaded.
pub open spec fn compact_time(seconds: i32) -> Seq<char> {
    if seconds < 0 {
        "--:--"@
    } else if hours_of(seconds) > 0 {
        nat_digits(hours_of(seconds)) + seq![':'] + padded_decimal(minutes_of(seconds), 2) + seq![
            ':',
        ] + padded_decimal(seconds_of(seconds), 2)
    } else {
        nat_digits(minutes_of(seconds)) + seq![':'] + padded_decimal(seconds_of(seconds), 2)
    }
}

/// The remaining time in words: `1h 30m 45s`, without the hours under an
/// hour and without the minutes under a minute, or `--:--` for a countdown
/// that is not loaded.
pub open spec fn long_time(seconds: i32) -> Seq<char> {
    if seconds < 0 {
        "--:--"@
    } else if hours_of(seconds) > 0 {
        nat_digits(hours_of(seconds)) + "h "@ + nat_digits(minutes_of(seconds)) + "m "@
            + nat_digits(seconds_of(seconds)) + "s"@
    } else if minutes_of(seconds) > 0 {
        nat_digits(minutes_of(seconds)) + "m "@ + nat_digits(seconds_of(seconds)) + "s"@
    } else {
        nat_digits(seconds_of(seconds)) + "s"@
    }
}

/// A length of time in words, or `--` for a negative one.
pub open spec fn duration_text(seconds: i32) -> Seq<char> {
    if seconds < 0 {
        "--"@
    } else {
        long_time(seconds)
    }
}

/// The colour of the remaining time.
pub open spec fn time_color(seconds: i32) -> u32 {
    if seconds < 0 {
        0x00CCCCCC
    } else if seconds <= 60 {
        0x004444FF
    } else if seconds <= 300 {
        0x00ff9933
    } else {
        0x00FFFFFF
    }
}

/// The seconds that a running pause has left, limited to 32 bits.
pub open spec fn pause_left(s: TimerState, m: Settings, now: LocalTime) -> i32 {
    clamp_i32(
        max_pause_duration(pause_config(m), pause_used_today(m, now)) - s.current_pause_elapsed,
    ) as i32
}

/// What the small readout says: the remaining time, or for a paused
/// countdown a pause mark and the time that the pause has left.
pub open spec fn readout_text(s: TimerState, m: Settings, now: LocalTime) -> Seq<char> {
    if s.is_paused {
        "II "@ + compact_time(pause_left(s, m, now))
    } else {
        compact_time(s.remaining_seconds)
    }
}

/// The colour of the small readout.
pub open spec fn readout_color(s: TimerState) -> u32 {
    if s.is_paused {
        0x0066CCFF
    } else {
        time_color(s.remaining_seconds)
    }
}

/// Scales a length meant at 96 dots per inch to `dpi` dots per inch.
pub fn scale(value: i32, dpi: u32) -> (r: i32)
    ensures
        r == scaled(value, dpi),
{
    assert(-0x8000_0000 * 0xFFFF_FFFF <= value * dpi <= 0x7FFF_FFFF * 0xFFFF_FFFF)
        by (nonlinear_arith)
        requires
            -0x8000_0000 <= value <= 0x7FFF_FFFF,
            0 <= dpi <= 0xFFFF_FFFF,
    ;
    let numerator: i64 = value as i64 * dpi as i64 + 48;
    if numerator >= 0 {
        saturate_i32((numerator / 96) as i128)
    } else {
        let magnitude: i64 = -numerator;
        saturate_i32(-((magnitude / 96) as i128))
    }
}

/// Scales the height of a font as any other length.
pub fn scale_font(size: i32, dpi: u32) -> (r: i32)
    ensures
        r == scaled(size, dpi),
{
    scale(size, dpi)
}

/// The remaining time for the small readout.
pub fn format_time_compact(seconds: i32) -> (s: String)
    ensures
        s@ == compact_time(seconds),
{
    if seconds < 0 {
        return String::from_str("--:--");
    }
    proof {
        reveal_strlit(":");
    }
    let hours: i32 = seconds / 3600;
    let minutes: i32 = (seconds % 3600) / 60;
    let secs: i32 = seconds % 60;
    let mut out = String::new();
    if hours > 0 {
        push_decimal(&mut out, hours as u64);
        out.append(":");
        push_padded(&mut out, minutes as u64, 2);
    } else {
        push_decimal(&mut out, minutes as u64);
    }
    out.append(":");
    push_padded(&mut out, secs as u64, 2);
    assert(out@ =~= compact_time(seconds));
    out
}

/// The remaining time for the blocking screen.
pub fn format_time(seconds: i32) -> (s: String)
    ensures
        s@ == long_time(seconds),
{
    if seconds < 0 {
        return String::from_str("--:--");
    }
    let hours: i32 = seconds / 3600;
    let minutes: i32 = (seconds % 3600) / 60;
    let secs: i32 = seconds % 60;
    let mut out = String::new();
    if hours > 0 {
        push_decimal(&mut out, hours as u64);
        out.append("h ");
        push_decimal(&mut out, minutes as u64);
        out.append("m ");
    } else if minutes > 0 {
        push_decimal(&mut out, minutes as u64);
        out.append("m ");
    }
    push_decimal(&mut out, secs as u64);
    out.append("s");
    assert(out@ =~= long_time(seconds));
    out
}

/// A length of time for the day's figures.
pub fn format_duration(seconds: i32) -> (s: String)
    ensures
        s@ == duration_text(seconds),
{
    if seconds < 0 {
        return String::from_str("--");
    }
    format_time(seconds)
}

/// The colour of the remaining time on the small readout.
pub fn get_time_color(seconds: i32) -> (color: u32)
    ensures
        color == time_color(seconds),
{
    if seconds < 0 {
        COLOR_TEXT_LIGHT
    } else if seconds <= 60 {
        COLOR_ERROR
    } else if seconds <= 300 {
        COLOR_ACCENT
    } else {
        COLOR_TEXT_WHITE
    }
}

/// The text and the colour of the small readout.
pub fn mini_overlay_readout(state: &TimerState, store: &SettingsStore, now: &LocalTime) -> (r: (
    String,
    u32,
))
    ensures
        r.0@ == readout_text(*state, store@, *now),
        r.1 == readout_color(*state),
{
    if state.is_paused {
        let max_duration = get_max_pause_duration(store, now);
        let left = saturate_i32(max_duration as i128 - state.current_pause_elapsed as i128);
        let mut text = String::from_str("II ");
        let time = format_time_compact(left);
        text.append(time.as_str());
        (text, COLOR_PAUSED)
    } else {
        (format_time_compact(state.remaining_seconds), get_time_color(state.remaining_seconds))
    }
}

} // verus!
