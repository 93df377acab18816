//! The local wall-clock reading that the engine is handed, and what is
//! derived from it: the date that scopes the day's keys, the weekday that
//! selects the daily limit, and the coarse timestamp used for cooldowns.

use vstd::prelude::*;
use vstd::string::*;
use crate::decimal::{padded_decimal, push_padded};

verus! {

/// A reading of the local clock. `day_of_week` counts from Sunday as 0.
#[derive(Clone, Copy, Debug)]
pub struct LocalTime {
    pub year: u16,
    pub month: u16,
    pub day_of_week: u16,
    pub day: u16,
    pub hour: u16,
    pub minute: u16,
    pub second: u16,
}

/// The date as `YYYY-MM-DD`.
pub open spec fn date_text(t: LocalTime) -> Seq<char> {
    padded_decimal(t.year as nat, 4) + seq!['-'] + padded_decimal(t.month as nat, 2) + seq!['-']
        + padded_decimal(t.day as nat, 2)
}

/// The time of day as `HH:MM:SS`.
pub open spec fn time_text(t: LocalTime) -> Seq<char> {
    padded_decimal(t.hour as nat, 2) + seq![':'] + padded_decimal(t.minute as nat, 2) + seq![':']
        + padded_decimal(t.second as nat, 2)
}

/// The weekday counted from Monday as 0 to Sunday as 6.
pub open spec fn weekday_index(t: LocalTime) -> int {
    if t.day_of_week == 0 {
        6
    } else {
        t.day_of_week - 1
    }
}

/// Seconds on a simplified calendar of 365-day years and 30-day months.
/// Only differences between two readings are meaningful.
pub open spec fn timestamp(t: LocalTime) -> int {
    ((t.year - 1970) * 365 + (t.month - 1) * 30 + t.day) * 86400 + t.hour * 3600 + t.minute * 60
        + t.second
}

/// The date of `now` as `YYYY-MM-DD`.
pub fn get_today_date(now: &LocalTime) -> (s: String)
    ensures
        s@ == date_text(*now),
{
    proof {
        reveal_strlit("-");
    }
    let mut out = String::new();
    push_padded(&mut out, now.year as u64, 4);
    out.append("-");
    push_padded(&mut out, now.month as u64, 2);
    out.append("-");
    push_padded(&mut out, now.day as u64, 2);
    assert(out@ =~= date_text(*now));
    out
}

/// The time of day of `now` as `HH:MM:SS`.
pub fn get_time_of_day(now: &LocalTime) -> (s: String)
    ensures
        s@ == time_text(*now),
{
    proof {
        reveal_strlit(":");
    }
    let mut out = String::new();
    push_padded(&mut out, now.hour as u64, 2);
    out.append(":");
    push_padded(&mut out, now.minute as u64, 2);
    out.append(":");
    push_padded(&mut out, now.second as u64, 2);
    assert(out@ =~= time_text(*now));
    out
}

/// The weekday of `now`, Monday as 0 to Sunday as 6.
pub fn get_current_weekday(now: &LocalTime) -> (w: u32)
    ensures
        w == weekday_index(*now),
{
    if now.day_of_week == 0 {
        6
    } else {
        (now.day_of_week - 1) as u32
    }
}

/// The timestamp of `now`.
pub fn get_current_timestamp(now: &LocalTime) -> (ts: i64)
    ensures
        ts == timestamp(*now),
{
    let days: i64 = (now.year as i64 - 1970) * 365 + (now.month as i64 - 1) * 30 + now.day as i64;
    days * 86400 + now.hour as i64 * 3600 + now.minute as i64 * 60 + now.second as i64
}

} // verus!
