//! What the operator sees and edits behind the passcode: the day's figures,
//! and the passcode itself.

use vstd::prelude::*;
use vstd::string::*;
use crate::budget::daily_allowance;
use crate::clock::{get_current_weekday, weekday_index, LocalTime};
use crate::decimal::all_digits;
use crate::pause::{get_remaining_pause_budget, remaining_pause_budget};
use crate::seconds::{clamp_i32, minutes_in_seconds, minutes_to_seconds, saturate_i32};
use crate::settings::{
    daily_limit, get_daily_limit, get_passcode, get_pause_config, get_pause_log_today,
    get_pause_used_today, pause_config, pause_log, pause_used_today, Settings,
};
use crate::state::TimerState;
use crate::store::SettingsStore;

verus! {

/// The passcode that counts as stored where none is.
pub open spec fn default_passcode() -> Seq<char> {
    "0000"@
}

/// Why the passcode was not changed.
#[derive(Clone, Copy, Debug, PartialEq, Eq, Structural)]
pub enum PasscodeError {
    /// The current passcode was not the stored one.
    CurrentIncorrect,
    /// The new passcode is not four digits.
    NotFourDigits,
    /// The new passcode and its confirmation differ.
    Mismatch,
}

/// The figures of the day.
#[derive(Clone, Copy, Debug, PartialEq, Eq, Structural)]
pub struct DayStats {
    pub weekday: u32,
    pub daily_limit_minutes: u32,
    pub remaining_seconds: i32,
    pub used_seconds: i32,
    pub pause_enabled: bool,
    pub pause_used_seconds: i32,
    pub pause_budget_seconds: i32,
    pub pause_remaining_seconds: i32,
    pub pause_count: usize,
}

/// The passcode that a change has to name as the current one.
pub open spec fn current_passcode(m: Settings) -> Seq<char> {
    if m.contains_key("passcode"@) {
        m["passcode"@]
    } else {
        default_passcode()
    }
}

/// Whether `code` can serve as a passcode: four digits.
pub open spec fn valid_passcode(code: Seq<char>) -> bool {
    code.len() == 4 && all_digits(code)
}

/// The verdict on a change of passcode. A form with both new fields left
/// empty asks for no change and passes.
pub open spec fn passcode_change(
    m: Settings,
    current: Seq<char>,
    new: Seq<char>,
    confirm: Seq<char>,
) -> Result<(), PasscodeError> {
    if new.len() == 0 && confirm.len() == 0 {
        Ok(())
    } else if current != current_passcode(m) {
        Err(PasscodeError::CurrentIncorrect)
    } else if !valid_passcode(new) {
        Err(PasscodeError::NotFourDigits)
    } else if new != confirm {
        Err(PasscodeError::Mismatch)
    } else {
        Ok(())
    }
}

/// The seconds of the day's allowance that are used: none for a countdown
/// that is not loaded.
pub open spec fn used_seconds(s: TimerState, m: Settings, now: LocalTime) -> i32 {
    if s.remaining_seconds >= 0 {
        clamp_i32(daily_allowance(m, now) - s.remaining_seconds) as i32
    } else {
        0
    }
}

/// The figures of the day for a state.
pub open spec fn day_stats(s: TimerState, m: Settings, now: LocalTime) -> DayStats {
    DayStats {
        weekday: weekday_index(now) as u32,
        daily_limit_minutes: daily_limit(m, weekday_index(now)),
        remaining_seconds: s.remaining_seconds,
        used_seconds: used_seconds(s, m, now),
        pause_enabled: pause_config(m).enabled,
        pause_used_seconds: pause_used_today(m, now),
        pause_budget_seconds: clamp_i32(minutes_in_seconds(pause_config(m).daily_budget_minutes)) as i32,
        pause_remaining_seconds: remaining_pause_budget(pause_config(m), pause_used_today(m, now)) as i32,
        pause_count: pause_log(m, now).len() as usize,
    }
}

/// Whether `code` is four digits.
pub fn is_valid_passcode(code: &str) -> (ok: bool)
    ensures
        ok == valid_passcode(code@),
{
    if code.unicode_len() != 4 {
        return false;
    }
    let mut i: usize = 0;
    while i < 4
        invariant
            i <= 4,
            code@.len() == 4,
            forall|k: int| 0 <= k < i ==> crate::decimal::is_digit(#[trigger] code@[k]),
        decreases 4 - i,
    {
        let c = code.get_char(i);
        if c < '0' || c > '9' {
            assert(!crate::decimal::is_digit(code@[i as int]));
            return false;
        }
        i = i + 1;
    }
    true
}

/// Changes the passcode to `new` if `current` is the stored one, `new` is
/// four digits and `confirm` repeats it. Where both `new` and `confirm` are
/// empty nothing is asked for and nothing changes.
pub fn change_passcode(store: &mut SettingsStore, current: &str, new: &str, confirm: &str) -> (r:
    Result<(), PasscodeError>)
    ensures
        r == passcode_change(old(store)@, current@, new@, confirm@),
        final(store)@ == if r is Ok && !(new@.len() == 0 && confirm@.len() == 0) {
            old(store)@.insert("passcode"@, new@)
        } else {
            old(store)@
        },
{
    if new.unicode_len() == 0 && confirm.unicode_len() == 0 {
        return Ok(());
    }
    let stored = match get_passcode(store) {
        Some(code) => code,
        None => String::from_str("0000"),
    };
    if !(stored == String::from_str(current)) {
        return Err(PasscodeError::CurrentIncorrect);
    }
    if !is_valid_passcode(new) {
        return Err(PasscodeError::NotFourDigits);
    }
    if !(String::from_str(new) == String::from_str(confirm)) {
        return Err(PasscodeError::Mismatch);
    }
    store.set("passcode", new);
    Ok(())
}

/// The figures of the day.
pub fn get_day_stats(state: &TimerState, store: &SettingsStore, now: &LocalTime) -> (stats: DayStats)
    ensures
        stats == day_stats(*state, store@, *now),
{
    let weekday = get_current_weekday(now);
    let daily_limit_minutes = get_daily_limit(store, weekday);
    let daily_limit_seconds = saturate_i32(minutes_to_seconds(daily_limit_minutes) as i128);
    let remaining_seconds = state.remaining_seconds;
    let used: i32 = if remaining_seconds >= 0 {
        saturate_i32(daily_limit_seconds as i128 - remaining_seconds as i128)
    } else {
        0
    };
    let config = get_pause_config(store);
    let log = get_pause_log_today(store, now);
    assert(log@.len() == crate::settings::texts(log@).len());
    DayStats {
        weekday,
        daily_limit_minutes,
        remaining_seconds,
        used_seconds: used,
        pause_enabled: config.enabled,
        pause_used_seconds: get_pause_used_today(store, now),
        pause_budget_seconds: saturate_i32(minutes_to_seconds(config.daily_budget_minutes) as i128),
        pause_remaining_seconds: get_remaining_pause_budget(store, now),
        pause_count: log.len(),
    }
}

} // verus!
