//! The pause: a suspension of the countdown that draws on a daily budget of
//! its own, must wait out a cooldown after the previous pause, is open only
//! after a minimum of active time, and ends by itself when it has run as
//! long as the rules allow.

use vstd::prelude::*;
use crate::clock::{get_current_timestamp, timestamp, LocalTime};
use crate::seconds::{clamp_i32, minutes_in_seconds, minutes_to_seconds, saturate_i32};
use crate::settings::{
    get_last_pause_end, get_pause_config, get_pause_used_today, last_pause_end,
    log_pause_event, logged_pause_event, pause_config, pause_log_key, pause_used_key,
    pause_used_today, save_last_pause_end, save_pause_used_today, saved_last_pause_end,
    saved_pause_used, PauseConfig, Settings,
};
use crate::state::{effect_models, emit, Effect, EffectModel, TimerState};
use crate::store::SettingsStore;

verus! {

/// Why the countdown cannot be paused now.
#[derive(Clone, Copy, Debug, PartialEq, Eq, Structural)]
pub enum PauseBlockedReason {
    Disabled,
    BudgetExhausted,
    CooldownActive { seconds_remaining: i32 },
    MinActiveTimeNotMet { seconds_remaining: i32 },
    TimeTooLow,
}

/// The least remaining time, in seconds, at which a pause may begin.
pub const MIN_REMAINING_FOR_PAUSE: i32 = 60;

/// Seconds since the last pause ended.
pub open spec fn since_last_pause(m: Settings, now: LocalTime) -> int {
    timestamp(now) - last_pause_end(m)
}

/// The verdict on a request to pause. The checks are made in this order and
/// the first that fails decides. The seconds that a reason carries are
/// limited to 32 bits.
pub open spec fn pause_eligibility(s: TimerState, m: Settings, now: LocalTime) -> Result<
    (),
    PauseBlockedReason,
> {
    let config = pause_config(m);
    let cooldown = minutes_in_seconds(config.cooldown_minutes);
    let min_active = minutes_in_seconds(config.min_active_time_minutes);
    if s.is_paused {
        Ok(())
    } else if !config.enabled {
        Err(PauseBlockedReason::Disabled)
    } else if s.remaining_seconds < 60 {
        Err(PauseBlockedReason::TimeTooLow)
    } else if pause_used_today(m, now) >= minutes_in_seconds(config.daily_budget_minutes) {
        Err(PauseBlockedReason::BudgetExhausted)
    } else if last_pause_end(m) > 0 && since_last_pause(m, now) < cooldown {
        Err(
            PauseBlockedReason::CooldownActive {
                seconds_remaining: clamp_i32(cooldown - since_last_pause(m, now)) as i32,
            },
        )
    } else if s.session_active_seconds < min_active {
        Err(
            PauseBlockedReason::MinActiveTimeNotMet {
                seconds_remaining: clamp_i32(min_active - s.session_active_seconds) as i32,
            },
        )
    } else {
        Ok(())
    }
}

/// The pause budget that is left for display: never below zero, limited to
/// 32 bits.
pub open spec fn remaining_pause_budget(config: PauseConfig, used: i32) -> int {
    let left = minutes_in_seconds(config.daily_budget_minutes) - used;
    if left < 0 {
        0
    } else {
        clamp_i32(left)
    }
}

/// The longest that a pause begun now could last, for display: the shorter
/// of the longest single pause and the budget that is left.
pub open spec fn max_pause_duration(config: PauseConfig, used: i32) -> int {
    let single = clamp_i32(minutes_in_seconds(config.max_duration_minutes));
    let left = remaining_pause_budget(config, used);
    if single <= left {
        single
    } else {
        left
    }
}

/// The elapsed seconds at which a running pause ends by itself: the shorter
/// of the longest single pause and the budget less what is used.
pub open spec fn pause_limit(config: PauseConfig, used: i32) -> int {
    let single = minutes_in_seconds(config.max_duration_minutes);
    let left = minutes_in_seconds(config.daily_budget_minutes) - used;
    if single <= left {
        single
    } else {
        left
    }
}

/// The state once a pause has begun at `now`.
pub open spec fn paused_state(s: TimerState, now: LocalTime) -> TimerState {
    TimerState {
        is_paused: true,
        pause_started_at: timestamp(now) as i64,
        current_pause_elapsed: 0,
        ..s
    }
}

/// The state once a pause has ended.
pub open spec fn resumed_state(s: TimerState) -> TimerState {
    TimerState { is_paused: false, pause_started_at: 0, current_pause_elapsed: 0, ..s }
}

/// The store once a pause of `duration` seconds has ended at `now`: the
/// duration is added to the day's used pause, the pause is logged, and `now`
/// is recorded as the end of the last pause.
pub open spec fn resumed_store(m: Settings, now: LocalTime, duration: i32) -> Settings {
    let used = clamp_i32(pause_used_today(m, now) + duration) as i32;
    saved_last_pause_end(
        logged_pause_event(saved_pause_used(m, now, used), now, duration),
        timestamp(now) as i64,
    )
}

/// A pause that has run for one second more.
pub open spec fn pause_elapsed_after_tick(s: TimerState) -> i32 {
    clamp_i32(s.current_pause_elapsed + 1) as i32
}

/// Whether one more second brings a running pause to its end.
pub open spec fn pause_ends_on_tick(s: TimerState, m: Settings, now: LocalTime) -> bool {
    pause_elapsed_after_tick(s) >= pause_limit(pause_config(m), pause_used_today(m, now))
}

/// The state after one tick of a running pause.
pub open spec fn pause_ticked_state(s: TimerState, m: Settings, now: LocalTime) -> TimerState {
    if pause_ends_on_tick(s, m, now) {
        resumed_state(s)
    } else {
        TimerState { current_pause_elapsed: pause_elapsed_after_tick(s), ..s }
    }
}

/// The store after one tick of a running pause.
pub open spec fn pause_ticked_store(s: TimerState, m: Settings, now: LocalTime) -> Settings {
    if pause_ends_on_tick(s, m, now) {
        resumed_store(m, now, pause_elapsed_after_tick(s))
    } else {
        m
    }
}

/// Says whether the countdown may be paused now, and why not if it may not.
/// A countdown that is already paused may always be resumed, so the answer
/// for it is `Ok`.
pub fn can_pause(state: &TimerState, store: &SettingsStore, now: &LocalTime) -> (r: Result<
    (),
    PauseBlockedReason,
>)
    ensures
        r == pause_eligibility(*state, store@, *now),
{
    if state.is_paused {
        return Ok(());
    }
    let config = get_pause_config(store);
    if !config.enabled {
        return Err(PauseBlockedReason::Disabled);
    }
    if state.remaining_seconds < MIN_REMAINING_FOR_PAUSE {
        return Err(PauseBlockedReason::TimeTooLow);
    }
    let pause_used = get_pause_used_today(store, now);
    let budget_seconds = minutes_to_seconds(config.daily_budget_minutes);
    if pause_used as i64 >= budget_seconds {
        return Err(PauseBlockedReason::BudgetExhausted);
    }
    let last_end = get_last_pause_end(store);
    let current_time = get_current_timestamp(now);
    let cooldown_seconds = minutes_to_seconds(config.cooldown_minutes);
    let since: i128 = current_time as i128 - last_end as i128;
    if last_end > 0 && since < cooldown_seconds as i128 {
        return Err(
            PauseBlockedReason::CooldownActive {
                seconds_remaining: saturate_i32(cooldown_seconds as i128 - since),
            },
        );
    }
    let min_active_seconds = minutes_to_seconds(config.min_active_time_minutes);
    if (state.session_active_seconds as i64) < min_active_seconds {
        return Err(
            PauseBlockedReason::MinActiveTimeNotMet {
                seconds_remaining: saturate_i32(
                    min_active_seconds as i128 - state.session_active_seconds as i128,
                ),
            },
        );
    }
    Ok(())
}

/// The pause budget that is left today, in seconds, for display.
pub fn get_remaining_pause_budget(store: &SettingsStore, now: &LocalTime) -> (seconds: i32)
    ensures
        seconds == remaining_pause_budget(pause_config(store@), pause_used_today(store@, *now)),
{
    let config = get_pause_config(store);
    let budget_seconds = minutes_to_seconds(config.daily_budget_minutes);
    let used = get_pause_used_today(store, now);
    let left: i64 = budget_seconds - used as i64;
    if left < 0 {
        0
    } else {
        saturate_i32(left as i128)
    }
}

/// The longest that a pause begun now could last, in seconds, for display.
pub fn get_max_pause_duration(store: &SettingsStore, now: &LocalTime) -> (seconds: i32)
    ensures
        seconds == max_pause_duration(pause_config(store@), pause_used_today(store@, *now)),
{
    let config = get_pause_config(store);
    let max_single = saturate_i32(minutes_to_seconds(config.max_duration_minutes) as i128);
    let remaining_budget = get_remaining_pause_budget(store, now);
    if max_single <= remaining_budget {
        max_single
    } else {
        remaining_budget
    }
}

/// Begins a pause at `now`. Nothing is written to the store.
pub fn pause_timer(state: &mut TimerState, now: &LocalTime, effects: &mut Vec<Effect>)
    ensures
        *final(state) == paused_state(*old(state), *now),
        effect_models(final(effects)@) == effect_models(old(effects)@).push(
            EffectModel::RefreshCountdownDisplay,
        ),
{
    state.pause_started_at = get_current_timestamp(now);
    state.current_pause_elapsed = 0;
    state.is_paused = true;
    emit(effects, Effect::RefreshCountdownDisplay);
}

/// Ends the pause at `now` and accounts for the seconds it has run.
pub fn resume_timer(
    state: &mut TimerState,
    store: &mut SettingsStore,
    now: &LocalTime,
    effects: &mut Vec<Effect>,
)
    ensures
        *final(state) == resumed_state(*old(state)),
        final(store)@ == resumed_store(old(store)@, *now, old(state).current_pause_elapsed),
        effect_models(final(effects)@) == effect_models(old(effects)@).push(
            EffectModel::RefreshCountdownDisplay,
        ),
{
    let pause_duration = state.current_pause_elapsed;
    let total_used = saturate_i32(
        get_pause_used_today(store, now) as i128 + pause_duration as i128,
    );
    save_pause_used_today(store, now, total_used);
    log_pause_event(store, now, pause_duration);
    let ended_at = get_current_timestamp(now);
    save_last_pause_end(store, ended_at);
    state.is_paused = false;
    state.pause_started_at = 0;
    state.current_pause_elapsed = 0;
    emit(effects, Effect::RefreshCountdownDisplay);
}

/// Resumes a paused countdown and answers `Ok(false)`; pauses a running one
/// if the rules allow and answers `Ok(true)`; otherwise changes nothing and
/// answers with the reason.
pub fn toggle_pause(
    state: &mut TimerState,
    store: &mut SettingsStore,
    now: &LocalTime,
    effects: &mut Vec<Effect>,
) -> (r: Result<bool, PauseBlockedReason>)
    ensures
        old(state).is_paused ==> r == Ok::<bool, PauseBlockedReason>(false) && *final(state)
            == resumed_state(*old(state)) && final(store)@ == resumed_store(
            old(store)@,
            *now,
            old(state).current_pause_elapsed,
        ),
        !old(state).is_paused ==> match pause_eligibility(*old(state), old(store)@, *now) {
            Ok(_) => r == Ok::<bool, PauseBlockedReason>(true) && *final(state) == paused_state(
                *old(state),
                *now,
            ),
            Err(reason) => r == Err::<bool, PauseBlockedReason>(reason) && *final(state) == *old(
                state,
            ),
        },
        !old(state).is_paused ==> final(store)@ == old(store)@,
        r is Ok ==> effect_models(final(effects)@) == effect_models(old(effects)@).push(
            EffectModel::RefreshCountdownDisplay,
        ),
        r is Err ==> effect_models(final(effects)@) == effect_models(old(effects)@),
{
    if state.is_paused {
        resume_timer(state, store, now, effects);
        Ok(false)
    } else {
        match can_pause(state, store, now) {
            Ok(_) => {
                pause_timer(state, now, effects);
                Ok(true)
            },
            Err(reason) => Err(reason),
        }
    }
}

/// One tick of a running pause: a second more has elapsed, and the pause
/// ends by itself if that brings it to its limit. The remaining time does not
/// move.
pub fn pause_tick(
    state: &mut TimerState,
    store: &mut SettingsStore,
    now: &LocalTime,
    effects: &mut Vec<Effect>,
)
    requires
        old(state).is_paused,
    ensures
        *final(state) == pause_ticked_state(*old(state), old(store)@, *now),
        final(store)@ == pause_ticked_store(*old(state), old(store)@, *now),
        effect_models(final(effects)@) == effect_models(old(effects)@).push(
            EffectModel::RefreshCountdownDisplay,
        ),
{
    let config = get_pause_config(store);
    let used = get_pause_used_today(store, now);
    let single = minutes_to_seconds(config.max_duration_minutes);
    let left: i64 = minutes_to_seconds(config.daily_budget_minutes) - used as i64;
    let limit: i64 = if single <= left {
        single
    } else {
        left
    };
    let elapsed = saturate_i32(state.current_pause_elapsed as i128 + 1);
    state.current_pause_elapsed = elapsed;
    if elapsed as i64 >= limit {
        resume_timer(state, store, now, effects);
    } else {
        emit(effects, Effect::RefreshCountdownDisplay);
    }
}

/// A toggle that paused is undone by the next toggle, whatever the rules
/// say by then: the state is as it was, and the pause of no seconds is
/// accounted for.
pub proof fn lemma_second_toggle_resumes(s: TimerState, m: Settings, now: LocalTime)
    requires
        !s.is_paused,
        s.pause_started_at == 0,
        s.current_pause_elapsed == 0,
    ensures
        paused_state(s, now).is_paused,
        resumed_state(paused_state(s, now)) == s,
        resumed_store(m, now, paused_state(s, now).current_pause_elapsed) == resumed_store(
            m,
            now,
            0,
        ),
{
}

/// The day's used pause, the day's pause log and the end of the last pause
/// are kept under three different keys.
pub proof fn lemma_pause_keys_differ(now: LocalTime)
    ensures
        pause_used_key(now) != pause_log_key(now),
        pause_used_key(now) != "pause_last_end_timestamp"@,
        pause_log_key(now) != "pause_last_end_timestamp"@,
{
    reveal_strlit("pause_used_");
    reveal_strlit("pause_log_");
    reveal_strlit("pause_last_end_timestamp");
    assert(pause_used_key(now)[6] == 'u');
    assert(pause_log_key(now)[6] == 'l');
    assert(pause_log_key(now)[7] == 'o');
    assert("pause_last_end_timestamp"@[6] == 'l');
    assert("pause_last_end_timestamp"@[7] == 'a');
}

/// After a pause has ended, the store holds the day's used pause with the
/// seconds of that pause added, limited to 32 bits, and the time at which it
/// ended.
pub proof fn lemma_resume_accounts(m: Settings, now: LocalTime, duration: i32)
    ensures
        pause_used_today(resumed_store(m, now, duration), now) == clamp_i32(
            pause_used_today(m, now) + duration,
        ),
        last_pause_end(resumed_store(m, now, duration)) == timestamp(now),
{
    lemma_pause_keys_differ(now);
    let used = clamp_i32(pause_used_today(m, now) + duration) as i32;
    crate::settings::lemma_counters_round_trip(m, now, used, timestamp(now) as i64);
    crate::settings::lemma_counters_round_trip(
        logged_pause_event(saved_pause_used(m, now, used), now, duration),
        now,
        used,
        timestamp(now) as i64,
    );
}

/// As long as a cooldown is configured, a pause cannot follow at the very
/// time at which a pause has just ended.
pub proof fn lemma_cooldown_follows_resume(s: TimerState, m: Settings, now: LocalTime, duration: i32)
    requires
        !s.is_paused,
        timestamp(now) > 0,
        pause_config(resumed_store(m, now, duration)).cooldown_minutes > 0,
    ensures
        pause_eligibility(s, resumed_store(m, now, duration), now) is Err,
{
    lemma_resume_accounts(m, now, duration);
}

} // verus!
