//! The countdown: what one tick does to it, the warnings and the block that
//! a tick may set off, and the operations that add time or start the day
//! over.

use vstd::prelude::*;
use crate::clock::{get_current_weekday, weekday_index, LocalTime};
use crate::pause::{
    pause_elapsed_after_tick, pause_limit, pause_tick, pause_ticked_state, pause_ticked_store,
    resumed_store,
};
use crate::seconds::{clamp_i32, minutes_in_seconds, minutes_to_seconds, saturate_i32};
use crate::settings::{
    blocking_message, daily_limit, get_blocking_message, get_daily_limit,
    get_session_active_time, get_warning_config, load_remaining_time, loaded_remaining_time,
    pause_config, pause_used_today, save_remaining_time, save_session_active_time, saved_remaining_time,
    saved_session_active, session_active_time, warning_message, warning_minutes, Settings,
};
use crate::state::{effect_models, emit, Effect, EffectModel, TimerState, WARNING_DISPLAY_SECONDS};
use crate::store::SettingsStore;

verus! {

/// How often, in seconds of countdown, the counters are written to the store.
pub const PERSIST_INTERVAL_SECONDS: i32 = 30;

/// Whether a tick moves the countdown: it is not paused and time is left.
pub open spec fn counts_down(s: TimerState) -> bool {
    !s.is_paused && s.remaining_seconds > 0
}

/// The warning that falls due when the countdown arrives at `remaining`:
/// warning `n` if `remaining` is exactly its threshold, else nothing.
pub open spec fn warning_effects(m: Settings, n: nat, remaining: i32) -> Seq<EffectModel> {
    if remaining == minutes_in_seconds(warning_minutes(m, n)) {
        seq![
            EffectModel::ShowWarning { message: warning_message(m, n), duration_seconds: 10 },
        ]
    } else {
        Seq::empty()
    }
}

/// The block that falls due when the countdown arrives at `remaining`.
pub open spec fn blocking_effects(m: Settings, remaining: i32) -> Seq<EffectModel> {
    if remaining == 0 {
        seq![EffectModel::ShowBlocking { message: blocking_message(m) }]
    } else {
        Seq::empty()
    }
}

/// The state after a tick that moves the countdown: a second less remains,
/// a second more was active, and the state is blocked once nothing remains.
pub open spec fn counted_state(s: TimerState) -> TimerState {
    TimerState {
        remaining_seconds: (s.remaining_seconds - 1) as i32,
        session_active_seconds: clamp_i32(s.session_active_seconds + 1) as i32,
        blocked: s.blocked || s.remaining_seconds == 1,
        ..s
    }
}

/// The store after a tick that moves the countdown: on every thirtieth
/// second of the countdown both counters are written, else nothing is.
pub open spec fn counted_store(s: TimerState, m: Settings, now: LocalTime) -> Settings {
    let next = counted_state(s);
    if next.remaining_seconds % 30 == 0 {
        saved_session_active(
            saved_remaining_time(m, now, next.remaining_seconds),
            now,
            next.session_active_seconds,
        )
    } else {
        m
    }
}

/// The display commands of a tick that moves the countdown: the first
/// warning, the second, the block, each only if due, then a refresh.
pub open spec fn counted_effects(s: TimerState, m: Settings) -> Seq<EffectModel> {
    let remaining = counted_state(s).remaining_seconds;
    warning_effects(m, 1, remaining) + warning_effects(m, 2, remaining) + blocking_effects(
        m,
        remaining,
    ) + seq![EffectModel::RefreshCountdownDisplay]
}

/// The state after one tick.
pub open spec fn ticked_state(s: TimerState, m: Settings, now: LocalTime) -> TimerState {
    if s.is_paused {
        pause_ticked_state(s, m, now)
    } else if s.remaining_seconds > 0 {
        counted_state(s)
    } else {
        s
    }
}

/// The store after one tick.
pub open spec fn ticked_store(s: TimerState, m: Settings, now: LocalTime) -> Settings {
    if s.is_paused {
        pause_ticked_store(s, m, now)
    } else if s.remaining_seconds > 0 {
        counted_store(s, m, now)
    } else {
        m
    }
}

/// The display commands of one tick.
pub open spec fn tick_effects(s: TimerState, m: Settings) -> Seq<EffectModel> {
    if counts_down(s) {
        counted_effects(s, m)
    } else {
        seq![EffectModel::RefreshCountdownDisplay]
    }
}

/// The remaining seconds after `minutes` are added. Time added to a
/// countdown that was never loaded starts from nothing.
pub open spec fn extended_remaining(remaining: i32, minutes: i32) -> i32 {
    if remaining < 0 {
        clamp_i32(minutes * 60) as i32
    } else {
        clamp_i32(remaining + minutes * 60) as i32
    }
}

/// The state after `minutes` are added: never blocked.
pub open spec fn extended_state(s: TimerState, minutes: i32) -> TimerState {
    TimerState {
        remaining_seconds: extended_remaining(s.remaining_seconds, minutes),
        blocked: false,
        ..s
    }
}

/// The display commands of an extension: the block is lifted if there was
/// one.
pub open spec fn extend_effects(s: TimerState) -> Seq<EffectModel> {
    if s.blocked {
        seq![EffectModel::HideBlocking]
    } else {
        Seq::empty()
    }
}

/// The allowance of the day of `now`, in seconds.
pub open spec fn daily_allowance(m: Settings, now: LocalTime) -> i32 {
    clamp_i32(minutes_in_seconds(daily_limit(m, weekday_index(now)))) as i32
}

/// The state after the countdown is set back to the day's allowance.
pub open spec fn reset_state(s: TimerState, m: Settings, now: LocalTime) -> TimerState {
    TimerState { remaining_seconds: daily_allowance(m, now), ..s }
}

/// The store after the countdown is set back to the day's allowance.
pub open spec fn reset_store(m: Settings, now: LocalTime) -> Settings {
    saved_remaining_time(m, now, daily_allowance(m, now))
}

/// The remaining seconds at startup: what was saved for the day, or the
/// day's allowance if nothing was.
pub open spec fn initial_remaining(m: Settings, now: LocalTime) -> i32 {
    match loaded_remaining_time(m, now) {
        Some(seconds) => seconds,
        None => daily_allowance(m, now),
    }
}

/// The state at startup: blocked at once if nothing remains.
pub open spec fn initial_state(m: Settings, now: LocalTime) -> TimerState {
    TimerState {
        remaining_seconds: initial_remaining(m, now),
        blocked: initial_remaining(m, now) <= 0,
        is_paused: false,
        pause_started_at: 0,
        current_pause_elapsed: 0,
        session_active_seconds: session_active_time(m, now),
    }
}

/// The display commands at startup: the block is shown again if nothing
/// remains.
pub open spec fn initial_effects(m: Settings, now: LocalTime) -> Seq<EffectModel> {
    if initial_remaining(m, now) <= 0 {
        seq![EffectModel::ShowBlocking { message: blocking_message(m) }]
    } else {
        Seq::empty()
    }
}

/// Queues warning `warning_num` if the countdown has arrived exactly at its
/// threshold.
fn emit_warning_if_due(
    store: &SettingsStore,
    warning_num: u32,
    remaining: i32,
    effects: &mut Vec<Effect>,
)
    ensures
        effect_models(final(effects)@) == effect_models(old(effects)@) + warning_effects(
            store@,
            warning_num as nat,
            remaining,
        ),
{
    let (minutes, message) = get_warning_config(store, warning_num);
    if remaining as i64 == minutes_to_seconds(minutes) {
        emit(effects, Effect::ShowWarning { message, duration_seconds: WARNING_DISPLAY_SECONDS });
        assert(effect_models(effects@) =~= effect_models(old(effects)@) + warning_effects(
            store@,
            warning_num as nat,
            remaining,
        ));
    } else {
        assert(effect_models(effects@) =~= effect_models(old(effects)@) + warning_effects(
            store@,
            warning_num as nat,
            remaining,
        ));
    }
}

/// One second has passed. A paused countdown does not move; its pause runs
/// on and may end. A running countdown with time left loses a second, and
/// what falls due at the second it arrives at is queued. A countdown with
/// nothing left stays as it is.
pub fn tick(
    state: &mut TimerState,
    store: &mut SettingsStore,
    now: &LocalTime,
    effects: &mut Vec<Effect>,
)
    ensures
        *final(state) == ticked_state(*old(state), old(store)@, *now),
        final(store)@ == ticked_store(*old(state), old(store)@, *now),
        effect_models(final(effects)@) == effect_models(old(effects)@) + tick_effects(
            *old(state),
            old(store)@,
        ),
{
    if state.is_paused {
        pause_tick(state, store, now, effects);
        assert(effect_models(effects@) =~= effect_models(old(effects)@) + tick_effects(
            *old(state),
            old(store)@,
        ));
    } else if state.remaining_seconds > 0 {
        let new_time: i32 = state.remaining_seconds - 1;
        let active = saturate_i32(state.session_active_seconds as i128 + 1);
        state.remaining_seconds = new_time;
        state.session_active_seconds = active;
        emit_warning_if_due(store, 1, new_time, effects);
        emit_warning_if_due(store, 2, new_time, effects);
        if new_time == 0 {
            let message = get_blocking_message(store);
            emit(effects, Effect::ShowBlocking { message });
            state.blocked = true;
        }
        emit(effects, Effect::RefreshCountdownDisplay);
        assert(effect_models(effects@) =~= effect_models(old(effects)@) + tick_effects(
            *old(state),
            old(store)@,
        ));
        if new_time % PERSIST_INTERVAL_SECONDS == 0 {
            save_remaining_time(store, now, new_time);
            save_session_active_time(store, now, active);
        }
    } else {
        emit(effects, Effect::RefreshCountdownDisplay);
        assert(effect_models(effects@) =~= effect_models(old(effects)@) + tick_effects(
            *old(state),
            old(store)@,
        ));
    }
}

/// Adds `minutes` to the remaining time and lifts the block if there is one.
/// Always succeeds; whether the caller may extend is the caller's to settle.
pub fn extend_time(state: &mut TimerState, minutes: i32, effects: &mut Vec<Effect>)
    ensures
        *final(state) == extended_state(*old(state), minutes),
        effect_models(final(effects)@) == effect_models(old(effects)@) + extend_effects(
            *old(state),
        ),
{
    let additional: i128 = minutes as i128 * 60;
    if state.remaining_seconds < 0 {
        state.remaining_seconds = saturate_i32(additional);
    } else {
        state.remaining_seconds = saturate_i32(state.remaining_seconds as i128 + additional);
    }
    if state.blocked {
        state.blocked = false;
        emit(effects, Effect::HideBlocking);
    }
    assert(effect_models(effects@) =~= effect_models(old(effects)@) + extend_effects(*old(state)));
}

/// Sets the remaining time back to the allowance of the day of `now`, saves
/// it, and has the display refreshed.
pub fn reset_timer(
    state: &mut TimerState,
    store: &mut SettingsStore,
    now: &LocalTime,
    effects: &mut Vec<Effect>,
)
    ensures
        *final(state) == reset_state(*old(state), old(store)@, *now),
        final(store)@ == reset_store(old(store)@, *now),
        effect_models(final(effects)@) == effect_models(old(effects)@).push(
            EffectModel::RefreshCountdownDisplay,
        ),
{
    let weekday = get_current_weekday(now);
    let limit_minutes = get_daily_limit(store, weekday);
    let limit_seconds = saturate_i32(minutes_to_seconds(limit_minutes) as i128);
    state.remaining_seconds = limit_seconds;
    save_remaining_time(store, now, limit_seconds);
    emit(effects, Effect::RefreshCountdownDisplay);
}

/// The state with which the day's session starts or goes on after a
/// restart. Where nothing remains, the block is queued again.
pub fn start_session(store: &SettingsStore, now: &LocalTime, effects: &mut Vec<Effect>) -> (state:
    TimerState)
    ensures
        state == initial_state(store@, *now),
        effect_models(final(effects)@) == effect_models(old(effects)@) + initial_effects(
            store@,
            *now,
        ),
{
    let remaining = match load_remaining_time(store, now) {
        Some(seconds) => seconds,
        None => {
            let weekday = get_current_weekday(now);
            saturate_i32(minutes_to_seconds(get_daily_limit(store, weekday)) as i128)
        },
    };
    let session_active = get_session_active_time(store, now);
    if remaining <= 0 {
        let message = get_blocking_message(store);
        emit(effects, Effect::ShowBlocking { message });
    }
    assert(effect_models(effects@) =~= effect_models(old(effects)@) + initial_effects(
        store@,
        *now,
    ));
    TimerState {
        remaining_seconds: remaining,
        blocked: remaining <= 0,
        is_paused: false,
        pause_started_at: 0,
        current_pause_elapsed: 0,
        session_active_seconds: session_active,
    }
}

/// A tick of a running countdown with time left takes exactly one second
/// off the remaining time and adds exactly one to the active time, as long
/// as the active time is below the 32-bit maximum.
pub proof fn lemma_tick_counts_one_second(s: TimerState, m: Settings, now: LocalTime)
    requires
        !s.is_paused,
        s.remaining_seconds > 0,
        s.session_active_seconds < i32::MAX,
    ensures
        ticked_state(s, m, now).remaining_seconds == s.remaining_seconds - 1,
        ticked_state(s, m, now).session_active_seconds == s.session_active_seconds + 1,
{
}

/// A tick of a paused countdown leaves the remaining time alone. While the
/// pause is short of its limit, the tick adds one second to it and the pause
/// ends exactly when that second brings it to the limit.
pub proof fn lemma_tick_while_paused(s: TimerState, m: Settings, now: LocalTime)
    requires
        s.is_paused,
        s.current_pause_elapsed < i32::MAX,
        s.current_pause_elapsed + 1 <= pause_limit(pause_config(m), pause_used_today(m, now)),
    ensures
        ticked_state(s, m, now).remaining_seconds == s.remaining_seconds,
        ticked_state(s, m, now).session_active_seconds == s.session_active_seconds,
        pause_elapsed_after_tick(s) == s.current_pause_elapsed + 1,
        !ticked_state(s, m, now).is_paused <==> s.current_pause_elapsed + 1 == pause_limit(
            pause_config(m),
            pause_used_today(m, now),
        ),
        ticked_state(s, m, now).is_paused ==> ticked_state(s, m, now).current_pause_elapsed
            == s.current_pause_elapsed + 1 && ticked_store(s, m, now) == m,
        !ticked_state(s, m, now).is_paused ==> ticked_store(s, m, now) == resumed_store(
            m,
            now,
            (s.current_pause_elapsed + 1) as i32,
        ),
{
}

/// A tick never adds time and never takes a loaded countdown below zero. It
/// blocks exactly when it takes the last second, queues the block exactly
/// then, and never lifts a block.
pub proof fn lemma_tick_blocks_at_zero(s: TimerState, m: Settings, now: LocalTime)
    ensures
        ticked_state(s, m, now).remaining_seconds <= s.remaining_seconds,
        s.remaining_seconds >= 0 ==> ticked_state(s, m, now).remaining_seconds >= 0,
        ticked_state(s, m, now).blocked == (s.blocked || (counts_down(s) && s.remaining_seconds
            == 1)),
        tick_effects(s, m).contains(EffectModel::ShowBlocking { message: blocking_message(m) })
            <==> counts_down(s) && s.remaining_seconds == 1,
{
    let block = EffectModel::ShowBlocking { message: blocking_message(m) };
    let effects = tick_effects(s, m);
    if counts_down(s) {
        let remaining = counted_state(s).remaining_seconds;
        let first = warning_effects(m, 1, remaining);
        let second = warning_effects(m, 2, remaining);
        let blocking = blocking_effects(m, remaining);
        let refresh = seq![EffectModel::RefreshCountdownDisplay];
        assert(effects == first + second + blocking + refresh);
        if s.remaining_seconds == 1 {
            assert(blocking[0] == block);
            assert(effects[(first.len() + second.len()) as int] == block);
        } else {
            assert(blocking.len() == 0);
            assert forall|i: int| 0 <= i < effects.len() implies effects[i] != block by {
                if i < first.len() {
                    assert(effects[i] == first[i]);
                } else if i < first.len() + second.len() {
                    assert(effects[i] == second[i - first.len()]);
                } else {
                    assert(effects[i] == refresh[i - first.len() - second.len()]);
                }
            }
        }
    } else {
        assert(effects[0] != block);
    }
}

/// Adding no minutes to a loaded countdown that is not blocked changes
/// nothing and queues nothing.
pub proof fn lemma_extend_by_zero(s: TimerState)
    requires
        s.remaining_seconds >= 0,
        !s.blocked,
    ensures
        extended_state(s, 0) == s,
        extend_effects(s) == Seq::<EffectModel>::empty(),
{
}

/// No daily limit is stored under a key of the day's remaining time.
pub proof fn lemma_limit_keys_are_not_dated(weekday: int, now: LocalTime)
    ensures
        crate::settings::weekday_key(weekday) != crate::settings::remaining_time_key(now),
{
    reveal_strlit("remaining_time_");
    reveal_strlit("limit_monday");
    reveal_strlit("limit_tuesday");
    reveal_strlit("limit_wednesday");
    reveal_strlit("limit_thursday");
    reveal_strlit("limit_friday");
    reveal_strlit("limit_saturday");
    reveal_strlit("limit_sunday");
    let dated = crate::settings::remaining_time_key(now);
    assert(dated[0] == 'r');
    assert(crate::settings::weekday_key(weekday)[0] == 'l');
}

/// Resetting twice gives what resetting once gives: the same state and the
/// same store.
pub proof fn lemma_reset_twice(s: TimerState, m: Settings, now: LocalTime)
    ensures
        reset_state(reset_state(s, m, now), reset_store(m, now), now) == reset_state(s, m, now),
        reset_store(reset_store(m, now), now) == reset_store(m, now),
{
    lemma_limit_keys_are_not_dated(weekday_index(now), now);
    assert(daily_allowance(reset_store(m, now), now) == daily_allowance(m, now));
    assert(reset_store(reset_store(m, now), now) =~= reset_store(m, now));
}

/// What a tick or a reset saved for the day is what the next start of that
/// day goes on with.
pub proof fn lemma_restart_restores_remaining(m: Settings, now: LocalTime, seconds: i32)
    ensures
        initial_remaining(saved_remaining_time(m, now, seconds), now) == seconds,
        initial_state(saved_remaining_time(m, now, seconds), now).remaining_seconds == seconds,
{
    crate::settings::lemma_remaining_time_round_trip(m, now, seconds);
}

} // verus!
