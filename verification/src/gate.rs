//! The ways out of the block. Each asks for the passcode and compares it
//! with the stored one for plain equality. A wrong passcode changes nothing
//! and is not counted: there is no lockout.

use vstd::prelude::*;
use vstd::string::*;
use crate::budget::{extend_time, extended_state};
use crate::clock::LocalTime;
use crate::settings::{get_passcode, save_remaining_time, saved_remaining_time, Settings};
use crate::state::{effect_models, emit, Effect, EffectModel, TimerState};
use crate::store::SettingsStore;

verus! {

/// What the person at the blocking screen asks for.
#[derive(Clone, Copy, Debug, PartialEq, Eq, Structural)]
pub enum GateCommand {
    Unlock,
    Extend { minutes: i32 },
    Shutdown,
}

/// What came of a request at the blocking screen.
#[derive(Clone, Copy, Debug, PartialEq, Eq, Structural)]
pub enum GateOutcome {
    /// The passcode was wrong: the caller shows the error and clears the input.
    IncorrectPasscode,
    /// The block is lifted.
    Unlocked,
    /// Time was added and the block is lifted.
    Extended,
    /// The caller is to end the session.
    ShutdownGranted,
}

/// The control of the unlock button.
pub const ID_UNLOCK_BUTTON: i32 = 102;

/// The control that adds 15 minutes.
pub const ID_EXTEND_15: i32 = 103;

/// The control that adds 30 minutes.
pub const ID_EXTEND_30: i32 = 104;

/// The control that adds 60 minutes.
pub const ID_EXTEND_60: i32 = 105;

/// The control of the shutdown button.
pub const ID_SHUTDOWN_BUTTON: i32 = 106;

/// A passcode is stored and `entered` is that passcode.
pub open spec fn passcode_matches(m: Settings, entered: Seq<char>) -> bool {
    m.contains_key("passcode"@) && m["passcode"@] == entered
}

/// No passcode is stored, or `entered` is the stored one.
pub open spec fn passcode_admits(m: Settings, entered: Seq<char>) -> bool {
    m.contains_key("passcode"@) ==> m["passcode"@] == entered
}

/// The request that a control of the blocking screen stands for.
pub open spec fn command_of_control(control_id: i32) -> Option<GateCommand> {
    if control_id == 102 {
        Some(GateCommand::Unlock)
    } else if control_id == 103 {
        Some(GateCommand::Extend { minutes: 15 })
    } else if control_id == 104 {
        Some(GateCommand::Extend { minutes: 30 })
    } else if control_id == 105 {
        Some(GateCommand::Extend { minutes: 60 })
    } else if control_id == 106 {
        Some(GateCommand::Shutdown)
    } else {
        None
    }
}

/// The state once the block is lifted without adding time.
pub open spec fn unlocked_state(s: TimerState) -> TimerState {
    TimerState { blocked: false, ..s }
}

/// The state after a granted request.
pub open spec fn gate_state(s: TimerState, command: GateCommand) -> TimerState {
    match command {
        GateCommand::Unlock => unlocked_state(s),
        GateCommand::Extend { minutes } => extended_state(s, minutes),
        GateCommand::Shutdown => s,
    }
}

/// The store after a granted request: lifting the block saves the remaining
/// time for the day.
pub open spec fn gate_store(s: TimerState, m: Settings, now: LocalTime, command: GateCommand)
    -> Settings {
    match command {
        GateCommand::Shutdown => m,
        _ => saved_remaining_time(m, now, gate_state(s, command).remaining_seconds),
    }
}

/// The display commands of a granted request.
pub open spec fn gate_effects(command: GateCommand) -> Seq<EffectModel> {
    match command {
        GateCommand::Shutdown => Seq::empty(),
        _ => seq![EffectModel::HideBlocking],
    }
}

/// What is answered to a granted request.
pub open spec fn granted_outcome(command: GateCommand) -> GateOutcome {
    match command {
        GateCommand::Unlock => GateOutcome::Unlocked,
        GateCommand::Extend { minutes } => GateOutcome::Extended,
        GateCommand::Shutdown => GateOutcome::ShutdownGranted,
    }
}

/// The request that a control of the blocking screen stands for, if it
/// stands for one.
pub fn blocking_command(control_id: i32) -> (command: Option<GateCommand>)
    ensures
        command == command_of_control(control_id),
{
    if control_id == ID_UNLOCK_BUTTON {
        Some(GateCommand::Unlock)
    } else if control_id == ID_EXTEND_15 {
        Some(GateCommand::Extend { minutes: 15 })
    } else if control_id == ID_EXTEND_30 {
        Some(GateCommand::Extend { minutes: 30 })
    } else if control_id == ID_EXTEND_60 {
        Some(GateCommand::Extend { minutes: 60 })
    } else if control_id == ID_SHUTDOWN_BUTTON {
        Some(GateCommand::Shutdown)
    } else {
        None
    }
}

/// Whether `entered` is the stored passcode. Where none is stored, nothing
/// is.
pub fn check_blocking_passcode(store: &SettingsStore, entered: &str) -> (ok: bool)
    ensures
        ok == passcode_matches(store@, entered@),
{
    match get_passcode(store) {
        Some(stored) => stored == String::from_str(entered),
        None => false,
    }
}

/// Whether `entered` opens what the tray menu guards. Where no passcode is
/// stored, everything does.
pub fn verify_passcode_for_quit(store: &SettingsStore, entered: &str) -> (ok: bool)
    ensures
        ok == passcode_admits(store@, entered@),
{
    match get_passcode(store) {
        Some(stored) => stored == String::from_str(entered),
        None => true,
    }
}

/// Lifts the block if `entered` is the passcode. No time is added.
pub fn unlock(
    state: &mut TimerState,
    store: &mut SettingsStore,
    now: &LocalTime,
    entered: &str,
    effects: &mut Vec<Effect>,
) -> (granted: bool)
    ensures
        granted == passcode_matches(old(store)@, entered@),
        granted ==> *final(state) == unlocked_state(*old(state)) && final(store)@
            == saved_remaining_time(old(store)@, *now, old(state).remaining_seconds)
            && effect_models(final(effects)@) == effect_models(old(effects)@).push(
            EffectModel::HideBlocking,
        ),
        !granted ==> *final(state) == *old(state) && final(store)@ == old(store)@ && effect_models(
            final(effects)@,
        ) == effect_models(old(effects)@),
{
    if !check_blocking_passcode(store, entered) {
        return false;
    }
    state.blocked = false;
    emit(effects, Effect::HideBlocking);
    save_remaining_time(store, now, state.remaining_seconds);
    true
}

/// Adds `minutes` and lifts the block if `entered` is the passcode.
pub fn extend_with_auth(
    state: &mut TimerState,
    store: &mut SettingsStore,
    now: &LocalTime,
    entered: &str,
    minutes: i32,
    effects: &mut Vec<Effect>,
) -> (granted: bool)
    ensures
        granted == passcode_matches(old(store)@, entered@),
        granted ==> *final(state) == extended_state(*old(state), minutes) && final(store)@
            == saved_remaining_time(
            old(store)@,
            *now,
            extended_state(*old(state), minutes).remaining_seconds,
        ) && effect_models(final(effects)@) == effect_models(old(effects)@).push(
            EffectModel::HideBlocking,
        ),
        !granted ==> *final(state) == *old(state) && final(store)@ == old(store)@ && effect_models(
            final(effects)@,
        ) == effect_models(old(effects)@),
{
    if !check_blocking_passcode(store, entered) {
        return false;
    }
    let was_blocked = state.blocked;
    extend_time(state, minutes, effects);
    if !was_blocked {
        emit(effects, Effect::HideBlocking);
    }
    assert(effect_models(effects@) =~= effect_models(old(effects)@).push(
        EffectModel::HideBlocking,
    ));
    save_remaining_time(store, now, state.remaining_seconds);
    true
}

/// Whether the session may be ended: `entered` is the passcode. Ending it is
/// the caller's to do.
pub fn shutdown_with_auth(store: &SettingsStore, entered: &str) -> (granted: bool)
    ensures
        granted == passcode_matches(store@, entered@),
{
    check_blocking_passcode(store, entered)
}

/// Carries out a request made at the blocking screen with the passcode
/// `entered`.
pub fn handle_gate_command(
    state: &mut TimerState,
    store: &mut SettingsStore,
    now: &LocalTime,
    entered: &str,
    command: GateCommand,
    effects: &mut Vec<Effect>,
) -> (outcome: GateOutcome)
    ensures
        passcode_matches(old(store)@, entered@) ==> outcome == granted_outcome(command)
            && *final(state) == gate_state(*old(state), command) && final(store)@ == gate_store(
            *old(state),
            old(store)@,
            *now,
            command,
        ) && effect_models(final(effects)@) == effect_models(old(effects)@) + gate_effects(
            command,
        ),
        !passcode_matches(old(store)@, entered@) ==> outcome == GateOutcome::IncorrectPasscode
            && *final(state) == *old(state) && final(store)@ == old(store)@ && effect_models(
            final(effects)@,
        ) == effect_models(old(effects)@),
{
    let granted = match command {
        GateCommand::Unlock => unlock(state, store, now, entered, effects),
        GateCommand::Extend { minutes } => extend_with_auth(
            state,
            store,
            now,
            entered,
            minutes,
            effects,
        ),
        GateCommand::Shutdown => shutdown_with_auth(store, entered),
    };
    if !granted {
        return GateOutcome::IncorrectPasscode;
    }
    assert(effect_models(effects@) =~= effect_models(old(effects)@) + gate_effects(command));
    match command {
        GateCommand::Unlock => GateOutcome::Unlocked,
        GateCommand::Extend { minutes } => GateOutcome::Extended,
        GateCommand::Shutdown => GateOutcome::ShutdownGranted,
    }
}

} // verus!
