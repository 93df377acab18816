//! The state that one control loop owns, and the display commands that its
//! transitions give rise to.

use vstd::prelude::*;

verus! {

/// The countdown and the pause in progress. `remaining_seconds` below zero
/// means that no allowance has been loaded yet.
#[derive(Clone, Copy, Debug, PartialEq, Eq, Structural)]
pub struct TimerState {
    pub remaining_seconds: i32,
    pub blocked: bool,
    pub is_paused: bool,
    pub pause_started_at: i64,
    pub current_pause_elapsed: i32,
    pub session_active_seconds: i32,
}

/// A command for the display. Commands are queued in the order in which the
/// state changed and are carried out by the caller.
#[derive(Clone, Debug, PartialEq, Eq)]
pub enum Effect {
    ShowWarning { message: String, duration_seconds: u32 },
    ShowBlocking { message: String },
    HideBlocking,
    RefreshCountdownDisplay,
}

/// What a display command says.
pub enum EffectModel {
    ShowWarning { message: Seq<char>, duration_seconds: u32 },
    ShowBlocking { message: Seq<char> },
    HideBlocking,
    RefreshCountdownDisplay,
}

impl View for Effect {
    type V = EffectModel;

    open spec fn view(&self) -> EffectModel {
        match *self {
            Effect::ShowWarning { message, duration_seconds } => EffectModel::ShowWarning {
                message: message@,
                duration_seconds,
            },
            Effect::ShowBlocking { message } => EffectModel::ShowBlocking { message: message@ },
            Effect::HideBlocking => EffectModel::HideBlocking,
            Effect::RefreshCountdownDisplay => EffectModel::RefreshCountdownDisplay,
        }
    }
}

/// What a queue of display commands says, first command first.
pub open spec fn effect_models(queue: Seq<Effect>) -> Seq<EffectModel> {
    Seq::new(queue.len(), |i: int| queue[i]@)
}

/// How long a warning stays on the screen, in seconds.
pub const WARNING_DISPLAY_SECONDS: u32 = 10;

impl TimerState {
    /// The state before anything is loaded: no allowance, nothing blocked,
    /// nothing paused.
    pub fn new() -> (state: TimerState)
        ensures
            state == (TimerState {
                remaining_seconds: -1i32,
                blocked: false,
                is_paused: false,
                pause_started_at: 0,
                current_pause_elapsed: 0,
                session_active_seconds: 0,
            }),
    {
        TimerState {
            remaining_seconds: -1,
            blocked: false,
            is_paused: false,
            pause_started_at: 0,
            current_pause_elapsed: 0,
            session_active_seconds: 0,
        }
    }
}

/// The seconds left today.
pub fn get_remaining_seconds(state: &TimerState) -> (seconds: i32)
    ensures
        seconds == state.remaining_seconds,
{
    state.remaining_seconds
}

/// Whether the countdown is paused.
pub fn is_paused(state: &TimerState) -> (paused: bool)
    ensures
        paused == state.is_paused,
{
    state.is_paused
}

/// Puts `effect` at the end of the queue.
pub fn emit(effects: &mut Vec<Effect>, effect: Effect)
    ensures
        effect_models(final(effects)@) == effect_models(old(effects)@).push(effect@),
{
    effects.push(effect);
    assert(effect_models(effects@) =~= effect_models(old(effects)@).push(effect@));
}

} // verus!
