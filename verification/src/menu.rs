//! The tray menu: how the pause item reads, and what each item sets off.
//! Items that change what is allowed are guarded by the passcode; pausing
//! is not, since it is there for the person being timed.

use vstd::prelude::*;
use crate::budget::{extend_effects, extend_time, extended_state};
use crate::clock::LocalTime;
use crate::display::quotient_toward_zero;
use crate::pause::{
    can_pause, get_remaining_pause_budget, pause_eligibility, paused_state,
    remaining_pause_budget, resumed_state, resumed_store, toggle_pause, PauseBlockedReason,
};
use crate::settings::{
    blocking_message, get_blocking_message, get_warning_config, is_pause_enabled, pause_config,
    pause_enabled, pause_used_today, warning_message, warning_minutes, Settings,
};
use crate::state::{effect_models, emit, Effect, EffectModel, TimerState};
use crate::store::SettingsStore;

verus! {

pub const IDM_ABOUT: u16 = 1001;

pub const IDM_QUIT: u16 = 1002;

pub const IDM_SHOW_OVERLAY: u16 = 1003;

pub const IDM_SHOW_BLOCKING: u16 = 1004;

pub const IDM_SETTINGS: u16 = 1005;

pub const IDM_TODAYS_STATS: u16 = 1006;

pub const IDM_PAUSE_TOGGLE: u16 = 1007;

pub const IDM_EXTEND_15: u16 = 1008;

pub const IDM_EXTEND_45: u16 = 1009;

/// What the pause item of the menu says.
#[derive(Clone, Copy, Debug, PartialEq, Eq, Structural)]
pub enum PauseMenuLabel {
    Resume,
    Disabled,
    Available { budget_minutes: i32 },
    BudgetUsed,
    Cooldown { minutes: i32 },
    Wait { minutes: i32 },
    TimeTooLow,
}

/// The pause item of the menu: what it says and whether it can be chosen.
#[derive(Clone, Copy, Debug, PartialEq, Eq, Structural)]
pub struct PauseMenuItem {
    pub label: PauseMenuLabel,
    pub enabled: bool,
}

/// What an item of the menu asks for.
#[derive(Clone, Copy, Debug, PartialEq, Eq, Structural)]
pub enum TrayCommand {
    About,
    Quit,
    ShowOverlay,
    ShowBlocking,
    Settings,
    TodaysStats,
    PauseToggle,
    Extend { minutes: i32 },
}

/// What is left for the caller to do after an item was chosen.
#[derive(Clone, Copy, Debug, PartialEq, Eq, Structural)]
pub enum TrayAction {
    Nothing,
    ShowAbout,
    Quit,
    OpenSettings,
    OpenStats,
}

/// `seconds` in minutes, part minutes counted as whole ones.
pub open spec fn minutes_rounded_up(seconds: i32) -> i32 {
    quotient_toward_zero(seconds + 59, 60) as i32
}

/// The pause item for a state: resuming is always on offer; pausing is on
/// offer with the budget that is left, or greyed out with the reason.
pub open spec fn pause_menu_item(s: TimerState, m: Settings, now: LocalTime) -> PauseMenuItem {
    if s.is_paused {
        PauseMenuItem { label: PauseMenuLabel::Resume, enabled: true }
    } else if !pause_enabled(m) {
        PauseMenuItem { label: PauseMenuLabel::Disabled, enabled: false }
    } else {
        match pause_eligibility(s, m, now) {
            Ok(_) => PauseMenuItem {
                label: PauseMenuLabel::Available {
                    budget_minutes: (remaining_pause_budget(
                        pause_config(m),
                        pause_used_today(m, now),
                    ) / 60) as i32,
                },
                enabled: true,
            },
            Err(PauseBlockedReason::BudgetExhausted) => PauseMenuItem {
                label: PauseMenuLabel::BudgetUsed,
                enabled: false,
            },
            Err(PauseBlockedReason::CooldownActive { seconds_remaining }) => PauseMenuItem {
                label: PauseMenuLabel::Cooldown { minutes: minutes_rounded_up(seconds_remaining) },
                enabled: false,
            },
            Err(PauseBlockedReason::MinActiveTimeNotMet { seconds_remaining }) => PauseMenuItem {
                label: PauseMenuLabel::Wait { minutes: minutes_rounded_up(seconds_remaining) },
                enabled: false,
            },
            Err(PauseBlockedReason::TimeTooLow) => PauseMenuItem {
                label: PauseMenuLabel::TimeTooLow,
                enabled: false,
            },
            Err(PauseBlockedReason::Disabled) => PauseMenuItem {
                label: PauseMenuLabel::Disabled,
                enabled: false,
            },
        }
    }
}

/// What the menu item with the given identifier asks for.
pub open spec fn command_of_item(menu_id: u16) -> Option<TrayCommand> {
    if menu_id == 1001 {
        Some(TrayCommand::About)
    } else if menu_id == 1002 {
        Some(TrayCommand::Quit)
    } else if menu_id == 1003 {
        Some(TrayCommand::ShowOverlay)
    } else if menu_id == 1004 {
        Some(TrayCommand::ShowBlocking)
    } else if menu_id == 1005 {
        Some(TrayCommand::Settings)
    } else if menu_id == 1006 {
        Some(TrayCommand::TodaysStats)
    } else if menu_id == 1007 {
        Some(TrayCommand::PauseToggle)
    } else if menu_id == 1008 {
        Some(TrayCommand::Extend { minutes: 15 })
    } else if menu_id == 1009 {
        Some(TrayCommand::Extend { minutes: 45 })
    } else {
        None
    }
}

/// Whether an item is guarded by the passcode.
pub open spec fn needs_passcode(command: TrayCommand) -> bool {
    command is Quit || command is Settings || command is TodaysStats || command is Extend
}

/// Whether choosing the pause item changes the state to paused.
pub open spec fn toggle_pauses(s: TimerState, m: Settings, now: LocalTime) -> bool {
    !s.is_paused && pause_eligibility(s, m, now) is Ok
}

/// The state after an item was chosen. `authorized` says whether the
/// passcode was given, for the items that ask for it.
pub open spec fn tray_state(
    s: TimerState,
    m: Settings,
    now: LocalTime,
    command: TrayCommand,
    authorized: bool,
) -> TimerState {
    match command {
        TrayCommand::PauseToggle => if s.is_paused {
            resumed_state(s)
        } else if toggle_pauses(s, m, now) {
            paused_state(s, now)
        } else {
            s
        },
        TrayCommand::Extend { minutes } => if authorized {
            extended_state(s, minutes)
        } else {
            s
        },
        _ => s,
    }
}

/// The store after an item was chosen.
pub open spec fn tray_store(s: TimerState, m: Settings, now: LocalTime, command: TrayCommand)
    -> Settings {
    if command is PauseToggle && s.is_paused {
        resumed_store(m, now, s.current_pause_elapsed)
    } else {
        m
    }
}

/// The display commands of a chosen item.
pub open spec fn tray_effects(
    s: TimerState,
    m: Settings,
    now: LocalTime,
    command: TrayCommand,
    authorized: bool,
) -> Seq<EffectModel> {
    match command {
        TrayCommand::PauseToggle => if s.is_paused || toggle_pauses(s, m, now) {
            seq![EffectModel::RefreshCountdownDisplay]
        } else {
            Seq::empty()
        },
        TrayCommand::ShowOverlay => seq![
            EffectModel::ShowWarning {
                message: warning_message(m, 1),
                duration_seconds: warning_minutes(m, 1),
            },
        ],
        TrayCommand::ShowBlocking => seq![
            EffectModel::ShowBlocking { message: blocking_message(m) },
        ],
        TrayCommand::Extend { minutes } => if authorized {
            extend_effects(s)
        } else {
            Seq::empty()
        },
        _ => Seq::empty(),
    }
}

/// What is left for the caller to do after an item was chosen.
pub open spec fn tray_action(command: TrayCommand, authorized: bool) -> TrayAction {
    match command {
        TrayCommand::About => TrayAction::ShowAbout,
        TrayCommand::Quit => if authorized {
            TrayAction::Quit
        } else {
            TrayAction::Nothing
        },
        TrayCommand::Settings => if authorized {
            TrayAction::OpenSettings
        } else {
            TrayAction::Nothing
        },
        TrayCommand::TodaysStats => if authorized {
            TrayAction::OpenStats
        } else {
            TrayAction::Nothing
        },
        _ => TrayAction::Nothing,
    }
}

/// `seconds` in minutes, part minutes counted as whole ones.
fn round_up_minutes(seconds: i32) -> (minutes: i32)
    ensures
        minutes == minutes_rounded_up(seconds),
{
    let padded: i64 = seconds as i64 + 59;
    if padded >= 0 {
        (padded / 60) as i32
    } else {
        (-((-padded) / 60)) as i32
    }
}

/// The pause item of the menu as it should read now.
pub fn pause_menu_entry(state: &TimerState, store: &SettingsStore, now: &LocalTime) -> (item:
    PauseMenuItem)
    ensures
        item == pause_menu_item(*state, store@, *now),
{
    if state.is_paused {
        return PauseMenuItem { label: PauseMenuLabel::Resume, enabled: true };
    }
    if !is_pause_enabled(store) {
        return PauseMenuItem { label: PauseMenuLabel::Disabled, enabled: false };
    }
    match can_pause(state, store, now) {
        Ok(_) => {
            let budget_minutes: i32 = get_remaining_pause_budget(store, now) / 60;
            PauseMenuItem { label: PauseMenuLabel::Available { budget_minutes }, enabled: true }
        },
        Err(PauseBlockedReason::BudgetExhausted) => PauseMenuItem {
            label: PauseMenuLabel::BudgetUsed,
            enabled: false,
        },
        Err(PauseBlockedReason::CooldownActive { seconds_remaining }) => PauseMenuItem {
            label: PauseMenuLabel::Cooldown { minutes: round_up_minutes(seconds_remaining) },
            enabled: false,
        },
        Err(PauseBlockedReason::MinActiveTimeNotMet { seconds_remaining }) => PauseMenuItem {
            label: PauseMenuLabel::Wait { minutes: round_up_minutes(seconds_remaining) },
            enabled: false,
        },
        Err(PauseBlockedReason::TimeTooLow) => PauseMenuItem {
            label: PauseMenuLabel::TimeTooLow,
            enabled: false,
        },
        Err(PauseBlockedReason::Disabled) => PauseMenuItem {
            label: PauseMenuLabel::Disabled,
            enabled: false,
        },
    }
}

/// What the menu item with the given identifier asks for, if it is one of
/// the menu's.
pub fn menu_command(menu_id: u16) -> (command: Option<TrayCommand>)
    ensures
        command == command_of_item(menu_id),
{
    if menu_id == IDM_ABOUT {
        Some(TrayCommand::About)
    } else if menu_id == IDM_QUIT {
        Some(TrayCommand::Quit)
    } else if menu_id == IDM_SHOW_OVERLAY {
        Some(TrayCommand::ShowOverlay)
    } else if menu_id == IDM_SHOW_BLOCKING {
        Some(TrayCommand::ShowBlocking)
    } else if menu_id == IDM_SETTINGS {
        Some(TrayCommand::Settings)
    } else if menu_id == IDM_TODAYS_STATS {
        Some(TrayCommand::TodaysStats)
    } else if menu_id == IDM_PAUSE_TOGGLE {
        Some(TrayCommand::PauseToggle)
    } else if menu_id == IDM_EXTEND_15 {
        Some(TrayCommand::Extend { minutes: 15 })
    } else if menu_id == IDM_EXTEND_45 {
        Some(TrayCommand::Extend { minutes: 45 })
    } else {
        None
    }
}

/// Whether the passcode has to be asked for before `command` is carried out.
pub fn command_needs_passcode(command: TrayCommand) -> (needed: bool)
    ensures
        needed == needs_passcode(command),
{
    match command {
        TrayCommand::Quit => true,
        TrayCommand::Settings => true,
        TrayCommand::TodaysStats => true,
        TrayCommand::Extend { minutes } => true,
        _ => false,
    }
}

/// Carries out a chosen item. For the items that the passcode guards,
/// `authorized` says whether it was given; for the others it is not looked
/// at.
pub fn handle_tray_command(
    state: &mut TimerState,
    store: &mut SettingsStore,
    now: &LocalTime,
    command: TrayCommand,
    authorized: bool,
    effects: &mut Vec<Effect>,
) -> (action: TrayAction)
    ensures
        action == tray_action(command, authorized),
        *final(state) == tray_state(*old(state), old(store)@, *now, command, authorized),
        final(store)@ == tray_store(*old(state), old(store)@, *now, command),
        effect_models(final(effects)@) == effect_models(old(effects)@) + tray_effects(
            *old(state),
            old(store)@,
            *now,
            command,
            authorized,
        ),
{
    proof {
        assert(effect_models(effects@) + Seq::<EffectModel>::empty() =~= effect_models(effects@));
    }
    match command {
        TrayCommand::PauseToggle => {
            let toggled = toggle_pause(state, store, now, effects);
            assert(effect_models(effects@) =~= effect_models(old(effects)@) + tray_effects(
                *old(state),
                old(store)@,
                *now,
                command,
                authorized,
            ));
            TrayAction::Nothing
        },
        TrayCommand::ShowOverlay => {
            let (minutes, message) = get_warning_config(store, 1);
            emit(effects, Effect::ShowWarning { message, duration_seconds: minutes });
            assert(effect_models(effects@) =~= effect_models(old(effects)@) + tray_effects(
                *old(state),
                old(store)@,
                *now,
                command,
                authorized,
            ));
            TrayAction::Nothing
        },
        TrayCommand::ShowBlocking => {
            let message = get_blocking_message(store);
            emit(effects, Effect::ShowBlocking { message });
            assert(effect_models(effects@) =~= effect_models(old(effects)@) + tray_effects(
                *old(state),
                old(store)@,
                *now,
                command,
                authorized,
            ));
            TrayAction::Nothing
        },
        TrayCommand::Extend { minutes } => {
            if authorized {
                extend_time(state, minutes, effects);
            }
            TrayAction::Nothing
        },
        TrayCommand::About => TrayAction::ShowAbout,
        TrayCommand::Quit => if authorized {
            TrayAction::Quit
        } else {
            TrayAction::Nothing
        },
        TrayCommand::Settings => if authorized {
            TrayAction::OpenSettings
        } else {
            TrayAction::Nothing
        },
        TrayCommand::TodaysStats => if authorized {
            TrayAction::OpenStats
        } else {
            TrayAction::Nothing
        },
    }
}

} // verus!
