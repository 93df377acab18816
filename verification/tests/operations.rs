use screen_time_manager::admin::{change_passcode, get_day_stats, is_valid_passcode, PasscodeError};
use screen_time_manager::budget::{extend_time, tick};
use screen_time_manager::clock::LocalTime;
use screen_time_manager::display::{
    format_duration, format_time, format_time_compact, get_time_color, mini_overlay_readout,
    scale, scale_font,
};
use screen_time_manager::gate::{
    blocking_command, check_blocking_passcode, extend_with_auth, handle_gate_command,
    shutdown_with_auth, unlock, verify_passcode_for_quit, GateCommand, GateOutcome,
};
use screen_time_manager::menu::{
    command_needs_passcode, handle_tray_command, menu_command, pause_menu_entry, PauseMenuItem,
    PauseMenuLabel, TrayAction, TrayCommand,
};
use screen_time_manager::pause::{
    can_pause, get_max_pause_duration, get_remaining_pause_budget, pause_tick, pause_timer,
    resume_timer, toggle_pause, PauseBlockedReason,
};
use screen_time_manager::remote::{
    cmd_extend, cmd_history, cmd_pause, cmd_resume, cmd_status, cmd_time, decide_bot_start,
    get_telegram_config, handle_command, read_time, set_telegram_config, BotStart, Command, Reply,
    TelegramConfig, TimeLevel, TimeReading,
};
use screen_time_manager::seconds::{minutes_to_seconds, saturate_i32};
use screen_time_manager::settings::{
    get_last_pause_end, get_lock_screen_timeout, get_passcode, get_pause_log_today,
    get_pause_used_today, init_database, load_remaining_time, save_last_pause_end,
    save_lock_screen_timeout, save_pause_used_today,
};
use screen_time_manager::state::{get_remaining_seconds, is_paused, Effect, TimerState};
use screen_time_manager::store::{set_setting, SettingsStore};

fn noon() -> LocalTime {
    LocalTime { year: 2024, month: 3, day_of_week: 1, day: 4, hour: 12, minute: 0, second: 0 }
}

fn fresh_store() -> SettingsStore {
    let mut store = SettingsStore::new();
    init_database(&mut store);
    store
}

fn running(remaining_seconds: i32, session_active_seconds: i32) -> TimerState {
    TimerState {
        remaining_seconds,
        blocked: false,
        is_paused: false,
        pause_started_at: 0,
        current_pause_elapsed: 0,
        session_active_seconds,
    }
}

#[test]
fn seconds_saturate() {
    assert_eq!(saturate_i32(0), 0);
    assert_eq!(saturate_i32(2147483647), i32::MAX);
    assert_eq!(saturate_i32(2147483648), i32::MAX);
    assert_eq!(saturate_i32(-2147483649), i32::MIN);
    assert_eq!(saturate_i32(-5), -5);
    assert_eq!(minutes_to_seconds(45), 2700);
    assert_eq!(minutes_to_seconds(u32::MAX), 257698037700);
}

#[test]
fn pause_checks_come_in_order() {
    let mut store = fresh_store();
    let now = noon();
    let state = running(30, 0);
    set_setting(&mut store, "pause_enabled", "0");
    assert_eq!(can_pause(&state, &store, &now), Err(PauseBlockedReason::Disabled));
    set_setting(&mut store, "pause_enabled", "1");
    assert_eq!(can_pause(&state, &store, &now), Err(PauseBlockedReason::TimeTooLow));
    let state = running(3600, 0);
    save_pause_used_today(&mut store, &now, 2700);
    assert_eq!(can_pause(&state, &store, &now), Err(PauseBlockedReason::BudgetExhausted));
    save_pause_used_today(&mut store, &now, 2699);
    let ts = screen_time_manager::clock::get_current_timestamp(&now);
    save_last_pause_end(&mut store, ts - 100);
    assert_eq!(
        can_pause(&state, &store, &now),
        Err(PauseBlockedReason::CooldownActive { seconds_remaining: 800 })
    );
    save_last_pause_end(&mut store, ts - 900);
    assert_eq!(
        can_pause(&state, &store, &now),
        Err(PauseBlockedReason::MinActiveTimeNotMet { seconds_remaining: 600 })
    );
    let state = running(3600, 599);
    assert_eq!(
        can_pause(&state, &store, &now),
        Err(PauseBlockedReason::MinActiveTimeNotMet { seconds_remaining: 1 })
    );
    let state = running(3600, 600);
    assert_eq!(can_pause(&state, &store, &now), Ok(()));
    let mut paused = running(10, 0);
    paused.is_paused = true;
    set_setting(&mut store, "pause_enabled", "0");
    assert_eq!(can_pause(&paused, &store, &now), Ok(()));
}

#[test]
fn reasons_carry_saturated_seconds() {
    let mut store = fresh_store();
    let now = noon();
    set_setting(&mut store, "pause_min_active_time", "4294967295");
    set_setting(&mut store, "pause_daily_budget", "4294967295");
    let state = running(3600, 0);
    assert_eq!(
        can_pause(&state, &store, &now),
        Err(PauseBlockedReason::MinActiveTimeNotMet { seconds_remaining: i32::MAX })
    );
    assert_eq!(get_remaining_pause_budget(&store, &now), i32::MAX);
    set_setting(&mut store, "pause_cooldown", "4294967295");
    set_setting(&mut store, "pause_last_end_timestamp", "9223372036854775807");
    assert_eq!(
        can_pause(&state, &store, &now),
        Err(PauseBlockedReason::CooldownActive { seconds_remaining: i32::MAX })
    );
}

#[test]
fn pause_budget_and_longest_pause() {
    let mut store = fresh_store();
    let now = noon();
    assert_eq!(get_remaining_pause_budget(&store, &now), 2700);
    assert_eq!(get_max_pause_duration(&store, &now), 1200);
    save_pause_used_today(&mut store, &now, 2000);
    assert_eq!(get_remaining_pause_budget(&store, &now), 700);
    assert_eq!(get_max_pause_duration(&store, &now), 700);
    save_pause_used_today(&mut store, &now, 5000);
    assert_eq!(get_remaining_pause_budget(&store, &now), 0);
    assert_eq!(get_max_pause_duration(&store, &now), 0);
}

#[test]
fn pause_and_resume_account_for_the_pause() {
    let mut store = fresh_store();
    let now = noon();
    let mut state = running(3600, 600);
    let mut effects = Vec::new();
    pause_timer(&mut state, &now, &mut effects);
    assert!(is_paused(&state));
    assert_eq!(state.pause_started_at, screen_time_manager::clock::get_current_timestamp(&now));
    assert_eq!(state.current_pause_elapsed, 0);
    assert_eq!(store.pairs().len(), 18);
    for _ in 0..90 {
        pause_tick(&mut state, &mut store, &now, &mut effects);
    }
    assert_eq!(state.current_pause_elapsed, 90);
    assert_eq!(get_remaining_seconds(&state), 3600);
    let later = LocalTime { minute: 1, second: 30, ..now };
    resume_timer(&mut state, &mut store, &later, &mut effects);
    assert!(!state.is_paused);
    assert_eq!(state.pause_started_at, 0);
    assert_eq!(state.current_pause_elapsed, 0);
    assert_eq!(get_pause_used_today(&store, &later), 90);
    assert_eq!(get_pause_log_today(&store, &later), vec![String::from("12:01:30:90s")]);
    assert_eq!(
        get_last_pause_end(&store),
        screen_time_manager::clock::get_current_timestamp(&later)
    );
    assert_eq!(
        can_pause(&state, &store, &later),
        Err(PauseBlockedReason::CooldownActive { seconds_remaining: 900 })
    );
}

#[test]
fn pause_ends_when_the_budget_runs_out() {
    let mut store = fresh_store();
    let now = noon();
    save_pause_used_today(&mut store, &now, 2695);
    let mut state = running(3600, 600);
    let mut effects = Vec::new();
    assert_eq!(toggle_pause(&mut state, &mut store, &now, &mut effects), Ok(true));
    for n in 1..5 {
        tick(&mut state, &mut store, &now, &mut effects);
        assert!(state.is_paused, "tick {}", n);
    }
    tick(&mut state, &mut store, &now, &mut effects);
    assert!(!state.is_paused);
    assert_eq!(get_pause_used_today(&store, &now), 2700);
    assert_eq!(can_pause(&state, &store, &now), Err(PauseBlockedReason::BudgetExhausted));
}

#[test]
fn refused_toggle_changes_nothing() {
    let mut store = fresh_store();
    let now = noon();
    let mut state = running(3600, 10);
    let before = state;
    let rows = store.pairs().len();
    let mut effects = Vec::new();
    assert_eq!(
        toggle_pause(&mut state, &mut store, &now, &mut effects),
        Err(PauseBlockedReason::MinActiveTimeNotMet { seconds_remaining: 590 })
    );
    assert_eq!(state, before);
    assert_eq!(store.pairs().len(), rows);
    assert!(effects.is_empty());
}

#[test]
fn tick_saturates_at_the_largest_count() {
    let mut store = fresh_store();
    let now = noon();
    let mut state = running(100, i32::MAX);
    let mut effects = Vec::new();
    tick(&mut state, &mut store, &now, &mut effects);
    assert_eq!(state.remaining_seconds, 99);
    assert_eq!(state.session_active_seconds, i32::MAX);
    let mut state = running(i32::MAX, 0);
    extend_time(&mut state, 1, &mut effects);
    assert_eq!(state.remaining_seconds, i32::MAX);
    let mut state = running(10, 0);
    extend_time(&mut state, i32::MIN, &mut effects);
    assert_eq!(state.remaining_seconds, i32::MIN);
}

#[test]
fn gate_turns_wrong_passcodes_away() {
    let mut store = fresh_store();
    let now = noon();
    let mut state = running(0, 7200);
    state.blocked = true;
    let before = state;
    let mut effects = Vec::new();
    assert!(!check_blocking_passcode(&store, "1111"));
    assert!(check_blocking_passcode(&store, "0000"));
    for _ in 0..5 {
        assert!(!unlock(&mut state, &mut store, &now, "1111", &mut effects));
        assert!(!extend_with_auth(&mut state, &mut store, &now, "", 15, &mut effects));
        assert!(!shutdown_with_auth(&store, "000"));
    }
    assert_eq!(state, before);
    assert!(effects.is_empty());
    assert_eq!(load_remaining_time(&store, &now), None);
    assert!(unlock(&mut state, &mut store, &now, "0000", &mut effects));
}

#[test]
fn unlock_lifts_the_block_without_adding_time() {
    let mut store = fresh_store();
    let now = noon();
    let mut state = running(0, 7200);
    state.blocked = true;
    let mut effects = Vec::new();
    assert!(unlock(&mut state, &mut store, &now, "0000", &mut effects));
    assert!(!state.blocked);
    assert_eq!(state.remaining_seconds, 0);
    assert_eq!(effects, vec![Effect::HideBlocking]);
    assert_eq!(load_remaining_time(&store, &now), Some(0));
}

#[test]
fn extend_with_auth_adds_time_and_saves_it() {
    let mut store = fresh_store();
    let now = noon();
    let mut state = running(0, 7200);
    state.blocked = true;
    let mut effects = Vec::new();
    assert!(extend_with_auth(&mut state, &mut store, &now, "0000", 30, &mut effects));
    assert!(!state.blocked);
    assert_eq!(state.remaining_seconds, 1800);
    assert_eq!(effects, vec![Effect::HideBlocking]);
    assert_eq!(load_remaining_time(&store, &now), Some(1800));
    let mut effects = Vec::new();
    assert!(extend_with_auth(&mut state, &mut store, &now, "0000", 15, &mut effects));
    assert_eq!(state.remaining_seconds, 2700);
    assert_eq!(effects, vec![Effect::HideBlocking]);
}

#[test]
fn gate_without_stored_passcode_admits_nobody() {
    let store = SettingsStore::new();
    assert!(!check_blocking_passcode(&store, ""));
    assert!(!check_blocking_passcode(&store, "0000"));
    assert!(!shutdown_with_auth(&store, "0000"));
    assert!(verify_passcode_for_quit(&store, "anything"));
    let store = fresh_store();
    assert!(verify_passcode_for_quit(&store, "0000"));
    assert!(!verify_passcode_for_quit(&store, "0001"));
    assert!(shutdown_with_auth(&store, "0000"));
}

#[test]
fn blocking_screen_controls() {
    assert_eq!(blocking_command(101), None);
    assert_eq!(blocking_command(102), Some(GateCommand::Unlock));
    assert_eq!(blocking_command(103), Some(GateCommand::Extend { minutes: 15 }));
    assert_eq!(blocking_command(104), Some(GateCommand::Extend { minutes: 30 }));
    assert_eq!(blocking_command(105), Some(GateCommand::Extend { minutes: 60 }));
    assert_eq!(blocking_command(106), Some(GateCommand::Shutdown));
    assert_eq!(blocking_command(107), None);
    let mut store = fresh_store();
    let now = noon();
    let mut state = running(0, 0);
    state.blocked = true;
    let mut effects = Vec::new();
    let outcome = handle_gate_command(
        &mut state, &mut store, &now, "9999", GateCommand::Extend { minutes: 60 }, &mut effects,
    );
    assert_eq!(outcome, GateOutcome::IncorrectPasscode);
    assert!(state.blocked);
    let outcome =
        handle_gate_command(&mut state, &mut store, &now, "0000", GateCommand::Shutdown, &mut effects);
    assert_eq!(outcome, GateOutcome::ShutdownGranted);
    assert!(state.blocked);
    assert!(effects.is_empty());
    let outcome = handle_gate_command(
        &mut state, &mut store, &now, "0000", GateCommand::Extend { minutes: 60 }, &mut effects,
    );
    assert_eq!(outcome, GateOutcome::Extended);
    assert_eq!(state.remaining_seconds, 3600);
    let outcome =
        handle_gate_command(&mut state, &mut store, &now, "0000", GateCommand::Unlock, &mut effects);
    assert_eq!(outcome, GateOutcome::Unlocked);
    assert_eq!(effects, vec![Effect::HideBlocking, Effect::HideBlocking]);
}

#[test]
fn remote_requests_are_for_the_administrator() {
    let mut store = fresh_store();
    let now = noon();
    let mut state = running(3600, 600);
    let before = state;
    let mut effects = Vec::new();
    let requests = [
        Command::Status,
        Command::Time,
        Command::Extend { minutes: 30 },
        Command::Pause,
        Command::Resume,
        Command::History,
        Command::Help,
    ];
    for command in requests {
        let reply = handle_command(&mut state, &mut store, &now, 7, Some(8), command, &mut effects);
        assert_eq!(reply, Reply::Unauthorized);
        let reply = handle_command(&mut state, &mut store, &now, 7, None, command, &mut effects);
        assert_eq!(reply, Reply::NoAdminConfigured);
    }
    assert_eq!(state, before);
    assert!(effects.is_empty());
    assert_eq!(store.pairs().len(), 18);
    let reply = handle_command(&mut state, &mut store, &now, 7, None, Command::Start, &mut effects);
    assert_eq!(reply, Reply::Welcome { chat_id: 7 });
    let reply = handle_command(&mut state, &mut store, &now, 7, Some(8), Command::Chatid, &mut effects);
    assert_eq!(reply, Reply::ChatId { chat_id: 7 });
    let reply = handle_command(&mut state, &mut store, &now, 8, Some(8), Command::Help, &mut effects);
    assert_eq!(reply, Reply::Help);
}

#[test]
fn remote_extension_is_capped() {
    let mut store = fresh_store();
    let now = noon();
    let mut state = running(100, 0);
    let mut effects = Vec::new();
    assert_eq!(cmd_extend(&mut state, 0, &mut effects), Reply::ExtendNotPositive);
    assert_eq!(cmd_extend(&mut state, -5, &mut effects), Reply::ExtendNotPositive);
    assert_eq!(cmd_extend(&mut state, 121, &mut effects), Reply::ExtendTooLarge);
    assert_eq!(state.remaining_seconds, 100);
    let reply = handle_command(
        &mut state, &mut store, &now, 1, Some(1), Command::Extend { minutes: 120 }, &mut effects,
    );
    assert_eq!(
        reply,
        Reply::Extended {
            minutes: 120,
            time: TimeReading { level: TimeLevel::Normal, minutes: 121, seconds: 40 }
        }
    );
    assert_eq!(state.remaining_seconds, 7300);
    let reply = cmd_extend(&mut state, 1, &mut effects);
    assert_eq!(
        reply,
        Reply::Extended {
            minutes: 1,
            time: TimeReading { level: TimeLevel::Normal, minutes: 122, seconds: 40 }
        }
    );
}

#[test]
fn remote_status_and_time() {
    let store = fresh_store();
    let now = noon();
    let state = running(125, 0);
    assert_eq!(
        cmd_status(&state, &store, &now),
        Reply::Status {
            time: TimeReading { level: TimeLevel::Low, minutes: 2, seconds: 5 },
            paused: false,
            pause_budget_minutes: 45
        }
    );
    assert_eq!(
        cmd_time(&running(60, 0)),
        Reply::Time { time: TimeReading { level: TimeLevel::Critical, minutes: 1, seconds: 0 } }
    );
    assert_eq!(read_time(301), TimeReading { level: TimeLevel::Normal, minutes: 5, seconds: 1 });
    assert_eq!(read_time(300), TimeReading { level: TimeLevel::Low, minutes: 5, seconds: 0 });
    assert_eq!(read_time(61), TimeReading { level: TimeLevel::Low, minutes: 1, seconds: 1 });
    assert_eq!(read_time(-1), TimeReading { level: TimeLevel::Critical, minutes: 0, seconds: -1 });
    assert_eq!(read_time(-61), TimeReading { level: TimeLevel::Critical, minutes: -1, seconds: -1 });
}

#[test]
fn remote_pause_resume_and_history() {
    let mut store = fresh_store();
    let now = noon();
    let mut state = running(3600, 10);
    let mut effects = Vec::new();
    assert_eq!(cmd_resume(&mut state, &mut store, &now, &mut effects), Reply::NotPaused);
    assert_eq!(
        cmd_pause(&mut state, &mut store, &now, &mut effects),
        Reply::CannotPause {
            reason: PauseBlockedReason::MinActiveTimeNotMet { seconds_remaining: 590 }
        }
    );
    state.session_active_seconds = 600;
    assert_eq!(cmd_pause(&mut state, &mut store, &now, &mut effects), Reply::Paused);
    assert_eq!(cmd_pause(&mut state, &mut store, &now, &mut effects), Reply::AlreadyPaused);
    for _ in 0..125 {
        tick(&mut state, &mut store, &now, &mut effects);
    }
    assert_eq!(cmd_resume(&mut state, &mut store, &now, &mut effects), Reply::Resumed);
    assert!(!state.is_paused);
    assert_eq!(
        cmd_history(&store, &now),
        Reply::History {
            pause_used_minutes: 2,
            daily_budget_minutes: 45,
            entries: vec![String::from("12:00:00:125s")]
        }
    );
    assert_eq!(
        cmd_history(&fresh_store(), &now),
        Reply::History { pause_used_minutes: 0, daily_budget_minutes: 45, entries: vec![] }
    );
}

#[test]
fn remote_channel_setup() {
    let mut store = fresh_store();
    assert_eq!(
        get_telegram_config(&store),
        TelegramConfig { enabled: false, bot_token: None, admin_chat_id: None }
    );
    assert_eq!(decide_bot_start(&get_telegram_config(&store)), BotStart::Disabled);
    set_telegram_config(&mut store, "", "not a number", true);
    let config = get_telegram_config(&store);
    assert_eq!(
        config,
        TelegramConfig { enabled: true, bot_token: Some(String::new()), admin_chat_id: None }
    );
    assert_eq!(decide_bot_start(&config), BotStart::EmptyToken);
    set_telegram_config(&mut store, "123:abc", "-1001234", true);
    let config = get_telegram_config(&store);
    assert_eq!(config.admin_chat_id, Some(-1001234));
    assert_eq!(decide_bot_start(&config), BotStart::Start);
    let no_token = TelegramConfig { enabled: true, bot_token: None, admin_chat_id: Some(1) };
    assert_eq!(decide_bot_start(&no_token), BotStart::NoToken);
    set_telegram_config(&mut store, "123:abc", "5", false);
    assert_eq!(decide_bot_start(&get_telegram_config(&store)), BotStart::Disabled);
}

#[test]
fn pause_item_of_the_menu() {
    let mut store = fresh_store();
    let now = noon();
    let item = |state: &TimerState, store: &SettingsStore| pause_menu_entry(state, store, &now);
    let mut paused = running(3600, 600);
    paused.is_paused = true;
    assert_eq!(item(&paused, &store), PauseMenuItem { label: PauseMenuLabel::Resume, enabled: true });
    assert_eq!(
        item(&running(3600, 600), &store),
        PauseMenuItem { label: PauseMenuLabel::Available { budget_minutes: 45 }, enabled: true }
    );
    assert_eq!(
        item(&running(3600, 539), &store),
        PauseMenuItem { label: PauseMenuLabel::Wait { minutes: 2 }, enabled: false }
    );
    assert_eq!(
        item(&running(3600, 540), &store),
        PauseMenuItem { label: PauseMenuLabel::Wait { minutes: 1 }, enabled: false }
    );
    assert_eq!(
        item(&running(59, 600), &store),
        PauseMenuItem { label: PauseMenuLabel::TimeTooLow, enabled: false }
    );
    let ts = screen_time_manager::clock::get_current_timestamp(&now);
    save_last_pause_end(&mut store, ts - 30);
    assert_eq!(
        item(&running(3600, 600), &store),
        PauseMenuItem { label: PauseMenuLabel::Cooldown { minutes: 15 }, enabled: false }
    );
    save_pause_used_today(&mut store, &now, 2700);
    assert_eq!(
        item(&running(3600, 600), &store),
        PauseMenuItem { label: PauseMenuLabel::BudgetUsed, enabled: false }
    );
    set_setting(&mut store, "pause_enabled", "0");
    assert_eq!(
        item(&running(3600, 600), &store),
        PauseMenuItem { label: PauseMenuLabel::Disabled, enabled: false }
    );
}

#[test]
fn menu_items() {
    assert_eq!(menu_command(1000), None);
    assert_eq!(menu_command(1001), Some(TrayCommand::About));
    assert_eq!(menu_command(1002), Some(TrayCommand::Quit));
    assert_eq!(menu_command(1003), Some(TrayCommand::ShowOverlay));
    assert_eq!(menu_command(1004), Some(TrayCommand::ShowBlocking));
    assert_eq!(menu_command(1005), Some(TrayCommand::Settings));
    assert_eq!(menu_command(1006), Some(TrayCommand::TodaysStats));
    assert_eq!(menu_command(1007), Some(TrayCommand::PauseToggle));
    assert_eq!(menu_command(1008), Some(TrayCommand::Extend { minutes: 15 }));
    assert_eq!(menu_command(1009), Some(TrayCommand::Extend { minutes: 45 }));
    assert_eq!(menu_command(1010), None);
    assert!(command_needs_passcode(TrayCommand::Quit));
    assert!(command_needs_passcode(TrayCommand::Settings));
    assert!(command_needs_passcode(TrayCommand::TodaysStats));
    assert!(command_needs_passcode(TrayCommand::Extend { minutes: 15 }));
    assert!(!command_needs_passcode(TrayCommand::PauseToggle));
    assert!(!command_needs_passcode(TrayCommand::About));
    assert!(!command_needs_passcode(TrayCommand::ShowOverlay));
    assert!(!command_needs_passcode(TrayCommand::ShowBlocking));
}

#[test]
fn chosen_menu_items() {
    let mut store = fresh_store();
    let now = noon();
    let mut state = running(3600, 600);
    let mut effects = Vec::new();
    let mut choose = |state: &mut TimerState, command, authorized, effects: &mut Vec<Effect>| {
        handle_tray_command(state, &mut store, &now, command, authorized, effects)
    };
    assert_eq!(choose(&mut state, TrayCommand::About, false, &mut effects), TrayAction::ShowAbout);
    assert_eq!(choose(&mut state, TrayCommand::Quit, false, &mut effects), TrayAction::Nothing);
    assert_eq!(choose(&mut state, TrayCommand::Quit, true, &mut effects), TrayAction::Quit);
    assert_eq!(choose(&mut state, TrayCommand::Settings, true, &mut effects), TrayAction::OpenSettings);
    assert_eq!(choose(&mut state, TrayCommand::TodaysStats, true, &mut effects), TrayAction::OpenStats);
    assert_eq!(choose(&mut state, TrayCommand::TodaysStats, false, &mut effects), TrayAction::Nothing);
    assert!(effects.is_empty());
    assert_eq!(
        choose(&mut state, TrayCommand::Extend { minutes: 45 }, false, &mut effects),
        TrayAction::Nothing
    );
    assert_eq!(state.remaining_seconds, 3600);
    choose(&mut state, TrayCommand::Extend { minutes: 45 }, true, &mut effects);
    assert_eq!(state.remaining_seconds, 6300);
    assert!(effects.is_empty());
    choose(&mut state, TrayCommand::PauseToggle, false, &mut effects);
    assert!(state.is_paused);
    choose(&mut state, TrayCommand::PauseToggle, false, &mut effects);
    assert!(!state.is_paused);
    choose(&mut state, TrayCommand::ShowOverlay, false, &mut effects);
    choose(&mut state, TrayCommand::ShowBlocking, false, &mut effects);
    assert_eq!(
        effects,
        vec![
            Effect::RefreshCountdownDisplay,
            Effect::RefreshCountdownDisplay,
            Effect::ShowWarning {
                message: String::from("10 minutes remaining!"),
                duration_seconds: 10
            },
            Effect::ShowBlocking {
                message: String::from("Your screen time limit has been reached.")
            },
        ]
    );
    assert!(!state.blocked);
}

#[test]
fn passcode_change() {
    let mut store = fresh_store();
    assert_eq!(change_passcode(&mut store, "whatever", "", ""), Ok(()));
    assert_eq!(get_passcode(&store), Some(String::from("0000")));
    assert_eq!(
        change_passcode(&mut store, "1111", "1234", "1234"),
        Err(PasscodeError::CurrentIncorrect)
    );
    assert_eq!(change_passcode(&mut store, "0000", "123", "123"), Err(PasscodeError::NotFourDigits));
    assert_eq!(change_passcode(&mut store, "0000", "12345", "12345"), Err(PasscodeError::NotFourDigits));
    assert_eq!(change_passcode(&mut store, "0000", "12a4", "12a4"), Err(PasscodeError::NotFourDigits));
    assert_eq!(change_passcode(&mut store, "0000", "", "1234"), Err(PasscodeError::NotFourDigits));
    assert_eq!(change_passcode(&mut store, "0000", "1234", "1235"), Err(PasscodeError::Mismatch));
    assert_eq!(change_passcode(&mut store, "0000", "1234", ""), Err(PasscodeError::Mismatch));
    assert_eq!(get_passcode(&store), Some(String::from("0000")));
    assert_eq!(change_passcode(&mut store, "0000", "1234", "1234"), Ok(()));
    assert_eq!(get_passcode(&store), Some(String::from("1234")));
    let mut empty = SettingsStore::new();
    assert_eq!(change_passcode(&mut empty, "0000", "4321", "4321"), Ok(()));
    assert_eq!(get_passcode(&empty), Some(String::from("4321")));
    assert!(is_valid_passcode("0987"));
    assert!(!is_valid_passcode("098"));
    assert!(!is_valid_passcode("09 7"));
    assert!(!is_valid_passcode("\u{664}\u{664}\u{664}\u{664}"));
}

#[test]
fn shutdown_timeout_is_entered_in_minutes_and_kept_in_seconds() {
    let mut store = fresh_store();
    assert_eq!(get_lock_screen_timeout(&store), 0);
    save_lock_screen_timeout(&mut store, "5");
    assert_eq!(get_lock_screen_timeout(&store), 300);
    save_lock_screen_timeout(&mut store, "five");
    assert_eq!(get_lock_screen_timeout(&store), 300);
    save_lock_screen_timeout(&mut store, "");
    assert_eq!(get_lock_screen_timeout(&store), 300);
    save_lock_screen_timeout(&mut store, "2147483647");
    assert_eq!(get_lock_screen_timeout(&store), i32::MAX);
    save_lock_screen_timeout(&mut store, "-1");
    assert_eq!(get_lock_screen_timeout(&store), -60);
}

#[test]
fn figures_of_the_day() {
    let mut store = fresh_store();
    let now = noon();
    save_pause_used_today(&mut store, &now, 300);
    set_setting(&mut store, "pause_log_2024-03-04", "10:00:00:120s,11:00:00:180s");
    let stats = get_day_stats(&running(5000, 2200), &store, &now);
    assert_eq!(stats.weekday, 0);
    assert_eq!(stats.daily_limit_minutes, 120);
    assert_eq!(stats.remaining_seconds, 5000);
    assert_eq!(stats.used_seconds, 2200);
    assert!(stats.pause_enabled);
    assert_eq!(stats.pause_used_seconds, 300);
    assert_eq!(stats.pause_budget_seconds, 2700);
    assert_eq!(stats.pause_remaining_seconds, 2400);
    assert_eq!(stats.pause_count, 2);
    let stats = get_day_stats(&TimerState::new(), &store, &now);
    assert_eq!(stats.used_seconds, 0);
    let stats = get_day_stats(&running(9000, 0), &store, &now);
    assert_eq!(stats.used_seconds, -1800);
}

#[test]
fn readouts() {
    assert_eq!(format_time_compact(-1), "--:--");
    assert_eq!(format_time_compact(0), "0:00");
    assert_eq!(format_time_compact(59), "0:59");
    assert_eq!(format_time_compact(600), "10:00");
    assert_eq!(format_time_compact(3599), "59:59");
    assert_eq!(format_time_compact(3600), "1:00:00");
    assert_eq!(format_time_compact(5445), "1:30:45");
    assert_eq!(format_time_compact(i32::MAX), "596523:14:07");
    assert_eq!(format_time(-5), "--:--");
    assert_eq!(format_time(0), "0s");
    assert_eq!(format_time(45), "45s");
    assert_eq!(format_time(60), "1m 0s");
    assert_eq!(format_time(1845), "30m 45s");
    assert_eq!(format_time(5445), "1h 30m 45s");
    assert_eq!(format_time(3600), "1h 0m 0s");
    assert_eq!(format_duration(-1), "--");
    assert_eq!(format_duration(0), "0s");
    assert_eq!(format_duration(7325), "2h 2m 5s");
    assert_eq!(get_time_color(-1), 0x00CCCCCC);
    assert_eq!(get_time_color(0), 0x004444FF);
    assert_eq!(get_time_color(60), 0x004444FF);
    assert_eq!(get_time_color(61), 0x00ff9933);
    assert_eq!(get_time_color(300), 0x00ff9933);
    assert_eq!(get_time_color(301), 0x00FFFFFF);
}

#[test]
fn small_readout() {
    let store = fresh_store();
    let now = noon();
    assert_eq!(mini_overlay_readout(&running(5445, 0), &store, &now), (String::from("1:30:45"), 0x00FFFFFF));
    assert_eq!(mini_overlay_readout(&running(30, 0), &store, &now), (String::from("0:30"), 0x004444FF));
    let mut paused = running(5445, 600);
    paused.is_paused = true;
    paused.current_pause_elapsed = 75;
    assert_eq!(mini_overlay_readout(&paused, &store, &now), (String::from("II 18:45"), 0x0066CCFF));
    paused.current_pause_elapsed = 1300;
    assert_eq!(mini_overlay_readout(&paused, &store, &now), (String::from("II --:--"), 0x0066CCFF));
}

#[test]
fn lengths_scale_with_the_resolution() {
    for (value, dpi) in [(120, 96), (120, 144), (72, 120), (10, 192), (0, 96), (-120, 144), (7, 100), (-7, 100), (1, 48), (-1, 48), (350, 96)] {
        let expected = ((value as i64 * dpi as i64 + 48) / 96) as i32;
        assert_eq!(scale(value, dpi), expected, "scale({}, {})", value, dpi);
        assert_eq!(scale_font(value, dpi), expected);
    }
    assert_eq!(scale(120, 144), 180);
    assert_eq!(scale(i32::MAX, u32::MAX), i32::MAX);
    assert_eq!(scale(i32::MIN, u32::MAX), i32::MIN);
}
