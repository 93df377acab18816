use screen_time_manager::clock::{
    get_current_timestamp, get_current_weekday, get_time_of_day, get_today_date, LocalTime,
};
use screen_time_manager::settings::{
    get_blocking_message, get_daily_limit, get_last_pause_end, get_passcode, get_pause_config,
    get_pause_log_today, get_pause_used_today, get_session_active_time, get_warning_config,
    init_database, is_pause_enabled, load_remaining_time, log_pause_event, save_last_pause_end,
    save_pause_used_today, save_remaining_time, save_session_active_time, set_passcode,
};
use screen_time_manager::store::{get_setting, set_setting, SettingsStore};

fn friday_evening() -> LocalTime {
    LocalTime { year: 2024, month: 3, day_of_week: 5, day: 8, hour: 19, minute: 5, second: 9 }
}

#[test]
fn store_keeps_the_last_value_of_each_key() {
    let mut store = SettingsStore::new();
    assert_eq!(get_setting(&store, "a"), None);
    assert!(set_setting(&mut store, "a", "1"));
    assert!(set_setting(&mut store, "b", "2"));
    assert!(set_setting(&mut store, "a", "3"));
    assert_eq!(get_setting(&store, "a"), Some(String::from("3")));
    assert_eq!(get_setting(&store, "b"), Some(String::from("2")));
    assert!(store.contains("a"));
    assert!(!store.contains("c"));
    let mut pairs = store.pairs();
    pairs.sort();
    assert_eq!(
        pairs,
        vec![(String::from("a"), String::from("3")), (String::from("b"), String::from("2"))]
    );
}

#[test]
fn clock_readings() {
    let now = friday_evening();
    assert_eq!(get_today_date(&now), "2024-03-08");
    assert_eq!(get_time_of_day(&now), "19:05:09");
    assert_eq!(get_current_weekday(&now), 4);
    let sunday = LocalTime { day_of_week: 0, ..now };
    assert_eq!(get_current_weekday(&sunday), 6);
    let monday = LocalTime { day_of_week: 1, ..now };
    assert_eq!(get_current_weekday(&monday), 0);
    let expected = ((2024i64 - 1970) * 365 + 2 * 30 + 8) * 86400 + 19 * 3600 + 5 * 60 + 9;
    assert_eq!(get_current_timestamp(&now), expected);
    let early = LocalTime { year: 7, month: 1, day_of_week: 0, day: 1, hour: 0, minute: 0, second: 0 };
    assert_eq!(get_today_date(&early), "0007-01-01");
}

#[test]
fn readers_fall_back_to_defaults_on_an_empty_store() {
    let store = SettingsStore::new();
    let now = friday_evening();
    assert_eq!(get_passcode(&store), None);
    for weekday in 0..9 {
        assert_eq!(get_daily_limit(&store, weekday), 120);
    }
    assert_eq!(get_warning_config(&store, 1), (5, String::from("5 minutes remaining!")));
    assert_eq!(get_warning_config(&store, 2), (5, String::from("5 minutes remaining!")));
    assert_eq!(get_blocking_message(&store), "Your screen time limit has been reached.");
    assert!(is_pause_enabled(&store));
    let config = get_pause_config(&store);
    assert_eq!(config.daily_budget_minutes, 45);
    assert_eq!(config.max_duration_minutes, 20);
    assert_eq!(config.cooldown_minutes, 15);
    assert_eq!(config.min_active_time_minutes, 10);
    assert!(config.enabled);
    assert_eq!(load_remaining_time(&store, &now), None);
    assert_eq!(get_pause_used_today(&store, &now), 0);
    assert_eq!(get_last_pause_end(&store), 0);
    assert_eq!(get_session_active_time(&store, &now), 0);
    assert_eq!(get_pause_log_today(&store, &now), Vec::<String>::new());
}

#[test]
fn seeded_defaults() {
    let mut store = SettingsStore::new();
    set_setting(&mut store, "limit_monday", "90");
    init_database(&mut store);
    assert_eq!(get_passcode(&store), Some(String::from("0000")));
    assert_eq!(get_daily_limit(&store, 0), 90);
    assert_eq!(get_daily_limit(&store, 1), 120);
    assert_eq!(get_daily_limit(&store, 4), 180);
    assert_eq!(get_daily_limit(&store, 5), 240);
    assert_eq!(get_daily_limit(&store, 6), 240);
    assert_eq!(get_daily_limit(&store, 7), 120);
    assert_eq!(get_warning_config(&store, 1), (10, String::from("10 minutes remaining!")));
    assert_eq!(get_warning_config(&store, 2), (5, String::from("5 minutes remaining!")));
    assert_eq!(store.pairs().len(), 18);
}

#[test]
fn readers_ignore_values_that_are_no_numbers() {
    let mut store = SettingsStore::new();
    let now = friday_evening();
    set_setting(&mut store, "limit_friday", "lots");
    set_setting(&mut store, "warning1_minutes", "-3");
    set_setting(&mut store, "pause_cooldown", "");
    set_setting(&mut store, "pause_enabled", "yes");
    set_setting(&mut store, "remaining_time_2024-03-08", "12x");
    set_setting(&mut store, "pause_last_end_timestamp", "soon");
    assert_eq!(get_daily_limit(&store, 4), 120);
    assert_eq!(get_warning_config(&store, 1), (5, String::from("5 minutes remaining!")));
    assert_eq!(get_pause_config(&store).cooldown_minutes, 15);
    assert!(!is_pause_enabled(&store));
    assert!(!get_pause_config(&store).enabled);
    assert_eq!(load_remaining_time(&store, &now), None);
    assert_eq!(get_last_pause_end(&store), 0);
}

#[test]
fn warning_message_without_text_is_made_from_the_minutes() {
    let mut store = SettingsStore::new();
    set_setting(&mut store, "warning3_minutes", "25");
    assert_eq!(get_warning_config(&store, 3), (25, String::from("25 minutes remaining!")));
    set_setting(&mut store, "warning3_message", "Nearly there");
    assert_eq!(get_warning_config(&store, 3), (25, String::from("Nearly there")));
}

#[test]
fn counters_are_scoped_by_date() {
    let mut store = SettingsStore::new();
    let today = friday_evening();
    let tomorrow = LocalTime { day: 9, day_of_week: 6, ..today };
    save_remaining_time(&mut store, &today, 1500);
    save_pause_used_today(&mut store, &today, 240);
    save_session_active_time(&mut store, &today, 900);
    save_last_pause_end(&mut store, 1711111111);
    assert_eq!(get_setting(&store, "remaining_time_2024-03-08"), Some(String::from("1500")));
    assert_eq!(get_setting(&store, "pause_used_2024-03-08"), Some(String::from("240")));
    assert_eq!(get_setting(&store, "session_active_2024-03-08"), Some(String::from("900")));
    assert_eq!(get_setting(&store, "pause_last_end_timestamp"), Some(String::from("1711111111")));
    assert_eq!(load_remaining_time(&store, &today), Some(1500));
    assert_eq!(get_pause_used_today(&store, &today), 240);
    assert_eq!(get_session_active_time(&store, &today), 900);
    assert_eq!(load_remaining_time(&store, &tomorrow), None);
    assert_eq!(get_pause_used_today(&store, &tomorrow), 0);
    assert_eq!(get_session_active_time(&store, &tomorrow), 0);
    assert_eq!(get_last_pause_end(&store), 1711111111);
}

#[test]
fn pause_log_grows_by_one_entry_per_pause() {
    let mut store = SettingsStore::new();
    let now = friday_evening();
    log_pause_event(&mut store, &now, 45);
    assert_eq!(get_setting(&store, "pause_log_2024-03-08"), Some(String::from("19:05:09:45s")));
    let later = LocalTime { hour: 20, minute: 0, second: 0, ..now };
    log_pause_event(&mut store, &later, 600);
    assert_eq!(
        get_setting(&store, "pause_log_2024-03-08"),
        Some(String::from("19:05:09:45s,20:00:00:600s"))
    );
    assert_eq!(
        get_pause_log_today(&store, &now),
        vec![String::from("19:05:09:45s"), String::from("20:00:00:600s")]
    );
}

#[test]
fn pause_log_splits_as_std_does() {
    let mut store = SettingsStore::new();
    let now = friday_evening();
    for text in ["", ",", "a,,b", ",a", "a,", "one", "\u{e9}t\u{e9},\u{1F534}"] {
        set_setting(&mut store, "pause_log_2024-03-08", text);
        let expected: Vec<String> = text.split(',').map(|e| e.to_string()).collect();
        assert_eq!(get_pause_log_today(&store, &now), expected, "text {:?}", text);
    }
}

#[test]
fn passcode_is_replaced_only_where_one_is_stored() {
    let mut store = SettingsStore::new();
    assert!(set_passcode(&mut store, "1234"));
    assert_eq!(get_passcode(&store), None);
    init_database(&mut store);
    assert!(set_passcode(&mut store, "1234"));
    assert_eq!(get_passcode(&store), Some(String::from("1234")));
}
