//! Typed access to the settings store: the fixed configuration keys with
//! their defaults, and the per-day counters whose keys carry the date.
//!
//! Every reader falls back to its default when the key is absent or its
//! value is not a number of the expected type; no reader fails.

use vstd::prelude::*;
use vstd::string::*;
use crate::clock::{date_text, get_time_of_day, get_today_date, time_text, LocalTime};
use crate::decimal::{
    format_i32, format_i64, int_decimal, nat_digits, parse_i32, parse_i32_spec, parse_i64,
    parse_i64_spec, parse_u32, parse_u32_spec, push_decimal,
};
use crate::seconds::{clamp_i32, saturate_i32};
use crate::store::SettingsStore;

verus! {

/// The mapping that a store stands for.
pub type Settings = Map<Seq<char>, Seq<char>>;

/// The rules that govern pausing, as read at one moment.
#[derive(Clone, Copy, Debug)]
pub struct PauseConfig {
    pub daily_budget_minutes: u32,
    pub max_duration_minutes: u32,
    pub cooldown_minutes: u32,
    pub min_active_time_minutes: u32,
    pub enabled: bool,
}

/// The unsigned number stored under `key`, or `default`.
pub open spec fn u32_setting(m: Settings, key: Seq<char>, default: u32) -> u32 {
    if m.contains_key(key) {
        match parse_u32_spec(m[key]) {
            Some(v) => v as u32,
            None => default,
        }
    } else {
        default
    }
}

/// The signed number stored under `key`, if there is one.
pub open spec fn i32_entry(m: Settings, key: Seq<char>) -> Option<i32> {
    if m.contains_key(key) {
        match parse_i32_spec(m[key]) {
            Some(v) => Some(v as i32),
            None => None,
        }
    } else {
        None
    }
}

/// The signed number stored under `key`, or `default`.
pub open spec fn i32_setting(m: Settings, key: Seq<char>, default: i32) -> i32 {
    match i32_entry(m, key) {
        Some(v) => v,
        None => default,
    }
}

/// The 64-bit signed number stored under `key`, or `default`.
pub open spec fn i64_setting(m: Settings, key: Seq<char>, default: i64) -> i64 {
    if m.contains_key(key) {
        match parse_i64_spec(m[key]) {
            Some(v) => v as i64,
            None => default,
        }
    } else {
        default
    }
}

/// The text stored under `key`, or `default`.
pub open spec fn text_setting(m: Settings, key: Seq<char>, default: Seq<char>) -> Seq<char> {
    if m.contains_key(key) {
        m[key]
    } else {
        default
    }
}

/// The key of the daily limit of a weekday, Monday as 0 to Sunday as 6.
pub open spec fn weekday_key(weekday: int) -> Seq<char> {
    if weekday == 0 {
        "limit_monday"@
    } else if weekday == 1 {
        "limit_tuesday"@
    } else if weekday == 2 {
        "limit_wednesday"@
    } else if weekday == 3 {
        "limit_thursday"@
    } else if weekday == 4 {
        "limit_friday"@
    } else if weekday == 5 {
        "limit_saturday"@
    } else {
        "limit_sunday"@
    }
}

/// The daily limit of a weekday in minutes: 120 unless configured, and 120
/// for a weekday outside Monday to Sunday.
pub open spec fn daily_limit(m: Settings, weekday: int) -> u32 {
    if 0 <= weekday <= 6 {
        u32_setting(m, weekday_key(weekday), 120)
    } else {
        120
    }
}

/// The key of one part of warning `n`.
pub open spec fn warning_key(n: nat, suffix: Seq<char>) -> Seq<char> {
    "warning"@ + nat_digits(n) + suffix
}

/// Minutes before the end at which warning `n` is due: 5 unless configured.
pub open spec fn warning_minutes(m: Settings, n: nat) -> u32 {
    u32_setting(m, warning_key(n, "_minutes"@), 5)
}

/// The text of warning `n`: the configured one, or one made from its minutes.
pub open spec fn warning_message(m: Settings, n: nat) -> Seq<char> {
    text_setting(
        m,
        warning_key(n, "_message"@),
        nat_digits(warning_minutes(m, n) as nat) + " minutes remaining!"@,
    )
}

/// The text shown when the allowance is used up.
pub open spec fn blocking_message(m: Settings) -> Seq<char> {
    text_setting(m, "blocking_message"@, "Your screen time limit has been reached."@)
}

/// A key that belongs to the day of `now`.
pub open spec fn dated_key(prefix: Seq<char>, now: LocalTime) -> Seq<char> {
    prefix + date_text(now)
}

/// The key of the day's remaining seconds.
pub open spec fn remaining_time_key(now: LocalTime) -> Seq<char> {
    dated_key("remaining_time_"@, now)
}

/// The key of the day's active seconds.
pub open spec fn session_active_key(now: LocalTime) -> Seq<char> {
    dated_key("session_active_"@, now)
}

/// The key of the day's used pause seconds.
pub open spec fn pause_used_key(now: LocalTime) -> Seq<char> {
    dated_key("pause_used_"@, now)
}

/// The key of the day's pause log.
pub open spec fn pause_log_key(now: LocalTime) -> Seq<char> {
    dated_key("pause_log_"@, now)
}

/// The store after the day's remaining seconds are saved.
pub open spec fn saved_remaining_time(m: Settings, now: LocalTime, seconds: i32) -> Settings {
    m.insert(remaining_time_key(now), int_decimal(seconds as int))
}

/// The day's remaining seconds as stored, if they are.
pub open spec fn loaded_remaining_time(m: Settings, now: LocalTime) -> Option<i32> {
    i32_entry(m, remaining_time_key(now))
}

/// The store after the day's active seconds are saved.
pub open spec fn saved_session_active(m: Settings, now: LocalTime, seconds: i32) -> Settings {
    m.insert(session_active_key(now), int_decimal(seconds as int))
}

/// The day's active seconds as stored, 0 if they are not.
pub open spec fn session_active_time(m: Settings, now: LocalTime) -> i32 {
    i32_setting(m, session_active_key(now), 0)
}

/// The store after the day's used pause seconds are saved.
pub open spec fn saved_pause_used(m: Settings, now: LocalTime, seconds: i32) -> Settings {
    m.insert(pause_used_key(now), int_decimal(seconds as int))
}

/// The day's used pause seconds as stored, 0 if they are not.
pub open spec fn pause_used_today(m: Settings, now: LocalTime) -> i32 {
    i32_setting(m, pause_used_key(now), 0)
}

/// The store after the end of the last pause is saved.
pub open spec fn saved_last_pause_end(m: Settings, ts: i64) -> Settings {
    m.insert("pause_last_end_timestamp"@, int_decimal(ts as int))
}

/// When the last pause ended, 0 if none is recorded.
pub open spec fn last_pause_end(m: Settings) -> i64 {
    i64_setting(m, "pause_last_end_timestamp"@, 0)
}

/// Whether pausing is switched on: only the stored text `1` says yes, and
/// an absent key says yes too.
pub open spec fn pause_enabled(m: Settings) -> bool {
    m.contains_key("pause_enabled"@) ==> m["pause_enabled"@] == "1"@
}

/// The pause rules that the store holds.
pub open spec fn pause_config(m: Settings) -> PauseConfig {
    PauseConfig {
        daily_budget_minutes: u32_setting(m, "pause_daily_budget"@, 45),
        max_duration_minutes: u32_setting(m, "pause_max_duration"@, 20),
        cooldown_minutes: u32_setting(m, "pause_cooldown"@, 15),
        min_active_time_minutes: u32_setting(m, "pause_min_active_time"@, 10),
        enabled: pause_enabled(m),
    }
}

/// The seconds after which the locked screen shuts the machine down, 0 if
/// none are stored.
pub open spec fn lock_screen_timeout(m: Settings) -> i32 {
    i32_setting(m, "lock_screen_timeout"@, 0)
}

/// The store after a shutdown timeout entered in minutes is saved in
/// seconds. Text that is no number leaves the store as it is.
pub open spec fn saved_lock_screen_timeout(m: Settings, minutes_text: Seq<char>) -> Settings {
    match parse_i32_spec(minutes_text) {
        Some(minutes) => m.insert("lock_screen_timeout"@, int_decimal(clamp_i32(minutes * 60))),
        None => m,
    }
}

/// One line of the pause log: the time of day, a colon, the seconds, `s`.
pub open spec fn pause_log_entry(now: LocalTime, duration: i32) -> Seq<char> {
    time_text(now) + seq![':'] + int_decimal(duration as int) + seq!['s']
}

/// The store after one pause is added to the day's log.
pub open spec fn logged_pause_event(m: Settings, now: LocalTime, duration: i32) -> Settings {
    let existing = text_setting(m, pause_log_key(now), Seq::empty());
    let entry = pause_log_entry(now, duration);
    let updated = if existing.len() == 0 {
        entry
    } else {
        existing + seq![','] + entry
    };
    m.insert(pause_log_key(now), updated)
}

/// How many characters of `s` come before the first `sep`, all of them if
/// there is none.
pub open spec fn head_len(s: Seq<char>, sep: char) -> int
    decreases s.len(),
{
    if s.len() == 0 || s[0] == sep {
        0
    } else {
        1 + head_len(s.drop_first(), sep)
    }
}

/// The pieces of `s` between separators. Text without a separator is one
/// piece, the empty text too.
pub open spec fn split_on(s: Seq<char>, sep: char) -> Seq<Seq<char>>
    decreases s.len(),
{
    let n = head_len(s, sep);
    if 0 <= n < s.len() {
        seq![s.subrange(0, n)] + split_on(s.subrange(n + 1, s.len() as int), sep)
    } else {
        seq![s]
    }
}

/// The entries of the day's pause log, oldest first.
pub open spec fn pause_log(m: Settings, now: LocalTime) -> Seq<Seq<char>> {
    if m.contains_key(pause_log_key(now)) {
        split_on(m[pause_log_key(now)], ',')
    } else {
        Seq::empty()
    }
}

/// The texts that a list of strings holds.
pub open spec fn texts(v: Seq<String>) -> Seq<Seq<char>> {
    Seq::new(v.len(), |i: int| v[i]@)
}

/// `m` with `value` under `key` unless the key is taken.
#[verifier::opaque]
pub open spec fn seeded(m: Settings, key: Seq<char>, value: Seq<char>) -> Settings {
    if m.contains_key(key) {
        m
    } else {
        m.insert(key, value)
    }
}

/// `m` with every missing setting filled in with its default.
pub open spec fn with_defaults(m: Settings) -> Settings {
    let m = seeded(m, "passcode"@, "0000"@);
    let m = seeded(m, "limit_monday"@, "120"@);
    let m = seeded(m, "limit_tuesday"@, "120"@);
    let m = seeded(m, "limit_wednesday"@, "120"@);
    let m = seeded(m, "limit_thursday"@, "120"@);
    let m = seeded(m, "limit_friday"@, "180"@);
    let m = seeded(m, "limit_saturday"@, "240"@);
    let m = seeded(m, "limit_sunday"@, "240"@);
    let m = seeded(m, "warning1_minutes"@, "10"@);
    let m = seeded(m, "warning1_message"@, "10 minutes remaining!"@);
    let m = seeded(m, "warning2_minutes"@, "5"@);
    let m = seeded(m, "warning2_message"@, "5 minutes remaining!"@);
    let m = seeded(m, "blocking_message"@, "Your screen time limit has been reached."@);
    let m = seeded(m, "pause_enabled"@, "1"@);
    let m = seeded(m, "pause_daily_budget"@, "45"@);
    let m = seeded(m, "pause_max_duration"@, "20"@);
    let m = seeded(m, "pause_cooldown"@, "15"@);
    let m = seeded(m, "pause_min_active_time"@, "10"@);
    m
}

/// Seeding a key never touches a setting that is already there.
pub proof fn lemma_seeded_keeps(m: Settings, seed_key: Seq<char>, value: Seq<char>, key: Seq<char>)
    requires
        m.contains_key(key),
    ensures
        seeded(m, seed_key, value).contains_key(key),
        seeded(m, seed_key, value)[key] == m[key],
{
    reveal(seeded);
}

/// Filling in defaults never touches a setting that is already there.
pub proof fn lemma_defaults_keep_settings(m: Settings, key: Seq<char>)
    requires
        m.contains_key(key),
    ensures
        with_defaults(m).contains_key(key),
        with_defaults(m)[key] == m[key],
{
    let start = m;
    lemma_seeded_keeps(m, "passcode"@, "0000"@, key);
    let m = seeded(m, "passcode"@, "0000"@);
    lemma_seeded_keeps(m, "limit_monday"@, "120"@, key);
    let m = seeded(m, "limit_monday"@, "120"@);
    lemma_seeded_keeps(m, "limit_tuesday"@, "120"@, key);
    let m = seeded(m, "limit_tuesday"@, "120"@);
    lemma_seeded_keeps(m, "limit_wednesday"@, "120"@, key);
    let m = seeded(m, "limit_wednesday"@, "120"@);
    lemma_seeded_keeps(m, "limit_thursday"@, "120"@, key);
    let m = seeded(m, "limit_thursday"@, "120"@);
    lemma_seeded_keeps(m, "limit_friday"@, "180"@, key);
    let m = seeded(m, "limit_friday"@, "180"@);
    lemma_seeded_keeps(m, "limit_saturday"@, "240"@, key);
    let m = seeded(m, "limit_saturday"@, "240"@);
    lemma_seeded_keeps(m, "limit_sunday"@, "240"@, key);
    let m = seeded(m, "limit_sunday"@, "240"@);
    lemma_seeded_keeps(m, "warning1_minutes"@, "10"@, key);
    let m = seeded(m, "warning1_minutes"@, "10"@);
    lemma_seeded_keeps(m, "warning1_message"@, "10 minutes remaining!"@, key);
    let m = seeded(m, "warning1_message"@, "10 minutes remaining!"@);
    lemma_seeded_keeps(m, "warning2_minutes"@, "5"@, key);
    let m = seeded(m, "warning2_minutes"@, "5"@);
    lemma_seeded_keeps(m, "warning2_message"@, "5 minutes remaining!"@, key);
    let m = seeded(m, "warning2_message"@, "5 minutes remaining!"@);
    lemma_seeded_keeps(m, "blocking_message"@, "Your screen time limit has been reached."@, key);
    let m = seeded(m, "blocking_message"@, "Your screen time limit has been reached."@);
    lemma_seeded_keeps(m, "pause_enabled"@, "1"@, key);
    let m = seeded(m, "pause_enabled"@, "1"@);
    lemma_seeded_keeps(m, "pause_daily_budget"@, "45"@, key);
    let m = seeded(m, "pause_daily_budget"@, "45"@);
    lemma_seeded_keeps(m, "pause_max_duration"@, "20"@, key);
    let m = seeded(m, "pause_max_duration"@, "20"@);
    lemma_seeded_keeps(m, "pause_cooldown"@, "15"@, key);
    let m = seeded(m, "pause_cooldown"@, "15"@);
    lemma_seeded_keeps(m, "pause_min_active_time"@, "10"@, key);
    let m = seeded(m, "pause_min_active_time"@, "10"@);
    assert(m == with_defaults(start));
}

/// The position of the first separator is where a scan finds it.
pub proof fn lemma_head_len(s: Seq<char>, sep: char, j: int)
    requires
        0 <= j <= s.len(),
        forall|k: int| 0 <= k < j ==> s[k] != sep,
        j < s.len() ==> s[j] == sep,
    ensures
        head_len(s, sep) == j,
    decreases s.len(),
{
    if s.len() == 0 || j == 0 {
    } else {
        let rest = s.drop_first();
        assert forall|k: int| 0 <= k < j - 1 implies rest[k] != sep by {
            assert(rest[k] == s[k + 1]);
        }
        lemma_head_len(rest, sep, j - 1);
    }
}

fn read_u32(store: &SettingsStore, key: &str, default: u32) -> (r: u32)
    ensures
        r == u32_setting(store@, key@, default),
{
    match store.get(key) {
        Some(text) => match parse_u32(text.as_str()) {
            Some(v) => v,
            None => default,
        },
        None => default,
    }
}

fn read_i32(store: &SettingsStore, key: &str) -> (r: Option<i32>)
    ensures
        r == i32_entry(store@, key@),
{
    match store.get(key) {
        Some(text) => parse_i32(text.as_str()),
        None => None,
    }
}

fn read_i64(store: &SettingsStore, key: &str, default: i64) -> (r: i64)
    ensures
        r == i64_setting(store@, key@, default),
{
    match store.get(key) {
        Some(text) => match parse_i64(text.as_str()) {
            Some(v) => v,
            None => default,
        },
        None => default,
    }
}

fn make_dated_key(prefix: &str, now: &LocalTime) -> (key: String)
    ensures
        key@ == dated_key(prefix@, *now),
{
    let mut key = String::from_str(prefix);
    let date = get_today_date(now);
    key.append(date.as_str());
    key
}

fn seed(store: &mut SettingsStore, key: &str, value: &str)
    ensures
        final(store)@ == seeded(old(store)@, key@, value@),
{
    proof {
        reveal(seeded);
    }
    if !store.contains(key) {
        store.set(key, value);
    }
}

/// Fills in every missing setting with its default and leaves the settings
/// that are there as they are.
pub fn init_database(store: &mut SettingsStore)
    ensures
        final(store)@ == with_defaults(old(store)@),
{
    seed(store, "passcode", "0000");
    seed(store, "limit_monday", "120");
    seed(store, "limit_tuesday", "120");
    seed(store, "limit_wednesday", "120");
    seed(store, "limit_thursday", "120");
    seed(store, "limit_friday", "180");
    seed(store, "limit_saturday", "240");
    seed(store, "limit_sunday", "240");
    seed(store, "warning1_minutes", "10");
    seed(store, "warning1_message", "10 minutes remaining!");
    seed(store, "warning2_minutes", "5");
    seed(store, "warning2_message", "5 minutes remaining!");
    seed(store, "blocking_message", "Your screen time limit has been reached.");
    seed(store, "pause_enabled", "1");
    seed(store, "pause_daily_budget", "45");
    seed(store, "pause_max_duration", "20");
    seed(store, "pause_cooldown", "15");
    seed(store, "pause_min_active_time", "10");
}

/// The stored passcode, if one is stored.
pub fn get_passcode(store: &SettingsStore) -> (r: Option<String>)
    ensures
        match r {
            Some(code) => store@.contains_key("passcode"@) && code@ == store@["passcode"@],
            None => !store@.contains_key("passcode"@),
        },
{
    store.get("passcode")
}

/// Replaces the stored passcode. Where none is stored, nothing is written.
/// The answer is `true` either way.
pub fn set_passcode(store: &mut SettingsStore, code: &str) -> (ok: bool)
    ensures
        ok,
        final(store)@ == if old(store)@.contains_key("passcode"@) {
            old(store)@.insert("passcode"@, code@)
        } else {
            old(store)@
        },
{
    if store.contains("passcode") {
        store.set("passcode", code);
    }
    true
}

/// The key text of a weekday's limit.
fn weekday_key_text(weekday: u32) -> (key: &'static str)
    requires
        weekday <= 6,
    ensures
        key@ == weekday_key(weekday as int),
{
    if weekday == 0 {
        "limit_monday"
    } else if weekday == 1 {
        "limit_tuesday"
    } else if weekday == 2 {
        "limit_wednesday"
    } else if weekday == 3 {
        "limit_thursday"
    } else if weekday == 4 {
        "limit_friday"
    } else if weekday == 5 {
        "limit_saturday"
    } else {
        "limit_sunday"
    }
}

/// The daily limit in minutes of a weekday, Monday as 0 to Sunday as 6.
pub fn get_daily_limit(store: &SettingsStore, weekday: u32) -> (minutes: u32)
    ensures
        minutes == daily_limit(store@, weekday as int),
{
    if weekday > 6 {
        return 120;
    }
    read_u32(store, weekday_key_text(weekday), 120)
}

fn make_warning_key(warning_num: u32, suffix: &str) -> (key: String)
    ensures
        key@ == warning_key(warning_num as nat, suffix@),
{
    let mut key = String::from_str("warning");
    push_decimal(&mut key, warning_num as u64);
    key.append(suffix);
    key
}

/// The minutes and the text of warning `warning_num`.
pub fn get_warning_config(store: &SettingsStore, warning_num: u32) -> (r: (u32, String))
    ensures
        r.0 == warning_minutes(store@, warning_num as nat),
        r.1@ == warning_message(store@, warning_num as nat),
{
    let minutes_key = make_warning_key(warning_num, "_minutes");
    let message_key = make_warning_key(warning_num, "_message");
    let minutes = read_u32(store, minutes_key.as_str(), 5);
    let message = match store.get(message_key.as_str()) {
        Some(text) => text,
        None => {
            let mut text = String::new();
            push_decimal(&mut text, minutes as u64);
            text.append(" minutes remaining!");
            assert(text@ =~= nat_digits(minutes as nat) + " minutes remaining!"@);
            text
        },
    };
    (minutes, message)
}

/// The text shown when the allowance is used up.
pub fn get_blocking_message(store: &SettingsStore) -> (message: String)
    ensures
        message@ == blocking_message(store@),
{
    match store.get("blocking_message") {
        Some(text) => text,
        None => String::from_str("Your screen time limit has been reached."),
    }
}

/// Saves the remaining seconds under the day of `now`.
pub fn save_remaining_time(store: &mut SettingsStore, now: &LocalTime, seconds: i32)
    ensures
        final(store)@ == saved_remaining_time(old(store)@, *now, seconds),
{
    let key = make_dated_key("remaining_time_", now);
    let value = format_i32(seconds);
    store.set(key.as_str(), value.as_str());
}

/// The remaining seconds saved under the day of `now`, if any were and they
/// read as a number.
pub fn load_remaining_time(store: &SettingsStore, now: &LocalTime) -> (r: Option<i32>)
    ensures
        r == loaded_remaining_time(store@, *now),
{
    let key = make_dated_key("remaining_time_", now);
    read_i32(store, key.as_str())
}

/// Whether pausing is switched on.
pub fn is_pause_enabled(store: &SettingsStore) -> (enabled: bool)
    ensures
        enabled == pause_enabled(store@),
{
    match store.get("pause_enabled") {
        Some(text) => text == String::from_str("1"),
        None => true,
    }
}

/// The pause rules as the store holds them now.
pub fn get_pause_config(store: &SettingsStore) -> (config: PauseConfig)
    ensures
        config == pause_config(store@),
{
    PauseConfig {
        daily_budget_minutes: read_u32(store, "pause_daily_budget", 45),
        max_duration_minutes: read_u32(store, "pause_max_duration", 20),
        cooldown_minutes: read_u32(store, "pause_cooldown", 15),
        min_active_time_minutes: read_u32(store, "pause_min_active_time", 10),
        enabled: is_pause_enabled(store),
    }
}

/// The pause seconds used on the day of `now`.
pub fn get_pause_used_today(store: &SettingsStore, now: &LocalTime) -> (seconds: i32)
    ensures
        seconds == pause_used_today(store@, *now),
{
    let key = make_dated_key("pause_used_", now);
    match read_i32(store, key.as_str()) {
        Some(v) => v,
        None => 0,
    }
}

/// Saves the pause seconds used on the day of `now`.
pub fn save_pause_used_today(store: &mut SettingsStore, now: &LocalTime, seconds: i32)
    ensures
        final(store)@ == saved_pause_used(old(store)@, *now, seconds),
{
    let key = make_dated_key("pause_used_", now);
    let value = format_i32(seconds);
    store.set(key.as_str(), value.as_str());
}

/// When the last pause ended, 0 if none is recorded.
pub fn get_last_pause_end(store: &SettingsStore) -> (ts: i64)
    ensures
        ts == last_pause_end(store@),
{
    read_i64(store, "pause_last_end_timestamp", 0)
}

/// Records when the last pause ended.
pub fn save_last_pause_end(store: &mut SettingsStore, timestamp: i64)
    ensures
        final(store)@ == saved_last_pause_end(old(store)@, timestamp),
{
    let value = format_i64(timestamp);
    store.set("pause_last_end_timestamp", value.as_str());
}

/// The active seconds saved under the day of `now`.
pub fn get_session_active_time(store: &SettingsStore, now: &LocalTime) -> (seconds: i32)
    ensures
        seconds == session_active_time(store@, *now),
{
    let key = make_dated_key("session_active_", now);
    match read_i32(store, key.as_str()) {
        Some(v) => v,
        None => 0,
    }
}

/// Saves the active seconds under the day of `now`.
pub fn save_session_active_time(store: &mut SettingsStore, now: &LocalTime, seconds: i32)
    ensures
        final(store)@ == saved_session_active(old(store)@, *now, seconds),
{
    let key = make_dated_key("session_active_", now);
    let value = format_i32(seconds);
    store.set(key.as_str(), value.as_str());
}

/// The seconds after which the locked screen shuts the machine down.
pub fn get_lock_screen_timeout(store: &SettingsStore) -> (seconds: i32)
    ensures
        seconds == lock_screen_timeout(store@),
{
    match read_i32(store, "lock_screen_timeout") {
        Some(v) => v,
        None => 0,
    }
}

/// Saves the shutdown timeout, entered in minutes, in seconds. Text that is
/// no number is not saved.
pub fn save_lock_screen_timeout(store: &mut SettingsStore, minutes_text: &str)
    ensures
        final(store)@ == saved_lock_screen_timeout(old(store)@, minutes_text@),
{
    match parse_i32(minutes_text) {
        Some(minutes) => {
            let seconds = saturate_i32(minutes as i128 * 60);
            let value = format_i32(seconds);
            store.set("lock_screen_timeout", value.as_str());
        },
        None => {},
    }
}

/// Adds a pause of `duration_seconds` that ended at `now` to the day's log.
pub fn log_pause_event(store: &mut SettingsStore, now: &LocalTime, duration_seconds: i32)
    ensures
        final(store)@ == logged_pause_event(old(store)@, *now, duration_seconds),
{
    proof {
        reveal_strlit(":");
        reveal_strlit("s");
        reveal_strlit(",");
    }
    let mut entry = get_time_of_day(now);
    entry.append(":");
    let seconds = format_i32(duration_seconds);
    entry.append(seconds.as_str());
    entry.append("s");
    assert(entry@ =~= pause_log_entry(*now, duration_seconds));
    let key = make_dated_key("pause_log_", now);
    let updated = match store.get(key.as_str()) {
        Some(existing) => {
            if existing.as_str().unicode_len() == 0 {
                entry
            } else {
                let mut text = existing;
                text.append(",");
                text.append(entry.as_str());
                assert(text@ =~= existing@ + seq![','] + entry@);
                text
            }
        },
        None => entry,
    };
    store.set(key.as_str(), updated.as_str());
}

/// Cuts `s` at every comma.
fn split_commas(s: &str) -> (pieces: Vec<String>)
    ensures
        texts(pieces@) == split_on(s@, ','),
{
    let n: usize = s.unicode_len();
    let mut pieces: Vec<String> = Vec::new();
    let mut start: usize = 0;
    let mut i: usize = 0;
    proof {
        assert(s@.subrange(0, n as int) =~= s@);
        assert(texts(pieces@) + split_on(s@, ',') =~= split_on(s@, ','));
    }
    while i < n
        invariant
            start <= i <= n,
            n == s@.len(),
            forall|k: int| start <= k < i ==> s@[k] != ',',
            split_on(s@, ',') == texts(pieces@) + split_on(s@.subrange(start as int, n as int), ','),
        decreases n - i,
    {
        if s.get_char(i) == ',' {
            let piece = String::from_str(s.substring_char(start, i));
            proof {
                let tail = s@.subrange(start as int, n as int);
                assert forall|k: int| 0 <= k < i - start implies tail[k] != ',' by {
                    assert(tail[k] == s@[start + k]);
                }
                assert(tail[i - start] == s@[i as int]);
                lemma_head_len(tail, ',', i - start);
                assert(tail.subrange(0, i - start) =~= s@.subrange(start as int, i as int));
                assert(tail.subrange(i - start + 1, tail.len() as int) =~= s@.subrange(
                    i + 1,
                    n as int,
                ));
                assert(texts(pieces@.push(piece)) =~= texts(pieces@) + seq![piece@]);
            }
            pieces.push(piece);
            start = i + 1;
        }
        i = i + 1;
    }
    let piece = String::from_str(s.substring_char(start, n));
    proof {
        let tail = s@.subrange(start as int, n as int);
        assert forall|k: int| 0 <= k < tail.len() implies tail[k] != ',' by {
            assert(tail[k] == s@[start + k]);
        }
        lemma_head_len(tail, ',', tail.len() as int);
        assert(texts(pieces@.push(piece)) =~= texts(pieces@) + seq![tail]);
    }
    pieces.push(piece);
    pieces
}

/// The entries of the pause log of the day of `now`, oldest first.
pub fn get_pause_log_today(store: &SettingsStore, now: &LocalTime) -> (entries: Vec<String>)
    ensures
        texts(entries@) == pause_log(store@, *now),
{
    let key = make_dated_key("pause_log_", now);
    match store.get(key.as_str()) {
        Some(text) => split_commas(text.as_str()),
        None => {
            let entries: Vec<String> = Vec::new();
            assert(texts(entries@) =~= Seq::<Seq<char>>::empty());
            entries
        },
    }
}

/// What is saved for a day is what is loaded for that day, whatever else the
/// store holds: the remaining seconds survive a restart unchanged.
pub proof fn lemma_remaining_time_round_trip(m: Settings, now: LocalTime, seconds: i32)
    ensures
        loaded_remaining_time(saved_remaining_time(m, now, seconds), now) == Some(seconds),
{
    crate::decimal::lemma_decimal_round_trip(
        seconds as int,
        true,
        i32::MIN as int,
        i32::MAX as int,
    );
}

/// The day's active seconds and used pause seconds read back as saved, and
/// so does the end of the last pause.
pub proof fn lemma_counters_round_trip(m: Settings, now: LocalTime, seconds: i32, ts: i64)
    ensures
        session_active_time(saved_session_active(m, now, seconds), now) == seconds,
        pause_used_today(saved_pause_used(m, now, seconds), now) == seconds,
        last_pause_end(saved_last_pause_end(m, ts)) == ts,
{
    crate::decimal::lemma_decimal_round_trip(
        seconds as int,
        true,
        i32::MIN as int,
        i32::MAX as int,
    );
    crate::decimal::lemma_decimal_round_trip(ts as int, true, i64::MIN as int, i64::MAX as int);
}

} // verus!
