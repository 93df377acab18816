//! The operations that a remote operator may ask for, and who may ask.
//!
//! One configured identity is the administrator. Anyone may ask who they are;
//! everything else is answered to the administrator alone, and a request
//! from anyone else changes nothing. Answers are values: putting them into
//! words is the caller's part.

use vstd::prelude::*;
use vstd::string::*;
use crate::budget::{extend_time, extend_effects, extended_state};
use crate::clock::LocalTime;
use crate::display::quotient_toward_zero;
use crate::pause::{
    get_remaining_pause_budget, pause_eligibility, paused_state, remaining_pause_budget,
    resumed_state, resumed_store, toggle_pause, PauseBlockedReason,
};
use crate::decimal::{parse_i64, parse_i64_spec};
use crate::settings::{
    get_pause_config, get_pause_log_today, get_pause_used_today, pause_config, pause_log,
    pause_used_today, texts, Settings,
};
use crate::state::{effect_models, Effect, EffectModel, TimerState};
use crate::store::SettingsStore;

verus! {

/// A request from the remote channel.
#[derive(Clone, Copy, Debug, PartialEq, Eq, Structural)]
pub enum Command {
    Start,
    Status,
    Time,
    Extend { minutes: i32 },
    Pause,
    Resume,
    History,
    Chatid,
    Help,
}

/// How urgent the remaining time is.
#[derive(Clone, Copy, Debug, PartialEq, Eq, Structural)]
pub enum TimeLevel {
    /// A minute or less.
    Critical,
    /// Five minutes or less.
    Low,
    /// More than five minutes.
    Normal,
}

/// The remaining time as minutes and seconds with its urgency.
#[derive(Clone, Copy, Debug, PartialEq, Eq, Structural)]
pub struct TimeReading {
    pub level: TimeLevel,
    pub minutes: i32,
    pub seconds: i32,
}

/// The answer to a request.
#[derive(Clone, Debug, PartialEq, Eq)]
pub enum Reply {
    Welcome { chat_id: i64 },
    ChatId { chat_id: i64 },
    Unauthorized,
    NoAdminConfigured,
    Status { time: TimeReading, paused: bool, pause_budget_minutes: i32 },
    Time { time: TimeReading },
    ExtendNotPositive,
    ExtendTooLarge,
    Extended { minutes: i32, time: TimeReading },
    AlreadyPaused,
    Paused,
    CannotPause { reason: PauseBlockedReason },
    NotPaused,
    Resumed,
    History { pause_used_minutes: i32, daily_budget_minutes: u32, entries: Vec<String> },
    Help,
}

/// What an answer says.
pub enum ReplyModel {
    Welcome { chat_id: i64 },
    ChatId { chat_id: i64 },
    Unauthorized,
    NoAdminConfigured,
    Status { time: TimeReading, paused: bool, pause_budget_minutes: i32 },
    Time { time: TimeReading },
    ExtendNotPositive,
    ExtendTooLarge,
    Extended { minutes: i32, time: TimeReading },
    AlreadyPaused,
    Paused,
    CannotPause { reason: PauseBlockedReason },
    NotPaused,
    Resumed,
    History { pause_used_minutes: i32, daily_budget_minutes: u32, entries: Seq<Seq<char>> },
    Help,
}

impl View for Reply {
    type V = ReplyModel;

    open spec fn view(&self) -> ReplyModel {
        match *self {
            Reply::Welcome { chat_id } => ReplyModel::Welcome { chat_id },
            Reply::ChatId { chat_id } => ReplyModel::ChatId { chat_id },
            Reply::Unauthorized => ReplyModel::Unauthorized,
            Reply::NoAdminConfigured => ReplyModel::NoAdminConfigured,
            Reply::Status { time, paused, pause_budget_minutes } => ReplyModel::Status {
                time,
                paused,
                pause_budget_minutes,
            },
            Reply::Time { time } => ReplyModel::Time { time },
            Reply::ExtendNotPositive => ReplyModel::ExtendNotPositive,
            Reply::ExtendTooLarge => ReplyModel::ExtendTooLarge,
            Reply::Extended { minutes, time } => ReplyModel::Extended { minutes, time },
            Reply::AlreadyPaused => ReplyModel::AlreadyPaused,
            Reply::Paused => ReplyModel::Paused,
            Reply::CannotPause { reason } => ReplyModel::CannotPause { reason },
            Reply::NotPaused => ReplyModel::NotPaused,
            Reply::Resumed => ReplyModel::Resumed,
            Reply::History { pause_used_minutes, daily_budget_minutes, entries } => {
                ReplyModel::History {
                    pause_used_minutes,
                    daily_budget_minutes,
                    entries: texts(entries@),
                }
            },
            Reply::Help => ReplyModel::Help,
        }
    }
}

/// How the remote channel is set up.
#[derive(Clone, Debug, PartialEq, Eq)]
pub struct TelegramConfig {
    pub enabled: bool,
    pub bot_token: Option<String>,
    pub admin_chat_id: Option<i64>,
}

/// Whether the remote channel is to be started, and why not if it is not.
#[derive(Clone, Copy, Debug, PartialEq, Eq, Structural)]
pub enum BotStart {
    Disabled,
    NoToken,
    EmptyToken,
    Start,
}

/// Whether the store switches the remote channel on: only the text `1` does.
pub open spec fn telegram_enabled(m: Settings) -> bool {
    m.contains_key("telegram_enabled"@) && m["telegram_enabled"@] == "1"@
}

/// The administrator that the store names, if it names one.
pub open spec fn admin_chat_id(m: Settings) -> Option<i64> {
    if m.contains_key("telegram_admin_chat_id"@) {
        match parse_i64_spec(m["telegram_admin_chat_id"@]) {
            Some(id) => Some(id as i64),
            None => None,
        }
    } else {
        None
    }
}

/// The verdict on starting the remote channel.
pub open spec fn bot_start_verdict(enabled: bool, token: Option<Seq<char>>) -> BotStart {
    if !enabled {
        BotStart::Disabled
    } else {
        match token {
            None => BotStart::NoToken,
            Some(text) => if text.len() == 0 {
                BotStart::EmptyToken
            } else {
                BotStart::Start
            },
        }
    }
}

/// The most minutes that one remote extension may add.
pub const MAX_REMOTE_EXTENSION_MINUTES: i32 = 120;

/// The urgency of `remaining` seconds.
pub open spec fn time_level(remaining: i32) -> TimeLevel {
    if remaining <= 60 {
        TimeLevel::Critical
    } else if remaining <= 300 {
        TimeLevel::Low
    } else {
        TimeLevel::Normal
    }
}

/// `remaining` seconds as minutes and seconds, both rounded toward zero.
pub open spec fn time_reading(remaining: i32) -> TimeReading {
    let minutes = quotient_toward_zero(remaining as int, 60);
    TimeReading {
        level: time_level(remaining),
        minutes: minutes as i32,
        seconds: (remaining - 60 * minutes) as i32,
    }
}

/// Whether `sender` is the administrator.
pub open spec fn is_admin(sender: i64, admin: Option<i64>) -> bool {
    admin == Some(sender)
}

/// Whether a request is answered to anyone.
pub open spec fn open_to_all(command: Command) -> bool {
    command is Start || command is Chatid
}

/// Whether a request is carried out: it is open to all, or the sender is the
/// administrator.
pub open spec fn admitted(command: Command, sender: i64, admin: Option<i64>) -> bool {
    open_to_all(command) || is_admin(sender, admin)
}

/// The answer to the administrator's request to add `minutes`.
pub open spec fn extend_reply(s: TimerState, minutes: i32) -> ReplyModel {
    if minutes <= 0 {
        ReplyModel::ExtendNotPositive
    } else if minutes > 120 {
        ReplyModel::ExtendTooLarge
    } else {
        ReplyModel::Extended {
            minutes,
            time: time_reading(extended_state(s, minutes).remaining_seconds),
        }
    }
}

/// The answer to the administrator's request to pause.
pub open spec fn pause_reply(s: TimerState, m: Settings, now: LocalTime) -> ReplyModel {
    if s.is_paused {
        ReplyModel::AlreadyPaused
    } else {
        match pause_eligibility(s, m, now) {
            Ok(_) => ReplyModel::Paused,
            Err(reason) => ReplyModel::CannotPause { reason },
        }
    }
}

/// The answer to the administrator's request for the status.
pub open spec fn status_reply(s: TimerState, m: Settings, now: LocalTime) -> ReplyModel {
    ReplyModel::Status {
        time: time_reading(s.remaining_seconds),
        paused: s.is_paused,
        pause_budget_minutes: (remaining_pause_budget(pause_config(m), pause_used_today(m, now))
            / 60) as i32,
    }
}

/// The answer to the administrator's request for the day's pauses.
pub open spec fn history_reply(m: Settings, now: LocalTime) -> ReplyModel {
    ReplyModel::History {
        pause_used_minutes: quotient_toward_zero(pause_used_today(m, now) as int, 60) as i32,
        daily_budget_minutes: pause_config(m).daily_budget_minutes,
        entries: pause_log(m, now),
    }
}

/// The answer to a request.
pub open spec fn reply_to(
    s: TimerState,
    m: Settings,
    now: LocalTime,
    sender: i64,
    admin: Option<i64>,
    command: Command,
) -> ReplyModel {
    match command {
        Command::Start => ReplyModel::Welcome { chat_id: sender },
        Command::Chatid => ReplyModel::ChatId { chat_id: sender },
        _ => if admin is None {
            ReplyModel::NoAdminConfigured
        } else if admin != Some(sender) {
            ReplyModel::Unauthorized
        } else {
            match command {
                Command::Status => status_reply(s, m, now),
                Command::Time => ReplyModel::Time { time: time_reading(s.remaining_seconds) },
                Command::Extend { minutes } => extend_reply(s, minutes),
                Command::Pause => pause_reply(s, m, now),
                Command::Resume => if s.is_paused {
                    ReplyModel::Resumed
                } else {
                    ReplyModel::NotPaused
                },
                Command::History => history_reply(m, now),
                _ => ReplyModel::Help,
            }
        },
    }
}

/// The state after a request.
pub open spec fn state_after(
    s: TimerState,
    m: Settings,
    now: LocalTime,
    sender: i64,
    admin: Option<i64>,
    command: Command,
) -> TimerState {
    if !is_admin(sender, admin) {
        s
    } else {
        match command {
            Command::Extend { minutes } => if 0 < minutes <= 120 {
                extended_state(s, minutes)
            } else {
                s
            },
            Command::Pause => if !s.is_paused && pause_eligibility(s, m, now) is Ok {
                paused_state(s, now)
            } else {
                s
            },
            Command::Resume => if s.is_paused {
                resumed_state(s)
            } else {
                s
            },
            _ => s,
        }
    }
}

/// The store after a request.
pub open spec fn store_after(
    s: TimerState,
    m: Settings,
    now: LocalTime,
    sender: i64,
    admin: Option<i64>,
    command: Command,
) -> Settings {
    if is_admin(sender, admin) && command is Resume && s.is_paused {
        resumed_store(m, now, s.current_pause_elapsed)
    } else {
        m
    }
}

/// The display commands of a request.
pub open spec fn effects_after(
    s: TimerState,
    m: Settings,
    now: LocalTime,
    sender: i64,
    admin: Option<i64>,
    command: Command,
) -> Seq<EffectModel> {
    if !is_admin(sender, admin) {
        Seq::empty()
    } else {
        match command {
            Command::Extend { minutes } => if 0 < minutes <= 120 {
                extend_effects(s)
            } else {
                Seq::empty()
            },
            Command::Pause => if !s.is_paused && pause_eligibility(s, m, now) is Ok {
                seq![EffectModel::RefreshCountdownDisplay]
            } else {
                Seq::empty()
            },
            Command::Resume => if s.is_paused {
                seq![EffectModel::RefreshCountdownDisplay]
            } else {
                Seq::empty()
            },
            _ => Seq::empty(),
        }
    }
}

/// How the remote channel is set up in the store.
pub fn get_telegram_config(store: &SettingsStore) -> (config: TelegramConfig)
    ensures
        config.enabled == telegram_enabled(store@),
        match config.bot_token {
            Some(token) => store@.contains_key("telegram_bot_token"@) && token@
                == store@["telegram_bot_token"@],
            None => !store@.contains_key("telegram_bot_token"@),
        },
        config.admin_chat_id == admin_chat_id(store@),
{
    let enabled = match store.get("telegram_enabled") {
        Some(text) => text == String::from_str("1"),
        None => false,
    };
    let bot_token = store.get("telegram_bot_token");
    let admin_chat_id = match store.get("telegram_admin_chat_id") {
        Some(text) => parse_i64(text.as_str()),
        None => None,
    };
    TelegramConfig { enabled, bot_token, admin_chat_id }
}

/// Writes the setup of the remote channel to the store, the texts as they
/// were entered.
pub fn set_telegram_config(store: &mut SettingsStore, token: &str, chat_id: &str, enabled: bool)
    ensures
        final(store)@ == old(store)@.insert("telegram_bot_token"@, token@).insert(
            "telegram_admin_chat_id"@,
            chat_id@,
        ).insert("telegram_enabled"@, if enabled {
            "1"@
        } else {
            "0"@
        }),
{
    store.set("telegram_bot_token", token);
    store.set("telegram_admin_chat_id", chat_id);
    if enabled {
        store.set("telegram_enabled", "1");
    } else {
        store.set("telegram_enabled", "0");
    }
}

/// Whether the remote channel is to be started with this setup.
pub fn decide_bot_start(config: &TelegramConfig) -> (verdict: BotStart)
    ensures
        verdict == bot_start_verdict(
            config.enabled,
            match config.bot_token {
                Some(token) => Some(token@),
                None => None,
            },
        ),
{
    if !config.enabled {
        return BotStart::Disabled;
    }
    match &config.bot_token {
        None => BotStart::NoToken,
        Some(token) => if token.as_str().unicode_len() == 0 {
            BotStart::EmptyToken
        } else {
            BotStart::Start
        },
    }
}

/// `remaining` seconds as minutes and seconds with their urgency.
pub fn read_time(remaining: i32) -> (time: TimeReading)
    ensures
        time == time_reading(remaining),
{
    let level = if remaining <= 60 {
        TimeLevel::Critical
    } else if remaining <= 300 {
        TimeLevel::Low
    } else {
        TimeLevel::Normal
    };
    let minutes: i32 = whole_minutes(remaining);
    let seconds: i32 = (remaining as i64 - 60 * minutes as i64) as i32;
    TimeReading { level, minutes, seconds }
}

/// The full minutes in `seconds`, rounded toward zero.
pub fn whole_minutes(seconds: i32) -> (minutes: i32)
    ensures
        minutes == quotient_toward_zero(seconds as int, 60),
{
    if seconds >= 0 {
        seconds / 60
    } else {
        let magnitude: i64 = -(seconds as i64);
        (-(magnitude / 60)) as i32
    }
}

/// The remaining time, whether the countdown is paused, and the pause
/// budget that is left.
pub fn cmd_status(state: &TimerState, store: &SettingsStore, now: &LocalTime) -> (reply: Reply)
    ensures
        reply@ == status_reply(*state, store@, *now),
{
    let pause_budget = get_remaining_pause_budget(store, now);
    Reply::Status {
        time: read_time(state.remaining_seconds),
        paused: state.is_paused,
        pause_budget_minutes: pause_budget / 60,
    }
}

/// The remaining time.
pub fn cmd_time(state: &TimerState) -> (reply: Reply)
    ensures
        reply@ == (ReplyModel::Time { time: time_reading(state.remaining_seconds) }),
{
    Reply::Time { time: read_time(state.remaining_seconds) }
}

/// Adds `minutes` if they are between 1 and 120, and says what remains then.
pub fn cmd_extend(state: &mut TimerState, minutes: i32, effects: &mut Vec<Effect>) -> (reply: Reply)
    ensures
        reply@ == extend_reply(*old(state), minutes),
        0 < minutes <= 120 ==> *final(state) == extended_state(*old(state), minutes)
            && effect_models(final(effects)@) == effect_models(old(effects)@) + extend_effects(
            *old(state),
        ),
        !(0 < minutes <= 120) ==> *final(state) == *old(state) && effect_models(final(effects)@)
            == effect_models(old(effects)@),
{
    if minutes <= 0 {
        return Reply::ExtendNotPositive;
    }
    if minutes > MAX_REMOTE_EXTENSION_MINUTES {
        return Reply::ExtendTooLarge;
    }
    extend_time(state, minutes, effects);
    Reply::Extended { minutes, time: read_time(state.remaining_seconds) }
}

/// Pauses a running countdown if the rules allow.
pub fn cmd_pause(
    state: &mut TimerState,
    store: &mut SettingsStore,
    now: &LocalTime,
    effects: &mut Vec<Effect>,
) -> (reply: Reply)
    ensures
        reply@ == pause_reply(*old(state), old(store)@, *now),
        final(store)@ == old(store)@,
        reply@ is Paused ==> *final(state) == paused_state(*old(state), *now) && effect_models(
            final(effects)@,
        ) == effect_models(old(effects)@).push(EffectModel::RefreshCountdownDisplay),
        !(reply@ is Paused) ==> *final(state) == *old(state) && effect_models(final(effects)@)
            == effect_models(old(effects)@),
{
    if state.is_paused {
        return Reply::AlreadyPaused;
    }
    match toggle_pause(state, store, now, effects) {
        Ok(_) => Reply::Paused,
        Err(reason) => Reply::CannotPause { reason },
    }
}

/// Resumes a paused countdown.
pub fn cmd_resume(
    state: &mut TimerState,
    store: &mut SettingsStore,
    now: &LocalTime,
    effects: &mut Vec<Effect>,
) -> (reply: Reply)
    ensures
        old(state).is_paused ==> reply@ is Resumed && *final(state) == resumed_state(*old(state))
            && final(store)@ == resumed_store(old(store)@, *now, old(state).current_pause_elapsed)
            && effect_models(final(effects)@) == effect_models(old(effects)@).push(
            EffectModel::RefreshCountdownDisplay,
        ),
        !old(state).is_paused ==> reply@ is NotPaused && *final(state) == *old(state)
            && final(store)@ == old(store)@ && effect_models(final(effects)@) == effect_models(
            old(effects)@,
        ),
{
    if !state.is_paused {
        return Reply::NotPaused;
    }
    let toggled = toggle_pause(state, store, now, effects);
    Reply::Resumed
}

/// The pause used today against the daily budget, and the day's pause log.
pub fn cmd_history(store: &SettingsStore, now: &LocalTime) -> (reply: Reply)
    ensures
        reply@ == history_reply(store@, *now),
{
    let entries = get_pause_log_today(store, now);
    let pause_used = get_pause_used_today(store, now);
    let config = get_pause_config(store);
    Reply::History {
        pause_used_minutes: whole_minutes(pause_used),
        daily_budget_minutes: config.daily_budget_minutes,
        entries,
    }
}

/// Answers a request from `sender_id`. Asking who one is is open to all.
/// Everything else is for the administrator: without one, or from anyone
/// else, the request is turned down and nothing changes.
pub fn handle_command(
    state: &mut TimerState,
    store: &mut SettingsStore,
    now: &LocalTime,
    sender_id: i64,
    admin_chat_id: Option<i64>,
    command: Command,
    effects: &mut Vec<Effect>,
) -> (reply: Reply)
    ensures
        reply@ == reply_to(*old(state), old(store)@, *now, sender_id, admin_chat_id, command),
        *final(state) == state_after(
            *old(state),
            old(store)@,
            *now,
            sender_id,
            admin_chat_id,
            command,
        ),
        final(store)@ == store_after(
            *old(state),
            old(store)@,
            *now,
            sender_id,
            admin_chat_id,
            command,
        ),
        effect_models(final(effects)@) == effect_models(old(effects)@) + effects_after(
            *old(state),
            old(store)@,
            *now,
            sender_id,
            admin_chat_id,
            command,
        ),
{
    proof {
        assert(effect_models(effects@) + Seq::<EffectModel>::empty() =~= effect_models(effects@));
        assert(effect_models(effects@) + seq![EffectModel::RefreshCountdownDisplay]
            =~= effect_models(effects@).push(EffectModel::RefreshCountdownDisplay));
    }
    match command {
        Command::Start => {
            return Reply::Welcome { chat_id: sender_id };
        },
        Command::Chatid => {
            return Reply::ChatId { chat_id: sender_id };
        },
        _ => {},
    }
    match admin_chat_id {
        Some(admin_id) => {
            if sender_id != admin_id {
                return Reply::Unauthorized;
            }
        },
        None => {
            return Reply::NoAdminConfigured;
        },
    }
    match command {
        Command::Status => cmd_status(state, store, now),
        Command::Time => cmd_time(state),
        Command::Extend { minutes } => cmd_extend(state, minutes, effects),
        Command::Pause => cmd_pause(state, store, now, effects),
        Command::Resume => cmd_resume(state, store, now, effects),
        Command::History => cmd_history(store, now),
        _ => Reply::Help,
    }
}

/// A request from anyone but the administrator changes nothing, unless it
/// only asks who the sender is, which changes nothing either.
pub proof fn lemma_strangers_change_nothing(
    s: TimerState,
    m: Settings,
    now: LocalTime,
    sender: i64,
    admin: Option<i64>,
    command: Command,
)
    requires
        !is_admin(sender, admin),
    ensures
        state_after(s, m, now, sender, admin, command) == s,
        store_after(s, m, now, sender, admin, command) == m,
        effects_after(s, m, now, sender, admin, command) == Seq::<EffectModel>::empty(),
        !open_to_all(command) ==> reply_to(s, m, now, sender, admin, command) is Unauthorized
            || reply_to(s, m, now, sender, admin, command) is NoAdminConfigured,
{
}

} // verus!
