use chorus_limits::limits::{
    AbsoluteRate, AbsoluteWindow, AuthRoutes, Channel, Config, Guild, Limit, LimitType, Limits,
    Message, Rate, Routes, User, Window, UNLIMITED,
};

fn window(count: u64, window: u64) -> Window {
    Window { count, window }
}

fn config(enabled: bool, register_on: bool, message_on: bool) -> Config {
    Config {
        user: User { maxGuilds: 100, maxUsername: 32, maxFriends: 1000 },
        guild: Guild {
            maxRoles: 250,
            maxEmojis: 50,
            maxMembers: 1000,
            maxChannels: 500,
            maxChannelsInCategory: 50,
        },
        message: Message {
            maxCharacters: 2000,
            maxTTSCharacters: 200,
            maxReactions: 20,
            maxAttachmentSize: 1024,
            maxBulkDelete: 100,
            maxEmbedDownloadSize: 5,
        },
        channel: Channel { maxPins: 50, maxTopic: 1024, maxWebhooks: 10 },
        rate: Rate {
            enabled,
            ip: window(50, 10),
            global: window(20, 5),
            error: window(10, 60),
            routes: Routes {
                guild: window(5, 6),
                webhook: window(7, 8),
                channel: window(9, 11),
                auth: AuthRoutes { login: window(3, 12), register: window(2, 13) },
            },
        },
        absoluteRate: AbsoluteRate {
            register: AbsoluteWindow { limit: 25, window: 3600, enabled: register_on },
            sendMessage: AbsoluteWindow { limit: 200, window: 60, enabled: message_on },
        },
    }
}

const ALL: [LimitType; 10] = [
    LimitType::AuthRegister,
    LimitType::AuthLogin,
    LimitType::AbsoluteMessage,
    LimitType::AbsoluteRegister,
    LimitType::Global,
    LimitType::Ip,
    LimitType::Channel,
    LimitType::Error,
    LimitType::Guild,
    LimitType::Webhook,
];

fn unlimited(t: LimitType) -> Limit {
    Limit { bucket: t, limit: UNLIMITED, remaining: UNLIMITED, reset: UNLIMITED }
}

#[test]
fn limit_below_zero() {
    let mut limit = Limit { bucket: LimitType::AbsoluteMessage, limit: 0, remaining: 1, reset: 0 };
    limit.add_remaining(-2);
    assert_eq!(0 as u64, limit.remaining);
    limit.add_remaining(-2123123);
    assert_eq!(0 as u64, limit.remaining);
}

#[test]
fn add_remaining_adds_and_subtracts() {
    let mut limit = Limit { bucket: LimitType::Ip, limit: 5, remaining: 5, reset: 1 };
    limit.add_remaining(-3);
    assert_eq!(limit.remaining, 2);
    limit.add_remaining(10);
    assert_eq!(limit.remaining, 12);
    limit.add_remaining(-12);
    assert_eq!(limit.remaining, 0);
    assert_eq!((limit.limit, limit.reset, limit.bucket), (5, 1, LimitType::Ip));
}

#[test]
fn add_remaining_extremes() {
    let mut limit = Limit { bucket: LimitType::Ip, limit: 5, remaining: UNLIMITED, reset: 1 };
    limit.add_remaining(-1);
    assert_eq!(limit.remaining, UNLIMITED - 1);
    limit.add_remaining(i64::MAX);
    assert_eq!(limit.remaining, UNLIMITED);
    limit.add_remaining(i64::MIN);
    assert_eq!(limit.remaining, UNLIMITED - (1u64 << 63));
    let mut empty = Limit { bucket: LimitType::Ip, limit: 5, remaining: 0, reset: 1 };
    empty.add_remaining(i64::MIN);
    assert_eq!(empty.remaining, 0);
}

#[test]
fn disabled_rate_is_unlimited_everywhere() {
    let limits = Limits::from_config(&config(false, true, true));
    for t in ALL {
        assert_eq!(limits.get(t), unlimited(t));
    }
}

#[test]
fn enabled_rate_takes_windows() {
    let limits = Limits::from_config(&config(true, true, true));
    let ip = limits.get(LimitType::Ip);
    assert_eq!((ip.limit, ip.remaining, ip.reset), (50, 50, 10));
    assert_eq!(
        limits.get(LimitType::AuthRegister),
        Limit { bucket: LimitType::AuthRegister, limit: 2, remaining: 2, reset: 13 }
    );
    assert_eq!(
        limits.get(LimitType::AuthLogin),
        Limit { bucket: LimitType::AuthLogin, limit: 3, remaining: 3, reset: 12 }
    );
    assert_eq!(
        limits.get(LimitType::Webhook),
        Limit { bucket: LimitType::Webhook, limit: 7, remaining: 7, reset: 8 }
    );
    assert_eq!(
        limits.get(LimitType::AbsoluteMessage),
        Limit { bucket: LimitType::AbsoluteMessage, limit: 200, remaining: 200, reset: 60 }
    );
    assert_eq!(
        limits.get(LimitType::AbsoluteRegister),
        Limit { bucket: LimitType::AbsoluteRegister, limit: 25, remaining: 25, reset: 3600 }
    );
}

#[test]
fn absolute_switches_override() {
    let limits = Limits::from_config(&config(true, true, false));
    assert_eq!(limits.get(LimitType::AbsoluteMessage), unlimited(LimitType::AbsoluteMessage));
    assert_eq!(limits.get(LimitType::AbsoluteRegister).limit, 25);
    let limits = Limits::from_config(&config(true, false, true));
    assert_eq!(limits.get(LimitType::AbsoluteRegister), unlimited(LimitType::AbsoluteRegister));
    assert_eq!(limits.get(LimitType::AbsoluteMessage).limit, 200);
    let limits = Limits::from_config(&config(false, false, false));
    assert_eq!(limits.get(LimitType::AbsoluteMessage), unlimited(LimitType::AbsoluteMessage));
}

#[test]
fn iter_lists_every_category_once() {
    let limits = Limits::from_config(&config(true, true, true));
    let records = limits.iter();
    assert_eq!(records.len(), 10);
    for t in ALL {
        assert_eq!(records.iter().filter(|l| l.bucket == t).count(), 1);
        assert!(records.contains(&limits.get(t)));
    }
}

#[test]
fn build_is_deterministic() {
    let a = Limits::from_config(&config(true, false, true));
    let b = Limits::from_config(&config(true, false, true));
    assert_eq!(a, b);
}

#[test]
fn set_and_apply_delta_touch_one_category() {
    let mut limits = Limits::from_config(&config(true, true, true));
    let before = limits;
    limits.apply_delta(LimitType::Guild, -2);
    assert_eq!(limits.get(LimitType::Guild).remaining, 3);
    limits.apply_delta(LimitType::Guild, -100);
    assert_eq!(limits.get(LimitType::Guild).remaining, 0);
    limits.set(
        LimitType::Channel,
        Limit { bucket: LimitType::Ip, limit: 4, remaining: 1, reset: 9 },
    );
    assert_eq!(
        limits.get(LimitType::Channel),
        Limit { bucket: LimitType::Channel, limit: 4, remaining: 1, reset: 9 }
    );
    for t in ALL {
        if t != LimitType::Guild && t != LimitType::Channel {
            assert_eq!(limits.get(t), before.get(t));
        }
    }
}

#[test]
fn diagnostics_render() {
    let limit = Limit { bucket: LimitType::Ip, limit: 50, remaining: 7, reset: 10 };
    assert_eq!(limit.to_string(), "Bucket: ip, Limit: 50, Remaining: 7, Reset: 10");
    assert_eq!(LimitType::AbsoluteRegister.to_string(), "absolute_register");
    assert_eq!(LimitType::AuthLogin.as_str(), "auth_login");
    assert_eq!(
        unlimited(LimitType::Webhook).to_string(),
        "Bucket: webhook, Limit: 18446744073709551615, Remaining: 18446744073709551615, Reset: 18446744073709551615"
    );
}
