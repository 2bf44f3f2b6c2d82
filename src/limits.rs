//! Rate-limit categories, quota records and the saturating accounting on them.

use vstd::prelude::*;

verus! {

/// The largest `u64`, used as the "no limit enforced" marker.
pub const UNLIMITED: u64 = 0xffff_ffff_ffff_ffff;

/// The ten kinds of rate limit that an instance's policy can describe.
#[derive(Clone, Copy, PartialEq, Eq, Structural, Hash, Debug)]
pub enum LimitType {
    AuthRegister,
    AuthLogin,
    AbsoluteMessage,
    AbsoluteRegister,
    Global,
    Ip,
    Channel,
    Error,
    Guild,
    Webhook,
}

/// The value a quota's `remaining` takes after a signed delta: never below
/// zero, never above the largest `u64`, and not held to the quota's ceiling.
pub open spec fn applied_delta(remaining: u64, delta: i64) -> u64 {
    if remaining + delta <= 0 {
        0
    } else if remaining + delta >= UNLIMITED {
        UNLIMITED
    } else {
        (remaining + delta) as u64
    }
}

impl LimitType {
    /// The display name of a category.
    pub open spec fn name(self) -> Seq<char> {
        match self {
            LimitType::AuthRegister => "auth_register"@,
            LimitType::AuthLogin => "auth_login"@,
            LimitType::AbsoluteMessage => "absolute_message"@,
            LimitType::AbsoluteRegister => "absolute_register"@,
            LimitType::Global => "global"@,
            LimitType::Ip => "ip"@,
            LimitType::Channel => "channel"@,
            LimitType::Error => "error"@,
            LimitType::Guild => "guild"@,
            LimitType::Webhook => "webhook"@,
        }
    }

    /// The display name of this category, such as `auth_register`.
    pub fn as_str(&self) -> (r: &'static str)
        ensures
            r@ == self.name(),
    {
        match self {
            LimitType::AuthRegister => "auth_register",
            LimitType::AuthLogin => "auth_login",
            LimitType::AbsoluteMessage => "absolute_message",
            LimitType::AbsoluteRegister => "absolute_register",
            LimitType::Global => "global",
            LimitType::Ip => "ip",
            LimitType::Channel => "channel",
            LimitType::Error => "error",
            LimitType::Guild => "guild",
            LimitType::Webhook => "webhook",
        }
    }

    /// The display name of this category as an owned string.
    pub fn to_string(&self) -> (r: String)
        ensures
            r@ == self.name(),
    {
        String::from_str(self.as_str())
    }
}

/// The decimal digits of `n`, most significant first, without leading zeros.
pub open spec fn decimal(n: nat) -> Seq<char>
    decreases n,
{
    if n < 10 {
        seq![digit(n)]
    } else {
        decimal(n / 10).push(digit(n % 10))
    }
}

/// The character of a digit below ten.
pub open spec fn digit(d: nat) -> char {
    seq!['0', '1', '2', '3', '4', '5', '6', '7', '8', '9'][d as int]
}

/// Relies on std's `Display` for `u64` (through `ToString`): the number in
/// decimal, without sign or leading zeros.
#[verifier::external_body]
fn decimal_string(n: u64) -> (r: String)
    ensures
        r@ == decimal(n as nat),
{
    n.to_string()
}

/// One category's quota: its ceiling, what is left of it, and its window.
#[derive(Clone, Copy, PartialEq, Eq, Structural, Debug)]
pub struct Limit {
    pub bucket: LimitType,
    pub limit: u64,
    pub remaining: u64,
    pub reset: u64,
}

/// The diagnostic line of a quota record.
pub open spec fn describe(l: Limit) -> Seq<char> {
    "Bucket: "@ + l.bucket.name() + ", Limit: "@ + decimal(l.limit as nat) + ", Remaining: "@
        + decimal(l.remaining as nat) + ", Reset: "@ + decimal(l.reset as nat)
}

impl Limit {
    /// The diagnostic line of this record, such as
    /// `Bucket: ip, Limit: 50, Remaining: 50, Reset: 10`.
    pub fn to_string(&self) -> (r: String)
        ensures
            r@ == describe(*self),
    {
        let mut out = String::from_str("Bucket: ");
        out.append(self.bucket.as_str());
        out.append(", Limit: ");
        out.append(decimal_string(self.limit).as_str());
        out.append(", Remaining: ");
        out.append(decimal_string(self.remaining).as_str());
        out.append(", Reset: ");
        out.append(decimal_string(self.reset).as_str());
        out
    }

    /// Adds a signed amount to `remaining`, stopping at zero on the way down
    /// and at the largest `u64` on the way up.
    pub fn add_remaining(&mut self, remaining: i64)
        ensures
            final(self).remaining == applied_delta(old(self).remaining, remaining),
            remaining < 0 ==> final(self).remaining == if old(self).remaining + remaining <= 0 {
                0
            } else {
                old(self).remaining + remaining
            },
            final(self).bucket == old(self).bucket,
            final(self).limit == old(self).limit,
            final(self).reset == old(self).reset,
    {
        if remaining < 0 {
            let amount: u64 = ((-(remaining + 1)) as u64) + 1;
            if self.remaining <= amount {
                self.remaining = 0;
            } else {
                self.remaining = self.remaining - amount;
            }
        } else {
            let amount: u64 = remaining as u64;
            if self.remaining >= UNLIMITED - amount {
                self.remaining = UNLIMITED;
            } else {
                self.remaining = self.remaining + amount;
            }
        }
    }
}


/// Per-user structural caps of an instance.
#[allow(non_snake_case)]
#[derive(Clone, Copy, PartialEq, Eq, Structural, Debug)]
pub struct User {
    pub maxGuilds: u64,
    pub maxUsername: u64,
    pub maxFriends: u64,
}

/// Per-guild structural caps of an instance.
#[allow(non_snake_case)]
#[derive(Clone, Copy, PartialEq, Eq, Structural, Debug)]
pub struct Guild {
    pub maxRoles: u64,
    pub maxEmojis: u64,
    pub maxMembers: u64,
    pub maxChannels: u64,
    pub maxChannelsInCategory: u64,
}

/// Per-message structural caps of an instance.
#[allow(non_snake_case)]
#[derive(Clone, Copy, PartialEq, Eq, Structural, Debug)]
pub struct Message {
    pub maxCharacters: u64,
    pub maxTTSCharacters: u64,
    pub maxReactions: u64,
    pub maxAttachmentSize: u64,
    pub maxBulkDelete: u64,
    pub maxEmbedDownloadSize: u64,
}

/// Per-channel structural caps of an instance.
#[allow(non_snake_case)]
#[derive(Clone, Copy, PartialEq, Eq, Structural, Debug)]
pub struct Channel {
    pub maxPins: u64,
    pub maxTopic: u64,
    pub maxWebhooks: u64,
}

/// The rate section of the policy: a global switch and the route windows.
#[derive(Clone, Copy, PartialEq, Eq, Structural, Debug)]
pub struct Rate {
    pub enabled: bool,
    pub ip: Window,
    pub global: Window,
    pub error: Window,
    pub routes: Routes,
}

/// At most `count` requests per `window`.
#[derive(Clone, Copy, PartialEq, Eq, Structural, Debug)]
pub struct Window {
    pub count: u64,
    pub window: u64,
}

/// Windows of the individual route groups.
#[derive(Clone, Copy, PartialEq, Eq, Structural, Debug)]
pub struct Routes {
    pub guild: Window,
    pub webhook: Window,
    pub channel: Window,
    pub auth: AuthRoutes,
}

/// Windows of the authentication routes.
#[derive(Clone, Copy, PartialEq, Eq, Structural, Debug)]
pub struct AuthRoutes {
    pub login: Window,
    pub register: Window,
}

/// Absolute limits, each with a switch of its own.
#[allow(non_snake_case)]
#[derive(Clone, Copy, PartialEq, Eq, Structural, Debug)]
pub struct AbsoluteRate {
    pub register: AbsoluteWindow,
    pub sendMessage: AbsoluteWindow,
}

/// An absolute limit: at most `limit` per `window`, when `enabled`.
#[derive(Clone, Copy, PartialEq, Eq, Structural, Debug)]
pub struct AbsoluteWindow {
    pub limit: u64,
    pub window: u64,
    pub enabled: bool,
}

/// An instance's whole limits policy, as decoded from the server.
#[allow(non_snake_case)]
#[derive(Clone, Copy, PartialEq, Eq, Structural, Debug)]
pub struct Config {
    pub user: User,
    pub guild: Guild,
    pub message: Message,
    pub channel: Channel,
    pub rate: Rate,
    pub absoluteRate: AbsoluteRate,
}

/// The quota that enforces nothing.
pub open spec fn unlimited(t: LimitType) -> Limit {
    Limit { bucket: t, limit: UNLIMITED, remaining: UNLIMITED, reset: UNLIMITED }
}

/// A full quota taken from a route window.
pub open spec fn from_window(t: LimitType, w: Window) -> Limit {
    Limit { bucket: t, limit: w.count, remaining: w.count, reset: w.window }
}

/// A full quota taken from an absolute window, whatever its switch says.
pub open spec fn from_absolute(t: LimitType, w: AbsoluteWindow) -> Limit {
    Limit { bucket: t, limit: w.limit, remaining: w.limit, reset: w.window }
}

/// The initial quota of category `t` under policy `c`.
///
/// With rating switched off every category is unlimited; otherwise each takes
/// its own window. The two absolute switches then apply on their own: an
/// absolute limit that is switched off is unlimited whatever else holds.
pub open spec fn quota_for(c: Config, t: LimitType) -> Limit {
    match t {
        LimitType::AbsoluteMessage => if !c.rate.enabled || !c.absoluteRate.sendMessage.enabled {
            unlimited(t)
        } else {
            from_absolute(t, c.absoluteRate.sendMessage)
        },
        LimitType::AbsoluteRegister => if !c.rate.enabled || !c.absoluteRate.register.enabled {
            unlimited(t)
        } else {
            from_absolute(t, c.absoluteRate.register)
        },
        _ => if !c.rate.enabled {
            unlimited(t)
        } else {
            from_window(t, route_window(c.rate, t))
        },
    }
}

/// The route window that governs a non-absolute category.
pub open spec fn route_window(r: Rate, t: LimitType) -> Window {
    match t {
        LimitType::AuthLogin => r.routes.auth.login,
        LimitType::AuthRegister => r.routes.auth.register,
        LimitType::Guild => r.routes.guild,
        LimitType::Webhook => r.routes.webhook,
        LimitType::Channel => r.routes.channel,
        LimitType::Ip => r.ip,
        LimitType::Global => r.global,
        _ => r.error,
    }
}

/// The quota store: one record for each of the ten categories.
#[derive(Clone, Copy, PartialEq, Eq, Structural, Debug)]
pub struct Limits {
    pub limit_absolute_messages: Limit,
    pub limit_absolute_register: Limit,
    pub limit_auth_login: Limit,
    pub limit_auth_register: Limit,
    pub limit_ip: Limit,
    pub limit_global: Limit,
    pub limit_error: Limit,
    pub limit_guild: Limit,
    pub limit_webhook: Limit,
    pub limit_channel: Limit,
}

impl Limits {
    /// The record kept for category `t`.
    pub open spec fn entry(self, t: LimitType) -> Limit {
        match t {
            LimitType::AbsoluteMessage => self.limit_absolute_messages,
            LimitType::AbsoluteRegister => self.limit_absolute_register,
            LimitType::AuthLogin => self.limit_auth_login,
            LimitType::AuthRegister => self.limit_auth_register,
            LimitType::Ip => self.limit_ip,
            LimitType::Global => self.limit_global,
            LimitType::Error => self.limit_error,
            LimitType::Guild => self.limit_guild,
            LimitType::Webhook => self.limit_webhook,
            LimitType::Channel => self.limit_channel,
        }
    }

    /// Every record is filed under its own category.
    pub open spec fn wf(self) -> bool {
        forall|t: LimitType| #[trigger] self.entry(t).bucket == t
    }

    /// The records in the order in which `iter` lists them.
    pub open spec fn records(self) -> Seq<Limit> {
        seq![
            self.limit_absolute_messages,
            self.limit_absolute_register,
            self.limit_auth_login,
            self.limit_auth_register,
            self.limit_ip,
            self.limit_global,
            self.limit_error,
            self.limit_guild,
            self.limit_webhook,
            self.limit_channel,
        ]
    }
}


impl Limit {
    /// The record for category `t` that enforces nothing.
    pub fn unlimited(t: LimitType) -> (r: Limit)
        ensures
            r == unlimited(t),
    {
        Limit { bucket: t, limit: UNLIMITED, remaining: UNLIMITED, reset: UNLIMITED }
    }

    /// A full record for category `t` from a route window.
    pub fn from_window(t: LimitType, w: &Window) -> (r: Limit)
        ensures
            r == from_window(t, *w),
    {
        Limit { bucket: t, limit: w.count, remaining: w.count, reset: w.window }
    }

    /// The record for category `t` from an absolute window, unlimited when
    /// the window is switched off.
    pub fn from_absolute(t: LimitType, w: &AbsoluteWindow) -> (r: Limit)
        ensures
            r == if w.enabled { from_absolute(t, *w) } else { unlimited(t) },
    {
        if w.enabled {
            Limit { bucket: t, limit: w.limit, remaining: w.limit, reset: w.window }
        } else {
            Limit::unlimited(t)
        }
    }
}

impl Limits {
    /// Builds the initial store from a policy.
    pub fn from_config(config: &Config) -> (r: Limits)
        ensures
            r.wf(),
            forall|t: LimitType| #[trigger] r.entry(t) == quota_for(*config, t),
    {
        if !config.rate.enabled {
            Limits {
                limit_absolute_messages: Limit::unlimited(LimitType::AbsoluteMessage),
                limit_absolute_register: Limit::unlimited(LimitType::AbsoluteRegister),
                limit_auth_login: Limit::unlimited(LimitType::AuthLogin),
                limit_auth_register: Limit::unlimited(LimitType::AuthRegister),
                limit_ip: Limit::unlimited(LimitType::Ip),
                limit_global: Limit::unlimited(LimitType::Global),
                limit_error: Limit::unlimited(LimitType::Error),
                limit_guild: Limit::unlimited(LimitType::Guild),
                limit_webhook: Limit::unlimited(LimitType::Webhook),
                limit_channel: Limit::unlimited(LimitType::Channel),
            }
        } else {
            let rate = &config.rate;
            let absolute = &config.absoluteRate;
            Limits {
                limit_absolute_messages: Limit::from_absolute(
                    LimitType::AbsoluteMessage,
                    &absolute.sendMessage,
                ),
                limit_absolute_register: Limit::from_absolute(
                    LimitType::AbsoluteRegister,
                    &absolute.register,
                ),
                limit_auth_login: Limit::from_window(LimitType::AuthLogin, &rate.routes.auth.login),
                limit_auth_register: Limit::from_window(
                    LimitType::AuthRegister,
                    &rate.routes.auth.register,
                ),
                limit_ip: Limit::from_window(LimitType::Ip, &rate.ip),
                limit_global: Limit::from_window(LimitType::Global, &rate.global),
                limit_error: Limit::from_window(LimitType::Error, &rate.error),
                limit_guild: Limit::from_window(LimitType::Guild, &rate.routes.guild),
                limit_webhook: Limit::from_window(LimitType::Webhook, &rate.routes.webhook),
                limit_channel: Limit::from_window(LimitType::Channel, &rate.routes.channel),
            }
        }
    }

    /// The current record of category `t`.
    pub fn get(&self, t: LimitType) -> (r: Limit)
        ensures
            r == self.entry(t),
    {
        match t {
            LimitType::AbsoluteMessage => self.limit_absolute_messages,
            LimitType::AbsoluteRegister => self.limit_absolute_register,
            LimitType::AuthLogin => self.limit_auth_login,
            LimitType::AuthRegister => self.limit_auth_register,
            LimitType::Ip => self.limit_ip,
            LimitType::Global => self.limit_global,
            LimitType::Error => self.limit_error,
            LimitType::Guild => self.limit_guild,
            LimitType::Webhook => self.limit_webhook,
            LimitType::Channel => self.limit_channel,
        }
    }

    /// Replaces the record of category `t`; the new record is filed under
    /// `t` whatever category `limit` names.
    pub fn set(&mut self, t: LimitType, limit: Limit)
        ensures
            final(self).entry(t) == (Limit { bucket: t, ..limit }),
            forall|u: LimitType| u != t ==> #[trigger] final(self).entry(u) == old(self).entry(u),
            old(self).wf() ==> final(self).wf(),
    {
        let slot = self.slot(t);
        *slot = Limit { bucket: t, limit: limit.limit, remaining: limit.remaining, reset: limit.reset };
    }

    /// Adds a signed amount to the remaining quota of category `t`, with the
    /// saturation of [`Limit::add_remaining`]; nothing else changes.
    pub fn apply_delta(&mut self, t: LimitType, delta: i64)
        ensures
            final(self).entry(t) == (Limit {
                remaining: applied_delta(old(self).entry(t).remaining, delta),
                ..old(self).entry(t)
            }),
            forall|u: LimitType| u != t ==> #[trigger] final(self).entry(u) == old(self).entry(u),
            old(self).wf() ==> final(self).wf(),
    {
        let slot = self.slot(t);
        slot.add_remaining(delta);
    }

    /// Copies of all ten records.
    pub fn iter(&self) -> (r: Vec<Limit>)
        ensures
            r@ == self.records(),
    {
        let mut limits: Vec<Limit> = Vec::new();
        limits.push(self.limit_absolute_messages);
        limits.push(self.limit_absolute_register);
        limits.push(self.limit_auth_login);
        limits.push(self.limit_auth_register);
        limits.push(self.limit_ip);
        limits.push(self.limit_global);
        limits.push(self.limit_error);
        limits.push(self.limit_guild);
        limits.push(self.limit_webhook);
        limits.push(self.limit_channel);
        assert(limits@ =~= self.records());
        limits
    }

    /// A mutable handle on the record of category `t`.
    fn slot(&mut self, t: LimitType) -> (r: &mut Limit)
        ensures
            *r == old(self).entry(t),
            final(self).entry(t) == *final(r),
            forall|u: LimitType| u != t ==> #[trigger] final(self).entry(u) == old(self).entry(u),
    {
        match t {
            LimitType::AbsoluteMessage => &mut self.limit_absolute_messages,
            LimitType::AbsoluteRegister => &mut self.limit_absolute_register,
            LimitType::AuthLogin => &mut self.limit_auth_login,
            LimitType::AuthRegister => &mut self.limit_auth_register,
            LimitType::Ip => &mut self.limit_ip,
            LimitType::Global => &mut self.limit_global,
            LimitType::Error => &mut self.limit_error,
            LimitType::Guild => &mut self.limit_guild,
            LimitType::Webhook => &mut self.limit_webhook,
            LimitType::Channel => &mut self.limit_channel,
        }
    }
}


/// With rating switched off, every category of the built store is unlimited.
pub proof fn lemma_disabled_is_unlimited(c: Config)
    requires
        !c.rate.enabled,
    ensures
        forall|t: LimitType| #[trigger] quota_for(c, t) == unlimited(t),
{
}

/// With rating switched on, each category of the built store is a full
/// quota taken from its own window, unless it is an absolute limit whose
/// switch is off.
pub proof fn lemma_enabled_takes_windows(c: Config)
    requires
        c.rate.enabled,
    ensures
        quota_for(c, LimitType::Ip) == from_window(LimitType::Ip, c.rate.ip),
        quota_for(c, LimitType::Global) == from_window(LimitType::Global, c.rate.global),
        quota_for(c, LimitType::Error) == from_window(LimitType::Error, c.rate.error),
        quota_for(c, LimitType::Guild) == from_window(LimitType::Guild, c.rate.routes.guild),
        quota_for(c, LimitType::Webhook) == from_window(LimitType::Webhook, c.rate.routes.webhook),
        quota_for(c, LimitType::Channel) == from_window(LimitType::Channel, c.rate.routes.channel),
        quota_for(c, LimitType::AuthLogin) == from_window(
            LimitType::AuthLogin,
            c.rate.routes.auth.login,
        ),
        quota_for(c, LimitType::AuthRegister) == from_window(
            LimitType::AuthRegister,
            c.rate.routes.auth.register,
        ),
        c.absoluteRate.sendMessage.enabled ==> quota_for(c, LimitType::AbsoluteMessage)
            == from_absolute(LimitType::AbsoluteMessage, c.absoluteRate.sendMessage),
        c.absoluteRate.register.enabled ==> quota_for(c, LimitType::AbsoluteRegister)
            == from_absolute(LimitType::AbsoluteRegister, c.absoluteRate.register),
{
}

/// An absolute limit whose switch is off is unlimited in the built store,
/// whatever its window and whatever the global switch says.
pub proof fn lemma_absolute_switches(c: Config)
    ensures
        !c.absoluteRate.sendMessage.enabled ==> quota_for(c, LimitType::AbsoluteMessage)
            == unlimited(LimitType::AbsoluteMessage),
        !c.absoluteRate.register.enabled ==> quota_for(c, LimitType::AbsoluteRegister)
            == unlimited(LimitType::AbsoluteRegister),
{
}

/// A store that files each record under its own category lists exactly ten
/// records, one for each category.
pub proof fn lemma_records_complete(l: Limits)
    requires
        l.wf(),
    ensures
        l.records().len() == 10,
        forall|i: int, j: int|
            0 <= i < j < 10 ==> #[trigger] l.records()[i].bucket != #[trigger] l.records()[j].bucket,
        forall|t: LimitType| l.records().contains(#[trigger] l.entry(t)),
{
    let r = l.records();
    assert(l.entry(LimitType::AbsoluteMessage).bucket == LimitType::AbsoluteMessage);
    assert(r[0].bucket == LimitType::AbsoluteMessage);
    assert(l.entry(LimitType::AbsoluteRegister).bucket == LimitType::AbsoluteRegister);
    assert(r[1].bucket == LimitType::AbsoluteRegister);
    assert(l.entry(LimitType::AuthLogin).bucket == LimitType::AuthLogin);
    assert(r[2].bucket == LimitType::AuthLogin);
    assert(l.entry(LimitType::AuthRegister).bucket == LimitType::AuthRegister);
    assert(r[3].bucket == LimitType::AuthRegister);
    assert(l.entry(LimitType::Ip).bucket == LimitType::Ip);
    assert(r[4].bucket == LimitType::Ip);
    assert(l.entry(LimitType::Global).bucket == LimitType::Global);
    assert(r[5].bucket == LimitType::Global);
    assert(l.entry(LimitType::Error).bucket == LimitType::Error);
    assert(r[6].bucket == LimitType::Error);
    assert(l.entry(LimitType::Guild).bucket == LimitType::Guild);
    assert(r[7].bucket == LimitType::Guild);
    assert(l.entry(LimitType::Webhook).bucket == LimitType::Webhook);
    assert(r[8].bucket == LimitType::Webhook);
    assert(l.entry(LimitType::Channel).bucket == LimitType::Channel);
    assert(r[9].bucket == LimitType::Channel);
    assert forall|t: LimitType| r.contains(#[trigger] l.entry(t)) by {
        match t {
            LimitType::AbsoluteMessage => assert(r[0] == l.entry(t)),
            LimitType::AbsoluteRegister => assert(r[1] == l.entry(t)),
            LimitType::AuthLogin => assert(r[2] == l.entry(t)),
            LimitType::AuthRegister => assert(r[3] == l.entry(t)),
            LimitType::Ip => assert(r[4] == l.entry(t)),
            LimitType::Global => assert(r[5] == l.entry(t)),
            LimitType::Error => assert(r[6] == l.entry(t)),
            LimitType::Guild => assert(r[7] == l.entry(t)),
            LimitType::Webhook => assert(r[8] == l.entry(t)),
            LimitType::Channel => assert(r[9] == l.entry(t)),
        }
    }
}

/// Every store that `from_config` builds lists ten records, one for each
/// category.
pub proof fn lemma_built_store_complete(c: Config, l: Limits)
    requires
        forall|t: LimitType| #[trigger] l.entry(t) == quota_for(c, t),
    ensures
        l.wf(),
        l.records().len() == 10,
        forall|i: int, j: int|
            0 <= i < j < 10 ==> #[trigger] l.records()[i].bucket != #[trigger] l.records()[j].bucket,
        forall|t: LimitType| l.records().contains(#[trigger] l.entry(t)),
{
    assert forall|t: LimitType| #[trigger] l.entry(t).bucket == t by {
        assert(l.entry(t) == quota_for(c, t));
    }
    lemma_records_complete(l);
}

/// Building from equal policies gives equal stores.
pub proof fn lemma_build_deterministic(c1: Config, c2: Config, l1: Limits, l2: Limits)
    requires
        c1 == c2,
        forall|t: LimitType| #[trigger] l1.entry(t) == quota_for(c1, t),
        forall|t: LimitType| #[trigger] l2.entry(t) == quota_for(c2, t),
    ensures
        l1 == l2,
{
    assert(l1.entry(LimitType::AbsoluteMessage) == l2.entry(LimitType::AbsoluteMessage));
    assert(l1.entry(LimitType::AbsoluteRegister) == l2.entry(LimitType::AbsoluteRegister));
    assert(l1.entry(LimitType::AuthLogin) == l2.entry(LimitType::AuthLogin));
    assert(l1.entry(LimitType::AuthRegister) == l2.entry(LimitType::AuthRegister));
    assert(l1.entry(LimitType::Ip) == l2.entry(LimitType::Ip));
    assert(l1.entry(LimitType::Global) == l2.entry(LimitType::Global));
    assert(l1.entry(LimitType::Error) == l2.entry(LimitType::Error));
    assert(l1.entry(LimitType::Guild) == l2.entry(LimitType::Guild));
    assert(l1.entry(LimitType::Webhook) == l2.entry(LimitType::Webhook));
    assert(l1.entry(LimitType::Channel) == l2.entry(LimitType::Channel));
}

/// A negative delta leaves `max(0, remaining + delta)`, never less than zero.
pub proof fn lemma_negative_delta_saturates(remaining: u64, delta: i64)
    requires
        delta < 0,
    ensures
        applied_delta(remaining, delta) == if remaining + delta <= 0 {
            0
        } else {
            remaining + delta
        },
        applied_delta(remaining, delta) >= 0,
        applied_delta(0, delta) == 0,
{
}

} // verus!
