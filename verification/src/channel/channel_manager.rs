//! Channel management: the manager's settings, the router that picks a
//! channel for each platform, channel status and the health monitor.

use vstd::prelude::*;

use crate::content::PlatformType;
use crate::templates::{
    find_platform_entry, lemma_set_variant, pv, set_platform_entry, set_variant, variant_for, Message,
};
use crate::strmap::{inserted, lookup, StrMap};
use crate::text::to_owned_string;

verus! {

/// Channel manager settings.
#[derive(Debug, Clone)]
pub struct ChannelManagerConfig {
    /// Connect channels on startup.
    pub auto_connect: bool,
    /// Start listeners on connect.
    pub auto_listen: bool,
    /// Event channel buffer size.
    pub event_buffer_size: usize,
    /// Enable the template engine.
    pub enable_templates: bool,
    /// Directory to load templates from.
    pub template_directory: Option<String>,
}

impl Default for ChannelManagerConfig {
    fn default() -> (c: Self)
        ensures
            c.auto_connect,
            c.auto_listen,
            c.event_buffer_size == 1000,
            c.enable_templates,
            c.template_directory is None,
    {
        ChannelManagerConfig {
            auto_connect: true,
            auto_listen: true,
            event_buffer_size: 1000,
            enable_templates: true,
            template_directory: None,
        }
    }
}

/// Routes messages to channels: an explicit route per platform, and a
/// default channel per platform used where no route is registered.
#[derive(Debug)]
pub struct ChannelRouter {
    platform_routes: Vec<(PlatformType, String)>,
    default_channels: Vec<(PlatformType, String)>,
}

/// The channel chosen for a platform: its route, else its default.
pub open spec fn routed(
    routes: Seq<(PlatformType, Seq<char>)>,
    defaults: Seq<(PlatformType, Seq<char>)>,
    p: PlatformType,
) -> Option<Seq<char>> {
    match variant_for(routes, p) {
        Some(c) => Some(c),
        None => variant_for(defaults, p),
    }
}

impl View for ChannelRouter {
    /// The routes and the defaults.
    type V = (Seq<(PlatformType, Seq<char>)>, Seq<(PlatformType, Seq<char>)>);

    closed spec fn view(&self) -> (Seq<(PlatformType, Seq<char>)>, Seq<(PlatformType, Seq<char>)>) {
        (pv(self.platform_routes@), pv(self.default_channels@))
    }
}

impl ChannelRouter {
    /// A router with no routes and no defaults.
    pub fn new() -> (r: Self)
        ensures
            r@.0 == Seq::<(PlatformType, Seq<char>)>::empty(),
            r@.1 == Seq::<(PlatformType, Seq<char>)>::empty(),
    {
        let r = ChannelRouter { platform_routes: Vec::new(), default_channels: Vec::new() };
        assert(pv(r.platform_routes@) =~= Seq::<(PlatformType, Seq<char>)>::empty());
        assert(pv(r.default_channels@) =~= Seq::<(PlatformType, Seq<char>)>::empty());
        r
    }

    /// Routes a platform to a channel, replacing its earlier route.
    pub fn register_route(&mut self, platform: PlatformType, channel_id: &str)
        ensures
            final(self)@.0 == set_variant(old(self)@.0, platform, channel_id@),
            final(self)@.1 == old(self)@.1,
    {
        set_platform_entry(&mut self.platform_routes, platform, to_owned_string(channel_id));
    }

    /// Sets a platform's default channel, replacing its earlier default.
    pub fn set_default(&mut self, platform: PlatformType, channel_id: &str)
        ensures
            final(self)@.0 == old(self)@.0,
            final(self)@.1 == set_variant(old(self)@.1, platform, channel_id@),
    {
        set_platform_entry(&mut self.default_channels, platform, to_owned_string(channel_id));
    }

    /// The channel for a platform: its route if one is registered,
    /// otherwise its default, if any.
    pub fn get_channel(&self, platform: PlatformType) -> (r: Option<&String>)
        ensures
            r matches Some(c) ==> routed(self@.0, self@.1, platform) == Some(c@),
            r is None ==> routed(self@.0, self@.1, platform) is None,
    {
        match find_platform_entry(&self.platform_routes, platform) {
            Some(c) => Some(c),
            None => find_platform_entry(&self.default_channels, platform),
        }
    }

    /// The channel a message for a platform goes to.
    pub fn route(&self, platform: PlatformType, _message: &Message) -> (r: Option<&String>)
        ensures
            r matches Some(c) ==> routed(self@.0, self@.1, platform) == Some(c@),
            r is None ==> routed(self@.0, self@.1, platform) is None,
    {
        self.get_channel(platform)
    }
}

impl Default for ChannelRouter {
    fn default() -> (r: Self)
        ensures
            r@.0 == Seq::<(PlatformType, Seq<char>)>::empty(),
            r@.1 == Seq::<(PlatformType, Seq<char>)>::empty(),
    {
        ChannelRouter::new()
    }
}

/// A registered route wins over any default for its platform, and leaves
/// the choice for every other platform as it was.
pub proof fn lemma_route_after_register(
    routes: Seq<(PlatformType, Seq<char>)>,
    defaults: Seq<(PlatformType, Seq<char>)>,
    p: PlatformType,
    channel: Seq<char>,
    q: PlatformType,
)
    ensures
        routed(set_variant(routes, p, channel), defaults, p) == Some(channel),
        q != p ==> routed(set_variant(routes, p, channel), defaults, q) == routed(routes, defaults, q),
{
    lemma_set_variant(routes, p, channel, p);
    lemma_set_variant(routes, p, channel, q);
}

/// A default applies to a platform exactly where no route is registered
/// for it.
pub proof fn lemma_default_after_set(
    routes: Seq<(PlatformType, Seq<char>)>,
    defaults: Seq<(PlatformType, Seq<char>)>,
    p: PlatformType,
    channel: Seq<char>,
)
    ensures
        variant_for(routes, p) is None ==> routed(routes, set_variant(defaults, p, channel), p) == Some(
            channel,
        ),
        variant_for(routes, p) is Some ==> routed(routes, set_variant(defaults, p, channel), p) == routed(
            routes,
            defaults,
            p,
        ),
{
    lemma_set_variant(defaults, p, channel, p);
}

/// The state of a registered channel. Times are milliseconds since the
/// epoch.
#[derive(Debug, Clone)]
pub struct ChannelStatus {
    pub id: String,
    pub platform: PlatformType,
    pub connected: bool,
    pub listening: bool,
    pub messages_received: u64,
    pub messages_sent: u64,
    pub error_count: u64,
    pub last_error: Option<String>,
    pub last_activity: Option<i64>,
}

/// How a channel's health changed with a status report.
#[derive(Debug, Clone, Copy, PartialEq, Eq, Structural)]
pub enum HealthChange {
    BecameUnhealthy,
    BecameHealthy,
    Unchanged,
}

/// Tracks which channels are healthy: connected, with fewer errors than
/// the limit. A channel not yet reported on counts as healthy.
#[derive(Debug)]
pub struct ChannelHealthMonitor {
    check_interval_ms: u64,
    max_errors: u64,
    health_status: StrMap<bool>,
}

impl View for ChannelHealthMonitor {
    type V = (u64, u64, Seq<(Seq<char>, bool)>);

    closed spec fn view(&self) -> (u64, u64, Seq<(Seq<char>, bool)>) {
        (self.check_interval_ms, self.max_errors, self.health_status@)
    }
}

/// Whether a channel with status `s` is healthy under an error limit.
pub open spec fn healthy_status(s: ChannelStatus, max_errors: u64) -> bool {
    s.error_count < max_errors && s.connected
}

/// The recorded health of a channel, healthy when never reported.
pub open spec fn recorded_health(health: Seq<(Seq<char>, bool)>, id: Seq<char>) -> bool {
    match lookup(health, id) {
        Some(h) => h,
        None => true,
    }
}

impl ChannelHealthMonitor {
    /// A monitor checking every `check_interval_ms` milliseconds, with no
    /// reports yet.
    pub fn new(check_interval_ms: u64, max_errors: u64) -> (m: Self)
        ensures
            m@ == (check_interval_ms, max_errors, Seq::<(Seq<char>, bool)>::empty()),
    {
        ChannelHealthMonitor { check_interval_ms, max_errors, health_status: StrMap::new() }
    }

    /// How often the monitor checks, in milliseconds.
    pub fn check_interval_ms(&self) -> (t: u64)
        ensures
            t == self@.0,
    {
        self.check_interval_ms
    }

    /// Records a channel's health from its status and says how it changed.
    pub fn observe(&mut self, status: &ChannelStatus) -> (c: HealthChange)
        ensures
            final(self)@.0 == old(self)@.0,
            final(self)@.1 == old(self)@.1,
            final(self)@.2 == inserted(old(self)@.2, status.id@, healthy_status(*status, old(self)@.1)),
            c == (if recorded_health(old(self)@.2, status.id@) && !healthy_status(*status, old(self)@.1) {
                HealthChange::BecameUnhealthy
            } else if !recorded_health(old(self)@.2, status.id@) && healthy_status(*status, old(self)@.1) {
                HealthChange::BecameHealthy
            } else {
                HealthChange::Unchanged
            }),
    {
        let healthy = status.error_count < self.max_errors && status.connected;
        let was_healthy = match self.health_status.get(status.id.as_str()) {
            Some(h) => *h,
            None => true,
        };
        self.health_status.insert(status.id.clone(), healthy);
        if was_healthy && !healthy {
            HealthChange::BecameUnhealthy
        } else if !was_healthy && healthy {
            HealthChange::BecameHealthy
        } else {
            HealthChange::Unchanged
        }
    }

    /// Whether a channel is healthy (a channel never reported is).
    pub fn is_healthy(&self, channel_id: &str) -> (b: bool)
        ensures
            b == recorded_health(self@.2, channel_id@),
    {
        match self.health_status.get(channel_id) {
            Some(h) => *h,
            None => true,
        }
    }

    /// The channels last reported unhealthy, in the order first reported.
    pub fn get_unhealthy_channels(&self) -> (v: Vec<String>)
        ensures
            v@.map_values(|s: String| s@) == self@.2.filter(|e: (Seq<char>, bool)| !e.1).map_values(
                |e: (Seq<char>, bool)| e.0,
            ),
    {
        let ghost all = self@.2;
        let ghost p = |e: (Seq<char>, bool)| !e.1;
        let mut v: Vec<String> = Vec::new();
        let mut i: usize = 0;
        while i < self.health_status.len()
            invariant
                i <= all.len(),
                all == self@.2,
                p == (|e: (Seq<char>, bool)| !e.1),
                v@.map_values(|s: String| s@) == all.subrange(0, i as int).filter(p).map_values(
                    |e: (Seq<char>, bool)| e.0,
                ),
            decreases all.len() - i,
        {
            proof {
                reveal(Seq::filter);
                assert(all.subrange(0, i + 1).drop_last() =~= all.subrange(0, i as int));
            }
            let ghost before = v@;
            if !*self.health_status.value_at(i) {
                v.push(self.health_status.key_at(i).clone());
                assert(all.subrange(0, i + 1).filter(p) == all.subrange(0, i as int).filter(p).push(all[i as int]));
                assert(v@.map_values(|s: String| s@) =~= before.map_values(|s: String| s@).push(all[i as int].0));
            }
            i = i + 1;
        }
        assert(all.subrange(0, all.len() as int) =~= all);
        v
    }
}

} // verus!
