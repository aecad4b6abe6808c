//! Conversation sessions: per-user multi-turn context kept across
//! messages, with a bounded history and an inactivity timeout.

use vstd::prelude::*;

use crate::clock::{new_uuid, now_millis, uuid_string};
use crate::content::PlatformType;
use crate::error::{message_with, AgentError};
use crate::strmap::{has_key, inserted, lookup, position_of, removed, StrMap};
use crate::text::{push_str, to_owned_string, views};

verus! {

/// A message in a session. Times are milliseconds since the epoch.
#[derive(Debug)]
pub struct SessionMessage {
    pub id: String,
    /// `user`, `assistant` or `system`.
    pub role: String,
    pub content: String,
    pub has_image: bool,
    pub image_urls: Vec<String>,
    pub timestamp: i64,
}

/// A conversation with one user on one channel. Times are milliseconds
/// since the epoch.
#[derive(Debug)]
pub struct Session {
    pub id: String,
    pub platform: PlatformType,
    pub channel_id: String,
    pub user_id: String,
    pub created_at: i64,
    pub last_activity: i64,
    pub messages: Vec<SessionMessage>,
    pub metadata: StrMap<String>,
}

impl View for Session {
    type V = Session;

    open spec fn view(&self) -> Session {
        *self
    }
}

/// Session statistics.
#[derive(Debug, Clone, Copy, PartialEq, Eq, Structural)]
pub struct SessionStats {
    pub total_sessions: usize,
    pub total_messages: usize,
    pub active_users: usize,
}

/// Sessions by ID, and each user's current session by user key.
#[derive(Debug)]
pub struct SessionManager {
    sessions: StrMap<Session>,
    user_sessions: StrMap<String>,
    timeout_seconds: u64,
    max_history: usize,
}

/// Whether two messages hold the same values.
pub open spec fn same_message(a: SessionMessage, b: SessionMessage) -> bool {
    &&& a.id == b.id
    &&& a.role == b.role
    &&& a.content == b.content
    &&& a.has_image == b.has_image
    &&& a.image_urls@ == b.image_urls@
    &&& a.timestamp == b.timestamp
}

/// Whether two runs of messages hold the same values.
pub open spec fn same_messages(a: Seq<SessionMessage>, b: Seq<SessionMessage>) -> bool {
    a.len() == b.len() && forall|i: int| 0 <= i < a.len() ==> same_message(a[i], b[i])
}

/// Whether two sessions hold the same values.
pub open spec fn same_session(a: Session, b: Session) -> bool {
    &&& a.id == b.id
    &&& a.platform == b.platform
    &&& a.channel_id == b.channel_id
    &&& a.user_id == b.user_id
    &&& a.created_at == b.created_at
    &&& a.last_activity == b.last_activity
    &&& same_messages(a.messages@, b.messages@)
    &&& a.metadata@ == b.metadata@
}

/// Whole seconds from `last` to `now`, truncated toward zero.
pub open spec fn elapsed_secs(now: i64, last: i64) -> int {
    let d = now - last;
    if d >= 0 {
        d / 1000
    } else {
        -((-d) / 1000)
    }
}

/// Whether a session was active within the timeout.
pub open spec fn is_live(s: Session, now: i64, timeout_seconds: u64) -> bool {
    elapsed_secs(now, s.last_activity) < (timeout_seconds as i64)
}

/// Whether a session has been inactive for longer than the timeout.
pub open spec fn is_expired(s: Session, now: i64, timeout_seconds: u64) -> bool {
    elapsed_secs(now, s.last_activity) > (timeout_seconds as i64)
}

/// The name of a platform in user keys.
pub open spec fn platform_name(p: PlatformType) -> Seq<char> {
    match p {
        PlatformType::Slack => "slack"@,
        PlatformType::Discord => "discord"@,
        PlatformType::Telegram => "telegram"@,
        PlatformType::WhatsApp => "whatsapp"@,
        PlatformType::Signal => "signal"@,
        PlatformType::Teams => "teams"@,
        PlatformType::Lark => "lark"@,
        PlatformType::DingTalk => "dingtalk"@,
        PlatformType::WeChat => "wechat"@,
        PlatformType::Matrix => "matrix"@,
        PlatformType::Twitter => "twitter"@,
        PlatformType::IMessage => "imessage"@,
    }
}

/// The key under which a user's current session is recorded.
pub open spec fn user_key(p: PlatformType, channel_id: Seq<char>, user_id: Seq<char>) -> Seq<char> {
    platform_name(p) + ":"@ + channel_id + ":"@ + user_id
}

/// User keys tell users apart: on one platform, two keys are equal only
/// for the same channel and the same user (channel IDs holding no `:`, as
/// the separator would otherwise be ambiguous). So a user's sessions in two
/// channels are kept apart.
pub proof fn lemma_user_key_distinct(p: PlatformType, c1: Seq<char>, u1: Seq<char>, c2: Seq<char>, u2: Seq<char>)
    requires
        !c1.contains(':'),
        !c2.contains(':'),
        user_key(p, c1, u1) == user_key(p, c2, u2),
    ensures
        c1 == c2,
        u1 == u2,
{
    reveal_strlit(":");
    let pre = platform_name(p) + ":"@;
    let k1 = user_key(p, c1, u1);
    let k2 = user_key(p, c2, u2);
    let n = pre.len() as int;
    assert(k1 =~= pre + c1 + seq![':'] + u1);
    assert(k2 =~= pre + c2 + seq![':'] + u2);
    if c1.len() < c2.len() {
        assert(k1[n + c1.len()] == ':');
        assert(k2[n + c1.len()] == c2[c1.len() as int]);
        assert(c2.contains(c2[c1.len() as int]));
    }
    if c2.len() < c1.len() {
        assert(k2[n + c2.len()] == ':');
        assert(k1[n + c2.len()] == c1[c2.len() as int]);
        assert(c1.contains(c1[c2.len() as int]));
    }
    assert forall|i: int| 0 <= i < c1.len() implies c1[i] == c2[i] by {
        assert(k1[n + i] == c1[i]);
        assert(k2[n + i] == c2[i]);
    }
    assert(c1 =~= c2);
    let m = n + c1.len() + 1;
    assert forall|i: int| 0 <= i < u1.len() implies u1[i] == u2[i] by {
        assert(k1[m + i] == u1[i]);
        assert(k2[m + i] == u2[i]);
    }
    assert(u1 =~= u2);
}

/// The live session a user key leads to, if any.
pub open spec fn active_session(
    sessions: Seq<(Seq<char>, Session)>,
    users: Seq<(Seq<char>, Seq<char>)>,
    key: Seq<char>,
    now: i64,
    timeout_seconds: u64,
) -> Option<Session> {
    match lookup(users, key) {
        Some(sid) => match lookup(sessions, sid) {
            Some(s) => if is_live(s, now, timeout_seconds) {
                Some(s)
            } else {
                None
            },
            None => None,
        },
        None => None,
    }
}

/// Whether `s` is a new, empty session with the given identity.
pub open spec fn fresh_session(
    s: Session,
    id: Seq<char>,
    p: PlatformType,
    channel_id: Seq<char>,
    user_id: Seq<char>,
    now: i64,
) -> bool {
    &&& s.id@ == id
    &&& s.platform == p
    &&& s.channel_id@ == channel_id
    &&& s.user_id@ == user_id
    &&& s.created_at == now
    &&& s.last_activity == now
    &&& s.messages@.len() == 0
    &&& s.metadata@.len() == 0
}

/// The last `n` messages (all of them when there are fewer).
pub open spec fn last_n(ms: Seq<SessionMessage>, n: nat) -> Seq<SessionMessage> {
    if ms.len() > n {
        ms.subrange(ms.len() - n, ms.len() as int)
    } else {
        ms
    }
}

/// Whether `m` holds the given values.
pub open spec fn message_is(
    m: SessionMessage,
    id: Seq<char>,
    role: Seq<char>,
    content: Seq<char>,
    has_image: bool,
    image_urls: Seq<String>,
    timestamp: i64,
) -> bool {
    &&& m.id@ == id
    &&& m.role@ == role
    &&& m.content@ == content
    &&& m.has_image == has_image
    &&& m.image_urls@ == image_urls
    &&& m.timestamp == timestamp
}

/// The error for a session that does not exist.
pub open spec fn no_session(id: Seq<char>) -> Seq<char> {
    "会话不存在: "@ + id
}

/// Whether the sessions are unchanged except the one at position `i`.
pub open spec fn others_unchanged(a: Seq<(Seq<char>, Session)>, b: Seq<(Seq<char>, Session)>, i: int) -> bool {
    &&& a.len() == b.len()
    &&& b[i].0 == a[i].0
    &&& forall|j: int| 0 <= j < a.len() && j != i ==> b[j] == a[j]
}

fn clone_strings(v: &Vec<String>) -> (r: Vec<String>)
    ensures
        r@ == v@,
{
    let mut r: Vec<String> = Vec::new();
    let mut i: usize = 0;
    while i < v.len()
        invariant
            i <= v.len(),
            r@ == v@.subrange(0, i as int),
        decreases v.len() - i,
    {
        r.push(v[i].clone());
        assert(v@.subrange(0, i + 1) =~= v@.subrange(0, i as int).push(v@[i as int]));
        i = i + 1;
    }
    assert(v@.subrange(0, v.len() as int) =~= v@);
    r
}

fn clone_message(m: &SessionMessage) -> (r: SessionMessage)
    ensures
        same_message(r, *m),
{
    SessionMessage {
        id: m.id.clone(),
        role: m.role.clone(),
        content: m.content.clone(),
        has_image: m.has_image,
        image_urls: clone_strings(&m.image_urls),
        timestamp: m.timestamp,
    }
}

fn clone_messages(ms: &Vec<SessionMessage>, from: usize) -> (r: Vec<SessionMessage>)
    requires
        from <= ms@.len(),
    ensures
        same_messages(r@, ms@.subrange(from as int, ms@.len() as int)),
{
    let mut r: Vec<SessionMessage> = Vec::new();
    let mut i: usize = from;
    while i < ms.len()
        invariant
            from <= i <= ms.len(),
            same_messages(r@, ms@.subrange(from as int, i as int)),
        decreases ms.len() - i,
    {
        r.push(clone_message(&ms[i]));
        i = i + 1;
    }
    r
}

fn clone_session(s: &Session) -> (r: Session)
    ensures
        same_session(r, *s),
{
    let messages = clone_messages(&s.messages, 0);
    assert(s.messages@.subrange(0, s.messages@.len() as int) =~= s.messages@);
    Session {
        id: s.id.clone(),
        platform: s.platform,
        channel_id: s.channel_id.clone(),
        user_id: s.user_id.clone(),
        created_at: s.created_at,
        last_activity: s.last_activity,
        messages,
        metadata: s.metadata.clone_map(),
    }
}

fn platform_label(p: PlatformType) -> (s: &'static str)
    ensures
        s@ == platform_name(p),
{
    match p {
        PlatformType::Slack => "slack",
        PlatformType::Discord => "discord",
        PlatformType::Telegram => "telegram",
        PlatformType::WhatsApp => "whatsapp",
        PlatformType::Signal => "signal",
        PlatformType::Teams => "teams",
        PlatformType::Lark => "lark",
        PlatformType::DingTalk => "dingtalk",
        PlatformType::WeChat => "wechat",
        PlatformType::Matrix => "matrix",
        PlatformType::Twitter => "twitter",
        PlatformType::IMessage => "imessage",
    }
}

fn user_key_of(p: PlatformType, channel_id: &str, user_id: &str) -> (s: String)
    ensures
        s@ == user_key(p, channel_id@, user_id@),
{
    let mut s = to_owned_string(platform_label(p));
    push_str(&mut s, ":");
    push_str(&mut s, channel_id);
    push_str(&mut s, ":");
    push_str(&mut s, user_id);
    s
}

/// Whole seconds from `last` to `now`, truncated toward zero.
pub fn elapsed_seconds(now: i64, last: i64) -> (r: i64)
    ensures
        r == elapsed_secs(now, last),
{
    let d: i128 = now as i128 - last as i128;
    if d >= 0 {
        (d / 1000) as i64
    } else {
        let m: i128 = -d;
        let q: i128 = m / 1000;
        -(q as i64)
    }
}

/// The sessions that stay after removing those expired at `now`.
pub open spec fn kept(es: Seq<(Seq<char>, Session)>, now: i64, t: u64) -> Seq<(Seq<char>, Session)>
    decreases es.len(),
{
    if es.len() == 0 {
        es
    } else if is_expired(es.last().1, now, t) {
        kept(es.drop_last(), now, t)
    } else {
        kept(es.drop_last(), now, t).push(es.last())
    }
}

/// The user keys of the sessions expired at `now`, in order.
pub open spec fn expired_keys(es: Seq<(Seq<char>, Session)>, now: i64, t: u64) -> Seq<Seq<char>>
    decreases es.len(),
{
    if es.len() == 0 {
        Seq::empty()
    } else if is_expired(es.last().1, now, t) {
        let s = es.last().1;
        expired_keys(es.drop_last(), now, t).push(user_key(s.platform, s.channel_id@, s.user_id@))
    } else {
        expired_keys(es.drop_last(), now, t)
    }
}

/// The entries after removing each key in turn.
pub open spec fn remove_keys(es: Seq<(Seq<char>, Seq<char>)>, keys: Seq<Seq<char>>) -> Seq<(Seq<char>, Seq<char>)>
    decreases keys.len(),
{
    if keys.len() == 0 {
        es
    } else {
        removed(remove_keys(es, keys.drop_last()), keys.last())
    }
}

/// The distinct values of a sequence, in order of first appearance.
pub open spec fn distinct(s: Seq<Seq<char>>) -> Seq<Seq<char>>
    decreases s.len(),
{
    if s.len() == 0 {
        s
    } else if distinct(s.drop_last()).contains(s.last()) {
        distinct(s.drop_last())
    } else {
        distinct(s.drop_last()).push(s.last())
    }
}

/// The user IDs of the sessions, in order.
pub open spec fn session_users(es: Seq<(Seq<char>, Session)>) -> Seq<Seq<char>> {
    es.map_values(|e: (Seq<char>, Session)| e.1.user_id@)
}

/// `n`, or `usize::MAX` where `n` is larger.
pub open spec fn capped(n: int) -> int {
    if n <= usize::MAX { n } else { usize::MAX as int }
}

/// The number of messages over all sessions.
pub open spec fn message_total(es: Seq<(Seq<char>, Session)>) -> int
    decreases es.len(),
{
    if es.len() == 0 {
        0
    } else {
        message_total(es.drop_last()) + es.last().1.messages@.len()
    }
}

fn contains_str(v: &Vec<String>, x: &str) -> (b: bool)
    ensures
        b == views(v@).contains(x@),
{
    let mut i: usize = 0;
    while i < v.len()
        invariant
            i <= v.len(),
            forall|j: int| 0 <= j < i ==> v@[j]@ != x@,
        decreases v.len() - i,
    {
        if crate::text::str_eq(v[i].as_str(), x) {
            assert(views(v@)[i as int] == x@);
            return true;
        }
        i = i + 1;
    }
    assert(!views(v@).contains(x@)) by {
        if views(v@).contains(x@) {
            let k = choose|k: int| 0 <= k < v@.len() && #[trigger] views(v@)[k] == x@;
            assert(v@[k]@ == x@);
        }
    }
    false
}

/// What getting the session of the user with key `key` at `now` does to
/// the sessions and user index (`before`, `after`) and returns (`s`): the
/// user's session live at `now` (inactive for at most `timeout` seconds) is
/// returned as it is and nothing changes; otherwise a fresh session with ID
/// `new_id` is stored and becomes the user's current one.
pub open spec fn session_got(
    before: (Seq<(Seq<char>, Session)>, Seq<(Seq<char>, Seq<char>)>),
    after: (Seq<(Seq<char>, Session)>, Seq<(Seq<char>, Seq<char>)>),
    platform: PlatformType,
    channel_id: Seq<char>,
    user_id: Seq<char>,
    now: i64,
    timeout: u64,
    new_id: Seq<char>,
    s: Session,
) -> bool {
    let key = user_key(platform, channel_id, user_id);
    &&& active_session(before.0, before.1, key, now, timeout) matches Some(a) ==> (after == before && same_session(s, a))
    &&& active_session(before.0, before.1, key, now, timeout) is None ==> {
        &&& fresh_session(s, new_id, platform, channel_id, user_id, now)
        &&& lookup(after.0, new_id) matches Some(st)
        &&& same_session(st, s)
        &&& after.0 == inserted(before.0, new_id, st)
        &&& after.1 == inserted(before.1, key, new_id)
    }
}

impl View for SessionManager {
    /// The sessions by ID, and the current session ID of each user key.
    type V = (Seq<(Seq<char>, Session)>, Seq<(Seq<char>, Seq<char>)>);

    closed spec fn view(&self) -> (Seq<(Seq<char>, Session)>, Seq<(Seq<char>, Seq<char>)>) {
        (self.sessions@, self.user_sessions@)
    }
}

impl SessionManager {
    /// The inactivity timeout in seconds.
    pub closed spec fn timeout(&self) -> u64 {
        self.timeout_seconds
    }

    /// The most messages a session keeps.
    pub closed spec fn history_limit(&self) -> usize {
        self.max_history
    }

    /// A manager with no sessions.
    pub fn new(timeout_seconds: u64, max_history: usize) -> (m: Self)
        ensures
            m@.0.len() == 0,
            m@.1.len() == 0,
            m.timeout() == timeout_seconds,
            m.history_limit() == max_history,
    {
        SessionManager { sessions: StrMap::new(), user_sessions: StrMap::new(), timeout_seconds, max_history }
    }

    /// A manager with a 30-minute timeout and 100 messages of history.
    pub fn default() -> (m: Self)
        ensures
            m@.0.len() == 0,
            m@.1.len() == 0,
            m.timeout() == 1800,
            m.history_limit() == 100,
    {
        SessionManager::new(1800, 100)
    }

    /// The user's live session at time `now`, or a new one with ID
    /// `new_id` that becomes the user's current session.
    pub fn get_or_create_session_at(
        &mut self,
        platform: PlatformType,
        channel_id: &str,
        user_id: &str,
        now: i64,
        new_id: String,
    ) -> (s: Session)
        ensures
            final(self).timeout() == old(self).timeout(),
            final(self).history_limit() == old(self).history_limit(),
            active_session(old(self)@.0, old(self)@.1, user_key(platform, channel_id@, user_id@), now, old(self).timeout())
                matches Some(a) ==> (final(self)@ == old(self)@ && same_session(s, a)),
            active_session(old(self)@.0, old(self)@.1, user_key(platform, channel_id@, user_id@), now, old(self).timeout())
                is None ==> {
                &&& fresh_session(s, new_id@, platform, channel_id@, user_id@, now)
                &&& lookup(final(self)@.0, new_id@) matches Some(st)
                &&& same_session(st, s)
                &&& final(self)@.0 == inserted(old(self)@.0, new_id@, st)
                &&& final(self)@.1 == inserted(old(self)@.1, user_key(platform, channel_id@, user_id@), new_id@)
            },
    {
        let key = user_key_of(platform, channel_id, user_id);
        if let Some(sid) = self.user_sessions.get(key.as_str()) {
            if let Some(session) = self.sessions.get(sid.as_str()) {
                if elapsed_seconds(now, session.last_activity) < self.timeout_seconds as i64 {
                    return clone_session(session);
                }
            }
        }
        let session = Session {
            id: new_id.clone(),
            platform,
            channel_id: to_owned_string(channel_id),
            user_id: to_owned_string(user_id),
            created_at: now,
            last_activity: now,
            messages: Vec::new(),
            metadata: StrMap::new(),
        };
        let copy = clone_session(&session);
        let ghost st = session;
        self.sessions.insert(new_id.clone(), session);
        proof {
            crate::strmap::lemma_lookup_inserted(old(self)@.0, new_id@, st, new_id@);
        }
        self.user_sessions.insert(key, new_id);
        copy
    }

    /// The user's live session, or a new one with a fresh ID, at the
    /// current time: either nothing changes and the session returned is a
    /// copy of a stored one, or it is a new session for this user that is
    /// now stored under its ID.
    pub fn get_or_create_session(&mut self, platform: PlatformType, channel_id: &str, user_id: &str) -> (s:
        Session)
        ensures
            final(self).timeout() == old(self).timeout(),
            final(self).history_limit() == old(self).history_limit(),
            exists|now: i64, new_id: Seq<char>|
                #[trigger] session_got(
                    old(self)@,
                    final(self)@,
                    platform,
                    channel_id@,
                    user_id@,
                    now,
                    old(self).timeout(),
                    new_id,
                    s,
                ),
    {
        let now = now_millis();
        let id = uuid_string(new_uuid());
        let ghost idv = id@;
        let s = self.get_or_create_session_at(platform, channel_id, user_id, now, id);
        proof {
            assert(session_got(old(self)@, final(self)@, platform, channel_id@, user_id@, now, old(self).timeout(), idv, s));
        }
        s
    }

    /// Appends a message to a session at time `now`, keeping only the
    /// newest `history_limit()` messages; an unknown session is an error.
    pub fn add_message_at(
        &mut self,
        session_id: &str,
        role: &str,
        content: &str,
        has_image: bool,
        image_urls: Vec<String>,
        now: i64,
        message_id: String,
    ) -> (r: Result<(), AgentError>)
        ensures
            final(self).timeout() == old(self).timeout(),
            final(self).history_limit() == old(self).history_limit(),
            final(self)@.1 == old(self)@.1,
            r is Ok <==> has_key(old(self)@.0, session_id@),
            r matches Err(e) ==> final(self)@ == old(self)@ && e == AgentError::NotFound(e->NotFound_0)
                && e->NotFound_0@ == no_session(session_id@),
            r is Ok ==> ({
                let i = position_of(old(self)@.0, session_id@);
                let a = old(self)@.0[i].1;
                let b = final(self)@.0[i].1;
                &&& others_unchanged(old(self)@.0, final(self)@.0, i)
                &&& b.id == a.id && b.platform == a.platform && b.channel_id == a.channel_id
                &&& b.user_id == a.user_id && b.created_at == a.created_at && b.metadata == a.metadata
                &&& b.last_activity == now
                &&& exists|m: SessionMessage|
                    #[trigger] message_is(m, message_id@, role@, content@, has_image, image_urls@, now)
                        && b.messages@ == last_n(a.messages@.push(m), old(self).history_limit() as nat)
            }),
    {
        match self.sessions.index_of(session_id) {
            Some(i) => {
                proof {
                    crate::strmap::lemma_position_of(self@.0, session_id@);
                }
                let (k, mut s) = self.sessions.take_at(i);
                let ghost a = s;
                let m = SessionMessage {
                    id: message_id,
                    role: to_owned_string(role),
                    content: to_owned_string(content),
                    has_image,
                    image_urls,
                    timestamp: now,
                };
                let ghost mg = m;
                assert(message_is(mg, mg.id@, role@, content@, has_image, mg.image_urls@, now));
                s.messages.push(m);
                s.last_activity = now;
                if s.messages.len() > self.max_history {
                    let to_remove = s.messages.len() - self.max_history;
                    let rest = s.messages.split_off(to_remove);
                    s.messages = rest;
                }
                assert(s.messages@ == last_n(a.messages@.push(mg), self.max_history as nat));
                self.sessions.put_at(i, k, s);
                proof {
                    assert(self@.0 =~= old(self)@.0.remove(i as int).insert(i as int, (session_id@, s)));
                    assert(self@.0[i as int].1 == s);
                    assert(message_is(mg, message_id@, role@, content@, has_image, image_urls@, now));
                }
                Ok(())
            },
            None => Err(AgentError::NotFound(message_with("会话不存在: ", session_id))),
        }
    }

    /// Appends a message to a session, with a fresh message ID and the
    /// current time.
    pub fn add_message(
        &mut self,
        session_id: &str,
        role: &str,
        content: &str,
        has_image: bool,
        image_urls: Vec<String>,
    ) -> (r: Result<(), AgentError>)
        ensures
            final(self).timeout() == old(self).timeout(),
            final(self).history_limit() == old(self).history_limit(),
            final(self)@.1 == old(self)@.1,
            final(self)@.0.len() == old(self)@.0.len(),
            r is Ok <==> has_key(old(self)@.0, session_id@),
            r matches Err(e) ==> final(self)@ == old(self)@ && e == AgentError::NotFound(e->NotFound_0)
                && e->NotFound_0@ == no_session(session_id@),
            r is Ok ==> ({
                let i = position_of(old(self)@.0, session_id@);
                let a = old(self)@.0[i].1;
                let b = final(self)@.0[i].1;
                &&& others_unchanged(old(self)@.0, final(self)@.0, i)
                &&& b.id == a.id && b.platform == a.platform && b.channel_id == a.channel_id
                &&& b.user_id == a.user_id && b.created_at == a.created_at && b.metadata == a.metadata
                &&& exists|m: SessionMessage|
                    #[trigger] message_is(m, m.id@, role@, content@, has_image, image_urls@, b.last_activity)
                        && b.messages@ == last_n(a.messages@.push(m), old(self).history_limit() as nat)
            }),
    {
        let now = now_millis();
        let id = uuid_string(new_uuid());
        let ghost urls = image_urls@;
        let r = self.add_message_at(session_id, role, content, has_image, image_urls, now, id);
        proof {
            if r is Ok {
                let i = position_of(old(self)@.0, session_id@);
                let a = old(self)@.0[i].1;
                let b = final(self)@.0[i].1;
                let m = choose|m: SessionMessage|
                    #[trigger] message_is(m, id@, role@, content@, has_image, urls, now)
                        && b.messages@ == last_n(a.messages@.push(m), old(self).history_limit() as nat);
                assert(message_is(m, m.id@, role@, content@, has_image, urls, b.last_activity));
            }
        }
        r
    }

    /// The newest `limit` messages of a session (all of them when it has
    /// fewer), oldest first; an unknown session is an error.
    pub fn get_history_for_llm(&self, session_id: &str, limit: usize) -> (r: Result<Vec<SessionMessage>, AgentError>)
        ensures
            r is Ok <==> has_key(self@.0, session_id@),
            r matches Ok(v) ==> (lookup(self@.0, session_id@) matches Some(s) && same_messages(
                v@,
                last_n(s.messages@, limit as nat),
            )),
            r matches Err(e) ==> e == AgentError::NotFound(e->NotFound_0) && e->NotFound_0@ == no_session(
                session_id@,
            ),
    {
        match self.sessions.get(session_id) {
            Some(s) => {
                let n = s.messages.len();
                let start = if n > limit {
                    n - limit
                } else {
                    0
                };
                let v = clone_messages(&s.messages, start);
                assert(s.messages@.subrange(0, n as int) =~= s.messages@);
                Ok(v)
            },
            None => Err(AgentError::NotFound(message_with("会话不存在: ", session_id))),
        }
    }

    /// Sets a metadata entry of a session at time `now`; an unknown
    /// session is an error.
    pub fn update_metadata_at(&mut self, session_id: &str, key: &str, value: &str, now: i64) -> (r: Result<
        (),
        AgentError,
    >)
        ensures
            final(self).timeout() == old(self).timeout(),
            final(self).history_limit() == old(self).history_limit(),
            final(self)@.1 == old(self)@.1,
            r is Ok <==> has_key(old(self)@.0, session_id@),
            r matches Err(e) ==> final(self)@ == old(self)@ && e == AgentError::NotFound(e->NotFound_0)
                && e->NotFound_0@ == no_session(session_id@),
            r is Ok ==> ({
                let i = position_of(old(self)@.0, session_id@);
                let a = old(self)@.0[i].1;
                let b = final(self)@.0[i].1;
                &&& others_unchanged(old(self)@.0, final(self)@.0, i)
                &&& b.id == a.id && b.platform == a.platform && b.channel_id == a.channel_id
                &&& b.user_id == a.user_id && b.created_at == a.created_at && b.messages == a.messages
                &&& b.last_activity == now
                &&& b.metadata@ == inserted(a.metadata@, key@, value@)
            }),
    {
        match self.sessions.index_of(session_id) {
            Some(i) => {
                proof {
                    crate::strmap::lemma_position_of(self@.0, session_id@);
                }
                let (k, mut s) = self.sessions.take_at(i);
                s.metadata.insert(to_owned_string(key), to_owned_string(value));
                s.last_activity = now;
                self.sessions.put_at(i, k, s);
                proof {
                    assert(self@.0 =~= old(self)@.0.remove(i as int).insert(i as int, (session_id@, s)));
                }
                Ok(())
            },
            None => Err(AgentError::NotFound(message_with("会话不存在: ", session_id))),
        }
    }

    /// Sets a metadata entry of a session at the current time.
    pub fn update_metadata(&mut self, session_id: &str, key: &str, value: &str) -> (r: Result<(), AgentError>)
        ensures
            final(self).timeout() == old(self).timeout(),
            final(self).history_limit() == old(self).history_limit(),
            final(self)@.1 == old(self)@.1,
            r is Ok <==> has_key(old(self)@.0, session_id@),
            r matches Err(e) ==> final(self)@ == old(self)@ && e == AgentError::NotFound(e->NotFound_0)
                && e->NotFound_0@ == no_session(session_id@),
            r is Ok ==> ({
                let i = position_of(old(self)@.0, session_id@);
                let a = old(self)@.0[i].1;
                let b = final(self)@.0[i].1;
                &&& final(self)@.0.len() == old(self)@.0.len()
                &&& others_unchanged(old(self)@.0, final(self)@.0, i)
                &&& b.id == a.id && b.platform == a.platform && b.channel_id == a.channel_id
                &&& b.user_id == a.user_id && b.created_at == a.created_at && b.messages == a.messages
                &&& b.metadata@ == inserted(a.metadata@, key@, value@)
            }),
    {
        let now = now_millis();
        self.update_metadata_at(session_id, key, value, now)
    }

    /// Ends a session: it is removed, and so is its user's entry; an
    /// unknown session is an error.
    pub fn end_session(&mut self, session_id: &str) -> (r: Result<(), AgentError>)
        ensures
            final(self).timeout() == old(self).timeout(),
            final(self).history_limit() == old(self).history_limit(),
            r is Ok <==> has_key(old(self)@.0, session_id@),
            r matches Err(e) ==> final(self)@ == old(self)@ && e == AgentError::NotFound(e->NotFound_0)
                && e->NotFound_0@ == no_session(session_id@),
            r is Ok ==> (lookup(old(self)@.0, session_id@) matches Some(s) && final(self)@.0 == removed(
                old(self)@.0,
                session_id@,
            ) && final(self)@.1 == removed(old(self)@.1, user_key(s.platform, s.channel_id@, s.user_id@))),
    {
        let key = match self.sessions.get(session_id) {
            Some(s) => user_key_of(s.platform, s.channel_id.as_str(), s.user_id.as_str()),
            None => {
                return Err(AgentError::NotFound(message_with("会话不存在: ", session_id)));
            },
        };
        self.user_sessions.remove(key.as_str());
        self.sessions.remove(session_id);
        Ok(())
    }

    /// Removes the sessions inactive for longer than the timeout at time
    /// `now`, with their users' entries; returns how many were removed.
    pub fn cleanup_expired_at(&mut self, now: i64) -> (n: usize)
        ensures
            final(self).timeout() == old(self).timeout(),
            final(self).history_limit() == old(self).history_limit(),
            final(self)@.0 == kept(old(self)@.0, now, old(self).timeout()),
            final(self)@.1 == remove_keys(old(self)@.1, expired_keys(old(self)@.0, now, old(self).timeout())),
            n == expired_keys(old(self)@.0, now, old(self).timeout()).len(),
    {
        let ghost orig = self@.0;
        let ghost users = self@.1;
        let ghost t = self.timeout_seconds;
        let ghost mut j: int = 0;
        let total = self.sessions.len();
        let mut i: usize = 0;
        let mut n: usize = 0;
        while i < self.sessions.len()
            invariant
                0 <= j <= orig.len(),
                orig.len() == total,
                t == self.timeout_seconds,
                self.timeout_seconds == old(self).timeout_seconds,
                self.max_history == old(self).max_history,
                i == kept(orig.subrange(0, j), now, t).len(),
                n == expired_keys(orig.subrange(0, j), now, t).len(),
                self@.0 =~= kept(orig.subrange(0, j), now, t) + orig.subrange(j, orig.len() as int),
                self@.1 == remove_keys(users, expired_keys(orig.subrange(0, j), now, t)),
                n <= j,
            decreases self@.0.len() - i,
        {
            proof {
                assert(orig.subrange(0, j + 1).drop_last() =~= orig.subrange(0, j));
                assert(self@.0[i as int] == orig[j]);
            }
            let expired = {
                let s = self.sessions.value_at(i);
                elapsed_seconds(now, s.last_activity) > self.timeout_seconds as i64
            };
            if expired {
                let (_id, s) = self.sessions.take_at(i);
                let key = user_key_of(s.platform, s.channel_id.as_str(), s.user_id.as_str());
                let ghost prev_keys = expired_keys(orig.subrange(0, j), now, t);
                proof {
                    assert(s == orig[j].1);
                    assert(expired_keys(orig.subrange(0, j + 1), now, t) == prev_keys.push(key@));
                    assert(prev_keys.push(key@).drop_last() =~= prev_keys);
                }
                self.user_sessions.remove(key.as_str());
                n = n + 1;
                proof {
                    assert(self@.0 =~= kept(orig.subrange(0, j + 1), now, t) + orig.subrange(j + 1, orig.len() as int));
                    j = j + 1;
                }
            } else {
                proof {
                    assert(self@.0 =~= kept(orig.subrange(0, j + 1), now, t) + orig.subrange(j + 1, orig.len() as int));
                    j = j + 1;
                }
                i = i + 1;
            }
        }
        assert(orig.subrange(0, orig.len() as int) =~= orig);
        n
    }

    /// Removes the sessions expired at the current time; returns how many
    /// were removed.
    pub fn cleanup_expired(&mut self) -> (n: usize)
        ensures
            final(self).timeout() == old(self).timeout(),
            final(self).history_limit() == old(self).history_limit(),
            n <= old(self)@.0.len(),
            final(self)@.0.len() == old(self)@.0.len() - n,
            exists|now: i64|
                #![trigger kept(old(self)@.0, now, old(self).timeout())]
                final(self)@.0 == kept(old(self)@.0, now, old(self).timeout()) && final(self)@.1 == remove_keys(
                    old(self)@.1,
                    expired_keys(old(self)@.0, now, old(self).timeout()),
                ) && n == expired_keys(old(self)@.0, now, old(self).timeout()).len(),
    {
        let now = now_millis();
        let n = self.cleanup_expired_at(now);
        proof {
            lemma_kept_count(old(self)@.0, now, old(self).timeout());
            assert(final(self)@.0 == kept(old(self)@.0, now, old(self).timeout()));
        }
        n
    }

    /// The number of sessions, of messages over all sessions (at most
    /// `usize::MAX`), and of distinct users.
    pub fn get_stats(&self) -> (st: SessionStats)
        ensures
            st.total_sessions == self@.0.len(),
            st.total_messages == capped(message_total(self@.0)),
            st.active_users == distinct(session_users(self@.0)).len(),
    {
        let ghost es = self@.0;
        let mut total_messages: usize = 0;
        let mut users: Vec<String> = Vec::new();
        let mut i: usize = 0;
        while i < self.sessions.len()
            invariant
                es == self@.0,
                i <= es.len(),
                total_messages == capped(message_total(es.subrange(0, i as int))),
                views(users@) == distinct(session_users(es.subrange(0, i as int))),
            decreases es.len() - i,
        {
            let s = self.sessions.value_at(i);
            proof {
                assert(es.subrange(0, i + 1).drop_last() =~= es.subrange(0, i as int));
                assert(session_users(es.subrange(0, i + 1)).drop_last() =~= session_users(es.subrange(0, i as int)));
            }
            total_messages = total_messages.saturating_add(s.messages.len());
            if !contains_str(&users, s.user_id.as_str()) {
                let ghost before = users@;
                users.push(s.user_id.clone());
                assert(views(users@) =~= views(before).push(s.user_id@));
            }
            i = i + 1;
        }
        assert(es.subrange(0, es.len() as int) =~= es);
        proof {
            lemma_distinct_len(session_users(es));
        }
        SessionStats { total_sessions: self.sessions.len(), total_messages, active_users: users.len() }
    }
}

/// A session keeps at most `limit` messages, the newest ones: after a
/// message is added the history has at most `limit` messages, and unless
/// `limit` is zero the newest of them is the one just added.
pub proof fn lemma_history_bounded(ms: Seq<SessionMessage>, m: SessionMessage, limit: nat)
    requires
        ms.len() <= limit,
    ensures
        last_n(ms.push(m), limit).len() <= limit,
        limit > 0 ==> last_n(ms.push(m), limit).last() == m,
        last_n(ms.push(m), limit).len() == (if ms.len() < limit { ms.len() + 1 as int } else { limit as int }),
{
}

/// A session just created for a user is the one found again for that
/// user at the same moment, as long as the timeout is positive.
pub proof fn lemma_created_session_found(
    sessions: Seq<(Seq<char>, Session)>,
    users: Seq<(Seq<char>, Seq<char>)>,
    key: Seq<char>,
    id: Seq<char>,
    st: Session,
    now: i64,
    timeout_seconds: u64,
)
    requires
        (timeout_seconds as i64) > 0,
        st.last_activity == now,
    ensures
        active_session(inserted(sessions, id, st), inserted(users, key, id), key, now, timeout_seconds)
            == Some(st),
{
    crate::strmap::lemma_lookup_inserted(users, key, id, key);
    crate::strmap::lemma_lookup_inserted(sessions, id, st, id);
}

/// There are no more distinct values than values.
proof fn lemma_distinct_len(s: Seq<Seq<char>>)
    ensures
        distinct(s).len() <= s.len(),
    decreases s.len(),
{
    if s.len() > 0 {
        lemma_distinct_len(s.drop_last());
    }
}

/// Every session is either kept or expired.
proof fn lemma_kept_count(es: Seq<(Seq<char>, Session)>, now: i64, t: u64)
    ensures
        kept(es, now, t).len() + expired_keys(es, now, t).len() == es.len(),
    decreases es.len(),
{
    if es.len() > 0 {
        lemma_kept_count(es.drop_last(), now, t);
    }
}



} // verus!
