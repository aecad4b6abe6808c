//! Types shared by every channel: platforms, unified content kinds and media.

use vstd::prelude::*;

verus! {

/// Messaging platforms that channels connect to.
#[derive(Debug, Clone, Copy, PartialEq, Eq, Hash, Structural)]
pub enum PlatformType {
    Slack,
    Discord,
    Telegram,
    WhatsApp,
    Signal,
    Teams,
    Lark,
    DingTalk,
    WeChat,
    Matrix,
    Twitter,
    IMessage,
}

/// Platform-independent classification of message content.
#[derive(Debug, Clone, Copy, PartialEq, Eq, Hash, Structural)]
pub enum ContentType {
    Text,
    Image,
    File,
    Audio,
    Video,
    Sticker,
    Rich,
    Card,
    Location,
    Contact,
    System,
}

/// How a channel receives messages.
#[derive(Debug, Clone, Copy, PartialEq, Eq, Hash, Structural)]
pub enum ConnectionMode {
    WebSocket,
    Webhook,
    Polling,
}

/// Settings common to every channel.
#[derive(Debug, Clone)]
pub struct BaseChannelConfig {
    pub connection_mode: ConnectionMode,
    pub webhook_port: u16,
    pub auto_reconnect: bool,
    pub max_reconnect_attempts: u32,
}

impl BaseChannelConfig {
    /// The defaults: webhook mode on port 8080, reconnecting up to ten times.
    pub fn new() -> (c: Self)
        ensures
            c.connection_mode == ConnectionMode::Webhook,
            c.webhook_port == 8080,
            c.auto_reconnect,
            c.max_reconnect_attempts == 10,
    {
        BaseChannelConfig {
            connection_mode: ConnectionMode::Webhook,
            webhook_port: 8080,
            auto_reconnect: true,
            max_reconnect_attempts: 10,
        }
    }
}

impl Default for BaseChannelConfig {
    fn default() -> (c: Self)
        ensures
            c.connection_mode == ConnectionMode::Webhook,
            c.webhook_port == 8080,
            c.auto_reconnect,
            c.max_reconnect_attempts == 10,
    {
        BaseChannelConfig::new()
    }
}

/// The kinds of message a channel carries.
#[derive(Debug, Clone, Copy, PartialEq, Eq, Hash, Structural)]
pub enum MessageType {
    Text,
    Image,
    File,
    Voice,
    Video,
    Sticker,
    Location,
    System,
}

/// A media attachment in platform-independent form.
#[derive(Debug, Clone, PartialEq, Eq)]
pub struct MediaContent {
    pub url: String,
    pub mime_type: Option<String>,
    pub filename: Option<String>,
    pub size: Option<i64>,
    pub width: Option<i32>,
    pub height: Option<i32>,
    pub duration: Option<i32>,
    pub caption: Option<String>,
    pub thumbnail: Option<String>,
}

/// The text of an optional string, or the empty text when absent.
pub open spec fn opt_or_empty(o: Option<String>) -> Seq<char> {
    match o {
        Some(s) => s@,
        None => Seq::empty(),
    }
}

/// The view of an optional string.
pub open spec fn opt_view(o: Option<String>) -> Option<Seq<char>> {
    match o {
        Some(s) => Some(s@),
        None => None,
    }
}

/// The text of an optional string, or `default` when absent.
pub open spec fn text_or(o: Option<String>, default: Seq<char>) -> Seq<char> {
    match o {
        Some(s) => s@,
        None => default,
    }
}

/// Appends an optional string, or `default` when it is absent.
pub fn push_text_or(s: &mut String, o: &Option<String>, default: &str)
    ensures
        final(s)@ == old(s)@ + text_or(*o, default@),
{
    match o {
        Some(x) => crate::text::push_str(s, x.as_str()),
        None => crate::text::push_str(s, default),
    }
}

/// Appends an optional string, or nothing when it is absent.
pub fn push_opt(s: &mut String, o: &Option<String>)
    ensures
        final(s)@ == old(s)@ + opt_or_empty(*o),
{
    match o {
        Some(x) => crate::text::push_str(s, x.as_str()),
        None => {
            assert(old(s)@ + Seq::<char>::empty() =~= old(s)@);
        },
    }
}

/// A copy of an optional string.
pub fn clone_opt(o: &Option<String>) -> (r: Option<String>)
    ensures
        r == *o,
{
    match o {
        Some(s) => Some(s.clone()),
        None => None,
    }
}

/// The string held, or a new empty string when absent.
pub fn string_or_empty(o: &Option<String>) -> (r: String)
    ensures
        r@ == opt_or_empty(*o),
{
    match o {
        Some(s) => s.clone(),
        None => String::new(),
    }
}

} // verus!
