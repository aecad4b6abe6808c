//! BlueBubbles (iMessage) channel: server configuration and its URLs, the
//! message and event shapes, tapbacks, and the reconnect decision.

use vstd::prelude::*;

use crate::content::{BaseChannelConfig, ConnectionMode};
use crate::channel::signal_cli::text_or_default;
use crate::error::AgentError;
use crate::numtext::{lemma_uint_text_nonneg, parse_u16, parse_u64, uint_text};
use crate::text::{decimal, join_seq, join_strings, push_decimal, push_signed_decimal, push_str, signed_decimal, str_eq, to_owned_string, views};

verus! {

/// BlueBubbles server configuration.
#[derive(Debug, Clone)]
pub struct BlueBubblesConfig {
    /// Server host.
    pub host: String,
    /// Server port.
    pub port: u16,
    /// API key, where the server asks for one.
    pub api_key: Option<String>,
    /// Password, where the server asks for one.
    pub password: Option<String>,
    /// WebSocket path.
    pub ws_path: String,
    /// REST API path prefix.
    pub api_prefix: String,
    /// Whether to use HTTPS and WSS.
    pub use_tls: bool,
    /// Seconds between reconnect attempts.
    pub reconnect_interval_secs: u64,
    /// Request timeout in seconds.
    pub request_timeout_secs: u64,
    /// Settings common to all channels.
    pub base: BaseChannelConfig,
}

/// The REST base URL of a configuration.
pub open spec fn base_url_of(c: BlueBubblesConfig) -> Seq<char> {
    (if c.use_tls { "https"@ } else { "http"@ }) + "://"@ + c.host@ + ":"@ + decimal(c.port as nat)
}

/// The WebSocket URL of a configuration.
pub open spec fn ws_url_of(c: BlueBubblesConfig) -> Seq<char> {
    (if c.use_tls { "wss"@ } else { "ws"@ }) + "://"@ + c.host@ + ":"@ + decimal(c.port as nat) + c.ws_path@
}

impl Default for BlueBubblesConfig {
    /// `mac-mini.local:12345`, `/ws`, `/api/v1`, no TLS, reconnecting every
    /// 5 seconds, 30-second requests, over a WebSocket.
    fn default() -> (c: Self)
        ensures
            c.host@ == "mac-mini.local"@,
            c.port == 12345,
            c.api_key is None,
            c.password is None,
            c.ws_path@ == "/ws"@,
            c.api_prefix@ == "/api/v1"@,
            !c.use_tls,
            c.reconnect_interval_secs == 5,
            c.request_timeout_secs == 30,
            c.base.connection_mode == ConnectionMode::WebSocket,
            c.base.webhook_port == 8080,
            c.base.auto_reconnect,
            c.base.max_reconnect_attempts == 10,
    {
        let mut base = BaseChannelConfig::new();
        base.connection_mode = ConnectionMode::WebSocket;
        BlueBubblesConfig {
            host: to_owned_string("mac-mini.local"),
            port: 12345,
            api_key: None,
            password: None,
            ws_path: to_owned_string("/ws"),
            api_prefix: to_owned_string("/api/v1"),
            use_tls: false,
            reconnect_interval_secs: 5,
            request_timeout_secs: 30,
            base,
        }
    }
}

impl BlueBubblesConfig {
    /// The base URL of the REST API: scheme, host and port.
    pub fn base_url(&self) -> (s: String)
        ensures
            s@ == base_url_of(*self),
    {
        let mut s = if self.use_tls {
            to_owned_string("https")
        } else {
            to_owned_string("http")
        };
        push_str(&mut s, "://");
        push_str(&mut s, self.host.as_str());
        push_str(&mut s, ":");
        push_decimal(&mut s, self.port as u64);
        s
    }

    /// The WebSocket URL: scheme, host, port and path.
    pub fn ws_url(&self) -> (s: String)
        ensures
            s@ == ws_url_of(*self),
    {
        let mut s = if self.use_tls {
            to_owned_string("wss")
        } else {
            to_owned_string("ws")
        };
        push_str(&mut s, "://");
        push_str(&mut s, self.host.as_str());
        push_str(&mut s, ":");
        push_decimal(&mut s, self.port as u64);
        push_str(&mut s, self.ws_path.as_str());
        s
    }
}

/// Connection state.
#[derive(Debug, Clone, Copy, PartialEq, Eq, Structural)]
pub enum ConnectionState {
    Disconnected,
    Connecting,
    Connected,
    Reconnecting,
}

/// A BlueBubbles message.
#[derive(Debug, Clone)]
pub struct BlueBubblesMessage {
    pub guid: String,
    pub chat_guid: String,
    pub handle: Option<String>,
    pub display_name: Option<String>,
    pub text: Option<String>,
    pub date: i64,
    pub is_from_me: bool,
    pub is_delivered: bool,
    pub is_read: bool,
    pub attachments: Vec<BlueBubblesAttachment>,
    pub associated_message_guid: Option<String>,
    pub associated_message_type: Option<i32>,
    pub thread_originator_guid: Option<String>,
    pub thread_originator_part: Option<String>,
    pub balloon_bundle_id: Option<String>,
    pub expressive_send_style_id: Option<String>,
    pub tapback: Option<BlueBubblesTapback>,
}

/// A message attachment.
#[derive(Debug, Clone)]
pub struct BlueBubblesAttachment {
    pub guid: String,
    pub transfer_name: Option<String>,
    pub mime_type: Option<String>,
    pub total_bytes: Option<i64>,
    pub file_path: Option<String>,
    pub width: Option<i32>,
    pub height: Option<i32>,
    pub duration: Option<i32>,
}

/// A tapback (reaction) on a message.
#[derive(Debug, Clone)]
pub struct BlueBubblesTapback {
    pub tapback_type: i32,
    pub handle: String,
    pub associated_message_guid: String,
}

/// Tapback types, numbered 0 to 5 in this order.
#[derive(Debug, Clone, Copy, PartialEq, Eq, Structural)]
pub enum TapbackType {
    Love,
    Like,
    Dislike,
    Laugh,
    Emphasis,
    Question,
}

/// The number of a tapback type.
pub open spec fn tapback_number(t: TapbackType) -> i32 {
    match t {
        TapbackType::Love => 0,
        TapbackType::Like => 1,
        TapbackType::Dislike => 2,
        TapbackType::Laugh => 3,
        TapbackType::Emphasis => 4,
        TapbackType::Question => 5,
    }
}

/// The emoji shown for a tapback type.
pub open spec fn tapback_emoji(t: TapbackType) -> Seq<char> {
    match t {
        TapbackType::Love => "❤️"@,
        TapbackType::Like => "👍"@,
        TapbackType::Dislike => "👎"@,
        TapbackType::Laugh => "😂"@,
        TapbackType::Emphasis => "‼️"@,
        TapbackType::Question => "❓"@,
    }
}

impl TapbackType {
    /// The tapback type with the given number, if any.
    pub fn from_i32(value: i32) -> (r: Option<Self>)
        ensures
            r matches Some(t) ==> tapback_number(t) == value,
            r is None <==> !(0 <= value <= 5),
    {
        match value {
            0 => Some(TapbackType::Love),
            1 => Some(TapbackType::Like),
            2 => Some(TapbackType::Dislike),
            3 => Some(TapbackType::Laugh),
            4 => Some(TapbackType::Emphasis),
            5 => Some(TapbackType::Question),
            _ => None,
        }
    }

    /// The number of this tapback type.
    pub fn as_i32(&self) -> (n: i32)
        ensures
            n == tapback_number(*self),
    {
        match self {
            TapbackType::Love => 0,
            TapbackType::Like => 1,
            TapbackType::Dislike => 2,
            TapbackType::Laugh => 3,
            TapbackType::Emphasis => 4,
            TapbackType::Question => 5,
        }
    }

    /// The emoji for this tapback type.
    pub fn to_emoji(&self) -> (s: &'static str)
        ensures
            s@ == tapback_emoji(*self),
    {
        match self {
            TapbackType::Love => "❤️",
            TapbackType::Like => "👍",
            TapbackType::Dislike => "👎",
            TapbackType::Laugh => "😂",
            TapbackType::Emphasis => "‼️",
            TapbackType::Question => "❓",
        }
    }
}

/// Each tapback type's number leads back to it, and distinct types have
/// distinct numbers.
pub proof fn lemma_tapback_round_trip(t: TapbackType, u: TapbackType)
    ensures
        0 <= tapback_number(t) <= 5,
        tapback_number(t) == tapback_number(u) ==> t == u,
{
}

/// A chat.
#[derive(Debug, Clone)]
pub struct BlueBubblesChat {
    pub guid: String,
    pub display_name: Option<String>,
    pub participants: Vec<String>,
    pub is_group: bool,
    pub last_message_text: Option<String>,
    pub last_message_date: Option<i64>,
}

/// A handle (contact): a phone number or an email address.
#[derive(Debug, Clone)]
pub struct BlueBubblesHandle {
    pub address: String,
    pub service: String,
    pub country: Option<String>,
}

/// Events pushed over the WebSocket.
#[derive(Debug, Clone)]
pub enum BlueBubblesEvent {
    NewMessage { message: BlueBubblesMessage },
    MessageUpdated { message: BlueBubblesMessage },
    MessageDeleted { guid: String },
    ParticipantRemoved { chat_guid: String, handle: String },
    ParticipantAdded { chat_guid: String, handle: String },
    ChatReadStatusChanged { chat_guid: String, is_read: bool },
    TypingIndicator { chat_guid: String, display_name: String, is_typing: bool },
    Connected,
    Disconnected,
    Error { message: String },
}

/// Request to send a message.
#[derive(Debug, Clone)]
pub struct SendMessageRequest {
    pub chat_guid: String,
    pub message: String,
    pub temp_guid: Option<String>,
    pub method: Option<String>,
    pub subject: Option<String>,
    pub effect_id: Option<String>,
    pub selected_message_guid: Option<String>,
    pub part_index: Option<i32>,
}

/// Request to send a tapback.
#[derive(Debug, Clone)]
pub struct SendTapbackRequest {
    pub chat_guid: String,
    pub message_guid: String,
    pub tapback: i32,
}

/// Request to show or hide the typing indicator.
#[derive(Debug, Clone)]
pub struct TypingIndicatorRequest {
    pub chat_guid: String,
    pub typing: bool,
}

/// The server's response envelope.
#[derive(Debug, Clone)]
pub struct ApiResponse<T> {
    pub status: String,
    pub message: Option<String>,
    pub data: Option<T>,
}

/// What the WebSocket loop does after a connection ends or fails.
#[derive(Debug, Clone, Copy, PartialEq, Eq, Structural)]
pub enum ReconnectDecision {
    /// Stop, leaving the client disconnected.
    GiveUp,
    /// Wait `delay_secs` seconds, then make attempt number `attempt`.
    Retry { attempt: u32, delay_secs: u64 },
}

/// The decision after `attempts` failed reconnect attempts: give up when a
/// limit is set (non-zero) and reached, otherwise retry after the
/// configured interval.
pub open spec fn reconnect_decision(max_attempts: u32, attempts: u32, interval_secs: u64) -> ReconnectDecision {
    if max_attempts > 0 && attempts >= max_attempts {
        ReconnectDecision::GiveUp
    } else {
        ReconnectDecision::Retry { attempt: (attempts + 1) as u32, delay_secs: interval_secs }
    }
}

impl BlueBubblesConfig {
    /// What to do after `attempts` reconnect attempts since the last
    /// successful connection. Without a limit the count must leave room for
    /// one more attempt.
    pub fn after_disconnect(&self, attempts: u32) -> (d: ReconnectDecision)
        requires
            self.base.max_reconnect_attempts == 0 ==> attempts < u32::MAX,
        ensures
            d == reconnect_decision(self.base.max_reconnect_attempts, attempts, self.reconnect_interval_secs),
    {
        let max = self.base.max_reconnect_attempts;
        if max > 0 && attempts >= max {
            ReconnectDecision::GiveUp
        } else {
            ReconnectDecision::Retry { attempt: attempts + 1, delay_secs: self.reconnect_interval_secs }
        }
    }
}

/// With a limit set, the attempt count never passes it: every retry
/// names an attempt within the limit.
pub proof fn lemma_reconnect_bounded(max_attempts: u32, attempts: u32, interval_secs: u64)
    requires
        max_attempts > 0,
    ensures
        reconnect_decision(max_attempts, attempts, interval_secs) matches ReconnectDecision::Retry {
            attempt,
            ..
        } ==> attempt <= max_attempts && attempt == attempts + 1,
{
}

/// `url` with the query parameters `params` joined by `&` after a `?`;
/// `url` alone when there are none.
pub open spec fn with_query(url: Seq<char>, params: Seq<Seq<char>>) -> Seq<char> {
    if params.len() == 0 {
        url
    } else {
        url + "?"@ + join_seq(params, "&"@)
    }
}

/// The parameter `name=value` for a number that is present.
pub open spec fn number_param(name: Seq<char>, value: Option<int>) -> Seq<Seq<char>> {
    match value {
        Some(v) => seq![name + "="@ + signed_decimal(v)],
        None => Seq::empty(),
    }
}

/// The view of an optional `i32` as an optional integer.
pub open spec fn opt_i32(v: Option<i32>) -> Option<int> {
    match v {
        Some(x) => Some(x as int),
        None => None,
    }
}

/// The view of an optional `i64` as an optional integer.
pub open spec fn opt_i64(v: Option<i64>) -> Option<int> {
    match v {
        Some(x) => Some(x as int),
        None => None,
    }
}

/// Appends `name=value` to the parameters where the number is present.
fn push_number_param(params: &mut Vec<String>, name: &str, value: Option<i64>)
    ensures
        views(final(params)@) == views(old(params)@) + number_param(name@, opt_i64(value)),
{
    if let Some(v) = value {
        let mut p = to_owned_string(name);
        push_str(&mut p, "=");
        push_signed_decimal(&mut p, v);
        let ghost before = params@;
        params.push(p);
        assert(views(params@) =~= views(before) + number_param(name@, opt_i64(value)));
    } else {
        assert(views(params@) =~= views(old(params)@) + number_param(name@, opt_i64(value)));
    }
}

/// `url` with the query parameters appended.
fn add_query(url: String, params: &Vec<String>) -> (s: String)
    ensures
        s@ == with_query(url@, views(params@)),
{
    if params.len() == 0 {
        url
    } else {
        let mut s = url;
        push_str(&mut s, "?");
        let q = join_strings(params, "&");
        push_str(&mut s, q.as_str());
        s
    }
}

/// The outcome of an API call from its response: the data where there is
/// some, otherwise a platform error with the server's message ("Unknown
/// error" where it gave none).
pub fn api_result<T>(response: ApiResponse<T>) -> (r: Result<T, AgentError>)
    ensures
        response.data matches Some(d) ==> r == Ok::<T, AgentError>(d),
        response.data is None ==> (r matches Err(AgentError::Platform(m)) && m@ == (match response.message {
            Some(t) => t@,
            None => "Unknown error"@,
        })),
{
    match response.data {
        Some(d) => Ok(d),
        None => Err(AgentError::Platform(match response.message {
            Some(m) => m,
            None => to_owned_string("Unknown error"),
        })),
    }
}

impl BlueBubblesConfig {
    /// The URL for sending a text message.
    pub fn message_url(&self) -> (s: String)
        ensures
            s@ == base_url_of(*self) + "/message"@,
    {
        let mut s = self.base_url();
        push_str(&mut s, "/message");
        s
    }

    /// The URL for sending a message with an attachment.
    pub fn attachment_message_url(&self) -> (s: String)
        ensures
            s@ == base_url_of(*self) + "/message/attachment"@,
    {
        let mut s = self.base_url();
        push_str(&mut s, "/message/attachment");
        s
    }

    /// The URL for reacting to a message.
    pub fn tapback_url(&self, message_guid: &str) -> (s: String)
        ensures
            s@ == base_url_of(*self) + "/message/"@ + message_guid@ + "/tapback"@,
    {
        let mut s = self.base_url();
        push_str(&mut s, "/message/");
        push_str(&mut s, message_guid);
        push_str(&mut s, "/tapback");
        s
    }

    /// The URL for the typing indicator of a chat.
    pub fn typing_url(&self, chat_guid: &str) -> (s: String)
        ensures
            s@ == base_url_of(*self) + "/chat/"@ + chat_guid@ + "/typing"@,
    {
        let mut s = self.base_url();
        push_str(&mut s, "/chat/");
        push_str(&mut s, chat_guid);
        push_str(&mut s, "/typing");
        s
    }

    /// The URL listing chats, with the limit and offset given.
    pub fn chats_url(&self, limit: Option<i32>, offset: Option<i32>) -> (s: String)
        ensures
            s@ == with_query(
                base_url_of(*self) + "/chat"@,
                number_param("limit"@, opt_i32(limit)) + number_param("offset"@, opt_i32(offset)),
            ),
    {
        let mut url = self.base_url();
        push_str(&mut url, "/chat");
        let mut params: Vec<String> = Vec::new();
        let l: Option<i64> = match limit { Some(v) => Some(v as i64), None => None };
        let o: Option<i64> = match offset { Some(v) => Some(v as i64), None => None };
        push_number_param(&mut params, "limit", l);
        push_number_param(&mut params, "offset", o);
        assert(opt_i64(l) == opt_i32(limit));
        assert(opt_i64(o) == opt_i32(offset));
        assert(views(params@) =~= number_param("limit"@, opt_i32(limit)) + number_param("offset"@, opt_i32(offset)));
        add_query(url, &params)
    }

    /// The URL listing a chat's messages, with the limit, offset and time
    /// bounds given.
    pub fn messages_url(
        &self,
        chat_guid: &str,
        limit: Option<i32>,
        offset: Option<i32>,
        after: Option<i64>,
        before: Option<i64>,
    ) -> (s: String)
        ensures
            s@ == with_query(
                base_url_of(*self) + "/chat/"@ + chat_guid@ + "/message"@,
                number_param("limit"@, opt_i32(limit)) + number_param("offset"@, opt_i32(offset))
                    + number_param("after"@, opt_i64(after)) + number_param("before"@, opt_i64(before)),
            ),
    {
        let mut url = self.base_url();
        push_str(&mut url, "/chat/");
        push_str(&mut url, chat_guid);
        push_str(&mut url, "/message");
        let mut params: Vec<String> = Vec::new();
        let l: Option<i64> = match limit { Some(v) => Some(v as i64), None => None };
        let o: Option<i64> = match offset { Some(v) => Some(v as i64), None => None };
        push_number_param(&mut params, "limit", l);
        push_number_param(&mut params, "offset", o);
        push_number_param(&mut params, "after", after);
        push_number_param(&mut params, "before", before);
        assert(opt_i64(l) == opt_i32(limit));
        assert(opt_i64(o) == opt_i32(offset));
        assert(views(params@) =~= number_param("limit"@, opt_i32(limit)) + number_param("offset"@, opt_i32(offset))
            + number_param("after"@, opt_i64(after)) + number_param("before"@, opt_i64(before)));
        add_query(url, &params)
    }
}

/// The request that sends `message` to a chat by AppleScript, with the
/// temporary GUID given.
pub fn send_message_request(chat_guid: &str, message: &str, temp_guid: String) -> (r: SendMessageRequest)
    ensures
        r.chat_guid@ == chat_guid@,
        r.message@ == message@,
        r.temp_guid matches Some(g) && g@ == temp_guid@,
        r.method matches Some(m) && m@ == "apple-script"@,
        r.subject is None,
        r.effect_id is None,
        r.selected_message_guid is None,
        r.part_index is None,
{
    SendMessageRequest {
        chat_guid: to_owned_string(chat_guid),
        message: to_owned_string(message),
        temp_guid: Some(temp_guid),
        method: Some(to_owned_string("apple-script")),
        subject: None,
        effect_id: None,
        selected_message_guid: None,
        part_index: None,
    }
}

/// The request that reacts to a message with a tapback.
pub fn tapback_request(chat_guid: &str, message_guid: &str, tapback: TapbackType) -> (r: SendTapbackRequest)
    ensures
        r.chat_guid@ == chat_guid@,
        r.message_guid@ == message_guid@,
        r.tapback == tapback_number(tapback),
{
    SendTapbackRequest {
        chat_guid: to_owned_string(chat_guid),
        message_guid: to_owned_string(message_guid),
        tapback: tapback.as_i32(),
    }
}

/// The number a setting reads as, within `max`, or `default`.
pub open spec fn number_or(v: Option<String>, max: int, default: int) -> int {
    match v {
        Some(s) => match uint_text(s@) {
            Some(n) => if n <= max { n } else { default },
            None => default,
        },
        None => default,
    }
}

/// The value of an optional setting, or `default`.
fn setting_or(v: Option<String>, default: &str) -> (s: String)
    ensures
        s@ == text_or_default(v, default@),
{
    match v {
        Some(s) => s,
        None => to_owned_string(default),
    }
}

/// A `u64` setting, or `default` where absent or not a number.
fn u64_setting(v: &Option<String>, default: u64) -> (n: u64)
    ensures
        n == number_or(*v, u64::MAX as int, default as int),
{
    match v {
        Some(s) => {
            proof {
                lemma_uint_text_nonneg(s@);
            }
            match parse_u64(s.as_str()) {
                Some(n) => n,
                None => default,
            }
        },
        None => default,
    }
}

impl BlueBubblesConfig {
    /// The settings from the values of the environment, each defaulting as
    /// `Default` does; TLS only where the value is `true`.
    pub fn from_values(
        host: Option<String>,
        port: Option<String>,
        api_key: Option<String>,
        password: Option<String>,
        ws_path: Option<String>,
        api_prefix: Option<String>,
        use_tls: Option<String>,
        reconnect_interval_secs: Option<String>,
        request_timeout_secs: Option<String>,
        base: BaseChannelConfig,
    ) -> (c: Self)
        ensures
            c.host@ == text_or_default(host, "mac-mini.local"@),
            c.port == number_or(port, u16::MAX as int, 12345),
            c.api_key == api_key,
            c.password == password,
            c.ws_path@ == text_or_default(ws_path, "/ws"@),
            c.api_prefix@ == text_or_default(api_prefix, "/api/v1"@),
            c.use_tls == (match use_tls {
                Some(t) => t@ == "true"@,
                None => false,
            }),
            c.reconnect_interval_secs == number_or(reconnect_interval_secs, u64::MAX as int, 5),
            c.request_timeout_secs == number_or(request_timeout_secs, u64::MAX as int, 30),
            c.base == base,
    {
        let port_value: u16 = match &port {
            Some(p) => {
                proof {
                    lemma_uint_text_nonneg(p@);
                }
                match parse_u16(p.as_str()) {
                    Some(n) => n,
                    None => 12345,
                }
            },
            None => 12345,
        };
        let tls = match &use_tls {
            Some(t) => str_eq(t.as_str(), "true"),
            None => false,
        };
        BlueBubblesConfig {
            host: setting_or(host, "mac-mini.local"),
            port: port_value,
            api_key,
            password,
            ws_path: setting_or(ws_path, "/ws"),
            api_prefix: setting_or(api_prefix, "/api/v1"),
            use_tls: tls,
            reconnect_interval_secs: u64_setting(&reconnect_interval_secs, 5),
            request_timeout_secs: u64_setting(&request_timeout_secs, 30),
            base,
        }
    }
}

} // verus!
