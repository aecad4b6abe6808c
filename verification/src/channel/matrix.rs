//! Matrix channel: settings, login requests, request URLs, and turning
//! room events into messages.

use vstd::prelude::*;
use vstd::utf8::encode_utf8;

use crate::clock::{millis_in_range, new_uuid, timestamp_in_range};
use crate::content::{BaseChannelConfig, ConnectionMode, ContentType, MessageType, PlatformType};
use crate::error::AgentError;
use crate::strmap::{inserted, StrMap};
use crate::templates::Message;
use crate::text::{push_decimal, push_str, str_eq, to_owned_string, decimal};

verus! {

/// Matrix channel settings.
#[derive(Debug, Clone)]
pub struct MatrixChannelConfig {
    pub homeserver: String,
    pub username: String,
    pub credential: MatrixCredential,
    pub device_id: Option<String>,
    pub base: BaseChannelConfig,
}

/// How the bot logs in.
#[derive(Debug, Clone, PartialEq, Eq)]
pub enum MatrixCredential {
    Password { password: String },
    Token { access_token: String },
}

impl Default for MatrixChannelConfig {
    /// matrix.org, with an empty user name and password.
    fn default() -> (c: Self)
        ensures
            c.homeserver@ == "https://matrix.org"@,
            c.username@.len() == 0,
            c.credential matches MatrixCredential::Password { password } && password@.len() == 0,
            c.device_id is None,
            c.base.max_reconnect_attempts == 10,
    {
        MatrixChannelConfig {
            homeserver: to_owned_string("https://matrix.org"),
            username: String::new(),
            credential: MatrixCredential::Password { password: String::new() },
            device_id: None,
            base: BaseChannelConfig::new(),
        }
    }
}

/// A password login request.
#[derive(Debug, Clone)]
pub struct MatrixLoginRequest {
    pub login_type: String,
    pub identifier: MatrixIdentifier,
    pub password: Option<String>,
    pub token: Option<String>,
    pub device_id: Option<String>,
}

/// Who is logging in.
#[derive(Debug, Clone)]
pub struct MatrixIdentifier {
    pub id_type: String,
    pub user: String,
}

/// The homeserver's answer to a login.
#[derive(Debug, Clone)]
pub struct MatrixLoginResponse {
    pub access_token: String,
    pub device_id: String,
    pub home_server: String,
    pub user_id: String,
}

/// The homeserver's answer to a sent message.
#[derive(Debug, Clone)]
pub struct MatrixSendResponse {
    pub event_id: String,
}

/// How long a sync waits for events, in milliseconds.
pub const MATRIX_SYNC_TIMEOUT_MS: u64 = 30000;

/// Whether a byte is left as it is by URL encoding: ASCII letters and
/// digits, `-`, `.`, `_` and `~`.
pub open spec fn url_safe(b: u8) -> bool {
    (0x30 <= b <= 0x39) || (0x41 <= b <= 0x5A) || (0x61 <= b <= 0x7A) || b == 0x2D || b == 0x2E || b == 0x5F
        || b == 0x7E
}

/// The uppercase hexadecimal digit of a value below 16.
pub open spec fn hex_digit(d: int) -> char {
    if d < 10 {
        (0x30 + d) as char
    } else {
        (0x41 + d - 10) as char
    }
}

/// Bytes with every byte but the safe ones written as `%` and two
/// uppercase hexadecimal digits.
pub open spec fn percent_encoded(bytes: Seq<u8>) -> Seq<char>
    decreases bytes.len(),
{
    if bytes.len() == 0 {
        Seq::empty()
    } else {
        let b = bytes.last();
        percent_encoded(bytes.drop_last()) + if url_safe(b) {
            seq![b as char]
        } else {
            seq!['%', hex_digit(b as int / 16), hex_digit(b as int % 16)]
        }
    }
}

/// Percent-encodes text with `urlencoding::encode`: its UTF-8 bytes, every
/// byte but ASCII letters, digits, `-`, `.`, `_` and `~` written as `%`
/// and two uppercase hexadecimal digits, as the crate documents and its
/// source does.
#[verifier::external_body]
fn url_encode(s: &str) -> (r: String)
    ensures
        r@ == percent_encoded(encode_utf8(s@)),
{
    urlencoding::encode(s).into_owned()
}

/// The URL that sends a text message to a room.
pub open spec fn send_url_of(homeserver: Seq<char>, room_id: Seq<char>) -> Seq<char> {
    homeserver + "/_matrix/client/r0/rooms/"@ + percent_encoded(encode_utf8(room_id)) + "/send/m.room.message"@
}

/// The URL of a sync, continuing from a batch token if there is one.
pub open spec fn sync_url_of(homeserver: Seq<char>, since: Option<Seq<char>>) -> Seq<char> {
    homeserver + "/_matrix/client/r0/sync?timeout="@ + decimal(MATRIX_SYNC_TIMEOUT_MS as nat) + match since {
        Some(b) => "&since="@ + b,
        None => Seq::empty(),
    }
}

/// The message type of a Matrix `msgtype`.
pub open spec fn matrix_message_type(msgtype: Seq<char>) -> MessageType {
    if msgtype == "m.text"@ {
        MessageType::Text
    } else if msgtype == "m.image"@ {
        MessageType::Image
    } else if msgtype == "m.audio"@ {
        MessageType::Voice
    } else if msgtype == "m.video"@ {
        MessageType::Video
    } else if msgtype == "m.file"@ {
        MessageType::File
    } else {
        MessageType::System
    }
}

impl MatrixChannelConfig {
    /// The login URL.
    pub fn login_url(&self) -> (s: String)
        ensures
            s@ == self.homeserver@ + "/_matrix/client/r0/login"@,
    {
        let mut s = self.homeserver.clone();
        push_str(&mut s, "/_matrix/client/r0/login");
        s
    }

    /// The URL that tells who a token belongs to.
    pub fn whoami_url(&self) -> (s: String)
        ensures
            s@ == self.homeserver@ + "/_matrix/client/r0/account/whoami"@,
    {
        let mut s = self.homeserver.clone();
        push_str(&mut s, "/_matrix/client/r0/account/whoami");
        s
    }

    /// The URL that sends a text message to a room; the room ID is
    /// percent-encoded.
    pub fn send_url(&self, room_id: &str) -> (s: String)
        ensures
            s@ == send_url_of(self.homeserver@, room_id@),
    {
        let mut s = self.homeserver.clone();
        push_str(&mut s, "/_matrix/client/r0/rooms/");
        let room = url_encode(room_id);
        push_str(&mut s, room.as_str());
        push_str(&mut s, "/send/m.room.message");
        s
    }

    /// The URL of a sync, continuing from `since` when given.
    pub fn sync_url(&self, since: Option<&str>) -> (s: String)
        ensures
            s@ == sync_url_of(self.homeserver@, match since {
                Some(b) => Some(b@),
                None => None,
            }),
    {
        let mut s = self.homeserver.clone();
        push_str(&mut s, "/_matrix/client/r0/sync?timeout=");
        push_decimal(&mut s, MATRIX_SYNC_TIMEOUT_MS);
        let ghost before = s@;
        match since {
            Some(b) => {
                push_str(&mut s, "&since=");
                push_str(&mut s, b);
            },
            None => {
                assert(s@ =~= before + Seq::<char>::empty());
            },
        }
        s
    }

    /// The request for a password login, or `None` when the credential is
    /// a token.
    pub fn login_request(&self) -> (r: Option<MatrixLoginRequest>)
        ensures
            match self.credential {
                MatrixCredential::Password { password } => r matches Some(q) && q.login_type@
                    == "m.login.password"@ && q.identifier.id_type@ == "m.id.user"@
                    && q.identifier.user == self.username && q.password == Some(password)
                    && q.token is None && q.device_id == self.device_id,
                MatrixCredential::Token { .. } => r is None,
            },
    {
        match &self.credential {
            MatrixCredential::Password { password } => Some(
                MatrixLoginRequest {
                    login_type: to_owned_string("m.login.password"),
                    identifier: MatrixIdentifier {
                        id_type: to_owned_string("m.id.user"),
                        user: self.username.clone(),
                    },
                    password: Some(password.clone()),
                    token: None,
                    device_id: match &self.device_id {
                        Some(d) => Some(d.clone()),
                        None => None,
                    },
                },
            ),
            MatrixCredential::Token { .. } => None,
        }
    }
}

/// The message type of a Matrix `msgtype`.
pub fn message_type_of(msgtype: &str) -> (t: MessageType)
    ensures
        t == matrix_message_type(msgtype@),
{
    if str_eq(msgtype, "m.text") {
        MessageType::Text
    } else if str_eq(msgtype, "m.image") {
        MessageType::Image
    } else if str_eq(msgtype, "m.audio") {
        MessageType::Voice
    } else if str_eq(msgtype, "m.video") {
        MessageType::Video
    } else if str_eq(msgtype, "m.file") {
        MessageType::File
    } else {
        MessageType::System
    }
}

/// A room event as the channel reads it: its type, the body and `msgtype`
/// of its content (absent ones read as empty and `m.text`), and who sent
/// it when.
#[derive(Debug, Clone)]
pub struct MatrixEventFields {
    pub event_id: String,
    pub sender: String,
    pub origin_server_ts: i64,
    pub event_type: String,
    pub body: String,
    pub msgtype: String,
}

/// The message for a room event with the given IDs: only `m.room.message`
/// events whose time chrono accepts become messages. The metadata records
/// the room, the event and the sender.
pub fn convert_event_with_ids(room_id: &str, event: &MatrixEventFields, id: u128, thread_id: u128) -> (r: Option<Message>)
    ensures
        !(event.event_type@ == "m.room.message"@ && timestamp_in_range(event.origin_server_ts)) ==> r is None,
        event.event_type@ == "m.room.message"@ && timestamp_in_range(event.origin_server_ts) ==> (r matches Some(
            m,
        ) && m.id == id && m.thread_id == thread_id && m.platform == PlatformType::Matrix
            && m.message_type == matrix_message_type(event.msgtype@) && m.content@ == event.body@
            && m.timestamp == event.origin_server_ts && m.metadata@ == inserted(
            inserted(inserted(Seq::empty(), "room_id"@, room_id@), "event_id"@, event.event_id@),
            "sender"@,
            event.sender@,
        )),
{
    if !str_eq(event.event_type.as_str(), "m.room.message") {
        return None;
    }
    let message_type = message_type_of(event.msgtype.as_str());
    let mut metadata: StrMap<String> = StrMap::new();
    metadata.insert(to_owned_string("room_id"), to_owned_string(room_id));
    metadata.insert(to_owned_string("event_id"), event.event_id.clone());
    metadata.insert(to_owned_string("sender"), event.sender.clone());
    if !millis_in_range(event.origin_server_ts) {
        return None;
    }
    Some(
        Message {
            id,
            thread_id,
            platform: PlatformType::Matrix,
            message_type,
            content: event.body.clone(),
            metadata,
            timestamp: event.origin_server_ts,
        },
    )
}

/// The message for a room event, with fresh message and thread IDs.
pub fn convert_event(room_id: &str, event: &MatrixEventFields) -> (r: Option<Message>)
    ensures
        r is Some <==> event.event_type@ == "m.room.message"@ && timestamp_in_range(event.origin_server_ts),
        r matches Some(m) ==> m.platform == PlatformType::Matrix && m.message_type == matrix_message_type(
            event.msgtype@,
        ) && m.content@ == event.body@ && m.timestamp == event.origin_server_ts && m.metadata@ == inserted(
            inserted(inserted(Seq::empty(), "room_id"@, room_id@), "event_id"@, event.event_id@),
            "sender"@,
            event.sender@,
        ),
{
    convert_event_with_ids(room_id, event, new_uuid(), new_uuid())
}

impl MatrixChannelConfig {
    /// Senders allowed to reach the bot; this channel sets no such list.
    pub fn allowlist(&self) -> (v: Vec<String>)
        ensures
            v@.len() == 0,
    {
        Vec::new()
    }

    /// How the channel receives messages, as the common settings say.
    pub fn connection_mode(&self) -> (m: ConnectionMode)
        ensures
            m == self.base.connection_mode,
    {
        self.base.connection_mode
    }

    /// Whether the channel reconnects after losing its connection.
    pub fn auto_reconnect(&self) -> (b: bool)
        ensures
            b == self.base.auto_reconnect,
    {
        self.base.auto_reconnect
    }

    /// How often the channel tries to reconnect before it gives up.
    pub fn max_reconnect_attempts(&self) -> (n: u32)
        ensures
            n == self.base.max_reconnect_attempts,
    {
        self.base.max_reconnect_attempts
    }

    /// Whether the settings can log in: a user name, and a non-empty
    /// password or access token.
    pub fn is_valid(&self) -> (b: bool)
        ensures
            b == (self.username@.len() > 0 && match self.credential {
                MatrixCredential::Password { password } => password@.len() > 0,
                MatrixCredential::Token { access_token } => access_token@.len() > 0,
            }),
    {
        self.username.as_str().unicode_len() > 0 && match &self.credential {
            MatrixCredential::Password { password } => password.as_str().unicode_len() > 0,
            MatrixCredential::Token { access_token } => access_token.as_str().unicode_len() > 0,
        }
    }

    /// The settings from the values of the environment: the home server
    /// (matrix.org by default), the user name, an access token or else a
    /// password, the device ID and the common settings. `None` without a
    /// user name, or without both a token and a password.
    pub fn from_values(
        homeserver: Option<String>,
        username: Option<String>,
        access_token: Option<String>,
        password: Option<String>,
        device_id: Option<String>,
        base: BaseChannelConfig,
    ) -> (r: Option<Self>)
        ensures
            (username is None || (access_token is None && password is None)) ==> r is None,
            username matches Some(u) ==> (access_token matches Some(t) ==> (r matches Some(c)
                && c.username == u && c.credential == (MatrixCredential::Token { access_token: t })
                && c.device_id == device_id && c.base == base
                && c.homeserver@ == (match homeserver { Some(h) => h@, None => "https://matrix.org"@ }))),
            username matches Some(u) ==> (access_token is None ==> (password matches Some(p) ==> (r matches Some(c)
                && c.username == u && c.credential == (MatrixCredential::Password { password: p })
                && c.device_id == device_id && c.base == base
                && c.homeserver@ == (match homeserver { Some(h) => h@, None => "https://matrix.org"@ })))),
    {
        let username = match username {
            Some(u) => u,
            None => return None,
        };
        let credential = match access_token {
            Some(t) => MatrixCredential::Token { access_token: t },
            None => match password {
                Some(p) => MatrixCredential::Password { password: p },
                None => return None,
            },
        };
        let homeserver = match homeserver {
            Some(h) => h,
            None => to_owned_string("https://matrix.org"),
        };
        Some(MatrixChannelConfig { homeserver, username, credential, device_id, base })
    }
}
/// The kinds of content a Matrix channel can carry.
pub fn supported_content_types() -> (v: Vec<ContentType>)
    ensures
        v@ == seq![ContentType::Text, ContentType::Image, ContentType::File, ContentType::Audio, ContentType::Video, ContentType::Rich],
{
    let mut v: Vec<ContentType> = Vec::new();
    v.push(ContentType::Text);
    v.push(ContentType::Image);
    v.push(ContentType::File);
    v.push(ContentType::Audio);
    v.push(ContentType::Video);
    v.push(ContentType::Rich);
    v
}
/// What a Matrix client knows after logging in: its access token, user ID
/// and device ID.
#[derive(Debug)]
pub struct MatrixSession {
    pub access_token: Option<String>,
    pub user_id: Option<String>,
    pub device_id: Option<String>,
}

impl MatrixSession {
    /// A session that has not logged in.
    pub fn new() -> (s: Self)
        ensures
            s.access_token is None && s.user_id is None && s.device_id is None,
    {
        MatrixSession { access_token: None, user_id: None, device_id: None }
    }

    /// Takes up an access token from the settings; the token is then
    /// checked with whoami.
    pub fn start_token_login(&mut self, access_token: &str)
        ensures
            opt_text(final(self).access_token) == Some(access_token@),
            final(self).user_id == old(self).user_id,
            final(self).device_id == old(self).device_id,
    {
        self.access_token = Some(to_owned_string(access_token));
    }

    /// Takes in whoami's answer: the user ID it names, or the error for a
    /// token it does not accept (an answer without a user ID), which
    /// changes nothing.
    pub fn finish_token_login(&mut self, whoami_user_id: Option<&str>) -> (r: Result<(), AgentError>)
        ensures
            final(self).access_token == old(self).access_token,
            final(self).device_id == old(self).device_id,
            match whoami_user_id {
                Some(u) => r is Ok && opt_text(final(self).user_id) == Some(u@),
                None => (r matches Err(AgentError::Authentication(m)) && m@ == "Invalid token"@)
                    && final(self).user_id == old(self).user_id,
            },
    {
        match whoami_user_id {
            Some(u) => {
                self.user_id = Some(to_owned_string(u));
                Ok(())
            },
            None => Err(AgentError::Authentication(to_owned_string("Invalid token"))),
        }
    }

    /// Takes in the homeserver's answer to a password login.
    pub fn finish_password_login(&mut self, response: MatrixLoginResponse)
        ensures
            opt_text(final(self).access_token) == Some(response.access_token@),
            opt_text(final(self).user_id) == Some(response.user_id@),
            opt_text(final(self).device_id) == Some(response.device_id@),
    {
        self.access_token = Some(response.access_token);
        self.user_id = Some(response.user_id);
        self.device_id = Some(response.device_id);
    }

    /// The access token, or the error for a client that has not logged in.
    pub fn access_token(&self) -> (r: Result<String, AgentError>)
        ensures
            match self.access_token {
                Some(t) => r matches Ok(s) && s@ == t@,
                None => r matches Err(AgentError::Authentication(m)) && m@ == "Not logged in"@,
            },
    {
        match &self.access_token {
            Some(t) => Ok(to_owned_string(t.as_str())),
            None => Err(AgentError::Authentication(to_owned_string("Not logged in"))),
        }
    }
}

/// The text of an optional string.
pub open spec fn opt_text(o: Option<String>) -> Option<Seq<char>> {
    match o {
        Some(s) => Some(s@),
        None => None,
    }
}
} // verus!
