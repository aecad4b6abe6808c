//! Webhooks from the WhatsApp bridge: what kind of event a payload is, the
//! message a message event carries, and the event a connection change
//! becomes.

use vstd::prelude::*;

use crate::clock::{new_uuid, now_millis, parse_uuid, seconds_in_range, seconds_to_millis, uuid_parsed};
use crate::content::{MessageType, PlatformType};
use crate::strmap::{inserted, StrMap};
use crate::channel::whatsapp::{whatsapp_content_type, whatsapp_kind_name, whatsapp_kind_of, WhatsAppContent, WhatsAppKind};
use crate::templates::{message_type_for, Message};
use crate::text::{str_eq, to_owned_string};

verus! {

/// A message as the bridge reports it.
#[derive(Debug, Clone)]
pub struct WhatsAppMessageData {
    /// Message ID.
    pub id: String,
    /// Remote JID (phone number).
    pub remote_jid: String,
    /// Whether this account sent it.
    pub from_me: bool,
    /// Message content.
    pub content: String,
    /// Message type.
    pub message_type: String,
    /// Seconds since the epoch.
    pub timestamp: i64,
    /// Participant, in a group.
    pub participant: Option<String>,
    /// Media URL, for media messages.
    pub media_url: Option<String>,
    /// Media type.
    pub media_type: Option<String>,
    /// Caption, for media messages.
    pub caption: Option<String>,
    /// ID of the message replied to.
    pub quoted_message_id: Option<String>,
}

/// A connection change as the bridge reports it.
#[derive(Debug, Clone)]
pub struct WhatsAppConnectionStatus {
    /// Connection state.
    pub state: String,
    /// QR code, for pairing.
    pub qr_code: Option<String>,
    /// Error message.
    pub error: Option<String>,
}

/// The kinds of event a bridge payload becomes.
#[derive(Debug, Clone, Copy, PartialEq, Eq, Structural)]
pub enum WebhookEventType {
    MessageReceived,
    MessageEdited,
    MessageDeleted,
    UserJoined,
    UserLeft,
    System,
    Unknown,
}

/// How a payload is read, by its `type`: a message event (of the kind
/// given), a connection change, or an event of an unknown type.
#[derive(Debug, Clone, Copy, PartialEq, Eq, Structural)]
pub enum WhatsAppPayloadKind {
    Message(WebhookEventType),
    Connection,
    Unknown,
}

/// The kind of a payload of type `t`.
pub open spec fn payload_kind_of(t: Seq<char>) -> WhatsAppPayloadKind {
    if t == "message"@ {
        WhatsAppPayloadKind::Message(WebhookEventType::MessageReceived)
    } else if t == "message_update"@ {
        WhatsAppPayloadKind::Message(WebhookEventType::MessageEdited)
    } else if t == "message_delete"@ {
        WhatsAppPayloadKind::Message(WebhookEventType::MessageDeleted)
    } else if t == "connection"@ {
        WhatsAppPayloadKind::Connection
    } else {
        WhatsAppPayloadKind::Unknown
    }
}

/// The message type of a bridge message type: locations read as text and
/// stickers as images; an unknown type is a system message.
pub open spec fn bridge_message_type(t: Seq<char>) -> MessageType {
    if t == "text"@ || t == "location"@ {
        MessageType::Text
    } else if t == "image"@ || t == "sticker"@ {
        MessageType::Image
    } else if t == "video"@ {
        MessageType::Video
    } else if t == "audio"@ {
        MessageType::Voice
    } else if t == "document"@ {
        MessageType::File
    } else {
        MessageType::System
    }
}

/// The event a connection state becomes.
pub open spec fn connection_event_of(state: Seq<char>) -> WebhookEventType {
    if state == "connected"@ {
        WebhookEventType::UserJoined
    } else if state == "disconnected"@ {
        WebhookEventType::UserLeft
    } else {
        WebhookEventType::System
    }
}

/// `m` with `v` stored under `k` where `v` is present.
pub open spec fn with_optional(m: Seq<(Seq<char>, Seq<char>)>, k: Seq<char>, v: Option<String>) -> Seq<(Seq<char>, Seq<char>)> {
    match v {
        Some(s) => inserted(m, k, s@),
        None => m,
    }
}

/// The text of a flag as Rust writes it.
pub open spec fn flag_text(b: bool) -> Seq<char> {
    if b { "true"@ } else { "false"@ }
}

/// The metadata of a message: the remote JID and the sender flag, then
/// the participant, media URL, media type and quoted message ID where
/// present, in that order.
pub open spec fn message_metadata_of(msg: WhatsAppMessageData) -> Seq<(Seq<char>, Seq<char>)> {
    let base = inserted(inserted(Seq::empty(), "remote_jid"@, msg.remote_jid@), "from_me"@, flag_text(msg.from_me));
    with_optional(
        with_optional(
            with_optional(with_optional(base, "participant"@, msg.participant), "media_url"@, msg.media_url),
            "media_type"@,
            msg.media_type,
        ),
        "quoted_message_id"@,
        msg.quoted_message_id,
    )
}

/// The metadata of a connection change: its state, then the QR code and
/// the error where present.
pub open spec fn connection_metadata_of(status: WhatsAppConnectionStatus) -> Seq<(Seq<char>, Seq<char>)> {
    with_optional(
        with_optional(inserted(Seq::empty(), "connection_state"@, status.state@), "qr_code"@, status.qr_code),
        "error"@,
        status.error,
    )
}

/// How a payload of type `event_type` is read.
pub fn payload_kind(event_type: &str) -> (k: WhatsAppPayloadKind)
    ensures
        k == payload_kind_of(event_type@),
{
    if str_eq(event_type, "message") {
        WhatsAppPayloadKind::Message(WebhookEventType::MessageReceived)
    } else if str_eq(event_type, "message_update") {
        WhatsAppPayloadKind::Message(WebhookEventType::MessageEdited)
    } else if str_eq(event_type, "message_delete") {
        WhatsAppPayloadKind::Message(WebhookEventType::MessageDeleted)
    } else if str_eq(event_type, "connection") {
        WhatsAppPayloadKind::Connection
    } else {
        WhatsAppPayloadKind::Unknown
    }
}

/// The message type of a bridge message type.
pub fn bridge_message_type_of(t: &str) -> (m: MessageType)
    ensures
        m == bridge_message_type(t@),
{
    if str_eq(t, "text") || str_eq(t, "location") {
        MessageType::Text
    } else if str_eq(t, "image") || str_eq(t, "sticker") {
        MessageType::Image
    } else if str_eq(t, "video") {
        MessageType::Video
    } else if str_eq(t, "audio") {
        MessageType::Voice
    } else if str_eq(t, "document") {
        MessageType::File
    } else {
        MessageType::System
    }
}

/// The event a connection state becomes.
pub fn connection_event_type(state: &str) -> (e: WebhookEventType)
    ensures
        e == connection_event_of(state@),
{
    if str_eq(state, "connected") {
        WebhookEventType::UserJoined
    } else if str_eq(state, "disconnected") {
        WebhookEventType::UserLeft
    } else {
        WebhookEventType::System
    }
}

/// Stores a copy of `v` under `k` where `v` is present.
fn insert_optional(m: &mut StrMap<String>, k: &str, v: &Option<String>)
    ensures
        final(m)@ == with_optional(old(m)@, k@, *v),
{
    if let Some(s) = v {
        m.insert(to_owned_string(k), s.clone());
    }
}

/// The metadata of a message.
pub fn message_metadata(msg: &WhatsAppMessageData) -> (m: StrMap<String>)
    ensures
        m@ == message_metadata_of(*msg),
{
    let mut m: StrMap<String> = StrMap::new();
    m.insert(to_owned_string("remote_jid"), msg.remote_jid.clone());
    let flag = if msg.from_me { to_owned_string("true") } else { to_owned_string("false") };
    m.insert(to_owned_string("from_me"), flag);
    insert_optional(&mut m, "participant", &msg.participant);
    insert_optional(&mut m, "media_url", &msg.media_url);
    insert_optional(&mut m, "media_type", &msg.media_type);
    insert_optional(&mut m, "quoted_message_id", &msg.quoted_message_id);
    m
}

/// The metadata of a connection change.
pub fn connection_metadata(status: &WhatsAppConnectionStatus) -> (m: StrMap<String>)
    ensures
        m@ == connection_metadata_of(*status),
{
    let mut m: StrMap<String> = StrMap::new();
    m.insert(to_owned_string("connection_state"), status.state.clone());
    insert_optional(&mut m, "qr_code", &status.qr_code);
    insert_optional(&mut m, "error", &status.error);
    m
}

/// The WhatsApp message for bridge message data, with the message ID,
/// thread ID and time (milliseconds) given.
pub fn message_with(msg: &WhatsAppMessageData, id: u128, thread_id: u128, timestamp: i64) -> (m: Message)
    ensures
        m.id == id,
        m.thread_id == thread_id,
        m.platform == PlatformType::WhatsApp,
        m.message_type == bridge_message_type(msg.message_type@),
        m.content@ == msg.content@,
        m.metadata@ == message_metadata_of(*msg),
        m.timestamp == timestamp,
{
    Message {
        id,
        thread_id,
        platform: PlatformType::WhatsApp,
        message_type: bridge_message_type_of(msg.message_type.as_str()),
        content: msg.content.clone(),
        metadata: message_metadata(msg),
        timestamp,
    }
}

/// The WhatsApp message for bridge message data: its ID is the message's
/// own where that is a UUID (a fresh one otherwise), its thread ID is
/// fresh, and its time is the message's where chrono accepts it (the
/// current time otherwise).
pub fn message_from_data(msg: &WhatsAppMessageData) -> (m: Message)
    ensures
        uuid_parsed(msg.id@) matches Some(id) ==> m.id == id,
        seconds_in_range(msg.timestamp) ==> m.timestamp == msg.timestamp * 1000,
        m.platform == PlatformType::WhatsApp,
        m.message_type == bridge_message_type(msg.message_type@),
        m.content@ == msg.content@,
        m.metadata@ == message_metadata_of(*msg),
{
    let id = match parse_uuid(msg.id.as_str()) {
        Some(id) => id,
        None => new_uuid(),
    };
    let thread_id = new_uuid();
    let timestamp = match seconds_to_millis(msg.timestamp) {
        Some(ms) => ms,
        None => now_millis(),
    };
    message_with(msg, id, thread_id, timestamp)
}

/// A bridge message named after a kind of WhatsApp content (text, image,
/// video, audio or document) is read as the message type that content's
/// unified type stands for; a sticker is read as an image.
pub proof fn lemma_bridge_type_matches_content(c: WhatsAppContent)
    ensures
        (whatsapp_kind_of(c) == WhatsAppKind::Text || whatsapp_kind_of(c) == WhatsAppKind::Image
            || whatsapp_kind_of(c) == WhatsAppKind::Video || whatsapp_kind_of(c) == WhatsAppKind::Audio
            || whatsapp_kind_of(c) == WhatsAppKind::Document) ==> bridge_message_type(
            whatsapp_kind_name(whatsapp_kind_of(c)),
        ) == message_type_for(whatsapp_content_type(c)),
        whatsapp_kind_of(c) == WhatsAppKind::Sticker ==> bridge_message_type(whatsapp_kind_name(whatsapp_kind_of(c)))
            == MessageType::Image,
{
    reveal_strlit("text");
    reveal_strlit("location");
    reveal_strlit("image");
    reveal_strlit("sticker");
    reveal_strlit("video");
    reveal_strlit("audio");
    reveal_strlit("document");
    match c {
        WhatsAppContent::Text(_) => {},
        WhatsAppContent::Image(_) => {
            assert("image"@ != "text"@ && "image"@ != "location"@) by {
                assert("image"@[0] != "text"@[0] && "image"@[0] != "location"@[0]);
            }
        },
        WhatsAppContent::Video(_) => {
            assert("video"@[0] != "text"@[0] && "video"@[0] != "location"@[0] && "video"@[0] != "image"@[0]
                && "video"@[0] != "sticker"@[0]);
        },
        WhatsAppContent::Audio(_) => {
            assert("audio"@[0] != "text"@[0] && "audio"@[0] != "location"@[0] && "audio"@[0] != "image"@[0]
                && "audio"@[0] != "sticker"@[0] && "audio"@[0] != "video"@[0]);
        },
        WhatsAppContent::Document(_) => {
            assert("document"@[0] != "text"@[0] && "document"@[0] != "location"@[0] && "document"@[0]
                != "image"@[0] && "document"@[0] != "sticker"@[0] && "document"@[0] != "video"@[0]
                && "document"@[0] != "audio"@[0]);
        },
        WhatsAppContent::Sticker(_) => {
            assert("sticker"@[0] != "text"@[0] && "sticker"@[0] != "location"@[0]);
        },
        _ => {},
    }
}

} // verus!
