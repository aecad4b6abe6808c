//! Signal message content: the content variants, their text rendering,
//! constructors, queries and media form.

use vstd::prelude::*;

use crate::content::{BaseChannelConfig, ConnectionMode, clone_opt, string_or_empty, opt_or_empty, ContentType, MediaContent};
use crate::error::{message_with, AgentError};
use crate::clock::{millis_in_range, new_uuid, timestamp_in_range};
use crate::content::{MessageType, PlatformType};
use crate::strmap::{inserted, StrMap};
use crate::templates::Message;
use crate::text::{push_signed_decimal, push_str, signed_decimal, str_eq, to_owned_string};

verus! {

/// Signal message content types.
#[derive(Debug, Clone, PartialEq, Eq)]
pub enum SignalContent {
    Text(SignalTextContent),
    Image(SignalImageContent),
    Video(SignalVideoContent),
    Audio(SignalAudioContent),
    Voice(SignalVoiceContent),
    File(SignalFileContent),
    Location(SignalLocationContent),
    Contact(SignalContactContent),
    Sticker(SignalStickerContent),
    Reaction(SignalReactionContent),
    Typing(SignalTypingContent),
    RemoteDelete(SignalRemoteDeleteContent),
    GroupInfo(SignalGroupInfoContent),
}

/// Text content.
#[derive(Debug, Clone, PartialEq, Eq, Default)]
pub struct SignalTextContent {
    pub body: String,
    pub quote: Option<Box<SignalQuoteContent>>,
    pub mentions: Option<Vec<SignalMention>>,
    pub expires_in_seconds: Option<i32>,
}

/// A quoted message.
#[derive(Debug, Clone, PartialEq, Eq, Default)]
pub struct SignalQuoteContent {
    pub id: i64,
    pub author: String,
    pub text: Option<String>,
    pub attachments: Option<Vec<SignalAttachmentInfo>>,
}

/// A mention within a text.
#[derive(Debug, Clone, PartialEq, Eq)]
pub struct SignalMention {
    pub name: String,
    pub number: Option<String>,
    pub uuid: Option<String>,
    pub start: i32,
    pub length: i32,
}

/// An image attachment.
#[derive(Debug, Clone, PartialEq, Eq, Default)]
pub struct SignalImageContent {
    pub attachment_id: String,
    pub file_path: Option<String>,
    pub caption: Option<String>,
    pub mime_type: Option<String>,
    pub width: Option<i32>,
    pub height: Option<i32>,
    pub file_size: Option<i64>,
    pub view_once: Option<bool>,
}

/// A video attachment.
#[derive(Debug, Clone, PartialEq, Eq, Default)]
pub struct SignalVideoContent {
    pub attachment_id: String,
    pub file_path: Option<String>,
    pub caption: Option<String>,
    pub mime_type: Option<String>,
    pub width: Option<i32>,
    pub height: Option<i32>,
    pub duration: Option<i32>,
    pub file_size: Option<i64>,
    pub view_once: Option<bool>,
}

/// An audio attachment.
#[derive(Debug, Clone, PartialEq, Eq, Default)]
pub struct SignalAudioContent {
    pub attachment_id: String,
    pub file_path: Option<String>,
    pub mime_type: Option<String>,
    pub duration: Option<i32>,
    pub file_size: Option<i64>,
}

/// A voice message.
#[derive(Debug, Clone, PartialEq, Eq, Default)]
pub struct SignalVoiceContent {
    pub attachment_id: String,
    pub file_path: Option<String>,
    pub mime_type: Option<String>,
    pub duration: Option<i32>,
    pub file_size: Option<i64>,
}

/// A file attachment.
#[derive(Debug, Clone, PartialEq, Eq, Default)]
pub struct SignalFileContent {
    pub attachment_id: String,
    pub file_path: Option<String>,
    pub filename: Option<String>,
    pub mime_type: Option<String>,
    pub file_size: Option<i64>,
    pub caption: Option<String>,
}

/// A shared location. Latitude and longitude are kept as the decimal text
/// they are shown as; nothing here computes with them.
#[derive(Debug, Clone, PartialEq, Eq, Default)]
pub struct SignalLocationContent {
    pub latitude: String,
    pub longitude: String,
    pub name: Option<String>,
    pub address: Option<String>,
}

/// A shared contact.
#[derive(Debug, Clone, PartialEq, Eq, Default)]
pub struct SignalContactContent {
    pub name: String,
    pub phone_number: Option<String>,
    pub vcard: Option<String>,
}

/// A sticker.
#[derive(Debug, Clone, PartialEq, Eq, Default)]
pub struct SignalStickerContent {
    pub sticker_id: String,
    pub pack_id: String,
    pub emoji: Option<String>,
}

/// A reaction to a message.
#[derive(Debug, Clone, PartialEq, Eq)]
pub struct SignalReactionContent {
    pub emoji: String,
    pub target_author: String,
    pub target_timestamp: i64,
    pub is_remove: bool,
}

/// A typing notification.
#[derive(Debug, Clone, PartialEq, Eq)]
pub struct SignalTypingContent {
    pub action: String,
    pub group_id: Option<String>,
}

/// The deletion of an earlier message.
#[derive(Debug, Clone, PartialEq, Eq)]
pub struct SignalRemoteDeleteContent {
    pub target_timestamp: i64,
}

/// A group update.
#[derive(Debug, Clone, PartialEq, Eq)]
pub struct SignalGroupInfoContent {
    pub group_id: String,
    pub group_name: Option<String>,
    pub revision: Option<i32>,
    pub update_type: Option<String>,
}

/// Information about an attachment.
#[derive(Debug, Clone, PartialEq, Eq, Default)]
pub struct SignalAttachmentInfo {
    pub id: String,
    pub content_type: String,
    pub filename: String,
    pub size: i64,
    pub width: Option<i32>,
    pub height: Option<i32>,
    pub voice_note: Option<bool>,
}

/// Signal content parser.
#[derive(Debug, Clone, Copy, Default)]
pub struct SignalContentParser;

/// The kinds of Signal content, one per variant.
#[derive(Debug, Clone, Copy, PartialEq, Eq, Structural)]
pub enum SignalKind {
    Text,
    Image,
    Video,
    Audio,
    Voice,
    File,
    Location,
    Contact,
    Sticker,
    Reaction,
    Typing,
    RemoteDelete,
    GroupInfo,
}

/// The name a kind is reported under.
pub open spec fn signal_kind_name(k: SignalKind) -> Seq<char> {
    match k {
        SignalKind::Text => "text"@,
        SignalKind::Image => "image"@,
        SignalKind::Video => "video"@,
        SignalKind::Audio => "audio"@,
        SignalKind::Voice => "voice"@,
        SignalKind::File => "file"@,
        SignalKind::Location => "location"@,
        SignalKind::Contact => "contact"@,
        SignalKind::Sticker => "sticker"@,
        SignalKind::Reaction => "reaction"@,
        SignalKind::Typing => "typing"@,
        SignalKind::RemoteDelete => "remote_delete"@,
        SignalKind::GroupInfo => "group_info"@,
    }
}

/// The names accepted for a kind: its own name, and `document` for files.
pub open spec fn signal_kind_accepts(k: SignalKind, name: Seq<char>) -> bool {
    name == signal_kind_name(k) || (k == SignalKind::File && name == "document"@)
}

/// The kind chosen for a content type reports that type back, with
/// `document` reported as `file`; no other kind accepts the same name.
pub proof fn lemma_content_type_round_trip(name: Seq<char>, k: SignalKind, c: SignalContent)
    requires
        signal_kind_accepts(k, name),
        signal_kind_of(c) == k,
    ensures
        signal_kind_name(signal_kind_of(c)) == (if name == "document"@ { "file"@ } else { name }),
        forall|j: SignalKind| signal_kind_accepts(j, name) ==> j == k,
{
    reveal_strlit("text");
    reveal_strlit("image");
    reveal_strlit("video");
    reveal_strlit("audio");
    reveal_strlit("voice");
    reveal_strlit("file");
    reveal_strlit("location");
    reveal_strlit("contact");
    reveal_strlit("sticker");
    reveal_strlit("reaction");
    reveal_strlit("typing");
    reveal_strlit("remote_delete");
    reveal_strlit("group_info");
    reveal_strlit("document");
    assert forall|x: SignalKind| #[trigger] signal_kind_name(x) != "document"@ by {
        assert(signal_kind_name(x).len() != 8 || signal_kind_name(x)[0] != 'd') by {
            match x {
                SignalKind::Text => {},
                SignalKind::Image => {},
                SignalKind::Video => {},
                SignalKind::Audio => {},
                SignalKind::Voice => {},
                SignalKind::File => {},
                SignalKind::Location => {},
                SignalKind::Contact => {},
                SignalKind::Sticker => {},
                SignalKind::Reaction => {},
                SignalKind::Typing => {},
                SignalKind::RemoteDelete => {},
                SignalKind::GroupInfo => {},
            }
        }
    }
    assert forall|j: SignalKind| signal_kind_accepts(j, name) implies j == k by {
        assert(signal_kind_name(j) != "document"@);
        assert(signal_kind_name(k) != "document"@);
        if name != "document"@ {
            assert(signal_kind_name(j).len() == signal_kind_name(k).len() && signal_kind_name(j)[0]
                == signal_kind_name(k)[0] && signal_kind_name(j)[1] == signal_kind_name(k)[1]);
            match j {
                SignalKind::Text => {},
                SignalKind::Image => {},
                SignalKind::Video => {},
                SignalKind::Audio => {},
                SignalKind::Voice => {},
                SignalKind::File => {},
                SignalKind::Location => {},
                SignalKind::Contact => {},
                SignalKind::Sticker => {},
                SignalKind::Reaction => {},
                SignalKind::Typing => {},
                SignalKind::RemoteDelete => {},
                SignalKind::GroupInfo => {},
            }
        }
    }
    assert(signal_kind_name(k) != "document"@);
}

/// The kind of a content value.
pub open spec fn signal_kind_of(c: SignalContent) -> SignalKind {
    match c {
        SignalContent::Text(_) => SignalKind::Text,
        SignalContent::Image(_) => SignalKind::Image,
        SignalContent::Video(_) => SignalKind::Video,
        SignalContent::Audio(_) => SignalKind::Audio,
        SignalContent::Voice(_) => SignalKind::Voice,
        SignalContent::File(_) => SignalKind::File,
        SignalContent::Location(_) => SignalKind::Location,
        SignalContent::Contact(_) => SignalKind::Contact,
        SignalContent::Sticker(_) => SignalKind::Sticker,
        SignalContent::Reaction(_) => SignalKind::Reaction,
        SignalContent::Typing(_) => SignalKind::Typing,
        SignalContent::RemoteDelete(_) => SignalKind::RemoteDelete,
        SignalContent::GroupInfo(_) => SignalKind::GroupInfo,
    }
}

/// The text of an optional string, or `default` when absent.
pub open spec fn or_text(o: Option<String>, default: Seq<char>) -> Seq<char> {
    match o {
        Some(s) => s@,
        None => default,
    }
}

/// The plain-text rendering of Signal content.
pub open spec fn signal_text(c: SignalContent) -> Seq<char> {
    match c {
        SignalContent::Text(t) => t.body@,
        SignalContent::Image(i) => "[Image] "@ + opt_or_empty(i.caption),
        SignalContent::Video(v) => "[Video] "@ + opt_or_empty(v.caption),
        SignalContent::Audio(_) => "[Audio]"@,
        SignalContent::Voice(v) => "[Voice message, "@ + (match v.duration {
            Some(d) => signed_decimal(d as int),
            None => Seq::empty(),
        }) + "s]"@,
        SignalContent::File(f) => "[File: "@ + or_text(f.filename, "unnamed"@) + "] "@ + opt_or_empty(f.caption),
        SignalContent::Location(l) => "[Location: "@ + l.latitude@ + ", "@ + l.longitude@ + "]"@,
        SignalContent::Contact(c) => "[Contact: "@ + c.name@ + "]"@,
        SignalContent::Sticker(s) => "[Sticker: "@ + opt_or_empty(s.emoji) + "]"@,
        SignalContent::Reaction(r) => "[Reaction: "@ + r.emoji@ + " to message from "@ + r.target_author@ + "]"@,
        SignalContent::Typing(t) => "[Typing: "@ + t.action@ + "]"@,
        SignalContent::RemoteDelete(_) => "[Message deleted]"@,
        SignalContent::GroupInfo(g) => "[Group: "@ + or_text(g.group_name, g.group_id@) + "]"@,
    }
}

/// The unified content type of Signal content.
pub open spec fn signal_content_type(c: SignalContent) -> ContentType {
    match c {
        SignalContent::Text(_) => ContentType::Text,
        SignalContent::Image(_) => ContentType::Image,
        SignalContent::Video(_) => ContentType::Video,
        SignalContent::Audio(_) => ContentType::Audio,
        SignalContent::Voice(_) => ContentType::Audio,
        SignalContent::File(_) => ContentType::File,
        SignalContent::Location(_) => ContentType::Location,
        SignalContent::Contact(_) => ContentType::Contact,
        SignalContent::Sticker(_) => ContentType::Sticker,
        SignalContent::Reaction(_) => ContentType::System,
        SignalContent::Typing(_) => ContentType::System,
        SignalContent::RemoteDelete(_) => ContentType::System,
        SignalContent::GroupInfo(_) => ContentType::System,
    }
}

fn push_or(s: &mut String, o: &Option<String>, default: &str)
    ensures
        final(s)@ == old(s)@ + or_text(*o, default@),
{
    match o {
        Some(x) => push_str(s, x.as_str()),
        None => push_str(s, default),
    }
}

fn push_opt(s: &mut String, o: &Option<String>)
    ensures
        final(s)@ == old(s)@ + opt_or_empty(*o),
{
    match o {
        Some(x) => push_str(s, x.as_str()),
        None => {
            assert(old(s)@ + Seq::<char>::empty() =~= old(s)@);
        },
    }
}

impl SignalContent {
    /// The unified content type of this content.
    pub fn content_type(&self) -> (t: ContentType)
        ensures
            t == signal_content_type(*self),
    {
        match self {
            SignalContent::Text(_) => ContentType::Text,
            SignalContent::Image(_) => ContentType::Image,
            SignalContent::Video(_) => ContentType::Video,
            SignalContent::Audio(_) => ContentType::Audio,
            SignalContent::Voice(_) => ContentType::Audio,
            SignalContent::File(_) => ContentType::File,
            SignalContent::Location(_) => ContentType::Location,
            SignalContent::Contact(_) => ContentType::Contact,
            SignalContent::Sticker(_) => ContentType::Sticker,
            SignalContent::Reaction(_) => ContentType::System,
            SignalContent::Typing(_) => ContentType::System,
            SignalContent::RemoteDelete(_) => ContentType::System,
            SignalContent::GroupInfo(_) => ContentType::System,
        }
    }

    /// The plain-text rendering of this content.
    pub fn extract_text(&self) -> (s: String)
        ensures
            s@ == signal_text(*self),
    {
        SignalContentParser::extract_text(self)
    }
}

impl SignalContentParser {
    /// Creates a parser.
    pub fn new() -> Self {
        SignalContentParser
    }

    /// The kind named by a content type (`document` is a file), or the
    /// error for an unknown name.
    pub fn content_kind(content_type: &str) -> (r: Result<SignalKind, AgentError>)
        ensures
            r matches Ok(k) ==> signal_kind_accepts(k, content_type@),
            r is Err <==> (forall|k: SignalKind| !signal_kind_accepts(k, content_type@)),
            r matches Err(e) ==> e == AgentError::Platform(e->Platform_0)
                && e->Platform_0@ == "Unknown content type: "@ + content_type@,
    {
        let kind = if str_eq(content_type, "text") {
            SignalKind::Text
        } else if str_eq(content_type, "image") {
            SignalKind::Image
        } else if str_eq(content_type, "video") {
            SignalKind::Video
        } else if str_eq(content_type, "audio") {
            SignalKind::Audio
        } else if str_eq(content_type, "voice") {
            SignalKind::Voice
        } else if str_eq(content_type, "file") || str_eq(content_type, "document") {
            SignalKind::File
        } else if str_eq(content_type, "location") {
            SignalKind::Location
        } else if str_eq(content_type, "contact") {
            SignalKind::Contact
        } else if str_eq(content_type, "sticker") {
            SignalKind::Sticker
        } else if str_eq(content_type, "reaction") {
            SignalKind::Reaction
        } else if str_eq(content_type, "typing") {
            SignalKind::Typing
        } else if str_eq(content_type, "remote_delete") {
            SignalKind::RemoteDelete
        } else if str_eq(content_type, "group_info") {
            SignalKind::GroupInfo
        } else {
            assert forall|k: SignalKind| !signal_kind_accepts(k, content_type@) by {
                match k {
                    SignalKind::Text => {},
                    SignalKind::Image => {},
                    SignalKind::Video => {},
                    SignalKind::Audio => {},
                    SignalKind::Voice => {},
                    SignalKind::File => {},
                    SignalKind::Location => {},
                    SignalKind::Contact => {},
                    SignalKind::Sticker => {},
                    SignalKind::Reaction => {},
                    SignalKind::Typing => {},
                    SignalKind::RemoteDelete => {},
                    SignalKind::GroupInfo => {},
                }
            }
            return Err(AgentError::Platform(message_with("Unknown content type: ", content_type)));
        };
        assert(signal_kind_accepts(kind, content_type@));
        Ok(kind)
    }

    /// Extracts plain text from any content type.
    pub fn extract_text(content: &SignalContent) -> (s: String)
        ensures
            s@ == signal_text(*content),
    {
        match content {
            SignalContent::Text(t) => t.body.clone(),
            SignalContent::Image(i) => {
                let mut s = to_owned_string("[Image] ");
                push_opt(&mut s, &i.caption);
                s
            },
            SignalContent::Video(v) => {
                let mut s = to_owned_string("[Video] ");
                push_opt(&mut s, &v.caption);
                s
            },
            SignalContent::Audio(_) => to_owned_string("[Audio]"),
            SignalContent::Voice(v) => {
                let mut s = to_owned_string("[Voice message, ");
                let ghost before = s@;
                match v.duration {
                    Some(d) => push_signed_decimal(&mut s, d as i64),
                    None => {},
                }
                assert(s@ == before + (match v.duration {
                    Some(d) => signed_decimal(d as int),
                    None => Seq::<char>::empty(),
                }));
                push_str(&mut s, "s]");
                s
            },
            SignalContent::File(f) => {
                let mut s = to_owned_string("[File: ");
                push_or(&mut s, &f.filename, "unnamed");
                push_str(&mut s, "] ");
                push_opt(&mut s, &f.caption);
                s
            },
            SignalContent::Location(l) => {
                let mut s = to_owned_string("[Location: ");
                push_str(&mut s, l.latitude.as_str());
                push_str(&mut s, ", ");
                push_str(&mut s, l.longitude.as_str());
                push_str(&mut s, "]");
                s
            },
            SignalContent::Contact(c) => {
                let mut s = to_owned_string("[Contact: ");
                push_str(&mut s, c.name.as_str());
                push_str(&mut s, "]");
                s
            },
            SignalContent::Sticker(st) => {
                let mut s = to_owned_string("[Sticker: ");
                push_opt(&mut s, &st.emoji);
                push_str(&mut s, "]");
                s
            },
            SignalContent::Reaction(r) => {
                let mut s = to_owned_string("[Reaction: ");
                push_str(&mut s, r.emoji.as_str());
                push_str(&mut s, " to message from ");
                push_str(&mut s, r.target_author.as_str());
                push_str(&mut s, "]");
                s
            },
            SignalContent::Typing(t) => {
                let mut s = to_owned_string("[Typing: ");
                push_str(&mut s, t.action.as_str());
                push_str(&mut s, "]");
                s
            },
            SignalContent::RemoteDelete(_) => to_owned_string("[Message deleted]"),
            SignalContent::GroupInfo(g) => {
                let mut s = to_owned_string("[Group: ");
                push_or(&mut s, &g.group_name, g.group_id.as_str());
                push_str(&mut s, "]");
                s
            },
        }
    }

    /// The name of the content's type.
    pub fn get_content_type(content: &SignalContent) -> (r: &'static str)
        ensures
            r@ == signal_kind_name(signal_kind_of(*content)),
    {
        match content {
            SignalContent::Text(_) => "text",
            SignalContent::Image(_) => "image",
            SignalContent::Video(_) => "video",
            SignalContent::Audio(_) => "audio",
            SignalContent::Voice(_) => "voice",
            SignalContent::File(_) => "file",
            SignalContent::Location(_) => "location",
            SignalContent::Contact(_) => "contact",
            SignalContent::Sticker(_) => "sticker",
            SignalContent::Reaction(_) => "reaction",
            SignalContent::Typing(_) => "typing",
            SignalContent::RemoteDelete(_) => "remote_delete",
            SignalContent::GroupInfo(_) => "group_info",
        }
    }

    /// Text content.
    pub fn create_text(body: &str) -> (c: SignalContent)
        ensures
            c matches SignalContent::Text(t) && t.body@ == body@ && t.quote is None
                && t.mentions is None && t.expires_in_seconds is None,
    {
        SignalContent::Text(
            SignalTextContent { body: to_owned_string(body), quote: None, mentions: None, expires_in_seconds: None },
        )
    }

    /// Image content for an attachment.
    pub fn create_image(attachment_id: &str, caption: Option<String>) -> (c: SignalContent)
        ensures
            c == SignalContent::Image(
                SignalImageContent {
                    attachment_id: c->Image_0.attachment_id,
                    file_path: None,
                    caption,
                    mime_type: None,
                    width: None,
                    height: None,
                    file_size: None,
                    view_once: None,
                },
            ),
            c->Image_0.attachment_id@ == attachment_id@,
    {
        SignalContent::Image(
            SignalImageContent {
                attachment_id: to_owned_string(attachment_id),
                file_path: None,
                caption,
                mime_type: None,
                width: None,
                height: None,
                file_size: None,
                view_once: None,
            },
        )
    }

    /// Video content for an attachment.
    pub fn create_video(attachment_id: &str, caption: Option<String>) -> (c: SignalContent)
        ensures
            c == SignalContent::Video(
                SignalVideoContent {
                    attachment_id: c->Video_0.attachment_id,
                    file_path: None,
                    caption,
                    mime_type: None,
                    width: None,
                    height: None,
                    duration: None,
                    file_size: None,
                    view_once: None,
                },
            ),
            c->Video_0.attachment_id@ == attachment_id@,
    {
        SignalContent::Video(
            SignalVideoContent {
                attachment_id: to_owned_string(attachment_id),
                file_path: None,
                caption,
                mime_type: None,
                width: None,
                height: None,
                duration: None,
                file_size: None,
                view_once: None,
            },
        )
    }

    /// File content for an attachment.
    pub fn create_file(attachment_id: &str, filename: Option<String>, caption: Option<String>) -> (c:
        SignalContent)
        ensures
            c == SignalContent::File(
                SignalFileContent {
                    attachment_id: c->File_0.attachment_id,
                    file_path: None,
                    filename,
                    mime_type: None,
                    file_size: None,
                    caption,
                },
            ),
            c->File_0.attachment_id@ == attachment_id@,
    {
        SignalContent::File(
            SignalFileContent {
                attachment_id: to_owned_string(attachment_id),
                file_path: None,
                filename,
                mime_type: None,
                file_size: None,
                caption,
            },
        )
    }

    /// Voice content for an attachment.
    pub fn create_voice(attachment_id: &str) -> (c: SignalContent)
        ensures
            c matches SignalContent::Voice(v) && v.attachment_id@ == attachment_id@
                && v.file_path is None && v.mime_type is None && v.duration is None
                && v.file_size is None,
    {
        SignalContent::Voice(
            SignalVoiceContent {
                attachment_id: to_owned_string(attachment_id),
                file_path: None,
                mime_type: None,
                duration: None,
                file_size: None,
            },
        )
    }

    /// Location content from the decimal text of its coordinates.
    pub fn create_location(latitude: String, longitude: String, name: Option<String>) -> (c: SignalContent)
        ensures
            c == SignalContent::Location(SignalLocationContent { latitude, longitude, name, address: None }),
    {
        SignalContent::Location(SignalLocationContent { latitude, longitude, name, address: None })
    }

    /// A reaction to a message.
    pub fn create_reaction(emoji: &str, target_author: &str, target_timestamp: i64) -> (c: SignalContent)
        ensures
            c matches SignalContent::Reaction(r) && r.emoji@ == emoji@
                && r.target_author@ == target_author@ && r.target_timestamp == target_timestamp
                && !r.is_remove,
    {
        SignalContent::Reaction(
            SignalReactionContent {
                emoji: to_owned_string(emoji),
                target_author: to_owned_string(target_author),
                target_timestamp,
                is_remove: false,
            },
        )
    }

    /// A typing notification.
    pub fn create_typing(action: &str, group_id: Option<String>) -> (c: SignalContent)
        ensures
            c == SignalContent::Typing(SignalTypingContent { action: c->Typing_0.action, group_id }),
            c->Typing_0.action@ == action@,
    {
        SignalContent::Typing(SignalTypingContent { action: to_owned_string(action), group_id })
    }

    /// Whether the content carries media: image, video, audio, voice,
    /// file or sticker.
    pub fn has_media(content: &SignalContent) -> (b: bool)
        ensures
            b == (*content is Image || *content is Video || *content is Audio || *content is Voice
                || *content is File || *content is Sticker),
    {
        match content {
            SignalContent::Image(_) | SignalContent::Video(_) | SignalContent::Audio(_)
            | SignalContent::Voice(_) | SignalContent::File(_) | SignalContent::Sticker(_) => true,
            _ => false,
        }
    }

    /// The attachment ID of image, video, audio, voice and file content.
    pub fn get_attachment_id(content: &SignalContent) -> (r: Option<&str>)
        ensures
            match *content {
                SignalContent::Image(i) => r matches Some(a) && a@ == i.attachment_id@,
                SignalContent::Video(v) => r matches Some(a) && a@ == v.attachment_id@,
                SignalContent::Audio(a) => r matches Some(x) && x@ == a.attachment_id@,
                SignalContent::Voice(v) => r matches Some(a) && a@ == v.attachment_id@,
                SignalContent::File(f) => r matches Some(a) && a@ == f.attachment_id@,
                _ => r is None,
            },
    {
        match content {
            SignalContent::Image(i) => Some(i.attachment_id.as_str()),
            SignalContent::Video(v) => Some(v.attachment_id.as_str()),
            SignalContent::Audio(a) => Some(a.attachment_id.as_str()),
            SignalContent::Voice(v) => Some(v.attachment_id.as_str()),
            SignalContent::File(f) => Some(f.attachment_id.as_str()),
            _ => None,
        }
    }

    /// Whether the content is a reaction.
    pub fn is_reaction(content: &SignalContent) -> (b: bool)
        ensures
            b == (*content is Reaction),
    {
        matches!(content, SignalContent::Reaction(_))
    }

    /// Whether the content is a typing notification.
    pub fn is_typing(content: &SignalContent) -> (b: bool)
        ensures
            b == (*content is Typing),
    {
        matches!(content, SignalContent::Typing(_))
    }

    /// Whether the content deletes an earlier message.
    pub fn is_remote_delete(content: &SignalContent) -> (b: bool)
        ensures
            b == (*content is RemoteDelete),
    {
        matches!(content, SignalContent::RemoteDelete(_))
    }
}

impl SignalImageContent {
    /// The unified media form of the image; the URL is the file path, or
    /// empty when there is none.
    pub fn to_media_content(&self) -> (m: MediaContent)
        ensures
            m.url@ == opt_or_empty(self.file_path) && m.width == self.width && m.height == self.height
                && m.size == self.file_size && m.mime_type == self.mime_type && m.filename is None
                && m.caption == self.caption && m.thumbnail is None && m.duration is None,
    {
        MediaContent {
            url: string_or_empty(&self.file_path),
            width: self.width,
            height: self.height,
            size: self.file_size,
            mime_type: clone_opt(&self.mime_type),
            filename: None,
            caption: clone_opt(&self.caption),
            thumbnail: None,
            duration: None,
        }
    }
}

impl SignalVideoContent {
    /// The unified media form of the video; the URL is the file path, or
    /// empty when there is none.
    pub fn to_media_content(&self) -> (m: MediaContent)
        ensures
            m.url@ == opt_or_empty(self.file_path) && m.width == self.width && m.height == self.height
                && m.duration == self.duration && m.mime_type == self.mime_type && m.filename is None
                && m.caption == self.caption && m.size == self.file_size && m.thumbnail is None,
    {
        MediaContent {
            url: string_or_empty(&self.file_path),
            width: self.width,
            height: self.height,
            duration: self.duration,
            mime_type: clone_opt(&self.mime_type),
            filename: None,
            caption: clone_opt(&self.caption),
            size: self.file_size,
            thumbnail: None,
        }
    }
}

impl SignalFileContent {
    /// The unified media form of the file; the URL is the file path, or
    /// empty when there is none.
    pub fn to_media_content(&self) -> (m: MediaContent)
        ensures
            m.url@ == opt_or_empty(self.file_path) && m.mime_type == self.mime_type
                && m.filename == self.filename && m.size == self.file_size && m.width is None
                && m.height is None && m.duration is None && m.caption == self.caption
                && m.thumbnail is None,
    {
        MediaContent {
            url: string_or_empty(&self.file_path),
            mime_type: clone_opt(&self.mime_type),
            filename: clone_opt(&self.filename),
            size: self.file_size,
            width: None,
            height: None,
            duration: None,
            caption: clone_opt(&self.caption),
            thumbnail: None,
        }
    }
}

impl SignalAudioContent {
    /// The unified media form of the audio; the URL is the file path, or
    /// empty when there is none.
    pub fn to_media_content(&self) -> (m: MediaContent)
        ensures
            m.url@ == opt_or_empty(self.file_path) && m.mime_type == self.mime_type
                && m.filename is None && m.size == self.file_size && m.duration == self.duration
                && m.width is None && m.height is None && m.caption is None && m.thumbnail is None,
    {
        MediaContent {
            url: string_or_empty(&self.file_path),
            mime_type: clone_opt(&self.mime_type),
            filename: None,
            size: self.file_size,
            duration: self.duration,
            width: None,
            height: None,
            caption: None,
            thumbnail: None,
        }
    }
}

impl SignalVoiceContent {
    /// The unified media form of the voice message; the URL is the file
    /// path, or empty when there is none.
    pub fn to_media_content(&self) -> (m: MediaContent)
        ensures
            m.url@ == opt_or_empty(self.file_path) && m.mime_type == self.mime_type
                && m.filename is None && m.size == self.file_size && m.duration == self.duration
                && m.width is None && m.height is None && m.caption is None && m.thumbnail is None,
    {
        MediaContent {
            url: string_or_empty(&self.file_path),
            mime_type: clone_opt(&self.mime_type),
            filename: None,
            size: self.file_size,
            duration: self.duration,
            width: None,
            height: None,
            caption: None,
            thumbnail: None,
        }
    }
}

/// Signal channel settings.
#[derive(Debug, Clone)]
pub struct SignalChannelConfig {
    pub phone_number: String,
    pub signal_cli_path: String,
    pub data_dir: String,
    pub socket_path: String,
    pub base: BaseChannelConfig,
}

impl Default for SignalChannelConfig {
    fn default() -> (c: Self)
        ensures
            c.phone_number@.len() == 0,
            c.signal_cli_path@ == "signal-cli"@,
            c.data_dir@ == "~/.local/share/signal-cli"@,
            c.socket_path@ == "data/signal-cli.sock"@,
            c.base.max_reconnect_attempts == 10,
    {
        SignalChannelConfig {
            phone_number: String::new(),
            signal_cli_path: to_owned_string("signal-cli"),
            data_dir: to_owned_string("~/.local/share/signal-cli"),
            socket_path: to_owned_string("data/signal-cli.sock"),
            base: BaseChannelConfig::new(),
        }
    }
}

/// An error reported by signal-cli.
#[derive(Debug, Clone)]
pub struct SignalError {
    pub code: i32,
    pub message: String,
}

/// A group a message was sent in.
#[derive(Debug, Clone)]
pub struct SignalGroupInfo {
    pub group_id: String,
    pub group_type: String,
}

/// An attachment of a received message.
#[derive(Debug, Clone)]
pub struct SignalAttachment {
    pub content_type: String,
    pub filename: String,
    pub id: String,
    pub size: i64,
}

/// The parts of a received message's envelope that the channel reads:
/// who sent it, when (milliseconds since the epoch), and its data message.
#[derive(Debug, Clone)]
pub struct SignalEnvelope {
    pub source: String,
    pub source_number: Option<String>,
    pub source_name: Option<String>,
    pub source_uuid: Option<String>,
    pub timestamp: i64,
    pub data_message: Option<SignalDataMessage>,
}

/// The data part of a received message that the channel reads: its text,
/// group and attachments.
#[derive(Debug, Clone)]
pub struct SignalDataMessage {
    pub timestamp: i64,
    pub message: Option<String>,
    pub group_info: Option<SignalGroupInfo>,
    pub attachments: Option<Vec<SignalAttachment>>,
}

/// The metadata of a received message: its source and time, then the
/// sender's name and the group where present.
pub open spec fn envelope_metadata(e: SignalEnvelope, d: SignalDataMessage) -> Seq<(Seq<char>, Seq<char>)> {
    let base = inserted(inserted(Seq::empty(), "source"@, e.source@), "timestamp"@, signed_decimal(e.timestamp as int));
    let named = match e.source_name {
        Some(n) => inserted(base, "source_name"@, n@),
        None => base,
    };
    match d.group_info {
        Some(g) => inserted(named, "group_id"@, g.group_id@),
        None => named,
    }
}

/// The text message for an envelope, with the message and thread IDs
/// given: only envelopes with a data message whose time chrono accepts
/// become messages.
pub fn convert_envelope_with_ids(envelope: &SignalEnvelope, id: u128, thread_id: u128) -> (r: Option<Message>)
    ensures
        (envelope.data_message is None || !timestamp_in_range(envelope.timestamp)) ==> r is None,
        envelope.data_message matches Some(d) ==> (timestamp_in_range(envelope.timestamp) ==> (r matches Some(m)
            && m.id == id && m.thread_id == thread_id && m.platform == PlatformType::Signal
            && m.message_type == MessageType::Text && m.content@ == opt_or_empty(d.message)
            && m.metadata@ == envelope_metadata(*envelope, d) && m.timestamp == envelope.timestamp)),
{
    let data = match &envelope.data_message {
        Some(d) => d,
        None => return None,
    };
    let content = string_or_empty(&data.message);
    let mut metadata: StrMap<String> = StrMap::new();
    metadata.insert(to_owned_string("source"), envelope.source.clone());
    let mut ts = String::new();
    push_signed_decimal(&mut ts, envelope.timestamp);
    metadata.insert(to_owned_string("timestamp"), ts);
    if let Some(name) = &envelope.source_name {
        metadata.insert(to_owned_string("source_name"), name.clone());
    }
    if let Some(group) = &data.group_info {
        metadata.insert(to_owned_string("group_id"), group.group_id.clone());
    }
    if !millis_in_range(envelope.timestamp) {
        return None;
    }
    Some(Message {
        id,
        thread_id,
        platform: PlatformType::Signal,
        message_type: MessageType::Text,
        content,
        metadata,
        timestamp: envelope.timestamp,
    })
}

/// The text message for an envelope, with fresh message and thread IDs.
pub fn convert_envelope(envelope: &SignalEnvelope) -> (r: Option<Message>)
    ensures
        r is Some <==> envelope.data_message is Some && timestamp_in_range(envelope.timestamp),
        r matches Some(m) ==> m.platform == PlatformType::Signal && m.message_type == MessageType::Text
            && m.timestamp == envelope.timestamp && (envelope.data_message matches Some(d) && m.content@
            == opt_or_empty(d.message) && m.metadata@ == envelope_metadata(*envelope, d)),
{
    convert_envelope_with_ids(envelope, new_uuid(), new_uuid())
}

impl SignalChannelConfig {
    /// Senders allowed to reach the bot; this channel sets no such list.
    pub fn allowlist(&self) -> (v: Vec<String>)
        ensures
            v@.len() == 0,
    {
        Vec::new()
    }

    /// How the channel receives messages, as the common settings say.
    pub fn connection_mode(&self) -> (m: ConnectionMode)
        ensures
            m == self.base.connection_mode,
    {
        self.base.connection_mode
    }

    /// Whether the channel reconnects after losing its connection.
    pub fn auto_reconnect(&self) -> (b: bool)
        ensures
            b == self.base.auto_reconnect,
    {
        self.base.auto_reconnect
    }

    /// How often the channel tries to reconnect before it gives up.
    pub fn max_reconnect_attempts(&self) -> (n: u32)
        ensures
            n == self.base.max_reconnect_attempts,
    {
        self.base.max_reconnect_attempts
    }

    /// Whether a phone number is set.
    pub fn is_valid(&self) -> (b: bool)
        ensures
            b == (self.phone_number@.len() > 0),
    {
        self.phone_number.as_str().unicode_len() > 0
    }
}
/// The kinds of content a Signal channel can carry.
pub fn supported_content_types() -> (v: Vec<ContentType>)
    ensures
        v@ == seq![ContentType::Text, ContentType::Image, ContentType::File, ContentType::Audio, ContentType::Video],
{
    let mut v: Vec<ContentType> = Vec::new();
    v.push(ContentType::Text);
    v.push(ContentType::Image);
    v.push(ContentType::File);
    v.push(ContentType::Audio);
    v.push(ContentType::Video);
    v
}
} // verus!
