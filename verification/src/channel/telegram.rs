//! Telegram message content: the content shapes and their media form.

use vstd::prelude::*;

use crate::content::{clone_opt, opt_or_empty, push_opt, push_text_or, text_or, ContentType, MediaContent};
use crate::error::{message_with, AgentError};
use crate::text::{push_signed_decimal, push_str, signed_decimal, str_eq, to_owned_string};

verus! {

/// Telegram message content types.
#[derive(Debug, Clone, PartialEq, Eq)]
pub enum TelegramContent {
    Text(TelegramTextContent),
    Photo(TelegramPhotoContent),
    Video(TelegramVideoContent),
    Audio(TelegramAudioContent),
    Voice(TelegramVoiceContent),
    Document(TelegramDocumentContent),
    Location(TelegramLocationContent),
    Contact(TelegramContactContent),
    Sticker(TelegramStickerContent),
    Animation(TelegramAnimationContent),
    VideoNote(TelegramVideoNoteContent),
}

/// A location. Coordinates and accuracy are kept as the decimal text they
/// are shown as; nothing here computes with them.
#[derive(Debug, Clone, PartialEq, Eq, Default)]
pub struct TelegramLocationContent {
    pub longitude: String,
    pub latitude: String,
    pub horizontal_accuracy: Option<String>,
    pub live_period: Option<i32>,
}

/// Text content with its formatting entities.
#[derive(Debug, Clone, PartialEq, Eq, Default)]
pub struct TelegramTextContent {
    pub text: String,
    pub entities: Option<Vec<TelegramMessageEntity>>,
}

/// A formatting entity (mention, link, code, ...) within a text.
#[derive(Debug, Clone, PartialEq, Eq)]
pub struct TelegramMessageEntity {
    pub entity_type: String,
    pub offset: i32,
    pub length: i32,
    pub url: Option<String>,
    pub user: Option<TelegramUser>,
    pub language: Option<String>,
}

/// A Telegram user.
#[derive(Debug, Clone, PartialEq, Eq)]
pub struct TelegramUser {
    pub id: i64,
    pub is_bot: bool,
    pub first_name: String,
    pub last_name: Option<String>,
    pub username: Option<String>,
    pub language_code: Option<String>,
}

/// A photo, in several sizes.
#[derive(Debug, Clone, PartialEq, Eq, Default)]
pub struct TelegramPhotoContent {
    pub photos: Vec<TelegramPhotoSize>,
    pub caption: Option<String>,
    pub caption_entities: Option<Vec<TelegramMessageEntity>>,
}

/// One size of a photo.
#[derive(Debug, Clone, PartialEq, Eq)]
pub struct TelegramPhotoSize {
    pub file_id: String,
    pub file_unique_id: String,
    pub width: i32,
    pub height: i32,
    pub file_size: Option<i64>,
}

/// A video.
#[derive(Debug, Clone, PartialEq, Eq, Default)]
pub struct TelegramVideoContent {
    pub video: TelegramVideoFile,
    pub caption: Option<String>,
    pub caption_entities: Option<Vec<TelegramMessageEntity>>,
}

/// A video file.
#[derive(Debug, Clone, PartialEq, Eq, Default)]
pub struct TelegramVideoFile {
    pub file_id: String,
    pub file_unique_id: String,
    pub width: i32,
    pub height: i32,
    pub duration: i32,
    pub thumbnail: Option<TelegramPhotoSize>,
    pub file_name: Option<String>,
    pub mime_type: Option<String>,
    pub file_size: Option<i64>,
}

/// An audio file with a caption.
#[derive(Debug, Clone, PartialEq, Eq, Default)]
pub struct TelegramAudioContent {
    pub audio: TelegramAudioFile,
    pub caption: Option<String>,
}

/// An audio file.
#[derive(Debug, Clone, PartialEq, Eq, Default)]
pub struct TelegramAudioFile {
    pub file_id: String,
    pub file_unique_id: String,
    pub duration: i32,
    pub performer: Option<String>,
    pub title: Option<String>,
    pub file_name: Option<String>,
    pub mime_type: Option<String>,
    pub file_size: Option<i64>,
    pub thumbnail: Option<TelegramPhotoSize>,
}

/// A voice message.
#[derive(Debug, Clone, PartialEq, Eq, Default)]
pub struct TelegramVoiceContent {
    pub voice: TelegramVoiceFile,
    pub caption: Option<String>,
}

/// A voice recording.
#[derive(Debug, Clone, PartialEq, Eq, Default)]
pub struct TelegramVoiceFile {
    pub file_id: String,
    pub file_unique_id: String,
    pub duration: i32,
    pub mime_type: Option<String>,
    pub file_size: Option<i64>,
}

/// A document.
#[derive(Debug, Clone, PartialEq, Eq, Default)]
pub struct TelegramDocumentContent {
    pub document: TelegramDocumentFile,
    pub caption: Option<String>,
    pub caption_entities: Option<Vec<TelegramMessageEntity>>,
}

/// A document file.
#[derive(Debug, Clone, PartialEq, Eq, Default)]
pub struct TelegramDocumentFile {
    pub file_id: String,
    pub file_unique_id: String,
    pub thumbnail: Option<TelegramPhotoSize>,
    pub file_name: Option<String>,
    pub mime_type: Option<String>,
    pub file_size: Option<i64>,
}

/// A shared contact.
#[derive(Debug, Clone, PartialEq, Eq, Default)]
pub struct TelegramContactContent {
    pub phone_number: String,
    pub first_name: String,
    pub last_name: Option<String>,
    pub user_id: Option<i64>,
    pub vcard: Option<String>,
}

/// A sticker.
#[derive(Debug, Clone, PartialEq, Eq, Default)]
pub struct TelegramStickerContent {
    pub sticker: TelegramStickerFile,
}

/// A sticker file.
#[derive(Debug, Clone, PartialEq, Eq, Default)]
pub struct TelegramStickerFile {
    pub file_id: String,
    pub file_unique_id: String,
    pub sticker_type: String,
    pub width: i32,
    pub height: i32,
    pub is_animated: bool,
    pub is_video: bool,
    pub thumbnail: Option<TelegramPhotoSize>,
    pub emoji: Option<String>,
    pub set_name: Option<String>,
    pub file_size: Option<i64>,
}

/// An animation (GIF or silent video).
#[derive(Debug, Clone, PartialEq, Eq, Default)]
pub struct TelegramAnimationContent {
    pub animation: TelegramAnimationFile,
    pub caption: Option<String>,
}

/// An animation file.
#[derive(Debug, Clone, PartialEq, Eq, Default)]
pub struct TelegramAnimationFile {
    pub file_id: String,
    pub file_unique_id: String,
    pub width: i32,
    pub height: i32,
    pub duration: i32,
    pub thumbnail: Option<TelegramPhotoSize>,
    pub file_name: Option<String>,
    pub mime_type: Option<String>,
    pub file_size: Option<i64>,
}

/// A round video note.
#[derive(Debug, Clone, PartialEq, Eq, Default)]
pub struct TelegramVideoNoteContent {
    pub video_note: TelegramVideoNoteFile,
}

/// A video note file.
#[derive(Debug, Clone, PartialEq, Eq, Default)]
pub struct TelegramVideoNoteFile {
    pub file_id: String,
    pub file_unique_id: String,
    pub length: i32,
    pub duration: i32,
    pub thumbnail: Option<TelegramPhotoSize>,
    pub file_size: Option<i64>,
}

/// Telegram content parser.
#[derive(Debug, Clone, Copy, Default)]
pub struct TelegramContentParser;

/// The kinds of Telegram content, one per variant.
#[derive(Debug, Clone, Copy, PartialEq, Eq, Structural)]
pub enum TelegramKind {
    Text,
    Photo,
    Video,
    Audio,
    Voice,
    Document,
    Location,
    Contact,
    Sticker,
    Animation,
    VideoNote,
}

/// The name of a kind.
pub open spec fn telegram_kind_name(k: TelegramKind) -> Seq<char> {
    match k {
        TelegramKind::Text => "text"@,
        TelegramKind::Photo => "photo"@,
        TelegramKind::Video => "video"@,
        TelegramKind::Audio => "audio"@,
        TelegramKind::Voice => "voice"@,
        TelegramKind::Document => "document"@,
        TelegramKind::Location => "location"@,
        TelegramKind::Contact => "contact"@,
        TelegramKind::Sticker => "sticker"@,
        TelegramKind::Animation => "animation"@,
        TelegramKind::VideoNote => "video_note"@,
    }
}

/// The kind of a content value.
pub open spec fn telegram_kind_of(c: TelegramContent) -> TelegramKind {
    match c {
        TelegramContent::Text(_) => TelegramKind::Text,
        TelegramContent::Photo(_) => TelegramKind::Photo,
        TelegramContent::Video(_) => TelegramKind::Video,
        TelegramContent::Audio(_) => TelegramKind::Audio,
        TelegramContent::Voice(_) => TelegramKind::Voice,
        TelegramContent::Document(_) => TelegramKind::Document,
        TelegramContent::Location(_) => TelegramKind::Location,
        TelegramContent::Contact(_) => TelegramKind::Contact,
        TelegramContent::Sticker(_) => TelegramKind::Sticker,
        TelegramContent::Animation(_) => TelegramKind::Animation,
        TelegramContent::VideoNote(_) => TelegramKind::VideoNote,
    }
}

/// What `{:?}` shows for a string: the text quoted and escaped.
pub uninterp spec fn debug_quoted(s: Seq<char>) -> Seq<char>;

/// Formats a string with `Debug` (`format!("{:?}", ..)`): the text in
/// double quotes with special characters escaped. The contract claims only
/// that the result depends on the text alone.
#[verifier::external_body]
fn debug_string(s: &str) -> (r: String)
    ensures
        r@ == debug_quoted(s@),
{
    format!("{:?}", s)
}

/// What `{:?}` shows for an optional emoji.
pub open spec fn debug_option(o: Option<String>) -> Seq<char> {
    match o {
        Some(e) => "Some("@ + debug_quoted(e@) + ")"@,
        None => "None"@,
    }
}

/// The caption shown after a media tag.
pub open spec fn caption_of(c: Option<String>) -> Seq<char> {
    text_or(c, "(no caption)"@)
}

/// A duration tag: the label, the seconds and `s]`.
pub open spec fn seconds_tag(label: Seq<char>, seconds: i32) -> Seq<char> {
    label + signed_decimal(seconds as int) + "s]"@
}

/// The plain-text rendering of Telegram content.
pub open spec fn telegram_text(c: TelegramContent) -> Seq<char> {
    match c {
        TelegramContent::Text(t) => t.text@,
        TelegramContent::Photo(p) => "[Photo] "@ + caption_of(p.caption),
        TelegramContent::Video(v) => seconds_tag("[Video: "@, v.video.duration) + " "@ + caption_of(v.caption),
        TelegramContent::Audio(a) => "[Audio: "@ + text_or(a.audio.performer, "Unknown"@) + " - "@ + text_or(
            a.audio.title,
            "Unknown"@,
        ) + "] "@ + caption_of(a.caption),
        TelegramContent::Voice(v) => seconds_tag("[Voice: "@, v.voice.duration) + " "@ + caption_of(v.caption),
        TelegramContent::Document(d) => "[File: "@ + text_or(d.document.file_name, "unnamed"@) + "] "@ + caption_of(
            d.caption,
        ),
        TelegramContent::Location(l) => "[Location: "@ + l.latitude@ + ", "@ + l.longitude@ + "]"@,
        TelegramContent::Contact(c) => "[Contact: "@ + c.first_name@ + " "@ + opt_or_empty(c.last_name) + " - "@
            + c.phone_number@ + "]"@,
        TelegramContent::Sticker(s) => "[Sticker: "@ + debug_option(s.sticker.emoji) + "]"@,
        TelegramContent::Animation(a) => seconds_tag("[Animation: "@, a.animation.duration) + " "@ + caption_of(
            a.caption,
        ),
        TelegramContent::VideoNote(n) => seconds_tag("[Video Note: "@, n.video_note.duration),
    }
}

/// The unified content type of Telegram content.
pub open spec fn telegram_content_type(c: TelegramContent) -> ContentType {
    match c {
        TelegramContent::Text(_) => ContentType::Text,
        TelegramContent::Photo(_) => ContentType::Image,
        TelegramContent::Video(_) => ContentType::Video,
        TelegramContent::Audio(_) => ContentType::Audio,
        TelegramContent::Voice(_) => ContentType::Audio,
        TelegramContent::Document(_) => ContentType::File,
        TelegramContent::Location(_) => ContentType::Location,
        TelegramContent::Contact(_) => ContentType::Contact,
        TelegramContent::Sticker(_) => ContentType::Sticker,
        TelegramContent::Animation(_) => ContentType::Video,
        TelegramContent::VideoNote(_) => ContentType::Video,
    }
}

fn seconds(label: &str, n: i32) -> (s: String)
    ensures
        s@ == seconds_tag(label@, n),
{
    let mut s = to_owned_string(label);
    push_signed_decimal(&mut s, n as i64);
    push_str(&mut s, "s]");
    s
}

fn with_caption(mut s: String, caption: &Option<String>) -> (r: String)
    ensures
        r@ == s@ + " "@ + caption_of(*caption),
{
    push_str(&mut s, " ");
    push_text_or(&mut s, caption, "(no caption)");
    s
}

impl TelegramContent {
    /// The unified content type of this content.
    pub fn content_type(&self) -> (t: ContentType)
        ensures
            t == telegram_content_type(*self),
    {
        match self {
            TelegramContent::Text(_) => ContentType::Text,
            TelegramContent::Photo(_) => ContentType::Image,
            TelegramContent::Video(_) => ContentType::Video,
            TelegramContent::Audio(_) => ContentType::Audio,
            TelegramContent::Voice(_) => ContentType::Audio,
            TelegramContent::Document(_) => ContentType::File,
            TelegramContent::Location(_) => ContentType::Location,
            TelegramContent::Contact(_) => ContentType::Contact,
            TelegramContent::Sticker(_) => ContentType::Sticker,
            TelegramContent::Animation(_) => ContentType::Video,
            TelegramContent::VideoNote(_) => ContentType::Video,
        }
    }

    /// The plain-text rendering of this content.
    pub fn extract_text(&self) -> (s: String)
        ensures
            s@ == telegram_text(*self),
    {
        TelegramContentParser::extract_text(self)
    }
}

impl TelegramContentParser {
    /// Creates a parser.
    pub fn new() -> Self {
        TelegramContentParser
    }

    /// The kind named by a content type, or the error for an unknown name.
    pub fn content_kind(content_type: &str) -> (r: Result<TelegramKind, AgentError>)
        ensures
            r matches Ok(k) ==> telegram_kind_name(k) == content_type@,
            r is Err <==> (forall|k: TelegramKind| telegram_kind_name(k) != content_type@),
            r matches Err(e) ==> e == AgentError::Platform(e->Platform_0)
                && e->Platform_0@ == "Unknown content type: "@ + content_type@,
    {
        let kind = if str_eq(content_type, "text") {
            TelegramKind::Text
        } else if str_eq(content_type, "photo") {
            TelegramKind::Photo
        } else if str_eq(content_type, "video") {
            TelegramKind::Video
        } else if str_eq(content_type, "audio") {
            TelegramKind::Audio
        } else if str_eq(content_type, "voice") {
            TelegramKind::Voice
        } else if str_eq(content_type, "document") {
            TelegramKind::Document
        } else if str_eq(content_type, "location") {
            TelegramKind::Location
        } else if str_eq(content_type, "contact") {
            TelegramKind::Contact
        } else if str_eq(content_type, "sticker") {
            TelegramKind::Sticker
        } else if str_eq(content_type, "animation") {
            TelegramKind::Animation
        } else if str_eq(content_type, "video_note") {
            TelegramKind::VideoNote
        } else {
            assert forall|k: TelegramKind| telegram_kind_name(k) != content_type@ by {
                match k {
                    TelegramKind::Text => {},
                    TelegramKind::Photo => {},
                    TelegramKind::Video => {},
                    TelegramKind::Audio => {},
                    TelegramKind::Voice => {},
                    TelegramKind::Document => {},
                    TelegramKind::Location => {},
                    TelegramKind::Contact => {},
                    TelegramKind::Sticker => {},
                    TelegramKind::Animation => {},
                    TelegramKind::VideoNote => {},
                }
            }
            return Err(AgentError::Platform(message_with("Unknown content type: ", content_type)));
        };
        assert(telegram_kind_name(kind) == content_type@);
        Ok(kind)
    }

    /// Extracts plain text from any content type.
    pub fn extract_text(content: &TelegramContent) -> (s: String)
        ensures
            s@ == telegram_text(*content),
    {
        match content {
            TelegramContent::Text(t) => t.text.clone(),
            TelegramContent::Photo(p) => {
                let mut s = to_owned_string("[Photo] ");
                push_text_or(&mut s, &p.caption, "(no caption)");
                s
            },
            TelegramContent::Video(v) => with_caption(seconds("[Video: ", v.video.duration), &v.caption),
            TelegramContent::Audio(a) => {
                let mut s = to_owned_string("[Audio: ");
                push_text_or(&mut s, &a.audio.performer, "Unknown");
                push_str(&mut s, " - ");
                push_text_or(&mut s, &a.audio.title, "Unknown");
                push_str(&mut s, "] ");
                push_text_or(&mut s, &a.caption, "(no caption)");
                s
            },
            TelegramContent::Voice(v) => with_caption(seconds("[Voice: ", v.voice.duration), &v.caption),
            TelegramContent::Document(d) => {
                let mut s = to_owned_string("[File: ");
                push_text_or(&mut s, &d.document.file_name, "unnamed");
                push_str(&mut s, "] ");
                push_text_or(&mut s, &d.caption, "(no caption)");
                s
            },
            TelegramContent::Location(l) => {
                let mut s = to_owned_string("[Location: ");
                push_str(&mut s, l.latitude.as_str());
                push_str(&mut s, ", ");
                push_str(&mut s, l.longitude.as_str());
                push_str(&mut s, "]");
                s
            },
            TelegramContent::Contact(c) => {
                let mut s = to_owned_string("[Contact: ");
                push_str(&mut s, c.first_name.as_str());
                push_str(&mut s, " ");
                push_opt(&mut s, &c.last_name);
                push_str(&mut s, " - ");
                push_str(&mut s, c.phone_number.as_str());
                push_str(&mut s, "]");
                s
            },
            TelegramContent::Sticker(st) => {
                let mut s = to_owned_string("[Sticker: ");
                match &st.sticker.emoji {
                    Some(e) => {
                        push_str(&mut s, "Some(");
                        let d = debug_string(e.as_str());
                        push_str(&mut s, d.as_str());
                        push_str(&mut s, ")");
                    },
                    None => push_str(&mut s, "None"),
                }
                push_str(&mut s, "]");
                s
            },
            TelegramContent::Animation(a) => with_caption(seconds("[Animation: ", a.animation.duration), &a.caption),
            TelegramContent::VideoNote(n) => seconds("[Video Note: ", n.video_note.duration),
        }
    }

    /// The file ID of media content; for a photo, that of its largest
    /// size.
    pub fn get_file_id(content: &TelegramContent) -> (r: Option<&str>)
        ensures
            match *content {
                TelegramContent::Photo(p) => (p.photos@.len() == 0 ==> r is None) && (p.photos@.len() > 0
                    ==> exists|i: int| is_largest(p.photos@, i) && (r matches Some(f) && f@ == p.photos@[i].file_id@)),
                TelegramContent::Video(v) => r matches Some(f) && f@ == v.video.file_id@,
                TelegramContent::Audio(a) => r matches Some(f) && f@ == a.audio.file_id@,
                TelegramContent::Voice(v) => r matches Some(f) && f@ == v.voice.file_id@,
                TelegramContent::Document(d) => r matches Some(f) && f@ == d.document.file_id@,
                TelegramContent::Sticker(s) => r matches Some(f) && f@ == s.sticker.file_id@,
                TelegramContent::Animation(a) => r matches Some(f) && f@ == a.animation.file_id@,
                TelegramContent::VideoNote(n) => r matches Some(f) && f@ == n.video_note.file_id@,
                _ => r is None,
            },
    {
        match content {
            TelegramContent::Photo(p) => match largest_photo(&p.photos) {
                Some(i) => Some(p.photos[i].file_id.as_str()),
                None => None,
            },
            TelegramContent::Video(v) => Some(v.video.file_id.as_str()),
            TelegramContent::Audio(a) => Some(a.audio.file_id.as_str()),
            TelegramContent::Voice(v) => Some(v.voice.file_id.as_str()),
            TelegramContent::Document(d) => Some(d.document.file_id.as_str()),
            TelegramContent::Sticker(s) => Some(s.sticker.file_id.as_str()),
            TelegramContent::Animation(a) => Some(a.animation.file_id.as_str()),
            TelegramContent::VideoNote(n) => Some(n.video_note.file_id.as_str()),
            _ => None,
        }
    }

    /// The file size of media content; for a photo, that of its largest
    /// size.
    pub fn get_file_size(content: &TelegramContent) -> (r: Option<i64>)
        ensures
            match *content {
                TelegramContent::Photo(p) => (p.photos@.len() == 0 ==> r is None) && (p.photos@.len() > 0
                    ==> exists|i: int| is_largest(p.photos@, i) && r == p.photos@[i].file_size),
                TelegramContent::Video(v) => r == v.video.file_size,
                TelegramContent::Audio(a) => r == a.audio.file_size,
                TelegramContent::Voice(v) => r == v.voice.file_size,
                TelegramContent::Document(d) => r == d.document.file_size,
                TelegramContent::Sticker(s) => r == s.sticker.file_size,
                TelegramContent::Animation(a) => r == a.animation.file_size,
                TelegramContent::VideoNote(n) => r == n.video_note.file_size,
                _ => r is None,
            },
    {
        match content {
            TelegramContent::Photo(p) => match largest_photo(&p.photos) {
                Some(i) => p.photos[i].file_size,
                None => None,
            },
            TelegramContent::Video(v) => v.video.file_size,
            TelegramContent::Audio(a) => a.audio.file_size,
            TelegramContent::Voice(v) => v.voice.file_size,
            TelegramContent::Document(d) => d.document.file_size,
            TelegramContent::Sticker(s) => s.sticker.file_size,
            TelegramContent::Animation(a) => a.animation.file_size,
            TelegramContent::VideoNote(n) => n.video_note.file_size,
            _ => None,
        }
    }

    /// The MIME type of video, audio, voice, document and animation
    /// content, where known.
    pub fn get_mime_type(content: &TelegramContent) -> (r: Option<&str>)
        ensures
            match *content {
                TelegramContent::Video(v) => same_text(r, v.video.mime_type),
                TelegramContent::Audio(a) => same_text(r, a.audio.mime_type),
                TelegramContent::Voice(v) => same_text(r, v.voice.mime_type),
                TelegramContent::Document(d) => same_text(r, d.document.mime_type),
                TelegramContent::Animation(a) => same_text(r, a.animation.mime_type),
                _ => r is None,
            },
    {
        match content {
            TelegramContent::Video(v) => as_text(&v.video.mime_type),
            TelegramContent::Audio(a) => as_text(&a.audio.mime_type),
            TelegramContent::Voice(v) => as_text(&v.voice.mime_type),
            TelegramContent::Document(d) => as_text(&d.document.mime_type),
            TelegramContent::Animation(a) => as_text(&a.animation.mime_type),
            _ => None,
        }
    }

    /// The name of the content's type.
    pub fn get_content_type(content: &TelegramContent) -> (r: &'static str)
        ensures
            r@ == telegram_kind_name(telegram_kind_of(*content)),
    {
        match content {
            TelegramContent::Text(_) => "text",
            TelegramContent::Photo(_) => "photo",
            TelegramContent::Video(_) => "video",
            TelegramContent::Audio(_) => "audio",
            TelegramContent::Voice(_) => "voice",
            TelegramContent::Document(_) => "document",
            TelegramContent::Location(_) => "location",
            TelegramContent::Contact(_) => "contact",
            TelegramContent::Sticker(_) => "sticker",
            TelegramContent::Animation(_) => "animation",
            TelegramContent::VideoNote(_) => "video_note",
        }
    }

    /// Text content.
    pub fn create_text(text: &str) -> (c: TelegramContent)
        ensures
            c matches TelegramContent::Text(t) && t.text@ == text@ && t.entities is None,
    {
        TelegramContent::Text(TelegramTextContent { text: to_owned_string(text), entities: None })
    }

    /// Photo content.
    pub fn create_photo(photos: Vec<TelegramPhotoSize>, caption: Option<String>) -> (c: TelegramContent)
        ensures
            c == TelegramContent::Photo(TelegramPhotoContent { photos, caption, caption_entities: None }),
    {
        TelegramContent::Photo(TelegramPhotoContent { photos, caption, caption_entities: None })
    }

    /// Video content.
    pub fn create_video(video: TelegramVideoFile, caption: Option<String>) -> (c: TelegramContent)
        ensures
            c == TelegramContent::Video(TelegramVideoContent { video, caption, caption_entities: None }),
    {
        TelegramContent::Video(TelegramVideoContent { video, caption, caption_entities: None })
    }

    /// Audio content.
    pub fn create_audio(audio: TelegramAudioFile, caption: Option<String>) -> (c: TelegramContent)
        ensures
            c == TelegramContent::Audio(TelegramAudioContent { audio, caption }),
    {
        TelegramContent::Audio(TelegramAudioContent { audio, caption })
    }

    /// Voice content.
    pub fn create_voice(voice: TelegramVoiceFile, caption: Option<String>) -> (c: TelegramContent)
        ensures
            c == TelegramContent::Voice(TelegramVoiceContent { voice, caption }),
    {
        TelegramContent::Voice(TelegramVoiceContent { voice, caption })
    }

    /// Document content.
    pub fn create_document(document: TelegramDocumentFile, caption: Option<String>) -> (c: TelegramContent)
        ensures
            c == TelegramContent::Document(TelegramDocumentContent { document, caption, caption_entities: None }),
    {
        TelegramContent::Document(TelegramDocumentContent { document, caption, caption_entities: None })
    }

    /// Location content from the decimal text of its coordinates.
    pub fn create_location(latitude: String, longitude: String) -> (c: TelegramContent)
        ensures
            c == TelegramContent::Location(
                TelegramLocationContent { latitude, longitude, horizontal_accuracy: None, live_period: None },
            ),
    {
        TelegramContent::Location(
            TelegramLocationContent { latitude, longitude, horizontal_accuracy: None, live_period: None },
        )
    }

    /// Contact content.
    pub fn create_contact(phone_number: &str, first_name: &str) -> (c: TelegramContent)
        ensures
            c matches TelegramContent::Contact(k) && k.phone_number@ == phone_number@
                && k.first_name@ == first_name@ && k.last_name is None && k.user_id is None
                && k.vcard is None,
    {
        TelegramContent::Contact(
            TelegramContactContent {
                phone_number: to_owned_string(phone_number),
                first_name: to_owned_string(first_name),
                last_name: None,
                user_id: None,
                vcard: None,
            },
        )
    }

    /// Sticker content.
    pub fn create_sticker(sticker: TelegramStickerFile) -> (c: TelegramContent)
        ensures
            c == TelegramContent::Sticker(TelegramStickerContent { sticker }),
    {
        TelegramContent::Sticker(TelegramStickerContent { sticker })
    }
}

/// Whether an optional text is the given optional string.
pub open spec fn same_text(r: Option<&str>, o: Option<String>) -> bool {
    match o {
        Some(s) => r matches Some(x) && x@ == s@,
        None => r is None,
    }
}

fn as_text(o: &Option<String>) -> (r: Option<&str>)
    ensures
        same_text(r, *o),
{
    match o {
        Some(s) => Some(s.as_str()),
        None => None,
    }
}

/// The size by which photo sizes are compared: the file size, or 0 when
/// unknown.
pub open spec fn photo_key(p: TelegramPhotoSize) -> i64 {
    match p.file_size {
        Some(s) => s,
        None => 0,
    }
}

/// Whether `i` is the position of the largest photo size: no size is
/// larger, and every later one is smaller (the last of equal largest ones
/// wins).
pub open spec fn is_largest(photos: Seq<TelegramPhotoSize>, i: int) -> bool {
    &&& 0 <= i < photos.len()
    &&& forall|j: int| 0 <= j < photos.len() ==> photo_key(photos[j]) <= photo_key(photos[i])
    &&& forall|j: int| i < j < photos.len() ==> photo_key(photos[j]) < photo_key(photos[i])
}

fn size_key(p: &TelegramPhotoSize) -> (k: i64)
    ensures
        k == photo_key(*p),
{
    match p.file_size {
        Some(s) => s,
        None => 0,
    }
}

/// The position of the largest photo size, if there are any.
pub fn largest_photo(photos: &Vec<TelegramPhotoSize>) -> (r: Option<usize>)
    ensures
        photos@.len() == 0 <==> r is None,
        r matches Some(i) ==> is_largest(photos@, i as int),
{
    if photos.len() == 0 {
        return None;
    }
    let mut best: usize = 0;
    let mut i: usize = 1;
    while i < photos.len()
        invariant
            1 <= i <= photos.len(),
            best < i,
            forall|j: int| 0 <= j < i ==> photo_key(photos@[j]) <= photo_key(photos@[best as int]),
            forall|j: int| best < j < i ==> photo_key(photos@[j]) < photo_key(photos@[best as int]),
        decreases photos.len() - i,
    {
        if size_key(&photos[i]) >= size_key(&photos[best]) {
            best = i;
        }
        i = i + 1;
    }
    Some(best)
}

impl TelegramPhotoContent {
    /// The unified media form of the largest photo size (the file ID
    /// stands for the URL); empty when there are no sizes.
    pub fn to_media_content(&self) -> (m: MediaContent)
        ensures
            self.photos@.len() == 0 ==> m.url@.len() == 0 && m.width is None && m.height is None
                && m.size is None,
            self.photos@.len() > 0 ==> exists|i: int|
                is_largest(self.photos@, i) && m.url == self.photos@[i].file_id && m.width == Some(
                    self.photos@[i].width,
                ) && m.height == Some(self.photos@[i].height) && m.size == self.photos@[i].file_size,
            m.caption == self.caption,
            m.mime_type is None && m.filename is None && m.thumbnail is None && m.duration is None,
    {
        match largest_photo(&self.photos) {
            Some(i) => {
                let p = &self.photos[i];
                MediaContent {
                    url: p.file_id.clone(),
                    width: Some(p.width),
                    height: Some(p.height),
                    size: p.file_size,
                    mime_type: None,
                    filename: None,
                    caption: clone_opt(&self.caption),
                    thumbnail: None,
                    duration: None,
                }
            },
            None => MediaContent {
                url: String::new(),
                width: None,
                height: None,
                size: None,
                mime_type: None,
                filename: None,
                caption: clone_opt(&self.caption),
                thumbnail: None,
                duration: None,
            },
        }
    }
}

/// The file ID of an optional thumbnail.
pub open spec fn thumbnail_id(t: Option<TelegramPhotoSize>) -> Option<String> {
    match t {
        Some(p) => Some(p.file_id),
        None => None,
    }
}

fn thumbnail_file_id(t: &Option<TelegramPhotoSize>) -> (r: Option<String>)
    ensures
        r == thumbnail_id(*t),
{
    match t {
        Some(p) => Some(p.file_id.clone()),
        None => None,
    }
}

impl TelegramVideoContent {
    /// The unified media form of the video (the file ID stands for the
    /// URL).
    pub fn to_media_content(&self) -> (m: MediaContent)
        ensures
            m.url == self.video.file_id && m.width == Some(self.video.width)
                && m.height == Some(self.video.height) && m.duration == Some(self.video.duration)
                && m.mime_type == self.video.mime_type && m.filename == self.video.file_name
                && m.caption == self.caption && m.size == self.video.file_size
                && m.thumbnail == thumbnail_id(self.video.thumbnail),
    {
        MediaContent {
            url: self.video.file_id.clone(),
            width: Some(self.video.width),
            height: Some(self.video.height),
            duration: Some(self.video.duration),
            mime_type: clone_opt(&self.video.mime_type),
            filename: clone_opt(&self.video.file_name),
            caption: clone_opt(&self.caption),
            size: self.video.file_size,
            thumbnail: thumbnail_file_id(&self.video.thumbnail),
        }
    }
}

impl TelegramDocumentContent {
    /// The unified media form of the document (the file ID stands for the
    /// URL).
    pub fn to_media_content(&self) -> (m: MediaContent)
        ensures
            m.url == self.document.file_id && m.mime_type == self.document.mime_type
                && m.filename == self.document.file_name && m.size == self.document.file_size
                && m.width is None && m.height is None && m.duration is None
                && m.caption == self.caption && m.thumbnail == thumbnail_id(self.document.thumbnail),
    {
        MediaContent {
            url: self.document.file_id.clone(),
            mime_type: clone_opt(&self.document.mime_type),
            filename: clone_opt(&self.document.file_name),
            size: self.document.file_size,
            width: None,
            height: None,
            duration: None,
            caption: clone_opt(&self.caption),
            thumbnail: thumbnail_file_id(&self.document.thumbnail),
        }
    }
}

} // verus!
