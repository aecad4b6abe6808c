//! WhatsApp message content: the content variants, their text rendering,
//! constructors, queries and media form.

use vstd::prelude::*;

use crate::content::{BaseChannelConfig, clone_opt, opt_or_empty, string_or_empty, ConnectionMode, ContentType, MediaContent};
use crate::error::{message_with, AgentError};
use crate::text::{join_seq, join_strings, push_signed_decimal, push_str, signed_decimal, str_eq, to_owned_string, views};

verus! {

/// WhatsApp message content types.
#[derive(Debug)]
pub enum WhatsAppContent {
    Text(WhatsAppTextContent),
    Image(WhatsAppImageContent),
    Video(WhatsAppVideoContent),
    Audio(WhatsAppAudioContent),
    Voice(WhatsAppVoiceContent),
    Document(WhatsAppDocumentContent),
    Location(WhatsAppLocationContent),
    Contacts(WhatsAppContactsContent),
    Sticker(WhatsAppStickerContent),
    Interactive(WhatsAppInteractiveContent),
    Template(WhatsAppTemplateContent),
    Reaction(WhatsAppReactionContent),
}

/// Text content, possibly quoting an earlier text.
#[derive(Debug)]
pub struct WhatsAppTextContent {
    pub body: String,
    pub preview_url: Option<bool>,
    pub quoted_message: Option<Box<WhatsAppTextContent>>,
}

/// An image.
#[derive(Debug, Clone, PartialEq, Eq, Default)]
pub struct WhatsAppImageContent {
    pub file_path: Option<String>,
    pub url: Option<String>,
    pub caption: Option<String>,
    pub mime_type: Option<String>,
    pub width: Option<i32>,
    pub height: Option<i32>,
    pub file_size: Option<i64>,
}

/// A video.
#[derive(Debug, Clone, PartialEq, Eq, Default)]
pub struct WhatsAppVideoContent {
    pub file_path: Option<String>,
    pub url: Option<String>,
    pub caption: Option<String>,
    pub mime_type: Option<String>,
    pub width: Option<i32>,
    pub height: Option<i32>,
    pub duration: Option<i32>,
    pub file_size: Option<i64>,
}

/// An audio file.
#[derive(Debug, Clone, PartialEq, Eq, Default)]
pub struct WhatsAppAudioContent {
    pub file_path: Option<String>,
    pub url: Option<String>,
    pub mime_type: Option<String>,
    pub duration: Option<i32>,
    pub file_size: Option<i64>,
}

/// A voice note, with its waveform if known.
#[derive(Debug, Clone, PartialEq, Eq, Default)]
pub struct WhatsAppVoiceContent {
    pub file_path: Option<String>,
    pub url: Option<String>,
    pub mime_type: Option<String>,
    pub duration: Option<i32>,
    pub file_size: Option<i64>,
    pub waveform: Option<Vec<u8>>,
}

/// A document.
#[derive(Debug, Clone, PartialEq, Eq, Default)]
pub struct WhatsAppDocumentContent {
    pub file_path: Option<String>,
    pub url: Option<String>,
    pub caption: Option<String>,
    pub filename: Option<String>,
    pub mime_type: Option<String>,
    pub file_size: Option<i64>,
}

/// A location. Latitude and longitude are kept as the decimal text they
/// are shown as; nothing here computes with them.
#[derive(Debug, Clone, PartialEq, Eq, Default)]
pub struct WhatsAppLocationContent {
    pub latitude: String,
    pub longitude: String,
    pub name: Option<String>,
    pub address: Option<String>,
    pub url: Option<String>,
}

/// Shared contacts.
#[derive(Debug, Clone, PartialEq, Eq, Default)]
pub struct WhatsAppContactsContent {
    pub contacts: Vec<WhatsAppContact>,
}

/// A shared contact.
#[derive(Debug, Clone, PartialEq, Eq)]
pub struct WhatsAppContact {
    pub display_name: String,
    pub vcard: String,
    pub phone_number: Option<String>,
    pub organization: Option<String>,
}

/// A sticker.
#[derive(Debug, Clone, PartialEq, Eq, Default)]
pub struct WhatsAppStickerContent {
    pub file_path: Option<String>,
    pub mime_type: Option<String>,
    pub file_size: Option<i64>,
    pub animated: Option<bool>,
    pub emoji: Option<String>,
}

/// An interactive message: list or buttons.
#[derive(Debug, Clone, PartialEq, Eq)]
pub struct WhatsAppInteractiveContent {
    pub interactive_type: String,
    pub header: Option<WhatsAppInteractiveHeader>,
    pub body: WhatsAppInteractiveBody,
    pub footer: Option<WhatsAppInteractiveFooter>,
    pub action: WhatsAppInteractiveAction,
}

/// The header of an interactive message.
#[derive(Debug, Clone, PartialEq, Eq)]
pub struct WhatsAppInteractiveHeader {
    pub header_type: String,
    pub text: Option<String>,
    pub video: Option<WhatsAppVideoContent>,
    pub image: Option<WhatsAppImageContent>,
    pub document: Option<WhatsAppDocumentContent>,
}

/// The body of an interactive message.
#[derive(Debug, Clone, PartialEq, Eq)]
pub struct WhatsAppInteractiveBody {
    pub text: String,
}

/// The footer of an interactive message.
#[derive(Debug, Clone, PartialEq, Eq)]
pub struct WhatsAppInteractiveFooter {
    pub text: String,
}

/// The action of an interactive message.
#[derive(Debug, Clone, PartialEq, Eq)]
pub struct WhatsAppInteractiveAction {
    pub button: Option<String>,
    pub sections: Option<Vec<WhatsAppSection>>,
    pub buttons: Option<Vec<WhatsAppButton>>,
}

/// A section of a list message.
#[derive(Debug, Clone, PartialEq, Eq)]
pub struct WhatsAppSection {
    pub title: String,
    pub rows: Vec<WhatsAppSectionRow>,
}

/// A row of a list section.
#[derive(Debug, Clone, PartialEq, Eq)]
pub struct WhatsAppSectionRow {
    pub id: String,
    pub title: String,
    pub description: Option<String>,
}

/// A button.
#[derive(Debug, Clone, PartialEq, Eq)]
pub struct WhatsAppButton {
    pub button_type: String,
    pub reply: WhatsAppReplyButton,
}

/// A reply button.
#[derive(Debug, Clone, PartialEq, Eq)]
pub struct WhatsAppReplyButton {
    pub id: String,
    pub title: String,
}

/// A template message.
#[derive(Debug, Clone, PartialEq, Eq)]
pub struct WhatsAppTemplateContent {
    pub name: String,
    pub language: WhatsAppTemplateLanguage,
    pub components: Option<Vec<WhatsAppTemplateComponent>>,
}

/// The language of a template.
#[derive(Debug, Clone, PartialEq, Eq)]
pub struct WhatsAppTemplateLanguage {
    pub code: String,
    pub policy: String,
}

/// A component of a template.
#[derive(Debug, Clone, PartialEq, Eq)]
pub struct WhatsAppTemplateComponent {
    pub component_type: String,
    pub parameters: Vec<WhatsAppTemplateParameter>,
}

/// A template parameter.
#[derive(Debug, Clone, PartialEq, Eq)]
pub struct WhatsAppTemplateParameter {
    pub param_type: String,
    pub text: Option<String>,
    pub currency: Option<WhatsAppCurrency>,
    pub date_time: Option<WhatsAppDateTime>,
    pub image: Option<WhatsAppImageContent>,
    pub document: Option<WhatsAppDocumentContent>,
    pub video: Option<WhatsAppVideoContent>,
}

/// A currency amount, in thousandths.
#[derive(Debug, Clone, PartialEq, Eq)]
pub struct WhatsAppCurrency {
    pub currency_code: String,
    pub amount_1000: i64,
}

/// A date and time, given by its fallback text.
#[derive(Debug, Clone, PartialEq, Eq)]
pub struct WhatsAppDateTime {
    pub fallback_value: String,
}

/// A reaction to a message.
#[derive(Debug, Clone, PartialEq, Eq)]
pub struct WhatsAppReactionContent {
    pub message_id: String,
    pub emoji: String,
}

/// WhatsApp content parser.
#[derive(Debug, Clone, Copy, Default)]
pub struct WhatsAppContentParser;

/// The kinds of WhatsApp content, one per variant.
#[derive(Debug, Clone, Copy, PartialEq, Eq, Structural)]
pub enum WhatsAppKind {
    Text,
    Image,
    Video,
    Audio,
    Voice,
    Document,
    Location,
    Contacts,
    Sticker,
    Interactive,
    Template,
    Reaction,
}

/// The name of a kind.
pub open spec fn whatsapp_kind_name(k: WhatsAppKind) -> Seq<char> {
    match k {
        WhatsAppKind::Text => "text"@,
        WhatsAppKind::Image => "image"@,
        WhatsAppKind::Video => "video"@,
        WhatsAppKind::Audio => "audio"@,
        WhatsAppKind::Voice => "voice"@,
        WhatsAppKind::Document => "document"@,
        WhatsAppKind::Location => "location"@,
        WhatsAppKind::Contacts => "contacts"@,
        WhatsAppKind::Sticker => "sticker"@,
        WhatsAppKind::Interactive => "interactive"@,
        WhatsAppKind::Template => "template"@,
        WhatsAppKind::Reaction => "reaction"@,
    }
}

/// The kind of a content value.
pub open spec fn whatsapp_kind_of(c: WhatsAppContent) -> WhatsAppKind {
    match c {
        WhatsAppContent::Text(_) => WhatsAppKind::Text,
        WhatsAppContent::Image(_) => WhatsAppKind::Image,
        WhatsAppContent::Video(_) => WhatsAppKind::Video,
        WhatsAppContent::Audio(_) => WhatsAppKind::Audio,
        WhatsAppContent::Voice(_) => WhatsAppKind::Voice,
        WhatsAppContent::Document(_) => WhatsAppKind::Document,
        WhatsAppContent::Location(_) => WhatsAppKind::Location,
        WhatsAppContent::Contacts(_) => WhatsAppKind::Contacts,
        WhatsAppContent::Sticker(_) => WhatsAppKind::Sticker,
        WhatsAppContent::Interactive(_) => WhatsAppKind::Interactive,
        WhatsAppContent::Template(_) => WhatsAppKind::Template,
        WhatsAppContent::Reaction(_) => WhatsAppKind::Reaction,
    }
}

/// The plain-text rendering of WhatsApp content.
pub open spec fn whatsapp_text(c: WhatsAppContent) -> Seq<char> {
    match c {
        WhatsAppContent::Text(t) => t.body@,
        WhatsAppContent::Image(i) => "[Image] "@ + opt_or_empty(i.caption),
        WhatsAppContent::Video(v) => "[Video] "@ + opt_or_empty(v.caption),
        WhatsAppContent::Audio(_) => "[Audio]"@,
        WhatsAppContent::Voice(v) => "[Voice message, "@ + (match v.duration {
            Some(d) => signed_decimal(d as int),
            None => Seq::empty(),
        }) + "s]"@,
        WhatsAppContent::Document(d) => "[Document: "@ + (match d.filename {
            Some(f) => f@,
            None => "unnamed"@,
        }) + "] "@ + opt_or_empty(d.caption),
        WhatsAppContent::Location(l) => "[Location: "@ + l.latitude@ + ", "@ + l.longitude@ + "]"@,
        WhatsAppContent::Contacts(c) => "[Contacts: "@ + join_seq(
            c.contacts@.map_values(|x: WhatsAppContact| x.display_name@),
            ", "@,
        ) + "]"@,
        WhatsAppContent::Sticker(_) => "[Sticker]"@,
        WhatsAppContent::Interactive(_) => "[Interactive message]"@,
        WhatsAppContent::Template(t) => "[Template: "@ + t.name@ + "]"@,
        WhatsAppContent::Reaction(r) => "[Reaction: "@ + r.emoji@ + "]"@,
    }
}

/// The unified content type of WhatsApp content.
pub open spec fn whatsapp_content_type(c: WhatsAppContent) -> ContentType {
    match c {
        WhatsAppContent::Text(_) => ContentType::Text,
        WhatsAppContent::Image(_) => ContentType::Image,
        WhatsAppContent::Video(_) => ContentType::Video,
        WhatsAppContent::Audio(_) => ContentType::Audio,
        WhatsAppContent::Voice(_) => ContentType::Audio,
        WhatsAppContent::Document(_) => ContentType::File,
        WhatsAppContent::Location(_) => ContentType::Location,
        WhatsAppContent::Contacts(_) => ContentType::Contact,
        WhatsAppContent::Sticker(_) => ContentType::Sticker,
        WhatsAppContent::Interactive(_) => ContentType::Card,
        WhatsAppContent::Template(_) => ContentType::Card,
        WhatsAppContent::Reaction(_) => ContentType::System,
    }
}

fn push_opt(s: &mut String, o: &Option<String>)
    ensures
        final(s)@ == old(s)@ + opt_or_empty(*o),
{
    match o {
        Some(x) => push_str(s, x.as_str()),
        None => {
            assert(old(s)@ + Seq::<char>::empty() =~= old(s)@);
        },
    }
}

fn contact_names(contacts: &Vec<WhatsAppContact>) -> (v: Vec<String>)
    ensures
        views(v@) == contacts@.map_values(|x: WhatsAppContact| x.display_name@),
{
    let mut v: Vec<String> = Vec::new();
    let mut i: usize = 0;
    while i < contacts.len()
        invariant
            i <= contacts.len(),
            views(v@) =~= contacts@.subrange(0, i as int).map_values(|x: WhatsAppContact| x.display_name@),
        decreases contacts.len() - i,
    {
        let ghost before = v@;
        v.push(contacts[i].display_name.clone());
        assert(views(v@) =~= views(before).push(contacts@[i as int].display_name@));
        assert(contacts@.subrange(0, i + 1) =~= contacts@.subrange(0, i as int).push(contacts@[i as int]));
        i = i + 1;
    }
    assert(contacts@.subrange(0, contacts.len() as int) =~= contacts@);
    v
}

impl WhatsAppContent {
    /// The unified content type of this content.
    pub fn content_type(&self) -> (t: ContentType)
        ensures
            t == whatsapp_content_type(*self),
    {
        match self {
            WhatsAppContent::Text(_) => ContentType::Text,
            WhatsAppContent::Image(_) => ContentType::Image,
            WhatsAppContent::Video(_) => ContentType::Video,
            WhatsAppContent::Audio(_) => ContentType::Audio,
            WhatsAppContent::Voice(_) => ContentType::Audio,
            WhatsAppContent::Document(_) => ContentType::File,
            WhatsAppContent::Location(_) => ContentType::Location,
            WhatsAppContent::Contacts(_) => ContentType::Contact,
            WhatsAppContent::Sticker(_) => ContentType::Sticker,
            WhatsAppContent::Interactive(_) => ContentType::Card,
            WhatsAppContent::Template(_) => ContentType::Card,
            WhatsAppContent::Reaction(_) => ContentType::System,
        }
    }

    /// The plain-text rendering of this content.
    pub fn extract_text(&self) -> (s: String)
        ensures
            s@ == whatsapp_text(*self),
    {
        WhatsAppContentParser::extract_text(self)
    }
}

impl WhatsAppContentParser {
    /// Creates a parser.
    pub fn new() -> Self {
        WhatsAppContentParser
    }

    /// The kind named by a content type, or the error for an unknown name.
    pub fn content_kind(content_type: &str) -> (r: Result<WhatsAppKind, AgentError>)
        ensures
            r matches Ok(k) ==> whatsapp_kind_name(k) == content_type@,
            r is Err <==> (forall|k: WhatsAppKind| whatsapp_kind_name(k) != content_type@),
            r matches Err(e) ==> e == AgentError::Platform(e->Platform_0)
                && e->Platform_0@ == "Unknown content type: "@ + content_type@,
    {
        let kind = if str_eq(content_type, "text") {
            WhatsAppKind::Text
        } else if str_eq(content_type, "image") {
            WhatsAppKind::Image
        } else if str_eq(content_type, "video") {
            WhatsAppKind::Video
        } else if str_eq(content_type, "audio") {
            WhatsAppKind::Audio
        } else if str_eq(content_type, "voice") {
            WhatsAppKind::Voice
        } else if str_eq(content_type, "document") {
            WhatsAppKind::Document
        } else if str_eq(content_type, "location") {
            WhatsAppKind::Location
        } else if str_eq(content_type, "contacts") {
            WhatsAppKind::Contacts
        } else if str_eq(content_type, "sticker") {
            WhatsAppKind::Sticker
        } else if str_eq(content_type, "interactive") {
            WhatsAppKind::Interactive
        } else if str_eq(content_type, "template") {
            WhatsAppKind::Template
        } else if str_eq(content_type, "reaction") {
            WhatsAppKind::Reaction
        } else {
            assert forall|k: WhatsAppKind| whatsapp_kind_name(k) != content_type@ by {
                match k {
                    WhatsAppKind::Text => {},
                    WhatsAppKind::Image => {},
                    WhatsAppKind::Video => {},
                    WhatsAppKind::Audio => {},
                    WhatsAppKind::Voice => {},
                    WhatsAppKind::Document => {},
                    WhatsAppKind::Location => {},
                    WhatsAppKind::Contacts => {},
                    WhatsAppKind::Sticker => {},
                    WhatsAppKind::Interactive => {},
                    WhatsAppKind::Template => {},
                    WhatsAppKind::Reaction => {},
                }
            }
            return Err(AgentError::Platform(message_with("Unknown content type: ", content_type)));
        };
        assert(whatsapp_kind_name(kind) == content_type@);
        Ok(kind)
    }

    /// Extracts plain text from any content type.
    pub fn extract_text(content: &WhatsAppContent) -> (s: String)
        ensures
            s@ == whatsapp_text(*content),
    {
        match content {
            WhatsAppContent::Text(t) => t.body.clone(),
            WhatsAppContent::Image(i) => {
                let mut s = to_owned_string("[Image] ");
                push_opt(&mut s, &i.caption);
                s
            },
            WhatsAppContent::Video(v) => {
                let mut s = to_owned_string("[Video] ");
                push_opt(&mut s, &v.caption);
                s
            },
            WhatsAppContent::Audio(_) => to_owned_string("[Audio]"),
            WhatsAppContent::Voice(v) => {
                let mut s = to_owned_string("[Voice message, ");
                let ghost before = s@;
                match v.duration {
                    Some(d) => push_signed_decimal(&mut s, d as i64),
                    None => {},
                }
                assert(s@ == before + (match v.duration {
                    Some(d) => signed_decimal(d as int),
                    None => Seq::<char>::empty(),
                }));
                push_str(&mut s, "s]");
                s
            },
            WhatsAppContent::Document(d) => {
                let mut s = to_owned_string("[Document: ");
                match &d.filename {
                    Some(f) => push_str(&mut s, f.as_str()),
                    None => push_str(&mut s, "unnamed"),
                }
                push_str(&mut s, "] ");
                push_opt(&mut s, &d.caption);
                s
            },
            WhatsAppContent::Location(l) => {
                let mut s = to_owned_string("[Location: ");
                push_str(&mut s, l.latitude.as_str());
                push_str(&mut s, ", ");
                push_str(&mut s, l.longitude.as_str());
                push_str(&mut s, "]");
                s
            },
            WhatsAppContent::Contacts(c) => {
                let names = contact_names(&c.contacts);
                let joined = join_strings(&names, ", ");
                let mut s = to_owned_string("[Contacts: ");
                push_str(&mut s, joined.as_str());
                push_str(&mut s, "]");
                s
            },
            WhatsAppContent::Sticker(_) => to_owned_string("[Sticker]"),
            WhatsAppContent::Interactive(_) => to_owned_string("[Interactive message]"),
            WhatsAppContent::Template(t) => {
                let mut s = to_owned_string("[Template: ");
                push_str(&mut s, t.name.as_str());
                push_str(&mut s, "]");
                s
            },
            WhatsAppContent::Reaction(r) => {
                let mut s = to_owned_string("[Reaction: ");
                push_str(&mut s, r.emoji.as_str());
                push_str(&mut s, "]");
                s
            },
        }
    }

    /// The name of the content's type.
    pub fn get_content_type(content: &WhatsAppContent) -> (r: &'static str)
        ensures
            r@ == whatsapp_kind_name(whatsapp_kind_of(*content)),
    {
        match content {
            WhatsAppContent::Text(_) => "text",
            WhatsAppContent::Image(_) => "image",
            WhatsAppContent::Video(_) => "video",
            WhatsAppContent::Audio(_) => "audio",
            WhatsAppContent::Voice(_) => "voice",
            WhatsAppContent::Document(_) => "document",
            WhatsAppContent::Location(_) => "location",
            WhatsAppContent::Contacts(_) => "contacts",
            WhatsAppContent::Sticker(_) => "sticker",
            WhatsAppContent::Interactive(_) => "interactive",
            WhatsAppContent::Template(_) => "template",
            WhatsAppContent::Reaction(_) => "reaction",
        }
    }

    /// Text content.
    pub fn create_text(body: &str) -> (c: WhatsAppContent)
        ensures
            c matches WhatsAppContent::Text(t) && t.body@ == body@ && t.preview_url is None
                && t.quoted_message is None,
    {
        WhatsAppContent::Text(WhatsAppTextContent { body: to_owned_string(body), preview_url: None, quoted_message: None })
    }

    /// Image content from a local file.
    pub fn create_image(file_path: &str, caption: Option<String>) -> (c: WhatsAppContent)
        ensures
            c matches WhatsAppContent::Image(i) && i.file_path matches Some(p) && p@ == file_path@
                && i.url is None && i.caption == caption && i.mime_type is None && i.width is None
                && i.height is None && i.file_size is None,
    {
        WhatsAppContent::Image(
            WhatsAppImageContent {
                file_path: Some(to_owned_string(file_path)),
                url: None,
                caption,
                mime_type: None,
                width: None,
                height: None,
                file_size: None,
            },
        )
    }

    /// Video content from a local file.
    pub fn create_video(file_path: &str, caption: Option<String>) -> (c: WhatsAppContent)
        ensures
            c matches WhatsAppContent::Video(v) && v.file_path matches Some(p) && p@ == file_path@
                && v.url is None && v.caption == caption && v.mime_type is None && v.width is None
                && v.height is None && v.duration is None && v.file_size is None,
    {
        WhatsAppContent::Video(
            WhatsAppVideoContent {
                file_path: Some(to_owned_string(file_path)),
                url: None,
                caption,
                mime_type: None,
                width: None,
                height: None,
                duration: None,
                file_size: None,
            },
        )
    }

    /// Document content from a local file.
    pub fn create_document(file_path: &str, filename: Option<String>, caption: Option<String>) -> (c:
        WhatsAppContent)
        ensures
            c matches WhatsAppContent::Document(d) && d.file_path matches Some(p) && p@ == file_path@
                && d.url is None && d.caption == caption && d.filename == filename
                && d.mime_type is None && d.file_size is None,
    {
        WhatsAppContent::Document(
            WhatsAppDocumentContent {
                file_path: Some(to_owned_string(file_path)),
                url: None,
                caption,
                filename,
                mime_type: None,
                file_size: None,
            },
        )
    }

    /// Location content from the decimal text of its coordinates.
    pub fn create_location(latitude: String, longitude: String, name: Option<String>, address: Option<String>) -> (c:
        WhatsAppContent)
        ensures
            c matches WhatsAppContent::Location(l) && l.latitude == latitude && l.longitude == longitude
                && l.name == name && l.address == address && l.url is None,
    {
        WhatsAppContent::Location(WhatsAppLocationContent { latitude, longitude, name, address, url: None })
    }

    /// Whether the content carries media: image, video, audio, voice,
    /// document or sticker.
    pub fn has_media(content: &WhatsAppContent) -> (b: bool)
        ensures
            b == (*content is Image || *content is Video || *content is Audio || *content is Voice
                || *content is Document || *content is Sticker),
    {
        match content {
            WhatsAppContent::Image(_) | WhatsAppContent::Video(_) | WhatsAppContent::Audio(_)
            | WhatsAppContent::Voice(_) | WhatsAppContent::Document(_) | WhatsAppContent::Sticker(_) => true,
            _ => false,
        }
    }

    /// The local file path of media content, where it has one.
    pub fn get_media_path(content: &WhatsAppContent) -> (r: Option<&str>)
        ensures
            match *content {
                WhatsAppContent::Image(i) => same_path(r, i.file_path),
                WhatsAppContent::Video(v) => same_path(r, v.file_path),
                WhatsAppContent::Audio(a) => same_path(r, a.file_path),
                WhatsAppContent::Voice(v) => same_path(r, v.file_path),
                WhatsAppContent::Document(d) => same_path(r, d.file_path),
                WhatsAppContent::Sticker(s) => same_path(r, s.file_path),
                _ => r is None,
            },
    {
        match content {
            WhatsAppContent::Image(i) => path_of(&i.file_path),
            WhatsAppContent::Video(v) => path_of(&v.file_path),
            WhatsAppContent::Audio(a) => path_of(&a.file_path),
            WhatsAppContent::Voice(v) => path_of(&v.file_path),
            WhatsAppContent::Document(d) => path_of(&d.file_path),
            WhatsAppContent::Sticker(s) => path_of(&s.file_path),
            _ => None,
        }
    }
}

/// Whether an optional text is the given optional path.
pub open spec fn same_path(r: Option<&str>, p: Option<String>) -> bool {
    match p {
        Some(s) => r matches Some(x) && x@ == s@,
        None => r is None,
    }
}

fn path_of(p: &Option<String>) -> (r: Option<&str>)
    ensures
        same_path(r, *p),
{
    match p {
        Some(s) => Some(s.as_str()),
        None => None,
    }
}

impl WhatsAppImageContent {
    /// The unified media form of the image; the URL is empty when absent.
    pub fn to_media_content(&self) -> (m: MediaContent)
        ensures
            m.url@ == opt_or_empty(self.url) && m.width == self.width && m.height == self.height
                && m.size == self.file_size && m.mime_type == self.mime_type && m.filename is None
                && m.caption == self.caption && m.thumbnail is None && m.duration is None,
    {
        MediaContent {
            url: string_or_empty(&self.url),
            width: self.width,
            height: self.height,
            size: self.file_size,
            mime_type: clone_opt(&self.mime_type),
            filename: None,
            caption: clone_opt(&self.caption),
            thumbnail: None,
            duration: None,
        }
    }
}

impl WhatsAppVideoContent {
    /// The unified media form of the video; the URL is empty when absent.
    pub fn to_media_content(&self) -> (m: MediaContent)
        ensures
            m.url@ == opt_or_empty(self.url) && m.width == self.width && m.height == self.height
                && m.duration == self.duration && m.mime_type == self.mime_type && m.filename is None
                && m.caption == self.caption && m.size == self.file_size && m.thumbnail is None,
    {
        MediaContent {
            url: string_or_empty(&self.url),
            width: self.width,
            height: self.height,
            duration: self.duration,
            mime_type: clone_opt(&self.mime_type),
            filename: None,
            caption: clone_opt(&self.caption),
            size: self.file_size,
            thumbnail: None,
        }
    }
}

impl WhatsAppDocumentContent {
    /// The unified media form of the document; the URL is empty when
    /// absent.
    pub fn to_media_content(&self) -> (m: MediaContent)
        ensures
            m.url@ == opt_or_empty(self.url) && m.mime_type == self.mime_type
                && m.filename == self.filename && m.size == self.file_size && m.width is None
                && m.height is None && m.duration is None && m.caption == self.caption
                && m.thumbnail is None,
    {
        MediaContent {
            url: string_or_empty(&self.url),
            mime_type: clone_opt(&self.mime_type),
            filename: clone_opt(&self.filename),
            size: self.file_size,
            width: None,
            height: None,
            duration: None,
            caption: clone_opt(&self.caption),
            thumbnail: None,
        }
    }
}

/// WhatsApp channel settings: the Node.js bridge and where it keeps its
/// data.
#[derive(Debug, Clone)]
pub struct WhatsAppChannelConfig {
    pub node_path: String,
    pub bridge_path: String,
    pub auth_dir: String,
    pub media_dir: String,
    pub reconnect_interval_ms: u64,
    pub print_qr: bool,
    pub log_level: String,
    pub base: BaseChannelConfig,
}

impl Default for WhatsAppChannelConfig {
    fn default() -> (c: Self)
        ensures
            c.node_path@ == "node"@,
            c.bridge_path@ == "./tools/whatsapp-baileys-bridge/whatsapp-baileys-bridge.js"@,
            c.auth_dir@ == "./data/whatsapp/auth"@,
            c.media_dir@ == "./data/whatsapp/media"@,
            c.reconnect_interval_ms == 5000,
            c.print_qr,
            c.log_level@ == "info"@,
            c.base.max_reconnect_attempts == 10,
    {
        WhatsAppChannelConfig {
            node_path: to_owned_string("node"),
            bridge_path: to_owned_string("./tools/whatsapp-baileys-bridge/whatsapp-baileys-bridge.js"),
            auth_dir: to_owned_string("./data/whatsapp/auth"),
            media_dir: to_owned_string("./data/whatsapp/media"),
            reconnect_interval_ms: 5000,
            print_qr: true,
            log_level: to_owned_string("info"),
            base: BaseChannelConfig::new(),
        }
    }
}

/// The state of the WhatsApp connection.
#[derive(Debug, Clone, Copy, PartialEq, Eq, Structural)]
pub enum WhatsAppConnectionState {
    Disconnected,
    Connecting,
    QrCode,
    Connected,
    Reconnecting,
}

/// A message received through the bridge.
#[derive(Debug, Clone)]
pub struct WhatsAppIncomingMessage {
    pub id: String,
    pub remote_jid: String,
    pub from_me: bool,
    pub content: String,
    pub message_type: String,
    pub timestamp: i64,
    pub push_name: Option<String>,
    pub is_group: bool,
}

impl WhatsAppChannelConfig {
    /// Whether the Node.js and bridge paths are set.
    pub fn is_valid(&self) -> (b: bool)
        ensures
            b == (self.node_path@.len() > 0 && self.bridge_path@.len() > 0),
    {
        self.node_path.as_str().unicode_len() > 0 && self.bridge_path.as_str().unicode_len() > 0
    }

    /// Senders allowed to reach the bot; this channel sets no such list.
    pub fn allowlist(&self) -> (v: Vec<String>)
        ensures
            v@.len() == 0,
    {
        Vec::new()
    }

    /// Whether the channel reconnects after losing its connection.
    pub fn auto_reconnect(&self) -> (b: bool)
        ensures
            b == self.base.auto_reconnect,
    {
        self.base.auto_reconnect
    }

    /// How often the channel tries to reconnect before it gives up.
    pub fn max_reconnect_attempts(&self) -> (n: u32)
        ensures
            n == self.base.max_reconnect_attempts,
    {
        self.base.max_reconnect_attempts
    }

    /// The bridge keeps a WebSocket-like connection, whatever the common
    /// settings say.
    pub fn connection_mode(&self) -> (m: ConnectionMode)
        ensures
            m == ConnectionMode::WebSocket,
    {
        ConnectionMode::WebSocket
    }
}
/// The kinds of content a WhatsApp channel can carry.
pub fn supported_content_types() -> (v: Vec<ContentType>)
    ensures
        v@ == seq![ContentType::Text, ContentType::Image, ContentType::File, ContentType::Audio, ContentType::Video, ContentType::Location, ContentType::Sticker],
{
    let mut v: Vec<ContentType> = Vec::new();
    v.push(ContentType::Text);
    v.push(ContentType::Image);
    v.push(ContentType::File);
    v.push(ContentType::Audio);
    v.push(ContentType::Video);
    v.push(ContentType::Location);
    v.push(ContentType::Sticker);
    v
}
} // verus!
