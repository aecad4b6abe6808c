//! WeChat (Work) message content: the content variants, their text
//! rendering, constructors, queries and media form.

use vstd::prelude::*;

use crate::content::{clone_opt, opt_or_empty, string_or_empty, ContentType, MediaContent};
use crate::error::{message_with, AgentError};
use crate::text::{join_seq, join_strings, push_str, str_eq, to_owned_string, views};

verus! {

/// WeChat message content types.
#[derive(Debug, Clone, PartialEq, Eq)]
pub enum WeChatContent {
    Text(WeChatTextContent),
    Image(WeChatImageContent),
    Voice(WeChatVoiceContent),
    Video(WeChatVideoContent),
    ShortVideo(WeChatVideoContent),
    Location(WeChatLocationContent),
    Link(WeChatLinkContent),
    Event(WeChatEventContent),
    MiniProgram(WeChatMiniProgramContent),
    File(WeChatFileContent),
    Music(WeChatMusicContent),
    News(WeChatNewsContent),
    Markdown(WeChatMarkdownContent),
}

/// Text content.
#[derive(Debug, Clone, PartialEq, Eq, Default)]
pub struct WeChatTextContent {
    pub content: String,
}

/// An image.
#[derive(Debug, Clone, PartialEq, Eq, Default)]
pub struct WeChatImageContent {
    pub pic_url: Option<String>,
    pub media_id: String,
    pub format: Option<String>,
}

/// A voice message, with its speech recognition if any.
#[derive(Debug, Clone, PartialEq, Eq, Default)]
pub struct WeChatVoiceContent {
    pub media_id: String,
    pub format: Option<String>,
    pub recognition: Option<String>,
    pub duration: Option<i32>,
}

/// A video or short video.
#[derive(Debug, Clone, PartialEq, Eq, Default)]
pub struct WeChatVideoContent {
    pub media_id: String,
    pub title: Option<String>,
    pub description: Option<String>,
    pub thumb_media_id: Option<String>,
}

/// A location. The coordinates are kept as the decimal text they are shown
/// as; nothing here computes with them.
#[derive(Debug, Clone, PartialEq, Eq, Default)]
pub struct WeChatLocationContent {
    pub location_x: String,
    pub location_y: String,
    pub scale: i32,
    pub label: String,
    pub poi_name: Option<String>,
}

/// A link.
#[derive(Debug, Clone, PartialEq, Eq, Default)]
pub struct WeChatLinkContent {
    pub title: String,
    pub description: String,
    pub url: String,
    pub pic_url: Option<String>,
}

/// An event. Coordinates are kept as their decimal text.
#[derive(Debug, Clone, PartialEq, Eq)]
pub struct WeChatEventContent {
    pub event: String,
    pub event_key: Option<String>,
    pub ticket: Option<String>,
    pub latitude: Option<String>,
    pub longitude: Option<String>,
    pub precision: Option<String>,
    pub change_type: Option<String>,
    pub user_id: Option<String>,
    pub department: Option<String>,
}

/// A mini program page.
#[derive(Debug, Clone, PartialEq, Eq, Default)]
pub struct WeChatMiniProgramContent {
    pub title: String,
    pub app_id: String,
    pub page_path: String,
    pub thumb_url: Option<String>,
    pub thumb_media_id: String,
}

/// A file.
#[derive(Debug, Clone, PartialEq, Eq, Default)]
pub struct WeChatFileContent {
    pub title: String,
    pub description: String,
    pub file_name: String,
    pub file_key: Option<String>,
    pub file_md5: Option<String>,
    pub file_total_len: i64,
}

/// A music message.
#[derive(Debug, Clone, PartialEq, Eq, Default)]
pub struct WeChatMusicContent {
    pub title: String,
    pub description: String,
    pub music_url: String,
    pub hq_music_url: Option<String>,
    pub thumb_media_id: String,
}

/// A news message with articles.
#[derive(Debug, Clone, PartialEq, Eq, Default)]
pub struct WeChatNewsContent {
    pub article_count: i32,
    pub articles: Vec<WeChatArticle>,
}

/// A news article.
#[derive(Debug, Clone, PartialEq, Eq)]
pub struct WeChatArticle {
    pub title: String,
    pub description: String,
    pub url: String,
    pub pic_url: String,
}

/// Markdown content.
#[derive(Debug, Clone, PartialEq, Eq, Default)]
pub struct WeChatMarkdownContent {
    pub content: String,
}

/// WeChat content parser.
#[derive(Debug, Clone, Copy, Default)]
pub struct WeChatContentParser;

/// Parser of WeChat's XML callback messages.
#[derive(Debug, Clone, Copy, Default)]
pub struct WeChatXmlParser;

/// The WeChat message types, one per content variant.
#[derive(Debug, Clone, Copy, PartialEq, Eq, Structural)]
pub enum WeChatMsgKind {
    Text,
    Image,
    Voice,
    Video,
    ShortVideo,
    Location,
    Link,
    Event,
    MiniProgram,
    File,
    Music,
    News,
    Markdown,
}

/// The name of a message type.
pub open spec fn wechat_kind_name(k: WeChatMsgKind) -> Seq<char> {
    match k {
        WeChatMsgKind::Text => "text"@,
        WeChatMsgKind::Image => "image"@,
        WeChatMsgKind::Voice => "voice"@,
        WeChatMsgKind::Video => "video"@,
        WeChatMsgKind::ShortVideo => "shortvideo"@,
        WeChatMsgKind::Location => "location"@,
        WeChatMsgKind::Link => "link"@,
        WeChatMsgKind::Event => "event"@,
        WeChatMsgKind::MiniProgram => "miniprogrampage"@,
        WeChatMsgKind::File => "file"@,
        WeChatMsgKind::Music => "music"@,
        WeChatMsgKind::News => "news"@,
        WeChatMsgKind::Markdown => "markdown"@,
    }
}

/// The message type of a content value.
pub open spec fn wechat_kind_of(c: WeChatContent) -> WeChatMsgKind {
    match c {
        WeChatContent::Text(_) => WeChatMsgKind::Text,
        WeChatContent::Image(_) => WeChatMsgKind::Image,
        WeChatContent::Voice(_) => WeChatMsgKind::Voice,
        WeChatContent::Video(_) => WeChatMsgKind::Video,
        WeChatContent::ShortVideo(_) => WeChatMsgKind::ShortVideo,
        WeChatContent::Location(_) => WeChatMsgKind::Location,
        WeChatContent::Link(_) => WeChatMsgKind::Link,
        WeChatContent::Event(_) => WeChatMsgKind::Event,
        WeChatContent::MiniProgram(_) => WeChatMsgKind::MiniProgram,
        WeChatContent::File(_) => WeChatMsgKind::File,
        WeChatContent::Music(_) => WeChatMsgKind::Music,
        WeChatContent::News(_) => WeChatMsgKind::News,
        WeChatContent::Markdown(_) => WeChatMsgKind::Markdown,
    }
}

/// Whether a webhook payload carries the content of a message type under
/// the type's own name.
pub open spec fn has_payload_key(k: WeChatMsgKind) -> bool {
    match k {
        WeChatMsgKind::ShortVideo | WeChatMsgKind::Event | WeChatMsgKind::MiniProgram
        | WeChatMsgKind::Music => false,
        _ => true,
    }
}

/// The plain-text rendering of WeChat content.
pub open spec fn wechat_text(c: WeChatContent) -> Seq<char> {
    match c {
        WeChatContent::Text(t) => t.content@,
        WeChatContent::Image(_) => "[Image]"@,
        WeChatContent::Voice(v) => match v.recognition {
            Some(r) => "[Voice: "@ + r@ + "]"@,
            None => "[Voice message]"@,
        },
        WeChatContent::Video(v) => "[Video: "@ + (match v.title {
            Some(t) => t@,
            None => "(no title)"@,
        }) + "]"@,
        WeChatContent::ShortVideo(v) => "[Video: "@ + (match v.title {
            Some(t) => t@,
            None => "(no title)"@,
        }) + "]"@,
        WeChatContent::Location(l) => "[Location: "@ + l.label@ + " - "@ + l.location_x@ + ", "@ + l.location_y@ + "]"@,
        WeChatContent::Link(l) => "[Link: "@ + l.title@ + " - "@ + l.url@ + "]"@,
        WeChatContent::Event(e) => "[Event: "@ + e.event@ + "]"@,
        WeChatContent::MiniProgram(m) => "[Mini Program: "@ + m.title@ + "]"@,
        WeChatContent::File(f) => "[File: "@ + f.file_name@ + "]"@,
        WeChatContent::Music(m) => "[Music: "@ + m.title@ + "]"@,
        WeChatContent::News(n) => "[News: "@ + join_seq(n.articles@.map_values(|a: WeChatArticle| a.title@), ", "@) + "]"@,
        WeChatContent::Markdown(m) => "[Markdown]\n"@ + m.content@,
    }
}

/// The unified content type of WeChat content.
pub open spec fn wechat_content_type(c: WeChatContent) -> ContentType {
    match c {
        WeChatContent::Text(_) => ContentType::Text,
        WeChatContent::Image(_) => ContentType::Image,
        WeChatContent::Voice(_) => ContentType::Audio,
        WeChatContent::Video(_) => ContentType::Video,
        WeChatContent::ShortVideo(_) => ContentType::Video,
        WeChatContent::Location(_) => ContentType::Location,
        WeChatContent::Link(_) => ContentType::Rich,
        WeChatContent::Event(_) => ContentType::System,
        WeChatContent::MiniProgram(_) => ContentType::Card,
        WeChatContent::File(_) => ContentType::File,
        WeChatContent::Music(_) => ContentType::Audio,
        WeChatContent::News(_) => ContentType::Rich,
        WeChatContent::Markdown(_) => ContentType::Text,
    }
}

fn article_titles(articles: &Vec<WeChatArticle>) -> (v: Vec<String>)
    ensures
        views(v@) == articles@.map_values(|a: WeChatArticle| a.title@),
{
    let mut v: Vec<String> = Vec::new();
    let mut i: usize = 0;
    while i < articles.len()
        invariant
            i <= articles.len(),
            views(v@) =~= articles@.subrange(0, i as int).map_values(|a: WeChatArticle| a.title@),
        decreases articles.len() - i,
    {
        let ghost before = v@;
        v.push(articles[i].title.clone());
        assert(views(v@) =~= views(before).push(articles@[i as int].title@));
        assert(articles@.subrange(0, i + 1) =~= articles@.subrange(0, i as int).push(articles@[i as int]));
        i = i + 1;
    }
    assert(articles@.subrange(0, articles.len() as int) =~= articles@);
    v
}

fn video_text(v: &WeChatVideoContent) -> (s: String)
    ensures
        s@ == "[Video: "@ + (match v.title {
            Some(t) => t@,
            None => "(no title)"@,
        }) + "]"@,
{
    let mut s = to_owned_string("[Video: ");
    match &v.title {
        Some(t) => push_str(&mut s, t.as_str()),
        None => push_str(&mut s, "(no title)"),
    }
    push_str(&mut s, "]");
    s
}

fn bracketed(prefix: &str, body: &str) -> (s: String)
    ensures
        s@ == prefix@ + body@ + "]"@,
{
    let mut s = to_owned_string(prefix);
    push_str(&mut s, body);
    push_str(&mut s, "]");
    s
}

impl WeChatContent {
    /// The unified content type of this content.
    pub fn content_type(&self) -> (t: ContentType)
        ensures
            t == wechat_content_type(*self),
    {
        match self {
            WeChatContent::Text(_) => ContentType::Text,
            WeChatContent::Image(_) => ContentType::Image,
            WeChatContent::Voice(_) => ContentType::Audio,
            WeChatContent::Video(_) => ContentType::Video,
            WeChatContent::ShortVideo(_) => ContentType::Video,
            WeChatContent::Location(_) => ContentType::Location,
            WeChatContent::Link(_) => ContentType::Rich,
            WeChatContent::Event(_) => ContentType::System,
            WeChatContent::MiniProgram(_) => ContentType::Card,
            WeChatContent::File(_) => ContentType::File,
            WeChatContent::Music(_) => ContentType::Audio,
            WeChatContent::News(_) => ContentType::Rich,
            WeChatContent::Markdown(_) => ContentType::Text,
        }
    }

    /// The plain-text rendering of this content.
    pub fn extract_text(&self) -> (s: String)
        ensures
            s@ == wechat_text(*self),
    {
        WeChatContentParser::extract_text(self)
    }
}

impl WeChatContentParser {
    /// Creates a parser.
    pub fn new() -> Self {
        WeChatContentParser
    }

    /// The message type with the given name, or the error for an unknown
    /// name.
    pub fn msg_kind(msg_type: &str) -> (r: Result<WeChatMsgKind, AgentError>)
        ensures
            r matches Ok(k) ==> wechat_kind_name(k) == msg_type@,
            r is Err <==> (forall|k: WeChatMsgKind| wechat_kind_name(k) != msg_type@),
            r matches Err(e) ==> e == AgentError::Platform(e->Platform_0)
                && e->Platform_0@ == "Unknown message type: "@ + msg_type@,
    {
        let kind = if str_eq(msg_type, "text") {
            WeChatMsgKind::Text
        } else if str_eq(msg_type, "image") {
            WeChatMsgKind::Image
        } else if str_eq(msg_type, "voice") {
            WeChatMsgKind::Voice
        } else if str_eq(msg_type, "video") {
            WeChatMsgKind::Video
        } else if str_eq(msg_type, "shortvideo") {
            WeChatMsgKind::ShortVideo
        } else if str_eq(msg_type, "location") {
            WeChatMsgKind::Location
        } else if str_eq(msg_type, "link") {
            WeChatMsgKind::Link
        } else if str_eq(msg_type, "event") {
            WeChatMsgKind::Event
        } else if str_eq(msg_type, "miniprogrampage") {
            WeChatMsgKind::MiniProgram
        } else if str_eq(msg_type, "file") {
            WeChatMsgKind::File
        } else if str_eq(msg_type, "music") {
            WeChatMsgKind::Music
        } else if str_eq(msg_type, "news") {
            WeChatMsgKind::News
        } else if str_eq(msg_type, "markdown") {
            WeChatMsgKind::Markdown
        } else {
            assert forall|k: WeChatMsgKind| wechat_kind_name(k) != msg_type@ by {
                match k {
                    WeChatMsgKind::Text => {},
                    WeChatMsgKind::Image => {},
                    WeChatMsgKind::Voice => {},
                    WeChatMsgKind::Video => {},
                    WeChatMsgKind::ShortVideo => {},
                    WeChatMsgKind::Location => {},
                    WeChatMsgKind::Link => {},
                    WeChatMsgKind::Event => {},
                    WeChatMsgKind::MiniProgram => {},
                    WeChatMsgKind::File => {},
                    WeChatMsgKind::Music => {},
                    WeChatMsgKind::News => {},
                    WeChatMsgKind::Markdown => {},
                }
            }
            return Err(AgentError::Platform(message_with("Unknown message type: ", msg_type)));
        };
        assert(wechat_kind_name(kind) == msg_type@);
        Ok(kind)
    }

    /// Whether a webhook payload of this message type carries its content
    /// under the type's name (otherwise the content is empty).
    pub fn payload_has_key(kind: WeChatMsgKind) -> (b: bool)
        ensures
            b == has_payload_key(kind),
    {
        match kind {
            WeChatMsgKind::ShortVideo | WeChatMsgKind::Event | WeChatMsgKind::MiniProgram
            | WeChatMsgKind::Music => false,
            _ => true,
        }
    }

    /// Extracts plain text from any content type.
    pub fn extract_text(content: &WeChatContent) -> (s: String)
        ensures
            s@ == wechat_text(*content),
    {
        match content {
            WeChatContent::Text(t) => t.content.clone(),
            WeChatContent::Image(_) => to_owned_string("[Image]"),
            WeChatContent::Voice(v) => match &v.recognition {
                Some(r) => bracketed("[Voice: ", r.as_str()),
                None => to_owned_string("[Voice message]"),
            },
            WeChatContent::Video(v) => video_text(v),
            WeChatContent::ShortVideo(v) => video_text(v),
            WeChatContent::Location(l) => {
                let mut s = to_owned_string("[Location: ");
                push_str(&mut s, l.label.as_str());
                push_str(&mut s, " - ");
                push_str(&mut s, l.location_x.as_str());
                push_str(&mut s, ", ");
                push_str(&mut s, l.location_y.as_str());
                push_str(&mut s, "]");
                s
            },
            WeChatContent::Link(l) => {
                let mut s = to_owned_string("[Link: ");
                push_str(&mut s, l.title.as_str());
                push_str(&mut s, " - ");
                push_str(&mut s, l.url.as_str());
                push_str(&mut s, "]");
                s
            },
            WeChatContent::Event(e) => bracketed("[Event: ", e.event.as_str()),
            WeChatContent::MiniProgram(m) => bracketed("[Mini Program: ", m.title.as_str()),
            WeChatContent::File(f) => bracketed("[File: ", f.file_name.as_str()),
            WeChatContent::Music(m) => bracketed("[Music: ", m.title.as_str()),
            WeChatContent::News(n) => {
                let titles = article_titles(&n.articles);
                let joined = join_strings(&titles, ", ");
                bracketed("[News: ", joined.as_str())
            },
            WeChatContent::Markdown(m) => {
                let mut s = to_owned_string("[Markdown]\n");
                push_str(&mut s, m.content.as_str());
                s
            },
        }
    }

    /// The name of the content's message type.
    pub fn get_msg_type(content: &WeChatContent) -> (r: &'static str)
        ensures
            r@ == wechat_kind_name(wechat_kind_of(*content)),
    {
        match content {
            WeChatContent::Text(_) => "text",
            WeChatContent::Image(_) => "image",
            WeChatContent::Voice(_) => "voice",
            WeChatContent::Video(_) => "video",
            WeChatContent::ShortVideo(_) => "shortvideo",
            WeChatContent::Location(_) => "location",
            WeChatContent::Link(_) => "link",
            WeChatContent::Event(_) => "event",
            WeChatContent::MiniProgram(_) => "miniprogrampage",
            WeChatContent::File(_) => "file",
            WeChatContent::Music(_) => "music",
            WeChatContent::News(_) => "news",
            WeChatContent::Markdown(_) => "markdown",
        }
    }

    /// Text content.
    pub fn create_text(content: &str) -> (c: WeChatContent)
        ensures
            c matches WeChatContent::Text(t) && t.content@ == content@,
    {
        WeChatContent::Text(WeChatTextContent { content: to_owned_string(content) })
    }

    /// Image content for an uploaded medium.
    pub fn create_image(media_id: &str) -> (c: WeChatContent)
        ensures
            c matches WeChatContent::Image(i) && i.media_id@ == media_id@ && i.pic_url is None
                && i.format is None,
    {
        WeChatContent::Image(WeChatImageContent { media_id: to_owned_string(media_id), pic_url: None, format: None })
    }

    /// News content; the article count is the number of articles, as an
    /// `i32`.
    pub fn create_news(articles: Vec<WeChatArticle>) -> (c: WeChatContent)
        ensures
            c == WeChatContent::News(
                WeChatNewsContent { article_count: articles@.len() as i32, articles },
            ),
    {
        let n = articles.len() as i32;
        WeChatContent::News(WeChatNewsContent { article_count: n, articles })
    }

    /// Markdown content.
    pub fn create_markdown(content: &str) -> (c: WeChatContent)
        ensures
            c matches WeChatContent::Markdown(m) && m.content@ == content@,
    {
        WeChatContent::Markdown(WeChatMarkdownContent { content: to_owned_string(content) })
    }

    /// Whether the content is an event.
    pub fn is_event(content: &WeChatContent) -> (b: bool)
        ensures
            b == (*content is Event),
    {
        matches!(content, WeChatContent::Event(_))
    }

    /// The event type of event content.
    pub fn get_event_type(content: &WeChatContent) -> (r: Option<&str>)
        ensures
            match *content {
                WeChatContent::Event(e) => r matches Some(t) && t@ == e.event@,
                _ => r is None,
            },
    {
        match content {
            WeChatContent::Event(e) => Some(e.event.as_str()),
            _ => None,
        }
    }

    /// The media ID of image, voice, video and short video content.
    pub fn get_media_id(content: &WeChatContent) -> (r: Option<String>)
        ensures
            match *content {
                WeChatContent::Image(i) => r == Some(i.media_id),
                WeChatContent::Voice(v) => r == Some(v.media_id),
                WeChatContent::Video(v) => r == Some(v.media_id),
                WeChatContent::ShortVideo(v) => r == Some(v.media_id),
                _ => r is None,
            },
    {
        match content {
            WeChatContent::Image(i) => Some(i.media_id.clone()),
            WeChatContent::Voice(v) => Some(v.media_id.clone()),
            WeChatContent::Video(v) => Some(v.media_id.clone()),
            WeChatContent::ShortVideo(v) => Some(v.media_id.clone()),
            _ => None,
        }
    }

    /// The file key of file content.
    pub fn get_file_key(content: &WeChatContent) -> (r: Option<String>)
        ensures
            match *content {
                WeChatContent::File(f) => r == f.file_key,
                _ => r is None,
            },
    {
        match content {
            WeChatContent::File(f) => clone_opt(&f.file_key),
            _ => None,
        }
    }

    /// The file name of file content.
    pub fn get_file_name(content: &WeChatContent) -> (r: Option<String>)
        ensures
            match *content {
                WeChatContent::File(f) => r == Some(f.file_name),
                _ => r is None,
            },
    {
        match content {
            WeChatContent::File(f) => Some(f.file_name.clone()),
            _ => None,
        }
    }
}

impl WeChatImageContent {
    /// The unified media form of the image; the media ID serves as the
    /// thumbnail.
    pub fn to_media_content(&self) -> (m: MediaContent)
        ensures
            m.url@ == opt_or_empty(self.pic_url) && m.mime_type == self.format && m.filename is None
                && m.size is None && m.width is None && m.height is None && m.duration is None
                && m.caption is None && m.thumbnail == Some(self.media_id),
    {
        MediaContent {
            url: string_or_empty(&self.pic_url),
            mime_type: clone_opt(&self.format),
            filename: None,
            size: None,
            width: None,
            height: None,
            duration: None,
            caption: None,
            thumbnail: Some(self.media_id.clone()),
        }
    }
}

impl WeChatVideoContent {
    /// The unified media form of the video; the media ID stands for the
    /// URL.
    pub fn to_media_content(&self) -> (m: MediaContent)
        ensures
            m.url == self.media_id && m.mime_type is None && m.filename == self.title
                && m.size is None && m.width is None && m.height is None && m.duration is None
                && m.caption == self.description && m.thumbnail == self.thumb_media_id,
    {
        MediaContent {
            url: self.media_id.clone(),
            mime_type: None,
            filename: clone_opt(&self.title),
            size: None,
            width: None,
            height: None,
            duration: None,
            caption: clone_opt(&self.description),
            thumbnail: clone_opt(&self.thumb_media_id),
        }
    }
}

impl WeChatFileContent {
    /// The unified media form of the file; the URL is the file key, or
    /// empty when there is none.
    pub fn to_media_content(&self) -> (m: MediaContent)
        ensures
            m.url@ == opt_or_empty(self.file_key) && m.mime_type is None
                && m.filename == Some(self.file_name) && m.size == Some(self.file_total_len)
                && m.width is None && m.height is None && m.duration is None
                && m.caption == Some(self.description) && m.thumbnail is None,
    {
        MediaContent {
            url: string_or_empty(&self.file_key),
            mime_type: None,
            filename: Some(self.file_name.clone()),
            size: Some(self.file_total_len),
            width: None,
            height: None,
            duration: None,
            caption: Some(self.description.clone()),
            thumbnail: None,
        }
    }
}

} // verus!
