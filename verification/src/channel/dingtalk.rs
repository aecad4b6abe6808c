//! DingTalk message content: the content variants, their text rendering,
//! constructors and media accessors.

use vstd::prelude::*;

use crate::content::{clone_opt, opt_or_empty, string_or_empty, ContentType, MediaContent};
use crate::error::{message_with, AgentError};
use crate::text::{join_seq, join_strings, push_str, str_eq, to_owned_string, views};

verus! {

/// DingTalk message content types.
#[derive(Debug, Clone, PartialEq, Eq)]
pub enum DingTalkContent {
    Text(DingTalkTextContent),
    Markdown(DingTalkMarkdownContent),
    ActionCard(DingTalkActionCardContent),
    Image(DingTalkImageContent),
    Voice(DingTalkVoiceContent),
    File(DingTalkFileContent),
    Link(DingTalkLinkContent),
    FeedCard(DingTalkFeedCardContent),
}

/// Plain text content.
#[derive(Debug, Clone, PartialEq, Eq, Default)]
pub struct DingTalkTextContent {
    pub content: String,
}

/// Markdown content with a title.
#[derive(Debug, Clone, PartialEq, Eq, Default)]
pub struct DingTalkMarkdownContent {
    pub title: String,
    pub text: String,
}

/// Action card with either a single button or a list of buttons.
#[derive(Debug, Clone, PartialEq, Eq, Default)]
pub struct DingTalkActionCardContent {
    pub title: String,
    pub markdown: String,
    pub single_title: Option<String>,
    pub single_url: Option<String>,
    pub btn_orientation: Option<String>,
    pub btns: Option<Vec<DingTalkActionCardButton>>,
}

/// A button of an action card.
#[derive(Debug, Clone, PartialEq, Eq)]
pub struct DingTalkActionCardButton {
    pub title: String,
    pub action_url: String,
}

/// Image content: a URL when outgoing, a download code when incoming.
#[derive(Debug, Clone, PartialEq, Eq, Default)]
pub struct DingTalkImageContent {
    pub pic_url: Option<String>,
    pub download_code: Option<String>,
}

/// Voice content.
#[derive(Debug, Clone, PartialEq, Eq, Default)]
pub struct DingTalkVoiceContent {
    pub download_code: String,
    pub duration: Option<i32>,
    pub recognition: Option<String>,
}

/// File content.
#[derive(Debug, Clone, PartialEq, Eq, Default)]
pub struct DingTalkFileContent {
    pub download_code: String,
    pub file_name: Option<String>,
    pub file_size: Option<i64>,
}

/// Link content.
#[derive(Debug, Clone, PartialEq, Eq, Default)]
pub struct DingTalkLinkContent {
    pub title: String,
    pub text: String,
    pub pic_url: Option<String>,
    pub message_url: String,
}

/// Feed card: a list of links.
#[derive(Debug, Clone, PartialEq, Eq, Default)]
pub struct DingTalkFeedCardContent {
    pub links: Vec<DingTalkFeedCardLink>,
}

/// One link of a feed card.
#[derive(Debug, Clone, PartialEq, Eq)]
pub struct DingTalkFeedCardLink {
    pub title: String,
    pub message_url: String,
    pub pic_url: Option<String>,
}

/// The message types DingTalk content can be parsed from.
#[derive(Debug, Clone, Copy, PartialEq, Eq, Structural)]
pub enum DingTalkMsgKind {
    Text,
    Markdown,
    ActionCard,
    Image,
    Voice,
    File,
    Link,
    FeedCard,
}

/// The content chosen for a message type reports that type back: a type
/// names at most one kind, and content of that kind is reported under the
/// type's name.
pub proof fn lemma_msg_type_round_trip(t: Seq<char>, k: DingTalkMsgKind, c: DingTalkContent)
    requires
        kind_name(k) == t,
        kind_of(c) == k,
    ensures
        kind_name(kind_of(c)) == t,
        forall|j: DingTalkMsgKind| kind_name(j) == t ==> j == k,
{
    reveal_strlit("text");
    reveal_strlit("markdown");
    reveal_strlit("action_card");
    reveal_strlit("image");
    reveal_strlit("voice");
    reveal_strlit("file");
    reveal_strlit("link");
    reveal_strlit("feedCard");
    assert forall|j: DingTalkMsgKind| kind_name(j) == t implies j == k by {
        assert(kind_name(j).len() == kind_name(k).len() && kind_name(j)[0] == kind_name(k)[0] && kind_name(j)[1]
            == kind_name(k)[1]);
        match j {
            DingTalkMsgKind::Text => {},
            DingTalkMsgKind::Markdown => {},
            DingTalkMsgKind::ActionCard => {},
            DingTalkMsgKind::Image => {},
            DingTalkMsgKind::Voice => {},
            DingTalkMsgKind::File => {},
            DingTalkMsgKind::Link => {},
            DingTalkMsgKind::FeedCard => {},
        }
    }
}

/// Parser and helpers for DingTalk content.
#[derive(Debug, Clone, Default)]
pub struct DingTalkContentParser;

/// The message-type name of each kind.
pub open spec fn kind_name(k: DingTalkMsgKind) -> Seq<char> {
    match k {
        DingTalkMsgKind::Text => "text"@,
        DingTalkMsgKind::Markdown => "markdown"@,
        DingTalkMsgKind::ActionCard => "action_card"@,
        DingTalkMsgKind::Image => "image"@,
        DingTalkMsgKind::Voice => "voice"@,
        DingTalkMsgKind::File => "file"@,
        DingTalkMsgKind::Link => "link"@,
        DingTalkMsgKind::FeedCard => "feedCard"@,
    }
}

/// The kind of a content value.
pub open spec fn kind_of(c: DingTalkContent) -> DingTalkMsgKind {
    match c {
        DingTalkContent::Text(_) => DingTalkMsgKind::Text,
        DingTalkContent::Markdown(_) => DingTalkMsgKind::Markdown,
        DingTalkContent::ActionCard(_) => DingTalkMsgKind::ActionCard,
        DingTalkContent::Image(_) => DingTalkMsgKind::Image,
        DingTalkContent::Voice(_) => DingTalkMsgKind::Voice,
        DingTalkContent::File(_) => DingTalkMsgKind::File,
        DingTalkContent::Link(_) => DingTalkMsgKind::Link,
        DingTalkContent::FeedCard(_) => DingTalkMsgKind::FeedCard,
    }
}

/// The key under which a webhook payload carries the content of a kind.
pub open spec fn payload_key_of(k: DingTalkMsgKind) -> Seq<char> {
    match k {
        DingTalkMsgKind::ActionCard => "actionCard"@,
        _ => kind_name(k),
    }
}

/// One line of a rendered feed card.
pub open spec fn feed_line(l: DingTalkFeedCardLink) -> Seq<char> {
    "- "@ + l.title@ + ": "@ + l.message_url@
}

/// The plain-text rendering of DingTalk content.
pub open spec fn dingtalk_text(c: DingTalkContent) -> Seq<char> {
    match c {
        DingTalkContent::Text(t) => t.content@,
        DingTalkContent::Markdown(m) => m.title@ + "\n"@ + m.text@,
        DingTalkContent::ActionCard(a) => a.title@ + "\n"@ + a.markdown@,
        DingTalkContent::Image(i) => match (i.pic_url, i.download_code) {
            (Some(url), _) => "[Image: "@ + url@ + "]"@,
            (None, Some(code)) => "[Image with download code: "@ + code@ + "]"@,
            (None, None) => "[Image]"@,
        },
        DingTalkContent::Voice(v) => match v.recognition {
            Some(r) => "[Voice: "@ + r@ + "]"@,
            None => "[Voice message]"@,
        },
        DingTalkContent::File(f) => match f.file_name {
            Some(n) => "[File: "@ + n@ + "]"@,
            None => "[File: "@ + "unnamed"@ + "]"@,
        },
        DingTalkContent::Link(l) => "[Link: "@ + l.title@ + " - "@ + l.message_url@ + "]"@,
        DingTalkContent::FeedCard(f) => "[Feed Card]\n"@ + join_seq(
            f.links@.map_values(|l: DingTalkFeedCardLink| feed_line(l)),
            "\n"@,
        ),
    }
}

/// The unified content type of each DingTalk variant.
pub open spec fn dingtalk_content_type(c: DingTalkContent) -> ContentType {
    match c {
        DingTalkContent::Text(_) => ContentType::Text,
        DingTalkContent::Markdown(_) => ContentType::Rich,
        DingTalkContent::ActionCard(_) => ContentType::Card,
        DingTalkContent::Image(_) => ContentType::Image,
        DingTalkContent::Voice(_) => ContentType::Audio,
        DingTalkContent::File(_) => ContentType::File,
        DingTalkContent::Link(_) => ContentType::Rich,
        DingTalkContent::FeedCard(_) => ContentType::Rich,
    }
}

impl DingTalkContent {
    /// The unified content type of this content.
    pub fn content_type(&self) -> (t: ContentType)
        ensures
            t == dingtalk_content_type(*self),
    {
        match self {
            DingTalkContent::Text(_) => ContentType::Text,
            DingTalkContent::Markdown(_) => ContentType::Rich,
            DingTalkContent::ActionCard(_) => ContentType::Card,
            DingTalkContent::Image(_) => ContentType::Image,
            DingTalkContent::Voice(_) => ContentType::Audio,
            DingTalkContent::File(_) => ContentType::File,
            DingTalkContent::Link(_) => ContentType::Rich,
            DingTalkContent::FeedCard(_) => ContentType::Rich,
        }
    }

    /// The plain-text rendering of this content.
    pub fn extract_text(&self) -> (s: String)
        ensures
            s@ == dingtalk_text(*self),
    {
        DingTalkContentParser::extract_text(self)
    }
}

impl DingTalkContentParser {
    /// Creates a parser.
    pub fn new() -> Self {
        DingTalkContentParser
    }

    /// The kind named by a message type, or the error for an unknown name.
    pub fn msg_kind(msg_type: &str) -> (r: Result<DingTalkMsgKind, AgentError>)
        ensures
            r matches Ok(k) ==> kind_name(k) == msg_type@,
            r is Err <==> (forall|k: DingTalkMsgKind| kind_name(k) != msg_type@),
            r matches Err(e) ==> e == AgentError::Platform(e->Platform_0)
                && e->Platform_0@ == "Unknown message type: "@ + msg_type@,
    {
        let kind = if str_eq(msg_type, "text") {
            DingTalkMsgKind::Text
        } else if str_eq(msg_type, "markdown") {
            DingTalkMsgKind::Markdown
        } else if str_eq(msg_type, "action_card") {
            DingTalkMsgKind::ActionCard
        } else if str_eq(msg_type, "image") {
            DingTalkMsgKind::Image
        } else if str_eq(msg_type, "voice") {
            DingTalkMsgKind::Voice
        } else if str_eq(msg_type, "file") {
            DingTalkMsgKind::File
        } else if str_eq(msg_type, "link") {
            DingTalkMsgKind::Link
        } else if str_eq(msg_type, "feedCard") {
            DingTalkMsgKind::FeedCard
        } else {
            assert forall|k: DingTalkMsgKind| kind_name(k) != msg_type@ by {
                match k {
                    DingTalkMsgKind::Text => {},
                    DingTalkMsgKind::Markdown => {},
                    DingTalkMsgKind::ActionCard => {},
                    DingTalkMsgKind::Image => {},
                    DingTalkMsgKind::Voice => {},
                    DingTalkMsgKind::File => {},
                    DingTalkMsgKind::Link => {},
                    DingTalkMsgKind::FeedCard => {},
                }
            }
            return Err(AgentError::Platform(message_with("Unknown message type: ", msg_type)));
        };
        assert(kind_name(kind) == msg_type@);
        Ok(kind)
    }

    /// The payload key that holds the content of a message type; `None` for
    /// an unknown type.
    pub fn payload_key(msg_type: &str) -> (r: Option<&'static str>)
        ensures
            r matches Some(key) ==> exists|k: DingTalkMsgKind|
                kind_name(k) == msg_type@ && #[trigger] payload_key_of(k) == key@,
            r is None <==> (forall|k: DingTalkMsgKind| kind_name(k) != msg_type@),
    {
        match Self::msg_kind(msg_type) {
            Ok(k) => {
                let key = match k {
                    DingTalkMsgKind::Text => "text",
                    DingTalkMsgKind::Markdown => "markdown",
                    DingTalkMsgKind::ActionCard => "actionCard",
                    DingTalkMsgKind::Image => "image",
                    DingTalkMsgKind::Voice => "voice",
                    DingTalkMsgKind::File => "file",
                    DingTalkMsgKind::Link => "link",
                    DingTalkMsgKind::FeedCard => "feedCard",
                };
                assert(payload_key_of(k) == key@);
                Some(key)
            },
            Err(_) => None,
        }
    }

    /// Extracts plain text from any content type.
    pub fn extract_text(content: &DingTalkContent) -> (s: String)
        ensures
            s@ == dingtalk_text(*content),
    {
        match content {
            DingTalkContent::Text(text) => text.content.clone(),
            DingTalkContent::Markdown(m) => {
                let mut s = m.title.clone();
                push_str(&mut s, "\n");
                push_str(&mut s, m.text.as_str());
                s
            },
            DingTalkContent::ActionCard(card) => {
                let mut s = card.title.clone();
                push_str(&mut s, "\n");
                push_str(&mut s, card.markdown.as_str());
                s
            },
            DingTalkContent::Image(image) => {
                if let Some(url) = &image.pic_url {
                    let mut s = to_owned_string("[Image: ");
                    push_str(&mut s, url.as_str());
                    push_str(&mut s, "]");
                    s
                } else if let Some(code) = &image.download_code {
                    let mut s = to_owned_string("[Image with download code: ");
                    push_str(&mut s, code.as_str());
                    push_str(&mut s, "]");
                    s
                } else {
                    to_owned_string("[Image]")
                }
            },
            DingTalkContent::Voice(voice) => {
                if let Some(recognition) = &voice.recognition {
                    let mut s = to_owned_string("[Voice: ");
                    push_str(&mut s, recognition.as_str());
                    push_str(&mut s, "]");
                    s
                } else {
                    to_owned_string("[Voice message]")
                }
            },
            DingTalkContent::File(file) => {
                let mut s = to_owned_string("[File: ");
                match &file.file_name {
                    Some(n) => push_str(&mut s, n.as_str()),
                    None => push_str(&mut s, "unnamed"),
                }
                push_str(&mut s, "]");
                s
            },
            DingTalkContent::Link(link) => {
                let mut s = to_owned_string("[Link: ");
                push_str(&mut s, link.title.as_str());
                push_str(&mut s, " - ");
                push_str(&mut s, link.message_url.as_str());
                push_str(&mut s, "]");
                s
            },
            DingTalkContent::FeedCard(feed_card) => {
                let mut lines: Vec<String> = Vec::new();
                let mut i: usize = 0;
                while i < feed_card.links.len()
                    invariant
                        i <= feed_card.links.len(),
                        views(lines@) =~= feed_card.links@.subrange(0, i as int).map_values(
                            |l: DingTalkFeedCardLink| feed_line(l),
                        ),
                    decreases feed_card.links.len() - i,
                {
                    let l = &feed_card.links[i];
                    let mut line = to_owned_string("- ");
                    push_str(&mut line, l.title.as_str());
                    push_str(&mut line, ": ");
                    push_str(&mut line, l.message_url.as_str());
                    assert(line@ == feed_line(*l));
                    let ghost old_lines = lines@;
                    lines.push(line);
                    proof {
                        let pre = feed_card.links@.subrange(0, i as int);
                        let f = |l: DingTalkFeedCardLink| feed_line(l);
                        assert(feed_card.links@.subrange(0, i + 1) =~= pre.push(*l));
                        assert(pre.push(*l).map_values(f) =~= pre.map_values(f).push(feed_line(*l)));
                        assert(views(lines@) =~= views(old_lines).push(feed_line(*l)));
                    }
                    i = i + 1;
                }
                assert(feed_card.links@.subrange(0, i as int) =~= feed_card.links@);
                let joined = join_strings(&lines, "\n");
                let mut s = to_owned_string("[Feed Card]\n");
                push_str(&mut s, joined.as_str());
                s
            },
        }
    }

    /// The message type name of a content value.
    pub fn get_msg_type(content: &DingTalkContent) -> (s: &'static str)
        ensures
            s@ == kind_name(kind_of(*content)),
    {
        match content {
            DingTalkContent::Text(_) => "text",
            DingTalkContent::Markdown(_) => "markdown",
            DingTalkContent::ActionCard(_) => "action_card",
            DingTalkContent::Image(_) => "image",
            DingTalkContent::Voice(_) => "voice",
            DingTalkContent::File(_) => "file",
            DingTalkContent::Link(_) => "link",
            DingTalkContent::FeedCard(_) => "feedCard",
        }
    }

    /// Text content.
    pub fn create_text(text: &str) -> (c: DingTalkContent)
        ensures
            c matches DingTalkContent::Text(t) && t.content@ == text@,
    {
        DingTalkContent::Text(DingTalkTextContent { content: to_owned_string(text) })
    }

    /// Markdown content.
    pub fn create_markdown(title: &str, text: &str) -> (c: DingTalkContent)
        ensures
            c matches DingTalkContent::Markdown(m) && m.title@ == title@ && m.text@ == text@,
    {
        DingTalkContent::Markdown(
            DingTalkMarkdownContent { title: to_owned_string(title), text: to_owned_string(text) },
        )
    }

    /// Action card with a single button.
    pub fn create_action_card(title: &str, markdown: &str, single_title: &str, single_url: &str) -> (c:
        DingTalkContent)
        ensures
            c matches DingTalkContent::ActionCard(a) && a.title@ == title@ && a.markdown@
                == markdown@ && (a.single_title matches Some(st) && st@ == single_title@)
                && (a.single_url matches Some(su) && su@ == single_url@) && a.btn_orientation is None
                && a.btns is None,
    {
        DingTalkContent::ActionCard(
            DingTalkActionCardContent {
                title: to_owned_string(title),
                markdown: to_owned_string(markdown),
                single_title: Some(to_owned_string(single_title)),
                single_url: Some(to_owned_string(single_url)),
                btn_orientation: None,
                btns: None,
            },
        )
    }

    /// Action card with several buttons, laid out vertically.
    pub fn create_action_card_with_buttons(
        title: &str,
        markdown: &str,
        buttons: Vec<DingTalkActionCardButton>,
    ) -> (c: DingTalkContent)
        ensures
            c matches DingTalkContent::ActionCard(a) && a.title@ == title@ && a.markdown@
                == markdown@ && a.single_title is None && a.single_url is None
                && (a.btn_orientation matches Some(o) && o@ == "0"@) && a.btns == Some(buttons),
    {
        DingTalkContent::ActionCard(
            DingTalkActionCardContent {
                title: to_owned_string(title),
                markdown: to_owned_string(markdown),
                single_title: None,
                single_url: None,
                btn_orientation: Some(to_owned_string("0")),
                btns: Some(buttons),
            },
        )
    }

    /// Image content referring to a URL.
    pub fn create_image(pic_url: &str) -> (c: DingTalkContent)
        ensures
            c matches DingTalkContent::Image(i) && i.pic_url matches Some(u) && u@ == pic_url@
                && i.download_code is None,
    {
        DingTalkContent::Image(
            DingTalkImageContent { pic_url: Some(to_owned_string(pic_url)), download_code: None },
        )
    }

    /// Link content.
    pub fn create_link(title: &str, text: &str, message_url: &str) -> (c: DingTalkContent)
        ensures
            c matches DingTalkContent::Link(l) && l.title@ == title@ && l.text@ == text@
                && l.pic_url is None && l.message_url@ == message_url@,
    {
        DingTalkContent::Link(
            DingTalkLinkContent {
                title: to_owned_string(title),
                text: to_owned_string(text),
                pic_url: None,
                message_url: to_owned_string(message_url),
            },
        )
    }

    /// Whether the content carries buttons or actions.
    pub fn has_actions(content: &DingTalkContent) -> (b: bool)
        ensures
            b == (content is ActionCard || content is Link),
    {
        match content {
            DingTalkContent::ActionCard(_) => true,
            DingTalkContent::Link(_) => true,
            _ => false,
        }
    }

    /// The download code of image, voice or file content.
    pub fn get_download_code(content: &DingTalkContent) -> (r: Option<String>)
        ensures
            r == match *content {
                DingTalkContent::Image(i) => i.download_code,
                DingTalkContent::Voice(v) => Some(v.download_code),
                DingTalkContent::File(f) => Some(f.download_code),
                _ => None,
            },
    {
        match content {
            DingTalkContent::Image(image) => clone_opt(&image.download_code),
            DingTalkContent::Voice(voice) => Some(voice.download_code.clone()),
            DingTalkContent::File(file) => Some(file.download_code.clone()),
            _ => None,
        }
    }

    /// The file name of file content, or the name under which voice and
    /// downloaded image content is stored.
    pub fn get_file_name(content: &DingTalkContent) -> (r: Option<String>)
        ensures
            match *content {
                DingTalkContent::File(f) => r == f.file_name,
                DingTalkContent::Voice(v) => r matches Some(n) && n@ == "voice_"@
                    + v.download_code@ + ".amr"@,
                DingTalkContent::Image(i) => match i.download_code {
                    Some(code) => r matches Some(n) && n@ == "image_"@ + code@ + ".jpg"@,
                    None => r is None,
                },
                _ => r is None,
            },
    {
        match content {
            DingTalkContent::File(file) => clone_opt(&file.file_name),
            DingTalkContent::Voice(voice) => {
                let mut s = to_owned_string("voice_");
                push_str(&mut s, voice.download_code.as_str());
                push_str(&mut s, ".amr");
                Some(s)
            },
            DingTalkContent::Image(image) => {
                if let Some(code) = &image.download_code {
                    let mut s = to_owned_string("image_");
                    push_str(&mut s, code.as_str());
                    push_str(&mut s, ".jpg");
                    Some(s)
                } else {
                    None
                }
            },
            _ => None,
        }
    }
}

impl DingTalkImageContent {
    /// The unified media form: the URL (or empty), with the download code as
    /// thumbnail.
    pub fn to_media_content(&self) -> (m: MediaContent)
        ensures
            m.url@ == opt_or_empty(self.pic_url),
            m.mime_type is None && m.filename is None && m.size is None && m.width is None
                && m.height is None && m.duration is None && m.caption is None,
            m.thumbnail == self.download_code,
    {
        MediaContent {
            url: string_or_empty(&self.pic_url),
            mime_type: None,
            filename: None,
            size: None,
            width: None,
            height: None,
            duration: None,
            caption: None,
            thumbnail: clone_opt(&self.download_code),
        }
    }
}

impl DingTalkVoiceContent {
    /// The unified media form of an AMR voice note.
    pub fn to_media_content(&self) -> (m: MediaContent)
        ensures
            m.url == self.download_code,
            m.mime_type matches Some(t) && t@ == "audio/amr"@,
            m.filename matches Some(n) && n@ == "voice_"@ + self.download_code@ + ".amr"@,
            m.size is None && m.width is None && m.height is None,
            m.duration == self.duration,
            m.caption == self.recognition,
            m.thumbnail is None,
    {
        let mut name = to_owned_string("voice_");
        push_str(&mut name, self.download_code.as_str());
        push_str(&mut name, ".amr");
        MediaContent {
            url: self.download_code.clone(),
            mime_type: Some(to_owned_string("audio/amr")),
            filename: Some(name),
            size: None,
            width: None,
            height: None,
            duration: self.duration,
            caption: clone_opt(&self.recognition),
            thumbnail: None,
        }
    }
}

impl DingTalkFileContent {
    /// The unified media form of a file.
    pub fn to_media_content(&self) -> (m: MediaContent)
        ensures
            m.url == self.download_code,
            m.mime_type is None,
            m.filename == self.file_name,
            m.size == self.file_size,
            m.width is None && m.height is None && m.duration is None && m.caption is None
                && m.thumbnail is None,
    {
        MediaContent {
            url: self.download_code.clone(),
            mime_type: None,
            filename: clone_opt(&self.file_name),
            size: self.file_size,
            width: None,
            height: None,
            duration: None,
            caption: None,
            thumbnail: None,
        }
    }
}

/// Whether `t` is `head`, a newline and `body`, read position by position.
pub open spec fn head_line_then(t: Seq<char>, head: Seq<char>, body: Seq<char>) -> bool {
    &&& t.len() == head.len() + 1 + body.len()
    &&& forall|i: int| 0 <= i < head.len() ==> t[i] == head[i]
    &&& t[head.len() as int] == '\n'
    &&& forall|i: int| 0 <= i < body.len() ==> t[head.len() + 1 + i] == body[i]
}

/// The plain text of a titled message shows its title on the first line
/// and its body after it: a markdown message its title then its text, an
/// action card its title then its markdown; a text message is its content.
pub proof fn lemma_titled_text(c: DingTalkContent)
    ensures
        c matches DingTalkContent::Markdown(m) ==> head_line_then(dingtalk_text(c), m.title@, m.text@),
        c matches DingTalkContent::ActionCard(a) ==> head_line_then(dingtalk_text(c), a.title@, a.markdown@),
        c matches DingTalkContent::Text(t) ==> dingtalk_text(c) == t.content@,
{
    reveal_strlit("\n");
    match c {
        DingTalkContent::Markdown(m) => {
            let t = dingtalk_text(c);
            assert(t == m.title@ + "\n"@ + m.text@);
            assert forall|i: int| 0 <= i < m.text@.len() implies t[m.title@.len() + 1 + i] == m.text@[i] by {}
        },
        DingTalkContent::ActionCard(a) => {
            let t = dingtalk_text(c);
            assert(t == a.title@ + "\n"@ + a.markdown@);
            assert forall|i: int| 0 <= i < a.markdown@.len() implies t[a.title@.len() + 1 + i] == a.markdown@[i] by {}
        },
        _ => {},
    }
}

} // verus!
