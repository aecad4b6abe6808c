//! Discord message content: variants, text rendering, constructors and the
//! embed builder.

use vstd::prelude::*;

use crate::content::{clone_opt, opt_or_empty, ContentType, MediaContent};
use crate::error::{message_with, AgentError};
use crate::text::{
    join_seq, join_strings, push_signed_decimal, push_str, signed_decimal, str_eq,
    to_owned_string, views,
};

verus! {

/// Discord message content types.
#[derive(Debug, Clone, PartialEq, Eq)]
pub enum DiscordContent {
    Text(DiscordTextContent),
    Embed(DiscordEmbedContent),
    File(DiscordFileContent),
    Image(DiscordImageContent),
    Video(DiscordVideoContent),
    Sticker(DiscordStickerContent),
    Reaction(DiscordReactionContent),
}

/// Plain text content.
#[derive(Debug, Clone, PartialEq, Eq, Default)]
pub struct DiscordTextContent {
    pub text: String,
    pub tts: Option<bool>,
    pub allowed_mentions: Option<AllowedMentions>,
    pub message_reference: Option<MessageReference>,
}

/// Which mentions in a message may ping.
#[derive(Debug, Clone, PartialEq, Eq, Default)]
pub struct AllowedMentions {
    pub parse: Option<Vec<String>>,
    pub roles: Option<Vec<String>>,
    pub users: Option<Vec<String>>,
    pub replied_user: Option<bool>,
}

/// Reference to the message being replied to.
#[derive(Debug, Clone, PartialEq, Eq)]
pub struct MessageReference {
    pub message_id: Option<String>,
    pub channel_id: Option<String>,
    pub guild_id: Option<String>,
    pub fail_if_not_exists: Option<bool>,
}

/// Rich embed content.
#[derive(Debug, Clone, PartialEq, Eq, Default)]
pub struct DiscordEmbedContent {
    pub title: Option<String>,
    pub embed_type: Option<String>,
    pub description: Option<String>,
    pub url: Option<String>,
    pub timestamp: Option<String>,
    pub color: Option<i32>,
    pub footer: Option<EmbedFooter>,
    pub image: Option<EmbedImage>,
    pub thumbnail: Option<EmbedThumbnail>,
    pub video: Option<EmbedVideo>,
    pub provider: Option<EmbedProvider>,
    pub author: Option<EmbedAuthor>,
    pub fields: Option<Vec<EmbedField>>,
}

/// Embed footer.
#[derive(Debug, Clone, PartialEq, Eq)]
pub struct EmbedFooter {
    pub text: String,
    pub icon_url: Option<String>,
    pub proxy_icon_url: Option<String>,
}

/// Embed image.
#[derive(Debug, Clone, PartialEq, Eq)]
pub struct EmbedImage {
    pub url: String,
    pub proxy_url: Option<String>,
    pub height: Option<i32>,
    pub width: Option<i32>,
}

/// Embed thumbnail.
#[derive(Debug, Clone, PartialEq, Eq)]
pub struct EmbedThumbnail {
    pub url: String,
    pub proxy_url: Option<String>,
    pub height: Option<i32>,
    pub width: Option<i32>,
}

/// Embed video.
#[derive(Debug, Clone, PartialEq, Eq)]
pub struct EmbedVideo {
    pub url: Option<String>,
    pub proxy_url: Option<String>,
    pub height: Option<i32>,
    pub width: Option<i32>,
}

/// Embed provider.
#[derive(Debug, Clone, PartialEq, Eq)]
pub struct EmbedProvider {
    pub name: Option<String>,
    pub url: Option<String>,
}

/// Embed author.
#[derive(Debug, Clone, PartialEq, Eq)]
pub struct EmbedAuthor {
    pub name: String,
    pub url: Option<String>,
    pub icon_url: Option<String>,
    pub proxy_icon_url: Option<String>,
}

/// Embed field.
#[derive(Debug, Clone, PartialEq, Eq)]
pub struct EmbedField {
    pub name: String,
    pub value: String,
    pub inline: Option<bool>,
}

/// File attachment.
#[derive(Debug, Clone, PartialEq, Eq, Default)]
pub struct DiscordFileContent {
    pub filename: String,
    pub description: Option<String>,
    pub content_type: Option<String>,
    pub size: Option<i64>,
    pub url: Option<String>,
    pub spoiler: Option<bool>,
}

/// Image attachment.
#[derive(Debug, Clone, PartialEq, Eq, Default)]
pub struct DiscordImageContent {
    pub url: String,
    pub width: Option<i32>,
    pub height: Option<i32>,
    pub size: Option<i64>,
    pub content_type: Option<String>,
    pub caption: Option<String>,
}

/// Video attachment.
#[derive(Debug, Clone, PartialEq, Eq, Default)]
pub struct DiscordVideoContent {
    pub url: String,
    pub width: Option<i32>,
    pub height: Option<i32>,
    pub duration: Option<i32>,
    pub size: Option<i64>,
    pub content_type: Option<String>,
    pub caption: Option<String>,
}

/// Sticker.
#[derive(Debug, Clone, PartialEq, Eq, Default)]
pub struct DiscordStickerContent {
    pub id: String,
    pub name: String,
    pub format_type: i32,
    pub emoji: Option<String>,
    pub url: Option<String>,
}

/// Reaction.
#[derive(Debug, Clone, PartialEq, Eq, Default)]
pub struct DiscordReactionContent {
    pub emoji: ReactionEmoji,
    pub count: i32,
    pub me: Option<bool>,
    pub message_id: Option<String>,
    pub channel_id: Option<String>,
}

/// The emoji of a reaction.
#[derive(Debug, Clone, PartialEq, Eq, Default)]
pub struct ReactionEmoji {
    pub id: Option<String>,
    pub name: String,
    pub animated: Option<bool>,
}

/// The content types Discord content can be parsed from.
#[derive(Debug, Clone, Copy, PartialEq, Eq, Structural)]
pub enum DiscordKind {
    Text,
    Embed,
    File,
    Image,
    Video,
    Sticker,
    Reaction,
}

/// Parser and helpers for Discord content.
#[derive(Debug, Clone, Default)]
pub struct DiscordContentParser;

/// The content-type name of each kind.
pub open spec fn discord_kind_name(k: DiscordKind) -> Seq<char> {
    match k {
        DiscordKind::Text => "text"@,
        DiscordKind::Embed => "embed"@,
        DiscordKind::File => "file"@,
        DiscordKind::Image => "image"@,
        DiscordKind::Video => "video"@,
        DiscordKind::Sticker => "sticker"@,
        DiscordKind::Reaction => "reaction"@,
    }
}

/// The kind of a content value.
pub open spec fn discord_kind_of(c: DiscordContent) -> DiscordKind {
    match c {
        DiscordContent::Text(_) => DiscordKind::Text,
        DiscordContent::Embed(_) => DiscordKind::Embed,
        DiscordContent::File(_) => DiscordKind::File,
        DiscordContent::Image(_) => DiscordKind::Image,
        DiscordContent::Video(_) => DiscordKind::Video,
        DiscordContent::Sticker(_) => DiscordKind::Sticker,
        DiscordContent::Reaction(_) => DiscordKind::Reaction,
    }
}

/// The rendering of one embed field.
pub open spec fn field_line(f: EmbedField) -> Seq<char> {
    f.name@ + ": "@ + f.value@
}

/// The lines of an embed's rendering: title, description, then one line per
/// field.
pub open spec fn embed_lines(e: DiscordEmbedContent) -> Seq<Seq<char>> {
    (match e.title {
        Some(t) => seq![t@],
        None => Seq::empty(),
    }) + (match e.description {
        Some(d) => seq![d@],
        None => Seq::empty(),
    }) + (match e.fields {
        Some(fs) => fs@.map_values(|f: EmbedField| field_line(f)),
        None => Seq::empty(),
    })
}

/// The text of an optional duration in seconds, `?` when absent.
pub open spec fn duration_text(d: Option<i32>) -> Seq<char> {
    match d {
        Some(x) => signed_decimal(x as int),
        None => "?"@,
    }
}

/// The text of an optional caption, `(no caption)` when absent.
pub open spec fn caption_text(c: Option<String>) -> Seq<char> {
    match c {
        Some(x) => x@,
        None => "(no caption)"@,
    }
}

/// The plain-text rendering of Discord content.
pub open spec fn discord_text(c: DiscordContent) -> Seq<char> {
    match c {
        DiscordContent::Text(t) => t.text@,
        DiscordContent::Embed(e) => join_seq(embed_lines(e), "\n"@),
        DiscordContent::File(f) => "[File: "@ + f.filename@ + "]"@,
        DiscordContent::Image(i) => "[Image] "@ + caption_text(i.caption),
        DiscordContent::Video(v) => "[Video: "@ + duration_text(v.duration) + "s] "@
            + caption_text(v.caption),
        DiscordContent::Sticker(s) => "[Sticker: "@ + s.name@ + "]"@,
        DiscordContent::Reaction(r) => "[Reaction: "@ + r.emoji.name@ + "] x"@
            + signed_decimal(r.count as int),
    }
}

/// The unified content type of each Discord variant.
pub open spec fn discord_content_type(c: DiscordContent) -> ContentType {
    match c {
        DiscordContent::Text(_) => ContentType::Text,
        DiscordContent::Embed(_) => ContentType::Rich,
        DiscordContent::File(_) => ContentType::File,
        DiscordContent::Image(_) => ContentType::Image,
        DiscordContent::Video(_) => ContentType::Video,
        DiscordContent::Sticker(_) => ContentType::Sticker,
        DiscordContent::Reaction(_) => ContentType::System,
    }
}

fn push_caption(s: &mut String, c: &Option<String>)
    ensures
        final(s)@ == old(s)@ + caption_text(*c),
{
    match c {
        Some(x) => push_str(s, x.as_str()),
        None => push_str(s, "(no caption)"),
    }
}

impl DiscordContent {
    /// The unified content type of this content.
    pub fn content_type(&self) -> (t: ContentType)
        ensures
            t == discord_content_type(*self),
    {
        match self {
            DiscordContent::Text(_) => ContentType::Text,
            DiscordContent::Embed(_) => ContentType::Rich,
            DiscordContent::File(_) => ContentType::File,
            DiscordContent::Image(_) => ContentType::Image,
            DiscordContent::Video(_) => ContentType::Video,
            DiscordContent::Sticker(_) => ContentType::Sticker,
            DiscordContent::Reaction(_) => ContentType::System,
        }
    }

    /// The plain-text rendering of this content.
    pub fn extract_text(&self) -> (s: String)
        ensures
            s@ == discord_text(*self),
    {
        DiscordContentParser::extract_text(self)
    }
}

impl DiscordContentParser {
    /// Creates a parser.
    pub fn new() -> Self {
        DiscordContentParser
    }

    /// The kind named by a content type, or the error for an unknown name.
    pub fn content_kind(content_type: &str) -> (r: Result<DiscordKind, AgentError>)
        ensures
            r matches Ok(k) ==> discord_kind_name(k) == content_type@,
            r is Err <==> (forall|k: DiscordKind| discord_kind_name(k) != content_type@),
            r matches Err(e) ==> e == AgentError::Platform(e->Platform_0)
                && e->Platform_0@ == "Unknown content type: "@ + content_type@,
    {
        let kind = if str_eq(content_type, "text") {
            DiscordKind::Text
        } else if str_eq(content_type, "embed") {
            DiscordKind::Embed
        } else if str_eq(content_type, "file") {
            DiscordKind::File
        } else if str_eq(content_type, "image") {
            DiscordKind::Image
        } else if str_eq(content_type, "video") {
            DiscordKind::Video
        } else if str_eq(content_type, "sticker") {
            DiscordKind::Sticker
        } else if str_eq(content_type, "reaction") {
            DiscordKind::Reaction
        } else {
            assert forall|k: DiscordKind| discord_kind_name(k) != content_type@ by {
                match k {
                    DiscordKind::Text => {},
                    DiscordKind::Embed => {},
                    DiscordKind::File => {},
                    DiscordKind::Image => {},
                    DiscordKind::Video => {},
                    DiscordKind::Sticker => {},
                    DiscordKind::Reaction => {},
                }
            }
            return Err(AgentError::Platform(message_with("Unknown content type: ", content_type)));
        };
        assert(discord_kind_name(kind) == content_type@);
        Ok(kind)
    }

    /// Extracts plain text from any content type.
    pub fn extract_text(content: &DiscordContent) -> (s: String)
        ensures
            s@ == discord_text(*content),
    {
        match content {
            DiscordContent::Text(text) => text.text.clone(),
            DiscordContent::Embed(embed) => {
                let mut texts: Vec<String> = Vec::new();
                if let Some(title) = &embed.title {
                    texts.push(title.clone());
                }
                if let Some(description) = &embed.description {
                    texts.push(description.clone());
                }
                let ghost head = views(texts@);
                assert(head =~= (match embed.title {
                    Some(t) => seq![t@],
                    None => Seq::<Seq<char>>::empty(),
                }) + (match embed.description {
                    Some(d) => seq![d@],
                    None => Seq::<Seq<char>>::empty(),
                }));
                if let Some(fields) = &embed.fields {
                    let mut i: usize = 0;
                    while i < fields.len()
                        invariant
                            i <= fields.len(),
                            views(texts@) =~= head + fields@.subrange(0, i as int).map_values(|f: EmbedField| field_line(f)),
                        decreases fields.len() - i,
                    {
                        let f = &fields[i];
                        let mut line = f.name.clone();
                        push_str(&mut line, ": ");
                        push_str(&mut line, f.value.as_str());
                        assert(line@ == f.name@ + ": "@ + f.value@);
                        assert(line@ == field_line(*f));
                        let ghost old_texts = texts@;
                        texts.push(line);
                        proof {
                            let pre = fields@.subrange(0, i as int);
                            assert(fields@.subrange(0, i + 1) =~= pre.push(*f));
                            assert(pre.push(*f).map_values(|f: EmbedField| field_line(f)) =~= pre.map_values(|f: EmbedField| field_line(f)).push(
                                field_line(*f),
                            ));
                            assert(views(texts@) =~= views(old_texts).push(field_line(*f)));
                        }
                        i = i + 1;
                    }
                    assert(fields@.subrange(0, fields.len() as int) =~= fields@);
                }
                assert(views(texts@) =~= embed_lines(*embed));
                join_strings(&texts, "\n")
            },
            DiscordContent::File(file) => {
                let mut s = to_owned_string("[File: ");
                push_str(&mut s, file.filename.as_str());
                push_str(&mut s, "]");
                s
            },
            DiscordContent::Image(image) => {
                let mut s = to_owned_string("[Image] ");
                push_caption(&mut s, &image.caption);
                s
            },
            DiscordContent::Video(video) => {
                let mut s = to_owned_string("[Video: ");
                match video.duration {
                    Some(d) => push_signed_decimal(&mut s, d as i64),
                    None => push_str(&mut s, "?"),
                }
                push_str(&mut s, "s] ");
                push_caption(&mut s, &video.caption);
                s
            },
            DiscordContent::Sticker(sticker) => {
                let mut s = to_owned_string("[Sticker: ");
                push_str(&mut s, sticker.name.as_str());
                push_str(&mut s, "]");
                s
            },
            DiscordContent::Reaction(reaction) => {
                let mut s = to_owned_string("[Reaction: ");
                push_str(&mut s, reaction.emoji.name.as_str());
                push_str(&mut s, "] x");
                push_signed_decimal(&mut s, reaction.count as i64);
                s
            },
        }
    }

    /// The content type name of a content value.
    pub fn get_content_type(content: &DiscordContent) -> (s: &'static str)
        ensures
            s@ == discord_kind_name(discord_kind_of(*content)),
    {
        match content {
            DiscordContent::Text(_) => "text",
            DiscordContent::Embed(_) => "embed",
            DiscordContent::File(_) => "file",
            DiscordContent::Image(_) => "image",
            DiscordContent::Video(_) => "video",
            DiscordContent::Sticker(_) => "sticker",
            DiscordContent::Reaction(_) => "reaction",
        }
    }

    /// Text content with no extras.
    pub fn create_text(text: &str) -> (c: DiscordContent)
        ensures
            c matches DiscordContent::Text(t) && t.text@ == text@ && t.tts is None
                && t.allowed_mentions is None && t.message_reference is None,
    {
        DiscordContent::Text(
            DiscordTextContent {
                text: to_owned_string(text),
                tts: None,
                allowed_mentions: None,
                message_reference: None,
            },
        )
    }

    /// Embed content.
    pub fn create_embed(embed: DiscordEmbedContent) -> (c: DiscordContent)
        ensures
            c == DiscordContent::Embed(embed),
    {
        DiscordContent::Embed(embed)
    }

    /// File content.
    pub fn create_file(filename: &str, url: Option<String>) -> (c: DiscordContent)
        ensures
            c matches DiscordContent::File(f) && f.filename@ == filename@ && f.url == url
                && f.description is None && f.content_type is None && f.size is None
                && f.spoiler is None,
    {
        DiscordContent::File(
            DiscordFileContent {
                filename: to_owned_string(filename),
                description: None,
                content_type: None,
                size: None,
                url,
                spoiler: None,
            },
        )
    }

    /// Image content.
    pub fn create_image(url: &str) -> (c: DiscordContent)
        ensures
            c matches DiscordContent::Image(i) && i.url@ == url@ && i.width is None
                && i.height is None && i.size is None && i.content_type is None
                && i.caption is None,
    {
        DiscordContent::Image(
            DiscordImageContent {
                url: to_owned_string(url),
                width: None,
                height: None,
                size: None,
                content_type: None,
                caption: None,
            },
        )
    }

    /// Video content.
    pub fn create_video(url: &str) -> (c: DiscordContent)
        ensures
            c matches DiscordContent::Video(v) && v.url@ == url@ && v.width is None
                && v.height is None && v.duration is None && v.size is None
                && v.content_type is None && v.caption is None,
    {
        DiscordContent::Video(
            DiscordVideoContent {
                url: to_owned_string(url),
                width: None,
                height: None,
                duration: None,
                size: None,
                content_type: None,
                caption: None,
            },
        )
    }

    /// Sticker content in PNG format.
    pub fn create_sticker(id: &str, name: &str) -> (c: DiscordContent)
        ensures
            c matches DiscordContent::Sticker(s) && s.id@ == id@ && s.name@ == name@
                && s.format_type == 1 && s.emoji is None && s.url is None,
    {
        DiscordContent::Sticker(
            DiscordStickerContent {
                id: to_owned_string(id),
                name: to_owned_string(name),
                format_type: 1,
                emoji: None,
                url: None,
            },
        )
    }

    /// Reaction content.
    pub fn create_reaction(emoji_name: &str, count: i32) -> (c: DiscordContent)
        ensures
            c matches DiscordContent::Reaction(r) && r.emoji.name@ == emoji_name@
                && r.emoji.id is None && r.emoji.animated is None && r.count == count
                && r.me is None && r.message_id is None && r.channel_id is None,
    {
        DiscordContent::Reaction(
            DiscordReactionContent {
                emoji: ReactionEmoji { id: None, name: to_owned_string(emoji_name), animated: None },
                count,
                me: None,
                message_id: None,
                channel_id: None,
            },
        )
    }
}

/// Fluent builder for rich embeds.
pub struct EmbedBuilder {
    embed: DiscordEmbedContent,
}

impl View for EmbedBuilder {
    type V = DiscordEmbedContent;

    closed spec fn view(&self) -> DiscordEmbedContent {
        self.embed
    }
}

/// An embed of type `rich` with nothing else set.
pub open spec fn empty_rich_embed(e: DiscordEmbedContent) -> bool {
    &&& e.title is None
    &&& (e.embed_type matches Some(t) && t@ == "rich"@)
    &&& e.description is None
    &&& e.url is None
    &&& e.timestamp is None
    &&& e.color is None
    &&& e.footer is None
    &&& e.image is None
    &&& e.thumbnail is None
    &&& e.video is None
    &&& e.provider is None
    &&& e.author is None
    &&& e.fields is None
}

/// The views of the fields of an embed, empty when it has none.
pub open spec fn field_seq(e: DiscordEmbedContent) -> Seq<EmbedField> {
    match e.fields {
        Some(v) => v@,
        None => Seq::empty(),
    }
}

impl EmbedBuilder {
    /// A builder for a `rich` embed with nothing set.
    pub fn new() -> (b: Self)
        ensures
            empty_rich_embed(b@),
    {
        EmbedBuilder {
            embed: DiscordEmbedContent {
                title: None,
                embed_type: Some(to_owned_string("rich")),
                description: None,
                url: None,
                timestamp: None,
                color: None,
                footer: None,
                image: None,
                thumbnail: None,
                video: None,
                provider: None,
                author: None,
                fields: None,
            },
        }
    }

    /// Sets the title.
    pub fn title(self, title: &str) -> (b: Self)
        ensures
            b@ == (DiscordEmbedContent { title: b@.title, ..self@ }),
            b@.title matches Some(t) && t@ == title@,
    {
        let mut s = self;
        s.embed.title = Some(to_owned_string(title));
        s
    }

    /// Sets the description.
    pub fn description(self, description: &str) -> (b: Self)
        ensures
            b@ == (DiscordEmbedContent { description: b@.description, ..self@ }),
            b@.description matches Some(t) && t@ == description@,
    {
        let mut s = self;
        s.embed.description = Some(to_owned_string(description));
        s
    }

    /// Sets the URL.
    pub fn url(self, url: &str) -> (b: Self)
        ensures
            b@ == (DiscordEmbedContent { url: b@.url, ..self@ }),
            b@.url matches Some(t) && t@ == url@,
    {
        let mut s = self;
        s.embed.url = Some(to_owned_string(url));
        s
    }

    /// Sets the colour.
    pub fn color(self, color: i32) -> (b: Self)
        ensures
            b@ == (DiscordEmbedContent { color: Some(color), ..self@ }),
    {
        let mut s = self;
        s.embed.color = Some(color);
        s
    }

    /// Sets the timestamp text.
    pub fn timestamp(self, timestamp: &str) -> (b: Self)
        ensures
            b@ == (DiscordEmbedContent { timestamp: b@.timestamp, ..self@ }),
            b@.timestamp matches Some(t) && t@ == timestamp@,
    {
        let mut s = self;
        s.embed.timestamp = Some(to_owned_string(timestamp));
        s
    }

    /// Sets the footer.
    pub fn footer(self, text: &str, icon_url: Option<String>) -> (b: Self)
        ensures
            b@ == (DiscordEmbedContent { footer: b@.footer, ..self@ }),
            b@.footer matches Some(f) && f.text@ == text@ && f.icon_url == icon_url
                && f.proxy_icon_url is None,
    {
        let mut s = self;
        s.embed.footer = Some(EmbedFooter { text: to_owned_string(text), icon_url, proxy_icon_url: None });
        s
    }

    /// Sets the image.
    pub fn image(self, url: &str) -> (b: Self)
        ensures
            b@ == (DiscordEmbedContent { image: b@.image, ..self@ }),
            b@.image matches Some(i) && i.url@ == url@ && i.proxy_url is None && i.height is None
                && i.width is None,
    {
        let mut s = self;
        s.embed.image = Some(EmbedImage { url: to_owned_string(url), proxy_url: None, height: None, width: None });
        s
    }

    /// Sets the thumbnail.
    pub fn thumbnail(self, url: &str) -> (b: Self)
        ensures
            b@ == (DiscordEmbedContent { thumbnail: b@.thumbnail, ..self@ }),
            b@.thumbnail matches Some(i) && i.url@ == url@ && i.proxy_url is None
                && i.height is None && i.width is None,
    {
        let mut s = self;
        s.embed.thumbnail = Some(
            EmbedThumbnail { url: to_owned_string(url), proxy_url: None, height: None, width: None },
        );
        s
    }

    /// Sets the author.
    pub fn author(self, name: &str, url: Option<String>, icon_url: Option<String>) -> (b: Self)
        ensures
            b@ == (DiscordEmbedContent { author: b@.author, ..self@ }),
            b@.author matches Some(a) && a.name@ == name@ && a.url == url && a.icon_url
                == icon_url && a.proxy_icon_url is None,
    {
        let mut s = self;
        s.embed.author = Some(
            EmbedAuthor { name: to_owned_string(name), url, icon_url, proxy_icon_url: None },
        );
        s
    }

    /// Appends a field.
    pub fn field(self, name: &str, value: &str, inline: bool) -> (b: Self)
        ensures
            b@ == (DiscordEmbedContent { fields: b@.fields, ..self@ }),
            b@.fields is Some,
            field_seq(b@).len() == field_seq(self@).len() + 1,
            field_seq(b@).drop_last() == field_seq(self@),
            field_seq(b@).last().name@ == name@,
            field_seq(b@).last().value@ == value@,
            field_seq(b@).last().inline == Some(inline),
    {
        let field = EmbedField { name: to_owned_string(name), value: to_owned_string(value), inline: Some(inline) };
        let mut s = self;
        let fields = s.embed.fields.take();
        match fields {
            Some(mut v) => {
                let ghost old_v = v@;
                v.push(field);
                assert(v@.drop_last() =~= old_v);
                s.embed.fields = Some(v);
            },
            None => {
                let mut v: Vec<EmbedField> = Vec::new();
                v.push(field);
                assert(v@.drop_last() =~= Seq::<EmbedField>::empty());
                s.embed.fields = Some(v);
            },
        }
        s
    }

    /// The finished embed.
    pub fn build(self) -> (e: DiscordEmbedContent)
        ensures
            e == self@,
    {
        self.embed
    }

    /// The finished embed as content.
    pub fn build_content(self) -> (c: DiscordContent)
        ensures
            c == DiscordContent::Embed(self@),
    {
        DiscordContent::Embed(self.embed)
    }
}

impl DiscordImageContent {
    /// The unified media form of an image.
    pub fn to_media_content(&self) -> (m: MediaContent)
        ensures
            m.url == self.url && m.width == self.width && m.height == self.height
                && m.size == self.size && m.mime_type == self.content_type
                && m.filename is None && m.caption == self.caption && m.thumbnail is None
                && m.duration is None,
    {
        MediaContent {
            url: self.url.clone(),
            width: self.width,
            height: self.height,
            size: self.size,
            mime_type: clone_opt(&self.content_type),
            filename: None,
            caption: clone_opt(&self.caption),
            thumbnail: None,
            duration: None,
        }
    }
}

impl DiscordVideoContent {
    /// The unified media form of a video.
    pub fn to_media_content(&self) -> (m: MediaContent)
        ensures
            m.url == self.url && m.width == self.width && m.height == self.height
                && m.duration == self.duration && m.mime_type == self.content_type
                && m.filename is None && m.caption == self.caption && m.size == self.size
                && m.thumbnail is None,
    {
        MediaContent {
            url: self.url.clone(),
            width: self.width,
            height: self.height,
            duration: self.duration,
            mime_type: clone_opt(&self.content_type),
            filename: None,
            caption: clone_opt(&self.caption),
            size: self.size,
            thumbnail: None,
        }
    }
}

impl DiscordFileContent {
    /// The unified media form of a file attachment.
    pub fn to_media_content(&self) -> (m: MediaContent)
        ensures
            m.url@ == opt_or_empty(self.url) && m.mime_type == self.content_type
                && m.filename == Some(self.filename) && m.size == self.size && m.width is None
                && m.height is None && m.duration is None && m.caption == self.description
                && m.thumbnail is None,
    {
        MediaContent {
            url: crate::content::string_or_empty(&self.url),
            mime_type: clone_opt(&self.content_type),
            filename: Some(self.filename.clone()),
            size: self.size,
            width: None,
            height: None,
            duration: None,
            caption: clone_opt(&self.description),
            thumbnail: None,
        }
    }
}

} // verus!
