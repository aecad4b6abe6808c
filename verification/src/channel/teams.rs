//! Microsoft Teams message content: variants, text rendering, constructors
//! and the HTML helpers used for Teams messages.

use vstd::prelude::*;

use crate::content::{BaseChannelConfig, ConnectionMode, clone_opt, ContentType, MediaContent};
use crate::error::{message_with, AgentError};
use crate::text::{
    chars_of, collapse_white, collapse_whitespace, ends_with_seq, join_seq, join_strings,
    push_char, push_signed_decimal, push_str, replace_all, replace_str, signed_decimal, concat, part_ok, lemma_replace_parts,
    starts_with_seq, str_ends_with, str_eq, str_starts_with, to_owned_string, views,
};

verus! {

/// Teams message content types.
#[derive(Debug, Clone, PartialEq, Eq)]
pub enum TeamsContent {
    Text(TeamsTextContent),
    Html(TeamsHtmlContent),
    AdaptiveCard(TeamsAdaptiveCardContent),
    HeroCard(TeamsHeroCardContent),
    ThumbnailCard(TeamsThumbnailCardContent),
    File(TeamsFileContent),
    Image(TeamsImageContent),
    Video(TeamsVideoContent),
    Audio(TeamsAudioContent),
    RichText(TeamsRichTextContent),
}

/// Text content.
#[derive(Debug, Clone, PartialEq, Eq, Default)]
pub struct TeamsTextContent {
    pub text: String,
    pub text_format: Option<String>,
}

/// HTML content.
#[derive(Debug, Clone, PartialEq, Eq, Default)]
pub struct TeamsHtmlContent {
    pub html: String,
    pub text: Option<String>,
}

/// One element of an adaptive card body: its JSON text and, when the
/// element has a string `text` member, that text.
#[derive(Debug, Clone, PartialEq, Eq, Default)]
pub struct TeamsCardElement {
    pub json: String,
    pub text: Option<String>,
}

/// Adaptive card content.
#[derive(Debug, Clone, PartialEq, Eq, Default)]
pub struct TeamsAdaptiveCardContent {
    pub version: String,
    pub body: Vec<TeamsCardElement>,
    pub actions: Option<Vec<TeamsCardElement>>,
    pub schema: Option<String>,
    pub fallback_text: Option<String>,
    pub speak: Option<String>,
    pub background_image: Option<String>,
    pub min_height: Option<String>,
    pub rtl: Option<bool>,
}

/// Hero card content.
#[derive(Debug, Clone, PartialEq, Eq, Default)]
pub struct TeamsHeroCardContent {
    pub title: String,
    pub subtitle: Option<String>,
    pub text: String,
    pub images: Option<Vec<TeamsCardImage>>,
    pub buttons: Option<Vec<TeamsCardAction>>,
    pub tap: Option<TeamsCardAction>,
}

/// Thumbnail card content.
#[derive(Debug, Clone, PartialEq, Eq, Default)]
pub struct TeamsThumbnailCardContent {
    pub title: String,
    pub subtitle: Option<String>,
    pub text: String,
    pub images: Option<Vec<TeamsCardImage>>,
    pub buttons: Option<Vec<TeamsCardAction>>,
    pub tap: Option<TeamsCardAction>,
}

/// Card image.
#[derive(Debug, Clone, PartialEq, Eq)]
pub struct TeamsCardImage {
    pub url: String,
    pub alt: Option<String>,
    pub tap: Option<TeamsCardAction>,
}

/// Card action.
#[derive(Debug, Clone, PartialEq, Eq)]
pub struct TeamsCardAction {
    pub action_type: String,
    pub title: String,
    pub value: String,
    pub image: Option<String>,
    pub display_text: Option<String>,
}

/// File attachment.
#[derive(Debug, Clone, PartialEq, Eq, Default)]
pub struct TeamsFileContent {
    pub name: String,
    pub content_url: String,
    pub content_type: String,
    pub size: Option<i64>,
    pub thumbnail_url: Option<String>,
}

/// Image attachment.
#[derive(Debug, Clone, PartialEq, Eq, Default)]
pub struct TeamsImageContent {
    pub url: String,
    pub alt: Option<String>,
    pub width: Option<i32>,
    pub height: Option<i32>,
    pub size: Option<i64>,
}

/// Video attachment.
#[derive(Debug, Clone, PartialEq, Eq, Default)]
pub struct TeamsVideoContent {
    pub url: String,
    pub width: Option<i32>,
    pub height: Option<i32>,
    pub duration: Option<i32>,
    pub thumbnail: Option<String>,
    pub title: Option<String>,
}

/// Audio attachment.
#[derive(Debug, Clone, PartialEq, Eq, Default)]
pub struct TeamsAudioContent {
    pub url: String,
    pub duration: Option<i32>,
    pub title: Option<String>,
}

/// Rich text with mentions.
#[derive(Debug, Clone, PartialEq, Eq, Default)]
pub struct TeamsRichTextContent {
    pub text: String,
    pub mentions: Option<Vec<TeamsMention>>,
    pub text_format: Option<String>,
}

/// A mention inside rich text.
#[derive(Debug, Clone, PartialEq, Eq)]
pub struct TeamsMention {
    pub mention_type: String,
    pub id: String,
    pub name: String,
    pub text: String,
}

/// The content types Teams content can be parsed from.
#[derive(Debug, Clone, Copy, PartialEq, Eq, Structural)]
pub enum TeamsKind {
    Text,
    Html,
    AdaptiveCard,
    HeroCard,
    ThumbnailCard,
    File,
    Image,
    Video,
    Audio,
    RichText,
}

/// Parser and helpers for Teams content.
#[derive(Debug, Clone, Default)]
pub struct TeamsContentParser;

/// The content-type name of each kind.
pub open spec fn teams_kind_name(k: TeamsKind) -> Seq<char> {
    match k {
        TeamsKind::Text => "text"@,
        TeamsKind::Html => "html"@,
        TeamsKind::AdaptiveCard => "adaptive_card"@,
        TeamsKind::HeroCard => "hero_card"@,
        TeamsKind::ThumbnailCard => "thumbnail_card"@,
        TeamsKind::File => "file"@,
        TeamsKind::Image => "image"@,
        TeamsKind::Video => "video"@,
        TeamsKind::Audio => "audio"@,
        TeamsKind::RichText => "rich_text"@,
    }
}

/// The kind of a content value.
pub open spec fn teams_kind_of(c: TeamsContent) -> TeamsKind {
    match c {
        TeamsContent::Text(_) => TeamsKind::Text,
        TeamsContent::Html(_) => TeamsKind::Html,
        TeamsContent::AdaptiveCard(_) => TeamsKind::AdaptiveCard,
        TeamsContent::HeroCard(_) => TeamsKind::HeroCard,
        TeamsContent::ThumbnailCard(_) => TeamsKind::ThumbnailCard,
        TeamsContent::File(_) => TeamsKind::File,
        TeamsContent::Image(_) => TeamsKind::Image,
        TeamsContent::Video(_) => TeamsKind::Video,
        TeamsContent::Audio(_) => TeamsKind::Audio,
        TeamsContent::RichText(_) => TeamsKind::RichText,
    }
}

/// HTML with its tags removed: `<` opens a tag, `>` closes it and stands
/// for a space, and characters inside tags are dropped. `in_tag` tells
/// whether the text starts inside a tag.
pub open spec fn untag_from(s: Seq<char>, in_tag: bool) -> Seq<char>
    decreases s.len(),
{
    if s.len() == 0 {
        Seq::empty()
    } else if s[0] == '<' {
        untag_from(s.subrange(1, s.len() as int), true)
    } else if s[0] == '>' {
        seq![' '] + untag_from(s.subrange(1, s.len() as int), false)
    } else if !in_tag {
        seq![s[0]] + untag_from(s.subrange(1, s.len() as int), false)
    } else {
        untag_from(s.subrange(1, s.len() as int), true)
    }
}

/// The visible text of HTML: tags removed, words joined by single spaces.
pub open spec fn strip_html_spec(html: Seq<char>) -> Seq<char> {
    collapse_white(untag_from(html, false))
}

/// The HTML escape of one character.
pub open spec fn escape_char(c: char) -> Seq<char> {
    if c == '&' {
        "&amp;"@
    } else if c == '<' {
        "&lt;"@
    } else if c == '>' {
        "&gt;"@
    } else if c == '"' {
        "&quot;"@
    } else if c == '\'' {
        "&#x27;"@
    } else {
        seq![c]
    }
}

/// Text with each of `& < > " '` replaced by its HTML entity.
pub open spec fn escape_html_spec(s: Seq<char>) -> Seq<char>
    decreases s.len(),
{
    if s.len() == 0 {
        Seq::empty()
    } else {
        escape_char(s[0]) + escape_html_spec(s.subrange(1, s.len() as int))
    }
}

/// Whether a character is one that HTML escaping replaces, other than `&`.
pub open spec fn html_special(c: char) -> bool {
    c == '<' || c == '>' || c == '"' || c == '\''
}

/// Escaped text with its entities read back as `escape_html`'s callers do:
/// `&#x27;`, `&quot;`, `&gt;`, `&lt;` and then `&amp;` replaced in turn.
pub open spec fn unescape_html_spec(e: Seq<char>) -> Seq<char> {
    replace_all(
        replace_all(
            replace_all(replace_all(replace_all(e, "&#x27;"@, seq!['\'']), "&quot;"@, seq!['"']), "&gt;"@, seq!['>']),
            "&lt;"@,
            seq!['<'],
        ),
        "&amp;"@,
        seq!['&'],
    )
}

/// The `i`-th character to read back, in the order of the replacements.
pub open spec fn unescape_order(i: int) -> char {
    if i == 0 {
        '\''
    } else if i == 1 {
        '"'
    } else if i == 2 {
        '>'
    } else if i == 3 {
        '<'
    } else {
        '&'
    }
}

/// A character's escape after the first `k` replacements read back.
pub open spec fn escape_stage(c: char, k: int) -> Seq<char> {
    if exists|i: int| 0 <= i < k && i < 5 && unescape_order(i) == c {
        seq![c]
    } else {
        escape_char(c)
    }
}

proof fn lemma_escape_parts(s: Seq<char>)
    ensures
        escape_html_spec(s) == concat(s.map_values(|c: char| escape_stage(c, 0))),
    decreases s.len(),
{
    if s.len() > 0 {
        let rest = s.subrange(1, s.len() as int);
        lemma_escape_parts(rest);
        assert(s.map_values(|c: char| escape_stage(c, 0)).subrange(1, s.len() as int) =~= rest.map_values(
            |c: char| escape_stage(c, 0),
        ));
    }
}

proof fn lemma_entities()
    ensures
        "&amp;"@ == seq!['&', 'a', 'm', 'p', ';'],
        "&lt;"@ == seq!['&', 'l', 't', ';'],
        "&gt;"@ == seq!['&', 'g', 't', ';'],
        "&quot;"@ == seq!['&', 'q', 'u', 'o', 't', ';'],
        "&#x27;"@ == seq!['&', '#', 'x', '2', '7', ';'],
{
    reveal_strlit("&amp;");
    reveal_strlit("&lt;");
    reveal_strlit("&gt;");
    reveal_strlit("&quot;");
    reveal_strlit("&#x27;");
}

/// The `k`-th replacement reads back the `k`-th character everywhere and
/// nothing else.
proof fn lemma_unescape_stage(s: Seq<char>, k: int)
    requires
        0 <= k < 5,
    ensures
        replace_all(
            concat(s.map_values(|c: char| escape_stage(c, k))),
            escape_char(unescape_order(k)),
            seq![unescape_order(k)],
        ) == concat(s.map_values(|c: char| escape_stage(c, k + 1))),
{
    lemma_entities();
    let ch = unescape_order(k);
    let p = escape_char(ch);
    let parts = s.map_values(|c: char| escape_stage(c, k));
    assert forall|m: int| 0 <= m < parts.len() implies part_ok(#[trigger] parts[m], p) by {
        let c = s[m];
        if exists|i: int| 0 <= i < k && i < 5 && unescape_order(i) == c {
            let i = choose|i: int| 0 <= i < k && i < 5 && unescape_order(i) == c;
            assert(c != '&');
        }
    }
    let out = s.map_values(|c: char| escape_stage(c, k + 1));
    assert forall|m: int| 0 <= m < parts.len() implies #[trigger] out[m] == if parts[m] == p { seq![ch] } else { parts[m] } by {
        let c = s[m];
        if exists|i: int| 0 <= i < k && i < 5 && unescape_order(i) == c {
            let i = choose|i: int| 0 <= i < k && i < 5 && unescape_order(i) == c;
            assert(exists|i2: int| 0 <= i2 < k + 1 && i2 < 5 && unescape_order(i2) == c);
        } else if c == ch {
            assert(exists|i2: int| 0 <= i2 < k + 1 && i2 < 5 && unescape_order(i2) == c) by {
                assert(unescape_order(k) == c);
            }
        } else {
            assert(escape_char(c) != p);
            assert(!exists|i2: int| 0 <= i2 < k + 1 && i2 < 5 && unescape_order(i2) == c) by {
                if exists|i2: int| 0 <= i2 < k + 1 && i2 < 5 && unescape_order(i2) == c {
                    let i2 = choose|i2: int| 0 <= i2 < k + 1 && i2 < 5 && unescape_order(i2) == c;
                    assert(i2 == k);
                }
            }
        }
    }
    lemma_replace_parts(parts, out, p, seq![ch]);
}

/// After all five replacements every character is itself again.
proof fn lemma_unescaped_all(s: Seq<char>)
    ensures
        concat(s.map_values(|c: char| escape_stage(c, 5))) == s,
    decreases s.len(),
{
    if s.len() > 0 {
        let rest = s.subrange(1, s.len() as int);
        lemma_unescaped_all(rest);
        assert(s.map_values(|c: char| escape_stage(c, 5)).subrange(1, s.len() as int) =~= rest.map_values(
            |c: char| escape_stage(c, 5),
        ));
        let c = s[0];
        if !exists|i: int| 0 <= i < 5 && i < 5 && unescape_order(i) == c {
            assert(unescape_order(0) != c && unescape_order(1) != c && unescape_order(2) != c
                && unescape_order(3) != c && unescape_order(4) != c);
        }
        assert(seq![c] + rest =~= s);
    }
}

/// Escaped text holds no `<`, `>`, `"` or `'`, and replacing `&#x27;`,
/// `&quot;`, `&gt;`, `&lt;` and then `&amp;` by the characters they stand
/// for gives the text again.
pub proof fn lemma_escape_html_round_trip(s: Seq<char>)
    ensures
        forall|i: int| 0 <= i < escape_html_spec(s).len() ==> !html_special(#[trigger] escape_html_spec(s)[i]),
        unescape_html_spec(escape_html_spec(s)) == s,
{
    lemma_escape_no_special(s);
    lemma_entities();
    lemma_escape_parts(s);
    lemma_unescape_stage(s, 0);
    lemma_unescape_stage(s, 1);
    lemma_unescape_stage(s, 2);
    lemma_unescape_stage(s, 3);
    lemma_unescape_stage(s, 4);
    lemma_unescaped_all(s);
}

proof fn lemma_escape_no_special(s: Seq<char>)
    ensures
        forall|i: int| 0 <= i < escape_html_spec(s).len() ==> !html_special(#[trigger] escape_html_spec(s)[i]),
    decreases s.len(),
{
    lemma_entities();
    if s.len() > 0 {
        let rest = s.subrange(1, s.len() as int);
        lemma_escape_no_special(rest);
        let e = escape_html_spec(s);
        let h = escape_char(s[0]);
        assert forall|i: int| 0 <= i < e.len() implies !html_special(#[trigger] e[i]) by {
            if i < h.len() {
                assert(e[i] == h[i]);
            } else {
                assert(e[i] == escape_html_spec(rest)[i - h.len()]);
            }
        }
    }
}

/// Markdown after bold markers became `<strong>`.
pub open spec fn bolded(markdown: Seq<char>) -> Seq<char> {
    replace_all(markdown, "**"@, "<strong>"@)
}

/// Whether a text is fenced by triple backticks at both ends.
pub open spec fn fenced(h: Seq<char>) -> bool {
    starts_with_seq(h, "```"@) && ends_with_seq(h, "```"@)
}

/// The conversion of simple markdown to HTML: bold markers become
/// `<strong>`, a fenced text becomes a code block, and every remaining
/// backtick becomes `<code>`.
pub open spec fn markdown_to_html_spec(markdown: Seq<char>) -> Seq<char> {
    let h = bolded(markdown);
    let h2 = if fenced(h) {
        "<pre><code>"@ + h.subrange(3, h.len() - 3) + "</code></pre>"@
    } else {
        h
    };
    replace_all(h2, "`"@, "<code>"@)
}

/// The parts of a hero or thumbnail card rendering.
pub open spec fn card_parts(title: String, text: String, subtitle: Option<String>) -> Seq<Seq<char>> {
    match subtitle {
        Some(s) => seq![title@, text@, s@],
        None => seq![title@, text@],
    }
}

/// The texts of the adaptive card elements that have one.
pub open spec fn element_texts(body: Seq<TeamsCardElement>) -> Seq<Seq<char>>
    decreases body.len(),
{
    if body.len() == 0 {
        Seq::empty()
    } else {
        element_texts(body.drop_last()) + match body.last().text {
            Some(t) => seq![t@],
            None => Seq::empty(),
        }
    }
}

/// The text of an optional duration in seconds, `?` when absent.
pub open spec fn teams_duration_text(d: Option<i32>) -> Seq<char> {
    match d {
        Some(x) => signed_decimal(x as int),
        None => "?"@,
    }
}

/// The text of an optional string, or a placeholder when absent.
pub open spec fn or_placeholder(o: Option<String>, placeholder: Seq<char>) -> Seq<char> {
    match o {
        Some(x) => x@,
        None => placeholder,
    }
}

/// The plain-text rendering of Teams content.
pub open spec fn teams_text(c: TeamsContent) -> Seq<char> {
    match c {
        TeamsContent::Text(t) => t.text@,
        TeamsContent::Html(h) => strip_html_spec(h.html@),
        TeamsContent::AdaptiveCard(a) => join_seq(element_texts(a.body@), " "@),
        TeamsContent::HeroCard(h) => join_seq(card_parts(h.title, h.text, h.subtitle), " - "@),
        TeamsContent::ThumbnailCard(t) => join_seq(
            card_parts(t.title, t.text, t.subtitle),
            " - "@,
        ),
        TeamsContent::File(f) => "[File: "@ + f.name@ + "]"@,
        TeamsContent::Image(i) => "[Image] "@ + or_placeholder(i.alt, "(no alt text)"@),
        TeamsContent::Video(v) => "[Video: "@ + teams_duration_text(v.duration) + "s] "@
            + or_placeholder(v.title, "(no title)"@),
        TeamsContent::Audio(a) => "[Audio: "@ + teams_duration_text(a.duration) + "s] "@
            + or_placeholder(a.title, "(no title)"@),
        TeamsContent::RichText(r) => r.text@,
    }
}

/// The unified content type of each Teams variant.
pub open spec fn teams_content_type(c: TeamsContent) -> ContentType {
    match c {
        TeamsContent::Text(_) => ContentType::Text,
        TeamsContent::Html(_) => ContentType::Rich,
        TeamsContent::AdaptiveCard(_) => ContentType::Card,
        TeamsContent::HeroCard(_) => ContentType::Card,
        TeamsContent::ThumbnailCard(_) => ContentType::Card,
        TeamsContent::File(_) => ContentType::File,
        TeamsContent::Image(_) => ContentType::Image,
        TeamsContent::Video(_) => ContentType::Video,
        TeamsContent::Audio(_) => ContentType::Audio,
        TeamsContent::RichText(_) => ContentType::Rich,
    }
}

fn push_or(s: &mut String, o: &Option<String>, placeholder: &str)
    ensures
        final(s)@ == old(s)@ + or_placeholder(*o, placeholder@),
{
    match o {
        Some(x) => push_str(s, x.as_str()),
        None => push_str(s, placeholder),
    }
}

fn push_duration(s: &mut String, d: Option<i32>)
    ensures
        final(s)@ == old(s)@ + teams_duration_text(d),
{
    match d {
        Some(x) => push_signed_decimal(s, x as i64),
        None => push_str(s, "?"),
    }
}

fn card_text(title: &String, text: &String, subtitle: &Option<String>) -> (s: String)
    ensures
        s@ == join_seq(card_parts(*title, *text, *subtitle), " - "@),
{
    let mut parts: Vec<String> = Vec::new();
    parts.push(title.clone());
    parts.push(text.clone());
    if let Some(sub) = subtitle {
        parts.push(sub.clone());
    }
    assert(views(parts@) =~= card_parts(*title, *text, *subtitle));
    join_strings(&parts, " - ")
}

impl TeamsContent {
    /// The unified content type of this content.
    pub fn content_type(&self) -> (t: ContentType)
        ensures
            t == teams_content_type(*self),
    {
        match self {
            TeamsContent::Text(_) => ContentType::Text,
            TeamsContent::Html(_) => ContentType::Rich,
            TeamsContent::AdaptiveCard(_) => ContentType::Card,
            TeamsContent::HeroCard(_) => ContentType::Card,
            TeamsContent::ThumbnailCard(_) => ContentType::Card,
            TeamsContent::File(_) => ContentType::File,
            TeamsContent::Image(_) => ContentType::Image,
            TeamsContent::Video(_) => ContentType::Video,
            TeamsContent::Audio(_) => ContentType::Audio,
            TeamsContent::RichText(_) => ContentType::Rich,
        }
    }

    /// The plain-text rendering of this content.
    pub fn extract_text(&self) -> (s: String)
        ensures
            s@ == teams_text(*self),
    {
        TeamsContentParser::extract_text(self)
    }
}

impl TeamsContentParser {
    /// Creates a parser.
    pub fn new() -> Self {
        TeamsContentParser
    }

    /// The kind named by a content type, or the error for an unknown name.
    pub fn content_kind(content_type: &str) -> (r: Result<TeamsKind, AgentError>)
        ensures
            r matches Ok(k) ==> teams_kind_name(k) == content_type@,
            r is Err <==> (forall|k: TeamsKind| teams_kind_name(k) != content_type@),
            r matches Err(e) ==> e == AgentError::Platform(e->Platform_0)
                && e->Platform_0@ == "Unknown content type: "@ + content_type@,
    {
        let kind = if str_eq(content_type, "text") {
            TeamsKind::Text
        } else if str_eq(content_type, "html") {
            TeamsKind::Html
        } else if str_eq(content_type, "adaptive_card") {
            TeamsKind::AdaptiveCard
        } else if str_eq(content_type, "hero_card") {
            TeamsKind::HeroCard
        } else if str_eq(content_type, "thumbnail_card") {
            TeamsKind::ThumbnailCard
        } else if str_eq(content_type, "file") {
            TeamsKind::File
        } else if str_eq(content_type, "image") {
            TeamsKind::Image
        } else if str_eq(content_type, "video") {
            TeamsKind::Video
        } else if str_eq(content_type, "audio") {
            TeamsKind::Audio
        } else if str_eq(content_type, "rich_text") {
            TeamsKind::RichText
        } else {
            assert forall|k: TeamsKind| teams_kind_name(k) != content_type@ by {
                match k {
                    TeamsKind::Text => {},
                    TeamsKind::Html => {},
                    TeamsKind::AdaptiveCard => {},
                    TeamsKind::HeroCard => {},
                    TeamsKind::ThumbnailCard => {},
                    TeamsKind::File => {},
                    TeamsKind::Image => {},
                    TeamsKind::Video => {},
                    TeamsKind::Audio => {},
                    TeamsKind::RichText => {},
                }
            }
            return Err(AgentError::Platform(message_with("Unknown content type: ", content_type)));
        };
        assert(teams_kind_name(kind) == content_type@);
        Ok(kind)
    }

    /// Extracts plain text from any content type.
    pub fn extract_text(content: &TeamsContent) -> (s: String)
        ensures
            s@ == teams_text(*content),
    {
        match content {
            TeamsContent::Text(text) => text.text.clone(),
            TeamsContent::Html(html) => Self::strip_html(html.html.as_str()),
            TeamsContent::AdaptiveCard(card) => {
                let mut texts: Vec<String> = Vec::new();
                let mut i: usize = 0;
                while i < card.body.len()
                    invariant
                        i <= card.body.len(),
                        views(texts@) =~= element_texts(card.body@.subrange(0, i as int)),
                    decreases card.body.len() - i,
                {
                    let ghost pre = card.body@.subrange(0, i as int);
                    assert(card.body@.subrange(0, i + 1).drop_last() =~= pre);
                    if let Some(t) = &card.body[i].text {
                        let ghost old_texts = texts@;
                        texts.push(t.clone());
                        assert(views(texts@) =~= views(old_texts).push(t@));
                    }
                    i = i + 1;
                }
                assert(card.body@.subrange(0, card.body.len() as int) =~= card.body@);
                join_strings(&texts, " ")
            },
            TeamsContent::HeroCard(hero) => card_text(&hero.title, &hero.text, &hero.subtitle),
            TeamsContent::ThumbnailCard(thumb) => card_text(
                &thumb.title,
                &thumb.text,
                &thumb.subtitle,
            ),
            TeamsContent::File(file) => {
                let mut s = to_owned_string("[File: ");
                push_str(&mut s, file.name.as_str());
                push_str(&mut s, "]");
                s
            },
            TeamsContent::Image(image) => {
                let mut s = to_owned_string("[Image] ");
                push_or(&mut s, &image.alt, "(no alt text)");
                s
            },
            TeamsContent::Video(video) => {
                let mut s = to_owned_string("[Video: ");
                push_duration(&mut s, video.duration);
                push_str(&mut s, "s] ");
                push_or(&mut s, &video.title, "(no title)");
                s
            },
            TeamsContent::Audio(audio) => {
                let mut s = to_owned_string("[Audio: ");
                push_duration(&mut s, audio.duration);
                push_str(&mut s, "s] ");
                push_or(&mut s, &audio.title, "(no title)");
                s
            },
            TeamsContent::RichText(rich) => rich.text.clone(),
        }
    }

    /// The content type name of a content value.
    pub fn get_content_type(content: &TeamsContent) -> (s: &'static str)
        ensures
            s@ == teams_kind_name(teams_kind_of(*content)),
    {
        match content {
            TeamsContent::Text(_) => "text",
            TeamsContent::Html(_) => "html",
            TeamsContent::AdaptiveCard(_) => "adaptive_card",
            TeamsContent::HeroCard(_) => "hero_card",
            TeamsContent::ThumbnailCard(_) => "thumbnail_card",
            TeamsContent::File(_) => "file",
            TeamsContent::Image(_) => "image",
            TeamsContent::Video(_) => "video",
            TeamsContent::Audio(_) => "audio",
            TeamsContent::RichText(_) => "rich_text",
        }
    }

    /// Markdown-formatted text content.
    pub fn create_text(text: &str) -> (c: TeamsContent)
        ensures
            c matches TeamsContent::Text(t) && t.text@ == text@ && (t.text_format matches Some(f)
                && f@ == "markdown"@),
    {
        TeamsContent::Text(
            TeamsTextContent { text: to_owned_string(text), text_format: Some(to_owned_string("markdown")) },
        )
    }

    /// HTML content.
    pub fn create_html(html: &str) -> (c: TeamsContent)
        ensures
            c matches TeamsContent::Html(h) && h.html@ == html@ && h.text is None,
    {
        TeamsContent::Html(TeamsHtmlContent { html: to_owned_string(html), text: None })
    }

    /// Adaptive card of version 1.4 with the standard schema.
    pub fn create_adaptive_card(body: Vec<TeamsCardElement>) -> (c: TeamsContent)
        ensures
            c matches TeamsContent::AdaptiveCard(a) && a.version@ == "1.4"@ && a.body == body
                && a.actions is None && (a.schema matches Some(s) && s@
                == "http://adaptivecards.io/schemas/adaptive-card.json"@) && a.fallback_text is None
                && a.speak is None && a.background_image is None && a.min_height is None
                && a.rtl is None,
    {
        TeamsContent::AdaptiveCard(
            TeamsAdaptiveCardContent {
                version: to_owned_string("1.4"),
                body,
                actions: None,
                schema: Some(to_owned_string("http://adaptivecards.io/schemas/adaptive-card.json")),
                fallback_text: None,
                speak: None,
                background_image: None,
                min_height: None,
                rtl: None,
            },
        )
    }

    /// Hero card with a title and text.
    pub fn create_hero_card(title: &str, text: &str) -> (c: TeamsContent)
        ensures
            c matches TeamsContent::HeroCard(h) && h.title@ == title@ && h.text@ == text@
                && h.subtitle is None && h.images is None && h.buttons is None && h.tap is None,
    {
        TeamsContent::HeroCard(
            TeamsHeroCardContent {
                title: to_owned_string(title),
                subtitle: None,
                text: to_owned_string(text),
                images: None,
                buttons: None,
                tap: None,
            },
        )
    }

    /// File content.
    pub fn create_file(name: &str, url: &str, content_type: &str) -> (c: TeamsContent)
        ensures
            c matches TeamsContent::File(f) && f.name@ == name@ && f.content_url@ == url@
                && f.content_type@ == content_type@ && f.size is None && f.thumbnail_url is None,
    {
        TeamsContent::File(
            TeamsFileContent {
                name: to_owned_string(name),
                content_url: to_owned_string(url),
                content_type: to_owned_string(content_type),
                size: None,
                thumbnail_url: None,
            },
        )
    }

    /// Image content.
    pub fn create_image(url: &str) -> (c: TeamsContent)
        ensures
            c matches TeamsContent::Image(i) && i.url@ == url@ && i.alt is None && i.width is None
                && i.height is None && i.size is None,
    {
        TeamsContent::Image(
            TeamsImageContent { url: to_owned_string(url), alt: None, width: None, height: None, size: None },
        )
    }

    /// Video content.
    pub fn create_video(url: &str) -> (c: TeamsContent)
        ensures
            c matches TeamsContent::Video(v) && v.url@ == url@ && v.width is None
                && v.height is None && v.duration is None && v.thumbnail is None && v.title is None,
    {
        TeamsContent::Video(
            TeamsVideoContent {
                url: to_owned_string(url),
                width: None,
                height: None,
                duration: None,
                thumbnail: None,
                title: None,
            },
        )
    }

    /// Audio content.
    pub fn create_audio(url: &str) -> (c: TeamsContent)
        ensures
            c matches TeamsContent::Audio(a) && a.url@ == url@ && a.duration is None
                && a.title is None,
    {
        TeamsContent::Audio(TeamsAudioContent { url: to_owned_string(url), duration: None, title: None })
    }

    /// Rich text in XML format with optional mentions.
    pub fn create_rich_text(text: &str, mentions: Option<Vec<TeamsMention>>) -> (c: TeamsContent)
        ensures
            c matches TeamsContent::RichText(r) && r.text@ == text@ && r.mentions == mentions
                && (r.text_format matches Some(f) && f@ == "xml"@),
    {
        TeamsContent::RichText(
            TeamsRichTextContent {
                text: to_owned_string(text),
                mentions,
                text_format: Some(to_owned_string("xml")),
            },
        )
    }

    /// The visible text of HTML: tags dropped (each closing `>` counts as a
    /// space) and white space collapsed to single spaces.
    pub fn strip_html(html: &str) -> (s: String)
        ensures
            s@ == strip_html_spec(html@),
    {
        let v = chars_of(html);
        let mut out: Vec<char> = Vec::new();
        let mut in_tag = false;
        let mut i: usize = 0;
        assert(v@.subrange(0, v.len() as int) =~= v@);
        while i < v.len()
            invariant
                v@ == html@,
                i <= v.len(),
                out@ + untag_from(v@.subrange(i as int, v.len() as int), in_tag) == untag_from(
                    html@,
                    false,
                ),
            decreases v.len() - i,
        {
            let c = v[i];
            let ghost rest = v@.subrange(i as int, v.len() as int);
            assert(rest.subrange(1, rest.len() as int) =~= v@.subrange(i + 1, v.len() as int));
            if c == '<' {
                in_tag = true;
            } else if c == '>' {
                in_tag = false;
                out.push(' ');
            } else if !in_tag {
                out.push(c);
            }
            i = i + 1;
        }
        assert(v@.subrange(v.len() as int, v.len() as int) =~= Seq::<char>::empty());
        assert(out@ =~= untag_from(html@, false));
        collapse_whitespace(&out)
    }

    /// Converts simple markdown to HTML.
    pub fn markdown_to_html(markdown: &str) -> (s: String)
        requires
            !(fenced(bolded(markdown@)) && bolded(markdown@).len() < 6),
        ensures
            s@ == markdown_to_html_spec(markdown@),
    {
        proof {
            reveal_strlit("**");
            reveal_strlit("`");
            reveal_strlit("```");
        }
        let h = replace_str(markdown, "**", "<strong>");
        let h2 = if str_starts_with(h.as_str(), "```") && str_ends_with(h.as_str(), "```") {
            let n = h.as_str().unicode_len();
            let inner = h.as_str().substring_char(3, n - 3);
            let mut w = to_owned_string("<pre><code>");
            push_str(&mut w, inner);
            push_str(&mut w, "</code></pre>");
            w
        } else {
            h
        };
        replace_str(h2.as_str(), "`", "<code>")
    }

    /// Escapes the HTML special characters `& < > " '`.
    pub fn escape_html(text: &str) -> (s: String)
        ensures
            s@ == escape_html_spec(text@),
    {
        let v = chars_of(text);
        let mut out = String::new();
        let mut i: usize = 0;
        assert(v@.subrange(0, v.len() as int) =~= v@);
        while i < v.len()
            invariant
                v@ == text@,
                i <= v.len(),
                out@ + escape_html_spec(v@.subrange(i as int, v.len() as int)) == escape_html_spec(
                    text@,
                ),
            decreases v.len() - i,
        {
            let c = v[i];
            let ghost rest = v@.subrange(i as int, v.len() as int);
            assert(rest.subrange(1, rest.len() as int) =~= v@.subrange(i + 1, v.len() as int));
            if c == '&' {
                push_str(&mut out, "&amp;");
            } else if c == '<' {
                push_str(&mut out, "&lt;");
            } else if c == '>' {
                push_str(&mut out, "&gt;");
            } else if c == '"' {
                push_str(&mut out, "&quot;");
            } else if c == '\'' {
                push_str(&mut out, "&#x27;");
            } else {
                push_char(&mut out, c);
                assert(out@ =~= out@.drop_last() + seq![c]);
            }
            i = i + 1;
        }
        assert(v@.subrange(v.len() as int, v.len() as int) =~= Seq::<char>::empty());
        assert(out@ =~= out@ + Seq::<char>::empty());
        out
    }
}

impl TeamsImageContent {
    /// The unified media form of an image; the alt text becomes the caption.
    pub fn to_media_content(&self) -> (m: MediaContent)
        ensures
            m.url == self.url && m.width == self.width && m.height == self.height
                && m.size == self.size && m.mime_type is None && m.filename is None
                && m.caption == self.alt && m.thumbnail is None && m.duration is None,
    {
        MediaContent {
            url: self.url.clone(),
            width: self.width,
            height: self.height,
            size: self.size,
            mime_type: None,
            filename: None,
            caption: clone_opt(&self.alt),
            thumbnail: None,
            duration: None,
        }
    }
}

impl TeamsVideoContent {
    /// The unified media form of a video; the title becomes the file name.
    pub fn to_media_content(&self) -> (m: MediaContent)
        ensures
            m.url == self.url && m.width == self.width && m.height == self.height
                && m.duration == self.duration && m.mime_type is None
                && m.filename == self.title && m.caption is None && m.size is None
                && m.thumbnail == self.thumbnail,
    {
        MediaContent {
            url: self.url.clone(),
            width: self.width,
            height: self.height,
            duration: self.duration,
            mime_type: None,
            filename: clone_opt(&self.title),
            caption: None,
            size: None,
            thumbnail: clone_opt(&self.thumbnail),
        }
    }
}

impl TeamsFileContent {
    /// The unified media form of a file.
    pub fn to_media_content(&self) -> (m: MediaContent)
        ensures
            m.url == self.content_url && m.mime_type == Some(self.content_type)
                && m.filename == Some(self.name) && m.size == self.size && m.width is None
                && m.height is None && m.duration is None && m.caption is None
                && m.thumbnail == self.thumbnail_url,
    {
        MediaContent {
            url: self.content_url.clone(),
            mime_type: Some(self.content_type.clone()),
            filename: Some(self.name.clone()),
            size: self.size,
            width: None,
            height: None,
            duration: None,
            caption: None,
            thumbnail: clone_opt(&self.thumbnail_url),
        }
    }
}

/// Teams channel settings.
#[derive(Debug, Clone)]
pub struct TeamsChannelConfig {
    pub app_id: String,
    pub app_password: String,
    pub webhook_path: String,
    pub tenant_id: Option<String>,
    pub base: BaseChannelConfig,
}

impl Default for TeamsChannelConfig {
    /// No credentials, webhooks at `/api/messages` on port 3978.
    fn default() -> (c: Self)
        ensures
            c.app_id@.len() == 0,
            c.app_password@.len() == 0,
            c.webhook_path@ == "/api/messages"@,
            c.tenant_id is None,
            c.base.connection_mode == ConnectionMode::Webhook,
            c.base.webhook_port == 3978,
            c.base.auto_reconnect,
            c.base.max_reconnect_attempts == 10,
    {
        let mut base = BaseChannelConfig::new();
        base.connection_mode = ConnectionMode::Webhook;
        base.webhook_port = 3978;
        TeamsChannelConfig {
            app_id: String::new(),
            app_password: String::new(),
            webhook_path: to_owned_string("/api/messages"),
            tenant_id: None,
            base,
        }
    }
}

/// An access token issued to the bot.
#[derive(Debug, Clone)]
pub struct TokenResponse {
    pub token_type: String,
    pub access_token: String,
    pub expires_in: i64,
}

/// A Teams account.
#[derive(Debug, Clone)]
pub struct TeamsChannelAccount {
    pub id: String,
    pub name: String,
    pub aad_object_id: Option<String>,
}

/// A Teams conversation.
#[derive(Debug, Clone)]
pub struct TeamsConversation {
    pub id: String,
    pub conversation_type: Option<String>,
    pub is_group: Option<bool>,
    pub name: Option<String>,
    pub tenant_id: Option<String>,
}

/// An element of an adaptive card's body, as the card builder adds it.
/// Values given as JSON (container items, column items, action data) are
/// held as JSON text.
#[derive(Debug, Clone, PartialEq, Eq)]
pub enum AdaptiveCardElement {
    TextBlock { text: String, size: String, weight: String },
    Container { items: Vec<String> },
    Image { url: String, alt_text: String },
    FactSet { facts: Vec<(String, String)> },
    InputText { id: String, placeholder: String, is_multiline: bool },
    ColumnSet { columns: Vec<Vec<String>> },
}

/// An action button of an adaptive card: its type, title and data (JSON
/// text).
#[derive(Debug, Clone, PartialEq, Eq)]
pub struct AdaptiveCardAction {
    pub action_type: String,
    pub title: String,
    pub data: String,
}

/// An adaptive card being built: its type and version, body and actions.
#[derive(Debug, Clone, PartialEq, Eq)]
pub struct AdaptiveCard {
    pub card_type: String,
    pub version: String,
    pub body: Vec<AdaptiveCardElement>,
    pub actions: Vec<AdaptiveCardAction>,
}

/// Builds adaptive cards element by element.
#[derive(Debug, Clone, Copy, Default)]
pub struct AdaptiveCardBuilder;

impl AdaptiveCardBuilder {
    /// An empty card: type `AdaptiveCard`, version `1.4`, no body, no
    /// actions.
    pub fn new() -> (c: AdaptiveCard)
        ensures
            c.card_type@ == "AdaptiveCard"@,
            c.version@ == "1.4"@,
            c.body@.len() == 0,
            c.actions@.len() == 0,
    {
        AdaptiveCard {
            card_type: to_owned_string("AdaptiveCard"),
            version: to_owned_string("1.4"),
            body: Vec::new(),
            actions: Vec::new(),
        }
    }

    /// Appends a text block to the body.
    pub fn add_text_block(card: &mut AdaptiveCard, text: &str, size: &str, weight: &str)
        ensures
            final(card).card_type == old(card).card_type,
            final(card).version == old(card).version,
            final(card).actions == old(card).actions,
            final(card).body@.len() == old(card).body@.len() + 1,
            final(card).body@.drop_last() == old(card).body@,
            final(card).body@.last() matches AdaptiveCardElement::TextBlock { text: t, size: z, weight: w }
                && t@ == text@ && z@ == size@ && w@ == weight@,
    {
        card.body.push(AdaptiveCardElement::TextBlock {
            text: to_owned_string(text),
            size: to_owned_string(size),
            weight: to_owned_string(weight),
        });
        assert(card.body@.drop_last() =~= old(card).body@);
    }

    /// Appends a container of the given items to the body.
    pub fn add_container(card: &mut AdaptiveCard, items: Vec<String>)
        ensures
            final(card).card_type == old(card).card_type,
            final(card).version == old(card).version,
            final(card).actions == old(card).actions,
            final(card).body@ == old(card).body@.push(AdaptiveCardElement::Container { items }),
    {
        card.body.push(AdaptiveCardElement::Container { items });
    }

    /// Appends an action button.
    pub fn add_action(card: &mut AdaptiveCard, title: &str, action_type: &str, data: String)
        ensures
            final(card).card_type == old(card).card_type,
            final(card).version == old(card).version,
            final(card).body == old(card).body,
            final(card).actions@.len() == old(card).actions@.len() + 1,
            final(card).actions@.drop_last() == old(card).actions@,
            final(card).actions@.last().action_type@ == action_type@,
            final(card).actions@.last().title@ == title@,
            final(card).actions@.last().data == data,
    {
        card.actions.push(AdaptiveCardAction {
            action_type: to_owned_string(action_type),
            title: to_owned_string(title),
            data,
        });
        assert(card.actions@.drop_last() =~= old(card).actions@);
    }

    /// Appends an image to the body.
    pub fn add_image(card: &mut AdaptiveCard, url: &str, alt_text: &str)
        ensures
            final(card).card_type == old(card).card_type,
            final(card).version == old(card).version,
            final(card).actions == old(card).actions,
            final(card).body@.len() == old(card).body@.len() + 1,
            final(card).body@.drop_last() == old(card).body@,
            final(card).body@.last() matches AdaptiveCardElement::Image { url: u, alt_text: a }
                && u@ == url@ && a@ == alt_text@,
    {
        card.body.push(AdaptiveCardElement::Image { url: to_owned_string(url), alt_text: to_owned_string(alt_text) });
        assert(card.body@.drop_last() =~= old(card).body@);
    }

    /// Appends a set of (title, value) facts to the body.
    pub fn add_fact_set(card: &mut AdaptiveCard, facts: Vec<(String, String)>)
        ensures
            final(card).card_type == old(card).card_type,
            final(card).version == old(card).version,
            final(card).actions == old(card).actions,
            final(card).body@ == old(card).body@.push(AdaptiveCardElement::FactSet { facts }),
    {
        card.body.push(AdaptiveCardElement::FactSet { facts });
    }

    /// Appends a text input to the body.
    pub fn add_input_text(card: &mut AdaptiveCard, id: &str, placeholder: &str, is_multiline: bool)
        ensures
            final(card).card_type == old(card).card_type,
            final(card).version == old(card).version,
            final(card).actions == old(card).actions,
            final(card).body@.len() == old(card).body@.len() + 1,
            final(card).body@.drop_last() == old(card).body@,
            final(card).body@.last() matches AdaptiveCardElement::InputText { id: i, placeholder: p, is_multiline: m }
                && i@ == id@ && p@ == placeholder@ && m == is_multiline,
    {
        card.body.push(AdaptiveCardElement::InputText {
            id: to_owned_string(id),
            placeholder: to_owned_string(placeholder),
            is_multiline,
        });
        assert(card.body@.drop_last() =~= old(card).body@);
    }

    /// Appends a set of columns, each a list of items, to the body.
    pub fn add_column_set(card: &mut AdaptiveCard, columns: Vec<Vec<String>>)
        ensures
            final(card).card_type == old(card).card_type,
            final(card).version == old(card).version,
            final(card).actions == old(card).actions,
            final(card).body@ == old(card).body@.push(AdaptiveCardElement::ColumnSet { columns }),
    {
        card.body.push(AdaptiveCardElement::ColumnSet { columns });
    }
}

impl TeamsChannelConfig {
    /// Senders allowed to reach the bot; this channel sets no such list.
    pub fn allowlist(&self) -> (v: Vec<String>)
        ensures
            v@.len() == 0,
    {
        Vec::new()
    }

    /// How the channel receives messages, as the common settings say.
    pub fn connection_mode(&self) -> (m: ConnectionMode)
        ensures
            m == self.base.connection_mode,
    {
        self.base.connection_mode
    }

    /// Whether the channel reconnects after losing its connection.
    pub fn auto_reconnect(&self) -> (b: bool)
        ensures
            b == self.base.auto_reconnect,
    {
        self.base.auto_reconnect
    }

    /// How often the channel tries to reconnect before it gives up.
    pub fn max_reconnect_attempts(&self) -> (n: u32)
        ensures
            n == self.base.max_reconnect_attempts,
    {
        self.base.max_reconnect_attempts
    }

    /// Whether the app ID and password are set.
    pub fn is_valid(&self) -> (b: bool)
        ensures
            b == (self.app_id@.len() > 0 && self.app_password@.len() > 0),
    {
        self.app_id.as_str().unicode_len() > 0 && self.app_password.as_str().unicode_len() > 0
    }
}
/// The kinds of content a Teams channel can carry.
pub fn supported_content_types() -> (v: Vec<ContentType>)
    ensures
        v@ == seq![ContentType::Text, ContentType::Image, ContentType::File, ContentType::Audio, ContentType::Video, ContentType::Card, ContentType::Rich],
{
    let mut v: Vec<ContentType> = Vec::new();
    v.push(ContentType::Text);
    v.push(ContentType::Image);
    v.push(ContentType::File);
    v.push(ContentType::Audio);
    v.push(ContentType::Video);
    v.push(ContentType::Card);
    v.push(ContentType::Rich);
    v
}
} // verus!
