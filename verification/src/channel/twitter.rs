//! Twitter/X message content: tweets, media, polls, cards, quotes, replies,
//! retweets, threads and direct messages; their text rendering, the tweet
//! length limit and the tweet builder.

use vstd::prelude::*;
use vstd::string::StringSliceAdditionalSpecFns;
use vstd::utf8::{
    decode_utf8, decode_utf8_encode_utf8, encode_scalar, encode_utf8, encode_utf8_decode_utf8, encode_utf8_valid_utf8,
    is_ascii_chars_encode_utf8, is_char_boundary, valid_utf8_split,
};

use crate::content::{opt_view, ContentType, MediaContent};
use crate::error::{message_with, AgentError};
use crate::text::{join_seq, join_strings, push_signed_decimal, push_str, signed_decimal, str_eq, to_owned_string, views};

verus! {

/// Twitter message content types.
#[derive(Debug, Clone, PartialEq, Eq)]
pub enum TwitterContent {
    Text(TwitterTextContent),
    Media(TwitterMediaContent),
    Poll(TwitterPollContent),
    Card(TwitterCardContent),
    Quote(TwitterQuoteContent),
    Reply(TwitterReplyContent),
    Retweet(TwitterRetweetContent),
    Thread(TwitterThreadContent),
    DirectMessage(TwitterDMContent),
}

/// Plain text tweet (up to 280 characters, 4000 for long tweets).
#[derive(Debug, Clone, PartialEq, Eq, Default)]
pub struct TwitterTextContent {
    pub text: String,
    pub is_long_tweet: Option<bool>,
    pub lang: Option<String>,
}

/// Tweet with media.
#[derive(Debug, Clone, PartialEq, Eq, Default)]
pub struct TwitterMediaContent {
    pub text: String,
    pub media: Vec<TwitterMediaItem>,
    pub alt_text: Option<String>,
}

/// A media item: photo, video or animated GIF.
#[derive(Debug, Clone, PartialEq, Eq)]
pub struct TwitterMediaItem {
    pub id: String,
    pub media_type: String,
    pub url: String,
    pub display_url: String,
    pub expanded_url: String,
    pub media_key: Option<String>,
    pub width: Option<i32>,
    pub height: Option<i32>,
    pub duration_ms: Option<i32>,
    pub variants: Option<Vec<TwitterMediaVariant>>,
}

/// A video variant of a given quality.
#[derive(Debug, Clone, PartialEq, Eq)]
pub struct TwitterMediaVariant {
    pub bitrate: Option<i32>,
    pub content_type: String,
    pub url: String,
}

/// Tweet with a poll.
#[derive(Debug, Clone, PartialEq, Eq, Default)]
pub struct TwitterPollContent {
    pub text: String,
    pub options: Vec<TwitterPollOption>,
    pub duration_minutes: i32,
    pub end_datetime: Option<String>,
    pub voting_status: Option<String>,
}

/// A poll option.
#[derive(Debug, Clone, PartialEq, Eq)]
pub struct TwitterPollOption {
    pub position: i32,
    pub label: String,
    pub votes: Option<i32>,
}

/// Tweet with a link preview card.
#[derive(Debug, Clone, PartialEq, Eq, Default)]
pub struct TwitterCardContent {
    pub text: String,
    pub url: String,
    pub title: String,
    pub description: String,
    pub image_url: Option<String>,
    pub card_type: String,
    pub site: Option<String>,
}

/// Quote tweet.
#[derive(Debug, Clone, PartialEq, Eq, Default)]
pub struct TwitterQuoteContent {
    pub text: String,
    pub quoted_tweet_id: String,
    pub quoted_text: String,
    pub quoted_author: String,
    pub quoted_author_id: String,
}

/// Reply tweet.
#[derive(Debug, Clone, PartialEq, Eq, Default)]
pub struct TwitterReplyContent {
    pub text: String,
    pub in_reply_to_tweet_id: String,
    pub in_reply_to_user_id: String,
    pub in_reply_to_username: String,
}

/// Retweet, with an optional comment.
#[derive(Debug, Clone, PartialEq, Eq, Default)]
pub struct TwitterRetweetContent {
    pub retweeted_tweet_id: String,
    pub retweeted_text: String,
    pub retweeted_author: String,
    pub retweeted_author_id: String,
    pub comment: Option<String>,
}

/// A thread of connected tweets.
#[derive(Debug, Clone, PartialEq, Eq, Default)]
pub struct TwitterThreadContent {
    pub tweets: Vec<TwitterThreadTweet>,
    pub author: String,
    pub author_id: String,
}

/// A tweet in a thread.
#[derive(Debug, Clone, PartialEq, Eq)]
pub struct TwitterThreadTweet {
    pub id: String,
    pub text: String,
    pub position: i32,
}

/// Direct message.
#[derive(Debug, Clone, PartialEq, Eq, Default)]
pub struct TwitterDMContent {
    pub text: String,
    pub sender_id: String,
    pub recipient_id: String,
    pub attachments: Option<Vec<TwitterDMAttachment>>,
}

/// Direct message attachment: media or a location.
#[derive(Debug, Clone, PartialEq, Eq)]
pub struct TwitterDMAttachment {
    pub attachment_type: String,
    pub media: Option<TwitterMediaItem>,
    pub location: Option<TwitterLocation>,
}

/// A shared location. The coordinates are kept as the decimal text they
/// were received in; nothing here computes with them.
#[derive(Debug, Clone, PartialEq, Eq)]
pub struct TwitterLocation {
    pub location_type: String,
    pub coordinates: Vec<String>,
    pub name: Option<String>,
}

/// Twitter content parser.
#[derive(Debug, Clone, Copy, Default)]
pub struct TwitterContentParser;

/// The kinds of Twitter content, one per variant.
#[derive(Debug, Clone, Copy, PartialEq, Eq, Structural)]
pub enum TwitterKind {
    Text,
    Media,
    Poll,
    Card,
    Quote,
    Reply,
    Retweet,
    Thread,
    DirectMessage,
}

/// The name under which a kind travels.
pub open spec fn twitter_kind_name(k: TwitterKind) -> Seq<char> {
    match k {
        TwitterKind::Text => "text"@,
        TwitterKind::Media => "media"@,
        TwitterKind::Poll => "poll"@,
        TwitterKind::Card => "card"@,
        TwitterKind::Quote => "quote"@,
        TwitterKind::Reply => "reply"@,
        TwitterKind::Retweet => "retweet"@,
        TwitterKind::Thread => "thread"@,
        TwitterKind::DirectMessage => "dm"@,
    }
}

/// The kind of a content value.
pub open spec fn twitter_kind_of(c: TwitterContent) -> TwitterKind {
    match c {
        TwitterContent::Text(_) => TwitterKind::Text,
        TwitterContent::Media(_) => TwitterKind::Media,
        TwitterContent::Poll(_) => TwitterKind::Poll,
        TwitterContent::Card(_) => TwitterKind::Card,
        TwitterContent::Quote(_) => TwitterKind::Quote,
        TwitterContent::Reply(_) => TwitterKind::Reply,
        TwitterContent::Retweet(_) => TwitterKind::Retweet,
        TwitterContent::Thread(_) => TwitterKind::Thread,
        TwitterContent::DirectMessage(_) => TwitterKind::DirectMessage,
    }
}

/// The tag shown for a media item: its type in square brackets.
pub open spec fn media_tag(m: TwitterMediaItem) -> Seq<char> {
    "["@ + m.media_type@ + "]"@
}

/// A numbered line: the position, a dot, a space and the text.
pub open spec fn numbered(position: i32, text: Seq<char>) -> Seq<char> {
    signed_decimal(position as int) + ". "@ + text
}

/// The line shown for a poll option.
pub open spec fn poll_line(o: TwitterPollOption) -> Seq<char> {
    numbered(o.position, o.label@)
}

/// The line shown for a thread tweet.
pub open spec fn thread_line(t: TwitterThreadTweet) -> Seq<char> {
    numbered(t.position, t.text@)
}

/// The plain-text rendering of Twitter content.
pub open spec fn twitter_text(c: TwitterContent) -> Seq<char> {
    match c {
        TwitterContent::Text(t) => t.text@,
        TwitterContent::Media(m) => m.text@ + " "@ + join_seq(m.media@.map_values(|x: TwitterMediaItem| media_tag(x)), " "@),
        TwitterContent::Poll(p) => p.text@ + "\n\nPoll:\n"@ + join_seq(
            p.options@.map_values(|o: TwitterPollOption| poll_line(o)),
            "\n"@,
        ),
        TwitterContent::Card(k) => k.text@ + "\n\n[Card: "@ + k.title@ + " - "@ + k.url@ + "]"@,
        TwitterContent::Quote(q) => q.text@ + "\n\n[Quoted @"@ + q.quoted_author@ + ": "@ + q.quoted_text@ + "]"@,
        TwitterContent::Reply(r) => r.text@,
        TwitterContent::Retweet(r) => match r.comment {
            Some(comment) => comment@ + "\n\n[RT @"@ + r.retweeted_author@ + ": "@ + r.retweeted_text@ + "]"@,
            None => "[RT @"@ + r.retweeted_author@ + ": "@ + r.retweeted_text@ + "]"@,
        },
        TwitterContent::Thread(t) => "[Thread by @"@ + t.author@ + "]\n\n"@ + join_seq(
            t.tweets@.map_values(|x: TwitterThreadTweet| thread_line(x)),
            "\n\n"@,
        ),
        TwitterContent::DirectMessage(d) => "[DM] "@ + d.text@,
    }
}

/// The unified content type of Twitter content.
pub open spec fn twitter_content_type(c: TwitterContent) -> ContentType {
    match c {
        TwitterContent::Text(_) => ContentType::Text,
        TwitterContent::Media(_) => ContentType::Image,
        TwitterContent::Poll(_) => ContentType::Card,
        TwitterContent::Card(_) => ContentType::Card,
        TwitterContent::Quote(_) => ContentType::Rich,
        TwitterContent::Reply(_) => ContentType::Text,
        TwitterContent::Retweet(_) => ContentType::Rich,
        TwitterContent::Thread(_) => ContentType::Rich,
        TwitterContent::DirectMessage(_) => ContentType::Text,
    }
}

/// The text `text` cut to its first `limit` bytes, followed by `...`, when
/// it is longer than `limit` bytes; the text itself otherwise.
pub open spec fn truncated(text: Seq<char>, limit: nat) -> Seq<char> {
    if encode_utf8(text).len() <= limit {
        text
    } else {
        decode_utf8(encode_utf8(text).subrange(0, limit as int)) + "..."@
    }
}

/// The encoding of two runs of characters is the encoding of the first
/// followed by that of the second.
proof fn lemma_encode_concat(a: Seq<char>, b: Seq<char>)
    ensures
        encode_utf8(a + b) == encode_utf8(a) + encode_utf8(b),
    decreases a.len(),
{
    if a.len() == 0 {
        assert(a + b =~= b);
    } else {
        assert((a + b).drop_first() =~= a.drop_first() + b);
        lemma_encode_concat(a.drop_first(), b);
        assert(encode_utf8(a) + encode_utf8(b) =~= encode_scalar(a[0] as u32) + (encode_utf8(a.drop_first()) + encode_utf8(b)));
    }
}

/// A truncated tweet is at most `limit` bytes and the three bytes of the
/// ellipsis long, and a text within the limit is left as it is.
pub proof fn lemma_truncated_within_limit(text: Seq<char>, limit: nat)
    requires
        encode_utf8(text).len() > limit ==> is_char_boundary(encode_utf8(text), limit as int),
    ensures
        encode_utf8(truncated(text, limit)).len() <= limit + 3,
        encode_utf8(text).len() <= limit ==> truncated(text, limit) == text,
{
    if encode_utf8(text).len() > limit {
        let bytes = encode_utf8(text);
        let head = bytes.subrange(0, limit as int);
        encode_utf8_valid_utf8(text);
        valid_utf8_split(bytes, limit as int);
        decode_utf8_encode_utf8(head);
        reveal_strlit("...");
        is_ascii_chars_encode_utf8("..."@);
        lemma_encode_concat(decode_utf8(head), "..."@);
    }
}

fn media_tags(media: &Vec<TwitterMediaItem>) -> (v: Vec<String>)
    ensures
        views(v@) == media@.map_values(|x: TwitterMediaItem| media_tag(x)),
{
    let mut v: Vec<String> = Vec::new();
    let mut i: usize = 0;
    while i < media.len()
        invariant
            i <= media.len(),
            views(v@) =~= media@.subrange(0, i as int).map_values(|x: TwitterMediaItem| media_tag(x)),
        decreases media.len() - i,
    {
        let mut tag = to_owned_string("[");
        push_str(&mut tag, media[i].media_type.as_str());
        push_str(&mut tag, "]");
        let ghost before = v@;
        v.push(tag);
        assert(views(v@) =~= views(before).push(media_tag(media@[i as int])));
        assert(media@.subrange(0, i + 1) =~= media@.subrange(0, i as int).push(media@[i as int]));
        i = i + 1;
    }
    assert(media@.subrange(0, media.len() as int) =~= media@);
    v
}

fn poll_lines(options: &Vec<TwitterPollOption>) -> (v: Vec<String>)
    ensures
        views(v@) == options@.map_values(|o: TwitterPollOption| poll_line(o)),
{
    let mut v: Vec<String> = Vec::new();
    let mut i: usize = 0;
    while i < options.len()
        invariant
            i <= options.len(),
            views(v@) =~= options@.subrange(0, i as int).map_values(|o: TwitterPollOption| poll_line(o)),
        decreases options.len() - i,
    {
        let mut line = String::new();
        push_signed_decimal(&mut line, options[i].position as i64);
        push_str(&mut line, ". ");
        push_str(&mut line, options[i].label.as_str());
        let ghost before = v@;
        v.push(line);
        assert(views(v@) =~= views(before).push(poll_line(options@[i as int])));
        assert(options@.subrange(0, i + 1) =~= options@.subrange(0, i as int).push(options@[i as int]));
        i = i + 1;
    }
    assert(options@.subrange(0, options.len() as int) =~= options@);
    v
}

fn thread_lines(tweets: &Vec<TwitterThreadTweet>) -> (v: Vec<String>)
    ensures
        views(v@) == tweets@.map_values(|x: TwitterThreadTweet| thread_line(x)),
{
    let mut v: Vec<String> = Vec::new();
    let mut i: usize = 0;
    while i < tweets.len()
        invariant
            i <= tweets.len(),
            views(v@) =~= tweets@.subrange(0, i as int).map_values(|x: TwitterThreadTweet| thread_line(x)),
        decreases tweets.len() - i,
    {
        let mut line = String::new();
        push_signed_decimal(&mut line, tweets[i].position as i64);
        push_str(&mut line, ". ");
        push_str(&mut line, tweets[i].text.as_str());
        let ghost before = v@;
        v.push(line);
        assert(views(v@) =~= views(before).push(thread_line(tweets@[i as int])));
        assert(tweets@.subrange(0, i + 1) =~= tweets@.subrange(0, i as int).push(tweets@[i as int]));
        i = i + 1;
    }
    assert(tweets@.subrange(0, tweets.len() as int) =~= tweets@);
    v
}

impl TwitterContent {
    /// The unified content type of this content.
    pub fn content_type(&self) -> (t: ContentType)
        ensures
            t == twitter_content_type(*self),
    {
        match self {
            TwitterContent::Text(_) => ContentType::Text,
            TwitterContent::Media(_) => ContentType::Image,
            TwitterContent::Poll(_) => ContentType::Card,
            TwitterContent::Card(_) => ContentType::Card,
            TwitterContent::Quote(_) => ContentType::Rich,
            TwitterContent::Reply(_) => ContentType::Text,
            TwitterContent::Retweet(_) => ContentType::Rich,
            TwitterContent::Thread(_) => ContentType::Rich,
            TwitterContent::DirectMessage(_) => ContentType::Text,
        }
    }

    /// The plain-text rendering of this content.
    pub fn extract_text(&self) -> (s: String)
        ensures
            s@ == twitter_text(*self),
    {
        TwitterContentParser::extract_text(self)
    }
}

impl TwitterContentParser {
    /// Creates a parser.
    pub fn new() -> Self {
        TwitterContentParser
    }

    /// The kind named by a content type, or the error for an unknown name.
    pub fn content_kind(content_type: &str) -> (r: Result<TwitterKind, AgentError>)
        ensures
            r matches Ok(k) ==> twitter_kind_name(k) == content_type@,
            r is Err <==> (forall|k: TwitterKind| twitter_kind_name(k) != content_type@),
            r matches Err(e) ==> e == AgentError::Platform(e->Platform_0)
                && e->Platform_0@ == "Unknown content type: "@ + content_type@,
    {
        let kind = if str_eq(content_type, "text") {
            TwitterKind::Text
        } else if str_eq(content_type, "media") {
            TwitterKind::Media
        } else if str_eq(content_type, "poll") {
            TwitterKind::Poll
        } else if str_eq(content_type, "card") {
            TwitterKind::Card
        } else if str_eq(content_type, "quote") {
            TwitterKind::Quote
        } else if str_eq(content_type, "reply") {
            TwitterKind::Reply
        } else if str_eq(content_type, "retweet") {
            TwitterKind::Retweet
        } else if str_eq(content_type, "thread") {
            TwitterKind::Thread
        } else if str_eq(content_type, "dm") {
            TwitterKind::DirectMessage
        } else {
            assert forall|k: TwitterKind| twitter_kind_name(k) != content_type@ by {
                match k {
                    TwitterKind::Text => {},
                    TwitterKind::Media => {},
                    TwitterKind::Poll => {},
                    TwitterKind::Card => {},
                    TwitterKind::Quote => {},
                    TwitterKind::Reply => {},
                    TwitterKind::Retweet => {},
                    TwitterKind::Thread => {},
                    TwitterKind::DirectMessage => {},
                }
            }
            return Err(AgentError::Platform(message_with("Unknown content type: ", content_type)));
        };
        assert(twitter_kind_name(kind) == content_type@);
        Ok(kind)
    }

    /// Extracts plain text from any content type.
    pub fn extract_text(content: &TwitterContent) -> (s: String)
        ensures
            s@ == twitter_text(*content),
    {
        match content {
            TwitterContent::Text(t) => t.text.clone(),
            TwitterContent::Media(m) => {
                let tags = media_tags(&m.media);
                let desc = join_strings(&tags, " ");
                let mut s = m.text.clone();
                push_str(&mut s, " ");
                push_str(&mut s, desc.as_str());
                s
            },
            TwitterContent::Poll(p) => {
                let lines = poll_lines(&p.options);
                let options = join_strings(&lines, "\n");
                let mut s = p.text.clone();
                push_str(&mut s, "\n\nPoll:\n");
                push_str(&mut s, options.as_str());
                s
            },
            TwitterContent::Card(k) => {
                let mut s = k.text.clone();
                push_str(&mut s, "\n\n[Card: ");
                push_str(&mut s, k.title.as_str());
                push_str(&mut s, " - ");
                push_str(&mut s, k.url.as_str());
                push_str(&mut s, "]");
                s
            },
            TwitterContent::Quote(q) => {
                let mut s = q.text.clone();
                push_str(&mut s, "\n\n[Quoted @");
                push_str(&mut s, q.quoted_author.as_str());
                push_str(&mut s, ": ");
                push_str(&mut s, q.quoted_text.as_str());
                push_str(&mut s, "]");
                s
            },
            TwitterContent::Reply(r) => r.text.clone(),
            TwitterContent::Retweet(r) => {
                let mut s = match &r.comment {
                    Some(comment) => {
                        let mut s = comment.clone();
                        push_str(&mut s, "\n\n[RT @");
                        s
                    },
                    None => to_owned_string("[RT @"),
                };
                push_str(&mut s, r.retweeted_author.as_str());
                push_str(&mut s, ": ");
                push_str(&mut s, r.retweeted_text.as_str());
                push_str(&mut s, "]");
                s
            },
            TwitterContent::Thread(t) => {
                let lines = thread_lines(&t.tweets);
                let body = join_strings(&lines, "\n\n");
                let mut s = to_owned_string("[Thread by @");
                push_str(&mut s, t.author.as_str());
                push_str(&mut s, "]\n\n");
                push_str(&mut s, body.as_str());
                s
            },
            TwitterContent::DirectMessage(d) => {
                let mut s = to_owned_string("[DM] ");
                push_str(&mut s, d.text.as_str());
                s
            },
        }
    }

    /// The name of the content's type.
    pub fn get_content_type(content: &TwitterContent) -> (r: &'static str)
        ensures
            r@ == twitter_kind_name(twitter_kind_of(*content)),
    {
        match content {
            TwitterContent::Text(_) => "text",
            TwitterContent::Media(_) => "media",
            TwitterContent::Poll(_) => "poll",
            TwitterContent::Card(_) => "card",
            TwitterContent::Quote(_) => "quote",
            TwitterContent::Reply(_) => "reply",
            TwitterContent::Retweet(_) => "retweet",
            TwitterContent::Thread(_) => "thread",
            TwitterContent::DirectMessage(_) => "dm",
        }
    }

    /// Text content.
    pub fn create_text(text: &str) -> (c: TwitterContent)
        ensures
            c matches TwitterContent::Text(t) && t.text@ == text@ && t.is_long_tweet is None
                && t.lang is None,
    {
        TwitterContent::Text(
            TwitterTextContent { text: to_owned_string(text), is_long_tweet: None, lang: None },
        )
    }

    /// Media content with the given items.
    pub fn create_media(text: &str, media: Vec<TwitterMediaItem>) -> (c: TwitterContent)
        ensures
            c matches TwitterContent::Media(m) && m.text@ == text@ && m.media == media
                && m.alt_text is None,
    {
        TwitterContent::Media(
            TwitterMediaContent { text: to_owned_string(text), media, alt_text: None },
        )
    }

    /// A reply to a tweet; the replied-to user's ID is left empty.
    pub fn create_reply(text: &str, reply_to_tweet_id: &str, reply_to_username: &str) -> (c:
        TwitterContent)
        ensures
            c matches TwitterContent::Reply(r) && r.text@ == text@
                && r.in_reply_to_tweet_id@ == reply_to_tweet_id@
                && r.in_reply_to_user_id@.len() == 0
                && r.in_reply_to_username@ == reply_to_username@,
    {
        TwitterContent::Reply(
            TwitterReplyContent {
                text: to_owned_string(text),
                in_reply_to_tweet_id: to_owned_string(reply_to_tweet_id),
                in_reply_to_user_id: String::new(),
                in_reply_to_username: to_owned_string(reply_to_username),
            },
        )
    }

    /// A quote tweet; the quoted author's ID is left empty.
    pub fn create_quote(text: &str, quoted_tweet_id: &str, quoted_author: &str, quoted_text: &str) -> (c:
        TwitterContent)
        ensures
            c matches TwitterContent::Quote(q) && q.text@ == text@
                && q.quoted_tweet_id@ == quoted_tweet_id@ && q.quoted_author@ == quoted_author@
                && q.quoted_text@ == quoted_text@ && q.quoted_author_id@.len() == 0,
    {
        TwitterContent::Quote(
            TwitterQuoteContent {
                text: to_owned_string(text),
                quoted_tweet_id: to_owned_string(quoted_tweet_id),
                quoted_text: to_owned_string(quoted_text),
                quoted_author: to_owned_string(quoted_author),
                quoted_author_id: String::new(),
            },
        )
    }

    /// A direct message without attachments.
    pub fn create_dm(text: &str, sender_id: &str, recipient_id: &str) -> (c: TwitterContent)
        ensures
            c matches TwitterContent::DirectMessage(d) && d.text@ == text@
                && d.sender_id@ == sender_id@ && d.recipient_id@ == recipient_id@
                && d.attachments is None,
    {
        TwitterContent::DirectMessage(
            TwitterDMContent {
                text: to_owned_string(text),
                sender_id: to_owned_string(sender_id),
                recipient_id: to_owned_string(recipient_id),
                attachments: None,
            },
        )
    }

    /// Whether the content is a media tweet.
    pub fn has_media(content: &TwitterContent) -> (b: bool)
        ensures
            b == (*content is Media),
    {
        matches!(content, TwitterContent::Media(_))
    }

    /// Whether the content is a reply.
    pub fn is_reply(content: &TwitterContent) -> (b: bool)
        ensures
            b == (*content is Reply),
    {
        matches!(content, TwitterContent::Reply(_))
    }

    /// Whether the content is a retweet.
    pub fn is_retweet(content: &TwitterContent) -> (b: bool)
        ensures
            b == (*content is Retweet),
    {
        matches!(content, TwitterContent::Retweet(_))
    }

    /// The URLs of a media tweet's items, in order; none for other content.
    pub fn get_media_urls(content: &TwitterContent) -> (v: Vec<String>)
        ensures
            content matches TwitterContent::Media(m) ==> views(v@) == m.media@.map_values(
                |x: TwitterMediaItem| x.url@,
            ),
            !(content is Media) ==> v@.len() == 0,
    {
        match content {
            TwitterContent::Media(m) => {
                let mut v: Vec<String> = Vec::new();
                let mut i: usize = 0;
                while i < m.media.len()
                    invariant
                        i <= m.media.len(),
                        views(v@) =~= m.media@.subrange(0, i as int).map_values(|x: TwitterMediaItem| x.url@),
                    decreases m.media.len() - i,
                {
                    let ghost before = v@;
                    v.push(m.media[i].url.clone());
                    assert(views(v@) =~= views(before).push(m.media@[i as int].url@));
                    assert(m.media@.subrange(0, i + 1) =~= m.media@.subrange(0, i as int).push(m.media@[i as int]));
                    i = i + 1;
                }
                assert(m.media@.subrange(0, m.media.len() as int) =~= m.media@);
                v
            },
            _ => Vec::new(),
        }
    }

    /// Cuts a text longer than `limit` bytes to its first `limit` bytes and
    /// appends `...`; a text within the limit is returned as it is. The cut
    /// must fall on a character boundary.
    pub fn truncate_to_limit(text: &str, limit: usize) -> (r: String)
        requires
            encode_utf8(text@).len() > limit ==> is_char_boundary(encode_utf8(text@), limit as int),
        ensures
            r@ == truncated(text@, limit as nat),
    {
        let bytes = text.as_bytes();
        assert(bytes@ == encode_utf8(text@));
        if bytes.len() <= limit {
            to_owned_string(text)
        } else {
            let (head, _tail) = text.split_at(limit);
            let mut r = to_owned_string(head);
            push_str(&mut r, "...");
            proof {
                encode_utf8_decode_utf8(head@);
                assert(head.spec_bytes() == encode_utf8(head@));
                assert(text.spec_bytes() == encode_utf8(text@));
            }
            r
        }
    }
}

impl TwitterMediaItem {
    /// The unified media form of this item.
    pub fn to_media_content(&self) -> (m: MediaContent)
        ensures
            m.url == self.url && m.width == self.width && m.height == self.height
                && m.duration == self.duration_ms && m.mime_type is None && m.filename is None
                && m.caption is None && m.size is None && m.thumbnail is None,
    {
        MediaContent {
            url: self.url.clone(),
            width: self.width,
            height: self.height,
            duration: self.duration_ms,
            mime_type: None,
            filename: None,
            caption: None,
            size: None,
            thumbnail: None,
        }
    }
}

/// A poll option of a built tweet: its 1-based position and label.
#[derive(Debug, Clone, PartialEq, Eq)]
pub struct TweetPollOption {
    pub position: usize,
    pub label: String,
}

/// The poll of a built tweet.
#[derive(Debug, Clone, PartialEq, Eq)]
pub struct TweetPoll {
    pub options: Vec<TweetPollOption>,
    pub duration_minutes: i32,
}

/// The request body of a tweet, in the shape of API v2: the text, the tweet
/// replied to, the media keys when there are any, and the poll when it has
/// both options and a duration.
#[derive(Debug, Clone, PartialEq, Eq)]
pub struct TweetPayload {
    pub text: String,
    pub reply_to_tweet_id: Option<String>,
    pub media_keys: Option<Vec<String>>,
    pub poll: Option<TweetPoll>,
}

/// Tweet builder.
pub struct TweetBuilder {
    text: String,
    reply_to_tweet_id: Option<String>,
    media_keys: Vec<String>,
    poll_options: Vec<String>,
    poll_duration: Option<i32>,
}

/// What a tweet builder holds: text, tweet replied to, media keys, poll
/// options and poll duration.
pub type TweetDraft = (Seq<char>, Option<Seq<char>>, Seq<Seq<char>>, Seq<Seq<char>>, Option<i32>);

impl View for TweetBuilder {
    type V = TweetDraft;

    closed spec fn view(&self) -> TweetDraft {
        (
            self.text@,
            opt_view(self.reply_to_tweet_id),
            views(self.media_keys@),
            views(self.poll_options@),
            self.poll_duration,
        )
    }
}

/// The poll options numbered from 1.
pub open spec fn numbered_options(labels: Seq<Seq<char>>) -> Seq<(nat, Seq<char>)> {
    Seq::new(labels.len(), |i: int| ((i + 1) as nat, labels[i]))
}

impl TweetBuilder {
    /// An empty builder.
    pub fn new() -> (b: Self)
        ensures
            b@ == (Seq::<char>::empty(), None::<Seq<char>>, Seq::<Seq<char>>::empty(), Seq::<
                Seq<char>,
            >::empty(), None::<i32>),
    {
        let b = TweetBuilder {
            text: String::new(),
            reply_to_tweet_id: None,
            media_keys: Vec::new(),
            poll_options: Vec::new(),
            poll_duration: None,
        };
        assert(views(b.media_keys@) =~= Seq::<Seq<char>>::empty());
        assert(views(b.poll_options@) =~= Seq::<Seq<char>>::empty());
        b
    }

    /// Sets the text.
    pub fn text(self, text: &str) -> (b: Self)
        ensures
            b@ == (text@, self@.1, self@.2, self@.3, self@.4),
    {
        let mut b = self;
        b.text = to_owned_string(text);
        b
    }

    /// Sets the tweet replied to.
    pub fn reply_to(self, tweet_id: &str) -> (b: Self)
        ensures
            b@ == (self@.0, Some(tweet_id@), self@.2, self@.3, self@.4),
    {
        let mut b = self;
        b.reply_to_tweet_id = Some(to_owned_string(tweet_id));
        b
    }

    /// Adds a media key.
    pub fn media(self, media_key: &str) -> (b: Self)
        ensures
            b@ == (self@.0, self@.1, self@.2.push(media_key@), self@.3, self@.4),
    {
        let mut b = self;
        let ghost before = b.media_keys@;
        b.media_keys.push(to_owned_string(media_key));
        assert(views(b.media_keys@) =~= views(before).push(media_key@));
        b
    }

    /// Adds a poll option.
    pub fn poll_option(self, option: &str) -> (b: Self)
        ensures
            b@ == (self@.0, self@.1, self@.2, self@.3.push(option@), self@.4),
    {
        let mut b = self;
        let ghost before = b.poll_options@;
        b.poll_options.push(to_owned_string(option));
        assert(views(b.poll_options@) =~= views(before).push(option@));
        b
    }

    /// Sets the poll duration in minutes.
    pub fn poll_duration(self, minutes: i32) -> (b: Self)
        ensures
            b@ == (self@.0, self@.1, self@.2, self@.3, Some(minutes)),
    {
        let mut b = self;
        b.poll_duration = Some(minutes);
        b
    }

    /// The request body: media keys only when some were added, and the poll
    /// only when options were added and a duration set, its options
    /// numbered from 1 in the order they were added.
    pub fn build(self) -> (p: TweetPayload)
        ensures
            p.text@ == self@.0,
            opt_view(p.reply_to_tweet_id) == self@.1,
            match p.media_keys {
                Some(keys) => self@.2.len() > 0 && views(keys@) == self@.2,
                None => self@.2.len() == 0,
            },
            match p.poll {
                Some(poll) => self@.3.len() > 0 && self@.4 == Some(poll.duration_minutes)
                    && poll.options@.map_values(|o: TweetPollOption| (o.position as nat, o.label@))
                    == numbered_options(self@.3),
                None => self@.3.len() == 0 || self@.4 is None,
            },
    {
        let TweetBuilder { text, reply_to_tweet_id, media_keys, poll_options, poll_duration } = self;
        let media = if media_keys.len() > 0 {
            Some(media_keys)
        } else {
            None
        };
        let poll = match poll_duration {
            Some(d) if poll_options.len() > 0 => {
                let mut options: Vec<TweetPollOption> = Vec::new();
                let mut i: usize = 0;
                while i < poll_options.len()
                    invariant
                        i <= poll_options.len(),
                        options@.map_values(|o: TweetPollOption| (o.position as nat, o.label@))
                            =~= numbered_options(views(poll_options@)).subrange(0, i as int),
                    decreases poll_options.len() - i,
                {
                    let ghost before = options@;
                    options.push(TweetPollOption { position: i + 1, label: poll_options[i].clone() });
                    assert(options@.map_values(|o: TweetPollOption| (o.position as nat, o.label@))
                        =~= before.map_values(|o: TweetPollOption| (o.position as nat, o.label@)).push(
                        ((i + 1) as nat, poll_options@[i as int]@),
                    ));
                    i = i + 1;
                }
                Some(TweetPoll { options, duration_minutes: d })
            },
            _ => None,
        };
        TweetPayload { text, reply_to_tweet_id, media_keys: media, poll }
    }
}

impl Default for TweetBuilder {
    fn default() -> (b: Self)
        ensures
            b@ == (Seq::<char>::empty(), None::<Seq<char>>, Seq::<Seq<char>>::empty(), Seq::<
                Seq<char>,
            >::empty(), None::<i32>),
    {
        TweetBuilder::new()
    }
}

} // verus!
