//! WeChat messages delivered as XML: the value of a tag, found with a
//! regular expression, and the content a message of each type becomes.

use vstd::prelude::*;

use crate::channel::wechat::{
    WeChatContent, WeChatEventContent, WeChatFileContent, WeChatImageContent,
    WeChatLinkContent, WeChatLocationContent, WeChatTextContent, WeChatVideoContent,
    WeChatVoiceContent,
};
use crate::content::opt_view;
use crate::error::AgentError;
use crate::numtext::{int_text, parse_i32, parse_i64};
use crate::text::{push_str, str_eq, to_owned_string};

verus! {

/// What `regex::Regex::new(pattern)` followed by `Regex::captures(text)`
/// gives: `None` where the pattern is refused, `Some(None)` where nothing
/// matches, and otherwise the text of the first capture group of the first
/// match (`None` where that group took no part in it).
pub uninterp spec fn regex_first_group(pattern: Seq<char>, text: Seq<char>) -> Option<Option<Option<Seq<char>>>>;

/// The plain view of a capture outcome.
pub open spec fn capture_view(r: Option<Option<Option<String>>>) -> Option<Option<Option<Seq<char>>>> {
    match r {
        None => None,
        Some(None) => Some(None),
        Some(Some(g)) => Some(Some(opt_view(g))),
    }
}

/// Compiles `pattern` with `regex::Regex::new` and searches `text` with
/// `Regex::captures`, returning the first group of the first match. The
/// contract claims only that the outcome depends on the pattern and the
/// text alone.
#[verifier::external_body]
fn regex_capture(pattern: &str, text: &str) -> (r: Option<Option<Option<String>>>)
    ensures
        capture_view(r) == regex_first_group(pattern@, text@),
{
    match regex::Regex::new(pattern) {
        Err(_) => None,
        Ok(re) => match re.captures(text) {
            None => Some(None),
            Some(c) => Some(Some(c.get(1).map(|m| m.as_str().to_string()))),
        },
    }
}

/// The pattern of a tag whose value is wrapped in a CDATA section.
pub open spec fn cdata_pattern(tag: Seq<char>) -> Seq<char> {
    "<"@ + tag + "><!\\[CDATA\\[(.*?)\\]\\]></"@ + tag + ">"@
}

/// The pattern of a tag with a bare value.
pub open spec fn plain_pattern(tag: Seq<char>) -> Seq<char> {
    "<"@ + tag + ">(.*?)</"@ + tag + ">"@
}

/// The value of `tag` in `xml`: the CDATA form is tried first and decides
/// where it matches; otherwise the bare form. A refused pattern gives no
/// value.
pub open spec fn xml_value(xml: Seq<char>, tag: Seq<char>) -> Option<Seq<char>> {
    match regex_first_group(cdata_pattern(tag), xml) {
        None => None,
        Some(Some(g)) => g,
        Some(None) => match regex_first_group(plain_pattern(tag), xml) {
            Some(Some(g)) => g,
            _ => None,
        },
    }
}

/// The value of `tag`, or empty text.
pub open spec fn xml_text(xml: Seq<char>, tag: Seq<char>) -> Seq<char> {
    match xml_value(xml, tag) {
        Some(v) => v,
        None => Seq::empty(),
    }
}

/// The value of `tag`, or `0`.
pub open spec fn xml_number_text(xml: Seq<char>, tag: Seq<char>) -> Seq<char> {
    match xml_value(xml, tag) {
        Some(v) => v,
        None => "0"@,
    }
}

/// The `i32` written as the value of `tag`, or 0.
pub open spec fn xml_i32(xml: Seq<char>, tag: Seq<char>) -> i32 {
    match xml_value(xml, tag) {
        Some(v) => match int_text(v) {
            Some(n) => if i32::MIN <= n <= i32::MAX { n as i32 } else { 0 },
            None => 0,
        },
        None => 0,
    }
}

/// The `i64` written as the value of `tag`, or 0.
pub open spec fn xml_i64(xml: Seq<char>, tag: Seq<char>) -> i64 {
    match xml_value(xml, tag) {
        Some(v) => match int_text(v) {
            Some(n) => if i64::MIN <= n <= i64::MAX { n as i64 } else { 0 },
            None => 0,
        },
        None => 0,
    }
}

/// The message type of an XML message: its `MsgType`, or `text`.
pub open spec fn xml_msg_type(xml: Seq<char>) -> Seq<char> {
    match xml_value(xml, "MsgType"@) {
        Some(t) => t,
        None => "text"@,
    }
}

/// The content that an XML message of type `t` becomes. Coordinates keep
/// the text of their tags (`0` where a tag is absent).
pub open spec fn xml_content(t: Seq<char>, xml: Seq<char>, c: WeChatContent) -> bool {
    if t == "text"@ {
        c matches WeChatContent::Text(x) && x.content@ == xml_text(xml, "Content"@)
    } else if t == "image"@ {
        c matches WeChatContent::Image(x) && x.media_id@ == xml_text(xml, "MediaId"@)
            && opt_view(x.pic_url) == xml_value(xml, "PicUrl"@) && x.format is None
    } else if t == "voice"@ {
        c matches WeChatContent::Voice(x) && x.media_id@ == xml_text(xml, "MediaId"@)
            && opt_view(x.format) == xml_value(xml, "Format"@)
            && opt_view(x.recognition) == xml_value(xml, "Recognition"@) && x.duration is None
    } else if t == "video"@ || t == "shortvideo"@ {
        c matches WeChatContent::Video(x) && x.media_id@ == xml_text(xml, "MediaId"@)
            && opt_view(x.title) == xml_value(xml, "Title"@)
            && opt_view(x.description) == xml_value(xml, "Description"@)
            && opt_view(x.thumb_media_id) == xml_value(xml, "ThumbMediaId"@)
    } else if t == "location"@ {
        c matches WeChatContent::Location(x) && x.location_x@ == xml_number_text(xml, "Location_X"@)
            && x.location_y@ == xml_number_text(xml, "Location_Y"@) && x.scale == xml_i32(xml, "Scale"@)
            && x.label@ == xml_text(xml, "Label"@) && x.poi_name is None
    } else if t == "link"@ {
        c matches WeChatContent::Link(x) && x.title@ == xml_text(xml, "Title"@)
            && x.description@ == xml_text(xml, "Description"@) && x.url@ == xml_text(xml, "Url"@)
            && opt_view(x.pic_url) == xml_value(xml, "PicUrl"@)
    } else if t == "event"@ {
        c matches WeChatContent::Event(x) && x.event@ == xml_text(xml, "Event"@)
            && opt_view(x.event_key) == xml_value(xml, "EventKey"@)
            && opt_view(x.ticket) == xml_value(xml, "Ticket"@)
            && opt_view(x.latitude) == xml_value(xml, "Latitude"@)
            && opt_view(x.longitude) == xml_value(xml, "Longitude"@)
            && opt_view(x.precision) == xml_value(xml, "Precision"@)
            && opt_view(x.change_type) == xml_value(xml, "ChangeType"@)
            && opt_view(x.user_id) == xml_value(xml, "UserID"@)
            && opt_view(x.department) == xml_value(xml, "Department"@)
    } else if t == "file"@ {
        c matches WeChatContent::File(x) && x.title@ == xml_text(xml, "Title"@) && x.description@.len() == 0
            && x.file_name@ == xml_text(xml, "FileName"@)
            && opt_view(x.file_key) == xml_value(xml, "FileKey"@)
            && opt_view(x.file_md5) == xml_value(xml, "FileMd5"@)
            && x.file_total_len == xml_i64(xml, "FileTotalLen"@)
    } else {
        c matches WeChatContent::Text(x) && x.content@ == "Unknown message type"@
    }
}

/// Parses WeChat messages delivered as XML.
#[derive(Debug, Clone, Copy, Default)]
pub struct WeChatXmlParser;

/// The value of `tag` in `xml`.
pub fn extract_xml_value(xml: &str, tag: &str) -> (r: Option<String>)
    ensures
        opt_view(r) == xml_value(xml@, tag@),
{
    let mut cdata = to_owned_string("<");
    push_str(&mut cdata, tag);
    push_str(&mut cdata, "><!\\[CDATA\\[(.*?)\\]\\]></");
    push_str(&mut cdata, tag);
    push_str(&mut cdata, ">");
    match regex_capture(cdata.as_str(), xml) {
        None => None,
        Some(Some(g)) => g,
        Some(None) => {
            let mut plain = to_owned_string("<");
            push_str(&mut plain, tag);
            push_str(&mut plain, ">(.*?)</");
            push_str(&mut plain, tag);
            push_str(&mut plain, ">");
            match regex_capture(plain.as_str(), xml) {
                Some(Some(g)) => g,
                _ => None,
            }
        },
    }
}

/// The value of `tag`, or an empty string.
fn xml_string(xml: &str, tag: &str) -> (s: String)
    ensures
        s@ == xml_text(xml@, tag@),
{
    match extract_xml_value(xml, tag) {
        Some(v) => v,
        None => String::new(),
    }
}

/// The value of `tag`, or `0`.
fn xml_number_string(xml: &str, tag: &str) -> (s: String)
    ensures
        s@ == xml_number_text(xml@, tag@),
{
    match extract_xml_value(xml, tag) {
        Some(v) => v,
        None => to_owned_string("0"),
    }
}

impl WeChatXmlParser {
    /// The message type of an XML message and the content it becomes.
    pub fn parse(xml: &str) -> (r: Result<(String, WeChatContent), AgentError>)
        ensures
            r matches Ok((t, c)) && t@ == xml_msg_type(xml@) && xml_content(t@, xml@, c),
    {
        let msg_type = match extract_xml_value(xml, "MsgType") {
            Some(t) => t,
            None => to_owned_string("text"),
        };
        let t = msg_type.as_str();
        let content = if str_eq(t, "text") {
            WeChatContent::Text(WeChatTextContent { content: xml_string(xml, "Content") })
        } else if str_eq(t, "image") {
            WeChatContent::Image(WeChatImageContent {
                media_id: xml_string(xml, "MediaId"),
                pic_url: extract_xml_value(xml, "PicUrl"),
                format: None,
            })
        } else if str_eq(t, "voice") {
            WeChatContent::Voice(WeChatVoiceContent {
                media_id: xml_string(xml, "MediaId"),
                format: extract_xml_value(xml, "Format"),
                recognition: extract_xml_value(xml, "Recognition"),
                duration: None,
            })
        } else if str_eq(t, "video") || str_eq(t, "shortvideo") {
            WeChatContent::Video(WeChatVideoContent {
                media_id: xml_string(xml, "MediaId"),
                title: extract_xml_value(xml, "Title"),
                description: extract_xml_value(xml, "Description"),
                thumb_media_id: extract_xml_value(xml, "ThumbMediaId"),
            })
        } else if str_eq(t, "location") {
            let scale: i32 = match extract_xml_value(xml, "Scale") {
                Some(v) => match parse_i32(v.as_str()) {
                    Some(n) => n,
                    None => 0,
                },
                None => 0,
            };
            WeChatContent::Location(WeChatLocationContent {
                location_x: xml_number_string(xml, "Location_X"),
                location_y: xml_number_string(xml, "Location_Y"),
                scale,
                label: xml_string(xml, "Label"),
                poi_name: None,
            })
        } else if str_eq(t, "link") {
            WeChatContent::Link(WeChatLinkContent {
                title: xml_string(xml, "Title"),
                description: xml_string(xml, "Description"),
                url: xml_string(xml, "Url"),
                pic_url: extract_xml_value(xml, "PicUrl"),
            })
        } else if str_eq(t, "event") {
            WeChatContent::Event(WeChatEventContent {
                event: xml_string(xml, "Event"),
                event_key: extract_xml_value(xml, "EventKey"),
                ticket: extract_xml_value(xml, "Ticket"),
                latitude: extract_xml_value(xml, "Latitude"),
                longitude: extract_xml_value(xml, "Longitude"),
                precision: extract_xml_value(xml, "Precision"),
                change_type: extract_xml_value(xml, "ChangeType"),
                user_id: extract_xml_value(xml, "UserID"),
                department: extract_xml_value(xml, "Department"),
            })
        } else if str_eq(t, "file") {
            let total: i64 = match extract_xml_value(xml, "FileTotalLen") {
                Some(v) => match parse_i64(v.as_str()) {
                    Some(n) => n,
                    None => 0,
                },
                None => 0,
            };
            WeChatContent::File(WeChatFileContent {
                title: xml_string(xml, "Title"),
                description: String::new(),
                file_name: xml_string(xml, "FileName"),
                file_key: extract_xml_value(xml, "FileKey"),
                file_md5: extract_xml_value(xml, "FileMd5"),
                file_total_len: total,
            })
        } else {
            WeChatContent::Text(WeChatTextContent { content: to_owned_string("Unknown message type") })
        };
        Ok((msg_type, content))
    }
}

} // verus!
