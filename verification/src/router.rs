//! Routing messages between platforms: routes with optional content
//! filters, a default target, and transformations of message text.

use vstd::prelude::*;

use crate::content::PlatformType;
use crate::templates::Message;
use crate::text::{chars_of, push_char, push_str, replace_all, replace_str, to_owned_string};

verus! {

/// Whether the regular expression `pattern` matches somewhere in `text`;
/// `None` when the pattern is not a valid regular expression.
pub uninterp spec fn regex_match(pattern: Seq<char>, text: Seq<char>) -> Option<bool>;

/// Compiles `pattern` with `regex::Regex::new` and tests it against `text`
/// with `Regex::is_match`. The contract claims only that the outcome
/// depends on the pattern and the text alone.
#[verifier::external_body]
fn regex_is_match(pattern: &str, text: &str) -> (r: Option<bool>)
    ensures
        r == regex_match(pattern@, text@),
{
    match regex::Regex::new(pattern) {
        Ok(re) => Some(re.is_match(text)),
        Err(_) => None,
    }
}

/// A route from one platform to another. A message passes the filter
/// when the filter's regular expression matches its text; a filter that
/// is not a valid regular expression lets nothing pass.
#[derive(Debug, Clone)]
pub struct RouteConfig {
    pub from_platform: PlatformType,
    pub to_platform: PlatformType,
    pub filter: Option<String>,
    pub transform: Option<MessageTransform>,
}

/// A transformation of message text.
#[derive(Debug, Clone, PartialEq, Eq)]
pub enum MessageTransform {
    Prepend(String),
    Append(String),
    Replace { pattern: String, replacement: String },
}

/// Routes between platforms, in the order they were added, and the
/// default target.
#[derive(Debug)]
pub struct CommunicationRouter {
    routes: Vec<RouteConfig>,
    default_route: Option<PlatformType>,
}

impl View for CommunicationRouter {
    type V = (Seq<RouteConfig>, Option<PlatformType>);

    closed spec fn view(&self) -> (Seq<RouteConfig>, Option<PlatformType>) {
        (self.routes@, self.default_route)
    }
}

/// Whether text passes a route's filter.
pub open spec fn passes(filter: Option<String>, text: Seq<char>) -> bool {
    match filter {
        None => true,
        Some(p) => regex_match(p@, text) == Some(true),
    }
}

/// The targets of the routes that match a platform and text, in order.
pub open spec fn matched_targets(routes: Seq<RouteConfig>, platform: PlatformType, text: Seq<char>) -> Seq<PlatformType>
    decreases routes.len(),
{
    if routes.len() == 0 {
        Seq::empty()
    } else if routes.last().from_platform == platform && passes(routes.last().filter, text) {
        matched_targets(routes.drop_last(), platform, text).push(routes.last().to_platform)
    } else {
        matched_targets(routes.drop_last(), platform, text)
    }
}

/// The targets of a message: those of the matching routes, or the default
/// when none matches.
pub open spec fn route_targets(
    routes: Seq<RouteConfig>,
    default_route: Option<PlatformType>,
    platform: PlatformType,
    text: Seq<char>,
) -> Seq<PlatformType> {
    let m = matched_targets(routes, platform, text);
    if m.len() > 0 {
        m
    } else {
        match default_route {
            Some(d) => seq![d],
            None => Seq::empty(),
        }
    }
}

/// `r` before, between and after the characters of `s`.
pub open spec fn interleave(s: Seq<char>, r: Seq<char>) -> Seq<char>
    decreases s.len(),
{
    if s.len() == 0 {
        r
    } else {
        interleave(s.drop_last(), r) + seq![s.last()] + r
    }
}

/// `s` with each occurrence of `p` replaced by `r`, as `str::replace`
/// does: an empty pattern matches before, between and after characters.
pub open spec fn replaced(s: Seq<char>, p: Seq<char>, r: Seq<char>) -> Seq<char> {
    if p.len() == 0 {
        interleave(s, r)
    } else {
        replace_all(s, p, r)
    }
}

/// Text after a transformation.
pub open spec fn transformed(text: Seq<char>, t: MessageTransform) -> Seq<char> {
    match t {
        MessageTransform::Prepend(prefix) => prefix@ + text,
        MessageTransform::Append(suffix) => text + suffix@,
        MessageTransform::Replace { pattern, replacement } => replaced(text, pattern@, replacement@),
    }
}

fn interleave_str(s: &str, r: &str) -> (out: String)
    ensures
        out@ == interleave(s@, r@),
{
    let cs = chars_of(s);
    let mut out = to_owned_string(r);
    let mut i: usize = 0;
    while i < cs.len()
        invariant
            i <= cs.len(),
            cs@ == s@,
            out@ == interleave(s@.subrange(0, i as int), r@),
        decreases cs.len() - i,
    {
        assert(s@.subrange(0, i + 1).drop_last() =~= s@.subrange(0, i as int));
        push_char(&mut out, cs[i]);
        push_str(&mut out, r);
        assert(out@ =~= interleave(s@.subrange(0, i as int), r@) + seq![cs@[i as int]] + r@);
        i = i + 1;
    }
    assert(s@.subrange(0, s@.len() as int) =~= s@);
    out
}

fn passes_filter(filter: &Option<String>, text: &str) -> (b: bool)
    ensures
        b == passes(*filter, text@),
{
    match filter {
        None => true,
        Some(p) => match regex_is_match(p.as_str(), text) {
            Some(m) => m,
            None => false,
        },
    }
}

impl CommunicationRouter {
    /// A router with no routes and no default.
    pub fn new() -> (r: Self)
        ensures
            r@.0.len() == 0,
            r@.1 is None,
    {
        CommunicationRouter { routes: Vec::new(), default_route: None }
    }

    /// Adds a route.
    pub fn add_route(&mut self, config: RouteConfig)
        ensures
            final(self)@ == (old(self)@.0.push(config), old(self)@.1),
    {
        self.routes.push(config);
    }

    /// Sets the default target.
    pub fn set_default_route(&mut self, platform: PlatformType)
        ensures
            final(self)@ == (old(self)@.0, Some(platform)),
    {
        self.default_route = Some(platform);
    }

    /// The platforms a message goes to: the targets of the routes from its
    /// platform whose filter it passes, in order, or else the default.
    pub fn route(&self, message: &Message) -> (v: Vec<PlatformType>)
        ensures
            v@ == route_targets(self@.0, self@.1, message.platform, message.content@),
    {
        let mut targets: Vec<PlatformType> = Vec::new();
        let mut i: usize = 0;
        while i < self.routes.len()
            invariant
                i <= self.routes.len(),
                targets@ == matched_targets(self@.0.subrange(0, i as int), message.platform, message.content@),
            decreases self.routes.len() - i,
        {
            assert(self@.0.subrange(0, i + 1).drop_last() =~= self@.0.subrange(0, i as int));
            let route = &self.routes[i];
            if route.from_platform == message.platform && passes_filter(&route.filter, message.content.as_str()) {
                targets.push(route.to_platform);
            }
            i = i + 1;
        }
        assert(self@.0.subrange(0, self@.0.len() as int) =~= self@.0);
        if targets.len() == 0 {
            if let Some(d) = self.default_route {
                targets.push(d);
                assert(targets@ =~= seq![d]);
            }
        }
        targets
    }

    /// Applies a transformation to a message's text.
    pub fn transform(&self, message: &mut Message, transform: &MessageTransform)
        ensures
            final(message).content@ == transformed(old(message).content@, *transform),
            final(message).id == old(message).id,
            final(message).thread_id == old(message).thread_id,
            final(message).platform == old(message).platform,
            final(message).message_type == old(message).message_type,
            final(message).metadata == old(message).metadata,
            final(message).timestamp == old(message).timestamp,
    {
        match transform {
            MessageTransform::Prepend(prefix) => {
                let mut s = prefix.clone();
                push_str(&mut s, message.content.as_str());
                message.content = s;
            },
            MessageTransform::Append(suffix) => {
                push_str(&mut message.content, suffix.as_str());
            },
            MessageTransform::Replace { pattern, replacement } => {
                let s = if pattern.as_str().unicode_len() == 0 {
                    interleave_str(message.content.as_str(), replacement.as_str())
                } else {
                    replace_str(message.content.as_str(), pattern.as_str(), replacement.as_str())
                };
                message.content = s;
            },
        }
    }

    /// The routes from a platform, in order.
    pub fn get_routes(&self, from: PlatformType) -> (v: Vec<&RouteConfig>)
        ensures
            v@.map_values(|r: &RouteConfig| *r) == self@.0.filter(|r: RouteConfig| r.from_platform == from),
    {
        let ghost pred = |r: RouteConfig| r.from_platform == from;
        let mut v: Vec<&RouteConfig> = Vec::new();
        let mut i: usize = 0;
        while i < self.routes.len()
            invariant
                i <= self.routes.len(),
                pred == (|r: RouteConfig| r.from_platform == from),
                v@.map_values(|r: &RouteConfig| *r) =~= self@.0.subrange(0, i as int).filter(pred),
            decreases self.routes.len() - i,
        {
            proof {
                reveal(Seq::filter);
                assert(self@.0.subrange(0, i + 1).drop_last() =~= self@.0.subrange(0, i as int));
            }
            let r = &self.routes[i];
            if r.from_platform == from {
                let ghost before = v@;
                v.push(r);
                assert(v@.map_values(|r: &RouteConfig| *r) =~= before.map_values(|r: &RouteConfig| *r).push(*r));
            }
            i = i + 1;
        }
        assert(self@.0.subrange(0, self@.0.len() as int) =~= self@.0);
        v
    }
}

impl Default for CommunicationRouter {
    fn default() -> (r: Self)
        ensures
            r@.0.len() == 0,
            r@.1 is None,
    {
        CommunicationRouter::new()
    }
}

/// Whether route `r` takes a message from `platform` with text `text`.
pub open spec fn route_applies(r: RouteConfig, platform: PlatformType, text: Seq<char>) -> bool {
    r.from_platform == platform && passes(r.filter, text)
}

proof fn lemma_matched(routes: Seq<RouteConfig>, platform: PlatformType, text: Seq<char>)
    ensures
        (forall|i: int| 0 <= i < routes.len() ==> !route_applies(#[trigger] routes[i], platform, text))
            ==> matched_targets(routes, platform, text).len() == 0,
        forall|i: int| 0 <= i < routes.len() && route_applies(#[trigger] routes[i], platform, text)
            ==> matched_targets(routes, platform, text).contains(routes[i].to_platform),
    decreases routes.len(),
{
    if routes.len() > 0 {
        let init = routes.drop_last();
        lemma_matched(init, platform, text);
        assert forall|i: int| 0 <= i < routes.len() && route_applies(#[trigger] routes[i], platform, text)
            implies matched_targets(routes, platform, text).contains(routes[i].to_platform) by {
            let m = matched_targets(init, platform, text);
            if i < routes.len() - 1 {
                assert(init[i] == routes[i]);
                assert(route_applies(init[i], platform, text));
                let k = choose|k: int| 0 <= k < m.len() && m[k] == routes[i].to_platform;
                if route_applies(routes.last(), platform, text) {
                    assert(m.push(routes.last().to_platform)[k] == routes[i].to_platform);
                }
            } else {
                assert(m.push(routes.last().to_platform)[m.len() as int] == routes[i].to_platform);
            }
        }
        if forall|i: int| 0 <= i < routes.len() ==> !route_applies(#[trigger] routes[i], platform, text) {
            assert forall|i: int| 0 <= i < init.len() implies !route_applies(#[trigger] init[i], platform, text) by {
                assert(init[i] == routes[i]);
            }
            assert(!route_applies(routes[routes.len() - 1], platform, text));
        }
    }
}

/// Routing: a message reaches the target of every route from its platform
/// whose filter it passes; when no such route exists it goes to the
/// default route alone, or nowhere without one.
pub proof fn lemma_route_targets(
    routes: Seq<RouteConfig>,
    default_route: Option<PlatformType>,
    platform: PlatformType,
    text: Seq<char>,
)
    ensures
        forall|i: int| 0 <= i < routes.len() && route_applies(#[trigger] routes[i], platform, text)
            ==> route_targets(routes, default_route, platform, text).contains(routes[i].to_platform),
        (forall|i: int| 0 <= i < routes.len() ==> !route_applies(#[trigger] routes[i], platform, text)) ==> (
        route_targets(routes, default_route, platform, text) == match default_route {
            Some(d) => seq![d],
            None => Seq::<PlatformType>::empty(),
        }),
{
    lemma_matched(routes, platform, text);
    assert forall|i: int| 0 <= i < routes.len() && route_applies(#[trigger] routes[i], platform, text)
        implies route_targets(routes, default_route, platform, text).contains(routes[i].to_platform) by {
        assert(matched_targets(routes, platform, text).contains(routes[i].to_platform));
    }
}

} // verus!
