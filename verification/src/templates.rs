//! Message templates with `{{variable}}` substitution and per-platform
//! variants.

use vstd::prelude::*;

pub mod built_in;

use crate::clock::{new_uuid, now_millis};
use crate::content::{ContentType, MessageType, PlatformType};
use crate::error::{message_with, AgentError};
use crate::strmap::{extended, has_key, inserted, lookup, StrMap};
use crate::text::{lemma_replace_absent, push_str, replace_all, replace_str, to_owned_string};

verus! {

/// A message exchanged on a channel.
#[derive(Debug)]
pub struct Message {
    pub id: u128,
    pub thread_id: u128,
    pub platform: PlatformType,
    pub message_type: MessageType,
    pub content: String,
    pub metadata: StrMap<String>,
    pub timestamp: i64,
}

/// A message template.
pub struct MessageTemplate {
    /// Template ID.
    pub id: String,
    /// Template name.
    pub name: String,
    /// Template description.
    pub description: Option<String>,
    /// Platform this template is for (generic when `None`).
    pub platform: Option<PlatformType>,
    /// Content type.
    pub content_type: ContentType,
    /// Template text with `{{variable}}` placeholders.
    pub template: String,
    /// Default variables.
    pub default_variables: StrMap<String>,
    /// Required variables.
    pub required_variables: Vec<String>,
    /// Platform-specific variants; `with_variant` replaces a platform's
    /// existing variant rather than adding a second.
    pub platform_variants: Vec<(PlatformType, String)>,
}

/// The placeholder that stands for a variable.
pub open spec fn placeholder(key: Seq<char>) -> Seq<char> {
    "{{"@ + key + "}}"@
}

/// The template text after substituting each entry in order.
pub open spec fn substitute_seq(t: Seq<char>, es: Seq<(Seq<char>, Seq<char>)>) -> Seq<char>
    decreases es.len(),
{
    if es.len() == 0 {
        t
    } else {
        substitute_seq(
            replace_all(t, placeholder(es[0].0), es[0].1),
            es.subrange(1, es.len() as int),
        )
    }
}

/// Text with every `{{` and then every `}}` removed.
pub open spec fn strip_braces(s: Seq<char>) -> Seq<char> {
    replace_all(replace_all(s, "{{"@, Seq::empty()), "}}"@, Seq::empty())
}

/// The result of variable substitution: each variable's placeholder
/// replaced by its value, then any leftover braces removed.
pub open spec fn substitution(t: Seq<char>, vars: Seq<(Seq<char>, Seq<char>)>) -> Seq<char> {
    strip_braces(substitute_seq(t, vars))
}

/// Substituting into text without `{` leaves it as it is.
proof fn lemma_substitute_plain(t: Seq<char>, es: Seq<(Seq<char>, Seq<char>)>)
    requires
        !t.contains('{'),
    ensures
        substitute_seq(t, es) == t,
    decreases es.len(),
{
    if es.len() > 0 {
        reveal_strlit("{{");
        assert(placeholder(es[0].0)[0] == '{');
        lemma_replace_absent(t, placeholder(es[0].0), es[0].1);
        lemma_substitute_plain(t, es.subrange(1, es.len() as int));
    }
}

/// Text without braces comes out of substitution unchanged, whatever the
/// variables.
pub proof fn lemma_plain_text_unchanged(t: Seq<char>, vars: Seq<(Seq<char>, Seq<char>)>)
    requires
        !t.contains('{'),
        !t.contains('}'),
    ensures
        substitution(t, vars) == t,
{
    lemma_substitute_plain(t, vars);
    reveal_strlit("{{");
    reveal_strlit("}}");
    lemma_replace_absent(t, "{{"@, Seq::empty());
    lemma_replace_absent(t, "}}"@, Seq::empty());
}

/// The first required variable that neither the given variables nor the
/// defaults provide.
pub open spec fn first_missing(
    req: Seq<String>,
    defaults: Seq<(Seq<char>, Seq<char>)>,
    vars: Seq<(Seq<char>, Seq<char>)>,
) -> Option<Seq<char>>
    decreases req.len(),
{
    if req.len() == 0 {
        None
    } else if !has_key(vars, req[0]@) && !has_key(defaults, req[0]@) {
        Some(req[0]@)
    } else {
        first_missing(req.subrange(1, req.len() as int), defaults, vars)
    }
}

/// The platform variants with their texts.
pub open spec fn pv(vs: Seq<(PlatformType, String)>) -> Seq<(PlatformType, Seq<char>)> {
    vs.map_values(|e: (PlatformType, String)| (e.0, e.1@))
}

/// The variant text stored for a platform (the first one, reading from the
/// front), if any.
pub open spec fn variant_for(vs: Seq<(PlatformType, Seq<char>)>, p: PlatformType) -> Option<Seq<char>>
    decreases vs.len(),
{
    if vs.len() == 0 {
        None
    } else if vs[0].0 == p {
        Some(vs[0].1)
    } else {
        variant_for(vs.subrange(1, vs.len() as int), p)
    }
}

/// The variants after setting the one for `p` to `t`: an existing variant
/// for `p` is replaced in place, otherwise `(p, t)` goes last.
pub open spec fn set_variant(vs: Seq<(PlatformType, Seq<char>)>, p: PlatformType, t: Seq<char>) -> Seq<
    (PlatformType, Seq<char>),
>
    decreases vs.len(),
{
    if vs.len() == 0 {
        seq![(p, t)]
    } else if vs[0].0 == p {
        seq![(p, t)] + vs.subrange(1, vs.len() as int)
    } else {
        seq![vs[0]] + set_variant(vs.subrange(1, vs.len() as int), p, t)
    }
}

/// Setting a variant affects only the lookups for that platform.
pub proof fn lemma_set_variant(vs: Seq<(PlatformType, Seq<char>)>, p: PlatformType, t: Seq<char>, q: PlatformType)
    ensures
        q == p ==> variant_for(set_variant(vs, p, t), q) == Some(t),
        q != p ==> variant_for(set_variant(vs, p, t), q) == variant_for(vs, q),
    decreases vs.len(),
{
    let w = set_variant(vs, p, t);
    if vs.len() == 0 {
        assert(w[0] == (p, t));
        assert(w.subrange(1, w.len() as int).len() == 0);
        assert(variant_for(w.subrange(1, w.len() as int), q) is None);
    } else if vs[0].0 == p {
        assert(w[0] == (p, t));
        assert(w.subrange(1, w.len() as int) =~= vs.subrange(1, vs.len() as int));
        if q != p {
            assert(variant_for(w, q) == variant_for(w.subrange(1, w.len() as int), q));
            assert(variant_for(vs, q) == variant_for(vs.subrange(1, vs.len() as int), q));
        }
    } else {
        let rest = vs.subrange(1, vs.len() as int);
        lemma_set_variant(rest, p, t, q);
        assert(w[0] == vs[0]);
        assert(w.subrange(1, w.len() as int) =~= set_variant(rest, p, t));
    }
}

/// The template text used for an optional platform.
pub open spec fn text_for(t: MessageTemplate, p: Option<PlatformType>) -> Seq<char> {
    match p {
        Some(q) => match variant_for(pv(t.platform_variants@), q) {
            Some(v) => v,
            None => t.template@,
        },
        None => t.template@,
    }
}

/// The message type a content type is sent as.
pub open spec fn message_type_for(c: ContentType) -> MessageType {
    match c {
        ContentType::Text => MessageType::Text,
        ContentType::Image => MessageType::Image,
        ContentType::File => MessageType::File,
        ContentType::Audio => MessageType::Voice,
        ContentType::Video => MessageType::Video,
        ContentType::Sticker => MessageType::Sticker,
        _ => MessageType::Text,
    }
}

impl MessageTemplate {
    /// A generic template with no variables, variants or description.
    pub fn new(id: &str, name: &str, template: &str, content_type: ContentType) -> (t: Self)
        ensures
            t.id@ == id@,
            t.name@ == name@,
            t.template@ == template@,
            t.content_type == content_type,
            t.description is None,
            t.platform is None,
            t.default_variables@.len() == 0,
            t.required_variables@.len() == 0,
            t.platform_variants@.len() == 0,
    {
        MessageTemplate {
            id: to_owned_string(id),
            name: to_owned_string(name),
            description: None,
            platform: None,
            content_type,
            template: to_owned_string(template),
            default_variables: StrMap::new(),
            required_variables: Vec::new(),
            platform_variants: Vec::new(),
        }
    }

    /// Marks the template as specific to a platform.
    pub fn for_platform(self, platform: PlatformType) -> (t: Self)
        ensures
            t == (MessageTemplate { platform: Some(platform), ..self }),
    {
        let mut t = self;
        t.platform = Some(platform);
        t
    }

    /// Sets the description.
    pub fn with_description(self, description: &str) -> (t: Self)
        ensures
            t == (MessageTemplate { description: t.description, ..self }),
            t.description matches Some(d) && d@ == description@,
    {
        let mut t = self;
        t.description = Some(to_owned_string(description));
        t
    }

    /// Adds or replaces a default variable.
    pub fn with_default(self, key: &str, value: &str) -> (t: Self)
        ensures
            t == (MessageTemplate { default_variables: t.default_variables, ..self }),
            t.default_variables@ == inserted(self.default_variables@, key@, value@),
    {
        let mut t = self;
        t.default_variables.insert(to_owned_string(key), to_owned_string(value));
        t
    }

    /// Adds a required variable.
    pub fn require(self, key: &str) -> (t: Self)
        ensures
            t == (MessageTemplate { required_variables: t.required_variables, ..self }),
            t.required_variables@.len() == self.required_variables@.len() + 1,
            t.required_variables@.drop_last() == self.required_variables@,
            t.required_variables@.last()@ == key@,
    {
        let mut t = self;
        t.required_variables.push(to_owned_string(key));
        assert(t.required_variables@.drop_last() =~= self.required_variables@);
        t
    }

    /// Adds or replaces the variant for a platform.
    pub fn with_variant(self, platform: PlatformType, template: &str) -> (t: Self)
        ensures
            t == (MessageTemplate { platform_variants: t.platform_variants, ..self }),
            pv(t.platform_variants@) == set_variant(pv(self.platform_variants@), platform, template@),
    {
        let mut t = self;
        set_platform_entry(&mut t.platform_variants, platform, to_owned_string(template));
        t
    }

    /// Checks that every required variable is given or has a default; the
    /// error names the first one that is missing.
    pub fn validate_variables(&self, variables: &StrMap<String>) -> (r: Result<(), AgentError>)
        ensures
            r is Ok <==> first_missing(
                self.required_variables@,
                self.default_variables@,
                variables@,
            ) is None,
            r matches Err(e) ==> e == AgentError::Configuration(e->Configuration_0) && (first_missing(
                self.required_variables@,
                self.default_variables@,
                variables@,
            ) matches Some(m) && e->Configuration_0@ == "Missing required variable: "@ + m),
    {
        let req = &self.required_variables;
        let mut i: usize = 0;
        assert(req@.subrange(0, req.len() as int) =~= req@);
        while i < req.len()
            invariant
                req == &self.required_variables,
                i <= req.len(),
                first_missing(req@.subrange(i as int, req.len() as int), self.default_variables@, variables@)
                    == first_missing(req@, self.default_variables@, variables@),
            decreases req.len() - i,
        {
            let name = req[i].as_str();
            let ghost rest = req@.subrange(i as int, req.len() as int);
            assert(rest.subrange(1, rest.len() as int) =~= req@.subrange(i + 1, req.len() as int));
            assert(rest.len() > 0 && rest[0] == req@[i as int]);
            if !variables.contains_key(name) && !self.default_variables.contains_key(name) {
                assert(first_missing(rest, self.default_variables@, variables@) == Some(name@));
                return Err(AgentError::Configuration(message_with("Missing required variable: ", name)));
            }
            i = i + 1;
        }
        assert(req@.subrange(req.len() as int, req.len() as int).len() == 0);
        Ok(())
    }

    /// The template text for a platform: its variant if it has one,
    /// otherwise the generic text.
    fn get_template_for_platform(&self, platform: Option<PlatformType>) -> (s: &String)
        ensures
            s@ == text_for(*self, platform),
    {
        if let Some(p) = platform {
            if let Some(v) = find_platform_entry(&self.platform_variants, p) {
                return v;
            }
        }
        &self.template
    }
}

/// Sets the entry for a platform: an existing entry is replaced in place,
/// otherwise the entry goes last.
pub(crate) fn set_platform_entry(entries: &mut Vec<(PlatformType, String)>, platform: PlatformType, text: String)
    ensures
        pv(final(entries)@) == set_variant(pv(old(entries)@), platform, text@),
{
    let ghost vs = pv(entries@);
    let ghost tv = text@;
    let mut i: usize = 0;
    assert(vs.subrange(0, vs.len() as int) =~= vs);
    assert(vs.subrange(0, 0) + set_variant(vs, platform, tv) =~= set_variant(vs, platform, tv));
    while i < entries.len()
        invariant
            entries@ == old(entries)@,
            text@ == tv,
            vs == pv(old(entries)@),
            i <= entries.len(),
            set_variant(vs, platform, tv) == vs.subrange(0, i as int) + set_variant(
                vs.subrange(i as int, vs.len() as int),
                platform,
                tv,
            ),
        decreases entries.len() - i,
    {
        let ghost rest = vs.subrange(i as int, vs.len() as int);
        assert(rest.subrange(1, rest.len() as int) =~= vs.subrange(i + 1, vs.len() as int));
        if entries[i].0 == platform {
            entries.set(i, (platform, text));
            proof {
                assert(set_variant(rest, platform, tv) == seq![(platform, tv)] + rest.subrange(1, rest.len() as int));
                assert(pv(entries@) =~= vs.update(i as int, (platform, tv)));
                assert(pv(entries@) =~= set_variant(vs, platform, tv));
            }
            return;
        }
        assert(vs.subrange(0, i + 1) =~= vs.subrange(0, i as int).push(vs[i as int]));
        assert(set_variant(rest, platform, tv) == seq![rest[0]] + set_variant(
            vs.subrange(i + 1, vs.len() as int),
            platform,
            tv,
        ));
        assert(vs.subrange(0, i as int) + set_variant(rest, platform, tv) =~= vs.subrange(0, i + 1)
            + set_variant(vs.subrange(i + 1, vs.len() as int), platform, tv));
        i = i + 1;
    }
    entries.push((platform, text));
    proof {
        assert(set_variant(vs.subrange(vs.len() as int, vs.len() as int), platform, tv) == seq![(platform, tv)]);
        assert(pv(entries@) =~= vs.push((platform, tv)));
        assert(pv(entries@) =~= set_variant(vs, platform, tv));
    }
}

/// The entry for a platform, if there is one.
pub(crate) fn find_platform_entry(entries: &Vec<(PlatformType, String)>, platform: PlatformType) -> (r: Option<
    &String,
>)
    ensures
        r matches Some(s) ==> variant_for(pv(entries@), platform) == Some(s@),
        r is None ==> variant_for(pv(entries@), platform) is None,
{
    let ghost vs = pv(entries@);
    let mut i: usize = 0;
    assert(vs.subrange(0, vs.len() as int) =~= vs);
    while i < entries.len()
        invariant
            vs == pv(entries@),
            i <= entries.len(),
            variant_for(vs, platform) == variant_for(vs.subrange(i as int, vs.len() as int), platform),
        decreases entries.len() - i,
    {
        let ghost rest = vs.subrange(i as int, vs.len() as int);
        assert(rest.subrange(1, rest.len() as int) =~= vs.subrange(i + 1, vs.len() as int));
        if entries[i].0 == platform {
            assert(rest[0] == vs[i as int]);
            return Some(&entries[i].1);
        }
        i = i + 1;
    }
    assert(vs.subrange(i as int, vs.len() as int).len() == 0);
    None
}

impl View for MessageTemplate {
    type V = MessageTemplate;

    open spec fn view(&self) -> MessageTemplate {
        *self
    }
}

/// Registered templates, by ID.
pub struct TemplateEngine {
    templates: StrMap<MessageTemplate>,
}

impl View for TemplateEngine {
    type V = Seq<(Seq<char>, MessageTemplate)>;

    closed spec fn view(&self) -> Seq<(Seq<char>, MessageTemplate)> {
        self.templates@
    }
}

/// The string with the placeholder for `key`.
fn placeholder_of(key: &str) -> (s: String)
    ensures
        s@ == placeholder(key@),
{
    let mut s = to_owned_string("{{");
    push_str(&mut s, key);
    push_str(&mut s, "}}");
    s
}

impl TemplateEngine {
    /// An engine with no templates.
    pub fn new() -> (e: Self)
        ensures
            e@.len() == 0,
    {
        TemplateEngine { templates: StrMap::new() }
    }

    /// Registers a template under its ID, replacing any template with the
    /// same ID.
    pub fn register_template(&mut self, template: MessageTemplate) -> (r: Result<(), AgentError>)
        ensures
            r is Ok,
            final(self)@ == inserted(old(self)@, template.id@, template),
    {
        let id = template.id.clone();
        self.templates.insert(id, template);
        Ok(())
    }

    /// The template registered under an ID.
    pub fn get_template(&self, id: &str) -> (r: Option<&MessageTemplate>)
        ensures
            r matches Some(t) ==> lookup(self@, id@) == Some(*t),
            r is None <==> lookup(self@, id@) is None,
    {
        self.templates.get(id)
    }

    /// Replaces each variable's placeholder by its value, in the order the
    /// variables are stored, then removes every leftover `{{` and `}}`.
    pub fn substitute_variables(template: &str, variables: &StrMap<String>) -> (s: String)
        ensures
            s@ == substitution(template@, variables@),
    {
        proof {
            reveal_strlit("{{");
            reveal_strlit("}}");
        }
        let ghost vars = variables@;
        let mut cur = to_owned_string(template);
        let mut i: usize = 0;
        assert(vars.subrange(0, vars.len() as int) =~= vars);
        while i < variables.len()
            invariant
                vars == variables@,
                i <= vars.len(),
                substitute_seq(cur@, vars.subrange(i as int, vars.len() as int)) == substitute_seq(
                    template@,
                    vars,
                ),
            decreases vars.len() - i,
        {
            let ghost rest = vars.subrange(i as int, vars.len() as int);
            assert(rest.subrange(1, rest.len() as int) =~= vars.subrange(i + 1, vars.len() as int));
            let key = variables.key_at(i);
            let value = variables.value_at(i);
            let ph = placeholder_of(key.as_str());
            proof {
                reveal_strlit("{{");
            }
            assert(ph@.len() > 0);
            cur = replace_str(cur.as_str(), ph.as_str(), value.as_str());
            i = i + 1;
        }
        assert(vars.subrange(vars.len() as int, vars.len() as int).len() == 0);
        let a = replace_str(cur.as_str(), "{{", "");
        let b = replace_str(a.as_str(), "}}", "");
        proof {
            reveal_strlit("");
            assert(""@ =~= Seq::<char>::empty());
        }
        b
    }

    /// Renders a template: checks the required variables, merges the given
    /// variables over the defaults, picks the platform's variant and
    /// substitutes.
    pub fn render(
        &self,
        template_id: &str,
        variables: &StrMap<String>,
        platform: Option<PlatformType>,
    ) -> (r: Result<String, AgentError>)
        ensures
            r is Ok <==> (lookup(self@, template_id@) matches Some(t) && first_missing(
                t.required_variables@,
                t.default_variables@,
                variables@,
            ) is None),
            lookup(self@, template_id@) is None ==> (r matches Err(e) && e == AgentError::Configuration(
                e->Configuration_0,
            ) && e->Configuration_0@ == "Template not found: "@ + template_id@),
            lookup(self@, template_id@) matches Some(t) ==> (first_missing(
                t.required_variables@,
                t.default_variables@,
                variables@,
            ) matches Some(m) ==> (r matches Err(e) && e == AgentError::Configuration(
                e->Configuration_0,
            ) && e->Configuration_0@ == "Missing required variable: "@ + m)),
            r matches Ok(s) ==> (lookup(self@, template_id@) matches Some(t) && s@ == substitution(
                text_for(t, platform),
                extended(t.default_variables@, variables@),
            )),
    {
        let template = match self.templates.get(template_id) {
            Some(t) => t,
            None => {
                return Err(AgentError::Configuration(message_with("Template not found: ", template_id)));
            },
        };
        match template.validate_variables(variables) {
            Ok(()) => {},
            Err(e) => {
                return Err(e);
            },
        }
        let mut context = template.default_variables.clone_map();
        context.extend_strings(variables);
        let template_str = template.get_template_for_platform(platform);
        Ok(Self::substitute_variables(template_str.as_str(), &context))
    }

    /// A message rendered from a template for a platform, with a fresh ID
    /// and thread ID, the current time, and the variables as metadata.
    pub fn create_message(
        &self,
        template_id: &str,
        variables: &StrMap<String>,
        platform: PlatformType,
    ) -> (r: Result<Message, AgentError>)
        ensures
            r is Ok <==> (lookup(self@, template_id@) matches Some(t) && first_missing(
                t.required_variables@,
                t.default_variables@,
                variables@,
            ) is None),
            lookup(self@, template_id@) is None ==> (r matches Err(e) && e == AgentError::Configuration(
                e->Configuration_0,
            ) && e->Configuration_0@ == "Template not found: "@ + template_id@),
            lookup(self@, template_id@) matches Some(t) ==> (first_missing(
                t.required_variables@,
                t.default_variables@,
                variables@,
            ) matches Some(m) ==> (r matches Err(e) && e == AgentError::Configuration(
                e->Configuration_0,
            ) && e->Configuration_0@ == "Missing required variable: "@ + m)),
            r matches Ok(m) ==> (lookup(self@, template_id@) matches Some(t) && m.content@
                == substitution(text_for(t, Some(platform)), extended(t.default_variables@, variables@))
                && m.platform == platform && m.message_type == message_type_for(t.content_type)
                && m.metadata@ == variables@),
    {
        let template = match self.templates.get(template_id) {
            Some(t) => t,
            None => {
                return Err(AgentError::Configuration(message_with("Template not found: ", template_id)));
            },
        };
        let content = match self.render(template_id, variables, Some(platform)) {
            Ok(c) => c,
            Err(e) => {
                return Err(e);
            },
        };
        let message_type = match template.content_type {
            ContentType::Text => MessageType::Text,
            ContentType::Image => MessageType::Image,
            ContentType::File => MessageType::File,
            ContentType::Audio => MessageType::Voice,
            ContentType::Video => MessageType::Video,
            ContentType::Sticker => MessageType::Sticker,
            _ => MessageType::Text,
        };
        Ok(
            Message {
                id: new_uuid(),
                thread_id: new_uuid(),
                platform,
                message_type,
                content,
                metadata: variables.clone_map(),
                timestamp: now_millis(),
            },
        )
    }
}

} // verus!
