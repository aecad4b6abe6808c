//! The built-in message templates.

use vstd::prelude::*;

use crate::content::{ContentType, PlatformType};
use crate::templates::{pv, set_variant, MessageTemplate};
use crate::text::views;

verus! {

/// Whether a template has the given identity, texts and no platform.
pub open spec fn described(
    t: MessageTemplate,
    id: Seq<char>,
    name: Seq<char>,
    template: Seq<char>,
    description: Seq<char>,
) -> bool {
    &&& t.id@ == id
    &&& t.name@ == name
    &&& t.template@ == template
    &&& t.content_type == ContentType::Text
    &&& t.platform is None
    &&& (t.description matches Some(d) && d@ == description)
}

/// Welcome message template.
pub fn welcome() -> (t: MessageTemplate)
    ensures
        described(
            t,
            "welcome"@,
            "Welcome Message"@,
            "Hello {{name}}! Welcome to {{service}}."@,
            "Welcome message for new users"@,
        ),
        views(t.required_variables@) == seq!["name"@],
        t.default_variables@ == seq![("service"@, "BeeBotOS"@)],
        pv(t.platform_variants@) == seq![
            (PlatformType::Discord, "🎉 Welcome {{name}} to {{service}}!"@),
            (PlatformType::Slack, "*Welcome {{name}}!*"@),
        ],
{
    let t0 = MessageTemplate::new(
        "welcome",
        "Welcome Message",
        "Hello {{name}}! Welcome to {{service}}.",
        ContentType::Text,
    ).with_description("Welcome message for new users").require("name").with_default(
        "service",
        "BeeBotOS",
    );
    let t1 = t0.with_variant(PlatformType::Discord, "🎉 Welcome {{name}} to {{service}}!");
    let ghost d: Seq<char> = "🎉 Welcome {{name}} to {{service}}!"@;
    let ghost s: Seq<char> = "*Welcome {{name}}!*"@;
    assert(pv(t1.platform_variants@) =~= seq![(PlatformType::Discord, d)]);
    let t = t1.with_variant(PlatformType::Slack, "*Welcome {{name}}!*");
    let ghost v1 = pv(t1.platform_variants@);
    assert(v1.subrange(1, 1) =~= Seq::<(PlatformType, Seq<char>)>::empty());
    assert(set_variant(v1.subrange(1, 1), PlatformType::Slack, s) == seq![(PlatformType::Slack, s)]);
    assert(set_variant(v1, PlatformType::Slack, s) == seq![v1[0]] + seq![(PlatformType::Slack, s)]);
    assert(views(t.required_variables@) =~= seq!["name"@]);
    assert(t.default_variables@ =~= seq![("service"@, "BeeBotOS"@)]);
    assert(pv(t.platform_variants@) =~= seq![(PlatformType::Discord, d), (PlatformType::Slack, s)]);
    t
}

/// Help message template.
pub fn help() -> (t: MessageTemplate)
    ensures
        described(
            t,
            "help"@,
            "Help Message"@,
            "*Available Commands*\n\n{{commands}}\n\nFor more info: {{support_url}}"@,
            "Help message listing available commands"@,
        ),
        t.required_variables@.len() == 0,
        t.default_variables@.len() == 0,
        t.platform_variants@.len() == 0,
{
    MessageTemplate::new(
        "help",
        "Help Message",
        "*Available Commands*\n\n{{commands}}\n\nFor more info: {{support_url}}",
        ContentType::Text,
    ).with_description("Help message listing available commands")
}

/// Error message template.
pub fn error() -> (t: MessageTemplate)
    ensures
        described(
            t,
            "error"@,
            "Error Message"@,
            "Error: {{message}}\n\n{{#if show_help}}Type /help for assistance.{{/if}}"@,
            "Error message template"@,
        ),
        views(t.required_variables@) == seq!["message"@],
        t.default_variables@ == seq![("show_help"@, "true"@)],
        t.platform_variants@.len() == 0,
{
    let t = MessageTemplate::new(
        "error",
        "Error Message",
        "Error: {{message}}\n\n{{#if show_help}}Type /help for assistance.{{/if}}",
        ContentType::Text,
    ).with_description("Error message template").require("message").with_default("show_help", "true");
    assert(views(t.required_variables@) =~= seq!["message"@]);
    assert(t.default_variables@ =~= seq![("show_help"@, "true"@)]);
    t
}

/// Status update template.
pub fn status_update() -> (t: MessageTemplate)
    ensures
        described(
            t,
            "status_update"@,
            "Status Update"@,
            "{{title}}\n\n{{items}}\n\nUpdated: {{timestamp}}"@,
            "Status update message"@,
        ),
        views(t.required_variables@) == seq!["title"@],
        t.default_variables@.len() == 0,
        t.platform_variants@.len() == 0,
{
    let t = MessageTemplate::new(
        "status_update",
        "Status Update",
        "{{title}}\n\n{{items}}\n\nUpdated: {{timestamp}}",
        ContentType::Text,
    ).with_description("Status update message").require("title");
    assert(views(t.required_variables@) =~= seq!["title"@]);
    t
}

/// Notification template.
pub fn notification() -> (t: MessageTemplate)
    ensures
        described(
            t,
            "notification"@,
            "Notification"@,
            "{{title}}\n\n{{message}}\n\n{{action_url}}"@,
            "General notification template"@,
        ),
        views(t.required_variables@) == seq!["title"@, "message"@],
        t.default_variables@.len() == 0,
        t.platform_variants@.len() == 0,
{
    let t = MessageTemplate::new(
        "notification",
        "Notification",
        "{{title}}\n\n{{message}}\n\n{{action_url}}",
        ContentType::Text,
    ).with_description("General notification template").require("title").require("message");
    assert(views(t.required_variables@) =~= seq!["title"@, "message"@]);
    t
}

/// All built-in templates: welcome, help, error, status update and
/// notification, in that order.
pub fn all() -> (v: Vec<MessageTemplate>)
    ensures
        v@.len() == 5,
        v@[0].id@ == "welcome"@,
        v@[1].id@ == "help"@,
        v@[2].id@ == "error"@,
        v@[3].id@ == "status_update"@,
        v@[4].id@ == "notification"@,
{
    let mut v: Vec<MessageTemplate> = Vec::new();
    v.push(welcome());
    v.push(help());
    v.push(error());
    v.push(status_update());
    v.push(notification());
    v
}

} // verus!
