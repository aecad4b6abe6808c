use beebotos_agents::a2a::capabilities::{
    AgentCapability, CapabilityRegistry, CapabilityReturn, ParameterType,
};
use beebotos_agents::a2a::transport::{endpoint_url, health_url, RetryPolicy, TransportError};
use beebotos_agents::channel::bluebubbles::{BlueBubblesConfig, ReconnectDecision, TapbackType};
use beebotos_agents::channel::channel_manager::{ChannelManagerConfig, ChannelRouter};
use beebotos_agents::channel::signal::{SignalContent, SignalContentParser, SignalVoiceContent};
use beebotos_agents::channel::telegram::{largest_photo, TelegramPhotoContent, TelegramPhotoSize};
use beebotos_agents::channel::twitter::{
    TweetBuilder, TwitterContent, TwitterContentParser, TwitterPollContent, TwitterPollOption,
    TwitterRetweetContent,
};
use beebotos_agents::channel::wechat::{WeChatArticle, WeChatContentParser};
use beebotos_agents::channel::whatsapp::{
    WhatsAppContact, WhatsAppContactsContent, WhatsAppContent, WhatsAppContentParser,
};
use beebotos_agents::collaboration::round_table::{count_votes, record_vote, Vote, VoteRecord};
use beebotos_agents::content::{ContentType, MessageType, PlatformType};
use beebotos_agents::error::AgentError;
use beebotos_agents::events::sequencer::EventSequencer;
use beebotos_agents::strmap::StrMap;
use beebotos_agents::templates::{built_in, Message, MessageTemplate, TemplateEngine};
use beebotos_agents::voice::{VoiceConfig, VoiceHandler};

fn capability(id: &str, name: &str, description: &str) -> AgentCapability {
    AgentCapability {
        id: id.to_string(),
        name: name.to_string(),
        description: description.to_string(),
        parameters: Vec::new(),
        returns: CapabilityReturn { return_type: ParameterType::String, description: String::new() },
        examples: Vec::new(),
    }
}

#[test]
fn strmap_read_after_write() {
    let mut m: StrMap<String> = StrMap::new();
    m.insert("a".to_string(), "1".to_string());
    m.insert("b".to_string(), "2".to_string());
    m.insert("a".to_string(), "3".to_string());
    assert_eq!(m.len(), 2);
    assert_eq!(m.get("a"), Some(&"3".to_string()));
    assert_eq!(m.get("b"), Some(&"2".to_string()));
    assert_eq!(m.get("c"), None);
    assert_eq!(m.key_at(0), "a");
    assert_eq!(m.remove("a"), Some("3".to_string()));
    assert!(!m.contains_key("a"));
}

#[test]
fn capability_registry_register_get_and_find() {
    let mut reg = CapabilityRegistry::new();
    reg.register(capability("search", "Web search", "Finds pages"));
    reg.register(capability("calc", "Calculator", "Does arithmetic"));
    reg.register(capability("search", "Deep search", "Finds pages thoroughly"));
    assert_eq!(reg.list_all().len(), 2);
    assert_eq!(reg.get("search").unwrap().name, "Deep search");
    assert!(reg.get("missing").is_none());
    let found = reg.find_by_tag("arith");
    assert_eq!(found.len(), 1);
    assert_eq!(found[0].id, "calc");
    let found = reg.find_by_tag("search");
    assert_eq!(found.len(), 1);
    assert_eq!(found[0].id, "search");
    assert_eq!(reg.find_by_tag("nothing").len(), 0);
}

#[test]
fn router_prefers_route_over_default() {
    let mut router = ChannelRouter::new();
    router.set_default(PlatformType::Slack, "slack-default");
    assert_eq!(router.get_channel(PlatformType::Slack), Some(&"slack-default".to_string()));
    router.register_route(PlatformType::Slack, "slack-main");
    assert_eq!(router.get_channel(PlatformType::Slack), Some(&"slack-main".to_string()));
    router.register_route(PlatformType::Slack, "slack-new");
    assert_eq!(router.get_channel(PlatformType::Slack), Some(&"slack-new".to_string()));
    assert_eq!(router.get_channel(PlatformType::Discord), None);
    let config = ChannelManagerConfig::default();
    assert_eq!(config.event_buffer_size, 1000);
}

fn vote(id: u128, v: Vote) -> VoteRecord {
    VoteRecord { participant_id: id, vote: v, reason: None, timestamp: 0 }
}

#[test]
fn one_vote_per_participant() {
    let mut votes = Vec::new();
    record_vote(&mut votes, vote(1, Vote::Approve));
    record_vote(&mut votes, vote(2, Vote::Reject));
    record_vote(&mut votes, vote(1, Vote::Reject));
    record_vote(&mut votes, vote(3, Vote::Abstain));
    assert_eq!(votes.len(), 3);
    assert_eq!(votes[0].participant_id, 2);
    assert_eq!(votes[1].participant_id, 1);
    assert_eq!(votes[1].vote, Vote::Reject);
    assert_eq!(count_votes(&votes, Vote::Approve), 0);
    assert_eq!(count_votes(&votes, Vote::Reject), 2);
    assert_eq!(count_votes(&votes, Vote::Abstain), 1);
}

#[test]
fn retry_policy_backoff() {
    let p = RetryPolicy::default();
    assert_eq!(p.delay_for_attempt(0), 100);
    assert_eq!(p.delay_for_attempt(1), 200);
    assert_eq!(p.delay_for_attempt(3), 800);
    assert_eq!(p.delay_for_attempt(6), 5000);
    assert_eq!(p.retry_after(2), Some(400));
    assert_eq!(p.retry_after(3), None);
    let zero = RetryPolicy { max_retries: 1, base_delay_ms: 0, max_delay_ms: 10 };
    assert_eq!(zero.delay_for_attempt(40), 0);
}

#[test]
fn transport_urls_and_errors() {
    assert_eq!(endpoint_url("https://base", "agents/x"), "https://base/agents/x");
    assert_eq!(endpoint_url("https://base", "http://other/y"), "http://other/y");
    assert_eq!(health_url("https://base", "agents"), "https://base/agents/health");
    assert_eq!(health_url("https://base", "https://h"), "https://h/health");
    assert_eq!(TransportError::Timeout.message(), "Timeout");
    assert_eq!(TransportError::SendFailed("boom".to_string()).message(), "Send failed: boom");
}

#[test]
fn sequencer_numbers_in_order() {
    let mut s: EventSequencer<String> = EventSequencer::new();
    assert_eq!(s.current_sequence(), 0);
    let a = s.sequence("a".to_string());
    let b = s.sequence("b".to_string());
    assert_eq!(a.sequence, 1);
    assert_eq!(b.sequence, 2);
    assert_eq!(b.event, "b");
    assert_eq!(s.current_sequence(), 2);
    let first = s.next().unwrap();
    assert_eq!(first.sequence, 1);
    assert_eq!(first.event, "a");
    assert_eq!(s.next().unwrap().sequence, 2);
    assert!(s.next().is_none());
}

#[test]
fn tapback_numbers_round_trip() {
    for t in [
        TapbackType::Love,
        TapbackType::Like,
        TapbackType::Dislike,
        TapbackType::Laugh,
        TapbackType::Emphasis,
        TapbackType::Question,
    ] {
        assert_eq!(TapbackType::from_i32(t.as_i32()), Some(t));
    }
    assert_eq!(TapbackType::from_i32(-1), None);
    assert_eq!(TapbackType::from_i32(6), None);
}

#[test]
fn reconnect_gives_up_at_limit() {
    let config = BlueBubblesConfig::default();
    assert_eq!(config.after_disconnect(0), ReconnectDecision::Retry { attempt: 1, delay_secs: 5 });
    assert_eq!(config.after_disconnect(9), ReconnectDecision::Retry { attempt: 10, delay_secs: 5 });
    assert_eq!(config.after_disconnect(10), ReconnectDecision::GiveUp);
}

#[test]
fn twitter_text_rendering() {
    let poll = TwitterContent::Poll(TwitterPollContent {
        text: "Pick".to_string(),
        options: vec![
            TwitterPollOption { position: 1, label: "Yes".to_string(), votes: None },
            TwitterPollOption { position: 2, label: "No".to_string(), votes: None },
        ],
        duration_minutes: 60,
        end_datetime: None,
        voting_status: None,
    });
    assert_eq!(TwitterContentParser::extract_text(&poll), "Pick\n\nPoll:\n1. Yes\n2. No");
    let rt = TwitterContent::Retweet(TwitterRetweetContent {
        retweeted_tweet_id: "1".to_string(),
        retweeted_text: "orig".to_string(),
        retweeted_author: "alice".to_string(),
        retweeted_author_id: "2".to_string(),
        comment: None,
    });
    assert_eq!(TwitterContentParser::extract_text(&rt), "[RT @alice: orig]");
    let dm = TwitterContentParser::create_dm("hi", "1", "2");
    assert_eq!(dm.extract_text(), "[DM] hi");
    assert_eq!(TwitterContentParser::get_content_type(&dm), "dm");
    assert!(TwitterContentParser::content_kind("bogus").is_err());
    assert_eq!(TwitterContentParser::truncate_to_limit("abcdef", 3), "abc...");
}

#[test]
fn tweet_builder_payload() {
    let p = TweetBuilder::new()
        .text("Hello")
        .poll_option("Yes")
        .poll_option("No")
        .poll_duration(1440)
        .build();
    assert_eq!(p.text, "Hello");
    assert!(p.reply_to_tweet_id.is_none());
    assert!(p.media_keys.is_none());
    let poll = p.poll.unwrap();
    assert_eq!(poll.duration_minutes, 1440);
    assert_eq!(poll.options[0].position, 1);
    assert_eq!(poll.options[1].position, 2);
    assert_eq!(poll.options[1].label, "No");
    let q = TweetBuilder::new().poll_option("Only").media("k").build();
    assert!(q.poll.is_none());
    assert_eq!(q.media_keys, Some(vec!["k".to_string()]));
}

#[test]
fn telegram_largest_photo_last_of_ties() {
    let size = |id: &str, s: Option<i64>| TelegramPhotoSize {
        file_id: id.to_string(),
        file_unique_id: id.to_string(),
        width: 1,
        height: 1,
        file_size: s,
    };
    let photos = vec![size("a", Some(10)), size("b", Some(30)), size("c", Some(30)), size("d", None)];
    assert_eq!(largest_photo(&photos), Some(2));
    let content = TelegramPhotoContent { photos, caption: None, caption_entities: None };
    assert_eq!(content.to_media_content().url, "c");
    assert_eq!(largest_photo(&Vec::new()), None);
}

#[test]
fn signal_rendering_and_kinds() {
    let voice = SignalContent::Voice(SignalVoiceContent {
        attachment_id: "v".to_string(),
        file_path: None,
        mime_type: None,
        duration: Some(5),
        file_size: None,
    });
    assert_eq!(SignalContentParser::extract_text(&voice), "[Voice message, 5s]");
    assert_eq!(SignalContentParser::get_attachment_id(&voice), Some("v"));
    let image = SignalContentParser::create_image("img", None);
    assert_eq!(image.extract_text(), "[Image] ");
    assert!(SignalContentParser::has_media(&image));
    assert!(SignalContentParser::content_kind("document").is_ok());
    match SignalContentParser::content_kind("nope") {
        Err(AgentError::Platform(m)) => assert_eq!(m, "Unknown content type: nope"),
        _ => panic!("expected an error"),
    }
}

#[test]
fn wechat_news_rendering() {
    let article = |t: &str| WeChatArticle {
        title: t.to_string(),
        description: String::new(),
        url: String::new(),
        pic_url: String::new(),
    };
    let news = WeChatContentParser::create_news(vec![article("A"), article("B")]);
    assert_eq!(news.extract_text(), "[News: A, B]");
    assert_eq!(WeChatContentParser::get_msg_type(&news), "news");
    assert!(WeChatContentParser::msg_kind("miniprogrampage").is_ok());
    assert!(WeChatContentParser::msg_kind("x").is_err());
}

#[test]
fn whatsapp_contacts_rendering() {
    let contact = |n: &str| WhatsAppContact {
        display_name: n.to_string(),
        vcard: String::new(),
        phone_number: None,
        organization: None,
    };
    let c = WhatsAppContent::Contacts(WhatsAppContactsContent { contacts: vec![contact("Ann"), contact("Bo")] });
    assert_eq!(WhatsAppContentParser::extract_text(&c), "[Contacts: Ann, Bo]");
    let d = WhatsAppContentParser::create_document("/tmp/x.pdf", None, None);
    assert_eq!(d.extract_text(), "[Document: unnamed] ");
    assert_eq!(WhatsAppContentParser::get_media_path(&d), Some("/tmp/x.pdf"));
}

#[test]
fn voice_calls_join_and_leave() {
    let mut h = VoiceHandler::new(VoiceConfig::default());
    let a = h.join_channel("room");
    let b = h.join_channel("room");
    assert_ne!(a, b);
    assert_eq!(h.active_calls().len(), 2);
    assert!(h.stream_audio(a, &[1, 2]).is_ok());
    assert!(h.leave_channel(a).is_ok());
    assert_eq!(h.active_calls().len(), 1);
    match h.leave_channel(5) {
        Err(AgentError::NotFound(m)) => assert_eq!(m, "Call 00000000-0000-0000-0000-000000000005"),
        _ => panic!("expected not found"),
    }
    assert_eq!(h.transcribe(&[]).unwrap(), "");
}

#[test]
fn create_message_from_template() {
    let mut engine = TemplateEngine::new();
    engine.register_template(built_in::welcome()).unwrap();
    let mut vars = StrMap::new();
    vars.insert("name".to_string(), "Eve".to_string());
    let m: Message = engine.create_message("welcome", &vars, PlatformType::Slack).unwrap();
    assert_eq!(m.content, "*Welcome Eve!*");
    assert_eq!(m.message_type, MessageType::Text);
    assert!(m.timestamp > 0);
    let missing = StrMap::new();
    match engine.render("welcome", &missing, None) {
        Err(AgentError::Configuration(msg)) => assert_eq!(msg, "Missing required variable: name"),
        _ => panic!("expected a configuration error"),
    }
    match engine.render("nope", &vars, None) {
        Err(AgentError::Configuration(msg)) => assert_eq!(msg, "Template not found: nope"),
        _ => panic!("expected a configuration error"),
    }
}

#[test]
fn test_tweet_builder() {
    let tweet = TweetBuilder::new()
        .text("Hello World")
        .reply_to("123456")
        .media("media_key_1")
        .poll_option("Yes")
        .poll_option("No")
        .poll_duration(1440)
        .build();

    assert_eq!(tweet.text, "Hello World");
    assert_eq!(tweet.reply_to_tweet_id, Some("123456".to_string()));
    assert!(tweet.media_keys.unwrap().contains(&"media_key_1".to_string()));
    assert!(tweet.poll.is_some());
}

#[test]
fn given_variables_win_over_defaults() {
    let template = MessageTemplate::new("greet", "Greeting", "Hi {{name}} from {{team}}", ContentType::Text)
        .with_default("name", "friend")
        .with_default("team", "ops");
    let mut engine = TemplateEngine::new();
    engine.register_template(template).unwrap();
    let mut vars = StrMap::new();
    vars.insert("name".to_string(), "Ann".to_string());
    assert_eq!(engine.render("greet", &vars, None).unwrap(), "Hi Ann from ops");
    assert_eq!(engine.render("greet", &StrMap::new(), None).unwrap(), "Hi friend from ops");
}

#[test]
fn plain_text_passes_through_substitution() {
    let mut vars = StrMap::new();
    vars.insert("name".to_string(), "Ann".to_string());
    assert_eq!(TemplateEngine::substitute_variables("no placeholders here", &vars), "no placeholders here");
    assert_eq!(TemplateEngine::substitute_variables("left {{name}} and {{other}}", &vars), "left Ann and other");
}

#[test]
fn truncated_tweets_stay_within_limit() {
    let text = "é".repeat(200);
    let t = TwitterContentParser::truncate_to_limit(&text, 280);
    assert!(t.len() <= 283);
    assert!(t.ends_with("..."));
    assert_eq!(TwitterContentParser::truncate_to_limit("short", 280), "short");
}
