use beebotos_agents::error::AgentError;
use beebotos_agents::channel::bluebubbles::{api_result, send_message_request, tapback_request, ApiResponse, BlueBubblesConfig, TapbackType};
use beebotos_agents::channel::signal::{convert_envelope, convert_envelope_with_ids, SignalDataMessage, SignalEnvelope, SignalGroupInfo};
use beebotos_agents::channel::channel_manager::{ChannelHealthMonitor, ChannelStatus, HealthChange};
use beebotos_agents::channel::message_pipeline::{media_context_text, MediaUnderstandingResult};
use beebotos_agents::channel::signal::{
    SignalContent, SignalContentParser, SignalImageContent, SignalTextContent, SignalVoiceContent,
};
use beebotos_agents::channel::teams::{
    AdaptiveCardBuilder, AdaptiveCardElement, TeamsContent, TeamsContentParser, TeamsHtmlContent,
    TeamsTextContent,
};
use beebotos_agents::channel::telegram::{
    TelegramContent, TelegramContentParser, TelegramPhotoContent, TelegramPhotoSize,
    TelegramTextContent, TelegramVideoContent,
};
use beebotos_agents::channel::twitter::{
    TwitterContent, TwitterContentParser, TwitterMediaContent, TwitterReplyContent,
    TwitterTextContent,
};
use beebotos_agents::channel::wechat::{
    WeChatContent, WeChatContentParser, WeChatImageContent, WeChatMarkdownContent,
    WeChatTextContent,
};
use beebotos_agents::channel::wechat_xml::{extract_xml_value, WeChatXmlParser};
use beebotos_agents::channel::whatsapp::{
    WhatsAppContent, WhatsAppContentParser, WhatsAppImageContent, WhatsAppTextContent,
    WhatsAppVoiceContent,
};
use beebotos_agents::content::{MessageType, PlatformType};
use beebotos_agents::router::{CommunicationRouter, RouteConfig};
use beebotos_agents::strmap::StrMap;
use beebotos_agents::templates::Message;
use beebotos_agents::thread::ThreadManager;

fn empty_whatsapp_text() -> WhatsAppTextContent {
    WhatsAppTextContent {
        body: String::new(),
        preview_url: None,
        quoted_message: None,
    }
}

#[test]
fn signal_content_test_create_text() {
    let content = SignalContentParser::create_text("Test message");
    assert!(
        matches!(content, SignalContent::Text(SignalTextContent { body, .. }) if body == "Test message")
    );
}

#[test]
fn signal_content_test_create_location() {
    let latitude: f64 = 37.7749;
    let longitude: f64 = -122.4194;
    let content = SignalContentParser::create_location(
        latitude.to_string(),
        longitude.to_string(),
        Some("SF".to_string()),
    );
    assert!(matches!(content, SignalContent::Location(_)));
    if let SignalContent::Location(loc) = content {
        assert_eq!(loc.latitude.parse::<f64>().unwrap(), 37.7749);
        assert_eq!(loc.longitude.parse::<f64>().unwrap(), -122.4194);
        assert_eq!(loc.name, Some("SF".to_string()));
    }
}

#[test]
fn test_create_reaction() {
    let content = SignalContentParser::create_reaction("❤️", "+1234567890", 1234567890);
    assert!(matches!(content, SignalContent::Reaction(_)));
    if let SignalContent::Reaction(reaction) = content {
        assert_eq!(reaction.emoji, "❤️");
        assert_eq!(reaction.target_author, "+1234567890");
        assert_eq!(reaction.target_timestamp, 1234567890);
    }
}

#[test]
fn signal_content_test_get_content_type() {
    let text = SignalContent::Text(SignalTextContent::default());
    assert_eq!(SignalContentParser::get_content_type(&text), "text");

    let image = SignalContent::Image(SignalImageContent::default());
    assert_eq!(SignalContentParser::get_content_type(&image), "image");

    let voice = SignalContent::Voice(SignalVoiceContent::default());
    assert_eq!(SignalContentParser::get_content_type(&voice), "voice");

    let reaction = SignalContentParser::create_reaction("👍", "+123", 123);
    assert_eq!(SignalContentParser::get_content_type(&reaction), "reaction");
}

#[test]
fn signal_content_test_has_media() {
    let text = SignalContent::Text(SignalTextContent::default());
    assert!(!SignalContentParser::has_media(&text));

    let image = SignalContent::Image(SignalImageContent::default());
    assert!(SignalContentParser::has_media(&image));

    let voice = SignalContent::Voice(SignalVoiceContent::default());
    assert!(SignalContentParser::has_media(&voice));

    let reaction = SignalContentParser::create_reaction("👍", "+123", 123);
    assert!(!SignalContentParser::has_media(&reaction));
}

#[test]
fn test_get_attachment_id() {
    let image = SignalContent::Image(SignalImageContent {
        attachment_id: "abc123".to_string(),
        ..Default::default()
    });
    assert_eq!(SignalContentParser::get_attachment_id(&image), Some("abc123"));

    let text = SignalContent::Text(SignalTextContent::default());
    assert_eq!(SignalContentParser::get_attachment_id(&text), None);
}

#[test]
fn test_get_file_id() {
    let photo = TelegramContent::Photo(TelegramPhotoContent {
        photos: vec![TelegramPhotoSize {
            file_id: "photo123".to_string(),
            file_unique_id: "unique123".to_string(),
            width: 100,
            height: 100,
            file_size: Some(1024),
        }],
        caption: None,
        caption_entities: None,
    });
    assert_eq!(TelegramContentParser::get_file_id(&photo), Some("photo123"));

    let text = TelegramContent::Text(TelegramTextContent::default());
    assert_eq!(TelegramContentParser::get_file_id(&text), None);
}

#[test]
fn telegram_content_test_get_content_type() {
    let text = TelegramContent::Text(TelegramTextContent::default());
    assert_eq!(TelegramContentParser::get_content_type(&text), "text");

    let photo = TelegramContent::Photo(TelegramPhotoContent::default());
    assert_eq!(TelegramContentParser::get_content_type(&photo), "photo");

    let video = TelegramContent::Video(TelegramVideoContent::default());
    assert_eq!(TelegramContentParser::get_content_type(&video), "video");
}

#[test]
fn telegram_content_test_create_text() {
    let content = TelegramContentParser::create_text("Test message");
    assert!(
        matches!(content, TelegramContent::Text(TelegramTextContent { text, .. }) if text == "Test message")
    );
}

#[test]
fn telegram_content_test_create_location() {
    let latitude: f64 = 37.7749;
    let longitude: f64 = -122.4194;
    let content = TelegramContentParser::create_location(latitude.to_string(), longitude.to_string());
    assert!(matches!(content, TelegramContent::Location(_)));
    if let TelegramContent::Location(loc) = content {
        assert_eq!(loc.latitude.parse::<f64>().unwrap(), 37.7749);
        assert_eq!(loc.longitude.parse::<f64>().unwrap(), -122.4194);
    }
}

#[test]
fn twitter_content_test_create_text() {
    let content = TwitterContentParser::create_text("Test tweet");
    assert!(
        matches!(content, TwitterContent::Text(TwitterTextContent { text, .. }) if text == "Test tweet")
    );
}

#[test]
fn test_create_reply() {
    let content = TwitterContentParser::create_reply("Reply text", "123456", "user");
    assert!(matches!(content, TwitterContent::Reply(TwitterReplyContent {
        text,
        in_reply_to_tweet_id,
        in_reply_to_username,
        ..
    }) if text == "Reply text" && in_reply_to_tweet_id == "123456" && in_reply_to_username == "user"));
}

#[test]
fn twitter_content_test_get_content_type() {
    let text = TwitterContent::Text(TwitterTextContent::default());
    assert_eq!(TwitterContentParser::get_content_type(&text), "text");

    let media = TwitterContent::Media(TwitterMediaContent::default());
    assert_eq!(TwitterContentParser::get_content_type(&media), "media");
}

#[test]
fn wechat_content_test_create_text() {
    let content = WeChatContentParser::create_text("Test message");
    assert!(
        matches!(content, WeChatContent::Text(WeChatTextContent { content: c }) if c == "Test message")
    );
}

#[test]
fn wechat_content_test_get_msg_type() {
    let text = WeChatContent::Text(WeChatTextContent::default());
    assert_eq!(WeChatContentParser::get_msg_type(&text), "text");

    let image = WeChatContent::Image(WeChatImageContent::default());
    assert_eq!(WeChatContentParser::get_msg_type(&image), "image");

    let markdown = WeChatContent::Markdown(WeChatMarkdownContent::default());
    assert_eq!(WeChatContentParser::get_msg_type(&markdown), "markdown");
}

#[test]
fn test_get_media_id() {
    let image = WeChatContent::Image(WeChatImageContent {
        media_id: "media_123".to_string(),
        pic_url: None,
        format: None,
    });
    assert_eq!(WeChatContentParser::get_media_id(&image), Some("media_123".to_string()));

    let text = WeChatContent::Text(WeChatTextContent::default());
    assert_eq!(WeChatContentParser::get_media_id(&text), None);
}

#[test]
fn whatsapp_content_test_create_text() {
    let content = WhatsAppContentParser::create_text("Test message");
    assert!(
        matches!(content, WhatsAppContent::Text(WhatsAppTextContent { body, .. }) if body == "Test message")
    );
}

#[test]
fn whatsapp_content_test_create_location() {
    let latitude: f64 = 37.7749;
    let longitude: f64 = -122.4194;
    let content = WhatsAppContentParser::create_location(
        latitude.to_string(),
        longitude.to_string(),
        Some("SF".to_string()),
        None,
    );
    assert!(matches!(content, WhatsAppContent::Location(_)));
    if let WhatsAppContent::Location(loc) = content {
        assert_eq!(loc.latitude.parse::<f64>().unwrap(), 37.7749);
        assert_eq!(loc.longitude.parse::<f64>().unwrap(), -122.4194);
        assert_eq!(loc.name, Some("SF".to_string()));
    }
}

#[test]
fn whatsapp_content_test_get_content_type() {
    let text = WhatsAppContent::Text(empty_whatsapp_text());
    assert_eq!(WhatsAppContentParser::get_content_type(&text), "text");

    let image = WhatsAppContent::Image(WhatsAppImageContent::default());
    assert_eq!(WhatsAppContentParser::get_content_type(&image), "image");

    let voice = WhatsAppContent::Voice(WhatsAppVoiceContent::default());
    assert_eq!(WhatsAppContentParser::get_content_type(&voice), "voice");
}

#[test]
fn whatsapp_content_test_has_media() {
    let text = WhatsAppContent::Text(empty_whatsapp_text());
    assert!(!WhatsAppContentParser::has_media(&text));

    let image = WhatsAppContent::Image(WhatsAppImageContent::default());
    assert!(WhatsAppContentParser::has_media(&image));

    let voice = WhatsAppContent::Voice(WhatsAppVoiceContent::default());
    assert!(WhatsAppContentParser::has_media(&voice));
}

#[test]
fn test_teams_content_parser() {
    let content = TeamsContentParser::create_text("Hello World");
    match content {
        TeamsContent::Text(text) => {
            assert_eq!(text.text, "Hello World");
        }
        _ => panic!("Expected Text content"),
    }
}

#[test]
fn test_extract_text() {
    let text_content = TeamsContent::Text(TeamsTextContent {
        text: "Hello".to_string(),
        text_format: None,
    });
    assert_eq!(TeamsContentParser::extract_text(&text_content), "Hello");

    let html_content = TeamsContent::Html(TeamsHtmlContent {
        html: "<p>Hello <strong>World</strong></p>".to_string(),
        text: None,
    });
    assert_eq!(TeamsContentParser::extract_text(&html_content), "Hello World");
}

#[test]
fn test_create_hero_card() {
    let content = TeamsContentParser::create_hero_card("Title", "Body text");
    match content {
        TeamsContent::HeroCard(hero) => {
            assert_eq!(hero.title, "Title");
            assert_eq!(hero.text, "Body text");
        }
        _ => panic!("Expected HeroCard content"),
    }
}

fn test_message(platform: PlatformType, content: &str) -> Message {
    Message {
        id: 1,
        thread_id: 2,
        platform,
        message_type: MessageType::Text,
        content: content.to_string(),
        metadata: StrMap::new(),
        timestamp: 0,
    }
}

#[test]
fn test_route_matching() {
    let mut router = CommunicationRouter::new();
    router.add_route(RouteConfig {
        from_platform: PlatformType::Slack,
        to_platform: PlatformType::Discord,
        filter: None,
        transform: None,
    });

    let msg = test_message(PlatformType::Slack, "Hello");
    let targets = router.route(&msg);
    assert_eq!(targets, vec![PlatformType::Discord]);
}

#[test]
fn test_thread_creation() {
    let mut manager = ThreadManager::new();
    let thread = manager.create_thread(PlatformType::Slack, "C12345");
    assert_eq!(thread.platform, PlatformType::Slack);
    assert_eq!(thread.external_id, "C12345");
}

#[test]
fn test_get_by_external() {
    let mut manager = ThreadManager::new();
    manager.create_thread(PlatformType::Slack, "C12345");

    let found = manager.get_by_external(PlatformType::Slack, "C12345");
    assert!(found.is_some());
}

#[test]
fn test_adaptive_card_builder() {
    let mut card = AdaptiveCardBuilder::new();
    AdaptiveCardBuilder::add_text_block(&mut card, "Title", "large", "bolder");
    AdaptiveCardBuilder::add_text_block(&mut card, "Body text", "medium", "default");

    assert_eq!(card.card_type, "AdaptiveCard");
    assert_eq!(card.body.len(), 2);
}

#[test]
fn adaptive_card_elements_in_order() {
    let mut card = AdaptiveCardBuilder::new();
    assert_eq!(card.version, "1.4");
    AdaptiveCardBuilder::add_image(&mut card, "https://example.com/a.png", "a");
    AdaptiveCardBuilder::add_input_text(&mut card, "name", "Your name", false);
    AdaptiveCardBuilder::add_fact_set(&mut card, vec![("k".to_string(), "v".to_string())]);
    AdaptiveCardBuilder::add_action(&mut card, "Submit", "Action.Submit", "{}".to_string());
    assert_eq!(card.body.len(), 3);
    assert_eq!(
        card.body[0],
        AdaptiveCardElement::Image {
            url: "https://example.com/a.png".to_string(),
            alt_text: "a".to_string()
        }
    );
    assert!(matches!(card.body[1], AdaptiveCardElement::InputText { is_multiline: false, .. }));
    assert_eq!(card.actions[0].title, "Submit");
    assert_eq!(card.actions[0].action_type, "Action.Submit");
}

#[test]
fn test_xml_parser() {
    let xml = r#"<xml>
            <ToUserName><![CDATA[corp_id]]></ToUserName>
            <FromUserName><![CDATA[user123]]></FromUserName>
            <MsgType><![CDATA[text]]></MsgType>
            <Content><![CDATA[Hello World]]></Content>
        </xml>"#;

    let (msg_type, content) = WeChatXmlParser::parse(xml).unwrap();
    assert_eq!(msg_type, "text");
    assert!(matches!(content, WeChatContent::Text(text) if text.content == "Hello World"));
}

#[test]
fn xml_values_bare_and_wrapped() {
    let xml = "<xml><MsgType>location</MsgType><Location_X>23.134521</Location_X><Scale>20</Scale><Label><![CDATA[Office]]></Label></xml>";
    assert_eq!(extract_xml_value(xml, "Scale"), Some("20".to_string()));
    assert_eq!(extract_xml_value(xml, "Label"), Some("Office".to_string()));
    assert_eq!(extract_xml_value(xml, "Missing"), None);
    let (msg_type, content) = WeChatXmlParser::parse(xml).unwrap();
    assert_eq!(msg_type, "location");
    match content {
        WeChatContent::Location(loc) => {
            assert_eq!(loc.location_x, "23.134521");
            assert_eq!(loc.location_y, "0");
            assert_eq!(loc.scale, 20);
            assert_eq!(loc.label, "Office");
        }
        _ => panic!("Expected location content"),
    }
}

#[test]
fn xml_unknown_and_file_messages() {
    let (t, c) = WeChatXmlParser::parse("<xml><MsgType>poll</MsgType></xml>").unwrap();
    assert_eq!(t, "poll");
    assert!(matches!(c, WeChatContent::Text(x) if x.content == "Unknown message type"));
    let (t, c) = WeChatXmlParser::parse(
        "<xml><MsgType>file</MsgType><FileName>a.txt</FileName><FileTotalLen>x12</FileTotalLen></xml>",
    )
    .unwrap();
    assert_eq!(t, "file");
    match c {
        WeChatContent::File(f) => {
            assert_eq!(f.file_name, "a.txt");
            assert_eq!(f.file_total_len, 0);
        }
        _ => panic!("Expected file content"),
    }
    let (t, _) = WeChatXmlParser::parse("<xml><Content>hi</Content></xml>").unwrap();
    assert_eq!(t, "text");
}

#[test]
fn media_notes_follow_the_message_text() {
    let results = vec![
        MediaUnderstandingResult::Image { description: "a cat".to_string() },
        MediaUnderstandingResult::Document { title: None, summary: "notes".to_string() },
        MediaUnderstandingResult::Audio { text: "hello".to_string() },
    ];
    assert_eq!(
        media_context_text("Look", &results),
        "Look\n\n[Image: a cat]\n\n[Document: Unknown - notes]\n\n[Audio Transcription: hello]"
    );
    assert_eq!(media_context_text("plain", &Vec::new()), "plain");
}

fn status(id: &str, connected: bool, errors: u64) -> ChannelStatus {
    ChannelStatus {
        id: id.to_string(),
        platform: PlatformType::Slack,
        connected,
        listening: true,
        messages_received: 0,
        messages_sent: 0,
        error_count: errors,
        last_error: None,
        last_activity: None,
    }
}

#[test]
fn health_monitor_tracks_changes() {
    let mut monitor = ChannelHealthMonitor::new(30_000, 3);
    assert!(monitor.is_healthy("a"));
    assert_eq!(monitor.observe(&status("a", true, 0)), HealthChange::Unchanged);
    assert_eq!(monitor.observe(&status("b", true, 3)), HealthChange::BecameUnhealthy);
    assert_eq!(monitor.observe(&status("c", false, 0)), HealthChange::BecameUnhealthy);
    assert_eq!(monitor.get_unhealthy_channels(), vec!["b".to_string(), "c".to_string()]);
    assert_eq!(monitor.observe(&status("b", true, 2)), HealthChange::BecameHealthy);
    assert!(monitor.is_healthy("b"));
    assert_eq!(monitor.get_unhealthy_channels(), vec!["c".to_string()]);
    assert_eq!(monitor.check_interval_ms(), 30_000);
}

#[test]
fn signal_envelopes_become_messages() {
    let envelope = SignalEnvelope {
        source: "+1234567890".to_string(),
        source_number: None,
        source_name: Some("Ann".to_string()),
        source_uuid: None,
        timestamp: 1_700_000_000_000,
        data_message: Some(SignalDataMessage {
            timestamp: 1_700_000_000_000,
            message: Some("hi".to_string()),
            group_info: Some(SignalGroupInfo {
                group_id: "g1".to_string(),
                group_type: "DELIVER".to_string(),
            }),
            attachments: None,
        }),
    };
    let m = convert_envelope_with_ids(&envelope, 5, 6).unwrap();
    assert_eq!((m.id, m.thread_id), (5, 6));
    assert_eq!(m.platform, PlatformType::Signal);
    assert_eq!(m.content, "hi");
    assert_eq!(m.metadata.get("timestamp").unwrap(), "1700000000000");
    assert_eq!(m.metadata.get("source_name").unwrap(), "Ann");
    assert_eq!(m.metadata.get("group_id").unwrap(), "g1");
    assert_eq!(m.metadata.len(), 4);

    let receipt = SignalEnvelope { data_message: None, ..envelope.clone() };
    assert!(convert_envelope(&receipt).is_none());
    let far = SignalEnvelope { timestamp: i64::MAX, ..envelope };
    assert!(convert_envelope(&far).is_none());
}

#[test]
fn bluebubbles_request_urls() {
    let config = BlueBubblesConfig::default();
    let base = config.base_url();
    assert_eq!(config.message_url(), format!("{}/message", base));
    assert_eq!(config.attachment_message_url(), format!("{}/message/attachment", base));
    assert_eq!(config.tapback_url("m1"), format!("{}/message/m1/tapback", base));
    assert_eq!(config.typing_url("c1"), format!("{}/chat/c1/typing", base));
    assert_eq!(config.chats_url(None, None), format!("{}/chat", base));
    assert_eq!(config.chats_url(Some(10), Some(-2)), format!("{}/chat?limit=10&offset=-2", base));
    assert_eq!(
        config.messages_url("c1", None, Some(5), None, Some(99)),
        format!("{}/chat/c1/message?offset=5&before=99", base)
    );
}

#[test]
fn bluebubbles_requests_and_responses() {
    let request = send_message_request("c1", "hello", "tmp".to_string());
    assert_eq!(request.method, Some("apple-script".to_string()));
    assert_eq!(request.temp_guid, Some("tmp".to_string()));
    let tapback = tapback_request("c1", "m1", TapbackType::Love);
    assert_eq!(tapback.tapback, TapbackType::Love.as_i32());
    let ok: ApiResponse<i32> = ApiResponse { status: "200".to_string(), message: None, data: Some(3) };
    assert_eq!(api_result(ok), Ok(3));
    let failed: ApiResponse<i32> = ApiResponse { status: "500".to_string(), message: None, data: None };
    assert_eq!(api_result(failed), Err(AgentError::Platform("Unknown error".to_string())));
    let told: ApiResponse<i32> =
        ApiResponse { status: "400".to_string(), message: Some("bad chat".to_string()), data: None };
    assert_eq!(api_result(told), Err(AgentError::Platform("bad chat".to_string())));
}
