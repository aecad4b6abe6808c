use beebotos_agents::channel::bluebubbles::{BlueBubblesConfig, ConnectionState, TapbackType};
use beebotos_agents::channel::dingtalk::{
    DingTalkContent, DingTalkContentParser, DingTalkFileContent, DingTalkImageContent,
    DingTalkTextContent, DingTalkVoiceContent,
};
use beebotos_agents::channel::discord::{
    DiscordContent, DiscordContentParser, DiscordEmbedContent, DiscordFileContent,
    DiscordImageContent, DiscordTextContent, EmbedBuilder,
};
use beebotos_agents::channel::message_pipeline::{PipelineConfig, ResponseType};
use beebotos_agents::channel::signal_cli::{SignalCliConfig, SignalCliState};
use beebotos_agents::channel::teams::TeamsContentParser;
use beebotos_agents::channel::twitter::TwitterContentParser;
use beebotos_agents::collaboration::round_table::RoundTableRole;
use beebotos_agents::content::PlatformType;
use beebotos_agents::strmap::StrMap;
use beebotos_agents::templates::built_in;
use beebotos_agents::templates::TemplateEngine;
use beebotos_agents::voice::VoiceConfig;

#[test]
fn test_round_table_role_description() {
    assert!(!RoundTableRole::Scout.description().is_empty());
    assert!(!RoundTableRole::Quill.description().is_empty());
}

#[test]
fn test_round_table_role_capabilities() {
    let scout_caps = RoundTableRole::Scout.default_capabilities();
    assert!(scout_caps.contains(&"research".to_string()));

    let quill_caps = RoundTableRole::Quill.default_capabilities();
    assert!(quill_caps.contains(&"write".to_string()));
}

#[test]
fn test_bluebubbles_config_default() {
    let config = BlueBubblesConfig::default();
    assert_eq!(config.host, "mac-mini.local");
    assert_eq!(config.port, 12345);
    assert_eq!(config.ws_path, "/ws");
    assert_eq!(config.api_prefix, "/api/v1");
    assert!(!config.use_tls);
    assert_eq!(config.base.max_reconnect_attempts, 10);
}

#[test]
fn test_bluebubbles_config_urls() {
    let config = BlueBubblesConfig::default();
    assert_eq!(config.base_url(), "http://mac-mini.local:12345");
    assert_eq!(config.ws_url(), "ws://mac-mini.local:12345/ws");

    let config_tls = BlueBubblesConfig { use_tls: true, ..Default::default() };
    assert_eq!(config_tls.base_url(), "https://mac-mini.local:12345");
    assert_eq!(config_tls.ws_url(), "wss://mac-mini.local:12345/ws");
}

#[test]
fn test_tapback_type() {
    assert_eq!(TapbackType::Love.to_emoji(), "❤️");
    assert_eq!(TapbackType::Like.to_emoji(), "👍");
    assert_eq!(TapbackType::Dislike.to_emoji(), "👎");
    assert_eq!(TapbackType::Laugh.to_emoji(), "😂");
    assert_eq!(TapbackType::Emphasis.to_emoji(), "‼️");
    assert_eq!(TapbackType::Question.to_emoji(), "❓");

    assert_eq!(TapbackType::from_i32(0), Some(TapbackType::Love));
    assert_eq!(TapbackType::from_i32(1), Some(TapbackType::Like));
    assert_eq!(TapbackType::from_i32(5), Some(TapbackType::Question));
    assert_eq!(TapbackType::from_i32(99), None);
}

#[test]
fn test_connection_state() {
    let state = ConnectionState::Disconnected;
    assert_ne!(state, ConnectionState::Connected);
}

#[test]
fn test_create_content_helpers() {
    let text = DingTalkContentParser::create_text("Test message");
    assert!(
        matches!(text, DingTalkContent::Text(DingTalkTextContent { content }) if content == "Test message")
    );

    let markdown = DingTalkContentParser::create_markdown("Title", "Content");
    assert!(matches!(markdown, DingTalkContent::Markdown(_)));

    let image = DingTalkContentParser::create_image("https://example.com/image.jpg");
    assert!(
        matches!(image, DingTalkContent::Image(DingTalkImageContent { pic_url: Some(url), .. }) if url == "https://example.com/image.jpg")
    );

    let link = DingTalkContentParser::create_link("Title", "Text", "https://example.com");
    assert!(matches!(link, DingTalkContent::Link(_)));
}

#[test]
fn test_get_download_code() {
    let voice = DingTalkContent::Voice(DingTalkVoiceContent {
        download_code: "voice_123".to_string(),
        duration: Some(5000),
        recognition: None,
    });
    assert_eq!(DingTalkContentParser::get_download_code(&voice), Some("voice_123".to_string()));

    let text = DingTalkContent::Text(DingTalkTextContent::default());
    assert_eq!(DingTalkContentParser::get_download_code(&text), None);
}

#[test]
fn dingtalk_content_test_get_msg_type() {
    let text = DingTalkContent::Text(DingTalkTextContent::default());
    assert_eq!(DingTalkContentParser::get_msg_type(&text), "text");

    let image = DingTalkContent::Image(DingTalkImageContent::default());
    assert_eq!(DingTalkContentParser::get_msg_type(&image), "image");

    let file = DingTalkContent::File(DingTalkFileContent::default());
    assert_eq!(DingTalkContentParser::get_msg_type(&file), "file");
}

#[test]
fn test_embed_builder() {
    let embed = EmbedBuilder::new()
        .title("Test Title")
        .description("Test Description")
        .color(0xFF0000)
        .field("Field 1", "Value 1", true)
        .field("Field 2", "Value 2", false)
        .footer("Footer text", None)
        .build();

    assert_eq!(embed.title, Some("Test Title".to_string()));
    assert_eq!(embed.description, Some("Test Description".to_string()));
    assert_eq!(embed.color, Some(0xFF0000));
    assert_eq!(embed.fields.as_ref().map(|f| f.len()), Some(2));
    assert!(embed.footer.is_some());
}

#[test]
fn discord_content_test_get_content_type() {
    let text = DiscordContent::Text(DiscordTextContent::default());
    assert_eq!(DiscordContentParser::get_content_type(&text), "text");

    let embed = DiscordContent::Embed(DiscordEmbedContent::default());
    assert_eq!(DiscordContentParser::get_content_type(&embed), "embed");

    let file = DiscordContent::File(DiscordFileContent::default());
    assert_eq!(DiscordContentParser::get_content_type(&file), "file");
}

#[test]
fn discord_content_test_create_text() {
    let content = DiscordContentParser::create_text("Test message");
    assert!(
        matches!(content, DiscordContent::Text(DiscordTextContent { text, .. }) if text == "Test message")
    );
}

#[test]
fn test_create_image() {
    let content = DiscordContentParser::create_image("https://example.com/image.png");
    assert!(
        matches!(content, DiscordContent::Image(DiscordImageContent { url, .. }) if url == "https://example.com/image.png")
    );
}

#[test]
fn test_pipeline_config_default() {
    let config = PipelineConfig::default();
    assert!(config.enable_image_understanding);
    assert!(config.enable_document_understanding);
    assert!(config.enable_audio_transcription);
    assert_eq!(config.media_llm_provider, "openai");
    assert_eq!(config.media_llm_model, "gpt-4o");
}

#[test]
fn test_response_type() {
    assert_eq!(ResponseType::Text as i32, 0);
    assert_eq!(ResponseType::Image as i32, 1);
}

#[test]
fn test_template_rendering() {
    let mut engine = TemplateEngine::new();
    engine.register_template(built_in::welcome()).unwrap();

    let mut vars = StrMap::new();
    vars.insert("name".to_string(), "Alice".to_string());
    vars.insert("is_new".to_string(), "true".to_string());

    let result = engine.render("welcome", &vars, None).unwrap();
    assert!(result.contains("Hello Alice!"));
    assert!(result.contains("Welcome to BeeBotOS"));
}

#[test]
fn test_platform_variant() {
    let mut engine = TemplateEngine::new();
    engine.register_template(built_in::welcome()).unwrap();

    let mut vars = StrMap::new();
    vars.insert("name".to_string(), "Bob".to_string());

    let discord_result = engine.render("welcome", &vars, Some(PlatformType::Discord)).unwrap();
    assert!(discord_result.contains("🎉"));

    let slack_result = engine.render("welcome", &vars, Some(PlatformType::Slack)).unwrap();
    assert!(slack_result.contains("*Welcome"));
}

#[test]
fn test_variable_substitution() {
    let template = "Hello {{name}}, your code is {{code}}";
    let mut vars = StrMap::new();
    vars.insert("name".to_string(), "Alice".to_string());
    vars.insert("code".to_string(), "12345".to_string());

    let result = TemplateEngine::substitute_variables(template, &vars);
    assert_eq!(result, "Hello Alice, your code is 12345");
}

#[test]
fn test_signal_cli_config_default() {
    let config = SignalCliConfig::default();
    assert_eq!(config.executable_path, "signal-cli");
    assert_eq!(config.http_port, 8080);
    assert!(config.native_mode);
}

#[test]
fn test_signal_cli_state() {
    let state = SignalCliState::Running;
    assert_eq!(state, SignalCliState::Running);
    assert_ne!(state, SignalCliState::Stopped);
}

#[test]
fn test_strip_html() {
    let html = "<p>Hello <strong>World</strong></p>";
    assert_eq!(TeamsContentParser::strip_html(html), "Hello World");

    let html2 = "<div><span>Test</span> content</div>";
    assert_eq!(TeamsContentParser::strip_html(html2), "Test content");
}

#[test]
fn test_escape_html() {
    let text = "<script>alert('xss')</script>";
    let escaped = TeamsContentParser::escape_html(text);
    assert_eq!(escaped, "&lt;script&gt;alert(&#x27;xss&#x27;)&lt;/script&gt;");
}

#[test]
fn test_truncate_to_limit() {
    let long_text = "a".repeat(300);
    let truncated = TwitterContentParser::truncate_to_limit(&long_text, 280);
    assert!(truncated.len() <= 283);

    let short_text = "Short text";
    let not_truncated = TwitterContentParser::truncate_to_limit(short_text, 280);
    assert_eq!(not_truncated, short_text);
}

#[test]
fn test_voice_config_default() {
    let config = VoiceConfig::default();
    assert_eq!(config.sample_rate, 48000);
    assert!(config.enable_transcription);
}
