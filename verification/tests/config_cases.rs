use beebotos_agents::numtext::{parse_u16, parse_u64};
use beebotos_agents::channel::signal_cli::{DaemonReport, SignalCliConfig, SignalCliState};
use beebotos_agents::channel::bluebubbles::BlueBubblesConfig;
use beebotos_agents::channel::matrix::{MatrixChannelConfig, MatrixCredential};
use beebotos_agents::content::{BaseChannelConfig, ConnectionMode, ContentType};
use beebotos_agents::channel::signal::SignalChannelConfig;
use beebotos_agents::channel::{matrix, signal, teams, whatsapp};
use beebotos_agents::numtext::{parse_i32, parse_i64};
use beebotos_agents::config::{
    validate_sections, Environment, FeatureFlags, MemoryConfig, QueueConfig, SecurityConfig,
    ServerConfig,
};
use beebotos_agents::error::AgentError;

#[test]
fn environment_names_and_aliases() {
    assert_eq!(Environment::Production.as_str(), "production");
    assert_eq!(Environment::from_name("PROD"), Environment::Production);
    assert_eq!(Environment::from_name("Test"), Environment::Testing);
    assert_eq!(Environment::from_name("stage"), Environment::Staging);
    assert_eq!(Environment::from_name("dev"), Environment::Development);
    assert_eq!(Environment::from_name("qa"), Environment::Development);
}

#[test]
fn section_defaults() {
    let server = ServerConfig::default();
    assert_eq!(server.port, 8080);
    assert_eq!(server.host, "0.0.0.0");
    assert!(SecurityConfig::default().enable_auth);
    assert!(FeatureFlags::default().enable_a2a_protocol);
    assert!(!FeatureFlags::default().enable_video_processing);
    assert_eq!(QueueConfig::default().max_workers, 10);
    assert_eq!(MemoryConfig::default().max_working_memory_mb, 512);
}

#[test]
fn feature_switches() {
    let mut flags = FeatureFlags::default();
    flags.set_feature("video", true);
    assert!(flags.enable_video_processing);
    flags.set_feature("a2a", false);
    assert!(!flags.enable_a2a_protocol);
    flags.set_feature("streaming", true);
    flags.set_feature("tracing", false);
    assert_eq!(flags.experimental_features, vec!["streaming".to_string()]);
}

#[test]
fn section_rules() {
    let mut server = ServerConfig::default();
    let memory = MemoryConfig::default();
    let mut queue = QueueConfig::default();
    assert!(validate_sections(&server, &memory, &queue).is_ok());
    queue.max_workers = 0;
    assert_eq!(
        validate_sections(&server, &memory, &queue),
        Err(AgentError::Configuration("Max workers cannot be 0".to_string()))
    );
    server.port = 0;
    assert_eq!(
        validate_sections(&server, &memory, &queue),
        Err(AgentError::Configuration("Server port cannot be 0".to_string()))
    );
}

#[test]
fn integer_text_like_std_parse() {
    assert_eq!(parse_i64("-9223372036854775808"), Some(i64::MIN));
    assert_eq!(parse_i64("9223372036854775808"), None);
    assert_eq!(parse_i64("+42"), Some(42));
    assert_eq!(parse_i64("-"), None);
    assert_eq!(parse_i64(""), None);
    assert_eq!(parse_i64("1 2"), None);
    assert_eq!(parse_i32("2147483648"), None);
    assert_eq!(parse_i32("-2147483648"), Some(i32::MIN));
    assert_eq!(parse_i32("007"), Some(7));
}

#[test]
fn unsigned_text_like_std_parse() {
    assert_eq!(parse_u16("+80"), Some(80));
    assert_eq!(parse_u16("65536"), None);
    assert_eq!(parse_u16("-1"), None);
    assert_eq!(parse_u64("18446744073709551615"), Some(u64::MAX));
    assert_eq!(parse_u64("18446744073709551616"), None);
}

#[test]
fn settings_from_environment_values() {
    let cli = SignalCliConfig::from_values(None, None, Some("0.0.0.0".to_string()), Some("abc".to_string()), None, Some("no".to_string()));
    assert_eq!(cli.executable_path, "signal-cli");
    assert_eq!(cli.http_host, "0.0.0.0");
    assert_eq!(cli.http_port, 8080);
    assert!(cli.native_mode);
    let cli = SignalCliConfig::from_values(None, None, None, Some("9090".to_string()), None, Some("false".to_string()));
    assert_eq!(cli.http_port, 9090);
    assert!(!cli.native_mode);

    let bb = BlueBubblesConfig::from_values(
        None,
        Some("70000".to_string()),
        Some("key".to_string()),
        None,
        None,
        None,
        Some("true".to_string()),
        Some("7".to_string()),
        None,
        BaseChannelConfig::new(),
    );
    assert_eq!(bb.host, "mac-mini.local");
    assert_eq!(bb.port, 12345);
    assert_eq!(bb.api_key, Some("key".to_string()));
    assert!(bb.use_tls);
    assert_eq!(bb.reconnect_interval_secs, 7);
    assert_eq!(bb.request_timeout_secs, 30);
    assert_eq!(bb.ws_path, "/ws");
    assert_eq!(bb.api_prefix, "/api/v1");

    assert!(MatrixChannelConfig::from_values(None, None, Some("t".to_string()), None, None, BaseChannelConfig::new()).is_none());
    assert!(MatrixChannelConfig::from_values(None, Some("bot".to_string()), None, None, None, BaseChannelConfig::new()).is_none());
    let m = MatrixChannelConfig::from_values(
        None,
        Some("bot".to_string()),
        Some("tok".to_string()),
        Some("pw".to_string()),
        None,
        BaseChannelConfig::new(),
    )
    .unwrap();
    assert_eq!(m.homeserver, "https://matrix.org");
    assert!(matches!(m.credential, MatrixCredential::Token { ref access_token } if access_token == "tok"));
    assert!(m.is_valid());
    let empty = MatrixChannelConfig::from_values(None, Some("".to_string()), None, Some("pw".to_string()), None, BaseChannelConfig::new()).unwrap();
    assert!(!empty.is_valid());
}

#[test]
fn signal_cli_urls() {
    let config = SignalCliConfig::from_values(None, None, None, None, None, None);
    assert_eq!(config.accounts_url(), "http://127.0.0.1:8080/v1/accounts");
    assert_eq!(config.register_url("+1555"), "http://127.0.0.1:8080/v1/register/+1555");
    assert_eq!(config.verify_url("+1555"), "http://127.0.0.1:8080/v1/register/+1555/verify");
    assert_eq!(config.devices_url("laptop"), "http://127.0.0.1:8080/v1/devices/laptop");
    assert_eq!(config.device_url("+1555", 3), "http://127.0.0.1:8080/v1/devices/+1555/3");
}

#[test]
fn signal_cli_daemon_lifecycle() {
    let config = SignalCliConfig::from_values(None, Some("/tmp/s".to_string()), None, Some("9000".to_string()), None, None);
    assert_eq!(
        config.daemon_args(),
        vec!["--config", "/tmp/s", "daemon", "--http", "--http-host", "127.0.0.1", "--http-port", "9000"]
            .into_iter()
            .map(String::from)
            .collect::<Vec<String>>()
    );
    assert!(SignalCliState::Stopped.should_start());
    assert!(!SignalCliState::Starting.should_start());
    assert!(SignalCliState::Error("x".to_string()).should_start());
    let state = SignalCliState::Starting.after_report(DaemonReport::Status { connected: true });
    assert_eq!(state, SignalCliState::Running);
    let state = state.after_report(DaemonReport::Other);
    assert_eq!(state, SignalCliState::Running);
    let state = state.after_report(DaemonReport::Error { message: "boom".to_string() });
    assert_eq!(state, SignalCliState::Error("boom".to_string()));
    assert_eq!(state.after_report(DaemonReport::Status { connected: false }), SignalCliState::Stopped);
}

#[test]
fn test_default_config() {
    assert_eq!(ServerConfig::default().port, 8080);
    assert!(SecurityConfig::default().enable_auth);
    assert!(FeatureFlags::default().enable_a2a_protocol);
}

#[test]
fn test_config_validation() {
    let server = ServerConfig::default();
    let memory = MemoryConfig::default();
    let queue = QueueConfig::default();
    assert!(validate_sections(&server, &memory, &queue).is_ok());

    let mut invalid = server.clone();
    invalid.port = 0;
    assert!(validate_sections(&invalid, &memory, &queue).is_err());
}

#[test]
fn channel_settings_read_from_common_settings() {
    let mut signal = SignalChannelConfig::default();
    signal.base.auto_reconnect = false;
    signal.base.max_reconnect_attempts = 3;
    signal.base.connection_mode = ConnectionMode::Polling;
    assert!(signal.allowlist().is_empty());
    assert!(!signal.auto_reconnect());
    assert_eq!(signal.max_reconnect_attempts(), 3);
    assert_eq!(signal.connection_mode(), ConnectionMode::Polling);

    let matrix = MatrixChannelConfig::default();
    assert_eq!(matrix.max_reconnect_attempts(), 10);
    assert!(matrix.auto_reconnect());
    assert_eq!(matrix.connection_mode(), matrix.base.connection_mode);
}

#[test]
fn channel_content_kinds() {
    assert_eq!(signal::supported_content_types().len(), 5);
    assert_eq!(matrix::supported_content_types().last(), Some(&ContentType::Rich));
    assert!(teams::supported_content_types().contains(&ContentType::Card));
    assert_eq!(whatsapp::supported_content_types()[6], ContentType::Sticker);
}
