use beebotos_agents::channel::session_manager::SessionManager;
use beebotos_agents::content::PlatformType;

#[test]
fn test_session_manager() {
    let mut manager = SessionManager::new(60, 10);

    let session = manager
        .get_or_create_session(PlatformType::Lark, "chat123", "user456");

    assert_eq!(session.platform, PlatformType::Lark);
    assert_eq!(session.channel_id, "chat123");
    assert_eq!(session.user_id, "user456");

    manager
        .add_message(&session.id, "user", "Hello", false, vec![])
        .unwrap();
    manager
        .add_message(&session.id, "assistant", "Hi there", false, vec![])
        .unwrap();

    let history = manager.get_history_for_llm(&session.id, 10).unwrap();
    assert_eq!(history.len(), 2);

    let session2 = manager
        .get_or_create_session(PlatformType::Lark, "chat123", "user456");
    assert_eq!(session.id, session2.id);

    manager.end_session(&session.id).unwrap();
}

#[test]
fn sessions_expire_and_keep_bounded_history() {
    let mut manager = SessionManager::new(60, 2);
    let s = manager.get_or_create_session_at(PlatformType::Slack, "c", "u", 1_000, "s1".to_string());
    assert_eq!(s.id, "s1");
    for (i, text) in ["a", "b", "c"].iter().enumerate() {
        manager
            .add_message_at("s1", "user", text, false, vec![], 2_000 + i as i64, format!("m{}", i))
            .unwrap();
    }
    let history = manager.get_history_for_llm("s1", 10).unwrap();
    assert_eq!(history.len(), 2);
    assert_eq!(history[0].content, "b");
    assert_eq!(history[1].content, "c");
    // Within the timeout the same session comes back; after it a new one.
    let same = manager.get_or_create_session_at(PlatformType::Slack, "c", "u", 30_000, "s2".to_string());
    assert_eq!(same.id, "s1");
    let fresh = manager.get_or_create_session_at(PlatformType::Slack, "c", "u", 200_000, "s3".to_string());
    assert_eq!(fresh.id, "s3");
    assert!(manager.add_message("nope", "user", "x", false, vec![]).is_err());
}
