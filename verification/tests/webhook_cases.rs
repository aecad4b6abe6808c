use beebotos_agents::content::{MessageType, PlatformType};
use beebotos_agents::webhook::{
    bridge_message_type_of, connection_event_type, connection_metadata, message_from_data,
    message_with, payload_kind, WebhookEventType, WhatsAppConnectionStatus, WhatsAppMessageData,
    WhatsAppPayloadKind,
};

fn text_message() -> WhatsAppMessageData {
    WhatsAppMessageData {
        id: "msg123".to_string(),
        remote_jid: "1234567890@s.whatsapp.net".to_string(),
        from_me: false,
        content: "Hello, World!".to_string(),
        message_type: "text".to_string(),
        timestamp: 1234567890,
        participant: None,
        media_url: None,
        media_type: None,
        caption: None,
        quoted_message_id: None,
    }
}

#[test]
fn bridge_text_message_becomes_text() {
    let data = text_message();
    assert_eq!(
        payload_kind("message"),
        WhatsAppPayloadKind::Message(WebhookEventType::MessageReceived)
    );
    let message = message_from_data(&data);
    assert_eq!(message.platform, PlatformType::WhatsApp);
    assert_eq!(message.content, "Hello, World!");
    assert_eq!(message.message_type, MessageType::Text);
    assert_eq!(message.timestamp, 1234567890000);
    assert_eq!(message.metadata.get("remote_jid").unwrap(), "1234567890@s.whatsapp.net");
    assert_eq!(message.metadata.get("from_me").unwrap(), "false");
    assert_eq!(message.metadata.len(), 2);
}

#[test]
fn bridge_message_ids_that_are_uuids_are_kept() {
    let mut data = text_message();
    data.id = "67e55044-10b1-426f-9247-bb680e5fe0c8".to_string();
    let message = message_from_data(&data);
    assert_eq!(message.id, 0x67e5504410b1426f9247bb680e5fe0c8u128);
}

#[test]
fn bridge_payload_kinds() {
    assert_eq!(
        payload_kind("message_update"),
        WhatsAppPayloadKind::Message(WebhookEventType::MessageEdited)
    );
    assert_eq!(
        payload_kind("message_delete"),
        WhatsAppPayloadKind::Message(WebhookEventType::MessageDeleted)
    );
    assert_eq!(payload_kind("connection"), WhatsAppPayloadKind::Connection);
    assert_eq!(payload_kind("presence"), WhatsAppPayloadKind::Unknown);
}

#[test]
fn bridge_message_types() {
    assert_eq!(bridge_message_type_of("location"), MessageType::Text);
    assert_eq!(bridge_message_type_of("sticker"), MessageType::Image);
    assert_eq!(bridge_message_type_of("audio"), MessageType::Voice);
    assert_eq!(bridge_message_type_of("document"), MessageType::File);
    assert_eq!(bridge_message_type_of("video"), MessageType::Video);
    assert_eq!(bridge_message_type_of("poll"), MessageType::System);
}

#[test]
fn bridge_optional_metadata_in_order() {
    let mut data = text_message();
    data.from_me = true;
    data.participant = Some("p".to_string());
    data.quoted_message_id = Some("q".to_string());
    let message = message_with(&data, 1, 2, 3);
    assert_eq!(message.id, 1);
    assert_eq!(message.thread_id, 2);
    assert_eq!(message.timestamp, 3);
    assert_eq!(message.metadata.len(), 4);
    assert_eq!(message.metadata.key_at(2), "participant");
    assert_eq!(message.metadata.key_at(3), "quoted_message_id");
    assert_eq!(message.metadata.get("from_me").unwrap(), "true");
}

#[test]
fn bridge_connection_changes() {
    let status = WhatsAppConnectionStatus {
        state: "connected".to_string(),
        qr_code: None,
        error: None,
    };
    assert_eq!(connection_event_type(&status.state), WebhookEventType::UserJoined);
    let metadata = connection_metadata(&status);
    assert_eq!(metadata.get("connection_state").unwrap(), "connected");
    assert_eq!(metadata.len(), 1);
    assert_eq!(connection_event_type("disconnected"), WebhookEventType::UserLeft);
    assert_eq!(connection_event_type("qr"), WebhookEventType::System);
    let with_qr = WhatsAppConnectionStatus {
        state: "qr".to_string(),
        qr_code: Some("code".to_string()),
        error: Some("e".to_string()),
    };
    let metadata = connection_metadata(&with_qr);
    assert_eq!(metadata.get("qr_code").unwrap(), "code");
    assert_eq!(metadata.get("error").unwrap(), "e");
}
