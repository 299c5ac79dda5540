use socials::clock::Timestamp;
use socials::connectors::{TelegramConnector, TelegramContent};
use socials::entities::{Message, MessageStatus, MessageType};

fn v5(name: &[u8]) -> u128 {
    uuid::Uuid::new_v5(&uuid::Uuid::NAMESPACE_URL, name).as_u128()
}

fn empty() -> TelegramContent {
    TelegramContent {
        text: None,
        photo_count: None,
        video_file_id: None,
        voice_file_id: None,
        has_audio: false,
        document: None,
        sticker_file_id: None,
    }
}

#[test]
fn message_kinds() {
    assert_eq!(TelegramConnector::parse_message_type(&empty()), MessageType::Text);
    let mut c = empty();
    c.sticker_file_id = Some("s".to_string());
    assert_eq!(TelegramConnector::parse_message_type(&c), MessageType::Sticker);
    c.document = Some(None);
    assert_eq!(TelegramConnector::parse_message_type(&c), MessageType::File);
    c.has_audio = true;
    assert_eq!(TelegramConnector::parse_message_type(&c), MessageType::Voice);
    c.video_file_id = Some("v".to_string());
    assert_eq!(TelegramConnector::parse_message_type(&c), MessageType::Video);
    c.photo_count = Some(3);
    assert_eq!(TelegramConnector::parse_message_type(&c), MessageType::Image);
}

#[test]
fn message_contents() {
    assert_eq!(TelegramConnector::extract_content(&empty()), "unsupported content");
    let mut audio = empty();
    audio.has_audio = true;
    assert_eq!(TelegramConnector::extract_content(&audio), "unsupported content");
    let mut c = empty();
    c.sticker_file_id = Some("stk".to_string());
    assert_eq!(TelegramConnector::extract_content(&c), "stk");
    c.document = Some(None);
    assert_eq!(TelegramConnector::extract_content(&c), "document");
    c.document = Some(Some("report.pdf".to_string()));
    assert_eq!(TelegramConnector::extract_content(&c), "report.pdf");
    c.voice_file_id = Some("voice1".to_string());
    assert_eq!(TelegramConnector::extract_content(&c), "voice1");
    c.video_file_id = Some("vid1".to_string());
    assert_eq!(TelegramConnector::extract_content(&c), "vid1");
    c.photo_count = Some(4);
    assert_eq!(TelegramConnector::extract_content(&c), "4 photos");
    c.text = Some("caption".to_string());
    assert_eq!(TelegramConnector::extract_content(&c), "caption");
}

#[test]
fn universal_messages() {
    let now = Timestamp::from_parts(3000, 0).unwrap();
    let mut c = empty();
    c.text = Some("hello".to_string());
    let m = TelegramConnector::from_telegram_message(&c, -100, Some(55), 9, true, now);
    assert_eq!(m.conversation_id, v5(b"telegram:chat:-100"));
    assert_eq!(m.sender_id, v5(b"telegram:user:55"));
    assert_eq!(m.content, "hello");
    assert_eq!(m.status, MessageStatus::Delivered);
    assert!(m.reply_to.is_some());
    assert_eq!(m.connector_id, "telegram");
    assert_eq!(m.platform_message_id, "9");
    let anonymous = TelegramConnector::from_telegram_message(&c, -100, None, 10, false, now);
    assert_eq!(anonymous.sender_id, v5(b"telegram:user:unknown"));
    assert_eq!(anonymous.conversation_id, m.conversation_id);
    assert!(anonymous.reply_to.is_none());
}

#[test]
fn replies_go_to_the_chat_of_the_conversation() {
    let now = Timestamp::from_parts(3000, 0).unwrap();
    let mut connector = TelegramConnector::new("test_token");
    let mut c = empty();
    c.text = Some("hello".to_string());
    let received = TelegramConnector::from_telegram_message(&c, -100, Some(55), 9, false, now);
    assert_eq!(connector.chat_id_for(&received), None);
    let conversation = connector.remember_chat(-100);
    assert_eq!(conversation, v5(b"telegram:chat:-100"));
    assert_eq!(conversation, received.conversation_id);
    assert_eq!(connector.chat_id_for(&received), Some(-100));
    let other = TelegramConnector::from_telegram_message(&c, 7, None, 10, false, now);
    assert_eq!(connector.chat_id_for(&other), None);
    connector.remember_chat(7);
    connector.remember_chat(-100);
    assert_eq!(connector.chat_id_for(&other), Some(7));
    assert_eq!(connector.chat_id_for(&received), Some(-100));
    let unknown = Message { conversation_id: 12345, ..received.clone() };
    assert_eq!(connector.chat_id_for(&unknown), None);
    connector.record_updates(&vec![4, 5]);
    assert_eq!(connector.chat_id_for(&received), Some(-100));
}

#[test]
fn poll_offsets() {
    let mut connector = TelegramConnector::new("test_token");
    assert_eq!(connector.offset(), 0);
    connector.record_updates(&vec![]);
    assert_eq!(connector.offset(), 0);
    connector.record_updates(&vec![3, 4, 8]);
    assert_eq!(connector.offset(), 9);
    connector.record_updates(&vec![u32::MAX]);
    assert_eq!(connector.offset(), -1);
}

#[test]
fn connector_bot_carries_the_token() {
    let connector = TelegramConnector::new("123:abc");
    assert_eq!(connector.bot().token(), "123:abc");
    assert_eq!(connector.offset(), 0);
}
