use socials::connectors::{Connector, TelegramConnector};

#[test]
fn test_connector_name() {
    let connector = TelegramConnector::new("test_token");
    assert_eq!(connector.name(), "telegram");
}

#[test]
fn test_capabilities() {
    let connector = TelegramConnector::new("test_token");
    let caps = connector.capabilities();

    assert!(caps.receive_messages);
    assert!(caps.send_messages);
    assert!(caps.images);
    assert!(caps.files);
    assert!(caps.voice);
    assert!(caps.reactions);
    assert!(caps.edit_message);
    assert!(caps.delete_message);
    assert!(caps.typing_indicator);
    assert!(!caps.read_receipts);
}
