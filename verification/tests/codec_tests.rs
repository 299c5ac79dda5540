use socials::codec::{
    attachment_type_str, conversation_type_str, message_status_str, message_type_str,
    parse_attachment_type, parse_conversation_type, parse_message_status, parse_message_type,
};
use socials::entities::{AttachmentType, ConversationType, MessageStatus, MessageType};

#[test]
fn attachment_types_read_back() {
    for t in [
        AttachmentType::Image,
        AttachmentType::File,
        AttachmentType::Voice,
        AttachmentType::Video,
        AttachmentType::Sticker,
        AttachmentType::Other,
    ] {
        assert_eq!(parse_attachment_type(attachment_type_str(t)), t);
    }
    assert_eq!(attachment_type_str(AttachmentType::Sticker), "sticker");
    assert_eq!(parse_attachment_type("gif"), AttachmentType::Other);
    assert_eq!(parse_attachment_type("Image"), AttachmentType::Other);
}

#[test]
fn conversation_types_read_back() {
    for t in [
        ConversationType::Private,
        ConversationType::Group,
        ConversationType::Channel,
        ConversationType::Thread,
        ConversationType::Email,
        ConversationType::Bot,
    ] {
        assert_eq!(parse_conversation_type(conversation_type_str(t)), t);
    }
    assert_eq!(conversation_type_str(ConversationType::Thread), "thread");
    assert_eq!(parse_conversation_type("forum"), ConversationType::Private);
    assert_eq!(parse_conversation_type(""), ConversationType::Private);
}

#[test]
fn message_types_read_back() {
    for t in [
        MessageType::Text,
        MessageType::Image,
        MessageType::File,
        MessageType::Voice,
        MessageType::Video,
        MessageType::Sticker,
        MessageType::Other,
    ] {
        assert_eq!(parse_message_type(message_type_str(t)), t);
    }
    assert_eq!(message_type_str(MessageType::Text), "text");
    assert_eq!(parse_message_type("audio"), MessageType::Other);
}

#[test]
fn message_statuses_read_back() {
    for t in [
        MessageStatus::Pending,
        MessageStatus::Sent,
        MessageStatus::Delivered,
        MessageStatus::Read,
        MessageStatus::Failed,
    ] {
        assert_eq!(parse_message_status(message_status_str(t)), t);
    }
    assert_eq!(message_status_str(MessageStatus::Delivered), "delivered");
    assert_eq!(parse_message_status("seen"), MessageStatus::Pending);
}
