use socials::clock::Timestamp;
use socials::entities::{
    Account, Attachment, AttachmentType, Contact, Conversation, ConversationType, Identity,
    Message, MessageStatus, MessageType, User,
};
use socials::rows::{
    account_from_row, account_to_row, attachment_from_row, attachment_to_row, contact_from_row,
    contact_to_row, conversation_from_row, conversation_to_row, identity_from_row,
    identity_to_row, message_from_row, message_to_row, user_from_row, user_to_row,
};

fn at(secs: i64, nanos: u32) -> Timestamp {
    Timestamp::from_parts(secs, nanos).unwrap()
}

#[test]
fn users_read_back() {
    let u = User {
        id: 0x11112222333344445555666677778888,
        username: "alice".to_string(),
        email: "alice@example.org".to_string(),
        created_at: at(1_700_000_000, 0),
        updated_at: at(1_700_000_100, 5),
    };
    let row = user_to_row(&u);
    assert_eq!(row.id, "11112222-3333-4444-5555-666677778888");
    assert_eq!(row.created_at, "2023-11-14T22:13:20+00:00");
    assert_eq!(user_from_row(row), Some(u));
}

#[test]
fn unreadable_rows_give_nothing() {
    let u = User {
        id: 1,
        username: "bob".to_string(),
        email: "bob@example.org".to_string(),
        created_at: at(0, 0),
        updated_at: at(0, 0),
    };
    let mut row = user_to_row(&u);
    row.id = "garbage".to_string();
    assert_eq!(user_from_row(row), None);
    let mut row = user_to_row(&u);
    row.updated_at = "later".to_string();
    assert_eq!(user_from_row(row), None);
}

#[test]
fn accounts_read_back() {
    let a = Account {
        id: 7,
        user_id: 8,
        connector_name: "telegram".to_string(),
        platform_account_id: "42".to_string(),
        display_name: "Alice".to_string(),
        is_connected: true,
        access_token: Some("tok".to_string()),
        refresh_token: None,
        created_at: at(1, 0),
        updated_at: at(2, 0),
    };
    assert_eq!(account_from_row(account_to_row(&a)), Some(a));
}

#[test]
fn contacts_and_identities_read_back() {
    let c = Contact {
        id: 3,
        user_id: 4,
        display_name: "Jean".to_string(),
        avatar_url: Some("https://example.org/a.png".to_string()),
        created_at: at(10, 0),
        updated_at: at(20, 0),
    };
    assert_eq!(contact_from_row(contact_to_row(&c)), Some(c));
    let i = Identity {
        id: 5,
        contact_id: 3,
        account_id: 7,
        platform_user_id: "12345".to_string(),
        platform_username: Some("@jean123".to_string()),
        created_at: at(30, 0),
    };
    assert_eq!(identity_from_row(identity_to_row(&i)), Some(i));
}

#[test]
fn conversations_read_back() {
    let c = Conversation {
        id: 9,
        user_id: 10,
        conversation_type: ConversationType::Thread,
        title: "TG:1:x".to_string(),
        created_at: at(100, 0),
        updated_at: at(200, 0),
        last_message_at: Some(at(300, 999)),
    };
    let row = conversation_to_row(&c);
    assert_eq!(row.conversation_type, "thread");
    assert_eq!(conversation_from_row(row), Some(c));
}

#[test]
fn lenient_conversation_columns() {
    let c = Conversation {
        id: 9,
        user_id: 10,
        conversation_type: ConversationType::Group,
        title: "t".to_string(),
        created_at: at(100, 0),
        updated_at: at(200, 0),
        last_message_at: None,
    };
    let mut row = conversation_to_row(&c);
    row.conversation_type = "forum".to_string();
    row.last_message_at = Some("whenever".to_string());
    let back = conversation_from_row(row).unwrap();
    assert_eq!(back.conversation_type, ConversationType::Private);
    assert_eq!(back.last_message_at, None);
}

#[test]
fn messages_read_back() {
    let m = Message {
        id: 11,
        conversation_id: 12,
        sender_id: 13,
        content: "Bonjour".to_string(),
        message_type: MessageType::Voice,
        status: MessageStatus::Read,
        created_at: at(1000, 0),
        edited_at: Some(at(1001, 0)),
        reply_to: Some(14),
        connector_id: "telegram".to_string(),
        platform_message_id: "77".to_string(),
    };
    let row = message_to_row(&m);
    assert_eq!(row.status, "read");
    assert_eq!(row.message_type, "voice");
    assert_eq!(message_from_row(row), Some(m.clone()));
    let mut row = message_to_row(&m);
    row.reply_to = Some("nope".to_string());
    row.status = "unknown".to_string();
    let back = message_from_row(row).unwrap();
    assert_eq!(back.reply_to, None);
    assert_eq!(back.status, MessageStatus::Pending);
}

#[test]
fn attachments_read_back() {
    let a = Attachment {
        id: 15,
        message_id: 11,
        attachment_type: AttachmentType::Video,
        filename: "clip.mp4".to_string(),
        url: None,
        size: Some(u64::MAX),
        mime_type: Some("video/mp4".to_string()),
        created_at: at(5, 0),
    };
    let row = attachment_to_row(&a);
    assert_eq!(row.size, Some(-1));
    assert_eq!(attachment_from_row(row), Some(a));
}
