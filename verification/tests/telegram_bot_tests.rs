use socials::clock::Timestamp;
use socials::entities::{ConversationType, MessageStatus, MessageType};
use socials::telegram_bot::{TelegramBot, TgChat, TgMe, TgMessage, TgUpdate, TgUser};

fn user(first: &str, last: Option<&str>, username: Option<&str>) -> TgUser {
    TgUser {
        id: 4242,
        first_name: first.to_string(),
        last_name: last.map(|s| s.to_string()),
        username: username.map(|s| s.to_string()),
    }
}

fn chat(id: i64, kind: &str, title: Option<&str>) -> TgChat {
    TgChat { id, chat_type: kind.to_string(), title: title.map(|s| s.to_string()) }
}

#[test]
fn chat_ids_come_from_titles() {
    assert_eq!(TelegramBot::extract_chat_id("TG:123:Alice"), Some(123));
    assert_eq!(TelegramBot::extract_chat_id("TG:-1001234:Dev: team"), Some(-1001234));
    assert_eq!(TelegramBot::extract_chat_id("TG:123"), None);
    assert_eq!(TelegramBot::extract_chat_id("TG:abc:x"), None);
    assert_eq!(TelegramBot::extract_chat_id("tg:1:x"), None);
    assert_eq!(TelegramBot::extract_chat_id("Telegram - Alice"), None);
    assert_eq!(TelegramBot::extract_chat_id("TG::x"), None);
}

#[test]
fn titles_round_trip() {
    let now = Timestamp::from_parts(1000, 0).unwrap();
    for id in [0i64, 5, -42, i64::MAX, i64::MIN] {
        let conv = TelegramBot::new_chat_conversation(
            id,
            &chat(id, "group", Some("Fans: club")),
            &user("Ann", None, None),
            9,
            now,
        );
        let prefix = TelegramBot::title_prefix(id);
        assert!(conv.title.starts_with(&prefix));
        assert_eq!(TelegramBot::extract_chat_id(&conv.title), Some(id));
        assert_eq!(conv.conversation_type, ConversationType::Private);
        assert_eq!(conv.last_message_at, Some(now));
        assert_eq!(conv.user_id, 9);
    }
    assert_eq!(TelegramBot::title_prefix(-7), "TG:-7:");
}

#[test]
fn display_names() {
    let private = chat(1, "private", None);
    assert_eq!(TelegramBot::display_name(&private, &user("Ann", Some("Lee"), Some("ann"))), "@ann");
    assert_eq!(TelegramBot::display_name(&private, &user("Ann", Some("  Lee "), None)), "Ann Lee");
    assert_eq!(TelegramBot::display_name(&private, &user("Ann", Some("   "), None)), "Ann");
    assert_eq!(TelegramBot::display_name(&private, &user("Ann", None, None)), "Ann");
    assert_eq!(TelegramBot::display_name(&chat(2, "group", Some("Club")), &user("A", None, None)), "Club");
    assert_eq!(TelegramBot::display_name(&chat(2, "channel", None), &user("A", None, None)), "channel");
}

#[test]
fn incoming_messages() {
    let msg = TgMessage {
        message_id: 77,
        chat: chat(5, "private", None),
        from: user("Ann", Some("Lee "), None),
        text: Some("hi".to_string()),
        date: 0,
    };
    let now = Timestamp::from_parts(2000, 0).unwrap();
    let m = TelegramBot::incoming_message(&msg, "hi", 31, now);
    assert_eq!(m.conversation_id, 31);
    assert_eq!(m.content, "hi");
    assert_eq!(m.connector_id, "Telegram:Ann Lee");
    assert_eq!(m.platform_message_id, "77");
    assert_eq!(m.message_type, MessageType::Text);
    assert_eq!(m.status, MessageStatus::Delivered);
    assert_eq!(m.created_at, now);
    assert_eq!(m.sender_id, uuid::Uuid::new_v5(&uuid::Uuid::NAMESPACE_URL, b"telegram:user:4242").as_u128());
    assert_eq!(TelegramBot::sender_name(&user("Ann", None, None)), "Ann ");
}

#[test]
fn polling_state() {
    let me = TgMe { id: 99, first_name: "bot".to_string(), username: None };
    let mut bot = TelegramBot::connected("T0K".to_string(), reqwest::Client::new(), &me);
    assert_eq!(bot.bot_id(), 99);
    assert_eq!(bot.offset(), 0);
    assert_eq!(bot.updates_url(), "https://api.telegram.org/botT0K/getUpdates?offset=0&timeout=30");
    assert_eq!(bot.send_message_url(), "https://api.telegram.org/botT0K/sendMessage");
    assert_eq!(TelegramBot::method_url("T0K", "getMe"), "https://api.telegram.org/botT0K/getMe");
    let without_text = TgUpdate { update_id: 10, message: None };
    assert!(!bot.accept_update(&without_text));
    assert_eq!(bot.offset(), 11);
    let with_text = TgUpdate {
        update_id: 12,
        message: Some(TgMessage {
            message_id: 1,
            chat: chat(1, "private", None),
            from: user("A", None, None),
            text: Some("x".to_string()),
            date: 0,
        }),
    };
    assert!(bot.accept_update(&with_text));
    assert_eq!(bot.offset(), 13);
    assert_eq!(bot.updates_url(), "https://api.telegram.org/botT0K/getUpdates?offset=13&timeout=30");
}

#[test]
fn chat_conversations_match_only_their_prefix() {
    let now = Timestamp::from_parts(1000, 0).unwrap();
    let conv = TelegramBot::new_chat_conversation(12, &chat(12, "group", Some("1:x")), &user("Ann", None, None), 9, now);
    assert!(conv.title.starts_with(&TelegramBot::title_prefix(12)));
    for other in [1i64, 2, -12, 120, 0] {
        assert!(!conv.title.starts_with(&TelegramBot::title_prefix(other)));
    }
}
