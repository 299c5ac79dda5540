use socials::api::{
    code_request_reply, connection_failed_reply, demo_conversation, demo_data, demo_message,
    demo_user, health_reply, needs_demo_seed, sidecar_unreachable, telegram_disconnect_reply,
    AccountInfo, ApiResponse, CreateConversationRequest, DemoSeeder, SendMessageRequest, SidecarReply,
    DEMO_MESSAGE_SPACING,
};
use socials::clock::Timestamp;
use socials::entities::{ConversationType, MessageStatus, MessageType};
use socials::telegram_user::AuthState;

fn reply() -> SidecarReply {
    SidecarReply {
        ok: None,
        status: None,
        message: None,
        error: None,
        code: None,
        qr: None,
        user: None,
        user_name: None,
        user_id: None,
    }
}

#[test]
fn envelopes() {
    let ok: ApiResponse<u32> = ApiResponse::success(5);
    assert!(ok.success && ok.data == Some(5) && ok.error.is_none());
    let err: ApiResponse<u32> = ApiResponse::error("boom");
    assert!(!err.success && err.data.is_none());
    assert_eq!(err.error.as_deref(), Some("boom"));
    let from_err: ApiResponse<u32> = ApiResponse::from_result(Err("db down".to_string()));
    assert_eq!(from_err.error.as_deref(), Some("db down"));
    assert_eq!(ApiResponse::from_result(Ok::<u32, String>(3)).data, Some(3));
    assert_eq!(health_reply().data.as_deref(), Some("ok"));
}

#[test]
fn conversation_requests() {
    let now = Timestamp::from_parts(100, 0).unwrap();
    for (kind, expected) in [
        (Some("group"), ConversationType::Group),
        (Some("channel"), ConversationType::Channel),
        (Some("email"), ConversationType::Email),
        (Some("thread"), ConversationType::Private),
        (Some("bot"), ConversationType::Private),
        (None, ConversationType::Private),
    ] {
        let req = CreateConversationRequest {
            title: "Team".to_string(),
            conversation_type: kind.map(|s| s.to_string()),
        };
        assert_eq!(req.requested_type(), expected);
        let c = req.into_conversation(now);
        assert_eq!(c.conversation_type, expected);
        assert_eq!(c.title, "Team");
        assert_eq!(c.last_message_at, None);
        assert_eq!(c.created_at, now);
    }
}

#[test]
fn message_requests() {
    let now = Timestamp::from_parts(100, 0).unwrap();
    let req = SendMessageRequest { conversation_id: 42, content: "yo".to_string(), sender_name: None };
    let m = req.to_message(now);
    assert_eq!(m.connector_id, "Vous");
    assert_eq!(m.conversation_id, 42);
    assert_eq!(m.status, MessageStatus::Sent);
    assert_eq!(m.message_type, MessageType::Text);
    assert!(uuid::Uuid::parse_str(&m.platform_message_id).is_ok());
    let named = SendMessageRequest { conversation_id: 42, content: "yo".to_string(), sender_name: Some("Ann".to_string()) };
    assert_eq!(named.to_message(now).connector_id, "Ann");
}

#[test]
fn accounts() {
    assert!(AccountInfo::for_telegram(&AuthState::disconnected()).is_none());
    assert!(AccountInfo::for_telegram(&AuthState::waiting_code("+1")).is_none());
    let t = AccountInfo::for_telegram(&AuthState::signed_in(123, Some("ann"))).unwrap();
    assert_eq!((t.connector.as_str(), t.display_name.as_str(), t.platform_account_id.as_str()), ("telegram", "ann", "123"));
    assert!(t.is_connected);
    let mut r = reply();
    assert!(AccountInfo::for_whatsapp(&r).is_none());
    r.status = Some("connecting".to_string());
    assert!(AccountInfo::for_whatsapp(&r).is_none());
    r.status = Some("connected".to_string());
    let w = AccountInfo::for_whatsapp(&r).unwrap();
    assert_eq!((w.connector.as_str(), w.display_name.as_str(), w.platform_account_id.as_str()), ("whatsapp", "WhatsApp", ""));
    r.user_name = Some("Maman".to_string());
    r.user_id = Some("336@s.whatsapp.net".to_string());
    let w = AccountInfo::for_whatsapp(&r).unwrap();
    assert_eq!((w.display_name.as_str(), w.platform_account_id.as_str()), ("Maman", "336@s.whatsapp.net"));
}

#[test]
fn sidecar_replies() {
    let mut r = reply();
    assert_eq!(r.start_reply().error.as_deref(), Some("unknown error"));
    r.error = Some("already running".to_string());
    assert_eq!(r.disconnect_reply().error.as_deref(), Some("already running"));
    r.ok = Some(false);
    assert!(!r.pair_code_reply().success);
    r.ok = Some(true);
    assert_eq!(r.start_reply().data.as_deref(), Some("WhatsApp sidecar started"));
    assert_eq!(r.disconnect_reply().data.as_deref(), Some("Disconnected"));
    assert_eq!(r.pair_code_reply().data.as_deref(), Some(""));
    r.code = Some("ABCD-1234".to_string());
    assert_eq!(r.pair_code_reply().data.as_deref(), Some("ABCD-1234"));
    let qr = r.qr_reply().data.unwrap();
    assert_eq!((qr.qr, qr.status.as_str()), (None, "unknown"));
    let status = reply().status_reply().data.unwrap();
    assert_eq!((status.status.as_str(), status.message.as_str()), ("disconnected", ""));
    let mut r = reply();
    let user: serde_json::Value = serde_json::from_str("{\"name\":\"Maman\"}").unwrap();
    r.user = Some(user.clone());
    r.status = Some("connected".to_string());
    r.message = Some("ready".to_string());
    let status = r.status_reply().data.unwrap();
    assert_eq!((status.status.as_str(), status.message.as_str()), ("connected", "ready"));
    assert_eq!(status.user, Some(user));
    let down: ApiResponse<String> = sidecar_unreachable("connection refused");
    assert_eq!(down.error.as_deref(), Some("Sidecar unreachable: connection refused"));
}

#[test]
fn telegram_auth_replies() {
    assert_eq!(connection_failed_reply("timeout").error.as_deref(), Some("Connection error: timeout"));
    assert_eq!(code_request_reply(Ok(())).data.as_deref(), Some("Code sent"));
    assert_eq!(
        code_request_reply(Err("PHONE_NUMBER_INVALID".to_string())).error.as_deref(),
        Some("Failed to send code: PHONE_NUMBER_INVALID")
    );
    assert_eq!(telegram_disconnect_reply(Ok(())).data.as_deref(), Some("Disconnected"));
    assert_eq!(telegram_disconnect_reply(Err("x".to_string())).error.as_deref(), Some("Disconnect failed: x"));
}

#[test]
fn demo_seed() {
    assert!(needs_demo_seed(None));
    assert!(needs_demo_seed(Some(0)));
    assert!(!needs_demo_seed(Some(3)));
    assert!(!needs_demo_seed(Some(demo_data().len())));
    let data = demo_data();
    assert_eq!(data.len(), 4);
    assert_eq!(data[0].title, "Telegram - Alice");
    assert_eq!(data[3].title, "WhatsApp - Famille");
    assert_eq!(data.iter().map(|c| c.messages.len()).collect::<Vec<_>>(), vec![5, 4, 1, 4]);
    assert_eq!(data[1].messages[1], ("Sophie", "Super, je merge"));
    let now = Timestamp::from_parts(1_000_000, 5).unwrap();
    let user = demo_user(7, now);
    assert_eq!((user.username.as_str(), user.email.as_str()), ("user", "user@socials.local"));
    let conv = demo_conversation(7, "Gmail - Newsletter", now);
    assert_eq!(conv.user_id, 7);
    assert_eq!(conv.last_message_at, Some(now));
    let m = demo_message(conv.id, "Newsletter", "Votre resume tech de la semaine", now, 6000);
    assert_eq!(m.created_at.secs(), 1_000_000 - 6000);
    assert_eq!(m.created_at.nanos(), 5);
    assert_eq!(m.connector_id, "Newsletter");
    assert_eq!(m.conversation_id, conv.id);
    assert_eq!(m.status, MessageStatus::Sent);
}

#[test]
fn demo_messages_go_further_back() {
    let now = Timestamp::from_parts(1_000_000, 5).unwrap();
    let mut seeder = DemoSeeder::new();
    assert_eq!(seeder.offset(), 0);
    let first = seeder.next_message(1, "Alice", "Hey, tu es la ?", now);
    assert_eq!(first.created_at.secs(), 1_000_000 - 600);
    let second = seeder.next_message(1, "Vous", "Oui ! Quoi de neuf ?", now);
    assert_eq!(second.created_at.secs(), 1_000_000 - 1200);
    assert_eq!(second.created_at.nanos(), 5);
    assert_eq!(seeder.offset(), 2 * DEMO_MESSAGE_SPACING);
    assert_eq!(second.content, "Oui ! Quoi de neuf ?");
}
