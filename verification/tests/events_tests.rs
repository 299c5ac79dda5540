use socials::clock::Timestamp;
use socials::entities::{Account, Message, MessageStatus, MessageType};
use socials::events::{Event, EventBus, EventEnvelope};

fn sample_message() -> Message {
    Message {
        id: 1,
        conversation_id: 2,
        sender_id: 3,
        content: "c".to_string(),
        message_type: MessageType::Text,
        status: MessageStatus::Sent,
        created_at: Timestamp::from_parts(0, 0).unwrap(),
        edited_at: None,
        reply_to: None,
        connector_id: "Vous".to_string(),
        platform_message_id: "p".to_string(),
    }
}

#[test]
fn event_names() {
    assert_eq!(Event::message_sent(&sample_message()).name(), "MESSAGE_SENT");
    assert_eq!(Event::message_received(&sample_message()).name(), "MESSAGE_RECEIVED");
    let failed = Event::SyncFailed { account_id: 1, user_id: 2, error: "e".to_string() };
    assert_eq!(failed.name(), "SYNC_FAILED");
    let merged = Event::ContactMerged { source_contact_id: 1, target_contact_id: 2, user_id: 3 };
    assert_eq!(merged.name(), "CONTACT_MERGED");
}

#[test]
fn events_carry_the_entity() {
    match Event::message_received(&sample_message()) {
        Event::MessageReceived { message_id, conversation_id, sender_id, connector_id } => {
            assert_eq!((message_id, conversation_id, sender_id), (1, 2, 3));
            assert_eq!(connector_id, "Vous");
        }
        _ => panic!("wrong event"),
    }
    let account = Account {
        id: 10,
        user_id: 11,
        connector_name: "telegram".to_string(),
        platform_account_id: "1".to_string(),
        display_name: "A".to_string(),
        is_connected: true,
        access_token: None,
        refresh_token: None,
        created_at: Timestamp::from_parts(0, 0).unwrap(),
        updated_at: Timestamp::from_parts(0, 0).unwrap(),
    };
    match Event::account_disconnected(10, &account) {
        Event::AccountDisconnected { account_id, user_id, connector_name } => {
            assert_eq!((account_id, user_id), (10, 11));
            assert_eq!(connector_name, "telegram");
        }
        _ => panic!("wrong event"),
    }
}

#[test]
fn envelopes_are_stamped() {
    let e = EventEnvelope::new(Event::SyncStarted { account_id: 1, user_id: 2 }).unwrap();
    let f = EventEnvelope::new(Event::SyncStarted { account_id: 1, user_id: 2 }).unwrap();
    assert_ne!(e.id, f.id);
    assert!(e.timestamp.secs() > 1_600_000_000);
    assert_eq!(e.event.name(), "SYNC_STARTED");
    let t = Timestamp::from_parts(1234, 5).unwrap();
    let g = EventEnvelope::at(Event::SyncStarted { account_id: 1, user_id: 2 }, t);
    assert_eq!(g.timestamp, t);
    assert_eq!(g.event.name(), "SYNC_STARTED");
}

#[test]
fn subscribers_in_order_by_name() {
    let mut bus: EventBus<&'static str> = EventBus::new();
    assert!(bus.subscribers_of("MESSAGE_SENT").is_none());
    let a = bus.subscribe("MESSAGE_SENT", "first");
    let b = bus.subscribe("MESSAGE_SENT", "second");
    let c = bus.subscribe("SYNC_STARTED", "other");
    let sent = bus.subscribers_for(&Event::message_sent(&sample_message())).unwrap();
    assert_eq!(sent.iter().map(|s| s.handler).collect::<Vec<_>>(), vec!["first", "second"]);
    assert_eq!(sent.iter().map(|s| s.id).collect::<Vec<_>>(), vec![a, b]);
    assert!(bus.subscribers_for(&Event::message_received(&sample_message())).is_none());
    assert!(!bus.unsubscribe("MESSAGE_SENT", c));
    assert!(!bus.unsubscribe("NO_SUCH_EVENT", a));
    assert!(bus.unsubscribe("MESSAGE_SENT", a));
    assert!(!bus.unsubscribe("MESSAGE_SENT", a));
    let sent = bus.subscribers_of("MESSAGE_SENT").unwrap();
    assert_eq!(sent.iter().map(|s| s.handler).collect::<Vec<_>>(), vec!["second"]);
    assert_eq!(bus.subscribers_of("SYNC_STARTED").unwrap().len(), 1);
    assert!(bus.unsubscribe("MESSAGE_SENT", b));
    assert_eq!(bus.subscribers_of("MESSAGE_SENT").unwrap().len(), 0);
}
