use socials::events::{Event, EventBus};
use std::sync::atomic::{AtomicUsize, Ordering};
use std::sync::Arc;

type Handler = Box<dyn Fn(&Event) + Send + Sync>;

#[test]
fn test_event_bus_publish_subscribe() {
    let mut bus: EventBus<Handler> = EventBus::new();
    let counter = Arc::new(AtomicUsize::new(0));
    let counter_clone = counter.clone();

    bus.subscribe(
        "MESSAGE_RECEIVED",
        Box::new(move |_event| {
            counter_clone.fetch_add(1, Ordering::SeqCst);
        }),
    );

    let event = Event::MessageReceived {
        message_id: 1,
        conversation_id: 2,
        sender_id: 3,
        connector_id: "test".to_string(),
    };

    let subscribers = bus.subscribers_for(&event).expect("a subscriber");
    for s in subscribers {
        (s.handler)(&event);
    }
    assert_eq!(counter.load(Ordering::SeqCst), 1);
}

#[test]
fn test_event_bus_unsubscribe() {
    let mut bus: EventBus<Handler> = EventBus::new();
    let counter = Arc::new(AtomicUsize::new(0));
    let counter_clone = counter.clone();

    let subscriber_id = bus.subscribe(
        "TEST_EVENT",
        Box::new(move |_event| {
            counter_clone.fetch_add(1, Ordering::SeqCst);
        }),
    );

    let result = bus.unsubscribe("TEST_EVENT", subscriber_id);
    assert!(result);
}
