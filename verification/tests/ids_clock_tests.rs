use socials::api::demo_message;
use socials::clock::Timestamp;
use socials::entities::User;
use socials::events::{Event, EventEnvelope};
use socials::rows::{user_from_row, user_to_row, UserRow};

fn user(id: u128, t: Timestamp) -> User {
    User { id, username: "ann".to_string(), email: "ann@example.com".to_string(), created_at: t, updated_at: t }
}

fn row(id: &str, created_at: &str) -> UserRow {
    UserRow {
        id: id.to_string(),
        username: "ann".to_string(),
        email: "a@b".to_string(),
        created_at: created_at.to_string(),
        updated_at: "1970-01-01T00:00:00+00:00".to_string(),
    }
}

#[test]
fn ids_are_written_hyphenated_lower_case() {
    let epoch = Timestamp::from_parts(0, 0).unwrap();
    let u: u128 = 0x936da01f9abd4d9d80c702af85c822a8;
    assert_eq!(user_to_row(&user(u, epoch)).id, "936da01f-9abd-4d9d-80c7-02af85c822a8");
    assert_eq!(user_to_row(&user(0, epoch)).id, "00000000-0000-0000-0000-000000000000");
}

#[test]
fn ids_are_read_back() {
    let u: u128 = 0x936da01f9abd4d9d80c702af85c822a8;
    let epoch = "1970-01-01T00:00:00+00:00";
    assert_eq!(user_from_row(row("936da01f-9abd-4d9d-80c7-02af85c822a8", epoch)).unwrap().id, u);
    assert_eq!(user_from_row(row("936DA01F9ABD4D9D80C702AF85C822A8", epoch)).unwrap().id, u);
    assert!(user_from_row(row("not-a-uuid", epoch)).is_none());
}

#[test]
fn timestamps_are_checked() {
    assert!(Timestamp::from_parts(0, 0).is_some());
    assert!(Timestamp::from_parts(59, 1_500_000_000).is_some());
    assert!(Timestamp::from_parts(58, 1_500_000_000).is_none());
    assert!(Timestamp::from_parts(-1, 1_500_000_000).is_some());
    assert!(Timestamp::from_parts(0, 2_000_000_000).is_none());
    assert!(Timestamp::from_parts(8210266876799, 0).is_some());
    assert!(Timestamp::from_parts(8210266876800, 0).is_none());
    assert!(Timestamp::from_parts(-8334601228800, 0).is_some());
    assert!(Timestamp::from_parts(-8334601228801, 0).is_none());
    assert!(Timestamp::from_parts(-8334601315200, 0).is_none());
    assert!(chrono::DateTime::from_timestamp(-8334601228800, 0).is_some());
    assert!(chrono::DateTime::from_timestamp(-8334601228801, 0).is_none());
    assert!(chrono::DateTime::from_timestamp(-8334601315200, 0).is_none());
    assert!(chrono::DateTime::from_timestamp(8210266876799, 0).is_some());
    assert!(chrono::DateTime::from_timestamp(8210266876800, 0).is_none());
}

#[test]
fn timestamps_are_written_in_rfc3339() {
    let epoch = Timestamp::from_parts(0, 0).unwrap();
    assert_eq!(user_to_row(&user(1, epoch)).created_at, "1970-01-01T00:00:00+00:00");
    let t = Timestamp::from_parts(1_700_000_000, 123_000_000).unwrap();
    let written = user_to_row(&user(1, t));
    assert_eq!(written.created_at, "2023-11-14T22:13:20.123+00:00");
    assert_eq!(user_from_row(written).unwrap().created_at, t);
    let leap = Timestamp::from_parts(59, 1_250_000_000).unwrap();
    assert_eq!(user_from_row(user_to_row(&user(1, leap))).unwrap().created_at, leap);
}

#[test]
fn timestamps_are_read_with_offsets() {
    let id = "936da01f-9abd-4d9d-80c7-02af85c822a8";
    let read = user_from_row(row(id, "1970-01-01T01:00:00+01:00")).unwrap();
    assert_eq!((read.created_at.secs(), read.created_at.nanos()), (0, 0));
    assert!(user_from_row(row(id, "yesterday")).is_none());
}

#[test]
fn envelopes_are_stamped_with_the_clock() {
    let before = chrono::Utc::now().timestamp();
    let env = EventEnvelope::new(Event::ContactCreated { contact_id: 1, user_id: 2 }).unwrap();
    let after = chrono::Utc::now().timestamp();
    assert!(before <= env.timestamp.secs() && env.timestamp.secs() <= after);
    let other = EventEnvelope::new(Event::ContactCreated { contact_id: 1, user_id: 2 }).unwrap();
    assert_ne!(env.id, other.id);
}

#[test]
fn clock_readings() {
    let t = Timestamp::from_clock_reading(1_700_000_000, 123).unwrap();
    assert_eq!((t.secs(), t.nanos()), (1_700_000_000, 123));
    assert!(Timestamp::from_clock_reading(8210266876799, 0).is_some());
    assert!(Timestamp::from_clock_reading(8210266876800, 0).is_none());
    assert!(Timestamp::from_clock_reading(u64::MAX, 0).is_none());
    assert!(Timestamp::from_clock_reading(59, 1_500_000_000).is_some());
    assert!(Timestamp::from_clock_reading(58, 1_500_000_000).is_none());
}

#[test]
fn the_clock_reads_now() {
    let before = chrono::Utc::now().timestamp();
    let now = Timestamp::now().unwrap();
    let after = chrono::Utc::now().timestamp();
    assert!(before <= now.secs() && now.secs() <= after);
    assert!(now.nanos() < 1_000_000_000);
}

#[test]
fn demo_messages_are_shifted_back() {
    let clock = Timestamp::from_parts(10_000, 5).unwrap();
    let m = demo_message(1, "Alice", "hi", clock, 600);
    assert_eq!(m.created_at.secs(), 9_400);
    assert_eq!(m.created_at.nanos(), 5);
}
