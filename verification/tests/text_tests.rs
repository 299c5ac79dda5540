use socials::codec::parse_conversation_type;
use socials::entities::ConversationType;
use socials::telegram_bot::{TelegramBot, TgChat, TgUser};
use socials::text::{decimal, parse_i64};

#[test]
fn decimal_renders_like_display() {
    assert_eq!(decimal(0), "0");
    assert_eq!(decimal(7), "7");
    assert_eq!(decimal(1234567890), "1234567890");
    assert_eq!(decimal(-42), "-42");
    assert_eq!(decimal(i64::MIN as i128), i64::MIN.to_string());
    assert_eq!(decimal(u64::MAX as i128), u64::MAX.to_string());
    assert_eq!(decimal(i128::MIN), i128::MIN.to_string());
}

#[test]
fn parse_i64_accepts_what_str_parse_accepts() {
    assert_eq!(parse_i64("123"), Some(123));
    assert_eq!(parse_i64("+5"), Some(5));
    assert_eq!(parse_i64("-5"), Some(-5));
    assert_eq!(parse_i64("-0"), Some(0));
    assert_eq!(parse_i64("000042"), Some(42));
    assert_eq!(parse_i64("9223372036854775807"), Some(i64::MAX));
    assert_eq!(parse_i64("-9223372036854775808"), Some(i64::MIN));
}

#[test]
fn parse_i64_rejects_what_str_parse_rejects() {
    for s in ["", "-", "+", "12a", " 1", "1 ", "--1", "+-1", "9223372036854775808", "-9223372036854775809", "99999999999999999999999"] {
        assert_eq!(parse_i64(s), None, "{s}");
        assert!(s.parse::<i64>().is_err());
    }
}

#[test]
fn parse_i64_reads_back_decimal() {
    for n in [0i64, 1, -1, 99, -100, 1234567, i64::MAX, i64::MIN] {
        assert_eq!(parse_i64(&decimal(n as i128)), Some(n));
    }
}

fn person(first: &str, last: Option<&str>) -> TgUser {
    TgUser { id: 1, first_name: first.to_string(), last_name: last.map(|s| s.to_string()), username: None }
}

#[test]
fn names_are_trimmed() {
    let chat = TgChat { id: 1, chat_type: "private".to_string(), title: None };
    assert_eq!(TelegramBot::display_name(&chat, &person("Ann", Some("  Lee \t\n"))), "Ann Lee");
    assert_eq!(TelegramBot::display_name(&chat, &person("Ann", Some("\u{3000}Lee\u{a0}"))), "Ann Lee");
    assert_eq!(TelegramBot::display_name(&chat, &person("Ann", Some("   "))), "Ann");
}

#[test]
fn kinds_are_compared_exactly() {
    assert_eq!(parse_conversation_type("group"), ConversationType::Group);
    assert_eq!(parse_conversation_type("groups"), ConversationType::Private);
    assert_eq!(parse_conversation_type("Group"), ConversationType::Private);
}
