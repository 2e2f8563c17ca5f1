use tchatchers_front::chat::{local_timestamp, message_class};
use tchatchers_front::chat::{
    message_title, reception_checkmark, Author, Chat, ChatEntry, WsMessageContent, WsReceptionStatus, DEFAULT_PFP,
};
use tchatchers_front::text::{i64_to_decimal, parse_i32};

fn message(uuid: u128, author: i32) -> WsMessageContent {
    WsMessageContent {
        uuid,
        content: format!("message {uuid}"),
        author: Author { id: author, name: format!("user {author}"), pfp: None },
        timestamp: 0,
        room: "rust".to_string(),
        reception_status: WsReceptionStatus::Sent,
    }
}

#[test]
fn pictures_on_the_first_message_of_each_run() {
    // newest first: 2, 2, 3, 1 (own), 2
    let msgs = vec![message(1, 2), message(2, 2), message(3, 3), message(4, 1), message(5, 2)];
    let entries = Chat::entries(&msgs, 1);
    assert_eq!(
        entries,
        vec![
            ChatEntry { is_user: false, display_pfp: false },
            ChatEntry { is_user: false, display_pfp: true },
            ChatEntry { is_user: false, display_pfp: true },
            ChatEntry { is_user: true, display_pfp: false },
            ChatEntry { is_user: false, display_pfp: true },
        ]
    );
}

#[test]
fn no_messages_no_entries() {
    assert!(Chat::entries(&Vec::new(), 1).is_empty());
}

#[test]
fn own_run_shows_no_picture() {
    let msgs = vec![message(1, 7), message(2, 7)];
    let entries = Chat::entries(&msgs, 7);
    assert!(entries.iter().all(|e| e.is_user && !e.display_pfp));
}

#[test]
fn default_picture() {
    assert_eq!(Chat::pfp_or_default(&None), DEFAULT_PFP);
    assert_eq!(Chat::pfp_or_default(&Some("/pfp/me.webp".to_string())), "/pfp/me.webp");
}

#[test]
fn check_marks() {
    assert_eq!(reception_checkmark(WsReceptionStatus::Sent, true), Some("M4.5 12.75l6 6 9-13.5"));
    assert_eq!(
        reception_checkmark(WsReceptionStatus::Seen, true),
        Some("M9 12.75L11.25 15 15 9.75M21 12a9 9 0 11-18 0 9 9 0 0118 0z")
    );
    assert_eq!(reception_checkmark(WsReceptionStatus::NotSent, true), None);
    assert_eq!(reception_checkmark(WsReceptionStatus::Seen, false), None);
    assert_eq!(reception_checkmark(WsReceptionStatus::Sent, false), None);
}

#[test]
fn message_tooltip() {
    assert_eq!(message_title(5, 3, 2024, 9, 7), "on 05/03/2024 at 9:07");
    assert_eq!(message_title(25, 12, 1999, 23, 59), "on 25/12/1999 at 23:59");
    assert_eq!(message_title(1, 1, -44, 0, 0), "on 01/01/-44 at 0:00");
}

#[test]
fn decimal_rendering() {
    assert_eq!(i64_to_decimal(0), "0");
    assert_eq!(i64_to_decimal(42), "42");
    assert_eq!(i64_to_decimal(-7), "-7");
    assert_eq!(i64_to_decimal(i64::MIN), i64::MIN.to_string());
    assert_eq!(i64_to_decimal(i64::MAX), i64::MAX.to_string());
}

#[test]
fn parsing_matches_std() {
    for s in ["0", "42", "-42", "+42", "007", "2147483647", "-2147483648"] {
        assert_eq!(parse_i32(s), s.parse::<i32>().ok(), "{s}");
    }
    for s in ["", "+", "-", "2147483648", "-2147483649", "4a", " 1", "1 ", "--1", "+-1", "1.0"] {
        assert_eq!(parse_i32(s), None, "{s}");
        assert!(s.parse::<i32>().is_err(), "{s}");
    }
}

#[test]
fn decimal_then_parse_roundtrip() {
    for v in [0i32, 1, -1, 17, i32::MAX, i32::MIN] {
        assert_eq!(parse_i32(&i64_to_decimal(v as i64)), Some(v));
    }
}

#[test]
fn message_classes_and_local_time() {
    assert_eq!(message_class(true), "message-user");
    assert_eq!(message_class(false), "message-other");
    // UTC+2: the browser reports -120 minutes
    assert_eq!(local_timestamp(0, -120), 7_200_000);
    assert_eq!(local_timestamp(1_000, 60), 1_000 - 3_600_000);
}
