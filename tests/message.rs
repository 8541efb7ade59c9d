use lyric_status::message::{decimal, encode_emoji, encode_status, format_lyric, json_object, quoted, Emoji, StatusUpdateMessage};
use lyric_status::settings::{or_empty, Settings};

#[test]
fn format_concatenates_without_separators() {
    assert_eq!(format_lyric("♪ ", "hello", ""), "♪ hello");
    assert_eq!(format_lyric(" a ", " b ", " c "), " a  b  c ");
    assert_eq!(format_lyric("", "", ""), "");
}

#[test]
fn format_twice_gives_the_same_text() {
    let first = format_lyric("pre-", "line", "-post");
    let second = format_lyric("pre-", "line", "-post");
    assert_eq!(first, second);
    assert_eq!(first, "pre-line-post");
}

#[test]
fn decimal_numerals() {
    assert_eq!(decimal(0), "0");
    assert_eq!(decimal(7), "7");
    assert_eq!(decimal(10), "10");
    assert_eq!(decimal(4096), "4096");
    assert_eq!(decimal(u32::MAX), "4294967295");
}

#[test]
fn json_object_frames_members_in_order() {
    assert_eq!(json_object(&vec![]), "{}");
    let members = vec![
        ("cmd".to_string(), "\"status\"".to_string()),
        ("message".to_string(), "\"♪ hello\"".to_string()),
    ];
    assert_eq!(json_object(&members), "{\"cmd\":\"status\",\"message\":\"♪ hello\"}");
    assert_eq!(json_object(&vec![("n".to_string(), "1".to_string())]), "{\"n\":1}");
}

#[test]
fn status_with_message_only() {
    let m = StatusUpdateMessage {
        cmd: "status".to_string(),
        show_game: None,
        status: None,
        emoji: None,
        expires_time: None,
        message: Some("♪ hello".to_string()),
    };
    assert_eq!(encode_status(&m), "{\"cmd\":\"status\",\"message\":\"♪ hello\"}");
}

#[test]
fn status_with_every_field() {
    let m = StatusUpdateMessage {
        cmd: "status".to_string(),
        show_game: Some(true),
        status: Some("online".to_string()),
        emoji: Some(Emoji { id: "1".to_string(), name: "x".to_string() }),
        expires_time: Some(42),
        message: Some("hi".to_string()),
    };
    assert_eq!(
        encode_status(&m),
        "{\"cmd\":\"status\",\"showGame\":true,\"status\":\"online\",\"emoji\":{\"id\":\"1\",\"name\":\"x\"},\"expiresTime\":42,\"message\":\"hi\"}"
    );
}

#[test]
fn status_with_no_optional_field() {
    let m = StatusUpdateMessage {
        cmd: "status".to_string(),
        show_game: Some(false),
        status: None,
        emoji: None,
        expires_time: None,
        message: None,
    };
    assert_eq!(encode_status(&m), "{\"cmd\":\"status\",\"showGame\":false}");
}

#[test]
fn strings_are_escaped() {
    let e = Emoji { id: "a\"b".to_string(), name: "line\nbreak".to_string() };
    assert_eq!(encode_emoji(&e), "{\"id\":\"a\\\"b\",\"name\":\"line\\nbreak\"}");
}

#[test]
fn optional_texts_default_to_empty() {
    assert_eq!(or_empty(&None), "");
    assert_eq!(or_empty(&Some("x".to_string())), "x");
    let s = Settings { prefix: None, suffix: Some("s".to_string()), reload: None, lyrics: vec![], interval: 3 };
    assert_eq!(s.prefix_text(), "");
    assert_eq!(s.suffix_text(), "s");
    assert!(!s.reloads());
    let r = Settings { reload: Some(true), ..s };
    assert!(r.reloads());
}

#[test]
fn quoting_escapes_controls_quotes_and_backslashes() {
    assert_eq!(quoted(""), "\"\"");
    assert_eq!(quoted("plain ♪"), "\"plain ♪\"");
    assert_eq!(quoted("a\"b\\c"), "\"a\\\"b\\\\c\"");
    assert_eq!(quoted("\u{8}\t\n\u{c}\r"), "\"\\b\\t\\n\\f\\r\"");
    assert_eq!(quoted("\u{1}\u{1f}/\u{7f}"), "\"\\u0001\\u001f/\u{7f}\"");
}
