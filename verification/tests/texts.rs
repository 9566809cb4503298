//! The operations on text.
use harness_bridge::text::{cut_is_clean, joined, keep_last_bytes, single_line};

#[test]
fn every_line_break_becomes_a_space() {
    assert_eq!(single_line(""), "");
    assert_eq!(single_line("plain"), "plain");
    assert_eq!(single_line("\n"), " ");
    assert_eq!(single_line("\r\n"), "  ");
    assert_eq!(single_line("a\rb\nc\r\nd"), "a b c  d");
    assert_eq!(single_line("\na\n"), " a ");
}

#[test]
fn other_characters_stay() {
    assert_eq!(single_line("注入\n失败：\t🦀\r"), "注入 失败：\t🦀 ");
    assert_eq!(single_line("\u{85}\u{2028}\u{b}"), "\u{85}\u{2028}\u{b}");
    let mixed = "é\nü\r\n漢\n🦀";
    assert_eq!(single_line(mixed), mixed.replace(['\r', '\n'], " "));
}

#[test]
fn texts_are_joined_in_order() {
    assert_eq!(joined("first", "second"), "firstsecond");
    assert_eq!(joined("", "second"), "second");
    assert_eq!(joined("first", ""), "first");
}

#[test]
fn last_bytes_are_kept() {
    assert_eq!(keep_last_bytes("abc".to_string(), 5), "abc");
    assert_eq!(keep_last_bytes("abc".to_string(), 3), "abc");
    assert_eq!(keep_last_bytes("abc".to_string(), 2), "bc");
    assert_eq!(keep_last_bytes("abc".to_string(), 0), "");
    assert_eq!(keep_last_bytes("aé".to_string(), 2), "é");
}

#[test]
fn cuts_are_judged_by_characters() {
    assert!(cut_is_clean("aé", 2));
    assert!(!cut_is_clean("aé", 1));
    assert!(cut_is_clean("aé", 3));
    assert!(cut_is_clean("aé", 9));
    assert!(cut_is_clean("aé", 0));
    assert!(cut_is_clean("", 0));
}
