use codex_gpui_desktop::model::numbered_text;
use codex_gpui_desktop::text::{
    blank, decimal_text, hex_text, integer_text, same_text, white,
};

#[test]
fn numbers_are_written_as_std_writes_them() {
    for n in [0u64, 1, 9, 10, 99, 100, 12345, u64::MAX - 1, u64::MAX] {
        assert_eq!(decimal_text(n), n.to_string());
    }
    for n in [0i64, 7, -1, -10, 42, i64::MAX, i64::MIN] {
        assert_eq!(integer_text(n), n.to_string());
    }
    assert_eq!(numbered_text("turn", 12), "turn-12");
}

#[test]
fn bytes_are_written_as_two_digits() {
    assert_eq!(hex_text(&[]), "");
    assert_eq!(hex_text(&[0, 9, 10, 15, 16, 255]), "00090a0f10ff");
}

#[test]
fn texts_are_compared_whole() {
    assert!(same_text("", ""));
    assert!(same_text("grüße", "grüße"));
    assert!(!same_text("a", "b"));
    assert!(!same_text("a", "aa"));
    assert!(!same_text("aa", "a"));
}

#[test]
fn white_space_is_what_std_calls_white_space() {
    for n in 0..=0x10ffffu32 {
        if let Some(c) = char::from_u32(n) {
            assert_eq!(white(c), c.is_whitespace());
        }
    }
}

#[test]
fn blank_texts_are_those_that_trim_to_nothing() {
    for text in ["", " ", "\n\t \u{a0}\u{3000}", "a", " a ", "\u{200b}"] {
        assert_eq!(blank(text), text.trim().is_empty());
    }
}

#[test]
fn an_identifier_tells_its_number() {
    assert_eq!(numbered_text("x-1", 2), "x-1-2");
    assert_ne!(numbered_text("x-1", 2), numbered_text("x", 12));
    assert_ne!(numbered_text("plan", 1), numbered_text("plan", 11));
}
