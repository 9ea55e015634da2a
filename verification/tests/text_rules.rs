use rustroom::text::{decimal_text, has_prefix, is_blank, is_whitespace_char, same_text};

#[test]
fn prefixes() {
    assert!(has_prefix("file:///a.png", "file://"));
    assert!(has_prefix("abc", ""));
    assert!(!has_prefix("fil", "file://"));
    assert!(!has_prefix("File://x", "file://"));
    assert!(has_prefix("ünïcode", "ün"));
}

#[test]
fn same_text_compares_all_chars() {
    assert!(same_text("MakerNote", "MakerNote"));
    assert!(!same_text("MakerNote", "MakerNotes"));
    assert!(!same_text("makerNote", "MakerNote"));
    assert!(same_text("", ""));
}

#[test]
fn decimal_numerals() {
    assert_eq!(decimal_text(0), "0");
    assert_eq!(decimal_text(7), "7");
    assert_eq!(decimal_text(-120), "-120");
    assert_eq!(decimal_text(1700000000123), "1700000000123");
    assert_eq!(decimal_text(i64::MAX), i64::MAX.to_string());
    assert_eq!(decimal_text(i64::MIN), i64::MIN.to_string());
}

#[test]
fn whitespace_matches_std() {
    for u in 0u32..0x3100 {
        if let Some(c) = char::from_u32(u) {
            assert_eq!(is_whitespace_char(c), c.is_whitespace(), "at {:x}", u);
        }
    }
}

#[test]
fn blank_is_trimmed_empty() {
    for s in ["", " ", " \t\n", "\u{3000}\u{a0}", " a ", "x", "\u{200b}"] {
        assert_eq!(is_blank(s), s.trim().is_empty(), "{:?}", s);
    }
}
