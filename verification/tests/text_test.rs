use eyeclipse::text::{chars_of, contains_str, ends_with_str, format_decimal, join_char, split_char, trim_str};

#[test]
fn split_and_join_are_inverse() {
    let parts = split_char("a,,b,", ',');
    assert_eq!(parts, vec!["a", "", "b", ""]);
    assert_eq!(join_char(&parts, ','), "a,,b,");
}

#[test]
fn trim_removes_unicode_whitespace() {
    assert_eq!(trim_str(" \t hi there\u{3000}\r\n"), "hi there");
    assert_eq!(trim_str("   "), "");
    assert_eq!(trim_str("x"), "x");
}

#[test]
fn substring_and_suffix() {
    assert!(contains_str("List of available", "List of"));
    assert!(!contains_str("List o", "List of"));
    assert!(contains_str("abc", ""));
    assert!(ends_with_str("key:fx", ":fx"));
    assert!(!ends_with_str("fx", ":fx"));
}

#[test]
fn decimals_and_chars() {
    assert_eq!(format_decimal(0), "0");
    assert_eq!(format_decimal(1234567), "1234567");
    assert_eq!(chars_of("日本"), vec!['日', '本']);
}
