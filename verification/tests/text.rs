use morphz_web::text::{
    ascii_lowercase, byte_count, decimal_text, find, has_prefix, has_suffix, join, join_parts,
    parse_u64, replacen_first, same, signed_decimal_text, split_on, strip_prefix, take_chars,
    text_set, trim,
};

#[test]
fn texts_are_trimmed_at_both_ends() {
    assert_eq!(trim("  a b\n"), "a b");
    assert_eq!(trim("\u{3000}wide\u{a0}"), "wide");
    assert_eq!(trim(" \t "), "");
}

#[test]
fn numbers_are_written_and_read_in_decimal() {
    assert_eq!(decimal_text(0), "0");
    assert_eq!(decimal_text(u64::MAX), "18446744073709551615");
    assert_eq!(signed_decimal_text(i64::MIN), "-9223372036854775808");
    assert_eq!(signed_decimal_text(42), "42");
    assert_eq!(parse_u64("18446744073709551615"), Some(u64::MAX));
    assert_eq!(parse_u64("18446744073709551616"), None);
    assert_eq!(parse_u64("+7"), Some(7));
    assert_eq!(parse_u64("-7"), None);
    assert_eq!(parse_u64(""), None);
    assert_eq!(parse_u64("7a"), None);
}

#[test]
fn texts_are_split_and_joined() {
    assert_eq!(split_on("a/b//c", '/'), vec!["a", "b", "", "c"]);
    assert_eq!(split_on("", '/'), vec![""]);
    assert_eq!(join_parts(&vec!["a".to_string(), "b".to_string()], ", "), "a, b");
    assert_eq!(join_parts(&Vec::new(), ", "), "");
    assert_eq!(join("a", "b"), "ab");
}

#[test]
fn texts_are_searched_by_characters() {
    assert_eq!(find("größer als", "als"), Some(7));
    assert_eq!(find("abc", "x"), None);
    assert_eq!(find("abc", ""), Some(0));
    assert_eq!(replacen_first("a-b-c", "-", "+"), "a+b-c");
    assert_eq!(replacen_first("abc", "x", "y"), "abc");
    assert!(has_prefix("/api/status", "/api/"));
    assert!(!has_prefix("/ap", "/api"));
    assert!(has_suffix("page.html", ".html"));
    assert_eq!(strip_prefix("Bearer t", "Bearer "), Some("t"));
    assert_eq!(strip_prefix("Basic t", "Bearer "), None);
}

#[test]
fn texts_are_measured_in_characters_and_in_bytes() {
    assert_eq!(take_chars("größe", 3), "grö");
    assert_eq!(take_chars("ab", 3), "ab");
    assert_eq!(byte_count("größe"), 7);
    assert!(same("größe", "größe"));
    assert!(!same("a", "A"));
    assert_eq!(ascii_lowercase("ABC-Ö"), "abc-Ö");
}

#[test]
fn text_sets_hold_what_they_are_made_of() {
    let set = text_set(&vec!["a".to_string(), "b".to_string(), "a".to_string()]);
    assert!(set.contains("a"));
    assert!(set.contains("b"));
    assert!(!set.contains("c"));
}
