use terra_rust_bot::text::{parse_digits_u64, str_contains, str_eq, strip_non_digits, strip_quote_chars, u64_to_string};

#[test]
fn strips_quoted_cursor_to_digits() {
    // A pagination `next` field rendered as a JSON string keeps its
    // quotes; stripping leaves the digits.
    assert_eq!(strip_non_digits("\"123\""), "123");
}

#[test]
fn strips_null_cursor_to_empty() {
    // `next: null` renders as the text "null": no digits survive,
    // which signals pagination exhaustion.
    assert_eq!(strip_non_digits("null"), "");
}

#[test]
fn strips_mixed_text() {
    assert_eq!(strip_non_digits("\"250657uusd\""), "250657");
    assert_eq!(strip_non_digits(""), "");
    assert_eq!(strip_non_digits("abc"), "");
    assert_eq!(strip_non_digits("0"), "0");
}

#[test]
fn strips_quote_chars_only() {
    assert_eq!(strip_quote_chars("\"2021-01-01T00:00:00Z\""), "2021-01-01T00:00:00Z");
    assert_eq!(strip_quote_chars("no quotes"), "no quotes");
}

#[test]
fn parses_digit_strings() {
    assert_eq!(parse_digits_u64("0"), Some(0));
    assert_eq!(parse_digits_u64("5757663"), Some(5757663));
    assert_eq!(parse_digits_u64("18446744073709551615"), Some(u64::MAX));
    assert_eq!(parse_digits_u64("18446744073709551616"), None);
    assert_eq!(parse_digits_u64(""), None);
    assert_eq!(parse_digits_u64("12a"), None);
    assert_eq!(parse_digits_u64("007"), Some(7));
}

#[test]
fn renders_u64() {
    assert_eq!(u64_to_string(0), "0");
    assert_eq!(u64_to_string(10), "10");
    assert_eq!(u64_to_string(5757663), "5757663");
    assert_eq!(u64_to_string(u64::MAX), "18446744073709551615");
}

#[test]
fn substring_search() {
    assert!(str_contains("deposit_stable mint_amount", "mint_amount"));
    assert!(str_contains("abc", ""));
    assert!(str_contains("", ""));
    assert!(!str_contains("", "a"));
    assert!(!str_contains("mint_amoun", "mint_amount"));
    assert!(str_contains("\"claim_amount\"", "claim_amount"));
    assert!(!str_contains("claim_amoXnt", "claim_amount"));
}

#[test]
fn string_equality() {
    assert!(str_eq("wasm", "wasm"));
    assert!(!str_eq("wasm", "wasm2"));
    assert!(!str_eq("wasm", "Wasm"));
    assert!(str_eq("", ""));
}
