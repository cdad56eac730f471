use axe::order::{sort_descending, text_precedes};
use axe::text::{
    ascii_uppercase, decimal_text, fold_whitespace, is_whitespace, starts_with,
    strip_suffix, two_digit_text,
};

#[test]
fn numbers_are_written_in_decimal() {
    assert_eq!(decimal_text(0), "0");
    assert_eq!(decimal_text(10), "10");
    assert_eq!(decimal_text(u64::MAX), u64::MAX.to_string());
    assert_eq!(two_digit_text(5), "05");
    assert_eq!(two_digit_text(59), "59");
    assert_eq!(two_digit_text(100), "100");
}

#[test]
fn texts_sort_as_strings_do() {
    let words = ["", "a", "ab", "b", "é", "z", "🦀", "axe-10", "axe-9"];
    for a in words {
        for b in words {
            assert_eq!(text_precedes(a, b), a < b, "{a:?} {b:?}");
        }
    }
    let mut expected: Vec<String> = words.iter().map(|w| w.to_string()).collect();
    let sorted = sort_descending(expected.clone());
    expected.sort_unstable();
    expected.reverse();
    assert_eq!(sorted, expected);
}

#[test]
fn white_space_is_what_unicode_has_it_to_be() {
    for c in '\u{0}'..='\u{3fff}' {
        assert_eq!(is_whitespace(c), c.is_whitespace(), "{c:?}");
    }
    for c in ['\u{feff}', '\u{200b}', '\u{10ffff}'] {
        assert_eq!(is_whitespace(c), c.is_whitespace(), "{c:?}");
    }
    assert_eq!(fold_whitespace("  a \n\t b\u{3000}c "), "a b c");
}

#[test]
fn prefixes_and_suffixes_are_found() {
    assert!(starts_with("axe-1", "axe-"));
    assert!(starts_with("axe", ""));
    assert!(!starts_with("ax", "axe"));
    assert_eq!(strip_suffix("a.json", ".json"), Some("a".to_owned()));
    assert_eq!(strip_suffix(".json", ".json"), Some("".to_owned()));
    assert_eq!(strip_suffix("json", ".json"), None);
}

#[test]
fn ascii_letters_are_raised() {
    assert_eq!(ascii_uppercase("warm-up é z"), "WARM-UP é Z");
}
