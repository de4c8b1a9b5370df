use polars_rb_io::text::{contains, first_byte, first_byte_if_any};

#[test]
fn contains_finds_inner_text() {
    assert!(contains("a successful parse invalid data here", "successful parse invalid data"));
    assert!(contains("abc", "abc"));
    assert!(contains("abc", "c"));
}

#[test]
fn contains_rejects_absent_text() {
    assert!(!contains("successful parse", "successful parse invalid data"));
    assert!(!contains("abd", "abc"));
    assert!(!contains("", "a"));
}

#[test]
fn contains_empty_needle() {
    assert!(contains("", ""));
    assert!(contains("xyz", ""));
}

#[test]
fn contains_multibyte() {
    assert!(contains("größe", "öß"));
    assert!(!contains("größe", "ss"));
}

#[test]
fn first_byte_of_separator() {
    assert_eq!(first_byte(","), b',');
    assert_eq!(first_byte(";;"), b';');
    assert_eq!(first_byte("é"), 0xC3);
}

#[test]
fn first_byte_if_any_cases() {
    assert_eq!(first_byte_if_any(""), None);
    assert_eq!(first_byte_if_any("\"x"), Some(b'"'));
}
