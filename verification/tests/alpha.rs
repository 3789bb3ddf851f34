use soupbin_feed::error::ParseError;
use soupbin_feed::string::{Alpha10, Alpha3, Alpha4, Alpha8, TooLong};

#[test]
fn test_alpha_new() {
    let bytes = *b"DATA";
    let alpha = Alpha4::new(bytes);
    assert_eq!(alpha.as_bytes(), b"DATA");
    assert_eq!(alpha.as_str(), "DATA");
    assert_eq!(alpha.as_trimmed_str(), "DATA");
}

#[test]
fn test_alpha_parse_valid() {
    let bytes = b"ABCD";
    let alpha = Alpha4::parse(bytes).unwrap();
    assert_eq!(alpha.as_bytes(), b"ABCD");
    assert_eq!(alpha.as_str(), "ABCD");
    assert_eq!(alpha.as_trimmed_str(), "ABCD");
}

#[test]
fn test_alpha_parse_short_buffer() {
    let bytes = b"ABC"; // only 3 bytes, need 4
    let result = Alpha4::parse(bytes).err().unwrap();
    assert!(matches!(result, ParseError::Incomplete { needed: Some(1) }));
}

#[test]
fn test_alpha_trim_trailing_spaces() {
    let bytes = b"HI  ";
    let alpha = Alpha4::parse(bytes).unwrap();
    assert_eq!(alpha.as_str(), "HI  ");
    assert_eq!(alpha.as_trimmed_str(), "HI");
}

#[test]
fn test_alpha_as_str_includes_spaces() {
    let bytes = b"XY Z";
    let alpha = Alpha4::parse(bytes).unwrap();
    assert_eq!(alpha.as_str(), "XY Z");
    assert_eq!(alpha.as_trimmed_str(), "XY Z"); // no trailing spaces
}

#[test]
fn test_alpha_display_and_debug() {
    let bytes = b"TEST";
    let alpha = Alpha4::parse(bytes).unwrap();
    assert_eq!(alpha.to_string(), "TEST");
    assert_eq!(alpha.debug_string(), "Alpha(\"TEST\")");
}

#[test]
fn test_alpha_with_spaces_only() {
    let bytes = b"    ";
    let alpha = Alpha4::parse(bytes).unwrap();
    assert_eq!(alpha.as_trimmed_str(), "");
    assert_eq!(alpha.to_string(), "");
}

#[test]
fn test_alpha_larger_sizes() {
    let bytes = b"ABCDEFGH";
    let alpha8 = Alpha8::parse(bytes).unwrap();
    assert_eq!(alpha8.as_trimmed_str(), "ABCDEFGH");

    let bytes10 = b"HELLOWORLD";
    let alpha10 = Alpha10::parse(bytes10).unwrap();
    assert_eq!(alpha10.as_trimmed_str(), "HELLOWORLD");
}

#[test]
fn test_alpha_empty() {
    let bytes = b"    ";
    let alpha = Alpha4::parse(bytes).unwrap();
    assert!(alpha.is_empty());
    assert_eq!(alpha.len(), 0);
}

#[test]
fn test_alpha_partial_spaces() {
    let bytes = b"AB  ";
    let alpha = Alpha4::parse(bytes).unwrap();
    assert_eq!(alpha.as_trimmed_str(), "AB");
    assert_eq!(alpha.len(), 2);
}

#[test]
fn test_alpha_full_length() {
    let bytes = b"ABCD";
    let alpha = Alpha4::parse(bytes).unwrap();
    assert_eq!(alpha.len(), 4);
}

#[test]
fn test_alpha_as_ref() {
    let bytes = *b"REF ";
    let alpha = Alpha4::new(bytes);
    let s: &str = alpha.as_ref();
    assert_eq!(s, "REF");
}

#[test]
fn alpha_parse_takes_the_front_and_keeps_inner_spaces() {
    let alpha = Alpha3::parse(b"A BCDE").unwrap();
    assert_eq!(alpha.as_bytes(), b"A B");
    assert_eq!(alpha.len(), 3);
    let alpha = Alpha4::parse(b" A  ").unwrap();
    assert_eq!(alpha.as_trimmed_str(), " A");
    assert_eq!(alpha.len(), 2);
    assert!(!alpha.is_empty());
    assert_eq!(alpha.debug_string(), "Alpha(\" A\")");
}

#[test]
fn alpha_values_compare_by_their_bytes() {
    let a = Alpha4::new(*b"AB  ");
    let b = Alpha4::new(*b"AC  ");
    assert!(a < b);
    assert!(a == Alpha4::parse(b"AB  ").unwrap());
}

#[test]
fn a_text_fills_a_field_from_its_start() {
    let alpha = Alpha4::from_text("AB").unwrap();
    assert_eq!(alpha.as_bytes(), b"AB  ");
    assert_eq!(alpha.len(), 2);
    assert_eq!(Alpha4::from_text("").unwrap().as_bytes(), b"    ");
    assert_eq!(Alpha4::from_text("ABCD").unwrap().as_bytes(), b"ABCD");
    let error = Alpha4::from_text("TOOLONG").err().unwrap();
    assert_eq!(error, TooLong { max: 4, got: 7 });
    assert_eq!(error.to_string(), "expected at most length 4, got 7");
    // The length is counted in bytes.
    assert_eq!(
        Alpha3::from_text("\u{e9}\u{e9}").err().unwrap(),
        TooLong { max: 3, got: 4 }
    );
}
