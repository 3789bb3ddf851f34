use soupbin_feed::error::{ParseError, ParseResult};

#[test]
fn test_parse_error_display() {
    let err = ParseError::InvalidChar { value: 0x41 };
    assert!(err.to_string().contains("invalid character: 0x41"));

    let err = ParseError::InvalidTimestamp { timestamp: "TS" };
    assert!(err.to_string().contains("invalid timestamp: TS"));

    let err = ParseError::Incomplete { needed: Some(5) };
    assert!(err.to_string().contains("incomplete data"));
}

#[test]
fn test_parse_error_with_position() {
    let err = ParseError::InvalidChar { value: 0xFF }.with_position(42);
    assert!(matches!(
        err,
        ParseError::InvalidCharAt {
            value: 0xFF,
            position: 42
        }
    ));
    assert!(err.to_string().contains("position 42"));

    let err = ParseError::InvalidDate.with_position(100);
    assert!(matches!(err, ParseError::InvalidDateAt { position: 100 }));
    assert!(err.to_string().contains("position 100"));
}

#[test]
fn test_parse_result_ok() {
    fn returns_ok() -> ParseResult<i32> {
        Ok(42)
    }
    let result = returns_ok();
    assert!(result.is_ok());
    assert_eq!(result.unwrap(), 42);
}

#[test]
fn test_parse_result_err() {
    fn returns_err() -> ParseResult<i32> {
        Err(ParseError::InvalidValue)
    }
    let result = returns_err();
    assert!(result.is_err());
    assert!(matches!(result, Err(ParseError::InvalidValue)));
}

#[test]
fn test_error_trait() {
    // The error describes itself both as a message and for debugging.
    let err = ParseError::InvalidChar { value: 0x00 };
    assert_eq!(err.to_string(), "invalid character: 0x00");
    assert_eq!(format!("{:?}", err), "InvalidChar { value: 0 }");
    assert!(!err.has_source());
}

#[test]
fn test_from_conversions() {
    let io_err = std::io::Error::new(std::io::ErrorKind::NotFound, "test");
    let err: ParseError = io_err.into();
    assert!(matches!(err, ParseError::Io { .. }));
}

#[test]
fn test_custom_error() {
    let err = ParseError::custom("something went wrong");
    assert!(err.to_string().contains("something went wrong"));
}

#[test]
fn parse_error_messages_are_exact() {
    assert_eq!(
        ParseError::InvalidCharAt { value: 0x0a, position: 7 }.to_string(),
        "invalid character: 0x0a at position 7"
    );
    assert_eq!(ParseError::InvalidDate.to_string(), "invalid date");
    assert_eq!(
        ParseError::InvalidDateAt { position: 3 }.to_string(),
        "invalid date at position 3"
    );
    assert_eq!(
        ParseError::InvalidTimestampAt { timestamp: "TS", position: 12 }.to_string(),
        "invalid timestamp: TS at position 12"
    );
    assert_eq!(
        ParseError::InvalidMessageType { value: 0x41 }.to_string(),
        "invalid message type: 0x41 ('A')"
    );
    assert_eq!(
        ParseError::InvalidMessageTypeAt { value: 0x5a, position: 1 }.to_string(),
        "invalid message type: 0x5a ('Z') at position 1"
    );
    assert_eq!(ParseError::InvalidValue.to_string(), "invalid value");
    assert_eq!(
        ParseError::InvalidValueAt { position: 0 }.to_string(),
        "invalid value at position 0"
    );
    assert_eq!(
        ParseError::InvalidEnumValue { value: 0x1f }.to_string(),
        "invalid enum value: 0x001f"
    );
    assert_eq!(
        ParseError::InvalidEnumValueAt { value: 0xabcd, position: 9 }.to_string(),
        "invalid enum value: 0xabcd at position 9"
    );
    assert_eq!(
        ParseError::InvalidEnumString { invalid: vec![1, 20, 255] }.to_string(),
        "invalid enum string: [1, 20, 255]"
    );
    assert_eq!(
        ParseError::InvalidEnumStringAt { invalid: vec![], position: 4 }.to_string(),
        "invalid enum string: [] at position 4"
    );
    assert_eq!(
        ParseError::Incomplete { needed: Some(5) }.to_string(),
        "incomplete data (needed: 5 bytes)"
    );
    assert_eq!(
        ParseError::Incomplete { needed: None }.to_string(),
        "incomplete data (needed: unknown bytes)"
    );
    assert_eq!(
        ParseError::IncompleteAt { needed: Some(2), position: 10 }.to_string(),
        "incomplete data at position 10 (needed: 2 bytes)"
    );
}

#[test]
fn parse_error_with_source_shows_it() {
    let io_err = std::io::Error::new(std::io::ErrorKind::UnexpectedEof, "ended early");
    let err = ParseError::from(io_err);
    assert_eq!(err.to_string(), "I/O error: ended early");

    let bytes: Vec<u8> = vec![0xFF, 0xFF];
    let utf8_err = std::str::from_utf8(&bytes).unwrap_err();
    let err = ParseError::from(utf8_err);
    assert!(err.to_string().starts_with("UTF-8 error: "));
    assert!(err.to_string().len() > "UTF-8 error: ".len());
}

#[test]
fn with_position_keeps_what_has_a_position_or_takes_none() {
    let err = ParseError::InvalidCharAt { value: 1, position: 2 }.with_position(9);
    assert!(matches!(err, ParseError::InvalidCharAt { value: 1, position: 2 }));

    let err = ParseError::custom("plain").with_position(9);
    assert_eq!(err.to_string(), "plain");

    let err = ParseError::InvalidTimestamp { timestamp: "T" }.with_position(1);
    assert!(matches!(err, ParseError::InvalidTimestampAt { timestamp: "T", position: 1 }));
    let err = ParseError::InvalidMessageType { value: 3 }.with_position(1);
    assert!(matches!(err, ParseError::InvalidMessageTypeAt { value: 3, position: 1 }));
    let err = ParseError::InvalidValue.with_position(1);
    assert!(matches!(err, ParseError::InvalidValueAt { position: 1 }));
    let err = ParseError::InvalidEnumValue { value: 3 }.with_position(1);
    assert!(matches!(err, ParseError::InvalidEnumValueAt { value: 3, position: 1 }));
    let err = ParseError::InvalidEnumString { invalid: vec![7] }.with_position(1);
    assert!(matches!(err, ParseError::InvalidEnumStringAt { position: 1, .. }));
    let err = ParseError::Incomplete { needed: None }.with_position(1);
    assert!(matches!(err, ParseError::IncompleteAt { needed: None, position: 1 }));
}
