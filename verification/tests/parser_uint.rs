use soupbin_feed::error::ParseError;
use soupbin_feed::parser_uint::{
    parse_u16, parse_u16_unsafe, parse_u32, parse_u32_unsafe, parse_u64, parse_u64_unsafe,
    parse_u8,
};

#[test]
fn test_parse_u8() {
    assert_eq!(parse_u8(&[0x7F]).unwrap(), 127);
    assert_eq!(parse_u8(&[0xFF]).unwrap(), 255);
}

#[test]
fn test_parse_u16() {
    assert_eq!(parse_u16(&[0x12, 0x34]).unwrap(), 0x1234);
    assert_eq!(parse_u16(&[0xFF, 0xFE]).unwrap(), 0xFFFE);
}

#[test]
fn test_parse_u32() {
    assert_eq!(parse_u32(&[0x00, 0x00, 0x01, 0x00]).unwrap(), 256);
    assert_eq!(parse_u32(&[0xFF, 0xFF, 0xFF, 0xFF]).unwrap(), 0xFFFFFFFF);
}

#[test]
fn test_parse_u64() {
    assert_eq!(parse_u64(&[0, 0, 0, 0, 0, 0, 0, 1]).unwrap(), 1);
    assert_eq!(
        parse_u64(&[0xFF, 0xFF, 0xFF, 0xFF, 0xFF, 0xFF, 0xFF, 0xFF]).unwrap(),
        0xFFFFFFFFFFFFFFFF
    );
}

#[test]
fn test_parse_u16_unsafe() {
    let bytes = [0x12, 0x34];
    let val = parse_u16_unsafe(&bytes);
    assert_eq!(val, 0x1234);
}

#[test]
fn test_parse_u32_unsafe() {
    let bytes = [0x00, 0x00, 0x01, 0x00];
    let val = parse_u32_unsafe(&bytes);
    assert_eq!(val, 256);
}

#[test]
fn test_parse_u64_unsafe() {
    let bytes = [0, 0, 0, 0, 0, 0, 0, 1];
    let val = parse_u64_unsafe(&bytes);
    assert_eq!(val, 1);
}

#[test]
fn unsigned_parsers_agree_with_std_and_read_only_the_front() {
    let bytes = [0x01, 0x23, 0x45, 0x67, 0x89, 0xAB, 0xCD, 0xEF, 0x55];
    assert_eq!(parse_u8(&bytes).unwrap(), 0x01);
    assert_eq!(parse_u16(&bytes).unwrap(), u16::from_be_bytes([0x01, 0x23]));
    assert_eq!(parse_u32(&bytes).unwrap(), u32::from_be_bytes([0x01, 0x23, 0x45, 0x67]));
    assert_eq!(parse_u64(&bytes).unwrap(), 0x0123_4567_89AB_CDEF);
    assert_eq!(parse_u64_unsafe(&bytes), 0x0123_4567_89AB_CDEF);
}

#[test]
fn unsigned_parsers_say_how_many_bytes_are_missing() {
    assert!(matches!(parse_u8(&[]), Err(ParseError::Incomplete { needed: Some(1) })));
    assert!(matches!(parse_u16(&[1]), Err(ParseError::Incomplete { needed: Some(1) })));
    assert!(matches!(parse_u32(&[1]), Err(ParseError::Incomplete { needed: Some(3) })));
    assert!(matches!(parse_u64(&[1, 2, 3]), Err(ParseError::Incomplete { needed: Some(5) })));
}
