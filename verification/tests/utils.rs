use soupbin_feed::error::ParseError;
use soupbin_feed::utils::{check_len, parse_boolean};

#[test]
fn test_check_len() {
    let data = b"ABCD";
    assert!(check_len(data, 4).is_ok());
    assert!(check_len(data, 5).is_err());
}

#[test]
fn test_parse_boolean_variants() {
    assert!(matches!(parse_boolean(&0), Ok(false)));
    assert!(matches!(parse_boolean(&1), Ok(true)));
    assert!(matches!(parse_boolean(&2), Ok(false)));
    assert!(parse_boolean(&3).is_err());
    assert!(parse_boolean(&255).is_err());
}

#[test]
fn check_len_says_how_many_bytes_are_missing() {
    assert!(matches!(
        check_len(b"AB", 7),
        Err(ParseError::Incomplete { needed: Some(5) })
    ));
    assert!(check_len(b"", 0).is_ok());
    assert!(matches!(
        check_len(b"", 1),
        Err(ParseError::Incomplete { needed: Some(1) })
    ));
    assert!(matches!(parse_boolean(&3), Err(ParseError::InvalidValue)));
}
