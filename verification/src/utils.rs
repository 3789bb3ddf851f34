use vstd::prelude::*;
use crate::error::{ParseError, ParseResult};

verus! {

/// Checks that `b` holds at least `expected` bytes; the error says how many
/// are missing.
#[inline(always)]
pub fn check_len(b: &[u8], expected: usize) -> (result: ParseResult<()>)
    ensures
        b@.len() >= expected ==> result is Ok,
        b@.len() < expected ==> result == Err::<(), ParseError>(
            ParseError::Incomplete { needed: Some((expected - b@.len()) as usize) },
        ),
{
    let byte_len = b.len();
    if byte_len < expected {
        Err(ParseError::Incomplete { needed: Some(expected - byte_len) })
    } else {
        Ok(())
    }
}

/// The truth value that a byte stands for: 1 for true, 0 and 2 for false.
pub open spec fn boolean_of(b: u8) -> Option<bool> {
    if b == 1 {
        Some(true)
    } else if b == 0 || b == 2 {
        Some(false)
    } else {
        None
    }
}

/// Decodes a truth value; every byte above 2 is an invalid value.
#[inline(always)]
pub fn parse_boolean(b: &u8) -> (result: ParseResult<bool>)
    ensures
        match boolean_of(*b) {
            Some(value) => result == Ok::<bool, ParseError>(value),
            None => result == Err::<bool, ParseError>(ParseError::InvalidValue),
        },
{
    let value: u8 = *b;
    if value == 0 {
        Ok(false)
    } else if value == 1 {
        Ok(true)
    } else if value == 2 {
        Ok(false)
    } else {
        Err(ParseError::InvalidValue)
    }
}

} // verus!
