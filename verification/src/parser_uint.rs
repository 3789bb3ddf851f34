use vstd::prelude::*;
use crate::error::{ParseError, ParseResult};
use crate::utils::check_len;

verus! {

/// The number that the first two bytes of `b` hold, big end first.
pub open spec fn be_u16(b: Seq<u8>) -> int {
    b[0] as int * 0x100 + b[1] as int
}

/// The number that the first four bytes of `b` hold, big end first.
pub open spec fn be_u32(b: Seq<u8>) -> int {
    b[0] as int * 0x100_0000 + b[1] as int * 0x1_0000 + b[2] as int * 0x100 + b[3] as int
}

/// The number that the first eight bytes of `b` hold, big end first.
pub open spec fn be_u64(b: Seq<u8>) -> int {
    be_u32(b) * 0x1_0000_0000 + be_u32(b.skip(4))
}

/// What decoding yields when `b` is shorter than the `expected` bytes.
pub open spec fn too_short(b: Seq<u8>, expected: int) -> ParseError {
    ParseError::Incomplete { needed: Some((expected - b.len()) as usize) }
}

/// Decodes an unsigned byte.
#[inline(always)]
pub fn parse_u8(b: &[u8]) -> (result: ParseResult<u8>)
    ensures
        b@.len() >= 1 ==> result == Ok::<u8, ParseError>(b@[0]),
        b@.len() < 1 ==> result == Err::<u8, ParseError>(too_short(b@, 1)),
{
    check_len(b, 1)?;
    Ok(b[0])
}

/// Decodes an unsigned 16-bit number, big end first.
#[inline(always)]
pub fn parse_u16(b: &[u8]) -> (result: ParseResult<u16>)
    ensures
        b@.len() >= 2 ==> result == Ok::<u16, ParseError>(be_u16(b@) as u16),
        b@.len() < 2 ==> result == Err::<u16, ParseError>(too_short(b@, 2)),
{
    check_len(b, 2)?;
    Ok((b[0] as u16) * 0x100 + (b[1] as u16))
}

/// Decodes an unsigned 32-bit number, big end first.
#[inline(always)]
pub fn parse_u32(b: &[u8]) -> (result: ParseResult<u32>)
    ensures
        b@.len() >= 4 ==> result == Ok::<u32, ParseError>(be_u32(b@) as u32),
        b@.len() < 4 ==> result == Err::<u32, ParseError>(too_short(b@, 4)),
{
    check_len(b, 4)?;
    Ok(
        (b[0] as u32) * 0x100_0000 + (b[1] as u32) * 0x1_0000 + (b[2] as u32) * 0x100 + (
        b[3] as u32),
    )
}

/// Decodes an unsigned 64-bit number, big end first.
#[inline(always)]
pub fn parse_u64(b: &[u8]) -> (result: ParseResult<u64>)
    ensures
        b@.len() >= 8 ==> result == Ok::<u64, ParseError>(be_u64(b@) as u64),
        b@.len() < 8 ==> result == Err::<u64, ParseError>(too_short(b@, 8)),
{
    check_len(b, 8)?;
    let high: u64 = (b[0] as u64) * 0x100_0000 + (b[1] as u64) * 0x1_0000 + (b[2] as u64) * 0x100
        + (b[3] as u64);
    let low: u64 = (b[4] as u64) * 0x100_0000 + (b[5] as u64) * 0x1_0000 + (b[6] as u64) * 0x100
        + (b[7] as u64);
    Ok(high * 0x1_0000_0000 + low)
}

/// Decodes an unsigned 16-bit number, big end first, without a check of
/// the length: the caller sees to it that there are two bytes.
#[inline(always)]
pub fn parse_u16_unsafe(b: &[u8]) -> (value: u16)
    requires
        b@.len() >= 2,
    ensures
        value == be_u16(b@),
{
    (b[0] as u16) * 0x100 + (b[1] as u16)
}

/// Decodes an unsigned 32-bit number, big end first, without a check of
/// the length: the caller sees to it that there are four bytes.
#[inline(always)]
pub fn parse_u32_unsafe(b: &[u8]) -> (value: u32)
    requires
        b@.len() >= 4,
    ensures
        value == be_u32(b@),
{
    (b[0] as u32) * 0x100_0000 + (b[1] as u32) * 0x1_0000 + (b[2] as u32) * 0x100 + (b[3] as u32)
}

/// Decodes an unsigned 64-bit number, big end first, without a check of
/// the length: the caller sees to it that there are eight bytes.
#[inline(always)]
pub fn parse_u64_unsafe(b: &[u8]) -> (value: u64)
    requires
        b@.len() >= 8,
    ensures
        value == be_u64(b@),
{
    let high: u64 = (b[0] as u64) * 0x100_0000 + (b[1] as u64) * 0x1_0000 + (b[2] as u64) * 0x100
        + (b[3] as u64);
    let low: u64 = (b[4] as u64) * 0x100_0000 + (b[5] as u64) * 0x1_0000 + (b[6] as u64) * 0x100
        + (b[7] as u64);
    high * 0x1_0000_0000 + low
}

} // verus!
