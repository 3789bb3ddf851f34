use vstd::prelude::*;
use crate::error::{ParseError, ParseResult};
use crate::parser_uint::{
    be_u16, be_u32, be_u64, parse_u16_unsafe, parse_u32_unsafe, parse_u64_unsafe, too_short,
};
use crate::utils::check_len;

verus! {

/// The signed number that the unsigned number `value` of `bits` bits stands
/// for in two's complement.
pub open spec fn twos_complement(value: int, bits: nat) -> int {
    if value < vstd::arithmetic::power2::pow2((bits - 1) as nat) {
        value
    } else {
        value - vstd::arithmetic::power2::pow2(bits)
    }
}

/// The powers of two at which the widths of the signed integers turn.
pub proof fn lemma_turning_points()
    ensures
        vstd::arithmetic::power2::pow2(7) == 0x80,
        vstd::arithmetic::power2::pow2(8) == 0x100,
        vstd::arithmetic::power2::pow2(15) == 0x8000,
        vstd::arithmetic::power2::pow2(16) == 0x1_0000,
        vstd::arithmetic::power2::pow2(31) == 0x8000_0000,
        vstd::arithmetic::power2::pow2(32) == 0x1_0000_0000,
        vstd::arithmetic::power2::pow2(63) == 0x8000_0000_0000_0000,
        vstd::arithmetic::power2::pow2(64) == 0x1_0000_0000_0000_0000,
{
    vstd::arithmetic::power2::lemma2_to64();
    vstd::arithmetic::power2::lemma2_to64_rest();
}

/// Decodes a signed byte.
#[inline(always)]
pub fn parse_i8(b: &[u8]) -> (result: ParseResult<i8>)
    ensures
        b@.len() >= 1 ==> result == Ok::<i8, ParseError>(twos_complement(b@[0] as int, 8) as i8),
        b@.len() < 1 ==> result == Err::<i8, ParseError>(too_short(b@, 1)),
{
    check_len(b, 1)?;
    proof {
        lemma_turning_points();
    }
    let value: u8 = b[0];
    if value < 0x80 {
        Ok(value as i8)
    } else {
        Ok((value as i16 - 0x100) as i8)
    }
}

/// Decodes a signed 16-bit number, big end first.
#[inline(always)]
pub fn parse_i16(b: &[u8]) -> (result: ParseResult<i16>)
    ensures
        b@.len() >= 2 ==> result == Ok::<i16, ParseError>(twos_complement(be_u16(b@), 16) as i16),
        b@.len() < 2 ==> result == Err::<i16, ParseError>(too_short(b@, 2)),
{
    check_len(b, 2)?;
    proof {
        lemma_turning_points();
    }
    let value: u16 = (b[0] as u16) * 0x100 + (b[1] as u16);
    if value < 0x8000 {
        Ok(value as i16)
    } else {
        Ok((value as i32 - 0x1_0000) as i16)
    }
}

/// Decodes a signed 32-bit number, big end first.
#[inline(always)]
pub fn parse_i32(b: &[u8]) -> (result: ParseResult<i32>)
    ensures
        b@.len() >= 4 ==> result == Ok::<i32, ParseError>(twos_complement(be_u32(b@), 32) as i32),
        b@.len() < 4 ==> result == Err::<i32, ParseError>(too_short(b@, 4)),
{
    check_len(b, 4)?;
    proof {
        lemma_turning_points();
    }
    let value: u32 = (b[0] as u32) * 0x100_0000 + (b[1] as u32) * 0x1_0000 + (b[2] as u32) * 0x100
        + (b[3] as u32);
    if value < 0x8000_0000 {
        Ok(value as i32)
    } else {
        Ok((value as i64 - 0x1_0000_0000) as i32)
    }
}

/// Decodes a signed 64-bit number, big end first.
#[inline(always)]
pub fn parse_i64(b: &[u8]) -> (result: ParseResult<i64>)
    ensures
        b@.len() >= 8 ==> result == Ok::<i64, ParseError>(twos_complement(be_u64(b@), 64) as i64),
        b@.len() < 8 ==> result == Err::<i64, ParseError>(too_short(b@, 8)),
{
    check_len(b, 8)?;
    proof {
        lemma_turning_points();
    }
    let high: u64 = (b[0] as u64) * 0x100_0000 + (b[1] as u64) * 0x1_0000 + (b[2] as u64) * 0x100
        + (b[3] as u64);
    let low: u64 = (b[4] as u64) * 0x100_0000 + (b[5] as u64) * 0x1_0000 + (b[6] as u64) * 0x100
        + (b[7] as u64);
    let value: u64 = high * 0x1_0000_0000 + low;
    if value < 0x8000_0000_0000_0000 {
        Ok(value as i64)
    } else {
        Ok((value as i128 - 0x1_0000_0000_0000_0000) as i64)
    }
}

/// Decodes a signed 16-bit number, big end first, without a check of the
/// length: the caller sees to it that there are two bytes.
#[inline(always)]
pub fn parse_i16_unsafe(b: &[u8]) -> (value: i16)
    requires
        b@.len() >= 2,
    ensures
        value == twos_complement(be_u16(b@), 16),
{
    proof {
        lemma_turning_points();
    }
    let value: u16 = parse_u16_unsafe(b);
    if value < 0x8000 {
        value as i16
    } else {
        (value as i32 - 0x1_0000) as i16
    }
}

/// Decodes a signed 32-bit number, big end first, without a check of the
/// length: the caller sees to it that there are four bytes.
#[inline(always)]
pub fn parse_i32_unsafe(b: &[u8]) -> (value: i32)
    requires
        b@.len() >= 4,
    ensures
        value == twos_complement(be_u32(b@), 32),
{
    proof {
        lemma_turning_points();
    }
    let value: u32 = parse_u32_unsafe(b);
    if value < 0x8000_0000 {
        value as i32
    } else {
        (value as i64 - 0x1_0000_0000) as i32
    }
}

/// Decodes a signed 64-bit number, big end first, without a check of the
/// length: the caller sees to it that there are eight bytes.
#[inline(always)]
pub fn parse_i64_unsafe(b: &[u8]) -> (value: i64)
    requires
        b@.len() >= 8,
    ensures
        value == twos_complement(be_u64(b@), 64),
{
    proof {
        lemma_turning_points();
    }
    let value: u64 = parse_u64_unsafe(b);
    if value < 0x8000_0000_0000_0000 {
        value as i64
    } else {
        (value as i128 - 0x1_0000_0000_0000_0000) as i64
    }
}

} // verus!
