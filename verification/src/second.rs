use vstd::prelude::*;
use vstd::std_specs::convert::FromSpecImpl;
use crate::error::{ParseError, ParseResult};
use crate::nanosecond::{nanoseconds_of, UnixNanoseconds};
use crate::parser_uint::{be_u32, be_u64, parse_u32, parse_u64, too_short};
use crate::time::{
    as_signed_seconds, is_moment, rfc3339_at_offset, rfc3339_string, signed_seconds,
    JAKARTA_OFFSET_SECS, NANO_PER_SEC,
};

verus! {

/// A Unix timestamp in seconds.
#[derive(Debug, Clone, Copy, PartialEq, Eq, PartialOrd, Ord, Structural)]
pub struct UnixSeconds(pub u64);

impl From<UnixNanoseconds> for UnixSeconds {
    /// The whole seconds of a timestamp in nanoseconds.
    #[inline]
    fn from(ns: UnixNanoseconds) -> (secs: Self) {
        UnixSeconds(ns.0 / NANO_PER_SEC)
    }
}

impl FromSpecImpl<UnixNanoseconds> for UnixSeconds {
    open spec fn obeys_from_spec() -> bool {
        true
    }

    open spec fn from_spec(ns: UnixNanoseconds) -> Self {
        UnixSeconds(ns.0 / NANO_PER_SEC)
    }
}

impl From<u32> for UnixSeconds {
    #[inline]
    fn from(secs: u32) -> (seconds: Self) {
        UnixSeconds(secs as u64)
    }
}

impl FromSpecImpl<u32> for UnixSeconds {
    open spec fn obeys_from_spec() -> bool {
        true
    }

    open spec fn from_spec(secs: u32) -> Self {
        UnixSeconds(secs as u64)
    }
}

impl From<u64> for UnixSeconds {
    #[inline]
    fn from(secs: u64) -> (seconds: Self) {
        UnixSeconds(secs)
    }
}

impl FromSpecImpl<u64> for UnixSeconds {
    open spec fn obeys_from_spec() -> bool {
        true
    }

    open spec fn from_spec(secs: u64) -> Self {
        UnixSeconds(secs)
    }
}

impl UnixSeconds {
    /// Decodes seconds from eight bytes, big end first.
    #[inline]
    pub fn from_bytes(bytes: &[u8]) -> (result: ParseResult<Self>)
        ensures
            bytes@.len() >= 8 ==> result == Ok::<Self, ParseError>(
                UnixSeconds(be_u64(bytes@) as u64),
            ),
            bytes@.len() < 8 ==> result == Err::<Self, ParseError>(too_short(bytes@, 8)),
    {
        match parse_u64(bytes) {
            Ok(value) => Ok(UnixSeconds(value)),
            Err(error) => Err(error),
        }
    }

    /// Decodes seconds from four bytes, big end first.
    #[inline]
    pub fn from_bytes_u32(bytes: &[u8]) -> (result: ParseResult<Self>)
        ensures
            bytes@.len() >= 4 ==> result == Ok::<Self, ParseError>(
                UnixSeconds(be_u32(bytes@) as u64),
            ),
            bytes@.len() < 4 ==> result == Err::<Self, ParseError>(too_short(bytes@, 4)),
    {
        match parse_u32(bytes) {
            Ok(value) => Ok(UnixSeconds(value as u64)),
            Err(error) => Err(error),
        }
    }

    /// The timestamp as RFC 3339 text in Jakarta's time. A count of seconds
    /// of more than 63 bits is read as a signed number.
    #[inline]
    pub fn to_iso8601(&self) -> (text: String)
        requires
            is_moment(self.0),
        ensures
            text@ == rfc3339_at_offset(signed_seconds(self.0), 0, JAKARTA_OFFSET_SECS),
    {
        rfc3339_string(as_signed_seconds(self.0), 0, JAKARTA_OFFSET_SECS)
    }

    /// The timestamp in nanoseconds, unless that is more than 64 bits hold.
    #[inline]
    pub fn to_nanoseconds(&self) -> (result: Result<UnixNanoseconds, &'static str>)
        ensures
            result == nanoseconds_of(self.0),
    {
        UnixNanoseconds::try_from(*self)
    }
}

} // verus!
