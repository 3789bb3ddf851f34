use vstd::prelude::*;
use vstd::std_specs::convert::{FromSpecImpl, TryFromSpecImpl};
use vstd::std_specs::ops::AddSpecImpl;
use std::ops::Add;
use crate::elapsed_nanos::ElapsedNanos;
use crate::error::{ParseError, ParseResult};
use crate::parser_uint::{be_u32, be_u64, parse_u32, parse_u64, too_short};
use crate::second::UnixSeconds;
use crate::time::{rfc3339_at_offset, rfc3339_string, JAKARTA_OFFSET_SECS, NANO_PER_SEC};

verus! {

/// A Unix timestamp in nanoseconds.
#[derive(Debug, Clone, Copy, PartialEq, Eq, PartialOrd, Ord, Structural)]
pub struct UnixNanoseconds(pub u64);

impl From<u64> for UnixNanoseconds {
    #[inline]
    fn from(ns: u64) -> (nanos: Self) {
        UnixNanoseconds(ns)
    }
}

impl FromSpecImpl<u64> for UnixNanoseconds {
    open spec fn obeys_from_spec() -> bool {
        true
    }

    open spec fn from_spec(ns: u64) -> Self {
        UnixNanoseconds(ns)
    }
}

impl From<u32> for UnixNanoseconds {
    #[inline]
    fn from(ns: u32) -> (nanos: Self) {
        UnixNanoseconds(ns as u64)
    }
}

impl FromSpecImpl<u32> for UnixNanoseconds {
    open spec fn obeys_from_spec() -> bool {
        true
    }

    open spec fn from_spec(ns: u32) -> Self {
        UnixNanoseconds(ns as u64)
    }
}

impl UnixNanoseconds {
    /// The timestamp of `seconds` whole seconds, unless that is more
    /// nanoseconds than 64 bits hold.
    #[inline]
    pub fn from_seconds_checked(seconds: u64) -> (result: Result<Self, &'static str>)
        ensures
            result == nanoseconds_of(seconds),
    {
        UnixNanoseconds::try_from(UnixSeconds(seconds))
    }

    /// Decodes nanoseconds from eight bytes, big end first.
    #[inline]
    pub fn from_bytes(bytes: &[u8]) -> (result: ParseResult<Self>)
        ensures
            bytes@.len() >= 8 ==> result == Ok::<Self, ParseError>(
                UnixNanoseconds(be_u64(bytes@) as u64),
            ),
            bytes@.len() < 8 ==> result == Err::<Self, ParseError>(too_short(bytes@, 8)),
    {
        match parse_u64(bytes) {
            Ok(value) => Ok(UnixNanoseconds(value)),
            Err(error) => Err(error),
        }
    }

    /// Decodes nanoseconds from four bytes, big end first.
    #[inline]
    pub fn from_bytes_u32(bytes: &[u8]) -> (result: ParseResult<Self>)
        ensures
            bytes@.len() >= 4 ==> result == Ok::<Self, ParseError>(
                UnixNanoseconds(be_u32(bytes@) as u64),
            ),
            bytes@.len() < 4 ==> result == Err::<Self, ParseError>(too_short(bytes@, 4)),
    {
        match parse_u32(bytes) {
            Ok(value) => Ok(UnixNanoseconds(value as u64)),
            Err(error) => Err(error),
        }
    }

    /// The whole seconds of the timestamp.
    pub open spec fn whole_seconds(self) -> u64 {
        self.0 / NANO_PER_SEC
    }

    /// The nanoseconds of the timestamp past its last whole second.
    pub open spec fn subsec_nanos(self) -> u32 {
        (self.0 % NANO_PER_SEC) as u32
    }

    /// The timestamp as RFC 3339 text in Jakarta's time.
    #[inline]
    pub fn to_iso8601(&self) -> (text: String)
        ensures
            text@ == rfc3339_at_offset(
                self.whole_seconds() as i64,
                self.subsec_nanos(),
                JAKARTA_OFFSET_SECS,
            ),
    {
        rfc3339_string(
            (self.0 / NANO_PER_SEC) as i64,
            (self.0 % NANO_PER_SEC) as u32,
            JAKARTA_OFFSET_SECS,
        )
    }

}

/// The timestamp of `seconds` whole seconds, unless that is more
/// nanoseconds than 64 bits hold.
pub open spec fn nanoseconds_of(seconds: u64) -> Result<UnixNanoseconds, &'static str> {
    if seconds * NANO_PER_SEC <= u64::MAX {
        Ok(UnixNanoseconds((seconds * NANO_PER_SEC) as u64))
    } else {
        Err("seconds * 1_000_000_000 overflowed u64")
    }
}

impl TryFrom<UnixSeconds> for UnixNanoseconds {
    type Error = &'static str;

    /// The timestamp in nanoseconds, unless that is more than 64 bits hold.
    #[inline]
    fn try_from(s: UnixSeconds) -> (result: Result<Self, &'static str>) {
        match s.0.checked_mul(NANO_PER_SEC) {
            Some(nanos) => Ok(UnixNanoseconds(nanos)),
            None => Err("seconds * 1_000_000_000 overflowed u64"),
        }
    }
}

impl TryFromSpecImpl<UnixSeconds> for UnixNanoseconds {
    open spec fn obeys_try_from_spec() -> bool {
        true
    }

    open spec fn try_from_spec(s: UnixSeconds) -> Result<Self, &'static str> {
        nanoseconds_of(s.0)
    }
}

impl Add<ElapsedNanos> for UnixNanoseconds {
    type Output = UnixNanoseconds;

    #[inline]
    fn add(self, nanos: ElapsedNanos) -> (later: UnixNanoseconds) {
        UnixNanoseconds(self.0 + nanos.0 as u64)
    }
}

impl AddSpecImpl<ElapsedNanos> for UnixNanoseconds {
    open spec fn obeys_add_spec() -> bool {
        true
    }

    open spec fn add_req(self, nanos: ElapsedNanos) -> bool {
        self.0 + nanos.0 <= u64::MAX
    }

    open spec fn add_spec(self, nanos: ElapsedNanos) -> UnixNanoseconds {
        UnixNanoseconds((self.0 + nanos.0) as u64)
    }
}

impl Add<u32> for UnixNanoseconds {
    type Output = UnixNanoseconds;

    #[inline]
    fn add(self, rhs: u32) -> (later: UnixNanoseconds) {
        UnixNanoseconds(self.0 + rhs as u64)
    }
}

impl AddSpecImpl<u32> for UnixNanoseconds {
    open spec fn obeys_add_spec() -> bool {
        true
    }

    open spec fn add_req(self, rhs: u32) -> bool {
        self.0 + rhs <= u64::MAX
    }

    open spec fn add_spec(self, rhs: u32) -> UnixNanoseconds {
        UnixNanoseconds((self.0 + rhs) as u64)
    }
}

impl Add<u64> for UnixNanoseconds {
    type Output = UnixNanoseconds;

    #[inline]
    fn add(self, rhs: u64) -> (later: UnixNanoseconds) {
        UnixNanoseconds(self.0 + rhs)
    }
}

impl AddSpecImpl<u64> for UnixNanoseconds {
    open spec fn obeys_add_spec() -> bool {
        true
    }

    open spec fn add_req(self, rhs: u64) -> bool {
        self.0 + rhs <= u64::MAX
    }

    open spec fn add_spec(self, rhs: u64) -> UnixNanoseconds {
        UnixNanoseconds((self.0 + rhs) as u64)
    }
}

} // verus!
