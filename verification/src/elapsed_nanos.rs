use vstd::prelude::*;
use vstd::std_specs::convert::FromSpecImpl;

verus! {

/// The nanoseconds that have passed since the last whole second that the feed announced.
#[derive(Debug, Clone, Copy, PartialEq, Eq, PartialOrd, Ord, Structural)]
pub struct ElapsedNanos(pub u32);

impl From<u32> for ElapsedNanos {
    #[inline]
    fn from(nanos: u32) -> (elapsed: Self) {
        ElapsedNanos(nanos)
    }
}

impl FromSpecImpl<u32> for ElapsedNanos {
    open spec fn obeys_from_spec() -> bool {
        true
    }

    open spec fn from_spec(nanos: u32) -> Self {
        ElapsedNanos(nanos)
    }
}

impl From<ElapsedNanos> for u64 {
    #[inline]
    fn from(elapsed: ElapsedNanos) -> (nanos: Self) {
        elapsed.0 as u64
    }
}

impl FromSpecImpl<ElapsedNanos> for u64 {
    open spec fn obeys_from_spec() -> bool {
        true
    }

    open spec fn from_spec(elapsed: ElapsedNanos) -> Self {
        elapsed.0 as u64
    }
}

} // verus!
