use vstd::prelude::*;
use opentelemetry::Context;
use std::time::{Duration, Instant};

verus! {

/// `std::time::Instant`: a reading of the monotonic clock, opaque to the verifier.
#[verifier::external_type_specification]
#[verifier::external_body]
pub struct ExInstant(Instant);

/// `opentelemetry::Context`: a tracing context, opaque to the verifier.
#[verifier::external_type_specification]
#[verifier::external_body]
pub struct ExContext(Context);

/// `Instant` is `Copy`: its clone is the same reading of the clock.
pub assume_specification[ <Instant as Clone>::clone ](instant: &Instant) -> (copy: Instant)
    ensures
        copy == *instant,
;

/// `Context::clone`, which the crate derives: the clone holds what the
/// context holds, field by field.
pub assume_specification[ <Context as Clone>::clone ](context: &Context) -> (copy: Context)
    ensures
        copy == *context,
;

/// When a piece of data was received, and the tracing context it belongs to.
#[derive(Debug)]
pub struct TraceData {
    pub recv_at: Instant,
    pub ctx: Context,
}

/// `Instant::now`: the current reading of the monotonic clock.
#[verifier::external_body]
pub(crate) fn instant_now() -> Instant {
    Instant::now()
}

/// `Instant::elapsed`: the time that has passed since the reading.
#[verifier::external_body]
pub(crate) fn instant_elapsed(start: &Instant) -> Duration {
    start.elapsed()
}

/// `Duration::as_micros`: the whole microseconds of a time span.
#[verifier::external_body]
pub(crate) fn duration_as_micros(span: &Duration) -> u128 {
    span.as_micros()
}

/// `Duration::as_millis`: the whole milliseconds of a time span.
#[verifier::external_body]
pub(crate) fn duration_as_millis(span: &Duration) -> u128 {
    span.as_millis()
}

/// `Duration::as_nanos`: the whole nanoseconds of a time span.
#[verifier::external_body]
pub(crate) fn duration_as_nanos(span: &Duration) -> u128 {
    span.as_nanos()
}

/// `Context::new`: an empty tracing context.
#[verifier::external_body]
pub(crate) fn empty_context() -> Context {
    Context::new()
}

/// `Context::current`: a copy of the calling thread's current tracing context.
#[verifier::external_body]
pub(crate) fn current_context() -> Context {
    Context::current()
}

/// The low 64 bits of `value`.
pub open spec fn low_64_bits(value: u128) -> u64 {
    (value % 0x1_0000_0000_0000_0000) as u64
}

/// Keeps the low 64 bits of a count.
pub fn truncate_to_u64(value: u128) -> (low: u64)
    ensures
        low == low_64_bits(value),
{
    (value % 0x1_0000_0000_0000_0000) as u64
}

impl TraceData {
    /// A trace that starts now, in an empty context.
    pub fn new() -> Self {
        TraceData { recv_at: instant_now(), ctx: empty_context() }
    }

    /// A trace that starts now, in the calling thread's current context.
    pub fn with_current_context() -> Self {
        TraceData { recv_at: instant_now(), ctx: current_context() }
    }

    /// Microseconds since the data was received.
    pub fn elapsed_micros(&self) -> u64 {
        truncate_to_u64(duration_as_micros(&instant_elapsed(&self.recv_at)))
    }

    /// Milliseconds since the data was received.
    pub fn elapsed_millis(&self) -> u64 {
        truncate_to_u64(duration_as_millis(&instant_elapsed(&self.recv_at)))
    }

    /// Nanoseconds since the data was received.
    pub fn elapsed_nanos(&self) -> u64 {
        truncate_to_u64(duration_as_nanos(&instant_elapsed(&self.recv_at)))
    }
}

impl Clone for TraceData {
    /// A copy of the trace: the same moment, the same context.
    fn clone(&self) -> (copy: Self)
        ensures
            copy == *self,
    {
        TraceData { recv_at: self.recv_at.clone(), ctx: self.ctx.clone() }
    }
}

impl Default for TraceData {
    fn default() -> Self {
        TraceData::new()
    }
}

} // verus!
