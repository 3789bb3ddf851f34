use vstd::prelude::*;
use bytes::Bytes;
use crate::trace::TraceData;

verus! {

/// What goes on the output queue for one sequenced packet: its sequence
/// number, its raw bytes, the decoded message and the trace of its receipt.
pub type PacketData<T> = (u64, Bytes, T, Option<TraceData>);

/// As `PacketData`, with a trace that is always there.
pub type PacketDataWithTrace<T> = (u64, Bytes, T, TraceData);

} // verus!
