use vstd::prelude::*;
use crate::data_feed_type::DataFeedType;
use crate::error::ParseResult;
use crate::nanosecond::UnixNanoseconds;

verus! {

/// A value that is decoded from a fixed number of bytes.
pub trait Parsable: Sized {
    /// The number of bytes that a value takes.
    const BYTE_LEN: usize;

    /// Decodes a value from the start of `b`.
    fn parse(b: &[u8]) -> ParseResult<Self>;
}

/// What a payload decoder is told besides the payload.
pub struct PacketContext<'a> {
    pub feed_type: Option<&'a DataFeedType>,
    pub last_timestamp: Option<UnixNanoseconds>,
}

/// A decoder of sequenced-data payloads, supplied by the user of a session.
pub trait PacketParser<T> {
    /// Decodes one payload into a message.
    fn parse(&self, bytes: &[u8], context: PacketContext) -> Result<T, std::io::Error>;
}

} // verus!
