use vstd::prelude::*;
use std::str::FromStr;
use uuid::{ContextV7, Timestamp, Uuid};
use uuid_simd::UuidExt;
use crate::text::hex_byte_text;

verus! {

/// `uuid::Uuid`: an identifier of sixteen bytes, opaque to the verifier.
#[verifier::external_type_specification]
#[verifier::external_body]
pub struct ExUuid(Uuid);

/// `uuid::ContextV7`: a counter for identifiers of version 7, opaque to the verifier.
#[verifier::external_type_specification]
#[verifier::external_body]
pub struct ExContextV7(ContextV7);

/// `uuid::Timestamp`: the time and counter of an identifier, opaque to the verifier.
#[verifier::external_type_specification]
#[verifier::external_body]
pub struct ExTimestamp(Timestamp);

/// `uuid_simd::Error`: why a text denotes no identifier, opaque to the verifier.
#[verifier::external_type_specification]
#[verifier::external_body]
pub struct ExUuidParseError(uuid_simd::Error);

/// A universally unique identifier.
#[derive(Debug, Copy, Clone, PartialEq, Eq, PartialOrd, Ord, Hash)]
pub struct UUID(pub Uuid);

/// The sixteen bytes that an identifier holds.
pub uninterp spec fn uuid_bytes(uuid: Uuid) -> Seq<u8>;

/// The identifier that a text denotes, if it denotes one.
pub uninterp spec fn parsed_uuid(text: Seq<char>) -> Option<Uuid>;

/// The version that sixteen bytes of an identifier announce: the high half
/// of the seventh byte.
pub open spec fn version_of(bytes: Seq<u8>) -> int {
    bytes[6] as int / 16
}

/// The bytes `from` up to `to` of an identifier in lower-case hexadecimal.
pub open spec fn hex_run(bytes: Seq<u8>, from: int, to: int) -> Seq<char>
    decreases to - from,
{
    if from >= to {
        Seq::empty()
    } else {
        hex_run(bytes, from, to - 1) + hex_byte_text(bytes[to - 1])
    }
}

/// The 32 hexadecimal digits of an identifier.
pub open spec fn simple_text(bytes: Seq<u8>) -> Seq<char> {
    hex_run(bytes, 0, 16)
}

/// The hexadecimal digits of an identifier in groups of 8, 4, 4, 4 and 12
/// with hyphens between them.
pub open spec fn hyphenated_text(bytes: Seq<u8>) -> Seq<char> {
    hex_run(bytes, 0, 4) + seq!['-'] + hex_run(bytes, 4, 6) + seq!['-'] + hex_run(bytes, 6, 8)
        + seq!['-'] + hex_run(bytes, 8, 10) + seq!['-'] + hex_run(bytes, 10, 16)
}

/// `Uuid::new_v4`: a random identifier; its version is 4.
#[verifier::external_body]
pub(crate) fn uuid_new_v4() -> (uuid: Uuid)
    ensures
        uuid_bytes(uuid).len() == 16,
        version_of(uuid_bytes(uuid)) == 4,
{
    Uuid::new_v4()
}

/// `Uuid::now_v7`: an identifier made of the current time and random bits;
/// its version is 7.
#[verifier::external_body]
pub(crate) fn uuid_now_v7() -> (uuid: Uuid)
    ensures
        uuid_bytes(uuid).len() == 16,
        version_of(uuid_bytes(uuid)) == 7,
{
    Uuid::now_v7()
}

/// `Uuid::new_v7`: an identifier made of a timestamp and random bits; its
/// version is 7.
#[verifier::external_body]
pub(crate) fn uuid_new_v7(ts: Timestamp) -> (uuid: Uuid)
    ensures
        uuid_bytes(uuid).len() == 16,
        version_of(uuid_bytes(uuid)) == 7,
{
    Uuid::new_v7(ts)
}

/// `ContextV7::new`: a counter for identifiers of version 7, seeded at random.
#[verifier::external_body]
pub(crate) fn context_v7_new() -> ContextV7 {
    ContextV7::new()
}

/// `Timestamp::from_unix`: the timestamp of a Unix time with a counter
/// that the context chose. Nothing is claimed of it.
#[verifier::external_body]
pub(crate) fn timestamp_from_unix(
    context: &ContextV7,
    seconds: u64,
    subsec_nanos: u32,
) -> Timestamp {
    Timestamp::from_unix(context, seconds, subsec_nanos)
}

/// `UuidExt::format_simple`, as text: the 32 hexadecimal digits in lower case.
#[verifier::external_body]
pub(crate) fn uuid_simple_string(uuid: &Uuid) -> (text: String)
    ensures
        text@ == simple_text(uuid_bytes(*uuid)),
{
    uuid.format_simple().to_string()
}

/// `UuidExt::format_hyphenated`, as text: the hexadecimal digits in lower
/// case, in groups of 8, 4, 4, 4 and 12 with hyphens between them.
#[verifier::external_body]
pub(crate) fn uuid_hyphenated_string(uuid: &Uuid) -> (text: String)
    ensures
        text@ == hyphenated_text(uuid_bytes(*uuid)),
{
    uuid.format_hyphenated().to_string()
}

/// `UuidExt::parse` on the bytes of a text: the identifier that the text
/// denotes, or an error where it denotes none.
#[verifier::external_body]
pub(crate) fn uuid_parse(text: &str) -> (result: Result<Uuid, uuid_simd::Error>)
    ensures
        match parsed_uuid(text@) {
            Some(uuid) => result == Ok::<Uuid, uuid_simd::Error>(uuid),
            None => result is Err,
        },
{
    Uuid::parse(text.as_bytes())
}

impl UUID {
    /// The version that the identifier announces.
    pub open spec fn version(self) -> int {
        version_of(uuid_bytes(self.0))
    }

    /// A random identifier, of version 4.
    pub fn new_v4() -> (id: Self)
        ensures
            id.version() == 4,
    {
        Self(uuid_new_v4())
    }

    /// An identifier of the current time, of version 7.
    pub fn new_v7() -> (id: Self)
        ensures
            id.version() == 7,
    {
        Self(uuid_now_v7())
    }

    /// An identifier of the given time, of version 7.
    pub fn new_v7_with_timestamp(ts: Timestamp) -> (id: Self)
        ensures
            id.version() == 7,
    {
        Self(uuid_new_v7(ts))
    }

    /// The identifier as 32 hexadecimal digits.
    pub fn simple(&self) -> (text: String)
        ensures
            text@ == simple_text(uuid_bytes(self.0)),
    {
        uuid_simple_string(&self.0)
    }

    /// The identifier as hexadecimal digits in five groups with hyphens between them.
    pub fn hyphenated(&self) -> (text: String)
        ensures
            text@ == hyphenated_text(uuid_bytes(self.0)),
    {
        uuid_hyphenated_string(&self.0)
    }

    /// The identifier that a text denotes.
    pub fn parse(s: &str) -> (result: Result<Self, uuid_simd::Error>)
        ensures
            match parsed_uuid(s@) {
                Some(uuid) => result == Ok::<Self, uuid_simd::Error>(UUID(uuid)),
                None => result is Err,
            },
    {
        match uuid_parse(s) {
            Ok(uuid) => Ok(UUID(uuid)),
            Err(error) => Err(error),
        }
    }
}

impl Default for UUID {
    fn default() -> (id: Self)
        ensures
            id.version() == 7,
    {
        Self::new_v7()
    }
}

impl FromStr for UUID {
    type Err = uuid_simd::Error;

    /// The identifier that a text denotes.
    fn from_str(s: &str) -> (result: Result<Self, uuid_simd::Error>)
        ensures
            match parsed_uuid(s@) {
                Some(uuid) => result == Ok::<Self, uuid_simd::Error>(UUID(uuid)),
                None => result is Err,
            },
    {
        UUID::parse(s)
    }
}

/// `size` random identifiers of version 4.
pub fn batch_uuid_v4(size: usize) -> (batch: Vec<UUID>)
    ensures
        batch@.len() == size,
        forall|i: int| 0 <= i < size ==> (#[trigger] batch@[i]).version() == 4,
{
    let mut batch: Vec<UUID> = Vec::new();
    let mut made: usize = 0;
    while made < size
        invariant
            made <= size,
            batch@.len() == made,
            forall|i: int| 0 <= i < made ==> (#[trigger] batch@[i]).version() == 4,
        decreases size - made,
    {
        batch.push(UUID::new_v4());
        made = made + 1;
    }
    batch
}

/// `size` identifiers of version 7, all of the Unix time `seconds` and
/// `subsec_nanos`.
pub fn batch_uuid_v7_at(size: usize, seconds: u64, subsec_nanos: u32) -> (batch: Vec<UUID>)
    ensures
        batch@.len() == size,
        forall|i: int| 0 <= i < size ==> (#[trigger] batch@[i]).version() == 7,
{
    let context = context_v7_new();
    let ts = timestamp_from_unix(&context, seconds, subsec_nanos);
    let mut batch: Vec<UUID> = Vec::new();
    let mut made: usize = 0;
    while made < size
        invariant
            made <= size,
            batch@.len() == made,
            forall|i: int| 0 <= i < made ==> (#[trigger] batch@[i]).version() == 7,
        decreases size - made,
    {
        batch.push(UUID::new_v7_with_timestamp(ts));
        made = made + 1;
    }
    batch
}

} // verus!
