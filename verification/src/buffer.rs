use vstd::prelude::*;
use bytes::{Bytes, BytesMut};

verus! {

/// `bytes::BytesMut`: a growable buffer of bytes, opaque to the verifier.
#[verifier::external_type_specification]
#[verifier::external_body]
pub struct ExBytesMut(BytesMut);

#[verifier::external_type_specification]
#[verifier::external_body]
pub struct ExBytes(Bytes);

/// The bytes that a growable buffer holds, first to last.
pub uninterp spec fn buffer_bytes(buf: BytesMut) -> Seq<u8>;

/// The bytes that an immutable byte string holds, first to last.
pub uninterp spec fn frozen_bytes(bytes: Bytes) -> Seq<u8>;

/// `BytesMut::with_capacity`: a buffer that holds no bytes, whatever the
/// capacity asked for. It panics on a capacity that no allocation can have.
#[verifier::external_body]
pub(crate) fn buffer_with_capacity(capacity: usize) -> (buf: BytesMut)
    requires
        capacity <= isize::MAX,
    ensures
        buffer_bytes(buf) == Seq::<u8>::empty(),
{
    BytesMut::with_capacity(capacity)
}

/// `BytesMut::len`: the number of bytes held.
#[verifier::external_body]
pub(crate) fn buffer_len(buf: &BytesMut) -> (len: usize)
    ensures
        len == buffer_bytes(*buf).len(),
{
    buf.len()
}

/// `BytesMut::capacity`: the bytes the buffer can hold without reallocating.
/// Only that it is no less than the length is claimed.
#[verifier::external_body]
pub(crate) fn buffer_capacity(buf: &BytesMut) -> (capacity: usize)
    ensures
        capacity >= buffer_bytes(*buf).len(),
{
    buf.capacity()
}

/// `BytesMut::as_ref`: the held bytes as a slice.
#[verifier::external_body]
pub(crate) fn buffer_slice(buf: &BytesMut) -> (slice: &[u8])
    ensures
        slice@ == buffer_bytes(*buf),
{
    buf.as_ref()
}

/// `BytesMut::split_to`: the first `at` bytes leave the buffer and are
/// returned; the buffer keeps the rest. Panics if `at` exceeds the length.
#[verifier::external_body]
pub(crate) fn buffer_split_to(buf: &mut BytesMut, at: usize) -> (front: BytesMut)
    requires
        at <= buffer_bytes(*old(buf)).len(),
    ensures
        buffer_bytes(front) == buffer_bytes(*old(buf)).subrange(0, at as int),
        buffer_bytes(*final(buf)) == buffer_bytes(*old(buf)).subrange(
            at as int,
            buffer_bytes(*old(buf)).len() as int,
        ),
{
    buf.split_to(at)
}

/// `BytesMut::extend_from_slice`: the bytes of `data` are appended. It
/// panics where the bytes would be more than an allocation can hold.
#[verifier::external_body]
pub(crate) fn buffer_extend(buf: &mut BytesMut, data: &[u8])
    requires
        buffer_bytes(*old(buf)).len() + data@.len() <= isize::MAX,
    ensures
        buffer_bytes(*final(buf)) == buffer_bytes(*old(buf)) + data@,
{
    buf.extend_from_slice(data)
}

/// `BytesMut::clear`: the buffer holds no bytes afterwards.
#[verifier::external_body]
pub(crate) fn buffer_clear(buf: &mut BytesMut)
    ensures
        buffer_bytes(*final(buf)) == Seq::<u8>::empty(),
{
    buf.clear()
}

/// `BytesMut::reserve`: makes room for `additional` more bytes and leaves
/// the held bytes as they are. It panics where the room asked for is more
/// than an allocation can hold.
#[verifier::external_body]
pub(crate) fn buffer_reserve(buf: &mut BytesMut, additional: usize)
    requires
        buffer_bytes(*old(buf)).len() + additional <= isize::MAX,
    ensures
        buffer_bytes(*final(buf)) == buffer_bytes(*old(buf)),
{
    buf.reserve(additional)
}

/// `Bytes::copy_from_slice`: an immutable byte string with a copy of `data`.
#[verifier::external_body]
pub(crate) fn frozen_copy(data: &[u8]) -> (bytes: Bytes)
    ensures
        frozen_bytes(bytes) == data@,
{
    Bytes::copy_from_slice(data)
}

/// `Bytes::as_ref`: the held bytes as a slice.
#[verifier::external_body]
pub(crate) fn frozen_slice(bytes: &Bytes) -> (slice: &[u8])
    ensures
        slice@ == frozen_bytes(*bytes),
{
    bytes.as_ref()
}

} // verus!
