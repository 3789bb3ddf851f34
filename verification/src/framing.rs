use vstd::prelude::*;
use bytes::{Bytes, BytesMut};
use crate::buffer::{
    buffer_bytes, buffer_len, buffer_slice, buffer_split_to, frozen_bytes, frozen_copy,
};

verus! {

/// The number of bytes that the first packet of `buf` occupies, length field
/// included: two more than the big-endian value of the first two bytes.
pub open spec fn packet_extent(buf: Seq<u8>) -> int
    recommends
        buf.len() >= 2,
{
    2 + buf[0] as int * 256 + buf[1] as int
}

/// Whether `buf` starts with one complete packet: a header of three bytes,
/// and as many bytes as its length field announces.
pub open spec fn has_complete_packet(buf: Seq<u8>) -> bool {
    buf.len() >= 3 && buf.len() >= packet_extent(buf)
}

/// The first packet of `buf`, header included.
pub open spec fn first_packet(buf: Seq<u8>) -> Seq<u8>
    recommends
        has_complete_packet(buf),
{
    buf.subrange(0, packet_extent(buf))
}

/// What is left of `buf` once its first packet is taken off.
pub open spec fn after_first_packet(buf: Seq<u8>) -> Seq<u8>
    recommends
        has_complete_packet(buf),
{
    buf.subrange(packet_extent(buf), buf.len() as int)
}

/// Whether `packet` is exactly one packet: a length field, a type byte, and
/// the payload that the length field announces.
pub open spec fn is_packet(packet: Seq<u8>) -> bool {
    packet.len() >= 3 && packet_extent(packet) == packet.len()
}

/// The complete packets at the front of `buf`, in order.
pub open spec fn packets_of(buf: Seq<u8>) -> Seq<Seq<u8>>
    decreases buf.len(),
{
    if has_complete_packet(buf) {
        seq![first_packet(buf)] + packets_of(after_first_packet(buf))
    } else {
        Seq::empty()
    }
}

/// The bytes of `buf` behind its last complete packet.
pub open spec fn remainder_of(buf: Seq<u8>) -> Seq<u8>
    decreases buf.len(),
{
    if has_complete_packet(buf) {
        remainder_of(after_first_packet(buf))
    } else {
        buf
    }
}

/// The packets of `packets` written one after another.
pub open spec fn concatenated(packets: Seq<Seq<u8>>) -> Seq<u8>
    decreases packets.len(),
{
    if packets.len() == 0 {
        Seq::empty()
    } else {
        packets[0] + concatenated(packets.skip(1))
    }
}

/// Takes one complete packet off the front of the buffer.
///
/// Returns the packet's type byte and the whole packet, header included, and
/// removes exactly those bytes. Where the buffer does not yet hold a complete
/// packet, returns `None` and leaves the buffer as it is.
pub fn extract_packet(buf: &mut BytesMut) -> (packet: Option<(u8, Bytes)>)
    ensures
        packet is Some <==> has_complete_packet(buffer_bytes(*old(buf))),
        packet is None ==> buffer_bytes(*final(buf)) == buffer_bytes(*old(buf)),
        packet matches Some((packet_type, bytes)) ==> {
            &&& packet_type == buffer_bytes(*old(buf))[2]
            &&& frozen_bytes(bytes) == first_packet(buffer_bytes(*old(buf)))
            &&& buffer_bytes(*final(buf)) == after_first_packet(buffer_bytes(*old(buf)))
        },
{
    if buffer_len(buf) < 3 {
        return None;
    }
    let held = buffer_slice(buf);
    let packet_len: usize = (held[0] as usize) * 256 + (held[1] as usize);
    let total_len: usize = 2 + packet_len;
    if held.len() < total_len {
        return None;
    }
    let packet_type: u8 = held[2];
    let packet_bytes = frozen_copy(&held[0..total_len]);
    let _ = buffer_split_to(buf, total_len);
    Some((packet_type, packet_bytes))
}

/// A buffer that holds one packet followed by fewer than three bytes yields
/// that packet and keeps exactly the trailing bytes; a second extraction then
/// finds no packet and changes nothing.
pub proof fn lemma_extract_one_with_tail(packet: Seq<u8>, tail: Seq<u8>)
    requires
        is_packet(packet),
        tail.len() < 3,
    ensures
        has_complete_packet(packet + tail),
        first_packet(packet + tail) == packet,
        after_first_packet(packet + tail) == tail,
        !has_complete_packet(tail),
        packets_of(packet + tail) == seq![packet],
        remainder_of(packet + tail) == tail,
{
    let buf = packet + tail;
    assert(buf[0] == packet[0] && buf[1] == packet[1]);
    assert(first_packet(buf) =~= packet);
    assert(after_first_packet(buf) =~= tail);
    assert(packets_of(tail) =~= Seq::<Seq<u8>>::empty());
    assert(packets_of(buf) =~= seq![packet]);
    assert(remainder_of(tail) == tail);
    assert(remainder_of(buf) == remainder_of(after_first_packet(buf)));
}

/// A buffer that holds packets back to back yields them one by one, in
/// order, and is empty when the last one has been taken.
pub proof fn lemma_extract_back_to_back(packets: Seq<Seq<u8>>)
    requires
        forall|i: int| 0 <= i < packets.len() ==> is_packet(#[trigger] packets[i]),
    ensures
        packets_of(concatenated(packets)) == packets,
        remainder_of(concatenated(packets)) == Seq::<u8>::empty(),
    decreases packets.len(),
{
    if packets.len() == 0 {
        assert(packets_of(concatenated(packets)) =~= packets);
    } else {
        let head = packets[0];
        let rest = concatenated(packets.skip(1));
        let buf = head + rest;
        assert(is_packet(head));
        assert forall|i: int| 0 <= i < packets.skip(1).len() implies is_packet(
            #[trigger] packets.skip(1)[i],
        ) by {
            assert(packets.skip(1)[i] == packets[i + 1]);
        }
        lemma_extract_back_to_back(packets.skip(1));
        assert(buf[0] == head[0] && buf[1] == head[1]);
        assert(first_packet(buf) =~= head);
        assert(after_first_packet(buf) =~= rest);
        assert(packets_of(buf) =~= seq![head] + packets.skip(1));
        assert(seq![head] + packets.skip(1) =~= packets);
    }
}

} // verus!
