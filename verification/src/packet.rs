//! Length-prefixed framing of compressed frames for the wire protocol: a
//! packet is a 4-byte little-endian length field followed by the frame
//! bytes verbatim; the length field describes only the payload.

use vstd::prelude::*;
use vstd::bytes::{spec_u32_from_le_bytes, spec_u32_to_le_bytes, u32_from_le_bytes, u32_to_le_bytes};
use vstd::bytes::lemma_auto_spec_u32_to_from_le_bytes;
use vstd::slice::slice_subrange;

verus! {

/// The packet framing a compressed frame: its length as a little-endian
/// 32-bit field, then the frame bytes unchanged.
pub open spec fn packet_of(frame: Seq<u8>) -> Seq<u8> {
    spec_u32_to_le_bytes(frame.len() as u32) + frame
}

/// Wraps one compressed frame into a wire packet. An empty frame marks an
/// encoding failure, so it produces no packet at all; a non-empty frame
/// yields exactly its length prefix followed by its bytes.
pub fn make_packet(frame: &Vec<u8>) -> (r: Option<Vec<u8>>)
    requires
        frame@.len() <= u32::MAX,
    ensures
        frame@.len() == 0 <==> r is None,
        frame@.len() > 0 ==> (r matches Some(p) && p@ == packet_of(frame@)),
{
    if frame.len() == 0 {
        return None;
    }
    let len = frame.len() as u32;
    let mut packet = u32_to_le_bytes(len);
    let mut i: usize = 0;
    while i < frame.len()
        invariant
            i <= frame@.len() <= u32::MAX,
            len == frame@.len(),
            packet@ == spec_u32_to_le_bytes(len) + frame@.subrange(0, i as int),
        decreases frame@.len() - i,
    {
        packet.push(frame[i]);
        assert(packet@ =~= spec_u32_to_le_bytes(len) + frame@.subrange(0, i + 1));
        i = i + 1;
    }
    assert(packet@ =~= packet_of(frame@));
    Some(packet)
}

/// Reads the length field of a packet: the first four bytes decoded as a
/// little-endian unsigned 32-bit integer.
pub fn read_packet_length(packet: &Vec<u8>) -> (r: u32)
    requires
        packet@.len() >= 4,
    ensures
        r == spec_u32_from_le_bytes(packet@.subrange(0, 4)),
{
    let prefix = slice_subrange(packet.as_slice(), 0, 4);
    u32_from_le_bytes(prefix)
}

/// Round-trip law of the packetizer: decoding the first four bytes of the
/// packet built from a non-empty compressed frame as a little-endian
/// unsigned 32-bit integer yields exactly the frame's length, and the
/// remaining bytes equal the frame exactly.
pub proof fn lemma_packet_round_trip(frame: Seq<u8>)
    requires
        0 < frame.len() <= u32::MAX,
    ensures
        spec_u32_from_le_bytes(packet_of(frame).subrange(0, 4)) == frame.len(),
        packet_of(frame).subrange(4, packet_of(frame).len() as int) == frame,
{
    lemma_auto_spec_u32_to_from_le_bytes();
    assert(packet_of(frame).subrange(0, 4) =~= spec_u32_to_le_bytes(frame.len() as u32));
    assert(packet_of(frame).subrange(4, packet_of(frame).len() as int) =~= frame);
}

} // verus!
