//! The compression stage: the per-frame work of the ingestion loop. Each
//! raw frame handed over by the capture source is converted, compressed
//! and framed, and the resulting packet — if the frame survived — is
//! published to the broadcast distributor.

use vstd::prelude::*;
use crate::captures::Dimensions;
use crate::distributor::Distributor;
use crate::frame_compressor::{compress_frame, encodable_dims, jpeg_bytes, rgb_of, JPEG_QUALITY};
use crate::packet::{make_packet, packet_of};

verus! {

/// One step of the compression stage loop: pipes a raw frame through the
/// pixel converter, the frame encoder and the packetizer, and publishes
/// the packet to the distributor. A packet is published exactly for a
/// frame whose buffer matches the dimensions, whose dimensions the encoder
/// carries, and whose encoding fits the 32-bit length field; any other
/// frame is dropped silently: nothing reaches the distributor and the
/// pipeline goes on with the next frame.
pub fn pipeline_step(dist: &mut Distributor, raw_frame: Vec<u8>, dims: Dimensions) -> (published:
    bool)
    requires
        old(dist).inv(),
        !old(dist).is_closed(),
        old(dist).log().len() < u64::MAX,
    ensures
        final(dist).inv(),
        !final(dist).is_closed(),
        !published ==> final(dist).log() == old(dist).log(),
        published ==> final(dist).log() == old(dist).log().push(
            packet_of(jpeg_bytes(JPEG_QUALITY, dims.width, dims.height, rgb_of(raw_frame@))),
        ),
        published <==> raw_frame@.len() == dims.width * dims.height * 4 && encodable_dims(
            dims.width,
            dims.height,
        ) && jpeg_bytes(JPEG_QUALITY, dims.width, dims.height, rgb_of(raw_frame@)).len()
            <= u32::MAX,
{
    let compressed = compress_frame(raw_frame, dims.width, dims.height);
    if compressed.len() == 0 {
        return false;
    }
    if compressed.len() > u32::MAX as usize {
        // an encoding too large for the 32-bit length field cannot be
        // framed for the wire; the frame is dropped like a failed encode
        return false;
    }
    match make_packet(&compressed) {
        Some(p) => {
            dist.publish(p);
            true
        },
        None => false,
    }
}

} // verus!
