//! Per-frame compression: a raw interleaved BGRA buffer is reduced to an
//! RGB buffer (dropping alpha) and then encoded as a JPEG image at a fixed
//! quality. A frame whose buffer does not match the dimensions, or that the
//! encoder rejects, yields an empty result and is dropped by the pipeline.

use vstd::prelude::*;

verus! {

/// JPEG compression quality used for every frame, balancing size against
/// visual fidelity for live streaming.
pub const JPEG_QUALITY: u8 = 70;

/// The RGB bytes derived from an interleaved BGRA buffer: pixel i of the
/// output takes the input's bytes 4i+2, 4i+1 and 4i, in that order, and
/// the alpha byte 4i+3 is dropped.
pub open spec fn rgb_of(raw: Seq<u8>) -> Seq<u8> {
    Seq::new(
        raw.len() / 4 * 3,
        |j: int|
            if j % 3 == 0 {
                raw[4 * (j / 3) + 2]
            } else if j % 3 == 1 {
                raw[4 * (j / 3) + 1]
            } else {
                raw[4 * (j / 3)]
            },
    )
}

/// The pixel converter: checks that the raw buffer holds exactly
/// `width * height` 4-byte BGRA pixels and reorders it into a
/// `width * height * 3` byte RGB buffer; a buffer of any other length is
/// rejected and produces nothing.
pub fn convert_bgra_to_rgb(raw: &Vec<u8>, width: u32, height: u32) -> (r: Option<Vec<u8>>)
    ensures
        raw@.len() == width * height * 4 ==> (r matches Some(v) && v@ == rgb_of(raw@)
            && v@.len() == width * height * 3),
        raw@.len() != width * height * 4 ==> r is None,
{
    proof {
        let w = width as int;
        let h = height as int;
        assert(w * h * 4 <= 0xffff_ffff * 0xffff_ffff * 4) by (nonlinear_arith)
            requires
                0 <= w <= 0xffff_ffff && 0 <= h <= 0xffff_ffff,
        ;
    }
    let expected: u128 = (width as u128) * (height as u128) * 4;
    let raw_len: usize = raw.len();
    if (raw_len as u128) != expected {
        return None;
    }
    let pixels: usize = raw_len / 4;
    assert(4 * (pixels as int) == raw@.len());
    let mut rgb: Vec<u8> = Vec::new();
    let mut i: usize = 0;
    while i < pixels
        invariant
            i <= pixels,
            4 * (pixels as int) == raw@.len(),
            raw@.len() <= usize::MAX,
            rgb@.len() == 3 * i,
            forall|j: int| 0 <= j < 3 * i ==> rgb@[j] == rgb_of(raw@)[j],
        decreases pixels - i,
    {
        proof {
            assert((3 * (i as int)) / 3 == i && (3 * (i as int)) % 3 == 0) by (nonlinear_arith);
            assert((3 * (i as int) + 1) / 3 == i && (3 * (i as int) + 1) % 3 == 1)
                by (nonlinear_arith);
            assert((3 * (i as int) + 2) / 3 == i && (3 * (i as int) + 2) % 3 == 2)
                by (nonlinear_arith);
            assert(raw@.len() / 4 == pixels as int);
        }
        rgb.push(raw[4 * i + 2]);
        rgb.push(raw[4 * i + 1]);
        rgb.push(raw[4 * i]);
        i = i + 1;
    }
    proof {
        assert(raw@.len() / 4 == pixels as int);
        assert(rgb@ =~= rgb_of(raw@));
        assert(3 * (pixels as int) == (width * height * 3)) by (nonlinear_arith)
            requires 4 * (pixels as int) == (width * height * 4) as int;
    }
    Some(rgb)
}

/// The channel reordering law, pixel by pixel: for every pixel i of a
/// well-formed BGRA buffer, the converted output holds the input's red
/// byte 4i+2, green byte 4i+1 and blue byte 4i at positions 3i, 3i+1 and
/// 3i+2, and nothing else.
pub proof fn lemma_rgb_of_pixels(raw: Seq<u8>, i: int)
    requires
        0 <= i < raw.len() / 4,
    ensures
        rgb_of(raw).len() == raw.len() / 4 * 3,
        rgb_of(raw)[3 * i] == raw[4 * i + 2],
        rgb_of(raw)[3 * i + 1] == raw[4 * i + 1],
        rgb_of(raw)[3 * i + 2] == raw[4 * i],
{
    assert((3 * i) / 3 == i && (3 * i) % 3 == 0) by (nonlinear_arith);
    assert((3 * i + 1) / 3 == i && (3 * i + 1) % 3 == 1) by (nonlinear_arith);
    assert((3 * i + 2) / 3 == i && (3 * i + 2) % 3 == 2) by (nonlinear_arith);
    assert(3 * i + 2 < raw.len() / 4 * 3) by (nonlinear_arith)
        requires
            0 <= i < raw.len() / 4,
    ;
}

/// What the JPEG encoder produces for a given quality, dimensions and RGB
/// buffer; the encoding depends on those arguments alone.
pub uninterp spec fn jpeg_bytes(quality: u8, width: u32, height: u32, rgb: Seq<u8>) -> Seq<u8>;

/// The dimensions the JPEG format can carry: 16-bit and non-zero. A frame
/// outside this range cannot be encoded and is dropped.
pub open spec fn encodable_dims(width: u32, height: u32) -> bool {
    1 <= width <= 0xFFFF && 1 <= height <= 0xFFFF
}

/// Relies on image's `JpegEncoder::new_with_quality` and `write_image`,
/// writing to an in-memory buffer: the encoded bytes are a function of the
/// quality, the dimensions and the pixel bytes alone, and a successful
/// encode has written at least the JPEG markers. `write_image` panics when
/// the buffer length does not match the dimensions, which the precondition
/// rules out. With the buffer exact and every write going to a `Vec`
/// (whose writes cannot fail), the one remaining error path is the
/// encoder's dimension check: it encodes if and only if both dimensions
/// fit in 16 bits and neither is zero.
#[verifier::external_body]
fn encode_rgb_jpeg(rgb: &Vec<u8>, width: u32, height: u32, quality: u8) -> (r: Option<Vec<u8>>)
    requires
        rgb@.len() == width * height * 3,
    ensures
        r matches Some(v) ==> v@ == jpeg_bytes(quality, width, height, rgb@) && v@.len() > 0,
        r is Some <==> encodable_dims(width, height),
{
    let mut out: Vec<u8> = Vec::new();
    let encoder = image::codecs::jpeg::JpegEncoder::new_with_quality(&mut out, quality);
    match image::ImageEncoder::write_image(encoder, rgb, width, height, image::ExtendedColorType::Rgb8) {
        Ok(()) => Some(out),
        Err(_) => None,
    }
}

/// The frame encoder: compresses a well-formed RGB buffer into a JPEG
/// byte stream at the fixed quality. Encoding succeeds exactly on the
/// dimensions the format can carry; anything else yields an empty buffer —
/// the frame is dropped, never a fatal error.
pub fn encode_frame(rgb: &Vec<u8>, width: u32, height: u32) -> (r: Vec<u8>)
    requires
        rgb@.len() == width * height * 3,
    ensures
        r@.len() > 0 ==> r@ == jpeg_bytes(JPEG_QUALITY, width, height, rgb@),
        encodable_dims(width, height) ==> r@ == jpeg_bytes(JPEG_QUALITY, width, height, rgb@)
            && r@.len() > 0,
        !encodable_dims(width, height) ==> r@.len() == 0,
{
    match encode_rgb_jpeg(rgb, width, height, JPEG_QUALITY) {
        Some(compressed) => compressed,
        None => Vec::new(),
    }
}

/// The whole per-frame compression as one call: converts a raw BGRA frame
/// to RGB and encodes it. A well-formed frame with dimensions the format
/// can carry always yields its encoding; a raw buffer of the wrong length,
/// or dimensions the encoder rejects, yields an empty buffer: that frame
/// is dropped and the pipeline goes on with the next one.
pub fn compress_frame(raw_bgra: Vec<u8>, width: u32, height: u32) -> (r: Vec<u8>)
    ensures
        raw_bgra@.len() != width * height * 4 ==> r@.len() == 0,
        r@.len() > 0 ==> raw_bgra@.len() == width * height * 4
            && r@ == jpeg_bytes(JPEG_QUALITY, width, height, rgb_of(raw_bgra@)),
        raw_bgra@.len() == width * height * 4 && encodable_dims(width, height) ==> r@
            == jpeg_bytes(JPEG_QUALITY, width, height, rgb_of(raw_bgra@)) && r@.len() > 0,
        raw_bgra@.len() == width * height * 4 && !encodable_dims(width, height) ==> r@.len() == 0,
{
    let rgb = match convert_bgra_to_rgb(&raw_bgra, width, height) {
        Some(rgb) => rgb,
        None => {
            return Vec::new();
        },
    };
    encode_frame(&rgb, width, height)
}

} // verus!
