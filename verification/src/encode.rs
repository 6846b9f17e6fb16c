//! The encode step: a normalized pixel buffer becomes a compressed image
//! byte stream, ready to be written to the sink.

use vstd::prelude::*;

use crate::error::CaptureError;
use crate::format::{is_supported, FrameFormat};
use crate::normalize::{normalize, normalized};
use image::ImageEncoder;

verus! {

/// The compressed image stream the encoder produces for a pixel buffer in
/// red, green, blue, alpha order with the given dimensions.  The encoding
/// depends on the bytes and the dimensions alone.
pub uninterp spec fn jpeg_of(pixels: Seq<u8>, width: u32, height: u32) -> Seq<u8>;

#[verifier::external_type_specification]
#[verifier::external_body]
pub struct ExImageError(image::error::ImageError);

/// Relies on image's JPEG encoder, `JpegEncoder::write_image` into an
/// in-memory vector: the encoding is a function of the pixel bytes and the
/// dimensions alone; writing to a vector cannot fail; the encoder accepts
/// exactly the dimensions that fit in 16 bits and rejects larger ones with
/// an error; it insists on a buffer of exactly four bytes per pixel.
#[verifier::external_body]
fn jpeg_encode_rgba(data: &Vec<u8>, width: u32, height: u32) -> (r: Result<
    Vec<u8>,
    image::error::ImageError,
>)
    requires
        data@.len() == 4 * width * height,
    ensures
        r is Ok <==> (width <= 0xffff && height <= 0xffff),
        r matches Ok(v) ==> v@ == jpeg_of(data@, width, height),
{
    let mut out: Vec<u8> = Vec::new();
    let encoder = image::codecs::jpeg::JpegEncoder::new(&mut out);
    match encoder.write_image(data.as_slice(), width, height, image::ColorType::Rgba8) {
        Ok(()) => Ok(out),
        Err(e) => Err(e),
    }
}

/// Normalizes the buffer in place and encodes it as a compressed image
/// stream.
///
/// Succeeds exactly when the buffer holds four bytes per pixel of the
/// declared dimensions and both dimensions fit in 16 bits; every failure is
/// `Encode`.  The buffer is left normalized either way.
pub fn encode_frame(data: &mut Vec<u8>, format: FrameFormat) -> (r: Result<Vec<u8>, CaptureError>)
    requires
        is_supported(format.format),
    ensures
        final(data)@ == normalized(old(data)@, format.format),
        r matches Ok(v) ==> v@ == jpeg_of(
            normalized(old(data)@, format.format),
            format.width,
            format.height,
        ),
        r is Ok <==> (old(data)@.len() == 4 * format.width * format.height && format.width
            <= 0xffff && format.height <= 0xffff),
        r is Err ==> r == Err::<Vec<u8>, CaptureError>(CaptureError::Encode),
{
    normalize(data, format.format);
    let w = format.width;
    let h = format.height;
    proof {
        assert((w as int) * (h as int) <= 0xffff_ffff * 0xffff_ffff) by (nonlinear_arith)
            requires
                w <= 0xffff_ffffu32,
                h <= 0xffff_ffffu32,
        ;
        assert(4 * (w as int) * (h as int) == 4 * ((w as int) * (h as int))) by (nonlinear_arith);
    }
    let wh: u64 = (w as u64) * (h as u64);
    if (data.len() as u128) == 4u128 * (wh as u128) {
        match jpeg_encode_rgba(data, w, h) {
            Ok(v) => Ok(v),
            Err(_) => Err(CaptureError::Encode),
        }
    } else {
        Err(CaptureError::Encode)
    }
}

} // verus!
