//! The one call into the `image` crate: decoding an MJPEG frame (a single
//! JPEG picture) to an RGB24 raster.

use vstd::prelude::*;

verus! {

/// The result of JPEG-decoding a byte sequence to RGB24: the width, height
/// and raster of the decoded picture, or `None` when the bytes are not a
/// decodable JPEG.
pub uninterp spec fn jpeg_decode(s: Seq<u8>) -> Option<(u32, u32, Seq<u8>)>;

/// Relies on `image::load_from_memory_with_format` with the JPEG format and
/// `DynamicImage::to_rgb8`: decoding is a pure function of the input bytes,
/// and the raster buffer of an RGB8 image holds exactly `width * height * 3`
/// samples.
#[verifier::external_body]
pub(crate) fn decode_jpeg(data: &[u8]) -> (r: Option<(u32, u32, Vec<u8>)>)
    ensures
        r is Some <==> jpeg_decode(data@) is Some,
        r matches Some(t) ==> jpeg_decode(data@) == Some((t.0, t.1, t.2@)),
        r matches Some(t) ==> t.2@.len() == t.0 * t.1 * 3,
{
    match image::load_from_memory_with_format(data, image::ImageFormat::Jpeg) {
        Ok(img) => {
            let rgb = img.to_rgb8();
            let (w, h) = rgb.dimensions();
            Some((w, h, rgb.into_raw()))
        },
        Err(_) => None,
    }
}

} // verus!
