//! Decoding of encoded image bytes into RGBA pixels.
//!
//! The decoding itself is the image crate's work and is not verified; its
//! result is a pure function of the input bytes and is given the name
//! [`decoded_rgba`], which the texture layer's contracts build on.

use vstd::prelude::*;

verus! {

/// What decoding a byte string yields: `Some((width, height, rgba_bytes))`
/// for a recognized image, `None` for bytes no supported format can decode.
pub uninterp spec fn decoded_rgba(bytes: Seq<u8>) -> Option<(u32, u32, Seq<u8>)>;

/// Relies on `image::guess_format`, which recognizes a format purely from
/// the leading magic bytes, and on `image::load_from_memory_with_format`
/// with that built-in format, which runs the crate's own decoder for it;
/// `DynamicImage::to_rgba8` then coerces any decoded color model to 4-byte
/// RGBA.  None of these consults state outside the bytes, so the result is
/// a function of the bytes alone, and the buffer an `ImageBuffer` carries
/// has exactly `4 * width * height` bytes.
#[verifier::external_body]
pub(crate) fn decode_rgba(bytes: &[u8]) -> (r: Result<(u32, u32, Vec<u8>), String>)
    ensures
        match r {
            Ok((w, h, px)) => {
                &&& decoded_rgba(bytes@) == Some((w, h, px@))
                &&& px@.len() == 4 * w * h
            },
            Err(_) => decoded_rgba(bytes@) is None,
        },
{
    let format = match image::guess_format(bytes) {
        Ok(format) => format,
        Err(e) => {
            return Err(e.to_string());
        },
    };
    match image::load_from_memory_with_format(bytes, format) {
        Ok(img) => {
            let rgba = img.to_rgba8();
            let (w, h) = rgba.dimensions();
            Ok((w, h, rgba.into_raw()))
        },
        Err(e) => Err(e.to_string()),
    }
}

} // verus!
