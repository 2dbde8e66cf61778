//! The calls into the `image` crate: decoding a source file, reading its
//! color profile, taking out its pixels as 8-bit RGB, and encoding such
//! pixels as JPEG; and recognising a JPEG file by its signature.

use vstd::prelude::*;

verus! {

/// Whether the bytes decode as an image.
pub uninterp spec fn decodes(bytes: Seq<u8>) -> bool;

/// Width and height of the image that the bytes decode to.
pub uninterp spec fn decoded_size(bytes: Seq<u8>) -> (u32, u32);

/// The 8-bit RGB samples, three per pixel and row by row, of the image that
/// the bytes decode to.
pub uninterp spec fn decoded_rgb8(bytes: Seq<u8>) -> Seq<u8>;

/// The JPEG that encoding 8-bit RGB pixels of the given size at the given
/// quality, with the given color profile (none where empty), yields; `None`
/// where the encoder refuses them.
pub uninterp spec fn jpeg_encoding(pixels: Seq<u8>, width: u32, height: u32, icc_profile: Seq<u8>, quality: u8) -> Option<
    Seq<u8>,
>;

/// The color profile that a JPEG file embeds, if it embeds one and its
/// headers can be read.
pub uninterp spec fn embedded_icc_profile(bytes: Seq<u8>) -> Option<Seq<u8>>;

/// Whether data starts with the signature of a JPEG file.
pub open spec fn jpeg_signature(bytes: Seq<u8>) -> bool {
    bytes.len() >= 3 && bytes[0] == 0xFFu8 && bytes[1] == 0xD8u8 && bytes[2] == 0xFFu8
}

/// Whether data starts with the signature of a JPEG file, the test by
/// which the `image` crate recognises the format.
pub fn is_jpeg(bytes: &[u8]) -> (r: bool)
    ensures
        r == jpeg_signature(bytes@),
{
    bytes.len() >= 3 && bytes[0] == 0xFFu8 && bytes[1] == 0xD8u8 && bytes[2] == 0xFFu8
}

/// Relies on `image::codecs::jpeg::JpegDecoder` (`new`, then
/// `ImageDecoder::icc_profile`): the profile read from the headers, which
/// depend on the bytes alone. A file whose headers cannot be read counts as
/// having none.
#[verifier::external_body]
pub(crate) fn read_icc_profile(bytes: &[u8]) -> (r: Option<Vec<u8>>)
    ensures
        r matches Some(p) ==> embedded_icc_profile(bytes@) == Some(p@),
        r is None ==> embedded_icc_profile(bytes@) is None,
{
    let decoder = image::codecs::jpeg::JpegDecoder::new(std::io::Cursor::new(bytes));
    match decoder.and_then(|mut d| image::ImageDecoder::icc_profile(&mut d)) {
        Ok(profile) => profile,
        Err(_) => None,
    }
}

/// Relies on `image::load_from_memory` and `GenericImageView::dimensions`:
/// width and height of the decoded image, which depend on the bytes alone.
#[verifier::external_body]
pub(crate) fn probe_dimensions(bytes: &[u8]) -> (r: Result<(u32, u32), image::ImageError>)
    ensures
        r is Ok <==> decodes(bytes@),
        r matches Ok(size) ==> size == decoded_size(bytes@),
{
    match image::load_from_memory(bytes) {
        Ok(image) => Ok(image::GenericImageView::dimensions(&image)),
        Err(e) => Err(e),
    }
}

/// Relies on `image::load_from_memory` and `DynamicImage::to_rgb8`: the
/// decoded image as 8-bit RGB, taken apart into width, height and samples.
/// The conversion keeps the size and fills exactly three samples per pixel.
#[verifier::external_body]
pub(crate) fn decode_rgb8(bytes: &[u8]) -> (r: Result<(u32, u32, Vec<u8>), image::ImageError>)
    ensures
        r is Ok <==> decodes(bytes@),
        r matches Ok((w, h, p)) ==> (w, h) == decoded_size(bytes@) && p@ == decoded_rgb8(bytes@) && p@.len() == 3
            * (w as int) * (h as int),
{
    match image::load_from_memory(bytes) {
        Ok(image) => {
            let rgb = image.to_rgb8();
            Ok((rgb.width(), rgb.height(), rgb.into_raw()))
        },
        Err(e) => Err(e),
    }
}

/// Relies on `image::codecs::jpeg::JpegEncoder` (`new_with_quality`,
/// `ImageEncoder::set_icc_profile`, then `encode` as 8-bit RGB into a
/// `Vec`): the output depends on the pixels, the size, the profile and the
/// quality alone, and an empty profile is not written. `encode` panics
/// unless the buffer holds three bytes for each pixel.
#[verifier::external_body]
pub(crate) fn encode_jpeg(pixels: &[u8], width: u32, height: u32, icc_profile: &[u8], quality: u8) -> (r: Result<
    Vec<u8>,
    image::ImageError,
>)
    requires
        pixels@.len() == 3 * (width as int) * (height as int),
    ensures
        r matches Ok(bytes) ==> jpeg_encoding(pixels@, width, height, icc_profile@, quality) == Some(bytes@),
        r is Err ==> jpeg_encoding(pixels@, width, height, icc_profile@, quality) is None,
{
    let mut out: Vec<u8> = Vec::new();
    let mut encoder = image::codecs::jpeg::JpegEncoder::new_with_quality(&mut out, quality);
    let encoded = match image::ImageEncoder::set_icc_profile(&mut encoder, icc_profile.to_vec()) {
        Ok(()) => encoder.encode(pixels, width, height, image::ExtendedColorType::Rgb8),
        Err(e) => Err(image::ImageError::Unsupported(e)),
    };
    encoded.map(|()| out)
}

} // verus!
