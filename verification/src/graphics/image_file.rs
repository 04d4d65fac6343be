//! Decoding the contents of image files into tightly packed RGBA8 texels.
use vstd::prelude::*;

verus! {

/// What decoding `bytes` as an image of the format that the file extension
/// `extension` names gives: its width, its height and its texels converted
/// to RGBA8, row by row; `None` when the extension names no known format or
/// the bytes are not such an image.
pub uninterp spec fn decoded_rgba8(bytes: Seq<u8>, extension: Seq<char>) -> Option<(u32, u32, Seq<u8>)>;

/// The view of a decoded image as plain values.
pub open spec fn decoded_view(r: Option<(u32, u32, Vec<u8>)>) -> Option<(u32, u32, Seq<u8>)> {
    match r {
        Some((w, h, t)) => Some((w, h, t@)),
        None => None,
    }
}

/// Picks the format with `image::ImageFormat::from_extension`, decodes with
/// `image::load_from_memory_with_format` and converts with
/// `DynamicImage::to_rgba8`. The contract claims that the result is the one
/// named by [decoded_rgba8], a function of the two arguments, and that the
/// texels hold four bytes for each pixel, as an `RgbaImage` does.
#[verifier::external_body]
pub(crate) fn decode_rgba8(bytes: &[u8], extension: &str) -> (r: Option<(u32, u32, Vec<u8>)>)
    ensures
        decoded_view(r) == decoded_rgba8(bytes@, extension@),
        r matches Some((w, h, t)) ==> t@.len() == 4 * w * h,
{
    let format = image::ImageFormat::from_extension(extension)?;
    let rgba = image::load_from_memory_with_format(bytes, format).ok()?.to_rgba8();
    let (width, height) = rgba.dimensions();
    Some((width, height, rgba.into_raw()))
}

} // verus!
