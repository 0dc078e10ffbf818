//! Artwork decoding under strict dimension and allocation limits, so a
//! hostile or broken thumbnail can never make the player allocate without
//! bound.

use vstd::prelude::*;

verus! {

/// Widest and tallest thumbnail accepted, in pixels.
pub const THUMBNAIL_MAX_DIMENSION: u32 = 4096;
/// Largest allocation the decoder may make, in bytes.
pub const THUMBNAIL_MAX_ALLOC: u64 = 64 * 1024 * 1024;

/// A decoded picture as 8-bit RGBA rows.
pub struct DecodedImage {
    pub width: u32,
    pub height: u32,
    /// `width * height` pixels of four bytes each, row by row.
    pub rgba: Vec<u8>,
}

/// Why artwork could not be shown.
#[derive(PartialEq, Eq, Structural, Clone, Copy, Debug)]
pub enum ThumbnailError {
    /// The bytes are no image the decoder knows, are corrupt, or exceed the limits.
    Undecodable,
}

#[verifier::external_type_specification]
#[verifier::external_body]
pub struct ExImageError(image::ImageError);

/// Width, height and RGBA bytes that the image crate decodes `bytes` to
/// under the given limits, or nothing when it refuses them.
pub uninterp spec fn rgba_decoding(bytes: Seq<u8>, max_width: u32, max_height: u32, max_alloc: u64) -> Option<
    (u32, u32, Seq<u8>),
>;

/// `image::ImageReader` with guessed format and `Limits` set to the given
/// strict width and height limits and allocation limit, then `decode` and
/// `DynamicImage::to_rgba8`. The outcome depends on the bytes and limits
/// alone and is named `rgba_decoding`; which bytes decode, and to which
/// pixels, is not restated. The limits are strict, so a decoded image never
/// exceeds them, and an RGBA buffer holds four bytes per pixel.
#[verifier::external_body]
fn decode_rgba_within(bytes: &[u8], max_width: u32, max_height: u32, max_alloc: u64) -> (decoded: Result<
    DecodedImage,
    image::ImageError,
>)
    ensures
        match decoded {
            Ok(picture) => rgba_decoding(bytes@, max_width, max_height, max_alloc) == Some(
                (picture.width, picture.height, picture.rgba@),
            ),
            Err(_) => rgba_decoding(bytes@, max_width, max_height, max_alloc) is None,
        },
        decoded matches Ok(picture) ==> {
            &&& picture.width <= max_width
            &&& picture.height <= max_height
            &&& picture.rgba@.len() == 4 * picture.width * picture.height
        },
{
    let mut reader = image::ImageReader::new(std::io::Cursor::new(bytes))
        .with_guessed_format()
        .map_err(image::ImageError::IoError)?;
    let mut limits = image::Limits::default();
    limits.max_image_width = Some(max_width);
    limits.max_image_height = Some(max_height);
    limits.max_alloc = Some(max_alloc);
    reader.limits(limits);
    let rgba = reader.decode()?.to_rgba8();
    Ok(DecodedImage { width: rgba.width(), height: rgba.height(), rgba: rgba.into_raw() })
}

/// Decode artwork, refusing anything wider or taller than
/// `THUMBNAIL_MAX_DIMENSION` or needing more than `THUMBNAIL_MAX_ALLOC` bytes.
pub fn decode_thumbnail(bytes: &[u8]) -> (decoded: Result<DecodedImage, ThumbnailError>)
    ensures
        match rgba_decoding(bytes@, THUMBNAIL_MAX_DIMENSION, THUMBNAIL_MAX_DIMENSION, THUMBNAIL_MAX_ALLOC) {
            Some((width, height, rgba)) => decoded matches Ok(picture) && picture.width == width
                && picture.height == height && picture.rgba@ == rgba,
            None => decoded == Err::<DecodedImage, ThumbnailError>(ThumbnailError::Undecodable),
        },
        decoded matches Ok(picture) ==> {
            &&& picture.width <= THUMBNAIL_MAX_DIMENSION
            &&& picture.height <= THUMBNAIL_MAX_DIMENSION
            &&& picture.rgba@.len() == 4 * picture.width * picture.height
        },
{
    match decode_rgba_within(bytes, THUMBNAIL_MAX_DIMENSION, THUMBNAIL_MAX_DIMENSION, THUMBNAIL_MAX_ALLOC) {
        Ok(picture) => Ok(picture),
        Err(_) => Err(ThumbnailError::Undecodable),
    }
}

} // verus!
