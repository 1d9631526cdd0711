use vstd::prelude::*;

use crate::format::RasterFormat;

verus! {

/// The error type of the `image` crate's decoders.
#[verifier::external_type_specification]
#[verifier::external_body]
pub struct ExImageError(image::ImageError);

/// Pixels of a decoded raster image, as 8-bit RGBA rows.
pub struct RasterImage {
    pub width: u32,
    pub height: u32,
    pub data: Vec<u8>,
}

/// What `std::path::Path::extension` gives for a path: the part of the file
/// name after its last dot, if the name has one that does not start it.
pub uninterp spec fn extension_of(path: Seq<char>) -> Option<Seq<char>>;

/// What `image::load_from_memory_with_format` followed by `to_rgba8` gives
/// for some bytes: width, height and RGBA pixels, or nothing where the bytes
/// are no image of that format.
pub uninterp spec fn raster_decoding(bytes: Seq<u8>, format: RasterFormat) -> Option<(u32, u32, Seq<u8>)>;

/// Relies on `std::path::Path::extension`; a `&str` path is valid UTF-8, so
/// the extension converts back to a string.
#[verifier::external_body]
pub(crate) fn path_extension(path: &str) -> (r: Option<String>)
    ensures
        match r {
            Some(e) => extension_of(path@) == Some(e@),
            None => extension_of(path@) is None,
        },
{
    std::path::Path::new(path).extension().and_then(|e| e.to_str()).map(|e| e.to_owned())
}

/// Relies on `image::load_from_memory_with_format` to decode the bytes as the
/// given format, and on `DynamicImage::to_rgba8` to convert the pixels; both
/// depend on their arguments alone.
#[verifier::external_body]
pub(crate) fn decode_raster(bytes: &[u8], format: RasterFormat) -> (r: Result<RasterImage, image::ImageError>)
    ensures
        match r {
            Ok(img) => raster_decoding(bytes@, format) == Some((img.width, img.height, img.data@)),
            Err(_) => raster_decoding(bytes@, format) is None,
        },
{
    let f = match format {
        RasterFormat::Bmp => image::ImageFormat::Bmp,
        RasterFormat::Png => image::ImageFormat::Png,
        RasterFormat::Dds => image::ImageFormat::Dds,
        RasterFormat::Tga => image::ImageFormat::Tga,
        RasterFormat::Jpeg => image::ImageFormat::Jpeg,
        RasterFormat::WebP => image::ImageFormat::WebP,
        RasterFormat::Pnm => image::ImageFormat::Pnm,
    };
    let rgba = image::load_from_memory_with_format(bytes, f)?.to_rgba8();
    Ok(RasterImage { width: rgba.width(), height: rgba.height(), data: rgba.into_raw() })
}

/// Relies on the `Display` impl of `image::ImageError` for its message.
#[verifier::external_body]
pub(crate) fn image_error_text(e: &image::ImageError) -> (r: String) {
    e.to_string()
}

} // verus!
