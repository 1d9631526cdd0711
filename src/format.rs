use vstd::prelude::*;

verus! {

/// Whether two strings hold the same characters.
pub fn same_text(a: &str, b: &str) -> (r: bool)
    ensures
        r == (a@ == b@),
{
    let x = a.to_owned();
    let y = b.to_owned();
    x == y
}

/// The image containers that the loader can be asked for.
#[derive(PartialEq, Eq, Structural, Clone, Copy, Debug)]
pub enum ImageFormat {
    Basis,
    Bmp,
    Png,
    Dds,
    Tga,
    Jpeg,
    Ktx2,
    WebP,
    Pnm,
}

/// The format named by a file extension, if any.
pub open spec fn format_of_extension(ext: Seq<char>) -> Option<ImageFormat> {
    if ext == "basis"@ {
        Some(ImageFormat::Basis)
    } else if ext == "bmp"@ {
        Some(ImageFormat::Bmp)
    } else if ext == "png"@ {
        Some(ImageFormat::Png)
    } else if ext == "dds"@ {
        Some(ImageFormat::Dds)
    } else if ext == "tga"@ {
        Some(ImageFormat::Tga)
    } else if ext == "jpg"@ || ext == "jpeg"@ {
        Some(ImageFormat::Jpeg)
    } else if ext == "ktx2"@ {
        Some(ImageFormat::Ktx2)
    } else if ext == "webp"@ {
        Some(ImageFormat::WebP)
    } else if ext == "pam"@ || ext == "pbm"@ || ext == "pgm"@ || ext == "ppm"@ {
        Some(ImageFormat::Pnm)
    } else {
        None
    }
}

/// The formats whose pixels come from the general raster decoder.
#[derive(PartialEq, Eq, Structural, Clone, Copy, Debug)]
pub enum RasterFormat {
    Bmp,
    Png,
    Dds,
    Tga,
    Jpeg,
    WebP,
    Pnm,
}

/// The raster format of `f`; none for the GPU container formats, which need
/// a transcoder.
pub open spec fn raster_of(f: ImageFormat) -> Option<RasterFormat> {
    match f {
        ImageFormat::Basis => None,
        ImageFormat::Bmp => Some(RasterFormat::Bmp),
        ImageFormat::Png => Some(RasterFormat::Png),
        ImageFormat::Dds => Some(RasterFormat::Dds),
        ImageFormat::Tga => Some(RasterFormat::Tga),
        ImageFormat::Jpeg => Some(RasterFormat::Jpeg),
        ImageFormat::Ktx2 => None,
        ImageFormat::WebP => Some(RasterFormat::WebP),
        ImageFormat::Pnm => Some(RasterFormat::Pnm),
    }
}

impl ImageFormat {
    /// The format that a file extension names (lower case, without the dot).
    pub fn from_extension(ext: &str) -> (r: Option<ImageFormat>)
        ensures
            r == format_of_extension(ext@),
    {
        if same_text(ext, "basis") {
            Some(ImageFormat::Basis)
        } else if same_text(ext, "bmp") {
            Some(ImageFormat::Bmp)
        } else if same_text(ext, "png") {
            Some(ImageFormat::Png)
        } else if same_text(ext, "dds") {
            Some(ImageFormat::Dds)
        } else if same_text(ext, "tga") {
            Some(ImageFormat::Tga)
        } else if same_text(ext, "jpg") || same_text(ext, "jpeg") {
            Some(ImageFormat::Jpeg)
        } else if same_text(ext, "ktx2") {
            Some(ImageFormat::Ktx2)
        } else if same_text(ext, "webp") {
            Some(ImageFormat::WebP)
        } else if same_text(ext, "pam") || same_text(ext, "pbm") || same_text(ext, "pgm")
            || same_text(ext, "ppm") {
            Some(ImageFormat::Pnm)
        } else {
            None
        }
    }

    /// The raster format of this format, if the raster decoder reads it.
    pub fn raster(&self) -> (r: Option<RasterFormat>)
        ensures
            r == raster_of(*self),
    {
        match self {
            ImageFormat::Basis => None,
            ImageFormat::Bmp => Some(RasterFormat::Bmp),
            ImageFormat::Png => Some(RasterFormat::Png),
            ImageFormat::Dds => Some(RasterFormat::Dds),
            ImageFormat::Tga => Some(RasterFormat::Tga),
            ImageFormat::Jpeg => Some(RasterFormat::Jpeg),
            ImageFormat::Ktx2 => None,
            ImageFormat::WebP => Some(RasterFormat::WebP),
            ImageFormat::Pnm => Some(RasterFormat::Pnm),
        }
    }
}

} // verus!
