use vstd::prelude::*;
use vstd::string::StringExecFns;

use crate::bindings::{
    decode_raster, extension_of, image_error_text, path_extension, raster_decoding, RasterImage,
};
use crate::extensions::{
    disabled_img_file_extensions, disabled_in, extension_table, img_file_extensions, texts,
    enabled_in, FeatureSet,
};
use crate::format::{format_of_extension, raster_of, ImageFormat};

verus! {

/// The compressed texture families that a graphics device can sample.
#[derive(PartialEq, Eq, Structural, Clone, Copy, Debug)]
pub struct CompressedImageFormats {
    pub astc_ldr: bool,
    pub bc: bool,
    pub etc2: bool,
}

impl CompressedImageFormats {
    /// The empty set: no compressed family is supported.
    pub fn none() -> (r: CompressedImageFormats)
        ensures
            r == no_compressed_formats(),
    {
        CompressedImageFormats { astc_ldr: false, bc: false, etc2: false }
    }
}

pub open spec fn no_compressed_formats() -> CompressedImageFormats {
    CompressedImageFormats { astc_ldr: false, bc: false, etc2: false }
}

/// How an image is sampled once it is a texture.
#[derive(PartialEq, Eq, Structural, Clone, Copy, Debug)]
pub enum ImageSampler {
    Default,
    Linear,
    Nearest,
}

/// Whether decoded pixels stay in CPU memory after the upload to the GPU.
#[derive(PartialEq, Eq, Structural, Clone, Copy, Debug)]
pub enum RenderAssetPersistencePolicy {
    Unload,
    Keep,
}

/// Where the format of an image comes from.
#[derive(PartialEq, Eq, Structural, Clone, Copy, Debug)]
pub enum ImageFormatSetting {
    FromExtension,
    Format(ImageFormat),
}

impl Default for ImageFormatSetting {
    fn default() -> (r: Self)
        ensures
            r == ImageFormatSetting::FromExtension,
    {
        ImageFormatSetting::FromExtension
    }
}

/// The settings of one load.
#[derive(PartialEq, Eq, Structural, Clone, Copy, Debug)]
pub struct ImageLoaderSettings {
    pub format: ImageFormatSetting,
    pub is_srgb: bool,
    pub sampler: ImageSampler,
    pub cpu_persistent_access: RenderAssetPersistencePolicy,
}

impl Default for ImageLoaderSettings {
    fn default() -> (r: Self)
        ensures
            r.format == ImageFormatSetting::FromExtension,
            r.is_srgb,
            r.sampler == ImageSampler::Default,
            r.cpu_persistent_access == RenderAssetPersistencePolicy::Keep,
    {
        ImageLoaderSettings {
            format: ImageFormatSetting::default(),
            is_srgb: true,
            sampler: ImageSampler::Default,
            cpu_persistent_access: RenderAssetPersistencePolicy::Keep,
        }
    }
}

/// What decides the format of an image: a file extension or a named format.
#[derive(Debug)]
pub enum ImageType {
    Extension(String),
    Format(ImageFormat),
}

/// A decoded image, with the settings it was loaded with.
#[derive(Debug)]
pub struct Image {
    pub width: u32,
    pub height: u32,
    pub data: Vec<u8>,
    pub format: ImageFormat,
    pub is_srgb: bool,
    pub sampler: ImageSampler,
    pub cpu_persistent_access: RenderAssetPersistencePolicy,
}

/// Why a buffer could not become an image.
#[derive(Debug)]
pub enum TextureError {
    MissingExtension,
    InvalidImageExtension(String),
    UnsupportedTextureFormat(ImageFormat),
    ImageError(image::ImageError),
}

/// A texture error without its payload of the decoder.
pub enum TextureErrorKind {
    MissingExtension,
    InvalidImageExtension(Seq<char>),
    UnsupportedTextureFormat(ImageFormat),
    ImageDecoding,
}

impl TextureError {
    pub open spec fn kind(self) -> TextureErrorKind {
        match self {
            TextureError::MissingExtension => TextureErrorKind::MissingExtension,
            TextureError::InvalidImageExtension(e) => TextureErrorKind::InvalidImageExtension(e@),
            TextureError::UnsupportedTextureFormat(f) => TextureErrorKind::UnsupportedTextureFormat(f),
            TextureError::ImageError(_) => TextureErrorKind::ImageDecoding,
        }
    }
}

/// A texture error together with the path of the file that caused it.
#[derive(Debug)]
pub struct FileTextureError {
    pub error: TextureError,
    pub path: String,
}

/// The ways a load can fail.
#[non_exhaustive]
#[derive(Debug)]
pub enum ImageLoaderError {
    Io(String),
    FileTexture(FileTextureError),
}

/// The format of a load, from the settings and the path: an explicit format
/// wins, else the path's extension names it.
pub open spec fn format_for_load(setting: ImageFormatSetting, path: Seq<char>) -> Result<ImageFormat, TextureErrorKind> {
    match setting {
        ImageFormatSetting::Format(f) => Ok(f),
        ImageFormatSetting::FromExtension => match extension_of(path) {
            None => Err(TextureErrorKind::MissingExtension),
            Some(e) => match format_of_extension(e) {
                Some(f) => Ok(f),
                None => Err(TextureErrorKind::InvalidImageExtension(e)),
            },
        },
    }
}

/// The decoded width, height and pixels of `bytes` read as `f`.
pub open spec fn decode_outcome(bytes: Seq<u8>, f: ImageFormat) -> Result<(u32, u32, Seq<u8>), TextureErrorKind> {
    match raster_of(f) {
        None => Err(TextureErrorKind::UnsupportedTextureFormat(f)),
        Some(rf) => match raster_decoding(bytes, rf) {
            Some(d) => Ok(d),
            None => Err(TextureErrorKind::ImageDecoding),
        },
    }
}

/// What a load of `bytes` from `path` yields: the format and the decoded
/// image, or why it fails.
pub open spec fn load_outcome(setting: ImageFormatSetting, path: Seq<char>, bytes: Seq<u8>) -> Result<(ImageFormat, (u32, u32, Seq<u8>)), TextureErrorKind> {
    match format_for_load(setting, path) {
        Err(k) => Err(k),
        Ok(f) => match decode_outcome(bytes, f) {
            Err(k) => Err(k),
            Ok(d) => Ok((f, d)),
        },
    }
}

/// `img` holds the decoded image `d` of format `f`, with the settings `s`.
pub open spec fn image_matches(img: Image, f: ImageFormat, d: (u32, u32, Seq<u8>), s: ImageLoaderSettings) -> bool {
    &&& img.width == d.0
    &&& img.height == d.1
    &&& img.data@ == d.2
    &&& img.format == f
    &&& img.is_srgb == s.is_srgb
    &&& img.sampler == s.sampler
    &&& img.cpu_persistent_access == s.cpu_persistent_access
}

/// `r` is the file texture error of kind `k` for the file at `path`.
pub open spec fn is_file_texture_error(r: ImageLoaderError, k: TextureErrorKind, path: Seq<char>) -> bool {
    match r {
        ImageLoaderError::FileTexture(e) => e.error.kind() == k && e.path@ == path,
        _ => false,
    }
}

/// The hint shown for an extension whose decoder is left out.
pub open spec fn hint_text(feature: Seq<char>) -> Seq<char> {
    "enabling bevy feature '"@ + feature + "'"@
}

/// The image type of a load: the explicit format of the settings, else the
/// extension of the file; none where the extension is needed and missing.
pub fn resolve_image_type(setting: &ImageFormatSetting, extension: Option<String>) -> (r: Option<ImageType>)
    ensures
        match *setting {
            ImageFormatSetting::Format(f) => r == Some(ImageType::Format(f)),
            ImageFormatSetting::FromExtension => match extension {
                Some(e) => r == Some(ImageType::Extension(e)),
                None => r is None,
            },
        },
{
    match setting {
        ImageFormatSetting::FromExtension => match extension {
            Some(e) => Some(ImageType::Extension(e)),
            None => None,
        },
        ImageFormatSetting::Format(f) => Some(ImageType::Format(*f)),
    }
}

/// The format that an image type names.
pub fn image_format_of(t: &ImageType) -> (r: Result<ImageFormat, TextureError>)
    ensures
        match *t {
            ImageType::Format(f) => r == Ok::<ImageFormat, TextureError>(f),
            ImageType::Extension(e) => match format_of_extension(e@) {
                Some(f) => r == Ok::<ImageFormat, TextureError>(f),
                None => r is Err && r->Err_0.kind() == TextureErrorKind::InvalidImageExtension(e@),
            },
        },
{
    match t {
        ImageType::Format(f) => Ok(*f),
        ImageType::Extension(e) => match ImageFormat::from_extension(e.as_str()) {
            Some(f) => Ok(f),
            None => Err(TextureError::InvalidImageExtension(e.clone())),
        },
    }
}

/// Decodes `bytes` as an image of format `f`.
pub fn decode_buffer(bytes: &[u8], f: ImageFormat) -> (r: Result<RasterImage, TextureError>)
    ensures
        match decode_outcome(bytes@, f) {
            Ok(d) => r is Ok && (r->Ok_0.width, r->Ok_0.height, r->Ok_0.data@) == d,
            Err(k) => r is Err && r->Err_0.kind() == k,
        },
{
    match f.raster() {
        None => Err(TextureError::UnsupportedTextureFormat(f)),
        Some(rf) => match decode_raster(bytes, rf) {
            Ok(img) => Ok(img),
            Err(e) => Err(TextureError::ImageError(e)),
        },
    }
}

/// The result of a load from what decoding gave: the image with the settings
/// applied, or the error together with the path of the file.
pub fn finish_load(
    decoded: Result<RasterImage, TextureError>,
    f: ImageFormat,
    settings: &ImageLoaderSettings,
    path: &str,
) -> (r: Result<Image, ImageLoaderError>)
    ensures
        match decoded {
            Ok(d) => r is Ok && image_matches(r->Ok_0, f, (d.width, d.height, d.data@), *settings),
            Err(e) => r is Err && is_file_texture_error(r->Err_0, e.kind(), path@),
        },
{
    match decoded {
        Ok(d) => Ok(Image {
            width: d.width,
            height: d.height,
            data: d.data,
            format: f,
            is_srgb: settings.is_srgb,
            sampler: settings.sampler,
            cpu_persistent_access: settings.cpu_persistent_access,
        }),
        Err(e) => Err(ImageLoaderError::FileTexture(FileTextureError { error: e, path: path.to_owned() })),
    }
}

/// Loader for images in the formats that the image decoders read.
#[derive(Clone, Copy, Debug)]
pub struct ImageLoader {
    pub supported_compressed_formats: CompressedImageFormats,
    pub features: FeatureSet,
}

impl ImageLoader {
    /// A loader for a build with `features`, given the compressed formats of
    /// the render device, if there is one.
    pub fn from_resources(render_device_formats: Option<CompressedImageFormats>, features: FeatureSet) -> (r: ImageLoader)
        ensures
            r.supported_compressed_formats == match render_device_formats {
                Some(c) => c,
                None => no_compressed_formats(),
            },
            r.features == features,
    {
        let supported_compressed_formats = match render_device_formats {
            Some(c) => c,
            None => CompressedImageFormats::none(),
        };
        ImageLoader { supported_compressed_formats, features }
    }

    /// Loads the image in `bytes`, read from the file at `path`.
    pub fn load(&self, bytes: &[u8], settings: &ImageLoaderSettings, path: &str) -> (r: Result<Image, ImageLoaderError>)
        ensures
            match load_outcome(settings.format, path@, bytes@) {
                Ok((f, d)) => r is Ok && image_matches(r->Ok_0, f, d, *settings),
                Err(k) => r is Err && is_file_texture_error(r->Err_0, k, path@),
            },
    {
        let ext = path_extension(path);
        let image_type = match resolve_image_type(&settings.format, ext) {
            Some(t) => t,
            None => {
                let e = FileTextureError { error: TextureError::MissingExtension, path: path.to_owned() };
                return Err(ImageLoaderError::FileTexture(e));
            },
        };
        let f = match image_format_of(&image_type) {
            Ok(f) => f,
            Err(e) => {
                return Err(ImageLoaderError::FileTexture(FileTextureError { error: e, path: path.to_owned() }));
            },
        };
        let decoded = decode_buffer(bytes, f);
        finish_load(decoded, f, settings, path)
    }

    /// The extensions that this loader claims.
    pub fn extensions(&self) -> (r: Vec<&'static str>)
        ensures
            texts(r@) == enabled_in(extension_table(), self.features),
    {
        img_file_extensions(&self.features)
    }

    /// For each extension of the table that this build cannot load, the hint
    /// that names the feature that would enable it.
    pub fn extension_hints(&self) -> (r: Vec<(&'static str, String)>)
        ensures
            r@.len() == disabled_in(extension_table(), self.features).len(),
            forall|i: int| 0 <= i < r@.len() ==> {
                let d = #[trigger] disabled_in(extension_table(), self.features)[i];
                r@[i].0@ == d.0 && r@[i].1@ == hint_text(d.1)
            },
    {
        let disabled = disabled_img_file_extensions(&self.features);
        let ghost dv = disabled_in(extension_table(), self.features);
        let mut out: Vec<(&'static str, String)> = Vec::new();
        let mut i: usize = 0;
        while i < disabled.len()
            invariant
                i <= disabled.len(),
                crate::extensions::disabled_view(disabled@) == dv,
                out@.len() == i,
                forall|j: int| 0 <= j < i ==> {
                    let d = #[trigger] dv[j];
                    out@[j].0@ == d.0 && out@[j].1@ == hint_text(d.1)
                },
            decreases disabled.len() - i,
        {
            let d = disabled[i];
            assert(dv[i as int] == (d.extension@, d.feature@));
            let hint = String::from_str("enabling bevy feature '").concat(d.feature).concat("'");
            out.push((d.extension, hint));
            i = i + 1;
        }
        out
    }
}

/// With an explicit format in the settings, a load reads that format and its
/// outcome does not depend on the path, whatever extension it has or lacks.
pub proof fn lemma_explicit_format_ignores_extension(f: ImageFormat, path_a: Seq<char>, path_b: Seq<char>, bytes: Seq<u8>)
    ensures
        format_for_load(ImageFormatSetting::Format(f), path_a) == Ok::<ImageFormat, TextureErrorKind>(f),
        load_outcome(ImageFormatSetting::Format(f), path_a, bytes) == load_outcome(ImageFormatSetting::Format(f), path_b, bytes),
{
}

pub open spec fn texture_message_spec(k: TextureErrorKind, decoder_text: Seq<char>) -> Seq<char> {
    match k {
        TextureErrorKind::MissingExtension => "the file path has no extension"@,
        TextureErrorKind::InvalidImageExtension(e) => "invalid image extension: "@ + e,
        TextureErrorKind::UnsupportedTextureFormat(f) => "unsupported texture format: "@ + format_name_spec(f),
        TextureErrorKind::ImageDecoding => "failed to load an image: "@ + decoder_text,
    }
}

pub open spec fn format_name_spec(f: ImageFormat) -> Seq<char> {
    match f {
        ImageFormat::Basis => "Basis"@,
        ImageFormat::Bmp => "Bmp"@,
        ImageFormat::Png => "Png"@,
        ImageFormat::Dds => "Dds"@,
        ImageFormat::Tga => "Tga"@,
        ImageFormat::Jpeg => "Jpeg"@,
        ImageFormat::Ktx2 => "Ktx2"@,
        ImageFormat::WebP => "WebP"@,
        ImageFormat::Pnm => "Pnm"@,
    }
}

/// The name of a format, as it is written in messages.
pub fn format_name(f: ImageFormat) -> (r: &'static str)
    ensures
        r@ == format_name_spec(f),
{
    match f {
        ImageFormat::Basis => "Basis",
        ImageFormat::Bmp => "Bmp",
        ImageFormat::Png => "Png",
        ImageFormat::Dds => "Dds",
        ImageFormat::Tga => "Tga",
        ImageFormat::Jpeg => "Jpeg",
        ImageFormat::Ktx2 => "Ktx2",
        ImageFormat::WebP => "WebP",
        ImageFormat::Pnm => "Pnm",
    }
}

impl TextureError {
    /// A message that says what went wrong; a decoder's error brings its own
    /// text.
    pub fn message(&self) -> (r: String)
        ensures
            !(self.kind() is ImageDecoding) ==> r@ == texture_message_spec(self.kind(), Seq::empty()),
            self.kind() is ImageDecoding ==> exists|t: Seq<char>| r@ == texture_message_spec(self.kind(), t),
    {
        match self {
            TextureError::MissingExtension => String::from_str("the file path has no extension"),
            TextureError::InvalidImageExtension(e) => String::from_str("invalid image extension: ").concat(e.as_str()),
            TextureError::UnsupportedTextureFormat(f) => String::from_str("unsupported texture format: ").concat(format_name(*f)),
            TextureError::ImageError(e) => {
                let t = image_error_text(e);
                let r = String::from_str("failed to load an image: ").concat(t.as_str());
                assert(r@ == texture_message_spec(self.kind(), t@));
                r
            },
        }
    }
}

impl FileTextureError {
    /// The message of the error: the path, then what went wrong.
    pub fn message(&self) -> (r: String)
        ensures
            exists|t: Seq<char>| r@ == "Error reading image file "@ + self.path@ + ": "@ + t
                + ", this is an error in `bevy_render`."@,
            !(self.error.kind() is ImageDecoding) ==> r@ == "Error reading image file "@ + self.path@
                + ": "@ + texture_message_spec(self.error.kind(), Seq::empty())
                + ", this is an error in `bevy_render`."@,
    {
        let inner = self.error.message();
        let r = String::from_str("Error reading image file ").concat(self.path.as_str()).concat(": ").concat(
            inner.as_str(),
        ).concat(", this is an error in `bevy_render`.");
        assert(r@ == "Error reading image file "@ + self.path@ + ": "@ + inner@ + ", this is an error in `bevy_render`."@);
        r
    }
}

impl ImageLoaderError {
    /// The message of the error.
    pub fn message(&self) -> (r: String)
        ensures
            self is Io ==> r@ == "Could load shader: "@ + self->Io_0@,
            self is FileTexture ==> exists|t: Seq<char>|
                r@ == "Could not load texture file: "@ + ("Error reading image file "@
                    + self->FileTexture_0.path@ + ": "@ + t + ", this is an error in `bevy_render`."@),
    {
        match self {
            ImageLoaderError::Io(m) => {
                let r = String::from_str("Could load shader: ").concat(m.as_str());
                assert(r@ == "Could load shader: "@ + m@);
                r
            },
            ImageLoaderError::FileTexture(e) => {
                let inner = e.message();
                let r = String::from_str("Could not load texture file: ").concat(inner.as_str());
                let ghost t = choose|t: Seq<char>| inner@ == "Error reading image file "@ + e.path@ + ": "@ + t
                    + ", this is an error in `bevy_render`."@;
                assert(r@ == "Could not load texture file: "@ + ("Error reading image file "@ + e.path@ + ": "@ + t
                    + ", this is an error in `bevy_render`."@));
                r
            },
        }
    }
}

} // verus!
