//! An image asset loader: picks the format of a file from its settings or
//! its extension, decodes it, and reports the extensions it can load.
pub mod bindings;
pub mod extensions;
pub mod format;
pub mod loader;

pub use bindings::RasterImage;
pub use extensions::{
    disabled_img_file_extensions, img_file_extensions, DisabledExtension, FeatureSet, ImageFeature,
};
pub use format::{ImageFormat, RasterFormat};
pub use loader::{
    decode_buffer, finish_load, image_format_of, resolve_image_type, CompressedImageFormats,
    FileTextureError, Image, ImageFormatSetting, ImageLoader, ImageLoaderError, ImageLoaderSettings,
    ImageSampler, ImageType, RenderAssetPersistencePolicy, TextureError,
};
