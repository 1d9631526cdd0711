use image::ImageEncoder;
use image_loader::{
    disabled_img_file_extensions, img_file_extensions, CompressedImageFormats, FeatureSet,
    ImageFeature, ImageFormat, ImageFormatSetting, ImageLoader, ImageLoaderError,
    ImageLoaderSettings, ImageSampler, RenderAssetPersistencePolicy, TextureError,
};

fn features(on: bool) -> FeatureSet {
    FeatureSet {
        basis_universal: on,
        bmp: on,
        png: on,
        dds: on,
        tga: on,
        jpeg: on,
        ktx2: on,
        webp: on,
        pnm: on,
    }
}

fn png_only() -> FeatureSet {
    FeatureSet { png: true, ..features(false) }
}

fn png_bytes(width: u32, height: u32) -> Vec<u8> {
    let pixels: Vec<u8> = (0..width * height * 4).map(|i| (i % 251) as u8).collect();
    let mut out = Vec::new();
    image::codecs::png::PngEncoder::new(&mut out)
        .write_image(&pixels, width, height, image::ColorType::Rgba8)
        .unwrap();
    out
}

fn loader() -> ImageLoader {
    ImageLoader::from_resources(None, png_only())
}

fn file_texture_error(r: Result<image_loader::Image, ImageLoaderError>) -> (TextureError, String) {
    match r {
        Err(ImageLoaderError::FileTexture(e)) => (e.error, e.path),
        other => panic!("expected a file texture error, got {:?}", other),
    }
}

#[test]
fn all_features_report_the_whole_table() {
    let exts = img_file_extensions(&features(true));
    assert_eq!(
        exts,
        vec![
            "basis", "bmp", "png", "dds", "tga", "jpg", "jpeg", "ktx2", "webp", "pam", "pbm",
            "pgm", "ppm"
        ]
    );
}

#[test]
fn no_features_report_nothing() {
    assert!(img_file_extensions(&features(false)).is_empty());
    assert_eq!(disabled_img_file_extensions(&features(false)).len(), 13);
}

#[test]
fn reported_extensions_follow_the_enabled_features() {
    let fs = FeatureSet { jpeg: true, pnm: true, ..features(false) };
    assert_eq!(img_file_extensions(&fs), vec!["jpg", "jpeg", "pam", "pbm", "pgm", "ppm"]);
    let l = ImageLoader::from_resources(None, png_only());
    assert_eq!(l.extensions(), vec!["png"]);
}

#[test]
fn hints_only_for_disabled_extensions() {
    let fs = FeatureSet { png: true, jpeg: true, ..features(false) };
    let enabled = img_file_extensions(&fs);
    let disabled = disabled_img_file_extensions(&fs);
    let hinted: Vec<&str> = disabled.iter().map(|d| d.extension).collect();
    assert_eq!(
        hinted,
        vec!["basis", "bmp", "dds", "tga", "ktx2", "webp", "pam", "pbm", "pgm", "ppm"]
    );
    for e in &enabled {
        assert!(!hinted.contains(e));
    }
    assert_eq!(disabled[0].feature, "basis-universal");
    assert_eq!(disabled[6].feature, "pnm");
    assert!(disabled_img_file_extensions(&features(true)).is_empty());
}

#[test]
fn hint_text_names_the_feature() {
    let l = ImageLoader::from_resources(None, FeatureSet { basis_universal: false, ..features(true) });
    let hints = l.extension_hints();
    assert_eq!(hints.len(), 1);
    assert_eq!(hints[0].0, "basis");
    assert_eq!(hints[0].1, "enabling bevy feature 'basis-universal'");
}

#[test]
fn feature_names() {
    assert_eq!(ImageFeature::BasisUniversal.name(), "basis-universal");
    assert_eq!(ImageFeature::Jpeg.name(), "jpeg");
}

#[test]
fn png_loads_with_its_dimensions() {
    let bytes = png_bytes(3, 2);
    let img = loader().load(&bytes, &ImageLoaderSettings::default(), "textures/tile.png").unwrap();
    assert_eq!((img.width, img.height), (3, 2));
    assert_eq!(img.data.len(), 24);
    assert_eq!(img.data[..8], [0, 1, 2, 3, 4, 5, 6, 7]);
    assert_eq!(img.format, ImageFormat::Png);
    assert!(img.is_srgb);
    assert_eq!(img.sampler, ImageSampler::Default);
    assert_eq!(img.cpu_persistent_access, RenderAssetPersistencePolicy::Keep);
}

#[test]
fn settings_are_carried_into_the_image() {
    let settings = ImageLoaderSettings {
        format: ImageFormatSetting::FromExtension,
        is_srgb: false,
        sampler: ImageSampler::Nearest,
        cpu_persistent_access: RenderAssetPersistencePolicy::Unload,
    };
    let img = loader().load(&png_bytes(1, 1), &settings, "a.png").unwrap();
    assert!(!img.is_srgb);
    assert_eq!(img.sampler, ImageSampler::Nearest);
    assert_eq!(img.cpu_persistent_access, RenderAssetPersistencePolicy::Unload);
}

#[test]
fn truncated_png_reports_the_path() {
    let bytes = png_bytes(4, 4);
    let r = loader().load(&bytes[..bytes.len() / 2], &ImageLoaderSettings::default(), "textures/broken.png");
    let (error, path) = file_texture_error(r);
    assert!(matches!(error, TextureError::ImageError(_)));
    assert_eq!(path, "textures/broken.png");
}

#[test]
fn corrupt_bytes_report_the_path() {
    let r = loader().load(b"not an image", &ImageLoaderSettings::default(), "x/y.png");
    let (error, path) = file_texture_error(r);
    assert!(matches!(error, TextureError::ImageError(_)));
    assert_eq!(path, "x/y.png");
}

#[test]
fn explicit_format_ignores_the_extension() {
    let settings = ImageLoaderSettings {
        format: ImageFormatSetting::Format(ImageFormat::Png),
        ..ImageLoaderSettings::default()
    };
    let bytes = png_bytes(2, 5);
    let img = loader().load(&bytes, &settings, "looks_like.jpg").unwrap();
    assert_eq!((img.width, img.height), (2, 5));
    let img = loader().load(&bytes, &settings, "no_extension").unwrap();
    assert_eq!((img.width, img.height), (2, 5));
}

#[test]
fn extension_decides_without_explicit_format() {
    let bytes = png_bytes(2, 2);
    let (error, path) = file_texture_error(loader().load(&bytes, &ImageLoaderSettings::default(), "img.bmp"));
    assert!(matches!(error, TextureError::ImageError(_)));
    assert_eq!(path, "img.bmp");
}

#[test]
fn missing_extension_is_an_error() {
    let bytes = png_bytes(1, 1);
    let (error, path) = file_texture_error(loader().load(&bytes, &ImageLoaderSettings::default(), "dir.v2/noext"));
    assert!(matches!(error, TextureError::MissingExtension));
    assert_eq!(path, "dir.v2/noext");
}

#[test]
fn unknown_extension_is_an_error() {
    let bytes = png_bytes(1, 1);
    let (error, _) = file_texture_error(loader().load(&bytes, &ImageLoaderSettings::default(), "a.xyz"));
    match error {
        TextureError::InvalidImageExtension(e) => assert_eq!(e, "xyz"),
        other => panic!("unexpected {:?}", other),
    }
}

#[test]
fn gpu_container_formats_are_unsupported() {
    let bytes = png_bytes(1, 1);
    let (error, _) = file_texture_error(loader().load(&bytes, &ImageLoaderSettings::default(), "a.basis"));
    assert!(matches!(error, TextureError::UnsupportedTextureFormat(ImageFormat::Basis)));
    let (error, _) = file_texture_error(loader().load(&bytes, &ImageLoaderSettings::default(), "a.ktx2"));
    assert!(matches!(error, TextureError::UnsupportedTextureFormat(ImageFormat::Ktx2)));
}

#[test]
fn no_render_device_gives_no_compressed_formats() {
    let l = ImageLoader::from_resources(None, png_only());
    assert_eq!(l.supported_compressed_formats, CompressedImageFormats::none());
    assert_eq!(l.supported_compressed_formats, CompressedImageFormats { astc_ldr: false, bc: false, etc2: false });
}

#[test]
fn render_device_formats_are_kept() {
    let c = CompressedImageFormats { astc_ldr: false, bc: true, etc2: true };
    let l = ImageLoader::from_resources(Some(c), png_only());
    assert_eq!(l.supported_compressed_formats, c);
}

#[test]
fn default_settings() {
    let s = ImageLoaderSettings::default();
    assert_eq!(s.format, ImageFormatSetting::FromExtension);
    assert!(s.is_srgb);
    assert_eq!(s.sampler, ImageSampler::Default);
    assert_eq!(s.cpu_persistent_access, RenderAssetPersistencePolicy::Keep);
}

#[test]
fn extensions_map_to_formats() {
    assert_eq!(ImageFormat::from_extension("jpg"), Some(ImageFormat::Jpeg));
    assert_eq!(ImageFormat::from_extension("jpeg"), Some(ImageFormat::Jpeg));
    assert_eq!(ImageFormat::from_extension("pgm"), Some(ImageFormat::Pnm));
    assert_eq!(ImageFormat::from_extension("gif"), None);
}

#[test]
fn error_messages() {
    let (error, path) = file_texture_error(loader().load(b"", &ImageLoaderSettings::default(), "a.xyz"));
    let e = image_loader::FileTextureError { error, path };
    assert_eq!(
        e.message(),
        "Error reading image file a.xyz: invalid image extension: xyz, this is an error in `bevy_render`."
    );
    let io = ImageLoaderError::Io("gone".to_string());
    assert_eq!(io.message(), "Could load shader: gone");
    let t = TextureError::UnsupportedTextureFormat(ImageFormat::Ktx2);
    assert_eq!(t.message(), "unsupported texture format: Ktx2");
    let r = loader().load(b"junk", &ImageLoaderSettings::default(), "j.png");
    let e = match r {
        Err(e) => e,
        Ok(_) => panic!("junk decoded"),
    };
    let m = e.message();
    assert!(m.starts_with("Could not load texture file: Error reading image file j.png: failed to load an image: "));
}
