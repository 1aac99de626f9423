use gfx_texture::memory_device::MemoryDevice;
use gfx_texture::texture::Texture;
use gfx_texture::texture::TextureError;
use gfx_texture::TexFormat;
use gfx_texture::TextureSettings;

/// Encodes a 2x2 RGBA image as PNG bytes.
fn png_2x2(pixels: &[u8]) -> Vec<u8> {
    let img = image::RgbaImage::from_raw(2, 2, pixels.to_vec()).unwrap();
    let mut bytes: Vec<u8> = Vec::new();
    img.write_to(&mut std::io::Cursor::new(&mut bytes), image::ImageFormat::Png)
        .unwrap();
    bytes
}

const PIXELS_2X2: [u8; 16] = [
    10, 11, 12, 255, //
    20, 21, 22, 255, //
    30, 31, 32, 255, //
    40, 41, 42, 255,
];

#[test]
fn from_encoded_decodes_png_pixels() {
    let mut device = MemoryDevice::new();
    let bytes = png_2x2(&PIXELS_2X2);
    let tex =
        Texture::from_encoded(&mut device, &bytes, "art.png", &TextureSettings::new()).unwrap();
    assert_eq!(tex.get_size(), (2, 2));
    assert_eq!(device.read_pixels(&tex.handle), PIXELS_2X2.to_vec());
    assert_eq!(device.format_of(&tex.handle), TexFormat::Rgba8);
}

#[test]
fn from_encoded_applies_vertical_flip() {
    let mut device = MemoryDevice::new();
    let bytes = png_2x2(&PIXELS_2X2);
    let settings = TextureSettings::new().with_flip_vertical(true);
    let tex = Texture::from_encoded(&mut device, &bytes, "art.png", &settings).unwrap();
    let flipped: Vec<u8> = vec![
        30, 31, 32, 255, //
        40, 41, 42, 255, //
        10, 11, 12, 255, //
        20, 21, 22, 255,
    ];
    assert_eq!(device.read_pixels(&tex.handle), flipped);
}

#[test]
fn from_encoded_converts_non_rgba_sources() {
    // A grayscale PNG must be upconverted to four channels by the decoder.
    let img = image::GrayImage::from_raw(2, 1, vec![100, 200]).unwrap();
    let mut bytes: Vec<u8> = Vec::new();
    img.write_to(&mut std::io::Cursor::new(&mut bytes), image::ImageFormat::Png)
        .unwrap();

    let mut device = MemoryDevice::new();
    let tex =
        Texture::from_encoded(&mut device, &bytes, "gray.png", &TextureSettings::new()).unwrap();
    assert_eq!(tex.get_size(), (2, 1));
    assert_eq!(
        device.read_pixels(&tex.handle),
        vec![100, 100, 100, 255, 200, 200, 200, 255]
    );
}

#[test]
fn from_encoded_selects_gamma_format() {
    let mut device = MemoryDevice::new();
    let bytes = png_2x2(&PIXELS_2X2);
    let settings = TextureSettings::new().with_convert_gamma(true);
    let tex = Texture::from_encoded(&mut device, &bytes, "art.png", &settings).unwrap();
    assert_eq!(device.format_of(&tex.handle), TexFormat::Srgba8);
}

#[test]
fn corrupt_bytes_report_decode_error_with_path() {
    let mut device = MemoryDevice::new();
    let garbage: Vec<u8> = vec![0, 1, 2, 3, 4, 5, 6, 7];
    let r = Texture::from_encoded(
        &mut device,
        &garbage,
        "assets/missing.png",
        &TextureSettings::new(),
    );
    match r {
        Err(TextureError::Decode { path, message }) => {
            assert_eq!(path, "assets/missing.png");
            assert!(!message.is_empty());
        }
        other => panic!("expected a decode error, got {:?}", other),
    }
    // No partially constructed texture may be observable.
    assert_eq!(device.texture_count(), 0);
}

#[test]
fn truncated_png_reports_decode_error() {
    let mut device = MemoryDevice::new();
    let mut bytes = png_2x2(&PIXELS_2X2);
    bytes.truncate(bytes.len() / 2);
    let r = Texture::from_encoded(&mut device, &bytes, "half.png", &TextureSettings::new());
    match r {
        Err(TextureError::Decode { path, .. }) => assert_eq!(path, "half.png"),
        other => panic!("expected a decode error, got {:?}", other),
    }
    assert_eq!(device.texture_count(), 0);
}
