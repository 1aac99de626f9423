use gfx_texture::memory_device::MemoryDevice;
use gfx_texture::rgba::alpha_to_rgba;
use gfx_texture::rgba::flip_vertical;
use gfx_texture::rgba::RgbaImage;
use gfx_texture::texture::Flip;
use gfx_texture::texture::Texture;
use gfx_texture::texture::TextureError;
use gfx_texture::GraphicsDevice;
use gfx_texture::TexFormat;
use gfx_texture::TextureSettings;

fn image_2x2() -> RgbaImage {
    let data: Vec<u8> = vec![
        10, 11, 12, 13, //
        20, 21, 22, 23, //
        30, 31, 32, 33, //
        40, 41, 42, 43,
    ];
    RgbaImage::from_raw(2, 2, data).unwrap()
}

#[test]
fn settings_default_all_off() {
    let s = TextureSettings::new();
    assert!(!s.get_flip_vertical());
    assert!(!s.get_convert_gamma());
    assert!(!s.get_compress());
    assert!(!s.get_generate_mipmap());
}

#[test]
fn settings_builder_and_setters() {
    let s = TextureSettings::new()
        .with_flip_vertical(true)
        .with_convert_gamma(true)
        .with_compress(true)
        .with_generate_mipmap(true);
    assert!(s.get_flip_vertical());
    assert!(s.get_convert_gamma());
    assert!(s.get_compress());
    assert!(s.get_generate_mipmap());

    let mut s = TextureSettings::new();
    s.set_flip_vertical(true);
    s.set_generate_mipmap(true);
    assert!(s.get_flip_vertical());
    assert!(!s.get_convert_gamma());
    assert!(s.get_generate_mipmap());
}

#[test]
fn from_image_reports_exact_size() {
    let mut device = MemoryDevice::new();
    let img = image_2x2();
    let tex = Texture::from_image(&mut device, &img, &TextureSettings::new()).unwrap();
    assert_eq!(tex.get_size(), (2, 2));

    let wide = RgbaImage::from_raw(3, 1, vec![0; 12]).unwrap();
    let tex = Texture::from_image(&mut device, &wide, &TextureSettings::new()).unwrap();
    assert_eq!(tex.get_size(), (3, 1));
}

#[test]
fn from_image_uploads_buffer_unchanged() {
    let mut device = MemoryDevice::new();
    let img = image_2x2();
    let tex = Texture::from_image(&mut device, &img, &TextureSettings::new()).unwrap();
    assert_eq!(device.read_pixels(&tex.handle), img.data);
}

#[test]
fn from_memory_alpha_expands_to_opaque_white() {
    let mut device = MemoryDevice::new();
    let mask: Vec<u8> = vec![0, 64, 128, 255, 1, 2];
    let tex =
        Texture::from_memory_alpha(&mut device, &mask, 3, 2, &TextureSettings::new()).unwrap();
    assert_eq!(tex.get_size(), (3, 2));
    let pixels = device.read_pixels(&tex.handle);
    assert_eq!(pixels.len(), 4 * mask.len());
    for (i, &alpha) in mask.iter().enumerate() {
        assert_eq!(&pixels[4 * i..4 * i + 4], &[255, 255, 255, alpha]);
    }
}

#[test]
fn alpha_expansion_exact_bytes() {
    assert_eq!(alpha_to_rgba(&[7, 9]), vec![255, 255, 255, 7, 255, 255, 255, 9]);
    assert_eq!(alpha_to_rgba(&[]), Vec::<u8>::new());
}

#[test]
fn from_memory_alpha_degenerate_falls_back_to_empty() {
    let mut device = MemoryDevice::new();
    let settings = TextureSettings::new();

    // The fallback ignores the buffer entirely.
    let t1 = Texture::from_memory_alpha(&mut device, &[1, 2, 3], 0, 5, &settings).unwrap();
    let t2 = Texture::from_memory_alpha(&mut device, &[4], 7, 0, &settings).unwrap();
    let t3 = Texture::from_memory_alpha(&mut device, &[], 0, 0, &settings).unwrap();

    for t in [&t1, &t2, &t3] {
        assert_eq!(t.get_size(), (1, 1));
        assert_eq!(device.read_pixels(&t.handle), vec![0, 0, 0, 0]);
        assert_eq!(device.format_of(&t.handle), TexFormat::Rgba8);
    }
}

#[test]
fn empty_is_single_transparent_pixel() {
    let mut device = MemoryDevice::new();
    let tex = Texture::empty(&mut device).unwrap();
    assert_eq!(tex.get_size(), (1, 1));
    assert_eq!(device.read_pixels(&tex.handle), vec![0, 0, 0, 0]);
    assert_eq!(device.format_of(&tex.handle), TexFormat::Rgba8);
}

#[test]
fn update_replaces_pixels_and_keeps_size() {
    let mut device = MemoryDevice::new();
    let img = image_2x2();
    let mut tex = Texture::from_image(&mut device, &img, &TextureSettings::new()).unwrap();

    let replacement = RgbaImage::from_raw(2, 2, vec![9; 16]).unwrap();
    tex.update(&mut device, &replacement).unwrap();

    assert_eq!(tex.get_size(), (2, 2));
    assert_eq!(device.query_extent(&tex.handle), (2, 2));
    assert_eq!(device.read_pixels(&tex.handle), vec![9; 16]);
}

#[test]
fn update_with_identical_buffer_round_trips() {
    let mut device = MemoryDevice::new();
    let img = image_2x2();
    let mut tex = Texture::from_image(&mut device, &img, &TextureSettings::new()).unwrap();
    let before = device.read_pixels(&tex.handle);

    tex.update(&mut device, &img).unwrap();

    assert_eq!(tex.get_size(), (2, 2));
    assert_eq!(device.read_pixels(&tex.handle), before);
    assert_eq!(device.read_pixels(&tex.handle), img.data);
}

#[test]
fn convert_gamma_selects_srgb_format() {
    let mut device = MemoryDevice::new();
    let img = image_2x2();

    let linear =
        Texture::from_image(&mut device, &img, &TextureSettings::new()).unwrap();
    assert_eq!(device.format_of(&linear.handle), TexFormat::Rgba8);

    let srgb = Texture::from_image(
        &mut device,
        &img,
        &TextureSettings::new().with_convert_gamma(true),
    )
    .unwrap();
    assert_eq!(device.format_of(&srgb.handle), TexFormat::Srgba8);
}

#[test]
fn generate_mipmap_requested_and_invalidated_by_update() {
    let mut device = MemoryDevice::new();
    let img = image_2x2();
    let settings = TextureSettings::new().with_generate_mipmap(true);
    let mut tex = Texture::from_image(&mut device, &img, &settings).unwrap();
    assert!(device.mipmap_present(&tex.handle));

    tex.update(&mut device, &img).unwrap();
    assert!(!device.mipmap_present(&tex.handle));
}

#[test]
fn exhausted_device_reports_device_error() {
    let mut device = MemoryDevice::with_limit(0);
    let img = image_2x2();
    let r = Texture::from_image(&mut device, &img, &TextureSettings::new());
    assert!(r.is_err());
    assert_eq!(device.texture_count(), 0);

    let r = Texture::empty(&mut device);
    assert!(r.is_err());
}

#[test]
fn device_error_wrapped_by_from_encoded() {
    // Valid PNG bytes but a device with no room: the error must be the
    // device variant, and nothing may be allocated.
    let mut device = MemoryDevice::with_limit(0);
    let bytes = png_bytes_1x1();
    let r = Texture::from_encoded(&mut device, &bytes, "one.png", &TextureSettings::new());
    match r {
        Err(TextureError::Device(_)) => {}
        other => panic!("expected a device error, got {:?}", other),
    }
    assert_eq!(device.texture_count(), 0);
}

fn png_bytes_1x1() -> Vec<u8> {
    let img = image::RgbaImage::from_raw(1, 1, vec![1, 2, 3, 4]).unwrap();
    let mut bytes: Vec<u8> = Vec::new();
    img.write_to(&mut std::io::Cursor::new(&mut bytes), image::ImageFormat::Png)
        .unwrap();
    bytes
}

#[test]
fn flip_vertical_swaps_rows() {
    let img = image_2x2();
    let flipped = flip_vertical(&img);
    assert_eq!(flipped.dimensions(), (2, 2));
    assert_eq!(
        flipped.data,
        vec![
            30, 31, 32, 33, //
            40, 41, 42, 43, //
            10, 11, 12, 13, //
            20, 21, 22, 23,
        ]
    );
}

#[test]
fn flip_apply_matches_variants() {
    let img = image_2x2();
    assert_eq!(Flip::Unflipped.apply(&img).data, img.data);
    assert_eq!(Flip::Vertical.apply(&img).data, flip_vertical(&img).data);
}

#[test]
fn from_raw_checks_buffer_length() {
    assert!(RgbaImage::from_raw(2, 2, vec![0; 16]).is_some());
    assert!(RgbaImage::from_raw(2, 2, vec![0; 15]).is_none());
    assert!(RgbaImage::from_raw(0, 0, vec![]).is_some());
    // The expected length of the largest extent exceeds every real buffer.
    assert!(RgbaImage::from_raw(u32::MAX, u32::MAX, vec![0; 64]).is_none());
}

#[test]
fn settings_default_matches_new() {
    assert_eq!(TextureSettings::default(), TextureSettings::new());
}

#[test]
fn from_memory_uploads_raw_bytes() {
    let mut device = MemoryDevice::new();
    let bytes: Vec<u8> = (0..8).collect();
    let tex =
        Texture::from_memory(&mut device, &bytes, 2, 1, &TextureSettings::new()).unwrap();
    assert_eq!(tex.get_size(), (2, 1));
    assert_eq!(device.read_pixels(&tex.handle), bytes);
}

#[test]
fn handles_stay_distinct_across_allocations() {
    let mut device = MemoryDevice::new();
    let img = image_2x2();
    let t1 = Texture::from_image(&mut device, &img, &TextureSettings::new()).unwrap();
    let t2 = Texture::from_image(&mut device, &img, &TextureSettings::new()).unwrap();
    assert_ne!(t1.handle().id, t2.handle().id);
    assert_eq!(device.texture_count(), 2);
}
