use blitkit::format::PixelFormat;

#[test]
fn srgb_formats() {
    assert!(PixelFormat::Rgba8UnormSrgb.is_srgb());
    assert!(PixelFormat::Bgra8UnormSrgb.is_srgb());
    assert!(!PixelFormat::Rgba8Unorm.is_srgb());
    assert!(!PixelFormat::Rgba16Float.is_srgb());
    assert!(!PixelFormat::Rgb10a2Unorm.is_srgb());
}
