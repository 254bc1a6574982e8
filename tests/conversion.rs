use blitkit::blitter_old::ColourSpace;
use blitkit::conversion::{resolve_conversion, ConversionError, FragmentEntry};
use blitkit::format::PixelFormat;

const ALL_FORMATS: [PixelFormat; 13] = [
    PixelFormat::R8Unorm,
    PixelFormat::Rg8Unorm,
    PixelFormat::Rgba8Unorm,
    PixelFormat::Rgba8UnormSrgb,
    PixelFormat::Bgra8Unorm,
    PixelFormat::Bgra8UnormSrgb,
    PixelFormat::Rgb10a2Unorm,
    PixelFormat::R16Float,
    PixelFormat::Rg16Float,
    PixelFormat::Rgba16Float,
    PixelFormat::R32Float,
    PixelFormat::Rg32Float,
    PixelFormat::Rgba32Float,
];

#[test]
fn linear_into_plain_eight_bit_encodes() {
    assert_eq!(resolve_conversion(ColourSpace::Linear, PixelFormat::Rgba8Unorm), Ok(FragmentEntry::LinearToSrgb));
    assert_eq!(resolve_conversion(ColourSpace::Linear, PixelFormat::Bgra8Unorm), Ok(FragmentEntry::LinearToSrgb));
}

#[test]
fn linear_into_srgb_eight_bit_passes_through() {
    assert_eq!(resolve_conversion(ColourSpace::Linear, PixelFormat::Rgba8UnormSrgb), Ok(FragmentEntry::Passthrough));
    assert_eq!(resolve_conversion(ColourSpace::Linear, PixelFormat::Bgra8UnormSrgb), Ok(FragmentEntry::Passthrough));
}

#[test]
fn linear_into_half_float_passes_through() {
    assert_eq!(resolve_conversion(ColourSpace::Linear, PixelFormat::Rgba16Float), Ok(FragmentEntry::Passthrough));
}

#[test]
fn rgbe_into_half_float_decodes() {
    assert_eq!(resolve_conversion(ColourSpace::Rgbe, PixelFormat::Rgba16Float), Ok(FragmentEntry::RgbeToLinear));
}

#[test]
fn passthrough_differs_from_explicit_encode() {
    let srgb = resolve_conversion(ColourSpace::Linear, PixelFormat::Rgba8UnormSrgb).unwrap();
    let plain = resolve_conversion(ColourSpace::Linear, PixelFormat::Rgba8Unorm).unwrap();
    assert_eq!(srgb, FragmentEntry::Passthrough);
    assert_ne!(srgb, plain);
}

#[test]
fn rgbe_into_eight_bit_fails_every_time() {
    for _ in 0..3 {
        assert_eq!(
            resolve_conversion(ColourSpace::Rgbe, PixelFormat::Rgba8Unorm),
            Err(ConversionError { space: ColourSpace::Rgbe, format: PixelFormat::Rgba8Unorm })
        );
    }
    for f in [PixelFormat::R8Unorm, PixelFormat::Rg8Unorm, PixelFormat::Bgra8Unorm, PixelFormat::Rgba8UnormSrgb, PixelFormat::Bgra8UnormSrgb] {
        assert_eq!(resolve_conversion(ColourSpace::Rgbe, f), Err(ConversionError { space: ColourSpace::Rgbe, format: f }));
    }
}

#[test]
fn unlisted_pairs_are_refused_with_the_pair() {
    assert_eq!(
        resolve_conversion(ColourSpace::Linear, PixelFormat::R8Unorm),
        Err(ConversionError { space: ColourSpace::Linear, format: PixelFormat::R8Unorm })
    );
    assert_eq!(
        resolve_conversion(ColourSpace::Linear, PixelFormat::Rgba32Float),
        Err(ConversionError { space: ColourSpace::Linear, format: PixelFormat::Rgba32Float })
    );
    assert_eq!(
        resolve_conversion(ColourSpace::Rgbe, PixelFormat::Rgba32Float),
        Err(ConversionError { space: ColourSpace::Rgbe, format: PixelFormat::Rgba32Float })
    );
}

#[test]
fn exactly_six_pairs_are_accepted() {
    let mut accepted = 0;
    for space in [ColourSpace::Linear, ColourSpace::Rgbe] {
        for f in ALL_FORMATS {
            if resolve_conversion(space, f).is_ok() {
                accepted += 1;
            }
        }
    }
    assert_eq!(accepted, 6);
}

#[test]
fn entry_point_names() {
    assert_eq!(FragmentEntry::Passthrough.name(), "fs_main");
    assert_eq!(FragmentEntry::LinearToSrgb.name(), "fs_main_linear_to_srgb");
    assert_eq!(FragmentEntry::RgbeToLinear.name(), "fs_main_rgbe_to_linear");
}
