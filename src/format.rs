use vstd::prelude::*;

verus! {

/// The destination pixel formats a blit can render into: the colour formats
/// that every device can render to and that a fragment shader writes as
/// floating-point values.
#[derive(Clone, Copy, Debug, PartialEq, Eq, Hash, Structural)]
pub enum PixelFormat {
    R8Unorm,
    Rg8Unorm,
    Rgba8Unorm,
    Rgba8UnormSrgb,
    Bgra8Unorm,
    Bgra8UnormSrgb,
    Rgb10a2Unorm,
    R16Float,
    Rg16Float,
    Rgba16Float,
    R32Float,
    Rg32Float,
    Rgba32Float,
}

/// Four-channel, 8 bits per channel, normalized storage without sRGB encoding.
pub open spec fn is_plain_rgba8(f: PixelFormat) -> bool {
    f == PixelFormat::Rgba8Unorm || f == PixelFormat::Bgra8Unorm
}

/// Four-channel, 8 bits per channel storage that sRGB-encodes on write.
pub open spec fn is_srgb_rgba8(f: PixelFormat) -> bool {
    f == PixelFormat::Rgba8UnormSrgb || f == PixelFormat::Bgra8UnormSrgb
}

/// Every format that stores 8-bit normalized channels, sRGB-encoded or not.
pub open spec fn is_eight_bit_normalized(f: PixelFormat) -> bool {
    f == PixelFormat::R8Unorm || f == PixelFormat::Rg8Unorm || is_plain_rgba8(f)
        || is_srgb_rgba8(f)
}

/// The format whose pipeline a pipeline-caching blitter compiles at
/// construction: the common presentable sRGB surface format.
pub open spec fn default_format() -> PixelFormat {
    PixelFormat::Bgra8UnormSrgb
}

impl PixelFormat {
    /// Whether the storage applies the sRGB transfer function on write.
    pub fn is_srgb(self) -> (r: bool)
        ensures
            r == is_srgb_rgba8(self),
    {
        match self {
            PixelFormat::Rgba8UnormSrgb | PixelFormat::Bgra8UnormSrgb => true,
            _ => false,
        }
    }
}

} // verus!
