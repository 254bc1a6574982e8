use vstd::prelude::*;
use crate::format::{PixelFormat, is_plain_rgba8, is_srgb_rgba8, is_eight_bit_normalized};

verus! {

/// How the values of a source texture are encoded.
#[derive(Clone, Copy, Debug, PartialEq, Eq, Hash, Structural)]
pub enum ColourSpace {
    /// Linear light.
    Linear,
    /// Shared-exponent HDR encoding: RGB mantissas with a common exponent in alpha.
    Rgbe,
}

/// The fragment stage a colour-space conversion runs.
#[derive(Clone, Copy, Debug, PartialEq, Eq, Hash, Structural)]
pub enum FragmentEntry {
    /// Copies the sampled value unchanged.
    Passthrough,
    /// Applies the sRGB transfer function to linear values.
    LinearToSrgb,
    /// Decodes shared-exponent values into linear light.
    RgbeToLinear,
}

/// A (colour space, format) pair that no conversion is defined for.
#[derive(Clone, Copy, Debug, PartialEq, Eq, Hash, Structural)]
pub struct ConversionError {
    pub space: ColourSpace,
    pub format: PixelFormat,
}

/// The conversion table: the only pairs a colour-space blitter accepts.
pub open spec fn conversion_table(space: ColourSpace, format: PixelFormat) -> Option<FragmentEntry> {
    match space {
        ColourSpace::Linear => if is_plain_rgba8(format) {
            Some(FragmentEntry::LinearToSrgb)
        } else if is_srgb_rgba8(format) || format == PixelFormat::Rgba16Float {
            Some(FragmentEntry::Passthrough)
        } else {
            None
        },
        ColourSpace::Rgbe => if format == PixelFormat::Rgba16Float {
            Some(FragmentEntry::RgbeToLinear)
        } else {
            None
        },
    }
}

/// The name of each fragment entry point in the blit shader.
pub open spec fn entry_name(e: FragmentEntry) -> Seq<char> {
    match e {
        FragmentEntry::Passthrough => "fs_main"@,
        FragmentEntry::LinearToSrgb => "fs_main_linear_to_srgb"@,
        FragmentEntry::RgbeToLinear => "fs_main_rgbe_to_linear"@,
    }
}

impl FragmentEntry {
    /// The shader entry point that implements this conversion.
    pub fn name(self) -> (r: &'static str)
        ensures
            r@ == entry_name(self),
    {
        proof {
            reveal_strlit("fs_main");
            reveal_strlit("fs_main_linear_to_srgb");
            reveal_strlit("fs_main_rgbe_to_linear");
        }
        match self {
            FragmentEntry::Passthrough => "fs_main",
            FragmentEntry::LinearToSrgb => "fs_main_linear_to_srgb",
            FragmentEntry::RgbeToLinear => "fs_main_rgbe_to_linear",
        }
    }
}

/// Looks up the fragment entry point that converts `space` into `format`.
/// Pairs outside the table are an error naming the pair; none is ever
/// defaulted to a passthrough.
pub fn resolve_conversion(space: ColourSpace, format: PixelFormat) -> (r: Result<FragmentEntry, ConversionError>)
    ensures
        conversion_table(space, format) matches Some(e) ==> r == Ok::<FragmentEntry, ConversionError>(e),
        conversion_table(space, format) is None ==> r == Err::<FragmentEntry, ConversionError>(ConversionError { space, format }),
{
    match (space, format) {
        (ColourSpace::Linear, PixelFormat::Bgra8Unorm) => Ok(FragmentEntry::LinearToSrgb),
        (ColourSpace::Linear, PixelFormat::Rgba8Unorm) => Ok(FragmentEntry::LinearToSrgb),
        (ColourSpace::Linear, PixelFormat::Bgra8UnormSrgb) => Ok(FragmentEntry::Passthrough),
        (ColourSpace::Linear, PixelFormat::Rgba8UnormSrgb) => Ok(FragmentEntry::Passthrough),
        (ColourSpace::Linear, PixelFormat::Rgba16Float) => Ok(FragmentEntry::Passthrough),
        (ColourSpace::Rgbe, PixelFormat::Rgba16Float) => Ok(FragmentEntry::RgbeToLinear),
        _ => Err(ConversionError { space, format }),
    }
}

/// Resolution is decided by the pair alone: linear light into plain 8-bit
/// storage is encoded explicitly; linear light into sRGB-encoding 8-bit
/// storage or 16-bit float storage passes through; shared-exponent values
/// into 16-bit float storage are decoded; every other pair is refused.
pub proof fn lemma_conversion_cases(space: ColourSpace, format: PixelFormat)
    ensures
        space == ColourSpace::Linear && is_plain_rgba8(format)
            ==> conversion_table(space, format) == Some(FragmentEntry::LinearToSrgb),
        space == ColourSpace::Linear && (is_srgb_rgba8(format) || format == PixelFormat::Rgba16Float)
            ==> conversion_table(space, format) == Some(FragmentEntry::Passthrough),
        space == ColourSpace::Rgbe && format == PixelFormat::Rgba16Float
            ==> conversion_table(space, format) == Some(FragmentEntry::RgbeToLinear),
        !(space == ColourSpace::Linear && (is_plain_rgba8(format) || is_srgb_rgba8(format)
            || format == PixelFormat::Rgba16Float))
            && !(space == ColourSpace::Rgbe && format == PixelFormat::Rgba16Float)
            ==> conversion_table(space, format) is None,
{
}

/// Linear light into an sRGB-encoding 8-bit format resolves to the plain
/// passthrough, which differs from the explicit encode chosen for the
/// matching non-sRGB 8-bit format.
pub proof fn lemma_srgb_storage_passes_through(srgb: PixelFormat, plain: PixelFormat)
    requires
        is_srgb_rgba8(srgb),
        is_plain_rgba8(plain),
    ensures
        conversion_table(ColourSpace::Linear, srgb) == Some(FragmentEntry::Passthrough),
        conversion_table(ColourSpace::Linear, plain) == Some(FragmentEntry::LinearToSrgb),
        conversion_table(ColourSpace::Linear, srgb) != conversion_table(ColourSpace::Linear, plain),
{
}

/// Shared-exponent sources have no conversion into any 8-bit normalized format.
pub proof fn lemma_rgbe_into_eight_bit_refused(format: PixelFormat)
    requires
        is_eight_bit_normalized(format),
    ensures
        conversion_table(ColourSpace::Rgbe, format) is None,
{
}

} // verus!
