//! A blitter bound at construction to one source view, one source colour
//! space and one target format, converting through a fixed entry point.
use vstd::prelude::*;
pub use crate::conversion::ColourSpace;
use crate::conversion::{ConversionError, FragmentEntry, conversion_table, resolve_conversion};
use crate::format::PixelFormat;
use crate::fullscreen::{draw_fullscreen, fullscreen_commands, source_layout, SAMPLER_BINDING, TEXTURE_BINDING};
use crate::gpu::{
    create_binding, create_blit_shader, create_pipeline_layout, create_render_pipeline, create_sampler,
    texture_format, BindingModel, BlitPass, Pipeline, SamplerSettings, SourceBinding,
};

verus! {

/// The sampler of a colour-space blitter: bilinear, clamped to the edge,
/// nearest mip level.
pub open spec fn colour_sampler() -> SamplerSettings {
    SamplerSettings { linear_filtering: true, repeat: false, linear_mipmaps: false }
}

/// What the bind group of a colour-space blitter holds besides its source view.
pub open spec fn colour_binding() -> BindingModel {
    BindingModel { texture_binding: 0, sampler_binding: 1, sampler: colour_sampler() }
}

/// Why a colour-space blitter could not be built.
#[derive(Clone, Copy, Debug, PartialEq, Eq, Structural)]
pub enum BuildError {
    /// The (colour space, format) pair has no conversion.
    UnsupportedConversion(ConversionError),
    /// The device refused to bind the source view.
    UnusableSource,
    /// The device cannot build a pipeline writing this format.
    UnsupportedFormat(PixelFormat),
}

pub struct Blitter {
    render_pipeline: Pipeline,
    render_bind_group: SourceBinding,
    dest_format: PixelFormat,
    entry: FragmentEntry,
}

impl Blitter {
    /// The target format the pipeline writes.
    pub closed spec fn target(&self) -> PixelFormat {
        self.render_pipeline.target()
    }

    /// The fragment entry point the pipeline runs.
    pub closed spec fn conversion(&self) -> FragmentEntry {
        self.render_pipeline.entry()
    }

    /// What the bind group used for every blit holds besides the source view.
    pub closed spec fn binding(&self) -> BindingModel {
        self.render_bind_group.model()
    }

    /// The source view every blit reads.
    pub closed spec fn source(&self) -> wgpu::TextureView {
        self.render_bind_group.view()
    }

    pub closed spec fn wf(&self) -> bool {
        self.dest_format == self.target() && self.entry == self.conversion()
    }

    /// Resolves `(src_space, dest_format)` in the conversion table and builds
    /// the one pipeline and bind group every blit reuses. A pair outside the
    /// table is refused, naming the pair, before any GPU object is created;
    /// otherwise the device may still refuse the source view or the format.
    pub fn new(
        device: &wgpu::Device,
        src: &wgpu::TextureView,
        src_space: ColourSpace,
        dest_format: PixelFormat,
    ) -> (r: Result<Self, BuildError>)
        ensures
            conversion_table(src_space, dest_format) is None ==> r == Err::<Self, BuildError>(
                BuildError::UnsupportedConversion(ConversionError { space: src_space, format: dest_format }),
            ),
            conversion_table(src_space, dest_format) matches Some(e) ==> match r {
                Ok(b) => b.wf() && b.conversion() == e && b.target() == dest_format && b.binding() == colour_binding()
                    && b.source() == *src,
                Err(err) => err == BuildError::UnusableSource || err == BuildError::UnsupportedFormat(dest_format),
            },
    {
        let entry = match resolve_conversion(src_space, dest_format) {
            Ok(e) => e,
            Err(err) => {
                return Err(BuildError::UnsupportedConversion(err));
            },
        };
        let shader = create_blit_shader(device);
        let layout = source_layout(device);
        let settings = SamplerSettings { linear_filtering: true, repeat: false, linear_mipmaps: false };
        let sampler = create_sampler(device, settings);
        let model = BindingModel { texture_binding: TEXTURE_BINDING, sampler_binding: SAMPLER_BINDING, sampler: settings };
        let render_bind_group = match create_binding(device, &layout, src, &sampler, model) {
            Some(g) => g,
            None => {
                return Err(BuildError::UnusableSource);
            },
        };
        let pipeline_layout = create_pipeline_layout(device, &layout);
        let target = texture_format(dest_format);
        let render_pipeline = match create_render_pipeline(device, &pipeline_layout, &shader, entry, entry.name(), &target) {
            Some(p) => p,
            None => {
                return Err(BuildError::UnsupportedFormat(dest_format));
            },
        };
        Ok(Blitter { render_pipeline, render_bind_group, dest_format, entry })
    }

    /// The target format the pipeline writes.
    pub fn dest_format(&self) -> (r: PixelFormat)
        requires
            self.wf(),
        ensures
            r == self.target(),
    {
        self.dest_format
    }

    /// The fragment entry point the pipeline runs.
    pub fn entry(&self) -> (r: FragmentEntry)
        requires
            self.wf(),
        ensures
            r == self.conversion(),
    {
        self.entry
    }

    /// Records the conversion into `pass`, whose viewport selects the target
    /// rectangle: the fixed pipeline, the fixed source group at slot 0, one
    /// three-vertex draw. Nothing is created and the blitter is unchanged.
    pub fn record<'a>(&'a self, pass: &mut BlitPass<'a>)
        ensures
            final(pass).view() == old(pass).view(),
            final(pass).ops() == old(pass).ops(),
            final(pass).log() == old(pass).log() + fullscreen_commands(self.target(), self.conversion(), self.binding()),
    {
        draw_fullscreen(pass, &self.render_pipeline, &self.render_bind_group);
    }
}

} // verus!
