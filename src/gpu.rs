//! The `wgpu` objects the blitters hold, and the calls they make on them.
//!
//! Every `wgpu` handle is opaque. Each library type below pairs a handle with
//! the plain values it was made from (a target format, a fragment entry
//! point, binding slots, sampler settings), and a pass keeps a log of the
//! commands recorded into it, so that contracts can speak of what was built
//! and recorded. Only the wrappers in this file fill those values in.
use vstd::prelude::*;
use pollster::FutureExt;
use crate::conversion::{FragmentEntry, entry_name};
use crate::format::PixelFormat;
use crate::shader::BLIT_SHADER;

verus! {

#[verifier::external_type_specification]
#[verifier::external_body]
pub struct ExDevice(wgpu::Device);

#[verifier::external_type_specification]
#[verifier::external_body]
pub struct ExShaderModule(wgpu::ShaderModule);

#[verifier::external_type_specification]
#[verifier::external_body]
pub struct ExSampler(wgpu::Sampler);

#[verifier::external_type_specification]
#[verifier::external_body]
pub struct ExBindGroupLayout(wgpu::BindGroupLayout);

#[verifier::external_type_specification]
#[verifier::external_body]
pub struct ExBindGroup(wgpu::BindGroup);

#[verifier::external_type_specification]
#[verifier::external_body]
pub struct ExPipelineLayout(wgpu::PipelineLayout);

#[verifier::external_type_specification]
#[verifier::external_body]
pub struct ExRenderPipeline(wgpu::RenderPipeline);

#[verifier::external_type_specification]
#[verifier::external_body]
pub struct ExTextureView(wgpu::TextureView);

#[verifier::external_type_specification]
#[verifier::external_body]
pub struct ExTextureFormat(wgpu::TextureFormat);

#[verifier::external_type_specification]
#[verifier::external_body]
pub struct ExCommandEncoder(wgpu::CommandEncoder);

#[verifier::external_type_specification]
#[verifier::external_body]
pub struct ExRenderPass<'a>(wgpu::RenderPass<'a>);

/// How a sampler filters and wraps.
#[derive(Clone, Copy, Debug, PartialEq, Eq, Structural)]
pub struct SamplerSettings {
    /// Blend neighbouring texels when magnifying and minifying; otherwise
    /// take the nearest texel.
    pub linear_filtering: bool,
    /// Repeat the texture outside [0, 1]; otherwise clamp to the edge.
    pub repeat: bool,
    /// Blend between mip levels; otherwise take the nearest level.
    pub linear_mipmaps: bool,
}

/// What happens to a colour attachment's contents when a pass begins.
#[derive(Clone, Copy, Debug, PartialEq, Eq, Structural)]
pub enum LoadMode {
    /// Keep the current contents: pixels no draw covers are left as they were.
    Preserve,
    /// Clear every pixel to transparent black.
    ClearTransparent,
}

/// The load and store behaviour of a pass's colour attachment.
#[derive(Clone, Copy, Debug, PartialEq, Eq, Structural)]
pub struct PassOps {
    pub load: LoadMode,
    /// Write the rendered result back to the attachment.
    pub store: bool,
}

/// What a source bind group holds: the slot of the texture view, the slot of
/// the sampler, and how that sampler samples.
#[derive(Clone, Copy, Debug, PartialEq, Eq, Structural)]
pub struct BindingModel {
    pub texture_binding: u32,
    pub sampler_binding: u32,
    pub sampler: SamplerSettings,
}

/// A command recorded into a render pass.
#[derive(Clone, Copy, Debug, PartialEq, Eq, Structural)]
pub enum PassCommand {
    /// Selects a pipeline writing `target` through fragment entry `entry`.
    SetPipeline { target: PixelFormat, entry: FragmentEntry },
    /// Binds a source bind group at group slot `index`.
    SetBindGroup { index: u32, binding: BindingModel },
    /// Draws vertices `0..vertices` and instances `0..instances`, unindexed.
    Draw { vertices: u32, instances: u32 },
}

/// A `wgpu` texture format tag, with the pixel format it stands for.
pub struct TargetFormat {
    tag: wgpu::TextureFormat,
    format: Ghost<PixelFormat>,
}

impl TargetFormat {
    pub closed spec fn format(&self) -> PixelFormat {
        self.format@
    }
}

/// The compiled blit shader (the library's own WGSL, nothing else).
pub struct BlitShader {
    module: wgpu::ShaderModule,
}

/// A sampler, with the settings it was made with.
pub struct SourceSampler {
    handle: wgpu::Sampler,
    settings: SamplerSettings,
}

impl SourceSampler {
    pub closed spec fn settings(&self) -> SamplerSettings {
        self.settings
    }
}

/// A bind group layout with a filterable 2D float texture slot and a
/// filtering sampler slot, both seen by the fragment stage.
pub struct SourceLayout {
    handle: wgpu::BindGroupLayout,
    texture_binding: u32,
    sampler_binding: u32,
}

impl SourceLayout {
    pub closed spec fn texture_binding(&self) -> u32 {
        self.texture_binding
    }

    pub closed spec fn sampler_binding(&self) -> u32 {
        self.sampler_binding
    }
}

/// The pipeline layout of the blit shader: one group, laid out as a
/// `SourceLayout`.
pub struct BlitLayout {
    handle: wgpu::PipelineLayout,
}

/// A bind group holding a source view and a sampler.
pub struct SourceBinding {
    handle: wgpu::BindGroup,
    model: BindingModel,
    view: Ghost<wgpu::TextureView>,
}

impl SourceBinding {
    pub closed spec fn model(&self) -> BindingModel {
        self.model
    }

    /// The texture view bound at the texture slot.
    pub closed spec fn view(&self) -> wgpu::TextureView {
        self.view@
    }
}

/// A render pipeline of the blit shader, with its target and fragment entry.
pub struct Pipeline {
    handle: wgpu::RenderPipeline,
    target: Ghost<PixelFormat>,
    entry: Ghost<FragmentEntry>,
}

impl Pipeline {
    pub closed spec fn target(&self) -> PixelFormat {
        self.target@
    }

    pub closed spec fn entry(&self) -> FragmentEntry {
        self.entry@
    }
}

/// A render pass with the load/store behaviour it was begun with and the
/// commands recorded through this library. `raw` is open to the caller for
/// what the library does not record, such as the viewport.
pub struct BlitPass<'a> {
    pub raw: wgpu::RenderPass<'a>,
    view: Ghost<wgpu::TextureView>,
    ops: Ghost<PassOps>,
    log: Ghost<Seq<PassCommand>>,
}

impl<'a> BlitPass<'a> {
    /// The pass's one colour attachment.
    pub closed spec fn view(&self) -> wgpu::TextureView {
        self.view@
    }

    pub closed spec fn ops(&self) -> PassOps {
        self.ops@
    }

    pub closed spec fn log(&self) -> Seq<PassCommand> {
        self.log@
    }
}

/// Converts a pixel format to the wgpu::TextureFormat variant of the same name.
#[verifier::external_body]
pub fn texture_format(f: PixelFormat) -> (r: TargetFormat)
    ensures
        r.format() == f,
{
    let tag = match f {
        PixelFormat::R8Unorm => wgpu::TextureFormat::R8Unorm, PixelFormat::Rg8Unorm => wgpu::TextureFormat::Rg8Unorm,
        PixelFormat::Rgba8Unorm => wgpu::TextureFormat::Rgba8Unorm, PixelFormat::Rgba8UnormSrgb => wgpu::TextureFormat::Rgba8UnormSrgb,
        PixelFormat::Bgra8Unorm => wgpu::TextureFormat::Bgra8Unorm, PixelFormat::Bgra8UnormSrgb => wgpu::TextureFormat::Bgra8UnormSrgb,
        PixelFormat::Rgb10a2Unorm => wgpu::TextureFormat::Rgb10a2Unorm, PixelFormat::R16Float => wgpu::TextureFormat::R16Float,
        PixelFormat::Rg16Float => wgpu::TextureFormat::Rg16Float, PixelFormat::Rgba16Float => wgpu::TextureFormat::Rgba16Float,
        PixelFormat::R32Float => wgpu::TextureFormat::R32Float, PixelFormat::Rg32Float => wgpu::TextureFormat::Rg32Float,
        PixelFormat::Rgba32Float => wgpu::TextureFormat::Rgba32Float,
    };
    TargetFormat { tag, format: Ghost(f) }
}

/// Relies on wgpu::Device::create_shader_module: compiles the library's blit
/// shader, whose WGSL is fixed and valid.
#[verifier::external_body]
pub(crate) fn create_blit_shader(device: &wgpu::Device) -> BlitShader {
    let module = device.create_shader_module(wgpu::ShaderModuleDescriptor {
        label: None,
        source: wgpu::ShaderSource::Wgsl(std::borrow::Cow::Borrowed(BLIT_SHADER)),
    });
    BlitShader { module }
}

/// Relies on wgpu::Device::create_sampler: a sampler filtering and wrapping
/// as `s` says.
#[verifier::external_body]
pub(crate) fn create_sampler(device: &wgpu::Device, s: SamplerSettings) -> (r: SourceSampler)
    ensures
        r.settings() == s,
{
    let filter = if s.linear_filtering { wgpu::FilterMode::Linear } else { wgpu::FilterMode::Nearest };
    let address = if s.repeat { wgpu::AddressMode::Repeat } else { wgpu::AddressMode::ClampToEdge };
    let mipmap_filter = if s.linear_mipmaps { wgpu::FilterMode::Linear } else { wgpu::FilterMode::Nearest };
    let handle = device.create_sampler(&wgpu::SamplerDescriptor {
        address_mode_u: address,
        address_mode_v: address,
        address_mode_w: address,
        mag_filter: filter,
        min_filter: filter,
        mipmap_filter,
        ..Default::default()
    });
    SourceSampler { handle, settings: s }
}

/// Relies on wgpu::Device::create_bind_group_layout: the blit shader's source
/// group, a filterable 2D float texture at binding 0 and a filtering sampler
/// at binding 1, both visible to the fragment stage.
#[verifier::external_body]
pub(crate) fn create_source_layout(device: &wgpu::Device) -> (r: SourceLayout)
    ensures
        r.texture_binding() == 0,
        r.sampler_binding() == 1,
{
    let fragment = wgpu::ShaderStages::FRAGMENT;
    let float = wgpu::TextureSampleType::Float { filterable: true };
    let tex_ty = wgpu::BindingType::Texture { sample_type: float, view_dimension: wgpu::TextureViewDimension::D2, multisampled: false };
    let smp_ty = wgpu::BindingType::Sampler(wgpu::SamplerBindingType::Filtering);
    let handle = device.create_bind_group_layout(&wgpu::BindGroupLayoutDescriptor { label: None, entries: &[
        wgpu::BindGroupLayoutEntry { binding: 0, visibility: fragment, ty: tex_ty, count: None },
        wgpu::BindGroupLayoutEntry { binding: 1, visibility: fragment, ty: smp_ty, count: None },
    ] });
    SourceLayout { handle, texture_binding: 0, sampler_binding: 1 }
}

/// Relies on wgpu::Device::create_pipeline_layout: a layout whose only bind
/// group is `group`, with no push constants.
#[verifier::external_body]
pub(crate) fn create_pipeline_layout(device: &wgpu::Device, group: &SourceLayout) -> BlitLayout {
    let handle = device.create_pipeline_layout(&wgpu::PipelineLayoutDescriptor {
        label: None,
        bind_group_layouts: &[&group.handle],
        push_constant_ranges: &[],
    });
    BlitLayout { handle }
}

/// Relies on wgpu::Device::create_bind_group, inside a validation error scope
/// (wgpu::Device::push_error_scope / pop_error_scope): binds `view` and
/// `sampler` to the slots of `layout`. `None` when the device rejects the
/// group, for instance for a view that is not a sampleable 2D float view.
#[verifier::external_body]
pub(crate) fn create_binding(
    device: &wgpu::Device,
    layout: &SourceLayout,
    view: &wgpu::TextureView,
    sampler: &SourceSampler,
    model: BindingModel,
) -> (r: Option<SourceBinding>)
    requires
        model == (BindingModel {
            texture_binding: layout.texture_binding(),
            sampler_binding: layout.sampler_binding(),
            sampler: sampler.settings(),
        }),
    ensures
        r matches Some(g) ==> g.model() == model && g.view() == *view,
{
    device.push_error_scope(wgpu::ErrorFilter::Validation);
    let handle = device.create_bind_group(&wgpu::BindGroupDescriptor { label: None, layout: &layout.handle, entries: &[
        wgpu::BindGroupEntry { binding: model.texture_binding, resource: wgpu::BindingResource::TextureView(view) },
        wgpu::BindGroupEntry { binding: model.sampler_binding, resource: wgpu::BindingResource::Sampler(&sampler.handle) },
    ] });
    match device.pop_error_scope().block_on() {
        None => Some(SourceBinding { handle, model, view: Ghost(*view) }),
        Some(_) => None,
    }
}

/// Relies on wgpu::Device::create_render_pipeline, inside a validation error
/// scope (wgpu::Device::push_error_scope / pop_error_scope): a triangle-list
/// pipeline of the blit shader with no vertex buffers (its vertex entry
/// `vs_main` makes the vertices from their index), no depth, running fragment
/// entry `fragment_name` and writing one colour target of format `target`.
/// `None` when the device rejects it, for instance for a format it cannot
/// render into.
#[verifier::external_body]
pub(crate) fn create_render_pipeline(
    device: &wgpu::Device,
    layout: &BlitLayout,
    shader: &BlitShader,
    entry: FragmentEntry,
    fragment_name: &str,
    target: &TargetFormat,
) -> (r: Option<Pipeline>)
    requires
        fragment_name@ == entry_name(entry),
    ensures
        r matches Some(p) ==> p.target() == target.format() && p.entry() == entry,
{
    device.push_error_scope(wgpu::ErrorFilter::Validation);
    let handle = device.create_render_pipeline(&wgpu::RenderPipelineDescriptor {
        label: None,
        layout: Some(&layout.handle),
        vertex: wgpu::VertexState { module: &shader.module, entry_point: "vs_main", buffers: &[] },
        fragment: Some(wgpu::FragmentState { module: &shader.module, entry_point: fragment_name, targets: &[Some(target.tag.into())] }),
        primitive: wgpu::PrimitiveState::default(),
        depth_stencil: None,
        multisample: wgpu::MultisampleState::default(),
        multiview: None,
    });
    match device.pop_error_scope().block_on() {
        None => Some(Pipeline { handle, target: Ghost(target.format@), entry: Ghost(entry) }),
        Some(_) => None,
    }
}

/// Relies on wgpu::CommandEncoder::begin_render_pass: a pass with the single
/// colour attachment `view`, no resolve target and no depth or stencil
/// attachment, loading and storing as `ops` says.
#[verifier::external_body]
pub(crate) fn begin_pass<'a>(encoder: &'a mut wgpu::CommandEncoder, view: &'a wgpu::TextureView, ops: PassOps) -> (r: BlitPass<'a>)
    ensures
        r.view() == *view,
        r.ops() == ops,
        r.log() == Seq::<PassCommand>::empty(),
{
    let load = match ops.load {
        LoadMode::Preserve => wgpu::LoadOp::Load,
        LoadMode::ClearTransparent => wgpu::LoadOp::Clear(wgpu::Color::TRANSPARENT),
    };
    let raw = encoder.begin_render_pass(&wgpu::RenderPassDescriptor {
        label: None,
        color_attachments: &[Some(wgpu::RenderPassColorAttachment { view, resolve_target: None, ops: wgpu::Operations { load, store: ops.store } })],
        depth_stencil_attachment: None,
    });
    BlitPass { raw, view: Ghost(*view), ops: Ghost(ops), log: Ghost(Seq::empty()) }
}

/// Relies on wgpu::RenderPass::set_pipeline.
#[verifier::external_body]
pub(crate) fn set_pipeline<'a>(pass: &mut BlitPass<'a>, pipeline: &'a Pipeline)
    ensures
        final(pass).view() == old(pass).view(),
        final(pass).ops() == old(pass).ops(),
        final(pass).log() == old(pass).log().push(PassCommand::SetPipeline { target: pipeline.target(), entry: pipeline.entry() }),
{
    pass.raw.set_pipeline(&pipeline.handle);
    pass.log = Ghost(pass.log@.push(PassCommand::SetPipeline { target: pipeline.target@, entry: pipeline.entry@ }));
}

/// Relies on wgpu::RenderPass::set_bind_group, with no dynamic offsets.
#[verifier::external_body]
pub(crate) fn set_bind_group<'a>(pass: &mut BlitPass<'a>, index: u32, group: &'a SourceBinding)
    ensures
        final(pass).view() == old(pass).view(),
        final(pass).ops() == old(pass).ops(),
        final(pass).log() == old(pass).log().push(PassCommand::SetBindGroup { index, binding: group.model() }),
{
    pass.raw.set_bind_group(index, &group.handle, &[]);
    pass.log = Ghost(pass.log@.push(PassCommand::SetBindGroup { index, binding: group.model }));
}

/// Relies on wgpu::RenderPass::draw: vertices `0..vertices`, instances
/// `0..instances`, no index buffer.
#[verifier::external_body]
pub(crate) fn draw(pass: &mut BlitPass<'_>, vertices: u32, instances: u32)
    ensures
        final(pass).view() == old(pass).view(),
        final(pass).ops() == old(pass).ops(),
        final(pass).log() == old(pass).log().push(PassCommand::Draw { vertices, instances }),
{
    pass.raw.draw(0..vertices, 0..instances);
    pass.log = Ghost(pass.log@.push(PassCommand::Draw { vertices, instances }));
}

} // verus!
