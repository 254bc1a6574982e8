//! What both blitters share: the source binding layout, the pass they record
//! into, and the one draw that covers the viewport.
use vstd::prelude::*;
use crate::conversion::FragmentEntry;
use crate::format::PixelFormat;
use crate::gpu::{
    begin_pass, create_source_layout, draw, set_bind_group, set_pipeline, BindingModel, BlitPass,
    LoadMode, PassCommand, PassOps, Pipeline, SourceBinding, SourceLayout,
};

verus! {

/// Vertices of the single triangle that covers the viewport.
pub const FULLSCREEN_VERTICES: u32 = 3;

/// The bind group slot that holds the source texture and its sampler.
pub const SOURCE_GROUP: u32 = 0;

/// The binding of the source texture view within its group.
pub const TEXTURE_BINDING: u32 = 0;

/// The binding of the sampler within the source group.
pub const SAMPLER_BINDING: u32 = 1;

/// The attachment behaviour of every blit pass: load the current contents,
/// so that pixels outside the viewport keep their values, and store.
pub open spec fn blit_ops() -> PassOps {
    PassOps { load: LoadMode::Preserve, store: true }
}

/// The commands of one blit: select the pipeline, bind the source at group
/// slot 0, draw three vertices as one instance.
pub open spec fn fullscreen_commands(target: PixelFormat, entry: FragmentEntry, binding: BindingModel) -> Seq<PassCommand> {
    seq![
        PassCommand::SetPipeline { target, entry },
        PassCommand::SetBindGroup { index: 0, binding },
        PassCommand::Draw { vertices: 3, instances: 1 },
    ]
}

/// The layout of the source bind group: the texture at binding 0, the
/// sampler at binding 1.
pub fn source_layout(device: &wgpu::Device) -> (r: SourceLayout)
    ensures
        r.texture_binding() == 0,
        r.sampler_binding() == 1,
{
    create_source_layout(device)
}

/// Begins a pass on `view` that keeps the view's current contents and stores
/// what is drawn.
pub fn begin_blit_pass<'a>(encoder: &'a mut wgpu::CommandEncoder, view: &'a wgpu::TextureView) -> (r: BlitPass<'a>)
    ensures
        r.view() == *view,
        r.ops() == blit_ops(),
        r.log() == Seq::<PassCommand>::empty(),
{
    begin_pass(encoder, view, PassOps { load: LoadMode::Preserve, store: true })
}

/// Records one full-screen triangle through `pipeline`, reading the source
/// through `group`. The pass's viewport confines what it covers.
pub fn draw_fullscreen<'a>(pass: &mut BlitPass<'a>, pipeline: &'a Pipeline, group: &'a SourceBinding)
    ensures
        final(pass).view() == old(pass).view(),
        final(pass).ops() == old(pass).ops(),
        final(pass).log() == old(pass).log() + fullscreen_commands(pipeline.target(), pipeline.entry(), group.model()),
{
    set_pipeline(pass, pipeline);
    set_bind_group(pass, SOURCE_GROUP, group);
    draw(pass, FULLSCREEN_VERTICES, 1);
    proof {
        assert(pass.log() =~= old(pass).log() + fullscreen_commands(pipeline.target(), pipeline.entry(), group.model()));
    }
}

} // verus!
