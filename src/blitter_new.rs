//! A blitter that renders any source view into a target of any supported
//! format, building one pipeline per target format on first use.
use vstd::prelude::*;
use crate::cache::{PipelineCache, after_requests, lemma_one_entry_per_format, requested};
use crate::conversion::FragmentEntry;
use crate::format::{PixelFormat, default_format};
use crate::fullscreen::{draw_fullscreen, fullscreen_commands, source_layout, SAMPLER_BINDING, TEXTURE_BINDING};
use crate::gpu::{
    create_binding, create_blit_shader, create_pipeline_layout, create_render_pipeline, create_sampler,
    texture_format, BindingModel, BlitLayout, BlitPass, BlitShader, Pipeline, SourceSampler, SamplerSettings,
    SourceBinding, SourceLayout,
};

verus! {

/// The sampler of the pipeline-caching blitter: bilinear, repeating, with
/// linear blending between mip levels.
pub open spec fn cached_sampler() -> SamplerSettings {
    SamplerSettings { linear_filtering: true, repeat: true, linear_mipmaps: true }
}

/// What every bind group of the pipeline-caching blitter holds besides the
/// source view.
pub open spec fn cached_binding() -> BindingModel {
    BindingModel { texture_binding: 0, sampler_binding: 1, sampler: cached_sampler() }
}

/// A target format the device cannot build a blit pipeline for.
#[derive(Clone, Copy, Debug, PartialEq, Eq, Structural)]
pub struct UnsupportedFormat {
    pub format: PixelFormat,
}

/// Why a blit could not be prepared.
#[derive(Clone, Copy, Debug, PartialEq, Eq, Structural)]
pub enum BlitError {
    /// The device cannot build a pipeline writing this format.
    UnsupportedFormat(PixelFormat),
    /// The device refused to bind the source view.
    UnusableSource,
}

pub struct Blitter {
    pipelines: PipelineCache<Pipeline>,
    shader: BlitShader,
    bind_group_layout: SourceLayout,
    pipeline_layout: BlitLayout,
    sampler: SourceSampler,
}

impl Blitter {
    /// The target formats that have a pipeline, in the order first requested.
    pub closed spec fn formats(&self) -> Seq<PixelFormat> {
        self.pipelines.keys()
    }

    /// The pipelines built; the one at index `i` renders into `formats()[i]`.
    pub closed spec fn built(&self) -> Seq<Pipeline> {
        self.pipelines.values()
    }

    /// The slots and sampler every bind group this blitter makes holds.
    pub closed spec fn binding(&self) -> BindingModel {
        BindingModel {
            texture_binding: self.bind_group_layout.texture_binding(),
            sampler_binding: self.bind_group_layout.sampler_binding(),
            sampler: self.sampler.settings(),
        }
    }

    /// One pipeline per format, each writing its own format through the
    /// passthrough entry, and sources bound as `cached_binding` says.
    pub open spec fn wf(&self) -> bool {
        &&& self.formats().len() == self.built().len()
        &&& self.formats().no_duplicates()
        &&& forall|i: int| 0 <= i < self.formats().len() ==> (#[trigger] self.built()[i]).target() == self.formats()[i]
            && self.built()[i].entry() == FragmentEntry::Passthrough
        &&& self.binding() == cached_binding()
    }

    /// Builds the shared shader, source layout and sampler, and the pipeline
    /// for the default target format; fails, naming that format, when the
    /// device cannot build it.
    pub fn new(device: &wgpu::Device) -> (r: Result<Self, UnsupportedFormat>)
        ensures
            r matches Ok(b) ==> b.wf() && b.formats() == seq![default_format()],
            r matches Err(e) ==> e.format == default_format(),
    {
        let shader = create_blit_shader(device);
        let sampler = create_sampler(device, SamplerSettings { linear_filtering: true, repeat: true, linear_mipmaps: true });
        let bind_group_layout = source_layout(device);
        let pipeline_layout = create_pipeline_layout(device, &bind_group_layout);
        let mut pipelines = PipelineCache::new();
        let first = match Self::create_pipeline(device, &shader, &pipeline_layout, PixelFormat::Bgra8UnormSrgb) {
            Some(p) => p,
            None => {
                return Err(UnsupportedFormat { format: PixelFormat::Bgra8UnormSrgb });
            },
        };
        pipelines.insert(PixelFormat::Bgra8UnormSrgb, first);
        Ok(Blitter { pipelines, shader, bind_group_layout, pipeline_layout, sampler })
    }

    /// A passthrough pipeline writing `format`; `None` when the device
    /// cannot build it. No other format is tried in its place.
    fn create_pipeline(
        device: &wgpu::Device,
        shader: &BlitShader,
        layout: &BlitLayout,
        format: PixelFormat,
    ) -> (r: Option<Pipeline>)
        ensures
            r matches Some(p) ==> p.target() == format && p.entry() == FragmentEntry::Passthrough,
    {
        let target = texture_format(format);
        let entry = FragmentEntry::Passthrough;
        create_render_pipeline(device, layout, shader, entry, entry.name(), &target)
    }

    /// The number of target formats that have a pipeline.
    pub fn len(&self) -> (r: usize)
        requires
            self.wf(),
        ensures
            r == self.formats().len(),
    {
        self.pipelines.len()
    }

    /// The index of the pipeline for `format`, building it first if this is
    /// the first request for `format`. A repeated request builds nothing and
    /// leaves every pipeline in place, so it gets the very pipeline the first
    /// request built; a first request appends exactly one pipeline, or, when
    /// the device cannot build it, fails naming `format` and caches nothing.
    pub fn pipeline_for(&mut self, device: &wgpu::Device, format: PixelFormat) -> (r: Result<usize, UnsupportedFormat>)
        requires
            old(self).wf(),
        ensures
            final(self).wf(),
            old(self).formats().contains(format) ==> r is Ok,
            r is Ok ==> served(*old(self), format, *final(self)),
            r matches Ok(i) ==> i < final(self).formats().len() && final(self).formats()[i as int] == format,
            r is Err ==> r == Err::<usize, UnsupportedFormat>(UnsupportedFormat { format })
                && !old(self).formats().contains(format)
                && final(self).formats() == old(self).formats() && final(self).built() == old(self).built(),
    {
        let shader = &self.shader;
        let layout = &self.pipeline_layout;
        let ghost old_built = self.built();
        let build = |f: PixelFormat| -> (p: Option<Pipeline>)
            ensures
                p matches Some(q) ==> q.target() == f && q.entry() == FragmentEntry::Passthrough,
        {
            Self::create_pipeline(device, shader, layout, f)
        };
        let r = self.pipelines.get_or_try_insert_with(format, build);
        proof {
            if r is Some && !old(self).formats().contains(format) {
                assert forall|i: int| 0 <= i < self.formats().len() implies
                    (#[trigger] self.built()[i]).target() == self.formats()[i]
                    && self.built()[i].entry() == FragmentEntry::Passthrough by {
                    if i < old_built.len() {
                        assert(self.built()[i] == self.built().drop_last()[i]);
                    }
                }
            }
        }
        match r {
            Some(i) => Ok(i),
            None => Err(UnsupportedFormat { format }),
        }
    }

    /// The pipeline at index `i`.
    pub fn pipeline(&self, i: usize) -> (r: &Pipeline)
        requires
            self.wf(),
            i < self.formats().len(),
        ensures
            *r == self.built()[i as int],
            r.target() == self.formats()[i as int],
    {
        self.pipelines.get(i)
    }

    /// A fresh binding of `source` and the shared sampler; one is made for
    /// every blit. `None` when the device refuses `source`.
    pub fn bind_source(&self, device: &wgpu::Device, source: &wgpu::TextureView) -> (r: Option<SourceBinding>)
        requires
            self.wf(),
        ensures
            r matches Some(g) ==> g.model() == cached_binding() && g.view() == *source,
    {
        let model = BindingModel { texture_binding: TEXTURE_BINDING, sampler_binding: SAMPLER_BINDING, sampler: SamplerSettings { linear_filtering: true, repeat: true, linear_mipmaps: true } };
        create_binding(device, &self.bind_group_layout, source, &self.sampler, model)
    }

    /// Everything a blit into a `format` target needs: the index of its
    /// pipeline (built on first request) and a fresh binding of `source`.
    /// Fails naming `format` when the device cannot build its pipeline, and
    /// with `UnusableSource` when the device refuses `source`.
    pub fn prepare(
        &mut self,
        device: &wgpu::Device,
        source: &wgpu::TextureView,
        format: PixelFormat,
    ) -> (r: Result<(usize, SourceBinding), BlitError>)
        requires
            old(self).wf(),
        ensures
            final(self).wf(),
            r matches Err(BlitError::UnsupportedFormat(f)) ==> f == format
                && !old(self).formats().contains(format)
                && final(self).formats() == old(self).formats() && final(self).built() == old(self).built(),
            !(r matches Err(BlitError::UnsupportedFormat(_))) ==> served(*old(self), format, *final(self)),
            old(self).formats().contains(format) ==> !(r matches Err(BlitError::UnsupportedFormat(_))),
            r matches Ok(p) ==> p.0 < final(self).formats().len() && final(self).formats()[p.0 as int] == format
                && p.1.model() == cached_binding() && p.1.view() == *source,
    {
        let i = match self.pipeline_for(device, format) {
            Ok(i) => i,
            Err(e) => {
                return Err(BlitError::UnsupportedFormat(e.format));
            },
        };
        match self.bind_source(device, source) {
            Some(group) => Ok((i, group)),
            None => Err(BlitError::UnusableSource),
        }
    }

    /// Records the blit prepared as `(i, group)` into `pass`, whose viewport
    /// selects the target rectangle: the pipeline for `formats()[i]`, the
    /// source group at slot 0, one three-vertex draw.
    pub fn record<'a>(&'a self, pass: &mut BlitPass<'a>, i: usize, group: &'a SourceBinding)
        requires
            self.wf(),
            i < self.formats().len(),
        ensures
            final(pass).view() == old(pass).view(),
            final(pass).ops() == old(pass).ops(),
            final(pass).log() == old(pass).log()
                + fullscreen_commands(self.formats()[i as int], FragmentEntry::Passthrough, group.model()),
    {
        draw_fullscreen(pass, self.pipelines.get(i), group);
    }
}

/// What a successful request for `f` does to a blitter: the formats grow
/// by `f` if it was missing; a pipeline is appended exactly then, and the
/// pipelines already built stay as they were.
pub open spec fn served(before: Blitter, f: PixelFormat, after: Blitter) -> bool {
    &&& after.formats() == requested(before.formats(), f)
    &&& before.formats().contains(f) ==> after.built() == before.built()
    &&& !before.formats().contains(f) ==> after.built().drop_last() == before.built()
}

/// Memoization over any number of requests: when the blitter states
/// `bs[0]`, ..., `bs[n]` are each produced from the last by a successful
/// request for `reqs[k]`, the formats held are those of `after_requests`;
/// a pipeline, once built, stays at its place in every later state (so all
/// later requests for its format reach that very pipeline); and exactly one
/// pipeline was built for each requested format that was not held at the
/// start, however often it was requested.
pub proof fn lemma_requests_build_once(bs: Seq<Blitter>, reqs: Seq<PixelFormat>)
    requires
        bs.len() == reqs.len() + 1,
        forall|k: int| 0 <= k < bs.len() ==> (#[trigger] bs[k]).wf(),
        forall|k: int| 0 <= k < reqs.len() ==> #[trigger] served(bs[k], reqs[k], bs[k + 1]),
    ensures
        bs.last().formats() == after_requests(bs[0].formats(), reqs),
        bs.last().built().len() - bs[0].built().len()
            == (bs[0].formats().to_set() + reqs.to_set()).len() - bs[0].formats().len(),
        forall|i: int, j: int| 0 <= i <= j < bs.len() ==>
            bs[i].built().len() <= bs[j].built().len()
            && (#[trigger] bs[j].built()).subrange(0, bs[i].built().len() as int) == #[trigger] bs[i].built(),
    decreases reqs.len(),
{
    lemma_one_entry_per_format(bs[0].formats(), reqs);
    if reqs.len() == 0 {
        assert forall|i: int, j: int| 0 <= i <= j < bs.len() implies
            bs[i].built().len() <= bs[j].built().len()
            && (#[trigger] bs[j].built()).subrange(0, bs[i].built().len() as int) == #[trigger] bs[i].built() by {
            assert(bs[j].built().subrange(0, bs[i].built().len() as int) =~= bs[i].built());
        }
    } else {
        let n = reqs.len() as int;
        let pre = bs.drop_last();
        let rp = reqs.drop_last();
        assert forall|k: int| 0 <= k < rp.len() implies #[trigger] served(pre[k], rp[k], pre[k + 1]) by {
            assert(served(bs[k], reqs[k], bs[k + 1]));
        }
        lemma_requests_build_once(pre, rp);
        assert(served(bs[n - 1], reqs[n - 1], bs[n]));
        assert(pre.last() == bs[n - 1]);
        let last = bs[n].built();
        let prev = bs[n - 1].built();
        assert(prev.len() <= last.len() && last.subrange(0, prev.len() as int) =~= prev) by {
            if !bs[n - 1].formats().contains(reqs[n - 1]) {
                assert(last.drop_last() == prev);
                assert(last.subrange(0, prev.len() as int) =~= last.drop_last());
            }
        }
        assert forall|i: int, j: int| 0 <= i <= j < bs.len() implies
            bs[i].built().len() <= bs[j].built().len()
            && (#[trigger] bs[j].built()).subrange(0, bs[i].built().len() as int) == #[trigger] bs[i].built() by {
            if j < n {
                assert(pre[i] == bs[i] && pre[j] == bs[j]);
            } else if i == n {
                assert(bs[j].built().subrange(0, bs[i].built().len() as int) =~= bs[i].built());
            } else {
                assert(pre[i] == bs[i] && pre[n - 1] == bs[n - 1]);
                assert(prev.subrange(0, bs[i].built().len() as int) == bs[i].built());
                assert(last.subrange(0, bs[i].built().len() as int) =~= prev.subrange(0, bs[i].built().len() as int));
            }
        }
    }
}

/// Two indices of one format in a well-formed blitter are the same index, so
/// every request for a format reaches the one pipeline built for it.
pub proof fn lemma_one_pipeline_per_format(b: &Blitter, i: int, j: int)
    requires
        b.wf(),
        0 <= i < b.formats().len(),
        0 <= j < b.formats().len(),
        b.formats()[i] == b.formats()[j],
    ensures
        i == j,
        b.built()[i] == b.built()[j],
{
}

/// Cache growth on a blitter: after requests for F1, F2 and F1 again, each
/// step made as `pipeline_for` states, the third request added nothing, and
/// the blitter holds exactly one pipeline for each format it held before or
/// was asked for, so exactly two when it started holding at most F1 and F2.
pub proof fn lemma_repeated_format_adds_nothing(
    b0: &Blitter, b1: &Blitter, b2: &Blitter, b3: &Blitter, f1: PixelFormat, f2: PixelFormat,
)
    requires
        b0.wf(),
        b1.formats() == requested(b0.formats(), f1),
        b2.formats() == requested(b1.formats(), f2),
        b3.formats() == requested(b2.formats(), f1),
    ensures
        b3.formats() == b2.formats(),
        b3.formats().no_duplicates(),
        b3.formats().to_set() == b0.formats().to_set().insert(f1).insert(f2),
        b3.formats().len() == b0.formats().to_set().insert(f1).insert(f2).len(),
        b0.formats().to_set().subset_of(set![f1, f2]) ==> b3.formats().len() == (if f1 == f2 { 1int } else { 2int }),
{
    let reqs = seq![f1, f2, f1];
    assert(reqs.drop_last() =~= seq![f1, f2]);
    assert(seq![f1, f2].drop_last() =~= seq![f1]);
    assert(seq![f1].drop_last() =~= Seq::<PixelFormat>::empty());
    let k = b0.formats();
    assert(after_requests(k, Seq::<PixelFormat>::empty()) == k);
    assert(seq![f1].last() == f1 && seq![f1, f2].last() == f2 && reqs.last() == f1);
    assert(after_requests(k, seq![f1]) == b1.formats());
    assert(after_requests(k, seq![f1, f2]) == b2.formats());
    assert(after_requests(k, reqs) == b3.formats());
    lemma_one_entry_per_format(b0.formats(), reqs);
    assert(reqs.to_set() =~= set![f1, f2]) by {
        assert(reqs[0] == f1 && reqs[1] == f2 && reqs[2] == f1);
    }
    assert(b0.formats().to_set() + reqs.to_set() =~= b0.formats().to_set().insert(f1).insert(f2));
    assert(b1.formats().contains(f1)) by {
        if !b0.formats().contains(f1) {
            assert(b1.formats()[b1.formats().len() - 1] == f1);
        }
    }
    assert(b2.formats().contains(f1)) by {
        let k = choose|k: int| 0 <= k < b1.formats().len() && b1.formats()[k] == f1;
        if !b1.formats().contains(f2) {
            assert(b2.formats()[k] == f1);
        }
    }
    if b0.formats().to_set().subset_of(set![f1, f2]) {
        assert(b0.formats().to_set().insert(f1).insert(f2) =~= set![f1, f2]);
        if f1 == f2 {
            assert(set![f1, f2] =~= set![f1]);
        }
    }
}

} // verus!
