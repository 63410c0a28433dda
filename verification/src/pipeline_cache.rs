//! The pipeline cache: every pipeline registered once per shader set, the pipelines built for
//! them, and the stale ones waiting until the GPU no longer uses them.
use vstd::prelude::*;

use std::sync::Arc;

use crate::pipeline::{
    CommonPipelinePtrs, ComputePipeline, ComputePipelineDesc, PipelineObject, RasterPipeline,
    RasterPipelineDesc, RayTracingPipeline, RayTracingPipelineDesc,
};
use crate::shader::{
    same_shaders, same_source, spec_shader_views, spec_source_view, PipelineShaderDesc, };

verus! {

/// Number of frames the device records ahead; a stale pipeline is destroyed when its frame
/// slot comes round again.
pub const DEVICE_DRAW_FRAMES: usize = 2;

/// Index of a raster pipeline in the pipeline cache.
#[derive(Debug, Clone, Copy, PartialEq, Eq, Hash, Structural)]
pub struct RasterPipelineHandle(pub usize);

/// Index of a compute pipeline in the pipeline cache.
#[derive(Debug, Clone, Copy, PartialEq, Eq, Hash, Structural)]
pub struct ComputePipelineHandle(pub usize);

/// Index of a ray tracing pipeline in the pipeline cache.
#[derive(Debug, Clone, Copy, PartialEq, Eq, Hash, Structural)]
pub struct RayTracingPipelineHandle(pub usize);

/// A registered pipeline: its description, its shader stages, and the pipeline built from them
/// once its shaders are compiled.
pub struct PipelineEntry<D, P> {
    pub desc: D,
    pub shaders: Vec<PipelineShaderDesc>,
    pub pipeline: Option<Arc<P>>,
}

/// Where the pipeline with these shader stages is, if one is registered.
pub open spec fn spec_find_shaders<D, P>(
    entries: Seq<PipelineEntry<D, P>>,
    views: Seq<(crate::shader::PipelineShaderStage, usize, Seq<char>, (bool, Seq<char>))>,
) -> Option<int> {
    if exists|i: int| 0 <= i < entries.len() && spec_shader_views((#[trigger] entries[i]).shaders@) == views {
        Some(choose|i: int| 0 <= i < entries.len() && spec_shader_views((#[trigger] entries[i]).shaders@) == views)
    } else {
        None
    }
}

/// Whether no two pipelines have the same shader stages.
pub open spec fn spec_shaders_distinct<D, P>(entries: Seq<PipelineEntry<D, P>>) -> bool {
    forall|i: int, j: int|
        0 <= i < j < entries.len() ==> spec_shader_views((#[trigger] entries[i]).shaders@)
            != spec_shader_views((#[trigger] entries[j]).shaders@)
}

/// Where the compute pipeline with this shader source is, if one is registered.
pub open spec fn spec_find_source(
    entries: Seq<PipelineEntry<ComputePipelineDesc, ComputePipeline>>,
    view: (bool, Seq<char>),
) -> Option<int> {
    if exists|i: int| 0 <= i < entries.len() && spec_source_view((#[trigger] entries[i]).desc.source) == view {
        Some(choose|i: int| 0 <= i < entries.len() && spec_source_view((#[trigger] entries[i]).desc.source) == view)
    } else {
        None
    }
}

/// Whether no two compute pipelines have the same shader source.
pub open spec fn spec_sources_distinct(entries: Seq<PipelineEntry<ComputePipelineDesc, ComputePipeline>>) -> bool {
    forall|i: int, j: int|
        0 <= i < j < entries.len() ==> spec_source_view((#[trigger] entries[i]).desc.source)
            != spec_source_view((#[trigger] entries[j]).desc.source)
}

/// The Vulkan objects of the built pipelines that are no longer up to date, in registry order.
pub open spec fn spec_stale_ptrs<D, P: PipelineObject>(entries: Seq<PipelineEntry<D, P>>, up_to_date: Seq<bool>) -> Seq<
    CommonPipelinePtrs,
>
    decreases entries.len(),
{
    if entries.len() == 0 {
        Seq::empty()
    } else {
        let prev = spec_stale_ptrs(entries.drop_last(), up_to_date);
        let i = entries.len() - 1;
        match entries[i].pipeline {
            Some(p) => if !up_to_date[i] {
                prev.push((*p).spec_ptrs())
            } else {
                prev
            },
            None => prev,
        }
    }
}

/// The indices of the pipelines not built yet, in increasing order.
pub open spec fn spec_unbuilt<D, P>(entries: Seq<PipelineEntry<D, P>>) -> Seq<usize>
    decreases entries.len(),
{
    if entries.len() == 0 {
        Seq::empty()
    } else {
        let prev = spec_unbuilt(entries.drop_last());
        if entries.last().pipeline is None {
            prev.push((entries.len() - 1) as usize)
        } else {
            prev
        }
    }
}

/// The built pipelines, in registry order.
pub open spec fn spec_built<D, P>(entries: Seq<PipelineEntry<D, P>>) -> Seq<Arc<P>>
    decreases entries.len(),
{
    if entries.len() == 0 {
        Seq::empty()
    } else {
        let prev = spec_built(entries.drop_last());
        match entries.last().pipeline {
            Some(p) => prev.push(p),
            None => prev,
        }
    }
}

/// Where the pipeline with the same shader stages as `shaders` is, if one is registered.
fn find_shaders<D, P>(entries: &Vec<PipelineEntry<D, P>>, shaders: &Vec<PipelineShaderDesc>) -> (idx: Option<usize>)
    ensures
        match idx {
            Some(i) => i < entries@.len() && spec_shader_views(entries@[i as int].shaders@)
                == spec_shader_views(shaders@),
            None => spec_find_shaders(entries@, spec_shader_views(shaders@)) is None,
        },
{
    let mut i: usize = 0;
    while i < entries.len()
        invariant
            i <= entries@.len(),
            forall|j: int|
                0 <= j < i ==> spec_shader_views((#[trigger] entries@[j]).shaders@) != spec_shader_views(
                    shaders@,
                ),
        decreases entries@.len() - i,
    {
        if same_shaders(&entries[i].shaders, shaders) {
            return Some(i);
        }
        i = i + 1;
    }
    None
}

proof fn lemma_find_shaders_unique<D, P>(
    entries: Seq<PipelineEntry<D, P>>,
    views: Seq<(crate::shader::PipelineShaderStage, usize, Seq<char>, (bool, Seq<char>))>,
    i: int,
)
    requires
        spec_shaders_distinct(entries),
        0 <= i < entries.len(),
        spec_shader_views(entries[i].shaders@) == views,
    ensures
        spec_find_shaders(entries, views) == Some(i),
{
    let j = choose|j: int| 0 <= j < entries.len() && spec_shader_views((#[trigger] entries[j]).shaders@) == views;
    assert(spec_shader_views(entries[j].shaders@) == views);
    if j < i {
        assert(spec_shader_views(entries[j].shaders@) != spec_shader_views(entries[i].shaders@));
    } else if i < j {
        assert(spec_shader_views(entries[i].shaders@) != spec_shader_views(entries[j].shaders@));
    }
}

/// Drops the built pipelines that are no longer up to date, and records their Vulkan objects
/// in `released`.
fn discard_stale<D, P: PipelineObject>(
    entries: &mut Vec<PipelineEntry<D, P>>,
    up_to_date: &Vec<bool>,
    released: &mut Vec<CommonPipelinePtrs>,
)
    requires
        up_to_date@.len() == old(entries)@.len(),
    ensures
        final(entries)@.len() == old(entries)@.len(),
        forall|i: int|
            0 <= i < old(entries)@.len() ==> (#[trigger] final(entries)@[i]).desc == old(entries)@[i].desc
                && final(entries)@[i].shaders == old(entries)@[i].shaders && final(entries)@[i].pipeline == (
            if up_to_date@[i] {
                old(entries)@[i].pipeline
            } else {
                None
            }),
        final(released)@ == old(released)@ + spec_stale_ptrs(old(entries)@, up_to_date@),
{
    let ghost all = entries@;
    let ghost released0 = released@;
    let n = entries.len();
    let mut rest: Vec<PipelineEntry<D, P>> = Vec::new();
    std::mem::swap(&mut rest, entries);
    let mut k: usize = 0;
    proof {
        assert(rest@ =~= all.skip(0));
        assert(all.take(0) =~= Seq::<PipelineEntry<D, P>>::empty());
        assert(released0 + Seq::<CommonPipelinePtrs>::empty() =~= released0);
    }
    while k < n
        invariant
            n == all.len(),
            up_to_date@.len() == n,
            k <= n,
            rest@ == all.skip(k as int),
            entries@.len() == k,
            forall|i: int|
                0 <= i < k ==> (#[trigger] entries@[i]).desc == all[i].desc && entries@[i].shaders == all[i].shaders
                    && entries@[i].pipeline == (if up_to_date@[i] {
                    all[i].pipeline
                } else {
                    None
                }),
            released@ == released0 + spec_stale_ptrs(all.take(k as int), up_to_date@),
        decreases n - k,
    {
        let entry = rest.remove(0);
        proof {
            assert(all.skip(k as int)[0] == all[k as int]);
            assert(all.skip(k as int).remove(0) =~= all.skip(k + 1));
            assert(all.take(k + 1).drop_last() =~= all.take(k as int));
            assert(all.take(k + 1)[k as int] == all[k as int]);
        }
        let PipelineEntry { desc, shaders, pipeline } = entry;
        let pipeline = if up_to_date[k] {
            pipeline
        } else {
            match pipeline {
                Some(p) => {
                    released.push(p.pipeline_ptrs());
                    None
                },
                None => None,
            }
        };
        entries.push(PipelineEntry { desc, shaders, pipeline });
        proof {
            assert(released@ =~= released0 + spec_stale_ptrs(all.take(k + 1), up_to_date@));
        }
        k = k + 1;
    }
    proof {
        assert(all.take(n as int) =~= all);
    }
}

/// The indices of the pipelines not built yet.
fn unbuilt<D, P>(entries: &Vec<PipelineEntry<D, P>>) -> (idx: Vec<usize>)
    ensures
        idx@ == spec_unbuilt(entries@),
{
    let mut idx: Vec<usize> = Vec::new();
    let mut k: usize = 0;
    proof {
        assert(entries@.take(0) =~= Seq::<PipelineEntry<D, P>>::empty());
    }
    while k < entries.len()
        invariant
            k <= entries@.len(),
            idx@ == spec_unbuilt(entries@.take(k as int)),
        decreases entries@.len() - k,
    {
        if entries[k].pipeline.is_none() {
            idx.push(k);
        }
        proof {
            assert(entries@.take(k + 1).drop_last() =~= entries@.take(k as int));
            assert(entries@.take(k + 1).last() == entries@[k as int]);
        }
        k = k + 1;
    }
    proof {
        assert(entries@.take(entries@.len() as int) =~= entries@);
    }
    idx
}

/// The built pipelines.
fn built<D, P>(entries: Vec<PipelineEntry<D, P>>) -> (pipelines: Vec<Arc<P>>)
    ensures
        pipelines@ == spec_built(entries@),
{
    let ghost all = entries@;
    let n = entries.len();
    let mut rest = entries;
    let mut pipelines: Vec<Arc<P>> = Vec::new();
    let mut k: usize = 0;
    proof {
        assert(rest@ =~= all.skip(0));
        assert(all.take(0) =~= Seq::<PipelineEntry<D, P>>::empty());
    }
    while k < n
        invariant
            n == all.len(),
            k <= n,
            rest@ == all.skip(k as int),
            pipelines@ == spec_built(all.take(k as int)),
        decreases n - k,
    {
        let entry = rest.remove(0);
        proof {
            assert(all.skip(k as int)[0] == all[k as int]);
            assert(all.skip(k as int).remove(0) =~= all.skip(k + 1));
            assert(all.take(k + 1).drop_last() =~= all.take(k as int));
            assert(all.take(k + 1).last() == all[k as int]);
        }
        match entry.pipeline {
            Some(p) => pipelines.push(p),
            None => {},
        }
        k = k + 1;
    }
    proof {
        assert(all.take(n as int) =~= all);
    }
    pipelines
}

/// The pipelines of every kind, and for each frame slot the Vulkan objects of the stale
/// pipelines that wait for the slot to come round again before they are destroyed.
pub struct PipelineCache {
    pub raster_entries: Vec<PipelineEntry<RasterPipelineDesc, RasterPipeline>>,
    pub compute_entries: Vec<PipelineEntry<ComputePipelineDesc, ComputePipeline>>,
    pub ray_tracing_entries: Vec<PipelineEntry<RayTracingPipelineDesc, RayTracingPipeline>>,
    pub defer_release_pipelines: Vec<Vec<CommonPipelinePtrs>>,
}

/// Sets the pipeline built for entry `i`.
fn set_built<D, P>(entries: &mut Vec<PipelineEntry<D, P>>, i: usize, pipeline: P)
    requires
        i < old(entries)@.len(),
    ensures
        final(entries)@.len() == old(entries)@.len(),
        final(entries)@[i as int].desc == old(entries)@[i as int].desc,
        final(entries)@[i as int].shaders == old(entries)@[i as int].shaders,
        final(entries)@[i as int].pipeline == Some(Arc::new(pipeline)),
        forall|j: int| 0 <= j < old(entries)@.len() && j != i ==> #[trigger] final(entries)@[j] == old(entries)@[j],
{
    let PipelineEntry { desc, shaders, pipeline: _ } = entries.remove(i);
    entries.insert(i, PipelineEntry { desc, shaders, pipeline: Some(Arc::new(pipeline)) });
}

impl PipelineCache {
    /// Whether the cache is sound: no pipeline registered twice, and one stale list per frame slot.
    pub open spec fn spec_wf(&self) -> bool {
        &&& spec_shaders_distinct(self.raster_entries@)
        &&& spec_sources_distinct(self.compute_entries@)
        &&& forall|i: int| 0 <= i < self.compute_entries@.len() ==> (#[trigger] self.compute_entries@[i]).desc.source is Hlsl
        &&& spec_shaders_distinct(self.ray_tracing_entries@)
        &&& self.defer_release_pipelines@.len() == DEVICE_DRAW_FRAMES
    }

    /// An empty cache.
    pub fn new() -> (cache: Self)
        ensures
            cache.spec_wf(),
            cache.raster_entries@.len() == 0,
            cache.compute_entries@.len() == 0,
            cache.ray_tracing_entries@.len() == 0,
            forall|f: int| 0 <= f < DEVICE_DRAW_FRAMES ==> (#[trigger] cache.defer_release_pipelines@[f])@.len() == 0,
    {
        let mut defer_release_pipelines: Vec<Vec<CommonPipelinePtrs>> = Vec::new();
        let mut f: usize = 0;
        while f < DEVICE_DRAW_FRAMES
            invariant
                f <= DEVICE_DRAW_FRAMES,
                defer_release_pipelines@.len() == f,
                forall|g: int| 0 <= g < f ==> (#[trigger] defer_release_pipelines@[g])@.len() == 0,
            decreases DEVICE_DRAW_FRAMES - f,
        {
            defer_release_pipelines.push(Vec::new());
            f = f + 1;
        }
        PipelineCache {
            raster_entries: Vec::new(),
            compute_entries: Vec::new(),
            ray_tracing_entries: Vec::new(),
            defer_release_pipelines,
        }
    }

    /// The raster pipeline with these shader stages: the one registered already, or a new one,
    /// built once its shaders are compiled.
    pub fn register_raster_pipeline(&mut self, shaders: Vec<PipelineShaderDesc>, desc: RasterPipelineDesc) -> (handle:
        RasterPipelineHandle)
        requires
            old(self).spec_wf(),
        ensures
            final(self).spec_wf(),
            handle.0 < final(self).raster_entries@.len(),
            spec_shader_views(final(self).raster_entries@[handle.0 as int].shaders@) == spec_shader_views(shaders@),
            match spec_find_shaders(old(self).raster_entries@, spec_shader_views(shaders@)) {
                Some(i) => handle.0 == i && final(self).raster_entries == old(self).raster_entries,
                None => handle.0 == old(self).raster_entries@.len() && final(self).raster_entries@
                    == old(self).raster_entries@.push(PipelineEntry { desc, shaders, pipeline: None }),
            },
            final(self).compute_entries == old(self).compute_entries,
            final(self).ray_tracing_entries == old(self).ray_tracing_entries,
            final(self).defer_release_pipelines == old(self).defer_release_pipelines,
    {
        match find_shaders(&self.raster_entries, &shaders) {
            Some(i) => {
                proof {
                    lemma_find_shaders_unique(self.raster_entries@, spec_shader_views(shaders@), i as int);
                }
                RasterPipelineHandle(i)
            },
            None => {
                let ghost old_entries = self.raster_entries@;
                let idx = self.raster_entries.len();
                self.raster_entries.push(PipelineEntry { desc, shaders, pipeline: None });
                proof {
                    let e = self.raster_entries@;
                    assert forall|i: int, j: int| 0 <= i < j < e.len() implies spec_shader_views(
                        (#[trigger] e[i]).shaders@,
                    ) != spec_shader_views((#[trigger] e[j]).shaders@) by {
                        if j < old_entries.len() {
                            assert(e[i] == old_entries[i] && e[j] == old_entries[j]);
                        } else {
                            assert(e[i] == old_entries[i]);
                        }
                    }
                }
                RasterPipelineHandle(idx)
            },
        }
    }

    /// The raster pipeline built for a handle.
    pub fn get_raster_pipeline(&self, handle: RasterPipelineHandle) -> (pipeline: Arc<RasterPipeline>)
        requires
            handle.0 < self.raster_entries@.len(),
            self.raster_entries@[handle.0 as int].pipeline is Some,
        ensures
            Some(pipeline) == self.raster_entries@[handle.0 as int].pipeline,
    {
        match &self.raster_entries[handle.0].pipeline {
            Some(p) => crate::util::arc_clone(p),
            None => vstd::pervasive::unreached(),
        }
    }

    /// The compute pipeline with this shader: the one registered already, or a new one, built
    /// once its shader is compiled. Only HLSL shaders are compiled.
    pub fn register_compute_pipeline(&mut self, desc: ComputePipelineDesc) -> (handle: ComputePipelineHandle)
        requires
            old(self).spec_wf(),
            desc.source is Hlsl,
        ensures
            final(self).spec_wf(),
            handle.0 < final(self).compute_entries@.len(),
            spec_source_view(final(self).compute_entries@[handle.0 as int].desc.source) == spec_source_view(
                desc.source,
            ),
            match spec_find_source(old(self).compute_entries@, spec_source_view(desc.source)) {
                Some(i) => handle.0 == i && final(self).compute_entries == old(self).compute_entries,
                None => handle.0 == old(self).compute_entries@.len() && final(self).compute_entries@.len()
                    == old(self).compute_entries@.len() + 1 && final(self).compute_entries@.last().desc == desc
                    && final(self).compute_entries@.last().shaders@.len() == 0
                    && final(self).compute_entries@.last().pipeline is None && forall|i: int|
                    0 <= i < old(self).compute_entries@.len() ==> #[trigger] final(self).compute_entries@[i]
                        == old(self).compute_entries@[i],
            },
            final(self).raster_entries == old(self).raster_entries,
            final(self).ray_tracing_entries == old(self).ray_tracing_entries,
            final(self).defer_release_pipelines == old(self).defer_release_pipelines,
    {
        let ghost entries = self.compute_entries@;
        let mut i: usize = 0;
        while i < self.compute_entries.len()
            invariant
                entries == self.compute_entries@,
                self.spec_wf(),
                *self == *old(self),
                i <= entries.len(),
                forall|j: int|
                    0 <= j < i ==> spec_source_view((#[trigger] entries[j]).desc.source) != spec_source_view(
                        desc.source,
                    ),
            decreases entries.len() - i,
        {
            if same_source(&self.compute_entries[i].desc.source, &desc.source) {
                proof {
                    let c = choose|j: int|
                        0 <= j < entries.len() && spec_source_view((#[trigger] entries[j]).desc.source)
                            == spec_source_view(desc.source);
                    assert(spec_source_view(entries[c].desc.source) == spec_source_view(desc.source));
                    if c < i {
                    } else if i < c {
                        assert(spec_source_view(entries[i as int].desc.source) != spec_source_view(
                            entries[c].desc.source,
                        ));
                    }
                }
                return ComputePipelineHandle(i);
            }
            i = i + 1;
        }
        let idx = self.compute_entries.len();
        self.compute_entries.push(PipelineEntry { desc, shaders: Vec::new(), pipeline: None });
        proof {
            let e = self.compute_entries@;
            assert forall|a: int, b: int| 0 <= a < b < e.len() implies spec_source_view(
                (#[trigger] e[a]).desc.source,
            ) != spec_source_view((#[trigger] e[b]).desc.source) by {
                if b < entries.len() {
                    assert(e[a] == entries[a] && e[b] == entries[b]);
                } else {
                    assert(e[a] == entries[a]);
                }
            }
            assert forall|a: int| 0 <= a < e.len() implies (#[trigger] e[a]).desc.source is Hlsl by {
                if a < entries.len() {
                    assert(e[a] == entries[a]);
                }
            }
        }
        ComputePipelineHandle(idx)
    }

    /// The compute pipeline built for a handle.
    pub fn get_compute_pipeline(&self, handle: ComputePipelineHandle) -> (pipeline: Arc<ComputePipeline>)
        requires
            handle.0 < self.compute_entries@.len(),
            self.compute_entries@[handle.0 as int].pipeline is Some,
        ensures
            Some(pipeline) == self.compute_entries@[handle.0 as int].pipeline,
    {
        match &self.compute_entries[handle.0].pipeline {
            Some(p) => crate::util::arc_clone(p),
            None => vstd::pervasive::unreached(),
        }
    }

    /// The ray tracing pipeline with these shader stages: the one registered already, or a new
    /// one, built once its shaders are compiled.
    pub fn register_ray_tracing_pipeline(
        &mut self,
        shaders: Vec<PipelineShaderDesc>,
        desc: RayTracingPipelineDesc,
    ) -> (handle: RayTracingPipelineHandle)
        requires
            old(self).spec_wf(),
        ensures
            final(self).spec_wf(),
            handle.0 < final(self).ray_tracing_entries@.len(),
            spec_shader_views(final(self).ray_tracing_entries@[handle.0 as int].shaders@) == spec_shader_views(
                shaders@,
            ),
            match spec_find_shaders(old(self).ray_tracing_entries@, spec_shader_views(shaders@)) {
                Some(i) => handle.0 == i && final(self).ray_tracing_entries == old(self).ray_tracing_entries,
                None => handle.0 == old(self).ray_tracing_entries@.len() && final(self).ray_tracing_entries@
                    == old(self).ray_tracing_entries@.push(PipelineEntry { desc, shaders, pipeline: None }),
            },
            final(self).raster_entries == old(self).raster_entries,
            final(self).compute_entries == old(self).compute_entries,
            final(self).defer_release_pipelines == old(self).defer_release_pipelines,
    {
        match find_shaders(&self.ray_tracing_entries, &shaders) {
            Some(i) => {
                proof {
                    lemma_find_shaders_unique(self.ray_tracing_entries@, spec_shader_views(shaders@), i as int);
                }
                RayTracingPipelineHandle(i)
            },
            None => {
                let ghost old_entries = self.ray_tracing_entries@;
                let idx = self.ray_tracing_entries.len();
                self.ray_tracing_entries.push(PipelineEntry { desc, shaders, pipeline: None });
                proof {
                    let e = self.ray_tracing_entries@;
                    assert forall|i: int, j: int| 0 <= i < j < e.len() implies spec_shader_views(
                        (#[trigger] e[i]).shaders@,
                    ) != spec_shader_views((#[trigger] e[j]).shaders@) by {
                        if j < old_entries.len() {
                            assert(e[i] == old_entries[i] && e[j] == old_entries[j]);
                        } else {
                            assert(e[i] == old_entries[i]);
                        }
                    }
                }
                RayTracingPipelineHandle(idx)
            },
        }
    }

    /// The ray tracing pipeline built for a handle.
    pub fn get_ray_tracing_pipeline(&self, handle: RayTracingPipelineHandle) -> (pipeline: Arc<
        RayTracingPipeline,
    >)
        requires
            handle.0 < self.ray_tracing_entries@.len(),
            self.ray_tracing_entries@[handle.0 as int].pipeline is Some,
        ensures
            Some(pipeline) == self.ray_tracing_entries@[handle.0 as int].pipeline,
    {
        match &self.ray_tracing_entries[handle.0].pipeline {
            Some(p) => crate::util::arc_clone(p),
            None => vstd::pervasive::unreached(),
        }
    }

    /// Starts a frame in slot `device_frame_idx`: hands back the pipelines that went stale when
    /// the slot was last used, now safe to destroy, and drops every built pipeline whose shaders
    /// are no longer up to date, keeping its Vulkan objects until the slot comes round again.
    pub fn discard_stale_pipelines(
        &mut self,
        device_frame_idx: usize,
        raster_up_to_date: &Vec<bool>,
        compute_up_to_date: &Vec<bool>,
        ray_tracing_up_to_date: &Vec<bool>,
    ) -> (destroy: Vec<CommonPipelinePtrs>)
        requires
            old(self).spec_wf(),
            device_frame_idx < DEVICE_DRAW_FRAMES,
            raster_up_to_date@.len() == old(self).raster_entries@.len(),
            compute_up_to_date@.len() == old(self).compute_entries@.len(),
            ray_tracing_up_to_date@.len() == old(self).ray_tracing_entries@.len(),
        ensures
            final(self).spec_wf(),
            destroy@ == old(self).defer_release_pipelines@[device_frame_idx as int]@,
            final(self).defer_release_pipelines@.len() == DEVICE_DRAW_FRAMES,
            final(self).defer_release_pipelines@[device_frame_idx as int]@ == spec_stale_ptrs(
                old(self).raster_entries@,
                raster_up_to_date@,
            ) + spec_stale_ptrs(old(self).compute_entries@, compute_up_to_date@) + spec_stale_ptrs(
                old(self).ray_tracing_entries@,
                ray_tracing_up_to_date@,
            ),
            forall|f: int|
                0 <= f < DEVICE_DRAW_FRAMES && f != device_frame_idx ==> #[trigger] final(self).defer_release_pipelines@[f]
                    == old(self).defer_release_pipelines@[f],
            final(self).raster_entries@.len() == old(self).raster_entries@.len(),
            forall|i: int|
                0 <= i < old(self).raster_entries@.len() ==> (#[trigger] final(self).raster_entries@[i]).desc
                    == old(self).raster_entries@[i].desc && final(self).raster_entries@[i].shaders
                    == old(self).raster_entries@[i].shaders && final(self).raster_entries@[i].pipeline == (
                if raster_up_to_date@[i] {
                    old(self).raster_entries@[i].pipeline
                } else {
                    None
                }),
            final(self).compute_entries@.len() == old(self).compute_entries@.len(),
            forall|i: int|
                0 <= i < old(self).compute_entries@.len() ==> (#[trigger] final(self).compute_entries@[i]).desc
                    == old(self).compute_entries@[i].desc && final(self).compute_entries@[i].shaders
                    == old(self).compute_entries@[i].shaders && final(self).compute_entries@[i].pipeline == (
                if compute_up_to_date@[i] {
                    old(self).compute_entries@[i].pipeline
                } else {
                    None
                }),
            final(self).ray_tracing_entries@.len() == old(self).ray_tracing_entries@.len(),
            forall|i: int|
                0 <= i < old(self).ray_tracing_entries@.len() ==> (
                #[trigger] final(self).ray_tracing_entries@[i]).desc == old(self).ray_tracing_entries@[i].desc
                    && final(self).ray_tracing_entries@[i].shaders == old(self).ray_tracing_entries@[i].shaders
                    && final(self).ray_tracing_entries@[i].pipeline == (if ray_tracing_up_to_date@[i] {
                    old(self).ray_tracing_entries@[i].pipeline
                } else {
                    None
                }),
    {
        let ghost old_self_raster = self.raster_entries@;
        let ghost old_self_compute = self.compute_entries@;
        let ghost old_self_rt = self.ray_tracing_entries@;
        let mut destroy: Vec<CommonPipelinePtrs> = Vec::new();
        self.defer_release_pipelines.set_and_swap(device_frame_idx, &mut destroy);
        let mut released: Vec<CommonPipelinePtrs> = Vec::new();
        discard_stale(&mut self.raster_entries, raster_up_to_date, &mut released);
        discard_stale(&mut self.compute_entries, compute_up_to_date, &mut released);
        discard_stale(&mut self.ray_tracing_entries, ray_tracing_up_to_date, &mut released);
        self.defer_release_pipelines.set_and_swap(device_frame_idx, &mut released);
        proof {
            assert(Seq::<CommonPipelinePtrs>::empty() + spec_stale_ptrs(old_self_raster, raster_up_to_date@)
                =~= spec_stale_ptrs(old_self_raster, raster_up_to_date@));
            let r = self.raster_entries@;
            assert forall|i: int, j: int| 0 <= i < j < r.len() implies spec_shader_views((#[trigger] r[i]).shaders@)
                != spec_shader_views((#[trigger] r[j]).shaders@) by {
                assert(r[i].shaders == old_self_raster[i].shaders && r[j].shaders == old_self_raster[j].shaders);
            }
            let c = self.compute_entries@;
            assert forall|i: int, j: int| 0 <= i < j < c.len() implies spec_source_view(
                (#[trigger] c[i]).desc.source,
            ) != spec_source_view((#[trigger] c[j]).desc.source) by {
                assert(c[i].desc == old_self_compute[i].desc && c[j].desc == old_self_compute[j].desc);
            }
            assert forall|i: int| 0 <= i < c.len() implies (#[trigger] c[i]).desc.source is Hlsl by {
                assert(c[i].desc == old_self_compute[i].desc);
            }
            let t = self.ray_tracing_entries@;
            assert forall|i: int, j: int| 0 <= i < j < t.len() implies spec_shader_views((#[trigger] t[i]).shaders@)
                != spec_shader_views((#[trigger] t[j]).shaders@) by {
                assert(t[i].shaders == old_self_rt[i].shaders && t[j].shaders == old_self_rt[j].shaders);
            }
        }
        destroy
    }

    /// The pipelines whose shaders are to be compiled: those not built, of each kind, by
    /// increasing handle.
    pub fn pipelines_to_compile(&self) -> (res: (Vec<usize>, Vec<usize>, Vec<usize>))
        ensures
            res.0@ == spec_unbuilt(self.raster_entries@),
            res.1@ == spec_unbuilt(self.compute_entries@),
            res.2@ == spec_unbuilt(self.ray_tracing_entries@),
    {
        (unbuilt(&self.raster_entries), unbuilt(&self.compute_entries), unbuilt(&self.ray_tracing_entries))
    }

    /// Installs the raster pipeline built for a handle.
    pub fn set_raster_pipeline(&mut self, handle: RasterPipelineHandle, pipeline: RasterPipeline)
        requires
            old(self).spec_wf(),
            handle.0 < old(self).raster_entries@.len(),
        ensures
            final(self).spec_wf(),
            final(self).raster_entries@.len() == old(self).raster_entries@.len(),
            final(self).raster_entries@[handle.0 as int].desc == old(self).raster_entries@[handle.0 as int].desc,
            final(self).raster_entries@[handle.0 as int].shaders == old(self).raster_entries@[handle.0 as int].shaders,
            final(self).raster_entries@[handle.0 as int].pipeline == Some(Arc::new(pipeline)),
            forall|j: int|
                0 <= j < old(self).raster_entries@.len() && j != handle.0 ==> #[trigger] final(self).raster_entries@[j]
                    == old(self).raster_entries@[j],
            final(self).compute_entries == old(self).compute_entries,
            final(self).ray_tracing_entries == old(self).ray_tracing_entries,
            final(self).defer_release_pipelines == old(self).defer_release_pipelines,
    {
        let ghost e0 = self.raster_entries@;
        set_built(&mut self.raster_entries, handle.0, pipeline);
        proof {
            let e = self.raster_entries@;
            assert forall|i: int, j: int| 0 <= i < j < e.len() implies spec_shader_views((#[trigger] e[i]).shaders@)
                != spec_shader_views((#[trigger] e[j]).shaders@) by {
                assert(e[i].shaders == e0[i].shaders && e[j].shaders == e0[j].shaders);
            }
        }
    }

    /// Installs the compute pipeline built for a handle.
    pub fn set_compute_pipeline(&mut self, handle: ComputePipelineHandle, pipeline: ComputePipeline)
        requires
            old(self).spec_wf(),
            handle.0 < old(self).compute_entries@.len(),
        ensures
            final(self).spec_wf(),
            final(self).compute_entries@.len() == old(self).compute_entries@.len(),
            final(self).compute_entries@[handle.0 as int].desc == old(self).compute_entries@[handle.0 as int].desc,
            final(self).compute_entries@[handle.0 as int].shaders == old(self).compute_entries@[handle.0 as int].shaders,
            final(self).compute_entries@[handle.0 as int].pipeline == Some(Arc::new(pipeline)),
            forall|j: int|
                0 <= j < old(self).compute_entries@.len() && j != handle.0 ==> #[trigger] final(self).compute_entries@[j]
                    == old(self).compute_entries@[j],
            final(self).raster_entries == old(self).raster_entries,
            final(self).ray_tracing_entries == old(self).ray_tracing_entries,
            final(self).defer_release_pipelines == old(self).defer_release_pipelines,
    {
        let ghost e0 = self.compute_entries@;
        set_built(&mut self.compute_entries, handle.0, pipeline);
        proof {
            let e = self.compute_entries@;
            assert forall|i: int, j: int| 0 <= i < j < e.len() implies spec_source_view((#[trigger] e[i]).desc.source)
                != spec_source_view((#[trigger] e[j]).desc.source) by {
                assert(e[i].desc == e0[i].desc && e[j].desc == e0[j].desc);
            }
            assert forall|i: int| 0 <= i < e.len() implies (#[trigger] e[i]).desc.source is Hlsl by {
                if i != handle.0 {
                    assert(e[i] == e0[i]);
                }
            }
        }
    }

    /// Installs the ray tracing pipeline built for a handle.
    pub fn set_ray_tracing_pipeline(&mut self, handle: RayTracingPipelineHandle, pipeline: RayTracingPipeline)
        requires
            old(self).spec_wf(),
            handle.0 < old(self).ray_tracing_entries@.len(),
        ensures
            final(self).spec_wf(),
            final(self).ray_tracing_entries@.len() == old(self).ray_tracing_entries@.len(),
            final(self).ray_tracing_entries@[handle.0 as int].desc == old(self).ray_tracing_entries@[handle.0 as int].desc,
            final(self).ray_tracing_entries@[handle.0 as int].shaders == old(self).ray_tracing_entries@[
                handle.0 as int
            ].shaders,
            final(self).ray_tracing_entries@[handle.0 as int].pipeline == Some(Arc::new(pipeline)),
            forall|j: int|
                0 <= j < old(self).ray_tracing_entries@.len() && j != handle.0
                    ==> #[trigger] final(self).ray_tracing_entries@[j] == old(self).ray_tracing_entries@[j],
            final(self).raster_entries == old(self).raster_entries,
            final(self).compute_entries == old(self).compute_entries,
            final(self).defer_release_pipelines == old(self).defer_release_pipelines,
    {
        let ghost e0 = self.ray_tracing_entries@;
        set_built(&mut self.ray_tracing_entries, handle.0, pipeline);
        proof {
            let e = self.ray_tracing_entries@;
            assert forall|i: int, j: int| 0 <= i < j < e.len() implies spec_shader_views((#[trigger] e[i]).shaders@)
                != spec_shader_views((#[trigger] e[j]).shaders@) by {
                assert(e[i].shaders == e0[i].shaders && e[j].shaders == e0[j].shaders);
            }
        }
    }

    /// Every built pipeline, of each kind, to be destroyed.
    pub fn clean(self) -> (res: (Vec<Arc<RasterPipeline>>, Vec<Arc<ComputePipeline>>, Vec<Arc<RayTracingPipeline>>))
        ensures
            res.0@ == spec_built(self.raster_entries@),
            res.1@ == spec_built(self.compute_entries@),
            res.2@ == spec_built(self.ray_tracing_entries@),
    {
        (built(self.raster_entries), built(self.compute_entries), built(self.ray_tracing_entries))
    }
}

/// Registering shader stages that are registered already gives back the same pipeline and
/// leaves the registry as it was.
pub proof fn lemma_register_is_idempotent<D, P>(
    entries: Seq<PipelineEntry<D, P>>,
    shaders: Seq<PipelineShaderDesc>,
    h: int,
)
    requires
        spec_shaders_distinct(entries),
        0 <= h < entries.len(),
        spec_shader_views(entries[h].shaders@) == spec_shader_views(shaders),
    ensures
        spec_find_shaders(entries, spec_shader_views(shaders)) == Some(h),
{
    lemma_find_shaders_unique(entries, spec_shader_views(shaders), h);
}


/// Registering the same shader stages twice, whatever the descriptions, gives one pipeline:
/// both calls give the same handle and at most one entry is added over both. When the stages
/// were new, the handle is the next slot and its entry keeps the first call's description.
/// Each call is taken as its contract states it: a registry `before`, the registry `mid` and
/// handle `h1` after the first call, and `after` and `h2` after the second.
pub proof fn lemma_register_twice_gives_one_pipeline<D, P>(
    before: Seq<PipelineEntry<D, P>>,
    mid: Seq<PipelineEntry<D, P>>,
    after: Seq<PipelineEntry<D, P>>,
    first: Vec<PipelineShaderDesc>,
    second: Vec<PipelineShaderDesc>,
    d1: D,
    h1: int,
    h2: int,
)
    requires
        spec_shaders_distinct(before),
        spec_shader_views(first@) == spec_shader_views(second@),
        spec_shaders_distinct(mid),
        0 <= h1 < mid.len(),
        spec_shader_views(mid[h1].shaders@) == spec_shader_views(first@),
        match spec_find_shaders(before, spec_shader_views(first@)) {
            Some(i) => h1 == i && mid == before,
            None => h1 == before.len() && mid == before.push(PipelineEntry { desc: d1, shaders: first, pipeline: None }),
        },
        match spec_find_shaders(mid, spec_shader_views(second@)) {
            Some(i) => h2 == i && after == mid,
            None => h2 == mid.len() && after.len() == mid.len() + 1,
        },
    ensures
        h1 == h2,
        after == mid,
        after.len() <= before.len() + 1,
        spec_find_shaders(before, spec_shader_views(first@)) is None ==> h1 == before.len() && after[h1].desc == d1,
{
    lemma_register_is_idempotent(mid, second@, h1);
}

} // verus!
