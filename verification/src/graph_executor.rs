//! What the executor of render graphs keeps from frame to frame: where the temporal resources
//! are, and where the frame constants of the frame being drawn lie in the dynamic buffer.
use vstd::prelude::*;

use crate::barrier::AccessType;
use std::sync::Arc;

use crate::buffer::{Buffer, BufferDesc};
use crate::compiled_graph::{spec_registered, CompiledRenderGraph, GraphPreparedResource, RegisteredResource};
use crate::executing_graph::{
    spec_accesses, spec_accesses_after_passes, spec_batched_accesses, spec_export_requests, spec_filled,
    spec_present_pass, spec_records_before_present, spec_requests_valid, spec_writes_swapchain, ExecutingRenderGraph,
    RecordedCommand,
};
use crate::graph::{spec_is_swapchain, RenderGraph};
use crate::graph_resource::{GraphResource, GraphResourceImportedData};
use crate::image::{Image, ImageDesc};
use crate::retired_graph::{spec_created_buffers, spec_created_images};
use crate::draw_frame::{spec_begin_frame, spec_end_frame, DeferReleaseQueue, DeviceFrames};
use crate::dynamic_buffer::{DynamicBuffer, MAX_DYNAMIC_BUFFER_SIZE_BYTES};
use crate::math::spec_align_up;
use crate::graph_builder::{
    spec_all_inert, spec_exported_from, spec_index_of, spec_none_exported, spec_registry_wf,
    spec_temporal_exports, ExportedTemporalResources, RenderGraphBuilder, TemporalResourceKey,
    TemporalResourceRegistry, TemporalResourceState,
};
use crate::graph_builder::TemporalResource;
use crate::pipeline::{ComputePipeline, RasterPipeline, RayTracingPipeline};
use crate::pipeline_cache::{spec_built, PipelineCache};
use crate::transient_resource_cache::TransientResourceCache;

verus! {

/// Where the constants of the frame being drawn lie in the global dynamic buffer.
#[derive(Copy, Clone, Debug, PartialEq, Eq, Structural)]
pub struct DrawFrameContextLayout {
    pub frame_constants_offset: u32,
}

/// The temporal resources of the executor: inert between frames, exported while a prepared
/// frame waits to be drawn.
pub enum RenderGraphTemporalResources {
    Inert(TemporalResourceRegistry),
    Exported(ExportedTemporalResources),
}

impl RenderGraphTemporalResources {
    /// No temporal resources yet.
    pub fn new() -> (res: Self)
        ensures
            res matches RenderGraphTemporalResources::Inert(r) && r.entries@.len() == 0,
    {
        RenderGraphTemporalResources::Inert(TemporalResourceRegistry::new())
    }
}

/// A temporal resource made inert as it is: taken or exported, it is in no known access.
pub open spec fn spec_made_inert(state: TemporalResourceState) -> TemporalResourceState {
    match state {
        TemporalResourceState::Inert { .. } => state,
        TemporalResourceState::Imported { resource, .. } => TemporalResourceState::Inert {
            resource,
            access: AccessType::Nothing,
        },
        TemporalResourceState::Exported { resource, .. } => TemporalResourceState::Inert {
            resource,
            access: AccessType::Nothing,
        },
    }
}

/// The registry once the resources of a frame that failed to prepare are put back: each one
/// whose name the registry does not hold joins it, inert, in registry order.
pub open spec fn spec_restored(
    registry: Seq<(TemporalResourceKey, TemporalResourceState)>,
    frame: Seq<(TemporalResourceKey, TemporalResourceState)>,
) -> Seq<(TemporalResourceKey, TemporalResourceState)>
    decreases frame.len(),
{
    if frame.len() == 0 {
        registry
    } else {
        let prev = spec_restored(registry, frame.drop_last());
        let (key, state) = frame.last();
        if spec_index_of(prev, key.0@) is Some {
            prev
        } else {
            prev.push((key, spec_made_inert(state)))
        }
    }
}

/// Puts the temporal resources of a frame that failed to prepare back into the registry, so
/// that the next attempt reuses the resources the frame created: each one whose name the
/// registry does not hold joins it, inert.
pub fn restore_temporal_resources(
    registry: &mut TemporalResourceRegistry,
    frame: ExportedTemporalResources,
)
    requires
        spec_registry_wf(old(registry).entries@),
        spec_all_inert(old(registry).entries@),
    ensures
        final(registry).entries@ == spec_restored(old(registry).entries@, frame.0.entries@),
        spec_registry_wf(final(registry).entries@),
        spec_all_inert(final(registry).entries@),
{
    let ghost start = registry.entries@;
    let ghost all = frame.0.entries@;
    let mut entries = frame.0.entries;
    let n = entries.len();
    let mut k: usize = 0;
    proof {
        assert(entries@ =~= all.skip(0));
        assert(all.take(0) =~= Seq::<(TemporalResourceKey, TemporalResourceState)>::empty());
    }
    while k < n
        invariant
            n == all.len(),
            k <= n,
            entries@ == all.skip(k as int),
            registry.entries@ == spec_restored(start, all.take(k as int)),
            spec_registry_wf(registry.entries@),
            spec_all_inert(registry.entries@),
        decreases n - k,
    {
        let (key, state) = entries.remove(0);
        proof {
            assert(all.skip(k as int)[0] == all[k as int]);
            assert(all.skip(k as int).remove(0) =~= all.skip(k + 1));
            assert(all.take(k + 1).drop_last() =~= all.take(k as int));
            assert(all.take(k + 1).last() == all[k as int]);
        }
        let ghost prev = registry.entries@;
        match registry.find(&key) {
            Some(i) => {
                proof {
                    assert(spec_index_of(prev, key.0@) is Some) by {
                        assert(prev[i as int].0.0@ == key.0@);
                    }
                }
            },
            None => {
                proof {
                    assert(!(exists|i: int| 0 <= i < prev.len() && (#[trigger] prev[i]).0.0@ == key.0@));
                }
                let inert = match state {
                    TemporalResourceState::Inert { resource, access } => TemporalResourceState::Inert {
                        resource,
                        access,
                    },
                    TemporalResourceState::Imported { resource, .. } => TemporalResourceState::Inert {
                        resource,
                        access: AccessType::Nothing,
                    },
                    TemporalResourceState::Exported { resource, .. } => TemporalResourceState::Inert {
                        resource,
                        access: AccessType::Nothing,
                    },
                };
                registry.entries.push((key, inert));
                proof {
                    let e = registry.entries@;
                    assert forall|a: int, b: int| 0 <= a < b < e.len() implies (#[trigger] e[a]).0.0@
                        != (#[trigger] e[b]).0.0@ by {
                        if b < prev.len() {
                            assert(prev[a].0.0@ != prev[b].0.0@);
                        } else {
                            assert(prev[a].0.0@ != key.0@);
                        }
                    }
                    assert forall|a: int| 0 <= a < e.len() implies (#[trigger] e[a]).1 is Inert by {
                        if a < prev.len() {
                            assert(prev[a].1 is Inert);
                        }
                    }
                }
            },
        }
        k = k + 1;
    }
    proof {
        assert(all.take(n as int) =~= all);
    }
}

/// Whether no temporal resource is taken by a graph being built.
pub open spec fn spec_none_imported(entries: Seq<(TemporalResourceKey, TemporalResourceState)>) -> bool {
    forall|i: int| 0 <= i < entries.len() ==> !((#[trigger] entries[i]).1 is Imported)
}

/// Whether every exported temporal resource is exported under a resource of a graph of `n`
/// resources.
pub open spec fn spec_exports_within(entries: Seq<(TemporalResourceKey, TemporalResourceState)>, n: int) -> bool {
    forall|i: int|
        0 <= i < entries.len() && (#[trigger] entries[i]).1 is Exported ==> (entries[i].1->Exported_handle.spec_handle().id as int)
            < n
}

/// Whether every temporal resource the graph being built took is a resource of a graph of `n`
/// resources.
pub open spec fn spec_imports_within(entries: Seq<(TemporalResourceKey, TemporalResourceState)>, n: int) -> bool {
    forall|i: int|
        0 <= i < entries.len() && (#[trigger] entries[i]).1 is Imported ==> (entries[i].1->Imported_handle.spec_handle().id as int)
            < n
}

/// Whether the frame a graph describes can be drawn: some pass writes the swapchain image, no
/// pass before the last such pass uses it (it is only acquired for that pass), and no resource
/// leaves the frame as the swapchain image in an access of its own.
pub open spec fn spec_drawable(g: RenderGraph) -> bool {
    let natives = g.resources@;
    let passes = g.passes@;
    &&& exists|k: int| 0 <= k < passes.len() && spec_writes_swapchain(natives, #[trigger] passes[k])
    &&& forall|k: int, j: int|
        0 <= k < spec_present_pass(natives, passes) && 0 <= j < passes[k].refs().len() ==> !spec_is_swapchain(
            natives[(#[trigger] passes[k].refs()[j]).handle.id as int],
        )
    &&& forall|k: int|
        0 <= k < g.exported_resources@.len() && (#[trigger] g.exported_resources@[k]).1 != AccessType::Nothing
            ==> !spec_is_swapchain(natives[g.exported_resources@[k].0.spec_handle().id as int])
}

/// Builds and runs the render graph of every frame: it keeps the pipelines, the resources a
/// frame leaves for the next one, and the dynamic buffer the frame constants go to.
pub struct GraphExecutor {
    /// The graph prepared for the next draw.
    pub compiled_rg: Option<CompiledRenderGraph>,
    pub pipeline_cache: PipelineCache,
    pub transient_resource_cache: TransientResourceCache,
    pub temporal_resources: RenderGraphTemporalResources,
    pub global_dynamic_buffer: DynamicBuffer,
    /// Raw `VkDescriptorSet` handle of the engine's global constants.
    pub global_dynamic_constants_set: u64,
}

impl GraphExecutor {
    /// The caches are sound; between frames every temporal resource is inert, and while a
    /// prepared frame waits none is taken; a prepared graph is analyzed.
    pub open spec fn spec_wf(&self) -> bool {
        &&& self.pipeline_cache.spec_wf()
        &&& self.transient_resource_cache.spec_wf()
        &&& self.global_dynamic_buffer.spec_wf()
        &&& match self.temporal_resources {
            RenderGraphTemporalResources::Inert(r) => spec_registry_wf(r.entries@) && spec_all_inert(r.entries@),
            RenderGraphTemporalResources::Exported(e) => spec_registry_wf(e.0.entries@) && spec_none_imported(
                e.0.entries@,
            ),
        }
        &&& self.compiled_rg matches Some(c) ==> {
            &&& c.spec_wf()
            &&& c.render_graph.spec_analyzable()
            &&& spec_drawable(c.render_graph)
            &&& (self.temporal_resources matches RenderGraphTemporalResources::Exported(e) ==> spec_exports_within(
                e.0.entries@,
                c.render_graph.resources@.len() as int,
            ))
        }
    }

    /// An executor with nothing prepared, no pipelines, no cached resources and no temporal
    /// resources.
    pub fn new(global_dynamic_buffer: DynamicBuffer, global_dynamic_constants_set: u64) -> (executor: Self)
        requires
            global_dynamic_buffer.spec_wf(),
        ensures
            executor.spec_wf(),
            executor.compiled_rg is None,
            executor.temporal_resources matches RenderGraphTemporalResources::Inert(r) && r.entries@.len() == 0,
            executor.pipeline_cache.raster_entries@.len() == 0,
            executor.pipeline_cache.compute_entries@.len() == 0,
            executor.pipeline_cache.ray_tracing_entries@.len() == 0,
            forall|d: crate::image::ImageDesc| executor.transient_resource_cache.spec_images(d).len() == 0,
            forall|d: crate::buffer::BufferDesc| executor.transient_resource_cache.spec_buffers(d).len() == 0,
            executor.global_dynamic_buffer == global_dynamic_buffer,
            executor.global_dynamic_constants_set == global_dynamic_constants_set,
    {
        GraphExecutor {
            compiled_rg: None,
            pipeline_cache: PipelineCache::new(),
            transient_resource_cache: TransientResourceCache::new(),
            temporal_resources: RenderGraphTemporalResources::new(),
            global_dynamic_buffer,
            global_dynamic_constants_set,
        }
    }

    /// A builder for the next frame, with the temporal resources the last frame left: the
    /// resources themselves, each in the access it was left in.
    pub fn begin_prepare(&self) -> (builder: RenderGraphBuilder)
        requires
            self.spec_wf(),
            self.temporal_resources is Inert,
        ensures
            builder.render_graph.passes@.len() == 0,
            builder.render_graph.resources@.len() == 0,
            builder.render_graph.exported_resources@.len() == 0,
            builder.spec_ready(),
            builder.temporal_resources.entries@.len() == self.temporal_resources->Inert_0.entries@.len(),
            forall|i: int|
                0 <= i < builder.temporal_resources.entries@.len() ==> (
                #[trigger] builder.temporal_resources.entries@[i]).0.0@
                    == self.temporal_resources->Inert_0.entries@[i].0.0@
                    && builder.temporal_resources.entries@[i].1 == self.temporal_resources->Inert_0.entries@[i].1,
    {
        let registry = match &self.temporal_resources {
            RenderGraphTemporalResources::Inert(resources) => resources.clone_assuming_inert(),
            RenderGraphTemporalResources::Exported(_) => {
                assert(false);
                TemporalResourceRegistry::new()
            },
        };
        let builder = RenderGraphBuilder::new(registry);
        proof {
            let old_entries = self.temporal_resources->Inert_0.entries@;
            let e = builder.temporal_resources.entries@;
            assert forall|i: int, j: int| 0 <= i < j < e.len() implies (#[trigger] e[i]).0.0@ != (
            #[trigger] e[j]).0.0@ by {
                assert(old_entries[i].0.0@ != old_entries[j].0.0@);
            }
            assert forall|i: int| 0 <= i < e.len() implies !((#[trigger] e[i]).1 is Exported) by {
                assert(old_entries[i].1 is Inert);
            }
            assert forall|i: int| 0 <= i < e.len() implies match (#[trigger] e[i]).1 {
                TemporalResourceState::Inert { .. } => true,
                _ => false,
            } by {
                assert(old_entries[i].1 is Inert);
            }
        }
        builder
    }
}

proof fn lemma_temporal_exports_within(entries: Seq<(TemporalResourceKey, TemporalResourceState)>, n: int)
    requires
        spec_imports_within(entries, n),
    ensures
        forall|k: int|
            0 <= k < spec_temporal_exports(entries).len() ==> (#[trigger] spec_temporal_exports(entries)[k]).1
                == AccessType::Nothing && (spec_temporal_exports(entries)[k].0.spec_handle().id as int) < n,
    decreases entries.len(),
{
    if entries.len() > 0 {
        let prev = entries.drop_last();
        assert forall|i: int| 0 <= i < prev.len() && (#[trigger] prev[i]).1 is Imported implies (
        prev[i].1->Imported_handle.spec_handle().id as int) < n by {
            assert(prev[i] == entries[i]);
        }
        lemma_temporal_exports_within(prev, n);
        assert(entries.last() == entries[entries.len() - 1]);
    }
}

impl GraphExecutor {
    /// Builds the prepared frame's graph and compiles it, registering its pipelines; the graph
    /// waits for the draw. The temporal resources the frame took are handed back, exported,
    /// until its pipelines are known to be ready.
    pub fn finish_prepare(&mut self, builder: RenderGraphBuilder) -> (exported: ExportedTemporalResources)
        requires
            old(self).spec_wf(),
            old(self).temporal_resources is Inert,
            spec_registry_wf(builder.temporal_resources.entries@),
            spec_none_exported(builder.temporal_resources.entries@),
            spec_imports_within(builder.temporal_resources.entries@, builder.render_graph.resources@.len() as int),
            builder.render_graph.spec_analyzable(),
            spec_drawable(builder.render_graph),
            forall|i: int|
                0 <= i < builder.render_graph.compute_pipelines@.len() ==> (
                #[trigger] builder.render_graph.compute_pipelines@[i]).desc.source is Hlsl,
        ensures
            final(self).spec_wf(),
            final(self).compiled_rg matches Some(c) && c.render_graph.passes == builder.render_graph.passes
                && c.render_graph.resources == builder.render_graph.resources
                && c.render_graph.exported_resources@ == builder.render_graph.exported_resources@
                + spec_temporal_exports(builder.temporal_resources.entries@),
            final(self).temporal_resources == old(self).temporal_resources,
            final(self).transient_resource_cache == old(self).transient_resource_cache,
            final(self).global_dynamic_buffer == old(self).global_dynamic_buffer,
            exported.0.entries@.len() == builder.temporal_resources.entries@.len(),
            forall|i: int|
                0 <= i < builder.temporal_resources.entries@.len() ==> (#[trigger] exported.0.entries@[i]).0
                    == builder.temporal_resources.entries@[i].0 && spec_exported_from(
                    builder.temporal_resources.entries@[i].1,
                    exported.0.entries@[i].1,
                ),
            spec_registry_wf(exported.0.entries@),
            spec_none_imported(exported.0.entries@),
            spec_exports_within(exported.0.entries@, builder.render_graph.resources@.len() as int),
    {
        let ghost entries = builder.temporal_resources.entries@;
        let ghost n = builder.render_graph.resources@.len() as int;
        let ghost g = builder.render_graph;
        let (rg, exported) = builder.build();
        proof {
            lemma_temporal_exports_within(entries, n);
            let temporal = spec_temporal_exports(entries);
            let old_len = g.exported_resources@.len();
            assert forall|k: int| 0 <= k < rg.exported_resources@.len() implies {
                let e = #[trigger] rg.exported_resources@[k];
                &&& e.0.spec_handle().id < rg.resources@.len()
                &&& rg.spec_export_valid(e)
            } by {
                if k < old_len {
                    assert(rg.exported_resources@[k] == g.exported_resources@[k]);
                    assert(g.spec_export_valid(g.exported_resources@[k]));
                } else {
                    assert(rg.exported_resources@[k] == temporal[k - old_len]);
                }
            }
            assert(rg.spec_analyzable());
            assert forall|k: int|
                0 <= k < rg.exported_resources@.len() && (#[trigger] rg.exported_resources@[k]).1
                    != AccessType::Nothing implies !spec_is_swapchain(
                rg.resources@[rg.exported_resources@[k].0.spec_handle().id as int],
            ) by {
                if k < old_len {
                    assert(rg.exported_resources@[k] == g.exported_resources@[k]);
                } else {
                    assert(rg.exported_resources@[k] == temporal[k - old_len]);
                }
            }
            assert(spec_drawable(rg));
            let x = exported.0.entries@;
            assert forall|i: int| 0 <= i < x.len() implies !((#[trigger] x[i]).1 is Imported) by {
                assert(spec_exported_from(entries[i].1, x[i].1));
                assert(!(entries[i].1 is Exported));
            }
            assert forall|i: int| 0 <= i < x.len() && (#[trigger] x[i]).1 is Exported implies (
            x[i].1->Exported_handle.spec_handle().id as int) < n by {
                assert(spec_exported_from(entries[i].1, x[i].1));
                assert(!(entries[i].1 is Exported));
            }
        }
        let compiled = rg.compile(&mut self.pipeline_cache);
        self.compiled_rg = Some(compiled);
        exported
    }

    /// Settles a prepared frame once its pipelines were compiled: when they are ready, the
    /// temporal resources the frame took stay with it until it is drawn; when they are not, the
    /// resources the frame created are kept, inert, for the next attempt. Tells whether the frame
    /// is ready.
    pub fn complete_prepare(&mut self, exported: ExportedTemporalResources, pipelines_ready: bool) -> (ready: bool)
        requires
            old(self).spec_wf(),
            old(self).temporal_resources is Inert,
            spec_registry_wf(exported.0.entries@),
            spec_none_imported(exported.0.entries@),
            old(self).compiled_rg matches Some(c) ==> spec_exports_within(
                exported.0.entries@,
                c.render_graph.resources@.len() as int,
            ),
        ensures
            final(self).spec_wf(),
            ready == pipelines_ready,
            ready ==> final(self).temporal_resources == RenderGraphTemporalResources::Exported(exported),
            !ready ==> (final(self).temporal_resources matches RenderGraphTemporalResources::Inert(r)
                && r.entries@ == spec_restored(old(self).temporal_resources->Inert_0.entries@, exported.0.entries@)),
            final(self).compiled_rg == old(self).compiled_rg,
            final(self).pipeline_cache == old(self).pipeline_cache,
            final(self).transient_resource_cache == old(self).transient_resource_cache,
            final(self).global_dynamic_buffer == old(self).global_dynamic_buffer,
    {
        if pipelines_ready {
            self.temporal_resources = RenderGraphTemporalResources::Exported(exported);
            true
        } else {
            let mut taken = RenderGraphTemporalResources::new();
            std::mem::swap(&mut taken, &mut self.temporal_resources);
            let mut registry = match taken {
                RenderGraphTemporalResources::Inert(r) => r,
                RenderGraphTemporalResources::Exported(_) => {
                    assert(false);
                    TemporalResourceRegistry::new()
                },
            };
            restore_temporal_resources(&mut registry, exported);
            self.temporal_resources = RenderGraphTemporalResources::Inert(registry);
            false
        }
    }
}

proof fn lemma_export_requests_from(exps: Seq<(crate::graph_resource::ExportableGraphResource, AccessType)>, k: int)
    requires
        0 <= k < spec_export_requests(exps).len(),
    ensures
        exists|j: int|
            0 <= j < exps.len() && (#[trigger] exps[j]).1 != AccessType::Nothing && spec_export_requests(exps)[k].resource
                == exps[j].0.spec_handle().id as usize,
    decreases exps.len(),
{
    let prev = spec_export_requests(exps.drop_last());
    if k < prev.len() {
        lemma_export_requests_from(exps.drop_last(), k);
        let j = choose|j: int|
            0 <= j < exps.drop_last().len() && (#[trigger] exps.drop_last()[j]).1 != AccessType::Nothing
                && prev[k].resource == exps.drop_last()[j].0.spec_handle().id as usize;
        assert(exps.drop_last()[j] == exps[j]);
    } else {
        assert(exps[exps.len() - 1] == exps.last());
    }
}

proof fn lemma_created_after_fill(a: Seq<RegisteredResource>, b: Seq<RegisteredResource>, img: Arc<Image>)
    requires
        a.len() == b.len(),
        forall|i: int| 0 <= i < a.len() ==> (#[trigger] b[i]).resource == spec_filled(a[i].resource, img),
    ensures
        forall|d: ImageDesc| #[trigger] spec_created_images(b, d) == spec_created_images(a, d),
        forall|d: BufferDesc| #[trigger] spec_created_buffers(b, d) == spec_created_buffers(a, d),
    decreases a.len(),
{
    if a.len() > 0 {
        assert forall|i: int| 0 <= i < a.drop_last().len() implies (#[trigger] b.drop_last()[i]).resource == spec_filled(
            a.drop_last()[i].resource,
            img,
        ) by {
            assert(b.drop_last()[i] == b[i] && a.drop_last()[i] == a[i]);
        }
        lemma_created_after_fill(a.drop_last(), b.drop_last(), img);
        assert(b.last() == b[b.len() - 1] && a.last() == a[a.len() - 1]);
        assert forall|d: ImageDesc| #[trigger] spec_created_images(b, d) == spec_created_images(a, d) by {
            assert(spec_created_images(b.drop_last(), d) == spec_created_images(a.drop_last(), d));
        }
        assert forall|d: BufferDesc| #[trigger] spec_created_buffers(b, d) == spec_created_buffers(a, d) by {
            assert(spec_created_buffers(b.drop_last(), d) == spec_created_buffers(a.drop_last(), d));
        }
    }
}

proof fn lemma_present_pass_exists(natives: Seq<GraphResource>, passes: Seq<crate::pass::Pass>)
    requires
        exists|k: int| 0 <= k < passes.len() && spec_writes_swapchain(natives, #[trigger] passes[k]),
    ensures
        crate::executing_graph::spec_is_present_pass(natives, passes, spec_present_pass(natives, passes)),
    decreases passes.len(),
{
    let n = passes.len();
    if spec_writes_swapchain(natives, passes[n - 1]) {
        assert(crate::executing_graph::spec_is_present_pass(natives, passes, n - 1));
    } else {
        let k = choose|k: int| 0 <= k < passes.len() && spec_writes_swapchain(natives, #[trigger] passes[k]);
        let prev = passes.drop_last();
        assert(prev[k] == passes[k]);
        lemma_present_pass_exists(natives, prev);
        let r = spec_present_pass(natives, prev);
        assert(prev[r] == passes[r]);
        assert forall|j: int| r < j < n implies !spec_writes_swapchain(natives, #[trigger] passes[j]) by {
            if j < n - 1 {
                assert(prev[j] == passes[j]);
            }
        }
        assert(crate::executing_graph::spec_is_present_pass(natives, passes, r));
    }
}

/// A frame being drawn: its graph, recorded up to the pass that presents, and where its
/// constants lie in the dynamic buffer.
pub struct DrawingFrame {
    pub executing: ExecutingRenderGraph,
    pub layout: DrawFrameContextLayout,
    /// What the device's frame slot held back, now safe to destroy.
    pub stale: DeferReleaseQueue,
}

/// Whether a frame recorded up to the pass that presents can be presented and retired: the
/// temporal resources it took are exported under its resources, its final transitions and its
/// remaining passes name its resources, and only the swapchain image is still to come.
pub open spec fn spec_frame_ready(exec: ExecutingRenderGraph, temporal: RenderGraphTemporalResources) -> bool {
    let regs = exec.registered_resources@;
    &&& (temporal matches RenderGraphTemporalResources::Exported(e) && spec_exports_within(
        e.0.entries@,
        regs.len() as int,
    ))
    &&& spec_requests_valid(regs, spec_export_requests(exec.exported_resources@))
    &&& forall|i: int|
        0 <= i < regs.len() && (#[trigger] regs[i]).resource is Delayed ==> (regs[i].resource matches GraphPreparedResource::Delayed(
            GraphResource::Imported(GraphResourceImportedData::SwapchainImage),
        ))
    &&& forall|k: int, j: int|
        0 <= k < exec.passes@.len() && 0 <= j < exec.passes@[k].refs().len() ==> (
        #[trigger] exec.passes@[k].refs()[j]).handle.id < regs.len()
}

/// The accesses the resources of a frame end in: after the transitions of its exports, then
/// those of its remaining passes.
pub open spec fn spec_final_accesses(exec: ExecutingRenderGraph) -> Seq<AccessType> {
    spec_accesses_after_passes(
        spec_batched_accesses(
            spec_accesses(exec.registered_resources@),
            spec_export_requests(exec.exported_resources@),
        ),
        exec.passes@,
    )
}

/// Whether `new` is `old` once the frame is over: an exported temporal resource is inert again,
/// in the access the frame ended its resource in; every other state stays.
pub open spec fn spec_inert_after(old: TemporalResourceState, new: TemporalResourceState, accs: Seq<AccessType>) -> bool {
    match old {
        TemporalResourceState::Exported { resource, handle } => new == TemporalResourceState::Inert {
            resource,
            access: accs[handle.spec_handle().id as int],
        },
        _ => new == old,
    }
}

impl GraphExecutor {
    /// Starts drawing the prepared frame: the device begins a frame in its current slot and
    /// hands back what the slot held back, the frame's constants go to the dynamic buffer, its
    /// resources are gathered, and every pass before the one that presents is recorded. Without
    /// a prepared frame nothing is drawn and nothing changes.
    pub fn begin_draw<FI, FB>(
        &mut self,
        frames: &mut DeviceFrames,
        frame_constants_size: usize,
        create_image: &FI,
        create_buffer: &FB,
        cmds: &mut Vec<RecordedCommand>,
    ) -> (frame: Option<DrawingFrame>) where FI: Fn(ImageDesc) -> Image, FB: Fn(BufferDesc) -> Buffer
        requires
            old(self).spec_wf(),
            old(self).compiled_rg is Some ==> old(self).temporal_resources is Exported,
            forall|d: ImageDesc| create_image.requires((d,)),
            forall|d: BufferDesc| create_buffer.requires((d,)),
            old(frames).spec_wf(),
            old(self).compiled_rg is Some ==> {
                &&& old(self).global_dynamic_buffer.spec_used() + frame_constants_size <= MAX_DYNAMIC_BUFFER_SIZE_BYTES
                &&& frame_constants_size + old(self).global_dynamic_buffer.spec_alignment() <= usize::MAX
                &&& old(self).global_dynamic_buffer.spec_used() + spec_align_up(
                    frame_constants_size as int,
                    old(self).global_dynamic_buffer.spec_alignment() as int,
                ) <= u32::MAX
            },
        ensures
            final(self).spec_wf(),
            final(frames).spec_wf(),
            old(self).compiled_rg is None ==> frame is None && *final(self) == *old(self) && final(cmds)@
                == old(cmds)@ && final(frames)@ == old(frames)@,
            old(self).compiled_rg matches Some(c) ==> (frame matches Some(f) && {
                &&& f.stale@ == old(frames)@.1[old(frames)@.0 as int]
                &&& final(frames)@ == spec_begin_frame(old(frames)@)
                &&& f.layout.frame_constants_offset == old(self).global_dynamic_buffer.spec_current_offset()
                &&& f.executing.native_resources == c.render_graph.resources
                &&& f.executing.exported_resources == c.render_graph.exported_resources
                &&& f.executing.passes@ == c.render_graph.passes@.skip(
                    spec_present_pass(c.render_graph.resources@, c.render_graph.passes@),
                )
                &&& f.executing.registered_resources@.len() == c.render_graph.resources@.len()
                &&& final(cmds)@.take(old(cmds)@.len() as int) == old(cmds)@
                &&& exists|regs: Seq<RegisteredResource>|
                    #![trigger spec_records_before_present(regs, c.render_graph.resources@, c.render_graph.passes@, old(cmds)@, final(cmds)@, f.executing.registered_resources@)]
                    {
                        &&& regs.len() == c.render_graph.resources@.len()
                        &&& forall|i: int|
                            0 <= i < regs.len() ==> spec_registered(
                                c.render_graph.resources@[i],
                                c.resource_infos.resource_usages@[i],
                                #[trigger] regs[i],
                                *create_image,
                                *create_buffer,
                            )
                        &&& spec_records_before_present(
                            regs,
                            c.render_graph.resources@,
                            c.render_graph.passes@,
                            old(cmds)@,
                            final(cmds)@,
                            f.executing.registered_resources@,
                        )
                    }
                &&& spec_frame_ready(f.executing, final(self).temporal_resources)
                &&& final(self).global_dynamic_buffer.spec_used() == old(self).global_dynamic_buffer.spec_used()
                    + spec_align_up(frame_constants_size as int, old(self).global_dynamic_buffer.spec_alignment() as int)
                &&& final(self).global_dynamic_buffer.spec_frame() == old(self).global_dynamic_buffer.spec_frame()
            }),
            final(self).compiled_rg is None,
            final(self).temporal_resources == old(self).temporal_resources,
            final(self).pipeline_cache == old(self).pipeline_cache,
    {
        let compiled = match self.compiled_rg.take() {
            Some(rg) => rg,
            None => {
                return None;
            },
        };
        let ghost c = compiled;
        let stale = frames.begin_frame();
        let frame_constants_offset = self.global_dynamic_buffer.push(frame_constants_size);
        let layout = DrawFrameContextLayout { frame_constants_offset };
        let mut executing = compiled.prepare_execute(&mut self.transient_resource_cache, create_image, create_buffer);
        let ghost natives = c.render_graph.resources@;
        let ghost passes = c.render_graph.passes@;
        let ghost regs = executing.registered_resources@;
        proof {
            assert forall|i: int| 0 <= i < regs.len() implies ((#[trigger] regs[i]).resource is Delayed)
                == spec_is_swapchain(natives[i]) && (regs[i].resource is Delayed ==> regs[i].resource matches GraphPreparedResource::Delayed(
                GraphResource::Imported(GraphResourceImportedData::SwapchainImage),
            )) by {
                assert(spec_registered(natives[i], c.resource_infos.resource_usages@[i], regs[i], *create_image, *create_buffer));
                assert(!crate::graph::spec_is_created_accel_struct(natives[i]));
            }
            assert forall|k: int, j: int|
                0 <= k < passes.len() && 0 <= j < passes[k].outputs@.len() implies (#[trigger] passes[k].outputs@[j]).handle.id
                < natives.len() by {
                assert(passes[k].refs()[passes[k].inputs@.len() + j] == passes[k].outputs@[j]);
            }
            let first = spec_present_pass(natives, passes);
            lemma_present_pass_exists(natives, passes);
            assert forall|k: int| 0 <= k < first implies crate::executing_graph::spec_pass_valid(regs, #[trigger] passes[k]) by {
                assert forall|j: int| 0 <= j < passes[k].refs().len() implies crate::executing_graph::spec_ref_valid(
                    regs,
                    #[trigger] passes[k].refs()[j],
                ) by {
                    assert(!spec_is_swapchain(natives[passes[k].refs()[j].handle.id as int]));
                }
            }
        }
        executing.record_commands(cmds);
        proof {
            let first = spec_present_pass(natives, passes);
            let regs2 = executing.registered_resources@;
            let pre = crate::executing_graph::spec_forced_requests(passes.take(first));
            let accs1 = crate::executing_graph::spec_accesses_after_singles(spec_accesses(regs), pre);
            let base = old(cmds)@.len() as int;
            let mid = base + pre.len();
            let forced = choose|forced: Seq<crate::pass::Pass>|
                #![trigger crate::executing_graph::spec_records_passes(regs, accs1, forced, cmds@.skip(mid))]
                {
                    &&& forced.len() == first
                    &&& forall|k: int|
                        0 <= k < first ==> crate::executing_graph::spec_is_forced(passes[k], #[trigger] forced[k])
                    &&& crate::executing_graph::spec_records_passes(regs, accs1, forced, cmds@.skip(mid))
                    &&& crate::executing_graph::spec_same_resources_with(
                        regs,
                        regs2,
                        spec_accesses_after_passes(accs1, forced),
                    )
                };
            assert(regs2.len() == regs.len());
            assert forall|i: int| 0 <= i < regs.len() implies (#[trigger] regs2[i]).resource == regs[i].resource by {
            }
            let exps = c.render_graph.exported_resources@;
            assert forall|k: int| 0 <= k < spec_export_requests(exps).len() implies {
                let r = #[trigger] spec_export_requests(exps)[k];
                &&& r.resource < regs2.len()
                &&& !(regs2[r.resource as int].resource is Delayed)
            } by {
                lemma_export_requests_from(exps, k);
                let j = choose|j: int|
                    0 <= j < exps.len() && (#[trigger] exps[j]).1 != AccessType::Nothing
                        && spec_export_requests(exps)[k].resource == exps[j].0.spec_handle().id as usize;
                let id = exps[j].0.spec_handle().id as int;
                assert(id < natives.len());
                assert(!spec_is_swapchain(natives[id]));
                assert(regs2[id].resource == regs[id].resource);
            }
            assert forall|i: int|
                0 <= i < regs2.len() && (#[trigger] regs2[i]).resource is Delayed implies regs2[i].resource matches GraphPreparedResource::Delayed(
                GraphResource::Imported(GraphResourceImportedData::SwapchainImage),
            ) by {
                assert(regs2[i].resource == regs[i].resource);
            }
            let rest = executing.passes@;
            assert forall|k: int, j: int|
                0 <= k < rest.len() && 0 <= j < rest[k].refs().len() implies (#[trigger] rest[k].refs()[j]).handle.id
                < regs2.len() by {
                assert(rest[k] == passes[k + first]);
            }
        }
        Some(DrawingFrame { executing, layout, stale })
    }
}

impl GraphExecutor {
    /// Finishes drawing a frame once the swapchain image is acquired: the exported resources are
    /// moved into their final accesses and the passes from the one that presents on are
    /// recorded; then the temporal resources are inert again, in the accesses the frame left
    /// them in, every resource the frame created goes back to the cache, and the dynamic buffer
    /// and the device move on to their next frame slots.
    pub fn end_draw(
        &mut self,
        frames: &mut DeviceFrames,
        frame: DrawingFrame,
        cmds: &mut Vec<RecordedCommand>,
        swapchain_image: Arc<Image>,
    )
        requires
            old(self).spec_wf(),
            old(frames).spec_wf(),
            old(self).compiled_rg is None,
            spec_frame_ready(frame.executing, old(self).temporal_resources),
        ensures
            final(self).spec_wf(),
            final(self).compiled_rg is None,
            ({
                let e = old(self).temporal_resources->Exported_0.0.entries@;
                let accs = spec_final_accesses(frame.executing);
                final(self).temporal_resources matches RenderGraphTemporalResources::Inert(r) && r.entries@.len()
                    == e.len() && forall|i: int|
                    0 <= i < e.len() ==> (#[trigger] r.entries@[i]).0 == e[i].0 && spec_inert_after(
                        e[i].1,
                        r.entries@[i].1,
                        accs,
                    )
            }),
            forall|d: ImageDesc|
                #[trigger] final(self).transient_resource_cache.spec_images(d) == old(self).transient_resource_cache.spec_images(d)
                    + spec_created_images(frame.executing.registered_resources@, d),
            forall|d: BufferDesc|
                #[trigger] final(self).transient_resource_cache.spec_buffers(d) == old(self).transient_resource_cache.spec_buffers(d)
                    + spec_created_buffers(frame.executing.registered_resources@, d),
            final(self).global_dynamic_buffer.spec_frame() == (old(self).global_dynamic_buffer.spec_frame() + 1) % 2,
            final(self).global_dynamic_buffer.spec_used() == 0,
            final(frames).spec_wf(),
            final(frames)@ == spec_end_frame(old(frames)@),
            final(self).global_dynamic_buffer.spec_alignment() == old(self).global_dynamic_buffer.spec_alignment(),
            final(self).pipeline_cache == old(self).pipeline_cache,
            final(cmds)@.take(old(cmds)@.len() as int) == old(cmds)@,
    {
        let ghost exec = frame.executing;
        let ghost regs = exec.registered_resources@;
        let DrawingFrame { executing, layout: _, stale: _ } = frame;
        let retired = executing.record_present_commands(cmds, swapchain_image);
        let ghost filled = retired.registered_resources@;
        let mut taken = RenderGraphTemporalResources::new();
        std::mem::swap(&mut taken, &mut self.temporal_resources);
        let exported = match taken {
            RenderGraphTemporalResources::Exported(e) => e,
            RenderGraphTemporalResources::Inert(_) => {
                assert(false);
                ExportedTemporalResources(TemporalResourceRegistry::new())
            },
        };
        let ghost e = exported.0.entries@;
        proof {
            assert forall|i: int| 0 <= i < e.len() implies !((#[trigger] e[i]).1 is Imported) by {
            }
        }
        let registry = exported.consume(&retired);
        proof {
            let accs = spec_final_accesses(exec);
            assert(crate::executing_graph::spec_accesses(filled) == accs);
            assert forall|i: int| 0 <= i < e.len() implies spec_inert_after(e[i].1, (#[trigger] registry.entries@[i]).1, accs) by {
                assert(crate::graph_builder::spec_inert_from(e[i].1, registry.entries@[i].1, filled));
                if e[i].1 is Exported {
                    let id = e[i].1->Exported_handle.spec_handle().id as int;
                    assert(accs[id] == filled[id].access);
                }
            }
            assert forall|i: int| 0 <= i < filled.len() implies !((#[trigger] filled[i]).resource is Delayed) by {
                assert(filled[i].resource == spec_filled(regs[i].resource, swapchain_image));
            }
            lemma_created_after_fill(regs, filled, swapchain_image);
        }
        self.temporal_resources = RenderGraphTemporalResources::Inert(registry);
        retired.release_owned_resources(&mut self.transient_resource_cache);
        self.global_dynamic_buffer.advance_frame();
        frames.end_frame();
    }
}

/// The registry of temporal resources, whichever state the executor holds it in.
pub open spec fn spec_temporal_entries(t: RenderGraphTemporalResources) -> Seq<(TemporalResourceKey, TemporalResourceState)> {
    match t {
        RenderGraphTemporalResources::Inert(r) => r.entries@,
        RenderGraphTemporalResources::Exported(e) => e.0.entries@,
    }
}

impl RenderGraphTemporalResources {
    /// The temporal resources to destroy, in registry order; none may be taken or exported.
    pub fn clean(self) -> (resources: Vec<TemporalResource>)
        requires
            spec_all_inert(spec_temporal_entries(self)),
        ensures
            resources@.len() == spec_temporal_entries(self).len(),
            forall|i: int|
                0 <= i < resources@.len() ==> #[trigger] resources@[i] == spec_temporal_entries(self)[i].1->Inert_resource,
    {
        let ghost all = spec_temporal_entries(self);
        let mut entries = match self {
            RenderGraphTemporalResources::Inert(registry) => registry.entries,
            RenderGraphTemporalResources::Exported(resources) => resources.0.entries,
        };
        let mut resources: Vec<TemporalResource> = Vec::new();
        let n = entries.len();
        let mut k: usize = 0;
        proof {
            assert(entries@ =~= all.skip(0));
        }
        while k < n
            invariant
                n == all.len(),
                k <= n,
                entries@ == all.skip(k as int),
                spec_all_inert(all),
                resources@.len() == k,
                forall|i: int| 0 <= i < k ==> #[trigger] resources@[i] == all[i].1->Inert_resource,
            decreases n - k,
        {
            let (_, state) = entries.remove(0);
            proof {
                assert(all.skip(k as int)[0] == all[k as int]);
                assert(all.skip(k as int).remove(0) =~= all.skip(k + 1));
                assert(all[k as int].1 is Inert);
            }
            let resource = match state {
                TemporalResourceState::Inert { resource, .. } => resource,
                TemporalResourceState::Imported { resource, .. } => {
                    assert(false);
                    resource
                },
                TemporalResourceState::Exported { resource, .. } => {
                    assert(false);
                    resource
                },
            };
            resources.push(resource);
            k = k + 1;
        }
        resources
    }
}

/// Everything an executor holds on the GPU, handed back to be destroyed.
pub struct ExecutorResources {
    pub dynamic_buffer: crate::buffer::Buffer,
    pub images: Vec<Image>,
    pub buffers: Vec<Buffer>,
    pub temporal_resources: Vec<TemporalResource>,
    pub raster_pipelines: Vec<Arc<RasterPipeline>>,
    pub compute_pipelines: Vec<Arc<ComputePipeline>>,
    pub ray_tracing_pipelines: Vec<Arc<RayTracingPipeline>>,
}

impl GraphExecutor {
    /// Hands back every resource the executor holds: the dynamic buffer, the cached images and
    /// buffers, the temporal resources and the built pipelines. No temporal resource may be
    /// taken or exported.
    pub fn shutdown(self) -> (res: ExecutorResources)
        requires
            self.spec_wf(),
            spec_all_inert(spec_temporal_entries(self.temporal_resources)),
        ensures
            res.dynamic_buffer == self.global_dynamic_buffer.buffer,
            forall|img: Image| res.images@.contains(img) <==> self.transient_resource_cache.spec_images(img.desc).contains(img),
            forall|buf: Buffer| res.buffers@.contains(buf) <==> self.transient_resource_cache.spec_buffers(buf.desc).contains(buf),
            res.temporal_resources@.len() == spec_temporal_entries(self.temporal_resources).len(),
            forall|i: int|
                0 <= i < res.temporal_resources@.len() ==> #[trigger] res.temporal_resources@[i] == spec_temporal_entries(
                    self.temporal_resources,
                )[i].1->Inert_resource,
            res.raster_pipelines@ == spec_built(self.pipeline_cache.raster_entries@),
            res.compute_pipelines@ == spec_built(self.pipeline_cache.compute_entries@),
            res.ray_tracing_pipelines@ == spec_built(self.pipeline_cache.ray_tracing_entries@),
    {
        let dynamic_buffer = self.global_dynamic_buffer.clean();
        let (images, buffers) = self.transient_resource_cache.clean();
        let temporal_resources = self.temporal_resources.clean();
        let (raster_pipelines, compute_pipelines, ray_tracing_pipelines) = self.pipeline_cache.clean();
        ExecutorResources {
            dynamic_buffer,
            images,
            buffers,
            temporal_resources,
            raster_pipelines,
            compute_pipelines,
            ray_tracing_pipelines,
        }
    }
}

} // verus!
