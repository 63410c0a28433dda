//! Passes of a render graph: the resources each pass reads and writes, and how.
use vstd::prelude::*;

use std::marker::PhantomData;

use crate::barrier::{
    AccessType, spec_is_read_only_access, spec_is_read_only_raster_access, spec_is_write_only_access,
    spec_is_write_only_raster_access,
};
use crate::graph::{RenderGraph, RenderGraphComputePipeline, RenderGraphRasterPipeline};
use crate::pipeline::{ComputePipelineDesc, PipelineSetBindings, RasterPipelineDesc};
use crate::shader::{clone_shader_descs, spec_shader_views, PipelineShaderDesc, ShaderSource};
use crate::graph_resource::{
    GraphComputePipelineHandle, GraphRasterPipelineHandle, GraphResource, GraphResourceCreatedData, GraphResourceHandle,
    GraphResourceRef, Handle,
};
use crate::resource::{Resource, ResourceDesc, ResourceView, Rt, Srv, TypeEqualTo, Uav};

verus! {

/// How a pass accesses one of its resources.
#[derive(Clone, Copy, Debug, PartialEq, Eq, Structural)]
pub struct PassResourceAccessType {
    pub access_type: AccessType,
    /// When the resource is already in this access, no barrier is recorded for it,
    /// which lets consecutive passes overlap on the GPU.
    pub skip_sync_if_same: bool,
}

/// A resource of a pass and the pass's access to it.
#[derive(Clone, Copy, Debug, PartialEq, Eq, Structural)]
pub struct PassResourceHandle {
    pub handle: GraphResourceHandle,
    pub access: PassResourceAccessType,
}

/// A render pass of the graph: the resources it reads (inputs) and writes (outputs).
pub struct Pass {
    /// Slot of the pass in the render graph.
    pub id: usize,
    pub name: String,
    pub inputs: Vec<PassResourceHandle>,
    pub outputs: Vec<PassResourceHandle>,
}

impl Pass {
    /// A pass with no resources yet.
    pub fn new_empty(id: usize, name: String) -> (pass: Self)
        ensures
            pass.id == id,
            pass.name@ == name@,
            pass.inputs@.len() == 0,
            pass.outputs@.len() == 0,
    {
        Self { id, name, inputs: Vec::new(), outputs: Vec::new() }
    }

    /// The resources of the pass in the order they are transitioned: inputs, then outputs.
    pub open spec fn refs(&self) -> Seq<PassResourceHandle> {
        self.inputs@ + self.outputs@
    }
}

/// Builds a pass; the pass joins its render graph when it is finished.
pub struct PassBuilder {
    pub pass: Pass,
}

impl PassBuilder {
    /// Creates a resource the pass will use; it is added to the render graph at once.
    pub fn create<Desc: ResourceDesc>(
        &mut self,
        rg: &mut RenderGraph,
        desc: Desc,
    ) -> (handle: Handle<<Desc as ResourceDesc>::Resource>) where
        Desc: TypeEqualTo<Other = <<Desc as ResourceDesc>::Resource as Resource>::Desc>,

        requires
            old(rg).resources@.len() < u32::MAX,
        ensures
            handle.handle == (GraphResourceHandle { id: old(rg).resources@.len() as u32, generation: 0 }),
            handle.desc == Desc::spec_same(desc),
            final(rg).resources@.len() == old(rg).resources@.len() + 1,
            final(rg).resources@[old(rg).resources@.len() as int] == GraphResource::Created(
                GraphResourceCreatedData { desc: desc.spec_graph_desc() },
            ),
            forall|i: int| 0 <= i < old(rg).resources@.len() ==> final(rg).resources@[i] == old(rg).resources@[i],
            final(rg).passes == old(rg).passes,
            final(rg).exported_resources == old(rg).exported_resources,
            *final(self) == *old(self),
    {
        rg.new_resource(desc)
    }

    /// Declares that the pass reads the resource; the access must only read.
    pub fn read<ResType: Resource>(&mut self, handle: &mut Handle<ResType>, access_type: AccessType) -> (res:
        GraphResourceRef<ResType, Srv>)
        requires
            spec_is_read_only_access(access_type),
        ensures
            res.handle == old(handle).handle,
            *final(handle) == *old(handle),
            final(self).pass.inputs@ == old(self).pass.inputs@.push(
                PassResourceHandle {
                    handle: old(handle).handle,
                    access: PassResourceAccessType { access_type, skip_sync_if_same: false },
                },
            ),
            final(self).pass.outputs == old(self).pass.outputs,
            final(self).pass.id == old(self).pass.id,
            final(self).pass.name == old(self).pass.name,
    {
        self.read_impl(handle, access_type)
    }

    /// Declares that the pass writes the resource; the access must write.
    /// The returned reference is to the next generation of the resource's contents.
    pub fn write<ResType: Resource>(&mut self, handle: &mut Handle<ResType>, access_type: AccessType) -> (res:
        GraphResourceRef<ResType, Uav>)
        requires
            spec_is_write_only_access(access_type),
        ensures
            res.handle == old(handle).handle.spec_expired(),
            *final(handle) == *old(handle),
            final(self).pass.outputs@ == old(self).pass.outputs@.push(
                PassResourceHandle {
                    handle: old(handle).handle,
                    access: PassResourceAccessType { access_type, skip_sync_if_same: false },
                },
            ),
            final(self).pass.inputs == old(self).pass.inputs,
            final(self).pass.id == old(self).pass.id,
            final(self).pass.name == old(self).pass.name,
    {
        self.write_impl(handle, access_type)
    }

    /// Declares that the pass reads the resource as a render target.
    pub fn raster_read<ResType: Resource>(
        &mut self,
        handle: &mut Handle<ResType>,
        access_type: AccessType,
    ) -> (res: GraphResourceRef<ResType, Rt>)
        requires
            spec_is_read_only_raster_access(access_type),
        ensures
            res.handle == old(handle).handle,
            *final(handle) == *old(handle),
            final(self).pass.inputs@ == old(self).pass.inputs@.push(
                PassResourceHandle {
                    handle: old(handle).handle,
                    access: PassResourceAccessType { access_type, skip_sync_if_same: false },
                },
            ),
            final(self).pass.outputs == old(self).pass.outputs,
            final(self).pass.id == old(self).pass.id,
            final(self).pass.name == old(self).pass.name,
    {
        self.read_impl(handle, access_type)
    }

    /// Declares that the pass writes the resource as a render target.
    /// The returned reference is to the next generation of the resource's contents.
    pub fn raster_write<ResType: Resource>(
        &mut self,
        handle: &mut Handle<ResType>,
        access_type: AccessType,
    ) -> (res: GraphResourceRef<ResType, Rt>)
        requires
            spec_is_write_only_raster_access(access_type),
        ensures
            res.handle == old(handle).handle.spec_expired(),
            *final(handle) == *old(handle),
            final(self).pass.outputs@ == old(self).pass.outputs@.push(
                PassResourceHandle {
                    handle: old(handle).handle,
                    access: PassResourceAccessType { access_type, skip_sync_if_same: false },
                },
            ),
            final(self).pass.inputs == old(self).pass.inputs,
            final(self).pass.id == old(self).pass.id,
            final(self).pass.name == old(self).pass.name,
    {
        self.write_impl(handle, access_type)
    }

    fn write_impl<ResType: Resource, ViewType: ResourceView>(
        &mut self,
        handle: &mut Handle<ResType>,
        access_type: AccessType,
    ) -> (res: GraphResourceRef<ResType, ViewType>)
        ensures
            res.handle == old(handle).handle.spec_expired(),
            *final(handle) == *old(handle),
            final(self).pass.outputs@ == old(self).pass.outputs@.push(
                PassResourceHandle {
                    handle: old(handle).handle,
                    access: PassResourceAccessType { access_type, skip_sync_if_same: false },
                },
            ),
            final(self).pass.inputs == old(self).pass.inputs,
            final(self).pass.id == old(self).pass.id,
            final(self).pass.name == old(self).pass.name,
    {
        self.pass.outputs.push(
            PassResourceHandle {
                handle: handle.handle,
                access: PassResourceAccessType { access_type, skip_sync_if_same: false },
            },
        );
        GraphResourceRef { handle: handle.handle.expired(), _marker: PhantomData }
    }

    fn read_impl<ResType: Resource, ViewType: ResourceView>(
        &mut self,
        handle: &mut Handle<ResType>,
        access_type: AccessType,
    ) -> (res: GraphResourceRef<ResType, ViewType>)
        ensures
            res.handle == old(handle).handle,
            *final(handle) == *old(handle),
            final(self).pass.inputs@ == old(self).pass.inputs@.push(
                PassResourceHandle {
                    handle: old(handle).handle,
                    access: PassResourceAccessType { access_type, skip_sync_if_same: false },
                },
            ),
            final(self).pass.outputs == old(self).pass.outputs,
            final(self).pass.id == old(self).pass.id,
            final(self).pass.name == old(self).pass.name,
    {
        self.pass.inputs.push(
            PassResourceHandle {
                handle: handle.handle,
                access: PassResourceAccessType { access_type, skip_sync_if_same: false },
            },
        );
        GraphResourceRef { handle: handle.handle, _marker: PhantomData }
    }

    /// Registers in the render graph a compute pipeline running the HLSL shader at `path`.
    pub fn register_compute_pipeline(&mut self, rg: &mut RenderGraph, path: String) -> (handle:
        GraphComputePipelineHandle)
        ensures
            handle.idx == old(rg).compute_pipelines@.len(),
            final(rg).compute_pipelines@.len() == old(rg).compute_pipelines@.len() + 1,
            final(rg).compute_pipelines@.last().desc.source == (ShaderSource::Hlsl { path }),
            final(rg).compute_pipelines@.last().desc.custom_set_layout_overwrites@ == seq![
                None::<PipelineSetBindings>,
                None,
                None,
                None,
            ],
            forall|i: int| 0 <= i < old(rg).compute_pipelines@.len() ==> #[trigger] final(rg).compute_pipelines@[i]
                == old(rg).compute_pipelines@[i],
            final(rg).passes == old(rg).passes,
            final(rg).resources == old(rg).resources,
            final(rg).exported_resources == old(rg).exported_resources,
            final(rg).raster_pipelines == old(rg).raster_pipelines,
            final(rg).ray_tracing_pipelines == old(rg).ray_tracing_pipelines,
            *final(self) == *old(self),
    {
        let desc = ComputePipelineDesc {
            source: ShaderSource::Hlsl { path },
            custom_set_layout_overwrites: [None, None, None, None],
        };
        self.register_compute_pipeline_with_desc(rg, desc)
    }

    /// Registers a compute pipeline in the render graph.
    pub fn register_compute_pipeline_with_desc(&mut self, rg: &mut RenderGraph, desc: ComputePipelineDesc) -> (handle:
        GraphComputePipelineHandle)
        ensures
            handle.idx == old(rg).compute_pipelines@.len(),
            final(rg).compute_pipelines@ == old(rg).compute_pipelines@.push(RenderGraphComputePipeline { desc }),
            final(rg).passes == old(rg).passes,
            final(rg).resources == old(rg).resources,
            final(rg).exported_resources == old(rg).exported_resources,
            final(rg).raster_pipelines == old(rg).raster_pipelines,
            final(rg).ray_tracing_pipelines == old(rg).ray_tracing_pipelines,
            *final(self) == *old(self),
    {
        let idx = rg.compute_pipelines.len();
        rg.compute_pipelines.push(RenderGraphComputePipeline { desc });
        GraphComputePipelineHandle { idx }
    }

    /// Registers in the render graph a raster pipeline with these shader stages.
    pub fn register_raster_pipeline(
        &mut self,
        rg: &mut RenderGraph,
        shaders: &Vec<PipelineShaderDesc>,
        desc: RasterPipelineDesc,
    ) -> (handle: GraphRasterPipelineHandle)
        ensures
            handle.idx == old(rg).raster_pipelines@.len(),
            final(rg).raster_pipelines@.len() == old(rg).raster_pipelines@.len() + 1,
            final(rg).raster_pipelines@.last().desc == desc,
            spec_shader_views(final(rg).raster_pipelines@.last().stages@) == spec_shader_views(shaders@),
            forall|i: int| 0 <= i < old(rg).raster_pipelines@.len() ==> #[trigger] final(rg).raster_pipelines@[i]
                == old(rg).raster_pipelines@[i],
            final(rg).passes == old(rg).passes,
            final(rg).resources == old(rg).resources,
            final(rg).exported_resources == old(rg).exported_resources,
            final(rg).compute_pipelines == old(rg).compute_pipelines,
            final(rg).ray_tracing_pipelines == old(rg).ray_tracing_pipelines,
            *final(self) == *old(self),
    {
        let idx = rg.raster_pipelines.len();
        rg.raster_pipelines.push(RenderGraphRasterPipeline { desc, stages: clone_shader_descs(shaders) });
        GraphRasterPipelineHandle { idx }
    }

    /// Adds the built pass to its render graph, after the passes already there.
    pub fn finish(self, rg: &mut RenderGraph)
        ensures
            final(rg).passes@ == old(rg).passes@.push(self.pass),
            final(rg).resources == old(rg).resources,
            final(rg).exported_resources == old(rg).exported_resources,
            final(rg).raster_pipelines == old(rg).raster_pipelines,
            final(rg).compute_pipelines == old(rg).compute_pipelines,
            final(rg).ray_tracing_pipelines == old(rg).ray_tracing_pipelines,
    {
        rg.finish_add_pass(self.pass);
    }
}

} // verus!
