//! What a pass reaches while it runs: the resources the frame gathered, by the handles the pass
//! declared, and the pipelines it registered, by their graph handles.
use vstd::prelude::*;

use std::sync::Arc;

use crate::buffer::Buffer;
use crate::compiled_graph::{GraphPreparedResource, RegisteredResource, RenderGraphPipelineHandles};
use crate::graph_resource::{
    GraphComputePipelineHandle, GraphRasterPipelineHandle, GraphRayTracingPipelineHandle, GraphResourceHandle,
    GraphResourceRef,
};
use crate::image::Image;
use crate::pipeline::{ComputePipeline, RasterPipeline, RayTracingPipeline};
use crate::pipeline_cache::PipelineCache;
use crate::ray_tracing::RayTracingAccelerationStructure;
use crate::resource::ResourceView;

verus! {

/// The resources and pipelines of a frame, as a pass sees them.
pub struct GraphResourceRegistry<'a> {
    pub registered_resources: &'a Vec<RegisteredResource>,
    pub pipelines: &'a RenderGraphPipelineHandles,
    pub pipeline_cache: &'a PipelineCache,
}

/// Whether the resource behind `handle` is an image, gathered and not delayed.
pub open spec fn spec_is_image(regs: Seq<RegisteredResource>, handle: GraphResourceHandle) -> bool {
    &&& handle.id < regs.len()
    &&& (regs[handle.id as int].resource is CreatedImage || regs[handle.id as int].resource is ImportedImage)
}

/// The image behind `handle`.
pub open spec fn spec_image(regs: Seq<RegisteredResource>, handle: GraphResourceHandle) -> Image {
    match regs[handle.id as int].resource {
        GraphPreparedResource::CreatedImage(i) => i,
        GraphPreparedResource::ImportedImage(i) => *i,
        _ => arbitrary(),
    }
}

/// Whether the resource behind `handle` is a buffer.
pub open spec fn spec_is_buffer(regs: Seq<RegisteredResource>, handle: GraphResourceHandle) -> bool {
    &&& handle.id < regs.len()
    &&& (regs[handle.id as int].resource is CreatedBuffer || regs[handle.id as int].resource is ImportedBuffer)
}

/// The buffer behind `handle`.
pub open spec fn spec_buffer(regs: Seq<RegisteredResource>, handle: GraphResourceHandle) -> Buffer {
    match regs[handle.id as int].resource {
        GraphPreparedResource::CreatedBuffer(b) => b,
        GraphPreparedResource::ImportedBuffer(b) => *b,
        _ => arbitrary(),
    }
}

impl<'a> GraphResourceRegistry<'a> {
    /// The image behind a handle the pass declared.
    pub fn get_image_from_raw_handle(&self, handle: GraphResourceHandle) -> (image: &'a Image)
        requires
            spec_is_image(self.registered_resources@, handle),
        ensures
            *image == spec_image(self.registered_resources@, handle),
    {
        let regs: &'a Vec<RegisteredResource> = self.registered_resources;
        match &regs[handle.id as usize].resource {
            GraphPreparedResource::CreatedImage(image) => image,
            GraphPreparedResource::ImportedImage(image) => &**image,
            _ => vstd::pervasive::unreached(),
        }
    }

    /// The buffer behind a handle the pass declared.
    pub fn get_buffer_from_raw_handle(&self, handle: GraphResourceHandle) -> (buffer: &'a Buffer)
        requires
            spec_is_buffer(self.registered_resources@, handle),
        ensures
            *buffer == spec_buffer(self.registered_resources@, handle),
    {
        let regs: &'a Vec<RegisteredResource> = self.registered_resources;
        match &regs[handle.id as usize].resource {
            GraphPreparedResource::CreatedBuffer(buffer) => buffer,
            GraphPreparedResource::ImportedBuffer(buffer) => &**buffer,
            _ => vstd::pervasive::unreached(),
        }
    }

    /// The acceleration structure behind a handle the pass declared.
    pub fn get_acceleration_structure_from_raw_handle(&self, handle: GraphResourceHandle) -> (accel: &'a RayTracingAccelerationStructure)
        requires
            handle.id < self.registered_resources@.len(),
            self.registered_resources@[handle.id as int].resource is ImportedRayTracingAccelStruct,
        ensures
            *accel == *self.registered_resources@[handle.id as int].resource->ImportedRayTracingAccelStruct_0,
    {
        let regs: &'a Vec<RegisteredResource> = self.registered_resources;
        match &regs[handle.id as usize].resource {
            GraphPreparedResource::ImportedRayTracingAccelStruct(accel) => &**accel,
            _ => vstd::pervasive::unreached(),
        }
    }

    /// The image a pass reference names.
    pub fn get_image<View: ResourceView>(&self, img_ref: GraphResourceRef<Image, View>) -> (image: &'a Image)
        requires
            spec_is_image(self.registered_resources@, img_ref.handle),
        ensures
            *image == spec_image(self.registered_resources@, img_ref.handle),
    {
        self.get_image_from_raw_handle(img_ref.handle)
    }

    /// The buffer a pass reference names.
    pub fn get_buffer<View: ResourceView>(&self, buf_ref: GraphResourceRef<Buffer, View>) -> (buffer: &'a Buffer)
        requires
            spec_is_buffer(self.registered_resources@, buf_ref.handle),
        ensures
            *buffer == spec_buffer(self.registered_resources@, buf_ref.handle),
    {
        self.get_buffer_from_raw_handle(buf_ref.handle)
    }

    /// The raster pipeline a pass registered, once it is built.
    pub fn get_raster_pipeline(&self, handle: GraphRasterPipelineHandle) -> (pipeline: Arc<RasterPipeline>)
        requires
            handle.idx < self.pipelines.raster_pipeline_handles@.len(),
            self.pipelines.raster_pipeline_handles@[handle.idx as int].0 < self.pipeline_cache.raster_entries@.len(),
            self.pipeline_cache.raster_entries@[self.pipelines.raster_pipeline_handles@[handle.idx as int].0 as int].pipeline is Some,
        ensures
            Some(pipeline) == self.pipeline_cache.raster_entries@[self.pipelines.raster_pipeline_handles@[handle.idx as int].0 as int].pipeline,
    {
        let cached = self.pipelines.raster_pipeline_handles[handle.idx];
        self.pipeline_cache.get_raster_pipeline(cached)
    }

    /// The compute pipeline a pass registered, once it is built.
    pub fn get_compute_pipeline(&self, handle: GraphComputePipelineHandle) -> (pipeline: Arc<ComputePipeline>)
        requires
            handle.idx < self.pipelines.compute_pipeline_handles@.len(),
            self.pipelines.compute_pipeline_handles@[handle.idx as int].0 < self.pipeline_cache.compute_entries@.len(),
            self.pipeline_cache.compute_entries@[self.pipelines.compute_pipeline_handles@[handle.idx as int].0 as int].pipeline is Some,
        ensures
            Some(pipeline) == self.pipeline_cache.compute_entries@[self.pipelines.compute_pipeline_handles@[handle.idx as int].0 as int].pipeline,
    {
        let cached = self.pipelines.compute_pipeline_handles[handle.idx];
        self.pipeline_cache.get_compute_pipeline(cached)
    }

    /// The ray tracing pipeline a pass registered, once it is built.
    pub fn get_ray_tracing_pipeline(&self, handle: GraphRayTracingPipelineHandle) -> (pipeline: Arc<RayTracingPipeline>)
        requires
            handle.idx < self.pipelines.ray_tracing_pipeline_handles@.len(),
            self.pipelines.ray_tracing_pipeline_handles@[handle.idx as int].0 < self.pipeline_cache.ray_tracing_entries@.len(),
            self.pipeline_cache.ray_tracing_entries@[self.pipelines.ray_tracing_pipeline_handles@[handle.idx as int].0 as int].pipeline is Some,
        ensures
            Some(pipeline) == self.pipeline_cache.ray_tracing_entries@[self.pipelines.ray_tracing_pipeline_handles@[handle.idx as int].0 as int].pipeline,
    {
        let cached = self.pipelines.ray_tracing_pipeline_handles[handle.idx];
        self.pipeline_cache.get_ray_tracing_pipeline(cached)
    }
}

} // verus!
