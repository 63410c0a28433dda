//! The render graph: passes, the resources they use, and the analysis of how each resource
//! is used over the frame.
use vstd::prelude::*;

use std::marker::PhantomData;
use std::sync::Arc;

use crate::barrier::{AccessType, get_access_info, spec_access_info};
use crate::buffer::Buffer;
use crate::graph_resource::{
    ExportableGraphResource, ExportedHandle, GraphResource, GraphResourceCreatedData, GraphResourceDesc,
    GraphResourceHandle, GraphResourceImportedData, Handle,
};
use crate::image::{Image, ImageDesc, ImageType};
use crate::pass::{Pass, PassBuilder, PassResourceHandle};
use crate::compiled_graph::{CompiledRenderGraph, RenderGraphPipelineHandles};
use crate::pipeline::{
    ComputePipeline, ComputePipelineDesc, RasterPipeline, RasterPipelineDesc, RayTracingPipeline,
    RayTracingPipelineDesc,
};
use crate::pipeline_cache::{
    ComputePipelineHandle, PipelineCache, PipelineEntry, RasterPipelineHandle, RayTracingPipelineHandle,
};
use crate::ray_tracing::RayTracingAccelerationStructure;
use crate::resource::{RayTracingAccelStructDesc, Resource, ResourceDesc, TypeEqualTo};
use crate::shader::{spec_shader_views, spec_source_view, PipelineShaderDesc};
use crate::vk;

verus! {

/// A raster pipeline registered in a render graph.
pub struct RenderGraphRasterPipeline {
    pub desc: RasterPipelineDesc,
    pub stages: Vec<PipelineShaderDesc>,
}

/// A compute pipeline registered in a render graph.
pub struct RenderGraphComputePipeline {
    pub desc: ComputePipelineDesc,
}

/// A ray tracing pipeline registered in a render graph.
pub struct RenderGraphRayTracingPipeline {
    pub desc: RayTracingPipelineDesc,
    pub stages: Vec<PipelineShaderDesc>,
}

/// A render graph: the passes of a frame, in order, the resources they use, the resources
/// exported out of the frame with the access they must end in, and the pipelines they run.
pub struct RenderGraph {
    pub passes: Vec<Pass>,
    pub resources: Vec<GraphResource>,
    pub exported_resources: Vec<(ExportableGraphResource, AccessType)>,
    pub raster_pipelines: Vec<RenderGraphRasterPipeline>,
    pub compute_pipelines: Vec<RenderGraphComputePipeline>,
    pub ray_tracing_pipelines: Vec<RenderGraphRayTracingPipeline>,
}

/// Resources that can be imported into and exported out of a render graph.
pub trait RenderGraphImportExportResource: Resource + Sized {
    /// The graph resource that importing `resource` in `access` adds.
    spec fn spec_imported(resource: Arc<Self>, access: AccessType) -> GraphResource;

    /// The exportable resource that exporting `handle` records.
    spec fn spec_exportable(handle: Handle<Self>) -> ExportableGraphResource;

    /// Whether resources of this kind can be exported.
    spec fn spec_can_export() -> bool;

    /// The description of a resource.
    spec fn spec_desc(resource: Arc<Self>) -> <Self as Resource>::Desc;

    /// Adds `resource`, currently in `access`, to the graph.
    fn import(resource: Arc<Self>, render_graph: &mut RenderGraph, access: AccessType) -> (handle:
        Handle<Self>)
        requires
            old(render_graph).resources@.len() < u32::MAX,
        ensures
            handle.handle == (GraphResourceHandle {
                id: old(render_graph).resources@.len() as u32,
                generation: 0,
            }),
            handle.desc == Self::spec_desc(resource),
            final(render_graph).resources@ == old(render_graph).resources@.push(
                Self::spec_imported(resource, access),
            ),
            final(render_graph).passes == old(render_graph).passes,
            final(render_graph).exported_resources == old(render_graph).exported_resources,
            final(render_graph).raster_pipelines == old(render_graph).raster_pipelines,
            final(render_graph).compute_pipelines == old(render_graph).compute_pipelines,
            final(render_graph).ray_tracing_pipelines == old(render_graph).ray_tracing_pipelines,
    ;

    /// Records that the resource leaves the frame in `access`.
    fn export(handle: Handle<Self>, render_graph: &mut RenderGraph, access: AccessType) -> (exported:
        ExportedHandle<Self>)
        requires
            Self::spec_can_export(),
        ensures
            exported.handle == handle.handle,
            final(render_graph).exported_resources@ == old(render_graph).exported_resources@.push(
                (Self::spec_exportable(handle), access),
            ),
            final(render_graph).passes == old(render_graph).passes,
            final(render_graph).resources == old(render_graph).resources,
            final(render_graph).raster_pipelines == old(render_graph).raster_pipelines,
            final(render_graph).compute_pipelines == old(render_graph).compute_pipelines,
            final(render_graph).ray_tracing_pipelines == old(render_graph).ray_tracing_pipelines,
    ;
}

impl RenderGraphImportExportResource for Buffer {
    open spec fn spec_desc(resource: Arc<Self>) -> <Self as Resource>::Desc {
        resource.desc
    }

    open spec fn spec_imported(resource: Arc<Self>, access: AccessType) -> GraphResource {
        GraphResource::Imported(GraphResourceImportedData::Buffer { raw: resource, access })
    }

    open spec fn spec_exportable(handle: Handle<Self>) -> ExportableGraphResource {
        ExportableGraphResource::Buffer(handle)
    }

    open spec fn spec_can_export() -> bool {
        true
    }

    fn import(resource: Arc<Self>, render_graph: &mut RenderGraph, access: AccessType) -> (handle:
        Handle<Self>) {
        let handle = GraphResourceHandle { id: render_graph.resources.len() as u32, generation: 0 };
        let desc = resource.desc;
        render_graph.resources.push(GraphResource::import_buffer(resource, access));
        Handle { handle, desc, _marker: PhantomData }
    }

    fn export(handle: Handle<Self>, render_graph: &mut RenderGraph, access: AccessType) -> (exported:
        ExportedHandle<Self>) {
        let exported_handle = ExportedHandle { handle: handle.handle, _marker: PhantomData };
        render_graph.exported_resources.push((ExportableGraphResource::Buffer(handle), access));
        exported_handle
    }
}

impl RenderGraphImportExportResource for Image {
    open spec fn spec_desc(resource: Arc<Self>) -> <Self as Resource>::Desc {
        resource.desc
    }

    open spec fn spec_imported(resource: Arc<Self>, access: AccessType) -> GraphResource {
        GraphResource::Imported(GraphResourceImportedData::Image { raw: resource, access })
    }

    open spec fn spec_exportable(handle: Handle<Self>) -> ExportableGraphResource {
        ExportableGraphResource::Image(handle)
    }

    open spec fn spec_can_export() -> bool {
        true
    }

    fn import(resource: Arc<Self>, render_graph: &mut RenderGraph, access: AccessType) -> (handle:
        Handle<Self>) {
        let handle = GraphResourceHandle { id: render_graph.resources.len() as u32, generation: 0 };
        let desc = resource.desc;
        render_graph.resources.push(GraphResource::import_image(resource, access));
        Handle { handle, desc, _marker: PhantomData }
    }

    fn export(handle: Handle<Self>, render_graph: &mut RenderGraph, access: AccessType) -> (exported:
        ExportedHandle<Self>) {
        let exported_handle = ExportedHandle { handle: handle.handle, _marker: PhantomData };
        render_graph.exported_resources.push((ExportableGraphResource::Image(handle), access));
        exported_handle
    }
}

impl RenderGraphImportExportResource for RayTracingAccelerationStructure {
    open spec fn spec_desc(resource: Arc<Self>) -> <Self as Resource>::Desc {
        RayTracingAccelStructDesc
    }

    open spec fn spec_imported(resource: Arc<Self>, access: AccessType) -> GraphResource {
        GraphResource::Imported(
            GraphResourceImportedData::RayTracingAccelStruct { raw: resource, access },
        )
    }

    open spec fn spec_exportable(handle: Handle<Self>) -> ExportableGraphResource {
        ExportableGraphResource::RayTracingAccelStruct(handle)
    }

    /// Acceleration structures are never exported.
    open spec fn spec_can_export() -> bool {
        false
    }

    fn import(resource: Arc<Self>, render_graph: &mut RenderGraph, access: AccessType) -> (handle:
        Handle<Self>) {
        let handle = GraphResourceHandle { id: render_graph.resources.len() as u32, generation: 0 };
        render_graph.resources.push(GraphResource::import_ray_tracing_accel_struct(resource, access));
        Handle { handle, desc: RayTracingAccelStructDesc, _marker: PhantomData }
    }

    fn export(handle: Handle<Self>, render_graph: &mut RenderGraph, access: AccessType) -> (exported:
        ExportedHandle<Self>) {
        ExportedHandle { handle: handle.handle, _marker: PhantomData }
    }
}

/// The description the graph gives the swapchain image of the given size.
pub open spec fn spec_swapchain_image_desc(extent: [u32; 2]) -> ImageDesc {
    ImageDesc {
        extent: [extent[0], extent[1], 1],
        image_type: ImageType::Tex2d,
        usage: 0,
        flags: 0,
        format: vk::FORMAT_B8G8R8A8_UNORM,
        sample: vk::SAMPLE_COUNT_1,
        tiling: vk::IMAGE_TILING_OPTIMAL,
        array_elements: 1,
        mip_levels: 1,
    }
}

impl RenderGraph {
    /// An empty render graph.
    pub fn new() -> (rg: Self)
        ensures
            rg.passes@.len() == 0,
            rg.resources@.len() == 0,
            rg.exported_resources@.len() == 0,
            rg.raster_pipelines@.len() == 0,
            rg.compute_pipelines@.len() == 0,
            rg.ray_tracing_pipelines@.len() == 0,
    {
        Self {
            passes: Vec::new(),
            resources: Vec::new(),
            exported_resources: Vec::new(),
            raster_pipelines: Vec::new(),
            compute_pipelines: Vec::new(),
            ray_tracing_pipelines: Vec::new(),
        }
    }

    /// Starts building a new pass; it takes the next pass slot when it is finished.
    pub fn add_pass(&mut self, name: &str) -> (builder: PassBuilder)
        ensures
            builder.pass.id == old(self).passes@.len(),
            builder.pass.name@ == name@,
            builder.pass.inputs@.len() == 0,
            builder.pass.outputs@.len() == 0,
            *final(self) == *old(self),
    {
        let curr_pass_idx = self.passes.len();
        PassBuilder { pass: Pass::new_empty(curr_pass_idx, name.to_string()) }
    }

    /// Appends a built pass.
    pub fn finish_add_pass(&mut self, pass: Pass)
        ensures
            final(self).passes@ == old(self).passes@.push(pass),
            final(self).resources == old(self).resources,
            final(self).exported_resources == old(self).exported_resources,
            final(self).raster_pipelines == old(self).raster_pipelines,
            final(self).compute_pipelines == old(self).compute_pipelines,
            final(self).ray_tracing_pipelines == old(self).ray_tracing_pipelines,
    {
        self.passes.push(pass);
    }

    /// Adds a resource the graph will create from `desc`.
    pub fn new_resource<Desc: ResourceDesc>(&mut self, desc: Desc) -> (handle: Handle<
        <Desc as ResourceDesc>::Resource,
    >) where
        Desc: TypeEqualTo<Other = <<Desc as ResourceDesc>::Resource as Resource>::Desc>,

        requires
            old(self).resources@.len() < u32::MAX,
        ensures
            handle.handle == (GraphResourceHandle { id: old(self).resources@.len() as u32, generation: 0 }),
            handle.desc == Desc::spec_same(desc),
            final(self).resources@.len() == old(self).resources@.len() + 1,
            final(self).resources@[old(self).resources@.len() as int] == GraphResource::Created(
                GraphResourceCreatedData { desc: desc.spec_graph_desc() },
            ),
            forall|i: int|
                0 <= i < old(self).resources@.len() ==> final(self).resources@[i] == old(
                    self,
                ).resources@[i],
            final(self).passes == old(self).passes,
            final(self).exported_resources == old(self).exported_resources,
    {
        let handle = self.new_raw_resource(desc);
        Handle { handle, desc: TypeEqualTo::same(desc), _marker: PhantomData }
    }

    /// Adds a resource the graph will create from `desc`, and returns its raw handle.
    pub fn new_raw_resource<Desc: ResourceDesc>(&mut self, desc: Desc) -> (handle: GraphResourceHandle)
        requires
            old(self).resources@.len() < u32::MAX,
        ensures
            handle == (GraphResourceHandle { id: old(self).resources@.len() as u32, generation: 0 }),
            final(self).resources@.len() == old(self).resources@.len() + 1,
            final(self).resources@[old(self).resources@.len() as int] == GraphResource::Created(
                GraphResourceCreatedData { desc: desc.spec_graph_desc() },
            ),
            forall|i: int|
                0 <= i < old(self).resources@.len() ==> final(self).resources@[i] == old(
                    self,
                ).resources@[i],
            final(self).passes == old(self).passes,
            final(self).exported_resources == old(self).exported_resources,
    {
        let handle = GraphResourceHandle { id: self.resources.len() as u32, generation: 0 };
        self.resources.push(GraphResource::create(desc));
        handle
    }

    /// Imports an outside resource, currently in `access`.
    pub fn import<ResourceType: RenderGraphImportExportResource>(
        &mut self,
        resource: Arc<ResourceType>,
        access: AccessType,
    ) -> (handle: Handle<ResourceType>)
        requires
            old(self).resources@.len() < u32::MAX,
        ensures
            handle.handle == (GraphResourceHandle { id: old(self).resources@.len() as u32, generation: 0 }),
            handle.desc == ResourceType::spec_desc(resource),
            final(self).resources@ == old(self).resources@.push(
                ResourceType::spec_imported(resource, access),
            ),
            final(self).passes == old(self).passes,
            final(self).exported_resources == old(self).exported_resources,
            final(self).raster_pipelines == old(self).raster_pipelines,
            final(self).compute_pipelines == old(self).compute_pipelines,
            final(self).ray_tracing_pipelines == old(self).ray_tracing_pipelines,
    {
        ResourceType::import(resource, self, access)
    }

    /// Exports a resource: at the end of the frame it is left in `access`
    /// (`AccessType::Nothing` leaves it as the last pass did).
    pub fn export<ResourceType: RenderGraphImportExportResource>(
        &mut self,
        handle: Handle<ResourceType>,
        access: AccessType,
    ) -> (exported: ExportedHandle<ResourceType>)
        requires
            ResourceType::spec_can_export(),
        ensures
            exported.handle == handle.handle,
            final(self).exported_resources@ == old(self).exported_resources@.push(
                (ResourceType::spec_exportable(handle), access),
            ),
            final(self).passes == old(self).passes,
            final(self).resources == old(self).resources,
            final(self).raster_pipelines == old(self).raster_pipelines,
            final(self).compute_pipelines == old(self).compute_pipelines,
            final(self).ray_tracing_pipelines == old(self).ray_tracing_pipelines,
    {
        ResourceType::export(handle, self, access)
    }

    /// Adds the swapchain image of the given size; the image itself is only acquired
    /// when the frame is presented.
    pub fn get_swapchain(&mut self, extent: [u32; 2]) -> (handle: Handle<Image>)
        requires
            old(self).resources@.len() < u32::MAX,
        ensures
            handle.handle == (GraphResourceHandle { id: old(self).resources@.len() as u32, generation: 0 }),
            handle.desc == spec_swapchain_image_desc(extent),
            final(self).resources@ == old(self).resources@.push(
                GraphResource::Imported(GraphResourceImportedData::SwapchainImage),
            ),
            final(self).passes == old(self).passes,
            final(self).exported_resources == old(self).exported_resources,
    {
        let handle = GraphResourceHandle { id: self.resources.len() as u32, generation: 0 };
        self.resources.push(GraphResource::Imported(GraphResourceImportedData::SwapchainImage));
        Handle {
            handle,
            desc: ImageDesc {
                extent: [extent[0], extent[1], 1],
                image_type: ImageType::Tex2d,
                usage: 0,
                flags: 0,
                format: vk::FORMAT_B8G8R8A8_UNORM,
                sample: vk::SAMPLE_COUNT_1,
                tiling: vk::IMAGE_TILING_OPTIMAL,
                array_elements: 1,
                mip_levels: 1,
            },
            _marker: PhantomData,
        }
    }
}

/// How a resource will be used over the frame, as the usage flags it must be created with.
#[derive(Clone, Copy, Debug, PartialEq, Eq, Structural)]
pub enum ResourceUsage {
    Empty,
    /// `VkImageUsageFlags` bits.
    Image(u32),
    /// `VkBufferUsageFlags` bits.
    Buffer(u32),
    RayTracingAccelStruct,
}

impl Default for ResourceUsage {
    fn default() -> (usage: Self)
        ensures
            usage == ResourceUsage::Empty,
    {
        ResourceUsage::Empty
    }
}

/// The last pass that accesses a resource.
#[derive(Clone, Copy, Debug, PartialEq, Eq, Structural)]
pub struct ResourceLifetime {
    pub last_access: Option<usize>,
}

/// What the analysis of a render graph finds out about each of its resources.
pub struct AnalyzedResourceInfos {
    pub lifetimes: Vec<ResourceLifetime>,
    pub resource_usages: Vec<ResourceUsage>,
}

/// The image usage an access mask requires; `None` for masks no image access has.
pub open spec fn spec_image_usage_of_access_mask(mask: u32) -> Option<u32> {
    if mask == vk::ACCESS_SHADER_READ {
        Some(vk::IMAGE_USAGE_SAMPLED)
    } else if mask == vk::ACCESS_SHADER_WRITE {
        Some(vk::IMAGE_USAGE_STORAGE)
    } else if mask == vk::ACCESS_COLOR_ATTACHMENT_READ {
        Some(vk::IMAGE_USAGE_COLOR_ATTACHMENT)
    } else if mask == vk::ACCESS_COLOR_ATTACHMENT_WRITE {
        Some(vk::IMAGE_USAGE_COLOR_ATTACHMENT)
    } else if mask == vk::ACCESS_DEPTH_STENCIL_ATTACHMENT_READ {
        Some(vk::IMAGE_USAGE_DEPTH_STENCIL_ATTACHMENT)
    } else if mask == vk::ACCESS_DEPTH_STENCIL_ATTACHMENT_WRITE {
        Some(vk::IMAGE_USAGE_DEPTH_STENCIL_ATTACHMENT)
    } else if mask == vk::ACCESS_TRANSFER_READ {
        Some(vk::IMAGE_USAGE_TRANSFER_SRC)
    } else if mask == vk::ACCESS_TRANSFER_WRITE {
        Some(vk::IMAGE_USAGE_TRANSFER_DST)
    } else if mask == vk::ACCESS_MEMORY_READ_WRITE {
        Some(vk::IMAGE_USAGE_STORAGE)
    } else if mask == vk::ACCESS_DEPTH_STENCIL_ATTACHMENT_READ_WRITE {
        Some(vk::IMAGE_USAGE_DEPTH_STENCIL_ATTACHMENT)
    } else {
        None
    }
}

/// The image usage flags an image accessed with `access_mask` must be created with.
pub fn image_access_mask_to_usage_flags(access_mask: u32) -> (usage: u32)
    requires
        spec_image_usage_of_access_mask(access_mask) is Some,
    ensures
        spec_image_usage_of_access_mask(access_mask) == Some(usage),
{
    if access_mask == vk::ACCESS_SHADER_READ {
        vk::IMAGE_USAGE_SAMPLED
    } else if access_mask == vk::ACCESS_SHADER_WRITE {
        vk::IMAGE_USAGE_STORAGE
    } else if access_mask == vk::ACCESS_COLOR_ATTACHMENT_READ {
        vk::IMAGE_USAGE_COLOR_ATTACHMENT
    } else if access_mask == vk::ACCESS_COLOR_ATTACHMENT_WRITE {
        vk::IMAGE_USAGE_COLOR_ATTACHMENT
    } else if access_mask == vk::ACCESS_DEPTH_STENCIL_ATTACHMENT_READ {
        vk::IMAGE_USAGE_DEPTH_STENCIL_ATTACHMENT
    } else if access_mask == vk::ACCESS_DEPTH_STENCIL_ATTACHMENT_WRITE {
        vk::IMAGE_USAGE_DEPTH_STENCIL_ATTACHMENT
    } else if access_mask == vk::ACCESS_TRANSFER_READ {
        vk::IMAGE_USAGE_TRANSFER_SRC
    } else if access_mask == vk::ACCESS_TRANSFER_WRITE {
        vk::IMAGE_USAGE_TRANSFER_DST
    } else if access_mask == vk::ACCESS_MEMORY_READ_WRITE {
        vk::IMAGE_USAGE_STORAGE
    } else {
        vk::IMAGE_USAGE_DEPTH_STENCIL_ATTACHMENT
    }
}

/// The buffer usage an access mask requires; `None` for masks no buffer access has.
pub open spec fn spec_buffer_usage_of_access_mask(mask: u32) -> Option<u32> {
    if mask == vk::ACCESS_INDIRECT_COMMAND_READ {
        Some(vk::BUFFER_USAGE_INDIRECT_BUFFER)
    } else if mask == vk::ACCESS_INDEX_READ {
        Some(vk::BUFFER_USAGE_INDEX_BUFFER)
    } else if mask == vk::ACCESS_VERTEX_ATTRIBUTE_READ {
        Some(vk::BUFFER_USAGE_UNIFORM_TEXEL_BUFFER)
    } else if mask == vk::ACCESS_UNIFORM_READ {
        Some(vk::BUFFER_USAGE_UNIFORM_BUFFER)
    } else if mask == vk::ACCESS_SHADER_READ {
        Some(vk::BUFFER_USAGE_UNIFORM_TEXEL_BUFFER)
    } else if mask == vk::ACCESS_SHADER_WRITE {
        Some(vk::BUFFER_USAGE_STORAGE_BUFFER)
    } else if mask == vk::ACCESS_TRANSFER_READ {
        Some(vk::BUFFER_USAGE_TRANSFER_SRC)
    } else if mask == vk::ACCESS_TRANSFER_WRITE {
        Some(vk::BUFFER_USAGE_TRANSFER_DST)
    } else if mask == vk::ACCESS_MEMORY_READ_WRITE {
        Some(vk::BUFFER_USAGE_STORAGE_BUFFER)
    } else {
        None
    }
}

/// The buffer usage flags a buffer accessed with `access_mask` must be created with.
pub fn buffer_access_mask_to_usage_flags(access_mask: u32) -> (usage: u32)
    requires
        spec_buffer_usage_of_access_mask(access_mask) is Some,
    ensures
        spec_buffer_usage_of_access_mask(access_mask) == Some(usage),
{
    if access_mask == vk::ACCESS_INDIRECT_COMMAND_READ {
        vk::BUFFER_USAGE_INDIRECT_BUFFER
    } else if access_mask == vk::ACCESS_INDEX_READ {
        vk::BUFFER_USAGE_INDEX_BUFFER
    } else if access_mask == vk::ACCESS_VERTEX_ATTRIBUTE_READ {
        vk::BUFFER_USAGE_UNIFORM_TEXEL_BUFFER
    } else if access_mask == vk::ACCESS_UNIFORM_READ {
        vk::BUFFER_USAGE_UNIFORM_BUFFER
    } else if access_mask == vk::ACCESS_SHADER_READ {
        vk::BUFFER_USAGE_UNIFORM_TEXEL_BUFFER
    } else if access_mask == vk::ACCESS_SHADER_WRITE {
        vk::BUFFER_USAGE_STORAGE_BUFFER
    } else if access_mask == vk::ACCESS_TRANSFER_READ {
        vk::BUFFER_USAGE_TRANSFER_SRC
    } else if access_mask == vk::ACCESS_TRANSFER_WRITE {
        vk::BUFFER_USAGE_TRANSFER_DST
    } else {
        vk::BUFFER_USAGE_STORAGE_BUFFER
    }
}

/// The memory access mask of an access type.
pub open spec fn spec_mask(access: AccessType) -> u32 {
    spec_access_info(access).access_mask
}

/// Whether the resource is an image the graph creates.
pub open spec fn spec_is_created_image(res: GraphResource) -> bool {
    res matches GraphResource::Created(GraphResourceCreatedData { desc: GraphResourceDesc::Image(_) })
}

/// Whether the resource is a buffer the graph creates.
pub open spec fn spec_is_created_buffer(res: GraphResource) -> bool {
    res matches GraphResource::Created(GraphResourceCreatedData { desc: GraphResourceDesc::Buffer(_) })
}

/// Whether the resource is an acceleration structure the graph would have to create.
pub open spec fn spec_is_created_accel_struct(res: GraphResource) -> bool {
    res matches GraphResource::Created(
        GraphResourceCreatedData { desc: GraphResourceDesc::RayTracingAccelStruct(_) },
    )
}

/// Whether the resource is the swapchain image.
pub open spec fn spec_is_swapchain(res: GraphResource) -> bool {
    res matches GraphResource::Imported(GraphResourceImportedData::SwapchainImage)
}

/// Usage of a resource before any pass accesses it: created images and buffers start with the
/// usage their description asks for, the swapchain image with none, imported resources empty.
pub open spec fn spec_initial_usage(res: GraphResource) -> ResourceUsage {
    match res {
        GraphResource::Created(c) => match c.desc {
            GraphResourceDesc::Image(d) => ResourceUsage::Image(d.usage),
            GraphResourceDesc::Buffer(d) => ResourceUsage::Buffer(d.usage),
            GraphResourceDesc::RayTracingAccelStruct(_) => ResourceUsage::Empty,
        },
        GraphResource::Imported(GraphResourceImportedData::SwapchainImage) => ResourceUsage::Image(0),
        GraphResource::Imported(_) => ResourceUsage::Empty,
    }
}

/// Last access of a resource before any pass: none for created resources, the first pass for
/// imported ones.
pub open spec fn spec_initial_last_access(res: GraphResource) -> Option<usize> {
    match res {
        GraphResource::Created(_) => None,
        GraphResource::Imported(_) => Some(0),
    }
}

/// Whether a pass can access the resource with `access`: images need an access mask that maps to
/// an image usage, buffers one that maps to a buffer usage.
pub open spec fn spec_pass_access_valid(res: GraphResource, access: AccessType) -> bool {
    match res {
        GraphResource::Created(c) => match c.desc {
            GraphResourceDesc::Image(_) => spec_image_usage_of_access_mask(spec_mask(access)) is Some,
            GraphResourceDesc::Buffer(_) => spec_buffer_usage_of_access_mask(spec_mask(access)) is Some,
            GraphResourceDesc::RayTracingAccelStruct(_) => true,
        },
        GraphResource::Imported(i) => match i {
            GraphResourceImportedData::Image { .. } => spec_image_usage_of_access_mask(
                spec_mask(access),
            ) is Some,
            GraphResourceImportedData::SwapchainImage => spec_image_usage_of_access_mask(
                spec_mask(access),
            ) is Some,
            GraphResourceImportedData::Buffer { .. } => spec_buffer_usage_of_access_mask(
                spec_mask(access),
            ) is Some,
            GraphResourceImportedData::RayTracingAccelStruct { .. } => true,
        },
    }
}

/// The usage of a resource after a pass accesses it with `access`.
/// Created images, the swapchain image and created buffers gather the usage of every access;
/// an imported image or buffer keeps its own usage and that of the latest access only.
pub open spec fn spec_usage_step(res: GraphResource, usage: ResourceUsage, access: AccessType) -> ResourceUsage {
    let mask = spec_mask(access);
    match res {
        GraphResource::Created(c) => match c.desc {
            GraphResourceDesc::Image(_) => match usage {
                ResourceUsage::Image(u) => ResourceUsage::Image(
                    u | spec_image_usage_of_access_mask(mask)->0,
                ),
                _ => usage,
            },
            GraphResourceDesc::Buffer(_) => match usage {
                ResourceUsage::Buffer(u) => ResourceUsage::Buffer(
                    u | spec_buffer_usage_of_access_mask(mask)->0,
                ),
                _ => usage,
            },
            GraphResourceDesc::RayTracingAccelStruct(_) => usage,
        },
        GraphResource::Imported(i) => match i {
            GraphResourceImportedData::Image { raw, .. } => ResourceUsage::Image(
                spec_image_usage_of_access_mask(mask)->0 | raw.desc.usage,
            ),
            GraphResourceImportedData::SwapchainImage => match usage {
                ResourceUsage::Image(u) => ResourceUsage::Image(
                    u | spec_image_usage_of_access_mask(mask)->0,
                ),
                _ => usage,
            },
            GraphResourceImportedData::Buffer { raw, .. } => ResourceUsage::Buffer(
                spec_buffer_usage_of_access_mask(mask)->0 | raw.desc.usage,
            ),
            GraphResourceImportedData::RayTracingAccelStruct { .. } => usage,
        },
    }
}

/// The usage of resource `id` after the pass accesses `refs`, in order.
pub open spec fn spec_usage_after_refs(
    resources: Seq<GraphResource>,
    id: int,
    refs: Seq<PassResourceHandle>,
) -> ResourceUsage
    decreases refs.len(),
{
    if refs.len() == 0 {
        spec_initial_usage(resources[id])
    } else {
        let prev = spec_usage_after_refs(resources, id, refs.drop_last());
        let r = refs.last();
        if r.handle.id == id {
            spec_usage_step(resources[id], prev, r.access.access_type)
        } else {
            prev
        }
    }
}

/// All resource accesses of the first `n` passes, pass after pass.
pub open spec fn spec_refs_upto(passes: Seq<Pass>, n: int) -> Seq<PassResourceHandle>
    decreases n,
{
    if n <= 0 {
        Seq::empty()
    } else {
        spec_refs_upto(passes, n - 1) + passes[n - 1].refs()
    }
}

/// The usage of a resource after it is exported in `access`: an exported image or buffer also
/// gets the usage of its final access.
pub open spec fn spec_export_usage_step(
    res: ExportableGraphResource,
    usage: ResourceUsage,
    access: AccessType,
) -> ResourceUsage {
    if access == AccessType::Nothing {
        usage
    } else {
        let mask = spec_mask(access);
        match res {
            ExportableGraphResource::Image(_) => match usage {
                ResourceUsage::Image(u) => ResourceUsage::Image(
                    u | spec_image_usage_of_access_mask(mask)->0,
                ),
                _ => usage,
            },
            ExportableGraphResource::Buffer(_) => match usage {
                ResourceUsage::Buffer(u) => ResourceUsage::Buffer(
                    u | spec_buffer_usage_of_access_mask(mask)->0,
                ),
                _ => usage,
            },
            ExportableGraphResource::RayTracingAccelStruct(_) => usage,
        }
    }
}

/// The usage of resource `id`, starting from `base`, after the given exports.
pub open spec fn spec_usage_after_exports(
    base: ResourceUsage,
    id: int,
    exports: Seq<(ExportableGraphResource, AccessType)>,
) -> ResourceUsage
    decreases exports.len(),
{
    if exports.len() == 0 {
        base
    } else {
        let prev = spec_usage_after_exports(base, id, exports.drop_last());
        let e = exports.last();
        if e.0.spec_handle().id == id {
            spec_export_usage_step(e.0, prev, e.1)
        } else {
            prev
        }
    }
}

/// Whether the pass accesses resource `id`.
pub open spec fn spec_pass_touches(pass: Pass, id: int) -> bool {
    exists|k: int| 0 <= k < pass.refs().len() && pass.refs()[k].handle.id == id
}

/// The last of the first `n` passes that accesses resource `id`, or `init` if none does.
pub open spec fn spec_last_access_after_passes(
    passes: Seq<Pass>,
    n: int,
    id: int,
    init: Option<usize>,
) -> Option<usize>
    decreases n,
{
    if n <= 0 {
        init
    } else if spec_pass_touches(passes[n - 1], id) {
        Some((n - 1) as usize)
    } else {
        spec_last_access_after_passes(passes, n - 1, id, init)
    }
}

/// The last access of resource `id`, from `base`, after the given exports: an exported resource
/// lives until the last pass.
pub open spec fn spec_last_access_after_exports(
    base: Option<usize>,
    id: int,
    exports: Seq<(ExportableGraphResource, AccessType)>,
    last_pass: usize,
) -> Option<usize>
    decreases exports.len(),
{
    if exports.len() == 0 {
        base
    } else if exports.last().0.spec_handle().id == id {
        Some(last_pass)
    } else {
        spec_last_access_after_exports(base, id, exports.drop_last(), last_pass)
    }
}

/// `a - b`, or zero if that is negative.
pub open spec fn spec_saturating_sub(a: usize, b: usize) -> usize {
    if a >= b { (a - b) as usize } else { 0 }
}

impl RenderGraph {
    /// Every resource access of every pass, pass after pass.
    pub open spec fn spec_refs(&self) -> Seq<PassResourceHandle> {
        spec_refs_upto(self.passes@, self.passes@.len() as int)
    }

    /// The usage of resource `id` after all passes.
    pub open spec fn spec_pass_usage(&self, id: int) -> ResourceUsage {
        spec_usage_after_refs(self.resources@, id, self.spec_refs())
    }

    /// The usage resource `id` must be created with: that of all its accesses in passes and
    /// of its final access when exported.
    pub open spec fn spec_resource_usage(&self, id: int) -> ResourceUsage {
        spec_usage_after_exports(self.spec_pass_usage(id), id, self.exported_resources@)
    }

    /// The last pass that uses resource `id`.
    pub open spec fn spec_last_access(&self, id: int) -> Option<usize> {
        spec_last_access_after_exports(
            spec_last_access_after_passes(
                self.passes@,
                self.passes@.len() as int,
                id,
                spec_initial_last_access(self.resources@[id]),
            ),
            id,
            self.exported_resources@,
            spec_saturating_sub(self.passes@.len() as usize, 1),
        )
    }

    /// Whether an export is possible: the final access of an exported image must be an image
    /// access of an image the passes use, and likewise for buffers.
    pub open spec fn spec_export_valid(&self, e: (ExportableGraphResource, AccessType)) -> bool {
        e.1 == AccessType::Nothing || match e.0 {
            ExportableGraphResource::Image(h) => self.spec_pass_usage(h.handle.id as int) is Image
                && spec_image_usage_of_access_mask(spec_mask(e.1)) is Some,
            ExportableGraphResource::Buffer(h) => self.spec_pass_usage(h.handle.id as int) is Buffer
                && spec_buffer_usage_of_access_mask(spec_mask(e.1)) is Some,
            ExportableGraphResource::RayTracingAccelStruct(_) => true,
        }
    }

    /// Whether the resource usage of the graph can be analyzed: every handle refers to a resource
    /// of the graph, no acceleration structure is to be created, and every access agrees with the
    /// kind of its resource.
    pub open spec fn spec_analyzable(&self) -> bool {
        &&& forall|p: int| 0 <= p < self.passes@.len() ==> #[trigger] self.passes@[p].refs().len() <= usize::MAX
        &&& forall|i: int|
            0 <= i < self.resources@.len() ==> !spec_is_created_accel_struct(#[trigger] self.resources@[i])
        &&& forall|p: int, k: int|
            0 <= p < self.passes@.len() && 0 <= k < self.passes@[p].refs().len() ==> {
                let r = #[trigger] self.passes@[p].refs()[k];
                &&& r.handle.id < self.resources@.len()
                &&& spec_pass_access_valid(self.resources@[r.handle.id as int], r.access.access_type)
            }
        &&& forall|k: int|
            0 <= k < self.exported_resources@.len() ==> {
                let e = #[trigger] self.exported_resources@[k];
                &&& e.0.spec_handle().id < self.resources@.len()
                &&& self.spec_export_valid(e)
            }
    }
}

proof fn lemma_created_buffer_usage_is_buffer(
    resources: Seq<GraphResource>,
    id: int,
    refs: Seq<PassResourceHandle>,
)
    requires
        0 <= id < resources.len(),
        spec_is_created_buffer(resources[id]),
    ensures
        spec_usage_after_refs(resources, id, refs) is Buffer,
    decreases refs.len(),
{
    if refs.len() > 0 {
        lemma_created_buffer_usage_is_buffer(resources, id, refs.drop_last());
    }
}

proof fn lemma_created_image_usage_is_image(
    resources: Seq<GraphResource>,
    id: int,
    refs: Seq<PassResourceHandle>,
)
    requires
        0 <= id < resources.len(),
        spec_is_created_image(resources[id]),
    ensures
        spec_usage_after_refs(resources, id, refs) is Image,
    decreases refs.len(),
{
    if refs.len() > 0 {
        lemma_created_image_usage_is_image(resources, id, refs.drop_last());
    }
}

/// Whether every graph raster pipeline's handle names a cache pipeline with its shader stages.
pub open spec fn spec_raster_handles_match(
    graph: Seq<RenderGraphRasterPipeline>,
    handles: Seq<RasterPipelineHandle>,
    cache: Seq<PipelineEntry<RasterPipelineDesc, RasterPipeline>>,
) -> bool {
    &&& handles.len() == graph.len()
    &&& forall|i: int|
        0 <= i < handles.len() ==> (#[trigger] handles[i]).0 < cache.len() && spec_shader_views(
            cache[handles[i].0 as int].shaders@,
        ) == spec_shader_views(graph[i].stages@)
}

/// Whether every graph compute pipeline's handle names a cache pipeline with its shader source.
pub open spec fn spec_compute_handles_match(
    graph: Seq<RenderGraphComputePipeline>,
    handles: Seq<ComputePipelineHandle>,
    cache: Seq<PipelineEntry<ComputePipelineDesc, ComputePipeline>>,
) -> bool {
    &&& handles.len() == graph.len()
    &&& forall|i: int|
        0 <= i < handles.len() ==> (#[trigger] handles[i]).0 < cache.len() && spec_source_view(
            cache[handles[i].0 as int].desc.source,
        ) == spec_source_view(graph[i].desc.source)
}

/// Whether every graph ray tracing pipeline's handle names a cache pipeline with its shader
/// stages.
pub open spec fn spec_ray_tracing_handles_match(
    graph: Seq<RenderGraphRayTracingPipeline>,
    handles: Seq<RayTracingPipelineHandle>,
    cache: Seq<PipelineEntry<RayTracingPipelineDesc, RayTracingPipeline>>,
) -> bool {
    &&& handles.len() == graph.len()
    &&& forall|i: int|
        0 <= i < handles.len() ==> (#[trigger] handles[i]).0 < cache.len() && spec_shader_views(
            cache[handles[i].0 as int].shaders@,
        ) == spec_shader_views(graph[i].stages@)
}

/// Whether `b` holds every pipeline `a` holds, at the same place.
pub open spec fn spec_grown<D, P>(a: Seq<PipelineEntry<D, P>>, b: Seq<PipelineEntry<D, P>>) -> bool {
    &&& a.len() <= b.len()
    &&& forall|j: int| 0 <= j < a.len() ==> #[trigger] b[j] == a[j]
}

impl RenderGraph {
    /// Compiles the graph: analyzes its resources and registers its pipelines in the cache, each
    /// under the handle of the cache pipeline with the same shaders.
    pub fn compile(self, pipeline_cache: &mut PipelineCache) -> (compiled: CompiledRenderGraph)
        requires
            self.spec_analyzable(),
            old(pipeline_cache).spec_wf(),
            forall|i: int|
                0 <= i < self.compute_pipelines@.len() ==> (#[trigger] self.compute_pipelines@[i]).desc.source is Hlsl,
        ensures
            compiled.spec_wf(),
            compiled.render_graph.passes == self.passes,
            compiled.render_graph.resources == self.resources,
            compiled.render_graph.exported_resources == self.exported_resources,
            compiled.resource_infos.lifetimes@.len() == self.resources@.len(),
            compiled.resource_infos.resource_usages@.len() == self.resources@.len(),
            forall|i: int|
                0 <= i < self.resources@.len() ==> #[trigger] compiled.resource_infos.lifetimes@[i].last_access
                    == self.spec_last_access(i),
            forall|i: int|
                0 <= i < self.resources@.len() ==> #[trigger] compiled.resource_infos.resource_usages@[i]
                    == self.spec_resource_usage(i),
            final(pipeline_cache).spec_wf(),
            spec_raster_handles_match(
                self.raster_pipelines@,
                compiled.pipelines.raster_pipeline_handles@,
                final(pipeline_cache).raster_entries@,
            ),
            spec_compute_handles_match(
                self.compute_pipelines@,
                compiled.pipelines.compute_pipeline_handles@,
                final(pipeline_cache).compute_entries@,
            ),
            spec_ray_tracing_handles_match(
                self.ray_tracing_pipelines@,
                compiled.pipelines.ray_tracing_pipeline_handles@,
                final(pipeline_cache).ray_tracing_entries@,
            ),
            spec_grown(old(pipeline_cache).raster_entries@, final(pipeline_cache).raster_entries@),
            spec_grown(old(pipeline_cache).compute_entries@, final(pipeline_cache).compute_entries@),
            spec_grown(old(pipeline_cache).ray_tracing_entries@, final(pipeline_cache).ray_tracing_entries@),
            final(pipeline_cache).defer_release_pipelines == old(pipeline_cache).defer_release_pipelines,
    {
        let resource_infos = self.analyze_resources();
        proof {
            assert forall|i: int| 0 <= i < self.resources@.len() implies {
                let res = #[trigger] self.resources@[i];
                res matches GraphResource::Created(c) ==> match c.desc {
                    GraphResourceDesc::Image(_) => resource_infos.resource_usages@[i] is Image,
                    GraphResourceDesc::Buffer(_) => resource_infos.resource_usages@[i] is Buffer,
                    GraphResourceDesc::RayTracingAccelStruct(_) => false,
                }
            } by {
                let res = self.resources@[i];
                assert(!spec_is_created_accel_struct(res));
                if spec_is_created_image(res) {
                    lemma_created_image_usage_is_image(self.resources@, i, self.spec_refs());
                    lemma_export_usage_keeps_kind(self.spec_pass_usage(i), i, self.exported_resources@);
                }
                if spec_is_created_buffer(res) {
                    lemma_created_buffer_usage_is_buffer(self.resources@, i, self.spec_refs());
                    lemma_export_usage_keeps_kind(self.spec_pass_usage(i), i, self.exported_resources@);
                }
            }
        }
        let ghost graph = self;
        let mut rg = self;
        let mut raster: Vec<RenderGraphRasterPipeline> = Vec::new();
        let mut compute: Vec<RenderGraphComputePipeline> = Vec::new();
        let mut ray_tracing: Vec<RenderGraphRayTracingPipeline> = Vec::new();
        std::mem::swap(&mut raster, &mut rg.raster_pipelines);
        std::mem::swap(&mut compute, &mut rg.compute_pipelines);
        std::mem::swap(&mut ray_tracing, &mut rg.ray_tracing_pipelines);

        // raster pipelines
        let ghost all = raster@;
        let ghost cache0 = pipeline_cache.raster_entries@;
        let n = raster.len();
        let mut raster_pipeline_handles: Vec<RasterPipelineHandle> = Vec::new();
        let mut k: usize = 0;
        while k < n
            invariant
                n == all.len(),
                k <= n,
                raster@ == all.skip(k as int),
                pipeline_cache.spec_wf(),
                spec_raster_handles_match(all.take(k as int), raster_pipeline_handles@, pipeline_cache.raster_entries@),
                spec_grown(cache0, pipeline_cache.raster_entries@),
                pipeline_cache.compute_entries == old(pipeline_cache).compute_entries,
                pipeline_cache.ray_tracing_entries == old(pipeline_cache).ray_tracing_entries,
                pipeline_cache.defer_release_pipelines == old(pipeline_cache).defer_release_pipelines,
            decreases n - k,
        {
            let p = raster.remove(0);
            proof {
                assert(all.skip(k as int)[0] == all[k as int]);
                assert(all.skip(k as int).remove(0) =~= all.skip(k + 1));
            }
            let ghost before = pipeline_cache.raster_entries@;
            let h = pipeline_cache.register_raster_pipeline(p.stages, p.desc);
            raster_pipeline_handles.push(h);
            proof {
                let t = all.take(k + 1);
                let e = pipeline_cache.raster_entries@;
                assert forall|i: int| 0 <= i < raster_pipeline_handles@.len() implies (
                #[trigger] raster_pipeline_handles@[i]).0 < e.len() && spec_shader_views(
                    e[raster_pipeline_handles@[i].0 as int].shaders@,
                ) == spec_shader_views(t[i].stages@) by {
                    assert(t[i] == all[i]);
                    if i < k {
                        assert(all.take(k as int)[i] == all[i]);
                        assert(e[raster_pipeline_handles@[i].0 as int] == before[raster_pipeline_handles@[i].0 as int]);
                    }
                }
                assert forall|j: int| 0 <= j < cache0.len() implies #[trigger] e[j] == cache0[j] by {
                    assert(e[j] == before[j]);
                }
            }
            k = k + 1;
        }
        proof {
            assert(all.take(n as int) =~= all);
        }

        // compute pipelines
        let ghost call = compute@;
        let ghost ccache0 = pipeline_cache.compute_entries@;
        let cn = compute.len();
        let mut compute_pipeline_handles: Vec<ComputePipelineHandle> = Vec::new();
        let mut k: usize = 0;
        while k < cn
            invariant
                cn == call.len(),
                k <= cn,
                compute@ == call.skip(k as int),
                forall|i: int| 0 <= i < cn ==> (#[trigger] call[i]).desc.source is Hlsl,
                pipeline_cache.spec_wf(),
                spec_compute_handles_match(call.take(k as int), compute_pipeline_handles@, pipeline_cache.compute_entries@),
                spec_grown(ccache0, pipeline_cache.compute_entries@),
                spec_raster_handles_match(all, raster_pipeline_handles@, pipeline_cache.raster_entries@),
                spec_grown(cache0, pipeline_cache.raster_entries@),
                pipeline_cache.ray_tracing_entries == old(pipeline_cache).ray_tracing_entries,
                pipeline_cache.defer_release_pipelines == old(pipeline_cache).defer_release_pipelines,
            decreases cn - k,
        {
            let p = compute.remove(0);
            proof {
                assert(call.skip(k as int)[0] == call[k as int]);
                assert(call.skip(k as int).remove(0) =~= call.skip(k + 1));
            }
            let ghost before = pipeline_cache.compute_entries@;
            let h = pipeline_cache.register_compute_pipeline(p.desc);
            compute_pipeline_handles.push(h);
            proof {
                let t = call.take(k + 1);
                let e = pipeline_cache.compute_entries@;
                assert forall|i: int| 0 <= i < compute_pipeline_handles@.len() implies (
                #[trigger] compute_pipeline_handles@[i]).0 < e.len() && spec_source_view(
                    e[compute_pipeline_handles@[i].0 as int].desc.source,
                ) == spec_source_view(t[i].desc.source) by {
                    assert(t[i] == call[i]);
                    if i < k {
                        assert(call.take(k as int)[i] == call[i]);
                        assert(e[compute_pipeline_handles@[i].0 as int] == before[compute_pipeline_handles@[i].0 as int]);
                    }
                }
                assert forall|j: int| 0 <= j < ccache0.len() implies #[trigger] e[j] == ccache0[j] by {
                    assert(e[j] == before[j]);
                }
            }
            k = k + 1;
        }
        proof {
            assert(call.take(cn as int) =~= call);
        }

        // ray tracing pipelines
        let ghost tall = ray_tracing@;
        let ghost tcache0 = pipeline_cache.ray_tracing_entries@;
        let tn = ray_tracing.len();
        let mut ray_tracing_pipeline_handles: Vec<RayTracingPipelineHandle> = Vec::new();
        let mut k: usize = 0;
        while k < tn
            invariant
                tn == tall.len(),
                k <= tn,
                ray_tracing@ == tall.skip(k as int),
                pipeline_cache.spec_wf(),
                spec_ray_tracing_handles_match(
                    tall.take(k as int),
                    ray_tracing_pipeline_handles@,
                    pipeline_cache.ray_tracing_entries@,
                ),
                spec_grown(tcache0, pipeline_cache.ray_tracing_entries@),
                spec_compute_handles_match(call, compute_pipeline_handles@, pipeline_cache.compute_entries@),
                spec_grown(ccache0, pipeline_cache.compute_entries@),
                spec_raster_handles_match(all, raster_pipeline_handles@, pipeline_cache.raster_entries@),
                spec_grown(cache0, pipeline_cache.raster_entries@),
                pipeline_cache.defer_release_pipelines == old(pipeline_cache).defer_release_pipelines,
            decreases tn - k,
        {
            let p = ray_tracing.remove(0);
            proof {
                assert(tall.skip(k as int)[0] == tall[k as int]);
                assert(tall.skip(k as int).remove(0) =~= tall.skip(k + 1));
            }
            let ghost before = pipeline_cache.ray_tracing_entries@;
            let h = pipeline_cache.register_ray_tracing_pipeline(p.stages, p.desc);
            ray_tracing_pipeline_handles.push(h);
            proof {
                let t = tall.take(k + 1);
                let e = pipeline_cache.ray_tracing_entries@;
                assert forall|i: int| 0 <= i < ray_tracing_pipeline_handles@.len() implies (
                #[trigger] ray_tracing_pipeline_handles@[i]).0 < e.len() && spec_shader_views(
                    e[ray_tracing_pipeline_handles@[i].0 as int].shaders@,
                ) == spec_shader_views(t[i].stages@) by {
                    assert(t[i] == tall[i]);
                    if i < k {
                        assert(tall.take(k as int)[i] == tall[i]);
                        assert(e[ray_tracing_pipeline_handles@[i].0 as int] == before[ray_tracing_pipeline_handles@[i].0 as int]);
                    }
                }
                assert forall|j: int| 0 <= j < tcache0.len() implies #[trigger] e[j] == tcache0[j] by {
                    assert(e[j] == before[j]);
                }
            }
            k = k + 1;
        }
        proof {
            assert(tall.take(tn as int) =~= tall);
        }

        CompiledRenderGraph {
            render_graph: rg,
            resource_infos,
            pipelines: RenderGraphPipelineHandles {
                raster_pipeline_handles,
                compute_pipeline_handles,
                ray_tracing_pipeline_handles,
            },
        }
    }
}

proof fn lemma_export_usage_keeps_kind(
    base: ResourceUsage,
    id: int,
    exports: Seq<(ExportableGraphResource, AccessType)>,
)
    ensures
        base is Image <==> spec_usage_after_exports(base, id, exports) is Image,
        base is Buffer <==> spec_usage_after_exports(base, id, exports) is Buffer,
    decreases exports.len(),
{
    if exports.len() > 0 {
        lemma_export_usage_keeps_kind(base, id, exports.drop_last());
    }
}

fn initial_usage(res: &GraphResource) -> (usage: ResourceUsage)
    ensures
        usage == spec_initial_usage(*res),
{
    match res {
        GraphResource::Created(GraphResourceCreatedData { desc: GraphResourceDesc::Image(desc) }) => {
            ResourceUsage::Image(desc.usage)
        },
        GraphResource::Created(GraphResourceCreatedData { desc: GraphResourceDesc::Buffer(desc) }) => {
            ResourceUsage::Buffer(desc.usage)
        },
        GraphResource::Imported(GraphResourceImportedData::SwapchainImage) => ResourceUsage::Image(0),
        _ => ResourceUsage::Empty,
    }
}

fn initial_last_access(res: &GraphResource) -> (last: Option<usize>)
    ensures
        last == spec_initial_last_access(*res),
{
    match res {
        GraphResource::Created(_) => None,
        GraphResource::Imported(_) => Some(0),
    }
}

fn usage_step(res: &GraphResource, usage: ResourceUsage, access: AccessType) -> (next: ResourceUsage)
    requires
        spec_pass_access_valid(*res, access),
        spec_is_created_buffer(*res) ==> usage is Buffer,
    ensures
        next == spec_usage_step(*res, usage, access),
{
    let access_mask = get_access_info(access).access_mask;
    match res {
        GraphResource::Created(GraphResourceCreatedData { desc: GraphResourceDesc::Image(_) })
        | GraphResource::Imported(GraphResourceImportedData::SwapchainImage) => {
            let image_usage = image_access_mask_to_usage_flags(access_mask);
            match usage {
                ResourceUsage::Image(u) => ResourceUsage::Image(u | image_usage),
                _ => usage,
            }
        },
        GraphResource::Imported(GraphResourceImportedData::Image { raw, .. }) => {
            let mut image_usage = image_access_mask_to_usage_flags(access_mask);
            image_usage = image_usage | raw.desc.usage;
            ResourceUsage::Image(image_usage)
        },
        GraphResource::Created(GraphResourceCreatedData { desc: GraphResourceDesc::Buffer(_) }) => {
            let buffer_usage = buffer_access_mask_to_usage_flags(access_mask);
            match usage {
                ResourceUsage::Buffer(u) => ResourceUsage::Buffer(u | buffer_usage),
                _ => usage,
            }
        },
        GraphResource::Imported(GraphResourceImportedData::Buffer { raw, .. }) => {
            let mut buffer_usage = buffer_access_mask_to_usage_flags(access_mask);
            buffer_usage = buffer_usage | raw.desc.usage;
            ResourceUsage::Buffer(buffer_usage)
        },
        _ => usage,
    }
}

fn export_usage_step(res: &ExportableGraphResource, usage: ResourceUsage, access: AccessType) -> (next:
    ResourceUsage)
    requires
        access == AccessType::Nothing || match *res {
            ExportableGraphResource::Image(_) => usage is Image && spec_image_usage_of_access_mask(
                spec_mask(access),
            ) is Some,
            ExportableGraphResource::Buffer(_) => usage is Buffer && spec_buffer_usage_of_access_mask(
                spec_mask(access),
            ) is Some,
            ExportableGraphResource::RayTracingAccelStruct(_) => true,
        },
    ensures
        next == spec_export_usage_step(*res, usage, access),
{
    if access != AccessType::Nothing {
        let access_mask = get_access_info(access).access_mask;
        match res {
            ExportableGraphResource::Image(_) => {
                match usage {
                    ResourceUsage::Image(u) => ResourceUsage::Image(
                        u | image_access_mask_to_usage_flags(access_mask),
                    ),
                    _ => usage,
                }
            },
            ExportableGraphResource::Buffer(_) => {
                match usage {
                    ResourceUsage::Buffer(u) => ResourceUsage::Buffer(
                        u | buffer_access_mask_to_usage_flags(access_mask),
                    ),
                    _ => usage,
                }
            },
            ExportableGraphResource::RayTracingAccelStruct(_) => usage,
        }
    } else {
        usage
    }
}

impl RenderGraph {
    /// Finds, for every resource, the last pass that uses it and the usage flags it must be
    /// created with.
    pub fn analyze_resources(&self) -> (infos: AnalyzedResourceInfos)
        requires
            self.spec_analyzable(),
        ensures
            infos.lifetimes@.len() == self.resources@.len(),
            infos.resource_usages@.len() == self.resources@.len(),
            forall|i: int|
                0 <= i < self.resources@.len() ==> #[trigger] infos.lifetimes@[i].last_access
                    == self.spec_last_access(i),
            forall|i: int|
                0 <= i < self.resources@.len() ==> #[trigger] infos.resource_usages@[i]
                    == self.spec_resource_usage(i),
    {
        let n = self.resources.len();
        let ghost res = self.resources@;
        let ghost passes = self.passes@;
        let mut lifetimes: Vec<ResourceLifetime> = Vec::new();
        let mut resource_usages: Vec<ResourceUsage> = Vec::new();
        let mut i: usize = 0;
        while i < n
            invariant
                n == res.len(),
                res == self.resources@,
                i <= n,
                lifetimes@.len() == i,
                resource_usages@.len() == i,
                forall|j: int|
                    0 <= j < i ==> #[trigger] lifetimes@[j].last_access == spec_initial_last_access(
                        res[j],
                    ),
                forall|j: int|
                    0 <= j < i ==> #[trigger] resource_usages@[j] == spec_initial_usage(res[j]),
            decreases n - i,
        {
            lifetimes.push(ResourceLifetime { last_access: initial_last_access(&self.resources[i]) });
            resource_usages.push(initial_usage(&self.resources[i]));
            i = i + 1;
        }
        proof {
            assert forall|j: int| 0 <= j < n implies #[trigger] resource_usages@[j]
                == spec_usage_after_refs(res, j, spec_refs_upto(passes, 0)) by {
                assert(spec_refs_upto(passes, 0).len() == 0);
            }
        }
        let mut p: usize = 0;
        while p < self.passes.len()
            invariant
                n == res.len(),
                res == self.resources@,
                passes == self.passes@,
                self.spec_analyzable(),
                p <= passes.len(),
                lifetimes@.len() == n,
                resource_usages@.len() == n,
                forall|j: int|
                    0 <= j < n ==> #[trigger] resource_usages@[j] == spec_usage_after_refs(
                        res,
                        j,
                        spec_refs_upto(passes, p as int),
                    ),
                forall|j: int|
                    0 <= j < n ==> #[trigger] lifetimes@[j].last_access
                        == spec_last_access_after_passes(
                        passes,
                        p as int,
                        j,
                        spec_initial_last_access(res[j]),
                    ),
            decreases passes.len() - p,
        {
            let pass = &self.passes[p];
            let ghost prefix = spec_refs_upto(passes, p as int);
            let ghost before = lifetimes@;
            let mut k: usize = 0;
            while k < pass.inputs.len() || k - pass.inputs.len() < pass.outputs.len()
                invariant
                    n == res.len(),
                    res == self.resources@,
                    passes == self.passes@,
                    self.spec_analyzable(),
                    p < passes.len(),
                    *pass == passes[p as int],
                    prefix == spec_refs_upto(passes, p as int),
                    k <= pass.refs().len(),
                    lifetimes@.len() == n,
                    resource_usages@.len() == n,
                    forall|j: int|
                        0 <= j < n ==> #[trigger] resource_usages@[j] == spec_usage_after_refs(
                            res,
                            j,
                            prefix + pass.refs().take(k as int),
                        ),
                    forall|j: int|
                        0 <= j < n ==> #[trigger] lifetimes@[j].last_access == if exists|m: int|
                            0 <= m < k && pass.refs()[m].handle.id == j {
                            Some(p)
                        } else {
                            before[j].last_access
                        },
                decreases pass.refs().len() - k,
            {
                let r = if k < pass.inputs.len() {
                    pass.inputs[k]
                } else {
                    pass.outputs[k - pass.inputs.len()]
                };
                assert(r == pass.refs()[k as int]);
                assert(r.handle.id < n && spec_pass_access_valid(res[r.handle.id as int], r.access.access_type)) by {
                    assert(self.passes@[p as int].refs()[k as int] == r);
                }
                let idx = r.handle.id as usize;
                let ghost cur = prefix + pass.refs().take(k as int);
                let ghost next = prefix + pass.refs().take(k + 1);
                proof {
                    assert(next.drop_last() =~= cur);
                    assert(next.last() == r);
                    if spec_is_created_buffer(res[idx as int]) {
                        lemma_created_buffer_usage_is_buffer(res, idx as int, cur);
                    }
                }
                let new_usage = usage_step(&self.resources[idx], resource_usages[idx], r.access.access_type);
                resource_usages.set(idx, new_usage);
                lifetimes.set(idx, ResourceLifetime { last_access: Some(p) });
                proof {
                    assert forall|j: int| 0 <= j < n implies #[trigger] resource_usages@[j]
                        == spec_usage_after_refs(res, j, next) by {
                    }
                    assert forall|j: int| 0 <= j < n implies #[trigger] lifetimes@[j].last_access
                        == if exists|m: int| 0 <= m < k + 1 && pass.refs()[m].handle.id == j {
                        Some(p)
                    } else {
                        before[j].last_access
                    } by {
                        if j == idx {
                            assert(pass.refs()[k as int].handle.id == j);
                        } else {
                            if exists|m: int| 0 <= m < k + 1 && pass.refs()[m].handle.id == j {
                                let m = choose|m: int| 0 <= m < k + 1 && pass.refs()[m].handle.id == j;
                                assert(m < k);
                            }
                        }
                    }
                }
                k = k + 1;
            }
            proof {
                assert(pass.refs().take(pass.refs().len() as int) =~= pass.refs());
                assert(spec_refs_upto(passes, p + 1) == prefix + pass.refs());
                assert forall|j: int| 0 <= j < n implies #[trigger] lifetimes@[j].last_access
                    == spec_last_access_after_passes(
                    passes,
                    p + 1,
                    j,
                    spec_initial_last_access(res[j]),
                ) by {
                    if spec_pass_touches(passes[p as int], j) {
                        let m = choose|m: int|
                            0 <= m < passes[p as int].refs().len() && passes[p as int].refs()[m].handle.id == j;
                        assert(pass.refs()[m].handle.id == j);
                    }
                }
            }
            p = p + 1;
        }
        let ghost pass_usages = resource_usages@;
        let ghost pass_lifetimes = lifetimes@;
        let ghost exports = self.exported_resources@;
        let last_pass: usize = if self.passes.len() >= 1 { self.passes.len() - 1 } else { 0 };
        proof {
            assert(spec_refs_upto(passes, passes.len() as int) == self.spec_refs());
            assert forall|j: int| 0 <= j < n implies #[trigger] resource_usages@[j]
                == spec_usage_after_exports(pass_usages[j], j, exports.take(0)) by {
                assert(exports.take(0).len() == 0);
            }
            assert forall|j: int| 0 <= j < n implies #[trigger] lifetimes@[j].last_access
                == spec_last_access_after_exports(pass_lifetimes[j].last_access, j, exports.take(0), last_pass) by {
                assert(exports.take(0).len() == 0);
            }
        }
        let mut e: usize = 0;
        while e < self.exported_resources.len()
            invariant
                n == res.len(),
                res == self.resources@,
                passes == self.passes@,
                exports == self.exported_resources@,
                self.spec_analyzable(),
                e <= exports.len(),
                last_pass == spec_saturating_sub(passes.len() as usize, 1),
                lifetimes@.len() == n,
                resource_usages@.len() == n,
                forall|j: int| 0 <= j < n ==> #[trigger] pass_usages[j] == self.spec_pass_usage(j),
                forall|j: int|
                    0 <= j < n ==> #[trigger] resource_usages@[j] == spec_usage_after_exports(
                        pass_usages[j],
                        j,
                        exports.take(e as int),
                    ),
                forall|j: int|
                    0 <= j < n ==> #[trigger] lifetimes@[j].last_access
                        == spec_last_access_after_exports(
                        pass_lifetimes[j].last_access,
                        j,
                        exports.take(e as int),
                        last_pass,
                    ),
            decreases exports.len() - e,
        {
            let export = &self.exported_resources[e];
            assert(export.0.spec_handle().id < n && self.spec_export_valid(*export)) by {
                assert(exports[e as int] == *export);
            }
            let idx = export.0.handle().id as usize;
            proof {
                assert(exports.take(e + 1).drop_last() =~= exports.take(e as int));
                assert(exports.take(e + 1).last() == *export);
                lemma_export_usage_keeps_kind(pass_usages[idx as int], idx as int, exports.take(e as int));
            }
            lifetimes.set(idx, ResourceLifetime { last_access: Some(last_pass) });
            let new_usage = export_usage_step(&export.0, resource_usages[idx], export.1);
            resource_usages.set(idx, new_usage);
            e = e + 1;
        }
        proof {
            assert(exports.take(exports.len() as int) =~= exports);
        }
        AnalyzedResourceInfos { lifetimes, resource_usages }
    }
}

/// Every image usage an access needs is the one its image layout is for: an access that leaves
/// the image in the shader-read-only layout samples it, the transfer layouts need the transfer
/// usages of the same direction, the attachment layouts the attachment usages, and a shader write
/// needs storage.
pub proof fn lemma_image_usage_matches_access_layout(access: AccessType)
    ensures
        spec_image_usage_of_access_mask(spec_mask(access)) matches Some(u) ==> {
            let layout = spec_access_info(access).image_layout;
            &&& layout == vk::IMAGE_LAYOUT_SHADER_READ_ONLY_OPTIMAL ==> u == vk::IMAGE_USAGE_SAMPLED
            &&& layout == vk::IMAGE_LAYOUT_TRANSFER_DST_OPTIMAL ==> u == vk::IMAGE_USAGE_TRANSFER_DST
            &&& layout == vk::IMAGE_LAYOUT_TRANSFER_SRC_OPTIMAL ==> u == vk::IMAGE_USAGE_TRANSFER_SRC
            &&& layout == vk::IMAGE_LAYOUT_COLOR_ATTACHMENT_OPTIMAL ==> u == vk::IMAGE_USAGE_COLOR_ATTACHMENT
            &&& (layout == vk::IMAGE_LAYOUT_DEPTH_STENCIL_ATTACHMENT_OPTIMAL || layout
                == vk::IMAGE_LAYOUT_DEPTH_STENCIL_READ_ONLY_OPTIMAL || layout
                == vk::IMAGE_LAYOUT_DEPTH_ATTACHMENT_STENCIL_READ_ONLY_OPTIMAL || layout
                == vk::IMAGE_LAYOUT_DEPTH_READ_ONLY_STENCIL_ATTACHMENT_OPTIMAL) ==> u
                == vk::IMAGE_USAGE_DEPTH_STENCIL_ATTACHMENT
            &&& spec_mask(access) == vk::ACCESS_SHADER_WRITE ==> u == vk::IMAGE_USAGE_STORAGE
        },
{
}

/// Each buffer usage answers to the accesses that need it: index reads need index buffers,
/// indirect command reads indirect buffers, uniform reads uniform buffers, transfer reads and
/// writes the transfer usages of the same direction, and storage is needed exactly by the
/// accesses that write from shaders or read and write memory in general; every other shader
/// read sees the buffer as a texel buffer.
pub proof fn lemma_buffer_usage_matches_access_mask(mask: u32)
    ensures
        spec_buffer_usage_of_access_mask(mask) matches Some(u) ==> {
            &&& (u == vk::BUFFER_USAGE_INDEX_BUFFER) == (mask == vk::ACCESS_INDEX_READ)
            &&& (u == vk::BUFFER_USAGE_INDIRECT_BUFFER) == (mask == vk::ACCESS_INDIRECT_COMMAND_READ)
            &&& (u == vk::BUFFER_USAGE_UNIFORM_BUFFER) == (mask == vk::ACCESS_UNIFORM_READ)
            &&& (u == vk::BUFFER_USAGE_TRANSFER_SRC) == (mask == vk::ACCESS_TRANSFER_READ)
            &&& (u == vk::BUFFER_USAGE_TRANSFER_DST) == (mask == vk::ACCESS_TRANSFER_WRITE)
            &&& (u == vk::BUFFER_USAGE_STORAGE_BUFFER) == (mask == vk::ACCESS_SHADER_WRITE || mask
                == vk::ACCESS_MEMORY_READ_WRITE)
            &&& (u == vk::BUFFER_USAGE_UNIFORM_TEXEL_BUFFER) == (mask == vk::ACCESS_SHADER_READ || mask
                == vk::ACCESS_VERTEX_ATTRIBUTE_READ)
        },
{
}

/// Every image usage is needed by the accesses of its kind alone: sampling by shader reads,
/// storage by shader writes and general memory access, the transfer usages by transfers of the
/// same direction, and the attachment usages by the accesses of those attachments.
pub proof fn lemma_image_usage_of_each_access_mask(mask: u32)
    ensures
        spec_image_usage_of_access_mask(mask) matches Some(u) ==> {
            &&& (u == vk::IMAGE_USAGE_SAMPLED) == (mask == vk::ACCESS_SHADER_READ)
            &&& (u == vk::IMAGE_USAGE_STORAGE) == (mask == vk::ACCESS_SHADER_WRITE || mask
                == vk::ACCESS_MEMORY_READ_WRITE)
            &&& (u == vk::IMAGE_USAGE_TRANSFER_SRC) == (mask == vk::ACCESS_TRANSFER_READ)
            &&& (u == vk::IMAGE_USAGE_TRANSFER_DST) == (mask == vk::ACCESS_TRANSFER_WRITE)
            &&& (u == vk::IMAGE_USAGE_COLOR_ATTACHMENT) == (mask == vk::ACCESS_COLOR_ATTACHMENT_READ || mask
                == vk::ACCESS_COLOR_ATTACHMENT_WRITE)
            &&& (u == vk::IMAGE_USAGE_DEPTH_STENCIL_ATTACHMENT) == (mask
                == vk::ACCESS_DEPTH_STENCIL_ATTACHMENT_READ || mask == vk::ACCESS_DEPTH_STENCIL_ATTACHMENT_WRITE
                || mask == vk::ACCESS_DEPTH_STENCIL_ATTACHMENT_READ_WRITE)
        },
{
}

/// Whether a usage is an image usage with every bit of `bits`.
pub open spec fn spec_image_usage_has(usage: ResourceUsage, bits: u32) -> bool {
    usage matches ResourceUsage::Image(u) && u & bits == bits
}

proof fn lemma_or_keeps_bits(u: u32, x: u32, bits: u32)
    ensures
        u & bits == bits ==> (u | x) & bits == bits,
        (u | bits) & bits == bits,
        (bits | u) & bits == bits,
{
    assert(u & bits == bits ==> (u | x) & bits == bits) by (bit_vector);
    assert((u | bits) & bits == bits) by (bit_vector);
    assert((bits | u) & bits == bits) by (bit_vector);
}

proof fn lemma_refs_cover_access(resources: Seq<GraphResource>, id: int, refs: Seq<PassResourceHandle>, k: int)
    requires
        0 <= id < resources.len(),
        spec_is_created_image(resources[id]),
        0 <= k < refs.len(),
        refs[k].handle.id == id,
        spec_image_usage_of_access_mask(spec_mask(refs[k].access.access_type)) is Some,
    ensures
        spec_image_usage_has(
            spec_usage_after_refs(resources, id, refs),
            spec_image_usage_of_access_mask(spec_mask(refs[k].access.access_type))->0,
        ),
    decreases refs.len(),
{
    let bits = spec_image_usage_of_access_mask(spec_mask(refs[k].access.access_type))->0;
    let prev = spec_usage_after_refs(resources, id, refs.drop_last());
    lemma_created_image_usage_is_image(resources, id, refs.drop_last());
    let u = prev->Image_0;
    if k == refs.len() - 1 {
        lemma_or_keeps_bits(u, bits, bits);
    } else {
        lemma_refs_cover_access(resources, id, refs.drop_last(), k);
        let r = refs.last();
        if r.handle.id == id {
            lemma_or_keeps_bits(u, spec_image_usage_of_access_mask(spec_mask(r.access.access_type))->0, bits);
        }
    }
}

proof fn lemma_exports_keep_bits(
    base: ResourceUsage,
    id: int,
    exports: Seq<(ExportableGraphResource, AccessType)>,
    bits: u32,
)
    requires
        spec_image_usage_has(base, bits),
    ensures
        spec_image_usage_has(spec_usage_after_exports(base, id, exports), bits),
    decreases exports.len(),
{
    if exports.len() > 0 {
        lemma_exports_keep_bits(base, id, exports.drop_last(), bits);
        let prev = spec_usage_after_exports(base, id, exports.drop_last());
        let e = exports.last();
        if e.0.spec_handle().id == id && e.1 != AccessType::Nothing && e.0 is Image {
            lemma_or_keeps_bits(prev->Image_0, spec_image_usage_of_access_mask(spec_mask(e.1))->0, bits);
        }
    }
}

/// An image the graph creates is created with the usage every pass access of it needs: after
/// the analysis, its usage has the bits of each access's usage; in particular an image some pass
/// reads in the shader-read-only layout is sampled, and one a pass writes from shaders is storage.
pub proof fn lemma_analyzed_image_usage_covers_accesses(graph: RenderGraph, id: int, k: int)
    requires
        0 <= id < graph.resources@.len(),
        spec_is_created_image(graph.resources@[id]),
        0 <= k < graph.spec_refs().len(),
        graph.spec_refs()[k].handle.id == id,
        spec_image_usage_of_access_mask(spec_mask(graph.spec_refs()[k].access.access_type)) is Some,
    ensures
        spec_image_usage_has(
            graph.spec_resource_usage(id),
            spec_image_usage_of_access_mask(spec_mask(graph.spec_refs()[k].access.access_type))->0,
        ),
        spec_access_info(graph.spec_refs()[k].access.access_type).image_layout
            == vk::IMAGE_LAYOUT_SHADER_READ_ONLY_OPTIMAL ==> spec_image_usage_has(
            graph.spec_resource_usage(id),
            vk::IMAGE_USAGE_SAMPLED,
        ),
        spec_mask(graph.spec_refs()[k].access.access_type) == vk::ACCESS_SHADER_WRITE ==> spec_image_usage_has(
            graph.spec_resource_usage(id),
            vk::IMAGE_USAGE_STORAGE,
        ),
{
    let a = graph.spec_refs()[k].access.access_type;
    let bits = spec_image_usage_of_access_mask(spec_mask(a))->0;
    lemma_refs_cover_access(graph.resources@, id, graph.spec_refs(), k);
    lemma_exports_keep_bits(graph.spec_pass_usage(id), id, graph.exported_resources@, bits);
    lemma_image_usage_matches_access_layout(a);
}

} // verus!
