//! A compiled render graph: the analysis of its resources done and its pipelines registered,
//! ready to gather the GPU resources of the frame.
use vstd::prelude::*;

use std::sync::Arc;

use crate::barrier::AccessType;
use crate::buffer::{Buffer, BufferDesc};
use crate::executing_graph::ExecutingRenderGraph;
use crate::graph::{AnalyzedResourceInfos, RenderGraph, ResourceUsage, spec_is_created_accel_struct};
use crate::graph_resource::{
    GraphResource, GraphResourceDesc, GraphResourceImportedData,
};
use crate::image::{Image, ImageDesc};
use crate::pipeline_cache::{ComputePipelineHandle, RasterPipelineHandle, RayTracingPipelineHandle};
use crate::ray_tracing::RayTracingAccelerationStructure;
use crate::transient_resource_cache::TransientResourceCache;
use crate::util::arc_clone;

verus! {

/// Pipeline cache handles of the pipelines a render graph registered, by graph pipeline index.
pub struct RenderGraphPipelineHandles {
    pub raster_pipeline_handles: Vec<RasterPipelineHandle>,
    pub compute_pipeline_handles: Vec<ComputePipelineHandle>,
    pub ray_tracing_pipeline_handles: Vec<RayTracingPipelineHandle>,
}

/// A render graph with its resources analyzed and its pipelines registered.
pub struct CompiledRenderGraph {
    pub render_graph: RenderGraph,
    pub resource_infos: AnalyzedResourceInfos,
    pub pipelines: RenderGraphPipelineHandles,
}

/// A render graph resource, gathered for the frame.
pub enum GraphPreparedResource {
    CreatedImage(Image),
    ImportedImage(Arc<Image>),
    CreatedBuffer(Buffer),
    ImportedBuffer(Arc<Buffer>),
    ImportedRayTracingAccelStruct(Arc<RayTracingAccelerationStructure>),
    /// A resource that only exists later in the frame: the swapchain image.
    Delayed(GraphResource),
}

/// A gathered resource, whether the graph created it or imported it.
pub enum GraphPreparedResourceRef<'a> {
    Image(&'a Image),
    Buffer(&'a Buffer),
    RayTracingAccelStruct(&'a RayTracingAccelerationStructure),
}

impl GraphPreparedResource {
    /// The resource itself; the swapchain image does not exist yet while it is delayed.
    pub fn borrow(&self) -> (res: GraphPreparedResourceRef)
        requires
            !(*self is Delayed),
        ensures
            match *self {
                GraphPreparedResource::CreatedImage(i) => res == GraphPreparedResourceRef::Image(&i),
                GraphPreparedResource::ImportedImage(i) => res == GraphPreparedResourceRef::Image(&*i),
                GraphPreparedResource::CreatedBuffer(b) => res == GraphPreparedResourceRef::Buffer(&b),
                GraphPreparedResource::ImportedBuffer(b) => res == GraphPreparedResourceRef::Buffer(&*b),
                GraphPreparedResource::ImportedRayTracingAccelStruct(a) => res
                    == GraphPreparedResourceRef::RayTracingAccelStruct(&*a),
                GraphPreparedResource::Delayed(_) => false,
            },
    {
        match self {
            GraphPreparedResource::CreatedImage(image) => GraphPreparedResourceRef::Image(image),
            GraphPreparedResource::ImportedImage(image) => GraphPreparedResourceRef::Image(&**image),
            GraphPreparedResource::CreatedBuffer(buffer) => GraphPreparedResourceRef::Buffer(buffer),
            GraphPreparedResource::ImportedBuffer(buffer) => GraphPreparedResourceRef::Buffer(&**buffer),
            GraphPreparedResource::ImportedRayTracingAccelStruct(accel_struct) => {
                GraphPreparedResourceRef::RayTracingAccelStruct(&**accel_struct)
            },
            GraphPreparedResource::Delayed(_) => vstd::pervasive::unreached(),
        }
    }
}

/// A gathered resource and the access it is currently in.
pub struct RegisteredResource {
    pub resource: GraphPreparedResource,
    pub access: AccessType,
}

impl RegisteredResource {
    /// The access the resource is currently in.
    pub fn get_current_access(&self) -> (access: AccessType)
        ensures
            access == self.access,
    {
        self.access
    }

    /// Records that the resource is now in `dst_access`.
    pub fn transition_to(&mut self, dst_access: AccessType)
        ensures
            final(self).access == dst_access,
            final(self).resource == old(self).resource,
    {
        self.access = dst_access;
    }
}

/// The description a created image or buffer gets: that of the graph, with the usage
/// the analysis found.
pub open spec fn spec_image_desc_with_usage(desc: ImageDesc, usage: ResourceUsage) -> ImageDesc {
    ImageDesc { usage: usage->Image_0, ..desc }
}

/// See `spec_image_desc_with_usage`.
pub open spec fn spec_buffer_desc_with_usage(desc: BufferDesc, usage: ResourceUsage) -> BufferDesc {
    BufferDesc { usage: usage->Buffer_0, ..desc }
}

/// How a graph resource is gathered for the frame: a created image or buffer is one of its
/// description and analyzed usage, taken from the cache or newly created, and starts with no
/// access; an imported resource is the one imported, in the access it was imported in; the
/// swapchain image is delayed, and counts as written by a compute shader.
pub open spec fn spec_registered<FI, FB>(
    res: GraphResource,
    usage: ResourceUsage,
    reg: RegisteredResource,
    create_image: FI,
    create_buffer: FB,
) -> bool where FI: Fn(ImageDesc) -> Image, FB: Fn(BufferDesc) -> Buffer {
    match res {
        GraphResource::Created(c) => match c.desc {
            GraphResourceDesc::Image(desc) => {
                let d = spec_image_desc_with_usage(desc, usage);
                &&& reg.access == AccessType::Nothing
                &&& reg.resource matches GraphPreparedResource::CreatedImage(img) && (img.desc == d
                    || call_ensures(create_image, (d,), img))
            },
            GraphResourceDesc::Buffer(desc) => {
                let d = spec_buffer_desc_with_usage(desc, usage);
                &&& reg.access == AccessType::Nothing
                &&& reg.resource matches GraphPreparedResource::CreatedBuffer(buf) && (buf.desc == d
                    || call_ensures(create_buffer, (d,), buf))
            },
            GraphResourceDesc::RayTracingAccelStruct(_) => false,
        },
        GraphResource::Imported(i) => match i {
            GraphResourceImportedData::Image { raw, access } => reg.access == access
                && reg.resource == GraphPreparedResource::ImportedImage(raw),
            GraphResourceImportedData::Buffer { raw, access } => reg.access == access
                && reg.resource == GraphPreparedResource::ImportedBuffer(raw),
            GraphResourceImportedData::RayTracingAccelStruct { raw, access } => reg.access == access
                && reg.resource == GraphPreparedResource::ImportedRayTracingAccelStruct(raw),
            GraphResourceImportedData::SwapchainImage => reg.access == AccessType::ComputeShaderWrite
                && reg.resource == GraphPreparedResource::Delayed(
                GraphResource::Imported(GraphResourceImportedData::SwapchainImage),
            ),
        },
    }
}

/// Whether a graph resource is a created image that, with its analyzed usage, has description `d`.
pub open spec fn spec_wants_image(res: GraphResource, usage: ResourceUsage, d: ImageDesc) -> bool {
    res matches GraphResource::Created(c) && c.desc matches GraphResourceDesc::Image(desc)
        && spec_image_desc_with_usage(desc, usage) == d
}

/// Whether a graph resource is a created buffer that, with its analyzed usage, has description `d`.
pub open spec fn spec_wants_buffer(res: GraphResource, usage: ResourceUsage, d: BufferDesc) -> bool {
    res matches GraphResource::Created(c) && c.desc matches GraphResourceDesc::Buffer(desc)
        && spec_buffer_desc_with_usage(desc, usage) == d
}

/// How many of the first `n` resources are created images of description `d`.
pub open spec fn spec_images_wanted(resources: Seq<GraphResource>, usages: Seq<ResourceUsage>, n: int, d: ImageDesc) -> nat
    decreases n,
{
    if n <= 0 {
        0
    } else {
        spec_images_wanted(resources, usages, n - 1, d) + if spec_wants_image(resources[n - 1], usages[n - 1], d) {
            1nat
        } else {
            0nat
        }
    }
}

/// How many of the first `n` resources are created buffers of description `d`.
pub open spec fn spec_buffers_wanted(resources: Seq<GraphResource>, usages: Seq<ResourceUsage>, n: int, d: BufferDesc) -> nat
    decreases n,
{
    if n <= 0 {
        0
    } else {
        spec_buffers_wanted(resources, usages, n - 1, d) + if spec_wants_buffer(resources[n - 1], usages[n - 1], d) {
            1nat
        } else {
            0nat
        }
    }
}

/// What is left of the cached resources `cached` once `k` are taken, newest first.
pub open spec fn spec_left<T>(cached: Seq<T>, k: nat) -> Seq<T> {
    if k >= cached.len() {
        Seq::empty()
    } else {
        cached.take(cached.len() - k)
    }
}

/// Whether the resource gathered for slot `i` comes from the cache when it still held one of
/// its description (the newest one left after the earlier slots took theirs), and from
/// `create_image` or `create_buffer` otherwise.
pub open spec fn spec_taken_from_cache<FI, FB>(
    resources: Seq<GraphResource>,
    usages: Seq<ResourceUsage>,
    i: int,
    reg: RegisteredResource,
    images: spec_fn(ImageDesc) -> Seq<Image>,
    buffers: spec_fn(BufferDesc) -> Seq<Buffer>,
    create_image: FI,
    create_buffer: FB,
) -> bool where FI: Fn(ImageDesc) -> Image, FB: Fn(BufferDesc) -> Buffer {
    match resources[i] {
        GraphResource::Created(c) => match c.desc {
            GraphResourceDesc::Image(desc) => {
                let d = spec_image_desc_with_usage(desc, usages[i]);
                let t = spec_images_wanted(resources, usages, i, d);
                let cached = images(d);
                reg.resource matches GraphPreparedResource::CreatedImage(img) && if t < cached.len() {
                    img == cached[cached.len() - 1 - t]
                } else {
                    call_ensures(create_image, (d,), img)
                }
            },
            GraphResourceDesc::Buffer(desc) => {
                let d = spec_buffer_desc_with_usage(desc, usages[i]);
                let t = spec_buffers_wanted(resources, usages, i, d);
                let cached = buffers(d);
                reg.resource matches GraphPreparedResource::CreatedBuffer(buf) && if t < cached.len() {
                    buf == cached[cached.len() - 1 - t]
                } else {
                    call_ensures(create_buffer, (d,), buf)
                }
            },
            GraphResourceDesc::RayTracingAccelStruct(_) => true,
        },
        GraphResource::Imported(_) => true,
    }
}

impl CompiledRenderGraph {
    /// The analysis covers every resource, and gives created images an image usage and created
    /// buffers a buffer usage; no acceleration structure is to be created.
    pub open spec fn spec_wf(&self) -> bool {
        let rg = self.render_graph;
        let n = rg.resources@.len();
        &&& self.resource_infos.resource_usages@.len() == n
        &&& self.resource_infos.lifetimes@.len() == n
        &&& forall|i: int|
            0 <= i < n ==> {
                let res = #[trigger] rg.resources@[i];
                &&& !spec_is_created_accel_struct(res)
                &&& (res matches GraphResource::Created(c) ==> match c.desc {
                    GraphResourceDesc::Image(_) => self.resource_infos.resource_usages@[i] is Image,
                    GraphResourceDesc::Buffer(_) => self.resource_infos.resource_usages@[i] is Buffer,
                    GraphResourceDesc::RayTracingAccelStruct(_) => false,
                })
            }
    }

    /// Gathers every resource of the graph for the frame: created images and buffers are taken
    /// from the cache when one of the same description is there, and created otherwise.
    pub fn prepare_execute<FI, FB>(
        self,
        cache: &mut TransientResourceCache,
        create_image: &FI,
        create_buffer: &FB,
    ) -> (exec: ExecutingRenderGraph) where FI: Fn(ImageDesc) -> Image, FB: Fn(BufferDesc) -> Buffer
        requires
            self.spec_wf(),
            old(cache).spec_wf(),
            forall|d: ImageDesc| create_image.requires((d,)),
            forall|d: BufferDesc| create_buffer.requires((d,)),
        ensures
            final(cache).spec_wf(),
            exec.registered_resources@.len() == self.render_graph.resources@.len(),
            forall|i: int|
                0 <= i < self.render_graph.resources@.len() ==> spec_registered(
                    self.render_graph.resources@[i],
                    self.resource_infos.resource_usages@[i],
                    #[trigger] exec.registered_resources@[i],
                    *create_image,
                    *create_buffer,
                ),
            forall|i: int|
                0 <= i < self.render_graph.resources@.len() ==> spec_taken_from_cache(
                    self.render_graph.resources@,
                    self.resource_infos.resource_usages@,
                    i,
                    #[trigger] exec.registered_resources@[i],
                    |d: ImageDesc| old(cache).spec_images(d),
                    |d: BufferDesc| old(cache).spec_buffers(d),
                    *create_image,
                    *create_buffer,
                ),
            forall|d: ImageDesc|
                #[trigger] final(cache).spec_images(d) == spec_left(
                    old(cache).spec_images(d),
                    spec_images_wanted(
                        self.render_graph.resources@,
                        self.resource_infos.resource_usages@,
                        self.render_graph.resources@.len() as int,
                        d,
                    ),
                ),
            forall|d: BufferDesc|
                #[trigger] final(cache).spec_buffers(d) == spec_left(
                    old(cache).spec_buffers(d),
                    spec_buffers_wanted(
                        self.render_graph.resources@,
                        self.resource_infos.resource_usages@,
                        self.render_graph.resources@.len() as int,
                        d,
                    ),
                ),
            exec.passes == self.render_graph.passes,
            exec.native_resources == self.render_graph.resources,
            exec.exported_resources == self.render_graph.exported_resources,
            exec.pipelines == self.pipelines,
    {
        let ghost images0 = |d: ImageDesc| cache.spec_images(d);
        let ghost buffers0 = |d: BufferDesc| cache.spec_buffers(d);
        let CompiledRenderGraph { render_graph, resource_infos, pipelines } = self;
        let RenderGraph { passes, resources, exported_resources, .. } = render_graph;
        let n = resources.len();
        let mut registered_resources: Vec<RegisteredResource> = Vec::new();
        let mut idx: usize = 0;
        while idx < n
            invariant
                n == resources@.len(),
                idx <= n,
                resource_infos.resource_usages@.len() == n,
                forall|i: int|
                    0 <= i < n ==> {
                        let res = #[trigger] resources@[i];
                        &&& !spec_is_created_accel_struct(res)
                        &&& (res matches GraphResource::Created(c) ==> match c.desc {
                            GraphResourceDesc::Image(_) => resource_infos.resource_usages@[i] is Image,
                            GraphResourceDesc::Buffer(_) => resource_infos.resource_usages@[i] is Buffer,
                            GraphResourceDesc::RayTracingAccelStruct(_) => false,
                        })
                    },
                cache.spec_wf(),
                forall|d: ImageDesc| create_image.requires((d,)),
                forall|d: BufferDesc| create_buffer.requires((d,)),
                registered_resources@.len() == idx,
                forall|i: int|
                    0 <= i < idx ==> spec_registered(
                        resources@[i],
                        resource_infos.resource_usages@[i],
                        #[trigger] registered_resources@[i],
                        *create_image,
                        *create_buffer,
                    ),
                forall|i: int|
                    0 <= i < idx ==> spec_taken_from_cache(
                        resources@,
                        resource_infos.resource_usages@,
                        i,
                        #[trigger] registered_resources@[i],
                        images0,
                        buffers0,
                        *create_image,
                        *create_buffer,
                    ),
                forall|d: ImageDesc|
                    #[trigger] cache.spec_images(d) == spec_left(
                        images0(d),
                        spec_images_wanted(resources@, resource_infos.resource_usages@, idx as int, d),
                    ),
                forall|d: BufferDesc|
                    #[trigger] cache.spec_buffers(d) == spec_left(
                        buffers0(d),
                        spec_buffers_wanted(resources@, resource_infos.resource_usages@, idx as int, d),
                    ),
            decreases n - idx,
        {
            let ghost r = resources@[idx as int];
            assert(!spec_is_created_accel_struct(r));
            let registered = match &resources[idx] {
                GraphResource::Created(created) => {
                    match created.desc {
                        GraphResourceDesc::Image(desc) => {
                            let mut desc = desc;
                            match resource_infos.resource_usages[idx] {
                                ResourceUsage::Image(usage) => {
                                    desc.usage = usage;
                                },
                                _ => {},
                            }
                            let image = match cache.get_image(&desc) {
                                Some(image) => image,
                                None => create_image(desc),
                            };
                            RegisteredResource {
                                access: AccessType::Nothing,
                                resource: GraphPreparedResource::CreatedImage(image),
                            }
                        },
                        GraphResourceDesc::Buffer(desc) => {
                            let mut desc = desc;
                            match resource_infos.resource_usages[idx] {
                                ResourceUsage::Buffer(usage) => {
                                    desc.usage = usage;
                                },
                                _ => {},
                            }
                            let buffer = match cache.get_buffer(&desc) {
                                Some(buffer) => buffer,
                                None => create_buffer(desc),
                            };
                            RegisteredResource {
                                access: AccessType::Nothing,
                                resource: GraphPreparedResource::CreatedBuffer(buffer),
                            }
                        },
                        GraphResourceDesc::RayTracingAccelStruct(_) => {
                            assert(false);
                            RegisteredResource {
                                access: AccessType::Nothing,
                                resource: GraphPreparedResource::Delayed(
                                    GraphResource::Imported(GraphResourceImportedData::SwapchainImage),
                                ),
                            }
                        },
                    }
                },
                GraphResource::Imported(imported) => {
                    match imported {
                        GraphResourceImportedData::Image { raw, access } => RegisteredResource {
                            access: *access,
                            resource: GraphPreparedResource::ImportedImage(arc_clone(raw)),
                        },
                        GraphResourceImportedData::Buffer { raw, access } => RegisteredResource {
                            access: *access,
                            resource: GraphPreparedResource::ImportedBuffer(arc_clone(raw)),
                        },
                        GraphResourceImportedData::RayTracingAccelStruct { raw, access } => {
                            RegisteredResource {
                                access: *access,
                                resource: GraphPreparedResource::ImportedRayTracingAccelStruct(
                                    arc_clone(raw),
                                ),
                            }
                        },
                        GraphResourceImportedData::SwapchainImage => RegisteredResource {
                            access: AccessType::ComputeShaderWrite,
                            resource: GraphPreparedResource::Delayed(
                                GraphResource::Imported(GraphResourceImportedData::SwapchainImage),
                            ),
                        },
                    }
                },
            };
            registered_resources.push(registered);
            idx = idx + 1;
        }
        ExecutingRenderGraph {
            passes,
            native_resources: resources,
            registered_resources,
            exported_resources,
            pipelines,
        }
    }
}

} // verus!
