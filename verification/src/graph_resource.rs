//! Resources held by a render graph, and the handles passes use to refer to them.
use vstd::prelude::*;

use std::marker::PhantomData;
use std::sync::Arc;

use vstd::std_specs::cmp::PartialEqSpecImpl;

use crate::barrier::AccessType;
use crate::buffer::{Buffer, BufferDesc};
use crate::ray_tracing::RayTracingAccelerationStructure;
use crate::image::{Image, ImageDesc};
use crate::resource::{RayTracingAccelStructDesc, Resource, ResourceDesc, ResourceView};

verus! {

/// Description of a render graph resource, whatever its kind.
#[derive(Clone, Copy, Debug)]
pub enum GraphResourceDesc {
    Image(ImageDesc),
    Buffer(BufferDesc),
    RayTracingAccelStruct(RayTracingAccelStructDesc),
}

/// A resource the render graph creates and owns.
#[derive(Clone)]
pub struct GraphResourceCreatedData {
    pub desc: GraphResourceDesc,
}

/// A resource imported from outside the render graph, with the access it is in when imported.
///
/// The swapchain image carries nothing: it is only acquired when the frame is presented.
#[derive(Clone)]
pub enum GraphResourceImportedData {
    Image { raw: Arc<Image>, access: AccessType },
    Buffer { raw: Arc<Buffer>, access: AccessType },
    RayTracingAccelStruct { raw: Arc<RayTracingAccelerationStructure>, access: AccessType },
    SwapchainImage,
}

/// A render graph resource.
#[derive(Clone)]
pub enum GraphResource {
    /// Created later and owned by the render graph.
    Created(GraphResourceCreatedData),
    /// Imported from outside.
    Imported(GraphResourceImportedData),
}

impl GraphResource {
    /// A resource the graph will create from `desc`.
    pub fn create<Desc: ResourceDesc>(desc: Desc) -> (res: GraphResource)
        ensures
            res == GraphResource::Created(GraphResourceCreatedData { desc: desc.spec_graph_desc() }),
    {
        GraphResource::Created(GraphResourceCreatedData { desc: desc.graph_desc() })
    }

    /// An imported image in the given access.
    pub fn import_image(resource: Arc<Image>, access: AccessType) -> (res: GraphResource)
        ensures
            res == GraphResource::Imported(GraphResourceImportedData::Image { raw: resource, access }),
    {
        GraphResource::Imported(GraphResourceImportedData::Image { raw: resource, access })
    }

    /// An imported buffer in the given access.
    pub fn import_buffer(resource: Arc<Buffer>, access: AccessType) -> (res: GraphResource)
        ensures
            res == GraphResource::Imported(GraphResourceImportedData::Buffer { raw: resource, access }),
    {
        GraphResource::Imported(GraphResourceImportedData::Buffer { raw: resource, access })
    }

    /// An imported acceleration structure in the given access.
    pub fn import_ray_tracing_accel_struct(
        resource: Arc<RayTracingAccelerationStructure>,
        access: AccessType,
    ) -> (res: GraphResource)
        ensures
            res == GraphResource::Imported(
                GraphResourceImportedData::RayTracingAccelStruct { raw: resource, access },
            ),
    {
        GraphResource::Imported(
            GraphResourceImportedData::RayTracingAccelStruct { raw: resource, access },
        )
    }
}

/// Refers to a resource slot of the render graph, at some generation of its contents.
#[derive(Clone, Copy, PartialEq, Eq, Hash, Debug, Structural)]
pub struct GraphResourceHandle {
    /// Slot of the resource in the render graph.
    pub id: u32,
    /// Generation of the resource's contents; every write starts a new one.
    pub generation: u32,
}

impl GraphResourceHandle {
    /// The same slot at the next generation, wrapping around after `u32::MAX`.
    pub open spec fn spec_expired(self) -> Self {
        GraphResourceHandle {
            id: self.id,
            generation: if self.generation == u32::MAX { 0 } else { (self.generation + 1) as u32 },
        }
    }

    /// The same slot at the next generation, wrapping around after `u32::MAX`.
    pub fn expired(self) -> (next: Self)
        ensures
            next == self.spec_expired(),
    {
        Self { id: self.id, generation: self.generation.wrapping_add(1) }
    }
}

/// Handle of a render graph resource, with the description of the resource.
#[derive(Debug)]
pub struct Handle<ResourceType: Resource> {
    pub handle: GraphResourceHandle,
    pub desc: <ResourceType as Resource>::Desc,
    pub _marker: PhantomData<ResourceType>,
}

impl<ResourceType: Resource> Handle<ResourceType> {
    /// The description of the resource.
    pub fn desc(&self) -> (desc: &<ResourceType as Resource>::Desc)
        ensures
            *desc == self.desc,
    {
        &self.desc
    }

    /// Another handle to the same resource slot and generation.
    pub fn clone_unchecked(&self) -> (res: Self)
        ensures
            res.handle == self.handle,
            res.desc == self.desc,
    {
        Self { handle: self.handle, desc: self.desc, _marker: PhantomData }
    }
}

impl<ResourceType: Resource> PartialEq for Handle<ResourceType> {
    fn eq(&self, other: &Self) -> (res: bool) {
        self.handle == other.handle
    }
}

impl<ResourceType: Resource> PartialEqSpecImpl for Handle<ResourceType> {
    open spec fn obeys_eq_spec() -> bool {
        true
    }

    open spec fn eq_spec(&self, other: &Self) -> bool {
        self.handle == other.handle
    }
}

impl<ResourceType: Resource> Eq for Handle<ResourceType> {
}

/// Handle of a resource exported out of a render graph; an exported resource always exists,
/// so it carries no description.
#[derive(Debug)]
pub struct ExportedHandle<ResourceType: Resource> {
    pub handle: GraphResourceHandle,
    pub _marker: PhantomData<ResourceType>,
}

impl<ResourceType: Resource> Clone for ExportedHandle<ResourceType> {
    fn clone(&self) -> (res: Self)
        ensures
            res.handle == self.handle,
    {
        Self { handle: self.handle, _marker: PhantomData }
    }
}

impl<ResourceType: Resource> Copy for ExportedHandle<ResourceType> {
}

/// A resource as a pass views it: the handle, marked with the view the pass has of it.
pub struct GraphResourceRef<ResType: Resource, ViewType: ResourceView> {
    pub handle: GraphResourceHandle,
    pub _marker: PhantomData<(ResType, ViewType)>,
}

/// A resource the render graph may export out of the frame.
pub enum ExportableGraphResource {
    Image(Handle<Image>),
    Buffer(Handle<Buffer>),
    RayTracingAccelStruct(Handle<RayTracingAccelerationStructure>),
}

impl ExportableGraphResource {
    /// The resource handle, whatever the kind.
    pub open spec fn spec_handle(&self) -> GraphResourceHandle {
        match self {
            ExportableGraphResource::Image(h) => h.handle,
            ExportableGraphResource::Buffer(h) => h.handle,
            ExportableGraphResource::RayTracingAccelStruct(h) => h.handle,
        }
    }

    /// The resource handle, whatever the kind.
    pub fn handle(&self) -> (res: GraphResourceHandle)
        ensures
            res == self.spec_handle(),
    {
        match self {
            ExportableGraphResource::Image(handle) => handle.handle,
            ExportableGraphResource::Buffer(handle) => handle.handle,
            ExportableGraphResource::RayTracingAccelStruct(handle) => handle.handle,
        }
    }
}

/// Handle of an exported resource, whatever its kind.
pub enum ExportedResourceHandle {
    Image(ExportedHandle<Image>),
    Buffer(ExportedHandle<Buffer>),
    RayTracingAccelStruct(ExportedHandle<RayTracingAccelerationStructure>),
}

impl ExportedResourceHandle {
    /// The resource handle, whatever the kind.
    pub open spec fn spec_handle(&self) -> GraphResourceHandle {
        match self {
            ExportedResourceHandle::Image(h) => h.handle,
            ExportedResourceHandle::Buffer(h) => h.handle,
            ExportedResourceHandle::RayTracingAccelStruct(h) => h.handle,
        }
    }
}

/// Index of a raster pipeline registered in a render graph.
#[derive(Clone, Copy)]
pub struct GraphRasterPipelineHandle {
    pub idx: usize,
}

/// Index of a compute pipeline registered in a render graph.
#[derive(Clone, Copy)]
pub struct GraphComputePipelineHandle {
    pub idx: usize,
}

/// Index of a ray tracing pipeline registered in a render graph.
#[derive(Clone, Copy)]
pub struct GraphRayTracingPipelineHandle {
    pub idx: usize,
}

} // verus!
