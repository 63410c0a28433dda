//! The kinds of resources a render graph holds, and the markers of how passes view them.
use vstd::prelude::*;

use crate::buffer::{Buffer, BufferDesc};
use crate::ray_tracing::RayTracingAccelerationStructure;
use crate::graph_resource::GraphResourceDesc;
use crate::image::{Image, ImageDesc};

verus! {

/// Description of a ray tracing acceleration structure; it carries no data.
#[derive(Copy, Clone, Debug, PartialEq, Eq, Structural)]
pub struct RayTracingAccelStructDesc;

/// Converts a value into a type that the compiler only knows to be equal to its own.
pub trait TypeEqualTo: Sized {
    type Other;

    /// The value as the other type.
    spec fn spec_same(v: Self) -> Self::Other;

    fn same(v: Self) -> (r: Self::Other)
        ensures
            r == Self::spec_same(v),
    ;
}

impl<T: Sized> TypeEqualTo for T {
    type Other = T;

    /// The value itself.
    open spec fn spec_same(v: Self) -> Self::Other {
        v
    }

    fn same(v: Self) -> (r: Self::Other) {
        v
    }
}

/// Any GPU resource the render graph can hold.
pub trait Resource {
    /// The description of such a resource; each of them is the `ResourceDesc` of its resource.
    type Desc: Clone + Copy + std::fmt::Debug;
}

impl Resource for Buffer {
    type Desc = BufferDesc;
}

impl Resource for Image {
    type Desc = ImageDesc;
}

impl Resource for RayTracingAccelerationStructure {
    type Desc = RayTracingAccelStructDesc;
}

/// Any description of a GPU resource.
pub trait ResourceDesc: Clone + Copy + Into<GraphResourceDesc> + std::fmt::Debug {
    type Resource: Resource;

    /// The graph's description of a resource of this description.
    spec fn spec_graph_desc(self) -> GraphResourceDesc;

    /// The graph's description of a resource of this description.
    fn graph_desc(self) -> (d: GraphResourceDesc)
        ensures
            d == self.spec_graph_desc(),
    ;
}

impl ResourceDesc for BufferDesc {
    type Resource = Buffer;

    open spec fn spec_graph_desc(self) -> GraphResourceDesc {
        GraphResourceDesc::Buffer(self)
    }

    fn graph_desc(self) -> (d: GraphResourceDesc) {
        self.into()
    }
}

impl ResourceDesc for ImageDesc {
    type Resource = Image;

    open spec fn spec_graph_desc(self) -> GraphResourceDesc {
        GraphResourceDesc::Image(self)
    }

    fn graph_desc(self) -> (d: GraphResourceDesc) {
        self.into()
    }
}

impl ResourceDesc for RayTracingAccelStructDesc {
    type Resource = RayTracingAccelerationStructure;

    open spec fn spec_graph_desc(self) -> GraphResourceDesc {
        GraphResourceDesc::RayTracingAccelStruct(self)
    }

    fn graph_desc(self) -> (d: GraphResourceDesc) {
        self.into()
    }
}

impl From<ImageDesc> for GraphResourceDesc {
    fn from(desc: ImageDesc) -> (res: GraphResourceDesc) {
        GraphResourceDesc::Image(desc)
    }
}

impl vstd::std_specs::convert::FromSpecImpl<ImageDesc> for GraphResourceDesc {
    open spec fn obeys_from_spec() -> bool {
        true
    }

    open spec fn from_spec(desc: ImageDesc) -> GraphResourceDesc {
        GraphResourceDesc::Image(desc)
    }
}

impl From<BufferDesc> for GraphResourceDesc {
    fn from(desc: BufferDesc) -> (res: GraphResourceDesc) {
        GraphResourceDesc::Buffer(desc)
    }
}

impl vstd::std_specs::convert::FromSpecImpl<BufferDesc> for GraphResourceDesc {
    open spec fn obeys_from_spec() -> bool {
        true
    }

    open spec fn from_spec(desc: BufferDesc) -> GraphResourceDesc {
        GraphResourceDesc::Buffer(desc)
    }
}

impl From<RayTracingAccelStructDesc> for GraphResourceDesc {
    fn from(desc: RayTracingAccelStructDesc) -> (res: GraphResourceDesc) {
        GraphResourceDesc::RayTracingAccelStruct(desc)
    }
}

impl vstd::std_specs::convert::FromSpecImpl<RayTracingAccelStructDesc> for GraphResourceDesc {
    open spec fn obeys_from_spec() -> bool {
        true
    }

    open spec fn from_spec(desc: RayTracingAccelStructDesc) -> GraphResourceDesc {
        GraphResourceDesc::RayTracingAccelStruct(desc)
    }
}

/// Shader resource view: the pass reads the resource.
pub struct Srv;

/// Unordered access view: the pass writes the resource.
pub struct Uav;

/// Render target: the pass uses the resource as an attachment.
pub struct Rt;

/// Marks how a pass views a resource.
pub trait ResourceView {
    /// Whether the view lets the pass write the resource.
    fn is_writable() -> (res: bool);
}

impl ResourceView for Srv {
    fn is_writable() -> (res: bool)
        ensures
            !res,
    {
        false
    }
}

impl ResourceView for Uav {
    fn is_writable() -> (res: bool)
        ensures
            res,
    {
        true
    }
}

impl ResourceView for Rt {
    fn is_writable() -> (res: bool)
        ensures
            res,
    {
        true
    }
}

} // verus!
