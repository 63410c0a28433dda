//! What a pass hands its pipelines: the resources bound to each descriptor set, and the
//! workgroup counts of a compute dispatch.
use vstd::prelude::*;

use crate::buffer::Buffer;
use crate::graph_resource::{GraphResourceHandle, GraphResourceRef};
use crate::image::{spec_default_view_desc, Image, ImageViewDesc};
use crate::ray_tracing::RayTracingAccelerationStructure;
use crate::resource::{Srv, Uav};
use crate::vk;

verus! {

/// An image bound to a descriptor: the graph resource, the view of it, and the layout it is in.
#[derive(Clone, Copy, Debug, PartialEq, Eq, Structural)]
pub struct PassImageBinding {
    pub handle: GraphResourceHandle,
    pub view_desc: ImageViewDesc,
    /// `VkImageLayout` value.
    pub layout: i32,
}

/// A buffer bound to a descriptor.
#[derive(Clone, Copy, Debug, PartialEq, Eq, Structural)]
pub struct PassBufferBinding {
    pub handle: GraphResourceHandle,
}

/// An acceleration structure bound to a descriptor.
#[derive(Clone, Copy, Debug, PartialEq, Eq, Structural)]
pub struct PassRayTracingAccelStructBinding {
    pub handle: GraphResourceHandle,
}

/// What a pass binds to one descriptor.
pub enum RenderGraphPassBinding {
    Image(PassImageBinding),
    ImageArray(Vec<PassImageBinding>),
    Buffer(PassBufferBinding),
    RayTracingAccelStruct(PassRayTracingAccelStructBinding),
    /// A uniform buffer at this offset of the global dynamic buffer.
    DynamicBuffer(u32),
    /// A storage buffer at this offset of the global dynamic buffer.
    DynamicStorageBuffer(u32),
}

/// Whether a binding binds images.
pub open spec fn spec_binds_images(b: RenderGraphPassBinding) -> bool {
    b is Image || b is ImageArray
}

/// A view description with the given fields replaced.
pub open spec fn spec_updated_view(
    v: ImageViewDesc,
    aspect: Option<u32>,
    base: Option<u32>,
    level_count: Option<u32>,
    view_type: Option<i32>,
) -> ImageViewDesc {
    ImageViewDesc {
        aspect_mask: match aspect {
            Some(a) => a,
            None => v.aspect_mask,
        },
        base_mip_level: match base {
            Some(b) => b,
            None => v.base_mip_level,
        },
        level_count: match level_count {
            Some(c) => Some(c),
            None => v.level_count,
        },
        view_type: match view_type {
            Some(t) => Some(t),
            None => v.view_type,
        },
        ..v
    }
}

/// An image binding with the given fields of its view replaced.
pub open spec fn spec_updated_image(
    i: PassImageBinding,
    aspect: Option<u32>,
    base: Option<u32>,
    level_count: Option<u32>,
    view_type: Option<i32>,
) -> PassImageBinding {
    PassImageBinding { view_desc: spec_updated_view(i.view_desc, aspect, base, level_count, view_type), ..i }
}

/// A binding with the given fields of the view of every bound image replaced.
pub open spec fn spec_updated_binding(
    old: RenderGraphPassBinding,
    new: RenderGraphPassBinding,
    aspect: Option<u32>,
    base: Option<u32>,
    level_count: Option<u32>,
    view_type: Option<i32>,
) -> bool {
    match old {
        RenderGraphPassBinding::Image(i) => new == RenderGraphPassBinding::Image(
            spec_updated_image(i, aspect, base, level_count, view_type),
        ),
        RenderGraphPassBinding::ImageArray(v) => match new {
            RenderGraphPassBinding::ImageArray(w) => w@ == v@.map_values(
                |x: PassImageBinding| spec_updated_image(x, aspect, base, level_count, view_type),
            ),
            _ => false,
        },
        _ => false,
    }
}

/// The images with the given fields of each view replaced.
fn map_views(
    images: Vec<PassImageBinding>,
    aspect: Option<u32>,
    base: Option<u32>,
    level_count: Option<u32>,
    view_type: Option<i32>,
) -> (res: Vec<PassImageBinding>)
    ensures
        res@ == images@.map_values(
            |x: PassImageBinding| spec_updated_image(x, aspect, base, level_count, view_type),
        ),
{
    let mut res: Vec<PassImageBinding> = Vec::new();
    let mut i: usize = 0;
    while i < images.len()
        invariant
            i <= images@.len(),
            res@ == images@.take(i as int).map_values(
                |x: PassImageBinding| spec_updated_image(x, aspect, base, level_count, view_type),
            ),
        decreases images@.len() - i,
    {
        let img = images[i];
        let mut view_desc = img.view_desc;
        match aspect {
            Some(a) => {
                view_desc.aspect_mask = a;
            },
            None => {},
        }
        match base {
            Some(b) => {
                view_desc.base_mip_level = b;
            },
            None => {},
        }
        match level_count {
            Some(c) => {
                view_desc.level_count = Some(c);
            },
            None => {},
        }
        match view_type {
            Some(t) => {
                view_desc.view_type = Some(t);
            },
            None => {},
        }
        res.push(PassImageBinding { view_desc, ..img });
        proof {
            assert(images@.take(i + 1) =~= images@.take(i as int).push(img));
            assert(res@ =~= images@.take(i + 1).map_values(
                |x: PassImageBinding| spec_updated_image(x, aspect, base, level_count, view_type),
            ));
        }
        i = i + 1;
    }
    proof {
        assert(images@.take(images@.len() as int) =~= images@);
    }
    res
}

impl RenderGraphPassBinding {
    /// Views every bound image through the given aspects.
    pub fn with_aspect(&mut self, aspect: u32)
        requires
            spec_binds_images(*old(self)),
        ensures
            spec_updated_binding(*old(self), *final(self), Some(aspect), None, None, None),
    {
        self.update_views(Some(aspect), None, None, None);
    }

    /// Views every bound image from the given mip level on.
    pub fn with_base_mipmap_level(&mut self, base_level: u16)
        requires
            spec_binds_images(*old(self)),
        ensures
            spec_updated_binding(*old(self), *final(self), None, Some(base_level as u32), None, None),
    {
        self.update_views(None, Some(base_level as u32), None, None);
    }

    /// Views this many mip levels of every bound image.
    pub fn with_mipmap_level_count(&mut self, level_count: u32)
        requires
            spec_binds_images(*old(self)),
        ensures
            spec_updated_binding(*old(self), *final(self), None, None, Some(level_count), None),
    {
        self.update_views(None, None, Some(level_count), None);
    }

    /// Views every bound image as the given `VkImageViewType`.
    pub fn with_image_view(&mut self, view: i32)
        requires
            spec_binds_images(*old(self)),
        ensures
            spec_updated_binding(*old(self), *final(self), None, None, None, Some(view)),
    {
        self.update_views(None, None, None, Some(view));
    }

    fn update_views(
        &mut self,
        aspect: Option<u32>,
        base: Option<u32>,
        level_count: Option<u32>,
        view_type: Option<i32>,
    )
        requires
            spec_binds_images(*old(self)),
        ensures
            spec_updated_binding(*old(self), *final(self), aspect, base, level_count, view_type),
    {
        let mut taken = RenderGraphPassBinding::DynamicBuffer(0);
        std::mem::swap(&mut taken, self);
        let updated = match taken {
            RenderGraphPassBinding::Image(img) => {
                let mut images: Vec<PassImageBinding> = Vec::new();
                images.push(img);
                let mut mapped = map_views(images, aspect, base, level_count, view_type);
                let one = mapped.pop().unwrap();
                RenderGraphPassBinding::Image(one)
            },
            RenderGraphPassBinding::ImageArray(images) => RenderGraphPassBinding::ImageArray(
                map_views(images, aspect, base, level_count, view_type),
            ),
            other => other,
        };
        *self = updated;
    }
}

/// Things a pass can bind to a descriptor.
pub trait RenderGraphPassBindable {
    /// What this binds to a descriptor.
    spec fn spec_bind(&self) -> RenderGraphPassBinding;

    fn bind(&self) -> (b: RenderGraphPassBinding)
        ensures
            b == self.spec_bind(),
    ;
}

impl RenderGraphPassBindable for GraphResourceRef<Buffer, Srv> {
    /// A buffer binding of the referenced buffer.
    open spec fn spec_bind(&self) -> RenderGraphPassBinding {
        RenderGraphPassBinding::Buffer(PassBufferBinding { handle: self.handle })
    }

    fn bind(&self) -> (b: RenderGraphPassBinding) {
        RenderGraphPassBinding::Buffer(PassBufferBinding { handle: self.handle })
    }
}

impl RenderGraphPassBindable for GraphResourceRef<Buffer, Uav> {
    /// A buffer binding of the referenced buffer.
    open spec fn spec_bind(&self) -> RenderGraphPassBinding {
        RenderGraphPassBinding::Buffer(PassBufferBinding { handle: self.handle })
    }

    fn bind(&self) -> (b: RenderGraphPassBinding) {
        RenderGraphPassBinding::Buffer(PassBufferBinding { handle: self.handle })
    }
}

impl RenderGraphPassBindable for GraphResourceRef<Image, Srv> {
    /// The referenced image through its default view, read only and sampled.
    open spec fn spec_bind(&self) -> RenderGraphPassBinding {
        RenderGraphPassBinding::Image(
            PassImageBinding {
                handle: self.handle,
                view_desc: spec_default_view_desc(),
                layout: vk::IMAGE_LAYOUT_SHADER_READ_ONLY_OPTIMAL,
            },
        )
    }

    fn bind(&self) -> (b: RenderGraphPassBinding) {
        RenderGraphPassBinding::Image(
            PassImageBinding {
                handle: self.handle,
                view_desc: ImageViewDesc::default(),
                layout: vk::IMAGE_LAYOUT_SHADER_READ_ONLY_OPTIMAL,
            },
        )
    }
}

impl RenderGraphPassBindable for GraphResourceRef<Image, Uav> {
    /// The referenced image through its default view, in the general layout for storage.
    open spec fn spec_bind(&self) -> RenderGraphPassBinding {
        RenderGraphPassBinding::Image(
            PassImageBinding { handle: self.handle, view_desc: spec_default_view_desc(), layout: vk::IMAGE_LAYOUT_GENERAL },
        )
    }

    fn bind(&self) -> (b: RenderGraphPassBinding) {
        RenderGraphPassBinding::Image(
            PassImageBinding {
                handle: self.handle,
                view_desc: ImageViewDesc::default(),
                layout: vk::IMAGE_LAYOUT_GENERAL,
            },
        )
    }
}

impl RenderGraphPassBindable for GraphResourceRef<RayTracingAccelerationStructure, Srv> {
    /// An acceleration structure binding of the referenced structure.
    open spec fn spec_bind(&self) -> RenderGraphPassBinding {
        RenderGraphPassBinding::RayTracingAccelStruct(PassRayTracingAccelStructBinding { handle: self.handle })
    }

    fn bind(&self) -> (b: RenderGraphPassBinding) {
        RenderGraphPassBinding::RayTracingAccelStruct(PassRayTracingAccelStructBinding { handle: self.handle })
    }
}

/// Binds images that a pass reads, each through its default view, as sampled images.
pub fn bind_read_images(refs: &Vec<GraphResourceRef<Image, Srv>>) -> (b: RenderGraphPassBinding)
    ensures
        b matches RenderGraphPassBinding::ImageArray(v) && v@.len() == refs@.len() && forall|i: int|
            0 <= i < refs@.len() ==> #[trigger] v@[i] == (PassImageBinding {
                handle: refs@[i].handle,
                view_desc: spec_default_view_desc(),
                layout: vk::IMAGE_LAYOUT_SHADER_READ_ONLY_OPTIMAL,
            }),
{
    let mut v: Vec<PassImageBinding> = Vec::new();
    let mut i: usize = 0;
    while i < refs.len()
        invariant
            i <= refs@.len(),
            v@.len() == i,
            forall|k: int|
                0 <= k < i ==> #[trigger] v@[k] == (PassImageBinding {
                    handle: refs@[k].handle,
                    view_desc: spec_default_view_desc(),
                    layout: vk::IMAGE_LAYOUT_SHADER_READ_ONLY_OPTIMAL,
                }),
        decreases refs@.len() - i,
    {
        v.push(
            PassImageBinding {
                handle: refs[i].handle,
                view_desc: ImageViewDesc::default(),
                layout: vk::IMAGE_LAYOUT_SHADER_READ_ONLY_OPTIMAL,
            },
        );
        i = i + 1;
    }
    RenderGraphPassBinding::ImageArray(v)
}

/// Binds images that a pass writes, each through its default view, as storage images.
pub fn bind_written_images(refs: &Vec<GraphResourceRef<Image, Uav>>) -> (b: RenderGraphPassBinding)
    ensures
        b matches RenderGraphPassBinding::ImageArray(v) && v@.len() == refs@.len() && forall|i: int|
            0 <= i < refs@.len() ==> #[trigger] v@[i] == (PassImageBinding {
                handle: refs@[i].handle,
                view_desc: spec_default_view_desc(),
                layout: vk::IMAGE_LAYOUT_GENERAL,
            }),
{
    let mut v: Vec<PassImageBinding> = Vec::new();
    let mut i: usize = 0;
    while i < refs.len()
        invariant
            i <= refs@.len(),
            v@.len() == i,
            forall|k: int|
                0 <= k < i ==> #[trigger] v@[k] == (PassImageBinding {
                    handle: refs@[k].handle,
                    view_desc: spec_default_view_desc(),
                    layout: vk::IMAGE_LAYOUT_GENERAL,
                }),
        decreases refs@.len() - i,
    {
        v.push(
            PassImageBinding {
                handle: refs[i].handle,
                view_desc: ImageViewDesc::default(),
                layout: vk::IMAGE_LAYOUT_GENERAL,
            },
        );
        i = i + 1;
    }
    RenderGraphPassBinding::ImageArray(v)
}

/// The number of workgroups that covers `threads` in each dimension, for workgroups of
/// `dispatch_groups` threads: each count rounded up.
pub fn dispatch_group_counts(threads: [u32; 3], dispatch_groups: [u32; 3]) -> (counts: [u32; 3])
    requires
        forall|i: int| 0 <= i < 3 ==> dispatch_groups[i] > 0 && threads[i] + dispatch_groups[i] <= u32::MAX,
    ensures
        forall|i: int|
            0 <= i < 3 ==> #[trigger] counts[i] == (threads[i] + dispatch_groups[i] - 1) / (dispatch_groups[i] as int),
{
    let x = (threads[0] + dispatch_groups[0] - 1) / dispatch_groups[0];
    let y = (threads[1] + dispatch_groups[1] - 1) / dispatch_groups[1];
    let z = (threads[2] + dispatch_groups[2] - 1) / dispatch_groups[2];
    let counts = [x, y, z];
    proof {
        assert forall|i: int| 0 <= i < 3 implies #[trigger] counts[i] == (threads[i] + dispatch_groups[i] - 1) / (
        dispatch_groups[i] as int) by {
            if i == 0 {
            } else if i == 1 {
            } else {
            }
        }
    }
    counts
}

} // verus!
