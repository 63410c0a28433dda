//! A render graph whose frame is recorded: the final accesses of its resources, and the
//! resources it created, to be cached for the next frame.
use vstd::prelude::*;

use crate::barrier::AccessType;
use crate::compiled_graph::{GraphPreparedResource, RegisteredResource};
use crate::graph_resource::ExportedHandle;
use crate::resource::Resource;
use crate::transient_resource_cache::TransientResourceCache;
use crate::image::{Image, ImageDesc};
use crate::buffer::{Buffer, BufferDesc};

verus! {

/// A render graph whose frame is recorded.
pub struct RetiredRenderGraph {
    pub registered_resources: Vec<RegisteredResource>,
}

impl RetiredRenderGraph {
    /// The access an exported resource ended the frame in.
    pub fn get_exported_resource_access<Res: Resource>(&self, handle: ExportedHandle<Res>) -> (access:
        AccessType)
        requires
            (handle.handle.id as int) < self.registered_resources@.len(),
        ensures
            access == self.registered_resources@[handle.handle.id as int].access,
    {
        self.registered_resources[handle.handle.id as usize].get_current_access()
    }

    /// Stores every image and buffer the graph created in the cache, in the order the graph
    /// registered them, so that the next frame can reuse them; imported resources stay with
    /// their owners.
    pub fn release_owned_resources(self, cache: &mut TransientResourceCache)
        requires
            old(cache).spec_wf(),
            forall|i: int|
                0 <= i < self.registered_resources@.len() ==> !((
                #[trigger] self.registered_resources@[i]).resource is Delayed),
        ensures
            final(cache).spec_wf(),
            forall|d: ImageDesc|
                #[trigger] final(cache).spec_images(d) == old(cache).spec_images(d) + spec_created_images(
                    self.registered_resources@,
                    d,
                ),
            forall|d: BufferDesc|
                #[trigger] final(cache).spec_buffers(d) == old(cache).spec_buffers(d) + spec_created_buffers(
                    self.registered_resources@,
                    d,
                ),
    {
        let ghost all = self.registered_resources@;
        let ghost start = *cache;
        let mut resources = self.registered_resources;
        let n = resources.len();
        let mut k: usize = 0;
        proof {
            assert(all.take(0) =~= Seq::<RegisteredResource>::empty());
            assert(resources@ =~= all.skip(0));
            assert forall|d: ImageDesc| #[trigger] cache.spec_images(d) == start.spec_images(d) + spec_created_images(all.take(0), d) by {
                assert(start.spec_images(d) + Seq::<Image>::empty() =~= start.spec_images(d));
            }
            assert forall|d: BufferDesc| #[trigger] cache.spec_buffers(d) == start.spec_buffers(d) + spec_created_buffers(all.take(0), d) by {
                assert(start.spec_buffers(d) + Seq::<Buffer>::empty() =~= start.spec_buffers(d));
            }
        }
        while k < n
            invariant
                n == all.len(),
                k <= n,
                resources@ == all.skip(k as int),
                cache.spec_wf(),
                forall|i: int| 0 <= i < n ==> !((#[trigger] all[i]).resource is Delayed),
                forall|d: ImageDesc|
                    #[trigger] cache.spec_images(d) == start.spec_images(d) + spec_created_images(
                        all.take(k as int),
                        d,
                    ),
                forall|d: BufferDesc|
                    #[trigger] cache.spec_buffers(d) == start.spec_buffers(d) + spec_created_buffers(
                        all.take(k as int),
                        d,
                    ),
            decreases n - k,
        {
            let res = resources.remove(0);
            proof {
                assert(res == all[k as int]);
                assert(all.skip(k as int).remove(0) =~= all.skip(k + 1));
                assert(all.take(k + 1).drop_last() =~= all.take(k as int));
                assert(all.take(k + 1).last() == all[k as int]);
            }
            let ghost before = *cache;
            match res.resource {
                GraphPreparedResource::CreatedImage(image) => {
                    cache.store_image(image);
                    proof {
                        assert forall|d: ImageDesc| #[trigger] cache.spec_images(d) == start.spec_images(d)
                            + spec_created_images(all.take(k + 1), d) by {
                            if d == image.desc {
                                assert(before.spec_images(d).push(image) =~= start.spec_images(d)
                                    + spec_created_images(all.take(k as int), d).push(image));
                            }
                        }
                    }
                },
                GraphPreparedResource::CreatedBuffer(buffer) => {
                    cache.store_buffer(buffer);
                    proof {
                        assert forall|d: BufferDesc| #[trigger] cache.spec_buffers(d) == start.spec_buffers(d)
                            + spec_created_buffers(all.take(k + 1), d) by {
                            if d == buffer.desc {
                                assert(before.spec_buffers(d).push(buffer) =~= start.spec_buffers(d)
                                    + spec_created_buffers(all.take(k as int), d).push(buffer));
                            }
                        }
                    }
                },
                _ => {},
            }
            k = k + 1;
        }
        proof {
            assert(all.take(n as int) =~= all);
        }
    }
}

/// The images the graph created with description `d`, in the order it registered them.
pub open spec fn spec_created_images(regs: Seq<RegisteredResource>, d: ImageDesc) -> Seq<Image>
    decreases regs.len(),
{
    if regs.len() == 0 {
        Seq::empty()
    } else {
        let prev = spec_created_images(regs.drop_last(), d);
        match regs.last().resource {
            GraphPreparedResource::CreatedImage(image) => if image.desc == d {
                prev.push(image)
            } else {
                prev
            },
            _ => prev,
        }
    }
}

/// The buffers the graph created with description `d`, in the order it registered them.
pub open spec fn spec_created_buffers(regs: Seq<RegisteredResource>, d: BufferDesc) -> Seq<Buffer>
    decreases regs.len(),
{
    if regs.len() == 0 {
        Seq::empty()
    } else {
        let prev = spec_created_buffers(regs.drop_last(), d);
        match regs.last().resource {
            GraphPreparedResource::CreatedBuffer(buffer) => if buffer.desc == d {
                prev.push(buffer)
            } else {
                prev
            },
            _ => prev,
        }
    }
}

} // verus!
