//! The frames a device records ahead: which frame slot is current, and what each slot holds
//! back from destruction until the GPU is done with the frame that last used it.
use vstd::prelude::*;

use crate::buffer::Buffer;
use crate::pipeline_cache::DEVICE_DRAW_FRAMES;

verus! {

/// A descriptor pool, by its raw `VkDescriptorPool` handle.
#[derive(Clone, Copy, Debug, PartialEq, Eq, Structural)]
pub struct DescriptorPool {
    pub raw: u64,
}

/// What a frame slot destroys once the GPU has finished the frame that used the slot last.
pub struct DeferReleaseQueue {
    pub descriptor_pools: Vec<DescriptorPool>,
    pub buffers: Vec<Buffer>,
}

/// The contents of a release queue: its descriptor pools and its buffers, in the order they
/// were released.
pub type ReleaseQueueView = (Seq<DescriptorPool>, Seq<Buffer>);

impl View for DeferReleaseQueue {
    type V = ReleaseQueueView;

    open spec fn view(&self) -> ReleaseQueueView {
        (self.descriptor_pools@, self.buffers@)
    }
}

/// A release queue with nothing in it.
pub open spec fn spec_empty_queue() -> ReleaseQueueView {
    (Seq::empty(), Seq::empty())
}

impl DeferReleaseQueue {
    /// A queue with nothing to release.
    pub fn new() -> (queue: Self)
        ensures
            queue@ == spec_empty_queue(),
    {
        DeferReleaseQueue { descriptor_pools: Vec::new(), buffers: Vec::new() }
    }
}

/// A GPU object whose destruction can wait until the frames in flight are done with it.
pub trait DeferReleasableResource: Sized {
    /// The queue once this resource is added to `queue`.
    spec fn spec_enqueued(self, queue: ReleaseQueueView) -> ReleaseQueueView;

    /// Adds this resource to the queue.
    fn enqueue(self, queue: &mut DeferReleaseQueue)
        ensures
            final(queue)@ == self.spec_enqueued(old(queue)@),
    ;
}

impl DeferReleasableResource for DescriptorPool {
    open spec fn spec_enqueued(self, queue: ReleaseQueueView) -> ReleaseQueueView {
        (queue.0.push(self), queue.1)
    }

    fn enqueue(self, queue: &mut DeferReleaseQueue) {
        queue.descriptor_pools.push(self);
    }
}

impl DeferReleasableResource for Buffer {
    open spec fn spec_enqueued(self, queue: ReleaseQueueView) -> ReleaseQueueView {
        (queue.0, queue.1.push(self))
    }

    fn enqueue(self, queue: &mut DeferReleaseQueue) {
        queue.buffers.push(self);
    }
}

/// The frame slots of a device: the one being recorded, and for each slot the resources
/// released while it was current.
pub struct DeviceFrames {
    pub current_frame: u32,
    pub defer_release_resources: Vec<DeferReleaseQueue>,
}

/// The frame slots as values: the current slot, and the release queue of each slot.
pub type DeviceFramesView = (nat, Seq<ReleaseQueueView>);

impl View for DeviceFrames {
    type V = DeviceFramesView;

    open spec fn view(&self) -> DeviceFramesView {
        (self.current_frame as nat, self.defer_release_resources@.map_values(|q: DeferReleaseQueue| q@))
    }
}

/// Whether the frame slots are well formed: one queue per slot, and the current slot is one
/// of them.
pub open spec fn spec_frames_wf(v: DeviceFramesView) -> bool {
    &&& v.1.len() == DEVICE_DRAW_FRAMES
    &&& v.0 < DEVICE_DRAW_FRAMES
}

/// The slot after `frame`, round the ring of slots.
pub open spec fn spec_next_device_frame(frame: nat) -> nat {
    (frame + 1) % (DEVICE_DRAW_FRAMES as nat)
}

/// The slots once `resource` is released in the current one.
pub open spec fn spec_defer<R: DeferReleasableResource>(v: DeviceFramesView, resource: R) -> DeviceFramesView {
    (v.0, v.1.update(v.0 as int, resource.spec_enqueued(v.1[v.0 as int])))
}

/// The slots once a frame begins: the current slot's queue is handed out to be destroyed and
/// left empty.
pub open spec fn spec_begin_frame(v: DeviceFramesView) -> DeviceFramesView {
    (v.0, v.1.update(v.0 as int, spec_empty_queue()))
}

/// The slots once a frame ends: the next slot becomes current.
pub open spec fn spec_end_frame(v: DeviceFramesView) -> DeviceFramesView {
    (spec_next_device_frame(v.0), v.1)
}

impl DeviceFrames {
    /// Well formed, as `spec_frames_wf` says of its view.
    pub open spec fn spec_wf(&self) -> bool {
        spec_frames_wf(self@)
    }

    /// The slots of a new device: the first is current, and none holds anything back.
    pub fn new() -> (frames: Self)
        ensures
            frames.spec_wf(),
            frames@.0 == 0,
            forall|f: int| 0 <= f < DEVICE_DRAW_FRAMES ==> #[trigger] frames@.1[f] == spec_empty_queue(),
    {
        let mut queues: Vec<DeferReleaseQueue> = Vec::new();
        let mut f: usize = 0;
        while f < DEVICE_DRAW_FRAMES
            invariant
                f <= DEVICE_DRAW_FRAMES,
                queues@.len() == f,
                forall|g: int| 0 <= g < f ==> (#[trigger] queues@[g])@ == spec_empty_queue(),
            decreases DEVICE_DRAW_FRAMES - f,
        {
            queues.push(DeferReleaseQueue::new());
            f = f + 1;
        }
        DeviceFrames { current_frame: 0, defer_release_resources: queues }
    }

    /// The slot of the frame being recorded.
    pub fn get_device_frame_index(&self) -> (index: u32)
        ensures
            index == self@.0,
    {
        self.current_frame
    }

    /// Holds `resource` back until the current slot comes round again.
    pub fn defer_release<R: DeferReleasableResource>(&mut self, resource: R)
        requires
            old(self).spec_wf(),
        ensures
            final(self).spec_wf(),
            final(self)@ == spec_defer(old(self)@, resource),
    {
        let f = self.current_frame as usize;
        let mut queue = DeferReleaseQueue::new();
        self.defer_release_resources.set_and_swap(f, &mut queue);
        resource.enqueue(&mut queue);
        self.defer_release_resources.set_and_swap(f, &mut queue);
        proof {
            assert(self@.1 =~= spec_defer(old(self)@, resource).1);
        }
    }

    /// Begins a frame in the current slot: hands back what the slot held back, released while
    /// the slot was last current and now safe to destroy, and empties the slot.
    pub fn begin_frame(&mut self) -> (stale: DeferReleaseQueue)
        requires
            old(self).spec_wf(),
        ensures
            final(self).spec_wf(),
            stale@ == old(self)@.1[old(self)@.0 as int],
            final(self)@ == spec_begin_frame(old(self)@),
    {
        let f = self.current_frame as usize;
        let mut stale = DeferReleaseQueue::new();
        self.defer_release_resources.set_and_swap(f, &mut stale);
        proof {
            assert(self@.1 =~= spec_begin_frame(old(self)@).1);
        }
        stale
    }

    /// Ends the frame: the next slot becomes current.
    pub fn end_frame(&mut self)
        requires
            old(self).spec_wf(),
        ensures
            final(self).spec_wf(),
            final(self)@ == spec_end_frame(old(self)@),
    {
        self.current_frame = ((self.current_frame as usize + 1) % DEVICE_DRAW_FRAMES) as u32;
    }
}

/// The slots `k` frames later, each frame ended and the next begun, with nothing released in
/// between.
pub open spec fn spec_frames_later(v: DeviceFramesView, k: nat) -> DeviceFramesView
    decreases k,
{
    if k == 0 {
        v
    } else {
        spec_begin_frame(spec_end_frame(spec_frames_later(v, (k - 1) as nat)))
    }
}

/// What the frame begun `k` frames later (`k >= 1`) hands out to destroy.
pub open spec fn spec_released_later(v: DeviceFramesView, k: nat) -> ReleaseQueueView {
    let before = spec_end_frame(spec_frames_later(v, (k - 1) as nat));
    before.1[before.0 as int]
}

/// The slot index goes round the ring: `k` frames later the current slot is `k` slots on, and
/// every slot is handed out once in `DEVICE_DRAW_FRAMES` frames. What the current slot holds
/// (all that was released during this frame) is handed out `DEVICE_DRAW_FRAMES` frames later,
/// when the slot comes round again, and the frames in between hand out the other slots.
pub proof fn lemma_released_when_slot_comes_round(v: DeviceFramesView, k: nat)
    requires
        spec_frames_wf(v),
        1 <= k <= DEVICE_DRAW_FRAMES,
    ensures
        spec_frames_later(v, k).0 == (v.0 + k) % (DEVICE_DRAW_FRAMES as nat),
        spec_frames_wf(spec_frames_later(v, k)),
        spec_released_later(v, k) == v.1[((v.0 + k) % (DEVICE_DRAW_FRAMES as nat)) as int],
        k < DEVICE_DRAW_FRAMES ==> (v.0 + k) % (DEVICE_DRAW_FRAMES as nat) != v.0,
        k == DEVICE_DRAW_FRAMES ==> spec_released_later(v, k) == v.1[v.0 as int],
{
    let n = DEVICE_DRAW_FRAMES as nat;
    let s1 = spec_frames_later(v, 1);
    assert(spec_frames_later(v, 0) == v);
    assert(s1 == spec_begin_frame(spec_end_frame(v)));
    if k == 2 {
        assert(spec_frames_later(v, 2) == spec_begin_frame(spec_end_frame(s1)));
        assert(s1.1[v.0 as int] == v.1[v.0 as int]);
        assert((v.0 + 2) % n == v.0);
    }
}

/// A new device's frame slot after `k` frames is `k` round the ring of slots.
pub proof fn lemma_frame_index_from_start(v: DeviceFramesView, k: nat)
    requires
        spec_frames_wf(v),
        v.0 == 0,
    ensures
        spec_frames_later(v, k).0 == k % (DEVICE_DRAW_FRAMES as nat),
        spec_frames_wf(spec_frames_later(v, k)),
    decreases k,
{
    if k > 0 {
        lemma_frame_index_from_start(v, (k - 1) as nat);
        let p = spec_frames_later(v, (k - 1) as nat);
        assert(spec_frames_later(v, k).0 == spec_next_device_frame(p.0));
        assert(((k - 1) % 2 + 1) % 2 == k % 2) by (nonlinear_arith)
            requires
                k >= 1,
        ;
    }
}

} // verus!
