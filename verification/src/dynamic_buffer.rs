//! The global dynamic buffer: per-frame constants pushed into one host-visible buffer, each
//! frame in its own region, at offsets the GPU accepts for uniform and storage buffers.
use vstd::prelude::*;

use crate::buffer::Buffer;
use crate::math::{min_value_align_to, spec_align_up};

verus! {

/// Bytes of the region of one frame.
pub const MAX_DYNAMIC_BUFFER_SIZE_BYTES: usize = 16777216;

/// Number of frame regions.
pub const MAX_DYNAMIC_BUFFER_FRAME_COUNT: usize = 2;

/// A host-visible buffer with one region per frame in flight; values are pushed one after the
/// other into the region of the current frame, each at an offset aligned for uniform and
/// storage buffer bindings.
pub struct DynamicBuffer {
    pub buffer: Buffer,
    /// Offset of the value pushed last, kept so that it can be bound again.
    pub prev_offset_bytes: u32,
    /// Bytes used in the current frame's region; always a multiple of `alignment`.
    pub current_offset_bytes: u32,
    pub current_frame: u32,
    pub alignment: u32,
    pub max_uniform_buffer_range: u32,
    pub max_storage_buffer_range: u32,
}

impl DynamicBuffer {
    /// Offset of the value pushed last.
    pub open spec fn spec_prev_offset(&self) -> u32 {
        self.prev_offset_bytes
    }

    /// Bytes used in the current frame's region.
    pub open spec fn spec_used(&self) -> u32 {
        self.current_offset_bytes
    }

    /// The current frame region.
    pub open spec fn spec_frame(&self) -> u32 {
        self.current_frame
    }

    /// The alignment of every pushed value.
    pub open spec fn spec_alignment(&self) -> u32 {
        self.alignment
    }

    pub open spec fn spec_max_uniform_buffer_range(&self) -> u32 {
        self.max_uniform_buffer_range
    }

    pub open spec fn spec_max_storage_buffer_range(&self) -> u32 {
        self.max_storage_buffer_range
    }

    /// Whether the buffer is sound: a frame region that exists, and a nonzero alignment.
    pub open spec fn spec_wf(&self) -> bool {
        &&& self.spec_frame() < MAX_DYNAMIC_BUFFER_FRAME_COUNT
        &&& self.spec_alignment() > 0
    }

    /// Where the next value goes: the start of the current frame's region plus the bytes used
    /// in it.
    pub open spec fn spec_current_offset(&self) -> int {
        self.spec_frame() * MAX_DYNAMIC_BUFFER_SIZE_BYTES + self.spec_used()
    }

    /// A dynamic buffer over `buffer`, which holds `MAX_DYNAMIC_BUFFER_FRAME_COUNT` regions of
    /// `MAX_DYNAMIC_BUFFER_SIZE_BYTES`; values are aligned to the larger of the device's minimum
    /// uniform and storage buffer offset alignments.
    pub fn new(
        buffer: Buffer,
        min_uniform_buffer_offset_alignment: u64,
        min_storage_buffer_offset_alignment: u64,
        max_uniform_buffer_range: u32,
        max_storage_buffer_range: u32,
    ) -> (res: Self)
        requires
            0 < min_uniform_buffer_offset_alignment <= u32::MAX,
            0 < min_storage_buffer_offset_alignment <= u32::MAX,
        ensures
            res.spec_wf(),
            res.buffer == buffer,
            res.spec_prev_offset() == 0,
            res.spec_used() == 0,
            res.spec_frame() == 0,
            res.spec_alignment() == (if min_uniform_buffer_offset_alignment >= min_storage_buffer_offset_alignment {
                min_uniform_buffer_offset_alignment
            } else {
                min_storage_buffer_offset_alignment
            }),
            res.spec_max_uniform_buffer_range() == max_uniform_buffer_range,
            res.spec_max_storage_buffer_range() == max_storage_buffer_range,
    {
        let alignment = if min_uniform_buffer_offset_alignment >= min_storage_buffer_offset_alignment {
            min_uniform_buffer_offset_alignment
        } else {
            min_storage_buffer_offset_alignment
        };
        DynamicBuffer {
            buffer,
            prev_offset_bytes: 0,
            current_offset_bytes: 0,
            current_frame: 0,
            alignment: alignment as u32,
            max_uniform_buffer_range,
            max_storage_buffer_range,
        }
    }

    /// The largest range a uniform buffer binding may have.
    pub fn max_uniform_buffer_range(&self) -> (range: u32)
        ensures
            range == self.spec_max_uniform_buffer_range(),
    {
        self.max_uniform_buffer_range
    }

    /// The largest range a storage buffer binding may have.
    pub fn max_storage_buffer_range(&self) -> (range: u32)
        ensures
            range == self.spec_max_storage_buffer_range(),
    {
        self.max_storage_buffer_range
    }

    /// Moves on to the next frame's region, which starts empty.
    pub fn advance_frame(&mut self)
        requires
            old(self).spec_wf(),
        ensures
            final(self).spec_wf(),
            final(self).spec_frame() == (old(self).spec_frame() + 1) % (MAX_DYNAMIC_BUFFER_FRAME_COUNT as int),
            final(self).spec_prev_offset() == 0,
            final(self).spec_used() == 0,
            final(self).spec_alignment() == old(self).spec_alignment(),
            final(self).buffer == old(self).buffer,
            final(self).spec_max_uniform_buffer_range() == old(self).spec_max_uniform_buffer_range(),
            final(self).spec_max_storage_buffer_range() == old(self).spec_max_storage_buffer_range(),
    {
        self.current_frame = (self.current_frame + 1) % (MAX_DYNAMIC_BUFFER_FRAME_COUNT as u32);
        self.prev_offset_bytes = 0;
        self.current_offset_bytes = 0;
    }

    /// Where the next value goes in the buffer.
    pub fn current_offset(&self) -> (offset: u32)
        requires
            self.spec_wf(),
            self.spec_used() <= MAX_DYNAMIC_BUFFER_SIZE_BYTES,
        ensures
            offset == self.spec_current_offset(),
    {
        assert(self.current_frame * 16777216 <= 16777216);
        self.current_frame * 16777216u32 + self.current_offset_bytes
    }

    /// Offset of the value pushed last.
    pub fn previous_pushed_data_offset(&self) -> (offset: u32)
        ensures
            offset == self.spec_prev_offset(),
    {
        self.prev_offset_bytes
    }

    /// Makes room for a value of `t_size` bytes in the current frame's region, and returns the
    /// offset in the buffer where the value is written. The next value goes after it, at the
    /// next multiple of the alignment.
    pub fn push(&mut self, t_size: usize) -> (offset: u32)
        requires
            old(self).spec_wf(),
            old(self).spec_used() + t_size <= MAX_DYNAMIC_BUFFER_SIZE_BYTES,
            t_size + old(self).spec_alignment() <= usize::MAX,
            old(self).spec_used() + spec_align_up(t_size as int, old(self).spec_alignment() as int) <= u32::MAX,
        ensures
            final(self).spec_wf(),
            offset == old(self).spec_current_offset(),
            final(self).spec_prev_offset() == offset,
            final(self).spec_used() == old(self).spec_used() + spec_align_up(
                t_size as int,
                old(self).spec_alignment() as int,
            ),
            final(self).spec_frame() == old(self).spec_frame(),
            final(self).spec_alignment() == old(self).spec_alignment(),
            final(self).buffer == old(self).buffer,
            final(self).spec_max_uniform_buffer_range() == old(self).spec_max_uniform_buffer_range(),
            final(self).spec_max_storage_buffer_range() == old(self).spec_max_storage_buffer_range(),
    {
        let curr_offset = self.current_offset();
        self.prev_offset_bytes = curr_offset;
        proof {
            crate::math::lemma_align_up(t_size as int, self.alignment as int);
        }
        let aligned = min_value_align_to(t_size, self.alignment as usize);
        self.current_offset_bytes = self.current_offset_bytes + aligned as u32;
        curr_offset
    }

    /// Makes room for `count` values of `t_size` bytes, each starting at a multiple of
    /// `t_align` after the first, in the current frame's region, which must hold them all, and
    /// returns the offset in the buffer where the first is written. The next value goes after them, at the next multiple
    /// of the alignment.
    pub fn push_from_iter(&mut self, count: usize, t_size: usize, t_align: usize) -> (offset: u32)
        requires
            old(self).spec_wf(),
            t_align > 0,
            t_size + t_align <= usize::MAX,
            old(self).spec_used() + t_size <= MAX_DYNAMIC_BUFFER_SIZE_BYTES,
            count > 0 ==> old(self).spec_used() + (count - 1) * spec_align_up(t_size as int, t_align as int) + t_size
                <= MAX_DYNAMIC_BUFFER_SIZE_BYTES,
            (old(self).spec_alignment() as int) % (t_align as int) == 0,
            old(self).spec_current_offset() % (t_align as int) == 0,
            count * spec_align_up(t_size as int, t_align as int) + old(self).spec_alignment() <= usize::MAX,
            old(self).spec_used() + spec_align_up(
                count * spec_align_up(t_size as int, t_align as int),
                old(self).spec_alignment() as int,
            ) <= u32::MAX,
        ensures
            final(self).spec_wf(),
            offset == old(self).spec_current_offset(),
            final(self).spec_prev_offset() == offset,
            final(self).spec_used() == old(self).spec_used() + spec_align_up(
                count * spec_align_up(t_size as int, t_align as int),
                old(self).spec_alignment() as int,
            ),
            final(self).spec_frame() == old(self).spec_frame(),
            final(self).spec_alignment() == old(self).spec_alignment(),
            final(self).buffer == old(self).buffer,
            final(self).spec_max_uniform_buffer_range() == old(self).spec_max_uniform_buffer_range(),
            final(self).spec_max_storage_buffer_range() == old(self).spec_max_storage_buffer_range(),
    {
        let curr_offset = self.current_offset();
        self.prev_offset_bytes = curr_offset;
        proof {
            crate::math::lemma_align_up(t_size as int, t_align as int);
        }
        let ghost stride = spec_align_up(t_size as int, t_align as int);
        assert(count * stride <= usize::MAX);
        let stride_exec = min_value_align_to(t_size, t_align);
        let mut written: usize = 0;
        let mut k: usize = 0;
        while k < count
            invariant
                k <= count,
                stride_exec == stride,
                count * stride + self.alignment <= usize::MAX,
                written == k * stride,
            decreases count - k,
        {
            assert((k + 1) * stride <= count * stride && (k + 1) * stride == k * stride + stride)
                by (nonlinear_arith)
                requires
                    k + 1 <= count,
                    stride >= 0,
            ;
            written = written + stride_exec;
            k = k + 1;
        }
        proof {
            crate::math::lemma_align_up(written as int, self.alignment as int);
        }
        let aligned = min_value_align_to(written, self.alignment as usize);
        self.current_offset_bytes = self.current_offset_bytes + aligned as u32;
        curr_offset
    }

    /// The buffer, to be destroyed.
    pub fn clean(self) -> (buffer: Buffer)
        ensures
            buffer == self.buffer,
    {
        self.buffer
    }
}

/// Every value pushed into a frame region starts at a multiple of the alignment, and after
/// it the region stays aligned, when the region is aligned before the push.
pub proof fn lemma_push_keeps_alignment(used: int, t_size: int, alignment: int)
    requires
        used >= 0,
        t_size >= 0,
        alignment > 0,
        used % alignment == 0,
    ensures
        (used + spec_align_up(t_size, alignment)) % alignment == 0,
        used + spec_align_up(t_size, alignment) >= used + t_size,
{
    crate::math::lemma_align_up(t_size, alignment);
    let a = spec_align_up(t_size, alignment);
    let p = used / alignment;
    let q = a / alignment;
    assert(used == p * alignment) by (nonlinear_arith)
        requires
            used % alignment == 0,
            alignment > 0,
            p == used / alignment,
    ;
    assert(a == q * alignment) by (nonlinear_arith)
        requires
            a % alignment == 0,
            alignment > 0,
            q == a / alignment,
    ;
    assert(((p + q) * alignment) % alignment == 0) by (nonlinear_arith)
        requires
            alignment > 0,
    ;
    assert(used + a == (p + q) * alignment) by (nonlinear_arith)
        requires
            used == p * alignment,
            a == q * alignment,
    ;
}

} // verus!
