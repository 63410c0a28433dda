//! Buffer descriptions and the library's view of GPU images, buffers and acceleration structures.
use vstd::prelude::*;

verus! {

/// Where the memory of a buffer lives.
#[derive(Clone, Copy, Debug, PartialEq, Eq, Hash, Structural)]
pub enum MemoryLocation {
    /// Let the driver decide.
    Unknown,
    /// Memory that only the GPU accesses.
    GpuOnly,
    /// Memory the CPU writes and the GPU reads.
    CpuToGpu,
    /// Memory the GPU writes and the CPU reads back.
    GpuToCpu,
}

/// Description of a buffer: everything needed to create it.
#[derive(Clone, Copy, Debug, PartialEq, Eq, Hash, Structural)]
pub struct BufferDesc {
    pub size: usize,
    pub alignment: Option<usize>,
    /// `VkBufferUsageFlags` bits.
    pub usage: u32,
    pub memory_location: MemoryLocation,
}

impl BufferDesc {
    /// A buffer the GPU writes and the CPU reads back.
    pub fn new_gpu_to_cpu(size: usize, usage: u32) -> (desc: Self)
        ensures
            desc == (BufferDesc {
                size,
                usage,
                memory_location: MemoryLocation::GpuToCpu,
                alignment: None,
            }),
    {
        BufferDesc { size, usage, memory_location: MemoryLocation::GpuToCpu, alignment: None }
    }

    /// A buffer only the GPU accesses.
    pub fn new_gpu_only(size: usize, usage: u32) -> (desc: Self)
        ensures
            desc == (BufferDesc {
                size,
                usage,
                memory_location: MemoryLocation::GpuOnly,
                alignment: None,
            }),
    {
        BufferDesc { size, usage, memory_location: MemoryLocation::GpuOnly, alignment: None }
    }

    /// A buffer the CPU writes and the GPU reads.
    pub fn new_cpu_to_gpu(size: usize, usage: u32) -> (desc: Self)
        ensures
            desc == (BufferDesc {
                size,
                usage,
                memory_location: MemoryLocation::CpuToGpu,
                alignment: None,
            }),
    {
        BufferDesc { size, usage, memory_location: MemoryLocation::CpuToGpu, alignment: None }
    }

    /// Sets the minimal alignment of the buffer's memory.
    pub fn alignment(self, alignment: usize) -> (desc: Self)
        ensures
            desc == (BufferDesc { alignment: Some(alignment), ..self }),
    {
        let mut desc = self;
        desc.alignment = Some(alignment);
        desc
    }
}

/// A GPU buffer: its raw Vulkan handle and its description.
#[derive(Debug)]
pub struct Buffer {
    /// Raw `VkBuffer` handle.
    pub raw: u64,
    pub desc: BufferDesc,
}

} // verus!
