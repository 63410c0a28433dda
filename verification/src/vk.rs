//! Raw values of the Vulkan enumerations and flag bits that the render graph reasons about.
//!
//! Flags are kept as the `u32` bit masks Vulkan defines, enumerations as their `i32` values,
//! so that the graph logic works on plain integers.
use vstd::prelude::*;

verus! {

// VkPipelineStageFlagBits
pub const STAGE_DRAW_INDIRECT: u32 = 0x2;
pub const STAGE_VERTEX_INPUT: u32 = 0x4;
pub const STAGE_VERTEX_SHADER: u32 = 0x8;
pub const STAGE_TESSELLATION_CONTROL_SHADER: u32 = 0x10;
pub const STAGE_TESSELLATION_EVALUATION_SHADER: u32 = 0x20;
pub const STAGE_GEOMETRY_SHADER: u32 = 0x40;
pub const STAGE_FRAGMENT_SHADER: u32 = 0x80;
pub const STAGE_EARLY_FRAGMENT_TESTS: u32 = 0x100;
pub const STAGE_LATE_FRAGMENT_TESTS: u32 = 0x200;
/// Early and late fragment tests together.
pub const STAGE_FRAGMENT_TESTS: u32 = 0x300;
pub const STAGE_COLOR_ATTACHMENT_OUTPUT: u32 = 0x400;
pub const STAGE_COMPUTE_SHADER: u32 = 0x800;
pub const STAGE_TRANSFER: u32 = 0x1000;
pub const STAGE_HOST: u32 = 0x4000;
pub const STAGE_ALL_COMMANDS: u32 = 0x10000;
pub const STAGE_COMMAND_PREPROCESS_NV: u32 = 0x20000;
pub const STAGE_RAY_TRACING_SHADER_KHR: u32 = 0x200000;
pub const STAGE_ACCELERATION_STRUCTURE_BUILD_KHR: u32 = 0x2000000;

// VkAccessFlagBits
pub const ACCESS_INDIRECT_COMMAND_READ: u32 = 0x1;
pub const ACCESS_INDEX_READ: u32 = 0x2;
pub const ACCESS_VERTEX_ATTRIBUTE_READ: u32 = 0x4;
pub const ACCESS_UNIFORM_READ: u32 = 0x8;
pub const ACCESS_INPUT_ATTACHMENT_READ: u32 = 0x10;
pub const ACCESS_SHADER_READ: u32 = 0x20;
pub const ACCESS_SHADER_WRITE: u32 = 0x40;
pub const ACCESS_COLOR_ATTACHMENT_READ: u32 = 0x80;
pub const ACCESS_COLOR_ATTACHMENT_WRITE: u32 = 0x100;
pub const ACCESS_DEPTH_STENCIL_ATTACHMENT_READ: u32 = 0x200;
pub const ACCESS_DEPTH_STENCIL_ATTACHMENT_WRITE: u32 = 0x400;
pub const ACCESS_TRANSFER_READ: u32 = 0x800;
pub const ACCESS_TRANSFER_WRITE: u32 = 0x1000;
pub const ACCESS_HOST_READ: u32 = 0x2000;
pub const ACCESS_HOST_WRITE: u32 = 0x4000;
pub const ACCESS_MEMORY_READ: u32 = 0x8000;
pub const ACCESS_MEMORY_WRITE: u32 = 0x10000;
pub const ACCESS_COMMAND_PREPROCESS_READ_NV: u32 = 0x20000;
pub const ACCESS_COMMAND_PREPROCESS_WRITE_NV: u32 = 0x40000;
pub const ACCESS_ACCELERATION_STRUCTURE_READ_KHR: u32 = 0x200000;
pub const ACCESS_ACCELERATION_STRUCTURE_WRITE_KHR: u32 = 0x400000;
/// Uniform read together with vertex attribute read.
pub const ACCESS_UNIFORM_OR_VERTEX_ATTRIBUTE_READ: u32 = 0xc;
/// Color attachment read together with color attachment write.
pub const ACCESS_COLOR_ATTACHMENT_READ_WRITE: u32 = 0x180;
/// Depth/stencil attachment read together with depth/stencil attachment write.
pub const ACCESS_DEPTH_STENCIL_ATTACHMENT_READ_WRITE: u32 = 0x600;
/// Memory read together with memory write.
pub const ACCESS_MEMORY_READ_WRITE: u32 = 0x18000;
/// Every access bit that records a write to memory.
pub const ACCESS_WRITE_BITS: u32 = 0x455540;

// VkImageLayout
pub const IMAGE_LAYOUT_UNDEFINED: i32 = 0;
pub const IMAGE_LAYOUT_GENERAL: i32 = 1;
pub const IMAGE_LAYOUT_COLOR_ATTACHMENT_OPTIMAL: i32 = 2;
pub const IMAGE_LAYOUT_DEPTH_STENCIL_ATTACHMENT_OPTIMAL: i32 = 3;
pub const IMAGE_LAYOUT_DEPTH_STENCIL_READ_ONLY_OPTIMAL: i32 = 4;
pub const IMAGE_LAYOUT_SHADER_READ_ONLY_OPTIMAL: i32 = 5;
pub const IMAGE_LAYOUT_TRANSFER_SRC_OPTIMAL: i32 = 6;
pub const IMAGE_LAYOUT_TRANSFER_DST_OPTIMAL: i32 = 7;
pub const IMAGE_LAYOUT_PREINITIALIZED: i32 = 8;
pub const IMAGE_LAYOUT_DEPTH_READ_ONLY_STENCIL_ATTACHMENT_OPTIMAL: i32 = 1000117000;
pub const IMAGE_LAYOUT_DEPTH_ATTACHMENT_STENCIL_READ_ONLY_OPTIMAL: i32 = 1000117001;
pub const IMAGE_LAYOUT_PRESENT_SRC_KHR: i32 = 1000001002;

// VkImageUsageFlagBits
pub const IMAGE_USAGE_TRANSFER_SRC: u32 = 0x1;
pub const IMAGE_USAGE_TRANSFER_DST: u32 = 0x2;
pub const IMAGE_USAGE_SAMPLED: u32 = 0x4;
pub const IMAGE_USAGE_STORAGE: u32 = 0x8;
pub const IMAGE_USAGE_COLOR_ATTACHMENT: u32 = 0x10;
pub const IMAGE_USAGE_DEPTH_STENCIL_ATTACHMENT: u32 = 0x20;

// VkBufferUsageFlagBits
pub const BUFFER_USAGE_TRANSFER_SRC: u32 = 0x1;
pub const BUFFER_USAGE_TRANSFER_DST: u32 = 0x2;
pub const BUFFER_USAGE_UNIFORM_TEXEL_BUFFER: u32 = 0x4;
pub const BUFFER_USAGE_UNIFORM_BUFFER: u32 = 0x10;
pub const BUFFER_USAGE_STORAGE_BUFFER: u32 = 0x20;
pub const BUFFER_USAGE_INDEX_BUFFER: u32 = 0x40;
pub const BUFFER_USAGE_INDIRECT_BUFFER: u32 = 0x100;
pub const BUFFER_USAGE_SHADER_DEVICE_ADDRESS: u32 = 0x20000;

// VkImageCreateFlagBits
pub const IMAGE_CREATE_CUBE_COMPATIBLE: u32 = 0x10;

// VkSampleCountFlagBits
pub const SAMPLE_COUNT_1: u32 = 0x1;

// VkImageTiling
pub const IMAGE_TILING_OPTIMAL: i32 = 0;

// VkImageAspectFlagBits
pub const ASPECT_COLOR: u32 = 0x1;
pub const ASPECT_DEPTH: u32 = 0x2;
pub const ASPECT_STENCIL: u32 = 0x4;
/// Depth together with stencil.
pub const ASPECT_DEPTH_STENCIL: u32 = 0x6;

// VkFormat
pub const FORMAT_UNDEFINED: i32 = 0;
pub const FORMAT_R8G8B8A8_UNORM: i32 = 37;
pub const FORMAT_R8G8B8A8_SRGB: i32 = 43;
pub const FORMAT_B8G8R8A8_UNORM: i32 = 44;
pub const FORMAT_D16_UNORM: i32 = 124;
pub const FORMAT_X8_D24_UNORM_PACK32: i32 = 125;
pub const FORMAT_D32_SFLOAT: i32 = 126;
pub const FORMAT_S8_UINT: i32 = 127;
pub const FORMAT_D16_UNORM_S8_UINT: i32 = 128;
pub const FORMAT_D24_UNORM_S8_UINT: i32 = 129;
pub const FORMAT_D32_SFLOAT_S8_UINT: i32 = 130;

// VkImageType
pub const IMAGE_TYPE_1D: i32 = 0;
pub const IMAGE_TYPE_2D: i32 = 1;
pub const IMAGE_TYPE_3D: i32 = 2;

// VkSharingMode
pub const SHARING_MODE_EXCLUSIVE: i32 = 0;

// VkComponentSwizzle
pub const COMPONENT_SWIZZLE_R: i32 = 3;
pub const COMPONENT_SWIZZLE_G: i32 = 4;
pub const COMPONENT_SWIZZLE_B: i32 = 5;
pub const COMPONENT_SWIZZLE_A: i32 = 6;

// VkImageViewType
pub const IMAGE_VIEW_TYPE_1D: i32 = 0;
pub const IMAGE_VIEW_TYPE_2D: i32 = 1;
pub const IMAGE_VIEW_TYPE_3D: i32 = 2;
pub const IMAGE_VIEW_TYPE_CUBE: i32 = 3;
pub const IMAGE_VIEW_TYPE_1D_ARRAY: i32 = 4;
pub const IMAGE_VIEW_TYPE_2D_ARRAY: i32 = 5;
pub const IMAGE_VIEW_TYPE_CUBE_ARRAY: i32 = 6;

} // verus!
