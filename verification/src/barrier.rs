//! Access types of GPU resources and the pipeline synchronization they imply.
use vstd::prelude::*;

use crate::vk;

verus! {

/// How a GPU resource is accessed at some point of a frame.
///
/// Each access type fixes the pipeline stages that touch the resource,
/// the kinds of memory access done there, and the image layout it needs.
#[derive(Clone, Copy, Debug, PartialEq, Eq, Hash, Structural)]
pub enum AccessType {
    Nothing,
    CommandBufferReadNVX,
    IndirectBuffer,
    IndexBuffer,
    VertexBuffer,
    VertexShaderReadUniformBuffer,
    VertexShaderReadSampledImageOrUniformTexelBuffer,
    VertexShaderReadOther,
    TessellationControlShaderReadUniformBuffer,
    TessellationControlShaderReadSampledImageOrUniformTexelBuffer,
    TessellationControlShaderReadOther,
    TessellationEvaluationShaderReadUniformBuffer,
    TessellationEvaluationShaderReadSampledImageOrUniformTexelBuffer,
    TessellationEvaluationShaderReadOther,
    GeometryShaderReadUniformBuffer,
    GeometryShaderReadSampledImageOrUniformTexelBuffer,
    GeometryShaderReadOther,
    FragmentShaderReadUniformBuffer,
    FragmentShaderReadSampledImageOrUniformTexelBuffer,
    FragmentShaderReadColorInputAttachment,
    FragmentShaderReadDepthStencilInputAttachment,
    FragmentShaderReadOther,
    ColorAttachmentRead,
    DepthStencilAttachmentRead,
    ComputeShaderReadUniformBuffer,
    ComputeShaderReadSampledImageOrUniformTexelBuffer,
    ComputeShaderReadOther,
    AnyShaderReadUniformBuffer,
    AnyShaderReadUniformBufferOrVertexBuffer,
    AnyShaderReadSampledImageOrUniformTexelBuffer,
    AnyShaderReadOther,
    TransferRead,
    HostRead,
    Present,
    CommandBufferWriteNVX,
    VertexShaderWrite,
    TessellationControlShaderWrite,
    TessellationEvaluationShaderWrite,
    GeometryShaderWrite,
    FragmentShaderWrite,
    ColorAttachmentWrite,
    DepthStencilAttachmentWrite,
    DepthAttachmentWriteStencilReadOnly,
    StencilAttachmentWriteDepthReadOnly,
    ComputeShaderWrite,
    AnyShaderWrite,
    TransferWrite,
    HostWrite,
    ColorAttachmentReadWrite,
    General,
    RayTracingShaderReadSampledImageOrUniformTexelBuffer,
    RayTracingShaderReadColorInputAttachment,
    RayTracingShaderReadDepthStencilInputAttachment,
    RayTracingShaderReadAccelerationStructure,
    RayTracingShaderReadOther,
    AccelerationStructureBuildWrite,
    AccelerationStructureBuildRead,
    AccelerationStructureBufferWrite,
}

/// Pipeline stages, memory accesses and image layout of an access type.
#[derive(Clone, Copy, Debug, PartialEq, Eq, Structural)]
pub struct AccessInfo {
    /// `VkPipelineStageFlags` bits.
    pub stage_mask: u32,
    /// `VkAccessFlags` bits.
    pub access_mask: u32,
    /// `VkImageLayout` value.
    pub image_layout: i32,
}

/// Access types that only read the resource.
pub open spec fn spec_is_read_only_access(access: AccessType) -> bool {
    match access {
        AccessType::CommandBufferReadNVX |
        AccessType::IndirectBuffer |
        AccessType::IndexBuffer |
        AccessType::VertexBuffer |
        AccessType::VertexShaderReadUniformBuffer |
        AccessType::VertexShaderReadSampledImageOrUniformTexelBuffer |
        AccessType::VertexShaderReadOther |
        AccessType::TessellationControlShaderReadUniformBuffer |
        AccessType::TessellationControlShaderReadSampledImageOrUniformTexelBuffer |
        AccessType::TessellationControlShaderReadOther |
        AccessType::TessellationEvaluationShaderReadUniformBuffer |
        AccessType::TessellationEvaluationShaderReadSampledImageOrUniformTexelBuffer |
        AccessType::TessellationEvaluationShaderReadOther |
        AccessType::GeometryShaderReadUniformBuffer |
        AccessType::GeometryShaderReadSampledImageOrUniformTexelBuffer |
        AccessType::GeometryShaderReadOther |
        AccessType::FragmentShaderReadUniformBuffer |
        AccessType::FragmentShaderReadSampledImageOrUniformTexelBuffer |
        AccessType::FragmentShaderReadColorInputAttachment |
        AccessType::FragmentShaderReadDepthStencilInputAttachment |
        AccessType::FragmentShaderReadOther |
        AccessType::ColorAttachmentRead |
        AccessType::DepthStencilAttachmentRead |
        AccessType::ComputeShaderReadUniformBuffer |
        AccessType::ComputeShaderReadSampledImageOrUniformTexelBuffer |
        AccessType::ComputeShaderReadOther |
        AccessType::AnyShaderReadUniformBuffer |
        AccessType::AnyShaderReadUniformBufferOrVertexBuffer |
        AccessType::AnyShaderReadSampledImageOrUniformTexelBuffer |
        AccessType::AnyShaderReadOther |
        AccessType::TransferRead |
        AccessType::HostRead |
        AccessType::Present => true,
        _ => false,
    }
}

/// Access types that write the resource.
pub open spec fn spec_is_write_only_access(access: AccessType) -> bool {
    match access {
        AccessType::CommandBufferWriteNVX |
        AccessType::VertexShaderWrite |
        AccessType::TessellationControlShaderWrite |
        AccessType::TessellationEvaluationShaderWrite |
        AccessType::GeometryShaderWrite |
        AccessType::FragmentShaderWrite |
        AccessType::ColorAttachmentWrite |
        AccessType::DepthStencilAttachmentWrite |
        AccessType::DepthAttachmentWriteStencilReadOnly |
        AccessType::StencilAttachmentWriteDepthReadOnly |
        AccessType::ComputeShaderWrite |
        AccessType::AnyShaderWrite |
        AccessType::TransferWrite |
        AccessType::HostWrite => true,
        _ => false,
    }
}

/// Access types of render-target attachments.
pub open spec fn spec_is_raster_access(access: AccessType) -> bool {
    match access {
        AccessType::ColorAttachmentRead |
        AccessType::DepthStencilAttachmentRead |
        AccessType::ColorAttachmentWrite |
        AccessType::DepthStencilAttachmentWrite |
        AccessType::DepthAttachmentWriteStencilReadOnly |
        AccessType::StencilAttachmentWriteDepthReadOnly => true,
        _ => false,
    }
}

/// Render-target accesses that only read.
pub open spec fn spec_is_read_only_raster_access(access: AccessType) -> bool {
    match access {
        AccessType::ColorAttachmentRead |
        AccessType::DepthStencilAttachmentRead => true,
        _ => false,
    }
}

/// Render-target accesses that write.
pub open spec fn spec_is_write_only_raster_access(access: AccessType) -> bool {
    match access {
        AccessType::ColorAttachmentWrite |
        AccessType::DepthStencilAttachmentWrite |
        AccessType::DepthAttachmentWriteStencilReadOnly |
        AccessType::StencilAttachmentWriteDepthReadOnly => true,
        _ => false,
    }
}

/// Whether the access only reads the resource.
pub fn is_read_only_access(access: &AccessType) -> (res: bool)
    ensures
        res == spec_is_read_only_access(*access),
{
    match access {
        AccessType::CommandBufferReadNVX |
        AccessType::IndirectBuffer |
        AccessType::IndexBuffer |
        AccessType::VertexBuffer |
        AccessType::VertexShaderReadUniformBuffer |
        AccessType::VertexShaderReadSampledImageOrUniformTexelBuffer |
        AccessType::VertexShaderReadOther |
        AccessType::TessellationControlShaderReadUniformBuffer |
        AccessType::TessellationControlShaderReadSampledImageOrUniformTexelBuffer |
        AccessType::TessellationControlShaderReadOther |
        AccessType::TessellationEvaluationShaderReadUniformBuffer |
        AccessType::TessellationEvaluationShaderReadSampledImageOrUniformTexelBuffer |
        AccessType::TessellationEvaluationShaderReadOther |
        AccessType::GeometryShaderReadUniformBuffer |
        AccessType::GeometryShaderReadSampledImageOrUniformTexelBuffer |
        AccessType::GeometryShaderReadOther |
        AccessType::FragmentShaderReadUniformBuffer |
        AccessType::FragmentShaderReadSampledImageOrUniformTexelBuffer |
        AccessType::FragmentShaderReadColorInputAttachment |
        AccessType::FragmentShaderReadDepthStencilInputAttachment |
        AccessType::FragmentShaderReadOther |
        AccessType::ColorAttachmentRead |
        AccessType::DepthStencilAttachmentRead |
        AccessType::ComputeShaderReadUniformBuffer |
        AccessType::ComputeShaderReadSampledImageOrUniformTexelBuffer |
        AccessType::ComputeShaderReadOther |
        AccessType::AnyShaderReadUniformBuffer |
        AccessType::AnyShaderReadUniformBufferOrVertexBuffer |
        AccessType::AnyShaderReadSampledImageOrUniformTexelBuffer |
        AccessType::AnyShaderReadOther |
        AccessType::TransferRead |
        AccessType::HostRead |
        AccessType::Present => true,
        _ => false,
    }
}

/// Whether the access writes the resource.
pub fn is_write_only_access(access: &AccessType) -> (res: bool)
    ensures
        res == spec_is_write_only_access(*access),
{
    match access {
        AccessType::CommandBufferWriteNVX |
        AccessType::VertexShaderWrite |
        AccessType::TessellationControlShaderWrite |
        AccessType::TessellationEvaluationShaderWrite |
        AccessType::GeometryShaderWrite |
        AccessType::FragmentShaderWrite |
        AccessType::ColorAttachmentWrite |
        AccessType::DepthStencilAttachmentWrite |
        AccessType::DepthAttachmentWriteStencilReadOnly |
        AccessType::StencilAttachmentWriteDepthReadOnly |
        AccessType::ComputeShaderWrite |
        AccessType::AnyShaderWrite |
        AccessType::TransferWrite |
        AccessType::HostWrite => true,
        _ => false,
    }
}

/// Whether the access is a render-target attachment access.
pub fn is_raster_access(access: &AccessType) -> (res: bool)
    ensures
        res == spec_is_raster_access(*access),
{
    match access {
        AccessType::ColorAttachmentRead |
        AccessType::DepthStencilAttachmentRead |
        AccessType::ColorAttachmentWrite |
        AccessType::DepthStencilAttachmentWrite |
        AccessType::DepthAttachmentWriteStencilReadOnly |
        AccessType::StencilAttachmentWriteDepthReadOnly => true,
        _ => false,
    }
}

/// Whether the access reads a render-target attachment.
pub fn is_read_only_raster_access(access: &AccessType) -> (res: bool)
    ensures
        res == spec_is_read_only_raster_access(*access),
{
    match access {
        AccessType::ColorAttachmentRead |
        AccessType::DepthStencilAttachmentRead => true,
        _ => false,
    }
}

/// Whether the access writes a render-target attachment.
pub fn is_write_only_raster_access(access: &AccessType) -> (res: bool)
    ensures
        res == spec_is_write_only_raster_access(*access),
{
    match access {
        AccessType::ColorAttachmentWrite |
        AccessType::DepthStencilAttachmentWrite |
        AccessType::DepthAttachmentWriteStencilReadOnly |
        AccessType::StencilAttachmentWriteDepthReadOnly => true,
        _ => false,
    }
}

/// The synchronization scope of every access type, as Vulkan defines it.
pub open spec fn spec_access_info(access: AccessType) -> AccessInfo {
    match access {
        AccessType::Nothing => AccessInfo { stage_mask: 0, access_mask: 0, image_layout: vk::IMAGE_LAYOUT_UNDEFINED },
        AccessType::CommandBufferReadNVX => AccessInfo { stage_mask: vk::STAGE_COMMAND_PREPROCESS_NV, access_mask: vk::ACCESS_COMMAND_PREPROCESS_READ_NV, image_layout: vk::IMAGE_LAYOUT_UNDEFINED },
        AccessType::IndirectBuffer => AccessInfo { stage_mask: vk::STAGE_DRAW_INDIRECT, access_mask: vk::ACCESS_INDIRECT_COMMAND_READ, image_layout: vk::IMAGE_LAYOUT_UNDEFINED },
        AccessType::IndexBuffer => AccessInfo { stage_mask: vk::STAGE_VERTEX_INPUT, access_mask: vk::ACCESS_INDEX_READ, image_layout: vk::IMAGE_LAYOUT_UNDEFINED },
        AccessType::VertexBuffer => AccessInfo { stage_mask: vk::STAGE_VERTEX_INPUT, access_mask: vk::ACCESS_VERTEX_ATTRIBUTE_READ, image_layout: vk::IMAGE_LAYOUT_UNDEFINED },
        AccessType::VertexShaderReadUniformBuffer => AccessInfo { stage_mask: vk::STAGE_VERTEX_SHADER, access_mask: vk::ACCESS_SHADER_READ, image_layout: vk::IMAGE_LAYOUT_UNDEFINED },
        AccessType::VertexShaderReadSampledImageOrUniformTexelBuffer => AccessInfo { stage_mask: vk::STAGE_VERTEX_SHADER, access_mask: vk::ACCESS_SHADER_READ, image_layout: vk::IMAGE_LAYOUT_SHADER_READ_ONLY_OPTIMAL },
        AccessType::VertexShaderReadOther => AccessInfo { stage_mask: vk::STAGE_VERTEX_SHADER, access_mask: vk::ACCESS_SHADER_READ, image_layout: vk::IMAGE_LAYOUT_GENERAL },
        AccessType::TessellationControlShaderReadUniformBuffer => AccessInfo { stage_mask: vk::STAGE_TESSELLATION_CONTROL_SHADER, access_mask: vk::ACCESS_UNIFORM_READ, image_layout: vk::IMAGE_LAYOUT_UNDEFINED },
        AccessType::TessellationControlShaderReadSampledImageOrUniformTexelBuffer => AccessInfo { stage_mask: vk::STAGE_TESSELLATION_CONTROL_SHADER, access_mask: vk::ACCESS_SHADER_READ, image_layout: vk::IMAGE_LAYOUT_SHADER_READ_ONLY_OPTIMAL },
        AccessType::TessellationControlShaderReadOther => AccessInfo { stage_mask: vk::STAGE_TESSELLATION_CONTROL_SHADER, access_mask: vk::ACCESS_SHADER_READ, image_layout: vk::IMAGE_LAYOUT_GENERAL },
        AccessType::TessellationEvaluationShaderReadUniformBuffer => AccessInfo { stage_mask: vk::STAGE_TESSELLATION_EVALUATION_SHADER, access_mask: vk::ACCESS_UNIFORM_READ, image_layout: vk::IMAGE_LAYOUT_UNDEFINED },
        AccessType::TessellationEvaluationShaderReadSampledImageOrUniformTexelBuffer => AccessInfo { stage_mask: vk::STAGE_TESSELLATION_EVALUATION_SHADER, access_mask: vk::ACCESS_SHADER_READ, image_layout: vk::IMAGE_LAYOUT_SHADER_READ_ONLY_OPTIMAL },
        AccessType::TessellationEvaluationShaderReadOther => AccessInfo { stage_mask: vk::STAGE_TESSELLATION_EVALUATION_SHADER, access_mask: vk::ACCESS_SHADER_READ, image_layout: vk::IMAGE_LAYOUT_GENERAL },
        AccessType::GeometryShaderReadUniformBuffer => AccessInfo { stage_mask: vk::STAGE_GEOMETRY_SHADER, access_mask: vk::ACCESS_UNIFORM_READ, image_layout: vk::IMAGE_LAYOUT_UNDEFINED },
        AccessType::GeometryShaderReadSampledImageOrUniformTexelBuffer => AccessInfo { stage_mask: vk::STAGE_GEOMETRY_SHADER, access_mask: vk::ACCESS_SHADER_READ, image_layout: vk::IMAGE_LAYOUT_SHADER_READ_ONLY_OPTIMAL },
        AccessType::GeometryShaderReadOther => AccessInfo { stage_mask: vk::STAGE_GEOMETRY_SHADER, access_mask: vk::ACCESS_SHADER_READ, image_layout: vk::IMAGE_LAYOUT_GENERAL },
        AccessType::FragmentShaderReadUniformBuffer => AccessInfo { stage_mask: vk::STAGE_FRAGMENT_SHADER, access_mask: vk::ACCESS_UNIFORM_READ, image_layout: vk::IMAGE_LAYOUT_UNDEFINED },
        AccessType::FragmentShaderReadSampledImageOrUniformTexelBuffer => AccessInfo { stage_mask: vk::STAGE_FRAGMENT_SHADER, access_mask: vk::ACCESS_SHADER_READ, image_layout: vk::IMAGE_LAYOUT_SHADER_READ_ONLY_OPTIMAL },
        AccessType::FragmentShaderReadColorInputAttachment => AccessInfo { stage_mask: vk::STAGE_FRAGMENT_SHADER, access_mask: vk::ACCESS_INPUT_ATTACHMENT_READ, image_layout: vk::IMAGE_LAYOUT_SHADER_READ_ONLY_OPTIMAL },
        AccessType::FragmentShaderReadDepthStencilInputAttachment => AccessInfo { stage_mask: vk::STAGE_FRAGMENT_SHADER, access_mask: vk::ACCESS_INPUT_ATTACHMENT_READ, image_layout: vk::IMAGE_LAYOUT_DEPTH_STENCIL_READ_ONLY_OPTIMAL },
        AccessType::FragmentShaderReadOther => AccessInfo { stage_mask: vk::STAGE_FRAGMENT_SHADER, access_mask: vk::ACCESS_SHADER_READ, image_layout: vk::IMAGE_LAYOUT_GENERAL },
        AccessType::ColorAttachmentRead => AccessInfo { stage_mask: vk::STAGE_COLOR_ATTACHMENT_OUTPUT, access_mask: vk::ACCESS_COLOR_ATTACHMENT_READ, image_layout: vk::IMAGE_LAYOUT_COLOR_ATTACHMENT_OPTIMAL },
        AccessType::DepthStencilAttachmentRead => AccessInfo { stage_mask: vk::STAGE_FRAGMENT_TESTS, access_mask: vk::ACCESS_DEPTH_STENCIL_ATTACHMENT_READ, image_layout: vk::IMAGE_LAYOUT_DEPTH_STENCIL_READ_ONLY_OPTIMAL },
        AccessType::ComputeShaderReadUniformBuffer => AccessInfo { stage_mask: vk::STAGE_COMPUTE_SHADER, access_mask: vk::ACCESS_UNIFORM_READ, image_layout: vk::IMAGE_LAYOUT_UNDEFINED },
        AccessType::ComputeShaderReadSampledImageOrUniformTexelBuffer => AccessInfo { stage_mask: vk::STAGE_COMPUTE_SHADER, access_mask: vk::ACCESS_SHADER_READ, image_layout: vk::IMAGE_LAYOUT_SHADER_READ_ONLY_OPTIMAL },
        AccessType::ComputeShaderReadOther => AccessInfo { stage_mask: vk::STAGE_COMPUTE_SHADER, access_mask: vk::ACCESS_SHADER_READ, image_layout: vk::IMAGE_LAYOUT_GENERAL },
        AccessType::AnyShaderReadUniformBuffer => AccessInfo { stage_mask: vk::STAGE_ALL_COMMANDS, access_mask: vk::ACCESS_UNIFORM_READ, image_layout: vk::IMAGE_LAYOUT_UNDEFINED },
        AccessType::AnyShaderReadUniformBufferOrVertexBuffer => AccessInfo { stage_mask: vk::STAGE_ALL_COMMANDS, access_mask: vk::ACCESS_UNIFORM_OR_VERTEX_ATTRIBUTE_READ, image_layout: vk::IMAGE_LAYOUT_UNDEFINED },
        AccessType::AnyShaderReadSampledImageOrUniformTexelBuffer => AccessInfo { stage_mask: vk::STAGE_ALL_COMMANDS, access_mask: vk::ACCESS_SHADER_READ, image_layout: vk::IMAGE_LAYOUT_SHADER_READ_ONLY_OPTIMAL },
        AccessType::AnyShaderReadOther => AccessInfo { stage_mask: vk::STAGE_ALL_COMMANDS, access_mask: vk::ACCESS_SHADER_READ, image_layout: vk::IMAGE_LAYOUT_GENERAL },
        AccessType::TransferRead => AccessInfo { stage_mask: vk::STAGE_TRANSFER, access_mask: vk::ACCESS_TRANSFER_READ, image_layout: vk::IMAGE_LAYOUT_TRANSFER_SRC_OPTIMAL },
        AccessType::HostRead => AccessInfo { stage_mask: vk::STAGE_HOST, access_mask: vk::ACCESS_HOST_READ, image_layout: vk::IMAGE_LAYOUT_GENERAL },
        AccessType::Present => AccessInfo { stage_mask: 0, access_mask: 0, image_layout: vk::IMAGE_LAYOUT_PRESENT_SRC_KHR },
        AccessType::CommandBufferWriteNVX => AccessInfo { stage_mask: vk::STAGE_COMMAND_PREPROCESS_NV, access_mask: vk::ACCESS_COMMAND_PREPROCESS_WRITE_NV, image_layout: vk::IMAGE_LAYOUT_UNDEFINED },
        AccessType::VertexShaderWrite => AccessInfo { stage_mask: vk::STAGE_VERTEX_SHADER, access_mask: vk::ACCESS_SHADER_WRITE, image_layout: vk::IMAGE_LAYOUT_GENERAL },
        AccessType::TessellationControlShaderWrite => AccessInfo { stage_mask: vk::STAGE_TESSELLATION_CONTROL_SHADER, access_mask: vk::ACCESS_SHADER_WRITE, image_layout: vk::IMAGE_LAYOUT_GENERAL },
        AccessType::TessellationEvaluationShaderWrite => AccessInfo { stage_mask: vk::STAGE_TESSELLATION_EVALUATION_SHADER, access_mask: vk::ACCESS_SHADER_WRITE, image_layout: vk::IMAGE_LAYOUT_GENERAL },
        AccessType::GeometryShaderWrite => AccessInfo { stage_mask: vk::STAGE_GEOMETRY_SHADER, access_mask: vk::ACCESS_SHADER_WRITE, image_layout: vk::IMAGE_LAYOUT_GENERAL },
        AccessType::FragmentShaderWrite => AccessInfo { stage_mask: vk::STAGE_FRAGMENT_SHADER, access_mask: vk::ACCESS_SHADER_WRITE, image_layout: vk::IMAGE_LAYOUT_GENERAL },
        AccessType::ColorAttachmentWrite => AccessInfo { stage_mask: vk::STAGE_COLOR_ATTACHMENT_OUTPUT, access_mask: vk::ACCESS_COLOR_ATTACHMENT_WRITE, image_layout: vk::IMAGE_LAYOUT_COLOR_ATTACHMENT_OPTIMAL },
        AccessType::DepthStencilAttachmentWrite => AccessInfo { stage_mask: vk::STAGE_FRAGMENT_TESTS, access_mask: vk::ACCESS_DEPTH_STENCIL_ATTACHMENT_WRITE, image_layout: vk::IMAGE_LAYOUT_DEPTH_STENCIL_ATTACHMENT_OPTIMAL },
        AccessType::DepthAttachmentWriteStencilReadOnly => AccessInfo { stage_mask: vk::STAGE_FRAGMENT_TESTS, access_mask: vk::ACCESS_DEPTH_STENCIL_ATTACHMENT_READ_WRITE, image_layout: vk::IMAGE_LAYOUT_DEPTH_ATTACHMENT_STENCIL_READ_ONLY_OPTIMAL },
        AccessType::StencilAttachmentWriteDepthReadOnly => AccessInfo { stage_mask: vk::STAGE_FRAGMENT_TESTS, access_mask: vk::ACCESS_DEPTH_STENCIL_ATTACHMENT_READ_WRITE, image_layout: vk::IMAGE_LAYOUT_DEPTH_READ_ONLY_STENCIL_ATTACHMENT_OPTIMAL },
        AccessType::ComputeShaderWrite => AccessInfo { stage_mask: vk::STAGE_COMPUTE_SHADER, access_mask: vk::ACCESS_SHADER_WRITE, image_layout: vk::IMAGE_LAYOUT_GENERAL },
        AccessType::AnyShaderWrite => AccessInfo { stage_mask: vk::STAGE_ALL_COMMANDS, access_mask: vk::ACCESS_SHADER_WRITE, image_layout: vk::IMAGE_LAYOUT_GENERAL },
        AccessType::TransferWrite => AccessInfo { stage_mask: vk::STAGE_TRANSFER, access_mask: vk::ACCESS_TRANSFER_WRITE, image_layout: vk::IMAGE_LAYOUT_TRANSFER_DST_OPTIMAL },
        AccessType::HostWrite => AccessInfo { stage_mask: vk::STAGE_HOST, access_mask: vk::ACCESS_HOST_WRITE, image_layout: vk::IMAGE_LAYOUT_GENERAL },
        AccessType::ColorAttachmentReadWrite => AccessInfo { stage_mask: vk::STAGE_COLOR_ATTACHMENT_OUTPUT, access_mask: vk::ACCESS_COLOR_ATTACHMENT_READ_WRITE, image_layout: vk::IMAGE_LAYOUT_COLOR_ATTACHMENT_OPTIMAL },
        AccessType::General => AccessInfo { stage_mask: vk::STAGE_ALL_COMMANDS, access_mask: vk::ACCESS_MEMORY_READ_WRITE, image_layout: vk::IMAGE_LAYOUT_GENERAL },
        AccessType::RayTracingShaderReadSampledImageOrUniformTexelBuffer => AccessInfo { stage_mask: vk::STAGE_RAY_TRACING_SHADER_KHR, access_mask: vk::ACCESS_SHADER_READ, image_layout: vk::IMAGE_LAYOUT_SHADER_READ_ONLY_OPTIMAL },
        AccessType::RayTracingShaderReadColorInputAttachment => AccessInfo { stage_mask: vk::STAGE_RAY_TRACING_SHADER_KHR, access_mask: vk::ACCESS_INPUT_ATTACHMENT_READ, image_layout: vk::IMAGE_LAYOUT_SHADER_READ_ONLY_OPTIMAL },
        AccessType::RayTracingShaderReadDepthStencilInputAttachment => AccessInfo { stage_mask: vk::STAGE_RAY_TRACING_SHADER_KHR, access_mask: vk::ACCESS_INPUT_ATTACHMENT_READ, image_layout: vk::IMAGE_LAYOUT_DEPTH_STENCIL_READ_ONLY_OPTIMAL },
        AccessType::RayTracingShaderReadAccelerationStructure => AccessInfo { stage_mask: vk::STAGE_RAY_TRACING_SHADER_KHR, access_mask: vk::ACCESS_ACCELERATION_STRUCTURE_READ_KHR, image_layout: vk::IMAGE_LAYOUT_UNDEFINED },
        AccessType::RayTracingShaderReadOther => AccessInfo { stage_mask: vk::STAGE_RAY_TRACING_SHADER_KHR, access_mask: vk::ACCESS_SHADER_READ, image_layout: vk::IMAGE_LAYOUT_GENERAL },
        AccessType::AccelerationStructureBuildWrite => AccessInfo { stage_mask: vk::STAGE_ACCELERATION_STRUCTURE_BUILD_KHR, access_mask: vk::ACCESS_ACCELERATION_STRUCTURE_WRITE_KHR, image_layout: vk::IMAGE_LAYOUT_UNDEFINED },
        AccessType::AccelerationStructureBuildRead => AccessInfo { stage_mask: vk::STAGE_ACCELERATION_STRUCTURE_BUILD_KHR, access_mask: vk::ACCESS_ACCELERATION_STRUCTURE_READ_KHR, image_layout: vk::IMAGE_LAYOUT_UNDEFINED },
        AccessType::AccelerationStructureBufferWrite => AccessInfo { stage_mask: vk::STAGE_ACCELERATION_STRUCTURE_BUILD_KHR, access_mask: vk::ACCESS_TRANSFER_WRITE, image_layout: vk::IMAGE_LAYOUT_UNDEFINED },
    }
}

/// Pipeline stages, memory accesses and image layout of `access_type`.
pub fn get_access_info(access_type: AccessType) -> (info: AccessInfo)
    ensures
        info == spec_access_info(access_type),
{
    match access_type {
        AccessType::Nothing => AccessInfo { stage_mask: 0, access_mask: 0, image_layout: vk::IMAGE_LAYOUT_UNDEFINED },
        AccessType::CommandBufferReadNVX => AccessInfo { stage_mask: vk::STAGE_COMMAND_PREPROCESS_NV, access_mask: vk::ACCESS_COMMAND_PREPROCESS_READ_NV, image_layout: vk::IMAGE_LAYOUT_UNDEFINED },
        AccessType::IndirectBuffer => AccessInfo { stage_mask: vk::STAGE_DRAW_INDIRECT, access_mask: vk::ACCESS_INDIRECT_COMMAND_READ, image_layout: vk::IMAGE_LAYOUT_UNDEFINED },
        AccessType::IndexBuffer => AccessInfo { stage_mask: vk::STAGE_VERTEX_INPUT, access_mask: vk::ACCESS_INDEX_READ, image_layout: vk::IMAGE_LAYOUT_UNDEFINED },
        AccessType::VertexBuffer => AccessInfo { stage_mask: vk::STAGE_VERTEX_INPUT, access_mask: vk::ACCESS_VERTEX_ATTRIBUTE_READ, image_layout: vk::IMAGE_LAYOUT_UNDEFINED },
        AccessType::VertexShaderReadUniformBuffer => AccessInfo { stage_mask: vk::STAGE_VERTEX_SHADER, access_mask: vk::ACCESS_SHADER_READ, image_layout: vk::IMAGE_LAYOUT_UNDEFINED },
        AccessType::VertexShaderReadSampledImageOrUniformTexelBuffer => AccessInfo { stage_mask: vk::STAGE_VERTEX_SHADER, access_mask: vk::ACCESS_SHADER_READ, image_layout: vk::IMAGE_LAYOUT_SHADER_READ_ONLY_OPTIMAL },
        AccessType::VertexShaderReadOther => AccessInfo { stage_mask: vk::STAGE_VERTEX_SHADER, access_mask: vk::ACCESS_SHADER_READ, image_layout: vk::IMAGE_LAYOUT_GENERAL },
        AccessType::TessellationControlShaderReadUniformBuffer => AccessInfo { stage_mask: vk::STAGE_TESSELLATION_CONTROL_SHADER, access_mask: vk::ACCESS_UNIFORM_READ, image_layout: vk::IMAGE_LAYOUT_UNDEFINED },
        AccessType::TessellationControlShaderReadSampledImageOrUniformTexelBuffer => AccessInfo { stage_mask: vk::STAGE_TESSELLATION_CONTROL_SHADER, access_mask: vk::ACCESS_SHADER_READ, image_layout: vk::IMAGE_LAYOUT_SHADER_READ_ONLY_OPTIMAL },
        AccessType::TessellationControlShaderReadOther => AccessInfo { stage_mask: vk::STAGE_TESSELLATION_CONTROL_SHADER, access_mask: vk::ACCESS_SHADER_READ, image_layout: vk::IMAGE_LAYOUT_GENERAL },
        AccessType::TessellationEvaluationShaderReadUniformBuffer => AccessInfo { stage_mask: vk::STAGE_TESSELLATION_EVALUATION_SHADER, access_mask: vk::ACCESS_UNIFORM_READ, image_layout: vk::IMAGE_LAYOUT_UNDEFINED },
        AccessType::TessellationEvaluationShaderReadSampledImageOrUniformTexelBuffer => AccessInfo { stage_mask: vk::STAGE_TESSELLATION_EVALUATION_SHADER, access_mask: vk::ACCESS_SHADER_READ, image_layout: vk::IMAGE_LAYOUT_SHADER_READ_ONLY_OPTIMAL },
        AccessType::TessellationEvaluationShaderReadOther => AccessInfo { stage_mask: vk::STAGE_TESSELLATION_EVALUATION_SHADER, access_mask: vk::ACCESS_SHADER_READ, image_layout: vk::IMAGE_LAYOUT_GENERAL },
        AccessType::GeometryShaderReadUniformBuffer => AccessInfo { stage_mask: vk::STAGE_GEOMETRY_SHADER, access_mask: vk::ACCESS_UNIFORM_READ, image_layout: vk::IMAGE_LAYOUT_UNDEFINED },
        AccessType::GeometryShaderReadSampledImageOrUniformTexelBuffer => AccessInfo { stage_mask: vk::STAGE_GEOMETRY_SHADER, access_mask: vk::ACCESS_SHADER_READ, image_layout: vk::IMAGE_LAYOUT_SHADER_READ_ONLY_OPTIMAL },
        AccessType::GeometryShaderReadOther => AccessInfo { stage_mask: vk::STAGE_GEOMETRY_SHADER, access_mask: vk::ACCESS_SHADER_READ, image_layout: vk::IMAGE_LAYOUT_GENERAL },
        AccessType::FragmentShaderReadUniformBuffer => AccessInfo { stage_mask: vk::STAGE_FRAGMENT_SHADER, access_mask: vk::ACCESS_UNIFORM_READ, image_layout: vk::IMAGE_LAYOUT_UNDEFINED },
        AccessType::FragmentShaderReadSampledImageOrUniformTexelBuffer => AccessInfo { stage_mask: vk::STAGE_FRAGMENT_SHADER, access_mask: vk::ACCESS_SHADER_READ, image_layout: vk::IMAGE_LAYOUT_SHADER_READ_ONLY_OPTIMAL },
        AccessType::FragmentShaderReadColorInputAttachment => AccessInfo { stage_mask: vk::STAGE_FRAGMENT_SHADER, access_mask: vk::ACCESS_INPUT_ATTACHMENT_READ, image_layout: vk::IMAGE_LAYOUT_SHADER_READ_ONLY_OPTIMAL },
        AccessType::FragmentShaderReadDepthStencilInputAttachment => AccessInfo { stage_mask: vk::STAGE_FRAGMENT_SHADER, access_mask: vk::ACCESS_INPUT_ATTACHMENT_READ, image_layout: vk::IMAGE_LAYOUT_DEPTH_STENCIL_READ_ONLY_OPTIMAL },
        AccessType::FragmentShaderReadOther => AccessInfo { stage_mask: vk::STAGE_FRAGMENT_SHADER, access_mask: vk::ACCESS_SHADER_READ, image_layout: vk::IMAGE_LAYOUT_GENERAL },
        AccessType::ColorAttachmentRead => AccessInfo { stage_mask: vk::STAGE_COLOR_ATTACHMENT_OUTPUT, access_mask: vk::ACCESS_COLOR_ATTACHMENT_READ, image_layout: vk::IMAGE_LAYOUT_COLOR_ATTACHMENT_OPTIMAL },
        AccessType::DepthStencilAttachmentRead => AccessInfo { stage_mask: vk::STAGE_FRAGMENT_TESTS, access_mask: vk::ACCESS_DEPTH_STENCIL_ATTACHMENT_READ, image_layout: vk::IMAGE_LAYOUT_DEPTH_STENCIL_READ_ONLY_OPTIMAL },
        AccessType::ComputeShaderReadUniformBuffer => AccessInfo { stage_mask: vk::STAGE_COMPUTE_SHADER, access_mask: vk::ACCESS_UNIFORM_READ, image_layout: vk::IMAGE_LAYOUT_UNDEFINED },
        AccessType::ComputeShaderReadSampledImageOrUniformTexelBuffer => AccessInfo { stage_mask: vk::STAGE_COMPUTE_SHADER, access_mask: vk::ACCESS_SHADER_READ, image_layout: vk::IMAGE_LAYOUT_SHADER_READ_ONLY_OPTIMAL },
        AccessType::ComputeShaderReadOther => AccessInfo { stage_mask: vk::STAGE_COMPUTE_SHADER, access_mask: vk::ACCESS_SHADER_READ, image_layout: vk::IMAGE_LAYOUT_GENERAL },
        AccessType::AnyShaderReadUniformBuffer => AccessInfo { stage_mask: vk::STAGE_ALL_COMMANDS, access_mask: vk::ACCESS_UNIFORM_READ, image_layout: vk::IMAGE_LAYOUT_UNDEFINED },
        AccessType::AnyShaderReadUniformBufferOrVertexBuffer => AccessInfo { stage_mask: vk::STAGE_ALL_COMMANDS, access_mask: vk::ACCESS_UNIFORM_OR_VERTEX_ATTRIBUTE_READ, image_layout: vk::IMAGE_LAYOUT_UNDEFINED },
        AccessType::AnyShaderReadSampledImageOrUniformTexelBuffer => AccessInfo { stage_mask: vk::STAGE_ALL_COMMANDS, access_mask: vk::ACCESS_SHADER_READ, image_layout: vk::IMAGE_LAYOUT_SHADER_READ_ONLY_OPTIMAL },
        AccessType::AnyShaderReadOther => AccessInfo { stage_mask: vk::STAGE_ALL_COMMANDS, access_mask: vk::ACCESS_SHADER_READ, image_layout: vk::IMAGE_LAYOUT_GENERAL },
        AccessType::TransferRead => AccessInfo { stage_mask: vk::STAGE_TRANSFER, access_mask: vk::ACCESS_TRANSFER_READ, image_layout: vk::IMAGE_LAYOUT_TRANSFER_SRC_OPTIMAL },
        AccessType::HostRead => AccessInfo { stage_mask: vk::STAGE_HOST, access_mask: vk::ACCESS_HOST_READ, image_layout: vk::IMAGE_LAYOUT_GENERAL },
        AccessType::Present => AccessInfo { stage_mask: 0, access_mask: 0, image_layout: vk::IMAGE_LAYOUT_PRESENT_SRC_KHR },
        AccessType::CommandBufferWriteNVX => AccessInfo { stage_mask: vk::STAGE_COMMAND_PREPROCESS_NV, access_mask: vk::ACCESS_COMMAND_PREPROCESS_WRITE_NV, image_layout: vk::IMAGE_LAYOUT_UNDEFINED },
        AccessType::VertexShaderWrite => AccessInfo { stage_mask: vk::STAGE_VERTEX_SHADER, access_mask: vk::ACCESS_SHADER_WRITE, image_layout: vk::IMAGE_LAYOUT_GENERAL },
        AccessType::TessellationControlShaderWrite => AccessInfo { stage_mask: vk::STAGE_TESSELLATION_CONTROL_SHADER, access_mask: vk::ACCESS_SHADER_WRITE, image_layout: vk::IMAGE_LAYOUT_GENERAL },
        AccessType::TessellationEvaluationShaderWrite => AccessInfo { stage_mask: vk::STAGE_TESSELLATION_EVALUATION_SHADER, access_mask: vk::ACCESS_SHADER_WRITE, image_layout: vk::IMAGE_LAYOUT_GENERAL },
        AccessType::GeometryShaderWrite => AccessInfo { stage_mask: vk::STAGE_GEOMETRY_SHADER, access_mask: vk::ACCESS_SHADER_WRITE, image_layout: vk::IMAGE_LAYOUT_GENERAL },
        AccessType::FragmentShaderWrite => AccessInfo { stage_mask: vk::STAGE_FRAGMENT_SHADER, access_mask: vk::ACCESS_SHADER_WRITE, image_layout: vk::IMAGE_LAYOUT_GENERAL },
        AccessType::ColorAttachmentWrite => AccessInfo { stage_mask: vk::STAGE_COLOR_ATTACHMENT_OUTPUT, access_mask: vk::ACCESS_COLOR_ATTACHMENT_WRITE, image_layout: vk::IMAGE_LAYOUT_COLOR_ATTACHMENT_OPTIMAL },
        AccessType::DepthStencilAttachmentWrite => AccessInfo { stage_mask: vk::STAGE_FRAGMENT_TESTS, access_mask: vk::ACCESS_DEPTH_STENCIL_ATTACHMENT_WRITE, image_layout: vk::IMAGE_LAYOUT_DEPTH_STENCIL_ATTACHMENT_OPTIMAL },
        AccessType::DepthAttachmentWriteStencilReadOnly => AccessInfo { stage_mask: vk::STAGE_FRAGMENT_TESTS, access_mask: vk::ACCESS_DEPTH_STENCIL_ATTACHMENT_READ_WRITE, image_layout: vk::IMAGE_LAYOUT_DEPTH_ATTACHMENT_STENCIL_READ_ONLY_OPTIMAL },
        AccessType::StencilAttachmentWriteDepthReadOnly => AccessInfo { stage_mask: vk::STAGE_FRAGMENT_TESTS, access_mask: vk::ACCESS_DEPTH_STENCIL_ATTACHMENT_READ_WRITE, image_layout: vk::IMAGE_LAYOUT_DEPTH_READ_ONLY_STENCIL_ATTACHMENT_OPTIMAL },
        AccessType::ComputeShaderWrite => AccessInfo { stage_mask: vk::STAGE_COMPUTE_SHADER, access_mask: vk::ACCESS_SHADER_WRITE, image_layout: vk::IMAGE_LAYOUT_GENERAL },
        AccessType::AnyShaderWrite => AccessInfo { stage_mask: vk::STAGE_ALL_COMMANDS, access_mask: vk::ACCESS_SHADER_WRITE, image_layout: vk::IMAGE_LAYOUT_GENERAL },
        AccessType::TransferWrite => AccessInfo { stage_mask: vk::STAGE_TRANSFER, access_mask: vk::ACCESS_TRANSFER_WRITE, image_layout: vk::IMAGE_LAYOUT_TRANSFER_DST_OPTIMAL },
        AccessType::HostWrite => AccessInfo { stage_mask: vk::STAGE_HOST, access_mask: vk::ACCESS_HOST_WRITE, image_layout: vk::IMAGE_LAYOUT_GENERAL },
        AccessType::ColorAttachmentReadWrite => AccessInfo { stage_mask: vk::STAGE_COLOR_ATTACHMENT_OUTPUT, access_mask: vk::ACCESS_COLOR_ATTACHMENT_READ_WRITE, image_layout: vk::IMAGE_LAYOUT_COLOR_ATTACHMENT_OPTIMAL },
        AccessType::General => AccessInfo { stage_mask: vk::STAGE_ALL_COMMANDS, access_mask: vk::ACCESS_MEMORY_READ_WRITE, image_layout: vk::IMAGE_LAYOUT_GENERAL },
        AccessType::RayTracingShaderReadSampledImageOrUniformTexelBuffer => AccessInfo { stage_mask: vk::STAGE_RAY_TRACING_SHADER_KHR, access_mask: vk::ACCESS_SHADER_READ, image_layout: vk::IMAGE_LAYOUT_SHADER_READ_ONLY_OPTIMAL },
        AccessType::RayTracingShaderReadColorInputAttachment => AccessInfo { stage_mask: vk::STAGE_RAY_TRACING_SHADER_KHR, access_mask: vk::ACCESS_INPUT_ATTACHMENT_READ, image_layout: vk::IMAGE_LAYOUT_SHADER_READ_ONLY_OPTIMAL },
        AccessType::RayTracingShaderReadDepthStencilInputAttachment => AccessInfo { stage_mask: vk::STAGE_RAY_TRACING_SHADER_KHR, access_mask: vk::ACCESS_INPUT_ATTACHMENT_READ, image_layout: vk::IMAGE_LAYOUT_DEPTH_STENCIL_READ_ONLY_OPTIMAL },
        AccessType::RayTracingShaderReadAccelerationStructure => AccessInfo { stage_mask: vk::STAGE_RAY_TRACING_SHADER_KHR, access_mask: vk::ACCESS_ACCELERATION_STRUCTURE_READ_KHR, image_layout: vk::IMAGE_LAYOUT_UNDEFINED },
        AccessType::RayTracingShaderReadOther => AccessInfo { stage_mask: vk::STAGE_RAY_TRACING_SHADER_KHR, access_mask: vk::ACCESS_SHADER_READ, image_layout: vk::IMAGE_LAYOUT_GENERAL },
        AccessType::AccelerationStructureBuildWrite => AccessInfo { stage_mask: vk::STAGE_ACCELERATION_STRUCTURE_BUILD_KHR, access_mask: vk::ACCESS_ACCELERATION_STRUCTURE_WRITE_KHR, image_layout: vk::IMAGE_LAYOUT_UNDEFINED },
        AccessType::AccelerationStructureBuildRead => AccessInfo { stage_mask: vk::STAGE_ACCELERATION_STRUCTURE_BUILD_KHR, access_mask: vk::ACCESS_ACCELERATION_STRUCTURE_READ_KHR, image_layout: vk::IMAGE_LAYOUT_UNDEFINED },
        AccessType::AccelerationStructureBufferWrite => AccessInfo { stage_mask: vk::STAGE_ACCELERATION_STRUCTURE_BUILD_KHR, access_mask: vk::ACCESS_TRANSFER_WRITE, image_layout: vk::IMAGE_LAYOUT_UNDEFINED },
    }
}
/// Whether an access mask records a write to memory.
pub open spec fn access_mask_writes(mask: u32) -> bool {
    mask & vk::ACCESS_WRITE_BITS != 0
}

/// An access type that only reads never carries a memory-write bit in its access mask,
/// and one that writes always does.
pub proof fn lemma_access_kind_agrees_with_access_mask(access: AccessType)
    ensures
        spec_is_read_only_access(access) ==> !access_mask_writes(spec_access_info(access).access_mask),
        spec_is_write_only_access(access) ==> access_mask_writes(spec_access_info(access).access_mask),
{
    assert(
        0u32 & 0x455540u32 == 0 && 0x1u32 & 0x455540u32 == 0 && 0x2u32 & 0x455540u32 == 0
        && 0x4u32 & 0x455540u32 == 0 && 0x8u32 & 0x455540u32 == 0 && 0xcu32 & 0x455540u32 == 0
        && 0x10u32 & 0x455540u32 == 0 && 0x20u32 & 0x455540u32 == 0 && 0x80u32 & 0x455540u32 == 0
        && 0x200u32 & 0x455540u32 == 0 && 0x800u32 & 0x455540u32 == 0 && 0x2000u32 & 0x455540u32 == 0
        && 0x20000u32 & 0x455540u32 == 0 && 0x200000u32 & 0x455540u32 == 0
        && 0x40u32 & 0x455540u32 != 0 && 0x100u32 & 0x455540u32 != 0 && 0x400u32 & 0x455540u32 != 0
        && 0x600u32 & 0x455540u32 != 0 && 0x1000u32 & 0x455540u32 != 0 && 0x4000u32 & 0x455540u32 != 0
        && 0x40000u32 & 0x455540u32 != 0
    ) by (bit_vector);
}

/// No access type both only reads and writes.
pub proof fn lemma_read_only_and_write_only_are_disjoint(access: AccessType)
    ensures
        !(spec_is_read_only_access(access) && spec_is_write_only_access(access)),
{
}

/// Render-target accesses split exactly into the reading and the writing ones,
/// and each of them is also a general read or write access.
pub proof fn lemma_raster_access_classification(access: AccessType)
    ensures
        spec_is_raster_access(access) <==> (spec_is_read_only_raster_access(access)
            || spec_is_write_only_raster_access(access)),
        spec_is_read_only_raster_access(access) ==> spec_is_read_only_access(access),
        spec_is_write_only_raster_access(access) ==> spec_is_write_only_access(access),
        !(spec_is_read_only_raster_access(access) && spec_is_write_only_raster_access(access)),
{
}

/// Render-target accesses run in the color-attachment output stage or the fragment tests.
pub proof fn lemma_raster_access_stages(access: AccessType)
    ensures
        spec_is_raster_access(access) ==> (spec_access_info(access).stage_mask
            == vk::STAGE_COLOR_ATTACHMENT_OUTPUT || spec_access_info(access).stage_mask
            == vk::STAGE_FRAGMENT_TESTS),
{
}

/// The image layout an access puts an image in follows from what the access does to its
/// memory: a transfer that writes needs the transfer-destination layout and one that reads the
/// transfer-source layout; shader writes go to the general layout; render-target accesses use
/// the attachment layouts (color output the color attachment layout, fragment tests a
/// depth-stencil layout); a read-only layout is never that of a write, nor the
/// transfer-destination layout that of a read.
pub proof fn lemma_access_layout_follows_access_mask(access: AccessType)
    ensures
        ({
            let info = spec_access_info(access);
            &&& (info.stage_mask == vk::STAGE_TRANSFER && info.access_mask == vk::ACCESS_TRANSFER_WRITE)
                ==> info.image_layout == vk::IMAGE_LAYOUT_TRANSFER_DST_OPTIMAL
            &&& (info.stage_mask == vk::STAGE_TRANSFER && info.access_mask == vk::ACCESS_TRANSFER_READ)
                ==> info.image_layout == vk::IMAGE_LAYOUT_TRANSFER_SRC_OPTIMAL
            &&& info.image_layout == vk::IMAGE_LAYOUT_TRANSFER_DST_OPTIMAL ==> info.access_mask
                == vk::ACCESS_TRANSFER_WRITE
            &&& info.image_layout == vk::IMAGE_LAYOUT_TRANSFER_SRC_OPTIMAL ==> info.access_mask
                == vk::ACCESS_TRANSFER_READ
            &&& info.access_mask == vk::ACCESS_SHADER_WRITE ==> info.image_layout == vk::IMAGE_LAYOUT_GENERAL
            &&& info.stage_mask == vk::STAGE_COLOR_ATTACHMENT_OUTPUT ==> info.image_layout
                == vk::IMAGE_LAYOUT_COLOR_ATTACHMENT_OPTIMAL
            &&& info.stage_mask == vk::STAGE_FRAGMENT_TESTS ==> (info.image_layout
                == vk::IMAGE_LAYOUT_DEPTH_STENCIL_ATTACHMENT_OPTIMAL || info.image_layout
                == vk::IMAGE_LAYOUT_DEPTH_STENCIL_READ_ONLY_OPTIMAL || info.image_layout
                == vk::IMAGE_LAYOUT_DEPTH_ATTACHMENT_STENCIL_READ_ONLY_OPTIMAL || info.image_layout
                == vk::IMAGE_LAYOUT_DEPTH_READ_ONLY_STENCIL_ATTACHMENT_OPTIMAL)
            &&& spec_is_write_only_access(access) ==> (info.image_layout != vk::IMAGE_LAYOUT_SHADER_READ_ONLY_OPTIMAL
                && info.image_layout != vk::IMAGE_LAYOUT_DEPTH_STENCIL_READ_ONLY_OPTIMAL && info.image_layout
                != vk::IMAGE_LAYOUT_TRANSFER_SRC_OPTIMAL && info.image_layout != vk::IMAGE_LAYOUT_PRESENT_SRC_KHR)
            &&& spec_is_read_only_access(access) ==> (info.image_layout != vk::IMAGE_LAYOUT_TRANSFER_DST_OPTIMAL
                && info.image_layout != vk::IMAGE_LAYOUT_DEPTH_STENCIL_ATTACHMENT_OPTIMAL)
        }),
{
}

} // verus!
