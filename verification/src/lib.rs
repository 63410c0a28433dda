//! A render graph for a Vulkan renderer: resource descriptions, pass declarations,
//! resource usage analysis, barrier planning, transient and temporal resource bookkeeping,
//! and the arithmetic of the GPU upload buffers.
use vstd::prelude::*;

pub mod vk;
pub mod math;
pub mod barrier;
pub mod image;
pub mod buffer;
pub mod ray_tracing;
pub mod resource;
pub mod graph_resource;
pub mod shader;
pub mod renderpass;
pub mod pipeline;
pub mod descriptor;
pub mod reflection;
pub mod set_layout;
pub mod swapchain;
pub mod physical_device;
pub mod pass;
pub mod pass_context;
pub mod resource_registry;
pub mod descriptor_binding;
pub mod graph;
pub mod graph_builder;
pub mod graph_executor;
pub mod image_clear;
pub mod transient_resource_cache;
pub mod pipeline_cache;
pub mod dynamic_buffer;
pub mod copy_engine;
pub mod compiled_graph;
pub mod executing_graph;
pub mod retired_graph;
pub mod draw_frame;
mod util;

verus! {

/// What the renderer is created with: the swapchain's extent, whether the validation layers
/// are on, and whether presentation waits for vertical sync.
#[derive(Clone, Copy, Debug)]
pub struct RhiConfig {
    pub swapchain_extent: [u32; 2],
    pub enable_debug: bool,
    pub enable_vsync: bool,
}

} // verus!
