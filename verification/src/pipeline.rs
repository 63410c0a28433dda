//! Descriptions of raster, compute and ray tracing pipelines.
use vstd::prelude::*;

use std::sync::Arc;

use crate::buffer::Buffer;
use crate::renderpass::RenderPass;
use crate::shader::{PipelineShaderStage, ShaderSource};

verus! {

/// How many descriptors a binding holds.
#[derive(Clone, Copy, Debug, PartialEq, Eq, Hash, Structural)]
pub enum BindingCount {
    One,
    StaticSized(usize),
    Unbounded,
}

/// A descriptor binding as the shader declares it.
#[derive(Clone, Debug, PartialEq, Eq, Hash)]
pub struct DescriptorInfo {
    /// `VkDescriptorType` value.
    pub ty: u32,
    pub binding_count: BindingCount,
    pub name: String,
}

/// The bindings of one descriptor set, by increasing binding index.
pub type PipelineSetBindings = Vec<(u32, DescriptorInfo)>;

#[derive(Clone, Copy, Debug, PartialEq, Eq, Structural)]
pub enum RasterPipelinePrimitiveTopology {
    LineList,
    TriangleList,
}

#[derive(Clone, Copy, Debug, PartialEq, Eq, Structural)]
pub enum RasterPipelineCullMode {
    Back,
    Front,
    /// No face is culled.
    NoCull,
    FrontAndBack,
}

/// Description of a raster pipeline.
#[derive(Clone)]
pub struct RasterPipelineDesc {
    pub render_pass: Arc<RenderPass>,
    pub cull_mode: RasterPipelineCullMode,
    pub topology: RasterPipelinePrimitiveTopology,
    pub depth_bias: bool,
    /// Set layouts that replace those the shaders declare.
    pub custom_set_layout_overwrites: [Option<PipelineSetBindings>; 4],
    pub depth_test: bool,
    pub depth_write: bool,
}

/// Description of a compute pipeline.
#[derive(Clone, Debug)]
pub struct ComputePipelineDesc {
    pub source: ShaderSource,
    /// Set layouts that replace those the shader declares.
    pub custom_set_layout_overwrites: [Option<PipelineSetBindings>; 4],
}

/// Description of a ray tracing pipeline.
#[derive(Clone, Debug)]
pub struct RayTracingPipelineDesc {
    /// Set layouts that replace those the shaders declare.
    pub custom_set_layout_overwrites: [Option<PipelineSetBindings>; 4],
    pub max_ray_recursive_depth: u32,
}

/// Number of shader binding table entries of each ray tracing shader group kind.
#[derive(Copy, Clone, Debug, PartialEq, Eq, Structural)]
pub struct RayTracingShaderBindingTableDesc {
    pub raygen_entry_count: u32,
    pub miss_entry_count: u32,
    pub hit_entry_count: u32,
}

/// The Vulkan objects a pipeline is made of: `VkPipelineLayout` and `VkPipeline` handles.
#[derive(Copy, Clone, Debug, PartialEq, Eq, Structural)]
pub struct CommonPipelinePtrs {
    pub pipeline_layout: u64,
    pub pipeline: u64,
}

/// How many descriptors of one type a descriptor pool holds (`VkDescriptorPoolSize`).
#[derive(Copy, Clone, Debug, PartialEq, Eq, Structural)]
pub struct DescriptorPoolSize {
    /// `VkDescriptorType` value.
    pub ty: i32,
    pub descriptor_count: u32,
}

/// The descriptor layout of a pipeline.
#[derive(Debug)]
pub struct CommonPipelineInfo {
    /// For each descriptor set, the `VkDescriptorType` of each binding.
    pub set_layout_infos: Vec<Vec<(u32, i32)>>,
    pub descriptor_pool_sizes: Vec<DescriptorPoolSize>,
    /// `VkDescriptorSetLayout` handles.
    pub descriptor_set_layouts: Vec<u64>,
    /// `VkPipelineBindPoint` value.
    pub pipeline_bind_point: i32,
}

/// A pipeline: its Vulkan objects and its descriptor layout.
#[derive(Debug)]
pub struct CommonPipeline {
    pub pipeline_ptrs: CommonPipelinePtrs,
    pub pipeline_info: CommonPipelineInfo,
}

/// A raster pipeline.
#[derive(Debug)]
pub struct RasterPipeline {
    pub pipeline: CommonPipeline,
}

/// A compute pipeline and the workgroup size of its shader.
#[derive(Debug)]
pub struct ComputePipeline {
    pub pipeline: CommonPipeline,
    pub dispatch_groups: [u32; 3],
}

/// A region of a shader binding table (`VkStridedDeviceAddressRegionKHR`).
#[derive(Copy, Clone, Debug, PartialEq, Eq, Structural)]
pub struct StridedDeviceAddressRegion {
    pub device_address: u64,
    pub stride: u64,
    pub size: u64,
}

/// The shader binding table of a ray tracing pipeline: one region, and the buffer holding it,
/// for each kind of ray tracing shader.
#[derive(Debug)]
pub struct RayTracingShaderBindingTable {
    pub raygen_shader_binding_table: StridedDeviceAddressRegion,
    pub raygen_shader_binding_table_buffer: Option<Buffer>,
    pub miss_shader_binding_table: StridedDeviceAddressRegion,
    pub miss_shader_binding_table_buffer: Option<Buffer>,
    pub hit_shader_binding_table: StridedDeviceAddressRegion,
    pub hit_shader_binding_table_buffer: Option<Buffer>,
    pub callable_shader_binding_table: StridedDeviceAddressRegion,
    pub callable_shader_binding_table_buffer: Option<Buffer>,
}

/// A ray tracing pipeline and its shader binding table.
#[derive(Debug)]
pub struct RayTracingPipeline {
    pub pipeline: CommonPipeline,
    pub sbt: RayTracingShaderBindingTable,
}

/// A pipeline of any kind: the Vulkan objects it is made of.
pub trait PipelineObject {
    spec fn spec_ptrs(&self) -> CommonPipelinePtrs;

    fn pipeline_ptrs(&self) -> (ptrs: CommonPipelinePtrs)
        ensures
            ptrs == self.spec_ptrs(),
    ;
}

impl PipelineObject for RasterPipeline {
    open spec fn spec_ptrs(&self) -> CommonPipelinePtrs {
        self.pipeline.pipeline_ptrs
    }

    fn pipeline_ptrs(&self) -> (ptrs: CommonPipelinePtrs) {
        self.pipeline.pipeline_ptrs
    }
}

impl PipelineObject for ComputePipeline {
    open spec fn spec_ptrs(&self) -> CommonPipelinePtrs {
        self.pipeline.pipeline_ptrs
    }

    fn pipeline_ptrs(&self) -> (ptrs: CommonPipelinePtrs) {
        self.pipeline.pipeline_ptrs
    }
}

impl PipelineObject for RayTracingPipeline {
    open spec fn spec_ptrs(&self) -> CommonPipelinePtrs {
        self.pipeline.pipeline_ptrs
    }

    fn pipeline_ptrs(&self) -> (ptrs: CommonPipelinePtrs) {
        self.pipeline.pipeline_ptrs
    }
}

/// A push constant range a shader declares.
#[derive(Copy, Clone, Debug, PartialEq, Eq, Structural)]
pub struct PushConstantInfo {
    pub offset: u32,
    pub size: u32,
}

/// The push constant range of a pipeline: the first one a stage declares; every stage that
/// declares one declares the same.
pub open spec fn spec_merged_push_constants(ranges: Seq<Option<PushConstantInfo>>) -> Option<PushConstantInfo>
    decreases ranges.len(),
{
    if ranges.len() == 0 {
        None
    } else {
        let prev = spec_merged_push_constants(ranges.drop_last());
        if prev is Some {
            prev
        } else {
            ranges.last()
        }
    }
}

/// The push constant range of a pipeline, from the ranges its stages declare, in stage
/// order. The stages' ranges must agree.
pub fn merge_push_constants(ranges: &Vec<Option<PushConstantInfo>>) -> (merged: Option<PushConstantInfo>)
    requires
        ranges@.len() > 0,
        forall|i: int, j: int|
            0 <= i < ranges@.len() && 0 <= j < ranges@.len() && ranges@[i] is Some && ranges@[j] is Some ==> (
            #[trigger] ranges@[i]) == (#[trigger] ranges@[j]),
    ensures
        merged == spec_merged_push_constants(ranges@),
        merged is Some <==> exists|i: int| 0 <= i < ranges@.len() && (#[trigger] ranges@[i]) is Some,
{
    let mut merged = ranges[0];
    let mut i: usize = 1;
    proof {
        assert(ranges@.take(1).drop_last() =~= Seq::<Option<PushConstantInfo>>::empty());
        assert(ranges@.take(1).last() == ranges@[0]);
        assert(spec_merged_push_constants(ranges@.take(1).drop_last()) == None::<PushConstantInfo>);
    }
    while i < ranges.len()
        invariant
            1 <= i <= ranges@.len(),
            merged == spec_merged_push_constants(ranges@.take(i as int)),
            merged is Some <==> exists|k: int| 0 <= k < i && (#[trigger] ranges@[k]) is Some,
        decreases ranges@.len() - i,
    {
        let rhs = ranges[i];
        merged = match (merged, rhs) {
            (Some(l), Some(_)) => Some(l),
            (Some(l), None) => Some(l),
            (None, r) => r,
        };
        proof {
            assert(ranges@.take(i + 1).drop_last() =~= ranges@.take(i as int));
            assert(ranges@.take(i + 1).last() == ranges@[i as int]);
        }
        i = i + 1;
    }
    proof {
        assert(ranges@.take(ranges@.len() as int) =~= ranges@);
    }
    merged
}

/// `VkPrimitiveTopology` of a raster pipeline topology.
pub fn topology_to_vk(topology: RasterPipelinePrimitiveTopology) -> (vk_topology: i32)
    ensures
        vk_topology == (match topology {
            RasterPipelinePrimitiveTopology::LineList => 1i32,
            RasterPipelinePrimitiveTopology::TriangleList => 3i32,
        }),
{
    match topology {
        RasterPipelinePrimitiveTopology::LineList => 1,
        RasterPipelinePrimitiveTopology::TriangleList => 3,
    }
}

/// `VkCullModeFlags` of a raster pipeline cull mode.
pub fn cull_mode_to_vk(cull_mode: RasterPipelineCullMode) -> (flags: u32)
    ensures
        flags == (match cull_mode {
            RasterPipelineCullMode::Back => 2u32,
            RasterPipelineCullMode::Front => 1u32,
            RasterPipelineCullMode::NoCull => 0u32,
            RasterPipelineCullMode::FrontAndBack => 3u32,
        }),
{
    match cull_mode {
        RasterPipelineCullMode::Back => 2,
        RasterPipelineCullMode::Front => 1,
        RasterPipelineCullMode::NoCull => 0,
        RasterPipelineCullMode::FrontAndBack => 3,
    }
}

/// `VK_DYNAMIC_STATE_VIEWPORT`, `VK_DYNAMIC_STATE_SCISSOR` and `VK_DYNAMIC_STATE_DEPTH_BIAS`.
pub const DYNAMIC_STATE_VIEWPORT: i32 = 0;
pub const DYNAMIC_STATE_SCISSOR: i32 = 1;
pub const DYNAMIC_STATE_DEPTH_BIAS: i32 = 3;

/// The states a raster pipeline sets when drawing: viewport and scissor, and the depth bias
/// when the pipeline has one.
pub fn raster_dynamic_states(depth_bias: bool) -> (states: Vec<i32>)
    ensures
        states@ == (if depth_bias {
            seq![DYNAMIC_STATE_VIEWPORT, DYNAMIC_STATE_SCISSOR, DYNAMIC_STATE_DEPTH_BIAS]
        } else {
            seq![DYNAMIC_STATE_VIEWPORT, DYNAMIC_STATE_SCISSOR]
        }),
{
    let mut states: Vec<i32> = Vec::new();
    states.push(DYNAMIC_STATE_VIEWPORT);
    states.push(DYNAMIC_STATE_SCISSOR);
    if depth_bias {
        states.push(DYNAMIC_STATE_DEPTH_BIAS);
    }
    proof {
        if depth_bias {
            assert(states@ =~= seq![DYNAMIC_STATE_VIEWPORT, DYNAMIC_STATE_SCISSOR, DYNAMIC_STATE_DEPTH_BIAS]);
        } else {
            assert(states@ =~= seq![DYNAMIC_STATE_VIEWPORT, DYNAMIC_STATE_SCISSOR]);
        }
    }
    states
}

/// The `VkShaderStageFlags` bit of a shader stage.
pub open spec fn spec_shader_stage_flag(stage: PipelineShaderStage) -> u32 {
    match stage {
        PipelineShaderStage::Vertex => 0x1,
        PipelineShaderStage::Pixel => 0x10,
        PipelineShaderStage::RayGen => 0x100,
        PipelineShaderStage::RayAnyHit => 0x200,
        PipelineShaderStage::RayClosestHit => 0x400,
        PipelineShaderStage::RayMiss => 0x800,
        PipelineShaderStage::RayCallable => 0x2000,
    }
}

/// The `VkShaderStageFlags` bit of a shader stage.
pub fn shader_stage_flag(stage: PipelineShaderStage) -> (flag: u32)
    ensures
        flag == spec_shader_stage_flag(stage),
{
    match stage {
        PipelineShaderStage::Vertex => 0x1,
        PipelineShaderStage::Pixel => 0x10,
        PipelineShaderStage::RayGen => 0x100,
        PipelineShaderStage::RayAnyHit => 0x200,
        PipelineShaderStage::RayClosestHit => 0x400,
        PipelineShaderStage::RayMiss => 0x800,
        PipelineShaderStage::RayCallable => 0x2000,
    }
}

/// `VK_SHADER_UNUSED_KHR`.
pub const SHADER_UNUSED: u32 = 0xffffffff;

/// `VK_RAY_TRACING_SHADER_GROUP_TYPE_GENERAL_KHR`.
pub const SHADER_GROUP_TYPE_GENERAL: i32 = 0;

/// `VK_RAY_TRACING_SHADER_GROUP_TYPE_TRIANGLES_HIT_GROUP_KHR`.
pub const SHADER_GROUP_TYPE_TRIANGLES_HIT_GROUP: i32 = 1;

/// A shader group of a ray tracing pipeline (`VkRayTracingShaderGroupCreateInfoKHR`).
#[derive(Copy, Clone, Debug, PartialEq, Eq, Structural)]
pub struct RayTracingShaderGroup {
    pub ty: i32,
    pub general_shader: u32,
    pub closest_hit_shader: u32,
    pub any_hit_shader: u32,
    pub intersection_shader: u32,
}

/// Whether a ray tracing stage may follow `prev`: ray generation shaders first, then miss
/// shaders, then closest hit shaders.
pub open spec fn spec_rt_stage_follows(prev: Option<PipelineShaderStage>, stage: PipelineShaderStage) -> bool {
    match stage {
        PipelineShaderStage::RayGen => prev is None || prev == Some(PipelineShaderStage::RayGen),
        PipelineShaderStage::RayMiss => prev == Some(PipelineShaderStage::RayGen) || prev == Some(
            PipelineShaderStage::RayMiss,
        ),
        PipelineShaderStage::RayClosestHit => prev == Some(PipelineShaderStage::RayMiss) || prev == Some(
            PipelineShaderStage::RayClosestHit,
        ),
        _ => false,
    }
}

/// Whether the stages of a ray tracing pipeline are in order: ray generation shaders, then at
/// least one miss shader, then closest hit shaders.
pub open spec fn spec_rt_stages_ordered(stages: Seq<PipelineShaderStage>) -> bool {
    &&& forall|i: int|
        0 <= i < stages.len() ==> spec_rt_stage_follows(
            if i == 0 {
                None
            } else {
                Some(stages[i - 1])
            },
            #[trigger] stages[i],
        )
    &&& exists|i: int| 0 <= i < stages.len() && #[trigger] stages[i] == PipelineShaderStage::RayMiss
}

/// Whether the stages of a ray tracing pipeline are in order: ray generation shaders, then at
/// least one miss shader, then closest hit shaders.
pub fn is_ray_tracing_stage_order_valid(stages: &Vec<PipelineShaderStage>) -> (r: bool)
    ensures
        r == spec_rt_stages_ordered(stages@),
{
    let mut prev: Option<PipelineShaderStage> = None;
    let mut has_miss = false;
    let mut i: usize = 0;
    while i < stages.len()
        invariant
            i <= stages@.len(),
            prev == (if i == 0 { None } else { Some(stages@[i - 1]) }),
            forall|k: int|
                0 <= k < i ==> spec_rt_stage_follows(
                    if k == 0 {
                        None
                    } else {
                        Some(stages@[k - 1])
                    },
                    #[trigger] stages@[k],
                ),
            has_miss == exists|k: int| 0 <= k < i && #[trigger] stages@[k] == PipelineShaderStage::RayMiss,
        decreases stages@.len() - i,
    {
        let stage = stages[i];
        let follows = match stage {
            PipelineShaderStage::RayGen => match prev {
                None => true,
                Some(PipelineShaderStage::RayGen) => true,
                _ => false,
            },
            PipelineShaderStage::RayMiss => match prev {
                Some(PipelineShaderStage::RayGen) => true,
                Some(PipelineShaderStage::RayMiss) => true,
                _ => false,
            },
            PipelineShaderStage::RayClosestHit => match prev {
                Some(PipelineShaderStage::RayMiss) => true,
                Some(PipelineShaderStage::RayClosestHit) => true,
                _ => false,
            },
            _ => false,
        };
        if !follows {
            proof {
                assert(!spec_rt_stage_follows(prev, stages@[i as int]));
            }
            return false;
        }
        if stage == PipelineShaderStage::RayMiss {
            has_miss = true;
        }
        proof {
            if !(stage == PipelineShaderStage::RayMiss) && has_miss {
                let k = choose|k: int| 0 <= k < i && #[trigger] stages@[k] == PipelineShaderStage::RayMiss;
                assert(0 <= k < i + 1 && stages@[k] == PipelineShaderStage::RayMiss);
            }
            if stage == PipelineShaderStage::RayMiss {
                assert(stages@[i as int] == PipelineShaderStage::RayMiss);
            }
        }
        prev = Some(stage);
        i = i + 1;
    }
    has_miss
}

/// The shader group of shader `i`: a general group for a ray generation or miss shader, a
/// triangle hit group for a closest hit shader.
pub open spec fn spec_rt_group(stage: PipelineShaderStage, i: u32) -> RayTracingShaderGroup {
    if stage == PipelineShaderStage::RayClosestHit {
        RayTracingShaderGroup {
            ty: SHADER_GROUP_TYPE_TRIANGLES_HIT_GROUP,
            general_shader: SHADER_UNUSED,
            closest_hit_shader: i,
            any_hit_shader: SHADER_UNUSED,
            intersection_shader: SHADER_UNUSED,
        }
    } else {
        RayTracingShaderGroup {
            ty: SHADER_GROUP_TYPE_GENERAL,
            general_shader: i,
            closest_hit_shader: SHADER_UNUSED,
            any_hit_shader: SHADER_UNUSED,
            intersection_shader: SHADER_UNUSED,
        }
    }
}

/// The number of stages of a kind.
pub open spec fn spec_count_stage(stages: Seq<PipelineShaderStage>, stage: PipelineShaderStage) -> nat
    decreases stages.len(),
{
    if stages.len() == 0 {
        0
    } else {
        spec_count_stage(stages.drop_last(), stage) + if stages.last() == stage {
            1nat
        } else {
            0nat
        }
    }
}

proof fn lemma_count_stage_positive(stages: Seq<PipelineShaderStage>, stage: PipelineShaderStage, k: int)
    requires
        0 <= k < stages.len(),
        stages[k] == stage,
    ensures
        spec_count_stage(stages, stage) > 0,
    decreases stages.len(),
{
    if k < stages.len() - 1 {
        lemma_count_stage_positive(stages.drop_last(), stage, k);
    }
}

/// The shader groups of a ray tracing pipeline, one per shader in order, and its shader
/// binding table: one raygen, miss or hit entry per shader of that kind.
#[verifier::spinoff_prover]
#[verifier::rlimit(40)]
pub fn plan_ray_tracing_shader_groups(stages: &Vec<PipelineShaderStage>) -> (res: (
    Vec<RayTracingShaderGroup>,
    RayTracingShaderBindingTableDesc,
))
    requires
        spec_rt_stages_ordered(stages@),
        stages@.len() < u32::MAX,
    ensures
        res.0@.len() == stages@.len(),
        forall|i: int| 0 <= i < stages@.len() ==> #[trigger] res.0@[i] == spec_rt_group(stages@[i], i as u32),
        res.1.raygen_entry_count == spec_count_stage(stages@, PipelineShaderStage::RayGen),
        res.1.miss_entry_count == spec_count_stage(stages@, PipelineShaderStage::RayMiss),
        res.1.hit_entry_count == spec_count_stage(stages@, PipelineShaderStage::RayClosestHit),
        res.1.raygen_entry_count > 0,
        res.1.miss_entry_count > 0,
{
    let mut groups: Vec<RayTracingShaderGroup> = Vec::new();
    let mut raygen: u32 = 0;
    let mut miss: u32 = 0;
    let mut hit: u32 = 0;
    let mut i: usize = 0;
    proof {
        assert(stages@.take(0) =~= Seq::<PipelineShaderStage>::empty());
        assert forall|k: int| 0 <= k < stages@.len() implies #[trigger] stages@[k] == PipelineShaderStage::RayGen
            || stages@[k] == PipelineShaderStage::RayMiss || stages@[k] == PipelineShaderStage::RayClosestHit by {
            assert(spec_rt_stage_follows(
                if k == 0 {
                    None
                } else {
                    Some(stages@[k - 1])
                },
                stages@[k],
            ));
        }
    }
    while i < stages.len()
        invariant
            i <= stages@.len(),
            stages@.len() < u32::MAX,
            forall|k: int|
                0 <= k < stages@.len() ==> #[trigger] stages@[k] == PipelineShaderStage::RayGen || stages@[k]
                    == PipelineShaderStage::RayMiss || stages@[k] == PipelineShaderStage::RayClosestHit,
            groups@.len() == i,
            forall|k: int| 0 <= k < i ==> #[trigger] groups@[k] == spec_rt_group(stages@[k], k as u32),
            raygen == spec_count_stage(stages@.take(i as int), PipelineShaderStage::RayGen),
            miss == spec_count_stage(stages@.take(i as int), PipelineShaderStage::RayMiss),
            hit == spec_count_stage(stages@.take(i as int), PipelineShaderStage::RayClosestHit),
            raygen + miss + hit <= i,
        decreases stages@.len() - i,
    {
        let stage = stages[i];
        let ghost t = stages@.take(i as int);
        proof {
            assert(stages@.take(i + 1).drop_last() =~= t);
            assert(stages@.take(i + 1).last() == stage);
        }
        match stage {
            PipelineShaderStage::RayClosestHit => {
                hit = hit + 1;
                groups.push(
                    RayTracingShaderGroup {
                        ty: SHADER_GROUP_TYPE_TRIANGLES_HIT_GROUP,
                        general_shader: SHADER_UNUSED,
                        closest_hit_shader: i as u32,
                        any_hit_shader: SHADER_UNUSED,
                        intersection_shader: SHADER_UNUSED,
                    },
                );
            },
            _ => {
                match stage {
                    PipelineShaderStage::RayGen => {
                        raygen = raygen + 1;
                    },
                    PipelineShaderStage::RayMiss => {
                        miss = miss + 1;
                    },
                    _ => {
                        assert(stages@[i as int] == stage);
                    },
                }
                groups.push(
                    RayTracingShaderGroup {
                        ty: SHADER_GROUP_TYPE_GENERAL,
                        general_shader: i as u32,
                        closest_hit_shader: SHADER_UNUSED,
                        any_hit_shader: SHADER_UNUSED,
                        intersection_shader: SHADER_UNUSED,
                    },
                );
            },
        }
        i = i + 1;
    }
    proof {
        assert(stages@.take(stages@.len() as int) =~= stages@);
        assert(spec_rt_stage_follows(None, stages@[0]));
        let m = choose|k: int| 0 <= k < stages@.len() && #[trigger] stages@[k] == PipelineShaderStage::RayMiss;
        lemma_count_stage_positive(stages@, PipelineShaderStage::RayGen, 0);
        lemma_count_stage_positive(stages@, PipelineShaderStage::RayMiss, m);
    }
    (groups, RayTracingShaderBindingTableDesc { raygen_entry_count: raygen, miss_entry_count: miss, hit_entry_count: hit })
}

} // verus!
