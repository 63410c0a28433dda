use std::sync::Arc;

use raven_rg::barrier::AccessType;
use raven_rg::buffer::{Buffer, BufferDesc};
use raven_rg::descriptor::{is_binding_supported, DESCRIPTOR_TYPE_SAMPLED_IMAGE, DESCRIPTOR_TYPE_SAMPLER, DESCRIPTOR_TYPE_STORAGE_BUFFER, DESCRIPTOR_TYPE_UNIFORM_BUFFER, SHADER_STAGE_ALL};
use raven_rg::draw_frame::{DescriptorPool, DeviceFrames};
use raven_rg::dynamic_buffer::{DynamicBuffer, MAX_DYNAMIC_BUFFER_SIZE_BYTES};
use raven_rg::executing_graph::RecordedCommand;
use raven_rg::graph_builder::{GetOrCreateTemporal, TemporalResource, TemporalResourceKey, TemporalResourceState};
use raven_rg::graph_executor::{GraphExecutor, RenderGraphTemporalResources};
use raven_rg::image::{Image, ImageDesc};
use raven_rg::pipeline::{is_ray_tracing_stage_order_valid, BindingCount, DescriptorInfo};
use raven_rg::reflection::{reflect_shader_stage, spirv_framed, ShaderReflectionError};
use raven_rg::set_layout::{
    add_descriptor_set_layouts, apply_set_layout_overwrites, flatten_all_stages_descriptor_set_layouts,
    plan_set_layouts_with_unified_stage,
};
use raven_rg::shader::PipelineShaderStage;
use raven_rg::vk;

fn one_info(ty: u32, name: &str) -> DescriptorInfo {
    DescriptorInfo { ty, binding_count: BindingCount::One, name: name.to_string() }
}

fn words_to_bytes(words: &[u32]) -> Vec<u8> {
    words.iter().flat_map(|w| w.to_le_bytes()).collect()
}

/// A compute module with two samplers: `sampler_llr` at set 0 binding 3 and `sampler_nnce` at
/// set 1 binding 0, and a workgroup of 8 x 4 x 1.
fn compute_module() -> Vec<u8> {
    let op = |count: u32, opcode: u32| (count << 16) | opcode;
    words_to_bytes(&[
        0x0723_0203, 0x0001_0000, 0, 9, 0,
        op(2, 17), 1,
        op(3, 14), 0, 1,
        op(5, 15), 5, 1, 0x6E69_616D, 0,
        op(6, 16), 1, 17, 8, 4, 1,
        op(5, 5), 5, 0x706D_6173, 0x5F72_656C, 0x0072_6C6C,
        op(6, 5), 8, 0x706D_6173, 0x5F72_656C, 0x6563_6E6E, 0,
        op(4, 71), 5, 34, 0,
        op(4, 71), 5, 33, 3,
        op(4, 71), 8, 34, 1,
        op(4, 71), 8, 33, 0,
        op(2, 19), 2,
        op(3, 33), 3, 2,
        op(2, 26), 6,
        op(4, 32), 7, 0, 6,
        op(4, 59), 7, 5, 0,
        op(4, 59), 7, 8, 0,
        op(5, 54), 2, 1, 0, 3,
        op(2, 248), 4,
        op(1, 253),
        op(1, 56),
    ])
}

fn library_sets(spirv: &[u8]) -> Vec<(u32, Vec<(u32, DescriptorInfo)>)> {
    rspirv_reflect::Reflection::new_from_spirv(spirv)
        .unwrap()
        .get_descriptor_sets()
        .unwrap()
        .into_iter()
        .map(|(s, b)| {
            (
                s,
                b.into_iter()
                    .map(|(k, i)| (k, DescriptorInfo { ty: i.ty.0, binding_count: BindingCount::One, name: i.name }))
                    .collect(),
            )
        })
        .collect()
}

#[test]
fn reflection_reads_sets_and_workgroup() {
    let module = compute_module();
    assert!(spirv_framed(&module));
    let sets = library_sets(&module);
    assert_eq!(
        sets,
        vec![
            (0, vec![(3, one_info(DESCRIPTOR_TYPE_SAMPLER, "sampler_llr"))]),
            (1, vec![(0, one_info(DESCRIPTOR_TYPE_SAMPLER, "sampler_nnce"))]),
        ]
    );
    let reflection = reflect_shader_stage(&module, Some(sets.clone()), Some(None)).expect("the module parses");
    assert_eq!(reflection.compute_group_size, Some([8, 4, 1]));
    assert_eq!(reflection.push_constants, None);
    assert_eq!(reflection.descriptor_sets, sets);
    assert_eq!(
        reflect_shader_stage(&module, None, Some(None)).err(),
        Some(ShaderReflectionError::DescriptorSets)
    );
    assert_eq!(
        reflect_shader_stage(&module, Some(sets), None).err(),
        Some(ShaderReflectionError::PushConstants)
    );
}

#[test]
fn reflection_refuses_what_is_not_spirv() {
    assert_eq!(
        reflect_shader_stage(&[1, 2, 3, 4, 5, 6, 7, 8], Some(Vec::new()), Some(None)).err(),
        Some(ShaderReflectionError::InvalidSpirv)
    );
    assert_eq!(reflect_shader_stage(&[], Some(Vec::new()), Some(None)).err(), Some(ShaderReflectionError::InvalidSpirv));
}

#[test]
fn unframed_modules_are_told_apart() {
    let mut module = compute_module();
    assert!(spirv_framed(&module));
    // The last instruction claims two more words than the module holds.
    let n = module.len();
    module[n - 2] = 3;
    assert!(!spirv_framed(&module));
    assert!(spirv_framed(&[]));
}

#[test]
fn joining_stages_keeps_the_first_declaration() {
    let vertex = vec![
        (0u32, vec![(0u32, one_info(DESCRIPTOR_TYPE_UNIFORM_BUFFER, "frame")), (2, one_info(DESCRIPTOR_TYPE_SAMPLED_IMAGE, "tex"))]),
        (2u32, vec![(0u32, one_info(DESCRIPTOR_TYPE_STORAGE_BUFFER, "globals"))]),
    ];
    let pixel = vec![
        (0u32, vec![
            (1u32, one_info(DESCRIPTOR_TYPE_SAMPLER, "sampler_llr")),
            (2, DescriptorInfo { ty: DESCRIPTOR_TYPE_SAMPLED_IMAGE, binding_count: BindingCount::StaticSized(2), name: "tex".to_string() }),
        ]),
        (1u32, vec![(5u32, one_info(DESCRIPTOR_TYPE_STORAGE_BUFFER, "data"))]),
    ];
    let flat = flatten_all_stages_descriptor_set_layouts(vec![vertex, pixel]);
    assert_eq!(flat.len(), 3);
    assert_eq!(flat[0].0, 0);
    assert_eq!(flat[0].1.iter().map(|(b, _)| *b).collect::<Vec<_>>(), vec![0, 1, 2]);
    assert_eq!(flat[0].1[2].1.binding_count, BindingCount::One);
    assert_eq!(flat[1], (1, vec![(5, one_info(DESCRIPTOR_TYPE_STORAGE_BUFFER, "data"))]));
    assert_eq!(flat[2].0, 2);
    assert!(flatten_all_stages_descriptor_set_layouts(vec![]).is_empty());
}

#[test]
fn adding_layouts_into_an_empty_one_copies_them() {
    let mut add_to = Vec::new();
    let consumed = vec![(4u32, vec![(1u32, one_info(DESCRIPTOR_TYPE_UNIFORM_BUFFER, "u"))])];
    add_descriptor_set_layouts(consumed.clone(), &mut add_to);
    assert_eq!(add_to, consumed);
    add_descriptor_set_layouts(consumed.clone(), &mut add_to);
    assert_eq!(add_to, consumed);
}

#[test]
fn overwrite_replaces_set_one_only_when_declared() {
    let custom = vec![(0u32, one_info(DESCRIPTOR_TYPE_STORAGE_BUFFER, "custom"))];
    let mut with_set_one = vec![
        (0u32, vec![(0u32, one_info(DESCRIPTOR_TYPE_UNIFORM_BUFFER, "a"))]),
        (1u32, vec![(7u32, one_info(DESCRIPTOR_TYPE_UNIFORM_BUFFER, "b"))]),
    ];
    apply_set_layout_overwrites(&mut with_set_one, vec![None, Some(custom.clone()), None, None]);
    assert_eq!(with_set_one[1], (1, custom.clone()));
    assert_eq!(with_set_one[0].1[0].1.name, "a");

    let mut without = vec![(0u32, vec![(0u32, one_info(DESCRIPTOR_TYPE_UNIFORM_BUFFER, "a"))])];
    apply_set_layout_overwrites(&mut without, vec![Some(custom.clone()), None, None, None]);
    assert_eq!(without.len(), 1);

    let later = vec![(9u32, one_info(DESCRIPTOR_TYPE_UNIFORM_BUFFER, "later"))];
    let mut sets = vec![(1u32, vec![])];
    apply_set_layout_overwrites(&mut sets, vec![Some(custom), None, Some(later.clone()), None]);
    assert_eq!(sets, vec![(1, later)]);
}

#[test]
fn every_set_up_to_the_highest_gets_a_layout() {
    let sets = vec![
        (0u32, vec![(0u32, one_info(DESCRIPTOR_TYPE_UNIFORM_BUFFER, "a"))]),
        (2u32, vec![(1u32, one_info(DESCRIPTOR_TYPE_STORAGE_BUFFER, "b")), (4, one_info(DESCRIPTOR_TYPE_SAMPLED_IMAGE, "t"))]),
    ];
    let plans = plan_set_layouts_with_unified_stage(&sets, 0x20, 100);
    assert_eq!(plans.len(), 3);
    assert_eq!(plans[0].bindings.len(), 1);
    assert_eq!(plans[0].bindings[0].stage_flags, 0x20);
    assert!(plans[1].bindings.is_empty());
    assert_eq!(plans[1].create_flags, 0);
    assert_eq!(plans[2].bindings.len(), 2);
    assert_eq!(plans[2].bindings[1].binding, 4);
    assert_eq!(plans[2].bindings[0].stage_flags, SHADER_STAGE_ALL);
    assert!(plan_set_layouts_with_unified_stage(&vec![], 0x20, 100).is_empty());
}

#[test]
fn supported_bindings() {
    assert!(is_binding_supported(&one_info(DESCRIPTOR_TYPE_UNIFORM_BUFFER, "u")));
    assert!(is_binding_supported(&one_info(DESCRIPTOR_TYPE_SAMPLER, "sampler_nnr")));
    assert!(!is_binding_supported(&one_info(DESCRIPTOR_TYPE_SAMPLER, "my_sampler")));
    assert!(!is_binding_supported(&DescriptorInfo {
        ty: DESCRIPTOR_TYPE_STORAGE_BUFFER,
        binding_count: BindingCount::Unbounded,
        name: "all".to_string()
    }));
    assert!(is_binding_supported(&DescriptorInfo {
        ty: DESCRIPTOR_TYPE_SAMPLED_IMAGE,
        binding_count: BindingCount::Unbounded,
        name: "all".to_string()
    }));
}

#[test]
fn ray_tracing_stage_orders() {
    assert!(is_ray_tracing_stage_order_valid(&vec![PipelineShaderStage::RayGen, PipelineShaderStage::RayMiss]));
    assert!(is_ray_tracing_stage_order_valid(&vec![PipelineShaderStage::RayGen, PipelineShaderStage::RayGen, PipelineShaderStage::RayMiss, PipelineShaderStage::RayClosestHit, PipelineShaderStage::RayClosestHit]));
    assert!(!is_ray_tracing_stage_order_valid(&vec![PipelineShaderStage::RayGen]));
    assert!(!is_ray_tracing_stage_order_valid(&vec![PipelineShaderStage::RayMiss, PipelineShaderStage::RayGen]));
    assert!(!is_ray_tracing_stage_order_valid(&vec![PipelineShaderStage::RayGen, PipelineShaderStage::RayClosestHit]));
    assert!(!is_ray_tracing_stage_order_valid(&vec![PipelineShaderStage::RayGen, PipelineShaderStage::RayMiss, PipelineShaderStage::Vertex]));
    assert!(!is_ray_tracing_stage_order_valid(&vec![]));
}

fn executor() -> GraphExecutor {
    let buffer = Buffer {
        raw: 1,
        desc: BufferDesc::new_cpu_to_gpu(MAX_DYNAMIC_BUFFER_SIZE_BYTES * 2, vk::BUFFER_USAGE_UNIFORM_BUFFER),
    };
    GraphExecutor::new(DynamicBuffer::new(buffer, 256, 64, 65536, 1 << 27), 5)
}

fn color() -> ImageDesc {
    ImageDesc::new_2d([4, 4], vk::FORMAT_R8G8B8A8_UNORM)
}

/// Prepares a frame whose one pass reads the history image and writes the swapchain.
fn prepare(executor: &mut GraphExecutor, pipelines_ready: bool) -> bool {
    let mut builder = executor.begin_prepare();
    let mut history = builder
        .get_or_create_temporal(TemporalResourceKey("history".to_string()), color(), |d| Some(Image { raw: 42, desc: d }))
        .unwrap();
    let rg = &mut builder.render_graph;
    let mut swapchain = rg.get_swapchain([4, 4]);
    let mut pass = rg.add_pass("present");
    pass.read(&mut history, AccessType::ComputeShaderReadOther);
    pass.write(&mut swapchain, AccessType::ComputeShaderWrite);
    pass.finish(rg);
    let exported = executor.finish_prepare(builder);
    executor.complete_prepare(exported, pipelines_ready)
}

fn draw_with(executor: &mut GraphExecutor, frames: &mut DeviceFrames) -> Option<Vec<RecordedCommand>> {
    let create_image = |d: ImageDesc| Image { raw: 100, desc: d };
    let create_buffer = |d: BufferDesc| Buffer { raw: 200, desc: d };
    let mut commands = Vec::new();
    let frame = executor.begin_draw(frames, 64, &create_image, &create_buffer, &mut commands)?;
    assert_eq!(frame.layout.frame_constants_offset % 256, 0);
    let swapchain = Arc::new(Image { raw: 7, desc: ImageDesc::new_2d([4, 4], vk::FORMAT_B8G8R8A8_UNORM) });
    executor.end_draw(frames, frame, &mut commands, swapchain);
    Some(commands)
}

fn draw(executor: &mut GraphExecutor) -> Option<Vec<RecordedCommand>> {
    draw_with(executor, &mut DeviceFrames::new())
}

#[test]
fn drawing_moves_the_device_to_its_next_frame_slot() {
    let mut executor = executor();
    let mut frames = DeviceFrames::new();
    assert_eq!(frames.get_device_frame_index(), 0);
    assert!(draw_with(&mut executor, &mut frames).is_none());
    assert_eq!(frames.get_device_frame_index(), 0);
    frames.defer_release(DescriptorPool { raw: 9 });
    assert!(prepare(&mut executor, true));
    let create_image = |d: ImageDesc| Image { raw: 100, desc: d };
    let create_buffer = |d: BufferDesc| Buffer { raw: 200, desc: d };
    let mut commands = Vec::new();
    let frame = executor.begin_draw(&mut frames, 64, &create_image, &create_buffer, &mut commands).unwrap();
    assert_eq!(frame.stale.descriptor_pools, vec![DescriptorPool { raw: 9 }]);
    let swapchain = Arc::new(Image { raw: 7, desc: ImageDesc::new_2d([4, 4], vk::FORMAT_B8G8R8A8_UNORM) });
    executor.end_draw(&mut frames, frame, &mut commands, swapchain);
    assert_eq!(frames.get_device_frame_index(), 1);
    assert!(prepare(&mut executor, true));
    assert!(draw_with(&mut executor, &mut frames).is_some());
    assert_eq!(frames.get_device_frame_index(), 0);
}

#[test]
fn released_resources_wait_until_their_slot_comes_round() {
    let mut frames = DeviceFrames::new();
    assert!(frames.begin_frame().descriptor_pools.is_empty());
    frames.defer_release(DescriptorPool { raw: 3 });
    frames.defer_release(Buffer { raw: 4, desc: BufferDesc::new_gpu_only(16, vk::BUFFER_USAGE_UNIFORM_BUFFER) });
    frames.end_frame();
    assert_eq!(frames.get_device_frame_index(), 1);
    let next = frames.begin_frame();
    assert!(next.descriptor_pools.is_empty() && next.buffers.is_empty());
    frames.end_frame();
    assert_eq!(frames.get_device_frame_index(), 0);
    let back = frames.begin_frame();
    assert_eq!(back.descriptor_pools, vec![DescriptorPool { raw: 3 }]);
    assert_eq!(back.buffers.len(), 1);
    assert_eq!(back.buffers[0].raw, 4);
    assert!(frames.begin_frame().buffers.is_empty());
}

#[test]
fn executor_draws_nothing_before_a_frame_is_prepared() {
    let mut executor = executor();
    assert!(draw(&mut executor).is_none());
    assert!(matches!(executor.temporal_resources, RenderGraphTemporalResources::Inert(_)));
}

#[test]
fn executor_frame_round_trip() {
    let mut executor = executor();
    assert!(prepare(&mut executor, true));
    assert!(executor.compiled_rg.is_some());
    assert!(matches!(executor.temporal_resources, RenderGraphTemporalResources::Exported(_)));
    let commands = draw(&mut executor).expect("a prepared frame is drawn");
    assert!(matches!(commands.last(), Some(RecordedCommand::RunPass(p)) if p.name == "present"));
    assert!(executor.compiled_rg.is_none());
    assert_eq!(executor.global_dynamic_buffer.current_frame, 1);
    assert_eq!(executor.global_dynamic_buffer.current_offset(), MAX_DYNAMIC_BUFFER_SIZE_BYTES as u32);
    match &executor.temporal_resources {
        RenderGraphTemporalResources::Inert(registry) => {
            assert_eq!(registry.entries.len(), 1);
            match &registry.entries[0].1 {
                TemporalResourceState::Inert { resource: TemporalResource::Image(image), access } => {
                    assert_eq!(image.raw, 42);
                    assert_eq!(*access, AccessType::ComputeShaderReadOther);
                }
                _ => panic!("the history image is inert after the frame"),
            }
        }
        RenderGraphTemporalResources::Exported(_) => panic!("the frame is over"),
    }
    assert!(prepare(&mut executor, true));
    assert!(draw(&mut executor).is_some());
    assert_eq!(executor.global_dynamic_buffer.current_frame, 0);
}

#[test]
fn executor_keeps_resources_when_pipelines_fail() {
    let mut executor = executor();
    assert!(!prepare(&mut executor, false));
    match &executor.temporal_resources {
        RenderGraphTemporalResources::Inert(registry) => {
            assert_eq!(registry.entries.len(), 1);
            match &registry.entries[0].1 {
                TemporalResourceState::Inert { resource: TemporalResource::Image(image), access } => {
                    assert_eq!(image.raw, 42);
                    assert_eq!(*access, AccessType::Nothing);
                }
                _ => panic!("the history image is kept inert"),
            }
        }
        RenderGraphTemporalResources::Exported(_) => panic!("nothing is exported after a failed prepare"),
    }
    assert!(prepare(&mut executor, true));
    let resources = {
        draw(&mut executor).unwrap();
        executor.shutdown()
    };
    assert_eq!(resources.dynamic_buffer.raw, 1);
    assert_eq!(resources.temporal_resources.len(), 1);
    assert!(resources.compute_pipelines.is_empty());
}
