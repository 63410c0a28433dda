use std::sync::Arc;

use raven_rg::barrier::AccessType;
use raven_rg::buffer::{Buffer, BufferDesc};
use raven_rg::executing_graph::RecordedCommand;
use raven_rg::graph::{RenderGraph, ResourceUsage};
use raven_rg::graph_builder::{
    GetOrCreateTemporal, RenderGraphBuilder, TemporalResource, TemporalResourceError,
    TemporalResourceKey, TemporalResourceRegistry, TemporalResourceState,
};
use raven_rg::image::{Image, ImageDesc};
use raven_rg::pipeline::{CommonPipeline, CommonPipelineInfo, CommonPipelinePtrs, ComputePipeline, ComputePipelineDesc};
use raven_rg::pipeline_cache::{ComputePipelineHandle, PipelineCache};
use raven_rg::shader::ShaderSource;
use raven_rg::transient_resource_cache::TransientResourceCache;
use raven_rg::vk;

fn key(name: &str) -> TemporalResourceKey {
    TemporalResourceKey(name.to_string())
}

fn color_desc() -> ImageDesc {
    ImageDesc::new_2d([4, 4], vk::FORMAT_R8G8B8A8_UNORM)
}

struct Frame {
    commands: Vec<RecordedCommand>,
    registry: TemporalResourceRegistry,
    usages: Vec<ResourceUsage>,
    last_access: Vec<Option<usize>>,
}

/// One frame: a compute pass reads the history and writes a transient image, then a blit pass
/// copies the transient image to the swapchain.
fn run_frame(registry: TemporalResourceRegistry, transient: &mut TransientResourceCache) -> Frame {
    let mut builder = RenderGraphBuilder::new(registry);
    let mut history = builder
        .get_or_create_temporal(key("history"), color_desc(), |d| Some(Image { raw: 42, desc: d }))
        .unwrap();

    let rg = &mut builder.render_graph;
    let mut swapchain = rg.get_swapchain([4, 4]);
    let mut tmp = rg.new_resource(color_desc());

    let mut pass = rg.add_pass("compute");
    pass.read(&mut history, AccessType::ComputeShaderReadSampledImageOrUniformTexelBuffer);
    pass.write(&mut tmp, AccessType::ComputeShaderWrite);
    pass.finish(rg);

    let mut pass = rg.add_pass("blit");
    pass.read(&mut tmp, AccessType::TransferRead);
    pass.write(&mut swapchain, AccessType::TransferWrite);
    pass.finish(rg);

    let (rg, exported) = builder.build();
    let mut pipelines = PipelineCache::new();
    let compiled = rg.compile(&mut pipelines);
    let usages = compiled.resource_infos.resource_usages.clone();
    let last_access = compiled.resource_infos.lifetimes.iter().map(|l| l.last_access).collect();

    let create_image = |d: ImageDesc| Image { raw: 100, desc: d };
    let create_buffer = |d: BufferDesc| Buffer { raw: 200, desc: d };
    let mut exec = compiled.prepare_execute(transient, &create_image, &create_buffer);
    let mut commands = Vec::new();
    exec.record_commands(&mut commands);
    let swapchain_image = Arc::new(Image { raw: 7, desc: ImageDesc::new_2d([4, 4], vk::FORMAT_B8G8R8A8_UNORM) });
    let retired = exec.record_present_commands(&mut commands, swapchain_image);
    let registry = exported.consume(&retired);
    retired.release_owned_resources(transient);
    Frame { commands, registry, usages, last_access }
}

fn pass_name(cmd: &RecordedCommand) -> Option<String> {
    match cmd {
        RecordedCommand::RunPass(pass) => Some(pass.name.clone()),
        RecordedCommand::Transition(_) => None,
    }
}

#[test]
fn frame_records_passes_in_order_with_barriers() {
    let mut transient = TransientResourceCache::new();
    let frame = run_frame(TemporalResourceRegistry::new(), &mut transient);
    let names: Vec<Option<String>> = frame.commands.iter().map(pass_name).collect();
    assert_eq!(
        names,
        vec![None, None, None, Some("compute".to_string()), None, Some("blit".to_string())]
    );
    match &frame.commands[4] {
        RecordedCommand::Transition(batch) => {
            assert_eq!(batch.image_barriers.len(), 2);
            assert!(batch.buffer_barriers.is_empty());
            assert_eq!(batch.image_barriers[0].resource, 2);
            assert_eq!(batch.image_barriers[0].prev_access, AccessType::ComputeShaderWrite);
            assert_eq!(batch.image_barriers[0].next_access, AccessType::TransferRead);
            assert_eq!(batch.image_barriers[1].resource, 1);
            assert_eq!(batch.image_barriers[1].next_access, AccessType::TransferWrite);
            assert_eq!(batch.image_barriers[1].aspect_mask, vk::ASPECT_COLOR);
        }
        RecordedCommand::RunPass(_) => panic!("expected the barriers of the blit pass"),
    }
}

#[test]
fn frame_analysis_gathers_usage_and_lifetimes() {
    let mut transient = TransientResourceCache::new();
    let frame = run_frame(TemporalResourceRegistry::new(), &mut transient);
    assert_eq!(frame.usages.len(), 3);
    assert_eq!(frame.usages[1], ResourceUsage::Image(vk::IMAGE_USAGE_TRANSFER_DST));
    assert_eq!(
        frame.usages[2],
        ResourceUsage::Image(vk::IMAGE_USAGE_STORAGE | vk::IMAGE_USAGE_TRANSFER_SRC)
    );
    assert_eq!(frame.last_access[1], Some(1));
    assert_eq!(frame.last_access[2], Some(1));
}

#[test]
fn temporal_resource_survives_frames_in_its_last_access() {
    let mut transient = TransientResourceCache::new();
    let frame = run_frame(TemporalResourceRegistry::new(), &mut transient);
    assert_eq!(frame.registry.entries.len(), 1);
    match &frame.registry.entries[0].1 {
        TemporalResourceState::Inert { resource: TemporalResource::Image(image), access } => {
            assert_eq!(image.raw, 42);
            assert_eq!(*access, AccessType::ComputeShaderReadSampledImageOrUniformTexelBuffer);
        }
        _ => panic!("the history image must be inert between frames"),
    }
    let frame = run_frame(frame.registry, &mut transient);
    assert_eq!(frame.registry.entries.len(), 1);
    assert!(frame.registry.entries[0].0.same_key(&key("history")));
}

#[test]
fn transient_images_are_reused_by_the_next_frame() {
    let mut transient = TransientResourceCache::new();
    let frame = run_frame(TemporalResourceRegistry::new(), &mut transient);
    let desc = color_desc().usage_flags(vk::IMAGE_USAGE_STORAGE | vk::IMAGE_USAGE_TRANSFER_SRC);
    let image = transient.get_image(&desc).expect("the created image goes back to the cache");
    assert_eq!(image.raw, 100);
    assert!(transient.get_image(&desc).is_none());
    transient.store_image(image);
    let _ = run_frame(frame.registry, &mut transient);
    assert!(transient.get_image(&desc).is_some());
    assert!(transient.get_image(&color_desc()).is_none());
}

#[test]
fn temporal_resource_errors() {
    let mut builder = RenderGraphBuilder::new(TemporalResourceRegistry::new());
    let failed = builder.get_or_create_temporal(key("a"), color_desc(), |_| None);
    assert_eq!(failed.err(), Some(TemporalResourceError::CreationFailed));
    assert!(builder.render_graph.resources.is_empty());
    assert!(builder.temporal_resources.entries.is_empty());
    let first = builder.get_or_create_temporal(key("a"), color_desc(), |d| Some(Image { raw: 1, desc: d }));
    assert!(first.is_ok());
    let again = builder.get_or_create_temporal(key("a"), color_desc(), |d| Some(Image { raw: 2, desc: d }));
    assert_eq!(again.err(), Some(TemporalResourceError::AlreadyTaken));
    let buffer = builder.get_or_create_temporal(
        key("b"),
        BufferDesc::new_gpu_only(16, vk::BUFFER_USAGE_STORAGE_BUFFER),
        |d| Some(Buffer { raw: 4, desc: d }),
    );
    assert!(buffer.is_ok());
    assert_eq!(builder.render_graph.resources.len(), 2);
    assert_eq!(builder.temporal_resources.entries.len(), 2);
}

#[test]
fn temporal_resource_of_the_other_kind_is_refused() {
    let mut transient = TransientResourceCache::new();
    let frame = run_frame(TemporalResourceRegistry::new(), &mut transient);
    let mut builder = RenderGraphBuilder::new(frame.registry);
    let as_buffer = builder.get_or_create_temporal(
        key("history"),
        BufferDesc::new_gpu_only(16, vk::BUFFER_USAGE_STORAGE_BUFFER),
        |d| Some(Buffer { raw: 3, desc: d }),
    );
    assert_eq!(as_buffer.err(), Some(TemporalResourceError::KindMismatch));
    let as_image = builder.get_or_create_temporal(key("history"), color_desc(), |_| None);
    let handle = as_image.expect("the kept image is taken without creating one");
    assert_eq!(handle.handle.id, 0);
    assert_eq!(handle.desc, color_desc());
}

#[test]
fn temporal_keys_compare_by_name() {
    assert!(key("x").same_key(&TemporalResourceKey::from("x".to_string())));
    assert!(!key("x").same_key(&key("y")));
}

#[test]
fn render_graph_handles_count_up() {
    let mut rg = RenderGraph::new();
    let a = rg.new_resource(color_desc());
    let b = rg.new_resource(BufferDesc::new_gpu_only(4, vk::BUFFER_USAGE_STORAGE_BUFFER));
    let c = rg.get_swapchain([8, 8]);
    assert_eq!(a.handle.id, 0);
    assert_eq!(b.handle.id, 1);
    assert_eq!(c.handle.id, 2);
    assert_eq!(a.handle.generation, 0);
    assert_eq!(a.handle.expired().generation, 1);
    assert_eq!(c.desc().extent, [8, 8, 1]);
    assert_eq!(a.desc().format, vk::FORMAT_R8G8B8A8_UNORM);
    assert!(a.clone_unchecked() == a);
}

fn compute_pipeline(raw: u64) -> ComputePipeline {
    ComputePipeline {
        pipeline: CommonPipeline {
            pipeline_ptrs: CommonPipelinePtrs { pipeline_layout: raw, pipeline: raw + 1 },
            pipeline_info: CommonPipelineInfo {
                set_layout_infos: Vec::new(),
                descriptor_pool_sizes: Vec::new(),
                descriptor_set_layouts: Vec::new(),
                pipeline_bind_point: 1,
            },
        },
        dispatch_groups: [8, 8, 1],
    }
}

fn compute_desc(path: &str) -> ComputePipelineDesc {
    ComputePipelineDesc {
        source: ShaderSource::Hlsl { path: path.to_string() },
        custom_set_layout_overwrites: [None, None, None, None],
    }
}

#[test]
fn pipeline_cache_registers_each_shader_once() {
    let mut cache = PipelineCache::new();
    let a = cache.register_compute_pipeline(compute_desc("a.hlsl"));
    let b = cache.register_compute_pipeline(compute_desc("b.hlsl"));
    let a2 = cache.register_compute_pipeline(compute_desc("a.hlsl"));
    assert_eq!(a.0, 0);
    assert_eq!(b.0, 1);
    assert_eq!(a2.0, 0);
    let (raster, compute, rt) = cache.pipelines_to_compile();
    assert!(raster.is_empty() && rt.is_empty());
    assert_eq!(compute, vec![0, 1]);
}

#[test]
fn pipeline_cache_hands_out_the_installed_pipeline() {
    let mut cache = PipelineCache::new();
    let a = cache.register_compute_pipeline(compute_desc("a.hlsl"));
    let b = cache.register_compute_pipeline(compute_desc("b.hlsl"));
    cache.set_compute_pipeline(b, compute_pipeline(10));
    let (_, compute, _) = cache.pipelines_to_compile();
    assert_eq!(compute, vec![a.0]);
    let p1 = cache.get_compute_pipeline(ComputePipelineHandle(1));
    let p2 = cache.get_compute_pipeline(b);
    assert!(Arc::ptr_eq(&p1, &p2));
    assert_eq!(p1.pipeline.pipeline_ptrs.pipeline, 11);
    assert_eq!(p1.dispatch_groups, [8, 8, 1]);
    let (_, built, _) = cache.clean();
    assert_eq!(built.len(), 1);
    assert!(Arc::ptr_eq(&built[0], &p1));
}

#[test]
fn stale_pipelines_are_released_a_frame_later() {
    let mut cache = PipelineCache::new();
    let a = cache.register_compute_pipeline(compute_desc("a.hlsl"));
    cache.set_compute_pipeline(a, compute_pipeline(20));
    let destroy = cache.discard_stale_pipelines(0, &vec![], &vec![false], &vec![]);
    assert!(destroy.is_empty());
    let (_, compute, _) = cache.pipelines_to_compile();
    assert_eq!(compute, vec![0]);
    let destroy = cache.discard_stale_pipelines(1, &vec![], &vec![true], &vec![]);
    assert!(destroy.is_empty());
    let destroy = cache.discard_stale_pipelines(0, &vec![], &vec![true], &vec![]);
    assert_eq!(destroy, vec![CommonPipelinePtrs { pipeline_layout: 20, pipeline: 21 }]);
}

#[test]
fn cached_images_are_taken_before_new_ones_are_made() {
    let mut rg = RenderGraph::new();
    let mut a = rg.new_resource(color_desc());
    let mut b = rg.new_resource(color_desc());
    let mut pass = rg.add_pass("fill");
    pass.write(&mut a, AccessType::ComputeShaderWrite);
    pass.write(&mut b, AccessType::ComputeShaderWrite);
    pass.finish(&mut rg);
    let mut pipelines = PipelineCache::new();
    let compiled = rg.compile(&mut pipelines);
    let desc = color_desc().usage_flags(vk::IMAGE_USAGE_STORAGE);
    let mut transient = TransientResourceCache::new();
    transient.store_image(Image { raw: 555, desc });
    let create_image = |d: ImageDesc| Image { raw: 100, desc: d };
    let create_buffer = |d: BufferDesc| Buffer { raw: 200, desc: d };
    let exec = compiled.prepare_execute(&mut transient, &create_image, &create_buffer);
    let raws: Vec<u64> = exec
        .registered_resources
        .iter()
        .map(|r| match &r.resource {
            raven_rg::compiled_graph::GraphPreparedResource::CreatedImage(i) => i.raw,
            _ => panic!("a created image"),
        })
        .collect();
    assert_eq!(raws, vec![555, 100]);
    assert!(transient.get_image(&desc).is_none());
}
