use std::sync::Arc;

use raven_rg::barrier::AccessType;
use raven_rg::buffer::{Buffer, BufferDesc};
use raven_rg::compiled_graph::{GraphPreparedResource, GraphPreparedResourceRef, RegisteredResource, RenderGraphPipelineHandles};
use raven_rg::graph_resource::{GraphRasterPipelineHandle, GraphResourceHandle};
use raven_rg::resource_registry::GraphResourceRegistry;
use raven_rg::graph::RenderGraph;
use raven_rg::image::{Image, ImageDesc, ImageType};
use raven_rg::image_clear::{clear_color, clear_depth_stencil};
use raven_rg::pipeline::{
    CommonPipeline, CommonPipelineInfo, CommonPipelinePtrs, RasterPipeline, RasterPipelineCullMode, RasterPipelineDesc,
    RasterPipelinePrimitiveTopology, RayTracingPipeline, RayTracingPipelineDesc, RayTracingShaderBindingTable,
    StridedDeviceAddressRegion,
};
use raven_rg::pipeline_cache::PipelineCache;
use raven_rg::renderpass::RenderPass;
use raven_rg::shader::{PipelineShaderDesc, PipelineShaderStage, ShaderSource};
use raven_rg::vk;

fn common(raw: u64) -> CommonPipeline {
    CommonPipeline {
        pipeline_ptrs: CommonPipelinePtrs { pipeline_layout: raw, pipeline: raw + 1 },
        pipeline_info: CommonPipelineInfo {
            set_layout_infos: Vec::new(),
            descriptor_pool_sizes: Vec::new(),
            descriptor_set_layouts: Vec::new(),
            pipeline_bind_point: 0,
        },
    }
}

fn shader(stage: PipelineShaderStage, path: &str) -> PipelineShaderDesc {
    PipelineShaderDesc {
        stage,
        push_constants_bytes: 0,
        entry: "main".to_string(),
        source: ShaderSource::Hlsl { path: path.to_string() },
    }
}

fn raster_desc() -> RasterPipelineDesc {
    RasterPipelineDesc {
        render_pass: Arc::new(RenderPass { raw: 5, color_attachment_count: 1 }),
        cull_mode: RasterPipelineCullMode::Back,
        topology: RasterPipelinePrimitiveTopology::TriangleList,
        depth_bias: false,
        custom_set_layout_overwrites: [None, None, None, None],
        depth_test: true,
        depth_write: true,
    }
}

fn region() -> StridedDeviceAddressRegion {
    StridedDeviceAddressRegion { device_address: 0, stride: 0, size: 0 }
}

#[test]
fn raster_pipelines_are_found_by_their_handle() {
    let mut cache = PipelineCache::new();
    let shaders = vec![shader(PipelineShaderStage::Vertex, "a.hlsl"), shader(PipelineShaderStage::Pixel, "a.hlsl")];
    let handle = cache.register_raster_pipeline(shaders.clone(), raster_desc());
    let again = cache.register_raster_pipeline(shaders, raster_desc());
    assert_eq!(handle.0, again.0);
    cache.set_raster_pipeline(handle, RasterPipeline { pipeline: common(40) });
    let pipeline = cache.get_raster_pipeline(handle);
    assert_eq!(pipeline.pipeline.pipeline_ptrs.pipeline_layout, 40);
    assert_eq!(pipeline.pipeline.pipeline_ptrs.pipeline, 41);
}

#[test]
fn ray_tracing_pipelines_are_found_by_their_handle() {
    let mut cache = PipelineCache::new();
    let shaders = vec![
        shader(PipelineShaderStage::RayGen, "rt.hlsl"),
        shader(PipelineShaderStage::RayMiss, "rt.hlsl"),
        shader(PipelineShaderStage::RayClosestHit, "rt.hlsl"),
    ];
    let desc = RayTracingPipelineDesc { custom_set_layout_overwrites: [None, None, None, None], max_ray_recursive_depth: 1 };
    let handle = cache.register_ray_tracing_pipeline(shaders, desc);
    let sbt = RayTracingShaderBindingTable {
        raygen_shader_binding_table: region(),
        raygen_shader_binding_table_buffer: None,
        miss_shader_binding_table: region(),
        miss_shader_binding_table_buffer: None,
        hit_shader_binding_table: region(),
        hit_shader_binding_table_buffer: None,
        callable_shader_binding_table: region(),
        callable_shader_binding_table_buffer: None,
    };
    cache.set_ray_tracing_pipeline(handle, RayTracingPipeline { pipeline: common(70), sbt });
    assert_eq!(cache.get_ray_tracing_pipeline(handle).pipeline.pipeline_ptrs.pipeline, 71);
}

#[test]
fn array_image_descriptions() {
    let a = ImageDesc::new_1d_array(64, vk::FORMAT_R8G8B8A8_UNORM, 6);
    assert_eq!(a.extent, [64, 1, 1]);
    assert_eq!(a.image_type, ImageType::Tex1dArray);
    assert_eq!(a.array_elements, 6);
    assert_eq!(a.mip_levels, 1);
    let b = ImageDesc::new_2d_array([16, 8], vk::FORMAT_R8G8B8A8_SRGB, 3);
    assert_eq!(b.extent, [16, 8, 1]);
    assert_eq!(b.image_type, ImageType::Tex2dArray);
    assert_eq!(b.array_elements, 3);
    assert_eq!(b.format, vk::FORMAT_R8G8B8A8_SRGB);
}

#[test]
fn prepared_resources_borrow_what_they_hold() {
    let image = Image { raw: 9, desc: ImageDesc::new_2d([4, 4], vk::FORMAT_R8G8B8A8_UNORM) };
    let created = GraphPreparedResource::CreatedImage(image);
    match created.borrow() {
        GraphPreparedResourceRef::Image(i) => assert_eq!(i.raw, 9),
        _ => panic!("a created image borrows as an image"),
    }
    let imported = GraphPreparedResource::ImportedImage(Arc::new(Image {
        raw: 11,
        desc: ImageDesc::new_2d([4, 4], vk::FORMAT_R8G8B8A8_UNORM),
    }));
    match imported.borrow() {
        GraphPreparedResourceRef::Image(i) => assert_eq!(i.raw, 11),
        _ => panic!("an imported image borrows as an image"),
    }
}

#[test]
fn render_targets_are_declared_as_raster_accesses() {
    let mut rg = RenderGraph::new();
    let mut color = rg.new_resource(ImageDesc::new_2d([4, 4], vk::FORMAT_R8G8B8A8_UNORM));
    let mut depth = rg.new_resource(ImageDesc::new_2d([4, 4], 126));
    let mut pass = rg.add_pass("draw");
    let read = pass.raster_read(&mut depth, AccessType::DepthStencilAttachmentRead);
    let written = pass.raster_write(&mut color, AccessType::ColorAttachmentWrite);
    assert_eq!(read.handle.id, 1);
    assert_eq!(read.handle.generation, 0);
    assert_eq!(written.handle.id, 0);
    assert_eq!(written.handle.generation, 1);
    assert_eq!(pass.pass.inputs.len(), 1);
    assert_eq!(pass.pass.outputs.len(), 1);
    assert_eq!(pass.pass.inputs[0].access.access_type, AccessType::DepthStencilAttachmentRead);
    assert_eq!(pass.pass.outputs[0].access.access_type, AccessType::ColorAttachmentWrite);
    pass.finish(&mut rg);
    assert_eq!(rg.passes.len(), 1);
}

#[test]
fn clearing_adds_a_pass_that_writes_the_image() {
    let mut rg = RenderGraph::new();
    let mut color = rg.new_resource(ImageDesc::new_2d([4, 4], vk::FORMAT_R8G8B8A8_UNORM));
    let mut depth = rg.new_resource(ImageDesc::new_2d([4, 4], 126));
    let cleared = clear_color(&mut rg, &mut color);
    assert_eq!(cleared.handle.id, 0);
    assert_eq!(cleared.handle.generation, 1);
    let cleared_depth = clear_depth_stencil(&mut rg, &mut depth);
    assert_eq!(cleared_depth.handle.id, 1);
    assert_eq!(rg.passes.len(), 2);
    assert_eq!(rg.passes[0].name, "clear color");
    assert_eq!(rg.passes[1].name, "clear depth");
    assert_eq!(rg.passes[1].id, 1);
    assert!(rg.passes[0].inputs.is_empty());
    assert_eq!(rg.passes[0].outputs.len(), 1);
    assert_eq!(rg.passes[0].outputs[0].access.access_type, AccessType::TransferWrite);
    assert_eq!(rg.passes[0].outputs[0].handle.id, 0);
}

#[test]
fn registry_finds_resources_and_pipelines_by_graph_handles() {
    let regs = vec![
        RegisteredResource {
            resource: GraphPreparedResource::CreatedImage(Image { raw: 3, desc: ImageDesc::new_2d([4, 4], vk::FORMAT_R8G8B8A8_UNORM) }),
            access: AccessType::Nothing,
        },
        RegisteredResource {
            resource: GraphPreparedResource::ImportedBuffer(Arc::new(Buffer {
                raw: 8,
                desc: BufferDesc::new_gpu_only(64, vk::BUFFER_USAGE_UNIFORM_BUFFER),
            })),
            access: AccessType::Nothing,
        },
    ];
    let mut cache = PipelineCache::new();
    let shaders = vec![shader(PipelineShaderStage::Vertex, "b.hlsl"), shader(PipelineShaderStage::Pixel, "b.hlsl")];
    let cached = cache.register_raster_pipeline(shaders, raster_desc());
    cache.set_raster_pipeline(cached, RasterPipeline { pipeline: common(90) });
    let pipelines = RenderGraphPipelineHandles {
        raster_pipeline_handles: vec![cached],
        compute_pipeline_handles: Vec::new(),
        ray_tracing_pipeline_handles: Vec::new(),
    };
    let registry = GraphResourceRegistry { registered_resources: &regs, pipelines: &pipelines, pipeline_cache: &cache };
    assert_eq!(registry.get_image_from_raw_handle(GraphResourceHandle { id: 0, generation: 2 }).raw, 3);
    assert_eq!(registry.get_buffer_from_raw_handle(GraphResourceHandle { id: 1, generation: 0 }).raw, 8);
    assert_eq!(registry.get_raster_pipeline(GraphRasterPipelineHandle { idx: 0 }).pipeline.pipeline_ptrs.pipeline, 91);
}

#[test]
fn new_resources_carry_their_description() {
    let mut rg = RenderGraph::new();
    let desc = ImageDesc::new_2d([8, 8], vk::FORMAT_R8G8B8A8_UNORM);
    let h = rg.new_resource(desc);
    assert_eq!(*h.desc(), desc);
    assert_eq!(h.desc().extent, [8, 8, 1]);
    match &rg.resources[0] {
        raven_rg::graph_resource::GraphResource::Created(c) => match c.desc {
            raven_rg::graph_resource::GraphResourceDesc::Image(d) => assert_eq!(d, desc),
            _ => panic!("an image"),
        },
        _ => panic!("a created resource"),
    }
}

#[test]
fn cloned_handles_keep_slot_and_description() {
    let mut rg = RenderGraph::new();
    let desc = ImageDesc::new_2d([2, 2], vk::FORMAT_R8G8B8A8_UNORM);
    let h = rg.new_resource(desc);
    let c = h.clone_unchecked();
    assert_eq!(c.handle, h.handle);
    assert_eq!(c.desc, desc);
}
