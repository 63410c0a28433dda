use std::sync::Arc;

use raven_rg::barrier::AccessType;
use raven_rg::buffer::{Buffer, BufferDesc};
use raven_rg::executing_graph::{aspect_flag_from_image_format, RecordedCommand};
use raven_rg::graph::RenderGraph;
use raven_rg::image::{Image, ImageDesc};
use raven_rg::pass_context::{
    bind_read_images, bind_written_images, dispatch_group_counts, PassImageBinding,
    RenderGraphPassBindable, RenderGraphPassBinding,
};
use raven_rg::graph_resource::{GraphResource, GraphResourceDesc, GraphResourceHandle, GraphResourceRef};
use raven_rg::image::ImageViewDesc;
use raven_rg::resource::{Srv, Uav};
use raven_rg::pipeline_cache::PipelineCache;
use raven_rg::transient_resource_cache::TransientResourceCache;
use raven_rg::vk;

use ash::vk as ashvk;

#[test]
fn aspect_of_depth_and_color_formats() {
    assert_eq!(aspect_flag_from_image_format(vk::FORMAT_D32_SFLOAT), ashvk::ImageAspectFlags::DEPTH.as_raw());
    assert_eq!(aspect_flag_from_image_format(vk::FORMAT_S8_UINT), ashvk::ImageAspectFlags::STENCIL.as_raw());
    assert_eq!(
        aspect_flag_from_image_format(vk::FORMAT_D24_UNORM_S8_UINT),
        (ashvk::ImageAspectFlags::DEPTH | ashvk::ImageAspectFlags::STENCIL).as_raw()
    );
    assert_eq!(aspect_flag_from_image_format(vk::FORMAT_R8G8B8A8_UNORM), ashvk::ImageAspectFlags::COLOR.as_raw());
}

#[test]
fn dispatch_counts_round_up() {
    assert_eq!(dispatch_group_counts([1920, 1080, 1], [8, 8, 1]), [240, 135, 1]);
    assert_eq!(dispatch_group_counts([1921, 1, 0], [8, 8, 1]), [241, 1, 0]);
}

fn image_refs() -> (RenderGraph, Vec<PassImageBinding>, Vec<PassImageBinding>) {
    let mut rg = RenderGraph::new();
    let mut a = rg.new_resource(ImageDesc::new_2d([4, 4], vk::FORMAT_R8G8B8A8_UNORM));
    let mut b = rg.new_resource(ImageDesc::new_2d([4, 4], vk::FORMAT_R8G8B8A8_UNORM));
    let mut pass = rg.add_pass("bind");
    let read = pass.read(&mut a, AccessType::ComputeShaderReadSampledImageOrUniformTexelBuffer);
    let written = pass.write(&mut b, AccessType::ComputeShaderWrite);
    pass.finish(&mut rg);
    let reads = match bind_read_images(&vec![read]) {
        RenderGraphPassBinding::ImageArray(v) => v,
        _ => panic!("read images bind as an array"),
    };
    let writes = match bind_written_images(&vec![written]) {
        RenderGraphPassBinding::ImageArray(v) => v,
        _ => panic!("written images bind as an array"),
    };
    (rg, reads, writes)
}

#[test]
fn read_and_written_images_bind_in_their_layouts() {
    let (rg, reads, writes) = image_refs();
    assert_eq!(rg.passes.len(), 1);
    assert_eq!(reads.len(), 1);
    assert_eq!(reads[0].handle.id, 0);
    assert_eq!(reads[0].handle.generation, 0);
    assert_eq!(reads[0].layout, vk::IMAGE_LAYOUT_SHADER_READ_ONLY_OPTIMAL);
    assert_eq!(reads[0].view_desc.aspect_mask, vk::ASPECT_COLOR);
    assert_eq!(writes[0].handle.id, 1);
    assert_eq!(writes[0].handle.generation, 1);
    assert_eq!(writes[0].layout, vk::IMAGE_LAYOUT_GENERAL);
}

#[test]
fn binding_views_can_be_narrowed() {
    let (_, reads, _) = image_refs();
    let mut binding = RenderGraphPassBinding::ImageArray(reads);
    binding.with_aspect(vk::ASPECT_DEPTH);
    binding.with_base_mipmap_level(2);
    binding.with_mipmap_level_count(1);
    binding.with_image_view(vk::IMAGE_VIEW_TYPE_2D);
    match binding {
        RenderGraphPassBinding::ImageArray(v) => {
            assert_eq!(v[0].view_desc.aspect_mask, vk::ASPECT_DEPTH);
            assert_eq!(v[0].view_desc.base_mip_level, 2);
            assert_eq!(v[0].view_desc.level_count, Some(1));
            assert_eq!(v[0].view_desc.view_type, Some(vk::IMAGE_VIEW_TYPE_2D));
            assert_eq!(v[0].view_desc.format, None);
            assert_eq!(v[0].layout, vk::IMAGE_LAYOUT_SHADER_READ_ONLY_OPTIMAL);
        }
        _ => panic!("the binding stays an array"),
    }
}

#[test]
fn passes_from_the_present_pass_on_run_at_present_time() {
    let mut rg = RenderGraph::new();
    let mut swapchain = rg.get_swapchain([2, 2]);
    let mut tmp = rg.new_resource(ImageDesc::new_2d([2, 2], vk::FORMAT_R8G8B8A8_UNORM));
    let mut p = rg.add_pass("prepare");
    p.write(&mut tmp, AccessType::ComputeShaderWrite);
    p.finish(&mut rg);
    let mut p = rg.add_pass("present");
    p.read(&mut tmp, AccessType::ComputeShaderReadOther);
    p.write(&mut swapchain, AccessType::ComputeShaderWrite);
    p.finish(&mut rg);
    let mut p = rg.add_pass("after");
    p.read(&mut tmp, AccessType::TransferRead);
    p.finish(&mut rg);
    let mut pipelines = PipelineCache::new();
    let compiled = rg.compile(&mut pipelines);
    let mut transient = TransientResourceCache::new();
    let create_image = |d: ImageDesc| Image { raw: 1, desc: d };
    let create_buffer = |d: BufferDesc| Buffer { raw: 2, desc: d };
    let mut exec = compiled.prepare_execute(&mut transient, &create_image, &create_buffer);
    let mut commands = Vec::new();
    exec.record_commands(&mut commands);
    let ran = |cmds: &Vec<RecordedCommand>| -> Vec<String> {
        cmds.iter()
            .filter_map(|c| match c {
                RecordedCommand::RunPass(p) => Some(p.name.clone()),
                _ => None,
            })
            .collect()
    };
    assert_eq!(ran(&commands), vec!["prepare".to_string()]);
    let image = Arc::new(Image { raw: 9, desc: ImageDesc::new_2d([2, 2], vk::FORMAT_B8G8R8A8_UNORM) });
    let retired = exec.record_present_commands(&mut commands, image);
    assert_eq!(
        ran(&commands),
        vec!["prepare".to_string(), "present".to_string(), "after".to_string()]
    );
    assert_eq!(retired.registered_resources[0].access, AccessType::ComputeShaderWrite);
    assert_eq!(retired.registered_resources[1].access, AccessType::TransferRead);
}

#[test]
fn references_bind_as_their_kind_of_descriptor() {
    let handle = GraphResourceHandle { id: 3, generation: 1 };
    let read: GraphResourceRef<Image, Srv> = GraphResourceRef { handle, _marker: std::marker::PhantomData };
    let written: GraphResourceRef<Image, Uav> = GraphResourceRef { handle, _marker: std::marker::PhantomData };
    let buffer: GraphResourceRef<Buffer, Srv> = GraphResourceRef { handle, _marker: std::marker::PhantomData };
    match read.bind() {
        RenderGraphPassBinding::Image(i) => {
            assert_eq!(i.handle, handle);
            assert_eq!(i.layout, vk::IMAGE_LAYOUT_SHADER_READ_ONLY_OPTIMAL);
            assert_eq!(i.view_desc, ImageViewDesc::default());
        },
        _ => panic!("a read image binds as an image"),
    }
    match written.bind() {
        RenderGraphPassBinding::Image(i) => assert_eq!(i.layout, vk::IMAGE_LAYOUT_GENERAL),
        _ => panic!("a written image binds as an image"),
    }
    match buffer.bind() {
        RenderGraphPassBinding::Buffer(b) => assert_eq!(b.handle, handle),
        _ => panic!("a buffer binds as a buffer"),
    }
}

#[test]
fn created_resources_keep_their_description() {
    let desc = ImageDesc::new_2d([8, 8], vk::FORMAT_R8G8B8A8_UNORM);
    match GraphResource::create(desc) {
        GraphResource::Created(c) => match c.desc {
            GraphResourceDesc::Image(d) => assert_eq!(d, desc),
            _ => panic!("an image description stays an image description"),
        },
        _ => panic!("a created resource"),
    }
}
