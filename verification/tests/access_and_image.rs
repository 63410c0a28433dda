use raven_rg::barrier::{
    get_access_info, is_raster_access, is_read_only_access, is_read_only_raster_access,
    is_write_only_access, is_write_only_raster_access, AccessType,
};
use raven_rg::buffer::{BufferDesc, MemoryLocation};
use raven_rg::image::{
    get_image_create_info, image_type_to_view_type, image_upload_regions, max_mipmap_level_3d,
    Extent3D, Image, ImageDesc, ImageSubResource, ImageType, ImageViewDesc,
};
use raven_rg::math::min_value_align_to;
use raven_rg::vk;
use raven_rg::RhiConfig;

use ash::vk as ashvk;

#[test]
fn access_info_of_compute_write_is_general_layout() {
    let info = get_access_info(AccessType::ComputeShaderWrite);
    assert_eq!(info.stage_mask, ashvk::PipelineStageFlags::COMPUTE_SHADER.as_raw());
    assert_eq!(info.access_mask, ashvk::AccessFlags::SHADER_WRITE.as_raw());
    assert_eq!(info.image_layout, ashvk::ImageLayout::GENERAL.as_raw());
}

#[test]
fn access_info_of_fragment_sampled_read() {
    let info = get_access_info(AccessType::FragmentShaderReadSampledImageOrUniformTexelBuffer);
    assert_eq!(info.stage_mask, ashvk::PipelineStageFlags::FRAGMENT_SHADER.as_raw());
    assert_eq!(info.access_mask, ashvk::AccessFlags::SHADER_READ.as_raw());
    assert_eq!(info.image_layout, ashvk::ImageLayout::SHADER_READ_ONLY_OPTIMAL.as_raw());
}

#[test]
fn access_info_of_present_and_nothing() {
    let present = get_access_info(AccessType::Present);
    assert_eq!(present.image_layout, ashvk::ImageLayout::PRESENT_SRC_KHR.as_raw());
    let nothing = get_access_info(AccessType::Nothing);
    assert_eq!(nothing.stage_mask, 0);
    assert_eq!(nothing.access_mask, 0);
    assert_eq!(nothing.image_layout, ashvk::ImageLayout::UNDEFINED.as_raw());
}

#[test]
fn access_info_of_depth_attachment_write() {
    let info = get_access_info(AccessType::DepthStencilAttachmentWrite);
    let tests = ashvk::PipelineStageFlags::EARLY_FRAGMENT_TESTS
        | ashvk::PipelineStageFlags::LATE_FRAGMENT_TESTS;
    assert_eq!(info.stage_mask, tests.as_raw());
    assert_eq!(
        info.image_layout,
        ashvk::ImageLayout::DEPTH_STENCIL_ATTACHMENT_OPTIMAL.as_raw()
    );
}

#[test]
fn vk_constants_agree_with_ash() {
    assert_eq!(vk::STAGE_TRANSFER, ashvk::PipelineStageFlags::TRANSFER.as_raw());
    assert_eq!(vk::STAGE_HOST, ashvk::PipelineStageFlags::HOST.as_raw());
    assert_eq!(vk::STAGE_ALL_COMMANDS, ashvk::PipelineStageFlags::ALL_COMMANDS.as_raw());
    assert_eq!(
        vk::STAGE_RAY_TRACING_SHADER_KHR,
        ashvk::PipelineStageFlags::RAY_TRACING_SHADER_KHR.as_raw()
    );
    assert_eq!(
        vk::STAGE_ACCELERATION_STRUCTURE_BUILD_KHR,
        ashvk::PipelineStageFlags::ACCELERATION_STRUCTURE_BUILD_KHR.as_raw()
    );
    assert_eq!(vk::ACCESS_TRANSFER_WRITE, ashvk::AccessFlags::TRANSFER_WRITE.as_raw());
    assert_eq!(vk::ACCESS_HOST_WRITE, ashvk::AccessFlags::HOST_WRITE.as_raw());
    assert_eq!(vk::ACCESS_MEMORY_WRITE, ashvk::AccessFlags::MEMORY_WRITE.as_raw());
    assert_eq!(
        vk::ACCESS_ACCELERATION_STRUCTURE_WRITE_KHR,
        ashvk::AccessFlags::ACCELERATION_STRUCTURE_WRITE_KHR.as_raw()
    );
    assert_eq!(vk::IMAGE_LAYOUT_TRANSFER_DST_OPTIMAL, ashvk::ImageLayout::TRANSFER_DST_OPTIMAL.as_raw());
    assert_eq!(vk::IMAGE_LAYOUT_PREINITIALIZED, ashvk::ImageLayout::PREINITIALIZED.as_raw());
    assert_eq!(vk::IMAGE_USAGE_STORAGE, ashvk::ImageUsageFlags::STORAGE.as_raw());
    assert_eq!(vk::IMAGE_USAGE_TRANSFER_DST, ashvk::ImageUsageFlags::TRANSFER_DST.as_raw());
    assert_eq!(vk::BUFFER_USAGE_STORAGE_BUFFER, ashvk::BufferUsageFlags::STORAGE_BUFFER.as_raw());
    assert_eq!(
        vk::BUFFER_USAGE_SHADER_DEVICE_ADDRESS,
        ashvk::BufferUsageFlags::SHADER_DEVICE_ADDRESS.as_raw()
    );
    assert_eq!(vk::IMAGE_CREATE_CUBE_COMPATIBLE, ashvk::ImageCreateFlags::CUBE_COMPATIBLE.as_raw());
    assert_eq!(vk::FORMAT_R8G8B8A8_UNORM, ashvk::Format::R8G8B8A8_UNORM.as_raw());
    assert_eq!(vk::FORMAT_D32_SFLOAT_S8_UINT, ashvk::Format::D32_SFLOAT_S8_UINT.as_raw());
    assert_eq!(vk::IMAGE_VIEW_TYPE_CUBE, ashvk::ImageViewType::CUBE.as_raw());
    assert_eq!(vk::ASPECT_STENCIL, ashvk::ImageAspectFlags::STENCIL.as_raw());
}

#[test]
fn access_write_bits_cover_every_write_flag() {
    let writes = ashvk::AccessFlags::SHADER_WRITE
        | ashvk::AccessFlags::COLOR_ATTACHMENT_WRITE
        | ashvk::AccessFlags::DEPTH_STENCIL_ATTACHMENT_WRITE
        | ashvk::AccessFlags::TRANSFER_WRITE
        | ashvk::AccessFlags::HOST_WRITE
        | ashvk::AccessFlags::MEMORY_WRITE
        | ashvk::AccessFlags::COMMAND_PREPROCESS_WRITE_NV
        | ashvk::AccessFlags::ACCELERATION_STRUCTURE_WRITE_KHR;
    assert_eq!(vk::ACCESS_WRITE_BITS, writes.as_raw());
}

#[test]
fn access_classification_examples() {
    assert!(is_read_only_access(&AccessType::TransferRead));
    assert!(!is_write_only_access(&AccessType::TransferRead));
    assert!(is_write_only_access(&AccessType::TransferWrite));
    assert!(!is_read_only_access(&AccessType::General));
    assert!(!is_write_only_access(&AccessType::General));
    assert!(is_raster_access(&AccessType::ColorAttachmentWrite));
    assert!(is_write_only_raster_access(&AccessType::ColorAttachmentWrite));
    assert!(!is_read_only_raster_access(&AccessType::ColorAttachmentWrite));
    assert!(is_read_only_raster_access(&AccessType::DepthStencilAttachmentRead));
    assert!(!is_raster_access(&AccessType::ComputeShaderWrite));
}

#[test]
fn read_only_accesses_carry_no_write_bit() {
    let all = [
        AccessType::IndirectBuffer,
        AccessType::VertexBuffer,
        AccessType::ComputeShaderReadOther,
        AccessType::AnyShaderReadSampledImageOrUniformTexelBuffer,
        AccessType::Present,
        AccessType::HostRead,
        AccessType::ComputeShaderWrite,
        AccessType::ColorAttachmentWrite,
        AccessType::HostWrite,
        AccessType::TransferWrite,
    ];
    for access in all.iter() {
        let mask = get_access_info(*access).access_mask;
        if is_read_only_access(access) {
            assert_eq!(mask & vk::ACCESS_WRITE_BITS, 0);
        }
        if is_write_only_access(access) {
            assert_ne!(mask & vk::ACCESS_WRITE_BITS, 0);
        }
        assert!(!(is_read_only_access(access) && is_write_only_access(access)));
    }
}

#[test]
fn align_up_examples() {
    assert_eq!(min_value_align_to(0, 16), 0);
    assert_eq!(min_value_align_to(1, 16), 16);
    assert_eq!(min_value_align_to(16, 16), 16);
    assert_eq!(min_value_align_to(17, 16), 32);
    assert_eq!(min_value_align_to(100, 3), 102);
}

#[test]
fn buffer_desc_constructors() {
    let d = BufferDesc::new_gpu_only(256, vk::BUFFER_USAGE_STORAGE_BUFFER);
    assert_eq!(d.size, 256);
    assert_eq!(d.memory_location, MemoryLocation::GpuOnly);
    assert_eq!(d.alignment, None);
    let d = BufferDesc::new_cpu_to_gpu(64, vk::BUFFER_USAGE_UNIFORM_BUFFER).alignment(128);
    assert_eq!(d.memory_location, MemoryLocation::CpuToGpu);
    assert_eq!(d.alignment, Some(128));
    let d = BufferDesc::new_gpu_to_cpu(8, 0);
    assert_eq!(d.memory_location, MemoryLocation::GpuToCpu);
}

#[test]
fn image_desc_defaults_and_builders() {
    let d = ImageDesc::new_2d([1920, 1080], vk::FORMAT_R8G8B8A8_UNORM);
    assert_eq!(d.extent, [1920, 1080, 1]);
    assert_eq!(d.image_type, ImageType::Tex2d);
    assert_eq!(d.mip_levels, 1);
    assert_eq!(d.array_elements, 1);
    assert_eq!(d.sample, vk::SAMPLE_COUNT_1);
    let d = d.usage_flags(vk::IMAGE_USAGE_STORAGE).mipmap_level(3).format(vk::FORMAT_B8G8R8A8_UNORM);
    assert_eq!(d.usage, vk::IMAGE_USAGE_STORAGE);
    assert_eq!(d.mip_levels, 3);
    assert_eq!(d.format, vk::FORMAT_B8G8R8A8_UNORM);
    let c = ImageDesc::new_cube(64, vk::FORMAT_R8G8B8A8_UNORM);
    assert_eq!(c.array_elements, 6);
    assert_eq!(c.flags, vk::IMAGE_CREATE_CUBE_COMPATIBLE);
    assert_eq!(c.extent, [64, 64, 1]);
}

#[test]
fn image_desc_resolution_changes() {
    let d = ImageDesc::new_2d([1921, 1, ], vk::FORMAT_R8G8B8A8_UNORM).half_resolution();
    assert_eq!(d.extent, [961, 1, 1]);
    let d = ImageDesc::new_3d([10, 20, 30], vk::FORMAT_R8G8B8A8_UNORM).divide_up_extent([3, 7, 30]);
    assert_eq!(d.extent, [4, 3, 1]);
    let d = ImageDesc::new_3d([10, 20, 30], vk::FORMAT_R8G8B8A8_UNORM).divide_extent([3, 7, 64]);
    assert_eq!(d.extent, [3, 2, 1]);
}

#[test]
fn full_mipmap_levels_count() {
    assert_eq!(max_mipmap_level_3d(1, 1, 1), 1);
    assert_eq!(max_mipmap_level_3d(256, 1, 1), 9);
    assert_eq!(max_mipmap_level_3d(1920, 1080, 1), 11);
    assert_eq!(max_mipmap_level_3d(0, 0, 0), 0);
    let d = ImageDesc::new_2d([512, 128], vk::FORMAT_R8G8B8A8_UNORM).full_mipmap_levels();
    assert_eq!(d.mip_levels, 10);
}

#[test]
fn image_create_info_of_cube_and_initial_data() {
    let c = ImageDesc::new_cube(32, vk::FORMAT_R8G8B8A8_UNORM).usage_flags(vk::IMAGE_USAGE_SAMPLED);
    let info = get_image_create_info(&c, true);
    assert_eq!(info.image_type, vk::IMAGE_TYPE_2D);
    assert_eq!(info.array_layers, 6);
    assert_eq!(info.extent, Extent3D { width: 32, height: 32, depth: 1 });
    assert_eq!(info.usage, vk::IMAGE_USAGE_SAMPLED | vk::IMAGE_USAGE_TRANSFER_DST);
    assert_eq!(info.initial_layout, vk::IMAGE_LAYOUT_PREINITIALIZED);
    let t = ImageDesc::new_3d([4, 5, 6], vk::FORMAT_R8G8B8A8_UNORM);
    let info = get_image_create_info(&t, false);
    assert_eq!(info.image_type, vk::IMAGE_TYPE_3D);
    assert_eq!(info.extent, Extent3D { width: 4, height: 5, depth: 6 });
    assert_eq!(info.array_layers, 1);
    assert_eq!(info.initial_layout, vk::IMAGE_LAYOUT_UNDEFINED);
    assert_eq!(info.usage, 0);
}

#[test]
fn image_view_create_info_follows_image() {
    let desc = ImageDesc::new_2d([8, 8], vk::FORMAT_R8G8B8A8_UNORM).mipmap_level(4);
    let image = Image { raw: 7, desc };
    let view = ImageViewDesc::default();
    let info = image.view_create_info(&view);
    assert_eq!(info.format, vk::FORMAT_R8G8B8A8_UNORM);
    assert_eq!(info.view_type, vk::IMAGE_VIEW_TYPE_2D);
    assert_eq!(info.aspect_mask, vk::ASPECT_COLOR);
    assert_eq!(info.level_count, 4);
    assert_eq!(info.layer_count, 1);
    let view = ImageViewDesc { base_mip_level: 1, level_count: None, format: Some(vk::FORMAT_R8G8B8A8_SRGB), ..ImageViewDesc::default() };
    let info = image.view_create_info(&view);
    assert_eq!(info.level_count, 3);
    assert_eq!(info.format, vk::FORMAT_R8G8B8A8_SRGB);
    assert_eq!(image_type_to_view_type(ImageType::CubeArray), vk::IMAGE_VIEW_TYPE_CUBE_ARRAY);
}

#[test]
fn upload_regions_follow_mip_chain() {
    let desc = ImageDesc::new_2d([4, 2], vk::FORMAT_R8G8B8A8_UNORM).mipmap_level(3);
    let mip0 = vec![0u8; 4 * 2 * 4];
    let mip1 = vec![0u8; 2 * 1 * 4];
    let mip2 = vec![0u8; 1 * 1 * 4];
    let subs = vec![
        ImageSubResource { data: &mip0, row_pitch_in_bytes: 16, base_layer: 0 },
        ImageSubResource { data: &mip1, row_pitch_in_bytes: 8, base_layer: 0 },
        ImageSubResource { data: &mip2, row_pitch_in_bytes: 4, base_layer: 0 },
    ];
    let (regions, total) = image_upload_regions(&desc, &subs);
    assert_eq!(total, 32 + 8 + 4);
    assert_eq!(regions.len(), 3);
    assert_eq!(regions[0].buffer_offset, 0);
    assert_eq!(regions[1].buffer_offset, 32);
    assert_eq!(regions[2].buffer_offset, 40);
    assert_eq!(regions[1].mip_level, 1);
    assert_eq!(regions[1].image_extent, Extent3D { width: 2, height: 1, depth: 1 });
    assert_eq!(regions[2].image_extent, Extent3D { width: 1, height: 1, depth: 1 });
}

#[test]
fn rhi_config_is_plain_data() {
    let config = RhiConfig { swapchain_extent: [1280, 720], enable_debug: true, enable_vsync: false };
    let copy = config;
    assert_eq!(copy.swapchain_extent, [1280, 720]);
    assert!(copy.enable_debug);
    assert!(!config.enable_vsync);
}
