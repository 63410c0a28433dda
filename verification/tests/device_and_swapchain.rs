use raven_rg::descriptor::{
    immutable_sampler_descs, parse_sampler_name, sampler_anisotropy_enabled, SamplerDesc, FILTER_LINEAR, FILTER_NEAREST,
    SAMPLER_ADDRESS_MODE_CLAMP_TO_BORDER, SAMPLER_ADDRESS_MODE_MIRROR_CLAMP_TO_EDGE, SAMPLER_ADDRESS_MODE_REPEAT,
    SAMPLER_MIPMAP_MODE_LINEAR, SAMPLER_MIPMAP_MODE_NEAREST,
};
use raven_rg::descriptor::{
    engine_global_constant_descriptor_layout, engine_global_constants_layout_bindings, DESCRIPTOR_TYPE_UNIFORM_BUFFER_DYNAMIC,
    SHADER_STAGE_ALL,
};
use raven_rg::physical_device::{
    device_score, first_unsupported_extension, graphics_queue_family, plan_device_extensions, pick_suitable_physical_device, PhysicalDeviceCandidate,
    QueueFamilyInfo, PHYSICAL_DEVICE_TYPE_CPU, PHYSICAL_DEVICE_TYPE_DISCRETE_GPU, PHYSICAL_DEVICE_TYPE_INTEGRATED_GPU,
    PHYSICAL_DEVICE_TYPE_VIRTUAL_GPU, QUEUE_GRAPHICS,
};
use raven_rg::pipeline::BindingCount;
use raven_rg::swapchain::{
    acquired_image, next_frame, present_succeeded, AcquiredImage, RHIError, RESULT_ERROR_OUT_OF_DATE, RESULT_SUBOPTIMAL,
};
use raven_rg::swapchain::{
    pick_present_mode, pick_suitable_surface_format, pick_surface_transform, swapchain_extent, swapchain_image_count,
    SurfaceFormat, SwapchainError, COLOR_SPACE_SRGB_NONLINEAR, PRESENT_MODE_FIFO, PRESENT_MODE_FIFO_RELAXED,
    PRESENT_MODE_IMMEDIATE, PRESENT_MODE_MAILBOX, SURFACE_TRANSFORM_IDENTITY,
};
use raven_rg::vk;

fn family(index: u32, queue_count: u32, queue_flags: u32, presentation_supported: bool) -> QueueFamilyInfo {
    QueueFamilyInfo { index, queue_count, queue_flags, presentation_supported }
}

fn presenting_device(device_type: i32) -> PhysicalDeviceCandidate {
    PhysicalDeviceCandidate { device_type, queue_families: vec![family(0, 1, QUEUE_GRAPHICS, true)] }
}

#[test]
fn surface_without_preference_gets_bgra_unorm() {
    let formats = vec![SurfaceFormat { format: vk::FORMAT_UNDEFINED, color_space: COLOR_SPACE_SRGB_NONLINEAR }];
    let picked = pick_suitable_surface_format(&formats);
    assert_eq!(picked.format, vk::FORMAT_B8G8R8A8_UNORM);
    assert_eq!(picked.color_space, COLOR_SPACE_SRGB_NONLINEAR);
}

#[test]
fn surface_format_prefers_bgra_unorm_then_first() {
    let with_bgra = vec![
        SurfaceFormat { format: 50, color_space: 0 },
        SurfaceFormat { format: vk::FORMAT_B8G8R8A8_UNORM, color_space: 7 },
        SurfaceFormat { format: vk::FORMAT_B8G8R8A8_UNORM, color_space: 9 },
    ];
    assert_eq!(pick_suitable_surface_format(&with_bgra), SurfaceFormat { format: vk::FORMAT_B8G8R8A8_UNORM, color_space: 7 });
    let without = vec![SurfaceFormat { format: 50, color_space: 3 }, SurfaceFormat { format: 37, color_space: 0 }];
    assert_eq!(pick_suitable_surface_format(&without), SurfaceFormat { format: 50, color_space: 3 });
}

#[test]
fn image_count_is_triple_buffered_or_minimum() {
    assert_eq!(swapchain_image_count(2, 8), 3);
    assert_eq!(swapchain_image_count(3, 8), 3);
    assert_eq!(swapchain_image_count(4, 8), 4);
}

#[test]
fn extent_follows_surface_unless_it_lets_us_choose() {
    assert_eq!(swapchain_extent([800, 600], [1920, 1080]), Ok([800, 600]));
    assert_eq!(swapchain_extent([u32::MAX, u32::MAX], [1920, 1080]), Ok([1920, 1080]));
    assert_eq!(swapchain_extent([0, 600], [1920, 1080]), Err(SwapchainError::ZeroResolution));
    assert_eq!(swapchain_extent([u32::MAX, u32::MAX], [1920, 0]), Err(SwapchainError::ZeroResolution));
}

#[test]
fn present_mode_preferences() {
    let all = vec![PRESENT_MODE_IMMEDIATE, PRESENT_MODE_MAILBOX, PRESENT_MODE_FIFO, PRESENT_MODE_FIFO_RELAXED];
    assert_eq!(pick_present_mode(true, &all), PRESENT_MODE_FIFO_RELAXED);
    assert_eq!(pick_present_mode(false, &all), PRESENT_MODE_MAILBOX);
    let fifo_only = vec![PRESENT_MODE_FIFO];
    assert_eq!(pick_present_mode(true, &fifo_only), PRESENT_MODE_FIFO);
    assert_eq!(pick_present_mode(false, &fifo_only), PRESENT_MODE_FIFO);
    let immediate = vec![PRESENT_MODE_FIFO, PRESENT_MODE_IMMEDIATE];
    assert_eq!(pick_present_mode(false, &immediate), PRESENT_MODE_IMMEDIATE);
}

#[test]
fn surface_transform_prefers_identity() {
    assert_eq!(pick_surface_transform(SURFACE_TRANSFORM_IDENTITY | 0x2, 0x2), SURFACE_TRANSFORM_IDENTITY);
    assert_eq!(pick_surface_transform(0x2 | 0x4, 0x4), 0x4);
}

#[test]
fn device_scores_rank_kinds() {
    assert_eq!(device_score(PHYSICAL_DEVICE_TYPE_DISCRETE_GPU), 1000);
    assert_eq!(device_score(PHYSICAL_DEVICE_TYPE_INTEGRATED_GPU), 100);
    assert_eq!(device_score(PHYSICAL_DEVICE_TYPE_VIRTUAL_GPU), 1);
    assert_eq!(device_score(PHYSICAL_DEVICE_TYPE_CPU), 0);
}

#[test]
fn picks_discrete_gpu_over_integrated() {
    let candidates = vec![
        presenting_device(PHYSICAL_DEVICE_TYPE_INTEGRATED_GPU),
        presenting_device(PHYSICAL_DEVICE_TYPE_DISCRETE_GPU),
        presenting_device(PHYSICAL_DEVICE_TYPE_CPU),
    ];
    assert_eq!(pick_suitable_physical_device(&candidates), 1);
}

#[test]
fn unsuitable_devices_are_passed_over_and_ties_go_to_the_last() {
    let no_present = PhysicalDeviceCandidate {
        device_type: PHYSICAL_DEVICE_TYPE_DISCRETE_GPU,
        queue_families: vec![family(0, 1, QUEUE_GRAPHICS, false)],
    };
    let no_queues = PhysicalDeviceCandidate {
        device_type: PHYSICAL_DEVICE_TYPE_DISCRETE_GPU,
        queue_families: vec![family(0, 0, QUEUE_GRAPHICS, true)],
    };
    let candidates = vec![
        no_present,
        presenting_device(PHYSICAL_DEVICE_TYPE_INTEGRATED_GPU),
        no_queues,
        presenting_device(PHYSICAL_DEVICE_TYPE_INTEGRATED_GPU),
    ];
    assert_eq!(pick_suitable_physical_device(&candidates), 3);
}

#[test]
fn graphics_queue_family_is_first_that_draws() {
    let families = vec![family(0, 2, 0x4, false), family(1, 1, QUEUE_GRAPHICS | 0x2, false), family(2, 1, QUEUE_GRAPHICS, true)];
    assert_eq!(graphics_queue_family(&families).index, 1);
}

#[test]
fn first_missing_extension_is_reported() {
    let available = vec!["VK_KHR_swapchain".to_string(), "VK_KHR_ray_query".to_string()];
    let all_there = vec!["VK_KHR_swapchain".to_string()];
    assert_eq!(first_unsupported_extension(&all_there, &available), None);
    let missing = vec![
        "VK_KHR_swapchain".to_string(),
        "VK_KHR_acceleration_structure".to_string(),
        "VK_KHR_ray_tracing_pipeline".to_string(),
    ];
    assert_eq!(first_unsupported_extension(&missing, &available), Some(1));
    assert_eq!(first_unsupported_extension(&Vec::new(), &Vec::new()), None);
}

#[test]
fn global_constants_set_has_one_dynamic_uniform_buffer() {
    let layout = engine_global_constant_descriptor_layout();
    assert_eq!(layout.len(), 1);
    assert_eq!(layout[0].0, 0);
    assert_eq!(layout[0].1.ty, DESCRIPTOR_TYPE_UNIFORM_BUFFER_DYNAMIC);
    assert_eq!(layout[0].1.binding_count, BindingCount::One);
    let bindings = engine_global_constants_layout_bindings(4096);
    assert_eq!(bindings.len(), 1);
    assert_eq!(bindings[0].binding, 0);
    assert_eq!(bindings[0].descriptor_count, 1);
    assert_eq!(bindings[0].descriptor_type, DESCRIPTOR_TYPE_UNIFORM_BUFFER_DYNAMIC as i32);
    assert_eq!(bindings[0].stage_flags, SHADER_STAGE_ALL);
}

#[test]
fn frames_come_in_turn() {
    assert_eq!(next_frame(0, 3), 1);
    assert_eq!(next_frame(1, 3), 2);
    assert_eq!(next_frame(2, 3), 0);
    assert_eq!(next_frame(0, 1), 0);
}

#[test]
fn acquiring_images_in_turn_and_failures() {
    assert_eq!(acquired_image(2, 3, Ok(2)), Ok(AcquiredImage { frame_index: 2, next_frame: 0 }));
    assert_eq!(acquired_image(0, 3, Ok(0)), Ok(AcquiredImage { frame_index: 0, next_frame: 1 }));
    assert_eq!(acquired_image(1, 3, Err(RESULT_ERROR_OUT_OF_DATE)), Err(RHIError::FramebufferInvalid));
    assert_eq!(acquired_image(1, 3, Err(RESULT_SUBOPTIMAL)), Err(RHIError::FramebufferInvalid));
    assert_eq!(acquired_image(1, 3, Err(-4)), Err(RHIError::AcquiredImageFailed { err: -4 }));
}

#[test]
fn presenting_tolerates_an_outdated_swapchain() {
    assert!(present_succeeded(Ok(())));
    assert!(present_succeeded(Err(RESULT_ERROR_OUT_OF_DATE)));
    assert!(present_succeeded(Err(RESULT_SUBOPTIMAL)));
    assert!(!present_succeeded(Err(-4)));
}

#[test]
fn immutable_samplers_cover_every_named_sampler() {
    let descs = immutable_sampler_descs();
    assert_eq!(descs.len(), 20);
    assert_eq!(
        descs[0],
        SamplerDesc { filter: FILTER_LINEAR, mipmap_mode: SAMPLER_MIPMAP_MODE_LINEAR, address_mode: SAMPLER_ADDRESS_MODE_CLAMP_TO_BORDER }
    );
    assert_eq!(
        descs[19],
        SamplerDesc {
            filter: FILTER_NEAREST,
            mipmap_mode: SAMPLER_MIPMAP_MODE_NEAREST,
            address_mode: SAMPLER_ADDRESS_MODE_MIRROR_CLAMP_TO_EDGE,
        }
    );
    for (i, d) in descs.iter().enumerate() {
        assert!(descs[..i].iter().all(|e| e != d));
    }
    for name in ["sampler_llr", "sampler_nnce", "sampler_lnmce", "sampler_nlcb", "sampler_llmr"] {
        let d = parse_sampler_name(name).unwrap();
        assert!(descs.contains(&d));
    }
    assert_eq!(parse_sampler_name("sampler_llr").unwrap().address_mode, SAMPLER_ADDRESS_MODE_REPEAT);
    assert!(sampler_anisotropy_enabled(descs[0]));
    assert!(!sampler_anisotropy_enabled(descs[10]));
}

#[test]
fn device_extensions_add_ray_tracing_only_when_all_of_it_is_there() {
    let s = |v: &[&str]| v.iter().map(|x| x.to_string()).collect::<Vec<String>>();
    let required = s(&["VK_KHR_swapchain", "VK_KHR_maintenance1"]);
    let rt = s(&["VK_KHR_acceleration_structure", "VK_KHR_ray_query"]);
    let all = s(&["VK_KHR_maintenance1", "VK_KHR_swapchain", "VK_KHR_acceleration_structure", "VK_KHR_ray_query"]);
    let no_rt = s(&["VK_KHR_maintenance1", "VK_KHR_swapchain", "VK_KHR_ray_query"]);
    assert!(plan_device_extensions(&required, &rt, &all, true));
    assert!(!plan_device_extensions(&required, &rt, &all, false));
    assert!(!plan_device_extensions(&required, &rt, &no_rt, true));
    let missing = s(&["VK_KHR_swapchain", "VK_KHR_acceleration_structure", "VK_KHR_ray_query"]);
    assert_eq!(first_unsupported_extension(&required, &missing), Some(1));
    assert_eq!(first_unsupported_extension(&required, &all), None);
}
