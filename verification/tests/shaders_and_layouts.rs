use raven_rg::descriptor::{
    descriptor_pool_sizes, ends_with_dyn, is_buffer_descriptor_type, is_image_descriptor_type,
    max_bindless_descriptor_count, parse_sampler_name, plan_descriptor_set_layout,
    refl_descriptor_type_to_vk, set_stage_flags, SamplerDesc, DESCRIPTOR_BINDING_BINDLESS,
    DESCRIPTOR_BINDING_PARTIALLY_BOUND, DESCRIPTOR_SET_LAYOUT_CREATE_UPDATE_AFTER_BIND_POOL,
    DESCRIPTOR_TYPE_ACCELERATION_STRUCTURE_KHR, DESCRIPTOR_TYPE_SAMPLED_IMAGE,
    DESCRIPTOR_TYPE_SAMPLER, DESCRIPTOR_TYPE_STORAGE_BUFFER, DESCRIPTOR_TYPE_STORAGE_BUFFER_DYNAMIC,
    DESCRIPTOR_TYPE_STORAGE_IMAGE, DESCRIPTOR_TYPE_UNIFORM_BUFFER,
    DESCRIPTOR_TYPE_UNIFORM_BUFFER_DYNAMIC, FILTER_LINEAR, FILTER_NEAREST,
    MAX_BINDLESS_DESCRIPTOR_COUNT, SAMPLER_ADDRESS_MODE_CLAMP_TO_BORDER,
    SAMPLER_ADDRESS_MODE_CLAMP_TO_EDGE, SAMPLER_ADDRESS_MODE_MIRROR_CLAMP_TO_EDGE,
    SAMPLER_ADDRESS_MODE_REPEAT, SHADER_STAGE_ALL,
};
use raven_rg::pipeline::{
    cull_mode_to_vk, merge_push_constants, plan_ray_tracing_shader_groups, raster_dynamic_states,
    shader_stage_flag, topology_to_vk, BindingCount, DescriptorInfo, PushConstantInfo,
    RasterPipelineCullMode, RasterPipelinePrimitiveTopology, DYNAMIC_STATE_DEPTH_BIAS,
    DYNAMIC_STATE_SCISSOR, DYNAMIC_STATE_VIEWPORT, SHADER_GROUP_TYPE_GENERAL,
    SHADER_GROUP_TYPE_TRIANGLES_HIT_GROUP, SHADER_UNUSED,
};
use raven_rg::shader::{
    same_shader_desc, same_shaders, same_source, PipelineShaderDesc,
    PipelineShaderDescBuilderError, PipelineShaderStage, ShaderSource,
};

use ash::vk as ashvk;

fn info(ty: u32, binding_count: BindingCount, name: &str) -> DescriptorInfo {
    DescriptorInfo { ty, binding_count, name: name.to_string() }
}

#[test]
fn sampler_names_follow_the_convention() {
    assert_eq!(
        parse_sampler_name("sampler_llr"),
        Some(SamplerDesc { filter: FILTER_LINEAR, mipmap_mode: FILTER_LINEAR, address_mode: SAMPLER_ADDRESS_MODE_REPEAT })
    );
    assert_eq!(
        parse_sampler_name("sampler_nnce"),
        Some(SamplerDesc {
            filter: FILTER_NEAREST,
            mipmap_mode: FILTER_NEAREST,
            address_mode: SAMPLER_ADDRESS_MODE_CLAMP_TO_EDGE
        })
    );
    assert_eq!(
        parse_sampler_name("sampler_lncb"),
        Some(SamplerDesc {
            filter: FILTER_LINEAR,
            mipmap_mode: FILTER_NEAREST,
            address_mode: SAMPLER_ADDRESS_MODE_CLAMP_TO_BORDER
        })
    );
    assert_eq!(
        parse_sampler_name("sampler_llmce").map(|s| s.address_mode),
        Some(SAMPLER_ADDRESS_MODE_MIRROR_CLAMP_TO_EDGE)
    );
}

#[test]
fn sampler_names_off_the_convention_are_refused() {
    assert_eq!(parse_sampler_name("sampler_ll"), None);
    assert_eq!(parse_sampler_name("sampler_xlr"), None);
    assert_eq!(parse_sampler_name("sampler_llq"), None);
    assert_eq!(parse_sampler_name("samplr_llrr"), None);
    assert_eq!(parse_sampler_name(""), None);
}

#[test]
fn dynamic_buffers_are_named_by_suffix() {
    assert!(ends_with_dyn("frame_constants_dyn"));
    assert!(ends_with_dyn("_dyn"));
    assert!(!ends_with_dyn("dyn"));
    assert!(!ends_with_dyn("frame_constants"));
    assert_eq!(
        refl_descriptor_type_to_vk(DESCRIPTOR_TYPE_UNIFORM_BUFFER, "consts_dyn"),
        DESCRIPTOR_TYPE_UNIFORM_BUFFER_DYNAMIC as i32
    );
    assert_eq!(
        refl_descriptor_type_to_vk(DESCRIPTOR_TYPE_STORAGE_BUFFER, "data_dyn"),
        DESCRIPTOR_TYPE_STORAGE_BUFFER_DYNAMIC as i32
    );
    assert_eq!(
        refl_descriptor_type_to_vk(DESCRIPTOR_TYPE_UNIFORM_BUFFER, "consts"),
        DESCRIPTOR_TYPE_UNIFORM_BUFFER as i32
    );
    assert_eq!(
        refl_descriptor_type_to_vk(DESCRIPTOR_TYPE_STORAGE_IMAGE, "out_dyn"),
        DESCRIPTOR_TYPE_STORAGE_IMAGE as i32
    );
}

#[test]
fn descriptor_type_constants_agree_with_ash() {
    assert_eq!(DESCRIPTOR_TYPE_UNIFORM_BUFFER_DYNAMIC as i32, ashvk::DescriptorType::UNIFORM_BUFFER_DYNAMIC.as_raw());
    assert_eq!(
        DESCRIPTOR_TYPE_ACCELERATION_STRUCTURE_KHR as i32,
        ashvk::DescriptorType::ACCELERATION_STRUCTURE_KHR.as_raw()
    );
    assert_eq!(SHADER_STAGE_ALL, ashvk::ShaderStageFlags::ALL.as_raw());
    assert_eq!(
        DESCRIPTOR_BINDING_BINDLESS,
        (ashvk::DescriptorBindingFlags::UPDATE_AFTER_BIND
            | ashvk::DescriptorBindingFlags::UPDATE_UNUSED_WHILE_PENDING
            | ashvk::DescriptorBindingFlags::PARTIALLY_BOUND
            | ashvk::DescriptorBindingFlags::VARIABLE_DESCRIPTOR_COUNT)
            .as_raw()
    );
    assert_eq!(SAMPLER_ADDRESS_MODE_REPEAT, ashvk::SamplerAddressMode::REPEAT.as_raw());
    assert_eq!(FILTER_LINEAR, ashvk::Filter::LINEAR.as_raw());
}

#[test]
fn descriptor_type_kinds() {
    assert!(is_buffer_descriptor_type(DESCRIPTOR_TYPE_STORAGE_BUFFER as i32));
    assert!(is_buffer_descriptor_type(DESCRIPTOR_TYPE_UNIFORM_BUFFER_DYNAMIC as i32));
    assert!(!is_buffer_descriptor_type(DESCRIPTOR_TYPE_SAMPLED_IMAGE as i32));
    assert!(is_image_descriptor_type(DESCRIPTOR_TYPE_SAMPLED_IMAGE as i32));
    assert!(is_image_descriptor_type(DESCRIPTOR_TYPE_SAMPLER as i32));
    assert!(!is_image_descriptor_type(DESCRIPTOR_TYPE_ACCELERATION_STRUCTURE_KHR as i32));
}

#[test]
fn bindless_count_and_stage_flags() {
    assert_eq!(max_bindless_descriptor_count(1_000_000), MAX_BINDLESS_DESCRIPTOR_COUNT);
    assert_eq!(max_bindless_descriptor_count(1032), 1000);
    assert_eq!(max_bindless_descriptor_count(32), 0);
    assert_eq!(set_stage_flags(1, 0x20), SHADER_STAGE_ALL);
    assert_eq!(set_stage_flags(2, 0x20), SHADER_STAGE_ALL);
    assert_eq!(set_stage_flags(0, 0x20), 0x20);
    assert_eq!(set_stage_flags(3, 0x1f), 0x1f);
}

#[test]
fn set_layout_plan_of_mixed_bindings() {
    let bindings = vec![
        (0u32, info(DESCRIPTOR_TYPE_UNIFORM_BUFFER, BindingCount::One, "frame_dyn")),
        (1u32, info(DESCRIPTOR_TYPE_STORAGE_IMAGE, BindingCount::StaticSized(4), "outputs")),
        (2u32, info(DESCRIPTOR_TYPE_SAMPLER, BindingCount::One, "sampler_llr")),
        (3u32, info(DESCRIPTOR_TYPE_ACCELERATION_STRUCTURE_KHR, BindingCount::One, "tlas")),
    ];
    let plan = plan_descriptor_set_layout(&bindings, 0x20, 1000);
    assert_eq!(plan.bindings.len(), 4);
    assert_eq!(plan.bindings[0].descriptor_type, DESCRIPTOR_TYPE_UNIFORM_BUFFER_DYNAMIC as i32);
    assert_eq!(plan.bindings[0].descriptor_count, 1);
    assert_eq!(plan.bindings[1].descriptor_count, 4);
    assert_eq!(plan.bindings[1].stage_flags, 0x20);
    assert_eq!(plan.bindings[2].descriptor_type, DESCRIPTOR_TYPE_SAMPLER as i32);
    assert_eq!(
        plan.bindings[2].immutable_sampler,
        Some(SamplerDesc { filter: FILTER_LINEAR, mipmap_mode: FILTER_LINEAR, address_mode: SAMPLER_ADDRESS_MODE_REPEAT })
    );
    assert_eq!(plan.bindings[3].descriptor_type, DESCRIPTOR_TYPE_ACCELERATION_STRUCTURE_KHR as i32);
    assert_eq!(plan.binding_flags, vec![DESCRIPTOR_BINDING_PARTIALLY_BOUND; 4]);
    assert_eq!(plan.create_flags, 0);
    assert_eq!(plan.binding_types[0], (0, DESCRIPTOR_TYPE_UNIFORM_BUFFER_DYNAMIC as i32));
}

#[test]
fn set_layout_plan_of_bindless_images() {
    let bindings = vec![
        (0u32, info(DESCRIPTOR_TYPE_STORAGE_BUFFER, BindingCount::One, "meshes")),
        (1u32, info(DESCRIPTOR_TYPE_SAMPLED_IMAGE, BindingCount::Unbounded, "textures")),
    ];
    let plan = plan_descriptor_set_layout(&bindings, 0x1f, 512);
    assert_eq!(plan.bindings[1].descriptor_count, 512);
    assert_eq!(plan.binding_flags[0], DESCRIPTOR_BINDING_PARTIALLY_BOUND);
    assert_eq!(plan.binding_flags[1], DESCRIPTOR_BINDING_BINDLESS);
    assert_eq!(plan.create_flags, DESCRIPTOR_SET_LAYOUT_CREATE_UPDATE_AFTER_BIND_POOL);
}

#[test]
fn pool_sizes_count_each_type_in_first_seen_order() {
    let sets = vec![
        vec![(0u32, 7i32), (1, 2), (2, 7)],
        vec![],
        vec![(0u32, 2i32), (5, 1000150000)],
    ];
    let sizes = descriptor_pool_sizes(&sets);
    assert_eq!(sizes.len(), 3);
    assert_eq!((sizes[0].ty, sizes[0].descriptor_count), (7, 2));
    assert_eq!((sizes[1].ty, sizes[1].descriptor_count), (2, 2));
    assert_eq!((sizes[2].ty, sizes[2].descriptor_count), (1000150000, 1));
    let empty: Vec<Vec<(u32, i32)>> = vec![];
    assert!(descriptor_pool_sizes(&empty).is_empty());
}

#[test]
fn push_constants_merge_to_the_first_declared() {
    let r = PushConstantInfo { offset: 0, size: 16 };
    assert_eq!(merge_push_constants(&vec![None, Some(r), Some(r)]), Some(r));
    assert_eq!(merge_push_constants(&vec![Some(r), None]), Some(r));
    assert_eq!(merge_push_constants(&vec![None, None]), None);
}

#[test]
fn raster_state_values() {
    assert_eq!(topology_to_vk(RasterPipelinePrimitiveTopology::TriangleList), ashvk::PrimitiveTopology::TRIANGLE_LIST.as_raw());
    assert_eq!(topology_to_vk(RasterPipelinePrimitiveTopology::LineList), ashvk::PrimitiveTopology::LINE_LIST.as_raw());
    assert_eq!(cull_mode_to_vk(RasterPipelineCullMode::Back), ashvk::CullModeFlags::BACK.as_raw());
    assert_eq!(cull_mode_to_vk(RasterPipelineCullMode::NoCull), ashvk::CullModeFlags::NONE.as_raw());
    assert_eq!(cull_mode_to_vk(RasterPipelineCullMode::FrontAndBack), ashvk::CullModeFlags::FRONT_AND_BACK.as_raw());
    assert_eq!(raster_dynamic_states(false), vec![DYNAMIC_STATE_VIEWPORT, DYNAMIC_STATE_SCISSOR]);
    assert_eq!(
        raster_dynamic_states(true),
        vec![DYNAMIC_STATE_VIEWPORT, DYNAMIC_STATE_SCISSOR, DYNAMIC_STATE_DEPTH_BIAS]
    );
    assert_eq!(DYNAMIC_STATE_DEPTH_BIAS, ashvk::DynamicState::DEPTH_BIAS.as_raw());
    assert_eq!(shader_stage_flag(PipelineShaderStage::Pixel), ashvk::ShaderStageFlags::FRAGMENT.as_raw());
    assert_eq!(shader_stage_flag(PipelineShaderStage::RayMiss), ashvk::ShaderStageFlags::MISS_KHR.as_raw());
    assert_eq!(
        shader_stage_flag(PipelineShaderStage::RayClosestHit),
        ashvk::ShaderStageFlags::CLOSEST_HIT_KHR.as_raw()
    );
}

#[test]
fn ray_tracing_groups_one_per_shader() {
    let stages = vec![
        PipelineShaderStage::RayGen,
        PipelineShaderStage::RayMiss,
        PipelineShaderStage::RayMiss,
        PipelineShaderStage::RayClosestHit,
    ];
    let (groups, sbt) = plan_ray_tracing_shader_groups(&stages);
    assert_eq!(groups.len(), 4);
    assert_eq!(groups[0].ty, SHADER_GROUP_TYPE_GENERAL);
    assert_eq!(groups[0].general_shader, 0);
    assert_eq!(groups[2].general_shader, 2);
    assert_eq!(groups[2].closest_hit_shader, SHADER_UNUSED);
    assert_eq!(groups[3].ty, SHADER_GROUP_TYPE_TRIANGLES_HIT_GROUP);
    assert_eq!(groups[3].closest_hit_shader, 3);
    assert_eq!(groups[3].general_shader, SHADER_UNUSED);
    assert_eq!(sbt.raygen_entry_count, 1);
    assert_eq!(sbt.miss_entry_count, 2);
    assert_eq!(sbt.hit_entry_count, 1);
    assert_eq!(SHADER_UNUSED, ashvk::SHADER_UNUSED_KHR);
}

#[test]
fn shader_desc_builder_defaults() {
    let desc = PipelineShaderDesc::builder()
        .stage(PipelineShaderStage::Vertex)
        .source(ShaderSource::Hlsl { path: "/shaders/a.hlsl".to_string() })
        .build()
        .unwrap();
    assert_eq!(desc.entry, "main");
    assert_eq!(desc.push_constants_bytes, 0);
    let desc2 = PipelineShaderDesc::builder()
        .stage(PipelineShaderStage::Vertex)
        .push_constants_bytes(64)
        .entry("vs_main".to_string())
        .source(ShaderSource::Hlsl { path: "/shaders/a.hlsl".to_string() })
        .build()
        .unwrap();
    assert_eq!(desc2.entry, "vs_main");
    assert_eq!(desc2.push_constants_bytes, 64);
    assert!(!same_shader_desc(&desc, &desc2));
    assert!(same_shader_desc(&desc, &desc.clone()));
}

#[test]
fn shader_desc_builder_errors() {
    let no_stage = PipelineShaderDesc::builder()
        .source(ShaderSource::Glsl { path: "x.glsl".to_string() })
        .build();
    assert_eq!(no_stage, Err(PipelineShaderDescBuilderError::UninitializedField("stage")));
    let no_source = PipelineShaderDesc::builder().stage(PipelineShaderStage::Pixel).build();
    assert_eq!(no_source, Err(PipelineShaderDescBuilderError::UninitializedField("source")));
}

#[test]
fn shader_sources_compare_by_language_and_path() {
    let a = ShaderSource::Hlsl { path: "p".to_string() };
    let b = ShaderSource::Glsl { path: "p".to_string() };
    let c = ShaderSource::Hlsl { path: "p".to_string() };
    assert!(!same_source(&a, &b));
    assert!(same_source(&a, &c));
    let d1 = PipelineShaderDesc::builder().stage(PipelineShaderStage::Vertex).source(a).build().unwrap();
    let d2 = PipelineShaderDesc::builder().stage(PipelineShaderStage::Vertex).source(c).build().unwrap();
    assert!(same_shaders(&vec![d1.clone()], &vec![d2.clone()]));
    assert!(!same_shaders(&vec![d1.clone()], &vec![d1, d2]));
}
