use raven_rg::descriptor::{
    DESCRIPTOR_TYPE_ACCELERATION_STRUCTURE_KHR, DESCRIPTOR_TYPE_SAMPLED_IMAGE, DESCRIPTOR_TYPE_STORAGE_BUFFER,
    DESCRIPTOR_TYPE_STORAGE_BUFFER_DYNAMIC, DESCRIPTOR_TYPE_STORAGE_IMAGE, DESCRIPTOR_TYPE_UNIFORM_BUFFER_DYNAMIC,
};
use raven_rg::descriptor_binding::{
    pipeline_descriptor_set_binds, write_descriptor_set_bindings, DescriptorSetBind, DescriptorWrite,
    IntoPipelineDescriptorBindings, PipelineBindings,
};
use raven_rg::graph_resource::{GraphComputePipelineHandle, GraphRasterPipelineHandle, GraphResourceHandle};
use raven_rg::image::ImageViewDesc;
use raven_rg::pass_context::{PassBufferBinding, PassImageBinding, PassRayTracingAccelStructBinding, RenderGraphPassBinding};
use raven_rg::vk;

fn handle(id: u32) -> GraphResourceHandle {
    GraphResourceHandle { id, generation: 0 }
}

fn image(id: u32, layout: i32) -> PassImageBinding {
    PassImageBinding { handle: handle(id), view_desc: ImageViewDesc::default(), layout }
}

fn layout(bindings: &[u32]) -> Vec<(u32, i32)> {
    bindings.iter().map(|b| (*b, 0)).collect()
}

#[test]
fn writes_follow_binding_kinds() {
    let bindings = vec![
        RenderGraphPassBinding::Image(image(1, vk::IMAGE_LAYOUT_SHADER_READ_ONLY_OPTIMAL)),
        RenderGraphPassBinding::Image(image(2, vk::IMAGE_LAYOUT_GENERAL)),
        RenderGraphPassBinding::ImageArray(vec![image(3, vk::IMAGE_LAYOUT_GENERAL), image(4, vk::IMAGE_LAYOUT_GENERAL)]),
        RenderGraphPassBinding::Buffer(PassBufferBinding { handle: handle(5) }),
        RenderGraphPassBinding::RayTracingAccelStruct(PassRayTracingAccelStructBinding { handle: handle(6) }),
        RenderGraphPassBinding::DynamicBuffer(256),
        RenderGraphPassBinding::DynamicStorageBuffer(512),
    ];
    let w = write_descriptor_set_bindings(&bindings, &layout(&[0, 1, 2, 3, 4, 5, 6]));
    let expected = vec![
        DescriptorWrite { binding: 0, descriptor_type: DESCRIPTOR_TYPE_SAMPLED_IMAGE as i32 },
        DescriptorWrite { binding: 1, descriptor_type: DESCRIPTOR_TYPE_STORAGE_IMAGE as i32 },
        DescriptorWrite { binding: 2, descriptor_type: DESCRIPTOR_TYPE_STORAGE_IMAGE as i32 },
        DescriptorWrite { binding: 3, descriptor_type: DESCRIPTOR_TYPE_STORAGE_BUFFER as i32 },
        DescriptorWrite { binding: 4, descriptor_type: DESCRIPTOR_TYPE_ACCELERATION_STRUCTURE_KHR as i32 },
        DescriptorWrite { binding: 5, descriptor_type: DESCRIPTOR_TYPE_UNIFORM_BUFFER_DYNAMIC as i32 },
        DescriptorWrite { binding: 6, descriptor_type: DESCRIPTOR_TYPE_STORAGE_BUFFER_DYNAMIC as i32 },
    ];
    assert_eq!(w.writes, expected);
    assert_eq!(w.dynamic_offsets, vec![256, 512]);
}

#[test]
fn bindings_the_layout_lacks_are_not_written() {
    let bindings = vec![
        RenderGraphPassBinding::DynamicBuffer(16),
        // An image in a layout no descriptor takes: left alone because the layout lacks binding 1.
        RenderGraphPassBinding::Image(image(1, vk::IMAGE_LAYOUT_TRANSFER_DST_OPTIMAL)),
        RenderGraphPassBinding::DynamicStorageBuffer(32),
        RenderGraphPassBinding::Buffer(PassBufferBinding { handle: handle(2) }),
    ];
    let w = write_descriptor_set_bindings(&bindings, &layout(&[3, 2]));
    assert_eq!(
        w.writes,
        vec![
            DescriptorWrite { binding: 2, descriptor_type: DESCRIPTOR_TYPE_STORAGE_BUFFER_DYNAMIC as i32 },
            DescriptorWrite { binding: 3, descriptor_type: DESCRIPTOR_TYPE_STORAGE_BUFFER as i32 },
        ]
    );
    assert_eq!(w.dynamic_offsets, vec![32]);
    let none = write_descriptor_set_bindings(&bindings, &Vec::new());
    assert!(none.writes.is_empty());
    assert!(none.dynamic_offsets.is_empty());
}

#[test]
fn raw_descriptor_set_replaces_an_earlier_one() {
    let b = PipelineBindings::new(GraphComputePipelineHandle { idx: 0 })
        .raw_descriptor_set(3, 100)
        .raw_descriptor_set(1, 200)
        .raw_descriptor_set(3, 300);
    assert_eq!(b.raw_sets, vec![(3, 300), (1, 200)]);
    assert_eq!(b.pipeline_handle.idx, 0);
}

#[test]
fn pipeline_binds_global_constants_in_place_sets_then_raw_sets() {
    let set0 = vec![RenderGraphPassBinding::Buffer(PassBufferBinding { handle: handle(1) })];
    let set5 = vec![RenderGraphPassBinding::DynamicBuffer(64)];
    let set1 = vec![RenderGraphPassBinding::DynamicBuffer(8), RenderGraphPassBinding::DynamicStorageBuffer(24)];
    let bindings = PipelineBindings::new(GraphComputePipelineHandle { idx: 7 })
        .descriptor_set(0, &set0)
        .descriptor_set(5, &set5)
        .descriptor_set(1, &set1)
        .raw_descriptor_set(3, 42);
    let infos = vec![layout(&[0]), layout(&[1]), layout(&[0])];
    let plan = pipeline_descriptor_set_binds(&infos, &bindings);
    assert_eq!(plan.len(), 4);
    assert!(matches!(plan[0], DescriptorSetBind::GlobalConstants));
    match &plan[1] {
        DescriptorSetBind::InPlace { set, source, writes } => {
            assert_eq!((*set, *source), (0, 0));
            assert_eq!(writes.writes, vec![DescriptorWrite { binding: 0, descriptor_type: DESCRIPTOR_TYPE_STORAGE_BUFFER as i32 }]);
            assert!(writes.dynamic_offsets.is_empty());
        },
        _ => panic!("expected set 0 created in place"),
    }
    match &plan[2] {
        DescriptorSetBind::InPlace { set, source, writes } => {
            assert_eq!((*set, *source), (1, 2));
            assert_eq!(
                writes.writes,
                vec![DescriptorWrite { binding: 1, descriptor_type: DESCRIPTOR_TYPE_STORAGE_BUFFER_DYNAMIC as i32 }]
            );
            assert_eq!(writes.dynamic_offsets, vec![24]);
        },
        _ => panic!("expected set 1 created in place"),
    }
    assert!(matches!(plan[3], DescriptorSetBind::Raw { set: 3, raw: 42 }));
}

#[test]
fn pipeline_without_set_two_gets_no_global_constants() {
    let set0 = vec![RenderGraphPassBinding::Buffer(PassBufferBinding { handle: handle(1) })];
    let bindings = PipelineBindings::new(GraphComputePipelineHandle { idx: 0 }).descriptor_set(0, &set0);
    let plan = pipeline_descriptor_set_binds(&vec![layout(&[0])], &bindings);
    assert_eq!(plan.len(), 1);
    assert!(matches!(plan[0], DescriptorSetBind::InPlace { set: 0, source: 0, .. }));
}

#[test]
fn pipeline_handles_start_without_sets() {
    let b = GraphRasterPipelineHandle { idx: 4 }.into_bindings();
    assert_eq!(b.pipeline_handle.idx, 4);
    assert!(b.set_layouts.bindings.is_empty());
    assert!(b.raw_sets.is_empty());
    let c = GraphComputePipelineHandle { idx: 2 }.into_bindings().raw_descriptor_set(0, 9);
    assert_eq!(c.raw_sets, vec![(0, 9)]);
}
