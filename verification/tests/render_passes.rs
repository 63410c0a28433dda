use std::cell::Cell;

use raven_rg::image::ImageDesc;
use raven_rg::renderpass::{
    plan_render_pass, FrameBufferCache, FrameBufferCacheKey, FramebufferAttachmentImageInfo, RenderPassAttachmentDesc,
    RenderPassDesc, ATTACHMENT_LOAD_OP_CLEAR, ATTACHMENT_LOAD_OP_DONT_CARE, ATTACHMENT_LOAD_OP_LOAD,
    ATTACHMENT_STORE_OP_DONT_CARE, ATTACHMENT_STORE_OP_STORE,
};
use raven_rg::vk;

fn image_desc(flags: u32, usage: u32) -> ImageDesc {
    let mut desc = ImageDesc::new_2d([64, 32], vk::FORMAT_B8G8R8A8_UNORM);
    desc.flags = flags;
    desc.usage = usage;
    desc
}

#[test]
fn attachment_ops_follow_the_builder() {
    let a = RenderPassAttachmentDesc::new(vk::FORMAT_B8G8R8A8_UNORM);
    assert_eq!(a.load_op, ATTACHMENT_LOAD_OP_LOAD);
    assert_eq!(a.store_op, ATTACHMENT_STORE_OP_STORE);
    assert_eq!(a.stencil_load_op, ATTACHMENT_LOAD_OP_DONT_CARE);
    assert_eq!(a.stencil_store_op, ATTACHMENT_STORE_OP_DONT_CARE);
    assert_eq!(a.sample, vk::SAMPLE_COUNT_1);
    assert_eq!(a.clear_input().load_op, ATTACHMENT_LOAD_OP_CLEAR);
    assert_eq!(a.useless_input().load_op, ATTACHMENT_LOAD_OP_DONT_CARE);
    let discarded = a.clear_input().discard_output();
    assert_eq!((discarded.load_op, discarded.store_op), (ATTACHMENT_LOAD_OP_CLEAR, ATTACHMENT_STORE_OP_DONT_CARE));
}

#[test]
fn render_pass_puts_depth_after_colors() {
    let color = RenderPassAttachmentDesc::new(vk::FORMAT_B8G8R8A8_UNORM).clear_input();
    let depth = RenderPassAttachmentDesc::new(126);
    let desc = RenderPassDesc { color_attachments: vec![color, color], depth_attachment: Some(depth) };
    let plan = plan_render_pass(&desc);
    assert_eq!(plan.attachments.len(), 3);
    assert_eq!(plan.attachments[0].initial_layout, vk::IMAGE_LAYOUT_COLOR_ATTACHMENT_OPTIMAL);
    assert_eq!(plan.attachments[1].final_layout, vk::IMAGE_LAYOUT_COLOR_ATTACHMENT_OPTIMAL);
    assert_eq!(plan.attachments[1].load_op, ATTACHMENT_LOAD_OP_CLEAR);
    assert_eq!(plan.attachments[2].format, 126);
    assert_eq!(plan.attachments[2].initial_layout, vk::IMAGE_LAYOUT_DEPTH_ATTACHMENT_STENCIL_READ_ONLY_OPTIMAL);
    assert_eq!(
        plan.color_refs,
        vec![(0, vk::IMAGE_LAYOUT_COLOR_ATTACHMENT_OPTIMAL), (1, vk::IMAGE_LAYOUT_COLOR_ATTACHMENT_OPTIMAL)]
    );
    assert_eq!(plan.depth_ref, Some((2, vk::IMAGE_LAYOUT_DEPTH_ATTACHMENT_STENCIL_READ_ONLY_OPTIMAL)));
}

#[test]
fn depth_only_render_pass() {
    let desc = RenderPassDesc { color_attachments: Vec::new(), depth_attachment: Some(RenderPassAttachmentDesc::new(126)) };
    let plan = plan_render_pass(&desc);
    assert_eq!(plan.attachments.len(), 1);
    assert!(plan.color_refs.is_empty());
    assert_eq!(plan.depth_ref, Some((0, vk::IMAGE_LAYOUT_DEPTH_ATTACHMENT_STENCIL_READ_ONLY_OPTIMAL)));
}

#[test]
fn framebuffer_key_lists_color_then_depth_images() {
    let colors = vec![image_desc(0, 0x10), image_desc(0x8, 0x4)];
    let depth = image_desc(0, 0x20);
    let key = FrameBufferCacheKey::new([64, 32], &colors, Some(&depth));
    assert_eq!(key.extent, [64, 32]);
    assert_eq!(key.attachments, vec![(0, 0x10), (0x8, 0x4), (0, 0x20)]);
    let no_depth = FrameBufferCacheKey::new([64, 32], &colors, None);
    assert_eq!(no_depth.attachments, vec![(0, 0x10), (0x8, 0x4)]);
}

#[test]
fn framebuffers_are_created_once_per_key() {
    let color = RenderPassAttachmentDesc::new(vk::FORMAT_B8G8R8A8_UNORM);
    let mut cache = FrameBufferCache::new(77, &vec![color], None);
    assert_eq!(cache.attachments_desc, vec![color]);
    assert_eq!(cache.color_attachment_count, 1);
    let created = Cell::new(0u32);
    let seen: Cell<Option<Vec<FramebufferAttachmentImageInfo>>> = Cell::new(None);
    let colors = vec![image_desc(0, 0x10)];

    let first = cache.get_or_create(FrameBufferCacheKey::new([64, 32], &colors, None), |infos| {
        created.set(created.get() + 1);
        seen.set(Some(infos));
        1000
    });
    assert_eq!(first, 1000);
    assert_eq!(
        seen.take(),
        Some(vec![FramebufferAttachmentImageInfo {
            width: 64,
            height: 32,
            flags: 0,
            usage: 0x10,
            layer_count: 1,
            view_format: vk::FORMAT_B8G8R8A8_UNORM,
        }])
    );
    let again = cache.get_or_create(FrameBufferCacheKey::new([64, 32], &colors, None), |_| {
        created.set(created.get() + 1);
        2000
    });
    assert_eq!(again, 1000);
    let other = cache.get_or_create(FrameBufferCacheKey::new([128, 32], &colors, None), |_| {
        created.set(created.get() + 1);
        3000
    });
    assert_eq!(other, 3000);
    assert_eq!(created.get(), 2);
    assert_eq!(cache.frame_buffer_cache.len(), 2);
}
