//! Render passes: the attachments a raster pipeline draws to, the render pass that describes
//! them, and the framebuffers a render pass is drawn into, cached by what their images are.
use vstd::prelude::*;

use crate::image::ImageDesc;
use crate::vk;

verus! {

/// `VkAttachmentLoadOp` values.
pub const ATTACHMENT_LOAD_OP_LOAD: i32 = 0;
pub const ATTACHMENT_LOAD_OP_CLEAR: i32 = 1;
pub const ATTACHMENT_LOAD_OP_DONT_CARE: i32 = 2;

/// `VkAttachmentStoreOp` values.
pub const ATTACHMENT_STORE_OP_STORE: i32 = 0;
pub const ATTACHMENT_STORE_OP_DONT_CARE: i32 = 1;

/// The most color attachments a render pass draws to; with a depth attachment, one more.
pub const MAX_RENDERPASS_ATTACHMENTS: usize = 9;

/// How a render pass treats one attachment.
#[derive(Clone, Copy, Debug, PartialEq, Eq, Structural)]
pub struct RenderPassAttachmentDesc {
    /// `VkFormat` value.
    pub format: i32,
    pub load_op: i32,
    pub store_op: i32,
    pub stencil_load_op: i32,
    pub stencil_store_op: i32,
    /// `VkSampleCountFlags` bits.
    pub sample: u32,
}

impl RenderPassAttachmentDesc {
    /// An attachment of `format` whose contents are loaded and stored, with one sample and its
    /// stencil neither loaded nor stored.
    pub fn new(format: i32) -> (desc: Self)
        ensures
            desc == (RenderPassAttachmentDesc {
                format,
                load_op: ATTACHMENT_LOAD_OP_LOAD,
                store_op: ATTACHMENT_STORE_OP_STORE,
                stencil_load_op: ATTACHMENT_LOAD_OP_DONT_CARE,
                stencil_store_op: ATTACHMENT_STORE_OP_DONT_CARE,
                sample: vk::SAMPLE_COUNT_1,
            }),
    {
        Self {
            format,
            load_op: ATTACHMENT_LOAD_OP_LOAD,
            store_op: ATTACHMENT_STORE_OP_STORE,
            stencil_load_op: ATTACHMENT_LOAD_OP_DONT_CARE,
            stencil_store_op: ATTACHMENT_STORE_OP_DONT_CARE,
            sample: vk::SAMPLE_COUNT_1,
        }
    }

    /// The same attachment, whose earlier contents do not matter.
    pub fn useless_input(self) -> (desc: Self)
        ensures
            desc == (RenderPassAttachmentDesc { load_op: ATTACHMENT_LOAD_OP_DONT_CARE, ..self }),
    {
        Self { load_op: ATTACHMENT_LOAD_OP_DONT_CARE, ..self }
    }

    /// The same attachment, cleared when the render pass begins.
    pub fn clear_input(self) -> (desc: Self)
        ensures
            desc == (RenderPassAttachmentDesc { load_op: ATTACHMENT_LOAD_OP_CLEAR, ..self }),
    {
        Self { load_op: ATTACHMENT_LOAD_OP_CLEAR, ..self }
    }

    /// The same attachment, whose contents are not kept after the render pass.
    pub fn discard_output(self) -> (desc: Self)
        ensures
            desc == (RenderPassAttachmentDesc { store_op: ATTACHMENT_STORE_OP_DONT_CARE, ..self }),
    {
        Self { store_op: ATTACHMENT_STORE_OP_DONT_CARE, ..self }
    }

    /// The `VkAttachmentDescription` of this attachment, in `initial_layout` when the render pass
    /// begins and `final_layout` when it ends.
    pub fn to_vk(&self, initial_layout: i32, final_layout: i32) -> (d: AttachmentDescription)
        ensures
            d == spec_attachment_description(*self, initial_layout, final_layout),
    {
        AttachmentDescription {
            format: self.format,
            samples: self.sample,
            load_op: self.load_op,
            store_op: self.store_op,
            stencil_load_op: self.stencil_load_op,
            stencil_store_op: self.stencil_store_op,
            initial_layout,
            final_layout,
        }
    }
}

/// A `VkAttachmentDescription`, no flags set.
#[derive(Clone, Copy, Debug, PartialEq, Eq, Structural)]
pub struct AttachmentDescription {
    pub format: i32,
    pub samples: u32,
    pub load_op: i32,
    pub store_op: i32,
    pub stencil_load_op: i32,
    pub stencil_store_op: i32,
    pub initial_layout: i32,
    pub final_layout: i32,
}

/// The description of an attachment in the given layouts.
pub open spec fn spec_attachment_description(
    a: RenderPassAttachmentDesc,
    initial_layout: i32,
    final_layout: i32,
) -> AttachmentDescription {
    AttachmentDescription {
        format: a.format,
        samples: a.sample,
        load_op: a.load_op,
        store_op: a.store_op,
        stencil_load_op: a.stencil_load_op,
        stencil_store_op: a.stencil_store_op,
        initial_layout,
        final_layout,
    }
}

/// The attachments of a render pass: its color attachments, and a depth attachment if it has one.
pub struct RenderPassDesc {
    pub color_attachments: Vec<RenderPassAttachmentDesc>,
    pub depth_attachment: Option<RenderPassAttachmentDesc>,
}

/// Whether a render pass can be made of these attachments: it draws to at least one, and it
/// has room for all.
pub open spec fn spec_render_pass_desc_valid(desc: RenderPassDesc) -> bool {
    &&& desc.color_attachments@.len() > 0 || desc.depth_attachment is Some
    &&& desc.color_attachments@.len() + (if desc.depth_attachment is Some { 1int } else { 0int })
        <= MAX_RENDERPASS_ATTACHMENTS + 1
}

/// What a render pass is created with, its one subpass drawing to every attachment: the
/// attachment descriptions, and the references of its subpass to the color attachments and
/// to the depth attachment (an index and a `VkImageLayout` each).
pub struct RenderPassPlan {
    pub attachments: Vec<AttachmentDescription>,
    pub color_refs: Vec<(u32, i32)>,
    pub depth_ref: Option<(u32, i32)>,
}

/// The attachment descriptions of a render pass: the color attachments, kept in the color
/// attachment layout, then the depth attachment, kept in the read-only-stencil depth layout.
pub open spec fn spec_render_pass_attachments(desc: RenderPassDesc) -> Seq<AttachmentDescription> {
    let colors = desc.color_attachments@.map_values(
        |c: RenderPassAttachmentDesc|
            spec_attachment_description(
                c,
                vk::IMAGE_LAYOUT_COLOR_ATTACHMENT_OPTIMAL,
                vk::IMAGE_LAYOUT_COLOR_ATTACHMENT_OPTIMAL,
            ),
    );
    match desc.depth_attachment {
        Some(d) => colors.push(
            spec_attachment_description(
                d,
                vk::IMAGE_LAYOUT_DEPTH_ATTACHMENT_STENCIL_READ_ONLY_OPTIMAL,
                vk::IMAGE_LAYOUT_DEPTH_ATTACHMENT_STENCIL_READ_ONLY_OPTIMAL,
            ),
        ),
        None => colors,
    }
}

/// How a render pass is created from its attachments.
pub fn plan_render_pass(desc: &RenderPassDesc) -> (plan: RenderPassPlan)
    requires
        spec_render_pass_desc_valid(*desc),
    ensures
        plan.attachments@ == spec_render_pass_attachments(*desc),
        plan.color_refs@.len() == desc.color_attachments@.len(),
        forall|i: int|
            0 <= i < plan.color_refs@.len() ==> #[trigger] plan.color_refs@[i] == (
            i as u32,
            vk::IMAGE_LAYOUT_COLOR_ATTACHMENT_OPTIMAL,
            ),
        plan.depth_ref == (if desc.depth_attachment is Some {
            Some(
                (desc.color_attachments@.len() as u32, vk::IMAGE_LAYOUT_DEPTH_ATTACHMENT_STENCIL_READ_ONLY_OPTIMAL),
            )
        } else {
            None::<(u32, i32)>
        }),
{
    let mut attachments: Vec<AttachmentDescription> = Vec::new();
    let mut color_refs: Vec<(u32, i32)> = Vec::new();
    let n = desc.color_attachments.len();
    let mut i: usize = 0;
    while i < n
        invariant
            n == desc.color_attachments@.len(),
            n <= MAX_RENDERPASS_ATTACHMENTS + 1,
            i <= n,
            attachments@.len() == i,
            color_refs@.len() == i,
            forall|j: int|
                0 <= j < i ==> #[trigger] attachments@[j] == spec_attachment_description(
                    desc.color_attachments@[j],
                    vk::IMAGE_LAYOUT_COLOR_ATTACHMENT_OPTIMAL,
                    vk::IMAGE_LAYOUT_COLOR_ATTACHMENT_OPTIMAL,
                ),
            forall|j: int| 0 <= j < i ==> #[trigger] color_refs@[j] == (j as u32, vk::IMAGE_LAYOUT_COLOR_ATTACHMENT_OPTIMAL),
        decreases n - i,
    {
        attachments.push(
            desc.color_attachments[i].to_vk(
                vk::IMAGE_LAYOUT_COLOR_ATTACHMENT_OPTIMAL,
                vk::IMAGE_LAYOUT_COLOR_ATTACHMENT_OPTIMAL,
            ),
        );
        color_refs.push((i as u32, vk::IMAGE_LAYOUT_COLOR_ATTACHMENT_OPTIMAL));
        i = i + 1;
    }
    let depth_ref = match &desc.depth_attachment {
        Some(depth) => {
            attachments.push(
                depth.to_vk(
                    vk::IMAGE_LAYOUT_DEPTH_ATTACHMENT_STENCIL_READ_ONLY_OPTIMAL,
                    vk::IMAGE_LAYOUT_DEPTH_ATTACHMENT_STENCIL_READ_ONLY_OPTIMAL,
                ),
            );
            Some((n as u32, vk::IMAGE_LAYOUT_DEPTH_ATTACHMENT_STENCIL_READ_ONLY_OPTIMAL))
        },
        None => None,
    };
    proof {
        let colors = desc.color_attachments@.map_values(
            |c: RenderPassAttachmentDesc|
                spec_attachment_description(
                    c,
                    vk::IMAGE_LAYOUT_COLOR_ATTACHMENT_OPTIMAL,
                    vk::IMAGE_LAYOUT_COLOR_ATTACHMENT_OPTIMAL,
                ),
        );
        assert(attachments@.take(n as int) =~= colors);
        if desc.depth_attachment is None {
            assert(attachments@ =~= colors);
        } else {
            assert(attachments@ =~= colors.push(attachments@[n as int]));
        }
    }
    RenderPassPlan { attachments, color_refs, depth_ref }
}

/// A render pass: its raw Vulkan handle and the number of color attachments it draws to.
#[derive(Debug)]
pub struct RenderPass {
    /// Raw `VkRenderPass` handle.
    pub raw: u64,
    pub color_attachment_count: usize,
}

/// What tells one framebuffer of a render pass from another: its extent, and the create flags
/// and usage of the image of each attachment.
pub struct FrameBufferCacheKey {
    pub extent: [u32; 2],
    pub attachments: Vec<(u32, u32)>,
}

/// A key as plain values.
pub open spec fn spec_key(key: FrameBufferCacheKey) -> ([u32; 2], Seq<(u32, u32)>) {
    (key.extent, key.attachments@)
}

/// The flags and usage of images, in order.
pub open spec fn spec_attachment_infos(descs: Seq<ImageDesc>) -> Seq<(u32, u32)> {
    descs.map_values(|d: ImageDesc| (d.flags, d.usage))
}

impl FrameBufferCacheKey {
    /// The key of the framebuffer of this extent over images of these descriptions: the color
    /// attachments, then the depth attachment.
    pub fn new(extent: [u32; 2], color_attachments: &Vec<ImageDesc>, depth_attachment: Option<&ImageDesc>) -> (key:
        Self)
        requires
            color_attachments@.len() + (if depth_attachment is Some { 1int } else { 0int }) <= MAX_RENDERPASS_ATTACHMENTS
                + 1,
        ensures
            key.extent == extent,
            key.attachments@ == match depth_attachment {
                Some(d) => spec_attachment_infos(color_attachments@).push((d.flags, d.usage)),
                None => spec_attachment_infos(color_attachments@),
            },
    {
        let mut attachments: Vec<(u32, u32)> = Vec::new();
        let mut i: usize = 0;
        while i < color_attachments.len()
            invariant
                i <= color_attachments@.len(),
                attachments@ == spec_attachment_infos(color_attachments@.take(i as int)),
            decreases color_attachments@.len() - i,
        {
            attachments.push((color_attachments[i].flags, color_attachments[i].usage));
            proof {
                assert(spec_attachment_infos(color_attachments@.take(i as int + 1)) =~= spec_attachment_infos(
                    color_attachments@.take(i as int),
                ).push((color_attachments@[i as int].flags, color_attachments@[i as int].usage)));
            }
            i = i + 1;
        }
        proof {
            assert(color_attachments@.take(color_attachments@.len() as int) =~= color_attachments@);
        }
        match depth_attachment {
            Some(d) => attachments.push((d.flags, d.usage)),
            None => {},
        }
        Self { extent, attachments }
    }
}

fn keys_equal(a: &FrameBufferCacheKey, b: &FrameBufferCacheKey) -> (r: bool)
    ensures
        r == (spec_key(*a) == spec_key(*b)),
{
    if a.extent[0] != b.extent[0] || a.extent[1] != b.extent[1] || a.attachments.len() != b.attachments.len() {
        proof {
            if spec_key(*a) == spec_key(*b) {
                assert(a.extent[0] == b.extent[0]);
            }
        }
        return false;
    }
    proof {
        assert(a.extent =~= b.extent);
    }
    let mut i: usize = 0;
    while i < a.attachments.len()
        invariant
            a.attachments@.len() == b.attachments@.len(),
            a.extent == b.extent,
            i <= a.attachments@.len(),
            forall|j: int| 0 <= j < i ==> a.attachments@[j] == b.attachments@[j],
        decreases a.attachments@.len() - i,
    {
        if a.attachments[i].0 != b.attachments[i].0 || a.attachments[i].1 != b.attachments[i].1 {
            proof {
                if spec_key(*a) == spec_key(*b) {
                    assert(a.attachments@[i as int] == b.attachments@[i as int]);
                }
            }
            return false;
        }
        i = i + 1;
    }
    proof {
        assert(a.attachments@ =~= b.attachments@);
    }
    true
}

fn find_framebuffer(entries: &Vec<(FrameBufferCacheKey, u64)>, key: &FrameBufferCacheKey) -> (r: Option<usize>)
    ensures
        r matches Some(i) ==> i < entries@.len() && spec_key(entries@[i as int].0) == spec_key(*key),
        r is None ==> forall|j: int| 0 <= j < entries@.len() ==> spec_key((#[trigger] entries@[j]).0) != spec_key(*key),
{
    let mut i: usize = 0;
    while i < entries.len()
        invariant
            i <= entries@.len(),
            forall|j: int| 0 <= j < i ==> spec_key((#[trigger] entries@[j]).0) != spec_key(*key),
        decreases entries@.len() - i,
    {
        if keys_equal(&entries[i].0, key) {
            return Some(i);
        }
        i = i + 1;
    }
    None
}

/// One `VkFramebufferAttachmentImageInfo` of an imageless framebuffer: one layer.
#[derive(Clone, Copy, Debug, PartialEq, Eq, Structural)]
pub struct FramebufferAttachmentImageInfo {
    pub width: u32,
    pub height: u32,
    pub flags: u32,
    pub usage: u32,
    pub layer_count: u32,
    /// `VkFormat` of the view.
    pub view_format: i32,
}

/// The framebuffers of one render pass, by key, and the attachments they are made for.
pub struct FrameBufferCache {
    pub frame_buffer_cache: Vec<(FrameBufferCacheKey, u64)>,
    pub attachments_desc: Vec<RenderPassAttachmentDesc>,
    /// Raw `VkRenderPass` handle.
    pub render_pass: u64,
    pub color_attachment_count: usize,
}

/// The framebuffers by key.
pub open spec fn spec_cache_map(entries: Seq<(FrameBufferCacheKey, u64)>) -> Map<([u32; 2], Seq<(u32, u32)>), u64> {
    Map::new(
        |k: ([u32; 2], Seq<(u32, u32)>)| exists|i: int| 0 <= i < entries.len() && spec_key(#[trigger] entries[i].0) == k,
        |k: ([u32; 2], Seq<(u32, u32)>)|
            entries[choose|i: int| 0 <= i < entries.len() && spec_key(#[trigger] entries[i].0) == k].1,
    )
}

/// The attachment image infos of the framebuffer of `key`: for each attachment that the key
/// describes, of the key's extent, its image's flags and usage, and the attachment's format.
pub open spec fn spec_framebuffer_attachments(
    attachments_desc: Seq<RenderPassAttachmentDesc>,
    key: FrameBufferCacheKey,
) -> Seq<FramebufferAttachmentImageInfo> {
    let n = if attachments_desc.len() < key.attachments@.len() {
        attachments_desc.len()
    } else {
        key.attachments@.len()
    };
    Seq::new(
        n,
        |i: int|
            FramebufferAttachmentImageInfo {
                width: key.extent[0],
                height: key.extent[1],
                flags: key.attachments@[i].0,
                usage: key.attachments@[i].1,
                layer_count: 1,
                view_format: attachments_desc[i].format,
            },
    )
}

impl FrameBufferCache {
    /// Whether no key occurs twice.
    pub open spec fn wf(&self) -> bool {
        forall|i: int, j: int|
            0 <= i < j < self.frame_buffer_cache@.len() ==> spec_key((#[trigger] self.frame_buffer_cache@[i]).0)
                != spec_key((#[trigger] self.frame_buffer_cache@[j]).0)
    }

    /// An empty cache for the render pass `raw` with these attachments.
    pub fn new(
        raw: u64,
        color_attachments: &Vec<RenderPassAttachmentDesc>,
        depth_attachment: Option<RenderPassAttachmentDesc>,
    ) -> (cache: Self)
        requires
            color_attachments@.len() + (if depth_attachment is Some { 1int } else { 0int }) <= MAX_RENDERPASS_ATTACHMENTS
                + 1,
        ensures
            cache.wf(),
            cache.frame_buffer_cache@.len() == 0,
            cache.render_pass == raw,
            cache.color_attachment_count == color_attachments@.len(),
            cache.attachments_desc@ == match depth_attachment {
                Some(d) => color_attachments@.push(d),
                None => color_attachments@,
            },
    {
        let mut attachments_desc: Vec<RenderPassAttachmentDesc> = Vec::new();
        let mut i: usize = 0;
        while i < color_attachments.len()
            invariant
                i <= color_attachments@.len(),
                attachments_desc@ == color_attachments@.take(i as int),
            decreases color_attachments@.len() - i,
        {
            attachments_desc.push(color_attachments[i]);
            proof {
                assert(color_attachments@.take(i as int + 1) =~= color_attachments@.take(i as int).push(
                    color_attachments@[i as int],
                ));
            }
            i = i + 1;
        }
        proof {
            assert(color_attachments@.take(color_attachments@.len() as int) =~= color_attachments@);
        }
        match depth_attachment {
            Some(d) => attachments_desc.push(d),
            None => {},
        }
        Self {
            frame_buffer_cache: Vec::new(),
            attachments_desc,
            render_pass: raw,
            color_attachment_count: color_attachments.len(),
        }
    }

    /// The attachment image infos the framebuffer of `key` is created with.
    pub fn framebuffer_attachments(&self, key: &FrameBufferCacheKey) -> (infos: Vec<FramebufferAttachmentImageInfo>)
        ensures
            infos@ == spec_framebuffer_attachments(self.attachments_desc@, *key),
    {
        let n = if self.attachments_desc.len() < key.attachments.len() {
            self.attachments_desc.len()
        } else {
            key.attachments.len()
        };
        let mut infos: Vec<FramebufferAttachmentImageInfo> = Vec::new();
        let mut i: usize = 0;
        while i < n
            invariant
                n <= self.attachments_desc@.len(),
                n <= key.attachments@.len(),
                n == spec_framebuffer_attachments(self.attachments_desc@, *key).len(),
                i <= n,
                infos@ == spec_framebuffer_attachments(self.attachments_desc@, *key).take(i as int),
            decreases n - i,
        {
            infos.push(
                FramebufferAttachmentImageInfo {
                    width: key.extent[0],
                    height: key.extent[1],
                    flags: key.attachments[i].0,
                    usage: key.attachments[i].1,
                    layer_count: 1,
                    view_format: self.attachments_desc[i].format,
                },
            );
            proof {
                let all = spec_framebuffer_attachments(self.attachments_desc@, *key);
                assert(all.take(i as int + 1) =~= all.take(i as int).push(all[i as int]));
            }
            i = i + 1;
        }
        proof {
            let all = spec_framebuffer_attachments(self.attachments_desc@, *key);
            assert(all.take(n as int) =~= all);
        }
        infos
    }

    /// The framebuffer of `key`: the cached one, or one `create` makes from the attachment image
    /// infos of the key, which is then kept.
    pub fn get_or_create<F: FnOnce(Vec<FramebufferAttachmentImageInfo>) -> u64>(
        &mut self,
        key: FrameBufferCacheKey,
        create: F,
    ) -> (framebuffer: u64)
        requires
            old(self).wf(),
            forall|infos: Vec<FramebufferAttachmentImageInfo>|
                infos@ == spec_framebuffer_attachments(old(self).attachments_desc@, key) ==> #[trigger] create.requires(
                    (infos,),
                ),
        ensures
            final(self).wf(),
            final(self).attachments_desc@ == old(self).attachments_desc@,
            final(self).render_pass == old(self).render_pass,
            final(self).color_attachment_count == old(self).color_attachment_count,
            spec_cache_map(old(self).frame_buffer_cache@).contains_key(spec_key(key)) ==> {
                &&& framebuffer == spec_cache_map(old(self).frame_buffer_cache@)[spec_key(key)]
                &&& final(self).frame_buffer_cache@ == old(self).frame_buffer_cache@
            },
            !spec_cache_map(old(self).frame_buffer_cache@).contains_key(spec_key(key)) ==> {
                &&& exists|infos: Vec<FramebufferAttachmentImageInfo>|
                    infos@ == spec_framebuffer_attachments(old(self).attachments_desc@, key) && #[trigger] create.ensures(
                        (infos,),
                        framebuffer,
                    )
                &&& spec_cache_map(final(self).frame_buffer_cache@) == spec_cache_map(
                    old(self).frame_buffer_cache@,
                ).insert(spec_key(key), framebuffer)
                &&& final(self).frame_buffer_cache@ == old(self).frame_buffer_cache@.push((key, framebuffer))
            },
    {
        let ghost entries = self.frame_buffer_cache@;
        match find_framebuffer(&self.frame_buffer_cache, &key) {
            Some(i) => {
                let fb = self.frame_buffer_cache[i].1;
                proof {
                    let k = spec_key(key);
                    assert(spec_key(entries[i as int].0) == k);
                    let c = choose|c: int| 0 <= c < entries.len() && spec_key(#[trigger] entries[c].0) == k;
                    if c != i as int {
                        if c < i {
                            assert(spec_key(entries[c].0) != spec_key(entries[i as int].0));
                        } else {
                            assert(spec_key(entries[i as int].0) != spec_key(entries[c].0));
                        }
                    }
                }
                return fb;
            },
            None => {},
        }
        let infos = self.framebuffer_attachments(&key);
        let framebuffer = create(infos);
        let ghost k = spec_key(key);
        self.frame_buffer_cache.push((key, framebuffer));
        proof {
            let new_entries = self.frame_buffer_cache@;
            let n = entries.len() as int;
            assert(spec_key(new_entries[n].0) == k);
            assert forall|p: int, q: int| 0 <= p < q < new_entries.len() implies spec_key(
                (#[trigger] new_entries[p]).0,
            ) != spec_key((#[trigger] new_entries[q]).0) by {
                if q < n {
                    assert(new_entries[p] == entries[p] && new_entries[q] == entries[q]);
                } else {
                    assert(new_entries[p] == entries[p]);
                }
            }
            let old_map = spec_cache_map(entries);
            let new_map = spec_cache_map(new_entries);
            assert forall|x: ([u32; 2], Seq<(u32, u32)>)| #[trigger] new_map.dom().contains(x) <==> old_map.insert(
                k,
                framebuffer,
            ).dom().contains(x) by {
                if old_map.dom().contains(x) {
                    let w = choose|w: int| 0 <= w < entries.len() && spec_key(#[trigger] entries[w].0) == x;
                    assert(new_entries[w] == entries[w]);
                }
                if new_map.dom().contains(x) && x != k {
                    let w = choose|w: int| 0 <= w < new_entries.len() && spec_key(#[trigger] new_entries[w].0) == x;
                    assert(w != n);
                    assert(entries[w] == new_entries[w]);
                }
            }
            assert forall|x: ([u32; 2], Seq<(u32, u32)>)| #[trigger] new_map.dom().contains(x) implies new_map[x]
                == old_map.insert(k, framebuffer)[x] by {
                let w = choose|w: int| 0 <= w < new_entries.len() && spec_key(#[trigger] new_entries[w].0) == x;
                if x == k {
                    if w != n {
                        assert(spec_key(new_entries[w].0) != spec_key(new_entries[n].0));
                    }
                } else {
                    assert(w != n);
                    let v = choose|v: int| 0 <= v < entries.len() && spec_key(#[trigger] entries[v].0) == x;
                    assert(new_entries[v] == entries[v]);
                    if v != w {
                        if v < w {
                            assert(spec_key(new_entries[v].0) != spec_key(new_entries[w].0));
                        } else {
                            assert(spec_key(new_entries[w].0) != spec_key(new_entries[v].0));
                        }
                    }
                }
            }
            assert(new_map =~= old_map.insert(k, framebuffer));
        }
        framebuffer
    }
}


/// Whether no key occurs twice among cached framebuffers.
pub open spec fn spec_keys_unique(entries: Seq<(FrameBufferCacheKey, u64)>) -> bool {
    forall|i: int, j: int|
        0 <= i < j < entries.len() ==> spec_key((#[trigger] entries[i]).0) != spec_key((#[trigger] entries[j]).0)
}

/// Looking a key up twice gives one framebuffer: after a lookup of `key` that gave `fb` (the
/// cached one, or one newly created and then kept), the cache holds `fb` under the key, so a
/// second lookup of an equal key gives `fb` again and creates nothing; the cache grew by one
/// entry only when the key was absent.
pub proof fn lemma_lookup_twice_gives_one_framebuffer(
    before: Seq<(FrameBufferCacheKey, u64)>,
    after: Seq<(FrameBufferCacheKey, u64)>,
    key: FrameBufferCacheKey,
    fb: u64,
)
    requires
        spec_keys_unique(before),
        spec_cache_map(before).contains_key(spec_key(key)) ==> after == before && fb == spec_cache_map(before)[spec_key(key)],
        !spec_cache_map(before).contains_key(spec_key(key)) ==> after == before.push((key, fb)),
    ensures
        spec_keys_unique(after),
        spec_cache_map(after).contains_key(spec_key(key)),
        spec_cache_map(after)[spec_key(key)] == fb,
        after.len() == before.len() + if spec_cache_map(before).contains_key(spec_key(key)) { 0int } else { 1int },
{
    let k = spec_key(key);
    if !spec_cache_map(before).contains_key(k) {
        let n = before.len() as int;
        assert(spec_key(after[n].0) == k);
        assert(spec_cache_map(after).contains_key(k));
        assert forall|i: int, j: int| 0 <= i < j < after.len() implies spec_key((#[trigger] after[i]).0) != spec_key(
            (#[trigger] after[j]).0,
        ) by {
            if j == n {
                assert(after[i] == before[i]);
                if spec_key(before[i].0) == k {
                    assert(spec_cache_map(before).contains_key(k));
                }
            } else {
                assert(after[i] == before[i] && after[j] == before[j]);
            }
        }
        let c = choose|c: int| 0 <= c < after.len() && spec_key(#[trigger] after[c].0) == k;
        if c != n {
            assert(spec_key(after[c].0) != spec_key(after[n].0));
        }
    }
}

} // verus!
