//! How a pass's bindings become descriptor sets of a pipeline: which descriptors are written,
//! of which type, with which dynamic offsets, and which sets are bound.
use vstd::prelude::*;

use crate::descriptor::{
    DESCRIPTOR_TYPE_ACCELERATION_STRUCTURE_KHR, DESCRIPTOR_TYPE_SAMPLED_IMAGE, DESCRIPTOR_TYPE_STORAGE_BUFFER,
    DESCRIPTOR_TYPE_STORAGE_BUFFER_DYNAMIC, DESCRIPTOR_TYPE_STORAGE_IMAGE, DESCRIPTOR_TYPE_UNIFORM_BUFFER_DYNAMIC,
};
use crate::graph_resource::{GraphComputePipelineHandle, GraphRasterPipelineHandle, GraphRayTracingPipelineHandle};
use crate::pass_context::RenderGraphPassBinding;
use crate::set_layout::{spec_has_key, spec_key_index};
use crate::vk;

verus! {

/// The most descriptor sets a pass creates for one pipeline.
pub const MAX_DESCRIPTOR_SET_COUNT: usize = 4;

/// The set of the engine's global constants.
pub const GLOBAL_CONSTANTS_SET: u32 = 2;

/// The descriptor sets a pass has the pipeline create: for each, its index and the resources
/// bound to its bindings, the first to binding 0.
pub struct PipelineSetLayoutBindings<'a> {
    pub bindings: Vec<(u32, &'a [RenderGraphPassBinding])>,
}

/// What a pass binds with a pipeline: the pipeline, the sets created for it from the pass's
/// resources, and sets made elsewhere (raw `VkDescriptorSet` handles), each index at most once.
pub struct PipelineBindings<'a, HandleType> {
    pub pipeline_handle: HandleType,
    pub set_layouts: PipelineSetLayoutBindings<'a>,
    pub raw_sets: Vec<(u32, u64)>,
}

/// Whether no index occurs twice among the raw sets.
pub open spec fn spec_keys_unique(s: Seq<(u32, u64)>) -> bool {
    forall|i: int, j: int| 0 <= i < j < s.len() ==> (#[trigger] s[i]).0 != (#[trigger] s[j]).0
}

/// The raw sets by index.
pub open spec fn spec_raw_map(s: Seq<(u32, u64)>) -> Map<u32, u64> {
    Map::new(|k: u32| spec_has_key(s, k), |k: u32| s[spec_key_index(s, k)].1)
}

impl<'a, HandleType> PipelineBindings<'a, HandleType> {
    /// Whether the pass creates at most the sets a pipeline can take, and names each raw set once.
    pub open spec fn wf(&self) -> bool {
        &&& self.set_layouts.bindings@.len() <= MAX_DESCRIPTOR_SET_COUNT
        &&& spec_keys_unique(self.raw_sets@)
    }

    /// No sets for the pipeline yet.
    pub fn new(pipeline_handle: HandleType) -> (b: Self)
        ensures
            b.wf(),
            b.pipeline_handle == pipeline_handle,
            b.set_layouts.bindings@.len() == 0,
            b.raw_sets@.len() == 0,
    {
        Self { pipeline_handle, set_layouts: PipelineSetLayoutBindings { bindings: Vec::new() }, raw_sets: Vec::new() }
    }

    /// Has the pipeline create set `set_idx` from `bindings`.
    pub fn descriptor_set(self, set_idx: u32, bindings: &'a [RenderGraphPassBinding]) -> (b: Self)
        requires
            self.wf(),
            self.set_layouts.bindings@.len() < MAX_DESCRIPTOR_SET_COUNT,
        ensures
            b.wf(),
            b.pipeline_handle == self.pipeline_handle,
            b.set_layouts.bindings@ == self.set_layouts.bindings@.push((set_idx, bindings)),
            b.raw_sets@ == self.raw_sets@,
    {
        let mut b = self;
        b.set_layouts.bindings.push((set_idx, bindings));
        b
    }

    /// Binds the raw set `set` at index `set_idx`, in place of one bound there before.
    pub fn raw_descriptor_set(self, set_idx: u32, set: u64) -> (b: Self)
        requires
            self.wf(),
        ensures
            b.wf(),
            b.pipeline_handle == self.pipeline_handle,
            b.set_layouts.bindings@ == self.set_layouts.bindings@,
            spec_raw_map(b.raw_sets@) == spec_raw_map(self.raw_sets@).insert(set_idx, set),
    {
        let PipelineBindings { pipeline_handle, set_layouts, raw_sets } = self;
        let mut raw_sets = raw_sets;
        let ghost old_raw = raw_sets@;
        match find_raw_set(&raw_sets, set_idx) {
            Some(i) => {
                raw_sets.set(i, (set_idx, set));
                proof {
                    let new_raw = raw_sets@;
                    assert(spec_keys_unique(new_raw)) by {
                        assert forall|p: int, q: int| 0 <= p < q < new_raw.len() implies (#[trigger] new_raw[p]).0
                            != (#[trigger] new_raw[q]).0 by {
                            assert(old_raw[p].0 != old_raw[q].0);
                        }
                    }
                    assert forall|k: u32| #[trigger] spec_raw_map(new_raw).dom().contains(k) <==> spec_raw_map(
                        old_raw,
                    ).insert(set_idx, set).dom().contains(k) by {
                        if spec_has_key(old_raw, k) {
                            let w = spec_key_index(old_raw, k);
                            assert(new_raw[w].0 == k);
                        }
                        if spec_has_key(new_raw, k) {
                            let w = spec_key_index(new_raw, k);
                            assert(old_raw[w].0 == k);
                        }
                    }
                    assert forall|k: u32| #[trigger] spec_raw_map(new_raw).dom().contains(k) implies spec_raw_map(
                        new_raw,
                    )[k] == spec_raw_map(old_raw).insert(set_idx, set)[k] by {
                        let w = spec_key_index(new_raw, k);
                        if k == set_idx {
                            assert(w == i as int);
                        } else {
                            let v = spec_key_index(old_raw, k);
                            assert(old_raw[w].0 == k);
                            assert(v == w);
                        }
                    }
                    assert(spec_raw_map(new_raw) =~= spec_raw_map(old_raw).insert(set_idx, set));
                }
                return PipelineBindings { pipeline_handle, set_layouts, raw_sets };
            },
            None => {},
        }
        raw_sets.push((set_idx, set));
        proof {
            let new_raw = raw_sets@;
            let n = old_raw.len() as int;
            assert(new_raw[n].0 == set_idx);
            assert(spec_keys_unique(new_raw)) by {
                assert forall|p: int, q: int| 0 <= p < q < new_raw.len() implies (#[trigger] new_raw[p]).0
                    != (#[trigger] new_raw[q]).0 by {
                    if q < n {
                        assert(old_raw[p].0 != old_raw[q].0);
                    } else {
                        assert(old_raw[p].0 != set_idx);
                    }
                }
            }
            assert forall|k: u32| #[trigger] spec_raw_map(new_raw).dom().contains(k) <==> spec_raw_map(
                old_raw,
            ).insert(set_idx, set).dom().contains(k) by {
                if spec_has_key(old_raw, k) {
                    let w = spec_key_index(old_raw, k);
                    assert(new_raw[w].0 == k);
                }
                if spec_has_key(new_raw, k) && k != set_idx {
                    let w = spec_key_index(new_raw, k);
                    assert(old_raw[w].0 == k);
                }
            }
            assert forall|k: u32| #[trigger] spec_raw_map(new_raw).dom().contains(k) implies spec_raw_map(new_raw)[k]
                == spec_raw_map(old_raw).insert(set_idx, set)[k] by {
                let w = spec_key_index(new_raw, k);
                if k == set_idx {
                    assert(w == n);
                } else {
                    let v = spec_key_index(old_raw, k);
                    assert(old_raw[w].0 == k);
                    assert(v == w);
                }
            }
            assert(spec_raw_map(new_raw) =~= spec_raw_map(old_raw).insert(set_idx, set));
        }
        PipelineBindings { pipeline_handle, set_layouts, raw_sets }
    }
}

/// Pipeline handles that a pass binds sets with.
pub trait IntoPipelineDescriptorBindings: Sized {
    /// No sets for this pipeline yet.
    fn into_bindings<'a>(self) -> (b: PipelineBindings<'a, Self>)
        ensures
            b.wf(),
            b.pipeline_handle == self,
            b.set_layouts.bindings@.len() == 0,
            b.raw_sets@.len() == 0,
    ;
}

impl IntoPipelineDescriptorBindings for GraphRasterPipelineHandle {
    fn into_bindings<'a>(self) -> (b: PipelineBindings<'a, Self>) {
        PipelineBindings::new(self)
    }
}

impl IntoPipelineDescriptorBindings for GraphComputePipelineHandle {
    fn into_bindings<'a>(self) -> (b: PipelineBindings<'a, Self>) {
        PipelineBindings::new(self)
    }
}

impl IntoPipelineDescriptorBindings for GraphRayTracingPipelineHandle {
    fn into_bindings<'a>(self) -> (b: PipelineBindings<'a, Self>) {
        PipelineBindings::new(self)
    }
}

fn find_raw_set(raw_sets: &Vec<(u32, u64)>, set_idx: u32) -> (r: Option<usize>)
    ensures
        r matches Some(i) ==> i < raw_sets@.len() && raw_sets@[i as int].0 == set_idx,
        r is None ==> forall|j: int| 0 <= j < raw_sets@.len() ==> (#[trigger] raw_sets@[j]).0 != set_idx,
{
    let mut i: usize = 0;
    while i < raw_sets.len()
        invariant
            i <= raw_sets@.len(),
            forall|j: int| 0 <= j < i ==> (#[trigger] raw_sets@[j]).0 != set_idx,
        decreases raw_sets@.len() - i,
    {
        if raw_sets[i].0 == set_idx {
            return Some(i);
        }
        i = i + 1;
    }
    None
}

/// One descriptor written into a set: its binding and its `VkDescriptorType`.
#[derive(Clone, Copy, Debug, PartialEq, Eq, Structural)]
pub struct DescriptorWrite {
    pub binding: u32,
    pub descriptor_type: i32,
}

/// What is written into one descriptor set: the descriptors, and the offsets of its dynamic
/// buffers, in binding order.
pub struct DescriptorSetWrites {
    pub writes: Vec<DescriptorWrite>,
    pub dynamic_offsets: Vec<u32>,
}

/// Whether an image in this layout can be bound: sampled when read only, storage when general.
pub open spec fn spec_bindable_layout(layout: i32) -> bool {
    layout == vk::IMAGE_LAYOUT_SHADER_READ_ONLY_OPTIMAL || layout == vk::IMAGE_LAYOUT_GENERAL
}

/// The descriptor type of an image in a bindable layout.
pub open spec fn spec_image_descriptor_type(layout: i32) -> i32 {
    if layout == vk::IMAGE_LAYOUT_SHADER_READ_ONLY_OPTIMAL {
        DESCRIPTOR_TYPE_SAMPLED_IMAGE as i32
    } else {
        DESCRIPTOR_TYPE_STORAGE_IMAGE as i32
    }
}

/// Whether a binding can be written into a set: its images are in bindable layouts, an array
/// of them has one, and its first decides the type.
pub open spec fn spec_writable(b: RenderGraphPassBinding) -> bool {
    match b {
        RenderGraphPassBinding::Image(i) => spec_bindable_layout(i.layout),
        RenderGraphPassBinding::ImageArray(v) => v@.len() > 0 && spec_bindable_layout(v@[0].layout),
        _ => true,
    }
}

/// The descriptor type a binding is written as.
pub open spec fn spec_write_type(b: RenderGraphPassBinding) -> i32 {
    match b {
        RenderGraphPassBinding::Image(i) => spec_image_descriptor_type(i.layout),
        RenderGraphPassBinding::ImageArray(v) => spec_image_descriptor_type(v@[0].layout),
        RenderGraphPassBinding::Buffer(_) => DESCRIPTOR_TYPE_STORAGE_BUFFER as i32,
        RenderGraphPassBinding::RayTracingAccelStruct(_) => DESCRIPTOR_TYPE_ACCELERATION_STRUCTURE_KHR as i32,
        RenderGraphPassBinding::DynamicBuffer(_) => DESCRIPTOR_TYPE_UNIFORM_BUFFER_DYNAMIC as i32,
        RenderGraphPassBinding::DynamicStorageBuffer(_) => DESCRIPTOR_TYPE_STORAGE_BUFFER_DYNAMIC as i32,
    }
}

/// The writes into a set of the given layout: one for each binding the layout defines, in
/// order, to the binding at its position.
pub open spec fn spec_writes(bindings: Seq<RenderGraphPassBinding>, info: Seq<(u32, i32)>) -> Seq<DescriptorWrite>
    decreases bindings.len(),
{
    if bindings.len() == 0 {
        Seq::empty()
    } else {
        let n = bindings.len() - 1;
        let prev = spec_writes(bindings.take(n), info);
        if spec_has_key(info, n as u32) {
            prev.push(DescriptorWrite { binding: n as u32, descriptor_type: spec_write_type(bindings[n]) })
        } else {
            prev
        }
    }
}

/// The dynamic offsets of a set of the given layout: that of each dynamic buffer the layout
/// defines a binding for, in order.
pub open spec fn spec_dynamic_offsets(bindings: Seq<RenderGraphPassBinding>, info: Seq<(u32, i32)>) -> Seq<u32>
    decreases bindings.len(),
{
    if bindings.len() == 0 {
        Seq::empty()
    } else {
        let n = bindings.len() - 1;
        let prev = spec_dynamic_offsets(bindings.take(n), info);
        if spec_has_key(info, n as u32) {
            match bindings[n] {
                RenderGraphPassBinding::DynamicBuffer(o) => prev.push(o),
                RenderGraphPassBinding::DynamicStorageBuffer(o) => prev.push(o),
                _ => prev,
            }
        } else {
            prev
        }
    }
}

/// Whether each binding that a layout defines can be written.
pub open spec fn spec_all_writable(bindings: Seq<RenderGraphPassBinding>, info: Seq<(u32, i32)>) -> bool {
    forall|i: int| 0 <= i < bindings.len() && spec_has_key(info, i as u32) ==> spec_writable(#[trigger] bindings[i])
}

fn layout_has_binding(info: &Vec<(u32, i32)>, binding: u32) -> (r: bool)
    ensures
        r == spec_has_key(info@, binding),
{
    let mut i: usize = 0;
    while i < info.len()
        invariant
            i <= info@.len(),
            forall|j: int| 0 <= j < i ==> (#[trigger] info@[j]).0 != binding,
        decreases info@.len() - i,
    {
        if info[i].0 == binding {
            proof {
                assert(info@[i as int].0 == binding);
            }
            return true;
        }
        i = i + 1;
    }
    false
}

fn image_descriptor_type(layout: i32) -> (ty: i32)
    requires
        spec_bindable_layout(layout),
    ensures
        ty == spec_image_descriptor_type(layout),
{
    if layout == vk::IMAGE_LAYOUT_SHADER_READ_ONLY_OPTIMAL {
        DESCRIPTOR_TYPE_SAMPLED_IMAGE as i32
    } else {
        DESCRIPTOR_TYPE_STORAGE_IMAGE as i32
    }
}

/// What is written into a set of the layout `set_layout_info` (its bindings and their types)
/// from a pass's bindings: the bindings the layout does not define are left out.
pub fn write_descriptor_set_bindings(
    bindings: &[RenderGraphPassBinding],
    set_layout_info: &Vec<(u32, i32)>,
) -> (w: DescriptorSetWrites)
    requires
        bindings@.len() <= u32::MAX,
        spec_all_writable(bindings@, set_layout_info@),
    ensures
        w.writes@ == spec_writes(bindings@, set_layout_info@),
        w.dynamic_offsets@ == spec_dynamic_offsets(bindings@, set_layout_info@),
{
    let mut writes: Vec<DescriptorWrite> = Vec::new();
    let mut dynamic_offsets: Vec<u32> = Vec::new();
    let mut i: usize = 0;
    proof {
        assert(bindings@.take(0) =~= Seq::<RenderGraphPassBinding>::empty());
    }
    while i < bindings.len()
        invariant
            i <= bindings@.len(),
            bindings@.len() <= u32::MAX,
            spec_all_writable(bindings@, set_layout_info@),
            writes@ == spec_writes(bindings@.take(i as int), set_layout_info@),
            dynamic_offsets@ == spec_dynamic_offsets(bindings@.take(i as int), set_layout_info@),
        decreases bindings@.len() - i,
    {
        let ghost next = bindings@.take(i as int + 1);
        proof {
            assert(next.take(i as int) =~= bindings@.take(i as int));
            assert(next[i as int] == bindings@[i as int]);
        }
        if layout_has_binding(set_layout_info, i as u32) {
            proof {
                assert(spec_writable(bindings@[i as int]));
            }
            let ty = match &bindings[i] {
                RenderGraphPassBinding::Image(image) => image_descriptor_type(image.layout),
                RenderGraphPassBinding::ImageArray(images) => image_descriptor_type(images[0].layout),
                RenderGraphPassBinding::Buffer(_) => DESCRIPTOR_TYPE_STORAGE_BUFFER as i32,
                RenderGraphPassBinding::RayTracingAccelStruct(_) => DESCRIPTOR_TYPE_ACCELERATION_STRUCTURE_KHR as i32,
                RenderGraphPassBinding::DynamicBuffer(offset) => {
                    dynamic_offsets.push(*offset);
                    DESCRIPTOR_TYPE_UNIFORM_BUFFER_DYNAMIC as i32
                },
                RenderGraphPassBinding::DynamicStorageBuffer(offset) => {
                    dynamic_offsets.push(*offset);
                    DESCRIPTOR_TYPE_STORAGE_BUFFER_DYNAMIC as i32
                },
            };
            writes.push(DescriptorWrite { binding: i as u32, descriptor_type: ty });
        }
        i = i + 1;
    }
    proof {
        assert(bindings@.take(bindings@.len() as int) =~= bindings@);
    }
    DescriptorSetWrites { writes, dynamic_offsets }
}

/// Only bindings that the set layout defines are written, each at most once, in binding order,
/// with the type its binding calls for.
pub proof fn lemma_writes_are_defined(bindings: Seq<RenderGraphPassBinding>, info: Seq<(u32, i32)>)
    requires
        bindings.len() <= u32::MAX,
    ensures
        forall|k: int|
            0 <= k < spec_writes(bindings, info).len() ==> {
                let w = #[trigger] spec_writes(bindings, info)[k];
                &&& w.binding < bindings.len()
                &&& spec_has_key(info, w.binding)
                &&& w.descriptor_type == spec_write_type(bindings[w.binding as int])
            },
        forall|k1: int, k2: int|
            0 <= k1 < k2 < spec_writes(bindings, info).len() ==> (#[trigger] spec_writes(bindings, info)[k1]).binding
                < (#[trigger] spec_writes(bindings, info)[k2]).binding,
    decreases bindings.len(),
{
    if bindings.len() > 0 {
        let n = bindings.len() - 1;
        let prefix = bindings.take(n);
        lemma_writes_are_defined(prefix, info);
        let prev = spec_writes(prefix, info);
        assert forall|k: int| 0 <= k < prev.len() implies (#[trigger] prev[k]).binding < n && bindings[prev[k].binding as int]
            == prefix[prev[k].binding as int] by {}
    }
}

/// A descriptor set bound together with a pipeline.
pub enum DescriptorSetBind {
    /// The engine's global constants, at set 2, with the frame constants' offset.
    GlobalConstants,
    /// The `source`-th set the pass gave, created in place at index `set` with these writes.
    InPlace { set: u32, source: usize, writes: DescriptorSetWrites },
    /// A set made elsewhere, bound at index `set`.
    Raw { set: u32, raw: u64 },
}

/// Which of the sets a pass gave a pipeline with `set_count` set layouts has: the positions of
/// those whose index is below `set_count`, in order.
pub open spec fn spec_in_place_sources<'a>(set_count: int, sets: Seq<(u32, &'a [RenderGraphPassBinding])>) -> Seq<
    usize,
>
    decreases sets.len(),
{
    if sets.len() == 0 {
        Seq::empty()
    } else {
        let n = sets.len() - 1;
        let prev = spec_in_place_sources(set_count, sets.take(n));
        if (sets[n].0 as int) < set_count {
            prev.push(n as usize)
        } else {
            prev
        }
    }
}

/// Whether `b` creates the `source`-th set of `sets` in place, written as its layout says.
pub open spec fn spec_in_place_bind<'a>(
    b: DescriptorSetBind,
    source: usize,
    sets: Seq<(u32, &'a [RenderGraphPassBinding])>,
    set_layout_infos: Seq<Vec<(u32, i32)>>,
) -> bool {
    match b {
        DescriptorSetBind::InPlace { set, source: s, writes } => {
            &&& s == source
            &&& set == sets[source as int].0
            &&& writes.writes@ == spec_writes(sets[source as int].1@, set_layout_infos[set as int]@)
            &&& writes.dynamic_offsets@ == spec_dynamic_offsets(sets[source as int].1@, set_layout_infos[set as int]@)
        },
        _ => false,
    }
}

/// Whether each set that a pipeline with these set layouts has can be written from the pass's
/// bindings.
pub open spec fn spec_sets_writable<'a>(
    sets: Seq<(u32, &'a [RenderGraphPassBinding])>,
    set_layout_infos: Seq<Vec<(u32, i32)>>,
) -> bool {
    forall|j: int|
        0 <= j < sets.len() && ((#[trigger] sets[j]).0 as int) < set_layout_infos.len() ==> sets[j].1@.len() <= u32::MAX
            && spec_all_writable(sets[j].1@, set_layout_infos[sets[j].0 as int]@)
}

/// The sets bound with a pipeline of the set layouts `set_layout_infos` (its bindings and their
/// types, by set): the global constants when it has set 2, then each set the pass gave that the
/// pipeline has, created in place, then the raw sets.
pub fn pipeline_descriptor_set_binds<'a, HandleType>(
    set_layout_infos: &Vec<Vec<(u32, i32)>>,
    bindings: &PipelineBindings<'a, HandleType>,
) -> (plan: Vec<DescriptorSetBind>)
    requires
        bindings.wf(),
        spec_sets_writable(bindings.set_layouts.bindings@, set_layout_infos@),
    ensures
        ({
            let g: int = if set_layout_infos@.len() > 2 { 1 } else { 0 };
            let sets = bindings.set_layouts.bindings@;
            let sources = spec_in_place_sources(set_layout_infos@.len() as int, sets);
            let raw = bindings.raw_sets@;
            &&& plan@.len() == g + sources.len() + raw.len()
            &&& g == 1 ==> plan@[0] is GlobalConstants
            &&& forall|k: int|
                0 <= k < sources.len() ==> spec_in_place_bind(
                    #[trigger] plan@[g + k],
                    sources[k],
                    sets,
                    set_layout_infos@,
                )
            &&& forall|k: int|
                0 <= k < raw.len() ==> #[trigger] plan@[g + sources.len() + k] == (DescriptorSetBind::Raw {
                    set: raw[k].0,
                    raw: raw[k].1,
                })
        }),
{
    let ghost sets = bindings.set_layouts.bindings@;
    let ghost infos = set_layout_infos@;
    let mut plan: Vec<DescriptorSetBind> = Vec::new();
    if set_layout_infos.len() > 2 {
        plan.push(DescriptorSetBind::GlobalConstants);
    }
    let ghost g: int = plan@.len() as int;
    let mut j: usize = 0;
    proof {
        assert(sets.take(0) =~= Seq::<(u32, &'a [RenderGraphPassBinding])>::empty());
    }
    while j < bindings.set_layouts.bindings.len()
        invariant
            sets == bindings.set_layouts.bindings@,
            infos == set_layout_infos@,
            j <= sets.len(),
            sets.len() <= MAX_DESCRIPTOR_SET_COUNT,
            spec_sets_writable(sets, infos),
            g == (if infos.len() > 2 { 1int } else { 0int }),
            g == 1 ==> plan@[0] is GlobalConstants,
            plan@.len() == g + spec_in_place_sources(infos.len() as int, sets.take(j as int)).len(),
            forall|k: int|
                0 <= k < spec_in_place_sources(infos.len() as int, sets.take(j as int)).len() ==> spec_in_place_bind(
                    #[trigger] plan@[g + k],
                    spec_in_place_sources(infos.len() as int, sets.take(j as int))[k],
                    sets,
                    infos,
                ),
        decreases sets.len() - j,
    {
        let ghost next = sets.take(j as int + 1);
        let ghost before = spec_in_place_sources(infos.len() as int, sets.take(j as int));
        proof {
            assert(next.take(j as int) =~= sets.take(j as int));
            assert(next[j as int] == sets[j as int]);
        }
        let (set_idx, set_bindings) = bindings.set_layouts.bindings[j];
        if (set_idx as usize) < set_layout_infos.len() {
            proof {
                assert(sets[j as int].0 == set_idx);
                assert((sets[j as int].0 as int) < infos.len());
            }
            let writes = write_descriptor_set_bindings(set_bindings, &set_layout_infos[set_idx as usize]);
            let ghost old_plan = plan@;
            plan.push(DescriptorSetBind::InPlace { set: set_idx, source: j, writes });
            proof {
                let after = spec_in_place_sources(infos.len() as int, next);
                assert(after == before.push(j));
                assert forall|k: int| 0 <= k < after.len() implies spec_in_place_bind(
                    #[trigger] plan@[g + k],
                    after[k],
                    sets,
                    infos,
                ) by {
                    if k < before.len() {
                        assert(plan@[g + k] == old_plan[g + k]);
                    }
                }
            }
        }
        j = j + 1;
    }
    proof {
        assert(sets.take(sets.len() as int) =~= sets);
    }
    let ghost sources = spec_in_place_sources(infos.len() as int, sets);
    let ghost mid = plan@.len() as int;
    let mut r: usize = 0;
    while r < bindings.raw_sets.len()
        invariant
            sets == bindings.set_layouts.bindings@,
            infos == set_layout_infos@,
            sources == spec_in_place_sources(infos.len() as int, sets),
            g == (if infos.len() > 2 { 1int } else { 0int }),
            g == 1 ==> plan@[0] is GlobalConstants,
            mid == g + sources.len(),
            r <= bindings.raw_sets@.len(),
            plan@.len() == mid + r,
            forall|k: int| 0 <= k < sources.len() ==> spec_in_place_bind(#[trigger] plan@[g + k], sources[k], sets, infos),
            forall|k: int|
                0 <= k < r ==> #[trigger] plan@[mid + k] == (DescriptorSetBind::Raw {
                    set: bindings.raw_sets@[k].0,
                    raw: bindings.raw_sets@[k].1,
                }),
        decreases bindings.raw_sets@.len() - r,
    {
        let (set_idx, raw) = bindings.raw_sets[r];
        let ghost old_plan = plan@;
        plan.push(DescriptorSetBind::Raw { set: set_idx, raw });
        proof {
            assert forall|k: int| 0 <= k < sources.len() implies spec_in_place_bind(
                #[trigger] plan@[g + k],
                sources[k],
                sets,
                infos,
            ) by {
                assert(plan@[g + k] == old_plan[g + k]);
            }
            assert forall|k: int| 0 <= k < r + 1 implies #[trigger] plan@[mid + k] == (DescriptorSetBind::Raw {
                set: bindings.raw_sets@[k].0,
                raw: bindings.raw_sets@[k].1,
            }) by {
                if k < r {
                    assert(plan@[mid + k] == old_plan[mid + k]);
                }
            }
        }
        r = r + 1;
    }
    plan
}

} // verus!
