//! A render graph being recorded: the barriers that move every resource into the access
//! each pass declared, and the order in which passes run.
use vstd::prelude::*;

use std::sync::Arc;

use crate::barrier::AccessType;
use crate::compiled_graph::{GraphPreparedResource, RegisteredResource, RenderGraphPipelineHandles};
use crate::graph_resource::{ExportableGraphResource, GraphResource, GraphResourceImportedData};
use crate::image::Image;
use crate::pass::{Pass, PassResourceAccessType, PassResourceHandle};
use crate::retired_graph::RetiredRenderGraph;
use crate::util::arc_clone;
use crate::vk;

verus! {

/// Most transitions recorded in one pipeline barrier.
pub const MAX_TRANSITION_PER_BATCH: usize = 64;

/// A resource of the graph, by index, and the access it must be moved into.
#[derive(Clone, Copy, Debug, PartialEq, Eq, Structural)]
pub struct TransitionRequest {
    pub resource: usize,
    pub access: PassResourceAccessType,
}

/// An image barrier: resource index, previous and next access, and the aspects it covers.
#[derive(Clone, Copy, Debug, PartialEq, Eq, Structural)]
pub struct ImageTransition {
    pub resource: usize,
    pub prev_access: AccessType,
    pub next_access: AccessType,
    /// `VkImageAspectFlags` bits.
    pub aspect_mask: u32,
    pub discard_contents: bool,
}

/// A buffer barrier: resource index, previous and next access.
#[derive(Clone, Copy, Debug, PartialEq, Eq, Structural)]
pub struct BufferTransition {
    pub resource: usize,
    pub prev_access: AccessType,
    pub next_access: AccessType,
}

/// The barriers of one pipeline barrier command: image barriers first, then buffer barriers.
pub struct TransitionBatch {
    pub image_barriers: Vec<ImageTransition>,
    pub buffer_barriers: Vec<BufferTransition>,
}

/// What recording the graph puts into the command buffer, in order.
pub enum RecordedCommand {
    /// Record these barriers.
    Transition(TransitionBatch),
    /// Run the pass's render function.
    RunPass(Pass),
}

/// A render graph whose resources are gathered, being recorded.
pub struct ExecutingRenderGraph {
    pub passes: Vec<Pass>,
    pub native_resources: Vec<GraphResource>,
    pub registered_resources: Vec<RegisteredResource>,
    pub exported_resources: Vec<(ExportableGraphResource, AccessType)>,
    pub pipelines: RenderGraphPipelineHandles,
}

/// The image aspects a format has: depth, stencil, both, or color.
pub open spec fn spec_aspect_of_format(format: i32) -> u32 {
    if format == vk::FORMAT_D16_UNORM || format == vk::FORMAT_X8_D24_UNORM_PACK32 || format
        == vk::FORMAT_D32_SFLOAT {
        vk::ASPECT_DEPTH
    } else if format == vk::FORMAT_S8_UINT {
        vk::ASPECT_STENCIL
    } else if format == vk::FORMAT_D16_UNORM_S8_UINT || format == vk::FORMAT_D24_UNORM_S8_UINT
        || format == vk::FORMAT_D32_SFLOAT_S8_UINT {
        vk::ASPECT_DEPTH_STENCIL
    } else {
        vk::ASPECT_COLOR
    }
}

/// The image aspects a format has: depth, stencil, both, or color.
pub fn aspect_flag_from_image_format(format: i32) -> (aspect: u32)
    ensures
        aspect == spec_aspect_of_format(format),
{
    if format == vk::FORMAT_D16_UNORM || format == vk::FORMAT_X8_D24_UNORM_PACK32 || format
        == vk::FORMAT_D32_SFLOAT {
        vk::ASPECT_DEPTH
    } else if format == vk::FORMAT_S8_UINT {
        vk::ASPECT_STENCIL
    } else if format == vk::FORMAT_D16_UNORM_S8_UINT || format == vk::FORMAT_D24_UNORM_S8_UINT
        || format == vk::FORMAT_D32_SFLOAT_S8_UINT {
        vk::ASPECT_DEPTH_STENCIL
    } else {
        vk::ASPECT_COLOR
    }
}

/// The current access of every registered resource.
pub open spec fn spec_accesses(regs: Seq<RegisteredResource>) -> Seq<AccessType> {
    Seq::new(regs.len(), |i: int| regs[i].access)
}

/// Whether a request needs a barrier: unless the resource is already in the access and the
/// request lets it skip the barrier then.
pub open spec fn spec_needs(accs: Seq<AccessType>, req: TransitionRequest) -> bool {
    !(accs[req.resource as int] == req.access.access_type && req.access.skip_sync_if_same)
}

/// The accesses after one batch of requests; whether a request needs a barrier is decided
/// from the accesses at the start of the batch.
pub open spec fn spec_batch_accesses(start: Seq<AccessType>, reqs: Seq<TransitionRequest>) -> Seq<
    AccessType,
>
    decreases reqs.len(),
{
    if reqs.len() == 0 {
        start
    } else {
        let prev = spec_batch_accesses(start, reqs.drop_last());
        let r = reqs.last();
        if spec_needs(start, r) {
            prev.update(r.resource as int, r.access.access_type)
        } else {
            prev
        }
    }
}

/// Whether a gathered resource is an image.
pub open spec fn spec_is_image(res: GraphPreparedResource) -> bool {
    res is CreatedImage || res is ImportedImage
}

/// Whether a gathered resource is a buffer.
pub open spec fn spec_is_buffer(res: GraphPreparedResource) -> bool {
    res is CreatedBuffer || res is ImportedBuffer
}

/// The format of a gathered image.
pub open spec fn spec_image_format(res: GraphPreparedResource) -> i32 {
    match res {
        GraphPreparedResource::CreatedImage(i) => i.desc.format,
        GraphPreparedResource::ImportedImage(i) => i.desc.format,
        _ => 0,
    }
}

/// The image barriers of one batch: one per request that needs a barrier on an image, from its
/// access at the start of the batch.
pub open spec fn spec_batch_image_barriers(
    regs: Seq<RegisteredResource>,
    start: Seq<AccessType>,
    reqs: Seq<TransitionRequest>,
) -> Seq<ImageTransition>
    decreases reqs.len(),
{
    if reqs.len() == 0 {
        Seq::empty()
    } else {
        let prev = spec_batch_image_barriers(regs, start, reqs.drop_last());
        let r = reqs.last();
        if spec_needs(start, r) && spec_is_image(regs[r.resource as int].resource) {
            prev.push(
                ImageTransition {
                    resource: r.resource,
                    prev_access: start[r.resource as int],
                    next_access: r.access.access_type,
                    aspect_mask: spec_aspect_of_format(spec_image_format(regs[r.resource as int].resource)),
                    discard_contents: false,
                },
            )
        } else {
            prev
        }
    }
}

/// The buffer barriers of one batch: one per request that needs a barrier on a buffer.
pub open spec fn spec_batch_buffer_barriers(
    regs: Seq<RegisteredResource>,
    start: Seq<AccessType>,
    reqs: Seq<TransitionRequest>,
) -> Seq<BufferTransition>
    decreases reqs.len(),
{
    if reqs.len() == 0 {
        Seq::empty()
    } else {
        let prev = spec_batch_buffer_barriers(regs, start, reqs.drop_last());
        let r = reqs.last();
        if spec_needs(start, r) && spec_is_buffer(regs[r.resource as int].resource) {
            prev.push(
                BufferTransition {
                    resource: r.resource,
                    prev_access: start[r.resource as int],
                    next_access: r.access.access_type,
                },
            )
        } else {
            prev
        }
    }
}

/// Whether requests can be transitioned: they refer to registered resources, and none needs a
/// barrier on a resource that does not exist yet.
pub open spec fn spec_requests_valid(regs: Seq<RegisteredResource>, reqs: Seq<TransitionRequest>) -> bool {
    forall|k: int|
        0 <= k < reqs.len() ==> {
            let r = #[trigger] reqs[k];
            &&& r.resource < regs.len()
            &&& !(regs[r.resource as int].resource is Delayed)
        }
}

/// Number of batches a number of requests is split into.
pub open spec fn spec_batch_count(n: int) -> int {
    n / (MAX_TRANSITION_PER_BATCH as int) + 1
}

/// The requests of batch `i`: up to `MAX_TRANSITION_PER_BATCH` of them; the last batch takes the
/// rest, and may be empty.
pub open spec fn spec_batch_requests(reqs: Seq<TransitionRequest>, i: int) -> Seq<TransitionRequest> {
    let lo = i * (MAX_TRANSITION_PER_BATCH as int);
    let hi = if i == spec_batch_count(reqs.len() as int) - 1 {
        reqs.len() as int
    } else {
        (i + 1) * (MAX_TRANSITION_PER_BATCH as int)
    };
    reqs.subrange(lo, hi)
}

/// The accesses after the first `i` batches.
pub open spec fn spec_accesses_after_batches(
    start: Seq<AccessType>,
    reqs: Seq<TransitionRequest>,
    i: int,
) -> Seq<AccessType>
    decreases i,
{
    if i <= 0 {
        start
    } else {
        spec_batch_accesses(
            spec_accesses_after_batches(start, reqs, i - 1),
            spec_batch_requests(reqs, i - 1),
        )
    }
}

/// The accesses after transitioning all requests, batch after batch.
pub open spec fn spec_batched_accesses(start: Seq<AccessType>, reqs: Seq<TransitionRequest>) -> Seq<
    AccessType,
> {
    if reqs.len() == 0 {
        start
    } else {
        spec_accesses_after_batches(start, reqs, spec_batch_count(reqs.len() as int))
    }
}

/// Whether `batch` holds exactly the barriers the graph records for batch `i` of `reqs`.
pub open spec fn spec_is_batch(
    regs: Seq<RegisteredResource>,
    start: Seq<AccessType>,
    reqs: Seq<TransitionRequest>,
    i: int,
    batch: TransitionBatch,
) -> bool {
    let accs = spec_accesses_after_batches(start, reqs, i);
    &&& batch.image_barriers@ == spec_batch_image_barriers(regs, accs, spec_batch_requests(reqs, i))
    &&& batch.buffer_barriers@ == spec_batch_buffer_barriers(regs, accs, spec_batch_requests(reqs, i))
}

/// The only change to registered resources is their accesses, now `accs`.
pub open spec fn spec_same_resources_with(
    before: Seq<RegisteredResource>,
    after: Seq<RegisteredResource>,
    accs: Seq<AccessType>,
) -> bool {
    &&& after.len() == before.len()
    &&& spec_accesses(after) == accs
    &&& forall|i: int| 0 <= i < before.len() ==> #[trigger] after[i].resource == before[i].resource
}

/// The transition request for one resource of a pass.
pub open spec fn spec_request_of(r: PassResourceHandle) -> TransitionRequest {
    TransitionRequest { resource: r.handle.id as usize, access: r.access }
}

/// The transition requests of a pass: its inputs, then its outputs, each in the access the
/// pass declared.
pub open spec fn spec_pass_requests(pass: Pass) -> Seq<TransitionRequest> {
    pass.refs().map_values(|r: PassResourceHandle| spec_request_of(r))
}

/// Whether a resource of a pass can be transitioned: it is registered, and it exists already.
pub open spec fn spec_ref_valid(regs: Seq<RegisteredResource>, r: PassResourceHandle) -> bool {
    &&& (r.handle.id as int) < regs.len()
    &&& !(regs[r.handle.id as int].resource is Delayed)
}

/// Whether every resource of a pass can be transitioned.
pub open spec fn spec_pass_valid(regs: Seq<RegisteredResource>, pass: Pass) -> bool {
    forall|j: int| 0 <= j < pass.refs().len() ==> spec_ref_valid(regs, #[trigger] pass.refs()[j])
}

/// Number of barrier batches recorded for a number of requests.
pub open spec fn spec_num_batches(n: int) -> int {
    if n == 0 {
        0
    } else {
        spec_batch_count(n)
    }
}

/// Whether `cmds` are exactly the barrier batches recorded to move the resources of `reqs` from
/// the accesses `accs`.
pub open spec fn spec_is_transition_run(
    regs: Seq<RegisteredResource>,
    accs: Seq<AccessType>,
    reqs: Seq<TransitionRequest>,
    cmds: Seq<RecordedCommand>,
) -> bool {
    &&& cmds.len() == spec_num_batches(reqs.len() as int)
    &&& forall|i: int|
        0 <= i < cmds.len() ==> match #[trigger] cmds[i] {
            RecordedCommand::Transition(b) => spec_is_batch(regs, accs, reqs, i, b),
            RecordedCommand::RunPass(_) => false,
        }
}

/// The accesses after recording `passes` one after the other, from the accesses `accs`.
pub open spec fn spec_accesses_after_passes(accs: Seq<AccessType>, passes: Seq<Pass>) -> Seq<
    AccessType,
>
    decreases passes.len(),
{
    if passes.len() == 0 {
        accs
    } else {
        spec_batched_accesses(
            spec_accesses_after_passes(accs, passes.drop_last()),
            spec_pass_requests(passes.last()),
        )
    }
}

/// Whether `cmds` are exactly what recording `passes` in order puts in the command buffer: for
/// each pass, the barriers that move its resources into its accesses, then the pass itself.
pub open spec fn spec_records_passes(
    regs: Seq<RegisteredResource>,
    accs: Seq<AccessType>,
    passes: Seq<Pass>,
    cmds: Seq<RecordedCommand>,
) -> bool
    decreases passes.len(),
{
    if passes.len() == 0 {
        cmds.len() == 0
    } else {
        let p = passes.last();
        let reqs = spec_pass_requests(p);
        let n = spec_num_batches(reqs.len() as int);
        &&& cmds.len() >= n + 1
        &&& spec_records_passes(regs, accs, passes.drop_last(), cmds.take(cmds.len() - n - 1))
        &&& spec_is_transition_run(
            regs,
            spec_accesses_after_passes(accs, passes.drop_last()),
            reqs,
            cmds.subrange(cmds.len() - n - 1, cmds.len() - 1),
        )
        &&& cmds.last() == RecordedCommand::RunPass(p)
    }
}

/// Whether a pass writes the swapchain image.
pub open spec fn spec_writes_swapchain(natives: Seq<GraphResource>, pass: Pass) -> bool {
    exists|j: int|
        0 <= j < pass.outputs@.len() && natives[(#[trigger] pass.outputs@[j]).handle.id as int] matches GraphResource::Imported(GraphResourceImportedData::SwapchainImage)
}

/// Whether every output of every pass is a resource of the graph.
pub open spec fn spec_outputs_in(natives: Seq<GraphResource>, passes: Seq<Pass>) -> bool {
    forall|k: int, j: int|
        0 <= k < passes.len() && 0 <= j < passes[k].outputs@.len() ==> (#[trigger] passes[k].outputs@[j]).handle.id
            < natives.len()
}

/// Whether `r` is the last pass that writes the swapchain image.
pub open spec fn spec_is_present_pass(natives: Seq<GraphResource>, passes: Seq<Pass>, r: int) -> bool {
    &&& 0 <= r < passes.len()
    &&& spec_writes_swapchain(natives, passes[r])
    &&& forall|k: int| r < k < passes.len() ==> !spec_writes_swapchain(natives, #[trigger] passes[k])
}

/// The pass that presents: the last pass that writes the swapchain image.
pub open spec fn spec_present_pass(natives: Seq<GraphResource>, passes: Seq<Pass>) -> int {
    choose|r: int| spec_is_present_pass(natives, passes, r)
}

/// The present pass is the only pass that is last to write the swapchain image.
pub proof fn lemma_present_pass_unique(natives: Seq<GraphResource>, passes: Seq<Pass>, r: int)
    requires
        spec_is_present_pass(natives, passes, r),
    ensures
        spec_present_pass(natives, passes) == r,
{
    let c = spec_present_pass(natives, passes);
    assert(spec_is_present_pass(natives, passes, c));
    if c < r {
        assert(!spec_writes_swapchain(natives, passes[r]));
    } else if r < c {
        assert(!spec_writes_swapchain(natives, passes[c]));
    }
}

/// A resource of a pass whose barrier is skipped when it is already in the access.
pub open spec fn spec_forced_ref(r: PassResourceHandle) -> PassResourceHandle {
    PassResourceHandle {
        handle: r.handle,
        access: PassResourceAccessType { access_type: r.access.access_type, skip_sync_if_same: true },
    }
}

/// Whether `q` is `p` with the barrier of every resource skipped when it is already in the access.
pub open spec fn spec_is_forced(p: Pass, q: Pass) -> bool {
    &&& q.id == p.id
    &&& q.name@ == p.name@
    &&& q.inputs@ == p.inputs@.map_values(|r: PassResourceHandle| spec_forced_ref(r))
    &&& q.outputs@ == p.outputs@.map_values(|r: PassResourceHandle| spec_forced_ref(r))
}

/// The requests of a pass, each skipped when its resource is already in the access.
pub open spec fn spec_forced_pass_requests(p: Pass) -> Seq<TransitionRequest> {
    p.refs().map_values(|r: PassResourceHandle| spec_request_of(spec_forced_ref(r)))
}

/// The requests of `passes`, in order, each skipped when its resource is already in the access:
/// the transitions done up front, before any pass is recorded.
pub open spec fn spec_forced_requests(passes: Seq<Pass>) -> Seq<TransitionRequest>
    decreases passes.len(),
{
    if passes.len() == 0 {
        Seq::empty()
    } else {
        spec_forced_requests(passes.drop_last()) + spec_forced_pass_requests(passes.last())
    }
}

/// The accesses after transitioning the requests one at a time.
pub open spec fn spec_accesses_after_singles(accs: Seq<AccessType>, reqs: Seq<TransitionRequest>) -> Seq<
    AccessType,
>
    decreases reqs.len(),
{
    if reqs.len() == 0 {
        accs
    } else {
        spec_batched_accesses(spec_accesses_after_singles(accs, reqs.drop_last()), seq![reqs.last()])
    }
}

/// Whether `cmds` are exactly the barriers recorded to transition the requests one at a time:
/// one batch each.
pub open spec fn spec_records_singles(
    regs: Seq<RegisteredResource>,
    accs: Seq<AccessType>,
    reqs: Seq<TransitionRequest>,
    cmds: Seq<RecordedCommand>,
) -> bool
    decreases reqs.len(),
{
    if reqs.len() == 0 {
        cmds.len() == 0
    } else {
        &&& cmds.len() == reqs.len()
        &&& spec_records_singles(regs, accs, reqs.drop_last(), cmds.drop_last())
        &&& spec_is_transition_run(
            regs,
            spec_accesses_after_singles(accs, reqs.drop_last()),
            seq![reqs.last()],
            seq![cmds.last()],
        )
    }
}

proof fn lemma_transition_run_depends_on_resources(
    a: Seq<RegisteredResource>,
    b: Seq<RegisteredResource>,
    accs: Seq<AccessType>,
    reqs: Seq<TransitionRequest>,
    cmds: Seq<RecordedCommand>,
)
    requires
        a.len() == b.len(),
        forall|i: int| 0 <= i < a.len() ==> #[trigger] a[i].resource == b[i].resource,
        forall|k: int| 0 <= k < reqs.len() ==> #[trigger] reqs[k].resource < a.len(),
        spec_is_transition_run(a, accs, reqs, cmds),
    ensures
        spec_is_transition_run(b, accs, reqs, cmds),
{
    assert forall|i: int| 0 <= i < cmds.len() implies match #[trigger] cmds[i] {
        RecordedCommand::Transition(bt) => spec_is_batch(b, accs, reqs, i, bt),
        RecordedCommand::RunPass(_) => false,
    } by {
        let sub = spec_batch_requests(reqs, i);
        let n = reqs.len() as int;
        let lo = i * 64;
        let hi = if i == spec_batch_count(n) - 1 { n } else { (i + 1) * 64 };
        assert(cmds.len() == spec_batch_count(n));
        assert(0 <= lo <= hi <= n) by (nonlinear_arith)
            requires
                lo == i * 64,
                0 <= i < n / 64 + 1,
                i == n / 64 ==> hi == n,
                i != n / 64 ==> hi == (i + 1) * 64,
                n > 0,
        ;
        assert forall|k: int| 0 <= k < sub.len() implies #[trigger] sub[k].resource < a.len() by {
            assert(sub[k] == reqs[lo + k]);
        }
        let accs_i = spec_accesses_after_batches(accs, reqs, i);
        lemma_image_barriers_depend_on_resources(a, b, accs_i, sub);
        lemma_buffer_barriers_depend_on_resources(a, b, accs_i, sub);
    }
}

proof fn lemma_forced_pass_valid(regs: Seq<RegisteredResource>, p: Pass, q: Pass)
    requires
        spec_pass_valid(regs, p),
        spec_is_forced(p, q),
    ensures
        spec_pass_valid(regs, q),
{
    assert forall|j: int| 0 <= j < q.refs().len() implies spec_ref_valid(regs, #[trigger] q.refs()[j]) by {
        assert(spec_ref_valid(regs, p.refs()[j]));
        if j < p.inputs@.len() {
            assert(q.refs()[j] == q.inputs@[j]);
        } else {
            assert(q.refs()[j] == q.outputs@[j - p.inputs@.len()]);
        }
    }
}

proof fn lemma_records_passes_depend_on_resources(
    a: Seq<RegisteredResource>,
    b: Seq<RegisteredResource>,
    accs: Seq<AccessType>,
    passes: Seq<Pass>,
    cmds: Seq<RecordedCommand>,
)
    requires
        a.len() == b.len(),
        forall|i: int| 0 <= i < a.len() ==> #[trigger] a[i].resource == b[i].resource,
        forall|i: int| 0 <= i < passes.len() ==> spec_pass_valid(a, #[trigger] passes[i]),
        spec_records_passes(a, accs, passes, cmds),
    ensures
        spec_records_passes(b, accs, passes, cmds),
    decreases passes.len(),
{
    if passes.len() > 0 {
        let p = passes.last();
        let reqs = spec_pass_requests(p);
        let n = spec_num_batches(reqs.len() as int);
        assert forall|i: int| 0 <= i < passes.drop_last().len() implies spec_pass_valid(
            a,
            #[trigger] passes.drop_last()[i],
        ) by {
            assert(passes.drop_last()[i] == passes[i]);
        }
        lemma_records_passes_depend_on_resources(
            a,
            b,
            accs,
            passes.drop_last(),
            cmds.take(cmds.len() - n - 1),
        );
        assert(spec_pass_valid(a, passes[passes.len() - 1]));
        assert forall|j: int| 0 <= j < reqs.len() implies #[trigger] reqs[j].resource < a.len() by {
            assert(spec_ref_valid(a, p.refs()[j]));
        }
        lemma_transition_run_depends_on_resources(
            a,
            b,
            spec_accesses_after_passes(accs, passes.drop_last()),
            reqs,
            cmds.subrange(cmds.len() - n - 1, cmds.len() - 1),
        );
    }
}

/// The requests that move every exported resource into the access it was exported with;
/// `AccessType::Nothing` asks for none.
pub open spec fn spec_export_requests(exps: Seq<(ExportableGraphResource, AccessType)>) -> Seq<
    TransitionRequest,
>
    decreases exps.len(),
{
    if exps.len() == 0 {
        Seq::empty()
    } else {
        let prev = spec_export_requests(exps.drop_last());
        let (res, access) = exps.last();
        if access != AccessType::Nothing {
            prev.push(
                TransitionRequest {
                    resource: res.spec_handle().id as usize,
                    access: PassResourceAccessType { access_type: access, skip_sync_if_same: false },
                },
            )
        } else {
            prev
        }
    }
}

/// A gathered resource once the swapchain image exists: the delayed resource is the image.
pub open spec fn spec_filled(res: GraphPreparedResource, swapchain_image: Arc<Image>) -> GraphPreparedResource {
    if res is Delayed {
        GraphPreparedResource::ImportedImage(swapchain_image)
    } else {
        res
    }
}

proof fn lemma_forced_requests_valid(regs: Seq<RegisteredResource>, passes: Seq<Pass>, j: int)
    requires
        forall|k: int| 0 <= k < passes.len() ==> spec_pass_valid(regs, #[trigger] passes[k]),
        0 <= j < spec_forced_requests(passes).len(),
    ensures
        spec_forced_requests(passes)[j].resource < regs.len(),
        !(regs[spec_forced_requests(passes)[j].resource as int].resource is Delayed),
    decreases passes.len(),
{
    let prev = spec_forced_requests(passes.drop_last());
    if j < prev.len() {
        assert forall|k: int| 0 <= k < passes.drop_last().len() implies spec_pass_valid(
            regs,
            #[trigger] passes.drop_last()[k],
        ) by {
            assert(passes.drop_last()[k] == passes[k]);
        }
        lemma_forced_requests_valid(regs, passes.drop_last(), j);
    } else {
        let p = passes.last();
        assert(spec_pass_valid(regs, passes[passes.len() - 1]));
        assert(spec_ref_valid(regs, p.refs()[j - prev.len()]));
    }
}

/// Whether no two requests name the same resource.
pub open spec fn spec_distinct_resources(reqs: Seq<TransitionRequest>) -> bool {
    forall|a: int, b: int|
        0 <= a < b < reqs.len() ==> (#[trigger] reqs[a]).resource != (#[trigger] reqs[b]).resource
}

/// Whether no request names resource `i`.
pub open spec fn spec_not_requested(reqs: Seq<TransitionRequest>, i: int) -> bool {
    forall|k: int| 0 <= k < reqs.len() ==> (#[trigger] reqs[k]).resource != i
}

/// After one batch of requests that name distinct resources, every requested resource is in
/// the access requested for it, and every other resource keeps its access.
pub proof fn lemma_batch_reaches_requested_accesses(start: Seq<AccessType>, reqs: Seq<TransitionRequest>)
    requires
        forall|k: int| 0 <= k < reqs.len() ==> (#[trigger] reqs[k]).resource < start.len(),
        spec_distinct_resources(reqs),
    ensures
        spec_batch_accesses(start, reqs).len() == start.len(),
        forall|k: int|
            0 <= k < reqs.len() ==> spec_batch_accesses(start, reqs)[(#[trigger] reqs[k]).resource as int]
                == reqs[k].access.access_type,
        forall|i: int|
            0 <= i < start.len() && spec_not_requested(reqs, i) ==> #[trigger] spec_batch_accesses(
                start,
                reqs,
            )[i] == start[i],
    decreases reqs.len(),
{
    if reqs.len() > 0 {
        let d = reqs.drop_last();
        let r = reqs.last();
        assert(r == reqs[reqs.len() - 1]);
        assert forall|k: int| 0 <= k < d.len() implies (#[trigger] d[k]).resource < start.len() by {
            assert(d[k] == reqs[k]);
        }
        assert forall|a: int, b: int| 0 <= a < b < d.len() implies (#[trigger] d[a]).resource != (
        #[trigger] d[b]).resource by {
            assert(d[a] == reqs[a] && d[b] == reqs[b]);
        }
        lemma_batch_reaches_requested_accesses(start, d);
        let prev = spec_batch_accesses(start, d);
        assert(spec_not_requested(d, r.resource as int)) by {
            assert forall|k: int| 0 <= k < d.len() implies (#[trigger] d[k]).resource != r.resource by {
                assert(d[k] == reqs[k]);
            }
        }
        assert(prev[r.resource as int] == start[r.resource as int]);
        let after = spec_batch_accesses(start, reqs);
        assert forall|k: int| 0 <= k < reqs.len() implies after[(#[trigger] reqs[k]).resource as int]
            == reqs[k].access.access_type by {
            if k < d.len() {
                assert(d[k] == reqs[k]);
                assert(reqs[k].resource != r.resource);
            }
        }
        assert forall|i: int| 0 <= i < start.len() && spec_not_requested(reqs, i) implies #[trigger] after[i]
            == start[i] by {
            assert(reqs[reqs.len() - 1].resource != i);
            assert forall|k: int| 0 <= k < d.len() implies (#[trigger] d[k]).resource != i by {
                assert(d[k] == reqs[k]);
            }
        }
    }
}

/// Where batch `i` ends: the end of the requests for the last batch, else `(i + 1)` batches in.
pub open spec fn spec_batches_end(n: int, i: int) -> int {
    if i == spec_batch_count(n) {
        n
    } else {
        i * (MAX_TRANSITION_PER_BATCH as int)
    }
}

/// Whether, from `start`, the accesses `after` put the resources of the first `m` requests in
/// their requested accesses and leave every other resource as it was.
pub open spec fn spec_prefix_reached(
    start: Seq<AccessType>,
    reqs: Seq<TransitionRequest>,
    m: int,
    after: Seq<AccessType>,
) -> bool {
    &&& 0 <= m <= reqs.len()
    &&& after.len() == start.len()
    &&& forall|k: int|
        0 <= k < m ==> after[(#[trigger] reqs[k]).resource as int] == reqs[k].access.access_type
    &&& forall|x: int|
        0 <= x < start.len() && spec_not_requested(reqs.take(m), x) ==> #[trigger] after[x] == start[x]
}

#[verifier::spinoff_prover]
#[verifier::rlimit(50)]
proof fn lemma_prefix_step(
    start: Seq<AccessType>,
    reqs: Seq<TransitionRequest>,
    m0: int,
    m1: int,
    prev: Seq<AccessType>,
)
    requires
        0 <= m0 <= m1 <= reqs.len(),
        forall|k: int| 0 <= k < reqs.len() ==> (#[trigger] reqs[k]).resource < start.len(),
        spec_distinct_resources(reqs),
        spec_prefix_reached(start, reqs, m0, prev),
    ensures
        spec_prefix_reached(start, reqs, m1, spec_batch_accesses(prev, reqs.subrange(m0, m1))),
{
    let sub = reqs.subrange(m0, m1);
    let after = spec_batch_accesses(prev, sub);
    assert forall|k: int| 0 <= k < sub.len() implies (#[trigger] sub[k]).resource < prev.len() by {
        assert(sub[k] == reqs[m0 + k]);
    }
    assert forall|a: int, b: int| 0 <= a < b < sub.len() implies (#[trigger] sub[a]).resource != (
    #[trigger] sub[b]).resource by {
        assert(sub[a] == reqs[m0 + a] && sub[b] == reqs[m0 + b]);
    }
    lemma_batch_reaches_requested_accesses(prev, sub);
    assert forall|k: int| 0 <= k < m1 implies after[(#[trigger] reqs[k]).resource as int]
        == reqs[k].access.access_type by {
        if k < m0 {
            assert forall|q: int| 0 <= q < sub.len() implies (#[trigger] sub[q]).resource
                != reqs[k].resource by {
                assert(sub[q] == reqs[m0 + q]);
            }
        } else {
            assert(sub[k - m0] == reqs[k]);
        }
    }
    assert forall|x: int| 0 <= x < start.len() && spec_not_requested(reqs.take(m1), x) implies #[trigger] after[x]
        == start[x] by {
        assert forall|q: int| 0 <= q < sub.len() implies (#[trigger] sub[q]).resource != x by {
            assert(sub[q] == reqs.take(m1)[m0 + q]);
        }
        assert forall|q: int| 0 <= q < reqs.take(m0).len() implies (#[trigger] reqs.take(m0)[q]).resource
            != x by {
            assert(reqs.take(m0)[q] == reqs.take(m1)[q]);
        }
    }
}

proof fn lemma_batch_bounds(n: int, j: int)
    requires
        n > 0,
        0 <= j < spec_batch_count(n),
    ensures
        j * 64 <= spec_batches_end(n, j + 1) <= n,
        spec_batch_requests_end(n, j) == spec_batches_end(n, j + 1),
{
    let c = spec_batch_count(n);
    let m1 = spec_batches_end(n, j + 1);
    assert(j * 64 <= m1 <= n) by (nonlinear_arith)
        requires
            c == n / 64 + 1,
            0 <= j < c,
            n > 0,
            m1 == (if j + 1 == c { n } else { (j + 1) * 64 }),
    ;
}

/// Where the requests of batch `i` end.
pub open spec fn spec_batch_requests_end(n: int, i: int) -> int {
    if i == spec_batch_count(n) - 1 {
        n
    } else {
        (i + 1) * (MAX_TRANSITION_PER_BATCH as int)
    }
}

proof fn lemma_batches_prefix(start: Seq<AccessType>, reqs: Seq<TransitionRequest>, i: int)
    requires
        reqs.len() > 0,
        0 <= i <= spec_batch_count(reqs.len() as int),
        forall|k: int| 0 <= k < reqs.len() ==> (#[trigger] reqs[k]).resource < start.len(),
        spec_distinct_resources(reqs),
    ensures
        spec_prefix_reached(
            start,
            reqs,
            spec_batches_end(reqs.len() as int, i),
            spec_accesses_after_batches(start, reqs, i),
        ),
    decreases i,
{
    let n = reqs.len() as int;
    if i == 0 {
        assert(reqs.take(0) =~= Seq::<TransitionRequest>::empty());
    } else {
        let j = i - 1;
        lemma_batches_prefix(start, reqs, j);
        lemma_batch_bounds(n, j);
        let m0 = spec_batches_end(n, j);
        let m1 = spec_batches_end(n, i);
        assert(m0 == j * 64);
        assert(spec_batch_requests(reqs, j) == reqs.subrange(m0, m1));
        lemma_prefix_step(start, reqs, m0, m1, spec_accesses_after_batches(start, reqs, j));
    }
}

/// After transitioning requests that name distinct resources, batch after batch, every
/// requested resource is in the access requested for it, and every other resource keeps its
/// access.
pub proof fn lemma_batched_reaches_requested_accesses(start: Seq<AccessType>, reqs: Seq<TransitionRequest>)
    requires
        forall|k: int| 0 <= k < reqs.len() ==> (#[trigger] reqs[k]).resource < start.len(),
        spec_distinct_resources(reqs),
    ensures
        spec_batched_accesses(start, reqs).len() == start.len(),
        forall|k: int|
            0 <= k < reqs.len() ==> spec_batched_accesses(start, reqs)[(#[trigger] reqs[k]).resource as int]
                == reqs[k].access.access_type,
        forall|i: int|
            0 <= i < start.len() && spec_not_requested(reqs, i) ==> #[trigger] spec_batched_accesses(
                start,
                reqs,
            )[i] == start[i],
{
    if reqs.len() > 0 {
        let c = spec_batch_count(reqs.len() as int);
        lemma_batches_prefix(start, reqs, c);
        assert(reqs.take(reqs.len() as int) =~= reqs);
    }
}

/// Whether no two resources of a pass are the same resource.
pub open spec fn spec_pass_resources_distinct(pass: Pass) -> bool {
    forall|a: int, b: int|
        0 <= a < b < pass.refs().len() ==> (#[trigger] pass.refs()[a]).handle.id != (
        #[trigger] pass.refs()[b]).handle.id
}

/// Once a pass whose resources are distinct is recorded, each of its resources is in the access
/// the pass declared for it, and every other resource keeps its access.
pub proof fn lemma_pass_resources_reach_declared_accesses(accs: Seq<AccessType>, pass: Pass)
    requires
        forall|j: int| 0 <= j < pass.refs().len() ==> (#[trigger] pass.refs()[j]).handle.id < accs.len(),
        spec_pass_resources_distinct(pass),
    ensures
        ({
            let after = spec_batched_accesses(accs, spec_pass_requests(pass));
            &&& after.len() == accs.len()
            &&& forall|j: int|
                0 <= j < pass.refs().len() ==> after[(#[trigger] pass.refs()[j]).handle.id as int]
                    == pass.refs()[j].access.access_type
            &&& forall|i: int|
                0 <= i < accs.len() && (forall|j: int|
                    0 <= j < pass.refs().len() ==> (#[trigger] pass.refs()[j]).handle.id != i)
                    ==> #[trigger] after[i] == accs[i]
        }),
{
    let reqs = spec_pass_requests(pass);
    assert forall|k: int| 0 <= k < reqs.len() implies (#[trigger] reqs[k]).resource < accs.len() by {
        assert(reqs[k] == spec_request_of(pass.refs()[k]));
    }
    assert forall|a: int, b: int| 0 <= a < b < reqs.len() implies (#[trigger] reqs[a]).resource != (
    #[trigger] reqs[b]).resource by {
        assert(pass.refs()[a].handle.id != pass.refs()[b].handle.id);
    }
    lemma_batched_reaches_requested_accesses(accs, reqs);
    let after = spec_batched_accesses(accs, reqs);
    assert forall|j: int| 0 <= j < pass.refs().len() implies after[(#[trigger] pass.refs()[j]).handle.id as int]
        == pass.refs()[j].access.access_type by {
        assert(reqs[j] == spec_request_of(pass.refs()[j]));
    }
    assert forall|i: int|
        0 <= i < accs.len() && (forall|j: int|
            0 <= j < pass.refs().len() ==> (#[trigger] pass.refs()[j]).handle.id != i) implies #[trigger] after[i]
        == accs[i] by {
        assert forall|k: int| 0 <= k < reqs.len() implies (#[trigger] reqs[k]).resource != i by {
            assert(reqs[k] == spec_request_of(pass.refs()[k]));
            assert(pass.refs()[k].handle.id != i);
        }
    }
}

proof fn lemma_batch_accesses_len(start: Seq<AccessType>, reqs: Seq<TransitionRequest>)
    requires
        forall|k: int| 0 <= k < reqs.len() ==> #[trigger] reqs[k].resource < start.len(),
    ensures
        spec_batch_accesses(start, reqs).len() == start.len(),
    decreases reqs.len(),
{
    if reqs.len() > 0 {
        assert(reqs.last() == reqs[reqs.len() - 1]);
        lemma_batch_accesses_len(start, reqs.drop_last());
    }
}

/// Whether `after` is `before` followed by what recording every pass before the present pass
/// of a graph (of these gathered resources, graph resources and passes) gives: up front, one
/// transition for every resource reference of those passes, in pass order and one at a time,
/// each skipped when its resource is already in the referenced access; then each pass, with
/// the barrier of a resource skipped when it is already in the access. The resources end as
/// `final_regs`.
pub open spec fn spec_records_before_present(
    regs: Seq<RegisteredResource>,
    natives: Seq<GraphResource>,
    passes: Seq<Pass>,
    before: Seq<RecordedCommand>,
    after: Seq<RecordedCommand>,
    final_regs: Seq<RegisteredResource>,
) -> bool {
    let first = spec_present_pass(natives, passes);
    let pre = spec_forced_requests(passes.take(first));
    let base = before.len() as int;
    let mid = base + pre.len();
    let accs1 = spec_accesses_after_singles(spec_accesses(regs), pre);
    &&& after.len() >= mid
    &&& after.take(base) == before
    &&& spec_records_singles(regs, spec_accesses(regs), pre, after.subrange(base, mid))
    &&& exists|forced: Seq<Pass>|
        #![trigger spec_records_passes(regs, accs1, forced, after.skip(mid))]
        {
            &&& forced.len() == first
            &&& forall|k: int| 0 <= k < first ==> spec_is_forced(passes[k], #[trigger] forced[k])
            &&& spec_records_passes(regs, accs1, forced, after.skip(mid))
            &&& spec_same_resources_with(regs, final_regs, spec_accesses_after_passes(accs1, forced))
        }
}

impl ExecutingRenderGraph {
    fn set_access(&mut self, idx: usize, access: AccessType)
        requires
            idx < old(self).registered_resources@.len(),
        ensures
            spec_same_resources_with(
                old(self).registered_resources@,
                final(self).registered_resources@,
                spec_accesses(old(self).registered_resources@).update(idx as int, access),
            ),
            final(self).passes == old(self).passes,
            final(self).native_resources == old(self).native_resources,
            final(self).exported_resources == old(self).exported_resources,
            final(self).pipelines == old(self).pipelines,
    {
        self.registered_resources[idx].transition_to(access);
        proof {
            assert(spec_accesses(self.registered_resources@) =~= spec_accesses(
                old(self).registered_resources@,
            ).update(idx as int, access));
        }
    }

    /// The barriers of one batch of requests, `reqs[lo..hi]`; whether a request needs a barrier
    /// is decided from the accesses at the start of the batch, and every request that needs one
    /// moves its resource into the requested access.
    fn resource_transition_batched_impl(
        &mut self,
        reqs: &Vec<TransitionRequest>,
        lo: usize,
        hi: usize,
    ) -> (batch: TransitionBatch)
        requires
            lo <= hi <= reqs@.len(),
            spec_requests_valid(old(self).registered_resources@, reqs@.subrange(lo as int, hi as int)),
        ensures
            batch.image_barriers@ == spec_batch_image_barriers(
                old(self).registered_resources@,
                spec_accesses(old(self).registered_resources@),
                reqs@.subrange(lo as int, hi as int),
            ),
            batch.buffer_barriers@ == spec_batch_buffer_barriers(
                old(self).registered_resources@,
                spec_accesses(old(self).registered_resources@),
                reqs@.subrange(lo as int, hi as int),
            ),
            spec_same_resources_with(
                old(self).registered_resources@,
                final(self).registered_resources@,
                spec_batch_accesses(
                    spec_accesses(old(self).registered_resources@),
                    reqs@.subrange(lo as int, hi as int),
                ),
            ),
            final(self).passes == old(self).passes,
            final(self).native_resources == old(self).native_resources,
            final(self).exported_resources == old(self).exported_resources,
            final(self).pipelines == old(self).pipelines,
    {
        let ghost regs = self.registered_resources@;
        let ghost start = spec_accesses(regs);
        let ghost sub = reqs@.subrange(lo as int, hi as int);
        // decide every transition from the accesses at the start of the batch
        let mut need_transition: Vec<bool> = Vec::new();
        let mut prev_accesses: Vec<AccessType> = Vec::new();
        let mut k: usize = lo;
        while k < hi
            invariant
                lo <= k <= hi,
                hi <= reqs@.len(),
                sub == reqs@.subrange(lo as int, hi as int),
                self.registered_resources@ == regs,
                start == spec_accesses(regs),
                spec_requests_valid(regs, sub),
                need_transition@.len() == k - lo,
                prev_accesses@.len() == k - lo,
                forall|j: int|
                    0 <= j < k - lo ==> #[trigger] need_transition@[j] == spec_needs(start, sub[j]),
                forall|j: int|
                    0 <= j < k - lo ==> #[trigger] prev_accesses@[j] == start[sub[j].resource as int],
            decreases hi - k,
        {
            let req = reqs[k];
            assert(req == sub[k - lo]);
            let current = self.registered_resources[req.resource].get_current_access();
            prev_accesses.push(current);
            need_transition.push(
                !(current == req.access.access_type && req.access.skip_sync_if_same),
            );
            k = k + 1;
        }
        let mut img_barriers: Vec<ImageTransition> = Vec::new();
        let mut buf_barriers: Vec<BufferTransition> = Vec::new();
        let mut k: usize = lo;
        proof {
            assert(sub.take(0) =~= Seq::<TransitionRequest>::empty());
            assert(spec_accesses(self.registered_resources@) == spec_batch_accesses(start, sub.take(0)));
        }
        while k < hi
            invariant
                lo <= k <= hi,
                hi <= reqs@.len(),
                sub == reqs@.subrange(lo as int, hi as int),
                start == spec_accesses(regs),
                spec_requests_valid(regs, sub),
                need_transition@.len() == hi - lo,
                prev_accesses@.len() == hi - lo,
                forall|j: int|
                    0 <= j < hi - lo ==> #[trigger] need_transition@[j] == spec_needs(start, sub[j]),
                forall|j: int|
                    0 <= j < hi - lo ==> #[trigger] prev_accesses@[j] == start[sub[j].resource as int],
                spec_same_resources_with(
                    regs,
                    self.registered_resources@,
                    spec_batch_accesses(start, sub.take(k - lo)),
                ),
                img_barriers@ == spec_batch_image_barriers(regs, start, sub.take(k - lo)),
                buf_barriers@ == spec_batch_buffer_barriers(regs, start, sub.take(k - lo)),
                self.passes == old(self).passes,
                self.native_resources == old(self).native_resources,
                self.exported_resources == old(self).exported_resources,
                self.pipelines == old(self).pipelines,
            decreases hi - k,
        {
            let req = reqs[k];
            let ghost j = k - lo;
            assert(req == sub[j]);
            proof {
                assert(sub.take(j + 1).drop_last() =~= sub.take(j));
                assert(sub.take(j + 1).last() == req);
                assert forall|m: int| 0 <= m < sub.take(j).len() implies #[trigger] sub.take(j)[m].resource < start.len() by {
                    assert(sub.take(j)[m] == sub[m]);
                }
                lemma_batch_accesses_len(start, sub.take(j));
            }
            if need_transition[k - lo] {
                match &self.registered_resources[req.resource].resource {
                    GraphPreparedResource::CreatedImage(image) => {
                        img_barriers.push(
                            ImageTransition {
                                resource: req.resource,
                                prev_access: prev_accesses[k - lo],
                                next_access: req.access.access_type,
                                aspect_mask: aspect_flag_from_image_format(image.desc.format),
                                discard_contents: false,
                            },
                        );
                    },
                    GraphPreparedResource::ImportedImage(image) => {
                        img_barriers.push(
                            ImageTransition {
                                resource: req.resource,
                                prev_access: prev_accesses[k - lo],
                                next_access: req.access.access_type,
                                aspect_mask: aspect_flag_from_image_format(image.desc.format),
                                discard_contents: false,
                            },
                        );
                    },
                    GraphPreparedResource::CreatedBuffer(_) | GraphPreparedResource::ImportedBuffer(_) => {
                        buf_barriers.push(
                            BufferTransition {
                                resource: req.resource,
                                prev_access: prev_accesses[k - lo],
                                next_access: req.access.access_type,
                            },
                        );
                    },
                    _ => {},
                }
                self.set_access(req.resource, req.access.access_type);
            }
            k = k + 1;
        }
        proof {
            assert(sub.take(hi - lo) =~= sub);
        }
        TransitionBatch { image_barriers: img_barriers, buffer_barriers: buf_barriers }
    }

    /// The barriers that move the requested resources into the requested accesses, in batches of
    /// at most `MAX_TRANSITION_PER_BATCH`; within a batch, whether a request needs a barrier is
    /// decided from the accesses at the start of the batch.
    pub fn resource_transition_batched(&mut self, resources: Vec<TransitionRequest>) -> (batches: Vec<
        TransitionBatch,
    >)
        requires
            spec_requests_valid(old(self).registered_resources@, resources@),
        ensures
            resources@.len() == 0 ==> batches@.len() == 0,
            resources@.len() > 0 ==> batches@.len() == spec_batch_count(resources@.len() as int),
            forall|i: int|
                0 <= i < batches@.len() ==> spec_is_batch(
                    old(self).registered_resources@,
                    spec_accesses(old(self).registered_resources@),
                    resources@,
                    i,
                    #[trigger] batches@[i],
                ),
            spec_same_resources_with(
                old(self).registered_resources@,
                final(self).registered_resources@,
                spec_batched_accesses(spec_accesses(old(self).registered_resources@), resources@),
            ),
            final(self).passes == old(self).passes,
            final(self).native_resources == old(self).native_resources,
            final(self).exported_resources == old(self).exported_resources,
            final(self).pipelines == old(self).pipelines,
    {
        let ghost regs = self.registered_resources@;
        let ghost start = spec_accesses(regs);
        let mut batches: Vec<TransitionBatch> = Vec::new();
        let resource_count = resources.len();
        if resource_count == 0 {
            proof {
                assert(spec_accesses(self.registered_resources@) =~= start);
            }
            return batches;
        }
        let batch_count = (resource_count / MAX_TRANSITION_PER_BATCH) + 1;
        let mut i: usize = 0;
        while i < batch_count
            invariant
                resource_count == resources@.len(),
                resource_count > 0,
                batch_count == spec_batch_count(resource_count as int),
                i <= batch_count,
                start == spec_accesses(regs),
                spec_requests_valid(regs, resources@),
                batches@.len() == i,
                forall|j: int|
                    0 <= j < i ==> spec_is_batch(regs, start, resources@, j, #[trigger] batches@[j]),
                spec_same_resources_with(
                    regs,
                    self.registered_resources@,
                    spec_accesses_after_batches(start, resources@, i as int),
                ),
                self.passes == old(self).passes,
                self.native_resources == old(self).native_resources,
                self.exported_resources == old(self).exported_resources,
                self.pipelines == old(self).pipelines,
            decreases batch_count - i,
        {
            let lower_bound = i * MAX_TRANSITION_PER_BATCH;
            let upper_bound = if i == batch_count - 1 {
                resource_count
            } else {
                (i + 1) * MAX_TRANSITION_PER_BATCH
            };
            let ghost cur = self.registered_resources@;
            proof {
                assert(lower_bound <= upper_bound <= resource_count) by (nonlinear_arith)
                    requires
                        lower_bound == i * 64,
                        i < batch_count,
                        batch_count == resource_count / 64 + 1,
                        i == batch_count - 1 ==> upper_bound == resource_count,
                        i != batch_count - 1 ==> upper_bound == (i + 1) * 64,
                ;
                assert(resources@.subrange(lower_bound as int, upper_bound as int) == spec_batch_requests(
                    resources@,
                    i as int,
                ));
                let sub = resources@.subrange(lower_bound as int, upper_bound as int);
                assert forall|k: int| 0 <= k < sub.len() implies {
                    let r = #[trigger] sub[k];
                    &&& r.resource < cur.len()
                    &&& !(cur[r.resource as int].resource is Delayed)
                } by {
                    assert(sub[k] == resources@[lower_bound + k]);
                }
            }
            let batch = self.resource_transition_batched_impl(&resources, lower_bound, upper_bound);
            proof {
                assert(spec_accesses(cur) == spec_accesses_after_batches(start, resources@, i as int));
                assert forall|j: int| 0 <= j < cur.len() implies #[trigger] cur[j].resource == regs[j].resource by {}
                lemma_image_barriers_depend_on_resources(cur, regs, spec_accesses(cur), spec_batch_requests(resources@, i as int));
                lemma_buffer_barriers_depend_on_resources(cur, regs, spec_accesses(cur), spec_batch_requests(resources@, i as int));
            }
            batches.push(batch);
            i = i + 1;
        }
        batches
    }

    /// Records the barriers that move the requested resources into the requested accesses.
    fn record_transitions(&mut self, reqs: Vec<TransitionRequest>, cmds: &mut Vec<RecordedCommand>)
        requires
            spec_requests_valid(old(self).registered_resources@, reqs@),
        ensures
            final(cmds)@.len() >= old(cmds)@.len(),
            final(cmds)@.take(old(cmds)@.len() as int) == old(cmds)@,
            spec_is_transition_run(
                old(self).registered_resources@,
                spec_accesses(old(self).registered_resources@),
                reqs@,
                final(cmds)@.skip(old(cmds)@.len() as int),
            ),
            spec_same_resources_with(
                old(self).registered_resources@,
                final(self).registered_resources@,
                spec_batched_accesses(spec_accesses(old(self).registered_resources@), reqs@),
            ),
            final(self).passes == old(self).passes,
            final(self).native_resources == old(self).native_resources,
            final(self).exported_resources == old(self).exported_resources,
            final(self).pipelines == old(self).pipelines,
    {
        let ghost r = reqs@;
        let ghost regs = self.registered_resources@;
        let ghost start = spec_accesses(regs);
        let ghost old_cmds = cmds@;
        let mut batches = self.resource_transition_batched(reqs);
        let ghost all = batches@;
        let n = batches.len();
        let mut k: usize = 0;
        while k < n
            invariant
                n == all.len(),
                k <= n,
                batches@ == all.skip(k as int),
                cmds@.len() == old_cmds.len() + k,
                cmds@.take(old_cmds.len() as int) == old_cmds,
                forall|i: int|
                    0 <= i < k ==> #[trigger] cmds@[old_cmds.len() + i] == RecordedCommand::Transition(
                        all[i],
                    ),
            decreases n - k,
        {
            let b = batches.remove(0);
            proof {
                assert(all.skip(k as int)[0] == all[k as int]);
                assert(all.skip(k as int).skip(1) =~= all.skip(k + 1));
            }
            cmds.push(RecordedCommand::Transition(b));
            k = k + 1;
        }
        proof {
            let tail = cmds@.skip(old_cmds.len() as int);
            assert forall|i: int| 0 <= i < tail.len() implies match #[trigger] tail[i] {
                RecordedCommand::Transition(b) => spec_is_batch(regs, start, r, i, b),
                RecordedCommand::RunPass(_) => false,
            } by {
                assert(tail[i] == cmds@[old_cmds.len() + i]);
            }
        }
    }

    /// Records a pass: the barriers that move its resources, inputs first, into the accesses it
    /// declared, then the pass itself.
    fn record_pass_commands(&mut self, pass: Pass, cmds: &mut Vec<RecordedCommand>)
        requires
            spec_pass_valid(old(self).registered_resources@, pass),
        ensures
            final(cmds)@.len() >= old(cmds)@.len() + 1,
            final(cmds)@.take(old(cmds)@.len() as int) == old(cmds)@,
            spec_is_transition_run(
                old(self).registered_resources@,
                spec_accesses(old(self).registered_resources@),
                spec_pass_requests(pass),
                final(cmds)@.subrange(old(cmds)@.len() as int, final(cmds)@.len() - 1),
            ),
            final(cmds)@.last() == RecordedCommand::RunPass(pass),
            spec_same_resources_with(
                old(self).registered_resources@,
                final(self).registered_resources@,
                spec_batched_accesses(
                    spec_accesses(old(self).registered_resources@),
                    spec_pass_requests(pass),
                ),
            ),
            final(self).passes == old(self).passes,
            final(self).native_resources == old(self).native_resources,
            final(self).exported_resources == old(self).exported_resources,
            final(self).pipelines == old(self).pipelines,
    {
        let reqs = pass_requests(&pass);
        proof {
            let regs = self.registered_resources@;
            assert forall|k: int| 0 <= k < reqs@.len() implies {
                let r = #[trigger] reqs@[k];
                &&& r.resource < regs.len()
                &&& !(regs[r.resource as int].resource is Delayed)
            } by {
                assert(spec_ref_valid(regs, pass.refs()[k]));
            }
        }
        let ghost before = cmds@;
        self.record_transitions(reqs, cmds);
        let ghost mid = cmds@;
        cmds.push(RecordedCommand::RunPass(pass));
        proof {
            assert(cmds@.take(before.len() as int) =~= before);
            assert(cmds@.subrange(before.len() as int, cmds@.len() - 1) =~= mid.skip(
                before.len() as int,
            ));
        }
    }

    /// Records every pass before the present pass. Up front, every resource reference of those
    /// passes is transitioned, in pass order and one at a time, each transition skipped when the
    /// resource is already in the referenced access; from then on the barrier of every one of
    /// their resources is skipped when it is already in the access. The present pass and those
    /// after it stay in the graph.
    pub fn record_commands(&mut self, cmds: &mut Vec<RecordedCommand>)
        requires
            spec_outputs_in(old(self).native_resources@, old(self).passes@),
            exists|k: int|
                0 <= k < old(self).passes@.len() && spec_writes_swapchain(
                    old(self).native_resources@,
                    #[trigger] old(self).passes@[k],
                ),
            forall|k: int|
                0 <= k < spec_present_pass(old(self).native_resources@, old(self).passes@)
                    ==> spec_pass_valid(old(self).registered_resources@, #[trigger] old(self).passes@[k]),
        ensures
            spec_records_before_present(
                old(self).registered_resources@,
                old(self).native_resources@,
                old(self).passes@,
                old(cmds)@,
                final(cmds)@,
                final(self).registered_resources@,
            ),
            final(self).passes@ == old(self).passes@.skip(
                spec_present_pass(old(self).native_resources@, old(self).passes@),
            ),
            final(self).native_resources == old(self).native_resources,
            final(self).exported_resources == old(self).exported_resources,
            final(self).pipelines == old(self).pipelines,
    {
        let ghost regs = self.registered_resources@;
        let ghost accs0 = spec_accesses(regs);
        let ghost orig = self.passes@;
        let ghost base = cmds@.len() as int;
        let first = self.find_first_present_pass();
        let mut passes: Vec<Pass> = Vec::new();
        std::mem::swap(&mut passes, &mut self.passes);
        let rest = passes.split_off(first);
        proof {
            assert(passes@ =~= orig.take(first as int));
        }
        let (forced, pre) = force_passes(passes);
        let ghost forced_all = forced@;
        proof {
            assert forall|j: int| 0 <= j < pre@.len() implies #[trigger] pre@[j].resource < regs.len()
                && !(regs[pre@[j].resource as int].resource is Delayed) by {
                lemma_forced_requests_valid(regs, orig.take(first as int), j);
            }
        }
        self.record_singles(&pre, cmds);
        let ghost mid = cmds@.len() as int;
        let ghost accs1 = spec_accesses_after_singles(accs0, pre@);
        let ghost mid_regs = self.registered_resources@;
        proof {
            assert forall|i: int| 0 <= i < forced_all.len() implies spec_pass_valid(
                mid_regs,
                #[trigger] forced_all[i],
            ) by {
                assert(spec_pass_valid(regs, orig[i]));
                lemma_forced_pass_valid(regs, orig[i], forced_all[i]);
                assert forall|j: int| 0 <= j < forced_all[i].refs().len() implies spec_ref_valid(
                    mid_regs,
                    #[trigger] forced_all[i].refs()[j],
                ) by {
                    assert(spec_ref_valid(regs, forced_all[i].refs()[j]));
                }
            }
        }
        self.record_passes(forced, cmds);
        proof {
            lemma_records_passes_depend_on_resources(mid_regs, regs, accs1, forced_all, cmds@.skip(mid));
            assert(orig.subrange(first as int, orig.len() as int) =~= orig.skip(first as int));
            assert(cmds@.take(base) =~= old(cmds)@);
            assert(cmds@.subrange(base, mid) =~= cmds@.take(mid).skip(base));
            assert(spec_records_passes(regs, accs1, forced_all, cmds@.skip(mid)));
        }
        self.passes = rest;
    }

    /// Records the barriers that transition the requests one at a time, in order.
    fn record_singles(&mut self, pre: &Vec<TransitionRequest>, cmds: &mut Vec<RecordedCommand>)
        requires
            forall|j: int|
                0 <= j < pre@.len() ==> #[trigger] pre@[j].resource < old(self).registered_resources@.len()
                    && !(old(self).registered_resources@[pre@[j].resource as int].resource is Delayed),
        ensures
            final(cmds)@.len() == old(cmds)@.len() + pre@.len(),
            final(cmds)@.take(old(cmds)@.len() as int) == old(cmds)@,
            spec_records_singles(
                old(self).registered_resources@,
                spec_accesses(old(self).registered_resources@),
                pre@,
                final(cmds)@.skip(old(cmds)@.len() as int),
            ),
            spec_same_resources_with(
                old(self).registered_resources@,
                final(self).registered_resources@,
                spec_accesses_after_singles(spec_accesses(old(self).registered_resources@), pre@),
            ),
            final(self).passes == old(self).passes,
            final(self).native_resources == old(self).native_resources,
            final(self).exported_resources == old(self).exported_resources,
            final(self).pipelines == old(self).pipelines,
    {
        let ghost regs = self.registered_resources@;
        let ghost accs0 = spec_accesses(regs);
        let ghost base = cmds@.len() as int;
        let ghost pre_all = pre@;
        let mut k: usize = 0;
        proof {
            assert(pre_all.take(0) =~= Seq::<TransitionRequest>::empty());
            assert(cmds@.skip(base) =~= Seq::<RecordedCommand>::empty());
            assert(cmds@.take(base) =~= cmds@);
            assert(spec_accesses(self.registered_resources@) =~= accs0);
        }
        while k < pre.len()
            invariant
                pre@ == pre_all,
                k <= pre_all.len(),
                forall|j: int|
                    0 <= j < pre_all.len() ==> #[trigger] pre_all[j].resource < regs.len()
                        && !(regs[pre_all[j].resource as int].resource is Delayed),
                accs0 == spec_accesses(regs),
                base == old(cmds)@.len(),
                cmds@.len() == base + k,
                cmds@.take(base) == old(cmds)@,
                spec_records_singles(regs, accs0, pre_all.take(k as int), cmds@.skip(base)),
                spec_same_resources_with(
                    regs,
                    self.registered_resources@,
                    spec_accesses_after_singles(accs0, pre_all.take(k as int)),
                ),
                self.passes == old(self).passes,
                self.native_resources == old(self).native_resources,
                self.exported_resources == old(self).exported_resources,
                self.pipelines == old(self).pipelines,
            decreases pre_all.len() - k,
        {
            let mut one: Vec<TransitionRequest> = Vec::new();
            one.push(pre[k]);
            let ghost one_v = one@;
            let ghost cur = self.registered_resources@;
            let ghost before = cmds@;
            proof {
                assert(one_v =~= seq![pre_all[k as int]]);
                assert(spec_num_batches(1) == 1);
            }
            self.record_transitions(one, cmds);
            proof {
                let c = cmds@.last();
                assert(cmds@.len() == before.len() + 1);
                assert(cmds@.skip(before.len() as int) =~= seq![c]);
                lemma_transition_run_depends_on_resources(cur, regs, spec_accesses(cur), one_v, seq![c]);
                let t = pre_all.take(k + 1);
                assert(t.drop_last() =~= pre_all.take(k as int));
                assert(t.last() == pre_all[k as int]);
                assert forall|i: int| 0 <= i < before.len() implies #[trigger] cmds@[i] == before[i] by {
                    assert(cmds@.take(before.len() as int)[i] == cmds@[i]);
                }
                assert(before.len() == base + k);
                assert(cmds@.len() == base + k + 1);
                assert(cmds@.skip(base).drop_last() =~= before.skip(base));
                assert(cmds@.skip(base).last() == c);
                assert(cmds@.take(base) =~= before.take(base));
            }
            k = k + 1;
        }
        proof {
            assert(pre_all.take(pre_all.len() as int) =~= pre_all);
        }
    }

    /// Records the passes in order.
    fn record_passes(&mut self, passes: Vec<Pass>, cmds: &mut Vec<RecordedCommand>)
        requires
            forall|i: int|
                0 <= i < passes@.len() ==> spec_pass_valid(old(self).registered_resources@, #[trigger] passes@[i]),
        ensures
            final(cmds)@.len() >= old(cmds)@.len(),
            final(cmds)@.take(old(cmds)@.len() as int) == old(cmds)@,
            spec_records_passes(
                old(self).registered_resources@,
                spec_accesses(old(self).registered_resources@),
                passes@,
                final(cmds)@.skip(old(cmds)@.len() as int),
            ),
            spec_same_resources_with(
                old(self).registered_resources@,
                final(self).registered_resources@,
                spec_accesses_after_passes(spec_accesses(old(self).registered_resources@), passes@),
            ),
            final(self).passes == old(self).passes,
            final(self).native_resources == old(self).native_resources,
            final(self).exported_resources == old(self).exported_resources,
            final(self).pipelines == old(self).pipelines,
    {
        let ghost regs = self.registered_resources@;
        let ghost accs0 = spec_accesses(regs);
        let ghost base = cmds@.len() as int;
        let ghost all = passes@;
        let n = passes.len();
        let mut passes = passes;
        let mut k: usize = 0;
        proof {
            assert(all.take(0) =~= Seq::<Pass>::empty());
            assert(cmds@.skip(base) =~= Seq::<RecordedCommand>::empty());
            assert(cmds@.take(base) =~= cmds@);
            assert(passes@ =~= all.skip(0));
            assert(spec_accesses(self.registered_resources@) =~= accs0);
        }
        while k < n
            invariant
                n == all.len(),
                k <= n,
                passes@ == all.skip(k as int),
                forall|i: int| 0 <= i < n ==> spec_pass_valid(regs, #[trigger] all[i]),
                accs0 == spec_accesses(regs),
                base == old(cmds)@.len(),
                cmds@.len() >= base,
                cmds@.take(base) == old(cmds)@,
                spec_records_passes(regs, accs0, all.take(k as int), cmds@.skip(base)),
                spec_same_resources_with(
                    regs,
                    self.registered_resources@,
                    spec_accesses_after_passes(accs0, all.take(k as int)),
                ),
                self.passes == old(self).passes,
                self.native_resources == old(self).native_resources,
                self.exported_resources == old(self).exported_resources,
                self.pipelines == old(self).pipelines,
            decreases n - k,
        {
            let p = passes.remove(0);
            assert(p == all[k as int]);
            proof {
                assert(all.skip(k as int).remove(0) =~= all.skip(k + 1));
            }
            let ghost cur = self.registered_resources@;
            let ghost before = cmds@;
            proof {
                assert forall|j: int| 0 <= j < p.refs().len() implies spec_ref_valid(cur, #[trigger] p.refs()[j]) by {
                    assert(spec_ref_valid(regs, p.refs()[j]));
                }
            }
            self.record_pass_commands(p, cmds);
            proof {
                let reqs = spec_pass_requests(p);
                let nb = spec_num_batches(reqs.len() as int);
                let after = cmds@.skip(base);
                let t = all.take(k + 1);
                assert(t.drop_last() =~= all.take(k as int));
                assert(t.last() == p);
                assert forall|i: int| 0 <= i < before.len() implies #[trigger] cmds@[i] == before[i] by {
                    assert(cmds@.take(before.len() as int)[i] == cmds@[i]);
                }
                assert(after.take(after.len() - nb - 1) =~= before.skip(base));
                assert(after.subrange(after.len() - nb - 1, after.len() - 1) =~= cmds@.subrange(
                    before.len() as int,
                    cmds@.len() - 1,
                ));
                assert(after.last() == cmds@.last());
                assert forall|j: int| 0 <= j < reqs.len() implies #[trigger] reqs[j].resource < cur.len() by {
                    assert(spec_ref_valid(regs, p.refs()[j]));
                }
                lemma_transition_run_depends_on_resources(
                    cur,
                    regs,
                    spec_accesses(cur),
                    reqs,
                    cmds@.subrange(before.len() as int, cmds@.len() - 1),
                );
                assert(cmds@.take(base) =~= before.take(base));
            }
            k = k + 1;
        }
        proof {
            assert(all.take(n as int) =~= all);
        }
    }

    /// Records the end of the frame: the barriers that move every exported resource into the
    /// access it was exported with (none for `AccessType::Nothing`), then, with the swapchain
    /// image in place of the delayed resource, the passes left in the graph. The graph retires
    /// with its resources in the accesses the frame left them in.
    pub fn record_present_commands(
        self,
        cmds: &mut Vec<RecordedCommand>,
        swapchain_image: Arc<Image>,
    ) -> (retired: RetiredRenderGraph)
        requires
            spec_requests_valid(self.registered_resources@, spec_export_requests(self.exported_resources@)),
            forall|i: int|
                0 <= i < self.registered_resources@.len() && (#[trigger] self.registered_resources@[i]).resource is Delayed
                    ==> self.registered_resources@[i].resource matches GraphPreparedResource::Delayed(
                    GraphResource::Imported(GraphResourceImportedData::SwapchainImage),
                ),
            forall|k: int, j: int|
                0 <= k < self.passes@.len() && 0 <= j < self.passes@[k].refs().len() ==> (
                #[trigger] self.passes@[k].refs()[j]).handle.id < self.registered_resources@.len(),
        ensures
            ({
                let regs = self.registered_resources@;
                let exp = spec_export_requests(self.exported_resources@);
                let base = old(cmds)@.len() as int;
                let mid = base + spec_num_batches(exp.len() as int);
                let accs1 = spec_batched_accesses(spec_accesses(regs), exp);
                let filled = retired.registered_resources@;
                &&& final(cmds)@.len() >= mid
                &&& final(cmds)@.take(base) == old(cmds)@
                &&& spec_is_transition_run(regs, spec_accesses(regs), exp, final(cmds)@.subrange(base, mid))
                &&& filled.len() == regs.len()
                &&& forall|i: int|
                    0 <= i < regs.len() ==> (#[trigger] filled[i]).resource == spec_filled(
                        regs[i].resource,
                        swapchain_image,
                    )
                &&& spec_records_passes(filled, accs1, self.passes@, final(cmds)@.skip(mid))
                &&& spec_accesses(filled) == spec_accesses_after_passes(accs1, self.passes@)
            }),
    {
        let ghost regs = self.registered_resources@;
        let ghost base = cmds@.len() as int;
        let mut this = self;
        let reqs = export_requests(&this.exported_resources);
        this.record_transitions(reqs, cmds);
        let ghost mid = cmds@.len() as int;
        let ghost after_export = this.registered_resources@;

        // the swapchain image exists now: put it in place of the delayed resource
        let n = this.registered_resources.len();
        let mut i: usize = 0;
        while i < n
            invariant
                n == after_export.len(),
                i <= n,
                this.registered_resources@.len() == n,
                forall|j: int|
                    0 <= j < n && (#[trigger] after_export[j]).resource is Delayed ==> after_export[j].resource matches GraphPreparedResource::Delayed(
                        GraphResource::Imported(GraphResourceImportedData::SwapchainImage),
                    ),
                forall|j: int|
                    0 <= j < i ==> (#[trigger] this.registered_resources@[j]).resource == spec_filled(
                        after_export[j].resource,
                        swapchain_image,
                    ) && this.registered_resources@[j].access == after_export[j].access,
                forall|j: int| i <= j < n ==> #[trigger] this.registered_resources@[j] == after_export[j],
                this.passes == self.passes,
            decreases n - i,
        {
            let is_delayed = match &this.registered_resources[i].resource {
                GraphPreparedResource::Delayed(_) => true,
                _ => false,
            };
            if is_delayed {
                let access = this.registered_resources[i].access;
                this.registered_resources.set(
                    i,
                    RegisteredResource {
                        resource: GraphPreparedResource::ImportedImage(arc_clone(&swapchain_image)),
                        access,
                    },
                );
            }
            i = i + 1;
        }
        let ghost filled = this.registered_resources@;
        proof {
            assert(spec_accesses(filled) =~= spec_accesses(after_export));
            assert forall|k: int| 0 <= k < this.passes@.len() implies spec_pass_valid(filled, #[trigger] this.passes@[k]) by {
                assert forall|j: int| 0 <= j < this.passes@[k].refs().len() implies spec_ref_valid(
                    filled,
                    #[trigger] this.passes@[k].refs()[j],
                ) by {
                    assert(this.passes@[k].refs()[j].handle.id < regs.len());
                }
            }
        }
        let mut passes: Vec<Pass> = Vec::new();
        std::mem::swap(&mut passes, &mut this.passes);
        this.record_passes(passes, cmds);
        proof {
            assert(cmds@.take(mid).take(base) =~= cmds@.take(base));
            assert(cmds@.subrange(base, mid) =~= cmds@.take(mid).skip(base));
            lemma_records_passes_depend_on_resources(
                filled,
                this.registered_resources@,
                spec_accesses(filled),
                self.passes@,
                cmds@.skip(mid),
            );
        }
        RetiredRenderGraph { registered_resources: this.registered_resources }
    }

    /// The pass that presents: the last pass that writes the swapchain image. Recording splits
    /// there, since that pass and the ones after it need the acquired image; a graph that writes
    /// the swapchain image in several passes waits for it from the last of them on.
    fn find_first_present_pass(&self) -> (r: usize)
        requires
            spec_outputs_in(self.native_resources@, self.passes@),
            exists|k: int|
                0 <= k < self.passes@.len() && spec_writes_swapchain(
                    self.native_resources@,
                    #[trigger] self.passes@[k],
                ),
        ensures
            spec_is_present_pass(self.native_resources@, self.passes@, r as int),
            r as int == spec_present_pass(self.native_resources@, self.passes@),
    {
        let ghost natives = self.native_resources@;
        let ghost passes = self.passes@;
        let n = self.passes.len();
        let mut first_present_pass = n;
        let mut idx: usize = 0;
        while idx < n
            invariant
                n == passes.len(),
                natives == self.native_resources@,
                passes == self.passes@,
                spec_outputs_in(natives, passes),
                idx <= n,
                first_present_pass == n || first_present_pass < idx,
                first_present_pass < n ==> spec_writes_swapchain(natives, passes[first_present_pass as int]),
                forall|k: int|
                    (if first_present_pass == n { 0 } else { first_present_pass + 1 }) <= k < idx
                        ==> !spec_writes_swapchain(natives, #[trigger] passes[k]),
            decreases n - idx,
        {
            let pass = &self.passes[idx];
            let m = pass.outputs.len();
            let mut j: usize = 0;
            let mut found = false;
            while j < m
                invariant_except_break
                    !found,
                    forall|jj: int|
                        0 <= jj < j ==> !(natives[(#[trigger] pass.outputs@[jj]).handle.id as int] matches GraphResource::Imported(
                            GraphResourceImportedData::SwapchainImage,
                        )),
                invariant
                    m == pass.outputs@.len(),
                    *pass == passes[idx as int],
                    natives == self.native_resources@,
                    spec_outputs_in(natives, passes),
                    idx < n,
                    n == passes.len(),
                    j <= m,
                ensures
                    found ==> spec_writes_swapchain(natives, *pass),
                    !found ==> !spec_writes_swapchain(natives, *pass),
                decreases m - j,
            {
                let id = pass.outputs[j].handle.id;
                assert(pass.outputs@[j as int] == passes[idx as int].outputs@[j as int]);
                let res = &self.native_resources[id as usize];
                if let GraphResource::Imported(GraphResourceImportedData::SwapchainImage) = res {
                    found = true;
                    assert(spec_writes_swapchain(natives, *pass)) by {
                        assert(natives[pass.outputs@[j as int].handle.id as int] matches GraphResource::Imported(
                            GraphResourceImportedData::SwapchainImage,
                        ));
                    }
                    break;
                }
                j = j + 1;
            }
            if found {
                first_present_pass = idx;
            }
            idx = idx + 1;
        }
        proof {
            if first_present_pass == n {
                let k = choose|k: int|
                    0 <= k < passes.len() && spec_writes_swapchain(natives, #[trigger] passes[k]);
                assert(!spec_writes_swapchain(natives, passes[k]));
            }
        }
        assert(first_present_pass != n);
        proof {
            lemma_present_pass_unique(natives, passes, first_present_pass as int);
        }
        first_present_pass
    }
}

/// The requests that move every exported resource into the access it was exported with.
fn export_requests(exps: &Vec<(ExportableGraphResource, AccessType)>) -> (reqs: Vec<TransitionRequest>)
    ensures
        reqs@ == spec_export_requests(exps@),
{
    let mut reqs: Vec<TransitionRequest> = Vec::new();
    let mut k: usize = 0;
    while k < exps.len()
        invariant
            k <= exps@.len(),
            reqs@ == spec_export_requests(exps@.take(k as int)),
        decreases exps@.len() - k,
    {
        let (res, access) = &exps[k];
        if *access != AccessType::Nothing {
            reqs.push(
                TransitionRequest {
                    resource: res.handle().id as usize,
                    access: PassResourceAccessType { access_type: *access, skip_sync_if_same: false },
                },
            );
        }
        proof {
            assert(exps@.take(k + 1).drop_last() =~= exps@.take(k as int));
            assert(exps@.take(k + 1).last() == exps@[k as int]);
        }
        k = k + 1;
    }
    proof {
        assert(exps@.take(exps@.len() as int) =~= exps@);
    }
    reqs
}

/// The passes, each with the barrier of every resource skipped when it is already in the
/// access, and their requests in order.
fn force_passes(passes: Vec<Pass>) -> (res: (Vec<Pass>, Vec<TransitionRequest>))
    ensures
        res.0@.len() == passes@.len(),
        forall|i: int| 0 <= i < passes@.len() ==> spec_is_forced(passes@[i], #[trigger] res.0@[i]),
        res.1@ == spec_forced_requests(passes@),
{
    let ghost orig = passes@;
    let n = passes.len();
    let mut passes = passes;
    let mut forced: Vec<Pass> = Vec::new();
    let mut pre: Vec<TransitionRequest> = Vec::new();
    let mut k: usize = 0;
    proof {
        assert(orig.take(0) =~= Seq::<Pass>::empty());
        assert(passes@ =~= orig.skip(0));
    }
    while k < n
        invariant
            n == orig.len(),
            k <= n,
            passes@ == orig.skip(k as int),
            forced@.len() == k,
            forall|i: int| 0 <= i < k ==> spec_is_forced(orig[i], #[trigger] forced@[i]),
            pre@ == spec_forced_requests(orig.take(k as int)),
        decreases n - k,
    {
        let p = passes.remove(0);
        assert(p == orig[k as int]);
        let q = force_pass(p);
        let mut reqs = pass_requests(&q);
        pre.append(&mut reqs);
        forced.push(q);
        proof {
            assert(orig.take(k + 1).drop_last() =~= orig.take(k as int));
            assert(orig.take(k + 1).last() == orig[k as int]);
            assert(orig.skip(k as int).remove(0) =~= orig.skip(k + 1));
        }
        k = k + 1;
    }
    proof {
        assert(orig.take(n as int) =~= orig);
    }
    (forced, pre)
}

/// The resources of a pass, each with its barrier skipped when it is already in the access.
fn force_refs(refs: &Vec<PassResourceHandle>) -> (out: Vec<PassResourceHandle>)
    ensures
        out@ == refs@.map_values(|r: PassResourceHandle| spec_forced_ref(r)),
{
    let mut out: Vec<PassResourceHandle> = Vec::new();
    let mut k: usize = 0;
    while k < refs.len()
        invariant
            k <= refs@.len(),
            out@ == refs@.take(k as int).map_values(|r: PassResourceHandle| spec_forced_ref(r)),
        decreases refs@.len() - k,
    {
        let r = refs[k];
        out.push(
            PassResourceHandle {
                handle: r.handle,
                access: PassResourceAccessType {
                    access_type: r.access.access_type,
                    skip_sync_if_same: true,
                },
            },
        );
        proof {
            assert(refs@.take(k + 1) =~= refs@.take(k as int).push(r));
        }
        k = k + 1;
        proof {
            assert(out@ =~= refs@.take(k as int).map_values(|r: PassResourceHandle| spec_forced_ref(r)));
        }
    }
    proof {
        assert(refs@.take(refs@.len() as int) =~= refs@);
    }
    out
}

/// The pass with the barrier of every resource skipped when it is already in the access.
fn force_pass(p: Pass) -> (q: Pass)
    ensures
        spec_is_forced(p, q),
        spec_pass_requests(q) == spec_forced_pass_requests(p),
{
    let inputs = force_refs(&p.inputs);
    let outputs = force_refs(&p.outputs);
    let q = Pass { id: p.id, name: p.name, inputs, outputs };
    proof {
        assert(spec_pass_requests(q) =~= spec_forced_pass_requests(p));
    }
    q
}

/// The transition requests of a pass: its inputs, then its outputs.
fn pass_requests(pass: &Pass) -> (reqs: Vec<TransitionRequest>)
    ensures
        reqs@ == spec_pass_requests(*pass),
{
    let mut reqs: Vec<TransitionRequest> = Vec::new();
    let mut k: usize = 0;
    while k < pass.inputs.len()
        invariant
            k <= pass.inputs@.len(),
            reqs@ == pass.inputs@.take(k as int).map_values(|r: PassResourceHandle| spec_request_of(r)),
        decreases pass.inputs@.len() - k,
    {
        let r = pass.inputs[k];
        reqs.push(TransitionRequest { resource: r.handle.id as usize, access: r.access });
        proof {
            assert(pass.inputs@.take(k + 1) =~= pass.inputs@.take(k as int).push(r));
        }
        k = k + 1;
        proof {
            assert(reqs@ =~= pass.inputs@.take(k as int).map_values(|r: PassResourceHandle| spec_request_of(r)));
        }
    }
    let mut k: usize = 0;
    proof {
        assert(pass.inputs@.take(pass.inputs@.len() as int) =~= pass.inputs@);
        assert(pass.inputs@ + pass.outputs@.take(0) =~= pass.inputs@);
    }
    while k < pass.outputs.len()
        invariant
            k <= pass.outputs@.len(),
            reqs@ == (pass.inputs@ + pass.outputs@.take(k as int)).map_values(
                |r: PassResourceHandle| spec_request_of(r),
            ),
        decreases pass.outputs@.len() - k,
    {
        let r = pass.outputs[k];
        reqs.push(TransitionRequest { resource: r.handle.id as usize, access: r.access });
        proof {
            assert(pass.inputs@ + pass.outputs@.take(k + 1) =~= (pass.inputs@ + pass.outputs@.take(
                k as int,
            )).push(r));
        }
        k = k + 1;
        proof {
            assert(reqs@ =~= (pass.inputs@ + pass.outputs@.take(k as int)).map_values(
                |r: PassResourceHandle| spec_request_of(r),
            ));
        }
    }
    proof {
        assert(pass.outputs@.take(pass.outputs@.len() as int) =~= pass.outputs@);
    }
    reqs
}

proof fn lemma_image_barriers_depend_on_resources(
    a: Seq<RegisteredResource>,
    b: Seq<RegisteredResource>,
    accs: Seq<AccessType>,
    reqs: Seq<TransitionRequest>,
)
    requires
        a.len() == b.len(),
        forall|i: int| 0 <= i < a.len() ==> #[trigger] a[i].resource == b[i].resource,
        forall|k: int| 0 <= k < reqs.len() ==> #[trigger] reqs[k].resource < a.len(),
    ensures
        spec_batch_image_barriers(a, accs, reqs) == spec_batch_image_barriers(b, accs, reqs),
    decreases reqs.len(),
{
    if reqs.len() > 0 {
        lemma_image_barriers_depend_on_resources(a, b, accs, reqs.drop_last());
        assert(reqs.last() == reqs[reqs.len() - 1]);
    }
}

proof fn lemma_buffer_barriers_depend_on_resources(
    a: Seq<RegisteredResource>,
    b: Seq<RegisteredResource>,
    accs: Seq<AccessType>,
    reqs: Seq<TransitionRequest>,
)
    requires
        a.len() == b.len(),
        forall|i: int| 0 <= i < a.len() ==> #[trigger] a[i].resource == b[i].resource,
        forall|k: int| 0 <= k < reqs.len() ==> #[trigger] reqs[k].resource < a.len(),
    ensures
        spec_batch_buffer_barriers(a, accs, reqs) == spec_batch_buffer_barriers(b, accs, reqs),
    decreases reqs.len(),
{
    if reqs.len() > 0 {
        lemma_buffer_barriers_depend_on_resources(a, b, accs, reqs.drop_last());
        assert(reqs.last() == reqs[reqs.len() - 1]);
    }
}

/// Whether texels of `format` hold a depth value: the depth-only and the depth-stencil formats.
pub open spec fn spec_format_has_depth(format: i32) -> bool {
    ||| format == vk::FORMAT_D16_UNORM
    ||| format == vk::FORMAT_X8_D24_UNORM_PACK32
    ||| format == vk::FORMAT_D32_SFLOAT
    ||| format == vk::FORMAT_D16_UNORM_S8_UINT
    ||| format == vk::FORMAT_D24_UNORM_S8_UINT
    ||| format == vk::FORMAT_D32_SFLOAT_S8_UINT
}

/// Whether texels of `format` hold a stencil value: the stencil-only and the depth-stencil
/// formats.
pub open spec fn spec_format_has_stencil(format: i32) -> bool {
    ||| format == vk::FORMAT_S8_UINT
    ||| format == vk::FORMAT_D16_UNORM_S8_UINT
    ||| format == vk::FORMAT_D24_UNORM_S8_UINT
    ||| format == vk::FORMAT_D32_SFLOAT_S8_UINT
}

/// The aspect a barrier names for an image is what its format holds: the depth aspect exactly
/// when texels have a depth value, the stencil aspect exactly when they have a stencil value,
/// and the color aspect, alone, for every other format.
pub proof fn lemma_aspect_matches_format_components(format: i32)
    ensures
        (spec_aspect_of_format(format) & vk::ASPECT_DEPTH != 0) == spec_format_has_depth(format),
        (spec_aspect_of_format(format) & vk::ASPECT_STENCIL != 0) == spec_format_has_stencil(format),
        (spec_aspect_of_format(format) & vk::ASPECT_COLOR != 0) == (!spec_format_has_depth(format)
            && !spec_format_has_stencil(format)),
        spec_aspect_of_format(format) & vk::ASPECT_COLOR != 0 ==> spec_aspect_of_format(format) == vk::ASPECT_COLOR,
{
    assert(1u32 & 2u32 == 0 && 1u32 & 4u32 == 0 && 1u32 & 1u32 != 0) by (bit_vector);
    assert(2u32 & 2u32 != 0 && 2u32 & 4u32 == 0 && 2u32 & 1u32 == 0) by (bit_vector);
    assert(4u32 & 2u32 == 0 && 4u32 & 4u32 != 0 && 4u32 & 1u32 == 0) by (bit_vector);
    assert(6u32 & 2u32 != 0 && 6u32 & 4u32 != 0 && 6u32 & 1u32 == 0) by (bit_vector);
}

} // verus!
