//! Building the render graph of a frame, and the temporal resources that outlive it: an image
//! or buffer kept under a name from one frame to the next.
//!
//! A temporal resource cycles through three states. Between frames it is inert, holding the
//! access the last frame left it in. Taken by a frame, it is imported into that frame's graph.
//! When the graph is built it is exported, and once the frame is recorded it is inert again,
//! in the access the frame ended it in.
use vstd::prelude::*;

use std::marker::PhantomData;
use std::sync::Arc;

use crate::barrier::AccessType;
use crate::buffer::{Buffer, BufferDesc};
use crate::graph::{RenderGraph, RenderGraphImportExportResource};
use crate::graph_resource::{ExportableGraphResource, ExportedResourceHandle, Handle};
use crate::image::{Image, ImageDesc};
use crate::resource::ResourceDesc;
use crate::retired_graph::RetiredRenderGraph;
use crate::util::arc_clone;

verus! {

/// The name a temporal resource is kept under.
#[derive(Hash, PartialEq, Eq, Debug, Clone)]
pub struct TemporalResourceKey(pub String);

impl TemporalResourceKey {
    /// Whether both keys are the same name.
    pub fn same_key(&self, other: &Self) -> (same: bool)
        ensures
            same == (self.0@ == other.0@),
    {
        self.0 == other.0
    }
}

impl From<String> for TemporalResourceKey {
    fn from(s: String) -> (key: Self) {
        TemporalResourceKey(s)
    }
}

impl vstd::std_specs::convert::FromSpecImpl<String> for TemporalResourceKey {
    open spec fn obeys_from_spec() -> bool {
        true
    }

    open spec fn from_spec(v: String) -> Self {
        TemporalResourceKey(v)
    }
}

/// The resource a temporal resource holds.
pub enum TemporalResource {
    Image(Arc<Image>),
    Buffer(Arc<Buffer>),
}

impl TemporalResource {
    /// Another pointer to the same resource.
    pub fn clone_resource(&self) -> (res: Self)
        ensures
            res == *self,
    {
        match self {
            TemporalResource::Image(image) => TemporalResource::Image(arc_clone(image)),
            TemporalResource::Buffer(buffer) => TemporalResource::Buffer(arc_clone(buffer)),
        }
    }
}

/// Where a temporal resource is in its cycle; each state holds the resource itself.
pub enum TemporalResourceState {
    /// Between frames, or not taken by the frame being built: the access it was left in.
    Inert { resource: TemporalResource, access: AccessType },
    /// Taken by the frame being built: its handle in that frame's graph.
    Imported { resource: TemporalResource, handle: ExportableGraphResource },
    /// Exported out of the built graph: the handle it was exported under.
    Exported { resource: TemporalResource, handle: ExportedResourceHandle },
}

/// What went wrong when taking a temporal resource.
#[derive(Clone, Copy, Debug, PartialEq, Eq, Structural)]
pub enum TemporalResourceError {
    /// The name holds a resource of the other kind.
    KindMismatch,
    /// The frame being built has already taken the resource.
    AlreadyTaken,
    /// The resource did not exist and could not be created.
    CreationFailed,
}

/// The temporal resources, each under its own name.
pub struct TemporalResourceRegistry {
    pub entries: Vec<(TemporalResourceKey, TemporalResourceState)>,
}

/// Whether the handle of an imported temporal resource is of the resource's kind.
pub open spec fn spec_handle_matches(resource: TemporalResource, handle: ExportableGraphResource) -> bool {
    match resource {
        TemporalResource::Image(_) => handle is Image,
        TemporalResource::Buffer(_) => handle is Buffer,
    }
}

/// Whether the handle of an exported temporal resource is of the resource's kind.
pub open spec fn spec_exported_matches(resource: TemporalResource, handle: ExportedResourceHandle) -> bool {
    match resource {
        TemporalResource::Image(_) => handle is Image,
        TemporalResource::Buffer(_) => handle is Buffer,
    }
}

/// Whether the registry is sound: no two resources under one name, and every handle of the
/// kind of its resource.
pub open spec fn spec_registry_wf(entries: Seq<(TemporalResourceKey, TemporalResourceState)>) -> bool {
    &&& forall|i: int, j: int|
        0 <= i < j < entries.len() ==> (#[trigger] entries[i]).0.0@ != (#[trigger] entries[j]).0.0@
    &&& forall|i: int|
        0 <= i < entries.len() ==> match (#[trigger] entries[i]).1 {
            TemporalResourceState::Inert { .. } => true,
            TemporalResourceState::Imported { resource, handle } => spec_handle_matches(resource, handle),
            TemporalResourceState::Exported { resource, handle } => spec_exported_matches(resource, handle),
        }
}

/// Whether no temporal resource is in the exported state.
pub open spec fn spec_none_exported(entries: Seq<(TemporalResourceKey, TemporalResourceState)>) -> bool {
    forall|i: int| 0 <= i < entries.len() ==> !((#[trigger] entries[i]).1 is Exported)
}

/// Whether every temporal resource is inert.
pub open spec fn spec_all_inert(entries: Seq<(TemporalResourceKey, TemporalResourceState)>) -> bool {
    forall|i: int| 0 <= i < entries.len() ==> (#[trigger] entries[i]).1 is Inert
}

/// Whether `new` is `old` after the graph is built: an imported resource is exported under its
/// graph handle; every other state stays.
pub open spec fn spec_exported_from(old: TemporalResourceState, new: TemporalResourceState) -> bool {
    match old {
        TemporalResourceState::Imported { resource, handle } => new matches TemporalResourceState::Exported {
            resource: r,
            handle: h,
        } && r == resource && h.spec_handle() == handle.spec_handle() && spec_exported_matches(r, h),
        _ => new == old,
    }
}

/// Whether `new` is `old` after the frame is recorded: an exported resource is inert again, in
/// the access the frame ended it in; every other state stays.
pub open spec fn spec_inert_from(
    old: TemporalResourceState,
    new: TemporalResourceState,
    regs: Seq<crate::compiled_graph::RegisteredResource>,
) -> bool {
    match old {
        TemporalResourceState::Exported { resource, handle } => new == TemporalResourceState::Inert {
            resource,
            access: regs[handle.spec_handle().id as int].access,
        },
        _ => new == old,
    }
}

/// The exports the built graph gains: every imported temporal resource, in registry order,
/// left in the access the last pass put it in.
pub open spec fn spec_temporal_exports(entries: Seq<(TemporalResourceKey, TemporalResourceState)>) -> Seq<
    (ExportableGraphResource, AccessType),
>
    decreases entries.len(),
{
    if entries.len() == 0 {
        Seq::empty()
    } else {
        let prev = spec_temporal_exports(entries.drop_last());
        match entries.last().1 {
            TemporalResourceState::Imported { handle, .. } => prev.push((handle, AccessType::Nothing)),
            _ => prev,
        }
    }
}

impl TemporalResourceRegistry {
    /// An empty registry.
    pub fn new() -> (registry: Self)
        ensures
            registry.entries@.len() == 0,
    {
        TemporalResourceRegistry { entries: Vec::new() }
    }

    /// Where the resource named `key` is, if there is one.
    pub fn find(&self, key: &TemporalResourceKey) -> (idx: Option<usize>)
        ensures
            match idx {
                Some(i) => i < self.entries@.len() && self.entries@[i as int].0.0@ == key.0@,
                None => forall|i: int|
                    0 <= i < self.entries@.len() ==> (#[trigger] self.entries@[i]).0.0@ != key.0@,
            },
    {
        let mut i: usize = 0;
        while i < self.entries.len()
            invariant
                i <= self.entries@.len(),
                forall|j: int| 0 <= j < i ==> (#[trigger] self.entries@[j]).0.0@ != key.0@,
            decreases self.entries@.len() - i,
        {
            if self.entries[i].0.same_key(key) {
                return Some(i);
            }
            i = i + 1;
        }
        None
    }

    /// A copy of the registry between frames: every resource inert, the copy pointing to the
    /// same resources in the same accesses.
    pub fn clone_assuming_inert(&self) -> (res: Self)
        requires
            spec_all_inert(self.entries@),
        ensures
            res.entries@.len() == self.entries@.len(),
            forall|i: int|
                0 <= i < self.entries@.len() ==> (#[trigger] res.entries@[i]).0.0@ == self.entries@[i].0.0@
                    && res.entries@[i].1 == self.entries@[i].1,
    {
        let mut entries: Vec<(TemporalResourceKey, TemporalResourceState)> = Vec::new();
        let mut i: usize = 0;
        while i < self.entries.len()
            invariant
                i <= self.entries@.len(),
                spec_all_inert(self.entries@),
                entries@.len() == i,
                forall|j: int|
                    0 <= j < i ==> (#[trigger] entries@[j]).0.0@ == self.entries@[j].0.0@
                        && entries@[j].1 == self.entries@[j].1,
            decreases self.entries@.len() - i,
        {
            let (key, state) = &self.entries[i];
            assert(self.entries@[i as int].1 is Inert);
            let key = TemporalResourceKey(key.0.clone());
            match state {
                TemporalResourceState::Inert { resource, access } => {
                    entries.push(
                        (key, TemporalResourceState::Inert { resource: resource.clone_resource(), access: *access }),
                    );
                },
                _ => {},
            }
            i = i + 1;
        }
        TemporalResourceRegistry { entries }
    }
}

/// Builds the render graph of a frame, with the temporal resources it may take.
pub struct RenderGraphBuilder {
    pub render_graph: RenderGraph,
    pub temporal_resources: TemporalResourceRegistry,
}

impl RenderGraphBuilder {
    /// A builder with an empty render graph and the temporal resources between frames.
    pub fn new(temporal_resources: TemporalResourceRegistry) -> (builder: Self)
        ensures
            builder.render_graph.passes@.len() == 0,
            builder.render_graph.resources@.len() == 0,
            builder.render_graph.exported_resources@.len() == 0,
            builder.temporal_resources == temporal_resources,
    {
        RenderGraphBuilder { render_graph: RenderGraph::new(), temporal_resources }
    }

    /// Whether temporal resources can be taken: the registry is sound, none is exported, and the
    /// graph has room for one more resource.
    pub open spec fn spec_ready(&self) -> bool {
        &&& spec_registry_wf(self.temporal_resources.entries@)
        &&& spec_none_exported(self.temporal_resources.entries@)
        &&& self.render_graph.resources@.len() < u32::MAX
    }
}

/// Where the resource named `key` is, if there is one.
pub open spec fn spec_index_of(entries: Seq<(TemporalResourceKey, TemporalResourceState)>, key: Seq<char>) -> Option<
    int,
> {
    if exists|i: int| 0 <= i < entries.len() && (#[trigger] entries[i]).0.0@ == key {
        Some(choose|i: int| 0 <= i < entries.len() && (#[trigger] entries[i]).0.0@ == key)
    } else {
        None
    }
}

proof fn lemma_index_of(entries: Seq<(TemporalResourceKey, TemporalResourceState)>, key: Seq<char>, i: int)
    requires
        spec_registry_wf(entries),
        0 <= i < entries.len(),
        entries[i].0.0@ == key,
    ensures
        spec_index_of(entries, key) == Some(i),
{
    let j = choose|j: int| 0 <= j < entries.len() && (#[trigger] entries[j]).0.0@ == key;
    assert(entries[j].0.0@ == key);
    if j < i {
        assert(entries[j].0.0@ != entries[i].0.0@);
    } else if i < j {
        assert(entries[i].0.0@ != entries[j].0.0@);
    }
}

/// A resource the render graph can take from the temporal resources, or create there.
pub trait GetOrCreateTemporal<Desc: ResourceDesc> {
    /// Whether a temporal resource can be taken now.
    spec fn spec_can_take(&self) -> bool;

    /// The resource named `name`, imported into the graph being built: the one kept under that
    /// name, in the access the last frame left it in, or, when there is none, one that `create`
    /// makes from `desc`, in no access yet. Until the frame is recorded the resource is taken.
    fn get_or_create_temporal<F: FnOnce(Desc) -> Option<<Desc as ResourceDesc>::Resource>>(
        &mut self,
        name: TemporalResourceKey,
        desc: Desc,
        create: F,
    ) -> (res: Result<Handle<<Desc as ResourceDesc>::Resource>, TemporalResourceError>)
        requires
            old(self).spec_can_take(),
            create.requires((desc,)),
    ;
}

impl GetOrCreateTemporal<ImageDesc> for RenderGraphBuilder {
    open spec fn spec_can_take(&self) -> bool {
        self.spec_ready()
    }

    fn get_or_create_temporal<F: FnOnce(ImageDesc) -> Option<<ImageDesc as ResourceDesc>::Resource>>(
        &mut self,
        name: TemporalResourceKey,
        desc: ImageDesc,
        create: F,
    ) -> (res: Result<Handle<Image>, TemporalResourceError>)
        ensures
            ({
                let entries = old(self).temporal_resources.entries@;
                let resources = old(self).render_graph.resources@;
                let id = resources.len() as u32;
                match spec_index_of(entries, name.0@) {
                    None => match res {
                        Ok(h) => exists|a: Arc<Image>|
                            #![trigger create.ensures((desc,), Some(*a))]
                            {
                                &&& create.ensures((desc,), Some(*a))
                                &&& h.handle.id == id && h.handle.generation == 0
                                &&& h.desc == a.desc
                                &&& final(self).render_graph.resources@ == resources.push(
                                    <Image as RenderGraphImportExportResource>::spec_imported(a, AccessType::Nothing),
                                )
                                &&& final(self).temporal_resources.entries@ == entries.push(
                                    (
                                        name,
                                        TemporalResourceState::Imported {
                                            resource: TemporalResource::Image(a),
                                            handle: ExportableGraphResource::Image(h),
                                        },
                                    ),
                                )
                            },
                        Err(e) => e == TemporalResourceError::CreationFailed && create.ensures((desc,), None)
                            && final(self).render_graph.resources == old(self).render_graph.resources
                            && final(self).temporal_resources == old(self).temporal_resources,
                    },
                    Some(i) => match entries[i].1 {
                        TemporalResourceState::Inert { resource: TemporalResource::Image(a), access } => res matches Ok(
                            h,
                        ) && h.handle.id == id && h.handle.generation == 0 && h.desc == a.desc
                            && final(self).render_graph.resources@ == resources.push(
                            <Image as RenderGraphImportExportResource>::spec_imported(a, access),
                        ) && final(self).temporal_resources.entries@ == entries.update(
                            i,
                            (
                                entries[i].0,
                                TemporalResourceState::Imported {
                                    resource: TemporalResource::Image(a),
                                    handle: ExportableGraphResource::Image(h),
                                },
                            ),
                        ),
                        TemporalResourceState::Inert { resource: TemporalResource::Buffer(_), .. } => res
                            == Err::<Handle<Image>, TemporalResourceError>(TemporalResourceError::KindMismatch)
                            && final(self).render_graph.resources == old(self).render_graph.resources
                            && final(self).temporal_resources == old(self).temporal_resources,
                        _ => res == Err::<Handle<Image>, TemporalResourceError>(TemporalResourceError::AlreadyTaken)
                            && final(self).render_graph.resources == old(self).render_graph.resources
                            && final(self).temporal_resources == old(self).temporal_resources,
                    },
                }
            }),
            spec_registry_wf(final(self).temporal_resources.entries@),
            spec_none_exported(final(self).temporal_resources.entries@),
            final(self).render_graph.passes == old(self).render_graph.passes,
            final(self).render_graph.exported_resources == old(self).render_graph.exported_resources,
    {
        let ghost entries = self.temporal_resources.entries@;
        match self.temporal_resources.find(&name) {
            Some(i) => {
                proof {
                    lemma_index_of(entries, name.0@, i as int);
                }
                let (resource, access) = match &self.temporal_resources.entries[i].1 {
                    TemporalResourceState::Inert { resource, access } => (resource.clone_resource(), *access),
                    TemporalResourceState::Imported { .. } => {
                        return Err(TemporalResourceError::AlreadyTaken);
                    },
                    TemporalResourceState::Exported { .. } => {
                        assert(!(entries[i as int].1 is Exported));
                        return Err(TemporalResourceError::AlreadyTaken);
                    },
                };
                match resource {
                    TemporalResource::Image(image) => {
                        let handle = self.render_graph.import(arc_clone(&image), access);
                        let stored = Handle::<Image> { handle: handle.handle, desc: handle.desc, _marker: PhantomData };
                        let key = TemporalResourceKey(self.temporal_resources.entries[i].0.0.clone());
                        self.temporal_resources.entries.set(
                            i,
                            (
                                key,
                                TemporalResourceState::Imported {
                                    resource: TemporalResource::Image(image),
                                    handle: ExportableGraphResource::Image(stored),
                                },
                            ),
                        );
                        proof {
                            let e = self.temporal_resources.entries@;
                            assert forall|a: int, b: int| 0 <= a < b < e.len() implies (#[trigger] e[a]).0.0@
                                != (#[trigger] e[b]).0.0@ by {
                                assert(entries[a].0.0@ != entries[b].0.0@);
                            }
                            assert forall|k: int| 0 <= k < e.len() implies !((#[trigger] e[k]).1 is Exported) by {
                                assert(!(entries[k].1 is Exported));
                            }
                        }
                        Ok(handle)
                    },
                    TemporalResource::Buffer(_) => Err(TemporalResourceError::KindMismatch),
                }
            },
            None => {
                match create(desc) {
                    None => Err(TemporalResourceError::CreationFailed),
                    Some(image) => {
                        let image = Arc::new(image);
                        let handle = self.render_graph.import(arc_clone(&image), AccessType::Nothing);
                        let stored = Handle::<Image> { handle: handle.handle, desc: handle.desc, _marker: PhantomData };
                        let ghost a = image;
                        self.temporal_resources.entries.push(
                            (
                                name,
                                TemporalResourceState::Imported {
                                    resource: TemporalResource::Image(image),
                                    handle: ExportableGraphResource::Image(stored),
                                },
                            ),
                        );
                        proof {
                            let e = self.temporal_resources.entries@;
                            assert forall|x: int, y: int| 0 <= x < y < e.len() implies (#[trigger] e[x]).0.0@
                                != (#[trigger] e[y]).0.0@ by {
                                if y < entries.len() {
                                    assert(entries[x].0.0@ != entries[y].0.0@);
                                } else {
                                    assert(entries[x].0.0@ != name.0@);
                                }
                            }
                            assert forall|k: int| 0 <= k < e.len() implies !((#[trigger] e[k]).1 is Exported) by {
                                if k < entries.len() {
                                    assert(!(entries[k].1 is Exported));
                                }
                            }
                            assert(create.ensures((desc,), Some(*a)));
                        }
                        Ok(handle)
                    },
                }
            },
        }
    }
}

impl GetOrCreateTemporal<BufferDesc> for RenderGraphBuilder {
    open spec fn spec_can_take(&self) -> bool {
        self.spec_ready()
    }

    fn get_or_create_temporal<F: FnOnce(BufferDesc) -> Option<<BufferDesc as ResourceDesc>::Resource>>(
        &mut self,
        name: TemporalResourceKey,
        desc: BufferDesc,
        create: F,
    ) -> (res: Result<Handle<Buffer>, TemporalResourceError>)
        ensures
            ({
                let entries = old(self).temporal_resources.entries@;
                let resources = old(self).render_graph.resources@;
                let id = resources.len() as u32;
                match spec_index_of(entries, name.0@) {
                    None => match res {
                        Ok(h) => exists|a: Arc<Buffer>|
                            #![trigger create.ensures((desc,), Some(*a))]
                            {
                                &&& create.ensures((desc,), Some(*a))
                                &&& h.handle.id == id && h.handle.generation == 0
                                &&& h.desc == a.desc
                                &&& final(self).render_graph.resources@ == resources.push(
                                    <Buffer as RenderGraphImportExportResource>::spec_imported(a, AccessType::Nothing),
                                )
                                &&& final(self).temporal_resources.entries@ == entries.push(
                                    (
                                        name,
                                        TemporalResourceState::Imported {
                                            resource: TemporalResource::Buffer(a),
                                            handle: ExportableGraphResource::Buffer(h),
                                        },
                                    ),
                                )
                            },
                        Err(e) => e == TemporalResourceError::CreationFailed && create.ensures((desc,), None)
                            && final(self).render_graph.resources == old(self).render_graph.resources
                            && final(self).temporal_resources == old(self).temporal_resources,
                    },
                    Some(i) => match entries[i].1 {
                        TemporalResourceState::Inert { resource: TemporalResource::Buffer(a), access } => res matches Ok(
                            h,
                        ) && h.handle.id == id && h.handle.generation == 0 && h.desc == a.desc
                            && final(self).render_graph.resources@ == resources.push(
                            <Buffer as RenderGraphImportExportResource>::spec_imported(a, access),
                        ) && final(self).temporal_resources.entries@ == entries.update(
                            i,
                            (
                                entries[i].0,
                                TemporalResourceState::Imported {
                                    resource: TemporalResource::Buffer(a),
                                    handle: ExportableGraphResource::Buffer(h),
                                },
                            ),
                        ),
                        TemporalResourceState::Inert { resource: TemporalResource::Image(_), .. } => res
                            == Err::<Handle<Buffer>, TemporalResourceError>(TemporalResourceError::KindMismatch)
                            && final(self).render_graph.resources == old(self).render_graph.resources
                            && final(self).temporal_resources == old(self).temporal_resources,
                        _ => res == Err::<Handle<Buffer>, TemporalResourceError>(TemporalResourceError::AlreadyTaken)
                            && final(self).render_graph.resources == old(self).render_graph.resources
                            && final(self).temporal_resources == old(self).temporal_resources,
                    },
                }
            }),
            spec_registry_wf(final(self).temporal_resources.entries@),
            spec_none_exported(final(self).temporal_resources.entries@),
            final(self).render_graph.passes == old(self).render_graph.passes,
            final(self).render_graph.exported_resources == old(self).render_graph.exported_resources,
    {
        let ghost entries = self.temporal_resources.entries@;
        match self.temporal_resources.find(&name) {
            Some(i) => {
                proof {
                    lemma_index_of(entries, name.0@, i as int);
                }
                let (resource, access) = match &self.temporal_resources.entries[i].1 {
                    TemporalResourceState::Inert { resource, access } => (resource.clone_resource(), *access),
                    TemporalResourceState::Imported { .. } => {
                        return Err(TemporalResourceError::AlreadyTaken);
                    },
                    TemporalResourceState::Exported { .. } => {
                        assert(!(entries[i as int].1 is Exported));
                        return Err(TemporalResourceError::AlreadyTaken);
                    },
                };
                match resource {
                    TemporalResource::Buffer(buffer) => {
                        let handle = self.render_graph.import(arc_clone(&buffer), access);
                        let stored = Handle::<Buffer> { handle: handle.handle, desc: handle.desc, _marker: PhantomData };
                        let key = TemporalResourceKey(self.temporal_resources.entries[i].0.0.clone());
                        self.temporal_resources.entries.set(
                            i,
                            (
                                key,
                                TemporalResourceState::Imported {
                                    resource: TemporalResource::Buffer(buffer),
                                    handle: ExportableGraphResource::Buffer(stored),
                                },
                            ),
                        );
                        proof {
                            let e = self.temporal_resources.entries@;
                            assert forall|a: int, b: int| 0 <= a < b < e.len() implies (#[trigger] e[a]).0.0@
                                != (#[trigger] e[b]).0.0@ by {
                                assert(entries[a].0.0@ != entries[b].0.0@);
                            }
                            assert forall|k: int| 0 <= k < e.len() implies !((#[trigger] e[k]).1 is Exported) by {
                                assert(!(entries[k].1 is Exported));
                            }
                        }
                        Ok(handle)
                    },
                    TemporalResource::Image(_) => Err(TemporalResourceError::KindMismatch),
                }
            },
            None => {
                match create(desc) {
                    None => Err(TemporalResourceError::CreationFailed),
                    Some(buffer) => {
                        let buffer = Arc::new(buffer);
                        let handle = self.render_graph.import(arc_clone(&buffer), AccessType::Nothing);
                        let stored = Handle::<Buffer> { handle: handle.handle, desc: handle.desc, _marker: PhantomData };
                        let ghost a = buffer;
                        self.temporal_resources.entries.push(
                            (
                                name,
                                TemporalResourceState::Imported {
                                    resource: TemporalResource::Buffer(buffer),
                                    handle: ExportableGraphResource::Buffer(stored),
                                },
                            ),
                        );
                        proof {
                            let e = self.temporal_resources.entries@;
                            assert forall|x: int, y: int| 0 <= x < y < e.len() implies (#[trigger] e[x]).0.0@
                                != (#[trigger] e[y]).0.0@ by {
                                if y < entries.len() {
                                    assert(entries[x].0.0@ != entries[y].0.0@);
                                } else {
                                    assert(entries[x].0.0@ != name.0@);
                                }
                            }
                            assert forall|k: int| 0 <= k < e.len() implies !((#[trigger] e[k]).1 is Exported) by {
                                if k < entries.len() {
                                    assert(!(entries[k].1 is Exported));
                                }
                            }
                            assert(create.ensures((desc,), Some(*a)));
                        }
                        Ok(handle)
                    },
                }
            },
        }
    }
}

/// The temporal resources of a built graph, exported out of it; inert again once the frame is
/// recorded.
pub struct ExportedTemporalResources(pub TemporalResourceRegistry);

impl RenderGraphBuilder {
    /// The built graph: every temporal resource the frame took is exported out of it, left in
    /// the access the last pass put it in.
    pub fn build(self) -> (res: (RenderGraph, ExportedTemporalResources))
        requires
            spec_registry_wf(self.temporal_resources.entries@),
            spec_none_exported(self.temporal_resources.entries@),
        ensures
            res.0.passes == self.render_graph.passes,
            res.0.resources == self.render_graph.resources,
            res.0.raster_pipelines == self.render_graph.raster_pipelines,
            res.0.compute_pipelines == self.render_graph.compute_pipelines,
            res.0.ray_tracing_pipelines == self.render_graph.ray_tracing_pipelines,
            res.0.exported_resources@ == self.render_graph.exported_resources@ + spec_temporal_exports(
                self.temporal_resources.entries@,
            ),
            res.1.0.entries@.len() == self.temporal_resources.entries@.len(),
            forall|i: int|
                0 <= i < self.temporal_resources.entries@.len() ==> (#[trigger] res.1.0.entries@[i]).0
                    == self.temporal_resources.entries@[i].0 && spec_exported_from(
                    self.temporal_resources.entries@[i].1,
                    res.1.0.entries@[i].1,
                ),
            spec_registry_wf(res.1.0.entries@),
    {
        let ghost all = self.temporal_resources.entries@;
        let ghost exported0 = self.render_graph.exported_resources@;
        let mut render_graph = self.render_graph;
        let mut old_entries = self.temporal_resources.entries;
        let mut entries: Vec<(TemporalResourceKey, TemporalResourceState)> = Vec::new();
        let n = old_entries.len();
        let mut k: usize = 0;
        proof {
            assert(old_entries@ =~= all.skip(0));
            assert(all.take(0) =~= Seq::<(TemporalResourceKey, TemporalResourceState)>::empty());
            assert(exported0 + Seq::<(ExportableGraphResource, AccessType)>::empty() =~= exported0);
        }
        while k < n
            invariant
                n == all.len(),
                k <= n,
                old_entries@ == all.skip(k as int),
                spec_registry_wf(all),
                spec_none_exported(all),
                entries@.len() == k,
                forall|i: int|
                    0 <= i < k ==> (#[trigger] entries@[i]).0 == all[i].0 && spec_exported_from(
                        all[i].1,
                        entries@[i].1,
                    ),
                render_graph.exported_resources@ == exported0 + spec_temporal_exports(all.take(k as int)),
                render_graph.passes == self.render_graph.passes,
                render_graph.resources == self.render_graph.resources,
                render_graph.raster_pipelines == self.render_graph.raster_pipelines,
                render_graph.compute_pipelines == self.render_graph.compute_pipelines,
                render_graph.ray_tracing_pipelines == self.render_graph.ray_tracing_pipelines,
            decreases n - k,
        {
            let (key, state) = old_entries.remove(0);
            proof {
                assert(all.skip(k as int)[0] == all[k as int]);
                assert(all.skip(k as int).remove(0) =~= all.skip(k + 1));
                assert(all.take(k + 1).drop_last() =~= all.take(k as int));
                assert(all.take(k + 1).last() == all[k as int]);
                assert(!(all[k as int].1 is Exported));
            }
            let ghost before = render_graph.exported_resources@;
            let new_state = match state {
                TemporalResourceState::Inert { resource, access } => TemporalResourceState::Inert {
                    resource,
                    access,
                },
                TemporalResourceState::Imported { resource, handle } => {
                    match handle {
                        ExportableGraphResource::Image(h) => {
                            let exported = render_graph.export(h, AccessType::Nothing);
                            TemporalResourceState::Exported {
                                resource,
                                handle: ExportedResourceHandle::Image(exported),
                            }
                        },
                        ExportableGraphResource::Buffer(h) => {
                            let exported = render_graph.export(h, AccessType::Nothing);
                            TemporalResourceState::Exported {
                                resource,
                                handle: ExportedResourceHandle::Buffer(exported),
                            }
                        },
                        ExportableGraphResource::RayTracingAccelStruct(_) => {
                            vstd::pervasive::unreached()
                        },
                    }
                },
                TemporalResourceState::Exported { .. } => vstd::pervasive::unreached(),
            };
            entries.push((key, new_state));
            proof {
                assert(render_graph.exported_resources@ =~= exported0 + spec_temporal_exports(all.take(k + 1)));
            }
            k = k + 1;
        }
        proof {
            assert(all.take(n as int) =~= all);
            let e = entries@;
            assert forall|a: int, b: int| 0 <= a < b < e.len() implies (#[trigger] e[a]).0.0@ != (
            #[trigger] e[b]).0.0@ by {
                assert(all[a].0.0@ != all[b].0.0@);
            }
            assert forall|i: int| 0 <= i < e.len() implies match (#[trigger] e[i]).1 {
                TemporalResourceState::Inert { .. } => true,
                TemporalResourceState::Imported { resource, handle } => spec_handle_matches(resource, handle),
                TemporalResourceState::Exported { resource, handle } => spec_exported_matches(resource, handle),
            } by {
                assert(spec_exported_from(all[i].1, e[i].1));
            }
        }
        (render_graph, ExportedTemporalResources(TemporalResourceRegistry { entries }))
    }
}

impl ExportedTemporalResources {
    /// The temporal resources once the frame is recorded: every exported resource is inert
    /// again, in the access the frame ended it in.
    pub fn consume(self, render_graph: &RetiredRenderGraph) -> (registry: TemporalResourceRegistry)
        requires
            spec_registry_wf(self.0.entries@),
            forall|i: int| 0 <= i < self.0.entries@.len() ==> !((#[trigger] self.0.entries@[i]).1 is Imported),
            forall|i: int|
                0 <= i < self.0.entries@.len() && (#[trigger] self.0.entries@[i]).1 is Exported ==> (
                self.0.entries@[i].1->Exported_handle.spec_handle().id as int)
                    < render_graph.registered_resources@.len(),
        ensures
            registry.entries@.len() == self.0.entries@.len(),
            forall|i: int|
                0 <= i < self.0.entries@.len() ==> (#[trigger] registry.entries@[i]).0 == self.0.entries@[i].0
                    && spec_inert_from(
                    self.0.entries@[i].1,
                    registry.entries@[i].1,
                    render_graph.registered_resources@,
                ),
            spec_registry_wf(registry.entries@),
            spec_all_inert(registry.entries@),
    {
        let ghost all = self.0.entries@;
        let ghost regs = render_graph.registered_resources@;
        let mut old_entries = self.0.entries;
        let mut entries: Vec<(TemporalResourceKey, TemporalResourceState)> = Vec::new();
        let n = old_entries.len();
        let mut k: usize = 0;
        proof {
            assert(old_entries@ =~= all.skip(0));
        }
        while k < n
            invariant
                n == all.len(),
                k <= n,
                old_entries@ == all.skip(k as int),
                regs == render_graph.registered_resources@,
                forall|i: int| 0 <= i < n ==> !((#[trigger] all[i]).1 is Imported),
                forall|i: int|
                    0 <= i < n && (#[trigger] all[i]).1 is Exported ==> (
                    all[i].1->Exported_handle.spec_handle().id as int) < regs.len(),
                entries@.len() == k,
                forall|i: int|
                    0 <= i < k ==> (#[trigger] entries@[i]).0 == all[i].0 && spec_inert_from(
                        all[i].1,
                        entries@[i].1,
                        regs,
                    ),
            decreases n - k,
        {
            let (key, state) = old_entries.remove(0);
            proof {
                assert(all.skip(k as int)[0] == all[k as int]);
                assert(all.skip(k as int).remove(0) =~= all.skip(k + 1));
                assert(!(all[k as int].1 is Imported));
            }
            let new_state = match state {
                TemporalResourceState::Inert { resource, access } => TemporalResourceState::Inert {
                    resource,
                    access,
                },
                TemporalResourceState::Exported { resource, handle } => {
                    let access = match handle {
                        ExportedResourceHandle::Image(h) => render_graph.get_exported_resource_access(h),
                        ExportedResourceHandle::Buffer(h) => render_graph.get_exported_resource_access(h),
                        ExportedResourceHandle::RayTracingAccelStruct(h) => render_graph.get_exported_resource_access(
                            h,
                        ),
                    };
                    TemporalResourceState::Inert { resource, access }
                },
                TemporalResourceState::Imported { .. } => vstd::pervasive::unreached(),
            };
            entries.push((key, new_state));
            k = k + 1;
        }
        proof {
            let e = entries@;
            assert forall|a: int, b: int| 0 <= a < b < e.len() implies (#[trigger] e[a]).0.0@ != (
            #[trigger] e[b]).0.0@ by {
                assert(all[a].0.0@ != all[b].0.0@);
            }
            assert forall|i: int| 0 <= i < e.len() implies (#[trigger] e[i]).1 is Inert by {
                assert(spec_inert_from(all[i].1, e[i].1, regs));
            }
        }
        TemporalResourceRegistry { entries }
    }
}

/// After a frame, every temporal resource is inert again and holds the resource it held before
/// the frame; one the frame did not take keeps its access, and one it took is in the access
/// the frame ended it in.
pub proof fn lemma_frame_leaves_temporal_resources_inert(
    before: TemporalResourceState,
    built: TemporalResourceState,
    after: TemporalResourceState,
    regs: Seq<crate::compiled_graph::RegisteredResource>,
)
    requires
        !(before is Exported),
        spec_exported_from(before, built),
        spec_inert_from(built, after, regs),
    ensures
        after is Inert,
        after->Inert_resource == match before {
            TemporalResourceState::Inert { resource, .. } => resource,
            TemporalResourceState::Imported { resource, .. } => resource,
            TemporalResourceState::Exported { resource, .. } => resource,
        },
        before is Inert ==> after == before,
        before is Imported ==> after->Inert_access == regs[before->Imported_handle.spec_handle().id as int].access,
{
}

} // verus!
