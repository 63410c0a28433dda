//! Passes that clear an image: the graph side of a clear. The clear itself is recorded when the
//! pass runs, with the value chosen by its caller.
use vstd::prelude::*;

use crate::barrier::AccessType;
use crate::graph::RenderGraph;
use crate::graph_resource::{GraphResourceRef, Handle};
use crate::image::Image;
use crate::pass::{PassResourceAccessType, PassResourceHandle};
use crate::resource::Uav;

verus! {

fn add_clear_pass(rg: &mut RenderGraph, image: &mut Handle<Image>, name: &str) -> (cleared: GraphResourceRef<Image, Uav>)
    ensures
        cleared.handle == old(image).handle.spec_expired(),
        *final(image) == *old(image),
        final(rg).passes@.len() == old(rg).passes@.len() + 1,
        final(rg).passes@.take(old(rg).passes@.len() as int) == old(rg).passes@,
        final(rg).passes@.last().id == old(rg).passes@.len(),
        final(rg).passes@.last().name@ == name@,
        final(rg).passes@.last().inputs@.len() == 0,
        final(rg).passes@.last().outputs@ == seq![
            PassResourceHandle {
                handle: old(image).handle,
                access: PassResourceAccessType { access_type: AccessType::TransferWrite, skip_sync_if_same: false },
            },
        ],
        final(rg).resources == old(rg).resources,
        final(rg).exported_resources == old(rg).exported_resources,
        final(rg).raster_pipelines == old(rg).raster_pipelines,
        final(rg).compute_pipelines == old(rg).compute_pipelines,
        final(rg).ray_tracing_pipelines == old(rg).ray_tracing_pipelines,
{
    let mut pass = rg.add_pass(name);
    let cleared = pass.write(image, AccessType::TransferWrite);
    proof {
        assert(pass.pass.outputs@ =~= seq![
            PassResourceHandle {
                handle: old(image).handle,
                access: PassResourceAccessType { access_type: AccessType::TransferWrite, skip_sync_if_same: false },
            },
        ]);
    }
    pass.finish(rg);
    proof {
        assert(rg.passes@.take(old(rg).passes@.len() as int) =~= old(rg).passes@);
    }
    cleared
}

/// Adds a pass that clears the depth of `image`, and gives the cleared image.
pub fn clear_depth_stencil(rg: &mut RenderGraph, image: &mut Handle<Image>) -> (cleared: GraphResourceRef<Image, Uav>)
    ensures
        cleared.handle == old(image).handle.spec_expired(),
        *final(image) == *old(image),
        final(rg).passes@.len() == old(rg).passes@.len() + 1,
        final(rg).passes@.take(old(rg).passes@.len() as int) == old(rg).passes@,
        final(rg).passes@.last().id == old(rg).passes@.len(),
        final(rg).passes@.last().name@ == seq!['c', 'l', 'e', 'a', 'r', ' ', 'd', 'e', 'p', 't', 'h'],
        final(rg).passes@.last().inputs@.len() == 0,
        final(rg).passes@.last().outputs@ == seq![
            PassResourceHandle {
                handle: old(image).handle,
                access: PassResourceAccessType { access_type: AccessType::TransferWrite, skip_sync_if_same: false },
            },
        ],
        final(rg).resources == old(rg).resources,
        final(rg).exported_resources == old(rg).exported_resources,
        final(rg).raster_pipelines == old(rg).raster_pipelines,
        final(rg).compute_pipelines == old(rg).compute_pipelines,
        final(rg).ray_tracing_pipelines == old(rg).ray_tracing_pipelines,
{
    proof {
        reveal_strlit("clear depth");
    }
    add_clear_pass(rg, image, "clear depth")
}

/// Adds a pass that clears the color of `image`, and gives the cleared image.
pub fn clear_color(rg: &mut RenderGraph, image: &mut Handle<Image>) -> (cleared: GraphResourceRef<Image, Uav>)
    ensures
        cleared.handle == old(image).handle.spec_expired(),
        *final(image) == *old(image),
        final(rg).passes@.len() == old(rg).passes@.len() + 1,
        final(rg).passes@.take(old(rg).passes@.len() as int) == old(rg).passes@,
        final(rg).passes@.last().id == old(rg).passes@.len(),
        final(rg).passes@.last().name@ == seq!['c', 'l', 'e', 'a', 'r', ' ', 'c', 'o', 'l', 'o', 'r'],
        final(rg).passes@.last().inputs@.len() == 0,
        final(rg).passes@.last().outputs@ == seq![
            PassResourceHandle {
                handle: old(image).handle,
                access: PassResourceAccessType { access_type: AccessType::TransferWrite, skip_sync_if_same: false },
            },
        ],
        final(rg).resources == old(rg).resources,
        final(rg).exported_resources == old(rg).exported_resources,
        final(rg).raster_pipelines == old(rg).raster_pipelines,
        final(rg).compute_pipelines == old(rg).compute_pipelines,
        final(rg).ray_tracing_pipelines == old(rg).ray_tracing_pipelines,
{
    proof {
        reveal_strlit("clear color");
    }
    add_clear_pass(rg, image, "clear color")
}

} // verus!
