//! Which GPU and queue the renderer uses, and whether a device offers the extensions it needs.
use vstd::prelude::*;

verus! {

/// `VK_QUEUE_GRAPHICS_BIT`.
pub const QUEUE_GRAPHICS: u32 = 0x1;

/// `VkPhysicalDeviceType` values.
pub const PHYSICAL_DEVICE_TYPE_OTHER: i32 = 0;
pub const PHYSICAL_DEVICE_TYPE_INTEGRATED_GPU: i32 = 1;
pub const PHYSICAL_DEVICE_TYPE_DISCRETE_GPU: i32 = 2;
pub const PHYSICAL_DEVICE_TYPE_VIRTUAL_GPU: i32 = 3;
pub const PHYSICAL_DEVICE_TYPE_CPU: i32 = 4;

/// A queue family of a device: its index, its queue count, its `VkQueueFlags`, and whether its
/// queues can present to the window's surface.
#[derive(Clone, Copy, Debug, PartialEq, Eq, Structural)]
pub struct QueueFamilyInfo {
    pub index: u32,
    pub queue_count: u32,
    pub queue_flags: u32,
    pub presentation_supported: bool,
}

/// A device the renderer may run on: its `VkPhysicalDeviceType` and its queue families.
pub struct PhysicalDeviceCandidate {
    pub device_type: i32,
    pub queue_families: Vec<QueueFamilyInfo>,
}

/// Whether a queue family has queues that draw and present.
pub open spec fn spec_can_present(q: QueueFamilyInfo) -> bool {
    q.queue_count > 0 && q.queue_flags & QUEUE_GRAPHICS == QUEUE_GRAPHICS && q.presentation_supported
}

/// Whether a device has a queue family that draws and presents.
pub open spec fn spec_suitable(d: PhysicalDeviceCandidate) -> bool {
    exists|j: int| 0 <= j < d.queue_families@.len() && spec_can_present(#[trigger] d.queue_families@[j])
}

/// How much a kind of device is preferred: a discrete GPU most, then an integrated one, then a
/// virtual one, then any other.
pub open spec fn spec_device_score(device_type: i32) -> u32 {
    if device_type == PHYSICAL_DEVICE_TYPE_VIRTUAL_GPU {
        1
    } else if device_type == PHYSICAL_DEVICE_TYPE_INTEGRATED_GPU {
        100
    } else if device_type == PHYSICAL_DEVICE_TYPE_DISCRETE_GPU {
        1000
    } else {
        0
    }
}

/// How much a kind of device is preferred.
pub fn device_score(device_type: i32) -> (score: u32)
    ensures
        score == spec_device_score(device_type),
{
    if device_type == PHYSICAL_DEVICE_TYPE_VIRTUAL_GPU {
        1
    } else if device_type == PHYSICAL_DEVICE_TYPE_INTEGRATED_GPU {
        100
    } else if device_type == PHYSICAL_DEVICE_TYPE_DISCRETE_GPU {
        1000
    } else {
        0
    }
}

fn is_suitable(d: &PhysicalDeviceCandidate) -> (r: bool)
    ensures
        r == spec_suitable(*d),
{
    let mut j: usize = 0;
    while j < d.queue_families.len()
        invariant
            j <= d.queue_families@.len(),
            forall|k: int| 0 <= k < j ==> !spec_can_present(#[trigger] d.queue_families@[k]),
        decreases d.queue_families@.len() - j,
    {
        let q = d.queue_families[j];
        if q.queue_count > 0 && q.queue_flags & QUEUE_GRAPHICS == QUEUE_GRAPHICS && q.presentation_supported {
            proof {
                assert(spec_can_present(d.queue_families@[j as int]));
            }
            return true;
        }
        j = j + 1;
    }
    false
}

/// The device the renderer runs on: of the suitable devices, the most preferred kind, and of
/// several of that kind, the last.
pub fn pick_suitable_physical_device(candidates: &Vec<PhysicalDeviceCandidate>) -> (picked: usize)
    requires
        exists|i: int| 0 <= i < candidates@.len() && spec_suitable(#[trigger] candidates@[i]),
    ensures
        picked < candidates@.len(),
        spec_suitable(candidates@[picked as int]),
        forall|i: int|
            0 <= i < candidates@.len() && spec_suitable(#[trigger] candidates@[i]) ==> spec_device_score(
                candidates@[i].device_type,
            ) <= spec_device_score(candidates@[picked as int].device_type),
        forall|i: int|
            picked < i < candidates@.len() && spec_suitable(#[trigger] candidates@[i]) ==> spec_device_score(
                candidates@[i].device_type,
            ) < spec_device_score(candidates@[picked as int].device_type),
{
    let mut best: Option<usize> = None;
    let mut i: usize = 0;
    while i < candidates.len()
        invariant
            i <= candidates@.len(),
            best matches Some(b) ==> b < i && spec_suitable(candidates@[b as int]),
            best is None ==> forall|k: int| 0 <= k < i ==> !spec_suitable(#[trigger] candidates@[k]),
            best matches Some(b) ==> forall|k: int|
                0 <= k < i && spec_suitable(#[trigger] candidates@[k]) ==> spec_device_score(candidates@[k].device_type)
                    <= spec_device_score(candidates@[b as int].device_type),
            best matches Some(b) ==> forall|k: int|
                b < k < i && spec_suitable(#[trigger] candidates@[k]) ==> spec_device_score(candidates@[k].device_type)
                    < spec_device_score(candidates@[b as int].device_type),
        decreases candidates@.len() - i,
    {
        if is_suitable(&candidates[i]) {
            let score = device_score(candidates[i].device_type);
            match best {
                None => {
                    best = Some(i);
                },
                Some(b) => {
                    if score >= device_score(candidates[b].device_type) {
                        best = Some(i);
                    }
                },
            }
        }
        i = i + 1;
    }
    match best {
        Some(b) => b,
        None => {
            proof {
                let w = choose|w: int| 0 <= w < candidates@.len() && spec_suitable(#[trigger] candidates@[w]);
                assert(!spec_suitable(candidates@[w]));
            }
            0
        },
    }
}

/// The queue family the renderer submits to: the first one that draws.
pub fn graphics_queue_family(families: &Vec<QueueFamilyInfo>) -> (family: QueueFamilyInfo)
    requires
        exists|j: int| 0 <= j < families@.len() && (#[trigger] families@[j]).queue_flags & QUEUE_GRAPHICS == QUEUE_GRAPHICS,
    ensures
        exists|j: int|
            0 <= j < families@.len() && families@[j] == family && family.queue_flags & QUEUE_GRAPHICS == QUEUE_GRAPHICS
                && forall|k: int|
                0 <= k < j ==> (#[trigger] families@[k]).queue_flags & QUEUE_GRAPHICS != QUEUE_GRAPHICS,
{
    let mut j: usize = 0;
    while j < families.len()
        invariant
            j <= families@.len(),
            forall|k: int| 0 <= k < j ==> (#[trigger] families@[k]).queue_flags & QUEUE_GRAPHICS != QUEUE_GRAPHICS,
        decreases families@.len() - j,
    {
        let f = families[j];
        if f.queue_flags & QUEUE_GRAPHICS == QUEUE_GRAPHICS {
            proof {
                assert(families@[j as int] == f);
            }
            return f;
        }
        j = j + 1;
    }
    proof {
        let w = choose|w: int| 0 <= w < families@.len() && (#[trigger] families@[w]).queue_flags & QUEUE_GRAPHICS
            == QUEUE_GRAPHICS;
        assert(families@[w].queue_flags & QUEUE_GRAPHICS != QUEUE_GRAPHICS);
    }
    families[0]
}

/// Whether `name` is one of the names in `available`.
pub open spec fn spec_has_name(available: Seq<String>, name: Seq<char>) -> bool {
    exists|j: int| 0 <= j < available.len() && (#[trigger] available[j])@ == name
}

/// Where the first extension a device lacks is among those required, if it lacks one.

pub fn first_unsupported_extension(required: &Vec<String>, available: &Vec<String>) -> (missing: Option<usize>)
    ensures
        missing is None ==> (forall|i: int|
            0 <= i < required@.len() ==> #[trigger] spec_has_name(available@, required@[i]@)),
        missing matches Some(i) ==> i < required@.len(),
        missing matches Some(i) ==> !spec_has_name(available@, required@[i as int]@),
        missing matches Some(i) ==> (forall|k: int|
            0 <= k < i ==> #[trigger] spec_has_name(available@, required@[k]@)),
{
    let mut i: usize = 0;
    while i < required.len()
        invariant
            i <= required@.len(),
            forall|k: int| 0 <= k < i ==> #[trigger] spec_has_name(available@, required@[k]@),
        decreases required@.len() - i,
    {
        let mut found = false;
        let mut j: usize = 0;
        while j < available.len()
            invariant
                j <= available@.len(),
                i < required@.len(),
                found ==> spec_has_name(available@, required@[i as int]@),
                !found ==> forall|m: int| 0 <= m < j ==> (#[trigger] available@[m])@ != required@[i as int]@,
            decreases available@.len() - j,
        {
            if available[j] == required[i] {
                proof {
                    assert(available@[j as int]@ == required@[i as int]@);
                }
                found = true;
            }
            j = j + 1;
        }
        if !found {
            return Some(i);
        }
        i = i + 1;
    }
    None
}


/// Whether every name of `names` is among `available`.
pub open spec fn spec_all_available(names: Seq<String>, available: Seq<String>) -> bool {
    forall|k: int| 0 <= k < names.len() ==> #[trigger] spec_has_name(available, names[k]@)
}

/// Whether a device is created with ray tracing on: when it is wanted and the device has every
/// ray tracing extension, whose extensions then join the required ones. The device must have
/// every required extension (`first_unsupported_extension` finds the first it lacks).
pub fn plan_device_extensions(
    required: &Vec<String>,
    ray_tracing: &Vec<String>,
    available: &Vec<String>,
    want_ray_tracing: bool,
) -> (on: bool)
    requires
        spec_all_available(required@, available@),
    ensures
        on == (want_ray_tracing && spec_all_available(ray_tracing@, available@)),
{
    if want_ray_tracing {
        match first_unsupported_extension(ray_tracing, available) {
            Some(i) => {
                assert(!spec_has_name(available@, ray_tracing@[i as int]@));
                false
            },
            None => true,
        }
    } else {
        false
    }
}

} // verus!
