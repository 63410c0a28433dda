//! How a swapchain is set up from what the surface supports: its format, image count, extent,
//! present mode and transform.
use vstd::prelude::*;

use crate::vk;

verus! {

/// `VK_COLOR_SPACE_SRGB_NONLINEAR_KHR`.
pub const COLOR_SPACE_SRGB_NONLINEAR: i32 = 0;

/// `VK_PRESENT_MODE_IMMEDIATE_KHR`, `VK_PRESENT_MODE_MAILBOX_KHR`, `VK_PRESENT_MODE_FIFO_KHR` and
/// `VK_PRESENT_MODE_FIFO_RELAXED_KHR`.
pub const PRESENT_MODE_IMMEDIATE: i32 = 0;
pub const PRESENT_MODE_MAILBOX: i32 = 1;
pub const PRESENT_MODE_FIFO: i32 = 2;
pub const PRESENT_MODE_FIFO_RELAXED: i32 = 3;

/// `VK_SURFACE_TRANSFORM_IDENTITY_BIT_KHR`.
pub const SURFACE_TRANSFORM_IDENTITY: u32 = 0x1;

/// A format a surface supports (`VkSurfaceFormatKHR`).
#[derive(Clone, Copy, Debug, PartialEq, Eq, Structural)]
pub struct SurfaceFormat {
    /// `VkFormat` value.
    pub format: i32,
    /// `VkColorSpaceKHR` value.
    pub color_space: i32,
}

/// Where the first supported format equal to `format` is, if one is.
pub open spec fn spec_first_with_format(formats: Seq<SurfaceFormat>, format: i32) -> Option<int> {
    if exists|i: int| 0 <= i < formats.len() && (#[trigger] formats[i]).format == format {
        Some(
            choose|i: int|
                0 <= i < formats.len() && (#[trigger] formats[i]).format == format && forall|j: int|
                    0 <= j < i ==> (#[trigger] formats[j]).format != format,
        )
    } else {
        None
    }
}

/// The surface format a swapchain uses: `B8G8R8A8_UNORM` when the surface states no
/// preference (its one format is undefined) or supports it, the first supported one otherwise.
pub open spec fn spec_surface_format(formats: Seq<SurfaceFormat>) -> SurfaceFormat {
    if formats.len() == 1 && formats[0].format == vk::FORMAT_UNDEFINED {
        SurfaceFormat { format: vk::FORMAT_B8G8R8A8_UNORM, color_space: formats[0].color_space }
    } else {
        match spec_first_with_format(formats, vk::FORMAT_B8G8R8A8_UNORM) {
            Some(i) => formats[i],
            None => formats[0],
        }
    }
}

/// The surface format a swapchain uses, from the formats the surface supports.
pub fn pick_suitable_surface_format(formats: &Vec<SurfaceFormat>) -> (format: SurfaceFormat)
    requires
        formats@.len() > 0,
    ensures
        format == spec_surface_format(formats@),
{
    if formats.len() == 1 && formats[0].format == vk::FORMAT_UNDEFINED {
        return SurfaceFormat { format: vk::FORMAT_B8G8R8A8_UNORM, color_space: formats[0].color_space };
    }
    let mut i: usize = 0;
    while i < formats.len()
        invariant
            i <= formats@.len(),
            forall|j: int| 0 <= j < i ==> (#[trigger] formats@[j]).format != vk::FORMAT_B8G8R8A8_UNORM,
        decreases formats@.len() - i,
    {
        if formats[i].format == vk::FORMAT_B8G8R8A8_UNORM {
            proof {
                let w = i as int;
                assert(0 <= w < formats@.len() && formats@[w].format == vk::FORMAT_B8G8R8A8_UNORM && forall|j: int|
                    0 <= j < w ==> (#[trigger] formats@[j]).format != vk::FORMAT_B8G8R8A8_UNORM);
                let c = spec_first_with_format(formats@, vk::FORMAT_B8G8R8A8_UNORM)->0;
                if c < w {
                    assert(formats@[c].format != vk::FORMAT_B8G8R8A8_UNORM);
                } else if w < c {
                    assert(formats@[w].format != vk::FORMAT_B8G8R8A8_UNORM);
                }
            }
            return formats[i];
        }
        i = i + 1;
    }
    formats[0]
}

/// Images a swapchain holds: three, for triple buffering, or the surface's minimum if that is
/// more.
pub fn swapchain_image_count(min_image_count: u32, max_image_count: u32) -> (count: u32)
    requires
        (if min_image_count > 3 { min_image_count } else { 3 }) <= max_image_count,
    ensures
        count == (if min_image_count > 3 { min_image_count } else { 3 }),
{
    if min_image_count > 3 {
        min_image_count
    } else {
        3
    }
}

/// Why a swapchain cannot be set up.
#[derive(Clone, Copy, Debug, PartialEq, Eq, Structural)]
pub enum SwapchainError {
    /// Its images would be empty.
    ZeroResolution,
}

/// The extent of the swapchain's images: the surface's current extent, or the requested one when
/// the surface lets the swapchain choose (its width is `u32::MAX`). It may not be empty.
pub fn swapchain_extent(current_extent: [u32; 2], requested_extent: [u32; 2]) -> (extent: Result<[u32; 2], SwapchainError>)
    ensures
        ({
            let chosen = if current_extent[0] == u32::MAX {
                requested_extent
            } else {
                current_extent
            };
            extent == if chosen[0] == 0 || chosen[1] == 0 {
                Err::<[u32; 2], SwapchainError>(SwapchainError::ZeroResolution)
            } else {
                Ok::<[u32; 2], SwapchainError>(chosen)
            }
        }),
{
    let chosen = if current_extent[0] == u32::MAX {
        requested_extent
    } else {
        current_extent
    };
    if chosen[0] == 0 || chosen[1] == 0 {
        Err(SwapchainError::ZeroResolution)
    } else {
        Ok(chosen)
    }
}

/// The present modes in the order a swapchain prefers them: with vertical sync, relaxed FIFO then
/// FIFO; without, mailbox then immediate.
pub open spec fn spec_preferred_present_modes(enable_vsync: bool) -> Seq<i32> {
    if enable_vsync {
        seq![PRESENT_MODE_FIFO_RELAXED, PRESENT_MODE_FIFO]
    } else {
        seq![PRESENT_MODE_MAILBOX, PRESENT_MODE_IMMEDIATE]
    }
}

/// The present mode of a swapchain: the first preferred mode the surface supports, FIFO (which
/// every surface supports) when it supports none.
pub open spec fn spec_present_mode(enable_vsync: bool, supported: Seq<i32>) -> i32 {
    let preferred = spec_preferred_present_modes(enable_vsync);
    if supported.contains(preferred[0]) {
        preferred[0]
    } else if supported.contains(preferred[1]) {
        preferred[1]
    } else {
        PRESENT_MODE_FIFO
    }
}

fn supports(supported: &Vec<i32>, mode: i32) -> (r: bool)
    ensures
        r == supported@.contains(mode),
{
    let mut i: usize = 0;
    while i < supported.len()
        invariant
            i <= supported@.len(),
            forall|j: int| 0 <= j < i ==> supported@[j] != mode,
        decreases supported@.len() - i,
    {
        if supported[i] == mode {
            proof {
                assert(supported@[i as int] == mode);
            }
            return true;
        }
        i = i + 1;
    }
    false
}

/// The present mode of a swapchain, from whether it waits for vertical sync and the modes the
/// surface supports.
pub fn pick_present_mode(enable_vsync: bool, supported: &Vec<i32>) -> (mode: i32)
    ensures
        mode == spec_present_mode(enable_vsync, supported@),
{
    let (first, second) = if enable_vsync {
        (PRESENT_MODE_FIFO_RELAXED, PRESENT_MODE_FIFO)
    } else {
        (PRESENT_MODE_MAILBOX, PRESENT_MODE_IMMEDIATE)
    };
    if supports(supported, first) {
        first
    } else if supports(supported, second) {
        second
    } else {
        PRESENT_MODE_FIFO
    }
}

/// The transform a swapchain's images are presented with: the identity when the surface supports
/// it, its current transform otherwise.
pub fn pick_surface_transform(supported_transforms: u32, current_transform: u32) -> (transform: u32)
    ensures
        transform == (if supported_transforms & SURFACE_TRANSFORM_IDENTITY == SURFACE_TRANSFORM_IDENTITY {
            SURFACE_TRANSFORM_IDENTITY
        } else {
            current_transform
        }),
{
    if supported_transforms & SURFACE_TRANSFORM_IDENTITY == SURFACE_TRANSFORM_IDENTITY {
        SURFACE_TRANSFORM_IDENTITY
    } else {
        current_transform
    }
}

/// `VK_SUBOPTIMAL_KHR`.
pub const RESULT_SUBOPTIMAL: i32 = 1000001003;

/// `VK_ERROR_OUT_OF_DATE_KHR`.
pub const RESULT_ERROR_OUT_OF_DATE: i32 = -1000001004;

/// What the device or the swapchain failed at.
#[derive(Clone, Debug, PartialEq, Eq)]
pub enum RHIError {
    /// Memory for the named resource could not be allocated.
    AllocationFailure { name: String },
    /// A Vulkan call failed with this `VkResult`.
    Vulkan { err: i32 },
    /// The swapchain no longer matches its surface and must be made again.
    FramebufferInvalid,
    /// Acquiring the next swapchain image failed with this `VkResult`.
    AcquiredImageFailed { err: i32 },
}

/// Whether a `VkResult` says the swapchain no longer fits its surface.
pub open spec fn spec_swapchain_outdated(err: i32) -> bool {
    err == RESULT_ERROR_OUT_OF_DATE || err == RESULT_SUBOPTIMAL
}

/// The frame after `frame` of `count` frames in turn.
pub open spec fn spec_next_frame(frame: u32, count: u32) -> u32 {
    ((frame + 1) % (count as int)) as u32
}

/// The frame after `frame` of `count` frames in turn.
pub fn next_frame(frame: u32, count: u32) -> (next: u32)
    requires
        frame < count,
    ensures
        next == spec_next_frame(frame, count),
        next < count,
{
    if frame + 1 == count {
        assert((count as int) % (count as int) == 0) by (nonlinear_arith)
            requires
                count > 0,
        ;
        0
    } else {
        assert(((frame + 1) as int) % (count as int) == frame + 1) by (nonlinear_arith)
            requires
                0 <= frame + 1 < count,
        ;
        frame + 1
    }
}

/// An acquired swapchain image: its index, and the frame whose semaphores it uses.
#[derive(Clone, Copy, Debug, PartialEq, Eq, Structural)]
pub struct AcquiredImage {
    pub frame_index: u32,
    /// The frame to acquire with next time.
    pub next_frame: u32,
}

/// What acquiring the next swapchain image comes to, from the frame acquired with and what the
/// driver answered (the image index, or a `VkResult`): images are acquired in turn, so the index
/// is the frame's; an outdated swapchain must be made again; any other failure is passed on.
pub fn acquired_image(current_frame: u32, image_count: u32, acquired: Result<u32, i32>) -> (r: Result<
    AcquiredImage,
    RHIError,
>)
    requires
        current_frame < image_count,
        acquired matches Ok(idx) ==> idx == current_frame,
    ensures
        match acquired {
            Ok(idx) => r == Ok::<AcquiredImage, RHIError>(
                AcquiredImage { frame_index: idx, next_frame: spec_next_frame(current_frame, image_count) },
            ),
            Err(err) => if spec_swapchain_outdated(err) {
                r == Err::<AcquiredImage, RHIError>(RHIError::FramebufferInvalid)
            } else {
                r == Err::<AcquiredImage, RHIError>(RHIError::AcquiredImageFailed { err })
            },
        },
{
    match acquired {
        Ok(idx) => Ok(AcquiredImage { frame_index: idx, next_frame: next_frame(current_frame, image_count) }),
        Err(err) => {
            if err == RESULT_ERROR_OUT_OF_DATE || err == RESULT_SUBOPTIMAL {
                Err(RHIError::FramebufferInvalid)
            } else {
                Err(RHIError::AcquiredImageFailed { err })
            }
        },
    }
}

/// Whether presenting went as it may: it succeeded, or the swapchain is outdated, which the
/// next acquire handles. Any other failure is fatal.
pub fn present_succeeded(presented: Result<(), i32>) -> (ok: bool)
    ensures
        ok == match presented {
            Ok(_) => true,
            Err(err) => spec_swapchain_outdated(err),
        },
{
    match presented {
        Ok(_) => true,
        Err(err) => err == RESULT_ERROR_OUT_OF_DATE || err == RESULT_SUBOPTIMAL,
    }
}

} // verus!
