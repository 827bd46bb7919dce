//! Choosing how a swapchain is made from what the surface supports.

use crate::vulkan::device::QueueFamilyIndex;
use vstd::prelude::*;

verus! {

/// The image format with four 8-bit unsigned normalized channels, RGBA.
pub const FORMAT_R8G8B8A8_UNORM: i32 = 37;

/// The sRGB color space with its nonlinear transfer function.
pub const COLOR_SPACE_SRGB_NONLINEAR: i32 = 0;

/// Presenting at once, without waiting for the vertical blank.
pub const PRESENT_MODE_IMMEDIATE: i32 = 0;

/// Presenting from a first-in first-out queue at each vertical blank.
pub const PRESENT_MODE_FIFO: i32 = 2;

/// A size in pixels.
#[derive(Clone, Copy, Debug, PartialEq, Eq, Structural)]
pub struct Extent2D {
    pub width: u32,
    pub height: u32,
}

/// A format and color space that a surface can present.
#[derive(Clone, Copy, Debug, PartialEq, Eq, Structural)]
pub struct SurfaceFormat {
    pub format: i32,
    pub color_space: i32,
}

/// The limits of a surface that the swapchain has to respect. A maximum
/// image count of zero means that there is none; a current width of
/// `u32::MAX` means that the swapchain decides the size.
#[derive(Clone, Copy, Debug, PartialEq, Eq, Structural)]
pub struct SurfaceCapabilities {
    pub min_image_count: u32,
    pub max_image_count: u32,
    pub current_extent: Extent2D,
    pub min_image_extent: Extent2D,
    pub max_image_extent: Extent2D,
}

/// Whether the images of a swapchain are used by one queue family or
/// shared between two.
#[derive(Clone, Copy, Debug, PartialEq, Eq, Structural)]
pub enum SharingMode {
    Exclusive,
    Concurrent,
}

/// Everything a surface reports about the swapchains it can present.
#[derive(Clone, Debug)]
pub struct SwapchainSupport {
    pub capabilities: SurfaceCapabilities,
    pub formats: Vec<SurfaceFormat>,
    pub present_modes: Vec<i32>,
}

/// Every choice that goes into making a swapchain.
#[derive(Clone, Debug)]
pub struct SwapchainPlan {
    pub image_count: u32,
    pub surface_format: SurfaceFormat,
    pub extent: Extent2D,
    pub present_mode: i32,
    pub sharing_mode: SharingMode,
    pub queue_family_indices: Vec<u32>,
}

/// A swapchain as the device made it.
#[derive(Clone, Debug)]
pub struct Swapchain {
    pub format: i32,
    pub extent: Extent2D,
    pub handle: u64,
    pub images: Vec<u64>,
    pub views: Vec<u64>,
}

/// True for the format that textures and the swapchain prefer.
pub open spec fn is_preferred(format: SurfaceFormat) -> bool {
    format.format == FORMAT_R8G8B8A8_UNORM && format.color_space == COLOR_SPACE_SRGB_NONLINEAR
}

/// `value` brought into the range from `min` to `max`; where the range is
/// empty, `min` wins.
pub open spec fn clamp(min: u32, max: u32, value: u32) -> u32 {
    let capped = if max < value {
        max
    } else {
        value
    };
    if min > capped {
        min
    } else {
        capped
    }
}

/// The number of images to ask for: one more than the least the surface
/// works with, held to the most it allows where it names a most.
pub open spec fn image_count_of(capabilities: SurfaceCapabilities) -> int {
    let wanted = capabilities.min_image_count + 1;
    if capabilities.max_image_count != 0 && wanted > capabilities.max_image_count {
        capabilities.max_image_count as int
    } else {
        wanted
    }
}

/// The size of the swapchain's images: the surface's current size where it
/// has one, else the drawable size held to the surface's limits.
pub open spec fn extent_of(capabilities: SurfaceCapabilities, drawable: Extent2D) -> Extent2D {
    if capabilities.current_extent.width != u32::MAX {
        capabilities.current_extent
    } else {
        Extent2D {
            width: clamp(
                capabilities.min_image_extent.width,
                capabilities.max_image_extent.width,
                drawable.width,
            ),
            height: clamp(
                capabilities.min_image_extent.height,
                capabilities.max_image_extent.height,
                drawable.height,
            ),
        }
    }
}

/// The surface format to use: the first preferred one, else the first.
pub open spec fn surface_format_of(formats: Seq<SurfaceFormat>) -> SurfaceFormat
    recommends
        formats.len() > 0,
{
    if exists|i: int| 0 <= i < formats.len() && is_preferred(formats[i]) {
        formats[choose|i: int|
            0 <= i < formats.len() && is_preferred(formats[i]) && forall|j: int|
                0 <= j < i ==> !is_preferred(formats[j])]
    } else {
        formats[0]
    }
}

/// The present mode to use: the preferred one where the surface has it,
/// else immediate.
pub open spec fn present_mode_of(modes: Seq<i32>, preferred: i32) -> i32 {
    if modes.contains(preferred) {
        preferred
    } else {
        PRESENT_MODE_IMMEDIATE
    }
}

fn clamp_to(min: u32, max: u32, value: u32) -> (clamped: u32)
    ensures
        clamped == clamp(min, max, value),
{
    let capped: u32 = if max < value {
        max
    } else {
        value
    };
    if min > capped {
        min
    } else {
        capped
    }
}

impl SwapchainSupport {
    /// True when the surface offers at least one format and one present
    /// mode, so that a swapchain can be made for it at all.
    pub fn is_adequate(&self) -> (adequate: bool)
        ensures
            adequate == (self.formats@.len() > 0 && self.present_modes@.len() > 0),
    {
        !(self.formats.len() == 0 || self.present_modes.len() == 0)
    }

    /// The surface format to use: the first one that is RGBA8 in nonlinear
    /// sRGB, else the surface's first format.
    pub fn get_swapchain_surface_format(&self) -> (format: SurfaceFormat)
        requires
            self.formats@.len() > 0,
        ensures
            format == surface_format_of(self.formats@),
            exists|i: int|
                0 <= i < self.formats@.len() && self.formats@[i] == format && forall|j: int|
                    0 <= j < i ==> !is_preferred(self.formats@[j]),
            (exists|i: int| 0 <= i < self.formats@.len() && is_preferred(self.formats@[i]))
                ==> is_preferred(format),
            (forall|i: int| 0 <= i < self.formats@.len() ==> !is_preferred(self.formats@[i]))
                ==> format == self.formats@[0],
    {
        let mut index: usize = 0;
        while index < self.formats.len()
            invariant
                index <= self.formats@.len(),
                forall|j: int| 0 <= j < index ==> !is_preferred(self.formats@[j]),
            decreases self.formats@.len() - index,
        {
            let candidate = self.formats[index];
            if candidate.format == FORMAT_R8G8B8A8_UNORM && candidate.color_space
                == COLOR_SPACE_SRGB_NONLINEAR {
                proof {
                    let formats = self.formats@;
                    let found = index as int;
                    let chosen = choose|i: int|
                        0 <= i < formats.len() && is_preferred(formats[i]) && forall|j: int|
                            0 <= j < i ==> !is_preferred(formats[j]);
                    assert(0 <= found < formats.len() && is_preferred(formats[found]) && forall|j: int|
                        0 <= j < found ==> !is_preferred(formats[j]));
                    assert(chosen == found) by {
                        if chosen < found {
                            assert(!is_preferred(formats[chosen]));
                        } else if found < chosen {
                            assert(!is_preferred(formats[found]));
                        }
                    }
                }
                return candidate;
            }
            index = index + 1;
        }
        self.formats[0]
    }

    /// The present mode to use: `preferred` where the surface offers it,
    /// else immediate.
    pub fn get_swapchain_present_mode(&self, preferred: i32) -> (mode: i32)
        ensures
            mode == present_mode_of(self.present_modes@, preferred),
    {
        let mut index: usize = 0;
        while index < self.present_modes.len()
            invariant
                index <= self.present_modes@.len(),
                forall|j: int| 0 <= j < index ==> self.present_modes@[j] != preferred,
            decreases self.present_modes@.len() - index,
        {
            if self.present_modes[index] == preferred {
                assert(self.present_modes@.contains(preferred));
                return preferred;
            }
            index = index + 1;
        }
        PRESENT_MODE_IMMEDIATE
    }

    /// The size of the swapchain's images for a window whose drawable area
    /// is `drawable`.
    pub fn get_swapchain_extent(&self, drawable: Extent2D) -> (extent: Extent2D)
        ensures
            extent == extent_of(self.capabilities, drawable),
    {
        if self.capabilities.current_extent.width != u32::MAX {
            self.capabilities.current_extent
        } else {
            Extent2D {
                width: clamp_to(
                    self.capabilities.min_image_extent.width,
                    self.capabilities.max_image_extent.width,
                    drawable.width,
                ),
                height: clamp_to(
                    self.capabilities.min_image_extent.height,
                    self.capabilities.max_image_extent.height,
                    drawable.height,
                ),
            }
        }
    }

    /// The number of images to ask for.
    pub fn image_count(&self) -> (count: u32)
        requires
            self.capabilities.min_image_count < u32::MAX,
        ensures
            count == image_count_of(self.capabilities),
    {
        let wanted: u32 = self.capabilities.min_image_count + 1;
        if self.capabilities.max_image_count != 0 && wanted > self.capabilities.max_image_count {
            self.capabilities.max_image_count
        } else {
            wanted
        }
    }
}

impl Swapchain {
    /// Every choice for a new swapchain on a surface with `support`, for a
    /// window whose drawable area is `drawable`: image count, format, size
    /// and present mode as the surface allows them, and images shared
    /// between the graphics and the present queue family exactly when these
    /// are two families.
    pub fn plan(
        support: &SwapchainSupport,
        drawable: Extent2D,
        index: QueueFamilyIndex,
        present_mode: i32,
    ) -> (plan: SwapchainPlan)
        requires
            support.formats@.len() > 0,
            support.capabilities.min_image_count < u32::MAX,
        ensures
            plan.image_count == image_count_of(support.capabilities),
            plan.surface_format == surface_format_of(support.formats@),
            plan.extent == extent_of(support.capabilities, drawable),
            plan.present_mode == present_mode_of(support.present_modes@, present_mode),
            index.graphics.family != index.present.family ==> plan.sharing_mode
                == SharingMode::Concurrent && plan.queue_family_indices@ == seq![
                index.graphics.family,
                index.present.family,
            ],
            index.graphics.family == index.present.family ==> plan.sharing_mode
                == SharingMode::Exclusive && plan.queue_family_indices@ == Seq::<u32>::empty(),
    {
        let mut queue_family_indices: Vec<u32> = Vec::new();
        let sharing_mode = if index.graphics.family != index.present.family {
            queue_family_indices.push(index.graphics.family);
            queue_family_indices.push(index.present.family);
            assert(queue_family_indices@ =~= seq![index.graphics.family, index.present.family]);
            SharingMode::Concurrent
        } else {
            SharingMode::Exclusive
        };
        SwapchainPlan {
            image_count: support.image_count(),
            surface_format: support.get_swapchain_surface_format(),
            extent: support.get_swapchain_extent(drawable),
            present_mode: support.get_swapchain_present_mode(present_mode),
            sharing_mode,
            queue_family_indices,
        }
    }

    /// Number of images, and so of frames that buffers are duplicated for.
    pub fn frames(&self) -> (count: usize)
        ensures
            count == self.images@.len(),
    {
        self.images.len()
    }
}

} // verus!
