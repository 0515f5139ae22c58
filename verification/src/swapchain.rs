use vstd::prelude::*;

verus! {

/// Width of the viewer's window, which is also the swapchain's extent
/// when the surface does not report one.
pub const WIDTH: u32 = 800;

/// Height of the viewer's window.
pub const HEIGHT: u32 = 600;

/// `VK_FORMAT_B8G8R8A8_UNORM`, the color format the viewer prefers.
pub const FORMAT_B8G8R8A8_UNORM: i32 = 44;

/// `VK_PRESENT_MODE_MAILBOX_KHR`.
pub const PRESENT_MODE_MAILBOX: i32 = 1;

/// `VK_PRESENT_MODE_FIFO_KHR`, which every Vulkan surface supports.
pub const PRESENT_MODE_FIFO: i32 = 2;

/// Width and height of an image, in pixels.
#[derive(Clone, Copy, Debug)]
pub struct Extent {
    pub width: u32,
    pub height: u32,
}

/// A color format together with its color space, as a surface offers it
/// (raw Vulkan enum values).
#[derive(Clone, Copy, Debug)]
pub struct SurfaceFormat {
    pub format: i32,
    pub color_space: i32,
}

/// Picks the surface format: the first offered one whose format is
/// `B8G8R8A8_UNORM`, else the first one offered.
pub fn choose_surface_format(formats: &Vec<SurfaceFormat>) -> (chosen: SurfaceFormat)
    requires
        formats@.len() > 0,
    ensures
        (exists|i: int| 0 <= i < formats@.len() && formats@[i].format == FORMAT_B8G8R8A8_UNORM)
            ==> (exists|k: int|
                0 <= k < formats@.len() && formats@[k] == chosen && chosen.format
                    == FORMAT_B8G8R8A8_UNORM && (forall|j: int|
                    0 <= j < k ==> formats@[j].format != FORMAT_B8G8R8A8_UNORM)),
        !(exists|i: int| 0 <= i < formats@.len() && formats@[i].format == FORMAT_B8G8R8A8_UNORM)
            ==> chosen == formats@[0],
{
    let mut i: usize = 0;
    while i < formats.len()
        invariant
            i <= formats@.len(),
            forall|j: int| 0 <= j < i ==> formats@[j].format != FORMAT_B8G8R8A8_UNORM,
        decreases formats@.len() - i,
    {
        if formats[i].format == FORMAT_B8G8R8A8_UNORM {
            return formats[i];
        }
        i = i + 1;
    }
    formats[0]
}

/// Picks the presentation mode: mailbox when the surface offers it, else
/// FIFO, the one mode every surface must support.
pub fn choose_present_mode(modes: &Vec<i32>) -> (mode: i32)
    ensures
        mode == if modes@.contains(PRESENT_MODE_MAILBOX) {
            PRESENT_MODE_MAILBOX
        } else {
            PRESENT_MODE_FIFO
        },
{
    let mut i: usize = 0;
    while i < modes.len()
        invariant
            i <= modes@.len(),
            forall|j: int| 0 <= j < i ==> modes@[j] != PRESENT_MODE_MAILBOX,
        decreases modes@.len() - i,
    {
        if modes[i] == PRESENT_MODE_MAILBOX {
            return PRESENT_MODE_MAILBOX;
        }
        i = i + 1;
    }
    PRESENT_MODE_FIFO
}

/// The extent the swapchain is created with when the surface leaves it
/// to the application: the window's size.
pub open spec fn fallback_extent() -> Extent {
    Extent { width: WIDTH, height: HEIGHT }
}

/// A surface reports `u32::MAX` as its current width when the swapchain
/// decides the extent.
pub open spec fn spec_choose_extent(current: Extent) -> Extent {
    if current.width != u32::MAX {
        current
    } else {
        fallback_extent()
    }
}

/// Picks the swapchain extent: the surface's current extent, or the
/// window's size when the surface does not report one.
pub fn choose_extent(current: Extent) -> (extent: Extent)
    ensures
        extent == spec_choose_extent(current),
        current.width != u32::MAX ==> extent == current,
        current.width == u32::MAX ==> extent.width == WIDTH && extent.height == HEIGHT,
{
    if current.width != u32::MAX {
        current
    } else {
        Extent { width: WIDTH, height: HEIGHT }
    }
}

/// One image more than the surface's minimum, so that the viewer need
/// not wait on the driver; held to the maximum where the surface has one
/// (a maximum of 0 means no limit).
pub open spec fn spec_image_count(min_image_count: u32, max_image_count: u32) -> int {
    let wanted = min_image_count + 1;
    if max_image_count > 0 && max_image_count < wanted {
        max_image_count as int
    } else {
        wanted
    }
}

/// Number of images to ask the swapchain for.
pub fn choose_image_count(min_image_count: u32, max_image_count: u32) -> (count: u32)
    requires
        min_image_count < u32::MAX,
    ensures
        count == spec_image_count(min_image_count, max_image_count),
        (max_image_count == 0 || min_image_count < max_image_count) ==> count == min_image_count + 1,
        (max_image_count > 0 && max_image_count <= min_image_count) ==> count == max_image_count,
{
    let wanted = min_image_count + 1;
    if max_image_count > 0 && max_image_count < wanted {
        max_image_count
    } else {
        wanted
    }
}

/// Within the surface's limits (a minimum no greater than a nonzero
/// maximum, as Vulkan guarantees), the image count is at least the
/// minimum, more than it where the maximum allows, and never above a
/// nonzero maximum.
pub proof fn image_count_within_limits(min_image_count: u32, max_image_count: u32)
    requires
        max_image_count == 0 || min_image_count <= max_image_count,
    ensures
        spec_image_count(min_image_count, max_image_count) >= min_image_count,
        max_image_count > 0 ==> spec_image_count(min_image_count, max_image_count) <= max_image_count,
        (max_image_count == 0 || min_image_count < max_image_count) ==> spec_image_count(
            min_image_count,
            max_image_count,
        ) == min_image_count + 1,
{
}

/// The image count is one more than the minimum unless a nonzero maximum
/// is reached first, in which case it is that maximum.
pub proof fn image_count_is_minimum_plus_one_or_maximum(min_image_count: u32, max_image_count: u32)
    ensures
        (max_image_count == 0 || min_image_count < max_image_count) ==> spec_image_count(
            min_image_count,
            max_image_count,
        ) == min_image_count + 1,
        (max_image_count > 0 && max_image_count <= min_image_count) ==> spec_image_count(
            min_image_count,
            max_image_count,
        ) == max_image_count,
{
}

/// A surface that reports its current extent gets a swapchain of exactly
/// that extent, whatever its size; only a surface that reports none
/// (width `u32::MAX`) gets the window's size.
pub proof fn reported_extent_is_kept(current: Extent)
    ensures
        current.width != u32::MAX ==> spec_choose_extent(current) == current,
        current.width == u32::MAX ==> spec_choose_extent(current).width == WIDTH
            && spec_choose_extent(current).height == HEIGHT,
{
}

/// What a surface reports about the swapchains it supports, as far as the
/// viewer reads it.
#[derive(Clone, Copy, Debug)]
pub struct SurfaceCapabilities {
    pub min_image_count: u32,
    /// 0 when the surface sets no maximum.
    pub max_image_count: u32,
    /// `u32::MAX` as width when the swapchain decides the extent.
    pub current_extent: Extent,
    /// Raw `VkSurfaceTransformFlagsKHR`.
    pub current_transform: u32,
}

/// `VK_IMAGE_USAGE_COLOR_ATTACHMENT_BIT | VK_IMAGE_USAGE_TRANSFER_DST_BIT`:
/// the graphics path renders into the swapchain images, the compute path
/// blits into them.
pub const SWAPCHAIN_IMAGE_USAGE: u32 = 0x12;

/// `VK_SHARING_MODE_EXCLUSIVE`.
pub const SHARING_MODE_EXCLUSIVE: i32 = 0;

/// `VK_COMPOSITE_ALPHA_OPAQUE_BIT_KHR`.
pub const COMPOSITE_ALPHA_OPAQUE: u32 = 1;

/// Everything the viewer puts into its swapchain create info besides the
/// surface handle.
#[derive(Clone, Copy, Debug)]
pub struct SwapchainPlan {
    pub min_image_count: u32,
    pub format: SurfaceFormat,
    pub extent: Extent,
    pub image_array_layers: u32,
    pub image_usage: u32,
    pub sharing_mode: i32,
    pub pre_transform: u32,
    pub composite_alpha: u32,
    pub present_mode: i32,
    pub clipped: bool,
}

/// Decides the swapchain from what the surface supports.
pub fn plan_swapchain(
    capabilities: SurfaceCapabilities,
    formats: &Vec<SurfaceFormat>,
    present_modes: &Vec<i32>,
) -> (plan: SwapchainPlan)
    requires
        formats@.len() > 0,
        capabilities.min_image_count < u32::MAX,
    ensures
        formats@.contains(plan.format),
        (exists|i: int| 0 <= i < formats@.len() && formats@[i].format == FORMAT_B8G8R8A8_UNORM)
            ==> (exists|k: int|
                0 <= k < formats@.len() && formats@[k] == plan.format && plan.format.format
                    == FORMAT_B8G8R8A8_UNORM && (forall|j: int|
                    0 <= j < k ==> formats@[j].format != FORMAT_B8G8R8A8_UNORM)),
        !(exists|i: int| 0 <= i < formats@.len() && formats@[i].format == FORMAT_B8G8R8A8_UNORM)
            ==> plan.format == formats@[0],
        plan.extent == spec_choose_extent(capabilities.current_extent),
        capabilities.current_extent.width != u32::MAX ==> plan.extent == capabilities.current_extent,
        capabilities.current_extent.width == u32::MAX ==> plan.extent.width == WIDTH
            && plan.extent.height == HEIGHT,
        plan.present_mode == if present_modes@.contains(PRESENT_MODE_MAILBOX) {
            PRESENT_MODE_MAILBOX
        } else {
            PRESENT_MODE_FIFO
        },
        plan.min_image_count == spec_image_count(
            capabilities.min_image_count,
            capabilities.max_image_count,
        ),
        plan.image_array_layers == 1,
        plan.image_usage == SWAPCHAIN_IMAGE_USAGE,
        plan.sharing_mode == SHARING_MODE_EXCLUSIVE,
        plan.pre_transform == capabilities.current_transform,
        plan.composite_alpha == COMPOSITE_ALPHA_OPAQUE,
        plan.clipped,
{
    let format = choose_surface_format(formats);
    proof {
        if !(exists|i: int| 0 <= i < formats@.len() && formats@[i].format == FORMAT_B8G8R8A8_UNORM) {
            assert(formats@[0] == format);
        }
    }
    let extent = choose_extent(capabilities.current_extent);
    let present_mode = choose_present_mode(present_modes);
    let min_image_count = choose_image_count(
        capabilities.min_image_count,
        capabilities.max_image_count,
    );
    SwapchainPlan {
        min_image_count,
        format,
        extent,
        image_array_layers: 1,
        image_usage: SWAPCHAIN_IMAGE_USAGE,
        sharing_mode: SHARING_MODE_EXCLUSIVE,
        pre_transform: capabilities.current_transform,
        composite_alpha: COMPOSITE_ALPHA_OPAQUE,
        present_mode,
        clipped: true,
    }
}

} // verus!
