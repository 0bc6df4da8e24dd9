//! Swapchain negotiation: surface-format and present-mode selection, extent
//! clamping, image-count selection and queue-sharing policy.
//!
//! Everything here is a pure decision over data queried from the driver by
//! the unverified shell; the shell passes the chosen [`SwapchainConfig`]
//! back to the driver verbatim.

use vstd::prelude::*;

verus! {

/// Format code of the preferred 8-bit BGRA sRGB surface format
/// (`VK_FORMAT_B8G8R8A8_SRGB`).
pub const FORMAT_B8G8R8A8_SRGB: u32 = 50;

/// Color-space code of the preferred sRGB non-linear color space
/// (`VK_COLOR_SPACE_SRGB_NONLINEAR_KHR`).
pub const COLOR_SPACE_SRGB_NONLINEAR: u32 = 0;

/// Present-mode code of the vsync'd FIFO mode (`VK_PRESENT_MODE_FIFO_KHR`),
/// the only mode the driver must always support.
pub const PRESENT_MODE_FIFO: u32 = 2;

/// A two-dimensional pixel extent.
#[derive(Clone, Copy, Debug, PartialEq, Eq, Structural)]
pub struct Extent2D {
    pub width: u32,
    pub height: u32,
}

/// A surface format paired with its color space.
#[derive(Clone, Copy, Debug, PartialEq, Eq, Structural)]
pub struct SurfaceFormat {
    pub format: u32,
    pub color_space: u32,
}

/// Surface capabilities reported by the driver for a physical device and
/// surface pair.
///
/// A `current_extent.width` equal to `u32::MAX` is the driver's sentinel for
/// "the surface size is determined by the swapchain"; otherwise the surface
/// size is fixed at `current_extent`.
#[derive(Clone, Copy, Debug, PartialEq, Eq, Structural)]
pub struct SurfaceCapabilities {
    pub min_image_count: u32,
    /// Zero means the image count is unbounded above.
    pub max_image_count: u32,
    pub current_extent: Extent2D,
    pub min_image_extent: Extent2D,
    pub max_image_extent: Extent2D,
    /// Transform flag bits to apply to the presented image.
    pub current_transform: u32,
}

/// Everything the swapchain plan needs to know about a surface: its
/// capabilities and the supported formats and present modes.
#[derive(Clone, Debug)]
pub struct SwapchainSupportInfo {
    pub capabilities: SurfaceCapabilities,
    pub available_formats: Vec<SurfaceFormat>,
    pub available_present_modes: Vec<u32>,
}

/// How the swapchain images are shared between the graphics and present
/// queue families.
#[derive(Clone, Copy, Debug, PartialEq, Eq, Structural)]
pub enum QueueSharing {
    /// One queue family owns the images exclusively.
    Exclusive,
    /// Graphics and presentation use distinct families, which share the
    /// images concurrently.
    Concurrent { graphics_family: u32, present_family: u32 },
}

/// The negotiated swapchain creation parameters.
#[derive(Clone, Copy, Debug, PartialEq, Eq, Structural)]
pub struct SwapchainConfig {
    pub format: u32,
    pub color_space: u32,
    pub present_mode: u32,
    pub extent: Extent2D,
    pub image_count: u32,
    pub sharing: QueueSharing,
    pub pre_transform: u32,
}

/// `x` limited to the inclusive range `[lo, hi]`.
pub open spec fn spec_clamp_u32(x: u32, lo: u32, hi: u32) -> u32 {
    if x < lo {
        lo
    } else if x > hi {
        hi
    } else {
        x
    }
}

/// Relies on `num::clamp`: returns the input if it lies in `[lo, hi]` and
/// the nearer bound otherwise. The bounds must be ordered, since the crate
/// asserts `lo <= hi` in debug builds.
#[verifier::external_body]
fn clamp_u32(x: u32, lo: u32, hi: u32) -> (r: u32)
    requires
        lo <= hi,
    ensures
        r == spec_clamp_u32(x, lo, hi),
{
    num::clamp(x, lo, hi)
}

/// Sanity conditions the driver guarantees for reported surface data, which
/// the planning functions rely on: at least one format, at least one present
/// mode, ordered extent bounds, and a representable minimum image count.
pub open spec fn support_wf(support: SwapchainSupportInfo) -> bool {
    &&& support.available_formats@.len() > 0
    &&& support.available_present_modes@.len() > 0
    &&& support.capabilities.min_image_extent.width <= support.capabilities.max_image_extent.width
    &&& support.capabilities.min_image_extent.height <= support.capabilities.max_image_extent.height
    &&& support.capabilities.min_image_count < u32::MAX
}

/// True for the preferred format pair: 8-bit BGRA sRGB with the sRGB
/// non-linear color space.
pub open spec fn is_preferred_format(f: SurfaceFormat) -> bool {
    f.format == FORMAT_B8G8R8A8_SRGB && f.color_space == COLOR_SPACE_SRGB_NONLINEAR
}

/// The chosen surface format: the preferred pair when the list offers it,
/// the first listed format otherwise.
pub open spec fn spec_choose_format(formats: Seq<SurfaceFormat>) -> SurfaceFormat
    recommends
        formats.len() > 0,
{
    if exists|i: int| 0 <= i < formats.len() && is_preferred_format(formats[i]) {
        SurfaceFormat { format: FORMAT_B8G8R8A8_SRGB, color_space: COLOR_SPACE_SRGB_NONLINEAR }
    } else {
        formats[0]
    }
}

/// Selects the surface format, preferring 8-bit BGRA sRGB with the sRGB
/// non-linear color space and deterministically falling back to the first
/// listed format.
pub fn choose_swapchain_format(available_formats: &Vec<SurfaceFormat>) -> (r: SurfaceFormat)
    requires
        available_formats@.len() > 0,
    ensures
        r == spec_choose_format(available_formats@),
        is_preferred_format(r) || r == available_formats@[0],
{
    let n: usize = available_formats.len();
    let mut i: usize = 0;
    while i < n
        invariant
            n == available_formats@.len(),
            0 <= i <= n,
            forall|j: int| 0 <= j < i ==> !is_preferred_format(available_formats@[j]),
        decreases n - i,
    {
        let f = available_formats[i];
        if f.format == FORMAT_B8G8R8A8_SRGB && f.color_space == COLOR_SPACE_SRGB_NONLINEAR {
            return f;
        }
        i = i + 1;
    }
    available_formats[0]
}

/// The chosen present mode is always FIFO, the one mode every driver
/// supports.
pub fn choose_swapchain_present_mode(available_present_modes: &Vec<u32>) -> (r: u32)
    ensures
        r == PRESENT_MODE_FIFO,
{
    let n: usize = available_present_modes.len();
    let mut i: usize = 0;
    while i < n
        invariant
            n == available_present_modes@.len(),
            0 <= i <= n,
        decreases n - i,
    {
        if available_present_modes[i] == PRESENT_MODE_FIFO {
            return available_present_modes[i];
        }
        i = i + 1;
    }
    PRESENT_MODE_FIFO
}

/// The chosen swapchain extent: the capability-fixed extent when the driver
/// reports one, otherwise the window size clamped component-wise to the
/// supported range.
pub open spec fn spec_choose_extent(caps: SurfaceCapabilities, size: [u32; 2]) -> Extent2D {
    if caps.current_extent.width != u32::MAX {
        caps.current_extent
    } else {
        Extent2D {
            width: spec_clamp_u32(size[0], caps.min_image_extent.width, caps.max_image_extent.width),
            height: spec_clamp_u32(
                size[1],
                caps.min_image_extent.height,
                caps.max_image_extent.height,
            ),
        }
    }
}

/// Selects the swapchain extent from the window size and the reported
/// capability range.
pub fn choose_swapchain_extent(caps: &SurfaceCapabilities, size: [u32; 2]) -> (r: Extent2D)
    requires
        caps.min_image_extent.width <= caps.max_image_extent.width,
        caps.min_image_extent.height <= caps.max_image_extent.height,
    ensures
        r == spec_choose_extent(*caps, size),
{
    if caps.current_extent.width != u32::MAX {
        caps.current_extent
    } else {
        Extent2D {
            width: clamp_u32(size[0], caps.min_image_extent.width, caps.max_image_extent.width),
            height: clamp_u32(size[1], caps.min_image_extent.height, caps.max_image_extent.height),
        }
    }
}

/// Swapchain extent clamping: when the capabilities fix the extent the fixed
/// extent is chosen regardless of the window size; otherwise the chosen
/// extent lies within `[min_image_extent, max_image_extent]` component-wise.
pub proof fn lemma_extent_clamped(caps: SurfaceCapabilities, size: [u32; 2])
    requires
        caps.min_image_extent.width <= caps.max_image_extent.width,
        caps.min_image_extent.height <= caps.max_image_extent.height,
    ensures
        caps.current_extent.width != u32::MAX ==> spec_choose_extent(caps, size)
            == caps.current_extent,
        caps.current_extent.width == u32::MAX ==> {
            let e = spec_choose_extent(caps, size);
            &&& caps.min_image_extent.width <= e.width <= caps.max_image_extent.width
            &&& caps.min_image_extent.height <= e.height <= caps.max_image_extent.height
        },
{
}

/// The chosen image count: one more than the reported minimum, clamped to
/// the reported maximum when that maximum is nonzero (zero meaning
/// unbounded).
pub open spec fn spec_image_count(caps: SurfaceCapabilities) -> u32
    recommends
        caps.min_image_count < u32::MAX,
{
    let desired = (caps.min_image_count + 1) as u32;
    if caps.max_image_count > 0 && caps.max_image_count < desired {
        caps.max_image_count
    } else {
        desired
    }
}

/// The image count honors the reported bounds: it is at least the minimum
/// and, when a nonzero maximum is reported that is no smaller than the
/// minimum, at most the maximum.
pub proof fn lemma_image_count_in_range(caps: SurfaceCapabilities)
    requires
        caps.min_image_count < u32::MAX,
        caps.max_image_count == 0 || caps.max_image_count >= caps.min_image_count,
    ensures
        spec_image_count(caps) >= caps.min_image_count,
        caps.max_image_count > 0 ==> spec_image_count(caps) <= caps.max_image_count,
{
}

/// The queue-sharing policy: exclusive ownership when graphics and
/// presentation use one family, concurrent sharing between the two families
/// otherwise.
pub open spec fn spec_choose_sharing(graphics_family: u32, present_family: u32) -> QueueSharing {
    if graphics_family != present_family {
        QueueSharing::Concurrent { graphics_family, present_family }
    } else {
        QueueSharing::Exclusive
    }
}

/// The complete negotiated swapchain configuration for the given surface
/// data, window size and queue families.
pub open spec fn spec_plan_swapchain(
    support: SwapchainSupportInfo,
    size: [u32; 2],
    graphics_family: u32,
    present_family: u32,
) -> SwapchainConfig
    recommends
        support_wf(support),
{
    SwapchainConfig {
        format: spec_choose_format(support.available_formats@).format,
        color_space: spec_choose_format(support.available_formats@).color_space,
        present_mode: PRESENT_MODE_FIFO,
        extent: spec_choose_extent(support.capabilities, size),
        image_count: spec_image_count(support.capabilities),
        sharing: spec_choose_sharing(graphics_family, present_family),
        pre_transform: support.capabilities.current_transform,
    }
}

/// Negotiates the swapchain creation parameters: format, present mode,
/// extent, image count and sharing policy.
pub fn plan_swapchain(
    support: &SwapchainSupportInfo,
    size: [u32; 2],
    graphics_family: u32,
    present_family: u32,
) -> (r: SwapchainConfig)
    requires
        support_wf(*support),
    ensures
        r == spec_plan_swapchain(*support, size, graphics_family, present_family),
{
    let surface_format = choose_swapchain_format(&support.available_formats);
    let present_mode = choose_swapchain_present_mode(&support.available_present_modes);
    let extent = choose_swapchain_extent(&support.capabilities, size);

    let image_count: u32 = support.capabilities.min_image_count + 1;
    let image_count: u32 = if support.capabilities.max_image_count > 0
        && support.capabilities.max_image_count < image_count {
        support.capabilities.max_image_count
    } else {
        image_count
    };

    let sharing = if graphics_family != present_family {
        QueueSharing::Concurrent { graphics_family, present_family }
    } else {
        QueueSharing::Exclusive
    };

    SwapchainConfig {
        format: surface_format.format,
        color_space: surface_format.color_space,
        present_mode,
        extent,
        image_count,
        sharing,
        pre_transform: support.capabilities.current_transform,
    }
}

} // verus!
