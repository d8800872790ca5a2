//! Swapchain parameter negotiation: choose the surface format, present
//! mode, extent, image count and sharing mode from the probed support, by
//! deterministic preference rules, and assemble them into one plan that
//! the host hands to the native creation call.

use vstd::prelude::*;
use crate::error::{BootstrapError, Violation};
use crate::model::{
    Extent2D, SurfaceCapabilities, SurfaceFormat, SwapchainSupportDetails, COLOR_SPACE_SRGB_NONLINEAR,
    FORMAT_B8G8R8_SRGB, PRESENT_MODE_FIFO, PRESENT_MODE_MAILBOX, UNDEFINED_EXTENT_WIDTH,
};
use crate::policy::{clamp, spec_clamp};
use crate::queues::QueueFamilyIndices;

verus! {

/// The preferred surface format: B8G8R8 sRGB pixels in the sRGB
/// non-linear color space.
pub open spec fn preferred_surface_format() -> SurfaceFormat {
    SurfaceFormat { format: FORMAT_B8G8R8_SRGB, color_space: COLOR_SPACE_SRGB_NONLINEAR }
}

/// Format choice: the preferred pair when the list offers it, else the
/// list's first entry.
pub open spec fn spec_choose_format(formats: Seq<SurfaceFormat>) -> SurfaceFormat {
    if formats.contains(preferred_surface_format()) {
        preferred_surface_format()
    } else {
        formats[0]
    }
}

/// Present mode choice: the low-latency mailbox mode when offered, else
/// the always-available queued (vsync) mode.
pub open spec fn spec_choose_present_mode(modes: Seq<u32>) -> u32 {
    if modes.contains(PRESENT_MODE_MAILBOX) {
        PRESENT_MODE_MAILBOX
    } else {
        PRESENT_MODE_FIFO
    }
}

/// Image count choice: one more than the reported minimum, clamped down to
/// the reported maximum when a nonzero maximum is specified (a zero
/// maximum means unbounded).
pub open spec fn spec_choose_image_count(caps: SurfaceCapabilities) -> u32 {
    if caps.max_image_count > 0 && caps.min_image_count + 1 > caps.max_image_count {
        caps.max_image_count
    } else {
        (caps.min_image_count + 1) as u32
    }
}

/// How the swapchain images are shared between the queue families.
#[derive(Debug, PartialEq, Eq)]
pub enum SharingPlan {
    /// One family owns the images exclusively; no family-index list is
    /// attached.
    Exclusive,
    /// Graphics and present families differ: the images are shared
    /// concurrently across the listed families, in discovery order.
    Concurrent { family_indices: Vec<u32> },
}

/// Everything the native swapchain creation call needs, as negotiated
/// from the probed support.
#[derive(Debug, PartialEq, Eq)]
pub struct SwapchainConfig {
    pub format: SurfaceFormat,
    pub present_mode: u32,
    pub extent: Extent2D,
    pub image_count: u32,
    pub pre_transform: u32,
    pub sharing: SharingPlan,
}

impl SwapchainSupportDetails {
    /// Select the surface format: an exact match on the preferred
    /// (format, color space) pair when present, else the first available
    /// entry.
    pub fn choose_swap_surface_format(available_formats: &Vec<SurfaceFormat>) -> (r: SurfaceFormat)
        requires
            available_formats@.len() > 0,
        ensures
            r == spec_choose_format(available_formats@),
    {
        let mut i: usize = 0;
        while i < available_formats.len()
            invariant
                i <= available_formats@.len(),
                forall|j: int|
                    0 <= j < i ==> available_formats@[j] != preferred_surface_format(),
            decreases available_formats@.len() - i,
        {
            let fmt = available_formats[i];
            if fmt.format == FORMAT_B8G8R8_SRGB && fmt.color_space == COLOR_SPACE_SRGB_NONLINEAR {
                return fmt;
            }
            i += 1;
        }
        proof {
            assert(!available_formats@.contains(preferred_surface_format()));
        }
        available_formats[0]
    }

    /// Select the present mode: mailbox when available, else fifo.
    pub fn choose_swap_present_mode(available_present_modes: &Vec<u32>) -> (r: u32)
        ensures
            r == spec_choose_present_mode(available_present_modes@),
    {
        let mut i: usize = 0;
        while i < available_present_modes.len()
            invariant
                i <= available_present_modes@.len(),
                forall|j: int| 0 <= j < i ==> available_present_modes@[j] != PRESENT_MODE_MAILBOX,
            decreases available_present_modes@.len() - i,
        {
            if available_present_modes[i] == PRESENT_MODE_MAILBOX {
                return PRESENT_MODE_MAILBOX;
            }
            i += 1;
        }
        proof {
            assert(!available_present_modes@.contains(PRESENT_MODE_MAILBOX));
        }
        PRESENT_MODE_FIFO
    }

    /// Select the swapchain extent. When the driver reports a defined
    /// current extent it is used verbatim; when the current extent is the
    /// undefined sentinel, the window's size (in physical pixels divided
    /// by the display scale factor, as supplied by the host) is clamped
    /// dimension by dimension into the reported bounds. Malformed bounds
    /// (`min >= max` in either dimension) are a contract violation.
    pub fn choose_swap_extent(
        capabilities: &SurfaceCapabilities,
        window_width: u32,
        window_height: u32,
    ) -> (r: Result<Extent2D, BootstrapError>)
        ensures
            match r {
                Ok(e) => {
                    &&& capabilities.current_extent.width != UNDEFINED_EXTENT_WIDTH ==> e
                        == capabilities.current_extent
                    &&& capabilities.current_extent.width == UNDEFINED_EXTENT_WIDTH ==> {
                        &&& capabilities.min_image_extent.width
                            < capabilities.max_image_extent.width
                        &&& capabilities.min_image_extent.height
                            < capabilities.max_image_extent.height
                        &&& e.width == spec_clamp(
                            window_width,
                            capabilities.min_image_extent.width,
                            capabilities.max_image_extent.width,
                        )
                        &&& e.height == spec_clamp(
                            window_height,
                            capabilities.min_image_extent.height,
                            capabilities.max_image_extent.height,
                        )
                        &&& capabilities.min_image_extent.width <= e.width
                            <= capabilities.max_image_extent.width
                        &&& capabilities.min_image_extent.height <= e.height
                            <= capabilities.max_image_extent.height
                    }
                },
                Err(err) => {
                    &&& err == BootstrapError::ContractViolation(Violation::ExtentBoundsInverted)
                    &&& capabilities.current_extent.width == UNDEFINED_EXTENT_WIDTH
                    &&& !(capabilities.min_image_extent.width < capabilities.max_image_extent.width
                        && capabilities.min_image_extent.height
                        < capabilities.max_image_extent.height)
                },
            },
    {
        if capabilities.current_extent.width != UNDEFINED_EXTENT_WIDTH {
            return Ok(capabilities.current_extent);
        }

        if !(capabilities.min_image_extent.width < capabilities.max_image_extent.width
            && capabilities.min_image_extent.height < capabilities.max_image_extent.height) {
            return Err(BootstrapError::ContractViolation(Violation::ExtentBoundsInverted));
        }

        let width = clamp(
            window_width,
            capabilities.min_image_extent.width,
            capabilities.max_image_extent.width,
        );
        let height = clamp(
            window_height,
            capabilities.min_image_extent.height,
            capabilities.max_image_extent.height,
        );
        Ok(Extent2D { width, height })
    }

    /// Select the number of swapchain images.
    pub fn choose_image_count(capabilities: &SurfaceCapabilities) -> (r: u32)
        requires
            capabilities.min_image_count < u32::MAX,
        ensures
            r == spec_choose_image_count(*capabilities),
            capabilities.max_image_count == 0 || capabilities.min_image_count + 1
                <= capabilities.max_image_count ==> r == capabilities.min_image_count + 1,
            capabilities.max_image_count > 0 && capabilities.min_image_count + 1
                > capabilities.max_image_count ==> r == capabilities.max_image_count,
    {
        let mut image_count = capabilities.min_image_count + 1;
        if capabilities.max_image_count > 0 && image_count > capabilities.max_image_count {
            image_count = capabilities.max_image_count;
        }
        image_count
    }
}

/// Select the sharing mode: concurrent across the two families (graphics
/// first, as discovered) when they differ, exclusive when they coincide.
pub fn choose_sharing(graphics_family: u32, present_family: u32) -> (r: SharingPlan)
    ensures
        graphics_family == present_family ==> r is Exclusive,
        graphics_family != present_family ==> {
            &&& r is Concurrent
            &&& r->family_indices@ == seq![graphics_family, present_family]
        },
{
    if graphics_family != present_family {
        let mut family_indices: Vec<u32> = Vec::new();
        family_indices.push(graphics_family);
        family_indices.push(present_family);
        proof {
            assert(family_indices@ =~= seq![graphics_family, present_family]);
        }
        SharingPlan::Concurrent { family_indices }
    } else {
        SharingPlan::Exclusive
    }
}

/// Negotiate the whole swapchain configuration from the probed support,
/// the window's logical size, and the completed queue family selection.
/// Fails exactly when the extent rules are violated (undefined current
/// extent with malformed clamp bounds).
pub fn plan_swapchain(
    support: &SwapchainSupportDetails,
    window_width: u32,
    window_height: u32,
    indices: &QueueFamilyIndices,
) -> (r: Result<SwapchainConfig, BootstrapError>)
    requires
        support.formats@.len() > 0,
        support.present_modes@.len() > 0,
        support.capabilities.min_image_count < u32::MAX,
        indices.spec_complete(),
    ensures
        match r {
            Ok(c) => {
                &&& c.format == spec_choose_format(support.formats@)
                &&& c.present_mode == spec_choose_present_mode(support.present_modes@)
                &&& c.image_count == spec_choose_image_count(support.capabilities)
                &&& c.pre_transform == support.capabilities.current_transform
                &&& support.capabilities.current_extent.width != UNDEFINED_EXTENT_WIDTH ==> c.extent
                    == support.capabilities.current_extent
                &&& support.capabilities.current_extent.width == UNDEFINED_EXTENT_WIDTH ==> {
                    &&& c.extent.width == spec_clamp(
                        window_width,
                        support.capabilities.min_image_extent.width,
                        support.capabilities.max_image_extent.width,
                    )
                    &&& c.extent.height == spec_clamp(
                        window_height,
                        support.capabilities.min_image_extent.height,
                        support.capabilities.max_image_extent.height,
                    )
                }
                &&& indices.graphics_family->0 == indices.present_family->0 ==> c.sharing
                    is Exclusive
                &&& indices.graphics_family->0 != indices.present_family->0 ==> {
                    &&& c.sharing is Concurrent
                    &&& c.sharing->family_indices@ == seq![
                        indices.graphics_family->0,
                        indices.present_family->0,
                    ]
                }
            },
            Err(err) => {
                &&& err == BootstrapError::ContractViolation(Violation::ExtentBoundsInverted)
                &&& support.capabilities.current_extent.width == UNDEFINED_EXTENT_WIDTH
                &&& !(support.capabilities.min_image_extent.width
                    < support.capabilities.max_image_extent.width
                    && support.capabilities.min_image_extent.height
                    < support.capabilities.max_image_extent.height)
            },
        },
{
    let format = SwapchainSupportDetails::choose_swap_surface_format(&support.formats);
    let present_mode = SwapchainSupportDetails::choose_swap_present_mode(&support.present_modes);
    let extent = match SwapchainSupportDetails::choose_swap_extent(
        &support.capabilities,
        window_width,
        window_height,
    ) {
        Ok(e) => e,
        Err(err) => {
            return Err(err);
        },
    };
    let image_count = SwapchainSupportDetails::choose_image_count(&support.capabilities);
    let graphics_family = match indices.graphics_family {
        Some(g) => g,
        None => unreached(),
    };
    let present_family = match indices.present_family {
        Some(p) => p,
        None => unreached(),
    };
    let sharing = choose_sharing(graphics_family, present_family);
    Ok(
        SwapchainConfig {
            format,
            present_mode,
            extent,
            image_count,
            pre_transform: support.capabilities.current_transform,
            sharing,
        },
    )
}

} // verus!
