//! Plain-value models of the driver-reported capability data that the
//! selection policies read: extents, surface formats, present modes, surface
//! capabilities and per-queue-family support. The unverified host fills
//! these from the native structures before asking the library to decide.

use vstd::prelude::*;
use crate::error::BootstrapError;

verus! {

/// Width reported for the current extent when the windowing system leaves
/// the surface size undefined and the application must derive it.
pub const UNDEFINED_EXTENT_WIDTH: u32 = 0xffff_ffff;

/// Raw value of the preferred surface pixel format (B8G8R8 with sRGB
/// encoding).
pub const FORMAT_B8G8R8_SRGB: u32 = 36;

/// Raw value of the sRGB non-linear color space.
pub const COLOR_SPACE_SRGB_NONLINEAR: u32 = 0;

/// Raw value of the low-latency triple-buffered present mode.
pub const PRESENT_MODE_MAILBOX: u32 = 1;

/// Raw value of the universally supported queued (vsync) present mode.
pub const PRESENT_MODE_FIFO: u32 = 2;

/// A two-dimensional image size in pixels.
#[derive(Clone, Copy, Debug, PartialEq, Eq, Structural)]
pub struct Extent2D {
    pub width: u32,
    pub height: u32,
}

/// A surface format: a pixel format together with a color space, both as
/// the driver's raw enumeration values.
#[derive(Clone, Copy, Debug, PartialEq, Eq, Structural)]
pub struct SurfaceFormat {
    pub format: u32,
    pub color_space: u32,
}

/// Driver-reported limits and state of a presentation surface.
#[derive(Clone, Copy, Debug, PartialEq, Eq, Structural)]
pub struct SurfaceCapabilities {
    /// Fewest presentable images a swapchain on this surface may hold.
    pub min_image_count: u32,
    /// Most presentable images a swapchain may hold; zero means unbounded.
    pub max_image_count: u32,
    /// Current surface size, or `UNDEFINED_EXTENT_WIDTH` in `width` when
    /// the size is determined by the swapchain.
    pub current_extent: Extent2D,
    /// Smallest supported swapchain extent.
    pub min_image_extent: Extent2D,
    /// Largest supported swapchain extent.
    pub max_image_extent: Extent2D,
    /// Raw value of the transform currently applied to the surface.
    pub current_transform: u32,
}

/// What one queue family supports, as far as the policies care: whether its
/// queues can run graphics work, and whether they can present to the target
/// surface.
#[derive(Clone, Copy, Debug, PartialEq, Eq, Structural)]
pub struct QueueFamilySupport {
    pub graphics: bool,
    pub present: bool,
}

/// Everything the swapchain policies need to know about a (device, surface)
/// pair: its capabilities, the supported surface formats, and the supported
/// present modes (raw values).
#[derive(Debug)]
pub struct SwapchainSupportDetails {
    pub capabilities: SurfaceCapabilities,
    pub formats: Vec<SurfaceFormat>,
    pub present_modes: Vec<u32>,
}

/// The probed profile of one physical device, against which suitability is
/// judged: its queue families, the device extension names it offers, and
/// its swapchain support for the target surface.
#[derive(Debug)]
pub struct DeviceProfile {
    pub queue_families: Vec<QueueFamilySupport>,
    pub extension_names: Vec<String>,
    pub swapchain_support: SwapchainSupportDetails,
}

impl SwapchainSupportDetails {
    /// Assemble the support details from the three capability queries the
    /// host performed, failing with `QueryFailure` as soon as any of them
    /// reported an error (`None`).
    pub fn from_probe(
        capabilities: Option<SurfaceCapabilities>,
        formats: Option<Vec<SurfaceFormat>>,
        present_modes: Option<Vec<u32>>,
    ) -> (r: Result<Self, BootstrapError>)
        ensures
            match r {
                Ok(d) => {
                    &&& capabilities == Some(d.capabilities)
                    &&& formats == Some(d.formats)
                    &&& present_modes == Some(d.present_modes)
                },
                Err(e) => {
                    &&& e == BootstrapError::QueryFailure
                    &&& (capabilities is None || formats is None || present_modes is None)
                },
            },
    {
        match (capabilities, formats, present_modes) {
            (Some(capabilities), Some(formats), Some(present_modes)) => Ok(
                SwapchainSupportDetails { capabilities, formats, present_modes },
            ),
            _ => Err(BootstrapError::QueryFailure),
        }
    }
}

} // verus!
