//! Physical device suitability and selection, and the queue family list a
//! logical device is configured with.

use vstd::prelude::*;
use crate::error::{BootstrapError, Constraint};
use crate::model::DeviceProfile;
use crate::policy::{contains_all, name_present, names_subset};
use crate::queues::{find_queue_family, has_graphics, has_present};

verus! {

/// Name of the one device-level extension the bootstrap requires: the
/// swapchain extension.
pub open spec fn swapchain_extension_name() -> Seq<char> {
    "VK_KHR_swapchain"@
}

/// The required device extension names, as handed to the creation call.
pub fn required_device_extensions() -> (v: Vec<String>)
    ensures
        v@.len() == 1,
        v@[0]@ == swapchain_extension_name(),
{
    let mut v: Vec<String> = Vec::new();
    v.push("VK_KHR_swapchain".to_owned());
    v
}

/// Every required device extension occurs in the probed list.
pub open spec fn device_extensions_supported(available: Seq<String>) -> bool {
    name_present(available, swapchain_extension_name())
}

/// Check the probed device extension names against the required ones.
pub fn check_device_extension_support(available: &Vec<String>) -> (r: bool)
    ensures
        r == device_extensions_supported(available@),
{
    let required = required_device_extensions();
    let r = contains_all(&required, available);
    proof {
        if names_subset(required@, available@) {
            assert(name_present(available@, required@[0]@));
        }
        if name_present(available@, swapchain_extension_name()) {
            assert forall|i: int| 0 <= i < required@.len() implies name_present(
                available@,
                required@[i]@,
            ) by {
                assert(required@[i]@ == swapchain_extension_name());
            }
        }
    }
    r
}

/// A device can run this application: queue family selection is complete,
/// the required device extensions are present, and the device reports at
/// least one surface format and one present mode for the target surface.
pub open spec fn spec_device_suitable(p: DeviceProfile) -> bool {
    &&& has_graphics(p.queue_families@)
    &&& has_present(p.queue_families@)
    &&& device_extensions_supported(p.extension_names@)
    &&& p.swapchain_support.formats@.len() > 0
    &&& p.swapchain_support.present_modes@.len() > 0
}

/// Judge one probed device profile.
pub fn is_device_suitable(profile: &DeviceProfile) -> (r: bool)
    requires
        profile.queue_families@.len() <= u32::MAX,
    ensures
        r == spec_device_suitable(*profile),
{
    let indices = find_queue_family(&profile.queue_families);
    let extensions_supported = check_device_extension_support(&profile.extension_names);
    let swapchain_adequate = if extensions_supported {
        profile.swapchain_support.formats.len() > 0 && profile.swapchain_support.present_modes.len()
            > 0
    } else {
        false
    };
    indices.is_complete() && extensions_supported && swapchain_adequate
}

/// Pick the first suitable device in driver-enumeration order, returning
/// its position in the probed list; fail with an unsupported-configuration
/// error exactly when no device (or none at all) is suitable.
pub fn pick_physical_device(profiles: &Vec<DeviceProfile>) -> (r: Result<usize, BootstrapError>)
    requires
        forall|i: int|
            0 <= i < profiles@.len() ==> (#[trigger] profiles@[i]).queue_families@.len()
                <= u32::MAX,
    ensures
        match r {
            Ok(i) => {
                &&& i < profiles@.len()
                &&& spec_device_suitable(profiles@[i as int])
                &&& forall|j: int| 0 <= j < i ==> !spec_device_suitable(profiles@[j])
            },
            Err(e) => {
                &&& e == BootstrapError::UnsupportedConfiguration(Constraint::SuitableDevice)
                &&& forall|j: int|
                    0 <= j < profiles@.len() ==> !spec_device_suitable(profiles@[j])
            },
        },
{
    let mut i: usize = 0;
    while i < profiles.len()
        invariant
            i <= profiles@.len(),
            forall|k: int|
                0 <= k < profiles@.len() ==> (#[trigger] profiles@[k]).queue_families@.len()
                    <= u32::MAX,
            forall|j: int| 0 <= j < i ==> !spec_device_suitable(profiles@[j]),
        decreases profiles@.len() - i,
    {
        if is_device_suitable(&profiles[i]) {
            return Ok(i);
        }
        i += 1;
    }
    Err(BootstrapError::UnsupportedConfiguration(Constraint::SuitableDevice))
}

/// The distinct queue families a logical device needs queues from: the
/// graphics family, and the present family when it differs. Order is the
/// discovery order (graphics first), as handed to device creation.
pub fn unique_queue_families(graphics_family: u32, present_family: u32) -> (v: Vec<u32>)
    ensures
        graphics_family == present_family ==> v@ == seq![graphics_family],
        graphics_family != present_family ==> v@ == seq![graphics_family, present_family],
{
    let mut v: Vec<u32> = Vec::new();
    v.push(graphics_family);
    if graphics_family != present_family {
        v.push(present_family);
        proof {
            assert(v@ =~= seq![graphics_family, present_family]);
        }
    } else {
        proof {
            assert(v@ =~= seq![graphics_family]);
        }
    }
    v
}

} // verus!
