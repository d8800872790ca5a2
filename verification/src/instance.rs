//! Instance-level configuration: the validation layer gate and the
//! instance extension list. The same diagnostics flag decides the layer
//! list, the extra debug extension, and (through the lifecycle order) the
//! debug messenger step — creation and destruction always paired.

use vstd::prelude::*;
use crate::error::{BootstrapError, Constraint};
use crate::policy::{contains_all, name_present, names_subset};

verus! {

/// Name of the one validation layer requested when diagnostics are on.
pub open spec fn validation_layer_name() -> Seq<char> {
    "VK_LAYER_KHRONOS_validation"@
}

/// Name of the instance extension that carries diagnostic messages.
pub open spec fn debug_utils_extension_name() -> Seq<char> {
    "VK_EXT_debug_utils"@
}

/// The validation layer names requested when diagnostics are enabled.
pub fn required_validation_layers() -> (v: Vec<String>)
    ensures
        v@.len() == 1,
        v@[0]@ == validation_layer_name(),
{
    let mut v: Vec<String> = Vec::new();
    v.push("VK_LAYER_KHRONOS_validation".to_owned());
    v
}

/// Every requested validation layer occurs in the probed layer list.
pub open spec fn validation_layers_supported(available: Seq<String>) -> bool {
    name_present(available, validation_layer_name())
}

/// Check the probed instance layer names against the requested validation
/// layers.
pub fn check_validation_layer_support(available_layers: &Vec<String>) -> (r: bool)
    ensures
        r == validation_layers_supported(available_layers@),
{
    let required = required_validation_layers();
    let r = contains_all(&required, available_layers);
    proof {
        if names_subset(required@, available_layers@) {
            assert(name_present(available_layers@, required@[0]@));
        }
        if name_present(available_layers@, validation_layer_name()) {
            assert forall|i: int| 0 <= i < required@.len() implies name_present(
                available_layers@,
                required@[i]@,
            ) by {
                assert(required@[i]@ == validation_layer_name());
            }
        }
    }
    r
}

/// The instance extensions to enable: the platform's surface-integration
/// extensions as reported by the windowing collaborator, plus the
/// debug-utils extension exactly when diagnostics are enabled.
pub fn get_required_extensions(platform_extensions: Vec<String>, validation_enabled: bool) -> (v:
    Vec<String>)
    ensures
        !validation_enabled ==> v@ == platform_extensions@,
        validation_enabled ==> {
            &&& v@.len() == platform_extensions@.len() + 1
            &&& forall|i: int|
                0 <= i < platform_extensions@.len() ==> v@[i] == platform_extensions@[i]
            &&& v@[platform_extensions@.len() as int]@ == debug_utils_extension_name()
        },
{
    let mut v = platform_extensions;
    if validation_enabled {
        v.push("VK_EXT_debug_utils".to_owned());
    }
    v
}

/// What the native instance creation call is configured with.
#[derive(Debug)]
pub struct InstancePlan {
    /// Whether diagnostics were requested; gates the layer list, the debug
    /// extension, and the debug messenger step.
    pub validation_enabled: bool,
    /// Layer names to enable: the validation layers, or empty.
    pub enabled_layers: Vec<String>,
    /// Instance extension names to enable.
    pub extensions: Vec<String>,
}

/// Decide the instance configuration. When diagnostics are requested but
/// the probed layers cannot satisfy them, the configuration is
/// unsupported; otherwise the plan carries the layer and extension lists
/// for the creation call.
pub fn plan_instance(
    validation_enabled: bool,
    available_layers: &Vec<String>,
    platform_extensions: Vec<String>,
) -> (r: Result<InstancePlan, BootstrapError>)
    ensures
        match r {
            Ok(p) => {
                &&& validation_enabled ==> validation_layers_supported(available_layers@)
                &&& p.validation_enabled == validation_enabled
                &&& !validation_enabled ==> {
                    &&& p.enabled_layers@.len() == 0
                    &&& p.extensions@ == platform_extensions@
                }
                &&& validation_enabled ==> {
                    &&& p.enabled_layers@.len() == 1
                    &&& p.enabled_layers@[0]@ == validation_layer_name()
                    &&& p.extensions@.len() == platform_extensions@.len() + 1
                    &&& forall|i: int|
                        0 <= i < platform_extensions@.len() ==> p.extensions@[i]
                            == platform_extensions@[i]
                    &&& p.extensions@[platform_extensions@.len() as int]@
                        == debug_utils_extension_name()
                }
            },
            Err(e) => {
                &&& e == BootstrapError::UnsupportedConfiguration(Constraint::ValidationLayers)
                &&& validation_enabled
                &&& !validation_layers_supported(available_layers@)
            },
        },
{
    if validation_enabled && !check_validation_layer_support(available_layers) {
        return Err(BootstrapError::UnsupportedConfiguration(Constraint::ValidationLayers));
    }
    let enabled_layers = if validation_enabled {
        required_validation_layers()
    } else {
        Vec::new()
    };
    let extensions = get_required_extensions(platform_extensions, validation_enabled);
    Ok(InstancePlan { validation_enabled, enabled_layers, extensions })
}

} // verus!
