//! The error taxonomy of the bootstrap sequence. Every fatal condition is
//! reported as a typed value naming the step or constraint that failed;
//! nothing in this library panics.

use vstd::prelude::*;
use crate::lifecycle::StepKind;

verus! {

/// A configuration constraint that the probed environment failed to meet.
#[derive(Clone, Copy, Debug, PartialEq, Eq, Structural)]
pub enum Constraint {
    /// The requested validation layers are not all available.
    ValidationLayers,
    /// No enumerated physical device was suitable.
    SuitableDevice,
}

/// A programming-contract failure: malformed input that a correct caller
/// never produces.
#[derive(Clone, Copy, Debug, PartialEq, Eq, Structural)]
pub enum Violation {
    /// A clamp interval with `min >= max` in some dimension.
    ExtentBoundsInverted,
    /// A shader blob whose byte length is zero or not a multiple of the
    /// SPIR-V word size.
    ShaderCodeLength,
}

/// A fatal bootstrap error. All variants abort the bootstrap; a
/// `CreationFailure` additionally obliges the caller to tear down every
/// resource created so far, in reverse creation order.
#[derive(Clone, Copy, Debug, PartialEq, Eq, Structural)]
pub enum BootstrapError {
    /// The driver refused a capability query.
    QueryFailure,
    /// The environment cannot satisfy the named constraint.
    UnsupportedConfiguration(Constraint),
    /// The native creation call for the named step failed.
    CreationFailure(StepKind),
    /// A programming error was caught at a contract boundary.
    ContractViolation(Violation),
}

} // verus!
