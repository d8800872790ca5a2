//! Validation of the opaque shader blobs handed to pipeline creation: the
//! native call reads the code as 32-bit words, so a byte length that is
//! zero or not word-aligned is a programming-contract failure caught here,
//! before any handle is created.

use vstd::prelude::*;
use crate::error::{BootstrapError, Violation};

verus! {

/// A shader blob's byte length is well-formed: nonzero and a whole number
/// of 32-bit words.
pub open spec fn valid_shader_len(n: nat) -> bool {
    n > 0 && n % 4 == 0
}

/// Check an opaque shader blob before it is handed to the native shader
/// module creation call.
pub fn check_shader_code(code: &Vec<u8>) -> (r: Result<(), BootstrapError>)
    ensures
        r is Ok <==> valid_shader_len(code@.len()),
        r is Err ==> r == Result::<(), BootstrapError>::Err(
            BootstrapError::ContractViolation(Violation::ShaderCodeLength),
        ),
{
    if code.len() > 0 && code.len() % 4 == 0 {
        Ok(())
    } else {
        Err(BootstrapError::ContractViolation(Violation::ShaderCodeLength))
    }
}

} // verus!
