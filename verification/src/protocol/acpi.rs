//! ACPI-specific protocol.

use vstd::prelude::*;

verus! {

/// Evaluate an ACPI method. Args: the method path and its arguments,
/// serialized into the inline buffer.
pub const EVAL_METHOD: usize = 0x01;

} // verus!
