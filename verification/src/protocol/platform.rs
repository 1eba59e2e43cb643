//! Generic platform and system protocol, common to firmware-described
//! machines.

use vstd::prelude::*;

verus! {

/// Set the sleep state. Arg: state, 1 to 4.
pub const SET_SLEEP_STATE: usize = 0x01;

/// Reset the system. Arg: 0 for warm, 1 for cold.
pub const SYSTEM_RESET: usize = 0x02;

/// Shut the system down.
pub const SYSTEM_OFF: usize = 0x03;

} // verus!
