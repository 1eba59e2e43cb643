//! GPIO protocol.

use vstd::prelude::*;

verus! {

/// Select a pin mode. Args: pin, mode.
pub const SET_MODE: usize = 0x1;

/// Drive a pin. Args: pin, value.
pub const WRITE: usize = 0x2;

/// Sample a pin. Arg: pin; reply: value.
pub const READ: usize = 0x3;

} // verus!
