//! I2C protocol.

use vstd::prelude::*;

verus! {

/// Read from a device. Args: address, length.
pub const READ: usize = 0x1;

/// Write to a device. Args: address, length.
pub const WRITE: usize = 0x2;

/// Write a command, then read the response under a repeated start.
/// Args: address, write length, read length.
pub const WRITE_READ: usize = 0x3;

/// Flag marking a 10-bit device address.
pub const I2C_ADDR_10BIT: u16 = 0x8000;

} // verus!
