//! SPI protocol.

use vstd::prelude::*;

verus! {

/// Full-duplex transfer.
pub const TRANSFER: usize = 0x01;

/// Configure the bus. Args: speed in hertz, mode.
pub const CONFIG: usize = 0x02;

// Clock polarity and phase modes
pub const MODE_0: u8 = 0;
pub const MODE_1: u8 = 1;
pub const MODE_2: u8 = 2;
pub const MODE_3: u8 = 3;

} // verus!
