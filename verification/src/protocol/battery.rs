//! Battery and power status protocol.

use vstd::prelude::*;

verus! {

/// Get the power source. Reply: 1 for mains, 0 for battery.
pub const GET_POWER_SOURCE: usize = 0x01;

/// Get the battery level. Reply: percentage, 0 to 100.
pub const GET_LEVEL: usize = 0x02;

/// Get the battery status (charging, discharging). Reply: status code.
pub const GET_STATUS: usize = 0x03;

/// Get the battery temperature. Reply: tenths of a kelvin.
pub const GET_TEMPERATURE: usize = 0x04;

} // verus!
