//! Timer device protocol.

use vstd::prelude::*;

verus! {

/// Get current UNIX time in seconds. Reply: seconds.
pub const GET_TIME: usize = 0x01;

/// Set current UNIX time in seconds. Arg: seconds.
pub const SET_TIME: usize = 0x02;

/// Set an alarm. Arg: UNIX timestamp.
pub const SET_ALARM: usize = 0x03;

/// Stop the alarm.
pub const STOP_ALARM: usize = 0x04;

/// Get the counter frequency. Reply: ticks per second.
pub const GET_FREQ: usize = 0x05;

} // verus!
