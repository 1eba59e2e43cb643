//! Input device protocol: a unified ring architecture for zero-copy event
//! delivery, with a classic single-event call as the slow-path fallback.

use vstd::prelude::*;

verus! {

/// Classic call for single-event retrieval (slow-path fallback).
pub const READ_EVENT: usize = 0x1;

/// Request the shared ring for zero-copy event delivery.
/// Args: requested entries (a power of two), capability slot for the
/// region. Reply: the region capability, mapped locally by the caller.
pub const SETUP_URING: usize = 0x2;

/// Ring opcode: read events.
pub const INPUT_OP_READ: u8 = 0x1;

/// Ring opcode: configure the device.
pub const INPUT_OP_CONFIG: u8 = 0x2;

// Event types
pub const EV_SYN: u16 = 0x00;
pub const EV_KEY: u16 = 0x01;
pub const EV_REL: u16 = 0x02;
pub const EV_ABS: u16 = 0x03;

/// One input event.
#[derive(Clone, Copy, Debug, PartialEq, Eq, Structural)]
pub struct InputEvent {
    /// Event type (`EV_*`).
    pub type_: u16,
    /// Event code within the type (`REL_*`, `KEY_*`, ...).
    pub code: u16,
    /// Event value: key state, relative movement, absolute position.
    pub value: i32,
    /// Timestamp in milliseconds.
    pub time_ms: u64,
}

impl Default for InputEvent {
    /// The all-zero event.
    fn default() -> (r: InputEvent)
        ensures
            r == (InputEvent { type_: 0, code: 0, value: 0, time_ms: 0 }),
    {
        InputEvent { type_: 0, code: 0, value: 0, time_ms: 0 }
    }
}

// Common relative-axis codes
pub const REL_X: u16 = 0x00;
pub const REL_Y: u16 = 0x01;
pub const REL_WHEEL: u16 = 0x08;

// Key codes (subset)
pub const KEY_ESC: u16 = 1;
pub const KEY_ENTER: u16 = 28;
pub const KEY_SPACE: u16 = 57;

/// Bytes one event occupies in the shared event ring region.
pub const INPUT_EVENT_SLOT_SIZE: usize = 80;

} // verus!
