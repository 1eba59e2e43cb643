//! UART device protocol.

use vstd::prelude::*;
use crate::protocol::{IOURING_OP_READ, IOURING_OP_WRITE};
use crate::ring::Sqe;

verus! {

/// Write a single character.
pub const PUT_CHAR: usize = 0x01;

/// Read a single character.
pub const GET_CHAR: usize = 0x02;

/// Write a string through the inline message buffer.
pub const PUT_STR: usize = 0x03;

/// Set the line speed.
pub const SET_BAUD_RATE: usize = 0x04;

/// Read the line configuration.
pub const GET_CONFIG: usize = 0x05;

/// Set up the ring pair, the primary I/O channel.
/// Args: submission entries, completion entries. Reply: region capability.
pub const SETUP_RING: usize = 0x10;

/// Set up the shared data buffer for I/O payloads.
pub const SETUP_BUFFER: usize = 0x11;

/// Notify the driver that new requests sit in the submission queue.
pub const NOTIFY_SQ: usize = 0x12;

/// Asynchronous notification of an I/O completion.
pub const NOTIFY_IO: usize = 0x20;

/// The entry a read submission carries.
pub open spec fn sqe_read_spec(addr: u64, len: u32, user_data: u64) -> Sqe {
    Sqe { opcode: IOURING_OP_READ, flags: 0, off: 0, addr, len, user_data }
}

/// The entry a write submission carries.
pub open spec fn sqe_write_spec(addr: u64, len: u32, user_data: u64) -> Sqe {
    Sqe { opcode: IOURING_OP_WRITE, flags: 0, off: 0, addr, len, user_data }
}

/// A read submission: `addr` and `len` locate the landing area in the
/// shared data buffer.
pub fn sqe_read(addr: u64, len: u32, user_data: u64) -> (r: Sqe)
    ensures
        r == sqe_read_spec(addr, len, user_data),
{
    Sqe { opcode: IOURING_OP_READ, flags: 0, off: 0, addr, len, user_data }
}

/// A write submission: `addr` and `len` locate the payload in the shared
/// data buffer.
pub fn sqe_write(addr: u64, len: u32, user_data: u64) -> (r: Sqe)
    ensures
        r == sqe_write_spec(addr, len, user_data),
{
    Sqe { opcode: IOURING_OP_WRITE, flags: 0, off: 0, addr, len, user_data }
}

/// One serial line configuration.
#[derive(Clone, Copy, Debug, PartialEq, Eq, Structural)]
pub struct UartConfig {
    /// Line speed in bits per second.
    pub baud_rate: u32,
    /// Data bits per frame.
    pub data_bits: u8,
    /// Stop bits per frame.
    pub stop_bits: u8,
    /// Parity mode.
    pub parity: u8,
}

impl Default for UartConfig {
    /// The all-zero configuration.
    fn default() -> (r: UartConfig)
        ensures
            r == (UartConfig { baud_rate: 0, data_bits: 0, stop_bits: 0, parity: 0 }),
    {
        UartConfig { baud_rate: 0, data_bits: 0, stop_bits: 0, parity: 0 }
    }
}

} // verus!
