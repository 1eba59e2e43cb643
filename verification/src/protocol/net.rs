//! Ethernet device protocol (ring only).

use vstd::prelude::*;
use crate::ring::Sqe;

verus! {

/// Get the MAC address.
pub const GET_MAC: usize = 0x1;

/// Set up the ring pair, the primary I/O channel.
/// Args: submission entries, completion entries. Reply: region capability.
pub const SETUP_RING: usize = 0x10;

/// Set up the shared data buffer for packet payloads.
pub const SETUP_BUFFER: usize = 0x11;

/// Notify a submission queue update.
pub const NOTIFY_SQ: usize = 0x12;

/// Asynchronous notification of a packet RX/TX completion.
pub const NOTIFY_IO: usize = 0x20;

/// Ring opcode: transmit a packet.
pub const OP_SEND: u8 = 10;

/// Ring opcode: receive a packet.
pub const OP_RECV: u8 = 11;

/// The entry a transmit submission carries.
pub open spec fn sqe_send_spec(addr: u64, len: u32, user_data: u64) -> Sqe {
    Sqe { opcode: OP_SEND, flags: 0, off: 0, addr, len, user_data }
}

/// The entry a receive submission carries.
pub open spec fn sqe_recv_spec(addr: u64, len: u32, user_data: u64) -> Sqe {
    Sqe { opcode: OP_RECV, flags: 0, off: 0, addr, len, user_data }
}

/// A transmit submission: `addr` and `len` locate the packet in the
/// shared data buffer.
pub fn sqe_send(addr: u64, len: u32, user_data: u64) -> (r: Sqe)
    ensures
        r == sqe_send_spec(addr, len, user_data),
{
    Sqe { opcode: OP_SEND, flags: 0, off: 0, addr, len, user_data }
}

/// A receive submission: `addr` and `len` locate the landing area in the
/// shared data buffer.
pub fn sqe_recv(addr: u64, len: u32, user_data: u64) -> (r: Sqe)
    ensures
        r == sqe_recv_spec(addr, len, user_data),
{
    Sqe { opcode: OP_RECV, flags: 0, off: 0, addr, len, user_data }
}

/// A 48-bit Ethernet hardware address.
#[derive(Clone, Copy, Debug)]
pub struct MacAddress {
    /// The six address octets, most significant first.
    pub octets: [u8; 6],
}

impl Default for MacAddress {
    /// The all-zero address.
    fn default() -> (r: MacAddress)
        ensures
            r == (MacAddress { octets: [0u8, 0u8, 0u8, 0u8, 0u8, 0u8] }),
    {
        MacAddress { octets: [0u8, 0u8, 0u8, 0u8, 0u8, 0u8] }
    }
}

} // verus!
