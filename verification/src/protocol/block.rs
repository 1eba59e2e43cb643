//! Block device protocol (ring only).

use vstd::prelude::*;
use crate::protocol::{IOURING_OP_READ, IOURING_OP_SYNC, IOURING_OP_WRITE};
use crate::ring::Sqe;

verus! {

/// Get device capacity in blocks.
pub const GET_CAPACITY: usize = 0x1;

/// Get block size in bytes.
pub const GET_BLOCK_SIZE: usize = 0x2;

/// Set up partition info (optional, for multi-partition devices).
/// Args: start sector, sector count.
pub const SETUP_PARTITION: usize = 0x3;

/// Set up the ring pair, the primary I/O channel.
/// Args: submission entries, completion entries. Reply: region capability.
pub const SETUP_RING: usize = 0x10;

/// Set up the shared data buffer for I/O payloads.
/// Args: pages when creating, empty when requesting. Reply: region
/// capability.
pub const SETUP_BUFFER: usize = 0x11;

/// Notify the driver that new requests sit in the submission queue.
pub const NOTIFY_SQ: usize = 0x12;

/// Asynchronous notification of an I/O completion.
pub const NOTIFY_IO: usize = 0x20;

/// The entry a read submission carries.
pub open spec fn sqe_read_spec(sector: u64, addr: u64, len: u32, user_data: u64) -> Sqe {
    Sqe { opcode: IOURING_OP_READ, flags: 0, off: sector, addr, len, user_data }
}

/// The entry a write submission carries.
pub open spec fn sqe_write_spec(sector: u64, addr: u64, len: u32, user_data: u64) -> Sqe {
    Sqe { opcode: IOURING_OP_WRITE, flags: 0, off: sector, addr, len, user_data }
}

/// A read submission: `sector` and `len` in the device's units, `addr`
/// inside the shared data buffer.
pub fn sqe_read(sector: u64, addr: u64, len: u32, user_data: u64) -> (r: Sqe)
    ensures
        r == sqe_read_spec(sector, addr, len, user_data),
{
    Sqe { opcode: IOURING_OP_READ, flags: 0, off: sector, addr, len, user_data }
}

/// A write submission.
pub fn sqe_write(sector: u64, addr: u64, len: u32, user_data: u64) -> (r: Sqe)
    ensures
        r == sqe_write_spec(sector, addr, len, user_data),
{
    Sqe { opcode: IOURING_OP_WRITE, flags: 0, off: sector, addr, len, user_data }
}

/// A sync submission: no payload, only a correlation id.
pub fn sqe_sync(user_data: u64) -> (r: Sqe)
    ensures
        r == (Sqe { opcode: IOURING_OP_SYNC, flags: 0, off: 0, addr: 0, len: 0, user_data }),
{
    Sqe { opcode: IOURING_OP_SYNC, flags: 0, off: 0, addr: 0, len: 0, user_data }
}

/// One block request as carried by the partition setup call.
#[derive(Clone, Copy, Debug, PartialEq, Eq, Structural)]
pub struct BlockRequest {
    /// First sector of the request.
    pub sector: u64,
    /// Number of sectors.
    pub count: u32,
    /// Device-defined flag bits.
    pub flags: u32,
}

impl Default for BlockRequest {
    /// The all-zero request.
    fn default() -> (r: BlockRequest)
        ensures
            r == (BlockRequest { sector: 0, count: 0, flags: 0 }),
    {
        BlockRequest { sector: 0, count: 0, flags: 0 }
    }
}

} // verus!
