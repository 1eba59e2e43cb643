//! The message-tag scheme shared by handshake and control-plane calls, the
//! protocol ids of the device classes, and the per-device operation
//! catalogs.
//!
//! A control-plane exchange is modelled by plain values: the request a
//! caller builds here is handed to the kernel's rendezvous primitive by the
//! surrounding program, and the reply registers come back the same way.

pub mod acpi;
pub mod battery;
pub mod block;
pub mod fb;
pub mod gpio;
pub mod i2c;
pub mod input;
pub mod kernel;
pub mod net;
pub mod pci;
pub mod platform;
pub mod sdio;
pub mod spi;
pub mod thermal;
pub mod timer;
pub mod uart;
pub mod usb;
pub mod wifi;

use vstd::prelude::*;

verus! {

pub const KERNEL_PROTO: usize = 0x100;

// Core system
pub const PCI_PROTO: usize = 0x301;
pub const IOMMU_PROTO: usize = 0x302;
pub const UART_PROTO: usize = 0x303;
pub const TIMER_PROTO: usize = 0x30F;
pub const SDIO_PROTO: usize = 0x310;
pub const PLATFORM_PROTO: usize = 0x311;
pub const ACPI_PROTO: usize = 0x312;
pub const THERMAL_PROTO: usize = 0x313;
pub const BATTERY_PROTO: usize = 0x314;

// Storage and network
pub const BLOCK_PROTO: usize = 0x304;
pub const NET_PROTO: usize = 0x305;
pub const IB_PROTO: usize = 0x306;
pub const WIFI_PROTO: usize = 0x307;

// Human interface
pub const INPUT_PROTO: usize = 0x308;
pub const FB_PROTO: usize = 0x309;

// Peripheral bus
pub const USB_PROTO: usize = 0x30A;
pub const SPI_PROTO: usize = 0x30B;
pub const I2C_PROTO: usize = 0x30C;
pub const GPIO_PROTO: usize = 0x30D;
pub const RNG_PROTO: usize = 0x30E;

// Driver interface, shared across device classes
pub const GET_DESC: usize = 1;
pub const GET_MMIO: usize = 2;
pub const MAP_MMIO: usize = 2;
pub const GET_IRQ: usize = 3;
pub const MAP_IRQ: usize = 3;
pub const SCAN_PLATFORM: usize = 4;
pub const FIND_COMPATIBLE: usize = 5;
pub const ALLOC_DMA: usize = 6;
pub const FREE_DMA: usize = 7;

// Ring opcodes shared by block and serial devices
pub const IOURING_OP_READ: u8 = 1;
pub const IOURING_OP_WRITE: u8 = 2;
pub const IOURING_OP_SYNC: u8 = 3;

/// No flag bit set.
pub const MSG_FLAG_NONE: u32 = 0;
/// The reply reports success.
pub const MSG_FLAG_OK: u32 = 1;
/// A capability rides along with the message.
pub const MSG_FLAG_HAS_CAP: u32 = 2;
/// The inline byte buffer of the message is in use.
pub const MSG_FLAG_HAS_BUFFER: u32 = 4;

/// Number of scalar message registers a rendezvous message carries.
pub const MSG_REGISTERS: usize = 8;

/// Capacity in bytes of the inline buffer of one rendezvous message.
pub const IPC_BUFFER_SIZE: usize = 512;

/// The tag of a rendezvous message: which protocol, which operation, and
/// the flag bits.
#[derive(Clone, Copy, Debug, PartialEq, Eq, Structural)]
pub struct MsgTag {
    /// Protocol id of the device class.
    pub protocol: usize,
    /// Operation code within the protocol.
    pub opcode: usize,
    /// Flag bits (`MSG_FLAG_*`).
    pub flags: u32,
}

impl MsgTag {
    /// Builds a tag from its three parts.
    pub fn new(protocol: usize, opcode: usize, flags: u32) -> (r: MsgTag)
        ensures
            r == (MsgTag { protocol, opcode, flags }),
    {
        MsgTag { protocol, opcode, flags }
    }
}

/// One control-plane request as handed to the rendezvous call primitive:
/// a tag, the scalar registers, an optional inline byte buffer, at most
/// one capability to transfer, and an optional slot designated to accept
/// a capability from the reply.
pub struct ControlRequest {
    /// The message tag.
    pub tag: MsgTag,
    /// The scalar message registers, in order.
    pub mrs: [u64; 8],
    /// Bytes of the inline buffer, empty when unused.
    pub buffer: Vec<u8>,
    /// Capability slot transferred with the message, if any.
    pub cap_transfer: Option<u64>,
    /// Capability slot designated to receive an incoming capability.
    pub recv_window: Option<u64>,
}

/// The reply side of one control-plane exchange, reduced to plain values.
pub struct ControlReply {
    /// Whether the reply tag carried the success flag.
    pub ok: bool,
    /// The scalar message registers of the reply, in order.
    pub mrs: [u64; 8],
    /// Bytes of the inline reply buffer, empty when unused.
    pub buffer: Vec<u8>,
    /// Capability received into the designated window, if any.
    pub cap: Option<u64>,
}

/// Eight zeroed message registers.
pub fn empty_mrs() -> (r: [u64; 8])
    ensures
        forall|i: int| 0 <= i < 8 ==> r[i] == 0u64,
{
    [0u64, 0u64, 0u64, 0u64, 0u64, 0u64, 0u64, 0u64]
}

} // verus!
