//! PCI/PCIe protocol.

use vstd::prelude::*;

verus! {

/// Read from configuration space. Args: offset, access size.
pub const READ_CONFIG: usize = 0x01;

/// Write to configuration space. Args: offset, value, access size.
pub const WRITE_CONFIG: usize = 0x02;

/// Enable bus mastering.
pub const ENABLE_BUS_MASTER: usize = 0x03;

/// Enable MSI delivery. Args: vector, destination id.
pub const ENABLE_MSI: usize = 0x04;

// Standard configuration space offsets
pub const PCI_VENDOR_ID: usize = 0x00;
pub const PCI_DEVICE_ID: usize = 0x02;
pub const PCI_COMMAND: usize = 0x04;
pub const PCI_STATUS: usize = 0x06;
pub const PCI_CLASS_REV: usize = 0x08;
pub const PCI_HEADER_TYPE: usize = 0x0E;
pub const PCI_BAR0: usize = 0x10;
pub const PCI_CAPABILITY_LIST: usize = 0x34;

// Command register bits
pub const PCI_CMD_IO: u16 = 0x1;
pub const PCI_CMD_MEM: u16 = 0x2;
pub const PCI_CMD_BUS_MASTER: u16 = 0x4;
pub const PCI_CMD_INTX_DISABLE: u16 = 0x400;

/// The location of one PCI function.
#[derive(Clone, Copy, Debug, PartialEq, Eq, Structural)]
pub struct PciAddress {
    /// PCI segment group.
    pub segment: u16,
    /// Bus number.
    pub bus: u8,
    /// Device number on the bus.
    pub device: u8,
    /// Function number of the device.
    pub function: u8,
}

impl Default for PciAddress {
    /// The all-zero address.
    fn default() -> (r: PciAddress)
        ensures
            r == (PciAddress { segment: 0, bus: 0, device: 0, function: 0 }),
    {
        PciAddress { segment: 0, bus: 0, device: 0, function: 0 }
    }
}

} // verus!
