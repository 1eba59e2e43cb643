//! The PCI client: configuration space access and interrupt enablement
//! for one addressed function.

use vstd::prelude::*;
use crate::caps::Endpoint;
use crate::protocol::{pci, ControlReply, ControlRequest, MsgTag, MSG_FLAG_NONE, PCI_PROTO};
use crate::protocol::pci::PciAddress;
use crate::session::{Session, SessionState};

verus! {

/// One client of a PCI service, bound to one function address.
pub struct PciClient {
    session: Session,
    address: PciAddress,
}

impl PciClient {
    /// The session under this client.
    pub closed spec fn session(self) -> Session {
        self.session
    }

    /// The function this client addresses.
    pub closed spec fn address_spec(self) -> PciAddress {
        self.address
    }

    /// The session is sound.
    pub open spec fn wf(self) -> bool {
        self.session().wf()
    }

    /// A fresh client over the given control endpoint, bound to one
    /// function.
    pub fn new(endpoint: Endpoint, address: PciAddress) -> (r: PciClient)
        ensures
            r.wf(),
            r.session().state() == SessionState::Uninitialized,
            r.session().control() == endpoint,
            r.address_spec() == address,
    {
        PciClient { session: Session::new(endpoint, PCI_PROTO), address }
    }

    /// The control request reading `size` bytes of configuration space at
    /// `offset`.
    pub fn read_config_request(&self, offset: usize, size: usize) -> (r: ControlRequest)
        ensures
            r.tag == (MsgTag { protocol: PCI_PROTO, opcode: pci::READ_CONFIG, flags: MSG_FLAG_NONE }),
            r.mrs[0] == offset as u64,
            r.mrs[1] == size as u64,
    {
        ControlRequest {
            tag: MsgTag::new(PCI_PROTO, pci::READ_CONFIG, MSG_FLAG_NONE),
            mrs: [offset as u64, size as u64, 0u64, 0u64, 0u64, 0u64, 0u64, 0u64],
            buffer: Vec::new(),
            cap_transfer: None,
            recv_window: None,
        }
    }

    /// The value of a configuration read reply.
    pub fn parse_read_config_reply(&self, reply: &ControlReply) -> (r: u32)
        ensures
            r == reply.mrs[0] as u32,
    {
        reply.mrs[0] as u32
    }

    /// The control request writing `size` bytes of configuration space
    /// at `offset`.
    pub fn write_config_request(&self, offset: usize, value: u32, size: usize) -> (r:
        ControlRequest)
        ensures
            r.tag == (MsgTag {
                protocol: PCI_PROTO,
                opcode: pci::WRITE_CONFIG,
                flags: MSG_FLAG_NONE,
            }),
            r.mrs[0] == offset as u64,
            r.mrs[1] == value as u64,
            r.mrs[2] == size as u64,
    {
        ControlRequest {
            tag: MsgTag::new(PCI_PROTO, pci::WRITE_CONFIG, MSG_FLAG_NONE),
            mrs: [offset as u64, value as u64, size as u64, 0u64, 0u64, 0u64, 0u64, 0u64],
            buffer: Vec::new(),
            cap_transfer: None,
            recv_window: None,
        }
    }

    /// The control request enabling bus mastering.
    pub fn enable_bus_master_request(&self) -> (r: ControlRequest)
        ensures
            r.tag == (MsgTag {
                protocol: PCI_PROTO,
                opcode: pci::ENABLE_BUS_MASTER,
                flags: MSG_FLAG_NONE,
            }),
    {
        ControlRequest {
            tag: MsgTag::new(PCI_PROTO, pci::ENABLE_BUS_MASTER, MSG_FLAG_NONE),
            mrs: crate::protocol::empty_mrs(),
            buffer: Vec::new(),
            cap_transfer: None,
            recv_window: None,
        }
    }

    /// The control request enabling MSI delivery to one vector.
    pub fn enable_msi_request(&self, vector: u8, dest_id: u32) -> (r: ControlRequest)
        ensures
            r.tag == (MsgTag { protocol: PCI_PROTO, opcode: pci::ENABLE_MSI, flags: MSG_FLAG_NONE }),
            r.mrs[0] == vector as u64,
            r.mrs[1] == dest_id as u64,
    {
        ControlRequest {
            tag: MsgTag::new(PCI_PROTO, pci::ENABLE_MSI, MSG_FLAG_NONE),
            mrs: [vector as u64, dest_id as u64, 0u64, 0u64, 0u64, 0u64, 0u64, 0u64],
            buffer: Vec::new(),
            cap_transfer: None,
            recv_window: None,
        }
    }

    /// The function this client addresses.
    pub fn get_address(&self) -> (r: PciAddress)
        ensures
            r == self.address_spec(),
    {
        self.address
    }
}

} // verus!
