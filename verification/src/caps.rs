//! Models of the kernel capabilities the transport passes around.
//!
//! A capability is named here by the slot number under which the owning
//! process addresses it. The kernel alone enforces unforgeability and
//! performs the transfer; this crate only routes the tokens.

use vstd::prelude::*;

verus! {

/// A capability slot naming a rendezvous or notification endpoint.
#[derive(Clone, Copy, Debug, PartialEq, Eq, Structural)]
pub struct Endpoint {
    /// The capability slot under which this process addresses the endpoint.
    pub cap: u64,
}

/// The badge a kernel message carries to identify its sender or event
/// bits.
#[derive(Clone, Copy, Debug, PartialEq, Eq, Structural)]
pub struct Badge {
    /// The badge value.
    pub value: u64,
}

/// A token naming a page-aligned memory region, transferable exactly once
/// per handshake message; after the transfer both parties may map the
/// region into their own address space.
#[derive(Clone, Copy, Debug, PartialEq, Eq, Structural)]
pub struct MemoryRegionHandle {
    /// The capability slot under which this process addresses the region.
    pub cap: u64,
}

} // verus!
