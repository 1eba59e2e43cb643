//! Driver I/O transport for a capability-based microkernel: a client and a
//! device server exchange control requests over synchronous rendezvous
//! messages and bulk data operations over a pair of single-producer /
//! single-consumer ring queues held in a shared memory region.
//!
//! The crate verifies the core of that transport: the ring queue pair and its
//! wire layout, the session handshake state machine, the correlation-id
//! generator, the shared data buffer, and the per-device client logic built
//! on top of them. The kernel primitives themselves (rendezvous call,
//! capability transfer, notification) are outside the crate; callers perform
//! them and feed the resulting plain values back in.

pub mod caps;
pub mod client;
pub mod codec;
pub mod correlation;
pub mod error;
pub mod interface;
pub mod protocol;
pub mod ring;
pub mod session;
pub mod shm;
pub mod transport;
