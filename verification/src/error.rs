//! Error taxonomy of the transport.

use vstd::prelude::*;

verus! {

/// Every failure the transport reports to a caller.
///
/// `Full` and `Empty` are ring-level backpressure conditions, handled by the
/// transport's own poll loops and not fatal; the rest surface to the device
/// facades.
#[derive(Clone, Copy, Debug, PartialEq, Eq, Structural)]
pub enum Error {
    /// An operation was attempted before the handshake completed.
    NotInitialized,
    /// A misaligned offset or length, an oversize request relative to the
    /// shared buffer, or a non-power-of-two ring capacity.
    InvalidArgs,
    /// A ring queue has no space for another entry.
    Full,
    /// A non-blocking poll found no entry; a normal result, not a fault.
    Empty,
    /// A remote-reported failure: a negative completion result or a rejected
    /// handshake.
    Generic,
    /// Region allocation failed during the handshake, or a ring push was
    /// refused at the transport layer.
    OutOfMemory,
}

} // verus!
