//! Per-device client facades: each wraps one session and exposes the
//! control-plane calls and data-plane operations of its device class.
//!
//! Every facade follows the same split: it builds control requests and
//! judges replies as plain values, validates and submits data-plane
//! operations into the ring, and matches completions by correlation id.
//! The kernel calls in between — rendezvous, notification, blocking — are
//! the surrounding program's.

pub mod acpi;
pub mod battery;
pub mod block;
pub mod fb;
pub mod input;
pub mod net;
pub mod pci;
pub mod platform;
pub mod thermal;
pub mod timer;
pub mod uart;
