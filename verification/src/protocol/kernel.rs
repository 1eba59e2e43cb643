//! Message labels of kernel-reported faults and notifications.

use vstd::prelude::*;

verus! {

/// A system call from user mode. Registers: the call arguments.
pub const SYSCALL: usize = 0x01;

/// A page fault. Registers: address, program counter, cause.
pub const PAGE_FAULT: usize = 0x02;

/// An undefined or illegal instruction. Registers: instruction, program
/// counter.
pub const ILLEGAL_INSTRUCTION: usize = 0x03;

/// A breakpoint instruction. Register: program counter.
pub const BREAKPOINT: usize = 0x04;

/// An access to protected or absent memory. Registers: address, program
/// counter.
pub const ACCESS_FAULT: usize = 0x05;

/// A misaligned memory access. Registers: address, program counter.
pub const ACCESS_MISALIGNED: usize = 0x06;

/// An unclassified fault. Registers: cause, value, program counter.
pub const UNKNOWN_FAULT: usize = 0x07;

/// An asynchronous notification; the badge carries the event bits.
pub const NOTIFY: usize = 0x08;

} // verus!
