//! SDIO device protocol.

use vstd::prelude::*;

verus! {

/// Send one command. Arg: the command; reply: four response words.
pub const SEND_COMMAND: usize = 0x01;

/// Read data blocks. Arg: the command; payload in the shared buffer.
pub const READ_BLOCKS: usize = 0x02;

/// Write data blocks. Arg: the command; payload in the shared buffer.
pub const WRITE_BLOCKS: usize = 0x03;

/// Select the bus width. Arg: width code.
pub const SET_BUS_WIDTH: usize = 0x04;

/// Select the clock rate. Arg: frequency in hertz.
pub const SET_CLOCK: usize = 0x05;

/// One SDIO command.
#[derive(Clone, Copy, Debug, PartialEq, Eq, Structural)]
pub struct SdioCommand {
    /// Command index.
    pub cmd: u8,
    /// Command argument.
    pub arg: u32,
    /// Expected response format (`RESP_*`).
    pub response_type: u8,
}

pub const RESP_NONE: u8 = 0;
pub const RESP_R1: u8 = 1;
pub const RESP_R1B: u8 = 2;
pub const RESP_R2: u8 = 3;
pub const RESP_R3: u8 = 4;
pub const RESP_R6: u8 = 5;
pub const RESP_R7: u8 = 6;

pub const BUS_WIDTH_1: u8 = 0;
pub const BUS_WIDTH_4: u8 = 1;
pub const BUS_WIDTH_8: u8 = 2;

} // verus!
