//! Framebuffer protocol.

use vstd::prelude::*;

verus! {

/// Get display information.
pub const GET_INFO: usize = 0x1;

/// Flush a rectangle. Args: x, y, width, height.
pub const FLUSH: usize = 0x2;

/// Display geometry and the placement of its pixel memory.
#[derive(Clone, Copy, Debug, PartialEq, Eq, Structural)]
pub struct FbInfo {
    /// Visible width in pixels.
    pub width: u32,
    /// Visible height in pixels.
    pub height: u32,
    /// Bytes per scanline.
    pub pitch: u32,
    /// Pixel format code.
    pub format: u32,
    /// Bits per pixel.
    pub bpp: u32,
    /// Physical address of the pixel memory.
    pub paddr: usize,
    /// Size of the pixel memory in bytes.
    pub size: usize,
}

impl Default for FbInfo {
    /// The all-zero information record.
    fn default() -> (r: FbInfo)
        ensures
            r == (FbInfo { width: 0, height: 0, pitch: 0, format: 0, bpp: 0, paddr: 0, size: 0 }),
    {
        FbInfo { width: 0, height: 0, pitch: 0, format: 0, bpp: 0, paddr: 0, size: 0 }
    }
}

pub const MODE_INPUT: u8 = 0;
pub const MODE_OUTPUT: u8 = 1;
pub const MODE_ALT: u8 = 2;

} // verus!
