//! The frame types, the size of a frame, and the metadata query.

use vstd::prelude::*;

verus! {

/// Number of bytes of a tightly packed RGBA frame of the given dimensions:
/// four per pixel.
pub open spec fn rgba_len(width: u32, height: u32) -> nat {
    (width * height * 4) as nat
}

/// Metadata about a frame, as the caller declared it.
#[derive(Debug, Clone, Copy)]
pub struct FrameInfo {
    pub width: u32,
    pub height: u32,
    pub size_bytes: u64,
}

/// A transformed frame: RGBA bytes, row by row, with their dimensions.
#[derive(Debug)]
pub struct ProcessedFrame {
    pub data: Vec<u8>,
    pub width: u32,
    pub height: u32,
}

impl ProcessedFrame {
    /// The bytes are exactly those of a frame of the stated dimensions.
    pub open spec fn well_formed(&self) -> bool {
        self.data@.len() == rgba_len(self.width, self.height)
    }
}

/// Why a transform refused its input.
#[derive(Debug, Clone, Copy, PartialEq, Eq)]
pub enum FrameError {
    /// The buffer does not hold exactly `width * height * 4` bytes.
    InvalidBuffer,
}

/// Reports the declared dimensions and the byte count of a buffer. Nothing is
/// checked: the byte count need not agree with the dimensions.
pub fn get_frame_info(bytes: Vec<u8>, width: u32, height: u32) -> (info: FrameInfo)
    ensures
        info.width == width,
        info.height == height,
        info.size_bytes == bytes@.len(),
{
    FrameInfo { width, height, size_bytes: bytes.len() as u64 }
}

/// Tells whether a buffer of `len` bytes is exactly a frame of the given
/// dimensions.
pub fn is_frame_len(len: usize, width: u32, height: u32) -> (fits: bool)
    ensures
        fits == (len == rgba_len(width, height)),
{
    assert(width * height <= 0xFFFF_FFFF * 0xFFFF_FFFF) by (nonlinear_arith)
        requires
            0 <= width <= 0xFFFF_FFFF,
            0 <= height <= 0xFFFF_FFFF,
    ;
    let pixels: u128 = (width as u128) * (height as u128);
    let expected: u128 = 4 * pixels;
    len as u128 == expected
}

/// A frame that is not empty has at least one row, so a row of it is no
/// longer than the whole.
pub proof fn lemma_row_fits(width: u32, height: u32)
    requires
        rgba_len(width, height) > 0,
    ensures
        width > 0,
        height > 0,
        4 * width <= rgba_len(width, height),
{
    assert(width > 0 && height > 0 && 4 * width <= width * height * 4) by (nonlinear_arith)
        requires
            width * height * 4 > 0,
            width >= 0,
            height >= 0,
    ;
}

} // verus!
