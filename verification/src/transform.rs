//! The three transforms. Each one first checks that the buffer is exactly a
//! frame of the declared dimensions and refuses it otherwise.

use crate::frame::{is_frame_len, lemma_row_fits, rgba_len, FrameError, ProcessedFrame};
use crate::imaging::{brighten_rgba, grayscale_rgba, lanczos3_outcome, resize_exact_lanczos3};
use crate::pixel::{
    bright_pixel, brightened, gray_pixel, grayscaled, lemma_brightened_pixel,
    lemma_brightened_saturates, lemma_grayscaled_pixel, pixel_at,
};
use vstd::prelude::*;

verus! {

/// Frames wider than this are downscaled by `process_frame`.
pub const MAX_PASSTHROUGH_WIDTH: u32 = 1920;

/// Width of a downscaled frame.
pub const TARGET_WIDTH: u32 = 1920;

/// Height of a downscaled frame.
pub const TARGET_HEIGHT: u32 = 1080;

/// The largest brightness delta that still makes a difference.
pub const MAX_DELTA: i32 = 255;

/// Whether this machine can address what a downscale from `width` needs on
/// the way: `TARGET_HEIGHT` rows of the source's width, sixteen bytes a pixel.
pub open spec fn can_downscale(width: u32) -> bool {
    16 * width * TARGET_HEIGHT <= isize::MAX
}

/// Tells whether `process_frame` can take a frame of this width on this
/// machine: it is no wider than `MAX_PASSTHROUGH_WIDTH`, or the downscale can
/// be addressed.
pub fn downscale_fits(width: u32) -> (fits: bool)
    ensures
        fits == (width > MAX_PASSTHROUGH_WIDTH ==> can_downscale(width)),
{
    if width <= MAX_PASSTHROUGH_WIDTH {
        return true;
    }
    let per_column: u128 = 16 * (TARGET_HEIGHT as u128);
    assert(per_column == 17280);
    let needed: u128 = per_column * (width as u128);
    needed <= isize::MAX as u128
}

/// Where pointers have 64 bits, every width can be downscaled.
pub proof fn lemma_can_downscale_64(width: u32)
    requires
        isize::MAX >= 0x7FFF_FFFF_FFFF_FFFF,
    ensures
        can_downscale(width),
{
}

/// Makes the result of a transform out of what the image operation gave:
/// the frame with these bytes and dimensions, or `InvalidBuffer` where the
/// operation took no image out of the buffer.
pub fn frame_or_invalid(data: Option<Vec<u8>>, width: u32, height: u32) -> (result: Result<
    ProcessedFrame,
    FrameError,
>)
    ensures
        data is None ==> result == Err::<ProcessedFrame, FrameError>(FrameError::InvalidBuffer),
        data matches Some(bytes) ==> result == Ok::<ProcessedFrame, FrameError>(
            ProcessedFrame { data: bytes, width, height },
        ),
{
    match data {
        Some(bytes) => Ok(ProcessedFrame { data: bytes, width, height }),
        None => Err(FrameError::InvalidBuffer),
    }
}

/// Brings a frame down to `TARGET_WIDTH` by `TARGET_HEIGHT` if it is wider
/// than `MAX_PASSTHROUGH_WIDTH`, and hands it back unchanged otherwise.
///
/// Only the width decides: the height is not looked at, and the target shape
/// is fixed, whatever the source's proportions. The downscale resamples with
/// a three-lobed Lanczos filter, in floating point: the resampled bytes are
/// an outcome of that filter on the source, `lanczos3_outcome`, and their
/// number is stated. A wide frame without rows comes back as a transparent
/// black frame of the target shape.
///
/// The precondition is a limit of the machine and is asked of frames only:
/// a buffer of the wrong length is refused whatever its declared width. See
/// `can_downscale`, and `downscale_fits` to test it.
pub fn process_frame(bytes: Vec<u8>, width: u32, height: u32) -> (result: Result<
    ProcessedFrame,
    FrameError,
>)
    requires
        bytes@.len() == rgba_len(width, height) && width > MAX_PASSTHROUGH_WIDTH ==> can_downscale(
            width,
        ),
    ensures
        result is Ok <==> bytes@.len() == rgba_len(width, height),
        result is Err ==> result == Err::<ProcessedFrame, FrameError>(FrameError::InvalidBuffer),
        result matches Ok(frame) ==> frame.well_formed(),
        result matches Ok(frame) ==> width <= MAX_PASSTHROUGH_WIDTH ==> frame.width == width
            && frame.height == height && frame.data@ == bytes@,
        result matches Ok(frame) ==> width > MAX_PASSTHROUGH_WIDTH ==> frame.width == TARGET_WIDTH
            && frame.height == TARGET_HEIGHT && frame.data@.len() == rgba_len(
            TARGET_WIDTH,
            TARGET_HEIGHT,
        ),
        result matches Ok(frame) ==> width > MAX_PASSTHROUGH_WIDTH ==> lanczos3_outcome(
            bytes@,
            width,
            height,
            TARGET_WIDTH,
            TARGET_HEIGHT,
            frame.data@,
        ),
        result matches Ok(frame) ==> width > MAX_PASSTHROUGH_WIDTH && height == 0
            ==> forall|i: int| 0 <= i < frame.data@.len() ==> frame.data@[i] == 0,
{
    if !is_frame_len(bytes.len(), width, height) {
        return Err(FrameError::InvalidBuffer);
    }
    if width <= MAX_PASSTHROUGH_WIDTH {
        return Ok(ProcessedFrame { data: bytes, width, height });
    }
    assert(height == 0 ==> width * height == 0) by (nonlinear_arith);
    let resampled = resize_exact_lanczos3(bytes, width, height, TARGET_WIDTH, TARGET_HEIGHT);
    frame_or_invalid(resampled, TARGET_WIDTH, TARGET_HEIGHT)
}

/// Takes the colour out of a frame: every pixel keeps its alpha and gets its
/// luma in red, green and blue. The dimensions stay. A frame without pixels
/// comes back as it is.
pub fn apply_grayscale(bytes: Vec<u8>, width: u32, height: u32) -> (result: Result<
    ProcessedFrame,
    FrameError,
>)
    ensures
        result is Ok <==> bytes@.len() == rgba_len(width, height),
        result is Err ==> result == Err::<ProcessedFrame, FrameError>(FrameError::InvalidBuffer),
        result matches Ok(frame) ==> frame.well_formed(),
        result matches Ok(frame) ==> frame.width == width && frame.height == height
            && frame.data@ == grayscaled(bytes@),
        result matches Ok(frame) ==> forall|p: int|
            0 <= p < width * height ==> #[trigger] pixel_at(frame.data@, p) == gray_pixel(
                pixel_at(bytes@, p),
            ),
        result matches Ok(frame) ==> forall|p: int|
            0 <= p < width * height ==> {
                let px = #[trigger] pixel_at(frame.data@, p);
                px.red == px.green && px.green == px.blue
            },
{
    if !is_frame_len(bytes.len(), width, height) {
        return Err(FrameError::InvalidBuffer);
    }
    if bytes.len() == 0 {
        assert(bytes@ =~= grayscaled(bytes@));
        return Ok(ProcessedFrame { data: bytes, width, height });
    }
    proof {
        lemma_row_fits(width, height);
        assert forall|p: int| 0 <= p < width * height implies #[trigger] pixel_at(
            grayscaled(bytes@),
            p,
        ) == gray_pixel(pixel_at(bytes@, p)) by {
            lemma_grayscaled_pixel(bytes@, p);
        }
    }
    frame_or_invalid(grayscale_rgba(bytes, width, height), width, height)
}

/// Adds `value` to the red, green and blue of every pixel, each channel
/// stopping at 0 and at 255; alpha and the dimensions stay. No delta is
/// refused: one beyond 255 in either direction saturates every channel.
/// A frame without pixels comes back as it is.
pub fn apply_brightness(bytes: Vec<u8>, width: u32, height: u32, value: i32) -> (result: Result<
    ProcessedFrame,
    FrameError,
>)
    ensures
        result is Ok <==> bytes@.len() == rgba_len(width, height),
        result is Err ==> result == Err::<ProcessedFrame, FrameError>(FrameError::InvalidBuffer),
        result matches Ok(frame) ==> frame.well_formed(),
        result matches Ok(frame) ==> frame.width == width && frame.height == height
            && frame.data@ == brightened(bytes@, value as int),
        result matches Ok(frame) ==> forall|p: int|
            0 <= p < width * height ==> #[trigger] pixel_at(frame.data@, p) == bright_pixel(
                pixel_at(bytes@, p),
                value as int,
            ),
{
    if !is_frame_len(bytes.len(), width, height) {
        return Err(FrameError::InvalidBuffer);
    }
    if bytes.len() == 0 {
        assert(bytes@ =~= brightened(bytes@, value as int));
        return Ok(ProcessedFrame { data: bytes, width, height });
    }
    // A larger delta saturates just the same, and this one keeps the sums
    // that the crate computes inside `i32`.
    let delta: i32 = if value > MAX_DELTA {
        MAX_DELTA
    } else {
        value
    };
    proof {
        lemma_row_fits(width, height);
        lemma_brightened_saturates(bytes@, value as int);
        assert(brightened(bytes@, delta as int) == brightened(bytes@, value as int));
        assert forall|p: int| 0 <= p < width * height implies #[trigger] pixel_at(
            brightened(bytes@, value as int),
            p,
        ) == bright_pixel(pixel_at(bytes@, p), value as int) by {
            lemma_brightened_pixel(bytes@, value as int, p);
        }
    }
    frame_or_invalid(brighten_rgba(bytes, width, height, delta), width, height)
}

} // verus!
