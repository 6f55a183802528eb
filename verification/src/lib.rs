//! Stateless transforms on raw RGBA frames: metadata, conditional downscale,
//! grayscale and brightness.
//!
//! A frame is a buffer of `width * height * 4` bytes, four per pixel in the
//! order red, green, blue, alpha, row by row. The resampling, the luma
//! conversion and the brightening are the work of the `image` crate; this
//! library decides what is a frame, when a frame is downscaled, and states
//! what each transform returns.

pub mod frame;
pub mod imaging;
pub mod pixel;
pub mod transform;

pub use frame::{get_frame_info, FrameError, FrameInfo, ProcessedFrame};
pub use transform::{apply_brightness, apply_grayscale, process_frame};
