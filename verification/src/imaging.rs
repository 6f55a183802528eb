//! The calls into the `image` crate. Nothing in this file is proved: each
//! function states what the crate's code does with an 8-bit RGBA image, and
//! the transforms are verified against these statements.
//!
//! Every function builds the image with `ImageBuffer::from_raw`, hands it to
//! one operation of `DynamicImage`, and takes the bytes of the result back
//! with `to_rgba8` and `into_raw`. `from_raw` returns an image whenever
//! `4 * width` and `4 * width * height` fit in `usize` and the buffer holds
//! at least that many bytes, which the preconditions see to: so each function
//! returns `Some`.
//!
//! The preconditions also leave out the inputs on which the crate is known
//! to panic:
//! - buffer sizes beyond what a `Vec` can hold;
//! - a sum that leaves `i32`, in `brighten`;
//! - an image without pixels, in `grayscale` and `brighten`: both walk the
//!   source with `GenericImageView::pixels`, which steps to the next row when
//!   a row is used up and so asks for a pixel that is not there when the
//!   width is 0 and there are two rows or more. `resize_exact` tests for an
//!   image without pixels before it samples.

use crate::frame::rgba_len;
use crate::pixel::{brightened, grayscaled};
use image::imageops::FilterType;
use image::{DynamicImage, RgbaImage};
use vstd::prelude::*;

verus! {

/// Holds of a source image, a target shape and the bytes `out` where `out` is
/// what `DynamicImage::resize_exact` with the filter `FilterType::Lanczos3`
/// returns for that source and shape.
///
/// It is a relation and not a function of the source: the filter weighs the
/// source pixels in floating point with a windowed sinc, and the precision of
/// the sine is the platform's, so two machines may round a channel
/// differently. Nothing is stated of it but that the crate's results are in
/// it.
pub uninterp spec fn lanczos3_outcome(
    bytes: Seq<u8>,
    width: u32,
    height: u32,
    nwidth: u32,
    nheight: u32,
    out: Seq<u8>,
) -> bool;

/// `DynamicImage::resize_exact` with the filter `FilterType::Lanczos3`.
///
/// The result is an outcome of that resampling and has exactly the requested
/// dimensions, whatever the shape of the source. Of the values that come out
/// nothing more is claimed: see `lanczos3_outcome`. A source without pixels
/// gives the filter nothing to sample, and the crate then returns a fresh
/// image, which is all zero.
///
/// On the way the crate holds `nheight` rows of the source's width with four
/// `f32` a pixel, hence the bound on `16 * width * nheight`.
#[verifier::external_body]
pub(crate) fn resize_exact_lanczos3(
    bytes: Vec<u8>,
    width: u32,
    height: u32,
    nwidth: u32,
    nheight: u32,
) -> (out: Option<Vec<u8>>)
    requires
        bytes@.len() == rgba_len(width, height),
        nwidth > 0,
        nheight > 0,
        16 * width * nheight <= isize::MAX,
        4 * nwidth * nheight <= isize::MAX,
    ensures
        out is Some,
        lanczos3_outcome(bytes@, width, height, nwidth, nheight, out.unwrap()@),
        out.unwrap()@.len() == rgba_len(nwidth, nheight),
        bytes@.len() == 0 ==> forall|i: int|
            0 <= i < out.unwrap()@.len() ==> out.unwrap()@[i] == 0,
{
    let source = RgbaImage::from_raw(width, height, bytes)?;
    let resized = DynamicImage::ImageRgba8(source).resize_exact(
        nwidth,
        nheight,
        FilterType::Lanczos3,
    );
    Some(resized.to_rgba8().into_raw())
}

/// `DynamicImage::grayscale`.
///
/// For an RGBA image the crate computes each pixel's luma as
/// `(2126 * r + 7152 * g + 722 * b) / 10000` in integers and keeps its alpha,
/// which gives a luma-alpha image. `to_rgba8` then repeats the luma in the
/// three colour channels; it takes each value through `f32` (times 1/255,
/// times 255, rounded to nearest), which gives every 8-bit value back.
/// The image must have pixels: the crate panics on one of width 0 with two
/// rows or more.
#[verifier::external_body]
pub(crate) fn grayscale_rgba(bytes: Vec<u8>, width: u32, height: u32) -> (out: Option<Vec<u8>>)
    requires
        bytes@.len() == rgba_len(width, height),
        bytes@.len() > 0,
        4 * width <= usize::MAX,
    ensures
        out is Some,
        out.unwrap()@ == grayscaled(bytes@),
{
    let source = RgbaImage::from_raw(width, height, bytes)?;
    Some(DynamicImage::ImageRgba8(source).grayscale().to_rgba8().into_raw())
}

/// `DynamicImage::brighten`.
///
/// The crate adds `value` to each colour channel as an `i32`, clamps the sum
/// to the range of a channel, and copies alpha. The sum must not leave `i32`,
/// and the image must have pixels: the crate panics on one of width 0 with
/// two rows or more.
#[verifier::external_body]
pub(crate) fn brighten_rgba(
    bytes: Vec<u8>,
    width: u32,
    height: u32,
    value: i32,
) -> (out: Option<Vec<u8>>)
    requires
        bytes@.len() == rgba_len(width, height),
        bytes@.len() > 0,
        4 * width <= usize::MAX,
        value + 255 <= i32::MAX,
    ensures
        out is Some,
        out.unwrap()@ == brightened(bytes@, value as int),
{
    let source = RgbaImage::from_raw(width, height, bytes)?;
    Some(DynamicImage::ImageRgba8(source).brighten(value).to_rgba8().into_raw())
}

} // verus!
