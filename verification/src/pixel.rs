//! What the transforms mean, stated on the byte sequence of an RGBA frame.
//!
//! A frame is a sequence of bytes, four per pixel in the order red, green,
//! blue, alpha, rows one after another without padding. Byte `i` belongs to
//! pixel `i / 4` and is its channel `i % 4`.

use vstd::prelude::*;

verus! {

/// One pixel of a frame.
pub struct Pixel {
    pub red: u8,
    pub green: u8,
    pub blue: u8,
    pub alpha: u8,
}

/// The pixel with index `p` of a frame, counted row by row from the top left.
pub open spec fn pixel_at(bytes: Seq<u8>, p: int) -> Pixel
    recommends
        0 <= p,
        4 * p + 4 <= bytes.len(),
{
    Pixel {
        red: bytes[4 * p],
        green: bytes[4 * p + 1],
        blue: bytes[4 * p + 2],
        alpha: bytes[4 * p + 3],
    }
}

/// Perceptual brightness of a colour: the weights 0.2126, 0.7152 and 0.0722
/// for red, green and blue, in integer arithmetic, rounded down.
pub open spec fn luma(red: u8, green: u8, blue: u8) -> u8 {
    ((2126 * red + 7152 * green + 722 * blue) / 10000) as u8
}

/// A pixel without its colour: the three colour channels carry its luma, the
/// alpha channel stays.
pub open spec fn gray_pixel(px: Pixel) -> Pixel {
    let l = luma(px.red, px.green, px.blue);
    Pixel { red: l, green: l, blue: l, alpha: px.alpha }
}

/// The grayscale version of a frame, byte by byte.
pub open spec fn grayscaled(bytes: Seq<u8>) -> Seq<u8> {
    Seq::new(
        bytes.len(),
        |i: int|
            if i % 4 == 3 {
                bytes[i]
            } else {
                luma(bytes[i - i % 4], bytes[i - i % 4 + 1], bytes[i - i % 4 + 2])
            },
    )
}

/// The channel value nearest to `v`.
pub open spec fn saturate(v: int) -> u8 {
    if v < 0 {
        0u8
    } else if v > 255 {
        255u8
    } else {
        v as u8
    }
}

/// A pixel with `delta` added to each colour channel, each one saturating on
/// its own; the alpha channel stays.
pub open spec fn bright_pixel(px: Pixel, delta: int) -> Pixel {
    Pixel {
        red: saturate(px.red + delta),
        green: saturate(px.green + delta),
        blue: saturate(px.blue + delta),
        alpha: px.alpha,
    }
}

/// A frame with `delta` added to every colour channel, byte by byte.
pub open spec fn brightened(bytes: Seq<u8>, delta: int) -> Seq<u8> {
    Seq::new(
        bytes.len(),
        |i: int|
            if i % 4 == 3 {
                bytes[i]
            } else {
                saturate(bytes[i] + delta)
            },
    )
}

/// The luma of a colour is a channel value, so the conversion to `u8` in
/// `luma` loses nothing: the weights add up to one.
pub proof fn lemma_luma_in_range(red: u8, green: u8, blue: u8)
    ensures
        0 <= (2126 * red + 7152 * green + 722 * blue) / 10000 <= 255,
        luma(red, green, blue) == (2126 * red + 7152 * green + 722 * blue) / 10000,
{
}

/// A gray colour is its own luma.
pub proof fn lemma_luma_of_gray(level: u8)
    ensures
        luma(level, level, level) == level,
{
}

/// Every pixel of the grayscale frame is the gray version of the pixel at the
/// same place, so its red, green and blue are equal and its alpha is that of
/// the source pixel.
pub proof fn lemma_grayscaled_pixel(bytes: Seq<u8>, p: int)
    requires
        0 <= p,
        4 * p + 4 <= bytes.len(),
    ensures
        pixel_at(grayscaled(bytes), p) == gray_pixel(pixel_at(bytes, p)),
        pixel_at(grayscaled(bytes), p).red == pixel_at(grayscaled(bytes), p).green,
        pixel_at(grayscaled(bytes), p).green == pixel_at(grayscaled(bytes), p).blue,
        pixel_at(grayscaled(bytes), p).alpha == pixel_at(bytes, p).alpha,
{
}

/// Converting to grayscale twice changes nothing after the first time.
pub proof fn lemma_grayscaled_idempotent(bytes: Seq<u8>)
    requires
        bytes.len() % 4 == 0,
    ensures
        grayscaled(grayscaled(bytes)) == grayscaled(bytes),
{
    let once = grayscaled(bytes);
    assert forall|i: int| 0 <= i < bytes.len() implies #[trigger] grayscaled(once)[i] == once[i] by {
        if i % 4 != 3 {
            lemma_luma_of_gray(once[i - i % 4]);
        }
    }
    assert(grayscaled(once) =~= once);
}

/// Every pixel of the brightened frame is the brightened pixel at the same
/// place: each colour channel is the old one plus `delta`, kept within 0 and
/// 255, and alpha is unchanged.
pub proof fn lemma_brightened_pixel(bytes: Seq<u8>, delta: int, p: int)
    requires
        0 <= p,
        4 * p + 4 <= bytes.len(),
    ensures
        pixel_at(brightened(bytes, delta), p) == bright_pixel(pixel_at(bytes, p), delta),
{
}

/// A delta above 255 brightens no more than 255 does, and one below -255
/// darkens no more than -255 does.
pub proof fn lemma_brightened_saturates(bytes: Seq<u8>, delta: int)
    ensures
        delta >= 255 ==> brightened(bytes, delta) == brightened(bytes, 255),
        delta <= -255 ==> brightened(bytes, delta) == brightened(bytes, -255),
{
    if delta >= 255 {
        assert(brightened(bytes, delta) =~= brightened(bytes, 255));
    }
    if delta <= -255 {
        assert(brightened(bytes, delta) =~= brightened(bytes, -255));
    }
}

/// Brightening by zero changes nothing.
pub proof fn lemma_brightened_by_zero(bytes: Seq<u8>)
    ensures
        brightened(bytes, 0) == bytes,
{
    assert(brightened(bytes, 0) =~= bytes);
}

} // verus!
