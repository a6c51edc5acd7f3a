//! Pixel operations that the `image` crate performs for this library.
//!
//! Each function here hands plain buffers to one function of the crate and
//! returns a plain buffer. Their contracts are taken from the crate's source
//! and are not proved.

use image::imageops;
use image::DynamicImage;
use image::ImageBuffer;
use image::Rgba;
use image::RgbaImage;
use vstd::prelude::*;

use crate::frame::{buffer_len, channel_index, column_of, row_of};

verus! {

/// Whether a buffer of `bytes` bytes can be allocated at all.
pub open spec fn addressable(bytes: int) -> bool {
    bytes <= isize::MAX
}

/// The pixels of the `side` by `side` square whose top left corner is at
/// `(x, y)` of an image that is `width` pixels wide.
pub open spec fn cropped(width: u32, pixels: Seq<u8>, x: u32, y: u32, side: u32) -> Seq<u8> {
    Seq::new(
        buffer_len(side as int, side as int) as nat,
        |k: int|
            pixels[channel_index(
                width as int,
                x + column_of(side as int, k),
                y + row_of(side as int, k),
                k % 4,
            )],
    )
}

/// A canvas of `side` by `side` transparent black pixels.
pub open spec fn blank(side: u32) -> Seq<u8> {
    Seq::new(buffer_len(side as int, side as int) as nat, |k: int| 0u8)
}

/// The canvas after a `width` by `height` image was laid over it with its top
/// left corner at `(x, y)`. What a translucent pixel becomes is computed by
/// the `image` crate in floating point and has no formula here.
pub uninterp spec fn overlaid(
    side: u32,
    canvas: Seq<u8>,
    width: u32,
    height: u32,
    pixels: Seq<u8>,
    x: u32,
    y: u32,
) -> Seq<u8>;

/// Whether byte `k` of a canvas that is `side` pixels wide belongs to a pixel
/// under a `width` by `height` image placed at `(x, y)`.
pub open spec fn covered(side: u32, width: u32, height: u32, x: u32, y: u32, k: int) -> bool {
    &&& x <= column_of(side as int, k) < x + width
    &&& y <= row_of(side as int, k) < y + height
}

/// The byte of the image that lies over byte `k` of the canvas, where `shift`
/// picks the channel.
pub open spec fn covering(
    side: u32,
    width: u32,
    pixels: Seq<u8>,
    x: u32,
    y: u32,
    k: int,
    shift: int,
) -> u8 {
    pixels[channel_index(
        width as int,
        column_of(side as int, k) - x,
        row_of(side as int, k) - y,
        shift,
    )]
}

/// What is known of `result`, the canvas after the overlay, byte by byte: a
/// byte that the image does not cover, or covers with a fully transparent
/// pixel, is the canvas's; one under a fully opaque pixel is the image's.
pub open spec fn overlay_keeps(
    side: u32,
    canvas: Seq<u8>,
    width: u32,
    height: u32,
    pixels: Seq<u8>,
    x: u32,
    y: u32,
    result: Seq<u8>,
) -> bool {
    &&& result.len() == canvas.len()
    &&& forall|k: int|
        #![trigger result[k]]
        0 <= k < result.len() && (!covered(side, width, height, x, y, k) || covering(
            side,
            width,
            pixels,
            x,
            y,
            k,
            3,
        ) == 0) ==> result[k] == canvas[k]
    &&& forall|k: int|
        #![trigger result[k]]
        0 <= k < result.len() && covered(side, width, height, x, y, k) && covering(
            side,
            width,
            pixels,
            x,
            y,
            k,
            3,
        ) == 255 ==> result[k] == covering(side, width, pixels, x, y, k, k % 4)
}

/// Whether an image of `side` by `side` pixels can be sampled down or up to
/// `target` by `target`: the rows of floats between the two passes and the
/// result can both be allocated.
pub open spec fn resample_fits(side: u32, target: u32) -> bool {
    &&& addressable(4 * buffer_len(side as int, target as int))
    &&& addressable(buffer_len(target as int, target as int))
}

/// Decides whether a `side` by `side` canvas can be allocated.
pub fn canvas_fits(side: u32) -> (fits: bool)
    ensures
        fits == addressable(buffer_len(side as int, side as int)),
{
    let side = side as u128;
    assert(side * side <= 0xFFFF_FFFF * 0xFFFF_FFFF) by (nonlinear_arith)
        requires
            side <= 0xFFFF_FFFF,
    ;
    assert(4 * (side * side) == 4 * side * side) by (nonlinear_arith);
    4 * (side * side) <= isize::MAX as u128
}

/// Decides whether an image of `side` by `side` pixels can be sampled to
/// `target` by `target`.
pub fn resampling_fits(side: u32, target: u32) -> (fits: bool)
    ensures
        fits == resample_fits(side, target),
{
    let side = side as u128;
    let target = target as u128;
    assert(side * target <= 0xFFFF_FFFF * 0xFFFF_FFFF) by (nonlinear_arith)
        requires
            side <= 0xFFFF_FFFF,
            target <= 0xFFFF_FFFF,
    ;
    assert(target * target <= 0xFFFF_FFFF * 0xFFFF_FFFF) by (nonlinear_arith)
        requires
            target <= 0xFFFF_FFFF,
    ;
    assert(16 * (side * target) == 4 * (4 * side * target)) by (nonlinear_arith);
    assert(4 * (target * target) == 4 * target * target) by (nonlinear_arith);
    16 * (side * target) <= isize::MAX as u128 && 4 * (target * target) <= isize::MAX as u128
}

/// Calls `DynamicImage::crop_imm`: copies the `side` by `side` square at
/// `(x, y)` out of the image, pixel by pixel. The rectangle lies inside the
/// image, so the crate does not clamp it.
#[verifier::external_body]
pub(crate) fn crop(width: u32, height: u32, pixels: &Vec<u8>, x: u32, y: u32, side: u32) -> (cut:
    Vec<u8>)
    requires
        pixels@.len() == buffer_len(width as int, height as int),
        x + side <= width,
        y + side <= height,
    ensures
        cut@ == cropped(width, pixels@, x, y, side),
{
    let image = DynamicImage::ImageRgba8(
        RgbaImage::from_raw(width, height, pixels.clone()).unwrap(),
    );
    image.crop_imm(x, y, side, side).into_rgba8().into_raw()
}

/// Calls `ImageBuffer::new`: a buffer of `side` by `side` pixels, every byte
/// zero. The crate panics where the buffer cannot be allocated.
#[verifier::external_body]
pub(crate) fn blank_canvas(side: u32) -> (canvas: Vec<u8>)
    requires
        addressable(buffer_len(side as int, side as int)),
    ensures
        canvas@ == blank(side),
{
    RgbaImage::new(side, side).into_raw()
}

/// Calls `imageops::overlay`: blends the image onto the canvas with its top
/// left corner at `(x, y)`. The image lies inside the canvas, so the crate
/// does not clip it. Pixels outside the image stay; under it, the crate's
/// `blend` keeps the canvas below a fully transparent pixel, copies a fully
/// opaque one, and mixes any other in floating point.
#[verifier::external_body]
pub(crate) fn overlay(
    side: u32,
    canvas: Vec<u8>,
    width: u32,
    height: u32,
    pixels: &Vec<u8>,
    x: u32,
    y: u32,
) -> (result: Vec<u8>)
    requires
        canvas@.len() == buffer_len(side as int, side as int),
        pixels@.len() == buffer_len(width as int, height as int),
        x + width <= side,
        y + height <= side,
    ensures
        result@ == overlaid(side, canvas@, width, height, pixels@, x, y),
        overlay_keeps(side, canvas@, width, height, pixels@, x, y, result@),
{
    let mut bottom = RgbaImage::from_raw(side, side, canvas).unwrap();
    let top: ImageBuffer<Rgba<u8>, &[u8]> = ImageBuffer::from_raw(
        width,
        height,
        pixels.as_slice(),
    ).unwrap();
    imageops::overlay(&mut bottom, &top, i64::from(x), i64::from(y));
    bottom.into_raw()
}

/// Calls `DynamicImage::resize_exact` with the Gaussian filter: an image of
/// exactly `target` by `target` pixels. Its pixels are sampled in floating
/// point, with functions whose last digit the platform decides, so nothing is
/// said of them. The crate panics on an empty source and where it cannot
/// allocate the result or the rows of floats it samples into.
#[verifier::external_body]
pub(crate) fn resample(side: u32, pixels: &Vec<u8>, target: u32) -> (scaled: Vec<u8>)
    requires
        side > 0,
        pixels@.len() == buffer_len(side as int, side as int),
        resample_fits(side, target),
    ensures
        scaled@.len() == buffer_len(target as int, target as int),
{
    let image = DynamicImage::ImageRgba8(RgbaImage::from_raw(side, side, pixels.clone()).unwrap());
    image.resize_exact(target, target, imageops::FilterType::Gaussian).into_rgba8().into_raw()
}

} // verus!
