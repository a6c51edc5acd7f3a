//! One still image of an animation: its pixels and how long it is shown.

use vstd::arithmetic::div_mod::{lemma_fundamental_div_mod, lemma_fundamental_div_mod_converse};
use vstd::prelude::*;

verus! {

/// How long a frame is shown, in milliseconds, as a fraction.
#[derive(Debug, Clone, Copy, PartialEq, Eq, Structural)]
pub struct Delay {
    pub numerator: u32,
    pub denominator: u32,
}

/// A frame: `width` by `height` pixels of four bytes each (red, green, blue,
/// alpha), row by row from the top, and the time it is shown, if it has one.
#[derive(Debug, Clone, PartialEq, Eq)]
pub struct Frame {
    pub width: u32,
    pub height: u32,
    pub pixels: Vec<u8>,
    pub delay: Option<Delay>,
}

/// What a [`Frame`] holds, as mathematical values.
pub struct FrameView {
    pub width: u32,
    pub height: u32,
    pub pixels: Seq<u8>,
    pub delay: Option<Delay>,
}

impl View for Frame {
    type V = FrameView;

    open spec fn view(&self) -> FrameView {
        FrameView {
            width: self.width,
            height: self.height,
            pixels: self.pixels@,
            delay: self.delay,
        }
    }
}

/// The number of bytes in the buffer of a `width` by `height` image.
pub open spec fn buffer_len(width: int, height: int) -> int {
    4 * width * height
}

/// Where channel `channel` of the pixel in column `x` of row `y` stands in
/// the buffer of an image that is `width` pixels wide.
pub open spec fn channel_index(width: int, x: int, y: int, channel: int) -> int {
    (y * width + x) * 4 + channel
}

/// The column of the pixel that byte `k` of a buffer belongs to.
pub open spec fn column_of(width: int, k: int) -> int {
    (k / 4) % width
}

/// The row of the pixel that byte `k` of a buffer belongs to.
pub open spec fn row_of(width: int, k: int) -> int {
    (k / 4) / width
}

/// The byte of channel `channel` of the pixel in column `x` of row `y` lies
/// inside the buffer, and belongs to that column, row and channel.
pub proof fn lemma_channel_index_inverts(width: int, height: int, x: int, y: int, channel: int)
    requires
        0 <= x < width,
        0 <= y < height,
        0 <= channel < 4,
    ensures
        0 <= channel_index(width, x, y, channel) < buffer_len(width, height),
        column_of(width, channel_index(width, x, y, channel)) == x,
        row_of(width, channel_index(width, x, y, channel)) == y,
        channel_index(width, x, y, channel) % 4 == channel,
{
    let pixel = y * width + x;
    let k = pixel * 4 + channel;
    assert(0 <= pixel < height * width) by (nonlinear_arith)
        requires
            0 <= x < width,
            0 <= y < height,
            pixel == y * width + x,
    ;
    assert(4 * width * height == 4 * (height * width)) by (nonlinear_arith);
    lemma_fundamental_div_mod_converse(k, 4, pixel, channel);
    lemma_fundamental_div_mod_converse(pixel, width, y, x);
}

/// Every byte of a buffer belongs to one channel of one pixel inside the
/// image, and stands where that channel is looked up.
pub proof fn lemma_channel_index_covers(width: int, height: int, k: int)
    requires
        0 <= k < buffer_len(width, height),
        0 <= width,
        0 <= height,
    ensures
        0 <= column_of(width, k) < width,
        0 <= row_of(width, k) < height,
        0 <= k % 4 < 4,
        channel_index(width, column_of(width, k), row_of(width, k), k % 4) == k,
{
    assert(width > 0) by (nonlinear_arith)
        requires
            0 <= k < 4 * width * height,
            0 <= width,
            0 <= height,
    ;
    let pixel = k / 4;
    lemma_fundamental_div_mod(k, 4);
    lemma_fundamental_div_mod(pixel, width);
    assert(0 <= pixel < width * height) by (nonlinear_arith)
        requires
            0 <= k < 4 * width * height,
            k == 4 * pixel + k % 4,
            0 <= k % 4 < 4,
    ;
    let row = pixel / width;
    assert(0 <= row < height) by (nonlinear_arith)
        requires
            0 <= pixel < width * height,
            pixel == width * row + pixel % width,
            0 <= pixel % width < width,
    ;
    assert(row * width == width * row) by (nonlinear_arith);
}

impl FrameView {
    /// The buffer holds exactly the pixels that the dimensions announce.
    pub open spec fn well_formed(self) -> bool {
        self.pixels.len() == buffer_len(self.width as int, self.height as int)
    }

    /// The frame has a delay, and the delay is a fraction.
    pub open spec fn has_duration(self) -> bool {
        self.delay matches Some(delay) && delay.denominator > 0
    }

    /// Channel `channel` of the pixel in column `x` of row `y`.
    pub open spec fn channel(self, x: int, y: int, channel: int) -> u8 {
        self.pixels[channel_index(self.width as int, x, y, channel)]
    }
}

/// The views of a sequence of frames, in order.
pub open spec fn views(frames: Seq<Frame>) -> Seq<FrameView> {
    Seq::new(frames.len(), |i: int| frames[i]@)
}

impl Frame {
    /// A square frame of the given side around a buffer of pixels.
    pub fn square(side: u32, pixels: Vec<u8>, delay: Option<Delay>) -> (frame: Frame)
        ensures
            frame@ == (FrameView { width: side, height: side, pixels: pixels@, delay }),
    {
        Frame { width: side, height: side, pixels, delay }
    }

    /// Decides whether the buffer holds exactly the pixels that the dimensions
    /// announce.
    pub fn is_well_formed(&self) -> (ok: bool)
        ensures
            ok == self@.well_formed(),
    {
        let width = self.width as u128;
        let height = self.height as u128;
        assert(width * height <= 0xFFFF_FFFF * 0xFFFF_FFFF) by (nonlinear_arith)
            requires
                width <= 0xFFFF_FFFF,
                height <= 0xFFFF_FFFF,
        ;
        assert(4 * (width * height) == 4 * width * height) by (nonlinear_arith);
        let expected: u128 = 4 * (width * height);
        self.pixels.len() as u128 == expected
    }
}

} // verus!
