//! Applying a resolved transform to a frame.

use vstd::prelude::*;

use crate::error::Error;
use crate::frame::{
    buffer_len,
    lemma_channel_index_covers,
    lemma_channel_index_inverts,
    Frame,
    FrameView,
};
use crate::geometry::{resolve, resolved, ResizeMethod, SquareTransform};
use crate::raster::{
    addressable,
    blank,
    blank_canvas,
    crop,
    cropped,
    overlaid,
    overlay,
    overlay_keeps,
    resample,
    resample_fits,
};

verus! {

/// The square that `geometry` makes of `frame`, before any rescaling. The
/// delay of the frame is kept.
pub open spec fn squared(frame: FrameView, geometry: SquareTransform) -> FrameView {
    match geometry {
        SquareTransform::Crop { x, y, side } => FrameView {
            width: side,
            height: side,
            pixels: cropped(frame.width, frame.pixels, x, y, side),
            delay: frame.delay,
        },
        SquareTransform::Canvas { side, x, y } => FrameView {
            width: side,
            height: side,
            pixels: overlaid(side, blank(side), frame.width, frame.height, frame.pixels, x, y),
            delay: frame.delay,
        },
    }
}

/// Whether `geometry` can be carried out on `frame`: the buffer of the frame
/// matches its dimensions and the transform applies to them.
pub open spec fn transformable(frame: FrameView, geometry: SquareTransform) -> bool {
    frame.well_formed() && geometry.applies_to(frame.width, frame.height)
}

/// What is known of the pixels of `square`, the result of `geometry` on
/// `frame`, beyond its name: for a canvas, which bytes are padding and which
/// are copied from the frame.
pub open spec fn keeps_content(
    frame: FrameView,
    geometry: SquareTransform,
    square: FrameView,
) -> bool {
    geometry matches SquareTransform::Canvas { side, x, y } ==> overlay_keeps(
        side,
        blank(side),
        frame.width,
        frame.height,
        frame.pixels,
        x,
        y,
        square.pixels,
    )
}

/// Whether `scaled` can be what rescaling `square` to `size` returns: a
/// well-formed `size` by `size` frame with the delay of `square`.
pub open spec fn rescaled_from(square: FrameView, size: u32, scaled: FrameView) -> bool {
    &&& scaled.width == size
    &&& scaled.height == size
    &&& scaled.well_formed()
    &&& scaled.delay == square.delay
}

/// Makes `frame` square as `geometry` says, without rescaling.
///
/// Fails with [`Error::Transform`] exactly when the buffer of the frame does
/// not match its dimensions or the transform does not apply to them.
pub fn square_frame(frame: &Frame, geometry: SquareTransform) -> (result: Result<Frame, Error>)
    requires
        geometry is Canvas ==> addressable(
            buffer_len(geometry.spec_side() as int, geometry.spec_side() as int),
        ),
    ensures
        !transformable(frame@, geometry) ==> result matches Err(Error::Transform),
        transformable(frame@, geometry) ==> (result matches Ok(square) && {
            &&& square@ == squared(frame@, geometry)
            &&& square@.well_formed()
            &&& square@.width > 0
            &&& keeps_content(frame@, geometry, square@)
        }),
{
    if !frame.is_well_formed() || !geometry.fits(frame.width, frame.height) {
        return Err(Error::Transform);
    }
    match geometry {
        SquareTransform::Crop { x, y, side } => {
            let cut = crop(frame.width, frame.height, &frame.pixels, x, y, side);
            Ok(Frame::square(side, cut, frame.delay))
        },
        SquareTransform::Canvas { side, x, y } => {
            let canvas = blank_canvas(side);
            let filled = overlay(side, canvas, frame.width, frame.height, &frame.pixels, x, y);
            Ok(Frame::square(side, filled, frame.delay))
        },
    }
}

/// Rescales a square frame to exactly `size` by `size` pixels with a
/// smoothing filter. The delay is kept.
///
/// Fails with [`Error::Transform`] exactly when the frame is empty, is not
/// square, or has a buffer that does not match its dimensions.
pub fn rescale(square: &Frame, size: u32) -> (result: Result<Frame, Error>)
    requires
        resample_fits(square.width, size),
    ensures
        !(square@.well_formed() && square.width == square.height && square.width > 0)
            ==> result matches Err(Error::Transform),
        square@.well_formed() && square.width == square.height && square.width > 0
            ==> (result matches Ok(scaled) && rescaled_from(square@, size, scaled@)),
{
    if !square.is_well_formed() || square.width != square.height || square.width == 0 {
        return Err(Error::Transform);
    }
    let sampled = resample(square.width, &square.pixels, size);
    Ok(Frame::square(size, sampled, square.delay))
}

/// Applies `geometry` to `frame` and, where `target_size` is given, rescales
/// the square to exactly that size. The delay of the frame is never changed.
///
/// Fails with [`Error::Transform`] exactly when the buffer of the frame does
/// not match its dimensions or the transform does not apply to them.
pub fn transform(frame: &Frame, geometry: SquareTransform, target_size: Option<u32>) -> (result:
    Result<Frame, Error>)
    requires
        geometry is Canvas ==> addressable(
            buffer_len(geometry.spec_side() as int, geometry.spec_side() as int),
        ),
        target_size matches Some(size) ==> resample_fits(geometry.spec_side(), size),
    ensures
        !transformable(frame@, geometry) ==> result matches Err(Error::Transform),
        transformable(frame@, geometry) ==> (result matches Ok(out) && match target_size {
            None => out@ == squared(frame@, geometry) && keeps_content(frame@, geometry, out@),
            Some(size) => rescaled_from(squared(frame@, geometry), size, out@),
        }),
        result matches Ok(out) ==> out@.width == out@.height && out@.well_formed() && out@.delay
            == frame@.delay,
{
    let square = match square_frame(frame, geometry) {
        Ok(square) => square,
        Err(_) => {
            return Err(Error::Transform);
        },
    };
    match target_size {
        None => Ok(square),
        Some(size) => rescale(&square, size),
    }
}

/// The side of the square that `method` makes of a `width` by `height` image.
pub open spec fn square_side(width: u32, height: u32, method: ResizeMethod) -> u32 {
    resolved(width, height, method).spec_side()
}

/// Makes `frame` square by `method` and, where `expected_size` is given,
/// rescales it to exactly that size.
///
/// Fails with [`Error::InvalidGeometry`] exactly when the frame has no width or
/// no height, and otherwise with [`Error::Transform`] exactly when its buffer
/// does not match its dimensions.
pub fn resize_image_to_square(
    frame: &Frame,
    method: ResizeMethod,
    expected_size: Option<u32>,
) -> (result: Result<Frame, Error>)
    requires
        method == ResizeMethod::CenterFit ==> addressable(
            buffer_len(
                square_side(frame.width, frame.height, method) as int,
                square_side(frame.width, frame.height, method) as int,
            ),
        ),
        expected_size matches Some(size) ==> resample_fits(
            square_side(frame.width, frame.height, method),
            size,
        ),
    ensures
        frame.width == 0 || frame.height == 0 ==> result matches Err(Error::InvalidGeometry),
        frame.width > 0 && frame.height > 0 && !frame@.well_formed() ==> result matches Err(
            Error::Transform,
        ),
        frame.width > 0 && frame.height > 0 && frame@.well_formed() ==> (result matches Ok(out)
            && {
            let geometry = resolved(frame.width, frame.height, method);
            match expected_size {
                None => out@ == squared(frame@, geometry) && keeps_content(frame@, geometry, out@),
                Some(size) => rescaled_from(squared(frame@, geometry), size, out@),
            }
        }),
{
    let geometry = match resolve(frame.width, frame.height, method) {
        Ok(geometry) => geometry,
        Err(_) => {
            return Err(Error::InvalidGeometry);
        },
    };
    transform(frame, geometry, expected_size)
}

/// A crop copies pixels: the pixel in column `column` of row `row` of the
/// square is the pixel of the frame that lies `(x, y)` further right and down.
pub proof fn lemma_crop_copies_pixels(
    frame: FrameView,
    x: u32,
    y: u32,
    side: u32,
    column: int,
    row: int,
    channel: int,
)
    requires
        (SquareTransform::Crop { x, y, side }).applies_to(frame.width, frame.height),
        0 <= column < side,
        0 <= row < side,
        0 <= channel < 4,
    ensures
        squared(frame, SquareTransform::Crop { x, y, side }).channel(column, row, channel)
            == frame.channel(x + column, y + row, channel),
{
    lemma_channel_index_inverts(side as int, side as int, column, row, channel);
}

/// A canvas pads and copies: a pixel of the square outside the placed frame
/// is transparent black, as is one under a fully transparent pixel of the
/// frame; one under a fully opaque pixel is that pixel of the frame.
pub proof fn lemma_canvas_pads_and_copies(
    frame: FrameView,
    side: u32,
    x: u32,
    y: u32,
    square: FrameView,
    column: int,
    row: int,
    channel: int,
)
    requires
        (SquareTransform::Canvas { side, x, y }).applies_to(frame.width, frame.height),
        keeps_content(frame, SquareTransform::Canvas { side, x, y }, square),
        square.width == side,
        0 <= column < side,
        0 <= row < side,
        0 <= channel < 4,
    ensures
        ({
            let inside = x <= column < x + frame.width && y <= row < y + frame.height;
            let alpha = frame.channel(column - x, row - y, 3);
            &&& !inside || alpha == 0 ==> square.channel(column, row, channel) == 0
            &&& inside && alpha == 255 ==> square.channel(column, row, channel) == frame.channel(
                column - x,
                row - y,
                channel,
            )
        }),
{
    lemma_channel_index_inverts(side as int, side as int, column, row, channel);
}

/// A frame that is square already keeps its dimensions and its delay under
/// either method, with no offset; a centred crop returns it unchanged.
pub proof fn lemma_square_frame_is_kept(frame: FrameView, method: ResizeMethod)
    requires
        frame.well_formed(),
        frame.width == frame.height,
        frame.width > 0,
    ensures
        resolved(frame.width, frame.height, method).is_identity_on(frame.width, frame.height),
        squared(frame, resolved(frame.width, frame.height, method)).width == frame.width,
        squared(frame, resolved(frame.width, frame.height, method)).height == frame.height,
        squared(frame, resolved(frame.width, frame.height, method)).delay == frame.delay,
        squared(frame, resolved(frame.width, frame.height, ResizeMethod::CenterCrop)) == frame,
{
    let side = frame.width;
    let cut = cropped(side, frame.pixels, 0, 0, side);
    assert forall|k: int| 0 <= k < cut.len() implies cut[k] == frame.pixels[k] by {
        lemma_channel_index_covers(side as int, side as int, k);
    }
    assert(cut =~= frame.pixels);
}

} // verus!
