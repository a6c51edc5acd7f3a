//! The animated icon: every frame of the source made square, in order and
//! with its timing, and encoded again as an endless loop.

use image::ImageError;
use vstd::prelude::*;
use vstd::slice::slice_to_vec;

use crate::codec::{
    encode_animation,
    gif_canvas,
    gif_encoded,
    gif_frames,
    largest_frame_is_addressable,
    read_dimensions,
    read_frames,
    MAX_SOURCE_SIDE,
};
use crate::error::Error;
use crate::frame::{buffer_len, views, Frame, FrameView};
use crate::geometry::{resolve, resolved, ResizeMethod, SquareTransform};
use crate::raster::addressable;
use crate::transform::{square_frame, squared, transformable};

verus! {

/// The squares that `geometry` makes of `frames`, in order, or `None` where
/// it cannot be carried out on one of them.
pub open spec fn squared_all(frames: Seq<FrameView>, geometry: SquareTransform) -> Option<
    Seq<FrameView>,
> {
    if forall|i: int| 0 <= i < frames.len() ==> transformable(#[trigger] frames[i], geometry) {
        Some(Seq::new(frames.len(), |i: int| squared(frames[i], geometry)))
    } else {
        None
    }
}

/// The animated icon that is made of the animation file `source` under
/// `method`, or the error that stops it.
///
/// A source whose header announces a square is the icon as it stands, byte
/// for byte. Any other source is decoded, every frame is made square by the
/// transform resolved from the announced dimensions, and the squares are
/// encoded in their order.
pub open spec fn animated_icon(source: Seq<u8>, method: ResizeMethod) -> Result<Seq<u8>, Error> {
    match gif_canvas(source) {
        None => Err(Error::Decode),
        Some((width, height)) => if width == height {
            Ok(source)
        } else if width == 0 || height == 0 {
            Err(Error::InvalidGeometry)
        } else {
            match gif_frames(source) {
                None => Err(Error::Decode),
                Some(frames) => match squared_all(frames, resolved(width, height, method)) {
                    None => Err(Error::Transform),
                    Some(squares) => match gif_encoded(squares) {
                        None => Err(Error::Encode),
                        Some(encoded) => Ok(encoded),
                    },
                },
            }
        },
    }
}

/// Makes every frame square as `geometry` says, in order, without rescaling.
///
/// Fails with [`Error::Transform`] exactly when the transform cannot be
/// carried out on one of the frames.
pub fn square_frames(frames: &Vec<Frame>, geometry: SquareTransform) -> (result: Result<
    Vec<Frame>,
    Error,
>)
    requires
        geometry is Canvas ==> addressable(
            buffer_len(geometry.spec_side() as int, geometry.spec_side() as int),
        ),
    ensures
        match result {
            Ok(squares) => {
                &&& squared_all(views(frames@), geometry) == Some(views(squares@))
                &&& squares@.len() == frames@.len()
                &&& forall|i: int|
                    0 <= i < squares@.len() ==> {
                        &&& (#[trigger] squares@[i]@).well_formed()
                        &&& squares@[i]@.width == squares@[i]@.height
                        &&& squares@[i]@.width > 0
                        &&& squares@[i]@.delay == frames@[i]@.delay
                    }
            },
            Err(error) => error is Transform && squared_all(views(frames@), geometry) is None,
        },
{
    let mut squares: Vec<Frame> = Vec::new();
    let mut done: usize = 0;
    while done < frames.len()
        invariant
            done <= frames@.len(),
            squares@.len() == done,
            geometry is Canvas ==> addressable(
                buffer_len(geometry.spec_side() as int, geometry.spec_side() as int),
            ),
            forall|i: int|
                0 <= i < done ==> {
                    &&& transformable(#[trigger] frames@[i]@, geometry)
                    &&& squares@[i]@ == squared(frames@[i]@, geometry)
                    &&& squares@[i]@.well_formed()
                    &&& squares@[i]@.width > 0
                },
        decreases frames@.len() - done,
    {
        match square_frame(&frames[done], geometry) {
            Ok(square) => {
                squares.push(square);
            },
            Err(_) => {
                assert(!transformable(views(frames@)[done as int], geometry));
                return Err(Error::Transform);
            },
        }
        done = done + 1;
    }
    assert(forall|i: int|
        0 <= i < frames@.len() ==> transformable(#[trigger] views(frames@)[i], geometry));
    assert(views(squares@) =~= Seq::new(
        views(frames@).len(),
        |i: int| squared(views(frames@)[i], geometry),
    ));
    Ok(squares)
}

/// What the animated icon is once the encoder has answered: its bytes, or
/// [`Error::Encode`] where it refused the frames.
pub fn encoded_icon(encoded: Result<Vec<u8>, ImageError>) -> (result: Result<Vec<u8>, Error>)
    ensures
        match encoded {
            Ok(bytes) => result matches Ok(icon) && icon == bytes,
            Err(_) => result matches Err(Error::Encode),
        },
{
    match encoded {
        Ok(bytes) => Ok(bytes),
        Err(_) => Err(Error::Encode),
    }
}

/// Builds the animated icon from the bytes of an animation file.
///
/// Where the file announces a square, its bytes are returned as they are.
/// Otherwise every frame is made square under `method`, keeping its order and
/// its delay, and the frames are encoded as an animation that loops without
/// end.
///
/// Fails with [`Error::Decode`] where the decoder rejects the file, with
/// [`Error::InvalidGeometry`] where the file announces no width or no height,
/// with [`Error::Transform`] where a decoded frame does not match the
/// announced dimensions, and with [`Error::Encode`] where the encoder refuses
/// the squares.
pub fn build_animated_icon(source: &[u8], method: ResizeMethod) -> (result: Result<Vec<u8>, Error>)
    requires
        largest_frame_is_addressable(),
    ensures
        match result {
            Ok(icon) => animated_icon(source@, method) == Ok::<Seq<u8>, Error>(icon@),
            Err(error) => animated_icon(source@, method) == Err::<Seq<u8>, Error>(error),
        },
{
    let (width, height) = match read_dimensions(source) {
        Ok(canvas) => canvas,
        Err(_) => {
            return Err(Error::Decode);
        },
    };
    if width == height {
        return Ok(slice_to_vec(source));
    }
    let geometry = match resolve(width, height, method) {
        Ok(geometry) => geometry,
        Err(_) => {
            return Err(Error::InvalidGeometry);
        },
    };
    let frames = match read_frames(source) {
        Ok(frames) => frames,
        Err(_) => {
            return Err(Error::Decode);
        },
    };
    proof {
        lemma_source_side_is_addressable(geometry.spec_side());
    }
    let squares = match square_frames(&frames, geometry) {
        Ok(squares) => squares,
        Err(_) => {
            return Err(Error::Transform);
        },
    };
    encoded_icon(encode_animation(&squares))
}

/// A square whose side is no longer than the longest side that a file can
/// announce can be allocated wherever the largest frame can.
pub proof fn lemma_source_side_is_addressable(side: u32)
    requires
        largest_frame_is_addressable(),
        side <= MAX_SOURCE_SIDE,
    ensures
        addressable(buffer_len(side as int, side as int)),
{
    assert(4 * side * side <= 4 * 0xFFFF * 0xFFFF) by (nonlinear_arith)
        requires
            0 <= side <= 0xFFFF,
    ;
}

/// Making frames square keeps their number, their order and the delay of each.
pub proof fn lemma_squaring_keeps_timing(
    frames: Seq<FrameView>,
    geometry: SquareTransform,
    squares: Seq<FrameView>,
)
    requires
        squared_all(frames, geometry) == Some(squares),
    ensures
        squares.len() == frames.len(),
        forall|i: int| 0 <= i < frames.len() ==> (#[trigger] squares[i]).delay == frames[i].delay,
        forall|i: int|
            0 <= i < frames.len() ==> (#[trigger] squares[i]).width == geometry.spec_side()
                && squares[i].height == geometry.spec_side(),
{
}

/// The animated icon of a source that announces a square is the source, byte
/// for byte, under either method.
pub proof fn lemma_square_source_is_copied(source: Seq<u8>, method: ResizeMethod, side: u32)
    requires
        gif_canvas(source) == Some((side, side)),
    ensures
        animated_icon(source, method) == Ok::<Seq<u8>, Error>(source),
{
}

} // verus!
