//! The image file formats, which the `image` crate reads and writes for this
//! library.
//!
//! Decoding and encoding work on bytes in memory. Their results are functions
//! of the bytes alone, computed by the crate on pages of format rules, so they
//! are named here and not defined; what is stated of them is taken from the
//! crate's source and is not proved.

use image::codecs::gif::GifDecoder;
use image::codecs::gif::GifEncoder;
use image::codecs::gif::Repeat;
use image::AnimationDecoder;
use image::DynamicImage;
use image::ImageDecoder;
use image::ImageError;
use image::ImageFormat;
use image::RgbaImage;
use std::io::Cursor;
use vstd::prelude::*;

use crate::frame::{buffer_len, views, Delay, Frame, FrameView};
use crate::raster::{addressable, canvas_fits};

verus! {

/// The error type of the `image` crate.
#[verifier::external_type_specification]
#[verifier::external_body]
pub struct ExImageError(ImageError);

/// The largest width and height that an animation file can announce.
pub const MAX_SOURCE_SIDE: u32 = 0xFFFF;

/// Whether the buffer of the largest frame that an animation file can announce
/// can be allocated. It cannot where addresses have 32 bits, and the decoder
/// panics there on a file with such frames.
pub open spec fn largest_frame_is_addressable() -> bool {
    addressable(buffer_len(MAX_SOURCE_SIDE as int, MAX_SOURCE_SIDE as int))
}

/// Decides whether the buffer of the largest frame that an animation file can
/// announce can be allocated.
pub fn largest_frame_fits() -> (fits: bool)
    ensures
        fits == largest_frame_is_addressable(),
{
    canvas_fits(MAX_SOURCE_SIDE)
}

/// Whether a frame is one that the decoder can hand out: neither side exceeds
/// what a file can announce, and it has a delay.
pub open spec fn decodable(frame: FrameView) -> bool {
    &&& frame.width <= MAX_SOURCE_SIDE
    &&& frame.height <= MAX_SOURCE_SIDE
    &&& frame.has_duration()
}

/// The width and height that the header of the animation `source` announces,
/// or `None` where the decoder rejects the header.
pub uninterp spec fn gif_canvas(source: Seq<u8>) -> Option<(u32, u32)>;

/// The first frame of the animation `source`: `None` where the decoder
/// rejects the header or the frame, `Some(None)` where the animation has no
/// frame.
pub uninterp spec fn gif_first_frame(source: Seq<u8>) -> Option<Option<FrameView>>;

/// All frames of the animation `source`, in order, or `None` where the
/// decoder rejects the header or any frame.
pub uninterp spec fn gif_frames(source: Seq<u8>) -> Option<Seq<FrameView>>;

/// The bytes of the endlessly looping animation that the encoder makes of
/// `frames`, or `None` where it refuses them.
pub uninterp spec fn gif_encoded(frames: Seq<FrameView>) -> Option<Seq<u8>>;

/// The bytes of the still image file that the encoder makes of a `width` by
/// `height` buffer, or `None` where it refuses it.
pub uninterp spec fn png_encoded(width: u32, height: u32, pixels: Seq<u8>) -> Option<Seq<u8>>;

/// Calls `GifDecoder::new` and `ImageDecoder::dimensions`: the logical screen
/// size in the header of the file, which the format stores in 16 bits each.
#[verifier::external_body]
pub(crate) fn read_dimensions(source: &[u8]) -> (result: Result<(u32, u32), ImageError>)
    ensures
        match result {
            Ok(canvas) => {
                &&& gif_canvas(source@) == Some(canvas)
                &&& canvas.0 <= MAX_SOURCE_SIDE
                &&& canvas.1 <= MAX_SOURCE_SIDE
            },
            Err(_) => gif_canvas(source@) is None,
        },
{
    Ok(GifDecoder::new(Cursor::new(source))?.dimensions())
}

/// Calls `GifDecoder::new`, `AnimationDecoder::into_frames` and `next` on the
/// frames: decodes the first frame and nothing after it. The crate composes
/// every frame on the logical screen, so no side exceeds 16 bits, and gives
/// every frame a delay over the denominator one.
#[verifier::external_body]
pub(crate) fn read_first_frame(source: &[u8]) -> (result: Result<Option<Frame>, ImageError>)
    requires
        largest_frame_is_addressable(),
    ensures
        match result {
            Ok(Some(frame)) => gif_first_frame(source@) == Some(Some(frame@)) && decodable(frame@),
            Ok(None) => gif_first_frame(source@) == Some(None::<FrameView>),
            Err(_) => gif_first_frame(source@) is None,
        },
{
    match GifDecoder::new(Cursor::new(source))?.into_frames().next() {
        None => Ok(None),
        Some(decoded) => {
            let decoded = decoded?;
            let (numerator, denominator) = decoded.delay().numer_denom_ms();
            let delay = Some(Delay { numerator, denominator });
            let buffer = decoded.into_buffer();
            Ok(Some(Frame { width: buffer.width(), height: buffer.height(), pixels: buffer.into_raw(), delay }))
        },
    }
}

/// Calls `GifDecoder::new`, `AnimationDecoder::into_frames` and
/// `Frames::collect_frames`: decodes every frame, in order, and fails where
/// any of them fails. The crate composes every frame on the logical screen,
/// so no side exceeds 16 bits, and gives every frame a delay over the
/// denominator one.
#[verifier::external_body]
pub(crate) fn read_frames(source: &[u8]) -> (result: Result<Vec<Frame>, ImageError>)
    requires
        largest_frame_is_addressable(),
    ensures
        match result {
            Ok(frames) => {
                &&& gif_frames(source@) == Some(views(frames@))
                &&& forall|i: int| 0 <= i < frames@.len() ==> decodable(#[trigger] frames@[i]@)
            },
            Err(_) => gif_frames(source@) is None,
        },
{
    let decoded = GifDecoder::new(Cursor::new(source))?.into_frames().collect_frames()?;
    Ok(decoded.into_iter().map(|decoded| {
        let (numerator, denominator) = decoded.delay().numer_denom_ms();
        let delay = Some(Delay { numerator, denominator });
        let buffer = decoded.into_buffer();
        Frame { width: buffer.width(), height: buffer.height(), pixels: buffer.into_raw(), delay }
    }).collect())
}

/// Calls `GifEncoder::new`, `GifEncoder::set_repeat` with `Repeat::Infinite`
/// and `GifEncoder::try_encode_frames`: encodes the frames, in order, as one
/// animation that loops without end. The crate panics on a buffer that does
/// not match its dimensions and on a delay over zero.
#[verifier::external_body]
pub(crate) fn encode_animation(frames: &Vec<Frame>) -> (result: Result<Vec<u8>, ImageError>)
    requires
        forall|i: int|
            0 <= i < frames@.len() ==> (#[trigger] frames@[i]@).well_formed()
                && frames@[i]@.has_duration() && frames@[i]@.width > 0 && frames@[i]@.height > 0,
    ensures
        match result {
            Ok(encoded) => gif_encoded(views(frames@)) == Some(encoded@),
            Err(_) => gif_encoded(views(frames@)) is None,
        },
{
    let mut encoded = Vec::new();
    let mut encoder = GifEncoder::new(&mut encoded);
    encoder.set_repeat(Repeat::Infinite)?;
    encoder.try_encode_frames(frames.iter().map(|frame| {
        let delay = frame.delay.unwrap();
        let delay = image::Delay::from_numer_denom_ms(delay.numerator, delay.denominator);
        let buffer = RgbaImage::from_raw(frame.width, frame.height, frame.pixels.clone()).unwrap();
        Ok(image::Frame::from_parts(buffer, 0, 0, delay))
    }))?;
    drop(encoder);
    Ok(encoded)
}

/// Calls `DynamicImage::write_to` with `ImageFormat::Png`: encodes one still
/// image with transparency, without loss. The crate panics on a buffer that
/// does not match its dimensions.
#[verifier::external_body]
pub(crate) fn encode_still(width: u32, height: u32, pixels: &Vec<u8>) -> (result: Result<
    Vec<u8>,
    ImageError,
>)
    requires
        pixels@.len() == buffer_len(width as int, height as int),
    ensures
        match result {
            Ok(encoded) => png_encoded(width, height, pixels@) == Some(encoded@),
            Err(_) => png_encoded(width, height, pixels@) is None,
        },
{
    let image = DynamicImage::ImageRgba8(RgbaImage::from_raw(width, height, pixels.clone()).unwrap());
    let mut encoded = Cursor::new(Vec::new());
    image.write_to(&mut encoded, ImageFormat::Png)?;
    Ok(encoded.into_inner())
}

} // verus!
