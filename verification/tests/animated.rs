use std::io::Cursor;

use image::codecs::gif::{GifDecoder, GifEncoder, Repeat};
use image::{AnimationDecoder, ImageDecoder, RgbaImage};
use live_app_icon::animated::{build_animated_icon, encoded_icon, square_frames};
use live_app_icon::frame::{Delay, Frame};
use live_app_icon::geometry::{ResizeMethod, SquareTransform};
use live_app_icon::Error;

const RED: [u8; 4] = [255, 0, 0, 255];
const GREEN: [u8; 4] = [0, 255, 0, 255];
const BLUE: [u8; 4] = [0, 0, 255, 255];

/// A frame whose left half has one colour and whose right half another.
fn halves(width: u32, height: u32, left: [u8; 4], right: [u8; 4]) -> RgbaImage {
    RgbaImage::from_fn(width, height, |x, _| image::Rgba(if x < width / 2 { left } else { right }))
}

/// An animation of the given frames, each with its delay in milliseconds.
fn animation(frames: Vec<(RgbaImage, u32)>) -> Vec<u8> {
    let mut bytes = Vec::new();
    {
        let mut encoder = GifEncoder::new(&mut bytes);
        encoder.set_repeat(Repeat::Finite(3)).unwrap();
        for (buffer, delay) in frames {
            let delay = image::Delay::from_numer_denom_ms(delay, 1);
            encoder.encode_frame(image::Frame::from_parts(buffer, 0, 0, delay)).unwrap();
        }
    }
    bytes
}

fn decode(bytes: &[u8]) -> Vec<image::Frame> {
    GifDecoder::new(Cursor::new(bytes)).unwrap().into_frames().collect_frames().unwrap()
}

fn dimensions(bytes: &[u8]) -> (u32, u32) {
    GifDecoder::new(Cursor::new(bytes)).unwrap().dimensions()
}

#[test]
fn square_source_is_copied_byte_for_byte() {
    let source = animation(vec![(halves(6, 6, RED, BLUE), 100), (halves(6, 6, BLUE, RED), 50)]);
    for method in [ResizeMethod::CenterCrop, ResizeMethod::CenterFit] {
        assert_eq!(build_animated_icon(&source, method), Ok(source.clone()));
    }
}

#[test]
fn square_source_with_a_broken_frame_is_still_copied() {
    let mut source = animation(vec![(halves(6, 6, RED, BLUE), 100)]);
    source.truncate(source.len() - 6);
    assert_eq!(build_animated_icon(&source, ResizeMethod::CenterCrop), Ok(source.clone()));
}

#[test]
fn wide_source_is_cropped_in_every_frame() {
    let source = animation(vec![
        (halves(8, 4, RED, BLUE), 100),
        (halves(8, 4, GREEN, RED), 200),
        (halves(8, 4, BLUE, GREEN), 30),
    ]);
    let icon = build_animated_icon(&source, ResizeMethod::CenterCrop).unwrap();
    assert_eq!(dimensions(&icon), (4, 4));
    let frames = decode(&icon);
    assert_eq!(frames.len(), 3);
    let expected = [(RED, BLUE), (GREEN, RED), (BLUE, GREEN)];
    for (frame, (left, right)) in frames.iter().zip(expected) {
        assert_eq!(frame.buffer().dimensions(), (4, 4));
        for y in 0..4 {
            assert_eq!(frame.buffer().get_pixel(0, y).0, left);
            assert_eq!(frame.buffer().get_pixel(1, y).0, left);
            assert_eq!(frame.buffer().get_pixel(2, y).0, right);
            assert_eq!(frame.buffer().get_pixel(3, y).0, right);
        }
    }
}

#[test]
fn wide_source_is_fitted_in_every_frame() {
    let source = animation(vec![(halves(8, 4, RED, BLUE), 100), (halves(8, 4, GREEN, RED), 200)]);
    let icon = build_animated_icon(&source, ResizeMethod::CenterFit).unwrap();
    assert_eq!(dimensions(&icon), (8, 8));
    let frames = decode(&icon);
    assert_eq!(frames.len(), 2);
    let first = frames[0].buffer();
    for x in 0..8 {
        assert_eq!(first.get_pixel(x, 0).0[3], 0);
        assert_eq!(first.get_pixel(x, 1).0[3], 0);
        assert_eq!(first.get_pixel(x, 2).0, if x < 4 { RED } else { BLUE });
        assert_eq!(first.get_pixel(x, 5).0, if x < 4 { RED } else { BLUE });
        assert_eq!(first.get_pixel(x, 6).0[3], 0);
        assert_eq!(first.get_pixel(x, 7).0[3], 0);
    }
}

#[test]
fn frame_count_order_and_delays_are_kept() {
    let delays = [100u32, 200, 30, 1000, 0];
    let colours = [RED, GREEN, BLUE, GREEN, RED];
    let source = animation(
        delays.iter().zip(colours).map(|(delay, colour)| (halves(4, 2, colour, colour), *delay)).collect(),
    );
    for method in [ResizeMethod::CenterCrop, ResizeMethod::CenterFit] {
        let icon = build_animated_icon(&source, method).unwrap();
        let frames = decode(&icon);
        assert_eq!(frames.len(), delays.len());
        for (index, frame) in frames.iter().enumerate() {
            assert_eq!(frame.delay().numer_denom_ms(), (delays[index], 1));
            let middle = frame.buffer().width() / 2;
            assert_eq!(frame.buffer().get_pixel(middle, middle).0, colours[index]);
        }
    }
}

#[test]
fn rebuilt_animation_loops_without_end() {
    let source = animation(vec![(halves(4, 2, RED, BLUE), 100), (halves(4, 2, BLUE, RED), 100)]);
    let icon = build_animated_icon(&source, ResizeMethod::CenterCrop).unwrap();
    let netscape = b"NETSCAPE2.0";
    let at = icon.windows(netscape.len()).position(|window| window == netscape).unwrap();
    assert_eq!(&icon[at + netscape.len()..at + netscape.len() + 5], &[3, 1, 0, 0, 0]);
}

#[test]
fn source_that_is_no_animation_is_a_decode_error() {
    assert_eq!(build_animated_icon(b"not an image", ResizeMethod::CenterFit), Err(Error::Decode));
    assert_eq!(build_animated_icon(&[], ResizeMethod::CenterCrop), Err(Error::Decode));
}

#[test]
fn wide_source_with_a_broken_frame_is_a_decode_error() {
    let mut source = animation(vec![(halves(8, 4, RED, BLUE), 100)]);
    source.truncate(source.len() - 6);
    assert_eq!(build_animated_icon(&source, ResizeMethod::CenterCrop), Err(Error::Decode));
}

#[test]
fn frames_are_squared_in_order() {
    let frames: Vec<Frame> = (0..4u32)
        .map(|index| Frame {
            width: 3,
            height: 1,
            pixels: vec![index as u8; 12],
            delay: Some(Delay { numerator: 10 * index, denominator: 1 }),
        })
        .collect();
    let squares = square_frames(&frames, SquareTransform::Crop { x: 1, y: 0, side: 1 }).unwrap();
    assert_eq!(squares.len(), 4);
    for (index, square) in squares.iter().enumerate() {
        assert_eq!((square.width, square.height), (1, 1));
        assert_eq!(square.pixels, vec![index as u8; 4]);
        assert_eq!(square.delay, frames[index].delay);
    }
    assert_eq!(square_frames(&[].to_vec(), SquareTransform::Crop { x: 1, y: 0, side: 1 }), Ok(Vec::new()));
}

#[test]
fn one_frame_that_does_not_match_stops_the_squaring() {
    let mut frames: Vec<Frame> =
        (0..3).map(|_| Frame { width: 3, height: 1, pixels: vec![0; 12], delay: None }).collect();
    frames[2].width = 2;
    assert_eq!(
        square_frames(&frames, SquareTransform::Crop { x: 1, y: 0, side: 1 }),
        Err(Error::Transform)
    );
}

#[test]
fn encoder_answer_becomes_the_icon_or_an_encode_error() {
    assert_eq!(encoded_icon(Ok(vec![1, 2, 3])), Ok(vec![1, 2, 3]));
    let refusal = image::ImageError::IoError(std::io::Error::other("full"));
    assert_eq!(encoded_icon(Err(refusal)), Err(Error::Encode));
}
