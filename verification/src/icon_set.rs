//! The still icons: the first frame of the source made square once and
//! rendered at each of seven fixed sizes.

use image::ImageError;
use vstd::prelude::*;

use crate::codec::{
    encode_still,
    gif_first_frame,
    largest_frame_is_addressable,
    png_encoded,
    read_first_frame,
    MAX_SOURCE_SIDE,
};
use crate::error::Error;
use crate::frame::{buffer_len, Frame, FrameView};
use crate::geometry::{resolve, resolved, ResizeMethod};
use crate::raster::{addressable, resample_fits};
use crate::text::{decimal, decimal_string};
use crate::transform::{rescale, rescaled_from, square_frame, squared};

verus! {

/// The number of still icons.
pub const ICON_COUNT: usize = 7;

/// The largest size of a still icon.
pub const LARGEST_ICON: u32 = 1024;

/// The sizes of the still icons, in pixels, in the order in which they are
/// rendered: the powers of two from 16 to 1024.
pub open spec fn icon_sizes() -> Seq<u32> {
    seq![16u32, 32u32, 64u32, 128u32, 256u32, 512u32, 1024u32]
}

/// The name of the file that holds the still icon of the given size.
pub open spec fn icon_file_name(size: u32) -> Seq<char> {
    decimal(size as nat) + ".png"@
}

/// One still icon: its size in pixels, the name of its file, the rendered
/// image and the bytes of the file.
#[derive(Debug, Clone, PartialEq, Eq)]
pub struct IconFile {
    pub size: u32,
    pub name: String,
    pub image: Frame,
    pub contents: Vec<u8>,
}

/// Whether `icon` is the still icon of `size` pixels rendered from `square`:
/// it has the size's name, its image is `square` rescaled to exactly that
/// size, and its contents are that image, encoded.
pub open spec fn is_icon_of(square: FrameView, size: u32, icon: IconFile) -> bool {
    &&& icon.size == size
    &&& icon.name@ == icon_file_name(size)
    &&& rescaled_from(square, size, icon.image@)
    &&& png_encoded(size, size, icon.image@.pixels) == Some(icon.contents@)
}

/// Whether `icons` are the seven still icons rendered from `square`, one of
/// each size, in order.
pub open spec fn is_icon_set_of(square: FrameView, icons: Seq<IconFile>) -> bool {
    &&& icons.len() == ICON_COUNT
    &&& forall|i: int|
        0 <= i < ICON_COUNT ==> is_icon_of(square, icon_sizes()[i], #[trigger] icons[i])
}

/// Whether the encoder refuses some image that `square` can be rescaled to
/// at `size` pixels.
pub open spec fn refuses_icon(square: FrameView, size: u32) -> bool {
    exists|image: FrameView|
        #[trigger] rescaled_from(square, size, image) && png_encoded(size, size, image.pixels)
            is None
}

/// Whether `error` says that one of the still icons rendered from `square`
/// was refused by the encoder, and names the file of that icon.
pub open spec fn names_failed_icon(square: FrameView, error: Error) -> bool {
    error matches Error::Write { path } && exists|i: int|
        0 <= i < ICON_COUNT && path@ == icon_file_name(#[trigger] icon_sizes()[i])
            && refuses_icon(square, icon_sizes()[i])
}

/// Whether a frame can be the reference square of an icon set: it is square,
/// not empty, and its buffer matches its dimensions.
pub open spec fn is_reference_square(square: FrameView) -> bool {
    &&& square.well_formed()
    &&& square.width == square.height
    &&& square.width > 0
}

/// The error that stops the still icons of the animation file `source` before
/// any is rendered, or `None` where its first frame can be made square.
pub open spec fn first_frame_failure(source: Seq<u8>) -> Option<Error> {
    match gif_first_frame(source) {
        None => Some(Error::Decode),
        Some(None) => Some(Error::Decode),
        Some(Some(first)) => if first.width == 0 || first.height == 0 {
            Some(Error::InvalidGeometry)
        } else if !first.well_formed() {
            Some(Error::Transform)
        } else {
            None
        },
    }
}

/// The square from which the still icons of the animation file `source` are
/// rendered: its first frame, made square under `method`.
pub open spec fn reference_square(source: Seq<u8>, method: ResizeMethod) -> FrameView {
    let first = gif_first_frame(source)->0->0;
    squared(first, resolved(first.width, first.height, method))
}

/// The sizes of the still icons, in the order in which they are rendered.
pub fn sizes() -> (sizes: Vec<u32>)
    ensures
        sizes@ == icon_sizes(),
{
    vec![16, 32, 64, 128, 256, 512, 1024]
}

/// The name of the file that holds the still icon of the given size.
pub fn file_name(size: u32) -> (name: String)
    ensures
        name@ == icon_file_name(size),
{
    let mut name = decimal_string(size);
    name.append(".png");
    name
}

/// What a still icon is once the encoder has answered for its image: the
/// icon with the encoded bytes, or [`Error::Write`] with the name of its file
/// where the encoder refused the image.
pub fn encoded_still(size: u32, image: Frame, encoded: Result<Vec<u8>, ImageError>) -> (result:
    Result<IconFile, Error>)
    ensures
        match encoded {
            Ok(bytes) => result matches Ok(icon) && {
                &&& icon.size == size
                &&& icon.name@ == icon_file_name(size)
                &&& icon.image == image
                &&& icon.contents == bytes
            },
            Err(_) => result matches Err(Error::Write { path }) && path@ == icon_file_name(size),
        },
{
    let name = file_name(size);
    match encoded {
        Ok(contents) => Ok(IconFile { size, name, image, contents }),
        Err(_) => Err(Error::Write { path: name }),
    }
}

/// Renders the still icon of `size` pixels from the reference square.
///
/// Fails with [`Error::Transform`] exactly when `square` is no reference
/// square, and otherwise with [`Error::Write`], naming the icon's file,
/// exactly when the encoder refuses the rescaled image.
pub fn render_icon(square: &Frame, size: u32) -> (result: Result<IconFile, Error>)
    requires
        resample_fits(square.width, size),
    ensures
        !is_reference_square(square@) ==> result matches Err(Error::Transform),
        is_reference_square(square@) ==> match result {
            Ok(icon) => is_icon_of(square@, size, icon),
            Err(error) => {
                &&& error matches Error::Write { path } && path@ == icon_file_name(size)
                &&& refuses_icon(square@, size)
            },
        },
{
    let image = match rescale(square, size) {
        Ok(image) => image,
        Err(_) => {
            return Err(Error::Transform);
        },
    };
    let encoded = encode_still(image.width, image.height, &image.pixels);
    proof {
        if encoded is Err {
            assert(rescaled_from(square@, size, image@));
        }
    }
    encoded_still(size, image, encoded)
}

/// Renders the seven still icons from one reference square, in the order of
/// their sizes. Every icon is the same square, rescaled.
///
/// Fails with [`Error::Transform`] exactly when `square` is no reference
/// square, and otherwise with [`Error::Write`], naming the file of the first
/// icon that the encoder refuses.
pub fn icon_set(square: &Frame) -> (result: Result<Vec<IconFile>, Error>)
    requires
        resample_fits(square.width, LARGEST_ICON),
    ensures
        !is_reference_square(square@) ==> result matches Err(Error::Transform),
        is_reference_square(square@) ==> match result {
            Ok(icons) => is_icon_set_of(square@, icons@),
            Err(error) => names_failed_icon(square@, error),
        },
{
    let sizes = sizes();
    let mut icons: Vec<IconFile> = Vec::new();
    let mut next: usize = 0;
    if !square.is_well_formed() || square.width != square.height || square.width == 0 {
        return Err(Error::Transform);
    }
    while next < ICON_COUNT
        invariant
            next <= ICON_COUNT,
            sizes@ == icon_sizes(),
            icons@.len() == next,
            is_reference_square(square@),
            resample_fits(square.width, LARGEST_ICON),
            forall|i: int| 0 <= i < next ==> is_icon_of(square@, icon_sizes()[i], #[trigger] icons@[i]),
        decreases ICON_COUNT - next,
    {
        let size = sizes[next];
        proof {
            lemma_smaller_target_fits(square.width, size, LARGEST_ICON);
        }
        match render_icon(square, size) {
            Ok(icon) => {
                icons.push(icon);
            },
            Err(error) => {
                assert(icon_sizes()[next as int] == size);
                return Err(error);
            },
        }
        next = next + 1;
    }
    Ok(icons)
}

/// Builds the seven still icons from the bytes of an animation file: only the
/// first frame is decoded, it is made square once under `method`, and that
/// one square is rendered at every size.
///
/// Fails with [`Error::Decode`] where the decoder rejects the file or finds no
/// frame in it, with [`Error::InvalidGeometry`] where the first frame has no
/// width or no height, with [`Error::Transform`] where its buffer does not
/// match its dimensions, and with [`Error::Write`], naming the file, where
/// the encoder refuses one of the icons.
pub fn build_static_icon_set(source: &[u8], method: ResizeMethod) -> (result: Result<
    Vec<IconFile>,
    Error,
>)
    requires
        largest_frame_is_addressable(),
    ensures
        first_frame_failure(source@) matches Some(error) ==> result == Err::<Vec<IconFile>, Error>(
            error,
        ),
        first_frame_failure(source@) is None ==> match result {
            Ok(icons) => is_icon_set_of(reference_square(source@, method), icons@),
            Err(error) => names_failed_icon(reference_square(source@, method), error),
        },
{
    let first = match read_first_frame(source) {
        Ok(Some(first)) => first,
        Ok(None) => {
            return Err(Error::Decode);
        },
        Err(_) => {
            return Err(Error::Decode);
        },
    };
    let geometry = match resolve(first.width, first.height, method) {
        Ok(geometry) => geometry,
        Err(_) => {
            return Err(Error::InvalidGeometry);
        },
    };
    proof {
        lemma_source_square_fits(geometry.spec_side());
    }
    let square = match square_frame(&first, geometry) {
        Ok(square) => square,
        Err(_) => {
            return Err(Error::Transform);
        },
    };
    icon_set(&square)
}

/// Where a square can be rescaled to one size, it can be rescaled to any
/// smaller size.
pub proof fn lemma_smaller_target_fits(side: u32, size: u32, largest: u32)
    requires
        resample_fits(side, largest),
        size <= largest,
    ensures
        resample_fits(side, size),
{
    assert(4 * (4 * side * size) <= 4 * (4 * side * largest)) by (nonlinear_arith)
        requires
            0 <= size <= largest,
            0 <= side,
    ;
    assert(4 * size * size <= 4 * largest * largest) by (nonlinear_arith)
        requires
            0 <= size <= largest,
    ;
}

/// Wherever the largest frame of a file can be allocated, so can the square
/// of any frame of a file, and that square can be rescaled to every icon
/// size.
pub proof fn lemma_source_square_fits(side: u32)
    requires
        largest_frame_is_addressable(),
        side <= MAX_SOURCE_SIDE,
    ensures
        addressable(buffer_len(side as int, side as int)),
        resample_fits(side, LARGEST_ICON),
{
    assert(4 * side * side <= 4 * 0xFFFF * 0xFFFF) by (nonlinear_arith)
        requires
            0 <= side <= 0xFFFF,
    ;
    assert(4 * (4 * side * 1024) <= 4 * 0xFFFF * 0xFFFF) by (nonlinear_arith)
        requires
            0 <= side <= 0xFFFF,
    ;
}

/// An icon set holds seven icons, and the image of each is a square of
/// exactly its size.
pub proof fn lemma_icon_set_is_complete(square: FrameView, icons: Seq<IconFile>)
    requires
        is_icon_set_of(square, icons),
    ensures
        icons.len() == 7,
        forall|i: int|
            0 <= i < 7 ==> {
                &&& (#[trigger] icons[i]).size == icon_sizes()[i]
                &&& icons[i].name@ == icon_file_name(icon_sizes()[i])
                &&& icons[i].image@.width == icon_sizes()[i]
                &&& icons[i].image@.height == icon_sizes()[i]
                &&& icons[i].image@.well_formed()
            },
{
}

/// The seven icon files are named `16.png`, `32.png`, `64.png`, `128.png`,
/// `256.png`, `512.png` and `1024.png`.
pub proof fn lemma_icon_file_names()
    ensures
        icon_sizes().len() == ICON_COUNT,
        icon_file_name(icon_sizes()[0]) == "16.png"@,
        icon_file_name(icon_sizes()[1]) == "32.png"@,
        icon_file_name(icon_sizes()[2]) == "64.png"@,
        icon_file_name(icon_sizes()[3]) == "128.png"@,
        icon_file_name(icon_sizes()[4]) == "256.png"@,
        icon_file_name(icon_sizes()[5]) == "512.png"@,
        icon_file_name(icon_sizes()[6]) == "1024.png"@,
{
    reveal_strlit(".png");
    reveal_strlit("16.png");
    reveal_strlit("32.png");
    reveal_strlit("64.png");
    reveal_strlit("128.png");
    reveal_strlit("256.png");
    reveal_strlit("512.png");
    reveal_strlit("1024.png");
    reveal_with_fuel(decimal, 5);
    assert(icon_file_name(16) =~= "16.png"@);
    assert(icon_file_name(32) =~= "32.png"@);
    assert(icon_file_name(64) =~= "64.png"@);
    assert(icon_file_name(128) =~= "128.png"@);
    assert(icon_file_name(256) =~= "256.png"@);
    assert(icon_file_name(512) =~= "512.png"@);
    assert(icon_file_name(1024) =~= "1024.png"@);
}

} // verus!
