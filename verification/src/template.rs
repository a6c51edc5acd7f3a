//! The assets of the application template: the command file, the still icons
//! and the animated icon, each with the place where it belongs.

use vstd::prelude::*;
use vstd::slice::slice_to_vec;
use vstd::string::StrSliceExecFns;
use vstd::string::StringSliceAdditionalSpecFns;

use crate::animated::{animated_icon, build_animated_icon};
use crate::codec::{largest_frame_is_addressable, png_encoded};
use crate::error::Error;
use crate::frame::FrameView;
use crate::geometry::ResizeMethod;
use crate::icon_set::{
    build_static_icon_set,
    first_frame_failure,
    icon_file_name,
    icon_sizes,
    is_icon_set_of,
    names_failed_icon,
    reference_square,
    ICON_COUNT,
};
use crate::paths::{at, Location, LocationView};
use crate::transform::rescaled_from;

verus! {

/// A file to be written: where, and its bytes.
#[derive(Debug, Clone, PartialEq, Eq)]
pub struct Asset {
    pub location: Location,
    pub contents: Vec<u8>,
}

/// The number of assets that fill a template: the command file, the still
/// icons and the animated icon.
pub const ASSET_COUNT: usize = 9;

/// The asset catalog inside the template.
pub open spec fn catalog(template: Seq<char>) -> LocationView {
    at(template).join("LiveAppIcon"@).join("Assets.xcassets"@)
}

/// Where the command file belongs.
pub open spec fn command_location(template: Seq<char>) -> LocationView {
    catalog(template).join("Command.dataset"@).join("command.txt"@)
}

/// Where the still icon of the given size belongs.
pub open spec fn app_icon_location(template: Seq<char>, size: u32) -> LocationView {
    catalog(template).join("AppIcon.appiconset"@).join(icon_file_name(size))
}

/// Where the animated icon belongs.
pub open spec fn live_app_icon_location(template: Seq<char>) -> LocationView {
    catalog(template).join("LiveAppIcon.dataset"@).join("live_app_icon.gif"@)
}

/// Whether `asset` is the still icon of `size` pixels rendered from `square`,
/// at its place in the template.
pub open spec fn is_app_icon(template: Seq<char>, square: FrameView, size: u32, asset: Asset) -> bool {
    &&& asset.location@ == app_icon_location(template, size)
    &&& exists|image: FrameView|
        #[trigger] rescaled_from(square, size, image) && png_encoded(size, size, image.pixels)
            == Some(asset.contents@)
}

/// Whether `assets`, from position `first` on, are the seven still icons
/// rendered from `square`, in the order of their sizes.
pub open spec fn holds_app_icons(
    template: Seq<char>,
    square: FrameView,
    assets: Seq<Asset>,
    first: int,
) -> bool {
    &&& assets.len() >= first + ICON_COUNT
    &&& forall|i: int|
        0 <= i < ICON_COUNT ==> is_app_icon(
            template,
            square,
            icon_sizes()[i],
            #[trigger] assets[first + i],
        )
}

/// The asset catalog inside the template.
fn catalog_in(template: &str) -> (location: Location)
    ensures
        location@ == catalog(template@),
{
    Location::new(template).join("LiveAppIcon").join("Assets.xcassets")
}

/// The command file: the command, byte for byte, at its place in the
/// template.
pub fn write_command_file(template: &str, command: &str) -> (asset: Asset)
    ensures
        asset.location@ == command_location(template@),
        asset.contents@ == command.spec_bytes(),
{
    Asset {
        location: catalog_in(template).join("Command.dataset").join("command.txt"),
        contents: command.as_bytes_vec(),
    }
}

/// The still icons of the animation file `icon`, each at its place in the
/// template, in the order of their sizes.
///
/// Fails as [`build_static_icon_set`] does.
pub fn write_app_icon(template: &str, icon: &[u8], method: ResizeMethod) -> (result: Result<
    Vec<Asset>,
    Error,
>)
    requires
        largest_frame_is_addressable(),
    ensures
        first_frame_failure(icon@) matches Some(error) ==> result == Err::<Vec<Asset>, Error>(error),
        first_frame_failure(icon@) is None ==> match result {
            Ok(assets) => assets@.len() == ICON_COUNT && holds_app_icons(
                template@,
                reference_square(icon@, method),
                assets@,
                0,
            ),
            Err(error) => names_failed_icon(reference_square(icon@, method), error),
        },
{
    let icons = match build_static_icon_set(icon, method) {
        Ok(icons) => icons,
        Err(error) => {
            return Err(error);
        },
    };
    let ghost square = reference_square(icon@, method);
    let ghost rendered = icons@;
    let mut assets: Vec<Asset> = Vec::new();
    let mut next: usize = 0;
    while next < ICON_COUNT
        invariant
            next <= ICON_COUNT,
            icons@ == rendered,
            is_icon_set_of(square, rendered),
            assets@.len() == next,
            forall|i: int|
                0 <= i < next ==> is_app_icon(template@, square, icon_sizes()[i], #[trigger] assets@[i]),
        decreases ICON_COUNT - next,
    {
        let name = icons[next].name.clone();
        let contents = slice_to_vec(icons[next].contents.as_slice());
        let location = catalog_in(template).join("AppIcon.appiconset").join(name.as_str());
        let asset = Asset { location, contents };
        proof {
            let size = icon_sizes()[next as int];
            assert(rescaled_from(square, size, rendered[next as int].image@));
            assert(is_app_icon(template@, square, size, asset));
        }
        assets.push(asset);
        next = next + 1;
    }
    Ok(assets)
}

/// The animated icon of the animation file `icon`, at its place in the
/// template.
///
/// Fails as [`build_animated_icon`] does.
pub fn write_live_app_icon(template: &str, icon: &[u8], method: ResizeMethod) -> (result: Result<
    Asset,
    Error,
>)
    requires
        largest_frame_is_addressable(),
    ensures
        match result {
            Ok(asset) => {
                &&& asset.location@ == live_app_icon_location(template@)
                &&& animated_icon(icon@, method) == Ok::<Seq<u8>, Error>(asset.contents@)
            },
            Err(error) => animated_icon(icon@, method) == Err::<Seq<u8>, Error>(error),
        },
{
    match build_animated_icon(icon, method) {
        Ok(contents) => Ok(
            Asset {
                location: catalog_in(template).join("LiveAppIcon.dataset").join(
                    "live_app_icon.gif",
                ),
                contents,
            },
        ),
        Err(error) => Err(error),
    }
}

/// Everything that fills the template at `template`: the command file with
/// `command`, then the seven still icons and the animated icon made of the
/// animation file `icon` under `resize_icon_method`.
///
/// Fails with the first error of the still icons, or else of the animated
/// icon; nothing is returned then.
pub fn fill_template_project(
    template: &str,
    command: &str,
    icon: &[u8],
    resize_icon_method: ResizeMethod,
) -> (result: Result<Vec<Asset>, Error>)
    requires
        largest_frame_is_addressable(),
    ensures
        first_frame_failure(icon@) matches Some(error) ==> result == Err::<Vec<Asset>, Error>(error),
        first_frame_failure(icon@) is None ==> match result {
            Ok(assets) => {
                &&& assets@.len() == ASSET_COUNT
                &&& assets@[0].location@ == command_location(template@)
                &&& assets@[0].contents@ == command.spec_bytes()
                &&& holds_app_icons(
                    template@,
                    reference_square(icon@, resize_icon_method),
                    assets@,
                    1,
                )
                &&& assets@[8].location@ == live_app_icon_location(template@)
                &&& animated_icon(icon@, resize_icon_method) == Ok::<Seq<u8>, Error>(
                    assets@[8].contents@,
                )
            },
            Err(error) => names_failed_icon(
                reference_square(icon@, resize_icon_method),
                error,
            ) || animated_icon(icon@, resize_icon_method) == Err::<Seq<u8>, Error>(error),
        },
{
    let command_file = write_command_file(template, command);
    let mut icons = match write_app_icon(template, icon, resize_icon_method) {
        Ok(icons) => icons,
        Err(error) => {
            return Err(error);
        },
    };
    let live = match write_live_app_icon(template, icon, resize_icon_method) {
        Ok(live) => live,
        Err(error) => {
            return Err(error);
        },
    };
    let ghost placed = icons@;
    let mut assets: Vec<Asset> = Vec::new();
    assets.push(command_file);
    assets.append(&mut icons);
    assets.push(live);
    assert(forall|i: int| 0 <= i < ICON_COUNT ==> #[trigger] assets@[1 + i] == placed[0 + i]);
    Ok(assets)
}

} // verus!
