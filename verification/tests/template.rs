use image::codecs::gif::GifEncoder;
use image::{ImageFormat, RgbaImage};
use live_app_icon::geometry::ResizeMethod;
use live_app_icon::paths::{copy_dir_destination, copy_file_destination, Location};
use live_app_icon::template::{
    fill_template_project, write_app_icon, write_command_file, write_live_app_icon,
};
use live_app_icon::Error;

fn animation(width: u32, height: u32) -> Vec<u8> {
    let mut bytes = Vec::new();
    {
        let mut encoder = GifEncoder::new(&mut bytes);
        let buffer = RgbaImage::from_pixel(width, height, image::Rgba([10, 20, 30, 255]));
        encoder.encode_frame(image::Frame::new(buffer)).unwrap();
    }
    bytes
}

fn location(base: &str, parts: &[&str]) -> Location {
    Location { base: base.to_string(), parts: parts.iter().map(|part| part.to_string()).collect() }
}

#[test]
fn command_file_holds_the_command() {
    let asset = write_command_file("/work/app_template", "say \"héllo\"");
    assert_eq!(
        asset.location,
        location(
            "/work/app_template",
            &["LiveAppIcon", "Assets.xcassets", "Command.dataset", "command.txt"]
        )
    );
    assert_eq!(asset.contents, "say \"héllo\"".as_bytes());
}

#[test]
fn still_icons_are_placed_in_the_icon_set() {
    let assets = write_app_icon("template", &animation(12, 6), ResizeMethod::CenterCrop).unwrap();
    let names = ["16.png", "32.png", "64.png", "128.png", "256.png", "512.png", "1024.png"];
    assert_eq!(assets.len(), 7);
    for (asset, (name, size)) in assets.iter().zip(names.iter().zip([16u32, 32, 64, 128, 256, 512, 1024])) {
        assert_eq!(
            asset.location,
            location("template", &["LiveAppIcon", "Assets.xcassets", "AppIcon.appiconset", name])
        );
        let still = image::load_from_memory_with_format(&asset.contents, ImageFormat::Png).unwrap();
        assert_eq!((still.width(), still.height()), (size, size));
    }
}

#[test]
fn animated_icon_is_placed_in_the_data_set() {
    let source = animation(6, 6);
    let asset = write_live_app_icon("template", &source, ResizeMethod::CenterFit).unwrap();
    assert_eq!(
        asset.location,
        location(
            "template",
            &["LiveAppIcon", "Assets.xcassets", "LiveAppIcon.dataset", "live_app_icon.gif"]
        )
    );
    assert_eq!(asset.contents, source);
}

#[test]
fn template_is_filled_with_nine_assets_in_order() {
    let source = animation(12, 6);
    let assets = fill_template_project("t", "open .", &source, ResizeMethod::CenterFit).unwrap();
    assert_eq!(assets.len(), 9);
    assert_eq!(assets[0].location.parts.last().unwrap(), "command.txt");
    assert_eq!(assets[0].contents, b"open .");
    let names: Vec<&str> =
        assets[1..8].iter().map(|asset| asset.location.parts.last().unwrap().as_str()).collect();
    assert_eq!(names, ["16.png", "32.png", "64.png", "128.png", "256.png", "512.png", "1024.png"]);
    assert_eq!(assets[8].location.parts.last().unwrap(), "live_app_icon.gif");
    assert_ne!(assets[8].contents, source);
    for asset in &assets {
        assert_eq!(asset.location.base, "t");
        assert_eq!(&asset.location.parts[..2], ["LiveAppIcon", "Assets.xcassets"]);
    }
}

#[test]
fn template_is_not_filled_from_what_is_no_animation() {
    assert_eq!(
        fill_template_project("t", "open .", b"plain text", ResizeMethod::CenterCrop),
        Err(Error::Decode)
    );
    assert_eq!(write_app_icon("t", b"plain text", ResizeMethod::CenterCrop), Err(Error::Decode));
    assert_eq!(write_live_app_icon("t", b"plain text", ResizeMethod::CenterCrop), Err(Error::Decode));
}

#[test]
fn locations_are_joined_name_by_name() {
    let joined = Location::new("/tmp").join("a").join("b.txt");
    assert_eq!(joined, location("/tmp", &["a", "b.txt"]));
    assert_eq!(joined.clone_location(), joined);
    assert_eq!(Location::new(""), location("", &[]));
}

#[test]
fn copies_arrive_under_their_own_name() {
    assert_eq!(copy_file_destination("/out", false, "a.gif"), location("/out", &["a.gif"]));
    assert_eq!(copy_file_destination("/out/b.gif", true, "a.gif"), location("/out/b.gif", &[]));
    assert_eq!(copy_dir_destination("/work", "app_template"), location("/work", &["app_template"]));
}
