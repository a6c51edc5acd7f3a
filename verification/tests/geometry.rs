use live_app_icon::geometry::{resolve, ResizeMethod, SquareTransform};
use live_app_icon::Error;

#[test]
fn wide_source_is_cropped_to_its_centre() {
    let resolved = resolve(100, 50, ResizeMethod::CenterCrop);
    assert_eq!(resolved, Ok(SquareTransform::Crop { x: 25, y: 0, side: 50 }));
}

#[test]
fn wide_source_is_fitted_on_a_canvas() {
    let resolved = resolve(100, 50, ResizeMethod::CenterFit);
    assert_eq!(resolved, Ok(SquareTransform::Canvas { side: 100, x: 0, y: 25 }));
}

#[test]
fn tall_source_is_cropped_to_its_centre() {
    let resolved = resolve(30, 100, ResizeMethod::CenterCrop);
    assert_eq!(resolved, Ok(SquareTransform::Crop { x: 0, y: 35, side: 30 }));
}

#[test]
fn tall_source_is_fitted_on_a_canvas() {
    let resolved = resolve(30, 100, ResizeMethod::CenterFit);
    assert_eq!(resolved, Ok(SquareTransform::Canvas { side: 100, x: 35, y: 0 }));
}

#[test]
fn odd_margin_is_rounded_down() {
    assert_eq!(
        resolve(5, 2, ResizeMethod::CenterCrop),
        Ok(SquareTransform::Crop { x: 1, y: 0, side: 2 })
    );
    assert_eq!(
        resolve(5, 2, ResizeMethod::CenterFit),
        Ok(SquareTransform::Canvas { side: 5, x: 0, y: 1 })
    );
}

#[test]
fn square_source_resolves_to_no_offset() {
    assert_eq!(
        resolve(64, 64, ResizeMethod::CenterCrop),
        Ok(SquareTransform::Crop { x: 0, y: 0, side: 64 })
    );
    assert_eq!(
        resolve(64, 64, ResizeMethod::CenterFit),
        Ok(SquareTransform::Canvas { side: 64, x: 0, y: 0 })
    );
}

#[test]
fn source_without_width_or_height_is_rejected() {
    assert_eq!(resolve(0, 10, ResizeMethod::CenterCrop), Err(Error::InvalidGeometry));
    assert_eq!(resolve(10, 0, ResizeMethod::CenterCrop), Err(Error::InvalidGeometry));
    assert_eq!(resolve(0, 0, ResizeMethod::CenterFit), Err(Error::InvalidGeometry));
    assert_eq!(resolve(0, 7, ResizeMethod::CenterFit), Err(Error::InvalidGeometry));
}

#[test]
fn largest_sides_do_not_overflow() {
    assert_eq!(
        resolve(u32::MAX, 1, ResizeMethod::CenterCrop),
        Ok(SquareTransform::Crop { x: (u32::MAX - 1) / 2, y: 0, side: 1 })
    );
    assert_eq!(
        resolve(1, u32::MAX, ResizeMethod::CenterFit),
        Ok(SquareTransform::Canvas { side: u32::MAX, x: (u32::MAX - 1) / 2, y: 0 })
    );
}

#[test]
fn crop_lies_inside_the_source() {
    for (width, height) in [(1u32, 1u32), (2, 9), (9, 2), (7, 7), (640, 480), (3, 1000)] {
        match resolve(width, height, ResizeMethod::CenterCrop) {
            Ok(SquareTransform::Crop { x, y, side }) => {
                assert_eq!(side, width.min(height));
                assert!(x + side <= width);
                assert!(y + side <= height);
            }
            other => panic!("unexpected {:?}", other),
        }
    }
}

#[test]
fn canvas_holds_the_source() {
    for (width, height) in [(1u32, 1u32), (2, 9), (9, 2), (7, 7), (640, 480), (3, 1000)] {
        match resolve(width, height, ResizeMethod::CenterFit) {
            Ok(SquareTransform::Canvas { side, x, y }) => {
                assert_eq!(side, width.max(height));
                assert!(x + width <= side);
                assert!(y + height <= side);
            }
            other => panic!("unexpected {:?}", other),
        }
    }
}

#[test]
fn transform_knows_its_side_and_where_it_applies() {
    let crop = SquareTransform::Crop { x: 25, y: 0, side: 50 };
    assert_eq!(crop.side(), 50);
    assert!(crop.fits(100, 50));
    assert!(!crop.fits(50, 50));
    assert!(!crop.fits(100, 49));
    let canvas = SquareTransform::Canvas { side: 100, x: 0, y: 25 };
    assert_eq!(canvas.side(), 100);
    assert!(canvas.fits(100, 50));
    assert!(!canvas.fits(100, 76));
    assert!(!canvas.fits(0, 50));
    assert!(!(SquareTransform::Crop { x: 0, y: 0, side: 0 }).fits(4, 4));
}
