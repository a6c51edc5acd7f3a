//! How a rectangle of pixels becomes a square: by cropping its centre, or by
//! centring it on a larger canvas.

use vstd::prelude::*;

use crate::error::Error;

verus! {

/// The rule by which an image that is not square is made square.
#[derive(Debug, Clone, Copy, PartialEq, Eq, Structural)]
pub enum ResizeMethod {
    /// Keep the centred square whose side is the shorter side of the image.
    CenterCrop,
    /// Centre the image on a transparent square whose side is its longer side.
    CenterFit,
}

/// A resolved operation that makes an image of known dimensions square.
#[derive(Debug, Clone, Copy, PartialEq, Eq, Structural)]
pub enum SquareTransform {
    /// Keep the `side` by `side` pixels whose top left corner is at `(x, y)`.
    Crop { x: u32, y: u32, side: u32 },
    /// Place the image with its top left corner at `(x, y)` of an empty
    /// `side` by `side` canvas.
    Canvas { side: u32, x: u32, y: u32 },
}

/// The shorter of two sides.
pub open spec fn shorter(width: int, height: int) -> int {
    if width <= height {
        width
    } else {
        height
    }
}

/// The longer of two sides.
pub open spec fn longer(width: int, height: int) -> int {
    if width >= height {
        width
    } else {
        height
    }
}

/// The transform that `method` prescribes for a `width` by `height` image.
pub open spec fn resolved(width: u32, height: u32, method: ResizeMethod) -> SquareTransform {
    match method {
        ResizeMethod::CenterCrop => {
            let side = shorter(width as int, height as int);
            SquareTransform::Crop {
                x: ((width - side) / 2) as u32,
                y: ((height - side) / 2) as u32,
                side: side as u32,
            }
        },
        ResizeMethod::CenterFit => {
            let side = longer(width as int, height as int);
            SquareTransform::Canvas {
                side: side as u32,
                x: ((side - width) / 2) as u32,
                y: ((side - height) / 2) as u32,
            }
        },
    }
}

impl SquareTransform {
    /// The side of the square that the transform produces.
    pub open spec fn spec_side(self) -> u32 {
        match self {
            SquareTransform::Crop { side, .. } => side,
            SquareTransform::Canvas { side, .. } => side,
        }
    }

    /// The horizontal and vertical offset of the transform.
    pub open spec fn spec_offset(self) -> (u32, u32) {
        match self {
            SquareTransform::Crop { x, y, .. } => (x, y),
            SquareTransform::Canvas { x, y, .. } => (x, y),
        }
    }

    /// Whether the transform can be applied to a `width` by `height` image:
    /// the image is not empty, a crop lies inside it and is not empty, and a
    /// canvas holds all of it.
    pub open spec fn applies_to(self, width: u32, height: u32) -> bool {
        &&& width > 0
        &&& height > 0
        &&& match self {
            SquareTransform::Crop { x, y, side } => {
                &&& side > 0
                &&& x + side <= width
                &&& y + side <= height
            },
            SquareTransform::Canvas { side, x, y } => {
                &&& x + width <= side
                &&& y + height <= side
            },
        }
    }

    /// Whether the transform leaves a `width` by `height` image as it is.
    pub open spec fn is_identity_on(self, width: u32, height: u32) -> bool {
        self.spec_side() == width && self.spec_side() == height && self.spec_offset() == (0u32, 0u32)
    }

    /// The side of the square that the transform produces.
    #[verifier::when_used_as_spec(spec_side)]
    pub fn side(self) -> (side: u32)
        ensures
            side == self.spec_side(),
    {
        match self {
            SquareTransform::Crop { side, .. } => side,
            SquareTransform::Canvas { side, .. } => side,
        }
    }

    /// Decides whether the transform can be applied to a `width` by `height`
    /// image.
    pub fn fits(self, width: u32, height: u32) -> (fits: bool)
        ensures
            fits == self.applies_to(width, height),
    {
        if width == 0 || height == 0 {
            return false;
        }
        match self {
            SquareTransform::Crop { x, y, side } => {
                side > 0 && side <= width && x <= width - side && side <= height && y <= height
                    - side
            },
            SquareTransform::Canvas { side, x, y } => {
                width <= side && x <= side - width && height <= side && y <= side - height
            },
        }
    }
}

/// Resolves the transform that makes a `width` by `height` image square under
/// `method`. An image without width or height has none.
pub fn resolve(width: u32, height: u32, method: ResizeMethod) -> (result: Result<
    SquareTransform,
    Error,
>)
    ensures
        width == 0 || height == 0 ==> result == Err::<SquareTransform, Error>(
            Error::InvalidGeometry,
        ),
        width > 0 && height > 0 ==> result == Ok::<SquareTransform, Error>(
            resolved(width, height, method),
        ),
{
    if width == 0 || height == 0 {
        return Err(Error::InvalidGeometry);
    }
    match method {
        ResizeMethod::CenterCrop => {
            let side: u32 = if width <= height {
                width
            } else {
                height
            };
            Ok(SquareTransform::Crop { x: (width - side) / 2, y: (height - side) / 2, side })
        },
        ResizeMethod::CenterFit => {
            let side: u32 = if width >= height {
                width
            } else {
                height
            };
            Ok(SquareTransform::Canvas { side, x: (side - width) / 2, y: (side - height) / 2 })
        },
    }
}

/// A centred crop is a square of the shorter side that lies inside the image.
pub proof fn lemma_center_crop_lies_inside(width: u32, height: u32)
    requires
        width > 0,
        height > 0,
    ensures
        resolved(width, height, ResizeMethod::CenterCrop) matches SquareTransform::Crop {
            x,
            y,
            side,
        } && {
            &&& side == shorter(width as int, height as int)
            &&& 0 <= x && x + side <= width
            &&& 0 <= y && y + side <= height
            &&& x == (width - side) / 2
            &&& y == (height - side) / 2
        },
        resolved(width, height, ResizeMethod::CenterCrop).applies_to(width, height),
{
}

/// A centred fit is a square canvas of the longer side that holds all of the
/// image.
pub proof fn lemma_center_fit_holds_image(width: u32, height: u32)
    requires
        width > 0,
        height > 0,
    ensures
        resolved(width, height, ResizeMethod::CenterFit) matches SquareTransform::Canvas {
            side,
            x,
            y,
        } && {
            &&& side == longer(width as int, height as int)
            &&& 0 <= x && x + width <= side
            &&& 0 <= y && y + height <= side
            &&& x == (side - width) / 2
            &&& y == (side - height) / 2
        },
        resolved(width, height, ResizeMethod::CenterFit).applies_to(width, height),
{
}

/// On an image that is square already, either method resolves to the transform
/// that keeps every pixel where it is.
pub proof fn lemma_square_resolves_to_identity(side: u32, method: ResizeMethod)
    requires
        side > 0,
    ensures
        resolved(side, side, method).is_identity_on(side, side),
        resolved(side, side, ResizeMethod::CenterCrop) == (SquareTransform::Crop {
            x: 0,
            y: 0,
            side,
        }),
        resolved(side, side, ResizeMethod::CenterFit) == (SquareTransform::Canvas {
            side,
            x: 0,
            y: 0,
        }),
{
}

} // verus!
