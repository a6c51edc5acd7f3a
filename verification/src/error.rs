//! The failures that the icon pipeline reports.

use vstd::prelude::*;

verus! {

/// Why an icon could not be produced.
#[derive(Debug, Clone, PartialEq, Eq)]
pub enum Error {
    /// The source image has no width or no height.
    InvalidGeometry,
    /// The source is not an animated image that the decoder accepts.
    Decode,
    /// A frame's buffer does not match its dimensions, or a transform does not
    /// apply to the frame it was given.
    Transform,
    /// The animation could not be encoded again.
    Encode,
    /// One still icon could not be rendered; `path` names its file.
    Write { path: String },
}

} // verus!
