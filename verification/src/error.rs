//! Failures reported by the converter and by the image constructors.

use vstd::prelude::*;

verus! {

/// Why an image could not be built or rendered.
#[derive(Debug, Clone, Copy, PartialEq, Eq, Structural)]
pub enum ConvertError {
    /// The requested output width is zero.
    InvalidWidth,
    /// The source image has no columns or no rows.
    DegenerateImage,
    /// The pixel buffer does not describe an image of the stated dimensions.
    UnsupportedImage,
}

} // verus!
