//! Renders raster images as text art.
//!
//! Each character of the output stands for one sampled pixel of the source:
//! the pixel's luminance selects a glyph from a fixed ramp that runs from the
//! densest glyph (dark) to the sparsest (light).

pub mod ascii;
pub mod error;
pub mod luma;
pub mod ramp;
pub mod raster;
pub mod sampling;

pub use ascii::image_to_ascii;
pub use error::ConvertError;
pub use ramp::{glyph_for, ramp_index, GLYPH_COUNT};
pub use raster::{Image, PixelLayout, Rgb};
