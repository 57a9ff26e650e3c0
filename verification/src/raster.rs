//! Decoded images: a grid of 8-bit colour pixels held in one byte buffer.

use vstd::prelude::*;

use crate::error::ConvertError;

verus! {

/// The colour of one pixel. An alpha channel, where the buffer has one, plays
/// no part in rendering and is not part of the colour.
#[derive(Debug, Clone, Copy, PartialEq, Eq, Structural)]
pub struct Rgb {
    pub r: u8,
    pub g: u8,
    pub b: u8,
}

/// How the bytes of one pixel are laid out in the buffer.
#[derive(Debug, Clone, Copy, PartialEq, Eq, Structural)]
pub enum PixelLayout {
    /// Three bytes per pixel: red, green, blue.
    Rgb8,
    /// Four bytes per pixel: red, green, blue, alpha.
    Rgba8,
}

impl PixelLayout {
    /// Bytes per pixel.
    pub open spec fn spec_channels(self) -> nat {
        match self {
            PixelLayout::Rgb8 => 3,
            PixelLayout::Rgba8 => 4,
        }
    }

    /// Bytes per pixel.
    pub fn channels(self) -> (n: usize)
        ensures
            n == self.spec_channels(),
    {
        match self {
            PixelLayout::Rgb8 => 3,
            PixelLayout::Rgba8 => 4,
        }
    }
}

/// The mathematical content of an image: its dimensions and its pixels in
/// row-major order.
pub struct ImageView {
    pub width: nat,
    pub height: nat,
    pub pixels: Seq<Rgb>,
}

impl ImageView {
    /// There is exactly one pixel per grid cell.
    pub open spec fn wf(self) -> bool {
        self.pixels.len() == self.width * self.height
    }

    /// The pixel in column `x` of row `y`.
    pub open spec fn pixel(self, x: int, y: int) -> Rgb
        recommends
            0 <= x < self.width,
            0 <= y < self.height,
    {
        self.pixels[y * self.width + x]
    }
}

/// Number of bytes in the buffer of a `width` by `height` image.
pub open spec fn buffer_len(width: u32, height: u32, layout: PixelLayout) -> nat {
    (width as nat) * (height as nat) * layout.spec_channels()
}

/// The image that a well-sized buffer describes: pixel `i` in row-major order
/// takes its colour from the first three bytes of the `i`-th group.
pub open spec fn decoded(width: u32, height: u32, layout: PixelLayout, data: Seq<u8>) -> ImageView {
    ImageView {
        width: width as nat,
        height: height as nat,
        pixels: Seq::new(
            (width as nat) * (height as nat),
            |i: int|
                Rgb {
                    r: data[i * layout.spec_channels()],
                    g: data[i * layout.spec_channels() + 1],
                    b: data[i * layout.spec_channels() + 2],
                },
        ),
    }
}

/// A decoded image that owns its pixel buffer.
#[derive(Debug)]
pub struct Image {
    width: u32,
    height: u32,
    layout: PixelLayout,
    data: Vec<u8>,
}

impl View for Image {
    type V = ImageView;

    closed spec fn view(&self) -> ImageView {
        decoded(self.width, self.height, self.layout, self.data@)
    }
}

impl Image {
    #[verifier::type_invariant]
    spec fn well_sized(self) -> bool {
        self.data@.len() == buffer_len(self.width, self.height, self.layout)
    }

    /// Wraps a pixel buffer. The buffer must hold exactly one group of bytes
    /// per pixel, rows from top to bottom and pixels from left to right;
    /// any other length is refused. An image without columns or rows is
    /// accepted here, with an empty buffer.
    pub fn from_raw(width: u32, height: u32, layout: PixelLayout, data: Vec<u8>) -> (result: Result<
        Image,
        ConvertError,
    >)
        ensures
            data@.len() == buffer_len(width, height, layout) ==> result.is_ok()
                && result.unwrap()@ == decoded(width, height, layout, data@),
            data@.len() != buffer_len(width, height, layout) ==> result == Err::<Image, ConvertError>(
                ConvertError::UnsupportedImage,
            ),
    {
        let pixels: u64 = pixel_count(width, height);
        let channels: usize = layout.channels();
        assert(pixels * channels <= 4 * u64::MAX) by (nonlinear_arith)
            requires
                pixels <= u64::MAX,
                channels <= 4,
        ;
        let expected: u128 = pixels as u128 * channels as u128;
        if data.len() as u128 == expected {
            Ok(Image { width, height, layout, data })
        } else {
            Err(ConvertError::UnsupportedImage)
        }
    }

    /// Number of pixel columns.
    pub fn width(&self) -> (w: u32)
        ensures
            w == self@.width,
    {
        self.width
    }

    /// Number of pixel rows.
    pub fn height(&self) -> (h: u32)
        ensures
            h == self@.height,
    {
        self.height
    }

    /// The image's content is always a full grid.
    pub proof fn lemma_view_wf(&self)
        ensures
            self@.wf(),
    {
    }

    /// The colour of the pixel in column `x` of row `y`, or `None` outside
    /// the image.
    pub fn pixel(&self, x: u32, y: u32) -> (p: Option<Rgb>)
        ensures
            x < self@.width && y < self@.height ==> p == Some(self@.pixel(x as int, y as int)),
            !(x < self@.width && y < self@.height) ==> p.is_none(),
    {
        if x < self.width && y < self.height {
            Some(self.pixel_at(x, y))
        } else {
            None
        }
    }

    /// The colour of a pixel known to lie inside the image.
    pub(crate) fn pixel_at(&self, x: u32, y: u32) -> (p: Rgb)
        requires
            x < self@.width,
            y < self@.height,
        ensures
            p == self@.pixel(x as int, y as int),
    {
        proof {
            use_type_invariant(self);
            lemma_cell_in_grid(x as int, y as int, self.width as int, self.height as int);
        }
        let channels: usize = self.layout.channels();
        let ghost cell: int = y * self.width + x;
        let ghost cells: int = self.width * self.height;
        assert(cell <= cell * channels && cell * channels + channels <= cells * channels)
            by (nonlinear_arith)
            requires
                0 <= cell < cells,
                channels >= 3,
        ;
        assert(cells * channels == self.data.len());
        let row_start: usize = y as usize * self.width as usize;
        let base: usize = (row_start + x as usize) * channels;
        Rgb { r: self.data[base], g: self.data[base + 1], b: self.data[base + 2] }
    }
}

/// Number of pixels in a `width` by `height` grid.
fn pixel_count(width: u32, height: u32) -> (n: u64)
    ensures
        n == width * height,
{
    assert(width * height <= 0xffff_ffff * 0xffff_ffff) by (nonlinear_arith)
        requires
            width <= 0xffff_ffff,
            height <= 0xffff_ffff,
    ;
    width as u64 * height as u64
}

/// Row-major numbering sends every cell of a grid to its own index below the
/// number of cells.
pub proof fn lemma_cell_in_grid(x: int, y: int, width: int, height: int)
    requires
        0 <= x < width,
        0 <= y < height,
    ensures
        0 <= y * width + x < width * height,
        0 <= y * width,
{
    assert(0 <= y * width) by (nonlinear_arith)
        requires
            0 <= y,
            0 <= width,
    ;
    assert(y * width + width <= width * height) by (nonlinear_arith)
        requires
            y + 1 <= height,
            0 <= width,
    ;
}

} // verus!
