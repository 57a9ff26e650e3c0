//! The converter: from an image and a width in characters to text art.

use vstd::prelude::*;
use vstd::string::StringExecFns;

use crate::error::ConvertError;
use crate::luma::{luminance, spec_luminance};
use crate::ramp::{glyph_for, glyph_ramp, lemma_glyph_is_not_newline, spec_glyph_for, GLYPH_COUNT};
use crate::raster::{lemma_cell_in_grid, Image, ImageView, Rgb};
use crate::sampling::{lemma_source_index_is_nearest, sample_position, source_index};

verus! {

/// Number of text rows for an output `width` characters wide. A character
/// cell is taken to be twice as tall as it is wide, so the image's aspect
/// ratio is halved: `width * (height / width of the image) / 2`, rounded
/// down. A wide, flat image at a small width gets no rows at all.
pub open spec fn art_height(img: ImageView, width: nat) -> nat
    recommends
        img.width > 0,
{
    (width * img.height) / (2 * img.width)
}

/// The source pixel shown by the character in column `x` of row `y`.
pub open spec fn sampled_pixel(img: ImageView, width: nat, x: int, y: int) -> Rgb {
    img.pixel(
        source_index(x, width as int, img.width as int),
        source_index(y, art_height(img, width) as int, img.height as int),
    )
}

/// The glyph in column `x` of row `y`.
pub open spec fn art_glyph(img: ImageView, width: nat, x: int, y: int) -> char {
    spec_glyph_for(spec_luminance(sampled_pixel(img, width, x, y)))
}

/// Row `y` of the text: `width` glyphs and the newline that ends the line.
pub open spec fn art_line(img: ImageView, width: nat, y: int) -> Seq<char> {
    Seq::new(width, |x: int| art_glyph(img, width, x, y)).push('\n')
}

/// The first `rows` lines of the text, one after the other.
pub open spec fn art_lines(img: ImageView, width: nat, rows: nat) -> Seq<char>
    decreases rows,
{
    if rows == 0 {
        Seq::empty()
    } else {
        art_lines(img, width, (rows - 1) as nat) + art_line(img, width, rows - 1)
    }
}

/// The text art of an image with at least one pixel, for a width of at least
/// one character.
pub open spec fn ascii_art(img: ImageView, width: nat) -> Seq<char> {
    art_lines(img, width, art_height(img, width))
}

/// What converting `img` at `width` yields: a zero width is refused first,
/// then an image without pixels; every other input has its text.
pub open spec fn conversion(img: ImageView, width: nat) -> Result<Seq<char>, ConvertError> {
    if width == 0 {
        Err(ConvertError::InvalidWidth)
    } else if img.width == 0 || img.height == 0 {
        Err(ConvertError::DegenerateImage)
    } else {
        Ok(ascii_art(img, width))
    }
}

/// A result of the converter with its text, if any, taken as a sequence of
/// characters.
pub open spec fn outcome(result: Result<String, ConvertError>) -> Result<Seq<char>, ConvertError> {
    match result {
        Ok(text) => Ok(text@),
        Err(e) => Err(e),
    }
}

/// Position in the text of the character in column `x` of row `y`. Column
/// `width` of a row is its newline.
pub open spec fn char_index(width: nat, x: int, y: int) -> int {
    y * (width + 1) + x
}

/// Computes `art_height` for an image that has columns.
fn output_height(img: &Image, width: u32) -> (rows: u64)
    requires
        img@.width > 0,
    ensures
        rows == art_height(img@, width as nat),
{
    let height: u32 = img.height();
    assert(width * height <= 0xffff_ffff * 0xffff_ffff) by (nonlinear_arith)
        requires
            width <= 0xffff_ffff,
            height <= 0xffff_ffff,
    ;
    let scaled: u64 = width as u64 * height as u64;
    scaled / (2 * img.width() as u64)
}

/// Renders `img` as text art `width` characters wide.
///
/// The text has `art_height` lines of `width` glyphs. The character cells
/// are spread evenly over the image, and each glyph shows the luminance of
/// the one pixel nearest to the centre of its cell (see `source_index`); no
/// pixels are blended. Every line ends with a newline, the last one too.
/// When `art_height` is zero the text is empty.
///
/// A `width` of zero is refused with `InvalidWidth`, and otherwise an image
/// without columns or rows with `DegenerateImage`.
pub fn image_to_ascii(img: &Image, width: u32) -> (result: Result<String, ConvertError>)
    ensures
        outcome(result) == conversion(img@, width as nat),
        result is Ok <==> width > 0 && img@.width > 0 && img@.height > 0,
        result == Err::<String, ConvertError>(ConvertError::InvalidWidth) <==> width == 0,
        result == Err::<String, ConvertError>(ConvertError::DegenerateImage) <==> width > 0 && (
        img@.width == 0 || img@.height == 0),
{
    if width == 0 {
        return Err(ConvertError::InvalidWidth);
    }
    if img.width() == 0 || img.height() == 0 {
        return Err(ConvertError::DegenerateImage);
    }
    let rows: u64 = output_height(img, width);
    let mut text: String = String::new();
    let mut y: u64 = 0;
    while y < rows
        invariant
            y <= rows,
            width > 0,
            img@.width > 0,
            img@.height > 0,
            rows == art_height(img@, width as nat),
            text@ == art_lines(img@, width as nat, y as nat),
        decreases rows - y,
    {
        let source_y: u32 = sample_position(y, rows, img.height());
        let ghost line: Seq<char> = art_line(img@, width as nat, y as int);
        let mut x: u32 = 0;
        while x < width
            invariant
                x <= width,
                y < rows,
                img@.width > 0,
                source_y < img@.height,
                source_y == source_index(y as int, rows as int, img@.height as int),
                rows == art_height(img@, width as nat),
                line == art_line(img@, width as nat, y as int),
                text@ == art_lines(img@, width as nat, y as nat) + line.take(x as int),
            decreases width - x,
        {
            let source_x: u32 = sample_position(x as u64, width as u64, img.width());
            let luma: u8 = luminance(img.pixel_at(source_x, source_y));
            text.append(glyph_for(luma));
            assert(line.take(x + 1) =~= line.take(x as int) + seq![line[x as int]]);
            x = x + 1;
        }
        proof {
            reveal_strlit("\n");
            assert(line =~= line.take(width as int) + "\n"@);
        }
        text.append("\n");
        y = y + 1;
    }
    Ok(text)
}

/// Layout of the first `rows` lines: they fill `rows * (width + 1)`
/// characters, and the character in column `x` of row `y` sits at
/// `char_index(width, x, y)`.
proof fn lemma_art_lines_layout(img: ImageView, width: nat, rows: nat)
    ensures
        art_lines(img, width, rows).len() == rows * (width + 1),
        forall|x: int, y: int|
            0 <= y < rows && 0 <= x <= width ==> 0 <= #[trigger] char_index(width, x, y) < rows * (
            width + 1) && art_lines(img, width, rows)[char_index(width, x, y)] == art_line(
                img,
                width,
                y,
            )[x],
    decreases rows,
{
    let stride = width + 1;
    if rows == 0 {
        assert(rows * stride == 0);
    } else {
        let above = (rows - 1) as nat;
        lemma_art_lines_layout(img, width, above);
        assert(above * stride + stride == rows * stride) by (nonlinear_arith)
            requires
                above + 1 == rows,
        ;
        assert forall|x: int, y: int| 0 <= y < rows && 0 <= x <= width implies 0
            <= #[trigger] char_index(width, x, y) < rows * stride && art_lines(
            img,
            width,
            rows,
        )[char_index(width, x, y)] == art_line(img, width, y)[x] by {
            if y < above {
                assert(0 <= char_index(width, x, y) < above * stride);
            } else {
                assert(char_index(width, x, y) == above * stride + x);
            }
        }
    }
}

/// A text has exactly `art_height` lines, each of exactly `width` glyphs
/// followed by its newline, and no glyph is itself a newline: the character
/// in column `x` of row `y` is `art_glyph(img, width, x, y)`.
pub proof fn lemma_text_layout(img: ImageView, width: nat, text: Seq<char>)
    requires
        conversion(img, width) == Ok::<Seq<char>, ConvertError>(text),
    ensures
        text.len() == art_height(img, width) * (width + 1),
        forall|x: int, y: int|
            0 <= y < art_height(img, width) && 0 <= x < width ==> text[#[trigger] char_index(
                width,
                x,
                y,
            )] == art_glyph(img, width, x, y) && art_glyph(img, width, x, y) != '\n',
        forall|y: int|
            0 <= y < art_height(img, width) ==> text[#[trigger] char_index(width, width as int, y)]
                == '\n',
{
    lemma_art_lines_layout(img, width, art_height(img, width));
    assert forall|x: int, y: int| 0 <= y < art_height(img, width) && 0 <= x < width implies art_glyph(
        img,
        width,
        x,
        y,
    ) != '\n' by {
        lemma_glyph_is_not_newline(spec_luminance(sampled_pixel(img, width, x, y)));
    }
}

/// An image whose pixels all have the same luminance renders as a page of
/// one glyph: every glyph position holds the glyph of that luminance.
pub proof fn lemma_uniform_luminance(img: ImageView, width: nat, luma: u8, text: Seq<char>)
    requires
        img.wf(),
        forall|i: int| 0 <= i < img.pixels.len() ==> spec_luminance(#[trigger] img.pixels[i]) == luma,
        conversion(img, width) == Ok::<Seq<char>, ConvertError>(text),
    ensures
        forall|x: int, y: int|
            0 <= y < art_height(img, width) && 0 <= x < width ==> text[#[trigger] char_index(
                width,
                x,
                y,
            )] == spec_glyph_for(luma),
{
    lemma_text_layout(img, width, text);
    assert forall|x: int, y: int| 0 <= y < art_height(img, width) && 0 <= x < width implies art_glyph(
        img,
        width,
        x,
        y,
    ) == spec_glyph_for(luma) by {
        let column = source_index(x, width as int, img.width as int);
        let row = source_index(y, art_height(img, width) as int, img.height as int);
        lemma_source_index_is_nearest(x, width as int, img.width as int);
        lemma_source_index_is_nearest(y, art_height(img, width) as int, img.height as int);
        lemma_cell_in_grid(column, row, img.width as int, img.height as int);
    }
}

/// A solid black image renders as a page of the first, densest glyph.
pub proof fn lemma_black_image(img: ImageView, width: nat, text: Seq<char>)
    requires
        img.wf(),
        forall|i: int| 0 <= i < img.pixels.len() ==> #[trigger] img.pixels[i] == (Rgb { r: 0, g: 0, b: 0 }),
        conversion(img, width) == Ok::<Seq<char>, ConvertError>(text),
    ensures
        forall|x: int, y: int|
            0 <= y < art_height(img, width) && 0 <= x < width ==> text[#[trigger] char_index(
                width,
                x,
                y,
            )] == glyph_ramp()[0],
{
    lemma_uniform_luminance(img, width, 0, text);
}

/// A solid white image renders as a page of the last, sparsest glyph.
pub proof fn lemma_white_image(img: ImageView, width: nat, text: Seq<char>)
    requires
        img.wf(),
        forall|i: int|
            0 <= i < img.pixels.len() ==> #[trigger] img.pixels[i] == (Rgb { r: 255, g: 255, b: 255 }),
        conversion(img, width) == Ok::<Seq<char>, ConvertError>(text),
    ensures
        forall|x: int, y: int|
            0 <= y < art_height(img, width) && 0 <= x < width ==> text[#[trigger] char_index(
                width,
                x,
                y,
            )] == glyph_ramp()[GLYPH_COUNT - 1],
{
    lemma_uniform_luminance(img, width, 255, text);
}

/// Converting is a function of the image's content and the width: two runs
/// on the same content and width end in the same error or in the same text,
/// character for character.
pub proof fn lemma_conversion_is_deterministic(
    first_img: Image,
    second_img: Image,
    width: u32,
    first: Result<String, ConvertError>,
    second: Result<String, ConvertError>,
)
    requires
        first_img@ == second_img@,
        outcome(first) == conversion(first_img@, width as nat),
        outcome(second) == conversion(second_img@, width as nat),
    ensures
        outcome(first) == outcome(second),
        first is Ok ==> second is Ok && first->Ok_0@ == second->Ok_0@,
        first is Err ==> second is Err && first->Err_0 == second->Err_0,
{
}

} // verus!
