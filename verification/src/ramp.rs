//! The glyph ramp and the quantisation of luminance onto it.

use vstd::prelude::*;

verus! {

/// Number of glyphs in the ramp.
pub const GLYPH_COUNT: usize = 11;

/// The ramp, ordered from the glyph with the most ink to the one with the least.
pub open spec fn glyph_ramp() -> Seq<char> {
    seq!['@', '#', 'S', '%', '?', '*', '+', ';', ':', ',', '.']
}

/// The ramp position of a luminance sample: the range `0..=255` is scaled
/// linearly onto `0..=GLYPH_COUNT - 1` and rounded down.
pub open spec fn spec_ramp_index(luma: u8) -> int {
    luma as int * (GLYPH_COUNT as int - 1) / 255
}

/// The glyph that renders a luminance sample.
pub open spec fn spec_glyph_for(luma: u8) -> char {
    glyph_ramp()[spec_ramp_index(luma)]
}

/// Computes the ramp position of a luminance sample.
pub fn ramp_index(luma: u8) -> (idx: usize)
    ensures
        idx == spec_ramp_index(luma),
        idx < GLYPH_COUNT,
{
    let last: usize = GLYPH_COUNT - 1;
    assert(last == 10);
    let scaled: usize = luma as usize * last;
    scaled / 255
}

/// Selects the glyph that renders a luminance sample, as a one-character
/// string.
pub fn glyph_for(luma: u8) -> (glyph: &'static str)
    ensures
        glyph@ == seq![spec_glyph_for(luma)],
{
    let idx: usize = ramp_index(luma);
    proof {
        reveal_strlit("@");
        reveal_strlit("#");
        reveal_strlit("S");
        reveal_strlit("%");
        reveal_strlit("?");
        reveal_strlit("*");
        reveal_strlit("+");
        reveal_strlit(";");
        reveal_strlit(":");
        reveal_strlit(",");
        reveal_strlit(".");
    }
    let glyph: &'static str = match idx {
        0 => "@",
        1 => "#",
        2 => "S",
        3 => "%",
        4 => "?",
        5 => "*",
        6 => "+",
        7 => ";",
        8 => ":",
        9 => ",",
        _ => ".",
    };
    assert(glyph@ =~= seq![spec_glyph_for(luma)]);
    glyph
}

/// Quantisation never maps a brighter sample to a darker glyph: the ramp
/// position is non-decreasing in the luminance.
pub proof fn lemma_ramp_index_monotonic(p1: u8, p2: u8)
    requires
        p1 < p2,
    ensures
        spec_ramp_index(p1) <= spec_ramp_index(p2),
{
}

/// Every glyph of the ramp is a visible character, so a newline in the text
/// always ends a line.
pub proof fn lemma_glyph_is_not_newline(luma: u8)
    ensures
        spec_glyph_for(luma) != '\n',
        0 <= spec_ramp_index(luma) < glyph_ramp().len(),
{
}

/// Both ends of the luminance range land exactly on the ends of the ramp.
pub proof fn lemma_ramp_index_endpoints()
    ensures
        glyph_ramp().len() == GLYPH_COUNT,
        spec_ramp_index(0) == 0,
        spec_ramp_index(255) == GLYPH_COUNT - 1,
        spec_glyph_for(0) == '@',
        spec_glyph_for(255) == '.',
{
}

} // verus!
