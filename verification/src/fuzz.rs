//! What a fuzzing run leaves to chance: the glyph of the font that it converts.
use crate::glyph::Glyph;
use crate::ttf::TTFFile;
use rand::{thread_rng, Rng};
use vstd::prelude::*;

verus! {

/// A number below `bound`, picked by chance.
///
/// This is `gen_range` of the crate `rand`, on the random number generator of
/// the running thread and with the range `0..bound`. Verus takes the contract
/// on trust. It claims what `rand` documents of `gen_range`: the value lies in
/// the range. Which value comes is left open, and two calls may differ.
/// `gen_range` panics on an empty range; `bound > 0` keeps that out. The
/// generator is seeded from the system when a thread first uses it, and
/// again whenever it has given out its share of numbers; it panics where the
/// system then has nothing to seed it with. No input rules that out.
#[verifier::external_body]
fn random_below(bound: usize) -> (index: usize)
    requires
        bound > 0,
    ensures
        index < bound,
{
    thread_rng().gen_range(0..bound)
}

/// Picks a glyph of the font by chance. Whatever the pick, it is a glyph of
/// the font: the lookup that follows it cannot fail.
pub fn pick_glyph<'a>(font: &'a mut TTFFile) -> (glyph: Glyph<'a>)
    requires
        old(font).glyphs() > 0,
    ensures
        *final(font) == *old(font),
        glyph.index_spec() < old(font).glyphs(),
{
    let glyph_count: usize = font.glyph_count();
    let index: usize = random_below(glyph_count);
    font.glyph_by_index(index).unwrap()
}

} // verus!
