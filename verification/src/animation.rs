//! The per-tick update rule of the animation driver: for every currently
//! displayed glyph, an independent one-in-ten chance of being replaced by a
//! fresh draw from the glyph set.

use vstd::prelude::*;

use crate::glyphs::{get_random_char, glyph_from};
use crate::rng::random_in_range;

verus! {

/// An independent Bernoulli trial with success probability one in ten:
/// should this glyph change now?
pub fn should_change_char() -> (r: bool) {
    let draw: u64 = random_in_range(0, 9);
    draw == 0
}

/// One firing of the recurring animation task, over the displayed texts of
/// the currently enumerated glyph nodes: each entry is independently left
/// unchanged or, with probability one in ten, overwritten with one glyph
/// drawn fresh from `charset`. An empty set leaves every entry unchanged.
pub fn animation_tick(texts: &mut Vec<String>, charset: &str)
    ensures
        final(texts)@.len() == old(texts)@.len(),
        forall|i: int|
            0 <= i < final(texts)@.len() ==> ((#[trigger] final(texts)@[i])@ == old(texts)@[i]@ || (
            charset@.len() > 0 && glyph_from(final(texts)@[i]@, charset@))),
{
    let n: usize = texts.len();
    let mut i: usize = 0;
    while i < n
        invariant
            i <= n,
            texts@.len() == n,
            old(texts)@.len() == n,
            forall|j: int|
                0 <= j < i ==> ((#[trigger] texts@[j])@ == old(texts)@[j]@ || (charset@.len() > 0
                    && glyph_from(texts@[j]@, charset@))),
            forall|j: int| i <= j < n ==> #[trigger] texts@[j] == old(texts)@[j],
        decreases n - i,
    {
        if should_change_char() {
            let replacement = get_random_char(charset);
            match replacement {
                Some(glyph) => {
                    texts[i] = glyph;
                },
                None => {},
            }
        }
        i += 1;
    }
}

} // verus!
