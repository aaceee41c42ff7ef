//! Sampling a single glyph from a glyph set.

use vstd::prelude::*;

use vstd::string::StrSliceExecFns;

use crate::rng::random_in_range;
use crate::text::char_to_string;

verus! {

/// A glyph string drawn from `chars`: it holds exactly one character, and
/// that character occurs in `chars`.
pub open spec fn glyph_from(glyph: Seq<char>, chars: Seq<char>) -> bool {
    glyph.len() == 1 && chars.contains(glyph[0])
}

/// Draws one character of the non-empty glyph set `chars`, each character
/// equally likely.
pub(crate) fn sample_char(chars: &str) -> (c: char)
    requires
        chars@.len() > 0,
    ensures
        chars@.contains(c),
{
    let n: usize = chars.unicode_len();
    let i: u64 = random_in_range(0, (n - 1) as u64);
    let c = chars.get_char(i as usize);
    assert(chars@[i as int] == c);
    c
}

/// Draws one glyph uniformly from `chars`, as a one-character string;
/// an empty set yields no glyph rather than an error.
pub fn get_random_char(chars: &str) -> (r: Option<String>)
    ensures
        (r is Some) <==> chars@.len() > 0,
        r is Some ==> glyph_from(r->0@, chars@),
{
    if chars.unicode_len() == 0 {
        None
    } else {
        let c = sample_char(chars);
        Some(char_to_string(c))
    }
}

} // verus!
