//! Style formatting: exact CSS declaration strings for glyphs and columns.
//!
//! The formatters are format-exact: base-10 integers with no leading zeros,
//! a `-` sign only for negative values, and no extra whitespace.

use vstd::prelude::*;

use crate::text::push_char;
use vstd::string::StringExecFns;

verus! {

/// The character for the decimal digit `d`.
pub open spec fn dec_digit(d: int) -> char
    recommends
        0 <= d < 10,
{
    if d == 0 {
        '0'
    } else if d == 1 {
        '1'
    } else if d == 2 {
        '2'
    } else if d == 3 {
        '3'
    } else if d == 4 {
        '4'
    } else if d == 5 {
        '5'
    } else if d == 6 {
        '6'
    } else if d == 7 {
        '7'
    } else if d == 8 {
        '8'
    } else {
        '9'
    }
}

/// The base-10 digit string of a non-negative integer, with no leading
/// zeros (`0` itself is rendered as the single digit `0`).
pub open spec fn dec_rep_nonneg(n: int) -> Seq<char>
    recommends
        n >= 0,
    decreases n,
{
    if n < 10 {
        seq![dec_digit(n)]
    } else {
        dec_rep_nonneg(n / 10).push(dec_digit(n % 10))
    }
}

/// The base-10 rendering of an integer: the digit string, preceded by `-`
/// for negative values.
pub open spec fn dec_rep(n: int) -> Seq<char> {
    if n >= 0 {
        dec_rep_nonneg(n)
    } else {
        seq!['-'] + dec_rep_nonneg(-n)
    }
}

fn dec_digit_exec(d: u64) -> (c: char)
    requires
        d < 10,
    ensures
        c == dec_digit(d as int),
{
    if d == 0 {
        '0'
    } else if d == 1 {
        '1'
    } else if d == 2 {
        '2'
    } else if d == 3 {
        '3'
    } else if d == 4 {
        '4'
    } else if d == 5 {
        '5'
    } else if d == 6 {
        '6'
    } else if d == 7 {
        '7'
    } else if d == 8 {
        '8'
    } else {
        '9'
    }
}

fn append_decimal_u64(s: &mut String, n: u64)
    ensures
        final(s)@ == old(s)@ + dec_rep_nonneg(n as int),
    decreases n,
{
    if n < 10 {
        push_char(s, dec_digit_exec(n));
        assert(s@ =~= old(s)@ + dec_rep_nonneg(n as int));
    } else {
        append_decimal_u64(s, n / 10);
        push_char(s, dec_digit_exec(n % 10));
        assert(s@ =~= old(s)@ + dec_rep_nonneg(n as int));
    }
}

/// Appends the base-10 rendering of `n` to `s`.
fn append_decimal_i32(s: &mut String, n: i32)
    ensures
        final(s)@ == old(s)@ + dec_rep(n as int),
{
    if n >= 0 {
        append_decimal_u64(s, n as u64);
    } else {
        push_char(s, '-');
        let magnitude: u64 = (-(n as i64)) as u64;
        assert(magnitude as int == -(n as int));
        append_decimal_u64(s, magnitude);
        assert(s@ =~= old(s)@ + dec_rep(n as int));
    }
}

/// The exact style string for a glyph with the given animation delay.
pub open spec fn spec_char_style(delay: int) -> Seq<char> {
    "animation-delay: "@ + dec_rep(delay) + "ms;"@
}

/// The exact style string for a column with the given position, delay and
/// duration.
pub open spec fn spec_column_style(position: int, delay: int, duration: int) -> Seq<char> {
    "left: "@ + dec_rep(position) + "%; animation-delay: "@ + dec_rep(delay)
        + "ms; animation-duration: "@ + dec_rep(duration) + "ms;"@
}

/// The CSS declaration placing a glyph in time:
/// `animation-delay: {delay}ms;`.
pub fn generate_char_style(animation_delay: i32) -> (r: String)
    ensures
        r@ == spec_char_style(animation_delay as int),
{
    let mut s = String::from_str("animation-delay: ");
    append_decimal_i32(&mut s, animation_delay);
    s.append("ms;");
    assert(s@ =~= spec_char_style(animation_delay as int));
    s
}

/// The CSS declaration placing a column in space and time:
/// `left: {position}%; animation-delay: {delay}ms; animation-duration: {duration}ms;`.
pub fn generate_column_style(position: i32, delay: i32, duration: i32) -> (r: String)
    ensures
        r@ == spec_column_style(position as int, delay as int, duration as int),
{
    let mut s = String::from_str("left: ");
    append_decimal_i32(&mut s, position);
    s.append("%; animation-delay: ");
    append_decimal_i32(&mut s, delay);
    s.append("ms; animation-duration: ");
    append_decimal_i32(&mut s, duration);
    s.append("ms;");
    assert(s@ =~= spec_column_style(position as int, delay as int, duration as int));
    s
}

} // verus!
