//! The generative model of the digital-rain effect: timed glyphs, columns
//! and whole layout configurations, procedurally built with constrained
//! random draws.

use vstd::prelude::*;

use vstd::string::StringExecFns;

use crate::glyphs::{glyph_from, sample_char};
use crate::rng::random_in_range;
use crate::text::char_to_string;

verus! {

/// The glyph pool used when no custom set is supplied: the digits 0 and 1
/// followed by a fixed block of katakana symbols.
pub const DEFAULT_CHARSET: &'static str = "01アイウエオカキクケコサシスセソタチツテトナニヌネノハヒフヘホマミムメモヤユヨラリルレロワヲン";

/// The default glyph pool holds 48 glyphs: the two digits and 46 katakana
/// symbols.
pub proof fn default_charset_len()
    ensures
        DEFAULT_CHARSET@.len() == 48,
{
    reveal_strlit("01アイウエオカキクケコサシスセソタチツテトナニヌネノハヒフヘホマミムメモヤユヨラリルレロワヲン");
}

/// Mathematical value of a [`MatrixChar`].
pub struct MatrixCharView {
    pub character: Seq<char>,
    pub animation_delay: int,
}

/// A single timed glyph: one displayed character and the millisecond delay
/// of its animation.
pub struct MatrixChar {
    character: String,
    animation_delay: i32,
}

impl View for MatrixChar {
    type V = MatrixCharView;

    closed spec fn view(&self) -> MatrixCharView {
        MatrixCharView {
            character: self.character@,
            animation_delay: self.animation_delay as int,
        }
    }
}

/// A glyph generated at ordinal `index` from the set `chars`: its character
/// is one of the set, and its delay is exactly `index * 100` milliseconds.
pub open spec fn valid_glyph(g: MatrixCharView, chars: Seq<char>, index: int) -> bool {
    &&& glyph_from(g.character, chars)
    &&& g.animation_delay == index * 100
}

impl MatrixChar {
    /// The displayed character, as a one-character string.
    pub fn character(&self) -> (r: String)
        ensures
            r@ == self@.character,
    {
        self.character.clone()
    }

    /// The animation delay in milliseconds.
    pub fn animation_delay(&self) -> (r: i32)
        ensures
            r as int == self@.animation_delay,
    {
        self.animation_delay
    }

    fn duplicate(&self) -> (r: MatrixChar)
        ensures
            r@ == self@,
    {
        MatrixChar { character: self.character.clone(), animation_delay: self.animation_delay }
    }
}

/// Mathematical value of a [`MatrixColumn`].
pub struct MatrixColumnView {
    pub position: int,
    pub delay: int,
    pub duration: int,
    pub chars: Seq<MatrixCharView>,
}

/// One vertical lane of the effect: a horizontal position, its own timing,
/// and an ordered run of timed glyphs.
pub struct MatrixColumn {
    position: i32,
    delay: i32,
    duration: i32,
    chars: Vec<MatrixChar>,
}

impl View for MatrixColumn {
    type V = MatrixColumnView;

    closed spec fn view(&self) -> MatrixColumnView {
        MatrixColumnView {
            position: self.position as int,
            delay: self.delay as int,
            duration: self.duration as int,
            chars: self.chars@.map_values(|g: MatrixChar| g@),
        }
    }
}

/// `v` limited to the representable range of an `i32`.
pub open spec fn clamp_to_i32(v: int) -> int {
    if v > i32::MAX {
        i32::MAX as int
    } else if v < i32::MIN {
        i32::MIN as int
    } else {
        v
    }
}

/// The deterministic horizontal position of column `index`: the product
/// `index * 3.33` truncated toward zero, computed exactly as
/// `index * 333 / 100`, and limited to the `i32` range.
pub open spec fn spec_column_position(index: int) -> int {
    if index >= 0 {
        clamp_to_i32(index * 333 / 100)
    } else {
        clamp_to_i32(-((-index) * 333 / 100))
    }
}

/// A column generated at ordinal `index` from the set `chars`: position as
/// the deterministic formula gives it, timing inside the documented ranges,
/// and 5 to 15 glyphs, the one at ordinal `i` delayed by `i * 100`
/// milliseconds.
pub open spec fn valid_column(c: MatrixColumnView, chars: Seq<char>, index: int) -> bool {
    &&& c.position == spec_column_position(index)
    &&& 0 <= c.delay <= 3000
    &&& 3000 <= c.duration <= 6000
    &&& 5 <= c.chars.len() <= 15
    &&& forall|i: int| 0 <= i < c.chars.len() ==> valid_glyph(#[trigger] c.chars[i], chars, i)
}

impl MatrixColumn {
    /// The horizontal position, in percent of the screen width.
    pub fn position(&self) -> (r: i32)
        ensures
            r as int == self@.position,
    {
        self.position
    }

    /// The animation delay in milliseconds.
    pub fn delay(&self) -> (r: i32)
        ensures
            r as int == self@.delay,
    {
        self.delay
    }

    /// The animation duration in milliseconds.
    pub fn duration(&self) -> (r: i32)
        ensures
            r as int == self@.duration,
    {
        self.duration
    }

    /// The column's glyphs, in order.
    pub fn chars(&self) -> (r: Vec<MatrixChar>)
        ensures
            r@.len() == self@.chars.len(),
            forall|i: int| 0 <= i < r@.len() ==> (#[trigger] r@[i])@ == self@.chars[i],
    {
        let mut out: Vec<MatrixChar> = Vec::new();
        let mut i: usize = 0;
        while i < self.chars.len()
            invariant
                i <= self.chars.len(),
                out@.len() == i,
                forall|j: int| 0 <= j < i ==> (#[trigger] out@[j])@ == self@.chars[j],
            decreases self.chars.len() - i,
        {
            out.push(self.chars[i].duplicate());
            i += 1;
        }
        out
    }

    fn duplicate(&self) -> (r: MatrixColumn)
        ensures
            r@.position == self@.position,
            r@.delay == self@.delay,
            r@.duration == self@.duration,
            r@.chars == self@.chars,
    {
        let copied = self.chars();
        let r = MatrixColumn {
            position: self.position,
            delay: self.delay,
            duration: self.duration,
            chars: copied,
        };
        proof {
            assert(r@.chars =~= self@.chars);
        }
        r
    }
}

/// Mathematical value of a [`MatrixConfig`].
pub struct MatrixConfigView {
    pub columns: Seq<MatrixColumnView>,
    pub charset: Seq<char>,
}

/// A full layout configuration: the ordered columns and the glyph set they
/// were built from.
pub struct MatrixConfig {
    columns: Vec<MatrixColumn>,
    charset: String,
}

impl View for MatrixConfig {
    type V = MatrixConfigView;

    closed spec fn view(&self) -> MatrixConfigView {
        MatrixConfigView {
            columns: self.columns@.map_values(|c: MatrixColumn| c@),
            charset: self.charset@,
        }
    }
}

/// Every column of the configuration is a valid product of its own ordinal
/// and the configuration's glyph set.
pub open spec fn valid_config(cfg: MatrixConfigView) -> bool {
    forall|i: int| 0 <= i < cfg.columns.len() ==> valid_column(
        #[trigger] cfg.columns[i],
        cfg.charset,
        i,
    )
}

impl MatrixConfig {
    /// The generated columns, in order.
    pub fn columns(&self) -> (r: Vec<MatrixColumn>)
        ensures
            r@.len() == self@.columns.len(),
            forall|i: int| 0 <= i < r@.len() ==> (#[trigger] r@[i])@ == self@.columns[i],
    {
        let mut out: Vec<MatrixColumn> = Vec::new();
        let mut i: usize = 0;
        while i < self.columns.len()
            invariant
                i <= self.columns.len(),
                out@.len() == i,
                forall|j: int| 0 <= j < i ==> (#[trigger] out@[j])@ == self@.columns[j],
            decreases self.columns.len() - i,
        {
            out.push(self.columns[i].duplicate());
            i += 1;
        }
        out
    }

    /// The glyph set the columns were built from.
    pub fn charset(&self) -> (r: String)
        ensures
            r@ == self@.charset,
    {
        self.charset.clone()
    }
}

/// The deterministic horizontal position of column `index`.
pub fn calculate_column_position(index: i32) -> (r: i32)
    ensures
        r as int == spec_column_position(index as int),
{
    let wide: i64 = (index as i64) * 333;
    let q: i64 = if wide >= 0 {
        wide / 100
    } else {
        -((-wide) / 100)
    };
    if q > (i32::MAX as i64) {
        i32::MAX
    } else if q < (i32::MIN as i64) {
        i32::MIN
    } else {
        q as i32
    }
}

/// A uniformly random animation delay, between 0 and 3000 milliseconds
/// inclusive.
pub fn generate_animation_delay() -> (r: i32)
    ensures
        0 <= r <= 3000,
{
    random_in_range(0, 3000) as i32
}

/// A uniformly random animation duration, between 3000 and 6000
/// milliseconds inclusive.
pub fn generate_animation_duration() -> (r: i32)
    ensures
        3000 <= r <= 6000,
{
    random_in_range(3000, 6000) as i32
}

/// A timed glyph at ordinal `index`: one character drawn uniformly from the
/// non-empty set `chars`, delayed by `index * 100` milliseconds.
pub fn create_matrix_char_data(chars: &str, index: i32) -> (g: MatrixChar)
    requires
        chars@.len() > 0,
        0 <= index,
        index * 100 <= i32::MAX,
    ensures
        valid_glyph(g@, chars@, index as int),
{
    let c = sample_char(chars);
    MatrixChar { character: char_to_string(c), animation_delay: index * 100 }
}

/// A full column at ordinal `index`: its deterministic position, random
/// timing inside the documented ranges, and a random count of 5 to 15
/// glyphs drawn from the non-empty set `chars`.
pub fn create_matrix_column_data(index: i32, chars: &str) -> (col: MatrixColumn)
    requires
        chars@.len() > 0,
    ensures
        valid_column(col@, chars@, index as int),
{
    let count: usize = random_in_range(5, 15) as usize;
    let mut glyphs: Vec<MatrixChar> = Vec::new();
    let mut i: usize = 0;
    while i < count
        invariant
            i <= count,
            count <= 15,
            chars@.len() > 0,
            glyphs@.len() == i,
            forall|j: int| 0 <= j < i ==> valid_glyph((#[trigger] glyphs@[j])@, chars@, j),
        decreases count - i,
    {
        let g = create_matrix_char_data(chars, i as i32);
        glyphs.push(g);
        i += 1;
    }
    let col = MatrixColumn {
        position: calculate_column_position(index),
        delay: generate_animation_delay(),
        duration: generate_animation_duration(),
        chars: glyphs,
    };
    proof {
        assert forall|j: int| 0 <= j < col@.chars.len() implies valid_glyph(
            #[trigger] col@.chars[j],
            chars@,
            j,
        ) by {
            assert(col@.chars[j] == glyphs@[j]@);
        }
    }
    col
}

/// A layout of `column_count` columns built from the non-empty set
/// `charset`, each column generated at its own ordinal; a negative request
/// yields no columns.
pub fn generate_matrix_config(column_count: i32, charset: &str) -> (cfg: MatrixConfig)
    requires
        charset@.len() > 0,
    ensures
        cfg@.charset == charset@,
        cfg@.columns.len() == (if column_count >= 0 {
            column_count as int
        } else {
            0
        }),
        valid_config(cfg@),
{
    let mut columns: Vec<MatrixColumn> = Vec::new();
    let mut i: i32 = 0;
    while i < column_count
        invariant
            0 <= i,
            column_count >= 0 ==> i <= column_count,
            column_count < 0 ==> i == 0,
            charset@.len() > 0,
            columns@.len() == i,
            forall|j: int| 0 <= j < i ==> valid_column((#[trigger] columns@[j])@, charset@, j),
        decreases column_count - i,
    {
        let col = create_matrix_column_data(i, charset);
        columns.push(col);
        i += 1;
    }
    let cfg = MatrixConfig { columns, charset: String::from_str(charset) };
    proof {
        assert forall|j: int| 0 <= j < cfg@.columns.len() implies valid_column(
            #[trigger] cfg@.columns[j],
            cfg@.charset,
            j,
        ) by {
            assert(cfg@.columns[j] == columns@[j]@);
        }
    }
    cfg
}

/// The default layout: 30 columns over the default glyph pool.
pub fn generate_matrix_config_default() -> (cfg: MatrixConfig)
    ensures
        cfg@.charset == DEFAULT_CHARSET@,
        cfg@.columns.len() == 30,
        valid_config(cfg@),
{
    proof {
        default_charset_len();
    }
    generate_matrix_config(30, DEFAULT_CHARSET)
}

/// Independent generation runs agree on every deterministic part of the
/// layout: two valid configurations of the same column count place each
/// column at the same position and give the glyph at ordinal `j` of any
/// column the same animation delay, though the sampled characters and the
/// per-column glyph counts may differ.
pub proof fn lemma_layout_shape_determined(a: MatrixConfigView, b: MatrixConfigView)
    requires
        valid_config(a),
        valid_config(b),
        a.columns.len() == b.columns.len(),
    ensures
        forall|i: int|
            0 <= i < a.columns.len() ==> (#[trigger] a.columns[i]).position == b.columns[
                i
            ].position,
        forall|i: int, j: int|
            0 <= i < a.columns.len() && 0 <= j < a.columns[i].chars.len() && j < b.columns[
                i
            ].chars.len() ==> (#[trigger] a.columns[i].chars[j]).animation_delay == (
            #[trigger] b.columns[i].chars[j]).animation_delay,
{
}

} // verus!
