//! Generative model for a "digital rain" visual effect: procedurally built
//! columns of timed glyphs, exact CSS style strings for their placement,
//! and the per-tick update rule that randomly swaps displayed glyphs.

use vstd::prelude::*;
use vstd::string::StringExecFns;

pub mod animation;
pub mod glyphs;
pub mod particles;
pub mod style;
pub mod terminal;

mod rng;
mod text;

pub use animation::animation_tick;
pub use animation::should_change_char;
pub use glyphs::get_random_char;
pub use particles::DEFAULT_CHARSET;
pub use particles::MatrixChar;
pub use particles::MatrixColumn;
pub use particles::MatrixConfig;
pub use particles::calculate_column_position;
pub use particles::create_matrix_char_data;
pub use particles::create_matrix_column_data;
pub use particles::generate_animation_delay;
pub use particles::generate_animation_duration;
pub use particles::generate_matrix_config;
pub use particles::generate_matrix_config_default;
pub use style::generate_char_style;
pub use style::generate_column_style;

verus! {

pub fn hello_world() -> (r: String)
    ensures
        r@ == "Hello, world from Rust WASM!"@,
{
    String::from_str("Hello, world from Rust WASM!")
}

} // verus!
