//! A color: three named primaries, a raw RGB triple, or a named color.

use vstd::prelude::*;

verus! {

/// A color, either one of three primaries, an RGB triple of byte
/// components, or a color known by name.
pub enum Color {
    Red,
    Green,
    Blue,
    Rgb(u8, u8, u8),
    Named { name: String },
}

} // verus!
