//! Small plane-geometry sample types: an integer point that can be
//! translated and rendered as text, together with a color enumeration
//! and a trait giving a default position.

pub mod color;
pub mod point;
pub mod position;
pub mod render;
