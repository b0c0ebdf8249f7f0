//! Components that every kind of entity may carry: a cell of the logical
//! grid and a glyph to draw there.

use vstd::prelude::*;

verus! {

/// A cell of the logical grid. It is set when the entity is spawned and
/// not moved afterwards.
#[derive(Clone, Copy, Debug, PartialEq, Eq, Structural)]
pub struct Position {
    pub x: i8,
    pub y: i8,
}

/// A colour of the fixed palette that glyphs are drawn in.
#[derive(Clone, Copy, Debug, PartialEq, Eq, Structural)]
pub enum Color {
    Black,
    Blue,
    Green,
    Red,
    White,
    Yellow,
}

/// What is drawn for an entity: a glyph, and the colours of the glyph and
/// of the cell behind it.
#[derive(Clone, Copy, Debug, PartialEq, Eq, Structural)]
pub struct Renderable {
    pub glyph: char,
    pub fg: Color,
    pub bg: Color,
}

} // verus!
