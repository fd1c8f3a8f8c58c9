//! The two sides of a chess game.

use vstd::prelude::*;

verus! {

/// The side a piece belongs to, or the side whose turn it is.
#[derive(Clone, Copy, Debug, PartialEq, Eq, Structural)]
pub enum Color {
    White,
    Black,
}

/// The other side, as a mathematical function.
pub open spec fn opposite(color: Color) -> Color {
    match color {
        Color::White => Color::Black,
        Color::Black => Color::White,
    }
}

/// Returns the side that `color` plays against.
#[inline]
pub fn opposite_color(color: Color) -> (r: Color)
    ensures
        r == opposite(color),
{
    match color {
        Color::White => Color::Black,
        Color::Black => Color::White,
    }
}

/// Flipping a color twice gives the color back, and never the same color
/// after one flip.
pub proof fn lemma_opposite_involutive(color: Color)
    ensures
        opposite(opposite(color)) == color,
        opposite(color) != color,
{
}

} // verus!
