//! The kinds of chess pieces.

use vstd::prelude::*;

verus! {

/// What kind of piece stands on a square; a tag with no behaviour.
#[derive(Clone, Copy, Debug, PartialEq, Eq, Structural)]
pub enum PieceType {
    Pawn,
    Knight,
    Bishop,
    Rook,
    Queen,
    King,
}

} // verus!
