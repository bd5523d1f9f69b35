//! The closed mapping from piece kind and color to a sprite-atlas index,
//! and the checkerboard index for the board's own tiles. The matches are
//! exhaustive, so a new kind or color cannot be added without extending
//! them.

use vstd::prelude::*;

use crate::piece::{PieceColor, PieceType};
use crate::position::Position;

verus! {

pub open spec fn spec_sprite_index(piece_type: PieceType, piece_color: PieceColor) -> int {
    match (piece_type, piece_color) {
        (PieceType::Pawn, PieceColor::Black) => 2,
        (PieceType::Knight, PieceColor::Black) => 3,
        (PieceType::Bishop, PieceColor::Black) => 4,
        (PieceType::Rook, PieceColor::Black) => 5,
        (PieceType::King, PieceColor::Black) => 6,
        (PieceType::Queen, PieceColor::Black) => 7,
        (PieceType::Pawn, PieceColor::White) => 8,
        (PieceType::Knight, PieceColor::White) => 9,
        (PieceType::Bishop, PieceColor::White) => 10,
        (PieceType::Rook, PieceColor::White) => 11,
        (PieceType::King, PieceColor::White) => 12,
        (PieceType::Queen, PieceColor::White) => 13,
    }
}

/// Atlas slot of the sprite that draws a piece of the given kind and color.
pub fn piece_type_color_to_sprite_index(selection: (&PieceType, &PieceColor)) -> (r: usize)
    ensures
        r == spec_sprite_index(*selection.0, *selection.1),
{
    match selection {
        (PieceType::Pawn, PieceColor::Black) => 2,
        (PieceType::Knight, PieceColor::Black) => 3,
        (PieceType::Bishop, PieceColor::Black) => 4,
        (PieceType::Rook, PieceColor::Black) => 5,
        (PieceType::King, PieceColor::Black) => 6,
        (PieceType::Queen, PieceColor::Black) => 7,
        (PieceType::Pawn, PieceColor::White) => 8,
        (PieceType::Knight, PieceColor::White) => 9,
        (PieceType::Bishop, PieceColor::White) => 10,
        (PieceType::Rook, PieceColor::White) => 11,
        (PieceType::King, PieceColor::White) => 12,
        (PieceType::Queen, PieceColor::White) => 13,
    }
}

/// Atlas slot of the sprite that draws a board tile: tiles alternate in a
/// checkerboard, so the slot is the parity of row plus column.
pub fn tile_sprite_index(pos: Position) -> (r: usize)
    requires
        pos.row + pos.col <= usize::MAX,
    ensures
        r == (pos.row + pos.col) % 2,
{
    (pos.row + pos.col) % 2
}

} // verus!
