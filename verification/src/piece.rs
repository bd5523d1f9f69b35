//! Pieces: identity, kind, color, and the starting-layout rule.

use vstd::prelude::*;

use crate::position::Position;

verus! {

#[derive(Debug, Copy, Clone, PartialEq, Eq, Structural)]
pub enum PieceType {
    Pawn,
    Knight,
    Bishop,
    Rook,
    King,
    Queen,
}

#[derive(Debug, Copy, Clone, PartialEq, Eq, Structural)]
pub enum PieceColor {
    Black,
    White,
}

/// One piece on the board. `id` is fixed for the piece's lifetime; `pos` is
/// changed only through the registry's transfer operation.
#[derive(Debug, Copy, Clone, PartialEq, Eq, Structural)]
pub struct Piece {
    pub id: usize,
    pub pos: Position,
    pub piece_type: PieceType,
    pub piece_color: PieceColor,
}

/// The starting-layout rule: which piece, if any, a starting id denotes.
/// Ids 0..16 are the black back rank and pawns, 48..64 the white mirror;
/// everything in between (and beyond) starts empty.
pub open spec fn spec_piece_for_id(piece_id: nat) -> Option<(PieceType, PieceColor)> {
    if piece_id == 0 || piece_id == 7 {
        Some((PieceType::Rook, PieceColor::Black))
    } else if piece_id == 1 || piece_id == 6 {
        Some((PieceType::Knight, PieceColor::Black))
    } else if piece_id == 2 || piece_id == 5 {
        Some((PieceType::Bishop, PieceColor::Black))
    } else if piece_id == 3 {
        Some((PieceType::King, PieceColor::Black))
    } else if piece_id == 4 {
        Some((PieceType::Queen, PieceColor::Black))
    } else if 8 <= piece_id < 16 {
        Some((PieceType::Pawn, PieceColor::Black))
    } else if 48 <= piece_id < 56 {
        Some((PieceType::Pawn, PieceColor::White))
    } else if piece_id == 56 || piece_id == 63 {
        Some((PieceType::Rook, PieceColor::White))
    } else if piece_id == 57 || piece_id == 62 {
        Some((PieceType::Knight, PieceColor::White))
    } else if piece_id == 58 || piece_id == 61 {
        Some((PieceType::Bishop, PieceColor::White))
    } else if piece_id == 59 {
        Some((PieceType::King, PieceColor::White))
    } else if piece_id == 60 {
        Some((PieceType::Queen, PieceColor::White))
    } else {
        None
    }
}

impl Piece {
    pub fn new(id: usize, pos: Position, piece_type: PieceType, piece_color: PieceColor) -> (r:
        Self)
        ensures
            r == (Piece { id, pos, piece_type, piece_color }),
    {
        Piece { id, pos, piece_type, piece_color }
    }

    /// The piece that starts on the given cell, if any: the cell's row-major
    /// index is the piece's id, and the starting-layout rule gives its kind
    /// and color.
    pub fn from(starting_pos: Position) -> (r: Option<Self>)
        requires
            starting_pos.row * 8 + starting_pos.col <= usize::MAX,
        ensures
            match r {
                None => spec_piece_for_id(
                    (starting_pos.row * 8 + starting_pos.col) as nat,
                ) is None,
                Some(p) => {
                    let id = (starting_pos.row * 8 + starting_pos.col) as nat;
                    &&& spec_piece_for_id(id) == Some((p.piece_type, p.piece_color))
                    &&& p.id == id
                    &&& p.pos == starting_pos
                },
            },
    {
        let id = Self::starting_pos_to_piece_id(starting_pos);
        match Self::piece_id_to_piece_type_color(id) {
            Some((piece_type, piece_color)) => Some(
                Piece::new(id, starting_pos, piece_type, piece_color),
            ),
            None => None,
        }
    }

    /// Row-major numbering of starting cells, eight columns to a row.
    pub fn starting_pos_to_piece_id(pos: Position) -> (r: usize)
        requires
            pos.row * 8 + pos.col <= usize::MAX,
        ensures
            r == pos.row * 8 + pos.col,
    {
        pos.row * 8 + pos.col
    }

    /// The starting-layout rule as executable code.
    pub fn piece_id_to_piece_type_color(piece_id: usize) -> (r: Option<(PieceType, PieceColor)>)
        ensures
            r == spec_piece_for_id(piece_id as nat),
    {
        match piece_id {
            0 => Some((PieceType::Rook, PieceColor::Black)),
            1 => Some((PieceType::Knight, PieceColor::Black)),
            2 => Some((PieceType::Bishop, PieceColor::Black)),
            3 => Some((PieceType::King, PieceColor::Black)),
            4 => Some((PieceType::Queen, PieceColor::Black)),
            5 => Some((PieceType::Bishop, PieceColor::Black)),
            6 => Some((PieceType::Knight, PieceColor::Black)),
            7 => Some((PieceType::Rook, PieceColor::Black)),
            i if 8 <= i && i < 16 => Some((PieceType::Pawn, PieceColor::Black)),
            i if 48 <= i && i < 56 => Some((PieceType::Pawn, PieceColor::White)),
            56 => Some((PieceType::Rook, PieceColor::White)),
            57 => Some((PieceType::Knight, PieceColor::White)),
            58 => Some((PieceType::Bishop, PieceColor::White)),
            59 => Some((PieceType::King, PieceColor::White)),
            60 => Some((PieceType::Queen, PieceColor::White)),
            61 => Some((PieceType::Bishop, PieceColor::White)),
            62 => Some((PieceType::Knight, PieceColor::White)),
            63 => Some((PieceType::Rook, PieceColor::White)),
            _ => None,
        }
    }
}

} // verus!
