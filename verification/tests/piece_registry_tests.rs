use polychess::board_positions::BoardPositions;
use polychess::piece::{Piece, PieceColor, PieceType};
use polychess::piece_registry::PieceRegistry;
use polychess::position::Position;

fn board() -> PieceRegistry {
    PieceRegistry::new(BoardPositions::new(256, 128, 8))
}

fn snapshot(reg: &PieceRegistry) -> Vec<Option<usize>> {
    let mut cells = Vec::new();
    for r in 0..8 {
        for c in 0..8 {
            cells.push(reg.piece_id_at(Position::new(r, c)));
        }
    }
    cells
}

/// Both directions of the occupancy consistency, checked through the
/// public queries.
fn assert_consistent(reg: &PieceRegistry, ids: &[usize]) {
    for &id in ids {
        let piece = reg.get_piece(id).expect("piece should be registered");
        assert_eq!(reg.piece_id_at(piece.pos), Some(id));
    }
    for r in 0..8 {
        for c in 0..8 {
            if let Some(id) = reg.piece_id_at(Position::new(r, c)) {
                let piece = reg.get_piece(id).expect("indexed id should be registered");
                assert_eq!(piece.pos, Position::new(r, c));
            }
        }
    }
}

#[test]
fn new_board_is_empty() {
    let reg = board();
    for r in 0..8 {
        for c in 0..8 {
            assert_eq!(reg.piece_id_at(Position::new(r, c)), None);
        }
    }
    assert_eq!(reg.get_xy(0), None);
}

#[test]
fn consistency_after_places_and_transfers() {
    let mut reg = board();
    reg.insert(Piece::new(1, Position::new(0, 0), PieceType::Rook, PieceColor::Black));
    reg.insert(Piece::new(2, Position::new(3, 4), PieceType::Queen, PieceColor::White));
    reg.insert(Piece::new(3, Position::new(7, 7), PieceType::Pawn, PieceColor::Black));
    assert_consistent(&reg, &[1, 2, 3]);
    reg.transfer(Position::new(0, 0), Position::new(5, 5));
    reg.transfer(Position::new(3, 4), Position::new(3, 5));
    reg.transfer(Position::new(2, 2), Position::new(0, 0));
    assert_consistent(&reg, &[1, 2, 3]);
    assert_eq!(reg.piece_id_at(Position::new(5, 5)), Some(1));
    assert_eq!(reg.piece_id_at(Position::new(3, 5)), Some(2));
    assert_eq!(reg.piece_id_at(Position::new(7, 7)), Some(3));
}

#[test]
fn transfer_from_empty_cell_changes_nothing() {
    let mut reg = board();
    reg.insert(Piece::new(9, Position::new(2, 2), PieceType::Knight, PieceColor::White));
    let before = snapshot(&reg);
    let piece_before = reg.get_piece(9);
    reg.transfer(Position::new(4, 4), Position::new(2, 2));
    assert_eq!(snapshot(&reg), before);
    assert_eq!(reg.get_piece(9), piece_before);
}

#[test]
fn transfer_overwrites_occupied_target() {
    let mut reg = board();
    let a = Piece::new(100, Position::new(0, 0), PieceType::Rook, PieceColor::Black);
    let b = Piece::new(200, Position::new(1, 1), PieceType::Rook, PieceColor::White);
    reg.insert(a);
    reg.insert(b);
    reg.transfer(Position::new(0, 0), Position::new(1, 1));
    assert_eq!(reg.piece_id_at(Position::new(1, 1)), Some(100));
    assert_eq!(reg.piece_id_at(Position::new(0, 0)), None);
    // The displaced piece stays registered and still reports its old cell,
    // though the index no longer names it there.
    let displaced = reg.get_piece(200).expect("displaced piece stays registered");
    assert_eq!(displaced.pos, Position::new(1, 1));
}

#[test]
fn transfer_to_same_cell_is_a_no_op() {
    let mut reg = board();
    reg.insert(Piece::new(5, Position::new(6, 1), PieceType::Bishop, PieceColor::Black));
    let before = snapshot(&reg);
    let piece_before = reg.get_piece(5);
    reg.transfer(Position::new(6, 1), Position::new(6, 1));
    assert_eq!(snapshot(&reg), before);
    assert_eq!(reg.get_piece(5), piece_before);
    assert_eq!(reg.piece_id_at(Position::new(6, 1)), Some(5));
}

#[test]
fn get_xy_follows_the_piece() {
    let mut reg = board();
    reg.insert(Piece::new(7, Position::new(0, 0), PieceType::King, PieceColor::White));
    let at_start = reg.get_xy(7).expect("registered piece has a position");
    assert_eq!((at_start.x, at_start.y), (-1792, -1792));
    reg.transfer(Position::new(0, 0), Position::new(1, 2));
    let moved = reg.get_xy(7).expect("registered piece has a position");
    assert_eq!((moved.x, moved.y), (-768, -1280));
    assert_eq!(reg.get_xy(8), None);
}
