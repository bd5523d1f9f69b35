use polychess::piece::{Piece, PieceColor, PieceType};
use polychess::position::Position;
use polychess::sprite_index::{piece_type_color_to_sprite_index, tile_sprite_index};

#[test]
fn starting_cells_number_row_major() {
    assert_eq!(Piece::starting_pos_to_piece_id(Position::new(0, 0)), 0);
    assert_eq!(Piece::starting_pos_to_piece_id(Position::new(0, 7)), 7);
    assert_eq!(Piece::starting_pos_to_piece_id(Position::new(1, 0)), 8);
    assert_eq!(Piece::starting_pos_to_piece_id(Position::new(7, 7)), 63);
}

#[test]
fn starting_layout_back_ranks_and_pawns() {
    assert_eq!(
        Piece::piece_id_to_piece_type_color(0),
        Some((PieceType::Rook, PieceColor::Black))
    );
    assert_eq!(
        Piece::piece_id_to_piece_type_color(3),
        Some((PieceType::King, PieceColor::Black))
    );
    assert_eq!(
        Piece::piece_id_to_piece_type_color(4),
        Some((PieceType::Queen, PieceColor::Black))
    );
    for id in 8..16 {
        assert_eq!(
            Piece::piece_id_to_piece_type_color(id),
            Some((PieceType::Pawn, PieceColor::Black))
        );
    }
    for id in 16..48 {
        assert_eq!(Piece::piece_id_to_piece_type_color(id), None);
    }
    for id in 48..56 {
        assert_eq!(
            Piece::piece_id_to_piece_type_color(id),
            Some((PieceType::Pawn, PieceColor::White))
        );
    }
    assert_eq!(
        Piece::piece_id_to_piece_type_color(59),
        Some((PieceType::King, PieceColor::White))
    );
    assert_eq!(
        Piece::piece_id_to_piece_type_color(63),
        Some((PieceType::Rook, PieceColor::White))
    );
    assert_eq!(Piece::piece_id_to_piece_type_color(64), None);
}

#[test]
fn from_builds_the_starting_piece_for_its_cell() {
    let rook = Piece::from(Position::new(0, 0)).expect("corner starts occupied");
    assert_eq!(rook.id, 0);
    assert_eq!(rook.pos, Position::new(0, 0));
    assert_eq!(rook.piece_type, PieceType::Rook);
    assert_eq!(rook.piece_color, PieceColor::Black);

    let pawn = Piece::from(Position::new(6, 2)).expect("white pawn rank starts occupied");
    assert_eq!(pawn.id, 50);
    assert_eq!(pawn.piece_type, PieceType::Pawn);
    assert_eq!(pawn.piece_color, PieceColor::White);

    assert!(Piece::from(Position::new(3, 3)).is_none());
}

#[test]
fn sprite_indices_cover_every_piece() {
    let expected = [
        (PieceType::Pawn, PieceColor::Black, 2),
        (PieceType::Knight, PieceColor::Black, 3),
        (PieceType::Bishop, PieceColor::Black, 4),
        (PieceType::Rook, PieceColor::Black, 5),
        (PieceType::King, PieceColor::Black, 6),
        (PieceType::Queen, PieceColor::Black, 7),
        (PieceType::Pawn, PieceColor::White, 8),
        (PieceType::Knight, PieceColor::White, 9),
        (PieceType::Bishop, PieceColor::White, 10),
        (PieceType::Rook, PieceColor::White, 11),
        (PieceType::King, PieceColor::White, 12),
        (PieceType::Queen, PieceColor::White, 13),
    ];
    for (piece_type, piece_color, index) in expected {
        assert_eq!(piece_type_color_to_sprite_index((&piece_type, &piece_color)), index);
    }
}

#[test]
fn tile_sprites_alternate_like_a_checkerboard() {
    assert_eq!(tile_sprite_index(Position::new(0, 0)), 0);
    assert_eq!(tile_sprite_index(Position::new(0, 1)), 1);
    assert_eq!(tile_sprite_index(Position::new(1, 0)), 1);
    assert_eq!(tile_sprite_index(Position::new(1, 1)), 0);
    assert_eq!(tile_sprite_index(Position::new(7, 6)), 1);
}
