use polychess::board_positions::BoardPositions;
use polychess::mouse_handler::MouseHandler;
use polychess::position::{Point, Position};

#[test]
fn clicks_pair_up_and_reset() {
    let mut handler = MouseHandler::new();
    // Cell (0, 0) centers at (-1792, -1792); cell (2, 5) at (768, -768).
    let first = handler.on_left_click(Point::new(-1792, -1792));
    assert_eq!(first, None);
    let second = handler.on_left_click(Point::new(768, -768));
    assert_eq!(second, Some((Position::new(0, 0), Position::new(2, 5))));
    let third = handler.on_left_click(Point::new(1792, 1792));
    assert_eq!(third, None);
    let fourth = handler.on_left_click(Point::new(-1792, -1792));
    assert_eq!(fourth, Some((Position::new(7, 7), Position::new(0, 0))));
}

#[test]
fn same_cell_twice_yields_a_self_move() {
    let mut handler = MouseHandler::new();
    assert_eq!(handler.on_left_click(Point::new(0, 0)), None);
    let pair = handler.on_left_click(Point::new(1, 1));
    assert_eq!(pair, Some((Position::new(4, 4), Position::new(4, 4))));
}

#[test]
fn tile_position_floors_within_each_tile() {
    let handler = MouseHandler::new();
    // Anywhere within a tile's span maps to that tile.
    assert_eq!(handler.get_tile_position(Point::new(-2048, -2048)), Position::new(0, 0));
    assert_eq!(handler.get_tile_position(Point::new(-1537, -2048)), Position::new(0, 0));
    assert_eq!(handler.get_tile_position(Point::new(-1536, -2048)), Position::new(0, 1));
    assert_eq!(handler.get_tile_position(Point::new(2047, 2047)), Position::new(7, 7));
}

#[test]
fn every_cell_center_clicks_back_to_its_cell() {
    let bp = BoardPositions::new(256, 128, 8);
    let handler = MouseHandler::new();
    for r in 0..8 {
        for c in 0..8 {
            let center = bp.get_xy(Position::new(r, c));
            assert_eq!(handler.get_tile_position(center), Position::new(r, c));
        }
    }
}
