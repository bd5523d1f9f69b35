//! The two-click selection gesture: clicks in board space become
//! (from, to) move proposals.

use vstd::prelude::*;

use crate::board_positions::BoardPositions;
use crate::position::{Point, Position};

verus! {

pub const TILE_SIZE: i64 = 256;

pub const ROW_COLS: i64 = 8;

pub struct MouseHandler {
    click_initial: Option<Position>,
}

impl MouseHandler {
    /// The pending "from" cell of a half-finished gesture, if any.
    pub closed spec fn pending(self) -> Option<Position> {
        self.click_initial
    }

    /// Distance from the board's center to its edge, in half-units: half of
    /// `ROW_COLS` tiles, each `2 * TILE_SIZE` half-units long.
    pub open spec fn spec_click_offset() -> int {
        TILE_SIZE * ROW_COLS
    }

    /// Which tile index a board-space coordinate falls into, along one
    /// axis. A tile spans `2 * TILE_SIZE` half-units.
    pub open spec fn spec_tile_index(coord: int) -> int {
        (coord + Self::spec_click_offset()) / (2 * TILE_SIZE as int)
    }

    /// The cell a board-space point falls into. Meaningful where both tile
    /// indices are non-negative and fit the cell type.
    pub open spec fn spec_tile_position(pos: Point) -> Position {
        Position {
            row: Self::spec_tile_index(pos.y as int) as usize,
            col: Self::spec_tile_index(pos.x as int) as usize,
        }
    }

    /// One step of the selection gesture: an idle state arms itself with the
    /// clicked cell and yields nothing; an armed state resets and yields the
    /// pair. Returns the state after the click and what the click yields.
    pub open spec fn spec_on_click(state: Option<Position>, cell: Position) -> (
        Option<Position>,
        Option<(Position, Position)>,
    ) {
        match state {
            None => (Some(cell), None),
            Some(p) => (None, Some((p, cell))),
        }
    }

    /// A point is translatable when the shifted coordinates are
    /// non-negative (the point is not beyond the board's negative edge) and
    /// the arithmetic fits the machine types.
    pub open spec fn point_translatable(pos: Point) -> bool {
        &&& 0 <= pos.x + Self::spec_click_offset()
        &&& 0 <= pos.y + Self::spec_click_offset()
        &&& pos.x + Self::spec_click_offset() <= i64::MAX
        &&& pos.y + Self::spec_click_offset() <= i64::MAX
        &&& Self::spec_tile_index(pos.x as int) <= usize::MAX
        &&& Self::spec_tile_index(pos.y as int) <= usize::MAX
    }

    pub fn new() -> (r: Self)
        ensures
            r.pending() is None,
    {
        Self { click_initial: None }
    }

    /// Feeds one click, already translated to board space, into the
    /// gesture. Yields the completed (from, to) pair on every second click.
    pub fn on_left_click(&mut self, pos: Point) -> (r: Option<(Position, Position)>)
        requires
            Self::point_translatable(pos),
        ensures
            (final(self).pending(), r) == Self::spec_on_click(
                old(self).pending(),
                Self::spec_tile_position(pos),
            ),
    {
        let tile_position = self.get_tile_position(pos);
        if let Some(initial_position) = self.click_initial {
            self.click_initial = None;
            return Some((initial_position, tile_position));
        }
        self.click_initial = Some(tile_position);
        None
    }

    /// The cell a board-space point falls into.
    pub fn get_tile_position(&self, pos: Point) -> (r: Position)
        requires
            Self::point_translatable(pos),
        ensures
            r == Self::spec_tile_position(pos),
            r.row == Self::spec_tile_index(pos.y as int),
            r.col == Self::spec_tile_index(pos.x as int),
    {
        let offset: i64 = TILE_SIZE * ROW_COLS;
        let tile_span: i64 = 2 * TILE_SIZE;
        let row: i64 = (pos.y + offset) / tile_span;
        let col: i64 = (pos.x + offset) / tile_span;
        Position::new(row as usize, col as usize)
    }

    /// Round-trip law at the gesture's scale: on the geometry these
    /// constants describe, the center point of any cell on the board clicks
    /// back to that same cell.
    pub proof fn lemma_click_round_trip(g: BoardPositions, pos: Position)
        requires
            g.wf(),
            g.tile_length == TILE_SIZE,
            g.row_cols as int == ROW_COLS as int,
            pos.row < g.row_cols,
            pos.col < g.row_cols,
        ensures
            Self::spec_tile_position(
                (Point {
                    x: g.spec_coord_of_index(pos.col as int) as i64,
                    y: g.spec_coord_of_index(pos.row as int) as i64,
                }),
            ) == pos,
    {
        assert(g.row_cols * g.tile_length == 2048) by (nonlinear_arith)
            requires
                g.row_cols as int == 8,
                g.tile_length == 256,
        ;
        assert(g.spec_offset() == Self::spec_click_offset());
        g.lemma_round_trip(pos.row as int);
        g.lemma_round_trip(pos.col as int);
    }

    /// Selection pairing law: from an idle state, the first click yields
    /// nothing, the second yields the clicked pair in order, and the state
    /// is reset, so a third click yields nothing and arms again.
    pub proof fn lemma_selection_pairing(x: Position, y: Position, z: Position)
        ensures
            ({
                let first = Self::spec_on_click(None, x);
                let second = Self::spec_on_click(first.0, y);
                let third = Self::spec_on_click(second.0, z);
                &&& first.1 is None
                &&& second.1 == Some((x, y))
                &&& third.1 is None
                &&& third.0 == Some(z)
            }),
    {
    }
}

} // verus!
