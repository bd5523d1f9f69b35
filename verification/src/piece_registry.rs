//! The occupancy registry: the single source of truth for what sits where.
//!
//! Pieces are indexed twice: by id in `piece_map`, and by cell in
//! `piece_positions`, a row-major grid of optional ids. Every operation
//! keeps the two directions consistent: a cell that names an id always
//! names a mapped piece whose position is that cell.

use std::collections::HashMap;
use vstd::prelude::*;

use crate::board_positions::BoardPositions;
use crate::piece::Piece;
use crate::position::{Point, Position};

verus! {

broadcast use vstd::std_specs::hash::group_hash_axioms;

pub struct PieceRegistry {
    piece_map: HashMap<usize, Piece>,
    piece_positions: Vec<Option<usize>>,
    board_positions: BoardPositions,
}

/// Row-major cell numbering is injective over in-range cells.
proof fn lemma_grid_index_injective(s: int, r1: int, c1: int, r2: int, c2: int)
    requires
        0 <= r1,
        0 <= c1 < s,
        0 <= r2,
        0 <= c2 < s,
        r1 * s + c1 == r2 * s + c2,
    ensures
        r1 == r2,
        c1 == c2,
{
    assert(r1 == r2 && c1 == c2) by (nonlinear_arith)
        requires
            0 <= r1,
            0 <= c1 < s,
            0 <= r2,
            0 <= c2 < s,
            r1 * s + c1 == r2 * s + c2,
    ;
}

/// Row-major cell numbering stays below the grid's area.
proof fn lemma_grid_index_in_bounds(s: int, r: int, c: int)
    requires
        0 <= r < s,
        0 <= c < s,
    ensures
        0 <= r * s + c < s * s,
{
    assert(0 <= r * s + c < s * s) by (nonlinear_arith)
        requires
            0 <= r < s,
            0 <= c < s,
    ;
}

impl PieceRegistry {
    /// The registered pieces, by id.
    pub closed spec fn pieces(self) -> Map<usize, Piece> {
        self.piece_map@
    }

    /// The occupancy index: the id sitting on the given cell, if any.
    /// Meaningful for in-range cells.
    pub closed spec fn piece_at(self, pos: Position) -> Option<usize> {
        self.piece_positions@[pos.row * self.size() + pos.col]
    }

    /// The geometry the registry answers position queries with.
    pub closed spec fn geometry(self) -> BoardPositions {
        self.board_positions
    }

    pub open spec fn size(self) -> int {
        self.geometry().row_cols as int
    }

    pub open spec fn cell_in_range(self, pos: Position) -> bool {
        pos.row < self.size() && pos.col < self.size()
    }

    /// The grid really is a `size x size` array of cells.
    pub closed spec fn repr_ok(self) -> bool {
        &&& self.size() * self.size() <= usize::MAX
        &&& self.piece_positions@.len() == self.size() * self.size()
    }

    /// Every registered piece carries its own key as id and sits on an
    /// in-range cell.
    pub open spec fn pieces_ok(self) -> bool {
        forall|id: usize| #[trigger]
            self.pieces().contains_key(id) ==> self.pieces()[id].id == id && self.cell_in_range(
                self.pieces()[id].pos,
            )
    }

    /// One direction of the occupancy consistency: every cell that names an
    /// id names a registered piece whose position is that cell. Transfers
    /// that overwrite an occupied cell keep this direction intact.
    pub open spec fn index_consistent(self) -> bool {
        forall|pos: Position|
            self.cell_in_range(pos) && (#[trigger] self.piece_at(pos)) is Some ==> {
                let id = self.piece_at(pos)->0;
                self.pieces().contains_key(id) && self.pieces()[id].pos == pos
            }
    }

    /// The other direction: every registered piece is found on its own cell.
    /// This holds as long as no transfer or insertion has overwritten an
    /// occupied cell; an overwrite leaves the displaced piece registered but
    /// unindexed.
    pub open spec fn fully_indexed(self) -> bool {
        forall|id: usize| #[trigger]
            self.pieces().contains_key(id) ==> self.piece_at(self.pieces()[id].pos) == Some(id)
    }

    /// Invariant of every registry the public operations hand out.
    pub open spec fn wf(self) -> bool {
        &&& self.geometry().wf()
        &&& self.repr_ok()
        &&& self.pieces_ok()
        &&& self.index_consistent()
    }

    /// Occupancy consistency, both directions written out: on a registry
    /// where every piece is indexed, cells and pieces point at each other
    /// exactly.
    pub proof fn lemma_occupancy_consistency(self)
        requires
            self.wf(),
            self.fully_indexed(),
        ensures
            forall|id: usize| #[trigger]
                self.pieces().contains_key(id) ==> self.piece_at(self.pieces()[id].pos) == Some(
                    id,
                ),
            forall|pos: Position|
                self.cell_in_range(pos) && (#[trigger] self.piece_at(pos)) is Some ==> {
                    let id = self.piece_at(pos)->0;
                    self.pieces().contains_key(id) && self.pieces()[id].pos == pos
                },
    {
    }

    fn grid_index(&self, pos: Position) -> (r: usize)
        requires
            self.repr_ok(),
            self.cell_in_range(pos),
        ensures
            r == pos.row * self.size() + pos.col,
            r < self.piece_positions@.len(),
    {
        proof {
            lemma_grid_index_in_bounds(self.size(), pos.row as int, pos.col as int);
        }
        pos.row * self.board_positions.row_cols + pos.col
    }

    /// An empty registry over the given geometry: no pieces, every cell
    /// unoccupied.
    pub fn new(board_positions: BoardPositions) -> (r: Self)
        requires
            board_positions.wf(),
            board_positions.row_cols * board_positions.row_cols <= usize::MAX,
        ensures
            r.wf(),
            r.geometry() == board_positions,
            r.pieces() == Map::<usize, Piece>::empty(),
            r.fully_indexed(),
            forall|pos: Position| r.cell_in_range(pos) ==> r.piece_at(pos) is None,
    {
        let n: usize = board_positions.row_cols * board_positions.row_cols;
        let mut grid: Vec<Option<usize>> = Vec::new();
        let mut i: usize = 0;
        while i < n
            invariant
                i <= n,
                grid@.len() == i,
                forall|j: int| 0 <= j < i ==> grid@[j] is None,
            decreases n - i,
        {
            grid.push(None);
            i = i + 1;
        }
        let r = PieceRegistry { piece_map: HashMap::new(), piece_positions: grid, board_positions };
        proof {
            assert forall|pos: Position| r.cell_in_range(pos) implies r.piece_at(pos) is None by {
                lemma_grid_index_in_bounds(r.size(), pos.row as int, pos.col as int);
            }
        }
        r
    }

    /// Where on the board the piece with the given id stands, as a point in
    /// continuous space; `None` exactly when no such piece is registered.
    pub fn get_xy(&self, piece_id: usize) -> (r: Option<Point>)
        requires
            self.wf(),
        ensures
            match r {
                None => !self.pieces().contains_key(piece_id),
                Some(p) => {
                    &&& self.pieces().contains_key(piece_id)
                    &&& p.x == self.geometry().spec_coord_of_index(
                        self.pieces()[piece_id].pos.col as int,
                    )
                    &&& p.y == self.geometry().spec_coord_of_index(
                        self.pieces()[piece_id].pos.row as int,
                    )
                },
            },
    {
        let piece: Piece = match self.piece_map.get(&piece_id) {
            Some(p) => *p,
            None => {
                return None;
            },
        };
        proof {
            self.geometry().lemma_board_index_in_bounds(piece.pos.row as int);
            self.geometry().lemma_board_index_in_bounds(piece.pos.col as int);
        }
        Some(self.board_positions.get_xy(piece.pos))
    }

    /// Registers a piece under its id and marks its cell occupied. The id
    /// must be fresh; the target cell's previous id, if any, is overwritten
    /// in the index and its piece left registered but unindexed.
    pub fn insert(&mut self, piece: Piece)
        requires
            old(self).wf(),
            !old(self).pieces().contains_key(piece.id),
            old(self).cell_in_range(piece.pos),
        ensures
            final(self).wf(),
            final(self).geometry() == old(self).geometry(),
            final(self).pieces() == old(self).pieces().insert(piece.id, piece),
            final(self).piece_at(piece.pos) == Some(piece.id),
            forall|pos: Position|
                old(self).cell_in_range(pos) && pos != piece.pos ==> final(self).piece_at(pos)
                    == old(self).piece_at(pos),
            old(self).fully_indexed() && old(self).piece_at(piece.pos) is None
                ==> final(self).fully_indexed(),
    {
        let idx = self.grid_index(piece.pos);
        self.piece_positions[idx] = Some(piece.id);
        self.piece_map.insert(piece.id, piece);
        proof {
            self.lemma_untouched_cells(*old(self), piece.pos);
        }
    }

    /// Moves whatever occupies `from` to `to`. An empty source cell makes
    /// the call a no-op; an occupied target cell is overwritten, leaving the
    /// displaced piece registered but unindexed; `from == to` leaves the
    /// state unchanged.
    pub fn transfer(&mut self, from: Position, to: Position)
        requires
            old(self).wf(),
            old(self).cell_in_range(from),
            old(self).cell_in_range(to),
        ensures
            final(self).wf(),
            final(self).geometry() == old(self).geometry(),
            old(self).piece_at(from) is None ==> *final(self) == *old(self),
            old(self).piece_at(from) matches Some(id) ==> {
                &&& final(self).pieces() == old(self).pieces().insert(
                    id,
                    (Piece { pos: to, ..old(self).pieces()[id] }),
                )
                &&& final(self).piece_at(to) == Some(id)
                &&& from != to ==> final(self).piece_at(from) is None
                &&& forall|pos: Position|
                    old(self).cell_in_range(pos) && pos != from && pos != to
                        ==> final(self).piece_at(pos) == old(self).piece_at(pos)
                &&& from == to ==> final(self).pieces() == old(self).pieces()
            },
            old(self).fully_indexed() && (from == to || old(self).piece_at(to) is None)
                ==> final(self).fully_indexed(),
    {
        let idx_from = self.grid_index(from);
        let from_piece_id: usize = match self.piece_positions[idx_from] {
            Some(id) => id,
            None => {
                return ;
            },
        };
        let mut piece: Piece = match self.piece_map.get(&from_piece_id) {
            Some(p) => *p,
            None => {
                proof {
                    assert(old(self).piece_at(from) == Some(from_piece_id));
                    assert(false);
                }
                return ;
            },
        };
        piece.pos = to;
        self.piece_map.insert(from_piece_id, piece);
        self.piece_positions[idx_from] = None;
        let idx_to = self.grid_index(to);
        self.piece_positions[idx_to] = Some(from_piece_id);
        proof {
            self.lemma_transfer_post(*old(self), from, to, from_piece_id);
        }
    }

    /// The id occupying the given cell, if any.
    pub fn piece_id_at(&self, pos: Position) -> (r: Option<usize>)
        requires
            self.wf(),
            self.cell_in_range(pos),
        ensures
            r == self.piece_at(pos),
    {
        let idx = self.grid_index(pos);
        self.piece_positions[idx]
    }

    /// The registered piece with the given id, if any.
    pub fn get_piece(&self, piece_id: usize) -> (r: Option<Piece>)
        requires
            self.wf(),
        ensures
            match r {
                None => !self.pieces().contains_key(piece_id),
                Some(p) => self.pieces().contains_key(piece_id) && p == self.pieces()[piece_id],
            },
    {
        match self.piece_map.get(&piece_id) {
            Some(p) => Some(*p),
            None => None,
        }
    }

    /// After a single grid write at `touched`, every other in-range cell
    /// reads as before.
    proof fn lemma_untouched_cells(self, prev: Self, touched: Position)
        requires
            prev.repr_ok(),
            prev.cell_in_range(touched),
            self.geometry() == prev.geometry(),
            self.piece_positions@ == prev.piece_positions@.update(
                touched.row * prev.size() + touched.col,
                self.piece_at(touched),
            ),
        ensures
            forall|pos: Position|
                prev.cell_in_range(pos) && pos != touched ==> self.piece_at(pos) == prev.piece_at(
                    pos,
                ),
    {
        assert forall|pos: Position| prev.cell_in_range(pos) && pos != touched implies self.piece_at(
            pos,
        ) == prev.piece_at(pos) by {
            lemma_grid_index_in_bounds(prev.size(), pos.row as int, pos.col as int);
            lemma_grid_index_in_bounds(prev.size(), touched.row as int, touched.col as int);
            if pos.row * prev.size() + pos.col == touched.row * prev.size() + touched.col {
                lemma_grid_index_injective(
                    prev.size(),
                    pos.row as int,
                    pos.col as int,
                    touched.row as int,
                    touched.col as int,
                );
            }
        }
    }

    /// The whole transfer postcondition, derived from the two grid writes
    /// and the map update the body performed.
    proof fn lemma_transfer_post(self, prev: Self, from: Position, to: Position, id: usize)
        requires
            prev.wf(),
            prev.cell_in_range(from),
            prev.cell_in_range(to),
            prev.piece_at(from) == Some(id),
            self.geometry() == prev.geometry(),
            self.pieces() == prev.pieces().insert(id, (Piece { pos: to, ..prev.pieces()[id] })),
            self.piece_positions@ == prev.piece_positions@.update(
                from.row * prev.size() + from.col,
                None,
            ).update(to.row * prev.size() + to.col, Some(id)),
        ensures
            self.wf(),
            self.piece_at(to) == Some(id),
            from != to ==> self.piece_at(from) is None,
            forall|pos: Position|
                prev.cell_in_range(pos) && pos != from && pos != to ==> self.piece_at(pos)
                    == prev.piece_at(pos),
            from == to ==> self.pieces() == prev.pieces(),
            prev.fully_indexed() && (from == to || prev.piece_at(to) is None)
                ==> self.fully_indexed(),
    {
        let s = prev.size();
        lemma_grid_index_in_bounds(s, from.row as int, from.col as int);
        lemma_grid_index_in_bounds(s, to.row as int, to.col as int);
        assert forall|pos: Position|
            prev.cell_in_range(pos) && pos != from && pos != to implies self.piece_at(pos)
            == prev.piece_at(pos) by {
            lemma_grid_index_in_bounds(s, pos.row as int, pos.col as int);
            if pos.row * s + pos.col == from.row * s + from.col {
                lemma_grid_index_injective(
                    s,
                    pos.row as int,
                    pos.col as int,
                    from.row as int,
                    from.col as int,
                );
            }
            if pos.row * s + pos.col == to.row * s + to.col {
                lemma_grid_index_injective(
                    s,
                    pos.row as int,
                    pos.col as int,
                    to.row as int,
                    to.col as int,
                );
            }
        }
        if from != to {
            if from.row * s + from.col == to.row * s + to.col {
                lemma_grid_index_injective(
                    s,
                    from.row as int,
                    from.col as int,
                    to.row as int,
                    to.col as int,
                );
            }
            assert(self.piece_at(from) is None);
        }
        if from == to {
            assert(self.pieces() =~= prev.pieces());
        }
        assert(self.index_consistent()) by {
            assert forall|pos: Position|
                self.cell_in_range(pos) && (#[trigger] self.piece_at(pos)) is Some implies {
                let id2 = self.piece_at(pos)->0;
                self.pieces().contains_key(id2) && self.pieces()[id2].pos == pos
            } by {
                let id2 = self.piece_at(pos)->0;
                lemma_grid_index_in_bounds(s, pos.row as int, pos.col as int);
                if pos.row * s + pos.col == to.row * s + to.col {
                    lemma_grid_index_injective(
                        s,
                        pos.row as int,
                        pos.col as int,
                        to.row as int,
                        to.col as int,
                    );
                } else if pos.row * s + pos.col == from.row * s + from.col {
                    lemma_grid_index_injective(
                        s,
                        pos.row as int,
                        pos.col as int,
                        from.row as int,
                        from.col as int,
                    );
                } else {
                    assert(prev.piece_at(pos) == Some(id2));
                    assert(prev.pieces()[id2].pos == pos);
                    assert(id2 != id) by {
                        if id2 == id {
                            assert(prev.pieces()[id].pos == from);
                        }
                    }
                }
            }
        }
        if prev.fully_indexed() && (from == to || prev.piece_at(to) is None) {
            assert forall|id2: usize| #[trigger]
                self.pieces().contains_key(id2) implies self.piece_at(self.pieces()[id2].pos)
                == Some(id2) by {
                if id2 == id {
                    assert(self.pieces()[id2].pos == to);
                } else {
                    let p2 = prev.pieces()[id2].pos;
                    assert(prev.piece_at(p2) == Some(id2));
                    lemma_grid_index_in_bounds(s, p2.row as int, p2.col as int);
                    if p2.row * s + p2.col == from.row * s + from.col {
                        lemma_grid_index_injective(
                            s,
                            p2.row as int,
                            p2.col as int,
                            from.row as int,
                            from.col as int,
                        );
                        assert(false);
                    }
                    if p2.row * s + p2.col == to.row * s + to.col {
                        lemma_grid_index_injective(
                            s,
                            p2.row as int,
                            p2.col as int,
                            to.row as int,
                            to.col as int,
                        );
                        assert(false);
                    }
                }
            }
        }
    }
}

} // verus!
