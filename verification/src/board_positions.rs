//! Translation between grid cells and continuous board space.
//!
//! The board is a square of `row_cols` x `row_cols` tiles, each
//! `tile_length` units long, centered on the origin: cell (0, 0) sits at the
//! most negative corner, and each cell maps to the point at its center.
//!
//! Board space is measured in half-units: every coordinate is twice its
//! value in tile units. A tile's center lies half a tile from its edge, so
//! in half-units every center is a whole number for every tile length, and
//! the board is exactly symmetric about the origin. The presentation layer
//! halves coordinates when it draws.

use vstd::arithmetic::div_mod::lemma_div_multiples_vanish_fancy;
use vstd::prelude::*;

use crate::position::{Point, Position};

verus! {

/// An exact scale factor, kept as a fraction so that the core stays in
/// integer arithmetic; the presentation layer divides when it applies it.
#[derive(Debug, Copy, Clone, PartialEq, Eq, Structural)]
pub struct ScaleRatio {
    pub num: i64,
    pub den: i64,
}

#[derive(Debug, Copy, Clone, PartialEq, Eq, Structural)]
pub struct BoardPositions {
    pub tile_length: i64,
    pub background_margin: i64,
    pub row_cols: usize,
}

impl BoardPositions {
    /// Valid geometry: positive tile length and grid dimension, non-negative
    /// margin, and the whole board (plus margin) measurable in an `i64`.
    pub open spec fn wf(self) -> bool {
        &&& 1 <= self.tile_length
        &&& 0 <= self.background_margin
        &&& 1 <= self.row_cols
        &&& self.row_cols * self.tile_length + self.background_margin <= i64::MAX
    }

    /// Distance from the origin to the board's edge along each axis, in
    /// half-units: the board spans `row_cols * tile_length` units, so half
    /// of it is that same number of half-units.
    pub open spec fn spec_offset(self) -> int {
        self.row_cols * self.tile_length
    }

    /// Center coordinate of the tile with the given index, along one axis,
    /// in half-units: `index + 1/2` tiles past the board's negative edge.
    pub open spec fn spec_coord_of_index(self, index: int) -> int {
        self.tile_length * (2 * index + 1 - self.row_cols)
    }

    /// Inverse translation along one axis: which tile index a coordinate
    /// falls into. A tile spans `2 * tile_length` half-units.
    pub open spec fn spec_index_of_coord(self, coord: int) -> int {
        (coord + self.spec_offset()) / (2 * self.tile_length as int)
    }

    /// The coordinate computation for this index stays within `i64`.
    /// Any index on the board satisfies it (`lemma_board_index_in_bounds`);
    /// indices beyond the board extrapolate as long as it holds.
    pub open spec fn index_in_bounds(self, index: int) -> bool {
        &&& 0 <= index <= i64::MAX
        &&& self.tile_length * (2 * index + 1 - self.row_cols) <= i64::MAX
    }

    pub fn new(tile_length: i64, background_margin: i64, row_cols: usize) -> (r: Self)
        requires
            1 <= tile_length,
            0 <= background_margin,
            1 <= row_cols,
            row_cols * tile_length + background_margin <= i64::MAX,
        ensures
            r == (BoardPositions { tile_length, background_margin, row_cols }),
            r.wf(),
    {
        BoardPositions { tile_length, background_margin, row_cols }
    }

    fn from_index_to_coord(&self, index: usize) -> (r: i64)
        requires
            self.wf(),
            self.index_in_bounds(index as int),
        ensures
            r == self.spec_coord_of_index(index as int),
    {
        proof {
            self.lemma_arith_facts();
            let k = 2 * (index as int) + 1 - self.row_cols;
            assert(k <= i64::MAX && self.tile_length * k >= self.tile_length * (1
                - self.row_cols)) by (nonlinear_arith)
                requires
                    self.tile_length >= 1,
                    index as int >= 0,
                    self.row_cols >= 1,
                    k == 2 * (index as int) + 1 - self.row_cols,
                    self.tile_length * k <= i64::MAX,
            ;
            assert(self.tile_length * (1 - self.row_cols) == self.tile_length - self.row_cols
                * self.tile_length) by (nonlinear_arith);
        }
        let idx_i: i64 = index as i64;
        let n_i: i64 = self.row_cols as i64;
        let k: i64 = idx_i - n_i + idx_i + 1;
        self.tile_length * k
    }

    /// Center point of the given cell: column selects `x`, row selects `y`.
    pub fn get_xy(&self, pos: Position) -> (r: Point)
        requires
            self.wf(),
            self.index_in_bounds(pos.row as int),
            self.index_in_bounds(pos.col as int),
        ensures
            r.x == self.spec_coord_of_index(pos.col as int),
            r.y == self.spec_coord_of_index(pos.row as int),
    {
        let y = self.from_index_to_coord(pos.row);
        let x = self.from_index_to_coord(pos.col);
        Point { x, y }
    }

    /// Exact factor by which a square source image of the given side length
    /// must be scaled to cover the board plus its margin.
    pub fn get_background_scale(&self, img_length: i64) -> (r: ScaleRatio)
        requires
            self.wf(),
            1 <= img_length,
        ensures
            r.num == self.row_cols * self.tile_length + self.background_margin,
            r.den == img_length,
    {
        proof {
            self.lemma_arith_facts();
        }
        let size_needed: i64 = (self.row_cols as i64) * self.tile_length + self.background_margin;
        ScaleRatio { num: size_needed, den: img_length }
    }

    /// Shared bounds on the derived quantities of a well-formed geometry.
    proof fn lemma_arith_facts(self)
        requires
            self.wf(),
        ensures
            self.row_cols <= self.row_cols * self.tile_length,
            self.tile_length <= self.row_cols * self.tile_length,
            0 <= self.spec_offset() == self.row_cols * self.tile_length <= i64::MAX,
    {
        assert(self.row_cols <= self.row_cols * self.tile_length && self.tile_length
            <= self.row_cols * self.tile_length && 0 <= self.row_cols * self.tile_length)
            by (nonlinear_arith)
            requires
                1 <= self.tile_length,
                1 <= self.row_cols,
        ;
    }

    /// Every index on the board is safe to translate: the bound asked of
    /// `get_xy` follows from well-formedness for indices below `row_cols`.
    pub proof fn lemma_board_index_in_bounds(self, index: int)
        requires
            self.wf(),
            0 <= index < self.row_cols,
        ensures
            self.index_in_bounds(index),
    {
        self.lemma_arith_facts();
        assert(self.tile_length * (2 * index + 1 - self.row_cols) <= self.row_cols
            * self.tile_length) by (nonlinear_arith)
            requires
                1 <= self.tile_length,
                0 <= index,
                index < self.row_cols,
        ;
    }

    /// Round-trip law: translating any cell index to its center coordinate
    /// and back yields the same index. Holds for every non-negative index,
    /// on or beyond the board.
    pub proof fn lemma_round_trip(self, index: int)
        requires
            self.wf(),
            0 <= index,
        ensures
            self.spec_index_of_coord(self.spec_coord_of_index(index)) == index,
    {
        let t = self.tile_length as int;
        assert(self.spec_coord_of_index(index) + self.spec_offset() == (2 * t) * index + t)
            by (nonlinear_arith)
            requires
                t == self.tile_length as int,
                self.spec_coord_of_index(index) == t * (2 * index + 1 - self.row_cols),
                self.spec_offset() == self.row_cols * t,
        ;
        lemma_div_multiples_vanish_fancy(index, t, 2 * t);
    }

    /// Centering law: the board is symmetric about the origin — the center
    /// of cell `i` mirrors the center of cell `row_cols - 1 - i` along each
    /// axis, for every valid geometry.
    pub proof fn lemma_centered(self, index: int)
        requires
            self.wf(),
            0 <= index < self.row_cols,
        ensures
            self.spec_coord_of_index(index) == -self.spec_coord_of_index(
                self.row_cols - 1 - index,
            ),
    {
        let t = self.tile_length as int;
        let n = self.row_cols as int;
        assert(t * (2 * index + 1 - n) == -(t * (2 * (n - 1 - index) + 1 - n)))
            by (nonlinear_arith);
    }
}

} // verus!
