//! Coordinates on the 5x5 toroidal grid.

use vstd::prelude::*;

verus! {

/// Number of rows and columns of the display grid.
pub const GRID_SIZE: i8 = 5;

/// A cell position. Values may temporarily lie outside the grid (a step off
/// an edge); `wrap` normalizes them back into `[0, 5) x [0, 5)`.
#[derive(Debug, Copy, Clone, Eq, PartialEq, Structural)]
pub struct Coords {
    pub row: i8,
    pub col: i8,
}

/// Toroidal normalization of one axis: the representative of `v` modulo 5
/// that lies in `[0, 5)`. Spec-level `%` is Euclidean, so `v % 5` is it.
pub open spec fn wrap_val(v: int) -> int {
    v % 5
}

/// Whether a coordinate lies on the grid proper.
pub open spec fn in_range(c: Coords) -> bool {
    &&& 0 <= c.row < 5
    &&& 0 <= c.col < 5
}

impl Coords {
    pub fn new(row: i8, col: i8) -> (r: Self)
        ensures
            r.row == row,
            r.col == col,
    {
        Self { row, col }
    }

    /// Derive a cell from two draws of the external randomness source.
    /// Each axis is the draw reduced modulo 5; the slight bias of a byte
    /// modulo a 5-valued range is accepted as negligible.
    pub fn random(row_byte: u8, col_byte: u8) -> (r: Self)
        ensures
            r.row as int == row_byte as int % 5,
            r.col as int == col_byte as int % 5,
            in_range(r),
    {
        Self { row: (row_byte % 5) as i8, col: (col_byte % 5) as i8 }
    }

    /// Normalize both axes into `[0, 5)`, so that movement off one edge
    /// reappears at the opposite edge. A naive `%` is not enough on
    /// negative values: the modulus is added before `%` is taken again.
    pub fn wrap(&self) -> (r: Self)
        ensures
            r.row as int == wrap_val(self.row as int),
            r.col as int == wrap_val(self.col as int),
            in_range(r),
    {
        Self { row: ((self.row % 5) + 5) % 5, col: ((self.col % 5) + 5) % 5 }
    }
}

/// Law: the wrapped value always lies on the grid axis and is congruent
/// to the original value modulo 5.
pub proof fn lemma_wrap_range_congruent(v: int)
    ensures
        0 <= wrap_val(v) < 5,
        wrap_val(v) % 5 == v % 5,
{
}

} // verus!
