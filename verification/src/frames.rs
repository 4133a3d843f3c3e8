//! Fixed frames around the game proper: the difficulty picker row, the
//! game-over cross, and the blank frame shown between lit frames.

use vstd::prelude::*;

verus! {

/// Cells of the game-over cross: an X drawn on the lower three rows.
pub open spec fn cross_cell(r: int, c: int) -> bool {
    ||| (r == 2 && (c == 1 || c == 3))
    ||| (r == 3 && c == 2)
    ||| (r == 4 && (c == 1 || c == 3))
}

/// The all-dark frame presented between lit frames to produce discrete
/// blinks.
pub fn blank_frame() -> (m: [[u8; 5]; 5])
    ensures
        forall|r: int, c: int| 0 <= r < 5 && 0 <= c < 5 ==> #[trigger] m[r][c] == 0u8,
{
    [[0u8; 5]; 5]
}

/// The difficulty picker: the first `difficulty` cells of the top row
/// are lit, everything else is dark.
pub fn difficulty_frame(difficulty: u8) -> (m: [[u8; 5]; 5])
    requires
        difficulty <= 5,
    ensures
        forall|r: int, c: int|
            0 <= r < 5 && 0 <= c < 5 ==> #[trigger] m[r][c] == (if r == 0 && c < difficulty {
                9u8
            } else {
                0u8
            }),
{
    let mut matrix: [[u8; 5]; 5] = [[0u8; 5]; 5];
    let mut top_row: [u8; 5] = [0u8; 5];
    let mut i: usize = 0;
    while i < difficulty as usize
        invariant
            difficulty <= 5,
            0 <= i <= difficulty,
            forall|c: int|
                0 <= c < 5 ==> #[trigger] top_row[c] == (if c < i {
                    9u8
                } else {
                    0u8
                }),
        decreases difficulty as int - i,
    {
        top_row[i] = 9u8;
        i = i + 1;
    }
    matrix[0] = top_row;
    matrix
}

/// The end-of-game visual: a cross, lit at full intensity.
pub fn game_over_frame() -> (m: [[u8; 5]; 5])
    ensures
        forall|r: int, c: int|
            0 <= r < 5 && 0 <= c < 5 ==> #[trigger] m[r][c] == (if cross_cell(r, c) {
                9u8
            } else {
                0u8
            }),
{
    let mut matrix: [[u8; 5]; 5] = [[0u8; 5]; 5];
    let mut row: [u8; 5] = [0u8; 5];
    row[1] = 9u8;
    row[3] = 9u8;
    matrix[2] = row;
    matrix[4] = row;
    let mut mid: [u8; 5] = [0u8; 5];
    mid[2] = 9u8;
    matrix[3] = mid;
    matrix
}

} // verus!
