//! Four-way compass directions with rotation and stepping.

use vstd::prelude::*;
use crate::coords::Coords;

verus! {

#[derive(Debug, Copy, Clone, Eq, PartialEq, Structural)]
pub enum Direction {
    Up,
    Down,
    Left,
    Right,
}

/// Quarter turn counter-clockwise.
pub open spec fn left_of(d: Direction) -> Direction {
    match d {
        Direction::Up => Direction::Left,
        Direction::Left => Direction::Down,
        Direction::Down => Direction::Right,
        Direction::Right => Direction::Up,
    }
}

/// Quarter turn clockwise.
pub open spec fn right_of(d: Direction) -> Direction {
    match d {
        Direction::Up => Direction::Right,
        Direction::Right => Direction::Down,
        Direction::Down => Direction::Left,
        Direction::Left => Direction::Up,
    }
}

/// The reverse direction.
pub open spec fn opposite_of(d: Direction) -> Direction {
    match d {
        Direction::Up => Direction::Down,
        Direction::Down => Direction::Up,
        Direction::Left => Direction::Right,
        Direction::Right => Direction::Left,
    }
}

/// Row displacement of one step in direction `d`.
pub open spec fn row_delta(d: Direction) -> int {
    match d {
        Direction::Up => -1,
        Direction::Down => 1,
        Direction::Left => 0,
        Direction::Right => 0,
    }
}

/// Column displacement of one step in direction `d`.
pub open spec fn col_delta(d: Direction) -> int {
    match d {
        Direction::Up => 0,
        Direction::Down => 0,
        Direction::Left => -1,
        Direction::Right => 1,
    }
}

impl Direction {
    pub fn turn_left(&self) -> (r: Self)
        ensures
            r == left_of(*self),
    {
        match self {
            Direction::Up => Direction::Left,
            Direction::Left => Direction::Down,
            Direction::Down => Direction::Right,
            Direction::Right => Direction::Up,
        }
    }

    pub fn turn_right(&self) -> (r: Self)
        ensures
            r == right_of(*self),
    {
        match self {
            Direction::Up => Direction::Right,
            Direction::Right => Direction::Down,
            Direction::Down => Direction::Left,
            Direction::Left => Direction::Up,
        }
    }

    /// The cell one unit away in this direction. The result is not
    /// wrapped: callers normalize it with `Coords::wrap`.
    pub fn step(&self, coords: Coords) -> (r: Coords)
        requires
            i8::MIN < coords.row < i8::MAX,
            i8::MIN < coords.col < i8::MAX,
        ensures
            r.row as int == coords.row + row_delta(*self),
            r.col as int == coords.col + col_delta(*self),
    {
        match self {
            Direction::Up => Coords::new(coords.row - 1, coords.col),
            Direction::Down => Coords::new(coords.row + 1, coords.col),
            Direction::Left => Coords::new(coords.row, coords.col - 1),
            Direction::Right => Coords::new(coords.row, coords.col + 1),
        }
    }

    pub fn opposite(&self) -> (r: Self)
        ensures
            r == opposite_of(*self),
    {
        match self {
            Direction::Up => Direction::Down,
            Direction::Down => Direction::Up,
            Direction::Left => Direction::Right,
            Direction::Right => Direction::Left,
        }
    }
}

/// Law: left and right quarter turns are exact inverses, and reversing a
/// direction twice yields the direction itself.
pub proof fn lemma_turn_round_trip(d: Direction)
    ensures
        left_of(right_of(d)) == d,
        right_of(left_of(d)) == d,
        opposite_of(opposite_of(d)) == d,
{
}

} // verus!
