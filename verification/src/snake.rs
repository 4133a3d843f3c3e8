//! The snake: a bounded ordered sequence of occupied cells, head first.

use vstd::prelude::*;
use crate::coords::{Coords, in_range, wrap_val};
use crate::direction::{Direction, col_delta, opposite_of, row_delta};

verus! {

/// The grid has 25 cells, so the body never needs to hold more.
pub const MAX_BODY_LEN: usize = 25;

/// Whether some segment of `body` sits on the cell `(r, c)`.
pub open spec fn occupies(body: Seq<Coords>, r: int, c: int) -> bool {
    exists|i: int| 0 <= i < body.len() && body[i].row == r && body[i].col == c
}

/// The cell the head reaches by one wrapped step in direction `d`.
pub open spec fn next_cell(head: Coords, d: Direction) -> Coords {
    Coords {
        row: wrap_val(head.row + row_delta(d)) as i8,
        col: wrap_val(head.col + col_delta(d)) as i8,
    }
}

pub struct Snake {
    pub head: Coords,
    pub body: Vec<Coords>,
    pub direction: Direction,
}

impl Snake {
    /// Internal invariant: the body is non-empty, fits on the board, the
    /// `head` field mirrors the front of the body, and every segment lies
    /// on the grid.
    pub open spec fn wf(self) -> bool {
        &&& 1 <= self.body@.len() <= MAX_BODY_LEN
        &&& self.head == self.body@[0]
        &&& forall|i: int| 0 <= i < self.body@.len() ==> in_range(#[trigger] self.body@[i])
    }

    /// The cell the snake's head would reach by one wrapped step in its
    /// current travel direction.
    pub open spec fn next_head(self) -> Coords {
        next_cell(self.head, self.direction)
    }

    /// Whether `pos` equals a body segment other than the head. This is
    /// the fatal test: the head itself vacates its cell during the step.
    pub open spec fn hits_tail(self, pos: Coords) -> bool {
        self.body@.skip(1).contains(pos)
    }

    /// A fresh snake of length two: the head at `start_pos`, one tail
    /// segment placed one wrapped step opposite to the travel direction.
    pub fn new(start_pos: Coords, direction: Direction) -> (r: Self)
        requires
            in_range(start_pos),
        ensures
            r.wf(),
            r.direction == direction,
            r.head == start_pos,
            r.body@ == seq![start_pos, next_cell(start_pos, opposite_of(direction))],
    {
        let mut body: Vec<Coords> = Vec::new();
        body.push(start_pos);
        let opposite_dir = direction.opposite();
        let tail1 = opposite_dir.step(start_pos).wrap();
        body.push(tail1);
        proof {
            assert(body@ =~= seq![start_pos, next_cell(start_pos, opposite_of(direction))]);
        }
        Self { head: start_pos, body, direction }
    }

    /// True iff `pos` equals any occupied segment, the head included.
    pub fn collides_with_self(&self, pos: Coords) -> (r: bool)
        ensures
            r == self.body@.contains(pos),
    {
        let mut i: usize = 0;
        while i < self.body.len()
            invariant
                0 <= i <= self.body@.len(),
                forall|j: int| 0 <= j < i ==> self.body@[j] != pos,
            decreases self.body@.len() - i,
        {
            if self.body[i] == pos {
                return true;
            }
            i = i + 1;
        }
        false
    }

    /// Advance one cell: the new head is inserted at the front and the
    /// last segment is dropped, so the length is unchanged.
    pub fn move_forward(&mut self)
        requires
            old(self).wf(),
        ensures
            final(self).wf(),
            final(self).direction == old(self).direction,
            final(self).head == old(self).next_head(),
            final(self).body@ == seq![old(self).next_head()] + old(self).body@.drop_last(),
            final(self).body@.len() == old(self).body@.len(),
    {
        let new_head = self.direction.step(self.head).wrap();
        self.head = new_head;
        self.body.insert(0, new_head);
        let _ = self.body.pop();
        proof {
            assert(self.body@ =~= seq![old(self).next_head()] + old(self).body@.drop_last());
        }
    }

    /// Advance one cell and keep the tail, so the length grows by one.
    /// At full board occupancy (25 segments) there is no room to grow:
    /// the snake then advances without growing, keeping the move total
    /// rather than failing.
    pub fn move_and_grow(&mut self)
        requires
            old(self).wf(),
        ensures
            final(self).wf(),
            final(self).direction == old(self).direction,
            final(self).head == old(self).next_head(),
            old(self).body@.len() < MAX_BODY_LEN ==> final(self).body@ == seq![
                old(self).next_head(),
            ] + old(self).body@,
            old(self).body@.len() == MAX_BODY_LEN ==> final(self).body@ == seq![
                old(self).next_head(),
            ] + old(self).body@.drop_last(),
    {
        let new_head = self.direction.step(self.head).wrap();
        self.head = new_head;
        self.body.insert(0, new_head);
        if self.body.len() > MAX_BODY_LEN {
            let _ = self.body.pop();
            proof {
                assert(self.body@ =~= seq![old(self).next_head()] + old(self).body@.drop_last());
            }
        } else {
            proof {
                assert(self.body@ =~= seq![old(self).next_head()] + old(self).body@);
            }
        }
    }
}

} // verus!
