//! The game-state machine: snake, food, score, turn queue, blink
//! counters, and one discrete simulation step per tick.

use vstd::prelude::*;
use crate::blink::bumped;
use crate::buttons::Turn;
use crate::coords::{Coords, in_range};
use crate::direction::{Direction, left_of, right_of};
use crate::snake::{MAX_BODY_LEN, Snake, occupies};

verus! {

#[derive(Debug, Copy, Clone, Eq, PartialEq, Structural)]
pub enum GameStatus {
    Ongoing,
    GameOver,
}

/// What one simulation step did, so the surrounding loop knows whether a
/// fresh food cell must be drawn (`Ate`) or the session ended (`Collided`).
#[derive(Debug, Copy, Clone, Eq, PartialEq, Structural)]
pub enum StepOutcome {
    /// The game was not ongoing; nothing changed.
    Idle,
    /// The snake advanced one cell onto free ground.
    Moved,
    /// The snake advanced onto the food cell; the food must be re-placed.
    Ate,
    /// The next head cell was occupied by the body; the game is over and
    /// the snake did not move.
    Collided,
}

/// The one-deep turn queue: a command is accepted only while the slot is
/// empty, so later commands arriving before the slot is cleared are
/// dropped.
pub open spec fn queued(pending: Turn, turn: Turn) -> Turn {
    if pending is NoTurn {
        turn
    } else {
        pending
    }
}

/// The travel direction after a queued command is applied.
pub open spec fn turned(d: Direction, t: Turn) -> Direction {
    match t {
        Turn::Left => left_of(d),
        Turn::Right => right_of(d),
        Turn::NoTurn => d,
    }
}

/// Whether the cell `(r, c)` is lit on a refresh with the given
/// visibility flags: a visible snake lights every body cell, visible
/// food lights the food cell; both simply write "lit".
pub open spec fn cell_lit(g: Game, show_snake: bool, show_food: bool, r: int, c: int) -> bool {
    ||| (show_snake && occupies(g.snake.body@, r, c))
    ||| (show_food && g.food.row == r && g.food.col == c)
}

pub struct Game {
    pub snake: Snake,
    pub food: Coords,
    pub status: GameStatus,
    pub score: u8,
    pub snake_blink_counter: u32,
    pub food_blink_counter: u32,
    pub pending_turn: Turn,
    /// Food pickups per unit of growth; assumed at least 1 by the
    /// surrounding selection logic, never checked here at run time.
    pub difficulty: u8,
}

impl Game {
    pub open spec fn wf(self) -> bool {
        &&& self.snake.wf()
        &&& 1 <= self.difficulty
        &&& in_range(self.food)
    }

    /// A fresh session: a two-segment snake heading right from the board
    /// center, score zero, blink phase zero, no pending turn. The food
    /// starts at the fixed corner `(0, 0)`, which the starting snake never
    /// occupies; the session's first real food cell is then drawn through
    /// `try_place_food` with random candidates, exactly as after eating.
    pub fn new(difficulty: u8) -> (r: Game)
        requires
            1 <= difficulty,
        ensures
            r.wf(),
            r.status is Ongoing,
            r.score == 0,
            r.snake_blink_counter == 0,
            r.food_blink_counter == 0,
            r.pending_turn is NoTurn,
            r.difficulty == difficulty,
            r.snake.direction == Direction::Right,
            r.snake.head == (Coords { row: 2, col: 2 }),
            r.snake.body@ == seq![Coords { row: 2, col: 2 }, Coords { row: 2, col: 1 }],
            r.food == (Coords { row: 0, col: 0 }),
            !r.snake.body@.contains(r.food),
    {
        let snake = Snake::new(Coords::new(2, 2), Direction::Right);
        Self {
            snake,
            food: Coords::new(0, 0),
            status: GameStatus::Ongoing,
            score: 0,
            snake_blink_counter: 0,
            food_blink_counter: 0,
            pending_turn: Turn::NoTurn,
            difficulty,
        }
    }

    /// Accept `turn` into the pending slot only if the slot is empty:
    /// one intention per tick, so a rapid double tap cannot reverse the
    /// snake within a single tick.
    pub fn queue_turn(&mut self, turn: Turn)
        ensures
            final(self).pending_turn == queued(old(self).pending_turn, turn),
            final(self).snake == old(self).snake,
            final(self).food == old(self).food,
            final(self).status == old(self).status,
            final(self).score == old(self).score,
            final(self).snake_blink_counter == old(self).snake_blink_counter,
            final(self).food_blink_counter == old(self).food_blink_counter,
            final(self).difficulty == old(self).difficulty,
    {
        if matches!(self.pending_turn, Turn::NoTurn) {
            self.pending_turn = turn;
        }
    }

    /// Rotate the travel direction per the queued command, then clear the
    /// slot unconditionally.
    pub fn apply_pending_turn(&mut self)
        ensures
            final(self).snake.direction == turned(
                old(self).snake.direction,
                old(self).pending_turn,
            ),
            final(self).pending_turn is NoTurn,
            final(self).snake.head == old(self).snake.head,
            final(self).snake.body@ == old(self).snake.body@,
            final(self).food == old(self).food,
            final(self).status == old(self).status,
            final(self).score == old(self).score,
            final(self).snake_blink_counter == old(self).snake_blink_counter,
            final(self).food_blink_counter == old(self).food_blink_counter,
            final(self).difficulty == old(self).difficulty,
    {
        self.snake.direction = match self.pending_turn {
            Turn::Left => self.snake.direction.turn_left(),
            Turn::Right => self.snake.direction.turn_right(),
            Turn::NoTurn => self.snake.direction,
        };
        self.pending_turn = Turn::NoTurn;
    }

    /// One simulation tick. When the game is ongoing: compute the wrapped
    /// next head cell; if it equals a body segment other than the head,
    /// the game ends with the snake unmoved; if it equals the food cell,
    /// the score rises by one and the snake grows on every
    /// `difficulty`-th pickup (otherwise it just advances), leaving the
    /// eaten food cell to be re-placed by the caller; otherwise the snake
    /// advances one cell.
    pub fn step(&mut self) -> (r: StepOutcome)
        requires
            old(self).wf(),
            // The score is a u8 and rises only when food is eaten; the
            // one step that would push it past the top is ruled out.
            (old(self).status is Ongoing && old(self).snake.next_head() == old(self).food
                && !old(self).snake.hits_tail(old(self).snake.next_head())) ==> old(self).score
                < 255,
        ensures
            final(self).wf(),
            final(self).pending_turn == old(self).pending_turn,
            final(self).difficulty == old(self).difficulty,
            final(self).snake_blink_counter == old(self).snake_blink_counter,
            final(self).food_blink_counter == old(self).food_blink_counter,
            old(self).status is GameOver ==> *final(self) == *old(self) && r is Idle,
            old(self).status is Ongoing ==> {
                let nh = old(self).snake.next_head();
                let grows = (old(self).score + 1) % (old(self).difficulty as int) == 0;
                &&& old(self).snake.hits_tail(nh) ==> {
                    &&& r is Collided
                    &&& final(self).status is GameOver
                    &&& final(self).snake == old(self).snake
                    &&& final(self).food == old(self).food
                    &&& final(self).score == old(self).score
                }
                &&& !old(self).snake.hits_tail(nh) ==> {
                    &&& final(self).status is Ongoing
                    &&& final(self).snake.direction == old(self).snake.direction
                    &&& final(self).snake.head == nh
                    &&& final(self).food == old(self).food
                    &&& nh == old(self).food ==> {
                        &&& r is Ate
                        &&& final(self).score == old(self).score + 1
                        &&& (grows && old(self).snake.body@.len() < MAX_BODY_LEN)
                            ==> final(self).snake.body@ == seq![nh] + old(self).snake.body@
                        &&& (grows && old(self).snake.body@.len() == MAX_BODY_LEN)
                            ==> final(self).snake.body@ == seq![nh]
                            + old(self).snake.body@.drop_last()
                        &&& !grows ==> final(self).snake.body@ == seq![nh]
                            + old(self).snake.body@.drop_last()
                    }
                    &&& nh != old(self).food ==> {
                        &&& r is Moved
                        &&& final(self).score == old(self).score
                        &&& final(self).snake.body@ == seq![nh]
                            + old(self).snake.body@.drop_last()
                    }
                }
            },
    {
        if !matches!(self.status, GameStatus::Ongoing) {
            return StepOutcome::Idle;
        }

        let next_pos = self.snake.direction.step(self.snake.head).wrap();

        if self.hits_tail_at(next_pos) {
            self.status = GameStatus::GameOver;
            return StepOutcome::Collided;
        }

        if next_pos == self.food {
            self.score += 1;

            if self.score % self.difficulty == 0 {
                self.snake.move_and_grow();
            } else {
                self.snake.move_forward();
            }
            StepOutcome::Ate
        } else {
            self.snake.move_forward();
            StepOutcome::Moved
        }
    }

    /// Whether `pos` equals a body segment other than the head — the
    /// head always sits at the front of the body and is skipped, since it
    /// vacates its cell during the step being decided.
    fn hits_tail_at(&self, pos: Coords) -> (r: bool)
        requires
            self.wf(),
        ensures
            r == self.snake.hits_tail(pos),
    {
        let mut i: usize = 1;
        while i < self.snake.body.len()
            invariant
                self.wf(),
                1 <= i <= self.snake.body@.len(),
                forall|j: int| 1 <= j < i ==> self.snake.body@[j] != pos,
            decreases self.snake.body@.len() - i,
        {
            if self.snake.body[i] == pos {
                proof {
                    assert(self.snake.body@.skip(1)[i - 1] == pos);
                }
                return true;
            }
            i = i + 1;
        }
        proof {
            assert forall|j: int| 0 <= j < self.snake.body@.skip(1).len() implies self.snake.body@.skip(
                1,
            )[j] != pos by {
                assert(self.snake.body@.skip(1)[j] == self.snake.body@[j + 1]);
            }
        }
        false
    }

    /// Offer `candidate` as the next food cell. It is taken iff it does
    /// not touch the snake, so food never spawns on an occupied cell;
    /// a refused candidate leaves the game unchanged and the caller draws
    /// a fresh one.
    pub fn try_place_food(&mut self, candidate: Coords) -> (r: bool)
        requires
            old(self).wf(),
            in_range(candidate),
        ensures
            final(self).wf(),
            r == !old(self).snake.body@.contains(candidate),
            r ==> final(self).food == candidate,
            r ==> !final(self).snake.body@.contains(final(self).food),
            !r ==> final(self).food == old(self).food,
            final(self).snake == old(self).snake,
            final(self).status == old(self).status,
            final(self).score == old(self).score,
            final(self).snake_blink_counter == old(self).snake_blink_counter,
            final(self).food_blink_counter == old(self).food_blink_counter,
            final(self).pending_turn == old(self).pending_turn,
            final(self).difficulty == old(self).difficulty,
    {
        if self.snake.collides_with_self(candidate) {
            false
        } else {
            self.food = candidate;
            true
        }
    }

    /// Advance both square-wave phases by one sub-tick.
    pub fn update_blink_counters(&mut self)
        ensures
            final(self).snake_blink_counter == bumped(old(self).snake_blink_counter),
            final(self).food_blink_counter == bumped(old(self).food_blink_counter),
            final(self).snake == old(self).snake,
            final(self).food == old(self).food,
            final(self).status == old(self).status,
            final(self).score == old(self).score,
            final(self).pending_turn == old(self).pending_turn,
            final(self).difficulty == old(self).difficulty,
    {
        if self.snake_blink_counter < u32::MAX {
            self.snake_blink_counter += 1;
        } else {
            self.snake_blink_counter = 0;
        }
        if self.food_blink_counter < u32::MAX {
            self.food_blink_counter += 1;
        } else {
            self.food_blink_counter = 0;
        }
    }

    /// Map the game onto a 5x5 intensity matrix: body cells are lit when
    /// the snake is shown, the food cell when the food is shown, and
    /// every other cell is dark.
    pub fn render(&self, show_snake: bool, show_food: bool) -> (m: [[u8; 5]; 5])
        requires
            self.wf(),
        ensures
            forall|r: int, c: int|
                0 <= r < 5 && 0 <= c < 5 ==> #[trigger] m[r][c] == (if cell_lit(
                    *self,
                    show_snake,
                    show_food,
                    r,
                    c,
                ) {
                    9u8
                } else {
                    0u8
                }),
    {
        let mut matrix: [[u8; 5]; 5] = [[0u8; 5]; 5];

        if show_snake {
            let mut i: usize = 0;
            while i < self.snake.body.len()
                invariant
                    self.wf(),
                    0 <= i <= self.snake.body@.len(),
                    forall|r: int, c: int|
                        0 <= r < 5 && 0 <= c < 5 ==> #[trigger] matrix[r][c] == (if occupies(
                            self.snake.body@.take(i as int),
                            r,
                            c,
                        ) {
                            9u8
                        } else {
                            0u8
                        }),
                decreases self.snake.body@.len() - i,
            {
                let seg = self.snake.body[i];
                let ghost prev = matrix;
                let row_idx = seg.row as usize;
                let col_idx = seg.col as usize;
                let mut row_vals = matrix[row_idx];
                row_vals[col_idx] = 9u8;
                matrix[row_idx] = row_vals;
                proof {
                    let taken = self.snake.body@.take(i + 1);
                    assert forall|r: int, c: int| 0 <= r < 5 && 0 <= c < 5 implies #[trigger] matrix[r][c]
                        == (if occupies(taken, r, c) {
                        9u8
                    } else {
                        0u8
                    }) by {
                        if r == seg.row && c == seg.col {
                            assert(taken[i as int] == seg);
                            assert(occupies(taken, r, c));
                        } else {
                            assert(matrix[r][c] == prev[r][c]);
                            if occupies(taken, r, c) {
                                let w = choose|w: int|
                                    0 <= w < taken.len() && taken[w].row == r && taken[w].col == c;
                                assert(taken[w] == self.snake.body@.take(i as int)[w]);
                                assert(occupies(self.snake.body@.take(i as int), r, c));
                            }
                            if occupies(self.snake.body@.take(i as int), r, c) {
                                let w = choose|w: int|
                                    0 <= w < i && self.snake.body@.take(i as int)[w].row == r
                                        && self.snake.body@.take(i as int)[w].col == c;
                                assert(taken[w].row == r && taken[w].col == c);
                                assert(occupies(taken, r, c));
                            }
                        }
                    }
                }
                i = i + 1;
            }
            proof {
                assert(self.snake.body@.take(self.snake.body@.len() as int) == self.snake.body@);
            }
        }

        if show_food {
            let row_idx = self.food.row as usize;
            let col_idx = self.food.col as usize;
            let mut row_vals = matrix[row_idx];
            row_vals[col_idx] = 9u8;
            matrix[row_idx] = row_vals;
        }

        matrix
    }
}

/// Difficulty selection: each press steps down through the cyclic range
/// `[1, 5]`, from 5 to 1 and back around to 5.
pub fn next_difficulty(difficulty: u8) -> (r: u8)
    ensures
        r == (if difficulty > 1 {
            (difficulty - 1) as u8
        } else {
            5u8
        }),
        difficulty <= 5 ==> 1 <= r <= 5,
{
    if difficulty > 1 {
        difficulty - 1
    } else {
        5
    }
}

/// Law: two turn commands queued back to back into an empty slot, with no
/// `apply_pending_turn` between them, leave the slot holding the first
/// command; the second is dropped. (A first command of `NoTurn` asks for
/// nothing and leaves the slot open.)
pub proof fn lemma_queue_turn_exclusive(first: Turn, second: Turn)
    requires
        !(first is NoTurn),
    ensures
        queued(queued(Turn::NoTurn, first), second) == first,
{
}

} // verus!
