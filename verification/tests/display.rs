//! Tests of the blink schedulers, the renderer, and the fixed frames.

use snake_core::blink::blink_visible;
use snake_core::buttons::Turn;
use snake_core::coords::Coords;
use snake_core::direction::Direction;
use snake_core::frames::{blank_frame, difficulty_frame, game_over_frame};
use snake_core::game::{Game, GameStatus};
use snake_core::snake::Snake;

#[test]
fn blink_multiplier_one_alternates_every_subtick() {
    let expected = [true, false, true, false];
    for (counter, want) in expected.iter().enumerate() {
        assert_eq!(blink_visible(counter as u32, 1), *want);
    }
}

#[test]
fn blink_multiplier_twelve_is_a_symmetric_square_wave() {
    for counter in 0..12u32 {
        assert!(blink_visible(counter, 12));
        assert!(!blink_visible(counter + 12, 12));
        assert!(blink_visible(counter + 24, 12));
    }
}

#[test]
fn blink_counters_advance_once_per_subtick() {
    let mut g = Game::new(3);
    g.update_blink_counters();
    g.update_blink_counters();
    assert_eq!(g.snake_blink_counter, 2);
    assert_eq!(g.food_blink_counter, 2);
}

#[test]
fn blink_counters_wrap_at_the_top_of_the_type() {
    let mut g = Game::new(3);
    g.snake_blink_counter = u32::MAX;
    g.update_blink_counters();
    assert_eq!(g.snake_blink_counter, 0);
    assert_eq!(g.food_blink_counter, 1);
}

#[test]
fn render_lights_snake_and_food_when_both_shown() {
    let mut g = Game::new(3);
    assert!(g.try_place_food(Coords::new(4, 4)));
    let m = g.render(true, true);
    for (r, row) in m.iter().enumerate() {
        for (c, cell) in row.iter().enumerate() {
            let on_snake = (r, c) == (2, 2) || (r, c) == (2, 1);
            let on_food = (r, c) == (4, 4);
            let want = if on_snake || on_food { 9 } else { 0 };
            assert_eq!(*cell, want, "cell ({}, {})", r, c);
        }
    }
}

#[test]
fn render_hides_what_the_flags_hide() {
    let mut g = Game::new(3);
    assert!(g.try_place_food(Coords::new(4, 4)));
    let snake_only = g.render(true, false);
    assert_eq!(snake_only[4][4], 0);
    assert_eq!(snake_only[2][2], 9);
    let food_only = g.render(false, true);
    assert_eq!(food_only[4][4], 9);
    assert_eq!(food_only[2][2], 0);
    let neither = g.render(false, false);
    assert_eq!(neither, blank_frame());
}

#[test]
fn render_draws_every_body_segment() {
    let body = vec![Coords::new(1, 1), Coords::new(1, 2), Coords::new(2, 2), Coords::new(3, 2)];
    let g = Game {
        snake: Snake { head: body[0], body, direction: Direction::Up },
        food: Coords::new(0, 0),
        status: GameStatus::Ongoing,
        score: 0,
        snake_blink_counter: 0,
        food_blink_counter: 0,
        pending_turn: Turn::NoTurn,
        difficulty: 1,
    };
    let m = g.render(true, false);
    assert_eq!(m[1][1], 9);
    assert_eq!(m[1][2], 9);
    assert_eq!(m[2][2], 9);
    assert_eq!(m[3][2], 9);
    let lit: usize = m.iter().flatten().filter(|v| **v == 9).count();
    assert_eq!(lit, 4);
}

#[test]
fn food_and_snake_on_one_cell_simply_light_it() {
    // Food is never placed on the snake, but the renderer itself is
    // indifferent: both writers just light the shared cell.
    let mut g = Game::new(3);
    g.food = g.snake.head;
    let m = g.render(true, true);
    assert_eq!(m[2][2], 9);
}

#[test]
fn blank_frame_is_all_dark() {
    assert_eq!(blank_frame(), [[0u8; 5]; 5]);
}

#[test]
fn difficulty_frame_lights_the_top_row_prefix() {
    for d in 0..=5u8 {
        let m = difficulty_frame(d);
        for c in 0..5usize {
            let want = if (c as u8) < d { 9 } else { 0 };
            assert_eq!(m[0][c], want);
        }
        for r in 1..5usize {
            assert_eq!(m[r], [0u8; 5]);
        }
    }
}

#[test]
fn game_over_frame_is_the_cross() {
    let expected = [
        [0, 0, 0, 0, 0],
        [0, 0, 0, 0, 0],
        [0, 9, 0, 9, 0],
        [0, 0, 9, 0, 0],
        [0, 9, 0, 9, 0],
    ];
    assert_eq!(game_over_frame(), expected);
}
