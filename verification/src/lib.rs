//! Core rules of a Snake game played on a 5x5 toroidal pixel grid.
//!
//! The library holds the game-state machine: coordinates and directions,
//! the snake body, food placement, turn-input debouncing, the blink
//! schedulers that time-multiplex snake and food onto one display, and the
//! renderer that produces a 5x5 intensity matrix. Hardware concerns
//! (buttons, display, timer, the random source) stay outside; they hand
//! this library plain values and take plain values back.

pub mod coords;
pub mod direction;
pub mod snake;
pub mod buttons;
pub mod blink;
pub mod game;
pub mod frames;
