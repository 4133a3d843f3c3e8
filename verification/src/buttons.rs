//! Edge-triggered debouncing of two raw button levels into turn commands.

use vstd::prelude::*;

verus! {

/// A pending rotation request: relative, not an absolute direction.
/// `NoTurn` means no rotation is requested.
#[derive(Debug, Copy, Clone, Eq, PartialEq, Structural)]
pub enum Turn {
    Left,
    Right,
    NoTurn,
}

/// Last-observed levels of the two buttons, remembered between polls so
/// that a rising edge (not-pressed to pressed) can be told from a hold.
pub struct ButtonState {
    pub a_was_pressed: bool,
    pub b_was_pressed: bool,
}

/// The command one poll emits: Left on a rising edge of button A alone,
/// Right on a rising edge of button B alone, and no turn otherwise —
/// simultaneous rising edges cancel out.
pub open spec fn poll_turn(
    state: ButtonState,
    a_pressed: bool,
    b_pressed: bool,
) -> Turn {
    let a_just = a_pressed && !state.a_was_pressed;
    let b_just = b_pressed && !state.b_was_pressed;
    if a_just && !b_just {
        Turn::Left
    } else if b_just && !a_just {
        Turn::Right
    } else {
        Turn::NoTurn
    }
}

impl ButtonState {
    /// Fresh state: both buttons taken as released.
    pub fn new() -> (r: Self)
        ensures
            !r.a_was_pressed,
            !r.b_was_pressed,
    {
        Self { a_was_pressed: false, b_was_pressed: false }
    }
}

/// One debouncer poll over the sampled levels `a_pressed` and `b_pressed`.
/// Emits a turn only on a lone rising edge, and remembers the sampled
/// levels unconditionally, whatever was emitted.
pub fn read_buttons(state: &mut ButtonState, a_pressed: bool, b_pressed: bool) -> (r: Turn)
    ensures
        r == poll_turn(*old(state), a_pressed, b_pressed),
        final(state).a_was_pressed == a_pressed,
        final(state).b_was_pressed == b_pressed,
{
    let a_just_pressed = a_pressed && !state.a_was_pressed;
    let b_just_pressed = b_pressed && !state.b_was_pressed;

    state.a_was_pressed = a_pressed;
    state.b_was_pressed = b_pressed;

    match (a_just_pressed, b_just_pressed) {
        (true, false) => Turn::Left,
        (false, true) => Turn::Right,
        _ => Turn::NoTurn,
    }
}

} // verus!
