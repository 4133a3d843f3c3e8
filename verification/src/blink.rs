//! Square-wave blink scheduling: a counter and a multiplier decide
//! whether an element is drawn on a given display refresh.

use vstd::prelude::*;

verus! {

/// A blinker with multiplier `m` is visible for `m` consecutive sub-ticks,
/// then hidden for `m`, repeating: on iff `counter % (2m) < m`.
pub open spec fn visible_at(counter: u32, multiplier: u32) -> bool {
    counter as int % (2 * multiplier) < multiplier
}

/// A counter advances by one each sub-tick and wraps around at the top of
/// its integer type (in practice never reached within a session).
pub open spec fn bumped(counter: u32) -> u32 {
    if counter < u32::MAX {
        (counter + 1) as u32
    } else {
        0
    }
}

/// Whether the element governed by this blinker is drawn on the refresh
/// numbered `counter`.
pub fn blink_visible(counter: u32, multiplier: u32) -> (r: bool)
    requires
        1 <= multiplier <= u32::MAX / 2,
    ensures
        r == visible_at(counter, multiplier),
{
    counter % (multiplier * 2) < multiplier
}

} // verus!
