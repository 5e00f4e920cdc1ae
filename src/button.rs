//! Debouncing of the team buttons.
use vstd::prelude::*;

verus! {

/// Default quiet time a button needs between two accepted presses.
pub const DEFAULT_DEBOUNCE_MS: usize = 50;

/// Time from `last` to `now`, or zero if the clock reads earlier than `last`.
pub open spec fn elapsed(now: int, last: int) -> int {
    if now >= last {
        now - last
    } else {
        0
    }
}

/// Whether a falling edge at `now_ms` counts as a press, given the time of the
/// previous edge.  Every edge, accepted or not, becomes the new previous edge,
/// so a bouncing contact keeps extending its own quiet window.
pub fn accepts_press(now_ms: usize, last_edge_ms: usize, debounce_ms: usize) -> (r: bool)
    ensures
        r == (elapsed(now_ms as int, last_edge_ms as int) >= debounce_ms),
{
    now_ms.saturating_sub(last_edge_ms) >= debounce_ms
}

} // verus!
