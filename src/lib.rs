//! Control logic of a two-team "capture the point" buzzer game: the match
//! clock, the actor that serialises every change to it, the audio stream that
//! plays each team's cue, and the small web interface around them.
use vstd::prelude::*;

pub mod game;
pub mod ring;
pub mod audio;
pub mod clock;
pub mod actor;
pub mod http;
pub mod button;
pub mod devices;

verus! {

/// The smaller of two integers.
pub open spec fn min(a: int, b: int) -> int {
    if a <= b {
        a
    } else {
        b
    }
}

} // verus!
