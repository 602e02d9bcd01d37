//! Gameplay core of an arcade vehicle-racing game.
//!
//! The library models the simulation logic that drives a race: per-vehicle
//! ground-contact tracking, the airborne trick (flip) accumulator, the boost
//! state machine that converts scored tricks into a temporary speed-limit
//! raise, the pausable race clock with its one-shot finish signal, and the
//! camera zoom easing. All quantities are fixed-point integers: time in
//! milliseconds, angles in millidegrees, lengths in milli-units.
//!
//! The engine around the core (physics, rendering, input, audio, networking)
//! is expected to translate its events into the plain values these functions
//! take, and to apply the values they return.
use vstd::prelude::*;

pub mod boost;
pub mod config;
pub mod contact;
pub mod countdown;
pub mod decorate;
pub mod menu;
pub mod race;
pub mod settings;
pub mod simulation;
pub mod timecode;
pub mod trick;
pub mod trick_text;
pub mod zoom;

verus! {

/// Addition on a millisecond counter that sticks at the counter's ceiling
/// instead of wrapping.
pub open spec fn sat_add_u64(a: u64, b: u64) -> u64 {
    if a + b > u64::MAX {
        u64::MAX
    } else {
        (a + b) as u64
    }
}

} // verus!
