//! The pausable race clock and the screens of the race lifecycle.
use vstd::prelude::*;

verus! {

/// The screens the game moves through, from asset loading to the post-race
/// flow. A race is run in `Playing`; a finished race leads to `Leaderboard`
/// when a score service is configured and to `GameOver` otherwise.
#[derive(Clone, Copy, Debug, PartialEq, Eq, Structural)]
pub enum GameState {
    Loading,
    Decorating,
    Pipelines,
    MainMenu,
    Playing,
    Leaderboard,
    GameOver,
}

/// A pausable stopwatch counting elapsed race time in milliseconds.
///
/// It is created paused with zero elapsed time, unpaused when the starting
/// countdown completes, paused again on finish-line contact, death or manual
/// reset, and zeroed when a new round begins.
#[derive(Clone, Copy, Debug)]
pub struct RaceTime {
    pub elapsed_ms: u64,
    pub paused: bool,
}

impl Default for RaceTime {
    /// A fresh clock: paused, nothing elapsed.
    fn default() -> (r: Self)
        ensures
            r.elapsed_ms == 0,
            r.paused,
    {
        RaceTime { elapsed_ms: 0, paused: true }
    }
}

impl RaceTime {
    /// The clock after one tick of `dt_ms` milliseconds: elapsed time grows
    /// while unpaused (saturating at the counter's ceiling) and is frozen
    /// while paused.
    pub open spec fn tick_spec(self, dt_ms: u64) -> RaceTime {
        if self.paused {
            self
        } else {
            RaceTime {
                elapsed_ms: if self.elapsed_ms + dt_ms > u64::MAX {
                    u64::MAX
                } else {
                    (self.elapsed_ms + dt_ms) as u64
                },
                paused: false,
            }
        }
    }

    /// Advance the clock by `dt_ms` milliseconds; a paused clock is unchanged.
    pub fn tick(&mut self, dt_ms: u64)
        ensures
            *final(self) == old(self).tick_spec(dt_ms),
    {
        if !self.paused {
            self.elapsed_ms = self.elapsed_ms.saturating_add(dt_ms);
        }
    }

    /// Freeze the clock; elapsed time is kept.
    pub fn pause(&mut self)
        ensures
            final(self).paused,
            final(self).elapsed_ms == old(self).elapsed_ms,
    {
        self.paused = true;
    }

    /// Let the clock run again from its current elapsed time.
    pub fn unpause(&mut self)
        ensures
            !final(self).paused,
            final(self).elapsed_ms == old(self).elapsed_ms,
    {
        self.paused = false;
    }

    /// Zero the elapsed time for a new round; whether the clock is running
    /// is unchanged, as every path here pauses the clock first.
    pub fn reset(&mut self)
        ensures
            final(self).elapsed_ms == 0,
            final(self).paused == old(self).paused,
    {
        self.elapsed_ms = 0;
    }
}

} // verus!
