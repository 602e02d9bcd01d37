//! The race-start countdown: three seconds of "3, 2, 1", then a short
//! "GO!" display; the race clock starts the moment the countdown runs out.
use vstd::prelude::*;

verus! {

/// How long the countdown runs before the race starts, in milliseconds.
pub const COUNTDOWN_MS: u64 = 3_000;
/// How long the go notice stays up after the start, in milliseconds.
pub const GO_DISPLAY_MS: u64 = 1_000;

/// The two phases of the race start: the countdown proper, then the short
/// go-notice display.
#[derive(Clone, Copy, Debug)]
pub struct CountdownTimer {
    /// Time into the countdown, in milliseconds, capped at `COUNTDOWN_MS`.
    pub countdown_elapsed_ms: u64,
    /// Time the go notice has been up, in milliseconds, capped at
    /// `GO_DISPLAY_MS`.
    pub go_elapsed_ms: u64,
}

impl Default for CountdownTimer {
    /// A countdown about to begin.
    fn default() -> (r: Self)
        ensures
            r == (CountdownTimer { countdown_elapsed_ms: 0u64, go_elapsed_ms: 0u64 }),
    {
        CountdownTimer { countdown_elapsed_ms: 0, go_elapsed_ms: 0 }
    }
}

impl CountdownTimer {
    /// Both phases within their caps.
    pub open spec fn wf(self) -> bool {
        self.countdown_elapsed_ms <= COUNTDOWN_MS && self.go_elapsed_ms <= GO_DISPLAY_MS
    }

    /// The timer after one tick, with whether the countdown ran out on
    /// exactly this tick. While the countdown runs it fills, capped; the
    /// tick that fills it restarts the go display and starts the race.
    /// Afterwards the go display fills in turn, and then nothing moves.
    pub open spec fn tick_spec(self, dt_ms: u64) -> (CountdownTimer, bool) {
        if self.countdown_elapsed_ms < COUNTDOWN_MS {
            let c = if self.countdown_elapsed_ms + dt_ms >= COUNTDOWN_MS {
                COUNTDOWN_MS
            } else {
                (self.countdown_elapsed_ms + dt_ms) as u64
            };
            if c == COUNTDOWN_MS {
                (CountdownTimer { countdown_elapsed_ms: c, go_elapsed_ms: 0u64 }, true)
            } else {
                (CountdownTimer { countdown_elapsed_ms: c, ..self }, false)
            }
        } else if self.go_elapsed_ms < GO_DISPLAY_MS {
            let g = if self.go_elapsed_ms + dt_ms >= GO_DISPLAY_MS {
                GO_DISPLAY_MS
            } else {
                (self.go_elapsed_ms + dt_ms) as u64
            };
            (CountdownTimer { go_elapsed_ms: g, ..self }, false)
        } else {
            (self, false)
        }
    }

    /// Advance the countdown by one tick. Returns true exactly when the
    /// countdown ran out on this tick: the caller then unpauses the race
    /// clock, once per round.
    pub fn tick(&mut self, dt_ms: u64) -> (race_starts: bool)
        requires
            old(self).wf(),
        ensures
            (*final(self), race_starts) == old(self).tick_spec(dt_ms),
            final(self).wf(),
    {
        if self.countdown_elapsed_ms < COUNTDOWN_MS {
            self.countdown_elapsed_ms =
                if self.countdown_elapsed_ms.saturating_add(dt_ms) >= COUNTDOWN_MS {
                    COUNTDOWN_MS
                } else {
                    self.countdown_elapsed_ms + dt_ms
                };
            if self.countdown_elapsed_ms == COUNTDOWN_MS {
                self.go_elapsed_ms = 0;
                return true;
            }
            false
        } else if self.go_elapsed_ms < GO_DISPLAY_MS {
            self.go_elapsed_ms = if self.go_elapsed_ms.saturating_add(dt_ms) >= GO_DISPLAY_MS {
                GO_DISPLAY_MS
            } else {
                self.go_elapsed_ms + dt_ms
            };
            false
        } else {
            false
        }
    }

    /// The whole second still shown on the countdown display, rounding any
    /// part of a second up; zero once the countdown has run out.
    pub fn seconds_left(&self) -> (r: u64)
        requires
            self.wf(),
        ensures
            r == (COUNTDOWN_MS - self.countdown_elapsed_ms + 999) / 1000,
    {
        (COUNTDOWN_MS - self.countdown_elapsed_ms + 999) / 1000
    }
}

} // verus!
