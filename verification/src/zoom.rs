//! The camera zoom controller: a toggle swaps between two camera
//! distances, and the camera glides between them along an ease-in-out
//! curve over a fixed duration.
use vstd::prelude::*;

verus! {

/// The close camera distance, in milli-units.
pub const ZOOM_NEAR_MM: i64 = 20_000;
/// The far camera distance, in milli-units.
pub const ZOOM_FAR_MM: i64 = 80_000;
/// How long one zoom glide takes, in milliseconds.
pub const ZOOM_DURATION_MS: u64 = 700;
/// Largest camera distance magnitude the controller accepts, in
/// milli-units.
pub const ZOOM_MAX_ABS_MM: i64 = 1_000_000_000;

/// The quadratic ease-in-out curve on a permille scale: accelerates over
/// the first half, decelerates over the second, fixing 0 and 1000.
pub open spec fn ease_quad_in_out_permille(p: int) -> int {
    if p <= 500 {
        2 * (p * p) / 1000
    } else {
        1000 - 2 * ((1000 - p) * (1000 - p)) / 1000
    }
}

/// Evaluate the ease-in-out curve at `p_permille` of the way through.
pub fn ease_quad_in_out(p_permille: u64) -> (r: u64)
    requires
        p_permille <= 1000,
    ensures
        r == ease_quad_in_out_permille(p_permille as int),
        r <= 1000,
{
    if p_permille <= 500 {
        proof {
            assert(p_permille * p_permille <= 250_000) by (nonlinear_arith)
                requires
                    p_permille <= 500,
            ;
        }
        let sq: u64 = p_permille * p_permille;
        2 * sq / 1000
    } else {
        let q = 1000 - p_permille;
        proof {
            assert(q * q <= 250_000) by (nonlinear_arith)
                requires
                    q <= 500,
            ;
        }
        let sq: u64 = q * q;
        assert(2 * sq / 1000 <= 500);
        1000 - 2 * sq / 1000
    }
}

/// Linear interpolation from `from` to `target`, `eased` permille of the
/// way, rounding the travelled distance toward zero.
pub open spec fn lerp_mm(from: int, target: int, eased: int) -> int {
    if target >= from {
        from + (target - from) * eased / 1000
    } else {
        from - (from - target) * eased / 1000
    }
}

/// The interpolant stays between its endpoints.
pub proof fn lemma_lerp_bounds(from: int, target: int, eased: int)
    requires
        0 <= eased <= 1000,
    ensures
        from <= target ==> from <= lerp_mm(from, target, eased) <= target,
        target <= from ==> target <= lerp_mm(from, target, eased) <= from,
{
    if target >= from {
        assert(0 <= (target - from) * eased <= (target - from) * 1000) by (nonlinear_arith)
            requires
                0 <= eased <= 1000,
                target >= from,
        ;
    } else {
        assert(0 <= (from - target) * eased <= (from - target) * 1000) by (nonlinear_arith)
            requires
                0 <= eased <= 1000,
                target < from,
        ;
    }
}

/// The zoom glide: the camera distance runs from `from_mm` to `target_mm`
/// as the timer fills; the timer sits paused whenever no glide is active.
#[derive(Clone, Copy, Debug)]
pub struct Zoom {
    /// The distance the current glide started from, in milli-units.
    pub from_mm: i64,
    /// The distance the current glide heads to, in milli-units.
    pub target_mm: i64,
    /// How far into the glide the timer is, in milliseconds.
    pub elapsed_ms: u64,
    /// True while no glide is running.
    pub paused: bool,
}

impl Default for Zoom {
    /// The camera starts near with the far distance queued, no glide
    /// running.
    fn default() -> (r: Self)
        ensures
            r == (Zoom {
                from_mm: ZOOM_NEAR_MM,
                target_mm: ZOOM_FAR_MM,
                elapsed_ms: 0u64,
                paused: true,
            }),
            r.wf(),
    {
        Zoom { from_mm: ZOOM_NEAR_MM, target_mm: ZOOM_FAR_MM, elapsed_ms: 0, paused: true }
    }
}

impl Zoom {
    /// Distances within range and the timer within the glide duration.
    pub open spec fn wf(self) -> bool {
        &&& -ZOOM_MAX_ABS_MM <= self.from_mm <= ZOOM_MAX_ABS_MM
        &&& -ZOOM_MAX_ABS_MM <= self.target_mm <= ZOOM_MAX_ABS_MM
        &&& self.elapsed_ms <= ZOOM_DURATION_MS
    }

    /// The controller after a toggle press: pressed while idle, the two
    /// distances swap and a fresh glide starts; otherwise nothing changes
    /// (a press mid-glide is ignored).
    pub open spec fn toggle_spec(self, just_pressed: bool) -> Zoom {
        if just_pressed && self.paused {
            Zoom {
                from_mm: self.target_mm,
                target_mm: self.from_mm,
                elapsed_ms: 0u64,
                paused: false,
            }
        } else {
            self
        }
    }

    /// Start a glide on a toggle press while idle.
    pub fn toggle(&mut self, just_pressed: bool)
        ensures
            *final(self) == old(self).toggle_spec(just_pressed),
    {
        if just_pressed && self.paused {
            let from = self.from_mm;
            self.from_mm = self.target_mm;
            self.target_mm = from;
            self.elapsed_ms = 0;
            self.paused = false;
        }
    }

    /// The controller after one tick: an idle controller is unchanged; a
    /// running one advances its timer, capped at the glide duration, and
    /// pauses on reaching it.
    pub open spec fn tick_spec(self, dt_ms: u64) -> Zoom {
        if self.paused {
            self
        } else {
            let e = if self.elapsed_ms + dt_ms >= ZOOM_DURATION_MS {
                ZOOM_DURATION_MS
            } else {
                (self.elapsed_ms + dt_ms) as u64
            };
            Zoom { elapsed_ms: e, paused: e == ZOOM_DURATION_MS, ..self }
        }
    }

    /// How far through the glide the timer is, in permille.
    pub open spec fn progress_permille(self) -> int {
        self.elapsed_ms * 1000 / (ZOOM_DURATION_MS as int)
    }

    /// The camera distance the glide prescribes for the current timer
    /// position.
    pub open spec fn camera_z_spec(self) -> int {
        lerp_mm(
            self.from_mm as int,
            self.target_mm as int,
            ease_quad_in_out_permille(self.progress_permille()),
        )
    }

    /// Advance a running glide by one tick and return the camera distance
    /// to apply, in milli-units; an idle controller returns nothing and
    /// leaves the camera alone.
    pub fn tick(&mut self, dt_ms: u64) -> (z: Option<i64>)
        requires
            old(self).wf(),
        ensures
            *final(self) == old(self).tick_spec(dt_ms),
            final(self).wf(),
            z == if old(self).paused {
                None::<i64>
            } else {
                Some(old(self).tick_spec(dt_ms).camera_z_spec() as i64)
            },
    {
        if self.paused {
            return None;
        }
        self.elapsed_ms = if self.elapsed_ms.saturating_add(dt_ms) >= ZOOM_DURATION_MS {
            ZOOM_DURATION_MS
        } else {
            self.elapsed_ms + dt_ms
        };
        let progress: u64 = self.elapsed_ms * 1000 / ZOOM_DURATION_MS;
        let eased: u64 = ease_quad_in_out(progress);
        proof {
            lemma_lerp_bounds(self.from_mm as int, self.target_mm as int, eased as int);
        }
        let z: i64 = if self.target_mm >= self.from_mm {
            let travelled: u64 = (self.target_mm - self.from_mm) as u64 * eased / 1000;
            proof {
                assert((self.target_mm - self.from_mm) * eased <= (self.target_mm - self.from_mm)
                    * 1000) by (nonlinear_arith)
                    requires
                        eased <= 1000,
                        self.target_mm >= self.from_mm,
                ;
            }
            self.from_mm + travelled as i64
        } else {
            let travelled: u64 = (self.from_mm - self.target_mm) as u64 * eased / 1000;
            proof {
                assert((self.from_mm - self.target_mm) * eased <= (self.from_mm - self.target_mm)
                    * 1000) by (nonlinear_arith)
                    requires
                        eased <= 1000,
                        self.target_mm < self.from_mm,
                ;
            }
            self.from_mm - travelled as i64
        };
        if self.elapsed_ms == ZOOM_DURATION_MS {
            self.paused = true;
        }
        Some(z)
    }
}

} // verus!
