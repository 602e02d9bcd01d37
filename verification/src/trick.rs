//! The trick evaluator: while the vehicle is airborne its rotation is
//! integrated into an accumulator that carries whole turns out as flips;
//! on landing the residual is generously rounded, the trick is scored and
//! handed to the boost state machine.
use vstd::prelude::*;

use crate::boost::{
    boost_duration_ms, boost_duration_spec, Boost, BASE_BOOST_MS, FLIP_BOOST_MS, FRESH_BOOST_MS,
};
use crate::config::VehicleConfig;
use crate::sat_add_u64;

verus! {

/// A full turn, in millidegrees.
pub const FULL_TURN_MDEG: i64 = 360_000;

/// The longest simulation tick the evaluator accepts, in milliseconds.
pub const MAX_TICK_MS: u64 = 60_000;

/// The largest angular speed magnitude the evaluator accepts, in
/// millidegrees per second (several thousand turns per second, far beyond
/// anything the physics engine produces).
pub const MAX_ANGVEL_MDEG_PER_SEC: i64 = 1_000_000_000;

/// The largest rotation change a single tick can carry, in millidegrees.
pub const MAX_TICK_ROTATION_MDEG: i64 = 60_000_000_000_000;

/// The trick scored when the vehicle lands with at least one flip
/// accumulated. Two tricks are the same when all three fields agree; the
/// comparison against the previously scored trick decides the novelty
/// bonus.
#[derive(Clone, Copy, Debug, PartialEq, Eq, Structural)]
pub struct Trick {
    /// Whole forward flips (nose-down rotation).
    pub front_flips: u32,
    /// Whole backward flips (nose-up rotation).
    pub back_flips: u32,
    /// True when the vehicle travelled net backward (relative to its
    /// nominal forward direction) between launch and landing.
    pub fakie: bool,
}

impl Default for Trick {
    /// The null trick: no flips, not a fakie.
    fn default() -> (r: Self)
        ensures
            r == (Trick { front_flips: 0u32, back_flips: 0u32, fakie: false }),
    {
        Trick { front_flips: 0, back_flips: 0, fakie: false }
    }
}

/// The in-flight accumulator for the trick being performed.
#[derive(Clone, Copy, Debug, PartialEq, Eq, Structural)]
pub struct TrickStatus {
    /// Accumulated signed rotation since launch, in millidegrees; whole
    /// turns are carried out into the flip counters as they happen, so the
    /// residual never exceeds one full turn in magnitude.
    pub rotation_mdeg: i64,
    /// Whole forward flips accumulated in flight.
    pub front_flips: u32,
    /// Whole backward flips accumulated in flight.
    pub back_flips: u32,
    /// Horizontal position at launch, in milli-units; landing compares
    /// against it to classify a fakie.
    pub start_x_mm: i64,
    /// Time spent airborne, in milliseconds.
    pub hang_time_ms: u64,
}

impl Default for TrickStatus {
    /// A vehicle that has performed nothing yet.
    fn default() -> (r: Self)
        ensures
            r == (TrickStatus {
                rotation_mdeg: 0i64,
                front_flips: 0u32,
                back_flips: 0u32,
                start_x_mm: 0i64,
                hang_time_ms: 0u64,
            }),
    {
        TrickStatus {
            rotation_mdeg: 0,
            front_flips: 0,
            back_flips: 0,
            start_x_mm: 0,
            hang_time_ms: 0,
        }
    }
}

/// The magnitude of a rotation value.
pub open spec fn abs_mdeg(r: int) -> int {
    if r >= 0 {
        r
    } else {
        -r
    }
}

/// The residual angle after repeatedly carrying whole turns out of `r`,
/// always within one full turn of zero.
pub open spec fn reduced_rotation(r: int) -> int
    decreases abs_mdeg(r),
{
    if r > FULL_TURN_MDEG {
        reduced_rotation(r - FULL_TURN_MDEG)
    } else if r < -FULL_TURN_MDEG {
        reduced_rotation(r + FULL_TURN_MDEG)
    } else {
        r
    }
}

/// How many whole backward turns carry out of `r`.
pub open spec fn back_flip_gain(r: int) -> int
    decreases abs_mdeg(r),
{
    if r > FULL_TURN_MDEG {
        1 + back_flip_gain(r - FULL_TURN_MDEG)
    } else {
        0
    }
}

/// How many whole forward turns carry out of `r`.
pub open spec fn front_flip_gain(r: int) -> int
    decreases abs_mdeg(r),
{
    if r < -FULL_TURN_MDEG {
        1 + front_flip_gain(r + FULL_TURN_MDEG)
    } else {
        0
    }
}

/// The residual always lies within one full turn of zero, and the carried
/// turn counts are never negative.
pub proof fn lemma_reduction_bounds(r: int)
    ensures
        -FULL_TURN_MDEG <= reduced_rotation(r) <= FULL_TURN_MDEG,
        back_flip_gain(r) >= 0,
        front_flip_gain(r) >= 0,
    decreases abs_mdeg(r),
{
    if r > FULL_TURN_MDEG {
        lemma_reduction_bounds(r - FULL_TURN_MDEG);
    } else if r < -FULL_TURN_MDEG {
        lemma_reduction_bounds(r + FULL_TURN_MDEG);
    }
}

/// A flip-counter bump that sticks at the counter's ceiling instead of
/// wrapping; `gain` is never negative.
pub open spec fn sat_add_flips(c: u32, gain: int) -> u32 {
    if c + gain > u32::MAX {
        u32::MAX
    } else {
        (c + gain) as u32
    }
}

/// The rotation a tick carries, in millidegrees: angular speed times the
/// tick length, with the millisecond scale divided back out, rounding
/// toward zero.
pub open spec fn rotation_delta_spec(angvel_mdeg_per_sec: i64, dt_ms: u64) -> int {
    if angvel_mdeg_per_sec >= 0 {
        (angvel_mdeg_per_sec * dt_ms) / 1000
    } else {
        -((-angvel_mdeg_per_sec * dt_ms) / 1000)
    }
}

/// Integrate angular speed over one tick.
pub fn rotation_delta_mdeg(angvel_mdeg_per_sec: i64, dt_ms: u64) -> (r: i64)
    requires
        -MAX_ANGVEL_MDEG_PER_SEC <= angvel_mdeg_per_sec <= MAX_ANGVEL_MDEG_PER_SEC,
        dt_ms <= MAX_TICK_MS,
    ensures
        r == rotation_delta_spec(angvel_mdeg_per_sec, dt_ms),
        -MAX_TICK_ROTATION_MDEG <= r <= MAX_TICK_ROTATION_MDEG,
{
    proof {
        assert(angvel_mdeg_per_sec >= 0 ==> angvel_mdeg_per_sec * dt_ms
            <= MAX_ANGVEL_MDEG_PER_SEC * MAX_TICK_MS) by (nonlinear_arith)
            requires
                -MAX_ANGVEL_MDEG_PER_SEC <= angvel_mdeg_per_sec <= MAX_ANGVEL_MDEG_PER_SEC,
                dt_ms <= MAX_TICK_MS,
        ;
        assert(angvel_mdeg_per_sec < 0 ==> (-angvel_mdeg_per_sec) * dt_ms
            <= MAX_ANGVEL_MDEG_PER_SEC * MAX_TICK_MS) by (nonlinear_arith)
            requires
                -MAX_ANGVEL_MDEG_PER_SEC <= angvel_mdeg_per_sec <= MAX_ANGVEL_MDEG_PER_SEC,
                dt_ms <= MAX_TICK_MS,
        ;
        assert(angvel_mdeg_per_sec >= 0 ==> angvel_mdeg_per_sec * dt_ms >= 0) by (nonlinear_arith);
        assert(angvel_mdeg_per_sec < 0 ==> (-angvel_mdeg_per_sec) * dt_ms >= 0) by (nonlinear_arith);
    }
    if angvel_mdeg_per_sec >= 0 {
        let product: u64 = (angvel_mdeg_per_sec as u64) * dt_ms;
        (product / 1000) as i64
    } else {
        let magnitude: i64 = -angvel_mdeg_per_sec;
        let product: u64 = (magnitude as u64) * dt_ms;
        -((product / 1000) as i64)
    }
}

impl TrickStatus {
    /// The accumulator is well formed when its residual rotation lies
    /// within one full turn of zero; every step keeps it so.
    pub open spec fn wf(self) -> bool {
        -FULL_TURN_MDEG <= self.rotation_mdeg <= FULL_TURN_MDEG
    }

    /// The accumulator after being cleared: rotation, flip counts and hang
    /// time are zeroed; the launch position is left alone.
    pub open spec fn reset_spec(self) -> TrickStatus {
        TrickStatus {
            rotation_mdeg: 0i64,
            front_flips: 0u32,
            back_flips: 0u32,
            hang_time_ms: 0u64,
            ..self
        }
    }

    /// Clear the accumulator (on a bonk, or after a landing is scored).
    pub fn reset(&mut self)
        ensures
            *final(self) == old(self).reset_spec(),
    {
        self.rotation_mdeg = 0;
        self.front_flips = 0;
        self.back_flips = 0;
        self.hang_time_ms = 0;
    }

    /// One airborne tick: on the tick flight begins the launch position is
    /// recorded and hang time cleared; then the tick's rotation is added
    /// and every whole turn is carried out into the matching flip counter,
    /// leaving the residual within one full turn.
    pub open spec fn airborne_spec(
        self,
        just_launched: bool,
        x_mm: i64,
        delta_mdeg: int,
        dt_ms: u64,
    ) -> TrickStatus {
        let st = if just_launched {
            TrickStatus { start_x_mm: x_mm, hang_time_ms: 0u64, ..self }
        } else {
            self
        };
        let r = st.rotation_mdeg + delta_mdeg;
        TrickStatus {
            rotation_mdeg: reduced_rotation(r) as i64,
            front_flips: sat_add_flips(st.front_flips, front_flip_gain(r)),
            back_flips: sat_add_flips(st.back_flips, back_flip_gain(r)),
            start_x_mm: st.start_x_mm,
            hang_time_ms: sat_add_u64(st.hang_time_ms, dt_ms),
        }
    }

    /// The generous landing rule: a residual beyond the configured
    /// threshold (well short of a full turn, to forgive launches from
    /// angled ramps) counts as one more whole flip in its direction.
    pub open spec fn generous_spec(self, cfg: VehicleConfig) -> TrickStatus {
        if self.rotation_mdeg > cfg.generous_flip_mdeg {
            TrickStatus { back_flips: sat_add_flips(self.back_flips, 1), ..self }
        } else if self.rotation_mdeg < -cfg.generous_flip_mdeg {
            TrickStatus { front_flips: sat_add_flips(self.front_flips, 1), ..self }
        } else {
            self
        }
    }

    /// All flips accumulated, in both directions.
    pub open spec fn total_flips(self) -> int {
        self.front_flips + self.back_flips
    }

    /// The trick this accumulator scores when landing at `x_mm`: the flip
    /// counts as they stand, and a fakie exactly when the net travel since
    /// launch ran against the configured forward direction.
    pub open spec fn landed_trick_spec(self, x_mm: i64, cfg: VehicleConfig) -> Trick {
        Trick {
            front_flips: self.front_flips,
            back_flips: self.back_flips,
            fakie: if cfg.forward_is_positive_x {
                x_mm < self.start_x_mm
            } else {
                x_mm > self.start_x_mm
            },
        }
    }
}

/// One tick of the trick evaluator, as a value: the new accumulator, the
/// new last-scored trick, the new boost pool, and the trick scored this
/// tick, if any.
///
/// A set bonk flag clears the accumulator before anything else. While
/// airborne (`wheels_now == 0`) the tick's rotation is integrated. On the
/// regrounding tick (`wheels_prev == 0 < wheels_now`) the generous rule is
/// applied; if any flips stand, the trick is scored: a boost of
/// `boost_duration_spec` milliseconds — longer when the trick differs from
/// the previous one — is added onto the pool, and the trick becomes the new
/// novelty reference. The accumulator is cleared after every landing.
pub open spec fn trick_step_spec(
    st0: TrickStatus,
    last0: Trick,
    boost0: Boost,
    cfg: VehicleConfig,
    dt_ms: u64,
    angvel_mdeg_per_sec: i64,
    x_mm: i64,
    wheels_now: u8,
    wheels_prev: u8,
    bonk: bool,
) -> (TrickStatus, Trick, Boost, Option<Trick>) {
    let st = if bonk {
        st0.reset_spec()
    } else {
        st0
    };
    if wheels_now == 0 {
        (
            st.airborne_spec(
                wheels_prev != 0,
                x_mm,
                rotation_delta_spec(angvel_mdeg_per_sec, dt_ms),
                dt_ms,
            ),
            last0,
            boost0,
            None,
        )
    } else if wheels_prev == 0 {
        let stg = st.generous_spec(cfg);
        if stg.total_flips() > 0 {
            let trick = stg.landed_trick_spec(x_mm, cfg);
            let fresh = trick != last0;
            let duration = boost_duration_spec(stg.total_flips(), fresh) as u64;
            (stg.reset_spec(), trick, boost0.grant_spec(duration), Some(trick))
        } else {
            (stg.reset_spec(), last0, boost0, None)
        }
    } else {
        (st, last0, boost0, None)
    }
}

/// Run one tick of the trick evaluator against the live vehicle state.
///
/// `wheels_prev` is the wheel-contact count the previous tick ended with;
/// comparing it with `wheels_now` detects launch and landing edges. The
/// returned trick, when present, was scored this tick and owes the
/// presentation layer its announcement text and sound.
pub fn track_trick_step(
    status: &mut TrickStatus,
    last_trick: &mut Trick,
    boost: &mut Boost,
    cfg: &VehicleConfig,
    dt_ms: u64,
    angvel_mdeg_per_sec: i64,
    x_mm: i64,
    wheels_now: u8,
    wheels_prev: u8,
    bonk: bool,
) -> (landed: Option<Trick>)
    requires
        old(status).wf(),
        cfg.wf(),
        dt_ms <= MAX_TICK_MS,
        -MAX_ANGVEL_MDEG_PER_SEC <= angvel_mdeg_per_sec <= MAX_ANGVEL_MDEG_PER_SEC,
    ensures
        ({
            let (st, lt, b, out) = trick_step_spec(
                *old(status),
                *old(last_trick),
                *old(boost),
                *cfg,
                dt_ms,
                angvel_mdeg_per_sec,
                x_mm,
                wheels_now,
                wheels_prev,
                bonk,
            );
            &&& *final(status) == st
            &&& *final(last_trick) == lt
            &&& *final(boost) == b
            &&& landed == out
        }),
        final(status).wf(),
{
    if bonk {
        status.reset();
    }
    if wheels_now == 0 {
        if wheels_prev != 0 {
            status.start_x_mm = x_mm;
            status.hang_time_ms = 0;
        }
        let delta = rotation_delta_mdeg(angvel_mdeg_per_sec, dt_ms);
        let ghost r1: int = status.rotation_mdeg + delta;
        proof {
            lemma_reduction_bounds(r1);
        }
        status.rotation_mdeg = status.rotation_mdeg + delta;
        status.hang_time_ms = status.hang_time_ms.saturating_add(dt_ms);
        let ghost st1 = *status;
        while status.rotation_mdeg > FULL_TURN_MDEG
            invariant
                st1.rotation_mdeg == r1,
                -FULL_TURN_MDEG - MAX_TICK_ROTATION_MDEG <= status.rotation_mdeg <= r1,
                reduced_rotation(status.rotation_mdeg as int) == reduced_rotation(r1),
                back_flip_gain(r1) - back_flip_gain(status.rotation_mdeg as int) >= 0,
                status.back_flips == sat_add_flips(
                    st1.back_flips,
                    back_flip_gain(r1) - back_flip_gain(status.rotation_mdeg as int),
                ),
                front_flip_gain(status.rotation_mdeg as int) == front_flip_gain(r1),
                status.front_flips == st1.front_flips,
                status.start_x_mm == st1.start_x_mm,
                status.hang_time_ms == st1.hang_time_ms,
            decreases status.rotation_mdeg,
        {
            status.back_flips = status.back_flips.saturating_add(1);
            status.rotation_mdeg = status.rotation_mdeg - FULL_TURN_MDEG;
        }
        let ghost mid_back = status.back_flips;
        let ghost r2: int = status.rotation_mdeg as int;
        while status.rotation_mdeg < -FULL_TURN_MDEG
            invariant
                r2 <= status.rotation_mdeg <= FULL_TURN_MDEG,
                reduced_rotation(status.rotation_mdeg as int) == reduced_rotation(r2),
                front_flip_gain(r2) - front_flip_gain(status.rotation_mdeg as int) >= 0,
                status.front_flips == sat_add_flips(
                    st1.front_flips,
                    front_flip_gain(r2) - front_flip_gain(status.rotation_mdeg as int),
                ),
                back_flip_gain(status.rotation_mdeg as int) == back_flip_gain(r2),
                status.back_flips == mid_back,
                status.start_x_mm == st1.start_x_mm,
                status.hang_time_ms == st1.hang_time_ms,
            decreases -status.rotation_mdeg,
        {
            status.front_flips = status.front_flips.saturating_add(1);
            status.rotation_mdeg = status.rotation_mdeg + FULL_TURN_MDEG;
        }
        proof {
            assert(back_flip_gain(r2) == 0);
            assert(front_flip_gain(status.rotation_mdeg as int) == 0);
            assert(reduced_rotation(status.rotation_mdeg as int) == status.rotation_mdeg as int);
        }
        None
    } else if wheels_prev == 0 {
        if status.rotation_mdeg > cfg.generous_flip_mdeg {
            status.back_flips = status.back_flips.saturating_add(1);
        } else if status.rotation_mdeg < -cfg.generous_flip_mdeg {
            status.front_flips = status.front_flips.saturating_add(1);
        }
        let total: u64 = status.front_flips as u64 + status.back_flips as u64;
        let mut landed: Option<Trick> = None;
        if total > 0 {
            let fakie = if cfg.forward_is_positive_x {
                x_mm < status.start_x_mm
            } else {
                x_mm > status.start_x_mm
            };
            let trick = Trick {
                front_flips: status.front_flips,
                back_flips: status.back_flips,
                fakie,
            };
            let fresh = trick != *last_trick;
            let duration = boost_duration_ms(total, fresh);
            boost.grant(duration);
            *last_trick = trick;
            landed = Some(trick);
        }
        status.reset();
        landed
    } else {
        None
    }
}

/// The novelty bonus: a landing that scores flips grants boost for
/// exactly `boost_duration_spec` milliseconds — the base grant, one
/// second per flip beyond the first, and one extra second exactly when
/// the scored trick differs from the previously scored one — added onto
/// whatever boost was already running.
pub proof fn lemma_novelty_bonus(
    st0: TrickStatus,
    last0: Trick,
    boost0: Boost,
    cfg: VehicleConfig,
    dt_ms: u64,
    angvel_mdeg_per_sec: i64,
    x_mm: i64,
    wheels_now: u8,
)
    requires
        wheels_now > 0,
        st0.generous_spec(cfg).total_flips() > 0,
    ensures
        ({
            let stg = st0.generous_spec(cfg);
            let trick = stg.landed_trick_spec(x_mm, cfg);
            let r = trick_step_spec(
                st0,
                last0,
                boost0,
                cfg,
                dt_ms,
                angvel_mdeg_per_sec,
                x_mm,
                wheels_now,
                0,
                false,
            );
            &&& r.2 == boost0.grant_spec(
                boost_duration_spec(stg.total_flips(), trick != last0) as u64,
            )
            &&& trick == last0 ==> boost_duration_spec(stg.total_flips(), trick != last0)
                == BASE_BOOST_MS + (stg.total_flips() - 1) * FLIP_BOOST_MS
            &&& trick != last0 ==> boost_duration_spec(stg.total_flips(), trick != last0)
                == BASE_BOOST_MS + (stg.total_flips() - 1) * FLIP_BOOST_MS + FRESH_BOOST_MS
        }),
{
}

/// A bonk cancels in-progress trick credit: with the bonk flag set, a tick
/// of the evaluator behaves exactly as if the accumulator had already been
/// cleared, whatever the flight state.
pub proof fn lemma_bonk_resets_accumulator(
    st0: TrickStatus,
    last0: Trick,
    boost0: Boost,
    cfg: VehicleConfig,
    dt_ms: u64,
    angvel_mdeg_per_sec: i64,
    x_mm: i64,
    wheels_now: u8,
    wheels_prev: u8,
)
    ensures
        trick_step_spec(
            st0,
            last0,
            boost0,
            cfg,
            dt_ms,
            angvel_mdeg_per_sec,
            x_mm,
            wheels_now,
            wheels_prev,
            true,
        ) == trick_step_spec(
            st0.reset_spec(),
            last0,
            boost0,
            cfg,
            dt_ms,
            angvel_mdeg_per_sec,
            x_mm,
            wheels_now,
            wheels_prev,
            false,
        ),
{
}

} // verus!
