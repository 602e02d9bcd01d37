//! The boost state machine: scored tricks raise the vehicle's speed limit
//! for a while, and the grant decays back to baseline over time.
use vstd::prelude::*;

use crate::sat_add_u64;

verus! {

/// The speed limit while no boost is active, in milli-units per second.
pub const BASE_SPEED_LIMIT: u32 = 20_000;
/// The speed limit while a boost is active, in milli-units per second.
pub const BOOST_SPEED_LIMIT: u32 = 30_000;
/// Boost granted for any scored trick, in milliseconds.
pub const BASE_BOOST_MS: u64 = 2_000;
/// Additional boost for each flip beyond the first, in milliseconds.
pub const FLIP_BOOST_MS: u64 = 1_000;
/// Additional boost for a trick that differs from the previous one, in
/// milliseconds.
pub const FRESH_BOOST_MS: u64 = 1_000;

/// Remaining boost time, in milliseconds. Zero means no boost is active and
/// the speed limit sits at its baseline.
#[derive(Clone, Copy, Debug, PartialEq, Eq, Structural)]
pub struct Boost {
    pub remaining_ms: u64,
}

impl Default for Boost {
    /// No boost.
    fn default() -> (r: Self)
        ensures
            r.remaining_ms == 0,
    {
        Boost { remaining_ms: 0 }
    }
}

/// How long a scored trick boosts, in milliseconds: a base grant, one more
/// second per flip beyond the first, and one more second when the trick
/// differs from the previous one.
pub open spec fn boost_duration_spec(flips: int, fresh: bool) -> int {
    BASE_BOOST_MS + (flips - 1) * FLIP_BOOST_MS + if fresh {
        FRESH_BOOST_MS as int
    } else {
        0
    }
}

/// Compute the boost duration granted for a trick of `flips` total flips;
/// `fresh` says whether the trick differs from the previous one.
pub fn boost_duration_ms(flips: u64, fresh: bool) -> (r: u64)
    requires
        1 <= flips <= 0x2_0000_0000u64,
    ensures
        r == boost_duration_spec(flips as int, fresh),
{
    BASE_BOOST_MS + (flips - 1) * FLIP_BOOST_MS + if fresh {
        FRESH_BOOST_MS
    } else {
        0
    }
}

/// Whether the boost pool and the speed limit agree: the limit sits at its
/// baseline exactly when no boost time remains.
pub open spec fn boost_consistent(b: Boost, speed_limit: u32) -> bool {
    &&& b.remaining_ms == 0 <==> speed_limit == BASE_SPEED_LIMIT
    &&& b.remaining_ms > 0 ==> speed_limit == BOOST_SPEED_LIMIT
}

impl Boost {
    /// The pool after a trick lands: the grant is added onto whatever boost
    /// time is still running, never replacing it.
    pub open spec fn grant_spec(self, duration_ms: u64) -> Boost {
        Boost { remaining_ms: sat_add_u64(self.remaining_ms, duration_ms) }
    }

    /// Add a landed trick's boost duration to the pool. Overlapping grants
    /// stack: the new duration is added to the time still remaining.
    pub fn grant(&mut self, duration_ms: u64)
        ensures
            *final(self) == old(self).grant_spec(duration_ms),
    {
        self.remaining_ms = self.remaining_ms.saturating_add(duration_ms);
    }

    /// The pool and the speed limit after one tick of `dt_ms` milliseconds:
    /// with no boost running both are untouched; otherwise a baseline limit
    /// is raised to the boosted value, the pool decays by `dt_ms` clamped at
    /// zero, and on reaching zero the limit falls back to the baseline.
    pub open spec fn tick_spec(self, speed_limit: u32, dt_ms: u64) -> (Boost, u32) {
        if self.remaining_ms == 0 {
            (self, speed_limit)
        } else {
            let raised = if speed_limit == BASE_SPEED_LIMIT {
                BOOST_SPEED_LIMIT
            } else {
                speed_limit
            };
            let rem = if self.remaining_ms >= dt_ms {
                (self.remaining_ms - dt_ms) as u64
            } else {
                0u64
            };
            if rem == 0 {
                (Boost { remaining_ms: 0 }, BASE_SPEED_LIMIT)
            } else {
                (Boost { remaining_ms: rem }, raised)
            }
        }
    }

    /// Decay the pool by one tick and keep the speed limit in step with it.
    pub fn tick(&mut self, speed_limit: &mut u32, dt_ms: u64)
        ensures
            (*final(self), *final(speed_limit)) == old(self).tick_spec(*old(speed_limit), dt_ms),
            *old(speed_limit) == BASE_SPEED_LIMIT || boost_consistent(*old(self), *old(speed_limit))
                ==> boost_consistent(*final(self), *final(speed_limit)),
    {
        if self.remaining_ms == 0 {
            return ;
        }
        if *speed_limit == BASE_SPEED_LIMIT {
            *speed_limit = BOOST_SPEED_LIMIT;
        }
        self.remaining_ms = self.remaining_ms.saturating_sub(dt_ms);
        if self.remaining_ms == 0 {
            *speed_limit = BASE_SPEED_LIMIT;
        }
    }
}

/// Overlapping boosts stack additively: a grant of `first_ms`, a partial
/// decay of `decay_ms`, and a second grant of `second_ms` leave exactly
/// `first_ms - decay_ms + second_ms` in the pool, provided the first grant
/// had not yet run out and the sums stay within the counter.
pub proof fn lemma_boost_stacking(b: Boost, limit: u32, first_ms: u64, decay_ms: u64, second_ms: u64)
    requires
        b.remaining_ms == 0,
        0 < decay_ms < first_ms,
        first_ms + second_ms <= u64::MAX,
    ensures
        b.grant_spec(first_ms).tick_spec(limit, decay_ms).0.grant_spec(second_ms).remaining_ms
            == first_ms - decay_ms + second_ms,
{
}

} // verus!
