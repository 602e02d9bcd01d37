//! The contact tracker: per-vehicle ground-contact counts derived from the
//! physics engine's collision start/stop events, and the bonk classifier
//! that tells body-vs-track impacts apart from wheel landings.
use vstd::prelude::*;

use crate::config::VehicleConfig;

verus! {

/// One collision start or stop reported by the physics engine, reduced to
/// the roles of the two colliding entities. A flag is set when either
/// participant carries that role.
#[derive(Clone, Copy, Debug, PartialEq, Eq, Structural)]
pub struct CollisionEvent {
    /// True for a contact that just began, false for one that just ended.
    pub started: bool,
    /// A primary wheel collider is involved.
    pub wheel: bool,
    /// A jump-sensor collider (the slightly larger wheel volume that gates
    /// jumping) is involved.
    pub jump_wheel: bool,
    /// The vehicle body is involved.
    pub body: bool,
    /// The track surface is involved.
    pub track: bool,
    /// The finish-line sensor is involved.
    pub finish_line: bool,
}

impl CollisionEvent {
    /// A started wheel-on-track contact.
    pub open spec fn is_wheel_ground_start(self) -> bool {
        self.started && self.wheel && self.track
    }

    /// An ended wheel-on-track contact.
    pub open spec fn is_wheel_ground_stop(self) -> bool {
        !self.started && self.wheel && self.track
    }

    /// A finish-line crossing: the body or a wheel begins touching the
    /// finish-line sensor.
    pub open spec fn is_finish_contact(self) -> bool {
        self.started && (self.body || self.wheel) && self.finish_line
    }
}

/// A counter increment that sticks at the counter's ceiling instead of
/// wrapping.
pub open spec fn inc_sat(c: u8) -> u8 {
    if c == u8::MAX {
        c
    } else {
        (c + 1) as u8
    }
}

/// A counter decrement that sticks at zero: a stop event without a matching
/// prior start (a despawn mid-contact, a lost event) must not wrap the
/// counter around.
pub open spec fn dec_sat(c: u8) -> u8 {
    if c == 0 {
        0u8
    } else {
        (c - 1) as u8
    }
}

/// Per-vehicle ground-contact state.
#[derive(Clone, Copy, Debug, PartialEq, Eq, Structural)]
pub struct ContactState {
    /// How many primary wheels currently touch the track.
    pub wheels_on_ground: u8,
    /// How many jump sensors currently touch the track.
    pub jump_wheels_on_ground: u8,
    /// True after a body-vs-track impact, until the wheels fully re-ground.
    pub bonk: bool,
    /// True while jumping is blocked; cleared when the jump sensors fully
    /// ground.
    pub jump_cooldown: bool,
}

impl Default for ContactState {
    /// A freshly spawned vehicle: nothing touches the ground yet, no bonk,
    /// and jumping blocked until the jump sensors ground.
    fn default() -> (r: Self)
        ensures
            r == (ContactState {
                wheels_on_ground: 0u8,
                jump_wheels_on_ground: 0u8,
                bonk: false,
                jump_cooldown: true,
            }),
    {
        ContactState {
            wheels_on_ground: 0,
            jump_wheels_on_ground: 0,
            bonk: false,
            jump_cooldown: true,
        }
    }
}

impl ContactState {
    /// The state after the grounding branches of a start event (jump sensor
    /// on track, then wheel on track), before the bonk branch is considered.
    /// A counter that reaches exactly `cfg.grounded_wheels` clears the
    /// matching flag: the jump cooldown for the jump sensors, a pending bonk
    /// for the wheels.
    pub open spec fn ground_start_spec(self, ev: CollisionEvent, cfg: VehicleConfig) -> ContactState {
        let s1 = if ev.jump_wheel && ev.track {
            let j = inc_sat(self.jump_wheels_on_ground);
            ContactState {
                jump_wheels_on_ground: j,
                jump_cooldown: self.jump_cooldown && j != cfg.grounded_wheels,
                ..self
            }
        } else {
            self
        };
        if ev.wheel && ev.track {
            let w = inc_sat(s1.wheels_on_ground);
            ContactState { wheels_on_ground: w, bonk: s1.bonk && w != cfg.grounded_wheels, ..s1 }
        } else {
            s1
        }
    }

    /// Whether this event sets the bonk flag: the body begins touching the
    /// track while no bonk is already pending once any wheel grounding the
    /// same event carries has been applied.
    pub open spec fn bonk_starts(self, ev: CollisionEvent, cfg: VehicleConfig) -> bool {
        ev.started && ev.body && ev.track && !self.ground_start_spec(ev, cfg).bonk
    }

    /// The state after one collision event, with `cfg.grounded_wheels` as
    /// the fully-grounded contact count. On a start: the grounding branches
    /// run first, then a body-on-track contact sets the bonk flag. On a
    /// stop: the matching counter drops, saturating at zero.
    pub open spec fn step_spec(self, ev: CollisionEvent, cfg: VehicleConfig) -> ContactState {
        if ev.started {
            let s2 = self.ground_start_spec(ev, cfg);
            if ev.body && ev.track {
                ContactState { bonk: true, ..s2 }
            } else {
                s2
            }
        } else {
            let s1 = if ev.wheel && ev.track {
                ContactState { wheels_on_ground: dec_sat(self.wheels_on_ground), ..self }
            } else {
                self
            };
            if ev.jump_wheel && ev.track {
                ContactState { jump_wheels_on_ground: dec_sat(s1.jump_wheels_on_ground), ..s1 }
            } else {
                s1
            }
        }
    }

    /// Apply one collision event to the contact counters, and report what
    /// else the event did: whether it set the bonk flag (the caller owes a
    /// "BONK!" notice) and whether it was a finish-line crossing (the caller
    /// owes the race clock a pause and the one-shot finish signal).
    pub fn apply(&mut self, ev: &CollisionEvent, cfg: &VehicleConfig) -> (r: ContactOutcome)
        ensures
            *final(self) == old(self).step_spec(*ev, *cfg),
            r.bonk_started == old(self).bonk_starts(*ev, *cfg),
            r.finish_contact == ev.is_finish_contact(),
    {
        let mut bonk_started = false;
        let mut finish_contact = false;
        if ev.started {
            if ev.jump_wheel && ev.track {
                self.jump_wheels_on_ground = self.jump_wheels_on_ground.saturating_add(1);
                if self.jump_wheels_on_ground == cfg.grounded_wheels {
                    self.jump_cooldown = false;
                }
            }
            if ev.wheel && ev.track {
                self.wheels_on_ground = self.wheels_on_ground.saturating_add(1);
                if self.wheels_on_ground == cfg.grounded_wheels {
                    if self.bonk {
                        self.bonk = false;
                    }
                }
            }
            if (ev.body || ev.wheel) && ev.finish_line {
                finish_contact = true;
            }
            if ev.body && ev.track {
                if !self.bonk {
                    self.bonk = true;
                    bonk_started = true;
                }
            }
        } else {
            if ev.wheel && ev.track {
                self.wheels_on_ground = self.wheels_on_ground.saturating_sub(1);
            }
            if ev.jump_wheel && ev.track {
                self.jump_wheels_on_ground = self.jump_wheels_on_ground.saturating_sub(1);
            }
        }
        ContactOutcome { bonk_started, finish_contact }
    }
}

/// What one collision event did besides moving the contact counters.
#[derive(Clone, Copy, Debug, PartialEq, Eq, Structural)]
pub struct ContactOutcome {
    /// The event set the bonk flag.
    pub bonk_started: bool,
    /// The event was a finish-line crossing.
    pub finish_contact: bool,
}

/// The contact state after a whole sequence of collision events, first
/// event first.
pub open spec fn apply_seq_spec(
    s: ContactState,
    evs: Seq<CollisionEvent>,
    cfg: VehicleConfig,
) -> ContactState
    decreases evs.len(),
{
    if evs.len() == 0 {
        s
    } else {
        apply_seq_spec(s.step_spec(evs[0], cfg), evs.drop_first(), cfg)
    }
}

/// The net wheel-ground contact change a sequence of events carries: one up
/// for each started wheel-on-track contact, one down for each ended one.
pub open spec fn wheel_ground_delta(evs: Seq<CollisionEvent>) -> int
    decreases evs.len(),
{
    if evs.len() == 0 {
        0
    } else {
        (if evs[0].is_wheel_ground_start() {
            1int
        } else if evs[0].is_wheel_ground_stop() {
            -1int
        } else {
            0int
        }) + wheel_ground_delta(evs.drop_first())
    }
}

/// The delta of a prefix one longer is the head's contribution plus the
/// delta of the tail's prefix.
proof fn lemma_delta_take_shift(evs: Seq<CollisionEvent>, j: int)
    requires
        evs.len() > 0,
        0 <= j <= evs.len() - 1,
    ensures
        wheel_ground_delta(evs.take(j + 1)) == (if evs[0].is_wheel_ground_start() {
            1int
        } else if evs[0].is_wheel_ground_stop() {
            -1int
        } else {
            0int
        }) + wheel_ground_delta(evs.drop_first().take(j)),
{
    assert(evs.take(j + 1).drop_first() =~= evs.drop_first().take(j));
    assert(evs.take(j + 1)[0] == evs[0]);
}

/// As long as no prefix of the event sequence would drive the wheel counter
/// below zero or beyond its ceiling, the counter tracks the running delta
/// exactly.
pub proof fn lemma_wheel_count_tracks_delta(
    s: ContactState,
    evs: Seq<CollisionEvent>,
    cfg: VehicleConfig,
)
    requires
        forall|i: int|
            0 <= i <= evs.len() ==> 0 <= s.wheels_on_ground + wheel_ground_delta(#[trigger] evs.take(i))
                <= u8::MAX,
    ensures
        apply_seq_spec(s, evs, cfg).wheels_on_ground == s.wheels_on_ground + wheel_ground_delta(evs),
    decreases evs.len(),
{
    if evs.len() == 0 {
    } else {
        let ev = evs[0];
        let s1 = s.step_spec(ev, cfg);
        let rest = evs.drop_first();
        let c: int = if ev.is_wheel_ground_start() {
            1
        } else if ev.is_wheel_ground_stop() {
            -1
        } else {
            0
        };
        assert(wheel_ground_delta(evs.take(1)) == c) by {
            assert(evs.take(1).drop_first() =~= Seq::<CollisionEvent>::empty());
            assert(wheel_ground_delta(Seq::<CollisionEvent>::empty()) == 0);
            assert(evs.take(1)[0] == ev);
        }
        assert(evs.take(0) =~= Seq::<CollisionEvent>::empty());
        assert(s1.wheels_on_ground == s.wheels_on_ground + c);
        assert forall|j: int| 0 <= j <= rest.len() implies 0 <= s1.wheels_on_ground
            + wheel_ground_delta(#[trigger] rest.take(j)) <= u8::MAX by {
            lemma_delta_take_shift(evs, j);
            assert(0 <= s.wheels_on_ground + wheel_ground_delta(evs.take(j + 1)) <= u8::MAX);
        }
        lemma_wheel_count_tracks_delta(s1, rest, cfg);
        lemma_delta_take_shift(evs, rest.len() as int);
        assert(evs.take(evs.len() as int) =~= evs);
        assert(rest.take(rest.len() as int) =~= rest);
    }
}

/// A balanced run of wheel-on-track start/stop events — every prefix has at
/// least as many starts as stops, the whole run has exactly as many — leaves
/// the wheel counter where it began, and at no prefix does the counter fall
/// below its starting value or leave its range. The only further premise is
/// the machine limit that the counter never has to exceed its ceiling.
pub proof fn lemma_balanced_wheel_events_restore_count(
    s: ContactState,
    evs: Seq<CollisionEvent>,
    cfg: VehicleConfig,
)
    requires
        forall|i: int| 0 <= i <= evs.len() ==> wheel_ground_delta(#[trigger] evs.take(i)) >= 0,
        wheel_ground_delta(evs) == 0,
        forall|i: int|
            0 <= i <= evs.len() ==> s.wheels_on_ground + wheel_ground_delta(#[trigger] evs.take(i))
                <= u8::MAX,
    ensures
        apply_seq_spec(s, evs, cfg).wheels_on_ground == s.wheels_on_ground,
        forall|i: int|
            0 <= i <= evs.len() ==> apply_seq_spec(s, #[trigger] evs.take(i), cfg).wheels_on_ground
                == s.wheels_on_ground + wheel_ground_delta(evs.take(i)) >= s.wheels_on_ground,
{
    assert forall|i: int| 0 <= i <= evs.len() implies apply_seq_spec(
        s,
        #[trigger] evs.take(i),
        cfg,
    ).wheels_on_ground == s.wheels_on_ground + wheel_ground_delta(evs.take(i))
        >= s.wheels_on_ground by {
        assert forall|j: int| 0 <= j <= evs.take(i).len() implies 0 <= s.wheels_on_ground
            + wheel_ground_delta(#[trigger] evs.take(i).take(j)) <= u8::MAX by {
            assert(evs.take(i).take(j) =~= evs.take(j));
        }
        lemma_wheel_count_tracks_delta(s, evs.take(i), cfg);
    }
    assert(evs.take(evs.len() as int) =~= evs);
}

} // verus!
