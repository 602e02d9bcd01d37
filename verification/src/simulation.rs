//! The simulation aggregate: one vehicle, the race clock, the countdown,
//! the zoom controller and the one-shot finish signal, advanced together
//! in a fixed order each tick — collisions before trick evaluation, trick
//! evaluation before boost decay — so every derived value a system reads
//! was produced earlier in the same tick.
use vstd::prelude::*;
use vstd::string::StringExecFns;

use crate::boost::Boost;
use crate::config::VehicleConfig;
use crate::contact::{CollisionEvent, ContactState};
use crate::countdown::CountdownTimer;
use crate::race::{GameState, RaceTime};
use crate::trick::{
    track_trick_step, trick_step_spec, Trick, TrickStatus, MAX_ANGVEL_MDEG_PER_SEC, MAX_TICK_MS,
};
use crate::trick_text::{get_trick_text, trick_text_spec};
use crate::zoom::Zoom;

verus! {

/// The vertical position below which the vehicle counts as fallen off the
/// track, in milli-units.
pub const LAVA_Y_MM: i64 = -200_000;

/// Everything the simulation tracks about the player's vehicle.
#[derive(Clone, Copy, Debug)]
pub struct Vehicle {
    /// Ground contacts, bonk flag and jump cooldown.
    pub contacts: ContactState,
    /// The wheel-contact count the previous tick's trick evaluation saw;
    /// comparing it against the current count detects launches and
    /// landings.
    pub wheels_prev: u8,
    /// The in-flight trick accumulator.
    pub trick: TrickStatus,
    /// The most recently scored trick, the reference for the novelty
    /// bonus.
    pub last_trick: Trick,
    /// Remaining boost time.
    pub boost: Boost,
    /// The current speed cap, in milli-units per second; baseline unless
    /// boosted.
    pub speed_limit: u32,
}

impl Default for Vehicle {
    /// A freshly spawned vehicle: no contacts, an empty accumulator, no
    /// boost, the baseline speed limit.
    fn default() -> (r: Self)
        ensures
            r == Vehicle::spawn_spec(),
    {
        Vehicle {
            contacts: ContactState::default(),
            wheels_prev: 0,
            trick: TrickStatus::default(),
            last_trick: Trick::default(),
            boost: Boost::default(),
            speed_limit: crate::boost::BASE_SPEED_LIMIT,
        }
    }
}

impl Vehicle {
    /// The state a vehicle spawns in.
    pub open spec fn spawn_spec() -> Vehicle {
        Vehicle {
            contacts: ContactState {
                wheels_on_ground: 0u8,
                jump_wheels_on_ground: 0u8,
                bonk: false,
                jump_cooldown: true,
            },
            wheels_prev: 0u8,
            trick: TrickStatus {
                rotation_mdeg: 0i64,
                front_flips: 0u32,
                back_flips: 0u32,
                start_x_mm: 0i64,
                hang_time_ms: 0u64,
            },
            last_trick: Trick { front_flips: 0u32, back_flips: 0u32, fakie: false },
            boost: Boost { remaining_ms: 0u64 },
            speed_limit: crate::boost::BASE_SPEED_LIMIT,
        }
    }

    /// The accumulator's residual rotation stays bounded.
    pub open spec fn wf(self) -> bool {
        self.trick.wf()
    }
}

/// The plain values one simulation tick reads from the engine and the
/// input layer.
#[derive(Clone, Copy, Debug)]
pub struct TickInput {
    /// Tick length, in milliseconds.
    pub dt_ms: u64,
    /// The vehicle's angular speed about the roll axis, in millidegrees
    /// per second, positive nose-up.
    pub angvel_mdeg_per_sec: i64,
    /// The vehicle's horizontal position, in milli-units.
    pub x_mm: i64,
    /// The vehicle's vertical position, in milli-units.
    pub y_mm: i64,
    /// The jump control was pressed this tick.
    pub jump_pressed: bool,
    /// The zoom toggle was pressed this tick.
    pub zoom_toggle_pressed: bool,
    /// The reset control was pressed this tick.
    pub reset_pressed: bool,
    /// A leaderboard service is configured; it decides which screen a
    /// finished race leads to.
    pub has_credentials: bool,
}

impl TickInput {
    /// Machine limits on one tick: its length and the angular speed
    /// magnitude stay within what the fixed-point arithmetic covers.
    pub open spec fn wf(self) -> bool {
        &&& self.dt_ms <= MAX_TICK_MS
        &&& -MAX_ANGVEL_MDEG_PER_SEC <= self.angvel_mdeg_per_sec <= MAX_ANGVEL_MDEG_PER_SEC
    }
}

/// What one simulation tick hands back to the engine and presentation
/// layers.
#[derive(Clone, Copy, Debug)]
pub struct TickOutput {
    /// The trick scored this tick, if the vehicle landed one; it owes the
    /// audio layer its announcement sound.
    pub landed_trick: Option<Trick>,
    /// A jump fired this tick: the engine owes the vehicle its jump
    /// impulse.
    pub jump_fired: bool,
    /// The camera distance to apply, in milli-units, while a zoom glide
    /// runs.
    pub camera_z_mm: Option<i64>,
    /// A bonk happened this tick: the audio layer owes its impact sound.
    pub bonk_started: bool,
    /// The countdown ran out this tick and the race clock just started.
    pub race_started: bool,
    /// The one-shot finish signal, drained this tick: the screen flow owes
    /// a transition.
    pub finished: bool,
}

impl TickOutput {
    /// The output of a tick in which nothing ran.
    pub open spec fn idle_spec() -> TickOutput {
        TickOutput {
            landed_trick: None,
            jump_fired: false,
            camera_z_mm: None,
            bonk_started: false,
            race_started: false,
            finished: false,
        }
    }
}

/// The whole game world the core advances: the vehicle, the process-wide
/// clocks and the screen the game is on.
#[derive(Clone, Copy, Debug)]
pub struct Simulation {
    /// Per-vehicle tuning.
    pub config: VehicleConfig,
    /// The screen the game is on; the vehicle simulation runs only while
    /// `Playing`.
    pub state: GameState,
    pub vehicle: Vehicle,
    pub race_time: RaceTime,
    pub countdown: CountdownTimer,
    pub zoom: Zoom,
    /// The one-shot finish signal: set by a finish-line crossing, drained
    /// exactly once by `game_finished`. An explicit slot rather than a
    /// state-enter hook, because the crossing and the screen change happen
    /// in different processing phases.
    pub pending_finish: bool,
}

impl Simulation {
    /// All the component invariants at once.
    pub open spec fn wf(self) -> bool {
        &&& self.config.wf()
        &&& self.vehicle.wf()
        &&& self.countdown.wf()
        &&& self.zoom.wf()
    }

    /// A fresh world on the loading screen, the race clock paused at zero.
    pub fn new() -> (r: Self)
        ensures
            r.state == GameState::Loading,
            r.vehicle == Vehicle::spawn_spec(),
            r.race_time.elapsed_ms == 0,
            r.race_time.paused,
            r.countdown == (CountdownTimer { countdown_elapsed_ms: 0u64, go_elapsed_ms: 0u64 }),
            !r.pending_finish,
            r.config == (VehicleConfig {
                grounded_wheels: 2u8,
                generous_flip_mdeg: 260_000i64,
                forward_is_positive_x: true,
            }),
            r.zoom == (Zoom {
                from_mm: crate::zoom::ZOOM_NEAR_MM,
                target_mm: crate::zoom::ZOOM_FAR_MM,
                elapsed_ms: 0u64,
                paused: true,
            }),
            r.wf(),
    {
        Simulation {
            config: VehicleConfig::default(),
            state: GameState::Loading,
            vehicle: Vehicle::default(),
            race_time: RaceTime::default(),
            countdown: CountdownTimer::default(),
            zoom: Zoom::default(),
            pending_finish: false,
        }
    }

    /// The world after one collision event: the contact counters step, a
    /// finish-line crossing pauses the race clock and sets the one-shot
    /// finish signal.
    pub open spec fn collision_step_spec(self, ev: CollisionEvent) -> Simulation {
        let finish = ev.is_finish_contact();
        Simulation {
            vehicle: Vehicle {
                contacts: self.vehicle.contacts.step_spec(ev, self.config),
                ..self.vehicle
            },
            race_time: if finish {
                RaceTime { paused: true, ..self.race_time }
            } else {
                self.race_time
            },
            pending_finish: self.pending_finish || finish,
            ..self
        }
    }

    /// The world after a whole batch of collision events, first event
    /// first.
    pub open spec fn collision_seq_spec(self, evs: Seq<CollisionEvent>) -> Simulation
        decreases evs.len(),
    {
        if evs.len() == 0 {
            self
        } else {
            self.collision_step_spec(evs[0]).collision_seq_spec(evs.drop_first())
        }
    }

    /// Whether processing the batch sets the bonk notice: some event sets
    /// the bonk flag in the state the events before it produced.
    pub open spec fn seq_sets_bonk_text(self, evs: Seq<CollisionEvent>) -> bool
        decreases evs.len(),
    {
        if evs.len() == 0 {
            false
        } else {
            self.vehicle.contacts.bonk_starts(evs[0], self.config)
                || self.collision_step_spec(evs[0]).seq_sets_bonk_text(evs.drop_first())
        }
    }

    /// Process one tick's collision events: ground contacts, bonks and
    /// finish-line crossings. A bonk writes the "BONK!" notice into the
    /// trick text; the return says whether one happened, so the audio
    /// layer can play its impact sound.
    pub fn collision_events(
        &mut self,
        events: &Vec<CollisionEvent>,
        trick_text: &mut String,
    ) -> (bonked: bool)
        ensures
            *final(self) == old(self).collision_seq_spec(events@),
            bonked == old(self).seq_sets_bonk_text(events@),
            final(trick_text)@ == if old(self).seq_sets_bonk_text(events@) {
                "BONK!"@
            } else {
                old(trick_text)@
            },
    {
        let mut bonked = false;
        let mut i: usize = 0;
        while i < events.len()
            invariant
                0 <= i <= events@.len(),
                *self == old(self).collision_seq_spec(events@.take(i as int)),
                bonked == old(self).seq_sets_bonk_text(events@.take(i as int)),
                (*trick_text)@ == if old(self).seq_sets_bonk_text(events@.take(i as int)) {
                    "BONK!"@
                } else {
                    old(trick_text)@
                },
            decreases events@.len() - i,
        {
            proof {
                lemma_collision_take_snoc(*old(self), events@, i as int);
            }
            let ev = events[i];
            let outcome = self.vehicle.contacts.apply(&ev, &self.config);
            if outcome.finish_contact {
                self.race_time.pause();
                self.pending_finish = true;
            }
            if outcome.bonk_started {
                *trick_text = String::from_str("BONK!");
                bonked = true;
            }
            i = i + 1;
        }
        proof {
            assert(events@.take(events@.len() as int) =~= events@);
        }
        bonked
    }

    /// The world after draining the one-shot finish signal: with the
    /// signal set, it clears and the game moves to the leaderboard when a
    /// score service is configured, to the game-over screen otherwise;
    /// with no signal pending, nothing changes.
    pub open spec fn game_finished_spec(self, has_credentials: bool) -> Simulation {
        if self.pending_finish {
            Simulation {
                pending_finish: false,
                state: if has_credentials {
                    GameState::Leaderboard
                } else {
                    GameState::GameOver
                },
                ..self
            }
        } else {
            self
        }
    }

    /// Drain the one-shot finish signal, moving to the post-race screen
    /// when it was set. Returns whether a finish was signalled; a second
    /// drain finds nothing.
    pub fn game_finished(&mut self, has_credentials: bool) -> (finished: bool)
        ensures
            *final(self) == old(self).game_finished_spec(has_credentials),
            finished == old(self).pending_finish,
            !final(self).pending_finish,
    {
        if self.pending_finish {
            self.pending_finish = false;
            self.state = if has_credentials {
                GameState::Leaderboard
            } else {
                GameState::GameOver
            };
            true
        } else {
            false
        }
    }

    /// The world after the kill-plane check: fallen below the lava line,
    /// the race clock pauses and the game moves to the game-over screen.
    pub open spec fn death_spec(self, y_mm: i64) -> Simulation {
        if y_mm < LAVA_Y_MM {
            Simulation {
                race_time: RaceTime { paused: true, ..self.race_time },
                state: GameState::GameOver,
                ..self
            }
        } else {
            self
        }
    }

    /// Pause the clock and end the round when the vehicle has fallen off
    /// the track.
    pub fn death(&mut self, y_mm: i64)
        ensures
            *final(self) == old(self).death_spec(y_mm),
    {
        if y_mm < LAVA_Y_MM {
            self.race_time.pause();
            self.state = GameState::GameOver;
        }
    }

    /// The world after the manual reset control: pressed, the race clock
    /// pauses and the game moves to the game-over screen.
    pub open spec fn reset_action_spec(self, reset_pressed: bool) -> Simulation {
        if reset_pressed {
            Simulation {
                race_time: RaceTime { paused: true, ..self.race_time },
                state: GameState::GameOver,
                ..self
            }
        } else {
            self
        }
    }

    /// Give up the round on the reset control.
    pub fn reset_action(&mut self, reset_pressed: bool)
        ensures
            *final(self) == old(self).reset_action_spec(reset_pressed),
    {
        if reset_pressed {
            self.race_time.pause();
            self.state = GameState::GameOver;
        }
    }

    /// Begin a round: the game moves to the playing screen with a freshly
    /// spawned vehicle and a fresh countdown; the race clock keeps its
    /// paused zero until the countdown runs out.
    pub fn start_round(&mut self)
        ensures
            *final(self) == (Simulation {
                state: GameState::Playing,
                vehicle: Vehicle::spawn_spec(),
                countdown: (CountdownTimer { countdown_elapsed_ms: 0u64, go_elapsed_ms: 0u64 }),
                ..*old(self)
            }),
    {
        self.state = GameState::Playing;
        self.vehicle = Vehicle::default();
        self.countdown = CountdownTimer::default();
    }

    /// Leave the post-race screen for the menu: the vehicle despawns and
    /// the race clock is zeroed for the next round.
    pub fn play_again(&mut self)
        ensures
            *final(self) == (Simulation {
                state: GameState::MainMenu,
                vehicle: Vehicle::spawn_spec(),
                race_time: (RaceTime {
                    elapsed_ms: 0u64,
                    paused: old(self).race_time.paused,
                }),
                ..*old(self)
            }),
    {
        self.state = GameState::MainMenu;
        self.vehicle = Vehicle::default();
        self.race_time.reset();
    }
}

impl Simulation {
    /// The jump decision: a jump fires when the control was pressed, at
    /// least one jump sensor touches the track, the jump cooldown is
    /// clear, and the race is running. Firing re-arms the cooldown until
    /// the jump sensors fully re-ground.
    pub open spec fn jump_fired_spec(self, jump_pressed: bool) -> bool {
        &&& jump_pressed
        &&& self.vehicle.contacts.jump_wheels_on_ground >= 1
        &&& !self.vehicle.contacts.jump_cooldown
        &&& !self.race_time.paused
    }

    /// The drive decision: the engine applies drive force for a pressed
    /// direction only while at least one jump sensor touches the track
    /// and the race is running.
    pub fn drive_allowed(&self) -> (r: bool)
        ensures
            r == (self.vehicle.contacts.jump_wheels_on_ground >= 1 && !self.race_time.paused),
    {
        self.vehicle.contacts.jump_wheels_on_ground >= 1 && !self.race_time.paused
    }

    /// One whole simulation tick, as a value: the next world and the
    /// tick's outputs. Outside the playing screen nothing runs. Within it,
    /// the fixed order is: collision events, the jump decision, the
    /// countdown (starting the race clock when it runs out), the trick
    /// evaluator (which reads the contact counts the collisions just
    /// produced), boost decay (so a landing's grant is decayed and applied
    /// to the speed limit the same tick), the race clock, the kill-plane
    /// check, the reset control, the zoom glide, and the finish-signal
    /// drain.
    pub open spec fn tick_spec(self, input: TickInput, events: Seq<CollisionEvent>) -> (
        Simulation,
        TickOutput,
    ) {
        if self.state != GameState::Playing {
            (self, TickOutput::idle_spec())
        } else {
            let s1 = self.collision_seq_spec(events);
            let jump_fired = s1.jump_fired_spec(input.jump_pressed);
            let s2 = if jump_fired {
                Simulation {
                    vehicle: Vehicle {
                        contacts: ContactState { jump_cooldown: true, ..s1.vehicle.contacts },
                        ..s1.vehicle
                    },
                    ..s1
                }
            } else {
                s1
            };
            let cd = s2.countdown.tick_spec(input.dt_ms);
            let s3 = Simulation {
                countdown: cd.0,
                race_time: if cd.1 {
                    RaceTime { paused: false, ..s2.race_time }
                } else {
                    s2.race_time
                },
                ..s2
            };
            let tr = trick_step_spec(
                s3.vehicle.trick,
                s3.vehicle.last_trick,
                s3.vehicle.boost,
                s3.config,
                input.dt_ms,
                input.angvel_mdeg_per_sec,
                input.x_mm,
                s3.vehicle.contacts.wheels_on_ground,
                s3.vehicle.wheels_prev,
                s3.vehicle.contacts.bonk,
            );
            let s4 = Simulation {
                vehicle: Vehicle {
                    trick: tr.0,
                    last_trick: tr.1,
                    boost: tr.2,
                    wheels_prev: s3.vehicle.contacts.wheels_on_ground,
                    ..s3.vehicle
                },
                ..s3
            };
            let bo = s4.vehicle.boost.tick_spec(s4.vehicle.speed_limit, input.dt_ms);
            let s5 = Simulation {
                vehicle: Vehicle { boost: bo.0, speed_limit: bo.1, ..s4.vehicle },
                ..s4
            };
            let s6 = Simulation { race_time: s5.race_time.tick_spec(input.dt_ms), ..s5 };
            let s7 = s6.death_spec(input.y_mm);
            let s8 = s7.reset_action_spec(input.reset_pressed);
            let z1 = s8.zoom.toggle_spec(input.zoom_toggle_pressed);
            let s9 = Simulation { zoom: z1.tick_spec(input.dt_ms), ..s8 };
            let s10 = s9.game_finished_spec(input.has_credentials);
            (
                s10,
                TickOutput {
                    landed_trick: tr.3,
                    jump_fired,
                    camera_z_mm: if z1.paused {
                        None
                    } else {
                        Some(z1.tick_spec(input.dt_ms).camera_z_spec() as i64)
                    },
                    bonk_started: self.seq_sets_bonk_text(events),
                    race_started: cd.1,
                    finished: s9.pending_finish,
                },
            )
        }
    }

    /// Advance the world by one tick in the fixed system order, writing
    /// any trick or bonk announcement into `trick_text`: a trick landed
    /// this tick announces itself, otherwise a bonk leaves "BONK!",
    /// otherwise the text is untouched.
    pub fn tick(&mut self, input: &TickInput, events: &Vec<CollisionEvent>, trick_text: &mut String)
        -> (out: TickOutput)
        requires
            old(self).wf(),
            input.wf(),
        ensures
            (*final(self), out) == old(self).tick_spec(*input, events@),
            final(self).wf(),
            old(self).state == GameState::Playing && (crate::boost::boost_consistent(
                old(self).vehicle.boost,
                old(self).vehicle.speed_limit,
            ) || old(self).vehicle.speed_limit == crate::boost::BASE_SPEED_LIMIT)
                ==> crate::boost::boost_consistent(
                final(self).vehicle.boost,
                final(self).vehicle.speed_limit,
            ),
            final(trick_text)@ == (if old(self).state != GameState::Playing {
                old(trick_text)@
            } else {
                match old(self).tick_spec(*input, events@).1.landed_trick {
                    Some(t) => trick_text_spec(t),
                    None => if old(self).seq_sets_bonk_text(events@) {
                        "BONK!"@
                    } else {
                        old(trick_text)@
                    },
                }
            }),
    {
        if self.state != GameState::Playing {
            return TickOutput {
                landed_trick: None,
                jump_fired: false,
                camera_z_mm: None,
                bonk_started: false,
                race_started: false,
                finished: false,
            };
        }
        let bonk_started = self.collision_events(events, trick_text);
        proof {
            lemma_collision_seq_frame(*old(self), events@);
        }
        let jump_fired = input.jump_pressed && self.vehicle.contacts.jump_wheels_on_ground >= 1
            && !self.vehicle.contacts.jump_cooldown && !self.race_time.paused;
        if jump_fired {
            self.vehicle.contacts.jump_cooldown = true;
        }
        let race_started = self.countdown.tick(input.dt_ms);
        if race_started {
            self.race_time.unpause();
        }
        let landed = track_trick_step(
            &mut self.vehicle.trick,
            &mut self.vehicle.last_trick,
            &mut self.vehicle.boost,
            &self.config,
            input.dt_ms,
            input.angvel_mdeg_per_sec,
            input.x_mm,
            self.vehicle.contacts.wheels_on_ground,
            self.vehicle.wheels_prev,
            self.vehicle.contacts.bonk,
        );
        self.vehicle.wheels_prev = self.vehicle.contacts.wheels_on_ground;
        if let Some(t) = landed {
            *trick_text = get_trick_text(&t);
        }
        self.vehicle.boost.tick(&mut self.vehicle.speed_limit, input.dt_ms);
        self.race_time.tick(input.dt_ms);
        self.death(input.y_mm);
        self.reset_action(input.reset_pressed);
        self.zoom.toggle(input.zoom_toggle_pressed);
        let camera_z_mm = self.zoom.tick(input.dt_ms);
        let finished = self.game_finished(input.has_credentials);
        TickOutput {
            landed_trick: landed,
            jump_fired,
            camera_z_mm,
            bonk_started,
            race_started,
            finished,
        }
    }
}

/// Whether some event of the batch is a finish-line crossing.
pub open spec fn has_finish_contact(evs: Seq<CollisionEvent>) -> bool
    decreases evs.len(),
{
    if evs.len() == 0 {
        false
    } else {
        evs[0].is_finish_contact() || has_finish_contact(evs.drop_first())
    }
}

/// Collision events touch nothing but the contact counters, the clock's
/// pause flag and the finish signal: everything else in the world comes
/// out of the fold as it went in.
pub proof fn lemma_collision_seq_frame(s: Simulation, evs: Seq<CollisionEvent>)
    ensures
        s.collision_seq_spec(evs).config == s.config,
        s.collision_seq_spec(evs).state == s.state,
        s.collision_seq_spec(evs).countdown == s.countdown,
        s.collision_seq_spec(evs).zoom == s.zoom,
        s.collision_seq_spec(evs).race_time.elapsed_ms == s.race_time.elapsed_ms,
        s.collision_seq_spec(evs).vehicle.trick == s.vehicle.trick,
        s.collision_seq_spec(evs).vehicle.last_trick == s.vehicle.last_trick,
        s.collision_seq_spec(evs).vehicle.boost == s.vehicle.boost,
        s.collision_seq_spec(evs).vehicle.speed_limit == s.vehicle.speed_limit,
        s.collision_seq_spec(evs).vehicle.wheels_prev == s.vehicle.wheels_prev,
    decreases evs.len(),
{
    if evs.len() > 0 {
        lemma_collision_seq_frame(s.collision_step_spec(evs[0]), evs.drop_first());
    }
}

/// Processing a batch of collision events pauses the race clock exactly
/// when it holds a finish-line crossing (or the clock was already
/// paused), sets the one-shot finish signal the same way, and never
/// touches the elapsed time or the screen.
pub proof fn lemma_collision_seq_finish(s: Simulation, evs: Seq<CollisionEvent>)
    ensures
        s.collision_seq_spec(evs).pending_finish == (s.pending_finish || has_finish_contact(evs)),
        s.collision_seq_spec(evs).race_time.paused == (s.race_time.paused || has_finish_contact(
            evs,
        )),
        s.collision_seq_spec(evs).race_time.elapsed_ms == s.race_time.elapsed_ms,
        s.collision_seq_spec(evs).state == s.state,
    decreases evs.len(),
{
    if evs.len() > 0 {
        lemma_collision_seq_finish(s.collision_step_spec(evs[0]), evs.drop_first());
    }
}

/// A finish-line crossing pauses the race clock, freezing the elapsed
/// time, and the one-shot finish signal fires exactly once per crossing:
/// however many qualifying contacts the tick's batch holds — a wheel and
/// the body may both touch the sensor — one drain reports the finish and
/// moves to the post-race screen, and every further drain finds nothing
/// and changes nothing.
pub proof fn lemma_finish_signal_once(
    s: Simulation,
    evs: Seq<CollisionEvent>,
    has_credentials: bool,
)
    requires
        !s.pending_finish,
        has_finish_contact(evs),
    ensures
        s.collision_seq_spec(evs).race_time.paused,
        s.collision_seq_spec(evs).race_time.elapsed_ms == s.race_time.elapsed_ms,
        s.collision_seq_spec(evs).pending_finish,
        s.collision_seq_spec(evs).game_finished_spec(has_credentials).state == (
        if has_credentials {
            GameState::Leaderboard
        } else {
            GameState::GameOver
        }),
        !s.collision_seq_spec(evs).game_finished_spec(has_credentials).pending_finish,
        s.collision_seq_spec(evs).game_finished_spec(has_credentials).game_finished_spec(
            has_credentials,
        ) == s.collision_seq_spec(evs).game_finished_spec(has_credentials),
{
    lemma_collision_seq_finish(s, evs);
}

/// Processing one more event of a batch is one more step of the fold.
proof fn lemma_collision_take_snoc(s: Simulation, evs: Seq<CollisionEvent>, i: int)
    requires
        0 <= i < evs.len(),
    ensures
        s.collision_seq_spec(evs.take(i + 1)) == s.collision_seq_spec(evs.take(i)).collision_step_spec(
            evs[i],
        ),
        s.seq_sets_bonk_text(evs.take(i + 1)) == (s.seq_sets_bonk_text(evs.take(i)) || s.collision_seq_spec(
            evs.take(i),
        ).vehicle.contacts.bonk_starts(evs[i], s.collision_seq_spec(evs.take(i)).config)),
    decreases i,
{
    if i == 0 {
        assert(evs.take(1).drop_first() =~= Seq::<CollisionEvent>::empty());
        assert(evs.take(0) =~= Seq::<CollisionEvent>::empty());
        assert(s.collision_step_spec(evs[0]).collision_seq_spec(Seq::<CollisionEvent>::empty())
            == s.collision_step_spec(evs[0]));
        assert(!s.collision_step_spec(evs[0]).seq_sets_bonk_text(Seq::<CollisionEvent>::empty()));
    } else {
        let s1 = s.collision_step_spec(evs[0]);
        let rest = evs.drop_first();
        lemma_collision_take_snoc(s1, rest, i - 1);
        assert(evs.take(i + 1).drop_first() =~= rest.take(i));
        assert(evs.take(i).drop_first() =~= rest.take(i - 1));
        assert(evs.take(i + 1)[0] == evs[0]);
        assert(evs.take(i)[0] == evs[0]);
        assert(rest[i - 1] == evs[i]);
    }
}

} // verus!
