use combine_racers::boost::{BASE_SPEED_LIMIT, BOOST_SPEED_LIMIT};
use combine_racers::contact::CollisionEvent;
use combine_racers::race::GameState;
use combine_racers::simulation::{Simulation, TickInput, LAVA_Y_MM};
use combine_racers::trick::Trick;

fn quiet_event() -> CollisionEvent {
    CollisionEvent {
        started: true,
        wheel: false,
        jump_wheel: false,
        body: false,
        track: false,
        finish_line: false,
    }
}

fn idle_input(dt_ms: u64) -> TickInput {
    TickInput {
        dt_ms,
        angvel_mdeg_per_sec: 0,
        x_mm: 0,
        y_mm: 0,
        jump_pressed: false,
        zoom_toggle_pressed: false,
        reset_pressed: false,
        has_credentials: false,
    }
}

/// A playing world whose countdown has run out: the race clock is live.
fn racing_sim() -> Simulation {
    let mut sim = Simulation::new();
    sim.start_round();
    let mut text = String::new();
    sim.tick(&idle_input(3_000), &Vec::new(), &mut text);
    assert!(!sim.race_time.paused);
    sim
}

#[test]
fn nothing_runs_outside_the_playing_screen() {
    let mut sim = Simulation::new();
    let before_state = sim.state;
    let mut text = String::from("untouched");
    let out = sim.tick(&idle_input(100), &Vec::new(), &mut text);
    assert_eq!(sim.state, before_state);
    assert_eq!(sim.race_time.elapsed_ms, 0);
    assert!(!out.race_started);
    assert_eq!(text, "untouched");
}

#[test]
fn countdown_starts_the_race_clock() {
    let mut sim = Simulation::new();
    sim.start_round();
    let mut text = String::new();

    let out = sim.tick(&idle_input(1_000), &Vec::new(), &mut text);
    assert!(!out.race_started);
    assert!(sim.race_time.paused);
    assert_eq!(sim.race_time.elapsed_ms, 0);

    sim.tick(&idle_input(1_000), &Vec::new(), &mut text);
    let out = sim.tick(&idle_input(1_000), &Vec::new(), &mut text);
    assert!(out.race_started);
    assert!(!sim.race_time.paused);
    // The tick that starts the clock already counts: the countdown runs
    // before the clock in the tick order.
    assert_eq!(sim.race_time.elapsed_ms, 1_000);

    let out = sim.tick(&idle_input(500), &Vec::new(), &mut text);
    assert!(!out.race_started);
    assert_eq!(sim.race_time.elapsed_ms, 1_500);
}

#[test]
fn finish_line_contact_pauses_the_clock_and_signals_once() {
    let mut sim = racing_sim();
    let run_up = sim.race_time.elapsed_ms;
    sim.tick(&idle_input(750), &Vec::new(), &mut String::new());
    assert_eq!(sim.race_time.elapsed_ms, run_up + 750);

    // Both a wheel and the body touch the finish sensor in the same tick:
    // two qualifying sub-events, one signal.
    let wheel_finish = CollisionEvent {
        wheel: true,
        finish_line: true,
        ..quiet_event()
    };
    let body_finish = CollisionEvent {
        body: true,
        finish_line: true,
        ..quiet_event()
    };
    let mut input = idle_input(16);
    input.has_credentials = true;
    let mut text = String::new();
    let out = sim.tick(&input, &vec![wheel_finish, body_finish], &mut text);
    assert!(out.finished, "the drain reports the finish exactly once");
    assert!(sim.race_time.paused);
    assert_eq!(
        sim.race_time.elapsed_ms,
        run_up + 750,
        "the finish tick's own time does not run: the clock pauses before it ticks"
    );
    assert_eq!(sim.state, GameState::Leaderboard);
    assert!(!sim.pending_finish);

    // Any later drain finds nothing.
    assert!(!sim.game_finished(true));
}

#[test]
fn finish_without_credentials_goes_to_game_over() {
    let mut sim = racing_sim();
    let finish = CollisionEvent {
        wheel: true,
        finish_line: true,
        ..quiet_event()
    };
    let out = sim.tick(&idle_input(16), &vec![finish], &mut String::new());
    assert!(out.finished);
    assert_eq!(sim.state, GameState::GameOver);
}

#[test]
fn bonk_writes_the_notice_into_the_trick_text() {
    let mut sim = racing_sim();
    let bonk = CollisionEvent {
        body: true,
        track: true,
        ..quiet_event()
    };
    let mut text = String::new();
    let out = sim.tick(&idle_input(16), &vec![bonk], &mut text);
    assert_eq!(text, "BONK!");
    assert!(out.bonk_started, "the audio layer hears about the impact");
    assert!(sim.vehicle.contacts.bonk);

    // The flag reports the transition, not the state: a second impact
    // while the bonk is pending is quiet.
    let out = sim.tick(&idle_input(16), &vec![bonk], &mut text);
    assert!(!out.bonk_started);
}

#[test]
fn a_full_jump_trick_and_landing_through_the_tick_loop() {
    let mut sim = racing_sim();
    let mut text = String::new();

    // Ground both wheels and both jump sensors.
    let wheel = CollisionEvent {
        wheel: true,
        track: true,
        ..quiet_event()
    };
    let jump_wheel = CollisionEvent {
        jump_wheel: true,
        track: true,
        ..quiet_event()
    };
    sim.tick(
        &idle_input(16),
        &vec![wheel, wheel, jump_wheel, jump_wheel],
        &mut text,
    );
    assert_eq!(sim.vehicle.contacts.wheels_on_ground, 2);
    assert!(!sim.vehicle.contacts.jump_cooldown);

    // Jump: the input fires once and re-arms the cooldown.
    let mut input = idle_input(16);
    input.jump_pressed = true;
    let out = sim.tick(&input, &Vec::new(), &mut text);
    assert!(out.jump_fired);
    assert!(sim.vehicle.contacts.jump_cooldown);

    // The wheels leave the track; one airborne second of fast back
    // rotation carries a flip.
    let wheel_off = CollisionEvent {
        started: false,
        wheel: true,
        track: true,
        ..quiet_event()
    };
    let jump_off = CollisionEvent {
        started: false,
        jump_wheel: true,
        track: true,
        ..quiet_event()
    };
    let mut airborne = idle_input(1_000);
    airborne.angvel_mdeg_per_sec = 400_000;
    sim.tick(
        &airborne,
        &vec![wheel_off, wheel_off, jump_off, jump_off],
        &mut text,
    );
    assert_eq!(sim.vehicle.contacts.wheels_on_ground, 0);
    assert_eq!(sim.vehicle.trick.back_flips, 1);

    // Landing scores the trick, announces it, and the boost is live the
    // same tick.
    let landing = sim.tick(&idle_input(16), &vec![wheel, wheel], &mut text);
    let trick = landing.landed_trick.expect("the landing scores");
    assert_eq!(
        trick,
        Trick {
            front_flips: 0,
            back_flips: 1,
            fakie: false
        }
    );
    assert_eq!(text, "Back Flip!");
    // One flip, novel trick: 3.0 s granted, minus this tick's decay.
    assert_eq!(sim.vehicle.boost.remaining_ms, 3_000 - 16);
    assert_eq!(sim.vehicle.speed_limit, BOOST_SPEED_LIMIT);
    assert_eq!(sim.vehicle.last_trick, trick);

    // The boost decays back to baseline.
    for _ in 0..200 {
        sim.tick(&idle_input(16), &Vec::new(), &mut text);
    }
    assert_eq!(sim.vehicle.boost.remaining_ms, 0);
    assert_eq!(sim.vehicle.speed_limit, BASE_SPEED_LIMIT);
}

#[test]
fn repeating_a_trick_grants_less_boost_than_a_novel_one() {
    let mut sim = racing_sim();
    let mut text = String::new();
    let wheel = CollisionEvent {
        wheel: true,
        track: true,
        ..quiet_event()
    };
    let wheel_off = CollisionEvent {
        started: false,
        wheel: true,
        track: true,
        ..quiet_event()
    };

    // Ground, then two identical single-back-flip jumps in a row.
    sim.tick(&idle_input(16), &vec![wheel, wheel], &mut text);
    let mut airborne = idle_input(1_000);
    airborne.angvel_mdeg_per_sec = 400_000;

    sim.tick(&airborne, &vec![wheel_off, wheel_off], &mut text);
    sim.tick(&idle_input(16), &vec![wheel, wheel], &mut text);
    let after_first = sim.vehicle.boost.remaining_ms;
    // Novel: 2.0 + 0 + 1.0 seconds, minus the landing tick's decay.
    assert_eq!(after_first, 3_000 - 16);

    sim.tick(&airborne, &vec![wheel_off, wheel_off], &mut text);
    sim.tick(&idle_input(16), &vec![wheel, wheel], &mut text);
    // Repeat: only 2.0 seconds more, stacked onto what remained.
    let spent_airborne = 1_000 + 16;
    assert_eq!(
        sim.vehicle.boost.remaining_ms,
        after_first - spent_airborne + 2_000
    );
}

#[test]
fn falling_below_the_kill_plane_ends_the_round() {
    let mut sim = racing_sim();
    let mut input = idle_input(16);
    input.y_mm = LAVA_Y_MM - 1;
    sim.tick(&input, &Vec::new(), &mut String::new());
    assert_eq!(sim.state, GameState::GameOver);
    assert!(sim.race_time.paused);
}

#[test]
fn the_reset_control_gives_up_the_round() {
    let mut sim = racing_sim();
    let mut input = idle_input(16);
    input.reset_pressed = true;
    sim.tick(&input, &Vec::new(), &mut String::new());
    assert_eq!(sim.state, GameState::GameOver);
    assert!(sim.race_time.paused);
}

#[test]
fn play_again_resets_the_world_for_a_new_round() {
    let mut sim = racing_sim();
    sim.tick(&idle_input(500), &Vec::new(), &mut String::new());
    let mut input = idle_input(16);
    input.reset_pressed = true;
    sim.tick(&input, &Vec::new(), &mut String::new());

    sim.play_again();
    assert_eq!(sim.state, GameState::MainMenu);
    assert_eq!(sim.race_time.elapsed_ms, 0);
    assert_eq!(sim.vehicle.boost.remaining_ms, 0);
    assert_eq!(sim.vehicle.contacts.wheels_on_ground, 0);

    sim.start_round();
    assert_eq!(sim.state, GameState::Playing);
    assert!(sim.race_time.paused);
    assert_eq!(sim.countdown.countdown_elapsed_ms, 0);
}

#[test]
fn zoom_toggle_drives_the_camera_through_the_tick_loop() {
    let mut sim = racing_sim();
    let mut input = idle_input(350);
    input.zoom_toggle_pressed = true;
    let out = sim.tick(&input, &Vec::new(), &mut String::new());
    assert_eq!(out.camera_z_mm, Some(50_000));
    let out = sim.tick(&idle_input(350), &Vec::new(), &mut String::new());
    assert_eq!(out.camera_z_mm, Some(20_000));
    let out = sim.tick(&idle_input(16), &Vec::new(), &mut String::new());
    assert_eq!(out.camera_z_mm, None, "the finished glide leaves the camera alone");
}

#[test]
fn driving_needs_a_grounded_jump_sensor_and_a_running_race() {
    let mut sim = Simulation::new();
    sim.start_round();
    assert!(!sim.drive_allowed(), "no force before the countdown ends");
    let mut sim = racing_sim();
    assert!(!sim.drive_allowed(), "no force while fully airborne");
    let jump_wheel = CollisionEvent {
        jump_wheel: true,
        track: true,
        ..quiet_event()
    };
    sim.tick(&idle_input(16), &vec![jump_wheel], &mut String::new());
    assert!(sim.drive_allowed());
}

#[test]
fn jump_needs_a_grounded_jump_sensor_and_a_clear_cooldown() {
    let mut sim = racing_sim();
    let mut text = String::new();
    let mut input = idle_input(16);
    input.jump_pressed = true;

    // Airborne (no jump sensor contact): no jump.
    let out = sim.tick(&input, &Vec::new(), &mut text);
    assert!(!out.jump_fired);

    // One jump sensor down, but the cooldown is still armed from spawn.
    let jump_wheel = CollisionEvent {
        jump_wheel: true,
        track: true,
        ..quiet_event()
    };
    let out = sim.tick(&input, &vec![jump_wheel], &mut text);
    assert!(!out.jump_fired);

    // The second sensor grounds the vehicle and clears the cooldown.
    let out = sim.tick(&input, &vec![jump_wheel], &mut text);
    assert!(out.jump_fired);
}
