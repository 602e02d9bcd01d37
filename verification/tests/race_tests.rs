use combine_racers::countdown::CountdownTimer;
use combine_racers::race::RaceTime;

#[test]
fn clock_starts_paused_at_zero() {
    let clock = RaceTime::default();
    assert!(clock.paused);
    assert_eq!(clock.elapsed_ms, 0);
}

#[test]
fn paused_clock_does_not_advance() {
    let mut clock = RaceTime::default();
    clock.tick(500);
    assert_eq!(clock.elapsed_ms, 0);
}

#[test]
fn running_clock_accumulates_and_pause_freezes_it() {
    let mut clock = RaceTime::default();
    clock.unpause();
    clock.tick(500);
    clock.tick(250);
    assert_eq!(clock.elapsed_ms, 750);
    clock.pause();
    clock.tick(1_000);
    assert_eq!(clock.elapsed_ms, 750);
}

#[test]
fn reset_zeroes_elapsed_time() {
    let mut clock = RaceTime::default();
    clock.unpause();
    clock.tick(1234);
    clock.pause();
    clock.reset();
    assert_eq!(clock.elapsed_ms, 0);
    assert!(clock.paused);
}

#[test]
fn countdown_starts_the_race_exactly_once() {
    let mut countdown = CountdownTimer::default();
    assert!(!countdown.tick(1_000));
    assert!(!countdown.tick(1_000));
    assert!(countdown.tick(1_000), "the tick that fills the countdown starts the race");
    assert!(!countdown.tick(1_000), "the go display ticks without starting anything");
    assert!(!countdown.tick(1_000));
}

#[test]
fn countdown_overshoot_still_starts_once() {
    let mut countdown = CountdownTimer::default();
    assert!(countdown.tick(10_000));
    assert!(!countdown.tick(10_000));
}

#[test]
fn countdown_display_rounds_partial_seconds_up() {
    let mut countdown = CountdownTimer::default();
    assert_eq!(countdown.seconds_left(), 3);
    countdown.tick(500);
    assert_eq!(countdown.seconds_left(), 3);
    countdown.tick(1_000);
    assert_eq!(countdown.seconds_left(), 2);
    countdown.tick(1_499);
    assert_eq!(countdown.seconds_left(), 1);
    countdown.tick(1);
    assert_eq!(countdown.seconds_left(), 0);
}
