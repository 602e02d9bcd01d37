use combine_racers::boost::{
    boost_duration_ms, Boost, BASE_SPEED_LIMIT, BOOST_SPEED_LIMIT,
};

#[test]
fn duration_formula_one_flip_novel_trick() {
    // 1 flip, novel trick: 2.0 + 0 + 1.0 = 3.0 seconds.
    assert_eq!(boost_duration_ms(1, true), 3_000);
}

#[test]
fn duration_formula_two_flips_repeat_trick() {
    // 2 flips, repeat trick: 2.0 + 1 + 0 = 3.0 seconds.
    assert_eq!(boost_duration_ms(2, false), 3_000);
}

#[test]
fn duration_formula_more_flips() {
    assert_eq!(boost_duration_ms(1, false), 2_000);
    assert_eq!(boost_duration_ms(3, true), 5_000);
    assert_eq!(boost_duration_ms(4, false), 5_000);
}

#[test]
fn overlapping_grants_stack_additively() {
    // Two landings granting 3.0 s each, 1.0 s apart:
    // 3.0 - 1.0 + 3.0 = 5.0 seconds remain.
    let mut boost = Boost::default();
    let mut limit = BASE_SPEED_LIMIT;

    boost.grant(3_000);
    assert_eq!(boost.remaining_ms, 3_000);

    boost.tick(&mut limit, 1_000);
    assert_eq!(boost.remaining_ms, 2_000);
    assert_eq!(limit, BOOST_SPEED_LIMIT);

    boost.grant(3_000);
    assert_eq!(boost.remaining_ms, 5_000);
}

#[test]
fn boost_raises_limit_then_decays_back_to_baseline() {
    let mut boost = Boost::default();
    let mut limit = BASE_SPEED_LIMIT;

    // Nothing happens with no boost running.
    boost.tick(&mut limit, 500);
    assert_eq!(boost.remaining_ms, 0);
    assert_eq!(limit, BASE_SPEED_LIMIT);

    boost.grant(1_000);
    boost.tick(&mut limit, 400);
    assert_eq!(boost.remaining_ms, 600);
    assert_eq!(limit, BOOST_SPEED_LIMIT);

    // The tick that exhausts the pool drops the limit back to baseline.
    boost.tick(&mut limit, 600);
    assert_eq!(boost.remaining_ms, 0);
    assert_eq!(limit, BASE_SPEED_LIMIT);
}

#[test]
fn decay_clamps_at_zero() {
    let mut boost = Boost::default();
    let mut limit = BASE_SPEED_LIMIT;

    boost.grant(300);
    boost.tick(&mut limit, 10_000);
    assert_eq!(boost.remaining_ms, 0);
    assert_eq!(limit, BASE_SPEED_LIMIT);
}

#[test]
fn speed_limit_is_baseline_exactly_when_no_boost_remains() {
    let mut boost = Boost::default();
    let mut limit = BASE_SPEED_LIMIT;
    boost.grant(2_000);
    let mut guard = 0;
    loop {
        boost.tick(&mut limit, 700);
        assert_eq!(boost.remaining_ms == 0, limit == BASE_SPEED_LIMIT);
        assert!(boost.remaining_ms == 0 || limit == BOOST_SPEED_LIMIT);
        if boost.remaining_ms == 0 {
            break;
        }
        guard += 1;
        assert!(guard < 10);
    }
}
