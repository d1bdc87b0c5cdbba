use fluffy_birb::{
    try_update, update, Message, State, BOOST, CYCLE_SECONDS, DRIFT, GRAVITY, HALF, PHASE_STEP,
    TERMINAL_VELOCITY, TICKS_PER_SECOND, UNIT,
};

fn at_rest(bird_y: i64) -> State {
    State { phase: 0, bird_x: UNIT, bird_y, bird_velocity_x: 0, bird_velocity_y: 0 }
}

fn fraction(steps: i64) -> f64 {
    steps as f64 / UNIT as f64
}

fn close(left: f64, right: f64) -> bool {
    (left - right).abs() < 1e-9
}

#[test]
fn constants_are_the_fractions_they_stand_for() {
    assert_eq!(PHASE_STEP * CYCLE_SECONDS * TICKS_PER_SECOND, UNIT);
    assert!(close(fraction(PHASE_STEP), 1.0 / 600.0));
    assert!(close(fraction(GRAVITY), 0.005));
    assert!(close(fraction(BOOST), -0.04));
    assert!(close(fraction(TERMINAL_VELOCITY), 0.04));
    assert!(close(fraction(DRIFT), -0.005));
    assert!(close(fraction(HALF), 0.5));
}

#[test]
fn default_is_the_fresh_world() {
    let state = State::default();
    assert_eq!(
        state,
        State {
            phase: 0,
            bird_x: 600_000,
            bird_y: 300_000,
            bird_velocity_x: -3_000,
            bird_velocity_y: 0,
        }
    );
}

#[test]
fn first_tick_from_the_fresh_world() {
    let mut state = State::default();
    update(&mut state, Message::Tick);
    assert_eq!(state.bird_x, 597_000);
    assert_eq!(state.bird_y, 303_000);
    assert_eq!(state.bird_velocity_y, 3_000);
    assert_eq!(state.bird_velocity_x, -3_000);
    assert_eq!(state.phase, 1_000);
    assert!(close(fraction(state.bird_x), 0.995));
    assert!(close(fraction(state.bird_y), 0.505));
    assert!(close(fraction(state.bird_velocity_y), 0.005));
    assert!((state.phase as f64 / UNIT as f64 - 0.001667).abs() < 1e-6);
}

#[test]
fn boost_then_tick_from_rest() {
    let mut state = at_rest(HALF);
    update(&mut state, Message::Boost);
    assert_eq!(state.bird_velocity_y, BOOST);
    assert_eq!(state.bird_y, HALF);
    update(&mut state, Message::Tick);
    assert_eq!(state.bird_velocity_y, BOOST + GRAVITY);
    assert_eq!(state.bird_velocity_y, -21_000);
    assert_eq!(state.bird_y, HALF + BOOST + GRAVITY);
    assert_eq!(state.bird_y, 279_000);
}

#[test]
fn boost_overrides_any_velocity() {
    for velocity in [i64::MIN, -1, 0, 1, BOOST, TERMINAL_VELOCITY, i64::MAX] {
        let mut state = State { bird_velocity_y: velocity, ..State::default() };
        update(&mut state, Message::Boost);
        assert_eq!(state, State { bird_velocity_y: -24_000, ..State::default() });
    }
}

#[test]
fn phase_advances_by_one_step() {
    let mut state = State { phase: 123_456, ..State::default() };
    update(&mut state, Message::Tick);
    assert_eq!(state.phase, 124_456);
}

#[test]
fn phase_wraps_at_the_end_of_the_cycle() {
    let mut state = State { phase: 599_000, ..State::default() };
    update(&mut state, Message::Tick);
    assert_eq!(state.phase, 0);
    let mut state = State { phase: 599_999, ..State::default() };
    update(&mut state, Message::Tick);
    assert_eq!(state.phase, 999);
}

#[test]
fn phase_returns_to_dawn_after_a_full_cycle() {
    let mut state = at_rest(HALF);
    for _ in 0..600 {
        update(&mut state, Message::Tick);
        assert!(state.phase < 600_000);
    }
    assert_eq!(state.phase, 0);
}

#[test]
fn phase_beyond_one_cycle_is_wrapped_into_it() {
    let mut state = State { phase: 1_800_500, ..State::default() };
    update(&mut state, Message::Tick);
    assert_eq!(state.phase, 1_500);
    let mut state = State { phase: u64::MAX, ..State::default() };
    update(&mut state, Message::Tick);
    assert_eq!(state.phase, ((u64::MAX % 600_000) + 1_000) % 600_000);
}

#[test]
fn bird_respawns_at_the_right_edge() {
    let mut state = State { bird_x: 2_000, ..State::default() };
    update(&mut state, Message::Tick);
    assert_eq!(state.bird_x, 600_000);
}

#[test]
fn bird_reaching_the_left_edge_exactly_stays_there() {
    let mut state = State { bird_x: 3_000, ..State::default() };
    update(&mut state, Message::Tick);
    assert_eq!(state.bird_x, 0);
    update(&mut state, Message::Tick);
    assert_eq!(state.bird_x, 600_000);
}

#[test]
fn bird_crosses_the_window_in_two_hundred_ticks() {
    let mut state = at_rest(HALF);
    state.bird_velocity_x = DRIFT;
    for _ in 0..200 {
        update(&mut state, Message::Tick);
    }
    assert_eq!(state.bird_x, 0);
    update(&mut state, Message::Tick);
    assert_eq!(state.bird_x, UNIT);
}

#[test]
fn bird_moving_right_is_not_held_back() {
    let mut state = State { bird_x: 599_000, bird_velocity_x: 3_000, ..State::default() };
    update(&mut state, Message::Tick);
    assert_eq!(state.bird_x, 602_000);
}

#[test]
fn far_left_bird_respawns_without_overflow() {
    let mut state = State { bird_x: i64::MIN, bird_velocity_x: i64::MIN, ..State::default() };
    assert!(try_update(&mut state, Message::Tick));
    assert_eq!(state.bird_x, 600_000);
    assert_eq!(state.bird_velocity_x, i64::MIN);
}

#[test]
fn gravity_builds_up_to_terminal_velocity() {
    let mut state = at_rest(0);
    let expected = [3_000, 6_000, 9_000, 12_000, 15_000, 18_000, 21_000, 24_000, 24_000, 24_000];
    let mut height: i64 = 0;
    for velocity in expected {
        update(&mut state, Message::Tick);
        height += velocity;
        assert_eq!(state.bird_velocity_y, velocity);
        assert_eq!(state.bird_y, height);
    }
}

#[test]
fn velocity_never_exceeds_terminal_without_boost() {
    let mut state = State { bird_velocity_y: i64::MAX, ..State::default() };
    for _ in 0..1_000 {
        update(&mut state, Message::Tick);
        assert!(state.bird_velocity_y <= TERMINAL_VELOCITY);
    }
}

#[test]
fn velocity_just_below_the_cap_is_capped() {
    let mut state = State { bird_y: 0, bird_velocity_y: 21_001, ..State::default() };
    update(&mut state, Message::Tick);
    assert_eq!(state.bird_velocity_y, 24_000);
    assert_eq!(state.bird_y, 24_000);
    let mut state = State { bird_y: 0, bird_velocity_y: 21_000, ..State::default() };
    update(&mut state, Message::Tick);
    assert_eq!(state.bird_velocity_y, 24_000);
    let mut state = State { bird_y: 0, bird_velocity_y: 20_999, ..State::default() };
    update(&mut state, Message::Tick);
    assert_eq!(state.bird_velocity_y, 23_999);
}

#[test]
fn ground_stops_the_bird() {
    let mut state = State { bird_y: 590_000, bird_velocity_y: 21_000, ..State::default() };
    update(&mut state, Message::Tick);
    assert_eq!(state.bird_y, 600_000);
    assert_eq!(state.bird_velocity_y, 0);
}

#[test]
fn touching_the_ground_exactly_keeps_the_velocity() {
    let mut state = State { bird_y: 576_000, bird_velocity_y: 21_000, ..State::default() };
    update(&mut state, Message::Tick);
    assert_eq!(state.bird_y, 600_000);
    assert_eq!(state.bird_velocity_y, 24_000);
    update(&mut state, Message::Tick);
    assert_eq!(state.bird_y, 600_000);
    assert_eq!(state.bird_velocity_y, 0);
}

#[test]
fn ceiling_stops_the_bird() {
    let mut state = State { bird_y: 10_000, ..State::default() };
    update(&mut state, Message::Boost);
    update(&mut state, Message::Tick);
    assert_eq!(state.bird_y, 0);
    assert_eq!(state.bird_velocity_y, 0);
}

#[test]
fn bird_on_the_ground_stays_there() {
    let mut state = at_rest(UNIT);
    for _ in 0..10 {
        update(&mut state, Message::Tick);
        assert_eq!(state.bird_y, 600_000);
        assert_eq!(state.bird_velocity_y, 0);
    }
}

#[test]
fn bird_stays_in_the_window_for_any_velocity() {
    for velocity in [i64::MIN, i64::MIN + 1, -600_001, -1, 0, 1, 600_001, i64::MAX - 1, i64::MAX] {
        for height in [0, 1, HALF, UNIT - 1, UNIT] {
            let mut state = State { bird_y: height, bird_velocity_y: velocity, ..State::default() };
            update(&mut state, Message::Tick);
            assert!(0 <= state.bird_y && state.bird_y <= UNIT);
            let moved = height as i128 + (velocity as i128 + 3_000).min(24_000);
            if moved < 0 || moved > 600_000 {
                assert_eq!(state.bird_velocity_y, 0);
            } else {
                assert_eq!(state.bird_y as i128, moved);
            }
        }
    }
}

#[test]
fn bird_outside_the_window_is_brought_back() {
    let mut state = State { bird_y: i64::MAX, bird_velocity_y: i64::MAX, ..State::default() };
    update(&mut state, Message::Tick);
    assert_eq!(state.bird_y, 600_000);
    assert_eq!(state.bird_velocity_y, 0);
    let mut state = State { bird_y: i64::MIN, bird_velocity_y: i64::MIN, ..State::default() };
    update(&mut state, Message::Tick);
    assert_eq!(state.bird_y, 0);
    assert_eq!(state.bird_velocity_y, 0);
}

#[test]
fn try_update_advances_as_update_does() {
    let mut tried = State::default();
    let mut updated = State::default();
    for message in [Message::Tick, Message::Boost, Message::Tick, Message::Tick] {
        assert!(try_update(&mut tried, message));
        update(&mut updated, message);
        assert_eq!(tried, updated);
    }
    assert_eq!(tried.bird_y, 303_000 - 21_000 - 18_000);
}

#[test]
fn try_update_refuses_a_tick_that_cannot_be_held() {
    let start = State { bird_x: i64::MAX, bird_velocity_x: 1, ..State::default() };
    let mut state = start;
    assert!(!try_update(&mut state, Message::Tick));
    assert_eq!(state, start);
    assert!(try_update(&mut state, Message::Boost));
    assert_eq!(state, State { bird_velocity_y: BOOST, ..start });
}

#[test]
fn try_update_accepts_the_last_tick_that_can_be_held() {
    let mut state = State { bird_x: i64::MAX - 5, bird_velocity_x: 5, ..State::default() };
    assert!(try_update(&mut state, Message::Tick));
    assert_eq!(state.bird_x, i64::MAX);
    assert!(!try_update(&mut state, Message::Tick));
    assert_eq!(state.bird_x, i64::MAX);
}

#[test]
fn events_keep_a_settled_world_settled() {
    let mut state = State::default();
    let pattern = [
        Message::Tick,
        Message::Tick,
        Message::Boost,
        Message::Tick,
        Message::Boost,
        Message::Boost,
        Message::Tick,
        Message::Tick,
        Message::Tick,
    ];
    for round in 0..300 {
        for message in pattern {
            if round % 7 == 3 && message == Message::Boost {
                continue;
            }
            assert!(try_update(&mut state, message));
            assert!(state.phase < 600_000);
            assert!(0 <= state.bird_y && state.bird_y <= 600_000);
            assert!(state.bird_velocity_y <= 24_000);
            assert!(0 <= state.bird_x && state.bird_x <= 600_000);
        }
    }
}
