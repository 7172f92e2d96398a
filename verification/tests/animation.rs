//! Keyboard handling, the tick state machine and frame pacing.

use ascii_torus::animation::{advance_angles, drain_events};
use ascii_torus::events::{apply_event, AnimationState, InputEvent, Status};
use ascii_torus::timing::remaining_delay;

#[test]
fn initial_state_has_defaults() {
    let st = AnimationState::initial();
    assert_eq!(st.a, 0);
    assert_eq!(st.b, 0);
    assert_eq!(st.a_speed, 4);
    assert_eq!(st.b_speed, 8);
    assert_eq!(st.status, Status::Running);
}

#[test]
fn arrows_adjust_speeds_one_step_per_keypress() {
    let mut st = AnimationState::initial();
    apply_event(&mut st, InputEvent::Up);
    assert_eq!((st.a_speed, st.b_speed), (5, 8));
    apply_event(&mut st, InputEvent::Up);
    assert_eq!((st.a_speed, st.b_speed), (6, 8));
    apply_event(&mut st, InputEvent::Down);
    assert_eq!((st.a_speed, st.b_speed), (5, 8));
    apply_event(&mut st, InputEvent::Right);
    assert_eq!((st.a_speed, st.b_speed), (5, 9));
    apply_event(&mut st, InputEvent::Left);
    assert_eq!((st.a_speed, st.b_speed), (5, 8));
    // the angles and the status are untouched by speed changes
    assert_eq!((st.a, st.b), (0, 0));
    assert_eq!(st.status, Status::Running);
}

#[test]
fn speeds_can_go_negative() {
    let mut st = AnimationState::initial();
    for _ in 0..6 {
        apply_event(&mut st, InputEvent::Down);
    }
    assert_eq!(st.a_speed, -2);
}

#[test]
fn reset_restores_defaults_regardless_of_prior_values() {
    let mut st = AnimationState::initial();
    st.a_speed = 991;
    st.b_speed = -37;
    apply_event(&mut st, InputEvent::Reset);
    assert_eq!((st.a_speed, st.b_speed), (4, 8));
}

#[test]
fn start_acts_exactly_like_reset() {
    let mut st = AnimationState::initial();
    st.a_speed = -5;
    st.b_speed = 123;
    apply_event(&mut st, InputEvent::Start);
    assert_eq!((st.a_speed, st.b_speed), (4, 8));
}

#[test]
fn pause_zeroes_both_speeds_regardless_of_prior_values() {
    let mut st = AnimationState::initial();
    st.a_speed = 17;
    st.b_speed = -3;
    apply_event(&mut st, InputEvent::Pause);
    assert_eq!((st.a_speed, st.b_speed), (0, 0));
}

#[test]
fn unrecognized_keys_are_ignored() {
    let mut st = AnimationState::initial();
    apply_event(&mut st, InputEvent::Other);
    assert_eq!(st, AnimationState::initial());
}

#[test]
fn drain_applies_events_in_order() {
    let mut st = AnimationState::initial();
    let evs = vec![InputEvent::Up, InputEvent::Up, InputEvent::Right];
    drain_events(&mut st, &evs);
    assert_eq!((st.a_speed, st.b_speed), (6, 9));
}

#[test]
fn reset_after_adjustments_ends_at_defaults() {
    let mut st = AnimationState::initial();
    let evs = vec![InputEvent::Up, InputEvent::Up, InputEvent::Right, InputEvent::Reset];
    drain_events(&mut st, &evs);
    assert_eq!((st.a_speed, st.b_speed), (4, 8));
}

#[test]
fn escape_stops_the_machine_and_abandons_the_rest() {
    let mut st = AnimationState::initial();
    let evs = vec![InputEvent::Quit, InputEvent::Up, InputEvent::Up];
    drain_events(&mut st, &evs);
    assert_eq!(st.status, Status::Stopped);
    // the events queued behind Escape were never applied
    assert_eq!(st.a_speed, 4);
}

#[test]
fn stopped_machine_consumes_nothing_and_renders_no_frame() {
    let mut st = AnimationState::initial();
    drain_events(&mut st, &vec![InputEvent::Quit]);
    assert_eq!(st.status, Status::Stopped);
    let frozen = st;
    // the next tick's drain leaves the state untouched, and the tick does
    // not render: the render decision is `status == Running`
    drain_events(&mut st, &vec![InputEvent::Up, InputEvent::Pause]);
    assert_eq!(st, frozen);
    assert!(st.status != Status::Running);
}

#[test]
fn advance_moves_angles_by_speeds() {
    let mut st = AnimationState::initial();
    advance_angles(&mut st);
    assert_eq!((st.a, st.b), (4, 8));
    advance_angles(&mut st);
    assert_eq!((st.a, st.b), (8, 16));
}

#[test]
fn paused_tick_leaves_angles_unchanged() {
    let mut st = AnimationState::initial();
    st.a = 70;
    st.b = 140;
    drain_events(&mut st, &vec![InputEvent::Pause]);
    drain_events(&mut st, &Vec::new());
    advance_angles(&mut st);
    assert_eq!((st.a, st.b), (70, 140));
}

#[test]
fn delay_fills_the_remaining_tick_budget() {
    assert_eq!(remaining_delay(0), 50);
    assert_eq!(remaining_delay(49), 1);
    assert_eq!(remaining_delay(50), 0);
}

#[test]
fn slow_ticks_get_zero_delay_never_negative() {
    assert_eq!(remaining_delay(51), 0);
    assert_eq!(remaining_delay(1000), 0);
    assert_eq!(remaining_delay(u64::MAX), 0);
}
