//! Keyboard commands and their effect on the animation state.
//!
//! Angles and speeds are carried in hundredths of a radian, so one arrow
//! keypress moves a speed by exactly one unit (0.01 rad per tick) and the
//! default speeds are 4 and 8 units (0.04 and 0.08 rad per tick).

use vstd::prelude::*;

verus! {

/// Default tilt speed: 0.04 rad per tick, in hundredths.
pub const DEFAULT_TILT_SPEED: i64 = 4;

/// Default spin speed: 0.08 rad per tick, in hundredths.
pub const DEFAULT_SPIN_SPEED: i64 = 8;

/// Speed change per arrow keypress: 0.01 rad per tick, in hundredths.
pub const SPEED_STEP: i64 = 1;

/// A classified keyboard command. Any unrecognized key is `Other` and is
/// ignored.
#[derive(Clone, Copy, PartialEq, Eq, Structural, Debug)]
pub enum InputEvent {
    /// Arrow up: raise the tilt speed.
    Up,
    /// Arrow down: lower the tilt speed.
    Down,
    /// Arrow left: lower the spin speed.
    Left,
    /// Arrow right: raise the spin speed.
    Right,
    /// The `r` key: reset both speeds to the defaults.
    Reset,
    /// The `s` key: start or resume, identical in effect to `Reset`.
    Start,
    /// The `p` key: zero both speeds, pausing in place.
    Pause,
    /// Escape: stop the animation for good.
    Quit,
    /// Any other key: no effect.
    Other,
}

/// Whether the state machine still ticks or has stopped for good.
#[derive(Clone, Copy, PartialEq, Eq, Structural, Debug)]
pub enum Status {
    Running,
    Stopped,
}

/// The animation controller's state: rotation angles, their per-tick speeds
/// (all in hundredths of a radian) and whether the machine still runs.
#[derive(Clone, Copy, PartialEq, Eq, Structural, Debug)]
pub struct AnimationState {
    /// Tilt angle.
    pub a: i64,
    /// Spin angle.
    pub b: i64,
    /// Tilt advance per tick.
    pub a_speed: i64,
    /// Spin advance per tick.
    pub b_speed: i64,
    /// Running or stopped.
    pub status: Status,
}

impl AnimationState {
    /// The startup state: angles at zero, speeds at the defaults, running.
    pub fn initial() -> (st: AnimationState)
        ensures
            st == (AnimationState {
                a: 0,
                b: 0,
                a_speed: DEFAULT_TILT_SPEED,
                b_speed: DEFAULT_SPIN_SPEED,
                status: Status::Running,
            }),
    {
        AnimationState {
            a: 0,
            b: 0,
            a_speed: DEFAULT_TILT_SPEED,
            b_speed: DEFAULT_SPIN_SPEED,
            status: Status::Running,
        }
    }
}

/// The effect of one keyboard command on the animation state.
pub open spec fn apply_event_spec(st: AnimationState, ev: InputEvent) -> AnimationState {
    match ev {
        InputEvent::Up => AnimationState { a_speed: (st.a_speed + SPEED_STEP) as i64, ..st },
        InputEvent::Down => AnimationState { a_speed: (st.a_speed - SPEED_STEP) as i64, ..st },
        InputEvent::Right => AnimationState { b_speed: (st.b_speed + SPEED_STEP) as i64, ..st },
        InputEvent::Left => AnimationState { b_speed: (st.b_speed - SPEED_STEP) as i64, ..st },
        InputEvent::Reset | InputEvent::Start => AnimationState {
            a_speed: DEFAULT_TILT_SPEED,
            b_speed: DEFAULT_SPIN_SPEED,
            ..st
        },
        InputEvent::Pause => AnimationState { a_speed: 0, b_speed: 0, ..st },
        InputEvent::Quit => AnimationState { status: Status::Stopped, ..st },
        InputEvent::Other => st,
    }
}

/// The adjusted speed stays within the machine range.
pub open spec fn apply_ok(st: AnimationState, ev: InputEvent) -> bool {
    match ev {
        InputEvent::Up => st.a_speed < i64::MAX,
        InputEvent::Down => st.a_speed > i64::MIN,
        InputEvent::Right => st.b_speed < i64::MAX,
        InputEvent::Left => st.b_speed > i64::MIN,
        _ => true,
    }
}

/// Apply one keyboard command to the animation state.
pub fn apply_event(st: &mut AnimationState, ev: InputEvent)
    requires
        apply_ok(*old(st), ev),
    ensures
        *final(st) == apply_event_spec(*old(st), ev),
{
    match ev {
        InputEvent::Up => {
            st.a_speed = st.a_speed + SPEED_STEP;
        },
        InputEvent::Down => {
            st.a_speed = st.a_speed - SPEED_STEP;
        },
        InputEvent::Right => {
            st.b_speed = st.b_speed + SPEED_STEP;
        },
        InputEvent::Left => {
            st.b_speed = st.b_speed - SPEED_STEP;
        },
        InputEvent::Reset | InputEvent::Start => {
            st.a_speed = DEFAULT_TILT_SPEED;
            st.b_speed = DEFAULT_SPIN_SPEED;
        },
        InputEvent::Pause => {
            st.a_speed = 0;
            st.b_speed = 0;
        },
        InputEvent::Quit => {
            st.status = Status::Stopped;
        },
        InputEvent::Other => {
        },
    }
}

/// Speed adjustments are strictly additive, one step per keypress, and each
/// axis is independent of the other; reset and start restore exactly the
/// default speeds whatever the prior values; pause zeroes both speeds
/// whatever the prior values. None of these touches the angles or stops the
/// machine.
pub proof fn lemma_speed_adjustments(st: AnimationState)
    requires
        apply_ok(st, InputEvent::Up),
        apply_ok(st, InputEvent::Down),
        apply_ok(st, InputEvent::Left),
        apply_ok(st, InputEvent::Right),
    ensures
        apply_event_spec(st, InputEvent::Up) == (AnimationState {
            a_speed: (st.a_speed + SPEED_STEP) as i64,
            ..st
        }),
        apply_event_spec(st, InputEvent::Down) == (AnimationState {
            a_speed: (st.a_speed - SPEED_STEP) as i64,
            ..st
        }),
        apply_event_spec(st, InputEvent::Right) == (AnimationState {
            b_speed: (st.b_speed + SPEED_STEP) as i64,
            ..st
        }),
        apply_event_spec(st, InputEvent::Left) == (AnimationState {
            b_speed: (st.b_speed - SPEED_STEP) as i64,
            ..st
        }),
        apply_event_spec(st, InputEvent::Reset).a_speed == DEFAULT_TILT_SPEED,
        apply_event_spec(st, InputEvent::Reset).b_speed == DEFAULT_SPIN_SPEED,
        apply_event_spec(st, InputEvent::Start) == apply_event_spec(st, InputEvent::Reset),
        apply_event_spec(st, InputEvent::Pause).a_speed == 0,
        apply_event_spec(st, InputEvent::Pause).b_speed == 0,
        apply_event_spec(st, InputEvent::Other) == st,
{
}

} // verus!
