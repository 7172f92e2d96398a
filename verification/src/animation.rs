//! The animation controller: draining queued commands and advancing angles.
//!
//! Each tick the controller drains every command already queued without
//! waiting for new ones, stopping early when Escape arrives; while still
//! running it then renders and advances the angles by the current speeds.

use vstd::prelude::*;

use crate::events::{AnimationState, InputEvent, Status, apply_event, apply_event_spec, apply_ok};

verus! {

/// The state after draining a queue of commands in order: each is applied in
/// turn, and a stop (Escape) abandons the commands still queued behind it.
pub open spec fn drain_spec(st: AnimationState, evs: Seq<InputEvent>) -> AnimationState
    decreases evs.len(),
{
    if evs.len() == 0 || st.status is Stopped {
        st
    } else {
        drain_spec(apply_event_spec(st, evs[0]), evs.drop_first())
    }
}

/// No intermediate speed during the drain leaves the machine range.
pub open spec fn drain_ok(st: AnimationState, evs: Seq<InputEvent>) -> bool
    decreases evs.len(),
{
    evs.len() == 0 || st.status is Stopped || (apply_ok(st, evs[0]) && drain_ok(
        apply_event_spec(st, evs[0]),
        evs.drop_first(),
    ))
}

/// A stopped machine consumes nothing: draining any queue leaves it
/// unchanged, so once Escape has been processed no later command or tick has
/// any further effect.
pub proof fn lemma_drain_stopped(st: AnimationState, evs: Seq<InputEvent>)
    requires
        st.status is Stopped,
    ensures
        drain_spec(st, evs) == st,
{
}

/// Speeds well inside the machine range and a bounded queue make a drain
/// safe: every event moves a speed by one step or sets it to a small
/// constant, so no intermediate value can leave the range.
pub proof fn lemma_drain_ok_bounded(st: AnimationState, evs: Seq<InputEvent>)
    requires
        evs.len() <= 0x1000_0000_0000_0000,
        st.a_speed + evs.len() <= i64::MAX,
        st.a_speed - evs.len() >= i64::MIN,
        st.b_speed + evs.len() <= i64::MAX,
        st.b_speed - evs.len() >= i64::MIN,
    ensures
        drain_ok(st, evs),
    decreases evs.len(),
{
    if evs.len() > 0 && !(st.status is Stopped) {
        lemma_drain_ok_bounded(apply_event_spec(st, evs[0]), evs.drop_first());
    }
}

/// Drain every queued command in order, stopping early on Escape.
pub fn drain_events(st: &mut AnimationState, events: &Vec<InputEvent>)
    requires
        drain_ok(*old(st), events@),
    ensures
        *final(st) == drain_spec(*old(st), events@),
{
    let n = events.len();
    let mut k: usize = 0;
    proof {
        assert(events@.skip(0) =~= events@);
    }
    while k < n
        invariant_except_break
            k <= n,
            n == events@.len(),
            drain_ok(*st, events@.skip(k as int)),
            drain_spec(*old(st), events@) == drain_spec(*st, events@.skip(k as int)),
        ensures
            *st == drain_spec(*old(st), events@),
        decreases n - k,
    {
        if matches!(st.status, Status::Stopped) {
            proof {
                lemma_drain_stopped(*st, events@.skip(k as int));
            }
            break ;
        }
        proof {
            assert(events@.skip(k as int)[0] == events@[k as int]);
            assert(events@.skip(k as int).drop_first() =~= events@.skip(k as int + 1));
        }
        apply_event(st, events[k]);
        k = k + 1;
    }
}

/// One advance of the rotation angles by the current speeds.
pub open spec fn advance_spec(st: AnimationState) -> AnimationState {
    AnimationState { a: (st.a + st.a_speed) as i64, b: (st.b + st.b_speed) as i64, ..st }
}

/// The advanced angles stay within the machine range.
pub open spec fn advance_ok(st: AnimationState) -> bool {
    i64::MIN <= st.a + st.a_speed <= i64::MAX && i64::MIN <= st.b + st.b_speed <= i64::MAX
}

/// Advance both angles by their speeds; called once per rendered frame,
/// after the frame was drawn with the pre-advance angles.
pub fn advance_angles(st: &mut AnimationState)
    requires
        advance_ok(*old(st)),
    ensures
        *final(st) == advance_spec(*old(st)),
{
    st.a = st.a + st.a_speed;
    st.b = st.b + st.b_speed;
}

/// The full per-tick state update: drain the queued commands, then, when
/// still running, advance the angles by the (possibly new) speeds. The tick
/// renders a frame exactly when the drained state is still running.
pub open spec fn tick_spec(st: AnimationState, evs: Seq<InputEvent>) -> AnimationState {
    let d = drain_spec(st, evs);
    if d.status is Running {
        advance_spec(d)
    } else {
        d
    }
}

/// While paused (both speeds zero) a tick with nothing queued changes
/// nothing: the angles stay put, so successive frames are rasterized from
/// identical inputs and, rasterization being deterministic, show identical
/// pixels.
pub proof fn lemma_paused_tick_is_identity(st: AnimationState, evs: Seq<InputEvent>)
    requires
        st.a_speed == 0,
        st.b_speed == 0,
        evs.len() == 0,
    ensures
        tick_spec(st, evs) == st,
{
}

} // verus!
