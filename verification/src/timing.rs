//! Frame pacing: how long to sleep after a tick's work is done.

use vstd::prelude::*;

verus! {

/// Target tick interval in milliseconds (nominal 20 frames per second).
pub const TICK_MS: u64 = 50;

/// Milliseconds left of the tick budget after `elapsed_ms` of work.
///
/// The delay is never negative: a tick that already exceeded the target
/// interval gets a zero delay, so the next tick begins immediately with no
/// catch-up or frame skipping.
pub fn remaining_delay(elapsed_ms: u64) -> (d: u64)
    ensures
        d == (if elapsed_ms >= TICK_MS { 0u64 } else { (TICK_MS - elapsed_ms) as u64 }),
        d <= TICK_MS,
        elapsed_ms + d >= TICK_MS,
{
    if elapsed_ms >= TICK_MS {
        0
    } else {
        TICK_MS - elapsed_ms
    }
}

} // verus!
