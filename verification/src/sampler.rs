//! Geometry sampler: enumerates the surface sample grid.
//!
//! The torus surface is sampled over two angular parameters. The outer angle
//! advances in steps of 0.07 rad and the inner angle in steps of 0.02 rad,
//! each from 0 up to but excluding 2 pi, which gives `THETA_STEPS` and
//! `PHI_STEPS` samples respectively. The sampler itself works on step
//! indices; the caller turns an index pair into the actual angles.

use vstd::prelude::*;

verus! {

/// Number of 0.07 rad steps that lie strictly below 2 pi.
pub const THETA_STEPS: usize = 90;

/// Number of 0.02 rad steps that lie strictly below 2 pi.
pub const PHI_STEPS: usize = 315;

/// Every sample index pair, outer-angle-major and inner-angle-minor, in the
/// deterministic order used for every frame.
pub fn sample_indices() -> (v: Vec<(usize, usize)>)
    ensures
        v@.len() == THETA_STEPS * PHI_STEPS,
        forall|i: int, j: int|
            0 <= i < THETA_STEPS && 0 <= j < PHI_STEPS
                ==> #[trigger] v@[i * PHI_STEPS + j] == ((i as usize, j as usize)),
{
    let mut v: Vec<(usize, usize)> = Vec::new();
    let mut i: usize = 0;
    while i < THETA_STEPS
        invariant
            i <= THETA_STEPS,
            v@.len() == i * PHI_STEPS,
            forall|a: int, b: int|
                0 <= a < THETA_STEPS && 0 <= b < PHI_STEPS && a * PHI_STEPS + b < v@.len()
                    ==> #[trigger] v@[a * PHI_STEPS + b] == ((a as usize, b as usize)),
        decreases THETA_STEPS - i,
    {
        let mut j: usize = 0;
        while j < PHI_STEPS
            invariant
                i < THETA_STEPS,
                j <= PHI_STEPS,
                v@.len() == i * PHI_STEPS + j,
                forall|a: int, b: int|
                    0 <= a < THETA_STEPS && 0 <= b < PHI_STEPS && a * PHI_STEPS + b < v@.len()
                        ==> #[trigger] v@[a * PHI_STEPS + b] == ((a as usize, b as usize)),
            decreases PHI_STEPS - j,
        {
            v.push((i, j));
            j = j + 1;
        }
        i = i + 1;
    }
    v
}

} // verus!
