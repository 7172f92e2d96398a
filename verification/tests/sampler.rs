//! The geometry sampler's ordering and extent.

use ascii_torus::sampler::{sample_indices, PHI_STEPS, THETA_STEPS};

#[test]
fn sampler_covers_the_whole_grid_once() {
    let v = sample_indices();
    assert_eq!(THETA_STEPS, 90);
    assert_eq!(PHI_STEPS, 315);
    assert_eq!(v.len(), 90 * 315);
}

#[test]
fn sampler_order_is_outer_major_inner_minor() {
    let v = sample_indices();
    assert_eq!(v[0], (0, 0));
    assert_eq!(v[1], (0, 1));
    assert_eq!(v[314], (0, 314));
    assert_eq!(v[315], (1, 0));
    assert_eq!(v[90 * 315 - 1], (89, 314));
}

#[test]
fn sampler_is_restartable_and_deterministic() {
    assert_eq!(sample_indices(), sample_indices());
}

#[test]
fn sampler_steps_stay_below_a_full_turn() {
    // 0.07 * 89 and 0.02 * 314 lie below 2 pi; one more step of either
    // parameter would reach or pass it
    assert!(89.0 * 0.07 < 2.0 * std::f64::consts::PI);
    assert!(90.0 * 0.07 >= 2.0 * std::f64::consts::PI);
    assert!(314.0 * 0.02 < 2.0 * std::f64::consts::PI);
    assert!(315.0 * 0.02 >= 2.0 * std::f64::consts::PI);
}
