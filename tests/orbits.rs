use std::cmp::Ordering;

use orbits::angle::AngleBranch;
use orbits::calendar::{days_in_month, days_in_year, month_and_day};
use orbits::error::OrbitError;
use orbits::kepler::{kepler_iterate, MAX_KEPLER_ITERATIONS};
use orbits::orbit_type::{KeplerForm, OrbitType};
use orbits::text::underline;

fn classify(e: f64) -> OrbitType {
    OrbitType::new(e.partial_cmp(&0.0), e.partial_cmp(&1.0))
}

fn cross(a: [f64; 3], b: [f64; 3]) -> [f64; 3] {
    [
        a[1] * b[2] - a[2] * b[1],
        a[2] * b[0] - a[0] * b[2],
        a[0] * b[1] - a[1] * b[0],
    ]
}

fn norm(a: [f64; 3]) -> f64 {
    (a[0] * a[0] + a[1] * a[1] + a[2] * a[2]).sqrt()
}

#[test]
fn classify_zero_is_circular() {
    assert_eq!(classify(0.0), OrbitType::Circular);
}

#[test]
fn classify_half_is_elliptic() {
    assert_eq!(classify(0.5), OrbitType::Elliptic);
}

#[test]
fn classify_one_is_parabolic() {
    assert_eq!(classify(1.0), OrbitType::Parabolic);
}

#[test]
fn classify_one_and_a_half_is_hyperbolic() {
    assert_eq!(classify(1.5), OrbitType::Hyperbolic);
}

#[test]
fn classify_boundaries_are_exact() {
    assert_eq!(classify(1e-300), OrbitType::Elliptic);
    assert_eq!(classify(1.0 - f64::EPSILON), OrbitType::Elliptic);
    assert_eq!(classify(1.0 + f64::EPSILON), OrbitType::Hyperbolic);
}

#[test]
fn classify_incomparable_is_hyperbolic() {
    assert_eq!(classify(f64::NAN), OrbitType::Hyperbolic);
    assert_eq!(classify(-0.5), OrbitType::Hyperbolic);
}

#[test]
fn earth_state_is_elliptic_with_earth_elements() {
    let mu = 1.328905188132376e11;
    let r = [-1.491581119145494e8, -5.727627782875820e6, -5.679400441655191e3];
    let v = [8.635360877981350e-1, -2.985696666561909e1, 1.972889032860081e-3];
    let h = cross(r, v);
    let vxh = cross(v, h);
    let rn = norm(r);
    let e_vec = [
        vxh[0] / mu - r[0] / rn,
        vxh[1] / mu - r[1] / rn,
        vxh[2] / mu - r[2] / rn,
    ];
    let e = norm(e_vec);
    let a = norm(h).powi(2) / (mu * (1.0 - e * e));
    assert_eq!(classify(e), OrbitType::Elliptic);
    assert!((e - 0.0167).abs() < 1e-2);
    assert!((a - 1.496e8).abs() / 1.496e8 < 1e-3);
}

#[test]
fn kepler_forms_by_orbit_type() {
    assert_eq!(OrbitType::Elliptic.kepler_form(), Ok(KeplerForm::Elliptic));
    assert_eq!(OrbitType::Hyperbolic.kepler_form(), Ok(KeplerForm::Hyperbolic));
}

#[test]
fn circular_orbit_refuses_kepler() {
    let orbit = classify(0.0);
    assert_eq!(
        orbit.kepler_form(),
        Err(OrbitError::InvalidOrbitOperation { orbit: OrbitType::Circular })
    );
}

#[test]
fn parabolic_orbit_refuses_kepler() {
    assert_eq!(
        OrbitType::Parabolic.kepler_form(),
        Err(OrbitError::InvalidOrbitOperation { orbit: OrbitType::Parabolic })
    );
}

#[test]
fn elliptic_kepler_solution_satisfies_equation() {
    let e = 0.3_f64;
    let m = std::f64::consts::PI / 3.0;
    let step = |x: f64| x - (x - e * x.sin() - m) / (1.0 - e * x.cos());
    let converged = |a: f64, b: f64| (b - a).abs() <= 1e-12;
    let big_e = kepler_iterate(0.0, step, converged).unwrap();
    assert!((big_e - e * big_e.sin() - m).abs() <= 1e-12);
}

#[test]
fn hyperbolic_kepler_solution_satisfies_equation() {
    let e = 1.5_f64;
    let n = 1.0_f64;
    let step = |f: f64| f - (e * f.sinh() - n - f) / (e * f.cosh() - 1.0);
    let converged = |a: f64, b: f64| a == b || (b - a).abs() <= 1e-12;
    let big_f = kepler_iterate(n, step, converged).unwrap();
    assert!((e * big_f.sinh() - big_f - n).abs() <= 1e-12);
}

#[test]
fn oscillating_iteration_reports_non_convergence() {
    let r = kepler_iterate(1.0_f64, |x: f64| -x, |a: f64, b: f64| (b - a).abs() <= 1e-12);
    assert_eq!(r, Err(OrbitError::NonConvergence));
}

#[test]
fn convergence_on_the_last_allowed_step_succeeds() {
    let cap = MAX_KEPLER_ITERATIONS as u64;
    let r = kepler_iterate(0_u64, |x: u64| x + 1, |_a: u64, b: u64| b >= cap);
    assert_eq!(r, Ok(cap));
}

#[test]
fn convergence_one_step_past_the_budget_fails() {
    let cap = MAX_KEPLER_ITERATIONS as u64;
    let r = kepler_iterate(0_u64, |x: u64| x + 1, |_a: u64, b: u64| b > cap);
    assert_eq!(r, Err(OrbitError::NonConvergence));
}

#[test]
fn first_step_convergence_returns_the_step() {
    let r = kepler_iterate(3_u64, |_x: u64| 7, |_a: u64, _b: u64| true);
    assert_eq!(r, Ok(7));
}

#[test]
fn angle_branch_follows_sign() {
    assert_eq!(AngleBranch::from_sign((-0.1_f64).partial_cmp(&0.0)), AngleBranch::Reflected);
    assert_eq!(AngleBranch::from_sign(0.0_f64.partial_cmp(&0.0)), AngleBranch::Principal);
    assert_eq!(AngleBranch::from_sign(0.1_f64.partial_cmp(&0.0)), AngleBranch::Principal);
    assert_eq!(AngleBranch::from_sign(f64::NAN.partial_cmp(&0.0)), AngleBranch::Principal);
    assert_eq!(AngleBranch::from_sign(Some(Ordering::Less)), AngleBranch::Reflected);
}

#[test]
fn underline_heading() {
    assert_eq!(underline("Problem 8"), "Problem 8\n---------");
}

#[test]
fn underline_empty() {
    assert_eq!(underline(""), "\n");
}

#[test]
fn underline_counts_bytes() {
    assert_eq!(underline("é"), "é\n--");
}

#[test]
fn error_messages() {
    assert_eq!(
        OrbitError::InvalidOrbitOperation { orbit: OrbitType::Circular }.message(),
        "cannot use Kepler's equation with a circular orbit"
    );
    assert_eq!(
        OrbitError::InvalidOrbitOperation { orbit: OrbitType::Parabolic }.message(),
        "cannot use Kepler's equation with a parabolic orbit"
    );
    assert_eq!(
        OrbitError::InvalidOrbitOperation { orbit: OrbitType::Elliptic }.message(),
        "Kepler's equation does not apply to this orbit"
    );
    assert_eq!(
        OrbitError::NonConvergence.message(),
        "Kepler's equation did not converge within the iteration budget"
    );
    assert_eq!(
        OrbitError::DegenerateGeometry.message(),
        "a reference vector has zero length, so the angle is undefined"
    );
}

#[test]
fn first_day_of_year_is_january_first() {
    assert_eq!(month_and_day(1, false), (1, 1));
    assert_eq!(month_and_day(1, true), (1, 1));
}

#[test]
fn end_of_february() {
    assert_eq!(month_and_day(59, false), (2, 28));
    assert_eq!(month_and_day(60, false), (3, 1));
    assert_eq!(month_and_day(60, true), (2, 29));
    assert_eq!(month_and_day(61, true), (3, 1));
}

#[test]
fn last_day_of_year_is_december_thirty_first() {
    assert_eq!(month_and_day(365, false), (12, 31));
    assert_eq!(month_and_day(366, true), (12, 31));
    assert_eq!(month_and_day(335, false), (12, 1));
}

#[test]
fn month_and_year_lengths() {
    assert_eq!(days_in_year(false), 365);
    assert_eq!(days_in_year(true), 366);
    assert_eq!(days_in_month(2, false), 28);
    assert_eq!(days_in_month(2, true), 29);
    assert_eq!(days_in_month(4, false), 30);
    assert_eq!(days_in_month(12, true), 31);
    let total: u32 = (1..=12).map(|m| days_in_month(m, false)).sum();
    assert_eq!(total, 365);
}
