use calc::scalar::{absolute, close, number, tolerance};
use calc::solver::{brent, narrow, newton, newton_update, opposite_signs, secant};

fn shifted_square(x: f64) -> f64 {
    x * x - 3.0
}

const ROOT_OF_THREE: f64 = 1.7320508075688772;

#[test]
fn tolerance_is_one_millionth() {
    assert_eq!(tolerance::<f64>().to_bits(), 1e-6_f64.to_bits());
}

#[test]
fn number_converts_counts() {
    assert_eq!(number::<f64>(0), 0.0);
    assert_eq!(number::<f64>(2), 2.0);
    assert_eq!(number::<f64>(1_000_000), 1e6);
    assert_eq!(number::<i64>(-7), -7);
}

#[test]
fn absolute_folds_negative_values() {
    assert_eq!(absolute(-2.5_f64), 2.5);
    assert_eq!(absolute(2.5_f64), 2.5);
    assert_eq!(absolute(0.0_f64), 0.0);
    assert!(absolute(f64::NAN).is_nan());
    assert_eq!(absolute(f64::NEG_INFINITY), f64::INFINITY);
}

#[test]
fn close_compares_with_the_tolerance() {
    assert!(close(1.0_f64, 1.0));
    assert!(close(1.0_f64, 1.0000005));
    assert!(close(1.0000005_f64, 1.0));
    assert!(!close(1.0_f64, 1.00001));
    assert!(!close(1.00001_f64, 1.0));
    assert!(!close(f64::NAN, 1.0));
    assert!(!close(f64::INFINITY, f64::INFINITY));
}

#[test]
fn newton_update_subtracts_value_over_slope() {
    assert_eq!(newton_update(1.0_f64, -2.0, 2.0), 2.0);
    assert_eq!(newton_update(2.0_f64, 1.0, 4.0), 1.75);
    assert_eq!(newton_update(10_i64, 6, 3), 8);
}

#[test]
fn secant_update_on_representable_values() {
    // 1 - (3 - 1) / (6 - (-2)) * (-2) = 1.5
    assert_eq!(secant(1.0_f64, 3.0, -2.0, 6.0), 1.5);
    // 2 - (4 - 2) / (5 - 1) * 1 = 1.5
    assert_eq!(secant(2.0_f64, 4.0, 1.0, 5.0), 1.5);
}

#[test]
fn secant_with_equal_values_is_not_finite() {
    assert!(!secant(1.0_f64, 2.0, 3.0, 3.0).is_finite());
}

#[test]
fn opposite_signs_needs_a_strictly_negative_product() {
    assert!(opposite_signs(-1.0_f64, 2.0));
    assert!(opposite_signs(3.0_f64, -0.5));
    assert!(!opposite_signs(1.0_f64, 2.0));
    assert!(!opposite_signs(-1.0_f64, -2.0));
    assert!(!opposite_signs(0.0_f64, -2.0));
    assert!(!opposite_signs(f64::NAN, -2.0));
}

#[test]
fn narrow_replaces_one_abscissa() {
    assert_eq!(narrow(1.0_f64, 2.0, 1.5, true), (1.0, 1.5));
    assert_eq!(narrow(1.0_f64, 2.0, 1.5, false), (1.5, 2.0));
}

#[test]
fn newton_finds_the_root_of_three() {
    let root = newton(&shifted_square, 1.0, 100);
    assert!((root - ROOT_OF_THREE).abs() < 1e-5, "got {}", root);
}

#[test]
fn newton_without_iterations_returns_the_guess() {
    assert_eq!(newton(&shifted_square, 1.0, 0), 1.0);
}

#[test]
fn newton_with_one_iteration_returns_the_first_update() {
    let x0 = 1.0_f64;
    let tol = 1e-6_f64;
    let slope = (shifted_square(x0 + tol) - shifted_square(x0 - tol)) / (2.0 * tol);
    let expected = x0 - shifted_square(x0) / slope;
    assert_eq!(newton(&shifted_square, x0, 1).to_bits(), expected.to_bits());
}

#[test]
fn newton_returns_the_update_that_met_the_tolerance() {
    // From a guess at the root of a linear function the first update moves
    // by less than the tolerance and is the result, however many iterations
    // are allowed.
    let line = |x: f64| 2.0 * x - 1.0;
    let one = newton(&line, 0.5, 1);
    let many = newton(&line, 0.5, 50);
    assert_eq!(one.to_bits(), many.to_bits());
    assert!((many - 0.5).abs() <= 1e-6);
}

#[test]
fn newton_stops_at_the_cap() {
    // Two updates from 10 have not converged yet.
    let two = newton(&shifted_square, 10.0, 2);
    assert!((two - ROOT_OF_THREE).abs() > 0.5);
    let three = newton(&shifted_square, 10.0, 3);
    assert!((three - ROOT_OF_THREE).abs() < (two - ROOT_OF_THREE).abs());
}

#[test]
fn newton_passes_on_a_vanishing_slope() {
    let flat = |_x: f64| 1.0;
    assert!(!newton(&flat, 0.0, 5).is_finite());
}

#[test]
fn brent_finds_the_root_of_three() {
    let root = brent(&shifted_square, 1.0, 2.0, 100);
    assert!((root - ROOT_OF_THREE).abs() < 1e-5, "got {}", root);
}

#[test]
fn brent_without_iterations_returns_the_first_abscissa() {
    assert_eq!(brent(&shifted_square, 1.0, 2.0, 0), 1.0);
}

#[test]
fn brent_on_a_closed_pair_returns_the_first_abscissa() {
    assert_eq!(brent(&shifted_square, 1.0, 1.0000001, 100), 1.0);
}

#[test]
fn brent_first_step_follows_the_sign_rule() {
    // f(1) = -2, f(2) = 1: the secant point is 1 + 2/3, where f is negative
    // like f(1), so it replaces the first abscissa.
    let xi = 1.0 - (2.0 - 1.0) / (1.0 - (-2.0)) * (-2.0_f64);
    assert_eq!(brent(&shifted_square, 1.0, 2.0, 1).to_bits(), xi.to_bits());
    // f(3) = 6, f(1) = -2: the secant point is 1.5, where f changes sign
    // against f(3), so it replaces the second abscissa and the first stays.
    assert_eq!(brent(&shifted_square, 3.0, 1.0, 1), 3.0);
}

#[test]
fn brent_passes_on_a_vanishing_denominator() {
    let even = |x: f64| x * x;
    assert!(brent(&even, -1.0, 1.0, 3).is_nan());
}

#[test]
fn solvers_give_the_same_bits_when_repeated() {
    assert_eq!(
        newton(&shifted_square, 1.0, 100).to_bits(),
        newton(&shifted_square, 1.0, 100).to_bits()
    );
    assert_eq!(
        brent(&shifted_square, 1.0, 2.0, 100).to_bits(),
        brent(&shifted_square, 1.0, 2.0, 100).to_bits()
    );
}

#[test]
fn brent_on_integers_takes_the_secant_point() {
    let line = |x: i64| x - 5;
    assert_eq!(brent(&line, 0, 10, 1), 5);
    assert_eq!(brent(&line, 4, 4, 7), 4);
    assert_eq!(brent(&line, 0, 10, 0), 0);
}
