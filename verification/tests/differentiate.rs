use calc::differentiate::{
    central_difference, d2f, df, divergence, gradient, partial_df, second_difference,
};
use calc::vector::Vector;

fn square(x: f64) -> f64 {
    x * x
}

fn cube(x: f64) -> f64 {
    x * x * x
}

fn fourth(x: f64) -> f64 {
    x * x * x * x
}

fn sum_of_squares(p: &Vector<f64>) -> f64 {
    p.get(0) * p.get(0) + p.get(1) * p.get(1) + p.get(2) * p.get(2)
}

#[test]
fn central_difference_is_exact_on_representable_samples() {
    assert_eq!(central_difference(9.0_f64, 1.0, 2.0), 2.0);
    assert_eq!(central_difference(12.25_f64, 6.25, 0.5), 6.0);
    assert_eq!(central_difference(1.0_f64, 9.0, 2.0), -2.0);
}

#[test]
fn central_difference_works_on_integers() {
    assert_eq!(central_difference(9_i64, 1, 2), 2);
    assert_eq!(central_difference(25_i64, 9, 1), 8);
}

#[test]
fn second_difference_is_exact_on_representable_samples() {
    assert_eq!(second_difference(2.25_f64, 1.0, 0.25, 0.5), 2.0);
    assert_eq!(second_difference(9_i64, 4, 1, 1), 2);
}

#[test]
fn df_matches_the_formula_bit_for_bit() {
    let x = 1.3_f64;
    let h = 1e-5_f64;
    let expected = (square(x + h) - square(x - h)) / (2.0 * h);
    assert_eq!(df(&square, x, h).to_bits(), expected.to_bits());
}

#[test]
fn df_of_square_at_three_with_half_step_is_six() {
    assert_eq!(df(&square, 3.0, 0.5), 6.0);
}

#[test]
fn df_of_powers_approaches_the_analytic_derivative() {
    let h = 1e-5;
    assert!((df(&square, 1.5, h) - 3.0).abs() < 1e-8);
    assert!((df(&cube, 1.5, h) - 6.75).abs() < 1e-8);
    assert!((df(&fourth, 1.5, h) - 13.5).abs() < 1e-7);
}

#[test]
fn df_error_falls_fourfold_when_the_step_is_halved() {
    let exact = 3.0;
    let coarse = (df(&cube, 1.0, 1e-2) - exact).abs();
    let fine = (df(&cube, 1.0, 5e-3) - exact).abs();
    let ratio = coarse / fine;
    assert!(ratio > 3.9 && ratio < 4.1, "ratio was {}", ratio);

    let exact = 4.0;
    let coarse = (df(&fourth, 1.0, 1e-2) - exact).abs();
    let fine = (df(&fourth, 1.0, 5e-3) - exact).abs();
    let ratio = coarse / fine;
    assert!(ratio > 3.9 && ratio < 4.1, "ratio was {}", ratio);
}

#[test]
fn d2f_matches_the_formula_bit_for_bit() {
    let x = 0.7_f64;
    let h = 1e-3_f64;
    let expected = (cube(x + h) - 2.0 * cube(x) + cube(x - h)) / (h * h);
    assert_eq!(d2f(&cube, x, h).to_bits(), expected.to_bits());
}

#[test]
fn d2f_of_square_is_two_for_any_step() {
    assert_eq!(d2f(&square, 1.0, 0.5), 2.0);
    assert_eq!(d2f(&square, 3.0, 0.25), 2.0);
    for h in [1.0, 0.1, 1e-2, 1e-3] {
        for x in [-4.0, 0.0, 0.3, 2.0, 10.0] {
            let d = d2f(&square, x, h);
            assert!((d - 2.0).abs() < 1e-6, "x = {}, h = {}, got {}", x, h, d);
        }
    }
}

#[test]
fn partial_df_differentiates_along_one_axis() {
    let p = Vector::new(&[1.0, 2.0, 3.0]);
    let h = 1e-5;
    assert!((partial_df(&sum_of_squares, &p, 0, h) - 2.0).abs() < 1e-6);
    assert!((partial_df(&sum_of_squares, &p, 1, h) - 4.0).abs() < 1e-6);
    assert!((partial_df(&sum_of_squares, &p, 2, h) - 6.0).abs() < 1e-6);
}

#[test]
fn partial_df_matches_the_formula_bit_for_bit() {
    let f = |p: &Vector<f64>| p.get(0) * p.get(1) * p.get(1);
    let p = Vector::new(&[1.5, 2.5]);
    let h = 1e-4_f64;
    let above = 1.5 * (2.5 + h) * (2.5 + h);
    let below = 1.5 * (2.5 - h) * (2.5 - h);
    let expected = (above - below) / (2.0 * h);
    assert_eq!(partial_df(&f, &p, 1, h).to_bits(), expected.to_bits());
}

#[test]
fn partial_df_leaves_the_point_as_it_was() {
    let p: Vector<f64> = Vector::new(&[1.0, 2.0, 3.0]);
    let before = [p.get(0).to_bits(), p.get(1).to_bits(), p.get(2).to_bits()];
    for axis in 0..3 {
        partial_df(&sum_of_squares, &p, axis, 1e-5);
    }
    let after = [p.get(0).to_bits(), p.get(1).to_bits(), p.get(2).to_bits()];
    assert_eq!(before, after);
    assert_eq!(p.length(), 3);
}

#[test]
fn gradient_of_sum_of_squares() {
    let p = Vector::new(&[1.0, 2.0, 3.0]);
    let g = gradient(&sum_of_squares, &p, 1e-5);
    assert_eq!(g.length(), 3);
    assert!((g.get(0) - 2.0).abs() < 1e-3);
    assert!((g.get(1) - 4.0).abs() < 1e-3);
    assert!((g.get(2) - 6.0).abs() < 1e-3);
}

#[test]
fn gradient_holds_the_partial_derivatives_in_order() {
    let p = Vector::new(&[0.5, -1.25, 4.0]);
    let h = 1e-4;
    let g = gradient(&sum_of_squares, &p, h);
    for axis in 0..3 {
        let d = partial_df(&sum_of_squares, &p, axis, h);
        assert_eq!(g.get(axis).to_bits(), d.to_bits());
    }
}

#[test]
fn gradient_of_a_point_without_coordinates_is_empty() {
    let f = |_p: &Vector<f64>| 1.0;
    let p: Vector<f64> = Vector::new(&[]);
    assert_eq!(gradient(&f, &p, 1e-5).length(), 0);
}

#[test]
fn divergence_is_the_sum_of_the_gradient() {
    let p = Vector::new(&[1.0, 2.0, 3.0]);
    let h = 1e-5;
    let g = gradient(&sum_of_squares, &p, h);
    let expected = 0.0 + g.get(0) + g.get(1) + g.get(2);
    let d = divergence(&sum_of_squares, &p, h);
    assert_eq!(d.to_bits(), expected.to_bits());
    assert!((d - 12.0).abs() < 1e-3);
}

#[test]
fn differentiation_gives_the_same_bits_when_repeated() {
    let p = Vector::new(&[1.0, 2.0, 3.0]);
    assert_eq!(df(&cube, 0.3, 1e-6).to_bits(), df(&cube, 0.3, 1e-6).to_bits());
    assert_eq!(d2f(&cube, 0.3, 1e-4).to_bits(), d2f(&cube, 0.3, 1e-4).to_bits());
    assert_eq!(
        partial_df(&sum_of_squares, &p, 1, 1e-6).to_bits(),
        partial_df(&sum_of_squares, &p, 1, 1e-6).to_bits()
    );
    assert_eq!(
        divergence(&sum_of_squares, &p, 1e-6).to_bits(),
        divergence(&sum_of_squares, &p, 1e-6).to_bits()
    );
}

#[test]
fn central_difference_of_integer_squares_is_the_derivative() {
    for x in -6_i64..=6 {
        for h in 1_i64..=4 {
            let above = (x + h) * (x + h);
            let below = (x - h) * (x - h);
            assert_eq!(central_difference(above, below, h), 2 * x);
        }
    }
}

#[test]
fn central_difference_of_integer_cubes_is_off_by_the_squared_step() {
    for x in -6_i64..=6 {
        for h in 1_i64..=4 {
            let above = (x + h) * (x + h) * (x + h);
            let below = (x - h) * (x - h) * (x - h);
            assert_eq!(central_difference(above, below, h), 3 * x * x + h * h);
        }
    }
}

#[test]
fn second_difference_of_integer_squares_is_two() {
    for x in -6_i64..=6 {
        for h in 1_i64..=4 {
            let above = (x + h) * (x + h);
            let below = (x - h) * (x - h);
            assert_eq!(second_difference(above, x * x, below, h), 2);
        }
    }
}

#[test]
fn derivatives_of_integer_functions() {
    let square = |x: i64| x * x;
    let cube = |x: i64| x * x * x;
    assert_eq!(df(&square, 7, 3), 14);
    assert_eq!(df(&cube, 2, 1), 13);
    assert_eq!(d2f(&square, -4, 5), 2);
    assert_eq!(d2f(&cube, 2, 1), 12);
}

#[test]
fn d2f_of_square_is_exactly_two_on_representable_samples() {
    let mut h = 1.0 / 1024.0;
    while h <= 1024.0 {
        for x in [-1024.0, -517.0, -3.0, 0.0, 1.0, 2.0, 100.0, 1023.0, 1024.0] {
            assert_eq!(d2f(&square, x, h), 2.0, "x = {}, h = {}", x, h);
        }
        h *= 2.0;
    }
}

#[test]
fn df_has_no_truncation_error_up_to_the_second_power() {
    let line = |x: f64| x;
    let mut h = 1.0 / 1024.0;
    while h <= 1024.0 {
        for x in [-1024.0, -517.0, -3.0, 0.0, 1.0, 2.0, 100.0, 1023.0, 1024.0] {
            assert_eq!(df(&line, x, h), 1.0, "x = {}, h = {}", x, h);
            assert_eq!(df(&square, x, h), 2.0 * x, "x = {}, h = {}", x, h);
        }
        h *= 2.0;
    }
}

#[test]
fn differences_call_the_function_a_fixed_number_of_times() {
    let calls = std::cell::RefCell::new(Vec::new());
    let recorded = |x: f64| {
        calls.borrow_mut().push(x);
        x * x
    };
    df(&recorded, 3.0, 0.5);
    assert_eq!(*calls.borrow(), vec![3.5, 2.5]);
    calls.borrow_mut().clear();
    d2f(&recorded, 3.0, 0.5);
    assert_eq!(*calls.borrow(), vec![3.5, 3.0, 2.5]);
}

#[test]
fn gradient_calls_the_function_twice_for_each_coordinate() {
    let calls = std::cell::Cell::new(0_usize);
    let counted = |p: &Vector<f64>| {
        calls.set(calls.get() + 1);
        p.get(0) + p.get(1) + p.get(2) + p.get(3)
    };
    let p = Vector::new(&[1.0, 2.0, 3.0, 4.0]);
    gradient(&counted, &p, 1e-3);
    assert_eq!(calls.get(), 8);
    calls.set(0);
    partial_df(&counted, &p, 2, 1e-3);
    assert_eq!(calls.get(), 2);
}

#[test]
fn central_difference_of_integer_powers_errs_by_a_multiple_of_the_squared_step() {
    for k in 1_u32..=7 {
        for x in -5_i64..=5 {
            for h in 1_i64..=4 {
                let estimate = central_difference((x + h).pow(k), (x - h).pow(k), h);
                let exact = (k as i64) * x.pow(k - 1);
                let error = estimate - exact;
                assert_eq!(error % (h * h), 0, "k = {}, x = {}, h = {}", k, x, h);
                if k <= 2 {
                    assert_eq!(error, 0, "k = {}, x = {}, h = {}", k, x, h);
                }
            }
        }
    }
}
