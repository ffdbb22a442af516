use calc::uncertainty::{minmax, standard, variance};
use calc::vector::Vector;

fn powers(x: &Vector<f64>) -> f64 {
    x.get(0).powi(2) * x.get(1).powi(3) * x.get(2).powi(5)
}

fn plane(x: &Vector<f64>) -> f64 {
    2.0 * x.get(0) - 3.0 * x.get(1)
}

fn sqrt(x: f64) -> f64 {
    x.sqrt()
}

#[test]
fn standard_matches_the_analytic_propagation() {
    let point = Vector::new(&[1.0, 2.0, 3.0]);
    let err = Vector::new(&[0.01, 0.2, 0.08]);
    let (x, y, z) = (1.0_f64, 2.0_f64, 3.0_f64);
    let dx = 2.0 * x * y.powi(3) * z.powi(5);
    let dy = 3.0 * x.powi(2) * y.powi(2) * z.powi(5);
    let dz = 5.0 * x.powi(2) * y.powi(3) * z.powi(4);
    let expected = ((dx * 0.01).powi(2) + (dy * 0.2).powi(2) + (dz * 0.08).powi(2)).sqrt();
    let got = standard(&powers, &point, &err, &sqrt);
    assert!(((got - expected) / expected).abs() < 1e-2, "got {}, expected {}", got, expected);
}

#[test]
fn standard_is_the_root_of_the_variance() {
    let point = Vector::new(&[1.0, 2.0, 3.0]);
    let err = Vector::new(&[0.01, 0.2, 0.08]);
    let v = variance(&powers, &point, &err);
    let s = standard(&powers, &point, &err, &sqrt);
    assert_eq!(s.to_bits(), v.sqrt().to_bits());
}

#[test]
fn variance_of_a_plane() {
    let point = Vector::new(&[0.5, 1.5]);
    let err = Vector::new(&[0.1, 0.2]);
    // (2 * 0.1)^2 + (3 * 0.2)^2 = 0.4
    let v = variance(&plane, &point, &err);
    assert!((v - 0.4).abs() < 1e-6, "got {}", v);
}

#[test]
fn variance_uses_a_step_of_one_hundred_thousandth() {
    let f = |x: &Vector<f64>| x.get(0) * x.get(0) * x.get(0);
    let point = Vector::new(&[1.0]);
    let err = Vector::new(&[1.0]);
    let h = 1e-5_f64;
    let slope = ((1.0 + h) * (1.0 + h) * (1.0 + h) - (1.0 - h) * (1.0 - h) * (1.0 - h)) / (2.0 * h);
    let expected = 0.0 + (slope * 1.0) * (slope * 1.0);
    assert_eq!(variance(&f, &point, &err).to_bits(), expected.to_bits());
}

#[test]
fn minmax_adds_the_absolute_terms() {
    let point = Vector::new(&[0.5, 1.5]);
    let err = Vector::new(&[0.1, 0.2]);
    // |2| * 0.1 + |-3| * 0.2 = 0.8
    let m = minmax(&plane, &point, &err);
    assert!((m - 0.8).abs() < 1e-6, "got {}", m);
}

#[test]
fn minmax_is_at_least_the_standard_uncertainty() {
    let point = Vector::new(&[1.0, 2.0, 3.0]);
    let err = Vector::new(&[0.01, 0.2, 0.08]);
    let s = standard(&powers, &point, &err, &sqrt);
    let m = minmax(&powers, &point, &err);
    assert!(m >= s);
}

#[test]
fn propagation_without_variables_is_zero() {
    let f = |_x: &Vector<f64>| 4.0;
    let point: Vector<f64> = Vector::new(&[]);
    let err: Vector<f64> = Vector::new(&[]);
    assert_eq!(variance(&f, &point, &err), 0.0);
    assert_eq!(standard(&f, &point, &err, &sqrt), 0.0);
    assert_eq!(minmax(&f, &point, &err), 0.0);
}

#[test]
fn propagation_gives_the_same_bits_when_repeated() {
    let point = Vector::new(&[1.0, 2.0, 3.0]);
    let err = Vector::new(&[0.01, 0.2, 0.08]);
    assert_eq!(
        standard(&powers, &point, &err, &sqrt).to_bits(),
        standard(&powers, &point, &err, &sqrt).to_bits()
    );
    assert_eq!(
        minmax(&powers, &point, &err).to_bits(),
        minmax(&powers, &point, &err).to_bits()
    );
}
