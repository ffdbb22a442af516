use calc::vector::Vector;

#[test]
fn new_keeps_the_components_in_order() {
    let v = Vector::new(&[1.5, -2.0, 0.25]);
    assert_eq!(v.length(), 3);
    assert_eq!(v.get(0), 1.5);
    assert_eq!(v.get(1), -2.0);
    assert_eq!(v.get(2), 0.25);
}

#[test]
fn new_2d_and_new_3d() {
    let v = Vector::new_2d(1.0, 2.0);
    assert_eq!(v.length(), 2);
    assert_eq!((v.get(0), v.get(1)), (1.0, 2.0));
    let w = Vector::new_3d(1.0, 2.0, 3.0);
    assert_eq!(w.length(), 3);
    assert_eq!((w.get(0), w.get(1), w.get(2)), (1.0, 2.0, 3.0));
}

#[test]
fn zeros_and_ones() {
    let z: Vector<f64> = Vector::zeros(4);
    let o: Vector<f64> = Vector::ones(3);
    assert_eq!(z.length(), 4);
    assert_eq!(o.length(), 3);
    for i in 0..4 {
        assert_eq!(z.get(i), 0.0);
    }
    for i in 0..3 {
        assert_eq!(o.get(i), 1.0);
    }
    let none: Vector<f64> = Vector::zeros(0);
    assert_eq!(none.length(), 0);
}

#[test]
fn filled_repeats_the_value() {
    let v = Vector::filled(3, 2.5);
    assert_eq!(v.length(), 3);
    for i in 0..3 {
        assert_eq!(v.get(i), 2.5);
    }
}

#[test]
fn set_changes_one_component() {
    let mut v = Vector::new(&[1.0, 2.0, 3.0]);
    v.set(1, 9.0);
    assert_eq!(v.length(), 3);
    assert_eq!((v.get(0), v.get(1), v.get(2)), (1.0, 9.0, 3.0));
}

#[test]
fn copy_is_independent_of_the_source() {
    let v = Vector::new(&[1.0, 2.0]);
    let mut w = v.copy();
    w.set(0, 5.0);
    assert_eq!(v.get(0), 1.0);
    assert_eq!(w.get(0), 5.0);
    assert_eq!(w.get(1), 2.0);
}

#[test]
fn sum_adds_from_the_first_component() {
    let v = Vector::new(&[1.0, 2.0, 3.5]);
    assert_eq!(v.sum(), 6.5);
    let tiny: Vector<f64> = Vector::new(&[1e16, 1.0, -1e16]);
    assert_eq!(tiny.sum().to_bits(), (((0.0 + 1e16) + 1.0) - 1e16_f64).to_bits());
    let none: Vector<f64> = Vector::new(&[]);
    assert_eq!(none.sum(), 0.0);
}

#[test]
fn vectors_hold_integers_too() {
    let v = Vector::new(&[3_i64, 4, 5]);
    assert_eq!(v.sum(), 12);
}

#[test]
fn clone_is_independent_of_the_source() {
    let v = Vector::new(&[1.0, 2.0]);
    let mut w = v.clone();
    w.set(1, 8.0);
    assert_eq!(w.length(), 2);
    assert_eq!((v.get(0), v.get(1)), (1.0, 2.0));
    assert_eq!((w.get(0), w.get(1)), (1.0, 8.0));
}
