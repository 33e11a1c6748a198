use dual_num::Dual;
use num::Zero;
use num::One;

#[test]
fn new_round_trips_both_parts() {
    let cases: [(f64, f64); 5] =
        [(3.0, 4.0), (-1.5, 0.0), (0.0, -0.0), (f64::INFINITY, f64::MIN), (1e-310, f64::MAX)];
    for (r, d) in cases {
        let x = Dual::new(r, d);
        assert_eq!(x.real_part().to_bits(), r.to_bits());
        assert_eq!(x.derivative().to_bits(), d.to_bits());
    }
}

#[test]
fn new_round_trips_a_nan() {
    let x = Dual::new(f32::NAN, f32::NEG_INFINITY);
    assert!(x.real_part().is_nan());
    assert_eq!(x.derivative(), f32::NEG_INFINITY);
}

#[test]
fn seed_variable_has_derivative_one() {
    let x: Dual<f64> = Dual::seed_variable(2.5);
    assert_eq!(x.real_part(), 2.5);
    assert_eq!(x.derivative(), 1.0);
}

#[test]
fn constant_has_derivative_zero() {
    let x: Dual<f64> = Dual::constant(2.5);
    assert_eq!(x.real_part(), 2.5);
    assert_eq!(x.derivative(), 0.0);
}

#[test]
fn zero_has_both_parts_zero() {
    let z: Dual<f64> = Dual::zero();
    assert_eq!(z, Dual::new(0.0, 0.0));
    assert!(z.real_part().is_sign_positive());
    assert!(z.derivative().is_sign_positive());
}

#[test]
fn one_has_both_parts_one() {
    let u: Dual<f32> = Dual::one();
    assert_eq!(u, Dual::new(1.0, 1.0));
    assert!(u != Dual::constant(1.0));
}

#[test]
fn is_zero_tests_both_parts() {
    assert!(Dual::<f64>::zero().is_zero());
    assert!(Dual::new(0.0, 0.0).is_zero());
    assert!(Dual::new(-0.0, 0.0).is_zero());
    assert!(!Dual::new(0.0, 1.0).is_zero());
    assert!(!Dual::new(1.0, 0.0).is_zero());
    assert!(!Dual::new(1.0, 1.0).is_zero());
    assert!(!Dual::new(f64::NAN, 0.0).is_zero());
}

#[test]
fn a_copy_has_the_same_parts() {
    let x: Dual<f64> = Dual::new(3.0, 4.0);
    let y = x;
    let z = x.clone();
    assert_eq!(x, y);
    assert_eq!(x, z);
}

#[test]
fn equality_is_exact_in_both_parts() {
    let x: Dual<f64> = Dual::new(0.1 + 0.2, 1.0);
    assert!(x != Dual::new(0.3, 1.0));
    assert!(x == Dual::new(0.30000000000000004, 1.0));
    assert!(Dual::new(1.0, 2.0) != Dual::new(1.0, 2.0000000000000004));
}

#[test]
fn debug_form_names_both_parts() {
    let x: Dual<f64> = Dual::new(3.0, 4.5);
    assert_eq!(format!("{:?}", x), "Dual { real: 3.0, dual: 4.5 }");
}
