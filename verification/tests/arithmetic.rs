use dual_num::Dual;
use num::Zero;

#[test]
fn test_add_struct() {
    let x = Dual::new(3.0, 4.0);
    let y = Dual::new(2.0, 3.0);

    let z = x + y;
    assert!(z.real_part() == 5.0);
    assert!(z.derivative() == 7.0);
}

#[test]
fn test_sub() {
    let x = Dual::new(3.0, 4.0);
    let y = Dual::new(2.0, 12.0);

    let z = x - y;
    assert!(z.real_part() == 1.0);
    assert!(z.derivative() == -8.0);
}

#[test]
fn test_neg_plus() {
    let x = Dual::new(3.0, 4.0);
    let y = Dual::new(2.0, 12.0);

    let z1 = x - y;
    let z2 = x + (-y);
    assert!(z1 == z2);
}

#[test]
fn test_neg_zero() {
    let x = Dual::new(3.0, 4.0);
    let zero: Dual<f32> = Zero::zero();

    let z1 = -x;
    let z2 = zero - x;
    assert!(z1 == z2);
}

#[test]
fn test_mul() {
    let x = Dual::new(3.0, 4.0);
    let y = Dual::new(1.0, 2.0);

    let z = x * y;
    assert!(z.real_part() == 3.0);
    assert!(z.derivative() == 10.0);
}

#[test]
fn test_div() {
    let x = Dual::new(3.0, 4.0);
    let y = Dual::new(1.0, 2.0);

    let z = x / y;
    assert!(z.real_part() == 3.0);
    assert!(z.derivative() == -2.0);
}

#[test]
fn neg_negates_both_parts() {
    let x: Dual<f64> = Dual::new(3.0, -4.0);

    let z = -x;
    assert_eq!(z.real_part(), -3.0);
    assert_eq!(z.derivative(), 4.0);
}

#[test]
fn add_zero_on_the_right_gives_the_same_number() {
    let zero: Dual<f64> = Dual::zero();
    for x in [Dual::new(3.0, 4.0), Dual::new(-2.5, 0.0), Dual::new(0.0, -7.0), Dual::new(1e300, -1e-300)] {
        assert_eq!(x + zero, x);
    }
}

#[test]
fn add_zero_on_the_left_gives_the_same_number() {
    let zero: Dual<f32> = Dual::zero();
    for x in [Dual::new(3.0f32, 4.0), Dual::new(-2.5, 0.0), Dual::new(0.0, -7.0)] {
        assert_eq!(zero + x, x);
    }
}

#[test]
fn add_zero_to_a_nan_is_not_equal_to_it() {
    let zero: Dual<f64> = Dual::zero();
    let x = Dual::new(f64::NAN, 1.0);

    let z = x + zero;
    assert!(z.real_part().is_nan());
    assert_eq!(z.derivative(), 1.0);
    assert!(z != x);
}

#[test]
fn add_zero_to_the_negative_zero_changes_its_sign_bit() {
    let zero: Dual<f64> = Dual::zero();
    let x = Dual::new(-0.0, 1.0);

    let z = x + zero;
    assert_eq!(z, x);
    assert!(x.real_part().is_sign_negative());
    assert!(z.real_part().is_sign_positive());
}

#[test]
fn sub_is_add_of_the_negation() {
    let pairs = [
        (Dual::new(3.0, 4.0), Dual::new(2.0, 12.0)),
        (Dual::new(-1.5, 0.25), Dual::new(1e10, -3.0)),
        (Dual::new(0.0, 0.0), Dual::new(0.1, 0.2)),
    ];
    for (x, y) in pairs {
        assert_eq!(x - y, x + (-y));
    }
}

#[test]
fn neg_is_sub_from_zero() {
    let zero: Dual<f64> = Dual::zero();
    for x in [Dual::new(3.0, 4.0), Dual::new(-2.5, 0.5), Dual::new(0.0, 0.0)] {
        assert_eq!(-x, zero - x);
    }
}

#[test]
fn product_rule_is_exact() {
    let x: Dual<f64> = Dual::new(3.0, 4.0);
    let y = Dual::new(1.0, 2.0);

    assert_eq!(x * y, Dual::new(3.0, 10.0));
}

#[test]
fn product_rule_takes_each_derivative_with_the_other_value() {
    let x: Dual<f64> = Dual::new(2.0, 5.0);
    let y = Dual::new(7.0, 11.0);

    // 2 * 7 = 14; 2 * 11 + 5 * 7 = 57
    assert_eq!(x * y, Dual::new(14.0, 57.0));
    assert_eq!(y * x, Dual::new(14.0, 57.0));
}

#[test]
fn quotient_rule_is_exact() {
    let x: Dual<f64> = Dual::new(3.0, 4.0);
    let y = Dual::new(1.0, 2.0);

    assert_eq!(x / y, Dual::new(3.0, -2.0));
}

#[test]
fn quotient_rule_divides_by_the_square_of_the_divisor() {
    let x: Dual<f64> = Dual::new(6.0, 1.0);
    let y = Dual::new(2.0, 3.0);

    // 6 / 2 = 3; (1 * 2 - 6 * 3) / (2 * 2) = -4
    assert_eq!(x / y, Dual::new(3.0, -4.0));
}

#[test]
fn division_by_zero_gives_infinity_or_nan() {
    let x: Dual<f64> = Dual::new(1.0, 1.0);
    let y = Dual::new(0.0, 0.0);

    let z = x / y;
    assert!(z.real_part().is_infinite() || z.real_part().is_nan());
    assert!(z.derivative().is_infinite() || z.derivative().is_nan());
    // 1 / 0 is the positive infinity; (1 * 0 - 1 * 0) / (0 * 0) is 0 / 0
    assert_eq!(z.real_part(), f64::INFINITY);
    assert!(z.derivative().is_nan());
}

#[test]
fn operators_leave_their_operands_as_they_were() {
    let x: Dual<f64> = Dual::new(3.0, 4.0);
    let y = Dual::new(1.0, 2.0);

    let _ = x + y;
    let _ = x - y;
    let _ = x * y;
    let _ = x / y;
    let _ = -x;
    assert_eq!(x, Dual::new(3.0, 4.0));
    assert_eq!(y, Dual::new(1.0, 2.0));
}

#[test]
fn derivative_of_a_polynomial() {
    // f(x) = 3 x^2 - 2 x + 5 at x = 4: f = 45, f' = 6 * 4 - 2 = 22
    let x: Dual<f64> = Dual::seed_variable(4.0);
    let three = Dual::constant(3.0);
    let two = Dual::constant(2.0);
    let five = Dual::constant(5.0);

    let f = three * x * x - two * x + five;
    assert_eq!(f.real_part(), 45.0);
    assert_eq!(f.derivative(), 22.0);
}

#[test]
fn seeding_a_coefficient_gives_a_wrong_derivative() {
    // f(x) = 3 x at x = 4, with the coefficient 3 seeded like the variable
    let x: Dual<f64> = Dual::seed_variable(4.0);
    let three = Dual::seed_variable(3.0);

    let f = three * x;
    assert_eq!(f.real_part(), 12.0);
    assert_eq!(f.derivative(), 7.0);
    assert_eq!((Dual::constant(3.0) * x).derivative(), 3.0);
}
