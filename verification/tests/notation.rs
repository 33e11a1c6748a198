use dual_num::notation::notation;
use dual_num::Dual;
use num::Zero;

#[test]
fn render_with_both_parts_positive() {
    let x: Dual<f64> = Dual::new(3.0, 4.0);
    assert_eq!(x.render(), "3+4ε");
}

#[test]
fn render_with_fractions() {
    let x: Dual<f32> = Dual::new(2.0, 0.25);
    assert_eq!(x.render(), "2+0.25ε");
}

#[test]
fn render_with_a_negative_real_part() {
    let x: Dual<f64> = Dual::new(-1.0, -2.0);
    assert_eq!(x.render(), "-1-2ε");
}

#[test]
fn render_with_a_negative_real_part_shows_the_absolute_derivative() {
    let x: Dual<f64> = Dual::new(-1.5, 2.0);
    assert_eq!(x.render(), "-1.5-2ε");
}

#[test]
fn render_with_only_the_derivative_negative() {
    let x: Dual<f64> = Dual::new(3.0, -2.0);
    assert_eq!(x.render(), "3+-2ε");
}

#[test]
fn render_of_zero() {
    let x: Dual<f64> = Dual::zero();
    assert_eq!(x.render(), "0+0ε");
}

#[test]
fn render_of_the_negative_zero_takes_the_plus_sign() {
    let x: Dual<f64> = Dual::new(-0.0, -1.0);
    assert_eq!(x.render(), "-0+-1ε");
}

#[test]
fn render_of_a_nan_takes_the_plus_sign() {
    let x: Dual<f64> = Dual::new(f64::NAN, -1.0);
    assert_eq!(x.render(), "NaN+-1ε");
}

#[test]
fn notation_joins_the_texts_with_the_sign() {
    assert_eq!(notation("3", "4", false), "3+4ε");
    assert_eq!(notation("-3", "4", true), "-3-4ε");
    assert_eq!(notation("", "", false), "+ε");
}
