//! Laws of the arithmetic of dual numbers.
//!
//! The operators work part by part, so an identity between sums, differences
//! and negations holds of dual numbers wherever it holds of the scalars in
//! both parts. That is what is proved here. Whether it holds of the scalars
//! is a matter of the floating-point type: `a + 0 = a`, for one, holds of
//! every number but not, bit for bit, of a NaN or of the negative zero.
use vstd::prelude::*;
use num::Float;
use vstd::std_specs::ops::add_ensures;
use vstd::std_specs::ops::neg_ensures;
use vstd::std_specs::ops::sub_ensures;
use crate::arith::is_difference;
use crate::arith::is_negation;
use crate::arith::is_sum;
use crate::dual::Dual;
use crate::scalar::is_scalar_zero;

verus! {

/// `a + 0 = a` holds at the scalar `a`: every sum of `a` and the scalar zero
/// is `a`.
pub open spec fn add_zero_at<F: Float>(a: F) -> bool {
    forall|z: F, s: F| is_scalar_zero(z) && #[trigger] add_ensures::<F>(a, z, s) ==> s == a
}

/// `0 + a = a` holds at the scalar `a`: every sum of the scalar zero and `a`
/// is `a`.
pub open spec fn zero_add_at<F: Float>(a: F) -> bool {
    forall|z: F, s: F| is_scalar_zero(z) && #[trigger] add_ensures::<F>(z, a, s) ==> s == a
}

/// `a - b = a + (-b)` holds at the scalars `a` and `b`: every difference of
/// the two is every sum of `a` and a negation of `b`.
pub open spec fn sub_is_add_neg_at<F>(a: F, b: F) -> bool {
    forall|d: F, n: F, s: F|
        #[trigger] sub_ensures::<F>(a, b, d) && #[trigger] neg_ensures::<F>(b, n)
            && #[trigger] add_ensures::<F>(a, n, s) ==> d == s
}

/// `-a = 0 - a` holds at the scalar `a`: every negation of `a` is every
/// difference of the scalar zero and `a`.
pub open spec fn neg_is_zero_sub_at<F: Float>(a: F) -> bool {
    forall|z: F, n: F, d: F|
        is_scalar_zero(z) && #[trigger] neg_ensures::<F>(a, n) && #[trigger] sub_ensures::<F>(
            z,
            a,
            d,
        ) ==> n == d
}

/// Zero is a right identity of addition: `x + zero() == x`, where `a + 0 = a`
/// holds at both parts of `x`.
pub proof fn lemma_add_zero<F: Float>(x: Dual<F>, zero: Dual<F>, s: Dual<F>)
    requires
        zero.is_dual_zero(),
        is_sum(x, zero, s),
        add_zero_at(x.real_part()),
        add_zero_at(x.derivative()),
    ensures
        s == x,
{
    s.lemma_same_parts(x);
}

/// Zero is a left identity of addition: `zero() + x == x`, where `0 + a = a`
/// holds at both parts of `x`.
pub proof fn lemma_zero_add<F: Float>(x: Dual<F>, zero: Dual<F>, s: Dual<F>)
    requires
        zero.is_dual_zero(),
        is_sum(zero, x, s),
        zero_add_at(x.real_part()),
        zero_add_at(x.derivative()),
    ensures
        s == x,
{
    s.lemma_same_parts(x);
}

/// Subtraction is addition of the negation: `x - y == x + (-y)`, where
/// `a - b = a + (-b)` holds at the real parts and at the derivative parts of
/// `x` and `y`. Here `d` is the difference, `n` the negation of `y`, and `s`
/// the sum of `x` and `n`.
pub proof fn lemma_sub_is_add_neg<F: Copy>(
    x: Dual<F>,
    y: Dual<F>,
    d: Dual<F>,
    n: Dual<F>,
    s: Dual<F>,
)
    requires
        is_difference(x, y, d),
        is_negation(y, n),
        is_sum(x, n, s),
        sub_is_add_neg_at(x.real_part(), y.real_part()),
        sub_is_add_neg_at(x.derivative(), y.derivative()),
    ensures
        d == s,
{
    d.lemma_same_parts(s);
}

/// Negation is subtraction from zero: `-x == zero() - x`, where `-a = 0 - a`
/// holds at both parts of `x`. Here `n` is the negation and `d` the
/// difference.
pub proof fn lemma_neg_is_zero_sub<F: Float>(x: Dual<F>, zero: Dual<F>, n: Dual<F>, d: Dual<F>)
    requires
        zero.is_dual_zero(),
        is_negation(x, n),
        is_difference(zero, x, d),
        neg_is_zero_sub_at(x.real_part()),
        neg_is_zero_sub_at(x.derivative()),
    ensures
        n == d,
{
    n.lemma_same_parts(d);
}

} // verus!
