//! The arithmetic of dual numbers: `+`, `-`, unary `-`, `*` and `/`.
//!
//! Each operator takes its operands by value and returns a new dual number.
//! None has a precondition and none fails: a division by a dual number whose
//! real part is zero gives whatever the scalar division gives, an infinity or
//! a NaN.
//!
//! The operators are implemented for every scalar type that has the scalar
//! operators they use. The relations below say which of these were applied to
//! which parts; `add_ensures(a, b, c)` reads "`c` is a result of `a + b`", and
//! so on for the others.
//!
//! In verified code that is generic in the scalar type, name the scalar
//! operators among the bounds, beside `Copy`:
//! `F: Float + Copy + Add<Output = F>` for `x + y`. Verus does not look into
//! `num::Float` for them, and without them it does not find that the operator
//! has no precondition. For the negation write `x.neg()` there.
use vstd::prelude::*;
use std::ops::Add;
use std::ops::Div;
use std::ops::Mul;
use std::ops::Neg;
use std::ops::Sub;
use vstd::std_specs::ops::add_ensures;
use vstd::std_specs::ops::div_ensures;
use vstd::std_specs::ops::mul_ensures;
use vstd::std_specs::ops::neg_ensures;
use vstd::std_specs::ops::sub_ensures;
use vstd::std_specs::ops::AddSpecImpl;
use vstd::std_specs::ops::DivSpecImpl;
use vstd::std_specs::ops::MulSpecImpl;
use vstd::std_specs::ops::NegSpecImpl;
use vstd::std_specs::ops::SubSpecImpl;
use crate::dual::Dual;
use crate::scalar::difference;
use crate::scalar::negation;
use crate::scalar::product;
use crate::scalar::quotient;
use crate::scalar::sum;

verus! {

/// `r` is a sum of `x` and `y`: `(a, a') + (b, b') = (a + b, a' + b')`.
pub open spec fn is_sum<F: Copy>(x: Dual<F>, y: Dual<F>, r: Dual<F>) -> bool {
    &&& add_ensures::<F>(x.real_part(), y.real_part(), r.real_part())
    &&& add_ensures::<F>(x.derivative(), y.derivative(), r.derivative())
}

/// `r` is a difference of `x` and `y`: `(a, a') - (b, b') = (a - b, a' - b')`.
pub open spec fn is_difference<F: Copy>(x: Dual<F>, y: Dual<F>, r: Dual<F>) -> bool {
    &&& sub_ensures::<F>(x.real_part(), y.real_part(), r.real_part())
    &&& sub_ensures::<F>(x.derivative(), y.derivative(), r.derivative())
}

/// `r` is a negation of `x`: `-(a, a') = (-a, -a')`.
pub open spec fn is_negation<F: Copy>(x: Dual<F>, r: Dual<F>) -> bool {
    &&& neg_ensures::<F>(x.real_part(), r.real_part())
    &&& neg_ensures::<F>(x.derivative(), r.derivative())
}

/// The product rule, step by step: `p` is a result of `a * b'`, `q` one of
/// `a' * b`, and `d` one of `p + q`, for `x = (a, a')` and `y = (b, b')`.
pub open spec fn product_rule<F: Copy>(x: Dual<F>, y: Dual<F>, p: F, q: F, d: F) -> bool {
    &&& mul_ensures::<F>(x.real_part(), y.derivative(), p)
    &&& mul_ensures::<F>(x.derivative(), y.real_part(), q)
    &&& add_ensures::<F>(p, q, d)
}

/// `r` is a product of `x` and `y`:
/// `(a, a') * (b, b') = (a * b, a * b' + a' * b)`.
pub open spec fn is_product<F: Copy>(x: Dual<F>, y: Dual<F>, r: Dual<F>) -> bool {
    &&& mul_ensures::<F>(x.real_part(), y.real_part(), r.real_part())
    &&& exists|p: F, q: F| #[trigger] product_rule(x, y, p, q, r.derivative())
}

/// The quotient rule, step by step: `p` is a result of `a' * b`, `q` one of
/// `a * b'`, `n` one of `p - q`, `s` one of `b * b`, and `d` one of `n / s`,
/// for `x = (a, a')` and `y = (b, b')`.
pub open spec fn quotient_rule<F: Copy>(
    x: Dual<F>,
    y: Dual<F>,
    p: F,
    q: F,
    n: F,
    s: F,
    d: F,
) -> bool {
    &&& mul_ensures::<F>(x.derivative(), y.real_part(), p)
    &&& mul_ensures::<F>(x.real_part(), y.derivative(), q)
    &&& sub_ensures::<F>(p, q, n)
    &&& mul_ensures::<F>(y.real_part(), y.real_part(), s)
    &&& div_ensures::<F>(n, s, d)
}

/// `r` is a quotient of `x` and `y`:
/// `(a, a') / (b, b') = (a / b, (a' * b - a * b') / (b * b))`.
pub open spec fn is_quotient<F: Copy>(x: Dual<F>, y: Dual<F>, r: Dual<F>) -> bool {
    &&& div_ensures::<F>(x.real_part(), y.real_part(), r.real_part())
    &&& exists|p: F, q: F, n: F, s: F| #[trigger] quotient_rule(x, y, p, q, n, s, r.derivative())
}

impl<F: Copy + Add<Output = F>> AddSpecImpl<Dual<F>> for Dual<F> {
    /// A sum is not a function of its operands: see the scalar operations.
    open spec fn obeys_add_spec() -> bool {
        false
    }

    open spec fn add_req(self, other: Dual<F>) -> bool {
        true
    }

    open spec fn add_spec(self, other: Dual<F>) -> Dual<F> {
        choose|r: Dual<F>| is_sum(self, other, r)
    }
}

impl<F: Copy + Add<Output = F>> Add<Dual<F>> for Dual<F> {
    type Output = Dual<F>;

    /// Addition is part by part: differentiation is linear.
    fn add(self, other: Dual<F>) -> (r: Dual<F>)
        ensures
            is_sum(self, other, r),
    {
        Dual::pair(
            sum(self.real_part(), other.real_part()),
            sum(self.derivative(), other.derivative()),
        )
    }
}

impl<F: Copy + Sub<Output = F>> SubSpecImpl<Dual<F>> for Dual<F> {
    /// A difference is not a function of its operands.
    open spec fn obeys_sub_spec() -> bool {
        false
    }

    open spec fn sub_req(self, other: Dual<F>) -> bool {
        true
    }

    open spec fn sub_spec(self, other: Dual<F>) -> Dual<F> {
        choose|r: Dual<F>| is_difference(self, other, r)
    }
}

impl<F: Copy + Sub<Output = F>> Sub<Dual<F>> for Dual<F> {
    type Output = Dual<F>;

    /// Subtraction is part by part.
    fn sub(self, other: Dual<F>) -> (r: Dual<F>)
        ensures
            is_difference(self, other, r),
    {
        Dual::pair(
            difference(self.real_part(), other.real_part()),
            difference(self.derivative(), other.derivative()),
        )
    }
}

impl<F: Copy + Neg<Output = F>> NegSpecImpl for Dual<F> {
    /// A negation is not a function of its operand.
    open spec fn obeys_neg_spec() -> bool {
        false
    }

    open spec fn neg_req(self) -> bool {
        true
    }

    open spec fn neg_spec(self) -> Dual<F> {
        choose|r: Dual<F>| is_negation(self, r)
    }
}

impl<F: Copy + Neg<Output = F>> Neg for Dual<F> {
    type Output = Dual<F>;

    /// Negation is part by part.
    fn neg(self) -> (r: Dual<F>)
        ensures
            is_negation(self, r),
    {
        Dual::pair(negation(self.real_part()), negation(self.derivative()))
    }
}

impl<F: Copy + Add<Output = F> + Mul<Output = F>> MulSpecImpl<Dual<F>> for Dual<F> {
    /// A product is not a function of its operands.
    open spec fn obeys_mul_spec() -> bool {
        false
    }

    open spec fn mul_req(self, other: Dual<F>) -> bool {
        true
    }

    open spec fn mul_spec(self, other: Dual<F>) -> Dual<F> {
        choose|r: Dual<F>| is_product(self, other, r)
    }
}

impl<F: Copy + Add<Output = F> + Mul<Output = F>> Mul<Dual<F>> for Dual<F> {
    type Output = Dual<F>;

    /// Multiplication follows the product rule.
    fn mul(self, other: Dual<F>) -> (r: Dual<F>)
        ensures
            is_product(self, other, r),
    {
        let p = product(self.real_part(), other.derivative());
        let q = product(self.derivative(), other.real_part());
        let d = sum(p, q);
        let r = Dual::pair(product(self.real_part(), other.real_part()), d);
        assert(product_rule(self, other, p, q, r.derivative()));
        r
    }
}

impl<F: Copy + Sub<Output = F> + Mul<Output = F> + Div<Output = F>> DivSpecImpl<Dual<F>> for Dual<F> {
    /// A quotient is not a function of its operands.
    open spec fn obeys_div_spec() -> bool {
        false
    }

    /// Any divisor is accepted, one with a zero real part too.
    open spec fn div_req(self, other: Dual<F>) -> bool {
        true
    }

    open spec fn div_spec(self, other: Dual<F>) -> Dual<F> {
        choose|r: Dual<F>| is_quotient(self, other, r)
    }
}

impl<F: Copy + Sub<Output = F> + Mul<Output = F> + Div<Output = F>> Div<Dual<F>> for Dual<F> {
    type Output = Dual<F>;

    /// Division follows the quotient rule. The divisor is not tested: where
    /// its real part is zero, the parts of the result are what the scalar
    /// division by zero gives.
    fn div(self, other: Dual<F>) -> (r: Dual<F>)
        ensures
            is_quotient(self, other, r),
    {
        let p = product(self.derivative(), other.real_part());
        let q = product(self.real_part(), other.derivative());
        let n = difference(p, q);
        let s = product(other.real_part(), other.real_part());
        let d = quotient(n, s);
        let r = Dual::pair(quotient(self.real_part(), other.real_part()), d);
        assert(quotient_rule(self, other, p, q, n, s, r.derivative()));
        r
    }
}

/// `x / y`, for a caller that knows its scalar type by `num::Float` alone:
/// there Verus does not find the operator's contract, here it does.
pub(crate) fn ratio<F: Copy + Sub<Output = F> + Mul<Output = F> + Div<Output = F>>(
    x: Dual<F>,
    y: Dual<F>,
) -> (r: Dual<F>)
    ensures
        is_quotient(x, y, r),
{
    x / y
}

} // verus!
