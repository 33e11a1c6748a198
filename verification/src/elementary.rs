//! The elementary functions of a dual number: sine, cosine, tangent,
//! exponential, natural logarithm and square root.
//!
//! Each follows the chain rule: for `x = (a, a')` the result is
//! `(f(a), a' * f'(a))`. The scalar values `f(a)` and `f'(a)` come from the
//! floating-point type; how they enter the result is settled here. The two
//! forms of the rule, [`Dual::chain`] and [`Dual::chain_div`], take those
//! values as arguments, so that they also serve for functions that this
//! module does not offer.
//!
//! No function tests its argument. Outside its domain (the logarithm of a
//! number that is not positive, the square root of a negative one, the
//! tangent where the cosine is zero) the result holds what the scalar
//! operations give there, a NaN or an infinity; nothing is raised.
use vstd::prelude::*;
use num::Float;
use vstd::std_specs::ops::add_ensures;
use vstd::std_specs::ops::div_ensures;
use vstd::std_specs::ops::mul_ensures;
use vstd::std_specs::ops::neg_ensures;
use crate::arith::is_quotient;
use crate::arith::ratio;
use crate::dual::Dual;
use crate::scalar::cosine;
use crate::scalar::exponential;
use crate::scalar::is_cosine;
use crate::scalar::is_exponential;
use crate::scalar::is_logarithm;
use crate::scalar::is_scalar_one;
use crate::scalar::is_sine;
use crate::scalar::is_square_root;
use crate::scalar::logarithm;
use crate::scalar::negation;
use crate::scalar::one;
use crate::scalar::product;
use crate::scalar::quotient;
use crate::scalar::sine;
use crate::scalar::square_root;
use crate::scalar::sum;

verus! {

impl<F: Float> Dual<F> {
    /// The chain rule with the derivative given as a factor: for a function
    /// `f` with `f(a) = value` and `f'(a) = slope`, the dual number
    /// `f((a, a')) = (value, a' * slope)`.
    pub fn chain(self, value: F, slope: F) -> (r: Self)
        ensures
            r.real_part() == value,
            mul_ensures::<F>(self.derivative(), slope, r.derivative()),
    {
        Dual::new(value, product(self.derivative(), slope))
    }

    /// The chain rule with the derivative given as a divisor: for a function
    /// `f` with `f(a) = value` and `f'(a) = 1 / divisor`, the dual number
    /// `f((a, a')) = (value, a' / divisor)`. The divisor is not tested: where
    /// it is zero, the derivative part is what the scalar division gives.
    pub fn chain_div(self, value: F, divisor: F) -> (r: Self)
        ensures
            r.real_part() == value,
            div_ensures::<F>(self.derivative(), divisor, r.derivative()),
    {
        Dual::new(value, quotient(self.derivative(), divisor))
    }

    /// The derivative part of a sine: `c` is a cosine of `a`, and `d` a
    /// result of `a' * c`.
    pub open spec fn sin_slope(self, c: F, d: F) -> bool {
        &&& is_cosine(self.real_part(), c)
        &&& mul_ensures::<F>(self.derivative(), c, d)
    }

    /// `r` is a sine of `self`: `sin((a, a')) = (sin a, a' * cos a)`.
    pub open spec fn is_sin(self, r: Self) -> bool {
        &&& is_sine(self.real_part(), r.real_part())
        &&& exists|c: F| #[trigger] self.sin_slope(c, r.derivative())
    }

    /// The sine.
    pub fn sin(self) -> (r: Self)
        ensures
            self.is_sin(r),
    {
        let s = sine(self.real_part());
        let c = cosine(self.real_part());
        let r = self.chain(s, c);
        assert(self.sin_slope(c, r.derivative()));
        r
    }

    /// The derivative part of a cosine: `s` is a sine of `a`, `n` a result of
    /// `-a'`, and `d` a result of `n * s`.
    pub open spec fn cos_slope(self, s: F, n: F, d: F) -> bool {
        &&& is_sine(self.real_part(), s)
        &&& neg_ensures::<F>(self.derivative(), n)
        &&& mul_ensures::<F>(n, s, d)
    }

    /// `r` is a cosine of `self`: `cos((a, a')) = (cos a, -a' * sin a)`.
    pub open spec fn is_cos(self, r: Self) -> bool {
        &&& is_cosine(self.real_part(), r.real_part())
        &&& exists|s: F, n: F| #[trigger] self.cos_slope(s, n, r.derivative())
    }

    /// The cosine.
    pub fn cos(self) -> (r: Self)
        ensures
            self.is_cos(r),
    {
        let c = cosine(self.real_part());
        let s = sine(self.real_part());
        let n = negation(self.derivative());
        let r = Dual::new(c, product(n, s));
        assert(self.cos_slope(s, n, r.derivative()));
        r
    }

    /// `s` is a sine of `self`, `c` a cosine of it, and `r` a quotient of `s`
    /// and `c`.
    pub open spec fn tan_parts(self, s: Self, c: Self, r: Self) -> bool {
        &&& self.is_sin(s)
        &&& self.is_cos(c)
        &&& is_quotient(s, c, r)
    }

    /// `r` is a tangent of `self`: the sine of `self` divided by its cosine,
    /// as dual numbers.
    pub open spec fn is_tan(self, r: Self) -> bool {
        exists|s: Self, c: Self| #[trigger] self.tan_parts(s, c, r)
    }

    /// The tangent. Where the cosine of the real part is zero, the parts of
    /// the result are what the division by zero gives.
    pub fn tan(self) -> (r: Self)
        ensures
            self.is_tan(r),
    {
        let s = self.sin();
        let c = self.cos();
        let r = ratio(s, c);
        assert(self.tan_parts(s, c, r));
        r
    }

    /// `r` is an exponential of `self`: `exp((a, a')) = (e^a, a' * e^a)`, with
    /// one value of `e^a` in both parts.
    pub open spec fn is_exp(self, r: Self) -> bool {
        &&& is_exponential(self.real_part(), r.real_part())
        &&& mul_ensures::<F>(self.derivative(), r.real_part(), r.derivative())
    }

    /// The exponential function.
    pub fn exp(self) -> (r: Self)
        ensures
            self.is_exp(r),
    {
        let e = exponential(self.real_part());
        self.chain(e, e)
    }

    /// `r` is a natural logarithm of `self`: `ln((a, a')) = (ln a, a' / a)`.
    pub open spec fn is_ln(self, r: Self) -> bool {
        &&& is_logarithm(self.real_part(), r.real_part())
        &&& div_ensures::<F>(self.derivative(), self.real_part(), r.derivative())
    }

    /// The natural logarithm. Its domain is `a > 0`; elsewhere the parts of
    /// the result are what the scalar logarithm and division give.
    pub fn ln(self) -> (r: Self)
        ensures
            self.is_ln(r),
    {
        let l = logarithm(self.real_part());
        self.chain_div(l, self.real_part())
    }

    /// The derivative part of a square root `q`: `u` is the scalar one,
    /// `two` a result of `u + u`, `den` a result of `two * q`, and `d` a
    /// result of `a' / den`.
    pub open spec fn sqrt_slope(self, q: F, u: F, two: F, den: F, d: F) -> bool {
        &&& is_scalar_one(u)
        &&& add_ensures::<F>(u, u, two)
        &&& mul_ensures::<F>(two, q, den)
        &&& div_ensures::<F>(self.derivative(), den, d)
    }

    /// `r` is a square root of `self`:
    /// `sqrt((a, a')) = (sqrt a, a' / (2 * sqrt a))`, with one value of
    /// `sqrt a` in both parts.
    pub open spec fn is_sqrt(self, r: Self) -> bool {
        &&& is_square_root(self.real_part(), r.real_part())
        &&& exists|u: F, two: F, den: F| #[trigger]
            self.sqrt_slope(r.real_part(), u, two, den, r.derivative())
    }

    /// The square root. Its domain is `a >= 0`; at `a = 0` the derivative
    /// part is what the division by zero gives, as the derivative of the
    /// square root has no value there.
    pub fn sqrt(self) -> (r: Self)
        ensures
            self.is_sqrt(r),
    {
        let q = square_root(self.real_part());
        let u = one();
        let two = sum(u, u);
        let den = product(two, q);
        let r = self.chain_div(q, den);
        assert(self.sqrt_slope(r.real_part(), u, two, den, r.derivative()));
        r
    }
}

} // verus!
