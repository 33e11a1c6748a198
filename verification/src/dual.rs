//! The dual number: its two parts, and the ways to make one.
use vstd::prelude::*;
use num::Float;
use crate::scalar::is_scalar_one;
use crate::scalar::is_scalar_zero;
use crate::scalar::one;
use crate::scalar::zero;

verus! {

/// A dual number: the value of a function at a point, and the value of its
/// first derivative there.
///
/// Both parts have the same scalar type. A dual number is a plain value: no
/// operation changes one in place, each returns a new one.
///
/// There are two ways from a scalar to a dual number, and they are not
/// interchangeable. [`Dual::seed_variable`] makes the variable that is
/// differentiated by, with the derivative one; [`Dual::constant`] makes a
/// fixed coefficient, with the derivative zero. No conversion is implied:
/// each scalar enters an expression by one of the two, by name.
#[derive(Copy, Clone, Hash, Debug)]
pub struct Dual<F> {
    real: F,
    dual: F,
}

/// A dual number is, to a specification, the pair of its real part and its
/// derivative part.
impl<F> View for Dual<F> {
    type V = (F, F);

    closed spec fn view(&self) -> (F, F) {
        (self.real, self.dual)
    }
}

impl<F: Copy> Dual<F> {
    /// The real part: the value of the function.
    pub open spec fn spec_real_part(self) -> F {
        self@.0
    }

    /// The derivative part: the value of the function's first derivative.
    pub open spec fn spec_derivative(self) -> F {
        self@.1
    }

    /// The value of the function.
    #[verifier::when_used_as_spec(spec_real_part)]
    pub fn real_part(self) -> (r: F)
        ensures
            r == self@.0,
    {
        self.real
    }

    /// The value of the function's first derivative.
    #[verifier::when_used_as_spec(spec_derivative)]
    pub fn derivative(self) -> (r: F)
        ensures
            r == self@.1,
    {
        self.dual
    }

    /// The dual number with the given parts, for the operators, which are
    /// not bound to `num::Float`.
    pub(crate) fn pair(value: F, deriv: F) -> (r: Self)
        ensures
            r@ == (value, deriv),
    {
        Dual { real: value, dual: deriv }
    }

    /// A dual number is its two parts and nothing else: two dual numbers with
    /// the same real part and the same derivative part are the same.
    pub proof fn lemma_same_parts(self, other: Self)
        requires
            self@ == other@,
        ensures
            self == other,
    {
    }
}

impl<F: Float> Dual<F> {
    /// The dual number with the given parts.
    pub closed spec fn spec_new(value: F, deriv: F) -> Self {
        Dual { real: value, dual: deriv }
    }

    /// The dual number with the given value and derivative. Any two scalars
    /// make one.
    #[verifier::when_used_as_spec(spec_new)]
    pub fn new(value: F, deriv: F) -> (r: Self)
        ensures
            r == Self::new(value, deriv),
            r@ == (value, deriv),
    {
        Dual { real: value, dual: deriv }
    }

    /// Construction and access round-trip: the dual number made of a value
    /// and a derivative has that value as its real part and that derivative
    /// as its derivative part.
    pub proof fn lemma_parts_of_new(value: F, deriv: F)
        ensures
            Self::new(value, deriv)@ == (value, deriv),
            Self::new(value, deriv).real_part() == value,
            Self::new(value, deriv).derivative() == deriv,
    {
    }

    /// The scalar `value` as the variable that is differentiated by: its
    /// derivative is one.
    ///
    /// This is the only conversion that seeds a differentiation. A scalar
    /// that is a fixed coefficient of the expression enters it by
    /// [`Dual::constant`]; seeding it instead gives wrong derivatives.
    pub fn seed_variable(value: F) -> (r: Self)
        ensures
            r@.0 == value,
            is_scalar_one(r@.1),
    {
        Dual { real: value, dual: one() }
    }

    /// The scalar `value` as a constant: its derivative is zero.
    pub fn constant(value: F) -> (r: Self)
        ensures
            r@.0 == value,
            is_scalar_zero(r@.1),
    {
        Dual { real: value, dual: zero() }
    }
}

} // verus!
