//! The identity elements of dual numbers, as `num` knows them: `Zero` and
//! `One`.
use vstd::prelude::*;
use num::Float;
use num::One;
use num::Zero;
use crate::dual::Dual;
use crate::scalar::is_scalar_one;
use crate::scalar::is_scalar_zero;
use crate::scalar::is_zero_test;
use crate::scalar::one;
use crate::scalar::zero;
use crate::scalar::zero_test;

verus! {

impl<F: Float> Dual<F> {
    /// `self` is a zero of the dual numbers: both parts are the scalar zero.
    pub open spec fn is_dual_zero(self) -> bool {
        is_scalar_zero(self.real_part()) && is_scalar_zero(self.derivative())
    }

    /// `self` is a one of the dual numbers: both parts are the scalar one.
    pub open spec fn is_dual_one(self) -> bool {
        is_scalar_one(self.real_part()) && is_scalar_one(self.derivative())
    }

    /// The test against zero, step by step: `p` is what the test against the
    /// scalar zero gives for the real part; where it holds, `b` is what it
    /// gives for the derivative part, which is not tested where it does not,
    /// and `b` is false.
    pub open spec fn zero_test_steps(self, p: bool, b: bool) -> bool {
        &&& is_zero_test(self.real_part(), p)
        &&& if p {
            is_zero_test(self.derivative(), b)
        } else {
            !b
        }
    }
}

impl<F: Float> Zero for Dual<F> {
    /// The additive identity: both parts are zero.
    fn zero() -> (r: Dual<F>)
        ensures
            r.is_dual_zero(),
    {
        Dual::new(zero(), zero())
    }

    /// Whether both parts equal the scalar zero.
    fn is_zero(&self) -> (b: bool)
        ensures
            exists|p: bool| #[trigger] self.zero_test_steps(p, b),
    {
        let p = zero_test(self.real_part());
        let b = if p {
            zero_test(self.derivative())
        } else {
            false
        };
        assert(self.zero_test_steps(p, b));
        b
    }
}

impl<F: Float> One for Dual<F> {
    /// The identity element one: both parts are one.
    ///
    /// Its derivative part is one, not zero: this is not the constant 1 of an
    /// expression, which is `Dual::constant` of the scalar one.
    fn one() -> (r: Dual<F>)
        ensures
            r.is_dual_one(),
    {
        Dual::new(one(), one())
    }
}

} // verus!
