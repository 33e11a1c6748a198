//! Equality of dual numbers: both parts are equal, by the `==` of the scalar
//! type. The comparison is exact; a tolerance is the caller's business.
use vstd::prelude::*;
use vstd::std_specs::cmp::eq_ensures;
use vstd::std_specs::cmp::PartialEqSpecImpl;
use crate::dual::Dual;
use crate::scalar::same;

verus! {

/// The comparison, step by step: `p` is a result of `==` on the real parts;
/// where it holds, `b` is a result of `==` on the derivative parts, which are
/// not compared where it does not, and `b` is false.
pub open spec fn equality_steps<F: Copy>(x: Dual<F>, y: Dual<F>, p: bool, b: bool) -> bool {
    &&& eq_ensures::<F>(x.real_part(), y.real_part(), p)
    &&& if p {
        eq_ensures::<F>(x.derivative(), y.derivative(), b)
    } else {
        !b
    }
}

/// `b` is a result of `x == y`: whether the real parts are equal and the
/// derivative parts are equal.
pub open spec fn is_equality<F: Copy>(x: Dual<F>, y: Dual<F>, b: bool) -> bool {
    exists|p: bool| #[trigger] equality_steps(x, y, p, b)
}

impl<F: Copy + PartialEq> PartialEqSpecImpl for Dual<F> {
    /// What `==` gives rests on the `==` of the scalar type, of which
    /// nothing is known here.
    open spec fn obeys_eq_spec() -> bool {
        false
    }

    open spec fn eq_spec(&self, other: &Dual<F>) -> bool {
        choose|b: bool| is_equality(*self, *other, b)
    }
}

impl<F: Copy + PartialEq> PartialEq for Dual<F> {
    fn eq(&self, other: &Dual<F>) -> (b: bool)
        ensures
            is_equality(*self, *other, b),
    {
        let p = same(self.real_part(), other.real_part());
        let b = if p {
            same(self.derivative(), other.derivative())
        } else {
            false
        };
        assert(equality_steps(*self, *other, p, b));
        b
    }
}

} // verus!
