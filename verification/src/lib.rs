//! Forward-mode automatic differentiation of scalar functions with dual
//! numbers.
//!
//! A dual number is a pair of scalars: the value of a function at a point and
//! the value of its first derivative there. Running an expression on the dual
//! number `Dual::seed_variable(a)` in place of the scalar `a` gives the value
//! of the expression in the real part of the result and its exact derivative
//! at `a` in the derivative part. Fixed coefficients enter the expression as
//! `Dual::constant(c)`.
//!
//! The scalars are floating-point numbers of any width. To Verus a
//! scalar is opaque: the contracts of this crate say which scalar operations
//! were applied to which parts of the operands and in which order, that is,
//! that each operation follows its differentiation rule. What a scalar
//! operation itself returns is the business of the floating-point type.
use vstd::prelude::*;

pub mod scalar;
pub mod dual;
pub mod identities;
pub mod equality;
pub mod arith;
pub mod elementary;
pub mod notation;
pub mod laws;

pub use dual::Dual;
