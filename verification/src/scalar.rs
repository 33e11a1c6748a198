//! The scalar operations that dual numbers are built from.
//!
//! Floating-point arithmetic is not a function of its operands in every bit:
//! the sign and payload of a NaN result are left open, and the precision of
//! the transcendental functions may differ from one platform to the next. So
//! each operation is described by a relation between its operands and a
//! result, not by a function.
//!
//! For `+ - * /`, unary `-`, `==` and `<` the relations are those that vstd
//! states of the primitive floating-point types (`add_ensures` and its
//! siblings). For the operations of `num::Float` they are defined here, each
//! as "a result of this call": Verus knows `call_ensures` of a function, its
//! arguments and a value exactly where the value came back from such a call.
use vstd::prelude::*;
use num::Float;
use std::ops::Add;
use std::ops::Div;
use std::ops::Mul;
use std::ops::Neg;
use std::ops::Sub;
use vstd::std_specs::cmp::eq_ensures;
use vstd::std_specs::cmp::lt_ensures;
use vstd::std_specs::ops::add_ensures;
use vstd::std_specs::ops::div_ensures;
use vstd::std_specs::ops::mul_ensures;
use vstd::std_specs::ops::neg_ensures;
use vstd::std_specs::ops::sub_ensures;

verus! {

// ---------------------------------------------------------------------------
// Arithmetic and comparison
//
// These are bound by the operator alone, as the operators of dual numbers
// are. The crate calls them on parts of dual numbers only, and a dual number
// can only be made of a `num::Float` type: what is claimed below is claimed of
// floating-point scalars, whose operators never panic.
// ---------------------------------------------------------------------------

/// `x + y`, by `std::ops::Add::add` of the scalar type.
///
/// Trusted: the call returns, and its result stands in vstd's relation
/// `add_ensures` to the operands. That relation says no more than "a result of
/// `x + y`"; Verus states the same of `+` on the primitive floating-point
/// types.
#[verifier::external_body]
pub(crate) fn sum<F: Add<Output = F>>(x: F, y: F) -> (r: F)
    ensures
        add_ensures::<F>(x, y, r),
{
    x + y
}

/// `x - y`, by `std::ops::Sub::sub` of the scalar type.
///
/// Trusted: the call returns, and its result stands in vstd's relation
/// `sub_ensures` to the operands ("a result of `x - y`").
#[verifier::external_body]
pub(crate) fn difference<F: Sub<Output = F>>(x: F, y: F) -> (r: F)
    ensures
        sub_ensures::<F>(x, y, r),
{
    x - y
}

/// `x * y`, by `std::ops::Mul::mul` of the scalar type.
///
/// Trusted: the call returns, and its result stands in vstd's relation
/// `mul_ensures` to the operands ("a result of `x * y`").
#[verifier::external_body]
pub(crate) fn product<F: Mul<Output = F>>(x: F, y: F) -> (r: F)
    ensures
        mul_ensures::<F>(x, y, r),
{
    x * y
}

/// `x / y`, by `std::ops::Div::div` of the scalar type.
///
/// Trusted: the call returns for every divisor, zero included (a
/// floating-point division by zero gives an infinity or a NaN), and its result
/// stands in vstd's relation `div_ensures` to the operands ("a result of
/// `x / y`").
#[verifier::external_body]
pub(crate) fn quotient<F: Div<Output = F>>(x: F, y: F) -> (r: F)
    ensures
        div_ensures::<F>(x, y, r),
{
    x / y
}

/// `-x`, by `std::ops::Neg::neg` of the scalar type.
///
/// Trusted: the call returns, and its result stands in vstd's relation
/// `neg_ensures` to the operand ("a result of `-x`").
#[verifier::external_body]
pub(crate) fn negation<F: Neg<Output = F>>(x: F) -> (r: F)
    ensures
        neg_ensures::<F>(x, r),
{
    -x
}

/// `x == y`, by `PartialEq::eq` of the scalar type.
///
/// Trusted: the call returns, and its result stands in vstd's relation
/// `eq_ensures` to the operands ("a result of `x == y`"). This is the equality
/// of the floating-point type, under which a NaN equals nothing and the two
/// zeros equal each other; it is not the equality of specifications.
#[verifier::external_body]
pub(crate) fn same<F: PartialEq>(x: F, y: F) -> (b: bool)
    ensures
        eq_ensures::<F>(x, y, b),
{
    x == y
}

/// `x < y`, by `PartialOrd::lt` of the scalar type.
///
/// Trusted: the call returns, and its result stands in vstd's relation
/// `lt_ensures` to the operands ("a result of `x < y`").
#[verifier::external_body]
pub(crate) fn below<F: PartialOrd>(x: F, y: F) -> (b: bool)
    ensures
        lt_ensures::<F>(x, y, b),
{
    x < y
}

// ---------------------------------------------------------------------------
// The operations of `num::Float`
//
// Each comes in three parts: the call itself, of which nothing is claimed but
// that it returns; the relation "a result of that call"; and the function
// that the rest of the crate calls, which is verified to return a value in
// that relation.
// ---------------------------------------------------------------------------

/// `F::zero()`, by `num::Zero::zero`. Trusted: the call returns.
#[verifier::external_body]
fn float_zero<F: Float>() -> (r: F) {
    F::zero()
}

/// `z` is a result of `F::zero()`: the scalar zero.
pub closed spec fn is_scalar_zero<F: Float>(z: F) -> bool {
    call_ensures(float_zero::<F>, (), z)
}

/// The scalar zero.
pub(crate) fn zero<F: Float>() -> (z: F)
    ensures
        is_scalar_zero(z),
{
    float_zero()
}

/// `F::one()`, by `num::One::one`. Trusted: the call returns.
#[verifier::external_body]
fn float_one<F: Float>() -> (r: F) {
    F::one()
}

/// `u` is a result of `F::one()`: the scalar one.
pub closed spec fn is_scalar_one<F: Float>(u: F) -> bool {
    call_ensures(float_one::<F>, (), u)
}

/// The scalar one.
pub(crate) fn one<F: Float>() -> (u: F)
    ensures
        is_scalar_one(u),
{
    float_one()
}

/// `x.is_zero()`, by `num::Zero::is_zero`. Trusted: the call returns.
#[verifier::external_body]
fn float_is_zero<F: Float>(x: F) -> (b: bool) {
    x.is_zero()
}

/// `b` is a result of `x.is_zero()`: whether `x` equals the scalar zero.
pub closed spec fn is_zero_test<F: Float>(x: F, b: bool) -> bool {
    call_ensures(float_is_zero::<F>, (x,), b)
}

/// Whether `x` equals the scalar zero.
pub(crate) fn zero_test<F: Float>(x: F) -> (b: bool)
    ensures
        is_zero_test(x, b),
{
    float_is_zero(x)
}

/// `x.abs()`, by `num::Float::abs`. Trusted: the call returns.
#[verifier::external_body]
fn float_abs<F: Float>(x: F) -> (r: F) {
    x.abs()
}

/// `r` is a result of `x.abs()`: the absolute value of `x`.
pub closed spec fn is_magnitude<F: Float>(x: F, r: F) -> bool {
    call_ensures(float_abs::<F>, (x,), r)
}

/// The absolute value of `x`.
pub(crate) fn magnitude<F: Float>(x: F) -> (r: F)
    ensures
        is_magnitude(x, r),
{
    float_abs(x)
}

/// `x.sin()`, by `num::Float::sin`. Trusted: the call returns.
#[verifier::external_body]
fn float_sin<F: Float>(x: F) -> (r: F) {
    x.sin()
}

/// `r` is a result of `x.sin()`: the sine of `x`, in radians.
pub closed spec fn is_sine<F: Float>(x: F, r: F) -> bool {
    call_ensures(float_sin::<F>, (x,), r)
}

/// The sine of `x`.
pub(crate) fn sine<F: Float>(x: F) -> (r: F)
    ensures
        is_sine(x, r),
{
    float_sin(x)
}

/// `x.cos()`, by `num::Float::cos`. Trusted: the call returns.
#[verifier::external_body]
fn float_cos<F: Float>(x: F) -> (r: F) {
    x.cos()
}

/// `r` is a result of `x.cos()`: the cosine of `x`, in radians.
pub closed spec fn is_cosine<F: Float>(x: F, r: F) -> bool {
    call_ensures(float_cos::<F>, (x,), r)
}

/// The cosine of `x`.
pub(crate) fn cosine<F: Float>(x: F) -> (r: F)
    ensures
        is_cosine(x, r),
{
    float_cos(x)
}

/// `x.exp()`, by `num::Float::exp`. Trusted: the call returns.
#[verifier::external_body]
fn float_exp<F: Float>(x: F) -> (r: F) {
    x.exp()
}

/// `r` is a result of `x.exp()`: e to the power of `x`.
pub closed spec fn is_exponential<F: Float>(x: F, r: F) -> bool {
    call_ensures(float_exp::<F>, (x,), r)
}

/// e to the power of `x`.
pub(crate) fn exponential<F: Float>(x: F) -> (r: F)
    ensures
        is_exponential(x, r),
{
    float_exp(x)
}

/// `x.ln()`, by `num::Float::ln`. Trusted: the call returns, also where `x`
/// is zero or negative (the result is then an infinity or a NaN).
#[verifier::external_body]
fn float_ln<F: Float>(x: F) -> (r: F) {
    x.ln()
}

/// `r` is a result of `x.ln()`: the natural logarithm of `x`.
pub closed spec fn is_logarithm<F: Float>(x: F, r: F) -> bool {
    call_ensures(float_ln::<F>, (x,), r)
}

/// The natural logarithm of `x`.
pub(crate) fn logarithm<F: Float>(x: F) -> (r: F)
    ensures
        is_logarithm(x, r),
{
    float_ln(x)
}

/// `x.sqrt()`, by `num::Float::sqrt`. Trusted: the call returns, also where
/// `x` is negative (the result is then a NaN).
#[verifier::external_body]
fn float_sqrt<F: Float>(x: F) -> (r: F) {
    x.sqrt()
}

/// `r` is a result of `x.sqrt()`: the square root of `x`.
pub closed spec fn is_square_root<F: Float>(x: F, r: F) -> bool {
    call_ensures(float_sqrt::<F>, (x,), r)
}

/// The square root of `x`.
pub(crate) fn square_root<F: Float>(x: F) -> (r: F)
    ensures
        is_square_root(x, r),
{
    float_sqrt(x)
}

} // verus!
