//! The functions of `num_traits` that the library calls. Each call is taken
//! on trust, and nothing is claimed of what it returns: a contract that
//! speaks of such a value says which call returned it, and on what.

use vstd::prelude::*;
use num_traits::{Float, FloatConst};

verus! {

/// `num_traits::Float::sqrt`: the square root of `x` as `T` computes it, a
/// NaN for a negative `x`.
#[verifier::external_body]
fn sqrt<T: Float>(x: T) -> (r: T) {
    x.sqrt()
}

/// Whether `r` is what `num_traits::Float::sqrt` returned on `x`.
pub closed spec fn sqrt_of<T: Float>(x: T, r: T) -> bool {
    call_ensures(sqrt::<T>, (x,), r)
}

/// The square root of `x` as `T` computes it.
pub(crate) fn float_sqrt<T: Float>(x: T) -> (r: T)
    ensures
        sqrt_of(x, r),
{
    sqrt(x)
}

/// `num_traits::Float::cbrt`: the cube root of `x` as `T` computes it.
#[verifier::external_body]
fn cbrt<T: Float>(x: T) -> (r: T) {
    x.cbrt()
}

/// Whether `r` is what `num_traits::Float::cbrt` returned on `x`.
pub closed spec fn cbrt_of<T: Float>(x: T, r: T) -> bool {
    call_ensures(cbrt::<T>, (x,), r)
}

/// The cube root of `x` as `T` computes it.
pub(crate) fn float_cbrt<T: Float>(x: T) -> (r: T)
    ensures
        cbrt_of(x, r),
{
    cbrt(x)
}

/// `num_traits::Float::sin`: the sine of `x`, an angle in radians, as `T`
/// computes it.
#[verifier::external_body]
fn sin<T: Float>(x: T) -> (r: T) {
    x.sin()
}

/// Whether `r` is what `num_traits::Float::sin` returned on `x`.
pub closed spec fn sin_of<T: Float>(x: T, r: T) -> bool {
    call_ensures(sin::<T>, (x,), r)
}

/// The sine of `x`, an angle in radians, as `T` computes it.
pub(crate) fn float_sin<T: Float>(x: T) -> (r: T)
    ensures
        sin_of(x, r),
{
    sin(x)
}

/// `num_traits::Float::cos`: the cosine of `x`, an angle in radians, as `T`
/// computes it.
#[verifier::external_body]
fn cos<T: Float>(x: T) -> (r: T) {
    x.cos()
}

/// Whether `r` is what `num_traits::Float::cos` returned on `x`.
pub closed spec fn cos_of<T: Float>(x: T, r: T) -> bool {
    call_ensures(cos::<T>, (x,), r)
}

/// The cosine of `x`, an angle in radians, as `T` computes it.
pub(crate) fn float_cos<T: Float>(x: T) -> (r: T)
    ensures
        cos_of(x, r),
{
    cos(x)
}

/// `num_traits::Float::powf`: `x` to the power `n` as `T` computes it.
#[verifier::external_body]
fn powf<T: Float>(x: T, n: T) -> (r: T) {
    x.powf(n)
}

/// Whether `r` is what `num_traits::Float::powf` returned on `x` and `n`.
pub closed spec fn powf_of<T: Float>(x: T, n: T, r: T) -> bool {
    call_ensures(powf::<T>, (x, n), r)
}

/// `x` to the power `n` as `T` computes it.
pub(crate) fn float_powf<T: Float>(x: T, n: T) -> (r: T)
    ensures
        powf_of(x, n, r),
{
    powf(x, n)
}

/// `num_traits::Float::round`: the whole number nearest to `x`, halves
/// rounded away from zero.
#[verifier::external_body]
fn round<T: Float>(x: T) -> (r: T) {
    x.round()
}

/// Whether `r` is what `num_traits::Float::round` returned on `x`.
pub closed spec fn round_of<T: Float>(x: T, r: T) -> bool {
    call_ensures(round::<T>, (x,), r)
}

/// The whole number nearest to `x` as `T` rounds.
pub(crate) fn float_round<T: Float>(x: T) -> (r: T)
    ensures
        round_of(x, r),
{
    round(x)
}

/// `num_traits::Float::infinity`: the positive infinity of `T`.
#[verifier::external_body]
fn infinity<T: Float>() -> (r: T) {
    T::infinity()
}

/// Whether `r` is what `num_traits::Float::infinity` returned.
pub closed spec fn is_infinity<T: Float>(r: T) -> bool {
    call_ensures(infinity::<T>, (), r)
}

/// The positive infinity of `T`.
pub(crate) fn float_infinity<T: Float>() -> (r: T)
    ensures
        is_infinity(r),
{
    infinity()
}

/// `num_traits::Float::neg_infinity`: the negative infinity of `T`.
#[verifier::external_body]
fn neg_infinity<T: Float>() -> (r: T) {
    T::neg_infinity()
}

/// Whether `r` is what `num_traits::Float::neg_infinity` returned.
pub closed spec fn is_neg_infinity<T: Float>(r: T) -> bool {
    call_ensures(neg_infinity::<T>, (), r)
}

/// The negative infinity of `T`.
pub(crate) fn float_neg_infinity<T: Float>() -> (r: T)
    ensures
        is_neg_infinity(r),
{
    neg_infinity()
}

/// `num_traits::FloatConst::PI`: the constant pi as `T` holds it.
#[verifier::external_body]
fn pi<T: FloatConst>() -> (r: T) {
    T::PI()
}

/// Whether `r` is what `num_traits::FloatConst::PI` returned.
pub closed spec fn is_pi<T: FloatConst>(r: T) -> bool {
    call_ensures(pi::<T>, (), r)
}

/// The constant pi as `T` holds it.
pub(crate) fn float_pi<T: FloatConst>() -> (r: T)
    ensures
        is_pi(r),
{
    pi()
}

} // verus!
