//! Interpolation between two values, and the table of easing curves.

use vstd::prelude::*;
use vstd::std_specs::ops::{AddSpec, DivSpec, MulSpec, NegSpec, SubSpec};
use vstd::std_specs::convert::FromSpec;
use vstd::std_specs::cmp::{PartialEqSpec, PartialOrdSpec, PartialOrdIs};
use core::ops::{Add, Div, Mul, Neg, Sub};
use num_traits::{Float, FloatConst};
use crate::float_ops::{
    cos_of, float_cos, float_pi, float_powf, float_round, float_sin, float_sqrt, is_pi, powf_of,
    round_of, sin_of, sqrt_of,
};

verus! {

/// The value a part `t` of the way from `a` to `b`: `a + (b - a) * t`.
pub open spec fn interpolate_spec<T>(a: T, b: T, t: T) -> T
    where T: Mul<Output = T> + Add<Output = T> + Sub<Output = T> + Copy
{
    a.add_spec(b.sub_spec(a).mul_spec(t))
}

/// Whether each step of `interpolate` is defined.
pub open spec fn interpolate_req<T>(a: T, b: T, t: T) -> bool
    where T: Mul<Output = T> + Add<Output = T> + Sub<Output = T> + Copy
{
    &&& b.sub_req(a)
    &&& b.sub_spec(a).mul_req(t)
    &&& a.add_req(b.sub_spec(a).mul_spec(t))
}

/// The value a part `t` of the way from `a` to `b`: `a + (b - a) * t`.
pub fn interpolate<T>(a: T, b: T, t: T) -> (r: T)
    where T: Mul<Output = T> + Add<Output = T> + Sub<Output = T> + Copy
    requires
        T::obeys_sub_spec(),
        T::obeys_mul_spec(),
        interpolate_req(a, b, t),
    ensures
        T::obeys_add_spec() ==> r == interpolate_spec(a, b, t),
{
    a + (b - a) * t
}

/// The table of easing curves. Each curve takes a part `t` of an animation,
/// counted from zero to one, to the part of the way then covered. The range
/// of `t` is not enforced.
#[derive(Debug, Clone, Copy, PartialEq, Eq, Default)]
pub struct Ease;

impl Ease {
    /// The part covered equals the part of the time: `t`.
    pub fn linear<T>(&self, t: T) -> (r: T)
        where T: Mul<Output = T> + Add<Output = T> + Sub<Output = T> + Copy
        ensures
            r == t,
    {
        t
    }

    /// The square of `t`.
    pub open spec fn quad_in_spec<T>(t: T) -> T
        where T: Mul<Output = T> + Copy
    {
        t.mul_spec(t)
    }

    /// Whether each step of `quad_in` is defined.
    pub open spec fn quad_in_req<T>(t: T) -> bool
        where T: Mul<Output = T> + Copy
    {
        t.mul_req(t)
    }

    /// The square of `t`.
    pub fn quad_in<T>(&self, t: T) -> (r: T)
        where T: Mul<Output = T> + Copy
        requires
            Self::quad_in_req(t),
        ensures
            T::obeys_mul_spec() ==> r == Self::quad_in_spec(t),
    {
        t * t
    }

    /// One less the square of what `t` lacks to one.
    pub open spec fn quad_out_spec<T>(t: T) -> T
        where T: Sub<Output = T> + Mul<Output = T> + From<i8> + Copy
    {
        T::from_spec(1i8).sub_spec(Self::quad_in_spec(T::from_spec(1i8).sub_spec(t)))
    }

    /// Whether each step of `quad_out` is defined.
    pub open spec fn quad_out_req<T>(t: T) -> bool
        where T: Sub<Output = T> + Mul<Output = T> + From<i8> + Copy
    {
        &&& T::from_spec(1i8).sub_req(t)
        &&& Self::quad_in_req(T::from_spec(1i8).sub_spec(t))
        &&& T::from_spec(1i8).sub_req(Self::quad_in_spec(T::from_spec(1i8).sub_spec(t)))
    }

    /// One less the square of what `t` lacks to one.
    pub fn quad_out<T>(&self, t: T) -> (r: T)
        where T: Sub<Output = T> + Mul<Output = T> + From<i8> + Copy
        requires
            T::obeys_sub_spec(),
            T::obeys_mul_spec(),
            T::obeys_from_spec(),
            Self::quad_out_req(t),
        ensures
            r == Self::quad_out_spec(t),
    {
        let one = T::from(1i8);
        let v = one - t;
        one - v * v
    }

    /// In the first half, half the square of twice `t`; from the middle on, one
    /// less half the square of twice what `t` lacks to one. In the middle both
    /// are a half.
    pub open spec fn quad_inout_spec<T>(t: T) -> T
        where T: PartialOrd + Sub<Output = T> + Mul<Output = T> + Div<Output = T> + From<i8> + Copy
    {
        if t.is_lt(&T::from_spec(1i8).div_spec(T::from_spec(2i8))) {
            Self::quad_in_spec(T::from_spec(2i8).mul_spec(t)).div_spec(T::from_spec(2i8))
        } else {
            T::from_spec(1i8).sub_spec(
                Self::quad_in_spec(
                    T::from_spec(2i8).sub_spec(T::from_spec(2i8).mul_spec(t))
                ).div_spec(T::from_spec(2i8))
            )
        }
    }

    /// Whether each step of `quad_inout` is defined.
    pub open spec fn quad_inout_req<T>(t: T) -> bool
        where T: PartialOrd + Sub<Output = T> + Mul<Output = T> + Div<Output = T> + From<i8> + Copy
    {
        &&& T::from_spec(1i8).div_req(T::from_spec(2i8))
        &&& if t.is_lt(&T::from_spec(1i8).div_spec(T::from_spec(2i8))) {
            &&& T::from_spec(2i8).mul_req(t)
            &&& Self::quad_in_req(T::from_spec(2i8).mul_spec(t))
            &&& Self::quad_in_spec(T::from_spec(2i8).mul_spec(t)).div_req(T::from_spec(2i8))
        } else {
            &&& T::from_spec(2i8).mul_req(t)
            &&& T::from_spec(2i8).sub_req(T::from_spec(2i8).mul_spec(t))
            &&& Self::quad_in_req(T::from_spec(2i8).sub_spec(T::from_spec(2i8).mul_spec(t)))
            &&& Self::quad_in_spec(
                T::from_spec(2i8).sub_spec(T::from_spec(2i8).mul_spec(t))
            ).div_req(T::from_spec(2i8))
            &&& T::from_spec(1i8).sub_req(
                Self::quad_in_spec(
                    T::from_spec(2i8).sub_spec(T::from_spec(2i8).mul_spec(t))
                ).div_spec(T::from_spec(2i8))
            )
        }
    }

    /// In the first half, half the square of twice `t`; from the middle on, one
    /// less half the square of twice what `t` lacks to one. In the middle both
    /// are a half.
    pub fn quad_inout<T>(&self, t: T) -> (r: T)
        where T: PartialOrd + Sub<Output = T> + Mul<Output = T> + Div<Output = T> + From<i8> + Copy
        requires
            T::obeys_partial_cmp_spec(),
            T::obeys_sub_spec(),
            T::obeys_mul_spec(),
            T::obeys_div_spec(),
            T::obeys_from_spec(),
            Self::quad_inout_req(t),
        ensures
            r == Self::quad_inout_spec(t),
    {
        let one = T::from(1i8);
        let two = T::from(2i8);
        if t < one / two {
            let v = two * t;
            v * v / two
        } else {
            let v = two - two * t;
            one - v * v / two
        }
    }

    /// The cube of `t`.
    pub open spec fn cubic_in_spec<T>(t: T) -> T
        where T: Mul<Output = T> + Copy
    {
        Self::quad_in_spec(t).mul_spec(t)
    }

    /// Whether each step of `cubic_in` is defined.
    pub open spec fn cubic_in_req<T>(t: T) -> bool
        where T: Mul<Output = T> + Copy
    {
        Self::quad_in_req(t) && Self::quad_in_spec(t).mul_req(t)
    }

    /// The cube of `t`.
    pub fn cubic_in<T>(&self, t: T) -> (r: T)
        where T: Mul<Output = T> + Copy
        requires
            T::obeys_mul_spec(),
            Self::cubic_in_req(t),
        ensures
            r == Self::cubic_in_spec(t),
    {
        t * t * t
    }

    /// One less the cube of what `t` lacks to one.
    pub open spec fn cubic_out_spec<T>(t: T) -> T
        where T: Sub<Output = T> + Mul<Output = T> + From<i8> + Copy
    {
        T::from_spec(1i8).sub_spec(Self::cubic_in_spec(T::from_spec(1i8).sub_spec(t)))
    }

    /// Whether each step of `cubic_out` is defined.
    pub open spec fn cubic_out_req<T>(t: T) -> bool
        where T: Sub<Output = T> + Mul<Output = T> + From<i8> + Copy
    {
        &&& T::from_spec(1i8).sub_req(t)
        &&& Self::cubic_in_req(T::from_spec(1i8).sub_spec(t))
        &&& T::from_spec(1i8).sub_req(Self::cubic_in_spec(T::from_spec(1i8).sub_spec(t)))
    }

    /// One less the cube of what `t` lacks to one.
    pub fn cubic_out<T>(&self, t: T) -> (r: T)
        where T: Sub<Output = T> + Mul<Output = T> + From<i8> + Copy
        requires
            T::obeys_sub_spec(),
            T::obeys_mul_spec(),
            T::obeys_from_spec(),
            Self::cubic_out_req(t),
        ensures
            r == Self::cubic_out_spec(t),
    {
        let one = T::from(1i8);
        let v = one - t;
        one - v * v * v
    }

    /// In the first half, half the cube of twice `t`; from the middle on, one
    /// less half the cube of twice what `t` lacks to one. In the middle both
    /// are a half.
    pub open spec fn cubic_inout_spec<T>(t: T) -> T
        where T: PartialOrd + Sub<Output = T> + Mul<Output = T> + Div<Output = T> + From<i8> + Copy
    {
        if t.is_lt(&T::from_spec(1i8).div_spec(T::from_spec(2i8))) {
            Self::cubic_in_spec(T::from_spec(2i8).mul_spec(t)).div_spec(T::from_spec(2i8))
        } else {
            T::from_spec(1i8).sub_spec(
                Self::cubic_in_spec(
                    T::from_spec(2i8).sub_spec(T::from_spec(2i8).mul_spec(t))
                ).div_spec(T::from_spec(2i8))
            )
        }
    }

    /// Whether each step of `cubic_inout` is defined.
    pub open spec fn cubic_inout_req<T>(t: T) -> bool
        where T: PartialOrd + Sub<Output = T> + Mul<Output = T> + Div<Output = T> + From<i8> + Copy
    {
        &&& T::from_spec(1i8).div_req(T::from_spec(2i8))
        &&& if t.is_lt(&T::from_spec(1i8).div_spec(T::from_spec(2i8))) {
            &&& T::from_spec(2i8).mul_req(t)
            &&& Self::cubic_in_req(T::from_spec(2i8).mul_spec(t))
            &&& Self::cubic_in_spec(T::from_spec(2i8).mul_spec(t)).div_req(T::from_spec(2i8))
        } else {
            &&& T::from_spec(2i8).mul_req(t)
            &&& T::from_spec(2i8).sub_req(T::from_spec(2i8).mul_spec(t))
            &&& Self::cubic_in_req(T::from_spec(2i8).sub_spec(T::from_spec(2i8).mul_spec(t)))
            &&& Self::cubic_in_spec(
                T::from_spec(2i8).sub_spec(T::from_spec(2i8).mul_spec(t))
            ).div_req(T::from_spec(2i8))
            &&& T::from_spec(1i8).sub_req(
                Self::cubic_in_spec(
                    T::from_spec(2i8).sub_spec(T::from_spec(2i8).mul_spec(t))
                ).div_spec(T::from_spec(2i8))
            )
        }
    }

    /// In the first half, half the cube of twice `t`; from the middle on, one
    /// less half the cube of twice what `t` lacks to one. In the middle both
    /// are a half.
    pub fn cubic_inout<T>(&self, t: T) -> (r: T)
        where T: PartialOrd + Sub<Output = T> + Mul<Output = T> + Div<Output = T> + From<i8> + Copy
        requires
            T::obeys_partial_cmp_spec(),
            T::obeys_sub_spec(),
            T::obeys_mul_spec(),
            T::obeys_div_spec(),
            T::obeys_from_spec(),
            Self::cubic_inout_req(t),
        ensures
            r == Self::cubic_inout_spec(t),
    {
        let one = T::from(1i8);
        let two = T::from(2i8);
        if t < one / two {
            let v = two * t;
            v * v * v / two
        } else {
            let v = two - two * t;
            one - v * v * v / two
        }
    }

    /// The fourth power of `t`.
    pub open spec fn quart_in_spec<T>(t: T) -> T
        where T: Mul<Output = T> + Copy
    {
        Self::cubic_in_spec(t).mul_spec(t)
    }

    /// Whether each step of `quart_in` is defined.
    pub open spec fn quart_in_req<T>(t: T) -> bool
        where T: Mul<Output = T> + Copy
    {
        Self::cubic_in_req(t) && Self::cubic_in_spec(t).mul_req(t)
    }

    /// The fourth power of `t`.
    pub fn quart_in<T>(&self, t: T) -> (r: T)
        where T: Mul<Output = T> + Copy
        requires
            T::obeys_mul_spec(),
            Self::quart_in_req(t),
        ensures
            r == Self::quart_in_spec(t),
    {
        t * t * t * t
    }

    /// One less the fourth power of what `t` lacks to one.
    pub open spec fn quart_out_spec<T>(t: T) -> T
        where T: Sub<Output = T> + Mul<Output = T> + From<i8> + Copy
    {
        T::from_spec(1i8).sub_spec(Self::quart_in_spec(T::from_spec(1i8).sub_spec(t)))
    }

    /// Whether each step of `quart_out` is defined.
    pub open spec fn quart_out_req<T>(t: T) -> bool
        where T: Sub<Output = T> + Mul<Output = T> + From<i8> + Copy
    {
        &&& T::from_spec(1i8).sub_req(t)
        &&& Self::quart_in_req(T::from_spec(1i8).sub_spec(t))
        &&& T::from_spec(1i8).sub_req(Self::quart_in_spec(T::from_spec(1i8).sub_spec(t)))
    }

    /// One less the fourth power of what `t` lacks to one.
    pub fn quart_out<T>(&self, t: T) -> (r: T)
        where T: Sub<Output = T> + Mul<Output = T> + From<i8> + Copy
        requires
            T::obeys_sub_spec(),
            T::obeys_mul_spec(),
            T::obeys_from_spec(),
            Self::quart_out_req(t),
        ensures
            r == Self::quart_out_spec(t),
    {
        let one = T::from(1i8);
        let v = one - t;
        one - v * v * v * v
    }

    /// In the first half, half the fourth power of twice `t`; from the middle
    /// on, one less half the fourth power of twice what `t` lacks to one. In
    /// the middle both are a half.
    pub open spec fn quart_inout_spec<T>(t: T) -> T
        where T: PartialOrd + Sub<Output = T> + Mul<Output = T> + Div<Output = T> + From<i8> + Copy
    {
        if t.is_lt(&T::from_spec(1i8).div_spec(T::from_spec(2i8))) {
            Self::quart_in_spec(T::from_spec(2i8).mul_spec(t)).div_spec(T::from_spec(2i8))
        } else {
            T::from_spec(1i8).sub_spec(
                Self::quart_in_spec(
                    T::from_spec(2i8).sub_spec(T::from_spec(2i8).mul_spec(t))
                ).div_spec(T::from_spec(2i8))
            )
        }
    }

    /// Whether each step of `quart_inout` is defined.
    pub open spec fn quart_inout_req<T>(t: T) -> bool
        where T: PartialOrd + Sub<Output = T> + Mul<Output = T> + Div<Output = T> + From<i8> + Copy
    {
        &&& T::from_spec(1i8).div_req(T::from_spec(2i8))
        &&& if t.is_lt(&T::from_spec(1i8).div_spec(T::from_spec(2i8))) {
            &&& T::from_spec(2i8).mul_req(t)
            &&& Self::quart_in_req(T::from_spec(2i8).mul_spec(t))
            &&& Self::quart_in_spec(T::from_spec(2i8).mul_spec(t)).div_req(T::from_spec(2i8))
        } else {
            &&& T::from_spec(2i8).mul_req(t)
            &&& T::from_spec(2i8).sub_req(T::from_spec(2i8).mul_spec(t))
            &&& Self::quart_in_req(T::from_spec(2i8).sub_spec(T::from_spec(2i8).mul_spec(t)))
            &&& Self::quart_in_spec(
                T::from_spec(2i8).sub_spec(T::from_spec(2i8).mul_spec(t))
            ).div_req(T::from_spec(2i8))
            &&& T::from_spec(1i8).sub_req(
                Self::quart_in_spec(
                    T::from_spec(2i8).sub_spec(T::from_spec(2i8).mul_spec(t))
                ).div_spec(T::from_spec(2i8))
            )
        }
    }

    /// In the first half, half the fourth power of twice `t`; from the middle
    /// on, one less half the fourth power of twice what `t` lacks to one. In
    /// the middle both are a half.
    pub fn quart_inout<T>(&self, t: T) -> (r: T)
        where T: PartialOrd + Sub<Output = T> + Mul<Output = T> + Div<Output = T> + From<i8> + Copy
        requires
            T::obeys_partial_cmp_spec(),
            T::obeys_sub_spec(),
            T::obeys_mul_spec(),
            T::obeys_div_spec(),
            T::obeys_from_spec(),
            Self::quart_inout_req(t),
        ensures
            r == Self::quart_inout_spec(t),
    {
        let one = T::from(1i8);
        let two = T::from(2i8);
        if t < one / two {
            let v = two * t;
            v * v * v * v / two
        } else {
            let v = two - two * t;
            one - v * v * v * v / two
        }
    }

    /// The fifth power of `t`.
    pub open spec fn quint_in_spec<T>(t: T) -> T
        where T: Mul<Output = T> + Copy
    {
        Self::quart_in_spec(t).mul_spec(t)
    }

    /// Whether each step of `quint_in` is defined.
    pub open spec fn quint_in_req<T>(t: T) -> bool
        where T: Mul<Output = T> + Copy
    {
        Self::quart_in_req(t) && Self::quart_in_spec(t).mul_req(t)
    }

    /// The fifth power of `t`.
    pub fn quint_in<T>(&self, t: T) -> (r: T)
        where T: Mul<Output = T> + Copy
        requires
            T::obeys_mul_spec(),
            Self::quint_in_req(t),
        ensures
            r == Self::quint_in_spec(t),
    {
        t * t * t * t * t
    }

    /// One less the fifth power of what `t` lacks to one.
    pub open spec fn quint_out_spec<T>(t: T) -> T
        where T: Sub<Output = T> + Mul<Output = T> + From<i8> + Copy
    {
        T::from_spec(1i8).sub_spec(Self::quint_in_spec(T::from_spec(1i8).sub_spec(t)))
    }

    /// Whether each step of `quint_out` is defined.
    pub open spec fn quint_out_req<T>(t: T) -> bool
        where T: Sub<Output = T> + Mul<Output = T> + From<i8> + Copy
    {
        &&& T::from_spec(1i8).sub_req(t)
        &&& Self::quint_in_req(T::from_spec(1i8).sub_spec(t))
        &&& T::from_spec(1i8).sub_req(Self::quint_in_spec(T::from_spec(1i8).sub_spec(t)))
    }

    /// One less the fifth power of what `t` lacks to one.
    pub fn quint_out<T>(&self, t: T) -> (r: T)
        where T: Sub<Output = T> + Mul<Output = T> + From<i8> + Copy
        requires
            T::obeys_sub_spec(),
            T::obeys_mul_spec(),
            T::obeys_from_spec(),
            Self::quint_out_req(t),
        ensures
            r == Self::quint_out_spec(t),
    {
        let one = T::from(1i8);
        let v = one - t;
        one - v * v * v * v * v
    }

    /// In the first half, half the fifth power of twice `t`; from the middle
    /// on, one less half the fifth power of twice what `t` lacks to one. In the
    /// middle both are a half.
    pub open spec fn quint_inout_spec<T>(t: T) -> T
        where T: PartialOrd + Sub<Output = T> + Mul<Output = T> + Div<Output = T> + From<i8> + Copy
    {
        if t.is_lt(&T::from_spec(1i8).div_spec(T::from_spec(2i8))) {
            Self::quint_in_spec(T::from_spec(2i8).mul_spec(t)).div_spec(T::from_spec(2i8))
        } else {
            T::from_spec(1i8).sub_spec(
                Self::quint_in_spec(
                    T::from_spec(2i8).sub_spec(T::from_spec(2i8).mul_spec(t))
                ).div_spec(T::from_spec(2i8))
            )
        }
    }

    /// Whether each step of `quint_inout` is defined.
    pub open spec fn quint_inout_req<T>(t: T) -> bool
        where T: PartialOrd + Sub<Output = T> + Mul<Output = T> + Div<Output = T> + From<i8> + Copy
    {
        &&& T::from_spec(1i8).div_req(T::from_spec(2i8))
        &&& if t.is_lt(&T::from_spec(1i8).div_spec(T::from_spec(2i8))) {
            &&& T::from_spec(2i8).mul_req(t)
            &&& Self::quint_in_req(T::from_spec(2i8).mul_spec(t))
            &&& Self::quint_in_spec(T::from_spec(2i8).mul_spec(t)).div_req(T::from_spec(2i8))
        } else {
            &&& T::from_spec(2i8).mul_req(t)
            &&& T::from_spec(2i8).sub_req(T::from_spec(2i8).mul_spec(t))
            &&& Self::quint_in_req(T::from_spec(2i8).sub_spec(T::from_spec(2i8).mul_spec(t)))
            &&& Self::quint_in_spec(
                T::from_spec(2i8).sub_spec(T::from_spec(2i8).mul_spec(t))
            ).div_req(T::from_spec(2i8))
            &&& T::from_spec(1i8).sub_req(
                Self::quint_in_spec(
                    T::from_spec(2i8).sub_spec(T::from_spec(2i8).mul_spec(t))
                ).div_spec(T::from_spec(2i8))
            )
        }
    }

    /// In the first half, half the fifth power of twice `t`; from the middle
    /// on, one less half the fifth power of twice what `t` lacks to one. In the
    /// middle both are a half.
    pub fn quint_inout<T>(&self, t: T) -> (r: T)
        where T: PartialOrd + Sub<Output = T> + Mul<Output = T> + Div<Output = T> + From<i8> + Copy
        requires
            T::obeys_partial_cmp_spec(),
            T::obeys_sub_spec(),
            T::obeys_mul_spec(),
            T::obeys_div_spec(),
            T::obeys_from_spec(),
            Self::quint_inout_req(t),
        ensures
            r == Self::quint_inout_spec(t),
    {
        let one = T::from(1i8);
        let two = T::from(2i8);
        if t < one / two {
            let v = two * t;
            v * v * v * v * v / two
        } else {
            let v = two - two * t;
            one - v * v * v * v * v / two
        }
    }

    /// The sixth power of `t`.
    pub open spec fn sext_in_spec<T>(t: T) -> T
        where T: Mul<Output = T> + Copy
    {
        Self::quint_in_spec(t).mul_spec(t)
    }

    /// Whether each step of `sext_in` is defined.
    pub open spec fn sext_in_req<T>(t: T) -> bool
        where T: Mul<Output = T> + Copy
    {
        Self::quint_in_req(t) && Self::quint_in_spec(t).mul_req(t)
    }

    /// The sixth power of `t`.
    pub fn sext_in<T>(&self, t: T) -> (r: T)
        where T: Mul<Output = T> + Copy
        requires
            T::obeys_mul_spec(),
            Self::sext_in_req(t),
        ensures
            r == Self::sext_in_spec(t),
    {
        t * t * t * t * t * t
    }

    /// One less the sixth power of what `t` lacks to one.
    pub open spec fn sext_out_spec<T>(t: T) -> T
        where T: Sub<Output = T> + Mul<Output = T> + From<i8> + Copy
    {
        T::from_spec(1i8).sub_spec(Self::sext_in_spec(T::from_spec(1i8).sub_spec(t)))
    }

    /// Whether each step of `sext_out` is defined.
    pub open spec fn sext_out_req<T>(t: T) -> bool
        where T: Sub<Output = T> + Mul<Output = T> + From<i8> + Copy
    {
        &&& T::from_spec(1i8).sub_req(t)
        &&& Self::sext_in_req(T::from_spec(1i8).sub_spec(t))
        &&& T::from_spec(1i8).sub_req(Self::sext_in_spec(T::from_spec(1i8).sub_spec(t)))
    }

    /// One less the sixth power of what `t` lacks to one.
    pub fn sext_out<T>(&self, t: T) -> (r: T)
        where T: Sub<Output = T> + Mul<Output = T> + From<i8> + Copy
        requires
            T::obeys_sub_spec(),
            T::obeys_mul_spec(),
            T::obeys_from_spec(),
            Self::sext_out_req(t),
        ensures
            r == Self::sext_out_spec(t),
    {
        let one = T::from(1i8);
        let v = one - t;
        one - v * v * v * v * v * v
    }

    /// In the first half, half the sixth power of twice `t`; from the middle
    /// on, one less half the sixth power of twice what `t` lacks to one. In the
    /// middle both are a half.
    pub open spec fn sext_inout_spec<T>(t: T) -> T
        where T: PartialOrd + Sub<Output = T> + Mul<Output = T> + Div<Output = T> + From<i8> + Copy
    {
        if t.is_lt(&T::from_spec(1i8).div_spec(T::from_spec(2i8))) {
            Self::sext_in_spec(T::from_spec(2i8).mul_spec(t)).div_spec(T::from_spec(2i8))
        } else {
            T::from_spec(1i8).sub_spec(
                Self::sext_in_spec(
                    T::from_spec(2i8).sub_spec(T::from_spec(2i8).mul_spec(t))
                ).div_spec(T::from_spec(2i8))
            )
        }
    }

    /// Whether each step of `sext_inout` is defined.
    pub open spec fn sext_inout_req<T>(t: T) -> bool
        where T: PartialOrd + Sub<Output = T> + Mul<Output = T> + Div<Output = T> + From<i8> + Copy
    {
        &&& T::from_spec(1i8).div_req(T::from_spec(2i8))
        &&& if t.is_lt(&T::from_spec(1i8).div_spec(T::from_spec(2i8))) {
            &&& T::from_spec(2i8).mul_req(t)
            &&& Self::sext_in_req(T::from_spec(2i8).mul_spec(t))
            &&& Self::sext_in_spec(T::from_spec(2i8).mul_spec(t)).div_req(T::from_spec(2i8))
        } else {
            &&& T::from_spec(2i8).mul_req(t)
            &&& T::from_spec(2i8).sub_req(T::from_spec(2i8).mul_spec(t))
            &&& Self::sext_in_req(T::from_spec(2i8).sub_spec(T::from_spec(2i8).mul_spec(t)))
            &&& Self::sext_in_spec(
                T::from_spec(2i8).sub_spec(T::from_spec(2i8).mul_spec(t))
            ).div_req(T::from_spec(2i8))
            &&& T::from_spec(1i8).sub_req(
                Self::sext_in_spec(
                    T::from_spec(2i8).sub_spec(T::from_spec(2i8).mul_spec(t))
                ).div_spec(T::from_spec(2i8))
            )
        }
    }

    /// In the first half, half the sixth power of twice `t`; from the middle
    /// on, one less half the sixth power of twice what `t` lacks to one. In the
    /// middle both are a half.
    pub fn sext_inout<T>(&self, t: T) -> (r: T)
        where T: PartialOrd + Sub<Output = T> + Mul<Output = T> + Div<Output = T> + From<i8> + Copy
        requires
            T::obeys_partial_cmp_spec(),
            T::obeys_sub_spec(),
            T::obeys_mul_spec(),
            T::obeys_div_spec(),
            T::obeys_from_spec(),
            Self::sext_inout_req(t),
        ensures
            r == Self::sext_inout_spec(t),
    {
        let one = T::from(1i8);
        let two = T::from(2i8);
        if t < one / two {
            let v = two * t;
            v * v * v * v * v * v / two
        } else {
            let v = two - two * t;
            one - v * v * v * v * v * v / two
        }
    }

    /// The seventh power of `t`.
    pub open spec fn sept_in_spec<T>(t: T) -> T
        where T: Mul<Output = T> + Copy
    {
        Self::sext_in_spec(t).mul_spec(t)
    }

    /// Whether each step of `sept_in` is defined.
    pub open spec fn sept_in_req<T>(t: T) -> bool
        where T: Mul<Output = T> + Copy
    {
        Self::sext_in_req(t) && Self::sext_in_spec(t).mul_req(t)
    }

    /// The seventh power of `t`.
    pub fn sept_in<T>(&self, t: T) -> (r: T)
        where T: Mul<Output = T> + Copy
        requires
            T::obeys_mul_spec(),
            Self::sept_in_req(t),
        ensures
            r == Self::sept_in_spec(t),
    {
        t * t * t * t * t * t * t
    }

    /// One less the seventh power of what `t` lacks to one.
    pub open spec fn sept_out_spec<T>(t: T) -> T
        where T: Sub<Output = T> + Mul<Output = T> + From<i8> + Copy
    {
        T::from_spec(1i8).sub_spec(Self::sept_in_spec(T::from_spec(1i8).sub_spec(t)))
    }

    /// Whether each step of `sept_out` is defined.
    pub open spec fn sept_out_req<T>(t: T) -> bool
        where T: Sub<Output = T> + Mul<Output = T> + From<i8> + Copy
    {
        &&& T::from_spec(1i8).sub_req(t)
        &&& Self::sept_in_req(T::from_spec(1i8).sub_spec(t))
        &&& T::from_spec(1i8).sub_req(Self::sept_in_spec(T::from_spec(1i8).sub_spec(t)))
    }

    /// One less the seventh power of what `t` lacks to one.
    pub fn sept_out<T>(&self, t: T) -> (r: T)
        where T: Sub<Output = T> + Mul<Output = T> + From<i8> + Copy
        requires
            T::obeys_sub_spec(),
            T::obeys_mul_spec(),
            T::obeys_from_spec(),
            Self::sept_out_req(t),
        ensures
            r == Self::sept_out_spec(t),
    {
        let one = T::from(1i8);
        let v = one - t;
        one - v * v * v * v * v * v * v
    }

    /// In the first half, half the seventh power of twice `t`; from the middle
    /// on, one less half the seventh power of twice what `t` lacks to one. In
    /// the middle both are a half.
    pub open spec fn sept_inout_spec<T>(t: T) -> T
        where T: PartialOrd + Sub<Output = T> + Mul<Output = T> + Div<Output = T> + From<i8> + Copy
    {
        if t.is_lt(&T::from_spec(1i8).div_spec(T::from_spec(2i8))) {
            Self::sept_in_spec(T::from_spec(2i8).mul_spec(t)).div_spec(T::from_spec(2i8))
        } else {
            T::from_spec(1i8).sub_spec(
                Self::sept_in_spec(
                    T::from_spec(2i8).sub_spec(T::from_spec(2i8).mul_spec(t))
                ).div_spec(T::from_spec(2i8))
            )
        }
    }

    /// Whether each step of `sept_inout` is defined.
    pub open spec fn sept_inout_req<T>(t: T) -> bool
        where T: PartialOrd + Sub<Output = T> + Mul<Output = T> + Div<Output = T> + From<i8> + Copy
    {
        &&& T::from_spec(1i8).div_req(T::from_spec(2i8))
        &&& if t.is_lt(&T::from_spec(1i8).div_spec(T::from_spec(2i8))) {
            &&& T::from_spec(2i8).mul_req(t)
            &&& Self::sept_in_req(T::from_spec(2i8).mul_spec(t))
            &&& Self::sept_in_spec(T::from_spec(2i8).mul_spec(t)).div_req(T::from_spec(2i8))
        } else {
            &&& T::from_spec(2i8).mul_req(t)
            &&& T::from_spec(2i8).sub_req(T::from_spec(2i8).mul_spec(t))
            &&& Self::sept_in_req(T::from_spec(2i8).sub_spec(T::from_spec(2i8).mul_spec(t)))
            &&& Self::sept_in_spec(
                T::from_spec(2i8).sub_spec(T::from_spec(2i8).mul_spec(t))
            ).div_req(T::from_spec(2i8))
            &&& T::from_spec(1i8).sub_req(
                Self::sept_in_spec(
                    T::from_spec(2i8).sub_spec(T::from_spec(2i8).mul_spec(t))
                ).div_spec(T::from_spec(2i8))
            )
        }
    }

    /// In the first half, half the seventh power of twice `t`; from the middle
    /// on, one less half the seventh power of twice what `t` lacks to one. In
    /// the middle both are a half.
    pub fn sept_inout<T>(&self, t: T) -> (r: T)
        where T: PartialOrd + Sub<Output = T> + Mul<Output = T> + Div<Output = T> + From<i8> + Copy
        requires
            T::obeys_partial_cmp_spec(),
            T::obeys_sub_spec(),
            T::obeys_mul_spec(),
            T::obeys_div_spec(),
            T::obeys_from_spec(),
            Self::sept_inout_req(t),
        ensures
            r == Self::sept_inout_spec(t),
    {
        let one = T::from(1i8);
        let two = T::from(2i8);
        if t < one / two {
            let v = two * t;
            v * v * v * v * v * v * v / two
        } else {
            let v = two - two * t;
            one - v * v * v * v * v * v * v / two
        }
    }

    /// The eighth power of `t`.
    pub open spec fn oct_in_spec<T>(t: T) -> T
        where T: Mul<Output = T> + Copy
    {
        Self::sept_in_spec(t).mul_spec(t)
    }

    /// Whether each step of `oct_in` is defined.
    pub open spec fn oct_in_req<T>(t: T) -> bool
        where T: Mul<Output = T> + Copy
    {
        Self::sept_in_req(t) && Self::sept_in_spec(t).mul_req(t)
    }

    /// The eighth power of `t`.
    pub fn oct_in<T>(&self, t: T) -> (r: T)
        where T: Mul<Output = T> + Copy
        requires
            T::obeys_mul_spec(),
            Self::oct_in_req(t),
        ensures
            r == Self::oct_in_spec(t),
    {
        t * t * t * t * t * t * t * t
    }

    /// One less the eighth power of what `t` lacks to one.
    pub open spec fn oct_out_spec<T>(t: T) -> T
        where T: Sub<Output = T> + Mul<Output = T> + From<i8> + Copy
    {
        T::from_spec(1i8).sub_spec(Self::oct_in_spec(T::from_spec(1i8).sub_spec(t)))
    }

    /// Whether each step of `oct_out` is defined.
    pub open spec fn oct_out_req<T>(t: T) -> bool
        where T: Sub<Output = T> + Mul<Output = T> + From<i8> + Copy
    {
        &&& T::from_spec(1i8).sub_req(t)
        &&& Self::oct_in_req(T::from_spec(1i8).sub_spec(t))
        &&& T::from_spec(1i8).sub_req(Self::oct_in_spec(T::from_spec(1i8).sub_spec(t)))
    }

    /// One less the eighth power of what `t` lacks to one.
    pub fn oct_out<T>(&self, t: T) -> (r: T)
        where T: Sub<Output = T> + Mul<Output = T> + From<i8> + Copy
        requires
            T::obeys_sub_spec(),
            T::obeys_mul_spec(),
            T::obeys_from_spec(),
            Self::oct_out_req(t),
        ensures
            r == Self::oct_out_spec(t),
    {
        let one = T::from(1i8);
        let v = one - t;
        one - v * v * v * v * v * v * v * v
    }

    /// In the first half, half the eighth power of twice `t`; from the middle
    /// on, one less half the eighth power of twice what `t` lacks to one. In
    /// the middle both are a half.
    pub open spec fn oct_inout_spec<T>(t: T) -> T
        where T: PartialOrd + Sub<Output = T> + Mul<Output = T> + Div<Output = T> + From<i8> + Copy
    {
        if t.is_lt(&T::from_spec(1i8).div_spec(T::from_spec(2i8))) {
            Self::oct_in_spec(T::from_spec(2i8).mul_spec(t)).div_spec(T::from_spec(2i8))
        } else {
            T::from_spec(1i8).sub_spec(
                Self::oct_in_spec(
                    T::from_spec(2i8).sub_spec(T::from_spec(2i8).mul_spec(t))
                ).div_spec(T::from_spec(2i8))
            )
        }
    }

    /// Whether each step of `oct_inout` is defined.
    pub open spec fn oct_inout_req<T>(t: T) -> bool
        where T: PartialOrd + Sub<Output = T> + Mul<Output = T> + Div<Output = T> + From<i8> + Copy
    {
        &&& T::from_spec(1i8).div_req(T::from_spec(2i8))
        &&& if t.is_lt(&T::from_spec(1i8).div_spec(T::from_spec(2i8))) {
            &&& T::from_spec(2i8).mul_req(t)
            &&& Self::oct_in_req(T::from_spec(2i8).mul_spec(t))
            &&& Self::oct_in_spec(T::from_spec(2i8).mul_spec(t)).div_req(T::from_spec(2i8))
        } else {
            &&& T::from_spec(2i8).mul_req(t)
            &&& T::from_spec(2i8).sub_req(T::from_spec(2i8).mul_spec(t))
            &&& Self::oct_in_req(T::from_spec(2i8).sub_spec(T::from_spec(2i8).mul_spec(t)))
            &&& Self::oct_in_spec(
                T::from_spec(2i8).sub_spec(T::from_spec(2i8).mul_spec(t))
            ).div_req(T::from_spec(2i8))
            &&& T::from_spec(1i8).sub_req(
                Self::oct_in_spec(
                    T::from_spec(2i8).sub_spec(T::from_spec(2i8).mul_spec(t))
                ).div_spec(T::from_spec(2i8))
            )
        }
    }

    /// In the first half, half the eighth power of twice `t`; from the middle
    /// on, one less half the eighth power of twice what `t` lacks to one. In
    /// the middle both are a half.
    pub fn oct_inout<T>(&self, t: T) -> (r: T)
        where T: PartialOrd + Sub<Output = T> + Mul<Output = T> + Div<Output = T> + From<i8> + Copy
        requires
            T::obeys_partial_cmp_spec(),
            T::obeys_sub_spec(),
            T::obeys_mul_spec(),
            T::obeys_div_spec(),
            T::obeys_from_spec(),
            Self::oct_inout_req(t),
        ensures
            r == Self::oct_inout_spec(t),
    {
        let one = T::from(1i8);
        let two = T::from(2i8);
        if t < one / two {
            let v = two * t;
            v * v * v * v * v * v * v * v / two
        } else {
            let v = two - two * t;
            one - v * v * v * v * v * v * v * v / two
        }
    }

    /// `t` rounded to the nearest whole number, as `T` rounds.
    pub fn clamp<T>(&self, t: T) -> (r: T)
        where T: Float
        ensures
            round_of(t, r),
    {
        float_round(t)
    }

    /// One less `p`.
    pub open spec fn sine_in_with_spec<T>(p: T) -> T
        where T: Sub<Output = T> + From<i8> + Copy
    {
        T::from_spec(1i8).sub_spec(p)
    }

    /// Whether each step of `sine_in_with` is defined.
    pub open spec fn sine_in_with_req<T>(p: T) -> bool
        where T: Sub<Output = T> + From<i8> + Copy
    {
        &&& T::from_spec(1i8).sub_req(p)
    }

    /// One less `p`.
    pub fn sine_in_with<T>(&self, p: T) -> (r: T)
        where T: Sub<Output = T> + From<i8> + Copy
        requires
            T::obeys_from_spec(),
            Self::sine_in_with_req(p),
        ensures
            T::obeys_sub_spec() ==> r == Self::sine_in_with_spec(p),
    {
        let one: T = From::from(1i8);
        one - p
    }

    /// The angle of `t` quarter turns, where `pi` is the pi of `T`.
    pub open spec fn sine_in_argument<T>(t: T, pi: T) -> T
        where T: Mul<Output = T> + Div<Output = T> + From<i8> + Copy
    {
        t.mul_spec(pi).div_spec(T::from_spec(2i8))
    }

    /// Whether each step of `sine_in_argument` is defined.
    pub open spec fn sine_in_req<T>(t: T, pi: T) -> bool
        where T: Mul<Output = T> + Div<Output = T> + From<i8> + Copy
    {
        &&& t.mul_req(pi)
        &&& t.mul_spec(pi).div_req(T::from_spec(2i8))
    }

    /// One less the cosine, as `T` computes it, of `t` quarter turns: `t` times
    /// the pi of `T`, divided by two.
    pub fn sine_in<T>(&self, t: T) -> (r: T)
        where
            T: Float + FloatConst + Sub<Output = T> + Mul<Output = T> + Div<Output = T> + From<i8>
                + Copy,
        requires
            T::obeys_mul_spec(),
            T::obeys_div_spec(),
            T::obeys_from_spec(),
            forall|pi: T| #[trigger] is_pi(pi) ==> Self::sine_in_req(t, pi),
            forall|pi: T, p: T|
                is_pi(pi) && #[trigger] cos_of(Self::sine_in_argument(t, pi), p)
                    ==> Self::sine_in_with_req(p),
        ensures
            T::obeys_sub_spec() ==> exists|pi: T, p: T|
                is_pi(pi) && #[trigger] cos_of(Self::sine_in_argument(t, pi), p)
                    && r == Self::sine_in_with_spec(p),
    {
        let two: T = From::from(2i8);
        let pi: T = float_pi();
        let argument = t * pi / two;
        assert(argument == Self::sine_in_argument(t, pi));
        let p = float_cos(argument);
        self.sine_in_with(p)
    }

    /// The angle of `t` quarter turns, where `pi` is the pi of `T`.
    pub open spec fn sine_out_argument<T>(t: T, pi: T) -> T
        where T: Mul<Output = T> + Div<Output = T> + From<i8> + Copy
    {
        t.mul_spec(pi).div_spec(T::from_spec(2i8))
    }

    /// Whether each step of `sine_out_argument` is defined.
    pub open spec fn sine_out_req<T>(t: T, pi: T) -> bool
        where T: Mul<Output = T> + Div<Output = T> + From<i8> + Copy
    {
        &&& t.mul_req(pi)
        &&& t.mul_spec(pi).div_req(T::from_spec(2i8))
    }

    /// The sine, as `T` computes it, of `t` quarter turns: `t` times the pi of
    /// `T`, divided by two.
    pub fn sine_out<T>(&self, t: T) -> (r: T)
        where T: Float + FloatConst + Mul<Output = T> + Div<Output = T> + From<i8> + Copy
        requires
            T::obeys_mul_spec(),
            T::obeys_div_spec(),
            T::obeys_from_spec(),
            forall|pi: T| #[trigger] is_pi(pi) ==> Self::sine_out_req(t, pi),
        ensures
            exists|pi: T| #[trigger] is_pi(pi) && sin_of(Self::sine_out_argument(t, pi), r),
    {
        let two: T = From::from(2i8);
        let pi: T = float_pi();
        let argument = t * pi / two;
        assert(argument == Self::sine_out_argument(t, pi));
        float_sin(argument)
    }

    /// Half of what `p` lacks to one: `-(p - 1) / 2`.
    pub open spec fn sine_inout_with_spec<T>(p: T) -> T
        where T: Sub<Output = T> + Div<Output = T> + Neg<Output = T> + From<i8> + Copy
    {
        p.sub_spec(T::from_spec(1i8)).neg_spec().div_spec(T::from_spec(2i8))
    }

    /// Whether each step of `sine_inout_with` is defined.
    pub open spec fn sine_inout_with_req<T>(p: T) -> bool
        where T: Sub<Output = T> + Div<Output = T> + Neg<Output = T> + From<i8> + Copy
    {
        &&& p.sub_req(T::from_spec(1i8))
        &&& p.sub_spec(T::from_spec(1i8)).neg_req()
        &&& p.sub_spec(T::from_spec(1i8)).neg_spec().div_req(T::from_spec(2i8))
    }

    /// Half of what `p` lacks to one: `-(p - 1) / 2`.
    pub fn sine_inout_with<T>(&self, p: T) -> (r: T)
        where T: Sub<Output = T> + Div<Output = T> + Neg<Output = T> + From<i8> + Copy
        requires
            T::obeys_sub_spec(),
            T::obeys_neg_spec(),
            T::obeys_from_spec(),
            Self::sine_inout_with_req(p),
        ensures
            T::obeys_div_spec() ==> r == Self::sine_inout_with_spec(p),
    {
        let one: T = From::from(1i8);
        let two: T = From::from(2i8);
        (p - one).neg() / two
    }

    /// The angle of `t` half turns, where `pi` is the pi of `T`.
    pub open spec fn sine_inout_argument<T>(t: T, pi: T) -> T
        where T: Mul<Output = T> + Copy
    {
        t.mul_spec(pi)
    }

    /// Whether each step of `sine_inout_argument` is defined.
    pub open spec fn sine_inout_req<T>(t: T, pi: T) -> bool
        where T: Mul<Output = T> + Copy
    {
        &&& t.mul_req(pi)
    }

    /// Half of what the cosine, as `T` computes it, of `t` half turns lacks to
    /// one: `-(cos(t * pi) - 1) / 2`.
    pub fn sine_inout<T>(&self, t: T) -> (r: T)
        where
            T: Float + FloatConst + Sub<Output = T> + Mul<Output = T> + Div<Output = T>
                + Neg<Output = T> + From<i8> + Copy,
        requires
            T::obeys_sub_spec(),
            T::obeys_mul_spec(),
            T::obeys_neg_spec(),
            T::obeys_from_spec(),
            forall|pi: T| #[trigger] is_pi(pi) ==> Self::sine_inout_req(t, pi),
            forall|pi: T, p: T|
                is_pi(pi) && #[trigger] cos_of(Self::sine_inout_argument(t, pi), p)
                    ==> Self::sine_inout_with_req(p),
        ensures
            T::obeys_div_spec() ==> exists|pi: T, p: T|
                is_pi(pi) && #[trigger] cos_of(Self::sine_inout_argument(t, pi), p)
                    && r == Self::sine_inout_with_spec(p),
    {
        let pi: T = float_pi();
        let argument = t * pi;
        assert(argument == Self::sine_inout_argument(t, pi));
        let p = float_cos(argument);
        self.sine_inout_with(p)
    }

    /// One less `p`.
    pub open spec fn circ_in_with_spec<T>(p: T) -> T
        where T: Sub<Output = T> + From<i8> + Copy
    {
        T::from_spec(1i8).sub_spec(p)
    }

    /// Whether each step of `circ_in_with` is defined.
    pub open spec fn circ_in_with_req<T>(p: T) -> bool
        where T: Sub<Output = T> + From<i8> + Copy
    {
        &&& T::from_spec(1i8).sub_req(p)
    }

    /// One less `p`.
    pub fn circ_in_with<T>(&self, p: T) -> (r: T)
        where T: Sub<Output = T> + From<i8> + Copy
        requires
            T::obeys_from_spec(),
            Self::circ_in_with_req(p),
        ensures
            T::obeys_sub_spec() ==> r == Self::circ_in_with_spec(p),
    {
        let one: T = From::from(1i8);
        one - p
    }

    /// One less the square of `t`.
    pub open spec fn circ_in_argument<T>(t: T) -> T
        where T: Sub<Output = T> + Mul<Output = T> + From<i8> + Copy
    {
        T::from_spec(1i8).sub_spec(t.mul_spec(t))
    }

    /// Whether each step of `circ_in_argument` is defined.
    pub open spec fn circ_in_req<T>(t: T) -> bool
        where T: Sub<Output = T> + Mul<Output = T> + From<i8> + Copy
    {
        &&& t.mul_req(t)
        &&& T::from_spec(1i8).sub_req(t.mul_spec(t))
    }

    /// One less the square root, as `T` computes it, of one less the square of
    /// `t`.
    pub fn circ_in<T>(&self, t: T) -> (r: T)
        where T: Float + Sub<Output = T> + Mul<Output = T> + From<i8> + Copy
        requires
            T::obeys_sub_spec(),
            T::obeys_mul_spec(),
            T::obeys_from_spec(),
            Self::circ_in_req(t),
            forall|p: T| #[trigger] sqrt_of(Self::circ_in_argument(t), p) ==>
                Self::circ_in_with_req(p),
        ensures
            T::obeys_sub_spec() ==> exists|p: T|
                #[trigger] sqrt_of(Self::circ_in_argument(t), p)
                    && r == Self::circ_in_with_spec(p),
    {
        let one: T = From::from(1i8);
        let argument = one - t * t;
        assert(argument == Self::circ_in_argument(t));
        let p = float_sqrt(argument);
        self.circ_in_with(p)
    }

    /// One less the square of what `t` lacks to one.
    pub open spec fn circ_out_argument<T>(t: T) -> T
        where T: Sub<Output = T> + Mul<Output = T> + From<i8> + Copy
    {
        T::from_spec(1i8).sub_spec(
            t.sub_spec(T::from_spec(1i8)).mul_spec(t.sub_spec(T::from_spec(1i8)))
        )
    }

    /// Whether each step of `circ_out_argument` is defined.
    pub open spec fn circ_out_req<T>(t: T) -> bool
        where T: Sub<Output = T> + Mul<Output = T> + From<i8> + Copy
    {
        &&& t.sub_req(T::from_spec(1i8))
        &&& t.sub_spec(T::from_spec(1i8)).mul_req(t.sub_spec(T::from_spec(1i8)))
        &&& T::from_spec(1i8).sub_req(
            t.sub_spec(T::from_spec(1i8)).mul_spec(t.sub_spec(T::from_spec(1i8)))
        )
    }

    /// The square root, as `T` computes it, of one less the square of what `t`
    /// lacks to one.
    pub fn circ_out<T>(&self, t: T) -> (r: T)
        where T: Float + Sub<Output = T> + Mul<Output = T> + From<i8> + Copy
        requires
            T::obeys_sub_spec(),
            T::obeys_mul_spec(),
            T::obeys_from_spec(),
            Self::circ_out_req(t),
        ensures
            sqrt_of(Self::circ_out_argument(t), r),
    {
        let one: T = From::from(1i8);
        let v = t - one;
        let argument = one - v * v;
        assert(argument == Self::circ_out_argument(t));
        float_sqrt(argument)
    }

    /// The exponent of the rising half of the exponential curves:
    /// `ten * t - ten`.
    pub open spec fn rising_exponent_spec<T>(t: T) -> T
        where T: Sub<Output = T> + Mul<Output = T> + From<i8> + Copy
    {
        T::from_spec(10i8).mul_spec(t).sub_spec(T::from_spec(10i8))
    }

    /// Whether each step of `rising_exponent_spec` is defined.
    pub open spec fn rising_exponent_req<T>(t: T) -> bool
        where T: Sub<Output = T> + Mul<Output = T> + From<i8> + Copy
    {
        &&& T::from_spec(10i8).mul_req(t)
        &&& T::from_spec(10i8).mul_spec(t).sub_req(T::from_spec(10i8))
    }

    /// Zero at zero; elsewhere two to the power `ten * t - ten`, as `T`
    /// computes it.
    pub fn expo_in<T>(&self, t: T) -> (r: T)
        where T: Float + PartialOrd + Sub<Output = T> + Mul<Output = T> + From<i8> + Copy
        requires
            T::obeys_eq_spec(),
            T::obeys_mul_spec(),
            T::obeys_from_spec(),
            !t.eq_spec(&T::from_spec(0i8)) ==> Self::rising_exponent_req(t),
        ensures
            t.eq_spec(&T::from_spec(0i8)) ==> r == T::from_spec(0i8),
            !t.eq_spec(&T::from_spec(0i8)) && T::obeys_sub_spec() ==> powf_of(
                T::from_spec(2i8),
                Self::rising_exponent_spec(t),
                r,
            ),
    {
        let zero: T = From::from(0i8);
        if t == zero {
            zero
        } else {
            let two: T = From::from(2i8);
            let ten: T = From::from(10i8);
            float_powf(two, ten * t - ten)
        }
    }

    /// One where `t` is one; elsewhere one less `p`.
    pub open spec fn expo_out_with_spec<T>(t: T, p: T) -> T
        where T: PartialOrd + Sub<Output = T> + From<i8> + Copy
    {
        if t.eq_spec(&T::from_spec(1i8)) {
            T::from_spec(1i8)
        } else {
            T::from_spec(1i8).sub_spec(p)
        }
    }

    /// One where `t` is one; elsewhere one less `p`.
    pub fn expo_out_with<T>(&self, t: T, p: T) -> (r: T)
        where T: PartialOrd + Sub<Output = T> + From<i8> + Copy
        requires
            T::obeys_eq_spec(),
            T::obeys_from_spec(),
            !t.eq_spec(&T::from_spec(1i8)) ==> T::from_spec(1i8).sub_req(p),
        ensures
            T::obeys_sub_spec() ==> r == Self::expo_out_with_spec(t, p),
            t.eq_spec(&T::from_spec(1i8)) ==> r == T::from_spec(1i8),
    {
        let one = T::from(1i8);
        if t == one {
            one
        } else {
            one - p
        }
    }

    /// One at one; elsewhere one less two to the power `-ten * t`, as `T`
    /// computes it.
    pub fn expo_out<T>(&self, t: T) -> (r: T)
        where T: Float + PartialOrd + Sub<Output = T> + Mul<Output = T> + From<i8> + Copy
        requires
            T::obeys_eq_spec(),
            T::obeys_mul_spec(),
            T::obeys_from_spec(),
            !t.eq_spec(&T::from_spec(1i8)) ==> T::from_spec(-10i8).mul_req(t),
            !t.eq_spec(&T::from_spec(1i8)) ==> forall|p: T| #[trigger]
                powf_of(T::from_spec(2i8), T::from_spec(-10i8).mul_spec(t), p) ==> T::from_spec(
                    1i8,
                ).sub_req(p),
        ensures
            t.eq_spec(&T::from_spec(1i8)) ==> r == T::from_spec(1i8),
            !t.eq_spec(&T::from_spec(1i8)) && T::obeys_sub_spec() ==> exists|p: T| #[trigger]
                powf_of(T::from_spec(2i8), T::from_spec(-10i8).mul_spec(t), p) && r
                    == Self::expo_out_with_spec(t, p),
    {
        let one: T = From::from(1i8);
        if t == one {
            one
        } else {
            let two: T = From::from(2i8);
            let minus_ten: T = From::from(-10i8);
            let p = float_powf(two, minus_ten * t);
            self.expo_out_with(t, p)
        }
    }

    /// Zero at zero and one at one. Elsewhere, in the first half, half of `p`;
    /// from the middle on, half of what `p` lacks to two. With `p` one, as it
    /// is in the middle, both are a half.
    pub open spec fn expo_inout_with_spec<T>(t: T, p: T) -> T
        where T: PartialOrd + Sub<Output = T> + Div<Output = T> + From<i8> + Copy
    {
        if t.eq_spec(&T::from_spec(0i8)) {
            T::from_spec(0i8)
        } else if t.eq_spec(&T::from_spec(1i8)) {
            T::from_spec(1i8)
        } else if t.is_lt(&T::from_spec(1i8).div_spec(T::from_spec(2i8))) {
            p.div_spec(T::from_spec(2i8))
        } else {
            T::from_spec(2i8).sub_spec(p).div_spec(T::from_spec(2i8))
        }
    }

    /// Whether each step of `expo_inout_with` is defined.
    pub open spec fn expo_inout_with_req<T>(t: T, p: T) -> bool
        where T: PartialOrd + Sub<Output = T> + Div<Output = T> + From<i8> + Copy
    {
        !t.eq_spec(&T::from_spec(0i8)) && !t.eq_spec(&T::from_spec(1i8)) ==> {
            &&& T::from_spec(1i8).div_req(T::from_spec(2i8))
            &&& if t.is_lt(&T::from_spec(1i8).div_spec(T::from_spec(2i8))) {
                p.div_req(T::from_spec(2i8))
            } else {
                &&& T::from_spec(2i8).sub_req(p)
                &&& T::from_spec(2i8).sub_spec(p).div_req(T::from_spec(2i8))
            }
        }
    }

    /// Zero at zero and one at one. Elsewhere, in the first half, half of `p`;
    /// from the middle on, half of what `p` lacks to two. With `p` one, as it
    /// is in the middle, both are a half.
    pub fn expo_inout_with<T>(&self, t: T, p: T) -> (r: T)
        where T: PartialOrd + Sub<Output = T> + Div<Output = T> + From<i8> + Copy
        requires
            T::obeys_eq_spec(),
            T::obeys_partial_cmp_spec(),
            T::obeys_sub_spec(),
            T::obeys_div_spec(),
            T::obeys_from_spec(),
            Self::expo_inout_with_req(t, p),
        ensures
            r == Self::expo_inout_with_spec(t, p),
    {
        let zero = T::from(0i8);
        let one = T::from(1i8);
        let two = T::from(2i8);
        if t == zero {
            zero
        } else if t == one {
            one
        } else if t < one / two {
            p / two
        } else {
            (two - p) / two
        }
    }

    /// The exponent that `expo_inout` hands to the power: in the first half
    /// `twenty * t - ten`, from the middle on `ten - twenty * t`.
    pub open spec fn expo_inout_exponent_spec<T>(t: T) -> T
        where T: PartialOrd + Sub<Output = T> + Mul<Output = T> + Div<Output = T> + From<i8> + Copy
    {
        if t.is_lt(&T::from_spec(1i8).div_spec(T::from_spec(2i8))) {
            T::from_spec(20i8).mul_spec(t).sub_spec(T::from_spec(10i8))
        } else {
            T::from_spec(10i8).sub_spec(T::from_spec(20i8).mul_spec(t))
        }
    }

    /// Whether each step of `expo_inout_exponent` is defined.
    pub open spec fn expo_inout_exponent_req<T>(t: T) -> bool
        where T: PartialOrd + Sub<Output = T> + Mul<Output = T> + Div<Output = T> + From<i8> + Copy
    {
        &&& T::from_spec(1i8).div_req(T::from_spec(2i8))
        &&& T::from_spec(20i8).mul_req(t)
        &&& if t.is_lt(&T::from_spec(1i8).div_spec(T::from_spec(2i8))) {
            T::from_spec(20i8).mul_spec(t).sub_req(T::from_spec(10i8))
        } else {
            T::from_spec(10i8).sub_req(T::from_spec(20i8).mul_spec(t))
        }
    }

    /// The exponent that `expo_inout` hands to the power: in the first half
    /// `twenty * t - ten`, from the middle on `ten - twenty * t`.
    pub fn expo_inout_exponent<T>(&self, t: T) -> (r: T)
        where T: PartialOrd + Sub<Output = T> + Mul<Output = T> + Div<Output = T> + From<i8> + Copy
        requires
            T::obeys_partial_cmp_spec(),
            T::obeys_mul_spec(),
            T::obeys_div_spec(),
            T::obeys_from_spec(),
            Self::expo_inout_exponent_req(t),
        ensures
            T::obeys_sub_spec() ==> r == Self::expo_inout_exponent_spec(t),
    {
        let one = T::from(1i8);
        let two = T::from(2i8);
        let ten = T::from(10i8);
        let twenty = T::from(20i8);
        if t < one / two {
            twenty * t - ten
        } else {
            ten - twenty * t
        }
    }

    /// Zero at zero and one at one. Elsewhere, with `p` for two to the power
    /// `expo_inout_exponent`, as `T` computes it: in the first half, half of
    /// `p`; from the middle on, half of what `p` lacks to two.
    pub fn expo_inout<T>(&self, t: T) -> (r: T)
        where
            T: Float + PartialOrd + Sub<Output = T> + Mul<Output = T> + Div<Output = T> + From<i8>
                + Copy,
        requires
            T::obeys_eq_spec(),
            T::obeys_partial_cmp_spec(),
            T::obeys_sub_spec(),
            T::obeys_mul_spec(),
            T::obeys_div_spec(),
            T::obeys_from_spec(),
            !t.eq_spec(&T::from_spec(0i8)) && !t.eq_spec(&T::from_spec(1i8)) ==> {
                &&& Self::expo_inout_exponent_req(t)
                &&& forall|p: T| #[trigger]
                    powf_of(T::from_spec(2i8), Self::expo_inout_exponent_spec(t), p)
                        ==> Self::expo_inout_with_req(t, p)
            },
        ensures
            t.eq_spec(&T::from_spec(0i8)) ==> r == T::from_spec(0i8),
            !t.eq_spec(&T::from_spec(0i8))
                && t.eq_spec(&T::from_spec(1i8)) ==> r == T::from_spec(1i8),
            !t.eq_spec(&T::from_spec(0i8)) && !t.eq_spec(&T::from_spec(1i8)) ==> exists|p: T|
                #[trigger] powf_of(T::from_spec(2i8), Self::expo_inout_exponent_spec(t), p) && r
                    == Self::expo_inout_with_spec(t, p),
    {
        let zero: T = From::from(0i8);
        let one: T = From::from(1i8);
        if t == zero {
            zero
        } else if t == one {
            one
        } else {
            let two: T = From::from(2i8);
            let p = float_powf(two, self.expo_inout_exponent(t));
            self.expo_inout_with(t, p)
        }
    }

    /// In the first half, half of what `p` lacks to one; from the middle on,
    /// half of one more than `p`.
    pub open spec fn circ_inout_with_spec<T>(t: T, p: T) -> T
        where T: PartialOrd + Add<Output = T> + Sub<Output = T> + Div<Output = T> + From<i8> + Copy
    {
        if t.is_lt(&T::from_spec(1i8).div_spec(T::from_spec(2i8))) {
            T::from_spec(1i8).sub_spec(p).div_spec(T::from_spec(2i8))
        } else {
            p.add_spec(T::from_spec(1i8)).div_spec(T::from_spec(2i8))
        }
    }

    /// Whether each step of `circ_inout_with` is defined.
    pub open spec fn circ_inout_with_req<T>(t: T, p: T) -> bool
        where T: PartialOrd + Add<Output = T> + Sub<Output = T> + Div<Output = T> + From<i8> + Copy
    {
        &&& T::from_spec(1i8).div_req(T::from_spec(2i8))
        &&& if t.is_lt(&T::from_spec(1i8).div_spec(T::from_spec(2i8))) {
            &&& T::from_spec(1i8).sub_req(p)
            &&& T::from_spec(1i8).sub_spec(p).div_req(T::from_spec(2i8))
        } else {
            &&& p.add_req(T::from_spec(1i8))
            &&& p.add_spec(T::from_spec(1i8)).div_req(T::from_spec(2i8))
        }
    }

    /// In the first half, half of what `p` lacks to one; from the middle on,
    /// half of one more than `p`.
    pub fn circ_inout_with<T>(&self, t: T, p: T) -> (r: T)
        where T: PartialOrd + Add<Output = T> + Sub<Output = T> + Div<Output = T> + From<i8> + Copy
        requires
            T::obeys_partial_cmp_spec(),
            T::obeys_add_spec(),
            T::obeys_sub_spec(),
            T::obeys_div_spec(),
            T::obeys_from_spec(),
            Self::circ_inout_with_req(t, p),
        ensures
            r == Self::circ_inout_with_spec(t, p),
    {
        let one = T::from(1i8);
        let two = T::from(2i8);
        if t < one / two {
            (one - p) / two
        } else {
            (p + one) / two
        }
    }

    /// What `circ_inout` takes the root of: one less the square of `v`, where
    /// `v` is twice `t` in the first half and twice what `t` lacks to one from
    /// the middle on.
    pub open spec fn circ_inout_square_spec<T>(t: T) -> T
        where T: PartialOrd + Sub<Output = T> + Mul<Output = T> + Div<Output = T> + From<i8> + Copy
    {
        if t.is_lt(&T::from_spec(1i8).div_spec(T::from_spec(2i8))) {
            T::from_spec(1i8).sub_spec(Self::quad_in_spec(T::from_spec(2i8).mul_spec(t)))
        } else {
            T::from_spec(1i8).sub_spec(
                Self::quad_in_spec(T::from_spec(2i8).sub_spec(T::from_spec(2i8).mul_spec(t))),
            )
        }
    }

    /// Whether each step of `circ_inout_square` is defined.
    pub open spec fn circ_inout_square_req<T>(t: T) -> bool
        where T: PartialOrd + Sub<Output = T> + Mul<Output = T> + Div<Output = T> + From<i8> + Copy
    {
        &&& T::from_spec(1i8).div_req(T::from_spec(2i8))
        &&& T::from_spec(2i8).mul_req(t)
        &&& if t.is_lt(&T::from_spec(1i8).div_spec(T::from_spec(2i8))) {
            &&& Self::quad_in_req(T::from_spec(2i8).mul_spec(t))
            &&& T::from_spec(1i8).sub_req(Self::quad_in_spec(T::from_spec(2i8).mul_spec(t)))
        } else {
            &&& T::from_spec(2i8).sub_req(T::from_spec(2i8).mul_spec(t))
            &&& Self::quad_in_req(T::from_spec(2i8).sub_spec(T::from_spec(2i8).mul_spec(t)))
            &&& T::from_spec(1i8).sub_req(
                Self::quad_in_spec(T::from_spec(2i8).sub_spec(T::from_spec(2i8).mul_spec(t))),
            )
        }
    }

    /// What `circ_inout` takes the root of: one less the square of `v`, where
    /// `v` is twice `t` in the first half and twice what `t` lacks to one from
    /// the middle on.
    pub fn circ_inout_square<T>(&self, t: T) -> (r: T)
        where T: PartialOrd + Sub<Output = T> + Mul<Output = T> + Div<Output = T> + From<i8> + Copy
        requires
            T::obeys_partial_cmp_spec(),
            T::obeys_sub_spec(),
            T::obeys_mul_spec(),
            T::obeys_div_spec(),
            T::obeys_from_spec(),
            Self::circ_inout_square_req(t),
        ensures
            r == Self::circ_inout_square_spec(t),
    {
        let one = T::from(1i8);
        let two = T::from(2i8);
        if t < one / two {
            let v = two * t;
            one - v * v
        } else {
            let v = two - two * t;
            one - v * v
        }
    }

    /// With `p` for the square root, as `T` computes it, of
    /// `circ_inout_square`: in the first half, half of what `p` lacks to one;
    /// from the middle on, half of one more than `p`.
    pub fn circ_inout<T>(&self, t: T) -> (r: T)
        where
            T: Float + PartialOrd + Add<Output = T> + Sub<Output = T> + Mul<Output = T> + Div<
                Output = T,
            > + From<i8> + Copy,
        requires
            T::obeys_partial_cmp_spec(),
            T::obeys_add_spec(),
            T::obeys_sub_spec(),
            T::obeys_mul_spec(),
            T::obeys_div_spec(),
            T::obeys_from_spec(),
            Self::circ_inout_square_req(t),
            forall|p: T| #[trigger]
                sqrt_of(Self::circ_inout_square_spec(t), p) ==> Self::circ_inout_with_req(t, p),
        ensures
            exists|p: T| #[trigger]
                sqrt_of(Self::circ_inout_square_spec(t), p)
                    && r == Self::circ_inout_with_spec(t, p),
    {
        let p = float_sqrt(self.circ_inout_square(t));
        self.circ_inout_with(t, p)
    }

    /// The polynomial of the overshooting curves at `t`, for the overshoot
    /// `c1`: `(c1 + 1) * t * t * t - c1 * t * t`.
    pub open spec fn back_in_with_spec<T>(t: T, c1: T) -> T
        where T: Add<Output = T> + Sub<Output = T> + Mul<Output = T> + From<i8> + Copy
    {
        c1.add_spec(T::from_spec(1i8)).mul_spec(t).mul_spec(t).mul_spec(t).sub_spec(
            c1.mul_spec(t).mul_spec(t),
        )
    }

    /// Whether each step of `back_in_with` is defined.
    pub open spec fn back_in_with_req<T>(t: T, c1: T) -> bool
        where T: Add<Output = T> + Sub<Output = T> + Mul<Output = T> + From<i8> + Copy
    {
        &&& c1.add_req(T::from_spec(1i8))
        &&& c1.add_spec(T::from_spec(1i8)).mul_req(t)
        &&& c1.add_spec(T::from_spec(1i8)).mul_spec(t).mul_req(t)
        &&& c1.add_spec(T::from_spec(1i8)).mul_spec(t).mul_spec(t).mul_req(t)
        &&& c1.mul_req(t)
        &&& c1.mul_spec(t).mul_req(t)
        &&& c1.add_spec(T::from_spec(1i8)).mul_spec(t).mul_spec(t).mul_spec(t).sub_req(
            c1.mul_spec(t).mul_spec(t),
        )
    }

    /// The curve that first draws back: `back_in_with_spec`. The overshoot
    /// `c1` is the caller's.
    pub fn back_in_with<T>(&self, t: T, c1: T) -> (r: T)
        where T: Add<Output = T> + Sub<Output = T> + Mul<Output = T> + From<i8> + Copy
        requires
            T::obeys_add_spec(),
            T::obeys_mul_spec(),
            T::obeys_from_spec(),
            Self::back_in_with_req(t, c1),
        ensures
            T::obeys_sub_spec() ==> r == Self::back_in_with_spec(t, c1),
    {
        let c2 = c1 + T::from(1i8);
        c2 * t * t * t - c1 * t * t
    }

    /// The curve that overshoots at its end: with `v` for `t - 1`,
    /// `(c1 + 1) * v * v * v + c1 * v * v + 1`.
    pub open spec fn back_out_with_spec<T>(t: T, c1: T) -> T
        where T: Add<Output = T> + Sub<Output = T> + Mul<Output = T> + From<i8> + Copy
    {
        let v = t.sub_spec(T::from_spec(1i8));
        c1.add_spec(T::from_spec(1i8)).mul_spec(v).mul_spec(v).mul_spec(v).add_spec(
            c1.mul_spec(v).mul_spec(v),
        ).add_spec(T::from_spec(1i8))
    }

    /// Whether each step of `back_out_with` is defined.
    pub open spec fn back_out_with_req<T>(t: T, c1: T) -> bool
        where T: Add<Output = T> + Sub<Output = T> + Mul<Output = T> + From<i8> + Copy
    {
        let v = t.sub_spec(T::from_spec(1i8));
        &&& t.sub_req(T::from_spec(1i8))
        &&& c1.add_req(T::from_spec(1i8))
        &&& c1.add_spec(T::from_spec(1i8)).mul_req(v)
        &&& c1.add_spec(T::from_spec(1i8)).mul_spec(v).mul_req(v)
        &&& c1.add_spec(T::from_spec(1i8)).mul_spec(v).mul_spec(v).mul_req(v)
        &&& c1.mul_req(v)
        &&& c1.mul_spec(v).mul_req(v)
        &&& c1.add_spec(T::from_spec(1i8)).mul_spec(v).mul_spec(v).mul_spec(v).add_req(
            c1.mul_spec(v).mul_spec(v),
        )
        &&& c1.add_spec(T::from_spec(1i8)).mul_spec(v).mul_spec(v).mul_spec(v).add_spec(
            c1.mul_spec(v).mul_spec(v),
        ).add_req(T::from_spec(1i8))
    }

    /// The curve that overshoots at its end: with `v` for `t - 1`,
    /// `(c1 + 1) * v * v * v + c1 * v * v + 1`.
    pub fn back_out_with<T>(&self, t: T, c1: T) -> (r: T)
        where T: Add<Output = T> + Sub<Output = T> + Mul<Output = T> + From<i8> + Copy
        requires
            T::obeys_add_spec(),
            T::obeys_sub_spec(),
            T::obeys_mul_spec(),
            T::obeys_from_spec(),
            Self::back_out_with_req(t, c1),
        ensures
            r == Self::back_out_with_spec(t, c1),
    {
        let one = T::from(1i8);
        let c2 = c1 + one;
        let v = t - one;
        c2 * v * v * v + c1 * v * v + one
    }

    /// The curve that overshoots at both ends, for the overshoot `c3`. In
    /// the first half, with `v` for twice `t`: `v * v * ((c3 + 1) * 2 * t -
    /// c3) / 2`. From the middle on, with `v` for `2 * t - 2`: `(v * v *
    /// ((c3 + 1) * v + c3) + 2) / 2`. In the middle both are a half.
    pub open spec fn back_inout_with_spec<T>(t: T, c3: T) -> T
        where
            T: PartialOrd + Add<Output = T> + Sub<Output = T> + Mul<Output = T> + Div<Output = T>
                + From<i8> + Copy,
    {
        let one = T::from_spec(1i8);
        let two = T::from_spec(2i8);
        if t.is_lt(&one.div_spec(two)) {
            let v = two.mul_spec(t);
            v.mul_spec(v)
                .mul_spec(c3.add_spec(one).mul_spec(two).mul_spec(t).sub_spec(c3))
                .div_spec(
                two,
            )
        } else {
            let v = two.mul_spec(t).sub_spec(two);
            v.mul_spec(v)
                .mul_spec(c3.add_spec(one).mul_spec(v).add_spec(c3))
                .add_spec(two)
                .div_spec(
                two,
            )
        }
    }

    /// Whether each step of `back_inout_with` is defined.
    pub open spec fn back_inout_with_req<T>(t: T, c3: T) -> bool
        where
            T: PartialOrd + Add<Output = T> + Sub<Output = T> + Mul<Output = T> + Div<Output = T>
                + From<i8> + Copy,
    {
        let one = T::from_spec(1i8);
        let two = T::from_spec(2i8);
        &&& one.div_req(two)
        &&& two.mul_req(t)
        &&& c3.add_req(one)
        &&& if t.is_lt(&one.div_spec(two)) {
            let v = two.mul_spec(t);
            &&& v.mul_req(v)
            &&& c3.add_spec(one).mul_req(two)
            &&& c3.add_spec(one).mul_spec(two).mul_req(t)
            &&& c3.add_spec(one).mul_spec(two).mul_spec(t).sub_req(c3)
            &&& v.mul_spec(v).mul_req(c3.add_spec(one).mul_spec(two).mul_spec(t).sub_spec(c3))
            &&& v.mul_spec(v).mul_spec(
                c3.add_spec(one).mul_spec(two).mul_spec(t).sub_spec(c3),
            ).div_req(two)
        } else {
            let v = two.mul_spec(t).sub_spec(two);
            &&& two.mul_spec(t).sub_req(two)
            &&& v.mul_req(v)
            &&& c3.add_spec(one).mul_req(v)
            &&& c3.add_spec(one).mul_spec(v).add_req(c3)
            &&& v.mul_spec(v).mul_req(c3.add_spec(one).mul_spec(v).add_spec(c3))
            &&& v.mul_spec(v).mul_spec(c3.add_spec(one).mul_spec(v).add_spec(c3)).add_req(two)
            &&& v.mul_spec(v).mul_spec(c3.add_spec(one).mul_spec(v).add_spec(c3)).add_spec(
                two,
            ).div_req(two)
        }
    }

    /// The curve that overshoots at both ends, for the overshoot `c3`. In
    /// the first half, with `v` for twice `t`: `v * v * ((c3 + 1) * 2 * t -
    /// c3) / 2`. From the middle on, with `v` for `2 * t - 2`: `(v * v *
    /// ((c3 + 1) * v + c3) + 2) / 2`. In the middle both are a half.
    pub fn back_inout_with<T>(&self, t: T, c3: T) -> (r: T)
        where
            T: PartialOrd + Add<Output = T> + Sub<Output = T> + Mul<Output = T> + Div<Output = T>
                + From<i8> + Copy,
        requires
            T::obeys_partial_cmp_spec(),
            T::obeys_add_spec(),
            T::obeys_sub_spec(),
            T::obeys_mul_spec(),
            T::obeys_div_spec(),
            T::obeys_from_spec(),
            Self::back_inout_with_req(t, c3),
        ensures
            r == Self::back_inout_with_spec(t, c3),
    {
        let one = T::from(1i8);
        let two = T::from(2i8);
        if t < one / two {
            let v = two * t;
            v * v * ((c3 + one) * two * t - c3) / two
        } else {
            let v = two * t - two;
            (v * v * ((c3 + one) * v + c3) + two) / two
        }
    }

    /// Zero where `t` is zero, one where it is one; elsewhere the product of
    /// the negative of `p` and `s`.
    pub open spec fn elastic_in_with_spec<T>(t: T, p: T, s: T) -> T
        where T: PartialOrd + Mul<Output = T> + Neg<Output = T> + From<i8> + Copy
    {
        if t.eq_spec(&T::from_spec(0i8)) {
            T::from_spec(0i8)
        } else if t.eq_spec(&T::from_spec(1i8)) {
            T::from_spec(1i8)
        } else {
            p.neg_spec().mul_spec(s)
        }
    }

    /// Whether each step of `elastic_in_with` is defined.
    pub open spec fn elastic_in_with_req<T>(t: T, p: T, s: T) -> bool
        where T: PartialOrd + Mul<Output = T> + Neg<Output = T> + From<i8> + Copy
    {
        !t.eq_spec(&T::from_spec(0i8)) && !t.eq_spec(&T::from_spec(1i8)) ==> p.neg_req()
            && p.neg_spec().mul_req(s)
    }

    /// Zero where `t` is zero, one where it is one; elsewhere the product of
    /// the negative of `p` and `s`.
    pub fn elastic_in_with<T>(&self, t: T, p: T, s: T) -> (r: T)
        where T: PartialOrd + Mul<Output = T> + Neg<Output = T> + From<i8> + Copy
        requires
            T::obeys_eq_spec(),
            T::obeys_neg_spec(),
            T::obeys_from_spec(),
            Self::elastic_in_with_req(t, p, s),
        ensures
            T::obeys_mul_spec() ==> r == Self::elastic_in_with_spec(t, p, s),
            t.eq_spec(&T::from_spec(0i8)) ==> r == T::from_spec(0i8),
            !t.eq_spec(&T::from_spec(0i8))
                && t.eq_spec(&T::from_spec(1i8)) ==> r == T::from_spec(1i8),
    {
        let zero = T::from(0i8);
        let one = T::from(1i8);
        if t == zero {
            zero
        } else if t == one {
            one
        } else {
            p.neg() * s
        }
    }

    /// The angle of the swing of `elastic_in` at `t`, where `pi` is the pi of
    /// `T`: `(t * ten - (ten + three / four)) * (two * pi / (one / three))`.
    pub open spec fn elastic_angle_spec<T>(t: T, pi: T) -> T
        where
            T: Add<Output = T> + Sub<Output = T> + Mul<Output = T> + Div<Output = T> + From<i8>
                + Copy,
    {
        t.mul_spec(T::from_spec(10i8)).sub_spec(
            T::from_spec(10i8).add_spec(T::from_spec(3i8).div_spec(T::from_spec(4i8))),
        ).mul_spec(
            T::from_spec(2i8).mul_spec(pi).div_spec(T::from_spec(1i8).div_spec(T::from_spec(3i8))),
        )
    }

    /// Whether each step of `elastic_angle` is defined.
    pub open spec fn elastic_angle_req<T>(t: T, pi: T) -> bool
        where
            T: Add<Output = T> + Sub<Output = T> + Mul<Output = T> + Div<Output = T> + From<i8>
                + Copy,
    {
        let ten = T::from_spec(10i8);
        let offset = ten.add_spec(T::from_spec(3i8).div_spec(T::from_spec(4i8)));
        let third = T::from_spec(1i8).div_spec(T::from_spec(3i8));
        &&& T::from_spec(3i8).div_req(T::from_spec(4i8))
        &&& ten.add_req(T::from_spec(3i8).div_spec(T::from_spec(4i8)))
        &&& T::from_spec(1i8).div_req(T::from_spec(3i8))
        &&& T::from_spec(2i8).mul_req(pi)
        &&& T::from_spec(2i8).mul_spec(pi).div_req(third)
        &&& t.mul_req(ten)
        &&& t.mul_spec(ten).sub_req(offset)
        &&& t.mul_spec(ten).sub_spec(offset).mul_req(T::from_spec(2i8).mul_spec(pi).div_spec(third))
    }

    /// The angle of the swing of `elastic_in` at `t`, where `pi` is the pi of
    /// `T`: `(t * ten - (ten + three / four)) * (two * pi / (one / three))`.
    pub fn elastic_angle<T>(&self, t: T, pi: T) -> (r: T)
        where
            T: Add<Output = T> + Sub<Output = T> + Mul<Output = T> + Div<Output = T> + From<i8>
                + Copy,
        requires
            T::obeys_add_spec(),
            T::obeys_sub_spec(),
            T::obeys_mul_spec(),
            T::obeys_div_spec(),
            T::obeys_from_spec(),
            Self::elastic_angle_req(t, pi),
        ensures
            r == Self::elastic_angle_spec(t, pi),
    {
        let one = T::from(1i8);
        let two = T::from(2i8);
        let three = T::from(3i8);
        let four = T::from(4i8);
        let ten = T::from(10i8);
        let c4 = two * pi / (one / three);
        let ten_and_three_quarters = ten + three / four;
        (t * ten - ten_and_three_quarters) * c4
    }

    /// Zero at zero and one at one. Elsewhere the negative of two to the
    /// power `ten * t - ten`, times the sine of `elastic_angle`, both as `T`
    /// computes them.
    pub fn elastic_in<T>(&self, t: T) -> (r: T)
        where
            T: Float + FloatConst + PartialOrd + Add<Output = T> + Sub<Output = T> + Mul<
                Output = T,
            > + Div<Output = T> + Neg<Output = T> + From<i8> + Copy,
        requires
            T::obeys_eq_spec(),
            T::obeys_add_spec(),
            T::obeys_sub_spec(),
            T::obeys_mul_spec(),
            T::obeys_div_spec(),
            T::obeys_neg_spec(),
            T::obeys_from_spec(),
            !t.eq_spec(&T::from_spec(0i8)) && !t.eq_spec(&T::from_spec(1i8)) ==> {
                &&& Self::rising_exponent_req(t)
                &&& forall|pi: T| #[trigger] is_pi(pi) ==> Self::elastic_angle_req(t, pi)
                &&& forall|pi: T, p: T, s: T|
                    is_pi(pi) && #[trigger] powf_of(
                        T::from_spec(2i8),
                        Self::rising_exponent_spec(t),
                        p,
                    ) && #[trigger] sin_of(Self::elastic_angle_spec(t, pi), s)
                        ==> Self::elastic_in_with_req(t, p, s)
            },
        ensures
            t.eq_spec(&T::from_spec(0i8)) ==> r == T::from_spec(0i8),
            !t.eq_spec(&T::from_spec(0i8))
                && t.eq_spec(&T::from_spec(1i8)) ==> r == T::from_spec(1i8),
            !t.eq_spec(&T::from_spec(0i8)) && !t.eq_spec(&T::from_spec(1i8)) ==> exists|
                pi: T,
                p: T,
                s: T,
            |
                is_pi(pi) && #[trigger] powf_of(
                    T::from_spec(2i8),
                    Self::rising_exponent_spec(t),
                    p,
                ) && #[trigger] sin_of(Self::elastic_angle_spec(t, pi), s) && r
                    == Self::elastic_in_with_spec(t, p, s),
    {
        let zero: T = From::from(0i8);
        let one: T = From::from(1i8);
        if t == zero {
            zero
        } else if t == one {
            one
        } else {
            let two: T = From::from(2i8);
            let ten: T = From::from(10i8);
            let pi: T = float_pi();
            let exponent = ten * t - ten;
            assert(exponent == Self::rising_exponent_spec(t));
            let p = float_powf(two, exponent);
            let s = float_sin(self.elastic_angle(t, pi));
            self.elastic_in_with(t, p, s)
        }
    }
}

} // verus!
