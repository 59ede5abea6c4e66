//! What the shapes ask of a numeric type, and the numeric types on which
//! their laws are proved.

use vstd::prelude::*;
use vstd::std_specs::ops::{AddSpec, DivSpec, MulSpec, NegSpec, SubSpec};
use vstd::std_specs::convert::FromSpec;
use vstd::std_specs::cmp::{PartialEqSpec, PartialOrdSpec, PartialOrdIs};
use core::ops::{Add, Div, Mul, Neg, Sub};

verus! {

/// The quotient of `a` by `b` rounded towards zero.
pub open spec fn trunc_div(a: int, b: int) -> int {
    if a >= 0 {
        a / b
    } else {
        -((-a) / b)
    }
}

/// Whether two intervals overlap: each begins before the other ends.
/// Intervals that only touch do not overlap.
pub open spec fn intervals_overlap<T: PartialOrd>(a_min: T, a_max: T, b_min: T, b_max: T) -> bool {
    a_min.is_lt(&b_max) && a_max.is_gt(&b_min)
}

/// Whether two intervals lie apart: one ends before the other begins.
pub open spec fn intervals_apart<T: PartialOrd>(a_min: T, a_max: T, b_min: T, b_max: T) -> bool {
    a_max.is_lt(&b_min) || b_max.is_lt(&a_min)
}

/// Whether `x` lies within an interval and on neither of its ends.
pub open spec fn strictly_within<T: PartialOrd>(min: T, max: T, x: T) -> bool {
    min.is_lt(&x) && x.is_lt(&max)
}

/// `b` where `a` is less than `b`, else `a`.
pub open spec fn larger_spec<T: PartialOrd>(a: T, b: T) -> T {
    if a.is_lt(&b) {
        b
    } else {
        a
    }
}

/// `b` where `b` is less than `a`, else `a`.
pub open spec fn smaller_spec<T: PartialOrd>(a: T, b: T) -> T {
    if b.is_lt(&a) {
        b
    } else {
        a
    }
}

/// The larger of two values.
pub fn larger<T: PartialOrd + Copy>(a: T, b: T) -> (r: T)
    ensures
        T::obeys_partial_cmp_spec() ==> r == larger_spec(a, b),
        r == a || r == b,
{
    if a < b {
        b
    } else {
        a
    }
}

/// The smaller of two values.
pub fn smaller<T: PartialOrd + Copy>(a: T, b: T) -> (r: T)
    ensures
        T::obeys_partial_cmp_spec() ==> r == smaller_spec(a, b),
        r == a || r == b,
{
    if b < a {
        b
    } else {
        a
    }
}

/// Half of what `current` has more than `target`.
pub open spec fn half_excess_spec<T>(current: T, target: T) -> T
    where T: Sub<Output = T> + Div<Output = T> + From<i8>
{
    current.sub_spec(target).div_spec(T::from_spec(2i8))
}

/// Whether each step of `half_excess_spec` is defined.
pub open spec fn half_excess_req<T>(current: T, target: T) -> bool
    where T: Sub<Output = T> + Div<Output = T> + From<i8>
{
    current.sub_req(target) && current.sub_spec(target).div_req(T::from_spec(2i8))
}

/// A quotient of a natural number is no larger in size than the number.
pub proof fn lemma_quotient_bounds(a: int, b: int)
    requires
        a >= 0,
        b != 0,
    ensures
        -a <= a / b <= a,
        b == -1 ==> a / b == -a,
        b != -1 && a > 0 ==> -a < a / b,
{
    assert(-a <= a / b <= a && (b == -1 ==> a / b == -a) && (b != -1 && a > 0 ==> -a < a / b))
        by (nonlinear_arith)
        requires
            a >= 0,
            b != 0,
    ;
}

/// Numeric types whose operators compute on mathematical integers: every
/// value stands for one integer, and each operator returns the value that
/// stands for the integer result whenever that result lies between `lo()`
/// and `hi()`. Division rounds towards zero.
///
/// The laws of the shapes that rest on arithmetic are proved for these
/// types. Floating-point types are not among them: their operators round.
pub trait Integral: Copy + Add<Output = Self> + Sub<Output = Self> + Mul<Output = Self> + Div<
    Output = Self,
> + Neg<Output = Self> + PartialOrd + From<i8> {
    /// The integer that a value stands for.
    spec fn val(self) -> int;

    /// The least integer that the type holds.
    spec fn lo() -> int;

    /// The greatest integer that the type holds.
    spec fn hi() -> int;

    /// Every operator of the type obeys its specification, and the type
    /// holds at least the integers of an `i8`.
    proof fn lemma_operators_obey()
        ensures
            Self::obeys_add_spec(),
            Self::obeys_sub_spec(),
            Self::obeys_mul_spec(),
            Self::obeys_div_spec(),
            Self::obeys_neg_spec(),
            Self::obeys_from_spec(),
            Self::obeys_eq_spec(),
            Self::obeys_partial_cmp_spec(),
            Self::lo() <= -128,
            Self::hi() >= 127,
    ;

    /// What the operators and the comparisons do to the integers that `a`
    /// and `b` stand for, and when an operator is defined.
    proof fn lemma_val(a: Self, b: Self)
        ensures
            Self::lo() <= a.val() <= Self::hi(),
            a.val() == b.val() ==> a == b,
            a.add_req(b) <==> Self::lo() <= a.val() + b.val() <= Self::hi(),
            a.add_req(b) ==> a.add_spec(b).val() == a.val() + b.val(),
            a.sub_req(b) <==> Self::lo() <= a.val() - b.val() <= Self::hi(),
            a.sub_req(b) ==> a.sub_spec(b).val() == a.val() - b.val(),
            a.mul_req(b) <==> Self::lo() <= a.val() * b.val() <= Self::hi(),
            a.mul_req(b) ==> a.mul_spec(b).val() == a.val() * b.val(),
            a.div_req(b) <==> b.val() != 0 && !(a.val() == Self::lo() && b.val() == -1),
            a.div_req(b) ==> a.div_spec(b).val() == trunc_div(a.val(), b.val()),
            a.neg_req() <==> -a.val() <= Self::hi(),
            a.neg_req() ==> a.neg_spec().val() == -a.val(),
            a.eq_spec(&b) <==> a.val() == b.val(),
            a.is_lt(&b) <==> a.val() < b.val(),
            a.is_le(&b) <==> a.val() <= b.val(),
            a.is_gt(&b) <==> a.val() > b.val(),
            a.is_ge(&b) <==> a.val() >= b.val(),
    ;

    /// The value made from `v` stands for `v`.
    proof fn lemma_from(v: i8)
        ensures
            Self::from_spec(v).val() == v,
    ;
}

/// The facts of `Integral` for all values of `T` at once.
pub proof fn lemma_integral<T: Integral>()
    ensures
        T::obeys_add_spec(),
        T::obeys_sub_spec(),
        T::obeys_mul_spec(),
        T::obeys_div_spec(),
        T::obeys_neg_spec(),
        T::obeys_from_spec(),
        T::obeys_eq_spec(),
        T::obeys_partial_cmp_spec(),
        T::lo() <= -128,
        T::hi() >= 127,
        forall|a: T| T::lo() <= #[trigger] a.val() <= T::hi(),
        forall|a: T, b: T| #[trigger] a.val() == #[trigger] b.val() ==> a == b,
        forall|a: T, b: T| #[trigger] a.add_req(b) <==> T::lo() <= a.val() + b.val() <= T::hi(),
        forall|a: T, b: T|
            #![trigger a.add_spec(b)]
            a.add_req(b) ==> a.add_spec(b).val() == a.val() + b.val(),
        forall|a: T, b: T| #[trigger] a.sub_req(b) <==> T::lo() <= a.val() - b.val() <= T::hi(),
        forall|a: T, b: T|
            #![trigger a.sub_spec(b)]
            a.sub_req(b) ==> a.sub_spec(b).val() == a.val() - b.val(),
        forall|a: T, b: T| #[trigger] a.mul_req(b) <==> T::lo() <= a.val() * b.val() <= T::hi(),
        forall|a: T, b: T|
            #![trigger a.mul_spec(b)]
            a.mul_req(b) ==> a.mul_spec(b).val() == a.val() * b.val(),
        forall|a: T, b: T| #[trigger]
            a.div_req(b) <==> b.val() != 0 && !(a.val() == T::lo() && b.val() == -1),
        forall|a: T, b: T|
            #![trigger a.div_spec(b)]
            a.div_req(b) ==> a.div_spec(b).val() == trunc_div(a.val(), b.val()),
        forall|a: T| #[trigger] a.neg_req() <==> -a.val() <= T::hi(),
        forall|a: T| #![trigger a.neg_spec()] a.neg_req() ==> a.neg_spec().val() == -a.val(),
        forall|a: T, b: T| #[trigger] a.eq_spec(&b) <==> a.val() == b.val(),
        forall|a: T, b: T|
            #![trigger a.partial_cmp_spec(&b)]
            {
                &&& a.is_lt(&b) <==> a.val() < b.val()
                &&& a.is_le(&b) <==> a.val() <= b.val()
                &&& a.is_gt(&b) <==> a.val() > b.val()
                &&& a.is_ge(&b) <==> a.val() >= b.val()
            },
        forall|v: i8| #![trigger T::from_spec(v)] T::from_spec(v).val() == v,
{
    T::lemma_operators_obey();
    assert forall|a: T, b: T|
        {
            &&& T::lo() <= #[trigger] a.val() <= T::hi()
            &&& #[trigger] b.val() == a.val() ==> a == b
            &&& a.add_req(b) <==> T::lo() <= a.val() + b.val() <= T::hi()
            &&& a.add_req(b) ==> a.add_spec(b).val() == a.val() + b.val()
            &&& a.sub_req(b) <==> T::lo() <= a.val() - b.val() <= T::hi()
            &&& a.sub_req(b) ==> a.sub_spec(b).val() == a.val() - b.val()
            &&& a.mul_req(b) <==> T::lo() <= a.val() * b.val() <= T::hi()
            &&& a.mul_req(b) ==> a.mul_spec(b).val() == a.val() * b.val()
            &&& a.div_req(b) <==> b.val() != 0 && !(a.val() == T::lo() && b.val() == -1)
            &&& a.div_req(b) ==> a.div_spec(b).val() == trunc_div(a.val(), b.val())
            &&& a.neg_req() <==> -a.val() <= T::hi()
            &&& a.neg_req() ==> a.neg_spec().val() == -a.val()
            &&& a.eq_spec(&b) <==> a.val() == b.val()
            &&& a.is_lt(&b) <==> a.val() < b.val()
            &&& a.is_le(&b) <==> a.val() <= b.val()
            &&& a.is_gt(&b) <==> a.val() > b.val()
            &&& a.is_ge(&b) <==> a.val() >= b.val()
        } by {
        T::lemma_val(a, b);
    }
    assert forall|v: i8| #[trigger] T::from_spec(v).val() == v by {
        T::lemma_from(v);
    }
}

impl Integral for i16 {
    open spec fn val(self) -> int {
        self as int
    }

    open spec fn lo() -> int {
        i16::MIN as int
    }

    open spec fn hi() -> int {
        i16::MAX as int
    }

    proof fn lemma_operators_obey() {
    }

    proof fn lemma_val(a: Self, b: Self) {
        if b != 0 {
            if a >= 0 {
                lemma_quotient_bounds(a as int, b as int);
            } else {
                lemma_quotient_bounds(-(a as int), b as int);
            }
        }
    }

    proof fn lemma_from(v: i8) {
    }
}

impl Integral for i32 {
    open spec fn val(self) -> int {
        self as int
    }

    open spec fn lo() -> int {
        i32::MIN as int
    }

    open spec fn hi() -> int {
        i32::MAX as int
    }

    proof fn lemma_operators_obey() {
    }

    proof fn lemma_val(a: Self, b: Self) {
        if b != 0 {
            if a >= 0 {
                lemma_quotient_bounds(a as int, b as int);
            } else {
                lemma_quotient_bounds(-(a as int), b as int);
            }
        }
    }

    proof fn lemma_from(v: i8) {
    }
}

impl Integral for i64 {
    open spec fn val(self) -> int {
        self as int
    }

    open spec fn lo() -> int {
        i64::MIN as int
    }

    open spec fn hi() -> int {
        i64::MAX as int
    }

    proof fn lemma_operators_obey() {
    }

    proof fn lemma_val(a: Self, b: Self) {
        if b != 0 {
            if a >= 0 {
                lemma_quotient_bounds(a as int, b as int);
            } else {
                lemma_quotient_bounds(-(a as int), b as int);
            }
        }
    }

    proof fn lemma_from(v: i8) {
    }
}

impl Integral for i128 {
    open spec fn val(self) -> int {
        self as int
    }

    open spec fn lo() -> int {
        i128::MIN as int
    }

    open spec fn hi() -> int {
        i128::MAX as int
    }

    proof fn lemma_operators_obey() {
    }

    proof fn lemma_val(a: Self, b: Self) {
        if b != 0 {
            if a >= 0 {
                lemma_quotient_bounds(a as int, b as int);
            } else {
                lemma_quotient_bounds(-(a as int), b as int);
            }
        }
    }

    proof fn lemma_from(v: i8) {
    }
}

impl Integral for isize {
    open spec fn val(self) -> int {
        self as int
    }

    open spec fn lo() -> int {
        isize::MIN as int
    }

    open spec fn hi() -> int {
        isize::MAX as int
    }

    proof fn lemma_operators_obey() {
    }

    proof fn lemma_val(a: Self, b: Self) {
        if b != 0 {
            if a >= 0 {
                lemma_quotient_bounds(a as int, b as int);
            } else {
                lemma_quotient_bounds(-(a as int), b as int);
            }
        }
    }

    proof fn lemma_from(v: i8) {
    }
}

} // verus!
