//! Line segments in two dimensions and their intersection.

use vstd::prelude::*;
use vstd::std_specs::ops::{AddSpec, DivSpec, MulSpec, SubSpec};
use vstd::std_specs::convert::FromSpec;
use vstd::std_specs::cmp::{PartialEqSpec, PartialOrdSpec, PartialOrdIs};
use core::ops::{Add, Div, Mul, Sub};
use num_traits::Float;
use crate::float_ops::{float_sqrt, sqrt_of};
use crate::vectors::Vector2;
use super::line3d::Line3D;
use super::line4d::Line4D;

verus! {

/// A line segment held as its two end points. The two may coincide.
#[derive(Debug, Clone, Copy, PartialEq, Default)]
pub struct Line2D<T> {
    pub start: Vector2<T>,
    pub end: Vector2<T>,
}

impl<T> Line2D<T> {
    /// The segment between the two given end points.
    pub fn new(start_x: T, start_y: T, end_x: T, end_y: T) -> (r: Self)
        ensures
            r == (Line2D {
                start: Vector2 { x: start_x, y: start_y },
                end: Vector2 { x: end_x, y: end_y },
            }),
    {
        Self::new_vectors(
            Vector2::new(start_x, start_y),
            Vector2::new(end_x, end_y),
        )
    }

    /// The segment from `start` to `end`.
    pub fn new_vectors(start: Vector2<T>, end: Vector2<T>) -> (r: Self)
        ensures
            r == (Line2D { start, end }),
    {
        Line2D { start, end }
    }

    /// Replaces both end points.
    pub fn set(&mut self, start_x: T, start_y: T, end_x: T, end_y: T)
        ensures
            *final(self) == (Line2D {
                start: Vector2 { x: start_x, y: start_y },
                end: Vector2 { x: end_x, y: end_y },
            }),
    {
        self.start.x = start_x;
        self.start.y = start_y;
        self.end.x = end_x;
        self.end.y = end_y;
    }

    /// Replaces the end points by `start` and `end`.
    pub fn set_vectors(&mut self, start: Vector2<T>, end: Vector2<T>)
        ensures
            *final(self) == (Line2D { start, end }),
    {
        self.start = start;
        self.end = end;
    }

    /// The way from `start` to `end`.
    pub open spec fn delta_spec(self) -> Vector2<T>
        where T: Sub<Output = T> + Copy
    {
        self.end.sub_spec(self.start)
    }

    /// The way from `start` to `end`.
    pub fn get_delta(&self) -> (r: Vector2<T>)
        where T: Sub<Output = T> + Copy
        requires
            self.end.sub_req(self.start),
        ensures
            T::obeys_sub_spec() ==> r == self.delta_spec(),
    {
        self.end - self.start
    }

    /// Keeps `start` and puts `end` at `start + delta`.
    pub fn set_delta(&mut self, delta: Vector2<T>)
        where T: Add<Output = T> + Copy
        requires
            old(self).start.add_req(delta),
        ensures
            final(self).start == old(self).start,
            T::obeys_add_spec() ==> final(self).end == old(self).start.add_spec(delta),
    {
        self.end = self.start + delta;
    }

    /// The squared length: the sum of the squares of the components of the
    /// way from `start` to `end`.
    pub open spec fn sqr_length_spec(self) -> T
        where T: Sub<Output = T> + Mul<Output = T> + Add<Output = T> + Copy
    {
        Vector2::sqr_distance_spec(self.end, self.start)
    }

    /// Whether each step of `get_sqr_length` is defined.
    pub open spec fn sqr_length_req(self) -> bool
        where T: Sub<Output = T> + Mul<Output = T> + Add<Output = T> + Copy
    {
        Vector2::sqr_distance_req(self.end, self.start)
    }

    /// The squared length: the sum of the squares of the components of the
    /// way from `start` to `end`.
    pub fn get_sqr_length(&self) -> (r: T)
        where T: Sub<Output = T> + Mul<Output = T> + Add<Output = T> + Copy
        requires
            T::obeys_sub_spec(),
            T::obeys_mul_spec(),
            T::obeys_add_spec(),
            self.sqr_length_req(),
        ensures
            r == self.sqr_length_spec(),
    {
        let delta = self.end - self.start;
        delta.sqr_magnitude()
    }

    /// The square root, as `T` computes it, of the squared length.
    pub fn get_length(&self) -> (r: T)
        where T: Float + Sub<Output = T> + Mul<Output = T> + Add<Output = T> + Copy
        requires
            T::obeys_sub_spec(),
            T::obeys_mul_spec(),
            T::obeys_add_spec(),
            self.sqr_length_req(),
        ensures
            sqrt_of(self.sqr_length_spec(), r),
    {
        let delta = self.end - self.start;
        delta.magnitude()
    }

    /// The segment from the same `start` along the same way, made `length`
    /// long where `magnitude` is its present length: `end` lies at
    /// `start + (end - start) / magnitude * length`.
    pub open spec fn stretched_spec(self, length: T, magnitude: T) -> Self
        where T: Sub<Output = T> + Div<Output = T> + Mul<Output = T> + Add<Output = T> + Copy
    {
        Line2D {
            start: self.start,
            end: self.start.add_spec(self.delta_spec().div_spec(magnitude).mul_spec(length)),
        }
    }

    /// Whether each step of `stretch` is defined.
    pub open spec fn stretched_req(self, length: T, magnitude: T) -> bool
        where T: Sub<Output = T> + Div<Output = T> + Mul<Output = T> + Add<Output = T> + Copy
    {
        &&& self.end.sub_req(self.start)
        &&& self.delta_spec().div_req(magnitude)
        &&& self.delta_spec().div_spec(magnitude).mul_req(length)
        &&& self.start.add_req(self.delta_spec().div_spec(magnitude).mul_spec(length))
    }

    /// The segment from the same `start` along the same way, made `length`
    /// long where `magnitude` is its present length: `end` lies at
    /// `start + (end - start) / magnitude * length`.
    pub fn stretch(&mut self, length: T, magnitude: T)
        where T: Sub<Output = T> + Div<Output = T> + Mul<Output = T> + Add<Output = T> + Copy
        requires
            T::obeys_sub_spec(),
            T::obeys_div_spec(),
            T::obeys_mul_spec(),
            old(self).stretched_req(length, magnitude),
        ensures
            T::obeys_add_spec() ==> *final(self) == old(self).stretched_spec(length, magnitude),
            final(self).start == old(self).start,
    {
        let delta = self.end - self.start;
        self.end = self.start + delta / magnitude * length;
    }

    /// Keeps `start` and the direction and gives the segment the length
    /// `length`: the way from `start` to `end` is divided by its length, as
    /// `T` computes it, and multiplied by `length`.
    pub fn set_length(&mut self, length: T)
        where
            T: Float + Sub<Output = T> + Div<Output = T> + Mul<Output = T> + Add<Output = T>
                + Copy,
        requires
            T::obeys_sub_spec(),
            T::obeys_div_spec(),
            T::obeys_mul_spec(),
            T::obeys_add_spec(),
            old(self).sqr_length_req(),
            forall|magnitude: T| #[trigger]
                sqrt_of(old(self).sqr_length_spec(), magnitude)
                    ==> old(self).stretched_req(length, magnitude),
        ensures
            exists|magnitude: T| #[trigger]
                sqrt_of(old(self).sqr_length_spec(), magnitude)
                    && *final(self) == old(self).stretched_spec(length, magnitude),
            final(self).start == old(self).start,
    {
        let magnitude = self.get_length();
        self.stretch(length, magnitude);
    }

    /// As `set_length`, with the square root, as `T` computes it, of
    /// `sqr_length` for the length.
    pub fn set_sqr_length(&mut self, sqr_length: T)
        where
            T: Float + Sub<Output = T> + Div<Output = T> + Mul<Output = T> + Add<Output = T>
                + Copy,
        requires
            T::obeys_sub_spec(),
            T::obeys_div_spec(),
            T::obeys_mul_spec(),
            T::obeys_add_spec(),
            old(self).sqr_length_req(),
            forall|length: T, magnitude: T|
                sqrt_of(sqr_length, length)
                    && #[trigger] sqrt_of(old(self).sqr_length_spec(), magnitude)
                    ==> #[trigger] old(self).stretched_req(length, magnitude),
        ensures
            exists|length: T, magnitude: T|
                sqrt_of(sqr_length, length) && sqrt_of(old(self).sqr_length_spec(), magnitude)
                    && *final(self) == #[trigger] old(self).stretched_spec(length, magnitude),
            final(self).start == old(self).start,
    {
        let length = float_sqrt(sqr_length);
        self.set_length(length);
    }

    /// The way from `start` to `end` divided by its length.
    pub fn get_direction(&self) -> (r: Vector2<T>)
        where
            T: Float + Sub<Output = T> + Div<Output = T> + Mul<Output = T> + Add<Output = T>
                + Copy,
        requires
            T::obeys_sub_spec(),
            T::obeys_mul_spec(),
            T::obeys_add_spec(),
            self.sqr_length_req(),
            forall|length: T| #[trigger]
                sqrt_of(self.sqr_length_spec(), length) ==> self.delta_spec().div_req(length),
        ensures
            T::obeys_div_spec() ==> exists|length: T| #[trigger]
                sqrt_of(self.sqr_length_spec(), length) && r == self.delta_spec().div_spec(length),
    {
        let delta = self.end - self.start;
        assert(delta.sqr_magnitude_spec() == self.sqr_length_spec());
        delta.normalized()
    }

    /// Keeps `start` and the length and points the segment along `direction`:
    /// `end` lies at `start` plus `direction` times the length of the
    /// segment, as `T` computes it.
    pub fn set_direction(&mut self, direction: Vector2<T>)
        where T: Float + Sub<Output = T> + Mul<Output = T> + Add<Output = T> + Copy
        requires
            T::obeys_sub_spec(),
            T::obeys_mul_spec(),
            T::obeys_add_spec(),
            old(self).sqr_length_req(),
            forall|length: T| #[trigger]
                sqrt_of(old(self).sqr_length_spec(), length) ==> direction.mul_req(length)
                    && old(self).start.add_req(direction.mul_spec(length)),
        ensures
            exists|length: T| #[trigger]
                sqrt_of(old(self).sqr_length_spec(), length)
                    && final(self).end == old(self).start.add_spec(direction.mul_spec(length)),
            final(self).start == old(self).start,
    {
        let length = self.get_length();
        self.set_delta(direction * length);
    }

    /// The point halfway between the end points: half the sum of their
    /// coordinates.
    pub open spec fn center_spec(self) -> Vector2<T>
        where T: Add<Output = T> + Div<Output = T> + From<i8> + Copy
    {
        self.start.add_spec(self.end).div_spec(T::from_spec(2i8))
    }

    /// Whether each step of `get_center` is defined.
    pub open spec fn center_req(self) -> bool
        where T: Add<Output = T> + Div<Output = T> + From<i8> + Copy
    {
        self.start.add_req(self.end) && self.start.add_spec(self.end).div_req(T::from_spec(2i8))
    }

    /// The point halfway between the end points: half the sum of their
    /// coordinates.
    pub fn get_center(&self) -> (r: Vector2<T>)
        where T: Add<Output = T> + Div<Output = T> + From<i8> + Copy
        requires
            T::obeys_add_spec(),
            T::obeys_from_spec(),
            self.center_req(),
        ensures
            T::obeys_div_spec() ==> r == self.center_spec(),
    {
        (self.start + self.end) / T::from(2i8)
    }

    /// Half the way from `start` to `end`.
    pub open spec fn half_delta_spec(self) -> Vector2<T>
        where T: Sub<Output = T> + Div<Output = T> + From<i8> + Copy
    {
        self.delta_spec().div_spec(T::from_spec(2i8))
    }

    /// Whether each step of `set_center` is defined.
    pub open spec fn set_center_req(self, center: Vector2<T>) -> bool
        where T: Add<Output = T> + Sub<Output = T> + Div<Output = T> + From<i8> + Copy
    {
        &&& self.end.sub_req(self.start)
        &&& self.delta_spec().div_req(T::from_spec(2i8))
        &&& center.sub_req(self.half_delta_spec())
        &&& center.add_req(self.half_delta_spec())
    }

    /// Moves the segment, its way from `start` to `end` unchanged, so that
    /// `center` lies halfway: `start` lies half the way before `center`, and
    /// `end` half the way past it.
    pub fn set_center(&mut self, center: Vector2<T>)
        where T: Add<Output = T> + Sub<Output = T> + Div<Output = T> + From<i8> + Copy
        requires
            T::obeys_sub_spec(),
            T::obeys_div_spec(),
            T::obeys_from_spec(),
            old(self).set_center_req(center),
        ensures
            final(self).start == center.sub_spec(old(self).half_delta_spec()),
            T::obeys_add_spec() ==> final(self).end == center.add_spec(old(self).half_delta_spec()),
    {
        let two = T::from(2i8);
        let delta = self.end - self.start;
        self.start = center - delta / two;
        self.end = center + delta / two;
    }

    /// Whether the span between `a_from` and `a_to` and the span between
    /// `b_from` and `b_to` have a coordinate in common, their ends included.
    pub open spec fn spans_meet(a_from: T, a_to: T, b_from: T, b_to: T) -> bool
        where T: PartialOrd + Sub<Output = T> + From<i8> + Copy
    {
        let lo = if a_to.sub_spec(a_from).is_lt(&T::from_spec(0i8)) {
            a_to
        } else {
            a_from
        };
        let hi = if a_to.sub_spec(a_from).is_lt(&T::from_spec(0i8)) {
            a_from
        } else {
            a_to
        };
        if b_from.sub_spec(b_to).is_gt(&T::from_spec(0i8)) {
            !(hi.is_lt(&b_to) || b_from.is_lt(&lo))
        } else {
            !(hi.is_lt(&b_from) || b_to.is_lt(&lo))
        }
    }

    /// Whether `numerator / denominator` lies between zero and one, the two
    /// included, as told from the signs without dividing. With a zero
    /// denominator this holds of a zero numerator only.
    pub open spec fn ratio_in_unit(numerator: T, denominator: T) -> bool
        where T: PartialOrd + From<i8> + Copy
    {
        if denominator.is_gt(&T::from_spec(0i8)) {
            !(numerator.is_lt(&T::from_spec(0i8)) || numerator.is_gt(&denominator))
        } else {
            !(numerator.is_gt(&T::from_spec(0i8)) || numerator.is_lt(&denominator))
        }
    }

    /// The numerator of the place of the crossing along `self`, counted from
    /// `start`: `by * cx - bx * cy`, where `(bx, by)` leads from the end of
    /// `other` to its start and `(cx, cy)` from the start of `other` to that
    /// of `self`.
    pub open spec fn alpha_numerator(self, other: Self) -> T
        where T: Sub<Output = T> + Mul<Output = T> + Copy
    {
        other.start.y.sub_spec(other.end.y).mul_spec(self.start.x.sub_spec(other.start.x)).sub_spec(
            other.start.x.sub_spec(other.end.x).mul_spec(self.start.y.sub_spec(other.start.y)),
        )
    }

    /// The numerator of the place of the crossing along `other`:
    /// `ax * cy - ay * cx`, where `(ax, ay)` leads from the start of `self` to
    /// its end.
    pub open spec fn beta_numerator(self, other: Self) -> T
        where T: Sub<Output = T> + Mul<Output = T> + Copy
    {
        self.end.x.sub_spec(self.start.x).mul_spec(self.start.y.sub_spec(other.start.y)).sub_spec(
            self.end.y.sub_spec(self.start.y).mul_spec(self.start.x.sub_spec(other.start.x)),
        )
    }

    /// The denominator of both places: `ay * bx - ax * by`. It is zero where
    /// the segments are parallel.
    pub open spec fn denominator(self, other: Self) -> T
        where T: Sub<Output = T> + Mul<Output = T> + Copy
    {
        self.end.y.sub_spec(self.start.y).mul_spec(other.start.x.sub_spec(other.end.x)).sub_spec(
            self.end.x.sub_spec(self.start.x).mul_spec(other.start.y.sub_spec(other.end.y)),
        )
    }

    /// The point of `self` at the place `alpha_numerator / denominator`:
    /// `start + alpha_numerator * (end - start) / denominator`.
    pub open spec fn crossing(self, other: Self) -> Vector2<T>
        where T: Add<Output = T> + Sub<Output = T> + Mul<Output = T> + Div<Output = T> + Copy
    {
        Vector2 {
            x: self.start.x.add_spec(
                self.alpha_numerator(other).mul_spec(self.end.x.sub_spec(self.start.x)).div_spec(
                    self.denominator(other),
                ),
            ),
            y: self.start.y.add_spec(
                self.alpha_numerator(other).mul_spec(self.end.y.sub_spec(self.start.y)).div_spec(
                    self.denominator(other),
                ),
            ),
        }
    }

    /// Whether the segments pass the tests that come before the division:
    /// their spans meet along `x` and along `y`, both places lie between zero
    /// and one, and the denominator is not zero.
    pub open spec fn crosses(self, other: Self) -> bool
        where T: PartialOrd + Sub<Output = T> + Mul<Output = T> + From<i8> + Copy
    {
        &&& Self::spans_meet(self.start.x, self.end.x, other.start.x, other.end.x)
        &&& Self::spans_meet(self.start.y, self.end.y, other.start.y, other.end.y)
        &&& Self::ratio_in_unit(self.alpha_numerator(other), self.denominator(other))
        &&& Self::ratio_in_unit(self.beta_numerator(other), self.denominator(other))
        &&& !self.denominator(other).eq_spec(&T::from_spec(0i8))
    }

    /// The point where the segments cross, if they do. Parallel segments are
    /// told not to cross, also where they lie on one line and share points.
    pub open spec fn intersects_spec(self, other: Self) -> Option<Vector2<T>>
        where
            T: PartialOrd + Add<Output = T> + Sub<Output = T> + Mul<Output = T> + Div<Output = T>
                + From<i8> + Copy,
    {
        if self.crosses(other) {
            Some(self.crossing(other))
        } else {
            None
        }
    }

    /// Whether each step that `intersects` takes is defined. A step is taken
    /// only where the tests before it have not told the segments apart.
    pub open spec fn intersects_req(self, other: Self) -> bool
        where
            T: PartialOrd + Add<Output = T> + Sub<Output = T> + Mul<Output = T> + Div<Output = T>
                + From<i8> + Copy,
    {
        let ax = self.end.x.sub_spec(self.start.x);
        let bx = other.start.x.sub_spec(other.end.x);
        let ay = self.end.y.sub_spec(self.start.y);
        let by = other.start.y.sub_spec(other.end.y);
        let cx = self.start.x.sub_spec(other.start.x);
        let cy = self.start.y.sub_spec(other.start.y);
        let d = self.alpha_numerator(other);
        let e = self.beta_numerator(other);
        let f = self.denominator(other);
        &&& self.end.x.sub_req(self.start.x)
        &&& other.start.x.sub_req(other.end.x)
        &&& Self::spans_meet(self.start.x, self.end.x, other.start.x, other.end.x) ==> {
            &&& self.end.y.sub_req(self.start.y)
            &&& other.start.y.sub_req(other.end.y)
            &&& Self::spans_meet(self.start.y, self.end.y, other.start.y, other.end.y) ==> {
                &&& self.start.x.sub_req(other.start.x)
                &&& self.start.y.sub_req(other.start.y)
                &&& by.mul_req(cx)
                &&& bx.mul_req(cy)
                &&& by.mul_spec(cx).sub_req(bx.mul_spec(cy))
                &&& ay.mul_req(bx)
                &&& ax.mul_req(by)
                &&& ay.mul_spec(bx).sub_req(ax.mul_spec(by))
                &&& Self::ratio_in_unit(d, f) ==> {
                    &&& ax.mul_req(cy)
                    &&& ay.mul_req(cx)
                    &&& ax.mul_spec(cy).sub_req(ay.mul_spec(cx))
                    &&& Self::ratio_in_unit(e, f) && !f.eq_spec(&T::from_spec(0i8)) ==> {
                        &&& d.mul_req(ax)
                        &&& d.mul_spec(ax).div_req(f)
                        &&& self.start.x.add_req(d.mul_spec(ax).div_spec(f))
                        &&& d.mul_req(ay)
                        &&& d.mul_spec(ay).div_req(f)
                        &&& self.start.y.add_req(d.mul_spec(ay).div_spec(f))
                    }
                }
            }
        }
    }

    /// The point where the two segments cross, if they do.
    ///
    /// Segments whose spans along `x` or along `y` have no coordinate in
    /// common are told apart first, without a product. The places of the
    /// crossing along the two segments are then tested against zero and one by
    /// the signs of their numerators and of the common denominator, and only
    /// where both lie within is the division made.
    pub fn intersects(&self, other: &Line2D<T>) -> (r: Option<Vector2<T>>)
        where
            T: PartialOrd + Add<Output = T> + Sub<Output = T> + Mul<Output = T> + Div<Output = T>
                + From<i8> + Copy,
        requires
            T::obeys_partial_cmp_spec(),
            T::obeys_eq_spec(),
            T::obeys_sub_spec(),
            T::obeys_mul_spec(),
            T::obeys_div_spec(),
            T::obeys_from_spec(),
            self.intersects_req(*other),
        ensures
            T::obeys_add_spec() ==> r == self.intersects_spec(*other),
            r is Some <==> self.crosses(*other),
    {
        let zero = T::from(0i8);
        let start = self.start;
        let end = self.end;
        let other_start = other.start;
        let other_end = other.end;

        let ax = end.x - start.x;
        let bx = other_start.x - other_end.x;
        let x_lo;
        let x_hi;

        if ax < zero {
            x_lo = end.x;
            x_hi = start.x;
        } else {
            x_lo = start.x;
            x_hi = end.x;
        }

        if bx > zero {
            if x_hi < other_end.x || other_start.x < x_lo {
                return None;
            }
        } else {
            if x_hi < other_start.x || other_end.x < x_lo {
                return None;
            }
        }

        let ay = end.y - start.y;
        let by = other_start.y - other_end.y;
        let y_lo;
        let y_hi;

        if ay < zero {
            y_lo = end.y;
            y_hi = start.y;
        } else {
            y_lo = start.y;
            y_hi = end.y;
        }

        if by > zero {
            if y_hi < other_end.y || other_start.y < y_lo {
                return None;
            }
        } else {
            if y_hi < other_start.y || other_end.y < y_lo {
                return None;
            }
        }

        let cx = start.x - other_start.x;
        let cy = start.y - other_start.y;
        let d = by * cx - bx * cy;
        let f = ay * bx - ax * by;

        if f > zero {
            if d < zero || d > f {
                return None;
            }
        } else {
            if d > zero || d < f {
                return None;
            }
        }

        let e = ax * cy - ay * cx;

        if f > zero {
            if e < zero || e > f {
                return None;
            }
        } else {
            if e > zero || e < f {
                return None;
            }
        }

        if f == zero {
            return None;
        }

        let x = start.x + d * ax / f;
        let y = start.y + d * ay / f;

        Some(Vector2::new(x, y))
    }

    /// The segment `line` without its axes past `y`.
    pub fn from_line3d(line: Line3D<T>) -> (r: Self)
        ensures
            r == (Line2D {
                start: Vector2 { x: line.start.x, y: line.start.y },
                end: Vector2 { x: line.end.x, y: line.end.y },
            }),
    {
        Line2D::new(line.start.x, line.start.y, line.end.x, line.end.y)
    }

    /// The segment `line` without its axes past `y`.
    pub fn from_line4d(line: Line4D<T>) -> (r: Self)
        ensures
            r == (Line2D {
                start: Vector2 { x: line.start.x, y: line.start.y },
                end: Vector2 { x: line.end.x, y: line.end.y },
            }),
    {
        Line2D::new(line.start.x, line.start.y, line.end.x, line.end.y)
    }
}

} // verus!
