//! Line segments in three dimensions.

use vstd::prelude::*;
use vstd::std_specs::ops::{AddSpec, DivSpec, MulSpec, SubSpec};
use vstd::std_specs::convert::FromSpec;
use core::ops::{Add, Div, Mul, Sub};
use num_traits::Float;
use crate::float_ops::{float_sqrt, sqrt_of};
use crate::vectors::Vector3;

verus! {

/// A line segment held as its two end points. The two may coincide.
#[derive(Debug, Clone, Copy, PartialEq, Default)]
pub struct Line3D<T> {
    pub start: Vector3<T>,
    pub end: Vector3<T>,
}

impl<T> Line3D<T> {
    /// The segment between the two given end points.
    pub fn new(start_x: T, start_y: T, start_z: T, end_x: T, end_y: T, end_z: T) -> (r: Self)
        ensures
            r == (Line3D {
                start: Vector3 { x: start_x, y: start_y, z: start_z },
                end: Vector3 { x: end_x, y: end_y, z: end_z },
            }),
    {
        Self::new_vectors(
            Vector3::new(start_x, start_y, start_z),
            Vector3::new(end_x, end_y, end_z),
        )
    }

    /// The segment from `start` to `end`.
    pub fn new_vectors(start: Vector3<T>, end: Vector3<T>) -> (r: Self)
        ensures
            r == (Line3D { start, end }),
    {
        Line3D { start, end }
    }

    /// Replaces both end points.
    pub fn set(&mut self, start_x: T, start_y: T, start_z: T, end_x: T, end_y: T, end_z: T)
        ensures
            *final(self) == (Line3D {
                start: Vector3 { x: start_x, y: start_y, z: start_z },
                end: Vector3 { x: end_x, y: end_y, z: end_z },
            }),
    {
        self.start.x = start_x;
        self.start.y = start_y;
        self.start.z = start_z;
        self.end.x = end_x;
        self.end.y = end_y;
        self.end.z = end_z;
    }

    /// Replaces the end points by `start` and `end`.
    pub fn set_vectors(&mut self, start: Vector3<T>, end: Vector3<T>)
        ensures
            *final(self) == (Line3D { start, end }),
    {
        self.start = start;
        self.end = end;
    }

    /// The way from `start` to `end`.
    pub open spec fn delta_spec(self) -> Vector3<T>
        where T: Sub<Output = T> + Copy
    {
        self.end.sub_spec(self.start)
    }

    /// The way from `start` to `end`.
    pub fn get_delta(&self) -> (r: Vector3<T>)
        where T: Sub<Output = T> + Copy
        requires
            self.end.sub_req(self.start),
        ensures
            T::obeys_sub_spec() ==> r == self.delta_spec(),
    {
        self.end - self.start
    }

    /// Keeps `start` and puts `end` at `start + delta`.
    pub fn set_delta(&mut self, delta: Vector3<T>)
        where T: Add<Output = T> + Copy
        requires
            old(self).start.add_req(delta),
        ensures
            final(self).start == old(self).start,
            T::obeys_add_spec() ==> final(self).end == old(self).start.add_spec(delta),
    {
        self.end = self.start + delta;
    }

    /// The squared length: the sum of the squares of the components of the
    /// way from `start` to `end`.
    pub open spec fn sqr_length_spec(self) -> T
        where T: Sub<Output = T> + Mul<Output = T> + Add<Output = T> + Copy
    {
        Vector3::sqr_distance_spec(self.end, self.start)
    }

    /// Whether each step of `get_sqr_length` is defined.
    pub open spec fn sqr_length_req(self) -> bool
        where T: Sub<Output = T> + Mul<Output = T> + Add<Output = T> + Copy
    {
        Vector3::sqr_distance_req(self.end, self.start)
    }

    /// The squared length: the sum of the squares of the components of the
    /// way from `start` to `end`.
    pub fn get_sqr_length(&self) -> (r: T)
        where T: Sub<Output = T> + Mul<Output = T> + Add<Output = T> + Copy
        requires
            T::obeys_sub_spec(),
            T::obeys_mul_spec(),
            T::obeys_add_spec(),
            self.sqr_length_req(),
        ensures
            r == self.sqr_length_spec(),
    {
        let delta = self.end - self.start;
        delta.sqr_magnitude()
    }

    /// The square root, as `T` computes it, of the squared length.
    pub fn get_length(&self) -> (r: T)
        where T: Float + Sub<Output = T> + Mul<Output = T> + Add<Output = T> + Copy
        requires
            T::obeys_sub_spec(),
            T::obeys_mul_spec(),
            T::obeys_add_spec(),
            self.sqr_length_req(),
        ensures
            sqrt_of(self.sqr_length_spec(), r),
    {
        let delta = self.end - self.start;
        delta.magnitude()
    }

    /// The segment from the same `start` along the same way, made `length`
    /// long where `magnitude` is its present length: `end` lies at
    /// `start + (end - start) / magnitude * length`.
    pub open spec fn stretched_spec(self, length: T, magnitude: T) -> Self
        where T: Sub<Output = T> + Div<Output = T> + Mul<Output = T> + Add<Output = T> + Copy
    {
        Line3D {
            start: self.start,
            end: self.start.add_spec(self.delta_spec().div_spec(magnitude).mul_spec(length)),
        }
    }

    /// Whether each step of `stretch` is defined.
    pub open spec fn stretched_req(self, length: T, magnitude: T) -> bool
        where T: Sub<Output = T> + Div<Output = T> + Mul<Output = T> + Add<Output = T> + Copy
    {
        &&& self.end.sub_req(self.start)
        &&& self.delta_spec().div_req(magnitude)
        &&& self.delta_spec().div_spec(magnitude).mul_req(length)
        &&& self.start.add_req(self.delta_spec().div_spec(magnitude).mul_spec(length))
    }

    /// The segment from the same `start` along the same way, made `length`
    /// long where `magnitude` is its present length: `end` lies at
    /// `start + (end - start) / magnitude * length`.
    pub fn stretch(&mut self, length: T, magnitude: T)
        where T: Sub<Output = T> + Div<Output = T> + Mul<Output = T> + Add<Output = T> + Copy
        requires
            T::obeys_sub_spec(),
            T::obeys_div_spec(),
            T::obeys_mul_spec(),
            old(self).stretched_req(length, magnitude),
        ensures
            T::obeys_add_spec() ==> *final(self) == old(self).stretched_spec(length, magnitude),
            final(self).start == old(self).start,
    {
        let delta = self.end - self.start;
        self.end = self.start + delta / magnitude * length;
    }

    /// Keeps `start` and the direction and gives the segment the length
    /// `length`: the way from `start` to `end` is divided by its length, as
    /// `T` computes it, and multiplied by `length`.
    pub fn set_length(&mut self, length: T)
        where
            T: Float + Sub<Output = T> + Div<Output = T> + Mul<Output = T> + Add<Output = T>
                + Copy,
        requires
            T::obeys_sub_spec(),
            T::obeys_div_spec(),
            T::obeys_mul_spec(),
            T::obeys_add_spec(),
            old(self).sqr_length_req(),
            forall|magnitude: T| #[trigger]
                sqrt_of(old(self).sqr_length_spec(), magnitude)
                    ==> old(self).stretched_req(length, magnitude),
        ensures
            exists|magnitude: T| #[trigger]
                sqrt_of(old(self).sqr_length_spec(), magnitude)
                    && *final(self) == old(self).stretched_spec(length, magnitude),
            final(self).start == old(self).start,
    {
        let magnitude = self.get_length();
        self.stretch(length, magnitude);
    }

    /// As `set_length`, with the square root, as `T` computes it, of
    /// `sqr_length` for the length.
    pub fn set_sqr_length(&mut self, sqr_length: T)
        where
            T: Float + Sub<Output = T> + Div<Output = T> + Mul<Output = T> + Add<Output = T>
                + Copy,
        requires
            T::obeys_sub_spec(),
            T::obeys_div_spec(),
            T::obeys_mul_spec(),
            T::obeys_add_spec(),
            old(self).sqr_length_req(),
            forall|length: T, magnitude: T|
                sqrt_of(sqr_length, length)
                    && #[trigger] sqrt_of(old(self).sqr_length_spec(), magnitude)
                    ==> #[trigger] old(self).stretched_req(length, magnitude),
        ensures
            exists|length: T, magnitude: T|
                sqrt_of(sqr_length, length) && sqrt_of(old(self).sqr_length_spec(), magnitude)
                    && *final(self) == #[trigger] old(self).stretched_spec(length, magnitude),
            final(self).start == old(self).start,
    {
        let length = float_sqrt(sqr_length);
        self.set_length(length);
    }

    /// The way from `start` to `end` divided by its length.
    pub fn get_direction(&self) -> (r: Vector3<T>)
        where
            T: Float + Sub<Output = T> + Div<Output = T> + Mul<Output = T> + Add<Output = T>
                + Copy,
        requires
            T::obeys_sub_spec(),
            T::obeys_mul_spec(),
            T::obeys_add_spec(),
            self.sqr_length_req(),
            forall|length: T| #[trigger]
                sqrt_of(self.sqr_length_spec(), length) ==> self.delta_spec().div_req(length),
        ensures
            T::obeys_div_spec() ==> exists|length: T| #[trigger]
                sqrt_of(self.sqr_length_spec(), length) && r == self.delta_spec().div_spec(length),
    {
        let delta = self.end - self.start;
        assert(delta.sqr_magnitude_spec() == self.sqr_length_spec());
        delta.normalized()
    }

    /// Keeps `start` and the length and points the segment along `direction`:
    /// `end` lies at `start` plus `direction` times the length of the
    /// segment, as `T` computes it.
    pub fn set_direction(&mut self, direction: Vector3<T>)
        where T: Float + Sub<Output = T> + Mul<Output = T> + Add<Output = T> + Copy
        requires
            T::obeys_sub_spec(),
            T::obeys_mul_spec(),
            T::obeys_add_spec(),
            old(self).sqr_length_req(),
            forall|length: T| #[trigger]
                sqrt_of(old(self).sqr_length_spec(), length) ==> direction.mul_req(length)
                    && old(self).start.add_req(direction.mul_spec(length)),
        ensures
            exists|length: T| #[trigger]
                sqrt_of(old(self).sqr_length_spec(), length)
                    && final(self).end == old(self).start.add_spec(direction.mul_spec(length)),
            final(self).start == old(self).start,
    {
        let length = self.get_length();
        self.set_delta(direction * length);
    }

    /// The point halfway between the end points: half the sum of their
    /// coordinates.
    pub open spec fn center_spec(self) -> Vector3<T>
        where T: Add<Output = T> + Div<Output = T> + From<i8> + Copy
    {
        self.start.add_spec(self.end).div_spec(T::from_spec(2i8))
    }

    /// Whether each step of `get_center` is defined.
    pub open spec fn center_req(self) -> bool
        where T: Add<Output = T> + Div<Output = T> + From<i8> + Copy
    {
        self.start.add_req(self.end) && self.start.add_spec(self.end).div_req(T::from_spec(2i8))
    }

    /// The point halfway between the end points: half the sum of their
    /// coordinates.
    pub fn get_center(&self) -> (r: Vector3<T>)
        where T: Add<Output = T> + Div<Output = T> + From<i8> + Copy
        requires
            T::obeys_add_spec(),
            T::obeys_from_spec(),
            self.center_req(),
        ensures
            T::obeys_div_spec() ==> r == self.center_spec(),
    {
        (self.start + self.end) / T::from(2i8)
    }

    /// Half the way from `start` to `end`.
    pub open spec fn half_delta_spec(self) -> Vector3<T>
        where T: Sub<Output = T> + Div<Output = T> + From<i8> + Copy
    {
        self.delta_spec().div_spec(T::from_spec(2i8))
    }

    /// Whether each step of `set_center` is defined.
    pub open spec fn set_center_req(self, center: Vector3<T>) -> bool
        where T: Add<Output = T> + Sub<Output = T> + Div<Output = T> + From<i8> + Copy
    {
        &&& self.end.sub_req(self.start)
        &&& self.delta_spec().div_req(T::from_spec(2i8))
        &&& center.sub_req(self.half_delta_spec())
        &&& center.add_req(self.half_delta_spec())
    }

    /// Moves the segment, its way from `start` to `end` unchanged, so that
    /// `center` lies halfway: `start` lies half the way before `center`, and
    /// `end` half the way past it.
    pub fn set_center(&mut self, center: Vector3<T>)
        where T: Add<Output = T> + Sub<Output = T> + Div<Output = T> + From<i8> + Copy
        requires
            T::obeys_sub_spec(),
            T::obeys_div_spec(),
            T::obeys_from_spec(),
            old(self).set_center_req(center),
        ensures
            final(self).start == center.sub_spec(old(self).half_delta_spec()),
            T::obeys_add_spec() ==> final(self).end == center.add_spec(old(self).half_delta_spec()),
    {
        let two = T::from(2i8);
        let delta = self.end - self.start;
        self.start = center - delta / two;
        self.end = center + delta / two;
    }
}

} // verus!
