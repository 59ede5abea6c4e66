//! Spheres, held as center and radius.

use vstd::prelude::*;
use vstd::std_specs::ops::{AddSpec, DivSpec, MulSpec, SubSpec};
use vstd::std_specs::convert::FromSpec;
use vstd::std_specs::cmp::{PartialOrdSpec, PartialOrdIs};
use core::ops::{Add, Div, Mul, Sub};
use num_traits::{Float, FloatConst};
use crate::float_ops::{cbrt_of, float_cbrt, float_pi, float_sqrt, is_pi, sqrt_of};
use crate::vectors::Vector3;
use super::circle::Circle;

verus! {

/// A sphere held as its center and its radius. The radius may have any sign.
#[derive(Debug, Clone, Copy, PartialEq, Default)]
pub struct Sphere<T> {
    pub center: Vector3<T>,
    pub radius: T,
}

impl<T> Sphere<T> {
    /// The ball with the given center and radius.
    pub fn new(center_x: T, center_y: T, center_z: T, radius: T) -> (r: Self)
        ensures
            r == (Sphere { center: Vector3 { x: center_x, y: center_y, z: center_z }, radius }),
    {
        Self::new_vector(Vector3::new(center_x, center_y, center_z), radius)
    }

    /// The ball with the center `center` and the radius `radius`.
    pub fn new_vector(center: Vector3<T>, radius: T) -> (r: Self)
        ensures
            r == (Sphere { center, radius }),
    {
        Sphere { center, radius }
    }

    /// Twice the radius.
    pub open spec fn diameter_spec(self) -> T
        where T: Add<Output = T> + Copy
    {
        self.radius.add_spec(self.radius)
    }

    /// Twice the radius.
    pub fn get_diameter(&self) -> (r: T)
        where T: Add<Output = T> + Copy
        requires
            self.radius.add_req(self.radius),
        ensures
            T::obeys_add_spec() ==> r == self.diameter_spec(),
    {
        self.radius + self.radius
    }

    /// Gives the ball half of `diameter` as its radius.
    pub fn set_diameter(&mut self, diameter: T)
        where T: Div<Output = T> + From<i8> + Copy
        requires
            T::obeys_from_spec(),
            diameter.div_req(T::from_spec(2i8)),
        ensures
            T::obeys_div_spec() ==> final(self).radius == diameter.div_spec(T::from_spec(2i8)),
            final(self).center == old(self).center,
    {
        let two = T::from(2i8);
        self.radius = diameter / two;
    }

    /// The radius times two times `pi`.
    pub open spec fn circumference_with_spec(self, pi: T) -> T
        where T: Mul<Output = T> + From<i8> + Copy
    {
        self.radius.mul_spec(T::from_spec(2i8)).mul_spec(pi)
    }

    /// Whether each step of `circumference_with` is defined.
    pub open spec fn circumference_with_req(self, pi: T) -> bool
        where T: Mul<Output = T> + From<i8> + Copy
    {
        &&& self.radius.mul_req(T::from_spec(2i8))
        &&& self.radius.mul_spec(T::from_spec(2i8)).mul_req(pi)
    }

    /// The radius times two times `pi`.
    pub fn circumference_with(&self, pi: T) -> (r: T)
        where T: Mul<Output = T> + From<i8> + Copy
        requires
            T::obeys_mul_spec(),
            T::obeys_from_spec(),
            self.circumference_with_req(pi),
        ensures
            r == self.circumference_with_spec(pi),
    {
        let two = T::from(2i8);
        self.radius * two * pi
    }

    /// The circumference of a great circle, with the pi of `T`.
    pub fn get_circumference(&self) -> (r: T)
        where T: FloatConst + Mul<Output = T> + From<i8> + Copy
        requires
            T::obeys_mul_spec(),
            T::obeys_from_spec(),
            forall|pi: T| #[trigger] is_pi(pi) ==> self.circumference_with_req(pi),
        ensures
            T::obeys_mul_spec() ==> exists|pi: T| #[trigger] is_pi(pi)
                && r == self.circumference_with_spec(pi),
    {
        self.circumference_with(float_pi())
    }

    /// The radius of a circle of the given circumference: the circumference
    /// divided by two times `pi`.
    pub open spec fn radius_of_circumference_spec(circumference: T, pi: T) -> T
        where T: Mul<Output = T> + Div<Output = T> + From<i8> + Copy
    {
        circumference.div_spec(T::from_spec(2i8).mul_spec(pi))
    }

    /// Whether each step of `radius_of_circumference` is defined.
    pub open spec fn radius_of_circumference_req(circumference: T, pi: T) -> bool
        where T: Mul<Output = T> + Div<Output = T> + From<i8> + Copy
    {
        &&& T::from_spec(2i8).mul_req(pi)
        &&& circumference.div_req(T::from_spec(2i8).mul_spec(pi))
    }

    /// The radius of a circle of the given circumference: the circumference
    /// divided by two times `pi`.
    pub fn radius_of_circumference(circumference: T, pi: T) -> (r: T)
        where T: Mul<Output = T> + Div<Output = T> + From<i8> + Copy
        requires
            T::obeys_mul_spec(),
            T::obeys_from_spec(),
            Self::radius_of_circumference_req(circumference, pi),
        ensures
            T::obeys_div_spec() ==> r == Self::radius_of_circumference_spec(circumference, pi),
    {
        let two = T::from(2i8);
        circumference / (two * pi)
    }

    /// Gives the ball the radius of a circle of the given circumference, with
    /// the pi of `T`.
    pub fn set_circumference(&mut self, circumference: T)
        where T: FloatConst + Mul<Output = T> + Div<Output = T> + From<i8> + Copy
        requires
            T::obeys_mul_spec(),
            T::obeys_from_spec(),
            forall|pi: T| #[trigger]
                is_pi(pi) ==> Self::radius_of_circumference_req(circumference, pi),
        ensures
            T::obeys_div_spec() ==> exists|pi: T| #[trigger]
                is_pi(pi) && final(self).radius == Self::radius_of_circumference_spec(
                    circumference,
                    pi,
                ),
            final(self).center == old(self).center,
    {
        self.radius = Self::radius_of_circumference(circumference, float_pi());
    }

    /// Four times `pi` times the radius times the radius.
    pub open spec fn area_with_spec(self, pi: T) -> T
        where T: Mul<Output = T> + From<i8> + Copy
    {
        T::from_spec(4i8).mul_spec(pi).mul_spec(self.radius).mul_spec(self.radius)
    }

    /// Whether each step of `area_with` is defined.
    pub open spec fn area_with_req(self, pi: T) -> bool
        where T: Mul<Output = T> + From<i8> + Copy
    {
        &&& T::from_spec(4i8).mul_req(pi)
        &&& T::from_spec(4i8).mul_spec(pi).mul_req(self.radius)
        &&& T::from_spec(4i8).mul_spec(pi).mul_spec(self.radius).mul_req(self.radius)
    }

    /// Four times `pi` times the radius times the radius.
    pub fn area_with(&self, pi: T) -> (r: T)
        where T: Mul<Output = T> + From<i8> + Copy
        requires
            T::obeys_mul_spec(),
            T::obeys_from_spec(),
            self.area_with_req(pi),
        ensures
            r == self.area_with_spec(pi),
    {
        let four = T::from(4i8);
        four * pi * self.radius * self.radius
    }

    /// The area of the surface of the sphere, with the pi of `T`.
    pub fn get_area(&self) -> (r: T)
        where T: FloatConst + Mul<Output = T> + From<i8> + Copy
        requires
            T::obeys_mul_spec(),
            T::obeys_from_spec(),
            forall|pi: T| #[trigger] is_pi(pi) ==> self.area_with_req(pi),
        ensures
            T::obeys_mul_spec() ==> exists|pi: T| #[trigger] is_pi(pi)
                && r == self.area_with_spec(pi),
    {
        self.area_with(float_pi())
    }

    /// Whether each step that `set_area` takes before the root is defined, where
    /// `pi` is the pi of `T`.
    pub open spec fn set_area_req(area: T, pi: T) -> bool
        where T: Mul<Output = T> + Div<Output = T> + From<i8> + Copy
    {
        T::from_spec(4i8).mul_req(pi) && area.div_req(T::from_spec(4i8).mul_spec(pi))
    }

    /// What `set_area` takes the root of, where `pi` is the pi of `T`.
    pub open spec fn set_area_radicand(area: T, pi: T) -> T
        where T: Mul<Output = T> + Div<Output = T> + From<i8> + Copy
    {
        area.div_spec(T::from_spec(4i8).mul_spec(pi))
    }

    /// Gives the sphere the radius of a sphere of the given surface: the square
    /// root, as `T` computes it, of the area divided by four times the pi of
    /// `T`.
    pub fn set_area(&mut self, area: T)
        where T: Float + FloatConst + Mul<Output = T> + Div<Output = T> + From<i8> + Copy
        requires
            T::obeys_mul_spec(),
            T::obeys_from_spec(),
            forall|pi: T| #[trigger] is_pi(pi) ==> Self::set_area_req(area, pi),
        ensures
            T::obeys_div_spec() ==> exists|pi: T| #[trigger]
                is_pi(pi) && sqrt_of(Self::set_area_radicand(area, pi), final(self).radius),
            final(self).center == old(self).center,
    {
        let four: T = From::from(4i8);
        let pi: T = float_pi();
        let radicand = area / (four * pi);
        assert(T::obeys_div_spec() ==> radicand == Self::set_area_radicand(area, pi));
        self.radius = float_sqrt(radicand);
    }

    /// Four thirds times `pi` times the cube of the radius.
    pub open spec fn volume_with_spec(self, pi: T) -> T
        where T: Mul<Output = T> + Div<Output = T> + From<i8> + Copy
    {
        T::from_spec(4i8).div_spec(T::from_spec(3i8))
            .mul_spec(pi)
            .mul_spec(self.radius)
            .mul_spec(self.radius)
            .mul_spec(self.radius)
    }

    /// Whether each step of `volume_with` is defined.
    pub open spec fn volume_with_req(self, pi: T) -> bool
        where T: Mul<Output = T> + Div<Output = T> + From<i8> + Copy
    {
        &&& T::from_spec(4i8).div_req(T::from_spec(3i8))
        &&& T::from_spec(4i8).div_spec(T::from_spec(3i8)).mul_req(pi)
        &&& T::from_spec(4i8).div_spec(T::from_spec(3i8)).mul_spec(pi).mul_req(self.radius)
        &&& T::from_spec(4i8).div_spec(T::from_spec(3i8))
            .mul_spec(pi)
            .mul_spec(self.radius)
            .mul_req(self.radius)
        &&& T::from_spec(4i8).div_spec(T::from_spec(3i8))
            .mul_spec(pi)
            .mul_spec(self.radius)
            .mul_spec(self.radius)
            .mul_req(self.radius)
    }

    /// Four thirds times `pi` times the cube of the radius.
    pub fn volume_with(&self, pi: T) -> (r: T)
        where T: Mul<Output = T> + Div<Output = T> + From<i8> + Copy
        requires
            T::obeys_mul_spec(),
            T::obeys_div_spec(),
            T::obeys_from_spec(),
            self.volume_with_req(pi),
        ensures
            r == self.volume_with_spec(pi),
    {
        let four = T::from(4i8);
        let three = T::from(3i8);
        four / three * pi * self.radius * self.radius * self.radius
    }

    /// The volume of the sphere, with the pi of `T`.
    pub fn get_volume(&self) -> (r: T)
        where T: FloatConst + Mul<Output = T> + Div<Output = T> + From<i8> + Copy
        requires
            T::obeys_mul_spec(),
            T::obeys_div_spec(),
            T::obeys_from_spec(),
            forall|pi: T| #[trigger] is_pi(pi) ==> self.volume_with_req(pi),
        ensures
            T::obeys_mul_spec() ==> exists|pi: T| #[trigger] is_pi(pi)
                && r == self.volume_with_spec(pi),
    {
        self.volume_with(float_pi())
    }

    /// Whether each step that `set_volume` takes before the root is defined, where
    /// `pi` is the pi of `T`.
    pub open spec fn set_volume_req(volume: T, pi: T) -> bool
        where T: Mul<Output = T> + Div<Output = T> + From<i8> + Copy
    {
        T::from_spec(4i8).div_spec(T::from_spec(3i8)).mul_req(pi) && volume.div_req(
                    T::from_spec(4i8).div_spec(T::from_spec(3i8)).mul_spec(pi),
                )
    }

    /// What `set_volume` takes the root of, where `pi` is the pi of `T`.
    pub open spec fn set_volume_radicand(volume: T, pi: T) -> T
        where T: Mul<Output = T> + Div<Output = T> + From<i8> + Copy
    {
        volume.div_spec(T::from_spec(4i8).div_spec(T::from_spec(3i8)).mul_spec(pi))
    }

    /// Gives the sphere the radius of a sphere of the given volume: the cube
    /// root, as `T` computes it, of the volume divided by four thirds times the
    /// pi of `T`.
    pub fn set_volume(&mut self, volume: T)
        where T: Float + FloatConst + Mul<Output = T> + Div<Output = T> + From<i8> + Copy
        requires
            T::obeys_mul_spec(),
            T::obeys_div_spec(),
            T::obeys_from_spec(),
            T::from_spec(4i8).div_req(T::from_spec(3i8)),
            forall|pi: T| #[trigger] is_pi(pi) ==> Self::set_volume_req(volume, pi),
        ensures
            T::obeys_div_spec() ==> exists|pi: T| #[trigger]
                is_pi(pi) && cbrt_of(Self::set_volume_radicand(volume, pi), final(self).radius),
            final(self).center == old(self).center,
    {
        let four: T = From::from(4i8);
        let three: T = From::from(3i8);
        let pi: T = float_pi();
        let radicand = volume / (four / three * pi);
        assert(T::obeys_div_spec() ==> radicand == Self::set_volume_radicand(volume, pi));
        self.radius = float_cbrt(radicand);
    }

    /// Whether `point` lies within the ball, its rim included: the squared
    /// distance from the center to `point` is at most the squared radius.
    pub open spec fn contains_spec(self, point: Vector3<T>) -> bool
        where T: PartialOrd + Add<Output = T> + Sub<Output = T> + Mul<Output = T> + Copy
    {
        Vector3::sqr_distance_spec(point, self.center).is_le(&self.radius.mul_spec(self.radius))
    }

    /// Whether `point` lies within the ball, its rim included: the squared
    /// distance from the center to `point` is at most the squared radius.
    pub fn contains(&self, point: Vector3<T>) -> (r: bool)
        where T: PartialOrd + Add<Output = T> + Sub<Output = T> + Mul<Output = T> + Copy
        requires
            T::obeys_sub_spec(),
            T::obeys_mul_spec(),
            T::obeys_add_spec(),
            Vector3::sqr_distance_req(point, self.center),
            self.radius.mul_req(self.radius),
        ensures
            T::obeys_partial_cmp_spec() ==> r == self.contains_spec(point),
    {
        let delta = point - self.center;
        let distance_squared = delta.sqr_magnitude();
        distance_squared <= self.radius * self.radius
    }

    /// Whether the two balls share more than their rim: the squared distance
    /// between the centers is less than the squared sum of the radii. Balls
    /// that only touch do not overlap.
    pub open spec fn overlaps_spec(self, other: Self) -> bool
        where T: PartialOrd + Add<Output = T> + Sub<Output = T> + Mul<Output = T> + Copy
    {
        Vector3::sqr_distance_spec(other.center, self.center).is_lt(
            &self.radius.add_spec(other.radius).mul_spec(self.radius.add_spec(other.radius)),
        )
    }

    /// Whether each step of `overlaps` is defined.
    pub open spec fn overlaps_req(self, other: Self) -> bool
        where T: PartialOrd + Add<Output = T> + Sub<Output = T> + Mul<Output = T> + Copy
    {
        &&& Vector3::sqr_distance_req(other.center, self.center)
        &&& self.radius.add_req(other.radius)
        &&& self.radius.add_spec(other.radius).mul_req(self.radius.add_spec(other.radius))
    }

    /// Whether the two balls share more than their rim: the squared distance
    /// between the centers is less than the squared sum of the radii. Balls
    /// that only touch do not overlap.
    pub fn overlaps(&self, other: &Sphere<T>) -> (r: bool)
        where T: PartialOrd + Add<Output = T> + Sub<Output = T> + Mul<Output = T> + Copy
        requires
            T::obeys_sub_spec(),
            T::obeys_mul_spec(),
            T::obeys_add_spec(),
            self.overlaps_req(*other),
        ensures
            T::obeys_partial_cmp_spec() ==> r == self.overlaps_spec(*other),
    {
        let delta = other.center - self.center;
        let distance_squared = delta.sqr_magnitude();
        let radius_sum = self.radius + other.radius;
        distance_squared < radius_sum * radius_sum
    }

    /// The ball of `circle`, with its center at zero along `z`.
    pub fn from_circle(circle: Circle<T>) -> (r: Self)
        where T: From<i8>
        ensures
            T::obeys_from_spec() ==> r == (Sphere {
                center: Vector3 { x: circle.center.x, y: circle.center.y, z: T::from_spec(0i8) },
                radius: circle.radius,
            }),
    {
        Self::new(circle.center.x, circle.center.y, T::from(0i8), circle.radius)
    }
}

} // verus!
