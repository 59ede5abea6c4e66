//! Circles, held as center and radius.

use vstd::prelude::*;
use vstd::std_specs::ops::{AddSpec, DivSpec, MulSpec, SubSpec};
use vstd::std_specs::convert::FromSpec;
use vstd::std_specs::cmp::{PartialOrdSpec, PartialOrdIs};
use core::ops::{Add, Div, Mul, Sub};
use num_traits::{Float, FloatConst};
use crate::float_ops::{float_pi, float_sqrt, is_pi, sqrt_of};
use crate::vectors::Vector2;
use super::sphere::Sphere;
use super::hyper_sphere::HyperSphere;

verus! {

/// A circle held as its center and its radius. The radius may have any sign.
#[derive(Debug, Clone, Copy, PartialEq, Default)]
pub struct Circle<T> {
    pub center: Vector2<T>,
    pub radius: T,
}

impl<T> Circle<T> {
    /// The ball with the given center and radius.
    pub fn new(center_x: T, center_y: T, radius: T) -> (r: Self)
        ensures
            r == (Circle { center: Vector2 { x: center_x, y: center_y }, radius }),
    {
        Self::new_vector(Vector2::new(center_x, center_y), radius)
    }

    /// The ball with the center `center` and the radius `radius`.
    pub fn new_vector(center: Vector2<T>, radius: T) -> (r: Self)
        ensures
            r == (Circle { center, radius }),
    {
        Circle { center, radius }
    }

    /// Twice the radius.
    pub open spec fn diameter_spec(self) -> T
        where T: Add<Output = T> + Copy
    {
        self.radius.add_spec(self.radius)
    }

    /// Twice the radius.
    pub fn get_diameter(&self) -> (r: T)
        where T: Add<Output = T> + Copy
        requires
            self.radius.add_req(self.radius),
        ensures
            T::obeys_add_spec() ==> r == self.diameter_spec(),
    {
        self.radius + self.radius
    }

    /// Gives the ball half of `diameter` as its radius.
    pub fn set_diameter(&mut self, diameter: T)
        where T: Div<Output = T> + From<i8> + Copy
        requires
            T::obeys_from_spec(),
            diameter.div_req(T::from_spec(2i8)),
        ensures
            T::obeys_div_spec() ==> final(self).radius == diameter.div_spec(T::from_spec(2i8)),
            final(self).center == old(self).center,
    {
        let two = T::from(2i8);
        self.radius = diameter / two;
    }

    /// The radius times two times `pi`.
    pub open spec fn circumference_with_spec(self, pi: T) -> T
        where T: Mul<Output = T> + From<i8> + Copy
    {
        self.radius.mul_spec(T::from_spec(2i8)).mul_spec(pi)
    }

    /// Whether each step of `circumference_with` is defined.
    pub open spec fn circumference_with_req(self, pi: T) -> bool
        where T: Mul<Output = T> + From<i8> + Copy
    {
        &&& self.radius.mul_req(T::from_spec(2i8))
        &&& self.radius.mul_spec(T::from_spec(2i8)).mul_req(pi)
    }

    /// The radius times two times `pi`.
    pub fn circumference_with(&self, pi: T) -> (r: T)
        where T: Mul<Output = T> + From<i8> + Copy
        requires
            T::obeys_mul_spec(),
            T::obeys_from_spec(),
            self.circumference_with_req(pi),
        ensures
            r == self.circumference_with_spec(pi),
    {
        let two = T::from(2i8);
        self.radius * two * pi
    }

    /// The circumference of a great circle, with the pi of `T`.
    pub fn get_circumference(&self) -> (r: T)
        where T: FloatConst + Mul<Output = T> + From<i8> + Copy
        requires
            T::obeys_mul_spec(),
            T::obeys_from_spec(),
            forall|pi: T| #[trigger] is_pi(pi) ==> self.circumference_with_req(pi),
        ensures
            T::obeys_mul_spec() ==> exists|pi: T| #[trigger] is_pi(pi)
                && r == self.circumference_with_spec(pi),
    {
        self.circumference_with(float_pi())
    }

    /// The radius of a circle of the given circumference: the circumference
    /// divided by two times `pi`.
    pub open spec fn radius_of_circumference_spec(circumference: T, pi: T) -> T
        where T: Mul<Output = T> + Div<Output = T> + From<i8> + Copy
    {
        circumference.div_spec(T::from_spec(2i8).mul_spec(pi))
    }

    /// Whether each step of `radius_of_circumference` is defined.
    pub open spec fn radius_of_circumference_req(circumference: T, pi: T) -> bool
        where T: Mul<Output = T> + Div<Output = T> + From<i8> + Copy
    {
        &&& T::from_spec(2i8).mul_req(pi)
        &&& circumference.div_req(T::from_spec(2i8).mul_spec(pi))
    }

    /// The radius of a circle of the given circumference: the circumference
    /// divided by two times `pi`.
    pub fn radius_of_circumference(circumference: T, pi: T) -> (r: T)
        where T: Mul<Output = T> + Div<Output = T> + From<i8> + Copy
        requires
            T::obeys_mul_spec(),
            T::obeys_from_spec(),
            Self::radius_of_circumference_req(circumference, pi),
        ensures
            T::obeys_div_spec() ==> r == Self::radius_of_circumference_spec(circumference, pi),
    {
        let two = T::from(2i8);
        circumference / (two * pi)
    }

    /// Gives the ball the radius of a circle of the given circumference, with
    /// the pi of `T`.
    pub fn set_circumference(&mut self, circumference: T)
        where T: FloatConst + Mul<Output = T> + Div<Output = T> + From<i8> + Copy
        requires
            T::obeys_mul_spec(),
            T::obeys_from_spec(),
            forall|pi: T| #[trigger]
                is_pi(pi) ==> Self::radius_of_circumference_req(circumference, pi),
        ensures
            T::obeys_div_spec() ==> exists|pi: T| #[trigger]
                is_pi(pi) && final(self).radius == Self::radius_of_circumference_spec(
                    circumference,
                    pi,
                ),
            final(self).center == old(self).center,
    {
        self.radius = Self::radius_of_circumference(circumference, float_pi());
    }

    /// The radius times the radius times `pi`.
    pub open spec fn area_with_spec(self, pi: T) -> T
        where T: Mul<Output = T> + Copy
    {
        self.radius.mul_spec(self.radius).mul_spec(pi)
    }

    /// Whether each step of `area_with` is defined.
    pub open spec fn area_with_req(self, pi: T) -> bool
        where T: Mul<Output = T> + Copy
    {
        &&& self.radius.mul_req(self.radius)
        &&& self.radius.mul_spec(self.radius).mul_req(pi)
    }

    /// The radius times the radius times `pi`.
    pub fn area_with(&self, pi: T) -> (r: T)
        where T: Mul<Output = T> + Copy
        requires
            T::obeys_mul_spec(),
            self.area_with_req(pi),
        ensures
            r == self.area_with_spec(pi),
    {
        self.radius * self.radius * pi
    }

    /// The area of the circle, with the pi of `T`.
    pub fn get_area(&self) -> (r: T)
        where T: FloatConst + Mul<Output = T> + Copy
        requires
            T::obeys_mul_spec(),
            forall|pi: T| #[trigger] is_pi(pi) ==> self.area_with_req(pi),
        ensures
            T::obeys_mul_spec() ==> exists|pi: T| #[trigger] is_pi(pi)
                && r == self.area_with_spec(pi),
    {
        self.area_with(float_pi())
    }

    /// Whether each step that `set_area` takes before the root is defined, where
    /// `pi` is the pi of `T`.
    pub open spec fn set_area_req(area: T, pi: T) -> bool
        where T: Div<Output = T> + Copy
    {
        area.div_req(pi)
    }

    /// What `set_area` takes the root of, where `pi` is the pi of `T`.
    pub open spec fn set_area_radicand(area: T, pi: T) -> T
        where T: Div<Output = T> + Copy
    {
        area.div_spec(pi)
    }

    /// Gives the circle the radius of a circle of the given area: the square
    /// root, as `T` computes it, of the area divided by the pi of `T`.
    pub fn set_area(&mut self, area: T)
        where T: Float + FloatConst + Div<Output = T> + Copy
        requires
            forall|pi: T| #[trigger] is_pi(pi) ==> Self::set_area_req(area, pi),
        ensures
            T::obeys_div_spec() ==> exists|pi: T| #[trigger]
                is_pi(pi) && sqrt_of(Self::set_area_radicand(area, pi), final(self).radius),
            final(self).center == old(self).center,
    {
        let pi: T = float_pi();
        let radicand = area / pi;
        assert(T::obeys_div_spec() ==> radicand == Self::set_area_radicand(area, pi));
        self.radius = float_sqrt(radicand);
    }

    /// Whether `point` lies within the ball, its rim included: the squared
    /// distance from the center to `point` is at most the squared radius.
    pub open spec fn contains_spec(self, point: Vector2<T>) -> bool
        where T: PartialOrd + Add<Output = T> + Sub<Output = T> + Mul<Output = T> + Copy
    {
        Vector2::sqr_distance_spec(point, self.center).is_le(&self.radius.mul_spec(self.radius))
    }

    /// Whether `point` lies within the ball, its rim included: the squared
    /// distance from the center to `point` is at most the squared radius.
    pub fn contains(&self, point: Vector2<T>) -> (r: bool)
        where T: PartialOrd + Add<Output = T> + Sub<Output = T> + Mul<Output = T> + Copy
        requires
            T::obeys_sub_spec(),
            T::obeys_mul_spec(),
            T::obeys_add_spec(),
            Vector2::sqr_distance_req(point, self.center),
            self.radius.mul_req(self.radius),
        ensures
            T::obeys_partial_cmp_spec() ==> r == self.contains_spec(point),
    {
        let delta = point - self.center;
        let distance_squared = delta.sqr_magnitude();
        distance_squared <= self.radius * self.radius
    }

    /// Whether the two balls share more than their rim: the squared distance
    /// between the centers is less than the squared sum of the radii. Balls
    /// that only touch do not overlap.
    pub open spec fn overlaps_spec(self, other: Self) -> bool
        where T: PartialOrd + Add<Output = T> + Sub<Output = T> + Mul<Output = T> + Copy
    {
        Vector2::sqr_distance_spec(other.center, self.center).is_lt(
            &self.radius.add_spec(other.radius).mul_spec(self.radius.add_spec(other.radius)),
        )
    }

    /// Whether each step of `overlaps` is defined.
    pub open spec fn overlaps_req(self, other: Self) -> bool
        where T: PartialOrd + Add<Output = T> + Sub<Output = T> + Mul<Output = T> + Copy
    {
        &&& Vector2::sqr_distance_req(other.center, self.center)
        &&& self.radius.add_req(other.radius)
        &&& self.radius.add_spec(other.radius).mul_req(self.radius.add_spec(other.radius))
    }

    /// Whether the two balls share more than their rim: the squared distance
    /// between the centers is less than the squared sum of the radii. Balls
    /// that only touch do not overlap.
    pub fn overlaps(&self, other: &Circle<T>) -> (r: bool)
        where T: PartialOrd + Add<Output = T> + Sub<Output = T> + Mul<Output = T> + Copy
        requires
            T::obeys_sub_spec(),
            T::obeys_mul_spec(),
            T::obeys_add_spec(),
            self.overlaps_req(*other),
        ensures
            T::obeys_partial_cmp_spec() ==> r == self.overlaps_spec(*other),
    {
        let delta = other.center - self.center;
        let distance_squared = delta.sqr_magnitude();
        let radius_sum = self.radius + other.radius;
        distance_squared < radius_sum * radius_sum
    }

    /// The ball of `sphere` without its axes past `y`.
    pub fn from_sphere(sphere: Sphere<T>) -> (r: Self)
        ensures
            r == (Circle {
                center: Vector2 { x: sphere.center.x, y: sphere.center.y },
                radius: sphere.radius,
            }),
    {
        Self::new(sphere.center.x, sphere.center.y, sphere.radius)
    }

    /// The ball of `hyper_sphere` without its axes past `y`.
    pub fn from_hyper_sphere(hyper_sphere: HyperSphere<T>) -> (r: Self)
        ensures
            r == (Circle {
                center: Vector2 { x: hyper_sphere.center.x, y: hyper_sphere.center.y },
                radius: hyper_sphere.radius,
            }),
    {
        Self::new(hyper_sphere.center.x, hyper_sphere.center.y, hyper_sphere.radius)
    }
}

} // verus!
