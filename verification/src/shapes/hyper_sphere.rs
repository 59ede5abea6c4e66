//! Balls in four dimensions, held as center and radius.

use vstd::prelude::*;
use vstd::std_specs::ops::{AddSpec, DivSpec, MulSpec, SubSpec};
use vstd::std_specs::convert::FromSpec;
use vstd::std_specs::cmp::{PartialOrdSpec, PartialOrdIs};
use core::ops::{Add, Div, Mul, Sub};
use num_traits::{Float, FloatConst};
use crate::float_ops::{cbrt_of, float_cbrt, float_pi, float_sqrt, is_pi, sqrt_of};
use crate::vectors::Vector4;

verus! {

/// A ball in four dimensions held as its center and its radius. The radius may have any sign.
#[derive(Debug, Clone, Copy, PartialEq, Default)]
pub struct HyperSphere<T> {
    pub center: Vector4<T>,
    pub radius: T,
}

impl<T> HyperSphere<T> {
    /// The ball with the given center and radius.
    pub fn new(center_x: T, center_y: T, center_z: T, center_w: T, radius: T) -> (r: Self)
        ensures
            r == (HyperSphere {
                center: Vector4 { x: center_x, y: center_y, z: center_z, w: center_w },
                radius,
            }),
    {
        Self::new_vector(Vector4::new(center_x, center_y, center_z, center_w), radius)
    }

    /// The ball with the center `center` and the radius `radius`.
    pub fn new_vector(center: Vector4<T>, radius: T) -> (r: Self)
        ensures
            r == (HyperSphere { center, radius }),
    {
        HyperSphere { center, radius }
    }

    /// Twice the radius.
    pub open spec fn diameter_spec(self) -> T
        where T: Add<Output = T> + Copy
    {
        self.radius.add_spec(self.radius)
    }

    /// Twice the radius.
    pub fn get_diameter(&self) -> (r: T)
        where T: Add<Output = T> + Copy
        requires
            self.radius.add_req(self.radius),
        ensures
            T::obeys_add_spec() ==> r == self.diameter_spec(),
    {
        self.radius + self.radius
    }

    /// Gives the ball half of `diameter` as its radius.
    pub fn set_diameter(&mut self, diameter: T)
        where T: Div<Output = T> + From<i8> + Copy
        requires
            T::obeys_from_spec(),
            diameter.div_req(T::from_spec(2i8)),
        ensures
            T::obeys_div_spec() ==> final(self).radius == diameter.div_spec(T::from_spec(2i8)),
            final(self).center == old(self).center,
    {
        let two = T::from(2i8);
        self.radius = diameter / two;
    }

    /// Two times the square of `pi` times the cube of the radius.
    pub open spec fn surface_volume_with_spec(self, pi: T) -> T
        where T: Mul<Output = T> + From<i8> + Copy
    {
        T::from_spec(2i8).mul_spec(pi)
            .mul_spec(pi)
            .mul_spec(self.radius)
            .mul_spec(self.radius)
            .mul_spec(self.radius)
    }

    /// Whether each step of `surface_volume_with` is defined.
    pub open spec fn surface_volume_with_req(self, pi: T) -> bool
        where T: Mul<Output = T> + From<i8> + Copy
    {
        &&& T::from_spec(2i8).mul_req(pi)
        &&& T::from_spec(2i8).mul_spec(pi).mul_req(pi)
        &&& T::from_spec(2i8).mul_spec(pi).mul_spec(pi).mul_req(self.radius)
        &&& T::from_spec(2i8).mul_spec(pi).mul_spec(pi).mul_spec(self.radius).mul_req(self.radius)
        &&& T::from_spec(2i8).mul_spec(pi)
            .mul_spec(pi)
            .mul_spec(self.radius)
            .mul_spec(self.radius)
            .mul_req(self.radius)
    }

    /// Two times the square of `pi` times the cube of the radius.
    pub fn surface_volume_with(&self, pi: T) -> (r: T)
        where T: Mul<Output = T> + From<i8> + Copy
        requires
            T::obeys_mul_spec(),
            T::obeys_from_spec(),
            self.surface_volume_with_req(pi),
        ensures
            r == self.surface_volume_with_spec(pi),
    {
        let two = T::from(2i8);
        two * pi * pi * self.radius * self.radius * self.radius
    }

    /// The volume of the surface of the ball, with the pi of `T`.
    pub fn get_surface_volume(&self) -> (r: T)
        where T: FloatConst + Mul<Output = T> + From<i8> + Copy
        requires
            T::obeys_mul_spec(),
            T::obeys_from_spec(),
            forall|pi: T| #[trigger] is_pi(pi) ==> self.surface_volume_with_req(pi),
        ensures
            T::obeys_mul_spec() ==> exists|pi: T| #[trigger] is_pi(pi)
                && r == self.surface_volume_with_spec(pi),
    {
        self.surface_volume_with(float_pi())
    }

    /// Whether each step that `set_surface_volume` takes before the root is defined, where
    /// `pi` is the pi of `T`.
    pub open spec fn set_surface_volume_req(surface_volume: T, pi: T) -> bool
        where T: Mul<Output = T> + Div<Output = T> + From<i8> + Copy
    {
        T::from_spec(2i8).mul_req(pi) && T::from_spec(2i8).mul_spec(pi).mul_req(pi)
                    && surface_volume.div_req(T::from_spec(2i8).mul_spec(pi).mul_spec(pi))
    }

    /// What `set_surface_volume` takes the root of, where `pi` is the pi of `T`.
    pub open spec fn set_surface_volume_radicand(surface_volume: T, pi: T) -> T
        where T: Mul<Output = T> + Div<Output = T> + From<i8> + Copy
    {
        surface_volume.div_spec(T::from_spec(2i8).mul_spec(pi).mul_spec(pi))
    }

    /// Gives the ball the radius of a ball of the given surface volume: the
    /// cube root, as `T` computes it, of the surface volume divided by two
    /// times the square of the pi of `T`.
    pub fn set_surface_volume(&mut self, surface_volume: T)
        where T: Float + FloatConst + Mul<Output = T> + Div<Output = T> + From<i8> + Copy
        requires
            T::obeys_mul_spec(),
            T::obeys_from_spec(),
            forall|pi: T| #[trigger] is_pi(pi) ==> Self::set_surface_volume_req(surface_volume, pi),
        ensures
            T::obeys_div_spec() ==> exists|pi: T| #[trigger]
                is_pi(pi)
                    && cbrt_of(
                        Self::set_surface_volume_radicand(surface_volume, pi),
                        final(self).radius,
                    ),
            final(self).center == old(self).center,
    {
        let two: T = From::from(2i8);
        let pi: T = float_pi();
        let radicand = surface_volume / (two * pi * pi);
        assert(
            T::obeys_div_spec() ==>
                radicand == Self::set_surface_volume_radicand(surface_volume, pi)
        );
        self.radius = float_cbrt(radicand);
    }

    /// The square of `pi` times the fourth power of the radius, divided by two.
    pub open spec fn volume_with_spec(self, pi: T) -> T
        where T: Mul<Output = T> + Div<Output = T> + From<i8> + Copy
    {
        pi.mul_spec(pi)
            .mul_spec(self.radius)
            .mul_spec(self.radius)
            .mul_spec(self.radius)
            .mul_spec(self.radius)
            .div_spec(T::from_spec(2i8))
    }

    /// Whether each step of `volume_with` is defined.
    pub open spec fn volume_with_req(self, pi: T) -> bool
        where T: Mul<Output = T> + Div<Output = T> + From<i8> + Copy
    {
        &&& pi.mul_req(pi)
        &&& pi.mul_spec(pi).mul_req(self.radius)
        &&& pi.mul_spec(pi).mul_spec(self.radius).mul_req(self.radius)
        &&& pi.mul_spec(pi).mul_spec(self.radius).mul_spec(self.radius).mul_req(self.radius)
        &&& pi.mul_spec(pi)
            .mul_spec(self.radius)
            .mul_spec(self.radius)
            .mul_spec(self.radius)
            .mul_req(self.radius)
        &&& pi.mul_spec(pi)
            .mul_spec(self.radius)
            .mul_spec(self.radius)
            .mul_spec(self.radius)
            .mul_spec(self.radius)
            .div_req(T::from_spec(2i8))
    }

    /// The square of `pi` times the fourth power of the radius, divided by two.
    pub fn volume_with(&self, pi: T) -> (r: T)
        where T: Mul<Output = T> + Div<Output = T> + From<i8> + Copy
        requires
            T::obeys_mul_spec(),
            T::obeys_from_spec(),
            self.volume_with_req(pi),
        ensures
            T::obeys_div_spec() ==> r == self.volume_with_spec(pi),
    {
        let two = T::from(2i8);
        pi * pi * self.radius * self.radius * self.radius * self.radius / two
    }

    /// The volume of the ball, with the pi of `T`.
    pub fn get_volume(&self) -> (r: T)
        where T: FloatConst + Mul<Output = T> + Div<Output = T> + From<i8> + Copy
        requires
            T::obeys_mul_spec(),
            T::obeys_from_spec(),
            forall|pi: T| #[trigger] is_pi(pi) ==> self.volume_with_req(pi),
        ensures
            T::obeys_div_spec() ==> exists|pi: T| #[trigger] is_pi(pi)
                && r == self.volume_with_spec(pi),
    {
        self.volume_with(float_pi())
    }

    /// Whether each step that `set_volume` takes before the root is defined, where
    /// `pi` is the pi of `T`.
    pub open spec fn set_volume_req(volume: T, pi: T) -> bool
        where T: Mul<Output = T> + Div<Output = T> + From<i8> + Copy
    {
        pi.mul_req(pi) && T::from_spec(2i8).mul_spec(volume).div_req(pi.mul_spec(pi))
    }

    /// What `set_volume` takes the root of, where `pi` is the pi of `T`.
    pub open spec fn set_volume_radicand(volume: T, pi: T) -> T
        where T: Mul<Output = T> + Div<Output = T> + From<i8> + Copy
    {
        T::from_spec(2i8).mul_spec(volume).div_spec(pi.mul_spec(pi))
    }

    /// Gives the ball the radius of a ball of the given volume: the square root
    /// of the square root, as `T` computes them, of twice the volume divided by
    /// the square of the pi of `T`.
    pub fn set_volume(&mut self, volume: T)
        where T: Float + FloatConst + Mul<Output = T> + Div<Output = T> + From<i8> + Copy
        requires
            T::obeys_mul_spec(),
            T::obeys_from_spec(),
            T::from_spec(2i8).mul_req(volume),
            forall|pi: T| #[trigger] is_pi(pi) ==> Self::set_volume_req(volume, pi),
        ensures
            T::obeys_div_spec() ==> exists|pi: T, q: T|
                is_pi(pi)
                    && #[trigger] sqrt_of(Self::set_volume_radicand(volume, pi), q)
                    && sqrt_of(q, final(self).radius),
            final(self).center == old(self).center,
    {
        let two: T = From::from(2i8);
        let pi: T = float_pi();
        let radicand = two * volume / (pi * pi);
        assert(T::obeys_div_spec() ==> radicand == Self::set_volume_radicand(volume, pi));
        let q = float_sqrt(radicand);
        self.radius = float_sqrt(q);
    }

    /// Whether `point` lies within the ball, its rim included: the squared
    /// distance from the center to `point` is at most the squared radius.
    pub open spec fn contains_spec(self, point: Vector4<T>) -> bool
        where T: PartialOrd + Add<Output = T> + Sub<Output = T> + Mul<Output = T> + Copy
    {
        Vector4::sqr_distance_spec(point, self.center).is_le(&self.radius.mul_spec(self.radius))
    }

    /// Whether `point` lies within the ball, its rim included: the squared
    /// distance from the center to `point` is at most the squared radius.
    pub fn contains(&self, point: Vector4<T>) -> (r: bool)
        where T: PartialOrd + Add<Output = T> + Sub<Output = T> + Mul<Output = T> + Copy
        requires
            T::obeys_sub_spec(),
            T::obeys_mul_spec(),
            T::obeys_add_spec(),
            Vector4::sqr_distance_req(point, self.center),
            self.radius.mul_req(self.radius),
        ensures
            T::obeys_partial_cmp_spec() ==> r == self.contains_spec(point),
    {
        let delta = point - self.center;
        let distance_squared = delta.sqr_magnitude();
        distance_squared <= self.radius * self.radius
    }

    /// Whether the two balls share more than their rim: the squared distance
    /// between the centers is less than the squared sum of the radii. Balls
    /// that only touch do not overlap.
    pub open spec fn overlaps_spec(self, other: Self) -> bool
        where T: PartialOrd + Add<Output = T> + Sub<Output = T> + Mul<Output = T> + Copy
    {
        Vector4::sqr_distance_spec(other.center, self.center).is_lt(
            &self.radius.add_spec(other.radius).mul_spec(self.radius.add_spec(other.radius)),
        )
    }

    /// Whether each step of `overlaps` is defined.
    pub open spec fn overlaps_req(self, other: Self) -> bool
        where T: PartialOrd + Add<Output = T> + Sub<Output = T> + Mul<Output = T> + Copy
    {
        &&& Vector4::sqr_distance_req(other.center, self.center)
        &&& self.radius.add_req(other.radius)
        &&& self.radius.add_spec(other.radius).mul_req(self.radius.add_spec(other.radius))
    }

    /// Whether the two balls share more than their rim: the squared distance
    /// between the centers is less than the squared sum of the radii. Balls
    /// that only touch do not overlap.
    pub fn overlaps(&self, other: &HyperSphere<T>) -> (r: bool)
        where T: PartialOrd + Add<Output = T> + Sub<Output = T> + Mul<Output = T> + Copy
        requires
            T::obeys_sub_spec(),
            T::obeys_mul_spec(),
            T::obeys_add_spec(),
            self.overlaps_req(*other),
        ensures
            T::obeys_partial_cmp_spec() ==> r == self.overlaps_spec(*other),
    {
        let delta = other.center - self.center;
        let distance_squared = delta.sqr_magnitude();
        let radius_sum = self.radius + other.radius;
        distance_squared < radius_sum * radius_sum
    }
}

} // verus!
