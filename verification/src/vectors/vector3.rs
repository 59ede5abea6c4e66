//! Vectors of three components with their componentwise arithmetic.

use vstd::prelude::*;
use vstd::std_specs::ops::{AddSpec, DivSpec, MulSpec, NegSpec, SubSpec};
use vstd::std_specs::convert::FromSpec;
use vstd::std_specs::cmp::{PartialOrdSpec, PartialOrdIs};
use core::ops::{Add, Div, Index, Mul, Neg, Sub};
use num_traits::Float;
use crate::float_ops::{
    float_infinity, float_neg_infinity, float_sqrt, is_infinity, is_neg_infinity, sqrt_of,
};
use super::vector2::Vector2;
use super::vector4::Vector4;

verus! {

pub type Vector3i32 = Vector3<i32>;
pub type Vector3i64 = Vector3<i64>;
pub type Vector3u32 = Vector3<u32>;
pub type Vector3u64 = Vector3<u64>;

/// A vector of three components.
#[derive(Debug, PartialEq, Clone, Copy, Default)]
pub struct Vector3<T> {
    pub x: T,
    pub y: T,
    pub z: T,
}

impl<T> Vector3<T> {
    /// The vector of the given components.
    pub fn new(x: T, y: T, z: T) -> (r: Self)
        ensures
            r == (Vector3 { x, y, z }),
    {
        Self { x, y, z }
    }

    /// Every component is zero.
    pub fn zero() -> (r: Self)
        where T: From<i8>
        ensures
            T::obeys_from_spec() ==> r == (Vector3 {
                x: T::from_spec(0i8),
                y: T::from_spec(0i8),
                z: T::from_spec(0i8),
            }),
    {
        Self { x: T::from(0i8), y: T::from(0i8), z: T::from(0i8) }
    }

    /// Every component is one.
    pub fn one() -> (r: Self)
        where T: From<i8>
        ensures
            T::obeys_from_spec() ==> r == (Vector3 {
                x: T::from_spec(1i8),
                y: T::from_spec(1i8),
                z: T::from_spec(1i8),
            }),
    {
        Self { x: T::from(1i8), y: T::from(1i8), z: T::from(1i8) }
    }

    /// The unit vector along `x`.
    pub fn right() -> (r: Self)
        where T: From<i8>
        ensures
            T::obeys_from_spec() ==> r == (Vector3 {
                x: T::from_spec(1i8),
                y: T::from_spec(0i8),
                z: T::from_spec(0i8),
            }),
    {
        Self { x: T::from(1i8), y: T::from(0i8), z: T::from(0i8) }
    }

    /// The unit vector against `x`.
    pub fn left() -> (r: Self)
        where T: From<i8>
        ensures
            T::obeys_from_spec() ==> r == (Vector3 {
                x: T::from_spec(-1i8),
                y: T::from_spec(0i8),
                z: T::from_spec(0i8),
            }),
    {
        Self { x: T::from(-1i8), y: T::from(0i8), z: T::from(0i8) }
    }

    /// The unit vector along `y`.
    pub fn up() -> (r: Self)
        where T: From<i8>
        ensures
            T::obeys_from_spec() ==> r == (Vector3 {
                x: T::from_spec(0i8),
                y: T::from_spec(1i8),
                z: T::from_spec(0i8),
            }),
    {
        Self { x: T::from(0i8), y: T::from(1i8), z: T::from(0i8) }
    }

    /// The unit vector against `y`.
    pub fn down() -> (r: Self)
        where T: From<i8>
        ensures
            T::obeys_from_spec() ==> r == (Vector3 {
                x: T::from_spec(0i8),
                y: T::from_spec(-1i8),
                z: T::from_spec(0i8),
            }),
    {
        Self { x: T::from(0i8), y: T::from(-1i8), z: T::from(0i8) }
    }

    /// The unit vector along `z`.
    pub fn forward() -> (r: Self)
        where T: From<i8>
        ensures
            T::obeys_from_spec() ==> r == (Vector3 {
                x: T::from_spec(0i8),
                y: T::from_spec(0i8),
                z: T::from_spec(1i8),
            }),
    {
        Self { x: T::from(0i8), y: T::from(0i8), z: T::from(1i8) }
    }

    /// The unit vector against `z`.
    pub fn back() -> (r: Self)
        where T: From<i8>
        ensures
            T::obeys_from_spec() ==> r == (Vector3 {
                x: T::from_spec(0i8),
                y: T::from_spec(0i8),
                z: T::from_spec(-1i8),
            }),
    {
        Self { x: T::from(0i8), y: T::from(0i8), z: T::from(-1i8) }
    }

    /// Replaces every component.
    pub fn set(&mut self, x: T, y: T, z: T)
        ensures
            *final(self) == (Vector3 { x, y, z }),
    {
        self.x = x;
        self.y = y;
        self.z = z;
    }

    /// The component at `index`, for writing. An index past the last component
    /// halts the program.
    pub fn index_mut(&mut self, index: usize) -> (r: &mut T)
        requires
            index < 3,
        ensures
            index == 0 ==> *r == old(self).x
                && *final(self) == (Vector3 { x: *final(r), y: old(self).y, z: old(self).z }),
            index == 1 ==> *r == old(self).y
                && *final(self) == (Vector3 { x: old(self).x, y: *final(r), z: old(self).z }),
            index == 2 ==> *r == old(self).z
                && *final(self) == (Vector3 { x: old(self).x, y: old(self).y, z: *final(r) }),
    {
        if index == 0 {
            &mut self.x
        } else if index == 1 {
            &mut self.y
        } else if index == 2 {
            &mut self.z
        } else {
            vstd::pervasive::unreached()
        }
    }

    /// The sum of the squares of the components.
    pub open spec fn sqr_magnitude_spec(self) -> T
        where T: Mul<Output = T> + Add<Output = T> + Copy
    {
        self.x.mul_spec(self.x).add_spec(self.y.mul_spec(self.y)).add_spec(self.z.mul_spec(self.z))
    }

    /// Whether each step of `sqr_magnitude` is defined.
    pub open spec fn sqr_magnitude_req(self) -> bool
        where T: Mul<Output = T> + Add<Output = T> + Copy
    {
        &&& self.x.mul_req(self.x)
        &&& self.y.mul_req(self.y)
        &&& self.x.mul_spec(self.x).add_req(self.y.mul_spec(self.y))
        &&& self.z.mul_req(self.z)
        &&& self.x.mul_spec(self.x)
            .add_spec(self.y.mul_spec(self.y))
            .add_req(self.z.mul_spec(self.z))
    }

    /// The sum of the squares of the components.
    pub fn sqr_magnitude(&self) -> (r: T)
        where T: Mul<Output = T> + Add<Output = T> + Copy
        requires
            T::obeys_mul_spec(),
            T::obeys_add_spec(),
            self.sqr_magnitude_req(),
        ensures
            r == self.sqr_magnitude_spec(),
    {
        self.x * self.x + self.y * self.y + self.z * self.z
    }

    /// The square root, as `T` computes it, of `sqr_magnitude`.
    pub fn magnitude(&self) -> (r: T)
        where T: Float + Mul<Output = T> + Add<Output = T> + Copy
        requires
            T::obeys_mul_spec(),
            T::obeys_add_spec(),
            self.sqr_magnitude_req(),
        ensures
            sqrt_of(self.sqr_magnitude_spec(), r),
    {
        float_sqrt(self.sqr_magnitude())
    }

    /// The sum of the squares of the componentwise differences.
    pub open spec fn sqr_distance_spec(left: Self, right: Self) -> T
        where T: Sub<Output = T> + Mul<Output = T> + Add<Output = T> + Copy
    {
        left.sub_spec(right).sqr_magnitude_spec()
    }

    /// Whether each step of `sqr_distance` is defined.
    pub open spec fn sqr_distance_req(left: Self, right: Self) -> bool
        where T: Sub<Output = T> + Mul<Output = T> + Add<Output = T> + Copy
    {
        left.sub_req(right) && left.sub_spec(right).sqr_magnitude_req()
    }

    /// The square root, as `T` computes it, of `sqr_distance`.
    pub fn distance(left: Self, right: Self) -> (r: T)
        where T: Float + Sub<Output = T> + Mul<Output = T> + Add<Output = T> + Copy
        requires
            T::obeys_sub_spec(),
            T::obeys_mul_spec(),
            T::obeys_add_spec(),
            Self::sqr_distance_req(left, right),
        ensures
            sqrt_of(Self::sqr_distance_spec(left, right), r),
    {
        (left - right).magnitude()
    }

    /// The sum of the squares of the componentwise differences.
    pub fn sqr_distance(left: Self, right: Self) -> (r: T)
        where T: Sub<Output = T> + Mul<Output = T> + Add<Output = T> + Copy
        requires
            T::obeys_sub_spec(),
            T::obeys_mul_spec(),
            T::obeys_add_spec(),
            Self::sqr_distance_req(left, right),
        ensures
            r == Self::sqr_distance_spec(left, right),
    {
        (left - right).sqr_magnitude()
    }

    /// The componentwise product.
    pub fn scale(a: Self, b: Self) -> (r: Self)
        where T: Mul<Output = T>
        requires
            a.x.mul_req(b.x),
            a.y.mul_req(b.y),
            a.z.mul_req(b.z),
        ensures
            T::obeys_mul_spec() ==> r == (Vector3 {
                x: a.x.mul_spec(b.x),
                y: a.y.mul_spec(b.y),
                z: a.z.mul_spec(b.z),
            }),
    {
        Self { x: a.x * b.x, y: a.y * b.y, z: a.z * b.z }
    }

    /// The vector divided by its `magnitude`.
    pub fn normalize(vector: &Self) -> (r: Self)
        where T: Float + Mul<Output = T> + Add<Output = T> + Div<Output = T> + Copy
        requires
            T::obeys_mul_spec(),
            T::obeys_add_spec(),
            vector.sqr_magnitude_req(),
            forall|length: T| #[trigger]
                sqrt_of(vector.sqr_magnitude_spec(), length) ==> (*vector).div_req(length),
        ensures
            T::obeys_div_spec() ==> exists|length: T| #[trigger]
                sqrt_of(vector.sqr_magnitude_spec(), length) && r == (*vector).div_spec(length),
    {
        let length = vector.magnitude();
        *vector / length
    }

    /// The vector divided by its `magnitude`.
    pub fn normalized(&self) -> (r: Self)
        where T: Float + Mul<Output = T> + Add<Output = T> + Div<Output = T> + Copy
        requires
            T::obeys_mul_spec(),
            T::obeys_add_spec(),
            self.sqr_magnitude_req(),
            forall|length: T| #[trigger]
                sqrt_of(self.sqr_magnitude_spec(), length) ==> self.div_req(length),
        ensures
            T::obeys_div_spec() ==> exists|length: T| #[trigger]
                sqrt_of(self.sqr_magnitude_spec(), length) && r == self.div_spec(length),
    {
        Self::normalize(self)
    }

    /// The sum of the componentwise products.
    pub open spec fn dot_spec(left: Self, right: Self) -> T
        where T: Mul<Output = T> + Add<Output = T>
    {
        left.x.mul_spec(right.x)
            .add_spec(left.y.mul_spec(right.y))
            .add_spec(left.z.mul_spec(right.z))
    }

    /// Whether each step of `dot` is defined.
    pub open spec fn dot_req(left: Self, right: Self) -> bool
        where T: Mul<Output = T> + Add<Output = T>
    {
        &&& left.x.mul_req(right.x)
        &&& left.y.mul_req(right.y)
        &&& left.x.mul_spec(right.x).add_req(left.y.mul_spec(right.y))
        &&& left.z.mul_req(right.z)
        &&& left.x.mul_spec(right.x)
            .add_spec(left.y.mul_spec(right.y))
            .add_req(left.z.mul_spec(right.z))
    }

    /// The sum of the componentwise products.
    pub fn dot(left: Self, right: Self) -> (r: T)
        where T: Mul<Output = T> + Add<Output = T>
        requires
            T::obeys_mul_spec(),
            T::obeys_add_spec(),
            Self::dot_req(left, right),
        ensures
            r == Self::dot_spec(left, right),
    {
        left.x * right.x + left.y * right.y + left.z * right.z
    }

    /// Twice the dot product of `direction` and `normal`.
    pub open spec fn reflect_factor(direction: Self, normal: Self) -> T
        where T: Mul<Output = T> + Add<Output = T> + From<i8> + Copy
    {
        Self::dot_spec(direction, normal).mul_spec(T::from_spec(2i8))
    }

    /// `normal` scaled by `reflect_factor`, plus `direction`.
    pub open spec fn reflect_spec(direction: Self, normal: Self) -> Self
        where T: Mul<Output = T> + Add<Output = T> + From<i8> + Copy
    {
        Vector3 {
            x: normal.x.mul_spec(Self::reflect_factor(direction, normal)).add_spec(direction.x),
            y: normal.y.mul_spec(Self::reflect_factor(direction, normal)).add_spec(direction.y),
            z: normal.z.mul_spec(Self::reflect_factor(direction, normal)).add_spec(direction.z),
        }
    }

    /// Whether each step of `reflect` is defined.
    pub open spec fn reflect_req(direction: Self, normal: Self) -> bool
        where T: Mul<Output = T> + Add<Output = T> + From<i8> + Copy
    {
        &&& Self::dot_req(direction, normal)
        &&& Self::dot_spec(direction, normal).mul_req(T::from_spec(2i8))
        &&& normal.x.mul_req(Self::reflect_factor(direction, normal))
        &&& normal.x.mul_spec(Self::reflect_factor(direction, normal)).add_req(direction.x)
        &&& normal.y.mul_req(Self::reflect_factor(direction, normal))
        &&& normal.y.mul_spec(Self::reflect_factor(direction, normal)).add_req(direction.y)
        &&& normal.z.mul_req(Self::reflect_factor(direction, normal))
        &&& normal.z.mul_spec(Self::reflect_factor(direction, normal)).add_req(direction.z)
    }

    /// `normal` scaled by `reflect_factor`, plus `direction`.
    pub fn reflect(direction: Self, normal: Self) -> (r: Self)
        where T: Mul<Output = T> + Add<Output = T> + From<i8> + Copy
        requires
            T::obeys_mul_spec(),
            T::obeys_add_spec(),
            T::obeys_from_spec(),
            Self::reflect_req(direction, normal),
        ensures
            r == Self::reflect_spec(direction, normal),
    {
        let factor = Self::dot(direction, normal) * T::from(2i8);
        Self {
            x: normal.x * factor + direction.x,
            y: normal.y * factor + direction.y,
            z: normal.z * factor + direction.z,
        }
    }

    /// The cross product.
    pub open spec fn cross_spec(left: Self, right: Self) -> Self
        where T: Sub<Output = T> + Mul<Output = T> + Copy
    {
        Vector3 {
            x: left.y.mul_spec(right.z).sub_spec(left.z.mul_spec(right.y)),
            y: left.z.mul_spec(right.x).sub_spec(left.x.mul_spec(right.z)),
            z: left.x.mul_spec(right.y).sub_spec(left.y.mul_spec(right.x)),
        }
    }

    /// Whether each step of `cross` is defined.
    pub open spec fn cross_req(left: Self, right: Self) -> bool
        where T: Sub<Output = T> + Mul<Output = T> + Copy
    {
        &&& left.y.mul_req(right.z)
        &&& left.z.mul_req(right.y)
        &&& left.y.mul_spec(right.z).sub_req(left.z.mul_spec(right.y))
        &&& left.z.mul_req(right.x)
        &&& left.x.mul_req(right.z)
        &&& left.z.mul_spec(right.x).sub_req(left.x.mul_spec(right.z))
        &&& left.x.mul_req(right.y)
        &&& left.y.mul_req(right.x)
        &&& left.x.mul_spec(right.y).sub_req(left.y.mul_spec(right.x))
    }

    /// The cross product.
    pub fn cross(left: Self, right: Self) -> (r: Self)
        where T: Sub<Output = T> + Mul<Output = T> + Copy
        requires
            T::obeys_mul_spec(),
            T::obeys_sub_spec(),
            Self::cross_req(left, right),
        ensures
            r == Self::cross_spec(left, right),
    {
        Self {
            x: left.y * right.z - left.z * right.y,
            y: left.z * right.x - left.x * right.z,
            z: left.x * right.y - left.y * right.x,
        }
    }

    /// `normal` scaled by the dot product of `vector` and `normal`, divided by
    /// the squared magnitude of `normal`.
    pub open spec fn project_spec(vector: Self, normal: Self) -> Self
        where T: Mul<Output = T> + Add<Output = T> + Div<Output = T> + Copy
    {
        Vector3 {
            x: normal.x.mul_spec(Self::dot_spec(vector, normal))
                .div_spec(normal.sqr_magnitude_spec()),
            y: normal.y.mul_spec(Self::dot_spec(vector, normal))
                .div_spec(normal.sqr_magnitude_spec()),
            z: normal.z.mul_spec(Self::dot_spec(vector, normal))
                .div_spec(normal.sqr_magnitude_spec()),
        }
    }

    /// Whether each step of `project` is defined.
    pub open spec fn project_req(vector: Self, normal: Self) -> bool
        where T: Mul<Output = T> + Add<Output = T> + Div<Output = T> + Copy
    {
        &&& normal.sqr_magnitude_req()
        &&& Self::dot_req(vector, normal)
        &&& normal.x.mul_req(Self::dot_spec(vector, normal))
        &&& normal.x.mul_spec(Self::dot_spec(vector, normal)).div_req(normal.sqr_magnitude_spec())
        &&& normal.y.mul_req(Self::dot_spec(vector, normal))
        &&& normal.y.mul_spec(Self::dot_spec(vector, normal)).div_req(normal.sqr_magnitude_spec())
        &&& normal.z.mul_req(Self::dot_spec(vector, normal))
        &&& normal.z.mul_spec(Self::dot_spec(vector, normal)).div_req(normal.sqr_magnitude_spec())
    }

    /// `normal` scaled by the dot product of `vector` and `normal`, divided by
    /// the squared magnitude of `normal`.
    pub fn project(vector: Self, normal: Self) -> (r: Self)
        where T: Mul<Output = T> + Add<Output = T> + Div<Output = T> + Copy
        requires
            T::obeys_mul_spec(),
            T::obeys_add_spec(),
            T::obeys_div_spec(),
            Self::project_req(vector, normal),
        ensures
            r == Self::project_spec(vector, normal),
    {
        let sqr_mag = normal.sqr_magnitude();
        let dot = Self::dot(vector, normal);
        Self {
            x: normal.x * dot / sqr_mag,
            y: normal.y * dot / sqr_mag,
            z: normal.z * dot / sqr_mag,
        }
    }

    /// `vector` less its projection on `plane_normal`.
    pub fn project_on_plane(vector: Self, plane_normal: Self) -> (r: Self)
        where T: Mul<Output = T> + Add<Output = T> + Div<Output = T> + Sub<Output = T> + Copy
        requires
            T::obeys_mul_spec(),
            T::obeys_add_spec(),
            T::obeys_div_spec(),
            T::obeys_sub_spec(),
            Self::project_req(vector, plane_normal),
            vector.sub_req(Self::project_spec(vector, plane_normal)),
        ensures
            r == vector.sub_spec(Self::project_spec(vector, plane_normal)),
    {
        vector - Self::project(vector, plane_normal)
    }

    /// The point reached from `current` by a step of length
    /// `max_distance_delta` along the way to `target`, where `magnitude` is the
    /// length of that way: `current + (target - current) / magnitude *
    /// max_distance_delta`.
    pub open spec fn step_towards_spec(
        current: Self,
        target: Self,
        max_distance_delta: T,
        magnitude: T,
    ) -> Self
        where T: Sub<Output = T> + Mul<Output = T> + Div<Output = T> + Add<Output = T> + Copy
    {
        current.add_spec(target.sub_spec(current).div_spec(magnitude).mul_spec(max_distance_delta))
    }

    /// Whether each step of `step_towards` is defined.
    pub open spec fn step_towards_req(
        current: Self,
        target: Self,
        max_distance_delta: T,
        magnitude: T,
    ) -> bool
        where T: Sub<Output = T> + Mul<Output = T> + Div<Output = T> + Add<Output = T> + Copy
    {
        &&& target.sub_req(current)
        &&& target.sub_spec(current).div_req(magnitude)
        &&& target.sub_spec(current).div_spec(magnitude).mul_req(max_distance_delta)
        &&& current.add_req(
            target.sub_spec(current).div_spec(magnitude).mul_spec(max_distance_delta)
        )
    }

    /// The point reached from `current` by a step of length
    /// `max_distance_delta` along the way to `target`, where `magnitude` is the
    /// length of that way: `current + (target - current) / magnitude *
    /// max_distance_delta`.
    pub fn step_towards(
        current: Self,
        target: Self,
        max_distance_delta: T,
        magnitude: T,
    ) -> (r: Self)
        where T: Sub<Output = T> + Mul<Output = T> + Div<Output = T> + Add<Output = T> + Copy
        requires
            T::obeys_sub_spec(),
            T::obeys_div_spec(),
            T::obeys_mul_spec(),
            T::obeys_add_spec(),
            Self::step_towards_req(current, target, max_distance_delta, magnitude),
        ensures
            r == Self::step_towards_spec(current, target, max_distance_delta, magnitude),
    {
        current + (target - current) / magnitude * max_distance_delta
    }

    /// `target` where it lies within `max_distance_delta` of `current`; else a
    /// step of that length towards it, taken with the `magnitude` of the way.
    pub fn move_towards(current: Self, target: Self, max_distance_delta: T) -> (r: Self)
        where
            T: Float + Sub<Output = T> + Mul<Output = T> + Div<Output = T> + Add<Output = T>
                + PartialOrd + Copy,
        requires
            T::obeys_sub_spec(),
            T::obeys_div_spec(),
            T::obeys_mul_spec(),
            T::obeys_add_spec(),
            Self::sqr_distance_req(target, current),
            max_distance_delta.mul_req(max_distance_delta),
            forall|magnitude: T| #[trigger]
                sqrt_of(Self::sqr_distance_spec(target, current), magnitude)
                    ==> Self::step_towards_req(current, target, max_distance_delta, magnitude),
        ensures
            T::obeys_partial_cmp_spec() ==> (if Self::sqr_distance_spec(target, current).is_gt(
                &max_distance_delta.mul_spec(max_distance_delta),
            ) {
                exists|magnitude: T| #[trigger]
                    sqrt_of(Self::sqr_distance_spec(target, current), magnitude) && r
                        == Self::step_towards_spec(current, target, max_distance_delta, magnitude)
            } else {
                r == target
            }),
    {
        let sqr_magnitude = Self::sqr_distance(target, current);
        if sqr_magnitude > max_distance_delta * max_distance_delta {
            let magnitude = float_sqrt(sqr_magnitude);
            Self::step_towards(current, target, max_distance_delta, magnitude)
        } else {
            target
        }
    }

    /// Every component is the positive infinity of `T`.
    pub fn positive_infinity() -> (r: Self)
        where T: Float
        ensures
            is_infinity(r.x),
            is_infinity(r.y),
            is_infinity(r.z),
    {
        Self { x: float_infinity(), y: float_infinity(), z: float_infinity() }
    }

    /// Every component is the negative infinity of `T`.
    pub fn negative_infinity() -> (r: Self)
        where T: Float
        ensures
            is_neg_infinity(r.x),
            is_neg_infinity(r.y),
            is_neg_infinity(r.z),
    {
        Self { x: float_neg_infinity(), y: float_neg_infinity(), z: float_neg_infinity() }
    }

    /// Replaces the vector by its sum with `rhs`.
    pub fn add_assign(&mut self, rhs: Self)
        where T: Add<Output = T> + Copy
        requires
            old(self).add_req(rhs),
        ensures
            T::obeys_add_spec() ==> *final(self) == old(self).add_spec(rhs),
    {
        self.x = self.x + rhs.x;
        self.y = self.y + rhs.y;
        self.z = self.z + rhs.z;
    }

    /// Replaces the vector by its difference with `rhs`.
    pub fn sub_assign(&mut self, rhs: Self)
        where T: Sub<Output = T> + Copy
        requires
            old(self).sub_req(rhs),
        ensures
            T::obeys_sub_spec() ==> *final(self) == old(self).sub_spec(rhs),
    {
        self.x = self.x - rhs.x;
        self.y = self.y - rhs.y;
        self.z = self.z - rhs.z;
    }

    /// Replaces every component by its product with `rhs`.
    pub fn mul_assign(&mut self, rhs: T)
        where T: Mul<Output = T> + Copy
        requires
            old(self).mul_req(rhs),
        ensures
            T::obeys_mul_spec() ==> *final(self) == old(self).mul_spec(rhs),
    {
        self.x = self.x * rhs;
        self.y = self.y * rhs;
        self.z = self.z * rhs;
    }

    /// Replaces every component by its quotient with `rhs`.
    pub fn div_assign(&mut self, rhs: T)
        where T: Div<Output = T> + Copy
        requires
            old(self).div_req(rhs),
        ensures
            T::obeys_div_spec() ==> *final(self) == old(self).div_spec(rhs),
    {
        self.x = self.x / rhs;
        self.y = self.y / rhs;
        self.z = self.z / rhs;
    }

    /// Replaces every component by its product with the like component of `rhs`.
    pub fn mul_assign_componentwise(&mut self, rhs: Self)
        where T: Mul<Output = T> + Copy
        requires
            old(self).mul_req(rhs),
        ensures
            T::obeys_mul_spec() ==> *final(self) == old(self).mul_spec(rhs),
    {
        self.x = self.x * rhs.x;
        self.y = self.y * rhs.y;
        self.z = self.z * rhs.z;
    }

    /// Replaces every component by its quotient with the like component of `rhs`.
    pub fn div_assign_componentwise(&mut self, rhs: Self)
        where T: Div<Output = T> + Copy
        requires
            old(self).div_req(rhs),
        ensures
            T::obeys_div_spec() ==> *final(self) == old(self).div_spec(rhs),
    {
        self.x = self.x / rhs.x;
        self.y = self.y / rhs.y;
        self.z = self.z / rhs.z;
    }

    /// The first 3 of `items` in order; a component for which `items` holds
    /// no item is a default value of `T`.
    pub fn from_iter(items: Vec<T>) -> (r: Self)
        where T: Copy + Default
        ensures
            items.len() > 0 ==> r.x == items@[0],
            items.len() <= 0 ==> call_ensures(T::default, (), r.x),
            items.len() > 1 ==> r.y == items@[1],
            items.len() <= 1 ==> call_ensures(T::default, (), r.y),
            items.len() > 2 ==> r.z == items@[2],
            items.len() <= 2 ==> call_ensures(T::default, (), r.z),
    {
        let x = if items.len() > 0 {
            items[0]
        } else {
            T::default()
        };
        let y = if items.len() > 1 {
            items[1]
        } else {
            T::default()
        };
        let z = if items.len() > 2 {
            items[2]
        } else {
            T::default()
        };
        Self { x, y, z }
    }

    /// The components in order.
    pub fn to_vec(self) -> (r: Vec<T>)
        ensures
            r@ == seq![self.x, self.y, self.z],
    {
        let mut items = Vec::new();
        items.push(self.x);
        items.push(self.y);
        items.push(self.z);
        items
    }
}

impl<T> vstd::std_specs::core::IndexSpecImpl<usize> for Vector3<T> {
    open spec fn index_req(&self, index: &usize) -> bool {
        *index < 3
    }
}

/// The component at `index`. An index past the last component halts the
/// program.
impl<T> Index<usize> for Vector3<T> {
    type Output = T;

    fn index(&self, index: usize) -> (r: &T)
        ensures
            index == 0 ==> *r == self.x,
            index == 1 ==> *r == self.y,
            index == 2 ==> *r == self.z,
    {
        if index == 0 {
            &self.x
        } else if index == 1 {
            &self.y
        } else if index == 2 {
            &self.z
        } else {
            vstd::pervasive::unreached()
        }
    }
}

impl<T> vstd::std_specs::ops::NegSpecImpl for Vector3<T> where T: Neg<Output = T> {
    open spec fn obeys_neg_spec() -> bool {
        T::obeys_neg_spec()
    }

    open spec fn neg_req(self) -> bool {
        self.x.neg_req() && self.y.neg_req() && self.z.neg_req()
    }

    open spec fn neg_spec(self) -> Vector3<T> {
        Vector3 { x: self.x.neg_spec(), y: self.y.neg_spec(), z: self.z.neg_spec() }
    }
}

impl<T> Neg for Vector3<T> where T: Neg<Output = T> {
    type Output = Self;

    fn neg(self) -> Self {
        Self { x: self.x.neg(), y: self.y.neg(), z: self.z.neg() }
    }
}

impl<T> vstd::std_specs::ops::AddSpecImpl<Vector3<T>> for Vector3<T> where T: Add<Output = T> {
    open spec fn obeys_add_spec() -> bool {
        T::obeys_add_spec()
    }

    open spec fn add_req(self, rhs: Vector3<T>) -> bool {
        self.x.add_req(rhs.x) && self.y.add_req(rhs.y) && self.z.add_req(rhs.z)
    }

    open spec fn add_spec(self, rhs: Vector3<T>) -> Vector3<T> {
        Vector3 { x: self.x.add_spec(rhs.x), y: self.y.add_spec(rhs.y), z: self.z.add_spec(rhs.z) }
    }
}

impl<T> Add<Vector3<T>> for Vector3<T> where T: Add<Output = T> {
    type Output = Self;

    fn add(self, rhs: Vector3<T>) -> Self {
        Self { x: self.x + rhs.x, y: self.y + rhs.y, z: self.z + rhs.z }
    }
}

impl<'a, T> vstd::std_specs::ops::AddSpecImpl<&'a Vector3<T>> for Vector3<T> where
    T: Add<Output = T> + Copy,
{
    open spec fn obeys_add_spec() -> bool {
        T::obeys_add_spec()
    }

    open spec fn add_req(self, rhs: &'a Vector3<T>) -> bool {
        self.x.add_req(rhs.x) && self.y.add_req(rhs.y) && self.z.add_req(rhs.z)
    }

    open spec fn add_spec(self, rhs: &'a Vector3<T>) -> Vector3<T> {
        Vector3 { x: self.x.add_spec(rhs.x), y: self.y.add_spec(rhs.y), z: self.z.add_spec(rhs.z) }
    }
}

impl<'a, T> Add<&'a Vector3<T>> for Vector3<T> where
    T: Add<Output = T> + Copy,
{
    type Output = Self;

    fn add(self, rhs: &'a Vector3<T>) -> Self {
        Self { x: self.x + rhs.x, y: self.y + rhs.y, z: self.z + rhs.z }
    }
}

impl<T> vstd::std_specs::ops::SubSpecImpl<Vector3<T>> for Vector3<T> where T: Sub<Output = T> {
    open spec fn obeys_sub_spec() -> bool {
        T::obeys_sub_spec()
    }

    open spec fn sub_req(self, rhs: Vector3<T>) -> bool {
        self.x.sub_req(rhs.x) && self.y.sub_req(rhs.y) && self.z.sub_req(rhs.z)
    }

    open spec fn sub_spec(self, rhs: Vector3<T>) -> Vector3<T> {
        Vector3 { x: self.x.sub_spec(rhs.x), y: self.y.sub_spec(rhs.y), z: self.z.sub_spec(rhs.z) }
    }
}

impl<T> Sub<Vector3<T>> for Vector3<T> where T: Sub<Output = T> {
    type Output = Self;

    fn sub(self, rhs: Vector3<T>) -> Self {
        Self { x: self.x - rhs.x, y: self.y - rhs.y, z: self.z - rhs.z }
    }
}

impl<'a, T> vstd::std_specs::ops::SubSpecImpl<&'a Vector3<T>> for Vector3<T> where
    T: Sub<Output = T> + Copy,
{
    open spec fn obeys_sub_spec() -> bool {
        T::obeys_sub_spec()
    }

    open spec fn sub_req(self, rhs: &'a Vector3<T>) -> bool {
        self.x.sub_req(rhs.x) && self.y.sub_req(rhs.y) && self.z.sub_req(rhs.z)
    }

    open spec fn sub_spec(self, rhs: &'a Vector3<T>) -> Vector3<T> {
        Vector3 { x: self.x.sub_spec(rhs.x), y: self.y.sub_spec(rhs.y), z: self.z.sub_spec(rhs.z) }
    }
}

impl<'a, T> Sub<&'a Vector3<T>> for Vector3<T> where
    T: Sub<Output = T> + Copy,
{
    type Output = Self;

    fn sub(self, rhs: &'a Vector3<T>) -> Self {
        Self { x: self.x - rhs.x, y: self.y - rhs.y, z: self.z - rhs.z }
    }
}

impl<T> vstd::std_specs::ops::MulSpecImpl<T> for Vector3<T> where T: Mul<Output = T> + Copy {
    open spec fn obeys_mul_spec() -> bool {
        T::obeys_mul_spec()
    }

    open spec fn mul_req(self, rhs: T) -> bool {
        self.x.mul_req(rhs) && self.y.mul_req(rhs) && self.z.mul_req(rhs)
    }

    open spec fn mul_spec(self, rhs: T) -> Vector3<T> {
        Vector3 { x: self.x.mul_spec(rhs), y: self.y.mul_spec(rhs), z: self.z.mul_spec(rhs) }
    }
}

impl<T> Mul<T> for Vector3<T> where T: Mul<Output = T> + Copy {
    type Output = Self;

    fn mul(self, rhs: T) -> Self {
        Self { x: self.x * rhs, y: self.y * rhs, z: self.z * rhs }
    }
}

impl<'a, T> vstd::std_specs::ops::MulSpecImpl<&'a T> for Vector3<T> where
    T: Mul<Output = T> + Copy,
{
    open spec fn obeys_mul_spec() -> bool {
        T::obeys_mul_spec()
    }

    open spec fn mul_req(self, rhs: &'a T) -> bool {
        self.x.mul_req(*rhs) && self.y.mul_req(*rhs) && self.z.mul_req(*rhs)
    }

    open spec fn mul_spec(self, rhs: &'a T) -> Vector3<T> {
        Vector3 { x: self.x.mul_spec(*rhs), y: self.y.mul_spec(*rhs), z: self.z.mul_spec(*rhs) }
    }
}

impl<'a, T> Mul<&'a T> for Vector3<T> where
    T: Mul<Output = T> + Copy,
{
    type Output = Self;

    fn mul(self, rhs: &'a T) -> Self {
        Self { x: self.x * *rhs, y: self.y * *rhs, z: self.z * *rhs }
    }
}

impl<T> vstd::std_specs::ops::MulSpecImpl<Vector3<T>> for Vector3<T> where T: Mul<Output = T> {
    open spec fn obeys_mul_spec() -> bool {
        T::obeys_mul_spec()
    }

    open spec fn mul_req(self, rhs: Vector3<T>) -> bool {
        self.x.mul_req(rhs.x) && self.y.mul_req(rhs.y) && self.z.mul_req(rhs.z)
    }

    open spec fn mul_spec(self, rhs: Vector3<T>) -> Vector3<T> {
        Vector3 { x: self.x.mul_spec(rhs.x), y: self.y.mul_spec(rhs.y), z: self.z.mul_spec(rhs.z) }
    }
}

impl<T> Mul<Vector3<T>> for Vector3<T> where T: Mul<Output = T> {
    type Output = Self;

    fn mul(self, rhs: Vector3<T>) -> Self {
        Self { x: self.x * rhs.x, y: self.y * rhs.y, z: self.z * rhs.z }
    }
}

impl<'a, T> vstd::std_specs::ops::MulSpecImpl<&'a Vector3<T>> for Vector3<T> where
    T: Mul<Output = T> + Copy,
{
    open spec fn obeys_mul_spec() -> bool {
        T::obeys_mul_spec()
    }

    open spec fn mul_req(self, rhs: &'a Vector3<T>) -> bool {
        self.x.mul_req(rhs.x) && self.y.mul_req(rhs.y) && self.z.mul_req(rhs.z)
    }

    open spec fn mul_spec(self, rhs: &'a Vector3<T>) -> Vector3<T> {
        Vector3 { x: self.x.mul_spec(rhs.x), y: self.y.mul_spec(rhs.y), z: self.z.mul_spec(rhs.z) }
    }
}

impl<'a, T> Mul<&'a Vector3<T>> for Vector3<T> where
    T: Mul<Output = T> + Copy,
{
    type Output = Self;

    fn mul(self, rhs: &'a Vector3<T>) -> Self {
        Self { x: self.x * rhs.x, y: self.y * rhs.y, z: self.z * rhs.z }
    }
}

impl<T> vstd::std_specs::ops::DivSpecImpl<T> for Vector3<T> where T: Div<Output = T> + Copy {
    open spec fn obeys_div_spec() -> bool {
        T::obeys_div_spec()
    }

    open spec fn div_req(self, rhs: T) -> bool {
        self.x.div_req(rhs) && self.y.div_req(rhs) && self.z.div_req(rhs)
    }

    open spec fn div_spec(self, rhs: T) -> Vector3<T> {
        Vector3 { x: self.x.div_spec(rhs), y: self.y.div_spec(rhs), z: self.z.div_spec(rhs) }
    }
}

impl<T> Div<T> for Vector3<T> where T: Div<Output = T> + Copy {
    type Output = Self;

    fn div(self, rhs: T) -> Self {
        Self { x: self.x / rhs, y: self.y / rhs, z: self.z / rhs }
    }
}

impl<'a, T> vstd::std_specs::ops::DivSpecImpl<&'a T> for Vector3<T> where
    T: Div<Output = T> + Copy,
{
    open spec fn obeys_div_spec() -> bool {
        T::obeys_div_spec()
    }

    open spec fn div_req(self, rhs: &'a T) -> bool {
        self.x.div_req(*rhs) && self.y.div_req(*rhs) && self.z.div_req(*rhs)
    }

    open spec fn div_spec(self, rhs: &'a T) -> Vector3<T> {
        Vector3 { x: self.x.div_spec(*rhs), y: self.y.div_spec(*rhs), z: self.z.div_spec(*rhs) }
    }
}

impl<'a, T> Div<&'a T> for Vector3<T> where
    T: Div<Output = T> + Copy,
{
    type Output = Self;

    fn div(self, rhs: &'a T) -> Self {
        Self { x: self.x / *rhs, y: self.y / *rhs, z: self.z / *rhs }
    }
}

impl<T> vstd::std_specs::ops::DivSpecImpl<Vector3<T>> for Vector3<T> where T: Div<Output = T> {
    open spec fn obeys_div_spec() -> bool {
        T::obeys_div_spec()
    }

    open spec fn div_req(self, rhs: Vector3<T>) -> bool {
        self.x.div_req(rhs.x) && self.y.div_req(rhs.y) && self.z.div_req(rhs.z)
    }

    open spec fn div_spec(self, rhs: Vector3<T>) -> Vector3<T> {
        Vector3 { x: self.x.div_spec(rhs.x), y: self.y.div_spec(rhs.y), z: self.z.div_spec(rhs.z) }
    }
}

impl<T> Div<Vector3<T>> for Vector3<T> where T: Div<Output = T> {
    type Output = Self;

    fn div(self, rhs: Vector3<T>) -> Self {
        Self { x: self.x / rhs.x, y: self.y / rhs.y, z: self.z / rhs.z }
    }
}

impl<'a, T> vstd::std_specs::ops::DivSpecImpl<&'a Vector3<T>> for Vector3<T> where
    T: Div<Output = T> + Copy,
{
    open spec fn obeys_div_spec() -> bool {
        T::obeys_div_spec()
    }

    open spec fn div_req(self, rhs: &'a Vector3<T>) -> bool {
        self.x.div_req(rhs.x) && self.y.div_req(rhs.y) && self.z.div_req(rhs.z)
    }

    open spec fn div_spec(self, rhs: &'a Vector3<T>) -> Vector3<T> {
        Vector3 { x: self.x.div_spec(rhs.x), y: self.y.div_spec(rhs.y), z: self.z.div_spec(rhs.z) }
    }
}

impl<'a, T> Div<&'a Vector3<T>> for Vector3<T> where
    T: Div<Output = T> + Copy,
{
    type Output = Self;

    fn div(self, rhs: &'a Vector3<T>) -> Self {
        Self { x: self.x / rhs.x, y: self.y / rhs.y, z: self.z / rhs.z }
    }
}

impl<T> vstd::std_specs::convert::FromSpecImpl<(T, T, T)> for Vector3<T> {
    open spec fn obeys_from_spec() -> bool {
        true
    }

    open spec fn from_spec(tuple: (T, T, T)) -> Vector3<T> {
        Vector3 { x: tuple.0, y: tuple.1, z: tuple.2 }
    }
}

impl<T> From<(T, T, T)> for Vector3<T> {
    fn from(tuple: (T, T, T)) -> Self {
        Vector3 { x: tuple.0, y: tuple.1, z: tuple.2 }
    }
}

impl<T: Copy> vstd::std_specs::convert::FromSpecImpl<[T; 3]> for Vector3<T> {
    open spec fn obeys_from_spec() -> bool {
        true
    }

    open spec fn from_spec(array: [T; 3]) -> Vector3<T> {
        Vector3 { x: array[0], y: array[1], z: array[2] }
    }
}

impl<T: Copy> From<[T; 3]> for Vector3<T> {
    fn from(array: [T; 3]) -> Self {
        Vector3 { x: array[0], y: array[1], z: array[2] }
    }
}

impl<T: Copy> vstd::std_specs::convert::FromSpecImpl<[[T; 1]; 3]> for Vector3<T> {
    open spec fn obeys_from_spec() -> bool {
        true
    }

    open spec fn from_spec(array: [[T; 1]; 3]) -> Vector3<T> {
        Vector3 { x: array[0][0], y: array[1][0], z: array[2][0] }
    }
}

impl<T: Copy> From<[[T; 1]; 3]> for Vector3<T> {
    fn from(array: [[T; 1]; 3]) -> Self {
        Vector3 { x: array[0][0], y: array[1][0], z: array[2][0] }
    }
}

impl<T> vstd::std_specs::convert::FromSpecImpl<Vector3<T>> for (T, T, T) {
    open spec fn obeys_from_spec() -> bool {
        true
    }

    open spec fn from_spec(vector: Vector3<T>) -> (T, T, T) {
        (vector.x, vector.y, vector.z)
    }
}

impl<T> From<Vector3<T>> for (T, T, T) {
    fn from(vector: Vector3<T>) -> Self {
        (vector.x, vector.y, vector.z)
    }
}

impl<T: Copy> vstd::std_specs::convert::FromSpecImpl<Vector3<T>> for [T; 3] {
    open spec fn obeys_from_spec() -> bool {
        true
    }

    open spec fn from_spec(vector: Vector3<T>) -> [T; 3] {
        [vector.x, vector.y, vector.z]
    }
}

impl<T: Copy> From<Vector3<T>> for [T; 3] {
    fn from(vector: Vector3<T>) -> Self {
        [vector.x, vector.y, vector.z]
    }
}

impl<T: Copy> vstd::std_specs::convert::FromSpecImpl<Vector3<T>> for [[T; 1]; 3] {
    open spec fn obeys_from_spec() -> bool {
        true
    }

    open spec fn from_spec(vector: Vector3<T>) -> [[T; 1]; 3] {
        [[vector.x], [vector.y], [vector.z]]
    }
}

impl<T: Copy> From<Vector3<T>> for [[T; 1]; 3] {
    fn from(vector: Vector3<T>) -> Self {
        [[vector.x], [vector.y], [vector.z]]
    }
}

/// Each component past `y` is a default value of `T`. A default value need
/// not be the same at every call, so the conversion has no `from_spec`
/// that it obeys.
impl<T> vstd::std_specs::convert::FromSpecImpl<Vector2<T>> for Vector3<T> where T: Default {
    open spec fn obeys_from_spec() -> bool {
        false
    }

    open spec fn from_spec(vector: Vector2<T>) -> Vector3<T> {
        Vector3 { x: vector.x, y: vector.y, z: choose|v: T| call_ensures(T::default, (), v) }
    }
}

impl<T> From<Vector2<T>> for Vector3<T> where T: Default {
    fn from(vector: Vector2<T>) -> (r: Self)
        ensures
            r.x == vector.x,
            r.y == vector.y,
            call_ensures(T::default, (), r.z),
    {
        Self { x: vector.x, y: vector.y, z: T::default() }
    }
}

/// Drops the components past `z`.
impl<T> vstd::std_specs::convert::FromSpecImpl<Vector4<T>> for Vector3<T> {
    open spec fn obeys_from_spec() -> bool {
        true
    }

    open spec fn from_spec(vector: Vector4<T>) -> Vector3<T> {
        Vector3 { x: vector.x, y: vector.y, z: vector.z }
    }
}

impl<T> From<Vector4<T>> for Vector3<T> {
    fn from(vector: Vector4<T>) -> Self {
        Vector3 { x: vector.x, y: vector.y, z: vector.z }
    }
}

} // verus!
