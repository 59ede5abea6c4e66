//! Axis-aligned boxes in three dimensions, held as two corners.

use vstd::prelude::*;
use vstd::std_specs::ops::{AddSpec, DivSpec, SubSpec};
use vstd::std_specs::convert::FromSpec;
use vstd::std_specs::cmp::{PartialOrdSpec, PartialOrdIs};
use core::ops::{Add, Div, Sub};
use crate::numeric::{half_excess_req, half_excess_spec, intervals_overlap};
use crate::vectors::Vector3;
use super::cube::Cube;
use super::bounds3d::Bounds3D;
use super::area4d::Area4D;
use super::bounds4d::Bounds4D;

verus! {

/// An axis-aligned box held as its corner of least and its corner of greatest
/// coordinates. Nothing orders the two: a size may have any sign.
#[derive(Debug, Clone, Copy, PartialEq, Default)]
pub struct Area3D<T> {
    pub lower_left: Vector3<T>,
    pub upper_right: Vector3<T>,
}

impl<T> Area3D<T> {
    /// The box between the two given corners.
    pub fn new(
        lower_left_x: T,
        lower_left_y: T,
        lower_left_z: T,
        upper_right_x: T,
        upper_right_y: T,
        upper_right_z: T,
    ) -> (r: Self)
        ensures
            r == (Area3D {
                lower_left: Vector3 { x: lower_left_x, y: lower_left_y, z: lower_left_z },
                upper_right: Vector3 { x: upper_right_x, y: upper_right_y, z: upper_right_z },
            }),
    {
        Self::new_vectors(
            Vector3::new(lower_left_x, lower_left_y, lower_left_z),
            Vector3::new(upper_right_x, upper_right_y, upper_right_z),
        )
    }

    /// The box between the corners `lower_left` and `upper_right`.
    pub fn new_vectors(lower_left: Vector3<T>, upper_right: Vector3<T>) -> (r: Self)
        ensures
            r == (Area3D { lower_left, upper_right }),
    {
        Area3D { lower_left, upper_right }
    }

    /// Replaces both corners.
    pub fn set(
        &mut self,
        lower_left_x: T,
        lower_left_y: T,
        lower_left_z: T,
        upper_right_x: T,
        upper_right_y: T,
        upper_right_z: T,
    )
        ensures
            *final(self) == (Area3D {
                lower_left: Vector3 { x: lower_left_x, y: lower_left_y, z: lower_left_z },
                upper_right: Vector3 { x: upper_right_x, y: upper_right_y, z: upper_right_z },
            }),
    {
        self.lower_left.x = lower_left_x;
        self.lower_left.y = lower_left_y;
        self.lower_left.z = lower_left_z;
        self.upper_right.x = upper_right_x;
        self.upper_right.y = upper_right_y;
        self.upper_right.z = upper_right_z;
    }

    /// Replaces the corners by `lower_left` and `upper_right`.
    pub fn set_vectors(&mut self, lower_left: Vector3<T>, upper_right: Vector3<T>)
        ensures
            *final(self) == (Area3D { lower_left, upper_right }),
    {
        self.lower_left = lower_left;
        self.upper_right = upper_right;
    }

    /// The least `x` of the box.
    pub open spec fn x_min_spec(self) -> T
        where T: Copy
    {
        self.lower_left.x
    }

    /// The greatest `x` of the box.
    pub open spec fn x_max_spec(self) -> T
        where T: Copy
    {
        self.upper_right.x
    }

    /// The least `y` of the box.
    pub open spec fn y_min_spec(self) -> T
        where T: Copy
    {
        self.lower_left.y
    }

    /// The greatest `y` of the box.
    pub open spec fn y_max_spec(self) -> T
        where T: Copy
    {
        self.upper_right.y
    }

    /// The least `z` of the box.
    pub open spec fn z_min_spec(self) -> T
        where T: Copy
    {
        self.lower_left.z
    }

    /// The greatest `z` of the box.
    pub open spec fn z_max_spec(self) -> T
        where T: Copy
    {
        self.upper_right.z
    }

    /// The least `x` of the box.
    pub fn get_x_min(&self) -> (r: T)
        where T: Copy
        ensures
            r == self.x_min_spec(),
    {
        self.lower_left.x
    }

    /// Puts the least corner at `x_min` along `x`; the other corner stays.
    pub fn set_x_min(&mut self, x_min: T)
        where T: Copy
        ensures
            final(self).lower_left.x == x_min,
            final(self).lower_left.y == old(self).lower_left.y,
            final(self).lower_left.z == old(self).lower_left.z,
            final(self).upper_right == old(self).upper_right,
    {
        self.lower_left.x = x_min;
    }

    /// The greatest `x` of the box.
    pub fn get_x_max(&self) -> (r: T)
        where T: Copy
        ensures
            r == self.x_max_spec(),
    {
        self.upper_right.x
    }

    /// Puts the greatest corner at `x_max` along `x`; the other corner stays.
    pub fn set_x_max(&mut self, x_max: T)
        where T: Copy
        ensures
            final(self).lower_left == old(self).lower_left,
            final(self).upper_right.x == x_max,
            final(self).upper_right.y == old(self).upper_right.y,
            final(self).upper_right.z == old(self).upper_right.z,
    {
        self.upper_right.x = x_max;
    }

    /// The least `y` of the box.
    pub fn get_y_min(&self) -> (r: T)
        where T: Copy
        ensures
            r == self.y_min_spec(),
    {
        self.lower_left.y
    }

    /// Puts the least corner at `y_min` along `y`; the other corner stays.
    pub fn set_y_min(&mut self, y_min: T)
        where T: Copy
        ensures
            final(self).lower_left.x == old(self).lower_left.x,
            final(self).lower_left.y == y_min,
            final(self).lower_left.z == old(self).lower_left.z,
            final(self).upper_right == old(self).upper_right,
    {
        self.lower_left.y = y_min;
    }

    /// The greatest `y` of the box.
    pub fn get_y_max(&self) -> (r: T)
        where T: Copy
        ensures
            r == self.y_max_spec(),
    {
        self.upper_right.y
    }

    /// Puts the greatest corner at `y_max` along `y`; the other corner stays.
    pub fn set_y_max(&mut self, y_max: T)
        where T: Copy
        ensures
            final(self).lower_left == old(self).lower_left,
            final(self).upper_right.x == old(self).upper_right.x,
            final(self).upper_right.y == y_max,
            final(self).upper_right.z == old(self).upper_right.z,
    {
        self.upper_right.y = y_max;
    }

    /// The least `z` of the box.
    pub fn get_z_min(&self) -> (r: T)
        where T: Copy
        ensures
            r == self.z_min_spec(),
    {
        self.lower_left.z
    }

    /// Puts the least corner at `z_min` along `z`; the other corner stays.
    pub fn set_z_min(&mut self, z_min: T)
        where T: Copy
        ensures
            final(self).lower_left.x == old(self).lower_left.x,
            final(self).lower_left.y == old(self).lower_left.y,
            final(self).lower_left.z == z_min,
            final(self).upper_right == old(self).upper_right,
    {
        self.lower_left.z = z_min;
    }

    /// The greatest `z` of the box.
    pub fn get_z_max(&self) -> (r: T)
        where T: Copy
        ensures
            r == self.z_max_spec(),
    {
        self.upper_right.z
    }

    /// Puts the greatest corner at `z_max` along `z`; the other corner stays.
    pub fn set_z_max(&mut self, z_max: T)
        where T: Copy
        ensures
            final(self).lower_left == old(self).lower_left,
            final(self).upper_right.x == old(self).upper_right.x,
            final(self).upper_right.y == old(self).upper_right.y,
            final(self).upper_right.z == z_max,
    {
        self.upper_right.z = z_max;
    }

    /// The size of the box along `x`: greatest less least coordinate.
    pub open spec fn width_spec(self) -> T
        where T: Sub<Output = T> + Copy
    {
        self.upper_right.x.sub_spec(self.lower_left.x)
    }

    /// The size of the box along `x`: greatest less least coordinate.
    pub fn get_width(&self) -> (r: T)
        where T: Sub<Output = T> + Copy
        requires
            self.upper_right.x.sub_req(self.lower_left.x),
        ensures
            T::obeys_sub_spec() ==> r == self.width_spec(),
    {
        self.upper_right.x - self.lower_left.x
    }

    /// The box that `set_width` leaves.
    pub open spec fn with_width_spec(self, width: T) -> Self
        where T: Add<Output = T> + Sub<Output = T> + Div<Output = T> + From<i8> + Copy
    {
        Area3D {
            lower_left: Vector3 {
                x: self.lower_left.x.add_spec(half_excess_spec(self.width_spec(), width)),
                y: self.lower_left.y,
                z: self.lower_left.z,
            },
            upper_right: Vector3 {
                x: self.upper_right.x.sub_spec(half_excess_spec(self.width_spec(), width)),
                y: self.upper_right.y,
                z: self.upper_right.z,
            },
        }
    }

    /// Whether each step of `set_width` is defined.
    pub open spec fn with_width_req(self, width: T) -> bool
        where T: Add<Output = T> + Sub<Output = T> + Div<Output = T> + From<i8> + Copy
    {
        &&& self.upper_right.x.sub_req(self.lower_left.x)
        &&& half_excess_req(self.width_spec(), width)
        &&& self.lower_left.x.add_req(half_excess_spec(self.width_spec(), width))
        &&& self.upper_right.x.sub_req(half_excess_spec(self.width_spec(), width))
    }

    /// Gives the box the size `width` along `x` about its center: half of what
    /// the size has too much is added to the least coordinate and taken from
    /// the greatest.
    pub fn set_width(&mut self, width: T)
        where T: Add<Output = T> + Sub<Output = T> + Div<Output = T> + From<i8> + Copy
        requires
            T::obeys_sub_spec(),
            T::obeys_div_spec(),
            T::obeys_from_spec(),
            old(self).with_width_req(width),
        ensures
            T::obeys_add_spec() ==> *final(self) == old(self).with_width_spec(width),
            final(self).lower_left.y == old(self).lower_left.y,
            final(self).lower_left.z == old(self).lower_left.z,
            final(self).upper_right.x ==
                old(self).upper_right.x.sub_spec(half_excess_spec(old(self).width_spec(), width)),
            final(self).upper_right.y == old(self).upper_right.y,
            final(self).upper_right.z == old(self).upper_right.z,
    {
        let two = T::from(2i8);
        let half_delta = (self.upper_right.x - self.lower_left.x - width) / two;
        self.lower_left.x = self.lower_left.x + half_delta;
        self.upper_right.x = self.upper_right.x - half_delta;
    }

    /// The size of the box along `y`: greatest less least coordinate.
    pub open spec fn height_spec(self) -> T
        where T: Sub<Output = T> + Copy
    {
        self.upper_right.y.sub_spec(self.lower_left.y)
    }

    /// The size of the box along `y`: greatest less least coordinate.
    pub fn get_height(&self) -> (r: T)
        where T: Sub<Output = T> + Copy
        requires
            self.upper_right.y.sub_req(self.lower_left.y),
        ensures
            T::obeys_sub_spec() ==> r == self.height_spec(),
    {
        self.upper_right.y - self.lower_left.y
    }

    /// The box that `set_height` leaves.
    pub open spec fn with_height_spec(self, height: T) -> Self
        where T: Add<Output = T> + Sub<Output = T> + Div<Output = T> + From<i8> + Copy
    {
        Area3D {
            lower_left: Vector3 {
                x: self.lower_left.x,
                y: self.lower_left.y.add_spec(half_excess_spec(self.height_spec(), height)),
                z: self.lower_left.z,
            },
            upper_right: Vector3 {
                x: self.upper_right.x,
                y: self.upper_right.y.sub_spec(half_excess_spec(self.height_spec(), height)),
                z: self.upper_right.z,
            },
        }
    }

    /// Whether each step of `set_height` is defined.
    pub open spec fn with_height_req(self, height: T) -> bool
        where T: Add<Output = T> + Sub<Output = T> + Div<Output = T> + From<i8> + Copy
    {
        &&& self.upper_right.y.sub_req(self.lower_left.y)
        &&& half_excess_req(self.height_spec(), height)
        &&& self.lower_left.y.add_req(half_excess_spec(self.height_spec(), height))
        &&& self.upper_right.y.sub_req(half_excess_spec(self.height_spec(), height))
    }

    /// Gives the box the size `height` along `y` about its center: half of what
    /// the size has too much is added to the least coordinate and taken from
    /// the greatest.
    pub fn set_height(&mut self, height: T)
        where T: Add<Output = T> + Sub<Output = T> + Div<Output = T> + From<i8> + Copy
        requires
            T::obeys_sub_spec(),
            T::obeys_div_spec(),
            T::obeys_from_spec(),
            old(self).with_height_req(height),
        ensures
            T::obeys_add_spec() ==> *final(self) == old(self).with_height_spec(height),
            final(self).lower_left.x == old(self).lower_left.x,
            final(self).lower_left.z == old(self).lower_left.z,
            final(self).upper_right.x == old(self).upper_right.x,
            final(self).upper_right.y ==
                old(self).upper_right.y.sub_spec(half_excess_spec(old(self).height_spec(), height)),
            final(self).upper_right.z == old(self).upper_right.z,
    {
        let two = T::from(2i8);
        let half_delta = (self.upper_right.y - self.lower_left.y - height) / two;
        self.lower_left.y = self.lower_left.y + half_delta;
        self.upper_right.y = self.upper_right.y - half_delta;
    }

    /// The size of the box along `z`: greatest less least coordinate.
    pub open spec fn depth_spec(self) -> T
        where T: Sub<Output = T> + Copy
    {
        self.upper_right.z.sub_spec(self.lower_left.z)
    }

    /// The size of the box along `z`: greatest less least coordinate.
    pub fn get_depth(&self) -> (r: T)
        where T: Sub<Output = T> + Copy
        requires
            self.upper_right.z.sub_req(self.lower_left.z),
        ensures
            T::obeys_sub_spec() ==> r == self.depth_spec(),
    {
        self.upper_right.z - self.lower_left.z
    }

    /// The box that `set_depth` leaves.
    pub open spec fn with_depth_spec(self, depth: T) -> Self
        where T: Add<Output = T> + Sub<Output = T> + Div<Output = T> + From<i8> + Copy
    {
        Area3D {
            lower_left: Vector3 {
                x: self.lower_left.x,
                y: self.lower_left.y,
                z: self.lower_left.z.add_spec(half_excess_spec(self.depth_spec(), depth)),
            },
            upper_right: Vector3 {
                x: self.upper_right.x,
                y: self.upper_right.y,
                z: self.upper_right.z.sub_spec(half_excess_spec(self.depth_spec(), depth)),
            },
        }
    }

    /// Whether each step of `set_depth` is defined.
    pub open spec fn with_depth_req(self, depth: T) -> bool
        where T: Add<Output = T> + Sub<Output = T> + Div<Output = T> + From<i8> + Copy
    {
        &&& self.upper_right.z.sub_req(self.lower_left.z)
        &&& half_excess_req(self.depth_spec(), depth)
        &&& self.lower_left.z.add_req(half_excess_spec(self.depth_spec(), depth))
        &&& self.upper_right.z.sub_req(half_excess_spec(self.depth_spec(), depth))
    }

    /// Gives the box the size `depth` along `z` about its center: half of what
    /// the size has too much is added to the least coordinate and taken from
    /// the greatest.
    pub fn set_depth(&mut self, depth: T)
        where T: Add<Output = T> + Sub<Output = T> + Div<Output = T> + From<i8> + Copy
        requires
            T::obeys_sub_spec(),
            T::obeys_div_spec(),
            T::obeys_from_spec(),
            old(self).with_depth_req(depth),
        ensures
            T::obeys_add_spec() ==> *final(self) == old(self).with_depth_spec(depth),
            final(self).lower_left.x == old(self).lower_left.x,
            final(self).lower_left.y == old(self).lower_left.y,
            final(self).upper_right.x == old(self).upper_right.x,
            final(self).upper_right.y == old(self).upper_right.y,
            final(self).upper_right.z ==
                old(self).upper_right.z.sub_spec(half_excess_spec(old(self).depth_spec(), depth)),
    {
        let two = T::from(2i8);
        let half_delta = (self.upper_right.z - self.lower_left.z - depth) / two;
        self.lower_left.z = self.lower_left.z + half_delta;
        self.upper_right.z = self.upper_right.z - half_delta;
    }

    /// The size of the box along every axis.
    pub open spec fn size_spec(self) -> Vector3<T>
        where T: Sub<Output = T> + Copy
    {
        Vector3 { x: self.width_spec(), y: self.height_spec(), z: self.depth_spec() }
    }

    /// Whether the size is defined along every axis.
    pub open spec fn size_req(self) -> bool
        where T: Sub<Output = T> + Copy
    {
        &&& self.upper_right.x.sub_req(self.lower_left.x)
        &&& self.upper_right.y.sub_req(self.lower_left.y)
        &&& self.upper_right.z.sub_req(self.lower_left.z)
    }

    /// The size of the box along every axis.
    pub fn get_size(&self) -> (r: Vector3<T>)
        where T: Sub<Output = T> + Copy
        requires
            self.size_req(),
        ensures
            T::obeys_sub_spec() ==> r == self.size_spec(),
    {
        Vector3::new(
            self.upper_right.x - self.lower_left.x,
            self.upper_right.y - self.lower_left.y,
            self.upper_right.z - self.lower_left.z,
        )
    }

    /// The box that `set_size` leaves.
    pub open spec fn with_size_spec(self, size: Vector3<T>) -> Self
        where T: Add<Output = T> + Sub<Output = T> + Div<Output = T> + From<i8> + Copy
    {
        Area3D {
            lower_left: Vector3 {
                x: self.lower_left.x.add_spec(half_excess_spec(self.width_spec(), size.x)),
                y: self.lower_left.y.add_spec(half_excess_spec(self.height_spec(), size.y)),
                z: self.lower_left.z.add_spec(half_excess_spec(self.depth_spec(), size.z)),
            },
            upper_right: Vector3 {
                x: self.upper_right.x.sub_spec(half_excess_spec(self.width_spec(), size.x)),
                y: self.upper_right.y.sub_spec(half_excess_spec(self.height_spec(), size.y)),
                z: self.upper_right.z.sub_spec(half_excess_spec(self.depth_spec(), size.z)),
            },
        }
    }

    /// Whether each step of `set_size` is defined.
    pub open spec fn with_size_req(self, size: Vector3<T>) -> bool
        where T: Add<Output = T> + Sub<Output = T> + Div<Output = T> + From<i8> + Copy
    {
        &&& self.upper_right.x.sub_req(self.lower_left.x)
        &&& half_excess_req(self.width_spec(), size.x)
        &&& self.lower_left.x.add_req(half_excess_spec(self.width_spec(), size.x))
        &&& self.upper_right.x.sub_req(half_excess_spec(self.width_spec(), size.x))
        &&& self.upper_right.y.sub_req(self.lower_left.y)
        &&& half_excess_req(self.height_spec(), size.y)
        &&& self.lower_left.y.add_req(half_excess_spec(self.height_spec(), size.y))
        &&& self.upper_right.y.sub_req(half_excess_spec(self.height_spec(), size.y))
        &&& self.upper_right.z.sub_req(self.lower_left.z)
        &&& half_excess_req(self.depth_spec(), size.z)
        &&& self.lower_left.z.add_req(half_excess_spec(self.depth_spec(), size.z))
        &&& self.upper_right.z.sub_req(half_excess_spec(self.depth_spec(), size.z))
    }

    /// Gives the box the size `size` about its center, along every axis as
    /// `set_width` does along `x`.
    pub fn set_size(&mut self, size: Vector3<T>)
        where T: Add<Output = T> + Sub<Output = T> + Div<Output = T> + From<i8> + Copy
        requires
            T::obeys_sub_spec(),
            T::obeys_div_spec(),
            T::obeys_from_spec(),
            old(self).with_size_req(size),
        ensures
            T::obeys_add_spec() ==> *final(self) == old(self).with_size_spec(size),
            final(self).upper_right.x ==
                old(self).upper_right.x.sub_spec(half_excess_spec(old(self).width_spec(), size.x)),
            final(self).upper_right.y ==
                old(self).upper_right.y.sub_spec(half_excess_spec(old(self).height_spec(), size.y)),
            final(self).upper_right.z ==
                old(self).upper_right.z.sub_spec(half_excess_spec(old(self).depth_spec(), size.z)),
    {
        let two = T::from(2i8);
        let half_delta_x = (self.upper_right.x - self.lower_left.x - size.x) / two;
        let half_delta_y = (self.upper_right.y - self.lower_left.y - size.y) / two;
        let half_delta_z = (self.upper_right.z - self.lower_left.z - size.z) / two;
        self.lower_left.x = self.lower_left.x + half_delta_x;
        self.upper_right.x = self.upper_right.x - half_delta_x;
        self.lower_left.y = self.lower_left.y + half_delta_y;
        self.upper_right.y = self.upper_right.y - half_delta_y;
        self.lower_left.z = self.lower_left.z + half_delta_z;
        self.upper_right.z = self.upper_right.z - half_delta_z;
    }

    /// The point halfway between the two corners: half the sum of their
    /// coordinates along every axis.
    pub open spec fn center_spec(self) -> Vector3<T>
        where T: Add<Output = T> + Div<Output = T> + From<i8> + Copy
    {
        Vector3 {
            x: self.lower_left.x.add_spec(self.upper_right.x).div_spec(T::from_spec(2i8)),
            y: self.lower_left.y.add_spec(self.upper_right.y).div_spec(T::from_spec(2i8)),
            z: self.lower_left.z.add_spec(self.upper_right.z).div_spec(T::from_spec(2i8)),
        }
    }

    /// Whether each step of `get_center` is defined.
    pub open spec fn center_req(self) -> bool
        where T: Add<Output = T> + Div<Output = T> + From<i8> + Copy
    {
        &&& self.lower_left.x.add_req(self.upper_right.x)
        &&& self.lower_left.x.add_spec(self.upper_right.x).div_req(T::from_spec(2i8))
        &&& self.lower_left.y.add_req(self.upper_right.y)
        &&& self.lower_left.y.add_spec(self.upper_right.y).div_req(T::from_spec(2i8))
        &&& self.lower_left.z.add_req(self.upper_right.z)
        &&& self.lower_left.z.add_spec(self.upper_right.z).div_req(T::from_spec(2i8))
    }

    /// The point halfway between the two corners: half the sum of their
    /// coordinates along every axis.
    pub fn get_center(&self) -> (r: Vector3<T>)
        where T: Add<Output = T> + Div<Output = T> + From<i8> + Copy
        requires
            T::obeys_add_spec(),
            T::obeys_from_spec(),
            self.center_req(),
        ensures
            T::obeys_div_spec() ==> r == self.center_spec(),
    {
        let two = T::from(2i8);
        Vector3::new(
            (self.lower_left.x + self.upper_right.x) / two,
            (self.lower_left.y + self.upper_right.y) / two,
            (self.lower_left.z + self.upper_right.z) / two,
        )
    }

    /// Moves both corners by what separates `center` from the center of the
    /// box.
    pub fn set_center(&mut self, center: Vector3<T>)
        where T: Add<Output = T> + Sub<Output = T> + Div<Output = T> + From<i8> + Copy
        requires
            T::obeys_add_spec(),
            T::obeys_sub_spec(),
            T::obeys_div_spec(),
            T::obeys_from_spec(),
            old(self).center_req(),
            center.x.sub_req(old(self).center_spec().x),
            old(self).lower_left.x.add_req(center.x.sub_spec(old(self).center_spec().x)),
            old(self).upper_right.x.add_req(center.x.sub_spec(old(self).center_spec().x)),
            center.y.sub_req(old(self).center_spec().y),
            old(self).lower_left.y.add_req(center.y.sub_spec(old(self).center_spec().y)),
            old(self).upper_right.y.add_req(center.y.sub_spec(old(self).center_spec().y)),
            center.z.sub_req(old(self).center_spec().z),
            old(self).lower_left.z.add_req(center.z.sub_spec(old(self).center_spec().z)),
            old(self).upper_right.z.add_req(center.z.sub_spec(old(self).center_spec().z)),
        ensures
            final(self).lower_left.x ==
                old(self).lower_left.x.add_spec(center.x.sub_spec(old(self).center_spec().x)),
            final(self).lower_left.y ==
                old(self).lower_left.y.add_spec(center.y.sub_spec(old(self).center_spec().y)),
            final(self).lower_left.z ==
                old(self).lower_left.z.add_spec(center.z.sub_spec(old(self).center_spec().z)),
            final(self).upper_right.x ==
                old(self).upper_right.x.add_spec(center.x.sub_spec(old(self).center_spec().x)),
            final(self).upper_right.y ==
                old(self).upper_right.y.add_spec(center.y.sub_spec(old(self).center_spec().y)),
            final(self).upper_right.z ==
                old(self).upper_right.z.add_spec(center.z.sub_spec(old(self).center_spec().z)),
    {
        let current_center = self.get_center();
        let delta_x = center.x - current_center.x;
        let delta_y = center.y - current_center.y;
        let delta_z = center.z - current_center.z;
        self.lower_left.x = self.lower_left.x + delta_x;
        self.upper_right.x = self.upper_right.x + delta_x;
        self.lower_left.y = self.lower_left.y + delta_y;
        self.upper_right.y = self.upper_right.y + delta_y;
        self.lower_left.z = self.lower_left.z + delta_z;
        self.upper_right.z = self.upper_right.z + delta_z;
    }

    /// Whether `point` lies between the least and the greatest coordinate along
    /// every axis, the two included.
    pub open spec fn contains_spec(self, point: Vector3<T>) -> bool
        where T: PartialOrd + Copy
    {
        &&& point.x.is_ge(&self.x_min_spec())
        &&& point.x.is_le(&self.x_max_spec())
        &&& point.y.is_ge(&self.y_min_spec())
        &&& point.y.is_le(&self.y_max_spec())
        &&& point.z.is_ge(&self.z_min_spec())
        &&& point.z.is_le(&self.z_max_spec())
    }

    /// Whether `point` lies between the least and the greatest coordinate along
    /// every axis, the two included.
    pub fn contains(&self, point: Vector3<T>) -> (r: bool)
        where T: PartialOrd + Copy
        ensures
            T::obeys_partial_cmp_spec() ==> r == self.contains_spec(point),
    {
        point.x >= self.lower_left.x
            && point.x <= self.upper_right.x
            && point.y >= self.lower_left.y
            && point.y <= self.upper_right.y
            && point.z >= self.lower_left.z
            && point.z <= self.upper_right.z
    }

    /// Whether, along every axis, each box begins before the other ends. Boxes
    /// that only touch do not overlap.
    pub open spec fn overlaps_spec(self, other: Self) -> bool
        where T: PartialOrd + Copy
    {
        &&& intervals_overlap(
            self.x_min_spec(),
            self.x_max_spec(),
            other.x_min_spec(),
            other.x_max_spec(),
        )
        &&& intervals_overlap(
            self.y_min_spec(),
            self.y_max_spec(),
            other.y_min_spec(),
            other.y_max_spec(),
        )
        &&& intervals_overlap(
            self.z_min_spec(),
            self.z_max_spec(),
            other.z_min_spec(),
            other.z_max_spec(),
        )
    }

    /// Whether, along every axis, each box begins before the other ends. Boxes
    /// that only touch do not overlap.
    pub fn overlaps(&self, other: &Area3D<T>) -> (r: bool)
        where T: PartialOrd + Copy
        ensures
            T::obeys_partial_cmp_spec() ==> r == self.overlaps_spec(*other),
    {
        self.lower_left.x < other.upper_right.x
            && self.upper_right.x > other.lower_left.x
            && self.lower_left.y < other.upper_right.y
            && self.upper_right.y > other.lower_left.y
            && self.lower_left.z < other.upper_right.z
            && self.upper_right.z > other.lower_left.z
    }

    /// The box of `cube` in this representation.
    pub open spec fn from_cube_spec(cube: Cube<T>) -> Self
        where T: Add<Output = T> + Copy
    {
        Area3D {
            lower_left: Vector3 { x: cube.x, y: cube.y, z: cube.z },
            upper_right: Vector3 {
                x: cube.x.add_spec(cube.width),
                y: cube.y.add_spec(cube.height),
                z: cube.z.add_spec(cube.depth),
            },
        }
    }

    /// Whether each step of `from_cube` is defined.
    pub open spec fn from_cube_req(cube: Cube<T>) -> bool
        where T: Add<Output = T> + Copy
    {
        &&& cube.x.add_req(cube.width)
        &&& cube.y.add_req(cube.height)
        &&& cube.z.add_req(cube.depth)
    }

    /// The box of `cube` in this representation.
    pub fn from_cube(cube: Cube<T>) -> (r: Self)
        where T: Add<Output = T> + Copy
        requires
            Self::from_cube_req(cube),
        ensures
            T::obeys_add_spec() ==> r == Self::from_cube_spec(cube),
    {
        Area3D {
            lower_left: Vector3 { x: cube.x, y: cube.y, z: cube.z },
            upper_right: Vector3 {
                x: cube.x + cube.width,
                y: cube.y + cube.height,
                z: cube.z + cube.depth,
            },
        }
    }

    /// The box of `bounds` in this representation.
    pub open spec fn from_bounds_spec(bounds: Bounds3D<T>) -> Self
        where T: Add<Output = T> + Sub<Output = T> + Copy
    {
        Area3D {
            lower_left: Vector3 {
                x: bounds.center.x.sub_spec(bounds.extents.x),
                y: bounds.center.y.sub_spec(bounds.extents.y),
                z: bounds.center.z.sub_spec(bounds.extents.z),
            },
            upper_right: Vector3 {
                x: bounds.center.x.add_spec(bounds.extents.x),
                y: bounds.center.y.add_spec(bounds.extents.y),
                z: bounds.center.z.add_spec(bounds.extents.z),
            },
        }
    }

    /// Whether each step of `from_bounds` is defined.
    pub open spec fn from_bounds_req(bounds: Bounds3D<T>) -> bool
        where T: Add<Output = T> + Sub<Output = T> + Copy
    {
        &&& bounds.center.x.sub_req(bounds.extents.x)
        &&& bounds.center.y.sub_req(bounds.extents.y)
        &&& bounds.center.z.sub_req(bounds.extents.z)
        &&& bounds.center.x.add_req(bounds.extents.x)
        &&& bounds.center.y.add_req(bounds.extents.y)
        &&& bounds.center.z.add_req(bounds.extents.z)
    }

    /// The box of `bounds` in this representation.
    pub fn from_bounds(bounds: Bounds3D<T>) -> (r: Self)
        where T: Add<Output = T> + Sub<Output = T> + Copy
        requires
            Self::from_bounds_req(bounds),
        ensures
            T::obeys_add_spec() && T::obeys_sub_spec() ==> r == Self::from_bounds_spec(bounds),
    {
        Area3D {
            lower_left: Vector3 {
                x: bounds.center.x - bounds.extents.x,
                y: bounds.center.y - bounds.extents.y,
                z: bounds.center.z - bounds.extents.z,
            },
            upper_right: Vector3 {
                x: bounds.center.x + bounds.extents.x,
                y: bounds.center.y + bounds.extents.y,
                z: bounds.center.z + bounds.extents.z,
            },
        }
    }

    /// The box of `area` in this representation, without its axes past `z`.
    pub open spec fn from_area4d_spec(area: Area4D<T>) -> Self
        where T: Copy
    {
        Area3D {
            lower_left: Vector3 {
                x: area.lower_left.x,
                y: area.lower_left.y,
                z: area.lower_left.z,
            },
            upper_right: Vector3 {
                x: area.upper_right.x,
                y: area.upper_right.y,
                z: area.upper_right.z,
            },
        }
    }

    /// The box of `area` in this representation, without its axes past `z`.
    pub fn from_area4d(area: Area4D<T>) -> (r: Self)
        where T: Copy
        ensures
            r == Self::from_area4d_spec(area),
    {
        Area3D {
            lower_left: Vector3 {
                x: area.lower_left.x,
                y: area.lower_left.y,
                z: area.lower_left.z,
            },
            upper_right: Vector3 {
                x: area.upper_right.x,
                y: area.upper_right.y,
                z: area.upper_right.z,
            },
        }
    }

    /// The box of `bounds` in this representation, without its axes past `z`.
    pub open spec fn from_bounds4d_spec(bounds: Bounds4D<T>) -> Self
        where T: Add<Output = T> + Sub<Output = T> + Copy
    {
        Area3D {
            lower_left: Vector3 {
                x: bounds.center.x.sub_spec(bounds.extents.x),
                y: bounds.center.y.sub_spec(bounds.extents.y),
                z: bounds.center.z.sub_spec(bounds.extents.z),
            },
            upper_right: Vector3 {
                x: bounds.center.x.add_spec(bounds.extents.x),
                y: bounds.center.y.add_spec(bounds.extents.y),
                z: bounds.center.z.add_spec(bounds.extents.z),
            },
        }
    }

    /// Whether each step of `from_bounds4d` is defined.
    pub open spec fn from_bounds4d_req(bounds: Bounds4D<T>) -> bool
        where T: Add<Output = T> + Sub<Output = T> + Copy
    {
        &&& bounds.center.x.sub_req(bounds.extents.x)
        &&& bounds.center.y.sub_req(bounds.extents.y)
        &&& bounds.center.z.sub_req(bounds.extents.z)
        &&& bounds.center.x.add_req(bounds.extents.x)
        &&& bounds.center.y.add_req(bounds.extents.y)
        &&& bounds.center.z.add_req(bounds.extents.z)
    }

    /// The box of `bounds` in this representation, without its axes past `z`.
    pub fn from_bounds4d(bounds: Bounds4D<T>) -> (r: Self)
        where T: Add<Output = T> + Sub<Output = T> + Copy
        requires
            Self::from_bounds4d_req(bounds),
        ensures
            T::obeys_add_spec() && T::obeys_sub_spec() ==> r == Self::from_bounds4d_spec(bounds),
    {
        Area3D {
            lower_left: Vector3 {
                x: bounds.center.x - bounds.extents.x,
                y: bounds.center.y - bounds.extents.y,
                z: bounds.center.z - bounds.extents.z,
            },
            upper_right: Vector3 {
                x: bounds.center.x + bounds.extents.x,
                y: bounds.center.y + bounds.extents.y,
                z: bounds.center.z + bounds.extents.z,
            },
        }
    }

    /// Whether, along every axis, each of the two boxes begins before the other
    /// ends. Boxes that only touch do not overlap.
    pub open spec fn overlaps_bounds_spec(self, bounds: Bounds3D<T>) -> bool
        where T: PartialOrd + Add<Output = T> + Sub<Output = T> + Copy
    {
        &&& intervals_overlap(
            self.x_min_spec(),
            self.x_max_spec(),
            bounds.x_min_spec(),
            bounds.x_max_spec(),
        )
        &&& intervals_overlap(
            self.y_min_spec(),
            self.y_max_spec(),
            bounds.y_min_spec(),
            bounds.y_max_spec(),
        )
        &&& intervals_overlap(
            self.z_min_spec(),
            self.z_max_spec(),
            bounds.z_min_spec(),
            bounds.z_max_spec(),
        )
    }

    /// Whether, along every axis, each of the two boxes begins before the other
    /// ends. Boxes that only touch do not overlap.
    pub fn overlaps_bounds(&self, bounds: &Bounds3D<T>) -> (r: bool)
        where T: PartialOrd + Add<Output = T> + Sub<Output = T> + Copy
        requires
            bounds.corners_req(),
        ensures
            T::obeys_partial_cmp_spec() && T::obeys_add_spec() && T::obeys_sub_spec() ==>
                r == self.overlaps_bounds_spec(*bounds),
    {
        self.lower_left.x < bounds.center.x + bounds.extents.x
            && self.upper_right.x > bounds.center.x - bounds.extents.x
            && self.lower_left.y < bounds.center.y + bounds.extents.y
            && self.upper_right.y > bounds.center.y - bounds.extents.y
            && self.lower_left.z < bounds.center.z + bounds.extents.z
            && self.upper_right.z > bounds.center.z - bounds.extents.z
    }
}

} // verus!
