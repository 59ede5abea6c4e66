//! Axis-aligned boxes in three dimensions, held as center and extents.

use vstd::prelude::*;
use vstd::std_specs::ops::{AddSpec, DivSpec, SubSpec};
use vstd::std_specs::convert::FromSpec;
use vstd::std_specs::cmp::{PartialOrdSpec, PartialOrdIs};
use core::ops::{Add, Div, Sub};
use crate::numeric::{half_excess_req, half_excess_spec, intervals_overlap};
use crate::vectors::Vector3;
use super::cube::Cube;
use super::area3d::Area3D;
use super::area4d::Area4D;
use super::bounds4d::Bounds4D;
use super::bounds2d::Bounds2D;
use super::area2d::Area2D;

verus! {

/// An axis-aligned box held as its center and, along each axis, its extent:
/// half its size. An extent may have any sign.
#[derive(Debug, Clone, Copy, PartialEq, Default)]
pub struct Bounds3D<T> {
    pub center: Vector3<T>,
    pub extents: Vector3<T>,
}

impl<T> Bounds3D<T> {
    /// The box with the given center and extents.
    pub fn new(
        center_x: T,
        center_y: T,
        center_z: T,
        extents_x: T,
        extents_y: T,
        extents_z: T,
    ) -> (r: Self)
        ensures
            r == (Bounds3D {
                center: Vector3 { x: center_x, y: center_y, z: center_z },
                extents: Vector3 { x: extents_x, y: extents_y, z: extents_z },
            }),
    {
        Self::new_vectors(
            Vector3::new(center_x, center_y, center_z),
            Vector3::new(extents_x, extents_y, extents_z),
        )
    }

    /// The box with the center `center` and the extents `extents`.
    pub fn new_vectors(center: Vector3<T>, extents: Vector3<T>) -> (r: Self)
        ensures
            r == (Bounds3D { center, extents }),
    {
        Bounds3D { center, extents }
    }

    /// Replaces the center and the extents.
    pub fn set(
        &mut self,
        center_x: T,
        center_y: T,
        center_z: T,
        extents_x: T,
        extents_y: T,
        extents_z: T,
    )
        ensures
            *final(self) == (Bounds3D {
                center: Vector3 { x: center_x, y: center_y, z: center_z },
                extents: Vector3 { x: extents_x, y: extents_y, z: extents_z },
            }),
    {
        self.center.x = center_x;
        self.center.y = center_y;
        self.center.z = center_z;
        self.extents.x = extents_x;
        self.extents.y = extents_y;
        self.extents.z = extents_z;
    }

    /// Replaces the center by `center` and the extents by `extents`.
    pub fn set_vectors(&mut self, center: Vector3<T>, extents: Vector3<T>)
        ensures
            *final(self) == (Bounds3D { center, extents }),
    {
        self.center = center;
        self.extents = extents;
    }

    /// The least `x` of the box.
    pub open spec fn x_min_spec(self) -> T
        where T: Sub<Output = T> + Copy
    {
        self.center.x.sub_spec(self.extents.x)
    }

    /// The greatest `x` of the box.
    pub open spec fn x_max_spec(self) -> T
        where T: Add<Output = T> + Copy
    {
        self.center.x.add_spec(self.extents.x)
    }

    /// The least `y` of the box.
    pub open spec fn y_min_spec(self) -> T
        where T: Sub<Output = T> + Copy
    {
        self.center.y.sub_spec(self.extents.y)
    }

    /// The greatest `y` of the box.
    pub open spec fn y_max_spec(self) -> T
        where T: Add<Output = T> + Copy
    {
        self.center.y.add_spec(self.extents.y)
    }

    /// The least `z` of the box.
    pub open spec fn z_min_spec(self) -> T
        where T: Sub<Output = T> + Copy
    {
        self.center.z.sub_spec(self.extents.z)
    }

    /// The greatest `z` of the box.
    pub open spec fn z_max_spec(self) -> T
        where T: Add<Output = T> + Copy
    {
        self.center.z.add_spec(self.extents.z)
    }

    /// Whether the least and the greatest coordinate are defined along every
    /// axis.
    pub open spec fn corners_req(self) -> bool
        where T: Add<Output = T> + Sub<Output = T> + Copy
    {
        &&& self.center.x.sub_req(self.extents.x)
        &&& self.center.y.sub_req(self.extents.y)
        &&& self.center.z.sub_req(self.extents.z)
        &&& self.center.x.add_req(self.extents.x)
        &&& self.center.y.add_req(self.extents.y)
        &&& self.center.z.add_req(self.extents.z)
    }

    /// The least `x` of the box.
    pub fn get_x_min(&self) -> (r: T)
        where T: Sub<Output = T> + Copy
        requires
            self.center.x.sub_req(self.extents.x),
        ensures
            T::obeys_sub_spec() ==> r == self.x_min_spec(),
    {
        self.center.x - self.extents.x
    }

    /// Moves the box, its extents unchanged, so that it begins at `x_min`.
    pub fn set_x_min(&mut self, x_min: T)
        where T: Add<Output = T> + Copy
        requires
            x_min.add_req(old(self).extents.x),
        ensures
            T::obeys_add_spec() ==> final(self).center.x == x_min.add_spec(old(self).extents.x),
            final(self).center.y == old(self).center.y,
            final(self).center.z == old(self).center.z,
            final(self).extents == old(self).extents,
    {
        self.center.x = x_min + self.extents.x;
    }

    /// The greatest `x` of the box.
    pub fn get_x_max(&self) -> (r: T)
        where T: Add<Output = T> + Copy
        requires
            self.center.x.add_req(self.extents.x),
        ensures
            T::obeys_add_spec() ==> r == self.x_max_spec(),
    {
        self.center.x + self.extents.x
    }

    /// Moves the box, its extents unchanged, so that it ends at `x_max`.
    pub fn set_x_max(&mut self, x_max: T)
        where T: Sub<Output = T> + Copy
        requires
            x_max.sub_req(old(self).extents.x),
        ensures
            T::obeys_sub_spec() ==> final(self).center.x == x_max.sub_spec(old(self).extents.x),
            final(self).center.y == old(self).center.y,
            final(self).center.z == old(self).center.z,
            final(self).extents == old(self).extents,
    {
        self.center.x = x_max - self.extents.x;
    }

    /// The least `y` of the box.
    pub fn get_y_min(&self) -> (r: T)
        where T: Sub<Output = T> + Copy
        requires
            self.center.y.sub_req(self.extents.y),
        ensures
            T::obeys_sub_spec() ==> r == self.y_min_spec(),
    {
        self.center.y - self.extents.y
    }

    /// Moves the box, its extents unchanged, so that it begins at `y_min`.
    pub fn set_y_min(&mut self, y_min: T)
        where T: Add<Output = T> + Copy
        requires
            y_min.add_req(old(self).extents.y),
        ensures
            final(self).center.x == old(self).center.x,
            T::obeys_add_spec() ==> final(self).center.y == y_min.add_spec(old(self).extents.y),
            final(self).center.z == old(self).center.z,
            final(self).extents == old(self).extents,
    {
        self.center.y = y_min + self.extents.y;
    }

    /// The greatest `y` of the box.
    pub fn get_y_max(&self) -> (r: T)
        where T: Add<Output = T> + Copy
        requires
            self.center.y.add_req(self.extents.y),
        ensures
            T::obeys_add_spec() ==> r == self.y_max_spec(),
    {
        self.center.y + self.extents.y
    }

    /// Moves the box, its extents unchanged, so that it ends at `y_max`.
    pub fn set_y_max(&mut self, y_max: T)
        where T: Sub<Output = T> + Copy
        requires
            y_max.sub_req(old(self).extents.y),
        ensures
            final(self).center.x == old(self).center.x,
            T::obeys_sub_spec() ==> final(self).center.y == y_max.sub_spec(old(self).extents.y),
            final(self).center.z == old(self).center.z,
            final(self).extents == old(self).extents,
    {
        self.center.y = y_max - self.extents.y;
    }

    /// The least `z` of the box.
    pub fn get_z_min(&self) -> (r: T)
        where T: Sub<Output = T> + Copy
        requires
            self.center.z.sub_req(self.extents.z),
        ensures
            T::obeys_sub_spec() ==> r == self.z_min_spec(),
    {
        self.center.z - self.extents.z
    }

    /// Moves the box, its extents unchanged, so that it begins at `z_min`.
    pub fn set_z_min(&mut self, z_min: T)
        where T: Add<Output = T> + Copy
        requires
            z_min.add_req(old(self).extents.z),
        ensures
            final(self).center.x == old(self).center.x,
            final(self).center.y == old(self).center.y,
            T::obeys_add_spec() ==> final(self).center.z == z_min.add_spec(old(self).extents.z),
            final(self).extents == old(self).extents,
    {
        self.center.z = z_min + self.extents.z;
    }

    /// The greatest `z` of the box.
    pub fn get_z_max(&self) -> (r: T)
        where T: Add<Output = T> + Copy
        requires
            self.center.z.add_req(self.extents.z),
        ensures
            T::obeys_add_spec() ==> r == self.z_max_spec(),
    {
        self.center.z + self.extents.z
    }

    /// Moves the box, its extents unchanged, so that it ends at `z_max`.
    pub fn set_z_max(&mut self, z_max: T)
        where T: Sub<Output = T> + Copy
        requires
            z_max.sub_req(old(self).extents.z),
        ensures
            final(self).center.x == old(self).center.x,
            final(self).center.y == old(self).center.y,
            T::obeys_sub_spec() ==> final(self).center.z == z_max.sub_spec(old(self).extents.z),
            final(self).extents == old(self).extents,
    {
        self.center.z = z_max - self.extents.z;
    }

    /// The size of the box along `x`: twice its extent.
    pub open spec fn width_spec(self) -> T
        where T: Add<Output = T> + Copy
    {
        self.extents.x.add_spec(self.extents.x)
    }

    /// The size of the box along `x`: twice its extent.
    pub fn get_width(&self) -> (r: T)
        where T: Add<Output = T> + Copy
        requires
            self.extents.x.add_req(self.extents.x),
        ensures
            T::obeys_add_spec() ==> r == self.width_spec(),
    {
        self.extents.x + self.extents.x
    }

    /// The box that `set_width` leaves.
    pub open spec fn with_width_spec(self, width: T) -> Self
        where T: Add<Output = T> + Sub<Output = T> + Div<Output = T> + From<i8> + Copy
    {
        Bounds3D {
            center: Vector3 {
                x: self.center.x,
                y: self.center.y,
                z: self.center.z,
            },
            extents: Vector3 {
                x: self.extents.x.sub_spec(half_excess_spec(self.width_spec(), width)),
                y: self.extents.y,
                z: self.extents.z,
            },
        }
    }

    /// Whether each step of `set_width` is defined.
    pub open spec fn with_width_req(self, width: T) -> bool
        where T: Add<Output = T> + Sub<Output = T> + Div<Output = T> + From<i8> + Copy
    {
        &&& self.extents.x.add_req(self.extents.x)
        &&& half_excess_req(self.width_spec(), width)
        &&& self.extents.x.sub_req(half_excess_spec(self.width_spec(), width))
    }

    /// Gives the box the size `width` along `x` about its center: half of what
    /// the size has too much is taken from the extent.
    pub fn set_width(&mut self, width: T)
        where T: Add<Output = T> + Sub<Output = T> + Div<Output = T> + From<i8> + Copy
        requires
            T::obeys_add_spec(),
            T::obeys_sub_spec(),
            T::obeys_div_spec(),
            T::obeys_from_spec(),
            old(self).with_width_req(width),
        ensures
            *final(self) == old(self).with_width_spec(width),
    {
        let two = T::from(2i8);
        let half_delta = (self.extents.x + self.extents.x - width) / two;
        self.extents.x = self.extents.x - half_delta;
    }

    /// The size of the box along `y`: twice its extent.
    pub open spec fn height_spec(self) -> T
        where T: Add<Output = T> + Copy
    {
        self.extents.y.add_spec(self.extents.y)
    }

    /// The size of the box along `y`: twice its extent.
    pub fn get_height(&self) -> (r: T)
        where T: Add<Output = T> + Copy
        requires
            self.extents.y.add_req(self.extents.y),
        ensures
            T::obeys_add_spec() ==> r == self.height_spec(),
    {
        self.extents.y + self.extents.y
    }

    /// The box that `set_height` leaves.
    pub open spec fn with_height_spec(self, height: T) -> Self
        where T: Add<Output = T> + Sub<Output = T> + Div<Output = T> + From<i8> + Copy
    {
        Bounds3D {
            center: Vector3 {
                x: self.center.x,
                y: self.center.y,
                z: self.center.z,
            },
            extents: Vector3 {
                x: self.extents.x,
                y: self.extents.y.sub_spec(half_excess_spec(self.height_spec(), height)),
                z: self.extents.z,
            },
        }
    }

    /// Whether each step of `set_height` is defined.
    pub open spec fn with_height_req(self, height: T) -> bool
        where T: Add<Output = T> + Sub<Output = T> + Div<Output = T> + From<i8> + Copy
    {
        &&& self.extents.y.add_req(self.extents.y)
        &&& half_excess_req(self.height_spec(), height)
        &&& self.extents.y.sub_req(half_excess_spec(self.height_spec(), height))
    }

    /// Gives the box the size `height` along `y` about its center: half of what
    /// the size has too much is taken from the extent.
    pub fn set_height(&mut self, height: T)
        where T: Add<Output = T> + Sub<Output = T> + Div<Output = T> + From<i8> + Copy
        requires
            T::obeys_add_spec(),
            T::obeys_sub_spec(),
            T::obeys_div_spec(),
            T::obeys_from_spec(),
            old(self).with_height_req(height),
        ensures
            *final(self) == old(self).with_height_spec(height),
    {
        let two = T::from(2i8);
        let half_delta = (self.extents.y + self.extents.y - height) / two;
        self.extents.y = self.extents.y - half_delta;
    }

    /// The size of the box along `z`: twice its extent.
    pub open spec fn depth_spec(self) -> T
        where T: Add<Output = T> + Copy
    {
        self.extents.z.add_spec(self.extents.z)
    }

    /// The size of the box along `z`: twice its extent.
    pub fn get_depth(&self) -> (r: T)
        where T: Add<Output = T> + Copy
        requires
            self.extents.z.add_req(self.extents.z),
        ensures
            T::obeys_add_spec() ==> r == self.depth_spec(),
    {
        self.extents.z + self.extents.z
    }

    /// The box that `set_depth` leaves.
    pub open spec fn with_depth_spec(self, depth: T) -> Self
        where T: Add<Output = T> + Sub<Output = T> + Div<Output = T> + From<i8> + Copy
    {
        Bounds3D {
            center: Vector3 {
                x: self.center.x,
                y: self.center.y,
                z: self.center.z,
            },
            extents: Vector3 {
                x: self.extents.x,
                y: self.extents.y,
                z: self.extents.z.sub_spec(half_excess_spec(self.depth_spec(), depth)),
            },
        }
    }

    /// Whether each step of `set_depth` is defined.
    pub open spec fn with_depth_req(self, depth: T) -> bool
        where T: Add<Output = T> + Sub<Output = T> + Div<Output = T> + From<i8> + Copy
    {
        &&& self.extents.z.add_req(self.extents.z)
        &&& half_excess_req(self.depth_spec(), depth)
        &&& self.extents.z.sub_req(half_excess_spec(self.depth_spec(), depth))
    }

    /// Gives the box the size `depth` along `z` about its center: half of what
    /// the size has too much is taken from the extent.
    pub fn set_depth(&mut self, depth: T)
        where T: Add<Output = T> + Sub<Output = T> + Div<Output = T> + From<i8> + Copy
        requires
            T::obeys_add_spec(),
            T::obeys_sub_spec(),
            T::obeys_div_spec(),
            T::obeys_from_spec(),
            old(self).with_depth_req(depth),
        ensures
            *final(self) == old(self).with_depth_spec(depth),
    {
        let two = T::from(2i8);
        let half_delta = (self.extents.z + self.extents.z - depth) / two;
        self.extents.z = self.extents.z - half_delta;
    }

    /// The size of the box along every axis.
    pub open spec fn size_spec(self) -> Vector3<T>
        where T: Add<Output = T> + Copy
    {
        Vector3 { x: self.width_spec(), y: self.height_spec(), z: self.depth_spec() }
    }

    /// Whether the size is defined along every axis.
    pub open spec fn size_req(self) -> bool
        where T: Add<Output = T> + Copy
    {
        &&& self.extents.x.add_req(self.extents.x)
        &&& self.extents.y.add_req(self.extents.y)
        &&& self.extents.z.add_req(self.extents.z)
    }

    /// The size of the box along every axis.
    pub fn get_size(&self) -> (r: Vector3<T>)
        where T: Add<Output = T> + Copy
        requires
            self.size_req(),
        ensures
            T::obeys_add_spec() ==> r == self.size_spec(),
    {
        Vector3::new(
            self.extents.x + self.extents.x,
            self.extents.y + self.extents.y,
            self.extents.z + self.extents.z,
        )
    }

    /// The box that `set_size` leaves.
    pub open spec fn with_size_spec(self, size_x: T, size_y: T, size_z: T) -> Self
        where T: Add<Output = T> + Sub<Output = T> + Div<Output = T> + From<i8> + Copy
    {
        Bounds3D {
            center: Vector3 {
                x: self.center.x,
                y: self.center.y,
                z: self.center.z,
            },
            extents: Vector3 {
                x: self.extents.x.sub_spec(half_excess_spec(self.width_spec(), size_x)),
                y: self.extents.y.sub_spec(half_excess_spec(self.height_spec(), size_y)),
                z: self.extents.z.sub_spec(half_excess_spec(self.depth_spec(), size_z)),
            },
        }
    }

    /// Whether each step of `set_size` is defined.
    pub open spec fn with_size_req(self, size_x: T, size_y: T, size_z: T) -> bool
        where T: Add<Output = T> + Sub<Output = T> + Div<Output = T> + From<i8> + Copy
    {
        &&& self.extents.x.add_req(self.extents.x)
        &&& half_excess_req(self.width_spec(), size_x)
        &&& self.extents.x.sub_req(half_excess_spec(self.width_spec(), size_x))
        &&& self.extents.y.add_req(self.extents.y)
        &&& half_excess_req(self.height_spec(), size_y)
        &&& self.extents.y.sub_req(half_excess_spec(self.height_spec(), size_y))
        &&& self.extents.z.add_req(self.extents.z)
        &&& half_excess_req(self.depth_spec(), size_z)
        &&& self.extents.z.sub_req(half_excess_spec(self.depth_spec(), size_z))
    }

    /// Gives the box the size `size_x` along `x`, and so on, about its center,
    /// along every axis as `set_width` does along `x`.
    pub fn set_size(&mut self, size_x: T, size_y: T, size_z: T)
        where T: Add<Output = T> + Sub<Output = T> + Div<Output = T> + From<i8> + Copy
        requires
            T::obeys_add_spec(),
            T::obeys_sub_spec(),
            T::obeys_div_spec(),
            T::obeys_from_spec(),
            old(self).with_size_req(size_x, size_y, size_z),
        ensures
            *final(self) == old(self).with_size_spec(size_x, size_y, size_z),
    {
        let two = T::from(2i8);
        let half_delta_x = (self.extents.x + self.extents.x - size_x) / two;
        let half_delta_y = (self.extents.y + self.extents.y - size_y) / two;
        let half_delta_z = (self.extents.z + self.extents.z - size_z) / two;
        self.extents.x = self.extents.x - half_delta_x;
        self.extents.y = self.extents.y - half_delta_y;
        self.extents.z = self.extents.z - half_delta_z;
    }

    /// Whether `point` lies strictly between the least and the greatest
    /// coordinate along every axis.
    pub open spec fn contains_spec(self, point: Vector3<T>) -> bool
        where T: PartialOrd + Add<Output = T> + Sub<Output = T> + Copy
    {
        &&& self.x_min_spec().is_lt(&point.x)
        &&& self.x_max_spec().is_gt(&point.x)
        &&& self.y_min_spec().is_lt(&point.y)
        &&& self.y_max_spec().is_gt(&point.y)
        &&& self.z_min_spec().is_lt(&point.z)
        &&& self.z_max_spec().is_gt(&point.z)
    }

    /// Whether `point` lies strictly between the least and the greatest
    /// coordinate along every axis.
    pub fn contains(&self, point: Vector3<T>) -> (r: bool)
        where T: PartialOrd + Add<Output = T> + Sub<Output = T> + Copy
        requires
            self.corners_req(),
        ensures
            T::obeys_partial_cmp_spec() && T::obeys_add_spec() && T::obeys_sub_spec() ==>
                r == self.contains_spec(point),
    {
        self.center.x - self.extents.x < point.x
            && self.center.x + self.extents.x > point.x
            && self.center.y - self.extents.y < point.y
            && self.center.y + self.extents.y > point.y
            && self.center.z - self.extents.z < point.z
            && self.center.z + self.extents.z > point.z
    }

    /// Whether, along every axis, each box begins before the other ends. Boxes
    /// that only touch do not overlap.
    pub open spec fn overlaps_spec(self, other: Self) -> bool
        where T: PartialOrd + Add<Output = T> + Sub<Output = T> + Copy
    {
        &&& intervals_overlap(
            self.x_min_spec(),
            self.x_max_spec(),
            other.x_min_spec(),
            other.x_max_spec(),
        )
        &&& intervals_overlap(
            self.y_min_spec(),
            self.y_max_spec(),
            other.y_min_spec(),
            other.y_max_spec(),
        )
        &&& intervals_overlap(
            self.z_min_spec(),
            self.z_max_spec(),
            other.z_min_spec(),
            other.z_max_spec(),
        )
    }

    /// Whether, along every axis, each box begins before the other ends. Boxes
    /// that only touch do not overlap.
    pub fn overlaps(&self, other: &Bounds3D<T>) -> (r: bool)
        where T: PartialOrd + Add<Output = T> + Sub<Output = T> + Copy
        requires
            self.corners_req(),
            other.corners_req(),
        ensures
            T::obeys_partial_cmp_spec() && T::obeys_add_spec() && T::obeys_sub_spec() ==>
                r == self.overlaps_spec(*other),
    {
        self.center.x - self.extents.x < other.center.x + other.extents.x
            && self.center.x + self.extents.x > other.center.x - other.extents.x
            && self.center.y - self.extents.y < other.center.y + other.extents.y
            && self.center.y + self.extents.y > other.center.y - other.extents.y
            && self.center.z - self.extents.z < other.center.z + other.extents.z
            && self.center.z + self.extents.z > other.center.z - other.extents.z
    }

    /// The box of `cube` in this representation.
    pub open spec fn from_cube_spec(cube: Cube<T>) -> Self
        where T: Add<Output = T> + Div<Output = T> + From<i8> + Copy
    {
        Bounds3D {
            center: Vector3 {
                x: cube.x.add_spec(cube.width.div_spec(T::from_spec(2i8))),
                y: cube.y.add_spec(cube.height.div_spec(T::from_spec(2i8))),
                z: cube.z.add_spec(cube.depth.div_spec(T::from_spec(2i8))),
            },
            extents: Vector3 {
                x: cube.width.div_spec(T::from_spec(2i8)),
                y: cube.height.div_spec(T::from_spec(2i8)),
                z: cube.depth.div_spec(T::from_spec(2i8)),
            },
        }
    }

    /// Whether each step of `from_cube` is defined.
    pub open spec fn from_cube_req(cube: Cube<T>) -> bool
        where T: Add<Output = T> + Div<Output = T> + From<i8> + Copy
    {
        &&& cube.width.div_req(T::from_spec(2i8))
        &&& cube.x.add_req(cube.width.div_spec(T::from_spec(2i8)))
        &&& cube.height.div_req(T::from_spec(2i8))
        &&& cube.y.add_req(cube.height.div_spec(T::from_spec(2i8)))
        &&& cube.depth.div_req(T::from_spec(2i8))
        &&& cube.z.add_req(cube.depth.div_spec(T::from_spec(2i8)))
    }

    /// The box of `cube` in this representation.
    pub fn from_cube(cube: Cube<T>) -> (r: Self)
        where T: Add<Output = T> + Div<Output = T> + From<i8> + Copy
        requires
            T::obeys_div_spec(),
            T::obeys_from_spec(),
            Self::from_cube_req(cube),
        ensures
            T::obeys_add_spec() ==> r == Self::from_cube_spec(cube),
    {
        let two = T::from(2i8);
        Bounds3D {
            center: Vector3 {
                x: cube.x + cube.width / two,
                y: cube.y + cube.height / two,
                z: cube.z + cube.depth / two,
            },
            extents: Vector3 { x: cube.width / two, y: cube.height / two, z: cube.depth / two },
        }
    }

    /// The box of `area` in this representation.
    pub open spec fn from_area_spec(area: Area3D<T>) -> Self
        where T: Add<Output = T> + Sub<Output = T> + Div<Output = T> + From<i8> + Copy
    {
        Bounds3D {
            center: Vector3 {
                x: area.lower_left.x.add_spec(area.upper_right.x).div_spec(T::from_spec(2i8)),
                y: area.lower_left.y.add_spec(area.upper_right.y).div_spec(T::from_spec(2i8)),
                z: area.lower_left.z.add_spec(area.upper_right.z).div_spec(T::from_spec(2i8)),
            },
            extents: Vector3 {
                x: area.width_spec().div_spec(T::from_spec(2i8)),
                y: area.height_spec().div_spec(T::from_spec(2i8)),
                z: area.depth_spec().div_spec(T::from_spec(2i8)),
            },
        }
    }

    /// Whether each step of `from_area` is defined.
    pub open spec fn from_area_req(area: Area3D<T>) -> bool
        where T: Add<Output = T> + Sub<Output = T> + Div<Output = T> + From<i8> + Copy
    {
        &&& area.lower_left.x.add_req(area.upper_right.x)
        &&& area.lower_left.x.add_spec(area.upper_right.x).div_req(T::from_spec(2i8))
        &&& area.lower_left.y.add_req(area.upper_right.y)
        &&& area.lower_left.y.add_spec(area.upper_right.y).div_req(T::from_spec(2i8))
        &&& area.lower_left.z.add_req(area.upper_right.z)
        &&& area.lower_left.z.add_spec(area.upper_right.z).div_req(T::from_spec(2i8))
        &&& area.upper_right.x.sub_req(area.lower_left.x)
        &&& area.width_spec().div_req(T::from_spec(2i8))
        &&& area.upper_right.y.sub_req(area.lower_left.y)
        &&& area.height_spec().div_req(T::from_spec(2i8))
        &&& area.upper_right.z.sub_req(area.lower_left.z)
        &&& area.depth_spec().div_req(T::from_spec(2i8))
    }

    /// The box of `area` in this representation.
    pub fn from_area(area: Area3D<T>) -> (r: Self)
        where T: Add<Output = T> + Sub<Output = T> + Div<Output = T> + From<i8> + Copy
        requires
            T::obeys_add_spec(),
            T::obeys_sub_spec(),
            T::obeys_from_spec(),
            Self::from_area_req(area),
        ensures
            T::obeys_div_spec() ==> r == Self::from_area_spec(area),
    {
        let two = T::from(2i8);
        Bounds3D {
            center: Vector3 {
                x: (area.lower_left.x + area.upper_right.x) / two,
                y: (area.lower_left.y + area.upper_right.y) / two,
                z: (area.lower_left.z + area.upper_right.z) / two,
            },
            extents: Vector3 {
                x: (area.upper_right.x - area.lower_left.x) / two,
                y: (area.upper_right.y - area.lower_left.y) / two,
                z: (area.upper_right.z - area.lower_left.z) / two,
            },
        }
    }

    /// The box of `bounds` in this representation, without its axes past `z`.
    pub open spec fn from_bounds4d_spec(bounds: Bounds4D<T>) -> Self
        where T: Copy
    {
        Bounds3D {
            center: Vector3 { x: bounds.center.x, y: bounds.center.y, z: bounds.center.z },
            extents: Vector3 { x: bounds.extents.x, y: bounds.extents.y, z: bounds.extents.z },
        }
    }

    /// The box of `bounds` in this representation, without its axes past `z`.
    pub fn from_bounds4d(bounds: Bounds4D<T>) -> (r: Self)
        where T: Copy
        ensures
            r == Self::from_bounds4d_spec(bounds),
    {
        Bounds3D {
            center: Vector3 { x: bounds.center.x, y: bounds.center.y, z: bounds.center.z },
            extents: Vector3 { x: bounds.extents.x, y: bounds.extents.y, z: bounds.extents.z },
        }
    }

    /// The box of `area` in this representation, without its axes past `z`.
    pub open spec fn from_area4d_spec(area: Area4D<T>) -> Self
        where T: Add<Output = T> + Sub<Output = T> + Div<Output = T> + From<i8> + Copy
    {
        Bounds3D {
            center: Vector3 {
                x: area.lower_left.x.add_spec(area.upper_right.x).div_spec(T::from_spec(2i8)),
                y: area.lower_left.y.add_spec(area.upper_right.y).div_spec(T::from_spec(2i8)),
                z: area.lower_left.z.add_spec(area.upper_right.z).div_spec(T::from_spec(2i8)),
            },
            extents: Vector3 {
                x: area.width_spec().div_spec(T::from_spec(2i8)),
                y: area.height_spec().div_spec(T::from_spec(2i8)),
                z: area.depth_spec().div_spec(T::from_spec(2i8)),
            },
        }
    }

    /// Whether each step of `from_area4d` is defined.
    pub open spec fn from_area4d_req(area: Area4D<T>) -> bool
        where T: Add<Output = T> + Sub<Output = T> + Div<Output = T> + From<i8> + Copy
    {
        &&& area.lower_left.x.add_req(area.upper_right.x)
        &&& area.lower_left.x.add_spec(area.upper_right.x).div_req(T::from_spec(2i8))
        &&& area.lower_left.y.add_req(area.upper_right.y)
        &&& area.lower_left.y.add_spec(area.upper_right.y).div_req(T::from_spec(2i8))
        &&& area.lower_left.z.add_req(area.upper_right.z)
        &&& area.lower_left.z.add_spec(area.upper_right.z).div_req(T::from_spec(2i8))
        &&& area.upper_right.x.sub_req(area.lower_left.x)
        &&& area.width_spec().div_req(T::from_spec(2i8))
        &&& area.upper_right.y.sub_req(area.lower_left.y)
        &&& area.height_spec().div_req(T::from_spec(2i8))
        &&& area.upper_right.z.sub_req(area.lower_left.z)
        &&& area.depth_spec().div_req(T::from_spec(2i8))
    }

    /// The box of `area` in this representation, without its axes past `z`.
    pub fn from_area4d(area: Area4D<T>) -> (r: Self)
        where T: Add<Output = T> + Sub<Output = T> + Div<Output = T> + From<i8> + Copy
        requires
            T::obeys_add_spec(),
            T::obeys_sub_spec(),
            T::obeys_from_spec(),
            Self::from_area4d_req(area),
        ensures
            T::obeys_div_spec() ==> r == Self::from_area4d_spec(area),
    {
        let two = T::from(2i8);
        Bounds3D {
            center: Vector3 {
                x: (area.lower_left.x + area.upper_right.x) / two,
                y: (area.lower_left.y + area.upper_right.y) / two,
                z: (area.lower_left.z + area.upper_right.z) / two,
            },
            extents: Vector3 {
                x: (area.upper_right.x - area.lower_left.x) / two,
                y: (area.upper_right.y - area.lower_left.y) / two,
                z: (area.upper_right.z - area.lower_left.z) / two,
            },
        }
    }

    /// The box of `bounds` in this representation; along each further axis it
    /// lies at zero and has no extent.
    pub open spec fn from_bounds2d_spec(bounds: Bounds2D<T>) -> Self
        where T: From<i8> + Copy
    {
        Bounds3D {
            center: Vector3 { x: bounds.center.x, y: bounds.center.y, z: T::from_spec(0i8) },
            extents: Vector3 { x: bounds.extents.x, y: bounds.extents.y, z: T::from_spec(0i8) },
        }
    }

    /// The box of `bounds` in this representation; along each further axis it
    /// lies at zero and has no extent.
    pub fn from_bounds2d(bounds: Bounds2D<T>) -> (r: Self)
        where T: From<i8> + Copy
        ensures
            T::obeys_from_spec() ==> r == Self::from_bounds2d_spec(bounds),
    {
        let zero = T::from(0i8);
        Bounds3D {
            center: Vector3 { x: bounds.center.x, y: bounds.center.y, z: zero },
            extents: Vector3 { x: bounds.extents.x, y: bounds.extents.y, z: zero },
        }
    }

    /// The box of `area` in this representation; along each further axis it
    /// lies at zero and has no extent.
    pub open spec fn from_area2d_spec(area: Area2D<T>) -> Self
        where T: Add<Output = T> + Sub<Output = T> + Div<Output = T> + From<i8> + Copy
    {
        Bounds3D {
            center: Vector3 {
                x: area.lower_left.x.add_spec(area.width_spec().div_spec(T::from_spec(2i8))),
                y: area.lower_left.y.add_spec(area.height_spec().div_spec(T::from_spec(2i8))),
                z: T::from_spec(0i8),
            },
            extents: Vector3 {
                x: area.width_spec().div_spec(T::from_spec(2i8)),
                y: area.height_spec().div_spec(T::from_spec(2i8)),
                z: T::from_spec(0i8),
            },
        }
    }

    /// Whether each step of `from_area2d` is defined.
    pub open spec fn from_area2d_req(area: Area2D<T>) -> bool
        where T: Add<Output = T> + Sub<Output = T> + Div<Output = T> + From<i8> + Copy
    {
        &&& area.upper_right.x.sub_req(area.lower_left.x)
        &&& area.width_spec().div_req(T::from_spec(2i8))
        &&& area.lower_left.x.add_req(area.width_spec().div_spec(T::from_spec(2i8)))
        &&& area.upper_right.y.sub_req(area.lower_left.y)
        &&& area.height_spec().div_req(T::from_spec(2i8))
        &&& area.lower_left.y.add_req(area.height_spec().div_spec(T::from_spec(2i8)))
    }

    /// The box of `area` in this representation; along each further axis it
    /// lies at zero and has no extent.
    pub fn from_area2d(area: Area2D<T>) -> (r: Self)
        where T: Add<Output = T> + Sub<Output = T> + Div<Output = T> + From<i8> + Copy
        requires
            T::obeys_sub_spec(),
            T::obeys_div_spec(),
            T::obeys_from_spec(),
            Self::from_area2d_req(area),
        ensures
            T::obeys_add_spec() ==> r == Self::from_area2d_spec(area),
    {
        let two = T::from(2i8);
        let zero = T::from(0i8);
        Bounds3D {
            center: Vector3 {
                x: area.lower_left.x + (area.upper_right.x - area.lower_left.x) / two,
                y: area.lower_left.y + (area.upper_right.y - area.lower_left.y) / two,
                z: zero,
            },
            extents: Vector3 {
                x: (area.upper_right.x - area.lower_left.x) / two,
                y: (area.upper_right.y - area.lower_left.y) / two,
                z: zero,
            },
        }
    }

    /// Whether, along every axis, each of the two boxes begins before the other
    /// ends. Boxes that only touch do not overlap.
    pub open spec fn overlaps_area_spec(self, area: Area3D<T>) -> bool
        where T: PartialOrd + Add<Output = T> + Sub<Output = T> + Copy
    {
        &&& intervals_overlap(
            self.x_min_spec(),
            self.x_max_spec(),
            area.x_min_spec(),
            area.x_max_spec(),
        )
        &&& intervals_overlap(
            self.y_min_spec(),
            self.y_max_spec(),
            area.y_min_spec(),
            area.y_max_spec(),
        )
        &&& intervals_overlap(
            self.z_min_spec(),
            self.z_max_spec(),
            area.z_min_spec(),
            area.z_max_spec(),
        )
    }

    /// Whether, along every axis, each of the two boxes begins before the other
    /// ends. Boxes that only touch do not overlap.
    pub fn overlaps_area(&self, area: &Area3D<T>) -> (r: bool)
        where T: PartialOrd + Add<Output = T> + Sub<Output = T> + Copy
        requires
            self.corners_req(),
        ensures
            T::obeys_partial_cmp_spec() && T::obeys_add_spec() && T::obeys_sub_spec() ==>
                r == self.overlaps_area_spec(*area),
    {
        self.center.x - self.extents.x < area.upper_right.x
            && self.center.x + self.extents.x > area.lower_left.x
            && self.center.y - self.extents.y < area.upper_right.y
            && self.center.y + self.extents.y > area.lower_left.y
            && self.center.z - self.extents.z < area.upper_right.z
            && self.center.z + self.extents.z > area.lower_left.z
    }
}

} // verus!
