//! Axis-aligned boxes in three dimensions, held as corner and size.

use vstd::prelude::*;
use vstd::std_specs::ops::{AddSpec, DivSpec, SubSpec};
use vstd::std_specs::convert::FromSpec;
use vstd::std_specs::cmp::{PartialOrdSpec, PartialOrdIs};
use core::ops::{Add, Div, Sub};
use crate::numeric::intervals_overlap;
use crate::vectors::Vector3;
use super::area3d::Area3D;
use super::bounds3d::Bounds3D;

verus! {

/// An axis-aligned box held as its corner of least coordinates and its size
/// along each axis. A size may have any sign.
#[derive(Debug, Clone, Copy, PartialEq, Default)]
pub struct Cube<T> {
    pub x: T,
    pub y: T,
    pub z: T,
    pub width: T,
    pub height: T,
    pub depth: T,
}

impl<T> Cube<T> {
    /// The box with its corner of least coordinates at the given place and of
    /// the given size.
    pub fn new(x: T, y: T, z: T, width: T, height: T, depth: T) -> (r: Self)
        ensures
            r == (Cube { x, y, z, width, height, depth }),
    {
        Cube { x, y, z, width, height, depth }
    }

    /// The box with its corner of least coordinates at `position` and of the
    /// size `size`.
    pub fn new_vectors(position: Vector3<T>, size: Vector3<T>) -> (r: Self)
        ensures
            r == (Cube {
                x: position.x,
                y: position.y,
                z: position.z,
                width: size.x,
                height: size.y,
                depth: size.z,
            }),
    {
        Self::new(position.x, position.y, position.z, size.x, size.y, size.z)
    }

    /// Replaces the corner and the size.
    pub fn set(&mut self, x: T, y: T, z: T, width: T, height: T, depth: T)
        ensures
            *final(self) == (Cube { x, y, z, width, height, depth }),
    {
        self.x = x;
        self.y = y;
        self.z = z;
        self.width = width;
        self.height = height;
        self.depth = depth;
    }

    /// Replaces the corner by `position` and the size by `size`.
    pub fn set_vectors(&mut self, position: Vector3<T>, size: Vector3<T>)
        ensures
            *final(self) == (Cube {
                x: position.x,
                y: position.y,
                z: position.z,
                width: size.x,
                height: size.y,
                depth: size.z,
            }),
    {
        self.x = position.x;
        self.y = position.y;
        self.z = position.z;
        self.width = size.x;
        self.height = size.y;
        self.depth = size.z;
    }

    /// The corner of least coordinates.
    pub fn get_position(&self) -> (r: Vector3<T>)
        where T: Copy
        ensures
            r == (Vector3 { x: self.x, y: self.y, z: self.z }),
    {
        Vector3::new(self.x, self.y, self.z)
    }

    /// Moves the box, its size unchanged, so that its corner of least
    /// coordinates is `position`.
    pub fn set_position(&mut self, position: Vector3<T>)
        where T: Copy
        ensures
            final(self).x == position.x,
            final(self).y == position.y,
            final(self).z == position.z,
            final(self).width == old(self).width,
            final(self).height == old(self).height,
            final(self).depth == old(self).depth,
    {
        self.x = position.x;
        self.y = position.y;
        self.z = position.z;
    }

    /// The size along every axis.
    pub fn get_size(&self) -> (r: Vector3<T>)
        where T: Copy
        ensures
            r == (Vector3 { x: self.width, y: self.height, z: self.depth }),
    {
        Vector3::new(self.width, self.height, self.depth)
    }

    /// Keeps the corner of least coordinates and gives the box the size `size`.
    pub fn set_size(&mut self, size: Vector3<T>)
        where T: Copy
        ensures
            final(self).x == old(self).x,
            final(self).y == old(self).y,
            final(self).z == old(self).z,
            final(self).width == size.x,
            final(self).height == size.y,
            final(self).depth == size.z,
    {
        self.width = size.x;
        self.height = size.y;
        self.depth = size.z;
    }

    /// The least `x` of the box.
    pub open spec fn x_min_spec(self) -> T
        where T: Copy
    {
        self.x
    }

    /// The greatest `x` of the box.
    pub open spec fn x_max_spec(self) -> T
        where T: Add<Output = T> + Copy
    {
        self.x.add_spec(self.width)
    }

    /// The least `y` of the box.
    pub open spec fn y_min_spec(self) -> T
        where T: Copy
    {
        self.y
    }

    /// The greatest `y` of the box.
    pub open spec fn y_max_spec(self) -> T
        where T: Add<Output = T> + Copy
    {
        self.y.add_spec(self.height)
    }

    /// The least `z` of the box.
    pub open spec fn z_min_spec(self) -> T
        where T: Copy
    {
        self.z
    }

    /// The greatest `z` of the box.
    pub open spec fn z_max_spec(self) -> T
        where T: Add<Output = T> + Copy
    {
        self.z.add_spec(self.depth)
    }

    /// Whether the least and the greatest coordinate are defined along every
    /// axis.
    pub open spec fn corners_req(self) -> bool
        where T: Add<Output = T> + Copy
    {
        &&& self.x.add_req(self.width)
        &&& self.y.add_req(self.height)
        &&& self.z.add_req(self.depth)
    }

    /// The point half a size past the corner along every axis.
    pub open spec fn center_spec(self) -> Vector3<T>
        where T: Add<Output = T> + Div<Output = T> + From<i8> + Copy
    {
        Vector3 {
            x: self.x.add_spec(self.width.div_spec(T::from_spec(2i8))),
            y: self.y.add_spec(self.height.div_spec(T::from_spec(2i8))),
            z: self.z.add_spec(self.depth.div_spec(T::from_spec(2i8))),
        }
    }

    /// Whether each step of `get_center` is defined.
    pub open spec fn center_req(self) -> bool
        where T: Add<Output = T> + Div<Output = T> + From<i8> + Copy
    {
        &&& self.width.div_req(T::from_spec(2i8))
        &&& self.x.add_req(self.width.div_spec(T::from_spec(2i8)))
        &&& self.height.div_req(T::from_spec(2i8))
        &&& self.y.add_req(self.height.div_spec(T::from_spec(2i8)))
        &&& self.depth.div_req(T::from_spec(2i8))
        &&& self.z.add_req(self.depth.div_spec(T::from_spec(2i8)))
    }

    /// The point half a size past the corner along every axis.
    pub fn get_center(&self) -> (r: Vector3<T>)
        where T: Add<Output = T> + Div<Output = T> + From<i8> + Copy
        requires
            T::obeys_div_spec(),
            T::obeys_from_spec(),
            self.center_req(),
        ensures
            T::obeys_add_spec() ==> r == self.center_spec(),
    {
        let two = T::from(2i8);
        Vector3::new(
            self.x + self.width / two,
            self.y + self.height / two,
            self.z + self.depth / two,
        )
    }

    /// Moves the box, its size unchanged, so that `center` is its center.
    pub fn set_center(&mut self, center: Vector3<T>)
        where T: Sub<Output = T> + Div<Output = T> + From<i8> + Copy
        requires
            T::obeys_div_spec(),
            T::obeys_from_spec(),
            old(self).width.div_req(T::from_spec(2i8)),
            center.x.sub_req(old(self).width.div_spec(T::from_spec(2i8))),
            old(self).height.div_req(T::from_spec(2i8)),
            center.y.sub_req(old(self).height.div_spec(T::from_spec(2i8))),
            old(self).depth.div_req(T::from_spec(2i8)),
            center.z.sub_req(old(self).depth.div_spec(T::from_spec(2i8))),
        ensures
            T::obeys_sub_spec() ==>
                final(self).x == center.x.sub_spec(old(self).width.div_spec(T::from_spec(2i8))),
            T::obeys_sub_spec() ==>
                final(self).y == center.y.sub_spec(old(self).height.div_spec(T::from_spec(2i8))),
            T::obeys_sub_spec() ==>
                final(self).z == center.z.sub_spec(old(self).depth.div_spec(T::from_spec(2i8))),
            final(self).width == old(self).width,
            final(self).height == old(self).height,
            final(self).depth == old(self).depth,
    {
        let two = T::from(2i8);
        let new_pos_x = center.x - self.width / two;
        let new_pos_y = center.y - self.height / two;
        let new_pos_z = center.z - self.depth / two;
        self.x = new_pos_x;
        self.y = new_pos_y;
        self.z = new_pos_z;
    }

    /// The least `x` of the box.
    pub fn get_x_min(&self) -> (r: T)
        where T: Copy
        ensures
            r == self.x_min_spec(),
    {
        self.x
    }

    /// Moves the box along `x`, its size unchanged, so that it begins at
    /// `x_min`.
    pub fn set_x_min(&mut self, x_min: T)
        where T: Copy
        ensures
            final(self).x == x_min,
            final(self).y == old(self).y,
            final(self).z == old(self).z,
            final(self).width == old(self).width,
            final(self).height == old(self).height,
            final(self).depth == old(self).depth,
    {
        self.x = x_min;
    }

    /// The greatest `x` of the box.
    pub fn get_x_max(&self) -> (r: T)
        where T: Add<Output = T> + Copy
        requires
            self.x.add_req(self.width),
        ensures
            T::obeys_add_spec() ==> r == self.x_max_spec(),
    {
        self.x + self.width
    }

    /// Keeps the corner and gives the box the size that ends it at `x_max`.
    pub fn set_x_max(&mut self, x_max: T)
        where T: Sub<Output = T> + Copy
        requires
            x_max.sub_req(old(self).x),
        ensures
            final(self).x == old(self).x,
            final(self).y == old(self).y,
            final(self).z == old(self).z,
            T::obeys_sub_spec() ==> final(self).width == x_max.sub_spec(old(self).x),
            final(self).height == old(self).height,
            final(self).depth == old(self).depth,
    {
        self.width = x_max - self.x;
    }

    /// The least `y` of the box.
    pub fn get_y_min(&self) -> (r: T)
        where T: Copy
        ensures
            r == self.y_min_spec(),
    {
        self.y
    }

    /// Moves the box along `y`, its size unchanged, so that it begins at
    /// `y_min`.
    pub fn set_y_min(&mut self, y_min: T)
        where T: Copy
        ensures
            final(self).x == old(self).x,
            final(self).y == y_min,
            final(self).z == old(self).z,
            final(self).width == old(self).width,
            final(self).height == old(self).height,
            final(self).depth == old(self).depth,
    {
        self.y = y_min;
    }

    /// The greatest `y` of the box.
    pub fn get_y_max(&self) -> (r: T)
        where T: Add<Output = T> + Copy
        requires
            self.y.add_req(self.height),
        ensures
            T::obeys_add_spec() ==> r == self.y_max_spec(),
    {
        self.y + self.height
    }

    /// Keeps the corner and gives the box the size that ends it at `y_max`.
    pub fn set_y_max(&mut self, y_max: T)
        where T: Sub<Output = T> + Copy
        requires
            y_max.sub_req(old(self).y),
        ensures
            final(self).x == old(self).x,
            final(self).y == old(self).y,
            final(self).z == old(self).z,
            final(self).width == old(self).width,
            T::obeys_sub_spec() ==> final(self).height == y_max.sub_spec(old(self).y),
            final(self).depth == old(self).depth,
    {
        self.height = y_max - self.y;
    }

    /// The least `z` of the box.
    pub fn get_z_min(&self) -> (r: T)
        where T: Copy
        ensures
            r == self.z_min_spec(),
    {
        self.z
    }

    /// Moves the box along `z`, its size unchanged, so that it begins at
    /// `z_min`.
    pub fn set_z_min(&mut self, z_min: T)
        where T: Copy
        ensures
            final(self).x == old(self).x,
            final(self).y == old(self).y,
            final(self).z == z_min,
            final(self).width == old(self).width,
            final(self).height == old(self).height,
            final(self).depth == old(self).depth,
    {
        self.z = z_min;
    }

    /// The greatest `z` of the box.
    pub fn get_z_max(&self) -> (r: T)
        where T: Add<Output = T> + Copy
        requires
            self.z.add_req(self.depth),
        ensures
            T::obeys_add_spec() ==> r == self.z_max_spec(),
    {
        self.z + self.depth
    }

    /// Keeps the corner and gives the box the size that ends it at `z_max`.
    pub fn set_z_max(&mut self, z_max: T)
        where T: Sub<Output = T> + Copy
        requires
            z_max.sub_req(old(self).z),
        ensures
            final(self).x == old(self).x,
            final(self).y == old(self).y,
            final(self).z == old(self).z,
            final(self).width == old(self).width,
            final(self).height == old(self).height,
            T::obeys_sub_spec() ==> final(self).depth == z_max.sub_spec(old(self).z),
    {
        self.depth = z_max - self.z;
    }

    /// Whether `point` lies between the least and the greatest coordinate along
    /// every axis, the two included.
    pub open spec fn contains_spec(self, point: Vector3<T>) -> bool
        where T: PartialOrd + Add<Output = T> + Copy
    {
        &&& point.x.is_ge(&self.x_min_spec())
        &&& point.x.is_le(&self.x_max_spec())
        &&& point.y.is_ge(&self.y_min_spec())
        &&& point.y.is_le(&self.y_max_spec())
        &&& point.z.is_ge(&self.z_min_spec())
        &&& point.z.is_le(&self.z_max_spec())
    }

    /// Whether `point` lies between the least and the greatest coordinate along
    /// every axis, the two included.
    pub fn contains(&self, point: Vector3<T>) -> (r: bool)
        where T: PartialOrd + Add<Output = T> + Copy
        requires
            self.corners_req(),
        ensures
            T::obeys_partial_cmp_spec() && T::obeys_add_spec() ==> r == self.contains_spec(point),
    {
        point.x >= self.x
            && point.x <= self.x + self.width
            && point.y >= self.y
            && point.y <= self.y + self.height
            && point.z >= self.z
            && point.z <= self.z + self.depth
    }

    /// Whether, along every axis, each box begins before the other ends. Boxes
    /// that only touch do not overlap.
    pub open spec fn overlaps_spec(self, other: Self) -> bool
        where T: PartialOrd + Add<Output = T> + Copy
    {
        &&& intervals_overlap(
            self.x_min_spec(),
            self.x_max_spec(),
            other.x_min_spec(),
            other.x_max_spec(),
        )
        &&& intervals_overlap(
            self.y_min_spec(),
            self.y_max_spec(),
            other.y_min_spec(),
            other.y_max_spec(),
        )
        &&& intervals_overlap(
            self.z_min_spec(),
            self.z_max_spec(),
            other.z_min_spec(),
            other.z_max_spec(),
        )
    }

    /// Whether, along every axis, each box begins before the other ends. Boxes
    /// that only touch do not overlap.
    pub fn overlaps(&self, other: &Cube<T>) -> (r: bool)
        where T: PartialOrd + Add<Output = T> + Copy
        requires
            self.corners_req(),
            other.corners_req(),
        ensures
            T::obeys_partial_cmp_spec() && T::obeys_add_spec() ==> r == self.overlaps_spec(*other),
    {
        self.x < other.x + other.width
            && self.x + self.width > other.x
            && self.y < other.y + other.height
            && self.y + self.height > other.y
            && self.z < other.z + other.depth
            && self.z + self.depth > other.z
    }

    /// The box of `area` in this representation.
    pub open spec fn from_area_spec(area: Area3D<T>) -> Self
        where T: Sub<Output = T> + Copy
    {
        Cube {
            x: area.lower_left.x,
            y: area.lower_left.y,
            z: area.lower_left.z,
            width: area.width_spec(),
            height: area.height_spec(),
            depth: area.depth_spec(),
        }
    }

    /// Whether each step of `from_area` is defined.
    pub open spec fn from_area_req(area: Area3D<T>) -> bool
        where T: Sub<Output = T> + Copy
    {
        &&& area.upper_right.x.sub_req(area.lower_left.x)
        &&& area.upper_right.y.sub_req(area.lower_left.y)
        &&& area.upper_right.z.sub_req(area.lower_left.z)
    }

    /// The box of `area` in this representation.
    pub fn from_area(area: Area3D<T>) -> (r: Self)
        where T: Sub<Output = T> + Copy
        requires
            Self::from_area_req(area),
        ensures
            T::obeys_sub_spec() ==> r == Self::from_area_spec(area),
    {
        Cube {
            x: area.lower_left.x,
            y: area.lower_left.y,
            z: area.lower_left.z,
            width: area.upper_right.x - area.lower_left.x,
            height: area.upper_right.y - area.lower_left.y,
            depth: area.upper_right.z - area.lower_left.z,
        }
    }

    /// The box of `bounds` in this representation.
    pub open spec fn from_bounds_spec(bounds: Bounds3D<T>) -> Self
        where T: Add<Output = T> + Sub<Output = T> + Copy
    {
        Cube {
            x: bounds.center.x.sub_spec(bounds.extents.x),
            y: bounds.center.y.sub_spec(bounds.extents.y),
            z: bounds.center.z.sub_spec(bounds.extents.z),
            width: bounds.width_spec(),
            height: bounds.height_spec(),
            depth: bounds.depth_spec(),
        }
    }

    /// Whether each step of `from_bounds` is defined.
    pub open spec fn from_bounds_req(bounds: Bounds3D<T>) -> bool
        where T: Add<Output = T> + Sub<Output = T> + Copy
    {
        &&& bounds.center.x.sub_req(bounds.extents.x)
        &&& bounds.center.y.sub_req(bounds.extents.y)
        &&& bounds.center.z.sub_req(bounds.extents.z)
        &&& bounds.extents.x.add_req(bounds.extents.x)
        &&& bounds.extents.y.add_req(bounds.extents.y)
        &&& bounds.extents.z.add_req(bounds.extents.z)
    }

    /// The box of `bounds` in this representation.
    pub fn from_bounds(bounds: Bounds3D<T>) -> (r: Self)
        where T: Add<Output = T> + Sub<Output = T> + Copy
        requires
            Self::from_bounds_req(bounds),
        ensures
            T::obeys_add_spec() && T::obeys_sub_spec() ==> r == Self::from_bounds_spec(bounds),
    {
        Cube {
            x: bounds.center.x - bounds.extents.x,
            y: bounds.center.y - bounds.extents.y,
            z: bounds.center.z - bounds.extents.z,
            width: bounds.extents.x + bounds.extents.x,
            height: bounds.extents.y + bounds.extents.y,
            depth: bounds.extents.z + bounds.extents.z,
        }
    }

    /// Whether the box overlaps that of `area`, taken as a `Cube`.
    pub fn overlaps_area(&self, area: Area3D<T>) -> (r: bool)
        where T: PartialOrd + Add<Output = T> + Sub<Output = T> + Copy
        requires
            T::obeys_sub_spec(),
            self.corners_req(),
            Self::from_area_req(area),
            Self::from_area_spec(area).corners_req(),
        ensures
            T::obeys_partial_cmp_spec() && T::obeys_add_spec() ==>
                r == self.overlaps_spec(Self::from_area_spec(area)),
    {
        let other = Self::from_area(area);
        self.overlaps(&other)
    }

    /// Whether the box overlaps that of `bounds`, taken as a `Cube`.
    pub fn overlaps_bounds(&self, bounds: Bounds3D<T>) -> (r: bool)
        where T: PartialOrd + Add<Output = T> + Sub<Output = T> + Copy
        requires
            T::obeys_add_spec(),
            T::obeys_sub_spec(),
            self.corners_req(),
            Self::from_bounds_req(bounds),
            Self::from_bounds_spec(bounds).corners_req(),
        ensures
            T::obeys_partial_cmp_spec() ==>
                r == self.overlaps_spec(Self::from_bounds_spec(bounds)),
    {
        let other = Self::from_bounds(bounds);
        self.overlaps(&other)
    }
}

} // verus!
