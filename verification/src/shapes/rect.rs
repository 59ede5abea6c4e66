//! Axis-aligned boxes in two dimensions, held as corner and size.

use vstd::prelude::*;
use vstd::std_specs::ops::{AddSpec, DivSpec, MulSpec, SubSpec};
use vstd::std_specs::convert::FromSpec;
use vstd::std_specs::cmp::{PartialOrdSpec, PartialOrdIs};
use core::ops::{Add, Div, Mul, Sub};
use crate::numeric::{intervals_overlap, larger, larger_spec, smaller, smaller_spec};
use crate::vectors::Vector2;
use super::area2d::Area2D;
use super::bounds2d::Bounds2D;
use super::area3d::Area3D;
use super::bounds3d::Bounds3D;
use super::area4d::Area4D;
use super::bounds4d::Bounds4D;
use super::circle::Circle;

verus! {

/// An axis-aligned rectangle held as its corner of least coordinates and its size
/// along each axis. A size may have any sign.
#[derive(Debug, Clone, Copy, PartialEq, Default)]
pub struct Rect<T> {
    pub x: T,
    pub y: T,
    pub width: T,
    pub height: T,
}

impl<T> Rect<T> {
    /// The box with its corner of least coordinates at the given place and of
    /// the given size.
    pub fn new(x: T, y: T, width: T, height: T) -> (r: Self)
        ensures
            r == (Rect { x, y, width, height }),
    {
        Rect { x, y, width, height }
    }

    /// The box with its corner of least coordinates at `position` and of the
    /// size `size`.
    pub fn new_vectors(position: Vector2<T>, size: Vector2<T>) -> (r: Self)
        ensures
            r == (Rect { x: position.x, y: position.y, width: size.x, height: size.y }),
    {
        Self::new(position.x, position.y, size.x, size.y)
    }

    /// Replaces the corner and the size.
    pub fn set(&mut self, x: T, y: T, width: T, height: T)
        ensures
            *final(self) == (Rect { x, y, width, height }),
    {
        self.x = x;
        self.y = y;
        self.width = width;
        self.height = height;
    }

    /// Replaces the corner by `position` and the size by `size`.
    pub fn set_vectors(&mut self, position: Vector2<T>, size: Vector2<T>)
        ensures
            *final(self) == (Rect { x: position.x, y: position.y, width: size.x, height: size.y }),
    {
        self.x = position.x;
        self.y = position.y;
        self.width = size.x;
        self.height = size.y;
    }

    /// The corner of least coordinates.
    pub fn get_position(&self) -> (r: Vector2<T>)
        where T: Copy
        ensures
            r == (Vector2 { x: self.x, y: self.y }),
    {
        Vector2::new(self.x, self.y)
    }

    /// Moves the box, its size unchanged, so that its corner of least
    /// coordinates is `position`.
    pub fn set_position(&mut self, position: Vector2<T>)
        where T: Copy
        ensures
            final(self).x == position.x,
            final(self).y == position.y,
            final(self).width == old(self).width,
            final(self).height == old(self).height,
    {
        self.x = position.x;
        self.y = position.y;
    }

    /// The size along every axis.
    pub fn get_size(&self) -> (r: Vector2<T>)
        where T: Copy
        ensures
            r == (Vector2 { x: self.width, y: self.height }),
    {
        Vector2::new(self.width, self.height)
    }

    /// Keeps the corner of least coordinates and gives the box the size `size`.
    pub fn set_size(&mut self, size: Vector2<T>)
        where T: Copy
        ensures
            final(self).x == old(self).x,
            final(self).y == old(self).y,
            final(self).width == size.x,
            final(self).height == size.y,
    {
        self.width = size.x;
        self.height = size.y;
    }

    /// The least `x` of the box.
    pub open spec fn x_min_spec(self) -> T
        where T: Copy
    {
        self.x
    }

    /// The greatest `x` of the box.
    pub open spec fn x_max_spec(self) -> T
        where T: Add<Output = T> + Copy
    {
        self.x.add_spec(self.width)
    }

    /// The least `y` of the box.
    pub open spec fn y_min_spec(self) -> T
        where T: Copy
    {
        self.y
    }

    /// The greatest `y` of the box.
    pub open spec fn y_max_spec(self) -> T
        where T: Add<Output = T> + Copy
    {
        self.y.add_spec(self.height)
    }

    /// Whether the least and the greatest coordinate are defined along every
    /// axis.
    pub open spec fn corners_req(self) -> bool
        where T: Add<Output = T> + Copy
    {
        &&& self.x.add_req(self.width)
        &&& self.y.add_req(self.height)
    }

    /// The point half a size past the corner along every axis.
    pub open spec fn center_spec(self) -> Vector2<T>
        where T: Add<Output = T> + Div<Output = T> + From<i8> + Copy
    {
        Vector2 {
            x: self.x.add_spec(self.width.div_spec(T::from_spec(2i8))),
            y: self.y.add_spec(self.height.div_spec(T::from_spec(2i8))),
        }
    }

    /// Whether each step of `get_center` is defined.
    pub open spec fn center_req(self) -> bool
        where T: Add<Output = T> + Div<Output = T> + From<i8> + Copy
    {
        &&& self.width.div_req(T::from_spec(2i8))
        &&& self.x.add_req(self.width.div_spec(T::from_spec(2i8)))
        &&& self.height.div_req(T::from_spec(2i8))
        &&& self.y.add_req(self.height.div_spec(T::from_spec(2i8)))
    }

    /// The point half a size past the corner along every axis.
    pub fn get_center(&self) -> (r: Vector2<T>)
        where T: Add<Output = T> + Div<Output = T> + From<i8> + Copy
        requires
            T::obeys_div_spec(),
            T::obeys_from_spec(),
            self.center_req(),
        ensures
            T::obeys_add_spec() ==> r == self.center_spec(),
    {
        let two = T::from(2i8);
        Vector2::new(self.x + self.width / two, self.y + self.height / two)
    }

    /// Moves the box, its size unchanged, so that `center` is its center.
    pub fn set_center(&mut self, center: Vector2<T>)
        where T: Sub<Output = T> + Div<Output = T> + From<i8> + Copy
        requires
            T::obeys_div_spec(),
            T::obeys_from_spec(),
            old(self).width.div_req(T::from_spec(2i8)),
            center.x.sub_req(old(self).width.div_spec(T::from_spec(2i8))),
            old(self).height.div_req(T::from_spec(2i8)),
            center.y.sub_req(old(self).height.div_spec(T::from_spec(2i8))),
        ensures
            T::obeys_sub_spec() ==>
                final(self).x == center.x.sub_spec(old(self).width.div_spec(T::from_spec(2i8))),
            T::obeys_sub_spec() ==>
                final(self).y == center.y.sub_spec(old(self).height.div_spec(T::from_spec(2i8))),
            final(self).width == old(self).width,
            final(self).height == old(self).height,
    {
        let two = T::from(2i8);
        let new_pos_x = center.x - self.width / two;
        let new_pos_y = center.y - self.height / two;
        self.x = new_pos_x;
        self.y = new_pos_y;
    }

    /// The least `x` of the box.
    pub fn get_x_min(&self) -> (r: T)
        where T: Copy
        ensures
            r == self.x_min_spec(),
    {
        self.x
    }

    /// Moves the box along `x`, its size unchanged, so that it begins at
    /// `x_min`.
    pub fn set_x_min(&mut self, x_min: T)
        where T: Copy
        ensures
            final(self).x == x_min,
            final(self).y == old(self).y,
            final(self).width == old(self).width,
            final(self).height == old(self).height,
    {
        self.x = x_min;
    }

    /// The greatest `x` of the box.
    pub fn get_x_max(&self) -> (r: T)
        where T: Add<Output = T> + Copy
        requires
            self.x.add_req(self.width),
        ensures
            T::obeys_add_spec() ==> r == self.x_max_spec(),
    {
        self.x + self.width
    }

    /// Keeps the corner and gives the box the size that ends it at `x_max`.
    pub fn set_x_max(&mut self, x_max: T)
        where T: Sub<Output = T> + Copy
        requires
            x_max.sub_req(old(self).x),
        ensures
            final(self).x == old(self).x,
            final(self).y == old(self).y,
            T::obeys_sub_spec() ==> final(self).width == x_max.sub_spec(old(self).x),
            final(self).height == old(self).height,
    {
        self.width = x_max - self.x;
    }

    /// The least `y` of the box.
    pub fn get_y_min(&self) -> (r: T)
        where T: Copy
        ensures
            r == self.y_min_spec(),
    {
        self.y
    }

    /// Moves the box along `y`, its size unchanged, so that it begins at
    /// `y_min`.
    pub fn set_y_min(&mut self, y_min: T)
        where T: Copy
        ensures
            final(self).x == old(self).x,
            final(self).y == y_min,
            final(self).width == old(self).width,
            final(self).height == old(self).height,
    {
        self.y = y_min;
    }

    /// The greatest `y` of the box.
    pub fn get_y_max(&self) -> (r: T)
        where T: Add<Output = T> + Copy
        requires
            self.y.add_req(self.height),
        ensures
            T::obeys_add_spec() ==> r == self.y_max_spec(),
    {
        self.y + self.height
    }

    /// Keeps the corner and gives the box the size that ends it at `y_max`.
    pub fn set_y_max(&mut self, y_max: T)
        where T: Sub<Output = T> + Copy
        requires
            y_max.sub_req(old(self).y),
        ensures
            final(self).x == old(self).x,
            final(self).y == old(self).y,
            final(self).width == old(self).width,
            T::obeys_sub_spec() ==> final(self).height == y_max.sub_spec(old(self).y),
    {
        self.height = y_max - self.y;
    }

    /// Whether `point` lies between the least and the greatest coordinate along
    /// every axis, the two included.
    pub open spec fn contains_spec(self, point: Vector2<T>) -> bool
        where T: PartialOrd + Add<Output = T> + Copy
    {
        &&& point.x.is_ge(&self.x_min_spec())
        &&& point.x.is_le(&self.x_max_spec())
        &&& point.y.is_ge(&self.y_min_spec())
        &&& point.y.is_le(&self.y_max_spec())
    }

    /// Whether `point` lies between the least and the greatest coordinate along
    /// every axis, the two included.
    pub fn contains(&self, point: Vector2<T>) -> (r: bool)
        where T: PartialOrd + Add<Output = T> + Copy
        requires
            self.corners_req(),
        ensures
            T::obeys_partial_cmp_spec() && T::obeys_add_spec() ==> r == self.contains_spec(point),
    {
        point.x >= self.x
            && point.x <= self.x + self.width
            && point.y >= self.y
            && point.y <= self.y + self.height
    }

    /// Whether, along every axis, each box begins before the other ends. Boxes
    /// that only touch do not overlap.
    pub open spec fn overlaps_spec(self, other: Self) -> bool
        where T: PartialOrd + Add<Output = T> + Copy
    {
        &&& intervals_overlap(
            self.x_min_spec(),
            self.x_max_spec(),
            other.x_min_spec(),
            other.x_max_spec(),
        )
        &&& intervals_overlap(
            self.y_min_spec(),
            self.y_max_spec(),
            other.y_min_spec(),
            other.y_max_spec(),
        )
    }

    /// Whether, along every axis, each box begins before the other ends. Boxes
    /// that only touch do not overlap.
    pub fn overlaps(&self, other: &Rect<T>) -> (r: bool)
        where T: PartialOrd + Add<Output = T> + Copy
        requires
            self.corners_req(),
            other.corners_req(),
        ensures
            T::obeys_partial_cmp_spec() && T::obeys_add_spec() ==> r == self.overlaps_spec(*other),
    {
        self.x < other.x + other.width
            && self.x + self.width > other.x
            && self.y < other.y + other.height
            && self.y + self.height > other.y
    }

    /// The box of `area` in this representation.
    pub open spec fn from_area_spec(area: Area2D<T>) -> Self
        where T: Sub<Output = T> + Copy
    {
        Rect {
            x: area.lower_left.x,
            y: area.lower_left.y,
            width: area.width_spec(),
            height: area.height_spec(),
        }
    }

    /// Whether each step of `from_area` is defined.
    pub open spec fn from_area_req(area: Area2D<T>) -> bool
        where T: Sub<Output = T> + Copy
    {
        &&& area.upper_right.x.sub_req(area.lower_left.x)
        &&& area.upper_right.y.sub_req(area.lower_left.y)
    }

    /// The box of `area` in this representation.
    pub fn from_area(area: Area2D<T>) -> (r: Self)
        where T: Sub<Output = T> + Copy
        requires
            Self::from_area_req(area),
        ensures
            T::obeys_sub_spec() ==> r == Self::from_area_spec(area),
    {
        Rect {
            x: area.lower_left.x,
            y: area.lower_left.y,
            width: area.upper_right.x - area.lower_left.x,
            height: area.upper_right.y - area.lower_left.y,
        }
    }

    /// The box of `bounds` in this representation.
    pub open spec fn from_bounds_spec(bounds: Bounds2D<T>) -> Self
        where T: Add<Output = T> + Sub<Output = T> + Copy
    {
        Rect {
            x: bounds.center.x.sub_spec(bounds.extents.x),
            y: bounds.center.y.sub_spec(bounds.extents.y),
            width: bounds.width_spec(),
            height: bounds.height_spec(),
        }
    }

    /// Whether each step of `from_bounds` is defined.
    pub open spec fn from_bounds_req(bounds: Bounds2D<T>) -> bool
        where T: Add<Output = T> + Sub<Output = T> + Copy
    {
        &&& bounds.center.x.sub_req(bounds.extents.x)
        &&& bounds.center.y.sub_req(bounds.extents.y)
        &&& bounds.extents.x.add_req(bounds.extents.x)
        &&& bounds.extents.y.add_req(bounds.extents.y)
    }

    /// The box of `bounds` in this representation.
    pub fn from_bounds(bounds: Bounds2D<T>) -> (r: Self)
        where T: Add<Output = T> + Sub<Output = T> + Copy
        requires
            Self::from_bounds_req(bounds),
        ensures
            T::obeys_add_spec() && T::obeys_sub_spec() ==> r == Self::from_bounds_spec(bounds),
    {
        Rect {
            x: bounds.center.x - bounds.extents.x,
            y: bounds.center.y - bounds.extents.y,
            width: bounds.extents.x + bounds.extents.x,
            height: bounds.extents.y + bounds.extents.y,
        }
    }

    /// The box of `area` in this representation, without its axes past `y`.
    pub open spec fn from_area3d_spec(area: Area3D<T>) -> Self
        where T: Sub<Output = T> + Copy
    {
        Rect {
            x: area.lower_left.x,
            y: area.lower_left.y,
            width: area.width_spec(),
            height: area.height_spec(),
        }
    }

    /// Whether each step of `from_area3d` is defined.
    pub open spec fn from_area3d_req(area: Area3D<T>) -> bool
        where T: Sub<Output = T> + Copy
    {
        &&& area.upper_right.x.sub_req(area.lower_left.x)
        &&& area.upper_right.y.sub_req(area.lower_left.y)
    }

    /// The box of `area` in this representation, without its axes past `y`.
    pub fn from_area3d(area: Area3D<T>) -> (r: Self)
        where T: Sub<Output = T> + Copy
        requires
            Self::from_area3d_req(area),
        ensures
            T::obeys_sub_spec() ==> r == Self::from_area3d_spec(area),
    {
        Rect {
            x: area.lower_left.x,
            y: area.lower_left.y,
            width: area.upper_right.x - area.lower_left.x,
            height: area.upper_right.y - area.lower_left.y,
        }
    }

    /// The box of `bounds` in this representation, without its axes past `y`.
    pub open spec fn from_bounds3d_spec(bounds: Bounds3D<T>) -> Self
        where T: Add<Output = T> + Sub<Output = T> + Copy
    {
        Rect {
            x: bounds.center.x.sub_spec(bounds.extents.x),
            y: bounds.center.y.sub_spec(bounds.extents.y),
            width: bounds.width_spec(),
            height: bounds.height_spec(),
        }
    }

    /// Whether each step of `from_bounds3d` is defined.
    pub open spec fn from_bounds3d_req(bounds: Bounds3D<T>) -> bool
        where T: Add<Output = T> + Sub<Output = T> + Copy
    {
        &&& bounds.center.x.sub_req(bounds.extents.x)
        &&& bounds.center.y.sub_req(bounds.extents.y)
        &&& bounds.extents.x.add_req(bounds.extents.x)
        &&& bounds.extents.y.add_req(bounds.extents.y)
    }

    /// The box of `bounds` in this representation, without its axes past `y`.
    pub fn from_bounds3d(bounds: Bounds3D<T>) -> (r: Self)
        where T: Add<Output = T> + Sub<Output = T> + Copy
        requires
            Self::from_bounds3d_req(bounds),
        ensures
            T::obeys_add_spec() && T::obeys_sub_spec() ==> r == Self::from_bounds3d_spec(bounds),
    {
        Rect {
            x: bounds.center.x - bounds.extents.x,
            y: bounds.center.y - bounds.extents.y,
            width: bounds.extents.x + bounds.extents.x,
            height: bounds.extents.y + bounds.extents.y,
        }
    }

    /// The box of `area` in this representation, without its axes past `y`.
    pub open spec fn from_area4d_spec(area: Area4D<T>) -> Self
        where T: Sub<Output = T> + Copy
    {
        Rect {
            x: area.lower_left.x,
            y: area.lower_left.y,
            width: area.width_spec(),
            height: area.height_spec(),
        }
    }

    /// Whether each step of `from_area4d` is defined.
    pub open spec fn from_area4d_req(area: Area4D<T>) -> bool
        where T: Sub<Output = T> + Copy
    {
        &&& area.upper_right.x.sub_req(area.lower_left.x)
        &&& area.upper_right.y.sub_req(area.lower_left.y)
    }

    /// The box of `area` in this representation, without its axes past `y`.
    pub fn from_area4d(area: Area4D<T>) -> (r: Self)
        where T: Sub<Output = T> + Copy
        requires
            Self::from_area4d_req(area),
        ensures
            T::obeys_sub_spec() ==> r == Self::from_area4d_spec(area),
    {
        Rect {
            x: area.lower_left.x,
            y: area.lower_left.y,
            width: area.upper_right.x - area.lower_left.x,
            height: area.upper_right.y - area.lower_left.y,
        }
    }

    /// The box of `bounds` in this representation, without its axes past `y`.
    pub open spec fn from_bounds4d_spec(bounds: Bounds4D<T>) -> Self
        where T: Add<Output = T> + Sub<Output = T> + Copy
    {
        Rect {
            x: bounds.center.x.sub_spec(bounds.extents.x),
            y: bounds.center.y.sub_spec(bounds.extents.y),
            width: bounds.width_spec(),
            height: bounds.height_spec(),
        }
    }

    /// Whether each step of `from_bounds4d` is defined.
    pub open spec fn from_bounds4d_req(bounds: Bounds4D<T>) -> bool
        where T: Add<Output = T> + Sub<Output = T> + Copy
    {
        &&& bounds.center.x.sub_req(bounds.extents.x)
        &&& bounds.center.y.sub_req(bounds.extents.y)
        &&& bounds.extents.x.add_req(bounds.extents.x)
        &&& bounds.extents.y.add_req(bounds.extents.y)
    }

    /// The box of `bounds` in this representation, without its axes past `y`.
    pub fn from_bounds4d(bounds: Bounds4D<T>) -> (r: Self)
        where T: Add<Output = T> + Sub<Output = T> + Copy
        requires
            Self::from_bounds4d_req(bounds),
        ensures
            T::obeys_add_spec() && T::obeys_sub_spec() ==> r == Self::from_bounds4d_spec(bounds),
    {
        Rect {
            x: bounds.center.x - bounds.extents.x,
            y: bounds.center.y - bounds.extents.y,
            width: bounds.extents.x + bounds.extents.x,
            height: bounds.extents.y + bounds.extents.y,
        }
    }

    /// Whether the box overlaps that of `area`, taken as a `Rect`.
    pub fn overlaps_area(&self, area: Area2D<T>) -> (r: bool)
        where T: PartialOrd + Add<Output = T> + Sub<Output = T> + Copy
        requires
            T::obeys_sub_spec(),
            self.corners_req(),
            Self::from_area_req(area),
            Self::from_area_spec(area).corners_req(),
        ensures
            T::obeys_partial_cmp_spec() && T::obeys_add_spec() ==>
                r == self.overlaps_spec(Self::from_area_spec(area)),
    {
        let other = Self::from_area(area);
        self.overlaps(&other)
    }

    /// Whether the box overlaps that of `bounds`, taken as a `Rect`.
    pub fn overlaps_bounds(&self, bounds: Bounds2D<T>) -> (r: bool)
        where T: PartialOrd + Add<Output = T> + Sub<Output = T> + Copy
        requires
            T::obeys_add_spec(),
            T::obeys_sub_spec(),
            self.corners_req(),
            Self::from_bounds_req(bounds),
            Self::from_bounds_spec(bounds).corners_req(),
        ensures
            T::obeys_partial_cmp_spec() ==>
                r == self.overlaps_spec(Self::from_bounds_spec(bounds)),
    {
        let other = Self::from_bounds(bounds);
        self.overlaps(&other)
    }

    /// The point of the box nearest to `point`: each coordinate of `point` held
    /// between the least and the greatest coordinate of the box.
    pub open spec fn nearest_spec(self, point: Vector2<T>) -> Vector2<T>
        where T: PartialOrd + Add<Output = T> + Copy
    {
        Vector2 {
            x: larger_spec(self.x, smaller_spec(point.x, self.x_max_spec())),
            y: larger_spec(self.y, smaller_spec(point.y, self.y_max_spec())),
        }
    }

    /// Whether the point of the box nearest to the center of `circle` lies
    /// within the circle, its rim included: the squared distance from that
    /// point to the center is at most the squared radius.
    pub open spec fn overlaps_circle_spec(self, circle: Circle<T>) -> bool
        where T: PartialOrd + Add<Output = T> + Sub<Output = T> + Mul<Output = T> + Copy
    {
        Vector2::sqr_distance_spec(self.nearest_spec(circle.center), circle.center).is_le(
            &circle.radius.mul_spec(circle.radius),
        )
    }

    /// Whether each step of `overlaps_circle` is defined.
    pub open spec fn overlaps_circle_req(self, circle: Circle<T>) -> bool
        where T: PartialOrd + Add<Output = T> + Sub<Output = T> + Mul<Output = T> + Copy
    {
        &&& self.corners_req()
        &&& Vector2::sqr_distance_req(self.nearest_spec(circle.center), circle.center)
        &&& circle.radius.mul_req(circle.radius)
    }

    /// Whether the point of the box nearest to the center of `circle` lies
    /// within the circle, its rim included: the squared distance from that
    /// point to the center is at most the squared radius.
    pub fn overlaps_circle(&self, circle: Circle<T>) -> (r: bool)
        where T: PartialOrd + Add<Output = T> + Sub<Output = T> + Mul<Output = T> + Copy
        requires
            T::obeys_partial_cmp_spec(),
            T::obeys_add_spec(),
            T::obeys_sub_spec(),
            T::obeys_mul_spec(),
            self.overlaps_circle_req(circle),
        ensures
            r == self.overlaps_circle_spec(circle),
    {
        let xn = larger(self.x, smaller(circle.center.x, self.get_x_max()));
        let yn = larger(self.y, smaller(circle.center.y, self.get_y_max()));
        let dx = xn - circle.center.x;
        let dy = yn - circle.center.y;
        (dx * dx + dy * dy) <= circle.radius * circle.radius
    }
}

} // verus!
