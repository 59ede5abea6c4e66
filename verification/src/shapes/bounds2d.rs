//! Axis-aligned boxes in two dimensions, held as center and extents.

use vstd::prelude::*;
use vstd::std_specs::ops::{AddSpec, DivSpec, MulSpec, SubSpec};
use vstd::std_specs::convert::FromSpec;
use vstd::std_specs::cmp::{PartialOrdSpec, PartialOrdIs};
use core::ops::{Add, Div, Mul, Sub};
use crate::numeric::{half_excess_req, half_excess_spec, intervals_overlap};
use crate::vectors::Vector2;
use super::rect::Rect;
use super::area2d::Area2D;
use super::area3d::Area3D;
use super::bounds3d::Bounds3D;
use super::area4d::Area4D;
use super::bounds4d::Bounds4D;
use super::circle::Circle;

verus! {

/// An axis-aligned box held as its center and, along each axis, its extent:
/// half its size. An extent may have any sign.
#[derive(Debug, Clone, Copy, PartialEq, Default)]
pub struct Bounds2D<T> {
    pub center: Vector2<T>,
    pub extents: Vector2<T>,
}

impl<T> Bounds2D<T> {
    /// The box with the given center and extents.
    pub fn new(center_x: T, center_y: T, extents_x: T, extents_y: T) -> (r: Self)
        ensures
            r == (Bounds2D {
                center: Vector2 { x: center_x, y: center_y },
                extents: Vector2 { x: extents_x, y: extents_y },
            }),
    {
        Self::new_vectors(
            Vector2::new(center_x, center_y),
            Vector2::new(extents_x, extents_y),
        )
    }

    /// The box with the center `center` and the extents `extents`.
    pub fn new_vectors(center: Vector2<T>, extents: Vector2<T>) -> (r: Self)
        ensures
            r == (Bounds2D { center, extents }),
    {
        Bounds2D { center, extents }
    }

    /// Replaces the center and the extents.
    pub fn set(&mut self, center_x: T, center_y: T, extents_x: T, extents_y: T)
        ensures
            *final(self) == (Bounds2D {
                center: Vector2 { x: center_x, y: center_y },
                extents: Vector2 { x: extents_x, y: extents_y },
            }),
    {
        self.center.x = center_x;
        self.center.y = center_y;
        self.extents.x = extents_x;
        self.extents.y = extents_y;
    }

    /// Replaces the center by `center` and the extents by `extents`.
    pub fn set_vectors(&mut self, center: Vector2<T>, extents: Vector2<T>)
        ensures
            *final(self) == (Bounds2D { center, extents }),
    {
        self.center = center;
        self.extents = extents;
    }

    /// The least `x` of the box.
    pub open spec fn x_min_spec(self) -> T
        where T: Sub<Output = T> + Copy
    {
        self.center.x.sub_spec(self.extents.x)
    }

    /// The greatest `x` of the box.
    pub open spec fn x_max_spec(self) -> T
        where T: Add<Output = T> + Copy
    {
        self.center.x.add_spec(self.extents.x)
    }

    /// The least `y` of the box.
    pub open spec fn y_min_spec(self) -> T
        where T: Sub<Output = T> + Copy
    {
        self.center.y.sub_spec(self.extents.y)
    }

    /// The greatest `y` of the box.
    pub open spec fn y_max_spec(self) -> T
        where T: Add<Output = T> + Copy
    {
        self.center.y.add_spec(self.extents.y)
    }

    /// Whether the least and the greatest coordinate are defined along every
    /// axis.
    pub open spec fn corners_req(self) -> bool
        where T: Add<Output = T> + Sub<Output = T> + Copy
    {
        &&& self.center.x.sub_req(self.extents.x)
        &&& self.center.y.sub_req(self.extents.y)
        &&& self.center.x.add_req(self.extents.x)
        &&& self.center.y.add_req(self.extents.y)
    }

    /// The least `x` of the box.
    pub fn get_x_min(&self) -> (r: T)
        where T: Sub<Output = T> + Copy
        requires
            self.center.x.sub_req(self.extents.x),
        ensures
            T::obeys_sub_spec() ==> r == self.x_min_spec(),
    {
        self.center.x - self.extents.x
    }

    /// Moves the box, its extents unchanged, so that it begins at `x_min`.
    pub fn set_x_min(&mut self, x_min: T)
        where T: Add<Output = T> + Copy
        requires
            x_min.add_req(old(self).extents.x),
        ensures
            T::obeys_add_spec() ==> final(self).center.x == x_min.add_spec(old(self).extents.x),
            final(self).center.y == old(self).center.y,
            final(self).extents == old(self).extents,
    {
        self.center.x = x_min + self.extents.x;
    }

    /// The greatest `x` of the box.
    pub fn get_x_max(&self) -> (r: T)
        where T: Add<Output = T> + Copy
        requires
            self.center.x.add_req(self.extents.x),
        ensures
            T::obeys_add_spec() ==> r == self.x_max_spec(),
    {
        self.center.x + self.extents.x
    }

    /// Moves the box, its extents unchanged, so that it ends at `x_max`.
    pub fn set_x_max(&mut self, x_max: T)
        where T: Sub<Output = T> + Copy
        requires
            x_max.sub_req(old(self).extents.x),
        ensures
            T::obeys_sub_spec() ==> final(self).center.x == x_max.sub_spec(old(self).extents.x),
            final(self).center.y == old(self).center.y,
            final(self).extents == old(self).extents,
    {
        self.center.x = x_max - self.extents.x;
    }

    /// The least `y` of the box.
    pub fn get_y_min(&self) -> (r: T)
        where T: Sub<Output = T> + Copy
        requires
            self.center.y.sub_req(self.extents.y),
        ensures
            T::obeys_sub_spec() ==> r == self.y_min_spec(),
    {
        self.center.y - self.extents.y
    }

    /// Moves the box, its extents unchanged, so that it begins at `y_min`.
    pub fn set_y_min(&mut self, y_min: T)
        where T: Add<Output = T> + Copy
        requires
            y_min.add_req(old(self).extents.y),
        ensures
            final(self).center.x == old(self).center.x,
            T::obeys_add_spec() ==> final(self).center.y == y_min.add_spec(old(self).extents.y),
            final(self).extents == old(self).extents,
    {
        self.center.y = y_min + self.extents.y;
    }

    /// The greatest `y` of the box.
    pub fn get_y_max(&self) -> (r: T)
        where T: Add<Output = T> + Copy
        requires
            self.center.y.add_req(self.extents.y),
        ensures
            T::obeys_add_spec() ==> r == self.y_max_spec(),
    {
        self.center.y + self.extents.y
    }

    /// Moves the box, its extents unchanged, so that it ends at `y_max`.
    pub fn set_y_max(&mut self, y_max: T)
        where T: Sub<Output = T> + Copy
        requires
            y_max.sub_req(old(self).extents.y),
        ensures
            final(self).center.x == old(self).center.x,
            T::obeys_sub_spec() ==> final(self).center.y == y_max.sub_spec(old(self).extents.y),
            final(self).extents == old(self).extents,
    {
        self.center.y = y_max - self.extents.y;
    }

    /// The size of the box along `x`: twice its extent.
    pub open spec fn width_spec(self) -> T
        where T: Add<Output = T> + Copy
    {
        self.extents.x.add_spec(self.extents.x)
    }

    /// The size of the box along `x`: twice its extent.
    pub fn get_width(&self) -> (r: T)
        where T: Add<Output = T> + Copy
        requires
            self.extents.x.add_req(self.extents.x),
        ensures
            T::obeys_add_spec() ==> r == self.width_spec(),
    {
        self.extents.x + self.extents.x
    }

    /// The box that `set_width` leaves.
    pub open spec fn with_width_spec(self, width: T) -> Self
        where T: Add<Output = T> + Sub<Output = T> + Div<Output = T> + From<i8> + Copy
    {
        Bounds2D {
            center: Vector2 {
                x: self.center.x,
                y: self.center.y,
            },
            extents: Vector2 {
                x: self.extents.x.sub_spec(half_excess_spec(self.width_spec(), width)),
                y: self.extents.y,
            },
        }
    }

    /// Whether each step of `set_width` is defined.
    pub open spec fn with_width_req(self, width: T) -> bool
        where T: Add<Output = T> + Sub<Output = T> + Div<Output = T> + From<i8> + Copy
    {
        &&& self.extents.x.add_req(self.extents.x)
        &&& half_excess_req(self.width_spec(), width)
        &&& self.extents.x.sub_req(half_excess_spec(self.width_spec(), width))
    }

    /// Gives the box the size `width` along `x` about its center: half of what
    /// the size has too much is taken from the extent.
    pub fn set_width(&mut self, width: T)
        where T: Add<Output = T> + Sub<Output = T> + Div<Output = T> + From<i8> + Copy
        requires
            T::obeys_add_spec(),
            T::obeys_sub_spec(),
            T::obeys_div_spec(),
            T::obeys_from_spec(),
            old(self).with_width_req(width),
        ensures
            *final(self) == old(self).with_width_spec(width),
    {
        let two = T::from(2i8);
        let half_delta = (self.extents.x + self.extents.x - width) / two;
        self.extents.x = self.extents.x - half_delta;
    }

    /// The size of the box along `y`: twice its extent.
    pub open spec fn height_spec(self) -> T
        where T: Add<Output = T> + Copy
    {
        self.extents.y.add_spec(self.extents.y)
    }

    /// The size of the box along `y`: twice its extent.
    pub fn get_height(&self) -> (r: T)
        where T: Add<Output = T> + Copy
        requires
            self.extents.y.add_req(self.extents.y),
        ensures
            T::obeys_add_spec() ==> r == self.height_spec(),
    {
        self.extents.y + self.extents.y
    }

    /// The box that `set_height` leaves.
    pub open spec fn with_height_spec(self, height: T) -> Self
        where T: Add<Output = T> + Sub<Output = T> + Div<Output = T> + From<i8> + Copy
    {
        Bounds2D {
            center: Vector2 {
                x: self.center.x,
                y: self.center.y,
            },
            extents: Vector2 {
                x: self.extents.x,
                y: self.extents.y.sub_spec(half_excess_spec(self.height_spec(), height)),
            },
        }
    }

    /// Whether each step of `set_height` is defined.
    pub open spec fn with_height_req(self, height: T) -> bool
        where T: Add<Output = T> + Sub<Output = T> + Div<Output = T> + From<i8> + Copy
    {
        &&& self.extents.y.add_req(self.extents.y)
        &&& half_excess_req(self.height_spec(), height)
        &&& self.extents.y.sub_req(half_excess_spec(self.height_spec(), height))
    }

    /// Gives the box the size `height` along `y` about its center: half of what
    /// the size has too much is taken from the extent.
    pub fn set_height(&mut self, height: T)
        where T: Add<Output = T> + Sub<Output = T> + Div<Output = T> + From<i8> + Copy
        requires
            T::obeys_add_spec(),
            T::obeys_sub_spec(),
            T::obeys_div_spec(),
            T::obeys_from_spec(),
            old(self).with_height_req(height),
        ensures
            *final(self) == old(self).with_height_spec(height),
    {
        let two = T::from(2i8);
        let half_delta = (self.extents.y + self.extents.y - height) / two;
        self.extents.y = self.extents.y - half_delta;
    }

    /// The size of the box along every axis.
    pub open spec fn size_spec(self) -> Vector2<T>
        where T: Add<Output = T> + Copy
    {
        Vector2 { x: self.width_spec(), y: self.height_spec() }
    }

    /// Whether the size is defined along every axis.
    pub open spec fn size_req(self) -> bool
        where T: Add<Output = T> + Copy
    {
        &&& self.extents.x.add_req(self.extents.x)
        &&& self.extents.y.add_req(self.extents.y)
    }

    /// The size of the box along every axis.
    pub fn get_size(&self) -> (r: Vector2<T>)
        where T: Add<Output = T> + Copy
        requires
            self.size_req(),
        ensures
            T::obeys_add_spec() ==> r == self.size_spec(),
    {
        Vector2::new(self.extents.x + self.extents.x, self.extents.y + self.extents.y)
    }

    /// The box that `set_size` leaves.
    pub open spec fn with_size_spec(self, size_x: T, size_y: T) -> Self
        where T: Add<Output = T> + Sub<Output = T> + Div<Output = T> + From<i8> + Copy
    {
        Bounds2D {
            center: Vector2 {
                x: self.center.x,
                y: self.center.y,
            },
            extents: Vector2 {
                x: self.extents.x.sub_spec(half_excess_spec(self.width_spec(), size_x)),
                y: self.extents.y.sub_spec(half_excess_spec(self.height_spec(), size_y)),
            },
        }
    }

    /// Whether each step of `set_size` is defined.
    pub open spec fn with_size_req(self, size_x: T, size_y: T) -> bool
        where T: Add<Output = T> + Sub<Output = T> + Div<Output = T> + From<i8> + Copy
    {
        &&& self.extents.x.add_req(self.extents.x)
        &&& half_excess_req(self.width_spec(), size_x)
        &&& self.extents.x.sub_req(half_excess_spec(self.width_spec(), size_x))
        &&& self.extents.y.add_req(self.extents.y)
        &&& half_excess_req(self.height_spec(), size_y)
        &&& self.extents.y.sub_req(half_excess_spec(self.height_spec(), size_y))
    }

    /// Gives the box the size `size_x` along `x`, and so on, about its center,
    /// along every axis as `set_width` does along `x`.
    pub fn set_size(&mut self, size_x: T, size_y: T)
        where T: Add<Output = T> + Sub<Output = T> + Div<Output = T> + From<i8> + Copy
        requires
            T::obeys_add_spec(),
            T::obeys_sub_spec(),
            T::obeys_div_spec(),
            T::obeys_from_spec(),
            old(self).with_size_req(size_x, size_y),
        ensures
            *final(self) == old(self).with_size_spec(size_x, size_y),
    {
        let two = T::from(2i8);
        let half_delta_x = (self.extents.x + self.extents.x - size_x) / two;
        let half_delta_y = (self.extents.y + self.extents.y - size_y) / two;
        self.extents.x = self.extents.x - half_delta_x;
        self.extents.y = self.extents.y - half_delta_y;
    }

    /// Whether `point` lies strictly between the least and the greatest
    /// coordinate along every axis.
    pub open spec fn contains_spec(self, point: Vector2<T>) -> bool
        where T: PartialOrd + Add<Output = T> + Sub<Output = T> + Copy
    {
        &&& self.x_min_spec().is_lt(&point.x)
        &&& self.x_max_spec().is_gt(&point.x)
        &&& self.y_min_spec().is_lt(&point.y)
        &&& self.y_max_spec().is_gt(&point.y)
    }

    /// Whether `point` lies strictly between the least and the greatest
    /// coordinate along every axis.
    pub fn contains(&self, point: Vector2<T>) -> (r: bool)
        where T: PartialOrd + Add<Output = T> + Sub<Output = T> + Copy
        requires
            self.corners_req(),
        ensures
            T::obeys_partial_cmp_spec() && T::obeys_add_spec() && T::obeys_sub_spec() ==>
                r == self.contains_spec(point),
    {
        self.center.x - self.extents.x < point.x
            && self.center.x + self.extents.x > point.x
            && self.center.y - self.extents.y < point.y
            && self.center.y + self.extents.y > point.y
    }

    /// Whether, along every axis, each box begins before the other ends. Boxes
    /// that only touch do not overlap.
    pub open spec fn overlaps_spec(self, other: Self) -> bool
        where T: PartialOrd + Add<Output = T> + Sub<Output = T> + Copy
    {
        &&& intervals_overlap(
            self.x_min_spec(),
            self.x_max_spec(),
            other.x_min_spec(),
            other.x_max_spec(),
        )
        &&& intervals_overlap(
            self.y_min_spec(),
            self.y_max_spec(),
            other.y_min_spec(),
            other.y_max_spec(),
        )
    }

    /// Whether, along every axis, each box begins before the other ends. Boxes
    /// that only touch do not overlap.
    pub fn overlaps(&self, other: &Bounds2D<T>) -> (r: bool)
        where T: PartialOrd + Add<Output = T> + Sub<Output = T> + Copy
        requires
            self.corners_req(),
            other.corners_req(),
        ensures
            T::obeys_partial_cmp_spec() && T::obeys_add_spec() && T::obeys_sub_spec() ==>
                r == self.overlaps_spec(*other),
    {
        self.center.x - self.extents.x < other.center.x + other.extents.x
            && self.center.x + self.extents.x > other.center.x - other.extents.x
            && self.center.y - self.extents.y < other.center.y + other.extents.y
            && self.center.y + self.extents.y > other.center.y - other.extents.y
    }

    /// The box of `rect` in this representation.
    pub open spec fn from_rect_spec(rect: Rect<T>) -> Self
        where T: Add<Output = T> + Div<Output = T> + From<i8> + Copy
    {
        Bounds2D {
            center: Vector2 {
                x: rect.x.add_spec(rect.width.div_spec(T::from_spec(2i8))),
                y: rect.y.add_spec(rect.height.div_spec(T::from_spec(2i8))),
            },
            extents: Vector2 {
                x: rect.width.div_spec(T::from_spec(2i8)),
                y: rect.height.div_spec(T::from_spec(2i8)),
            },
        }
    }

    /// Whether each step of `from_rect` is defined.
    pub open spec fn from_rect_req(rect: Rect<T>) -> bool
        where T: Add<Output = T> + Div<Output = T> + From<i8> + Copy
    {
        &&& rect.width.div_req(T::from_spec(2i8))
        &&& rect.x.add_req(rect.width.div_spec(T::from_spec(2i8)))
        &&& rect.height.div_req(T::from_spec(2i8))
        &&& rect.y.add_req(rect.height.div_spec(T::from_spec(2i8)))
    }

    /// The box of `rect` in this representation.
    pub fn from_rect(rect: Rect<T>) -> (r: Self)
        where T: Add<Output = T> + Div<Output = T> + From<i8> + Copy
        requires
            T::obeys_div_spec(),
            T::obeys_from_spec(),
            Self::from_rect_req(rect),
        ensures
            T::obeys_add_spec() ==> r == Self::from_rect_spec(rect),
    {
        let two = T::from(2i8);
        Bounds2D {
            center: Vector2 { x: rect.x + rect.width / two, y: rect.y + rect.height / two },
            extents: Vector2 { x: rect.width / two, y: rect.height / two },
        }
    }

    /// The box of `area` in this representation.
    pub open spec fn from_area_spec(area: Area2D<T>) -> Self
        where T: Add<Output = T> + Sub<Output = T> + Div<Output = T> + From<i8> + Copy
    {
        Bounds2D {
            center: Vector2 {
                x: area.lower_left.x.add_spec(area.width_spec().div_spec(T::from_spec(2i8))),
                y: area.lower_left.y.add_spec(area.height_spec().div_spec(T::from_spec(2i8))),
            },
            extents: Vector2 {
                x: area.width_spec().div_spec(T::from_spec(2i8)),
                y: area.height_spec().div_spec(T::from_spec(2i8)),
            },
        }
    }

    /// Whether each step of `from_area` is defined.
    pub open spec fn from_area_req(area: Area2D<T>) -> bool
        where T: Add<Output = T> + Sub<Output = T> + Div<Output = T> + From<i8> + Copy
    {
        &&& area.upper_right.x.sub_req(area.lower_left.x)
        &&& area.width_spec().div_req(T::from_spec(2i8))
        &&& area.lower_left.x.add_req(area.width_spec().div_spec(T::from_spec(2i8)))
        &&& area.upper_right.y.sub_req(area.lower_left.y)
        &&& area.height_spec().div_req(T::from_spec(2i8))
        &&& area.lower_left.y.add_req(area.height_spec().div_spec(T::from_spec(2i8)))
    }

    /// The box of `area` in this representation.
    pub fn from_area(area: Area2D<T>) -> (r: Self)
        where T: Add<Output = T> + Sub<Output = T> + Div<Output = T> + From<i8> + Copy
        requires
            T::obeys_sub_spec(),
            T::obeys_div_spec(),
            T::obeys_from_spec(),
            Self::from_area_req(area),
        ensures
            T::obeys_add_spec() ==> r == Self::from_area_spec(area),
    {
        let two = T::from(2i8);
        Bounds2D {
            center: Vector2 {
                x: area.lower_left.x + (area.upper_right.x - area.lower_left.x) / two,
                y: area.lower_left.y + (area.upper_right.y - area.lower_left.y) / two,
            },
            extents: Vector2 {
                x: (area.upper_right.x - area.lower_left.x) / two,
                y: (area.upper_right.y - area.lower_left.y) / two,
            },
        }
    }

    /// The box of `bounds` in this representation, without its axes past `y`.
    pub open spec fn from_bounds3d_spec(bounds: Bounds3D<T>) -> Self
        where T: Copy
    {
        Bounds2D {
            center: Vector2 { x: bounds.center.x, y: bounds.center.y },
            extents: Vector2 { x: bounds.extents.x, y: bounds.extents.y },
        }
    }

    /// The box of `bounds` in this representation, without its axes past `y`.
    pub fn from_bounds3d(bounds: Bounds3D<T>) -> (r: Self)
        where T: Copy
        ensures
            r == Self::from_bounds3d_spec(bounds),
    {
        Bounds2D {
            center: Vector2 { x: bounds.center.x, y: bounds.center.y },
            extents: Vector2 { x: bounds.extents.x, y: bounds.extents.y },
        }
    }

    /// The box of `area` in this representation, without its axes past `y`.
    pub open spec fn from_area3d_spec(area: Area3D<T>) -> Self
        where T: Add<Output = T> + Sub<Output = T> + Div<Output = T> + From<i8> + Copy
    {
        Bounds2D {
            center: Vector2 {
                x: area.lower_left.x.add_spec(area.upper_right.x).div_spec(T::from_spec(2i8)),
                y: area.lower_left.y.add_spec(area.upper_right.y).div_spec(T::from_spec(2i8)),
            },
            extents: Vector2 {
                x: area.width_spec().div_spec(T::from_spec(2i8)),
                y: area.height_spec().div_spec(T::from_spec(2i8)),
            },
        }
    }

    /// Whether each step of `from_area3d` is defined.
    pub open spec fn from_area3d_req(area: Area3D<T>) -> bool
        where T: Add<Output = T> + Sub<Output = T> + Div<Output = T> + From<i8> + Copy
    {
        &&& area.lower_left.x.add_req(area.upper_right.x)
        &&& area.lower_left.x.add_spec(area.upper_right.x).div_req(T::from_spec(2i8))
        &&& area.lower_left.y.add_req(area.upper_right.y)
        &&& area.lower_left.y.add_spec(area.upper_right.y).div_req(T::from_spec(2i8))
        &&& area.upper_right.x.sub_req(area.lower_left.x)
        &&& area.width_spec().div_req(T::from_spec(2i8))
        &&& area.upper_right.y.sub_req(area.lower_left.y)
        &&& area.height_spec().div_req(T::from_spec(2i8))
    }

    /// The box of `area` in this representation, without its axes past `y`.
    pub fn from_area3d(area: Area3D<T>) -> (r: Self)
        where T: Add<Output = T> + Sub<Output = T> + Div<Output = T> + From<i8> + Copy
        requires
            T::obeys_add_spec(),
            T::obeys_sub_spec(),
            T::obeys_from_spec(),
            Self::from_area3d_req(area),
        ensures
            T::obeys_div_spec() ==> r == Self::from_area3d_spec(area),
    {
        let two = T::from(2i8);
        Bounds2D {
            center: Vector2 {
                x: (area.lower_left.x + area.upper_right.x) / two,
                y: (area.lower_left.y + area.upper_right.y) / two,
            },
            extents: Vector2 {
                x: (area.upper_right.x - area.lower_left.x) / two,
                y: (area.upper_right.y - area.lower_left.y) / two,
            },
        }
    }

    /// The box of `bounds` in this representation, without its axes past `y`.
    pub open spec fn from_bounds4d_spec(bounds: Bounds4D<T>) -> Self
        where T: Copy
    {
        Bounds2D {
            center: Vector2 { x: bounds.center.x, y: bounds.center.y },
            extents: Vector2 { x: bounds.extents.x, y: bounds.extents.y },
        }
    }

    /// The box of `bounds` in this representation, without its axes past `y`.
    pub fn from_bounds4d(bounds: Bounds4D<T>) -> (r: Self)
        where T: Copy
        ensures
            r == Self::from_bounds4d_spec(bounds),
    {
        Bounds2D {
            center: Vector2 { x: bounds.center.x, y: bounds.center.y },
            extents: Vector2 { x: bounds.extents.x, y: bounds.extents.y },
        }
    }

    /// The box of `area` in this representation, without its axes past `y`.
    pub open spec fn from_area4d_spec(area: Area4D<T>) -> Self
        where T: Add<Output = T> + Sub<Output = T> + Div<Output = T> + From<i8> + Copy
    {
        Bounds2D {
            center: Vector2 {
                x: area.lower_left.x.add_spec(area.upper_right.x).div_spec(T::from_spec(2i8)),
                y: area.lower_left.y.add_spec(area.upper_right.y).div_spec(T::from_spec(2i8)),
            },
            extents: Vector2 {
                x: area.width_spec().div_spec(T::from_spec(2i8)),
                y: area.height_spec().div_spec(T::from_spec(2i8)),
            },
        }
    }

    /// Whether each step of `from_area4d` is defined.
    pub open spec fn from_area4d_req(area: Area4D<T>) -> bool
        where T: Add<Output = T> + Sub<Output = T> + Div<Output = T> + From<i8> + Copy
    {
        &&& area.lower_left.x.add_req(area.upper_right.x)
        &&& area.lower_left.x.add_spec(area.upper_right.x).div_req(T::from_spec(2i8))
        &&& area.lower_left.y.add_req(area.upper_right.y)
        &&& area.lower_left.y.add_spec(area.upper_right.y).div_req(T::from_spec(2i8))
        &&& area.upper_right.x.sub_req(area.lower_left.x)
        &&& area.width_spec().div_req(T::from_spec(2i8))
        &&& area.upper_right.y.sub_req(area.lower_left.y)
        &&& area.height_spec().div_req(T::from_spec(2i8))
    }

    /// The box of `area` in this representation, without its axes past `y`.
    pub fn from_area4d(area: Area4D<T>) -> (r: Self)
        where T: Add<Output = T> + Sub<Output = T> + Div<Output = T> + From<i8> + Copy
        requires
            T::obeys_add_spec(),
            T::obeys_sub_spec(),
            T::obeys_from_spec(),
            Self::from_area4d_req(area),
        ensures
            T::obeys_div_spec() ==> r == Self::from_area4d_spec(area),
    {
        let two = T::from(2i8);
        Bounds2D {
            center: Vector2 {
                x: (area.lower_left.x + area.upper_right.x) / two,
                y: (area.lower_left.y + area.upper_right.y) / two,
            },
            extents: Vector2 {
                x: (area.upper_right.x - area.lower_left.x) / two,
                y: (area.upper_right.y - area.lower_left.y) / two,
            },
        }
    }

    /// Whether, along every axis, each of the two boxes begins before the other
    /// ends. Boxes that only touch do not overlap.
    pub open spec fn overlaps_rect_spec(self, rect: Rect<T>) -> bool
        where T: PartialOrd + Add<Output = T> + Sub<Output = T> + Copy
    {
        &&& intervals_overlap(
            self.x_min_spec(),
            self.x_max_spec(),
            rect.x_min_spec(),
            rect.x_max_spec(),
        )
        &&& intervals_overlap(
            self.y_min_spec(),
            self.y_max_spec(),
            rect.y_min_spec(),
            rect.y_max_spec(),
        )
    }

    /// Whether, along every axis, each of the two boxes begins before the other
    /// ends. Boxes that only touch do not overlap.
    pub fn overlaps_rect(&self, rect: &Rect<T>) -> (r: bool)
        where T: PartialOrd + Add<Output = T> + Sub<Output = T> + Copy
        requires
            self.corners_req(),
            rect.corners_req(),
        ensures
            T::obeys_partial_cmp_spec() && T::obeys_add_spec() && T::obeys_sub_spec() ==>
                r == self.overlaps_rect_spec(*rect),
    {
        self.center.x - self.extents.x < rect.x + rect.width
            && self.center.x + self.extents.x > rect.x
            && self.center.y - self.extents.y < rect.y + rect.height
            && self.center.y + self.extents.y > rect.y
    }

    /// Whether, along every axis, each of the two boxes begins before the other
    /// ends. Boxes that only touch do not overlap.
    pub open spec fn overlaps_area_spec(self, area: Area2D<T>) -> bool
        where T: PartialOrd + Add<Output = T> + Sub<Output = T> + Copy
    {
        &&& intervals_overlap(
            self.x_min_spec(),
            self.x_max_spec(),
            area.x_min_spec(),
            area.x_max_spec(),
        )
        &&& intervals_overlap(
            self.y_min_spec(),
            self.y_max_spec(),
            area.y_min_spec(),
            area.y_max_spec(),
        )
    }

    /// Whether, along every axis, each of the two boxes begins before the other
    /// ends. Boxes that only touch do not overlap.
    pub fn overlaps_area(&self, area: &Area2D<T>) -> (r: bool)
        where T: PartialOrd + Add<Output = T> + Sub<Output = T> + Copy
        requires
            self.corners_req(),
        ensures
            T::obeys_partial_cmp_spec() && T::obeys_add_spec() && T::obeys_sub_spec() ==>
                r == self.overlaps_area_spec(*area),
    {
        self.center.x - self.extents.x < area.upper_right.x
            && self.center.x + self.extents.x > area.lower_left.x
            && self.center.y - self.extents.y < area.upper_right.y
            && self.center.y + self.extents.y > area.lower_left.y
    }

    /// Whether the box, taken as a `Rect`, overlaps `circle`.
    pub fn overlaps_circle(&self, circle: Circle<T>) -> (r: bool)
        where T: PartialOrd + Add<Output = T> + Sub<Output = T> + Mul<Output = T> + Copy
        requires
            T::obeys_partial_cmp_spec(),
            T::obeys_add_spec(),
            T::obeys_sub_spec(),
            T::obeys_mul_spec(),
            Rect::from_bounds_req(*self),
            Rect::from_bounds_spec(*self).overlaps_circle_req(circle),
        ensures
            r == Rect::from_bounds_spec(*self).overlaps_circle_spec(circle),
    {
        let rect = Rect::from_bounds(*self);
        rect.overlaps_circle(circle)
    }
}

} // verus!
