//! Axis-aligned boxes in four dimensions, held as center and extents.

use vstd::prelude::*;
use vstd::std_specs::ops::{AddSpec, DivSpec, SubSpec};
use vstd::std_specs::convert::FromSpec;
use vstd::std_specs::cmp::{PartialOrdSpec, PartialOrdIs};
use core::ops::{Add, Div, Sub};
use crate::numeric::{half_excess_req, half_excess_spec, intervals_overlap};
use crate::vectors::Vector4;
use super::area4d::Area4D;

verus! {

/// An axis-aligned box held as its center and, along each axis, its extent:
/// half its size. An extent may have any sign.
#[derive(Debug, Clone, Copy, PartialEq, Default)]
pub struct Bounds4D<T> {
    pub center: Vector4<T>,
    pub extents: Vector4<T>,
}

impl<T> Bounds4D<T> {
    /// The box with the given center and extents.
    pub fn new(
        center_x: T,
        center_y: T,
        center_z: T,
        center_w: T,
        extents_x: T,
        extents_y: T,
        extents_z: T,
        extents_w: T,
    ) -> (r: Self)
        ensures
            r == (Bounds4D {
                center: Vector4 { x: center_x, y: center_y, z: center_z, w: center_w },
                extents: Vector4 { x: extents_x, y: extents_y, z: extents_z, w: extents_w },
            }),
    {
        Self::new_vectors(
            Vector4::new(center_x, center_y, center_z, center_w),
            Vector4::new(extents_x, extents_y, extents_z, extents_w),
        )
    }

    /// The box with the center `center` and the extents `extents`.
    pub fn new_vectors(center: Vector4<T>, extents: Vector4<T>) -> (r: Self)
        ensures
            r == (Bounds4D { center, extents }),
    {
        Bounds4D { center, extents }
    }

    /// Replaces the center and the extents.
    pub fn set(
        &mut self,
        center_x: T,
        center_y: T,
        center_z: T,
        center_w: T,
        extents_x: T,
        extents_y: T,
        extents_z: T,
        extents_w: T,
    )
        ensures
            *final(self) == (Bounds4D {
                center: Vector4 { x: center_x, y: center_y, z: center_z, w: center_w },
                extents: Vector4 { x: extents_x, y: extents_y, z: extents_z, w: extents_w },
            }),
    {
        self.center.x = center_x;
        self.center.y = center_y;
        self.center.z = center_z;
        self.center.w = center_w;
        self.extents.x = extents_x;
        self.extents.y = extents_y;
        self.extents.z = extents_z;
        self.extents.w = extents_w;
    }

    /// Replaces the center by `center` and the extents by `extents`.
    pub fn set_vectors(&mut self, center: Vector4<T>, extents: Vector4<T>)
        ensures
            *final(self) == (Bounds4D { center, extents }),
    {
        self.center = center;
        self.extents = extents;
    }

    /// The least `x` of the box.
    pub open spec fn x_min_spec(self) -> T
        where T: Sub<Output = T> + Copy
    {
        self.center.x.sub_spec(self.extents.x)
    }

    /// The greatest `x` of the box.
    pub open spec fn x_max_spec(self) -> T
        where T: Add<Output = T> + Copy
    {
        self.center.x.add_spec(self.extents.x)
    }

    /// The least `y` of the box.
    pub open spec fn y_min_spec(self) -> T
        where T: Sub<Output = T> + Copy
    {
        self.center.y.sub_spec(self.extents.y)
    }

    /// The greatest `y` of the box.
    pub open spec fn y_max_spec(self) -> T
        where T: Add<Output = T> + Copy
    {
        self.center.y.add_spec(self.extents.y)
    }

    /// The least `z` of the box.
    pub open spec fn z_min_spec(self) -> T
        where T: Sub<Output = T> + Copy
    {
        self.center.z.sub_spec(self.extents.z)
    }

    /// The greatest `z` of the box.
    pub open spec fn z_max_spec(self) -> T
        where T: Add<Output = T> + Copy
    {
        self.center.z.add_spec(self.extents.z)
    }

    /// The least `w` of the box.
    pub open spec fn w_min_spec(self) -> T
        where T: Sub<Output = T> + Copy
    {
        self.center.w.sub_spec(self.extents.w)
    }

    /// The greatest `w` of the box.
    pub open spec fn w_max_spec(self) -> T
        where T: Add<Output = T> + Copy
    {
        self.center.w.add_spec(self.extents.w)
    }

    /// Whether the least and the greatest coordinate are defined along every
    /// axis.
    pub open spec fn corners_req(self) -> bool
        where T: Add<Output = T> + Sub<Output = T> + Copy
    {
        &&& self.center.x.sub_req(self.extents.x)
        &&& self.center.y.sub_req(self.extents.y)
        &&& self.center.z.sub_req(self.extents.z)
        &&& self.center.w.sub_req(self.extents.w)
        &&& self.center.x.add_req(self.extents.x)
        &&& self.center.y.add_req(self.extents.y)
        &&& self.center.z.add_req(self.extents.z)
        &&& self.center.w.add_req(self.extents.w)
    }

    /// The least `x` of the box.
    pub fn get_x_min(&self) -> (r: T)
        where T: Sub<Output = T> + Copy
        requires
            self.center.x.sub_req(self.extents.x),
        ensures
            T::obeys_sub_spec() ==> r == self.x_min_spec(),
    {
        self.center.x - self.extents.x
    }

    /// Moves the box, its extents unchanged, so that it begins at `x_min`.
    pub fn set_x_min(&mut self, x_min: T)
        where T: Add<Output = T> + Copy
        requires
            x_min.add_req(old(self).extents.x),
        ensures
            T::obeys_add_spec() ==> final(self).center.x == x_min.add_spec(old(self).extents.x),
            final(self).center.y == old(self).center.y,
            final(self).center.z == old(self).center.z,
            final(self).center.w == old(self).center.w,
            final(self).extents == old(self).extents,
    {
        self.center.x = x_min + self.extents.x;
    }

    /// The greatest `x` of the box.
    pub fn get_x_max(&self) -> (r: T)
        where T: Add<Output = T> + Copy
        requires
            self.center.x.add_req(self.extents.x),
        ensures
            T::obeys_add_spec() ==> r == self.x_max_spec(),
    {
        self.center.x + self.extents.x
    }

    /// Moves the box, its extents unchanged, so that it ends at `x_max`.
    pub fn set_x_max(&mut self, x_max: T)
        where T: Sub<Output = T> + Copy
        requires
            x_max.sub_req(old(self).extents.x),
        ensures
            T::obeys_sub_spec() ==> final(self).center.x == x_max.sub_spec(old(self).extents.x),
            final(self).center.y == old(self).center.y,
            final(self).center.z == old(self).center.z,
            final(self).center.w == old(self).center.w,
            final(self).extents == old(self).extents,
    {
        self.center.x = x_max - self.extents.x;
    }

    /// The least `y` of the box.
    pub fn get_y_min(&self) -> (r: T)
        where T: Sub<Output = T> + Copy
        requires
            self.center.y.sub_req(self.extents.y),
        ensures
            T::obeys_sub_spec() ==> r == self.y_min_spec(),
    {
        self.center.y - self.extents.y
    }

    /// Moves the box, its extents unchanged, so that it begins at `y_min`.
    pub fn set_y_min(&mut self, y_min: T)
        where T: Add<Output = T> + Copy
        requires
            y_min.add_req(old(self).extents.y),
        ensures
            final(self).center.x == old(self).center.x,
            T::obeys_add_spec() ==> final(self).center.y == y_min.add_spec(old(self).extents.y),
            final(self).center.z == old(self).center.z,
            final(self).center.w == old(self).center.w,
            final(self).extents == old(self).extents,
    {
        self.center.y = y_min + self.extents.y;
    }

    /// The greatest `y` of the box.
    pub fn get_y_max(&self) -> (r: T)
        where T: Add<Output = T> + Copy
        requires
            self.center.y.add_req(self.extents.y),
        ensures
            T::obeys_add_spec() ==> r == self.y_max_spec(),
    {
        self.center.y + self.extents.y
    }

    /// Moves the box, its extents unchanged, so that it ends at `y_max`.
    pub fn set_y_max(&mut self, y_max: T)
        where T: Sub<Output = T> + Copy
        requires
            y_max.sub_req(old(self).extents.y),
        ensures
            final(self).center.x == old(self).center.x,
            T::obeys_sub_spec() ==> final(self).center.y == y_max.sub_spec(old(self).extents.y),
            final(self).center.z == old(self).center.z,
            final(self).center.w == old(self).center.w,
            final(self).extents == old(self).extents,
    {
        self.center.y = y_max - self.extents.y;
    }

    /// The least `z` of the box.
    pub fn get_z_min(&self) -> (r: T)
        where T: Sub<Output = T> + Copy
        requires
            self.center.z.sub_req(self.extents.z),
        ensures
            T::obeys_sub_spec() ==> r == self.z_min_spec(),
    {
        self.center.z - self.extents.z
    }

    /// Moves the box, its extents unchanged, so that it begins at `z_min`.
    pub fn set_z_min(&mut self, z_min: T)
        where T: Add<Output = T> + Copy
        requires
            z_min.add_req(old(self).extents.z),
        ensures
            final(self).center.x == old(self).center.x,
            final(self).center.y == old(self).center.y,
            T::obeys_add_spec() ==> final(self).center.z == z_min.add_spec(old(self).extents.z),
            final(self).center.w == old(self).center.w,
            final(self).extents == old(self).extents,
    {
        self.center.z = z_min + self.extents.z;
    }

    /// The greatest `z` of the box.
    pub fn get_z_max(&self) -> (r: T)
        where T: Add<Output = T> + Copy
        requires
            self.center.z.add_req(self.extents.z),
        ensures
            T::obeys_add_spec() ==> r == self.z_max_spec(),
    {
        self.center.z + self.extents.z
    }

    /// Moves the box, its extents unchanged, so that it ends at `z_max`.
    pub fn set_z_max(&mut self, z_max: T)
        where T: Sub<Output = T> + Copy
        requires
            z_max.sub_req(old(self).extents.z),
        ensures
            final(self).center.x == old(self).center.x,
            final(self).center.y == old(self).center.y,
            T::obeys_sub_spec() ==> final(self).center.z == z_max.sub_spec(old(self).extents.z),
            final(self).center.w == old(self).center.w,
            final(self).extents == old(self).extents,
    {
        self.center.z = z_max - self.extents.z;
    }

    /// The least `w` of the box.
    pub fn get_w_min(&self) -> (r: T)
        where T: Sub<Output = T> + Copy
        requires
            self.center.w.sub_req(self.extents.w),
        ensures
            T::obeys_sub_spec() ==> r == self.w_min_spec(),
    {
        self.center.w - self.extents.w
    }

    /// Moves the box, its extents unchanged, so that it begins at `w_min`.
    pub fn set_w_min(&mut self, w_min: T)
        where T: Add<Output = T> + Copy
        requires
            w_min.add_req(old(self).extents.w),
        ensures
            final(self).center.x == old(self).center.x,
            final(self).center.y == old(self).center.y,
            final(self).center.z == old(self).center.z,
            T::obeys_add_spec() ==> final(self).center.w == w_min.add_spec(old(self).extents.w),
            final(self).extents == old(self).extents,
    {
        self.center.w = w_min + self.extents.w;
    }

    /// The greatest `w` of the box.
    pub fn get_w_max(&self) -> (r: T)
        where T: Add<Output = T> + Copy
        requires
            self.center.w.add_req(self.extents.w),
        ensures
            T::obeys_add_spec() ==> r == self.w_max_spec(),
    {
        self.center.w + self.extents.w
    }

    /// Moves the box, its extents unchanged, so that it ends at `w_max`.
    pub fn set_w_max(&mut self, w_max: T)
        where T: Sub<Output = T> + Copy
        requires
            w_max.sub_req(old(self).extents.w),
        ensures
            final(self).center.x == old(self).center.x,
            final(self).center.y == old(self).center.y,
            final(self).center.z == old(self).center.z,
            T::obeys_sub_spec() ==> final(self).center.w == w_max.sub_spec(old(self).extents.w),
            final(self).extents == old(self).extents,
    {
        self.center.w = w_max - self.extents.w;
    }

    /// The size of the box along `x`: twice its extent.
    pub open spec fn width_spec(self) -> T
        where T: Add<Output = T> + Copy
    {
        self.extents.x.add_spec(self.extents.x)
    }

    /// The size of the box along `x`: twice its extent.
    pub fn get_width(&self) -> (r: T)
        where T: Add<Output = T> + Copy
        requires
            self.extents.x.add_req(self.extents.x),
        ensures
            T::obeys_add_spec() ==> r == self.width_spec(),
    {
        self.extents.x + self.extents.x
    }

    /// The box that `set_width` leaves.
    pub open spec fn with_width_spec(self, width: T) -> Self
        where T: Add<Output = T> + Sub<Output = T> + Div<Output = T> + From<i8> + Copy
    {
        Bounds4D {
            center: Vector4 {
                x: self.center.x,
                y: self.center.y,
                z: self.center.z,
                w: self.center.w,
            },
            extents: Vector4 {
                x: self.extents.x.sub_spec(half_excess_spec(self.width_spec(), width)),
                y: self.extents.y,
                z: self.extents.z,
                w: self.extents.w,
            },
        }
    }

    /// Whether each step of `set_width` is defined.
    pub open spec fn with_width_req(self, width: T) -> bool
        where T: Add<Output = T> + Sub<Output = T> + Div<Output = T> + From<i8> + Copy
    {
        &&& self.extents.x.add_req(self.extents.x)
        &&& half_excess_req(self.width_spec(), width)
        &&& self.extents.x.sub_req(half_excess_spec(self.width_spec(), width))
    }

    /// Gives the box the size `width` along `x` about its center: half of what
    /// the size has too much is taken from the extent.
    pub fn set_width(&mut self, width: T)
        where T: Add<Output = T> + Sub<Output = T> + Div<Output = T> + From<i8> + Copy
        requires
            T::obeys_add_spec(),
            T::obeys_sub_spec(),
            T::obeys_div_spec(),
            T::obeys_from_spec(),
            old(self).with_width_req(width),
        ensures
            *final(self) == old(self).with_width_spec(width),
    {
        let two = T::from(2i8);
        let half_delta = (self.extents.x + self.extents.x - width) / two;
        self.extents.x = self.extents.x - half_delta;
    }

    /// The size of the box along `y`: twice its extent.
    pub open spec fn height_spec(self) -> T
        where T: Add<Output = T> + Copy
    {
        self.extents.y.add_spec(self.extents.y)
    }

    /// The size of the box along `y`: twice its extent.
    pub fn get_height(&self) -> (r: T)
        where T: Add<Output = T> + Copy
        requires
            self.extents.y.add_req(self.extents.y),
        ensures
            T::obeys_add_spec() ==> r == self.height_spec(),
    {
        self.extents.y + self.extents.y
    }

    /// The box that `set_height` leaves.
    pub open spec fn with_height_spec(self, height: T) -> Self
        where T: Add<Output = T> + Sub<Output = T> + Div<Output = T> + From<i8> + Copy
    {
        Bounds4D {
            center: Vector4 {
                x: self.center.x,
                y: self.center.y,
                z: self.center.z,
                w: self.center.w,
            },
            extents: Vector4 {
                x: self.extents.x,
                y: self.extents.y.sub_spec(half_excess_spec(self.height_spec(), height)),
                z: self.extents.z,
                w: self.extents.w,
            },
        }
    }

    /// Whether each step of `set_height` is defined.
    pub open spec fn with_height_req(self, height: T) -> bool
        where T: Add<Output = T> + Sub<Output = T> + Div<Output = T> + From<i8> + Copy
    {
        &&& self.extents.y.add_req(self.extents.y)
        &&& half_excess_req(self.height_spec(), height)
        &&& self.extents.y.sub_req(half_excess_spec(self.height_spec(), height))
    }

    /// Gives the box the size `height` along `y` about its center: half of what
    /// the size has too much is taken from the extent.
    pub fn set_height(&mut self, height: T)
        where T: Add<Output = T> + Sub<Output = T> + Div<Output = T> + From<i8> + Copy
        requires
            T::obeys_add_spec(),
            T::obeys_sub_spec(),
            T::obeys_div_spec(),
            T::obeys_from_spec(),
            old(self).with_height_req(height),
        ensures
            *final(self) == old(self).with_height_spec(height),
    {
        let two = T::from(2i8);
        let half_delta = (self.extents.y + self.extents.y - height) / two;
        self.extents.y = self.extents.y - half_delta;
    }

    /// The size of the box along `z`: twice its extent.
    pub open spec fn depth_spec(self) -> T
        where T: Add<Output = T> + Copy
    {
        self.extents.z.add_spec(self.extents.z)
    }

    /// The size of the box along `z`: twice its extent.
    pub fn get_depth(&self) -> (r: T)
        where T: Add<Output = T> + Copy
        requires
            self.extents.z.add_req(self.extents.z),
        ensures
            T::obeys_add_spec() ==> r == self.depth_spec(),
    {
        self.extents.z + self.extents.z
    }

    /// The box that `set_depth` leaves.
    pub open spec fn with_depth_spec(self, depth: T) -> Self
        where T: Add<Output = T> + Sub<Output = T> + Div<Output = T> + From<i8> + Copy
    {
        Bounds4D {
            center: Vector4 {
                x: self.center.x,
                y: self.center.y,
                z: self.center.z,
                w: self.center.w,
            },
            extents: Vector4 {
                x: self.extents.x,
                y: self.extents.y,
                z: self.extents.z.sub_spec(half_excess_spec(self.depth_spec(), depth)),
                w: self.extents.w,
            },
        }
    }

    /// Whether each step of `set_depth` is defined.
    pub open spec fn with_depth_req(self, depth: T) -> bool
        where T: Add<Output = T> + Sub<Output = T> + Div<Output = T> + From<i8> + Copy
    {
        &&& self.extents.z.add_req(self.extents.z)
        &&& half_excess_req(self.depth_spec(), depth)
        &&& self.extents.z.sub_req(half_excess_spec(self.depth_spec(), depth))
    }

    /// Gives the box the size `depth` along `z` about its center: half of what
    /// the size has too much is taken from the extent.
    pub fn set_depth(&mut self, depth: T)
        where T: Add<Output = T> + Sub<Output = T> + Div<Output = T> + From<i8> + Copy
        requires
            T::obeys_add_spec(),
            T::obeys_sub_spec(),
            T::obeys_div_spec(),
            T::obeys_from_spec(),
            old(self).with_depth_req(depth),
        ensures
            *final(self) == old(self).with_depth_spec(depth),
    {
        let two = T::from(2i8);
        let half_delta = (self.extents.z + self.extents.z - depth) / two;
        self.extents.z = self.extents.z - half_delta;
    }

    /// The size of the box along `w`: twice its extent.
    pub open spec fn hyper_depth_spec(self) -> T
        where T: Add<Output = T> + Copy
    {
        self.extents.w.add_spec(self.extents.w)
    }

    /// The size of the box along `w`: twice its extent.
    pub fn get_hyper_depth(&self) -> (r: T)
        where T: Add<Output = T> + Copy
        requires
            self.extents.w.add_req(self.extents.w),
        ensures
            T::obeys_add_spec() ==> r == self.hyper_depth_spec(),
    {
        self.extents.w + self.extents.w
    }

    /// The box that `set_hyper_depth` leaves.
    pub open spec fn with_hyper_depth_spec(self, hyper_depth: T) -> Self
        where T: Add<Output = T> + Sub<Output = T> + Div<Output = T> + From<i8> + Copy
    {
        Bounds4D {
            center: Vector4 {
                x: self.center.x,
                y: self.center.y,
                z: self.center.z,
                w: self.center.w,
            },
            extents: Vector4 {
                x: self.extents.x,
                y: self.extents.y,
                z: self.extents.z,
                w: self.extents.w.sub_spec(half_excess_spec(self.hyper_depth_spec(), hyper_depth)),
            },
        }
    }

    /// Whether each step of `set_hyper_depth` is defined.
    pub open spec fn with_hyper_depth_req(self, hyper_depth: T) -> bool
        where T: Add<Output = T> + Sub<Output = T> + Div<Output = T> + From<i8> + Copy
    {
        &&& self.extents.w.add_req(self.extents.w)
        &&& half_excess_req(self.hyper_depth_spec(), hyper_depth)
        &&& self.extents.w.sub_req(half_excess_spec(self.hyper_depth_spec(), hyper_depth))
    }

    /// Gives the box the size `hyper_depth` along `w` about its center: half of
    /// what the size has too much is taken from the extent.
    pub fn set_hyper_depth(&mut self, hyper_depth: T)
        where T: Add<Output = T> + Sub<Output = T> + Div<Output = T> + From<i8> + Copy
        requires
            T::obeys_add_spec(),
            T::obeys_sub_spec(),
            T::obeys_div_spec(),
            T::obeys_from_spec(),
            old(self).with_hyper_depth_req(hyper_depth),
        ensures
            *final(self) == old(self).with_hyper_depth_spec(hyper_depth),
    {
        let two = T::from(2i8);
        let half_delta = (self.extents.w + self.extents.w - hyper_depth) / two;
        self.extents.w = self.extents.w - half_delta;
    }

    /// The size of the box along every axis.
    pub open spec fn size_spec(self) -> Vector4<T>
        where T: Add<Output = T> + Copy
    {
        Vector4 {
            x: self.width_spec(),
            y: self.height_spec(),
            z: self.depth_spec(),
            w: self.hyper_depth_spec(),
        }
    }

    /// Whether the size is defined along every axis.
    pub open spec fn size_req(self) -> bool
        where T: Add<Output = T> + Copy
    {
        &&& self.extents.x.add_req(self.extents.x)
        &&& self.extents.y.add_req(self.extents.y)
        &&& self.extents.z.add_req(self.extents.z)
        &&& self.extents.w.add_req(self.extents.w)
    }

    /// The size of the box along every axis.
    pub fn get_size(&self) -> (r: Vector4<T>)
        where T: Add<Output = T> + Copy
        requires
            self.size_req(),
        ensures
            T::obeys_add_spec() ==> r == self.size_spec(),
    {
        Vector4::new(
            self.extents.x + self.extents.x,
            self.extents.y + self.extents.y,
            self.extents.z + self.extents.z,
            self.extents.w + self.extents.w,
        )
    }

    /// The box that `set_size` leaves.
    pub open spec fn with_size_spec(self, size_x: T, size_y: T, size_z: T, size_w: T) -> Self
        where T: Add<Output = T> + Sub<Output = T> + Div<Output = T> + From<i8> + Copy
    {
        Bounds4D {
            center: Vector4 {
                x: self.center.x,
                y: self.center.y,
                z: self.center.z,
                w: self.center.w,
            },
            extents: Vector4 {
                x: self.extents.x.sub_spec(half_excess_spec(self.width_spec(), size_x)),
                y: self.extents.y.sub_spec(half_excess_spec(self.height_spec(), size_y)),
                z: self.extents.z.sub_spec(half_excess_spec(self.depth_spec(), size_z)),
                w: self.extents.w.sub_spec(half_excess_spec(self.hyper_depth_spec(), size_w)),
            },
        }
    }

    /// Whether each step of `set_size` is defined.
    pub open spec fn with_size_req(self, size_x: T, size_y: T, size_z: T, size_w: T) -> bool
        where T: Add<Output = T> + Sub<Output = T> + Div<Output = T> + From<i8> + Copy
    {
        &&& self.extents.x.add_req(self.extents.x)
        &&& half_excess_req(self.width_spec(), size_x)
        &&& self.extents.x.sub_req(half_excess_spec(self.width_spec(), size_x))
        &&& self.extents.y.add_req(self.extents.y)
        &&& half_excess_req(self.height_spec(), size_y)
        &&& self.extents.y.sub_req(half_excess_spec(self.height_spec(), size_y))
        &&& self.extents.z.add_req(self.extents.z)
        &&& half_excess_req(self.depth_spec(), size_z)
        &&& self.extents.z.sub_req(half_excess_spec(self.depth_spec(), size_z))
        &&& self.extents.w.add_req(self.extents.w)
        &&& half_excess_req(self.hyper_depth_spec(), size_w)
        &&& self.extents.w.sub_req(half_excess_spec(self.hyper_depth_spec(), size_w))
    }

    /// Gives the box the size `size_x` along `x`, and so on, about its center,
    /// along every axis as `set_width` does along `x`.
    pub fn set_size(&mut self, size_x: T, size_y: T, size_z: T, size_w: T)
        where T: Add<Output = T> + Sub<Output = T> + Div<Output = T> + From<i8> + Copy
        requires
            T::obeys_add_spec(),
            T::obeys_sub_spec(),
            T::obeys_div_spec(),
            T::obeys_from_spec(),
            old(self).with_size_req(size_x, size_y, size_z, size_w),
        ensures
            *final(self) == old(self).with_size_spec(size_x, size_y, size_z, size_w),
    {
        let two = T::from(2i8);
        let half_delta_x = (self.extents.x + self.extents.x - size_x) / two;
        let half_delta_y = (self.extents.y + self.extents.y - size_y) / two;
        let half_delta_z = (self.extents.z + self.extents.z - size_z) / two;
        let half_delta_w = (self.extents.w + self.extents.w - size_w) / two;
        self.extents.x = self.extents.x - half_delta_x;
        self.extents.y = self.extents.y - half_delta_y;
        self.extents.z = self.extents.z - half_delta_z;
        self.extents.w = self.extents.w - half_delta_w;
    }

    /// Whether `point` lies strictly between the least and the greatest
    /// coordinate along every axis.
    pub open spec fn contains_spec(self, point: Vector4<T>) -> bool
        where T: PartialOrd + Add<Output = T> + Sub<Output = T> + Copy
    {
        &&& self.x_min_spec().is_lt(&point.x)
        &&& self.x_max_spec().is_gt(&point.x)
        &&& self.y_min_spec().is_lt(&point.y)
        &&& self.y_max_spec().is_gt(&point.y)
        &&& self.z_min_spec().is_lt(&point.z)
        &&& self.z_max_spec().is_gt(&point.z)
        &&& self.w_min_spec().is_lt(&point.w)
        &&& self.w_max_spec().is_gt(&point.w)
    }

    /// Whether `point` lies strictly between the least and the greatest
    /// coordinate along every axis.
    pub fn contains(&self, point: Vector4<T>) -> (r: bool)
        where T: PartialOrd + Add<Output = T> + Sub<Output = T> + Copy
        requires
            self.corners_req(),
        ensures
            T::obeys_partial_cmp_spec() && T::obeys_add_spec() && T::obeys_sub_spec() ==>
                r == self.contains_spec(point),
    {
        self.center.x - self.extents.x < point.x
            && self.center.x + self.extents.x > point.x
            && self.center.y - self.extents.y < point.y
            && self.center.y + self.extents.y > point.y
            && self.center.z - self.extents.z < point.z
            && self.center.z + self.extents.z > point.z
            && self.center.w - self.extents.w < point.w
            && self.center.w + self.extents.w > point.w
    }

    /// Whether, along every axis, each box begins before the other ends. Boxes
    /// that only touch do not overlap.
    pub open spec fn overlaps_spec(self, other: Self) -> bool
        where T: PartialOrd + Add<Output = T> + Sub<Output = T> + Copy
    {
        &&& intervals_overlap(
            self.x_min_spec(),
            self.x_max_spec(),
            other.x_min_spec(),
            other.x_max_spec(),
        )
        &&& intervals_overlap(
            self.y_min_spec(),
            self.y_max_spec(),
            other.y_min_spec(),
            other.y_max_spec(),
        )
        &&& intervals_overlap(
            self.z_min_spec(),
            self.z_max_spec(),
            other.z_min_spec(),
            other.z_max_spec(),
        )
        &&& intervals_overlap(
            self.w_min_spec(),
            self.w_max_spec(),
            other.w_min_spec(),
            other.w_max_spec(),
        )
    }

    /// Whether, along every axis, each box begins before the other ends. Boxes
    /// that only touch do not overlap.
    pub fn overlaps(&self, other: &Bounds4D<T>) -> (r: bool)
        where T: PartialOrd + Add<Output = T> + Sub<Output = T> + Copy
        requires
            self.corners_req(),
            other.corners_req(),
        ensures
            T::obeys_partial_cmp_spec() && T::obeys_add_spec() && T::obeys_sub_spec() ==>
                r == self.overlaps_spec(*other),
    {
        self.center.x - self.extents.x < other.center.x + other.extents.x
            && self.center.x + self.extents.x > other.center.x - other.extents.x
            && self.center.y - self.extents.y < other.center.y + other.extents.y
            && self.center.y + self.extents.y > other.center.y - other.extents.y
            && self.center.z - self.extents.z < other.center.z + other.extents.z
            && self.center.z + self.extents.z > other.center.z - other.extents.z
            && self.center.w - self.extents.w < other.center.w + other.extents.w
            && self.center.w + self.extents.w > other.center.w - other.extents.w
    }

    /// The box of `area` in this representation.
    pub open spec fn from_area_spec(area: Area4D<T>) -> Self
        where T: Add<Output = T> + Sub<Output = T> + Div<Output = T> + From<i8> + Copy
    {
        Bounds4D {
            center: Vector4 {
                x: area.lower_left.x.add_spec(area.upper_right.x).div_spec(T::from_spec(2i8)),
                y: area.lower_left.y.add_spec(area.upper_right.y).div_spec(T::from_spec(2i8)),
                z: area.lower_left.z.add_spec(area.upper_right.z).div_spec(T::from_spec(2i8)),
                w: area.lower_left.w.add_spec(area.upper_right.w).div_spec(T::from_spec(2i8)),
            },
            extents: Vector4 {
                x: area.width_spec().div_spec(T::from_spec(2i8)),
                y: area.height_spec().div_spec(T::from_spec(2i8)),
                z: area.depth_spec().div_spec(T::from_spec(2i8)),
                w: area.hyper_depth_spec().div_spec(T::from_spec(2i8)),
            },
        }
    }

    /// Whether each step of `from_area` is defined.
    pub open spec fn from_area_req(area: Area4D<T>) -> bool
        where T: Add<Output = T> + Sub<Output = T> + Div<Output = T> + From<i8> + Copy
    {
        &&& area.lower_left.x.add_req(area.upper_right.x)
        &&& area.lower_left.x.add_spec(area.upper_right.x).div_req(T::from_spec(2i8))
        &&& area.lower_left.y.add_req(area.upper_right.y)
        &&& area.lower_left.y.add_spec(area.upper_right.y).div_req(T::from_spec(2i8))
        &&& area.lower_left.z.add_req(area.upper_right.z)
        &&& area.lower_left.z.add_spec(area.upper_right.z).div_req(T::from_spec(2i8))
        &&& area.lower_left.w.add_req(area.upper_right.w)
        &&& area.lower_left.w.add_spec(area.upper_right.w).div_req(T::from_spec(2i8))
        &&& area.upper_right.x.sub_req(area.lower_left.x)
        &&& area.width_spec().div_req(T::from_spec(2i8))
        &&& area.upper_right.y.sub_req(area.lower_left.y)
        &&& area.height_spec().div_req(T::from_spec(2i8))
        &&& area.upper_right.z.sub_req(area.lower_left.z)
        &&& area.depth_spec().div_req(T::from_spec(2i8))
        &&& area.upper_right.w.sub_req(area.lower_left.w)
        &&& area.hyper_depth_spec().div_req(T::from_spec(2i8))
    }

    /// The box of `area` in this representation.
    pub fn from_area(area: Area4D<T>) -> (r: Self)
        where T: Add<Output = T> + Sub<Output = T> + Div<Output = T> + From<i8> + Copy
        requires
            T::obeys_add_spec(),
            T::obeys_sub_spec(),
            T::obeys_from_spec(),
            Self::from_area_req(area),
        ensures
            T::obeys_div_spec() ==> r == Self::from_area_spec(area),
    {
        let two = T::from(2i8);
        Bounds4D {
            center: Vector4 {
                x: (area.lower_left.x + area.upper_right.x) / two,
                y: (area.lower_left.y + area.upper_right.y) / two,
                z: (area.lower_left.z + area.upper_right.z) / two,
                w: (area.lower_left.w + area.upper_right.w) / two,
            },
            extents: Vector4 {
                x: (area.upper_right.x - area.lower_left.x) / two,
                y: (area.upper_right.y - area.lower_left.y) / two,
                z: (area.upper_right.z - area.lower_left.z) / two,
                w: (area.upper_right.w - area.lower_left.w) / two,
            },
        }
    }

    /// Whether, along every axis, each of the two boxes begins before the other
    /// ends. Boxes that only touch do not overlap.
    pub open spec fn overlaps_area_spec(self, area: Area4D<T>) -> bool
        where T: PartialOrd + Add<Output = T> + Sub<Output = T> + Copy
    {
        &&& intervals_overlap(
            self.x_min_spec(),
            self.x_max_spec(),
            area.x_min_spec(),
            area.x_max_spec(),
        )
        &&& intervals_overlap(
            self.y_min_spec(),
            self.y_max_spec(),
            area.y_min_spec(),
            area.y_max_spec(),
        )
        &&& intervals_overlap(
            self.z_min_spec(),
            self.z_max_spec(),
            area.z_min_spec(),
            area.z_max_spec(),
        )
        &&& intervals_overlap(
            self.w_min_spec(),
            self.w_max_spec(),
            area.w_min_spec(),
            area.w_max_spec(),
        )
    }

    /// Whether, along every axis, each of the two boxes begins before the other
    /// ends. Boxes that only touch do not overlap.
    pub fn overlaps_area(&self, area: &Area4D<T>) -> (r: bool)
        where T: PartialOrd + Add<Output = T> + Sub<Output = T> + Copy
        requires
            self.corners_req(),
        ensures
            T::obeys_partial_cmp_spec() && T::obeys_add_spec() && T::obeys_sub_spec() ==>
                r == self.overlaps_area_spec(*area),
    {
        self.center.x - self.extents.x < area.upper_right.x
            && self.center.x + self.extents.x > area.lower_left.x
            && self.center.y - self.extents.y < area.upper_right.y
            && self.center.y + self.extents.y > area.lower_left.y
            && self.center.z - self.extents.z < area.upper_right.z
            && self.center.z + self.extents.z > area.lower_left.z
            && self.center.w - self.extents.w < area.upper_right.w
            && self.center.w + self.extents.w > area.lower_left.w
    }
}

} // verus!
