//! To resize a box is to resize it about its center.

use vstd::prelude::*;
use core::ops::{Add, Div, Sub};
use crate::numeric::{lemma_integral, Integral};
use crate::shapes::{Area2D, Area3D, Area4D, Bounds2D, Bounds3D, Bounds4D};
use crate::vectors::{Vector2, Vector3, Vector4};

verus! {

/// `set_width` leaves the center of an `Area2D` where it is, where neither the
/// old nor the new size is negative: the center is told from half the size, and
/// half of an odd integer size is rounded towards zero.
pub proof fn law_area2d_set_width_keeps_center<T: Integral>(area: Area2D<T>, width: T)
    requires
        area.center_req(),
        area.with_width_req(width),
        area.width_spec().val() >= 0,
        width.val() >= 0,
    ensures
        area.with_width_spec(width).center_req(),
        area.with_width_spec(width).center_spec() == area.center_spec(),
{
    lemma_integral::<T>();
}

/// `set_height` leaves the center of an `Area2D` where it is, where neither the
/// old nor the new size is negative: the center is told from half the size, and
/// half of an odd integer size is rounded towards zero.
pub proof fn law_area2d_set_height_keeps_center<T: Integral>(area: Area2D<T>, height: T)
    requires
        area.center_req(),
        area.with_height_req(height),
        area.height_spec().val() >= 0,
        height.val() >= 0,
    ensures
        area.with_height_spec(height).center_req(),
        area.with_height_spec(height).center_spec() == area.center_spec(),
{
    lemma_integral::<T>();
}

/// `set_size` leaves the center of an `Area2D` where it is, where neither the
/// old nor the new size is negative: the center is told from half the size, and
/// half of an odd integer size is rounded towards zero.
pub proof fn law_area2d_set_size_keeps_center<T: Integral>(area: Area2D<T>, size: Vector2<T>)
    requires
        area.center_req(),
        area.with_size_req(size),
        area.width_spec().val() >= 0,
        size.x.val() >= 0,
        area.height_spec().val() >= 0,
        size.y.val() >= 0,
    ensures
        area.with_size_spec(size).center_req(),
        area.with_size_spec(size).center_spec() == area.center_spec(),
{
    lemma_integral::<T>();
}

/// `set_width` leaves the center of a `Bounds2D` where it is.
pub proof fn law_bounds2d_set_width_keeps_center<T>(bounds: Bounds2D<T>, width: T)
    where T: Add<Output = T> + Sub<Output = T> + Div<Output = T> + From<i8> + Copy
    ensures
        bounds.with_width_spec(width).center == bounds.center,
{
}

/// `set_height` leaves the center of a `Bounds2D` where it is.
pub proof fn law_bounds2d_set_height_keeps_center<T>(bounds: Bounds2D<T>, height: T)
    where T: Add<Output = T> + Sub<Output = T> + Div<Output = T> + From<i8> + Copy
    ensures
        bounds.with_height_spec(height).center == bounds.center,
{
}

/// `set_size` leaves the center of a `Bounds2D` where it is.
pub proof fn law_bounds2d_set_size_keeps_center<T>(bounds: Bounds2D<T>, size_x: T, size_y: T)
    where T: Add<Output = T> + Sub<Output = T> + Div<Output = T> + From<i8> + Copy
    ensures
        bounds.with_size_spec(size_x, size_y).center == bounds.center,
{
}

/// `set_width` leaves the center of an `Area3D` where it is.
pub proof fn law_area3d_set_width_keeps_center<T: Integral>(area: Area3D<T>, width: T)
    requires
        area.center_req(),
        area.with_width_req(width),
    ensures
        area.with_width_spec(width).center_req(),
        area.with_width_spec(width).center_spec() == area.center_spec(),
{
    lemma_integral::<T>();
}

/// `set_height` leaves the center of an `Area3D` where it is.
pub proof fn law_area3d_set_height_keeps_center<T: Integral>(area: Area3D<T>, height: T)
    requires
        area.center_req(),
        area.with_height_req(height),
    ensures
        area.with_height_spec(height).center_req(),
        area.with_height_spec(height).center_spec() == area.center_spec(),
{
    lemma_integral::<T>();
}

/// `set_depth` leaves the center of an `Area3D` where it is.
pub proof fn law_area3d_set_depth_keeps_center<T: Integral>(area: Area3D<T>, depth: T)
    requires
        area.center_req(),
        area.with_depth_req(depth),
    ensures
        area.with_depth_spec(depth).center_req(),
        area.with_depth_spec(depth).center_spec() == area.center_spec(),
{
    lemma_integral::<T>();
}

/// `set_size` leaves the center of an `Area3D` where it is.
pub proof fn law_area3d_set_size_keeps_center<T: Integral>(area: Area3D<T>, size: Vector3<T>)
    requires
        area.center_req(),
        area.with_size_req(size),
    ensures
        area.with_size_spec(size).center_req(),
        area.with_size_spec(size).center_spec() == area.center_spec(),
{
    lemma_integral::<T>();
}

/// `set_width` leaves the center of a `Bounds3D` where it is.
pub proof fn law_bounds3d_set_width_keeps_center<T>(bounds: Bounds3D<T>, width: T)
    where T: Add<Output = T> + Sub<Output = T> + Div<Output = T> + From<i8> + Copy
    ensures
        bounds.with_width_spec(width).center == bounds.center,
{
}

/// `set_height` leaves the center of a `Bounds3D` where it is.
pub proof fn law_bounds3d_set_height_keeps_center<T>(bounds: Bounds3D<T>, height: T)
    where T: Add<Output = T> + Sub<Output = T> + Div<Output = T> + From<i8> + Copy
    ensures
        bounds.with_height_spec(height).center == bounds.center,
{
}

/// `set_depth` leaves the center of a `Bounds3D` where it is.
pub proof fn law_bounds3d_set_depth_keeps_center<T>(bounds: Bounds3D<T>, depth: T)
    where T: Add<Output = T> + Sub<Output = T> + Div<Output = T> + From<i8> + Copy
    ensures
        bounds.with_depth_spec(depth).center == bounds.center,
{
}

/// `set_size` leaves the center of a `Bounds3D` where it is.
pub proof fn law_bounds3d_set_size_keeps_center<T>(
    bounds: Bounds3D<T>,
    size_x: T,
    size_y: T,
    size_z: T,
)
    where T: Add<Output = T> + Sub<Output = T> + Div<Output = T> + From<i8> + Copy
    ensures
        bounds.with_size_spec(size_x, size_y, size_z).center == bounds.center,
{
}

/// `set_width` leaves the center of an `Area4D` where it is.
pub proof fn law_area4d_set_width_keeps_center<T: Integral>(area: Area4D<T>, width: T)
    requires
        area.center_req(),
        area.with_width_req(width),
    ensures
        area.with_width_spec(width).center_req(),
        area.with_width_spec(width).center_spec() == area.center_spec(),
{
    lemma_integral::<T>();
}

/// `set_height` leaves the center of an `Area4D` where it is.
pub proof fn law_area4d_set_height_keeps_center<T: Integral>(area: Area4D<T>, height: T)
    requires
        area.center_req(),
        area.with_height_req(height),
    ensures
        area.with_height_spec(height).center_req(),
        area.with_height_spec(height).center_spec() == area.center_spec(),
{
    lemma_integral::<T>();
}

/// `set_depth` leaves the center of an `Area4D` where it is.
pub proof fn law_area4d_set_depth_keeps_center<T: Integral>(area: Area4D<T>, depth: T)
    requires
        area.center_req(),
        area.with_depth_req(depth),
    ensures
        area.with_depth_spec(depth).center_req(),
        area.with_depth_spec(depth).center_spec() == area.center_spec(),
{
    lemma_integral::<T>();
}

/// `set_hyper_depth` leaves the center of an `Area4D` where it is.
pub proof fn law_area4d_set_hyper_depth_keeps_center<T: Integral>(area: Area4D<T>, hyper_depth: T)
    requires
        area.center_req(),
        area.with_hyper_depth_req(hyper_depth),
    ensures
        area.with_hyper_depth_spec(hyper_depth).center_req(),
        area.with_hyper_depth_spec(hyper_depth).center_spec() == area.center_spec(),
{
    lemma_integral::<T>();
}

/// `set_size` leaves the center of an `Area4D` where it is.
pub proof fn law_area4d_set_size_keeps_center<T: Integral>(area: Area4D<T>, size: Vector4<T>)
    requires
        area.center_req(),
        area.with_size_req(size),
    ensures
        area.with_size_spec(size).center_req(),
        area.with_size_spec(size).center_spec() == area.center_spec(),
{
    lemma_integral::<T>();
}

/// `set_width` leaves the center of a `Bounds4D` where it is.
pub proof fn law_bounds4d_set_width_keeps_center<T>(bounds: Bounds4D<T>, width: T)
    where T: Add<Output = T> + Sub<Output = T> + Div<Output = T> + From<i8> + Copy
    ensures
        bounds.with_width_spec(width).center == bounds.center,
{
}

/// `set_height` leaves the center of a `Bounds4D` where it is.
pub proof fn law_bounds4d_set_height_keeps_center<T>(bounds: Bounds4D<T>, height: T)
    where T: Add<Output = T> + Sub<Output = T> + Div<Output = T> + From<i8> + Copy
    ensures
        bounds.with_height_spec(height).center == bounds.center,
{
}

/// `set_depth` leaves the center of a `Bounds4D` where it is.
pub proof fn law_bounds4d_set_depth_keeps_center<T>(bounds: Bounds4D<T>, depth: T)
    where T: Add<Output = T> + Sub<Output = T> + Div<Output = T> + From<i8> + Copy
    ensures
        bounds.with_depth_spec(depth).center == bounds.center,
{
}

/// `set_hyper_depth` leaves the center of a `Bounds4D` where it is.
pub proof fn law_bounds4d_set_hyper_depth_keeps_center<T>(bounds: Bounds4D<T>, hyper_depth: T)
    where T: Add<Output = T> + Sub<Output = T> + Div<Output = T> + From<i8> + Copy
    ensures
        bounds.with_hyper_depth_spec(hyper_depth).center == bounds.center,
{
}

/// `set_size` leaves the center of a `Bounds4D` where it is.
pub proof fn law_bounds4d_set_size_keeps_center<T>(
    bounds: Bounds4D<T>,
    size_x: T,
    size_y: T,
    size_z: T,
    size_w: T,
)
    where T: Add<Output = T> + Sub<Output = T> + Div<Output = T> + From<i8> + Copy
    ensures
        bounds.with_size_spec(size_x, size_y, size_z, size_w).center == bounds.center,
{
}

} // verus!
