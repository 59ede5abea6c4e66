//! Conversions between the representations of a box lose nothing.

use vstd::prelude::*;
use core::ops::{Add, Div, Sub};
use crate::numeric::{lemma_integral, Integral};
use crate::shapes::{Area2D, Area3D, Area4D, Bounds2D, Bounds3D, Bounds4D, Cube, Rect};

verus! {

/// A `Rect` taken to an `Area2D` and back is the same `Rect`.
pub proof fn law_rect_to_area2d_and_back<T: Integral>(rect: Rect<T>)
    requires
        Area2D::from_rect_req(rect),
    ensures
        Rect::from_area_req(Area2D::from_rect_spec(rect)),
        Rect::from_area_spec(Area2D::from_rect_spec(rect)) == rect,
{
    lemma_integral::<T>();
}

/// A `Rect` taken to a `Bounds2D` and back is the same `Rect`, where its size
/// along every axis is even: the `Bounds2D` holds half of each size, and half
/// of an odd integer size is rounded.
pub proof fn law_rect_to_bounds2d_and_back<T: Integral>(rect: Rect<T>)
    requires
        Bounds2D::from_rect_req(rect),
        rect.width.val() % 2 == 0,
        rect.height.val() % 2 == 0,
    ensures
        Rect::from_bounds_req(Bounds2D::from_rect_spec(rect)),
        Rect::from_bounds_spec(Bounds2D::from_rect_spec(rect)) == rect,
{
    lemma_integral::<T>();
}

/// An `Area2D` taken to a `Rect` and back is the same `Area2D`.
pub proof fn law_area2d_to_rect_and_back<T: Integral>(area: Area2D<T>)
    requires
        Rect::from_area_req(area),
    ensures
        Area2D::from_rect_req(Rect::from_area_spec(area)),
        Area2D::from_rect_spec(Rect::from_area_spec(area)) == area,
{
    lemma_integral::<T>();
}

/// An `Area2D` taken to a `Bounds2D` and back is the same `Area2D`, where its
/// size along every axis is even: the `Bounds2D` holds half of each size, and
/// half of an odd integer size is rounded.
pub proof fn law_area2d_to_bounds2d_and_back<T: Integral>(area: Area2D<T>)
    requires
        Bounds2D::from_area_req(area),
        area.width_spec().val() % 2 == 0,
        area.height_spec().val() % 2 == 0,
    ensures
        Area2D::from_bounds_req(Bounds2D::from_area_spec(area)),
        Area2D::from_bounds_spec(Bounds2D::from_area_spec(area)) == area,
{
    lemma_integral::<T>();
}

/// A `Bounds2D` taken to a `Rect` and back is the same `Bounds2D`.
pub proof fn law_bounds2d_to_rect_and_back<T: Integral>(bounds: Bounds2D<T>)
    requires
        Rect::from_bounds_req(bounds),
    ensures
        Bounds2D::from_rect_req(Rect::from_bounds_spec(bounds)),
        Bounds2D::from_rect_spec(Rect::from_bounds_spec(bounds)) == bounds,
{
    lemma_integral::<T>();
}

/// A `Bounds2D` taken to an `Area2D` and back is the same `Bounds2D`.
pub proof fn law_bounds2d_to_area2d_and_back<T: Integral>(bounds: Bounds2D<T>)
    requires
        Area2D::from_bounds_req(bounds),
        Bounds2D::from_area_req(Area2D::from_bounds_spec(bounds)),
    ensures
        Bounds2D::from_area_spec(Area2D::from_bounds_spec(bounds)) == bounds,
{
    lemma_integral::<T>();
}

/// A `Cube` taken to an `Area3D` and back is the same `Cube`.
pub proof fn law_cube_to_area3d_and_back<T: Integral>(cube: Cube<T>)
    requires
        Area3D::from_cube_req(cube),
    ensures
        Cube::from_area_req(Area3D::from_cube_spec(cube)),
        Cube::from_area_spec(Area3D::from_cube_spec(cube)) == cube,
{
    lemma_integral::<T>();
}

/// A `Cube` taken to a `Bounds3D` and back is the same `Cube`, where its size
/// along every axis is even: the `Bounds3D` holds half of each size, and half
/// of an odd integer size is rounded.
pub proof fn law_cube_to_bounds3d_and_back<T: Integral>(cube: Cube<T>)
    requires
        Bounds3D::from_cube_req(cube),
        cube.width.val() % 2 == 0,
        cube.height.val() % 2 == 0,
        cube.depth.val() % 2 == 0,
    ensures
        Cube::from_bounds_req(Bounds3D::from_cube_spec(cube)),
        Cube::from_bounds_spec(Bounds3D::from_cube_spec(cube)) == cube,
{
    lemma_integral::<T>();
}

/// An `Area3D` taken to a `Cube` and back is the same `Area3D`.
pub proof fn law_area3d_to_cube_and_back<T: Integral>(area: Area3D<T>)
    requires
        Cube::from_area_req(area),
    ensures
        Area3D::from_cube_req(Cube::from_area_spec(area)),
        Area3D::from_cube_spec(Cube::from_area_spec(area)) == area,
{
    lemma_integral::<T>();
}

/// An `Area3D` taken to a `Bounds3D` and back is the same `Area3D`, where its
/// size along every axis is even: the `Bounds3D` holds half of each size, and
/// half of an odd integer size is rounded.
pub proof fn law_area3d_to_bounds3d_and_back<T: Integral>(area: Area3D<T>)
    requires
        Bounds3D::from_area_req(area),
        area.width_spec().val() % 2 == 0,
        area.height_spec().val() % 2 == 0,
        area.depth_spec().val() % 2 == 0,
    ensures
        Area3D::from_bounds_req(Bounds3D::from_area_spec(area)),
        Area3D::from_bounds_spec(Bounds3D::from_area_spec(area)) == area,
{
    lemma_integral::<T>();
}

/// A `Bounds3D` taken to a `Cube` and back is the same `Bounds3D`.
pub proof fn law_bounds3d_to_cube_and_back<T: Integral>(bounds: Bounds3D<T>)
    requires
        Cube::from_bounds_req(bounds),
    ensures
        Bounds3D::from_cube_req(Cube::from_bounds_spec(bounds)),
        Bounds3D::from_cube_spec(Cube::from_bounds_spec(bounds)) == bounds,
{
    lemma_integral::<T>();
}

/// A `Bounds3D` taken to an `Area3D` and back is the same `Bounds3D`.
pub proof fn law_bounds3d_to_area3d_and_back<T: Integral>(bounds: Bounds3D<T>)
    requires
        Area3D::from_bounds_req(bounds),
        Bounds3D::from_area_req(Area3D::from_bounds_spec(bounds)),
    ensures
        Bounds3D::from_area_spec(Area3D::from_bounds_spec(bounds)) == bounds,
{
    lemma_integral::<T>();
}

/// An `Area4D` taken to a `Bounds4D` and back is the same `Area4D`, where its
/// size along every axis is even: the `Bounds4D` holds half of each size, and
/// half of an odd integer size is rounded.
pub proof fn law_area4d_to_bounds4d_and_back<T: Integral>(area: Area4D<T>)
    requires
        Bounds4D::from_area_req(area),
        area.width_spec().val() % 2 == 0,
        area.height_spec().val() % 2 == 0,
        area.depth_spec().val() % 2 == 0,
        area.hyper_depth_spec().val() % 2 == 0,
    ensures
        Area4D::from_bounds_req(Bounds4D::from_area_spec(area)),
        Area4D::from_bounds_spec(Bounds4D::from_area_spec(area)) == area,
{
    lemma_integral::<T>();
}

/// A `Bounds4D` taken to an `Area4D` and back is the same `Bounds4D`.
pub proof fn law_bounds4d_to_area4d_and_back<T: Integral>(bounds: Bounds4D<T>)
    requires
        Area4D::from_bounds_req(bounds),
        Bounds4D::from_area_req(Area4D::from_bounds_spec(bounds)),
    ensures
        Bounds4D::from_area_spec(Area4D::from_bounds_spec(bounds)) == bounds,
{
    lemma_integral::<T>();
}

/// A `Bounds2D` widened to a `Bounds3D` and narrowed again is the same
/// `Bounds2D`.
pub proof fn law_bounds2d_widened_and_narrowed<T>(bounds: Bounds2D<T>)
    where T: From<i8> + Copy
    ensures
        Bounds2D::from_bounds3d_spec(Bounds3D::from_bounds2d_spec(bounds)) == bounds,
{
}

/// An `Area2D` widened to a `Bounds3D` and narrowed again is the same `Area2D`,
/// where its size along every axis is even.
pub proof fn law_area2d_widened_and_narrowed<T: Integral>(area: Area2D<T>)
    requires
        Bounds3D::from_area2d_req(area),
        area.width_spec().val() % 2 == 0,
        area.height_spec().val() % 2 == 0,
    ensures
        Area2D::from_bounds3d_req(Bounds3D::from_area2d_spec(area)),
        Area2D::from_bounds3d_spec(Bounds3D::from_area2d_spec(area)) == area,
{
    lemma_integral::<T>();
}

/// To widen an `Area2D` to a `Bounds3D` and narrow the result is to take the
/// `Area2D` to a `Bounds2D`.
pub proof fn law_area2d_widened_agrees<T>(area: Area2D<T>)
    where T: Add<Output = T> + Sub<Output = T> + Div<Output = T> + From<i8> + Copy
    ensures
        Bounds2D::from_bounds3d_spec(Bounds3D::from_area2d_spec(area)) ==
            Bounds2D::from_area_spec(area),
{
}

/// To narrow an `Area4D` to two dimensions at once is to narrow it to three and
/// then to two.
pub proof fn law_area4d_narrowed_in_steps<T>(area: Area4D<T>)
    where T: Copy
    ensures
        Area2D::from_area4d_spec(area) == Area2D::from_area3d_spec(Area3D::from_area4d_spec(area)),
{
}

/// To narrow a `Bounds4D` to two dimensions at once is to narrow it to three
/// and then to two.
pub proof fn law_bounds4d_narrowed_in_steps<T>(bounds: Bounds4D<T>)
    where T: Copy
    ensures
        Bounds2D::from_bounds4d_spec(bounds) ==
            Bounds2D::from_bounds3d_spec(Bounds3D::from_bounds4d_spec(bounds)),
{
}

/// To take a `Bounds3D` to an `Area2D` is to narrow it to a `Bounds2D` and take
/// that to an `Area2D`.
pub proof fn law_bounds3d_to_area2d_agrees<T>(bounds: Bounds3D<T>)
    where T: Add<Output = T> + Sub<Output = T> + Copy
    ensures
        Area2D::from_bounds3d_spec(bounds) ==
            Area2D::from_bounds_spec(Bounds2D::from_bounds3d_spec(bounds)),
{
}

/// To take a `Bounds4D` to an `Area2D` is to narrow it to a `Bounds2D` and take
/// that to an `Area2D`.
pub proof fn law_bounds4d_to_area2d_agrees<T>(bounds: Bounds4D<T>)
    where T: Add<Output = T> + Sub<Output = T> + Copy
    ensures
        Area2D::from_bounds4d_spec(bounds) ==
            Area2D::from_bounds_spec(Bounds2D::from_bounds4d_spec(bounds)),
{
}

/// To take a `Bounds4D` to an `Area3D` is to narrow it to a `Bounds3D` and take
/// that to an `Area3D`.
pub proof fn law_bounds4d_to_area3d_agrees<T>(bounds: Bounds4D<T>)
    where T: Add<Output = T> + Sub<Output = T> + Copy
    ensures
        Area3D::from_bounds4d_spec(bounds) ==
            Area3D::from_bounds_spec(Bounds3D::from_bounds4d_spec(bounds)),
{
}

} // verus!
