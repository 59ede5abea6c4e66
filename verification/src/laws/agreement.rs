//! The predicates agree between the representations of a box.

use vstd::prelude::*;
use core::ops::{Add, Sub};
use crate::numeric::{lemma_integral, Integral};
use crate::shapes::{Area2D, Area3D, Area4D, Bounds2D, Bounds3D, Bounds4D, Cube, Rect};
use crate::vectors::{Vector2, Vector3};

verus! {

/// Two `Rect` boxes overlap just when they do as `Area2D` boxes.
pub proof fn law_rect_overlaps_as_area2d<T>(a: Rect<T>, b: Rect<T>)
    where T: PartialOrd + Add<Output = T> + Copy
    ensures
        a.overlaps_spec(b) == Area2D::from_rect_spec(a).overlaps_spec(Area2D::from_rect_spec(b)),
{
}

/// A `Rect` contains a point just when it does as an `Area2D`.
pub proof fn law_rect_contains_as_area2d<T>(b: Rect<T>, point: Vector2<T>)
    where T: PartialOrd + Add<Output = T> + Copy
    ensures
        b.contains_spec(point) == Area2D::from_rect_spec(b).contains_spec(point),
{
}

/// Two `Bounds2D` boxes overlap just when they do as `Area2D` boxes.
pub proof fn law_bounds2d_overlaps_as_area2d<T>(a: Bounds2D<T>, b: Bounds2D<T>)
    where T: PartialOrd + Add<Output = T> + Sub<Output = T> + Copy
    ensures
        a.overlaps_spec(b) ==
            Area2D::from_bounds_spec(a).overlaps_spec(Area2D::from_bounds_spec(b)),
{
}

/// Two `Cube` boxes overlap just when they do as `Area3D` boxes.
pub proof fn law_cube_overlaps_as_area3d<T>(a: Cube<T>, b: Cube<T>)
    where T: PartialOrd + Add<Output = T> + Copy
    ensures
        a.overlaps_spec(b) == Area3D::from_cube_spec(a).overlaps_spec(Area3D::from_cube_spec(b)),
{
}

/// A `Cube` contains a point just when it does as an `Area3D`.
pub proof fn law_cube_contains_as_area3d<T>(b: Cube<T>, point: Vector3<T>)
    where T: PartialOrd + Add<Output = T> + Copy
    ensures
        b.contains_spec(point) == Area3D::from_cube_spec(b).contains_spec(point),
{
}

/// Two `Bounds3D` boxes overlap just when they do as `Area3D` boxes.
pub proof fn law_bounds3d_overlaps_as_area3d<T>(a: Bounds3D<T>, b: Bounds3D<T>)
    where T: PartialOrd + Add<Output = T> + Sub<Output = T> + Copy
    ensures
        a.overlaps_spec(b) ==
            Area3D::from_bounds_spec(a).overlaps_spec(Area3D::from_bounds_spec(b)),
{
}

/// Two `Bounds4D` boxes overlap just when they do as `Area4D` boxes.
pub proof fn law_bounds4d_overlaps_as_area4d<T>(a: Bounds4D<T>, b: Bounds4D<T>)
    where T: PartialOrd + Add<Output = T> + Sub<Output = T> + Copy
    ensures
        a.overlaps_spec(b) ==
            Area4D::from_bounds_spec(a).overlaps_spec(Area4D::from_bounds_spec(b)),
{
}

/// An `Area2D` overlaps a `Bounds2D` just when it overlaps the `Bounds2D` taken
/// as an `Area2D`.
pub proof fn law_area2d_overlaps_bounds_as_area<T>(area: Area2D<T>, bounds: Bounds2D<T>)
    where T: PartialOrd + Add<Output = T> + Sub<Output = T> + Copy
    ensures
        area.overlaps_bounds_spec(bounds) == area.overlaps_spec(Area2D::from_bounds_spec(bounds)),
{
}

/// A `Bounds2D` overlaps an `Area2D` just when, taken as an `Area2D`, it
/// overlaps the `Area2D`.
pub proof fn law_bounds2d_overlaps_area_as_area<T>(bounds: Bounds2D<T>, area: Area2D<T>)
    where T: PartialOrd + Add<Output = T> + Sub<Output = T> + Copy
    ensures
        bounds.overlaps_area_spec(area) == Area2D::from_bounds_spec(bounds).overlaps_spec(area),
{
}

/// An `Area3D` overlaps a `Bounds3D` just when it overlaps the `Bounds3D` taken
/// as an `Area3D`.
pub proof fn law_area3d_overlaps_bounds_as_area<T>(area: Area3D<T>, bounds: Bounds3D<T>)
    where T: PartialOrd + Add<Output = T> + Sub<Output = T> + Copy
    ensures
        area.overlaps_bounds_spec(bounds) == area.overlaps_spec(Area3D::from_bounds_spec(bounds)),
{
}

/// A `Bounds3D` overlaps an `Area3D` just when, taken as an `Area3D`, it
/// overlaps the `Area3D`.
pub proof fn law_bounds3d_overlaps_area_as_area<T>(bounds: Bounds3D<T>, area: Area3D<T>)
    where T: PartialOrd + Add<Output = T> + Sub<Output = T> + Copy
    ensures
        bounds.overlaps_area_spec(area) == Area3D::from_bounds_spec(bounds).overlaps_spec(area),
{
}

/// An `Area4D` overlaps a `Bounds4D` just when it overlaps the `Bounds4D` taken
/// as an `Area4D`.
pub proof fn law_area4d_overlaps_bounds_as_area<T>(area: Area4D<T>, bounds: Bounds4D<T>)
    where T: PartialOrd + Add<Output = T> + Sub<Output = T> + Copy
    ensures
        area.overlaps_bounds_spec(bounds) == area.overlaps_spec(Area4D::from_bounds_spec(bounds)),
{
}

/// A `Bounds4D` overlaps an `Area4D` just when, taken as an `Area4D`, it
/// overlaps the `Area4D`.
pub proof fn law_bounds4d_overlaps_area_as_area<T>(bounds: Bounds4D<T>, area: Area4D<T>)
    where T: PartialOrd + Add<Output = T> + Sub<Output = T> + Copy
    ensures
        bounds.overlaps_area_spec(area) == Area4D::from_bounds_spec(bounds).overlaps_spec(area),
{
}

/// On integers, a `Rect` overlaps an `Area2D` taken as a `Rect` just when the
/// two overlap taken as `Area2D` boxes.
pub proof fn law_rect_overlaps_area_as_area<T: Integral>(rect: Rect<T>, area: Area2D<T>)
    requires
        rect.corners_req(),
        Rect::from_area_req(area),
    ensures
        Rect::from_area_spec(area).corners_req(),
        rect.overlaps_spec(Rect::from_area_spec(area)) ==
            Area2D::from_rect_spec(rect).overlaps_spec(area),
{
    lemma_integral::<T>();
}

/// On integers, a `Rect` overlaps a `Bounds2D` taken as a `Rect` just when the
/// two overlap taken as `Area2D` boxes.
pub proof fn law_rect_overlaps_bounds_as_area<T: Integral>(rect: Rect<T>, bounds: Bounds2D<T>)
    requires
        rect.corners_req(),
        Rect::from_bounds_req(bounds),
        Rect::from_bounds_spec(bounds).corners_req(),
    ensures
        rect.overlaps_spec(Rect::from_bounds_spec(bounds)) == Area2D::from_rect_spec(rect)
            .overlaps_spec(
            Area2D::from_bounds_spec(bounds),
        ),
{
    lemma_integral::<T>();
}

/// On integers, a `Cube` overlaps an `Area3D` taken as a `Cube` just when the
/// two overlap taken as `Area3D` boxes.
pub proof fn law_cube_overlaps_area_as_area<T: Integral>(cube: Cube<T>, area: Area3D<T>)
    requires
        cube.corners_req(),
        Cube::from_area_req(area),
    ensures
        Cube::from_area_spec(area).corners_req(),
        cube.overlaps_spec(Cube::from_area_spec(area)) ==
            Area3D::from_cube_spec(cube).overlaps_spec(area),
{
    lemma_integral::<T>();
}

/// On integers, a `Cube` overlaps a `Bounds3D` taken as a `Cube` just when the
/// two overlap taken as `Area3D` boxes.
pub proof fn law_cube_overlaps_bounds_as_area<T: Integral>(cube: Cube<T>, bounds: Bounds3D<T>)
    requires
        cube.corners_req(),
        Cube::from_bounds_req(bounds),
        Cube::from_bounds_spec(bounds).corners_req(),
    ensures
        cube.overlaps_spec(Cube::from_bounds_spec(bounds)) == Area3D::from_cube_spec(cube)
            .overlaps_spec(
            Area3D::from_bounds_spec(bounds),
        ),
{
    lemma_integral::<T>();
}

/// An `Area2D` overlaps a `Rect` just when it overlaps the `Rect` taken as an
/// `Area2D`.
pub proof fn law_area2d_overlaps_rect_as_area<T>(area: Area2D<T>, rect: Rect<T>)
    where T: PartialOrd + Add<Output = T> + Copy
    ensures
        area.overlaps_rect_spec(rect) == area.overlaps_spec(Area2D::from_rect_spec(rect)),
{
}

/// A `Bounds2D` overlaps a `Rect` just when the two overlap taken as `Area2D`
/// boxes.
pub proof fn law_bounds2d_overlaps_rect_as_area<T>(bounds: Bounds2D<T>, rect: Rect<T>)
    where T: PartialOrd + Add<Output = T> + Sub<Output = T> + Copy
    ensures
        bounds.overlaps_rect_spec(rect) == Area2D::from_bounds_spec(bounds).overlaps_spec(
            Area2D::from_rect_spec(rect),
        ),
{
}

} // verus!
