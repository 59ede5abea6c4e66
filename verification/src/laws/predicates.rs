//! What holds of `contains` and `overlaps` whatever the operands.

use vstd::prelude::*;
use vstd::std_specs::ops::{AddSpec, MulSpec};
use vstd::std_specs::cmp::{PartialOrdSpec, PartialOrdIs};
use vstd::laws_cmp::obeys_partial_cmp_spec_properties;
use core::ops::{Add, Mul, Sub};
use crate::numeric::{intervals_apart, lemma_integral, strictly_within, Integral};
use crate::shapes::{
    Area2D, Area3D, Area4D, Bounds2D, Bounds3D, Bounds4D, Circle, Cube, HyperSphere, Rect, Sphere,
};
use crate::vectors::{Vector2, Vector3, Vector4};

verus! {

/// Whether two `Rect` boxes overlap does not depend on which of them is asked.
pub proof fn law_rect_overlaps_symmetric<T>(a: Rect<T>, b: Rect<T>)
    where T: PartialOrd + Add<Output = T> + Copy
    requires
        obeys_partial_cmp_spec_properties::<T>(),
    ensures
        a.overlaps_spec(b) == b.overlaps_spec(a),
{
    reveal(obeys_partial_cmp_spec_properties);
}

/// Two `Rect` boxes that lie apart along some axis, without touching, do not
/// overlap.
pub proof fn law_rect_apart_do_not_overlap<T>(a: Rect<T>, b: Rect<T>)
    where T: PartialOrd + Add<Output = T> + Copy
    requires
        obeys_partial_cmp_spec_properties::<T>(),
        (intervals_apart(a.x_min_spec(), a.x_max_spec(), b.x_min_spec(), b.x_max_spec())
            || intervals_apart(a.y_min_spec(), a.y_max_spec(), b.y_min_spec(), b.y_max_spec())),
    ensures
        !a.overlaps_spec(b),
{
    reveal(obeys_partial_cmp_spec_properties);
}

/// Two `Rect` boxes that share a point of their interiors overlap.
pub proof fn law_rect_sharing_interior_overlap<T>(a: Rect<T>, b: Rect<T>, point: Vector2<T>)
    where T: PartialOrd + Add<Output = T> + Copy
    requires
        obeys_partial_cmp_spec_properties::<T>(),
        strictly_within(a.x_min_spec(), a.x_max_spec(), point.x),
        strictly_within(a.y_min_spec(), a.y_max_spec(), point.y),
        strictly_within(b.x_min_spec(), b.x_max_spec(), point.x),
        strictly_within(b.y_min_spec(), b.y_max_spec(), point.y),
    ensures
        a.overlaps_spec(b),
{
    reveal(obeys_partial_cmp_spec_properties);
}

/// A `Rect` of which no size is negative contains its center.
pub proof fn law_rect_contains_center<T: Integral>(b: Rect<T>)
    requires
        b.center_req(),
        b.corners_req(),
        b.width.val() >= 0,
        b.height.val() >= 0,
    ensures
        b.contains_spec(b.center_spec()),
{
    lemma_integral::<T>();
}

/// Whether two `Area2D` boxes overlap does not depend on which of them is
/// asked.
pub proof fn law_area2d_overlaps_symmetric<T>(a: Area2D<T>, b: Area2D<T>)
    where T: PartialOrd + Copy
    requires
        obeys_partial_cmp_spec_properties::<T>(),
    ensures
        a.overlaps_spec(b) == b.overlaps_spec(a),
{
    reveal(obeys_partial_cmp_spec_properties);
}

/// Two `Area2D` boxes that lie apart along some axis, without touching, do not
/// overlap.
pub proof fn law_area2d_apart_do_not_overlap<T>(a: Area2D<T>, b: Area2D<T>)
    where T: PartialOrd + Copy
    requires
        obeys_partial_cmp_spec_properties::<T>(),
        (intervals_apart(a.x_min_spec(), a.x_max_spec(), b.x_min_spec(), b.x_max_spec())
            || intervals_apart(a.y_min_spec(), a.y_max_spec(), b.y_min_spec(), b.y_max_spec())),
    ensures
        !a.overlaps_spec(b),
{
    reveal(obeys_partial_cmp_spec_properties);
}

/// Two `Area2D` boxes that share a point of their interiors overlap.
pub proof fn law_area2d_sharing_interior_overlap<T>(a: Area2D<T>, b: Area2D<T>, point: Vector2<T>)
    where T: PartialOrd + Copy
    requires
        obeys_partial_cmp_spec_properties::<T>(),
        strictly_within(a.x_min_spec(), a.x_max_spec(), point.x),
        strictly_within(a.y_min_spec(), a.y_max_spec(), point.y),
        strictly_within(b.x_min_spec(), b.x_max_spec(), point.x),
        strictly_within(b.y_min_spec(), b.y_max_spec(), point.y),
    ensures
        a.overlaps_spec(b),
{
    reveal(obeys_partial_cmp_spec_properties);
}

/// An `Area2D` of which no size is negative contains its center.
pub proof fn law_area2d_contains_center<T: Integral>(b: Area2D<T>)
    requires
        b.center_req(),
        b.lower_left.x.val() <= b.upper_right.x.val(),
        b.lower_left.y.val() <= b.upper_right.y.val(),
    ensures
        b.contains_spec(b.center_spec()),
{
    lemma_integral::<T>();
}

/// Whether two `Bounds2D` boxes overlap does not depend on which of them is
/// asked.
pub proof fn law_bounds2d_overlaps_symmetric<T>(a: Bounds2D<T>, b: Bounds2D<T>)
    where T: PartialOrd + Add<Output = T> + Sub<Output = T> + Copy
    requires
        obeys_partial_cmp_spec_properties::<T>(),
    ensures
        a.overlaps_spec(b) == b.overlaps_spec(a),
{
    reveal(obeys_partial_cmp_spec_properties);
}

/// Two `Bounds2D` boxes that lie apart along some axis, without touching, do
/// not overlap.
pub proof fn law_bounds2d_apart_do_not_overlap<T>(a: Bounds2D<T>, b: Bounds2D<T>)
    where T: PartialOrd + Add<Output = T> + Sub<Output = T> + Copy
    requires
        obeys_partial_cmp_spec_properties::<T>(),
        (intervals_apart(a.x_min_spec(), a.x_max_spec(), b.x_min_spec(), b.x_max_spec())
            || intervals_apart(a.y_min_spec(), a.y_max_spec(), b.y_min_spec(), b.y_max_spec())),
    ensures
        !a.overlaps_spec(b),
{
    reveal(obeys_partial_cmp_spec_properties);
}

/// Two `Bounds2D` boxes that share a point of their interiors overlap.
pub proof fn law_bounds2d_sharing_interior_overlap<T>(
    a: Bounds2D<T>,
    b: Bounds2D<T>,
    point: Vector2<T>,
)
    where T: PartialOrd + Add<Output = T> + Sub<Output = T> + Copy
    requires
        obeys_partial_cmp_spec_properties::<T>(),
        strictly_within(a.x_min_spec(), a.x_max_spec(), point.x),
        strictly_within(a.y_min_spec(), a.y_max_spec(), point.y),
        strictly_within(b.x_min_spec(), b.x_max_spec(), point.x),
        strictly_within(b.y_min_spec(), b.y_max_spec(), point.y),
    ensures
        a.overlaps_spec(b),
{
    reveal(obeys_partial_cmp_spec_properties);
}

/// A `Bounds2D` of which every extent is positive contains its center. With a
/// zero extent it does not: its own bounds do not count as inside.
pub proof fn law_bounds2d_contains_center<T: Integral>(b: Bounds2D<T>)
    requires
        b.corners_req(),
        b.extents.x.val() > 0,
        b.extents.y.val() > 0,
    ensures
        b.contains_spec(b.center),
{
    lemma_integral::<T>();
}

/// Whether two `Cube` boxes overlap does not depend on which of them is asked.
pub proof fn law_cube_overlaps_symmetric<T>(a: Cube<T>, b: Cube<T>)
    where T: PartialOrd + Add<Output = T> + Copy
    requires
        obeys_partial_cmp_spec_properties::<T>(),
    ensures
        a.overlaps_spec(b) == b.overlaps_spec(a),
{
    reveal(obeys_partial_cmp_spec_properties);
}

/// Two `Cube` boxes that lie apart along some axis, without touching, do not
/// overlap.
pub proof fn law_cube_apart_do_not_overlap<T>(a: Cube<T>, b: Cube<T>)
    where T: PartialOrd + Add<Output = T> + Copy
    requires
        obeys_partial_cmp_spec_properties::<T>(),
        (intervals_apart(a.x_min_spec(), a.x_max_spec(), b.x_min_spec(), b.x_max_spec())
            || intervals_apart(a.y_min_spec(), a.y_max_spec(), b.y_min_spec(), b.y_max_spec())
            || intervals_apart(a.z_min_spec(), a.z_max_spec(), b.z_min_spec(), b.z_max_spec())),
    ensures
        !a.overlaps_spec(b),
{
    reveal(obeys_partial_cmp_spec_properties);
}

/// Two `Cube` boxes that share a point of their interiors overlap.
pub proof fn law_cube_sharing_interior_overlap<T>(a: Cube<T>, b: Cube<T>, point: Vector3<T>)
    where T: PartialOrd + Add<Output = T> + Copy
    requires
        obeys_partial_cmp_spec_properties::<T>(),
        strictly_within(a.x_min_spec(), a.x_max_spec(), point.x),
        strictly_within(a.y_min_spec(), a.y_max_spec(), point.y),
        strictly_within(a.z_min_spec(), a.z_max_spec(), point.z),
        strictly_within(b.x_min_spec(), b.x_max_spec(), point.x),
        strictly_within(b.y_min_spec(), b.y_max_spec(), point.y),
        strictly_within(b.z_min_spec(), b.z_max_spec(), point.z),
    ensures
        a.overlaps_spec(b),
{
    reveal(obeys_partial_cmp_spec_properties);
}

/// A `Cube` of which no size is negative contains its center.
pub proof fn law_cube_contains_center<T: Integral>(b: Cube<T>)
    requires
        b.center_req(),
        b.corners_req(),
        b.width.val() >= 0,
        b.height.val() >= 0,
        b.depth.val() >= 0,
    ensures
        b.contains_spec(b.center_spec()),
{
    lemma_integral::<T>();
}

/// Whether two `Area3D` boxes overlap does not depend on which of them is
/// asked.
pub proof fn law_area3d_overlaps_symmetric<T>(a: Area3D<T>, b: Area3D<T>)
    where T: PartialOrd + Copy
    requires
        obeys_partial_cmp_spec_properties::<T>(),
    ensures
        a.overlaps_spec(b) == b.overlaps_spec(a),
{
    reveal(obeys_partial_cmp_spec_properties);
}

/// Two `Area3D` boxes that lie apart along some axis, without touching, do not
/// overlap.
pub proof fn law_area3d_apart_do_not_overlap<T>(a: Area3D<T>, b: Area3D<T>)
    where T: PartialOrd + Copy
    requires
        obeys_partial_cmp_spec_properties::<T>(),
        (intervals_apart(a.x_min_spec(), a.x_max_spec(), b.x_min_spec(), b.x_max_spec())
            || intervals_apart(a.y_min_spec(), a.y_max_spec(), b.y_min_spec(), b.y_max_spec())
            || intervals_apart(a.z_min_spec(), a.z_max_spec(), b.z_min_spec(), b.z_max_spec())),
    ensures
        !a.overlaps_spec(b),
{
    reveal(obeys_partial_cmp_spec_properties);
}

/// Two `Area3D` boxes that share a point of their interiors overlap.
pub proof fn law_area3d_sharing_interior_overlap<T>(a: Area3D<T>, b: Area3D<T>, point: Vector3<T>)
    where T: PartialOrd + Copy
    requires
        obeys_partial_cmp_spec_properties::<T>(),
        strictly_within(a.x_min_spec(), a.x_max_spec(), point.x),
        strictly_within(a.y_min_spec(), a.y_max_spec(), point.y),
        strictly_within(a.z_min_spec(), a.z_max_spec(), point.z),
        strictly_within(b.x_min_spec(), b.x_max_spec(), point.x),
        strictly_within(b.y_min_spec(), b.y_max_spec(), point.y),
        strictly_within(b.z_min_spec(), b.z_max_spec(), point.z),
    ensures
        a.overlaps_spec(b),
{
    reveal(obeys_partial_cmp_spec_properties);
}

/// An `Area3D` of which no size is negative contains its center.
pub proof fn law_area3d_contains_center<T: Integral>(b: Area3D<T>)
    requires
        b.center_req(),
        b.lower_left.x.val() <= b.upper_right.x.val(),
        b.lower_left.y.val() <= b.upper_right.y.val(),
        b.lower_left.z.val() <= b.upper_right.z.val(),
    ensures
        b.contains_spec(b.center_spec()),
{
    lemma_integral::<T>();
}

/// Whether two `Bounds3D` boxes overlap does not depend on which of them is
/// asked.
pub proof fn law_bounds3d_overlaps_symmetric<T>(a: Bounds3D<T>, b: Bounds3D<T>)
    where T: PartialOrd + Add<Output = T> + Sub<Output = T> + Copy
    requires
        obeys_partial_cmp_spec_properties::<T>(),
    ensures
        a.overlaps_spec(b) == b.overlaps_spec(a),
{
    reveal(obeys_partial_cmp_spec_properties);
}

/// Two `Bounds3D` boxes that lie apart along some axis, without touching, do
/// not overlap.
pub proof fn law_bounds3d_apart_do_not_overlap<T>(a: Bounds3D<T>, b: Bounds3D<T>)
    where T: PartialOrd + Add<Output = T> + Sub<Output = T> + Copy
    requires
        obeys_partial_cmp_spec_properties::<T>(),
        (intervals_apart(a.x_min_spec(), a.x_max_spec(), b.x_min_spec(), b.x_max_spec())
            || intervals_apart(a.y_min_spec(), a.y_max_spec(), b.y_min_spec(), b.y_max_spec())
            || intervals_apart(a.z_min_spec(), a.z_max_spec(), b.z_min_spec(), b.z_max_spec())),
    ensures
        !a.overlaps_spec(b),
{
    reveal(obeys_partial_cmp_spec_properties);
}

/// Two `Bounds3D` boxes that share a point of their interiors overlap.
pub proof fn law_bounds3d_sharing_interior_overlap<T>(
    a: Bounds3D<T>,
    b: Bounds3D<T>,
    point: Vector3<T>,
)
    where T: PartialOrd + Add<Output = T> + Sub<Output = T> + Copy
    requires
        obeys_partial_cmp_spec_properties::<T>(),
        strictly_within(a.x_min_spec(), a.x_max_spec(), point.x),
        strictly_within(a.y_min_spec(), a.y_max_spec(), point.y),
        strictly_within(a.z_min_spec(), a.z_max_spec(), point.z),
        strictly_within(b.x_min_spec(), b.x_max_spec(), point.x),
        strictly_within(b.y_min_spec(), b.y_max_spec(), point.y),
        strictly_within(b.z_min_spec(), b.z_max_spec(), point.z),
    ensures
        a.overlaps_spec(b),
{
    reveal(obeys_partial_cmp_spec_properties);
}

/// A `Bounds3D` of which every extent is positive contains its center. With a
/// zero extent it does not: its own bounds do not count as inside.
pub proof fn law_bounds3d_contains_center<T: Integral>(b: Bounds3D<T>)
    requires
        b.corners_req(),
        b.extents.x.val() > 0,
        b.extents.y.val() > 0,
        b.extents.z.val() > 0,
    ensures
        b.contains_spec(b.center),
{
    lemma_integral::<T>();
}

/// Whether two `Area4D` boxes overlap does not depend on which of them is
/// asked.
pub proof fn law_area4d_overlaps_symmetric<T>(a: Area4D<T>, b: Area4D<T>)
    where T: PartialOrd + Copy
    requires
        obeys_partial_cmp_spec_properties::<T>(),
    ensures
        a.overlaps_spec(b) == b.overlaps_spec(a),
{
    reveal(obeys_partial_cmp_spec_properties);
}

/// Two `Area4D` boxes that lie apart along some axis, without touching, do not
/// overlap.
pub proof fn law_area4d_apart_do_not_overlap<T>(a: Area4D<T>, b: Area4D<T>)
    where T: PartialOrd + Copy
    requires
        obeys_partial_cmp_spec_properties::<T>(),
        (intervals_apart(a.x_min_spec(), a.x_max_spec(), b.x_min_spec(), b.x_max_spec())
            || intervals_apart(a.y_min_spec(), a.y_max_spec(), b.y_min_spec(), b.y_max_spec())
            || intervals_apart(a.z_min_spec(), a.z_max_spec(), b.z_min_spec(), b.z_max_spec())
            || intervals_apart(a.w_min_spec(), a.w_max_spec(), b.w_min_spec(), b.w_max_spec())),
    ensures
        !a.overlaps_spec(b),
{
    reveal(obeys_partial_cmp_spec_properties);
}

/// Two `Area4D` boxes that share a point of their interiors overlap.
pub proof fn law_area4d_sharing_interior_overlap<T>(a: Area4D<T>, b: Area4D<T>, point: Vector4<T>)
    where T: PartialOrd + Copy
    requires
        obeys_partial_cmp_spec_properties::<T>(),
        strictly_within(a.x_min_spec(), a.x_max_spec(), point.x),
        strictly_within(a.y_min_spec(), a.y_max_spec(), point.y),
        strictly_within(a.z_min_spec(), a.z_max_spec(), point.z),
        strictly_within(a.w_min_spec(), a.w_max_spec(), point.w),
        strictly_within(b.x_min_spec(), b.x_max_spec(), point.x),
        strictly_within(b.y_min_spec(), b.y_max_spec(), point.y),
        strictly_within(b.z_min_spec(), b.z_max_spec(), point.z),
        strictly_within(b.w_min_spec(), b.w_max_spec(), point.w),
    ensures
        a.overlaps_spec(b),
{
    reveal(obeys_partial_cmp_spec_properties);
}

/// An `Area4D` of which no size is negative contains its center.
pub proof fn law_area4d_contains_center<T: Integral>(b: Area4D<T>)
    requires
        b.center_req(),
        b.lower_left.x.val() <= b.upper_right.x.val(),
        b.lower_left.y.val() <= b.upper_right.y.val(),
        b.lower_left.z.val() <= b.upper_right.z.val(),
        b.lower_left.w.val() <= b.upper_right.w.val(),
    ensures
        b.contains_spec(b.center_spec()),
{
    lemma_integral::<T>();
}

/// Whether two `Bounds4D` boxes overlap does not depend on which of them is
/// asked.
pub proof fn law_bounds4d_overlaps_symmetric<T>(a: Bounds4D<T>, b: Bounds4D<T>)
    where T: PartialOrd + Add<Output = T> + Sub<Output = T> + Copy
    requires
        obeys_partial_cmp_spec_properties::<T>(),
    ensures
        a.overlaps_spec(b) == b.overlaps_spec(a),
{
    reveal(obeys_partial_cmp_spec_properties);
}

/// Two `Bounds4D` boxes that lie apart along some axis, without touching, do
/// not overlap.
pub proof fn law_bounds4d_apart_do_not_overlap<T>(a: Bounds4D<T>, b: Bounds4D<T>)
    where T: PartialOrd + Add<Output = T> + Sub<Output = T> + Copy
    requires
        obeys_partial_cmp_spec_properties::<T>(),
        (intervals_apart(a.x_min_spec(), a.x_max_spec(), b.x_min_spec(), b.x_max_spec())
            || intervals_apart(a.y_min_spec(), a.y_max_spec(), b.y_min_spec(), b.y_max_spec())
            || intervals_apart(a.z_min_spec(), a.z_max_spec(), b.z_min_spec(), b.z_max_spec())
            || intervals_apart(a.w_min_spec(), a.w_max_spec(), b.w_min_spec(), b.w_max_spec())),
    ensures
        !a.overlaps_spec(b),
{
    reveal(obeys_partial_cmp_spec_properties);
}

/// Two `Bounds4D` boxes that share a point of their interiors overlap.
pub proof fn law_bounds4d_sharing_interior_overlap<T>(
    a: Bounds4D<T>,
    b: Bounds4D<T>,
    point: Vector4<T>,
)
    where T: PartialOrd + Add<Output = T> + Sub<Output = T> + Copy
    requires
        obeys_partial_cmp_spec_properties::<T>(),
        strictly_within(a.x_min_spec(), a.x_max_spec(), point.x),
        strictly_within(a.y_min_spec(), a.y_max_spec(), point.y),
        strictly_within(a.z_min_spec(), a.z_max_spec(), point.z),
        strictly_within(a.w_min_spec(), a.w_max_spec(), point.w),
        strictly_within(b.x_min_spec(), b.x_max_spec(), point.x),
        strictly_within(b.y_min_spec(), b.y_max_spec(), point.y),
        strictly_within(b.z_min_spec(), b.z_max_spec(), point.z),
        strictly_within(b.w_min_spec(), b.w_max_spec(), point.w),
    ensures
        a.overlaps_spec(b),
{
    reveal(obeys_partial_cmp_spec_properties);
}

/// A `Bounds4D` of which every extent is positive contains its center. With a
/// zero extent it does not: its own bounds do not count as inside.
pub proof fn law_bounds4d_contains_center<T: Integral>(b: Bounds4D<T>)
    requires
        b.corners_req(),
        b.extents.x.val() > 0,
        b.extents.y.val() > 0,
        b.extents.z.val() > 0,
        b.extents.w.val() > 0,
    ensures
        b.contains_spec(b.center),
{
    lemma_integral::<T>();
}

/// Two `Circle` whose centers lie apart by exactly the sum of their radii,
/// squared distance against squared sum, do not overlap.
pub proof fn law_circle_touching_do_not_overlap<T>(a: Circle<T>, b: Circle<T>)
    where T: PartialOrd + Add<Output = T> + Sub<Output = T> + Mul<Output = T> + Copy
    requires
        obeys_partial_cmp_spec_properties::<T>(),
        Vector2::sqr_distance_spec(b.center, a.center) ==
            a.radius.add_spec(b.radius).mul_spec(a.radius.add_spec(b.radius)),
    ensures
        !a.overlaps_spec(b),
{
    reveal(obeys_partial_cmp_spec_properties);
}

/// Two `Circle` whose centers lie closer than the sum of their radii, squared
/// distance against squared sum, overlap.
pub proof fn law_circle_closer_overlap<T>(a: Circle<T>, b: Circle<T>)
    where T: PartialOrd + Add<Output = T> + Sub<Output = T> + Mul<Output = T> + Copy
    requires
        Vector2::sqr_distance_spec(b.center, a.center).is_lt(
            &a.radius.add_spec(b.radius).mul_spec(a.radius.add_spec(b.radius)),
        ),
    ensures
        a.overlaps_spec(b),
{
}

/// Whether two `Circle` overlap does not depend on which of them is asked.
pub proof fn law_circle_overlaps_symmetric<T: Integral>(a: Circle<T>, b: Circle<T>)
    requires
        a.overlaps_req(b),
        b.overlaps_req(a),
    ensures
        a.overlaps_spec(b) == b.overlaps_spec(a),
{
    lemma_integral::<T>();
    lemma_square_of_difference(a.center.x.val(), b.center.x.val());
    lemma_square_of_difference(a.center.y.val(), b.center.y.val());
}

/// Two `Sphere` whose centers lie apart by exactly the sum of their radii,
/// squared distance against squared sum, do not overlap.
pub proof fn law_sphere_touching_do_not_overlap<T>(a: Sphere<T>, b: Sphere<T>)
    where T: PartialOrd + Add<Output = T> + Sub<Output = T> + Mul<Output = T> + Copy
    requires
        obeys_partial_cmp_spec_properties::<T>(),
        Vector3::sqr_distance_spec(b.center, a.center) ==
            a.radius.add_spec(b.radius).mul_spec(a.radius.add_spec(b.radius)),
    ensures
        !a.overlaps_spec(b),
{
    reveal(obeys_partial_cmp_spec_properties);
}

/// Two `Sphere` whose centers lie closer than the sum of their radii, squared
/// distance against squared sum, overlap.
pub proof fn law_sphere_closer_overlap<T>(a: Sphere<T>, b: Sphere<T>)
    where T: PartialOrd + Add<Output = T> + Sub<Output = T> + Mul<Output = T> + Copy
    requires
        Vector3::sqr_distance_spec(b.center, a.center).is_lt(
            &a.radius.add_spec(b.radius).mul_spec(a.radius.add_spec(b.radius)),
        ),
    ensures
        a.overlaps_spec(b),
{
}

/// Whether two `Sphere` overlap does not depend on which of them is asked.
pub proof fn law_sphere_overlaps_symmetric<T: Integral>(a: Sphere<T>, b: Sphere<T>)
    requires
        a.overlaps_req(b),
        b.overlaps_req(a),
    ensures
        a.overlaps_spec(b) == b.overlaps_spec(a),
{
    lemma_integral::<T>();
    lemma_square_of_difference(a.center.x.val(), b.center.x.val());
    lemma_square_of_difference(a.center.y.val(), b.center.y.val());
    lemma_square_of_difference(a.center.z.val(), b.center.z.val());
}

/// Two `HyperSphere` whose centers lie apart by exactly the sum of their radii,
/// squared distance against squared sum, do not overlap.
pub proof fn law_hyper_sphere_touching_do_not_overlap<T>(a: HyperSphere<T>, b: HyperSphere<T>)
    where T: PartialOrd + Add<Output = T> + Sub<Output = T> + Mul<Output = T> + Copy
    requires
        obeys_partial_cmp_spec_properties::<T>(),
        Vector4::sqr_distance_spec(b.center, a.center) ==
            a.radius.add_spec(b.radius).mul_spec(a.radius.add_spec(b.radius)),
    ensures
        !a.overlaps_spec(b),
{
    reveal(obeys_partial_cmp_spec_properties);
}

/// Two `HyperSphere` whose centers lie closer than the sum of their radii,
/// squared distance against squared sum, overlap.
pub proof fn law_hyper_sphere_closer_overlap<T>(a: HyperSphere<T>, b: HyperSphere<T>)
    where T: PartialOrd + Add<Output = T> + Sub<Output = T> + Mul<Output = T> + Copy
    requires
        Vector4::sqr_distance_spec(b.center, a.center).is_lt(
            &a.radius.add_spec(b.radius).mul_spec(a.radius.add_spec(b.radius)),
        ),
    ensures
        a.overlaps_spec(b),
{
}

/// Whether two `HyperSphere` overlap does not depend on which of them is asked.
pub proof fn law_hyper_sphere_overlaps_symmetric<T: Integral>(a: HyperSphere<T>, b: HyperSphere<T>)
    requires
        a.overlaps_req(b),
        b.overlaps_req(a),
    ensures
        a.overlaps_spec(b) == b.overlaps_spec(a),
{
    lemma_integral::<T>();
    lemma_square_of_difference(a.center.x.val(), b.center.x.val());
    lemma_square_of_difference(a.center.y.val(), b.center.y.val());
    lemma_square_of_difference(a.center.z.val(), b.center.z.val());
    lemma_square_of_difference(a.center.w.val(), b.center.w.val());
}

/// The square of a difference does not depend on the order of its terms.
proof fn lemma_square_of_difference(x: int, y: int)
    ensures
        (x - y) * (x - y) == (y - x) * (y - x),
{
    assert((x - y) * (x - y) == (y - x) * (y - x)) by (nonlinear_arith);
}

} // verus!
