//! What the predicates and formulas mean on mathematical integers.

use vstd::prelude::*;
use vstd::std_specs::ops::{MulSpec, SubSpec};
use crate::interpolate::{interpolate_req, interpolate_spec};
use crate::numeric::{lemma_integral, trunc_div, Integral};
use crate::shapes::{
    Area2D, Area3D, Area4D, Bounds2D, Bounds3D, Bounds4D, Circle, Cube, HyperSphere, Line2D, Rect,
    Sphere,
};
use crate::vectors::{Vector2, Vector3, Vector4};

verus! {

/// On integers, a `Rect` contains the points whose every coordinate lies
/// between the corner and the corner plus the size, the two included.
pub proof fn law_rect_contains_means<T: Integral>(b: Rect<T>, point: Vector2<T>)
    requires
        b.corners_req(),
    ensures
        b.contains_spec(point) <==> (b.x.val() <= point.x.val() <= b.x.val() + b.width.val()
            && b.y.val() <= point.y.val() <= b.y.val() + b.height.val()),
{
    lemma_integral::<T>();
}

/// On integers, two `Rect` boxes overlap just when, along every axis, each
/// begins before the other ends.
pub proof fn law_rect_overlaps_means<T: Integral>(a: Rect<T>, b: Rect<T>)
    requires
        a.corners_req(),
        b.corners_req(),
    ensures
        a.overlaps_spec(b) <==> (a.x.val() < b.x.val() + b.width.val()
            && a.x.val() + a.width.val() > b.x.val()
            && a.y.val() < b.y.val() + b.height.val()
            && a.y.val() + a.height.val() > b.y.val()),
{
    lemma_integral::<T>();
}

/// On integers, the center of a `Rect` lies half a size, rounded towards zero,
/// past the corner.
pub proof fn law_rect_center_means<T: Integral>(b: Rect<T>)
    requires
        b.center_req(),
    ensures
        b.center_spec().x.val() == b.x.val() + trunc_div(b.width.val(), 2),
        b.center_spec().y.val() == b.y.val() + trunc_div(b.height.val(), 2),
{
    lemma_integral::<T>();
}

/// On integers, an `Area2D` contains the points whose every coordinate lies
/// between the two corners, the two included.
pub proof fn law_area2d_contains_means<T: Integral>(b: Area2D<T>, point: Vector2<T>)
    ensures
        b.contains_spec(point) <==> (b.lower_left.x.val() <= point.x.val() <= b.upper_right.x.val()
            && b.lower_left.y.val() <= point.y.val() <= b.upper_right.y.val()),
{
    lemma_integral::<T>();
}

/// On integers, two `Area2D` boxes overlap just when, along every axis, each
/// begins before the other ends.
pub proof fn law_area2d_overlaps_means<T: Integral>(a: Area2D<T>, b: Area2D<T>)
    ensures
        a.overlaps_spec(b) <==> (a.lower_left.x.val() < b.upper_right.x.val()
            && a.upper_right.x.val() > b.lower_left.x.val()
            && a.lower_left.y.val() < b.upper_right.y.val()
            && a.upper_right.y.val() > b.lower_left.y.val()),
{
    lemma_integral::<T>();
}

/// On integers, the center of an `Area2D` lies half a size, rounded towards
/// zero, past the least corner.
pub proof fn law_area2d_center_means<T: Integral>(b: Area2D<T>)
    requires
        b.center_req(),
    ensures
        b.center_spec().x.val() == b.lower_left.x.val() + trunc_div(
            b.upper_right.x.val() - b.lower_left.x.val(),
            2,
        ),
        b.center_spec().y.val() == b.lower_left.y.val() + trunc_div(
            b.upper_right.y.val() - b.lower_left.y.val(),
            2,
        ),
{
    lemma_integral::<T>();
}

/// On integers, a `Bounds2D` contains the points whose every coordinate lies
/// strictly between center less extent and center plus extent.
pub proof fn law_bounds2d_contains_means<T: Integral>(b: Bounds2D<T>, point: Vector2<T>)
    requires
        b.corners_req(),
    ensures
        b.contains_spec(point) <==>
            (b.center.x.val() - b.extents.x.val() <
                point.x.val() < b.center.x.val() + b.extents.x.val()
            && b.center.y.val() - b.extents.y.val() <
                point.y.val() < b.center.y.val() + b.extents.y.val()),
{
    lemma_integral::<T>();
}

/// On integers, two `Bounds2D` boxes overlap just when, along every axis, each
/// begins before the other ends.
pub proof fn law_bounds2d_overlaps_means<T: Integral>(a: Bounds2D<T>, b: Bounds2D<T>)
    requires
        a.corners_req(),
        b.corners_req(),
    ensures
        a.overlaps_spec(b) <==>
            (a.center.x.val() - a.extents.x.val() < b.center.x.val() + b.extents.x.val()
            && a.center.x.val() + a.extents.x.val() > b.center.x.val() - b.extents.x.val()
            && a.center.y.val() - a.extents.y.val() < b.center.y.val() + b.extents.y.val()
            && a.center.y.val() + a.extents.y.val() > b.center.y.val() - b.extents.y.val()),
{
    lemma_integral::<T>();
}

/// On integers, a `Cube` contains the points whose every coordinate lies
/// between the corner and the corner plus the size, the two included.
pub proof fn law_cube_contains_means<T: Integral>(b: Cube<T>, point: Vector3<T>)
    requires
        b.corners_req(),
    ensures
        b.contains_spec(point) <==> (b.x.val() <= point.x.val() <= b.x.val() + b.width.val()
            && b.y.val() <= point.y.val() <= b.y.val() + b.height.val()
            && b.z.val() <= point.z.val() <= b.z.val() + b.depth.val()),
{
    lemma_integral::<T>();
}

/// On integers, two `Cube` boxes overlap just when, along every axis, each
/// begins before the other ends.
pub proof fn law_cube_overlaps_means<T: Integral>(a: Cube<T>, b: Cube<T>)
    requires
        a.corners_req(),
        b.corners_req(),
    ensures
        a.overlaps_spec(b) <==> (a.x.val() < b.x.val() + b.width.val()
            && a.x.val() + a.width.val() > b.x.val()
            && a.y.val() < b.y.val() + b.height.val()
            && a.y.val() + a.height.val() > b.y.val()
            && a.z.val() < b.z.val() + b.depth.val()
            && a.z.val() + a.depth.val() > b.z.val()),
{
    lemma_integral::<T>();
}

/// On integers, the center of a `Cube` lies half a size, rounded towards zero,
/// past the corner.
pub proof fn law_cube_center_means<T: Integral>(b: Cube<T>)
    requires
        b.center_req(),
    ensures
        b.center_spec().x.val() == b.x.val() + trunc_div(b.width.val(), 2),
        b.center_spec().y.val() == b.y.val() + trunc_div(b.height.val(), 2),
        b.center_spec().z.val() == b.z.val() + trunc_div(b.depth.val(), 2),
{
    lemma_integral::<T>();
}

/// On integers, an `Area3D` contains the points whose every coordinate lies
/// between the two corners, the two included.
pub proof fn law_area3d_contains_means<T: Integral>(b: Area3D<T>, point: Vector3<T>)
    ensures
        b.contains_spec(point) <==> (b.lower_left.x.val() <= point.x.val() <= b.upper_right.x.val()
            && b.lower_left.y.val() <= point.y.val() <= b.upper_right.y.val()
            && b.lower_left.z.val() <= point.z.val() <= b.upper_right.z.val()),
{
    lemma_integral::<T>();
}

/// On integers, two `Area3D` boxes overlap just when, along every axis, each
/// begins before the other ends.
pub proof fn law_area3d_overlaps_means<T: Integral>(a: Area3D<T>, b: Area3D<T>)
    ensures
        a.overlaps_spec(b) <==> (a.lower_left.x.val() < b.upper_right.x.val()
            && a.upper_right.x.val() > b.lower_left.x.val()
            && a.lower_left.y.val() < b.upper_right.y.val()
            && a.upper_right.y.val() > b.lower_left.y.val()
            && a.lower_left.z.val() < b.upper_right.z.val()
            && a.upper_right.z.val() > b.lower_left.z.val()),
{
    lemma_integral::<T>();
}

/// On integers, the center of an `Area3D` is half the sum of the corners,
/// rounded towards zero.
pub proof fn law_area3d_center_means<T: Integral>(b: Area3D<T>)
    requires
        b.center_req(),
    ensures
        b.center_spec().x.val() == trunc_div(b.lower_left.x.val() + b.upper_right.x.val(), 2),
        b.center_spec().y.val() == trunc_div(b.lower_left.y.val() + b.upper_right.y.val(), 2),
        b.center_spec().z.val() == trunc_div(b.lower_left.z.val() + b.upper_right.z.val(), 2),
{
    lemma_integral::<T>();
}

/// On integers, a `Bounds3D` contains the points whose every coordinate lies
/// strictly between center less extent and center plus extent.
pub proof fn law_bounds3d_contains_means<T: Integral>(b: Bounds3D<T>, point: Vector3<T>)
    requires
        b.corners_req(),
    ensures
        b.contains_spec(point) <==>
            (b.center.x.val() - b.extents.x.val() <
                point.x.val() < b.center.x.val() + b.extents.x.val()
            && b.center.y.val() - b.extents.y.val() <
                point.y.val() < b.center.y.val() + b.extents.y.val()
            && b.center.z.val() - b.extents.z.val() <
                point.z.val() < b.center.z.val() + b.extents.z.val()),
{
    lemma_integral::<T>();
}

/// On integers, two `Bounds3D` boxes overlap just when, along every axis, each
/// begins before the other ends.
pub proof fn law_bounds3d_overlaps_means<T: Integral>(a: Bounds3D<T>, b: Bounds3D<T>)
    requires
        a.corners_req(),
        b.corners_req(),
    ensures
        a.overlaps_spec(b) <==>
            (a.center.x.val() - a.extents.x.val() < b.center.x.val() + b.extents.x.val()
            && a.center.x.val() + a.extents.x.val() > b.center.x.val() - b.extents.x.val()
            && a.center.y.val() - a.extents.y.val() < b.center.y.val() + b.extents.y.val()
            && a.center.y.val() + a.extents.y.val() > b.center.y.val() - b.extents.y.val()
            && a.center.z.val() - a.extents.z.val() < b.center.z.val() + b.extents.z.val()
            && a.center.z.val() + a.extents.z.val() > b.center.z.val() - b.extents.z.val()),
{
    lemma_integral::<T>();
}

/// On integers, an `Area4D` contains the points whose every coordinate lies
/// between the two corners, the two included.
pub proof fn law_area4d_contains_means<T: Integral>(b: Area4D<T>, point: Vector4<T>)
    ensures
        b.contains_spec(point) <==> (b.lower_left.x.val() <= point.x.val() <= b.upper_right.x.val()
            && b.lower_left.y.val() <= point.y.val() <= b.upper_right.y.val()
            && b.lower_left.z.val() <= point.z.val() <= b.upper_right.z.val()
            && b.lower_left.w.val() <= point.w.val() <= b.upper_right.w.val()),
{
    lemma_integral::<T>();
}

/// On integers, two `Area4D` boxes overlap just when, along every axis, each
/// begins before the other ends.
pub proof fn law_area4d_overlaps_means<T: Integral>(a: Area4D<T>, b: Area4D<T>)
    ensures
        a.overlaps_spec(b) <==> (a.lower_left.x.val() < b.upper_right.x.val()
            && a.upper_right.x.val() > b.lower_left.x.val()
            && a.lower_left.y.val() < b.upper_right.y.val()
            && a.upper_right.y.val() > b.lower_left.y.val()
            && a.lower_left.z.val() < b.upper_right.z.val()
            && a.upper_right.z.val() > b.lower_left.z.val()
            && a.lower_left.w.val() < b.upper_right.w.val()
            && a.upper_right.w.val() > b.lower_left.w.val()),
{
    lemma_integral::<T>();
}

/// On integers, the center of an `Area4D` is half the sum of the corners,
/// rounded towards zero.
pub proof fn law_area4d_center_means<T: Integral>(b: Area4D<T>)
    requires
        b.center_req(),
    ensures
        b.center_spec().x.val() == trunc_div(b.lower_left.x.val() + b.upper_right.x.val(), 2),
        b.center_spec().y.val() == trunc_div(b.lower_left.y.val() + b.upper_right.y.val(), 2),
        b.center_spec().z.val() == trunc_div(b.lower_left.z.val() + b.upper_right.z.val(), 2),
        b.center_spec().w.val() == trunc_div(b.lower_left.w.val() + b.upper_right.w.val(), 2),
{
    lemma_integral::<T>();
}

/// On integers, a `Bounds4D` contains the points whose every coordinate lies
/// strictly between center less extent and center plus extent.
pub proof fn law_bounds4d_contains_means<T: Integral>(b: Bounds4D<T>, point: Vector4<T>)
    requires
        b.corners_req(),
    ensures
        b.contains_spec(point) <==>
            (b.center.x.val() - b.extents.x.val() <
                point.x.val() < b.center.x.val() + b.extents.x.val()
            && b.center.y.val() - b.extents.y.val() <
                point.y.val() < b.center.y.val() + b.extents.y.val()
            && b.center.z.val() - b.extents.z.val() <
                point.z.val() < b.center.z.val() + b.extents.z.val()
            && b.center.w.val() - b.extents.w.val() <
                point.w.val() < b.center.w.val() + b.extents.w.val()),
{
    lemma_integral::<T>();
}

/// On integers, two `Bounds4D` boxes overlap just when, along every axis, each
/// begins before the other ends.
pub proof fn law_bounds4d_overlaps_means<T: Integral>(a: Bounds4D<T>, b: Bounds4D<T>)
    requires
        a.corners_req(),
        b.corners_req(),
    ensures
        a.overlaps_spec(b) <==>
            (a.center.x.val() - a.extents.x.val() < b.center.x.val() + b.extents.x.val()
            && a.center.x.val() + a.extents.x.val() > b.center.x.val() - b.extents.x.val()
            && a.center.y.val() - a.extents.y.val() < b.center.y.val() + b.extents.y.val()
            && a.center.y.val() + a.extents.y.val() > b.center.y.val() - b.extents.y.val()
            && a.center.z.val() - a.extents.z.val() < b.center.z.val() + b.extents.z.val()
            && a.center.z.val() + a.extents.z.val() > b.center.z.val() - b.extents.z.val()
            && a.center.w.val() - a.extents.w.val() < b.center.w.val() + b.extents.w.val()
            && a.center.w.val() + a.extents.w.val() > b.center.w.val() - b.extents.w.val()),
{
    lemma_integral::<T>();
}

/// The square of an integer.
pub open spec fn square(a: int) -> int {
    a * a
}

/// On integers, a `Circle` contains the points whose squared distance from the
/// center is at most the squared radius.
pub proof fn law_circle_contains_means<T: Integral>(b: Circle<T>, point: Vector2<T>)
    requires
        Vector2::sqr_distance_req(point, b.center),
        b.radius.mul_req(b.radius),
    ensures
        b.contains_spec(point) <==> (square(point.x.val() - b.center.x.val())
            + square(point.y.val() - b.center.y.val())
            <= square(b.radius.val())),
{
    lemma_integral::<T>();
}

/// On integers, two `Circle` overlap just when the squared distance of their
/// centers is less than the square of the sum of their radii.
pub proof fn law_circle_overlaps_means<T: Integral>(a: Circle<T>, b: Circle<T>)
    requires
        a.overlaps_req(b),
    ensures
        a.overlaps_spec(b) <==> (square(b.center.x.val() - a.center.x.val())
            + square(b.center.y.val() - a.center.y.val())
            < square(a.radius.val() + b.radius.val())),
{
    lemma_integral::<T>();
}

/// On integers, a `Sphere` contains the points whose squared distance from the
/// center is at most the squared radius.
pub proof fn law_sphere_contains_means<T: Integral>(b: Sphere<T>, point: Vector3<T>)
    requires
        Vector3::sqr_distance_req(point, b.center),
        b.radius.mul_req(b.radius),
    ensures
        b.contains_spec(point) <==> (square(point.x.val() - b.center.x.val())
            + square(point.y.val() - b.center.y.val())
            + square(point.z.val() - b.center.z.val())
            <= square(b.radius.val())),
{
    lemma_integral::<T>();
}

/// On integers, two `Sphere` overlap just when the squared distance of their
/// centers is less than the square of the sum of their radii.
pub proof fn law_sphere_overlaps_means<T: Integral>(a: Sphere<T>, b: Sphere<T>)
    requires
        a.overlaps_req(b),
    ensures
        a.overlaps_spec(b) <==> (square(b.center.x.val() - a.center.x.val())
            + square(b.center.y.val() - a.center.y.val())
            + square(b.center.z.val() - a.center.z.val())
            < square(a.radius.val() + b.radius.val())),
{
    lemma_integral::<T>();
}

/// On integers, a `HyperSphere` contains the points whose squared distance from
/// the center is at most the squared radius.
pub proof fn law_hyper_sphere_contains_means<T: Integral>(b: HyperSphere<T>, point: Vector4<T>)
    requires
        Vector4::sqr_distance_req(point, b.center),
        b.radius.mul_req(b.radius),
    ensures
        b.contains_spec(point) <==> (square(point.x.val() - b.center.x.val())
            + square(point.y.val() - b.center.y.val())
            + square(point.z.val() - b.center.z.val())
            + square(point.w.val() - b.center.w.val())
            <= square(b.radius.val())),
{
    lemma_integral::<T>();
}

/// On integers, two `HyperSphere` overlap just when the squared distance of
/// their centers is less than the square of the sum of their radii.
pub proof fn law_hyper_sphere_overlaps_means<T: Integral>(a: HyperSphere<T>, b: HyperSphere<T>)
    requires
        a.overlaps_req(b),
    ensures
        a.overlaps_spec(b) <==> (square(b.center.x.val() - a.center.x.val())
            + square(b.center.y.val() - a.center.y.val())
            + square(b.center.z.val() - a.center.z.val())
            + square(b.center.w.val() - a.center.w.val())
            < square(a.radius.val() + b.radius.val())),
{
    lemma_integral::<T>();
}

/// On integers, `interpolate` is `a + (b - a) * t`.
pub proof fn law_interpolate_means<T: Integral>(a: T, b: T, t: T)
    requires
        interpolate_req(a, b, t),
    ensures
        interpolate_spec(a, b, t).val() == a.val() + (b.val() - a.val()) * t.val(),
{
    lemma_integral::<T>();
}

/// The least of two integers.
pub open spec fn least(a: int, b: int) -> int {
    if a <= b {
        a
    } else {
        b
    }
}

/// The greatest of two integers.
pub open spec fn greatest(a: int, b: int) -> int {
    if a >= b {
        a
    } else {
        b
    }
}

/// On integers, two spans meet just when each begins no later than the other
/// ends: the test that tells segments apart before any product is right.
pub proof fn law_spans_meet_means<T: Integral>(a_from: T, a_to: T, b_from: T, b_to: T)
    requires
        a_to.sub_req(a_from),
        b_from.sub_req(b_to),
    ensures
        Line2D::spans_meet(a_from, a_to, b_from, b_to) <==> (least(a_from.val(), a_to.val())
            <= greatest(b_from.val(), b_to.val()) && least(b_from.val(), b_to.val())
            <= greatest(a_from.val(), a_to.val())),
{
    lemma_integral::<T>();
}

/// On integers, `ratio_in_unit` holds just when the numerator lies between
/// zero and the denominator, whatever the sign of the denominator: the ratio
/// lies between zero and one.
pub proof fn law_ratio_in_unit_means<T: Integral>(numerator: T, denominator: T)
    ensures
        Line2D::ratio_in_unit(numerator, denominator) <==> (if denominator.val() > 0 {
            0 <= numerator.val() <= denominator.val()
        } else {
            denominator.val() <= numerator.val() <= 0
        }),
{
    lemma_integral::<T>();
}

/// Whether the products and differences of the numerators and of the
/// denominator of `a.intersects(b)` are defined.
pub open spec fn numerators_req<T: Integral>(a: Line2D<T>, b: Line2D<T>) -> bool {
    let ax = a.end.x.sub_spec(a.start.x);
    let bx = b.start.x.sub_spec(b.end.x);
    let ay = a.end.y.sub_spec(a.start.y);
    let by = b.start.y.sub_spec(b.end.y);
    let cx = a.start.x.sub_spec(b.start.x);
    let cy = a.start.y.sub_spec(b.start.y);
    &&& a.end.x.sub_req(a.start.x)
    &&& b.start.x.sub_req(b.end.x)
    &&& a.end.y.sub_req(a.start.y)
    &&& b.start.y.sub_req(b.end.y)
    &&& a.start.x.sub_req(b.start.x)
    &&& a.start.y.sub_req(b.start.y)
    &&& b.end.sub_req(b.start)
    &&& by.mul_req(cx)
    &&& bx.mul_req(cy)
    &&& by.mul_spec(cx).sub_req(bx.mul_spec(cy))
    &&& ay.mul_req(bx)
    &&& ax.mul_req(by)
    &&& ay.mul_spec(bx).sub_req(ax.mul_spec(by))
    &&& ax.mul_req(cy)
    &&& ay.mul_req(cx)
    &&& ax.mul_spec(cy).sub_req(ay.mul_spec(cx))
}

/// On integers, the numerators and the denominator of `intersects` solve the
/// system `start + alpha * (end - start) = other.start + beta * (other.end -
/// other.start)`, multiplied by the denominator: the point of `a` at the
/// place `alpha_numerator / denominator` is the point of `b` at the place
/// `beta_numerator / denominator`.
pub proof fn law_numerators_solve_the_system<T: Integral>(a: Line2D<T>, b: Line2D<T>)
    requires
        numerators_req(a, b),
    ensures
        a.denominator(b).val() * a.start.x.val() +
            a.alpha_numerator(b).val() * a.delta_spec().x.val()
            == a.denominator(b).val() * b.start.x.val() + a.beta_numerator(b).val()
            * b.delta_spec().x.val(),
        a.denominator(b).val() * a.start.y.val() +
            a.alpha_numerator(b).val() * a.delta_spec().y.val()
            == a.denominator(b).val() * b.start.y.val() + a.beta_numerator(b).val()
            * b.delta_spec().y.val(),
{
    lemma_integral::<T>();
    let ax = a.end.x.val() - a.start.x.val();
    let bx = b.start.x.val() - b.end.x.val();
    let ay = a.end.y.val() - a.start.y.val();
    let by = b.start.y.val() - b.end.y.val();
    let cx = a.start.x.val() - b.start.x.val();
    let cy = a.start.y.val() - b.start.y.val();
    assert(a.alpha_numerator(b).val() == by * cx - bx * cy);
    assert(a.beta_numerator(b).val() == ax * cy - ay * cx);
    assert(a.denominator(b).val() == ay * bx - ax * by);
    let f = ay * bx - ax * by;
    let d = by * cx - bx * cy;
    let e = ax * cy - ay * cx;
    lemma_numerators_cancel(ax, ay, bx, by, cx, cy);
    lemma_numerators_cancel(ay, ax, by, bx, cy, cx);
    assert(f * cx == f * a.start.x.val() - f * b.start.x.val()) by (nonlinear_arith)
        requires
            cx == a.start.x.val() - b.start.x.val(),
    ;
    assert(f * cy == f * a.start.y.val() - f * b.start.y.val()) by (nonlinear_arith)
        requires
            cy == a.start.y.val() - b.start.y.val(),
    ;
    assert(e * (-bx) == -(e * bx)) by (nonlinear_arith);
    assert(e * (-by) == -(e * by)) by (nonlinear_arith);
}

/// On integers, segments cross, as `intersects` tells it, just when the
/// denominator is not zero and both numerators lie between zero and the
/// denominator: the lines are not parallel, and the point that they share
/// lies at a place between zero and one along either segment. The test of
/// the spans that comes first tells no such pair apart.
pub proof fn law_crosses_means<T: Integral>(a: Line2D<T>, b: Line2D<T>)
    requires
        numerators_req(a, b),
    ensures
        a.crosses(b) <==> (a.denominator(b).val() != 0 && Line2D::ratio_in_unit(
            a.alpha_numerator(b),
            a.denominator(b),
        ) && Line2D::ratio_in_unit(a.beta_numerator(b), a.denominator(b))),
{
    lemma_integral::<T>();
    let f = a.denominator(b).val();
    let d = a.alpha_numerator(b).val();
    let e = a.beta_numerator(b).val();
    if f != 0 && Line2D::ratio_in_unit(a.alpha_numerator(b), a.denominator(b))
        && Line2D::ratio_in_unit(a.beta_numerator(b), a.denominator(b)) {
        law_numerators_solve_the_system(a, b);
        law_ratio_in_unit_means(a.alpha_numerator(b), a.denominator(b));
        law_ratio_in_unit_means(a.beta_numerator(b), a.denominator(b));
        law_spans_meet_means(a.start.x, a.end.x, b.start.x, b.end.x);
        law_spans_meet_means(a.start.y, a.end.y, b.start.y, b.end.y);
        lemma_shared_point_lies_in_both_spans(
            f,
            d,
            e,
            a.start.x.val(),
            a.end.x.val(),
            b.start.x.val(),
            b.end.x.val(),
        );
        lemma_shared_point_lies_in_both_spans(
            f,
            d,
            e,
            a.start.y.val(),
            a.end.y.val(),
            b.start.y.val(),
            b.end.y.val(),
        );
    }
}

/// A mean of two integers with weights that are not negative lies between
/// the two, everything multiplied by the sum of the weights.
proof fn lemma_weighted_mean_bounds(w1: int, w2: int, p1: int, p2: int)
    requires
        w1 >= 0,
        w2 >= 0,
    ensures
        (w1 + w2) * least(p1, p2) <= w1 * p1 + w2 * p2 <= (w1 + w2) * greatest(p1, p2),
{
    let lo = least(p1, p2);
    let hi = greatest(p1, p2);
    assert(w1 * p1 >= w1 * lo && w1 * p1 <= w1 * hi) by (nonlinear_arith)
        requires
            w1 >= 0,
            lo <= p1 <= hi,
    ;
    assert(w2 * p2 >= w2 * lo && w2 * p2 <= w2 * hi) by (nonlinear_arith)
        requires
            w2 >= 0,
            lo <= p2 <= hi,
    ;
    assert((w1 + w2) * lo == w1 * lo + w2 * lo) by (nonlinear_arith);
    assert((w1 + w2) * hi == w1 * hi + w2 * hi) by (nonlinear_arith);
}

/// Where one point lies at the place `d / f` of the span from `p1` to `p2`
/// and at the place `e / f` of the span from `p3` to `p4`, both places
/// between zero and one, the two spans meet.
proof fn lemma_shared_point_lies_in_both_spans(
    f: int,
    d: int,
    e: int,
    p_from: int,
    p_to: int,
    q_from: int,
    q_to: int,
)
    requires
        f != 0,
        if f > 0 {
            0 <= d <= f && 0 <= e <= f
        } else {
            f <= d <= 0 && f <= e <= 0
        },
        f * p_from + d * (p_to - p_from) == f * q_from + e * (q_to - q_from),
    ensures
        least(p_from, p_to) <= greatest(q_from, q_to),
        least(q_from, q_to) <= greatest(p_from, p_to),
{
    let s: int = if f > 0 {
        1
    } else {
        -1
    };
    let (g, u, v) = (s * f, s * d, s * e);
    assert(g > 0 && 0 <= u <= g && 0 <= v <= g) by (nonlinear_arith)
        requires
            g == s * f,
            u == s * d,
            v == s * e,
            f != 0,
            s == 1 || s == -1,
            s == 1 <==> f > 0,
            s == 1 ==> 0 <= d <= f && 0 <= e <= f,
            s == -1 ==> f <= d <= 0 && f <= e <= 0,
    ;
    lemma_weighted_mean_bounds(g - u, u, p_from, p_to);
    lemma_weighted_mean_bounds(g - v, v, q_from, q_to);
    let x = (g - u) * p_from + u * p_to;
    let y = (g - v) * q_from + v * q_to;
    assert(x == s * (f * p_from + d * (p_to - p_from))) by (nonlinear_arith)
        requires
            x == (g - u) * p_from + u * p_to,
            g == s * f,
            u == s * d,
    ;
    assert(y == s * (f * q_from + e * (q_to - q_from))) by (nonlinear_arith)
        requires
            y == (g - v) * q_from + v * q_to,
            g == s * f,
            v == s * e,
    ;
    assert(x == y);
    assert(least(p_from, p_to) <= greatest(q_from, q_to)) by (nonlinear_arith)
        requires
            g > 0,
            g * least(p_from, p_to) <= g * greatest(q_from, q_to),
    ;
    assert(least(q_from, q_to) <= greatest(p_from, p_to)) by (nonlinear_arith)
        requires
            g > 0,
            g * least(q_from, q_to) <= g * greatest(p_from, p_to),
    ;
}

/// The numerators and the denominator of two directions `(ax, ay)` and
/// `(bx, by)` and an offset `(cx, cy)` cancel along `x`.
proof fn lemma_numerators_cancel(ax: int, ay: int, bx: int, by: int, cx: int, cy: int)
    ensures
        (ay * bx - ax * by) * cx + (by * cx - bx * cy) * ax + (ax * cy - ay * cx) * bx == 0,
        (ax * by - ay * bx) * cx + (bx * cy - by * cx) * ax + (ay * cx - ax * cy) * bx == 0,
{
    let t1 = ay * bx * cx;
    let t2 = ax * by * cx;
    let t3 = ax * bx * cy;
    assert((ay * bx - ax * by) * cx == t1 - t2) by (nonlinear_arith)
        requires
            t1 == ay * bx * cx,
            t2 == ax * by * cx,
    ;
    assert((by * cx - bx * cy) * ax == t2 - t3) by (nonlinear_arith)
        requires
            t2 == ax * by * cx,
            t3 == ax * bx * cy,
    ;
    assert((ax * cy - ay * cx) * bx == t3 - t1) by (nonlinear_arith)
        requires
            t3 == ax * bx * cy,
            t1 == ay * bx * cx,
    ;
    assert((ax * by - ay * bx) * cx == t2 - t1) by (nonlinear_arith)
        requires
            t1 == ay * bx * cx,
            t2 == ax * by * cx,
    ;
    assert((bx * cy - by * cx) * ax == t3 - t2) by (nonlinear_arith)
        requires
            t2 == ax * by * cx,
            t3 == ax * bx * cy,
    ;
    assert((ay * cx - ax * cy) * bx == t1 - t3) by (nonlinear_arith)
        requires
            t3 == ax * bx * cy,
            t1 == ay * bx * cx,
    ;
}

/// The square of an integer grows with the size of the integer.
proof fn lemma_square_grows(a: int, b: int)
    requires
        0 <= a <= b || b <= a <= 0,
    ensures
        square(a) <= square(b),
{
    assert(a * a <= b * b) by (nonlinear_arith)
        requires
            0 <= a <= b || b <= a <= 0,
    ;
}

/// `x` held between `lo` and `hi`.
pub open spec fn clamped(x: int, lo: int, hi: int) -> int {
    greatest(lo, least(x, hi))
}

/// On integers, the point of a `Rect` of no negative size that `nearest_spec`
/// gives lies in the `Rect`, and no point of the `Rect` lies nearer to
/// `point`.
pub proof fn law_rect_nearest_is_nearest<T: Integral>(
    rect: Rect<T>,
    point: Vector2<T>,
    qx: int,
    qy: int,
)
    requires
        rect.corners_req(),
        rect.width.val() >= 0,
        rect.height.val() >= 0,
        rect.x.val() <= qx <= rect.x.val() + rect.width.val(),
        rect.y.val() <= qy <= rect.y.val() + rect.height.val(),
    ensures
        rect.nearest_spec(point).x.val() == clamped(
            point.x.val(),
            rect.x.val(),
            rect.x.val() + rect.width.val(),
        ),
        rect.nearest_spec(point).y.val() == clamped(
            point.y.val(),
            rect.y.val(),
            rect.y.val() + rect.height.val(),
        ),
        rect.contains_spec(rect.nearest_spec(point)),
        square(rect.nearest_spec(point).x.val() - point.x.val()) + square(
            rect.nearest_spec(point).y.val() - point.y.val(),
        ) <= square(qx - point.x.val()) + square(qy - point.y.val()),
{
    lemma_integral::<T>();
    let near = rect.nearest_spec(point);
    lemma_square_grows(near.x.val() - point.x.val(), qx - point.x.val());
    lemma_square_grows(near.y.val() - point.y.val(), qy - point.y.val());
}

/// On integers, a `Rect` of no negative size overlaps a circle just when some
/// point of the `Rect` lies within the circle, its rim included.
pub proof fn law_rect_overlaps_circle_means<T: Integral>(rect: Rect<T>, circle: Circle<T>)
    requires
        rect.overlaps_circle_req(circle),
        rect.width.val() >= 0,
        rect.height.val() >= 0,
    ensures
        rect.overlaps_circle_spec(circle) <==> exists|qx: int, qy: int|
            point_of_rect_in_circle(rect, circle, qx, qy),
{
    lemma_integral::<T>();
    let near = rect.nearest_spec(circle.center);
    if rect.overlaps_circle_spec(circle) {
        law_rect_nearest_is_nearest(rect, circle.center, near.x.val(), near.y.val());
        assert(point_of_rect_in_circle(rect, circle, near.x.val(), near.y.val()));
    }
    if exists|qx: int, qy: int| point_of_rect_in_circle(rect, circle, qx, qy) {
        let (qx, qy) = choose|qx: int, qy: int| point_of_rect_in_circle(rect, circle, qx, qy);
        law_rect_nearest_is_nearest(rect, circle.center, qx, qy);
    }
}

/// Whether the point `(qx, qy)` lies in `rect`, its edges included, and
/// within `circle`, its rim included.
pub open spec fn point_of_rect_in_circle<T: Integral>(
    rect: Rect<T>,
    circle: Circle<T>,
    qx: int,
    qy: int,
) -> bool {
    &&& rect.x.val() <= qx <= rect.x.val() + rect.width.val()
    &&& rect.y.val() <= qy <= rect.y.val() + rect.height.val()
    &&& square(qx - circle.center.x.val()) + square(qy - circle.center.y.val()) <= square(
        circle.radius.val(),
    )
}

} // verus!
