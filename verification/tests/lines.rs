use geoprim::shapes::{Line2D, Line3D, Line4D};
use geoprim::vectors::{Vector2, Vector3, Vector4};

fn close(a: f64, b: f64) -> bool {
    (a - b).abs() < 1e-12
}

#[test]
fn crossing_diagonals_intersect_in_the_middle() {
    let a = Line2D::new(0.0, 0.0, 2.0, 2.0);
    let b = Line2D::new(0.0, 2.0, 2.0, 0.0);
    assert_eq!(a.intersects(&b), Some(Vector2::new(1.0, 1.0)));
    assert_eq!(b.intersects(&a), Some(Vector2::new(1.0, 1.0)));
    let i = Line2D::new(0i64, 0, 2, 2);
    assert_eq!(i.intersects(&Line2D::new(0, 2, 2, 0)), Some(Vector2::new(1, 1)));
}

#[test]
fn collinear_segments_apart_on_an_axis_do_not_intersect() {
    let a = Line2D::new(0.0, 0.0, 1.0, 0.0);
    let b = Line2D::new(2.0, 0.0, 3.0, 0.0);
    assert_eq!(a.intersects(&b), None);
    assert_eq!(b.intersects(&a), None);
}

#[test]
fn collinear_segments_apart_on_a_diagonal_do_not_intersect() {
    let a = Line2D::new(0.0, 0.0, 1.0, 1.0);
    let b = Line2D::new(2.0, 2.0, 3.0, 3.0);
    assert_eq!(a.intersects(&b), None);
    assert_eq!(b.intersects(&a), None);
}

#[test]
fn parallel_segments_do_not_intersect() {
    let a = Line2D::new(0.0, 0.0, 1.0, 0.0);
    let b = Line2D::new(0.0, 1.0, 1.0, 1.0);
    assert_eq!(a.intersects(&b), None);
    let c = Line2D::new(0.0, 0.0, 4.0, 4.0);
    let d = Line2D::new(1.0, 0.0, 5.0, 4.0);
    assert_eq!(c.intersects(&d), None);
}

#[test]
fn collinear_segments_that_share_points_are_told_not_to_intersect() {
    let a = Line2D::new(0.0, 0.0, 2.0, 0.0);
    let b = Line2D::new(1.0, 0.0, 3.0, 0.0);
    assert_eq!(a.intersects(&b), None);
    assert_eq!(a.intersects(&a), None);
}

#[test]
fn segments_that_would_cross_if_longer_do_not_intersect() {
    let a = Line2D::new(0.0, 0.0, 1.0, 1.0);
    let b = Line2D::new(0.0, 4.0, 4.0, 0.0);
    assert_eq!(a.intersects(&b), None);
    let c = Line2D::new(0.0, 0.0, 4.0, 0.0);
    let d = Line2D::new(2.0, 1.0, 2.0, 3.0);
    assert_eq!(c.intersects(&d), None);
    let e = Line2D::new(0.0, 0.0, 4.0, 4.0);
    let f = Line2D::new(3.0, 0.0, 4.0, 1.0);
    assert_eq!(e.intersects(&f), None);
}

#[test]
fn segments_that_meet_at_an_end_intersect_there() {
    let a = Line2D::new(0.0, 0.0, 2.0, 2.0);
    let b = Line2D::new(2.0, 2.0, 4.0, 0.0);
    assert_eq!(a.intersects(&b), Some(Vector2::new(2.0, 2.0)));
    let c = Line2D::new(0.0, 0.0, 4.0, 0.0);
    let d = Line2D::new(2.0, 0.0, 2.0, 3.0);
    assert_eq!(c.intersects(&d), Some(Vector2::new(2.0, 0.0)));
}

#[test]
fn intersection_off_the_middle() {
    let a = Line2D::new(0.0, 0.0, 4.0, 0.0);
    let b = Line2D::new(1.0, -1.0, 1.0, 1.0);
    assert_eq!(a.intersects(&b), Some(Vector2::new(1.0, 0.0)));
    let c = Line2D::new(4.0, 4.0, 0.0, 0.0);
    let d = Line2D::new(0.0, 2.0, 4.0, 2.0);
    assert_eq!(c.intersects(&d), Some(Vector2::new(2.0, 2.0)));
    let e = Line2D::new(0.0, 0.0, 4.0, 2.0);
    let f = Line2D::new(0.0, 2.0, 4.0, 0.0);
    assert_eq!(e.intersects(&f), Some(Vector2::new(2.0, 1.0)));
}

#[test]
fn a_point_segment_intersects_nothing() {
    let p = Line2D::new(1.0, 1.0, 1.0, 1.0);
    assert_eq!(p.intersects(&Line2D::new(0.0, 0.0, 2.0, 2.0)), None);
    assert_eq!(Line2D::new(0.0, 0.0, 2.0, 2.0).intersects(&p), None);
}

#[test]
fn line_constructors_and_plain_setters() {
    let mut l = Line2D::new(1, 2, 3, 4);
    assert_eq!(l.start, Vector2::new(1, 2));
    assert_eq!(l.end, Vector2::new(3, 4));
    assert_eq!(Line2D::new_vectors(Vector2::new(1, 2), Vector2::new(3, 4)), l);
    l.set(5, 6, 7, 8);
    assert_eq!(l, Line2D::new(5, 6, 7, 8));
    l.set_vectors(Vector2::new(0, 0), Vector2::new(1, 1));
    assert_eq!(l, Line2D::new(0, 0, 1, 1));
    let mut l3 = Line3D::new(1, 2, 3, 4, 5, 6);
    assert_eq!(Line3D::new_vectors(Vector3::new(1, 2, 3), Vector3::new(4, 5, 6)), l3);
    l3.set(6, 5, 4, 3, 2, 1);
    assert_eq!(l3.end, Vector3::new(3, 2, 1));
    l3.set_vectors(Vector3::new(0, 0, 0), Vector3::new(1, 1, 1));
    assert_eq!(l3.start, Vector3::new(0, 0, 0));
    let mut l4 = Line4D::new(1, 2, 3, 4, 5, 6, 7, 8);
    assert_eq!(Line4D::new_vectors(Vector4::new(1, 2, 3, 4), Vector4::new(5, 6, 7, 8)), l4);
    l4.set(8, 7, 6, 5, 4, 3, 2, 1);
    assert_eq!(l4.start, Vector4::new(8, 7, 6, 5));
    l4.set_vectors(Vector4::new(0, 0, 0, 0), Vector4::new(1, 1, 1, 1));
    assert_eq!(l4.end, Vector4::new(1, 1, 1, 1));
}

#[test]
fn line_delta() {
    let mut l = Line2D::new(1, 2, 4, 6);
    assert_eq!(l.get_delta(), Vector2::new(3, 4));
    l.set_delta(Vector2::new(-1, -1));
    assert_eq!(l, Line2D::new(1, 2, 0, 1));
    let mut l3 = Line3D::new(1, 2, 3, 4, 6, 8);
    assert_eq!(l3.get_delta(), Vector3::new(3, 4, 5));
    l3.set_delta(Vector3::new(1, 1, 1));
    assert_eq!(l3.end, Vector3::new(2, 3, 4));
    let mut l4 = Line4D::new(1, 2, 3, 4, 5, 5, 5, 5);
    assert_eq!(l4.get_delta(), Vector4::new(4, 3, 2, 1));
    l4.set_delta(Vector4::new(1, 1, 1, 1));
    assert_eq!(l4.end, Vector4::new(2, 3, 4, 5));
}

#[test]
fn line_lengths() {
    let l = Line2D::new(1.0, 1.0, 4.0, 5.0);
    assert_eq!(l.get_sqr_length(), 25.0);
    assert_eq!(l.get_length(), 5.0);
    assert_eq!(Line2D::new(1, 1, 4, 5).get_sqr_length(), 25);
    let l3 = Line3D::new(0.0, 0.0, 0.0, 1.0, 2.0, 2.0);
    assert_eq!(l3.get_sqr_length(), 9.0);
    assert_eq!(l3.get_length(), 3.0);
    let l4 = Line4D::new(0.0, 0.0, 0.0, 0.0, 2.0, 2.0, 2.0, 2.0);
    assert_eq!(l4.get_sqr_length(), 16.0);
    assert_eq!(l4.get_length(), 4.0);
    assert_eq!(Line2D::new(3.0, 3.0, 3.0, 3.0).get_length(), 0.0);
}

#[test]
fn set_length_keeps_start_and_direction() {
    let mut l = Line2D::new(1.0, 1.0, 4.0, 5.0);
    l.set_length(10.0);
    assert_eq!(l.start, Vector2::new(1.0, 1.0));
    assert!(close(l.end.x, 7.0) && close(l.end.y, 9.0));
    l.set_sqr_length(25.0);
    assert!(close(l.end.x, 4.0) && close(l.end.y, 5.0));
    let mut l3 = Line3D::new(0.0, 0.0, 0.0, 0.0, 0.0, 2.0);
    l3.set_length(5.0);
    assert_eq!(l3.end, Vector3::new(0.0, 0.0, 5.0));
    l3.set_sqr_length(4.0);
    assert_eq!(l3.end, Vector3::new(0.0, 0.0, 2.0));
    let mut l4 = Line4D::new(0.0, 0.0, 0.0, 0.0, 0.0, 0.0, 0.0, 2.0);
    l4.set_length(3.0);
    assert_eq!(l4.end, Vector4::new(0.0, 0.0, 0.0, 3.0));
    l4.set_sqr_length(16.0);
    assert_eq!(l4.end, Vector4::new(0.0, 0.0, 0.0, 4.0));
}

#[test]
fn stretch_with_a_given_magnitude() {
    let mut l = Line2D::new(1, 1, 7, 9);
    l.stretch(5, 10);
    assert_eq!(l, Line2D::new(1, 1, 1, 1));
    let mut m = Line2D::new(1, 1, 21, 41);
    m.stretch(5, 10);
    assert_eq!(m, Line2D::new(1, 1, 11, 21));
    let mut n = Line3D::new(0.0, 0.0, 0.0, 2.0, 4.0, 6.0);
    n.stretch(3.0, 2.0);
    assert_eq!(n.end, Vector3::new(3.0, 6.0, 9.0));
}

#[test]
fn set_length_of_a_point_segment_is_not_a_number() {
    let mut l = Line2D::new(1.0f64, 1.0, 1.0, 1.0);
    l.set_length(2.0);
    assert!(l.end.x.is_nan() && l.end.y.is_nan());
    assert_eq!(l.start, Vector2::new(1.0, 1.0));
}

#[test]
fn line_direction() {
    let mut l = Line2D::new(1.0, 1.0, 4.0, 5.0);
    let d = l.get_direction();
    assert!(close(d.x, 0.6) && close(d.y, 0.8));
    l.set_direction(Vector2::new(0.0, 1.0));
    assert_eq!(l, Line2D::new(1.0, 1.0, 1.0, 6.0));
    let mut l3 = Line3D::new(0.0, 0.0, 0.0, 0.0, 3.0, 0.0);
    assert_eq!(l3.get_direction(), Vector3::new(0.0, 1.0, 0.0));
    l3.set_direction(Vector3::new(1.0, 0.0, 0.0));
    assert_eq!(l3.end, Vector3::new(3.0, 0.0, 0.0));
    let mut l4 = Line4D::new(0.0, 0.0, 0.0, 0.0, 0.0, 0.0, 0.0, 2.0);
    assert_eq!(l4.get_direction(), Vector4::new(0.0, 0.0, 0.0, 1.0));
    l4.set_direction(Vector4::new(0.0, 0.0, 1.0, 0.0));
    assert_eq!(l4.end, Vector4::new(0.0, 0.0, 2.0, 0.0));
}

#[test]
fn line_center() {
    let mut l = Line2D::new(0.0, 0.0, 4.0, 2.0);
    assert_eq!(l.get_center(), Vector2::new(2.0, 1.0));
    l.set_center(Vector2::new(0.0, 0.0));
    assert_eq!(l, Line2D::new(-2.0, -1.0, 2.0, 1.0));
    let mut l3 = Line3D::new(0, 0, 0, 4, 2, 6);
    assert_eq!(l3.get_center(), Vector3::new(2, 1, 3));
    l3.set_center(Vector3::new(10, 10, 10));
    assert_eq!(l3, Line3D::new(8, 9, 7, 12, 11, 13));
    let mut l4 = Line4D::new(0.0, 0.0, 0.0, 0.0, 2.0, 2.0, 2.0, 2.0);
    assert_eq!(l4.get_center(), Vector4::new(1.0, 1.0, 1.0, 1.0));
    l4.set_center(Vector4::new(0.0, 0.0, 0.0, 0.0));
    assert_eq!(l4.start, Vector4::new(-1.0, -1.0, -1.0, -1.0));
    assert_eq!(l4.end, Vector4::new(1.0, 1.0, 1.0, 1.0));
}

#[test]
fn line_from_lines_of_more_dimensions() {
    assert_eq!(Line2D::from_line3d(Line3D::new(1, 2, 3, 4, 5, 6)), Line2D::new(1, 2, 4, 5));
    assert_eq!(Line2D::from_line4d(Line4D::new(1, 2, 3, 4, 5, 6, 7, 8)), Line2D::new(1, 2, 5, 6));
}
