use geoprim::shapes::{Area2D, Area3D, Area4D, Bounds2D, Bounds3D, Bounds4D, Cube};
use geoprim::vectors::{Vector3, Vector4};

#[test]
fn cube_constructors_and_plain_setters() {
    let mut c = Cube::new(1, 2, 3, 4, 5, 6);
    assert_eq!((c.x, c.y, c.z, c.width, c.height, c.depth), (1, 2, 3, 4, 5, 6));
    assert_eq!(Cube::new_vectors(Vector3::new(1, 2, 3), Vector3::new(4, 5, 6)), c);
    c.set(6, 5, 4, 3, 2, 1);
    assert_eq!(c, Cube::new(6, 5, 4, 3, 2, 1));
    c.set_vectors(Vector3::new(0, 0, 0), Vector3::new(1, 1, 1));
    assert_eq!(c, Cube::new(0, 0, 0, 1, 1, 1));
    c.set_position(Vector3::new(1, 2, 3));
    c.set_size(Vector3::new(4, 5, 6));
    assert_eq!(c.get_position(), Vector3::new(1, 2, 3));
    assert_eq!(c.get_size(), Vector3::new(4, 5, 6));
}

#[test]
fn cube_min_max_and_center() {
    let mut c = Cube::new(1.0, 2.0, 3.0, 4.0, 6.0, 8.0);
    assert_eq!((c.get_x_min(), c.get_y_min(), c.get_z_min()), (1.0, 2.0, 3.0));
    assert_eq!((c.get_x_max(), c.get_y_max(), c.get_z_max()), (5.0, 8.0, 11.0));
    assert_eq!(c.get_center(), Vector3::new(3.0, 5.0, 7.0));
    c.set_center(Vector3::new(0.0, 0.0, 0.0));
    assert_eq!(c, Cube::new(-2.0, -3.0, -4.0, 4.0, 6.0, 8.0));
    c.set_z_max(0.0);
    assert_eq!(c.depth, 4.0);
    c.set_z_min(1.0);
    assert_eq!(c.z, 1.0);
    c.set_x_max(0.0);
    c.set_y_max(0.0);
    assert_eq!((c.width, c.height), (2.0, 3.0));
    c.set_x_min(9.0);
    c.set_y_min(8.0);
    assert_eq!((c.x, c.y), (9.0, 8.0));
}

#[test]
fn cube_contains_and_overlaps() {
    let c = Cube::new(0, 0, 0, 4, 4, 4);
    assert!(c.contains(Vector3::new(0, 0, 0)));
    assert!(c.contains(Vector3::new(4, 4, 4)));
    assert!(!c.contains(Vector3::new(2, 2, 5)));
    assert!(!c.contains(Vector3::new(2, 2, -1)));
    assert!(c.overlaps(&Cube::new(3, 3, 3, 4, 4, 4)));
    assert!(!c.overlaps(&Cube::new(3, 3, 4, 4, 4, 4)));
    assert!(!c.overlaps(&Cube::new(0, 0, -4, 4, 4, 4)));
    assert!(c.overlaps_area(Area3D::new(3, 3, 3, 5, 5, 5)));
    assert!(!c.overlaps_area(Area3D::new(3, 3, 4, 5, 5, 5)));
    assert!(c.overlaps_bounds(Bounds3D::new(5, 5, 5, 2, 2, 2)));
    assert!(!c.overlaps_bounds(Bounds3D::new(5, 5, 6, 2, 2, 2)));
}

#[test]
fn cube_from_the_other_representations() {
    assert_eq!(Cube::from_area(Area3D::new(1, 2, 3, 4, 6, 8)), Cube::new(1, 2, 3, 3, 4, 5));
    assert_eq!(Cube::from_bounds(Bounds3D::new(5, 5, 5, 1, 2, 3)), Cube::new(4, 3, 2, 2, 4, 6));
}

#[test]
fn area3d_setters_and_sizes() {
    let mut a = Area3D::new(0.0, 0.0, 0.0, 4.0, 6.0, 8.0);
    assert_eq!(Area3D::new_vectors(Vector3::new(0.0, 0.0, 0.0), Vector3::new(4.0, 6.0, 8.0)), a);
    assert_eq!((a.get_width(), a.get_height(), a.get_depth()), (4.0, 6.0, 8.0));
    assert_eq!(a.get_size(), Vector3::new(4.0, 6.0, 8.0));
    assert_eq!(a.get_center(), Vector3::new(2.0, 3.0, 4.0));
    a.set_depth(2.0);
    assert_eq!(a, Area3D::new(0.0, 0.0, 3.0, 4.0, 6.0, 5.0));
    a.set_width(2.0);
    a.set_height(2.0);
    assert_eq!(a, Area3D::new(1.0, 2.0, 3.0, 3.0, 4.0, 5.0));
    assert_eq!(a.get_center(), Vector3::new(2.0, 3.0, 4.0));
    a.set_size(Vector3::new(4.0, 6.0, 8.0));
    assert_eq!(a, Area3D::new(0.0, 0.0, 0.0, 4.0, 6.0, 8.0));
    a.set_center(Vector3::new(0.0, 0.0, 0.0));
    assert_eq!(a, Area3D::new(-2.0, -3.0, -4.0, 2.0, 3.0, 4.0));
    a.set(1.0, 2.0, 3.0, 4.0, 5.0, 6.0);
    a.set_z_min(0.0);
    a.set_z_max(9.0);
    a.set_x_min(-1.0);
    a.set_x_max(7.0);
    a.set_y_min(-2.0);
    a.set_y_max(8.0);
    assert_eq!(a, Area3D::new(-1.0, -2.0, 0.0, 7.0, 8.0, 9.0));
    assert_eq!((a.get_x_min(), a.get_y_min(), a.get_z_min()), (-1.0, -2.0, 0.0));
    assert_eq!((a.get_x_max(), a.get_y_max(), a.get_z_max()), (7.0, 8.0, 9.0));
    a.set_vectors(Vector3::new(0.0, 0.0, 0.0), Vector3::new(1.0, 1.0, 1.0));
    assert_eq!(a, Area3D::new(0.0, 0.0, 0.0, 1.0, 1.0, 1.0));
}

#[test]
fn area3d_set_size_changes_the_depth_too() {
    let mut a = Area3D::new(0, 0, 0, 4, 4, 4);
    a.set_size(Vector3::new(2, 2, 2));
    assert_eq!(a, Area3D::new(1, 1, 1, 3, 3, 3));
    a.set_center(Vector3::new(0, 0, 0));
    assert_eq!(a, Area3D::new(-1, -1, -1, 1, 1, 1));
}

#[test]
fn area3d_contains_and_overlaps() {
    let a = Area3D::new(0, 0, 0, 4, 4, 4);
    assert!(a.contains(Vector3::new(4, 4, 4)));
    assert!(!a.contains(Vector3::new(4, 4, 5)));
    assert!(a.overlaps(&Area3D::new(3, 3, 3, 9, 9, 9)));
    assert!(!a.overlaps(&Area3D::new(3, 3, 4, 9, 9, 9)));
    assert!(a.overlaps_bounds(&Bounds3D::new(5, 5, 5, 2, 2, 2)));
    assert!(!a.overlaps_bounds(&Bounds3D::new(5, 5, 6, 2, 2, 2)));
}

#[test]
fn area3d_from_the_other_representations() {
    assert_eq!(Area3D::from_cube(Cube::new(1, 2, 3, 3, 4, 5)), Area3D::new(1, 2, 3, 4, 6, 8));
    assert_eq!(Area3D::from_bounds(Bounds3D::new(5, 5, 5, 1, 2, 3)), Area3D::new(4, 3, 2, 6, 7, 8));
    assert_eq!(Area3D::from_area4d(Area4D::new(1, 2, 3, 4, 5, 6, 7, 8)), Area3D::new(1, 2, 3, 5, 6, 7));
    assert_eq!(
        Area3D::from_bounds4d(Bounds4D::new(5, 5, 5, 5, 1, 2, 3, 4)),
        Area3D::new(4, 3, 2, 6, 7, 8)
    );
}

#[test]
fn bounds3d_setters_and_sizes() {
    let mut b = Bounds3D::new(0.0, 0.0, 0.0, 1.0, 2.0, 3.0);
    assert_eq!(Bounds3D::new_vectors(Vector3::new(0.0, 0.0, 0.0), Vector3::new(1.0, 2.0, 3.0)), b);
    assert_eq!((b.get_width(), b.get_height(), b.get_depth()), (2.0, 4.0, 6.0));
    assert_eq!(b.get_size(), Vector3::new(2.0, 4.0, 6.0));
    assert_eq!((b.get_x_min(), b.get_y_min(), b.get_z_min()), (-1.0, -2.0, -3.0));
    assert_eq!((b.get_x_max(), b.get_y_max(), b.get_z_max()), (1.0, 2.0, 3.0));
    b.set_depth(2.0);
    assert_eq!(b.extents, Vector3::new(1.0, 2.0, 1.0));
    b.set_width(6.0);
    b.set_height(8.0);
    assert_eq!(b.extents, Vector3::new(3.0, 4.0, 1.0));
    b.set_size(2.0, 2.0, 2.0);
    assert_eq!(b, Bounds3D::new(0.0, 0.0, 0.0, 1.0, 1.0, 1.0));
    b.set_z_min(0.0);
    assert_eq!(b.center.z, 1.0);
    b.set_z_max(0.0);
    assert_eq!(b.center.z, -1.0);
    b.set_x_min(0.0);
    b.set_y_max(0.0);
    assert_eq!(b.center, Vector3::new(1.0, -1.0, -1.0));
    b.set_x_max(0.0);
    b.set_y_min(0.0);
    assert_eq!(b.center, Vector3::new(-1.0, 1.0, -1.0));
    b.set(1.0, 2.0, 3.0, 4.0, 5.0, 6.0);
    assert_eq!(b, Bounds3D::new(1.0, 2.0, 3.0, 4.0, 5.0, 6.0));
    b.set_vectors(Vector3::new(0.0, 0.0, 0.0), Vector3::new(1.0, 1.0, 1.0));
    assert_eq!(b, Bounds3D::new(0.0, 0.0, 0.0, 1.0, 1.0, 1.0));
}

#[test]
fn bounds3d_contains_and_overlaps() {
    let b = Bounds3D::new(0, 0, 0, 2, 2, 2);
    assert!(b.contains(Vector3::new(1, 1, 1)));
    assert!(!b.contains(Vector3::new(1, 1, 2)));
    assert!(b.overlaps(&Bounds3D::new(3, 3, 3, 2, 2, 2)));
    assert!(!b.overlaps(&Bounds3D::new(3, 3, 4, 2, 2, 2)));
    assert!(b.overlaps_area(&Area3D::new(1, 1, 1, 5, 5, 5)));
    assert!(!b.overlaps_area(&Area3D::new(1, 1, 2, 5, 5, 5)));
}

#[test]
fn bounds3d_from_the_other_representations() {
    assert_eq!(
        Bounds3D::from_cube(Cube::new(1.0, 2.0, 3.0, 2.0, 4.0, 6.0)),
        Bounds3D::new(2.0, 4.0, 6.0, 1.0, 2.0, 3.0)
    );
    assert_eq!(
        Bounds3D::from_area(Area3D::new(0.0, 0.0, 0.0, 2.0, 4.0, 6.0)),
        Bounds3D::new(1.0, 2.0, 3.0, 1.0, 2.0, 3.0)
    );
    assert_eq!(Bounds3D::from_bounds4d(Bounds4D::new(1, 2, 3, 4, 5, 6, 7, 8)), Bounds3D::new(1, 2, 3, 5, 6, 7));
    assert_eq!(
        Bounds3D::from_area4d(Area4D::new(0.0, 0.0, 0.0, 0.0, 2.0, 4.0, 6.0, 8.0)),
        Bounds3D::new(1.0, 2.0, 3.0, 1.0, 2.0, 3.0)
    );
}

#[test]
fn widening_pads_with_zero() {
    assert_eq!(Bounds3D::from_bounds2d(Bounds2D::new(1, 2, 3, 4)), Bounds3D::new(1, 2, 0, 3, 4, 0));
    assert_eq!(
        Bounds3D::from_area2d(Area2D::new(0.0, 0.0, 2.0, 4.0)),
        Bounds3D::new(1.0, 2.0, 0.0, 1.0, 2.0, 0.0)
    );
    let b = Bounds2D::new(1.5, 2.5, 3.5, 4.5);
    assert_eq!(Bounds2D::from_bounds3d(Bounds3D::from_bounds2d(b)), b);
}

#[test]
fn round_trips_in_three_dimensions() {
    let c = Cube::new(1.0, 2.0, 3.0, 3.0, 5.0, 7.0);
    assert_eq!(Cube::from_area(Area3D::from_cube(c)), c);
    assert_eq!(Cube::from_bounds(Bounds3D::from_cube(c)), c);
    let a = Area3D::new(1.0, 2.0, 3.0, 4.0, 7.0, 10.0);
    assert_eq!(Area3D::from_cube(Cube::from_area(a)), a);
    assert_eq!(Area3D::from_bounds(Bounds3D::from_area(a)), a);
    let b = Bounds3D::new(2.5, 4.5, 6.5, 1.5, 2.5, 3.5);
    assert_eq!(Bounds3D::from_cube(Cube::from_bounds(b)), b);
    assert_eq!(Bounds3D::from_area(Area3D::from_bounds(b)), b);
}

#[test]
fn area4d_setters_and_sizes() {
    let mut a = Area4D::new(0.0, 0.0, 0.0, 0.0, 2.0, 4.0, 6.0, 8.0);
    assert_eq!(a.lower_left, Vector4::new(0.0, 0.0, 0.0, 0.0));
    assert_eq!(a.upper_right, Vector4::new(2.0, 4.0, 6.0, 8.0));
    assert_eq!(a.get_width(), 2.0);
    assert_eq!(a.get_height(), 4.0);
    assert_eq!(a.get_depth(), 6.0);
    assert_eq!(a.get_hyper_depth(), 8.0);
    assert_eq!(a.get_size(), Vector4::new(2.0, 4.0, 6.0, 8.0));
    assert_eq!(a.get_center(), Vector4::new(1.0, 2.0, 3.0, 4.0));
    a.set_hyper_depth(4.0);
    assert_eq!((a.get_w_min(), a.get_w_max()), (2.0, 6.0));
    a.set_width(4.0);
    assert_eq!((a.get_x_min(), a.get_x_max()), (-1.0, 3.0));
    a.set_height(2.0);
    a.set_depth(2.0);
    assert_eq!(a, Area4D::new(-1.0, 1.0, 2.0, 2.0, 3.0, 3.0, 4.0, 6.0));
    assert_eq!(a.get_center(), Vector4::new(1.0, 2.0, 3.0, 4.0));
    a.set_size(Vector4::new(2.0, 2.0, 2.0, 2.0));
    assert_eq!(a, Area4D::new(0.0, 1.0, 2.0, 3.0, 2.0, 3.0, 4.0, 5.0));
    a.set_center(Vector4::new(0.0, 0.0, 0.0, 0.0));
    assert_eq!(a, Area4D::new(-1.0, -1.0, -1.0, -1.0, 1.0, 1.0, 1.0, 1.0));
    a.set_w_min(-9.0);
    a.set_w_max(9.0);
    a.set_z_min(-8.0);
    a.set_z_max(8.0);
    a.set_y_min(-7.0);
    a.set_y_max(7.0);
    a.set_x_min(-6.0);
    a.set_x_max(6.0);
    assert_eq!(a, Area4D::new(-6.0, -7.0, -8.0, -9.0, 6.0, 7.0, 8.0, 9.0));
    assert_eq!((a.get_y_min(), a.get_y_max(), a.get_z_min(), a.get_z_max()), (-7.0, 7.0, -8.0, 8.0));
    a.set(1.0, 2.0, 3.0, 4.0, 5.0, 6.0, 7.0, 8.0);
    assert_eq!(a, Area4D::new_vectors(Vector4::new(1.0, 2.0, 3.0, 4.0), Vector4::new(5.0, 6.0, 7.0, 8.0)));
    a.set_vectors(Vector4::new(0.0, 0.0, 0.0, 0.0), Vector4::new(1.0, 1.0, 1.0, 1.0));
    assert_eq!(a.upper_right, Vector4::new(1.0, 1.0, 1.0, 1.0));
}

#[test]
fn area4d_width_is_measured_along_x() {
    let a = Area4D::new(0, 0, 0, 0, 1, 2, 3, 4);
    assert_eq!(a.get_width(), 1);
    assert_eq!(a.get_hyper_depth(), 4);
}

#[test]
fn area4d_contains_tests_every_axis() {
    let a = Area4D::new(0, 0, 0, 0, 4, 4, 4, 4);
    assert!(a.contains(Vector4::new(4, 4, 4, 4)));
    assert!(a.contains(Vector4::new(0, 0, 0, 0)));
    assert!(!a.contains(Vector4::new(2, 2, 2, 5)));
    assert!(!a.contains(Vector4::new(2, 2, 2, -1)));
    assert!(!a.contains(Vector4::new(2, 2, 5, 2)));
}

#[test]
fn area4d_overlaps() {
    let a = Area4D::new(0, 0, 0, 0, 4, 4, 4, 4);
    assert!(a.overlaps(&Area4D::new(3, 3, 3, 3, 9, 9, 9, 9)));
    assert!(!a.overlaps(&Area4D::new(3, 3, 3, 4, 9, 9, 9, 9)));
    assert!(a.overlaps_bounds(&Bounds4D::new(5, 5, 5, 5, 2, 2, 2, 2)));
    assert!(!a.overlaps_bounds(&Bounds4D::new(5, 5, 5, 6, 2, 2, 2, 2)));
}

#[test]
fn bounds4d_setters_and_sizes() {
    let mut b = Bounds4D::new(0.0, 0.0, 0.0, 0.0, 1.0, 2.0, 3.0, 4.0);
    assert_eq!(b, Bounds4D::new_vectors(Vector4::new(0.0, 0.0, 0.0, 0.0), Vector4::new(1.0, 2.0, 3.0, 4.0)));
    assert_eq!(b.get_size(), Vector4::new(2.0, 4.0, 6.0, 8.0));
    assert_eq!((b.get_width(), b.get_height(), b.get_depth(), b.get_hyper_depth()), (2.0, 4.0, 6.0, 8.0));
    assert_eq!((b.get_w_min(), b.get_w_max()), (-4.0, 4.0));
    assert_eq!((b.get_x_min(), b.get_x_max(), b.get_y_min(), b.get_y_max()), (-1.0, 1.0, -2.0, 2.0));
    assert_eq!((b.get_z_min(), b.get_z_max()), (-3.0, 3.0));
    b.set_hyper_depth(2.0);
    b.set_depth(2.0);
    b.set_height(2.0);
    b.set_width(4.0);
    assert_eq!(b.extents, Vector4::new(2.0, 1.0, 1.0, 1.0));
    b.set_size(6.0, 6.0, 6.0, 6.0);
    assert_eq!(b, Bounds4D::new(0.0, 0.0, 0.0, 0.0, 3.0, 3.0, 3.0, 3.0));
    b.set_w_min(0.0);
    assert_eq!(b.center.w, 3.0);
    b.set_w_max(0.0);
    assert_eq!(b.center.w, -3.0);
    b.set_x_min(0.0);
    b.set_y_min(0.0);
    b.set_z_min(0.0);
    assert_eq!(b.center, Vector4::new(3.0, 3.0, 3.0, -3.0));
    b.set_x_max(0.0);
    b.set_y_max(0.0);
    b.set_z_max(0.0);
    assert_eq!(b.center, Vector4::new(-3.0, -3.0, -3.0, -3.0));
    b.set(1.0, 2.0, 3.0, 4.0, 5.0, 6.0, 7.0, 8.0);
    assert_eq!(b.extents, Vector4::new(5.0, 6.0, 7.0, 8.0));
    b.set_vectors(Vector4::new(0.0, 0.0, 0.0, 0.0), Vector4::new(1.0, 1.0, 1.0, 1.0));
    assert_eq!(b.extents, Vector4::new(1.0, 1.0, 1.0, 1.0));
}

#[test]
fn bounds4d_contains_and_overlaps() {
    let b = Bounds4D::new(0, 0, 0, 0, 2, 2, 2, 2);
    assert!(b.contains(Vector4::new(1, 1, 1, 1)));
    assert!(!b.contains(Vector4::new(1, 1, 1, 2)));
    assert!(b.overlaps(&Bounds4D::new(3, 3, 3, 3, 2, 2, 2, 2)));
    assert!(!b.overlaps(&Bounds4D::new(3, 3, 3, 4, 2, 2, 2, 2)));
    assert!(b.overlaps_area(&Area4D::new(1, 1, 1, 1, 5, 5, 5, 5)));
    assert!(!b.overlaps_area(&Area4D::new(1, 1, 1, 2, 5, 5, 5, 5)));
}

#[test]
fn round_trips_in_four_dimensions() {
    let a = Area4D::new(1.0, 2.0, 3.0, 4.0, 4.0, 7.0, 10.0, 13.0);
    assert_eq!(Area4D::from_bounds(Bounds4D::from_area(a)), a);
    let b = Bounds4D::new(2.5, 4.5, 6.5, 8.5, 1.5, 2.5, 3.5, 4.5);
    assert_eq!(Bounds4D::from_area(Area4D::from_bounds(b)), b);
    assert_eq!(Area4D::from_bounds(b), Area4D::new(1.0, 2.0, 3.0, 4.0, 4.0, 7.0, 10.0, 13.0));
    assert_eq!(Bounds4D::from_area(a), b);
}

#[test]
fn narrowing_at_once_or_in_steps() {
    let a = Area4D::new(1, 2, 3, 4, 5, 6, 7, 8);
    assert_eq!(Area2D::from_area4d(a), Area2D::from_area3d(Area3D::from_area4d(a)));
    let b = Bounds4D::new(1, 2, 3, 4, 5, 6, 7, 8);
    assert_eq!(Bounds2D::from_bounds4d(b), Bounds2D::from_bounds3d(Bounds3D::from_bounds4d(b)));
    assert_eq!(Area2D::from_bounds4d(b), Area2D::from_bounds(Bounds2D::from_bounds4d(b)));
}

#[test]
fn boxes_of_more_dimensions_contain_their_center() {
    let c = Cube::new(1.0, 2.0, 3.0, 3.0, 5.0, 7.0);
    assert!(c.contains(c.get_center()));
    let a = Area3D::new(1, 2, 3, 4, 6, 9);
    assert!(a.contains(a.get_center()));
    let b = Bounds3D::new(1, 2, 3, 1, 1, 1);
    assert!(b.contains(b.center));
    let a4 = Area4D::new(1.0, 2.0, 3.0, 4.0, 4.0, 6.0, 9.0, 11.0);
    assert!(a4.contains(a4.get_center()));
    let b4 = Bounds4D::new(1, 2, 3, 4, 1, 1, 1, 1);
    assert!(b4.contains(b4.center));
    assert!(!Bounds4D::new(1, 2, 3, 4, 1, 1, 1, 0).contains(Vector4::new(1, 2, 3, 4)));
}

#[test]
fn overlaps_is_symmetric_in_more_dimensions() {
    let cubes = [Cube::new(0, 0, 0, 4, 4, 4), Cube::new(3, 3, 3, 4, 4, 4), Cube::new(0, 0, 4, 4, 4, 4)];
    for a in cubes.iter() {
        for b in cubes.iter() {
            assert_eq!(a.overlaps(b), b.overlaps(a));
            let (aa, ab) = (Area3D::from_cube(*a), Area3D::from_cube(*b));
            assert_eq!(aa.overlaps(&ab), ab.overlaps(&aa));
            assert_eq!(aa.overlaps(&ab), a.overlaps(b));
            let (ba, bb) = (Bounds3D::from_cube(*a), Bounds3D::from_cube(*b));
            assert_eq!(ba.overlaps(&bb), bb.overlaps(&ba));
            assert_eq!(ba.overlaps(&bb), a.overlaps(b));
        }
    }
    let a = Area4D::new(0, 0, 0, 0, 4, 4, 4, 4);
    let b = Area4D::new(3, 3, 3, 3, 5, 5, 5, 5);
    assert_eq!(a.overlaps(&b), b.overlaps(&a));
    let (c, d) = (Bounds4D::from_area(a), Bounds4D::from_area(b));
    assert_eq!(c.overlaps(&d), d.overlaps(&c));
}
