use geoprim::shapes::{Circle, HyperSphere, Sphere};
use geoprim::vectors::{Vector2, Vector3, Vector4};
use std::f64::consts::PI;

fn close(a: f64, b: f64) -> bool {
    (a - b).abs() < 1e-9
}

#[test]
fn circle_constructors_and_diameter() {
    let mut c = Circle::new(1.0, 2.0, 3.0);
    assert_eq!(c.center, Vector2::new(1.0, 2.0));
    assert_eq!(c.radius, 3.0);
    assert_eq!(Circle::new_vector(Vector2::new(1.0, 2.0), 3.0), c);
    assert_eq!(c.get_diameter(), 6.0);
    c.set_diameter(10.0);
    assert_eq!(c.radius, 5.0);
    assert_eq!(c.center, Vector2::new(1.0, 2.0));
    assert_eq!(Circle::new(0, 0, -3).get_diameter(), -6);
}

#[test]
fn circle_circumference_and_area() {
    let mut c = Circle::new(0.0, 0.0, 2.0);
    assert!(close(c.get_circumference(), 4.0 * PI));
    assert!(close(c.get_area(), 4.0 * PI));
    c.set_circumference(2.0 * PI);
    assert!(close(c.radius, 1.0));
    c.set_area(9.0 * PI);
    assert!(close(c.radius, 3.0));
    assert_eq!(c.center, Vector2::new(0.0, 0.0));
}

#[test]
fn circle_formulas_with_a_given_pi() {
    let c = Circle::new(0, 0, 5);
    assert_eq!(c.circumference_with(3), 30);
    assert_eq!(c.area_with(3), 75);
    assert_eq!(Circle::<i64>::radius_of_circumference(30, 3), 5);
    assert_eq!(Circle::<f64>::radius_of_circumference(8.0, 2.0), 2.0);
}

#[test]
fn circle_set_area_of_a_negative_area_is_not_a_number() {
    let mut c = Circle::new(0.0f64, 0.0, 1.0);
    c.set_area(-1.0);
    assert!(c.radius.is_nan());
}

#[test]
fn circle_contains_its_rim() {
    let c = Circle::new(0, 0, 5);
    assert!(c.contains(Vector2::new(3, 4)));
    assert!(c.contains(Vector2::new(0, 0)));
    assert!(c.contains(Vector2::new(-5, 0)));
    assert!(!c.contains(Vector2::new(4, 4)));
    assert!(Circle::new(0, 0, -5).contains(Vector2::new(3, 4)));
}

#[test]
fn circles_that_touch_do_not_overlap() {
    let a = Circle::new(0.0, 0.0, 2.0);
    assert!(!a.overlaps(&Circle::new(5.0, 0.0, 3.0)));
    assert!(a.overlaps(&Circle::new(4.999999, 0.0, 3.0)));
    assert!(!a.overlaps(&Circle::new(5.000001, 0.0, 3.0)));
    let i = Circle::new(0, 0, 2);
    assert!(!i.overlaps(&Circle::new(3, 4, 3)));
    assert!(i.overlaps(&Circle::new(3, 3, 3)));
    assert_eq!(i.overlaps(&Circle::new(3, 3, 3)), Circle::new(3, 3, 3).overlaps(&i));
}

#[test]
fn circle_from_balls_of_more_dimensions() {
    assert_eq!(Circle::from_sphere(Sphere::new(1, 2, 3, 4)), Circle::new(1, 2, 4));
    assert_eq!(Circle::from_hyper_sphere(HyperSphere::new(1, 2, 3, 4, 5)), Circle::new(1, 2, 5));
}

#[test]
fn sphere_constructors_and_diameter() {
    let mut s = Sphere::new(1.0, 2.0, 3.0, 4.0);
    assert_eq!(s.center, Vector3::new(1.0, 2.0, 3.0));
    assert_eq!(Sphere::new_vector(Vector3::new(1.0, 2.0, 3.0), 4.0), s);
    assert_eq!(s.get_diameter(), 8.0);
    s.set_diameter(2.0);
    assert_eq!(s.radius, 1.0);
}

#[test]
fn sphere_measures() {
    let mut s = Sphere::new(0.0, 0.0, 0.0, 2.0);
    assert!(close(s.get_circumference(), 4.0 * PI));
    assert!(close(s.get_area(), 16.0 * PI));
    assert!(close(s.get_volume(), 32.0 / 3.0 * PI));
    s.set_circumference(2.0 * PI);
    assert!(close(s.radius, 1.0));
    s.set_area(36.0 * PI);
    assert!(close(s.radius, 3.0));
    s.set_volume(32.0 / 3.0 * PI);
    assert!(close(s.radius, 2.0));
    assert_eq!(s.center, Vector3::new(0.0, 0.0, 0.0));
}

#[test]
fn sphere_formulas_with_a_given_pi() {
    let s = Sphere::new(0, 0, 0, 2);
    assert_eq!(s.circumference_with(3), 12);
    assert_eq!(s.area_with(3), 48);
    assert_eq!(s.volume_with(3), 24);
    assert_eq!(Sphere::new(0.0, 0.0, 0.0, 3.0).volume_with(3.0), 108.0);
    assert_eq!(Sphere::<i32>::radius_of_circumference(12, 3), 2);
}

#[test]
fn sphere_contains_and_overlaps() {
    let s = Sphere::new(0, 0, 0, 3);
    assert!(s.contains(Vector3::new(1, 2, 2)));
    assert!(!s.contains(Vector3::new(2, 2, 2)));
    assert!(!s.overlaps(&Sphere::new(0, 0, 5, 2)));
    assert!(s.overlaps(&Sphere::new(0, 0, 4, 2)));
    assert_eq!(s.overlaps(&Sphere::new(0, 0, 4, 2)), Sphere::new(0, 0, 4, 2).overlaps(&s));
}

#[test]
fn sphere_from_circle_lies_at_zero_along_z() {
    assert_eq!(Sphere::from_circle(Circle::new(1, 2, 3)), Sphere::new(1, 2, 0, 3));
    assert_eq!(Sphere::from_circle(Circle::new(1.5, 2.5, 3.5)), Sphere::new(1.5, 2.5, 0.0, 3.5));
    let c = Circle::new(1, 2, 3);
    assert_eq!(Circle::from_sphere(Sphere::from_circle(c)), c);
}

#[test]
fn hyper_sphere_constructors_and_diameter() {
    let mut h = HyperSphere::new(1.0, 2.0, 3.0, 4.0, 5.0);
    assert_eq!(h.center, Vector4::new(1.0, 2.0, 3.0, 4.0));
    assert_eq!(HyperSphere::new_vector(Vector4::new(1.0, 2.0, 3.0, 4.0), 5.0), h);
    assert_eq!(h.get_diameter(), 10.0);
    h.set_diameter(2.0);
    assert_eq!(h.radius, 1.0);
}

#[test]
fn hyper_sphere_measures() {
    let mut h = HyperSphere::new(0.0, 0.0, 0.0, 0.0, 2.0);
    assert!(close(h.get_surface_volume(), 16.0 * PI * PI));
    assert!(close(h.get_volume(), 8.0 * PI * PI));
    h.set_surface_volume(2.0 * PI * PI);
    assert!(close(h.radius, 1.0));
    h.set_volume(40.5 * PI * PI);
    assert!(close(h.radius, 3.0));
    assert_eq!(h.center, Vector4::new(0.0, 0.0, 0.0, 0.0));
}

#[test]
fn hyper_sphere_formulas_with_a_given_pi() {
    let h = HyperSphere::new(0, 0, 0, 0, 2);
    assert_eq!(h.surface_volume_with(3), 144);
    assert_eq!(h.volume_with(3), 72);
}

#[test]
fn hyper_sphere_contains_and_overlaps() {
    let h = HyperSphere::new(0, 0, 0, 0, 2);
    assert!(h.contains(Vector4::new(1, 1, 1, 1)));
    assert!(!h.contains(Vector4::new(1, 1, 1, 2)));
    assert!(!h.overlaps(&HyperSphere::new(0, 0, 0, 4, 2)));
    assert!(h.overlaps(&HyperSphere::new(0, 0, 0, 3, 2)));
}

#[test]
fn ball_defaults_are_zero() {
    assert_eq!(Circle::<i32>::default(), Circle::new(0, 0, 0));
    assert_eq!(Sphere::<f64>::default(), Sphere::new(0.0, 0.0, 0.0, 0.0));
    assert_eq!(HyperSphere::<u8>::default(), HyperSphere::new(0, 0, 0, 0, 0));
}
