use geoprim::shapes::{Area2D, Area3D, Area4D, Bounds2D, Bounds3D, Bounds4D, Circle, Rect};
use geoprim::vectors::Vector2;

#[test]
fn rect_constructors_and_plain_setters() {
    let mut r = Rect::new(1, 2, 3, 4);
    assert_eq!((r.x, r.y, r.width, r.height), (1, 2, 3, 4));
    assert_eq!(Rect::new_vectors(Vector2::new(1, 2), Vector2::new(3, 4)), r);
    r.set(5, 6, 7, 8);
    assert_eq!(r, Rect::new(5, 6, 7, 8));
    r.set_vectors(Vector2::new(9, 10), Vector2::new(11, 12));
    assert_eq!(r, Rect::new(9, 10, 11, 12));
    assert_eq!(r.get_position(), Vector2::new(9, 10));
    assert_eq!(r.get_size(), Vector2::new(11, 12));
    r.set_position(Vector2::new(0, 1));
    assert_eq!(r, Rect::new(0, 1, 11, 12));
    r.set_size(Vector2::new(2, 3));
    assert_eq!(r, Rect::new(0, 1, 2, 3));
}

#[test]
fn rect_min_and_max() {
    let mut r = Rect::new(1, 2, 3, 4);
    assert_eq!(r.get_x_min(), 1);
    assert_eq!(r.get_x_max(), 4);
    assert_eq!(r.get_y_min(), 2);
    assert_eq!(r.get_y_max(), 6);
    r.set_x_max(10);
    assert_eq!(r, Rect::new(1, 2, 9, 4));
    r.set_y_max(3);
    assert_eq!(r, Rect::new(1, 2, 9, 1));
    r.set_x_min(0);
    assert_eq!(r, Rect::new(0, 2, 9, 1));
    r.set_y_min(-2);
    assert_eq!(r, Rect::new(0, -2, 9, 1));
}

#[test]
fn rect_center() {
    let mut r = Rect::new(0.0, 0.0, 4.0, 2.0);
    assert_eq!(r.get_center(), Vector2::new(2.0, 1.0));
    r.set_center(Vector2::new(10.0, 10.0));
    assert_eq!(r, Rect::new(8.0, 9.0, 4.0, 2.0));
    assert_eq!(r.get_center(), Vector2::new(10.0, 10.0));
    let i = Rect::new(1i64, 1, 5, 7);
    assert_eq!(i.get_center(), Vector2::new(3, 4));
}

#[test]
fn rect_contains_its_edges() {
    let r = Rect::new(0.0, 0.0, 4.0, 2.0);
    assert!(r.contains(Vector2::new(2.0, 1.0)));
    assert!(r.contains(Vector2::new(0.0, 0.0)));
    assert!(r.contains(Vector2::new(4.0, 2.0)));
    assert!(r.contains(Vector2::new(4.0, 0.0)));
    assert!(!r.contains(Vector2::new(4.1, 1.0)));
    assert!(!r.contains(Vector2::new(2.0, -0.1)));
    assert!(!r.contains(Vector2::new(-0.1, 1.0)));
    assert!(!r.contains(Vector2::new(2.0, 2.1)));
}

#[test]
fn rect_overlaps_needs_shared_interior() {
    let a = Rect::new(0, 0, 4, 4);
    assert!(a.overlaps(&Rect::new(3, 3, 4, 4)));
    assert!(a.overlaps(&Rect::new(1, 1, 1, 1)));
    assert!(a.overlaps(&a));
    assert!(!a.overlaps(&Rect::new(4, 0, 4, 4)));
    assert!(!a.overlaps(&Rect::new(0, 4, 4, 4)));
    assert!(!a.overlaps(&Rect::new(5, 5, 1, 1)));
    assert!(!a.overlaps(&Rect::new(-4, 0, 4, 4)));
    assert!(!a.overlaps(&Rect::new(0, -9, 4, 4)));
}

#[test]
fn rect_overlaps_other_representations() {
    let a = Rect::new(0, 0, 4, 4);
    assert!(a.overlaps_area(Area2D::new(3, 3, 5, 5)));
    assert!(!a.overlaps_area(Area2D::new(4, 0, 5, 5)));
    assert!(a.overlaps_bounds(Bounds2D::new(5, 5, 2, 2)));
    assert!(!a.overlaps_bounds(Bounds2D::new(6, 6, 2, 2)));
}

#[test]
fn rect_overlaps_circle_by_the_nearest_point() {
    let r = Rect::new(0.0, 0.0, 4.0, 4.0);
    assert!(r.overlaps_circle(Circle::new(2.0, 2.0, 0.5)));
    assert!(r.overlaps_circle(Circle::new(6.0, 2.0, 2.0)));
    assert!(!r.overlaps_circle(Circle::new(6.1, 2.0, 2.0)));
    assert!(r.overlaps_circle(Circle::new(7.0, 8.0, 5.0)));
    assert!(!r.overlaps_circle(Circle::new(7.0, 8.0, 4.9)));
    assert!(r.overlaps_circle(Circle::new(-3.0, -4.0, 5.0)));
    assert!(r.overlaps_circle(Circle::new(-3.0, -4.0, -5.0)));
    assert!(!r.overlaps_circle(Circle::new(2.0, 9.0, 4.0)));
}

#[test]
fn rect_from_the_other_representations() {
    assert_eq!(Rect::from_area(Area2D::new(1, 2, 4, 6)), Rect::new(1, 2, 3, 4));
    assert_eq!(Rect::from_bounds(Bounds2D::new(5, 5, 2, 3)), Rect::new(3, 2, 4, 6));
    assert_eq!(Rect::from_area3d(Area3D::new(1, 2, 9, 4, 6, 99)), Rect::new(1, 2, 3, 4));
    assert_eq!(Rect::from_bounds3d(Bounds3D::new(5, 5, 7, 2, 3, 8)), Rect::new(3, 2, 4, 6));
    assert_eq!(Rect::from_area4d(Area4D::new(1, 2, 9, 9, 4, 6, 99, 99)), Rect::new(1, 2, 3, 4));
    assert_eq!(Rect::from_bounds4d(Bounds4D::new(5, 5, 7, 7, 2, 3, 8, 8)), Rect::new(3, 2, 4, 6));
}

#[test]
fn area_constructors_and_plain_setters() {
    let mut a = Area2D::new(1, 2, 3, 4);
    assert_eq!(a.lower_left, Vector2::new(1, 2));
    assert_eq!(a.upper_right, Vector2::new(3, 4));
    assert_eq!(Area2D::new_vectors(Vector2::new(1, 2), Vector2::new(3, 4)), a);
    a.set(5, 6, 7, 8);
    assert_eq!(a, Area2D::new(5, 6, 7, 8));
    a.set_vectors(Vector2::new(0, 0), Vector2::new(1, 1));
    assert_eq!(a, Area2D::new(0, 0, 1, 1));
    a.set_x_min(-1);
    a.set_y_min(-2);
    a.set_x_max(3);
    a.set_y_max(4);
    assert_eq!(a, Area2D::new(-1, -2, 3, 4));
    assert_eq!((a.get_x_min(), a.get_y_min(), a.get_x_max(), a.get_y_max()), (-1, -2, 3, 4));
}

#[test]
fn area_sizes_are_differences_of_the_corners() {
    let a = Area2D::new(1, 2, 4, 8);
    assert_eq!(a.get_width(), 3);
    assert_eq!(a.get_height(), 6);
    assert_eq!(a.get_size(), Vector2::new(3, 6));
    let inverted = Area2D::new(4, 8, 1, 2);
    assert_eq!(inverted.get_size(), Vector2::new(-3, -6));
}

#[test]
fn area_set_width_resizes_about_the_center() {
    let mut a = Area2D::new(0.0, 0.0, 10.0, 4.0);
    let before = a.get_center();
    a.set_width(4.0);
    assert_eq!(a, Area2D::new(3.0, 0.0, 7.0, 4.0));
    assert_eq!(a.get_center(), before);
    a.set_height(8.0);
    assert_eq!(a, Area2D::new(3.0, -2.0, 7.0, 6.0));
    assert_eq!(a.get_center(), before);
    a.set_size(Vector2::new(2.0, 2.0));
    assert_eq!(a, Area2D::new(4.0, 1.0, 6.0, 3.0));
    assert_eq!(a.get_center(), before);
    a.set_width(-2.0);
    assert_eq!(a, Area2D::new(6.0, 1.0, 4.0, 3.0));
    assert_eq!(a.get_center(), before);
}

#[test]
fn area_set_width_on_integers() {
    let mut a = Area2D::new(0i64, 0, 10, 4);
    a.set_width(4);
    assert_eq!(a, Area2D::new(3, 0, 7, 4));
    assert_eq!(a.get_center(), Vector2::new(5, 2));
    a.set_width(7);
    assert_eq!(a, Area2D::new(2, 0, 8, 4));
    assert_eq!(a.get_center(), Vector2::new(5, 2));
}

#[test]
fn area_center() {
    let mut a = Area2D::new(0.0, 0.0, 4.0, 2.0);
    assert_eq!(a.get_center(), Vector2::new(2.0, 1.0));
    a.set_center(Vector2::new(0.0, 0.0));
    assert_eq!(a, Area2D::new(-2.0, -1.0, 2.0, 1.0));
}

#[test]
fn area_contains_its_edges() {
    let a = Area2D::new(0, 0, 4, 2);
    assert!(a.contains(Vector2::new(0, 0)));
    assert!(a.contains(Vector2::new(4, 2)));
    assert!(a.contains(Vector2::new(2, 1)));
    assert!(!a.contains(Vector2::new(5, 1)));
    assert!(!a.contains(Vector2::new(2, 3)));
    assert!(!a.contains(Vector2::new(-1, 1)));
    assert!(!a.contains(Vector2::new(2, -1)));
}

#[test]
fn area_overlaps() {
    let a = Area2D::new(0, 0, 4, 4);
    assert!(a.overlaps(&Area2D::new(3, 3, 5, 5)));
    assert!(!a.overlaps(&Area2D::new(4, 0, 8, 4)));
    assert!(!a.overlaps(&Area2D::new(0, 4, 4, 8)));
    assert!(a.overlaps_rect(&Rect::new(3, 3, 2, 2)));
    assert!(!a.overlaps_rect(&Rect::new(4, 0, 2, 2)));
    assert!(a.overlaps_bounds(&Bounds2D::new(5, 5, 2, 2)));
    assert!(!a.overlaps_bounds(&Bounds2D::new(6, 2, 2, 2)));
    let f = Area2D::new(0.0, 0.0, 4.0, 4.0);
    assert!(f.overlaps_circle(&Circle::new(6.0, 2.0, 2.0)));
    assert!(!f.overlaps_circle(&Circle::new(6.5, 2.0, 2.0)));
}

#[test]
fn area_from_the_other_representations() {
    assert_eq!(Area2D::from_rect(Rect::new(1, 2, 3, 4)), Area2D::new(1, 2, 4, 6));
    assert_eq!(Area2D::from_bounds(Bounds2D::new(5, 5, 2, 3)), Area2D::new(3, 2, 7, 8));
    assert_eq!(Area2D::from_area3d(Area3D::new(1, 2, 3, 4, 5, 6)), Area2D::new(1, 2, 4, 5));
    assert_eq!(Area2D::from_bounds3d(Bounds3D::new(5, 5, 5, 2, 3, 4)), Area2D::new(3, 2, 7, 8));
    assert_eq!(Area2D::from_area4d(Area4D::new(1, 2, 3, 4, 5, 6, 7, 8)), Area2D::new(1, 2, 5, 6));
    assert_eq!(Area2D::from_bounds4d(Bounds4D::new(5, 5, 5, 5, 2, 3, 4, 5)), Area2D::new(3, 2, 7, 8));
}

#[test]
fn bounds_constructors_and_plain_setters() {
    let mut b = Bounds2D::new(1, 2, 3, 4);
    assert_eq!(b.center, Vector2::new(1, 2));
    assert_eq!(b.extents, Vector2::new(3, 4));
    assert_eq!(Bounds2D::new_vectors(Vector2::new(1, 2), Vector2::new(3, 4)), b);
    b.set(5, 6, 7, 8);
    assert_eq!(b, Bounds2D::new(5, 6, 7, 8));
    b.set_vectors(Vector2::new(0, 0), Vector2::new(1, 1));
    assert_eq!(b, Bounds2D::new(0, 0, 1, 1));
}

#[test]
fn bounds_min_and_max_move_the_center() {
    let mut b = Bounds2D::new(5, 5, 2, 3);
    assert_eq!((b.get_x_min(), b.get_x_max(), b.get_y_min(), b.get_y_max()), (3, 7, 2, 8));
    b.set_x_min(0);
    assert_eq!(b, Bounds2D::new(2, 5, 2, 3));
    b.set_x_max(10);
    assert_eq!(b, Bounds2D::new(8, 5, 2, 3));
    b.set_y_min(0);
    assert_eq!(b, Bounds2D::new(8, 3, 2, 3));
    b.set_y_max(0);
    assert_eq!(b, Bounds2D::new(8, -3, 2, 3));
}

#[test]
fn bounds_size_is_twice_the_extent() {
    let mut b = Bounds2D::new(5.0, 5.0, 2.0, 3.0);
    assert_eq!(b.get_width(), 4.0);
    assert_eq!(b.get_height(), 6.0);
    assert_eq!(b.get_size(), Vector2::new(4.0, 6.0));
    b.set_width(10.0);
    assert_eq!(b, Bounds2D::new(5.0, 5.0, 5.0, 3.0));
    b.set_height(1.0);
    assert_eq!(b, Bounds2D::new(5.0, 5.0, 5.0, 0.5));
    b.set_size(3.0, 4.0);
    assert_eq!(b, Bounds2D::new(5.0, 5.0, 1.5, 2.0));
    assert_eq!(b.center, Vector2::new(5.0, 5.0));
}

#[test]
fn bounds_contains_leaves_out_its_edges() {
    let b = Bounds2D::new(0.0, 0.0, 2.0, 1.0);
    assert!(b.contains(Vector2::new(0.0, 0.0)));
    assert!(b.contains(Vector2::new(1.9, 0.9)));
    assert!(!b.contains(Vector2::new(2.0, 0.0)));
    assert!(!b.contains(Vector2::new(-2.0, 0.0)));
    assert!(!b.contains(Vector2::new(0.0, 1.0)));
    assert!(!b.contains(Vector2::new(0.0, -1.0)));
    assert!(!b.contains(Vector2::new(3.0, 0.0)));
}

#[test]
fn bounds_of_no_extent_does_not_contain_its_center() {
    let b = Bounds2D::new(1, 1, 0, 0);
    assert!(!b.contains(b.center));
    let c = Bounds2D::new(1, 1, 1, 1);
    assert!(c.contains(c.center));
}

#[test]
fn bounds_overlaps() {
    let b = Bounds2D::new(0, 0, 2, 2);
    assert!(b.overlaps(&Bounds2D::new(3, 3, 2, 2)));
    assert!(!b.overlaps(&Bounds2D::new(4, 0, 2, 2)));
    assert!(b.overlaps_rect(&Rect::new(1, 1, 5, 5)));
    assert!(!b.overlaps_rect(&Rect::new(2, 0, 5, 5)));
    assert!(b.overlaps_area(&Area2D::new(1, 1, 5, 5)));
    assert!(!b.overlaps_area(&Area2D::new(-5, 2, 5, 5)));
    let f = Bounds2D::new(2.0, 2.0, 2.0, 2.0);
    assert!(f.overlaps_circle(Circle::new(6.0, 2.0, 2.0)));
    assert!(!f.overlaps_circle(Circle::new(6.5, 2.0, 2.0)));
}

#[test]
fn bounds_from_the_other_representations() {
    assert_eq!(Bounds2D::from_rect(Rect::new(1.0, 2.0, 3.0, 4.0)), Bounds2D::new(2.5, 4.0, 1.5, 2.0));
    assert_eq!(Bounds2D::from_area(Area2D::new(1.0, 2.0, 4.0, 8.0)), Bounds2D::new(2.5, 5.0, 1.5, 3.0));
    assert_eq!(Bounds2D::from_bounds3d(Bounds3D::new(1, 2, 3, 4, 5, 6)), Bounds2D::new(1, 2, 4, 5));
    assert_eq!(Bounds2D::from_bounds4d(Bounds4D::new(1, 2, 3, 4, 5, 6, 7, 8)), Bounds2D::new(1, 2, 5, 6));
    assert_eq!(
        Bounds2D::from_area3d(Area3D::new(1.0, 2.0, 3.0, 4.0, 8.0, 9.0)),
        Bounds2D::new(2.5, 5.0, 1.5, 3.0)
    );
    assert_eq!(
        Bounds2D::from_area4d(Area4D::new(1.0, 2.0, 3.0, 4.0, 4.0, 8.0, 9.0, 10.0)),
        Bounds2D::new(2.5, 5.0, 1.5, 3.0)
    );
}

#[test]
fn bounds_from_area_keeps_the_height() {
    let b = Bounds2D::from_area(Area2D::new(0, 0, 4, 10));
    assert_eq!(b.extents, Vector2::new(2, 5));
    assert_eq!(b.center, Vector2::new(2, 5));
}

#[test]
fn round_trips_between_the_representations() {
    let r = Rect::new(1.0, 2.0, 3.0, 5.0);
    assert_eq!(Rect::from_area(Area2D::from_rect(r)), r);
    assert_eq!(Rect::from_bounds(Bounds2D::from_rect(r)), r);
    let a = Area2D::new(1.0, 2.0, 4.0, 7.0);
    assert_eq!(Area2D::from_rect(Rect::from_area(a)), a);
    assert_eq!(Area2D::from_bounds(Bounds2D::from_area(a)), a);
    let b = Bounds2D::new(2.5, 4.5, 1.5, 2.5);
    assert_eq!(Bounds2D::from_rect(Rect::from_bounds(b)), b);
    assert_eq!(Bounds2D::from_area(Area2D::from_bounds(b)), b);
}

#[test]
fn round_trips_on_integers_of_even_size() {
    let r = Rect::new(1i64, 2, 4, 6);
    assert_eq!(Rect::from_area(Area2D::from_rect(r)), r);
    assert_eq!(Rect::from_bounds(Bounds2D::from_rect(r)), r);
    let a = Area2D::new(-3i64, 2, 5, 8);
    assert_eq!(Area2D::from_bounds(Bounds2D::from_area(a)), a);
    let b = Bounds2D::new(7i64, -7, 3, 1);
    assert_eq!(Bounds2D::from_rect(Rect::from_bounds(b)), b);
    assert_eq!(Bounds2D::from_area(Area2D::from_bounds(b)), b);
}

#[test]
fn round_trip_through_bounds_rounds_an_odd_integer_size() {
    let a = Area2D::new(0i64, 0, 1, 1);
    assert_eq!(Area2D::from_bounds(Bounds2D::from_area(a)), Area2D::new(0, 0, 0, 0));
}

#[test]
fn overlaps_is_symmetric() {
    let boxes = [Rect::new(0, 0, 4, 4), Rect::new(3, 3, 4, 4), Rect::new(4, 0, 1, 1), Rect::new(-2, -2, 1, 9)];
    for a in boxes.iter() {
        for b in boxes.iter() {
            assert_eq!(a.overlaps(b), b.overlaps(a));
            let (aa, ab) = (Area2D::from_rect(*a), Area2D::from_rect(*b));
            assert_eq!(aa.overlaps(&ab), ab.overlaps(&aa));
            assert_eq!(a.overlaps(b), aa.overlaps(&ab));
        }
    }
}

#[test]
fn box_defaults_are_zero() {
    assert_eq!(Rect::<i32>::default(), Rect::new(0, 0, 0, 0));
    assert_eq!(Area2D::<i32>::default(), Area2D::new(0, 0, 0, 0));
    assert_eq!(Bounds2D::<f64>::default(), Bounds2D::new(0.0, 0.0, 0.0, 0.0));
}

#[test]
fn a_box_of_no_negative_size_contains_its_center() {
    let r = Rect::new(1.0, 2.0, 3.0, 5.0);
    assert!(r.contains(r.get_center()));
    let flat = Rect::new(1.0, 2.0, 0.0, 0.0);
    assert!(flat.contains(flat.get_center()));
    let i = Rect::new(1i64, 2, 3, 5);
    assert!(i.contains(i.get_center()));
    let a = Area2D::new(-1.0, -2.0, 3.0, 5.0);
    assert!(a.contains(a.get_center()));
    let j = Area2D::new(-3i64, -2, 4, 5);
    assert!(j.contains(j.get_center()));
    let b = Bounds2D::new(1.0, 2.0, 0.5, 0.25);
    assert!(b.contains(b.center));
}

#[test]
fn a_box_of_negative_size_does_not_contain_its_center() {
    let r = Rect::new(0.0, 0.0, -2.0, 2.0);
    assert!(!r.contains(r.get_center()));
    let b = Bounds2D::new(0.0, 0.0, -1.0, 1.0);
    assert!(!b.contains(b.center));
}

#[test]
fn predicates_agree_between_the_representations() {
    let boxes = [Rect::new(0, 0, 4, 4), Rect::new(3, 3, 4, 4), Rect::new(4, 0, 2, 2), Rect::new(-2, 1, 2, 2)];
    for a in boxes.iter() {
        for b in boxes.iter() {
            let expected = a.overlaps(b);
            assert_eq!(a.overlaps_area(Area2D::from_rect(*b)), expected);
            assert_eq!(a.overlaps_bounds(Bounds2D::from_rect(*b)), expected);
            assert_eq!(Area2D::from_rect(*a).overlaps_rect(b), expected);
            assert_eq!(Area2D::from_rect(*a).overlaps_bounds(&Bounds2D::from_rect(*b)), expected);
            assert_eq!(Bounds2D::from_rect(*a).overlaps_rect(b), expected);
            assert_eq!(Bounds2D::from_rect(*a).overlaps_area(&Area2D::from_rect(*b)), expected);
            assert_eq!(Bounds2D::from_rect(*a).overlaps(&Bounds2D::from_rect(*b)), expected);
        }
        assert_eq!(a.contains(Vector2::new(4, 4)), Area2D::from_rect(*a).contains(Vector2::new(4, 4)));
    }
}
