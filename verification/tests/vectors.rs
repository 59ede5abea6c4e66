use geoprim::vectors::{Vector2, Vector3, Vector4};
use std::ops::{Add, Div, Index, Mul, Neg, Sub};

fn close(a: f64, b: f64) -> bool {
    (a - b).abs() < 1e-12
}

#[test]
fn vector2_set() {
    let mut vector = Vector2::new(2, 2);
    vector.set(2, 3);
    assert_eq!(vector.x, 2);
    assert_eq!(vector.y, 3);

    vector.set(5, 5);
    assert_eq!(vector.x, 5);
    assert_eq!(vector.y, 5);
}

#[test]
fn vector3_and_vector4_set() {
    let mut v3 = Vector3::new(1, 2, 3);
    v3.set(4, 5, 6);
    assert_eq!(v3, Vector3::new(4, 5, 6));
    let mut v4 = Vector4::new(1, 2, 3, 4);
    v4.set(5, 6, 7, 8);
    assert_eq!(v4, Vector4::new(5, 6, 7, 8));
}

#[test]
fn unit_vectors() {
    assert_eq!(Vector2::<f64>::zero(), Vector2::new(0.0, 0.0));
    assert_eq!(Vector2::<f64>::one(), Vector2::new(1.0, 1.0));
    assert_eq!(Vector2::<f64>::right(), Vector2::new(1.0, 0.0));
    assert_eq!(Vector2::<f64>::left(), Vector2::new(-1.0, 0.0));
    assert_eq!(Vector2::<f64>::up(), Vector2::new(0.0, 1.0));
    assert_eq!(Vector2::<f64>::down(), Vector2::new(0.0, -1.0));
    assert_eq!(Vector3::<i64>::forward(), Vector3::new(0, 0, 1));
    assert_eq!(Vector3::<i64>::back(), Vector3::new(0, 0, -1));
    assert_eq!(Vector3::<i64>::left(), Vector3::new(-1, 0, 0));
    assert_eq!(Vector4::<f32>::hyper_forward(), Vector4::new(0.0, 0.0, 0.0, 1.0));
    assert_eq!(Vector4::<f32>::hyper_back(), Vector4::new(0.0, 0.0, 0.0, -1.0));
    assert_eq!(Vector4::<i32>::one(), Vector4::new(1, 1, 1, 1));
}

#[test]
fn vector_sum_and_difference_are_componentwise() {
    let a = Vector2::new(1, 2);
    let b = Vector2::new(10, 20);
    assert_eq!(a + b, Vector2::new(11, 22));
    assert_eq!(b - a, Vector2::new(9, 18));
    assert_eq!(a + &b, Vector2::new(11, 22));
    assert_eq!(b - &a, Vector2::new(9, 18));
    let c = Vector3::new(1, 2, 3);
    let d = Vector3::new(10, 20, 30);
    assert_eq!(c + d, Vector3::new(11, 22, 33));
    assert_eq!(d - c, Vector3::new(9, 18, 27));
    let e = Vector4::new(1, 2, 3, 4);
    let f = Vector4::new(10, 20, 30, 40);
    assert_eq!(e + f, Vector4::new(11, 22, 33, 44));
    assert_eq!(f - e, Vector4::new(9, 18, 27, 36));
    assert_eq!(e.add(f), f.add(e));
    assert_eq!(f.sub(e), Vector4::new(9, 18, 27, 36));
}

#[test]
fn vector_products_and_quotients() {
    let a = Vector2::new(6, 8);
    assert_eq!(a * 2, Vector2::new(12, 16));
    assert_eq!(a * &2, Vector2::new(12, 16));
    assert_eq!(a / 2, Vector2::new(3, 4));
    assert_eq!(a / &2, Vector2::new(3, 4));
    assert_eq!(a * Vector2::new(2, 3), Vector2::new(12, 24));
    assert_eq!(a * &Vector2::new(2, 3), Vector2::new(12, 24));
    assert_eq!(a / Vector2::new(2, 4), Vector2::new(3, 2));
    assert_eq!(a / &Vector2::new(2, 4), Vector2::new(3, 2));
    let b = Vector3::new(6, 8, 10);
    assert_eq!(b * 2, Vector3::new(12, 16, 20));
    assert_eq!(b / 2, Vector3::new(3, 4, 5));
    assert_eq!(b.mul(Vector3::new(1, 2, 3)), Vector3::new(6, 16, 30));
    assert_eq!(b.div(Vector3::new(1, 2, 5)), Vector3::new(6, 4, 2));
    let c = Vector4::new(6, 8, 10, 12);
    assert_eq!(c * 2, Vector4::new(12, 16, 20, 24));
    assert_eq!(c / 2, Vector4::new(3, 4, 5, 6));
    assert_eq!(Vector2::scale(a, Vector2::new(2, 3)), Vector2::new(12, 24));
    assert_eq!(Vector3::scale(b, Vector3::new(1, 2, 3)), Vector3::new(6, 16, 30));
    assert_eq!(Vector4::scale(c, Vector4::new(1, 2, 3, 4)), Vector4::new(6, 16, 30, 48));
}

#[test]
fn vector_negation() {
    assert_eq!(-Vector2::new(1, -2), Vector2::new(-1, 2));
    assert_eq!(Vector3::new(1, -2, 3).neg(), Vector3::new(-1, 2, -3));
    assert_eq!(-Vector4::new(1.5, -2.0, 3.0, 0.0), Vector4::new(-1.5, 2.0, -3.0, -0.0));
}

#[test]
fn vector_assigning_operators_change_every_component() {
    let mut a = Vector3::new(1, 2, 3);
    a.add_assign(Vector3::new(10, 20, 30));
    assert_eq!(a, Vector3::new(11, 22, 33));
    a.sub_assign(Vector3::new(1, 2, 3));
    assert_eq!(a, Vector3::new(10, 20, 30));
    a.mul_assign(3);
    assert_eq!(a, Vector3::new(30, 60, 90));
    a.div_assign(10);
    assert_eq!(a, Vector3::new(3, 6, 9));
    let mut b = Vector4::new(1, 2, 3, 4);
    b.add_assign(Vector4::new(1, 1, 1, 1));
    assert_eq!(b, Vector4::new(2, 3, 4, 5));
    b.mul_assign(2);
    assert_eq!(b, Vector4::new(4, 6, 8, 10));
    let mut c = Vector2::new(8.0, 4.0);
    c.div_assign(4.0);
    assert_eq!(c, Vector2::new(2.0, 1.0));
    c.sub_assign(Vector2::new(2.0, 1.0));
    assert_eq!(c, Vector2::new(0.0, 0.0));
}

#[test]
fn vector_index_reads_each_component() {
    let v2 = Vector2::new(7, 8);
    assert_eq!(v2[0], 7);
    assert_eq!(v2[1], 8);
    let v3 = Vector3::new(7, 8, 9);
    assert_eq!(v3[2], 9);
    let v4 = Vector4::new(7, 8, 9, 10);
    assert_eq!(v4[0], 7);
    assert_eq!(v4[3], 10);
    assert_eq!(*v4.index(2), 9);
}

#[test]
fn vector_index_mut_writes_one_component() {
    let mut v2 = Vector2::new(7, 8);
    *v2.index_mut(1) = 80;
    assert_eq!(v2, Vector2::new(7, 80));
    let mut v3 = Vector3::new(7, 8, 9);
    *v3.index_mut(0) = 70;
    *v3.index_mut(2) = 90;
    assert_eq!(v3, Vector3::new(70, 8, 90));
    let mut v4 = Vector4::new(7, 8, 9, 10);
    *v4.index_mut(3) = 100;
    assert_eq!(v4, Vector4::new(7, 8, 9, 100));
}

#[test]
fn sqr_magnitude_is_the_sum_of_squares() {
    assert_eq!(Vector2::new(3, 4).sqr_magnitude(), 25);
    assert_eq!(Vector3::new(1, 2, 2).sqr_magnitude(), 9);
    assert_eq!(Vector4::new(1, 2, 3, 4).sqr_magnitude(), 30);
    assert_eq!(Vector2::sqr_distance(Vector2::new(1, 1), Vector2::new(4, 5)), 25);
    assert_eq!(Vector3::sqr_distance(Vector3::new(0, 0, 0), Vector3::new(1, 2, 2)), 9);
    assert_eq!(Vector4::sqr_distance(Vector4::new(1, 1, 1, 1), Vector4::new(2, 3, 4, 5)), 30);
}

#[test]
fn magnitude_takes_the_square_root() {
    assert_eq!(Vector2::new(3.0, 4.0).magnitude(), 5.0);
    assert_eq!(Vector3::new(1.0, 2.0, 2.0).magnitude(), 3.0);
    assert_eq!(Vector4::new(2.0, 2.0, 2.0, 2.0).magnitude(), 4.0);
    assert_eq!(Vector2::distance(Vector2::new(1.0, 1.0), Vector2::new(4.0, 5.0)), 5.0);
    assert_eq!(Vector3::distance(Vector3::new(1.0, 2.0, 2.0), Vector3::new(0.0, 0.0, 0.0)), 3.0);
    assert_eq!(Vector4::distance(Vector4::new(0.0f32, 0.0, 0.0, 0.0), Vector4::new(2.0, 2.0, 2.0, 2.0)), 4.0);
}

#[test]
fn normalize_divides_by_the_magnitude() {
    let n = Vector2::normalize(&Vector2::new(3.0, 4.0));
    assert!(close(n.x, 0.6) && close(n.y, 0.8));
    assert_eq!(Vector2::new(0.0, 5.0).normalized(), Vector2::new(0.0, 1.0));
    let m = Vector3::new(1.0, 2.0, 2.0).normalized();
    assert!(close(m.x, 1.0 / 3.0) && close(m.y, 2.0 / 3.0) && close(m.z, 2.0 / 3.0));
    let k = Vector4::normalize(&Vector4::new(2.0, 2.0, 2.0, 2.0));
    assert_eq!(k, Vector4::new(0.5, 0.5, 0.5, 0.5));
}

#[test]
fn normalize_of_the_zero_vector_is_not_a_number() {
    let n = Vector2::normalize(&Vector2::new(0.0f64, 0.0));
    assert!(n.x.is_nan() && n.y.is_nan());
}

#[test]
fn dot_products() {
    assert_eq!(Vector2::dot(Vector2::new(1, 2), Vector2::new(3, 4)), 11);
    assert_eq!(Vector3::dot(Vector3::new(1, 2, 3), Vector3::new(4, 5, 6)), 32);
    assert_eq!(Vector4::dot(Vector4::new(1, 2, 3, 4), Vector4::new(5, 6, 7, 8)), 70);
    assert_eq!(Vector2::dot(Vector2::new(1.0, 0.0), Vector2::new(0.0, 1.0)), 0.0);
}

#[test]
fn cross_product_of_the_axes() {
    let x = Vector3::new(1, 0, 0);
    let y = Vector3::new(0, 1, 0);
    assert_eq!(Vector3::cross(x, y), Vector3::new(0, 0, 1));
    assert_eq!(Vector3::cross(y, x), Vector3::new(0, 0, -1));
    assert_eq!(Vector3::cross(Vector3::new(1, 2, 3), Vector3::new(4, 5, 6)), Vector3::new(-3, 6, -3));
}

#[test]
fn reflect_adds_twice_the_dot_product_along_the_normal() {
    let r = Vector2::reflect(Vector2::new(1.0, -1.0), Vector2::new(0.0, 1.0));
    assert_eq!(r, Vector2::new(1.0, -3.0));
    let i = Vector2::reflect(Vector2::new(1i64, 2), Vector2::new(3, 4));
    assert_eq!(i, Vector2::new(67, 90));
    let r3 = Vector3::reflect(Vector3::new(1, 0, 0), Vector3::new(1, 1, 0));
    assert_eq!(r3, Vector3::new(3, 2, 0));
    let r4 = Vector4::reflect(Vector4::new(0, 0, 0, 1), Vector4::new(0, 0, 0, 1));
    assert_eq!(r4, Vector4::new(0, 0, 0, 3));
}

#[test]
fn perpendicular_turns_a_quarter_turn() {
    assert_eq!(Vector2::perpendicular(Vector2::new(1, 0)), Vector2::new(0, 1));
    assert_eq!(Vector2::perpendicular(Vector2::new(2, 3)), Vector2::new(-3, 2));
}

#[test]
fn project_and_project_on_plane() {
    let p = Vector3::project(Vector3::new(2.0, 3.0, 4.0), Vector3::new(0.0, 0.0, 2.0));
    assert_eq!(p, Vector3::new(0.0, 0.0, 4.0));
    let q = Vector3::project_on_plane(Vector3::new(2.0, 3.0, 4.0), Vector3::new(0.0, 0.0, 2.0));
    assert_eq!(q, Vector3::new(2.0, 3.0, 0.0));
    let r = Vector4::project(Vector4::new(2.0, 3.0, 4.0, 5.0), Vector4::new(0.0, 0.0, 0.0, 1.0));
    assert_eq!(r, Vector4::new(0.0, 0.0, 0.0, 5.0));
    let i = Vector3::project(Vector3::new(2, 3, 4), Vector3::new(0, 2, 0));
    assert_eq!(i, Vector3::new(0, 3, 0));
}

#[test]
fn move_towards_stops_at_a_near_target() {
    let t = Vector2::move_towards(Vector2::new(0.0, 0.0), Vector2::new(3.0, 4.0), 5.0);
    assert_eq!(t, Vector2::new(3.0, 4.0));
    let u = Vector2::move_towards(Vector2::new(0.0, 0.0), Vector2::new(3.0, 4.0), 10.0);
    assert_eq!(u, Vector2::new(3.0, 4.0));
}

#[test]
fn move_towards_takes_a_step_of_the_given_length() {
    let t = Vector2::move_towards(Vector2::new(0.0, 0.0), Vector2::new(6.0, 8.0), 5.0);
    assert!(close(t.x, 3.0) && close(t.y, 4.0));
    let u = Vector3::move_towards(Vector3::new(1.0, 1.0, 1.0), Vector3::new(1.0, 1.0, 11.0), 4.0);
    assert_eq!(u, Vector3::new(1.0, 1.0, 5.0));
    let v = Vector4::move_towards(Vector4::new(0.0, 0.0, 0.0, 0.0), Vector4::new(0.0, 0.0, 0.0, 10.0), 2.5);
    assert_eq!(v, Vector4::new(0.0, 0.0, 0.0, 2.5));
}

#[test]
fn step_towards_with_a_given_magnitude() {
    let s = Vector2::step_towards(Vector2::new(1, 1), Vector2::new(7, 9), 5, 10);
    assert_eq!(s, Vector2::new(1, 1));
    let t = Vector2::step_towards(Vector2::new(1, 1), Vector2::new(21, 41), 5, 10);
    assert_eq!(t, Vector2::new(11, 21));
}

#[test]
fn infinities() {
    let p = Vector2::<f64>::positive_infinity();
    assert!(p.x == f64::INFINITY && p.y == f64::INFINITY);
    let n = Vector3::<f32>::negative_infinity();
    assert!(n.x == f32::NEG_INFINITY && n.y == f32::NEG_INFINITY && n.z == f32::NEG_INFINITY);
    let q = Vector4::<f64>::positive_infinity();
    assert!(q.w == f64::INFINITY);
    let m = Vector4::<f64>::negative_infinity();
    assert!(m.w == f64::NEG_INFINITY && m.x == f64::NEG_INFINITY);
}

#[test]
fn vectors_from_tuples_and_arrays() {
    assert_eq!(Vector2::from((1, 2)), Vector2::new(1, 2));
    assert_eq!(Vector3::from((1, 2, 3)), Vector3::new(1, 2, 3));
    assert_eq!(Vector4::from((1, 2, 3, 4)), Vector4::new(1, 2, 3, 4));
    assert_eq!(Vector2::from([1, 2]), Vector2::new(1, 2));
    assert_eq!(Vector3::from([1, 2, 3]), Vector3::new(1, 2, 3));
    assert_eq!(Vector4::from([1, 2, 3, 4]), Vector4::new(1, 2, 3, 4));
    assert_eq!(Vector2::from([[1], [2]]), Vector2::new(1, 2));
    assert_eq!(Vector3::from([[1], [2], [3]]), Vector3::new(1, 2, 3));
    assert_eq!(Vector4::from([[1], [2], [3], [4]]), Vector4::new(1, 2, 3, 4));
}

#[test]
fn tuples_and_arrays_from_vectors() {
    assert_eq!(<(i32, i32)>::from(Vector2::new(1, 2)), (1, 2));
    assert_eq!(<(i32, i32, i32)>::from(Vector3::new(1, 2, 3)), (1, 2, 3));
    assert_eq!(<(i32, i32, i32, i32)>::from(Vector4::new(1, 2, 3, 4)), (1, 2, 3, 4));
    assert_eq!(<[i32; 2]>::from(Vector2::new(1, 2)), [1, 2]);
    assert_eq!(<[i32; 3]>::from(Vector3::new(1, 2, 3)), [1, 2, 3]);
    assert_eq!(<[i32; 4]>::from(Vector4::new(1, 2, 3, 4)), [1, 2, 3, 4]);
    assert_eq!(<[[i32; 1]; 2]>::from(Vector2::new(1, 2)), [[1], [2]]);
    assert_eq!(<[[i32; 1]; 3]>::from(Vector3::new(1, 2, 3)), [[1], [2], [3]]);
    assert_eq!(<[[i32; 1]; 4]>::from(Vector4::new(1, 2, 3, 4)), [[1], [2], [3], [4]]);
}

#[test]
fn narrowing_a_vector_drops_the_trailing_components() {
    assert_eq!(Vector2::from(Vector3::new(1, 2, 3)), Vector2::new(1, 2));
    assert_eq!(Vector2::from(Vector4::new(1, 2, 3, 4)), Vector2::new(1, 2));
    assert_eq!(Vector3::from(Vector4::new(1, 2, 3, 4)), Vector3::new(1, 2, 3));
}

#[test]
fn widening_a_vector_pads_with_the_default() {
    assert_eq!(Vector3::from(Vector2::new(1, 2)), Vector3::new(1, 2, 0));
    assert_eq!(Vector4::from(Vector2::new(1.5, 2.5)), Vector4::new(1.5, 2.5, 0.0, 0.0));
    assert_eq!(Vector4::from(Vector3::new(1, 2, 3)), Vector4::new(1, 2, 3, 0));
}

#[test]
fn from_iter_takes_the_first_items_and_pads() {
    assert_eq!(Vector2::from_iter(vec![1, 2, 3]), Vector2::new(1, 2));
    assert_eq!(Vector2::from_iter(vec![1]), Vector2::new(1, 0));
    assert_eq!(Vector2::<i32>::from_iter(vec![]), Vector2::new(0, 0));
    assert_eq!(Vector3::from_iter(vec![1, 2]), Vector3::new(1, 2, 0));
    assert_eq!(Vector3::from_iter(vec![1, 2, 3, 4]), Vector3::new(1, 2, 3));
    assert_eq!(Vector4::from_iter(vec![1.0, 2.0, 3.0]), Vector4::new(1.0, 2.0, 3.0, 0.0));
    assert_eq!(Vector4::from_iter(vec![1, 2, 3, 4, 5]), Vector4::new(1, 2, 3, 4));
}

#[test]
fn to_vec_hands_out_every_component() {
    assert_eq!(Vector2::new(1, 2).to_vec(), vec![1, 2]);
    assert_eq!(Vector3::new(1, 2, 3).to_vec(), vec![1, 2, 3]);
    assert_eq!(Vector4::new(1, 2, 3, 4).to_vec(), vec![1, 2, 3, 4]);
}

#[test]
fn vector_default_is_zero() {
    assert_eq!(Vector2::<i32>::default(), Vector2::new(0, 0));
    assert_eq!(Vector3::<f64>::default(), Vector3::new(0.0, 0.0, 0.0));
    assert_eq!(Vector4::<u64>::default(), Vector4::new(0, 0, 0, 0));
}

#[test]
fn quotient_of_vectors_by_vectors_needs_no_common_divisor() {
    let q = Vector4::new(8.0, 9.0, 10.0, 12.0).div(Vector4::new(2.0, 3.0, 5.0, 4.0));
    assert_eq!(q, Vector4::new(4.0, 3.0, 2.0, 3.0));
    let r = Vector3::new(8.0, 9.0, 10.0).div(&Vector3::new(2.0, 3.0, 5.0));
    assert_eq!(r, Vector3::new(4.0, 3.0, 2.0));
}

#[test]
fn componentwise_assigning_product_and_quotient() {
    let mut a = Vector2::new(6, 8);
    a.mul_assign_componentwise(Vector2::new(2, 3));
    assert_eq!(a, Vector2::new(12, 24));
    a.div_assign_componentwise(Vector2::new(4, 6));
    assert_eq!(a, Vector2::new(3, 4));
    let mut b = Vector3::new(1.0, 2.0, 3.0);
    b.mul_assign_componentwise(Vector3::new(2.0, 2.0, 2.0));
    assert_eq!(b, Vector3::new(2.0, 4.0, 6.0));
    let mut c = Vector4::new(8, 8, 8, 8);
    c.div_assign_componentwise(Vector4::new(1, 2, 4, 8));
    assert_eq!(c, Vector4::new(8, 4, 2, 1));
}
