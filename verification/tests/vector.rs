use raycore::point::Point;
use raycore::vector::Vector;

#[test]
fn vector_vector_1() {
    let p = Vector::new(1, 2, 3);
    assert!(p.x == 1 && p.y == 2 && p.z == 3 && p.w() == 0);
}

#[test]
fn vector_vector_2() {
    let a = Point::new(1, 2, 3);
    let b = Point::new(3, 2, 4);
    let p = b.minus(&a);
    assert!(p.x == 2 && p.y == 0 && p.z == 1 && p.w() == 0);
}

#[test]
fn vector_translate_1() {
    let a = Point::new(1, 2, 3);
    let a_again = Point::new(1, 2, 3);
    let b = Point::new(3, 2, 4);
    let p = b.minus(&a);
    assert!(p.x == 2 && p.y == 0 && p.z == 1 && p.w() == 0);

    let a_t = a.plus(&p);
    assert!(a_t.x == b.x && a_t.y == b.y && a_t.z == b.z && a_t.w() == 1);
    assert!(a_again.x == a.x && a_again.y == a.y && a_again.z == a.z && a_again.w() == 1);
}

#[test]
fn vector_translate_2() {
    let mut a = Point::new(1, 2, 3);
    let b = Point::new(3, 2, 4);
    let p = b.minus(&a);
    assert!(p.x == 2 && p.y == 0 && p.z == 1 && p.w() == 0);

    a.plus_assign(&p);
    assert!(a.x == b.x && a.y == b.y && a.z == b.z && a.w() == 1);
}

#[test]
fn vector_add_point_1() {
    let a = Point::new(1, 2, 3);
    let v = Vector::new(3, 2, 4);
    let b = a.plus(&v);

    assert!(b.x == 4 && b.y == 4 && b.z == 7 && b.w() == 1);
    assert!(v.x == 3);
}

#[test]
fn vector_add_point_2() {
    let mut a = Point::new(1, 2, 3);
    let v = Vector::new(3, 2, 4);
    a.plus_assign(&v);

    assert!(a.x == 4 && a.y == 4 && a.z == 7 && a.w() == 1);
    assert!(v.x == 3);
}

#[test]
fn vector_mul_vector_1() {
    let u = Vector::new(3, 2, 4);
    let v = Vector::new(4, 5, 1);
    let s = u.dot(&v);

    assert!(s == 26);
}

#[test]
fn vector_check_base() {
    let i_axis = Vector::unit_i();
    let j_axis = Vector::unit_j();
    let k_axis = Vector::unit_k();

    assert!(i_axis.dot(&j_axis) == 0);
    assert!(j_axis.dot(&k_axis) == 0);
    assert!(k_axis.dot(&i_axis) == 0);

    assert!(i_axis.square_length() == 1);
    assert!(j_axis.square_length() == 1);
    assert!(k_axis.square_length() == 1);

    let i = j_axis.cross(&k_axis);
    let j = k_axis.cross(&i_axis);
    let k = i_axis.cross(&j_axis);

    assert!(i.x == 1 && i.y == 0 && i.z == 0 && i.w() == 0);
    assert!(j.x == 0 && j.y == 1 && j.z == 0 && j.w() == 0);
    assert!(k.x == 0 && k.y == 0 && k.z == 1 && k.w() == 0);
}

#[test]
fn vector_sum_difference_opposite() {
    let u = Vector::new(3, -2, 4);
    let v = Vector::new(-4, 5, 1);
    assert_eq!(u.plus(&v), Vector::new(-1, 3, 5));
    assert_eq!(u.minus(&v), Vector::new(7, -7, 3));
    assert_eq!(u.neg(), Vector::new(-3, 2, -4));
    assert_eq!(u.scale(-3), Vector::new(-9, 6, -12));
    assert_eq!(Vector::zero(), Vector::new(0, 0, 0));
}

#[test]
fn vector_in_place_operations() {
    let mut u = Vector::new(3, -2, 4);
    u.plus_assign(&Vector::new(1, 1, 1));
    assert_eq!(u, Vector::new(4, -1, 5));
    u.minus_assign(&Vector::new(4, 0, 6));
    assert_eq!(u, Vector::new(0, -1, -1));
    u.scale_assign(7);
    assert_eq!(u, Vector::new(0, -7, -7));
}

#[test]
fn vector_cross_is_normal_to_both() {
    let u = Vector::new(3, -2, 4);
    let v = Vector::new(-4, 5, 1);
    let c = u.cross(&v);
    assert_eq!(c, Vector::new(-22, -19, 7));
    assert!(c.is_normal_to(&u));
    assert!(c.is_normal_to(&v));
    assert!(c.is_cross_of(&u, &v));
    assert!(!c.is_cross_of(&v, &u));
}

#[test]
fn vector_dot_of_extreme_coordinates_does_not_wrap() {
    let u = Vector::new(i32::MIN, i32::MIN, i32::MIN);
    let expected: i128 = 3 * (1i128 << 62);
    assert_eq!(u.dot(&u), expected);
    assert_eq!(u.square_length(), expected);
    assert!(!u.is_normalized());
}

#[test]
fn vector_quad_ends_with_zero() {
    assert_eq!(Vector::new(7, 8, 9).get_quad(), [7, 8, 9, 0]);
}
