use std::ops::{AddAssign, DivAssign, MulAssign, SubAssign};
use vecmath::{Zero, XY, XYZ, XYZW};

#[test]
fn xy_new_and_equality() {
    let v = XY::new(3i32, 4);
    assert_eq!(v.x, 3);
    assert_eq!(v.y, 4);
    assert!(v == XY::new(3, 4));
    assert!(v != XY::new(3, 5));
    assert!(v != XY::new(2, 4));
}

#[test]
fn xy_add_then_sub_gives_back() {
    let a = XY::new(7i64, -9);
    let b = XY::new(-20i64, 31);
    assert!(a + b == XY::new(-13, 22));
    assert!((a + b) - b == a);
    let mut c = a;
    c += b;
    assert!(c == XY::new(-13, 22));
    c -= b;
    assert!(c == a);
    let mut d = a;
    d.add_assign(b);
    d.sub_assign(a);
    assert!(d == b);
}

#[test]
fn xy_unsigned() {
    let a = XY::new(200u8, 3);
    let b = XY::new(55u8, 2);
    assert!(a + b == XY::new(255, 5));
    assert!(a - b == XY::new(145, 1));
    assert!(b * 2 == XY::new(110, 4));
    assert!(a / 7 == XY::new(28, 0));
    assert!(XY::<u8>::zero() == XY::new(0, 0));
    assert!(XY::<usize>::zero() == XY::new(0, 0));
}

#[test]
fn xy_scale_by_one_and_zero() {
    let v = XY::new(-6i16, 11);
    assert!(v * 1 == v);
    assert!(v * 0 == XY::zero());
    assert!(v * -3 == XY::new(18, -33));
    assert!(v.rmul(-3) == XY::new(18, -33));
    let mut w = v;
    w *= 5;
    assert!(w == XY::new(-30, 55));
    w.mul_assign(0);
    assert!(w == XY::zero());
}

#[test]
fn xy_divide_and_negate() {
    let v = XY::new(3i32, 4);
    assert!(v / 2 == XY::new(1, 2));
    assert!(XY::new(-7i32, 7) / 2 == XY::new(-3, 3));
    assert!(XY::new(-7i32, 7) / -2 == XY::new(3, -3));
    let mut w = XY::new(9i32, -10);
    w /= 3;
    assert!(w == XY::new(3, -3));
    w.div_assign(-1);
    assert!(w == XY::new(-3, 3));
    assert!(-v == XY::new(-3, -4));
    assert!(-(-v) == v);
}

#[test]
fn xyz_divided_by_zero_is_unchanged() {
    let v = XYZ::new(3i32, 4, 5);
    assert!(v / 0 == XYZ::new(3, 4, 5));
    let mut w = v;
    w /= 0;
    assert!(w == XYZ::new(3, 4, 5));
    w.div_assign(0);
    assert!(w == v);
}

#[test]
fn xyz_arithmetic() {
    let a = XYZ::new(1i32, -2, 3);
    let b = XYZ::new(4i32, 5, -6);
    assert!(a + b == XYZ::new(5, 3, -3));
    assert!(a - b == XYZ::new(-3, -7, 9));
    assert!((a + b) - b == a);
    assert!(-a == XYZ::new(-1, 2, -3));
    assert!(a * 4 == XYZ::new(4, -8, 12));
    assert!(a.rmul(4) == XYZ::new(4, -8, 12));
    assert!(a * 1 == a);
    assert!(a * 0 == XYZ::zero());
    assert!(XYZ::new(9i32, -9, 10) / 4 == XYZ::new(2, -2, 2));
    let mut c = a;
    c += b;
    c -= a;
    c *= 2;
    c /= 4;
    assert!(c == XYZ::new(2, 2, -3));
}

#[test]
fn xyz_dot_is_the_sum_of_products() {
    let a = XYZ::new(1i32, -2, 3);
    let b = XYZ::new(4i32, 5, -6);
    assert_eq!(XYZ::dot(a, b), -24);
    assert_eq!(XYZ::dot(b, a), -24);
    assert_eq!(XYZ::dot(a, a), 14);
    assert_eq!(XYZ::dot(a, XYZ::zero()), 0);
}

#[test]
fn xyz_cross_changes_sign_with_order() {
    let a = XYZ::new(1i32, -2, 3);
    let b = XYZ::new(4i32, 5, -6);
    assert!(XYZ::cross(a, b) == XYZ::new(-3, 18, 13));
    assert!(XYZ::cross(b, a) == XYZ::new(3, -18, -13));
    assert!(XYZ::cross(a, b) == -XYZ::cross(b, a));
    assert!(XYZ::cross(a, a) == XYZ::zero());
    let x = XYZ::new(1i64, 0, 0);
    let y = XYZ::new(0i64, 1, 0);
    let z = XYZ::new(0i64, 0, 1);
    assert!(XYZ::cross(x, y) == z);
    assert!(XYZ::cross(y, z) == x);
    assert!(XYZ::cross(z, x) == y);
    assert_eq!(XYZ::dot(XYZ::cross(a, b), a), 0);
    assert_eq!(XYZ::dot(XYZ::cross(a, b), b), 0);
}

#[test]
fn xyz_norm_divides_by_the_length() {
    assert!(XYZ::new(0i32, 3, 4).norm(5) == XYZ::new(0, 0, 0));
    assert!(XYZ::new(0i32, -7, 0).norm(7) == XYZ::new(0, -1, 0));
    assert!(XYZ::new(6i32, 0, 0).norm(6) == XYZ::new(1, 0, 0));
    assert!(XYZ::<i32>::zero().norm(0) == XYZ::zero());
    assert!(XYZ::new(1i32, 2, 3).norm(0) == XYZ::new(1, 2, 3));
}

#[test]
fn xyzw_arithmetic() {
    let a = XYZW::new(1i32, -2, 3, -4);
    let b = XYZW::new(10i32, 20, 30, 40);
    assert!(a + b == XYZW::new(11, 18, 33, 36));
    assert!(a - b == XYZW::new(-9, -22, -27, -44));
    assert!((a + b) - b == a);
    assert!(-a == XYZW::new(-1, 2, -3, 4));
    assert!(a * 3 == XYZW::new(3, -6, 9, -12));
    assert!(a.rmul(3) == XYZW::new(3, -6, 9, -12));
    assert!(a * 1 == a);
    assert!(a * 0 == XYZW::zero());
    assert!(b / 7 == XYZW::new(1, 2, 4, 5));
    assert!(b / 0 == b);
    let mut c = b;
    c /= 0;
    assert!(c == b);
    c /= -10;
    assert!(c == XYZW::new(-1, -2, -3, -4));
    c += a;
    c -= b;
    c *= -1;
    assert!(c == XYZW::new(10, 24, 30, 48));
}

#[test]
fn vectors_are_copied_by_clone() {
    let a = XYZW::new(1u16, 2, 3, 4);
    let b = a.clone();
    assert!(a == b);
    let c = XY::new(1i8, 2).clone();
    assert!(c == XY::new(1, 2));
}
