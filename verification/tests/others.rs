use vecmath::{Quaternion, Rectangle, Zero, RGB, RGBA, XY, YPB};

#[test]
fn quaternion_is_a_plain_value() {
    let q = Quaternion::new(1i32, 2, 3, 4);
    assert_eq!(q.r, 1);
    assert_eq!(q.i, 2);
    assert_eq!(q.j, 3);
    assert_eq!(q.k, 4);
    assert!(q == Quaternion::new(1, 2, 3, 4));
    assert!(q != Quaternion::new(1, 2, 3, 5));
    assert!(q != Quaternion::new(0, 2, 3, 4));
    assert!(Quaternion::<i32>::zero() == Quaternion::new(0, 0, 0, 0));
    assert!(Quaternion::<u8>::zero() == Quaternion::new(0, 0, 0, 0));
    assert!(q.clone() == q);
}

#[test]
fn quaternion_new_takes_any_type() {
    let q = Quaternion::new("a", "b", "c", "d");
    assert_eq!(q.k, "d");
    let f = Quaternion::new(1.0f64, 0.5, 0.25, 0.125);
    assert_eq!(f.j, 0.25);
}

#[test]
fn rectangle_is_origin_and_size() {
    let r = Rectangle::new(XY::new(1i32, 2), XY::new(30i32, 40));
    assert!(r.o == XY::new(1, 2));
    assert!(r.s == XY::new(30, 40));
    assert!(r == Rectangle::new(XY::new(1, 2), XY::new(30, 40)));
    assert!(r != Rectangle::new(XY::new(1, 2), XY::new(30, 41)));
    assert!(r != Rectangle::new(XY::new(0, 2), XY::new(30, 40)));
    let negative = Rectangle::new(XY::new(0i32, 0), XY::new(-5i32, -6));
    assert!(negative.s == XY::new(-5, -6));
    let u = Rectangle::new(XY::new(1u16, 2), XY::new(3u16, 4));
    assert!(u == Rectangle::new(XY::new(1, 2), XY::new(3, 4)));
}

#[test]
fn ypb_is_a_vector_space() {
    let a = YPB::new(10i32, -20, 30);
    let b = YPB::new(1i32, 2, 3);
    assert_eq!(a.y, 10);
    assert_eq!(a.p, -20);
    assert_eq!(a.b, 30);
    assert!(a + b == YPB::new(11, -18, 33));
    assert!(a - b == YPB::new(9, -22, 27));
    assert!((a + b) - b == a);
    assert!(-a == YPB::new(-10, 20, -30));
    assert!(a * 2 == YPB::new(20, -40, 60));
    assert!(a.rmul(2) == YPB::new(20, -40, 60));
    assert!(a * 1 == a);
    assert!(a * 0 == YPB::zero());
    assert!(a / 3 == YPB::new(3, -6, 10));
    let mut c = a;
    c += b;
    c -= a;
    c *= 6;
    c /= 4;
    assert!(c == YPB::new(1, 3, 4));
}

#[test]
fn rgb_multiplies_channel_by_channel() {
    assert!(RGB::new(4i32, 2, 0) * RGB::new(2i32, 2, 2) == RGB::new(8, 4, 0));
    assert!(RGB::new(200u8, 100, 0) * RGB::new(1u8, 2, 3) == RGB::new(200, 200, 0));
    let mut c = RGB::new(3i32, -4, 5);
    c *= RGB::new(-1i32, 2, 0);
    assert!(c == RGB::new(-3, -8, 0));
}

#[test]
fn rgb_is_a_vector_space() {
    let a = RGB::new(10i32, 20, 30);
    let b = RGB::new(1i32, 2, 3);
    assert!(a + b == RGB::new(11, 22, 33));
    assert!(a - b == RGB::new(9, 18, 27));
    assert!((a + b) - b == a);
    assert!(-a == RGB::new(-10, -20, -30));
    assert!(a * 2 == RGB::new(20, 40, 60));
    assert!(a.rmul(2) == RGB::new(20, 40, 60));
    assert!(a * 1 == a);
    assert!(a * 0 == RGB::zero());
    assert!(a / 4 == RGB::new(2, 5, 7));
    assert!(a / 0 == a);
    let mut c = a;
    c += b;
    c -= a;
    c *= 10;
    c /= 0;
    c /= 5;
    assert!(c == RGB::new(2, 4, 6));
}

#[test]
fn rgba_is_a_vector_space() {
    let a = RGBA::new(10i32, 20, 30, 255);
    let b = RGBA::new(1i32, 2, 3, 0);
    assert_eq!(a.a, 255);
    assert!(a + b == RGBA::new(11, 22, 33, 255));
    assert!(a - b == RGBA::new(9, 18, 27, 255));
    assert!((a + b) - b == a);
    assert!(-a == RGBA::new(-10, -20, -30, -255));
    assert!(a * 2 == RGBA::new(20, 40, 60, 510));
    assert!(a.rmul(2) == RGBA::new(20, 40, 60, 510));
    assert!(a * 1 == a);
    assert!(a * 0 == RGBA::zero());
    assert!(a * b == RGBA::new(10, 40, 90, 0));
    assert!(a / 4 == RGBA::new(2, 5, 7, 63));
    assert!(a / 0 == a);
    let mut c = a;
    c += b;
    c -= a;
    c *= 10;
    c *= RGBA::new(1i32, 1, 2, 9);
    c /= 0;
    c /= 5;
    assert!(c == RGBA::new(2, 4, 12, 0));
}
