use vecmath::text::{push_decimal, push_signed};
use vecmath::{
    Complex, Mat2x2, Mat3x3, Mat4x4, MultiVec2, MultiVec3, MultiVec4, One, Quaternion, Rectangle,
    RGB, RGBA, XY, XYZ, XYZW, YPB,
};

fn decimal(v: i128) -> String {
    let mut out = Vec::new();
    push_decimal(&mut out, v);
    out.into_iter().collect()
}

fn signed(v: i128) -> String {
    let mut out = vec!['>'];
    push_signed(&mut out, v);
    out.into_iter().collect()
}

#[test]
fn decimal_text_of_integers() {
    assert_eq!(decimal(0), "0");
    assert_eq!(decimal(7), "7");
    assert_eq!(decimal(10), "10");
    assert_eq!(decimal(-1), "-1");
    assert_eq!(decimal(1234567890), "1234567890");
    assert_eq!(decimal(-9087), "-9087");
    assert_eq!(decimal(i128::MAX), i128::MAX.to_string());
    assert_eq!(decimal(i128::MIN), i128::MIN.to_string());
    assert_eq!(decimal(u64::MAX as i128), "18446744073709551615");
}

#[test]
fn signed_text_always_has_a_sign() {
    assert_eq!(signed(0), ">+0");
    assert_eq!(signed(15), ">+15");
    assert_eq!(signed(-15), ">-15");
}

#[test]
fn vectors_as_text() {
    assert_eq!(XY::new(3i32, -4).to_string(), "(3,-4)");
    assert_eq!(XY::new(0u8, 255).to_string(), "(0,255)");
    assert_eq!(XYZ::new(1i64, 20, -300).to_string(), "(1,20,-300)");
    assert_eq!(XYZW::new(i64::MIN, 0, 1, i64::MAX).to_string(), "(-9223372036854775808,0,1,9223372036854775807)");
    assert_eq!(XY::new(u64::MAX, 1).to_string(), "(18446744073709551615,1)");
    assert_eq!(YPB::new(90i16, -45, 0).to_string(), "(90,-45,0)");
    assert_eq!(RGB::new(255u8, 128, 0).to_string(), "(255,128,0)");
    assert_eq!(RGBA::new(1i32, 2, 3, 4).to_string(), "(1,2,3,4)");
}

#[test]
fn append_to_keeps_what_is_there() {
    let mut out = vec!['v', '='];
    XY::new(1i32, 2).append_to(&mut out);
    out.push(' ');
    Complex::new(0i32, -1).append_to(&mut out);
    let s: String = out.into_iter().collect();
    assert_eq!(s, "v=(1,2) 0-1i");
}

#[test]
fn rectangle_as_text() {
    let r = Rectangle::new(XY::new(1i32, 2), XY::new(30i32, 40));
    assert_eq!(r.to_string(), "(1,2; 30x40)");
    let n = Rectangle::new(XY::new(-1i32, -2), XY::new(-30i32, 0));
    assert_eq!(n.to_string(), "(-1,-2; -30x0)");
}

#[test]
fn matrices_as_text() {
    let m = Mat2x2::new(&XY::new(1i32, 2), &XY::new(3i32, 4));
    assert_eq!(m.to_string(), "((1,2); (3,4);)");
    assert_eq!(Mat3x3::<i32>::one().to_string(), "((1,0,0); (0,1,0); (0,0,1);)");
    assert_eq!(Mat4x4::<i8>::one().to_string(), "((1,0,0,0); (0,1,0,0); (0,0,1,0); (0,0,0,1);)");
    let t = Mat4x4::translate(XYZ::new(-5i32, 6, 7));
    assert_eq!(t.to_string(), "((1,0,0,0); (0,1,0,0); (0,0,1,0); (-5,6,7,1);)");
}

#[test]
fn complex_and_quaternion_as_text() {
    assert_eq!(Complex::new(3i32, 4).to_string(), "3+4i");
    assert_eq!(Complex::new(3i32, -4).to_string(), "3-4i");
    assert_eq!(Complex::new(-3i32, 0).to_string(), "-3+0i");
    assert_eq!(Quaternion::new(1i32, 2, 3, 4).to_string(), "1+2i+3j+4k");
    assert_eq!(Quaternion::new(-1i32, -2, 0, -4).to_string(), "-1-2i+0j-4k");
}

#[test]
fn multivectors_as_text() {
    assert_eq!(MultiVec2::new(1i32, 2, -3, 4).to_string(), "1+2x-3y+4xy");
    assert_eq!(MultiVec2::new(0u8, 0, 0, 0).to_string(), "0+0x+0y+0xy");
    assert_eq!(
        MultiVec3::new(1i32, -2, 3, -4, 5, -6, 7, -8).to_string(),
        "1-2x+3y-4z+5xy-6xz+7yz-8xyz"
    );
    assert_eq!(
        MultiVec4::new(1i32, -2, 3, -4, 5, -6, 7, -8, 9, -10, 11, -12, 13, -14, 15, -16).to_string(),
        "1-2x+3y-4z+5w-6xy+7xz-8xw+9yz-10yw+11zw-12xyz+13xyw-14xzw+15yzw-16xyzw"
    );
}
