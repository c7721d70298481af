use std::ops::{DivAssign, MulAssign};
use vecmath::{Mat2x2, Mat3x3, Mat4x4, One, Zero, XY, XYZ, XYZW};

fn m3(rows: [[i64; 3]; 3]) -> Mat3x3<i64> {
    Mat3x3::new(
        XYZ::new(rows[0][0], rows[1][0], rows[2][0]),
        XYZ::new(rows[0][1], rows[1][1], rows[2][1]),
        XYZ::new(rows[0][2], rows[1][2], rows[2][2]),
    )
}

fn m4(rows: [[i64; 4]; 4]) -> Mat4x4<i64> {
    Mat4x4::new(
        XYZW::new(rows[0][0], rows[1][0], rows[2][0], rows[3][0]),
        XYZW::new(rows[0][1], rows[1][1], rows[2][1], rows[3][1]),
        XYZW::new(rows[0][2], rows[1][2], rows[2][2], rows[3][2]),
        XYZW::new(rows[0][3], rows[1][3], rows[2][3], rows[3][3]),
    )
}

#[test]
fn mat2_columns_and_identity() {
    let m = Mat2x2::new(&XY::new(1i32, 2), &XY::new(3i32, 4));
    assert!(m.x == XY::new(1, 2));
    assert!(m.y == XY::new(3, 4));
    let one = Mat2x2::<i32>::one();
    assert!(one == Mat2x2::new(&XY::new(1, 0), &XY::new(0, 1)));
    assert!(Mat2x2::<i32>::zero() == Mat2x2::new(&XY::new(0, 0), &XY::new(0, 0)));
    assert!(one * one == one);
    assert!(one * m == m);
    assert!(m * one == m);
    assert!(one * XY::new(7, -8) == XY::new(7, -8));
}

#[test]
fn mat2_times_vector_combines_columns() {
    let m = Mat2x2::new(&XY::new(1i32, 2), &XY::new(3i32, 4));
    assert!(m * XY::new(1, 0) == XY::new(1, 2));
    assert!(m * XY::new(0, 1) == XY::new(3, 4));
    assert!(m * XY::new(5, -6) == XY::new(-13, -14));
}

#[test]
fn mat2_product_and_arithmetic() {
    let a = Mat2x2::new(&XY::new(1i32, 2), &XY::new(3i32, 4));
    let b = Mat2x2::new(&XY::new(0i32, 1), &XY::new(-1i32, 0));
    assert!(a * b == Mat2x2::new(&XY::new(3, 4), &XY::new(-1, -2)));
    assert!(b * a == Mat2x2::new(&XY::new(-2, 1), &XY::new(-4, 3)));
    assert!(a + b == Mat2x2::new(&XY::new(1, 3), &XY::new(2, 4)));
    assert!(a - b == Mat2x2::new(&XY::new(1, 1), &XY::new(4, 4)));
    assert!((a + b) - b == a);
    assert!(-a == Mat2x2::new(&XY::new(-1, -2), &XY::new(-3, -4)));
    assert!(a * 3 == Mat2x2::new(&XY::new(3, 6), &XY::new(9, 12)));
    assert!(a * 1 == a);
    assert!(a * 0 == Mat2x2::zero());
    assert!(a / 2 == Mat2x2::new(&XY::new(0, 1), &XY::new(1, 2)));
    assert!(a / 0 == a);
    let mut c = a;
    c += b;
    c -= a;
    assert!(c == b);
    c *= 4;
    assert!(c == Mat2x2::new(&XY::new(0, 4), &XY::new(-4, 0)));
    c /= 0;
    assert!(c == Mat2x2::new(&XY::new(0, 4), &XY::new(-4, 0)));
    c /= 4;
    assert!(c == b);
    c *= a;
    assert!(c == b * a);
}

#[test]
fn mat3_identity_and_zero_determinants() {
    assert_eq!(Mat3x3::<i32>::one().det(), 1);
    assert_eq!(Mat3x3::<i32>::zero().det(), 0);
    assert!(Mat3x3::<i32>::zero().inverse() == Mat3x3::one());
    assert!(Mat3x3::<i32>::one().inverse() == Mat3x3::one());
}

#[test]
fn mat3_determinant() {
    assert_eq!(m3([[2, -1, 3], [0, 4, 1], [5, 2, -2]]).det(), -85);
    assert_eq!(m3([[1, 2, 3], [0, 1, 4], [5, 6, 0]]).det(), 1);
    assert_eq!(m3([[1, 2, 3], [4, 5, 6], [7, 8, 9]]).det(), 0);
    assert_eq!(m3([[0, 1, 0], [1, 0, 0], [0, 0, 1]]).det(), -1);
    assert_eq!(m3([[2, 0, 0], [0, 3, 0], [0, 0, 4]]).det(), 24);
    assert_eq!(m3([[2, -1, 3], [0, 4, 1], [5, 2, -2]]).transpose().det(), -85);
}

#[test]
fn mat3_inverse_of_unimodular_is_exact() {
    let m = m3([[1, 2, 3], [0, 1, 4], [5, 6, 0]]);
    let inv = m.inverse();
    assert!(inv == m3([[-24, 18, 5], [20, -15, -4], [-5, 4, 1]]));
    assert!(m * inv == Mat3x3::one());
    assert!(inv * m == Mat3x3::one());
}

#[test]
fn mat3_inverse_rounds_toward_zero() {
    let m = m3([[2, 0, 0], [0, 1, 0], [0, 0, 1]]);
    assert!(m.inverse() == m3([[0, 0, 0], [0, 1, 0], [0, 0, 1]]));
    let n = m3([[2, -1, 3], [0, 4, 1], [5, 2, -2]]);
    assert!(n.inverse() == Mat3x3::zero());
    let k = m3([[1, 0, 0], [0, -1, 0], [0, 0, 1]]);
    assert!(k.inverse() == k);
}

#[test]
fn mat3_inverse_of_singular_is_identity() {
    assert!(m3([[1, 2, 3], [4, 5, 6], [7, 8, 9]]).inverse() == Mat3x3::one());
    assert!(m3([[1, 1, 1], [1, 1, 1], [1, 1, 1]]).inverse() == Mat3x3::one());
}

#[test]
fn mat3_transpose() {
    let m = m3([[1, 2, 3], [4, 5, 6], [7, 8, 9]]);
    assert!(m.transpose() == m3([[1, 4, 7], [2, 5, 8], [3, 6, 9]]));
    assert!(m.transpose().transpose() == m);
    assert!(m.x == XYZ::new(1, 4, 7));
    assert!(m.transpose().x == XYZ::new(1, 2, 3));
}

#[test]
fn mat3_times_vector_and_matrix() {
    let m = m3([[1, 2, 3], [4, 5, 6], [7, 8, 9]]);
    assert!(m * XYZ::new(1, 0, 0) == XYZ::new(1, 4, 7));
    assert!(m * XYZ::new(1, -1, 2) == XYZ::new(5, 11, 17));
    let one = Mat3x3::<i64>::one();
    assert!(one * XYZ::new(3, -4, 5) == XYZ::new(3, -4, 5));
    assert!(one * one == one);
    assert!(one * m == m);
    assert!(m * one == m);
    let n = m3([[0, 1, 0], [0, 0, 1], [1, 0, 0]]);
    assert!(m * n == m3([[3, 1, 2], [6, 4, 5], [9, 7, 8]]));
    assert!(n * m == m3([[4, 5, 6], [7, 8, 9], [1, 2, 3]]));
    let mut p = m;
    p *= n;
    assert!(p == m * n);
    p.mul_assign(one);
    assert!(p == m * n);
}

#[test]
fn mat3_componentwise() {
    let a = m3([[1, 2, 3], [4, 5, 6], [7, 8, 9]]);
    let b = m3([[9, 8, 7], [6, 5, 4], [3, 2, 1]]);
    assert!(a + b == m3([[10, 10, 10], [10, 10, 10], [10, 10, 10]]));
    assert!(a - b == m3([[-8, -6, -4], [-2, 0, 2], [4, 6, 8]]));
    assert!((a + b) - b == a);
    assert!(-a == m3([[-1, -2, -3], [-4, -5, -6], [-7, -8, -9]]));
    assert!(a * 2 == m3([[2, 4, 6], [8, 10, 12], [14, 16, 18]]));
    assert!(a * 1 == a);
    assert!(a * 0 == Mat3x3::zero());
    assert!(a / 3 == m3([[0, 0, 1], [1, 1, 2], [2, 2, 3]]));
    assert!(a / 0 == a);
    let mut c = a;
    c += b;
    c -= b;
    c *= 3;
    c /= 0;
    c /= 3;
    assert!(c == a);
    c.div_assign(-1);
    assert!(c == -a);
}

#[test]
fn mat3_scale_is_diagonal() {
    let s = Mat3x3::scale(XYZ::new(2i32, 3, 4));
    assert!(s == Mat3x3::new(XYZ::new(2, 0, 0), XYZ::new(0, 3, 0), XYZ::new(0, 0, 4)));
    assert!(s * XYZ::new(1, 1, 1) == XYZ::new(2, 3, 4));
    assert_eq!(s.det(), 24);
}

#[test]
fn mat3_rotate_of_zero_quaternion_is_identity() {
    assert!(Mat3x3::rotate(0i32, 0, 0, 0) == Mat3x3::one());
}

#[test]
fn mat3_rotate_half_and_quarter_turns() {
    // length one: the scale is two
    let half = Mat3x3::rotate(1i32, 0, 0, 0);
    assert!(half == Mat3x3::new(XYZ::new(1, 0, 0), XYZ::new(0, -1, 0), XYZ::new(0, 0, -1)));
    assert!(Mat3x3::rotate(0i32, 0, 0, 1) == Mat3x3::one());
    assert!(Mat3x3::rotate(0i32, 0, 0, -1) == Mat3x3::one());
    // squared length two: the scale is one
    let quarter = Mat3x3::rotate(1i32, 0, 0, 1);
    assert!(quarter == Mat3x3::new(XYZ::new(1, 0, 0), XYZ::new(0, 0, -1), XYZ::new(0, 1, 0)));
    assert_eq!(quarter.det(), 1);
    assert!(quarter * quarter == half);
    let about_z = Mat3x3::rotate(0i32, 0, 1, 1);
    assert!(about_z == Mat3x3::new(XYZ::new(0, -1, 0), XYZ::new(1, 0, 0), XYZ::new(0, 0, 1)));
    // squared length over two: the scale rounds to zero
    assert!(Mat3x3::rotate(1i32, 1, 1, 1) == Mat3x3::one());
    assert!(Mat3x3::rotate(2i32, 0, 0, 0) == Mat3x3::one());
}

#[test]
fn mat3_axis_rotations_from_sine_and_cosine() {
    assert!(Mat3x3::pitch(0i32, 1) == Mat3x3::one());
    assert!(Mat3x3::yaw(0i32, 1) == Mat3x3::one());
    assert!(Mat3x3::roll(0i32, 1) == Mat3x3::one());
    let p = Mat3x3::pitch(1i32, 0);
    assert!(p == Mat3x3::new(XYZ::new(1, 0, 0), XYZ::new(0, 0, 1), XYZ::new(0, -1, 0)));
    let y = Mat3x3::yaw(1i32, 0);
    assert!(y == Mat3x3::new(XYZ::new(0, 0, -1), XYZ::new(0, 1, 0), XYZ::new(1, 0, 0)));
    let r = Mat3x3::roll(1i32, 0);
    assert!(r == Mat3x3::new(XYZ::new(0, 1, 0), XYZ::new(-1, 0, 0), XYZ::new(0, 0, 1)));
    assert!(r * XYZ::new(1, 0, 0) == XYZ::new(0, 1, 0));
    assert!(p * XYZ::new(0, 1, 0) == XYZ::new(0, 0, 1));
    assert!(y * XYZ::new(0, 0, 1) == XYZ::new(1, 0, 0));
    assert_eq!(p.det(), 1);
    assert!(Mat3x3::pitch(3i32, 4).y == XYZ::new(0, 4, 3));
    assert!(Mat3x3::pitch(3i32, 4).z == XYZ::new(0, -3, 4));
}

#[test]
fn mat3_normal_from_inverts_and_transposes() {
    let m = m4([[1, 2, 3, 10], [0, 1, 4, 20], [5, 6, 0, 30], [0, 0, 0, 1]]);
    let n = Mat3x3::normal_from(m);
    assert!(n == m3([[-24, 20, -5], [18, -15, 4], [5, -4, 1]]));
    assert!(Mat3x3::normal_from(Mat4x4::<i64>::one()) == Mat3x3::one());
    assert!(Mat3x3::normal_from(Mat4x4::<i64>::zero()) == Mat3x3::one());
}

#[test]
fn mat4_identity_and_zero_determinants() {
    assert_eq!(Mat4x4::<i32>::one().det(), 1);
    assert_eq!(Mat4x4::<i32>::zero().det(), 0);
    assert!(Mat4x4::<i32>::zero().inverse() == Mat4x4::one());
    assert!(Mat4x4::<i32>::one().inverse() == Mat4x4::one());
}

#[test]
fn mat4_determinant() {
    assert_eq!(m4([[3, 1, -2, 4], [0, 2, 5, -1], [1, -3, 2, 2], [4, 0, 1, -2]]).det(), -486);
    assert_eq!(m4([[1, 2, 0, 1], [0, 1, 3, 0], [2, 0, 1, 1], [1, 1, 0, 1]]).det(), 3);
    assert_eq!(m4([[1, 1, 0, 0], [0, 1, 1, 0], [0, 0, 1, 1], [0, 0, 0, 1]]).det(), 1);
    assert_eq!(m4([[2, 0, 0, 0], [0, 3, 0, 0], [0, 0, 5, 0], [0, 0, 0, 7]]).det(), 210);
    assert_eq!(m4([[0, 1, 0, 0], [1, 0, 0, 0], [0, 0, 1, 0], [0, 0, 0, 1]]).det(), -1);
    assert_eq!(m4([[1, 2, 3, 4], [5, 6, 7, 8], [9, 10, 11, 12], [13, 14, 15, 16]]).det(), 0);
}

#[test]
fn mat4_inverse_of_unimodular_is_exact() {
    let m = m4([[1, 1, 0, 0], [0, 1, 1, 0], [0, 0, 1, 1], [0, 0, 0, 1]]);
    let inv = m.inverse();
    assert!(inv == m4([[1, -1, 1, -1], [0, 1, -1, 1], [0, 0, 1, -1], [0, 0, 0, 1]]));
    assert!(m * inv == Mat4x4::one());
    assert!(inv * m == Mat4x4::one());
    let swap = m4([[0, 1, 0, 0], [1, 0, 0, 0], [0, 0, 0, 1], [0, 0, 1, 0]]);
    assert!(swap.inverse() == swap);
}

#[test]
fn mat4_inverse_rounds_toward_zero() {
    let m = m4([[1, 2, 0, 1], [0, 1, 3, 0], [2, 0, 1, 1], [1, 1, 0, 1]]);
    assert!(m.inverse() == m4([[1, 0, 1, -2], [1, 0, 0, -1], [0, 0, 0, 0], [-2, 0, -1, 4]]));
    let n = m4([[3, 1, -2, 4], [0, 2, 5, -1], [1, -3, 2, 2], [4, 0, 1, -2]]);
    assert!(n.inverse() == Mat4x4::zero());
}

#[test]
fn mat4_inverse_of_singular_is_identity() {
    let m = m4([[1, 2, 3, 4], [5, 6, 7, 8], [9, 10, 11, 12], [13, 14, 15, 16]]);
    assert!(m.inverse() == Mat4x4::one());
}

#[test]
fn mat4_transpose() {
    let m = m4([[1, 2, 3, 4], [5, 6, 7, 8], [9, 10, 11, 12], [13, 14, 15, 16]]);
    assert!(m.transpose() == m4([[1, 5, 9, 13], [2, 6, 10, 14], [3, 7, 11, 15], [4, 8, 12, 16]]));
    assert!(m.transpose().transpose() == m);
    assert!(m.w == XYZW::new(4, 8, 12, 16));
}

#[test]
fn mat4_times_vector_and_matrix() {
    let m = m4([[1, 2, 3, 4], [5, 6, 7, 8], [9, 10, 11, 12], [13, 14, 15, 16]]);
    assert!(m * XYZW::new(0, 0, 1, 0) == XYZW::new(3, 7, 11, 15));
    assert!(m * XYZW::new(1, -1, 1, -1) == XYZW::new(-2, -2, -2, -2));
    let one = Mat4x4::<i64>::one();
    assert!(one * XYZW::new(1, 2, 3, 4) == XYZW::new(1, 2, 3, 4));
    assert!(one * one == one);
    assert!(one * m == m);
    assert!(m * one == m);
    let n = m4([[0, 0, 0, 1], [1, 0, 0, 0], [0, 1, 0, 0], [0, 0, 1, 0]]);
    assert!(m * n == m4([[2, 3, 4, 1], [6, 7, 8, 5], [10, 11, 12, 9], [14, 15, 16, 13]]));
    let mut p = m;
    p *= n;
    assert!(p == m * n);
}

#[test]
fn mat4_componentwise() {
    let a = m4([[1, 2, 3, 4], [5, 6, 7, 8], [9, 10, 11, 12], [13, 14, 15, 16]]);
    let b = Mat4x4::<i64>::one();
    assert!(a + b == m4([[2, 2, 3, 4], [5, 7, 7, 8], [9, 10, 12, 12], [13, 14, 15, 17]]));
    assert!((a + b) - b == a);
    assert!(a - a == Mat4x4::zero());
    assert!(-b == m4([[-1, 0, 0, 0], [0, -1, 0, 0], [0, 0, -1, 0], [0, 0, 0, -1]]));
    assert!(a * 1 == a);
    assert!(a * 0 == Mat4x4::zero());
    assert!(b * 5 == m4([[5, 0, 0, 0], [0, 5, 0, 0], [0, 0, 5, 0], [0, 0, 0, 5]]));
    assert!(a / 5 == m4([[0, 0, 0, 0], [1, 1, 1, 1], [1, 2, 2, 2], [2, 2, 3, 3]]));
    assert!(a / 0 == a);
    let mut c = a;
    c += b;
    c -= b;
    c *= 2;
    c /= 0;
    c /= 2;
    assert!(c == a);
}

#[test]
fn mat4_translate_and_scale() {
    let t = Mat4x4::translate(XYZ::new(5i64, 6, 7));
    assert!(t == m4([[1, 0, 0, 5], [0, 1, 0, 6], [0, 0, 1, 7], [0, 0, 0, 1]]));
    assert!(t * XYZW::new(1, 2, 3, 1) == XYZW::new(6, 8, 10, 1));
    assert!(t * XYZW::new(1, 2, 3, 0) == XYZW::new(1, 2, 3, 0));
    assert!(t.inverse() == Mat4x4::translate(XYZ::new(-5, -6, -7)));
    let s = Mat4x4::scale(XYZ::new(2i64, 3, 4));
    assert!(s == m4([[2, 0, 0, 0], [0, 3, 0, 0], [0, 0, 4, 0], [0, 0, 0, 1]]));
    assert_eq!(s.det(), 24);
}

#[test]
fn mat4_rotations_extend_the_three_by_three() {
    assert!(Mat4x4::rotate(0i64, 0, 0, 0) == Mat4x4::one());
    assert!(Mat4x4::rotate(1i64, 0, 0, 1) == m4([[1, 0, 0, 0], [0, 0, 1, 0], [0, -1, 0, 0], [0, 0, 0, 1]]));
    assert!(Mat4x4::pitch(1i64, 0) == m4([[1, 0, 0, 0], [0, 0, -1, 0], [0, 1, 0, 0], [0, 0, 0, 1]]));
    assert!(Mat4x4::yaw(1i64, 0) == m4([[0, 0, 1, 0], [0, 1, 0, 0], [-1, 0, 0, 0], [0, 0, 0, 1]]));
    assert!(Mat4x4::roll(1i64, 0) == m4([[0, -1, 0, 0], [1, 0, 0, 0], [0, 0, 1, 0], [0, 0, 0, 1]]));
    assert!(Mat4x4::affine(Mat3x3::<i64>::one()) == Mat4x4::one());
}

#[test]
fn mat4_ortho() {
    let m = Mat4x4::ortho(-1i64, 1, -1, 1, -1, 1);
    assert!(m == m4([[1, 0, 0, 0], [0, 1, 0, 0], [0, 0, -1, 0], [0, 0, 0, 1]]));
    let n = Mat4x4::ortho(0i64, 2, 0, 1, 1, 3);
    assert!(n == m4([[1, 0, 0, -1], [0, 2, 0, -1], [0, 0, -1, -2], [0, 0, 0, 1]]));
    let k = Mat4x4::ortho(0i64, 4, 4, 0, 0, -1);
    assert!(k == m4([[0, 0, 0, -1], [0, 0, 0, 1], [0, 0, 2, -1], [0, 0, 0, 1]]));
}

#[test]
fn mat4_perspective() {
    let m = Mat4x4::perspective(4i64, 2, 1, 3);
    assert!(m == m4([[2, 0, 0, 0], [0, 4, 0, 0], [0, 0, -2, -3], [0, 0, -1, 0]]));
    let n = Mat4x4::perspective(1i64, 1, 2, 12);
    assert!(n == m4([[1, 0, 0, 0], [0, 1, 0, 0], [0, 0, -1, -4], [0, 0, -1, 0]]));
}
