use std::ops::{AddAssign, DivAssign, MulAssign, SubAssign};
use vecmath::{Complex, One, Zero};

#[test]
fn complex_new_and_identities() {
    let c = Complex::new(3i32, -4);
    assert_eq!(c.r, 3);
    assert_eq!(c.i, -4);
    assert!(Complex::<i32>::zero() == Complex::new(0, 0));
    assert!(Complex::<i32>::one() == Complex::new(1, 0));
    assert!(c != Complex::new(3, 4));
}

#[test]
fn complex_conjugate() {
    assert!(Complex::new(3i32, -4).conj() == Complex::new(3, 4));
    assert!(Complex::new(3i32, 0).conj() == Complex::new(3, 0));
    assert!(Complex::new(3i32, 4).conj().conj() == Complex::new(3, 4));
}

#[test]
fn complex_add_and_sub() {
    let a = Complex::new(1i32, 2);
    let b = Complex::new(3i32, 4);
    assert!(a + b == Complex::new(4, 6));
    assert!(a - b == Complex::new(-2, -2));
    assert!((a + b) - b == a);
    assert!(a + 5 == Complex::new(6, 2));
    assert!(a - 5 == Complex::new(-4, 2));
    assert!(a.radd(5) == Complex::new(6, 2));
    assert!(a.rsub(5) == Complex::new(4, -2));
    assert!(-a == Complex::new(-1, -2));
    let mut c = a;
    c += b;
    assert!(c == Complex::new(4, 6));
    c -= b;
    assert!(c == a);
    c += 10;
    assert!(c == Complex::new(11, 2));
    c -= 10;
    assert!(c == a);
    c.add_assign(b);
    c.sub_assign(a);
    assert!(c == b);
    c.sub_assign(3);
    assert!(c == Complex::new(0, 4));
    c.add_assign(3);
    assert!(c == b);
}

#[test]
fn complex_product() {
    let a = Complex::new(1i32, 2);
    let b = Complex::new(3i32, 4);
    assert!(a * b == Complex::new(-5, 10));
    assert!(b * a == Complex::new(-5, 10));
    assert!(Complex::new(0i32, 1) * Complex::new(0i32, 1) == Complex::new(-1, 0));
    assert!(a * Complex::one() == a);
    assert!(a * Complex::zero() == Complex::zero());
    assert!(a * 3 == Complex::new(3, 6));
    assert!(a.rmul(3) == Complex::new(3, 6));
    assert!(a * 1 == a);
    assert!(a * 0 == Complex::zero());
    let mut c = a;
    c *= b;
    assert!(c == Complex::new(-5, 10));
    c *= 2;
    assert!(c == Complex::new(-10, 20));
    c.mul_assign(Complex::new(0, 1));
    assert!(c == Complex::new(-20, -10));
}

#[test]
fn complex_conjugate_of_product() {
    let a = Complex::new(7i64, -3);
    let b = Complex::new(-2i64, 5);
    assert!((a * b).conj() == a.conj() * b.conj());
    assert!((a * b).conj() == Complex::new(1, -41));
    assert!(a * a.conj() == Complex::new(58, 0));
}

#[test]
fn complex_quotient() {
    let a = Complex::new(1i32, 2);
    let b = Complex::new(3i32, 4);
    assert!((a * b) / b == a);
    assert!((a * b) / a == b);
    assert!(Complex::new(-5i32, 10) / Complex::new(3i32, 4) == Complex::new(1, 2));
    assert!(Complex::new(1i32, 0) / Complex::new(0i32, 1) == Complex::new(0, -1));
    assert!(Complex::new(7i32, 9) / Complex::new(2i32, 0) == Complex::new(3, 4));
    assert!(Complex::new(-7i32, -9) / Complex::new(2i32, 0) == Complex::new(-3, -4));
    assert!(a / 2 == Complex::new(0, 1));
    assert!(Complex::new(-9i32, 9) / 4 == Complex::new(-2, 2));
}

#[test]
fn complex_divided_by_itself_is_one() {
    assert!(Complex::new(3i32, 4) / Complex::new(3i32, 4) == Complex::one());
    assert!(Complex::new(0i32, -7) / Complex::new(0i32, -7) == Complex::one());
    assert!(Complex::new(-5i32, 0) / Complex::new(-5i32, 0) == Complex::one());
    assert!(Complex::new(1i64, 1) / Complex::new(1i64, 1) == Complex::one());
}

#[test]
fn complex_division_by_zero_falls_back() {
    let a = Complex::new(5i32, -6);
    assert!(a / 0 == a);
    assert!(a / Complex::zero() == a);
    assert!(Complex::<i32>::zero().rdiv(9) == Complex::new(9, 0));
    let mut c = a;
    c /= 0;
    assert!(c == a);
    c /= Complex::zero();
    assert!(c == a);
    c.div_assign(Complex::new(1, 0));
    assert!(c == a);
    c /= Complex::new(0, 1);
    assert!(c == Complex::new(-6, -5));
    c /= -1;
    assert!(c == Complex::new(6, 5));
}

#[test]
fn complex_real_over_complex() {
    assert!(Complex::new(0i32, 1).rdiv(4) == Complex::new(0, -4));
    assert!(Complex::new(2i32, 0).rdiv(8) == Complex::new(4, 0));
    assert!(Complex::new(1i32, 1).rdiv(10) == Complex::new(5, -5));
    assert!(Complex::new(1i32, -1).rdiv(10) == Complex::new(5, 5));
    assert!(Complex::new(3i32, 4).rdiv(25) == Complex::new(3, -4));
    assert!(Complex::new(3i32, 4).rdiv(10) == Complex::new(1, -1));
}
