use vecmath::{MultiVec2, MultiVec3, MultiVec4, Zero};

fn mv4(c: [i64; 16]) -> MultiVec4<i64> {
    MultiVec4::new(
        c[0], c[1], c[2], c[3], c[4], c[5], c[6], c[7], c[8], c[9], c[10], c[11], c[12], c[13],
        c[14], c[15],
    )
}

fn e4(k: usize) -> MultiVec4<i64> {
    let mut c = [0i64; 16];
    c[k] = 1;
    mv4(c)
}

fn mv3(c: [i64; 8]) -> MultiVec3<i64> {
    MultiVec3::new(c[0], c[1], c[2], c[3], c[4], c[5], c[6], c[7])
}

fn e3(k: usize) -> MultiVec3<i64> {
    let mut c = [0i64; 8];
    c[k] = 1;
    mv3(c)
}

#[test]
fn multivec2_generators() {
    let one = MultiVec2::new(1i32, 0, 0, 0);
    let x = MultiVec2::new(0i32, 1, 0, 0);
    let y = MultiVec2::new(0i32, 0, 1, 0);
    let xy = MultiVec2::new(0i32, 0, 0, 1);
    assert!(x * x == one);
    assert!(y * y == one);
    assert!(x * y == xy);
    assert!(y * x == -xy);
    assert!(x * y == -(y * x));
    assert!(xy * xy == -one);
    assert!(x * xy == y);
    assert!(xy * x == -y);
    assert!(y * xy == -x);
    assert!(xy * y == x);
    assert!(one * x == x);
    assert!(xy * one == xy);
}

#[test]
fn multivec2_product() {
    let a = MultiVec2::new(0i32, -3, 1, 5);
    let b = MultiVec2::new(-5i32, -4, 3, -4);
    assert!(a * b == MultiVec2::new(35, 34, 27, -30));
    let mut c = a;
    c *= b;
    assert!(c == MultiVec2::new(35, 34, 27, -30));
    assert!(MultiVec2::new(2i32, 3, 0, 0) * MultiVec2::new(2i32, -3, 0, 0) == MultiVec2::new(-5, 0, 0, 0));
}

#[test]
fn multivec2_componentwise() {
    let a = MultiVec2::new(1i32, -2, 3, -4);
    let b = MultiVec2::new(10i32, 20, 30, 40);
    assert!(a + b == MultiVec2::new(11, 18, 33, 36));
    assert!(a - b == MultiVec2::new(-9, -22, -27, -44));
    assert!((a + b) - b == a);
    assert!(-a == MultiVec2::new(-1, 2, -3, 4));
    assert!(a * 2 == MultiVec2::new(2, -4, 6, -8));
    assert!(a.rmul(2) == MultiVec2::new(2, -4, 6, -8));
    assert!(a * 1 == a);
    assert!(a * 0 == MultiVec2::zero());
    assert!(b / 3 == MultiVec2::new(3, 6, 10, 13));
    assert!(b / 0 == b);
    let mut c = a;
    c += b;
    c -= a;
    c /= 0;
    c /= 10;
    c *= 3;
    assert!(c == MultiVec2::new(3, 6, 9, 12));
}

#[test]
fn multivec3_generators() {
    let one = e3(0);
    for g in 1..4 {
        assert!(e3(g) * e3(g) == one);
        for h in 1..4 {
            if g != h {
                assert!(e3(g) * e3(h) == -(e3(h) * e3(g)));
            }
        }
    }
    assert!(e3(1) * e3(2) == e3(4));
    assert!(e3(1) * e3(3) == e3(5));
    assert!(e3(2) * e3(3) == e3(6));
    assert!(e3(4) * e3(3) == e3(7));
    assert!(e3(1) * e3(6) == e3(7));
    assert!(e3(2) * e3(5) == -e3(7));
    assert!(e3(5) * e3(2) == -e3(7));
    assert!(e3(3) * e3(4) == e3(7));
    assert!(e3(7) * e3(7) == -one);
    assert!(e3(4) * e3(4) == -one);
}

#[test]
fn multivec3_product() {
    let a = mv3([0, 4, -5, 3, -2, -5, -4, 1]);
    let b = mv3([1, -4, -2, -4, 3, 1, -5, 4]);
    assert!(a * b == mv3([-31, 61, 11, 9, -51, 35, 21, 9]));
    let mut c = a;
    c *= b;
    assert!(c == mv3([-31, 61, 11, 9, -51, 35, 21, 9]));
    assert!(e3(0) * a == a);
    assert!(a * e3(0) == a);
}

#[test]
fn multivec3_product_is_associative_on_samples() {
    let a = mv3([1, 2, 0, -1, 3, 0, 1, 2]);
    let b = mv3([0, 1, -2, 1, 0, 2, -1, 1]);
    let c = mv3([2, 0, 1, 1, -1, 1, 0, -2]);
    assert!((a * b) * c == a * (b * c));
}

#[test]
fn multivec3_componentwise() {
    let a = mv3([1, -2, 3, -4, 5, -6, 7, -8]);
    let b = mv3([8, 7, 6, 5, 4, 3, 2, 1]);
    assert!(a + b == mv3([9, 5, 9, 1, 9, -3, 9, -7]));
    assert!(a - b == mv3([-7, -9, -3, -9, 1, -9, 5, -9]));
    assert!((a + b) - b == a);
    assert!(-a == mv3([-1, 2, -3, 4, -5, 6, -7, 8]));
    assert!(a * 3 == mv3([3, -6, 9, -12, 15, -18, 21, -24]));
    assert!(a.rmul(3) == a * 3);
    assert!(a * 1 == a);
    assert!(a * 0 == MultiVec3::zero());
    assert!(a / 2 == mv3([0, -1, 1, -2, 2, -3, 3, -4]));
    assert!(a / 0 == a);
    let mut c = a;
    c += b;
    c -= b;
    c *= 2;
    c /= 0;
    c /= 2;
    assert!(c == a);
}

#[test]
fn multivec4_generators() {
    let one = e4(0);
    for g in 1..5 {
        assert!(e4(g) * e4(g) == one);
        for h in 1..5 {
            if g != h {
                assert!(e4(g) * e4(h) == -(e4(h) * e4(g)));
            }
        }
    }
    // x y, x z, x w, y z, y w, z w
    assert!(e4(1) * e4(2) == e4(5));
    assert!(e4(1) * e4(3) == e4(6));
    assert!(e4(1) * e4(4) == e4(7));
    assert!(e4(2) * e4(3) == e4(8));
    assert!(e4(2) * e4(4) == e4(9));
    assert!(e4(3) * e4(4) == e4(10));
    // xy z, xy w, xz w, yz w, xyz w
    assert!(e4(5) * e4(3) == e4(11));
    assert!(e4(5) * e4(4) == e4(12));
    assert!(e4(6) * e4(4) == e4(13));
    assert!(e4(8) * e4(4) == e4(14));
    assert!(e4(11) * e4(4) == e4(15));
    assert!(e4(15) * e4(15) == one);
    assert!(e4(5) * e4(5) == -one);
    assert!(e4(11) * e4(11) == -one);
    assert!(e4(4) * e4(11) == -e4(15));
}

#[test]
fn multivec4_product() {
    let a = mv4([-4, -2, 5, 5, 4, -5, 4, 4, 1, -5, -2, -5, 3, -3, -1, 1]);
    let b = mv4([-3, 3, -4, 4, -1, 3, 5, -3, -4, 4, 4, 5, -2, 0, -4, 3]);
    let p = mv4([71, -36, 6, -7, 30, 0, -115, 21, 59, 72, 9, -60, 24, -1, -16, -65]);
    assert!(a * b == p);
    let mut c = a;
    c *= b;
    assert!(c == p);
    assert!(e4(0) * a == a);
    assert!(a * e4(0) == a);
}

#[test]
fn multivec4_product_is_associative_on_samples() {
    let a = mv4([1, 2, 0, -1, 3, 0, 1, 2, -1, 0, 1, 1, 0, -2, 1, 0]);
    let b = mv4([0, 1, -2, 1, 0, 2, -1, 1, 0, 1, 2, 0, -1, 1, 0, 1]);
    let c = mv4([2, 0, 1, 1, -1, 1, 0, -2, 1, 1, 0, -1, 2, 0, 1, 1]);
    assert!((a * b) * c == a * (b * c));
}

#[test]
fn multivec4_componentwise() {
    let a = mv4([1, -2, 3, -4, 5, -6, 7, -8, 9, -10, 11, -12, 13, -14, 15, -16]);
    let b = mv4([1; 16]);
    assert!(a + b == mv4([2, -1, 4, -3, 6, -5, 8, -7, 10, -9, 12, -11, 14, -13, 16, -15]));
    assert!((a + b) - b == a);
    assert!(a - a == MultiVec4::zero());
    assert!(-b == mv4([-1; 16]));
    assert!(b * 7 == mv4([7; 16]));
    assert!(b.rmul(7) == mv4([7; 16]));
    assert!(a * 1 == a);
    assert!(a * 0 == MultiVec4::zero());
    assert!(a / 4 == mv4([0, 0, 0, -1, 1, -1, 1, -2, 2, -2, 2, -3, 3, -3, 3, -4]));
    assert!(a / 0 == a);
    let mut c = a;
    c += b;
    c -= b;
    c *= 2;
    c /= 0;
    c /= 2;
    assert!(c == a);
}
