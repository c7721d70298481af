//! Matrices of three rows and columns.

use vstd::prelude::*;
use core::ops::Neg;
use crate::expansion::{
    lemma_cancel, lemma_product3, lemma_product_assoc, lemma_square, lemma_sum3_scaled,
    lemma_sum3_times, lemma_times_minor2, lemma_times_sum3, lemma_two_over, minor2, sum3,
};
use crate::mat4x4::Mat4x4;
use crate::scalar::{
    Integer, One, Signed, Zero, in_range, lemma_truncated_product, one_of, truncated, zero_of,
};
use crate::text::string_of;
use crate::vector::XYZ;

verus! {

/// A square matrix of three rows, held as its three columns.
#[derive(Copy, Debug)]
pub struct Mat3x3<T> {
    pub x: XYZ<T>,
    pub y: XYZ<T>,
    pub z: XYZ<T>,
}

impl<T: Copy> Clone for Mat3x3<T> {
    fn clone(&self) -> (r: Self)
        ensures
            r == *self,
    {
        *self
    }
}

impl<T: Integer> View for Mat3x3<T> {
    type V = Mat3x3<int>;

    open spec fn view(&self) -> Mat3x3<int> {
        Mat3x3 { x: self.x@, y: self.y@, z: self.z@ }
    }
}

impl Mat3x3<int> {
    /// Whether every component is a value of `T`.
    pub open spec fn fits<T: Integer>(self) -> bool {
        &&& self.x.fits::<T>()
        &&& self.y.fits::<T>()
        &&& self.z.fits::<T>()
    }

    /// The matrix whose components are all zero.
    pub open spec fn zeros() -> Mat3x3<int> {
        Mat3x3 { x: XYZ::<int>::zeros(), y: XYZ::<int>::zeros(), z: XYZ::<int>::zeros() }
    }

    /// The component-wise sum.
    pub open spec fn plus(self, other: Mat3x3<int>) -> Mat3x3<int> {
        Mat3x3 { x: self.x.plus(other.x), y: self.y.plus(other.y), z: self.z.plus(other.z) }
    }

    /// The component-wise difference.
    pub open spec fn minus(self, other: Mat3x3<int>) -> Mat3x3<int> {
        Mat3x3 { x: self.x.minus(other.x), y: self.y.minus(other.y), z: self.z.minus(other.z) }
    }

    /// Every component negated.
    pub open spec fn negated(self) -> Mat3x3<int> {
        Mat3x3 { x: self.x.negated(), y: self.y.negated(), z: self.z.negated() }
    }

    /// Every component multiplied by `s`.
    pub open spec fn scaled(self, s: int) -> Mat3x3<int> {
        Mat3x3 { x: self.x.scaled(s), y: self.y.scaled(s), z: self.z.scaled(s) }
    }

    /// Every component divided by `d`, rounding toward zero.
    pub open spec fn over(self, d: int) -> Mat3x3<int> {
        Mat3x3 { x: self.x.over(d), y: self.y.over(d), z: self.z.over(d) }
    }

    /// Division that leaves the matrix as it is when the divisor is zero.
    pub open spec fn over_or_same(self, d: int) -> Mat3x3<int> {
        if d == 0 {
            self
        } else {
            self.over(d)
        }
    }

    /// The matrix as text.
    pub open spec fn text(self) -> Seq<char> {
        seq!['('] + self.x.text() + seq![';', ' '] + self.y.text() + seq![';', ' ']
            + self.z.text() + seq![';', ')']
    }

    /// The identity matrix.
    pub open spec fn identity() -> Mat3x3<int> {
        Mat3x3 {
            x: XYZ { x: 1, y: 0, z: 0 },
            y: XYZ { x: 0, y: 1, z: 0 },
            z: XYZ { x: 0, y: 0, z: 1 },
        }
    }

    /// The product with the column vector `v`: the sum of the columns, each
    /// scaled by the component of `v` of its name.
    pub open spec fn apply(self, v: XYZ<int>) -> XYZ<int> {
        self.x.scaled(v.x).plus(self.y.scaled(v.y)).plus(self.z.scaled(v.z))
    }

    /// Whether `T` holds every scaled column and every partial sum of
    /// `apply`, taken from the first column to the last.
    pub open spec fn apply_fits<T: Integer>(self, v: XYZ<int>) -> bool {
        &&& self.x.scaled(v.x).fits::<T>()
        &&& self.y.scaled(v.y).fits::<T>()
        &&& self.x.scaled(v.x).plus(self.y.scaled(v.y)).fits::<T>()
        &&& self.z.scaled(v.z).fits::<T>()
        &&& self.x.scaled(v.x).plus(self.y.scaled(v.y)).plus(self.z.scaled(v.z)).fits::<T>()
    }

    /// The matrix product: each column of `other` with `self` applied to it.
    pub open spec fn compose(self, other: Mat3x3<int>) -> Mat3x3<int> {
        Mat3x3 { x: self.apply(other.x), y: self.apply(other.y), z: self.apply(other.z) }
    }

    /// Whether `T` holds every step of `compose`.
    pub open spec fn compose_fits<T: Integer>(self, other: Mat3x3<int>) -> bool {
        &&& self.apply_fits::<T>(other.x)
        &&& self.apply_fits::<T>(other.y)
        &&& self.apply_fits::<T>(other.z)
    }

    /// The matrix with rows and columns exchanged.
    pub open spec fn transposed(self) -> Mat3x3<int> {
        Mat3x3 {
            x: XYZ { x: self.x.x, y: self.y.x, z: self.z.x },
            y: XYZ { x: self.x.y, y: self.y.y, z: self.z.y },
            z: XYZ { x: self.x.z, y: self.y.z, z: self.z.z },
        }
    }

    /// The determinant: the inner product of the first column with the cross
    /// product of the other two.
    pub open spec fn det(self) -> int {
        self.x.dot_product(self.y.cross_product(self.z))
    }

    /// Whether `T` holds every step of `det`.
    pub open spec fn det_fits<T: Integer>(self) -> bool {
        &&& self.y.cross_fits::<T>(self.z)
        &&& self.x.dot_fits::<T>(self.y.cross_product(self.z))
    }

    /// The adjugate, the transposed matrix of cofactors. Its rows are the
    /// cross products of the columns, taken in turn.
    pub open spec fn adjugate(self) -> Mat3x3<int> {
        Mat3x3 {
            x: self.y.cross_product(self.z),
            y: self.z.cross_product(self.x),
            z: self.x.cross_product(self.y),
        }.transposed()
    }

    /// The inverse as far as integers have one: the adjugate divided by the
    /// determinant, every entry rounded toward zero. Where the determinant is
    /// zero it is the identity matrix.
    pub open spec fn inverse(self) -> Mat3x3<int> {
        if self.det() == 0 {
            Mat3x3::<int>::identity()
        } else {
            self.adjugate().over(self.det())
        }
    }

    /// Whether `T` holds every step of `inverse`: the determinant first, and
    /// where that is not zero, the remaining cofactors and the quotients.
    pub open spec fn inverse_fits<T: Integer>(self) -> bool {
        &&& self.det_fits::<T>()
        &&& self.det() != 0 ==> {
            &&& self.z.cross_fits::<T>(self.x)
            &&& self.x.cross_fits::<T>(self.y)
            &&& self.adjugate().over(self.det()).fits::<T>()
        }
    }

    /// The matrix that scales the three axes by the components of `s`.
    pub open spec fn diagonal(s: XYZ<int>) -> Mat3x3<int> {
        Mat3x3 {
            x: XYZ { x: s.x, y: 0, z: 0 },
            y: XYZ { x: 0, y: s.y, z: 0 },
            z: XYZ { x: 0, y: 0, z: s.z },
        }
    }

    /// The rotation about the `x` axis by the angle of sine `sa` and cosine
    /// `ca`.
    pub open spec fn about_x(sa: int, ca: int) -> Mat3x3<int> {
        Mat3x3 {
            x: XYZ { x: 1, y: 0, z: 0 },
            y: XYZ { x: 0, y: ca, z: sa },
            z: XYZ { x: 0, y: -sa, z: ca },
        }
    }

    /// The rotation about the `y` axis by the angle of sine `sa` and cosine
    /// `ca`.
    pub open spec fn about_y(sa: int, ca: int) -> Mat3x3<int> {
        Mat3x3 {
            x: XYZ { x: ca, y: 0, z: -sa },
            y: XYZ { x: 0, y: 1, z: 0 },
            z: XYZ { x: sa, y: 0, z: ca },
        }
    }

    /// The rotation about the `z` axis by the angle of sine `sa` and cosine
    /// `ca`.
    pub open spec fn about_z(sa: int, ca: int) -> Mat3x3<int> {
        Mat3x3 {
            x: XYZ { x: ca, y: sa, z: 0 },
            y: XYZ { x: -sa, y: ca, z: 0 },
            z: XYZ { x: 0, y: 0, z: 1 },
        }
    }

    /// The factor by which `rotate` scales the products of the components of
    /// a quaternion of squared length `n`: two divided by `n`, or zero for
    /// the quaternion zero.
    pub open spec fn rotate_scale(n: int) -> int {
        if n == 0 {
            0
        } else {
            truncated(2, n)
        }
    }

    /// The rotation that belongs to the quaternion with the vector part
    /// `(r, i, j)` and the scalar part `k`. The quaternion need not have
    /// length one.
    pub open spec fn rotation(r: int, i: int, j: int, k: int) -> Mat3x3<int> {
        let s = Mat3x3::<int>::rotate_scale(r * r + i * i + j * j + k * k);
        let rr = r * r * s;
        let ii = i * i * s;
        let jj = j * j * s;
        let kr = s * k * r;
        let ki = s * k * i;
        let kj = s * k * j;
        let ri = s * r * i;
        let rj = s * r * j;
        let ij = s * i * j;
        Mat3x3 {
            x: XYZ { x: 1 - (ii + jj), y: ri - kj, z: rj + ki },
            y: XYZ { x: ri + kj, y: 1 - (rr + jj), z: ij - kr },
            z: XYZ { x: rj - ki, y: ij + kr, z: 1 - (rr + ii) },
        }
    }

    /// Whether `T` holds every step of `rotate`.
    pub open spec fn rotate_fits<T: Integer>(r: int, i: int, j: int, k: int) -> bool {
        let s = Mat3x3::<int>::rotate_scale(r * r + i * i + j * j + k * k);
        let rr = r * r * s;
        let ii = i * i * s;
        let jj = j * j * s;
        &&& in_range::<T>(2)
        &&& in_range::<T>(r * r)
        &&& in_range::<T>(i * i)
        &&& in_range::<T>(j * j)
        &&& in_range::<T>(k * k)
        &&& in_range::<T>(r * r + i * i)
        &&& in_range::<T>(r * r + i * i + j * j)
        &&& in_range::<T>(r * r + i * i + j * j + k * k)
        &&& in_range::<T>(s * k)
        &&& in_range::<T>(s * r)
        &&& in_range::<T>(s * i)
        &&& in_range::<T>(s * k * r)
        &&& in_range::<T>(s * k * i)
        &&& in_range::<T>(s * k * j)
        &&& in_range::<T>(s * r * i)
        &&& in_range::<T>(s * r * j)
        &&& in_range::<T>(s * i * j)
        &&& in_range::<T>(rr)
        &&& in_range::<T>(ii)
        &&& in_range::<T>(jj)
        &&& in_range::<T>(ii + jj)
        &&& in_range::<T>(rr + jj)
        &&& in_range::<T>(rr + ii)
        &&& Mat3x3::<int>::rotation(r, i, j, k).fits::<T>()
    }

    /// Adding `b` and then subtracting it again gives `a` back.
    pub proof fn lemma_plus_minus(a: Mat3x3<int>, b: Mat3x3<int>)
        ensures
            a.plus(b).minus(b) == a,
    {
    }

    /// Scaling by one changes nothing.
    pub proof fn lemma_scaled_one(a: Mat3x3<int>)
        ensures
            a.scaled(1) == a,
    {
    }

    /// Scaling by zero gives zero.
    pub proof fn lemma_scaled_zero(a: Mat3x3<int>)
        ensures
            a.scaled(0) == Mat3x3::<int>::zeros(),
    {
    }

    /// The identity matrix maps every vector to itself.
    pub proof fn lemma_identity_apply(v: XYZ<int>)
        ensures
            Mat3x3::<int>::identity().apply(v) == v,
    {
    }

    /// The identity matrix is neutral on both sides of the matrix product;
    /// its product with itself is the identity matrix.
    pub proof fn lemma_identity_compose(m: Mat3x3<int>)
        ensures
            ({
                let one = Mat3x3::<int>::identity();
                &&& one.compose(m) == m
                &&& m.compose(one) == m
                &&& one.compose(one) == one
            }),
    {
        broadcast use vstd::arithmetic::mul::group_mul_basics;
    }

    /// The matrix product is the composition: applying `a.compose(b)` is
    /// applying `b` and then `a`.
    pub proof fn lemma_compose_apply(a: Mat3x3<int>, b: Mat3x3<int>, v: XYZ<int>)
        ensures
            a.compose(b).apply(v) == a.apply(b.apply(v)),
    {
        lemma_sum3_times(a.x.x * b.x.x, a.y.x * b.x.y, a.z.x * b.x.z, v.x);
        lemma_product_assoc(a.x.x, b.x.x, v.x);
        lemma_product_assoc(a.y.x, b.x.y, v.x);
        lemma_product_assoc(a.z.x, b.x.z, v.x);
        lemma_sum3_times(a.x.x * b.y.x, a.y.x * b.y.y, a.z.x * b.y.z, v.y);
        lemma_product_assoc(a.x.x, b.y.x, v.y);
        lemma_product_assoc(a.y.x, b.y.y, v.y);
        lemma_product_assoc(a.z.x, b.y.z, v.y);
        lemma_sum3_times(a.x.x * b.z.x, a.y.x * b.z.y, a.z.x * b.z.z, v.z);
        lemma_product_assoc(a.x.x, b.z.x, v.z);
        lemma_product_assoc(a.y.x, b.z.y, v.z);
        lemma_product_assoc(a.z.x, b.z.z, v.z);
        lemma_times_sum3(a.x.x, b.x.x * v.x, b.y.x * v.y, b.z.x * v.z);
        lemma_times_sum3(a.y.x, b.x.y * v.x, b.y.y * v.y, b.z.y * v.z);
        lemma_times_sum3(a.z.x, b.x.z * v.x, b.y.z * v.y, b.z.z * v.z);
        lemma_sum3_times(a.x.y * b.x.x, a.y.y * b.x.y, a.z.y * b.x.z, v.x);
        lemma_product_assoc(a.x.y, b.x.x, v.x);
        lemma_product_assoc(a.y.y, b.x.y, v.x);
        lemma_product_assoc(a.z.y, b.x.z, v.x);
        lemma_sum3_times(a.x.y * b.y.x, a.y.y * b.y.y, a.z.y * b.y.z, v.y);
        lemma_product_assoc(a.x.y, b.y.x, v.y);
        lemma_product_assoc(a.y.y, b.y.y, v.y);
        lemma_product_assoc(a.z.y, b.y.z, v.y);
        lemma_sum3_times(a.x.y * b.z.x, a.y.y * b.z.y, a.z.y * b.z.z, v.z);
        lemma_product_assoc(a.x.y, b.z.x, v.z);
        lemma_product_assoc(a.y.y, b.z.y, v.z);
        lemma_product_assoc(a.z.y, b.z.z, v.z);
        lemma_times_sum3(a.x.y, b.x.x * v.x, b.y.x * v.y, b.z.x * v.z);
        lemma_times_sum3(a.y.y, b.x.y * v.x, b.y.y * v.y, b.z.y * v.z);
        lemma_times_sum3(a.z.y, b.x.z * v.x, b.y.z * v.y, b.z.z * v.z);
        lemma_sum3_times(a.x.z * b.x.x, a.y.z * b.x.y, a.z.z * b.x.z, v.x);
        lemma_product_assoc(a.x.z, b.x.x, v.x);
        lemma_product_assoc(a.y.z, b.x.y, v.x);
        lemma_product_assoc(a.z.z, b.x.z, v.x);
        lemma_sum3_times(a.x.z * b.y.x, a.y.z * b.y.y, a.z.z * b.y.z, v.y);
        lemma_product_assoc(a.x.z, b.y.x, v.y);
        lemma_product_assoc(a.y.z, b.y.y, v.y);
        lemma_product_assoc(a.z.z, b.y.z, v.y);
        lemma_sum3_times(a.x.z * b.z.x, a.y.z * b.z.y, a.z.z * b.z.z, v.z);
        lemma_product_assoc(a.x.z, b.z.x, v.z);
        lemma_product_assoc(a.y.z, b.z.y, v.z);
        lemma_product_assoc(a.z.z, b.z.z, v.z);
        lemma_times_sum3(a.x.z, b.x.x * v.x, b.y.x * v.y, b.z.x * v.z);
        lemma_times_sum3(a.y.z, b.x.y * v.x, b.y.y * v.y, b.z.y * v.z);
        lemma_times_sum3(a.z.z, b.x.z * v.x, b.y.z * v.y, b.z.z * v.z);
    }

    /// Transposing twice gives the matrix back.
    pub proof fn lemma_transposed_twice(m: Mat3x3<int>)
        ensures
            m.transposed().transposed() == m,
    {
    }

    /// The identity matrix has determinant one and the zero matrix has
    /// determinant zero, so that the inverse of the zero matrix is the
    /// identity matrix.
    pub proof fn lemma_det_of_identity_and_zeros()
        ensures
            Mat3x3::<int>::identity().det() == 1,
            Mat3x3::<int>::zeros().det() == 0,
            Mat3x3::<int>::zeros().inverse() == Mat3x3::<int>::identity(),
    {
    }

    /// A matrix whose determinant is zero has the identity matrix as its
    /// inverse.
    pub proof fn lemma_inverse_of_singular(m: Mat3x3<int>)
        requires
            m.det() == 0,
        ensures
            m.inverse() == Mat3x3::<int>::identity(),
    {
    }

    /// The determinant is also the expansion along the first row.
    pub proof fn lemma_det_by_first_row(m: Mat3x3<int>)
        ensures
            m.det() == sum3(
                m.x.x,
                minor2(m.y.y, m.z.z, m.z.y, m.y.z),
                m.y.x,
                minor2(m.z.y, m.x.z, m.x.y, m.z.z),
                m.z.x,
                minor2(m.x.y, m.y.z, m.y.y, m.x.z),
            ),
    {
        let a = m.x.x;
        let b = m.y.x;
        let c = m.z.x;
        let d = m.x.y;
        let e = m.y.y;
        let f = m.z.y;
        let g = m.x.z;
        let h = m.y.z;
        let i = m.z.z;
        lemma_times_minor2(a, e, i, h, f);
        lemma_product3(a, e, i);
        lemma_product3(a, h, f);
        lemma_times_minor2(d, h, c, b, i);
        lemma_product3(d, h, c);
        lemma_product3(d, b, i);
        lemma_times_minor2(g, b, f, e, c);
        lemma_product3(g, b, f);
        lemma_product3(g, e, c);
        lemma_times_minor2(a, e, i, f, h);
        lemma_product3(a, e, i);
        lemma_product3(a, f, h);
        lemma_times_minor2(b, f, g, d, i);
        lemma_product3(b, f, g);
        lemma_product3(b, d, i);
        lemma_times_minor2(c, d, h, e, g);
        lemma_product3(c, d, h);
        lemma_product3(c, e, g);
    }

    /// A matrix and its transpose have the same determinant.
    pub proof fn lemma_det_transposed(m: Mat3x3<int>)
        ensures
            m.transposed().det() == m.det(),
    {
        Mat3x3::<int>::lemma_det_by_first_row(m);
    }

    /// A matrix times its adjugate is the identity matrix scaled by the
    /// determinant.
    pub proof fn lemma_adjugate(m: Mat3x3<int>)
        ensures
            m.compose(m.adjugate()) == Mat3x3::<int>::identity().scaled(m.det()),
    {
        let a = m.x.x;
        let b = m.y.x;
        let c = m.z.x;
        let d = m.x.y;
        let e = m.y.y;
        let f = m.z.y;
        let g = m.x.z;
        let h = m.y.z;
        let i = m.z.z;
        let n = m.det();
        let p = m.compose(m.adjugate());
        lemma_times_minor2(a, e, i, h, f);
        lemma_product3(a, e, i);
        lemma_product3(a, h, f);
        lemma_times_minor2(b, f, g, i, d);
        lemma_product3(b, f, g);
        lemma_product3(b, i, d);
        lemma_times_minor2(c, d, h, g, e);
        lemma_product3(c, d, h);
        lemma_product3(c, g, e);
        lemma_times_minor2(d, e, i, h, f);
        lemma_product3(d, e, i);
        lemma_product3(d, h, f);
        lemma_times_minor2(e, f, g, i, d);
        lemma_product3(e, f, g);
        lemma_product3(e, i, d);
        lemma_times_minor2(f, d, h, g, e);
        lemma_product3(f, d, h);
        lemma_product3(f, g, e);
        lemma_times_minor2(g, e, i, h, f);
        lemma_product3(g, e, i);
        lemma_product3(g, h, f);
        lemma_times_minor2(h, f, g, i, d);
        lemma_product3(h, f, g);
        lemma_product3(h, i, d);
        lemma_times_minor2(i, d, h, g, e);
        lemma_product3(i, d, h);
        lemma_product3(i, g, e);
        lemma_times_minor2(a, h, c, b, i);
        lemma_product3(a, h, c);
        lemma_product3(a, b, i);
        lemma_times_minor2(b, i, a, c, g);
        lemma_product3(b, i, a);
        lemma_product3(b, c, g);
        lemma_times_minor2(c, g, b, a, h);
        lemma_product3(c, g, b);
        lemma_product3(c, a, h);
        lemma_times_minor2(d, h, c, b, i);
        lemma_product3(d, h, c);
        lemma_product3(d, b, i);
        lemma_times_minor2(e, i, a, c, g);
        lemma_product3(e, i, a);
        lemma_product3(e, c, g);
        lemma_times_minor2(f, g, b, a, h);
        lemma_product3(f, g, b);
        lemma_product3(f, a, h);
        lemma_times_minor2(g, h, c, b, i);
        lemma_product3(g, h, c);
        lemma_product3(g, b, i);
        lemma_times_minor2(h, i, a, c, g);
        lemma_product3(h, i, a);
        lemma_product3(h, c, g);
        lemma_times_minor2(i, g, b, a, h);
        lemma_product3(i, g, b);
        lemma_product3(i, a, h);
        lemma_times_minor2(a, b, f, e, c);
        lemma_product3(a, b, f);
        lemma_product3(a, e, c);
        lemma_times_minor2(b, c, d, f, a);
        lemma_product3(b, c, d);
        lemma_product3(b, f, a);
        lemma_times_minor2(c, a, e, d, b);
        lemma_product3(c, a, e);
        lemma_product3(c, d, b);
        lemma_times_minor2(d, b, f, e, c);
        lemma_product3(d, b, f);
        lemma_product3(d, e, c);
        lemma_times_minor2(e, c, d, f, a);
        lemma_product3(e, c, d);
        lemma_product3(e, f, a);
        lemma_times_minor2(f, a, e, d, b);
        lemma_product3(f, a, e);
        lemma_product3(f, d, b);
        lemma_times_minor2(g, b, f, e, c);
        lemma_product3(g, b, f);
        lemma_product3(g, e, c);
        lemma_times_minor2(h, c, d, f, a);
        lemma_product3(h, c, d);
        lemma_product3(h, f, a);
        lemma_times_minor2(i, a, e, d, b);
        lemma_product3(i, a, e);
        lemma_product3(i, d, b);
        broadcast use vstd::arithmetic::mul::group_mul_basics;
    }

    /// Where the determinant is not zero and every entry of the adjugate is
    /// the determinant times the entry of `b`, the inverse is `b` and is
    /// exact: the matrix times its inverse is the identity matrix.
    pub proof fn lemma_inverse_exact(m: Mat3x3<int>, b: Mat3x3<int>)
        requires
            m.det() != 0,
            m.adjugate() == b.scaled(m.det()),
        ensures
            m.inverse() == b,
            m.compose(m.inverse()) == Mat3x3::<int>::identity(),
    {
        let n = m.det();
        lemma_truncated_product(b.x.x, n);
        lemma_truncated_product(b.x.y, n);
        lemma_truncated_product(b.x.z, n);
        lemma_truncated_product(b.y.x, n);
        lemma_truncated_product(b.y.y, n);
        lemma_truncated_product(b.y.z, n);
        lemma_truncated_product(b.z.x, n);
        lemma_truncated_product(b.z.y, n);
        lemma_truncated_product(b.z.z, n);
        assert(m.inverse() == b);
        Mat3x3::<int>::lemma_adjugate(m);
        Mat3x3::<int>::lemma_compose_scaled(m, b, n);
        let p = m.compose(b);
        let q = Mat3x3::<int>::identity();
        assert(p.scaled(n) == q.scaled(n));
        lemma_cancel(p.x.x, q.x.x, n);
        lemma_cancel(p.x.y, q.x.y, n);
        lemma_cancel(p.x.z, q.x.z, n);
        lemma_cancel(p.y.x, q.y.x, n);
        lemma_cancel(p.y.y, q.y.y, n);
        lemma_cancel(p.y.z, q.y.z, n);
        lemma_cancel(p.z.x, q.z.x, n);
        lemma_cancel(p.z.y, q.z.y, n);
        lemma_cancel(p.z.z, q.z.z, n);
    }

    /// Scaling the right factor of a matrix product scales the product.
    pub proof fn lemma_compose_scaled(m: Mat3x3<int>, b: Mat3x3<int>, n: int)
        ensures
            m.compose(b.scaled(n)) == m.compose(b).scaled(n),
    {
        Mat3x3::<int>::lemma_apply_scaled(m, b.x, n);
        Mat3x3::<int>::lemma_apply_scaled(m, b.y, n);
        Mat3x3::<int>::lemma_apply_scaled(m, b.z, n);
    }

    /// Scaling a vector scales what a matrix makes of it.
    pub proof fn lemma_apply_scaled(m: Mat3x3<int>, v: XYZ<int>, n: int)
        ensures
            m.apply(v.scaled(n)) == m.apply(v).scaled(n),
    {
        lemma_sum3_scaled(m.x.x, v.x, m.y.x, v.y, m.z.x, v.z, n);
        lemma_sum3_scaled(m.x.y, v.x, m.y.y, v.y, m.z.y, v.z, n);
        lemma_sum3_scaled(m.x.z, v.x, m.y.z, v.y, m.z.z, v.z, n);
    }

    /// The rotation of the quaternion zero is the identity matrix.
    pub proof fn lemma_rotate_zero()
        ensures
            Mat3x3::<int>::rotation(0, 0, 0, 0) == Mat3x3::<int>::identity(),
    {
    }
}

impl<T> Mat3x3<T> {
    /// The matrix of the given columns.
    pub fn new(x: XYZ<T>, y: XYZ<T>, z: XYZ<T>) -> (r: Mat3x3<T>)
        ensures
            r == (Mat3x3 { x, y, z }),
    {
        Mat3x3 { x, y, z }
    }
}

impl<T: Integer> Mat3x3<T> {
    /// The matrix of `T` whose view is `m`, where there is one.
    pub open spec fn with_view(m: Mat3x3<int>) -> Mat3x3<T> {
        choose|r: Mat3x3<T>| r@ == m
    }

    /// Equal views belong to equal values.
    pub proof fn lemma_view_injective(a: Mat3x3<T>, b: Mat3x3<T>)
        ensures
            a@ == b@ ==> a == b,
    {
        XYZ::lemma_view_injective(a.x, b.x);
        XYZ::lemma_view_injective(a.y, b.y);
        XYZ::lemma_view_injective(a.z, b.z);
    }

    /// A value is the one that has its view.
    pub proof fn lemma_with_view(self)
        ensures
            Self::with_view(self@) == self,
    {
        Self::lemma_view_injective(Self::with_view(self@), self);
    }

    /// Appends the text of the matrix to `out`.
    pub fn append_to(&self, out: &mut Vec<char>)
        ensures
            final(out)@ == old(out)@ + self@.text(),
    {
        out.push('(');
        self.x.append_to(out);
        out.push(';');
        out.push(' ');
        self.y.append_to(out);
        out.push(';');
        out.push(' ');
        self.z.append_to(out);
        out.push(';');
        out.push(')');
        assert(out@ =~= old(out)@ + self@.text());
    }

    /// The matrix as text.
    pub fn to_string(&self) -> (s: String)
        ensures
            s@ == self@.text(),
    {
        let mut out: Vec<char> = Vec::new();
        self.append_to(&mut out);
        assert(out@ =~= self@.text());
        string_of(&out)
    }

    /// The view of the zero matrix is all zeros.
    pub proof fn lemma_zero_view()
        ensures
            Self::zero_spec()@ == Mat3x3::<int>::zeros(),
    {
        XYZ::<T>::lemma_zero_view();
    }

    /// The view of the unit matrix is the identity matrix.
    pub proof fn lemma_one_view()
        ensures
            Self::one_spec()@ == Mat3x3::<int>::identity(),
    {
        T::lemma_integer(T::zero_spec(), T::one_spec());
    }

    /// The matrix that scales the three axes by the components of `s`.
    pub fn scale(s: XYZ<T>) -> (r: Mat3x3<T>)
        ensures
            r@ == Mat3x3::<int>::diagonal(s@),
    {
        let o = zero_of::<T>();
        Mat3x3 {
            x: XYZ { x: s.x, y: o, z: o },
            y: XYZ { x: o, y: s.y, z: o },
            z: XYZ { x: o, y: o, z: s.z },
        }
    }

    /// The rotation that belongs to the quaternion with the vector part
    /// `(r, i, j)` and the scalar part `k`. The products of its components
    /// are scaled by two over its squared length, so that it need not have
    /// length one; for the quaternion zero the scale is zero.
    pub fn rotate(r: T, i: T, j: T, k: T) -> (m: Mat3x3<T>)
        requires
            Mat3x3::<int>::rotate_fits::<T>(r.value(), i.value(), j.value(), k.value()),
        ensures
            m@ == Mat3x3::<int>::rotation(r.value(), i.value(), j.value(), k.value()),
    {
        let one = one_of::<T>();
        let two = one.plus(one);
        let rr = r.times(r);
        let ii = i.times(i);
        let jj = j.times(j);
        let kk = k.times(k);
        let n = rr.plus(ii).plus(jj).plus(kk);
        let s = if !n.is_zero() {
            proof {
                lemma_square(r.value());
                lemma_square(i.value());
                lemma_square(j.value());
                lemma_square(k.value());
                lemma_two_over(n.value());
                T::lemma_integer(T::zero_spec(), n);
            }
            two.over(n)
        } else {
            zero_of::<T>()
        };
        let kr = s.times(k).times(r);
        let rr = rr.times(s);
        let ii = ii.times(s);
        let ki = s.times(k).times(i);
        let ri = s.times(r).times(i);
        let ij = s.times(i).times(j);
        let kj = s.times(k).times(j);
        let rj = s.times(r).times(j);
        let jj = jj.times(s);
        Mat3x3 {
            x: XYZ { x: one.minus(ii.plus(jj)), y: ri.minus(kj), z: rj.plus(ki) },
            y: XYZ { x: ri.plus(kj), y: one.minus(rr.plus(jj)), z: ij.minus(kr) },
            z: XYZ { x: rj.minus(ki), y: ij.plus(kr), z: one.minus(rr.plus(ii)) },
        }
    }

    /// The determinant.
    pub fn det(&self) -> (r: T)
        requires
            self@.det_fits::<T>(),
        ensures
            r.value() == self@.det(),
    {
        XYZ::dot(self.x, XYZ::cross(self.y, self.z))
    }

    /// The inverse: the adjugate divided by the determinant, or the unit
    /// matrix where the determinant is zero.
    pub fn inverse(&self) -> (r: Mat3x3<T>)
        requires
            self@.inverse_fits::<T>(),
        ensures
            r@ == self@.inverse(),
    {
        let yz = XYZ::cross(self.y, self.z);
        let nd = XYZ::dot(self.x, yz);
        if !nd.is_zero() {
            let zx = XYZ::cross(self.z, self.x);
            let xy = XYZ::cross(self.x, self.y);
            let adjugate = Mat3x3 {
                x: XYZ { x: yz.x, y: zx.x, z: xy.x },
                y: XYZ { x: yz.y, y: zx.y, z: xy.y },
                z: XYZ { x: yz.z, y: zx.z, z: xy.z },
            };
            adjugate / nd
        } else {
            proof {
                Self::lemma_one_view();
            }
            Mat3x3::one()
        }
    }

    /// The matrix for the normals of what `m` transforms: the inverse of the
    /// linear part of `m`, transposed.
    pub fn normal_from(m: Mat4x4<T>) -> (r: Mat3x3<T>)
        requires
            m@.linear().inverse_fits::<T>(),
        ensures
            r@ == m@.linear().inverse().transposed(),
    {
        Mat3x3 {
            x: XYZ { x: m.x.x, y: m.x.y, z: m.x.z },
            y: XYZ { x: m.y.x, y: m.y.y, z: m.y.z },
            z: XYZ { x: m.z.x, y: m.z.y, z: m.z.z },
        }.inverse().transpose()
    }

    /// The matrix with rows and columns exchanged.
    pub fn transpose(&self) -> (r: Mat3x3<T>)
        ensures
            r@ == self@.transposed(),
    {
        Mat3x3 {
            x: XYZ { x: self.x.x, y: self.y.x, z: self.z.x },
            y: XYZ { x: self.x.y, y: self.y.y, z: self.z.y },
            z: XYZ { x: self.x.z, y: self.y.z, z: self.z.z },
        }
    }
}

impl<T: Signed> Mat3x3<T> {
    /// The rotation about the `x` axis by an angle, given the sine `sa` and
    /// the cosine `ca` of the angle.
    pub fn pitch(sa: T, ca: T) -> (r: Mat3x3<T>)
        requires
            in_range::<T>(-sa.value()),
        ensures
            r@ == Mat3x3::<int>::about_x(sa.value(), ca.value()),
    {
        let o = zero_of::<T>();
        let l = one_of::<T>();
        Mat3x3 {
            x: XYZ { x: l, y: o, z: o },
            y: XYZ { x: o, y: ca, z: sa },
            z: XYZ { x: o, y: sa.negated(), z: ca },
        }
    }

    /// The rotation about the `y` axis by an angle, given the sine `sa` and
    /// the cosine `ca` of the angle.
    pub fn yaw(sa: T, ca: T) -> (r: Mat3x3<T>)
        requires
            in_range::<T>(-sa.value()),
        ensures
            r@ == Mat3x3::<int>::about_y(sa.value(), ca.value()),
    {
        let o = zero_of::<T>();
        let l = one_of::<T>();
        Mat3x3 {
            x: XYZ { x: ca, y: o, z: sa.negated() },
            y: XYZ { x: o, y: l, z: o },
            z: XYZ { x: sa, y: o, z: ca },
        }
    }

    /// The rotation about the `z` axis by an angle, given the sine `sa` and
    /// the cosine `ca` of the angle.
    pub fn roll(sa: T, ca: T) -> (r: Mat3x3<T>)
        requires
            in_range::<T>(-sa.value()),
        ensures
            r@ == Mat3x3::<int>::about_z(sa.value(), ca.value()),
    {
        let o = zero_of::<T>();
        let l = one_of::<T>();
        Mat3x3 {
            x: XYZ { x: ca, y: sa, z: o },
            y: XYZ { x: sa.negated(), y: ca, z: o },
            z: XYZ { x: o, y: o, z: l },
        }
    }
}

impl<T: Integer> Zero for Mat3x3<T> {
    open spec fn zero_spec() -> Mat3x3<T> {
        Mat3x3 { x: XYZ::<T>::zero_spec(), y: XYZ::<T>::zero_spec(), z: XYZ::<T>::zero_spec() }
    }

    fn zero() -> (r: Mat3x3<T>) {
        Mat3x3 { x: XYZ::zero(), y: XYZ::zero(), z: XYZ::zero() }
    }
}

impl<T: Integer> One for Mat3x3<T> {
    open spec fn one_spec() -> Mat3x3<T> {
        Mat3x3 {
            x: XYZ { x: T::one_spec(), y: T::zero_spec(), z: T::zero_spec() },
            y: XYZ { x: T::zero_spec(), y: T::one_spec(), z: T::zero_spec() },
            z: XYZ { x: T::zero_spec(), y: T::zero_spec(), z: T::one_spec() },
        }
    }

    fn one() -> (r: Mat3x3<T>) {
        Mat3x3 {
            x: XYZ { x: T::one(), y: T::zero(), z: T::zero() },
            y: XYZ { x: T::zero(), y: T::one(), z: T::zero() },
            z: XYZ { x: T::zero(), y: T::zero(), z: T::one() },
        }
    }
}

impl<T: Integer> PartialEq for Mat3x3<T> {
    fn eq(&self, other: &Mat3x3<T>) -> (r: bool) {
        self.x == other.x && self.y == other.y && self.z == other.z
    }
}

impl<T: Integer> vstd::std_specs::cmp::PartialEqSpecImpl for Mat3x3<T> {
    open spec fn obeys_eq_spec() -> bool {
        true
    }

    open spec fn eq_spec(&self, other: &Mat3x3<T>) -> bool {
        self@ == other@
    }
}

impl<T: Signed> core::ops::Neg for Mat3x3<T> {
    type Output = Mat3x3<T>;

    fn neg(self) -> (r: Mat3x3<T>)
        ensures
            r@ == self@.negated(),
    {
        let r = Mat3x3 { x: self.x.neg(), y: self.y.neg(), z: self.z.neg() };
        proof {
            r.lemma_with_view();
        }
        r
    }
}

impl<T: Signed> vstd::std_specs::ops::NegSpecImpl for Mat3x3<T> {
    open spec fn obeys_neg_spec() -> bool {
        true
    }

    open spec fn neg_req(self) -> bool {
        self@.negated().fits::<T>()
    }

    open spec fn neg_spec(self) -> Mat3x3<T> {
        Mat3x3::with_view(self@.negated())
    }
}

impl<T: Integer> core::ops::Add for Mat3x3<T> {
    type Output = Mat3x3<T>;

    fn add(self, other: Mat3x3<T>) -> (r: Mat3x3<T>)
        ensures
            r@ == self@.plus(other@),
    {
        let r = Mat3x3 { x: self.x + other.x, y: self.y + other.y, z: self.z + other.z };
        proof {
            r.lemma_with_view();
        }
        r
    }
}

impl<T: Integer> vstd::std_specs::ops::AddSpecImpl for Mat3x3<T> {
    open spec fn obeys_add_spec() -> bool {
        true
    }

    open spec fn add_req(self, other: Mat3x3<T>) -> bool {
        self@.plus(other@).fits::<T>()
    }

    open spec fn add_spec(self, other: Mat3x3<T>) -> Mat3x3<T> {
        Mat3x3::with_view(self@.plus(other@))
    }
}

impl<T: Integer> core::ops::Sub for Mat3x3<T> {
    type Output = Mat3x3<T>;

    fn sub(self, other: Mat3x3<T>) -> (r: Mat3x3<T>)
        ensures
            r@ == self@.minus(other@),
    {
        let r = Mat3x3 { x: self.x - other.x, y: self.y - other.y, z: self.z - other.z };
        proof {
            r.lemma_with_view();
        }
        r
    }
}

impl<T: Integer> vstd::std_specs::ops::SubSpecImpl for Mat3x3<T> {
    open spec fn obeys_sub_spec() -> bool {
        true
    }

    open spec fn sub_req(self, other: Mat3x3<T>) -> bool {
        self@.minus(other@).fits::<T>()
    }

    open spec fn sub_spec(self, other: Mat3x3<T>) -> Mat3x3<T> {
        Mat3x3::with_view(self@.minus(other@))
    }
}

impl<T: Integer> core::ops::AddAssign for Mat3x3<T> {
    fn add_assign(&mut self, other: Mat3x3<T>)
        requires
            old(self)@.plus(other@).fits::<T>(),
        ensures
            final(self)@ == old(self)@.plus(other@),
    {
        self.x = self.x + other.x;
        self.y = self.y + other.y;
        self.z = self.z + other.z;
    }
}

impl<T: Integer> core::ops::SubAssign for Mat3x3<T> {
    fn sub_assign(&mut self, other: Mat3x3<T>)
        requires
            old(self)@.minus(other@).fits::<T>(),
        ensures
            final(self)@ == old(self)@.minus(other@),
    {
        self.x = self.x - other.x;
        self.y = self.y - other.y;
        self.z = self.z - other.z;
    }
}

impl<T: Integer> core::ops::Mul<T> for Mat3x3<T> {
    type Output = Mat3x3<T>;

    fn mul(self, other: T) -> (r: Mat3x3<T>)
        ensures
            r@ == self@.scaled(other.value()),
    {
        let r = Mat3x3 { x: self.x * other, y: self.y * other, z: self.z * other };
        proof {
            r.lemma_with_view();
        }
        r
    }
}

impl<T: Integer> vstd::std_specs::ops::MulSpecImpl<T> for Mat3x3<T> {
    open spec fn obeys_mul_spec() -> bool {
        true
    }

    open spec fn mul_req(self, other: T) -> bool {
        self@.scaled(other.value()).fits::<T>()
    }

    open spec fn mul_spec(self, other: T) -> Mat3x3<T> {
        Mat3x3::with_view(self@.scaled(other.value()))
    }
}

impl<T: Integer> core::ops::MulAssign<T> for Mat3x3<T> {
    fn mul_assign(&mut self, other: T)
        requires
            old(self)@.scaled(other.value()).fits::<T>(),
        ensures
            final(self)@ == old(self)@.scaled(other.value()),
    {
        self.x = self.x * other;
        self.y = self.y * other;
        self.z = self.z * other;
    }
}

impl<T: Integer> core::ops::Mul<XYZ<T>> for Mat3x3<T> {
    type Output = XYZ<T>;

    fn mul(self, other: XYZ<T>) -> (r: XYZ<T>)
        ensures
            r@ == self@.apply(other@),
    {
        let r = XYZ {
            x: self.x.x.times(other.x)
                .plus(self.y.x.times(other.y))
                .plus(self.z.x.times(other.z)),
            y: self.x.y.times(other.x)
                .plus(self.y.y.times(other.y))
                .plus(self.z.y.times(other.z)),
            z: self.x.z.times(other.x)
                .plus(self.y.z.times(other.y))
                .plus(self.z.z.times(other.z)),
        };
        proof {
            r.lemma_with_view();
        }
        r
    }
}

impl<T: Integer> vstd::std_specs::ops::MulSpecImpl<XYZ<T>> for Mat3x3<T> {
    open spec fn obeys_mul_spec() -> bool {
        true
    }

    open spec fn mul_req(self, other: XYZ<T>) -> bool {
        self@.apply_fits::<T>(other@)
    }

    open spec fn mul_spec(self, other: XYZ<T>) -> XYZ<T> {
        XYZ::with_view(self@.apply(other@))
    }
}

impl<T: Integer> core::ops::Mul<Mat3x3<T>> for Mat3x3<T> {
    type Output = Mat3x3<T>;

    fn mul(self, other: Mat3x3<T>) -> (r: Mat3x3<T>)
        ensures
            r@ == self@.compose(other@),
    {
        let r = Mat3x3 { x: self * other.x, y: self * other.y, z: self * other.z };
        proof {
            r.lemma_with_view();
        }
        r
    }
}

impl<T: Integer> vstd::std_specs::ops::MulSpecImpl<Mat3x3<T>> for Mat3x3<T> {
    open spec fn obeys_mul_spec() -> bool {
        true
    }

    open spec fn mul_req(self, other: Mat3x3<T>) -> bool {
        self@.compose_fits::<T>(other@)
    }

    open spec fn mul_spec(self, other: Mat3x3<T>) -> Mat3x3<T> {
        Mat3x3::with_view(self@.compose(other@))
    }
}

impl<T: Integer> core::ops::MulAssign<Mat3x3<T>> for Mat3x3<T> {
    fn mul_assign(&mut self, other: Mat3x3<T>)
        requires
            old(self)@.compose_fits::<T>(other@),
        ensures
            final(self)@ == old(self)@.compose(other@),
    {
        let r = *self * other;
        *self = r;
    }
}

/// Division by a scalar, rounding toward zero. A divisor of zero leaves the
/// matrix as it is.
impl<T: Integer> core::ops::Div<T> for Mat3x3<T> {
    type Output = Mat3x3<T>;

    fn div(self, other: T) -> (r: Mat3x3<T>)
        ensures
            r@ == self@.over_or_same(other.value()),
    {
        if !other.is_zero() {
            let r = Mat3x3 { x: self.x / other, y: self.y / other, z: self.z / other };
            proof {
                r.lemma_with_view();
            }
            r
        } else {
            proof {
                self.lemma_with_view();
            }
            self
        }
    }
}

impl<T: Integer> vstd::std_specs::ops::DivSpecImpl<T> for Mat3x3<T> {
    open spec fn obeys_div_spec() -> bool {
        true
    }

    open spec fn div_req(self, other: T) -> bool {
        other.value() != 0 ==> self@.over(other.value()).fits::<T>()
    }

    open spec fn div_spec(self, other: T) -> Mat3x3<T> {
        Mat3x3::with_view(self@.over_or_same(other.value()))
    }
}

impl<T: Integer> core::ops::DivAssign<T> for Mat3x3<T> {
    fn div_assign(&mut self, other: T)
        requires
            other.value() != 0 ==> old(self)@.over(other.value()).fits::<T>(),
        ensures
            final(self)@ == old(self)@.over_or_same(other.value()),
    {
        if !other.is_zero() {
            self.x = self.x / other;
            self.y = self.y / other;
            self.z = self.z / other;
        }
    }
}

} // verus!
