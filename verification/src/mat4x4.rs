//! Matrices of four rows and columns.

use vstd::prelude::*;
use core::ops::Neg;
use crate::expansion::{
    expand3, expand3_fits, expand3_of, expand4, expand4_fits, expand4_of, lemma_product3,
    lemma_product_assoc, lemma_sum4_times, lemma_times_minor2, lemma_times_sum4, minor2,
    minor2_fits, minor2_of,
};
use crate::mat3x3::Mat3x3;
use crate::scalar::{Integer, One, Signed, Zero, in_range, one_of, truncated, zero_of};
use crate::text::string_of;
use crate::vector::{XYZ, XYZW};

verus! {

/// A square matrix of four rows, held as its four columns.
#[derive(Copy, Debug)]
pub struct Mat4x4<T> {
    pub x: XYZW<T>,
    pub y: XYZW<T>,
    pub z: XYZW<T>,
    pub w: XYZW<T>,
}

impl<T: Copy> Clone for Mat4x4<T> {
    fn clone(&self) -> (r: Self)
        ensures
            r == *self,
    {
        *self
    }
}

impl<T: Integer> View for Mat4x4<T> {
    type V = Mat4x4<int>;

    open spec fn view(&self) -> Mat4x4<int> {
        Mat4x4 { x: self.x@, y: self.y@, z: self.z@, w: self.w@ }
    }
}

impl Mat4x4<int> {
    /// Whether every component is a value of `T`.
    pub open spec fn fits<T: Integer>(self) -> bool {
        &&& self.x.fits::<T>()
        &&& self.y.fits::<T>()
        &&& self.z.fits::<T>()
        &&& self.w.fits::<T>()
    }

    /// The matrix whose components are all zero.
    pub open spec fn zeros() -> Mat4x4<int> {
        Mat4x4 {
            x: XYZW::<int>::zeros(),
            y: XYZW::<int>::zeros(),
            z: XYZW::<int>::zeros(),
            w: XYZW::<int>::zeros(),
        }
    }

    /// The component-wise sum.
    pub open spec fn plus(self, other: Mat4x4<int>) -> Mat4x4<int> {
        Mat4x4 {
            x: self.x.plus(other.x),
            y: self.y.plus(other.y),
            z: self.z.plus(other.z),
            w: self.w.plus(other.w),
        }
    }

    /// The component-wise difference.
    pub open spec fn minus(self, other: Mat4x4<int>) -> Mat4x4<int> {
        Mat4x4 {
            x: self.x.minus(other.x),
            y: self.y.minus(other.y),
            z: self.z.minus(other.z),
            w: self.w.minus(other.w),
        }
    }

    /// Every component negated.
    pub open spec fn negated(self) -> Mat4x4<int> {
        Mat4x4 {
            x: self.x.negated(),
            y: self.y.negated(),
            z: self.z.negated(),
            w: self.w.negated(),
        }
    }

    /// Every component multiplied by `s`.
    pub open spec fn scaled(self, s: int) -> Mat4x4<int> {
        Mat4x4 {
            x: self.x.scaled(s),
            y: self.y.scaled(s),
            z: self.z.scaled(s),
            w: self.w.scaled(s),
        }
    }

    /// Every component divided by `d`, rounding toward zero.
    pub open spec fn over(self, d: int) -> Mat4x4<int> {
        Mat4x4 { x: self.x.over(d), y: self.y.over(d), z: self.z.over(d), w: self.w.over(d) }
    }

    /// Division that leaves the matrix as it is when the divisor is zero.
    pub open spec fn over_or_same(self, d: int) -> Mat4x4<int> {
        if d == 0 {
            self
        } else {
            self.over(d)
        }
    }

    /// The matrix as text.
    pub open spec fn text(self) -> Seq<char> {
        seq!['('] + self.x.text() + seq![';', ' '] + self.y.text() + seq![';', ' ']
            + self.z.text() + seq![';', ' '] + self.w.text() + seq![';', ')']
    }

    /// The identity matrix.
    pub open spec fn identity() -> Mat4x4<int> {
        Mat4x4 {
            x: XYZW { x: 1, y: 0, z: 0, w: 0 },
            y: XYZW { x: 0, y: 1, z: 0, w: 0 },
            z: XYZW { x: 0, y: 0, z: 1, w: 0 },
            w: XYZW { x: 0, y: 0, z: 0, w: 1 },
        }
    }

    /// The product with the column vector `v`: the sum of the columns, each
    /// scaled by the component of `v` of its name.
    pub open spec fn apply(self, v: XYZW<int>) -> XYZW<int> {
        self.x.scaled(v.x)
            .plus(self.y.scaled(v.y))
            .plus(self.z.scaled(v.z))
            .plus(self.w.scaled(v.w))
    }

    /// Whether `T` holds every scaled column and every partial sum of
    /// `apply`, taken from the first column to the last.
    pub open spec fn apply_fits<T: Integer>(self, v: XYZW<int>) -> bool {
        &&& self.x.scaled(v.x).fits::<T>()
        &&& self.y.scaled(v.y).fits::<T>()
        &&& self.x.scaled(v.x).plus(self.y.scaled(v.y)).fits::<T>()
        &&& self.z.scaled(v.z).fits::<T>()
        &&& self.x.scaled(v.x).plus(self.y.scaled(v.y)).plus(self.z.scaled(v.z)).fits::<T>()
        &&& self.w.scaled(v.w).fits::<T>()
        &&& self.apply(v).fits::<T>()
    }

    /// The matrix product: each column of `other` with `self` applied to it.
    pub open spec fn compose(self, other: Mat4x4<int>) -> Mat4x4<int> {
        Mat4x4 {
            x: self.apply(other.x),
            y: self.apply(other.y),
            z: self.apply(other.z),
            w: self.apply(other.w),
        }
    }

    /// Whether `T` holds every step of `compose`.
    pub open spec fn compose_fits<T: Integer>(self, other: Mat4x4<int>) -> bool {
        &&& self.apply_fits::<T>(other.x)
        &&& self.apply_fits::<T>(other.y)
        &&& self.apply_fits::<T>(other.z)
        &&& self.apply_fits::<T>(other.w)
    }

    /// The column of index `col`, counted from zero.
    pub open spec fn column(self, col: int) -> XYZW<int> {
        if col == 0 {
            self.x
        } else if col == 1 {
            self.y
        } else if col == 2 {
            self.z
        } else {
            self.w
        }
    }

    /// The entry in the row `row` and the column `col`, both counted from
    /// zero.
    pub open spec fn entry(self, row: int, col: int) -> int {
        component(self.column(col), row)
    }

    /// The matrix with rows and columns exchanged.
    pub open spec fn transposed(self) -> Mat4x4<int> {
        Mat4x4 {
            x: XYZW { x: self.x.x, y: self.y.x, z: self.z.x, w: self.w.x },
            y: XYZW { x: self.x.y, y: self.y.y, z: self.z.y, w: self.w.y },
            z: XYZW { x: self.x.z, y: self.y.z, z: self.z.z, w: self.w.z },
            w: XYZW { x: self.x.w, y: self.y.w, z: self.z.w, w: self.w.w },
        }
    }

    /// The matrix of three rows that is left when the row `row` and the
    /// column `col` are taken out.
    pub open spec fn minor(self, row: int, col: int) -> Mat3x3<int> {
        Mat3x3 {
            x: XYZ {
                x: self.entry(skip(row, 0), skip(col, 0)),
                y: self.entry(skip(row, 1), skip(col, 0)),
                z: self.entry(skip(row, 2), skip(col, 0)),
            },
            y: XYZ {
                x: self.entry(skip(row, 0), skip(col, 1)),
                y: self.entry(skip(row, 1), skip(col, 1)),
                z: self.entry(skip(row, 2), skip(col, 1)),
            },
            z: XYZ {
                x: self.entry(skip(row, 0), skip(col, 2)),
                y: self.entry(skip(row, 1), skip(col, 2)),
                z: self.entry(skip(row, 2), skip(col, 2)),
            },
        }
    }

    /// The cofactor of the entry in the row `row` and the column `col`: the
    /// determinant of its minor, negated where `row + col` is odd.
    pub open spec fn cofactor(self, row: int, col: int) -> int {
        if (row + col) % 2 == 0 {
            self.minor(row, col).det()
        } else {
            -self.minor(row, col).det()
        }
    }

    /// The determinant: the entries of the first row times the determinants
    /// of their minors, with alternating signs.
    pub open spec fn det(self) -> int {
        expand4(
            self.x.x,
            self.minor(0, 0).det(),
            self.y.x,
            self.minor(0, 1).det(),
            self.z.x,
            self.minor(0, 2).det(),
            self.w.x,
            self.minor(0, 3).det(),
        )
    }

    /// The adjugate, the transposed matrix of cofactors.
    pub open spec fn adjugate(self) -> Mat4x4<int> {
        Mat4x4 {
            x: XYZW {
                x: self.cofactor(0, 0),
                y: self.cofactor(0, 1),
                z: self.cofactor(0, 2),
                w: self.cofactor(0, 3),
            },
            y: XYZW {
                x: self.cofactor(1, 0),
                y: self.cofactor(1, 1),
                z: self.cofactor(1, 2),
                w: self.cofactor(1, 3),
            },
            z: XYZW {
                x: self.cofactor(2, 0),
                y: self.cofactor(2, 1),
                z: self.cofactor(2, 2),
                w: self.cofactor(2, 3),
            },
            w: XYZW {
                x: self.cofactor(3, 0),
                y: self.cofactor(3, 1),
                z: self.cofactor(3, 2),
                w: self.cofactor(3, 3),
            },
        }
    }

    /// The inverse as far as integers have one: the adjugate divided by the
    /// determinant, every entry rounded toward zero. Where the determinant is
    /// zero it is the identity matrix.
    pub open spec fn inverse(self) -> Mat4x4<int> {
        if self.det() == 0 {
            Mat4x4::<int>::identity()
        } else {
            self.adjugate().over(self.det())
        }
    }

    /// The determinant of the rows `upper` and `lower` of the columns `c1` and
    /// `c2`.
    pub open spec fn pair(self, upper: int, lower: int, c1: int, c2: int) -> int {
        minor2(
            self.entry(upper, c1),
            self.entry(lower, c2),
            self.entry(lower, c1),
            self.entry(upper, c2),
        )
    }

    /// Whether `T` holds every step of `pair`.
    pub open spec fn pair_fits<T: Integer>(
        self,
        upper: int,
        lower: int,
        c1: int,
        c2: int,
    ) -> bool {
        minor2_fits::<T>(
            self.entry(upper, c1),
            self.entry(lower, c2),
            self.entry(lower, c1),
            self.entry(upper, c2),
        )
    }

    /// The determinant of the rows `along`, `upper` and `lower` of the columns
    /// `c1`, `c2` and `c3`, expanded along the row `along`, which is the
    /// first or the last of the three.
    pub open spec fn expansion(
        self,
        along: int,
        upper: int,
        lower: int,
        c1: int,
        c2: int,
        c3: int,
    ) -> int {
        expand3(
            self.entry(along, c1),
            self.pair(upper, lower, c2, c3),
            self.entry(along, c2),
            self.pair(upper, lower, c1, c3),
            self.entry(along, c3),
            self.pair(upper, lower, c1, c2),
        )
    }

    /// Whether `T` holds the products and sums of `expansion`, its three
    /// pairs given.
    pub open spec fn expansion_fits<T: Integer>(
        self,
        along: int,
        upper: int,
        lower: int,
        c1: int,
        c2: int,
        c3: int,
    ) -> bool {
        expand3_fits::<T>(
            self.entry(along, c1),
            self.pair(upper, lower, c2, c3),
            self.entry(along, c2),
            self.pair(upper, lower, c1, c3),
            self.entry(along, c3),
            self.pair(upper, lower, c1, c2),
        )
    }

    /// Whether `T` holds the six pairs of the rows `upper` and `lower`.
    pub open spec fn pairs_fit<T: Integer>(self, upper: int, lower: int) -> bool {
        &&& self.pair_fits::<T>(upper, lower, 2, 3)
        &&& self.pair_fits::<T>(upper, lower, 1, 3)
        &&& self.pair_fits::<T>(upper, lower, 1, 2)
        &&& self.pair_fits::<T>(upper, lower, 0, 3)
        &&& self.pair_fits::<T>(upper, lower, 0, 2)
        &&& self.pair_fits::<T>(upper, lower, 0, 1)
    }

    /// Whether `T` holds the expansions, along the row `along`, of the four
    /// minors that the rows `along`, `upper` and `lower` make.
    pub open spec fn expansions_fit<T: Integer>(self, along: int, upper: int, lower: int) -> bool {
        &&& self.expansion_fits::<T>(along, upper, lower, 1, 2, 3)
        &&& self.expansion_fits::<T>(along, upper, lower, 0, 2, 3)
        &&& self.expansion_fits::<T>(along, upper, lower, 0, 1, 3)
        &&& self.expansion_fits::<T>(along, upper, lower, 0, 1, 2)
    }

    /// Whether `T` holds every step of `det`: the pairs of the last two
    /// rows, the minors of the first row, and the sum along the first row.
    pub open spec fn det_fits<T: Integer>(self) -> bool {
        &&& self.pairs_fit::<T>(2, 3)
        &&& self.expansions_fit::<T>(1, 2, 3)
        &&& expand4_fits::<T>(
            self.x.x,
            self.minor(0, 0).det(),
            self.y.x,
            self.minor(0, 1).det(),
            self.z.x,
            self.minor(0, 2).det(),
            self.w.x,
            self.minor(0, 3).det(),
        )
    }

    /// Whether `T` holds every step of `inverse`: the determinant first, and
    /// where that is not zero, the remaining pairs and minors, the adjugate
    /// and the quotients.
    pub open spec fn inverse_fits<T: Integer>(self) -> bool {
        &&& self.det_fits::<T>()
        &&& self.det() != 0 ==> {
            &&& self.pairs_fit::<T>(0, 1)
            &&& self.expansions_fit::<T>(0, 2, 3)
            &&& self.expansions_fit::<T>(3, 0, 1)
            &&& self.expansions_fit::<T>(2, 0, 1)
            &&& self.adjugate().fits::<T>()
            &&& self.adjugate().over(self.det()).fits::<T>()
        }
    }

    /// The three rows and columns that act on directions: the matrix without
    /// its last row and column.
    pub open spec fn linear(self) -> Mat3x3<int> {
        Mat3x3 {
            x: XYZ { x: self.x.x, y: self.x.y, z: self.x.z },
            y: XYZ { x: self.y.x, y: self.y.y, z: self.y.z },
            z: XYZ { x: self.z.x, y: self.z.y, z: self.z.z },
        }
    }

    /// The matrix that acts as `m` on the first three components and leaves
    /// the fourth alone.
    pub open spec fn embedded(m: Mat3x3<int>) -> Mat4x4<int> {
        Mat4x4 {
            x: XYZW { x: m.x.x, y: m.x.y, z: m.x.z, w: 0 },
            y: XYZW { x: m.y.x, y: m.y.y, z: m.y.z, w: 0 },
            z: XYZW { x: m.z.x, y: m.z.y, z: m.z.z, w: 0 },
            w: XYZW { x: 0, y: 0, z: 0, w: 1 },
        }
    }

    /// The matrix that moves every point by `t`.
    pub open spec fn translation(t: XYZ<int>) -> Mat4x4<int> {
        Mat4x4 {
            x: XYZW { x: 1, y: 0, z: 0, w: 0 },
            y: XYZW { x: 0, y: 1, z: 0, w: 0 },
            z: XYZW { x: 0, y: 0, z: 1, w: 0 },
            w: XYZW { x: t.x, y: t.y, z: t.z, w: 1 },
        }
    }

    /// The orthographic projection of the box between `l` and `r`, `b` and
    /// `t`, `n` and `f`.
    pub open spec fn orthographic(l: int, r: int, b: int, t: int, n: int, f: int) -> Mat4x4<int> {
        Mat4x4 {
            x: XYZW { x: truncated(2, r - l), y: 0, z: 0, w: 0 },
            y: XYZW { x: 0, y: truncated(2, t - b), z: 0, w: 0 },
            z: XYZW { x: 0, y: 0, z: truncated(-2, f - n), w: 0 },
            w: XYZW {
                x: truncated(-(r + l), r - l),
                y: truncated(-(t + b), t - b),
                z: truncated(-(f + n), f - n),
                w: 1,
            },
        }
    }

    /// Whether the box has an extent in each direction and `T` holds every
    /// step of `orthographic`.
    pub open spec fn orthographic_fits<T: Integer>(
        l: int,
        r: int,
        b: int,
        t: int,
        n: int,
        f: int,
    ) -> bool {
        &&& r - l != 0
        &&& t - b != 0
        &&& f - n != 0
        &&& in_range::<T>(2)
        &&& in_range::<T>(-2)
        &&& in_range::<T>(r - l)
        &&& in_range::<T>(t - b)
        &&& in_range::<T>(f - n)
        &&& in_range::<T>(r + l)
        &&& in_range::<T>(t + b)
        &&& in_range::<T>(f + n)
        &&& in_range::<T>(-(r + l))
        &&& in_range::<T>(-(t + b))
        &&& in_range::<T>(-(f + n))
        &&& Mat4x4::<int>::orthographic(l, r, b, t, n, f).fits::<T>()
    }

    /// The perspective projection between the distances `n` and `f`, where
    /// `q` is the cotangent of half the vertical field of view and `aspect`
    /// is the width of the view over its height.
    pub open spec fn projection(q: int, aspect: int, n: int, f: int) -> Mat4x4<int> {
        Mat4x4 {
            x: XYZW { x: truncated(q, aspect), y: 0, z: 0, w: 0 },
            y: XYZW { x: 0, y: q, z: 0, w: 0 },
            z: XYZW { x: 0, y: 0, z: truncated(f + n, n - f), w: -1 },
            w: XYZW { x: 0, y: 0, z: truncated(2 * f * n, n - f), w: 0 },
        }
    }

    /// Whether neither divisor is zero and `T` holds every step of
    /// `projection`.
    pub open spec fn projection_fits<T: Integer>(q: int, aspect: int, n: int, f: int) -> bool {
        &&& aspect != 0
        &&& n - f != 0
        &&& in_range::<T>(-1)
        &&& in_range::<T>(2)
        &&& in_range::<T>(f + n)
        &&& in_range::<T>(n - f)
        &&& in_range::<T>(2 * f)
        &&& in_range::<T>(2 * f * n)
        &&& Mat4x4::<int>::projection(q, aspect, n, f).fits::<T>()
    }

    /// Adding `b` and then subtracting it again gives `a` back.
    pub proof fn lemma_plus_minus(a: Mat4x4<int>, b: Mat4x4<int>)
        ensures
            a.plus(b).minus(b) == a,
    {
    }

    /// Scaling by one changes nothing.
    pub proof fn lemma_scaled_one(a: Mat4x4<int>)
        ensures
            a.scaled(1) == a,
    {
    }

    /// Scaling by zero gives zero.
    pub proof fn lemma_scaled_zero(a: Mat4x4<int>)
        ensures
            a.scaled(0) == Mat4x4::<int>::zeros(),
    {
    }

    /// The identity matrix maps every vector to itself.
    pub proof fn lemma_identity_apply(v: XYZW<int>)
        ensures
            Mat4x4::<int>::identity().apply(v) == v,
    {
    }

    /// The identity matrix is neutral on both sides of the matrix product;
    /// its product with itself is the identity matrix.
    pub proof fn lemma_identity_compose(m: Mat4x4<int>)
        ensures
            ({
                let one = Mat4x4::<int>::identity();
                &&& one.compose(m) == m
                &&& m.compose(one) == m
                &&& one.compose(one) == one
            }),
    {
        broadcast use vstd::arithmetic::mul::group_mul_basics;
    }

    /// The matrix product is the composition: applying `a.compose(b)` is
    /// applying `b` and then `a`.
    pub proof fn lemma_compose_apply(a: Mat4x4<int>, b: Mat4x4<int>, v: XYZW<int>)
        ensures
            a.compose(b).apply(v) == a.apply(b.apply(v)),
    {
        lemma_sum4_times(a.x.x * b.x.x, a.y.x * b.x.y, a.z.x * b.x.z, a.w.x * b.x.w, v.x);
        lemma_product_assoc(a.x.x, b.x.x, v.x);
        lemma_product_assoc(a.y.x, b.x.y, v.x);
        lemma_product_assoc(a.z.x, b.x.z, v.x);
        lemma_product_assoc(a.w.x, b.x.w, v.x);
        lemma_sum4_times(a.x.x * b.y.x, a.y.x * b.y.y, a.z.x * b.y.z, a.w.x * b.y.w, v.y);
        lemma_product_assoc(a.x.x, b.y.x, v.y);
        lemma_product_assoc(a.y.x, b.y.y, v.y);
        lemma_product_assoc(a.z.x, b.y.z, v.y);
        lemma_product_assoc(a.w.x, b.y.w, v.y);
        lemma_sum4_times(a.x.x * b.z.x, a.y.x * b.z.y, a.z.x * b.z.z, a.w.x * b.z.w, v.z);
        lemma_product_assoc(a.x.x, b.z.x, v.z);
        lemma_product_assoc(a.y.x, b.z.y, v.z);
        lemma_product_assoc(a.z.x, b.z.z, v.z);
        lemma_product_assoc(a.w.x, b.z.w, v.z);
        lemma_sum4_times(a.x.x * b.w.x, a.y.x * b.w.y, a.z.x * b.w.z, a.w.x * b.w.w, v.w);
        lemma_product_assoc(a.x.x, b.w.x, v.w);
        lemma_product_assoc(a.y.x, b.w.y, v.w);
        lemma_product_assoc(a.z.x, b.w.z, v.w);
        lemma_product_assoc(a.w.x, b.w.w, v.w);
        lemma_times_sum4(a.x.x, b.x.x * v.x, b.y.x * v.y, b.z.x * v.z, b.w.x * v.w);
        lemma_times_sum4(a.y.x, b.x.y * v.x, b.y.y * v.y, b.z.y * v.z, b.w.y * v.w);
        lemma_times_sum4(a.z.x, b.x.z * v.x, b.y.z * v.y, b.z.z * v.z, b.w.z * v.w);
        lemma_times_sum4(a.w.x, b.x.w * v.x, b.y.w * v.y, b.z.w * v.z, b.w.w * v.w);
        lemma_sum4_times(a.x.y * b.x.x, a.y.y * b.x.y, a.z.y * b.x.z, a.w.y * b.x.w, v.x);
        lemma_product_assoc(a.x.y, b.x.x, v.x);
        lemma_product_assoc(a.y.y, b.x.y, v.x);
        lemma_product_assoc(a.z.y, b.x.z, v.x);
        lemma_product_assoc(a.w.y, b.x.w, v.x);
        lemma_sum4_times(a.x.y * b.y.x, a.y.y * b.y.y, a.z.y * b.y.z, a.w.y * b.y.w, v.y);
        lemma_product_assoc(a.x.y, b.y.x, v.y);
        lemma_product_assoc(a.y.y, b.y.y, v.y);
        lemma_product_assoc(a.z.y, b.y.z, v.y);
        lemma_product_assoc(a.w.y, b.y.w, v.y);
        lemma_sum4_times(a.x.y * b.z.x, a.y.y * b.z.y, a.z.y * b.z.z, a.w.y * b.z.w, v.z);
        lemma_product_assoc(a.x.y, b.z.x, v.z);
        lemma_product_assoc(a.y.y, b.z.y, v.z);
        lemma_product_assoc(a.z.y, b.z.z, v.z);
        lemma_product_assoc(a.w.y, b.z.w, v.z);
        lemma_sum4_times(a.x.y * b.w.x, a.y.y * b.w.y, a.z.y * b.w.z, a.w.y * b.w.w, v.w);
        lemma_product_assoc(a.x.y, b.w.x, v.w);
        lemma_product_assoc(a.y.y, b.w.y, v.w);
        lemma_product_assoc(a.z.y, b.w.z, v.w);
        lemma_product_assoc(a.w.y, b.w.w, v.w);
        lemma_times_sum4(a.x.y, b.x.x * v.x, b.y.x * v.y, b.z.x * v.z, b.w.x * v.w);
        lemma_times_sum4(a.y.y, b.x.y * v.x, b.y.y * v.y, b.z.y * v.z, b.w.y * v.w);
        lemma_times_sum4(a.z.y, b.x.z * v.x, b.y.z * v.y, b.z.z * v.z, b.w.z * v.w);
        lemma_times_sum4(a.w.y, b.x.w * v.x, b.y.w * v.y, b.z.w * v.z, b.w.w * v.w);
        lemma_sum4_times(a.x.z * b.x.x, a.y.z * b.x.y, a.z.z * b.x.z, a.w.z * b.x.w, v.x);
        lemma_product_assoc(a.x.z, b.x.x, v.x);
        lemma_product_assoc(a.y.z, b.x.y, v.x);
        lemma_product_assoc(a.z.z, b.x.z, v.x);
        lemma_product_assoc(a.w.z, b.x.w, v.x);
        lemma_sum4_times(a.x.z * b.y.x, a.y.z * b.y.y, a.z.z * b.y.z, a.w.z * b.y.w, v.y);
        lemma_product_assoc(a.x.z, b.y.x, v.y);
        lemma_product_assoc(a.y.z, b.y.y, v.y);
        lemma_product_assoc(a.z.z, b.y.z, v.y);
        lemma_product_assoc(a.w.z, b.y.w, v.y);
        lemma_sum4_times(a.x.z * b.z.x, a.y.z * b.z.y, a.z.z * b.z.z, a.w.z * b.z.w, v.z);
        lemma_product_assoc(a.x.z, b.z.x, v.z);
        lemma_product_assoc(a.y.z, b.z.y, v.z);
        lemma_product_assoc(a.z.z, b.z.z, v.z);
        lemma_product_assoc(a.w.z, b.z.w, v.z);
        lemma_sum4_times(a.x.z * b.w.x, a.y.z * b.w.y, a.z.z * b.w.z, a.w.z * b.w.w, v.w);
        lemma_product_assoc(a.x.z, b.w.x, v.w);
        lemma_product_assoc(a.y.z, b.w.y, v.w);
        lemma_product_assoc(a.z.z, b.w.z, v.w);
        lemma_product_assoc(a.w.z, b.w.w, v.w);
        lemma_times_sum4(a.x.z, b.x.x * v.x, b.y.x * v.y, b.z.x * v.z, b.w.x * v.w);
        lemma_times_sum4(a.y.z, b.x.y * v.x, b.y.y * v.y, b.z.y * v.z, b.w.y * v.w);
        lemma_times_sum4(a.z.z, b.x.z * v.x, b.y.z * v.y, b.z.z * v.z, b.w.z * v.w);
        lemma_times_sum4(a.w.z, b.x.w * v.x, b.y.w * v.y, b.z.w * v.z, b.w.w * v.w);
        lemma_sum4_times(a.x.w * b.x.x, a.y.w * b.x.y, a.z.w * b.x.z, a.w.w * b.x.w, v.x);
        lemma_product_assoc(a.x.w, b.x.x, v.x);
        lemma_product_assoc(a.y.w, b.x.y, v.x);
        lemma_product_assoc(a.z.w, b.x.z, v.x);
        lemma_product_assoc(a.w.w, b.x.w, v.x);
        lemma_sum4_times(a.x.w * b.y.x, a.y.w * b.y.y, a.z.w * b.y.z, a.w.w * b.y.w, v.y);
        lemma_product_assoc(a.x.w, b.y.x, v.y);
        lemma_product_assoc(a.y.w, b.y.y, v.y);
        lemma_product_assoc(a.z.w, b.y.z, v.y);
        lemma_product_assoc(a.w.w, b.y.w, v.y);
        lemma_sum4_times(a.x.w * b.z.x, a.y.w * b.z.y, a.z.w * b.z.z, a.w.w * b.z.w, v.z);
        lemma_product_assoc(a.x.w, b.z.x, v.z);
        lemma_product_assoc(a.y.w, b.z.y, v.z);
        lemma_product_assoc(a.z.w, b.z.z, v.z);
        lemma_product_assoc(a.w.w, b.z.w, v.z);
        lemma_sum4_times(a.x.w * b.w.x, a.y.w * b.w.y, a.z.w * b.w.z, a.w.w * b.w.w, v.w);
        lemma_product_assoc(a.x.w, b.w.x, v.w);
        lemma_product_assoc(a.y.w, b.w.y, v.w);
        lemma_product_assoc(a.z.w, b.w.z, v.w);
        lemma_product_assoc(a.w.w, b.w.w, v.w);
        lemma_times_sum4(a.x.w, b.x.x * v.x, b.y.x * v.y, b.z.x * v.z, b.w.x * v.w);
        lemma_times_sum4(a.y.w, b.x.y * v.x, b.y.y * v.y, b.z.y * v.z, b.w.y * v.w);
        lemma_times_sum4(a.z.w, b.x.z * v.x, b.y.z * v.y, b.z.z * v.z, b.w.z * v.w);
        lemma_times_sum4(a.w.w, b.x.w * v.x, b.y.w * v.y, b.z.w * v.z, b.w.w * v.w);
    }

    /// Transposing twice gives the matrix back.
    pub proof fn lemma_transposed_twice(m: Mat4x4<int>)
        ensures
            m.transposed().transposed() == m,
    {
    }

    /// The identity matrix has determinant one and the zero matrix has
    /// determinant zero, so that the inverse of the zero matrix is the
    /// identity matrix.
    pub proof fn lemma_det_of_identity_and_zeros()
        ensures
            Mat4x4::<int>::identity().det() == 1,
            Mat4x4::<int>::zeros().det() == 0,
            Mat4x4::<int>::zeros().inverse() == Mat4x4::<int>::identity(),
    {
        broadcast use vstd::arithmetic::mul::group_mul_basics;

        assert(Mat4x4::<int>::identity().minor(0, 0) == Mat3x3::<int>::identity());
        assert(Mat4x4::<int>::zeros().minor(0, 0) == Mat3x3::<int>::zeros());
        Mat3x3::<int>::lemma_det_of_identity_and_zeros();
    }

    /// A matrix whose determinant is zero has the identity matrix as its
    /// inverse.
    pub proof fn lemma_inverse_of_singular(m: Mat4x4<int>)
        requires
            m.det() == 0,
        ensures
            m.inverse() == Mat4x4::<int>::identity(),
    {
    }

    /// The linear part of the matrix made from `m` is `m`.
    pub proof fn lemma_linear_of_affine(m: Mat3x3<int>)
        ensures
            Mat4x4::<int>::embedded(m).linear() == m,
    {
    }

    /// The determinants of the minors of the first row are their
    /// expansions along the second row of the matrix.
    pub proof fn lemma_minors_of_row_0(s: Mat4x4<int>)
        ensures
            s.expansion(1, 2, 3, 1, 2, 3) == s.minor(0, 0).det(),
            s.expansion(1, 2, 3, 0, 2, 3) == s.minor(0, 1).det(),
            s.expansion(1, 2, 3, 0, 1, 3) == s.minor(0, 2).det(),
            s.expansion(1, 2, 3, 0, 1, 2) == s.minor(0, 3).det(),
    {
        let e = s.x.y;
        let f = s.y.y;
        let g = s.z.y;
        let h = s.w.y;
        let i = s.x.z;
        let j = s.y.z;
        let k = s.z.z;
        let l = s.w.z;
        let m = s.x.w;
        let n = s.y.w;
        let o = s.z.w;
        let p = s.w.w;
        lemma_times_minor2(f, k, p, o, l);
        lemma_product3(f, k, p);
        lemma_product3(f, o, l);
        lemma_times_minor2(j, o, h, g, p);
        lemma_product3(j, o, h);
        lemma_product3(j, g, p);
        lemma_times_minor2(n, g, l, k, h);
        lemma_product3(n, g, l);
        lemma_product3(n, k, h);
        lemma_times_minor2(g, j, p, n, l);
        lemma_product3(g, j, p);
        lemma_product3(g, n, l);
        lemma_times_minor2(h, j, o, n, k);
        lemma_product3(h, j, o);
        lemma_product3(h, n, k);
        lemma_times_minor2(e, k, p, o, l);
        lemma_product3(e, k, p);
        lemma_product3(e, o, l);
        lemma_times_minor2(i, o, h, g, p);
        lemma_product3(i, o, h);
        lemma_product3(i, g, p);
        lemma_times_minor2(m, g, l, k, h);
        lemma_product3(m, g, l);
        lemma_product3(m, k, h);
        lemma_times_minor2(g, i, p, m, l);
        lemma_product3(g, i, p);
        lemma_product3(g, m, l);
        lemma_times_minor2(h, i, o, m, k);
        lemma_product3(h, i, o);
        lemma_product3(h, m, k);
        lemma_times_minor2(e, j, p, n, l);
        lemma_product3(e, j, p);
        lemma_product3(e, n, l);
        lemma_times_minor2(i, n, h, f, p);
        lemma_product3(i, n, h);
        lemma_product3(i, f, p);
        lemma_times_minor2(m, f, l, j, h);
        lemma_product3(m, f, l);
        lemma_product3(m, j, h);
        lemma_times_minor2(f, i, p, m, l);
        lemma_product3(f, i, p);
        lemma_product3(f, m, l);
        lemma_times_minor2(h, i, n, m, j);
        lemma_product3(h, i, n);
        lemma_product3(h, m, j);
        lemma_times_minor2(e, j, o, n, k);
        lemma_product3(e, j, o);
        lemma_product3(e, n, k);
        lemma_times_minor2(i, n, g, f, o);
        lemma_product3(i, n, g);
        lemma_product3(i, f, o);
        lemma_times_minor2(m, f, k, j, g);
        lemma_product3(m, f, k);
        lemma_product3(m, j, g);
        lemma_times_minor2(f, i, o, m, k);
        lemma_product3(f, i, o);
        lemma_product3(f, m, k);
        lemma_times_minor2(g, i, n, m, j);
        lemma_product3(g, i, n);
        lemma_product3(g, m, j);
    }

    /// The determinants of the minors of the second row are their
    /// expansions along the first row of the matrix.
    pub proof fn lemma_minors_of_row_1(s: Mat4x4<int>)
        ensures
            s.expansion(0, 2, 3, 1, 2, 3) == s.minor(1, 0).det(),
            s.expansion(0, 2, 3, 0, 2, 3) == s.minor(1, 1).det(),
            s.expansion(0, 2, 3, 0, 1, 3) == s.minor(1, 2).det(),
            s.expansion(0, 2, 3, 0, 1, 2) == s.minor(1, 3).det(),
    {
        let a = s.x.x;
        let b = s.y.x;
        let c = s.z.x;
        let d = s.w.x;
        let i = s.x.z;
        let j = s.y.z;
        let k = s.z.z;
        let l = s.w.z;
        let m = s.x.w;
        let n = s.y.w;
        let o = s.z.w;
        let p = s.w.w;
        lemma_times_minor2(b, k, p, o, l);
        lemma_product3(b, k, p);
        lemma_product3(b, o, l);
        lemma_times_minor2(j, o, d, c, p);
        lemma_product3(j, o, d);
        lemma_product3(j, c, p);
        lemma_times_minor2(n, c, l, k, d);
        lemma_product3(n, c, l);
        lemma_product3(n, k, d);
        lemma_times_minor2(c, j, p, n, l);
        lemma_product3(c, j, p);
        lemma_product3(c, n, l);
        lemma_times_minor2(d, j, o, n, k);
        lemma_product3(d, j, o);
        lemma_product3(d, n, k);
        lemma_times_minor2(a, k, p, o, l);
        lemma_product3(a, k, p);
        lemma_product3(a, o, l);
        lemma_times_minor2(i, o, d, c, p);
        lemma_product3(i, o, d);
        lemma_product3(i, c, p);
        lemma_times_minor2(m, c, l, k, d);
        lemma_product3(m, c, l);
        lemma_product3(m, k, d);
        lemma_times_minor2(c, i, p, m, l);
        lemma_product3(c, i, p);
        lemma_product3(c, m, l);
        lemma_times_minor2(d, i, o, m, k);
        lemma_product3(d, i, o);
        lemma_product3(d, m, k);
        lemma_times_minor2(a, j, p, n, l);
        lemma_product3(a, j, p);
        lemma_product3(a, n, l);
        lemma_times_minor2(i, n, d, b, p);
        lemma_product3(i, n, d);
        lemma_product3(i, b, p);
        lemma_times_minor2(m, b, l, j, d);
        lemma_product3(m, b, l);
        lemma_product3(m, j, d);
        lemma_times_minor2(b, i, p, m, l);
        lemma_product3(b, i, p);
        lemma_product3(b, m, l);
        lemma_times_minor2(d, i, n, m, j);
        lemma_product3(d, i, n);
        lemma_product3(d, m, j);
        lemma_times_minor2(a, j, o, n, k);
        lemma_product3(a, j, o);
        lemma_product3(a, n, k);
        lemma_times_minor2(i, n, c, b, o);
        lemma_product3(i, n, c);
        lemma_product3(i, b, o);
        lemma_times_minor2(m, b, k, j, c);
        lemma_product3(m, b, k);
        lemma_product3(m, j, c);
        lemma_times_minor2(b, i, o, m, k);
        lemma_product3(b, i, o);
        lemma_product3(b, m, k);
        lemma_times_minor2(c, i, n, m, j);
        lemma_product3(c, i, n);
        lemma_product3(c, m, j);
    }

    /// The determinants of the minors of the third row are their
    /// expansions along the fourth row of the matrix.
    pub proof fn lemma_minors_of_row_2(s: Mat4x4<int>)
        ensures
            s.expansion(3, 0, 1, 1, 2, 3) == s.minor(2, 0).det(),
            s.expansion(3, 0, 1, 0, 2, 3) == s.minor(2, 1).det(),
            s.expansion(3, 0, 1, 0, 1, 3) == s.minor(2, 2).det(),
            s.expansion(3, 0, 1, 0, 1, 2) == s.minor(2, 3).det(),
    {
        let a = s.x.x;
        let b = s.y.x;
        let c = s.z.x;
        let d = s.w.x;
        let e = s.x.y;
        let f = s.y.y;
        let g = s.z.y;
        let h = s.w.y;
        let m = s.x.w;
        let n = s.y.w;
        let o = s.z.w;
        let p = s.w.w;
        lemma_times_minor2(b, g, p, o, h);
        lemma_product3(b, g, p);
        lemma_product3(b, o, h);
        lemma_times_minor2(f, o, d, c, p);
        lemma_product3(f, o, d);
        lemma_product3(f, c, p);
        lemma_times_minor2(n, c, h, g, d);
        lemma_product3(n, c, h);
        lemma_product3(n, g, d);
        lemma_times_minor2(o, b, h, f, d);
        lemma_product3(o, b, h);
        lemma_product3(o, f, d);
        lemma_times_minor2(p, b, g, f, c);
        lemma_product3(p, b, g);
        lemma_product3(p, f, c);
        lemma_times_minor2(a, g, p, o, h);
        lemma_product3(a, g, p);
        lemma_product3(a, o, h);
        lemma_times_minor2(e, o, d, c, p);
        lemma_product3(e, o, d);
        lemma_product3(e, c, p);
        lemma_times_minor2(m, c, h, g, d);
        lemma_product3(m, c, h);
        lemma_product3(m, g, d);
        lemma_times_minor2(o, a, h, e, d);
        lemma_product3(o, a, h);
        lemma_product3(o, e, d);
        lemma_times_minor2(p, a, g, e, c);
        lemma_product3(p, a, g);
        lemma_product3(p, e, c);
        lemma_times_minor2(a, f, p, n, h);
        lemma_product3(a, f, p);
        lemma_product3(a, n, h);
        lemma_times_minor2(e, n, d, b, p);
        lemma_product3(e, n, d);
        lemma_product3(e, b, p);
        lemma_times_minor2(m, b, h, f, d);
        lemma_product3(m, b, h);
        lemma_product3(m, f, d);
        lemma_times_minor2(n, a, h, e, d);
        lemma_product3(n, a, h);
        lemma_product3(n, e, d);
        lemma_times_minor2(p, a, f, e, b);
        lemma_product3(p, a, f);
        lemma_product3(p, e, b);
        lemma_times_minor2(a, f, o, n, g);
        lemma_product3(a, f, o);
        lemma_product3(a, n, g);
        lemma_times_minor2(e, n, c, b, o);
        lemma_product3(e, n, c);
        lemma_product3(e, b, o);
        lemma_times_minor2(m, b, g, f, c);
        lemma_product3(m, b, g);
        lemma_product3(m, f, c);
        lemma_times_minor2(n, a, g, e, c);
        lemma_product3(n, a, g);
        lemma_product3(n, e, c);
        lemma_times_minor2(o, a, f, e, b);
        lemma_product3(o, a, f);
        lemma_product3(o, e, b);
    }

    /// The determinants of the minors of the fourth row are their
    /// expansions along the third row of the matrix.
    pub proof fn lemma_minors_of_row_3(s: Mat4x4<int>)
        ensures
            s.expansion(2, 0, 1, 1, 2, 3) == s.minor(3, 0).det(),
            s.expansion(2, 0, 1, 0, 2, 3) == s.minor(3, 1).det(),
            s.expansion(2, 0, 1, 0, 1, 3) == s.minor(3, 2).det(),
            s.expansion(2, 0, 1, 0, 1, 2) == s.minor(3, 3).det(),
    {
        let a = s.x.x;
        let b = s.y.x;
        let c = s.z.x;
        let d = s.w.x;
        let e = s.x.y;
        let f = s.y.y;
        let g = s.z.y;
        let h = s.w.y;
        let i = s.x.z;
        let j = s.y.z;
        let k = s.z.z;
        let l = s.w.z;
        lemma_times_minor2(b, g, l, k, h);
        lemma_product3(b, g, l);
        lemma_product3(b, k, h);
        lemma_times_minor2(f, k, d, c, l);
        lemma_product3(f, k, d);
        lemma_product3(f, c, l);
        lemma_times_minor2(j, c, h, g, d);
        lemma_product3(j, c, h);
        lemma_product3(j, g, d);
        lemma_times_minor2(k, b, h, f, d);
        lemma_product3(k, b, h);
        lemma_product3(k, f, d);
        lemma_times_minor2(l, b, g, f, c);
        lemma_product3(l, b, g);
        lemma_product3(l, f, c);
        lemma_times_minor2(a, g, l, k, h);
        lemma_product3(a, g, l);
        lemma_product3(a, k, h);
        lemma_times_minor2(e, k, d, c, l);
        lemma_product3(e, k, d);
        lemma_product3(e, c, l);
        lemma_times_minor2(i, c, h, g, d);
        lemma_product3(i, c, h);
        lemma_product3(i, g, d);
        lemma_times_minor2(k, a, h, e, d);
        lemma_product3(k, a, h);
        lemma_product3(k, e, d);
        lemma_times_minor2(l, a, g, e, c);
        lemma_product3(l, a, g);
        lemma_product3(l, e, c);
        lemma_times_minor2(a, f, l, j, h);
        lemma_product3(a, f, l);
        lemma_product3(a, j, h);
        lemma_times_minor2(e, j, d, b, l);
        lemma_product3(e, j, d);
        lemma_product3(e, b, l);
        lemma_times_minor2(i, b, h, f, d);
        lemma_product3(i, b, h);
        lemma_product3(i, f, d);
        lemma_times_minor2(j, a, h, e, d);
        lemma_product3(j, a, h);
        lemma_product3(j, e, d);
        lemma_times_minor2(l, a, f, e, b);
        lemma_product3(l, a, f);
        lemma_product3(l, e, b);
        lemma_times_minor2(a, f, k, j, g);
        lemma_product3(a, f, k);
        lemma_product3(a, j, g);
        lemma_times_minor2(e, j, c, b, k);
        lemma_product3(e, j, c);
        lemma_product3(e, b, k);
        lemma_times_minor2(i, b, g, f, c);
        lemma_product3(i, b, g);
        lemma_product3(i, f, c);
        lemma_times_minor2(j, a, g, e, c);
        lemma_product3(j, a, g);
        lemma_product3(j, e, c);
        lemma_times_minor2(k, a, f, e, b);
        lemma_product3(k, a, f);
        lemma_product3(k, e, b);
    }
}

impl<T> Mat4x4<T> {
    /// The matrix of the given columns.
    pub fn new(x: XYZW<T>, y: XYZW<T>, z: XYZW<T>, w: XYZW<T>) -> (r: Mat4x4<T>)
        ensures
            r == (Mat4x4 { x, y, z, w }),
    {
        Mat4x4 { x, y, z, w }
    }
}

impl<T: Integer> Mat4x4<T> {
    /// The matrix of `T` whose view is `m`, where there is one.
    pub open spec fn with_view(m: Mat4x4<int>) -> Mat4x4<T> {
        choose|r: Mat4x4<T>| r@ == m
    }

    /// Equal views belong to equal values.
    pub proof fn lemma_view_injective(a: Mat4x4<T>, b: Mat4x4<T>)
        ensures
            a@ == b@ ==> a == b,
    {
        XYZW::lemma_view_injective(a.x, b.x);
        XYZW::lemma_view_injective(a.y, b.y);
        XYZW::lemma_view_injective(a.z, b.z);
        XYZW::lemma_view_injective(a.w, b.w);
    }

    /// A value is the one that has its view.
    pub proof fn lemma_with_view(self)
        ensures
            Self::with_view(self@) == self,
    {
        Self::lemma_view_injective(Self::with_view(self@), self);
    }

    /// Appends the text of the matrix to `out`.
    pub fn append_to(&self, out: &mut Vec<char>)
        ensures
            final(out)@ == old(out)@ + self@.text(),
    {
        out.push('(');
        let ghost mut done = seq!['('];
        self.x.append_to(out);
        out.push(';');
        out.push(' ');
        proof {
            done = done + self@.x.text() + seq![';', ' '];
            assert(out@ =~= old(out)@ + done);
        }
        self.y.append_to(out);
        out.push(';');
        out.push(' ');
        proof {
            done = done + self@.y.text() + seq![';', ' '];
            assert(out@ =~= old(out)@ + done);
        }
        self.z.append_to(out);
        out.push(';');
        out.push(' ');
        proof {
            done = done + self@.z.text() + seq![';', ' '];
            assert(out@ =~= old(out)@ + done);
        }
        self.w.append_to(out);
        out.push(';');
        out.push(')');
        proof {
            done = done + self@.w.text() + seq![';', ')'];
            assert(out@ =~= old(out)@ + done);
        }
    }

    /// The matrix as text.
    pub fn to_string(&self) -> (s: String)
        ensures
            s@ == self@.text(),
    {
        let mut out: Vec<char> = Vec::new();
        self.append_to(&mut out);
        assert(out@ =~= self@.text());
        string_of(&out)
    }

    /// The view of the zero matrix is all zeros.
    pub proof fn lemma_zero_view()
        ensures
            Self::zero_spec()@ == Mat4x4::<int>::zeros(),
    {
        XYZW::<T>::lemma_zero_view();
    }

    /// The view of the unit matrix is the identity matrix.
    pub proof fn lemma_one_view()
        ensures
            Self::one_spec()@ == Mat4x4::<int>::identity(),
    {
        T::lemma_integer(T::zero_spec(), T::one_spec());
    }

    /// The determinant.
    pub fn det(&self) -> (r: T)
        requires
            self@.det_fits::<T>(),
        ensures
            r.value() == self@.det(),
    {
        proof {
            Mat4x4::<int>::lemma_minors_of_row_0(self@);
        }
        // the rows of the matrix are (a b c d), (e f g h), (i j k l), (m n o p)
        let a = self.x.x;
        let b = self.y.x;
        let c = self.z.x;
        let d = self.w.x;
        let e = self.x.y;
        let f = self.y.y;
        let g = self.z.y;
        let h = self.w.y;
        let i = self.x.z;
        let j = self.y.z;
        let k = self.z.z;
        let l = self.w.z;
        let m = self.x.w;
        let n = self.y.w;
        let o = self.z.w;
        let p = self.w.w;
        let kpol = minor2_of(k, p, o, l);
        let jpnl = minor2_of(j, p, n, l);
        let jonk = minor2_of(j, o, n, k);
        let ipml = minor2_of(i, p, m, l);
        let iomk = minor2_of(i, o, m, k);
        let inmj = minor2_of(i, n, m, j);
        let cofa = expand3_of(f, kpol, g, jpnl, h, jonk);
        let cofb = expand3_of(e, kpol, g, ipml, h, iomk);
        let cofc = expand3_of(e, jpnl, f, ipml, h, inmj);
        let cofd = expand3_of(e, jonk, f, iomk, g, inmj);
        expand4_of(a, cofa, b, cofb, c, cofc, d, cofd)
    }

    /// The matrix with rows and columns exchanged.
    pub fn transpose(&self) -> (r: Mat4x4<T>)
        ensures
            r@ == self@.transposed(),
    {
        Mat4x4 {
            x: XYZW { x: self.x.x, y: self.y.x, z: self.z.x, w: self.w.x },
            y: XYZW { x: self.x.y, y: self.y.y, z: self.z.y, w: self.w.y },
            z: XYZW { x: self.x.z, y: self.y.z, z: self.z.z, w: self.w.z },
            w: XYZW { x: self.x.w, y: self.y.w, z: self.z.w, w: self.w.w },
        }
    }

    /// The matrix that acts as `m` on the first three components and leaves
    /// the fourth alone.
    pub fn affine(m: Mat3x3<T>) -> (r: Mat4x4<T>)
        ensures
            r@ == Mat4x4::<int>::embedded(m@),
    {
        let o = zero_of::<T>();
        let l = one_of::<T>();
        Mat4x4 {
            x: XYZW { x: m.x.x, y: m.x.y, z: m.x.z, w: o },
            y: XYZW { x: m.y.x, y: m.y.y, z: m.y.z, w: o },
            z: XYZW { x: m.z.x, y: m.z.y, z: m.z.z, w: o },
            w: XYZW { x: o, y: o, z: o, w: l },
        }
    }

    /// The matrix that moves every point by `t`.
    pub fn translate(t: XYZ<T>) -> (r: Mat4x4<T>)
        ensures
            r@ == Mat4x4::<int>::translation(t@),
    {
        let o = zero_of::<T>();
        let l = one_of::<T>();
        Mat4x4 {
            x: XYZW { x: l, y: o, z: o, w: o },
            y: XYZW { x: o, y: l, z: o, w: o },
            z: XYZW { x: o, y: o, z: l, w: o },
            w: XYZW { x: t.x, y: t.y, z: t.z, w: l },
        }
    }

    /// The matrix that scales the three axes by the components of `s`.
    pub fn scale(s: XYZ<T>) -> (r: Mat4x4<T>)
        ensures
            r@ == Mat4x4::<int>::embedded(Mat3x3::<int>::diagonal(s@)),
    {
        Mat4x4::affine(Mat3x3::scale(s))
    }

    /// The rotation that belongs to the quaternion with the vector part
    /// `(r, i, j)` and the scalar part `k`, as `Mat3x3::rotate` gives it.
    pub fn rotate(r: T, i: T, j: T, k: T) -> (m: Mat4x4<T>)
        requires
            Mat3x3::<int>::rotate_fits::<T>(r.value(), i.value(), j.value(), k.value()),
        ensures
            m@ == Mat4x4::<int>::embedded(
                Mat3x3::<int>::rotation(r.value(), i.value(), j.value(), k.value()),
            ),
    {
        Mat4x4::affine(Mat3x3::rotate(r, i, j, k))
    }
}

/// The component of `v` of index `row`, counted from zero.
pub open spec fn component(v: XYZW<int>, row: int) -> int {
    if row == 0 {
        v.x
    } else if row == 1 {
        v.y
    } else if row == 2 {
        v.z
    } else {
        v.w
    }
}

/// The index that the place `i` has once the index `k` is taken out of the
/// row of indices.
pub open spec fn skip(k: int, i: int) -> int {
    if i < k {
        i
    } else {
        i + 1
    }
}

impl<T: Signed> Mat4x4<T> {
    /// The inverse: the adjugate divided by the determinant, or the unit
    /// matrix where the determinant is zero.
    pub fn inverse(&self) -> (r: Mat4x4<T>)
        requires
            self@.inverse_fits::<T>(),
        ensures
            r@ == self@.inverse(),
    {
        proof {
            Mat4x4::<int>::lemma_minors_of_row_0(self@);
        }
        // the rows of the matrix are (a b c d), (e f g h), (i j k l), (m n o p)
        let a = self.x.x;
        let b = self.y.x;
        let c = self.z.x;
        let d = self.w.x;
        let e = self.x.y;
        let f = self.y.y;
        let g = self.z.y;
        let h = self.w.y;
        let i = self.x.z;
        let j = self.y.z;
        let k = self.z.z;
        let l = self.w.z;
        let m = self.x.w;
        let n = self.y.w;
        let o = self.z.w;
        let p = self.w.w;
        let kpol = minor2_of(k, p, o, l);
        let jpnl = minor2_of(j, p, n, l);
        let jonk = minor2_of(j, o, n, k);
        let ipml = minor2_of(i, p, m, l);
        let iomk = minor2_of(i, o, m, k);
        let inmj = minor2_of(i, n, m, j);
        let cofa = expand3_of(f, kpol, g, jpnl, h, jonk);
        let cofb = expand3_of(e, kpol, g, ipml, h, iomk);
        let cofc = expand3_of(e, jpnl, f, ipml, h, inmj);
        let cofd = expand3_of(e, jonk, f, iomk, g, inmj);
        let nd = expand4_of(a, cofa, b, cofb, c, cofc, d, cofd);
        if !nd.is_zero() {
            proof {
                Mat4x4::<int>::lemma_minors_of_row_1(self@);
                Mat4x4::<int>::lemma_minors_of_row_2(self@);
                Mat4x4::<int>::lemma_minors_of_row_3(self@);
            }
            let chgd = minor2_of(c, h, g, d);
            let bhfd = minor2_of(b, h, f, d);
            let bgfc = minor2_of(b, g, f, c);
            let ahed = minor2_of(a, h, e, d);
            let agec = minor2_of(a, g, e, c);
            let afeb = minor2_of(a, f, e, b);
            let cofe = expand3_of(b, kpol, c, jpnl, d, jonk);
            let coff = expand3_of(a, kpol, c, ipml, d, iomk);
            let cofg = expand3_of(a, jpnl, b, ipml, d, inmj);
            let cofh = expand3_of(a, jonk, b, iomk, c, inmj);
            let cofi = expand3_of(n, chgd, o, bhfd, p, bgfc);
            let cofj = expand3_of(m, chgd, o, ahed, p, agec);
            let cofk = expand3_of(m, bhfd, n, ahed, p, afeb);
            let cofl = expand3_of(m, bgfc, n, agec, o, afeb);
            let cofm = expand3_of(j, chgd, k, bhfd, l, bgfc);
            let cofn = expand3_of(i, chgd, k, ahed, l, agec);
            let cofo = expand3_of(i, bhfd, j, ahed, l, afeb);
            let cofp = expand3_of(i, bgfc, j, agec, k, afeb);
            let adjugate = Mat4x4 {
                x: XYZW {
                    x: cofa,
                    y: cofb.negated(),
                    z: cofc,
                    w: cofd.negated(),
                },
                y: XYZW {
                    x: cofe.negated(),
                    y: coff,
                    z: cofg.negated(),
                    w: cofh,
                },
                z: XYZW {
                    x: cofi,
                    y: cofj.negated(),
                    z: cofk,
                    w: cofl.negated(),
                },
                w: XYZW {
                    x: cofm.negated(),
                    y: cofn,
                    z: cofo.negated(),
                    w: cofp,
                },
            };
            adjugate / nd
        } else {
            proof {
                Self::lemma_one_view();
            }
            Mat4x4::one()
        }
    }

    /// The orthographic projection of the box between `l` and `r`, `b` and
    /// `t`, `n` and `f`.
    pub fn ortho(l: T, r: T, b: T, t: T, n: T, f: T) -> (m: Mat4x4<T>)
        requires
            Mat4x4::<int>::orthographic_fits::<T>(
                l.value(),
                r.value(),
                b.value(),
                t.value(),
                n.value(),
                f.value(),
            ),
        ensures
            m@ == Mat4x4::<int>::orthographic(
                l.value(),
                r.value(),
                b.value(),
                t.value(),
                n.value(),
                f.value(),
            ),
    {
        let o = zero_of::<T>();
        let one = one_of::<T>();
        let two = one.plus(one);
        let dx = r.minus(l);
        let dy = t.minus(b);
        let dz = f.minus(n);
        let rx = r.plus(l).negated().over(dx);
        let ry = t.plus(b).negated().over(dy);
        let rz = f.plus(n).negated().over(dz);
        Mat4x4 {
            x: XYZW { x: two.over(dx), y: o, z: o, w: o },
            y: XYZW { x: o, y: two.over(dy), z: o, w: o },
            z: XYZW { x: o, y: o, z: two.negated().over(dz), w: o },
            w: XYZW { x: rx, y: ry, z: rz, w: one },
        }
    }

    /// The perspective projection between the distances `n` and `f`, where
    /// `q` is the cotangent of half the vertical field of view and `aspect`
    /// is the width of the view over its height.
    pub fn perspective(q: T, aspect: T, n: T, f: T) -> (m: Mat4x4<T>)
        requires
            Mat4x4::<int>::projection_fits::<T>(q.value(), aspect.value(), n.value(), f.value()),
        ensures
            m@ == Mat4x4::<int>::projection(q.value(), aspect.value(), n.value(), f.value()),
    {
        let o = zero_of::<T>();
        let one = one_of::<T>();
        let two = one.plus(one);
        let nf = n.minus(f);
        Mat4x4 {
            x: XYZW { x: q.over(aspect), y: o, z: o, w: o },
            y: XYZW { x: o, y: q, z: o, w: o },
            z: XYZW { x: o, y: o, z: f.plus(n).over(nf), w: one.negated() },
            w: XYZW { x: o, y: o, z: two.times(f).times(n).over(nf), w: o },
        }
    }

    /// The rotation about the `x` axis by an angle, given the sine `sa` and
    /// the cosine `ca` of the angle.
    pub fn pitch(sa: T, ca: T) -> (r: Mat4x4<T>)
        requires
            in_range::<T>(-sa.value()),
        ensures
            r@ == Mat4x4::<int>::embedded(Mat3x3::<int>::about_x(sa.value(), ca.value())),
    {
        Mat4x4::affine(Mat3x3::pitch(sa, ca))
    }

    /// The rotation about the `y` axis by an angle, given the sine `sa` and
    /// the cosine `ca` of the angle.
    pub fn yaw(sa: T, ca: T) -> (r: Mat4x4<T>)
        requires
            in_range::<T>(-sa.value()),
        ensures
            r@ == Mat4x4::<int>::embedded(Mat3x3::<int>::about_y(sa.value(), ca.value())),
    {
        Mat4x4::affine(Mat3x3::yaw(sa, ca))
    }

    /// The rotation about the `z` axis by an angle, given the sine `sa` and
    /// the cosine `ca` of the angle.
    pub fn roll(sa: T, ca: T) -> (r: Mat4x4<T>)
        requires
            in_range::<T>(-sa.value()),
        ensures
            r@ == Mat4x4::<int>::embedded(Mat3x3::<int>::about_z(sa.value(), ca.value())),
    {
        Mat4x4::affine(Mat3x3::roll(sa, ca))
    }
}

impl<T: Integer> Zero for Mat4x4<T> {
    open spec fn zero_spec() -> Mat4x4<T> {
        Mat4x4 {
            x: XYZW::<T>::zero_spec(),
            y: XYZW::<T>::zero_spec(),
            z: XYZW::<T>::zero_spec(),
            w: XYZW::<T>::zero_spec(),
        }
    }

    fn zero() -> (r: Mat4x4<T>) {
        Mat4x4 { x: XYZW::zero(), y: XYZW::zero(), z: XYZW::zero(), w: XYZW::zero() }
    }
}

impl<T: Integer> One for Mat4x4<T> {
    open spec fn one_spec() -> Mat4x4<T> {
        Mat4x4 {
            x: XYZW { x: T::one_spec(), y: T::zero_spec(), z: T::zero_spec(), w: T::zero_spec() },
            y: XYZW { x: T::zero_spec(), y: T::one_spec(), z: T::zero_spec(), w: T::zero_spec() },
            z: XYZW { x: T::zero_spec(), y: T::zero_spec(), z: T::one_spec(), w: T::zero_spec() },
            w: XYZW { x: T::zero_spec(), y: T::zero_spec(), z: T::zero_spec(), w: T::one_spec() },
        }
    }

    fn one() -> (r: Mat4x4<T>) {
        Mat4x4 {
            x: XYZW { x: T::one(), y: T::zero(), z: T::zero(), w: T::zero() },
            y: XYZW { x: T::zero(), y: T::one(), z: T::zero(), w: T::zero() },
            z: XYZW { x: T::zero(), y: T::zero(), z: T::one(), w: T::zero() },
            w: XYZW { x: T::zero(), y: T::zero(), z: T::zero(), w: T::one() },
        }
    }
}

impl<T: Integer> PartialEq for Mat4x4<T> {
    fn eq(&self, other: &Mat4x4<T>) -> (r: bool) {
        self.x == other.x && self.y == other.y && self.z == other.z && self.w == other.w
    }
}

impl<T: Integer> vstd::std_specs::cmp::PartialEqSpecImpl for Mat4x4<T> {
    open spec fn obeys_eq_spec() -> bool {
        true
    }

    open spec fn eq_spec(&self, other: &Mat4x4<T>) -> bool {
        self@ == other@
    }
}

impl<T: Signed> core::ops::Neg for Mat4x4<T> {
    type Output = Mat4x4<T>;

    fn neg(self) -> (r: Mat4x4<T>)
        ensures
            r@ == self@.negated(),
    {
        let r = Mat4x4 { x: self.x.neg(), y: self.y.neg(), z: self.z.neg(), w: self.w.neg() };
        proof {
            r.lemma_with_view();
        }
        r
    }
}

impl<T: Signed> vstd::std_specs::ops::NegSpecImpl for Mat4x4<T> {
    open spec fn obeys_neg_spec() -> bool {
        true
    }

    open spec fn neg_req(self) -> bool {
        self@.negated().fits::<T>()
    }

    open spec fn neg_spec(self) -> Mat4x4<T> {
        Mat4x4::with_view(self@.negated())
    }
}

impl<T: Integer> core::ops::Add for Mat4x4<T> {
    type Output = Mat4x4<T>;

    fn add(self, other: Mat4x4<T>) -> (r: Mat4x4<T>)
        ensures
            r@ == self@.plus(other@),
    {
        let r = Mat4x4 {
            x: self.x + other.x,
            y: self.y + other.y,
            z: self.z + other.z,
            w: self.w + other.w,
        };
        proof {
            r.lemma_with_view();
        }
        r
    }
}

impl<T: Integer> vstd::std_specs::ops::AddSpecImpl for Mat4x4<T> {
    open spec fn obeys_add_spec() -> bool {
        true
    }

    open spec fn add_req(self, other: Mat4x4<T>) -> bool {
        self@.plus(other@).fits::<T>()
    }

    open spec fn add_spec(self, other: Mat4x4<T>) -> Mat4x4<T> {
        Mat4x4::with_view(self@.plus(other@))
    }
}

impl<T: Integer> core::ops::Sub for Mat4x4<T> {
    type Output = Mat4x4<T>;

    fn sub(self, other: Mat4x4<T>) -> (r: Mat4x4<T>)
        ensures
            r@ == self@.minus(other@),
    {
        let r = Mat4x4 {
            x: self.x - other.x,
            y: self.y - other.y,
            z: self.z - other.z,
            w: self.w - other.w,
        };
        proof {
            r.lemma_with_view();
        }
        r
    }
}

impl<T: Integer> vstd::std_specs::ops::SubSpecImpl for Mat4x4<T> {
    open spec fn obeys_sub_spec() -> bool {
        true
    }

    open spec fn sub_req(self, other: Mat4x4<T>) -> bool {
        self@.minus(other@).fits::<T>()
    }

    open spec fn sub_spec(self, other: Mat4x4<T>) -> Mat4x4<T> {
        Mat4x4::with_view(self@.minus(other@))
    }
}

impl<T: Integer> core::ops::AddAssign for Mat4x4<T> {
    fn add_assign(&mut self, other: Mat4x4<T>)
        requires
            old(self)@.plus(other@).fits::<T>(),
        ensures
            final(self)@ == old(self)@.plus(other@),
    {
        self.x = self.x + other.x;
        self.y = self.y + other.y;
        self.z = self.z + other.z;
        self.w = self.w + other.w;
    }
}

impl<T: Integer> core::ops::SubAssign for Mat4x4<T> {
    fn sub_assign(&mut self, other: Mat4x4<T>)
        requires
            old(self)@.minus(other@).fits::<T>(),
        ensures
            final(self)@ == old(self)@.minus(other@),
    {
        self.x = self.x - other.x;
        self.y = self.y - other.y;
        self.z = self.z - other.z;
        self.w = self.w - other.w;
    }
}

impl<T: Integer> core::ops::Mul<T> for Mat4x4<T> {
    type Output = Mat4x4<T>;

    fn mul(self, other: T) -> (r: Mat4x4<T>)
        ensures
            r@ == self@.scaled(other.value()),
    {
        let r = Mat4x4 {
            x: self.x * other,
            y: self.y * other,
            z: self.z * other,
            w: self.w * other,
        };
        proof {
            r.lemma_with_view();
        }
        r
    }
}

impl<T: Integer> vstd::std_specs::ops::MulSpecImpl<T> for Mat4x4<T> {
    open spec fn obeys_mul_spec() -> bool {
        true
    }

    open spec fn mul_req(self, other: T) -> bool {
        self@.scaled(other.value()).fits::<T>()
    }

    open spec fn mul_spec(self, other: T) -> Mat4x4<T> {
        Mat4x4::with_view(self@.scaled(other.value()))
    }
}

impl<T: Integer> core::ops::MulAssign<T> for Mat4x4<T> {
    fn mul_assign(&mut self, other: T)
        requires
            old(self)@.scaled(other.value()).fits::<T>(),
        ensures
            final(self)@ == old(self)@.scaled(other.value()),
    {
        self.x = self.x * other;
        self.y = self.y * other;
        self.z = self.z * other;
        self.w = self.w * other;
    }
}

impl<T: Integer> core::ops::Mul<XYZW<T>> for Mat4x4<T> {
    type Output = XYZW<T>;

    fn mul(self, other: XYZW<T>) -> (r: XYZW<T>)
        ensures
            r@ == self@.apply(other@),
    {
        let r = XYZW {
            x: self.x.x.times(other.x)
                .plus(self.y.x.times(other.y))
                .plus(self.z.x.times(other.z))
                .plus(self.w.x.times(other.w)),
            y: self.x.y.times(other.x)
                .plus(self.y.y.times(other.y))
                .plus(self.z.y.times(other.z))
                .plus(self.w.y.times(other.w)),
            z: self.x.z.times(other.x)
                .plus(self.y.z.times(other.y))
                .plus(self.z.z.times(other.z))
                .plus(self.w.z.times(other.w)),
            w: self.x.w.times(other.x)
                .plus(self.y.w.times(other.y))
                .plus(self.z.w.times(other.z))
                .plus(self.w.w.times(other.w)),
        };
        proof {
            r.lemma_with_view();
        }
        r
    }
}

impl<T: Integer> vstd::std_specs::ops::MulSpecImpl<XYZW<T>> for Mat4x4<T> {
    open spec fn obeys_mul_spec() -> bool {
        true
    }

    open spec fn mul_req(self, other: XYZW<T>) -> bool {
        self@.apply_fits::<T>(other@)
    }

    open spec fn mul_spec(self, other: XYZW<T>) -> XYZW<T> {
        XYZW::with_view(self@.apply(other@))
    }
}

impl<T: Integer> core::ops::Mul<Mat4x4<T>> for Mat4x4<T> {
    type Output = Mat4x4<T>;

    fn mul(self, other: Mat4x4<T>) -> (r: Mat4x4<T>)
        ensures
            r@ == self@.compose(other@),
    {
        let r = Mat4x4 {
            x: self * other.x,
            y: self * other.y,
            z: self * other.z,
            w: self * other.w,
        };
        proof {
            r.lemma_with_view();
        }
        r
    }
}

impl<T: Integer> vstd::std_specs::ops::MulSpecImpl<Mat4x4<T>> for Mat4x4<T> {
    open spec fn obeys_mul_spec() -> bool {
        true
    }

    open spec fn mul_req(self, other: Mat4x4<T>) -> bool {
        self@.compose_fits::<T>(other@)
    }

    open spec fn mul_spec(self, other: Mat4x4<T>) -> Mat4x4<T> {
        Mat4x4::with_view(self@.compose(other@))
    }
}

impl<T: Integer> core::ops::MulAssign<Mat4x4<T>> for Mat4x4<T> {
    fn mul_assign(&mut self, other: Mat4x4<T>)
        requires
            old(self)@.compose_fits::<T>(other@),
        ensures
            final(self)@ == old(self)@.compose(other@),
    {
        let r = *self * other;
        *self = r;
    }
}

/// Division by a scalar, rounding toward zero. A divisor of zero leaves the
/// matrix as it is.
impl<T: Integer> core::ops::Div<T> for Mat4x4<T> {
    type Output = Mat4x4<T>;

    fn div(self, other: T) -> (r: Mat4x4<T>)
        ensures
            r@ == self@.over_or_same(other.value()),
    {
        if !other.is_zero() {
            let r = Mat4x4 {
                x: self.x / other,
                y: self.y / other,
                z: self.z / other,
                w: self.w / other,
            };
            proof {
                r.lemma_with_view();
            }
            r
        } else {
            proof {
                self.lemma_with_view();
            }
            self
        }
    }
}

impl<T: Integer> vstd::std_specs::ops::DivSpecImpl<T> for Mat4x4<T> {
    open spec fn obeys_div_spec() -> bool {
        true
    }

    open spec fn div_req(self, other: T) -> bool {
        other.value() != 0 ==> self@.over(other.value()).fits::<T>()
    }

    open spec fn div_spec(self, other: T) -> Mat4x4<T> {
        Mat4x4::with_view(self@.over_or_same(other.value()))
    }
}

impl<T: Integer> core::ops::DivAssign<T> for Mat4x4<T> {
    fn div_assign(&mut self, other: T)
        requires
            other.value() != 0 ==> old(self)@.over(other.value()).fits::<T>(),
        ensures
            final(self)@ == old(self)@.over_or_same(other.value()),
    {
        if !other.is_zero() {
            self.x = self.x / other;
            self.y = self.y / other;
            self.z = self.z / other;
            self.w = self.w / other;
        }
    }
}

} // verus!
