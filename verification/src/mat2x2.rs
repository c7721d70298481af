//! Matrices of two rows and columns.

use vstd::prelude::*;
use core::ops::Neg;
use crate::expansion::{lemma_product_assoc, lemma_sum2_times, lemma_times_sum2};
use crate::scalar::{Integer, One, Signed, Zero};
use crate::text::string_of;
use crate::vector::XY;

verus! {

/// A square matrix of two rows, held as its two columns.
#[derive(Copy, Debug)]
pub struct Mat2x2<T> {
    pub x: XY<T>,
    pub y: XY<T>,
}

impl<T: Copy> Clone for Mat2x2<T> {
    fn clone(&self) -> (r: Self)
        ensures
            r == *self,
    {
        *self
    }
}

impl<T: Integer> View for Mat2x2<T> {
    type V = Mat2x2<int>;

    open spec fn view(&self) -> Mat2x2<int> {
        Mat2x2 { x: self.x@, y: self.y@ }
    }
}

impl Mat2x2<int> {
    /// Whether every component is a value of `T`.
    pub open spec fn fits<T: Integer>(self) -> bool {
        &&& self.x.fits::<T>()
        &&& self.y.fits::<T>()
    }

    /// The matrix whose components are all zero.
    pub open spec fn zeros() -> Mat2x2<int> {
        Mat2x2 { x: XY::<int>::zeros(), y: XY::<int>::zeros() }
    }

    /// The component-wise sum.
    pub open spec fn plus(self, other: Mat2x2<int>) -> Mat2x2<int> {
        Mat2x2 { x: self.x.plus(other.x), y: self.y.plus(other.y) }
    }

    /// The component-wise difference.
    pub open spec fn minus(self, other: Mat2x2<int>) -> Mat2x2<int> {
        Mat2x2 { x: self.x.minus(other.x), y: self.y.minus(other.y) }
    }

    /// Every component negated.
    pub open spec fn negated(self) -> Mat2x2<int> {
        Mat2x2 { x: self.x.negated(), y: self.y.negated() }
    }

    /// Every component multiplied by `s`.
    pub open spec fn scaled(self, s: int) -> Mat2x2<int> {
        Mat2x2 { x: self.x.scaled(s), y: self.y.scaled(s) }
    }

    /// Every component divided by `d`, rounding toward zero.
    pub open spec fn over(self, d: int) -> Mat2x2<int> {
        Mat2x2 { x: self.x.over(d), y: self.y.over(d) }
    }

    /// Division that leaves the matrix as it is when the divisor is zero.
    pub open spec fn over_or_same(self, d: int) -> Mat2x2<int> {
        if d == 0 {
            self
        } else {
            self.over(d)
        }
    }

    /// The matrix as text.
    pub open spec fn text(self) -> Seq<char> {
        seq!['('] + self.x.text() + seq![';', ' '] + self.y.text() + seq![';', ')']
    }

    /// The identity matrix.
    pub open spec fn identity() -> Mat2x2<int> {
        Mat2x2 { x: XY { x: 1, y: 0 }, y: XY { x: 0, y: 1 } }
    }

    /// The product with the column vector `v`: the sum of the columns, each
    /// scaled by the component of `v` of its name.
    pub open spec fn apply(self, v: XY<int>) -> XY<int> {
        self.x.scaled(v.x).plus(self.y.scaled(v.y))
    }

    /// Whether `T` holds every scaled column and every partial sum of
    /// `apply`, taken from the first column to the last.
    pub open spec fn apply_fits<T: Integer>(self, v: XY<int>) -> bool {
        &&& self.x.scaled(v.x).fits::<T>()
        &&& self.y.scaled(v.y).fits::<T>()
        &&& self.x.scaled(v.x).plus(self.y.scaled(v.y)).fits::<T>()
    }

    /// The matrix product: each column of `other` with `self` applied to it.
    pub open spec fn compose(self, other: Mat2x2<int>) -> Mat2x2<int> {
        Mat2x2 { x: self.apply(other.x), y: self.apply(other.y) }
    }

    /// Whether `T` holds every step of `compose`.
    pub open spec fn compose_fits<T: Integer>(self, other: Mat2x2<int>) -> bool {
        &&& self.apply_fits::<T>(other.x)
        &&& self.apply_fits::<T>(other.y)
    }

    /// Adding `b` and then subtracting it again gives `a` back.
    pub proof fn lemma_plus_minus(a: Mat2x2<int>, b: Mat2x2<int>)
        ensures
            a.plus(b).minus(b) == a,
    {
    }

    /// Scaling by one changes nothing.
    pub proof fn lemma_scaled_one(a: Mat2x2<int>)
        ensures
            a.scaled(1) == a,
    {
    }

    /// Scaling by zero gives zero.
    pub proof fn lemma_scaled_zero(a: Mat2x2<int>)
        ensures
            a.scaled(0) == Mat2x2::<int>::zeros(),
    {
    }

    /// The identity matrix maps every vector to itself.
    pub proof fn lemma_identity_apply(v: XY<int>)
        ensures
            Mat2x2::<int>::identity().apply(v) == v,
    {
    }

    /// The identity matrix is neutral on both sides of the matrix product;
    /// its product with itself is the identity matrix.
    pub proof fn lemma_identity_compose(m: Mat2x2<int>)
        ensures
            ({
                let one = Mat2x2::<int>::identity();
                &&& one.compose(m) == m
                &&& m.compose(one) == m
                &&& one.compose(one) == one
            }),
    {
        broadcast use vstd::arithmetic::mul::group_mul_basics;
    }

    /// The matrix product is the composition: applying `a.compose(b)` is
    /// applying `b` and then `a`.
    pub proof fn lemma_compose_apply(a: Mat2x2<int>, b: Mat2x2<int>, v: XY<int>)
        ensures
            a.compose(b).apply(v) == a.apply(b.apply(v)),
    {
        lemma_sum2_times(a.x.x * b.x.x, a.y.x * b.x.y, v.x);
        lemma_product_assoc(a.x.x, b.x.x, v.x);
        lemma_product_assoc(a.y.x, b.x.y, v.x);
        lemma_sum2_times(a.x.x * b.y.x, a.y.x * b.y.y, v.y);
        lemma_product_assoc(a.x.x, b.y.x, v.y);
        lemma_product_assoc(a.y.x, b.y.y, v.y);
        lemma_times_sum2(a.x.x, b.x.x * v.x, b.y.x * v.y);
        lemma_times_sum2(a.y.x, b.x.y * v.x, b.y.y * v.y);
        lemma_sum2_times(a.x.y * b.x.x, a.y.y * b.x.y, v.x);
        lemma_product_assoc(a.x.y, b.x.x, v.x);
        lemma_product_assoc(a.y.y, b.x.y, v.x);
        lemma_sum2_times(a.x.y * b.y.x, a.y.y * b.y.y, v.y);
        lemma_product_assoc(a.x.y, b.y.x, v.y);
        lemma_product_assoc(a.y.y, b.y.y, v.y);
        lemma_times_sum2(a.x.y, b.x.x * v.x, b.y.x * v.y);
        lemma_times_sum2(a.y.y, b.x.y * v.x, b.y.y * v.y);
    }
}

impl<T: Copy> Mat2x2<T> {
    /// The matrix of the given columns.
    pub fn new(x: &XY<T>, y: &XY<T>) -> (r: Mat2x2<T>)
        ensures
            r == (Mat2x2 { x: *x, y: *y }),
    {
        Mat2x2 { x: *x, y: *y }
    }
}

impl<T: Integer> Mat2x2<T> {
    /// The matrix of `T` whose view is `m`, where there is one.
    pub open spec fn with_view(m: Mat2x2<int>) -> Mat2x2<T> {
        choose|r: Mat2x2<T>| r@ == m
    }

    /// Equal views belong to equal values.
    pub proof fn lemma_view_injective(a: Mat2x2<T>, b: Mat2x2<T>)
        ensures
            a@ == b@ ==> a == b,
    {
        XY::lemma_view_injective(a.x, b.x);
        XY::lemma_view_injective(a.y, b.y);
    }

    /// A value is the one that has its view.
    pub proof fn lemma_with_view(self)
        ensures
            Self::with_view(self@) == self,
    {
        Self::lemma_view_injective(Self::with_view(self@), self);
    }

    /// Appends the text of the matrix to `out`.
    pub fn append_to(&self, out: &mut Vec<char>)
        ensures
            final(out)@ == old(out)@ + self@.text(),
    {
        out.push('(');
        self.x.append_to(out);
        out.push(';');
        out.push(' ');
        self.y.append_to(out);
        out.push(';');
        out.push(')');
        assert(out@ =~= old(out)@ + self@.text());
    }

    /// The matrix as text.
    pub fn to_string(&self) -> (s: String)
        ensures
            s@ == self@.text(),
    {
        let mut out: Vec<char> = Vec::new();
        self.append_to(&mut out);
        assert(out@ =~= self@.text());
        string_of(&out)
    }

    /// The view of the zero matrix is all zeros.
    pub proof fn lemma_zero_view()
        ensures
            Self::zero_spec()@ == Mat2x2::<int>::zeros(),
    {
        XY::<T>::lemma_zero_view();
    }

    /// The view of the unit matrix is the identity matrix.
    pub proof fn lemma_one_view()
        ensures
            Self::one_spec()@ == Mat2x2::<int>::identity(),
    {
        T::lemma_integer(T::zero_spec(), T::one_spec());
    }
}

impl<T: Integer> Zero for Mat2x2<T> {
    open spec fn zero_spec() -> Mat2x2<T> {
        Mat2x2 { x: XY::<T>::zero_spec(), y: XY::<T>::zero_spec() }
    }

    fn zero() -> (r: Mat2x2<T>) {
        Mat2x2 { x: XY::zero(), y: XY::zero() }
    }
}

impl<T: Integer> One for Mat2x2<T> {
    open spec fn one_spec() -> Mat2x2<T> {
        Mat2x2 {
            x: XY { x: T::one_spec(), y: T::zero_spec() },
            y: XY { x: T::zero_spec(), y: T::one_spec() },
        }
    }

    fn one() -> (r: Mat2x2<T>) {
        Mat2x2 { x: XY { x: T::one(), y: T::zero() }, y: XY { x: T::zero(), y: T::one() } }
    }
}

impl<T: Integer> PartialEq for Mat2x2<T> {
    fn eq(&self, other: &Mat2x2<T>) -> (r: bool) {
        self.x == other.x && self.y == other.y
    }
}

impl<T: Integer> vstd::std_specs::cmp::PartialEqSpecImpl for Mat2x2<T> {
    open spec fn obeys_eq_spec() -> bool {
        true
    }

    open spec fn eq_spec(&self, other: &Mat2x2<T>) -> bool {
        self@ == other@
    }
}

impl<T: Signed> core::ops::Neg for Mat2x2<T> {
    type Output = Mat2x2<T>;

    fn neg(self) -> (r: Mat2x2<T>)
        ensures
            r@ == self@.negated(),
    {
        let r = Mat2x2 { x: self.x.neg(), y: self.y.neg() };
        proof {
            r.lemma_with_view();
        }
        r
    }
}

impl<T: Signed> vstd::std_specs::ops::NegSpecImpl for Mat2x2<T> {
    open spec fn obeys_neg_spec() -> bool {
        true
    }

    open spec fn neg_req(self) -> bool {
        self@.negated().fits::<T>()
    }

    open spec fn neg_spec(self) -> Mat2x2<T> {
        Mat2x2::with_view(self@.negated())
    }
}

impl<T: Integer> core::ops::Add for Mat2x2<T> {
    type Output = Mat2x2<T>;

    fn add(self, other: Mat2x2<T>) -> (r: Mat2x2<T>)
        ensures
            r@ == self@.plus(other@),
    {
        let r = Mat2x2 { x: self.x + other.x, y: self.y + other.y };
        proof {
            r.lemma_with_view();
        }
        r
    }
}

impl<T: Integer> vstd::std_specs::ops::AddSpecImpl for Mat2x2<T> {
    open spec fn obeys_add_spec() -> bool {
        true
    }

    open spec fn add_req(self, other: Mat2x2<T>) -> bool {
        self@.plus(other@).fits::<T>()
    }

    open spec fn add_spec(self, other: Mat2x2<T>) -> Mat2x2<T> {
        Mat2x2::with_view(self@.plus(other@))
    }
}

impl<T: Integer> core::ops::Sub for Mat2x2<T> {
    type Output = Mat2x2<T>;

    fn sub(self, other: Mat2x2<T>) -> (r: Mat2x2<T>)
        ensures
            r@ == self@.minus(other@),
    {
        let r = Mat2x2 { x: self.x - other.x, y: self.y - other.y };
        proof {
            r.lemma_with_view();
        }
        r
    }
}

impl<T: Integer> vstd::std_specs::ops::SubSpecImpl for Mat2x2<T> {
    open spec fn obeys_sub_spec() -> bool {
        true
    }

    open spec fn sub_req(self, other: Mat2x2<T>) -> bool {
        self@.minus(other@).fits::<T>()
    }

    open spec fn sub_spec(self, other: Mat2x2<T>) -> Mat2x2<T> {
        Mat2x2::with_view(self@.minus(other@))
    }
}

impl<T: Integer> core::ops::AddAssign for Mat2x2<T> {
    fn add_assign(&mut self, other: Mat2x2<T>)
        requires
            old(self)@.plus(other@).fits::<T>(),
        ensures
            final(self)@ == old(self)@.plus(other@),
    {
        self.x = self.x + other.x;
        self.y = self.y + other.y;
    }
}

impl<T: Integer> core::ops::SubAssign for Mat2x2<T> {
    fn sub_assign(&mut self, other: Mat2x2<T>)
        requires
            old(self)@.minus(other@).fits::<T>(),
        ensures
            final(self)@ == old(self)@.minus(other@),
    {
        self.x = self.x - other.x;
        self.y = self.y - other.y;
    }
}

impl<T: Integer> core::ops::Mul<T> for Mat2x2<T> {
    type Output = Mat2x2<T>;

    fn mul(self, other: T) -> (r: Mat2x2<T>)
        ensures
            r@ == self@.scaled(other.value()),
    {
        let r = Mat2x2 { x: self.x * other, y: self.y * other };
        proof {
            r.lemma_with_view();
        }
        r
    }
}

impl<T: Integer> vstd::std_specs::ops::MulSpecImpl<T> for Mat2x2<T> {
    open spec fn obeys_mul_spec() -> bool {
        true
    }

    open spec fn mul_req(self, other: T) -> bool {
        self@.scaled(other.value()).fits::<T>()
    }

    open spec fn mul_spec(self, other: T) -> Mat2x2<T> {
        Mat2x2::with_view(self@.scaled(other.value()))
    }
}

impl<T: Integer> core::ops::MulAssign<T> for Mat2x2<T> {
    fn mul_assign(&mut self, other: T)
        requires
            old(self)@.scaled(other.value()).fits::<T>(),
        ensures
            final(self)@ == old(self)@.scaled(other.value()),
    {
        self.x = self.x * other;
        self.y = self.y * other;
    }
}

impl<T: Integer> core::ops::Mul<XY<T>> for Mat2x2<T> {
    type Output = XY<T>;

    fn mul(self, other: XY<T>) -> (r: XY<T>)
        ensures
            r@ == self@.apply(other@),
    {
        let r = XY {
            x: self.x.x.times(other.x).plus(self.y.x.times(other.y)),
            y: self.x.y.times(other.x).plus(self.y.y.times(other.y)),
        };
        proof {
            r.lemma_with_view();
        }
        r
    }
}

impl<T: Integer> vstd::std_specs::ops::MulSpecImpl<XY<T>> for Mat2x2<T> {
    open spec fn obeys_mul_spec() -> bool {
        true
    }

    open spec fn mul_req(self, other: XY<T>) -> bool {
        self@.apply_fits::<T>(other@)
    }

    open spec fn mul_spec(self, other: XY<T>) -> XY<T> {
        XY::with_view(self@.apply(other@))
    }
}

impl<T: Integer> core::ops::Mul<Mat2x2<T>> for Mat2x2<T> {
    type Output = Mat2x2<T>;

    fn mul(self, other: Mat2x2<T>) -> (r: Mat2x2<T>)
        ensures
            r@ == self@.compose(other@),
    {
        let r = Mat2x2 { x: self * other.x, y: self * other.y };
        proof {
            r.lemma_with_view();
        }
        r
    }
}

impl<T: Integer> vstd::std_specs::ops::MulSpecImpl<Mat2x2<T>> for Mat2x2<T> {
    open spec fn obeys_mul_spec() -> bool {
        true
    }

    open spec fn mul_req(self, other: Mat2x2<T>) -> bool {
        self@.compose_fits::<T>(other@)
    }

    open spec fn mul_spec(self, other: Mat2x2<T>) -> Mat2x2<T> {
        Mat2x2::with_view(self@.compose(other@))
    }
}

impl<T: Integer> core::ops::MulAssign<Mat2x2<T>> for Mat2x2<T> {
    fn mul_assign(&mut self, other: Mat2x2<T>)
        requires
            old(self)@.compose_fits::<T>(other@),
        ensures
            final(self)@ == old(self)@.compose(other@),
    {
        let r = *self * other;
        *self = r;
    }
}

/// Division by a scalar, rounding toward zero. A divisor of zero leaves the
/// matrix as it is.
impl<T: Integer> core::ops::Div<T> for Mat2x2<T> {
    type Output = Mat2x2<T>;

    fn div(self, other: T) -> (r: Mat2x2<T>)
        ensures
            r@ == self@.over_or_same(other.value()),
    {
        if !other.is_zero() {
            let r = Mat2x2 { x: self.x / other, y: self.y / other };
            proof {
                r.lemma_with_view();
            }
            r
        } else {
            proof {
                self.lemma_with_view();
            }
            self
        }
    }
}

impl<T: Integer> vstd::std_specs::ops::DivSpecImpl<T> for Mat2x2<T> {
    open spec fn obeys_div_spec() -> bool {
        true
    }

    open spec fn div_req(self, other: T) -> bool {
        other.value() != 0 ==> self@.over(other.value()).fits::<T>()
    }

    open spec fn div_spec(self, other: T) -> Mat2x2<T> {
        Mat2x2::with_view(self@.over_or_same(other.value()))
    }
}

impl<T: Integer> core::ops::DivAssign<T> for Mat2x2<T> {
    fn div_assign(&mut self, other: T)
        requires
            other.value() != 0 ==> old(self)@.over(other.value()).fits::<T>(),
        ensures
            final(self)@ == old(self)@.over_or_same(other.value()),
    {
        if !other.is_zero() {
            self.x = self.x / other;
            self.y = self.y / other;
        }
    }
}

} // verus!
