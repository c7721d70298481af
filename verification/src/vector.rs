//! Vectors of two, three and four components.
//!
//! The view of a vector over a scalar type is the same vector over `int`; the
//! operations are specified on those.

use vstd::prelude::*;
use crate::scalar::{Integer, Signed, Zero, in_range, lemma_truncated_zero, truncated};
use crate::text::{decimal, push_decimal, string_of};

verus! {

/// A vector of two components.
#[derive(Copy, Debug)]
pub struct XY<T> {
    pub x: T,
    pub y: T,
}

impl<T: Copy> Clone for XY<T> {
    fn clone(&self) -> (r: Self)
        ensures
            r == *self,
    {
        *self
    }
}

impl<T: Integer> View for XY<T> {
    type V = XY<int>;

    open spec fn view(&self) -> XY<int> {
        XY { x: self.x.value(), y: self.y.value() }
    }
}

impl XY<int> {
    /// Whether every component is a value of `T`.
    pub open spec fn fits<T: Integer>(self) -> bool {
        &&& in_range::<T>(self.x)
        &&& in_range::<T>(self.y)
    }

    /// The vector whose components are all zero.
    pub open spec fn zeros() -> XY<int> {
        XY { x: 0, y: 0 }
    }

    /// The component-wise sum.
    pub open spec fn plus(self, other: XY<int>) -> XY<int> {
        XY { x: self.x + other.x, y: self.y + other.y }
    }

    /// The component-wise difference.
    pub open spec fn minus(self, other: XY<int>) -> XY<int> {
        XY { x: self.x - other.x, y: self.y - other.y }
    }

    /// Every component negated.
    pub open spec fn negated(self) -> XY<int> {
        XY { x: -self.x, y: -self.y }
    }

    /// Every component multiplied by `s`.
    pub open spec fn scaled(self, s: int) -> XY<int> {
        XY { x: self.x * s, y: self.y * s }
    }

    /// Every component divided by `d`, rounding toward zero.
    pub open spec fn over(self, d: int) -> XY<int> {
        XY { x: truncated(self.x, d), y: truncated(self.y, d) }
    }

    /// The vector as text.
    pub open spec fn text(self) -> Seq<char> {
        seq!['('] + decimal(self.x) + seq![','] + decimal(self.y) + seq![')']
    }

    /// Adding `b` and then subtracting it again gives `a` back.
    pub proof fn lemma_plus_minus(a: XY<int>, b: XY<int>)
        ensures
            a.plus(b).minus(b) == a,
    {
    }

    /// Scaling by one changes nothing.
    pub proof fn lemma_scaled_one(a: XY<int>)
        ensures
            a.scaled(1) == a,
    {
    }

    /// Scaling by zero gives zero.
    pub proof fn lemma_scaled_zero(a: XY<int>)
        ensures
            a.scaled(0) == XY::<int>::zeros(),
    {
    }
}

impl<T> XY<T> {
    /// The vector of the given components.
    pub fn new(x: T, y: T) -> (r: XY<T>)
        ensures
            r == (XY { x, y }),
    {
        XY { x, y }
    }
}

impl<T: Integer> XY<T> {
    /// The vector of `T` whose view is `m`, where there is one.
    pub open spec fn with_view(m: XY<int>) -> XY<T> {
        choose|r: XY<T>| r@ == m
    }

    /// Equal views belong to equal values.
    pub proof fn lemma_view_injective(a: XY<T>, b: XY<T>)
        ensures
            a@ == b@ ==> a == b,
    {
        T::lemma_integer(a.x, b.x);
        T::lemma_integer(a.y, b.y);
    }

    /// A value is the one that has its view.
    pub proof fn lemma_with_view(self)
        ensures
            Self::with_view(self@) == self,
    {
        Self::lemma_view_injective(Self::with_view(self@), self);
    }

    /// Appends the text of the vector to `out`.
    pub fn append_to(&self, out: &mut Vec<char>)
        ensures
            final(out)@ == old(out)@ + self@.text(),
    {
        out.push('(');
        push_decimal(out, self.x.widen());
        out.push(',');
        push_decimal(out, self.y.widen());
        out.push(')');
        assert(out@ =~= old(out)@ + self@.text());
    }

    /// The vector as text.
    pub fn to_string(&self) -> (s: String)
        ensures
            s@ == self@.text(),
    {
        let mut out: Vec<char> = Vec::new();
        self.append_to(&mut out);
        assert(out@ =~= self@.text());
        string_of(&out)
    }

    /// The view of the zero vector is all zeros.
    pub proof fn lemma_zero_view()
        ensures
            Self::zero_spec()@ == XY::<int>::zeros(),
    {
        T::lemma_integer(T::zero_spec(), T::zero_spec());
    }

    /// The product with the scalar written on the left, `s * self`.
    pub fn rmul(self, s: T) -> (r: XY<T>)
        requires
            self@.scaled(s.value()).fits::<T>(),
        ensures
            r@ == self@.scaled(s.value()),
    {
        self * s
    }
}

impl<T: Integer> Zero for XY<T> {
    open spec fn zero_spec() -> XY<T> {
        XY { x: T::zero_spec(), y: T::zero_spec() }
    }

    fn zero() -> (r: XY<T>) {
        XY { x: T::zero(), y: T::zero() }
    }
}

impl<T: Integer> PartialEq for XY<T> {
    fn eq(&self, other: &XY<T>) -> (r: bool) {
        self.x.equals(other.x) && self.y.equals(other.y)
    }
}

impl<T: Integer> vstd::std_specs::cmp::PartialEqSpecImpl for XY<T> {
    open spec fn obeys_eq_spec() -> bool {
        true
    }

    open spec fn eq_spec(&self, other: &XY<T>) -> bool {
        self@ == other@
    }
}

impl<T: Integer> core::ops::Add for XY<T> {
    type Output = XY<T>;

    fn add(self, other: XY<T>) -> (r: XY<T>)
        ensures
            r@ == self@.plus(other@),
    {
        let r = XY { x: self.x.plus(other.x), y: self.y.plus(other.y) };
        proof {
            r.lemma_with_view();
        }
        r
    }
}

impl<T: Integer> vstd::std_specs::ops::AddSpecImpl for XY<T> {
    open spec fn obeys_add_spec() -> bool {
        true
    }

    open spec fn add_req(self, other: XY<T>) -> bool {
        self@.plus(other@).fits::<T>()
    }

    open spec fn add_spec(self, other: XY<T>) -> XY<T> {
        XY::with_view(self@.plus(other@))
    }
}

impl<T: Integer> core::ops::Sub for XY<T> {
    type Output = XY<T>;

    fn sub(self, other: XY<T>) -> (r: XY<T>)
        ensures
            r@ == self@.minus(other@),
    {
        let r = XY { x: self.x.minus(other.x), y: self.y.minus(other.y) };
        proof {
            r.lemma_with_view();
        }
        r
    }
}

impl<T: Integer> vstd::std_specs::ops::SubSpecImpl for XY<T> {
    open spec fn obeys_sub_spec() -> bool {
        true
    }

    open spec fn sub_req(self, other: XY<T>) -> bool {
        self@.minus(other@).fits::<T>()
    }

    open spec fn sub_spec(self, other: XY<T>) -> XY<T> {
        XY::with_view(self@.minus(other@))
    }
}

impl<T: Integer> core::ops::AddAssign for XY<T> {
    fn add_assign(&mut self, other: XY<T>)
        requires
            old(self)@.plus(other@).fits::<T>(),
        ensures
            final(self)@ == old(self)@.plus(other@),
    {
        self.x = self.x.plus(other.x);
        self.y = self.y.plus(other.y);
    }
}

impl<T: Integer> core::ops::SubAssign for XY<T> {
    fn sub_assign(&mut self, other: XY<T>)
        requires
            old(self)@.minus(other@).fits::<T>(),
        ensures
            final(self)@ == old(self)@.minus(other@),
    {
        self.x = self.x.minus(other.x);
        self.y = self.y.minus(other.y);
    }
}

impl<T: Signed> core::ops::Neg for XY<T> {
    type Output = XY<T>;

    fn neg(self) -> (r: XY<T>)
        ensures
            r@ == self@.negated(),
    {
        let r = XY { x: self.x.negated(), y: self.y.negated() };
        proof {
            r.lemma_with_view();
        }
        r
    }
}

impl<T: Signed> vstd::std_specs::ops::NegSpecImpl for XY<T> {
    open spec fn obeys_neg_spec() -> bool {
        true
    }

    open spec fn neg_req(self) -> bool {
        self@.negated().fits::<T>()
    }

    open spec fn neg_spec(self) -> XY<T> {
        XY::with_view(self@.negated())
    }
}

impl<T: Integer> core::ops::Mul<T> for XY<T> {
    type Output = XY<T>;

    fn mul(self, other: T) -> (r: XY<T>)
        ensures
            r@ == self@.scaled(other.value()),
    {
        let r = XY { x: self.x.times(other), y: self.y.times(other) };
        proof {
            r.lemma_with_view();
        }
        r
    }
}

impl<T: Integer> vstd::std_specs::ops::MulSpecImpl<T> for XY<T> {
    open spec fn obeys_mul_spec() -> bool {
        true
    }

    open spec fn mul_req(self, other: T) -> bool {
        self@.scaled(other.value()).fits::<T>()
    }

    open spec fn mul_spec(self, other: T) -> XY<T> {
        XY::with_view(self@.scaled(other.value()))
    }
}

impl<T: Integer> core::ops::MulAssign<T> for XY<T> {
    fn mul_assign(&mut self, other: T)
        requires
            old(self)@.scaled(other.value()).fits::<T>(),
        ensures
            final(self)@ == old(self)@.scaled(other.value()),
    {
        self.x = self.x.times(other);
        self.y = self.y.times(other);
    }
}

/// Division by a scalar, rounding toward zero. There is no guard here: the
/// divisor must not be zero.
impl<T: Integer> core::ops::Div<T> for XY<T> {
    type Output = XY<T>;

    fn div(self, other: T) -> (r: XY<T>)
        ensures
            r@ == self@.over(other.value()),
    {
        let r = XY { x: self.x.over(other), y: self.y.over(other) };
        proof {
            r.lemma_with_view();
        }
        r
    }
}

impl<T: Integer> vstd::std_specs::ops::DivSpecImpl<T> for XY<T> {
    open spec fn obeys_div_spec() -> bool {
        true
    }

    open spec fn div_req(self, other: T) -> bool {
        other.value() != 0 && self@.over(other.value()).fits::<T>()
    }

    open spec fn div_spec(self, other: T) -> XY<T> {
        XY::with_view(self@.over(other.value()))
    }
}

impl<T: Integer> core::ops::DivAssign<T> for XY<T> {
    fn div_assign(&mut self, other: T)
        requires
            other.value() != 0,
            old(self)@.over(other.value()).fits::<T>(),
        ensures
            final(self)@ == old(self)@.over(other.value()),
    {
        self.x = self.x.over(other);
        self.y = self.y.over(other);
    }
}

/// A vector of three components.
#[derive(Copy, Debug)]
pub struct XYZ<T> {
    pub x: T,
    pub y: T,
    pub z: T,
}

impl<T: Copy> Clone for XYZ<T> {
    fn clone(&self) -> (r: Self)
        ensures
            r == *self,
    {
        *self
    }
}

impl<T: Integer> View for XYZ<T> {
    type V = XYZ<int>;

    open spec fn view(&self) -> XYZ<int> {
        XYZ { x: self.x.value(), y: self.y.value(), z: self.z.value() }
    }
}

impl XYZ<int> {
    /// Whether every component is a value of `T`.
    pub open spec fn fits<T: Integer>(self) -> bool {
        &&& in_range::<T>(self.x)
        &&& in_range::<T>(self.y)
        &&& in_range::<T>(self.z)
    }

    /// The vector whose components are all zero.
    pub open spec fn zeros() -> XYZ<int> {
        XYZ { x: 0, y: 0, z: 0 }
    }

    /// The component-wise sum.
    pub open spec fn plus(self, other: XYZ<int>) -> XYZ<int> {
        XYZ { x: self.x + other.x, y: self.y + other.y, z: self.z + other.z }
    }

    /// The component-wise difference.
    pub open spec fn minus(self, other: XYZ<int>) -> XYZ<int> {
        XYZ { x: self.x - other.x, y: self.y - other.y, z: self.z - other.z }
    }

    /// Every component negated.
    pub open spec fn negated(self) -> XYZ<int> {
        XYZ { x: -self.x, y: -self.y, z: -self.z }
    }

    /// Every component multiplied by `s`.
    pub open spec fn scaled(self, s: int) -> XYZ<int> {
        XYZ { x: self.x * s, y: self.y * s, z: self.z * s }
    }

    /// Every component divided by `d`, rounding toward zero.
    pub open spec fn over(self, d: int) -> XYZ<int> {
        XYZ { x: truncated(self.x, d), y: truncated(self.y, d), z: truncated(self.z, d) }
    }

    /// Division that leaves the vector as it is when the divisor is zero.
    pub open spec fn over_or_same(self, d: int) -> XYZ<int> {
        if d == 0 {
            self
        } else {
            self.over(d)
        }
    }

    /// The vector as text.
    pub open spec fn text(self) -> Seq<char> {
        seq!['('] + decimal(self.x) + seq![','] + decimal(self.y) + seq![','] + decimal(self.z)
            + seq![')']
    }

    /// The inner product.
    pub open spec fn dot_product(self, other: XYZ<int>) -> int {
        self.x * other.x + self.y * other.y + self.z * other.z
    }

    /// Whether `T` holds every product and every partial sum of the inner
    /// product, summed from `x` to `z`.
    pub open spec fn dot_fits<T: Integer>(self, other: XYZ<int>) -> bool {
        &&& in_range::<T>(self.x * other.x)
        &&& in_range::<T>(self.y * other.y)
        &&& in_range::<T>(self.x * other.x + self.y * other.y)
        &&& in_range::<T>(self.z * other.z)
        &&& in_range::<T>(self.dot_product(other))
    }

    /// The cross product.
    pub open spec fn cross_product(self, other: XYZ<int>) -> XYZ<int> {
        XYZ {
            x: self.y * other.z - self.z * other.y,
            y: self.z * other.x - self.x * other.z,
            z: self.x * other.y - self.y * other.x,
        }
    }

    /// Whether `T` holds the six products of the cross product and its
    /// three components.
    pub open spec fn cross_fits<T: Integer>(self, other: XYZ<int>) -> bool {
        &&& in_range::<T>(self.y * other.z)
        &&& in_range::<T>(self.z * other.y)
        &&& in_range::<T>(self.z * other.x)
        &&& in_range::<T>(self.x * other.z)
        &&& in_range::<T>(self.x * other.y)
        &&& in_range::<T>(self.y * other.x)
        &&& self.cross_product(other).fits::<T>()
    }

    /// Adding `b` and then subtracting it again gives `a` back.
    pub proof fn lemma_plus_minus(a: XYZ<int>, b: XYZ<int>)
        ensures
            a.plus(b).minus(b) == a,
    {
    }

    /// Scaling by one changes nothing.
    pub proof fn lemma_scaled_one(a: XYZ<int>)
        ensures
            a.scaled(1) == a,
    {
    }

    /// Scaling by zero gives zero.
    pub proof fn lemma_scaled_zero(a: XYZ<int>)
        ensures
            a.scaled(0) == XYZ::<int>::zeros(),
    {
    }

    /// The cross product changes sign when its arguments change places.
    pub proof fn lemma_cross_anticommutes(a: XYZ<int>, b: XYZ<int>)
        ensures
            a.cross_product(b) == b.cross_product(a).negated(),
    {
        assert(a.y * b.z == b.z * a.y) by (nonlinear_arith);
        assert(a.z * b.y == b.y * a.z) by (nonlinear_arith);
        assert(a.z * b.x == b.x * a.z) by (nonlinear_arith);
        assert(a.x * b.z == b.z * a.x) by (nonlinear_arith);
        assert(a.x * b.y == b.y * a.x) by (nonlinear_arith);
        assert(a.y * b.x == b.x * a.y) by (nonlinear_arith);
    }

    /// The inner product does not depend on the order of its arguments.
    pub proof fn lemma_dot_commutes(a: XYZ<int>, b: XYZ<int>)
        ensures
            a.dot_product(b) == b.dot_product(a),
    {
        assert(a.x * b.x == b.x * a.x) by (nonlinear_arith);
        assert(a.y * b.y == b.y * a.y) by (nonlinear_arith);
        assert(a.z * b.z == b.z * a.z) by (nonlinear_arith);
    }

    /// The cross product of a vector with itself is zero.
    pub proof fn lemma_cross_self(a: XYZ<int>)
        ensures
            a.cross_product(a) == XYZ::<int>::zeros(),
    {
        assert(a.y * a.z == a.z * a.y) by (nonlinear_arith);
        assert(a.z * a.x == a.x * a.z) by (nonlinear_arith);
        assert(a.x * a.y == a.y * a.x) by (nonlinear_arith);
    }

    /// Normalising the zero vector leaves it zero, whatever length is given.
    pub proof fn lemma_zeros_over_or_same(d: int)
        ensures
            XYZ::<int>::zeros().over_or_same(d) == XYZ::<int>::zeros(),
    {
        if d != 0 {
            lemma_truncated_zero(d);
        }
    }
}

impl<T> XYZ<T> {
    /// The vector of the given components.
    pub fn new(x: T, y: T, z: T) -> (r: XYZ<T>)
        ensures
            r == (XYZ { x, y, z }),
    {
        XYZ { x, y, z }
    }
}

impl<T: Integer> XYZ<T> {
    /// The vector of `T` whose view is `m`, where there is one.
    pub open spec fn with_view(m: XYZ<int>) -> XYZ<T> {
        choose|r: XYZ<T>| r@ == m
    }

    /// Equal views belong to equal values.
    pub proof fn lemma_view_injective(a: XYZ<T>, b: XYZ<T>)
        ensures
            a@ == b@ ==> a == b,
    {
        T::lemma_integer(a.x, b.x);
        T::lemma_integer(a.y, b.y);
        T::lemma_integer(a.z, b.z);
    }

    /// A value is the one that has its view.
    pub proof fn lemma_with_view(self)
        ensures
            Self::with_view(self@) == self,
    {
        Self::lemma_view_injective(Self::with_view(self@), self);
    }

    /// Appends the text of the vector to `out`.
    pub fn append_to(&self, out: &mut Vec<char>)
        ensures
            final(out)@ == old(out)@ + self@.text(),
    {
        out.push('(');
        push_decimal(out, self.x.widen());
        out.push(',');
        push_decimal(out, self.y.widen());
        out.push(',');
        push_decimal(out, self.z.widen());
        out.push(')');
        assert(out@ =~= old(out)@ + self@.text());
    }

    /// The vector as text.
    pub fn to_string(&self) -> (s: String)
        ensures
            s@ == self@.text(),
    {
        let mut out: Vec<char> = Vec::new();
        self.append_to(&mut out);
        assert(out@ =~= self@.text());
        string_of(&out)
    }

    /// The view of the zero vector is all zeros.
    pub proof fn lemma_zero_view()
        ensures
            Self::zero_spec()@ == XYZ::<int>::zeros(),
    {
        T::lemma_integer(T::zero_spec(), T::zero_spec());
    }

    /// The product with the scalar written on the left, `s * self`.
    pub fn rmul(self, s: T) -> (r: XYZ<T>)
        requires
            self@.scaled(s.value()).fits::<T>(),
        ensures
            r@ == self@.scaled(s.value()),
    {
        self * s
    }

    /// The cross product of `a` and `b`.
    pub fn cross(a: XYZ<T>, b: XYZ<T>) -> (r: XYZ<T>)
        requires
            a@.cross_fits::<T>(b@),
        ensures
            r@ == a@.cross_product(b@),
    {
        XYZ {
            x: a.y.times(b.z).minus(a.z.times(b.y)),
            y: a.z.times(b.x).minus(a.x.times(b.z)),
            z: a.x.times(b.y).minus(a.y.times(b.x)),
        }
    }

    /// The inner product of `a` and `b`.
    pub fn dot(a: XYZ<T>, b: XYZ<T>) -> (r: T)
        requires
            a@.dot_fits::<T>(b@),
        ensures
            r.value() == a@.dot_product(b@),
    {
        a.x.times(b.x).plus(a.y.times(b.y)).plus(a.z.times(b.z))
    }

    /// The vector brought to unit length, given its `length`: every
    /// component divided by `length`, or the vector unchanged when `length`
    /// is zero.
    pub fn norm(self, length: T) -> (r: XYZ<T>)
        requires
            length.value() != 0 ==> self@.over(length.value()).fits::<T>(),
        ensures
            r@ == self@.over_or_same(length.value()),
    {
        self / length
    }
}

impl<T: Integer> Zero for XYZ<T> {
    open spec fn zero_spec() -> XYZ<T> {
        XYZ { x: T::zero_spec(), y: T::zero_spec(), z: T::zero_spec() }
    }

    fn zero() -> (r: XYZ<T>) {
        XYZ { x: T::zero(), y: T::zero(), z: T::zero() }
    }
}

impl<T: Integer> PartialEq for XYZ<T> {
    fn eq(&self, other: &XYZ<T>) -> (r: bool) {
        self.x.equals(other.x) && self.y.equals(other.y) && self.z.equals(other.z)
    }
}

impl<T: Integer> vstd::std_specs::cmp::PartialEqSpecImpl for XYZ<T> {
    open spec fn obeys_eq_spec() -> bool {
        true
    }

    open spec fn eq_spec(&self, other: &XYZ<T>) -> bool {
        self@ == other@
    }
}

impl<T: Integer> core::ops::Add for XYZ<T> {
    type Output = XYZ<T>;

    fn add(self, other: XYZ<T>) -> (r: XYZ<T>)
        ensures
            r@ == self@.plus(other@),
    {
        let r = XYZ {
            x: self.x.plus(other.x),
            y: self.y.plus(other.y),
            z: self.z.plus(other.z),
        };
        proof {
            r.lemma_with_view();
        }
        r
    }
}

impl<T: Integer> vstd::std_specs::ops::AddSpecImpl for XYZ<T> {
    open spec fn obeys_add_spec() -> bool {
        true
    }

    open spec fn add_req(self, other: XYZ<T>) -> bool {
        self@.plus(other@).fits::<T>()
    }

    open spec fn add_spec(self, other: XYZ<T>) -> XYZ<T> {
        XYZ::with_view(self@.plus(other@))
    }
}

impl<T: Integer> core::ops::Sub for XYZ<T> {
    type Output = XYZ<T>;

    fn sub(self, other: XYZ<T>) -> (r: XYZ<T>)
        ensures
            r@ == self@.minus(other@),
    {
        let r = XYZ {
            x: self.x.minus(other.x),
            y: self.y.minus(other.y),
            z: self.z.minus(other.z),
        };
        proof {
            r.lemma_with_view();
        }
        r
    }
}

impl<T: Integer> vstd::std_specs::ops::SubSpecImpl for XYZ<T> {
    open spec fn obeys_sub_spec() -> bool {
        true
    }

    open spec fn sub_req(self, other: XYZ<T>) -> bool {
        self@.minus(other@).fits::<T>()
    }

    open spec fn sub_spec(self, other: XYZ<T>) -> XYZ<T> {
        XYZ::with_view(self@.minus(other@))
    }
}

impl<T: Integer> core::ops::AddAssign for XYZ<T> {
    fn add_assign(&mut self, other: XYZ<T>)
        requires
            old(self)@.plus(other@).fits::<T>(),
        ensures
            final(self)@ == old(self)@.plus(other@),
    {
        self.x = self.x.plus(other.x);
        self.y = self.y.plus(other.y);
        self.z = self.z.plus(other.z);
    }
}

impl<T: Integer> core::ops::SubAssign for XYZ<T> {
    fn sub_assign(&mut self, other: XYZ<T>)
        requires
            old(self)@.minus(other@).fits::<T>(),
        ensures
            final(self)@ == old(self)@.minus(other@),
    {
        self.x = self.x.minus(other.x);
        self.y = self.y.minus(other.y);
        self.z = self.z.minus(other.z);
    }
}

impl<T: Signed> core::ops::Neg for XYZ<T> {
    type Output = XYZ<T>;

    fn neg(self) -> (r: XYZ<T>)
        ensures
            r@ == self@.negated(),
    {
        let r = XYZ { x: self.x.negated(), y: self.y.negated(), z: self.z.negated() };
        proof {
            r.lemma_with_view();
        }
        r
    }
}

impl<T: Signed> vstd::std_specs::ops::NegSpecImpl for XYZ<T> {
    open spec fn obeys_neg_spec() -> bool {
        true
    }

    open spec fn neg_req(self) -> bool {
        self@.negated().fits::<T>()
    }

    open spec fn neg_spec(self) -> XYZ<T> {
        XYZ::with_view(self@.negated())
    }
}

impl<T: Integer> core::ops::Mul<T> for XYZ<T> {
    type Output = XYZ<T>;

    fn mul(self, other: T) -> (r: XYZ<T>)
        ensures
            r@ == self@.scaled(other.value()),
    {
        let r = XYZ { x: self.x.times(other), y: self.y.times(other), z: self.z.times(other) };
        proof {
            r.lemma_with_view();
        }
        r
    }
}

impl<T: Integer> vstd::std_specs::ops::MulSpecImpl<T> for XYZ<T> {
    open spec fn obeys_mul_spec() -> bool {
        true
    }

    open spec fn mul_req(self, other: T) -> bool {
        self@.scaled(other.value()).fits::<T>()
    }

    open spec fn mul_spec(self, other: T) -> XYZ<T> {
        XYZ::with_view(self@.scaled(other.value()))
    }
}

impl<T: Integer> core::ops::MulAssign<T> for XYZ<T> {
    fn mul_assign(&mut self, other: T)
        requires
            old(self)@.scaled(other.value()).fits::<T>(),
        ensures
            final(self)@ == old(self)@.scaled(other.value()),
    {
        self.x = self.x.times(other);
        self.y = self.y.times(other);
        self.z = self.z.times(other);
    }
}

/// Division by a scalar, rounding toward zero. A divisor of zero leaves the
/// vector as it is.
impl<T: Integer> core::ops::Div<T> for XYZ<T> {
    type Output = XYZ<T>;

    fn div(self, other: T) -> (r: XYZ<T>)
        ensures
            r@ == self@.over_or_same(other.value()),
    {
        if !other.is_zero() {
            let r = XYZ { x: self.x.over(other), y: self.y.over(other), z: self.z.over(other) };
            proof {
                r.lemma_with_view();
            }
            r
        } else {
            proof {
                self.lemma_with_view();
            }
            self
        }
    }
}

impl<T: Integer> vstd::std_specs::ops::DivSpecImpl<T> for XYZ<T> {
    open spec fn obeys_div_spec() -> bool {
        true
    }

    open spec fn div_req(self, other: T) -> bool {
        other.value() != 0 ==> self@.over(other.value()).fits::<T>()
    }

    open spec fn div_spec(self, other: T) -> XYZ<T> {
        XYZ::with_view(self@.over_or_same(other.value()))
    }
}

impl<T: Integer> core::ops::DivAssign<T> for XYZ<T> {
    fn div_assign(&mut self, other: T)
        requires
            other.value() != 0 ==> old(self)@.over(other.value()).fits::<T>(),
        ensures
            final(self)@ == old(self)@.over_or_same(other.value()),
    {
        if !other.is_zero() {
            self.x = self.x.over(other);
            self.y = self.y.over(other);
            self.z = self.z.over(other);
        }
    }
}

/// A vector of four components.
#[derive(Copy, Debug)]
pub struct XYZW<T> {
    pub x: T,
    pub y: T,
    pub z: T,
    pub w: T,
}

impl<T: Copy> Clone for XYZW<T> {
    fn clone(&self) -> (r: Self)
        ensures
            r == *self,
    {
        *self
    }
}

impl<T: Integer> View for XYZW<T> {
    type V = XYZW<int>;

    open spec fn view(&self) -> XYZW<int> {
        XYZW { x: self.x.value(), y: self.y.value(), z: self.z.value(), w: self.w.value() }
    }
}

impl XYZW<int> {
    /// Whether every component is a value of `T`.
    pub open spec fn fits<T: Integer>(self) -> bool {
        &&& in_range::<T>(self.x)
        &&& in_range::<T>(self.y)
        &&& in_range::<T>(self.z)
        &&& in_range::<T>(self.w)
    }

    /// The vector whose components are all zero.
    pub open spec fn zeros() -> XYZW<int> {
        XYZW { x: 0, y: 0, z: 0, w: 0 }
    }

    /// The component-wise sum.
    pub open spec fn plus(self, other: XYZW<int>) -> XYZW<int> {
        XYZW {
            x: self.x + other.x,
            y: self.y + other.y,
            z: self.z + other.z,
            w: self.w + other.w,
        }
    }

    /// The component-wise difference.
    pub open spec fn minus(self, other: XYZW<int>) -> XYZW<int> {
        XYZW {
            x: self.x - other.x,
            y: self.y - other.y,
            z: self.z - other.z,
            w: self.w - other.w,
        }
    }

    /// Every component negated.
    pub open spec fn negated(self) -> XYZW<int> {
        XYZW { x: -self.x, y: -self.y, z: -self.z, w: -self.w }
    }

    /// Every component multiplied by `s`.
    pub open spec fn scaled(self, s: int) -> XYZW<int> {
        XYZW { x: self.x * s, y: self.y * s, z: self.z * s, w: self.w * s }
    }

    /// Every component divided by `d`, rounding toward zero.
    pub open spec fn over(self, d: int) -> XYZW<int> {
        XYZW {
            x: truncated(self.x, d),
            y: truncated(self.y, d),
            z: truncated(self.z, d),
            w: truncated(self.w, d),
        }
    }

    /// Division that leaves the vector as it is when the divisor is zero.
    pub open spec fn over_or_same(self, d: int) -> XYZW<int> {
        if d == 0 {
            self
        } else {
            self.over(d)
        }
    }

    /// The vector as text.
    pub open spec fn text(self) -> Seq<char> {
        seq!['('] + decimal(self.x) + seq![','] + decimal(self.y) + seq![','] + decimal(self.z)
            + seq![','] + decimal(self.w) + seq![')']
    }

    /// Adding `b` and then subtracting it again gives `a` back.
    pub proof fn lemma_plus_minus(a: XYZW<int>, b: XYZW<int>)
        ensures
            a.plus(b).minus(b) == a,
    {
    }

    /// Scaling by one changes nothing.
    pub proof fn lemma_scaled_one(a: XYZW<int>)
        ensures
            a.scaled(1) == a,
    {
    }

    /// Scaling by zero gives zero.
    pub proof fn lemma_scaled_zero(a: XYZW<int>)
        ensures
            a.scaled(0) == XYZW::<int>::zeros(),
    {
    }
}

impl<T> XYZW<T> {
    /// The vector of the given components.
    pub fn new(x: T, y: T, z: T, w: T) -> (r: XYZW<T>)
        ensures
            r == (XYZW { x, y, z, w }),
    {
        XYZW { x, y, z, w }
    }
}

impl<T: Integer> XYZW<T> {
    /// The vector of `T` whose view is `m`, where there is one.
    pub open spec fn with_view(m: XYZW<int>) -> XYZW<T> {
        choose|r: XYZW<T>| r@ == m
    }

    /// Equal views belong to equal values.
    pub proof fn lemma_view_injective(a: XYZW<T>, b: XYZW<T>)
        ensures
            a@ == b@ ==> a == b,
    {
        T::lemma_integer(a.x, b.x);
        T::lemma_integer(a.y, b.y);
        T::lemma_integer(a.z, b.z);
        T::lemma_integer(a.w, b.w);
    }

    /// A value is the one that has its view.
    pub proof fn lemma_with_view(self)
        ensures
            Self::with_view(self@) == self,
    {
        Self::lemma_view_injective(Self::with_view(self@), self);
    }

    /// Appends the text of the vector to `out`.
    pub fn append_to(&self, out: &mut Vec<char>)
        ensures
            final(out)@ == old(out)@ + self@.text(),
    {
        out.push('(');
        let ghost mut done = seq!['('];
        push_decimal(out, self.x.widen());
        out.push(',');
        proof {
            done = done + decimal(self@.x) + seq![','];
            assert(out@ =~= old(out)@ + done);
        }
        push_decimal(out, self.y.widen());
        out.push(',');
        proof {
            done = done + decimal(self@.y) + seq![','];
            assert(out@ =~= old(out)@ + done);
        }
        push_decimal(out, self.z.widen());
        out.push(',');
        proof {
            done = done + decimal(self@.z) + seq![','];
            assert(out@ =~= old(out)@ + done);
        }
        push_decimal(out, self.w.widen());
        out.push(')');
        proof {
            done = done + decimal(self@.w) + seq![')'];
            assert(out@ =~= old(out)@ + done);
        }
    }

    /// The vector as text.
    pub fn to_string(&self) -> (s: String)
        ensures
            s@ == self@.text(),
    {
        let mut out: Vec<char> = Vec::new();
        self.append_to(&mut out);
        assert(out@ =~= self@.text());
        string_of(&out)
    }

    /// The view of the zero vector is all zeros.
    pub proof fn lemma_zero_view()
        ensures
            Self::zero_spec()@ == XYZW::<int>::zeros(),
    {
        T::lemma_integer(T::zero_spec(), T::zero_spec());
    }

    /// The product with the scalar written on the left, `s * self`.
    pub fn rmul(self, s: T) -> (r: XYZW<T>)
        requires
            self@.scaled(s.value()).fits::<T>(),
        ensures
            r@ == self@.scaled(s.value()),
    {
        self * s
    }
}

impl<T: Integer> Zero for XYZW<T> {
    open spec fn zero_spec() -> XYZW<T> {
        XYZW { x: T::zero_spec(), y: T::zero_spec(), z: T::zero_spec(), w: T::zero_spec() }
    }

    fn zero() -> (r: XYZW<T>) {
        XYZW { x: T::zero(), y: T::zero(), z: T::zero(), w: T::zero() }
    }
}

impl<T: Integer> PartialEq for XYZW<T> {
    fn eq(&self, other: &XYZW<T>) -> (r: bool) {
        self.x.equals(other.x)
            && self.y.equals(other.y)
            && self.z.equals(other.z)
            && self.w.equals(other.w)
    }
}

impl<T: Integer> vstd::std_specs::cmp::PartialEqSpecImpl for XYZW<T> {
    open spec fn obeys_eq_spec() -> bool {
        true
    }

    open spec fn eq_spec(&self, other: &XYZW<T>) -> bool {
        self@ == other@
    }
}

impl<T: Integer> core::ops::Add for XYZW<T> {
    type Output = XYZW<T>;

    fn add(self, other: XYZW<T>) -> (r: XYZW<T>)
        ensures
            r@ == self@.plus(other@),
    {
        let r = XYZW {
            x: self.x.plus(other.x),
            y: self.y.plus(other.y),
            z: self.z.plus(other.z),
            w: self.w.plus(other.w),
        };
        proof {
            r.lemma_with_view();
        }
        r
    }
}

impl<T: Integer> vstd::std_specs::ops::AddSpecImpl for XYZW<T> {
    open spec fn obeys_add_spec() -> bool {
        true
    }

    open spec fn add_req(self, other: XYZW<T>) -> bool {
        self@.plus(other@).fits::<T>()
    }

    open spec fn add_spec(self, other: XYZW<T>) -> XYZW<T> {
        XYZW::with_view(self@.plus(other@))
    }
}

impl<T: Integer> core::ops::Sub for XYZW<T> {
    type Output = XYZW<T>;

    fn sub(self, other: XYZW<T>) -> (r: XYZW<T>)
        ensures
            r@ == self@.minus(other@),
    {
        let r = XYZW {
            x: self.x.minus(other.x),
            y: self.y.minus(other.y),
            z: self.z.minus(other.z),
            w: self.w.minus(other.w),
        };
        proof {
            r.lemma_with_view();
        }
        r
    }
}

impl<T: Integer> vstd::std_specs::ops::SubSpecImpl for XYZW<T> {
    open spec fn obeys_sub_spec() -> bool {
        true
    }

    open spec fn sub_req(self, other: XYZW<T>) -> bool {
        self@.minus(other@).fits::<T>()
    }

    open spec fn sub_spec(self, other: XYZW<T>) -> XYZW<T> {
        XYZW::with_view(self@.minus(other@))
    }
}

impl<T: Integer> core::ops::AddAssign for XYZW<T> {
    fn add_assign(&mut self, other: XYZW<T>)
        requires
            old(self)@.plus(other@).fits::<T>(),
        ensures
            final(self)@ == old(self)@.plus(other@),
    {
        self.x = self.x.plus(other.x);
        self.y = self.y.plus(other.y);
        self.z = self.z.plus(other.z);
        self.w = self.w.plus(other.w);
    }
}

impl<T: Integer> core::ops::SubAssign for XYZW<T> {
    fn sub_assign(&mut self, other: XYZW<T>)
        requires
            old(self)@.minus(other@).fits::<T>(),
        ensures
            final(self)@ == old(self)@.minus(other@),
    {
        self.x = self.x.minus(other.x);
        self.y = self.y.minus(other.y);
        self.z = self.z.minus(other.z);
        self.w = self.w.minus(other.w);
    }
}

impl<T: Signed> core::ops::Neg for XYZW<T> {
    type Output = XYZW<T>;

    fn neg(self) -> (r: XYZW<T>)
        ensures
            r@ == self@.negated(),
    {
        let r = XYZW {
            x: self.x.negated(),
            y: self.y.negated(),
            z: self.z.negated(),
            w: self.w.negated(),
        };
        proof {
            r.lemma_with_view();
        }
        r
    }
}

impl<T: Signed> vstd::std_specs::ops::NegSpecImpl for XYZW<T> {
    open spec fn obeys_neg_spec() -> bool {
        true
    }

    open spec fn neg_req(self) -> bool {
        self@.negated().fits::<T>()
    }

    open spec fn neg_spec(self) -> XYZW<T> {
        XYZW::with_view(self@.negated())
    }
}

impl<T: Integer> core::ops::Mul<T> for XYZW<T> {
    type Output = XYZW<T>;

    fn mul(self, other: T) -> (r: XYZW<T>)
        ensures
            r@ == self@.scaled(other.value()),
    {
        let r = XYZW {
            x: self.x.times(other),
            y: self.y.times(other),
            z: self.z.times(other),
            w: self.w.times(other),
        };
        proof {
            r.lemma_with_view();
        }
        r
    }
}

impl<T: Integer> vstd::std_specs::ops::MulSpecImpl<T> for XYZW<T> {
    open spec fn obeys_mul_spec() -> bool {
        true
    }

    open spec fn mul_req(self, other: T) -> bool {
        self@.scaled(other.value()).fits::<T>()
    }

    open spec fn mul_spec(self, other: T) -> XYZW<T> {
        XYZW::with_view(self@.scaled(other.value()))
    }
}

impl<T: Integer> core::ops::MulAssign<T> for XYZW<T> {
    fn mul_assign(&mut self, other: T)
        requires
            old(self)@.scaled(other.value()).fits::<T>(),
        ensures
            final(self)@ == old(self)@.scaled(other.value()),
    {
        self.x = self.x.times(other);
        self.y = self.y.times(other);
        self.z = self.z.times(other);
        self.w = self.w.times(other);
    }
}

/// Division by a scalar, rounding toward zero. A divisor of zero leaves the
/// vector as it is.
impl<T: Integer> core::ops::Div<T> for XYZW<T> {
    type Output = XYZW<T>;

    fn div(self, other: T) -> (r: XYZW<T>)
        ensures
            r@ == self@.over_or_same(other.value()),
    {
        if !other.is_zero() {
            let r = XYZW {
                x: self.x.over(other),
                y: self.y.over(other),
                z: self.z.over(other),
                w: self.w.over(other),
            };
            proof {
                r.lemma_with_view();
            }
            r
        } else {
            proof {
                self.lemma_with_view();
            }
            self
        }
    }
}

impl<T: Integer> vstd::std_specs::ops::DivSpecImpl<T> for XYZW<T> {
    open spec fn obeys_div_spec() -> bool {
        true
    }

    open spec fn div_req(self, other: T) -> bool {
        other.value() != 0 ==> self@.over(other.value()).fits::<T>()
    }

    open spec fn div_spec(self, other: T) -> XYZW<T> {
        XYZW::with_view(self@.over_or_same(other.value()))
    }
}

impl<T: Integer> core::ops::DivAssign<T> for XYZW<T> {
    fn div_assign(&mut self, other: T)
        requires
            other.value() != 0 ==> old(self)@.over(other.value()).fits::<T>(),
        ensures
            final(self)@ == old(self)@.over_or_same(other.value()),
    {
        if !other.is_zero() {
            self.x = self.x.over(other);
            self.y = self.y.over(other);
            self.z = self.z.over(other);
            self.w = self.w.over(other);
        }
    }
}

} // verus!
