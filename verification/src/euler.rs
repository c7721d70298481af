//! Euler angles as a triple of scalars.

use vstd::prelude::*;
use crate::scalar::{Integer, Signed, Zero, in_range, truncated};
use crate::text::{decimal, push_decimal, string_of};

verus! {

/// Euler angles: yaw, pitch and bank. They add and scale as a vector does;
/// nothing here composes the rotations that they stand for.
#[derive(Copy, Debug)]
pub struct YPB<T> {
    pub y: T,
    pub p: T,
    pub b: T,
}

impl<T: Copy> Clone for YPB<T> {
    fn clone(&self) -> (r: Self)
        ensures
            r == *self,
    {
        *self
    }
}

impl<T: Integer> View for YPB<T> {
    type V = YPB<int>;

    open spec fn view(&self) -> YPB<int> {
        YPB { y: self.y.value(), p: self.p.value(), b: self.b.value() }
    }
}

impl YPB<int> {
    /// Whether every component is a value of `T`.
    pub open spec fn fits<T: Integer>(self) -> bool {
        &&& in_range::<T>(self.y)
        &&& in_range::<T>(self.p)
        &&& in_range::<T>(self.b)
    }

    /// The triple whose components are all zero.
    pub open spec fn zeros() -> YPB<int> {
        YPB { y: 0, p: 0, b: 0 }
    }

    /// The component-wise sum.
    pub open spec fn plus(self, other: YPB<int>) -> YPB<int> {
        YPB { y: self.y + other.y, p: self.p + other.p, b: self.b + other.b }
    }

    /// The component-wise difference.
    pub open spec fn minus(self, other: YPB<int>) -> YPB<int> {
        YPB { y: self.y - other.y, p: self.p - other.p, b: self.b - other.b }
    }

    /// Every component negated.
    pub open spec fn negated(self) -> YPB<int> {
        YPB { y: -self.y, p: -self.p, b: -self.b }
    }

    /// Every component multiplied by `s`.
    pub open spec fn scaled(self, s: int) -> YPB<int> {
        YPB { y: self.y * s, p: self.p * s, b: self.b * s }
    }

    /// Every component divided by `d`, rounding toward zero.
    pub open spec fn over(self, d: int) -> YPB<int> {
        YPB { y: truncated(self.y, d), p: truncated(self.p, d), b: truncated(self.b, d) }
    }

    /// The triple as text.
    pub open spec fn text(self) -> Seq<char> {
        seq!['('] + decimal(self.y) + seq![','] + decimal(self.p) + seq![','] + decimal(self.b)
            + seq![')']
    }

    /// Adding `b` and then subtracting it again gives `a` back.
    pub proof fn lemma_plus_minus(a: YPB<int>, b: YPB<int>)
        ensures
            a.plus(b).minus(b) == a,
    {
    }

    /// Scaling by one changes nothing.
    pub proof fn lemma_scaled_one(a: YPB<int>)
        ensures
            a.scaled(1) == a,
    {
    }

    /// Scaling by zero gives zero.
    pub proof fn lemma_scaled_zero(a: YPB<int>)
        ensures
            a.scaled(0) == YPB::<int>::zeros(),
    {
    }
}

impl<T> YPB<T> {
    /// The triple of the given angles.
    pub fn new(y: T, p: T, b: T) -> (r: YPB<T>)
        ensures
            r == (YPB { y, p, b }),
    {
        YPB { y, p, b }
    }
}

impl<T: Integer> YPB<T> {
    /// The triple of `T` whose view is `m`, where there is one.
    pub open spec fn with_view(m: YPB<int>) -> YPB<T> {
        choose|r: YPB<T>| r@ == m
    }

    /// Equal views belong to equal values.
    pub proof fn lemma_view_injective(a: YPB<T>, b: YPB<T>)
        ensures
            a@ == b@ ==> a == b,
    {
        T::lemma_integer(a.y, b.y);
        T::lemma_integer(a.p, b.p);
        T::lemma_integer(a.b, b.b);
    }

    /// A value is the one that has its view.
    pub proof fn lemma_with_view(self)
        ensures
            Self::with_view(self@) == self,
    {
        Self::lemma_view_injective(Self::with_view(self@), self);
    }

    /// Appends the text of the triple to `out`.
    pub fn append_to(&self, out: &mut Vec<char>)
        ensures
            final(out)@ == old(out)@ + self@.text(),
    {
        out.push('(');
        push_decimal(out, self.y.widen());
        out.push(',');
        push_decimal(out, self.p.widen());
        out.push(',');
        push_decimal(out, self.b.widen());
        out.push(')');
        assert(out@ =~= old(out)@ + self@.text());
    }

    /// The triple as text.
    pub fn to_string(&self) -> (s: String)
        ensures
            s@ == self@.text(),
    {
        let mut out: Vec<char> = Vec::new();
        self.append_to(&mut out);
        assert(out@ =~= self@.text());
        string_of(&out)
    }

    /// The view of the zero triple is all zeros.
    pub proof fn lemma_zero_view()
        ensures
            Self::zero_spec()@ == YPB::<int>::zeros(),
    {
        T::lemma_integer(T::zero_spec(), T::zero_spec());
    }

    /// The product with the scalar written on the left, `s * self`.
    pub fn rmul(self, s: T) -> (r: YPB<T>)
        requires
            self@.scaled(s.value()).fits::<T>(),
        ensures
            r@ == self@.scaled(s.value()),
    {
        self * s
    }
}

impl<T: Integer> Zero for YPB<T> {
    open spec fn zero_spec() -> YPB<T> {
        YPB { y: T::zero_spec(), p: T::zero_spec(), b: T::zero_spec() }
    }

    fn zero() -> (r: YPB<T>) {
        YPB { y: T::zero(), p: T::zero(), b: T::zero() }
    }
}

impl<T: Integer> PartialEq for YPB<T> {
    fn eq(&self, other: &YPB<T>) -> (r: bool) {
        self.y.equals(other.y) && self.p.equals(other.p) && self.b.equals(other.b)
    }
}

impl<T: Integer> vstd::std_specs::cmp::PartialEqSpecImpl for YPB<T> {
    open spec fn obeys_eq_spec() -> bool {
        true
    }

    open spec fn eq_spec(&self, other: &YPB<T>) -> bool {
        self@ == other@
    }
}

impl<T: Integer> core::ops::Add for YPB<T> {
    type Output = YPB<T>;

    fn add(self, other: YPB<T>) -> (r: YPB<T>)
        ensures
            r@ == self@.plus(other@),
    {
        let r = YPB {
            y: self.y.plus(other.y),
            p: self.p.plus(other.p),
            b: self.b.plus(other.b),
        };
        proof {
            r.lemma_with_view();
        }
        r
    }
}

impl<T: Integer> vstd::std_specs::ops::AddSpecImpl for YPB<T> {
    open spec fn obeys_add_spec() -> bool {
        true
    }

    open spec fn add_req(self, other: YPB<T>) -> bool {
        self@.plus(other@).fits::<T>()
    }

    open spec fn add_spec(self, other: YPB<T>) -> YPB<T> {
        YPB::with_view(self@.plus(other@))
    }
}

impl<T: Integer> core::ops::Sub for YPB<T> {
    type Output = YPB<T>;

    fn sub(self, other: YPB<T>) -> (r: YPB<T>)
        ensures
            r@ == self@.minus(other@),
    {
        let r = YPB {
            y: self.y.minus(other.y),
            p: self.p.minus(other.p),
            b: self.b.minus(other.b),
        };
        proof {
            r.lemma_with_view();
        }
        r
    }
}

impl<T: Integer> vstd::std_specs::ops::SubSpecImpl for YPB<T> {
    open spec fn obeys_sub_spec() -> bool {
        true
    }

    open spec fn sub_req(self, other: YPB<T>) -> bool {
        self@.minus(other@).fits::<T>()
    }

    open spec fn sub_spec(self, other: YPB<T>) -> YPB<T> {
        YPB::with_view(self@.minus(other@))
    }
}

impl<T: Integer> core::ops::AddAssign for YPB<T> {
    fn add_assign(&mut self, other: YPB<T>)
        requires
            old(self)@.plus(other@).fits::<T>(),
        ensures
            final(self)@ == old(self)@.plus(other@),
    {
        self.y = self.y.plus(other.y);
        self.p = self.p.plus(other.p);
        self.b = self.b.plus(other.b);
    }
}

impl<T: Integer> core::ops::SubAssign for YPB<T> {
    fn sub_assign(&mut self, other: YPB<T>)
        requires
            old(self)@.minus(other@).fits::<T>(),
        ensures
            final(self)@ == old(self)@.minus(other@),
    {
        self.y = self.y.minus(other.y);
        self.p = self.p.minus(other.p);
        self.b = self.b.minus(other.b);
    }
}

impl<T: Signed> core::ops::Neg for YPB<T> {
    type Output = YPB<T>;

    fn neg(self) -> (r: YPB<T>)
        ensures
            r@ == self@.negated(),
    {
        let r = YPB { y: self.y.negated(), p: self.p.negated(), b: self.b.negated() };
        proof {
            r.lemma_with_view();
        }
        r
    }
}

impl<T: Signed> vstd::std_specs::ops::NegSpecImpl for YPB<T> {
    open spec fn obeys_neg_spec() -> bool {
        true
    }

    open spec fn neg_req(self) -> bool {
        self@.negated().fits::<T>()
    }

    open spec fn neg_spec(self) -> YPB<T> {
        YPB::with_view(self@.negated())
    }
}

impl<T: Integer> core::ops::Mul<T> for YPB<T> {
    type Output = YPB<T>;

    fn mul(self, other: T) -> (r: YPB<T>)
        ensures
            r@ == self@.scaled(other.value()),
    {
        let r = YPB { y: self.y.times(other), p: self.p.times(other), b: self.b.times(other) };
        proof {
            r.lemma_with_view();
        }
        r
    }
}

impl<T: Integer> vstd::std_specs::ops::MulSpecImpl<T> for YPB<T> {
    open spec fn obeys_mul_spec() -> bool {
        true
    }

    open spec fn mul_req(self, other: T) -> bool {
        self@.scaled(other.value()).fits::<T>()
    }

    open spec fn mul_spec(self, other: T) -> YPB<T> {
        YPB::with_view(self@.scaled(other.value()))
    }
}

impl<T: Integer> core::ops::MulAssign<T> for YPB<T> {
    fn mul_assign(&mut self, other: T)
        requires
            old(self)@.scaled(other.value()).fits::<T>(),
        ensures
            final(self)@ == old(self)@.scaled(other.value()),
    {
        self.y = self.y.times(other);
        self.p = self.p.times(other);
        self.b = self.b.times(other);
    }
}

/// Division by a scalar, rounding toward zero. There is no guard here: the
/// divisor must not be zero.
impl<T: Integer> core::ops::Div<T> for YPB<T> {
    type Output = YPB<T>;

    fn div(self, other: T) -> (r: YPB<T>)
        ensures
            r@ == self@.over(other.value()),
    {
        let r = YPB { y: self.y.over(other), p: self.p.over(other), b: self.b.over(other) };
        proof {
            r.lemma_with_view();
        }
        r
    }
}

impl<T: Integer> vstd::std_specs::ops::DivSpecImpl<T> for YPB<T> {
    open spec fn obeys_div_spec() -> bool {
        true
    }

    open spec fn div_req(self, other: T) -> bool {
        other.value() != 0 && self@.over(other.value()).fits::<T>()
    }

    open spec fn div_spec(self, other: T) -> YPB<T> {
        YPB::with_view(self@.over(other.value()))
    }
}

impl<T: Integer> core::ops::DivAssign<T> for YPB<T> {
    fn div_assign(&mut self, other: T)
        requires
            other.value() != 0,
            old(self)@.over(other.value()).fits::<T>(),
        ensures
            final(self)@ == old(self)@.over(other.value()),
    {
        self.y = self.y.over(other);
        self.p = self.p.over(other);
        self.b = self.b.over(other);
    }
}

} // verus!
