//! Colours of three and four channels.

use vstd::prelude::*;
use crate::scalar::{Integer, Signed, Zero, in_range, truncated};
use crate::text::{decimal, push_decimal, string_of};

verus! {

/// A colour of three channels: red, green and blue. No range is imposed on
/// a channel.
#[derive(Copy, Debug)]
pub struct RGB<T> {
    pub r: T,
    pub g: T,
    pub b: T,
}

impl<T: Copy> Clone for RGB<T> {
    fn clone(&self) -> (r: Self)
        ensures
            r == *self,
    {
        *self
    }
}

impl<T: Integer> View for RGB<T> {
    type V = RGB<int>;

    open spec fn view(&self) -> RGB<int> {
        RGB { r: self.r.value(), g: self.g.value(), b: self.b.value() }
    }
}

impl RGB<int> {
    /// Whether every component is a value of `T`.
    pub open spec fn fits<T: Integer>(self) -> bool {
        &&& in_range::<T>(self.r)
        &&& in_range::<T>(self.g)
        &&& in_range::<T>(self.b)
    }

    /// The colour whose components are all zero.
    pub open spec fn zeros() -> RGB<int> {
        RGB { r: 0, g: 0, b: 0 }
    }

    /// The component-wise sum.
    pub open spec fn plus(self, other: RGB<int>) -> RGB<int> {
        RGB { r: self.r + other.r, g: self.g + other.g, b: self.b + other.b }
    }

    /// The component-wise difference.
    pub open spec fn minus(self, other: RGB<int>) -> RGB<int> {
        RGB { r: self.r - other.r, g: self.g - other.g, b: self.b - other.b }
    }

    /// Every component negated.
    pub open spec fn negated(self) -> RGB<int> {
        RGB { r: -self.r, g: -self.g, b: -self.b }
    }

    /// Every component multiplied by `s`.
    pub open spec fn scaled(self, s: int) -> RGB<int> {
        RGB { r: self.r * s, g: self.g * s, b: self.b * s }
    }

    /// The component-wise product.
    pub open spec fn times(self, other: RGB<int>) -> RGB<int> {
        RGB { r: self.r * other.r, g: self.g * other.g, b: self.b * other.b }
    }

    /// Every component divided by `d`, rounding toward zero.
    pub open spec fn over(self, d: int) -> RGB<int> {
        RGB { r: truncated(self.r, d), g: truncated(self.g, d), b: truncated(self.b, d) }
    }

    /// Division that leaves the colour as it is when the divisor is zero.
    pub open spec fn over_or_same(self, d: int) -> RGB<int> {
        if d == 0 {
            self
        } else {
            self.over(d)
        }
    }

    /// The colour as text.
    pub open spec fn text(self) -> Seq<char> {
        seq!['('] + decimal(self.r) + seq![','] + decimal(self.g) + seq![','] + decimal(self.b)
            + seq![')']
    }

    /// Adding `b` and then subtracting it again gives `a` back.
    pub proof fn lemma_plus_minus(a: RGB<int>, b: RGB<int>)
        ensures
            a.plus(b).minus(b) == a,
    {
    }

    /// Scaling by one changes nothing.
    pub proof fn lemma_scaled_one(a: RGB<int>)
        ensures
            a.scaled(1) == a,
    {
    }

    /// Scaling by zero gives zero.
    pub proof fn lemma_scaled_zero(a: RGB<int>)
        ensures
            a.scaled(0) == RGB::<int>::zeros(),
    {
    }
}

impl<T> RGB<T> {
    /// The colour of the given channels.
    pub fn new(r: T, g: T, b: T) -> (made: RGB<T>)
        ensures
            made == (RGB { r, g, b }),
    {
        RGB { r, g, b }
    }
}

impl<T: Integer> RGB<T> {
    /// The colour of `T` whose view is `m`, where there is one.
    pub open spec fn with_view(m: RGB<int>) -> RGB<T> {
        choose|r: RGB<T>| r@ == m
    }

    /// Equal views belong to equal values.
    pub proof fn lemma_view_injective(a: RGB<T>, b: RGB<T>)
        ensures
            a@ == b@ ==> a == b,
    {
        T::lemma_integer(a.r, b.r);
        T::lemma_integer(a.g, b.g);
        T::lemma_integer(a.b, b.b);
    }

    /// A value is the one that has its view.
    pub proof fn lemma_with_view(self)
        ensures
            Self::with_view(self@) == self,
    {
        Self::lemma_view_injective(Self::with_view(self@), self);
    }

    /// Appends the text of the colour to `out`.
    pub fn append_to(&self, out: &mut Vec<char>)
        ensures
            final(out)@ == old(out)@ + self@.text(),
    {
        out.push('(');
        push_decimal(out, self.r.widen());
        out.push(',');
        push_decimal(out, self.g.widen());
        out.push(',');
        push_decimal(out, self.b.widen());
        out.push(')');
        assert(out@ =~= old(out)@ + self@.text());
    }

    /// The colour as text.
    pub fn to_string(&self) -> (s: String)
        ensures
            s@ == self@.text(),
    {
        let mut out: Vec<char> = Vec::new();
        self.append_to(&mut out);
        assert(out@ =~= self@.text());
        string_of(&out)
    }

    /// The view of the zero colour is all zeros.
    pub proof fn lemma_zero_view()
        ensures
            Self::zero_spec()@ == RGB::<int>::zeros(),
    {
        T::lemma_integer(T::zero_spec(), T::zero_spec());
    }

    /// The product with the scalar written on the left, `s * self`.
    pub fn rmul(self, s: T) -> (r: RGB<T>)
        requires
            self@.scaled(s.value()).fits::<T>(),
        ensures
            r@ == self@.scaled(s.value()),
    {
        self * s
    }
}

impl<T: Integer> Zero for RGB<T> {
    open spec fn zero_spec() -> RGB<T> {
        RGB { r: T::zero_spec(), g: T::zero_spec(), b: T::zero_spec() }
    }

    fn zero() -> (r: RGB<T>) {
        RGB { r: T::zero(), g: T::zero(), b: T::zero() }
    }
}

impl<T: Integer> PartialEq for RGB<T> {
    fn eq(&self, other: &RGB<T>) -> (r: bool) {
        self.r.equals(other.r) && self.g.equals(other.g) && self.b.equals(other.b)
    }
}

impl<T: Integer> vstd::std_specs::cmp::PartialEqSpecImpl for RGB<T> {
    open spec fn obeys_eq_spec() -> bool {
        true
    }

    open spec fn eq_spec(&self, other: &RGB<T>) -> bool {
        self@ == other@
    }
}

impl<T: Integer> core::ops::Add for RGB<T> {
    type Output = RGB<T>;

    fn add(self, other: RGB<T>) -> (r: RGB<T>)
        ensures
            r@ == self@.plus(other@),
    {
        let r = RGB {
            r: self.r.plus(other.r),
            g: self.g.plus(other.g),
            b: self.b.plus(other.b),
        };
        proof {
            r.lemma_with_view();
        }
        r
    }
}

impl<T: Integer> vstd::std_specs::ops::AddSpecImpl for RGB<T> {
    open spec fn obeys_add_spec() -> bool {
        true
    }

    open spec fn add_req(self, other: RGB<T>) -> bool {
        self@.plus(other@).fits::<T>()
    }

    open spec fn add_spec(self, other: RGB<T>) -> RGB<T> {
        RGB::with_view(self@.plus(other@))
    }
}

impl<T: Integer> core::ops::Sub for RGB<T> {
    type Output = RGB<T>;

    fn sub(self, other: RGB<T>) -> (r: RGB<T>)
        ensures
            r@ == self@.minus(other@),
    {
        let r = RGB {
            r: self.r.minus(other.r),
            g: self.g.minus(other.g),
            b: self.b.minus(other.b),
        };
        proof {
            r.lemma_with_view();
        }
        r
    }
}

impl<T: Integer> vstd::std_specs::ops::SubSpecImpl for RGB<T> {
    open spec fn obeys_sub_spec() -> bool {
        true
    }

    open spec fn sub_req(self, other: RGB<T>) -> bool {
        self@.minus(other@).fits::<T>()
    }

    open spec fn sub_spec(self, other: RGB<T>) -> RGB<T> {
        RGB::with_view(self@.minus(other@))
    }
}

impl<T: Integer> core::ops::AddAssign for RGB<T> {
    fn add_assign(&mut self, other: RGB<T>)
        requires
            old(self)@.plus(other@).fits::<T>(),
        ensures
            final(self)@ == old(self)@.plus(other@),
    {
        self.r = self.r.plus(other.r);
        self.g = self.g.plus(other.g);
        self.b = self.b.plus(other.b);
    }
}

impl<T: Integer> core::ops::SubAssign for RGB<T> {
    fn sub_assign(&mut self, other: RGB<T>)
        requires
            old(self)@.minus(other@).fits::<T>(),
        ensures
            final(self)@ == old(self)@.minus(other@),
    {
        self.r = self.r.minus(other.r);
        self.g = self.g.minus(other.g);
        self.b = self.b.minus(other.b);
    }
}

impl<T: Signed> core::ops::Neg for RGB<T> {
    type Output = RGB<T>;

    fn neg(self) -> (r: RGB<T>)
        ensures
            r@ == self@.negated(),
    {
        let r = RGB { r: self.r.negated(), g: self.g.negated(), b: self.b.negated() };
        proof {
            r.lemma_with_view();
        }
        r
    }
}

impl<T: Signed> vstd::std_specs::ops::NegSpecImpl for RGB<T> {
    open spec fn obeys_neg_spec() -> bool {
        true
    }

    open spec fn neg_req(self) -> bool {
        self@.negated().fits::<T>()
    }

    open spec fn neg_spec(self) -> RGB<T> {
        RGB::with_view(self@.negated())
    }
}

impl<T: Integer> core::ops::Mul<T> for RGB<T> {
    type Output = RGB<T>;

    fn mul(self, other: T) -> (r: RGB<T>)
        ensures
            r@ == self@.scaled(other.value()),
    {
        let r = RGB { r: self.r.times(other), g: self.g.times(other), b: self.b.times(other) };
        proof {
            r.lemma_with_view();
        }
        r
    }
}

impl<T: Integer> vstd::std_specs::ops::MulSpecImpl<T> for RGB<T> {
    open spec fn obeys_mul_spec() -> bool {
        true
    }

    open spec fn mul_req(self, other: T) -> bool {
        self@.scaled(other.value()).fits::<T>()
    }

    open spec fn mul_spec(self, other: T) -> RGB<T> {
        RGB::with_view(self@.scaled(other.value()))
    }
}

impl<T: Integer> core::ops::MulAssign<T> for RGB<T> {
    fn mul_assign(&mut self, other: T)
        requires
            old(self)@.scaled(other.value()).fits::<T>(),
        ensures
            final(self)@ == old(self)@.scaled(other.value()),
    {
        self.r = self.r.times(other);
        self.g = self.g.times(other);
        self.b = self.b.times(other);
    }
}

impl<T: Integer> core::ops::Mul<RGB<T>> for RGB<T> {
    type Output = RGB<T>;

    fn mul(self, other: RGB<T>) -> (r: RGB<T>)
        ensures
            r@ == self@.times(other@),
    {
        let r = RGB {
            r: self.r.times(other.r),
            g: self.g.times(other.g),
            b: self.b.times(other.b),
        };
        proof {
            r.lemma_with_view();
        }
        r
    }
}

impl<T: Integer> vstd::std_specs::ops::MulSpecImpl<RGB<T>> for RGB<T> {
    open spec fn obeys_mul_spec() -> bool {
        true
    }

    open spec fn mul_req(self, other: RGB<T>) -> bool {
        self@.times(other@).fits::<T>()
    }

    open spec fn mul_spec(self, other: RGB<T>) -> RGB<T> {
        RGB::with_view(self@.times(other@))
    }
}

impl<T: Integer> core::ops::MulAssign<RGB<T>> for RGB<T> {
    fn mul_assign(&mut self, other: RGB<T>)
        requires
            old(self)@.times(other@).fits::<T>(),
        ensures
            final(self)@ == old(self)@.times(other@),
    {
        self.r = self.r.times(other.r);
        self.g = self.g.times(other.g);
        self.b = self.b.times(other.b);
    }
}

/// Division by a scalar, rounding toward zero. A divisor of zero leaves the
/// colour as it is.
impl<T: Integer> core::ops::Div<T> for RGB<T> {
    type Output = RGB<T>;

    fn div(self, other: T) -> (r: RGB<T>)
        ensures
            r@ == self@.over_or_same(other.value()),
    {
        if !other.is_zero() {
            let r = RGB { r: self.r.over(other), g: self.g.over(other), b: self.b.over(other) };
            proof {
                r.lemma_with_view();
            }
            r
        } else {
            proof {
                self.lemma_with_view();
            }
            self
        }
    }
}

impl<T: Integer> vstd::std_specs::ops::DivSpecImpl<T> for RGB<T> {
    open spec fn obeys_div_spec() -> bool {
        true
    }

    open spec fn div_req(self, other: T) -> bool {
        other.value() != 0 ==> self@.over(other.value()).fits::<T>()
    }

    open spec fn div_spec(self, other: T) -> RGB<T> {
        RGB::with_view(self@.over_or_same(other.value()))
    }
}

impl<T: Integer> core::ops::DivAssign<T> for RGB<T> {
    fn div_assign(&mut self, other: T)
        requires
            other.value() != 0 ==> old(self)@.over(other.value()).fits::<T>(),
        ensures
            final(self)@ == old(self)@.over_or_same(other.value()),
    {
        if !other.is_zero() {
            self.r = self.r.over(other);
            self.g = self.g.over(other);
            self.b = self.b.over(other);
        }
    }
}

/// A colour of four channels: red, green, blue and alpha. No range is
/// imposed on a channel.
#[derive(Copy, Debug)]
pub struct RGBA<T> {
    pub r: T,
    pub g: T,
    pub b: T,
    pub a: T,
}

impl<T: Copy> Clone for RGBA<T> {
    fn clone(&self) -> (r: Self)
        ensures
            r == *self,
    {
        *self
    }
}

impl<T: Integer> View for RGBA<T> {
    type V = RGBA<int>;

    open spec fn view(&self) -> RGBA<int> {
        RGBA { r: self.r.value(), g: self.g.value(), b: self.b.value(), a: self.a.value() }
    }
}

impl RGBA<int> {
    /// Whether every component is a value of `T`.
    pub open spec fn fits<T: Integer>(self) -> bool {
        &&& in_range::<T>(self.r)
        &&& in_range::<T>(self.g)
        &&& in_range::<T>(self.b)
        &&& in_range::<T>(self.a)
    }

    /// The colour whose components are all zero.
    pub open spec fn zeros() -> RGBA<int> {
        RGBA { r: 0, g: 0, b: 0, a: 0 }
    }

    /// The component-wise sum.
    pub open spec fn plus(self, other: RGBA<int>) -> RGBA<int> {
        RGBA {
            r: self.r + other.r,
            g: self.g + other.g,
            b: self.b + other.b,
            a: self.a + other.a,
        }
    }

    /// The component-wise difference.
    pub open spec fn minus(self, other: RGBA<int>) -> RGBA<int> {
        RGBA {
            r: self.r - other.r,
            g: self.g - other.g,
            b: self.b - other.b,
            a: self.a - other.a,
        }
    }

    /// Every component negated.
    pub open spec fn negated(self) -> RGBA<int> {
        RGBA { r: -self.r, g: -self.g, b: -self.b, a: -self.a }
    }

    /// Every component multiplied by `s`.
    pub open spec fn scaled(self, s: int) -> RGBA<int> {
        RGBA { r: self.r * s, g: self.g * s, b: self.b * s, a: self.a * s }
    }

    /// The component-wise product.
    pub open spec fn times(self, other: RGBA<int>) -> RGBA<int> {
        RGBA {
            r: self.r * other.r,
            g: self.g * other.g,
            b: self.b * other.b,
            a: self.a * other.a,
        }
    }

    /// Every component divided by `d`, rounding toward zero.
    pub open spec fn over(self, d: int) -> RGBA<int> {
        RGBA {
            r: truncated(self.r, d),
            g: truncated(self.g, d),
            b: truncated(self.b, d),
            a: truncated(self.a, d),
        }
    }

    /// Division that leaves the colour as it is when the divisor is zero.
    pub open spec fn over_or_same(self, d: int) -> RGBA<int> {
        if d == 0 {
            self
        } else {
            self.over(d)
        }
    }

    /// The colour as text.
    pub open spec fn text(self) -> Seq<char> {
        seq!['('] + decimal(self.r) + seq![','] + decimal(self.g) + seq![','] + decimal(self.b)
            + seq![','] + decimal(self.a) + seq![')']
    }

    /// Adding `b` and then subtracting it again gives `a` back.
    pub proof fn lemma_plus_minus(a: RGBA<int>, b: RGBA<int>)
        ensures
            a.plus(b).minus(b) == a,
    {
    }

    /// Scaling by one changes nothing.
    pub proof fn lemma_scaled_one(a: RGBA<int>)
        ensures
            a.scaled(1) == a,
    {
    }

    /// Scaling by zero gives zero.
    pub proof fn lemma_scaled_zero(a: RGBA<int>)
        ensures
            a.scaled(0) == RGBA::<int>::zeros(),
    {
    }
}

impl<T> RGBA<T> {
    /// The colour of the given channels.
    pub fn new(r: T, g: T, b: T, a: T) -> (made: RGBA<T>)
        ensures
            made == (RGBA { r, g, b, a }),
    {
        RGBA { r, g, b, a }
    }
}

impl<T: Integer> RGBA<T> {
    /// The colour of `T` whose view is `m`, where there is one.
    pub open spec fn with_view(m: RGBA<int>) -> RGBA<T> {
        choose|r: RGBA<T>| r@ == m
    }

    /// Equal views belong to equal values.
    pub proof fn lemma_view_injective(a: RGBA<T>, b: RGBA<T>)
        ensures
            a@ == b@ ==> a == b,
    {
        T::lemma_integer(a.r, b.r);
        T::lemma_integer(a.g, b.g);
        T::lemma_integer(a.b, b.b);
        T::lemma_integer(a.a, b.a);
    }

    /// A value is the one that has its view.
    pub proof fn lemma_with_view(self)
        ensures
            Self::with_view(self@) == self,
    {
        Self::lemma_view_injective(Self::with_view(self@), self);
    }

    /// Appends the text of the colour to `out`.
    pub fn append_to(&self, out: &mut Vec<char>)
        ensures
            final(out)@ == old(out)@ + self@.text(),
    {
        out.push('(');
        let ghost mut done = seq!['('];
        push_decimal(out, self.r.widen());
        out.push(',');
        proof {
            done = done + decimal(self@.r) + seq![','];
            assert(out@ =~= old(out)@ + done);
        }
        push_decimal(out, self.g.widen());
        out.push(',');
        proof {
            done = done + decimal(self@.g) + seq![','];
            assert(out@ =~= old(out)@ + done);
        }
        push_decimal(out, self.b.widen());
        out.push(',');
        proof {
            done = done + decimal(self@.b) + seq![','];
            assert(out@ =~= old(out)@ + done);
        }
        push_decimal(out, self.a.widen());
        out.push(')');
        proof {
            done = done + decimal(self@.a) + seq![')'];
            assert(out@ =~= old(out)@ + done);
        }
    }

    /// The colour as text.
    pub fn to_string(&self) -> (s: String)
        ensures
            s@ == self@.text(),
    {
        let mut out: Vec<char> = Vec::new();
        self.append_to(&mut out);
        assert(out@ =~= self@.text());
        string_of(&out)
    }

    /// The view of the zero colour is all zeros.
    pub proof fn lemma_zero_view()
        ensures
            Self::zero_spec()@ == RGBA::<int>::zeros(),
    {
        T::lemma_integer(T::zero_spec(), T::zero_spec());
    }

    /// The product with the scalar written on the left, `s * self`.
    pub fn rmul(self, s: T) -> (r: RGBA<T>)
        requires
            self@.scaled(s.value()).fits::<T>(),
        ensures
            r@ == self@.scaled(s.value()),
    {
        self * s
    }
}

impl<T: Integer> Zero for RGBA<T> {
    open spec fn zero_spec() -> RGBA<T> {
        RGBA { r: T::zero_spec(), g: T::zero_spec(), b: T::zero_spec(), a: T::zero_spec() }
    }

    fn zero() -> (r: RGBA<T>) {
        RGBA { r: T::zero(), g: T::zero(), b: T::zero(), a: T::zero() }
    }
}

impl<T: Integer> PartialEq for RGBA<T> {
    fn eq(&self, other: &RGBA<T>) -> (r: bool) {
        self.r.equals(other.r)
            && self.g.equals(other.g)
            && self.b.equals(other.b)
            && self.a.equals(other.a)
    }
}

impl<T: Integer> vstd::std_specs::cmp::PartialEqSpecImpl for RGBA<T> {
    open spec fn obeys_eq_spec() -> bool {
        true
    }

    open spec fn eq_spec(&self, other: &RGBA<T>) -> bool {
        self@ == other@
    }
}

impl<T: Integer> core::ops::Add for RGBA<T> {
    type Output = RGBA<T>;

    fn add(self, other: RGBA<T>) -> (r: RGBA<T>)
        ensures
            r@ == self@.plus(other@),
    {
        let r = RGBA {
            r: self.r.plus(other.r),
            g: self.g.plus(other.g),
            b: self.b.plus(other.b),
            a: self.a.plus(other.a),
        };
        proof {
            r.lemma_with_view();
        }
        r
    }
}

impl<T: Integer> vstd::std_specs::ops::AddSpecImpl for RGBA<T> {
    open spec fn obeys_add_spec() -> bool {
        true
    }

    open spec fn add_req(self, other: RGBA<T>) -> bool {
        self@.plus(other@).fits::<T>()
    }

    open spec fn add_spec(self, other: RGBA<T>) -> RGBA<T> {
        RGBA::with_view(self@.plus(other@))
    }
}

impl<T: Integer> core::ops::Sub for RGBA<T> {
    type Output = RGBA<T>;

    fn sub(self, other: RGBA<T>) -> (r: RGBA<T>)
        ensures
            r@ == self@.minus(other@),
    {
        let r = RGBA {
            r: self.r.minus(other.r),
            g: self.g.minus(other.g),
            b: self.b.minus(other.b),
            a: self.a.minus(other.a),
        };
        proof {
            r.lemma_with_view();
        }
        r
    }
}

impl<T: Integer> vstd::std_specs::ops::SubSpecImpl for RGBA<T> {
    open spec fn obeys_sub_spec() -> bool {
        true
    }

    open spec fn sub_req(self, other: RGBA<T>) -> bool {
        self@.minus(other@).fits::<T>()
    }

    open spec fn sub_spec(self, other: RGBA<T>) -> RGBA<T> {
        RGBA::with_view(self@.minus(other@))
    }
}

impl<T: Integer> core::ops::AddAssign for RGBA<T> {
    fn add_assign(&mut self, other: RGBA<T>)
        requires
            old(self)@.plus(other@).fits::<T>(),
        ensures
            final(self)@ == old(self)@.plus(other@),
    {
        self.r = self.r.plus(other.r);
        self.g = self.g.plus(other.g);
        self.b = self.b.plus(other.b);
        self.a = self.a.plus(other.a);
    }
}

impl<T: Integer> core::ops::SubAssign for RGBA<T> {
    fn sub_assign(&mut self, other: RGBA<T>)
        requires
            old(self)@.minus(other@).fits::<T>(),
        ensures
            final(self)@ == old(self)@.minus(other@),
    {
        self.r = self.r.minus(other.r);
        self.g = self.g.minus(other.g);
        self.b = self.b.minus(other.b);
        self.a = self.a.minus(other.a);
    }
}

impl<T: Signed> core::ops::Neg for RGBA<T> {
    type Output = RGBA<T>;

    fn neg(self) -> (r: RGBA<T>)
        ensures
            r@ == self@.negated(),
    {
        let r = RGBA {
            r: self.r.negated(),
            g: self.g.negated(),
            b: self.b.negated(),
            a: self.a.negated(),
        };
        proof {
            r.lemma_with_view();
        }
        r
    }
}

impl<T: Signed> vstd::std_specs::ops::NegSpecImpl for RGBA<T> {
    open spec fn obeys_neg_spec() -> bool {
        true
    }

    open spec fn neg_req(self) -> bool {
        self@.negated().fits::<T>()
    }

    open spec fn neg_spec(self) -> RGBA<T> {
        RGBA::with_view(self@.negated())
    }
}

impl<T: Integer> core::ops::Mul<T> for RGBA<T> {
    type Output = RGBA<T>;

    fn mul(self, other: T) -> (r: RGBA<T>)
        ensures
            r@ == self@.scaled(other.value()),
    {
        let r = RGBA {
            r: self.r.times(other),
            g: self.g.times(other),
            b: self.b.times(other),
            a: self.a.times(other),
        };
        proof {
            r.lemma_with_view();
        }
        r
    }
}

impl<T: Integer> vstd::std_specs::ops::MulSpecImpl<T> for RGBA<T> {
    open spec fn obeys_mul_spec() -> bool {
        true
    }

    open spec fn mul_req(self, other: T) -> bool {
        self@.scaled(other.value()).fits::<T>()
    }

    open spec fn mul_spec(self, other: T) -> RGBA<T> {
        RGBA::with_view(self@.scaled(other.value()))
    }
}

impl<T: Integer> core::ops::MulAssign<T> for RGBA<T> {
    fn mul_assign(&mut self, other: T)
        requires
            old(self)@.scaled(other.value()).fits::<T>(),
        ensures
            final(self)@ == old(self)@.scaled(other.value()),
    {
        self.r = self.r.times(other);
        self.g = self.g.times(other);
        self.b = self.b.times(other);
        self.a = self.a.times(other);
    }
}

impl<T: Integer> core::ops::Mul<RGBA<T>> for RGBA<T> {
    type Output = RGBA<T>;

    fn mul(self, other: RGBA<T>) -> (r: RGBA<T>)
        ensures
            r@ == self@.times(other@),
    {
        let r = RGBA {
            r: self.r.times(other.r),
            g: self.g.times(other.g),
            b: self.b.times(other.b),
            a: self.a.times(other.a),
        };
        proof {
            r.lemma_with_view();
        }
        r
    }
}

impl<T: Integer> vstd::std_specs::ops::MulSpecImpl<RGBA<T>> for RGBA<T> {
    open spec fn obeys_mul_spec() -> bool {
        true
    }

    open spec fn mul_req(self, other: RGBA<T>) -> bool {
        self@.times(other@).fits::<T>()
    }

    open spec fn mul_spec(self, other: RGBA<T>) -> RGBA<T> {
        RGBA::with_view(self@.times(other@))
    }
}

impl<T: Integer> core::ops::MulAssign<RGBA<T>> for RGBA<T> {
    fn mul_assign(&mut self, other: RGBA<T>)
        requires
            old(self)@.times(other@).fits::<T>(),
        ensures
            final(self)@ == old(self)@.times(other@),
    {
        self.r = self.r.times(other.r);
        self.g = self.g.times(other.g);
        self.b = self.b.times(other.b);
        self.a = self.a.times(other.a);
    }
}

/// Division by a scalar, rounding toward zero. A divisor of zero leaves the
/// colour as it is.
impl<T: Integer> core::ops::Div<T> for RGBA<T> {
    type Output = RGBA<T>;

    fn div(self, other: T) -> (r: RGBA<T>)
        ensures
            r@ == self@.over_or_same(other.value()),
    {
        if !other.is_zero() {
            let r = RGBA {
                r: self.r.over(other),
                g: self.g.over(other),
                b: self.b.over(other),
                a: self.a.over(other),
            };
            proof {
                r.lemma_with_view();
            }
            r
        } else {
            proof {
                self.lemma_with_view();
            }
            self
        }
    }
}

impl<T: Integer> vstd::std_specs::ops::DivSpecImpl<T> for RGBA<T> {
    open spec fn obeys_div_spec() -> bool {
        true
    }

    open spec fn div_req(self, other: T) -> bool {
        other.value() != 0 ==> self@.over(other.value()).fits::<T>()
    }

    open spec fn div_spec(self, other: T) -> RGBA<T> {
        RGBA::with_view(self@.over_or_same(other.value()))
    }
}

impl<T: Integer> core::ops::DivAssign<T> for RGBA<T> {
    fn div_assign(&mut self, other: T)
        requires
            other.value() != 0 ==> old(self)@.over(other.value()).fits::<T>(),
        ensures
            final(self)@ == old(self)@.over_or_same(other.value()),
    {
        if !other.is_zero() {
            self.r = self.r.over(other);
            self.g = self.g.over(other);
            self.b = self.b.over(other);
            self.a = self.a.over(other);
        }
    }
}

} // verus!
