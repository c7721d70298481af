//! Multivectors of two dimensions and their geometric product.

use vstd::prelude::*;
use crate::blade::{Blade, count};
use crate::scalar::{Integer, Signed, Zero, in_range, truncated};
use crate::text::{decimal, push_decimal, push_signed, signed, string_of};

verus! {

/// An element of the geometric algebra of Euclidean space of two
/// dimensions: one coefficient for each basis blade, the scalar first,
/// then the blades of each grade in the order of their generators.
#[derive(Copy, Debug)]
pub struct MultiVec2<T> {
    pub r: T,
    pub x: T,
    pub y: T,
    pub xy: T,
}

impl<T: Copy> Clone for MultiVec2<T> {
    fn clone(&self) -> (r: Self)
        ensures
            r == *self,
    {
        *self
    }
}

impl<T: Integer> View for MultiVec2<T> {
    type V = MultiVec2<int>;

    open spec fn view(&self) -> MultiVec2<int> {
        MultiVec2 {
            r: self.r.value(),
            x: self.x.value(),
            y: self.y.value(),
            xy: self.xy.value(),
        }
    }
}

impl MultiVec2<int> {
    /// Whether every component is a value of `T`.
    pub open spec fn fits<T: Integer>(self) -> bool {
        &&& in_range::<T>(self.r)
        &&& in_range::<T>(self.x)
        &&& in_range::<T>(self.y)
        &&& in_range::<T>(self.xy)
    }

    /// The multivector whose components are all zero.
    pub open spec fn zeros() -> MultiVec2<int> {
        MultiVec2 { r: 0, x: 0, y: 0, xy: 0 }
    }

    /// The component-wise sum.
    pub open spec fn plus(self, other: MultiVec2<int>) -> MultiVec2<int> {
        MultiVec2 {
            r: self.r + other.r,
            x: self.x + other.x,
            y: self.y + other.y,
            xy: self.xy + other.xy,
        }
    }

    /// The component-wise difference.
    pub open spec fn minus(self, other: MultiVec2<int>) -> MultiVec2<int> {
        MultiVec2 {
            r: self.r - other.r,
            x: self.x - other.x,
            y: self.y - other.y,
            xy: self.xy - other.xy,
        }
    }

    /// Every component negated.
    pub open spec fn negated(self) -> MultiVec2<int> {
        MultiVec2 { r: -self.r, x: -self.x, y: -self.y, xy: -self.xy }
    }

    /// Every component multiplied by `s`.
    pub open spec fn scaled(self, s: int) -> MultiVec2<int> {
        MultiVec2 { r: self.r * s, x: self.x * s, y: self.y * s, xy: self.xy * s }
    }

    /// Every component divided by `d`, rounding toward zero.
    pub open spec fn over(self, d: int) -> MultiVec2<int> {
        MultiVec2 {
            r: truncated(self.r, d),
            x: truncated(self.x, d),
            y: truncated(self.y, d),
            xy: truncated(self.xy, d),
        }
    }

    /// Division that leaves the multivector as it is when the divisor is zero.
    pub open spec fn over_or_same(self, d: int) -> MultiVec2<int> {
        if d == 0 {
            self
        } else {
            self.over(d)
        }
    }

    /// The multivector as text.
    pub open spec fn text(self) -> Seq<char> {
        decimal(self.r) + signed(self.x) + seq!['x'] + signed(self.y) + seq!['y']
            + signed(self.xy) + seq!['x', 'y']
    }

    /// The coefficient of the basis blade `b`.
    pub open spec fn coefficient(self, b: Blade) -> int {
        match (b.x, b.y, b.z, b.w) {
            (false, false, false, false) => self.r,
            (true, false, false, false) => self.x,
            (false, true, false, false) => self.y,
            (true, true, false, false) => self.xy,
            _ => 0,
        }
    }

    /// The multivector that is one on the blade `b` and zero elsewhere.
    pub open spec fn basis(b: Blade) -> MultiVec2<int> {
        MultiVec2 {
            r: count(b == Blade::scalar()),
            x: count(b == Blade::x()),
            y: count(b == Blade::y()),
            xy: count(b == Blade::xy()),
        }
    }

    /// The multivector that is the scalar `s`.
    pub open spec fn scalar(s: int) -> MultiVec2<int> {
        MultiVec2 { r: s, x: 0, y: 0, xy: 0 }
    }

    /// What the blade `a` of `self` adds to the coefficient of the blade `c`
    /// of the geometric product with `other`. It meets there the one blade
    /// `b` of `other` whose product with `a` is a multiple of `c`, and adds
    /// the product of the two coefficients, negated where `a` times `b` is
    /// the negative of `c`.
    pub open spec fn term(self, other: MultiVec2<int>, a: Blade, c: Blade) -> int {
        let b = a.product(c);
        if a.flips(b) {
            -(self.coefficient(a) * other.coefficient(b))
        } else {
            self.coefficient(a) * other.coefficient(b)
        }
    }

    /// The coefficient of the blade `c` in the geometric product: the sum of
    /// the terms of all blades of `self`.
    pub open spec fn geometric_coefficient(self, other: MultiVec2<int>, c: Blade) -> int {
        self.term(other, Blade::scalar(), c)
            + self.term(other, Blade::x(), c)
            + self.term(other, Blade::y(), c)
            + self.term(other, Blade::xy(), c)
    }

    /// The geometric product.
    pub open spec fn geometric(self, other: MultiVec2<int>) -> MultiVec2<int> {
        MultiVec2 {
            r: self.geometric_coefficient(other, Blade::scalar()),
            x: self.geometric_coefficient(other, Blade::x()),
            y: self.geometric_coefficient(other, Blade::y()),
            xy: self.geometric_coefficient(other, Blade::xy()),
        }
    }

    /// Whether `T` holds the product of coefficients in the term of `a`.
    pub open spec fn term_fits<T: Integer>(
        self,
        other: MultiVec2<int>,
        a: Blade,
        c: Blade,
    ) -> bool {
        in_range::<T>(self.coefficient(a) * other.coefficient(a.product(c)))
    }

    /// Whether `T` holds what computing the coefficient of `c` passes
    /// through: the product in each term, and each sum of the first terms.
    pub open spec fn coefficient_fits<T: Integer>(self, other: MultiVec2<int>, c: Blade) -> bool {
        let t0 = self.term(other, Blade::scalar(), c);
        let t1 = self.term(other, Blade::x(), c);
        let t2 = self.term(other, Blade::y(), c);
        let t3 = self.term(other, Blade::xy(), c);
        &&& self.term_fits::<T>(other, Blade::scalar(), c)
        &&& self.term_fits::<T>(other, Blade::x(), c)
        &&& self.term_fits::<T>(other, Blade::y(), c)
        &&& self.term_fits::<T>(other, Blade::xy(), c)
        &&& in_range::<T>(t0 + t1)
        &&& in_range::<T>(t0 + t1 + t2)
        &&& in_range::<T>(t0 + t1 + t2 + t3)
    }

    /// Whether `T` holds what computing the geometric product passes through.
    pub open spec fn geometric_fits<T: Integer>(self, other: MultiVec2<int>) -> bool {
        &&& self.coefficient_fits::<T>(other, Blade::scalar())
        &&& self.coefficient_fits::<T>(other, Blade::x())
        &&& self.coefficient_fits::<T>(other, Blade::y())
        &&& self.coefficient_fits::<T>(other, Blade::xy())
    }

    /// Adding `b` and then subtracting it again gives `a` back.
    pub proof fn lemma_plus_minus(a: MultiVec2<int>, b: MultiVec2<int>)
        ensures
            a.plus(b).minus(b) == a,
    {
    }

    /// Scaling by one changes nothing.
    pub proof fn lemma_scaled_one(a: MultiVec2<int>)
        ensures
            a.scaled(1) == a,
    {
    }

    /// Scaling by zero gives zero.
    pub proof fn lemma_scaled_zero(a: MultiVec2<int>)
        ensures
            a.scaled(0) == MultiVec2::<int>::zeros(),
    {
    }

    /// The product of two basis blades is the blade of their product, with
    /// the sign of their product.
    pub proof fn lemma_basis_product(a: Blade, b: Blade)
        requires
            a.in_plane(),
            b.in_plane(),
        ensures
            ({
                let ea = MultiVec2::<int>::basis(a);
                let eb = MultiVec2::<int>::basis(b);
                ea.geometric(eb) == MultiVec2::<int>::basis(a.product(b)).scaled(a.sign(b))
            }),
    {
    }

    /// Every generator squares to one.
    pub proof fn lemma_generator_squares(g: Blade)
        requires
            g.is_generator(),
            g.in_plane(),
        ensures
            ({
                let eg = MultiVec2::<int>::basis(g);
                eg.geometric(eg) == MultiVec2::<int>::scalar(1)
            }),
    {
        MultiVec2::<int>::lemma_basis_product(g, g);
    }

    /// Two different generators anticommute.
    pub proof fn lemma_generators_anticommute(g: Blade, h: Blade)
        requires
            g.is_generator(),
            h.is_generator(),
            g != h,
            g.in_plane(),
            h.in_plane(),
        ensures
            ({
                let eg = MultiVec2::<int>::basis(g);
                let eh = MultiVec2::<int>::basis(h);
                eg.geometric(eh) == eh.geometric(eg).negated()
            }),
    {
        MultiVec2::<int>::lemma_basis_product(g, h);
        MultiVec2::<int>::lemma_basis_product(h, g);
    }

    /// The scalar one is the identity of the geometric product.
    pub proof fn lemma_one_is_identity(m: MultiVec2<int>)
        ensures
            MultiVec2::<int>::scalar(1).geometric(m) == m,
            m.geometric(MultiVec2::<int>::scalar(1)) == m,
    {
        broadcast use vstd::arithmetic::mul::group_mul_basics;
    }
}

impl<T> MultiVec2<T> {
    /// The multivector of the given coefficients.
    pub fn new(r: T, x: T, y: T, xy: T) -> (made: MultiVec2<T>)
        ensures
            made == (MultiVec2 { r, x, y, xy }),
    {
        MultiVec2 { r, x, y, xy }
    }
}

impl<T: Integer> MultiVec2<T> {
    /// The multivector of `T` whose view is `m`, where there is one.
    pub open spec fn with_view(m: MultiVec2<int>) -> MultiVec2<T> {
        choose|r: MultiVec2<T>| r@ == m
    }

    /// Equal views belong to equal values.
    pub proof fn lemma_view_injective(a: MultiVec2<T>, b: MultiVec2<T>)
        ensures
            a@ == b@ ==> a == b,
    {
        T::lemma_integer(a.r, b.r);
        T::lemma_integer(a.x, b.x);
        T::lemma_integer(a.y, b.y);
        T::lemma_integer(a.xy, b.xy);
    }

    /// A value is the one that has its view.
    pub proof fn lemma_with_view(self)
        ensures
            Self::with_view(self@) == self,
    {
        Self::lemma_view_injective(Self::with_view(self@), self);
    }

    /// Appends the text of the multivector to `out`.
    pub fn append_to(&self, out: &mut Vec<char>)
        ensures
            final(out)@ == old(out)@ + self@.text(),
    {
        push_decimal(out, self.r.widen());
        push_signed(out, self.x.widen());
        out.push('x');
        push_signed(out, self.y.widen());
        out.push('y');
        push_signed(out, self.xy.widen());
        out.push('x');
        out.push('y');
        assert(out@ =~= old(out)@ + self@.text());
    }

    /// The multivector as text.
    pub fn to_string(&self) -> (s: String)
        ensures
            s@ == self@.text(),
    {
        let mut out: Vec<char> = Vec::new();
        self.append_to(&mut out);
        assert(out@ =~= self@.text());
        string_of(&out)
    }

    /// The view of the zero multivector is all zeros.
    pub proof fn lemma_zero_view()
        ensures
            Self::zero_spec()@ == MultiVec2::<int>::zeros(),
    {
        T::lemma_integer(T::zero_spec(), T::zero_spec());
    }

    /// The product with the scalar written on the left, `s * self`.
    pub fn rmul(self, s: T) -> (r: MultiVec2<T>)
        requires
            self@.scaled(s.value()).fits::<T>(),
        ensures
            r@ == self@.scaled(s.value()),
    {
        self * s
    }

    /// The scalar part of the geometric product of `self` and `other`.
    fn product_r(&self, other: &MultiVec2<T>) -> (r: T)
        requires
            self@.coefficient_fits::<T>(other@, Blade::scalar()),
        ensures
            r.value() == self@.geometric_coefficient(other@, Blade::scalar()),
    {
        self.r.times(other.r)
            .plus(self.x.times(other.x))
            .plus(self.y.times(other.y))
            .minus(self.xy.times(other.xy))
    }

    /// The coefficient of `x` of the geometric product of `self` and `other`.
    fn product_x(&self, other: &MultiVec2<T>) -> (r: T)
        requires
            self@.coefficient_fits::<T>(other@, Blade::x()),
        ensures
            r.value() == self@.geometric_coefficient(other@, Blade::x()),
    {
        self.r.times(other.x)
            .plus(self.x.times(other.r))
            .minus(self.y.times(other.xy))
            .plus(self.xy.times(other.y))
    }

    /// The coefficient of `y` of the geometric product of `self` and `other`.
    fn product_y(&self, other: &MultiVec2<T>) -> (r: T)
        requires
            self@.coefficient_fits::<T>(other@, Blade::y()),
        ensures
            r.value() == self@.geometric_coefficient(other@, Blade::y()),
    {
        self.r.times(other.y)
            .plus(self.x.times(other.xy))
            .plus(self.y.times(other.r))
            .minus(self.xy.times(other.x))
    }

    /// The coefficient of `xy` of the geometric product of `self` and `other`.
    fn product_xy(&self, other: &MultiVec2<T>) -> (r: T)
        requires
            self@.coefficient_fits::<T>(other@, Blade::xy()),
        ensures
            r.value() == self@.geometric_coefficient(other@, Blade::xy()),
    {
        self.r.times(other.xy)
            .plus(self.x.times(other.y))
            .minus(self.y.times(other.x))
            .plus(self.xy.times(other.r))
    }
}

impl<T: Integer> Zero for MultiVec2<T> {
    open spec fn zero_spec() -> MultiVec2<T> {
        MultiVec2 {
            r: T::zero_spec(),
            x: T::zero_spec(),
            y: T::zero_spec(),
            xy: T::zero_spec(),
        }
    }

    fn zero() -> (r: MultiVec2<T>) {
        MultiVec2 { r: T::zero(), x: T::zero(), y: T::zero(), xy: T::zero() }
    }
}

impl<T: Integer> PartialEq for MultiVec2<T> {
    fn eq(&self, other: &MultiVec2<T>) -> (r: bool) {
        self.r.equals(other.r)
            && self.x.equals(other.x)
            && self.y.equals(other.y)
            && self.xy.equals(other.xy)
    }
}

impl<T: Integer> vstd::std_specs::cmp::PartialEqSpecImpl for MultiVec2<T> {
    open spec fn obeys_eq_spec() -> bool {
        true
    }

    open spec fn eq_spec(&self, other: &MultiVec2<T>) -> bool {
        self@ == other@
    }
}

impl<T: Integer> core::ops::Add for MultiVec2<T> {
    type Output = MultiVec2<T>;

    fn add(self, other: MultiVec2<T>) -> (r: MultiVec2<T>)
        ensures
            r@ == self@.plus(other@),
    {
        let r = MultiVec2 {
            r: self.r.plus(other.r),
            x: self.x.plus(other.x),
            y: self.y.plus(other.y),
            xy: self.xy.plus(other.xy),
        };
        proof {
            r.lemma_with_view();
        }
        r
    }
}

impl<T: Integer> vstd::std_specs::ops::AddSpecImpl for MultiVec2<T> {
    open spec fn obeys_add_spec() -> bool {
        true
    }

    open spec fn add_req(self, other: MultiVec2<T>) -> bool {
        self@.plus(other@).fits::<T>()
    }

    open spec fn add_spec(self, other: MultiVec2<T>) -> MultiVec2<T> {
        MultiVec2::with_view(self@.plus(other@))
    }
}

impl<T: Integer> core::ops::Sub for MultiVec2<T> {
    type Output = MultiVec2<T>;

    fn sub(self, other: MultiVec2<T>) -> (r: MultiVec2<T>)
        ensures
            r@ == self@.minus(other@),
    {
        let r = MultiVec2 {
            r: self.r.minus(other.r),
            x: self.x.minus(other.x),
            y: self.y.minus(other.y),
            xy: self.xy.minus(other.xy),
        };
        proof {
            r.lemma_with_view();
        }
        r
    }
}

impl<T: Integer> vstd::std_specs::ops::SubSpecImpl for MultiVec2<T> {
    open spec fn obeys_sub_spec() -> bool {
        true
    }

    open spec fn sub_req(self, other: MultiVec2<T>) -> bool {
        self@.minus(other@).fits::<T>()
    }

    open spec fn sub_spec(self, other: MultiVec2<T>) -> MultiVec2<T> {
        MultiVec2::with_view(self@.minus(other@))
    }
}

impl<T: Integer> core::ops::AddAssign for MultiVec2<T> {
    fn add_assign(&mut self, other: MultiVec2<T>)
        requires
            old(self)@.plus(other@).fits::<T>(),
        ensures
            final(self)@ == old(self)@.plus(other@),
    {
        self.r = self.r.plus(other.r);
        self.x = self.x.plus(other.x);
        self.y = self.y.plus(other.y);
        self.xy = self.xy.plus(other.xy);
    }
}

impl<T: Integer> core::ops::SubAssign for MultiVec2<T> {
    fn sub_assign(&mut self, other: MultiVec2<T>)
        requires
            old(self)@.minus(other@).fits::<T>(),
        ensures
            final(self)@ == old(self)@.minus(other@),
    {
        self.r = self.r.minus(other.r);
        self.x = self.x.minus(other.x);
        self.y = self.y.minus(other.y);
        self.xy = self.xy.minus(other.xy);
    }
}

impl<T: Signed> core::ops::Neg for MultiVec2<T> {
    type Output = MultiVec2<T>;

    fn neg(self) -> (r: MultiVec2<T>)
        ensures
            r@ == self@.negated(),
    {
        let r = MultiVec2 {
            r: self.r.negated(),
            x: self.x.negated(),
            y: self.y.negated(),
            xy: self.xy.negated(),
        };
        proof {
            r.lemma_with_view();
        }
        r
    }
}

impl<T: Signed> vstd::std_specs::ops::NegSpecImpl for MultiVec2<T> {
    open spec fn obeys_neg_spec() -> bool {
        true
    }

    open spec fn neg_req(self) -> bool {
        self@.negated().fits::<T>()
    }

    open spec fn neg_spec(self) -> MultiVec2<T> {
        MultiVec2::with_view(self@.negated())
    }
}

impl<T: Integer> core::ops::Mul<T> for MultiVec2<T> {
    type Output = MultiVec2<T>;

    fn mul(self, other: T) -> (r: MultiVec2<T>)
        ensures
            r@ == self@.scaled(other.value()),
    {
        let r = MultiVec2 {
            r: self.r.times(other),
            x: self.x.times(other),
            y: self.y.times(other),
            xy: self.xy.times(other),
        };
        proof {
            r.lemma_with_view();
        }
        r
    }
}

impl<T: Integer> vstd::std_specs::ops::MulSpecImpl<T> for MultiVec2<T> {
    open spec fn obeys_mul_spec() -> bool {
        true
    }

    open spec fn mul_req(self, other: T) -> bool {
        self@.scaled(other.value()).fits::<T>()
    }

    open spec fn mul_spec(self, other: T) -> MultiVec2<T> {
        MultiVec2::with_view(self@.scaled(other.value()))
    }
}

impl<T: Integer> core::ops::MulAssign<T> for MultiVec2<T> {
    fn mul_assign(&mut self, other: T)
        requires
            old(self)@.scaled(other.value()).fits::<T>(),
        ensures
            final(self)@ == old(self)@.scaled(other.value()),
    {
        self.r = self.r.times(other);
        self.x = self.x.times(other);
        self.y = self.y.times(other);
        self.xy = self.xy.times(other);
    }
}

impl<T: Integer> core::ops::Mul<MultiVec2<T>> for MultiVec2<T> {
    type Output = MultiVec2<T>;

    fn mul(self, other: MultiVec2<T>) -> (r: MultiVec2<T>)
        ensures
            r@ == self@.geometric(other@),
    {
        let r = MultiVec2 {
            r: self.product_r(&other),
            x: self.product_x(&other),
            y: self.product_y(&other),
            xy: self.product_xy(&other),
        };
        proof {
            r.lemma_with_view();
        }
        r
    }
}

impl<T: Integer> vstd::std_specs::ops::MulSpecImpl<MultiVec2<T>> for MultiVec2<T> {
    open spec fn obeys_mul_spec() -> bool {
        true
    }

    open spec fn mul_req(self, other: MultiVec2<T>) -> bool {
        self@.geometric_fits::<T>(other@)
    }

    open spec fn mul_spec(self, other: MultiVec2<T>) -> MultiVec2<T> {
        MultiVec2::with_view(self@.geometric(other@))
    }
}

impl<T: Integer> core::ops::MulAssign<MultiVec2<T>> for MultiVec2<T> {
    fn mul_assign(&mut self, other: MultiVec2<T>)
        requires
            old(self)@.geometric_fits::<T>(other@),
        ensures
            final(self)@ == old(self)@.geometric(other@),
    {
        *self = MultiVec2 {
                    r: self.product_r(&other),
                    x: self.product_x(&other),
                    y: self.product_y(&other),
                    xy: self.product_xy(&other),
                };
    }
}

/// Division by a scalar, rounding toward zero. A divisor of zero leaves the
/// multivector as it is.
impl<T: Integer> core::ops::Div<T> for MultiVec2<T> {
    type Output = MultiVec2<T>;

    fn div(self, other: T) -> (r: MultiVec2<T>)
        ensures
            r@ == self@.over_or_same(other.value()),
    {
        if !other.is_zero() {
            let r = MultiVec2 {
                r: self.r.over(other),
                x: self.x.over(other),
                y: self.y.over(other),
                xy: self.xy.over(other),
            };
            proof {
                r.lemma_with_view();
            }
            r
        } else {
            proof {
                self.lemma_with_view();
            }
            self
        }
    }
}

impl<T: Integer> vstd::std_specs::ops::DivSpecImpl<T> for MultiVec2<T> {
    open spec fn obeys_div_spec() -> bool {
        true
    }

    open spec fn div_req(self, other: T) -> bool {
        other.value() != 0 ==> self@.over(other.value()).fits::<T>()
    }

    open spec fn div_spec(self, other: T) -> MultiVec2<T> {
        MultiVec2::with_view(self@.over_or_same(other.value()))
    }
}

impl<T: Integer> core::ops::DivAssign<T> for MultiVec2<T> {
    fn div_assign(&mut self, other: T)
        requires
            other.value() != 0 ==> old(self)@.over(other.value()).fits::<T>(),
        ensures
            final(self)@ == old(self)@.over_or_same(other.value()),
    {
        if !other.is_zero() {
            self.r = self.r.over(other);
            self.x = self.x.over(other);
            self.y = self.y.over(other);
            self.xy = self.xy.over(other);
        }
    }
}

} // verus!
