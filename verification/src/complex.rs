//! Complex numbers with integer parts.

use vstd::prelude::*;
use crate::scalar::{
    Integer, One, Signed, Zero, in_range, lemma_truncated_self, lemma_truncated_zero, truncated,
    zero_of,
};
use crate::text::{decimal, push_decimal, push_signed, signed, string_of};

verus! {

/// A complex number: its real part `r` and its imaginary part `i`.
#[derive(Copy, Debug)]
pub struct Complex<T> {
    pub r: T,
    pub i: T,
}

impl<T: Copy> Clone for Complex<T> {
    fn clone(&self) -> (r: Self)
        ensures
            r == *self,
    {
        *self
    }
}

impl<T: Integer> View for Complex<T> {
    type V = Complex<int>;

    open spec fn view(&self) -> Complex<int> {
        Complex { r: self.r.value(), i: self.i.value() }
    }
}

impl Complex<int> {
    /// Whether every component is a value of `T`.
    pub open spec fn fits<T: Integer>(self) -> bool {
        &&& in_range::<T>(self.r)
        &&& in_range::<T>(self.i)
    }

    /// The number whose components are all zero.
    pub open spec fn zeros() -> Complex<int> {
        Complex { r: 0, i: 0 }
    }

    /// The component-wise sum.
    pub open spec fn plus(self, other: Complex<int>) -> Complex<int> {
        Complex { r: self.r + other.r, i: self.i + other.i }
    }

    /// The component-wise difference.
    pub open spec fn minus(self, other: Complex<int>) -> Complex<int> {
        Complex { r: self.r - other.r, i: self.i - other.i }
    }

    /// Every component negated.
    pub open spec fn negated(self) -> Complex<int> {
        Complex { r: -self.r, i: -self.i }
    }

    /// Every component multiplied by `s`.
    pub open spec fn scaled(self, s: int) -> Complex<int> {
        Complex { r: self.r * s, i: self.i * s }
    }

    /// Every component divided by `d`, rounding toward zero.
    pub open spec fn over(self, d: int) -> Complex<int> {
        Complex { r: truncated(self.r, d), i: truncated(self.i, d) }
    }

    /// Division that leaves the number as it is when the divisor is zero.
    pub open spec fn over_or_same(self, d: int) -> Complex<int> {
        if d == 0 {
            self
        } else {
            self.over(d)
        }
    }

    /// The number as text.
    pub open spec fn text(self) -> Seq<char> {
        decimal(self.r) + signed(self.i) + seq!['i']
    }

    /// The number one.
    pub open spec fn unit() -> Complex<int> {
        Complex { r: 1, i: 0 }
    }

    /// The complex conjugate.
    pub open spec fn conjugate(self) -> Complex<int> {
        Complex { r: self.r, i: -self.i }
    }

    /// The sum with the real number `s`.
    pub open spec fn plus_real(self, s: int) -> Complex<int> {
        Complex { r: self.r + s, i: self.i }
    }

    /// The difference from the real number `s`, `self - s`.
    pub open spec fn minus_real(self, s: int) -> Complex<int> {
        Complex { r: self.r - s, i: self.i }
    }

    /// The real number `s` less this number, `s - self`.
    pub open spec fn real_minus(self, s: int) -> Complex<int> {
        Complex { r: s - self.r, i: -self.i }
    }

    /// The product of complex numbers.
    pub open spec fn times(self, other: Complex<int>) -> Complex<int> {
        Complex {
            r: self.r * other.r - self.i * other.i,
            i: self.r * other.i + self.i * other.r,
        }
    }

    /// Whether `T` holds the four products of `times` and its two parts.
    pub open spec fn times_fits<T: Integer>(self, other: Complex<int>) -> bool {
        &&& in_range::<T>(self.r * other.r)
        &&& in_range::<T>(self.i * other.i)
        &&& in_range::<T>(self.r * other.i)
        &&& in_range::<T>(self.i * other.r)
        &&& self.times(other).fits::<T>()
    }

    /// The square of the magnitude.
    pub open spec fn norm_squared(self) -> int {
        self.r * self.r + self.i * self.i
    }

    /// Whether `T` holds the two squares of `norm_squared` and their sum.
    pub open spec fn norm_squared_fits<T: Integer>(self) -> bool {
        &&& in_range::<T>(self.r * self.r)
        &&& in_range::<T>(self.i * self.i)
        &&& in_range::<T>(self.norm_squared())
    }

    /// The quotient by `other`: the product with the conjugate of `other`,
    /// divided by the squared magnitude of `other`, each part rounded toward
    /// zero. Meaningful where `other` is not zero.
    pub open spec fn quotient(self, other: Complex<int>) -> Complex<int> {
        Complex {
            r: truncated(self.r * other.r + self.i * other.i, other.norm_squared()),
            i: truncated(self.i * other.r - self.r * other.i, other.norm_squared()),
        }
    }

    /// Division that leaves the number as it is when the divisor is zero.
    pub open spec fn quotient_or_same(self, other: Complex<int>) -> Complex<int> {
        if other.norm_squared() == 0 {
            self
        } else {
            self.quotient(other)
        }
    }

    /// Whether `T` holds every step of `quotient_or_same`.
    pub open spec fn quotient_fits<T: Integer>(self, other: Complex<int>) -> bool {
        &&& other.norm_squared_fits::<T>()
        &&& other.norm_squared() != 0 ==> {
            &&& in_range::<T>(self.r * other.r)
            &&& in_range::<T>(self.i * other.i)
            &&& in_range::<T>(self.r * other.r + self.i * other.i)
            &&& in_range::<T>(self.i * other.r)
            &&& in_range::<T>(self.r * other.i)
            &&& in_range::<T>(self.i * other.r - self.r * other.i)
            &&& self.quotient(other).fits::<T>()
        }
    }

    /// The real number `s` divided by this number: `s` times the conjugate,
    /// divided by the squared magnitude. Meaningful where the number is not
    /// zero.
    pub open spec fn real_quotient(self, s: int) -> Complex<int> {
        Complex {
            r: truncated(s * self.r, self.norm_squared()),
            i: truncated(-(s * self.i), self.norm_squared()),
        }
    }

    /// Division of the real number `s` that gives `s` itself when the
    /// divisor is zero.
    pub open spec fn real_quotient_or_real(self, s: int) -> Complex<int> {
        if self.norm_squared() == 0 {
            Complex { r: s, i: 0 }
        } else {
            self.real_quotient(s)
        }
    }

    /// Whether `T` holds every step of `real_quotient_or_real`.
    pub open spec fn real_quotient_fits<T: Integer>(self, s: int) -> bool {
        &&& self.norm_squared_fits::<T>()
        &&& self.norm_squared() != 0 ==> {
            &&& in_range::<T>(s * self.r)
            &&& in_range::<T>(s * self.i)
            &&& in_range::<T>(-(s * self.i))
            &&& self.real_quotient(s).fits::<T>()
        }
    }

    /// Adding `b` and then subtracting it again gives `a` back.
    pub proof fn lemma_plus_minus(a: Complex<int>, b: Complex<int>)
        ensures
            a.plus(b).minus(b) == a,
    {
    }

    /// Scaling by one changes nothing.
    pub proof fn lemma_scaled_one(a: Complex<int>)
        ensures
            a.scaled(1) == a,
    {
    }

    /// Scaling by zero gives zero.
    pub proof fn lemma_scaled_zero(a: Complex<int>)
        ensures
            a.scaled(0) == Complex::<int>::zeros(),
    {
    }

    /// The number one is neutral in the product.
    pub proof fn lemma_times_unit(a: Complex<int>)
        ensures
            a.times(Complex::<int>::unit()) == a,
            Complex::<int>::unit().times(a) == a,
    {
        broadcast use vstd::arithmetic::mul::group_mul_basics;
    }

    /// The product does not depend on the order of its factors.
    pub proof fn lemma_times_commutes(a: Complex<int>, b: Complex<int>)
        ensures
            a.times(b) == b.times(a),
    {
        assert(a.r * b.r == b.r * a.r) by (nonlinear_arith);
        assert(a.i * b.i == b.i * a.i) by (nonlinear_arith);
        assert(a.r * b.i == b.i * a.r) by (nonlinear_arith);
        assert(a.i * b.r == b.r * a.i) by (nonlinear_arith);
    }

    /// The conjugate of a product is the product of the conjugates.
    pub proof fn lemma_conjugate_of_product(a: Complex<int>, b: Complex<int>)
        ensures
            a.times(b).conjugate() == a.conjugate().times(b.conjugate()),
    {
        assert((-a.i) * (-b.i) == a.i * b.i) by (nonlinear_arith);
        assert(a.r * (-b.i) == -(a.r * b.i)) by (nonlinear_arith);
        assert((-a.i) * b.r == -(a.i * b.r)) by (nonlinear_arith);
    }

    /// A number times its conjugate is its squared magnitude.
    pub proof fn lemma_times_conjugate(a: Complex<int>)
        ensures
            a.times(a.conjugate()) == (Complex { r: a.norm_squared(), i: 0 }),
    {
        assert(a.i * (-a.i) == -(a.i * a.i)) by (nonlinear_arith);
        assert(a.r * (-a.i) == -(a.r * a.i)) by (nonlinear_arith);
        assert(a.i * a.r == a.r * a.i) by (nonlinear_arith);
    }

    /// Only the number zero has the squared magnitude zero.
    pub proof fn lemma_norm_squared_zero(a: Complex<int>)
        ensures
            a.norm_squared() == 0 <==> a == Complex::<int>::zeros(),
    {
        assert(a.r * a.r >= 0 && (a.r * a.r == 0 ==> a.r == 0)) by (nonlinear_arith);
        assert(a.i * a.i >= 0 && (a.i * a.i == 0 ==> a.i == 0)) by (nonlinear_arith);
    }

    /// A number that is not zero, divided by itself, is one.
    pub proof fn lemma_quotient_by_itself(c: Complex<int>)
        requires
            c != Complex::<int>::zeros(),
        ensures
            c.quotient_or_same(c) == Complex::<int>::unit(),
    {
        Complex::<int>::lemma_norm_squared_zero(c);
        lemma_truncated_self(c.norm_squared());
        lemma_truncated_zero(c.norm_squared());
        assert(c.i * c.r - c.r * c.i == 0) by (nonlinear_arith);
    }
}

impl<T> Complex<T> {
    /// The number of the given parts.
    pub fn new(r: T, i: T) -> (made: Complex<T>)
        ensures
            made == (Complex { r, i }),
    {
        Complex { r, i }
    }
}

impl<T: Integer> Complex<T> {
    /// The number of `T` whose view is `m`, where there is one.
    pub open spec fn with_view(m: Complex<int>) -> Complex<T> {
        choose|r: Complex<T>| r@ == m
    }

    /// Equal views belong to equal values.
    pub proof fn lemma_view_injective(a: Complex<T>, b: Complex<T>)
        ensures
            a@ == b@ ==> a == b,
    {
        T::lemma_integer(a.r, b.r);
        T::lemma_integer(a.i, b.i);
    }

    /// A value is the one that has its view.
    pub proof fn lemma_with_view(self)
        ensures
            Self::with_view(self@) == self,
    {
        Self::lemma_view_injective(Self::with_view(self@), self);
    }

    /// Appends the text of the number to `out`.
    pub fn append_to(&self, out: &mut Vec<char>)
        ensures
            final(out)@ == old(out)@ + self@.text(),
    {
        push_decimal(out, self.r.widen());
        push_signed(out, self.i.widen());
        out.push('i');
        assert(out@ =~= old(out)@ + self@.text());
    }

    /// The number as text.
    pub fn to_string(&self) -> (s: String)
        ensures
            s@ == self@.text(),
    {
        let mut out: Vec<char> = Vec::new();
        self.append_to(&mut out);
        assert(out@ =~= self@.text());
        string_of(&out)
    }

    /// The view of the zero number is all zeros.
    pub proof fn lemma_zero_view()
        ensures
            Self::zero_spec()@ == Complex::<int>::zeros(),
    {
        T::lemma_integer(T::zero_spec(), T::zero_spec());
    }

    /// The view of the number one.
    pub proof fn lemma_one_view()
        ensures
            Self::one_spec()@ == Complex::<int>::unit(),
    {
        T::lemma_integer(T::zero_spec(), T::one_spec());
    }

    /// The square of the magnitude.
    fn norm_squared(&self) -> (d: T)
        requires
            self@.norm_squared_fits::<T>(),
        ensures
            d.value() == self@.norm_squared(),
    {
        self.r.times(self.r).plus(self.i.times(self.i))
    }

    /// The sum with the real number written on the left, `s + self`.
    pub fn radd(self, s: T) -> (r: Complex<T>)
        requires
            in_range::<T>(self.r.value() + s.value()),
        ensures
            r@ == self@.plus_real(s.value()),
    {
        self + s
    }

    /// The product with the real number written on the left, `s * self`.
    pub fn rmul(self, s: T) -> (r: Complex<T>)
        requires
            self@.scaled(s.value()).fits::<T>(),
        ensures
            r@ == self@.scaled(s.value()),
    {
        self * s
    }
}

impl<T: Signed> Complex<T> {
    /// The complex conjugate.
    pub fn conj(self) -> (r: Complex<T>)
        requires
            in_range::<T>(-self.i.value()),
        ensures
            r@ == self@.conjugate(),
    {
        Complex { r: self.r, i: self.i.negated() }
    }

    /// The difference from the real number written on the left, `s - self`.
    pub fn rsub(self, s: T) -> (r: Complex<T>)
        requires
            self@.real_minus(s.value()).fits::<T>(),
        ensures
            r@ == self@.real_minus(s.value()),
    {
        Complex { r: s.minus(self.r), i: self.i.negated() }
    }

    /// The quotient of the real number written on the left, `s / self`.
    /// Where `self` is zero the result is `s` as a complex number.
    pub fn rdiv(self, s: T) -> (r: Complex<T>)
        requires
            self@.real_quotient_fits::<T>(s.value()),
        ensures
            r@ == self@.real_quotient_or_real(s.value()),
    {
        let d = self.norm_squared();
        if !d.is_zero() {
            Complex { r: s.times(self.r).over(d), i: s.times(self.i).negated().over(d) }
        } else {
            Complex { r: s, i: zero_of::<T>() }
        }
    }
}

impl<T: Integer> One for Complex<T> {
    open spec fn one_spec() -> Complex<T> {
        Complex { r: T::one_spec(), i: T::zero_spec() }
    }

    fn one() -> (r: Complex<T>) {
        Complex { r: T::one(), i: T::zero() }
    }
}

impl<T: Integer> Zero for Complex<T> {
    open spec fn zero_spec() -> Complex<T> {
        Complex { r: T::zero_spec(), i: T::zero_spec() }
    }

    fn zero() -> (r: Complex<T>) {
        Complex { r: T::zero(), i: T::zero() }
    }
}

impl<T: Integer> PartialEq for Complex<T> {
    fn eq(&self, other: &Complex<T>) -> (r: bool) {
        self.r.equals(other.r) && self.i.equals(other.i)
    }
}

impl<T: Integer> vstd::std_specs::cmp::PartialEqSpecImpl for Complex<T> {
    open spec fn obeys_eq_spec() -> bool {
        true
    }

    open spec fn eq_spec(&self, other: &Complex<T>) -> bool {
        self@ == other@
    }
}

impl<T: Integer> core::ops::Add for Complex<T> {
    type Output = Complex<T>;

    fn add(self, other: Complex<T>) -> (r: Complex<T>)
        ensures
            r@ == self@.plus(other@),
    {
        let r = Complex { r: self.r.plus(other.r), i: self.i.plus(other.i) };
        proof {
            r.lemma_with_view();
        }
        r
    }
}

impl<T: Integer> vstd::std_specs::ops::AddSpecImpl for Complex<T> {
    open spec fn obeys_add_spec() -> bool {
        true
    }

    open spec fn add_req(self, other: Complex<T>) -> bool {
        self@.plus(other@).fits::<T>()
    }

    open spec fn add_spec(self, other: Complex<T>) -> Complex<T> {
        Complex::with_view(self@.plus(other@))
    }
}

impl<T: Integer> core::ops::Sub for Complex<T> {
    type Output = Complex<T>;

    fn sub(self, other: Complex<T>) -> (r: Complex<T>)
        ensures
            r@ == self@.minus(other@),
    {
        let r = Complex { r: self.r.minus(other.r), i: self.i.minus(other.i) };
        proof {
            r.lemma_with_view();
        }
        r
    }
}

impl<T: Integer> vstd::std_specs::ops::SubSpecImpl for Complex<T> {
    open spec fn obeys_sub_spec() -> bool {
        true
    }

    open spec fn sub_req(self, other: Complex<T>) -> bool {
        self@.minus(other@).fits::<T>()
    }

    open spec fn sub_spec(self, other: Complex<T>) -> Complex<T> {
        Complex::with_view(self@.minus(other@))
    }
}

impl<T: Integer> core::ops::AddAssign for Complex<T> {
    fn add_assign(&mut self, other: Complex<T>)
        requires
            old(self)@.plus(other@).fits::<T>(),
        ensures
            final(self)@ == old(self)@.plus(other@),
    {
        self.r = self.r.plus(other.r);
        self.i = self.i.plus(other.i);
    }
}

impl<T: Integer> core::ops::SubAssign for Complex<T> {
    fn sub_assign(&mut self, other: Complex<T>)
        requires
            old(self)@.minus(other@).fits::<T>(),
        ensures
            final(self)@ == old(self)@.minus(other@),
    {
        self.r = self.r.minus(other.r);
        self.i = self.i.minus(other.i);
    }
}

impl<T: Signed> core::ops::Neg for Complex<T> {
    type Output = Complex<T>;

    fn neg(self) -> (r: Complex<T>)
        ensures
            r@ == self@.negated(),
    {
        let r = Complex { r: self.r.negated(), i: self.i.negated() };
        proof {
            r.lemma_with_view();
        }
        r
    }
}

impl<T: Signed> vstd::std_specs::ops::NegSpecImpl for Complex<T> {
    open spec fn obeys_neg_spec() -> bool {
        true
    }

    open spec fn neg_req(self) -> bool {
        self@.negated().fits::<T>()
    }

    open spec fn neg_spec(self) -> Complex<T> {
        Complex::with_view(self@.negated())
    }
}

impl<T: Integer> core::ops::Mul<T> for Complex<T> {
    type Output = Complex<T>;

    fn mul(self, other: T) -> (r: Complex<T>)
        ensures
            r@ == self@.scaled(other.value()),
    {
        let r = Complex { r: self.r.times(other), i: self.i.times(other) };
        proof {
            r.lemma_with_view();
        }
        r
    }
}

impl<T: Integer> vstd::std_specs::ops::MulSpecImpl<T> for Complex<T> {
    open spec fn obeys_mul_spec() -> bool {
        true
    }

    open spec fn mul_req(self, other: T) -> bool {
        self@.scaled(other.value()).fits::<T>()
    }

    open spec fn mul_spec(self, other: T) -> Complex<T> {
        Complex::with_view(self@.scaled(other.value()))
    }
}

impl<T: Integer> core::ops::MulAssign<T> for Complex<T> {
    fn mul_assign(&mut self, other: T)
        requires
            old(self)@.scaled(other.value()).fits::<T>(),
        ensures
            final(self)@ == old(self)@.scaled(other.value()),
    {
        self.r = self.r.times(other);
        self.i = self.i.times(other);
    }
}

/// Division by a scalar, rounding toward zero. A divisor of zero leaves the
/// number as it is.
impl<T: Integer> core::ops::Div<T> for Complex<T> {
    type Output = Complex<T>;

    fn div(self, other: T) -> (r: Complex<T>)
        ensures
            r@ == self@.over_or_same(other.value()),
    {
        if !other.is_zero() {
            let r = Complex { r: self.r.over(other), i: self.i.over(other) };
            proof {
                r.lemma_with_view();
            }
            r
        } else {
            proof {
                self.lemma_with_view();
            }
            self
        }
    }
}

impl<T: Integer> vstd::std_specs::ops::DivSpecImpl<T> for Complex<T> {
    open spec fn obeys_div_spec() -> bool {
        true
    }

    open spec fn div_req(self, other: T) -> bool {
        other.value() != 0 ==> self@.over(other.value()).fits::<T>()
    }

    open spec fn div_spec(self, other: T) -> Complex<T> {
        Complex::with_view(self@.over_or_same(other.value()))
    }
}

impl<T: Integer> core::ops::DivAssign<T> for Complex<T> {
    fn div_assign(&mut self, other: T)
        requires
            other.value() != 0 ==> old(self)@.over(other.value()).fits::<T>(),
        ensures
            final(self)@ == old(self)@.over_or_same(other.value()),
    {
        if !other.is_zero() {
            self.r = self.r.over(other);
            self.i = self.i.over(other);
        }
    }
}

impl<T: Integer> core::ops::Add<T> for Complex<T> {
    type Output = Complex<T>;

    fn add(self, other: T) -> (r: Complex<T>)
        ensures
            r@ == self@.plus_real(other.value()),
    {
        let r = Complex { r: self.r.plus(other), i: self.i };
        proof {
            r.lemma_with_view();
        }
        r
    }
}

impl<T: Integer> vstd::std_specs::ops::AddSpecImpl<T> for Complex<T> {
    open spec fn obeys_add_spec() -> bool {
        true
    }

    open spec fn add_req(self, other: T) -> bool {
        in_range::<T>(self.r.value() + other.value())
    }

    open spec fn add_spec(self, other: T) -> Complex<T> {
        Complex::with_view(self@.plus_real(other.value()))
    }
}

impl<T: Integer> core::ops::Sub<T> for Complex<T> {
    type Output = Complex<T>;

    fn sub(self, other: T) -> (r: Complex<T>)
        ensures
            r@ == self@.minus_real(other.value()),
    {
        let r = Complex { r: self.r.minus(other), i: self.i };
        proof {
            r.lemma_with_view();
        }
        r
    }
}

impl<T: Integer> vstd::std_specs::ops::SubSpecImpl<T> for Complex<T> {
    open spec fn obeys_sub_spec() -> bool {
        true
    }

    open spec fn sub_req(self, other: T) -> bool {
        in_range::<T>(self.r.value() - other.value())
    }

    open spec fn sub_spec(self, other: T) -> Complex<T> {
        Complex::with_view(self@.minus_real(other.value()))
    }
}

impl<T: Integer> core::ops::AddAssign<T> for Complex<T> {
    fn add_assign(&mut self, other: T)
        requires
            in_range::<T>(old(self).r.value() + other.value()),
        ensures
            final(self)@ == old(self)@.plus_real(other.value()),
    {
        self.r = self.r.plus(other);
    }
}

impl<T: Integer> core::ops::SubAssign<T> for Complex<T> {
    fn sub_assign(&mut self, other: T)
        requires
            in_range::<T>(old(self).r.value() - other.value()),
        ensures
            final(self)@ == old(self)@.minus_real(other.value()),
    {
        self.r = self.r.minus(other);
    }
}

impl<T: Integer> core::ops::Mul<Complex<T>> for Complex<T> {
    type Output = Complex<T>;

    fn mul(self, other: Complex<T>) -> (r: Complex<T>)
        ensures
            r@ == self@.times(other@),
    {
        let r = Complex {
            r: self.r.times(other.r).minus(self.i.times(other.i)),
            i: self.r.times(other.i).plus(self.i.times(other.r)),
        };
        proof {
            r.lemma_with_view();
        }
        r
    }
}

impl<T: Integer> vstd::std_specs::ops::MulSpecImpl<Complex<T>> for Complex<T> {
    open spec fn obeys_mul_spec() -> bool {
        true
    }

    open spec fn mul_req(self, other: Complex<T>) -> bool {
        self@.times_fits::<T>(other@)
    }

    open spec fn mul_spec(self, other: Complex<T>) -> Complex<T> {
        Complex::with_view(self@.times(other@))
    }
}

impl<T: Integer> core::ops::MulAssign<Complex<T>> for Complex<T> {
    fn mul_assign(&mut self, other: Complex<T>)
        requires
            old(self)@.times_fits::<T>(other@),
        ensures
            final(self)@ == old(self)@.times(other@),
    {
        let nr = self.r.times(other.r).minus(self.i.times(other.i));
        let ni = self.r.times(other.i).plus(self.i.times(other.r));
        self.r = nr;
        self.i = ni;
    }
}

impl<T: Integer> core::ops::Div<Complex<T>> for Complex<T> {
    type Output = Complex<T>;

    fn div(self, other: Complex<T>) -> (r: Complex<T>)
        ensures
            r@ == self@.quotient_or_same(other@),
    {
        let d = other.norm_squared();
        if !d.is_zero() {
            let r = Complex {
                r: self.r.times(other.r).plus(self.i.times(other.i)).over(d),
                i: self.i.times(other.r).minus(self.r.times(other.i)).over(d),
            };
            proof {
                r.lemma_with_view();
            }
            r
        } else {
            proof {
                self.lemma_with_view();
            }
            self
        }
    }
}

impl<T: Integer> vstd::std_specs::ops::DivSpecImpl<Complex<T>> for Complex<T> {
    open spec fn obeys_div_spec() -> bool {
        true
    }

    open spec fn div_req(self, other: Complex<T>) -> bool {
        self@.quotient_fits::<T>(other@)
    }

    open spec fn div_spec(self, other: Complex<T>) -> Complex<T> {
        Complex::with_view(self@.quotient_or_same(other@))
    }
}

impl<T: Integer> core::ops::DivAssign<Complex<T>> for Complex<T> {
    fn div_assign(&mut self, other: Complex<T>)
        requires
            old(self)@.quotient_fits::<T>(other@),
        ensures
            final(self)@ == old(self)@.quotient_or_same(other@),
    {
        let d = other.norm_squared();
        if !d.is_zero() {
            let nr = self.r.times(other.r).plus(self.i.times(other.i)).over(d);
            let ni = self.i.times(other.r).minus(self.r.times(other.i)).over(d);
            self.r = nr;
            self.i = ni;
        }
    }
}

} // verus!
