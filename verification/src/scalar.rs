//! The scalar contract: additive and multiplicative identities, and bounded
//! integers whose arithmetic is exact as long as every result stays in range.

use vstd::prelude::*;

verus! {

/// Types that have an additive identity.
pub trait Zero: Sized {
    /// The additive identity.
    spec fn zero_spec() -> Self;

    fn zero() -> (r: Self)
        ensures
            r == Self::zero_spec(),
    ;
}

/// Types that have a multiplicative identity.
pub trait One: Sized {
    /// The multiplicative identity.
    spec fn one_spec() -> Self;

    fn one() -> (r: Self)
        ensures
            r == Self::one_spec(),
    ;
}

/// The quotient of `a` by `b` rounded toward zero, which is what machine
/// integers compute. Meaningful for `b != 0`.
pub open spec fn truncated(a: int, b: int) -> int {
    if a >= 0 {
        a / b
    } else {
        -((-a) / b)
    }
}

/// `truncated(a, b)` is the one integer `q` for which the remainder
/// `a - q * b` is smaller in magnitude than `b` and is zero or has the sign
/// of `a`.
pub proof fn lemma_truncated(a: int, b: int)
    requires
        b != 0,
    ensures
        a >= 0 ==> 0 <= a - truncated(a, b) * b,
        a <= 0 ==> a - truncated(a, b) * b <= 0,
        b > 0 ==> -b < a - truncated(a, b) * b < b,
        b < 0 ==> b < a - truncated(a, b) * b < -b,
{
    if a == 0 {
        lemma_truncated_zero(b);
    } else if a > 0 {
        lemma_remainder(a, b);
    } else {
        lemma_remainder(-a, b);
        assert((-((-a) / b)) * b == -(((-a) / b) * b)) by (nonlinear_arith);
    }
}

proof fn lemma_remainder(a: int, b: int)
    by (nonlinear_arith)
    requires
        b != 0,
    ensures
        0 <= a - (a / b) * b,
        b > 0 ==> a - (a / b) * b < b,
        b < 0 ==> a - (a / b) * b < -b,
{
}

/// Dividing by minus one negates.
pub proof fn lemma_truncated_by_minus_one(a: int)
    ensures
        truncated(a, -1) == -a,
{
    assert(a / (-1int) == -a) by (nonlinear_arith);
    assert((-a) / (-1int) == a) by (nonlinear_arith);
}

/// Zero divided by anything but zero is zero.
pub proof fn lemma_truncated_zero(b: int)
    requires
        b != 0,
    ensures
        truncated(0, b) == 0,
{
    assert(0int / b == 0) by (nonlinear_arith)
        requires
            b != 0,
    ;
}

/// Anything but zero divided by itself is one.
pub proof fn lemma_truncated_self(a: int)
    requires
        a != 0,
    ensures
        truncated(a, a) == 1,
{
    assert(a > 0 ==> a / a == 1) by (nonlinear_arith);
    assert(a < 0 ==> (-a) / a == -1) by (nonlinear_arith);
}

/// Dividing by one changes nothing.
pub proof fn lemma_truncated_by_one(a: int)
    ensures
        truncated(a, 1) == a,
{
}

/// A product divided by its nonzero right factor gives the left factor back.
pub proof fn lemma_truncated_product(q: int, b: int)
    requires
        b != 0,
    ensures
        truncated(q * b, b) == q,
{
    lemma_truncated(q * b, b);
    let t = truncated(q * b, b);
    assert(q * b - t * b == (q - t) * b) by (nonlinear_arith);
    assert(q == t) by (nonlinear_arith)
        requires
            b != 0,
            b > 0 ==> -b < (q - t) * b < b,
            b < 0 ==> b < (q - t) * b < -b,
    ;
}

/// A bounded integer scalar. Every value stands for the mathematical integer
/// `value()`, between `lowest()` and `highest()`. Each operation demands that
/// its exact result is in that range and then returns exactly that result.
pub trait Integer: Copy + Zero + One {
    /// The integer that this scalar stands for.
    spec fn value(self) -> int;

    /// The least integer that the type holds.
    spec fn lowest() -> int;

    /// The greatest integer that the type holds.
    spec fn highest() -> int;

    /// Values are in range, distinct scalars stand for distinct integers,
    /// and the two identities stand for 0 and 1.
    proof fn lemma_integer(a: Self, b: Self)
        ensures
            Self::lowest() <= a.value() <= Self::highest(),
            a.value() == b.value() ==> a == b,
            Self::zero_spec().value() == 0,
            Self::one_spec().value() == 1,
    ;

    fn plus(self, rhs: Self) -> (r: Self)
        requires
            Self::lowest() <= self.value() + rhs.value() <= Self::highest(),
        ensures
            r.value() == self.value() + rhs.value(),
    ;

    fn minus(self, rhs: Self) -> (r: Self)
        requires
            Self::lowest() <= self.value() - rhs.value() <= Self::highest(),
        ensures
            r.value() == self.value() - rhs.value(),
    ;

    fn times(self, rhs: Self) -> (r: Self)
        requires
            Self::lowest() <= self.value() * rhs.value() <= Self::highest(),
        ensures
            r.value() == self.value() * rhs.value(),
    ;

    fn over(self, rhs: Self) -> (r: Self)
        requires
            rhs.value() != 0,
            Self::lowest() <= truncated(self.value(), rhs.value()) <= Self::highest(),
        ensures
            r.value() == truncated(self.value(), rhs.value()),
    ;

    fn equals(self, rhs: Self) -> (r: bool)
        ensures
            r == (self.value() == rhs.value()),
    ;

    fn is_zero(self) -> (r: bool)
        ensures
            r == (self.value() == 0),
    ;

    /// The same integer in the widest machine type.
    fn widen(self) -> (r: i128)
        ensures
            r == self.value(),
    ;
}

/// Whether the scalar type `T` holds the integer `v`.
pub open spec fn in_range<T: Integer>(v: int) -> bool {
    T::lowest() <= v <= T::highest()
}

/// An integer scalar that has negative values.
pub trait Signed: Integer {
    fn negated(self) -> (r: Self)
        requires
            Self::lowest() <= -self.value() <= Self::highest(),
        ensures
            r.value() == -self.value(),
    ;
}

/// The scalar that stands for 0.
pub fn zero_of<T: Integer>() -> (r: T)
    ensures
        r.value() == 0,
{
    let r = T::zero();
    proof {
        T::lemma_integer(r, r);
    }
    r
}

/// The scalar that stands for 1.
pub fn one_of<T: Integer>() -> (r: T)
    ensures
        r.value() == 1,
{
    let r = T::one();
    proof {
        T::lemma_integer(r, r);
    }
    r
}

} // verus!
