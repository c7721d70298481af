//! Quaternions as plain values.

use vstd::prelude::*;
use crate::scalar::{Integer, Zero, in_range};
use crate::text::{decimal, push_decimal, push_signed, signed, string_of};

verus! {

/// A quaternion: a real part and three imaginary parts. It is a value to
/// hold and compare; no arithmetic is defined on it.
#[derive(Copy, Debug)]
pub struct Quaternion<T> {
    pub r: T,
    pub i: T,
    pub j: T,
    pub k: T,
}

impl<T: Copy> Clone for Quaternion<T> {
    fn clone(&self) -> (r: Self)
        ensures
            r == *self,
    {
        *self
    }
}

impl<T: Integer> View for Quaternion<T> {
    type V = Quaternion<int>;

    open spec fn view(&self) -> Quaternion<int> {
        Quaternion {
            r: self.r.value(),
            i: self.i.value(),
            j: self.j.value(),
            k: self.k.value(),
        }
    }
}

impl Quaternion<int> {
    /// Whether every component is a value of `T`.
    pub open spec fn fits<T: Integer>(self) -> bool {
        &&& in_range::<T>(self.r)
        &&& in_range::<T>(self.i)
        &&& in_range::<T>(self.j)
        &&& in_range::<T>(self.k)
    }

    /// The quaternion whose components are all zero.
    pub open spec fn zeros() -> Quaternion<int> {
        Quaternion { r: 0, i: 0, j: 0, k: 0 }
    }

    /// The quaternion as text.
    pub open spec fn text(self) -> Seq<char> {
        decimal(self.r) + signed(self.i) + seq!['i'] + signed(self.j) + seq!['j']
            + signed(self.k) + seq!['k']
    }
}

impl<T> Quaternion<T> {
    /// The quaternion of the given parts.
    pub fn new(r: T, i: T, j: T, k: T) -> (made: Quaternion<T>)
        ensures
            made == (Quaternion { r, i, j, k }),
    {
        Quaternion { r, i, j, k }
    }
}

impl<T: Integer> Quaternion<T> {
    /// The quaternion of `T` whose view is `m`, where there is one.
    pub open spec fn with_view(m: Quaternion<int>) -> Quaternion<T> {
        choose|r: Quaternion<T>| r@ == m
    }

    /// Equal views belong to equal values.
    pub proof fn lemma_view_injective(a: Quaternion<T>, b: Quaternion<T>)
        ensures
            a@ == b@ ==> a == b,
    {
        T::lemma_integer(a.r, b.r);
        T::lemma_integer(a.i, b.i);
        T::lemma_integer(a.j, b.j);
        T::lemma_integer(a.k, b.k);
    }

    /// A value is the one that has its view.
    pub proof fn lemma_with_view(self)
        ensures
            Self::with_view(self@) == self,
    {
        Self::lemma_view_injective(Self::with_view(self@), self);
    }

    /// Appends the text of the quaternion to `out`.
    pub fn append_to(&self, out: &mut Vec<char>)
        ensures
            final(out)@ == old(out)@ + self@.text(),
    {
        push_decimal(out, self.r.widen());
        push_signed(out, self.i.widen());
        out.push('i');
        push_signed(out, self.j.widen());
        out.push('j');
        push_signed(out, self.k.widen());
        out.push('k');
        assert(out@ =~= old(out)@ + self@.text());
    }

    /// The quaternion as text.
    pub fn to_string(&self) -> (s: String)
        ensures
            s@ == self@.text(),
    {
        let mut out: Vec<char> = Vec::new();
        self.append_to(&mut out);
        assert(out@ =~= self@.text());
        string_of(&out)
    }

    /// The view of the zero quaternion is all zeros.
    pub proof fn lemma_zero_view()
        ensures
            Self::zero_spec()@ == Quaternion::<int>::zeros(),
    {
        T::lemma_integer(T::zero_spec(), T::zero_spec());
    }
}

impl<T: Integer> Zero for Quaternion<T> {
    open spec fn zero_spec() -> Quaternion<T> {
        Quaternion {
            r: T::zero_spec(),
            i: T::zero_spec(),
            j: T::zero_spec(),
            k: T::zero_spec(),
        }
    }

    fn zero() -> (r: Quaternion<T>) {
        Quaternion { r: T::zero(), i: T::zero(), j: T::zero(), k: T::zero() }
    }
}

impl<T: Integer> PartialEq for Quaternion<T> {
    fn eq(&self, other: &Quaternion<T>) -> (r: bool) {
        self.r.equals(other.r)
            && self.i.equals(other.i)
            && self.j.equals(other.j)
            && self.k.equals(other.k)
    }
}

impl<T: Integer> vstd::std_specs::cmp::PartialEqSpecImpl for Quaternion<T> {
    open spec fn obeys_eq_spec() -> bool {
        true
    }

    open spec fn eq_spec(&self, other: &Quaternion<T>) -> bool {
        self@ == other@
    }
}

} // verus!
