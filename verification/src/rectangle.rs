//! Axis-aligned rectangles.

use vstd::prelude::*;
use crate::scalar::Integer;
use crate::text::{decimal, push_decimal, string_of};
use crate::vector::XY;

verus! {

/// An axis-aligned rectangle: its origin `o` and its size `s`. The size may
/// be negative.
#[derive(Copy, Debug)]
pub struct Rectangle<T> {
    pub o: XY<T>,
    pub s: XY<T>,
}

impl<T: Copy> Clone for Rectangle<T> {
    fn clone(&self) -> (r: Self)
        ensures
            r == *self,
    {
        *self
    }
}

impl<T: Integer> View for Rectangle<T> {
    type V = Rectangle<int>;

    open spec fn view(&self) -> Rectangle<int> {
        Rectangle { o: self.o@, s: self.s@ }
    }
}

impl Rectangle<int> {
    /// Whether every component is a value of `T`.
    pub open spec fn fits<T: Integer>(self) -> bool {
        &&& self.o.fits::<T>()
        &&& self.s.fits::<T>()
    }

    /// The rectangle as text.
    pub open spec fn text(self) -> Seq<char> {
        seq!['('] + decimal(self.o.x) + seq![','] + decimal(self.o.y) + seq![';', ' ']
            + decimal(self.s.x) + seq!['x'] + decimal(self.s.y) + seq![')']
    }
}

impl<T> Rectangle<T> {
    /// The rectangle of the given origin and size.
    pub fn new(o: XY<T>, s: XY<T>) -> (r: Rectangle<T>)
        ensures
            r == (Rectangle { o, s }),
    {
        Rectangle { o, s }
    }
}

impl<T: Integer> Rectangle<T> {
    /// The rectangle of `T` whose view is `m`, where there is one.
    pub open spec fn with_view(m: Rectangle<int>) -> Rectangle<T> {
        choose|r: Rectangle<T>| r@ == m
    }

    /// Equal views belong to equal values.
    pub proof fn lemma_view_injective(a: Rectangle<T>, b: Rectangle<T>)
        ensures
            a@ == b@ ==> a == b,
    {
        XY::lemma_view_injective(a.o, b.o);
        XY::lemma_view_injective(a.s, b.s);
    }

    /// A value is the one that has its view.
    pub proof fn lemma_with_view(self)
        ensures
            Self::with_view(self@) == self,
    {
        Self::lemma_view_injective(Self::with_view(self@), self);
    }

    /// Appends the text of the rectangle to `out`.
    pub fn append_to(&self, out: &mut Vec<char>)
        ensures
            final(out)@ == old(out)@ + self@.text(),
    {
        out.push('(');
        let ghost mut done = seq!['('];
        push_decimal(out, self.o.x.widen());
        out.push(',');
        proof {
            done = done + decimal(self@.o.x) + seq![','];
            assert(out@ =~= old(out)@ + done);
        }
        push_decimal(out, self.o.y.widen());
        out.push(';');
        out.push(' ');
        proof {
            done = done + decimal(self@.o.y) + seq![';', ' '];
            assert(out@ =~= old(out)@ + done);
        }
        push_decimal(out, self.s.x.widen());
        out.push('x');
        proof {
            done = done + decimal(self@.s.x) + seq!['x'];
            assert(out@ =~= old(out)@ + done);
        }
        push_decimal(out, self.s.y.widen());
        out.push(')');
        proof {
            done = done + decimal(self@.s.y) + seq![')'];
            assert(out@ =~= old(out)@ + done);
        }
    }

    /// The rectangle as text.
    pub fn to_string(&self) -> (s: String)
        ensures
            s@ == self@.text(),
    {
        let mut out: Vec<char> = Vec::new();
        self.append_to(&mut out);
        assert(out@ =~= self@.text());
        string_of(&out)
    }
}

impl<T: Integer> PartialEq for Rectangle<T> {
    fn eq(&self, other: &Rectangle<T>) -> (r: bool) {
        self.o == other.o && self.s == other.s
    }
}

impl<T: Integer> vstd::std_specs::cmp::PartialEqSpecImpl for Rectangle<T> {
    open spec fn obeys_eq_spec() -> bool {
        true
    }

    open spec fn eq_spec(&self, other: &Rectangle<T>) -> bool {
        self@ == other@
    }
}

} // verus!
