//! Multivectors of three dimensions and their geometric product.

use vstd::prelude::*;
use crate::blade::{Blade, count};
use crate::scalar::{Integer, Signed, Zero, in_range, truncated};
use crate::text::{decimal, push_decimal, push_signed, signed, string_of};

verus! {

/// An element of the geometric algebra of Euclidean space of three
/// dimensions: one coefficient for each basis blade, the scalar first,
/// then the blades of each grade in the order of their generators.
#[derive(Copy, Debug)]
pub struct MultiVec3<T> {
    pub r: T,
    pub x: T,
    pub y: T,
    pub z: T,
    pub xy: T,
    pub xz: T,
    pub yz: T,
    pub xyz: T,
}

impl<T: Copy> Clone for MultiVec3<T> {
    fn clone(&self) -> (r: Self)
        ensures
            r == *self,
    {
        *self
    }
}

impl<T: Integer> View for MultiVec3<T> {
    type V = MultiVec3<int>;

    open spec fn view(&self) -> MultiVec3<int> {
        MultiVec3 {
            r: self.r.value(),
            x: self.x.value(),
            y: self.y.value(),
            z: self.z.value(),
            xy: self.xy.value(),
            xz: self.xz.value(),
            yz: self.yz.value(),
            xyz: self.xyz.value(),
        }
    }
}

impl MultiVec3<int> {
    /// Whether every component is a value of `T`.
    pub open spec fn fits<T: Integer>(self) -> bool {
        &&& in_range::<T>(self.r)
        &&& in_range::<T>(self.x)
        &&& in_range::<T>(self.y)
        &&& in_range::<T>(self.z)
        &&& in_range::<T>(self.xy)
        &&& in_range::<T>(self.xz)
        &&& in_range::<T>(self.yz)
        &&& in_range::<T>(self.xyz)
    }

    /// The multivector whose components are all zero.
    pub open spec fn zeros() -> MultiVec3<int> {
        MultiVec3 { r: 0, x: 0, y: 0, z: 0, xy: 0, xz: 0, yz: 0, xyz: 0 }
    }

    /// The component-wise sum.
    pub open spec fn plus(self, other: MultiVec3<int>) -> MultiVec3<int> {
        MultiVec3 {
            r: self.r + other.r,
            x: self.x + other.x,
            y: self.y + other.y,
            z: self.z + other.z,
            xy: self.xy + other.xy,
            xz: self.xz + other.xz,
            yz: self.yz + other.yz,
            xyz: self.xyz + other.xyz,
        }
    }

    /// The component-wise difference.
    pub open spec fn minus(self, other: MultiVec3<int>) -> MultiVec3<int> {
        MultiVec3 {
            r: self.r - other.r,
            x: self.x - other.x,
            y: self.y - other.y,
            z: self.z - other.z,
            xy: self.xy - other.xy,
            xz: self.xz - other.xz,
            yz: self.yz - other.yz,
            xyz: self.xyz - other.xyz,
        }
    }

    /// Every component negated.
    pub open spec fn negated(self) -> MultiVec3<int> {
        MultiVec3 {
            r: -self.r,
            x: -self.x,
            y: -self.y,
            z: -self.z,
            xy: -self.xy,
            xz: -self.xz,
            yz: -self.yz,
            xyz: -self.xyz,
        }
    }

    /// Every component multiplied by `s`.
    pub open spec fn scaled(self, s: int) -> MultiVec3<int> {
        MultiVec3 {
            r: self.r * s,
            x: self.x * s,
            y: self.y * s,
            z: self.z * s,
            xy: self.xy * s,
            xz: self.xz * s,
            yz: self.yz * s,
            xyz: self.xyz * s,
        }
    }

    /// Every component divided by `d`, rounding toward zero.
    pub open spec fn over(self, d: int) -> MultiVec3<int> {
        MultiVec3 {
            r: truncated(self.r, d),
            x: truncated(self.x, d),
            y: truncated(self.y, d),
            z: truncated(self.z, d),
            xy: truncated(self.xy, d),
            xz: truncated(self.xz, d),
            yz: truncated(self.yz, d),
            xyz: truncated(self.xyz, d),
        }
    }

    /// Division that leaves the multivector as it is when the divisor is zero.
    pub open spec fn over_or_same(self, d: int) -> MultiVec3<int> {
        if d == 0 {
            self
        } else {
            self.over(d)
        }
    }

    /// The multivector as text.
    pub open spec fn text(self) -> Seq<char> {
        decimal(self.r) + signed(self.x) + seq!['x'] + signed(self.y) + seq!['y']
            + signed(self.z) + seq!['z'] + signed(self.xy) + seq!['x', 'y'] + signed(self.xz)
            + seq!['x', 'z'] + signed(self.yz) + seq!['y', 'z'] + signed(self.xyz)
            + seq!['x', 'y', 'z']
    }

    /// The coefficient of the basis blade `b`.
    pub open spec fn coefficient(self, b: Blade) -> int {
        match (b.x, b.y, b.z, b.w) {
            (false, false, false, false) => self.r,
            (true, false, false, false) => self.x,
            (false, true, false, false) => self.y,
            (false, false, true, false) => self.z,
            (true, true, false, false) => self.xy,
            (true, false, true, false) => self.xz,
            (false, true, true, false) => self.yz,
            (true, true, true, false) => self.xyz,
            _ => 0,
        }
    }

    /// The multivector that is one on the blade `b` and zero elsewhere.
    pub open spec fn basis(b: Blade) -> MultiVec3<int> {
        MultiVec3 {
            r: count(b == Blade::scalar()),
            x: count(b == Blade::x()),
            y: count(b == Blade::y()),
            z: count(b == Blade::z()),
            xy: count(b == Blade::xy()),
            xz: count(b == Blade::xz()),
            yz: count(b == Blade::yz()),
            xyz: count(b == Blade::xyz()),
        }
    }

    /// The multivector that is the scalar `s`.
    pub open spec fn scalar(s: int) -> MultiVec3<int> {
        MultiVec3 { r: s, x: 0, y: 0, z: 0, xy: 0, xz: 0, yz: 0, xyz: 0 }
    }

    /// What the blade `a` of `self` adds to the coefficient of the blade `c`
    /// of the geometric product with `other`. It meets there the one blade
    /// `b` of `other` whose product with `a` is a multiple of `c`, and adds
    /// the product of the two coefficients, negated where `a` times `b` is
    /// the negative of `c`.
    pub open spec fn term(self, other: MultiVec3<int>, a: Blade, c: Blade) -> int {
        let b = a.product(c);
        if a.flips(b) {
            -(self.coefficient(a) * other.coefficient(b))
        } else {
            self.coefficient(a) * other.coefficient(b)
        }
    }

    /// The coefficient of the blade `c` in the geometric product: the sum of
    /// the terms of all blades of `self`.
    pub open spec fn geometric_coefficient(self, other: MultiVec3<int>, c: Blade) -> int {
        self.term(other, Blade::scalar(), c)
            + self.term(other, Blade::x(), c)
            + self.term(other, Blade::y(), c)
            + self.term(other, Blade::z(), c)
            + self.term(other, Blade::xy(), c)
            + self.term(other, Blade::xz(), c)
            + self.term(other, Blade::yz(), c)
            + self.term(other, Blade::xyz(), c)
    }

    /// The geometric product.
    pub open spec fn geometric(self, other: MultiVec3<int>) -> MultiVec3<int> {
        MultiVec3 {
            r: self.geometric_coefficient(other, Blade::scalar()),
            x: self.geometric_coefficient(other, Blade::x()),
            y: self.geometric_coefficient(other, Blade::y()),
            z: self.geometric_coefficient(other, Blade::z()),
            xy: self.geometric_coefficient(other, Blade::xy()),
            xz: self.geometric_coefficient(other, Blade::xz()),
            yz: self.geometric_coefficient(other, Blade::yz()),
            xyz: self.geometric_coefficient(other, Blade::xyz()),
        }
    }

    /// Whether `T` holds the product of coefficients in the term of `a`.
    pub open spec fn term_fits<T: Integer>(
        self,
        other: MultiVec3<int>,
        a: Blade,
        c: Blade,
    ) -> bool {
        in_range::<T>(self.coefficient(a) * other.coefficient(a.product(c)))
    }

    /// Whether `T` holds what computing the coefficient of `c` passes
    /// through: the product in each term, and each sum of the first terms.
    pub open spec fn coefficient_fits<T: Integer>(self, other: MultiVec3<int>, c: Blade) -> bool {
        let t0 = self.term(other, Blade::scalar(), c);
        let t1 = self.term(other, Blade::x(), c);
        let t2 = self.term(other, Blade::y(), c);
        let t3 = self.term(other, Blade::z(), c);
        let t4 = self.term(other, Blade::xy(), c);
        let t5 = self.term(other, Blade::xz(), c);
        let t6 = self.term(other, Blade::yz(), c);
        let t7 = self.term(other, Blade::xyz(), c);
        &&& self.term_fits::<T>(other, Blade::scalar(), c)
        &&& self.term_fits::<T>(other, Blade::x(), c)
        &&& self.term_fits::<T>(other, Blade::y(), c)
        &&& self.term_fits::<T>(other, Blade::z(), c)
        &&& self.term_fits::<T>(other, Blade::xy(), c)
        &&& self.term_fits::<T>(other, Blade::xz(), c)
        &&& self.term_fits::<T>(other, Blade::yz(), c)
        &&& self.term_fits::<T>(other, Blade::xyz(), c)
        &&& in_range::<T>(t0 + t1)
        &&& in_range::<T>(t0 + t1 + t2)
        &&& in_range::<T>(t0 + t1 + t2 + t3)
        &&& in_range::<T>(t0 + t1 + t2 + t3 + t4)
        &&& in_range::<T>(t0 + t1 + t2 + t3 + t4 + t5)
        &&& in_range::<T>(t0 + t1 + t2 + t3 + t4 + t5 + t6)
        &&& in_range::<T>(t0 + t1 + t2 + t3 + t4 + t5 + t6 + t7)
    }

    /// Whether `T` holds what computing the geometric product passes through.
    pub open spec fn geometric_fits<T: Integer>(self, other: MultiVec3<int>) -> bool {
        &&& self.coefficient_fits::<T>(other, Blade::scalar())
        &&& self.coefficient_fits::<T>(other, Blade::x())
        &&& self.coefficient_fits::<T>(other, Blade::y())
        &&& self.coefficient_fits::<T>(other, Blade::z())
        &&& self.coefficient_fits::<T>(other, Blade::xy())
        &&& self.coefficient_fits::<T>(other, Blade::xz())
        &&& self.coefficient_fits::<T>(other, Blade::yz())
        &&& self.coefficient_fits::<T>(other, Blade::xyz())
    }

    /// Adding `b` and then subtracting it again gives `a` back.
    pub proof fn lemma_plus_minus(a: MultiVec3<int>, b: MultiVec3<int>)
        ensures
            a.plus(b).minus(b) == a,
    {
    }

    /// Scaling by one changes nothing.
    pub proof fn lemma_scaled_one(a: MultiVec3<int>)
        ensures
            a.scaled(1) == a,
    {
    }

    /// Scaling by zero gives zero.
    pub proof fn lemma_scaled_zero(a: MultiVec3<int>)
        ensures
            a.scaled(0) == MultiVec3::<int>::zeros(),
    {
    }

    /// The product of two basis blades is the blade of their product, with
    /// the sign of their product.
    pub proof fn lemma_basis_product(a: Blade, b: Blade)
        requires
            a.in_space(),
            b.in_space(),
        ensures
            ({
                let ea = MultiVec3::<int>::basis(a);
                let eb = MultiVec3::<int>::basis(b);
                ea.geometric(eb) == MultiVec3::<int>::basis(a.product(b)).scaled(a.sign(b))
            }),
    {
    }

    /// Every generator squares to one.
    pub proof fn lemma_generator_squares(g: Blade)
        requires
            g.is_generator(),
            g.in_space(),
        ensures
            ({
                let eg = MultiVec3::<int>::basis(g);
                eg.geometric(eg) == MultiVec3::<int>::scalar(1)
            }),
    {
        MultiVec3::<int>::lemma_basis_product(g, g);
    }

    /// Two different generators anticommute.
    pub proof fn lemma_generators_anticommute(g: Blade, h: Blade)
        requires
            g.is_generator(),
            h.is_generator(),
            g != h,
            g.in_space(),
            h.in_space(),
        ensures
            ({
                let eg = MultiVec3::<int>::basis(g);
                let eh = MultiVec3::<int>::basis(h);
                eg.geometric(eh) == eh.geometric(eg).negated()
            }),
    {
        MultiVec3::<int>::lemma_basis_product(g, h);
        MultiVec3::<int>::lemma_basis_product(h, g);
    }

    /// The scalar one is the identity of the geometric product.
    pub proof fn lemma_one_is_identity(m: MultiVec3<int>)
        ensures
            MultiVec3::<int>::scalar(1).geometric(m) == m,
            m.geometric(MultiVec3::<int>::scalar(1)) == m,
    {
        broadcast use vstd::arithmetic::mul::group_mul_basics;
    }
}

impl<T> MultiVec3<T> {
    /// The multivector of the given coefficients.
    pub fn new(r: T, x: T, y: T, z: T, xy: T, xz: T, yz: T, xyz: T) -> (made: MultiVec3<T>)
        ensures
            made == (MultiVec3 { r, x, y, z, xy, xz, yz, xyz }),
    {
        MultiVec3 { r, x, y, z, xy, xz, yz, xyz }
    }
}

impl<T: Integer> MultiVec3<T> {
    /// The multivector of `T` whose view is `m`, where there is one.
    pub open spec fn with_view(m: MultiVec3<int>) -> MultiVec3<T> {
        choose|r: MultiVec3<T>| r@ == m
    }

    /// Equal views belong to equal values.
    pub proof fn lemma_view_injective(a: MultiVec3<T>, b: MultiVec3<T>)
        ensures
            a@ == b@ ==> a == b,
    {
        T::lemma_integer(a.r, b.r);
        T::lemma_integer(a.x, b.x);
        T::lemma_integer(a.y, b.y);
        T::lemma_integer(a.z, b.z);
        T::lemma_integer(a.xy, b.xy);
        T::lemma_integer(a.xz, b.xz);
        T::lemma_integer(a.yz, b.yz);
        T::lemma_integer(a.xyz, b.xyz);
    }

    /// A value is the one that has its view.
    pub proof fn lemma_with_view(self)
        ensures
            Self::with_view(self@) == self,
    {
        Self::lemma_view_injective(Self::with_view(self@), self);
    }

    /// Appends the text of the multivector to `out`.
    pub fn append_to(&self, out: &mut Vec<char>)
        ensures
            final(out)@ == old(out)@ + self@.text(),
    {
        push_decimal(out, self.r.widen());
        let ghost mut done = decimal(self@.r);
        push_signed(out, self.x.widen());
        out.push('x');
        proof {
            done = done + signed(self@.x) + seq!['x'];
            assert(out@ =~= old(out)@ + done);
        }
        push_signed(out, self.y.widen());
        out.push('y');
        proof {
            done = done + signed(self@.y) + seq!['y'];
            assert(out@ =~= old(out)@ + done);
        }
        push_signed(out, self.z.widen());
        out.push('z');
        proof {
            done = done + signed(self@.z) + seq!['z'];
            assert(out@ =~= old(out)@ + done);
        }
        push_signed(out, self.xy.widen());
        out.push('x');
        out.push('y');
        proof {
            done = done + signed(self@.xy) + seq!['x', 'y'];
            assert(out@ =~= old(out)@ + done);
        }
        push_signed(out, self.xz.widen());
        out.push('x');
        out.push('z');
        proof {
            done = done + signed(self@.xz) + seq!['x', 'z'];
            assert(out@ =~= old(out)@ + done);
        }
        push_signed(out, self.yz.widen());
        out.push('y');
        out.push('z');
        proof {
            done = done + signed(self@.yz) + seq!['y', 'z'];
            assert(out@ =~= old(out)@ + done);
        }
        push_signed(out, self.xyz.widen());
        out.push('x');
        out.push('y');
        out.push('z');
        proof {
            done = done + signed(self@.xyz) + seq!['x', 'y', 'z'];
            assert(out@ =~= old(out)@ + done);
        }
    }

    /// The multivector as text.
    pub fn to_string(&self) -> (s: String)
        ensures
            s@ == self@.text(),
    {
        let mut out: Vec<char> = Vec::new();
        self.append_to(&mut out);
        assert(out@ =~= self@.text());
        string_of(&out)
    }

    /// The view of the zero multivector is all zeros.
    pub proof fn lemma_zero_view()
        ensures
            Self::zero_spec()@ == MultiVec3::<int>::zeros(),
    {
        T::lemma_integer(T::zero_spec(), T::zero_spec());
    }

    /// The product with the scalar written on the left, `s * self`.
    pub fn rmul(self, s: T) -> (r: MultiVec3<T>)
        requires
            self@.scaled(s.value()).fits::<T>(),
        ensures
            r@ == self@.scaled(s.value()),
    {
        self * s
    }

    /// The scalar part of the geometric product of `self` and `other`.
    fn product_r(&self, other: &MultiVec3<T>) -> (r: T)
        requires
            self@.coefficient_fits::<T>(other@, Blade::scalar()),
        ensures
            r.value() == self@.geometric_coefficient(other@, Blade::scalar()),
    {
        self.r.times(other.r)
            .plus(self.x.times(other.x))
            .plus(self.y.times(other.y))
            .plus(self.z.times(other.z))
            .minus(self.xy.times(other.xy))
            .minus(self.xz.times(other.xz))
            .minus(self.yz.times(other.yz))
            .minus(self.xyz.times(other.xyz))
    }

    /// The coefficient of `x` of the geometric product of `self` and `other`.
    fn product_x(&self, other: &MultiVec3<T>) -> (r: T)
        requires
            self@.coefficient_fits::<T>(other@, Blade::x()),
        ensures
            r.value() == self@.geometric_coefficient(other@, Blade::x()),
    {
        self.r.times(other.x)
            .plus(self.x.times(other.r))
            .minus(self.y.times(other.xy))
            .minus(self.z.times(other.xz))
            .plus(self.xy.times(other.y))
            .plus(self.xz.times(other.z))
            .minus(self.yz.times(other.xyz))
            .minus(self.xyz.times(other.yz))
    }

    /// The coefficient of `y` of the geometric product of `self` and `other`.
    fn product_y(&self, other: &MultiVec3<T>) -> (r: T)
        requires
            self@.coefficient_fits::<T>(other@, Blade::y()),
        ensures
            r.value() == self@.geometric_coefficient(other@, Blade::y()),
    {
        self.r.times(other.y)
            .plus(self.x.times(other.xy))
            .plus(self.y.times(other.r))
            .minus(self.z.times(other.yz))
            .minus(self.xy.times(other.x))
            .plus(self.xz.times(other.xyz))
            .plus(self.yz.times(other.z))
            .plus(self.xyz.times(other.xz))
    }

    /// The coefficient of `z` of the geometric product of `self` and `other`.
    fn product_z(&self, other: &MultiVec3<T>) -> (r: T)
        requires
            self@.coefficient_fits::<T>(other@, Blade::z()),
        ensures
            r.value() == self@.geometric_coefficient(other@, Blade::z()),
    {
        self.r.times(other.z)
            .plus(self.x.times(other.xz))
            .plus(self.y.times(other.yz))
            .plus(self.z.times(other.r))
            .minus(self.xy.times(other.xyz))
            .minus(self.xz.times(other.x))
            .minus(self.yz.times(other.y))
            .minus(self.xyz.times(other.xy))
    }

    /// The coefficient of `xy` of the geometric product of `self` and `other`.
    fn product_xy(&self, other: &MultiVec3<T>) -> (r: T)
        requires
            self@.coefficient_fits::<T>(other@, Blade::xy()),
        ensures
            r.value() == self@.geometric_coefficient(other@, Blade::xy()),
    {
        self.r.times(other.xy)
            .plus(self.x.times(other.y))
            .minus(self.y.times(other.x))
            .plus(self.z.times(other.xyz))
            .plus(self.xy.times(other.r))
            .minus(self.xz.times(other.yz))
            .plus(self.yz.times(other.xz))
            .plus(self.xyz.times(other.z))
    }

    /// The coefficient of `xz` of the geometric product of `self` and `other`.
    fn product_xz(&self, other: &MultiVec3<T>) -> (r: T)
        requires
            self@.coefficient_fits::<T>(other@, Blade::xz()),
        ensures
            r.value() == self@.geometric_coefficient(other@, Blade::xz()),
    {
        self.r.times(other.xz)
            .plus(self.x.times(other.z))
            .minus(self.y.times(other.xyz))
            .minus(self.z.times(other.x))
            .plus(self.xy.times(other.yz))
            .plus(self.xz.times(other.r))
            .minus(self.yz.times(other.xy))
            .minus(self.xyz.times(other.y))
    }

    /// The coefficient of `yz` of the geometric product of `self` and `other`.
    fn product_yz(&self, other: &MultiVec3<T>) -> (r: T)
        requires
            self@.coefficient_fits::<T>(other@, Blade::yz()),
        ensures
            r.value() == self@.geometric_coefficient(other@, Blade::yz()),
    {
        self.r.times(other.yz)
            .plus(self.x.times(other.xyz))
            .plus(self.y.times(other.z))
            .minus(self.z.times(other.y))
            .minus(self.xy.times(other.xz))
            .plus(self.xz.times(other.xy))
            .plus(self.yz.times(other.r))
            .plus(self.xyz.times(other.x))
    }

    /// The coefficient of `xyz` of the geometric product of `self` and `other`.
    fn product_xyz(&self, other: &MultiVec3<T>) -> (r: T)
        requires
            self@.coefficient_fits::<T>(other@, Blade::xyz()),
        ensures
            r.value() == self@.geometric_coefficient(other@, Blade::xyz()),
    {
        self.r.times(other.xyz)
            .plus(self.x.times(other.yz))
            .minus(self.y.times(other.xz))
            .plus(self.z.times(other.xy))
            .plus(self.xy.times(other.z))
            .minus(self.xz.times(other.y))
            .plus(self.yz.times(other.x))
            .plus(self.xyz.times(other.r))
    }
}

impl<T: Integer> Zero for MultiVec3<T> {
    open spec fn zero_spec() -> MultiVec3<T> {
        MultiVec3 {
            r: T::zero_spec(),
            x: T::zero_spec(),
            y: T::zero_spec(),
            z: T::zero_spec(),
            xy: T::zero_spec(),
            xz: T::zero_spec(),
            yz: T::zero_spec(),
            xyz: T::zero_spec(),
        }
    }

    fn zero() -> (r: MultiVec3<T>) {
        MultiVec3 {
            r: T::zero(),
            x: T::zero(),
            y: T::zero(),
            z: T::zero(),
            xy: T::zero(),
            xz: T::zero(),
            yz: T::zero(),
            xyz: T::zero(),
        }
    }
}

impl<T: Integer> PartialEq for MultiVec3<T> {
    fn eq(&self, other: &MultiVec3<T>) -> (r: bool) {
        self.r.equals(other.r)
            && self.x.equals(other.x)
            && self.y.equals(other.y)
            && self.z.equals(other.z)
            && self.xy.equals(other.xy)
            && self.xz.equals(other.xz)
            && self.yz.equals(other.yz)
            && self.xyz.equals(other.xyz)
    }
}

impl<T: Integer> vstd::std_specs::cmp::PartialEqSpecImpl for MultiVec3<T> {
    open spec fn obeys_eq_spec() -> bool {
        true
    }

    open spec fn eq_spec(&self, other: &MultiVec3<T>) -> bool {
        self@ == other@
    }
}

impl<T: Integer> core::ops::Add for MultiVec3<T> {
    type Output = MultiVec3<T>;

    fn add(self, other: MultiVec3<T>) -> (r: MultiVec3<T>)
        ensures
            r@ == self@.plus(other@),
    {
        let r = MultiVec3 {
            r: self.r.plus(other.r),
            x: self.x.plus(other.x),
            y: self.y.plus(other.y),
            z: self.z.plus(other.z),
            xy: self.xy.plus(other.xy),
            xz: self.xz.plus(other.xz),
            yz: self.yz.plus(other.yz),
            xyz: self.xyz.plus(other.xyz),
        };
        proof {
            r.lemma_with_view();
        }
        r
    }
}

impl<T: Integer> vstd::std_specs::ops::AddSpecImpl for MultiVec3<T> {
    open spec fn obeys_add_spec() -> bool {
        true
    }

    open spec fn add_req(self, other: MultiVec3<T>) -> bool {
        self@.plus(other@).fits::<T>()
    }

    open spec fn add_spec(self, other: MultiVec3<T>) -> MultiVec3<T> {
        MultiVec3::with_view(self@.plus(other@))
    }
}

impl<T: Integer> core::ops::Sub for MultiVec3<T> {
    type Output = MultiVec3<T>;

    fn sub(self, other: MultiVec3<T>) -> (r: MultiVec3<T>)
        ensures
            r@ == self@.minus(other@),
    {
        let r = MultiVec3 {
            r: self.r.minus(other.r),
            x: self.x.minus(other.x),
            y: self.y.minus(other.y),
            z: self.z.minus(other.z),
            xy: self.xy.minus(other.xy),
            xz: self.xz.minus(other.xz),
            yz: self.yz.minus(other.yz),
            xyz: self.xyz.minus(other.xyz),
        };
        proof {
            r.lemma_with_view();
        }
        r
    }
}

impl<T: Integer> vstd::std_specs::ops::SubSpecImpl for MultiVec3<T> {
    open spec fn obeys_sub_spec() -> bool {
        true
    }

    open spec fn sub_req(self, other: MultiVec3<T>) -> bool {
        self@.minus(other@).fits::<T>()
    }

    open spec fn sub_spec(self, other: MultiVec3<T>) -> MultiVec3<T> {
        MultiVec3::with_view(self@.minus(other@))
    }
}

impl<T: Integer> core::ops::AddAssign for MultiVec3<T> {
    fn add_assign(&mut self, other: MultiVec3<T>)
        requires
            old(self)@.plus(other@).fits::<T>(),
        ensures
            final(self)@ == old(self)@.plus(other@),
    {
        self.r = self.r.plus(other.r);
        self.x = self.x.plus(other.x);
        self.y = self.y.plus(other.y);
        self.z = self.z.plus(other.z);
        self.xy = self.xy.plus(other.xy);
        self.xz = self.xz.plus(other.xz);
        self.yz = self.yz.plus(other.yz);
        self.xyz = self.xyz.plus(other.xyz);
    }
}

impl<T: Integer> core::ops::SubAssign for MultiVec3<T> {
    fn sub_assign(&mut self, other: MultiVec3<T>)
        requires
            old(self)@.minus(other@).fits::<T>(),
        ensures
            final(self)@ == old(self)@.minus(other@),
    {
        self.r = self.r.minus(other.r);
        self.x = self.x.minus(other.x);
        self.y = self.y.minus(other.y);
        self.z = self.z.minus(other.z);
        self.xy = self.xy.minus(other.xy);
        self.xz = self.xz.minus(other.xz);
        self.yz = self.yz.minus(other.yz);
        self.xyz = self.xyz.minus(other.xyz);
    }
}

impl<T: Signed> core::ops::Neg for MultiVec3<T> {
    type Output = MultiVec3<T>;

    fn neg(self) -> (r: MultiVec3<T>)
        ensures
            r@ == self@.negated(),
    {
        let r = MultiVec3 {
            r: self.r.negated(),
            x: self.x.negated(),
            y: self.y.negated(),
            z: self.z.negated(),
            xy: self.xy.negated(),
            xz: self.xz.negated(),
            yz: self.yz.negated(),
            xyz: self.xyz.negated(),
        };
        proof {
            r.lemma_with_view();
        }
        r
    }
}

impl<T: Signed> vstd::std_specs::ops::NegSpecImpl for MultiVec3<T> {
    open spec fn obeys_neg_spec() -> bool {
        true
    }

    open spec fn neg_req(self) -> bool {
        self@.negated().fits::<T>()
    }

    open spec fn neg_spec(self) -> MultiVec3<T> {
        MultiVec3::with_view(self@.negated())
    }
}

impl<T: Integer> core::ops::Mul<T> for MultiVec3<T> {
    type Output = MultiVec3<T>;

    fn mul(self, other: T) -> (r: MultiVec3<T>)
        ensures
            r@ == self@.scaled(other.value()),
    {
        let r = MultiVec3 {
            r: self.r.times(other),
            x: self.x.times(other),
            y: self.y.times(other),
            z: self.z.times(other),
            xy: self.xy.times(other),
            xz: self.xz.times(other),
            yz: self.yz.times(other),
            xyz: self.xyz.times(other),
        };
        proof {
            r.lemma_with_view();
        }
        r
    }
}

impl<T: Integer> vstd::std_specs::ops::MulSpecImpl<T> for MultiVec3<T> {
    open spec fn obeys_mul_spec() -> bool {
        true
    }

    open spec fn mul_req(self, other: T) -> bool {
        self@.scaled(other.value()).fits::<T>()
    }

    open spec fn mul_spec(self, other: T) -> MultiVec3<T> {
        MultiVec3::with_view(self@.scaled(other.value()))
    }
}

impl<T: Integer> core::ops::MulAssign<T> for MultiVec3<T> {
    fn mul_assign(&mut self, other: T)
        requires
            old(self)@.scaled(other.value()).fits::<T>(),
        ensures
            final(self)@ == old(self)@.scaled(other.value()),
    {
        self.r = self.r.times(other);
        self.x = self.x.times(other);
        self.y = self.y.times(other);
        self.z = self.z.times(other);
        self.xy = self.xy.times(other);
        self.xz = self.xz.times(other);
        self.yz = self.yz.times(other);
        self.xyz = self.xyz.times(other);
    }
}

impl<T: Integer> core::ops::Mul<MultiVec3<T>> for MultiVec3<T> {
    type Output = MultiVec3<T>;

    fn mul(self, other: MultiVec3<T>) -> (r: MultiVec3<T>)
        ensures
            r@ == self@.geometric(other@),
    {
        let r = MultiVec3 {
            r: self.product_r(&other),
            x: self.product_x(&other),
            y: self.product_y(&other),
            z: self.product_z(&other),
            xy: self.product_xy(&other),
            xz: self.product_xz(&other),
            yz: self.product_yz(&other),
            xyz: self.product_xyz(&other),
        };
        proof {
            r.lemma_with_view();
        }
        r
    }
}

impl<T: Integer> vstd::std_specs::ops::MulSpecImpl<MultiVec3<T>> for MultiVec3<T> {
    open spec fn obeys_mul_spec() -> bool {
        true
    }

    open spec fn mul_req(self, other: MultiVec3<T>) -> bool {
        self@.geometric_fits::<T>(other@)
    }

    open spec fn mul_spec(self, other: MultiVec3<T>) -> MultiVec3<T> {
        MultiVec3::with_view(self@.geometric(other@))
    }
}

impl<T: Integer> core::ops::MulAssign<MultiVec3<T>> for MultiVec3<T> {
    fn mul_assign(&mut self, other: MultiVec3<T>)
        requires
            old(self)@.geometric_fits::<T>(other@),
        ensures
            final(self)@ == old(self)@.geometric(other@),
    {
        *self = MultiVec3 {
                    r: self.product_r(&other),
                    x: self.product_x(&other),
                    y: self.product_y(&other),
                    z: self.product_z(&other),
                    xy: self.product_xy(&other),
                    xz: self.product_xz(&other),
                    yz: self.product_yz(&other),
                    xyz: self.product_xyz(&other),
                };
    }
}

/// Division by a scalar, rounding toward zero. A divisor of zero leaves the
/// multivector as it is.
impl<T: Integer> core::ops::Div<T> for MultiVec3<T> {
    type Output = MultiVec3<T>;

    fn div(self, other: T) -> (r: MultiVec3<T>)
        ensures
            r@ == self@.over_or_same(other.value()),
    {
        if !other.is_zero() {
            let r = MultiVec3 {
                r: self.r.over(other),
                x: self.x.over(other),
                y: self.y.over(other),
                z: self.z.over(other),
                xy: self.xy.over(other),
                xz: self.xz.over(other),
                yz: self.yz.over(other),
                xyz: self.xyz.over(other),
            };
            proof {
                r.lemma_with_view();
            }
            r
        } else {
            proof {
                self.lemma_with_view();
            }
            self
        }
    }
}

impl<T: Integer> vstd::std_specs::ops::DivSpecImpl<T> for MultiVec3<T> {
    open spec fn obeys_div_spec() -> bool {
        true
    }

    open spec fn div_req(self, other: T) -> bool {
        other.value() != 0 ==> self@.over(other.value()).fits::<T>()
    }

    open spec fn div_spec(self, other: T) -> MultiVec3<T> {
        MultiVec3::with_view(self@.over_or_same(other.value()))
    }
}

impl<T: Integer> core::ops::DivAssign<T> for MultiVec3<T> {
    fn div_assign(&mut self, other: T)
        requires
            other.value() != 0 ==> old(self)@.over(other.value()).fits::<T>(),
        ensures
            final(self)@ == old(self)@.over_or_same(other.value()),
    {
        if !other.is_zero() {
            self.r = self.r.over(other);
            self.x = self.x.over(other);
            self.y = self.y.over(other);
            self.z = self.z.over(other);
            self.xy = self.xy.over(other);
            self.xz = self.xz.over(other);
            self.yz = self.yz.over(other);
            self.xyz = self.xyz.over(other);
        }
    }
}

} // verus!
