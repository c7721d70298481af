//! Multivectors of four dimensions and their geometric product.

use vstd::prelude::*;
use crate::blade::{Blade, count};
use crate::scalar::{Integer, Signed, Zero, in_range, truncated};
use crate::text::{decimal, push_decimal, push_signed, signed, string_of};

verus! {

/// An element of the geometric algebra of Euclidean space of four
/// dimensions: one coefficient for each basis blade, the scalar first,
/// then the blades of each grade in the order of their generators.
#[derive(Copy, Debug)]
pub struct MultiVec4<T> {
    pub r: T,
    pub x: T,
    pub y: T,
    pub z: T,
    pub w: T,
    pub xy: T,
    pub xz: T,
    pub xw: T,
    pub yz: T,
    pub yw: T,
    pub zw: T,
    pub xyz: T,
    pub xyw: T,
    pub xzw: T,
    pub yzw: T,
    pub xyzw: T,
}

impl<T: Copy> Clone for MultiVec4<T> {
    fn clone(&self) -> (r: Self)
        ensures
            r == *self,
    {
        *self
    }
}

impl<T: Integer> View for MultiVec4<T> {
    type V = MultiVec4<int>;

    open spec fn view(&self) -> MultiVec4<int> {
        MultiVec4 {
            r: self.r.value(),
            x: self.x.value(),
            y: self.y.value(),
            z: self.z.value(),
            w: self.w.value(),
            xy: self.xy.value(),
            xz: self.xz.value(),
            xw: self.xw.value(),
            yz: self.yz.value(),
            yw: self.yw.value(),
            zw: self.zw.value(),
            xyz: self.xyz.value(),
            xyw: self.xyw.value(),
            xzw: self.xzw.value(),
            yzw: self.yzw.value(),
            xyzw: self.xyzw.value(),
        }
    }
}

impl MultiVec4<int> {
    /// Whether every component is a value of `T`.
    pub open spec fn fits<T: Integer>(self) -> bool {
        &&& in_range::<T>(self.r)
        &&& in_range::<T>(self.x)
        &&& in_range::<T>(self.y)
        &&& in_range::<T>(self.z)
        &&& in_range::<T>(self.w)
        &&& in_range::<T>(self.xy)
        &&& in_range::<T>(self.xz)
        &&& in_range::<T>(self.xw)
        &&& in_range::<T>(self.yz)
        &&& in_range::<T>(self.yw)
        &&& in_range::<T>(self.zw)
        &&& in_range::<T>(self.xyz)
        &&& in_range::<T>(self.xyw)
        &&& in_range::<T>(self.xzw)
        &&& in_range::<T>(self.yzw)
        &&& in_range::<T>(self.xyzw)
    }

    /// The multivector whose components are all zero.
    pub open spec fn zeros() -> MultiVec4<int> {
        MultiVec4 {
            r: 0,
            x: 0,
            y: 0,
            z: 0,
            w: 0,
            xy: 0,
            xz: 0,
            xw: 0,
            yz: 0,
            yw: 0,
            zw: 0,
            xyz: 0,
            xyw: 0,
            xzw: 0,
            yzw: 0,
            xyzw: 0,
        }
    }

    /// The component-wise sum.
    pub open spec fn plus(self, other: MultiVec4<int>) -> MultiVec4<int> {
        MultiVec4 {
            r: self.r + other.r,
            x: self.x + other.x,
            y: self.y + other.y,
            z: self.z + other.z,
            w: self.w + other.w,
            xy: self.xy + other.xy,
            xz: self.xz + other.xz,
            xw: self.xw + other.xw,
            yz: self.yz + other.yz,
            yw: self.yw + other.yw,
            zw: self.zw + other.zw,
            xyz: self.xyz + other.xyz,
            xyw: self.xyw + other.xyw,
            xzw: self.xzw + other.xzw,
            yzw: self.yzw + other.yzw,
            xyzw: self.xyzw + other.xyzw,
        }
    }

    /// The component-wise difference.
    pub open spec fn minus(self, other: MultiVec4<int>) -> MultiVec4<int> {
        MultiVec4 {
            r: self.r - other.r,
            x: self.x - other.x,
            y: self.y - other.y,
            z: self.z - other.z,
            w: self.w - other.w,
            xy: self.xy - other.xy,
            xz: self.xz - other.xz,
            xw: self.xw - other.xw,
            yz: self.yz - other.yz,
            yw: self.yw - other.yw,
            zw: self.zw - other.zw,
            xyz: self.xyz - other.xyz,
            xyw: self.xyw - other.xyw,
            xzw: self.xzw - other.xzw,
            yzw: self.yzw - other.yzw,
            xyzw: self.xyzw - other.xyzw,
        }
    }

    /// Every component negated.
    pub open spec fn negated(self) -> MultiVec4<int> {
        MultiVec4 {
            r: -self.r,
            x: -self.x,
            y: -self.y,
            z: -self.z,
            w: -self.w,
            xy: -self.xy,
            xz: -self.xz,
            xw: -self.xw,
            yz: -self.yz,
            yw: -self.yw,
            zw: -self.zw,
            xyz: -self.xyz,
            xyw: -self.xyw,
            xzw: -self.xzw,
            yzw: -self.yzw,
            xyzw: -self.xyzw,
        }
    }

    /// Every component multiplied by `s`.
    pub open spec fn scaled(self, s: int) -> MultiVec4<int> {
        MultiVec4 {
            r: self.r * s,
            x: self.x * s,
            y: self.y * s,
            z: self.z * s,
            w: self.w * s,
            xy: self.xy * s,
            xz: self.xz * s,
            xw: self.xw * s,
            yz: self.yz * s,
            yw: self.yw * s,
            zw: self.zw * s,
            xyz: self.xyz * s,
            xyw: self.xyw * s,
            xzw: self.xzw * s,
            yzw: self.yzw * s,
            xyzw: self.xyzw * s,
        }
    }

    /// Every component divided by `d`, rounding toward zero.
    pub open spec fn over(self, d: int) -> MultiVec4<int> {
        MultiVec4 {
            r: truncated(self.r, d),
            x: truncated(self.x, d),
            y: truncated(self.y, d),
            z: truncated(self.z, d),
            w: truncated(self.w, d),
            xy: truncated(self.xy, d),
            xz: truncated(self.xz, d),
            xw: truncated(self.xw, d),
            yz: truncated(self.yz, d),
            yw: truncated(self.yw, d),
            zw: truncated(self.zw, d),
            xyz: truncated(self.xyz, d),
            xyw: truncated(self.xyw, d),
            xzw: truncated(self.xzw, d),
            yzw: truncated(self.yzw, d),
            xyzw: truncated(self.xyzw, d),
        }
    }

    /// Division that leaves the multivector as it is when the divisor is zero.
    pub open spec fn over_or_same(self, d: int) -> MultiVec4<int> {
        if d == 0 {
            self
        } else {
            self.over(d)
        }
    }

    /// The multivector as text.
    pub open spec fn text(self) -> Seq<char> {
        decimal(self.r) + self.vectors_text() + self.bivectors_text() + self.trivectors_text()
            + signed(self.xyzw) + seq!['x', 'y', 'z', 'w']
    }

    /// The text of the vector part.
    pub open spec fn vectors_text(self) -> Seq<char> {
        signed(self.x) + seq!['x'] + signed(self.y) + seq!['y'] + signed(self.z) + seq!['z']
            + signed(self.w) + seq!['w']
    }

    /// The text of the bivector part.
    pub open spec fn bivectors_text(self) -> Seq<char> {
        signed(self.xy) + seq!['x', 'y'] + signed(self.xz) + seq!['x', 'z'] + signed(self.xw)
            + seq!['x', 'w'] + signed(self.yz) + seq!['y', 'z'] + signed(self.yw)
            + seq!['y', 'w'] + signed(self.zw) + seq!['z', 'w']
    }

    /// The text of the trivector part.
    pub open spec fn trivectors_text(self) -> Seq<char> {
        signed(self.xyz) + seq!['x', 'y', 'z'] + signed(self.xyw) + seq!['x', 'y', 'w']
            + signed(self.xzw) + seq!['x', 'z', 'w'] + signed(self.yzw) + seq!['y', 'z', 'w']
    }

    /// The coefficient of the basis blade `b`.
    pub open spec fn coefficient(self, b: Blade) -> int {
        match (b.x, b.y, b.z, b.w) {
            (false, false, false, false) => self.r,
            (true, false, false, false) => self.x,
            (false, true, false, false) => self.y,
            (false, false, true, false) => self.z,
            (false, false, false, true) => self.w,
            (true, true, false, false) => self.xy,
            (true, false, true, false) => self.xz,
            (true, false, false, true) => self.xw,
            (false, true, true, false) => self.yz,
            (false, true, false, true) => self.yw,
            (false, false, true, true) => self.zw,
            (true, true, true, false) => self.xyz,
            (true, true, false, true) => self.xyw,
            (true, false, true, true) => self.xzw,
            (false, true, true, true) => self.yzw,
            (true, true, true, true) => self.xyzw,
        }
    }

    /// The multivector that is one on the blade `b` and zero elsewhere.
    pub open spec fn basis(b: Blade) -> MultiVec4<int> {
        MultiVec4 {
            r: count(b == Blade::scalar()),
            x: count(b == Blade::x()),
            y: count(b == Blade::y()),
            z: count(b == Blade::z()),
            w: count(b == Blade::w()),
            xy: count(b == Blade::xy()),
            xz: count(b == Blade::xz()),
            xw: count(b == Blade::xw()),
            yz: count(b == Blade::yz()),
            yw: count(b == Blade::yw()),
            zw: count(b == Blade::zw()),
            xyz: count(b == Blade::xyz()),
            xyw: count(b == Blade::xyw()),
            xzw: count(b == Blade::xzw()),
            yzw: count(b == Blade::yzw()),
            xyzw: count(b == Blade::xyzw()),
        }
    }

    /// The multivector that is the scalar `s`.
    pub open spec fn scalar(s: int) -> MultiVec4<int> {
        MultiVec4 {
            r: s,
            x: 0,
            y: 0,
            z: 0,
            w: 0,
            xy: 0,
            xz: 0,
            xw: 0,
            yz: 0,
            yw: 0,
            zw: 0,
            xyz: 0,
            xyw: 0,
            xzw: 0,
            yzw: 0,
            xyzw: 0,
        }
    }

    /// What the blade `a` of `self` adds to the coefficient of the blade `c`
    /// of the geometric product with `other`. It meets there the one blade
    /// `b` of `other` whose product with `a` is a multiple of `c`, and adds
    /// the product of the two coefficients, negated where `a` times `b` is
    /// the negative of `c`.
    pub open spec fn term(self, other: MultiVec4<int>, a: Blade, c: Blade) -> int {
        let b = a.product(c);
        if a.flips(b) {
            -(self.coefficient(a) * other.coefficient(b))
        } else {
            self.coefficient(a) * other.coefficient(b)
        }
    }

    /// The coefficient of the blade `c` in the geometric product: the sum of
    /// the terms of all blades of `self`.
    pub open spec fn geometric_coefficient(self, other: MultiVec4<int>, c: Blade) -> int {
        self.term(other, Blade::scalar(), c)
            + self.term(other, Blade::x(), c)
            + self.term(other, Blade::y(), c)
            + self.term(other, Blade::z(), c)
            + self.term(other, Blade::w(), c)
            + self.term(other, Blade::xy(), c)
            + self.term(other, Blade::xz(), c)
            + self.term(other, Blade::xw(), c)
            + self.term(other, Blade::yz(), c)
            + self.term(other, Blade::yw(), c)
            + self.term(other, Blade::zw(), c)
            + self.term(other, Blade::xyz(), c)
            + self.term(other, Blade::xyw(), c)
            + self.term(other, Blade::xzw(), c)
            + self.term(other, Blade::yzw(), c)
            + self.term(other, Blade::xyzw(), c)
    }

    /// The geometric product.
    pub open spec fn geometric(self, other: MultiVec4<int>) -> MultiVec4<int> {
        MultiVec4 {
            r: self.geometric_coefficient(other, Blade::scalar()),
            x: self.geometric_coefficient(other, Blade::x()),
            y: self.geometric_coefficient(other, Blade::y()),
            z: self.geometric_coefficient(other, Blade::z()),
            w: self.geometric_coefficient(other, Blade::w()),
            xy: self.geometric_coefficient(other, Blade::xy()),
            xz: self.geometric_coefficient(other, Blade::xz()),
            xw: self.geometric_coefficient(other, Blade::xw()),
            yz: self.geometric_coefficient(other, Blade::yz()),
            yw: self.geometric_coefficient(other, Blade::yw()),
            zw: self.geometric_coefficient(other, Blade::zw()),
            xyz: self.geometric_coefficient(other, Blade::xyz()),
            xyw: self.geometric_coefficient(other, Blade::xyw()),
            xzw: self.geometric_coefficient(other, Blade::xzw()),
            yzw: self.geometric_coefficient(other, Blade::yzw()),
            xyzw: self.geometric_coefficient(other, Blade::xyzw()),
        }
    }

    /// Whether `T` holds the product of coefficients in the term of `a`.
    pub open spec fn term_fits<T: Integer>(
        self,
        other: MultiVec4<int>,
        a: Blade,
        c: Blade,
    ) -> bool {
        in_range::<T>(self.coefficient(a) * other.coefficient(a.product(c)))
    }

    /// Whether `T` holds what computing the coefficient of `c` passes
    /// through: the product in each term, and each sum of the first terms.
    pub open spec fn coefficient_fits<T: Integer>(self, other: MultiVec4<int>, c: Blade) -> bool {
        let t0 = self.term(other, Blade::scalar(), c);
        let t1 = self.term(other, Blade::x(), c);
        let t2 = self.term(other, Blade::y(), c);
        let t3 = self.term(other, Blade::z(), c);
        let t4 = self.term(other, Blade::w(), c);
        let t5 = self.term(other, Blade::xy(), c);
        let t6 = self.term(other, Blade::xz(), c);
        let t7 = self.term(other, Blade::xw(), c);
        let t8 = self.term(other, Blade::yz(), c);
        let t9 = self.term(other, Blade::yw(), c);
        let t10 = self.term(other, Blade::zw(), c);
        let t11 = self.term(other, Blade::xyz(), c);
        let t12 = self.term(other, Blade::xyw(), c);
        let t13 = self.term(other, Blade::xzw(), c);
        let t14 = self.term(other, Blade::yzw(), c);
        let t15 = self.term(other, Blade::xyzw(), c);
        &&& self.term_fits::<T>(other, Blade::scalar(), c)
        &&& self.term_fits::<T>(other, Blade::x(), c)
        &&& self.term_fits::<T>(other, Blade::y(), c)
        &&& self.term_fits::<T>(other, Blade::z(), c)
        &&& self.term_fits::<T>(other, Blade::w(), c)
        &&& self.term_fits::<T>(other, Blade::xy(), c)
        &&& self.term_fits::<T>(other, Blade::xz(), c)
        &&& self.term_fits::<T>(other, Blade::xw(), c)
        &&& self.term_fits::<T>(other, Blade::yz(), c)
        &&& self.term_fits::<T>(other, Blade::yw(), c)
        &&& self.term_fits::<T>(other, Blade::zw(), c)
        &&& self.term_fits::<T>(other, Blade::xyz(), c)
        &&& self.term_fits::<T>(other, Blade::xyw(), c)
        &&& self.term_fits::<T>(other, Blade::xzw(), c)
        &&& self.term_fits::<T>(other, Blade::yzw(), c)
        &&& self.term_fits::<T>(other, Blade::xyzw(), c)
        &&& in_range::<T>(t0 + t1)
        &&& in_range::<T>(t0 + t1 + t2)
        &&& in_range::<T>(t0 + t1 + t2 + t3)
        &&& in_range::<T>(t0 + t1 + t2 + t3 + t4)
        &&& in_range::<T>(t0 + t1 + t2 + t3 + t4 + t5)
        &&& in_range::<T>(t0 + t1 + t2 + t3 + t4 + t5 + t6)
        &&& in_range::<T>(t0 + t1 + t2 + t3 + t4 + t5 + t6 + t7)
        &&& in_range::<T>(t0 + t1 + t2 + t3 + t4 + t5 + t6 + t7 + t8)
        &&& in_range::<T>(t0 + t1 + t2 + t3 + t4 + t5 + t6 + t7 + t8 + t9)
        &&& in_range::<T>(t0 + t1 + t2 + t3 + t4 + t5 + t6 + t7 + t8 + t9 + t10)
        &&& in_range::<T>(t0 + t1 + t2 + t3 + t4 + t5 + t6 + t7 + t8 + t9 + t10 + t11)
        &&& in_range::<T>(t0 + t1 + t2 + t3 + t4 + t5 + t6 + t7 + t8 + t9 + t10 + t11 + t12)
        &&& in_range::<T>(t0 + t1 + t2 + t3 + t4 + t5 + t6 + t7 + t8 + t9 + t10 + t11 + t12 + t13)
        &&& in_range::<T>(
            t0 + t1 + t2 + t3 + t4 + t5 + t6 + t7 + t8 + t9 + t10 + t11 + t12 + t13 + t14,
        )
        &&& in_range::<T>(
            t0 + t1 + t2 + t3 + t4 + t5 + t6 + t7 + t8 + t9 + t10 + t11 + t12 + t13 + t14 + t15,
        )
    }

    /// Whether `T` holds what computing the geometric product passes through.
    pub open spec fn geometric_fits<T: Integer>(self, other: MultiVec4<int>) -> bool {
        &&& self.coefficient_fits::<T>(other, Blade::scalar())
        &&& self.coefficient_fits::<T>(other, Blade::x())
        &&& self.coefficient_fits::<T>(other, Blade::y())
        &&& self.coefficient_fits::<T>(other, Blade::z())
        &&& self.coefficient_fits::<T>(other, Blade::w())
        &&& self.coefficient_fits::<T>(other, Blade::xy())
        &&& self.coefficient_fits::<T>(other, Blade::xz())
        &&& self.coefficient_fits::<T>(other, Blade::xw())
        &&& self.coefficient_fits::<T>(other, Blade::yz())
        &&& self.coefficient_fits::<T>(other, Blade::yw())
        &&& self.coefficient_fits::<T>(other, Blade::zw())
        &&& self.coefficient_fits::<T>(other, Blade::xyz())
        &&& self.coefficient_fits::<T>(other, Blade::xyw())
        &&& self.coefficient_fits::<T>(other, Blade::xzw())
        &&& self.coefficient_fits::<T>(other, Blade::yzw())
        &&& self.coefficient_fits::<T>(other, Blade::xyzw())
    }

    /// Adding `b` and then subtracting it again gives `a` back.
    pub proof fn lemma_plus_minus(a: MultiVec4<int>, b: MultiVec4<int>)
        ensures
            a.plus(b).minus(b) == a,
    {
    }

    /// Scaling by one changes nothing.
    pub proof fn lemma_scaled_one(a: MultiVec4<int>)
        ensures
            a.scaled(1) == a,
    {
    }

    /// Scaling by zero gives zero.
    pub proof fn lemma_scaled_zero(a: MultiVec4<int>)
        ensures
            a.scaled(0) == MultiVec4::<int>::zeros(),
    {
    }

    /// The product of two basis blades is the blade of their product, with
    /// the sign of their product.
    #[verifier::rlimit(100)]
    pub proof fn lemma_basis_product(a: Blade, b: Blade)
        ensures
            ({
                let ea = MultiVec4::<int>::basis(a);
                let eb = MultiVec4::<int>::basis(b);
                ea.geometric(eb) == MultiVec4::<int>::basis(a.product(b)).scaled(a.sign(b))
            }),
    {
    }

    /// Every generator squares to one.
    pub proof fn lemma_generator_squares(g: Blade)
        requires
            g.is_generator(),
        ensures
            ({
                let eg = MultiVec4::<int>::basis(g);
                eg.geometric(eg) == MultiVec4::<int>::scalar(1)
            }),
    {
        MultiVec4::<int>::lemma_basis_product(g, g);
    }

    /// Two different generators anticommute.
    pub proof fn lemma_generators_anticommute(g: Blade, h: Blade)
        requires
            g.is_generator(),
            h.is_generator(),
            g != h,
        ensures
            ({
                let eg = MultiVec4::<int>::basis(g);
                let eh = MultiVec4::<int>::basis(h);
                eg.geometric(eh) == eh.geometric(eg).negated()
            }),
    {
        MultiVec4::<int>::lemma_basis_product(g, h);
        MultiVec4::<int>::lemma_basis_product(h, g);
    }

    /// The scalar one is the identity of the geometric product.
    pub proof fn lemma_one_is_identity(m: MultiVec4<int>)
        ensures
            MultiVec4::<int>::scalar(1).geometric(m) == m,
            m.geometric(MultiVec4::<int>::scalar(1)) == m,
    {
        broadcast use vstd::arithmetic::mul::group_mul_basics;
    }
}

impl<T> MultiVec4<T> {
    /// The multivector of the given coefficients.
    pub fn new(
        r: T,
        x: T,
        y: T,
        z: T,
        w: T,
        xy: T,
        xz: T,
        xw: T,
        yz: T,
        yw: T,
        zw: T,
        xyz: T,
        xyw: T,
        xzw: T,
        yzw: T,
        xyzw: T,
    ) -> (made: MultiVec4<T>)
        ensures
            made == (MultiVec4 {
                        r,
                        x,
                        y,
                        z,
                        w,
                        xy,
                        xz,
                        xw,
                        yz,
                        yw,
                        zw,
                        xyz,
                        xyw,
                        xzw,
                        yzw,
                        xyzw,
                    }),
    {
        MultiVec4 { r, x, y, z, w, xy, xz, xw, yz, yw, zw, xyz, xyw, xzw, yzw, xyzw }
    }
}

impl<T: Integer> MultiVec4<T> {
    /// The multivector of `T` whose view is `m`, where there is one.
    pub open spec fn with_view(m: MultiVec4<int>) -> MultiVec4<T> {
        choose|r: MultiVec4<T>| r@ == m
    }

    /// Equal views belong to equal values.
    pub proof fn lemma_view_injective(a: MultiVec4<T>, b: MultiVec4<T>)
        ensures
            a@ == b@ ==> a == b,
    {
        T::lemma_integer(a.r, b.r);
        T::lemma_integer(a.x, b.x);
        T::lemma_integer(a.y, b.y);
        T::lemma_integer(a.z, b.z);
        T::lemma_integer(a.w, b.w);
        T::lemma_integer(a.xy, b.xy);
        T::lemma_integer(a.xz, b.xz);
        T::lemma_integer(a.xw, b.xw);
        T::lemma_integer(a.yz, b.yz);
        T::lemma_integer(a.yw, b.yw);
        T::lemma_integer(a.zw, b.zw);
        T::lemma_integer(a.xyz, b.xyz);
        T::lemma_integer(a.xyw, b.xyw);
        T::lemma_integer(a.xzw, b.xzw);
        T::lemma_integer(a.yzw, b.yzw);
        T::lemma_integer(a.xyzw, b.xyzw);
    }

    /// A value is the one that has its view.
    pub proof fn lemma_with_view(self)
        ensures
            Self::with_view(self@) == self,
    {
        Self::lemma_view_injective(Self::with_view(self@), self);
    }

    /// Appends the text of the multivector to `out`.
    pub fn append_to(&self, out: &mut Vec<char>)
        ensures
            final(out)@ == old(out)@ + self@.text(),
    {
        push_decimal(out, self.r.widen());
        self.append_vectors(out);
        self.append_bivectors(out);
        self.append_trivectors(out);
        push_signed(out, self.xyzw.widen());
        out.push('x');
        out.push('y');
        out.push('z');
        out.push('w');
        assert(out@ =~= old(out)@ + self@.text());
    }

    /// The multivector as text.
    pub fn to_string(&self) -> (s: String)
        ensures
            s@ == self@.text(),
    {
        let mut out: Vec<char> = Vec::new();
        self.append_to(&mut out);
        assert(out@ =~= self@.text());
        string_of(&out)
    }

    /// The view of the zero multivector is all zeros.
    pub proof fn lemma_zero_view()
        ensures
            Self::zero_spec()@ == MultiVec4::<int>::zeros(),
    {
        T::lemma_integer(T::zero_spec(), T::zero_spec());
    }

    /// The product with the scalar written on the left, `s * self`.
    pub fn rmul(self, s: T) -> (r: MultiVec4<T>)
        requires
            self@.scaled(s.value()).fits::<T>(),
        ensures
            r@ == self@.scaled(s.value()),
    {
        self * s
    }

    /// Appends the text of the vector part to `out`.
    fn append_vectors(&self, out: &mut Vec<char>)
        ensures
            final(out)@ == old(out)@ + self@.vectors_text(),
    {
        push_signed(out, self.x.widen());
        out.push('x');
        push_signed(out, self.y.widen());
        out.push('y');
        push_signed(out, self.z.widen());
        out.push('z');
        push_signed(out, self.w.widen());
        out.push('w');
        assert(out@ =~= old(out)@ + self@.vectors_text());
    }

    /// Appends the text of the bivector part to `out`.
    fn append_bivectors(&self, out: &mut Vec<char>)
        ensures
            final(out)@ == old(out)@ + self@.bivectors_text(),
    {
        push_signed(out, self.xy.widen());
        let ghost mut done = signed(self@.xy);
        out.push('x');
        out.push('y');
        proof {
            done = done + seq!['x', 'y'];
            assert(out@ =~= old(out)@ + done);
        }
        push_signed(out, self.xz.widen());
        out.push('x');
        out.push('z');
        proof {
            done = done + signed(self@.xz) + seq!['x', 'z'];
            assert(out@ =~= old(out)@ + done);
        }
        push_signed(out, self.xw.widen());
        out.push('x');
        out.push('w');
        proof {
            done = done + signed(self@.xw) + seq!['x', 'w'];
            assert(out@ =~= old(out)@ + done);
        }
        push_signed(out, self.yz.widen());
        out.push('y');
        out.push('z');
        proof {
            done = done + signed(self@.yz) + seq!['y', 'z'];
            assert(out@ =~= old(out)@ + done);
        }
        push_signed(out, self.yw.widen());
        out.push('y');
        out.push('w');
        proof {
            done = done + signed(self@.yw) + seq!['y', 'w'];
            assert(out@ =~= old(out)@ + done);
        }
        push_signed(out, self.zw.widen());
        out.push('z');
        out.push('w');
        proof {
            done = done + signed(self@.zw) + seq!['z', 'w'];
            assert(out@ =~= old(out)@ + done);
        }
    }

    /// Appends the text of the trivector part to `out`.
    fn append_trivectors(&self, out: &mut Vec<char>)
        ensures
            final(out)@ == old(out)@ + self@.trivectors_text(),
    {
        push_signed(out, self.xyz.widen());
        out.push('x');
        out.push('y');
        out.push('z');
        push_signed(out, self.xyw.widen());
        out.push('x');
        out.push('y');
        out.push('w');
        push_signed(out, self.xzw.widen());
        out.push('x');
        out.push('z');
        out.push('w');
        push_signed(out, self.yzw.widen());
        out.push('y');
        out.push('z');
        out.push('w');
        assert(out@ =~= old(out)@ + self@.trivectors_text());
    }

    /// The scalar part of the geometric product of `self` and `other`.
    fn product_r(&self, other: &MultiVec4<T>) -> (r: T)
        requires
            self@.coefficient_fits::<T>(other@, Blade::scalar()),
        ensures
            r.value() == self@.geometric_coefficient(other@, Blade::scalar()),
    {
        self.r.times(other.r)
            .plus(self.x.times(other.x))
            .plus(self.y.times(other.y))
            .plus(self.z.times(other.z))
            .plus(self.w.times(other.w))
            .minus(self.xy.times(other.xy))
            .minus(self.xz.times(other.xz))
            .minus(self.xw.times(other.xw))
            .minus(self.yz.times(other.yz))
            .minus(self.yw.times(other.yw))
            .minus(self.zw.times(other.zw))
            .minus(self.xyz.times(other.xyz))
            .minus(self.xyw.times(other.xyw))
            .minus(self.xzw.times(other.xzw))
            .minus(self.yzw.times(other.yzw))
            .plus(self.xyzw.times(other.xyzw))
    }

    /// The coefficient of `x` of the geometric product of `self` and `other`.
    fn product_x(&self, other: &MultiVec4<T>) -> (r: T)
        requires
            self@.coefficient_fits::<T>(other@, Blade::x()),
        ensures
            r.value() == self@.geometric_coefficient(other@, Blade::x()),
    {
        self.r.times(other.x)
            .plus(self.x.times(other.r))
            .minus(self.y.times(other.xy))
            .minus(self.z.times(other.xz))
            .minus(self.w.times(other.xw))
            .plus(self.xy.times(other.y))
            .plus(self.xz.times(other.z))
            .plus(self.xw.times(other.w))
            .minus(self.yz.times(other.xyz))
            .minus(self.yw.times(other.xyw))
            .minus(self.zw.times(other.xzw))
            .minus(self.xyz.times(other.yz))
            .minus(self.xyw.times(other.yw))
            .minus(self.xzw.times(other.zw))
            .plus(self.yzw.times(other.xyzw))
            .minus(self.xyzw.times(other.yzw))
    }

    /// The coefficient of `y` of the geometric product of `self` and `other`.
    fn product_y(&self, other: &MultiVec4<T>) -> (r: T)
        requires
            self@.coefficient_fits::<T>(other@, Blade::y()),
        ensures
            r.value() == self@.geometric_coefficient(other@, Blade::y()),
    {
        self.r.times(other.y)
            .plus(self.x.times(other.xy))
            .plus(self.y.times(other.r))
            .minus(self.z.times(other.yz))
            .minus(self.w.times(other.yw))
            .minus(self.xy.times(other.x))
            .plus(self.xz.times(other.xyz))
            .plus(self.xw.times(other.xyw))
            .plus(self.yz.times(other.z))
            .plus(self.yw.times(other.w))
            .minus(self.zw.times(other.yzw))
            .plus(self.xyz.times(other.xz))
            .plus(self.xyw.times(other.xw))
            .minus(self.xzw.times(other.xyzw))
            .minus(self.yzw.times(other.zw))
            .plus(self.xyzw.times(other.xzw))
    }

    /// The coefficient of `z` of the geometric product of `self` and `other`.
    fn product_z(&self, other: &MultiVec4<T>) -> (r: T)
        requires
            self@.coefficient_fits::<T>(other@, Blade::z()),
        ensures
            r.value() == self@.geometric_coefficient(other@, Blade::z()),
    {
        self.r.times(other.z)
            .plus(self.x.times(other.xz))
            .plus(self.y.times(other.yz))
            .plus(self.z.times(other.r))
            .minus(self.w.times(other.zw))
            .minus(self.xy.times(other.xyz))
            .minus(self.xz.times(other.x))
            .plus(self.xw.times(other.xzw))
            .minus(self.yz.times(other.y))
            .plus(self.yw.times(other.yzw))
            .plus(self.zw.times(other.w))
            .minus(self.xyz.times(other.xy))
            .plus(self.xyw.times(other.xyzw))
            .plus(self.xzw.times(other.xw))
            .plus(self.yzw.times(other.yw))
            .minus(self.xyzw.times(other.xyw))
    }

    /// The coefficient of `w` of the geometric product of `self` and `other`.
    fn product_w(&self, other: &MultiVec4<T>) -> (r: T)
        requires
            self@.coefficient_fits::<T>(other@, Blade::w()),
        ensures
            r.value() == self@.geometric_coefficient(other@, Blade::w()),
    {
        self.r.times(other.w)
            .plus(self.x.times(other.xw))
            .plus(self.y.times(other.yw))
            .plus(self.z.times(other.zw))
            .plus(self.w.times(other.r))
            .minus(self.xy.times(other.xyw))
            .minus(self.xz.times(other.xzw))
            .minus(self.xw.times(other.x))
            .minus(self.yz.times(other.yzw))
            .minus(self.yw.times(other.y))
            .minus(self.zw.times(other.z))
            .minus(self.xyz.times(other.xyzw))
            .minus(self.xyw.times(other.xy))
            .minus(self.xzw.times(other.xz))
            .minus(self.yzw.times(other.yz))
            .plus(self.xyzw.times(other.xyz))
    }

    /// The coefficient of `xy` of the geometric product of `self` and `other`.
    fn product_xy(&self, other: &MultiVec4<T>) -> (r: T)
        requires
            self@.coefficient_fits::<T>(other@, Blade::xy()),
        ensures
            r.value() == self@.geometric_coefficient(other@, Blade::xy()),
    {
        self.r.times(other.xy)
            .plus(self.x.times(other.y))
            .minus(self.y.times(other.x))
            .plus(self.z.times(other.xyz))
            .plus(self.w.times(other.xyw))
            .plus(self.xy.times(other.r))
            .minus(self.xz.times(other.yz))
            .minus(self.xw.times(other.yw))
            .plus(self.yz.times(other.xz))
            .plus(self.yw.times(other.xw))
            .minus(self.zw.times(other.xyzw))
            .plus(self.xyz.times(other.z))
            .plus(self.xyw.times(other.w))
            .minus(self.xzw.times(other.yzw))
            .plus(self.yzw.times(other.xzw))
            .minus(self.xyzw.times(other.zw))
    }

    /// The coefficient of `xz` of the geometric product of `self` and `other`.
    fn product_xz(&self, other: &MultiVec4<T>) -> (r: T)
        requires
            self@.coefficient_fits::<T>(other@, Blade::xz()),
        ensures
            r.value() == self@.geometric_coefficient(other@, Blade::xz()),
    {
        self.r.times(other.xz)
            .plus(self.x.times(other.z))
            .minus(self.y.times(other.xyz))
            .minus(self.z.times(other.x))
            .plus(self.w.times(other.xzw))
            .plus(self.xy.times(other.yz))
            .plus(self.xz.times(other.r))
            .minus(self.xw.times(other.zw))
            .minus(self.yz.times(other.xy))
            .plus(self.yw.times(other.xyzw))
            .plus(self.zw.times(other.xw))
            .minus(self.xyz.times(other.y))
            .plus(self.xyw.times(other.yzw))
            .plus(self.xzw.times(other.w))
            .minus(self.yzw.times(other.xyw))
            .plus(self.xyzw.times(other.yw))
    }

    /// The coefficient of `xw` of the geometric product of `self` and `other`.
    fn product_xw(&self, other: &MultiVec4<T>) -> (r: T)
        requires
            self@.coefficient_fits::<T>(other@, Blade::xw()),
        ensures
            r.value() == self@.geometric_coefficient(other@, Blade::xw()),
    {
        self.r.times(other.xw)
            .plus(self.x.times(other.w))
            .minus(self.y.times(other.xyw))
            .minus(self.z.times(other.xzw))
            .minus(self.w.times(other.x))
            .plus(self.xy.times(other.yw))
            .plus(self.xz.times(other.zw))
            .plus(self.xw.times(other.r))
            .minus(self.yz.times(other.xyzw))
            .minus(self.yw.times(other.xy))
            .minus(self.zw.times(other.xz))
            .minus(self.xyz.times(other.yzw))
            .minus(self.xyw.times(other.y))
            .minus(self.xzw.times(other.z))
            .plus(self.yzw.times(other.xyz))
            .minus(self.xyzw.times(other.yz))
    }

    /// The coefficient of `yz` of the geometric product of `self` and `other`.
    fn product_yz(&self, other: &MultiVec4<T>) -> (r: T)
        requires
            self@.coefficient_fits::<T>(other@, Blade::yz()),
        ensures
            r.value() == self@.geometric_coefficient(other@, Blade::yz()),
    {
        self.r.times(other.yz)
            .plus(self.x.times(other.xyz))
            .plus(self.y.times(other.z))
            .minus(self.z.times(other.y))
            .plus(self.w.times(other.yzw))
            .minus(self.xy.times(other.xz))
            .plus(self.xz.times(other.xy))
            .minus(self.xw.times(other.xyzw))
            .plus(self.yz.times(other.r))
            .minus(self.yw.times(other.zw))
            .plus(self.zw.times(other.yw))
            .plus(self.xyz.times(other.x))
            .minus(self.xyw.times(other.xzw))
            .plus(self.xzw.times(other.xyw))
            .plus(self.yzw.times(other.w))
            .minus(self.xyzw.times(other.xw))
    }

    /// The coefficient of `yw` of the geometric product of `self` and `other`.
    fn product_yw(&self, other: &MultiVec4<T>) -> (r: T)
        requires
            self@.coefficient_fits::<T>(other@, Blade::yw()),
        ensures
            r.value() == self@.geometric_coefficient(other@, Blade::yw()),
    {
        self.r.times(other.yw)
            .plus(self.x.times(other.xyw))
            .plus(self.y.times(other.w))
            .minus(self.z.times(other.yzw))
            .minus(self.w.times(other.y))
            .minus(self.xy.times(other.xw))
            .plus(self.xz.times(other.xyzw))
            .plus(self.xw.times(other.xy))
            .plus(self.yz.times(other.zw))
            .plus(self.yw.times(other.r))
            .minus(self.zw.times(other.yz))
            .plus(self.xyz.times(other.xzw))
            .plus(self.xyw.times(other.x))
            .minus(self.xzw.times(other.xyz))
            .minus(self.yzw.times(other.z))
            .plus(self.xyzw.times(other.xz))
    }

    /// The coefficient of `zw` of the geometric product of `self` and `other`.
    fn product_zw(&self, other: &MultiVec4<T>) -> (r: T)
        requires
            self@.coefficient_fits::<T>(other@, Blade::zw()),
        ensures
            r.value() == self@.geometric_coefficient(other@, Blade::zw()),
    {
        self.r.times(other.zw)
            .plus(self.x.times(other.xzw))
            .plus(self.y.times(other.yzw))
            .plus(self.z.times(other.w))
            .minus(self.w.times(other.z))
            .minus(self.xy.times(other.xyzw))
            .minus(self.xz.times(other.xw))
            .plus(self.xw.times(other.xz))
            .minus(self.yz.times(other.yw))
            .plus(self.yw.times(other.yz))
            .plus(self.zw.times(other.r))
            .minus(self.xyz.times(other.xyw))
            .plus(self.xyw.times(other.xyz))
            .plus(self.xzw.times(other.x))
            .plus(self.yzw.times(other.y))
            .minus(self.xyzw.times(other.xy))
    }

    /// The coefficient of `xyz` of the geometric product of `self` and `other`.
    fn product_xyz(&self, other: &MultiVec4<T>) -> (r: T)
        requires
            self@.coefficient_fits::<T>(other@, Blade::xyz()),
        ensures
            r.value() == self@.geometric_coefficient(other@, Blade::xyz()),
    {
        self.r.times(other.xyz)
            .plus(self.x.times(other.yz))
            .minus(self.y.times(other.xz))
            .plus(self.z.times(other.xy))
            .minus(self.w.times(other.xyzw))
            .plus(self.xy.times(other.z))
            .minus(self.xz.times(other.y))
            .plus(self.xw.times(other.yzw))
            .plus(self.yz.times(other.x))
            .minus(self.yw.times(other.xzw))
            .plus(self.zw.times(other.xyw))
            .plus(self.xyz.times(other.r))
            .minus(self.xyw.times(other.zw))
            .plus(self.xzw.times(other.yw))
            .minus(self.yzw.times(other.xw))
            .plus(self.xyzw.times(other.w))
    }

    /// The coefficient of `xyw` of the geometric product of `self` and `other`.
    fn product_xyw(&self, other: &MultiVec4<T>) -> (r: T)
        requires
            self@.coefficient_fits::<T>(other@, Blade::xyw()),
        ensures
            r.value() == self@.geometric_coefficient(other@, Blade::xyw()),
    {
        self.r.times(other.xyw)
            .plus(self.x.times(other.yw))
            .minus(self.y.times(other.xw))
            .plus(self.z.times(other.xyzw))
            .plus(self.w.times(other.xy))
            .plus(self.xy.times(other.w))
            .minus(self.xz.times(other.yzw))
            .minus(self.xw.times(other.y))
            .plus(self.yz.times(other.xzw))
            .plus(self.yw.times(other.x))
            .minus(self.zw.times(other.xyz))
            .plus(self.xyz.times(other.zw))
            .plus(self.xyw.times(other.r))
            .minus(self.xzw.times(other.yz))
            .plus(self.yzw.times(other.xz))
            .minus(self.xyzw.times(other.z))
    }

    /// The coefficient of `xzw` of the geometric product of `self` and `other`.
    fn product_xzw(&self, other: &MultiVec4<T>) -> (r: T)
        requires
            self@.coefficient_fits::<T>(other@, Blade::xzw()),
        ensures
            r.value() == self@.geometric_coefficient(other@, Blade::xzw()),
    {
        self.r.times(other.xzw)
            .plus(self.x.times(other.zw))
            .minus(self.y.times(other.xyzw))
            .minus(self.z.times(other.xw))
            .plus(self.w.times(other.xz))
            .plus(self.xy.times(other.yzw))
            .plus(self.xz.times(other.w))
            .minus(self.xw.times(other.z))
            .minus(self.yz.times(other.xyw))
            .plus(self.yw.times(other.xyz))
            .plus(self.zw.times(other.x))
            .minus(self.xyz.times(other.yw))
            .plus(self.xyw.times(other.yz))
            .plus(self.xzw.times(other.r))
            .minus(self.yzw.times(other.xy))
            .plus(self.xyzw.times(other.y))
    }

    /// The coefficient of `yzw` of the geometric product of `self` and `other`.
    fn product_yzw(&self, other: &MultiVec4<T>) -> (r: T)
        requires
            self@.coefficient_fits::<T>(other@, Blade::yzw()),
        ensures
            r.value() == self@.geometric_coefficient(other@, Blade::yzw()),
    {
        self.r.times(other.yzw)
            .plus(self.x.times(other.xyzw))
            .plus(self.y.times(other.zw))
            .minus(self.z.times(other.yw))
            .plus(self.w.times(other.yz))
            .minus(self.xy.times(other.xzw))
            .plus(self.xz.times(other.xyw))
            .minus(self.xw.times(other.xyz))
            .plus(self.yz.times(other.w))
            .minus(self.yw.times(other.z))
            .plus(self.zw.times(other.y))
            .plus(self.xyz.times(other.xw))
            .minus(self.xyw.times(other.xz))
            .plus(self.xzw.times(other.xy))
            .plus(self.yzw.times(other.r))
            .minus(self.xyzw.times(other.x))
    }

    /// The coefficient of `xyzw` of the geometric product of `self` and `other`.
    fn product_xyzw(&self, other: &MultiVec4<T>) -> (r: T)
        requires
            self@.coefficient_fits::<T>(other@, Blade::xyzw()),
        ensures
            r.value() == self@.geometric_coefficient(other@, Blade::xyzw()),
    {
        self.r.times(other.xyzw)
            .plus(self.x.times(other.yzw))
            .minus(self.y.times(other.xzw))
            .plus(self.z.times(other.xyw))
            .minus(self.w.times(other.xyz))
            .plus(self.xy.times(other.zw))
            .minus(self.xz.times(other.yw))
            .plus(self.xw.times(other.yz))
            .plus(self.yz.times(other.xw))
            .minus(self.yw.times(other.xz))
            .plus(self.zw.times(other.xy))
            .plus(self.xyz.times(other.w))
            .minus(self.xyw.times(other.z))
            .plus(self.xzw.times(other.y))
            .minus(self.yzw.times(other.x))
            .plus(self.xyzw.times(other.r))
    }
}

impl<T: Integer> Zero for MultiVec4<T> {
    open spec fn zero_spec() -> MultiVec4<T> {
        MultiVec4 {
            r: T::zero_spec(),
            x: T::zero_spec(),
            y: T::zero_spec(),
            z: T::zero_spec(),
            w: T::zero_spec(),
            xy: T::zero_spec(),
            xz: T::zero_spec(),
            xw: T::zero_spec(),
            yz: T::zero_spec(),
            yw: T::zero_spec(),
            zw: T::zero_spec(),
            xyz: T::zero_spec(),
            xyw: T::zero_spec(),
            xzw: T::zero_spec(),
            yzw: T::zero_spec(),
            xyzw: T::zero_spec(),
        }
    }

    fn zero() -> (r: MultiVec4<T>) {
        MultiVec4 {
            r: T::zero(),
            x: T::zero(),
            y: T::zero(),
            z: T::zero(),
            w: T::zero(),
            xy: T::zero(),
            xz: T::zero(),
            xw: T::zero(),
            yz: T::zero(),
            yw: T::zero(),
            zw: T::zero(),
            xyz: T::zero(),
            xyw: T::zero(),
            xzw: T::zero(),
            yzw: T::zero(),
            xyzw: T::zero(),
        }
    }
}

impl<T: Integer> PartialEq for MultiVec4<T> {
    fn eq(&self, other: &MultiVec4<T>) -> (r: bool) {
        self.r.equals(other.r)
            && self.x.equals(other.x)
            && self.y.equals(other.y)
            && self.z.equals(other.z)
            && self.w.equals(other.w)
            && self.xy.equals(other.xy)
            && self.xz.equals(other.xz)
            && self.xw.equals(other.xw)
            && self.yz.equals(other.yz)
            && self.yw.equals(other.yw)
            && self.zw.equals(other.zw)
            && self.xyz.equals(other.xyz)
            && self.xyw.equals(other.xyw)
            && self.xzw.equals(other.xzw)
            && self.yzw.equals(other.yzw)
            && self.xyzw.equals(other.xyzw)
    }
}

impl<T: Integer> vstd::std_specs::cmp::PartialEqSpecImpl for MultiVec4<T> {
    open spec fn obeys_eq_spec() -> bool {
        true
    }

    open spec fn eq_spec(&self, other: &MultiVec4<T>) -> bool {
        self@ == other@
    }
}

impl<T: Integer> core::ops::Add for MultiVec4<T> {
    type Output = MultiVec4<T>;

    fn add(self, other: MultiVec4<T>) -> (r: MultiVec4<T>)
        ensures
            r@ == self@.plus(other@),
    {
        let r = MultiVec4 {
            r: self.r.plus(other.r),
            x: self.x.plus(other.x),
            y: self.y.plus(other.y),
            z: self.z.plus(other.z),
            w: self.w.plus(other.w),
            xy: self.xy.plus(other.xy),
            xz: self.xz.plus(other.xz),
            xw: self.xw.plus(other.xw),
            yz: self.yz.plus(other.yz),
            yw: self.yw.plus(other.yw),
            zw: self.zw.plus(other.zw),
            xyz: self.xyz.plus(other.xyz),
            xyw: self.xyw.plus(other.xyw),
            xzw: self.xzw.plus(other.xzw),
            yzw: self.yzw.plus(other.yzw),
            xyzw: self.xyzw.plus(other.xyzw),
        };
        proof {
            r.lemma_with_view();
        }
        r
    }
}

impl<T: Integer> vstd::std_specs::ops::AddSpecImpl for MultiVec4<T> {
    open spec fn obeys_add_spec() -> bool {
        true
    }

    open spec fn add_req(self, other: MultiVec4<T>) -> bool {
        self@.plus(other@).fits::<T>()
    }

    open spec fn add_spec(self, other: MultiVec4<T>) -> MultiVec4<T> {
        MultiVec4::with_view(self@.plus(other@))
    }
}

impl<T: Integer> core::ops::Sub for MultiVec4<T> {
    type Output = MultiVec4<T>;

    fn sub(self, other: MultiVec4<T>) -> (r: MultiVec4<T>)
        ensures
            r@ == self@.minus(other@),
    {
        let r = MultiVec4 {
            r: self.r.minus(other.r),
            x: self.x.minus(other.x),
            y: self.y.minus(other.y),
            z: self.z.minus(other.z),
            w: self.w.minus(other.w),
            xy: self.xy.minus(other.xy),
            xz: self.xz.minus(other.xz),
            xw: self.xw.minus(other.xw),
            yz: self.yz.minus(other.yz),
            yw: self.yw.minus(other.yw),
            zw: self.zw.minus(other.zw),
            xyz: self.xyz.minus(other.xyz),
            xyw: self.xyw.minus(other.xyw),
            xzw: self.xzw.minus(other.xzw),
            yzw: self.yzw.minus(other.yzw),
            xyzw: self.xyzw.minus(other.xyzw),
        };
        proof {
            r.lemma_with_view();
        }
        r
    }
}

impl<T: Integer> vstd::std_specs::ops::SubSpecImpl for MultiVec4<T> {
    open spec fn obeys_sub_spec() -> bool {
        true
    }

    open spec fn sub_req(self, other: MultiVec4<T>) -> bool {
        self@.minus(other@).fits::<T>()
    }

    open spec fn sub_spec(self, other: MultiVec4<T>) -> MultiVec4<T> {
        MultiVec4::with_view(self@.minus(other@))
    }
}

impl<T: Integer> core::ops::AddAssign for MultiVec4<T> {
    fn add_assign(&mut self, other: MultiVec4<T>)
        requires
            old(self)@.plus(other@).fits::<T>(),
        ensures
            final(self)@ == old(self)@.plus(other@),
    {
        self.r = self.r.plus(other.r);
        self.x = self.x.plus(other.x);
        self.y = self.y.plus(other.y);
        self.z = self.z.plus(other.z);
        self.w = self.w.plus(other.w);
        self.xy = self.xy.plus(other.xy);
        self.xz = self.xz.plus(other.xz);
        self.xw = self.xw.plus(other.xw);
        self.yz = self.yz.plus(other.yz);
        self.yw = self.yw.plus(other.yw);
        self.zw = self.zw.plus(other.zw);
        self.xyz = self.xyz.plus(other.xyz);
        self.xyw = self.xyw.plus(other.xyw);
        self.xzw = self.xzw.plus(other.xzw);
        self.yzw = self.yzw.plus(other.yzw);
        self.xyzw = self.xyzw.plus(other.xyzw);
    }
}

impl<T: Integer> core::ops::SubAssign for MultiVec4<T> {
    fn sub_assign(&mut self, other: MultiVec4<T>)
        requires
            old(self)@.minus(other@).fits::<T>(),
        ensures
            final(self)@ == old(self)@.minus(other@),
    {
        self.r = self.r.minus(other.r);
        self.x = self.x.minus(other.x);
        self.y = self.y.minus(other.y);
        self.z = self.z.minus(other.z);
        self.w = self.w.minus(other.w);
        self.xy = self.xy.minus(other.xy);
        self.xz = self.xz.minus(other.xz);
        self.xw = self.xw.minus(other.xw);
        self.yz = self.yz.minus(other.yz);
        self.yw = self.yw.minus(other.yw);
        self.zw = self.zw.minus(other.zw);
        self.xyz = self.xyz.minus(other.xyz);
        self.xyw = self.xyw.minus(other.xyw);
        self.xzw = self.xzw.minus(other.xzw);
        self.yzw = self.yzw.minus(other.yzw);
        self.xyzw = self.xyzw.minus(other.xyzw);
    }
}

impl<T: Signed> core::ops::Neg for MultiVec4<T> {
    type Output = MultiVec4<T>;

    fn neg(self) -> (r: MultiVec4<T>)
        ensures
            r@ == self@.negated(),
    {
        let r = MultiVec4 {
            r: self.r.negated(),
            x: self.x.negated(),
            y: self.y.negated(),
            z: self.z.negated(),
            w: self.w.negated(),
            xy: self.xy.negated(),
            xz: self.xz.negated(),
            xw: self.xw.negated(),
            yz: self.yz.negated(),
            yw: self.yw.negated(),
            zw: self.zw.negated(),
            xyz: self.xyz.negated(),
            xyw: self.xyw.negated(),
            xzw: self.xzw.negated(),
            yzw: self.yzw.negated(),
            xyzw: self.xyzw.negated(),
        };
        proof {
            r.lemma_with_view();
        }
        r
    }
}

impl<T: Signed> vstd::std_specs::ops::NegSpecImpl for MultiVec4<T> {
    open spec fn obeys_neg_spec() -> bool {
        true
    }

    open spec fn neg_req(self) -> bool {
        self@.negated().fits::<T>()
    }

    open spec fn neg_spec(self) -> MultiVec4<T> {
        MultiVec4::with_view(self@.negated())
    }
}

impl<T: Integer> core::ops::Mul<T> for MultiVec4<T> {
    type Output = MultiVec4<T>;

    fn mul(self, other: T) -> (r: MultiVec4<T>)
        ensures
            r@ == self@.scaled(other.value()),
    {
        let r = MultiVec4 {
            r: self.r.times(other),
            x: self.x.times(other),
            y: self.y.times(other),
            z: self.z.times(other),
            w: self.w.times(other),
            xy: self.xy.times(other),
            xz: self.xz.times(other),
            xw: self.xw.times(other),
            yz: self.yz.times(other),
            yw: self.yw.times(other),
            zw: self.zw.times(other),
            xyz: self.xyz.times(other),
            xyw: self.xyw.times(other),
            xzw: self.xzw.times(other),
            yzw: self.yzw.times(other),
            xyzw: self.xyzw.times(other),
        };
        proof {
            r.lemma_with_view();
        }
        r
    }
}

impl<T: Integer> vstd::std_specs::ops::MulSpecImpl<T> for MultiVec4<T> {
    open spec fn obeys_mul_spec() -> bool {
        true
    }

    open spec fn mul_req(self, other: T) -> bool {
        self@.scaled(other.value()).fits::<T>()
    }

    open spec fn mul_spec(self, other: T) -> MultiVec4<T> {
        MultiVec4::with_view(self@.scaled(other.value()))
    }
}

impl<T: Integer> core::ops::MulAssign<T> for MultiVec4<T> {
    fn mul_assign(&mut self, other: T)
        requires
            old(self)@.scaled(other.value()).fits::<T>(),
        ensures
            final(self)@ == old(self)@.scaled(other.value()),
    {
        self.r = self.r.times(other);
        self.x = self.x.times(other);
        self.y = self.y.times(other);
        self.z = self.z.times(other);
        self.w = self.w.times(other);
        self.xy = self.xy.times(other);
        self.xz = self.xz.times(other);
        self.xw = self.xw.times(other);
        self.yz = self.yz.times(other);
        self.yw = self.yw.times(other);
        self.zw = self.zw.times(other);
        self.xyz = self.xyz.times(other);
        self.xyw = self.xyw.times(other);
        self.xzw = self.xzw.times(other);
        self.yzw = self.yzw.times(other);
        self.xyzw = self.xyzw.times(other);
    }
}

impl<T: Integer> core::ops::Mul<MultiVec4<T>> for MultiVec4<T> {
    type Output = MultiVec4<T>;

    fn mul(self, other: MultiVec4<T>) -> (r: MultiVec4<T>)
        ensures
            r@ == self@.geometric(other@),
    {
        let r = MultiVec4 {
            r: self.product_r(&other),
            x: self.product_x(&other),
            y: self.product_y(&other),
            z: self.product_z(&other),
            w: self.product_w(&other),
            xy: self.product_xy(&other),
            xz: self.product_xz(&other),
            xw: self.product_xw(&other),
            yz: self.product_yz(&other),
            yw: self.product_yw(&other),
            zw: self.product_zw(&other),
            xyz: self.product_xyz(&other),
            xyw: self.product_xyw(&other),
            xzw: self.product_xzw(&other),
            yzw: self.product_yzw(&other),
            xyzw: self.product_xyzw(&other),
        };
        proof {
            r.lemma_with_view();
        }
        r
    }
}

impl<T: Integer> vstd::std_specs::ops::MulSpecImpl<MultiVec4<T>> for MultiVec4<T> {
    open spec fn obeys_mul_spec() -> bool {
        true
    }

    open spec fn mul_req(self, other: MultiVec4<T>) -> bool {
        self@.geometric_fits::<T>(other@)
    }

    open spec fn mul_spec(self, other: MultiVec4<T>) -> MultiVec4<T> {
        MultiVec4::with_view(self@.geometric(other@))
    }
}

impl<T: Integer> core::ops::MulAssign<MultiVec4<T>> for MultiVec4<T> {
    fn mul_assign(&mut self, other: MultiVec4<T>)
        requires
            old(self)@.geometric_fits::<T>(other@),
        ensures
            final(self)@ == old(self)@.geometric(other@),
    {
        *self = MultiVec4 {
                    r: self.product_r(&other),
                    x: self.product_x(&other),
                    y: self.product_y(&other),
                    z: self.product_z(&other),
                    w: self.product_w(&other),
                    xy: self.product_xy(&other),
                    xz: self.product_xz(&other),
                    xw: self.product_xw(&other),
                    yz: self.product_yz(&other),
                    yw: self.product_yw(&other),
                    zw: self.product_zw(&other),
                    xyz: self.product_xyz(&other),
                    xyw: self.product_xyw(&other),
                    xzw: self.product_xzw(&other),
                    yzw: self.product_yzw(&other),
                    xyzw: self.product_xyzw(&other),
                };
    }
}

/// Division by a scalar, rounding toward zero. A divisor of zero leaves the
/// multivector as it is.
impl<T: Integer> core::ops::Div<T> for MultiVec4<T> {
    type Output = MultiVec4<T>;

    fn div(self, other: T) -> (r: MultiVec4<T>)
        ensures
            r@ == self@.over_or_same(other.value()),
    {
        if !other.is_zero() {
            let r = MultiVec4 {
                r: self.r.over(other),
                x: self.x.over(other),
                y: self.y.over(other),
                z: self.z.over(other),
                w: self.w.over(other),
                xy: self.xy.over(other),
                xz: self.xz.over(other),
                xw: self.xw.over(other),
                yz: self.yz.over(other),
                yw: self.yw.over(other),
                zw: self.zw.over(other),
                xyz: self.xyz.over(other),
                xyw: self.xyw.over(other),
                xzw: self.xzw.over(other),
                yzw: self.yzw.over(other),
                xyzw: self.xyzw.over(other),
            };
            proof {
                r.lemma_with_view();
            }
            r
        } else {
            proof {
                self.lemma_with_view();
            }
            self
        }
    }
}

impl<T: Integer> vstd::std_specs::ops::DivSpecImpl<T> for MultiVec4<T> {
    open spec fn obeys_div_spec() -> bool {
        true
    }

    open spec fn div_req(self, other: T) -> bool {
        other.value() != 0 ==> self@.over(other.value()).fits::<T>()
    }

    open spec fn div_spec(self, other: T) -> MultiVec4<T> {
        MultiVec4::with_view(self@.over_or_same(other.value()))
    }
}

impl<T: Integer> core::ops::DivAssign<T> for MultiVec4<T> {
    fn div_assign(&mut self, other: T)
        requires
            other.value() != 0 ==> old(self)@.over(other.value()).fits::<T>(),
        ensures
            final(self)@ == old(self)@.over_or_same(other.value()),
    {
        if !other.is_zero() {
            self.r = self.r.over(other);
            self.x = self.x.over(other);
            self.y = self.y.over(other);
            self.z = self.z.over(other);
            self.w = self.w.over(other);
            self.xy = self.xy.over(other);
            self.xz = self.xz.over(other);
            self.xw = self.xw.over(other);
            self.yz = self.yz.over(other);
            self.yw = self.yw.over(other);
            self.zw = self.zw.over(other);
            self.xyz = self.xyz.over(other);
            self.xyw = self.xyw.over(other);
            self.xzw = self.xzw.over(other);
            self.yzw = self.yzw.over(other);
            self.xyzw = self.xyzw.over(other);
        }
    }
}

} // verus!
