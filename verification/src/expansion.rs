//! The sums of products from which determinants and cofactors are built, each
//! with the condition under which a scalar type holds every step of it.

use vstd::prelude::*;
use crate::scalar::{Integer, in_range};

verus! {

/// The determinant of the rows `(p, r)` and `(s, q)`: `p * q - r * s`.
pub open spec fn minor2(p: int, q: int, r: int, s: int) -> int {
    p * q - r * s
}

/// Whether `T` holds both products and the difference of `minor2`.
pub open spec fn minor2_fits<T: Integer>(p: int, q: int, r: int, s: int) -> bool {
    &&& in_range::<T>(p * q)
    &&& in_range::<T>(r * s)
    &&& in_range::<T>(p * q - r * s)
}

/// The sum `x * a + y * b + z * c`.
pub open spec fn sum3(x: int, a: int, y: int, b: int, z: int, c: int) -> int {
    x * a + y * b + z * c
}

/// Whether `T` holds the products and the partial sums of `sum3`, taken
/// from left to right.
pub open spec fn sum3_fits<T: Integer>(x: int, a: int, y: int, b: int, z: int, c: int) -> bool {
    &&& in_range::<T>(x * a)
    &&& in_range::<T>(y * b)
    &&& in_range::<T>(x * a + y * b)
    &&& in_range::<T>(z * c)
    &&& in_range::<T>(x * a + y * b + z * c)
}

/// The alternating sum `x * a - y * b + z * c`.
pub open spec fn expand3(x: int, a: int, y: int, b: int, z: int, c: int) -> int {
    x * a - y * b + z * c
}

/// Whether `T` holds the products and the partial sums of `expand3`, taken
/// from left to right.
pub open spec fn expand3_fits<T: Integer>(x: int, a: int, y: int, b: int, z: int, c: int) -> bool {
    &&& in_range::<T>(x * a)
    &&& in_range::<T>(y * b)
    &&& in_range::<T>(x * a - y * b)
    &&& in_range::<T>(z * c)
    &&& in_range::<T>(x * a - y * b + z * c)
}

/// The alternating sum `x * a - y * b + z * c - w * d`.
pub open spec fn expand4(
    x: int,
    a: int,
    y: int,
    b: int,
    z: int,
    c: int,
    w: int,
    d: int,
) -> int {
    x * a - y * b + z * c - w * d
}

/// Whether `T` holds the products and the partial sums of `expand4`, taken
/// from left to right.
pub open spec fn expand4_fits<T: Integer>(
    x: int,
    a: int,
    y: int,
    b: int,
    z: int,
    c: int,
    w: int,
    d: int,
) -> bool {
    &&& expand3_fits::<T>(x, a, y, b, z, c)
    &&& in_range::<T>(w * d)
    &&& in_range::<T>(x * a - y * b + z * c - w * d)
}

/// Computes `p * q - r * s`.
pub fn minor2_of<T: Integer>(p: T, q: T, r: T, s: T) -> (m: T)
    requires
        minor2_fits::<T>(p.value(), q.value(), r.value(), s.value()),
    ensures
        m.value() == minor2(p.value(), q.value(), r.value(), s.value()),
{
    p.times(q).minus(r.times(s))
}

/// Computes `x * a + y * b + z * c`.
pub fn sum3_of<T: Integer>(x: T, a: T, y: T, b: T, z: T, c: T) -> (m: T)
    requires
        sum3_fits::<T>(x.value(), a.value(), y.value(), b.value(), z.value(), c.value()),
    ensures
        m.value() == sum3(x.value(), a.value(), y.value(), b.value(), z.value(), c.value()),
{
    x.times(a).plus(y.times(b)).plus(z.times(c))
}

/// Computes `x * a - y * b + z * c`.
pub fn expand3_of<T: Integer>(x: T, a: T, y: T, b: T, z: T, c: T) -> (m: T)
    requires
        expand3_fits::<T>(x.value(), a.value(), y.value(), b.value(), z.value(), c.value()),
    ensures
        m.value() == expand3(x.value(), a.value(), y.value(), b.value(), z.value(), c.value()),
{
    x.times(a).minus(y.times(b)).plus(z.times(c))
}

/// Computes `x * a - y * b + z * c - w * d`.
pub fn expand4_of<T: Integer>(x: T, a: T, y: T, b: T, z: T, c: T, w: T, d: T) -> (m: T)
    requires
        expand4_fits::<T>(
            x.value(),
            a.value(),
            y.value(),
            b.value(),
            z.value(),
            c.value(),
            w.value(),
            d.value(),
        ),
    ensures
        m.value() == expand4(
            x.value(),
            a.value(),
            y.value(),
            b.value(),
            z.value(),
            c.value(),
            w.value(),
            d.value(),
        ),
{
    x.times(a).minus(y.times(b)).plus(z.times(c)).minus(w.times(d))
}

/// A common nonzero factor can be taken out of an equation.
pub proof fn lemma_cancel(p: int, q: int, n: int)
    by (nonlinear_arith)
    requires
        n != 0,
        p * n == q * n,
    ensures
        p == q,
{
}

/// Scaling the right factor of every product of `sum3` scales the sum.
pub proof fn lemma_sum3_scaled(x: int, a: int, y: int, b: int, z: int, c: int, n: int)
    ensures
        x * (a * n) + y * (b * n) + z * (c * n) == (x * a + y * b + z * c) * n,
{
    assert(x * (a * n) == (x * a) * n) by (nonlinear_arith);
    assert(y * (b * n) == (y * b) * n) by (nonlinear_arith);
    assert(z * (c * n) == (z * c) * n) by (nonlinear_arith);
    let p = x * a;
    let q = y * b;
    let r = z * c;
    assert((p + q + r) * n == p * n + q * n + r * n) by (nonlinear_arith);
}

/// A square is not negative.
pub proof fn lemma_square(x: int)
    by (nonlinear_arith)
    ensures
        x * x >= 0,
{
}

/// A product of three factors does not depend on their order.
pub proof fn lemma_product3(a: int, b: int, c: int)
    by (nonlinear_arith)
    ensures
        a * (b * c) == a * (c * b),
        a * (b * c) == b * (a * c),
        a * (b * c) == b * (c * a),
        a * (b * c) == c * (a * b),
        a * (b * c) == c * (b * a),
{
}

/// A factor times a difference of two products is the difference of the
/// two products of three factors.
pub proof fn lemma_times_minor2(a: int, p: int, q: int, r: int, s: int)
    by (nonlinear_arith)
    ensures
        a * (p * q - r * s) == a * (p * q) - a * (r * s),
{
}

/// A product of four factors does not depend on their order.
pub proof fn lemma_product4(a: int, b: int, c: int, d: int)
    ensures
        a * (b * (c * d)) == a * (b * (d * c)),
        a * (b * (c * d)) == a * (c * (b * d)),
        a * (b * (c * d)) == a * (c * (d * b)),
        a * (b * (c * d)) == a * (d * (b * c)),
        a * (b * (c * d)) == a * (d * (c * b)),
        a * (b * (c * d)) == b * (a * (c * d)),
        a * (b * (c * d)) == b * (a * (d * c)),
        a * (b * (c * d)) == b * (c * (a * d)),
        a * (b * (c * d)) == b * (c * (d * a)),
        a * (b * (c * d)) == b * (d * (a * c)),
        a * (b * (c * d)) == b * (d * (c * a)),
        a * (b * (c * d)) == c * (a * (b * d)),
        a * (b * (c * d)) == c * (a * (d * b)),
        a * (b * (c * d)) == c * (b * (a * d)),
        a * (b * (c * d)) == c * (b * (d * a)),
        a * (b * (c * d)) == c * (d * (a * b)),
        a * (b * (c * d)) == c * (d * (b * a)),
        a * (b * (c * d)) == d * (a * (b * c)),
        a * (b * (c * d)) == d * (a * (c * b)),
        a * (b * (c * d)) == d * (b * (a * c)),
        a * (b * (c * d)) == d * (b * (c * a)),
        a * (b * (c * d)) == d * (c * (a * b)),
        a * (b * (c * d)) == d * (c * (b * a)),
{
    lemma_product3(b, c, d);
    lemma_product3(a, c, d);
    lemma_product3(a, b, d);
    lemma_product3(a, b, c);
    lemma_swap_outer(a, b, c * d);
    lemma_swap_outer(a, b, d * c);
    lemma_swap_outer(a, c, b * d);
    lemma_swap_outer(a, c, d * b);
    lemma_swap_outer(a, d, b * c);
    lemma_swap_outer(a, d, c * b);
    lemma_swap_outer(b, c, a * d);
    lemma_swap_outer(b, c, d * a);
    lemma_swap_outer(b, d, a * c);
    lemma_swap_outer(b, d, c * a);
    lemma_swap_outer(c, d, a * b);
    lemma_swap_outer(c, d, b * a);
}

/// The two outer factors of a product of three can change places.
pub proof fn lemma_swap_outer(a: int, b: int, m: int)
    by (nonlinear_arith)
    ensures
        a * (b * m) == b * (a * m),
{
}

/// A factor times a sum of three products, each of a factor and a difference
/// of two products, is the sum of the products of four factors, and the
/// same for the negated sum.
pub proof fn lemma_times_minors(
    e: int,
    fa: int,
    pa: int,
    qa: int,
    ra: int,
    sa: int,
    fb: int,
    pb: int,
    qb: int,
    rb: int,
    sb: int,
    fc: int,
    pc: int,
    qc: int,
    rc: int,
    sc: int,
)
    ensures
        ({
            let sum = fa * (pa * qa - ra * sa) + fb * (pb * qb - rb * sb) + fc * (pc * qc - rc * sc);
            let expanded = e * (fa * (pa * qa)) - e * (fa * (ra * sa)) + e * (fb * (pb * qb)) - e * (
                fb * (rb * sb)) + e * (fc * (pc * qc)) - e * (fc * (rc * sc));
            &&& e * sum == expanded
            &&& e * (-sum) == -expanded
        }),
{
    lemma_times_minor2(fa, pa, qa, ra, sa);
    lemma_times_minor2(fb, pb, qb, rb, sb);
    lemma_times_minor2(fc, pc, qc, rc, sc);
    let ua = fa * (pa * qa);
    let va = fa * (ra * sa);
    let ub = fb * (pb * qb);
    let vb = fb * (rb * sb);
    let uc = fc * (pc * qc);
    let vc = fc * (rc * sc);
    let sum = ua - va + (ub - vb) + (uc - vc);
    let expanded = e * ua - e * va + e * ub - e * vb + e * uc - e * vc;
    assert(e * sum == expanded) by (nonlinear_arith)
        requires
            sum == ua - va + (ub - vb) + (uc - vc),
            expanded == e * ua - e * va + e * ub - e * vb + e * uc - e * vc,
    ;
    assert(e * (-sum) == -(e * sum)) by (nonlinear_arith);
}

/// A product of three factors can be bracketed either way.
pub proof fn lemma_product_assoc(a: int, b: int, c: int)
    by (nonlinear_arith)
    ensures
        (a * b) * c == a * (b * c),
{
}

/// A sum of two terms times a factor is the sum of the products.
pub proof fn lemma_sum2_times(p: int, q: int, v: int)
    by (nonlinear_arith)
    ensures
        (p + q) * v == p * v + q * v,
{
}

/// A factor times a sum of two terms is the sum of the products.
pub proof fn lemma_times_sum2(a: int, x: int, y: int)
    by (nonlinear_arith)
    ensures
        a * (x + y) == a * x + a * y,
{
}

/// A sum of three terms times a factor is the sum of the products.
pub proof fn lemma_sum3_times(p: int, q: int, r: int, v: int)
    ensures
        (p + q + r) * v == p * v + q * v + r * v,
{
    lemma_sum2_times(p + q, r, v);
    lemma_sum2_times(p, q, v);
}

/// A factor times a sum of three terms is the sum of the products.
pub proof fn lemma_times_sum3(a: int, x: int, y: int, z: int)
    ensures
        a * (x + y + z) == a * x + a * y + a * z,
{
    lemma_times_sum2(a, x + y, z);
    lemma_times_sum2(a, x, y);
}

/// A sum of four terms times a factor is the sum of the products.
pub proof fn lemma_sum4_times(p: int, q: int, r: int, s: int, v: int)
    ensures
        (p + q + r + s) * v == p * v + q * v + r * v + s * v,
{
    lemma_sum2_times(p + q + r, s, v);
    lemma_sum3_times(p, q, r, v);
}

/// A factor times a sum of four terms is the sum of the products.
pub proof fn lemma_times_sum4(a: int, x: int, y: int, z: int, w: int)
    ensures
        a * (x + y + z + w) == a * x + a * y + a * z + a * w,
{
    lemma_times_sum2(a, x + y + z, w);
    lemma_times_sum3(a, x, y, z);
}

/// Two divided by a positive integer is zero, one or two.
pub proof fn lemma_two_over(n: int)
    by (nonlinear_arith)
    requires
        n != 0,
    ensures
        n > 0 ==> 0 <= 2int / n <= 2,
        n < 0 ==> -2 <= 2int / n <= 0,
{
}

} // verus!
