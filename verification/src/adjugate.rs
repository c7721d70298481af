//! The adjugate of a matrix of four rows: that the matrix times its adjugate
//! is the determinant times the identity matrix, and when the inverse is
//! exact.

use vstd::prelude::*;
use crate::expansion::{lemma_cancel, lemma_product4, lemma_times_minors};
use crate::mat4x4::Mat4x4;
use crate::scalar::lemma_truncated_product;
use crate::vector::XYZW;

verus! {

impl Mat4x4<int> {
    /// The first row times the first column of the adjugate is the
    /// determinant.
    proof fn lemma_row_0_column_0(s: Mat4x4<int>)
        ensures
            s.entry(0, 0) * s.cofactor(0, 0) + s.entry(0, 1) * s.cofactor(0, 1) + s.entry(0, 2)
                * s.cofactor(0, 2) + s.entry(0, 3) * s.cofactor(0, 3) == s.det(),
    {
        let a = s.x.x;
        let b = s.y.x;
        let c = s.z.x;
        let d = s.w.x;
        let e = s.x.y;
        let f = s.y.y;
        let g = s.z.y;
        let h = s.w.y;
        let i = s.x.z;
        let j = s.y.z;
        let k = s.z.z;
        let l = s.w.z;
        let m = s.x.w;
        let n = s.y.w;
        let o = s.z.w;
        let p = s.w.w;
        lemma_times_minors(a, f, k, p, o, l, j, o, h, g, p, n, g, l, k, h);
        lemma_product4(a, f, k, p);
        lemma_product4(a, f, o, l);
        lemma_product4(a, j, o, h);
        lemma_product4(a, j, g, p);
        lemma_product4(a, n, g, l);
        lemma_product4(a, n, k, h);
        lemma_times_minors(b, e, k, p, o, l, i, o, h, g, p, m, g, l, k, h);
        lemma_product4(b, e, k, p);
        lemma_product4(b, e, o, l);
        lemma_product4(b, i, o, h);
        lemma_product4(b, i, g, p);
        lemma_product4(b, m, g, l);
        lemma_product4(b, m, k, h);
        lemma_times_minors(c, e, j, p, n, l, i, n, h, f, p, m, f, l, j, h);
        lemma_product4(c, e, j, p);
        lemma_product4(c, e, n, l);
        lemma_product4(c, i, n, h);
        lemma_product4(c, i, f, p);
        lemma_product4(c, m, f, l);
        lemma_product4(c, m, j, h);
        lemma_times_minors(d, e, j, o, n, k, i, n, g, f, o, m, f, k, j, g);
        lemma_product4(d, e, j, o);
        lemma_product4(d, e, n, k);
        lemma_product4(d, i, n, g);
        lemma_product4(d, i, f, o);
        lemma_product4(d, m, f, k);
        lemma_product4(d, m, j, g);
    }

    /// The second row times the first column of the adjugate is zero.
    proof fn lemma_row_1_column_0(s: Mat4x4<int>)
        ensures
            s.entry(1, 0) * s.cofactor(0, 0) + s.entry(1, 1) * s.cofactor(0, 1) + s.entry(1, 2)
                * s.cofactor(0, 2) + s.entry(1, 3) * s.cofactor(0, 3) == 0,
    {
        let e = s.x.y;
        let f = s.y.y;
        let g = s.z.y;
        let h = s.w.y;
        let i = s.x.z;
        let j = s.y.z;
        let k = s.z.z;
        let l = s.w.z;
        let m = s.x.w;
        let n = s.y.w;
        let o = s.z.w;
        let p = s.w.w;
        lemma_times_minors(e, f, k, p, o, l, j, o, h, g, p, n, g, l, k, h);
        lemma_product4(e, f, k, p);
        lemma_product4(e, f, o, l);
        lemma_product4(e, j, o, h);
        lemma_product4(e, j, g, p);
        lemma_product4(e, n, g, l);
        lemma_product4(e, n, k, h);
        lemma_times_minors(f, e, k, p, o, l, i, o, h, g, p, m, g, l, k, h);
        lemma_product4(f, e, k, p);
        lemma_product4(f, e, o, l);
        lemma_product4(f, i, o, h);
        lemma_product4(f, i, g, p);
        lemma_product4(f, m, g, l);
        lemma_product4(f, m, k, h);
        lemma_times_minors(g, e, j, p, n, l, i, n, h, f, p, m, f, l, j, h);
        lemma_product4(g, e, j, p);
        lemma_product4(g, e, n, l);
        lemma_product4(g, i, n, h);
        lemma_product4(g, i, f, p);
        lemma_product4(g, m, f, l);
        lemma_product4(g, m, j, h);
        lemma_times_minors(h, e, j, o, n, k, i, n, g, f, o, m, f, k, j, g);
        lemma_product4(h, e, j, o);
        lemma_product4(h, e, n, k);
        lemma_product4(h, i, n, g);
        lemma_product4(h, i, f, o);
        lemma_product4(h, m, f, k);
        lemma_product4(h, m, j, g);
    }

    /// The third row times the first column of the adjugate is zero.
    proof fn lemma_row_2_column_0(s: Mat4x4<int>)
        ensures
            s.entry(2, 0) * s.cofactor(0, 0) + s.entry(2, 1) * s.cofactor(0, 1) + s.entry(2, 2)
                * s.cofactor(0, 2) + s.entry(2, 3) * s.cofactor(0, 3) == 0,
    {
        let e = s.x.y;
        let f = s.y.y;
        let g = s.z.y;
        let h = s.w.y;
        let i = s.x.z;
        let j = s.y.z;
        let k = s.z.z;
        let l = s.w.z;
        let m = s.x.w;
        let n = s.y.w;
        let o = s.z.w;
        let p = s.w.w;
        lemma_times_minors(i, f, k, p, o, l, j, o, h, g, p, n, g, l, k, h);
        lemma_product4(i, f, k, p);
        lemma_product4(i, f, o, l);
        lemma_product4(i, j, o, h);
        lemma_product4(i, j, g, p);
        lemma_product4(i, n, g, l);
        lemma_product4(i, n, k, h);
        lemma_times_minors(j, e, k, p, o, l, i, o, h, g, p, m, g, l, k, h);
        lemma_product4(j, e, k, p);
        lemma_product4(j, e, o, l);
        lemma_product4(j, i, o, h);
        lemma_product4(j, i, g, p);
        lemma_product4(j, m, g, l);
        lemma_product4(j, m, k, h);
        lemma_times_minors(k, e, j, p, n, l, i, n, h, f, p, m, f, l, j, h);
        lemma_product4(k, e, j, p);
        lemma_product4(k, e, n, l);
        lemma_product4(k, i, n, h);
        lemma_product4(k, i, f, p);
        lemma_product4(k, m, f, l);
        lemma_product4(k, m, j, h);
        lemma_times_minors(l, e, j, o, n, k, i, n, g, f, o, m, f, k, j, g);
        lemma_product4(l, e, j, o);
        lemma_product4(l, e, n, k);
        lemma_product4(l, i, n, g);
        lemma_product4(l, i, f, o);
        lemma_product4(l, m, f, k);
        lemma_product4(l, m, j, g);
    }

    /// The fourth row times the first column of the adjugate is zero.
    proof fn lemma_row_3_column_0(s: Mat4x4<int>)
        ensures
            s.entry(3, 0) * s.cofactor(0, 0) + s.entry(3, 1) * s.cofactor(0, 1) + s.entry(3, 2)
                * s.cofactor(0, 2) + s.entry(3, 3) * s.cofactor(0, 3) == 0,
    {
        let e = s.x.y;
        let f = s.y.y;
        let g = s.z.y;
        let h = s.w.y;
        let i = s.x.z;
        let j = s.y.z;
        let k = s.z.z;
        let l = s.w.z;
        let m = s.x.w;
        let n = s.y.w;
        let o = s.z.w;
        let p = s.w.w;
        lemma_times_minors(m, f, k, p, o, l, j, o, h, g, p, n, g, l, k, h);
        lemma_product4(m, f, k, p);
        lemma_product4(m, f, o, l);
        lemma_product4(m, j, o, h);
        lemma_product4(m, j, g, p);
        lemma_product4(m, n, g, l);
        lemma_product4(m, n, k, h);
        lemma_times_minors(n, e, k, p, o, l, i, o, h, g, p, m, g, l, k, h);
        lemma_product4(n, e, k, p);
        lemma_product4(n, e, o, l);
        lemma_product4(n, i, o, h);
        lemma_product4(n, i, g, p);
        lemma_product4(n, m, g, l);
        lemma_product4(n, m, k, h);
        lemma_times_minors(o, e, j, p, n, l, i, n, h, f, p, m, f, l, j, h);
        lemma_product4(o, e, j, p);
        lemma_product4(o, e, n, l);
        lemma_product4(o, i, n, h);
        lemma_product4(o, i, f, p);
        lemma_product4(o, m, f, l);
        lemma_product4(o, m, j, h);
        lemma_times_minors(p, e, j, o, n, k, i, n, g, f, o, m, f, k, j, g);
        lemma_product4(p, e, j, o);
        lemma_product4(p, e, n, k);
        lemma_product4(p, i, n, g);
        lemma_product4(p, i, f, o);
        lemma_product4(p, m, f, k);
        lemma_product4(p, m, j, g);
    }

    /// The first row times the second column of the adjugate is zero.
    proof fn lemma_row_0_column_1(s: Mat4x4<int>)
        ensures
            s.entry(0, 0) * s.cofactor(1, 0) + s.entry(0, 1) * s.cofactor(1, 1) + s.entry(0, 2)
                * s.cofactor(1, 2) + s.entry(0, 3) * s.cofactor(1, 3) == 0,
    {
        let a = s.x.x;
        let b = s.y.x;
        let c = s.z.x;
        let d = s.w.x;
        let i = s.x.z;
        let j = s.y.z;
        let k = s.z.z;
        let l = s.w.z;
        let m = s.x.w;
        let n = s.y.w;
        let o = s.z.w;
        let p = s.w.w;
        lemma_times_minors(a, b, k, p, o, l, j, o, d, c, p, n, c, l, k, d);
        lemma_product4(a, b, k, p);
        lemma_product4(a, b, o, l);
        lemma_product4(a, j, o, d);
        lemma_product4(a, j, c, p);
        lemma_product4(a, n, c, l);
        lemma_product4(a, n, k, d);
        lemma_times_minors(b, a, k, p, o, l, i, o, d, c, p, m, c, l, k, d);
        lemma_product4(b, a, k, p);
        lemma_product4(b, a, o, l);
        lemma_product4(b, i, o, d);
        lemma_product4(b, i, c, p);
        lemma_product4(b, m, c, l);
        lemma_product4(b, m, k, d);
        lemma_times_minors(c, a, j, p, n, l, i, n, d, b, p, m, b, l, j, d);
        lemma_product4(c, a, j, p);
        lemma_product4(c, a, n, l);
        lemma_product4(c, i, n, d);
        lemma_product4(c, i, b, p);
        lemma_product4(c, m, b, l);
        lemma_product4(c, m, j, d);
        lemma_times_minors(d, a, j, o, n, k, i, n, c, b, o, m, b, k, j, c);
        lemma_product4(d, a, j, o);
        lemma_product4(d, a, n, k);
        lemma_product4(d, i, n, c);
        lemma_product4(d, i, b, o);
        lemma_product4(d, m, b, k);
        lemma_product4(d, m, j, c);
    }

    /// The second row times the second column of the adjugate is the
    /// determinant.
    proof fn lemma_row_1_column_1(s: Mat4x4<int>)
        ensures
            s.entry(1, 0) * s.cofactor(1, 0) + s.entry(1, 1) * s.cofactor(1, 1) + s.entry(1, 2)
                * s.cofactor(1, 2) + s.entry(1, 3) * s.cofactor(1, 3) == s.det(),
    {
        let a = s.x.x;
        let b = s.y.x;
        let c = s.z.x;
        let d = s.w.x;
        let e = s.x.y;
        let f = s.y.y;
        let g = s.z.y;
        let h = s.w.y;
        let i = s.x.z;
        let j = s.y.z;
        let k = s.z.z;
        let l = s.w.z;
        let m = s.x.w;
        let n = s.y.w;
        let o = s.z.w;
        let p = s.w.w;
        lemma_times_minors(e, b, k, p, o, l, j, o, d, c, p, n, c, l, k, d);
        lemma_product4(e, b, k, p);
        lemma_product4(e, b, o, l);
        lemma_product4(e, j, o, d);
        lemma_product4(e, j, c, p);
        lemma_product4(e, n, c, l);
        lemma_product4(e, n, k, d);
        lemma_times_minors(f, a, k, p, o, l, i, o, d, c, p, m, c, l, k, d);
        lemma_product4(f, a, k, p);
        lemma_product4(f, a, o, l);
        lemma_product4(f, i, o, d);
        lemma_product4(f, i, c, p);
        lemma_product4(f, m, c, l);
        lemma_product4(f, m, k, d);
        lemma_times_minors(g, a, j, p, n, l, i, n, d, b, p, m, b, l, j, d);
        lemma_product4(g, a, j, p);
        lemma_product4(g, a, n, l);
        lemma_product4(g, i, n, d);
        lemma_product4(g, i, b, p);
        lemma_product4(g, m, b, l);
        lemma_product4(g, m, j, d);
        lemma_times_minors(h, a, j, o, n, k, i, n, c, b, o, m, b, k, j, c);
        lemma_product4(h, a, j, o);
        lemma_product4(h, a, n, k);
        lemma_product4(h, i, n, c);
        lemma_product4(h, i, b, o);
        lemma_product4(h, m, b, k);
        lemma_product4(h, m, j, c);
        lemma_times_minors(a, f, k, p, o, l, j, o, h, g, p, n, g, l, k, h);
        lemma_product4(a, f, k, p);
        lemma_product4(a, f, o, l);
        lemma_product4(a, j, o, h);
        lemma_product4(a, j, g, p);
        lemma_product4(a, n, g, l);
        lemma_product4(a, n, k, h);
        lemma_times_minors(b, e, k, p, o, l, i, o, h, g, p, m, g, l, k, h);
        lemma_product4(b, e, k, p);
        lemma_product4(b, e, o, l);
        lemma_product4(b, i, o, h);
        lemma_product4(b, i, g, p);
        lemma_product4(b, m, g, l);
        lemma_product4(b, m, k, h);
        lemma_times_minors(c, e, j, p, n, l, i, n, h, f, p, m, f, l, j, h);
        lemma_product4(c, e, j, p);
        lemma_product4(c, e, n, l);
        lemma_product4(c, i, n, h);
        lemma_product4(c, i, f, p);
        lemma_product4(c, m, f, l);
        lemma_product4(c, m, j, h);
        lemma_times_minors(d, e, j, o, n, k, i, n, g, f, o, m, f, k, j, g);
        lemma_product4(d, e, j, o);
        lemma_product4(d, e, n, k);
        lemma_product4(d, i, n, g);
        lemma_product4(d, i, f, o);
        lemma_product4(d, m, f, k);
        lemma_product4(d, m, j, g);
    }

    /// The third row times the second column of the adjugate is zero.
    proof fn lemma_row_2_column_1(s: Mat4x4<int>)
        ensures
            s.entry(2, 0) * s.cofactor(1, 0) + s.entry(2, 1) * s.cofactor(1, 1) + s.entry(2, 2)
                * s.cofactor(1, 2) + s.entry(2, 3) * s.cofactor(1, 3) == 0,
    {
        let a = s.x.x;
        let b = s.y.x;
        let c = s.z.x;
        let d = s.w.x;
        let i = s.x.z;
        let j = s.y.z;
        let k = s.z.z;
        let l = s.w.z;
        let m = s.x.w;
        let n = s.y.w;
        let o = s.z.w;
        let p = s.w.w;
        lemma_times_minors(i, b, k, p, o, l, j, o, d, c, p, n, c, l, k, d);
        lemma_product4(i, b, k, p);
        lemma_product4(i, b, o, l);
        lemma_product4(i, j, o, d);
        lemma_product4(i, j, c, p);
        lemma_product4(i, n, c, l);
        lemma_product4(i, n, k, d);
        lemma_times_minors(j, a, k, p, o, l, i, o, d, c, p, m, c, l, k, d);
        lemma_product4(j, a, k, p);
        lemma_product4(j, a, o, l);
        lemma_product4(j, i, o, d);
        lemma_product4(j, i, c, p);
        lemma_product4(j, m, c, l);
        lemma_product4(j, m, k, d);
        lemma_times_minors(k, a, j, p, n, l, i, n, d, b, p, m, b, l, j, d);
        lemma_product4(k, a, j, p);
        lemma_product4(k, a, n, l);
        lemma_product4(k, i, n, d);
        lemma_product4(k, i, b, p);
        lemma_product4(k, m, b, l);
        lemma_product4(k, m, j, d);
        lemma_times_minors(l, a, j, o, n, k, i, n, c, b, o, m, b, k, j, c);
        lemma_product4(l, a, j, o);
        lemma_product4(l, a, n, k);
        lemma_product4(l, i, n, c);
        lemma_product4(l, i, b, o);
        lemma_product4(l, m, b, k);
        lemma_product4(l, m, j, c);
    }

    /// The fourth row times the second column of the adjugate is zero.
    proof fn lemma_row_3_column_1(s: Mat4x4<int>)
        ensures
            s.entry(3, 0) * s.cofactor(1, 0) + s.entry(3, 1) * s.cofactor(1, 1) + s.entry(3, 2)
                * s.cofactor(1, 2) + s.entry(3, 3) * s.cofactor(1, 3) == 0,
    {
        let a = s.x.x;
        let b = s.y.x;
        let c = s.z.x;
        let d = s.w.x;
        let i = s.x.z;
        let j = s.y.z;
        let k = s.z.z;
        let l = s.w.z;
        let m = s.x.w;
        let n = s.y.w;
        let o = s.z.w;
        let p = s.w.w;
        lemma_times_minors(m, b, k, p, o, l, j, o, d, c, p, n, c, l, k, d);
        lemma_product4(m, b, k, p);
        lemma_product4(m, b, o, l);
        lemma_product4(m, j, o, d);
        lemma_product4(m, j, c, p);
        lemma_product4(m, n, c, l);
        lemma_product4(m, n, k, d);
        lemma_times_minors(n, a, k, p, o, l, i, o, d, c, p, m, c, l, k, d);
        lemma_product4(n, a, k, p);
        lemma_product4(n, a, o, l);
        lemma_product4(n, i, o, d);
        lemma_product4(n, i, c, p);
        lemma_product4(n, m, c, l);
        lemma_product4(n, m, k, d);
        lemma_times_minors(o, a, j, p, n, l, i, n, d, b, p, m, b, l, j, d);
        lemma_product4(o, a, j, p);
        lemma_product4(o, a, n, l);
        lemma_product4(o, i, n, d);
        lemma_product4(o, i, b, p);
        lemma_product4(o, m, b, l);
        lemma_product4(o, m, j, d);
        lemma_times_minors(p, a, j, o, n, k, i, n, c, b, o, m, b, k, j, c);
        lemma_product4(p, a, j, o);
        lemma_product4(p, a, n, k);
        lemma_product4(p, i, n, c);
        lemma_product4(p, i, b, o);
        lemma_product4(p, m, b, k);
        lemma_product4(p, m, j, c);
    }

    /// The first row times the third column of the adjugate is zero.
    proof fn lemma_row_0_column_2(s: Mat4x4<int>)
        ensures
            s.entry(0, 0) * s.cofactor(2, 0) + s.entry(0, 1) * s.cofactor(2, 1) + s.entry(0, 2)
                * s.cofactor(2, 2) + s.entry(0, 3) * s.cofactor(2, 3) == 0,
    {
        let a = s.x.x;
        let b = s.y.x;
        let c = s.z.x;
        let d = s.w.x;
        let e = s.x.y;
        let f = s.y.y;
        let g = s.z.y;
        let h = s.w.y;
        let m = s.x.w;
        let n = s.y.w;
        let o = s.z.w;
        let p = s.w.w;
        lemma_times_minors(a, b, g, p, o, h, f, o, d, c, p, n, c, h, g, d);
        lemma_product4(a, b, g, p);
        lemma_product4(a, b, o, h);
        lemma_product4(a, f, o, d);
        lemma_product4(a, f, c, p);
        lemma_product4(a, n, c, h);
        lemma_product4(a, n, g, d);
        lemma_times_minors(b, a, g, p, o, h, e, o, d, c, p, m, c, h, g, d);
        lemma_product4(b, a, g, p);
        lemma_product4(b, a, o, h);
        lemma_product4(b, e, o, d);
        lemma_product4(b, e, c, p);
        lemma_product4(b, m, c, h);
        lemma_product4(b, m, g, d);
        lemma_times_minors(c, a, f, p, n, h, e, n, d, b, p, m, b, h, f, d);
        lemma_product4(c, a, f, p);
        lemma_product4(c, a, n, h);
        lemma_product4(c, e, n, d);
        lemma_product4(c, e, b, p);
        lemma_product4(c, m, b, h);
        lemma_product4(c, m, f, d);
        lemma_times_minors(d, a, f, o, n, g, e, n, c, b, o, m, b, g, f, c);
        lemma_product4(d, a, f, o);
        lemma_product4(d, a, n, g);
        lemma_product4(d, e, n, c);
        lemma_product4(d, e, b, o);
        lemma_product4(d, m, b, g);
        lemma_product4(d, m, f, c);
    }

    /// The second row times the third column of the adjugate is zero.
    proof fn lemma_row_1_column_2(s: Mat4x4<int>)
        ensures
            s.entry(1, 0) * s.cofactor(2, 0) + s.entry(1, 1) * s.cofactor(2, 1) + s.entry(1, 2)
                * s.cofactor(2, 2) + s.entry(1, 3) * s.cofactor(2, 3) == 0,
    {
        let a = s.x.x;
        let b = s.y.x;
        let c = s.z.x;
        let d = s.w.x;
        let e = s.x.y;
        let f = s.y.y;
        let g = s.z.y;
        let h = s.w.y;
        let m = s.x.w;
        let n = s.y.w;
        let o = s.z.w;
        let p = s.w.w;
        lemma_times_minors(e, b, g, p, o, h, f, o, d, c, p, n, c, h, g, d);
        lemma_product4(e, b, g, p);
        lemma_product4(e, b, o, h);
        lemma_product4(e, f, o, d);
        lemma_product4(e, f, c, p);
        lemma_product4(e, n, c, h);
        lemma_product4(e, n, g, d);
        lemma_times_minors(f, a, g, p, o, h, e, o, d, c, p, m, c, h, g, d);
        lemma_product4(f, a, g, p);
        lemma_product4(f, a, o, h);
        lemma_product4(f, e, o, d);
        lemma_product4(f, e, c, p);
        lemma_product4(f, m, c, h);
        lemma_product4(f, m, g, d);
        lemma_times_minors(g, a, f, p, n, h, e, n, d, b, p, m, b, h, f, d);
        lemma_product4(g, a, f, p);
        lemma_product4(g, a, n, h);
        lemma_product4(g, e, n, d);
        lemma_product4(g, e, b, p);
        lemma_product4(g, m, b, h);
        lemma_product4(g, m, f, d);
        lemma_times_minors(h, a, f, o, n, g, e, n, c, b, o, m, b, g, f, c);
        lemma_product4(h, a, f, o);
        lemma_product4(h, a, n, g);
        lemma_product4(h, e, n, c);
        lemma_product4(h, e, b, o);
        lemma_product4(h, m, b, g);
        lemma_product4(h, m, f, c);
    }

    /// The third row times the third column of the adjugate is the
    /// determinant.
    proof fn lemma_row_2_column_2(s: Mat4x4<int>)
        ensures
            s.entry(2, 0) * s.cofactor(2, 0) + s.entry(2, 1) * s.cofactor(2, 1) + s.entry(2, 2)
                * s.cofactor(2, 2) + s.entry(2, 3) * s.cofactor(2, 3) == s.det(),
    {
        let a = s.x.x;
        let b = s.y.x;
        let c = s.z.x;
        let d = s.w.x;
        let e = s.x.y;
        let f = s.y.y;
        let g = s.z.y;
        let h = s.w.y;
        let i = s.x.z;
        let j = s.y.z;
        let k = s.z.z;
        let l = s.w.z;
        let m = s.x.w;
        let n = s.y.w;
        let o = s.z.w;
        let p = s.w.w;
        lemma_times_minors(i, b, g, p, o, h, f, o, d, c, p, n, c, h, g, d);
        lemma_product4(i, b, g, p);
        lemma_product4(i, b, o, h);
        lemma_product4(i, f, o, d);
        lemma_product4(i, f, c, p);
        lemma_product4(i, n, c, h);
        lemma_product4(i, n, g, d);
        lemma_times_minors(j, a, g, p, o, h, e, o, d, c, p, m, c, h, g, d);
        lemma_product4(j, a, g, p);
        lemma_product4(j, a, o, h);
        lemma_product4(j, e, o, d);
        lemma_product4(j, e, c, p);
        lemma_product4(j, m, c, h);
        lemma_product4(j, m, g, d);
        lemma_times_minors(k, a, f, p, n, h, e, n, d, b, p, m, b, h, f, d);
        lemma_product4(k, a, f, p);
        lemma_product4(k, a, n, h);
        lemma_product4(k, e, n, d);
        lemma_product4(k, e, b, p);
        lemma_product4(k, m, b, h);
        lemma_product4(k, m, f, d);
        lemma_times_minors(l, a, f, o, n, g, e, n, c, b, o, m, b, g, f, c);
        lemma_product4(l, a, f, o);
        lemma_product4(l, a, n, g);
        lemma_product4(l, e, n, c);
        lemma_product4(l, e, b, o);
        lemma_product4(l, m, b, g);
        lemma_product4(l, m, f, c);
        lemma_times_minors(a, f, k, p, o, l, j, o, h, g, p, n, g, l, k, h);
        lemma_product4(a, f, k, p);
        lemma_product4(a, f, o, l);
        lemma_product4(a, j, o, h);
        lemma_product4(a, j, g, p);
        lemma_product4(a, n, g, l);
        lemma_product4(a, n, k, h);
        lemma_times_minors(b, e, k, p, o, l, i, o, h, g, p, m, g, l, k, h);
        lemma_product4(b, e, k, p);
        lemma_product4(b, e, o, l);
        lemma_product4(b, i, o, h);
        lemma_product4(b, i, g, p);
        lemma_product4(b, m, g, l);
        lemma_product4(b, m, k, h);
        lemma_times_minors(c, e, j, p, n, l, i, n, h, f, p, m, f, l, j, h);
        lemma_product4(c, e, j, p);
        lemma_product4(c, e, n, l);
        lemma_product4(c, i, n, h);
        lemma_product4(c, i, f, p);
        lemma_product4(c, m, f, l);
        lemma_product4(c, m, j, h);
        lemma_times_minors(d, e, j, o, n, k, i, n, g, f, o, m, f, k, j, g);
        lemma_product4(d, e, j, o);
        lemma_product4(d, e, n, k);
        lemma_product4(d, i, n, g);
        lemma_product4(d, i, f, o);
        lemma_product4(d, m, f, k);
        lemma_product4(d, m, j, g);
    }

    /// The fourth row times the third column of the adjugate is zero.
    proof fn lemma_row_3_column_2(s: Mat4x4<int>)
        ensures
            s.entry(3, 0) * s.cofactor(2, 0) + s.entry(3, 1) * s.cofactor(2, 1) + s.entry(3, 2)
                * s.cofactor(2, 2) + s.entry(3, 3) * s.cofactor(2, 3) == 0,
    {
        let a = s.x.x;
        let b = s.y.x;
        let c = s.z.x;
        let d = s.w.x;
        let e = s.x.y;
        let f = s.y.y;
        let g = s.z.y;
        let h = s.w.y;
        let m = s.x.w;
        let n = s.y.w;
        let o = s.z.w;
        let p = s.w.w;
        lemma_times_minors(m, b, g, p, o, h, f, o, d, c, p, n, c, h, g, d);
        lemma_product4(m, b, g, p);
        lemma_product4(m, b, o, h);
        lemma_product4(m, f, o, d);
        lemma_product4(m, f, c, p);
        lemma_product4(m, n, c, h);
        lemma_product4(m, n, g, d);
        lemma_times_minors(n, a, g, p, o, h, e, o, d, c, p, m, c, h, g, d);
        lemma_product4(n, a, g, p);
        lemma_product4(n, a, o, h);
        lemma_product4(n, e, o, d);
        lemma_product4(n, e, c, p);
        lemma_product4(n, m, c, h);
        lemma_product4(n, m, g, d);
        lemma_times_minors(o, a, f, p, n, h, e, n, d, b, p, m, b, h, f, d);
        lemma_product4(o, a, f, p);
        lemma_product4(o, a, n, h);
        lemma_product4(o, e, n, d);
        lemma_product4(o, e, b, p);
        lemma_product4(o, m, b, h);
        lemma_product4(o, m, f, d);
        lemma_times_minors(p, a, f, o, n, g, e, n, c, b, o, m, b, g, f, c);
        lemma_product4(p, a, f, o);
        lemma_product4(p, a, n, g);
        lemma_product4(p, e, n, c);
        lemma_product4(p, e, b, o);
        lemma_product4(p, m, b, g);
        lemma_product4(p, m, f, c);
    }

    /// The first row times the fourth column of the adjugate is zero.
    proof fn lemma_row_0_column_3(s: Mat4x4<int>)
        ensures
            s.entry(0, 0) * s.cofactor(3, 0) + s.entry(0, 1) * s.cofactor(3, 1) + s.entry(0, 2)
                * s.cofactor(3, 2) + s.entry(0, 3) * s.cofactor(3, 3) == 0,
    {
        let a = s.x.x;
        let b = s.y.x;
        let c = s.z.x;
        let d = s.w.x;
        let e = s.x.y;
        let f = s.y.y;
        let g = s.z.y;
        let h = s.w.y;
        let i = s.x.z;
        let j = s.y.z;
        let k = s.z.z;
        let l = s.w.z;
        lemma_times_minors(a, b, g, l, k, h, f, k, d, c, l, j, c, h, g, d);
        lemma_product4(a, b, g, l);
        lemma_product4(a, b, k, h);
        lemma_product4(a, f, k, d);
        lemma_product4(a, f, c, l);
        lemma_product4(a, j, c, h);
        lemma_product4(a, j, g, d);
        lemma_times_minors(b, a, g, l, k, h, e, k, d, c, l, i, c, h, g, d);
        lemma_product4(b, a, g, l);
        lemma_product4(b, a, k, h);
        lemma_product4(b, e, k, d);
        lemma_product4(b, e, c, l);
        lemma_product4(b, i, c, h);
        lemma_product4(b, i, g, d);
        lemma_times_minors(c, a, f, l, j, h, e, j, d, b, l, i, b, h, f, d);
        lemma_product4(c, a, f, l);
        lemma_product4(c, a, j, h);
        lemma_product4(c, e, j, d);
        lemma_product4(c, e, b, l);
        lemma_product4(c, i, b, h);
        lemma_product4(c, i, f, d);
        lemma_times_minors(d, a, f, k, j, g, e, j, c, b, k, i, b, g, f, c);
        lemma_product4(d, a, f, k);
        lemma_product4(d, a, j, g);
        lemma_product4(d, e, j, c);
        lemma_product4(d, e, b, k);
        lemma_product4(d, i, b, g);
        lemma_product4(d, i, f, c);
    }

    /// The second row times the fourth column of the adjugate is zero.
    proof fn lemma_row_1_column_3(s: Mat4x4<int>)
        ensures
            s.entry(1, 0) * s.cofactor(3, 0) + s.entry(1, 1) * s.cofactor(3, 1) + s.entry(1, 2)
                * s.cofactor(3, 2) + s.entry(1, 3) * s.cofactor(3, 3) == 0,
    {
        let a = s.x.x;
        let b = s.y.x;
        let c = s.z.x;
        let d = s.w.x;
        let e = s.x.y;
        let f = s.y.y;
        let g = s.z.y;
        let h = s.w.y;
        let i = s.x.z;
        let j = s.y.z;
        let k = s.z.z;
        let l = s.w.z;
        lemma_times_minors(e, b, g, l, k, h, f, k, d, c, l, j, c, h, g, d);
        lemma_product4(e, b, g, l);
        lemma_product4(e, b, k, h);
        lemma_product4(e, f, k, d);
        lemma_product4(e, f, c, l);
        lemma_product4(e, j, c, h);
        lemma_product4(e, j, g, d);
        lemma_times_minors(f, a, g, l, k, h, e, k, d, c, l, i, c, h, g, d);
        lemma_product4(f, a, g, l);
        lemma_product4(f, a, k, h);
        lemma_product4(f, e, k, d);
        lemma_product4(f, e, c, l);
        lemma_product4(f, i, c, h);
        lemma_product4(f, i, g, d);
        lemma_times_minors(g, a, f, l, j, h, e, j, d, b, l, i, b, h, f, d);
        lemma_product4(g, a, f, l);
        lemma_product4(g, a, j, h);
        lemma_product4(g, e, j, d);
        lemma_product4(g, e, b, l);
        lemma_product4(g, i, b, h);
        lemma_product4(g, i, f, d);
        lemma_times_minors(h, a, f, k, j, g, e, j, c, b, k, i, b, g, f, c);
        lemma_product4(h, a, f, k);
        lemma_product4(h, a, j, g);
        lemma_product4(h, e, j, c);
        lemma_product4(h, e, b, k);
        lemma_product4(h, i, b, g);
        lemma_product4(h, i, f, c);
    }

    /// The third row times the fourth column of the adjugate is zero.
    proof fn lemma_row_2_column_3(s: Mat4x4<int>)
        ensures
            s.entry(2, 0) * s.cofactor(3, 0) + s.entry(2, 1) * s.cofactor(3, 1) + s.entry(2, 2)
                * s.cofactor(3, 2) + s.entry(2, 3) * s.cofactor(3, 3) == 0,
    {
        let a = s.x.x;
        let b = s.y.x;
        let c = s.z.x;
        let d = s.w.x;
        let e = s.x.y;
        let f = s.y.y;
        let g = s.z.y;
        let h = s.w.y;
        let i = s.x.z;
        let j = s.y.z;
        let k = s.z.z;
        let l = s.w.z;
        lemma_times_minors(i, b, g, l, k, h, f, k, d, c, l, j, c, h, g, d);
        lemma_product4(i, b, g, l);
        lemma_product4(i, b, k, h);
        lemma_product4(i, f, k, d);
        lemma_product4(i, f, c, l);
        lemma_product4(i, j, c, h);
        lemma_product4(i, j, g, d);
        lemma_times_minors(j, a, g, l, k, h, e, k, d, c, l, i, c, h, g, d);
        lemma_product4(j, a, g, l);
        lemma_product4(j, a, k, h);
        lemma_product4(j, e, k, d);
        lemma_product4(j, e, c, l);
        lemma_product4(j, i, c, h);
        lemma_product4(j, i, g, d);
        lemma_times_minors(k, a, f, l, j, h, e, j, d, b, l, i, b, h, f, d);
        lemma_product4(k, a, f, l);
        lemma_product4(k, a, j, h);
        lemma_product4(k, e, j, d);
        lemma_product4(k, e, b, l);
        lemma_product4(k, i, b, h);
        lemma_product4(k, i, f, d);
        lemma_times_minors(l, a, f, k, j, g, e, j, c, b, k, i, b, g, f, c);
        lemma_product4(l, a, f, k);
        lemma_product4(l, a, j, g);
        lemma_product4(l, e, j, c);
        lemma_product4(l, e, b, k);
        lemma_product4(l, i, b, g);
        lemma_product4(l, i, f, c);
    }

    /// The fourth row times the fourth column of the adjugate is the
    /// determinant.
    proof fn lemma_row_3_column_3(s: Mat4x4<int>)
        ensures
            s.entry(3, 0) * s.cofactor(3, 0) + s.entry(3, 1) * s.cofactor(3, 1) + s.entry(3, 2)
                * s.cofactor(3, 2) + s.entry(3, 3) * s.cofactor(3, 3) == s.det(),
    {
        let a = s.x.x;
        let b = s.y.x;
        let c = s.z.x;
        let d = s.w.x;
        let e = s.x.y;
        let f = s.y.y;
        let g = s.z.y;
        let h = s.w.y;
        let i = s.x.z;
        let j = s.y.z;
        let k = s.z.z;
        let l = s.w.z;
        let m = s.x.w;
        let n = s.y.w;
        let o = s.z.w;
        let p = s.w.w;
        lemma_times_minors(m, b, g, l, k, h, f, k, d, c, l, j, c, h, g, d);
        lemma_product4(m, b, g, l);
        lemma_product4(m, b, k, h);
        lemma_product4(m, f, k, d);
        lemma_product4(m, f, c, l);
        lemma_product4(m, j, c, h);
        lemma_product4(m, j, g, d);
        lemma_times_minors(n, a, g, l, k, h, e, k, d, c, l, i, c, h, g, d);
        lemma_product4(n, a, g, l);
        lemma_product4(n, a, k, h);
        lemma_product4(n, e, k, d);
        lemma_product4(n, e, c, l);
        lemma_product4(n, i, c, h);
        lemma_product4(n, i, g, d);
        lemma_times_minors(o, a, f, l, j, h, e, j, d, b, l, i, b, h, f, d);
        lemma_product4(o, a, f, l);
        lemma_product4(o, a, j, h);
        lemma_product4(o, e, j, d);
        lemma_product4(o, e, b, l);
        lemma_product4(o, i, b, h);
        lemma_product4(o, i, f, d);
        lemma_times_minors(p, a, f, k, j, g, e, j, c, b, k, i, b, g, f, c);
        lemma_product4(p, a, f, k);
        lemma_product4(p, a, j, g);
        lemma_product4(p, e, j, c);
        lemma_product4(p, e, b, k);
        lemma_product4(p, i, b, g);
        lemma_product4(p, i, f, c);
        lemma_times_minors(a, f, k, p, o, l, j, o, h, g, p, n, g, l, k, h);
        lemma_product4(a, f, k, p);
        lemma_product4(a, f, o, l);
        lemma_product4(a, j, o, h);
        lemma_product4(a, j, g, p);
        lemma_product4(a, n, g, l);
        lemma_product4(a, n, k, h);
        lemma_times_minors(b, e, k, p, o, l, i, o, h, g, p, m, g, l, k, h);
        lemma_product4(b, e, k, p);
        lemma_product4(b, e, o, l);
        lemma_product4(b, i, o, h);
        lemma_product4(b, i, g, p);
        lemma_product4(b, m, g, l);
        lemma_product4(b, m, k, h);
        lemma_times_minors(c, e, j, p, n, l, i, n, h, f, p, m, f, l, j, h);
        lemma_product4(c, e, j, p);
        lemma_product4(c, e, n, l);
        lemma_product4(c, i, n, h);
        lemma_product4(c, i, f, p);
        lemma_product4(c, m, f, l);
        lemma_product4(c, m, j, h);
        lemma_times_minors(d, e, j, o, n, k, i, n, g, f, o, m, f, k, j, g);
        lemma_product4(d, e, j, o);
        lemma_product4(d, e, n, k);
        lemma_product4(d, i, n, g);
        lemma_product4(d, i, f, o);
        lemma_product4(d, m, f, k);
        lemma_product4(d, m, j, g);
    }

    /// A matrix times its adjugate is the identity matrix scaled by the
    /// determinant.
    pub proof fn lemma_adjugate(s: Mat4x4<int>)
        ensures
            s.compose(s.adjugate()) == Mat4x4::<int>::identity().scaled(s.det()),
    {
        Mat4x4::<int>::lemma_row_0_column_0(s);
        Mat4x4::<int>::lemma_row_1_column_0(s);
        Mat4x4::<int>::lemma_row_2_column_0(s);
        Mat4x4::<int>::lemma_row_3_column_0(s);
        Mat4x4::<int>::lemma_row_0_column_1(s);
        Mat4x4::<int>::lemma_row_1_column_1(s);
        Mat4x4::<int>::lemma_row_2_column_1(s);
        Mat4x4::<int>::lemma_row_3_column_1(s);
        Mat4x4::<int>::lemma_row_0_column_2(s);
        Mat4x4::<int>::lemma_row_1_column_2(s);
        Mat4x4::<int>::lemma_row_2_column_2(s);
        Mat4x4::<int>::lemma_row_3_column_2(s);
        Mat4x4::<int>::lemma_row_0_column_3(s);
        Mat4x4::<int>::lemma_row_1_column_3(s);
        Mat4x4::<int>::lemma_row_2_column_3(s);
        Mat4x4::<int>::lemma_row_3_column_3(s);
        broadcast use vstd::arithmetic::mul::group_mul_basics;
    }

    /// Scaling a vector scales what a matrix makes of it.
    pub proof fn lemma_apply_scaled(s: Mat4x4<int>, v: XYZW<int>, n: int)
        ensures
            s.apply(v.scaled(n)) == s.apply(v).scaled(n),
    {
        lemma_sum4_scaled(s.x.x, v.x, s.y.x, v.y, s.z.x, v.z, s.w.x, v.w, n);
        lemma_sum4_scaled(s.x.y, v.x, s.y.y, v.y, s.z.y, v.z, s.w.y, v.w, n);
        lemma_sum4_scaled(s.x.z, v.x, s.y.z, v.y, s.z.z, v.z, s.w.z, v.w, n);
        lemma_sum4_scaled(s.x.w, v.x, s.y.w, v.y, s.z.w, v.z, s.w.w, v.w, n);
    }

    /// Scaling the right factor of a matrix product scales the product.
    pub proof fn lemma_compose_scaled(s: Mat4x4<int>, b: Mat4x4<int>, n: int)
        ensures
            s.compose(b.scaled(n)) == s.compose(b).scaled(n),
    {
        Mat4x4::<int>::lemma_apply_scaled(s, b.x, n);
        Mat4x4::<int>::lemma_apply_scaled(s, b.y, n);
        Mat4x4::<int>::lemma_apply_scaled(s, b.z, n);
        Mat4x4::<int>::lemma_apply_scaled(s, b.w, n);
    }

    /// Where the determinant is not zero and every entry of the adjugate is
    /// the determinant times the entry of `b`, the inverse is `b` and is
    /// exact: the matrix times its inverse is the identity matrix.
    pub proof fn lemma_inverse_exact(s: Mat4x4<int>, b: Mat4x4<int>)
        requires
            s.det() != 0,
            s.adjugate() == b.scaled(s.det()),
        ensures
            s.inverse() == b,
            s.compose(s.inverse()) == Mat4x4::<int>::identity(),
    {
        let n = s.det();
        lemma_truncated_product(b.x.x, n);
        lemma_truncated_product(b.x.y, n);
        lemma_truncated_product(b.x.z, n);
        lemma_truncated_product(b.x.w, n);
        lemma_truncated_product(b.y.x, n);
        lemma_truncated_product(b.y.y, n);
        lemma_truncated_product(b.y.z, n);
        lemma_truncated_product(b.y.w, n);
        lemma_truncated_product(b.z.x, n);
        lemma_truncated_product(b.z.y, n);
        lemma_truncated_product(b.z.z, n);
        lemma_truncated_product(b.z.w, n);
        lemma_truncated_product(b.w.x, n);
        lemma_truncated_product(b.w.y, n);
        lemma_truncated_product(b.w.z, n);
        lemma_truncated_product(b.w.w, n);
        assert(s.inverse() == b);
        Mat4x4::<int>::lemma_adjugate(s);
        Mat4x4::<int>::lemma_compose_scaled(s, b, n);
        let p = s.compose(b);
        let q = Mat4x4::<int>::identity();
        assert(p.scaled(n) == q.scaled(n));
        lemma_cancel(p.x.x, q.x.x, n);
        lemma_cancel(p.x.y, q.x.y, n);
        lemma_cancel(p.x.z, q.x.z, n);
        lemma_cancel(p.x.w, q.x.w, n);
        lemma_cancel(p.y.x, q.y.x, n);
        lemma_cancel(p.y.y, q.y.y, n);
        lemma_cancel(p.y.z, q.y.z, n);
        lemma_cancel(p.y.w, q.y.w, n);
        lemma_cancel(p.z.x, q.z.x, n);
        lemma_cancel(p.z.y, q.z.y, n);
        lemma_cancel(p.z.z, q.z.z, n);
        lemma_cancel(p.z.w, q.z.w, n);
        lemma_cancel(p.w.x, q.w.x, n);
        lemma_cancel(p.w.y, q.w.y, n);
        lemma_cancel(p.w.z, q.w.z, n);
        lemma_cancel(p.w.w, q.w.w, n);
    }
}

/// Scaling the right factor of every product of a sum of four products scales
/// the sum.
pub proof fn lemma_sum4_scaled(
    x: int,
    a: int,
    y: int,
    b: int,
    z: int,
    c: int,
    w: int,
    d: int,
    n: int,
)
    ensures
        x * (a * n) + y * (b * n) + z * (c * n) + w * (d * n) == (x * a + y * b + z * c + w * d)
            * n,
{
    assert(x * (a * n) == (x * a) * n) by (nonlinear_arith);
    assert(y * (b * n) == (y * b) * n) by (nonlinear_arith);
    assert(z * (c * n) == (z * c) * n) by (nonlinear_arith);
    assert(w * (d * n) == (w * d) * n) by (nonlinear_arith);
    let p = x * a;
    let q = y * b;
    let r = z * c;
    let t = w * d;
    assert((p + q + r + t) * n == p * n + q * n + r * n + t * n) by (nonlinear_arith);
}

} // verus!
