//! The signed machine integers as scalars.

use vstd::prelude::*;
use crate::scalar::{Integer, One, Signed, Zero, lemma_truncated_by_minus_one};

verus! {

impl Zero for i8 {
    open spec fn zero_spec() -> i8 {
        0
    }

    fn zero() -> (r: i8) {
        0
    }
}

impl One for i8 {
    open spec fn one_spec() -> i8 {
        1
    }

    fn one() -> (r: i8) {
        1
    }
}

impl Integer for i8 {
    open spec fn value(self) -> int {
        self as int
    }

    open spec fn lowest() -> int {
        i8::MIN as int
    }

    open spec fn highest() -> int {
        i8::MAX as int
    }

    proof fn lemma_integer(a: i8, b: i8) {
    }

    fn plus(self, rhs: i8) -> (r: i8) {
        self + rhs
    }

    fn minus(self, rhs: i8) -> (r: i8) {
        self - rhs
    }

    fn times(self, rhs: i8) -> (r: i8) {
        self * rhs
    }

    fn over(self, rhs: i8) -> (r: i8) {
        proof {
            if rhs == -1 {
                lemma_truncated_by_minus_one(self as int);
            }
        }
        self / rhs
    }

    fn equals(self, rhs: i8) -> (r: bool) {
        self == rhs
    }

    fn is_zero(self) -> (r: bool) {
        self == 0
    }

    fn widen(self) -> (r: i128) {
        self as i128
    }
}

impl Signed for i8 {
    fn negated(self) -> (r: i8) {
        -self
    }
}

impl Zero for i16 {
    open spec fn zero_spec() -> i16 {
        0
    }

    fn zero() -> (r: i16) {
        0
    }
}

impl One for i16 {
    open spec fn one_spec() -> i16 {
        1
    }

    fn one() -> (r: i16) {
        1
    }
}

impl Integer for i16 {
    open spec fn value(self) -> int {
        self as int
    }

    open spec fn lowest() -> int {
        i16::MIN as int
    }

    open spec fn highest() -> int {
        i16::MAX as int
    }

    proof fn lemma_integer(a: i16, b: i16) {
    }

    fn plus(self, rhs: i16) -> (r: i16) {
        self + rhs
    }

    fn minus(self, rhs: i16) -> (r: i16) {
        self - rhs
    }

    fn times(self, rhs: i16) -> (r: i16) {
        self * rhs
    }

    fn over(self, rhs: i16) -> (r: i16) {
        proof {
            if rhs == -1 {
                lemma_truncated_by_minus_one(self as int);
            }
        }
        self / rhs
    }

    fn equals(self, rhs: i16) -> (r: bool) {
        self == rhs
    }

    fn is_zero(self) -> (r: bool) {
        self == 0
    }

    fn widen(self) -> (r: i128) {
        self as i128
    }
}

impl Signed for i16 {
    fn negated(self) -> (r: i16) {
        -self
    }
}

impl Zero for i32 {
    open spec fn zero_spec() -> i32 {
        0
    }

    fn zero() -> (r: i32) {
        0
    }
}

impl One for i32 {
    open spec fn one_spec() -> i32 {
        1
    }

    fn one() -> (r: i32) {
        1
    }
}

impl Integer for i32 {
    open spec fn value(self) -> int {
        self as int
    }

    open spec fn lowest() -> int {
        i32::MIN as int
    }

    open spec fn highest() -> int {
        i32::MAX as int
    }

    proof fn lemma_integer(a: i32, b: i32) {
    }

    fn plus(self, rhs: i32) -> (r: i32) {
        self + rhs
    }

    fn minus(self, rhs: i32) -> (r: i32) {
        self - rhs
    }

    fn times(self, rhs: i32) -> (r: i32) {
        self * rhs
    }

    fn over(self, rhs: i32) -> (r: i32) {
        proof {
            if rhs == -1 {
                lemma_truncated_by_minus_one(self as int);
            }
        }
        self / rhs
    }

    fn equals(self, rhs: i32) -> (r: bool) {
        self == rhs
    }

    fn is_zero(self) -> (r: bool) {
        self == 0
    }

    fn widen(self) -> (r: i128) {
        self as i128
    }
}

impl Signed for i32 {
    fn negated(self) -> (r: i32) {
        -self
    }
}

impl Zero for i64 {
    open spec fn zero_spec() -> i64 {
        0
    }

    fn zero() -> (r: i64) {
        0
    }
}

impl One for i64 {
    open spec fn one_spec() -> i64 {
        1
    }

    fn one() -> (r: i64) {
        1
    }
}

impl Integer for i64 {
    open spec fn value(self) -> int {
        self as int
    }

    open spec fn lowest() -> int {
        i64::MIN as int
    }

    open spec fn highest() -> int {
        i64::MAX as int
    }

    proof fn lemma_integer(a: i64, b: i64) {
    }

    fn plus(self, rhs: i64) -> (r: i64) {
        self + rhs
    }

    fn minus(self, rhs: i64) -> (r: i64) {
        self - rhs
    }

    fn times(self, rhs: i64) -> (r: i64) {
        self * rhs
    }

    fn over(self, rhs: i64) -> (r: i64) {
        proof {
            if rhs == -1 {
                lemma_truncated_by_minus_one(self as int);
            }
        }
        self / rhs
    }

    fn equals(self, rhs: i64) -> (r: bool) {
        self == rhs
    }

    fn is_zero(self) -> (r: bool) {
        self == 0
    }

    fn widen(self) -> (r: i128) {
        self as i128
    }
}

impl Signed for i64 {
    fn negated(self) -> (r: i64) {
        -self
    }
}

impl Zero for isize {
    open spec fn zero_spec() -> isize {
        0
    }

    fn zero() -> (r: isize) {
        0
    }
}

impl One for isize {
    open spec fn one_spec() -> isize {
        1
    }

    fn one() -> (r: isize) {
        1
    }
}

impl Integer for isize {
    open spec fn value(self) -> int {
        self as int
    }

    open spec fn lowest() -> int {
        isize::MIN as int
    }

    open spec fn highest() -> int {
        isize::MAX as int
    }

    proof fn lemma_integer(a: isize, b: isize) {
    }

    fn plus(self, rhs: isize) -> (r: isize) {
        self + rhs
    }

    fn minus(self, rhs: isize) -> (r: isize) {
        self - rhs
    }

    fn times(self, rhs: isize) -> (r: isize) {
        self * rhs
    }

    fn over(self, rhs: isize) -> (r: isize) {
        proof {
            if rhs == -1 {
                lemma_truncated_by_minus_one(self as int);
            }
        }
        self / rhs
    }

    fn equals(self, rhs: isize) -> (r: bool) {
        self == rhs
    }

    fn is_zero(self) -> (r: bool) {
        self == 0
    }

    fn widen(self) -> (r: i128) {
        self as i128
    }
}

impl Signed for isize {
    fn negated(self) -> (r: isize) {
        -self
    }
}

} // verus!
