//! The unsigned machine integers as scalars.

use vstd::prelude::*;
use crate::scalar::{Integer, One, Zero};

verus! {

impl Zero for u8 {
    open spec fn zero_spec() -> u8 {
        0
    }

    fn zero() -> (r: u8) {
        0
    }
}

impl One for u8 {
    open spec fn one_spec() -> u8 {
        1
    }

    fn one() -> (r: u8) {
        1
    }
}

impl Integer for u8 {
    open spec fn value(self) -> int {
        self as int
    }

    open spec fn lowest() -> int {
        u8::MIN as int
    }

    open spec fn highest() -> int {
        u8::MAX as int
    }

    proof fn lemma_integer(a: u8, b: u8) {
    }

    fn plus(self, rhs: u8) -> (r: u8) {
        self + rhs
    }

    fn minus(self, rhs: u8) -> (r: u8) {
        self - rhs
    }

    fn times(self, rhs: u8) -> (r: u8) {
        self * rhs
    }

    fn over(self, rhs: u8) -> (r: u8) {
        self / rhs
    }

    fn equals(self, rhs: u8) -> (r: bool) {
        self == rhs
    }

    fn is_zero(self) -> (r: bool) {
        self == 0
    }

    fn widen(self) -> (r: i128) {
        self as i128
    }
}

impl Zero for u16 {
    open spec fn zero_spec() -> u16 {
        0
    }

    fn zero() -> (r: u16) {
        0
    }
}

impl One for u16 {
    open spec fn one_spec() -> u16 {
        1
    }

    fn one() -> (r: u16) {
        1
    }
}

impl Integer for u16 {
    open spec fn value(self) -> int {
        self as int
    }

    open spec fn lowest() -> int {
        u16::MIN as int
    }

    open spec fn highest() -> int {
        u16::MAX as int
    }

    proof fn lemma_integer(a: u16, b: u16) {
    }

    fn plus(self, rhs: u16) -> (r: u16) {
        self + rhs
    }

    fn minus(self, rhs: u16) -> (r: u16) {
        self - rhs
    }

    fn times(self, rhs: u16) -> (r: u16) {
        self * rhs
    }

    fn over(self, rhs: u16) -> (r: u16) {
        self / rhs
    }

    fn equals(self, rhs: u16) -> (r: bool) {
        self == rhs
    }

    fn is_zero(self) -> (r: bool) {
        self == 0
    }

    fn widen(self) -> (r: i128) {
        self as i128
    }
}

impl Zero for u32 {
    open spec fn zero_spec() -> u32 {
        0
    }

    fn zero() -> (r: u32) {
        0
    }
}

impl One for u32 {
    open spec fn one_spec() -> u32 {
        1
    }

    fn one() -> (r: u32) {
        1
    }
}

impl Integer for u32 {
    open spec fn value(self) -> int {
        self as int
    }

    open spec fn lowest() -> int {
        u32::MIN as int
    }

    open spec fn highest() -> int {
        u32::MAX as int
    }

    proof fn lemma_integer(a: u32, b: u32) {
    }

    fn plus(self, rhs: u32) -> (r: u32) {
        self + rhs
    }

    fn minus(self, rhs: u32) -> (r: u32) {
        self - rhs
    }

    fn times(self, rhs: u32) -> (r: u32) {
        self * rhs
    }

    fn over(self, rhs: u32) -> (r: u32) {
        self / rhs
    }

    fn equals(self, rhs: u32) -> (r: bool) {
        self == rhs
    }

    fn is_zero(self) -> (r: bool) {
        self == 0
    }

    fn widen(self) -> (r: i128) {
        self as i128
    }
}

impl Zero for u64 {
    open spec fn zero_spec() -> u64 {
        0
    }

    fn zero() -> (r: u64) {
        0
    }
}

impl One for u64 {
    open spec fn one_spec() -> u64 {
        1
    }

    fn one() -> (r: u64) {
        1
    }
}

impl Integer for u64 {
    open spec fn value(self) -> int {
        self as int
    }

    open spec fn lowest() -> int {
        u64::MIN as int
    }

    open spec fn highest() -> int {
        u64::MAX as int
    }

    proof fn lemma_integer(a: u64, b: u64) {
    }

    fn plus(self, rhs: u64) -> (r: u64) {
        self + rhs
    }

    fn minus(self, rhs: u64) -> (r: u64) {
        self - rhs
    }

    fn times(self, rhs: u64) -> (r: u64) {
        self * rhs
    }

    fn over(self, rhs: u64) -> (r: u64) {
        self / rhs
    }

    fn equals(self, rhs: u64) -> (r: bool) {
        self == rhs
    }

    fn is_zero(self) -> (r: bool) {
        self == 0
    }

    fn widen(self) -> (r: i128) {
        self as i128
    }
}

impl Zero for usize {
    open spec fn zero_spec() -> usize {
        0
    }

    fn zero() -> (r: usize) {
        0
    }
}

impl One for usize {
    open spec fn one_spec() -> usize {
        1
    }

    fn one() -> (r: usize) {
        1
    }
}

impl Integer for usize {
    open spec fn value(self) -> int {
        self as int
    }

    open spec fn lowest() -> int {
        usize::MIN as int
    }

    open spec fn highest() -> int {
        usize::MAX as int
    }

    proof fn lemma_integer(a: usize, b: usize) {
    }

    fn plus(self, rhs: usize) -> (r: usize) {
        self + rhs
    }

    fn minus(self, rhs: usize) -> (r: usize) {
        self - rhs
    }

    fn times(self, rhs: usize) -> (r: usize) {
        self * rhs
    }

    fn over(self, rhs: usize) -> (r: usize) {
        self / rhs
    }

    fn equals(self, rhs: usize) -> (r: bool) {
        self == rhs
    }

    fn is_zero(self) -> (r: bool) {
        self == 0
    }

    fn widen(self) -> (r: i128) {
        self as i128
    }
}

} // verus!
