//! Basis blades of the geometric algebra of a Euclidean space of up to four
//! dimensions, and the rule by which two of them multiply.
//!
//! The generators are `x`, `y`, `z` and `w`. Each squares to one, and two
//! different generators anticommute. A basis blade is the product of some of
//! the generators, each at most once, written in the order `x`, `y`, `z`,
//! `w`.

use vstd::prelude::*;

verus! {

/// A basis blade, given by the generators that it holds.
pub struct Blade {
    pub x: bool,
    pub y: bool,
    pub z: bool,
    pub w: bool,
}

/// One if `p` holds, zero if not.
pub open spec fn count(p: bool) -> int {
    if p {
        1
    } else {
        0
    }
}

impl Blade {
    /// The blade that holds exactly the generators named.
    pub open spec fn of(x: bool, y: bool, z: bool, w: bool) -> Blade {
        Blade { x, y, z, w }
    }

    /// The blade of the scalars, which holds no generator.
    pub open spec fn scalar() -> Blade {
        Blade::of(false, false, false, false)
    }

    /// The generator `x`.
    pub open spec fn x() -> Blade {
        Blade::of(true, false, false, false)
    }

    /// The generator `y`.
    pub open spec fn y() -> Blade {
        Blade::of(false, true, false, false)
    }

    /// The generator `z`.
    pub open spec fn z() -> Blade {
        Blade::of(false, false, true, false)
    }

    /// The generator `w`.
    pub open spec fn w() -> Blade {
        Blade::of(false, false, false, true)
    }

    /// The product of `x` and `y`.
    pub open spec fn xy() -> Blade {
        Blade::of(true, true, false, false)
    }

    /// The product of `x` and `z`.
    pub open spec fn xz() -> Blade {
        Blade::of(true, false, true, false)
    }

    /// The product of `x` and `w`.
    pub open spec fn xw() -> Blade {
        Blade::of(true, false, false, true)
    }

    /// The product of `y` and `z`.
    pub open spec fn yz() -> Blade {
        Blade::of(false, true, true, false)
    }

    /// The product of `y` and `w`.
    pub open spec fn yw() -> Blade {
        Blade::of(false, true, false, true)
    }

    /// The product of `z` and `w`.
    pub open spec fn zw() -> Blade {
        Blade::of(false, false, true, true)
    }

    /// The product of `x`, `y` and `z`.
    pub open spec fn xyz() -> Blade {
        Blade::of(true, true, true, false)
    }

    /// The product of `x`, `y` and `w`.
    pub open spec fn xyw() -> Blade {
        Blade::of(true, true, false, true)
    }

    /// The product of `x`, `z` and `w`.
    pub open spec fn xzw() -> Blade {
        Blade::of(true, false, true, true)
    }

    /// The product of `y`, `z` and `w`.
    pub open spec fn yzw() -> Blade {
        Blade::of(false, true, true, true)
    }

    /// The product of `x`, `y`, `z` and `w`.
    pub open spec fn xyzw() -> Blade {
        Blade::of(true, true, true, true)
    }

    /// Whether the blade is one of the generators.
    pub open spec fn is_generator(self) -> bool {
        count(self.x) + count(self.y) + count(self.z) + count(self.w) == 1
    }

    /// Whether the blade lies in the plane of `x` and `y`.
    pub open spec fn in_plane(self) -> bool {
        !self.z && !self.w
    }

    /// Whether the blade lies in the space of `x`, `y` and `z`.
    pub open spec fn in_space(self) -> bool {
        !self.w
    }

    /// The blade that the product of `self` and `other` is a multiple of. A
    /// generator that both hold squares to one and drops out.
    pub open spec fn product(self, other: Blade) -> Blade {
        Blade {
            x: self.x != other.x,
            y: self.y != other.y,
            z: self.z != other.z,
            w: self.w != other.w,
        }
    }

    /// How many pairs of a generator of `self` and an earlier generator of
    /// `other` there are. Bringing the product of the two blades into order
    /// takes that many exchanges of neighbours.
    pub open spec fn exchanges(self, other: Blade) -> int {
        count(self.y && other.x) + count(self.z && other.x) + count(self.z && other.y) + count(
            self.w && other.x,
        ) + count(self.w && other.y) + count(self.w && other.z)
    }

    /// Whether the product of `self` and `other` is the negative of a basis
    /// blade: each exchange of two different generators changes the sign.
    pub open spec fn flips(self, other: Blade) -> bool {
        self.exchanges(other) % 2 == 1
    }

    /// The sign of the product of `self` and `other`, as a factor.
    pub open spec fn sign(self, other: Blade) -> int {
        if self.flips(other) {
            -1
        } else {
            1
        }
    }
}

} // verus!
