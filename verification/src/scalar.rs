//! Real numbers as the decisions of a ray tracer read them.
//!
//! The tracer's arithmetic is done in IEEE-754 binary64 by the caller. What this
//! crate decides depends only on how such numbers compare, so a number enters as
//! its 64-bit pattern and is compared here exactly, in integer arithmetic: the
//! sign bit and the 63 bits of magnitude give every number that is not a NaN its
//! place in the order, with both zeros sharing one place.

use vstd::prelude::*;

verus! {

/// The pattern that holds the sign bit alone (the pattern of negative zero).
pub const SIGN_BIT: u64 = 0x8000_0000_0000_0000;

/// The pattern of positive infinity. A magnitude above it is not a number.
pub const INFINITY_BITS: u64 = 0x7FF0_0000_0000_0000;

/// The pattern of one thousandth, the least ray parameter that counts as a hit:
/// anything nearer is the surface the ray has just left.
pub const EPSILON_BITS: u64 = 0x3F50_624D_D2F1_A9FC;

/// A binary64 number, held as its bit pattern.
///
/// Equality of two scalars (`==`) is identity of patterns; the numeric order is
/// [`Scalar::less`].
#[derive(Clone, Copy, Debug, PartialEq, Eq, Structural)]
pub struct Scalar {
    pub bits: u64,
}

impl Scalar {
    /// The pattern without its sign bit.
    pub open spec fn magnitude(self) -> int {
        if self.bits >= SIGN_BIT {
            self.bits - SIGN_BIT
        } else {
            self.bits as int
        }
    }

    /// Whether the sign bit is set.
    pub open spec fn negative(self) -> bool {
        self.bits >= SIGN_BIT
    }

    /// Whether the pattern is that of a NaN.
    pub open spec fn nan(self) -> bool {
        self.magnitude() > INFINITY_BITS
    }

    /// The place of a number in the order: patterns of larger numbers have a
    /// larger rank, and the two zeros have rank 0. Meaningless for a NaN.
    pub open spec fn rank(self) -> int {
        if self.negative() {
            -self.magnitude()
        } else {
            self.magnitude()
        }
    }

    /// The numeric `<`: false whenever either side is a NaN.
    pub open spec fn less(self, other: Scalar) -> bool {
        !self.nan() && !other.nan() && self.rank() < other.rank()
    }

    /// The number zero.
    pub open spec fn zero() -> Scalar {
        Scalar { bits: 0 }
    }

    /// One thousandth, see [`EPSILON_BITS`].
    pub open spec fn epsilon() -> Scalar {
        Scalar { bits: EPSILON_BITS }
    }

    /// The scalar with the given pattern.
    pub fn from_bits(bits: u64) -> (s: Scalar)
        ensures
            s.bits == bits,
    {
        Scalar { bits }
    }

    /// The pattern of the scalar.
    pub fn to_bits(self) -> (bits: u64)
        ensures
            bits == self.bits,
    {
        self.bits
    }

    /// Whether the scalar is a NaN.
    pub fn is_nan(self) -> (b: bool)
        ensures
            b == self.nan(),
    {
        if self.bits >= SIGN_BIT {
            self.bits - SIGN_BIT > INFINITY_BITS
        } else {
            self.bits > INFINITY_BITS
        }
    }

    fn key(self) -> (k: i64)
        ensures
            k == self.rank(),
    {
        if self.bits >= SIGN_BIT {
            let magnitude: u64 = self.bits - SIGN_BIT;
            -(magnitude as i64)
        } else {
            self.bits as i64
        }
    }

    /// `self < other`, as numbers.
    pub fn lt(self, other: Scalar) -> (b: bool)
        ensures
            b == self.less(other),
    {
        !self.is_nan() && !other.is_nan() && self.key() < other.key()
    }

    /// `self > other`, as numbers.
    pub fn gt(self, other: Scalar) -> (b: bool)
        ensures
            b == other.less(self),
    {
        other.lt(self)
    }
}

/// Among numbers, `less` is a strict total order up to rank: it is irreflexive
/// and transitive, and of two numbers of different rank one is less than the
/// other.
pub proof fn less_is_a_strict_order(a: Scalar, b: Scalar, c: Scalar)
    ensures
        !a.less(a),
        a.less(b) && b.less(c) ==> a.less(c),
        a.less(b) ==> !b.less(a),
        !a.nan() && !b.nan() ==> (a.less(b) || b.less(a) || a.rank() == b.rank()),
{
}

/// The two zeros are neither less nor greater than each other, and every
/// pattern with the sign bit clear and a magnitude up to infinity is at least
/// zero.
pub proof fn zeros_share_a_place(a: Scalar)
    ensures
        !Scalar::zero().less(Scalar { bits: SIGN_BIT }),
        !(Scalar { bits: SIGN_BIT }).less(Scalar::zero()),
        !a.nan() && !a.negative() ==> !a.less(Scalar::zero()),
{
}

} // verus!
