//! Single-precision numbers carried as their IEEE 754 binary32 bit patterns.
//!
//! The library never rounds: it only copies scalars, flips their sign and
//! orders them, and all three are exact operations on the bit pattern.

use vstd::prelude::*;

verus! {

/// Mask of the sign bit of a binary32 pattern.
pub const SIGN_BIT: u32 = 0x8000_0000;

/// Magnitude pattern of positive infinity; larger magnitudes are NaNs.
pub const INFINITY_BITS: u32 = 0x7f80_0000;

/// Pattern of `0.0`.
pub const ZERO_BITS: u32 = 0x0000_0000;

/// Pattern of `0.5`.
pub const HALF_BITS: u32 = 0x3f00_0000;

/// Pattern of `1.0`.
pub const ONE_BITS: u32 = 0x3f80_0000;

/// Pattern of `-1.0`.
pub const NEG_ONE_BITS: u32 = 0xbf80_0000;

/// Pattern of the binary32 number nearest to `1/255`.
pub const ONE_255TH_BITS: u32 = 0x3b80_8081;

/// A binary32 number, held as its bit pattern.
///
/// `==` on scalars compares patterns: it tells `0.0` from `-0.0` and finds a
/// NaN equal to itself. Numeric order is [`Scalar::le`].
#[derive(Clone, Copy, Debug, PartialEq, Eq, Structural)]
pub struct Scalar {
    pub bits: u32,
}

impl Scalar {
    /// The pattern without its sign bit.
    pub open spec fn magnitude(self) -> int {
        if self.bits >= SIGN_BIT {
            self.bits - SIGN_BIT
        } else {
            self.bits as int
        }
    }

    /// Whether the sign bit is set (true of `-0.0` and of half the NaNs).
    pub open spec fn sign(self) -> bool {
        self.bits >= SIGN_BIT
    }

    /// Whether the pattern is a NaN: all exponent bits set, fraction not zero.
    pub open spec fn is_nan(self) -> bool {
        self.magnitude() > INFINITY_BITS
    }

    /// An integer that orders the non-NaN patterns as their numbers are
    /// ordered. Binary32 is a sign-magnitude format, so among patterns of one
    /// sign the larger magnitude is the number further from zero; both zeros
    /// have key 0.
    pub open spec fn order_key(self) -> int {
        if self.sign() {
            -self.magnitude()
        } else {
            self.magnitude()
        }
    }

    /// `self <= other` as IEEE 754 defines it: false when either is a NaN.
    pub open spec fn le_spec(self, other: Scalar) -> bool {
        !self.is_nan() && !other.is_nan() && self.order_key() <= other.order_key()
    }

    /// The number with the opposite sign: same magnitude, sign bit flipped.
    pub open spec fn neg_spec(self) -> Scalar {
        if self.bits >= SIGN_BIT {
            Scalar { bits: (self.bits - SIGN_BIT) as u32 }
        } else {
            Scalar { bits: (self.bits + SIGN_BIT) as u32 }
        }
    }

    pub fn from_bits(bits: u32) -> (s: Scalar)
        ensures
            s.bits == bits,
    {
        Scalar { bits }
    }

    pub fn to_bits(self) -> (bits: u32)
        ensures
            bits == self.bits,
    {
        self.bits
    }

    pub fn zero() -> (s: Scalar)
        ensures
            s.bits == ZERO_BITS,
    {
        Scalar { bits: ZERO_BITS }
    }

    pub fn half() -> (s: Scalar)
        ensures
            s.bits == HALF_BITS,
    {
        Scalar { bits: HALF_BITS }
    }

    pub fn one() -> (s: Scalar)
        ensures
            s.bits == ONE_BITS,
    {
        Scalar { bits: ONE_BITS }
    }

    pub fn neg_one() -> (s: Scalar)
        ensures
            s.bits == NEG_ONE_BITS,
    {
        Scalar { bits: NEG_ONE_BITS }
    }

    /// Negation. Exact for every pattern, NaNs and infinities included.
    pub fn neg(self) -> (r: Scalar)
        ensures
            r == self.neg_spec(),
            r.magnitude() == self.magnitude(),
            r.sign() == !self.sign(),
    {
        if self.bits >= SIGN_BIT {
            Scalar { bits: self.bits - SIGN_BIT }
        } else {
            Scalar { bits: self.bits + SIGN_BIT }
        }
    }

    /// Numeric `<=`.
    pub fn le(self, other: Scalar) -> (r: bool)
        ensures
            r == self.le_spec(other),
    {
        let a_neg = self.bits >= SIGN_BIT;
        let b_neg = other.bits >= SIGN_BIT;
        let a_mag: u32 = if a_neg { self.bits - SIGN_BIT } else { self.bits };
        let b_mag: u32 = if b_neg { other.bits - SIGN_BIT } else { other.bits };
        if a_mag > INFINITY_BITS || b_mag > INFINITY_BITS {
            false
        } else if a_neg {
            !b_neg || a_mag >= b_mag
        } else if b_neg {
            a_mag == 0 && b_mag == 0
        } else {
            a_mag <= b_mag
        }
    }

    /// Numeric `>=`.
    pub fn ge(self, other: Scalar) -> (r: bool)
        ensures
            r == other.le_spec(self),
    {
        other.le(self)
    }
}

/// Negating twice gives the pattern back.
pub proof fn lemma_neg_involutive(s: Scalar)
    ensures
        s.neg_spec().neg_spec() == s,
{
}

/// `<=` is transitive, and reflexive on everything but NaNs.
pub proof fn lemma_le_order(a: Scalar, b: Scalar, c: Scalar)
    ensures
        a.le_spec(a) <==> !a.is_nan(),
        a.le_spec(b) && b.le_spec(c) ==> a.le_spec(c),
{
}

/// Negation reverses the order.
pub proof fn lemma_neg_reverses(a: Scalar, b: Scalar)
    ensures
        a.le_spec(b) <==> b.neg_spec().le_spec(a.neg_spec()),
{
}

} // verus!
