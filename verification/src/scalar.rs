//! Single-precision values carried by their bit patterns.
//!
//! The queue and the submission planner never do arithmetic on coordinates,
//! colours or angles: they store them, copy them and hand them on. They are
//! therefore held as the thirty-two bits of their IEEE 754 binary32 encoding,
//! which keeps every record comparable bit for bit.

use vstd::prelude::*;

verus! {

/// Bit pattern of `0.0`.
pub const ZERO_BITS: u32 = 0x0000_0000;

/// Bit pattern of `0.5`.
pub const HALF_BITS: u32 = 0x3F00_0000;

/// Bit pattern of `1.0`.
pub const ONE_BITS: u32 = 0x3F80_0000;

/// One binary32 value, identified by its bits.
#[derive(Clone, Copy, Debug, PartialEq, Eq, Structural)]
pub struct Scalar {
    pub bits: u32,
}

impl Scalar {
    /// The value whose encoding is `bits`.
    pub fn from_bits(bits: u32) -> (s: Scalar)
        ensures
            s.bits == bits,
    {
        Scalar { bits }
    }

    /// The encoding of this value.
    pub fn to_bits(self) -> (bits: u32)
        ensures
            bits == self.bits,
    {
        self.bits
    }

    /// `0.0`.
    pub fn zero() -> (s: Scalar)
        ensures
            s.bits == ZERO_BITS,
    {
        Scalar { bits: ZERO_BITS }
    }

    /// `0.5`.
    pub fn half() -> (s: Scalar)
        ensures
            s.bits == HALF_BITS,
    {
        Scalar { bits: HALF_BITS }
    }

    /// `1.0`.
    pub fn one() -> (s: Scalar)
        ensures
            s.bits == ONE_BITS,
    {
        Scalar { bits: ONE_BITS }
    }
}

/// A point of the plane.
#[derive(Clone, Copy, Debug, PartialEq, Eq, Structural)]
pub struct Point2 {
    pub x: Scalar,
    pub y: Scalar,
}

/// A displacement or an extent in the plane.
#[derive(Clone, Copy, Debug, PartialEq, Eq, Structural)]
pub struct Vector2 {
    pub x: Scalar,
    pub y: Scalar,
}

/// A colour with alpha, one value per channel.
#[derive(Clone, Copy, Debug, PartialEq, Eq, Structural)]
pub struct Rgba {
    pub r: Scalar,
    pub g: Scalar,
    pub b: Scalar,
    pub a: Scalar,
}

/// A size in whole pixels.
#[derive(Clone, Copy, Debug, PartialEq, Eq, Structural)]
pub struct Dimensions {
    pub x: u32,
    pub y: u32,
}

/// The vector `(1.0, 1.0)`: the extent of the unit quad.
pub open spec fn unit_extent() -> Vector2 {
    Vector2 { x: Scalar { bits: ONE_BITS }, y: Scalar { bits: ONE_BITS } }
}

/// Opaque white, the colour of a text fragment that names none.
pub open spec fn opaque_white() -> Rgba {
    Rgba {
        r: Scalar { bits: ONE_BITS },
        g: Scalar { bits: ONE_BITS },
        b: Scalar { bits: ONE_BITS },
        a: Scalar { bits: ONE_BITS },
    }
}

} // verus!
