//! IEEE-754 binary32 values, carried as their 32-bit bit patterns.
//!
//! Verified code never computes with machine floats, so a chart value is
//! handled as the `u32` holding its binary32 encoding. The encoding splits
//! into a sign bit (the topmost bit) and a 31-bit magnitude; a value is a NaN
//! exactly when its magnitude exceeds that of infinity. On everything but
//! NaN, the IEEE comparison order agrees with the signed order of
//! [`Binary32::key`]: magnitudes of non-negative values compare directly,
//! magnitudes of negative values compare reversed, and the two zero patterns
//! (`+0.0` and `-0.0`) share the key `0`.

use vstd::prelude::*;

verus! {

/// An IEEE-754 binary32 value, represented by its bit pattern.
#[derive(Clone, Copy, PartialEq, Eq, Structural, Debug, Hash)]
pub struct Binary32 {
    pub bits: u32,
}

impl Binary32 {
    /// The bit pattern with the sign bit cleared.
    pub open spec fn magnitude(self) -> u32 {
        if self.bits >= 0x8000_0000 {
            (self.bits - 0x8000_0000) as u32
        } else {
            self.bits
        }
    }

    /// Whether the sign bit is set (negative values, including `-0.0`).
    pub open spec fn is_negative(self) -> bool {
        self.bits >= 0x8000_0000
    }

    /// Whether the pattern encodes a NaN: a magnitude above that of infinity.
    pub open spec fn spec_is_nan(self) -> bool {
        self.magnitude() > 0x7f80_0000
    }

    /// Whether the pattern encodes a zero. Both `+0.0` and `-0.0` qualify,
    /// matching the IEEE comparison `== 0.0`.
    pub open spec fn spec_is_zero(self) -> bool {
        self.magnitude() == 0
    }

    /// A signed key that orders non-NaN patterns exactly as IEEE comparison
    /// orders the values they encode.
    pub open spec fn key(self) -> int {
        if self.is_negative() {
            -(self.magnitude() as int)
        } else {
            self.magnitude() as int
        }
    }

    /// The IEEE `<` relation on the encoded values: false whenever either
    /// side is a NaN, otherwise the order of the keys.
    pub open spec fn spec_lt(self, other: Binary32) -> bool {
        &&& !self.spec_is_nan()
        &&& !other.spec_is_nan()
        &&& self.key() < other.key()
    }

    /// The pattern of `+0.0`.
    pub fn zero() -> (r: Binary32)
        ensures
            r.spec_is_zero(),
            r.bits == 0,
    {
        Binary32 { bits: 0 }
    }

    /// Whether the value is a NaN.
    pub fn is_nan(self) -> (r: bool)
        ensures
            r == self.spec_is_nan(),
    {
        let magnitude: u32 = if self.bits >= 0x8000_0000 {
            self.bits - 0x8000_0000
        } else {
            self.bits
        };
        magnitude > 0x7f80_0000
    }

    /// Whether the value compares equal to `0.0`.
    pub fn is_zero(self) -> (r: bool)
        ensures
            r == self.spec_is_zero(),
    {
        self.bits == 0 || self.bits == 0x8000_0000
    }

    /// Whether the encoded value is IEEE-less-than `other`'s. NaN compares
    /// below nothing and nothing compares below NaN.
    pub fn lt(self, other: Binary32) -> (r: bool)
        ensures
            r == self.spec_lt(other),
    {
        if self.is_nan() || other.is_nan() {
            return false;
        }
        let self_negative = self.bits >= 0x8000_0000;
        let other_negative = other.bits >= 0x8000_0000;
        let self_magnitude: u32 = if self_negative {
            self.bits - 0x8000_0000
        } else {
            self.bits
        };
        let other_magnitude: u32 = if other_negative {
            other.bits - 0x8000_0000
        } else {
            other.bits
        };
        if self_negative {
            if other_negative {
                other_magnitude < self_magnitude
            } else {
                self_magnitude != 0 || other_magnitude != 0
            }
        } else {
            if other_negative {
                false
            } else {
                self_magnitude < other_magnitude
            }
        }
    }
}

} // verus!
