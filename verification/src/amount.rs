//! Usage figures, held as the bit pattern of an IEEE 754 binary64 number.
//!
//! Everything the accounting *decides* about a figure is a comparison, and a
//! comparison of two binary64 numbers is a comparison of integers read off
//! their bit patterns. Arithmetic on figures happens in the program around
//! this library.

use vstd::prelude::*;

verus! {

/// One figure: the bits of a binary64 number.
#[derive(Debug, Clone, Copy, PartialEq, Eq, Structural)]
pub struct Amount {
    /// The number's bit pattern.
    pub bits: u64,
}

/// The bit that carries the sign.
pub const SIGN_BIT: u64 = 0x8000_0000_0000_0000;

/// The magnitude of infinity; every larger magnitude is not a number.
pub const INFINITE: u64 = 0x7ff0_0000_0000_0000;

impl Amount {
    /// The bit pattern without its sign.
    pub open spec fn magnitude(self) -> int {
        if self.bits < SIGN_BIT {
            self.bits as int
        } else {
            self.bits - SIGN_BIT
        }
    }

    /// Whether this is no number at all.
    pub open spec fn nan(self) -> bool {
        self.magnitude() > INFINITE
    }

    /// Whether this is a number, and not an infinite one.
    pub open spec fn finite(self) -> bool {
        self.magnitude() < INFINITE
    }

    /// Where the number stands on the number line: numbers compare as their
    /// ranks do. Both zeroes have rank zero.
    pub open spec fn rank(self) -> int {
        if self.bits < SIGN_BIT {
            self.bits as int
        } else {
            SIGN_BIT - self.bits
        }
    }

    /// Where the bit pattern stands in the total order, which tells the two
    /// zeroes apart and has a place for patterns that are no number.
    pub open spec fn total_rank(self) -> int {
        if self.bits < SIGN_BIT {
            self.bits as int
        } else {
            SIGN_BIT - self.bits - 1
        }
    }

    /// `self < other` as numbers; false when either is not a number.
    pub open spec fn lt(self, other: Amount) -> bool {
        !self.nan() && !other.nan() && self.rank() < other.rank()
    }

    /// `self <= other` as numbers; false when either is not a number.
    pub open spec fn le(self, other: Amount) -> bool {
        !self.nan() && !other.nan() && self.rank() <= other.rank()
    }

    /// Whether this is no number at all.
    pub fn is_nan(self) -> (r: bool)
        ensures
            r == self.nan(),
    {
        if self.bits < SIGN_BIT {
            self.bits > INFINITE
        } else {
            self.bits - SIGN_BIT > INFINITE
        }
    }

    /// Whether this is a number, and not an infinite one.
    pub fn is_finite(self) -> (r: bool)
        ensures
            r == self.finite(),
    {
        if self.bits < SIGN_BIT {
            self.bits < INFINITE
        } else {
            self.bits - SIGN_BIT < INFINITE
        }
    }

    /// Whether `self < other` as numbers.
    pub fn below(self, other: Amount) -> (r: bool)
        ensures
            r == self.lt(other),
    {
        !self.is_nan() && !other.is_nan() && self.key() < other.key()
    }

    /// Whether `self <= other` as numbers.
    pub fn at_most(self, other: Amount) -> (r: bool)
        ensures
            r == self.le(other),
    {
        !self.is_nan() && !other.is_nan() && self.key() <= other.key()
    }

    /// Whether `self` comes before `other` in the total order.
    pub fn totally_below(self, other: Amount) -> (r: bool)
        ensures
            r == (self.total_rank() < other.total_rank()),
    {
        self.total_key() < other.total_key()
    }

    fn key(self) -> (r: i128)
        ensures
            r == self.rank(),
    {
        if self.bits < SIGN_BIT {
            self.bits as i128
        } else {
            SIGN_BIT as i128 - self.bits as i128
        }
    }

    fn total_key(self) -> (r: i128)
        ensures
            r == self.total_rank(),
    {
        if self.bits < SIGN_BIT {
            self.bits as i128
        } else {
            SIGN_BIT as i128 - self.bits as i128 - 1
        }
    }
}

/// The total order agrees with the order of numbers.
pub proof fn total_order_extends_number_order(a: Amount, b: Amount)
    ensures
        a.lt(b) ==> a.total_rank() < b.total_rank(),
        a.total_rank() == b.total_rank() ==> a == b,
{
}

/// Numbers compare as they should: of two that are not negative the one with
/// the greater bits is greater, of two that are not positive the one with the
/// greater bits is lower, and one below zero is below one above it. The two
/// zeroes are equal, and what is no number compares with nothing.
pub proof fn numbers_compare_by_sign_and_size(a: Amount, b: Amount)
    ensures
        a.bits <= 0x7ff0_0000_0000_0000 && b.bits <= 0x7ff0_0000_0000_0000 ==> (a.lt(b) <==> a.bits
            < b.bits) && (a.le(b) <==> a.bits <= b.bits),
        0x8000_0000_0000_0000 <= a.bits <= 0xfff0_0000_0000_0000 && 0x8000_0000_0000_0000 <= b.bits
            <= 0xfff0_0000_0000_0000 ==> (a.lt(b) <==> b.bits < a.bits) && (a.le(b) <==> b.bits
            <= a.bits),
        0x8000_0000_0000_0000 <= a.bits <= 0xfff0_0000_0000_0000 && b.bits
            <= 0x7ff0_0000_0000_0000 ==> a.le(b) && (b.le(a) <==> a.bits == 0x8000_0000_0000_0000
            && b.bits == 0) && (a.lt(b) <==> !b.le(a)) && !b.lt(a),
        a.nan() ==> !a.lt(b) && !b.lt(a) && !a.le(b) && !b.le(a),
        a.nan() <==> 0x7ff0_0000_0000_0000 < a.bits < 0x8000_0000_0000_0000
            || 0xfff0_0000_0000_0000 < a.bits,
        a.finite() <==> a.bits < 0x7ff0_0000_0000_0000 || 0x8000_0000_0000_0000 <= a.bits
            < 0xfff0_0000_0000_0000,
{
}

/// The total order puts everything with the sign bit before everything without
/// it, the former by falling bits and the latter by rising ones.
pub proof fn the_total_order_is_by_sign_and_size(a: Amount, b: Amount)
    ensures
        a.bits < 0x8000_0000_0000_0000 && b.bits < 0x8000_0000_0000_0000 ==> (a.total_rank()
            < b.total_rank() <==> a.bits < b.bits),
        a.bits >= 0x8000_0000_0000_0000 && b.bits >= 0x8000_0000_0000_0000 ==> (a.total_rank()
            < b.total_rank() <==> b.bits < a.bits),
        a.bits >= 0x8000_0000_0000_0000 && b.bits < 0x8000_0000_0000_0000 ==> a.total_rank()
            < b.total_rank(),
{
}

} // verus!
