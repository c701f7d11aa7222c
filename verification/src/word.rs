//! Hardware word capability: uniform bitwise logic and byte conversion
//! over a bus value type, so the register protocol can be written once
//! and instantiated for one-byte and four-byte registers.

use vstd::prelude::*;

verus! {

/// A hardware bus word: an unsigned value of the register width,
/// convertible to and from a single byte, with bitwise logic.
///
/// `as_word()` is the value read as a 32-bit quantity; `width_mask()`
/// is the all-ones pattern of the width (so every value satisfies
/// `as_word() & width_mask() == as_word()`).
pub trait HwWord: Sized + Copy {
    spec fn as_word(self) -> u32;

    spec fn width_mask() -> u32;

    /// Every value fits in the width.
    proof fn lemma_in_width(self)
        ensures
            self.as_word() & Self::width_mask() == self.as_word(),
    ;

    /// Widen a single byte into a word.
    fn from_byte(b: u8) -> (r: Self)
        ensures
            r.as_word() == b as u32,
    ;

    /// The value as a 32-bit quantity.
    fn word(self) -> (r: u32)
        ensures
            r == self.as_word(),
    ;

    /// Bitwise conjunction.
    fn bit_and(self, rhs: Self) -> (r: Self)
        ensures
            r.as_word() == self.as_word() & rhs.as_word(),
    ;

    /// Bitwise disjunction.
    fn bit_or(self, rhs: Self) -> (r: Self)
        ensures
            r.as_word() == self.as_word() | rhs.as_word(),
    ;

    /// Bitwise negation, within the width.
    fn bit_not(self) -> (r: Self)
        ensures
            r.as_word() == !self.as_word() & Self::width_mask(),
    ;

    /// Narrow to a single byte; the caller shows the value fits.
    fn low_byte(self) -> (r: u8)
        requires
            self.as_word() <= 0xFF,
        ensures
            r as u32 == self.as_word(),
    ;
}

impl HwWord for u8 {
    open spec fn as_word(self) -> u32 {
        self as u32
    }

    open spec fn width_mask() -> u32 {
        0xFF
    }

    proof fn lemma_in_width(self) {
        assert(self as u32 & 0xFF == self as u32) by (bit_vector);
    }

    fn from_byte(b: u8) -> (r: Self) {
        b
    }

    fn word(self) -> (r: u32) {
        self as u32
    }

    fn bit_and(self, rhs: Self) -> (r: Self) {
        let r = self & rhs;
        proof {
            assert((self & rhs) as u32 == self as u32 & rhs as u32) by (bit_vector);
        }
        r
    }

    fn bit_or(self, rhs: Self) -> (r: Self) {
        let r = self | rhs;
        proof {
            assert((self | rhs) as u32 == self as u32 | rhs as u32) by (bit_vector);
        }
        r
    }

    fn bit_not(self) -> (r: Self) {
        let r = !self;
        proof {
            assert((!self) as u32 == !(self as u32) & 0xFF) by (bit_vector);
        }
        r
    }

    fn low_byte(self) -> (r: u8) {
        self
    }
}

impl HwWord for u32 {
    open spec fn as_word(self) -> u32 {
        self
    }

    open spec fn width_mask() -> u32 {
        0xFFFF_FFFF
    }

    proof fn lemma_in_width(self) {
        assert(self & 0xFFFF_FFFFu32 == self) by (bit_vector);
    }

    fn from_byte(b: u8) -> (r: Self) {
        b as u32
    }

    fn word(self) -> (r: u32) {
        self
    }

    fn bit_and(self, rhs: Self) -> (r: Self) {
        self & rhs
    }

    fn bit_or(self, rhs: Self) -> (r: Self) {
        self | rhs
    }

    fn bit_not(self) -> (r: Self) {
        let r = !self;
        proof {
            assert(!self == !self & 0xFFFF_FFFFu32) by (bit_vector);
        }
        r
    }

    fn low_byte(self) -> (r: u8) {
        let r = (self & 0xFF) as u8;
        proof {
            assert(self <= 0xFF ==> ((self & 0xFF) as u8) as u32 == self) by (bit_vector);
        }
        r
    }
}

} // verus!
