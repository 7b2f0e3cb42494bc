use vstd::arithmetic::power2::{lemma2_to64, pow2};
use vstd::prelude::*;

verus! {

/// Integer types whose values the contracts of this library speak of.
pub trait IntValue: Sized + Copy {
    /// The mathematical integer held by the value.
    spec fn int_value(self) -> int;

    /// The value widened to `i128`; the types used here have at most 64
    /// bits, so it stays strictly between `-2^64` and `2^64`.
    fn to_i128(self) -> (r: i128)
        ensures
            r as int == self.int_value(),
            -0x1_0000_0000_0000_0000 < r < 0x1_0000_0000_0000_0000,
    ;
}

/// Unsigned integer types that hold the raw bit pattern of a floating-point
/// value.
pub trait Bits: IntValue {
    /// The number of bits of the type.
    spec fn width() -> nat;

    /// Bitwise AND of two patterns.
    spec fn spec_and(self, other: Self) -> Self;

    /// Bitwise OR of two patterns.
    spec fn spec_or(self, other: Self) -> Self;

    /// The number of bits.
    fn bits() -> (r: u16)
        ensures
            r as nat == Self::width(),
    ;

    /// The value `0`.
    fn zero() -> (r: Self)
        ensures
            r.int_value() == 0,
    ;

    /// The value `1`.
    fn one() -> (r: Self)
        ensures
            r.int_value() == 1,
    ;

    /// Test if the value is zero.
    fn is_zero(self) -> (r: bool)
        ensures
            r == (self.int_value() == 0),
    ;

    /// The pattern as a `u64`, which holds every pattern of the types used here.
    fn to_u64(self) -> (r: u64)
        ensures
            r as int == self.int_value(),
    ;

    /// Every pattern is a natural number below `2^width`.
    proof fn lemma_range(self)
        ensures
            0 <= self.int_value() < pow2(Self::width()),
    ;
}

impl IntValue for u8 {
    open spec fn int_value(self) -> int {
        self as int
    }

    fn to_i128(self) -> (r: i128) {
        self as i128
    }
}

impl IntValue for u16 {
    open spec fn int_value(self) -> int {
        self as int
    }

    fn to_i128(self) -> (r: i128) {
        self as i128
    }
}

impl IntValue for i16 {
    open spec fn int_value(self) -> int {
        self as int
    }

    fn to_i128(self) -> (r: i128) {
        self as i128
    }
}

impl IntValue for u32 {
    open spec fn int_value(self) -> int {
        self as int
    }

    fn to_i128(self) -> (r: i128) {
        self as i128
    }
}

impl IntValue for u64 {
    open spec fn int_value(self) -> int {
        self as int
    }

    fn to_i128(self) -> (r: i128) {
        self as i128
    }
}

impl Bits for u32 {
    open spec fn width() -> nat {
        32
    }

    open spec fn spec_and(self, other: u32) -> u32 {
        self & other
    }

    open spec fn spec_or(self, other: u32) -> u32 {
        self | other
    }

    fn bits() -> (r: u16) {
        32
    }

    fn zero() -> (r: u32) {
        0
    }

    fn one() -> (r: u32) {
        1
    }

    fn is_zero(self) -> (r: bool) {
        self == 0
    }

    fn to_u64(self) -> (r: u64) {
        self as u64
    }

    proof fn lemma_range(self) {
        lemma2_to64();
    }
}

impl Bits for u64 {
    open spec fn width() -> nat {
        64
    }

    open spec fn spec_and(self, other: u64) -> u64 {
        self & other
    }

    open spec fn spec_or(self, other: u64) -> u64 {
        self | other
    }

    fn bits() -> (r: u16) {
        64
    }

    fn zero() -> (r: u64) {
        0
    }

    fn one() -> (r: u64) {
        1
    }

    fn is_zero(self) -> (r: bool) {
        self == 0
    }

    fn to_u64(self) -> (r: u64) {
        self
    }

    proof fn lemma_range(self) {
        lemma2_to64();
    }
}

} // verus!
