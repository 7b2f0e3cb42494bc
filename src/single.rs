use crate::bits::{Bits, IntValue};
use crate::cast::{narrow_u32_to_u8, widen_u8_to_i16};
use crate::float::{bias_of, pattern_of, AsBits, Float};
use vstd::arithmetic::power2::{lemma2_to64, pow2};
use vstd::prelude::*;

verus! {

/// A single-precision (binary32) value, held as its bit pattern.
#[derive(Clone, Copy, Debug, PartialEq, Eq, Structural)]
pub struct Single {
    pub bits: u32,
}

impl AsBits for Single {
    type Bits = u32;

    open spec fn spec_to_bits(self) -> u32 {
        self.bits
    }

    open spec fn spec_from_bits(b: u32) -> Single {
        Single { bits: b }
    }

    fn to_bits(self) -> (r: u32) {
        self.bits
    }

    fn from_bits(b: u32) -> (r: Single) {
        Single { bits: b }
    }

    proof fn lemma_to_bits_from_bits(b: u32) {
    }

    proof fn lemma_from_bits_to_bits(v: Single) {
    }
}

impl Float for Single {
    type BiasedExponent = u8;
    type Exponent = i16;
    type Significand = u32;

    open spec fn exp_width() -> nat {
        8
    }

    open spec fn signif_width() -> nat {
        23
    }

    open spec fn spec_sign_mask() -> u32 {
        0x8000_0000
    }

    open spec fn spec_exp_mask() -> u32 {
        0x7f80_0000
    }

    open spec fn spec_signif_mask() -> u32 {
        0x007f_ffff
    }

    proof fn lemma_layout() {
        lemma2_to64();
    }

    proof fn lemma_masks_partition() {
        lemma2_to64();
        assert(0x8000_0000u32 & 0x7f80_0000u32 == 0) by (bit_vector);
        assert(0x8000_0000u32 & 0x007f_ffffu32 == 0) by (bit_vector);
        assert(0x7f80_0000u32 & 0x007f_ffffu32 == 0) by (bit_vector);
        assert((0x8000_0000u32 | 0x7f80_0000u32) | 0x007f_ffffu32 == 0xffff_ffffu32)
            by (bit_vector);
    }

    fn exp_bits() -> (r: u16) {
        8
    }

    fn signif_bits() -> (r: u16) {
        23
    }

    fn sign_mask() -> (r: u32) {
        let shift = (Self::exp_bits() + Self::signif_bits()) as u32;
        let r = 1u32 << shift;
        assert(r == 0x8000_0000u32) by (bit_vector)
            requires
                shift == 31u32,
                r == 1u32 << shift,
        ;
        assert(r == Single::spec_sign_mask());
        r
    }

    fn exp_mask() -> (r: u32) {
        let width = Self::exp_bits() as u32;
        let shift = Self::signif_bits() as u32;
        assert(1u32 << width == 0x100u32) by (bit_vector)
            requires
                width == 8u32,
        ;
        let low: u32 = (1u32 << width) - 1;
        let r = low << shift;
        assert(r == 0x7f80_0000u32) by (bit_vector)
            requires
                low == 0xffu32,
                shift == 23u32,
                r == low << shift,
        ;
        assert(r == Single::spec_exp_mask());
        r
    }

    fn signif_mask() -> (r: u32) {
        let shift = Self::signif_bits() as u32;
        assert(1u32 << shift == 0x0080_0000u32) by (bit_vector)
            requires
                shift == 23u32,
        ;
        let r = (1u32 << shift) - 1;
        assert(r == Single::spec_signif_mask());
        r
    }

    fn exp_bias() -> (r: i16) {
        let shift = (Self::exp_bits() - 1) as u16;
        assert(1u16 << shift == 0x80u16) by (bit_vector)
            requires
                shift == 7u16,
        ;
        proof {
            lemma2_to64();
        }
        assert(bias_of(Self::exp_width()) == 127);
        let bias: u16 = (1u16 << shift) - 1;
        assert(bias == 127);
        let r = bias as i16;
        assert(r.int_value() == 127);
        r
    }

    fn sign_bit(self) -> (r: bool) {
        let b = self.bits;
        let mask = Self::sign_mask();
        assert(mask == Single::spec_sign_mask());
        let r = !(b & mask).is_zero();
        assert(((b & mask) != 0) == ((b / 0x8000_0000u32) % 2 == 1)) by (bit_vector)
            requires
                mask == 0x8000_0000u32,
        ;
        proof {
            lemma2_to64();
        }
        r
    }

    fn biased_exponent(self) -> (r: u8) {
        let b = self.bits;
        let mask = Self::exp_mask();
        assert(mask == Single::spec_exp_mask());
        let shift = Self::signif_bits() as u32;
        let field = (b & mask) >> shift;
        assert(field == (b / 0x80_0000u32) % 0x100u32 && field <= 0xffu32) by (bit_vector)
            requires
                mask == 0x7f80_0000u32,
                shift == 23u32,
                field == (b & mask) >> shift,
        ;
        proof {
            lemma2_to64();
        }
        assert(pattern_of(self) == b as int);
        assert(Self::signif_width() == 23 && Self::exp_width() == 8);
        assert(pow2(23) == 0x80_0000 && pow2(8) == 0x100);
        let r = narrow_u32_to_u8(field);
        assert(r.int_value() == r as int);
        r
    }

    fn exponent(self) -> (r: i16) {
        let biased = widen_u8_to_i16(self.biased_exponent());
        let bias = Self::exp_bias();
        proof {
            lemma2_to64();
        }
        assert(bias_of(Self::exp_width()) == 127);
        assert(bias == 127);
        let r = biased.wrapping_sub(bias);
        assert(r.int_value() == r as int);
        r
    }

    fn stored_significand(self) -> (r: u32) {
        let b = self.bits;
        assert(b & 0x007f_ffffu32 == b % 0x80_0000u32) by (bit_vector);
        proof {
            lemma2_to64();
        }
        assert(self.spec_to_bits() == b);
        assert(b.int_value() == b as int);
        assert(pattern_of(self) == b as int);
        assert(pow2(Self::signif_width()) == 0x80_0000);
        let mask = Self::signif_mask();
        assert(mask == Single::spec_signif_mask());
        b & mask
    }

    fn significand(self) -> (r: u32) {
        let one = u32::one();
        let shift = Self::signif_bits() as u32;
        let implicit = one << shift;
        assert(implicit == 0x0080_0000u32) by (bit_vector)
            requires
                one == 1u32,
                shift == 23u32,
                implicit == one << shift,
        ;
        proof {
            lemma2_to64();
        }
        self.stored_significand() + implicit
    }
}

} // verus!
