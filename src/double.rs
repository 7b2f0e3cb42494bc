use crate::bits::{Bits, IntValue};
use crate::cast::{convert_u16_to_i16, narrow_u64_to_u16};
use crate::float::{bias_of, pattern_of, AsBits, Float};
use vstd::arithmetic::power2::{lemma2_to64, lemma2_to64_rest, pow2};
use vstd::prelude::*;

verus! {

/// A double-precision (binary64) value, held as its bit pattern.
#[derive(Clone, Copy, Debug, PartialEq, Eq, Structural)]
pub struct Double {
    pub bits: u64,
}

impl AsBits for Double {
    type Bits = u64;

    open spec fn spec_to_bits(self) -> u64 {
        self.bits
    }

    open spec fn spec_from_bits(b: u64) -> Double {
        Double { bits: b }
    }

    fn to_bits(self) -> (r: u64) {
        self.bits
    }

    fn from_bits(b: u64) -> (r: Double) {
        Double { bits: b }
    }

    proof fn lemma_to_bits_from_bits(b: u64) {
    }

    proof fn lemma_from_bits_to_bits(v: Double) {
    }
}

impl Float for Double {
    type BiasedExponent = u16;
    type Exponent = i16;
    type Significand = u64;

    open spec fn exp_width() -> nat {
        11
    }

    open spec fn signif_width() -> nat {
        52
    }

    open spec fn spec_sign_mask() -> u64 {
        0x8000_0000_0000_0000
    }

    open spec fn spec_exp_mask() -> u64 {
        0x7ff0_0000_0000_0000
    }

    open spec fn spec_signif_mask() -> u64 {
        0x000f_ffff_ffff_ffff
    }

    proof fn lemma_layout() {
        lemma2_to64();
        lemma2_to64_rest();
    }

    proof fn lemma_masks_partition() {
        lemma2_to64();
        lemma2_to64_rest();
        assert(0x8000_0000_0000_0000u64 & 0x7ff0_0000_0000_0000u64 == 0) by (bit_vector);
        assert(0x8000_0000_0000_0000u64 & 0x000f_ffff_ffff_ffffu64 == 0) by (bit_vector);
        assert(0x7ff0_0000_0000_0000u64 & 0x000f_ffff_ffff_ffffu64 == 0) by (bit_vector);
        assert((0x8000_0000_0000_0000u64 | 0x7ff0_0000_0000_0000u64) | 0x000f_ffff_ffff_ffffu64 == 0xffff_ffff_ffff_ffffu64)
            by (bit_vector);
    }

    fn exp_bits() -> (r: u16) {
        11
    }

    fn signif_bits() -> (r: u16) {
        52
    }

    fn sign_mask() -> (r: u64) {
        let shift = (Self::exp_bits() + Self::signif_bits()) as u64;
        let r = 1u64 << shift;
        assert(r == 0x8000_0000_0000_0000u64) by (bit_vector)
            requires
                shift == 63u64,
                r == 1u64 << shift,
        ;
        assert(r == Double::spec_sign_mask());
        r
    }

    fn exp_mask() -> (r: u64) {
        let width = Self::exp_bits() as u64;
        let shift = Self::signif_bits() as u64;
        assert(1u64 << width == 0x800u64) by (bit_vector)
            requires
                width == 11u64,
        ;
        let low: u64 = (1u64 << width) - 1;
        let r = low << shift;
        assert(r == 0x7ff0_0000_0000_0000u64) by (bit_vector)
            requires
                low == 0x7ffu64,
                shift == 52u64,
                r == low << shift,
        ;
        assert(r == Double::spec_exp_mask());
        r
    }

    fn signif_mask() -> (r: u64) {
        let shift = Self::signif_bits() as u64;
        assert(1u64 << shift == 0x0010_0000_0000_0000u64) by (bit_vector)
            requires
                shift == 52u64,
        ;
        let r = (1u64 << shift) - 1;
        assert(r == Double::spec_signif_mask());
        r
    }

    fn exp_bias() -> (r: i16) {
        let shift = (Self::exp_bits() - 1) as u16;
        assert(1u16 << shift == 0x400u16) by (bit_vector)
            requires
                shift == 10u16,
        ;
        proof {
            lemma2_to64();
            lemma2_to64_rest();
        }
        assert(bias_of(Self::exp_width()) == 1023);
        let bias: u16 = (1u16 << shift) - 1;
        assert(bias == 1023);
        let r = bias as i16;
        assert(r.int_value() == 1023);
        r
    }

    fn sign_bit(self) -> (r: bool) {
        let b = self.bits;
        let mask = Self::sign_mask();
        assert(mask == Double::spec_sign_mask());
        let r = !(b & mask).is_zero();
        assert(((b & mask) != 0) == ((b / 0x8000_0000_0000_0000u64) % 2 == 1)) by (bit_vector)
            requires
                mask == 0x8000_0000_0000_0000u64,
        ;
        proof {
            lemma2_to64();
            lemma2_to64_rest();
        }
        r
    }

    fn biased_exponent(self) -> (r: u16) {
        let b = self.bits;
        let mask = Self::exp_mask();
        assert(mask == Double::spec_exp_mask());
        let shift = Self::signif_bits() as u64;
        let field = (b & mask) >> shift;
        assert(field == (b / 0x10_0000_0000_0000u64) % 0x800u64 && field <= 0x7ffu64) by (bit_vector)
            requires
                mask == 0x7ff0_0000_0000_0000u64,
                shift == 52u64,
                field == (b & mask) >> shift,
        ;
        proof {
            lemma2_to64();
            lemma2_to64_rest();
        }
        assert(pattern_of(self) == b as int);
        assert(Self::signif_width() == 52 && Self::exp_width() == 11);
        assert(pow2(52) == 0x10_0000_0000_0000 && pow2(11) == 0x800);
        let r = narrow_u64_to_u16(field);
        assert(r.int_value() == r as int);
        r
    }

    fn exponent(self) -> (r: i16) {
        proof {
            lemma2_to64();
            lemma2_to64_rest();
        }
        let field = self.biased_exponent();
        assert(field.int_value() == field as int);
        assert(pow2(Self::exp_width()) == 0x800);
        assert(field < 0x800);
        let biased = convert_u16_to_i16(field);
        let bias = Self::exp_bias();
        assert(bias_of(Self::exp_width()) == 1023);
        assert(bias == 1023);
        let r = biased.wrapping_sub(bias);
        assert(r.int_value() == r as int);
        r
    }

    fn stored_significand(self) -> (r: u64) {
        let b = self.bits;
        assert(b & 0x000f_ffff_ffff_ffffu64 == b % 0x10_0000_0000_0000u64) by (bit_vector);
        proof {
            lemma2_to64();
            lemma2_to64_rest();
        }
        assert(self.spec_to_bits() == b);
        assert(b.int_value() == b as int);
        assert(pattern_of(self) == b as int);
        assert(pow2(Self::signif_width()) == 0x10_0000_0000_0000);
        let mask = Self::signif_mask();
        assert(mask == Double::spec_signif_mask());
        b & mask
    }

    fn significand(self) -> (r: u64) {
        let one = u64::one();
        let shift = Self::signif_bits() as u64;
        let implicit = one << shift;
        assert(implicit == 0x0010_0000_0000_0000u64) by (bit_vector)
            requires
                one == 1u64,
                shift == 52u64,
                implicit == one << shift,
        ;
        proof {
            lemma2_to64();
            lemma2_to64_rest();
        }
        self.stored_significand() + implicit
    }
}

} // verus!
