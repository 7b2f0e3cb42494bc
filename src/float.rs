use crate::bits::{Bits, IntValue};
use crate::text::{append_binary, append_int, append_repeat, binary_text, int_text, repeat_text};
use vstd::arithmetic::power2::pow2;
use vstd::prelude::*;
use vstd::string::*;

verus! {

/// The sign bit of a pattern: the bit just above the exponent field.
pub open spec fn sign_of(pattern: int, exp_width: nat, signif_width: nat) -> bool {
    (pattern / (pow2(exp_width + signif_width) as int)) % 2 == 1
}

/// The biased exponent of a pattern: the `exp_width` bits above the
/// significand field.
pub open spec fn biased_exponent_of(pattern: int, exp_width: nat, signif_width: nat) -> int {
    (pattern / (pow2(signif_width) as int)) % (pow2(exp_width) as int)
}

/// The stored significand of a pattern: its `signif_width` lowest bits.
pub open spec fn stored_significand_of(pattern: int, signif_width: nat) -> int {
    pattern % (pow2(signif_width) as int)
}

/// The exponent bias of a format with an exponent field of `exp_width` bits.
pub open spec fn bias_of(exp_width: nat) -> int {
    pow2((exp_width - 1) as nat) - 1
}

/// Types that have a raw bit representation.
pub trait AsBits: Sized + Copy {
    /// Type for the bit representation of `Self`.
    type Bits: Bits;

    /// The bit pattern of a value.
    spec fn spec_to_bits(self) -> Self::Bits;

    /// The value of a bit pattern.
    spec fn spec_from_bits(b: Self::Bits) -> Self;

    /// Convert to the underlying bit representation.
    fn to_bits(self) -> (r: Self::Bits)
        ensures
            r == self.spec_to_bits(),
    ;

    /// Convert from the underlying bit representation.
    fn from_bits(b: Self::Bits) -> (r: Self)
        ensures
            r == Self::spec_from_bits(b),
    ;

    /// Every pattern read back from the value it makes is the same pattern.
    proof fn lemma_to_bits_from_bits(b: Self::Bits)
        ensures
            Self::spec_from_bits(b).spec_to_bits() == b,
    ;

    /// Every value rebuilt from its own pattern is the same value.
    proof fn lemma_from_bits_to_bits(v: Self)
        ensures
            Self::spec_from_bits(v.spec_to_bits()) == v,
    ;
}

/// The bit pattern of `v` as a number.
pub open spec fn pattern_of<F: AsBits>(v: F) -> int {
    v.spec_to_bits().int_value()
}

/// The text report of the pattern `p` of a format of `width` bits, with
/// `e` exponent bits and `s` significand bits: the pattern, a ruler under the sign,
/// exponent and significand fields, the sign, and the two derivations
/// `biased - bias = exponent` and `2^signif_width + stored = significand`.
pub open spec fn report_of(p: int, width: nat, e: nat, s: nat) -> Seq<char> {
    let biased = biased_exponent_of(p, e, s);
    let stored = stored_significand_of(p, s);
    "bits: "@ + binary_text(p as nat, width) + "\n"@
        + "      \u{b1}"@ + repeat_text('^', e) + repeat_text('_', s) + "\n"@
        + "sign: "@ + (if sign_of(p, e, s) { "-"@ } else { "+"@ }) + "\n"@
        + "exponent = "@ + int_text(biased) + " - "@ + int_text(bias_of(e)) + " = "@
        + int_text(biased - bias_of(e)) + "\n"@
        + "significand = 2^"@ + int_text(s as int) + " + "@ + int_text(stored) + " = "@
        + int_text(stored + pow2(s)) + "\n"@
}

/// Types that represent a binary floating-point number.
pub trait Float: AsBits {
    /// Type for the biased exponent.
    type BiasedExponent: IntValue;
    /// Type for the true (unbiased) signed exponent.
    type Exponent: IntValue;
    /// Type for the significand, both with and without implicit bit.
    type Significand: IntValue;

    /// The number of bits of the exponent field.
    spec fn exp_width() -> nat;

    /// The number of bits of the stored significand (no implicit bit).
    spec fn signif_width() -> nat;

    /// The mask of the sign bit.
    spec fn spec_sign_mask() -> Self::Bits;

    /// The mask of the biased exponent bits.
    spec fn spec_exp_mask() -> Self::Bits;

    /// The mask of the stored significand bits.
    spec fn spec_signif_mask() -> Self::Bits;

    /// The layout of the format: the sign bit, the exponent field and the
    /// significand field fill the pattern, and each mask covers its field.
    proof fn lemma_layout()
        ensures
            Self::Bits::width() == 1 + Self::exp_width() + Self::signif_width(),
            Self::exp_width() >= 2,
            Self::spec_sign_mask().int_value() == pow2(Self::exp_width() + Self::signif_width()),
            Self::spec_exp_mask().int_value() == (pow2(Self::exp_width()) - 1) * pow2(
                Self::signif_width(),
            ),
            Self::spec_signif_mask().int_value() == pow2(Self::signif_width()) - 1,
    ;

    /// The three masks are pairwise disjoint and together cover every bit
    /// of the pattern.
    proof fn lemma_masks_partition()
        ensures
            Self::spec_sign_mask().spec_and(Self::spec_exp_mask()).int_value() == 0,
            Self::spec_sign_mask().spec_and(Self::spec_signif_mask()).int_value() == 0,
            Self::spec_exp_mask().spec_and(Self::spec_signif_mask()).int_value() == 0,
            Self::spec_sign_mask().spec_or(Self::spec_exp_mask()).spec_or(
                Self::spec_signif_mask(),
            ).int_value() == pow2(Self::Bits::width()) - 1,
    ;

    /// The number of bits.
    fn bits() -> (r: u16)
        ensures
            r as nat == Self::Bits::width(),
    {
        Self::Bits::bits()
    }

    /// The number of bits of the exponent.
    fn exp_bits() -> (r: u16)
        ensures
            r as nat == Self::exp_width(),
    ;

    /// The number of bits of the stored significand (not counting the implicit bit).
    fn signif_bits() -> (r: u16)
        ensures
            r as nat == Self::signif_width(),
    ;

    /// The mask for the sign bit.
    fn sign_mask() -> (r: Self::Bits)
        ensures
            r == Self::spec_sign_mask(),
    ;

    /// The mask for the biased exponent bits.
    fn exp_mask() -> (r: Self::Bits)
        ensures
            r == Self::spec_exp_mask(),
    ;

    /// The mask for the stored significand bits (no implicit bit).
    fn signif_mask() -> (r: Self::Bits)
        ensures
            r == Self::spec_signif_mask(),
    ;

    /// The exponent bias, `2^(exp_width - 1) - 1`.
    fn exp_bias() -> (r: Self::Exponent)
        ensures
            r.int_value() == bias_of(Self::exp_width()),
    ;

    /// Whether the sign bit is set.
    fn sign_bit(self) -> (r: bool)
        ensures
            r == sign_of(pattern_of(self), Self::exp_width(), Self::signif_width()),
    ;

    /// The exponent field as stored.
    fn biased_exponent(self) -> (r: Self::BiasedExponent)
        ensures
            r.int_value() == biased_exponent_of(
                pattern_of(self),
                Self::exp_width(),
                Self::signif_width(),
            ),
    ;

    /// The biased exponent minus the bias, for every pattern (zero,
    /// subnormal, infinite and NaN patterns included).
    fn exponent(self) -> (r: Self::Exponent)
        ensures
            r.int_value() == biased_exponent_of(
                pattern_of(self),
                Self::exp_width(),
                Self::signif_width(),
            ) - bias_of(Self::exp_width()),
    ;

    /// The significand bits as stored, without the implicit bit.
    fn stored_significand(self) -> (r: Self::Significand)
        ensures
            r.int_value() == stored_significand_of(pattern_of(self), Self::signif_width()),
    ;

    /// The stored significand plus the implicit bit `2^signif_width`.
    ///
    /// The implicit bit is added for every pattern, also for zero and
    /// subnormal patterns, where it does not belong to the value.
    fn significand(self) -> (r: Self::Significand)
        ensures
            r.int_value() == stored_significand_of(pattern_of(self), Self::signif_width()) + pow2(
                Self::signif_width(),
            ),
    ;

    /// The stored significand.
    fn fraction(self) -> (r: Self::Significand)
        ensures
            r.int_value() == stored_significand_of(pattern_of(self), Self::signif_width()),
    {
        self.stored_significand()
    }

    /// The sign bit, the biased exponent and the stored significand.
    fn raw_components(self) -> (r: (bool, Self::BiasedExponent, Self::Significand))
        ensures
            r.0 == sign_of(pattern_of(self), Self::exp_width(), Self::signif_width()),
            r.1.int_value() == biased_exponent_of(
                pattern_of(self),
                Self::exp_width(),
                Self::signif_width(),
            ),
            r.2.int_value() == stored_significand_of(pattern_of(self), Self::signif_width()),
    {
        (self.sign_bit(), self.biased_exponent(), self.stored_significand())
    }

    /// The sign bit, the unbiased exponent and the significand with its
    /// implicit bit.
    fn components(self) -> (r: (bool, Self::Exponent, Self::Significand))
        ensures
            r.0 == sign_of(pattern_of(self), Self::exp_width(), Self::signif_width()),
            r.1.int_value() == biased_exponent_of(
                pattern_of(self),
                Self::exp_width(),
                Self::signif_width(),
            ) - bias_of(Self::exp_width()),
            r.2.int_value() == stored_significand_of(pattern_of(self), Self::signif_width())
                + pow2(Self::signif_width()),
    {
        (self.sign_bit(), self.exponent(), self.significand())
    }

    /// The text report of the decomposition (see `report_of`), one line
    /// each for the bit pattern, the field ruler, the sign, the exponent
    /// and the significand.
    fn explain(self) -> (r: String)
        ensures
            r@ == report_of(
                pattern_of(self),
                Self::Bits::width(),
                Self::exp_width(),
                Self::signif_width(),
            ),
    {
        proof {
            reveal_strlit("^");
            reveal_strlit("_");
            self.spec_to_bits().lemma_range();
        }
        let mut r = String::new();
        r.append("bits: ");
        append_binary(&mut r, self.to_bits().to_u64(), Self::bits());
        r.append("\n");
        r.append("      \u{b1}");
        append_repeat(&mut r, "^", Self::exp_bits());
        append_repeat(&mut r, "_", Self::signif_bits());
        r.append("\n");
        r.append("sign: ");
        if self.sign_bit() {
            r.append("-");
        } else {
            r.append("+");
        }
        r.append("\n");
        r.append("exponent = ");
        append_int(&mut r, self.biased_exponent().to_i128());
        r.append(" - ");
        append_int(&mut r, Self::exp_bias().to_i128());
        r.append(" = ");
        append_int(&mut r, self.exponent().to_i128());
        r.append("\n");
        r.append("significand = 2^");
        append_int(&mut r, Self::signif_bits() as i128);
        r.append(" + ");
        append_int(&mut r, self.stored_significand().to_i128());
        r.append(" = ");
        append_int(&mut r, self.significand().to_i128());
        r.append("\n");
        assert(r@ =~= report_of(
            pattern_of(self),
            Self::Bits::width(),
            Self::exp_width(),
            Self::signif_width(),
        ));
        r
    }
}

} // verus!
