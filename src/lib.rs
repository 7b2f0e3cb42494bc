//! Bit-level decomposition of IEEE-754 binary32 and binary64 values.
//!
//! A value is held as its raw bit pattern; the library splits that pattern
//! into sign, biased exponent and stored significand, derives the unbiased
//! exponent and the significand with its implicit bit, and renders a short
//! textual report of the decomposition.
mod bits;
mod cast;
mod double;
mod float;
mod single;
mod text;

pub use bits::{Bits, IntValue};
pub use double::Double;
pub use float::{
    bias_of, biased_exponent_of, pattern_of, report_of, sign_of, stored_significand_of, AsBits,
    Float,
};
pub use single::Single;
pub use text::{binary_text, digit_char, int_text, nat_text, repeat_text};
