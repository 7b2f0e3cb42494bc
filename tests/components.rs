use float_bits::{AsBits, Bits, Double, Float, Single};

fn single(x: f32) -> Single {
    Single::from_bits(x.to_bits())
}

fn double(x: f64) -> Double {
    Double::from_bits(x.to_bits())
}

#[test]
fn f32_components() {
    let x = single(0.032_f32);
    assert_eq!(x.components(), (false, -5, 8589935));
}

#[test]
fn f64_components() {
    let x = double(0.032_f64);
    assert_eq!(x.components(), (false, -5, 4611686018427388));
}

#[test]
fn single_minus_one() {
    let x = single(-1.0_f32);
    assert!(x.sign_bit());
    assert_eq!(x.biased_exponent(), 127);
    assert_eq!(x.exponent(), 0);
    assert_eq!(x.stored_significand(), 0);
    assert_eq!(x.significand(), 1u32 << 23);
}

#[test]
fn single_zero_keeps_implicit_bit() {
    let x = single(0.0_f32);
    assert_eq!(x.biased_exponent(), 0);
    assert_eq!(x.stored_significand(), 0);
    assert_eq!(x.significand(), 1u32 << 23);
    assert_eq!(x.exponent(), -127);
    assert!(!x.sign_bit());
}

#[test]
fn single_negative_zero_sign() {
    let x = single(-0.0_f32);
    assert!(x.sign_bit());
    assert_eq!(x.raw_components(), (true, 0, 0));
}

#[test]
fn double_minus_two() {
    let x = double(-2.0_f64);
    assert!(x.sign_bit());
    assert_eq!(x.biased_exponent(), 1024);
    assert_eq!(x.exponent(), 1);
    assert_eq!(x.stored_significand(), 0);
    assert_eq!(x.significand(), 1u64 << 52);
}

#[test]
fn single_raw_components() {
    let x = single(0.032_f32);
    assert_eq!(x.raw_components(), (false, 122, 201327));
    assert_eq!(x.fraction(), 201327);
}

#[test]
fn double_raw_components() {
    let x = double(0.032_f64);
    assert_eq!(x.raw_components(), (false, 1018, 108086391056892));
    assert_eq!(x.fraction(), 108086391056892);
}

#[test]
fn special_patterns_are_decomposed_uniformly() {
    let inf = single(f32::INFINITY);
    assert_eq!(inf.raw_components(), (false, 255, 0));
    assert_eq!(inf.exponent(), 128);
    let nan = Single::from_bits(0x7fc0_0001);
    assert_eq!(nan.raw_components(), (false, 255, 0x40_0001));
    let sub = Double::from_bits(1);
    assert_eq!(sub.components(), (false, -1023, (1u64 << 52) + 1));
    let ninf = double(f64::NEG_INFINITY);
    assert_eq!(ninf.components(), (true, 1024, 1u64 << 52));
}

#[test]
fn largest_patterns() {
    let x = Single::from_bits(u32::MAX);
    assert_eq!(x.raw_components(), (true, 255, (1u32 << 23) - 1));
    assert_eq!(x.significand(), (1u32 << 24) - 1);
    let y = Double::from_bits(u64::MAX);
    assert_eq!(y.raw_components(), (true, 2047, (1u64 << 52) - 1));
    assert_eq!(y.exponent(), 1024);
}

#[test]
fn round_trip_of_patterns() {
    for b in [0u32, 1, 0x7f80_0000, 0x7fc0_0001, 0x8000_0000, 0x3d03_126f, u32::MAX] {
        assert_eq!(Single::from_bits(b).to_bits(), b);
        assert_eq!(f32::from_bits(Single::from_bits(b).to_bits()).to_bits(), b);
    }
    for b in [0u64, 1, 0x7ff0_0000_0000_0000, 0x7ff8_0000_0000_0001, u64::MAX] {
        assert_eq!(Double::from_bits(b).to_bits(), b);
        assert_eq!(f64::from_bits(Double::from_bits(b).to_bits()).to_bits(), b);
    }
}

#[test]
fn mask_partition() {
    let (s, e, f) = (Single::sign_mask(), Single::exp_mask(), Single::signif_mask());
    assert_eq!((s & e, s & f, e & f), (0, 0, 0));
    assert_eq!(s | e | f, u32::MAX);
    assert_eq!((s, e, f), (0x8000_0000, 0x7f80_0000, 0x007f_ffff));
    let (s, e, f) = (Double::sign_mask(), Double::exp_mask(), Double::signif_mask());
    assert_eq!((s & e, s & f, e & f), (0, 0, 0));
    assert_eq!(s | e | f, u64::MAX);
}

#[test]
fn width_identity() {
    assert_eq!(Single::bits(), 32);
    assert_eq!(1 + Single::exp_bits() + Single::signif_bits(), Single::bits());
    assert_eq!(Double::bits(), 64);
    assert_eq!(1 + Double::exp_bits() + Double::signif_bits(), Double::bits());
    assert_eq!(<u32 as Bits>::bits(), 32);
    assert_eq!(<u64 as Bits>::bits(), 64);
}

#[test]
fn bias_formula() {
    assert_eq!(Single::exp_bias(), 127);
    assert_eq!(Double::exp_bias(), 1023);
    assert_eq!(Single::exp_bias(), (1 << (Single::exp_bits() - 1)) - 1);
    assert_eq!(Double::exp_bias(), (1 << (Double::exp_bits() - 1)) - 1);
}

#[test]
fn derived_values_compose() {
    for x in [1.5_f32, 0.032, -3.75, 1.0e10, 6.1e-5] {
        let v = single(x);
        assert_eq!(v.significand(), v.stored_significand() + (1 << 23));
        assert_eq!(v.exponent(), (v.biased_exponent() as i16).wrapping_sub(127));
    }
    for x in [1.5_f64, 0.032, -3.75, 1.0e300, 6.1e-200] {
        let v = double(x);
        assert_eq!(v.significand(), v.stored_significand() + (1 << 52));
        assert_eq!(v.exponent(), (v.biased_exponent() as i16).wrapping_sub(1023));
    }
}

#[test]
fn bits_helpers() {
    assert!(<u32 as Bits>::zero().is_zero());
    assert!(!<u64 as Bits>::one().is_zero());
    assert_eq!(<u64 as Bits>::one(), 1);
    assert_eq!(0xdead_beefu32.to_u64(), 0xdead_beef);
}
