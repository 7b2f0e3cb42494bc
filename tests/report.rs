use float_bits::{AsBits, Double, Float, Single};

#[test]
fn explain_single_minus_one() {
    let x = Single::from_bits((-1.0_f32).to_bits());
    let expected = String::new()
        + "bits: 10111111100000000000000000000000\n"
        + "      \u{b1}^^^^^^^^_______________________\n"
        + "sign: -\n"
        + "exponent = 127 - 127 = 0\n"
        + "significand = 2^23 + 0 = 8388608\n";
    assert_eq!(x.explain(), expected);
}

#[test]
fn explain_single_small_value() {
    let x = Single::from_bits(0.032_f32.to_bits());
    let text = x.explain();
    let lines: Vec<&str> = text.lines().collect();
    assert_eq!(lines.len(), 5);
    assert_eq!(lines[0], "bits: 00111101000000110001001001101111");
    assert_eq!(lines[2], "sign: +");
    assert_eq!(lines[3], "exponent = 122 - 127 = -5");
    assert_eq!(lines[4], "significand = 2^23 + 201327 = 8589935");
}

#[test]
fn explain_double_zero() {
    let x = Double::from_bits(0);
    let text = x.explain();
    let lines: Vec<&str> = text.lines().collect();
    assert_eq!(lines[0], format!("bits: {}", "0".repeat(64)));
    assert_eq!(lines[1], format!("      \u{b1}{}{}", "^".repeat(11), "_".repeat(52)));
    assert_eq!(lines[3], "exponent = 0 - 1023 = -1023");
    assert_eq!(lines[4], "significand = 2^52 + 0 = 4503599627370496");
}
