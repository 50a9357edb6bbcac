use arb_sampler::decimal::DecimalAmount;

#[test]
fn renders_fractional_amounts_without_trailing_zeros() {
    assert_eq!(DecimalAmount::new(40_000, 6).to_decimal_string(), "0.04");
    assert_eq!(DecimalAmount::new(100, 3).to_decimal_string(), "0.1");
    assert_eq!(DecimalAmount::new(1_230_000, 6).to_decimal_string(), "1.23");
}

#[test]
fn renders_full_precision_when_needed() {
    assert_eq!(DecimalAmount::new(1_234_567, 6).to_decimal_string(), "1.234567");
    assert_eq!(DecimalAmount::new(1, 6).to_decimal_string(), "0.000001");
}

#[test]
fn renders_whole_amounts_without_a_point() {
    assert_eq!(DecimalAmount::new(0, 6).to_decimal_string(), "0");
    assert_eq!(DecimalAmount::new(1_000_000, 6).to_decimal_string(), "1");
    assert_eq!(DecimalAmount::new(25_000_000, 6).to_decimal_string(), "25");
}

#[test]
fn renders_scale_zero_as_plain_integers() {
    assert_eq!(DecimalAmount::new(0, 0).to_decimal_string(), "0");
    assert_eq!(DecimalAmount::new(987, 0).to_decimal_string(), "987");
}

#[test]
fn renders_the_largest_scale() {
    let one = 100_000_000_000_000_000_000_000_000_000_000_000_000_u128;
    assert_eq!(DecimalAmount::new(one, 38).to_decimal_string(), "1");
    assert_eq!(DecimalAmount::new(3, 38).to_decimal_string(), "0.00000000000000000000000000000000000003");
}
