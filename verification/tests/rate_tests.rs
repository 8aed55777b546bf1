use dao_vault::errors::ErrorCode;
use dao_vault::rate::{Rate, BIPS_SCALER, PERCENT_SCALER, WAD};

#[test]
fn rate_zero_and_one() {
    assert_eq!(Rate::zero().to_scaled_val(), 0);
    assert_eq!(Rate::one().to_scaled_val(), 1_000_000_000_000_000_000);
    assert_eq!(Rate::one().to_scaled_val(), WAD as u128);
}

#[test]
fn rate_from_percent_scales_by_ten_to_the_sixteen() {
    assert_eq!(Rate::from_percent(0).to_scaled_val(), 0);
    assert_eq!(Rate::from_percent(1).to_scaled_val(), PERCENT_SCALER as u128);
    assert_eq!(Rate::from_percent(59).to_scaled_val(), 590_000_000_000_000_000);
    assert_eq!(Rate::from_percent(100), Rate::one());
    assert_eq!(Rate::from_percent(255).to_scaled_val(), 2_550_000_000_000_000_000);
}

#[test]
fn rate_from_bips_scales_by_ten_to_the_fourteen() {
    assert_eq!(Rate::from_bips(1).to_scaled_val(), BIPS_SCALER as u128);
    assert_eq!(Rate::from_bips(10_000), Rate::one());
    assert_eq!(Rate::from_bips(65_535).to_scaled_val(), 6_553_500_000_000_000_000);
}

#[test]
fn rate_from_scaled_val_keeps_the_value() {
    assert_eq!(Rate::from_scaled_val(123_456).to_scaled_val(), 123_456);
    assert_eq!(Rate::from_scaled_val(u64::MAX).to_scaled_val(), u64::MAX as u128);
}

#[test]
fn rate_try_add_adds_scaled_values() {
    let sum = Rate::from_percent(40).try_add(Rate::from_percent(60));
    assert_eq!(sum, Ok(Rate::one()));
    let sum = Rate::from_scaled_val(7).try_add(Rate::from_scaled_val(5));
    assert_eq!(sum, Ok(Rate { scaled_val: 12 }));
}

#[test]
fn rate_try_add_overflow_is_an_error() {
    let big = Rate { scaled_val: u128::MAX };
    assert_eq!(big.try_add(Rate { scaled_val: 1 }), Err(ErrorCode::OverflowError));
    assert_eq!(big.try_add(Rate::zero()), Ok(big));
}

#[test]
fn rate_default_is_zero() {
    assert_eq!(Rate::default(), Rate::zero());
}

#[test]
fn rates_are_ordered_by_value() {
    assert!(Rate::from_percent(58) < Rate::from_percent(59));
    assert!(Rate::from_percent(59) <= Rate::from_percent(59));
    assert!(Rate::from_percent(60) > Rate::from_percent(59));
    assert!(Rate::one() >= Rate::from_bips(10_000));
    assert!(!(Rate::one() < Rate::zero()));
    assert!(Rate { scaled_val: u128::MAX } > Rate::from_percent(255));
    assert_eq!(Rate::zero().partial_cmp(&Rate::one()), Some(std::cmp::Ordering::Less));
    assert_eq!(Rate::one().partial_cmp(&Rate::one()), Some(std::cmp::Ordering::Equal));
    assert_eq!(Rate::one().partial_cmp(&Rate::zero()), Some(std::cmp::Ordering::Greater));
}
