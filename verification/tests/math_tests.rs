use dao_vault::errors::ErrorCode;
use dao_vault::math::{
    calc_carry_fees, calc_mgmt_fees, calc_reserve_to_lp, ONE_AS_BPS, SLOTS_PER_YEAR,
};

#[test]
fn math_constants() {
    assert_eq!(ONE_AS_BPS, 10_000);
    assert_eq!(SLOTS_PER_YEAR, 63_072_000);
}

#[test]
fn carry_fee_is_basis_points_of_the_profit() {
    assert_eq!(calc_carry_fees(1_000_000, 1_000), Ok(100_000));
    assert_eq!(calc_carry_fees(1_000_000, 10_000), Ok(1_000_000));
    assert_eq!(calc_carry_fees(1_000_000, 0), Ok(0));
    assert_eq!(calc_carry_fees(0, 1_000), Ok(0));
}

#[test]
fn carry_fee_rounds_down() {
    assert_eq!(calc_carry_fees(9_999, 1), Ok(0));
    assert_eq!(calc_carry_fees(10_000, 1), Ok(1));
    assert_eq!(calc_carry_fees(19_999, 1), Ok(1));
    assert_eq!(calc_carry_fees(3, 5_000), Ok(1));
}

#[test]
fn carry_fee_scales_with_the_profit() {
    let fee = calc_carry_fees(40_000, 250).unwrap();
    assert_eq!(fee, 1_000);
    assert_eq!(calc_carry_fees(3 * 40_000, 250), Ok(3 * fee));
    assert_eq!(calc_carry_fees(1_000 * 40_000, 250), Ok(1_000 * fee));
}

#[test]
fn carry_fee_survives_a_product_beyond_64_bits() {
    assert_eq!(calc_carry_fees(u64::MAX, 10_000), Ok(u64::MAX));
    assert_eq!(calc_carry_fees(u64::MAX, 5_000), Ok(u64::MAX / 2));
}

#[test]
fn carry_fee_that_does_not_fit_is_an_overflow() {
    assert_eq!(calc_carry_fees(u64::MAX, 10_001), Err(ErrorCode::OverflowError));
    assert_eq!(calc_carry_fees(u64::MAX, u64::MAX), Err(ErrorCode::OverflowError));
}

#[test]
fn mgmt_fee_for_a_year_is_basis_points_of_the_value() {
    assert_eq!(calc_mgmt_fees(1_000_000_000, 200, 63_072_000), Ok(20_000_000));
    assert_eq!(calc_mgmt_fees(1_000_000_000, 10_000, 63_072_000), Ok(1_000_000_000));
}

#[test]
fn mgmt_fee_scales_with_time_and_value() {
    assert_eq!(calc_mgmt_fees(1_000_000_000, 200, 31_536_000), Ok(10_000_000));
    assert_eq!(calc_mgmt_fees(1_000_000_000, 200, 2 * 63_072_000), Ok(40_000_000));
    assert_eq!(calc_mgmt_fees(5_000_000_000, 200, 63_072_000), Ok(100_000_000));
    assert_eq!(calc_mgmt_fees(630_720_000_000, 1, 1), Ok(1));
    assert_eq!(calc_mgmt_fees(630_720_000_000, 1, 7), Ok(7));
    assert_eq!(calc_mgmt_fees(7 * 630_720_000_000, 1, 1), Ok(7));
}

#[test]
fn mgmt_fee_rounds_down() {
    assert_eq!(calc_mgmt_fees(630_719_999_999, 1, 1), Ok(0));
    assert_eq!(calc_mgmt_fees(1_261_439_999_999, 1, 1), Ok(1));
}

#[test]
fn mgmt_fee_is_zero_without_time_or_value_or_rate() {
    assert_eq!(calc_mgmt_fees(u64::MAX, u64::MAX, 0), Ok(0));
    assert_eq!(calc_mgmt_fees(0, u64::MAX, u64::MAX), Ok(0));
    assert_eq!(calc_mgmt_fees(u64::MAX, 0, u64::MAX), Ok(0));
}

#[test]
fn mgmt_fee_at_the_edge_of_64_bits() {
    assert_eq!(calc_mgmt_fees(u64::MAX, 10_000, 63_072_000), Ok(u64::MAX));
    assert_eq!(
        calc_mgmt_fees(u64::MAX, 10_000, 63_072_001),
        Err(ErrorCode::OverflowError)
    );
}

#[test]
fn mgmt_fee_that_does_not_fit_is_an_overflow() {
    assert_eq!(
        calc_mgmt_fees(u64::MAX, u64::MAX, u64::MAX),
        Err(ErrorCode::OverflowError)
    );
    assert_eq!(
        calc_mgmt_fees(u64::MAX, u64::MAX, 2),
        Err(ErrorCode::OverflowError)
    );
}

#[test]
fn first_deposit_mints_one_for_one() {
    assert_eq!(calc_reserve_to_lp(100, 0, 0), Some(100));
    assert_eq!(calc_reserve_to_lp(u64::MAX, 5, 0), Some(u64::MAX));
    assert_eq!(calc_reserve_to_lp(0, 0, 0), Some(0));
}

#[test]
fn later_deposits_mint_pro_rata_rounded_down() {
    assert_eq!(calc_reserve_to_lp(100, 50, 200), Some(25));
    assert_eq!(calc_reserve_to_lp(3, 10, 4), Some(7));
    assert_eq!(calc_reserve_to_lp(1, 1, 2), Some(0));
    assert_eq!(calc_reserve_to_lp(u64::MAX, u64::MAX, u64::MAX), Some(u64::MAX));
}

#[test]
fn claim_tokens_that_do_not_fit_are_none() {
    assert_eq!(calc_reserve_to_lp(u64::MAX, u64::MAX, 1), None);
    assert_eq!(calc_reserve_to_lp(u64::MAX, 2, 1), None);
}
