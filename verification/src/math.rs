//! The money arithmetic of the vault: fees and the pro-rata share of a
//! deposit. Every result is the exact quotient, rounded down; a result that
//! does not fit in 64 bits is an error, never a wrapped number.

use vstd::prelude::*;
use vstd::arithmetic::div_mod::{
    lemma_div_denominator,
    lemma_div_is_ordered,
    lemma_fundamental_div_mod,
    lemma_hoist_over_denominator,
};
use vstd::arithmetic::mul::lemma_mul_is_associative;
use crate::errors::ErrorCode;

verus! {

/// The number of basis points in one.
pub const ONE_AS_BPS: u64 = 10000;

/// The number of slots that the management fee takes for a year.
pub const SLOTS_PER_YEAR: u64 = 63_072_000;

/// The fee on a profit: `fee_bps` basis points of it, rounded down.
pub open spec fn carry_fee(profit: nat, fee_bps: nat) -> nat {
    profit * fee_bps / (ONE_AS_BPS as nat)
}

/// The fee on assets under management: `fee_bps` basis points a year,
/// for the part of a year that `slots_elapsed` slots make, rounded down.
pub open spec fn mgmt_fee(aum: nat, fee_bps: nat, slots_elapsed: nat) -> nat {
    aum * fee_bps * slots_elapsed / (ONE_AS_BPS as nat * SLOTS_PER_YEAR as nat)
}

/// The claim tokens owed for a deposit: one for one while the vault holds
/// nothing, else the deposit's share of the supply, rounded down.
pub open spec fn reserve_to_lp(
    reserve_token_amount: nat,
    lp_token_supply: nat,
    reserve_tokens_in_vault: nat,
) -> nat {
    if reserve_tokens_in_vault == 0 {
        reserve_token_amount
    } else {
        lp_token_supply * reserve_token_amount / reserve_tokens_in_vault
    }
}

/// The product of two 64-bit numbers fits in 128 bits.
pub proof fn lemma_product_fits(a: u64, b: u64)
    ensures
        a * b <= u128::MAX,
        0 <= a * b,
{
    assert(a * b <= 0xffff_ffff_ffff_ffff * 0xffff_ffff_ffff_ffff) by (nonlinear_arith)
        requires
            0 <= a <= 0xffff_ffff_ffff_ffff,
            0 <= b <= 0xffff_ffff_ffff_ffff,
    ;
    assert(0 <= a * b) by (nonlinear_arith)
        requires
            0 <= a,
            0 <= b,
    ;
}

/// The performance fee on `profit`, or `OverflowError` where it does not fit
/// in 64 bits.
pub fn calc_carry_fees(profit: u64, fee_bps: u64) -> (r: Result<u64, ErrorCode>)
    ensures
        carry_fee(profit as nat, fee_bps as nat) <= u64::MAX ==> r is Ok && r->Ok_0 == carry_fee(
            profit as nat,
            fee_bps as nat,
        ),
        carry_fee(profit as nat, fee_bps as nat) > u64::MAX ==> r is Err && r->Err_0
            == ErrorCode::OverflowError,
{
    proof {
        lemma_product_fits(profit, fee_bps);
    }
    let product: u128 = (profit as u128) * (fee_bps as u128);
    let fee: u128 = product / (ONE_AS_BPS as u128);
    if fee > u64::MAX as u128 {
        Err(ErrorCode::OverflowError)
    } else {
        Ok(fee as u64)
    }
}

/// The management fee on `aum` for `slots_elapsed` slots, or `OverflowError`
/// where it does not fit in 64 bits.
pub fn calc_mgmt_fees(aum: u64, fee_bps: u64, slots_elapsed: u64) -> (r: Result<u64, ErrorCode>)
    ensures
        mgmt_fee(aum as nat, fee_bps as nat, slots_elapsed as nat) <= u64::MAX ==> r is Ok
            && r->Ok_0 == mgmt_fee(aum as nat, fee_bps as nat, slots_elapsed as nat),
        mgmt_fee(aum as nat, fee_bps as nat, slots_elapsed as nat) > u64::MAX ==> r is Err
            && r->Err_0 == ErrorCode::OverflowError,
{
    proof {
        lemma_product_fits(aum, fee_bps);
    }
    let yearly: u128 = (aum as u128) * (fee_bps as u128);
    let ghost exact: int = yearly * slots_elapsed;
    let ghost per_year: int = ONE_AS_BPS as int * SLOTS_PER_YEAR as int;
    proof {
        assert(0 <= exact) by (nonlinear_arith)
            requires
                exact == yearly * slots_elapsed,
                0 <= yearly,
                0 <= slots_elapsed,
        ;
        assert(per_year == 630_720_000_000);
    }
    match yearly.checked_mul(slots_elapsed as u128) {
        None => {
            proof {
                lemma_div_is_ordered(u128::MAX + 1, exact, per_year);
                assert((u128::MAX + 1) / 630_720_000_000int > u64::MAX);
            }
            Err(ErrorCode::OverflowError)
        },
        Some(product) => {
            proof {
                lemma_div_denominator(exact, ONE_AS_BPS as int, SLOTS_PER_YEAR as int);
            }
            let fee: u128 = product / (ONE_AS_BPS as u128) / (SLOTS_PER_YEAR as u128);
            if fee > u64::MAX as u128 {
                Err(ErrorCode::OverflowError)
            } else {
                Ok(fee as u64)
            }
        },
    }
}

/// The claim tokens to mint for a deposit of `reserve_token_amount`, or
/// `None` where their number does not fit in 64 bits.
pub fn calc_reserve_to_lp(
    reserve_token_amount: u64,
    lp_token_supply: u64,
    reserve_tokens_in_vault: u64,
) -> (r: Option<u64>)
    ensures
        reserve_to_lp(
            reserve_token_amount as nat,
            lp_token_supply as nat,
            reserve_tokens_in_vault as nat,
        ) <= u64::MAX ==> r == Some(
            reserve_to_lp(
                reserve_token_amount as nat,
                lp_token_supply as nat,
                reserve_tokens_in_vault as nat,
            ) as u64,
        ),
        reserve_to_lp(
            reserve_token_amount as nat,
            lp_token_supply as nat,
            reserve_tokens_in_vault as nat,
        ) > u64::MAX ==> r is None,
{
    if reserve_tokens_in_vault == 0 {
        Some(reserve_token_amount)
    } else {
        proof {
            lemma_product_fits(lp_token_supply, reserve_token_amount);
        }
        let product: u128 = (lp_token_supply as u128) * (reserve_token_amount as u128);
        let tokens: u128 = product / (reserve_tokens_in_vault as u128);
        if tokens > u64::MAX as u128 {
            None
        } else {
            Some(tokens as u64)
        }
    }
}

/// Rounding down a multiple: `k` times a quotient that was rounded down is
/// at most the quotient of `k` times the number, and falls short of it by
/// less than `k`. Where the division leaves no remainder the two are equal.
pub proof fn lemma_floor_scales(x: nat, d: nat, k: nat)
    requires
        d > 0,
    ensures
        k * (x / d) <= (k * x) / d,
        k > 0 ==> (k * x) / d <= k * (x / d) + k - 1,
        x % d == 0 ==> (k * x) / d == k * (x / d),
{
    let q = (x / d) as int;
    let r = (x % d) as int;
    lemma_fundamental_div_mod(x as int, d as int);
    assert(k * x == d * (k * q) + k * r) by (nonlinear_arith)
        requires
            x == d * q + r,
    ;
    assert(0 <= k * r) by (nonlinear_arith)
        requires
            0 <= r,
    ;
    lemma_div_multiples_vanish_plus(k * q, k * r, d as int);
    assert((k * x) / d == k * q + (k * r) / (d as int));
    if k > 0 {
        assert(k * r <= k * d - k) by (nonlinear_arith)
            requires
                0 <= r <= d - 1,
                k > 0,
        ;
        assert((k * r) / (d as int) <= k - 1) by (nonlinear_arith)
            requires
                0 <= k * r <= k * d - k,
                d > 0,
                k > 0,
        ;
    }
    assert(0 <= (k * r) / (d as int)) by (nonlinear_arith)
        requires
            0 <= k * r,
            d > 0,
    ;
    if r == 0 {
        assert(k * r == 0) by (nonlinear_arith)
            requires
                r == 0,
        ;
    }
}

/// Adding a multiple of the divisor adds the multiplier to the quotient.
proof fn lemma_div_multiples_vanish_plus(m: int, rest: int, d: int)
    requires
        d > 0,
        0 <= rest,
    ensures
        (d * m + rest) / d == m + rest / d,
{
    lemma_hoist_over_denominator(rest, m, d as nat);
    assert(d * m + rest == rest + m * d) by (nonlinear_arith);
}

/// The performance fee grows in proportion to the profit, up to rounding:
/// on `k` times the profit it is at least `k` times the fee and less than
/// `k` more; where the fee on the profit is exact it is `k` times that fee.
pub proof fn lemma_carry_fee_scales_with_profit(profit: nat, fee_bps: nat, k: nat)
    ensures
        k * carry_fee(profit, fee_bps) <= carry_fee(k * profit, fee_bps),
        k > 0 ==> carry_fee(k * profit, fee_bps) <= k * carry_fee(profit, fee_bps) + k - 1,
        (profit * fee_bps) % (ONE_AS_BPS as nat) == 0 ==> carry_fee(k * profit, fee_bps) == k
            * carry_fee(profit, fee_bps),
{
    lemma_floor_scales(profit * fee_bps, ONE_AS_BPS as nat, k);
    lemma_mul_is_associative(k as int, profit as int, fee_bps as int);
}

/// The management fee grows in proportion to the value, up to rounding.
pub proof fn lemma_mgmt_fee_scales_with_value(aum: nat, fee_bps: nat, slots_elapsed: nat, k: nat)
    ensures
        k * mgmt_fee(aum, fee_bps, slots_elapsed) <= mgmt_fee(k * aum, fee_bps, slots_elapsed),
        k > 0 ==> mgmt_fee(k * aum, fee_bps, slots_elapsed) <= k * mgmt_fee(
            aum,
            fee_bps,
            slots_elapsed,
        ) + k - 1,
        (aum * fee_bps * slots_elapsed) % (ONE_AS_BPS as nat * SLOTS_PER_YEAR as nat) == 0
            ==> mgmt_fee(k * aum, fee_bps, slots_elapsed) == k * mgmt_fee(
            aum,
            fee_bps,
            slots_elapsed,
        ),
{
    lemma_floor_scales(aum * fee_bps * slots_elapsed, ONE_AS_BPS as nat * SLOTS_PER_YEAR as nat, k);
    assert((k * aum) * fee_bps * slots_elapsed == k * (aum * fee_bps * slots_elapsed))
        by (nonlinear_arith);
}

/// The management fee grows in proportion to the slots elapsed, up to
/// rounding.
pub proof fn lemma_mgmt_fee_scales_with_time(aum: nat, fee_bps: nat, slots_elapsed: nat, k: nat)
    ensures
        k * mgmt_fee(aum, fee_bps, slots_elapsed) <= mgmt_fee(aum, fee_bps, k * slots_elapsed),
        k > 0 ==> mgmt_fee(aum, fee_bps, k * slots_elapsed) <= k * mgmt_fee(
            aum,
            fee_bps,
            slots_elapsed,
        ) + k - 1,
        (aum * fee_bps * slots_elapsed) % (ONE_AS_BPS as nat * SLOTS_PER_YEAR as nat) == 0
            ==> mgmt_fee(aum, fee_bps, k * slots_elapsed) == k * mgmt_fee(
            aum,
            fee_bps,
            slots_elapsed,
        ),
{
    lemma_floor_scales(aum * fee_bps * slots_elapsed, ONE_AS_BPS as nat * SLOTS_PER_YEAR as nat, k);
    assert(aum * fee_bps * (k * slots_elapsed) == k * (aum * fee_bps * slots_elapsed))
        by (nonlinear_arith);
}

/// No profit bears no performance fee, and no time bears no management fee.
pub proof fn lemma_no_growth_no_time_no_fee(aum: nat, fee_bps: nat)
    ensures
        carry_fee(0, fee_bps) == 0,
        mgmt_fee(aum, fee_bps, 0) == 0,
{
    assert(0 * fee_bps == 0) by (nonlinear_arith);
    assert(aum * fee_bps * 0 == 0) by (nonlinear_arith);
}

} // verus!
