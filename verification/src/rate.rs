//! Exact fractions scaled by 10^18, for percentages, weights and exchange
//! rates. The arithmetic is done by the `solana_maths` crate; this module
//! states what each of its operations returns.

use vstd::prelude::*;
use vstd::std_specs::cmp::PartialOrdSpecImpl;
use core::cmp::Ordering;
use solana_program::program_error::ProgramError;
use solana_maths::TryAdd;
use crate::errors::ErrorCode;

verus! {

/// The scaled value of one.
pub const WAD: u64 = 1_000_000_000_000_000_000;

/// The scaled value of one percent.
pub const PERCENT_SCALER: u64 = 10_000_000_000_000_000;

/// The scaled value of one basis point.
pub const BIPS_SCALER: u64 = 100_000_000_000_000;

/// The error type of `solana_program`, which the arithmetic of `solana_maths`
/// returns. Nothing is known of a value of it.
#[verifier::external_type_specification]
#[verifier::external_body]
pub struct ExProgramError(ProgramError);

/// A fraction, held as its value times 10^18.
#[derive(Clone, Copy, Debug, PartialEq, Eq, Structural, Hash)]
pub struct Rate {
    pub scaled_val: u128,
}

impl View for Rate {
    type V = nat;

    /// The scaled value: the fraction times 10^18.
    open spec fn view(&self) -> nat {
        self.scaled_val as nat
    }
}

/// Calls `solana_maths::Rate::zero`. Trusted: the result is the fraction zero.
#[verifier::external_body]
fn maths_zero() -> (r: Rate)
    ensures
        r@ == 0,
{
    Rate { scaled_val: solana_maths::Rate::zero().to_scaled_val() }
}

/// Calls `solana_maths::Rate::one`. Trusted: the result is the fraction one,
/// whose scaled value is 10^18.
#[verifier::external_body]
fn maths_one() -> (r: Rate)
    ensures
        r@ == WAD,
{
    Rate { scaled_val: solana_maths::Rate::one().to_scaled_val() }
}

/// Calls `solana_maths::Rate::from_percent`. Trusted: the scaled value of the
/// result is the percentage times 10^16.
#[verifier::external_body]
fn maths_from_percent(percent: u8) -> (r: Rate)
    ensures
        r@ == percent * PERCENT_SCALER,
{
    Rate { scaled_val: solana_maths::Rate::from_percent(percent).to_scaled_val() }
}

/// Calls `solana_maths::Rate::from_bips`, which multiplies in `u64`. Trusted:
/// where that product fits, the scaled value of the result is the number of
/// basis points times 10^14.
#[verifier::external_body]
fn maths_from_bips(bips: u64) -> (r: Rate)
    requires
        bips * BIPS_SCALER <= u64::MAX,
    ensures
        r@ == bips * BIPS_SCALER,
{
    Rate { scaled_val: solana_maths::Rate::from_bips(bips).to_scaled_val() }
}

/// Calls `solana_maths::Rate::from_scaled_val`. Trusted: the scaled value of
/// the result is the argument.
#[verifier::external_body]
fn maths_from_scaled_val(scaled_val: u64) -> (r: Rate)
    ensures
        r@ == scaled_val,
{
    Rate { scaled_val: solana_maths::Rate::from_scaled_val(scaled_val).to_scaled_val() }
}

/// Calls `solana_maths::TryAdd::try_add` on two rates. Trusted: the call
/// succeeds exactly when the sum of the scaled values fits in 128 bits, and
/// then returns that sum.
#[verifier::external_body]
fn maths_try_add(lhs: Rate, rhs: Rate) -> (r: Result<Rate, ProgramError>)
    ensures
        r is Ok <==> lhs@ + rhs@ <= u128::MAX,
        r is Ok ==> r->Ok_0@ == lhs@ + rhs@,
{
    let lhs = solana_maths::Rate(solana_maths::U128::from(lhs.scaled_val));
    let rhs = solana_maths::Rate(solana_maths::U128::from(rhs.scaled_val));
    match lhs.try_add(rhs) {
        Ok(sum) => Ok(Rate { scaled_val: sum.to_scaled_val() }),
        Err(e) => Err(e),
    }
}

impl Rate {
    /// The fraction zero.
    pub fn zero() -> (r: Rate)
        ensures
            r@ == 0,
    {
        maths_zero()
    }

    /// The fraction one.
    pub fn one() -> (r: Rate)
        ensures
            r@ == WAD,
    {
        maths_one()
    }

    /// The fraction `percent` / 100.
    pub fn from_percent(percent: u8) -> (r: Rate)
        ensures
            r@ == percent * PERCENT_SCALER,
    {
        maths_from_percent(percent)
    }

    /// The fraction `bips` / 10000.
    pub fn from_bips(bips: u64) -> (r: Rate)
        requires
            bips * BIPS_SCALER <= u64::MAX,
        ensures
            r@ == bips * BIPS_SCALER,
    {
        maths_from_bips(bips)
    }

    /// The fraction `scaled_val` / 10^18.
    pub fn from_scaled_val(scaled_val: u64) -> (r: Rate)
        ensures
            r@ == scaled_val,
    {
        maths_from_scaled_val(scaled_val)
    }

    /// The value of this fraction times 10^18.
    pub fn to_scaled_val(&self) -> (v: u128)
        ensures
            v == self@,
    {
        self.scaled_val
    }

    /// The sum of two fractions, or `OverflowError` where the sum of the
    /// scaled values does not fit in 128 bits.
    pub fn try_add(self, rhs: Rate) -> (r: Result<Rate, ErrorCode>)
        ensures
            self@ + rhs@ <= u128::MAX ==> r is Ok && r->Ok_0@ == self@ + rhs@,
            self@ + rhs@ > u128::MAX ==> r is Err && r->Err_0 == ErrorCode::OverflowError,
    {
        match maths_try_add(self, rhs) {
            Ok(sum) => Ok(sum),
            Err(_) => Err(ErrorCode::OverflowError),
        }
    }
}

impl PartialOrd for Rate {
    /// Fractions are ordered by their values.
    fn partial_cmp(&self, other: &Self) -> (r: Option<Ordering>) {
        if self.scaled_val < other.scaled_val {
            Some(Ordering::Less)
        } else if self.scaled_val == other.scaled_val {
            Some(Ordering::Equal)
        } else {
            Some(Ordering::Greater)
        }
    }
}

impl PartialOrdSpecImpl for Rate {
    open spec fn obeys_partial_cmp_spec() -> bool {
        true
    }

    open spec fn partial_cmp_spec(&self, other: &Self) -> Option<Ordering> {
        if self.scaled_val < other.scaled_val {
            Some(Ordering::Less)
        } else if self.scaled_val == other.scaled_val {
            Some(Ordering::Equal)
        } else {
            Some(Ordering::Greater)
        }
    }
}

impl Default for Rate {
    /// The fraction zero.
    fn default() -> (r: Rate)
        ensures
            r@ == 0,
    {
        Rate { scaled_val: 0 }
    }
}

} // verus!
