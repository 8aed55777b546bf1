//! The error kinds that the vault's operations return.

use vstd::prelude::*;

verus! {

/// Why an operation of the vault was rejected.
#[derive(Clone, Copy, Debug, PartialEq, Eq, Structural)]
pub enum ErrorCode {
    /// Checked arithmetic went below zero or could not be carried out.
    MathError,
    /// The vault's value was not refreshed within the freshness window.
    VaultIsNotRefreshed,
    /// Checked arithmetic exceeded the range of its type.
    OverflowError,
    /// The referral fee share is above its limit.
    InvalidReferralFeeConfig,
    /// A fee is above one hundred percent.
    InvalidFeeConfig,
    /// The proposed weights do not sum to one, or one of them is above the cap.
    InvalidProposedWeights,
    /// The deposit would take the vault's value above the deposit cap.
    DepositCapError,
    /// The allocation cap is outside its permitted range.
    InvalidAloocationCap,
    /// The bit pattern holds bits that are no halt flag.
    InvalidVaultFlags,
    /// The operation is halted by the vault's flags.
    HaltedVault,
}

/// Calls `boolinator::Boolinator::ok_or` on `condition`. Trusted: the result
/// is `Ok` where the condition holds and `Err(err)` where it does not.
#[verifier::external_body]
pub(crate) fn ensure(condition: bool, err: ErrorCode) -> (r: Result<(), ErrorCode>)
    ensures
        condition ==> r is Ok,
        !condition ==> r is Err && r->Err_0 == err,
{
    boolinator::Boolinator::ok_or(condition, err)
}

} // verus!
