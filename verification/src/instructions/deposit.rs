//! Depositing reserve tokens into the vault.

use vstd::prelude::*;
use crate::accounts::{Clock, Mint};
use crate::errors::{ensure, ErrorCode};
use crate::math::{calc_reserve_to_lp, reserve_to_lp};
use crate::state::{Pubkey, Vault, VaultFlags};

verus! {

/// The record of a deposit that was accepted.
#[derive(Clone, Copy, Debug)]
pub struct DepositEvent {
    pub vault: Pubkey,
    pub user: Pubkey,
    pub amount: u64,
}

/// What a deposit works on.
#[derive(Clone, Copy, Debug)]
pub struct Deposit {
    /// The address of the vault's record.
    pub vault_address: Pubkey,
    /// The vault's record.
    pub vault: Vault,
    /// The mint of the vault's claim tokens.
    pub lp_token_mint: Mint,
    /// The authority of the account that the reserve tokens come from.
    pub user_authority: Pubkey,
    pub clock: Clock,
}

/// What the caller is to do for a deposit that was accepted.
#[derive(Clone, Copy, Debug)]
pub struct DepositReceipt {
    /// The reserve tokens to move from the user to the vault.
    pub reserve_tokens_to_transfer: u64,
    /// The claim tokens to mint to the user.
    pub lp_tokens_to_mint: u64,
    /// The record to publish.
    pub event: DepositEvent,
}

impl Deposit {
    /// The error that rejects a deposit of `reserve_token_amount`, if there
    /// is one. The conditions are tried in this order: the vault's value is
    /// fresh, deposits are not halted, the claim tokens can be computed,
    /// the new value fits in 64 bits and is not above the deposit cap.
    pub open spec fn rejection(&self, reserve_token_amount: u64) -> Option<ErrorCode> {
        let vault = self.vault;
        let stamp = vault.value.last_update;
        if !stamp.stale && self.clock.slot < stamp.slot {
            Some(ErrorCode::MathError)
        } else if !stamp.is_fresh(self.clock.slot) {
            Some(ErrorCode::VaultIsNotRefreshed)
        } else if vault.bitflags.deposits_withdraws {
            Some(ErrorCode::HaltedVault)
        } else if reserve_to_lp(
            reserve_token_amount as nat,
            self.lp_token_mint.supply as nat,
            vault.value.value as nat,
        ) > u64::MAX {
            Some(ErrorCode::MathError)
        } else if vault.value.value + reserve_token_amount > u64::MAX {
            Some(ErrorCode::OverflowError)
        } else if vault.value.value + reserve_token_amount > vault.config.deposit_cap {
            Some(ErrorCode::DepositCapError)
        } else {
            None
        }
    }
}

/// Deposits `reserve_token_amount` reserve tokens into the vault.
///
/// Where the deposit is accepted, the vault's value grows by the amount
/// and nothing else in `ctx` changes; the receipt says how many reserve
/// tokens to move and how many claim tokens to mint: the deposit's share of
/// the supply, rounded down. Where it is rejected, `ctx` stays as it is. A
/// deposit that would take the vault's value above the deposit cap is
/// never accepted.
pub fn handler(ctx: &mut Deposit, reserve_token_amount: u64) -> (r: Result<
    DepositReceipt,
    ErrorCode,
>)
    ensures
        old(ctx).vault.value.value + reserve_token_amount > old(ctx).vault.config.deposit_cap
            ==> r is Err,
        r is Err ==> *final(ctx) == *old(ctx),
        match old(ctx).rejection(reserve_token_amount) {
            Some(e) => r is Err && r->Err_0 == e,
            None => {
                &&& r is Ok
                &&& r->Ok_0.reserve_tokens_to_transfer == reserve_token_amount
                &&& r->Ok_0.lp_tokens_to_mint == reserve_to_lp(
                    reserve_token_amount as nat,
                    old(ctx).lp_token_mint.supply as nat,
                    old(ctx).vault.value.value as nat,
                )
                &&& r->Ok_0.event == (DepositEvent {
                    vault: old(ctx).vault_address,
                    user: old(ctx).user_authority,
                    amount: reserve_token_amount,
                })
                &&& final(ctx).vault.value.value == old(ctx).vault.value.value
                    + reserve_token_amount
                &&& final(ctx).vault.value.last_update == old(ctx).vault.value.last_update
                &&& *final(ctx) == (Deposit {
                    vault: Vault { value: final(ctx).vault.value, ..old(ctx).vault },
                    ..*old(ctx)
                })
            },
        },
{
    // The vault's value must have been refreshed within the window
    match ctx.vault.value.last_update.is_stale(ctx.clock.slot) {
        Ok(false) => {},
        Ok(true) => {
            return Err(ErrorCode::VaultIsNotRefreshed);
        },
        Err(e) => {
            return Err(e);
        },
    }

    // Check that deposits are not halted
    match ensure(
        !ctx.vault.flags().contains(VaultFlags::halt_deposits_withdraws()),
        ErrorCode::HaltedVault,
    ) {
        Ok(()) => {},
        Err(e) => {
            return Err(e);
        },
    }

    let lp_tokens_to_mint = match calc_reserve_to_lp(
        reserve_token_amount,
        ctx.lp_token_mint.supply,
        ctx.vault.value.value,
    ) {
        Some(tokens) => tokens,
        None => {
            return Err(ErrorCode::MathError);
        },
    };

    let total_value = match ctx.vault.value.value.checked_add(reserve_token_amount) {
        Some(total) => total,
        None => {
            return Err(ErrorCode::OverflowError);
        },
    };

    if total_value > ctx.vault.config.deposit_cap {
        return Err(ErrorCode::DepositCapError);
    }

    ctx.vault.value.value = total_value;

    Ok(
        DepositReceipt {
            reserve_tokens_to_transfer: reserve_token_amount,
            lp_tokens_to_mint,
            event: DepositEvent {
                vault: ctx.vault_address,
                user: ctx.user_authority,
                amount: reserve_token_amount,
            },
        },
    )
}

} // verus!
