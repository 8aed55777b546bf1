use dao_vault::accounts::{Clock, Mint};
use dao_vault::errors::ErrorCode;
use dao_vault::instructions::deposit::{handler, Deposit};
use dao_vault::state::{
    Pubkey, RebalanceMode, StrategyType, Vault, VaultConfig, VaultConfigArg,
    HALT_DEPOSITS_WITHDRAWS, HALT_RECONCILES, HALT_REFRESHED,
};

fn vault(value: u64, stamped: u64, deposit_cap: u64) -> Vault {
    let config = VaultConfig::new(VaultConfigArg {
        deposit_cap,
        fee_carry_bps: 0,
        fee_mgmt_bps: 0,
        referral_fee_pct: 0,
        allocation_cap_pct: 60,
        rebalance_mode: RebalanceMode::Calculator,
        strategy_type: StrategyType::MaxYield,
    })
    .unwrap();
    let mut vault = Vault::new(config, 0);
    vault.value.update(value, stamped);
    vault
}

fn deposit(vault: Vault, supply: u64, slot: u64) -> Deposit {
    Deposit {
        vault_address: Pubkey { bytes: [1u8; 32] },
        vault,
        lp_token_mint: Mint { supply },
        user_authority: Pubkey { bytes: [2u8; 32] },
        clock: Clock { slot },
    }
}

fn unchanged(after: &Deposit, before: &Deposit) {
    assert_eq!(after.vault.value.value, before.vault.value.value);
    assert_eq!(after.vault.value.last_update.slot, before.vault.value.last_update.slot);
    assert_eq!(after.vault.value.last_update.stale, before.vault.value.last_update.stale);
    assert_eq!(after.vault.flags(), before.vault.flags());
    assert_eq!(after.vault.config.deposit_cap, before.vault.config.deposit_cap);
    assert_eq!(after.lp_token_mint, before.lp_token_mint);
    assert_eq!(after.clock, before.clock);
}

#[test]
fn first_deposit_is_taken_one_for_one() {
    let mut ctx = deposit(vault(0, 10, 1_000), 0, 10);
    let receipt = handler(&mut ctx, 400).unwrap();
    assert_eq!(receipt.reserve_tokens_to_transfer, 400);
    assert_eq!(receipt.lp_tokens_to_mint, 400);
    assert_eq!(receipt.event.amount, 400);
    assert_eq!(receipt.event.vault.bytes, [1u8; 32]);
    assert_eq!(receipt.event.user.bytes, [2u8; 32]);
    assert_eq!(ctx.vault.value.value, 400);
    assert_eq!(ctx.vault.value.last_update.slot, 10);
    assert!(!ctx.vault.value.last_update.stale);
}

#[test]
fn later_deposit_mints_its_share_of_the_supply() {
    let mut ctx = deposit(vault(200, 10, 1_000), 50, 11);
    let receipt = handler(&mut ctx, 100).unwrap();
    assert_eq!(receipt.lp_tokens_to_mint, 25);
    assert_eq!(receipt.reserve_tokens_to_transfer, 100);
    assert_eq!(ctx.vault.value.value, 300);
}

#[test]
fn deposit_up_to_the_cap_is_accepted() {
    let mut ctx = deposit(vault(600, 10, 1_000), 600, 10);
    assert!(handler(&mut ctx, 400).is_ok());
    assert_eq!(ctx.vault.value.value, 1_000);
    let mut ctx = deposit(vault(0, 10, u64::MAX), 0, 10);
    assert!(handler(&mut ctx, u64::MAX).is_ok());
    assert_eq!(ctx.vault.value.value, u64::MAX);
}

#[test]
fn deposit_above_the_cap_is_rejected_and_changes_nothing() {
    let before = deposit(vault(600, 10, 1_000), 600, 10);
    let mut ctx = before;
    assert_eq!(handler(&mut ctx, 401).err(), Some(ErrorCode::DepositCapError));
    unchanged(&ctx, &before);
    assert_eq!(handler(&mut ctx, 1_000_000).err(), Some(ErrorCode::DepositCapError));
    unchanged(&ctx, &before);
    // a vault that is already above its cap takes nothing but zero
    let before = deposit(vault(600, 10, 500), 600, 10);
    let mut ctx = before;
    assert_eq!(handler(&mut ctx, 1).err(), Some(ErrorCode::DepositCapError));
    assert_eq!(handler(&mut ctx, 0).err(), Some(ErrorCode::DepositCapError));
    unchanged(&ctx, &before);
}

#[test]
fn deposit_into_a_stale_vault_is_not_refreshed() {
    // two slots after the stamp
    let before = deposit(vault(0, 10, 1_000), 0, 12);
    let mut ctx = before;
    assert_eq!(handler(&mut ctx, 400).err(), Some(ErrorCode::VaultIsNotRefreshed));
    unchanged(&ctx, &before);
    // declared stale
    let mut v = vault(0, 10, 1_000);
    v.value.last_update.mark_stale();
    let mut ctx = deposit(v, 0, 10);
    assert_eq!(handler(&mut ctx, 400).err(), Some(ErrorCode::VaultIsNotRefreshed));
    assert_eq!(ctx.vault.value.value, 0);
    // staleness is found before the cap is looked at
    let mut ctx = deposit(vault(0, 10, 1_000), 0, 12);
    assert_eq!(handler(&mut ctx, 5_000).err(), Some(ErrorCode::VaultIsNotRefreshed));
}

#[test]
fn deposit_one_slot_after_the_refresh_is_accepted() {
    let mut ctx = deposit(vault(0, 10, 1_000), 0, 11);
    assert!(handler(&mut ctx, 400).is_ok());
}

#[test]
fn deposit_in_a_slot_before_the_stamp_is_a_math_error() {
    let before = deposit(vault(0, 10, 1_000), 0, 9);
    let mut ctx = before;
    assert_eq!(handler(&mut ctx, 400).err(), Some(ErrorCode::MathError));
    unchanged(&ctx, &before);
}

#[test]
fn deposit_into_a_halted_vault_is_rejected() {
    let mut v = vault(0, 10, 1_000);
    v.set_flags(HALT_DEPOSITS_WITHDRAWS).unwrap();
    let before = deposit(v, 0, 10);
    let mut ctx = before;
    assert_eq!(handler(&mut ctx, 400).err(), Some(ErrorCode::HaltedVault));
    unchanged(&ctx, &before);
    // the halt is found before the cap is looked at
    assert_eq!(handler(&mut ctx, 5_000).err(), Some(ErrorCode::HaltedVault));
}

#[test]
fn other_halts_do_not_stop_deposits() {
    let mut v = vault(0, 10, 1_000);
    v.set_flags(HALT_RECONCILES | HALT_REFRESHED).unwrap();
    let mut ctx = deposit(v, 0, 10);
    assert!(handler(&mut ctx, 400).is_ok());
    assert_eq!(ctx.vault.value.value, 400);
    assert_eq!(ctx.vault.flags().bits(), 3);
}

#[test]
fn deposit_whose_claim_tokens_do_not_fit_is_a_math_error() {
    let before = deposit(vault(1, 10, u64::MAX), u64::MAX, 10);
    let mut ctx = before;
    assert_eq!(handler(&mut ctx, 2).err(), Some(ErrorCode::MathError));
    unchanged(&ctx, &before);
}

#[test]
fn deposit_that_overflows_the_value_is_an_overflow() {
    let before = deposit(vault(u64::MAX - 5, 10, u64::MAX), 1, 10);
    let mut ctx = before;
    assert_eq!(handler(&mut ctx, 6).err(), Some(ErrorCode::OverflowError));
    unchanged(&ctx, &before);
    assert!(handler(&mut ctx, 5).is_ok());
    assert_eq!(ctx.vault.value.value, u64::MAX);
}

#[test]
fn deposit_of_nothing_changes_nothing_but_is_accepted() {
    let mut ctx = deposit(vault(600, 10, 1_000), 600, 10);
    let receipt = handler(&mut ctx, 0).unwrap();
    assert_eq!(receipt.lp_tokens_to_mint, 0);
    assert_eq!(receipt.reserve_tokens_to_transfer, 0);
    assert_eq!(ctx.vault.value.value, 600);
}
