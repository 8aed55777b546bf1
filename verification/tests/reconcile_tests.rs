use dao_vault::accounts::{Clock, TokenAccount};
use dao_vault::adapters::port::{PortAccounts, Reserve};
use dao_vault::asset_container::AssetContainer;
use dao_vault::instructions::reconcile::{
    call_for, decide, plan, reconcile, report, MarketCall, ReconcileAction, ReconcileOutcome,
};
use dao_vault::reserves::Provider;
use dao_vault::state::{
    LastUpdate, RebalanceMode, SlotTrackecValue, StrategyType, Vault, VaultConfig, VaultConfigArg,
};

fn fresh(value: u64, slot: u64) -> SlotTrackecValue {
    let mut v = SlotTrackecValue::default();
    v.update(value, slot);
    v
}

fn vault() -> Vault {
    let config = VaultConfig::new(VaultConfigArg {
        deposit_cap: 1_000_000,
        fee_carry_bps: 0,
        fee_mgmt_bps: 0,
        referral_fee_pct: 0,
        allocation_cap_pct: 60,
        rebalance_mode: RebalanceMode::Calculator,
        strategy_type: StrategyType::MaxYield,
    })
    .unwrap();
    Vault::new(config, 0)
}

fn port_market() -> PortAccounts {
    PortAccounts {
        vault: vault(),
        vault_reserve_token: TokenAccount { amount: 0 },
        vault_port_lp_token: TokenAccount { amount: 0 },
        port_reserve: Reserve {
            available_amount: 0,
            borrowed_amount_wads: 0,
            mint_total_supply: 0,
            optimal_utilization_rate: 80,
            min_borrow_rate: 0,
            optimal_borrow_rate: 8,
            max_borrow_rate: 50,
        },
        clock: Clock { slot: 10 },
    }
}

#[test]
fn deposit_when_the_target_is_above_the_actual() {
    assert_eq!(decide(150, &fresh(100, 10), 10), ReconcileAction::Deposit(50));
    assert_eq!(decide(u64::MAX, &fresh(0, 10), 11), ReconcileAction::Deposit(u64::MAX));
    assert_eq!(decide(1, &fresh(0, 10), 10), ReconcileAction::Deposit(1));
}

#[test]
fn redeem_when_the_target_is_below_the_actual() {
    assert_eq!(decide(100, &fresh(150, 10), 10), ReconcileAction::Redeem(50));
    assert_eq!(decide(0, &fresh(u64::MAX, 10), 11), ReconcileAction::Redeem(u64::MAX));
}

#[test]
fn hold_when_the_target_is_the_actual() {
    assert_eq!(decide(100, &fresh(100, 10), 10), ReconcileAction::Hold);
    assert_eq!(decide(0, &fresh(0, 10), 11), ReconcileAction::Hold);
}

#[test]
fn skip_when_the_actual_is_not_fresh() {
    // two slots after the stamp
    assert_eq!(decide(150, &fresh(100, 10), 12), ReconcileAction::Skip);
    // declared stale
    let mut stale = fresh(100, 10);
    stale.last_update.mark_stale();
    assert_eq!(decide(150, &stale, 10), ReconcileAction::Skip);
    // asked before the stamp
    assert_eq!(decide(150, &fresh(100, 10), 9), ReconcileAction::Skip);
    // never refreshed
    let never = SlotTrackecValue { value: 0, last_update: LastUpdate::new(10) };
    assert_eq!(decide(150, &never, 10), ReconcileAction::Skip);
    assert_eq!(decide(100, &fresh(100, 10), 12), ReconcileAction::Skip);
}

#[test]
fn default_action_and_outcome() {
    assert_eq!(ReconcileAction::default(), ReconcileAction::Skip);
    assert_eq!(ReconcileOutcome::default(), ReconcileOutcome::Skipped);
}

#[test]
fn plan_decides_each_provider_on_its_own() {
    let mut v = vault();
    v.target_allocations.index_mut(Provider::Solend).update(100, 10);
    v.target_allocations.index_mut(Provider::Port).update(100, 10);
    v.target_allocations.index_mut(Provider::Jet).update(100, 10);
    v.actual_allocations.index_mut(Provider::Solend).update(40, 10);
    v.actual_allocations.index_mut(Provider::Port).update(100, 9);
    v.actual_allocations.index_mut(Provider::Jet).update(130, 8);
    let actions = plan(&v, 10);
    assert_eq!(*actions.index(Provider::Solend), ReconcileAction::Deposit(60));
    assert_eq!(*actions.index(Provider::Port), ReconcileAction::Hold);
    // Jet was stamped two slots ago
    assert_eq!(*actions.index(Provider::Jet), ReconcileAction::Skip);
    let actions = plan(&v, 9);
    assert_eq!(*actions.index(Provider::Solend), ReconcileAction::Skip);
    assert_eq!(*actions.index(Provider::Port), ReconcileAction::Hold);
    assert_eq!(*actions.index(Provider::Jet), ReconcileAction::Redeem(30));
}

#[test]
fn plan_of_a_vault_that_was_never_refreshed_skips_everything() {
    let actions = plan(&vault(), 0);
    for p in [Provider::Solend, Provider::Port, Provider::Jet] {
        assert_eq!(*actions.index(p), ReconcileAction::Skip);
    }
}

#[test]
fn call_for_an_action() {
    let market = port_market();
    assert_eq!(
        call_for(&market, ReconcileAction::Deposit(5)),
        Some(MarketCall::Deposit { provider: Provider::Port, amount: 5 })
    );
    assert_eq!(
        call_for(&market, ReconcileAction::Redeem(6)),
        Some(MarketCall::Redeem { provider: Provider::Port, amount: 6 })
    );
    assert_eq!(call_for(&market, ReconcileAction::Hold), None);
    assert_eq!(call_for(&market, ReconcileAction::Skip), None);
    assert_eq!(call_for(&market, ReconcileAction::Deposit(0)), None);
    assert_eq!(call_for(&market, ReconcileAction::Redeem(0)), None);
}

#[test]
fn reconcile_one_market() {
    let market = port_market();
    let mut v = vault();
    v.target_allocations.index_mut(Provider::Port).update(500, 10);
    v.actual_allocations.index_mut(Provider::Port).update(200, 10);
    // the other providers do not matter
    v.actual_allocations.index_mut(Provider::Jet).update(999, 10);
    assert_eq!(
        reconcile(&market, &v, 10),
        (
            ReconcileAction::Deposit(300),
            Some(MarketCall::Deposit { provider: Provider::Port, amount: 300 })
        )
    );
    v.actual_allocations.index_mut(Provider::Port).update(800, 11);
    assert_eq!(
        reconcile(&market, &v, 11),
        (
            ReconcileAction::Redeem(300),
            Some(MarketCall::Redeem { provider: Provider::Port, amount: 300 })
        )
    );
    v.actual_allocations.index_mut(Provider::Port).update(500, 11);
    assert_eq!(reconcile(&market, &v, 12), (ReconcileAction::Hold, None));
    assert_eq!(reconcile(&market, &v, 13), (ReconcileAction::Skip, None));
}

fn actions(solend: ReconcileAction, port: ReconcileAction, jet: ReconcileAction) -> AssetContainer<ReconcileAction> {
    AssetContainer::from_iter(vec![
        (Provider::Solend, solend),
        (Provider::Port, port),
        (Provider::Jet, jet),
    ])
}

fn calls(solend: bool, port: bool, jet: bool) -> AssetContainer<bool> {
    AssetContainer::from_iter(vec![
        (Provider::Solend, solend),
        (Provider::Port, port),
        (Provider::Jet, jet),
    ])
}

#[test]
fn report_names_each_provider_outcome() {
    let a = actions(ReconcileAction::Deposit(5), ReconcileAction::Redeem(6), ReconcileAction::Hold);
    let outcomes = report(&a, &calls(true, false, false));
    assert_eq!(*outcomes.index(Provider::Solend), ReconcileOutcome::Succeeded);
    assert_eq!(*outcomes.index(Provider::Port), ReconcileOutcome::Failed);
    assert_eq!(*outcomes.index(Provider::Jet), ReconcileOutcome::Unchanged);
    let a = actions(ReconcileAction::Skip, ReconcileAction::Skip, ReconcileAction::Deposit(1));
    let outcomes = report(&a, &calls(true, false, true));
    assert_eq!(*outcomes.index(Provider::Solend), ReconcileOutcome::Skipped);
    assert_eq!(*outcomes.index(Provider::Port), ReconcileOutcome::Skipped);
    assert_eq!(*outcomes.index(Provider::Jet), ReconcileOutcome::Succeeded);
}

#[test]
fn a_failed_call_leaves_the_other_outcomes_as_they_are() {
    let a = actions(ReconcileAction::Deposit(5), ReconcileAction::Redeem(6), ReconcileAction::Deposit(7));
    let all_well = report(&a, &calls(true, true, true));
    for failed in [Provider::Solend, Provider::Port, Provider::Jet] {
        let mut c = calls(true, true, true);
        *c.index_mut(failed) = false;
        let outcomes = report(&a, &c);
        for p in [Provider::Solend, Provider::Port, Provider::Jet] {
            if p == failed {
                assert_eq!(*outcomes.index(p), ReconcileOutcome::Failed);
            } else {
                assert_eq!(outcomes.index(p), all_well.index(p));
                assert_eq!(*outcomes.index(p), ReconcileOutcome::Succeeded);
            }
        }
    }
}
