//! Moving what the vault holds in each market toward what it wants to hold
//! there.

use vstd::prelude::*;
use crate::asset_container::AssetContainer;
use crate::errors::ErrorCode;
use crate::reserves::{lemma_provider_ordinals, Provider};
use crate::state::{SlotTrackecValue, Vault};

verus! {

/// A call into a lending market that the caller is to carry out.
#[derive(Clone, Copy, Debug, PartialEq, Eq, Structural)]
pub enum MarketCall {
    /// Hand `amount` reserve tokens to the market of `provider`.
    Deposit { provider: Provider, amount: u64 },
    /// Take `amount` back from the market of `provider`.
    Redeem { provider: Provider, amount: u64 },
}

/// What an adapter offers for its lending market.
pub trait LendingMarket {
    /// The provider that the adapter stands for.
    spec fn spec_provider(&self) -> Provider;

    /// The reserve tokens that the vault holds itself.
    spec fn spec_reserve_tokens_in_vault(&self) -> u64;

    /// The shares of the market that the vault holds.
    spec fn spec_lp_tokens_in_vault(&self) -> u64;

    /// The shares that `amount` reserve tokens are worth, `None` where the
    /// market cannot say.
    spec fn spec_reserve_to_lp(&self, amount: u64) -> Option<u64>;

    /// The reserve tokens that `amount` shares are worth, `None` where the
    /// market cannot say.
    spec fn spec_lp_to_reserve(&self, amount: u64) -> Option<u64>;

    /// The call that deposits `amount`; none for an amount of zero.
    fn deposit(&self, amount: u64) -> (call: Option<MarketCall>)
        ensures
            amount == 0 ==> call is None,
            amount != 0 ==> call == Some(
                MarketCall::Deposit { provider: self.spec_provider(), amount },
            ),
    ;

    /// The call that redeems `amount`; none for an amount of zero.
    fn redeem(&self, amount: u64) -> (call: Option<MarketCall>)
        ensures
            amount == 0 ==> call is None,
            amount != 0 ==> call == Some(
                MarketCall::Redeem { provider: self.spec_provider(), amount },
            ),
    ;

    /// The shares that `amount` reserve tokens are worth.
    fn convert_amount_reserve_to_lp(&self, amount: u64) -> (r: Result<u64, ErrorCode>)
        ensures
            r is Ok <==> self.spec_reserve_to_lp(amount) is Some,
            r is Ok ==> r->Ok_0 == self.spec_reserve_to_lp(amount)->0,
    ;

    /// The reserve tokens that `amount` shares are worth.
    fn convert_amount_lp_to_reserve(&self, amount: u64) -> (r: Result<u64, ErrorCode>)
        ensures
            r is Ok <==> self.spec_lp_to_reserve(amount) is Some,
            r is Ok ==> r->Ok_0 == self.spec_lp_to_reserve(amount)->0,
    ;

    /// The reserve tokens that the vault holds itself.
    fn reserve_tokens_in_vault(&self) -> (amount: u64)
        ensures
            amount == self.spec_reserve_tokens_in_vault(),
    ;

    /// The shares of the market that the vault holds.
    fn lp_tokens_in_vault(&self) -> (amount: u64)
        ensures
            amount == self.spec_lp_tokens_in_vault(),
    ;

    /// The provider that the adapter stands for.
    fn provider(&self) -> (p: Provider)
        ensures
            p == self.spec_provider(),
    ;

    /// Every adapter shows that its conversions round in the vault's
    /// disfavour: reserve tokens turned into shares and back never come to
    /// more than was put in.
    proof fn lemma_round_trip_never_gains(&self, amount: u64)
        ensures
            self.spec_reserve_to_lp(amount) is Some && self.spec_lp_to_reserve(
                self.spec_reserve_to_lp(amount)->0,
            ) is Some ==> self.spec_lp_to_reserve(self.spec_reserve_to_lp(amount)->0)->0 <= amount,
    ;
}

/// What a round of reconciliation does about one provider.
#[derive(Clone, Copy, Debug, PartialEq, Eq, Structural)]
pub enum ReconcileAction {
    /// The actual allocation is not fresh: the provider is left out of
    /// this round.
    Skip,
    /// The actual allocation is the target: nothing to do.
    Hold,
    /// Hand this many reserve tokens to the market.
    Deposit(u64),
    /// Take this many reserve tokens back from the market.
    Redeem(u64),
}

/// What became of one provider in a round of reconciliation.
#[derive(Clone, Copy, Debug, PartialEq, Eq, Structural)]
pub enum ReconcileOutcome {
    /// The provider was left out of the round.
    Skipped,
    /// Nothing had to be done.
    Unchanged,
    /// The market carried the call out.
    Succeeded,
    /// The market's call failed.
    Failed,
}

impl Default for ReconcileAction {
    /// Leaving the provider out.
    fn default() -> (action: Self)
        ensures
            action == ReconcileAction::Skip,
    {
        ReconcileAction::Skip
    }
}

impl Default for ReconcileOutcome {
    /// The provider was left out.
    fn default() -> (outcome: Self)
        ensures
            outcome == ReconcileOutcome::Skipped,
    {
        ReconcileOutcome::Skipped
    }
}

/// What is to be done about a provider whose target and actual allocation
/// are as given, at `slot`.
pub open spec fn action_for(target: u64, actual: SlotTrackecValue, slot: u64) -> ReconcileAction {
    if !actual.last_update.is_fresh(slot) {
        ReconcileAction::Skip
    } else if target > actual.value {
        ReconcileAction::Deposit((target - actual.value) as u64)
    } else if target < actual.value {
        ReconcileAction::Redeem((actual.value - target) as u64)
    } else {
        ReconcileAction::Hold
    }
}

/// What became of a provider for which `action` was decided, where
/// `call_succeeded` says how the market's call ended, if one was made.
pub open spec fn outcome_for(action: ReconcileAction, call_succeeded: bool) -> ReconcileOutcome {
    match action {
        ReconcileAction::Skip => ReconcileOutcome::Skipped,
        ReconcileAction::Hold => ReconcileOutcome::Unchanged,
        _ => if call_succeeded {
            ReconcileOutcome::Succeeded
        } else {
            ReconcileOutcome::Failed
        },
    }
}

/// Decides what to do about one provider: nothing while its actual
/// allocation is not fresh at `slot`; else a deposit of the difference
/// where the target is above the actual value, a redeem of the difference
/// where it is below, and nothing where they are equal.
pub fn decide(target: u64, actual: &SlotTrackecValue, slot: u64) -> (action: ReconcileAction)
    ensures
        action == action_for(target, *actual, slot),
{
    match actual.last_update.is_stale(slot) {
        Ok(false) => {
            if target > actual.value {
                ReconcileAction::Deposit(target - actual.value)
            } else if target < actual.value {
                ReconcileAction::Redeem(actual.value - target)
            } else {
                ReconcileAction::Hold
            }
        },
        _ => ReconcileAction::Skip,
    }
}

/// The action of a round for every provider. Each provider is decided on
/// its own: by its target, its actual allocation and the slot.
pub fn plan(vault: &Vault, slot: u64) -> (actions: AssetContainer<ReconcileAction>)
    ensures
        actions.wf(),
        forall|p: Provider| #[trigger]
            actions[p] == action_for(
                vault.target_allocations[p].value,
                vault.actual_allocations[p],
                slot,
            ),
{
    let decide_for = |provider: Provider| -> (action: ReconcileAction)
        ensures
            action == action_for(
                vault.target_allocations[provider].value,
                vault.actual_allocations[provider],
                slot,
            ),
        {
            decide(
                vault.target_allocations.index(provider).value,
                vault.actual_allocations.index(provider),
                slot,
            )
        };
    AssetContainer::from_fn(decide_for)
}

/// The call that carries `action` out in the market of `market`, if it
/// asks for one.
pub fn call_for<M: LendingMarket>(market: &M, action: ReconcileAction) -> (call: Option<MarketCall>)
    ensures
        call == match action {
            ReconcileAction::Deposit(amount) if amount != 0 => Some(
                MarketCall::Deposit { provider: market.spec_provider(), amount },
            ),
            ReconcileAction::Redeem(amount) if amount != 0 => Some(
                MarketCall::Redeem { provider: market.spec_provider(), amount },
            ),
            _ => None,
        },
{
    match action {
        ReconcileAction::Deposit(amount) => market.deposit(amount),
        ReconcileAction::Redeem(amount) => market.redeem(amount),
        _ => None,
    }
}

/// Reconciles the vault with one market at `slot`: decides from the
/// provider's target and actual allocation what is to be done, and gives
/// the call that does it, if one is needed.
pub fn reconcile<M: LendingMarket>(market: &M, vault: &Vault, slot: u64) -> (r: (
    ReconcileAction,
    Option<MarketCall>,
))
    ensures
        r.0 == action_for(
            vault.target_allocations[market.spec_provider()].value,
            vault.actual_allocations[market.spec_provider()],
            slot,
        ),
        r.1 == match r.0 {
            ReconcileAction::Deposit(amount) => Some(
                MarketCall::Deposit { provider: market.spec_provider(), amount },
            ),
            ReconcileAction::Redeem(amount) => Some(
                MarketCall::Redeem { provider: market.spec_provider(), amount },
            ),
            _ => None,
        },
{
    let provider = market.provider();
    let action = decide(
        vault.target_allocations.index(provider).value,
        vault.actual_allocations.index(provider),
        slot,
    );
    (action, call_for(market, action))
}

/// The outcome of a round for every provider, from the actions that were
/// decided and from how each market's call ended. Each provider's outcome
/// comes from its own action and its own call alone; a call that failed
/// leaves the other providers' outcomes as they are.
pub fn report(
    actions: &AssetContainer<ReconcileAction>,
    calls_succeeded: &AssetContainer<bool>,
) -> (outcomes: AssetContainer<ReconcileOutcome>)
    requires
        actions.wf(),
        calls_succeeded.wf(),
    ensures
        outcomes.wf(),
        forall|p: Provider| #[trigger] outcomes[p] == outcome_for(actions[p], calls_succeeded[p]),
{
    let outcome_of = |provider: Provider, action: &ReconcileAction| -> (outcome: ReconcileOutcome)
        requires
            calls_succeeded.wf(),
        ensures
            outcome == outcome_for(*action, calls_succeeded[provider]),
        {
            proof {
                lemma_provider_ordinals(provider);
            }
            match action {
                ReconcileAction::Skip => ReconcileOutcome::Skipped,
                ReconcileAction::Hold => ReconcileOutcome::Unchanged,
                _ => if *calls_succeeded.index(provider) {
                    ReconcileOutcome::Succeeded
                } else {
                    ReconcileOutcome::Failed
                },
            }
        };
    actions.apply(outcome_of)
}

/// A round deposits exactly where the target is above a fresh actual
/// allocation, redeems exactly where it is below, and the amount is the
/// difference; it does nothing where they are equal, and leaves out a
/// provider whose actual allocation is not fresh.
pub proof fn lemma_action_follows_the_gap(target: u64, actual: SlotTrackecValue, slot: u64)
    ensures
        action_for(target, actual, slot) is Deposit <==> actual.last_update.is_fresh(slot)
            && target > actual.value,
        action_for(target, actual, slot) is Redeem <==> actual.last_update.is_fresh(slot)
            && target < actual.value,
        action_for(target, actual, slot) is Hold <==> actual.last_update.is_fresh(slot)
            && target == actual.value,
        action_for(target, actual, slot) is Skip <==> !actual.last_update.is_fresh(slot),
        action_for(target, actual, slot) matches ReconcileAction::Deposit(amount) ==> actual.value
            + amount == target,
        action_for(target, actual, slot) matches ReconcileAction::Redeem(amount) ==> target
            + amount == actual.value,
{
}

/// How the call of one provider ends has no bearing on the outcome of any
/// other: two rounds with the same actions, whose calls ended alike for
/// every provider but `failed`, have the same outcome for every provider
/// but `failed`.
pub proof fn lemma_failure_stays_with_its_provider(
    actions: AssetContainer<ReconcileAction>,
    first: AssetContainer<bool>,
    second: AssetContainer<bool>,
    failed: Provider,
)
    requires
        actions.wf(),
        first.wf(),
        second.wf(),
        forall|p: Provider| p != failed ==> #[trigger] first[p] == second[p],
    ensures
        forall|p: Provider|
            p != failed ==> outcome_for(actions[p], #[trigger] first[p]) == outcome_for(
                actions[p],
                second[p],
            ),
{
}

} // verus!
