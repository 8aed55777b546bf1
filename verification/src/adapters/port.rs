//! The adapter for the Port lending market.
//!
//! The market's own arithmetic is done by the
//! `port_variable_rate_lending_instructions` crate. This module holds, as
//! plain numbers, what the vault reads of a Port reserve, hands those
//! numbers to the crate, and states what comes back.

use vstd::prelude::*;
use vstd::arithmetic::div_mod::{
    lemma_div_by_multiple,
    lemma_div_denominator,
    lemma_div_is_ordered,
    lemma_fundamental_div_mod,
    lemma_mod_bound,
};
use solana_program::program_error::ProgramError;
use crate::accounts::{Clock, TokenAccount};
use crate::errors::ErrorCode;
use crate::instructions::init_yield_source::YieldSourceInitializer;
use crate::instructions::reconcile::{LendingMarket, MarketCall};
use crate::instructions::refresh::Refresher;
use crate::rate::{Rate, WAD};
use crate::reserves::{Provider, ReserveAccessor};
use crate::state::{Pubkey, Vault};

verus! {

/// The first number that 192 bits cannot hold.
pub open spec fn u192_limit() -> nat {
    (u64::MAX as nat + 1) * (u64::MAX as nat + 1) * (u64::MAX as nat + 1)
}

/// The total liquidity of a reserve, scaled by 10^18: what is available and
/// what is lent out.
pub open spec fn total_liquidity_wads(available_amount: nat, borrowed_amount_wads: nat) -> nat {
    available_amount * (WAD as nat) + borrowed_amount_wads
}

/// The scaled exchange rate of a reserve, in shares per reserve token: one
/// while the reserve has no shares or no liquidity, else the supply of
/// shares divided by the total liquidity, rounded down.
pub open spec fn exchange_rate_scaled(
    available_amount: nat,
    borrowed_amount_wads: nat,
    mint_total_supply: nat,
) -> nat {
    let total = total_liquidity_wads(available_amount, borrowed_amount_wads);
    if mint_total_supply == 0 || total == 0 {
        WAD as nat
    } else {
        mint_total_supply * (WAD as nat) * (WAD as nat) / total
    }
}

/// The scaled utilization of a reserve: the part of its total liquidity
/// that is lent out, rounded down; zero for a reserve without liquidity.
pub open spec fn utilization_scaled(available_amount: nat, borrowed_amount_wads: nat) -> nat {
    let total = total_liquidity_wads(available_amount, borrowed_amount_wads);
    if total == 0 {
        0
    } else {
        borrowed_amount_wads * (WAD as nat) / total
    }
}

/// The shares that an amount of reserve tokens is worth at a scaled
/// exchange rate, as the market computes them: the amount is scaled,
/// multiplied by the rate in 192 bits, scaled back and rounded down to 64
/// bits. `None` where a step does not fit.
pub open spec fn liquidity_to_collateral_steps(rate: nat, liquidity_amount: nat) -> Option<nat> {
    let product = liquidity_amount * (WAD as nat) * rate;
    if product >= u192_limit() {
        None
    } else if product / (WAD as nat) / (WAD as nat) > u64::MAX {
        None
    } else {
        Some(product / (WAD as nat) / (WAD as nat))
    }
}

/// The reserve tokens that an amount of shares is worth at a scaled
/// exchange rate, as the market computes them: the amount is scaled twice,
/// divided by the rate, scaled back and rounded down to 64 bits. `None`
/// where the rate is zero or the result does not fit.
pub open spec fn collateral_to_liquidity_steps(rate: nat, collateral_amount: nat) -> Option<nat> {
    if rate == 0 {
        None
    } else if collateral_amount * (WAD as nat) * (WAD as nat) / rate / (WAD as nat) > u64::MAX {
        None
    } else {
        Some(collateral_amount * (WAD as nat) * (WAD as nat) / rate / (WAD as nat))
    }
}

/// The shares that an amount of reserve tokens is worth at a scaled
/// exchange rate: the amount times the rate, rounded down.
pub open spec fn liquidity_to_collateral(rate: nat, liquidity_amount: nat) -> nat {
    liquidity_amount * rate / (WAD as nat)
}

/// The reserve tokens that an amount of shares is worth at a scaled
/// exchange rate: the amount divided by the rate, rounded down.
pub open spec fn collateral_to_liquidity(rate: nat, collateral_amount: nat) -> nat {
    collateral_amount * (WAD as nat) / rate
}

/// The market's borrow rate for a reserve with the given liquidity and
/// interest curve, scaled by 10^18: what `Reserve::current_borrow_rate` of
/// the Port crate returns, `None` where it fails.
pub uninterp spec fn port_borrow_rate(
    available_amount: u64,
    borrowed_amount_wads: u128,
    optimal_utilization_rate: u8,
    min_borrow_rate: u8,
    optimal_borrow_rate: u8,
    max_borrow_rate: u8,
) -> Option<u128>;

/// What the vault reads of a Port reserve.
#[derive(Clone, Copy, Debug, PartialEq, Eq, Structural)]
pub struct Reserve {
    /// The reserve tokens that can be withdrawn or borrowed.
    pub available_amount: u64,
    /// The reserve tokens that are lent out, scaled by 10^18.
    pub borrowed_amount_wads: u128,
    /// The supply of the reserve's share tokens.
    pub mint_total_supply: u64,
    /// The utilization at which the interest curve bends, in percent.
    pub optimal_utilization_rate: u8,
    /// The borrow rate at no utilization, in percent.
    pub min_borrow_rate: u8,
    /// The borrow rate at the optimal utilization, in percent.
    pub optimal_borrow_rate: u8,
    /// The borrow rate at full utilization, in percent.
    pub max_borrow_rate: u8,
}

/// The rate at which a reserve exchanges reserve tokens for shares.
#[derive(Clone, Copy, Debug, PartialEq, Eq, Structural)]
pub struct CollateralExchangeRate {
    pub rate: Rate,
}

/// Calls `Reserve::collateral_exchange_rate` of the Port crate on a reserve
/// with the given liquidity and supply of shares. Trusted: the call
/// succeeds exactly when the exchange rate fits in 128 bits, and then
/// returns its scaled value.
#[verifier::external_body]
fn port_collateral_exchange_rate(reserve: &Reserve) -> (r: Result<u128, ProgramError>)
    ensures
        r is Ok <==> exchange_rate_scaled(
            reserve.available_amount as nat,
            reserve.borrowed_amount_wads as nat,
            reserve.mint_total_supply as nat,
        ) <= u128::MAX,
        r is Ok ==> r->Ok_0 == exchange_rate_scaled(
            reserve.available_amount as nat,
            reserve.borrowed_amount_wads as nat,
            reserve.mint_total_supply as nat,
        ),
{
    let mut state = port_variable_rate_lending_instructions::state::Reserve::default();
    state.liquidity.available_amount = reserve.available_amount;
    state.liquidity.borrowed_amount_wads = solana_maths::Decimal::from_scaled_val(
        reserve.borrowed_amount_wads,
    );
    state.collateral.mint_total_supply = reserve.mint_total_supply;
    match state.collateral_exchange_rate() {
        Ok(rate) => Ok(rate.0.to_scaled_val()),
        Err(e) => Err(e),
    }
}

/// Calls `CollateralExchangeRate::liquidity_to_collateral` of the Port
/// crate. Trusted: the call succeeds exactly when every step of the
/// market's computation fits, and then returns the shares.
#[verifier::external_body]
fn port_liquidity_to_collateral(rate: Rate, liquidity_amount: u64) -> (r: Result<
    u64,
    ProgramError,
>)
    ensures
        r is Ok <==> liquidity_to_collateral_steps(rate@, liquidity_amount as nat) is Some,
        r is Ok ==> Some(r->Ok_0 as nat) == liquidity_to_collateral_steps(
            rate@,
            liquidity_amount as nat,
        ),
{
    let rate = solana_maths::Rate(solana_maths::U128::from(rate.scaled_val));
    port_variable_rate_lending_instructions::state::CollateralExchangeRate(
        rate,
    ).liquidity_to_collateral(liquidity_amount)
}

/// Calls `CollateralExchangeRate::collateral_to_liquidity` of the Port
/// crate. Trusted: the call succeeds exactly when the rate is not zero and
/// the result fits in 64 bits, and then returns the reserve tokens.
#[verifier::external_body]
fn port_collateral_to_liquidity(rate: Rate, collateral_amount: u64) -> (r: Result<
    u64,
    ProgramError,
>)
    ensures
        r is Ok <==> collateral_to_liquidity_steps(rate@, collateral_amount as nat) is Some,
        r is Ok ==> Some(r->Ok_0 as nat) == collateral_to_liquidity_steps(
            rate@,
            collateral_amount as nat,
        ),
{
    let rate = solana_maths::Rate(solana_maths::U128::from(rate.scaled_val));
    port_variable_rate_lending_instructions::state::CollateralExchangeRate(
        rate,
    ).collateral_to_liquidity(collateral_amount)
}

/// Calls `ReserveLiquidity::utilization_rate` of the Port crate on a
/// reserve with the given liquidity. Trusted: the call succeeds and
/// returns the scaled utilization.
#[verifier::external_body]
fn port_utilization_rate(reserve: &Reserve) -> (r: Result<u128, ProgramError>)
    ensures
        r is Ok,
        r->Ok_0 == utilization_scaled(
            reserve.available_amount as nat,
            reserve.borrowed_amount_wads as nat,
        ),
{
    let mut state = port_variable_rate_lending_instructions::state::Reserve::default();
    state.liquidity.available_amount = reserve.available_amount;
    state.liquidity.borrowed_amount_wads = solana_maths::Decimal::from_scaled_val(
        reserve.borrowed_amount_wads,
    );
    match state.liquidity.utilization_rate() {
        Ok(rate) => Ok(rate.to_scaled_val()),
        Err(e) => Err(e),
    }
}

/// Calls `Reserve::current_borrow_rate` of the Port crate on a reserve with
/// the given liquidity and interest curve. Trusted: the result is a
/// function of those six numbers alone.
#[verifier::external_body]
fn port_current_borrow_rate(reserve: &Reserve) -> (r: Result<u128, ProgramError>)
    ensures
        r is Ok <==> port_borrow_rate(
            reserve.available_amount,
            reserve.borrowed_amount_wads,
            reserve.optimal_utilization_rate,
            reserve.min_borrow_rate,
            reserve.optimal_borrow_rate,
            reserve.max_borrow_rate,
        ) is Some,
        r is Ok ==> Some(r->Ok_0) == port_borrow_rate(
            reserve.available_amount,
            reserve.borrowed_amount_wads,
            reserve.optimal_utilization_rate,
            reserve.min_borrow_rate,
            reserve.optimal_borrow_rate,
            reserve.max_borrow_rate,
        ),
{
    let mut state = port_variable_rate_lending_instructions::state::Reserve::default();
    state.liquidity.available_amount = reserve.available_amount;
    state.liquidity.borrowed_amount_wads = solana_maths::Decimal::from_scaled_val(
        reserve.borrowed_amount_wads,
    );
    state.config.optimal_utilization_rate = reserve.optimal_utilization_rate;
    state.config.min_borrow_rate = reserve.min_borrow_rate;
    state.config.optimal_borrow_rate = reserve.optimal_borrow_rate;
    state.config.max_borrow_rate = reserve.max_borrow_rate;
    match state.current_borrow_rate() {
        Ok(rate) => Ok(rate.to_scaled_val()),
        Err(e) => Err(e),
    }
}

/// The market's steps for turning reserve tokens into shares come to the
/// amount times the rate, rounded down, and fail exactly where that does
/// not fit in 64 bits.
pub proof fn lemma_liquidity_to_collateral_steps(rate: nat, liquidity_amount: nat)
    ensures
        liquidity_to_collateral_steps(rate, liquidity_amount) == if liquidity_to_collateral(
            rate,
            liquidity_amount,
        ) <= u64::MAX {
            Some(liquidity_to_collateral(rate, liquidity_amount))
        } else {
            None
        },
{
    let wad = WAD as int;
    let exact = (liquidity_amount * rate) as int;
    let product = (liquidity_amount * (WAD as nat) * rate) as int;
    assert(product == wad * exact) by (nonlinear_arith)
        requires
            product == liquidity_amount * wad * rate,
            exact == liquidity_amount * rate,
    ;
    assert(0 <= exact) by (nonlinear_arith)
        requires
            exact == liquidity_amount * rate,
    ;
    lemma_div_by_multiple(exact, wad);
    assert(product / wad == exact);
    if product >= u192_limit() {
        lemma_div_is_ordered(u192_limit() as int, product, wad);
        lemma_div_is_ordered(u192_limit() as int / wad, exact, wad);
        assert(u192_limit() == 6277101735386680763835789423207666416102355444464034512896nat)
            by (nonlinear_arith);
        assert(6277101735386680763835789423207666416102355444464034512896int
            / 1_000_000_000_000_000_000int / 1_000_000_000_000_000_000int > u64::MAX);
    }
}

/// The market's steps for turning shares into reserve tokens come to the
/// amount divided by the rate, rounded down, and fail exactly where the
/// rate is zero or that does not fit in 64 bits.
pub proof fn lemma_collateral_to_liquidity_steps(rate: nat, collateral_amount: nat)
    ensures
        collateral_to_liquidity_steps(rate, collateral_amount) == if rate > 0
            && collateral_to_liquidity(rate, collateral_amount) <= u64::MAX {
            Some(collateral_to_liquidity(rate, collateral_amount))
        } else {
            None
        },
{
    if rate > 0 {
        let wad = WAD as int;
        let scaled = (collateral_amount * (WAD as nat)) as int;
        let twice = (collateral_amount * (WAD as nat) * (WAD as nat)) as int;
        assert(twice == wad * scaled) by (nonlinear_arith)
            requires
                twice == collateral_amount * wad * wad,
                scaled == collateral_amount * wad,
        ;
        assert(0 <= scaled) by (nonlinear_arith)
            requires
                scaled == collateral_amount * wad,
                wad > 0,
        ;
        lemma_div_by_multiple(scaled, wad);
        lemma_div_denominator(twice, rate as int, wad);
        lemma_div_denominator(twice, wad, rate as int);
        assert(rate * wad == wad * rate) by (nonlinear_arith);
    }
}

/// Turning reserve tokens into shares and the shares back into reserve
/// tokens at one exchange rate never gives more than was put in.
pub proof fn lemma_round_trip_never_gains(rate: nat, amount: nat)
    requires
        rate > 0,
    ensures
        collateral_to_liquidity(rate, liquidity_to_collateral(rate, amount)) <= amount,
{
    let wad = WAD as int;
    let exact = (amount * rate) as int;
    assert(0 <= exact) by (nonlinear_arith)
        requires
            exact == amount * rate,
    ;
    let shares = exact / wad;
    lemma_fundamental_div_mod(exact, wad);
    lemma_mod_bound(exact, wad);
    assert(shares * wad <= exact) by (nonlinear_arith)
        requires
            exact == wad * shares + exact % wad,
            0 <= exact % wad,
    ;
    assert(0 <= shares) by (nonlinear_arith)
        requires
            shares == exact / wad,
            0 <= exact,
            wad > 0,
    ;
    lemma_div_is_ordered(shares * wad, exact, rate as int);
    assert(exact == (rate as int) * (amount as int)) by (nonlinear_arith)
        requires
            exact == amount * rate,
    ;
    lemma_div_by_multiple(amount as int, rate as int);
}

impl CollateralExchangeRate {
    /// The shares that `liquidity_amount` reserve tokens are worth, rounded
    /// down; `MathError` where they do not fit in 64 bits.
    pub fn liquidity_to_collateral(&self, liquidity_amount: u64) -> (r: Result<u64, ErrorCode>)
        ensures
            liquidity_to_collateral(self.rate@, liquidity_amount as nat) <= u64::MAX ==> r is Ok
                && r->Ok_0 == liquidity_to_collateral(self.rate@, liquidity_amount as nat),
            liquidity_to_collateral(self.rate@, liquidity_amount as nat) > u64::MAX ==> r is Err
                && r->Err_0 == ErrorCode::MathError,
    {
        proof {
            lemma_liquidity_to_collateral_steps(self.rate@, liquidity_amount as nat);
        }
        match port_liquidity_to_collateral(self.rate, liquidity_amount) {
            Ok(shares) => Ok(shares),
            Err(_) => Err(ErrorCode::MathError),
        }
    }

    /// The reserve tokens that `collateral_amount` shares are worth, rounded
    /// down; `MathError` where the rate is zero or they do not fit in 64
    /// bits.
    pub fn collateral_to_liquidity(&self, collateral_amount: u64) -> (r: Result<u64, ErrorCode>)
        ensures
            self.rate@ > 0 && collateral_to_liquidity(self.rate@, collateral_amount as nat)
                <= u64::MAX ==> r is Ok && r->Ok_0 == collateral_to_liquidity(
                self.rate@,
                collateral_amount as nat,
            ),
            self.rate@ == 0 || collateral_to_liquidity(self.rate@, collateral_amount as nat)
                > u64::MAX ==> r is Err && r->Err_0 == ErrorCode::MathError,
    {
        proof {
            lemma_collateral_to_liquidity_steps(self.rate@, collateral_amount as nat);
        }
        match port_collateral_to_liquidity(self.rate, collateral_amount) {
            Ok(amount) => Ok(amount),
            Err(_) => Err(ErrorCode::MathError),
        }
    }
}

impl Reserve {
    /// The scaled exchange rate of this reserve.
    pub open spec fn spec_exchange_rate(&self) -> nat {
        exchange_rate_scaled(
            self.available_amount as nat,
            self.borrowed_amount_wads as nat,
            self.mint_total_supply as nat,
        )
    }

    /// The scaled utilization of this reserve.
    pub open spec fn spec_utilization(&self) -> nat {
        utilization_scaled(self.available_amount as nat, self.borrowed_amount_wads as nat)
    }

    /// What the market's borrow rate for this reserve is, `None` where the
    /// market fails to compute it.
    pub open spec fn spec_borrow_rate(&self) -> Option<u128> {
        port_borrow_rate(
            self.available_amount,
            self.borrowed_amount_wads,
            self.optimal_utilization_rate,
            self.min_borrow_rate,
            self.optimal_borrow_rate,
            self.max_borrow_rate,
        )
    }

    /// The rate at which this reserve exchanges reserve tokens for shares;
    /// `MathError` where the rate does not fit in 128 bits.
    pub fn collateral_exchange_rate(&self) -> (r: Result<CollateralExchangeRate, ErrorCode>)
        ensures
            self.spec_exchange_rate() <= u128::MAX ==> r is Ok && r->Ok_0.rate@
                == self.spec_exchange_rate(),
            self.spec_exchange_rate() > u128::MAX ==> r is Err && r->Err_0 == ErrorCode::MathError,
    {
        match port_collateral_exchange_rate(self) {
            Ok(scaled_val) => Ok(CollateralExchangeRate { rate: Rate { scaled_val } }),
            Err(_) => Err(ErrorCode::MathError),
        }
    }
}

/// The utilization of a reserve is at most one.
pub proof fn lemma_utilization_at_most_one(available_amount: nat, borrowed_amount_wads: nat)
    ensures
        utilization_scaled(available_amount, borrowed_amount_wads) <= WAD,
{
    let total = total_liquidity_wads(available_amount, borrowed_amount_wads) as int;
    let wad = WAD as int;
    if total > 0 {
        let scaled = (borrowed_amount_wads * (WAD as nat)) as int;
        assert(scaled <= total * wad) by (nonlinear_arith)
            requires
                scaled == borrowed_amount_wads * wad,
                borrowed_amount_wads <= total,
                wad > 0,
        ;
        assert(0 <= scaled) by (nonlinear_arith)
            requires
                scaled == borrowed_amount_wads * wad,
                wad > 0,
        ;
        lemma_div_is_ordered(scaled, total * wad, total);
        lemma_div_by_multiple(wad, total);
        assert(total * wad == wad * total) by (nonlinear_arith);
    }
}

/// The rate that a scaled value from the market stands for;
/// `OverflowError` where the value does not fit in 64 bits.
pub fn rate_from_market(scaled_val: u128) -> (r: Result<Rate, ErrorCode>)
    ensures
        scaled_val <= u64::MAX ==> r is Ok && r->Ok_0@ == scaled_val,
        scaled_val > u64::MAX ==> r is Err && r->Err_0 == ErrorCode::OverflowError,
{
    if scaled_val > u64::MAX as u128 {
        Err(ErrorCode::OverflowError)
    } else {
        Ok(Rate::from_scaled_val(scaled_val as u64))
    }
}

impl ReserveAccessor for Reserve {
    open spec fn spec_available_amount(&self) -> u64 {
        self.available_amount
    }

    /// The part of the reserve's liquidity that is lent out, rounded down.
    fn utilization_rate(&self) -> (r: Result<Rate, ErrorCode>)
        ensures
            r is Ok,
            r->Ok_0@ == self.spec_utilization(),
    {
        proof {
            lemma_utilization_at_most_one(
                self.available_amount as nat,
                self.borrowed_amount_wads as nat,
            );
        }
        match port_utilization_rate(self) {
            Ok(scaled_val) => rate_from_market(scaled_val),
            Err(_) => Err(ErrorCode::MathError),
        }
    }

    /// The market's borrow rate for this reserve: `MathError` where the
    /// market fails to compute it, `OverflowError` where it does not fit in
    /// 64 bits.
    fn borrow_rate(&self) -> (r: Result<Rate, ErrorCode>)
        ensures
            match self.spec_borrow_rate() {
                Some(scaled_val) => if scaled_val <= u64::MAX {
                    r is Ok && r->Ok_0@ == scaled_val
                } else {
                    r is Err && r->Err_0 == ErrorCode::OverflowError
                },
                None => r is Err && r->Err_0 == ErrorCode::MathError,
            },
    {
        match port_current_borrow_rate(self) {
            Ok(scaled_val) => rate_from_market(scaled_val),
            Err(_) => Err(ErrorCode::MathError),
        }
    }

    /// This reserve with `allocation` more reserve tokens available and
    /// everything else as it is.
    fn reserve_with_deposit(&self, allocation: u64) -> (r: Result<Self, ErrorCode>)
        ensures
            r is Ok ==> r->Ok_0 == (Reserve {
                available_amount: (self.available_amount + allocation) as u64,
                ..*self
            }),
    {
        match self.available_amount.checked_add(allocation) {
            Some(available_amount) => Ok(Reserve { available_amount, ..*self }),
            None => Err(ErrorCode::OverflowError),
        }
    }
}

/// What a deposit into or a redeem from the Port market works on.
#[derive(Clone, Copy, Debug)]
pub struct PortAccounts {
    /// The vault's record.
    pub vault: Vault,
    /// The account that holds the vault's reserve tokens.
    pub vault_reserve_token: TokenAccount,
    /// The account that holds the vault's shares of the Port reserve.
    pub vault_port_lp_token: TokenAccount,
    /// The Port reserve.
    pub port_reserve: Reserve,
    pub clock: Clock,
}

impl LendingMarket for PortAccounts {
    open spec fn spec_provider(&self) -> Provider {
        Provider::Port
    }

    open spec fn spec_reserve_tokens_in_vault(&self) -> u64 {
        self.vault_reserve_token.amount
    }

    open spec fn spec_lp_tokens_in_vault(&self) -> u64 {
        self.vault_port_lp_token.amount
    }

    /// At the reserve's exchange rate, rounded down; `None` where the rate
    /// does not fit in 128 bits or the shares do not fit in 64.
    open spec fn spec_reserve_to_lp(&self, amount: u64) -> Option<u64> {
        let rate = self.port_reserve.spec_exchange_rate();
        if rate > u128::MAX || liquidity_to_collateral(rate, amount as nat) > u64::MAX {
            None
        } else {
            Some(liquidity_to_collateral(rate, amount as nat) as u64)
        }
    }

    /// At the reserve's exchange rate, rounded down; `None` where the rate
    /// is zero or does not fit in 128 bits, or the reserve tokens do not
    /// fit in 64.
    open spec fn spec_lp_to_reserve(&self, amount: u64) -> Option<u64> {
        let rate = self.port_reserve.spec_exchange_rate();
        if rate > u128::MAX || rate == 0 || collateral_to_liquidity(rate, amount as nat)
            > u64::MAX {
            None
        } else {
            Some(collateral_to_liquidity(rate, amount as nat) as u64)
        }
    }

    fn deposit(&self, amount: u64) -> (call: Option<MarketCall>) {
        match amount {
            0 => None,
            _ => Some(MarketCall::Deposit { provider: Provider::Port, amount }),
        }
    }

    fn redeem(&self, amount: u64) -> (call: Option<MarketCall>) {
        match amount {
            0 => None,
            _ => Some(MarketCall::Redeem { provider: Provider::Port, amount }),
        }
    }

    fn convert_amount_reserve_to_lp(&self, amount: u64) -> (r: Result<u64, ErrorCode>)
        ensures
            r is Err ==> r->Err_0 == ErrorCode::MathError,
    {
        let exchange_rate = match self.port_reserve.collateral_exchange_rate() {
            Ok(rate) => rate,
            Err(e) => {
                return Err(e);
            },
        };
        match exchange_rate.liquidity_to_collateral(amount) {
            Ok(val) => Ok(val),
            Err(err) => Err(err),
        }
    }

    fn convert_amount_lp_to_reserve(&self, amount: u64) -> (r: Result<u64, ErrorCode>)
        ensures
            r is Err ==> r->Err_0 == ErrorCode::MathError,
    {
        let exchange_rate = match self.port_reserve.collateral_exchange_rate() {
            Ok(rate) => rate,
            Err(e) => {
                return Err(e);
            },
        };
        match exchange_rate.collateral_to_liquidity(amount) {
            Ok(val) => Ok(val),
            Err(err) => Err(err),
        }
    }

    fn reserve_tokens_in_vault(&self) -> (amount: u64) {
        self.vault_reserve_token.amount
    }

    fn lp_tokens_in_vault(&self) -> (amount: u64) {
        self.vault_port_lp_token.amount
    }

    fn provider(&self) -> (p: Provider) {
        Provider::Port
    }

    proof fn lemma_round_trip_never_gains(&self, amount: u64) {
        let rate = self.port_reserve.spec_exchange_rate();
        if rate > 0 {
            lemma_round_trip_never_gains(rate, amount as nat);
        }
    }
}

/// What attaching the Port market to a vault works on.
#[derive(Clone, Copy, Debug)]
pub struct InitializePort {
    /// The vault's record.
    pub vault: Vault,
    /// The address of the account for the vault's shares of the Port
    /// reserve.
    pub vault_port_lp_token: Pubkey,
    /// The address of the Port reserve.
    pub port_reserve: Pubkey,
}

impl YieldSourceInitializer for InitializePort {
    /// Records the addresses of the Port reserve and of the vault's share
    /// account in the vault.
    fn initialize_yield_source(&mut self) -> (r: Result<(), ErrorCode>)
        ensures
            r is Ok,
            *final(self) == (InitializePort {
                vault: Vault {
                    port_reserve: old(self).port_reserve,
                    vault_port_lp_token: old(self).vault_port_lp_token,
                    ..old(self).vault
                },
                ..*old(self)
            }),
    {
        self.vault.port_reserve = self.port_reserve;
        self.vault.vault_port_lp_token = self.vault_port_lp_token;
        Ok(())
    }
}

/// What a refresh of the vault's holding in the Port market works on.
#[derive(Clone, Copy, Debug)]
pub struct RefreshPort {
    /// The vault's record.
    pub vault: Vault,
    /// The account that holds the vault's shares of the Port reserve.
    pub vault_port_lp_token: TokenAccount,
    /// The Port reserve, as the market shows it after its own refresh.
    pub port_reserve: Reserve,
    pub clock: Clock,
}

impl Refresher for RefreshPort {
    open spec fn spec_provider(&self) -> Provider {
        Provider::Port
    }

    open spec fn spec_vault(&self) -> Vault {
        self.vault
    }

    open spec fn spec_slot(&self) -> u64 {
        self.clock.slot
    }

    open spec fn spec_holding(&self) -> Option<u64> {
        let rate = self.port_reserve.spec_exchange_rate();
        let lp = self.vault_port_lp_token.amount as nat;
        if rate > u128::MAX || rate == 0 || collateral_to_liquidity(rate, lp) > u64::MAX {
            None
        } else {
            Some(collateral_to_liquidity(rate, lp) as u64)
        }
    }

    fn update_actual_allocation(&mut self) -> (r: Result<(), ErrorCode>)
        ensures
            r is Err ==> r->Err_0 == ErrorCode::MathError && *final(self) == *old(self),
            final(self).vault_port_lp_token == old(self).vault_port_lp_token,
            final(self).port_reserve == old(self).port_reserve,
            final(self).clock == old(self).clock,
    {
        let port_exchange_rate = match self.port_reserve.collateral_exchange_rate() {
            Ok(rate) => rate,
            Err(e) => {
                return Err(e);
            },
        };
        let port_value = match port_exchange_rate.collateral_to_liquidity(
            self.vault_port_lp_token.amount,
        ) {
            Ok(value) => value,
            Err(e) => {
                return Err(e);
            },
        };
        self.vault.actual_allocations.index_mut(Provider::Port).update(port_value, self.clock.slot);
        Ok(())
    }
}

} // verus!
