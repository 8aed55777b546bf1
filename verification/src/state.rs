//! The vault's record: its configuration, its value, and what it wants to
//! hold and does hold with each provider, each number stamped with the slot
//! at which it was last computed.

use vstd::prelude::*;
use vstd::std_specs::cmp::{PartialEqSpecImpl, PartialOrdSpecImpl};
use core::cmp::Ordering;
use crate::asset_container::AssetContainer;
use crate::errors::ErrorCode;
use crate::math::{calc_carry_fees, calc_mgmt_fees, carry_fee, mgmt_fee};
use crate::reserves::Provider;

verus! {

/// A value is stale once this many slots have passed since it was stamped.
pub const STALE_AFTER_SLOTS_ELAPSED: u64 = 2;

/// The slot at which a value was last computed, and whether the value has
/// been declared stale since.
#[derive(Clone, Copy, Debug)]
pub struct LastUpdate {
    pub slot: u64,
    pub stale: bool,
}

impl LastUpdate {
    /// Whether a value with this stamp may be used at `slot`: it was not
    /// declared stale, and fewer than two slots have passed since the stamp.
    pub open spec fn is_fresh(&self, slot: u64) -> bool {
        !self.stale && self.slot <= slot && slot - self.slot < STALE_AFTER_SLOTS_ELAPSED
    }

    /// A stamp for `slot` that counts as stale until it is updated.
    pub fn new(slot: u64) -> (r: Self)
        ensures
            r.slot == slot,
            r.stale,
    {
        Self { slot, stale: true }
    }

    /// The number of slots from the stamp to `slot`, or `MathError` where
    /// `slot` lies before the stamp.
    pub fn slots_elapsed(&self, slot: u64) -> (r: Result<u64, ErrorCode>)
        ensures
            slot >= self.slot ==> r is Ok && r->Ok_0 == slot - self.slot,
            slot < self.slot ==> r is Err && r->Err_0 == ErrorCode::MathError,
    {
        match slot.checked_sub(self.slot) {
            Some(elapsed) => Ok(elapsed),
            None => Err(ErrorCode::MathError),
        }
    }

    /// Stamps with `slot` and clears the stale mark. The value is then fresh
    /// at `slot` and at the slot after it, and at no other slot.
    pub fn update_slot(&mut self, slot: u64)
        ensures
            final(self).slot == slot,
            !final(self).stale,
            forall|s: u64| #[trigger] final(self).is_fresh(s) <==> slot <= s < slot + 2,
    {
        self.slot = slot;
        self.stale = false;
    }

    /// Declares the value stale; the stamp stays as it is.
    pub fn mark_stale(&mut self)
        ensures
            final(self).stale,
            final(self).slot == old(self).slot,
            forall|s: u64| !#[trigger] final(self).is_fresh(s),
    {
        self.stale = true;
    }

    /// Whether the value is stale at `slot`. A value that was declared stale
    /// is stale at every slot; for any other, a `slot` before the stamp is a
    /// `MathError`.
    pub fn is_stale(&self, slot: u64) -> (r: Result<bool, ErrorCode>)
        ensures
            self.stale ==> r is Ok && r->Ok_0,
            !self.stale && slot < self.slot ==> r is Err && r->Err_0 == ErrorCode::MathError,
            !self.stale && slot >= self.slot ==> r is Ok && r->Ok_0 == !self.is_fresh(slot),
    {
        if self.stale {
            return Ok(true);
        }
        match self.slots_elapsed(slot) {
            Ok(elapsed) => Ok(elapsed >= STALE_AFTER_SLOTS_ELAPSED),
            Err(e) => Err(e),
        }
    }
}

impl Default for LastUpdate {
    /// The stamp of slot zero, not declared stale.
    fn default() -> (r: Self)
        ensures
            r.slot == 0,
            !r.stale,
    {
        Self { slot: 0, stale: false }
    }
}

impl PartialEq for LastUpdate {
    /// Two stamps are equal where their slots are; the stale mark does not
    /// count.
    fn eq(&self, other: &Self) -> (r: bool) {
        self.slot == other.slot
    }
}

impl PartialEqSpecImpl for LastUpdate {
    open spec fn obeys_eq_spec() -> bool {
        true
    }

    open spec fn eq_spec(&self, other: &Self) -> bool {
        self.slot == other.slot
    }
}

impl PartialOrd for LastUpdate {
    /// Stamps are ordered by their slots.
    fn partial_cmp(&self, other: &Self) -> (r: Option<Ordering>) {
        if self.slot < other.slot {
            Some(Ordering::Less)
        } else if self.slot == other.slot {
            Some(Ordering::Equal)
        } else {
            Some(Ordering::Greater)
        }
    }
}

impl PartialOrdSpecImpl for LastUpdate {
    open spec fn obeys_partial_cmp_spec() -> bool {
        true
    }

    open spec fn partial_cmp_spec(&self, other: &Self) -> Option<Ordering> {
        if self.slot < other.slot {
            Some(Ordering::Less)
        } else if self.slot == other.slot {
            Some(Ordering::Equal)
        } else {
            Some(Ordering::Greater)
        }
    }
}

/// A value that is fresh at some slot is fresh at exactly the stamp's slot
/// and the one after it; so a value that is stale at a slot at or after the
/// stamp stays stale at every later slot.
pub proof fn lemma_staleness_is_monotonic(update: LastUpdate, earlier: u64, later: u64)
    requires
        update.slot <= earlier <= later,
        !update.is_fresh(earlier),
    ensures
        !update.is_fresh(later),
{
}

/// A stamp of slot `t` that was not declared stale is fresh at `t` and at
/// `t + 1`, and stale at `t + 2`.
pub proof fn lemma_freshness_window(update: LastUpdate)
    requires
        !update.stale,
        update.slot + 2 <= u64::MAX,
    ensures
        update.is_fresh(update.slot),
        update.is_fresh((update.slot + 1) as u64),
        !update.is_fresh((update.slot + 2) as u64),
{
}

/// A number together with the stamp of its last computation.
#[derive(Clone, Copy, Debug)]
pub struct SlotTrackecValue {
    pub value: u64,
    pub last_update: LastUpdate,
}

impl SlotTrackecValue {
    /// Sets the value and stamps it with `slot`.
    pub fn update(&mut self, value: u64, slot: u64)
        ensures
            final(self).value == value,
            final(self).last_update.slot == slot,
            !final(self).last_update.stale,
    {
        self.value = value;
        self.last_update.update_slot(slot);
    }

    /// Sets the value to zero and declares it stale.
    pub fn reset(&mut self)
        ensures
            final(self).value == 0,
            final(self).last_update.stale,
            final(self).last_update.slot == old(self).last_update.slot,
    {
        self.value = 0;
        self.last_update.mark_stale()
    }
}

impl Default for SlotTrackecValue {
    /// The value zero with the default stamp.
    fn default() -> (r: Self)
        ensures
            r.value == 0,
            r.last_update.slot == 0,
            !r.last_update.stale,
    {
        Self { value: 0, last_update: LastUpdate { slot: 0, stale: false } }
    }
}

/// One stamped value per provider.
#[derive(Clone, Copy, Debug)]
pub struct Allocations {
    pub solend: SlotTrackecValue,
    pub port: SlotTrackecValue,
    pub jet: SlotTrackecValue,
}

impl Allocations {
    /// The stamped value of `provider`.
    pub open spec fn spec_index(&self, provider: Provider) -> SlotTrackecValue {
        match provider {
            Provider::Solend => self.solend,
            Provider::Port => self.port,
            Provider::Jet => self.jet,
        }
    }

    /// The stamped value of `provider`.
    pub fn index(&self, provider: Provider) -> (value: &SlotTrackecValue)
        ensures
            *value == self[provider],
    {
        match provider {
            Provider::Solend => &self.solend,
            Provider::Port => &self.port,
            Provider::Jet => &self.jet,
        }
    }

    /// The place of the stamped value of `provider`; the other providers'
    /// values stay as they are.
    pub fn index_mut(&mut self, provider: Provider) -> (value: &mut SlotTrackecValue)
        ensures
            *value == old(self)[provider],
            final(self)[provider] == *final(value),
            forall|other: Provider| other != provider ==> #[trigger] final(self)[other] == old(self)[other],
    {
        match provider {
            Provider::Solend => &mut self.solend,
            Provider::Port => &mut self.port,
            Provider::Jet => &mut self.jet,
        }
    }

    /// The allocations that hold each provider's number from `c`, all
    /// stamped with `slot`.
    pub fn from_container(c: AssetContainer<u64>, slot: u64) -> (r: Self)
        requires
            c.wf(),
        ensures
            forall|p: Provider|
                #![trigger r[p]]
                r[p].value == c[p] && r[p].last_update.slot == slot && !r[p].last_update.stale,
    {
        let mut acc: Allocations = Default::default();
        let mut providers = Provider::iter();
        loop
            invariant
                c.wf(),
                forall|p: Provider|
                    #![trigger acc[p]]
                    p.ordinal() < providers.position() ==> acc[p].value == c[p]
                        && acc[p].last_update.slot == slot && !acc[p].last_update.stale,
            ensures
                forall|p: Provider|
                    #![trigger acc[p]]
                    acc[p].value == c[p] && acc[p].last_update.slot == slot
                        && !acc[p].last_update.stale,
            decreases crate::reserves::PROVIDER_COUNT - providers.position(),
        {
            match providers.next() {
                Some(provider) => {
                    acc.index_mut(provider).update(*c.index(provider), slot);
                },
                None => {
                    break ;
                },
            }
        }
        acc
    }
}

impl Default for Allocations {
    /// Zero for every provider, with the default stamp.
    fn default() -> (r: Self)
        ensures
            forall|p: Provider|
                #![trigger r[p]]
                r[p].value == 0 && r[p].last_update.slot == 0 && !r[p].last_update.stale,
    {
        let zero = SlotTrackecValue { value: 0, last_update: LastUpdate { slot: 0, stale: false } };
        Self { solend: zero, port: zero, jet: zero }
    }
}

/// How a rebalance is carried out.
#[derive(Clone, Copy, Debug, PartialEq, Eq, Structural)]
pub enum RebalanceMode {
    Calculator,
    ProofChecker,
}

/// How the target allocation is chosen.
#[derive(Clone, Copy, Debug, PartialEq, Eq, Structural)]
pub enum StrategyType {
    MaxYield,
    EqualAllocation,
}

/// The configuration that a vault is asked to take.
#[derive(Clone, Copy, Debug)]
pub struct VaultConfigArg {
    pub deposit_cap: u64,
    pub fee_carry_bps: u32,
    pub fee_mgmt_bps: u32,
    pub referral_fee_pct: u8,
    pub allocation_cap_pct: u8,
    pub rebalance_mode: RebalanceMode,
    pub strategy_type: StrategyType,
}

/// The configuration of a vault.
#[derive(Clone, Copy, Debug)]
pub struct VaultConfig {
    /// The largest value that the vault accepts to hold.
    pub deposit_cap: u64,
    /// The performance fee, in basis points of the profit.
    pub fee_carry_bps: u32,
    /// The management fee, in basis points of the value per year.
    pub fee_mgmt_bps: u32,
    /// The share of the fees that goes to the referrer, in percent.
    pub referral_fee_pct: u8,
    /// The largest weight that one provider may have, in percent.
    pub allocation_cap_pct: u8,
    pub rebalance_mode: RebalanceMode,
    pub strategy_type: StrategyType,
}

impl VaultConfig {
    /// The limits that a configuration keeps: no fee above one hundred
    /// percent, no more than half of the fees to the referrer, and a cap
    /// that lets three providers share the whole and keeps each below it.
    pub open spec fn valid(&self) -> bool {
        &&& self.fee_carry_bps <= 10000
        &&& self.fee_mgmt_bps <= 10000
        &&& self.referral_fee_pct <= 50
        &&& 34 <= self.allocation_cap_pct < 100
    }

    /// The error that `new` returns for `config`, if it rejects it. The
    /// limits are tried in the order of the fields.
    pub open spec fn rejection(config: VaultConfigArg) -> Option<ErrorCode> {
        if config.fee_carry_bps > 10000 {
            Some(ErrorCode::InvalidFeeConfig)
        } else if config.fee_mgmt_bps > 10000 {
            Some(ErrorCode::InvalidFeeConfig)
        } else if config.referral_fee_pct > 50 {
            Some(ErrorCode::InvalidReferralFeeConfig)
        } else if !(34 <= config.allocation_cap_pct < 100) {
            Some(ErrorCode::InvalidAloocationCap)
        } else {
            None
        }
    }

    /// The configuration with the values of `config`, where they keep the
    /// limits; else the error of the first limit that is broken.
    pub fn new(config: VaultConfigArg) -> (r: Result<Self, ErrorCode>)
        ensures
            match Self::rejection(config) {
                Some(e) => r is Err && r->Err_0 == e,
                None => {
                    &&& r is Ok
                    &&& r->Ok_0.valid()
                    &&& r->Ok_0.deposit_cap == config.deposit_cap
                    &&& r->Ok_0.fee_carry_bps == config.fee_carry_bps
                    &&& r->Ok_0.fee_mgmt_bps == config.fee_mgmt_bps
                    &&& r->Ok_0.referral_fee_pct == config.referral_fee_pct
                    &&& r->Ok_0.allocation_cap_pct == config.allocation_cap_pct
                    &&& r->Ok_0.rebalance_mode == config.rebalance_mode
                    &&& r->Ok_0.strategy_type == config.strategy_type
                },
            },
    {
        // Fee cannot be over 100%
        if config.fee_carry_bps > 10000 {
            return Err(ErrorCode::InvalidFeeConfig);
        }
        // Fee cannot be over 100%
        if config.fee_mgmt_bps > 10000 {
            return Err(ErrorCode::InvalidFeeConfig);
        }
        // Referral percentage cannot be over 50%
        if config.referral_fee_pct > 50 {
            return Err(ErrorCode::InvalidReferralFeeConfig);
        }
        // The cap must let the providers share the whole between them
        if config.allocation_cap_pct < 34 || config.allocation_cap_pct >= 100 {
            return Err(ErrorCode::InvalidAloocationCap);
        }
        Ok(
            Self {
                deposit_cap: config.deposit_cap,
                fee_carry_bps: config.fee_carry_bps,
                fee_mgmt_bps: config.fee_mgmt_bps,
                referral_fee_pct: config.referral_fee_pct,
                allocation_cap_pct: config.allocation_cap_pct,
                rebalance_mode: config.rebalance_mode,
                strategy_type: config.strategy_type,
            },
        )
    }
}

/// A configuration is accepted exactly when it keeps the limits.
pub proof fn lemma_config_accepted_iff_valid(config: VaultConfigArg)
    ensures
        VaultConfig::rejection(config) is None <==> (VaultConfig {
            deposit_cap: config.deposit_cap,
            fee_carry_bps: config.fee_carry_bps,
            fee_mgmt_bps: config.fee_mgmt_bps,
            referral_fee_pct: config.referral_fee_pct,
            allocation_cap_pct: config.allocation_cap_pct,
            rebalance_mode: config.rebalance_mode,
            strategy_type: config.strategy_type,
        }).valid(),
{
}

/// The bit that halts reconciles.
pub const HALT_RECONCILES: u32 = 1;

/// The bit that halts refreshes.
pub const HALT_REFRESHED: u32 = 2;

/// The bit that halts deposits and withdrawals.
pub const HALT_DEPOSITS_WITHDRAWS: u32 = 4;

/// The bits of all three halts together.
pub const HALT_ALL: u32 = 7;

/// Which of the vault's operations are halted.
#[derive(Clone, Copy, Debug, PartialEq, Eq, Structural)]
pub struct VaultFlags {
    pub reconciles: bool,
    pub refreshed: bool,
    pub deposits_withdraws: bool,
}

impl VaultFlags {
    /// The bit pattern of a set of halts.
    pub open spec fn spec_bits(self) -> u32 {
        (if self.reconciles {
            HALT_RECONCILES
        } else {
            0u32
        }) | (if self.refreshed {
            HALT_REFRESHED
        } else {
            0u32
        }) | (if self.deposits_withdraws {
            HALT_DEPOSITS_WITHDRAWS
        } else {
            0u32
        })
    }

    /// Whether a bit pattern holds halt bits only.
    pub open spec fn valid_bits(bits: u32) -> bool {
        bits & !HALT_ALL == 0
    }

    /// Whether every halt of `other` is also in `self`.
    pub open spec fn spec_contains(self, other: VaultFlags) -> bool {
        &&& other.reconciles ==> self.reconciles
        &&& other.refreshed ==> self.refreshed
        &&& other.deposits_withdraws ==> self.deposits_withdraws
    }

    /// The halts of `self` and those of `other` together.
    pub open spec fn spec_union(self, other: VaultFlags) -> VaultFlags {
        VaultFlags {
            reconciles: self.reconciles || other.reconciles,
            refreshed: self.refreshed || other.refreshed,
            deposits_withdraws: self.deposits_withdraws || other.deposits_withdraws,
        }
    }

    /// No halt.
    pub fn empty() -> (f: VaultFlags)
        ensures
            f == (VaultFlags { reconciles: false, refreshed: false, deposits_withdraws: false }),
    {
        VaultFlags { reconciles: false, refreshed: false, deposits_withdraws: false }
    }

    /// The halt of reconciles alone.
    pub fn halt_reconciles() -> (f: VaultFlags)
        ensures
            f == (VaultFlags { reconciles: true, refreshed: false, deposits_withdraws: false }),
    {
        VaultFlags { reconciles: true, refreshed: false, deposits_withdraws: false }
    }

    /// The halt of refreshes alone.
    pub fn halt_refreshed() -> (f: VaultFlags)
        ensures
            f == (VaultFlags { reconciles: false, refreshed: true, deposits_withdraws: false }),
    {
        VaultFlags { reconciles: false, refreshed: true, deposits_withdraws: false }
    }

    /// The halt of deposits and withdrawals alone.
    pub fn halt_deposits_withdraws() -> (f: VaultFlags)
        ensures
            f == (VaultFlags { reconciles: false, refreshed: false, deposits_withdraws: true }),
    {
        VaultFlags { reconciles: false, refreshed: false, deposits_withdraws: true }
    }

    /// All three halts: the union of the single ones.
    pub fn halt_all() -> (f: VaultFlags)
        ensures
            f == (VaultFlags { reconciles: true, refreshed: true, deposits_withdraws: true }),
            f.spec_bits() == HALT_ALL,
    {
        proof {
            assert(1u32 | 2u32 | 4u32 == 7u32) by (bit_vector);
        }
        Self::halt_reconciles().union(Self::halt_refreshed()).union(Self::halt_deposits_withdraws())
    }

    /// The halts that a bit pattern stands for, or `None` where it holds a
    /// bit that is no halt.
    pub fn from_bits(bits: u32) -> (r: Option<VaultFlags>)
        ensures
            Self::valid_bits(bits) ==> r is Some && r->0.spec_bits() == bits,
            !Self::valid_bits(bits) ==> r is None,
    {
        if bits & !HALT_ALL != 0 {
            return None;
        }
        proof {
            assert(bits & !7u32 == 0 ==> ((if bits & 1u32 != 0 {
                1u32
            } else {
                0u32
            }) | (if bits & 2u32 != 0 {
                2u32
            } else {
                0u32
            }) | (if bits & 4u32 != 0 {
                4u32
            } else {
                0u32
            })) == bits) by (bit_vector);
        }
        Some(
            VaultFlags {
                reconciles: bits & HALT_RECONCILES != 0,
                refreshed: bits & HALT_REFRESHED != 0,
                deposits_withdraws: bits & HALT_DEPOSITS_WITHDRAWS != 0,
            },
        )
    }

    /// The bit pattern of these halts.
    pub fn bits(&self) -> (bits: u32)
        ensures
            bits == self.spec_bits(),
            Self::valid_bits(bits),
    {
        let r: u32 = if self.reconciles {
            HALT_RECONCILES
        } else {
            0
        };
        let f: u32 = if self.refreshed {
            HALT_REFRESHED
        } else {
            0
        };
        let d: u32 = if self.deposits_withdraws {
            HALT_DEPOSITS_WITHDRAWS
        } else {
            0
        };
        proof {
            assert((r == 0u32 || r == 1u32) && (f == 0u32 || f == 2u32) && (d == 0u32 || d == 4u32)
                ==> (r | f | d) & !7u32 == 0) by (bit_vector);
        }
        r | f | d
    }

    /// Whether every halt of `other` is also in `self`.
    pub fn contains(&self, other: VaultFlags) -> (b: bool)
        ensures
            b == self.spec_contains(other),
    {
        (!other.reconciles || self.reconciles) && (!other.refreshed || self.refreshed) && (
        !other.deposits_withdraws || self.deposits_withdraws)
    }

    /// The halts of `self` and those of `other` together.
    pub fn union(self, other: VaultFlags) -> (f: VaultFlags)
        ensures
            f == self.spec_union(other),
    {
        VaultFlags {
            reconciles: self.reconciles || other.reconciles,
            refreshed: self.refreshed || other.refreshed,
            deposits_withdraws: self.deposits_withdraws || other.deposits_withdraws,
        }
    }
}

/// A set of halts and its bit pattern stand for each other: the pattern of
/// a set is valid, and two sets with the same pattern are the same set.
pub proof fn lemma_flag_bits_are_faithful(a: VaultFlags, b: VaultFlags)
    ensures
        VaultFlags::valid_bits(a.spec_bits()),
        a.spec_bits() == b.spec_bits() ==> a == b,
        a.spec_union(b).spec_bits() == a.spec_bits() | b.spec_bits(),
{
    let (ar, af, ad) = (a.reconciles, a.refreshed, a.deposits_withdraws);
    let (br, bf, bd) = (b.reconciles, b.refreshed, b.deposits_withdraws);
    assert(((if ar { 1u32 } else { 0u32 }) | (if af { 2u32 } else { 0u32 }) | (if ad { 4u32 } else { 0u32 })) & !7u32 == 0) by (bit_vector);
    assert(((if ar { 1u32 } else { 0u32 }) | (if af { 2u32 } else { 0u32 }) | (if ad { 4u32 } else { 0u32 }))
        == ((if br { 1u32 } else { 0u32 }) | (if bf { 2u32 } else { 0u32 }) | (if bd { 4u32 } else { 0u32 }))
        ==> ar == br && af == bf && ad == bd) by (bit_vector);
    assert(((if ar || br { 1u32 } else { 0u32 }) | (if af || bf { 2u32 } else { 0u32 }) | (if ad || bd { 4u32 } else { 0u32 }))
        == ((if ar { 1u32 } else { 0u32 }) | (if af { 2u32 } else { 0u32 }) | (if ad { 4u32 } else { 0u32 }))
        | ((if br { 1u32 } else { 0u32 }) | (if bf { 2u32 } else { 0u32 }) | (if bd { 4u32 } else { 0u32 }))) by (bit_vector);
}

/// The address of an account: 32 bytes.
#[derive(Clone, Copy, Debug)]
pub struct Pubkey {
    pub bytes: [u8; 32],
}

impl Default for Pubkey {
    /// The address of 32 zero bytes.
    fn default() -> (r: Self)
        ensures
            forall|i: int| 0 <= i < 32 ==> r.bytes@[i] == 0,
    {
        Pubkey { bytes: [0u8;32] }
    }
}

/// The middle seed of a vault's signing authority: the bytes of
/// `authority`.
pub const AUTHORITY_SEED: [u8; 9] = [97, 117, 116, 104, 111, 114, 105, 116, 121];

/// The record of a vault.
#[derive(Clone, Copy, Debug)]
pub struct Vault {
    /// The version of the record's layout.
    pub version: [u8; 3],
    /// The account that may reconfigure the vault.
    pub owner: Pubkey,
    /// The authority that signs for the vault's own accounts.
    pub vault_authority: Pubkey,
    pub authority_seed: Pubkey,
    pub authority_bump: [u8; 1],
    pub solend_reserve: Pubkey,
    pub port_reserve: Pubkey,
    pub jet_reserve: Pubkey,
    /// The account that holds the vault's reserve tokens.
    pub vault_reserve_token: Pubkey,
    pub vault_solend_lp_token: Pubkey,
    pub vault_port_lp_token: Pubkey,
    pub vault_jet_lp_token: Pubkey,
    /// The mint of the vault's claim tokens.
    pub lp_token_mint: Pubkey,
    pub reserve_token_mint: Pubkey,
    pub fee_receiver: Pubkey,
    pub referral_fee_receiver: Pubkey,
    /// The halts that are in force.
    pub bitflags: VaultFlags,
    /// The total value that the vault holds, in reserve tokens.
    pub value: SlotTrackecValue,
    /// What the vault wants to hold with each provider.
    pub target_allocations: Allocations,
    pub config: VaultConfig,
    /// What the vault was last seen to hold with each provider.
    pub actual_allocations: Allocations,
}

impl Vault {
    /// The fees that fall due when the vault's value is found to be
    /// `new_vault_value` at `slot`: the performance fee on what the value
    /// has grown by, and the management fee on the new value for the slots
    /// since the value was last stamped.
    pub open spec fn fees_due(&self, new_vault_value: u64, slot: u64) -> nat {
        carry_fee(
            if new_vault_value >= self.value.value {
                (new_vault_value - self.value.value) as nat
            } else {
                0
            },
            self.config.fee_carry_bps as nat,
        ) + mgmt_fee(
            new_vault_value as nat,
            self.config.fee_mgmt_bps as nat,
            (slot - self.value.last_update.slot) as nat,
        )
    }

    /// A vault with the given configuration that holds nothing: no halts,
    /// all addresses zero, all values zero and stamped with `slot`; the
    /// total value counts as stale until it is refreshed.
    pub fn new(config: VaultConfig, slot: u64) -> (vault: Vault)
        ensures
            vault.bitflags.spec_bits() == 0,
            vault.config == config,
            vault.value.value == 0,
            vault.value.last_update.slot == slot,
            vault.value.last_update.stale,
            forall|p: Provider|
                #![trigger vault.target_allocations[p]]
                #![trigger vault.actual_allocations[p]]
                vault.target_allocations[p].value == 0 && vault.actual_allocations[p].value == 0
                    && vault.target_allocations[p].last_update.stale
                    && vault.actual_allocations[p].last_update.stale,
    {
        let key = Pubkey { bytes: [0u8;32] };
        let unset = SlotTrackecValue { value: 0, last_update: LastUpdate::new(slot) };
        let allocations = Allocations { solend: unset, port: unset, jet: unset };
        proof {
            assert(0u32 | 0u32 | 0u32 == 0u32) by (bit_vector);
        }
        Vault {
            version: [0u8;3],
            owner: key,
            vault_authority: key,
            authority_seed: key,
            authority_bump: [0u8;1],
            solend_reserve: key,
            port_reserve: key,
            jet_reserve: key,
            vault_reserve_token: key,
            vault_solend_lp_token: key,
            vault_port_lp_token: key,
            vault_jet_lp_token: key,
            lp_token_mint: key,
            reserve_token_mint: key,
            fee_receiver: key,
            referral_fee_receiver: key,
            bitflags: VaultFlags::empty(),
            value: unset,
            target_allocations: allocations,
            config,
            actual_allocations: allocations,
        }
    }

    /// The halts of the vault.
    pub fn flags(&self) -> (f: VaultFlags)
        ensures
            f == self.bitflags,
    {
        self.bitflags
    }

    /// Replaces the halts by those of `bits`. A pattern with a bit that is
    /// no halt is rejected with `InvalidVaultFlags`, and the record stays as
    /// it is.
    pub fn set_flags(&mut self, bits: u32) -> (r: Result<(), ErrorCode>)
        ensures
            VaultFlags::valid_bits(bits) ==> r is Ok && final(self).bitflags.spec_bits() == bits
                && *final(self) == (Vault { bitflags: final(self).bitflags, ..*old(self) }),
            !VaultFlags::valid_bits(bits) ==> r is Err && r->Err_0 == ErrorCode::InvalidVaultFlags
                && *final(self) == *old(self),
    {
        match VaultFlags::from_bits(bits) {
            Some(flags) => {
                self.bitflags = flags;
                Ok(())
            },
            None => Err(ErrorCode::InvalidVaultFlags),
        }
    }

    /// The fees that fall due when the vault's value is found to be
    /// `new_vault_value` at `slot`. A `slot` before the stamp of the vault's
    /// value is a `MathError`; fees that do not fit in 64 bits are an
    /// `OverflowError`.
    pub fn calculate_fees(&self, new_vault_value: u64, slot: u64) -> (r: Result<u64, ErrorCode>)
        ensures
            slot < self.value.last_update.slot ==> r is Err && r->Err_0 == ErrorCode::MathError,
            slot >= self.value.last_update.slot && self.fees_due(new_vault_value, slot) <= u64::MAX
                ==> r is Ok && r->Ok_0 == self.fees_due(new_vault_value, slot),
            slot >= self.value.last_update.slot && self.fees_due(new_vault_value, slot) > u64::MAX
                ==> r is Err && r->Err_0 == ErrorCode::OverflowError,
    {
        let vault_value_diff = new_vault_value.saturating_sub(self.value.value);
        let slots_elapsed = match self.value.last_update.slots_elapsed(slot) {
            Ok(elapsed) => elapsed,
            Err(e) => {
                return Err(e);
            },
        };
        let carry = match calc_carry_fees(vault_value_diff, self.config.fee_carry_bps as u64) {
            Ok(fee) => fee,
            Err(e) => {
                return Err(e);
            },
        };
        let mgmt = match calc_mgmt_fees(
            new_vault_value,
            self.config.fee_mgmt_bps as u64,
            slots_elapsed,
        ) {
            Ok(fee) => fee,
            Err(e) => {
                return Err(e);
            },
        };
        match carry.checked_add(mgmt) {
            Some(fees) => Ok(fees),
            None => Err(ErrorCode::OverflowError),
        }
    }

    /// The seeds from which the vault's signing authority is derived: the
    /// seed address, the bytes of `authority`, and the bump.
    pub fn authority_seeds(&self) -> (seeds: [&[u8]; 3])
        ensures
            seeds@[0]@ == self.authority_seed.bytes@,
            seeds@[1]@ == AUTHORITY_SEED@,
            seeds@[2]@ == self.authority_bump@,
    {
        [self.authority_seed.bytes.as_slice(), AUTHORITY_SEED.as_slice(), self.authority_bump.as_slice()]
    }
}

/// A vault whose value has not grown, asked in the slot of its last stamp,
/// owes no fee.
pub proof fn lemma_no_fee_without_growth_or_time(vault: Vault, new_vault_value: u64)
    requires
        new_vault_value <= vault.value.value,
    ensures
        vault.fees_due(new_vault_value, vault.value.last_update.slot) == 0,
{
    crate::math::lemma_no_growth_no_time_no_fee(
        new_vault_value as nat,
        vault.config.fee_carry_bps as nat,
    );
    crate::math::lemma_no_growth_no_time_no_fee(
        new_vault_value as nat,
        vault.config.fee_mgmt_bps as nat,
    );
}

} // verus!
