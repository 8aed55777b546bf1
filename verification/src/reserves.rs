//! The lending markets a vault can place funds in.

use vstd::prelude::*;
use crate::errors::ErrorCode;
use crate::rate::Rate;

verus! {

/// Number of lending markets.
pub const PROVIDER_COUNT: usize = 3;

/// One lending market. The set is closed; each member has a fixed ordinal,
/// counted from zero without gaps.
#[derive(Clone, Copy, Debug, PartialEq, Eq, Structural, Hash)]
pub enum Provider {
    Solend,
    Port,
    Jet,
}

impl Provider {
    /// The ordinal of a provider, as a mathematical integer.
    pub open spec fn ordinal(self) -> int {
        match self {
            Provider::Solend => 0,
            Provider::Port => 1,
            Provider::Jet => 2,
        }
    }

    /// The provider with a given ordinal; meaningful for `0 <= i < 3`.
    pub open spec fn of_ordinal(i: int) -> Provider {
        if i == 0 {
            Provider::Solend
        } else if i == 1 {
            Provider::Port
        } else {
            Provider::Jet
        }
    }

    /// All providers in the order of their ordinals.
    pub open spec fn all() -> Seq<Provider> {
        seq![Provider::Solend, Provider::Port, Provider::Jet]
    }

    /// The ordinal of this provider.
    pub fn index(self) -> (i: usize)
        ensures
            i == self.ordinal(),
            i < PROVIDER_COUNT,
    {
        match self {
            Provider::Solend => 0,
            Provider::Port => 1,
            Provider::Jet => 2,
        }
    }

    /// The provider at a given ordinal, if there is one.
    pub fn from_index(i: usize) -> (p: Option<Provider>)
        ensures
            i < PROVIDER_COUNT ==> p == Some(Provider::of_ordinal(i as int)),
            i >= PROVIDER_COUNT ==> p is None,
    {
        if i == 0 {
            Some(Provider::Solend)
        } else if i == 1 {
            Some(Provider::Port)
        } else if i == 2 {
            Some(Provider::Jet)
        } else {
            None
        }
    }

    /// A walk over all providers in the order of their ordinals.
    pub fn iter() -> (it: ProviderIter)
        ensures
            it.position() == 0,
            it.remaining() == Provider::all(),
    {
        let it = ProviderIter { idx: 0 };
        proof {
            assert(Provider::all().skip(0) =~= Provider::all());
        }
        it
    }

    /// The name of this provider.
    pub fn name(self) -> (s: &'static str)
        ensures
            s@ == Provider::name_of(self),
    {
        match self {
            Provider::Solend => "Solend",
            Provider::Port => "Port",
            Provider::Jet => "Jet",
        }
    }

    /// The name of a provider as a sequence of characters.
    pub open spec fn name_of(p: Provider) -> Seq<char> {
        match p {
            Provider::Solend => "Solend"@,
            Provider::Port => "Port"@,
            Provider::Jet => "Jet"@,
        }
    }
}

/// A walk over the providers in the order of their ordinals.
#[derive(Clone, Copy, Debug)]
pub struct ProviderIter {
    idx: usize,
}

impl ProviderIter {
    /// How many providers the walk has passed.
    pub closed spec fn position(&self) -> int {
        if self.idx < PROVIDER_COUNT {
            self.idx as int
        } else {
            PROVIDER_COUNT as int
        }
    }

    /// The providers that the walk has not passed yet, in order.
    pub open spec fn remaining(&self) -> Seq<Provider> {
        Provider::all().skip(self.position())
    }

    /// The next provider, or `None` when all have been passed.
    pub fn next(&mut self) -> (p: Option<Provider>)
        ensures
            0 <= old(self).position() <= PROVIDER_COUNT,
            old(self).position() == PROVIDER_COUNT ==> p is None && final(self).position()
                == PROVIDER_COUNT,
            old(self).position() < PROVIDER_COUNT ==> p == Some(
                Provider::of_ordinal(old(self).position()),
            ) && final(self).position() == old(self).position() + 1,
    {
        let p = Provider::from_index(self.idx);
        if self.idx < PROVIDER_COUNT {
            self.idx = self.idx + 1;
        }
        p
    }
}

/// Ordinals and providers correspond one to one, and the list of all
/// providers holds each provider exactly once, at its ordinal.
pub proof fn lemma_provider_ordinals(p: Provider)
    ensures
        0 <= p.ordinal() < PROVIDER_COUNT,
        Provider::of_ordinal(p.ordinal()) == p,
        Provider::all().len() == PROVIDER_COUNT,
        Provider::all()[p.ordinal()] == p,
        forall|i: int|
            0 <= i < PROVIDER_COUNT ==> (#[trigger] Provider::of_ordinal(i)).ordinal() == i,
        forall|i: int| 0 <= i < PROVIDER_COUNT ==> #[trigger] Provider::all()[i] == Provider::of_ordinal(i),
{
}

/// What a strategy can ask of a market's reserve to rank it: how much of it
/// is lent out, what borrowing costs, and what the reserve would look like
/// after a deposit.
pub trait ReserveAccessor: Sized {
    /// The reserve tokens that the reserve has available.
    spec fn spec_available_amount(&self) -> u64;

    /// The part of the reserve's liquidity that is lent out.
    fn utilization_rate(&self) -> (r: Result<Rate, ErrorCode>);

    /// The rate that borrowers pay.
    fn borrow_rate(&self) -> (r: Result<Rate, ErrorCode>);

    /// The reserve as it would be after `allocation` more reserve tokens
    /// were deposited: a new value, this one stays as it is. Where the
    /// available amount would not fit in 64 bits the result is
    /// `OverflowError`.
    fn reserve_with_deposit(&self, allocation: u64) -> (r: Result<Self, ErrorCode>)
        ensures
            self.spec_available_amount() + allocation <= u64::MAX ==> r is Ok
                && r->Ok_0.spec_available_amount() == self.spec_available_amount() + allocation,
            self.spec_available_amount() + allocation > u64::MAX ==> r is Err && r->Err_0
                == ErrorCode::OverflowError,
    ;
}

} // verus!
