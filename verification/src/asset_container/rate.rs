//! Containers of weights: one fraction per provider.

use vstd::prelude::*;
use crate::asset_container::AssetContainerGeneric;
use crate::errors::{ensure, ErrorCode};
use crate::rate::{Rate, BIPS_SCALER, PERCENT_SCALER, WAD};
use crate::reserves::{lemma_provider_ordinals, Provider, PROVIDER_COUNT};

verus! {

impl<const N: usize> AssetContainerGeneric<Rate, N> {
    /// The sum of the scaled weights of all providers.
    pub open spec fn weights_sum(&self) -> nat {
        self[Provider::Solend]@ + self[Provider::Port]@ + self[Provider::Jet]@
    }

    /// Whether no provider's weight is above `allocation_cap_pct` percent.
    pub open spec fn weights_below_cap(&self, allocation_cap_pct: u8) -> bool {
        forall|p: Provider| (#[trigger] self[p])@ <= allocation_cap_pct * PERCENT_SCALER
    }

    /// Whether the weights may be taken as a target allocation: they sum to
    /// exactly one, and none is above the cap.
    pub open spec fn valid_weights(&self, allocation_cap_pct: u8) -> bool {
        self.weights_sum() == WAD && self.weights_below_cap(allocation_cap_pct)
    }

    /// Accepts the weights where they sum to exactly one and none is above
    /// `allocation_cap_pct` percent. Everything else is rejected with
    /// `InvalidProposedWeights`, also a sum that does not fit in 128 bits.
    pub fn verify_weights(&self, allocation_cap_pct: u8) -> (r: Result<(), ErrorCode>)
        requires
            self.wf(),
        ensures
            self.valid_weights(allocation_cap_pct) ==> r is Ok,
            !self.valid_weights(allocation_cap_pct) ==> r is Err && r->Err_0
                == ErrorCode::InvalidProposedWeights,
    {
        let cap = Rate::from_percent(allocation_cap_pct);
        let ghost entries = self.entries();

        let mut max: Option<Rate> = None;
        let mut weights = self.iter();
        loop
            invariant
                weights.container() == *self,
                self.wf(),
                entries == self.entries(),
                0 <= weights.position() <= PROVIDER_COUNT,
                weights.position() == 0 <==> max is None,
                forall|i: int| 0 <= i < weights.position() ==> (#[trigger] entries[i]).1@ <= max->0@,
                weights.position() > 0 ==> exists|i: int|
                    0 <= i < weights.position() && (#[trigger] entries[i]).1 == max->0,
            ensures
                weights.position() == PROVIDER_COUNT,
                max is Some,
                forall|i: int| 0 <= i < PROVIDER_COUNT ==> (#[trigger] entries[i]).1@ <= max->0@,
                exists|i: int| 0 <= i < PROVIDER_COUNT && (#[trigger] entries[i]).1 == max->0,
            decreases PROVIDER_COUNT - weights.position(),
        {
            let ghost pos = weights.position();
            let ghost prev = max;
            match weights.next() {
                Some((_, weight)) => {
                    max = match max {
                        Some(m) if *weight < m => Some(m),
                        _ => Some(*weight),
                    };
                    proof {
                        assert(entries[pos].1 == *weight);
                        if max != Some(*weight) {
                            let i = choose|i: int| 0 <= i < pos && (#[trigger] entries[i]).1 == prev->0;
                            assert(entries[i].1 == max->0);
                        }
                    }
                },
                None => {
                    break ;
                },
            }
        }
        let max = match max {
            Some(m) => m,
            None => {
                return Err(ErrorCode::InvalidProposedWeights);
            },
        };

        let mut sum = Rate::zero();
        let mut weights = self.iter();
        loop
            invariant
                weights.container() == *self,
                self.wf(),
                entries == self.entries(),
                0 <= weights.position() <= PROVIDER_COUNT,
                sum@ == partial_sum(entries, weights.position()),
            ensures
                weights.position() == PROVIDER_COUNT,
                sum@ == partial_sum(entries, PROVIDER_COUNT as int),
            decreases PROVIDER_COUNT - weights.position(),
        {
            let ghost pos = weights.position();
            match weights.next() {
                Some((_, weight)) => {
                    proof {
                        lemma_partial_sum_grows(entries, pos + 1, PROVIDER_COUNT as int);
                    }
                    sum = match sum.try_add(*weight) {
                        Ok(s) => s,
                        Err(_) => {
                            proof {
                                lemma_partial_sum_is_weights_sum(*self);
                            }
                            return Err(ErrorCode::InvalidProposedWeights);
                        },
                    };
                },
                None => {
                    break ;
                },
            }
        }
        proof {
            lemma_partial_sum_is_weights_sum(*self);
            if self.weights_below_cap(allocation_cap_pct) {
                let i = choose|i: int| 0 <= i < PROVIDER_COUNT && (#[trigger] entries[i]).1 == max;
                let p = Provider::of_ordinal(i);
                lemma_provider_ordinals(p);
                assert(self[p] == max);
            }
            if max@ <= cap@ {
                assert forall|p: Provider| (#[trigger] self[p])@ <= allocation_cap_pct
                    * PERCENT_SCALER by {
                    lemma_provider_ordinals(p);
                    assert(entries[p.ordinal()].1 == self[p]);
                }
            }
        }
        ensure(sum == Rate::one() && max <= cap, ErrorCode::InvalidProposedWeights)
    }

    /// The weights that a container of basis points stands for.
    pub fn from(c: AssetContainerGeneric<u16, N>) -> (weights: Self)
        requires
            c.wf(),
        ensures
            weights.wf(),
            forall|p: Provider| (#[trigger] weights[p])@ == c[p] * BIPS_SCALER,
            forall|i: int| PROVIDER_COUNT <= i < N ==> (#[trigger] weights@[i])->0@ == 0,
    {
        let to_rate = |_provider: Provider, bips: &u16| -> (r: Rate)
            ensures
                r@ == *bips * BIPS_SCALER,
            {
                assert(*bips * BIPS_SCALER <= u64::MAX) by (nonlinear_arith)
                    requires
                        *bips <= 65535,
                        BIPS_SCALER == 100_000_000_000_000,
                ;
                Rate::from_bips(u64::from(*bips))
            };
        c.apply(to_rate)
    }
}

/// The sum of the scaled weights of the first `n` entries.
pub open spec fn partial_sum(entries: Seq<(Provider, Rate)>, n: int) -> nat
    decreases n,
{
    if n <= 0 {
        0
    } else {
        partial_sum(entries, n - 1) + entries[n - 1].1@
    }
}

/// A sum over more entries is no smaller.
pub proof fn lemma_partial_sum_grows(entries: Seq<(Provider, Rate)>, m: int, n: int)
    requires
        m <= n,
    ensures
        partial_sum(entries, m) <= partial_sum(entries, n),
    decreases n - m,
{
    if m < n {
        lemma_partial_sum_grows(entries, m, n - 1);
    }
}

/// The sum over all entries of a well-formed container is the sum of the
/// three providers' weights.
pub proof fn lemma_partial_sum_is_weights_sum<const N: usize>(c: AssetContainerGeneric<Rate, N>)
    requires
        c.wf(),
    ensures
        partial_sum(c.entries(), PROVIDER_COUNT as int) == c.weights_sum(),
{
    reveal_with_fuel(partial_sum, 4);
    lemma_provider_ordinals(Provider::Solend);
    lemma_provider_ordinals(Provider::Port);
    lemma_provider_ordinals(Provider::Jet);
}

} // verus!
