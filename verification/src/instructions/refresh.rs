//! Bringing the vault's view of what it holds in a market up to date.

use vstd::prelude::*;
use crate::errors::ErrorCode;
use crate::reserves::Provider;
use crate::state::Vault;

verus! {

/// What an adapter does to refresh the vault's holding in its market. The
/// caller has the market refresh its own state first and hands the adapter
/// what the market then shows.
pub trait Refresher {
    /// The provider that the adapter stands for.
    spec fn spec_provider(&self) -> Provider;

    /// The vault that the adapter works on.
    spec fn spec_vault(&self) -> Vault;

    /// The slot in which the operation runs.
    spec fn spec_slot(&self) -> u64;

    /// The value in reserve tokens of the shares that the vault holds in
    /// the market, `None` where it cannot be computed.
    spec fn spec_holding(&self) -> Option<u64>;

    /// Sets the vault's actual allocation for the provider to the value of
    /// the shares it holds, stamped with the current slot. Nothing else in
    /// the vault changes; where the value cannot be computed the vault
    /// stays as it is.
    fn update_actual_allocation(&mut self) -> (r: Result<(), ErrorCode>)
        ensures
            final(self).spec_provider() == old(self).spec_provider(),
            final(self).spec_slot() == old(self).spec_slot(),
            r is Ok <==> old(self).spec_holding() is Some,
            r is Err ==> final(self).spec_vault() == old(self).spec_vault(),
            r is Ok ==> {
                let p = old(self).spec_provider();
                let v = final(self).spec_vault();
                &&& v.actual_allocations[p].value == old(self).spec_holding()->0
                &&& v.actual_allocations[p].last_update.slot == old(self).spec_slot()
                &&& !v.actual_allocations[p].last_update.stale
                &&& forall|q: Provider|
                    q != p ==> #[trigger] v.actual_allocations[q] == old(
                        self,
                    ).spec_vault().actual_allocations[q]
                &&& v.target_allocations == old(self).spec_vault().target_allocations
                &&& v.value == old(self).spec_vault().value
                &&& v.config == old(self).spec_vault().config
                &&& v.bitflags == old(self).spec_vault().bitflags
            },
    ;
}

} // verus!
