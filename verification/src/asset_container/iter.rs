//! Walks over a container in the order of the providers.

use vstd::prelude::*;
use crate::asset_container::AssetContainerGeneric;
use crate::reserves::{lemma_provider_ordinals, Provider, ProviderIter, PROVIDER_COUNT};

verus! {

/// A walk over a borrowed container that hands out each provider with a
/// reference to its value.
pub struct AssetContainerIterator<'inner, T, const N: usize> {
    inner: &'inner AssetContainerGeneric<T, N>,
    inner_iter: ProviderIter,
}

impl<'inner, T, const N: usize> AssetContainerIterator<'inner, T, N> {
    /// The container that is walked over.
    pub closed spec fn container(&self) -> AssetContainerGeneric<T, N> {
        *self.inner
    }

    /// How many providers the walk has passed.
    pub closed spec fn position(&self) -> int {
        self.inner_iter.position()
    }

    /// The pairs that the walk has not handed out yet, in order.
    pub open spec fn remaining(&self) -> Seq<(Provider, T)> {
        self.container().entries().skip(self.position())
    }

    /// The next provider and its value, or `None` when all were handed out.
    pub fn next(&mut self) -> (item: Option<(Provider, &'inner T)>)
        requires
            old(self).container().wf(),
        ensures
            final(self).container() == old(self).container(),
            0 <= old(self).position() <= PROVIDER_COUNT,
            match item {
                Some((provider, value)) => {
                    &&& old(self).position() < PROVIDER_COUNT
                    &&& final(self).position() == old(self).position() + 1
                    &&& (provider, *value) == old(self).remaining()[0]
                    &&& final(self).remaining() == old(self).remaining().skip(1)
                },
                None => {
                    &&& old(self).position() == PROVIDER_COUNT
                    &&& final(self).position() == PROVIDER_COUNT
                    &&& old(self).remaining().len() == 0
                },
            },
    {
        let ghost entries = self.container().entries();
        let ghost pos = self.position();
        match self.inner_iter.next() {
            Some(provider) => {
                proof {
                    lemma_provider_ordinals(provider);
                    assert(entries.skip(pos).skip(1) =~= entries.skip(pos + 1));
                }
                Some((provider, self.inner.index(provider)))
            },
            None => None,
        }
    }
}

/// A walk over a container that hands out each provider with its value,
/// moving the value out of the container.
pub struct OwnedAssetContainerIterator<T, const N: usize> {
    inner: AssetContainerGeneric<T, N>,
    inner_iter: ProviderIter,
}

impl<T, const N: usize> OwnedAssetContainerIterator<T, N> {
    /// How many providers the walk has passed.
    pub closed spec fn position(&self) -> int {
        self.inner_iter.position()
    }

    /// Every provider that the walk has not passed still has its value.
    pub closed spec fn wf(&self) -> bool {
        &&& N >= PROVIDER_COUNT
        &&& self.inner@.len() == N
        &&& 0 <= self.position() <= PROVIDER_COUNT
        &&& forall|i: int| self.position() <= i < PROVIDER_COUNT ==> (#[trigger] self.inner@[i]) is Some
    }

    /// The pairs that the walk has not handed out yet, in order.
    pub closed spec fn remaining(&self) -> Seq<(Provider, T)> {
        self.inner.entries().skip(self.position())
    }

    /// The next provider and its value, or `None` when all were handed out.
    pub fn next(&mut self) -> (item: Option<(Provider, T)>)
        requires
            old(self).wf(),
        ensures
            final(self).wf(),
            match item {
                Some(pair) => {
                    &&& old(self).remaining().len() > 0
                    &&& pair == old(self).remaining()[0]
                    &&& final(self).remaining() == old(self).remaining().skip(1)
                    &&& final(self).position() == old(self).position() + 1
                },
                None => {
                    &&& old(self).remaining().len() == 0
                    &&& final(self).remaining().len() == 0
                },
            },
    {
        let ghost before = self.inner.entries();
        let ghost pos = self.position();
        match self.inner_iter.next() {
            Some(provider) => {
                proof {
                    lemma_provider_ordinals(provider);
                }
                let i: usize = provider.index();
                let taken = self.inner.inner[i].take();
                proof {
                    assert(self.inner.entries().skip(pos + 1) =~= before.skip(pos).skip(1));
                }
                Some((provider, taken.unwrap()))
            },
            None => None,
        }
    }
}

impl<T, const N: usize> AssetContainerGeneric<T, N> {
    /// A walk over this container by reference.
    pub fn iter<'a>(&'a self) -> (it: AssetContainerIterator<'a, T, N>)
        ensures
            it.container() == *self,
            it.position() == 0,
            it.remaining() == self.entries(),
    {
        proof {
            assert(self.entries().skip(0) =~= self.entries());
        }
        AssetContainerIterator { inner: self, inner_iter: Provider::iter() }
    }

    /// A walk over this container that takes the values out of it.
    pub fn into_iter(self) -> (it: OwnedAssetContainerIterator<T, N>)
        requires
            self.wf(),
        ensures
            it.wf(),
            it.position() == 0,
            it.remaining() == self.entries(),
    {
        proof {
            assert(self.entries().skip(0) =~= self.entries());
        }
        OwnedAssetContainerIterator { inner: self, inner_iter: Provider::iter() }
    }
}

/// A walk over a well-formed container meets every provider exactly once:
/// there are as many entries as providers, the entry at a provider's ordinal
/// is that provider with its value, and no provider stands at two places.
pub proof fn lemma_entries_one_per_provider<T, const N: usize>(c: AssetContainerGeneric<T, N>)
    requires
        c.wf(),
    ensures
        c.entries().len() == PROVIDER_COUNT,
        forall|p: Provider| #[trigger] c.entries()[p.ordinal()] == (p, c[p]),
        forall|i: int, j: int|
            0 <= i < PROVIDER_COUNT && 0 <= j < PROVIDER_COUNT && (#[trigger] c.entries()[i]).0
                == (#[trigger] c.entries()[j]).0 ==> i == j,
{
    assert forall|p: Provider| #[trigger] c.entries()[p.ordinal()] == (p, c[p]) by {
        lemma_provider_ordinals(p);
    }
    lemma_provider_ordinals(Provider::Solend);
}

} // verus!
