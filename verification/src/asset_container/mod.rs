//! A container that holds one value for every lending market.

use vstd::prelude::*;
use crate::reserves::{lemma_provider_ordinals, Provider, PROVIDER_COUNT};

pub mod iter;
pub mod rate;

pub use self::iter::{AssetContainerIterator, OwnedAssetContainerIterator};

verus! {

/// One value of type `T` per provider, in an array of `N` slots that is
/// indexed by the provider's ordinal.
///
/// Every constructor fills every slot, so a container that a caller holds is
/// always well formed (`wf`) when `N` is at least the number of providers.
#[derive(Debug, Clone)]
pub struct AssetContainerGeneric<T, const N: usize> {
    pub(crate) inner: [Option<T>; N],
}

/// The container that has exactly one slot for each provider.
pub type AssetContainer<T> = AssetContainerGeneric<T, PROVIDER_COUNT>;

/// Calls `core::array::from_fn` with a function that returns `None`. Trusted:
/// every slot of the result is `None`.
#[verifier::external_body]
fn vacant_slots<T, const N: usize>() -> (slots: [Option<T>; N])
    ensures
        forall|i: int| 0 <= i < N ==> slots@[i] is None,
{
    core::array::from_fn(|_| None)
}

impl<T, const N: usize> View for AssetContainerGeneric<T, N> {
    type V = Seq<Option<T>>;

    /// The slots in the order of the providers' ordinals.
    closed spec fn view(&self) -> Seq<Option<T>> {
        self.inner@
    }
}

impl<T, const N: usize> AssetContainerGeneric<T, N> {
    /// Whether the container holds a value for `index`.
    pub open spec fn holds(&self, index: Provider) -> bool {
        index.ordinal() < N && self@[index.ordinal()] is Some
    }

    /// The value held for `index`; meaningful where `holds(index)`.
    pub open spec fn spec_index(&self, index: Provider) -> T {
        self@[index.ordinal()]->0
    }

    /// A well-formed container has a slot for every provider, and every
    /// slot holds a value.
    pub open spec fn wf(&self) -> bool {
        &&& self@.len() == N
        &&& N >= PROVIDER_COUNT
        &&& forall|i: int| 0 <= i < N ==> (#[trigger] self@[i]) is Some
    }

    /// The pairs of a provider and its value, in the order of the ordinals.
    pub open spec fn entries(&self) -> Seq<(Provider, T)> {
        Seq::new(PROVIDER_COUNT as nat, |i: int| (Provider::of_ordinal(i), self@[i]->0))
    }

    /// The number of slots.
    pub fn len(&self) -> (n: usize)
        ensures
            n == N,
            n == self@.len(),
    {
        N
    }

    /// Whether no slot holds a value.
    pub fn is_empty(&self) -> (b: bool)
        ensures
            b <==> forall|i: int| 0 <= i < N ==> (#[trigger] self@[i]) is None,
    {
        let mut i: usize = 0;
        while i < N
            invariant
                i <= N,
                forall|j: int| 0 <= j < i ==> (#[trigger] self@[j]) is None,
            decreases N - i,
        {
            if self.inner[i].is_some() {
                return false;
            }
            i += 1;
        }
        true
    }

    /// The value held for `index`.
    pub fn index(&self, index: Provider) -> (value: &T)
        requires
            self.holds(index),
        ensures
            *value == self[index],
    {
        let i: usize = index.index();
        self.inner[i].as_ref().unwrap()
    }

    /// The place of the value held for `index`; what is written there is
    /// what the container holds for `index` afterwards.
    pub fn index_mut(&mut self, index: Provider) -> (value: &mut T)
        requires
            old(self).holds(index),
        ensures
            *value == old(self)[index],
            final(self)@ == old(self)@.update(index.ordinal(), Some(*final(value))),
    {
        let i: usize = index.index();
        self.inner[i].as_mut().unwrap()
    }

    /// The container made of the pairs in `iter`. Each pair sets the value of
    /// its provider; where a provider occurs more than once the last pair
    /// counts, and a slot that no pair names holds `T`'s default.
    pub fn from_iter(iter: Vec<(Provider, T)>) -> (c: Self) where T: Default
        requires
            N >= PROVIDER_COUNT,
        ensures
            c.wf(),
            forall|k: int|
                #![trigger iter@[k]]
                0 <= k < iter@.len() && (forall|j: int|
                    k < j < iter@.len() ==> (#[trigger] iter@[j]).0 != iter@[k].0) ==> c[iter@[k].0]
                    == iter@[k].1,
            forall|i: int|
                #![trigger c@[i]]
                0 <= i < N && (forall|k: int|
                    0 <= k < iter@.len() ==> (#[trigger] iter@[k]).0.ordinal() != i)
                    ==> call_ensures(T::default, (), c@[i]->0),
    {
        let mut acc: Self = Default::default();
        let ghost items = iter@;
        for pair in it: iter
            invariant
                items == it.seq(),
                N >= PROVIDER_COUNT,
                acc.wf(),
                forall|k: int|
                    #![trigger items[k]]
                    0 <= k < it.index() && (forall|j: int|
                        k < j < it.index() ==> (#[trigger] items[j]).0 != items[k].0)
                        ==> acc[items[k].0] == items[k].1,
                forall|i: int|
                    #![trigger acc@[i]]
                    0 <= i < N && (forall|k: int|
                        0 <= k < it.index() ==> (#[trigger] items[k]).0.ordinal() != i)
                        ==> call_ensures(T::default, (), acc@[i]->0),
        {
            let (provider, v) = pair;
            let ghost before = acc@;
            let ghost n = it.index();
            proof {
                lemma_provider_ordinals(provider);
            }
            *acc.index_mut(provider) = v;
            proof {
                assert(acc@ == before.update(provider.ordinal(), Some(v)));
                assert(items[n] == (provider, v));
                assert forall|k: int|
                    #![trigger items[k]]
                    0 <= k < n + 1 && (forall|j: int|
                        k < j < n + 1 ==> (#[trigger] items[j]).0 != items[k].0) implies acc[items[k].0]
                    == items[k].1 by {
                    lemma_provider_ordinals(items[k].0);
                    if k < n {
                        assert(items[n].0 != items[k].0);
                        assert(provider.ordinal() != items[k].0.ordinal()) by {
                            lemma_provider_ordinals(provider);
                        }
                    }
                }
                assert forall|i: int|
                    #![trigger acc@[i]]
                    0 <= i < N && (forall|k: int|
                        0 <= k < n + 1 ==> (#[trigger] items[k]).0.ordinal() != i)
                    implies call_ensures(T::default, (), acc@[i]->0) by {
                    assert(items[n].0.ordinal() != i);
                    assert(before[i] == acc@[i]);
                }
            }
        }
        acc
    }

    /// The container that holds, for every provider, what `f` gives for it.
    pub fn from_fn<F: Fn(Provider) -> T>(f: F) -> (c: Self) where T: Default
        requires
            N >= PROVIDER_COUNT,
            forall|p: Provider| call_requires(f, (p,)),
        ensures
            c.wf(),
            forall|p: Provider| call_ensures(f, (p,), #[trigger] c[p]),
            forall|i: int|
                PROVIDER_COUNT <= i < N ==> call_ensures(T::default, (), (#[trigger] c@[i])->0),
    {
        let mut acc: Self = Default::default();
        let mut providers = Provider::iter();
        loop
            invariant
                N >= PROVIDER_COUNT,
                acc.wf(),
                0 <= providers.position() <= PROVIDER_COUNT,
                forall|p: Provider| call_requires(f, (p,)),
                forall|p: Provider|
                    p.ordinal() < providers.position() ==> call_ensures(f, (p,), #[trigger] acc[p]),
                forall|i: int|
                    PROVIDER_COUNT <= i < N ==> call_ensures(
                        T::default,
                        (),
                        (#[trigger] acc@[i])->0,
                    ),
            ensures
                acc.wf(),
                forall|p: Provider| call_ensures(f, (p,), #[trigger] acc[p]),
                forall|i: int|
                    PROVIDER_COUNT <= i < N ==> call_ensures(
                        T::default,
                        (),
                        (#[trigger] acc@[i])->0,
                    ),
            decreases PROVIDER_COUNT - providers.position(),
        {
            let ghost pos = providers.position();
            match providers.next() {
                None => {
                    proof {
                        assert forall|p: Provider| call_ensures(f, (p,), #[trigger] acc[p]) by {
                            lemma_provider_ordinals(p);
                        }
                    }
                    break ;
                },
                Some(provider) => {
                    proof {
                        lemma_provider_ordinals(provider);
                    }
                    let ghost prev = acc;
                    let made = f(provider);
                    *acc.index_mut(provider) = made;
                    proof {
                        assert(acc@ == prev@.update(pos, Some(made)));
                        assert forall|p: Provider| p.ordinal() < pos + 1 implies call_ensures(
                            f,
                            (p,),
                            #[trigger] acc[p],
                        ) by {
                            lemma_provider_ordinals(p);
                            if p.ordinal() < pos {
                                assert(acc[p] == prev[p]);
                            } else {
                                assert(p == provider);
                            }
                        }
                    }
                },
            }
        }
        acc
    }

    /// The container that holds, for every provider, what `f` makes of the
    /// provider and its value. The values are moved into `f`.
    pub fn apply_owned<U: Clone + Default, F: Fn(Provider, T) -> U>(
        self,
        f: F,
    ) -> (out: AssetContainerGeneric<U, N>)
        requires
            self.wf(),
            forall|p: Provider| call_requires(f, (p, #[trigger] self[p])),
        ensures
            out.wf(),
            forall|p: Provider| call_ensures(f, (p, self[p]), #[trigger] out[p]),
            forall|i: int|
                PROVIDER_COUNT <= i < N ==> call_ensures(U::default, (), (#[trigger] out@[i])->0),
    {
        let ghost src = self@;
        proof {
            assert forall|p: Provider| call_requires(f, (p, #[trigger] src[p.ordinal()]->0)) by {
                assert(call_requires(f, (p, self[p])));
            }
        }
        let mut this = self;
        let mut out: AssetContainerGeneric<U, N> = Default::default();
        let mut providers = Provider::iter();
        loop
            invariant
                N >= PROVIDER_COUNT,
                src.len() == N,
                this@.len() == N,
                out.wf(),
                0 <= providers.position() <= PROVIDER_COUNT,
                forall|i: int| providers.position() <= i < N ==> this@[i] == #[trigger] src[i],
                forall|i: int| 0 <= i < N ==> (#[trigger] src[i]) is Some,
                forall|p: Provider| call_requires(f, (p, #[trigger] src[p.ordinal()]->0)),
                forall|p: Provider|
                    p.ordinal() < providers.position() ==> call_ensures(
                        f,
                        (p, src[p.ordinal()]->0),
                        #[trigger] out[p],
                    ),
                forall|i: int|
                    PROVIDER_COUNT <= i < N ==> call_ensures(
                        U::default,
                        (),
                        (#[trigger] out@[i])->0,
                    ),
            ensures
                out.wf(),
                forall|p: Provider|
                    call_ensures(f, (p, src[p.ordinal()]->0), #[trigger] out[p]),
                forall|i: int|
                    PROVIDER_COUNT <= i < N ==> call_ensures(
                        U::default,
                        (),
                        (#[trigger] out@[i])->0,
                    ),
            decreases PROVIDER_COUNT - providers.position(),
        {
            let ghost pos = providers.position();
            match providers.next() {
                None => {
                    proof {
                        assert forall|p: Provider|
                            call_ensures(f, (p, src[p.ordinal()]->0), #[trigger] out[p]) by {
                            lemma_provider_ordinals(p);
                        }
                    }
                    break ;
                },
                Some(provider) => {
                    proof {
                        lemma_provider_ordinals(provider);
                    }
                    let i: usize = provider.index();
                    assert(this@[i as int] == src[i as int]);
                    let taken = this.inner[i].take();
                    let value = taken.unwrap();
                    let ghost prev = out;
                    assert(value == src[provider.ordinal()]->0);
                    let made = f(provider, value);
                    *out.index_mut(provider) = made;
                    proof {
                        assert(out@ == prev@.update(pos, Some(made)));
                        assert forall|p: Provider| p.ordinal() < pos + 1 implies call_ensures(
                            f,
                            (p, src[p.ordinal()]->0),
                            #[trigger] out[p],
                        ) by {
                            lemma_provider_ordinals(p);
                            if p.ordinal() < pos {
                                assert(out[p] == prev[p]);
                            } else {
                                assert(p == provider);
                            }
                        }
                    }
                },
            }
        }
        out
    }

    /// The container that holds, for every provider, what `f` makes of the
    /// provider and its value.
    pub fn apply<U: Default, F: Fn(Provider, &T) -> U>(&self, f: F) -> (out: AssetContainerGeneric<
        U,
        N,
    >)
        requires
            self.wf(),
            forall|p: Provider| call_requires(f, (p, &#[trigger] self[p])),
        ensures
            out.wf(),
            forall|p: Provider| call_ensures(f, (p, &self[p]), #[trigger] out[p]),
            forall|i: int|
                PROVIDER_COUNT <= i < N ==> call_ensures(U::default, (), (#[trigger] out@[i])->0),
    {
        let mut out: AssetContainerGeneric<U, N> = Default::default();
        let mut providers = Provider::iter();
        loop
            invariant
                self.wf(),
                out.wf(),
                0 <= providers.position() <= PROVIDER_COUNT,
                forall|p: Provider| call_requires(f, (p, &#[trigger] self[p])),
                forall|p: Provider|
                    p.ordinal() < providers.position() ==> call_ensures(
                        f,
                        (p, &self[p]),
                        #[trigger] out[p],
                    ),
                forall|i: int|
                    PROVIDER_COUNT <= i < N ==> call_ensures(
                        U::default,
                        (),
                        (#[trigger] out@[i])->0,
                    ),
            ensures
                out.wf(),
                forall|p: Provider| call_ensures(f, (p, &self[p]), #[trigger] out[p]),
                forall|i: int|
                    PROVIDER_COUNT <= i < N ==> call_ensures(
                        U::default,
                        (),
                        (#[trigger] out@[i])->0,
                    ),
            decreases PROVIDER_COUNT - providers.position(),
        {
            let ghost pos = providers.position();
            match providers.next() {
                None => {
                    proof {
                        assert forall|p: Provider|
                            call_ensures(f, (p, &self[p]), #[trigger] out[p]) by {
                            lemma_provider_ordinals(p);
                        }
                    }
                    break ;
                },
                Some(provider) => {
                    proof {
                        lemma_provider_ordinals(provider);
                    }
                    let ghost prev = out;
                    let made = f(provider, self.index(provider));
                    *out.index_mut(provider) = made;
                    proof {
                        assert(out@ == prev@.update(pos, Some(made)));
                        assert forall|p: Provider| p.ordinal() < pos + 1 implies call_ensures(
                            f,
                            (p, &self[p]),
                            #[trigger] out[p],
                        ) by {
                            lemma_provider_ordinals(p);
                            if p.ordinal() < pos {
                                assert(out[p] == prev[p]);
                            } else {
                                assert(p == provider);
                            }
                        }
                    }
                },
            }
        }
        out
    }

    /// As `apply`, for an `f` that can fail. The providers are taken in the
    /// order of their ordinals; the first error ends the walk and is
    /// returned, and `f` is not called for the providers after it.
    pub fn try_apply<U: Default, E, F: Fn(Provider, &T) -> Result<U, E>>(&self, f: F) -> (r: Result<
        AssetContainerGeneric<U, N>,
        E,
    >)
        requires
            self.wf(),
            forall|p: Provider| call_requires(f, (p, &#[trigger] self[p])),
        ensures
            match r {
                Ok(out) => {
                    &&& out.wf()
                    &&& forall|p: Provider|
                        call_ensures(f, (p, &self[p]), Ok(#[trigger] out[p]))
                    &&& forall|i: int|
                        PROVIDER_COUNT <= i < N ==> call_ensures(
                            U::default,
                            (),
                            (#[trigger] out@[i])->0,
                        )
                },
                Err(e) => exists|p: Provider|
                    {
                        &&& call_ensures(f, (p, &#[trigger] self[p]), Err(e))
                        &&& forall|q: Provider|
                            q.ordinal() < p.ordinal() ==> exists|u: U|
                                call_ensures(f, (q, &#[trigger] self[q]), Ok(u))
                    },
            },
    {
        let mut out: AssetContainerGeneric<U, N> = Default::default();
        let mut providers = Provider::iter();
        loop
            invariant
                self.wf(),
                out.wf(),
                0 <= providers.position() <= PROVIDER_COUNT,
                forall|p: Provider| call_requires(f, (p, &#[trigger] self[p])),
                forall|p: Provider|
                    p.ordinal() < providers.position() ==> call_ensures(
                        f,
                        (p, &self[p]),
                        Ok(#[trigger] out[p]),
                    ),
                forall|i: int|
                    PROVIDER_COUNT <= i < N ==> call_ensures(
                        U::default,
                        (),
                        (#[trigger] out@[i])->0,
                    ),
            ensures
                out.wf(),
                forall|p: Provider|
                    call_ensures(f, (p, &self[p]), Ok(#[trigger] out[p])),
                forall|i: int|
                    PROVIDER_COUNT <= i < N ==> call_ensures(
                        U::default,
                        (),
                        (#[trigger] out@[i])->0,
                    ),
            decreases PROVIDER_COUNT - providers.position(),
        {
            let ghost pos = providers.position();
            match providers.next() {
                None => {
                    proof {
                        assert forall|p: Provider|
                            call_ensures(f, (p, &self[p]), Ok(#[trigger] out[p])) by {
                            lemma_provider_ordinals(p);
                        }
                    }
                    break ;
                },
                Some(provider) => {
                    proof {
                        lemma_provider_ordinals(provider);
                    }
                    let ghost prev = out;
                    match f(provider, self.index(provider)) {
                        Err(e) => {
                            proof {
                                assert forall|q: Provider|
                                    q.ordinal() < provider.ordinal() implies exists|u: U|
                                    call_ensures(f, (q, &#[trigger] self[q]), Ok(u)) by {
                                    assert(call_ensures(f, (q, &self[q]), Ok(out[q])));
                                }
                            }
                            return Err(e);
                        },
                        Ok(made) => {
                            *out.index_mut(provider) = made;
                            proof {
                                assert(out@ == prev@.update(pos, Some(made)));
                                assert forall|p: Provider|
                                    p.ordinal() < pos + 1 implies call_ensures(
                                    f,
                                    (p, &self[p]),
                                    Ok(#[trigger] out[p]),
                                ) by {
                                    lemma_provider_ordinals(p);
                                    if p.ordinal() < pos {
                                        assert(out[p] == prev[p]);
                                    } else {
                                        assert(p == provider);
                                    }
                                }
                            }
                        },
                    }
                },
            }
        }
        Ok(out)
    }
}

impl<T: Default, const N: usize> Default for AssetContainerGeneric<T, N> {
    /// The container whose every slot holds `T`'s default.
    fn default() -> (c: Self)
        ensures
            c@.len() == N,
            forall|i: int|
                0 <= i < N ==> (#[trigger] c@[i]) is Some && call_ensures(
                    T::default,
                    (),
                    c@[i]->0,
                ),
    {
        let mut inner: [Option<T>; N] = vacant_slots();
        let mut i: usize = 0;
        while i < N
            invariant
                i <= N,
                forall|j: int|
                    0 <= j < i ==> (#[trigger] inner@[j]) is Some && call_ensures(
                        T::default,
                        (),
                        inner@[j]->0,
                    ),
            decreases N - i,
        {
            inner[i] = Some(T::default());
            i += 1;
        }
        AssetContainerGeneric { inner }
    }
}

/// Mapping every value to itself gives the container back: where `f` can
/// only return the value it was given, and `out` is what `apply_owned`
/// makes of `c` and `f`, `out` is `c`.
pub proof fn lemma_apply_identity<T, F: Fn(Provider, T) -> T>(
    c: AssetContainer<T>,
    f: F,
    out: AssetContainer<T>,
)
    requires
        c.wf(),
        out.wf(),
        forall|p: Provider, x: T, y: T| call_ensures(f, (p, x), y) ==> y == x,
        forall|p: Provider| call_ensures(f, (p, c[p]), #[trigger] out[p]),
    ensures
        out@ == c@,
        out == c,
{
    assert forall|i: int| 0 <= i < PROVIDER_COUNT implies out@[i] == c@[i] by {
        let p = Provider::of_ordinal(i);
        lemma_provider_ordinals(p);
        assert(call_ensures(f, (p, c[p]), out[p]));
    }
    assert(out@ =~= c@);
    assert(out.inner =~= c.inner);
}

} // verus!
