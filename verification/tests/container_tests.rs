use std::cell::Cell;

use dao_vault::asset_container::{AssetContainer, AssetContainerGeneric};
use dao_vault::reserves::{Provider, PROVIDER_COUNT};

fn numbers(solend: u64, port: u64, jet: u64) -> AssetContainer<u64> {
    AssetContainer::from_iter(vec![
        (Provider::Solend, solend),
        (Provider::Port, port),
        (Provider::Jet, jet),
    ])
}

#[test]
fn provider_ordinals_are_contiguous_from_zero() {
    assert_eq!(PROVIDER_COUNT, 3);
    assert_eq!(Provider::Solend.index(), 0);
    assert_eq!(Provider::Port.index(), 1);
    assert_eq!(Provider::Jet.index(), 2);
    assert_eq!(Provider::from_index(0), Some(Provider::Solend));
    assert_eq!(Provider::from_index(1), Some(Provider::Port));
    assert_eq!(Provider::from_index(2), Some(Provider::Jet));
    assert_eq!(Provider::from_index(3), None);
    assert_eq!(Provider::from_index(usize::MAX), None);
}

#[test]
fn provider_names() {
    assert_eq!(Provider::Solend.name(), "Solend");
    assert_eq!(Provider::Port.name(), "Port");
    assert_eq!(Provider::Jet.name(), "Jet");
}

#[test]
fn provider_iter_walks_all_in_order_then_ends() {
    let mut it = Provider::iter();
    assert_eq!(it.next(), Some(Provider::Solend));
    assert_eq!(it.next(), Some(Provider::Port));
    assert_eq!(it.next(), Some(Provider::Jet));
    assert_eq!(it.next(), None);
    assert_eq!(it.next(), None);
}

#[test]
fn default_container_is_fully_populated_with_defaults() {
    let c: AssetContainer<u64> = Default::default();
    assert_eq!(c.len(), 3);
    assert!(!c.is_empty());
    assert_eq!(*c.index(Provider::Solend), 0);
    assert_eq!(*c.index(Provider::Port), 0);
    assert_eq!(*c.index(Provider::Jet), 0);

    let s: AssetContainer<String> = Default::default();
    assert_eq!(s.index(Provider::Jet), "");
}

#[test]
fn container_without_slots_is_empty() {
    let c: AssetContainerGeneric<u64, 0> = Default::default();
    assert_eq!(c.len(), 0);
    assert!(c.is_empty());
}

#[test]
fn wider_container_keeps_defaults_in_the_extra_slots() {
    let c: AssetContainerGeneric<u64, 5> = AssetContainerGeneric::from_iter(vec![
        (Provider::Jet, 9),
        (Provider::Solend, 4),
    ]);
    assert_eq!(c.len(), 5);
    assert_eq!(*c.index(Provider::Solend), 4);
    assert_eq!(*c.index(Provider::Port), 0);
    assert_eq!(*c.index(Provider::Jet), 9);
    let doubled = c.apply(|_, v| v * 2);
    assert_eq!(doubled.len(), 5);
    assert_eq!(*doubled.index(Provider::Jet), 18);
}

#[test]
fn from_iter_sets_each_provider() {
    let c = numbers(10, 20, 30);
    assert_eq!(*c.index(Provider::Solend), 10);
    assert_eq!(*c.index(Provider::Port), 20);
    assert_eq!(*c.index(Provider::Jet), 30);
}

#[test]
fn from_iter_later_duplicates_overwrite_earlier_ones() {
    let c: AssetContainer<u64> = AssetContainer::from_iter(vec![
        (Provider::Port, 5),
        (Provider::Jet, 1),
        (Provider::Port, 7),
    ]);
    assert_eq!(*c.index(Provider::Solend), 0);
    assert_eq!(*c.index(Provider::Port), 7);
    assert_eq!(*c.index(Provider::Jet), 1);
}

#[test]
fn from_iter_of_nothing_is_the_default() {
    let c: AssetContainer<u64> = AssetContainer::from_iter(Vec::new());
    assert_eq!(*c.index(Provider::Solend), 0);
    assert_eq!(*c.index(Provider::Port), 0);
    assert_eq!(*c.index(Provider::Jet), 0);
}

#[test]
fn from_fn_asks_for_each_provider() {
    let c: AssetContainer<usize> = AssetContainer::from_fn(|p: Provider| p.index() + 100);
    assert_eq!(*c.index(Provider::Solend), 100);
    assert_eq!(*c.index(Provider::Port), 101);
    assert_eq!(*c.index(Provider::Jet), 102);
}

#[test]
fn index_mut_writes_one_slot_only() {
    let mut c = numbers(1, 2, 3);
    *c.index_mut(Provider::Port) = 50;
    assert_eq!(*c.index(Provider::Solend), 1);
    assert_eq!(*c.index(Provider::Port), 50);
    assert_eq!(*c.index(Provider::Jet), 3);
    *c.index_mut(Provider::Port) += 1;
    assert_eq!(*c.index(Provider::Port), 51);
}

#[test]
fn apply_maps_every_provider_with_its_value() {
    let c = numbers(10, 20, 30);
    let out = c.apply(|p, v| (p.index(), *v + 1));
    assert_eq!(*out.index(Provider::Solend), (0, 11));
    assert_eq!(*out.index(Provider::Port), (1, 21));
    assert_eq!(*out.index(Provider::Jet), (2, 31));
    // the source is untouched
    assert_eq!(*c.index(Provider::Port), 20);
}

#[test]
fn apply_owned_moves_the_values() {
    let c: AssetContainer<String> = AssetContainer::from_iter(vec![
        (Provider::Solend, String::from("a")),
        (Provider::Port, String::from("b")),
        (Provider::Jet, String::from("c")),
    ]);
    let out: AssetContainer<String> = c.apply_owned(|p, mut s| {
        s.push_str(p.name());
        s
    });
    assert_eq!(out.index(Provider::Solend), "aSolend");
    assert_eq!(out.index(Provider::Port), "bPort");
    assert_eq!(out.index(Provider::Jet), "cJet");
}

#[test]
fn map_identity_gives_the_container_back() {
    let c = numbers(7, 0, u64::MAX);
    let out = c.clone().apply_owned(|_, v| v);
    for p in [Provider::Solend, Provider::Port, Provider::Jet] {
        assert_eq!(out.index(p), c.index(p));
    }
    let by_ref = c.apply(|_, v| *v);
    for p in [Provider::Solend, Provider::Port, Provider::Jet] {
        assert_eq!(by_ref.index(p), c.index(p));
    }
}

#[test]
fn try_apply_returns_all_results_when_none_fails() {
    let c = numbers(1, 2, 3);
    let out: Result<AssetContainer<u64>, String> = c.try_apply(|_, v| Ok(v * 10));
    let out = out.unwrap();
    assert_eq!(*out.index(Provider::Solend), 10);
    assert_eq!(*out.index(Provider::Port), 20);
    assert_eq!(*out.index(Provider::Jet), 30);
}

#[test]
fn try_apply_stops_at_the_first_error() {
    let c = numbers(1, 2, 3);
    let calls = Cell::new(0u32);
    let out: Result<AssetContainer<u64>, Provider> = c.try_apply(|p, v| {
        calls.set(calls.get() + 1);
        if *v >= 2 {
            Err(p)
        } else {
            Ok(*v)
        }
    });
    // both Port and Jet would fail: the error is that of Port, the first,
    // and Jet was never asked
    assert_eq!(out.err(), Some(Provider::Port));
    assert_eq!(calls.get(), 2);
}

#[test]
fn try_apply_error_at_the_first_provider() {
    let c = numbers(1, 2, 3);
    let calls = Cell::new(0u32);
    let out: Result<AssetContainer<u64>, u64> = c.try_apply(|_, v| {
        calls.set(calls.get() + 1);
        Err(*v)
    });
    assert_eq!(out.err(), Some(1));
    assert_eq!(calls.get(), 1);
}

#[test]
fn iteration_yields_one_entry_per_provider_in_order() {
    let c = numbers(10, 20, 30);
    let mut it = c.iter();
    assert_eq!(it.next(), Some((Provider::Solend, &10)));
    assert_eq!(it.next(), Some((Provider::Port, &20)));
    assert_eq!(it.next(), Some((Provider::Jet, &30)));
    assert_eq!(it.next(), None);
    assert_eq!(it.next(), None);
}

#[test]
fn owned_iteration_yields_one_entry_per_provider_in_order() {
    let c: AssetContainer<String> = AssetContainer::from_iter(vec![
        (Provider::Jet, String::from("j")),
        (Provider::Solend, String::from("s")),
        (Provider::Port, String::from("p")),
    ]);
    let mut it = c.into_iter();
    assert_eq!(it.next(), Some((Provider::Solend, String::from("s"))));
    assert_eq!(it.next(), Some((Provider::Port, String::from("p"))));
    assert_eq!(it.next(), Some((Provider::Jet, String::from("j"))));
    assert_eq!(it.next(), None);
    assert_eq!(it.next(), None);
}

#[test]
fn iteration_has_no_duplicates_and_no_gaps() {
    let c = numbers(5, 5, 5);
    let mut seen = [0u32; 3];
    let mut it = c.iter();
    while let Some((p, v)) = it.next() {
        assert_eq!(*v, 5);
        seen[p.index()] += 1;
    }
    assert_eq!(seen, [1, 1, 1]);
}
