//! The concurrent maps in which a schema provider keeps its tables and views.
//!
//! `DashMap` changes through shared references. The maps here are held by one
//! owner and changed only through the functions below, each of which takes the
//! map it changes by `&mut`: what a map holds is then a matter of its value.
use dashmap::DashMap;
use vstd::prelude::*;

use crate::text;

verus! {

/// The concurrent map of the `dashmap` crate.
#[verifier::external_type_specification]
#[verifier::external_body]
#[verifier::reject_recursive_types(K)]
#[verifier::reject_recursive_types(V)]
#[verifier::reject_recursive_types(S)]
pub struct ExDashMap<K, V, S>(DashMap<K, V, S>);

/// What a map from names to providers holds.
pub uninterp spec fn provider_entries(map: DashMap<String, u64>) -> Map<Seq<char>, u64>;

/// What a map from names to nothing holds: its names.
pub uninterp spec fn known_names(map: DashMap<String, ()>) -> Set<Seq<char>>;

/// `DashMap::new`: a map that holds nothing.
#[verifier::external_body]
pub(crate) fn no_providers() -> (res: DashMap<String, u64>)
    ensures
        provider_entries(res).is_empty(),
{
    DashMap::new()
}

/// `DashMap::insert`: the name stands for the provider from now on, whatever it
/// stood for before; every other name stands for what it did.
#[verifier::external_body]
pub(crate) fn insert_provider(map: &mut DashMap<String, u64>, name: String, provider: u64)
    ensures
        provider_entries(*final(map)) == provider_entries(*old(map)).insert(name@, provider),
{
    map.insert(name, provider);
}

/// `DashMap::remove`: takes the name out, and gives back what it stood for.
#[verifier::external_body]
pub(crate) fn remove_provider(map: &mut DashMap<String, u64>, name: &str) -> (res: Option<u64>)
    ensures
        provider_entries(*final(map)) == provider_entries(*old(map)).remove(name@),
        match res {
            Some(provider) => {
                &&& provider_entries(*old(map)).contains_key(name@)
                &&& provider == provider_entries(*old(map))[name@]
            },
            None => !provider_entries(*old(map)).contains_key(name@),
        },
{
    map.remove(name).map(|entry| entry.1)
}

/// `DashMap::get`: what the name stands for.
#[verifier::external_body]
pub(crate) fn get_provider(map: &DashMap<String, u64>, name: &str) -> (res: Option<u64>)
    ensures
        match res {
            Some(provider) => {
                &&& provider_entries(*map).contains_key(name@)
                &&& provider == provider_entries(*map)[name@]
            },
            None => !provider_entries(*map).contains_key(name@),
        },
{
    map.get(name).map(|entry| *entry.value())
}

/// `DashMap::contains_key`: whether the name stands for a provider.
#[verifier::external_body]
pub(crate) fn has_provider(map: &DashMap<String, u64>, name: &str) -> (res: bool)
    ensures
        res == provider_entries(*map).contains_key(name@),
{
    map.contains_key(name)
}

/// `DashMap::iter`: every name of the map once, in no particular order.
#[verifier::external_body]
pub(crate) fn provider_names(map: &DashMap<String, u64>) -> (res: Vec<String>)
    ensures
        text::texts(res@).no_duplicates(),
        text::texts(res@).to_set() == provider_entries(*map).dom(),
{
    map.iter().map(|entry| entry.key().clone()).collect()
}

/// `DashMap::new`: a map without names.
#[verifier::external_body]
pub(crate) fn no_names() -> (res: DashMap<String, ()>)
    ensures
        known_names(res) == Set::<Seq<char>>::empty(),
{
    DashMap::new()
}

/// `DashMap::insert`: the map holds the name from now on, and every name that
/// it held.
#[verifier::external_body]
pub(crate) fn insert_name(map: &mut DashMap<String, ()>, name: String)
    ensures
        known_names(*final(map)) == known_names(*old(map)).insert(name@),
{
    map.insert(name, ());
}

/// `DashMap::contains_key`: whether the map holds the name.
#[verifier::external_body]
pub(crate) fn has_name(map: &DashMap<String, ()>, name: &str) -> (res: bool)
    ensures
        res == known_names(*map).contains(name@),
{
    map.contains_key(name)
}

/// `DashMap::iter`: every name of the map once, in no particular order.
#[verifier::external_body]
pub(crate) fn names_of(map: &DashMap<String, ()>) -> (res: Vec<String>)
    ensures
        text::texts(res@).no_duplicates(),
        text::texts(res@).to_set() == known_names(*map),
{
    map.iter().map(|entry| entry.key().clone()).collect()
}

} // verus!
