//! The concurrent maps that the runtime keeps, from identifiers to plain values.

use crate::lifecycle::SharedTransportAddresses;
use dashmap::DashMap;
use vstd::prelude::*;

verus! {

/// `dashmap::DashMap`.
#[verifier::external_type_specification]
#[verifier::external_body]
#[verifier::reject_recursive_types(K)]
#[verifier::reject_recursive_types(V)]
#[verifier::reject_recursive_types(S)]
pub struct ExDashMap<K, V, S>(dashmap::DashMap<K, V, S>);

/// What a map from identifiers to tokens holds.
pub uninterp spec fn tokens(m: DashMap<u128, u64>) -> Map<u128, u64>;

/// Calls `DashMap::new`: an empty map.
#[verifier::external_body]
pub(crate) fn tokens_new() -> (r: DashMap<u128, u64>)
    ensures
        tokens(r) == (Map::<u128, u64>::empty()),
{
    DashMap::new()
}

/// Calls `DashMap::insert`: binds the key and returns what it was bound to.
#[verifier::external_body]
pub(crate) fn tokens_insert(m: &mut DashMap<u128, u64>, key: u128, value: u64) -> (r: Option<u64>)
    ensures
        tokens(*final(m)) == tokens(*old(m)).insert(key, value),
        r == (if tokens(*old(m)).contains_key(key) {
            Some(tokens(*old(m))[key])
        } else {
            None
        }),
{
    m.insert(key, value)
}

/// Calls `DashMap::remove`: unbinds the key and returns what it was bound to.
#[verifier::external_body]
pub(crate) fn tokens_remove(m: &mut DashMap<u128, u64>, key: u128) -> (r: Option<u64>)
    ensures
        tokens(*final(m)) == tokens(*old(m)).remove(key),
        r == (if tokens(*old(m)).contains_key(key) {
            Some(tokens(*old(m))[key])
        } else {
            None
        }),
{
    m.remove(&key).map(|entry| entry.1)
}

/// Calls `DashMap::get`: what the key is bound to.
#[verifier::external_body]
pub(crate) fn tokens_get(m: &DashMap<u128, u64>, key: u128) -> (r: Option<u64>)
    ensures
        r == (if tokens(*m).contains_key(key) {
            Some(tokens(*m)[key])
        } else {
            None
        }),
{
    m.get(&key).map(|entry| *entry.value())
}

/// Calls `DashMap::clear`: the map is empty afterwards.
#[verifier::external_body]
pub(crate) fn tokens_clear(m: &mut DashMap<u128, u64>)
    ensures
        tokens(*final(m)) == (Map::<u128, u64>::empty()),
{
    m.clear()
}

/// Calls `DashMap::len`: how many keys are bound.
#[verifier::external_body]
pub(crate) fn tokens_len(m: &DashMap<u128, u64>) -> (r: usize)
    ensures
        r == tokens(*m).len(),
{
    m.len()
}

/// Calls `DashMap::iter` and collects the keys: each key once, in an order that is left open.
#[verifier::external_body]
pub(crate) fn tokens_keys(m: &DashMap<u128, u64>) -> (r: Vec<u128>)
    ensures
        r@.no_duplicates(),
        forall|k: u128| #[trigger] r@.contains(k) <==> tokens(*m).contains_key(k),
{
    m.iter().map(|entry| *entry.key()).collect()
}

/// What a map from identifiers to texts holds.
pub uninterp spec fn names(m: DashMap<u128, String>) -> Map<u128, Seq<char>>;

/// Calls `DashMap::new`: an empty map.
#[verifier::external_body]
pub(crate) fn names_new() -> (r: DashMap<u128, String>)
    ensures
        names(r) == (Map::<u128, Seq<char>>::empty()),
{
    DashMap::new()
}

/// Calls `DashMap::insert`: binds the key.
#[verifier::external_body]
pub(crate) fn names_insert(m: &mut DashMap<u128, String>, key: u128, value: String)
    ensures
        names(*final(m)) == names(*old(m)).insert(key, value@),
{
    m.insert(key, value);
}

/// Calls `DashMap::remove`: unbinds the key and returns what it was bound to.
#[verifier::external_body]
pub(crate) fn names_remove(m: &mut DashMap<u128, String>, key: u128) -> (r: Option<String>)
    ensures
        names(*final(m)) == names(*old(m)).remove(key),
        r is Some <==> names(*old(m)).contains_key(key),
        r matches Some(value) ==> value@ == names(*old(m))[key],
{
    m.remove(&key).map(|entry| entry.1)
}

/// Calls `DashMap::get`: what the key is bound to.
#[verifier::external_body]
pub(crate) fn names_get(m: &DashMap<u128, String>, key: u128) -> (r: Option<String>)
    ensures
        r is Some <==> names(*m).contains_key(key),
        r matches Some(value) ==> value@ == names(*m)[key],
{
    m.get(&key).map(|entry| entry.value().clone())
}

/// Calls `DashMap::clear`: the map is empty afterwards.
#[verifier::external_body]
pub(crate) fn names_clear(m: &mut DashMap<u128, String>)
    ensures
        names(*final(m)) == (Map::<u128, Seq<char>>::empty()),
{
    m.clear()
}

/// Calls `DashMap::iter` and collects the bindings: each once, in an order that is left open.
#[verifier::external_body]
pub(crate) fn names_entries(m: &DashMap<u128, String>) -> (r: Vec<(u128, String)>)
    ensures
        forall|i: int, j: int|
            0 <= i < j < r@.len() ==> (#[trigger] r@[i]).0 != (#[trigger] r@[j]).0,
        forall|i: int|
            0 <= i < r@.len() ==> names(*m).contains_key((#[trigger] r@[i]).0) && names(*m)[r@[i].0]
                == r@[i].1@,
        forall|k: u128| #[trigger]
            names(*m).contains_key(k) ==> exists|i: int| 0 <= i < r@.len() && (#[trigger] r@[i]).0 == k,
{
    m.iter().map(|entry| (*entry.key(), entry.value().clone())).collect()
}

/// What a map from identifiers to addresses holds.
pub uninterp spec fn addresses(m: DashMap<u128, SharedTransportAddresses>) -> Map<u128, SharedTransportAddresses>;

/// Calls `DashMap::get`: what the key is bound to.
#[verifier::external_body]
pub(crate) fn addresses_get(m: &DashMap<u128, SharedTransportAddresses>, key: u128) -> (r: Option<
    SharedTransportAddresses,
>)
    ensures
        r == (if addresses(*m).contains_key(key) {
            Some(addresses(*m)[key])
        } else {
            None
        }),
{
    m.get(&key).map(|entry| entry.value().clone())
}

/// Calls `DashMap::insert`: binds the key.
#[verifier::external_body]
pub(crate) fn addresses_insert(
    m: &mut DashMap<u128, SharedTransportAddresses>,
    key: u128,
    value: SharedTransportAddresses,
)
    ensures
        addresses(*final(m)) == addresses(*old(m)).insert(key, value),
{
    m.insert(key, value);
}

} // verus!
