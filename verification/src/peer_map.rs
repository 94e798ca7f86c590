use vstd::prelude::*;
use dashmap::DashMap;
use crate::peer::PeerId;

verus! {

/// `dashmap::DashMap`, made known so that it can stand in fields and
/// signatures. Nothing is known of its inside; what it holds is spoken of
/// through `peer_entries` and `name_entries`.
///
/// The methods of a `DashMap` take it by shared reference. The wrappers
/// below that change a map take it by exclusive reference instead, so that
/// nobody else can change it meanwhile and what they say of the entries
/// after the call holds.
#[verifier::external_type_specification]
#[verifier::external_body]
#[verifier::reject_recursive_types(K)]
#[verifier::reject_recursive_types(V)]
#[verifier::reject_recursive_types(S)]
pub struct ExDashMap<K, V, S>(DashMap<K, V, S>);

/// The entries that a peer-keyed `DashMap` holds: each key with its value.
pub uninterp spec fn peer_entries(map: DashMap<u128, u64>) -> Map<u128, u64>;

/// The map without entries.
pub open spec fn no_entries() -> Map<u128, u64> {
    Map::empty()
}

/// `DashMap::new`: a map that holds nothing.
#[verifier::external_body]
pub(crate) fn peer_map_new() -> (table: DashMap<u128, u64>)
    ensures
        peer_entries(table) == no_entries(),
{
    DashMap::new()
}

/// `DashMap::insert`: the key is bound to the value, whatever it was bound
/// to before; the earlier value, if there was one, is handed back.
#[verifier::external_body]
pub(crate) fn peer_map_insert(map: &mut DashMap<u128, u64>, key: u128, value: u64) -> (previous: Option<u64>)
    ensures
        peer_entries(*final(map)) == peer_entries(*old(map)).insert(key, value),
        previous == (if peer_entries(*old(map)).contains_key(key) {
            Some(peer_entries(*old(map))[key])
        } else {
            None
        }),
{
    map.insert(key, value)
}

/// `DashMap::remove`: the key is bound no longer; the value it was bound to,
/// if there was one, is handed back.
#[verifier::external_body]
pub(crate) fn peer_map_remove(map: &mut DashMap<u128, u64>, key: u128) -> (previous: Option<u64>)
    ensures
        peer_entries(*final(map)) == peer_entries(*old(map)).remove(key),
        previous == (if peer_entries(*old(map)).contains_key(key) {
            Some(peer_entries(*old(map))[key])
        } else {
            None
        }),
{
    map.remove(&key).map(|entry| entry.1)
}

/// `DashMap::contains_key`.
#[verifier::external_body]
pub(crate) fn peer_map_contains(map: &DashMap<u128, u64>, key: u128) -> (found: bool)
    ensures
        found == peer_entries(*map).contains_key(key),
{
    map.contains_key(&key)
}

/// `DashMap::get`, with the value copied out of the guard it returns.
#[verifier::external_body]
pub(crate) fn peer_map_get(map: &DashMap<u128, u64>, key: u128) -> (value: Option<u64>)
    ensures
        value == (if peer_entries(*map).contains_key(key) {
            Some(peer_entries(*map)[key])
        } else {
            None
        }),
{
    map.get(&key).map(|entry| *entry.value())
}

/// Whether `listing` names every entry of `entries` once: no key twice,
/// nothing that the map does not hold, and nothing of the map left out.
pub open spec fn is_listing(listing: Seq<(u128, u64)>, entries: Map<u128, u64>) -> bool {
    &&& forall|i: int, j: int|
        0 <= i < j < listing.len() ==> (#[trigger] listing[i]).0 != (#[trigger] listing[j]).0
    &&& forall|i: int|
        0 <= i < listing.len() ==> entries.contains_key((#[trigger] listing[i]).0)
            && entries[listing[i].0] == listing[i].1
    &&& forall|key: u128| #[trigger]
        entries.contains_key(key) ==> exists|i: int|
            0 <= i < listing.len() && (#[trigger] listing[i]).0 == key
}

/// `DashMap::iter`, with each key and value copied out of the guard. The
/// iterator visits every entry once; in which order is left open.
#[verifier::external_body]
pub(crate) fn peer_map_listing(map: &DashMap<u128, u64>) -> (listing: Vec<(u128, u64)>)
    ensures
        is_listing(listing@, peer_entries(*map)),
{
    map.iter().map(|entry| (*entry.key(), *entry.value())).collect()
}

/// The entries that a name-keyed `DashMap` holds: each key, as its
/// characters, with its value.
pub uninterp spec fn name_entries(map: DashMap<String, u64>) -> Map<Seq<char>, u64>;

/// The name-keyed map without entries.
pub open spec fn no_names() -> Map<Seq<char>, u64> {
    Map::empty()
}

/// `DashMap::new`: a map that holds nothing.
#[verifier::external_body]
pub(crate) fn name_map_new() -> (table: DashMap<String, u64>)
    ensures
        name_entries(table) == no_names(),
{
    DashMap::new()
}

/// `DashMap::insert`: the key is bound to the value, whatever it was bound
/// to before; the earlier value, if there was one, is handed back.
#[verifier::external_body]
pub(crate) fn name_map_insert(map: &mut DashMap<String, u64>, key: String, value: u64) -> (previous:
    Option<u64>)
    ensures
        name_entries(*final(map)) == name_entries(*old(map)).insert(key@, value),
        previous == (if name_entries(*old(map)).contains_key(key@) {
            Some(name_entries(*old(map))[key@])
        } else {
            None
        }),
{
    map.insert(key, value)
}

/// `DashMap::get`, with the value copied out of the guard it returns.
#[verifier::external_body]
pub(crate) fn name_map_get(map: &DashMap<String, u64>, key: &str) -> (value: Option<u64>)
    ensures
        value == (if name_entries(*map).contains_key(key@) {
            Some(name_entries(*map)[key@])
        } else {
            None
        }),
{
    map.get(key).map(|entry| *entry.value())
}

/// The entries of a peer-keyed map with each key as the peer and each
/// value as what it stands for.
pub open spec fn by_peer<V>(entries: Map<u128, u64>, wrap: spec_fn(u64) -> V) -> Map<PeerId, V> {
    Map::new(
        |peer_id: PeerId| entries.contains_key(peer_id.0),
        |peer_id: PeerId| wrap(entries[peer_id.0]),
    )
}

pub broadcast proof fn lemma_by_peer_empty<V>(wrap: spec_fn(u64) -> V)
    ensures
        #[trigger] by_peer(no_entries(), wrap) == Map::<PeerId, V>::empty(),
{
}

pub broadcast proof fn lemma_by_peer_insert<V>(
    entries: Map<u128, u64>,
    wrap: spec_fn(u64) -> V,
    key: u128,
    value: u64,
)
    ensures
        #[trigger] by_peer(entries.insert(key, value), wrap) == by_peer(entries, wrap).insert(
            PeerId(key),
            wrap(value),
        ),
{
}

pub broadcast proof fn lemma_by_peer_remove<V>(
    entries: Map<u128, u64>,
    wrap: spec_fn(u64) -> V,
    key: u128,
)
    ensures
        #[trigger] by_peer(entries.remove(key), wrap) == by_peer(entries, wrap).remove(PeerId(key)),
{
}

/// The entries of a name-keyed map with each value as what it stands for.
pub open spec fn by_name<V>(entries: Map<Seq<char>, u64>, wrap: spec_fn(u64) -> V) -> Map<
    Seq<char>,
    V,
> {
    Map::new(|name: Seq<char>| entries.contains_key(name), |name: Seq<char>| wrap(entries[name]))
}

pub broadcast proof fn lemma_by_name_empty<V>(wrap: spec_fn(u64) -> V)
    ensures
        #[trigger] by_name(no_names(), wrap) == Map::<Seq<char>, V>::empty(),
{
}

pub broadcast proof fn lemma_by_name_insert<V>(
    entries: Map<Seq<char>, u64>,
    wrap: spec_fn(u64) -> V,
    name: Seq<char>,
    value: u64,
)
    ensures
        #[trigger] by_name(entries.insert(name, value), wrap) == by_name(entries, wrap).insert(
            name,
            wrap(value),
        ),
{
}

pub broadcast group group_keyed_maps {
    lemma_by_peer_empty,
    lemma_by_peer_insert,
    lemma_by_peer_remove,
    lemma_by_name_empty,
    lemma_by_name_insert,
}

} // verus!
