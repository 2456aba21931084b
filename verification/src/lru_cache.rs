//! The least-recently-used cache of the `lru` crate, keyed and filled with
//! text.

use crate::position::{first_position, lemma_first_position};
use vstd::prelude::*;

verus! {

/// `lru::LruCache`. Nothing of its inside is known here; what it holds is
/// spoken of through [`lru_entries`] and [`lru_capacity`].
#[verifier::external_type_specification]
#[verifier::external_body]
#[verifier::reject_recursive_types(K)]
#[verifier::reject_recursive_types(V)]
#[verifier::reject_recursive_types(S)]
pub struct ExLruCache<K, V, S>(lru::LruCache<K, V, S>);

/// `lru::DefaultHasher`, the hasher that a cache has unless it is given
/// another. Nothing of its inside is known here.
#[verifier::external_type_specification]
#[verifier::external_body]
pub struct ExLruHasher(lru::DefaultHasher);

/// What a cache holds: its keys with their values, the most recently used
/// first.
pub uninterp spec fn lru_entries(cache: lru::LruCache<String, String>) -> Seq<
    (Seq<char>, Seq<char>),
>;

/// The number of entries that a cache was made to hold.
pub uninterp spec fn lru_capacity(cache: lru::LruCache<String, String>) -> nat;

/// The keys of the entries, in the order of the entries.
pub open spec fn entry_keys(entries: Seq<(Seq<char>, Seq<char>)>) -> Seq<Seq<char>> {
    entries.map_values(|entry: (Seq<char>, Seq<char>)| entry.0)
}

/// The place of a key among the entries, if it is there.
pub open spec fn key_position(entries: Seq<(Seq<char>, Seq<char>)>, key: Seq<char>) -> Option<int> {
    first_position(entry_keys(entries), key)
}

/// Where a position is found, the key stands there; where none is found,
/// no entry has the key.
pub proof fn lemma_key_position(entries: Seq<(Seq<char>, Seq<char>)>, key: Seq<char>)
    ensures
        match key_position(entries, key) {
            Some(at) => 0 <= at < entries.len() && entries[at].0 == key,
            None => forall|j: int| 0 <= j < entries.len() ==> (#[trigger] entries[j]).0 != key,
        },
{
    lemma_first_position(entry_keys(entries), key);
    assert forall|j: int| 0 <= j < entries.len() implies entry_keys(entries)[j]
        == (#[trigger] entries[j]).0 by {}
}

/// The entries after a key was looked up: an entry that was found is now
/// the most recently used.
pub open spec fn after_get(entries: Seq<(Seq<char>, Seq<char>)>, key: Seq<char>) -> Seq<
    (Seq<char>, Seq<char>),
> {
    match key_position(entries, key) {
        Some(at) => seq![entries[at]] + entries.remove(at),
        None => entries,
    }
}

/// The entries after a key was given a value: the entry is the most
/// recently used; where the key is new and the cache is full, the least
/// recently used entry has left.
pub open spec fn after_put(
    entries: Seq<(Seq<char>, Seq<char>)>,
    capacity: nat,
    key: Seq<char>,
    value: Seq<char>,
) -> Seq<(Seq<char>, Seq<char>)> {
    match key_position(entries, key) {
        Some(at) => seq![(key, value)] + entries.remove(at),
        None => if entries.len() < capacity {
            seq![(key, value)] + entries
        } else {
            seq![(key, value)] + entries.drop_last()
        },
    }
}

/// Calls `LruCache::new`: an empty cache that holds at most `capacity`
/// entries. Room for that many entries is taken at once, as by
/// `Vec::with_capacity`.
#[verifier::external_body]
pub(crate) fn lru_new(capacity: usize) -> (r: lru::LruCache<String, String>)
    requires
        capacity > 0,
    ensures
        lru_entries(r) == Seq::<(Seq<char>, Seq<char>)>::empty(),
        lru_capacity(r) == capacity,
{
    lru::LruCache::new(std::num::NonZeroUsize::new(capacity).unwrap())
}

/// Calls `LruCache::get`: the value of a key that is in the cache, which
/// then becomes the most recently used entry; nothing, and no change, for a
/// key that is not.
#[verifier::external_body]
pub(crate) fn lru_get(cache: &mut lru::LruCache<String, String>, key: &str) -> (r: Option<String>)
    ensures
        lru_entries(*final(cache)) == after_get(lru_entries(*old(cache)), key@),
        lru_capacity(*final(cache)) == lru_capacity(*old(cache)),
        match key_position(lru_entries(*old(cache)), key@) {
            Some(at) => r matches Some(value) && value@ == lru_entries(*old(cache))[at].1,
            None => r is None,
        },
{
    cache.get(key).cloned()
}

/// Calls `LruCache::put`: the key gets the value and becomes the most
/// recently used entry. A key that was in the cache keeps its place in the
/// count; a new key in a full cache drives out the least recently used
/// entry.
#[verifier::external_body]
pub(crate) fn lru_put(cache: &mut lru::LruCache<String, String>, key: String, value: String)
    ensures
        lru_entries(*final(cache)) == after_put(
            lru_entries(*old(cache)),
            lru_capacity(*old(cache)),
            key@,
            value@,
        ),
        lru_capacity(*final(cache)) == lru_capacity(*old(cache)),
{
    cache.put(key, value);
}

} // verus!
