//! The bounded recency list that orders cache keys, kept by the `lru` crate.
//!
//! Everything in this file is a statement about `lru::LruCache` that the
//! verifier takes on trust. The list maps a key to the number of the slot
//! that holds the key's object; the cache itself lives in `cache`.

use lru::LruCache;
use std::num::NonZeroUsize;
use vstd::prelude::*;

verus! {

#[verifier::external_type_specification]
#[verifier::external_body]
#[verifier::reject_recursive_types(K)]
#[verifier::reject_recursive_types(V)]
#[verifier::reject_recursive_types(S)]
pub struct ExLruCache<K, V, S>(lru::LruCache<K, V, S>);

#[verifier::external_type_specification]
#[verifier::external_body]
pub struct ExDefaultHasher(lru::DefaultHasher);

/// The entries of a recency list, most recently used first.
pub uninterp spec fn lru_entries(list: LruCache<String, usize>) -> Seq<(Seq<char>, usize)>;

/// The number of entries a recency list was made to hold.
pub uninterp spec fn lru_limit(list: LruCache<String, usize>) -> nat;

/// Whether some entry of `entries` has the key `key`.
pub open spec fn has_key<V>(entries: Seq<(Seq<char>, V)>, key: Seq<char>) -> bool {
    exists|i: int| 0 <= i < entries.len() && (#[trigger] entries[i]).0 == key
}

/// The position of an entry of `entries` with the key `key`. A recency list
/// never holds a key twice, so there is at most one.
pub open spec fn key_index<V>(entries: Seq<(Seq<char>, V)>, key: Seq<char>) -> int {
    choose|i: int| 0 <= i < entries.len() && (#[trigger] entries[i]).0 == key
}

/// No key occurs twice in `entries`.
pub open spec fn distinct_keys<V>(entries: Seq<(Seq<char>, V)>) -> bool {
    forall|i: int, j: int|
        0 <= i < j < entries.len() ==> (#[trigger] entries[i]).0 != (#[trigger] entries[j]).0
}

/// `entries` with the entry at `i` moved to the front.
pub open spec fn promoted<V>(entries: Seq<(Seq<char>, V)>, i: int) -> Seq<(Seq<char>, V)> {
    seq![entries[i]] + entries.remove(i)
}

/// `entries` after `value` was put under `key` into a list that holds at
/// most `limit` entries: an entry of that key is replaced and moved to the
/// front; otherwise the new entry goes to the front, and the last entry
/// leaves first when the list is full.
pub open spec fn after_put<V>(
    entries: Seq<(Seq<char>, V)>,
    limit: nat,
    key: Seq<char>,
    value: V,
) -> Seq<(Seq<char>, V)> {
    if has_key(entries, key) {
        seq![(key, value)] + entries.remove(key_index(entries, key))
    } else if entries.len() == limit {
        seq![(key, value)] + entries.drop_last()
    } else {
        seq![(key, value)] + entries
    }
}

/// In a list without repeated keys, the entry at `i` is the one that
/// `key_index` finds for its key.
pub proof fn lemma_key_index<V>(entries: Seq<(Seq<char>, V)>, i: int)
    requires
        distinct_keys(entries),
        0 <= i < entries.len(),
    ensures
        has_key(entries, entries[i].0),
        key_index(entries, entries[i].0) == i,
{
    let key = entries[i].0;
    let j = key_index(entries, key);
    assert(0 <= j < entries.len() && entries[j].0 == key);
    if j < i {
        assert(entries[j].0 != entries[i].0);
    } else if i < j {
        assert(entries[i].0 != entries[j].0);
    }
}

/// `LruCache::new`: an empty list that holds at most `limit` entries.
#[verifier::external_body]
pub(crate) fn lru_new(limit: usize) -> (list: LruCache<String, usize>)
    requires
        limit > 0,
    ensures
        lru_entries(list) == Seq::<(Seq<char>, usize)>::empty(),
        lru_limit(list) == limit,
{
    LruCache::new(NonZeroUsize::new(limit).unwrap())
}

/// `LruCache::len`: the number of entries.
#[verifier::external_body]
pub(crate) fn lru_len(list: &LruCache<String, usize>) -> (n: usize)
    ensures
        n == lru_entries(*list).len(),
{
    list.len()
}

/// `LruCache::cap`: the limit the list was made with.
#[verifier::external_body]
pub(crate) fn lru_cap(list: &LruCache<String, usize>) -> (n: usize)
    ensures
        n == lru_limit(*list),
        n > 0,
{
    list.cap().get()
}

/// `LruCache::peek`: the slot stored under `key`, if any; the order of the
/// list is not touched.
#[verifier::external_body]
pub(crate) fn lru_peek(list: &LruCache<String, usize>, key: &str) -> (slot: Option<usize>)
    ensures
        slot is Some <==> has_key(lru_entries(*list), key@),
        slot is Some ==> slot->0 == lru_entries(*list)[key_index(lru_entries(*list), key@)].1,
{
    list.peek(key).copied()
}

/// `LruCache::get`: the slot stored under `key`, if any; an entry that is
/// found moves to the front of the list.
#[verifier::external_body]
pub(crate) fn lru_get(list: &mut LruCache<String, usize>, key: &str) -> (slot: Option<usize>)
    ensures
        lru_limit(*final(list)) == lru_limit(*old(list)),
        slot is Some <==> has_key(lru_entries(*old(list)), key@),
        slot is Some ==> slot->0 == lru_entries(*old(list))[key_index(lru_entries(*old(list)), key@)].1,
        slot is Some ==> lru_entries(*final(list)) == promoted(
            lru_entries(*old(list)),
            key_index(lru_entries(*old(list)), key@),
        ),
        slot is None ==> lru_entries(*final(list)) == lru_entries(*old(list)),
{
    list.get(key).copied()
}

/// `LruCache::put`: stores `slot` under `key` at the front of the list. An
/// entry of the same key is replaced and its slot returned; otherwise
/// nothing is returned, and a full list first drops its last entry.
#[verifier::external_body]
pub(crate) fn lru_put(list: &mut LruCache<String, usize>, key: String, slot: usize) -> (previous:
    Option<usize>)
    ensures
        lru_limit(*final(list)) == lru_limit(*old(list)),
        lru_entries(*final(list)) == after_put(
            lru_entries(*old(list)),
            lru_limit(*old(list)),
            key@,
            slot,
        ),
        previous is Some <==> has_key(lru_entries(*old(list)), key@),
        previous is Some ==> previous->0 == lru_entries(*old(list))[key_index(
            lru_entries(*old(list)),
            key@,
        )].1,
{
    list.put(key, slot)
}

/// `LruCache::pop`: removes the entry of `key` and returns its slot; the
/// other entries keep their order.
#[verifier::external_body]
pub(crate) fn lru_pop(list: &mut LruCache<String, usize>, key: &str) -> (slot: Option<usize>)
    ensures
        lru_limit(*final(list)) == lru_limit(*old(list)),
        slot is Some <==> has_key(lru_entries(*old(list)), key@),
        slot is Some ==> slot->0 == lru_entries(*old(list))[key_index(lru_entries(*old(list)), key@)].1,
        slot is Some ==> lru_entries(*final(list)) == lru_entries(*old(list)).remove(
            key_index(lru_entries(*old(list)), key@),
        ),
        slot is None ==> lru_entries(*final(list)) == lru_entries(*old(list)),
{
    list.pop(key)
}

/// `LruCache::clear`: removes every entry; the limit stays.
#[verifier::external_body]
pub(crate) fn lru_clear(list: &mut LruCache<String, usize>)
    ensures
        lru_limit(*final(list)) == lru_limit(*old(list)),
        lru_entries(*final(list)) == Seq::<(Seq<char>, usize)>::empty(),
{
    list.clear()
}

/// `LruCache::peek_lru`: the last entry of the list, the one a full list
/// drops next; the order is not touched.
#[verifier::external_body]
pub(crate) fn lru_peek_lru(list: &LruCache<String, usize>) -> (last: Option<(String, usize)>)
    ensures
        last is Some <==> lru_entries(*list).len() > 0,
        last matches Some(item) ==> item.0@ == lru_entries(*list).last().0 && item.1
            == lru_entries(*list).last().1,
{
    list.peek_lru().map(|(k, v)| (k.clone(), *v))
}

/// `LruCache::iter`: the entries from the most to the least recently used.
#[verifier::external_body]
pub(crate) fn lru_list(list: &LruCache<String, usize>) -> (items: Vec<(String, usize)>)
    ensures
        items@.len() == lru_entries(*list).len(),
        forall|i: int|
            0 <= i < items@.len() ==> (#[trigger] items@[i]).0@ == lru_entries(*list)[i].0
                && items@[i].1 == lru_entries(*list)[i].1,
{
    list.iter().map(|(k, v)| (k.clone(), *v)).collect()
}

/// `LruCache::clone`: a list with the same limit and the same entries in the
/// same order.
#[verifier::external_body]
pub(crate) fn lru_clone(list: &LruCache<String, usize>) -> (copy: LruCache<String, usize>)
    ensures
        lru_limit(copy) == lru_limit(*list),
        lru_entries(copy) == lru_entries(*list),
{
    list.clone()
}

} // verus!
