//! The bounded cache of shared computation objects.
//!
//! A `ManagerCache<T>` maps cache keys to shared references to objects of
//! type `T`. It holds at most `capacity()` entries; when a new key arrives
//! at a full cache, the entry that was used least recently leaves. Leaving
//! the cache only drops the cache's own reference: other holders of the same
//! object keep it alive.

use crate::recency::{
    after_put, distinct_keys, has_key, key_index, lemma_key_index, lru_cap, lru_clear, lru_clone,
    lru_entries, lru_get, lru_len, lru_limit, lru_list, lru_new, lru_peek, lru_peek_lru, lru_pop,
    lru_put, promoted,
};
use lru::LruCache;
use std::sync::Arc;
use vstd::prelude::*;

verus! {

/// `Arc::clone`: another reference to the same object.
#[verifier::external_body]
pub(crate) fn share<T>(object: &Arc<T>) -> (other: Arc<T>)
    ensures
        other == *object,
{
    Arc::clone(object)
}

/// `Arc::strong_count`: how many references to the object exist right now.
/// Other threads and other holders decide the number, so nothing is claimed
/// of it.
#[verifier::external_body]
pub(crate) fn holders<T>(object: &Arc<T>) -> (count: usize) {
    Arc::strong_count(object)
}

/// The object stored under `key` in `entries`.
pub open spec fn lookup<V>(entries: Seq<(Seq<char>, V)>, key: Seq<char>) -> V {
    entries[key_index(entries, key)].1
}

/// A bounded cache from keys to shared objects, ordered by recency of use.
pub struct ManagerCache<T> {
    order: LruCache<String, usize>,
    slots: Vec<Option<Arc<T>>>,
}

impl<T> ManagerCache<T> {
    /// The entries, most recently used first.
    pub closed spec fn view(&self) -> Seq<(Seq<char>, Arc<T>)> {
        Seq::new(
            lru_entries(self.order).len(),
            |i: int| (lru_entries(self.order)[i].0, self.slots@[lru_entries(self.order)[i].1 as int]->0),
        )
    }

    /// The largest number of entries the cache holds.
    pub closed spec fn capacity(&self) -> nat {
        lru_limit(self.order)
    }

    /// Every entry has a slot of its own, and every filled slot an entry.
    pub closed spec fn slots_agree(&self) -> bool {
        let entries = lru_entries(self.order);
        &&& forall|i: int|
            0 <= i < entries.len() ==> (#[trigger] entries[i]).1 < self.slots@.len()
                && self.slots@[entries[i].1 as int] is Some
        &&& forall|i: int, j: int|
            0 <= i < j < entries.len() ==> (#[trigger] entries[i]).1 != (#[trigger] entries[j]).1
        &&& forall|s: int|
            0 <= s < self.slots@.len() && (#[trigger] self.slots@[s]) is Some ==> exists|i: int|
                0 <= i < entries.len() && (#[trigger] entries[i]).1 == s
        &&& distinct_keys(entries)
    }

    /// The cache is well formed: no key occurs twice and the bound holds.
    pub open spec fn wf(&self) -> bool {
        &&& self.slots_agree()
        &&& distinct_keys(self@)
        &&& self.capacity() > 0
        &&& self@.len() <= self.capacity()
    }

    /// An empty cache that holds at most `capacity` entries.
    pub fn new(capacity: usize) -> (cache: Self)
        requires
            capacity > 0,
        ensures
            cache.wf(),
            cache@.len() == 0,
            cache.capacity() == capacity,
    {
        ManagerCache { order: lru_new(capacity), slots: Vec::new() }
    }

    /// The number of entries.
    pub fn len(&self) -> (n: usize)
        ensures
            n == self@.len(),
    {
        lru_len(&self.order)
    }

    /// The bound the cache was made with.
    pub fn cap(&self) -> (n: usize)
        ensures
            n == self.capacity(),
    {
        lru_cap(&self.order)
    }

    proof fn lemma_keys(&self)
        requires
            self.slots_agree(),
        ensures
            distinct_keys(self@),
            forall|key: Seq<char>| has_key(self@, key) == has_key(lru_entries(self.order), key),
            forall|key: Seq<char>| #[trigger]
                has_key(self@, key) ==> key_index(self@, key) == key_index(
                    lru_entries(self.order),
                    key,
                ),
    {
        let entries = lru_entries(self.order);
        let view = self@;
        assert forall|key: Seq<char>| has_key(view, key) == has_key(entries, key) by {
            if has_key(view, key) {
                let i = key_index(view, key);
                assert(entries[i].0 == key);
            }
            if has_key(entries, key) {
                let i = key_index(entries, key);
                assert(view[i].0 == key);
            }
        }
        assert forall|key: Seq<char>| #[trigger] has_key(view, key) implies key_index(view, key)
            == key_index(entries, key) by {
            let i = key_index(view, key);
            assert(entries[i].0 == key);
            lemma_key_index(entries, i);
        }
        assert forall|i: int, j: int| 0 <= i < j < view.len() implies (#[trigger] view[i]).0 != (
        #[trigger] view[j]).0 by {
            assert(entries[i].0 != entries[j].0);
        }
    }

    /// Whether `key` has an entry. The order of use is not touched.
    pub fn contains(&self, key: &str) -> (found: bool)
        requires
            self.wf(),
        ensures
            found == has_key(self@, key@),
    {
        proof {
            self.lemma_keys();
        }
        lru_peek(&self.order, key).is_some()
    }

    /// The object stored under `key`, without counting as a use.
    pub fn peek(&self, key: &str) -> (found: Option<Arc<T>>)
        requires
            self.wf(),
        ensures
            found is Some <==> has_key(self@, key@),
            found is Some ==> found->0 == lookup(self@, key@),
    {
        proof {
            self.lemma_keys();
        }
        match lru_peek(&self.order, key) {
            Some(slot) => {
                proof {
                    let i = key_index(lru_entries(self.order), key@);
                    assert(lru_entries(self.order)[i].1 == slot);
                }
                match &self.slots[slot] {
                    Some(object) => Some(share(object)),
                    None => None,
                }
            },
            None => None,
        }
    }

    /// Makes `key` the most recently used one and returns the slot of its
    /// object. Nothing else changes.
    fn touch(&mut self, key: &str) -> (slot: Option<usize>)
        requires
            old(self).wf(),
        ensures
            final(self).wf(),
            final(self).capacity() == old(self).capacity(),
            slot is Some <==> has_key(old(self)@, key@),
            slot matches Some(s) ==> s < final(self).slots@.len() && final(self).slots@[s as int]
                == Some(lookup(old(self)@, key@)),
            slot is Some ==> final(self)@ == promoted(old(self)@, key_index(old(self)@, key@)),
            slot is None ==> final(self)@ == old(self)@,
    {
        proof {
            self.lemma_keys();
        }
        let ghost before = lru_entries(self.order);
        let ghost view_before = self@;
        let slot = lru_get(&mut self.order, key);
        proof {
            if slot is Some {
                let i = key_index(before, key@);
                let after = lru_entries(self.order);
                assert(after == promoted(before, i));
                assert(after.len() == before.len());
                assert(after[0] == before[i]);
                assert(before[i].1 == slot->0);
                assert forall|k: int| 0 < k < after.len() implies after[k] == before[if k <= i {
                    k - 1
                } else {
                    k
                }] by {}
                assert(self.slots_agree()) by {
                    assert forall|s: int|
                        0 <= s < self.slots@.len() && (#[trigger] self.slots@[s]) is Some implies exists|
                        k: int,
                    |
                        0 <= k < after.len() && (#[trigger] after[k]).1 == s by {
                        let b = choose|b: int| 0 <= b < before.len() && (#[trigger] before[b]).1 == s;
                        let k = if b == i {
                            0
                        } else if b < i {
                            b + 1
                        } else {
                            b
                        };
                        assert(after[k] == before[b]);
                    }
                }
                assert(self@ =~= promoted(view_before, i));
                self.lemma_keys();
            } else {
                assert(self@ =~= view_before);
            }
        }
        slot
    }

    /// The object stored under `key`. A key that is found becomes the most
    /// recently used one; nothing else changes.
    pub fn get(&mut self, key: &str) -> (found: Option<Arc<T>>)
        requires
            old(self).wf(),
        ensures
            final(self).wf(),
            final(self).capacity() == old(self).capacity(),
            found is Some <==> has_key(old(self)@, key@),
            found is Some ==> found->0 == lookup(old(self)@, key@),
            found is Some ==> final(self)@ == promoted(old(self)@, key_index(old(self)@, key@)),
            found is None ==> final(self)@ == old(self)@,
    {
        match self.touch(key) {
            Some(slot) => match &self.slots[slot] {
                Some(object) => Some(share(object)),
                None => None,
            },
            None => None,
        }
    }

    /// The number of a slot that holds nothing, growing the store when every
    /// slot is taken.
    fn free_slot(&mut self) -> (slot: usize)
        ensures
            slot < final(self).slots@.len(),
            final(self).slots@[slot as int] is None,
            final(self).order == old(self).order,
            final(self).slots@.len() >= old(self).slots@.len(),
            forall|s: int|
                0 <= s < old(self).slots@.len() ==> final(self).slots@[s] == old(self).slots@[s],
            forall|s: int|
                old(self).slots@.len() <= s < final(self).slots@.len() ==> final(self).slots@[s]
                    is None,
    {
        let n: usize = self.slots.len();
        let mut s: usize = 0;
        while s < n
            invariant
                n == self.slots@.len(),
                s <= n,
            decreases n - s,
        {
            if self.slots[s].is_none() {
                return s;
            }
            s = s + 1;
        }
        self.slots.push(None);
        n
    }

    /// Stores `object` under `key` as the most recently used entry and
    /// returns the object that `key` had before, if any. When `key` is new
    /// and the cache is full, the least recently used entry leaves; every
    /// other entry stays as it was.
    pub fn put(&mut self, key: String, object: Arc<T>) -> (previous: Option<Arc<T>>)
        requires
            old(self).wf(),
        ensures
            final(self).wf(),
            final(self).capacity() == old(self).capacity(),
            final(self)@ == after_put(old(self)@, old(self).capacity(), key@, object),
            previous is Some <==> has_key(old(self)@, key@),
            previous is Some ==> previous->0 == lookup(old(self)@, key@),
    {
        proof {
            self.lemma_keys();
        }
        let ghost before = lru_entries(self.order);
        let ghost view_before = self@;
        let ghost slots_before = self.slots@;
        match lru_peek(&self.order, key.as_str()) {
            Some(slot) => {
                let ghost i = key_index(before, key@);
                assert(before[i].1 == slot);
                let previous = self.slots[slot].take();
                self.slots[slot] = Some(object);
                lru_put(&mut self.order, key, slot);
                proof {
                    let after = lru_entries(self.order);
                    assert(after == seq![(key@, slot)] + before.remove(i));
                    assert(after[0] == (key@, slot));
                    assert forall|k: int| 0 < k < after.len() implies after[k] == before[if k <= i {
                        k - 1
                    } else {
                        k
                    }] by {}
                    assert(self.slots_agree()) by {
                        assert forall|s: int|
                            0 <= s < self.slots@.len() && (#[trigger] self.slots@[s]) is Some implies exists|
                            k: int,
                        |
                            0 <= k < after.len() && (#[trigger] after[k]).1 == s by {
                            if s == slot {
                                assert(after[0].1 == s);
                            } else {
                                assert(slots_before[s] is Some);
                                let b = choose|b: int|
                                    0 <= b < before.len() && (#[trigger] before[b]).1 == s;
                                let k = if b < i {
                                    b + 1
                                } else {
                                    b
                                };
                                assert(after[k] == before[b]);
                            }
                        }
                        assert forall|a: int, b: int| 0 <= a < b < after.len() implies (
                        #[trigger] after[a]).0 != (#[trigger] after[b]).0 by {
                            if a == 0 {
                                let bb = if b <= i {
                                    b - 1
                                } else {
                                    b
                                };
                                assert(before[bb].0 != before[i].0);
                            }
                        }
                    }
                    assert(self@ =~= after_put(view_before, self.capacity(), key@, object));
                    self.lemma_keys();
                }
                previous
            },
            None => {
                let full = lru_len(&self.order) == lru_cap(&self.order);
                if full {
                    match lru_peek_lru(&self.order) {
                        Some(last) => {
                            self.slots[last.1] = None;
                        },
                        None => {},
                    }
                }
                let ghost slots_mid = self.slots@;
                let slot = self.free_slot();
                self.slots[slot] = Some(object);
                lru_put(&mut self.order, key, slot);
                proof {
                    let after = lru_entries(self.order);
                    let kept = if full {
                        before.drop_last()
                    } else {
                        before
                    };
                    assert(after == seq![(key@, slot)] + kept);
                    assert(after[0] == (key@, slot));
                    assert forall|k: int| 0 < k < after.len() implies after[k] == before[k - 1] by {}
                    assert forall|b: int| 0 <= b < kept.len() implies (#[trigger] before[b]).1
                        != slot && self.slots@[before[b].1 as int] == slots_before[before[b].1 as int] by {
                        if full {
                            assert(before[b].1 != before[before.len() - 1].1);
                        }
                        assert(slots_mid[before[b].1 as int] is Some);
                    }
                    assert(self.slots_agree()) by {
                        assert forall|k: int| 0 <= k < after.len() implies (#[trigger] after[k]).1
                            < self.slots@.len() && self.slots@[after[k].1 as int] is Some by {
                            if k > 0 {
                                assert(after[k] == before[k - 1]);
                            }
                        }
                        assert forall|a: int, b: int| 0 <= a < b < after.len() implies (
                        #[trigger] after[a]).1 != (#[trigger] after[b]).1 by {
                            assert(after[b] == before[b - 1]);
                            if a > 0 {
                                assert(after[a] == before[a - 1]);
                            }
                        }
                        assert forall|s: int|
                            0 <= s < self.slots@.len() && (#[trigger] self.slots@[s]) is Some implies exists|
                            k: int,
                        |
                            0 <= k < after.len() && (#[trigger] after[k]).1 == s by {
                            if s == slot {
                                assert(after[0].1 == s);
                            } else {
                                assert(slots_mid[s] is Some);
                                assert(slots_before[s] is Some);
                                let b = choose|b: int|
                                    0 <= b < before.len() && (#[trigger] before[b]).1 == s;
                                assert(b < kept.len());
                                assert(after[b + 1] == before[b]);
                            }
                        }
                        assert forall|a: int, b: int| 0 <= a < b < after.len() implies (
                        #[trigger] after[a]).0 != (#[trigger] after[b]).0 by {
                            assert(after[b] == before[b - 1]);
                            if a > 0 {
                                assert(after[a] == before[a - 1]);
                            }
                        }
                    }
                    assert(self@ =~= after_put(view_before, self.capacity(), key@, object));
                    self.lemma_keys();
                }
                None
            },
        }
    }

    /// Removes the entry of `key` and returns its object. The other entries
    /// keep their objects and their order.
    pub fn pop(&mut self, key: &str) -> (removed: Option<Arc<T>>)
        requires
            old(self).wf(),
        ensures
            final(self).wf(),
            final(self).capacity() == old(self).capacity(),
            removed is Some <==> has_key(old(self)@, key@),
            removed is Some ==> removed->0 == lookup(old(self)@, key@),
            removed is Some ==> final(self)@ == old(self)@.remove(key_index(old(self)@, key@)),
            removed is None ==> final(self)@ == old(self)@,
    {
        proof {
            self.lemma_keys();
        }
        let ghost before = lru_entries(self.order);
        let ghost view_before = self@;
        let ghost slots_before = self.slots@;
        match lru_pop(&mut self.order, key) {
            Some(slot) => {
                let ghost i = key_index(before, key@);
                assert(before[i].1 == slot);
                let removed = self.slots[slot].take();
                proof {
                    let after = lru_entries(self.order);
                    assert(after == before.remove(i));
                    assert forall|k: int| 0 <= k < after.len() implies after[k] == before[if k < i {
                        k
                    } else {
                        k + 1
                    }] by {}
                    assert(self.slots_agree()) by {
                        assert forall|s: int|
                            0 <= s < self.slots@.len() && (#[trigger] self.slots@[s]) is Some implies exists|
                            k: int,
                        |
                            0 <= k < after.len() && (#[trigger] after[k]).1 == s by {
                            assert(slots_before[s] is Some);
                            let b = choose|b: int|
                                0 <= b < before.len() && (#[trigger] before[b]).1 == s;
                            let k = if b < i {
                                b
                            } else {
                                b - 1
                            };
                            assert(after[k] == before[b]);
                        }
                    }
                    assert(self@ =~= view_before.remove(i));
                    self.lemma_keys();
                }
                removed
            },
            None => {
                assert(self@ =~= view_before);
                None
            },
        }
    }

    /// Removes every entry. The bound stays.
    pub fn clear(&mut self)
        requires
            old(self).wf(),
        ensures
            final(self).wf(),
            final(self).capacity() == old(self).capacity(),
            final(self)@.len() == 0,
    {
        lru_clear(&mut self.order);
        self.slots.clear();
    }

    /// The keys, most recently used first.
    pub fn keys(&self) -> (keys: Vec<String>)
        requires
            self.wf(),
        ensures
            keys@.len() == self@.len(),
            forall|i: int| 0 <= i < keys@.len() ==> (#[trigger] keys@[i])@ == self@[i].0,
    {
        let mut items = lru_list(&self.order);
        let mut keys: Vec<String> = Vec::new();
        let n: usize = items.len();
        let mut i: usize = 0;
        while i < n
            invariant
                n == items@.len(),
                n == self@.len(),
                i <= n,
                keys@.len() == i,
                forall|k: int| 0 <= k < n ==> (#[trigger] items@[k]).0@ == self@[k].0,
                forall|k: int| 0 <= k < i ==> (#[trigger] keys@[k])@ == self@[k].0,
            decreases n - i,
        {
            keys.push(items[i].0.clone());
            i = i + 1;
        }
        keys
    }

    /// The objects, most recently used first.
    pub fn objects(&self) -> (objects: Vec<Arc<T>>)
        requires
            self.wf(),
        ensures
            objects@.len() == self@.len(),
            forall|i: int| 0 <= i < objects@.len() ==> #[trigger] objects@[i] == self@[i].1,
    {
        let items = lru_list(&self.order);
        let mut objects: Vec<Arc<T>> = Vec::new();
        let n: usize = items.len();
        let mut i: usize = 0;
        while i < n
            invariant
                self.wf(),
                n == items@.len(),
                n == self@.len(),
                i <= n,
                objects@.len() == i,
                forall|k: int| 0 <= k < n ==> (#[trigger] items@[k]).1 == lru_entries(self.order)[k].1,
                forall|k: int| 0 <= k < i ==> #[trigger] objects@[k] == self@[k].1,
            decreases n - i,
        {
            let slot: usize = items[i].1;
            assert(lru_entries(self.order)[i as int].1 == slot);
            match &self.slots[slot] {
                Some(object) => {
                    objects.push(share(object));
                },
                None => {},
            }
            i = i + 1;
        }
        objects
    }

    /// The least recently used entry, the one a full cache drops next.
    pub fn peek_lru(&self) -> (last: Option<(String, Arc<T>)>)
        requires
            self.wf(),
        ensures
            last is Some <==> self@.len() > 0,
            last matches Some(entry) ==> entry.0@ == self@.last().0 && entry.1 == self@.last().1,
    {
        match lru_peek_lru(&self.order) {
            Some(item) => {
                assert(lru_entries(self.order)[lru_entries(self.order).len() - 1].1 == item.1);
                match &self.slots[item.1] {
                    Some(object) => Some((item.0, share(object))),
                    None => None,
                }
            },
            None => None,
        }
    }

    /// A second cache with the same bound and the same entries in the same
    /// order, sharing the objects.
    pub fn duplicate(&self) -> (copy: Self)
        requires
            self.wf(),
        ensures
            copy.wf(),
            copy.capacity() == self.capacity(),
            copy@ == self@,
    {
        let order = lru_clone(&self.order);
        let mut slots: Vec<Option<Arc<T>>> = Vec::new();
        let n: usize = self.slots.len();
        let mut s: usize = 0;
        while s < n
            invariant
                n == self.slots@.len(),
                s <= n,
                slots@.len() == s,
                forall|k: int| 0 <= k < s ==> #[trigger] slots@[k] == self.slots@[k],
            decreases n - s,
        {
            match &self.slots[s] {
                Some(object) => {
                    slots.push(Some(share(object)));
                },
                None => {
                    slots.push(None);
                },
            }
            s = s + 1;
        }
        assert(slots@ =~= self.slots@);
        let copy = ManagerCache { order, slots };
        assert(copy@ =~= self@);
        copy
    }

    /// Counts the references to the object stored under `key`, the cache's
    /// own included, and makes the key the most recently used one. The
    /// number is what it is at the moment of the call: other holders come
    /// and go, so nothing is promised of it.
    pub fn touch_and_count(&mut self, key: &str) -> (count: Option<usize>)
        requires
            old(self).wf(),
        ensures
            final(self).wf(),
            final(self).capacity() == old(self).capacity(),
            count is Some <==> has_key(old(self)@, key@),
            count is Some ==> final(self)@ == promoted(old(self)@, key_index(old(self)@, key@)),
            count is None ==> final(self)@ == old(self)@,
    {
        match self.touch(key) {
            Some(slot) => match &self.slots[slot] {
                Some(object) => Some(holders(object)),
                None => None,
            },
            None => None,
        }
    }

    /// Removes the entry of `key` when the cache holds the only reference to
    /// its object, that is when `count`, the number of references, is one.
    /// An object that anyone else still holds stays in the cache.
    pub fn drop_unless_shared(&mut self, key: &str, count: usize) -> (dropped: bool)
        requires
            old(self).wf(),
        ensures
            final(self).wf(),
            final(self).capacity() == old(self).capacity(),
            dropped == (count == 1 && has_key(old(self)@, key@)),
            dropped ==> final(self)@ == old(self)@.remove(key_index(old(self)@, key@)),
            !dropped ==> final(self)@ == old(self)@,
    {
        if count == 1 {
            self.pop(key).is_some()
        } else {
            false
        }
    }
}

} // verus!
