//! What holds of every cache, whatever sequence of calls made it.
//!
//! The laws speak of the entries of a cache as a sequence, most recently
//! used first, as `ManagerCache::view` gives them, and of the operations on
//! that sequence that the contracts of `get`, `put` and `pop` name.

use crate::cache::lookup;
use crate::recency::{after_put, distinct_keys, has_key, key_index, lemma_key_index, promoted};
use vstd::prelude::*;

verus! {

/// The entries after the keys of `uses` were looked up one after the other.
/// A key that is present moves to the front; an absent one changes nothing.
pub open spec fn after_uses<V>(entries: Seq<(Seq<char>, V)>, uses: Seq<Seq<char>>) -> Seq<
    (Seq<char>, V),
>
    decreases uses.len(),
{
    if uses.len() == 0 {
        entries
    } else {
        let first = if has_key(entries, uses[0]) {
            promoted(entries, key_index(entries, uses[0]))
        } else {
            entries
        };
        after_uses(first, uses.drop_first())
    }
}

/// A lookup moves one entry to the front and touches no other: every key
/// keeps its object, and no key appears, disappears or doubles.
pub proof fn law_use_keeps_entries<V>(entries: Seq<(Seq<char>, V)>, used: Seq<char>, key: Seq<char>)
    requires
        distinct_keys(entries),
        has_key(entries, used),
    ensures
        distinct_keys(promoted(entries, key_index(entries, used))),
        promoted(entries, key_index(entries, used)).len() == entries.len(),
        has_key(promoted(entries, key_index(entries, used)), key) == has_key(entries, key),
        has_key(entries, key) ==> lookup(promoted(entries, key_index(entries, used)), key)
            == lookup(entries, key),
        promoted(entries, key_index(entries, used))[0].0 == used,
{
    let i = key_index(entries, used);
    let after = promoted(entries, i);
    assert(after[0] == entries[i]);
    assert forall|k: int| 0 < k < after.len() implies after[k] == entries[if k <= i {
        k - 1
    } else {
        k
    }] by {}
    assert forall|a: int, b: int| 0 <= a < b < after.len() implies (#[trigger] after[a]).0 != (
    #[trigger] after[b]).0 by {
        let bb = if b <= i {
            b - 1
        } else {
            b
        };
        if a == 0 {
            if bb < i {
                assert(entries[bb].0 != entries[i].0);
            } else {
                assert(entries[i].0 != entries[bb].0);
            }
        } else {
            let aa = if a <= i {
                a - 1
            } else {
                a
            };
            assert(entries[aa].0 != entries[bb].0);
        }
    }
    if has_key(entries, key) {
        let b = key_index(entries, key);
        let k = if b == i {
            0
        } else if b < i {
            b + 1
        } else {
            b
        };
        assert(after[k] == entries[b]);
        lemma_key_index(after, k);
        lemma_key_index(entries, b);
    }
    if has_key(after, key) {
        let k = key_index(after, key);
        let b = if k == 0 {
            i
        } else if k <= i {
            k - 1
        } else {
            k
        };
        assert(entries[b] == after[k]);
    }
}

/// As long as nothing is removed, every lookup of a key finds the same
/// object: after any sequence of lookups, of this key or of others, the key
/// is still present with the object it had at the start.
pub proof fn law_same_key_same_object<V>(
    entries: Seq<(Seq<char>, V)>,
    uses: Seq<Seq<char>>,
    key: Seq<char>,
)
    requires
        distinct_keys(entries),
        has_key(entries, key),
    ensures
        distinct_keys(after_uses(entries, uses)),
        after_uses(entries, uses).len() == entries.len(),
        has_key(after_uses(entries, uses), key),
        lookup(after_uses(entries, uses), key) == lookup(entries, key),
    decreases uses.len(),
{
    if uses.len() > 0 {
        if has_key(entries, uses[0]) {
            law_use_keeps_entries(entries, uses[0], key);
            law_same_key_same_object(
                promoted(entries, key_index(entries, uses[0])),
                uses.drop_first(),
                key,
            );
        } else {
            law_same_key_same_object(entries, uses.drop_first(), key);
        }
    }
}

/// An object that was put under a key is the one found under that key
/// afterwards, and it is the most recently used entry.
pub proof fn law_put_then_found<V>(
    entries: Seq<(Seq<char>, V)>,
    limit: nat,
    key: Seq<char>,
    object: V,
)
    requires
        distinct_keys(entries),
        entries.len() <= limit,
        limit > 0,
    ensures
        has_key(after_put(entries, limit, key, object), key),
        lookup(after_put(entries, limit, key, object), key) == object,
        after_put(entries, limit, key, object)[0] == (key, object),
{
    law_bound_kept(entries, limit, key, object);
    let after = after_put(entries, limit, key, object);
    assert(after[0] == (key, object));
    lemma_key_index(after, 0);
}

/// The bound is never exceeded and no key ever doubles: a put into a cache
/// within its bound leaves a cache within its bound. A put of a new key
/// into a full cache keeps the number of entries.
pub proof fn law_bound_kept<V>(entries: Seq<(Seq<char>, V)>, limit: nat, key: Seq<char>, object: V)
    requires
        distinct_keys(entries),
        entries.len() <= limit,
        limit > 0,
    ensures
        distinct_keys(after_put(entries, limit, key, object)),
        after_put(entries, limit, key, object).len() <= limit,
        has_key(entries, key) ==> after_put(entries, limit, key, object).len() == entries.len(),
        !has_key(entries, key) && entries.len() == limit ==> after_put(
            entries,
            limit,
            key,
            object,
        ).len() == limit,
        !has_key(entries, key) && entries.len() < limit ==> after_put(
            entries,
            limit,
            key,
            object,
        ).len() == entries.len() + 1,
{
    let after = after_put(entries, limit, key, object);
    if has_key(entries, key) {
        let i = key_index(entries, key);
        assert forall|k: int| 0 < k < after.len() implies after[k] == entries[if k <= i {
            k - 1
        } else {
            k
        }] by {}
        assert forall|a: int, b: int| 0 <= a < b < after.len() implies (#[trigger] after[a]).0 != (
        #[trigger] after[b]).0 by {
            let bb = if b <= i {
                b - 1
            } else {
                b
            };
            if a == 0 {
                if bb < i {
                    assert(entries[bb].0 != entries[i].0);
                } else {
                    assert(entries[i].0 != entries[bb].0);
                }
            } else {
                let aa = if a <= i {
                    a - 1
                } else {
                    a
                };
                assert(entries[aa].0 != entries[bb].0);
            }
        }
    } else {
        assert forall|k: int| 0 < k < after.len() implies after[k] == entries[k - 1] by {}
        assert forall|a: int, b: int| 0 <= a < b < after.len() implies (#[trigger] after[a]).0 != (
        #[trigger] after[b]).0 by {
            assert(after[b] == entries[b - 1]);
            if a > 0 {
                assert(after[a] == entries[a - 1]);
                assert(entries[a - 1].0 != entries[b - 1].0);
            }
        }
    }
}

/// When a new key arrives at a full cache, the entry that leaves is the
/// least recently used one, and it is the only one: every other key keeps
/// its entry and its object.
pub proof fn law_oldest_leaves_first<V>(
    entries: Seq<(Seq<char>, V)>,
    limit: nat,
    key: Seq<char>,
    object: V,
    other: Seq<char>,
)
    requires
        distinct_keys(entries),
        entries.len() == limit,
        limit > 0,
        !has_key(entries, key),
        has_key(entries, other),
    ensures
        !has_key(after_put(entries, limit, key, object), entries.last().0),
        other != entries.last().0 ==> has_key(after_put(entries, limit, key, object), other)
            && lookup(after_put(entries, limit, key, object), other) == lookup(entries, other),
{
    law_bound_kept(entries, limit, key, object);
    let after = after_put(entries, limit, key, object);
    let n = entries.len() as int;
    assert forall|k: int| 0 < k < after.len() implies after[k] == entries[k - 1] by {}
    if has_key(after, entries.last().0) {
        let k = key_index(after, entries.last().0);
        if k == 0 {
            assert(entries[n - 1].0 == key);
        } else {
            assert(entries[k - 1].0 != entries[n - 1].0);
        }
    }
    if other != entries.last().0 {
        let b = key_index(entries, other);
        assert(b < n - 1);
        assert(after[b + 1] == entries[b]);
        lemma_key_index(after, b + 1);
    }
}

/// A put never disturbs another key that stays: whatever key is put, every
/// other key that is still present afterwards has the object it had.
pub proof fn law_put_keeps_others<V>(
    entries: Seq<(Seq<char>, V)>,
    limit: nat,
    key: Seq<char>,
    object: V,
    other: Seq<char>,
)
    requires
        distinct_keys(entries),
        entries.len() <= limit,
        limit > 0,
        other != key,
        has_key(after_put(entries, limit, key, object), other),
    ensures
        has_key(entries, other),
        lookup(after_put(entries, limit, key, object), other) == lookup(entries, other),
{
    law_bound_kept(entries, limit, key, object);
    let after = after_put(entries, limit, key, object);
    let k = key_index(after, other);
    assert(k > 0);
    if has_key(entries, key) {
        let i = key_index(entries, key);
        let b = if k <= i {
            k - 1
        } else {
            k
        };
        assert(after[k] == entries[b]);
        lemma_key_index(entries, b);
    } else {
        assert(after[k] == entries[k - 1]);
        lemma_key_index(entries, k - 1);
    }
}

/// A key that is removed is gone: no entry is left under it.
pub proof fn lemma_removed_key_is_gone<V>(entries: Seq<(Seq<char>, V)>, removed: Seq<char>)
    requires
        distinct_keys(entries),
        has_key(entries, removed),
    ensures
        !has_key(entries.remove(key_index(entries, removed)), removed),
{
    let i = key_index(entries, removed);
    let after = entries.remove(i);
    if has_key(after, removed) {
        let k = key_index(after, removed);
        if k < i {
            assert(after[k] == entries[k]);
            assert(entries[k].0 != entries[i].0);
        } else {
            assert(after[k] == entries[k + 1]);
            assert(entries[i].0 != entries[k + 1].0);
        }
    }
}

/// Removing one key never removes or empties the entry of another: every
/// other key is still present, with the object it had.
pub proof fn law_removal_is_local<V>(
    entries: Seq<(Seq<char>, V)>,
    removed: Seq<char>,
    other: Seq<char>,
)
    requires
        distinct_keys(entries),
        has_key(entries, removed),
        other != removed,
    ensures
        distinct_keys(entries.remove(key_index(entries, removed))),
        !has_key(entries.remove(key_index(entries, removed)), removed),
        has_key(entries.remove(key_index(entries, removed)), other) == has_key(entries, other),
        has_key(entries, other) ==> lookup(entries.remove(key_index(entries, removed)), other)
            == lookup(entries, other),
{
    let i = key_index(entries, removed);
    let after = entries.remove(i);
    assert forall|k: int| 0 <= k < after.len() implies after[k] == entries[if k < i {
        k
    } else {
        k + 1
    }] by {}
    assert forall|a: int, b: int| 0 <= a < b < after.len() implies (#[trigger] after[a]).0 != (
    #[trigger] after[b]).0 by {
        let aa = if a < i {
            a
        } else {
            a + 1
        };
        let bb = if b < i {
            b
        } else {
            b + 1
        };
        assert(entries[aa].0 != entries[bb].0);
    }
    if has_key(after, removed) {
        let k = key_index(after, removed);
        let b = if k < i {
            k
        } else {
            k + 1
        };
        if b < i {
            assert(entries[b].0 != entries[i].0);
        } else {
            assert(entries[i].0 != entries[b].0);
        }
    }
    if has_key(entries, other) {
        let b = key_index(entries, other);
        let k = if b < i {
            b
        } else {
            b - 1
        };
        assert(after[k] == entries[b]);
        lemma_key_index(after, k);
    }
    if has_key(after, other) {
        let k = key_index(after, other);
        let b = if k < i {
            k
        } else {
            k + 1
        };
        assert(entries[b] == after[k]);
    }
}

/// Two builders that both missed the same new key and both store their
/// object leave a well-formed cache with one entry for the key: the object
/// stored last. The first object is not in the cache any more, and lives on
/// with whoever holds it.
pub proof fn law_racing_builds<V>(
    entries: Seq<(Seq<char>, V)>,
    limit: nat,
    key: Seq<char>,
    first: V,
    second: V,
)
    requires
        distinct_keys(entries),
        entries.len() <= limit,
        limit > 0,
        !has_key(entries, key),
    ensures
        distinct_keys(after_put(after_put(entries, limit, key, first), limit, key, second)),
        after_put(after_put(entries, limit, key, first), limit, key, second).len() == after_put(
            entries,
            limit,
            key,
            first,
        ).len(),
        after_put(after_put(entries, limit, key, first), limit, key, second).len() <= limit,
        has_key(after_put(after_put(entries, limit, key, first), limit, key, second), key),
        lookup(after_put(after_put(entries, limit, key, first), limit, key, second), key)
            == second,
{
    law_bound_kept(entries, limit, key, first);
    law_put_then_found(entries, limit, key, first);
    let mid = after_put(entries, limit, key, first);
    law_bound_kept(mid, limit, key, second);
    law_put_then_found(mid, limit, key, second);
}

} // verus!
