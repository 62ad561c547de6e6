//! Maps and sets keyed by parameters.
//!
//! There are few parameters, so a map holds one slot for each of them. No
//! key can occur twice, and the entries come out in the order of the
//! parameters.

use crate::params::{Params, PARAM_COUNT};
use vstd::prelude::*;

verus! {

/// A map from parameters to values.
pub struct ParamMap<V> {
    slots: Vec<Option<V>>,
}

impl<V> ParamMap<V> {
    /// There is one slot for each parameter.
    pub closed spec fn wf(&self) -> bool {
        self.slots@.len() == PARAM_COUNT
    }

    /// The map: each parameter that has a value, with its value.
    pub closed spec fn view(&self) -> Map<Params, V> {
        Map::new(
            |p: Params| self.slots@[p.spec_index()] is Some,
            |p: Params| self.slots@[p.spec_index()]->0,
        )
    }

    /// The empty map.
    pub fn new() -> (map: Self)
        ensures
            map.wf(),
            map@ == Map::<Params, V>::empty(),
    {
        let mut slots: Vec<Option<V>> = Vec::new();
        let mut i: usize = 0;
        while i < PARAM_COUNT
            invariant
                i <= PARAM_COUNT,
                slots@.len() == i,
                forall|k: int| 0 <= k < i ==> (#[trigger] slots@[k]) is None,
            decreases PARAM_COUNT - i,
        {
            slots.push(None);
            i = i + 1;
        }
        let map = ParamMap { slots };
        assert(map@ =~= Map::<Params, V>::empty());
        map
    }

    /// The value of `param`, if it has one.
    pub fn get(&self, param: Params) -> (value: Option<&V>)
        requires
            self.wf(),
        ensures
            value is Some <==> self@.dom().contains(param),
            value is Some ==> *value->0 == self@[param],
    {
        self.slots[param.index()].as_ref()
    }

    /// Whether `param` has a value.
    pub fn contains(&self, param: Params) -> (found: bool)
        requires
            self.wf(),
        ensures
            found == self@.dom().contains(param),
    {
        self.slots[param.index()].is_some()
    }

    /// Gives `param` the value `value` and returns the value it had.
    pub fn insert(&mut self, param: Params, value: V) -> (previous: Option<V>)
        requires
            old(self).wf(),
        ensures
            final(self).wf(),
            final(self)@ == old(self)@.insert(param, value),
            previous is Some <==> old(self)@.dom().contains(param),
            previous is Some ==> previous->0 == old(self)@[param],
    {
        let i: usize = param.index();
        let ghost before = self.slots@;
        let previous = self.slots[i].take();
        self.slots[i] = Some(value);
        proof {
            assert forall|p: Params| p != param implies #[trigger] self.slots@[p.spec_index()]
                == before[p.spec_index()] by {
                assert(p.spec_index() != i);
            }
            assert(self@ =~= old(self)@.insert(param, value));
        }
        previous
    }

    /// Takes the value of `param` away and returns it.
    pub fn remove(&mut self, param: Params) -> (previous: Option<V>)
        requires
            old(self).wf(),
        ensures
            final(self).wf(),
            final(self)@ == old(self)@.remove(param),
            previous is Some <==> old(self)@.dom().contains(param),
            previous is Some ==> previous->0 == old(self)@[param],
    {
        let i: usize = param.index();
        let ghost before = self.slots@;
        let previous = self.slots[i].take();
        proof {
            assert forall|p: Params| p != param implies #[trigger] self.slots@[p.spec_index()]
                == before[p.spec_index()] by {
                assert(p.spec_index() != i);
            }
            assert(self@ =~= old(self)@.remove(param));
        }
        previous
    }

    /// Takes every value away.
    pub fn clear(&mut self)
        requires
            old(self).wf(),
        ensures
            final(self).wf(),
            final(self)@ == Map::<Params, V>::empty(),
    {
        let mut i: usize = 0;
        while i < PARAM_COUNT
            invariant
                i <= PARAM_COUNT,
                self.slots@.len() == PARAM_COUNT,
                forall|k: int| 0 <= k < i ==> (#[trigger] self.slots@[k]) is None,
            decreases PARAM_COUNT - i,
        {
            self.slots[i] = None;
            i = i + 1;
        }
        assert(self@ =~= Map::<Params, V>::empty());
    }

    /// Whether no parameter has a value.
    pub fn is_empty(&self) -> (empty: bool)
        requires
            self.wf(),
        ensures
            empty == (self@ == Map::<Params, V>::empty()),
    {
        let mut i: usize = 0;
        while i < PARAM_COUNT
            invariant
                i <= PARAM_COUNT,
                self.wf(),
                forall|k: int| 0 <= k < i ==> (#[trigger] self.slots@[k]) is None,
            decreases PARAM_COUNT - i,
        {
            if self.slots[i].is_some() {
                proof {
                    match Params::spec_from_index(i as int) {
                        Some(p) => {
                            assert(self@.dom().contains(p));
                        },
                        None => {},
                    }
                }
                return false;
            }
            i = i + 1;
        }
        assert(self@ =~= Map::<Params, V>::empty());
        true
    }
}

impl<V: Copy> ParamMap<V> {
    /// A copy of the map.
    pub fn duplicate(&self) -> (copy: Self)
        requires
            self.wf(),
        ensures
            copy.wf(),
            copy@ == self@,
    {
        let mut slots: Vec<Option<V>> = Vec::new();
        let mut i: usize = 0;
        while i < PARAM_COUNT
            invariant
                i <= PARAM_COUNT,
                self.wf(),
                slots@.len() == i,
                forall|k: int| 0 <= k < i ==> #[trigger] slots@[k] == self.slots@[k],
            decreases PARAM_COUNT - i,
        {
            match &self.slots[i] {
                Some(v) => {
                    slots.push(Some(*v));
                },
                None => {
                    slots.push(None);
                },
            }
            i = i + 1;
        }
        let copy = ParamMap { slots };
        assert(copy@ =~= self@);
        copy
    }

    /// The entries of the map in the order of the parameters.
    pub fn entries(&self) -> (list: Vec<(Params, V)>)
        requires
            self.wf(),
        ensures
            list@ == entries_of(self@),
    {
        let mut list: Vec<(Params, V)> = Vec::new();
        let mut i: usize = 0;
        while i < PARAM_COUNT
            invariant
                i <= PARAM_COUNT,
                self.wf(),
                list@ == entries_upto(self@, i as int),
            decreases PARAM_COUNT - i,
        {
            match Params::from_index(i) {
                Some(p) => {
                    match &self.slots[i] {
                        Some(v) => {
                            list.push((p, *v));
                        },
                        None => {},
                    }
                },
                None => {},
            }
            i = i + 1;
        }
        list
    }
}

/// The entries of `map` whose parameter comes before position `n`, in the
/// order of the parameters.
pub open spec fn entries_upto<V>(map: Map<Params, V>, n: int) -> Seq<(Params, V)>
    decreases n,
{
    if n <= 0 {
        Seq::<(Params, V)>::empty()
    } else {
        match Params::spec_from_index(n - 1) {
            Some(p) => if map.dom().contains(p) {
                entries_upto(map, n - 1).push((p, map[p]))
            } else {
                entries_upto(map, n - 1)
            },
            None => entries_upto(map, n - 1),
        }
    }
}

/// The entries of `map` in the order of the parameters.
pub open spec fn entries_of<V>(map: Map<Params, V>) -> Seq<(Params, V)> {
    entries_upto(map, PARAM_COUNT as int)
}

/// The map of texts that a map of strings stands for.
pub open spec fn texts(map: Map<Params, String>) -> Map<Params, Seq<char>> {
    Map::new(|p: Params| map.dom().contains(p), |p: Params| map[p]@)
}

/// A copy of a map of strings.
pub fn duplicate_texts(map: &ParamMap<String>) -> (copy: ParamMap<String>)
    requires
        map.wf(),
    ensures
        copy.wf(),
        texts(copy@) == texts(map@),
{
    let mut copy: ParamMap<String> = ParamMap::new();
    let mut i: usize = 0;
    while i < PARAM_COUNT
        invariant
            i <= PARAM_COUNT,
            map.wf(),
            copy.wf(),
            forall|p: Params|
                p.spec_index() < i ==> (#[trigger] copy@.dom().contains(p)) == map@.dom().contains(
                    p,
                ),
            forall|p: Params|
                p.spec_index() < i && map@.dom().contains(p) ==> (#[trigger] copy@[p])@ == map@[p]@,
            forall|p: Params| p.spec_index() >= i ==> !(#[trigger] copy@.dom().contains(p)),
        decreases PARAM_COUNT - i,
    {
        match Params::from_index(i) {
            Some(p) => {
                match map.get(p) {
                    Some(text) => {
                        let _ = copy.insert(p, text.clone());
                    },
                    None => {},
                }
                assert forall|q: Params| q.spec_index() < i + 1 implies (
                #[trigger] copy@.dom().contains(q)) == map@.dom().contains(q) by {
                    if q.spec_index() == i {
                        assert(q == p);
                    }
                }
            },
            None => {},
        }
        i = i + 1;
    }
    assert(texts(copy@) =~= texts(map@));
    copy
}

/// A set of parameters.
pub struct ParamSet {
    members: ParamMap<bool>,
}

impl ParamSet {
    /// The set is well formed.
    pub closed spec fn wf(&self) -> bool {
        self.members.wf()
    }

    /// The parameters in the set.
    pub closed spec fn view(&self) -> Set<Params> {
        self.members@.dom()
    }

    /// The empty set.
    pub fn new() -> (set: Self)
        ensures
            set.wf(),
            set@ == Set::<Params>::empty(),
    {
        let set = ParamSet { members: ParamMap::new() };
        assert(set@ =~= Set::<Params>::empty());
        set
    }

    /// Whether `param` is in the set.
    pub fn contains(&self, param: Params) -> (found: bool)
        requires
            self.wf(),
        ensures
            found == self@.contains(param),
    {
        self.members.contains(param)
    }

    /// Puts `param` into the set.
    pub fn insert(&mut self, param: Params)
        requires
            old(self).wf(),
        ensures
            final(self).wf(),
            final(self)@ == old(self)@.insert(param),
    {
        let _ = self.members.insert(param, true);
        assert(self@ =~= old(self)@.insert(param));
    }

    /// Empties the set.
    pub fn clear(&mut self)
        requires
            old(self).wf(),
        ensures
            final(self).wf(),
            final(self)@ == Set::<Params>::empty(),
    {
        self.members.clear();
        assert(self@ =~= Set::<Params>::empty());
    }

    /// A copy of the set.
    pub fn duplicate(&self) -> (copy: Self)
        requires
            self.wf(),
        ensures
            copy.wf(),
            copy@ == self@,
    {
        ParamSet { members: self.members.duplicate() }
    }
}

} // verus!
