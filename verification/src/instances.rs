//! The table of instances that threads share.
//!
//! A host hands the same instance to several threads. Each of them holds a
//! handle, and the table maps handles to instances. A fork puts the copy
//! under a new handle and leaves the instance under the old handle as it
//! is: whoever holds the old handle goes on with a coherent instance, and
//! whoever asked for the fork goes on under the new handle.

use crate::keyframes::KeyframeType;
use crate::instance::Settings;
use crate::lifecycle::{forked_stored, Instance};
use std::collections::HashMap;
use vstd::prelude::*;

verus! {

broadcast use vstd::std_specs::hash::group_hash_axioms;

/// The instances of the effect, by handle.
pub struct InstanceTable<T> {
    instances: HashMap<u64, Instance<T>>,
}

impl<T> InstanceTable<T> {
    /// The instances, by handle.
    pub closed spec fn view(&self) -> Map<u64, Instance<T>> {
        self.instances@
    }

    /// Every instance of the table is well formed.
    pub open spec fn wf(&self) -> bool {
        forall|handle: u64| #[trigger] self@.dom().contains(handle) ==> self@[handle].wf()
    }

    /// An empty table.
    pub fn new() -> (table: Self)
        ensures
            table.wf(),
            table@ == Map::<u64, Instance<T>>::empty(),
    {
        InstanceTable { instances: HashMap::new() }
    }

    /// Whether `handle` names an instance.
    pub fn contains(&self, handle: u64) -> (found: bool)
        ensures
            found == self@.dom().contains(handle),
    {
        self.instances.contains_key(&handle)
    }

    /// The instance under `handle`.
    pub fn get(&self, handle: u64) -> (instance: Option<&Instance<T>>)
        ensures
            instance is Some <==> self@.dom().contains(handle),
            instance is Some ==> *instance->0 == self@[handle],
    {
        self.instances.get(&handle)
    }

    /// Puts `instance` under `handle` and returns the instance that was
    /// there.
    pub fn insert(&mut self, handle: u64, instance: Instance<T>) -> (previous: Option<Instance<T>>)
        requires
            old(self).wf(),
            instance.wf(),
        ensures
            final(self).wf(),
            final(self)@ == old(self)@.insert(handle, instance),
            previous is Some <==> old(self)@.dom().contains(handle),
            previous is Some ==> previous->0 == old(self)@[handle],
    {
        let previous = self.instances.insert(handle, instance);
        proof {
            assert forall|h: u64| #[trigger] self@.dom().contains(h) implies self@[h].wf() by {
                if h != handle {
                    assert(old(self)@.dom().contains(h));
                }
            }
        }
        previous
    }

    /// Takes the instance under `handle` out of the table.
    pub fn remove(&mut self, handle: u64) -> (instance: Option<Instance<T>>)
        requires
            old(self).wf(),
        ensures
            final(self).wf(),
            final(self)@ == old(self)@.remove(handle),
            instance is Some <==> old(self)@.dom().contains(handle),
            instance is Some ==> instance->0 == old(self)@[handle] && instance->0.wf(),
    {
        let instance = self.instances.remove(&handle);
        proof {
            assert forall|h: u64| #[trigger] self@.dom().contains(h) implies self@[h].wf() by {
                assert(old(self)@.dom().contains(h));
            }
            if instance is Some {
                assert(old(self)@.dom().contains(handle));
            }
        }
        instance
    }

    /// Empties the table.
    pub fn clear(&mut self)
        ensures
            final(self).wf(),
            final(self)@ == Map::<u64, Instance<T>>::empty(),
    {
        self.instances.clear();
    }

    /// Forks the instance under `current`: puts its fork, with the instance
    /// id that is the decimal text of `fresh`, under the unused handle
    /// `handle`. The instance under `current` and every other instance stay
    /// as they are. Nothing happens, and `false` is returned, when there is
    /// no instance under `current`, when it has no live part, or when
    /// `handle` is in use.
    pub fn fork(&mut self, current: u64, handle: u64, fresh: u64) -> (forked: bool)
        requires
            old(self).wf(),
        ensures
            final(self).wf(),
            forked == (old(self)@.dom().contains(current) && old(self)@[current].gyroflow is Some
                && !old(self)@.dom().contains(handle)),
            !forked ==> final(self)@ == old(self)@,
            forked ==> final(self)@.dom() == old(self)@.dom().insert(handle),
            forked ==> forall|other: u64| #[trigger]
                old(self)@.dom().contains(other) ==> final(self)@[other] == old(self)@[other],
            forked ==> final(self)@[handle].stored@ == forked_stored(
                old(self)@[current].stored@,
                fresh as nat,
            ),
            forked ==> final(self)@[handle].gyroflow is Some
                && final(self)@[handle].gyroflow->0.settings() == (Settings {
                ever_changed: true,
                ..old(self)@[current].gyroflow->0.settings()
            }) && final(self)@[handle].gyroflow->0.managers@
                == old(self)@[current].gyroflow->0.managers@,
            forked ==> forall|tag: KeyframeType| #[trigger]
                final(self)@[handle].gyroflow->0.keyframable_params.cached_keyframes.series(tag)
                    == old(self)@[current].gyroflow->0.keyframable_params.cached_keyframes.series(
                    tag,
                ),
    {
        if self.instances.contains_key(&handle) {
            return false;
        }
        let copy = match self.instances.get(&current) {
            Some(instance) => {
                assert(self@.dom().contains(current));
                if instance.gyroflow.is_some() {
                    Some(instance.fork(fresh))
                } else {
                    None
                }
            },
            None => None,
        };
        match copy {
            Some(instance) => {
                let _ = self.instances.insert(handle, instance);
                assert(final(self)@.dom() =~= old(self)@.dom().insert(handle));
                true
            },
            None => false,
        }
    }
}

} // verus!
