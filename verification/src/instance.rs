//! One plugin instance: its settings, its keyframe state, and the engine
//! objects it holds.
//!
//! An instance keeps a small cache of its own beside the cache that all
//! instances share. Its own cache records which shared entries the instance
//! is responsible for: when the instance lets go of them, each shared entry
//! that nobody else holds any more leaves the shared cache too.

use crate::cache::{lookup, ManagerCache};
use crate::fixed::Fixed;
use crate::port::GyroflowPluginParams;
use crate::params::Params;
use crate::recency::{after_put, distinct_keys, has_key, key_index, promoted};
use crate::cache_laws::{
    law_removal_is_local, law_use_keeps_entries, lemma_removed_key_is_gone,
};
use crate::status::{loaded_state_writes, status_writes};
use crate::port::send_all;
use crate::table::KeyframableParams;
use crate::port::{PluginError, PluginResult};
use crate::text::{cache_key, cache_key_text, decimal, decimal_text, ends_with, is_suffix, random_u64};
use vstd::string::StringExecFns;
use std::sync::Arc;
use vstd::prelude::*;

verus! {

/// How many engine objects all instances share at most.
pub const SHARED_CAPACITY: usize = 8;

/// How many engine objects one instance holds at most.
pub const LOCAL_CAPACITY: usize = 20;

/// What all instances of the plugin share.
pub struct GyroflowPluginBase<T> {
    /// The engine objects, by cache key. A clip is often cut into pieces
    /// that all carry the effect, and the pieces share one object.
    pub manager_cache: ManagerCache<T>,
    /// Whether the graphics contexts were set up.
    pub context_initialized: bool,
}

impl<T> GyroflowPluginBase<T> {
    /// The shared state of a plugin that was just loaded.
    pub fn new() -> (base: Self)
        ensures
            base.manager_cache.wf(),
            base.manager_cache@.len() == 0,
            base.manager_cache.capacity() == SHARED_CAPACITY,
            !base.context_initialized,
    {
        GyroflowPluginBase {
            manager_cache: ManagerCache::new(SHARED_CAPACITY),
            context_initialized: false,
        }
    }

    /// The rectangle of the ratio `org_ratio` in the middle of a frame of
    /// `width` by `height`, as left, top, width and height.
    pub fn get_center_rect(width: usize, height: usize, org_ratio: Fixed) -> (rect: (
        usize,
        usize,
        usize,
        usize,
    ))
        ensures
            (rect.0 as int, rect.1 as int, rect.2 as int, rect.3 as int)
                == crate::geometry::center_rect(width as int, height as int, org_ratio),
            rect.0 + rect.2 <= width,
            rect.1 + rect.3 <= height,
    {
        crate::geometry::get_center_rect(width, height, org_ratio)
    }

    /// The definitions of all parameters, in the order in which a host
    /// shows them, the hidden instance id first. Every one of them is sound,
    /// and no two of them have the same id.
    pub fn get_param_definitions() -> (definitions: Vec<crate::definitions::ParameterType>)
        ensures
            definitions@.len() == crate::definitions::DEFINITION_COUNT,
            crate::definitions::ids_of(definitions@) == crate::definitions::top_level_ids(),
            forall|i: int|
                0 <= i < 5 ==> (#[trigger] definitions@[i]) is HiddenString,
            forall|i: int|
                0 <= i < definitions@.len() ==> ((#[trigger] definitions@[i]) is Group <==> 5 <= i < 9
                    || i == 12),
            forall|i: int|
                0 <= i < definitions@.len() && (#[trigger] definitions@[i]) is Group
                    ==> crate::definitions::ids_of(definitions@[i]->parameters@)
                    == crate::definitions::control_ids(definitions@[i].spec_id()),
            forall|i: int|
                0 <= i < definitions@.len() ==> (#[trigger] definitions@[i]).definition_ok(),
            forall|i: int, j: int|
                0 <= i < j < definitions@.len() ==> (#[trigger] definitions@[i]).spec_id() != (
                #[trigger] definitions@[j]).spec_id(),
    {
        crate::definitions::get_param_definitions()
    }

    /// Notes that the graphics contexts are set up, and tells whether the
    /// caller has to set them up now: true on the first call only.
    pub fn initialize_gpu_context(&mut self) -> (first: bool)
        ensures
            first == !old(self).context_initialized,
            final(self).context_initialized,
            final(self).manager_cache == old(self).manager_cache,
    {
        if !self.context_initialized {
            self.context_initialized = true;
            true
        } else {
            false
        }
    }
}

/// What has to be built when a key is not cached.
pub struct BuildRequest {
    /// The key under which the object is to be stored.
    pub key: String,
    /// The path of the project or media file.
    pub path: String,
    /// Whether the lens stretch is to be disabled.
    pub disable_stretch: bool,
    /// Whether the path names a project file rather than a media file.
    pub is_project: bool,
}

/// The answer to a request for the engine object of an instance.
pub enum Acquired<T> {
    /// The key was cached: the shared object.
    Cached(Arc<T>),
    /// The key is not cached: what to build and store.
    Missing(BuildRequest),
}

/// One plugin instance.
pub struct GyroflowPluginBaseInstance<T> {
    pub keyframable_params: KeyframableParams,
    pub managers: ManagerCache<T>,
    pub reload_values_from_project: bool,
    pub original_video_size: (usize, usize),
    pub original_output_size: (usize, usize),
    pub timeline_size: (usize, usize),
    pub num_frames: usize,
    pub fps: Fixed,
    pub has_motion: bool,
    pub ever_changed: bool,
    pub cache_keyframes_every_frame: bool,
    pub framebuffer_inverted: bool,
    pub anamorphic_adjust_size: bool,
    pub always_set_input_rotation: bool,
    pub opencl_disabled: bool,
}

/// The plain settings of an instance: everything but its keyframe state and
/// its engine objects.
pub struct Settings {
    pub reload_values_from_project: bool,
    pub original_video_size: (usize, usize),
    pub original_output_size: (usize, usize),
    pub timeline_size: (usize, usize),
    pub num_frames: usize,
    pub fps: Fixed,
    pub has_motion: bool,
    pub ever_changed: bool,
    pub cache_keyframes_every_frame: bool,
    pub framebuffer_inverted: bool,
    pub anamorphic_adjust_size: bool,
    pub always_set_input_rotation: bool,
    pub opencl_disabled: bool,
}

impl Settings {
    /// The settings of a fresh instance.
    pub open spec fn fresh() -> Settings {
        Settings {
            reload_values_from_project: true,
            original_video_size: (0, 0),
            original_output_size: (0, 0),
            timeline_size: (0, 0),
            num_frames: 0,
            fps: Fixed { micros: 0 },
            has_motion: false,
            ever_changed: false,
            cache_keyframes_every_frame: true,
            framebuffer_inverted: false,
            anamorphic_adjust_size: true,
            always_set_input_rotation: false,
            opencl_disabled: false,
        }
    }
}

/// The entries after the instance let go of the keys of `keys`, one after
/// the other. A key that has an entry is touched, which makes it the most
/// recently used one; the entry then leaves if `sole` says that the cache
/// held the only reference to its object.
pub open spec fn after_release<V>(
    entries: Seq<(Seq<char>, V)>,
    keys: Seq<Seq<char>>,
    sole: Seq<bool>,
) -> Seq<(Seq<char>, V)>
    decreases keys.len(),
{
    if keys.len() == 0 || sole.len() != keys.len() {
        entries
    } else {
        let earlier = after_release(entries, keys.drop_last(), sole.drop_last());
        if !has_key(earlier, keys.last()) {
            earlier
        } else if sole.last() {
            earlier.remove(key_index(earlier, keys.last()))
        } else {
            promoted(earlier, key_index(earlier, keys.last()))
        }
    }
}

/// The keys of `entries`, in order.
pub open spec fn keys_of<V>(entries: Seq<(Seq<char>, V)>) -> Seq<Seq<char>> {
    Seq::new(entries.len(), |i: int| entries[i].0)
}

impl<T> GyroflowPluginBaseInstance<T> {
    /// The instance is well formed: its cache and its keyframe table are.
    pub open spec fn wf(&self) -> bool {
        &&& self.managers.wf()
        &&& self.keyframable_params.cached_keyframes.wf()
    }

    /// The plain settings of the instance.
    pub open spec fn settings(&self) -> Settings {
        Settings {
            reload_values_from_project: self.reload_values_from_project,
            original_video_size: self.original_video_size,
            original_output_size: self.original_output_size,
            timeline_size: self.timeline_size,
            num_frames: self.num_frames,
            fps: self.fps,
            has_motion: self.has_motion,
            ever_changed: self.ever_changed,
            cache_keyframes_every_frame: self.cache_keyframes_every_frame,
            framebuffer_inverted: self.framebuffer_inverted,
            anamorphic_adjust_size: self.anamorphic_adjust_size,
            always_set_input_rotation: self.always_set_input_rotation,
            opencl_disabled: self.opencl_disabled,
        }
    }

    /// A fresh instance: no engine objects, no keyframes, and the settings
    /// of `Settings::fresh`.
    pub fn new() -> (instance: Self)
        ensures
            instance.wf(),
            instance.managers@.len() == 0,
            instance.managers.capacity() == LOCAL_CAPACITY,
            instance.settings() == Settings::fresh(),
            !instance.keyframable_params.use_gyroflows_keyframes,
            forall|tag: crate::keyframes::KeyframeType| #[trigger]
                instance.keyframable_params.cached_keyframes.series(tag) == Map::<
                    int,
                    Fixed,
                >::empty(),
    {
        GyroflowPluginBaseInstance {
            keyframable_params: KeyframableParams::new(),
            managers: ManagerCache::new(LOCAL_CAPACITY),
            reload_values_from_project: true,
            original_video_size: (0, 0),
            original_output_size: (0, 0),
            timeline_size: (0, 0),
            num_frames: 0,
            fps: Fixed { micros: 0 },
            has_motion: false,
            ever_changed: false,
            cache_keyframes_every_frame: true,
            framebuffer_inverted: false,
            anamorphic_adjust_size: true,
            always_set_input_rotation: false,
            opencl_disabled: false,
        }
    }

    /// A second instance with the same settings and keyframes, holding the
    /// same engine objects.
    pub fn duplicate(&self) -> (copy: Self)
        requires
            self.wf(),
        ensures
            copy.wf(),
            copy.settings() == self.settings(),
            copy.managers@ == self.managers@,
            copy.managers.capacity() == self.managers.capacity(),
            copy.keyframable_params.use_gyroflows_keyframes
                == self.keyframable_params.use_gyroflows_keyframes,
            forall|tag: crate::keyframes::KeyframeType| #[trigger]
                copy.keyframable_params.cached_keyframes.series(tag)
                    == self.keyframable_params.cached_keyframes.series(tag),
    {
        GyroflowPluginBaseInstance {
            keyframable_params: self.keyframable_params.duplicate(),
            managers: self.managers.duplicate(),
            reload_values_from_project: self.reload_values_from_project,
            original_video_size: self.original_video_size,
            original_output_size: self.original_output_size,
            timeline_size: self.timeline_size,
            num_frames: self.num_frames,
            fps: self.fps,
            has_motion: self.has_motion,
            ever_changed: self.ever_changed,
            cache_keyframes_every_frame: self.cache_keyframes_every_frame,
            framebuffer_inverted: self.framebuffer_inverted,
            anamorphic_adjust_size: self.anamorphic_adjust_size,
            always_set_input_rotation: self.always_set_input_rotation,
            opencl_disabled: self.opencl_disabled,
        }
    }

    /// Gives an instance without an id the id `fresh`, in decimal. The
    /// instance is not marked as changed by that: an id that was just made
    /// stands for an instance that nobody has edited yet. An instance that
    /// has an id keeps it.
    pub fn assign_instance_id(&mut self, instance_id: &mut String, fresh: u64)
        ensures
            final(self).managers == old(self).managers,
            final(self).keyframable_params == old(self).keyframable_params,
            final(self).settings() == old(self).settings(),
            old(instance_id)@.len() == 0 ==> final(instance_id)@ == decimal_text(fresh as nat),
            old(instance_id)@.len() != 0 ==> final(instance_id)@ == old(instance_id)@,
    {
        if instance_id.as_str().is_empty() {
            *instance_id = decimal(fresh);
        }
    }

    /// Gives an instance without an id a fresh one, drawn at random. The
    /// instance is not marked as changed by that. An instance that has an id
    /// keeps it.
    pub fn initialize_instance_id(&mut self, instance_id: &mut String)
        ensures
            final(self).managers == old(self).managers,
            final(self).keyframable_params == old(self).keyframable_params,
            final(self).settings() == old(self).settings(),
            old(instance_id)@.len() == 0 ==> exists|n: u64|
                final(instance_id)@ == decimal_text(n as nat),
            old(instance_id)@.len() != 0 ==> final(instance_id)@ == old(instance_id)@,
    {
        if instance_id.as_str().is_empty() {
            let fresh = random_u64();
            self.assign_instance_id(instance_id, fresh);
        }
    }

    /// Notes that OpenCL is switched off, and tells whether the caller has
    /// to switch it off now: true on the first call only.
    pub fn disable_opencl(&mut self) -> (first: bool)
        ensures
            first == !old(self).opencl_disabled,
            final(self).managers == old(self).managers,
            final(self).keyframable_params == old(self).keyframable_params,
            final(self).settings() == (Settings { opencl_disabled: true, ..old(self).settings() }),
    {
        if !self.opencl_disabled {
            self.opencl_disabled = true;
            true
        } else {
            false
        }
    }

    /// Shows in the host whether a project is loaded: sends the writes of
    /// `loaded_state_writes`, going on past any that the host refuses.
    pub fn update_loaded_state<P: GyroflowPluginParams>(&mut self, params: &mut P, loaded: bool)
        ensures
            *final(self) == *old(self),
    {
        let writes = loaded_state_writes(loaded);
        let _ = send_all(params, &writes);
    }

    /// Sets the status line of the host: reads the text it shows and sends
    /// the writes of `status_writes`, going on past any that the host
    /// refuses. A status that cannot be read counts as empty.
    pub fn set_status<P: GyroflowPluginParams>(
        &mut self,
        params: &mut P,
        status: &str,
        hint: &str,
        ok: bool,
    )
        ensures
            *final(self) == *old(self),
    {
        let current: String = match params.get_string(Params::Status) {
            Ok(text) => text,
            Err(_) => String::new(),
        };
        let writes = status_writes(current.as_str(), status, hint, ok);
        let _ = send_all(params, &writes);
    }

    /// Lets go of every engine object of the instance. Each of them that the
    /// shared cache then holds alone leaves the shared cache too; one that
    /// anyone else still holds stays there. Entries of keys that the
    /// instance did not hold are not touched, and no entry changes its
    /// object.
    pub fn clear_stab(&mut self, manager_cache: &mut ManagerCache<T>)
        requires
            old(self).wf(),
            old(manager_cache).wf(),
        ensures
            final(self).wf(),
            final(self).managers@.len() == 0,
            final(self).managers.capacity() == old(self).managers.capacity(),
            final(self).settings() == old(self).settings(),
            final(self).keyframable_params == old(self).keyframable_params,
            final(manager_cache).wf(),
            final(manager_cache).capacity() == old(manager_cache).capacity(),
            exists|sole: Seq<bool>|
                sole.len() == old(self).managers@.len() && final(manager_cache)@ == after_release(
                    old(manager_cache)@,
                    keys_of(old(self).managers@),
                    sole,
                ),
            forall|key: Seq<char>| #[trigger]
                has_key(final(manager_cache)@, key) ==> has_key(old(manager_cache)@, key) && lookup(
                    final(manager_cache)@,
                    key,
                ) == lookup(old(manager_cache)@, key),
            forall|key: Seq<char>| #[trigger]
                has_key(old(manager_cache)@, key) && !has_key(old(self).managers@, key) ==> has_key(
                    final(manager_cache)@,
                    key,
                ),
    {
        let local_keys = self.managers.keys();
        let ghost held = keys_of(self.managers@);
        let ghost start = manager_cache@;
        self.managers.clear();
        let ghost mut sole: Seq<bool> = Seq::empty();
        let n: usize = local_keys.len();
        let mut i: usize = 0;
        while i < n
            invariant
                n == local_keys@.len(),
                n == held.len(),
                i <= n,
                forall|k: int| 0 <= k < n ==> (#[trigger] local_keys@[k])@ == held[k],
                manager_cache.wf(),
                manager_cache.capacity() == old(manager_cache).capacity(),
                start == old(manager_cache)@,
                distinct_keys(start),
                sole.len() == i,
                manager_cache@ == after_release(start, held.take(i as int), sole),
                forall|key: Seq<char>| #[trigger]
                    has_key(manager_cache@, key) ==> has_key(start, key) && lookup(
                        manager_cache@,
                        key,
                    ) == lookup(start, key),
                forall|key: Seq<char>| #[trigger]
                    has_key(start, key) && !(exists|k: int| 0 <= k < i && held[k] == key)
                        ==> has_key(manager_cache@, key),
            decreases n - i,
        {
            let ghost before = manager_cache@;
            let ghost key = held[i as int];
            let count = manager_cache.touch_and_count(local_keys[i].as_str());
            let ghost touched = manager_cache@;
            let dropped = match count {
                Some(c) => manager_cache.drop_unless_shared(local_keys[i].as_str(), c),
                None => false,
            };
            proof {
                let extended = held.take(i + 1);
                assert(extended.drop_last() =~= held.take(i as int));
                assert(extended.last() == key);
                assert(sole.push(dropped).drop_last() =~= sole);
                if has_key(before, key) {
                    let at = key_index(before, key);
                    assert forall|other: Seq<char>| #[trigger]
                        has_key(touched, other) == has_key(before, other) && (has_key(
                            before,
                            other,
                        ) ==> lookup(touched, other) == lookup(before, other)) by {
                        law_use_keeps_entries(before, key, other);
                    }
                    law_use_keeps_entries(before, key, key);
                    assert(touched[0].0 == key);
                    crate::recency::lemma_key_index(touched, 0);
                    if dropped {
                        assert(manager_cache@ == touched.remove(0));
                        assert forall|k: int| 0 <= k < manager_cache@.len() implies manager_cache@[k]
                            == before[if k < at {
                            k
                        } else {
                            k + 1
                        }] by {
                            assert(manager_cache@[k] == touched[k + 1]);
                        }
                        assert(manager_cache@ =~= before.remove(at));
                        assert forall|other: Seq<char>| #[trigger]
                            has_key(manager_cache@, other) implies has_key(before, other) && lookup(
                            manager_cache@,
                            other,
                        ) == lookup(before, other) by {
                            if other == key {
                                law_removal_is_local(touched, key, key);
                            } else {
                                law_removal_is_local(touched, key, other);
                            }
                        }
                        assert forall|other: Seq<char>|
                            has_key(before, other) && other != key implies #[trigger] has_key(
                            manager_cache@,
                            other,
                        ) by {
                            law_removal_is_local(touched, key, other);
                        }
                    }
                }
                sole = sole.push(dropped);
                assert forall|other: Seq<char>| #[trigger]
                    has_key(start, other) && !(exists|k: int| 0 <= k < i + 1 && held[k] == other)
                    implies has_key(manager_cache@, other) by {
                    assert(!(exists|k: int| 0 <= k < i && held[k] == other));
                    assert(has_key(before, other));
                    assert(held[i as int] != other);
                }
            }
            i = i + 1;
        }
        proof {
            assert(held.take(n as int) =~= held);
            assert forall|key: Seq<char>| #[trigger]
                has_key(start, key) && !has_key(old(self).managers@, key) implies has_key(
                manager_cache@,
                key,
            ) by {
                if exists|k: int| 0 <= k < n && held[k] == key {
                    let k = choose|k: int| 0 <= k < n && held[k] == key;
                    assert(old(self).managers@[k].0 == key);
                }
            }
        }
    }

    /// Lets go of every engine object of the instance and takes the entries
    /// of their keys out of the shared cache, whoever else holds the
    /// objects, so that they are built anew when they are next asked for.
    /// The shared cache keeps exactly the entries of the keys that the
    /// instance did not hold, each with its object.
    pub fn withdraw_objects(&mut self, manager_cache: &mut ManagerCache<T>)
        requires
            old(self).wf(),
            old(manager_cache).wf(),
        ensures
            final(self).wf(),
            final(self).managers@.len() == 0,
            final(self).managers.capacity() == old(self).managers.capacity(),
            final(self).settings() == old(self).settings(),
            final(self).keyframable_params == old(self).keyframable_params,
            final(manager_cache).wf(),
            final(manager_cache).capacity() == old(manager_cache).capacity(),
            forall|key: Seq<char>| #[trigger]
                has_key(final(manager_cache)@, key) <==> has_key(old(manager_cache)@, key) && !has_key(
                    old(self).managers@,
                    key,
                ),
            forall|key: Seq<char>| #[trigger]
                has_key(final(manager_cache)@, key) ==> lookup(final(manager_cache)@, key) == lookup(
                    old(manager_cache)@,
                    key,
                ),
    {
        let local_keys = self.managers.keys();
        let ghost held = keys_of(self.managers@);
        let ghost start = manager_cache@;
        self.managers.clear();
        let n: usize = local_keys.len();
        let mut i: usize = 0;
        while i < n
            invariant
                n == local_keys@.len(),
                n == held.len(),
                i <= n,
                forall|k: int| 0 <= k < n ==> (#[trigger] local_keys@[k])@ == held[k],
                manager_cache.wf(),
                manager_cache.capacity() == old(manager_cache).capacity(),
                forall|key: Seq<char>| #[trigger]
                    has_key(manager_cache@, key) <==> has_key(start, key) && !(exists|k: int|
                        0 <= k < i && held[k] == key),
                forall|key: Seq<char>| #[trigger]
                    has_key(manager_cache@, key) ==> lookup(manager_cache@, key) == lookup(start, key),
            decreases n - i,
        {
            let ghost before = manager_cache@;
            let ghost key = held[i as int];
            let _ = manager_cache.pop(local_keys[i].as_str());
            proof {
                assert forall|other: Seq<char>| #[trigger]
                    has_key(manager_cache@, other) <==> has_key(start, other) && !(exists|k: int|
                        0 <= k < i + 1 && held[k] == other) by {
                    if has_key(before, key) {
                        if other == key {
                            lemma_removed_key_is_gone(before, key);
                        } else {
                            law_removal_is_local(before, key, other);
                        }
                    }
                    if exists|k: int| 0 <= k < i + 1 && held[k] == other {
                        let k = choose|k: int| 0 <= k < i + 1 && held[k] == other;
                        if k < i {
                            assert(exists|k: int| 0 <= k < i && held[k] == other);
                        }
                    }
                }
                assert forall|other: Seq<char>| #[trigger]
                    has_key(manager_cache@, other) implies lookup(manager_cache@, other) == lookup(
                    start,
                    other,
                ) by {
                    if has_key(before, key) && other != key {
                        law_removal_is_local(before, key, other);
                    }
                }
            }
            i = i + 1;
        }
        proof {
            assert forall|key: Seq<char>| #[trigger]
                has_key(manager_cache@, key) <==> has_key(start, key) && !has_key(
                    old(self).managers@,
                    key,
                ) by {
                if exists|k: int| 0 <= k < n && held[k] == key {
                    let k = choose|k: int| 0 <= k < n && held[k] == key;
                    assert(old(self).managers@[k].0 == key);
                }
                if has_key(old(self).managers@, key) {
                    let k = key_index(old(self).managers@, key);
                    assert(held[k] == key);
                }
            }
        }
    }

    /// Finds the engine object of the project at `path`.
    ///
    /// Without a path there is nothing to find: `EmptyPath`, and nothing
    /// changes. Else the timeline size is taken from `out_size` if it was
    /// not known, and the key is looked up in the shared cache. A key that
    /// is found becomes the most recently used one there, its object is
    /// handed out, and the instance takes it into its own cache unless it
    /// holds the key already. A key that is not found changes nothing, and
    /// the answer says what to build.
    pub fn resolve(
        &mut self,
        manager_cache: &mut ManagerCache<T>,
        path: &str,
        disable_stretch: bool,
        instance_id: &str,
        out_size: (usize, usize),
    ) -> (found: PluginResult<Acquired<T>>)
        requires
            old(self).wf(),
            old(manager_cache).wf(),
        ensures
            final(self).wf(),
            final(manager_cache).wf(),
            final(self).managers.capacity() == old(self).managers.capacity(),
            final(manager_cache).capacity() == old(manager_cache).capacity(),
            final(self).keyframable_params == old(self).keyframable_params,
            path@.len() == 0 ==> (found matches Err(PluginError::EmptyPath)) && final(self).settings()
                == old(self).settings() && final(self).managers@ == old(self).managers@
                && final(manager_cache)@ == old(manager_cache)@,
            path@.len() != 0 ==> found is Ok && final(self).settings() == (Settings {
                timeline_size: if old(self).timeline_size == (0usize, 0usize) {
                    out_size
                } else {
                    old(self).timeline_size
                },
                ..old(self).settings()
            }),
            path@.len() != 0 && has_key(
                old(manager_cache)@,
                cache_key_text(path@, disable_stretch, instance_id@),
            ) ==> {
                let key = cache_key_text(path@, disable_stretch, instance_id@);
                &&& (found matches Ok(Acquired::Cached(_)))
                &&& found->Ok_0->Cached_0 == lookup(old(manager_cache)@, key)
                &&& final(manager_cache)@ == promoted(
                    old(manager_cache)@,
                    key_index(old(manager_cache)@, key),
                )
                &&& final(self).managers@ == if has_key(old(self).managers@, key) {
                    old(self).managers@
                } else {
                    after_put(
                        old(self).managers@,
                        old(self).managers.capacity(),
                        key,
                        lookup(old(manager_cache)@, key),
                    )
                }
            },
            path@.len() != 0 && !has_key(
                old(manager_cache)@,
                cache_key_text(path@, disable_stretch, instance_id@),
            ) ==> {
                &&& (found matches Ok(Acquired::Missing(_)))
                &&& found->Ok_0->Missing_0.key@ == cache_key_text(path@, disable_stretch, instance_id@)
                &&& found->Ok_0->Missing_0.path@ == path@
                &&& found->Ok_0->Missing_0.disable_stretch == disable_stretch
                &&& found->Ok_0->Missing_0.is_project == is_suffix(path@, ".gyroflow"@)
                &&& final(manager_cache)@ == old(manager_cache)@
                &&& final(self).managers@ == old(self).managers@
            },
    {
        if path.is_empty() {
            return Err(PluginError::EmptyPath);
        }
        if self.timeline_size.0 == 0 && self.timeline_size.1 == 0 {
            self.timeline_size = out_size;
        }
        let key = cache_key(path, disable_stretch, instance_id);
        match manager_cache.get(key.as_str()) {
            Some(object) => {
                if !self.managers.contains(key.as_str()) {
                    let shared = crate::cache::share(&object);
                    let _ = self.managers.put(key, shared);
                }
                Ok(Acquired::Cached(object))
            },
            None => {
                let is_project = ends_with(path, ".gyroflow");
                Ok(
                    Acquired::Missing(
                        BuildRequest { key, path: String::from_str(path), disable_stretch, is_project },
                    ),
                )
            },
        }
    }

    /// Finds the engine object of the project that the host's parameters
    /// name: reads whether stretching is disabled, the instance id and the
    /// project path, and answers as `resolve` does for them. A read that the
    /// host refuses ends the call with the host's error. Without a path the
    /// host is shown that no project is loaded.
    ///
    /// Whatever the host answers: a call that fails changes nothing; one
    /// that succeeds notes `out_size` as the size of the timeline if none
    /// was noted yet, and touches nothing else of the settings. An object
    /// that is handed out is the one that the shared cache held under the
    /// key of some path, stretch switch and id, now its most recently used
    /// entry, and the instance holds it too. A request to build names a path
    /// that is not empty and the key of that path, its stretch switch and
    /// some id, which the shared cache does not hold; both caches are then
    /// as they were.
    pub fn stab_manager<P: GyroflowPluginParams>(
        &mut self,
        params: &mut P,
        manager_cache: &mut ManagerCache<T>,
        out_size: (usize, usize),
    ) -> (found: PluginResult<Acquired<T>>)
        requires
            old(self).wf(),
            old(manager_cache).wf(),
        ensures
            final(self).wf(),
            final(manager_cache).wf(),
            final(self).managers.capacity() == old(self).managers.capacity(),
            final(manager_cache).capacity() == old(manager_cache).capacity(),
            final(self).keyframable_params == old(self).keyframable_params,
            found is Err ==> final(self).settings() == old(self).settings() && final(self).managers@
                == old(self).managers@ && final(manager_cache)@ == old(manager_cache)@,
            found is Ok ==> final(self).settings() == (Settings {
                timeline_size: if old(self).timeline_size == (0usize, 0usize) {
                    out_size
                } else {
                    old(self).timeline_size
                },
                ..old(self).settings()
            }),
            found matches Ok(Acquired::Cached(object)) ==> exists|
                path: Seq<char>,
                disable_stretch: bool,
                instance_id: Seq<char>,
            |
                {
                    let key = #[trigger] cache_key_text(path, disable_stretch, instance_id);
                    &&& path.len() != 0
                    &&& has_key(old(manager_cache)@, key)
                    &&& object == lookup(old(manager_cache)@, key)
                    &&& final(manager_cache)@ == promoted(
                        old(manager_cache)@,
                        key_index(old(manager_cache)@, key),
                    )
                    &&& final(self).managers@ == if has_key(old(self).managers@, key) {
                        old(self).managers@
                    } else {
                        after_put(old(self).managers@, old(self).managers.capacity(), key, object)
                    }
                },
            found matches Ok(Acquired::Missing(request)) ==> {
                &&& request.path@.len() != 0
                &&& exists|instance_id: Seq<char>|
                    request.key@ == #[trigger] cache_key_text(
                        request.path@,
                        request.disable_stretch,
                        instance_id,
                    )
                &&& request.is_project == is_suffix(request.path@, ".gyroflow"@)
                &&& !has_key(old(manager_cache)@, request.key@)
                &&& final(manager_cache)@ == old(manager_cache)@
                &&& final(self).managers@ == old(self).managers@
            },
    {
        let disable_stretch = match params.get_bool(Params::DisableStretch) {
            Ok(value) => value,
            Err(e) => {
                return Err(e);
            },
        };
        let instance_id = match params.get_string(Params::InstanceId) {
            Ok(value) => value,
            Err(e) => {
                return Err(e);
            },
        };
        let path = match params.get_string(Params::ProjectPath) {
            Ok(value) => value,
            Err(e) => {
                return Err(e);
            },
        };
        if path.as_str().is_empty() {
            self.update_loaded_state(params, false);
            return Err(PluginError::EmptyPath);
        }
        let found = self.resolve(
            manager_cache,
            path.as_str(),
            disable_stretch,
            instance_id.as_str(),
            out_size,
        );
        proof {
            let key = cache_key_text(path@, disable_stretch, instance_id@);
            if has_key(old(manager_cache)@, key) {
                assert(found matches Ok(Acquired::Cached(_)));
            } else {
                assert(found matches Ok(Acquired::Missing(_)));
                assert(found->Ok_0->Missing_0.key@ == cache_key_text(
                    found->Ok_0->Missing_0.path@,
                    found->Ok_0->Missing_0.disable_stretch,
                    instance_id@,
                ));
            }
        }
        found
    }

    /// Stores an object that was built for `key`: shares it, and puts it
    /// under the key into the shared cache and into the instance's own, as
    /// the most recently used entry of both. Returns the shared object.
    pub fn store_built(&mut self, manager_cache: &mut ManagerCache<T>, key: &str, object: T) -> (shared:
        Arc<T>)
        requires
            old(self).wf(),
            old(manager_cache).wf(),
        ensures
            final(self).wf(),
            final(manager_cache).wf(),
            *shared == object,
            final(self).managers.capacity() == old(self).managers.capacity(),
            final(manager_cache).capacity() == old(manager_cache).capacity(),
            final(self).settings() == old(self).settings(),
            final(self).keyframable_params == old(self).keyframable_params,
            final(manager_cache)@ == after_put(
                old(manager_cache)@,
                old(manager_cache).capacity(),
                key@,
                shared,
            ),
            final(self).managers@ == after_put(
                old(self).managers@,
                old(self).managers.capacity(),
                key@,
                shared,
            ),
    {
        let shared = Arc::new(object);
        let _ = manager_cache.put(String::from_str(key), crate::cache::share(&shared));
        let _ = self.managers.put(String::from_str(key), crate::cache::share(&shared));
        shared
    }
}

} // verus!
