//! The life of an instance: creation, the fork on its first edit, saving and
//! restoring.
//!
//! A fresh instance shares the engine objects of every other instance that
//! shows the same clip. On the first edit that changes what the engine
//! computes, the instance is forked: a copy takes its place under a new id,
//! so that the edit reaches no object that is shared with others, and
//! whoever still holds the old instance sees it as it was. Engine objects
//! are never saved: they are rebuilt from what is.

use crate::cache::ManagerCache;
use crate::fixed::Fixed;
use crate::instance::{GyroflowPluginBaseInstance, Settings, LOCAL_CAPACITY};
use crate::keyframes::KeyframeType;
use crate::params::Params;
use crate::stored::{StoredModel, StoredParams};
use crate::table::KeyframableParams;
use crate::text::{
    decimal, decimal_text, law_decimal_is_injective, lemma_decimal_length, random_u64,
};
use vstd::prelude::*;

verus! {

/// The version of the format in which instances are saved.
pub const FORMAT_VERSION: u16 = 1;

/// One instance of the effect: its durable state, and its live part, which
/// is rebuilt when it is missing.
pub struct Instance<T> {
    pub stored: StoredParams,
    pub gyroflow: Option<GyroflowPluginBaseInstance<T>>,
}

/// What is saved of an instance: its durable state and the plain settings
/// of its live part.
pub struct InstanceRecord {
    pub stored: StoredParams,
    pub gyroflow: Option<Settings>,
}

impl Settings {
    /// The settings of the live part of a fresh instance of the effect.
    pub open spec fn fresh_effect() -> Settings {
        Settings { anamorphic_adjust_size: false, always_set_input_rotation: true, ..Settings::fresh() }
    }
}

/// The durable state `stored` under the new id that is the decimal text of
/// `fresh`: everything else is kept.
pub open spec fn forked_stored(stored: StoredModel, fresh: nat) -> StoredModel {
    StoredModel { instance_id: decimal_text(fresh), ..stored }
}

/// The durable state of an instance that is restored from a record with
/// the durable state `stored`: as it was read. Only a record without a live
/// part and without an id gets the id that is the decimal text of `fresh`.
pub open spec fn restored_stored(stored: StoredModel, has_live: bool, fresh: nat) -> StoredModel {
    if !has_live && stored.instance_id.len() == 0 {
        forked_stored(stored, fresh)
    } else {
        stored
    }
}

impl Params {
    /// The parameters whose edit forks an instance that was never changed:
    /// those that change what the engine computes, but for the integration
    /// method. An edit of the output size or of what is displayed forks
    /// nothing.
    pub open spec fn spec_forks(self) -> bool {
        self.spec_recalculates() && self != Params::IntegrationMethod
    }

    /// Whether an edit of the parameter forks an instance that was never
    /// changed.
    pub fn forks(self) -> (b: bool)
        ensures
            b == self.spec_forks(),
    {
        self.recalculates() && !matches!(self, Params::IntegrationMethod)
    }
}

impl<T> GyroflowPluginBaseInstance<T> {
    /// The plain settings of the instance.
    pub fn current_settings(&self) -> (settings: Settings)
        ensures
            settings == self.settings(),
    {
        Settings {
            reload_values_from_project: self.reload_values_from_project,
            original_video_size: self.original_video_size,
            original_output_size: self.original_output_size,
            timeline_size: self.timeline_size,
            num_frames: self.num_frames,
            fps: self.fps,
            has_motion: self.has_motion,
            ever_changed: self.ever_changed,
            cache_keyframes_every_frame: self.cache_keyframes_every_frame,
            framebuffer_inverted: self.framebuffer_inverted,
            anamorphic_adjust_size: self.anamorphic_adjust_size,
            always_set_input_rotation: self.always_set_input_rotation,
            opencl_disabled: self.opencl_disabled,
        }
    }

    /// An instance with the settings given, without engine objects and
    /// without keyframes.
    pub fn from_settings(settings: Settings) -> (instance: Self)
        ensures
            instance.wf(),
            instance.settings() == settings,
            instance.managers@.len() == 0,
            instance.managers.capacity() == LOCAL_CAPACITY,
            !instance.keyframable_params.use_gyroflows_keyframes,
            forall|tag: KeyframeType| #[trigger]
                instance.keyframable_params.cached_keyframes.series(tag) == Map::<
                    int,
                    Fixed,
                >::empty(),
    {
        GyroflowPluginBaseInstance {
            keyframable_params: KeyframableParams::new(),
            managers: ManagerCache::new(LOCAL_CAPACITY),
            reload_values_from_project: settings.reload_values_from_project,
            original_video_size: settings.original_video_size,
            original_output_size: settings.original_output_size,
            timeline_size: settings.timeline_size,
            num_frames: settings.num_frames,
            fps: settings.fps,
            has_motion: settings.has_motion,
            ever_changed: settings.ever_changed,
            cache_keyframes_every_frame: settings.cache_keyframes_every_frame,
            framebuffer_inverted: settings.framebuffer_inverted,
            anamorphic_adjust_size: settings.anamorphic_adjust_size,
            always_set_input_rotation: settings.always_set_input_rotation,
            opencl_disabled: settings.opencl_disabled,
        }
    }
}

impl<T> Instance<T> {
    /// The instance is well formed: its durable state is, and its live part
    /// if it has one.
    pub open spec fn wf(&self) -> bool {
        &&& self.stored.wf()
        &&& self.gyroflow matches Some(live) ==> live.wf()
    }

    /// Whether this instance is a fresh one with the instance id `id`: its
    /// durable state is that of `StoredModel::fresh`, and its live part has
    /// the settings of `Settings::fresh_effect`, no engine objects and no
    /// keyframes.
    pub open spec fn is_fresh(&self, id: Seq<char>) -> bool {
        &&& self.wf()
        &&& self.stored@ == StoredModel::fresh(id)
        &&& self.gyroflow is Some
        &&& self.gyroflow->0.settings() == Settings::fresh_effect()
        &&& self.gyroflow->0.managers@.len() == 0
        &&& self.gyroflow->0.managers.capacity() == LOCAL_CAPACITY
        &&& !self.gyroflow->0.keyframable_params.use_gyroflows_keyframes
        &&& forall|tag: KeyframeType| #[trigger]
            self.gyroflow->0.keyframable_params.cached_keyframes.series(tag) == Map::<
                int,
                Fixed,
            >::empty()
    }

    /// The live part of a new instance of the effect, for the instance id
    /// given: the settings of a fresh instance, not marked as changed, no
    /// engine objects and no keyframes. An empty id is replaced by the
    /// decimal text of `fresh`.
    pub fn new_base_instance_with(instance_id: &mut String, fresh: u64) -> (live:
        GyroflowPluginBaseInstance<T>)
        ensures
            live.wf(),
            live.settings() == Settings::fresh_effect(),
            live.managers@.len() == 0,
            live.managers.capacity() == LOCAL_CAPACITY,
            !live.keyframable_params.use_gyroflows_keyframes,
            forall|tag: KeyframeType| #[trigger]
                live.keyframable_params.cached_keyframes.series(tag) == Map::<int, Fixed>::empty(),
            old(instance_id)@.len() == 0 ==> final(instance_id)@ == decimal_text(fresh as nat),
            old(instance_id)@.len() != 0 ==> final(instance_id)@ == old(instance_id)@,
    {
        let mut live = GyroflowPluginBaseInstance::from_settings(
            Settings {
                reload_values_from_project: true,
                original_video_size: (0, 0),
                original_output_size: (0, 0),
                timeline_size: (0, 0),
                num_frames: 0,
                fps: Fixed { micros: 0 },
                has_motion: false,
                ever_changed: false,
                cache_keyframes_every_frame: true,
                framebuffer_inverted: false,
                anamorphic_adjust_size: false,
                always_set_input_rotation: true,
                opencl_disabled: false,
            },
        );
        live.assign_instance_id(instance_id, fresh);
        live
    }

    /// The live part of a new instance of the effect, for the instance id
    /// given: the settings of a fresh instance, not marked as changed, no
    /// engine objects and no keyframes. An empty id is replaced by one drawn
    /// at random.
    pub fn new_base_instance(instance_id: &mut String) -> (live: GyroflowPluginBaseInstance<T>)
        ensures
            live.wf(),
            live.settings() == Settings::fresh_effect(),
            live.managers@.len() == 0,
            live.managers.capacity() == LOCAL_CAPACITY,
            !live.keyframable_params.use_gyroflows_keyframes,
            forall|tag: KeyframeType| #[trigger]
                live.keyframable_params.cached_keyframes.series(tag) == Map::<int, Fixed>::empty(),
            old(instance_id)@.len() == 0 ==> exists|n: u64|
                final(instance_id)@ == decimal_text(n as nat),
            old(instance_id)@.len() != 0 ==> final(instance_id)@ == old(instance_id)@,
    {
        let fresh = if instance_id.as_str().is_empty() {
            random_u64()
        } else {
            0
        };
        Self::new_base_instance_with(instance_id, fresh)
    }

    /// A fresh instance whose id is the decimal text of `fresh`.
    pub fn with_id(fresh: u64) -> (instance: Self)
        ensures
            instance.is_fresh(decimal_text(fresh as nat)),
    {
        let mut stored = StoredParams::with_id(decimal(fresh));
        proof {
            lemma_decimal_length(fresh as nat);
        }
        let mut id = stored.instance_id.clone();
        let live = Self::new_base_instance_with(&mut id, 0);
        Instance { stored, gyroflow: Some(live) }
    }

    /// A fresh instance with an id drawn at random.
    pub fn new() -> (instance: Self)
        ensures
            exists|n: u64| instance.is_fresh(decimal_text(n as nat)),
    {
        let n = random_u64();
        Self::with_id(n)
    }

    /// Whether the live part was ever changed; an instance without a live
    /// part counts as unchanged.
    pub fn ever_changed(&self) -> (changed: bool)
        ensures
            changed == match self.gyroflow {
                Some(live) => live.ever_changed,
                None => false,
            },
    {
        match &self.gyroflow {
            Some(live) => live.ever_changed,
            None => false,
        }
    }

    /// Prepares the instance for an edit of `param` by the user: an edit of
    /// the output size makes the instance forget the size of the sequence.
    /// Tells whether the instance is to be forked before the edit is
    /// handled: when the edit is one that forks and the instance was never
    /// changed. An edit of the output size or of what is displayed never
    /// asks for a fork.
    pub fn begin_edit(&mut self, param: Params) -> (fork: bool)
        requires
            old(self).wf(),
        ensures
            final(self).wf(),
            final(self).gyroflow == old(self).gyroflow,
            final(self).stored@ == (StoredModel {
                sequence_size: if param.spec_sizes_output() {
                    (0usize, 0usize)
                } else {
                    old(self).stored@.sequence_size
                },
                ..old(self).stored@
            }),
            fork == (param.spec_forks() && !(old(self).gyroflow matches Some(live)
                && live.ever_changed)),
    {
        if param.sizes_output() {
            self.stored.sequence_size = (0, 0);
        }
        if param.forks() {
            !self.ever_changed()
        } else {
            false
        }
    }

    /// The fork of this instance: a copy under the new id that is the
    /// decimal text of `fresh`, marked as changed. Every other stored value
    /// is kept, the keyframes are kept, and the copy holds the same engine
    /// objects. This instance is not touched.
    pub fn fork(&self, fresh: u64) -> (copy: Self)
        requires
            self.wf(),
            self.gyroflow is Some,
        ensures
            copy.wf(),
            copy.stored@ == forked_stored(self.stored@, fresh as nat),
            copy.gyroflow is Some,
            copy.gyroflow->0.settings() == (Settings {
                ever_changed: true,
                ..self.gyroflow->0.settings()
            }),
            copy.gyroflow->0.managers@ == self.gyroflow->0.managers@,
            copy.gyroflow->0.managers.capacity() == self.gyroflow->0.managers.capacity(),
            copy.gyroflow->0.keyframable_params.use_gyroflows_keyframes
                == self.gyroflow->0.keyframable_params.use_gyroflows_keyframes,
            forall|tag: KeyframeType| #[trigger]
                copy.gyroflow->0.keyframable_params.cached_keyframes.series(tag)
                    == self.gyroflow->0.keyframable_params.cached_keyframes.series(tag),
    {
        let mut stored = self.stored.duplicate();
        stored.instance_id = decimal(fresh);
        let live = match &self.gyroflow {
            Some(live) => {
                let mut copy = live.duplicate();
                copy.ever_changed = true;
                Some(copy)
            },
            None => None,
        };
        Instance { stored, gyroflow: live }
    }

    /// Brings the frame rate of the live part and the stored frame rate of
    /// the media in line, and returns the rate: a live part that knows its
    /// rate tells it to the durable state, and one that does not is told
    /// the stored rate.
    pub fn sync_fps(&mut self) -> (fps: Fixed)
        requires
            old(self).wf(),
            old(self).gyroflow is Some,
        ensures
            final(self).wf(),
            final(self).gyroflow == old(self).gyroflow,
            fps == if old(self).gyroflow->0.fps.micros == 0 {
                old(self).stored.media_fps
            } else {
                old(self).gyroflow->0.fps
            },
            final(self).stored@ == (StoredModel { media_fps: fps, ..old(self).stored@ }),
    {
        let live_fps = match &self.gyroflow {
            Some(live) => live.fps,
            None => Fixed { micros: 0 },
        };
        if live_fps.micros == 0 {
            self.stored.media_fps
        } else {
            self.stored.media_fps = live_fps;
            live_fps
        }
    }

    /// What is saved of the instance, under the version of the format.
    pub fn flatten(&self) -> (saved: (u16, InstanceRecord))
        requires
            self.wf(),
        ensures
            saved.0 == FORMAT_VERSION,
            saved.1.stored.wf(),
            saved.1.stored@ == self.stored@,
            saved.1.gyroflow == match self.gyroflow {
                Some(live) => Some(live.settings()),
                None => None,
            },
    {
        let live = match &self.gyroflow {
            Some(live) => Some(live.current_settings()),
            None => None,
        };
        (FORMAT_VERSION, InstanceRecord { stored: self.stored.duplicate(), gyroflow: live })
    }

    /// The instance for what was read back of a saved one.
    ///
    /// What could not be read gives a fresh instance whose id is the
    /// decimal text of `fresh`; that never fails. What was read gives an
    /// instance with the stored values and the settings that were read. A
    /// record without a live part gets the live part of a fresh instance,
    /// and with it the id of `fresh` if it had none. Whatever was read, the
    /// instance holds no engine objects and no keyframes: they are made
    /// again when they are next asked for.
    pub fn restore(decoded: Option<InstanceRecord>, fresh: u64) -> (instance: Self)
        requires
            decoded matches Some(record) ==> record.stored.wf(),
        ensures
            instance.wf(),
            instance.gyroflow is Some,
            instance.gyroflow->0.managers@.len() == 0,
            instance.gyroflow->0.managers.capacity() == LOCAL_CAPACITY,
            !instance.gyroflow->0.keyframable_params.use_gyroflows_keyframes,
            forall|tag: KeyframeType| #[trigger]
                instance.gyroflow->0.keyframable_params.cached_keyframes.series(tag) == Map::<
                    int,
                    Fixed,
                >::empty(),
            decoded is None ==> instance.is_fresh(decimal_text(fresh as nat)),
            decoded matches Some(record) ==> instance.stored@ == restored_stored(
                record.stored@,
                record.gyroflow is Some,
                fresh as nat,
            ) && instance.gyroflow->0.settings() == match record.gyroflow {
                Some(settings) => settings,
                None => Settings::fresh_effect(),
            },
    {
        match decoded {
            Some(record) => {
                let mut stored = record.stored;
                let live = match record.gyroflow {
                    Some(settings) => GyroflowPluginBaseInstance::from_settings(settings),
                    None => {
                        let mut id = stored.instance_id.clone();
                        let live = Self::new_base_instance_with(&mut id, fresh);
                        stored.instance_id = id;
                        live
                    },
                };
                Instance { stored, gyroflow: Some(live) }
            },
            None => Self::with_id(fresh),
        }
    }

    /// The instance for what was read back of a saved one, with an id drawn
    /// at random where a new one is needed. What could not be read gives a
    /// fresh instance; that never fails. What was read is restored as
    /// `restore` does for some id.
    pub fn unflatten(_version: u16, decoded: Option<InstanceRecord>) -> (instance: Self)
        requires
            decoded matches Some(record) ==> record.stored.wf(),
        ensures
            instance.wf(),
            instance.gyroflow is Some,
            instance.gyroflow->0.managers@.len() == 0,
            instance.gyroflow->0.managers.capacity() == LOCAL_CAPACITY,
            !instance.gyroflow->0.keyframable_params.use_gyroflows_keyframes,
            forall|tag: KeyframeType| #[trigger]
                instance.gyroflow->0.keyframable_params.cached_keyframes.series(tag) == Map::<
                    int,
                    Fixed,
                >::empty(),
            decoded is None ==> exists|n: u64| instance.is_fresh(decimal_text(n as nat)),
            decoded matches Some(record) ==> instance.gyroflow->0.settings() == match record.gyroflow {
                Some(settings) => settings,
                None => Settings::fresh_effect(),
            },
            decoded matches Some(record) ==> (record.gyroflow is Some
                || record.stored@.instance_id.len() != 0 ==> instance.stored@ == record.stored@),
            decoded matches Some(record) ==> (record.gyroflow is None
                && record.stored@.instance_id.len() == 0 ==> exists|n: u64|
                instance.stored@ == #[trigger] forked_stored(record.stored@, n as nat)),
    {
        let fresh = random_u64();
        let ghost read = decoded;
        let instance = Self::restore(decoded, fresh);
        proof {
            if read is Some && read->0.gyroflow is None && read->0.stored@.instance_id.len() == 0 {
                assert(instance.stored@ == forked_stored(read->0.stored@, fresh as nat));
            }
        }
        instance
    }
}

/// The payload of a saved blob: what follows the two bytes of the version.
/// A blob of two bytes or fewer has no payload.
pub fn payload_of(blob: &Vec<u8>) -> (payload: Option<Vec<u8>>)
    ensures
        payload is Some <==> blob@.len() > 2,
        payload is Some ==> payload->0@ == blob@.subrange(2, blob@.len() as int),
{
    let n: usize = blob.len();
    if n > 2 {
        let mut payload: Vec<u8> = Vec::new();
        let mut i: usize = 2;
        while i < n
            invariant
                n == blob@.len(),
                2 <= i <= n,
                payload@ == blob@.subrange(2, i as int),
            decreases n - i,
        {
            payload.push(blob[i]);
            assert(blob@.subrange(2, i + 1) =~= blob@.subrange(2, i as int).push(blob@[i as int]));
            i = i + 1;
        }
        Some(payload)
    } else {
        None
    }
}

/// A fork keeps every stored value but the instance id, and the id
/// changes, whenever the new id is not the text of the old one.
pub proof fn law_fork_keeps_stored_values(stored: StoredModel, fresh: nat)
    requires
        decimal_text(fresh) != stored.instance_id,
    ensures
        forked_stored(stored, fresh).instance_id != stored.instance_id,
        forked_stored(stored, fresh) == (StoredModel {
            instance_id: forked_stored(stored, fresh).instance_id,
            ..stored
        }),
        forked_stored(stored, fresh).version == stored.version,
        forked_stored(stored, fresh).media_file_path == stored.media_file_path,
        forked_stored(stored, fresh).sequence_size == stored.sequence_size,
        forked_stored(stored, fresh).media_fps == stored.media_fps,
        forked_stored(stored, fresh).media_fps_ticks == stored.media_fps_ticks,
        forked_stored(stored, fresh).pending_f64 == stored.pending_f64,
        forked_stored(stored, fresh).pending_bool == stored.pending_bool,
        forked_stored(stored, fresh).pending_str == stored.pending_str,
        forked_stored(stored, fresh).pending_i32 == stored.pending_i32,
        forked_stored(stored, fresh).premiere_keyframed == stored.premiere_keyframed,
        forked_stored(stored, fresh).speed_per_frame == stored.speed_per_frame,
        forked_stored(stored, fresh).speed_checksum == stored.speed_checksum,
{
}

/// A fork gives a new id: an instance whose id was made of one number and
/// that is forked with another has a different id afterwards, and every
/// other stored value as before.
pub proof fn law_fork_changes_id(stored: StoredModel, current: nat, fresh: nat)
    requires
        stored.instance_id == decimal_text(current),
        fresh != current,
    ensures
        forked_stored(stored, fresh).instance_id != stored.instance_id,
        forked_stored(stored, fresh) == (StoredModel {
            instance_id: decimal_text(fresh),
            ..stored
        }),
{
    if decimal_text(fresh) == decimal_text(current) {
        law_decimal_is_injective(fresh, current);
    }
}

} // verus!
