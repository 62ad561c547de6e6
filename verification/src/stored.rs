//! The durable state of an instance, and how it answers for the host.
//!
//! What is stored here survives saving and loading. Part of it are values
//! that wait to be written to the host: a host that offers a parameter
//! read-only, or not yet, is answered from these values first.

use crate::fixed::{whole, whole_part, Fixed};
use crate::param_map::{duplicate_texts, entries_of, entries_upto, texts, ParamMap, ParamSet};
use crate::params::{same_text, Params, PARAM_COUNT};
use crate::port::PortWrite;
use crate::text::{decimal, decimal_text, random_u64};
use crate::time::TimeType;
use vstd::prelude::*;
use vstd::string::StringExecFns;

verus! {

/// The durable state of an instance.
pub struct StoredParams {
    pub version: u8,
    pub media_file_path: String,
    pub instance_id: String,
    pub sequence_size: (usize, usize),
    pub media_fps: Fixed,
    pub media_fps_ticks: i64,
    pub pending_params_f64: ParamMap<Fixed>,
    pub pending_params_bool: ParamMap<bool>,
    pub pending_params_str: ParamMap<String>,
    pub pending_params_i32: ParamMap<i32>,
    pub premiere_keyframed_params: ParamSet,
    pub speed_per_frame: Vec<Fixed>,
    pub speed_checksum: u64,
}

/// What a durable state holds, with its texts as sequences of characters.
pub struct StoredModel {
    pub version: u8,
    pub media_file_path: Seq<char>,
    pub instance_id: Seq<char>,
    pub sequence_size: (usize, usize),
    pub media_fps: Fixed,
    pub media_fps_ticks: i64,
    pub pending_f64: Map<Params, Fixed>,
    pub pending_bool: Map<Params, bool>,
    pub pending_str: Map<Params, Seq<char>>,
    pub pending_i32: Map<Params, i32>,
    pub premiere_keyframed: Set<Params>,
    pub speed_per_frame: Seq<Fixed>,
    pub speed_checksum: u64,
}

impl StoredModel {
    /// The durable state of a fresh instance with the id `instance_id`:
    /// nothing is known yet, and the status reads `---`.
    pub open spec fn fresh(instance_id: Seq<char>) -> StoredModel {
        StoredModel {
            version: 1,
            media_file_path: Seq::empty(),
            instance_id,
            sequence_size: (0, 0),
            media_fps: Fixed { micros: 0 },
            media_fps_ticks: 0,
            pending_f64: Map::empty(),
            pending_bool: Map::empty(),
            pending_str: Map::<Params, Seq<char>>::empty().insert(Params::Status, "---"@),
            pending_i32: Map::empty(),
            premiere_keyframed: Set::empty(),
            speed_per_frame: Seq::empty(),
            speed_checksum: 0,
        }
    }

    /// The text that the state knows for `param`, if it knows one: the
    /// instance id is always known, and any other text while it waits to be
    /// written.
    pub open spec fn known_string(self, param: Params) -> Option<Seq<char>> {
        if param == Params::InstanceId {
            Some(self.instance_id)
        } else if self.pending_str.dom().contains(param) {
            Some(self.pending_str[param])
        } else {
            None
        }
    }

    /// The number that the state knows for `param`, if it knows one: the
    /// video speed is always a hundred percent here; the output size is the
    /// size of the sequence while that is known; and any other number is
    /// known while it waits to be written.
    pub open spec fn known_f64(self, param: Params) -> Option<Fixed> {
        if param == Params::VideoSpeed {
            Some(Fixed { micros: 100_000_000 })
        } else if param == Params::OutputWidth && self.sequence_size != (0usize, 0usize) {
            Some(whole(self.sequence_size.0 as int))
        } else if param == Params::OutputHeight && self.sequence_size != (0usize, 0usize) {
            Some(whole(self.sequence_size.1 as int))
        } else if self.pending_f64.dom().contains(param) {
            Some(self.pending_f64[param])
        } else {
            None
        }
    }

    /// The speed of the clip at `frame`, in percent: a hundred without a
    /// speed ramp; else the speed of the frame, and the speed of the last
    /// frame beyond it.
    pub open spec fn speed_at(self, ramp: bool, frame: Fixed) -> Fixed {
        if ramp && self.speed_per_frame.len() > 0 {
            if whole_part(frame) < self.speed_per_frame.len() {
                self.speed_per_frame[whole_part(frame)]
            } else {
                self.speed_per_frame.last()
            }
        } else {
            Fixed { micros: 100_000_000 }
        }
    }

    /// The state after the text `value` was written to `param`: the text
    /// waits for the host, and a new instance id is taken over at once.
    pub open spec fn with_string(self, param: Params, value: Seq<char>) -> StoredModel {
        StoredModel {
            instance_id: if param == Params::InstanceId {
                value
            } else {
                self.instance_id
            },
            pending_str: self.pending_str.insert(param, value),
            ..self
        }
    }
}

impl View for StoredParams {
    type V = StoredModel;

    open spec fn view(&self) -> StoredModel {
        StoredModel {
            version: self.version,
            media_file_path: self.media_file_path@,
            instance_id: self.instance_id@,
            sequence_size: self.sequence_size,
            media_fps: self.media_fps,
            media_fps_ticks: self.media_fps_ticks,
            pending_f64: self.pending_params_f64@,
            pending_bool: self.pending_params_bool@,
            pending_str: texts(self.pending_params_str@),
            pending_i32: self.pending_params_i32@,
            premiere_keyframed: self.premiere_keyframed_params@,
            speed_per_frame: self.speed_per_frame@,
            speed_checksum: self.speed_checksum,
        }
    }
}

/// Whether the status text says that all is well.
pub fn status_is_ok(status: &str) -> (ok: bool)
    ensures
        ok == (status@ == "OK"@),
{
    same_text(status, "OK")
}

/// The writes that send the numbers of `entries` to the host.
pub open spec fn number_writes(entries: Seq<(Params, Fixed)>) -> Seq<crate::port::WriteModel> {
    Seq::new(entries.len(), |i: int| crate::port::WriteModel::Number(entries[i].0, entries[i].1))
}

/// The writes that send the flags of `entries` to the host.
pub open spec fn flag_writes(entries: Seq<(Params, bool)>) -> Seq<crate::port::WriteModel> {
    Seq::new(entries.len(), |i: int| crate::port::WriteModel::Flag(entries[i].0, entries[i].1))
}

/// The writes that send the choices of `entries` to the host.
pub open spec fn choice_writes(entries: Seq<(Params, i32)>) -> Seq<crate::port::WriteModel> {
    Seq::new(entries.len(), |i: int| crate::port::WriteModel::Choice(entries[i].0, entries[i].1))
}

/// The writes that send the texts of `entries` to the host.
pub open spec fn text_writes(entries: Seq<(Params, Seq<char>)>) -> Seq<crate::port::WriteModel> {
    Seq::new(entries.len(), |i: int| crate::port::WriteModel::Text(entries[i].0, entries[i].1))
}

/// Appends `more` to `writes`.
pub fn append_writes(writes: &mut Vec<PortWrite>, more: Vec<PortWrite>)
    ensures
        crate::port::models(final(writes)@) == crate::port::models(old(writes)@)
            + crate::port::models(more@),
{
    let mut more = more;
    let ghost added = more@;
    writes.append(&mut more);
    assert(crate::port::models(writes@) =~= crate::port::models(old(writes)@)
        + crate::port::models(added));
}

/// The writes that send the numbers of `entries` to the host.
pub fn number_write_list(entries: &Vec<(Params, Fixed)>) -> (writes: Vec<PortWrite>)
    ensures
        crate::port::models(writes@) == number_writes(entries@),
{
    let mut writes: Vec<PortWrite> = Vec::new();
    let mut i: usize = 0;
    while i < entries.len()
        invariant
            i <= entries@.len(),
            writes@.len() == i,
            forall|k: int|
                0 <= k < i ==> (#[trigger] writes@[k])@ == crate::port::WriteModel::Number(
                    entries@[k].0,
                    entries@[k].1,
                ),
        decreases entries@.len() - i,
    {
        writes.push(PortWrite::Number(entries[i].0, entries[i].1));
        i = i + 1;
    }
    assert(crate::port::models(writes@) =~= number_writes(entries@));
    writes
}

/// The writes that send the flags of `entries` to the host.
pub fn flag_write_list(entries: &Vec<(Params, bool)>) -> (writes: Vec<PortWrite>)
    ensures
        crate::port::models(writes@) == flag_writes(entries@),
{
    let mut writes: Vec<PortWrite> = Vec::new();
    let mut i: usize = 0;
    while i < entries.len()
        invariant
            i <= entries@.len(),
            writes@.len() == i,
            forall|k: int|
                0 <= k < i ==> (#[trigger] writes@[k])@ == crate::port::WriteModel::Flag(
                    entries@[k].0,
                    entries@[k].1,
                ),
        decreases entries@.len() - i,
    {
        writes.push(PortWrite::Flag(entries[i].0, entries[i].1));
        i = i + 1;
    }
    assert(crate::port::models(writes@) =~= flag_writes(entries@));
    writes
}

/// The writes that send the choices of `entries` to the host.
pub fn choice_write_list(entries: &Vec<(Params, i32)>) -> (writes: Vec<PortWrite>)
    ensures
        crate::port::models(writes@) == choice_writes(entries@),
{
    let mut writes: Vec<PortWrite> = Vec::new();
    let mut i: usize = 0;
    while i < entries.len()
        invariant
            i <= entries@.len(),
            writes@.len() == i,
            forall|k: int|
                0 <= k < i ==> (#[trigger] writes@[k])@ == crate::port::WriteModel::Choice(
                    entries@[k].0,
                    entries@[k].1,
                ),
        decreases entries@.len() - i,
    {
        writes.push(PortWrite::Choice(entries[i].0, entries[i].1));
        i = i + 1;
    }
    assert(crate::port::models(writes@) =~= choice_writes(entries@));
    writes
}

/// The writes that send the texts of `map` to the host, in the order of the
/// parameters.
pub fn text_write_list(map: &ParamMap<String>) -> (writes: Vec<PortWrite>)
    requires
        map.wf(),
    ensures
        crate::port::models(writes@) == text_writes(entries_of(texts(map@))),
{
    let mut writes: Vec<PortWrite> = Vec::new();
    let mut i: usize = 0;
    assert(crate::port::models(writes@) =~= text_writes(entries_upto(texts(map@), 0)));
    while i < PARAM_COUNT
        invariant
            i <= PARAM_COUNT,
            map.wf(),
            crate::port::models(writes@) == text_writes(entries_upto(texts(map@), i as int)),
        decreases PARAM_COUNT - i,
    {
        let ghost before = crate::port::models(writes@);
        match Params::from_index(i) {
            Some(p) => {
                match map.get(p) {
                    Some(text) => {
                        writes.push(PortWrite::Text(p, text.clone()));
                        assert(crate::port::models(writes@) =~= before.push(
                            crate::port::WriteModel::Text(p, text@),
                        ));
                        assert(text_writes(entries_upto(texts(map@), i + 1)) =~= text_writes(
                            entries_upto(texts(map@), i as int),
                        ).push(crate::port::WriteModel::Text(p, text@)));
                    },
                    None => {},
                }
            },
            None => {},
        }
        i = i + 1;
    }
    writes
}

impl StoredParams {
    /// Every map of the state is well formed.
    pub open spec fn wf(&self) -> bool {
        &&& self.pending_params_f64.wf()
        &&& self.pending_params_bool.wf()
        &&& self.pending_params_str.wf()
        &&& self.pending_params_i32.wf()
        &&& self.premiere_keyframed_params.wf()
    }

    /// The durable state of a fresh instance with the id `instance_id`.
    pub fn with_id(instance_id: String) -> (stored: Self)
        ensures
            stored.wf(),
            stored@ == StoredModel::fresh(instance_id@),
    {
        let mut pending_params_str: ParamMap<String> = ParamMap::new();
        let _ = pending_params_str.insert(Params::Status, String::from_str("---"));
        let stored = StoredParams {
            version: 1,
            media_file_path: String::new(),
            instance_id,
            sequence_size: (0, 0),
            media_fps: Fixed { micros: 0 },
            media_fps_ticks: 0,
            pending_params_f64: ParamMap::new(),
            pending_params_bool: ParamMap::new(),
            pending_params_str,
            pending_params_i32: ParamMap::new(),
            premiere_keyframed_params: ParamSet::new(),
            speed_per_frame: Vec::new(),
            speed_checksum: 0,
        };
        assert(stored@.pending_str =~= StoredModel::fresh(instance_id@).pending_str);
        stored
    }

    /// The durable state of a fresh instance, with an id drawn at random.
    pub fn new() -> (stored: Self)
        ensures
            stored.wf(),
            exists|n: u64| stored@ == StoredModel::fresh(decimal_text(n as nat)),
    {
        let n = random_u64();
        Self::with_id(decimal(n))
    }

    /// A copy of the state.
    pub fn duplicate(&self) -> (copy: Self)
        requires
            self.wf(),
        ensures
            copy.wf(),
            copy@ == self@,
    {
        StoredParams {
            version: self.version,
            media_file_path: self.media_file_path.clone(),
            instance_id: self.instance_id.clone(),
            sequence_size: self.sequence_size,
            media_fps: self.media_fps,
            media_fps_ticks: self.media_fps_ticks,
            pending_params_f64: self.pending_params_f64.duplicate(),
            pending_params_bool: self.pending_params_bool.duplicate(),
            pending_params_str: duplicate_texts(&self.pending_params_str),
            pending_params_i32: self.pending_params_i32.duplicate(),
            premiere_keyframed_params: self.premiere_keyframed_params.duplicate(),
            speed_per_frame: self.speed_per_frame.clone(),
            speed_checksum: self.speed_checksum,
        }
    }

    /// The text that the state knows for `param`; the host is asked for a
    /// text that it does not know.
    pub fn get_string(&self, param: Params) -> (known: Option<String>)
        requires
            self.wf(),
        ensures
            known is Some <==> self@.known_string(param) is Some,
            known is Some ==> known->0@ == self@.known_string(param)->0,
    {
        if matches!(param, Params::InstanceId) {
            return Some(self.instance_id.clone());
        }
        match self.pending_params_str.get(param) {
            Some(text) => Some(text.clone()),
            None => None,
        }
    }

    /// The flag that the state knows for `param`, which must not be the
    /// status; the host is asked for a flag that it does not know.
    pub fn get_bool(&self, param: Params) -> (known: Option<bool>)
        requires
            self.wf(),
        ensures
            known == if self@.pending_bool.dom().contains(param) {
                Some(self@.pending_bool[param])
            } else {
                None
            },
    {
        match self.pending_params_bool.get(param) {
            Some(flag) => Some(*flag),
            None => None,
        }
    }

    /// The number that the state knows for `param`; the host is asked for a
    /// number that it does not know.
    pub fn get_f64(&self, param: Params) -> (known: Option<Fixed>)
        requires
            self.wf(),
        ensures
            known == self@.known_f64(param),
    {
        if matches!(param, Params::VideoSpeed) {
            return Some(Fixed { micros: 100_000_000 });
        }
        let sized = self.sequence_size.0 != 0 || self.sequence_size.1 != 0;
        if matches!(param, Params::OutputWidth) && sized {
            return Some(Fixed::from_count(self.sequence_size.0));
        }
        if matches!(param, Params::OutputHeight) && sized {
            return Some(Fixed::from_count(self.sequence_size.1));
        }
        match self.pending_params_f64.get(param) {
            Some(number) => Some(*number),
            None => None,
        }
    }

    /// The choice that the state knows for `param`; the host is asked for a
    /// choice that it does not know.
    pub fn get_i32(&self, param: Params) -> (known: Option<i32>)
        requires
            self.wf(),
        ensures
            known == if self@.pending_i32.dom().contains(param) {
                Some(self@.pending_i32[param])
            } else {
                None
            },
    {
        match self.pending_params_i32.get(param) {
            Some(choice) => Some(*choice),
            None => None,
        }
    }

    /// Notes the text `value` for `param`, and tells whether the host is to
    /// be written as well: it is, but for the texts that only inform.
    pub fn set_string(&mut self, param: Params, value: &str) -> (forward: bool)
        requires
            old(self).wf(),
        ensures
            final(self).wf(),
            final(self)@ == old(self)@.with_string(param, value@),
            forward == !(param == Params::LoadedProject || param == Params::LoadedPreset || param
                == Params::LoadedLens),
    {
        if matches!(param, Params::InstanceId) {
            self.instance_id = String::from_str(value);
        }
        let _ = self.pending_params_str.insert(param, String::from_str(value));
        proof {
            assert(self@.pending_str =~= old(self)@.pending_str.insert(param, value@));
        }
        !matches!(param, Params::LoadedProject | Params::LoadedPreset | Params::LoadedLens)
    }

    /// Notes the flag `value` for `param`, and tells whether the host is to
    /// be written as well. The status is no flag: it is neither noted nor
    /// written.
    pub fn set_bool(&mut self, param: Params, value: bool) -> (forward: bool)
        requires
            old(self).wf(),
        ensures
            final(self).wf(),
            forward == (param != Params::Status),
            final(self)@ == if param == Params::Status {
                old(self)@
            } else {
                StoredModel {
                    pending_bool: old(self)@.pending_bool.insert(param, value),
                    ..old(self)@
                }
            },
    {
        if matches!(param, Params::Status) {
            return false;
        }
        let _ = self.pending_params_bool.insert(param, value);
        true
    }

    /// Notes the number `value` for `param`, and tells whether the host is
    /// to be written as well. The video speed is not set by the host: it is
    /// neither noted nor written.
    pub fn set_f64(&mut self, param: Params, value: Fixed) -> (forward: bool)
        requires
            old(self).wf(),
        ensures
            final(self).wf(),
            forward == (param != Params::VideoSpeed),
            final(self)@ == if param == Params::VideoSpeed {
                old(self)@
            } else {
                StoredModel {
                    pending_f64: old(self)@.pending_f64.insert(param, value),
                    ..old(self)@
                }
            },
    {
        if matches!(param, Params::VideoSpeed) {
            return false;
        }
        let _ = self.pending_params_f64.insert(param, value);
        true
    }

    /// Notes the choice `value` for `param`; the host is to be written as
    /// well.
    pub fn set_i32(&mut self, param: Params, value: i32)
        requires
            old(self).wf(),
        ensures
            final(self).wf(),
            final(self)@ == (StoredModel {
                pending_i32: old(self)@.pending_i32.insert(param, value),
                ..old(self)@
            }),
    {
        let _ = self.pending_params_i32.insert(param, value);
    }

    /// Whether the video speed counts as animated: with a speed ramp, when
    /// speeds are known.
    pub fn speed_is_keyframed(&self, ramp: bool) -> (animated: bool)
        ensures
            animated == (ramp && self@.speed_per_frame.len() > 0),
    {
        ramp && self.speed_per_frame.len() > 0
    }

    /// The speed of the clip, in percent, at the frame of `time`.
    pub fn speed_at_time(&self, ramp: bool, time: TimeType) -> (speed: Fixed)
        requires
            ramp && self@.speed_per_frame.len() > 0 ==> time.has_frame(),
        ensures
            speed == self@.speed_at(ramp, time.spec_frame()),
    {
        let n: usize = self.speed_per_frame.len();
        if ramp && n > 0 {
            let frame: usize = crate::time::frame_from_timetype(time).to_count();
            if frame < n {
                self.speed_per_frame[frame]
            } else {
                self.speed_per_frame[n - 1]
            }
        } else {
            Fixed { micros: 100_000_000 }
        }
    }

    /// Forgets what waits for `param`, which the user just edited, and
    /// returns the writes that send every other waiting number, flag, text
    /// and choice to the host, each kind in the order of the parameters.
    pub fn flush_pending(&mut self, param: Params) -> (writes: Vec<PortWrite>)
        requires
            old(self).wf(),
        ensures
            final(self).wf(),
            final(self)@ == (StoredModel {
                pending_f64: old(self)@.pending_f64.remove(param),
                pending_bool: old(self)@.pending_bool.remove(param),
                pending_str: old(self)@.pending_str.remove(param),
                pending_i32: old(self)@.pending_i32.remove(param),
                ..old(self)@
            }),
            crate::port::models(writes@) == number_writes(
                entries_of(old(self)@.pending_f64.remove(param)),
            ) + flag_writes(entries_of(old(self)@.pending_bool.remove(param))) + text_writes(
                entries_of(old(self)@.pending_str.remove(param)),
            ) + choice_writes(entries_of(old(self)@.pending_i32.remove(param))),
    {
        let _ = self.pending_params_f64.remove(param);
        let _ = self.pending_params_bool.remove(param);
        let _ = self.pending_params_str.remove(param);
        let _ = self.pending_params_i32.remove(param);
        proof {
            assert(self@.pending_str =~= old(self)@.pending_str.remove(param));
        }
        let mut writes = number_write_list(&self.pending_params_f64.entries());
        let flags = flag_write_list(&self.pending_params_bool.entries());
        append_writes(&mut writes, flags);
        let strings = text_write_list(&self.pending_params_str);
        append_writes(&mut writes, strings);
        let choices = choice_write_list(&self.pending_params_i32.entries());
        append_writes(&mut writes, choices);
        writes
    }
}

} // verus!
