//! Handling the edit of a parameter.
//!
//! The caller fetches what the edit needs from outside (`Params::outside_need`
//! says what), hands it in as an `Outside`, and gets back what is to be done
//! to every engine object that the instance holds after the call.

use crate::cache::{lookup, ManagerCache};
use crate::edits::{engine_steps, engine_steps_model, EngineStep};
use crate::fixed::{whole, whole_part, Fixed};
use crate::instance::GyroflowPluginBaseInstance;
use crate::params::Params;
use crate::port::{
    models, send_until_refused, GyroflowPluginParams, PluginResult, PortWrite, WriteModel,
};
use crate::recency::has_key;
use crate::text::{decimal, ends_with, is_suffix, random_u64};
use vstd::prelude::*;

verus! {

/// A file that the user picked, with its contents if it could be read.
pub struct PickedFile {
    pub path: String,
    pub contents: Option<String>,
}

/// The project file of the instance as it was read for an edit.
pub struct ProjectFile {
    pub data: String,
    /// Whether the engine finds motion data in `data`.
    pub has_motion_data: bool,
}

/// What the caller fetched from outside for one edit. What the edit does
/// not need is left empty.
pub struct Outside {
    /// The project or video file that the user picked; empty when the user
    /// picked none.
    pub picked_path: String,
    /// The lens profile or preset that the user picked.
    pub picked_lens: Option<PickedFile>,
    /// The path of the project that the application saved last; empty when
    /// there is none.
    pub last_project: String,
    /// The project file of the instance, if it could be read.
    pub project_file: Option<ProjectFile>,
    /// The project as the least recently used engine object of the instance
    /// exports it, if there is such an object and it can.
    pub exported: Option<String>,
}

/// One thing to do to an engine object, with the values it needs.
#[derive(Debug, Copy, Clone, PartialEq, Eq, Structural)]
pub enum EngineAction {
    /// Set the output size to this width and height and recompute the zoom.
    Resize(usize, usize),
    /// Take over this integration method; nothing to do when the host could
    /// not tell it.
    ApplyIntegrationMethod(Option<i32>),
    InvalidateSmoothing,
    InvalidateZooming,
    InvalidateUndistortion,
    /// Recalculate the timestamps of the speed ramp, given whether the
    /// engine's own keyframes win.
    RecomputeRamp(bool),
    /// Switch the overview on or off.
    SetOverview(bool),
}

impl EngineAction {
    /// The step that the action carries out.
    pub open spec fn step(self) -> EngineStep {
        match self {
            EngineAction::Resize(_, _) => EngineStep::Resize,
            EngineAction::ApplyIntegrationMethod(_) => EngineStep::ApplyIntegrationMethod,
            EngineAction::InvalidateSmoothing => EngineStep::InvalidateSmoothing,
            EngineAction::InvalidateZooming => EngineStep::InvalidateZooming,
            EngineAction::InvalidateUndistortion => EngineStep::InvalidateUndistortion,
            EngineAction::RecomputeRamp(_) => EngineStep::RecomputeRamp,
            EngineAction::SetOverview(_) => EngineStep::SetOverview,
        }
    }
}

/// The steps that a list of actions carries out.
pub open spec fn steps_of(actions: Seq<EngineAction>) -> Seq<EngineStep> {
    Seq::new(actions.len(), |i: int| actions[i].step())
}

/// What the host is to carry as project data after the switch that embeds
/// the project was edited, or nothing if what it carries is to stay.
///
/// With the switch off it carries nothing. With the switch on and a project
/// file, it carries the data of the file if the engine finds motion data in
/// it, else what the engine exports, and nothing if the file cannot be
/// read. With the switch on and a video file, it carries what the engine
/// exports.
pub open spec fn embedded_model(
    embed: bool,
    is_project: bool,
    file: Option<ProjectFile>,
    exported: Option<String>,
) -> Option<Seq<char>> {
    if !embed {
        Some(Seq::<char>::empty())
    } else if is_project {
        match file {
            Some(f) => if f.has_motion_data {
                Some(f.data@)
            } else {
                match exported {
                    Some(e) => Some(e@),
                    None => None,
                }
            },
            None => Some(Seq::<char>::empty()),
        }
    } else {
        match exported {
            Some(e) => Some(e@),
            None => None,
        }
    }
}

/// What the host is to carry as project data after the switch that embeds
/// the project was edited.
pub fn embedded_data(
    embed: bool,
    is_project: bool,
    file: &Option<ProjectFile>,
    exported: &Option<String>,
) -> (data: Option<String>)
    ensures
        data is Some <==> embedded_model(embed, is_project, *file, *exported) is Some,
        data is Some ==> data->0@ == embedded_model(embed, is_project, *file, *exported)->0,
{
    if !embed {
        Some(String::new())
    } else if is_project {
        match file {
            Some(f) => {
                if f.has_motion_data {
                    Some(f.data.clone())
                } else {
                    match exported {
                        Some(e) => Some(e.clone()),
                        None => None,
                    }
                }
            },
            None => Some(String::new()),
        }
    } else {
        match exported {
            Some(e) => Some(e.clone()),
            None => None,
        }
    }
}

/// Which of the host's parameters takes the contents of a picked lens file:
/// the lens profile for a `.json` file, the preset for any other.
pub fn lens_target(path: &str) -> (param: Params)
    ensures
        param == if is_suffix(path@, ".json"@) {
            Params::EmbeddedLensProfile
        } else {
            Params::EmbeddedPreset
        },
{
    if ends_with(path, ".json") {
        Params::EmbeddedLensProfile
    } else {
        Params::EmbeddedPreset
    }
}

/// The actions for the steps of an edit, with the values given.
pub fn actions_for(
    steps: &Vec<EngineStep>,
    size: (usize, usize),
    integration_method: Option<i32>,
    use_gyroflows_keyframes: bool,
    overview: bool,
) -> (actions: Vec<EngineAction>)
    ensures
        steps_of(actions@) == steps@,
        forall|i: int|
            0 <= i < actions@.len() ==> match #[trigger] actions@[i] {
                EngineAction::Resize(w, h) => (w, h) == size,
                EngineAction::ApplyIntegrationMethod(m) => m == integration_method,
                EngineAction::RecomputeRamp(u) => u == use_gyroflows_keyframes,
                EngineAction::SetOverview(on) => on == overview,
                _ => true,
            },
{
    let mut actions: Vec<EngineAction> = Vec::new();
    let n: usize = steps.len();
    let mut i: usize = 0;
    while i < n
        invariant
            n == steps@.len(),
            i <= n,
            actions@.len() == i,
            forall|k: int| 0 <= k < i ==> (#[trigger] actions@[k]).step() == steps@[k],
            forall|k: int|
                0 <= k < i ==> match #[trigger] actions@[k] {
                    EngineAction::Resize(w, h) => (w, h) == size,
                    EngineAction::ApplyIntegrationMethod(m) => m == integration_method,
                    EngineAction::RecomputeRamp(u) => u == use_gyroflows_keyframes,
                    EngineAction::SetOverview(on) => on == overview,
                    _ => true,
                },
        decreases n - i,
    {
        let action = match steps[i] {
            EngineStep::Resize => EngineAction::Resize(size.0, size.1),
            EngineStep::ApplyIntegrationMethod => EngineAction::ApplyIntegrationMethod(
                integration_method,
            ),
            EngineStep::InvalidateSmoothing => EngineAction::InvalidateSmoothing,
            EngineStep::InvalidateZooming => EngineAction::InvalidateZooming,
            EngineStep::InvalidateUndistortion => EngineAction::InvalidateUndistortion,
            EngineStep::RecomputeRamp => EngineAction::RecomputeRamp(use_gyroflows_keyframes),
            EngineStep::SetOverview => EngineAction::SetOverview(overview),
        };
        actions.push(action);
        i = i + 1;
    }
    assert(steps_of(actions@) =~= steps@);
    actions
}

/// The whole part of `x` as a count that the machine can hold.
pub open spec fn counted(x: Fixed) -> usize {
    if whole_part(x) > usize::MAX {
        usize::MAX
    } else {
        whole_part(x) as usize
    }
}

/// The output size that a width and a height of the host stand for: their
/// whole parts.
pub open spec fn size_read(width: Fixed, height: Fixed) -> (usize, usize) {
    (counted(width), counted(height))
}

/// The writes that swap the output size: the height becomes the width, and
/// the width the height.
pub fn size_swap_writes(width: Fixed, height: Fixed) -> (writes: Vec<PortWrite>)
    ensures
        models(writes@) == seq![
            WriteModel::Number(Params::OutputWidth, height),
            WriteModel::Number(Params::OutputHeight, width),
        ],
{
    let mut writes: Vec<PortWrite> = Vec::new();
    writes.push(PortWrite::Number(Params::OutputWidth, height));
    writes.push(PortWrite::Number(Params::OutputHeight, width));
    assert(models(writes@) =~= seq![
        WriteModel::Number(Params::OutputWidth, height),
        WriteModel::Number(Params::OutputHeight, width),
    ]);
    writes
}

/// The writes that fit the output size to the timeline.
pub fn size_fit_writes(timeline_size: (usize, usize)) -> (writes: Vec<PortWrite>)
    ensures
        models(writes@) == seq![
            WriteModel::Number(Params::OutputWidth, whole(timeline_size.0 as int)),
            WriteModel::Number(Params::OutputHeight, whole(timeline_size.1 as int)),
        ],
{
    let width = Fixed::from_count(timeline_size.0);
    let height = Fixed::from_count(timeline_size.1);
    let mut writes: Vec<PortWrite> = Vec::new();
    writes.push(PortWrite::Number(Params::OutputWidth, width));
    writes.push(PortWrite::Number(Params::OutputHeight, height));
    assert(models(writes@) =~= seq![
        WriteModel::Number(Params::OutputWidth, width),
        WriteModel::Number(Params::OutputHeight, height),
    ]);
    writes
}

/// The values that the actions of an edit carry.
pub struct EditValues {
    pub size: (usize, usize),
    pub integration_method: Option<i32>,
    pub use_gyroflows_keyframes: bool,
    pub overview: bool,
}

/// Whether the user picked a lens file.
pub open spec fn lens_picked(outside: Outside) -> bool {
    outside.picked_lens matches Some(picked) && picked.path@.len() != 0
}

/// Whether taking over what the user picked writes to the host: the path
/// of a picked project, the contents of a picked lens file that could be
/// read, or the path of the project saved last.
pub open spec fn hands_over(param: Params, outside: Outside) -> bool {
    ||| param == Params::Browse && outside.picked_path@.len() != 0
    ||| param == Params::LoadLens && lens_picked(outside) && outside.picked_lens->0.contents is Some
    ||| param == Params::OpenRecentProject && outside.last_project@.len() != 0
}

/// Whether handling the edit may ask the host for anything. An edit that
/// asks nothing cannot fail.
pub open spec fn asks_host(param: Params, user_edited: bool, outside: Outside) -> bool {
    ||| hands_over(param, outside)
    ||| param == Params::IncludeProjectData
    ||| user_edited && (param.spec_sizes_output() || param.spec_recalculates() || param
        == Params::ToggleOverview)
}

/// Whether the first part of an edit lets go of the engine objects of the
/// instance: after a lens file was picked, and after the edit of a
/// parameter that drops them.
pub open spec fn takes_objects(param: Params, outside: Outside) -> bool {
    (param == Params::LoadLens && lens_picked(outside)) || param.spec_drops_objects()
}

/// Whether handling the edit may let go of engine objects, where
/// `ever_changed` says whether the instance was changed before: in the
/// first part of the edit; on the first edit by the user of what the engine
/// computes; and on an edit by the user of the interpolation. Any other
/// edit leaves both caches as they are.
pub open spec fn lets_go(param: Params, user_edited: bool, ever_changed: bool, outside: Outside) -> bool {
    ||| takes_objects(param, outside)
    ||| user_edited && param.spec_recalculates() && !ever_changed
    ||| user_edited && param == Params::Interpolation
}

/// The entries of others stay: every entry of `before` whose key is not a
/// key of `held` is an entry of `after`.
#[verifier::opaque]
pub open spec fn others_kept<V>(
    held: Seq<(Seq<char>, V)>,
    before: Seq<(Seq<char>, V)>,
    after: Seq<(Seq<char>, V)>,
) -> bool {
    forall|key: Seq<char>| has_key(before, key) && !has_key(held, key) ==> #[trigger] has_key(after, key)
}

/// Only the entries of others stay: the keys of `after` are the keys of
/// `before` that are not keys of `held`.
#[verifier::opaque]
pub open spec fn only_others_stay<V>(
    held: Seq<(Seq<char>, V)>,
    before: Seq<(Seq<char>, V)>,
    after: Seq<(Seq<char>, V)>,
) -> bool {
    forall|key: Seq<char>| #[trigger]
        has_key(after, key) <==> has_key(before, key) && !has_key(held, key)
}

/// Between `before` and `after` entries have left at most: every entry of
/// `after` was in `before`, with the same object.
#[verifier::opaque]
pub open spec fn only_left<V>(before: Seq<(Seq<char>, V)>, after: Seq<(Seq<char>, V)>) -> bool {
    forall|key: Seq<char>| #[trigger]
        has_key(after, key) ==> has_key(before, key) && lookup(after, key) == lookup(before, key)
}

impl<T> GyroflowPluginBaseInstance<T> {
    /// What every step of handling an edit keeps: the instance stays well
    /// formed and within its bound, entries of its cache leave at most, an
    /// instance that was marked as changed stays so, and of the settings
    /// only the flag that waits for the values of the project and the flag
    /// that marks the instance as changed are touched.
    pub open spec fn edited_from(&self, before: &Self) -> bool {
        &&& self.wf()
        &&& self.managers.capacity() == before.managers.capacity()
        &&& only_left(before.managers@, self.managers@)
        &&& before.ever_changed ==> self.ever_changed
        &&& self.settings() == (crate::instance::Settings {
            reload_values_from_project: self.reload_values_from_project,
            ever_changed: self.ever_changed,
            ..before.settings()
        })
    }

    /// Whether the keyframe table of the instance is what baking makes of
    /// some answers of the host, at the frame rate of the instance but at
    /// least at one frame per second.
    pub open spec fn keyframes_baked(&self) -> bool {
        exists|sources: Seq<crate::table::TagSource>|
            crate::table::sources_ok(sources) && crate::baking::sources_fit(
                sources,
                self.cache_keyframes_every_frame,
                self.num_frames,
            ) && #[trigger] crate::table::is_baked(
                &self.keyframable_params.cached_keyframes,
                sources,
                crate::loading::bake_rate(self.fps),
            )
    }

    /// First part of an edit: takes over a picked project, a picked lens
    /// file or the project saved last, and lets go of the engine objects
    /// where the edit asks for it.
    fn take_over<P: GyroflowPluginParams>(
        &mut self,
        params: &mut P,
        manager_cache: &mut ManagerCache<T>,
        param: Params,
        outside: &Outside,
    ) -> (done: PluginResult<()>)
        requires
            old(self).wf(),
            old(manager_cache).wf(),
        ensures
            final(self).edited_from(old(self)),
            final(manager_cache).wf(),
            final(manager_cache).capacity() == old(manager_cache).capacity(),
            only_left(old(manager_cache)@, final(manager_cache)@),
            final(self).ever_changed == old(self).ever_changed,
            final(self).keyframable_params == old(self).keyframable_params,
            !old(self).reload_values_from_project && final(self).reload_values_from_project ==> (
            param == Params::Browse || param == Params::LoadLens || param.spec_reloads_values()),
            old(self).reload_values_from_project ==> final(self).reload_values_from_project,
            param.spec_reloads_values() ==> final(self).reload_values_from_project,
            param.spec_drops_objects() ==> final(self).managers@.len() == 0,
            !hands_over(param, *outside) ==> done is Ok,
            others_kept(old(self).managers@, old(manager_cache)@, final(manager_cache)@),
            !takes_objects(param, *outside) ==> final(self).managers@ == old(self).managers@
                && final(manager_cache)@ == old(manager_cache)@,
    {
        proof {
            reveal(only_left);
            reveal(others_kept);
        }
        if matches!(param, Params::Browse) {
            if !outside.picked_path.as_str().is_empty() {
                match params.set_string(Params::ProjectPath, outside.picked_path.as_str()) {
                    Ok(_) => {},
                    Err(e) => {
                        return Err(e);
                    },
                }
                self.reload_values_from_project = true;
            }
        }
        if matches!(param, Params::LoadLens) {
            match &outside.picked_lens {
                Some(picked) => {
                    if !picked.path.as_str().is_empty() {
                        match &picked.contents {
                            Some(contents) => {
                                let target = lens_target(picked.path.as_str());
                                match params.set_string(target, contents.as_str()) {
                                    Ok(_) => {},
                                    Err(e) => {
                                        return Err(e);
                                    },
                                }
                                self.reload_values_from_project = true;
                            },
                            None => {},
                        }
                        self.clear_stab(manager_cache);
                    }
                },
                None => {},
            }
        }
        if matches!(param, Params::OpenRecentProject) {
            if !outside.last_project.as_str().is_empty() {
                match params.set_string(Params::ProjectPath, outside.last_project.as_str()) {
                    Ok(_) => {},
                    Err(e) => {
                        return Err(e);
                    },
                }
            }
        }
        if param.drops_objects() {
            if param.reloads_values() {
                self.reload_values_from_project = true;
            }
            self.clear_stab(manager_cache);
        }
        Ok(())
    }

    /// Third part of an edit by the user: swaps or fits the output size, and
    /// reads the size that the engine objects are to take. For a swap the
    /// width and the height are read and the writes of `size_swap_writes`
    /// sent; for a fit the writes of `size_fit_writes` for the size of the
    /// timeline. An instance that holds no engine object reads no size: its
    /// size is zero by zero, and an edit that neither swaps nor fits then
    /// succeeds without asking the host. Else the size is the whole parts of
    /// the width and the height that the host gives.
    fn resize<P: GyroflowPluginParams>(&self, params: &mut P, param: Params) -> (size: PluginResult<
        (usize, usize),
    >)
        ensures
            param != Params::OutputSizeSwap && param != Params::OutputSizeToTimeline
                && self.managers@.len() == 0 ==> size is Ok,
            size matches Ok(s) ==> if self.managers@.len() == 0 {
                s == (0usize, 0usize)
            } else {
                exists|width: Fixed, height: Fixed| #[trigger] size_read(width, height) == s
            },
    {
        if matches!(param, Params::OutputSizeSwap) {
            let w = match params.get_f64(Params::OutputWidth) {
                Ok(value) => value,
                Err(e) => {
                    return Err(e);
                },
            };
            let h = match params.get_f64(Params::OutputHeight) {
                Ok(value) => value,
                Err(e) => {
                    return Err(e);
                },
            };
            match send_until_refused(params, &size_swap_writes(w, h)) {
                Ok(_) => {},
                Err(e) => {
                    return Err(e);
                },
            }
        }
        if matches!(param, Params::OutputSizeToTimeline) {
            match send_until_refused(params, &size_fit_writes(self.timeline_size)) {
                Ok(_) => {},
                Err(e) => {
                    return Err(e);
                },
            }
        }
        if self.managers.len() > 0 {
            let w = match params.get_f64(Params::OutputWidth) {
                Ok(value) => value,
                Err(e) => {
                    return Err(e);
                },
            };
            let h = match params.get_f64(Params::OutputHeight) {
                Ok(value) => value,
                Err(e) => {
                    return Err(e);
                },
            };
            let s = (w.to_count(), h.to_count());
            assert(size_read(w, h) == s);
            Ok(s)
        } else {
            Ok((0, 0))
        }
    }

    /// Fourth part of an edit by the user, for a parameter that changes what
    /// the engine computes: on the first such edit the instance is marked as
    /// changed and gets an id of its own, and once the host has taken the id
    /// the instance lets go of its engine objects; the keyframes are baked
    /// anew. An instance that was changed before keeps its id and its
    /// objects. Returns whether the engine's own keyframes win, and the
    /// integration method if the edit was of that and the host can tell it.
    fn recalculate<P: GyroflowPluginParams>(
        &mut self,
        params: &mut P,
        manager_cache: &mut ManagerCache<T>,
        param: Params,
    ) -> (values: PluginResult<(bool, Option<i32>)>)
        requires
            old(self).wf(),
            old(manager_cache).wf(),
        ensures
            final(self).edited_from(old(self)),
            final(manager_cache).wf(),
            final(manager_cache).capacity() == old(manager_cache).capacity(),
            only_left(old(manager_cache)@, final(manager_cache)@),
            final(self).reload_values_from_project == old(self).reload_values_from_project,
            values is Ok && !old(self).ever_changed ==> final(self).managers@.len() == 0,
            old(self).managers@.len() == 0 ==> final(self).managers@.len() == 0,
            values is Ok ==> final(self).ever_changed,
            others_kept(old(self).managers@, old(manager_cache)@, final(manager_cache)@),
            old(self).ever_changed ==> final(self).managers@ == old(self).managers@
                && final(manager_cache)@ == old(manager_cache)@,
            final(self).keyframable_params == old(self).keyframable_params || final(self).keyframes_baked(),
            values matches Ok(v) ==> final(self).keyframes_baked()
                && final(self).keyframable_params.use_gyroflows_keyframes == v.0,
    {
        proof {
            reveal(only_left);
            reveal(others_kept);
        }
        match params.set_string(Params::Status, "Calculating...") {
            Ok(_) => {},
            Err(e) => {
                return Err(e);
            },
        }
        if !self.ever_changed {
            self.ever_changed = true;
            let id = decimal(random_u64());
            match params.set_string(Params::InstanceId, id.as_str()) {
                Ok(_) => {},
                Err(e) => {
                    return Err(e);
                },
            }
            self.clear_stab(manager_cache);
        }
        let use_gyroflows_keyframes = match params.get_bool(Params::UseGyroflowsKeyframes) {
            Ok(value) => value,
            Err(_) => false,
        };
        let rate = self.fps.at_least(Fixed { micros: 1_000_000 });
        let frames = self.num_frames;
        self.cache_keyframes(params, use_gyroflows_keyframes, frames, rate);
        proof {
            let sources = choose|sources: Seq<crate::table::TagSource>|
                crate::table::sources_ok(sources) && crate::baking::sources_fit(
                    sources,
                    self.cache_keyframes_every_frame,
                    frames,
                ) && #[trigger] crate::table::is_baked(
                    &self.keyframable_params.cached_keyframes,
                    sources,
                    rate,
                );
            assert(crate::table::is_baked(
                &self.keyframable_params.cached_keyframes,
                sources,
                crate::loading::bake_rate(self.fps),
            ));
            assert(self.keyframes_baked());
        }
        let mut integration_method: Option<i32> = None;
        if self.managers.len() > 0 && matches!(param, Params::IntegrationMethod) {
            integration_method = match params.get_i32(Params::IntegrationMethod) {
                Ok(value) => Some(value),
                Err(_) => None,
            };
        }
        match params.set_string(Params::Status, "OK") {
            Ok(_) => {},
            Err(e) => {
                return Err(e);
            },
        }
        Ok((use_gyroflows_keyframes, integration_method))
    }

    /// The parts of an edit that only an edit by the user has: the output
    /// size, the recalculation, the overview and the interpolation. After an
    /// edit of the interpolation every engine object of the instance has to
    /// be built anew: the instance lets go of them, and the entries of their
    /// keys leave the shared cache. The entries of other keys stay.
    fn user_edit<P: GyroflowPluginParams>(
        &mut self,
        params: &mut P,
        manager_cache: &mut ManagerCache<T>,
        param: Params,
    ) -> (values: PluginResult<EditValues>)
        requires
            old(self).wf(),
            old(manager_cache).wf(),
        ensures
            final(self).edited_from(old(self)),
            final(manager_cache).wf(),
            final(manager_cache).capacity() == old(manager_cache).capacity(),
            only_left(old(manager_cache)@, final(manager_cache)@),
            final(self).reload_values_from_project == old(self).reload_values_from_project,
            !old(self).ever_changed && final(self).ever_changed ==> param.spec_recalculates(),
            values is Ok && param.spec_recalculates() && !old(self).ever_changed
                ==> final(self).managers@.len() == 0,
            old(self).managers@.len() == 0 ==> final(self).managers@.len() == 0,
            values is Ok && param.spec_recalculates() ==> final(self).ever_changed,
            !(param.spec_sizes_output() || param.spec_recalculates() || param == Params::ToggleOverview)
                ==> values is Ok,
            param == Params::Interpolation ==> final(self).managers@.len() == 0 && only_others_stay(
                old(self).managers@,
                old(manager_cache)@,
                final(manager_cache)@,
            ),
            others_kept(old(self).managers@, old(manager_cache)@, final(manager_cache)@),
            !((param.spec_recalculates() && !old(self).ever_changed) || param == Params::Interpolation)
                ==> final(self).managers@ == old(self).managers@ && final(manager_cache)@ == old(
                manager_cache,
            )@,
            !param.spec_recalculates() ==> final(self).keyframable_params == old(self).keyframable_params,
            final(self).keyframable_params == old(self).keyframable_params || final(self).keyframes_baked(),
            values is Ok && param.spec_recalculates() ==> final(self).keyframes_baked()
                && final(self).keyframable_params.use_gyroflows_keyframes
                == values->Ok_0.use_gyroflows_keyframes,
    {
        proof {
            lemma_only_left_same(self.managers@);
            lemma_only_left_same(manager_cache@);
            lemma_others_kept_same(self.managers@, manager_cache@);
        }
        let mut values = EditValues {
            size: (0, 0),
            integration_method: None,
            use_gyroflows_keyframes: false,
            overview: false,
        };
        if param.sizes_output() {
            values.size = match self.resize(params, param) {
                Ok(value) => value,
                Err(e) => {
                    return Err(e);
                },
            };
        }
        if param.recalculates() {
            match self.recalculate(params, manager_cache, param) {
                Ok(v) => {
                    values.use_gyroflows_keyframes = v.0;
                    values.integration_method = v.1;
                },
                Err(e) => {
                    return Err(e);
                },
            }
        }
        if matches!(param, Params::ToggleOverview) {
            values.overview = match params.get_bool(Params::ToggleOverview) {
                Ok(value) => value,
                Err(e) => {
                    return Err(e);
                },
            };
        }
        if matches!(param, Params::Interpolation) {
            self.withdraw_objects(manager_cache);
            proof {
                reveal(only_left);
                reveal(others_kept);
                reveal(only_others_stay);
                lemma_only_left_nothing(old(self).managers@, self.managers@);
            }
        }
        Ok(values)
    }

    /// The parts of an edit, one after the other.
    fn handle_edit<P: GyroflowPluginParams>(
        &mut self,
        params: &mut P,
        manager_cache: &mut ManagerCache<T>,
        param: Params,
        user_edited: bool,
        outside: &Outside,
    ) -> (actions: PluginResult<Vec<EngineAction>>)
        requires
            old(self).wf(),
            old(manager_cache).wf(),
        ensures
            final(self).edited_from(old(self)),
            final(manager_cache).wf(),
            final(manager_cache).capacity() == old(manager_cache).capacity(),
            only_left(old(manager_cache)@, final(manager_cache)@),
            others_kept(old(self).managers@, old(manager_cache)@, final(manager_cache)@),
            !asks_host(param, user_edited, *outside) ==> actions is Ok,
            !lets_go(param, user_edited, old(self).ever_changed, *outside) ==> final(self).managers@
                == old(self).managers@ && final(manager_cache)@ == old(manager_cache)@,
            param.spec_drops_objects() ==> final(self).managers@.len() == 0,
            user_edited && param == Params::Interpolation ==> final(self).managers@.len() == 0
                && only_others_stay(old(self).managers@, old(manager_cache)@, final(manager_cache)@),
            actions is Ok && user_edited && param.spec_recalculates() && !old(self).ever_changed
                ==> final(self).managers@.len() == 0,
            !old(self).ever_changed && final(self).ever_changed ==> user_edited
                && param.spec_recalculates(),
            actions is Ok && user_edited && param.spec_recalculates() ==> final(self).ever_changed,
            !old(self).reload_values_from_project && final(self).reload_values_from_project ==> (
            param == Params::Browse || param == Params::LoadLens || param.spec_reloads_values()),
            old(self).reload_values_from_project ==> final(self).reload_values_from_project,
            param.spec_reloads_values() ==> final(self).reload_values_from_project,
            actions matches Ok(list) ==> if final(self).managers@.len() == 0 {
                list@.len() == 0
            } else {
                steps_of(list@) == engine_steps_model(param, user_edited)
            },
            !(user_edited && param.spec_recalculates()) ==> final(self).keyframable_params
                == old(self).keyframable_params,
            final(self).keyframable_params == old(self).keyframable_params || final(self).keyframes_baked(),
            actions is Ok && user_edited && param.spec_recalculates() ==> final(self).keyframes_baked(),
    {
        match self.take_over(params, manager_cache, param, outside) {
            Ok(_) => {},
            Err(e) => {
                return Err(e);
            },
        }
        if matches!(param, Params::IncludeProjectData) {
            match embed_project(params, outside) {
                Ok(_) => {},
                Err(e) => {
                    return Err(e);
                },
            }
        }
        let ghost taken = *self;
        let ghost shared_taken = manager_cache@;
        let mut values = EditValues {
            size: (0, 0),
            integration_method: None,
            use_gyroflows_keyframes: false,
            overview: false,
        };
        if user_edited {
            let edited = self.user_edit(params, manager_cache, param);
            proof {
                lemma_only_left_chains(old(self).managers@, taken.managers@, self.managers@);
                lemma_only_left_chains(old(manager_cache)@, shared_taken, manager_cache@);
                lemma_others_kept_chains(
                    old(self).managers@,
                    taken.managers@,
                    old(manager_cache)@,
                    shared_taken,
                    manager_cache@,
                );
            }
            match edited {
                Ok(v) => {
                    values = v;
                },
                Err(e) => {
                    return Err(e);
                },
            }
        }
        if self.managers.len() == 0 {
            Ok(Vec::new())
        } else {
            let steps = engine_steps(param, user_edited);
            Ok(
                actions_for(
                    &steps,
                    values.size,
                    values.integration_method,
                    values.use_gyroflows_keyframes,
                    values.overview,
                ),
            )
        }
    }

    /// Handles the edit of `param`.
    ///
    /// In this order: takes over a picked project, a picked lens file or the
    /// project saved last; lets go of the engine objects where the edit
    /// asks for it; updates the project data that the host carries; and, for
    /// an edit by the user, swaps or fits the output size, bakes the
    /// keyframes anew, and on the first edit of what the engine computes
    /// marks the instance as changed, gives it an id of its own and, once
    /// the host has taken the id, lets go of the engine objects, so that the
    /// edit does not reach objects shared with others. After an edit of the
    /// interpolation the instance lets go of its engine objects, and the
    /// entries of their keys leave the shared cache.
    ///
    /// Returns what is to be done to every engine object that the instance
    /// holds after the call: nothing if it holds none, else the actions of
    /// the steps of `engine_steps`. The call ends with the host's error at
    /// the first read or write that the host refuses and that the edit
    /// cannot do without; an edit that asks the host nothing succeeds.
    ///
    /// Whatever the host answers: the caches stay well formed and within
    /// their bounds; entries only ever leave the caches, and those that stay
    /// keep their objects; an entry of the shared cache under a key that the
    /// instance did not hold stays; an edit that lets go of nothing leaves
    /// both caches as they are; and of the settings only the flag that waits
    /// for the values of the project and the flag that marks the instance as
    /// changed are touched.
    pub fn param_changed<P: GyroflowPluginParams>(
        &mut self,
        params: &mut P,
        manager_cache: &mut ManagerCache<T>,
        param: Params,
        user_edited: bool,
        outside: &Outside,
    ) -> (actions: PluginResult<Vec<EngineAction>>)
        requires
            old(self).wf(),
            old(manager_cache).wf(),
        ensures
            final(self).edited_from(old(self)),
            final(manager_cache).wf(),
            final(manager_cache).capacity() == old(manager_cache).capacity(),
            only_left(old(manager_cache)@, final(manager_cache)@),
            forall|key: Seq<char>|
                has_key(old(manager_cache)@, key) && !has_key(old(self).managers@, key)
                    ==> #[trigger] has_key(final(manager_cache)@, key),
            forall|key: Seq<char>| #[trigger]
                has_key(final(manager_cache)@, key) ==> lookup(final(manager_cache)@, key) == lookup(
                    old(manager_cache)@,
                    key,
                ),
            !asks_host(param, user_edited, *outside) ==> actions is Ok,
            !lets_go(param, user_edited, old(self).ever_changed, *outside) ==> final(self).managers@
                == old(self).managers@ && final(manager_cache)@ == old(manager_cache)@,
            param.spec_drops_objects() ==> final(self).managers@.len() == 0,
            user_edited && param == Params::Interpolation ==> final(self).managers@.len() == 0 && (
            forall|key: Seq<char>| #[trigger]
                has_key(final(manager_cache)@, key) <==> has_key(old(manager_cache)@, key) && !has_key(
                    old(self).managers@,
                    key,
                )),
            actions is Ok && user_edited && param.spec_recalculates() && !old(self).ever_changed
                ==> final(self).managers@.len() == 0,
            !old(self).ever_changed && final(self).ever_changed ==> user_edited
                && param.spec_recalculates(),
            actions is Ok && user_edited && param.spec_recalculates() ==> final(self).ever_changed,
            !old(self).reload_values_from_project && final(self).reload_values_from_project ==> (
            param == Params::Browse || param == Params::LoadLens || param.spec_reloads_values()),
            old(self).reload_values_from_project ==> final(self).reload_values_from_project,
            param.spec_reloads_values() ==> final(self).reload_values_from_project,
            actions matches Ok(list) ==> if final(self).managers@.len() == 0 {
                list@.len() == 0
            } else {
                steps_of(list@) == engine_steps_model(param, user_edited)
            },
            !(user_edited && param.spec_recalculates()) ==> final(self).keyframable_params
                == old(self).keyframable_params,
            final(self).keyframable_params == old(self).keyframable_params || final(self).keyframes_baked(),
            actions is Ok && user_edited && param.spec_recalculates() ==> final(self).keyframes_baked(),
    {
        let actions = self.handle_edit(params, manager_cache, param, user_edited, outside);
        proof {
            lemma_others_keep_objects(old(self).managers@, old(manager_cache)@, manager_cache@);
            if user_edited && param == Params::Interpolation {
                reveal(only_others_stay);
            }
        }
        actions
    }
}

/// Second part of an edit of the switch that embeds the project: updates
/// the project data that the host carries.
fn embed_project<P: GyroflowPluginParams>(params: &mut P, outside: &Outside) -> (done: PluginResult<
    (),
>) {
    let path = match params.get_string(Params::ProjectPath) {
        Ok(value) => value,
        Err(e) => {
            return Err(e);
        },
    };
    let embed = match params.get_bool(Params::IncludeProjectData) {
        Ok(value) => value,
        Err(_) => false,
    };
    let is_project = ends_with(path.as_str(), ".gyroflow");
    match embedded_data(embed, is_project, &outside.project_file, &outside.exported) {
        Some(data) => params.set_string(Params::ProjectData, data.as_str()),
        None => Ok(()),
    }
}

/// Where nothing changed, the entries of others stayed.
pub proof fn lemma_others_kept_same<V>(held: Seq<(Seq<char>, V)>, a: Seq<(Seq<char>, V)>)
    ensures
        others_kept(held, a, a),
{
    reveal(others_kept);
}

/// The entries of others stay through two steps: what stays while
/// `held` is held, and then while `held_later` is held, which holds no
/// other keys than `held`, stays from the first to the last.
pub proof fn lemma_others_kept_chains<V>(
    held: Seq<(Seq<char>, V)>,
    held_later: Seq<(Seq<char>, V)>,
    a: Seq<(Seq<char>, V)>,
    b: Seq<(Seq<char>, V)>,
    c: Seq<(Seq<char>, V)>,
)
    requires
        others_kept(held, a, b),
        only_left(held, held_later),
        others_kept(held_later, b, c),
    ensures
        others_kept(held, a, c),
{
    reveal(others_kept);
    reveal(only_left);
    assert forall|key: Seq<char>| has_key(a, key) && !has_key(held, key) implies #[trigger] has_key(
        c,
        key,
    ) by {
        assert(has_key(b, key));
        assert(!has_key(held_later, key));
    }
}

/// What stays of others keeps its object: where entries left at most and
/// the entries of others stayed, every entry of `before` whose key is not a
/// key of `held` is an entry of `after`, with the same object.
pub proof fn lemma_others_keep_objects<V>(
    held: Seq<(Seq<char>, V)>,
    before: Seq<(Seq<char>, V)>,
    after: Seq<(Seq<char>, V)>,
)
    requires
        only_left(before, after),
        others_kept(held, before, after),
    ensures
        forall|key: Seq<char>|
            has_key(before, key) && !has_key(held, key) ==> #[trigger] has_key(after, key),
        forall|key: Seq<char>| #[trigger]
            has_key(after, key) ==> lookup(after, key) == lookup(before, key),
{
    reveal(only_left);
    reveal(others_kept);
}

/// Leaving twice is leaving: what only left from `a` to `b` and from `b` to
/// `c` only left from `a` to `c`.
pub proof fn lemma_only_left_chains<V>(
    a: Seq<(Seq<char>, V)>,
    b: Seq<(Seq<char>, V)>,
    c: Seq<(Seq<char>, V)>,
)
    requires
        only_left(a, b),
        only_left(b, c),
    ensures
        only_left(a, c),
{
    reveal(only_left);
    assert forall|key: Seq<char>| #[trigger] has_key(c, key) implies has_key(a, key) && lookup(
        c,
        key,
    ) == lookup(a, key) by {
        assert(has_key(b, key));
    }
}

/// Where nothing changed, entries only left.
pub proof fn lemma_only_left_same<V>(a: Seq<(Seq<char>, V)>)
    ensures
        only_left(a, a),
{
    reveal(only_left);
}

/// From anything to nothing, entries only left.
pub proof fn lemma_only_left_nothing<V>(a: Seq<(Seq<char>, V)>, b: Seq<(Seq<char>, V)>)
    requires
        b.len() == 0,
    ensures
        only_left(a, b),
{
    reveal(only_left);
    assert forall|key: Seq<char>| !has_key(b, key) by {}
}

} // verus!
