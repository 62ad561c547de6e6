//! What is decided while an engine object is built for a key that was not
//! cached.
//!
//! Loading a project and recomputing it is the engine's work. Around it the
//! core decides where the project data comes from, which values the project
//! hands back to the host, and what becomes of the instance once the engine
//! is done.

use crate::fixed::{saturate, whole, Fixed};
use crate::instance::{GyroflowPluginBaseInstance, Settings};
use crate::keyframes::{Keyframe, KeyframeType};
use crate::params::Params;
use crate::port::{models, send_until_refused, GyroflowPluginParams, PluginResult, PortWrite, WriteModel};
use crate::table::{is_baked, sources_ok, TagSource};
use crate::time::{frame_at_timestamp, nearest_frame, TimeType};
use vstd::prelude::*;
use vstd::string::StringExecFns;

verus! {

/// How the engine interpolates between pixels.
#[derive(Debug, Copy, Clone, PartialEq, Eq, Structural)]
pub enum Interpolation {
    Lanczos4,
    RobidouxSharp,
    Bilinear,
    Bicubic,
    Robidoux,
    Mitchell,
    CatmullRom,
}

impl Interpolation {
    /// The number the host stores for the method.
    pub open spec fn spec_index(self) -> i32 {
        match self {
            Interpolation::Lanczos4 => 0,
            Interpolation::RobidouxSharp => 1,
            Interpolation::Bilinear => 2,
            Interpolation::Bicubic => 3,
            Interpolation::Robidoux => 4,
            Interpolation::Mitchell => 5,
            Interpolation::CatmullRom => 6,
        }
    }

    /// The method for what the host stores: the method of that number, and
    /// the first method for any other number and for a choice that could
    /// not be read.
    pub open spec fn spec_from_choice(choice: Option<i32>) -> Interpolation {
        match choice {
            Some(1) => Interpolation::RobidouxSharp,
            Some(2) => Interpolation::Bilinear,
            Some(3) => Interpolation::Bicubic,
            Some(4) => Interpolation::Robidoux,
            Some(5) => Interpolation::Mitchell,
            Some(6) => Interpolation::CatmullRom,
            _ => Interpolation::Lanczos4,
        }
    }

    /// The number the host stores for the method.
    pub fn index(self) -> (i: i32)
        ensures
            i == self.spec_index(),
    {
        match self {
            Interpolation::Lanczos4 => 0,
            Interpolation::RobidouxSharp => 1,
            Interpolation::Bilinear => 2,
            Interpolation::Bicubic => 3,
            Interpolation::Robidoux => 4,
            Interpolation::Mitchell => 5,
            Interpolation::CatmullRom => 6,
        }
    }

    /// The method for what the host stores.
    pub fn from_choice(choice: Option<i32>) -> (method: Interpolation)
        ensures
            method == Self::spec_from_choice(choice),
    {
        match choice {
            Some(1) => Interpolation::RobidouxSharp,
            Some(2) => Interpolation::Bilinear,
            Some(3) => Interpolation::Bicubic,
            Some(4) => Interpolation::Robidoux,
            Some(5) => Interpolation::Mitchell,
            Some(6) => Interpolation::CatmullRom,
            _ => Interpolation::Lanczos4,
        }
    }
}

/// Every method comes back from the number the host stores for it.
pub proof fn law_interpolation_round_trip(method: Interpolation)
    ensures
        Interpolation::spec_from_choice(Some(method.spec_index())) == method,
{
}

/// The rotation that undoes the rotation `degrees` stored in a video file,
/// in degrees: nothing for a file that is not rotated.
pub open spec fn counter_rotation(degrees: i32) -> Option<int> {
    if degrees == 0 {
        None
    } else if degrees <= 360 {
        Some((360 - degrees) % 360)
    } else {
        Some(-((degrees - 360) % 360))
    }
}

/// The input rotation to set for a video file that stores the rotation
/// `degrees`, while the values of the project are still to be read: the
/// rotation that undoes it. Nothing for a file that is not rotated, and
/// nothing once the values were read.
pub fn input_rotation(degrees: i32, reload_values: bool) -> (rotation: Option<Fixed>)
    ensures
        rotation is Some <==> reload_values && degrees != 0,
        rotation is Some ==> rotation->0 == whole(counter_rotation(degrees)->0),
{
    if degrees == 0 || !reload_values {
        None
    } else {
        let wide: i64 = 360 - (degrees as i64);
        let turned: i64 = if wide >= 0 {
            wide % 360
        } else {
            -((-wide) % 360)
        };
        Some(Fixed::from_whole(turned))
    }
}

/// Where the data of a project file comes from.
#[derive(Debug, Copy, Clone, PartialEq, Eq, Structural)]
pub enum ProjectDataSource {
    /// From the copy that the host carries.
    Embedded,
    /// From the project file.
    File,
}

/// Where the data of a project file comes from: from the copy that the host
/// carries if it is to carry one and does; else from the file.
pub fn project_data_source(include_project_data: bool, embedded: &str) -> (source:
    ProjectDataSource)
    ensures
        source == if include_project_data && embedded@.len() != 0 {
            ProjectDataSource::Embedded
        } else {
            ProjectDataSource::File
        },
{
    if include_project_data && !embedded.is_empty() {
        ProjectDataSource::Embedded
    } else {
        ProjectDataSource::File
    }
}

/// What the host is to carry after the project file was read: the data of
/// the file if it is to carry the project, and nothing if not.
pub fn carried_after_read(include_project_data: bool, file_data: &str) -> (write: PortWrite)
    ensures
        write@ == WriteModel::Text(
            Params::ProjectData,
            if include_project_data {
                file_data@
            } else {
                Seq::<char>::empty()
            },
        ),
{
    if include_project_data {
        PortWrite::Text(Params::ProjectData, String::from_str(file_data))
    } else {
        PortWrite::Text(Params::ProjectData, String::new())
    }
}

/// What a media file that the engine could not load falls back on.
#[derive(Debug, Copy, Clone, PartialEq, Eq, Structural)]
pub enum MediaFallback {
    /// The project data that the host carries is imported instead.
    ImportEmbedded,
    /// There is nothing to fall back on: the load failed.
    Fail,
}

/// What a media file that the engine could not load falls back on: the
/// project data that the host carries, if it carries any.
pub fn media_fallback(embedded: &str) -> (fallback: MediaFallback)
    ensures
        fallback == if embedded@.len() != 0 {
            MediaFallback::ImportEmbedded
        } else {
            MediaFallback::Fail
        },
{
    if !embedded.is_empty() {
        MediaFallback::ImportEmbedded
    } else {
        MediaFallback::Fail
    }
}

/// Whether the speed ramp is computed backwards: always, unless the
/// engine's own keyframes win and the engine has some for the video speed.
pub fn ramp_inverse(use_gyroflows_keyframes: bool, speed_keyframed_internally: bool) -> (inverse:
    bool)
    ensures
        inverse == !(use_gyroflows_keyframes && speed_keyframed_internally),
{
    !(use_gyroflows_keyframes && speed_keyframed_internally)
}

/// The values that a project stores, in the engine's units.
pub struct ProjectDefaults {
    pub fov: Fixed,
    pub smoothness: Fixed,
    pub max_zoom: Option<Fixed>,
    pub lens_correction_amount: Fixed,
    pub horizon_lock_enabled: bool,
    pub horizon_lock_percent: Fixed,
    pub horizon_roll: Fixed,
    pub video_speed: Fixed,
    pub additional_rotation: (Fixed, Fixed),
    pub video_rotation: Fixed,
    pub integration_method: i32,
    pub interpolation: Interpolation,
    pub has_keyframes: bool,
    pub preset_name: Option<String>,
    pub lens_name: String,
}

/// What the engine knows of a project once it is loaded.
pub struct ProjectInfo {
    pub video_size: (usize, usize),
    pub output_size: (usize, usize),
    pub frame_count: usize,
    pub fps: Fixed,
    pub duration_ms: Fixed,
    pub has_motion: bool,
    pub defaults: ProjectDefaults,
}

/// `x` times `factor`, clamped.
pub open spec fn times(x: Fixed, factor: int) -> Fixed {
    Fixed { micros: saturate(x.micros as int * factor) }
}

/// The smaller of `x` and one hundred.
pub open spec fn capped_percent(x: Fixed) -> Fixed {
    if x.micros <= 100_000_000 {
        x
    } else {
        Fixed { micros: 100_000_000 }
    }
}

/// The writes that hand the values of a project to the host, in the host's
/// units: fractions become percentages, the lens correction is capped at a
/// hundred percent, and the horizon lock reads zero while it is off.
pub open spec fn defaults_model(d: &ProjectDefaults, output_size: (usize, usize)) -> Seq<
    WriteModel,
> {
    seq![
        WriteModel::Number(Params::Fov, d.fov),
        WriteModel::Number(Params::Smoothness, times(d.smoothness, 100)),
        WriteModel::Number(
            Params::ZoomLimit,
            match d.max_zoom {
                Some(z) => z,
                None => Fixed { micros: 0 },
            },
        ),
        WriteModel::Number(
            Params::LensCorrectionStrength,
            capped_percent(times(d.lens_correction_amount, 100)),
        ),
        WriteModel::Number(
            Params::HorizonLockAmount,
            if d.horizon_lock_enabled {
                d.horizon_lock_percent
            } else {
                Fixed { micros: 0 }
            },
        ),
        WriteModel::Number(
            Params::HorizonLockRoll,
            if d.horizon_lock_enabled {
                d.horizon_roll
            } else {
                Fixed { micros: 0 }
            },
        ),
        WriteModel::Number(Params::VideoSpeed, times(d.video_speed, 100)),
        WriteModel::Number(Params::AdditionalYaw, d.additional_rotation.0),
        WriteModel::Number(Params::AdditionalPitch, d.additional_rotation.1),
        WriteModel::Number(Params::Rotation, d.video_rotation),
        WriteModel::Choice(Params::IntegrationMethod, d.integration_method),
        WriteModel::Number(Params::OutputWidth, whole(output_size.0 as int)),
        WriteModel::Number(Params::OutputHeight, whole(output_size.1 as int)),
        WriteModel::Choice(Params::Interpolation, d.interpolation.spec_index()),
        WriteModel::Flag(Params::UseGyroflowsKeyframes, d.has_keyframes),
    ] + (match d.preset_name {
        Some(name) => seq![WriteModel::Text(Params::LoadedPreset, name@)],
        None => Seq::<WriteModel>::empty(),
    }) + seq![WriteModel::Text(Params::LoadedLens, d.lens_name@)]
}

/// The write that replays one keyframe of a project into the host: the
/// value in the host's unit, at the whole frame nearest to its time.
pub open spec fn replayed_key(tag: KeyframeType, key: Keyframe, fps: Fixed) -> WriteModel {
    WriteModel::NumberAtTime(
        tag.spec_param(),
        TimeType::Frame(whole(nearest_frame(key.timestamp_us, fps) as int)),
        times(key.value, tag.spec_scale()),
    )
}

/// The writes that replay the keyframes of one tag of a project into the
/// host: none for a tag without keyframes; else the host's keyframes are
/// cleared and every keyframe of the project is set.
pub open spec fn replay_model(tag: KeyframeType, keys: Seq<Keyframe>, fps: Fixed) -> Seq<
    WriteModel,
> {
    if keys.len() == 0 {
        Seq::<WriteModel>::empty()
    } else {
        seq![WriteModel::ClearKeyframes(tag.spec_param())] + Seq::new(
            keys.len(),
            |i: int| replayed_key(tag, keys[i], fps),
        )
    }
}

/// The writes that hand the values of a project to the host.
pub fn default_writes(d: &ProjectDefaults, output_size: (usize, usize)) -> (writes: Vec<PortWrite>)
    ensures
        models(writes@) == defaults_model(d, output_size),
{
    let zero = Fixed { micros: 0 };
    let mut writes: Vec<PortWrite> = Vec::new();
    writes.push(PortWrite::Number(Params::Fov, d.fov));
    writes.push(PortWrite::Number(Params::Smoothness, d.smoothness.times(100)));
    writes.push(
        PortWrite::Number(
            Params::ZoomLimit,
            match d.max_zoom {
                Some(z) => z,
                None => zero,
            },
        ),
    );
    writes.push(
        PortWrite::Number(
            Params::LensCorrectionStrength,
            d.lens_correction_amount.times(100).at_most(Fixed { micros: 100_000_000 }),
        ),
    );
    writes.push(
        PortWrite::Number(
            Params::HorizonLockAmount,
            if d.horizon_lock_enabled {
                d.horizon_lock_percent
            } else {
                zero
            },
        ),
    );
    writes.push(
        PortWrite::Number(
            Params::HorizonLockRoll,
            if d.horizon_lock_enabled {
                d.horizon_roll
            } else {
                zero
            },
        ),
    );
    writes.push(PortWrite::Number(Params::VideoSpeed, d.video_speed.times(100)));
    writes.push(PortWrite::Number(Params::AdditionalYaw, d.additional_rotation.0));
    writes.push(PortWrite::Number(Params::AdditionalPitch, d.additional_rotation.1));
    writes.push(PortWrite::Number(Params::Rotation, d.video_rotation));
    writes.push(PortWrite::Choice(Params::IntegrationMethod, d.integration_method));
    writes.push(PortWrite::Number(Params::OutputWidth, Fixed::from_count(output_size.0)));
    writes.push(PortWrite::Number(Params::OutputHeight, Fixed::from_count(output_size.1)));
    writes.push(PortWrite::Choice(Params::Interpolation, d.interpolation.index()));
    writes.push(PortWrite::Flag(Params::UseGyroflowsKeyframes, d.has_keyframes));
    match &d.preset_name {
        Some(name) => {
            writes.push(PortWrite::Text(Params::LoadedPreset, name.clone()));
        },
        None => {},
    }
    writes.push(PortWrite::Text(Params::LoadedLens, d.lens_name.clone()));
    assert(models(writes@) =~= defaults_model(d, output_size));
    writes
}

/// The writes that replay the keyframes of one tag of a project into the
/// host.
pub fn replay_writes(tag: KeyframeType, keys: &Vec<Keyframe>, fps: Fixed) -> (writes: Vec<
    PortWrite,
>)
    ensures
        models(writes@) == replay_model(tag, keys@, fps),
{
    let mut writes: Vec<PortWrite> = Vec::new();
    let n: usize = keys.len();
    if n == 0 {
        assert(models(writes@) =~= replay_model(tag, keys@, fps));
        return writes;
    }
    let param = tag.param();
    let scale = tag.scale();
    writes.push(PortWrite::ClearKeyframes(param));
    let mut i: usize = 0;
    while i < n
        invariant
            n == keys@.len(),
            i <= n,
            param == tag.spec_param(),
            scale == tag.spec_scale(),
            writes@.len() == i + 1,
            writes@[0]@ == WriteModel::ClearKeyframes(param),
            forall|k: int|
                1 <= k <= i ==> (#[trigger] writes@[k])@ == replayed_key(tag, keys@[k - 1], fps),
        decreases n - i,
    {
        let frame = frame_at_timestamp(keys[i].timestamp_us, fps);
        writes.push(
            PortWrite::NumberAtTime(
                param,
                TimeType::Frame(Fixed::from_whole(frame)),
                keys[i].value.times(scale),
            ),
        );
        i = i + 1;
    }
    assert(models(writes@) =~= replay_model(tag, keys@, fps));
    writes
}

/// Whether a project of this duration counts as loaded.
pub open spec fn is_loaded(duration_ms: Fixed) -> bool {
    duration_ms.micros > 0
}

impl<T> GyroflowPluginBaseInstance<T> {
    /// Takes over what the engine knows of a project that it just loaded,
    /// and tells whether the values of the project are to be handed to the
    /// host now. They are handed over once: when the project counts as
    /// loaded and the instance still waits for them. The instance stops
    /// waiting with this call.
    pub fn take_project(&mut self, info: &ProjectInfo) -> (hand_over: bool)
        ensures
            hand_over == (is_loaded(info.duration_ms) && old(self).reload_values_from_project),
            final(self).managers == old(self).managers,
            final(self).keyframable_params == old(self).keyframable_params,
            final(self).settings() == (Settings {
                original_video_size: info.video_size,
                original_output_size: info.output_size,
                num_frames: info.frame_count,
                fps: info.fps,
                reload_values_from_project: old(self).reload_values_from_project && !is_loaded(
                    info.duration_ms,
                ),
                ..old(self).settings()
            }),
    {
        self.original_video_size = info.video_size;
        self.original_output_size = info.output_size;
        self.num_frames = info.frame_count;
        self.fps = info.fps;
        let loaded = info.duration_ms.micros > 0;
        if loaded && self.reload_values_from_project {
            self.reload_values_from_project = false;
            true
        } else {
            false
        }
    }

    /// Finishes the loading of a project on the side of the host.
    ///
    /// Takes over what the engine knows of the project (`take_project`).
    /// If the values of the project are to be handed to the host, sends the
    /// writes of `default_writes` and then those of `replay` and stops with
    /// the host's error at the first write that the host refuses. Then bakes
    /// the keyframe table at the frame rate of the project, but at least at
    /// one frame per second, notes whether the project has motion data, and
    /// shows in the host whether the project counts as loaded, which is
    /// also what the call returns. Where no values are handed over the call
    /// cannot fail.
    pub fn project_loaded<P: GyroflowPluginParams>(
        &mut self,
        params: &mut P,
        info: &ProjectInfo,
        replay: &Vec<PortWrite>,
    ) -> (loaded: PluginResult<bool>)
        ensures
            final(self).managers == old(self).managers,
            !(is_loaded(info.duration_ms) && old(self).reload_values_from_project) ==> loaded is Ok,
            loaded matches Ok(l) ==> l == is_loaded(info.duration_ms),
            final(self).settings() == (Settings {
                original_video_size: info.video_size,
                original_output_size: info.output_size,
                num_frames: info.frame_count,
                fps: info.fps,
                reload_values_from_project: old(self).reload_values_from_project && !is_loaded(
                    info.duration_ms,
                ),
                has_motion: if loaded is Ok {
                    info.has_motion
                } else {
                    old(self).has_motion
                },
                ..old(self).settings()
            }),
            loaded is Err ==> final(self).keyframable_params == old(self).keyframable_params,
            loaded is Ok ==> final(self).keyframable_params.cached_keyframes.wf() && exists|
                sources: Seq<TagSource>,
            |
                sources_ok(sources) && #[trigger] is_baked(
                    &final(self).keyframable_params.cached_keyframes,
                    sources,
                    bake_rate(info.fps),
                ),
    {
        let hand_over = self.take_project(info);
        if hand_over {
            let writes = default_writes(&info.defaults, info.output_size);
            match send_until_refused(params, &writes) {
                Ok(_) => {},
                Err(e) => {
                    return Err(e);
                },
            }
            match send_until_refused(params, replay) {
                Ok(_) => {},
                Err(e) => {
                    return Err(e);
                },
            }
        }
        let use_gyroflows_keyframes = match params.get_bool(Params::UseGyroflowsKeyframes) {
            Ok(value) => value,
            Err(_) => false,
        };
        let rate = info.fps.at_least(Fixed { micros: 1_000_000 });
        self.cache_keyframes(params, use_gyroflows_keyframes, info.frame_count, rate);
        let ghost sources = choose|sources: Seq<TagSource>|
            sources_ok(sources) && #[trigger] is_baked(
                &self.keyframable_params.cached_keyframes,
                sources,
                rate,
            );
        self.has_motion = info.has_motion;
        let loaded = info.duration_ms.micros > 0;
        self.update_loaded_state(params, loaded);
        assert(is_baked(&self.keyframable_params.cached_keyframes, sources, bake_rate(info.fps)));
        Ok(loaded)
    }
}

/// One thing to do to an engine object that was just loaded, before it is
/// stored.
#[derive(Debug, Copy, Clone, PartialEq, Eq, Structural)]
pub enum EngineSetup {
    /// Disable the stretch of the lens; whether the size is adjusted.
    DisableLensStretch(bool),
    SetOverview(bool),
    SetFramebufferInverted(bool),
    InitSize,
    SetOutputSize(usize, usize),
    /// Install the provider of the host's keyframes.
    InstallProvider,
    ApplyIntegrationMethod(i32),
    InvalidateSmoothing,
    /// Recompute everything, and wait for it.
    RecomputeBlocking,
    /// Recalculate the timestamps of the speed ramp, given whether the
    /// engine's own keyframes win.
    RecomputeRamp(bool),
}

/// What the host says of how an engine object is to be set up.
#[derive(Debug, Copy, Clone, PartialEq, Eq, Structural)]
pub struct SetupValues {
    pub disable_stretch: bool,
    pub anamorphic_adjust_size: bool,
    pub overview: bool,
    pub framebuffer_inverted: bool,
    pub output_width: usize,
    pub output_height: usize,
    /// The integration method, if the host can tell it.
    pub integration_method: Option<i32>,
    pub use_gyroflows_keyframes: bool,
}

/// What is done, in this order, to an engine object that was just loaded:
/// the stretch of the lens is disabled if asked for; the overview, the
/// orientation of the frame buffer and the sizes are set; the provider of
/// the host's keyframes is installed; the integration method is taken over
/// if it is known; and then everything is recomputed, and the speed ramp
/// after it.
pub open spec fn setup_model(v: SetupValues) -> Seq<EngineSetup> {
    (if v.disable_stretch {
        seq![EngineSetup::DisableLensStretch(v.anamorphic_adjust_size)]
    } else {
        Seq::<EngineSetup>::empty()
    }) + seq![
        EngineSetup::SetOverview(v.overview),
        EngineSetup::SetFramebufferInverted(v.framebuffer_inverted),
        EngineSetup::InitSize,
        EngineSetup::SetOutputSize(v.output_width, v.output_height),
        EngineSetup::InstallProvider,
    ] + (match v.integration_method {
        Some(m) => seq![EngineSetup::ApplyIntegrationMethod(m)],
        None => Seq::<EngineSetup>::empty(),
    }) + seq![
        EngineSetup::InvalidateSmoothing,
        EngineSetup::RecomputeBlocking,
        EngineSetup::RecomputeRamp(v.use_gyroflows_keyframes),
    ]
}

/// What is done, in this order, to an engine object that was just loaded.
pub fn setup_steps(v: SetupValues) -> (steps: Vec<EngineSetup>)
    ensures
        steps@ == setup_model(v),
{
    let mut steps: Vec<EngineSetup> = Vec::new();
    if v.disable_stretch {
        steps.push(EngineSetup::DisableLensStretch(v.anamorphic_adjust_size));
    }
    steps.push(EngineSetup::SetOverview(v.overview));
    steps.push(EngineSetup::SetFramebufferInverted(v.framebuffer_inverted));
    steps.push(EngineSetup::InitSize);
    steps.push(EngineSetup::SetOutputSize(v.output_width, v.output_height));
    steps.push(EngineSetup::InstallProvider);
    match v.integration_method {
        Some(m) => {
            steps.push(EngineSetup::ApplyIntegrationMethod(m));
        },
        None => {},
    }
    steps.push(EngineSetup::InvalidateSmoothing);
    steps.push(EngineSetup::RecomputeBlocking);
    steps.push(EngineSetup::RecomputeRamp(v.use_gyroflows_keyframes));
    assert(steps@ =~= setup_model(v));
    steps
}

impl<T> GyroflowPluginBaseInstance<T> {
    /// Reads from the host how an engine object that was just loaded is to
    /// be set up, and returns what is to be done to it: the steps of
    /// `setup_steps` for what the host said. The call ends with the host's
    /// error if the overview switch, the output size or the choice whose
    /// keyframes win cannot be read.
    pub fn setup_for<P: GyroflowPluginParams>(&self, params: &P, disable_stretch: bool) -> (steps:
        PluginResult<Vec<EngineSetup>>)
        ensures
            steps matches Ok(list) ==> exists|v: SetupValues|
                #[trigger] setup_model(v) == list@ && v.disable_stretch == disable_stretch
                    && v.anamorphic_adjust_size == self.anamorphic_adjust_size
                    && v.framebuffer_inverted == self.framebuffer_inverted,
    {
        let overview = match params.get_bool(Params::ToggleOverview) {
            Ok(value) => value,
            Err(e) => {
                return Err(e);
            },
        };
        let width = match params.get_f64(Params::OutputWidth) {
            Ok(value) => value,
            Err(e) => {
                return Err(e);
            },
        };
        let height = match params.get_f64(Params::OutputHeight) {
            Ok(value) => value,
            Err(e) => {
                return Err(e);
            },
        };
        let integration_method = match params.get_i32(Params::IntegrationMethod) {
            Ok(value) => Some(value),
            Err(_) => None,
        };
        let use_gyroflows_keyframes = match params.get_bool(Params::UseGyroflowsKeyframes) {
            Ok(value) => value,
            Err(e) => {
                return Err(e);
            },
        };
        let values = SetupValues {
            disable_stretch,
            anamorphic_adjust_size: self.anamorphic_adjust_size,
            overview,
            framebuffer_inverted: self.framebuffer_inverted,
            output_width: width.to_count(),
            output_height: height.to_count(),
            integration_method,
            use_gyroflows_keyframes,
        };
        let list = setup_steps(values);
        assert(setup_model(values) == list@);
        Ok(list)
    }
}

/// The frame rate at which a table is baked: the rate of the project, but
/// at least one frame per second.
pub open spec fn bake_rate(fps: Fixed) -> Fixed {
    if fps.micros >= 1_000_000 {
        fps
    } else {
        Fixed { micros: 1_000_000 }
    }
}

} // verus!
