use gyroflow_plugin_base::fixed::Fixed;
use gyroflow_plugin_base::instance::GyroflowPluginBaseInstance;
use gyroflow_plugin_base::keyframes::{Keyframe, KeyframeType};
use gyroflow_plugin_base::loading::{
    carried_after_read, default_writes, input_rotation, media_fallback, project_data_source,
    ramp_inverse, replay_writes, setup_steps, EngineSetup, Interpolation, MediaFallback,
    ProjectDataSource, ProjectDefaults, ProjectInfo, SetupValues,
};
use gyroflow_plugin_base::params::Params;
use gyroflow_plugin_base::port::{
    send, send_all, send_until_refused, GyroflowPluginParams, PluginError, PluginResult, PortWrite,
};
use gyroflow_plugin_base::status::{loaded_state_writes, status_writes};
use gyroflow_plugin_base::time::TimeType;

fn px(micros: i64) -> Fixed {
    Fixed { micros }
}

/// A host that records every write and refuses those to one parameter.
struct WriteLog {
    log: Vec<PortWrite>,
    refused: Option<Params>,
    status: String,
    use_engine_keyframes: PluginResult<bool>,
}

impl WriteLog {
    fn new() -> Self {
        WriteLog { log: Vec::new(), refused: None, status: String::new(), use_engine_keyframes: Ok(false) }
    }

    fn take(&mut self, param: Params, write: PortWrite) -> PluginResult<()> {
        if self.refused == Some(param) {
            return Err(PluginError::ParameterAccessFailed("refused".to_string()));
        }
        self.log.push(write);
        Ok(())
    }
}

impl GyroflowPluginParams for WriteLog {
    fn set_enabled(&mut self, p: Params, v: bool) -> PluginResult<()> {
        self.take(p, PortWrite::Enabled(p, v))
    }
    fn set_label(&mut self, p: Params, v: &str) -> PluginResult<()> {
        self.take(p, PortWrite::Label(p, v.to_string()))
    }
    fn set_hint(&mut self, p: Params, v: &str) -> PluginResult<()> {
        self.take(p, PortWrite::Hint(p, v.to_string()))
    }
    fn set_f64(&mut self, p: Params, v: Fixed) -> PluginResult<()> {
        self.take(p, PortWrite::Number(p, v))
    }
    fn get_f64(&self, _: Params) -> PluginResult<Fixed> {
        Ok(px(7_000_000))
    }
    fn get_f64_at_time(&self, _: Params, _: TimeType) -> PluginResult<Fixed> {
        Ok(px(7_000_000))
    }
    fn set_bool(&mut self, p: Params, v: bool) -> PluginResult<()> {
        self.take(p, PortWrite::Flag(p, v))
    }
    fn get_bool(&self, _: Params) -> PluginResult<bool> {
        self.use_engine_keyframes.clone()
    }
    fn get_bool_at_time(&self, _: Params, _: TimeType) -> PluginResult<bool> {
        Ok(false)
    }
    fn set_string(&mut self, p: Params, v: &str) -> PluginResult<()> {
        self.take(p, PortWrite::Text(p, v.to_string()))?;
        if p == Params::Status {
            self.status = v.to_string();
        }
        Ok(())
    }
    fn get_string(&self, p: Params) -> PluginResult<String> {
        if p == Params::Status {
            Ok(self.status.clone())
        } else {
            Err(PluginError::ParameterAccessFailed("no text".to_string()))
        }
    }
    fn set_i32(&mut self, p: Params, v: i32) -> PluginResult<()> {
        self.take(p, PortWrite::Choice(p, v))
    }
    fn get_i32(&self, _: Params) -> PluginResult<i32> {
        Ok(0)
    }
    fn is_keyframed(&self, _: Params) -> bool {
        false
    }
    fn get_keyframes(&self, _: Params) -> Vec<(TimeType, Fixed)> {
        Vec::new()
    }
    fn clear_keyframes(&mut self, p: Params) -> PluginResult<()> {
        self.take(p, PortWrite::ClearKeyframes(p))
    }
    fn set_f64_at_time(&mut self, p: Params, t: TimeType, v: Fixed) -> PluginResult<()> {
        self.take(p, PortWrite::NumberAtTime(p, t, v))
    }
}

fn sample_defaults() -> ProjectDefaults {
    ProjectDefaults {
        fov: px(1_200_000),
        smoothness: px(500_000),
        max_zoom: Some(px(130_000_000)),
        lens_correction_amount: px(850_000),
        horizon_lock_enabled: true,
        horizon_lock_percent: px(80_000_000),
        horizon_roll: px(-3_000_000),
        video_speed: px(1_000_000),
        additional_rotation: (px(2_000_000), px(-1_000_000)),
        video_rotation: px(90_000_000),
        integration_method: 2,
        interpolation: Interpolation::Bicubic,
        has_keyframes: true,
        preset_name: Some("Smooth".to_string()),
        lens_name: "Wide".to_string(),
    }
}

fn sample_info(duration_ms: i64) -> ProjectInfo {
    ProjectInfo {
        video_size: (3840, 2160),
        output_size: (1920, 1080),
        frame_count: 250,
        fps: px(25_000_000),
        duration_ms: px(duration_ms),
        has_motion: true,
        defaults: sample_defaults(),
    }
}

fn expected_default_writes() -> Vec<PortWrite> {
    vec![
        PortWrite::Number(Params::Fov, px(1_200_000)),
        PortWrite::Number(Params::Smoothness, px(50_000_000)),
        PortWrite::Number(Params::ZoomLimit, px(130_000_000)),
        PortWrite::Number(Params::LensCorrectionStrength, px(85_000_000)),
        PortWrite::Number(Params::HorizonLockAmount, px(80_000_000)),
        PortWrite::Number(Params::HorizonLockRoll, px(-3_000_000)),
        PortWrite::Number(Params::VideoSpeed, px(100_000_000)),
        PortWrite::Number(Params::AdditionalYaw, px(2_000_000)),
        PortWrite::Number(Params::AdditionalPitch, px(-1_000_000)),
        PortWrite::Number(Params::Rotation, px(90_000_000)),
        PortWrite::Choice(Params::IntegrationMethod, 2),
        PortWrite::Number(Params::OutputWidth, px(1_920_000_000)),
        PortWrite::Number(Params::OutputHeight, px(1_080_000_000)),
        PortWrite::Choice(Params::Interpolation, 3),
        PortWrite::Flag(Params::UseGyroflowsKeyframes, true),
        PortWrite::Text(Params::LoadedPreset, "Smooth".to_string()),
        PortWrite::Text(Params::LoadedLens, "Wide".to_string()),
    ]
}

#[test]
fn loaded_state_enables_every_gated_control() {
    let writes = loaded_state_writes(true);
    assert_eq!(writes.len(), 20);
    let gated = [
        Params::Fov,
        Params::Smoothness,
        Params::ZoomLimit,
        Params::LensCorrectionStrength,
        Params::HorizonLockAmount,
        Params::HorizonLockRoll,
        Params::AdditionalPitch,
        Params::AdditionalYaw,
        Params::Rotation,
        Params::VideoSpeed,
        Params::DisableStretch,
        Params::IntegrationMethod,
        Params::ToggleOverview,
        Params::ReloadProject,
        Params::OutputWidth,
        Params::OutputHeight,
        Params::OutputSizeToTimeline,
        Params::OutputSizeSwap,
    ];
    for (i, param) in gated.iter().enumerate() {
        assert_eq!(writes[i], PortWrite::Enabled(*param, true));
    }
    assert_eq!(writes[18], PortWrite::Text(Params::Status, "OK".to_string()));
    assert_eq!(writes[19], PortWrite::Label(Params::OpenGyroflow, "Open in Gyroflow".to_string()));
}

#[test]
fn unloaded_state_disables_every_gated_control() {
    let writes = loaded_state_writes(false);
    assert_eq!(writes.len(), 20);
    assert!(writes[..18].iter().all(|w| matches!(w, PortWrite::Enabled(_, false))));
    assert_eq!(writes[18], PortWrite::Text(Params::Status, "Project not loaded".to_string()));
    assert_eq!(writes[19], PortWrite::Label(Params::OpenGyroflow, "Open Gyroflow".to_string()));
}

#[test]
fn a_status_that_is_shown_already_is_not_written() {
    assert!(status_writes("OK", "OK", "fine", true).is_empty());
    assert!(status_writes("", "", "hint", false).is_empty());
}

#[test]
fn a_new_status_is_written_with_its_hint() {
    assert_eq!(
        status_writes("OK", "Timeline fps mismatch!", "rates differ", false),
        vec![
            PortWrite::Text(Params::Status, "Timeline fps mismatch!".to_string()),
            PortWrite::Hint(Params::Status, "rates differ".to_string()),
        ]
    );
}

#[test]
fn a_good_status_also_shows_the_loaded_state() {
    let writes = status_writes("Calculating...", "OK", "OK", true);
    assert_eq!(writes.len(), 22);
    assert_eq!(writes[0], PortWrite::Text(Params::Status, "OK".to_string()));
    assert_eq!(writes[1], PortWrite::Hint(Params::Status, "OK".to_string()));
    assert_eq!(writes[2..], loaded_state_writes(true)[..]);
}

#[test]
fn set_status_reads_the_current_text_first() {
    let mut host = WriteLog::new();
    host.status = "OK".to_string();
    let mut instance: GyroflowPluginBaseInstance<u8> = GyroflowPluginBaseInstance::new();
    instance.set_status(&mut host, "OK", "OK", true);
    assert!(host.log.is_empty());
    instance.set_status(&mut host, "Not synced. Open in Gyroflow", "hint", false);
    assert_eq!(host.log.len(), 2);
    assert_eq!(host.status, "Not synced. Open in Gyroflow");
}

#[test]
fn update_loaded_state_goes_on_past_refused_writes() {
    let mut host = WriteLog::new();
    host.refused = Some(Params::VideoSpeed);
    let mut instance: GyroflowPluginBaseInstance<u8> = GyroflowPluginBaseInstance::new();
    instance.update_loaded_state(&mut host, true);
    assert_eq!(host.log.len(), 19);
    assert_eq!(host.log[18], PortWrite::Label(Params::OpenGyroflow, "Open in Gyroflow".to_string()));
}

#[test]
fn sending_counts_refused_writes_or_stops_at_the_first() {
    let writes = vec![
        PortWrite::Flag(Params::Fov, true),
        PortWrite::Flag(Params::Rotation, true),
        PortWrite::Flag(Params::Fov, false),
        PortWrite::Choice(Params::Smoothness, 1),
    ];
    let mut host = WriteLog::new();
    host.refused = Some(Params::Fov);
    assert_eq!(send_all(&mut host, &writes), 2);
    assert_eq!(host.log.len(), 2);
    let mut strict = WriteLog::new();
    strict.refused = Some(Params::Rotation);
    assert!(send_until_refused(&mut strict, &writes).is_err());
    assert_eq!(strict.log, vec![PortWrite::Flag(Params::Fov, true)]);
    let mut open = WriteLog::new();
    assert!(send_until_refused(&mut open, &writes).is_ok());
    assert_eq!(open.log, writes);
}

#[test]
fn every_kind_of_write_reaches_its_setter() {
    let writes = vec![
        PortWrite::Enabled(Params::Fov, true),
        PortWrite::Label(Params::OpenGyroflow, "l".to_string()),
        PortWrite::Hint(Params::Status, "h".to_string()),
        PortWrite::Number(Params::Fov, px(1)),
        PortWrite::Flag(Params::DisableStretch, true),
        PortWrite::Text(Params::ProjectPath, "t".to_string()),
        PortWrite::Choice(Params::Interpolation, 3),
        PortWrite::ClearKeyframes(Params::Fov),
        PortWrite::NumberAtTime(Params::Fov, TimeType::Frame(px(2_000_000)), px(3)),
    ];
    let mut host = WriteLog::new();
    for write in &writes {
        assert!(send(&mut host, write).is_ok());
    }
    assert_eq!(host.log, writes);
}

#[test]
fn errors_have_a_text() {
    assert_eq!(PluginError::EmptyPath.message(), "Path is empty");
    assert_eq!(PluginError::LoadFailed("bad file".to_string()).message(), "bad file");
    assert_eq!(PluginError::ParameterAccessFailed("no".to_string()).message(), "no");
    assert_eq!(PluginError::DeserializeFailed.message(), "Stored instance is unreadable");
}

#[test]
fn interpolation_methods_and_their_numbers() {
    let all = [
        Interpolation::Lanczos4,
        Interpolation::RobidouxSharp,
        Interpolation::Bilinear,
        Interpolation::Bicubic,
        Interpolation::Robidoux,
        Interpolation::Mitchell,
        Interpolation::CatmullRom,
    ];
    for (i, method) in all.iter().enumerate() {
        assert_eq!(method.index(), i as i32);
        assert_eq!(Interpolation::from_choice(Some(i as i32)), *method);
    }
    assert_eq!(Interpolation::from_choice(None), Interpolation::Lanczos4);
    assert_eq!(Interpolation::from_choice(Some(7)), Interpolation::Lanczos4);
    assert_eq!(Interpolation::from_choice(Some(-1)), Interpolation::Lanczos4);
}

#[test]
fn rotated_video_gets_the_counter_rotation() {
    assert_eq!(input_rotation(90, true), Some(px(270_000_000)));
    assert_eq!(input_rotation(180, true), Some(px(180_000_000)));
    assert_eq!(input_rotation(270, true), Some(px(90_000_000)));
    assert_eq!(input_rotation(360, true), Some(px(0)));
    assert_eq!(input_rotation(-90, true), Some(px(90_000_000)));
    assert_eq!(input_rotation(450, true), Some(px(-90_000_000)));
    assert_eq!(input_rotation(i32::MIN, true), Some(px(128_000_000)));
    assert_eq!(input_rotation(0, true), None);
    assert_eq!(input_rotation(90, false), None);
}

#[test]
fn where_project_data_comes_from() {
    assert_eq!(project_data_source(true, "data"), ProjectDataSource::Embedded);
    assert_eq!(project_data_source(true, ""), ProjectDataSource::File);
    assert_eq!(project_data_source(false, "data"), ProjectDataSource::File);
    assert_eq!(
        carried_after_read(true, "file"),
        PortWrite::Text(Params::ProjectData, "file".to_string())
    );
    assert_eq!(carried_after_read(false, "file"), PortWrite::Text(Params::ProjectData, String::new()));
    assert_eq!(media_fallback("data"), MediaFallback::ImportEmbedded);
    assert_eq!(media_fallback(""), MediaFallback::Fail);
}

#[test]
fn the_ramp_runs_backwards_unless_the_engine_keyframes_the_speed() {
    assert!(ramp_inverse(false, false));
    assert!(ramp_inverse(false, true));
    assert!(ramp_inverse(true, false));
    assert!(!ramp_inverse(true, true));
}

#[test]
fn project_values_are_written_in_the_units_of_the_host() {
    assert_eq!(default_writes(&sample_defaults(), (1920, 1080)), expected_default_writes());
}

#[test]
fn project_values_without_zoom_lock_or_preset() {
    let mut defaults = sample_defaults();
    defaults.max_zoom = None;
    defaults.horizon_lock_enabled = false;
    defaults.preset_name = None;
    defaults.lens_correction_amount = px(1_500_000);
    defaults.has_keyframes = false;
    let writes = default_writes(&defaults, (0, 0));
    assert_eq!(writes.len(), 16);
    assert_eq!(writes[2], PortWrite::Number(Params::ZoomLimit, px(0)));
    assert_eq!(writes[3], PortWrite::Number(Params::LensCorrectionStrength, px(100_000_000)));
    assert_eq!(writes[4], PortWrite::Number(Params::HorizonLockAmount, px(0)));
    assert_eq!(writes[5], PortWrite::Number(Params::HorizonLockRoll, px(0)));
    assert_eq!(writes[14], PortWrite::Flag(Params::UseGyroflowsKeyframes, false));
    assert_eq!(writes[15], PortWrite::Text(Params::LoadedLens, "Wide".to_string()));
}

#[test]
fn project_keyframes_are_replayed_at_whole_frames() {
    let keys = vec![
        Keyframe { timestamp_us: 0, value: px(500_000) },
        Keyframe { timestamp_us: 1_000_000, value: px(250_000) },
        Keyframe { timestamp_us: 1_016_667, value: px(100_000) },
    ];
    assert_eq!(
        replay_writes(KeyframeType::SmoothingParamSmoothness, &keys, px(30_000_000)),
        vec![
            PortWrite::ClearKeyframes(Params::Smoothness),
            PortWrite::NumberAtTime(Params::Smoothness, TimeType::Frame(px(0)), px(50_000_000)),
            PortWrite::NumberAtTime(
                Params::Smoothness,
                TimeType::Frame(px(30_000_000)),
                px(25_000_000)
            ),
            PortWrite::NumberAtTime(
                Params::Smoothness,
                TimeType::Frame(px(31_000_000)),
                px(10_000_000)
            ),
        ]
    );
    assert!(replay_writes(KeyframeType::Fov, &Vec::new(), px(30_000_000)).is_empty());
    assert_eq!(
        replay_writes(KeyframeType::Fov, &keys[..1].to_vec(), px(30_000_000)),
        vec![
            PortWrite::ClearKeyframes(Params::Fov),
            PortWrite::NumberAtTime(Params::Fov, TimeType::Frame(px(0)), px(500_000)),
        ]
    );
}

#[test]
fn project_values_are_handed_over_once() {
    let mut host = WriteLog::new();
    let mut instance: GyroflowPluginBaseInstance<u8> = GyroflowPluginBaseInstance::new();
    let replay = vec![PortWrite::ClearKeyframes(Params::Fov)];
    assert_eq!(instance.project_loaded(&mut host, &sample_info(10_000_000_000), &replay), Ok(true));
    let mut expected = expected_default_writes();
    expected.extend(replay.clone());
    expected.extend(loaded_state_writes(true));
    assert_eq!(host.log, expected);
    assert!(!instance.reload_values_from_project);
    assert_eq!(instance.original_video_size, (3840, 2160));
    assert_eq!(instance.original_output_size, (1920, 1080));
    assert_eq!(instance.num_frames, 250);
    assert_eq!(instance.fps, px(25_000_000));
    assert!(instance.has_motion);
    // The next load of the same instance hands nothing over.
    let mut again = WriteLog::new();
    assert_eq!(instance.project_loaded(&mut again, &sample_info(10_000_000_000), &replay), Ok(true));
    assert_eq!(again.log, loaded_state_writes(true));
}

#[test]
fn a_project_without_duration_is_not_loaded_and_keeps_waiting() {
    let mut host = WriteLog::new();
    let mut instance: GyroflowPluginBaseInstance<u8> = GyroflowPluginBaseInstance::new();
    assert_eq!(instance.project_loaded(&mut host, &sample_info(0), &Vec::new()), Ok(false));
    assert_eq!(host.log, loaded_state_writes(false));
    assert!(instance.reload_values_from_project);
    assert!(!instance.take_project(&sample_info(0)));
    assert!(instance.take_project(&sample_info(1)));
    assert!(!instance.take_project(&sample_info(1)));
}

#[test]
fn a_refused_project_value_ends_the_load() {
    let mut host = WriteLog::new();
    host.refused = Some(Params::Rotation);
    let mut instance: GyroflowPluginBaseInstance<u8> = GyroflowPluginBaseInstance::new();
    let result = instance.project_loaded(&mut host, &sample_info(5_000_000), &Vec::new());
    assert_eq!(result, Err(PluginError::ParameterAccessFailed("refused".to_string())));
    assert_eq!(host.log.len(), 9);
    assert!(!instance.has_motion);
    assert!(!instance.reload_values_from_project);
    assert_eq!(instance.num_frames, 250);
}

#[test]
fn loading_bakes_the_keyframes_at_the_rate_of_the_project() {
    let mut host = WriteLog::new();
    host.use_engine_keyframes = Ok(true);
    let mut instance: GyroflowPluginBaseInstance<u8> = GyroflowPluginBaseInstance::new();
    instance.project_loaded(&mut host, &sample_info(1_000_000), &Vec::new()).unwrap();
    assert!(instance.keyframable_params.use_gyroflows_keyframes);
    assert_eq!(
        instance.keyframable_params.cached_keyframes.keyframes(KeyframeType::Fov),
        vec![Keyframe { timestamp_us: 0, value: px(7_000_000) }]
    );
    assert_eq!(
        instance.keyframable_params.cached_keyframes.keyframes(KeyframeType::VideoSpeed),
        vec![Keyframe { timestamp_us: 0, value: px(70_000) }]
    );
}

#[test]
fn a_loaded_engine_is_set_up_in_a_fixed_order() {
    let all = setup_steps(SetupValues {
        disable_stretch: true,
        anamorphic_adjust_size: false,
        overview: true,
        framebuffer_inverted: true,
        output_width: 1920,
        output_height: 1080,
        integration_method: Some(2),
        use_gyroflows_keyframes: true,
    });
    assert_eq!(
        all,
        vec![
            EngineSetup::DisableLensStretch(false),
            EngineSetup::SetOverview(true),
            EngineSetup::SetFramebufferInverted(true),
            EngineSetup::InitSize,
            EngineSetup::SetOutputSize(1920, 1080),
            EngineSetup::InstallProvider,
            EngineSetup::ApplyIntegrationMethod(2),
            EngineSetup::InvalidateSmoothing,
            EngineSetup::RecomputeBlocking,
            EngineSetup::RecomputeRamp(true),
        ]
    );
    let least = setup_steps(SetupValues {
        disable_stretch: false,
        anamorphic_adjust_size: true,
        overview: false,
        framebuffer_inverted: false,
        output_width: 0,
        output_height: 0,
        integration_method: None,
        use_gyroflows_keyframes: false,
    });
    assert_eq!(
        least,
        vec![
            EngineSetup::SetOverview(false),
            EngineSetup::SetFramebufferInverted(false),
            EngineSetup::InitSize,
            EngineSetup::SetOutputSize(0, 0),
            EngineSetup::InstallProvider,
            EngineSetup::InvalidateSmoothing,
            EngineSetup::RecomputeBlocking,
            EngineSetup::RecomputeRamp(false),
        ]
    );
}

#[test]
fn the_setup_is_read_from_the_host() {
    let mut instance: GyroflowPluginBaseInstance<u8> = GyroflowPluginBaseInstance::new();
    instance.framebuffer_inverted = true;
    instance.anamorphic_adjust_size = true;
    let mut host = WriteLog::new();
    host.use_engine_keyframes = Ok(true);
    let steps = instance.setup_for(&host, true).unwrap();
    assert_eq!(
        steps,
        vec![
            EngineSetup::DisableLensStretch(true),
            EngineSetup::SetOverview(true),
            EngineSetup::SetFramebufferInverted(true),
            EngineSetup::InitSize,
            EngineSetup::SetOutputSize(7, 7),
            EngineSetup::InstallProvider,
            EngineSetup::ApplyIntegrationMethod(0),
            EngineSetup::InvalidateSmoothing,
            EngineSetup::RecomputeBlocking,
            EngineSetup::RecomputeRamp(true),
        ]
    );
    host.use_engine_keyframes = Err(PluginError::ParameterAccessFailed("gone".to_string()));
    assert_eq!(
        instance.setup_for(&host, true),
        Err(PluginError::ParameterAccessFailed("gone".to_string()))
    );
}
