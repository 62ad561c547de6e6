use gyroflow_plugin_base::cache::ManagerCache;
use gyroflow_plugin_base::changes::{
    actions_for, embedded_data, lens_target, size_fit_writes, size_swap_writes, EngineAction,
    Outside, PickedFile, ProjectFile,
};
use gyroflow_plugin_base::edits::{
    engine_steps, invalidated_stages, EngineStep, OutsideNeed, StageSet,
};
use gyroflow_plugin_base::fixed::Fixed;
use gyroflow_plugin_base::instance::{Acquired, GyroflowPluginBaseInstance};
use gyroflow_plugin_base::keyframes::{Keyframe, KeyframeType};
use gyroflow_plugin_base::params::{Params, PARAM_COUNT};
use gyroflow_plugin_base::port::{
    send_until_refused, GyroflowPluginParams, PluginError, PluginResult, PortWrite,
};
use gyroflow_plugin_base::time::TimeType;
use std::collections::HashMap;
use std::sync::Arc;

fn ex(micros: i64) -> Fixed {
    Fixed { micros }
}

/// A host that stores what is written and records every write.
struct RecordingHost {
    numbers: HashMap<Params, Fixed>,
    flags: HashMap<Params, bool>,
    texts: HashMap<Params, String>,
    choices: HashMap<Params, i32>,
    log: Vec<PortWrite>,
    refuse_writes_to: Vec<Params>,
    refuse_reads_of: Vec<Params>,
}

impl RecordingHost {
    fn new() -> Self {
        RecordingHost {
            numbers: HashMap::new(),
            flags: HashMap::new(),
            texts: HashMap::new(),
            choices: HashMap::new(),
            log: Vec::new(),
            refuse_writes_to: Vec::new(),
            refuse_reads_of: Vec::new(),
        }
    }

    fn with_project(path: &str, instance_id: &str) -> Self {
        let mut host = RecordingHost::new();
        host.texts.insert(Params::ProjectPath, path.to_string());
        host.texts.insert(Params::InstanceId, instance_id.to_string());
        host.flags.insert(Params::DisableStretch, false);
        host
    }

    fn write(&mut self, param: Params, write: PortWrite) -> PluginResult<()> {
        if self.refuse_writes_to.contains(&param) {
            return Err(PluginError::ParameterAccessFailed(format!("{param:?} is read-only")));
        }
        self.log.push(write);
        Ok(())
    }

    fn read<V: Clone>(&self, param: Params, values: &HashMap<Params, V>) -> PluginResult<V> {
        if self.refuse_reads_of.contains(&param) {
            return Err(PluginError::ParameterAccessFailed(format!("{param:?} is unreadable")));
        }
        match values.get(&param) {
            Some(v) => Ok(v.clone()),
            None => Err(PluginError::ParameterAccessFailed(format!("{param:?} is not set"))),
        }
    }
}

impl GyroflowPluginParams for RecordingHost {
    fn set_enabled(&mut self, param: Params, enabled: bool) -> PluginResult<()> {
        self.write(param, PortWrite::Enabled(param, enabled))
    }
    fn set_label(&mut self, param: Params, label: &str) -> PluginResult<()> {
        self.write(param, PortWrite::Label(param, label.to_string()))
    }
    fn set_hint(&mut self, param: Params, hint: &str) -> PluginResult<()> {
        self.write(param, PortWrite::Hint(param, hint.to_string()))
    }
    fn set_f64(&mut self, param: Params, value: Fixed) -> PluginResult<()> {
        self.write(param, PortWrite::Number(param, value))?;
        self.numbers.insert(param, value);
        Ok(())
    }
    fn get_f64(&self, param: Params) -> PluginResult<Fixed> {
        self.read(param, &self.numbers)
    }
    fn get_f64_at_time(&self, param: Params, _: TimeType) -> PluginResult<Fixed> {
        self.read(param, &self.numbers)
    }
    fn set_bool(&mut self, param: Params, value: bool) -> PluginResult<()> {
        self.write(param, PortWrite::Flag(param, value))?;
        self.flags.insert(param, value);
        Ok(())
    }
    fn get_bool(&self, param: Params) -> PluginResult<bool> {
        self.read(param, &self.flags)
    }
    fn get_bool_at_time(&self, param: Params, _: TimeType) -> PluginResult<bool> {
        self.read(param, &self.flags)
    }
    fn set_string(&mut self, param: Params, value: &str) -> PluginResult<()> {
        self.write(param, PortWrite::Text(param, value.to_string()))?;
        self.texts.insert(param, value.to_string());
        Ok(())
    }
    fn get_string(&self, param: Params) -> PluginResult<String> {
        self.read(param, &self.texts)
    }
    fn set_i32(&mut self, param: Params, value: i32) -> PluginResult<()> {
        self.write(param, PortWrite::Choice(param, value))?;
        self.choices.insert(param, value);
        Ok(())
    }
    fn get_i32(&self, param: Params) -> PluginResult<i32> {
        self.read(param, &self.choices)
    }
    fn is_keyframed(&self, _: Params) -> bool {
        false
    }
    fn get_keyframes(&self, _: Params) -> Vec<(TimeType, Fixed)> {
        Vec::new()
    }
    fn clear_keyframes(&mut self, param: Params) -> PluginResult<()> {
        self.write(param, PortWrite::ClearKeyframes(param))
    }
    fn set_f64_at_time(&mut self, param: Params, time: TimeType, value: Fixed) -> PluginResult<()> {
        self.write(param, PortWrite::NumberAtTime(param, time, value))
    }
}

fn nothing_outside() -> Outside {
    Outside {
        picked_path: String::new(),
        picked_lens: None,
        last_project: String::new(),
        project_file: None,
        exported: None,
    }
}

fn all_params() -> Vec<Params> {
    (0..PARAM_COUNT).map(|i| Params::from_index(i).unwrap()).collect()
}

fn stages(smoothing: bool, zooming: bool, undistortion: bool) -> StageSet {
    StageSet { smoothing, zooming, undistortion }
}

#[test]
fn smoothing_parameters_invalidate_all_three_stages() {
    for param in [
        Params::Smoothness,
        Params::ZoomLimit,
        Params::HorizonLockAmount,
        Params::HorizonLockRoll,
        Params::AdditionalPitch,
        Params::AdditionalYaw,
        Params::RecalculateKeyframes,
        Params::IntegrationMethod,
    ] {
        assert_eq!(invalidated_stages(param, true), stages(true, true, true));
    }
}

#[test]
fn geometry_parameters_leave_the_smoothing_alone() {
    for param in [Params::LensCorrectionStrength, Params::Rotation] {
        assert_eq!(invalidated_stages(param, true), stages(false, true, true));
        assert!(!engine_steps(param, true).contains(&EngineStep::InvalidateSmoothing));
    }
}

#[test]
fn other_engine_parameters_invalidate_the_undistortion_only() {
    for param in [
        Params::Fov,
        Params::InputRotation,
        Params::VideoSpeed,
        Params::UseGyroflowsKeyframes,
        Params::ToggleOverview,
    ] {
        assert_eq!(invalidated_stages(param, true), stages(false, false, true));
    }
}

#[test]
fn output_size_edits_recompute_the_zoom() {
    for param in [
        Params::OutputWidth,
        Params::OutputHeight,
        Params::OutputSizeSwap,
        Params::OutputSizeToTimeline,
    ] {
        assert_eq!(invalidated_stages(param, true), stages(false, true, false));
        assert_eq!(
            engine_steps(param, true),
            vec![EngineStep::Resize, EngineStep::InvalidateZooming]
        );
    }
}

#[test]
fn edits_by_the_host_invalidate_nothing() {
    for param in all_params() {
        assert_eq!(invalidated_stages(param, false), stages(false, false, false));
        assert!(engine_steps(param, false).is_empty());
    }
}

#[test]
fn cosmetic_parameters_invalidate_nothing() {
    for param in [
        Params::Status,
        Params::Logo,
        Params::Browse,
        Params::OpenGyroflow,
        Params::ProjectPath,
        Params::DisableStretch,
        Params::Interpolation,
        Params::LoadedLens,
    ] {
        assert_eq!(invalidated_stages(param, true), stages(false, false, false));
        assert!(engine_steps(param, true).is_empty());
    }
}

#[test]
fn steps_come_in_the_order_of_the_stages() {
    assert_eq!(
        engine_steps(Params::Smoothness, true),
        vec![
            EngineStep::InvalidateSmoothing,
            EngineStep::InvalidateZooming,
            EngineStep::InvalidateUndistortion
        ]
    );
    assert_eq!(
        engine_steps(Params::IntegrationMethod, true),
        vec![
            EngineStep::ApplyIntegrationMethod,
            EngineStep::InvalidateSmoothing,
            EngineStep::InvalidateZooming,
            EngineStep::InvalidateUndistortion
        ]
    );
    assert_eq!(
        engine_steps(Params::RecalculateKeyframes, true),
        vec![
            EngineStep::InvalidateSmoothing,
            EngineStep::InvalidateZooming,
            EngineStep::InvalidateUndistortion,
            EngineStep::RecomputeRamp
        ]
    );
    assert_eq!(
        engine_steps(Params::Rotation, true),
        vec![EngineStep::InvalidateZooming, EngineStep::InvalidateUndistortion]
    );
    assert_eq!(
        engine_steps(Params::VideoSpeed, true),
        vec![EngineStep::InvalidateUndistortion, EngineStep::RecomputeRamp]
    );
    assert_eq!(engine_steps(Params::Fov, true), vec![EngineStep::InvalidateUndistortion]);
    assert_eq!(
        engine_steps(Params::ToggleOverview, true),
        vec![EngineStep::SetOverview, EngineStep::InvalidateUndistortion]
    );
}

#[test]
fn stages_and_steps_agree_for_every_parameter() {
    for param in all_params() {
        for user_edited in [false, true] {
            let set = invalidated_stages(param, user_edited);
            let steps = engine_steps(param, user_edited);
            assert_eq!(set.smoothing, steps.contains(&EngineStep::InvalidateSmoothing));
            assert_eq!(set.zooming, steps.contains(&EngineStep::InvalidateZooming));
            assert_eq!(set.undistortion, steps.contains(&EngineStep::InvalidateUndistortion));
            if set.smoothing {
                assert!(set.zooming && set.undistortion);
            }
        }
    }
}

#[test]
fn classification_of_parameters() {
    assert!(Params::Fov.recalculates());
    assert!(!Params::OutputWidth.recalculates());
    assert!(Params::Smoothness.feeds_smoothing());
    assert!(!Params::Rotation.feeds_smoothing());
    assert!(Params::Rotation.shapes_geometry());
    assert!(Params::VideoSpeed.moves_ramp());
    assert!(!Params::Fov.moves_ramp());
    assert!(Params::OutputSizeSwap.sizes_output());
    assert!(Params::DontDrawOutside.drops_objects());
    assert!(!Params::DontDrawOutside.reloads_values());
    assert!(Params::ReloadProject.reloads_values());
}

#[test]
fn what_an_edit_needs_from_outside() {
    assert_eq!(Params::Browse.outside_need(), OutsideNeed::ProjectDialog);
    assert_eq!(Params::LoadLens.outside_need(), OutsideNeed::LensDialog);
    assert_eq!(Params::OpenGyroflow.outside_need(), OutsideNeed::LaunchApplication);
    assert_eq!(Params::OpenRecentProject.outside_need(), OutsideNeed::RecentProject);
    assert_eq!(Params::IncludeProjectData.outside_need(), OutsideNeed::ProjectData);
    assert_eq!(Params::Fov.outside_need(), OutsideNeed::Nothing);
}

#[test]
fn actions_carry_the_values_of_their_steps() {
    let steps = vec![
        EngineStep::Resize,
        EngineStep::ApplyIntegrationMethod,
        EngineStep::InvalidateSmoothing,
        EngineStep::InvalidateZooming,
        EngineStep::InvalidateUndistortion,
        EngineStep::RecomputeRamp,
        EngineStep::SetOverview,
    ];
    assert_eq!(
        actions_for(&steps, (1920, 1080), Some(2), true, false),
        vec![
            EngineAction::Resize(1920, 1080),
            EngineAction::ApplyIntegrationMethod(Some(2)),
            EngineAction::InvalidateSmoothing,
            EngineAction::InvalidateZooming,
            EngineAction::InvalidateUndistortion,
            EngineAction::RecomputeRamp(true),
            EngineAction::SetOverview(false),
        ]
    );
}

#[test]
fn embedded_project_data_follows_the_switch() {
    let with_motion = Some(ProjectFile { data: "file".to_string(), has_motion_data: true });
    let without_motion = Some(ProjectFile { data: "file".to_string(), has_motion_data: false });
    let exported = Some("exported".to_string());
    assert_eq!(embedded_data(false, true, &with_motion, &exported), Some(String::new()));
    assert_eq!(embedded_data(true, true, &with_motion, &exported), Some("file".to_string()));
    assert_eq!(embedded_data(true, true, &without_motion, &exported), Some("exported".to_string()));
    assert_eq!(embedded_data(true, true, &without_motion, &None), None);
    assert_eq!(embedded_data(true, true, &None, &exported), Some(String::new()));
    assert_eq!(embedded_data(true, false, &with_motion, &exported), Some("exported".to_string()));
    assert_eq!(embedded_data(true, false, &None, &None), None);
}

#[test]
fn lens_files_go_to_the_profile_presets_elsewhere() {
    assert_eq!(lens_target("/lenses/gopro.json"), Params::EmbeddedLensProfile);
    assert_eq!(lens_target("/presets/smooth.gyroflow"), Params::EmbeddedPreset);
    assert_eq!(lens_target("json"), Params::EmbeddedPreset);
    assert_eq!(lens_target(".json"), Params::EmbeddedLensProfile);
}

#[test]
fn empty_path_is_reported_and_changes_nothing() {
    let mut host = RecordingHost::with_project("", "7");
    let mut shared: ManagerCache<u32> = ManagerCache::new(8);
    let mut instance: GyroflowPluginBaseInstance<u32> = GyroflowPluginBaseInstance::new();
    let found = instance.stab_manager(&mut host, &mut shared, (1920, 1080));
    assert!(matches!(found, Err(PluginError::EmptyPath)));
    assert_eq!(instance.timeline_size, (0, 0));
    assert_eq!(shared.len(), 0);
    // The host is shown that nothing is loaded.
    assert_eq!(host.log.len(), 20);
    assert_eq!(host.log[0], PortWrite::Enabled(Params::Fov, false));
    assert_eq!(host.log[18], PortWrite::Text(Params::Status, "Project not loaded".to_string()));
    assert_eq!(host.log[19], PortWrite::Label(Params::OpenGyroflow, "Open Gyroflow".to_string()));
}

#[test]
fn unreadable_parameters_end_the_lookup() {
    let mut host = RecordingHost::with_project("/clip.mp4", "7");
    host.refuse_reads_of.push(Params::InstanceId);
    let mut shared: ManagerCache<u32> = ManagerCache::new(8);
    let mut instance: GyroflowPluginBaseInstance<u32> = GyroflowPluginBaseInstance::new();
    let found = instance.stab_manager(&mut host, &mut shared, (1920, 1080));
    assert!(matches!(found, Err(PluginError::ParameterAccessFailed(_))));
    assert!(host.log.is_empty());
}

#[test]
fn a_miss_says_what_to_build() {
    let mut host = RecordingHost::with_project("/clips/a.mp4", "42");
    let mut shared: ManagerCache<u32> = ManagerCache::new(8);
    let mut instance: GyroflowPluginBaseInstance<u32> = GyroflowPluginBaseInstance::new();
    match instance.stab_manager(&mut host, &mut shared, (1920, 1080)).unwrap() {
        Acquired::Missing(request) => {
            assert_eq!(request.key, "/clips/a.mp4false42");
            assert_eq!(request.path, "/clips/a.mp4");
            assert!(!request.disable_stretch);
            assert!(!request.is_project);
        }
        Acquired::Cached(_) => panic!("nothing was cached"),
    }
    assert_eq!(instance.timeline_size, (1920, 1080));
    assert_eq!(shared.len(), 0);
    assert_eq!(instance.managers.len(), 0);
}

#[test]
fn project_files_are_told_from_media_files() {
    let mut shared: ManagerCache<u32> = ManagerCache::new(8);
    let mut instance: GyroflowPluginBaseInstance<u32> = GyroflowPluginBaseInstance::new();
    match instance.resolve(&mut shared, "/p/take.gyroflow", true, "1", (10, 10)).unwrap() {
        Acquired::Missing(request) => {
            assert!(request.is_project);
            assert!(request.disable_stretch);
            assert_eq!(request.key, "/p/take.gyroflowtrue1");
        }
        Acquired::Cached(_) => panic!("nothing was cached"),
    }
}

#[test]
fn a_hit_hands_out_the_identical_object_without_building() {
    let mut host = RecordingHost::with_project("/clips/a.mp4", "42");
    let mut shared: ManagerCache<u32> = ManagerCache::new(8);
    let mut builder: GyroflowPluginBaseInstance<u32> = GyroflowPluginBaseInstance::new();
    let built = builder.store_built(&mut shared, "/clips/a.mp4false42", 5);
    let mut instance: GyroflowPluginBaseInstance<u32> = GyroflowPluginBaseInstance::new();
    for _ in 0..3 {
        match instance.stab_manager(&mut host, &mut shared, (1920, 1080)).unwrap() {
            Acquired::Cached(object) => assert!(Arc::ptr_eq(&object, &built)),
            Acquired::Missing(_) => panic!("the key is cached"),
        }
    }
    assert!(Arc::ptr_eq(&instance.managers.peek("/clips/a.mp4false42").unwrap(), &built));
    assert_eq!(instance.managers.len(), 1);
    assert_eq!(shared.len(), 1);
}

#[test]
fn the_key_changes_with_path_stretch_and_id() {
    let mut shared: ManagerCache<u32> = ManagerCache::new(8);
    let mut instance: GyroflowPluginBaseInstance<u32> = GyroflowPluginBaseInstance::new();
    let built = instance.store_built(&mut shared, "/a.mp4false1", 5);
    for (path, stretch, id) in [("/b.mp4", false, "1"), ("/a.mp4", true, "1"), ("/a.mp4", false, "2")] {
        assert!(matches!(
            instance.resolve(&mut shared, path, stretch, id, (0, 0)),
            Ok(Acquired::Missing(_))
        ));
    }
    match instance.resolve(&mut shared, "/a.mp4", false, "1", (0, 0)).unwrap() {
        Acquired::Cached(object) => assert!(Arc::ptr_eq(&object, &built)),
        Acquired::Missing(_) => panic!("the key is cached"),
    }
}

#[test]
fn timeline_size_is_taken_once() {
    let mut shared: ManagerCache<u32> = ManagerCache::new(8);
    let mut instance: GyroflowPluginBaseInstance<u32> = GyroflowPluginBaseInstance::new();
    let _ = instance.resolve(&mut shared, "/a.mp4", false, "1", (100, 50));
    assert_eq!(instance.timeline_size, (100, 50));
    let _ = instance.resolve(&mut shared, "/a.mp4", false, "1", (300, 200));
    assert_eq!(instance.timeline_size, (100, 50));
}

#[test]
fn first_edit_gives_a_new_id_and_lets_go_of_the_objects() {
    let mut host = RecordingHost::with_project("/a.mp4", "1");
    host.flags.insert(Params::UseGyroflowsKeyframes, false);
    let mut shared: ManagerCache<u32> = ManagerCache::new(8);
    let mut instance: GyroflowPluginBaseInstance<u32> = GyroflowPluginBaseInstance::new();
    let held = instance.store_built(&mut shared, "/a.mp4false1", 5);
    let actions = instance
        .param_changed(&mut host, &mut shared, Params::Smoothness, true, &nothing_outside())
        .unwrap();
    assert!(actions.is_empty());
    assert!(instance.ever_changed);
    assert_eq!(instance.managers.len(), 0);
    // The caller still holds the object, so the shared cache keeps it.
    assert!(shared.contains("/a.mp4false1"));
    assert_eq!(*held, 5);
    let new_id = host.texts[&Params::InstanceId].clone();
    assert!(!new_id.is_empty());
    assert!(new_id.chars().all(|c| c.is_ascii_digit()));
    assert_eq!(host.log[0], PortWrite::Text(Params::Status, "Calculating...".to_string()));
    assert_eq!(host.log[1], PortWrite::Text(Params::InstanceId, new_id));
    assert_eq!(host.log[2], PortWrite::Text(Params::Status, "OK".to_string()));
    assert_eq!(host.log.len(), 3);
}

#[test]
fn later_edits_keep_the_id_and_reach_the_objects() {
    let mut host = RecordingHost::with_project("/a.mp4", "1");
    host.flags.insert(Params::UseGyroflowsKeyframes, true);
    let mut shared: ManagerCache<u32> = ManagerCache::new(8);
    let mut instance: GyroflowPluginBaseInstance<u32> = GyroflowPluginBaseInstance::new();
    instance.ever_changed = true;
    drop(instance.store_built(&mut shared, "/a.mp4false1", 5));
    let actions = instance
        .param_changed(&mut host, &mut shared, Params::VideoSpeed, true, &nothing_outside())
        .unwrap();
    assert_eq!(
        actions,
        vec![EngineAction::InvalidateUndistortion, EngineAction::RecomputeRamp(true)]
    );
    assert_eq!(host.texts[&Params::InstanceId], "1");
    assert_eq!(instance.managers.len(), 1);
    assert!(instance.keyframable_params.use_gyroflows_keyframes);
}

#[test]
fn integration_method_is_read_for_the_objects() {
    let mut host = RecordingHost::with_project("/a.mp4", "1");
    host.choices.insert(Params::IntegrationMethod, 2);
    let mut shared: ManagerCache<u32> = ManagerCache::new(8);
    let mut instance: GyroflowPluginBaseInstance<u32> = GyroflowPluginBaseInstance::new();
    instance.ever_changed = true;
    drop(instance.store_built(&mut shared, "k", 5));
    let actions = instance
        .param_changed(&mut host, &mut shared, Params::IntegrationMethod, true, &nothing_outside())
        .unwrap();
    assert_eq!(
        actions,
        vec![
            EngineAction::ApplyIntegrationMethod(Some(2)),
            EngineAction::InvalidateSmoothing,
            EngineAction::InvalidateZooming,
            EngineAction::InvalidateUndistortion,
        ]
    );
}

#[test]
fn swapping_the_output_size_swaps_width_and_height() {
    let mut host = RecordingHost::with_project("/a.mp4", "1");
    host.numbers.insert(Params::OutputWidth, ex(3_840_000_000));
    host.numbers.insert(Params::OutputHeight, ex(2_160_000_000));
    let mut shared: ManagerCache<u32> = ManagerCache::new(8);
    let mut instance: GyroflowPluginBaseInstance<u32> = GyroflowPluginBaseInstance::new();
    drop(instance.store_built(&mut shared, "k", 5));
    let actions = instance
        .param_changed(&mut host, &mut shared, Params::OutputSizeSwap, true, &nothing_outside())
        .unwrap();
    assert_eq!(host.numbers[&Params::OutputWidth], ex(2_160_000_000));
    assert_eq!(host.numbers[&Params::OutputHeight], ex(3_840_000_000));
    assert_eq!(actions, vec![EngineAction::Resize(2160, 3840), EngineAction::InvalidateZooming]);
    assert!(!instance.ever_changed);
}

#[test]
fn fitting_to_the_timeline_writes_the_timeline_size() {
    let mut host = RecordingHost::with_project("/a.mp4", "1");
    let mut shared: ManagerCache<u32> = ManagerCache::new(8);
    let mut instance: GyroflowPluginBaseInstance<u32> = GyroflowPluginBaseInstance::new();
    instance.timeline_size = (1280, 720);
    drop(instance.store_built(&mut shared, "k", 5));
    let actions = instance
        .param_changed(&mut host, &mut shared, Params::OutputSizeToTimeline, true, &nothing_outside())
        .unwrap();
    assert_eq!(
        host.log,
        vec![
            PortWrite::Number(Params::OutputWidth, ex(1_280_000_000)),
            PortWrite::Number(Params::OutputHeight, ex(720_000_000)),
        ]
    );
    assert_eq!(actions, vec![EngineAction::Resize(1280, 720), EngineAction::InvalidateZooming]);
}

#[test]
fn overview_switch_is_read_and_passed_on() {
    let mut host = RecordingHost::with_project("/a.mp4", "1");
    host.flags.insert(Params::ToggleOverview, true);
    let mut shared: ManagerCache<u32> = ManagerCache::new(8);
    let mut instance: GyroflowPluginBaseInstance<u32> = GyroflowPluginBaseInstance::new();
    drop(instance.store_built(&mut shared, "k", 5));
    let actions = instance
        .param_changed(&mut host, &mut shared, Params::ToggleOverview, true, &nothing_outside())
        .unwrap();
    assert_eq!(
        actions,
        vec![EngineAction::SetOverview(true), EngineAction::InvalidateUndistortion]
    );
}

#[test]
fn a_new_project_path_lets_go_of_the_objects_and_reloads() {
    let mut host = RecordingHost::with_project("/a.mp4", "1");
    let mut shared: ManagerCache<u32> = ManagerCache::new(8);
    let mut instance: GyroflowPluginBaseInstance<u32> = GyroflowPluginBaseInstance::new();
    instance.reload_values_from_project = false;
    drop(instance.store_built(&mut shared, "k", 5));
    shared.put("other".to_string(), Arc::new(9));
    let actions = instance
        .param_changed(&mut host, &mut shared, Params::ProjectPath, false, &nothing_outside())
        .unwrap();
    assert!(actions.is_empty());
    assert!(instance.reload_values_from_project);
    assert_eq!(instance.managers.len(), 0);
    assert_eq!(shared.keys(), vec!["other"]);
}

#[test]
fn drawing_inside_the_clip_lets_go_without_reloading() {
    let mut host = RecordingHost::with_project("/a.mp4", "1");
    let mut shared: ManagerCache<u32> = ManagerCache::new(8);
    let mut instance: GyroflowPluginBaseInstance<u32> = GyroflowPluginBaseInstance::new();
    instance.reload_values_from_project = false;
    drop(instance.store_built(&mut shared, "k", 5));
    instance
        .param_changed(&mut host, &mut shared, Params::DontDrawOutside, false, &nothing_outside())
        .unwrap();
    assert!(!instance.reload_values_from_project);
    assert_eq!(instance.managers.len(), 0);
    assert_eq!(shared.len(), 0);
}

#[test]
fn a_picked_project_is_taken_over() {
    let mut host = RecordingHost::with_project("/a.mp4", "1");
    let mut shared: ManagerCache<u32> = ManagerCache::new(8);
    let mut instance: GyroflowPluginBaseInstance<u32> = GyroflowPluginBaseInstance::new();
    instance.reload_values_from_project = false;
    let mut outside = nothing_outside();
    outside.picked_path = "/b.gyroflow".to_string();
    instance.param_changed(&mut host, &mut shared, Params::Browse, true, &outside).unwrap();
    assert_eq!(host.texts[&Params::ProjectPath], "/b.gyroflow");
    assert!(instance.reload_values_from_project);
}

#[test]
fn a_cancelled_dialog_changes_nothing() {
    let mut host = RecordingHost::with_project("/a.mp4", "1");
    let mut shared: ManagerCache<u32> = ManagerCache::new(8);
    let mut instance: GyroflowPluginBaseInstance<u32> = GyroflowPluginBaseInstance::new();
    instance.reload_values_from_project = false;
    instance.param_changed(&mut host, &mut shared, Params::Browse, true, &nothing_outside()).unwrap();
    assert_eq!(host.texts[&Params::ProjectPath], "/a.mp4");
    assert!(!instance.reload_values_from_project);
    assert!(host.log.is_empty());
}

#[test]
fn a_picked_lens_profile_is_embedded() {
    let mut host = RecordingHost::with_project("/a.mp4", "1");
    let mut shared: ManagerCache<u32> = ManagerCache::new(8);
    let mut instance: GyroflowPluginBaseInstance<u32> = GyroflowPluginBaseInstance::new();
    instance.reload_values_from_project = false;
    drop(instance.store_built(&mut shared, "k", 5));
    let mut outside = nothing_outside();
    outside.picked_lens =
        Some(PickedFile { path: "/l/lens.json".to_string(), contents: Some("{}".to_string()) });
    instance.param_changed(&mut host, &mut shared, Params::LoadLens, true, &outside).unwrap();
    assert_eq!(host.log, vec![PortWrite::Text(Params::EmbeddedLensProfile, "{}".to_string())]);
    assert!(instance.reload_values_from_project);
    assert_eq!(instance.managers.len(), 0);
}

#[test]
fn an_unreadable_lens_file_still_lets_go_of_the_objects() {
    let mut host = RecordingHost::with_project("/a.mp4", "1");
    let mut shared: ManagerCache<u32> = ManagerCache::new(8);
    let mut instance: GyroflowPluginBaseInstance<u32> = GyroflowPluginBaseInstance::new();
    instance.reload_values_from_project = false;
    drop(instance.store_built(&mut shared, "k", 5));
    let mut outside = nothing_outside();
    outside.picked_lens = Some(PickedFile { path: "/l/p.gyroflow".to_string(), contents: None });
    instance.param_changed(&mut host, &mut shared, Params::LoadLens, true, &outside).unwrap();
    assert!(host.log.is_empty());
    assert!(!instance.reload_values_from_project);
    assert_eq!(instance.managers.len(), 0);
}

#[test]
fn the_project_saved_last_becomes_the_project() {
    let mut host = RecordingHost::with_project("/a.mp4", "1");
    let mut shared: ManagerCache<u32> = ManagerCache::new(8);
    let mut instance: GyroflowPluginBaseInstance<u32> = GyroflowPluginBaseInstance::new();
    let mut outside = nothing_outside();
    outside.last_project = "/recent.gyroflow".to_string();
    instance.param_changed(&mut host, &mut shared, Params::OpenRecentProject, true, &outside).unwrap();
    assert_eq!(host.texts[&Params::ProjectPath], "/recent.gyroflow");
}

#[test]
fn switching_the_embedding_off_clears_the_data() {
    let mut host = RecordingHost::with_project("/a.gyroflow", "1");
    host.flags.insert(Params::IncludeProjectData, false);
    host.texts.insert(Params::ProjectData, "old".to_string());
    let mut shared: ManagerCache<u32> = ManagerCache::new(8);
    let mut instance: GyroflowPluginBaseInstance<u32> = GyroflowPluginBaseInstance::new();
    instance
        .param_changed(&mut host, &mut shared, Params::IncludeProjectData, true, &nothing_outside())
        .unwrap();
    assert_eq!(host.texts[&Params::ProjectData], "");
}

#[test]
fn switching_the_embedding_on_embeds_the_project_file() {
    let mut host = RecordingHost::with_project("/a.gyroflow", "1");
    host.flags.insert(Params::IncludeProjectData, true);
    let mut shared: ManagerCache<u32> = ManagerCache::new(8);
    let mut instance: GyroflowPluginBaseInstance<u32> = GyroflowPluginBaseInstance::new();
    let mut outside = nothing_outside();
    outside.project_file = Some(ProjectFile { data: "gyro".to_string(), has_motion_data: true });
    instance.param_changed(&mut host, &mut shared, Params::IncludeProjectData, true, &outside).unwrap();
    assert_eq!(host.texts[&Params::ProjectData], "gyro");
}

#[test]
fn an_edit_of_the_interpolation_takes_out_the_entries_of_the_instance_only() {
    let mut host = RecordingHost::with_project("/a.mp4", "1");
    let mut shared: ManagerCache<u32> = ManagerCache::new(8);
    let mut instance: GyroflowPluginBaseInstance<u32> = GyroflowPluginBaseInstance::new();
    let held_elsewhere = instance.store_built(&mut shared, "k1", 5);
    drop(instance.store_built(&mut shared, "k2", 6));
    let foreign = Arc::new(1);
    shared.put("foreign".to_string(), foreign.clone());
    let actions = instance
        .param_changed(&mut host, &mut shared, Params::Interpolation, true, &nothing_outside())
        .unwrap();
    assert!(actions.is_empty());
    assert_eq!(instance.managers.len(), 0);
    assert_eq!(shared.len(), 1);
    assert!(!shared.contains("k1"));
    assert!(!shared.contains("k2"));
    assert!(Arc::ptr_eq(&shared.peek("foreign").unwrap(), &foreign));
    assert_eq!(shared.cap(), 8);
    // An object that someone still holds lives on outside the caches.
    assert_eq!(*held_elsewhere, 5);
    assert!(host.log.is_empty());
}

#[test]
fn an_interpolation_edit_by_the_host_changes_nothing() {
    let mut host = RecordingHost::with_project("/a.mp4", "1");
    let mut shared: ManagerCache<u32> = ManagerCache::new(8);
    let mut instance: GyroflowPluginBaseInstance<u32> = GyroflowPluginBaseInstance::new();
    drop(instance.store_built(&mut shared, "k", 5));
    let actions = instance
        .param_changed(&mut host, &mut shared, Params::Interpolation, false, &nothing_outside())
        .unwrap();
    assert!(actions.is_empty());
    assert_eq!(instance.managers.len(), 1);
    assert_eq!(shared.len(), 1);
}

#[test]
fn a_refused_id_keeps_the_objects_and_marks_the_instance() {
    let mut host = RecordingHost::with_project("/a.mp4", "1");
    host.refuse_writes_to.push(Params::InstanceId);
    let mut shared: ManagerCache<u32> = ManagerCache::new(8);
    let mut instance: GyroflowPluginBaseInstance<u32> = GyroflowPluginBaseInstance::new();
    drop(instance.store_built(&mut shared, "k", 5));
    let outcome =
        instance.param_changed(&mut host, &mut shared, Params::Smoothness, true, &nothing_outside());
    assert!(matches!(outcome, Err(PluginError::ParameterAccessFailed(_))));
    assert!(instance.ever_changed);
    assert_eq!(instance.managers.len(), 1);
    assert_eq!(shared.len(), 1);
    assert_eq!(host.texts[&Params::InstanceId], "1");
}

#[test]
fn an_instance_changed_before_keeps_its_id_and_all_its_objects() {
    let mut host = RecordingHost::with_project("/a.mp4", "1");
    host.flags.insert(Params::UseGyroflowsKeyframes, false);
    let mut shared: ManagerCache<u32> = ManagerCache::new(8);
    let mut instance: GyroflowPluginBaseInstance<u32> = GyroflowPluginBaseInstance::new();
    instance.ever_changed = true;
    let first = instance.store_built(&mut shared, "k1", 5);
    let second = instance.store_built(&mut shared, "k2", 6);
    shared.put("foreign".to_string(), Arc::new(1));
    let actions = instance
        .param_changed(&mut host, &mut shared, Params::Smoothness, true, &nothing_outside())
        .unwrap();
    assert_eq!(
        actions,
        vec![
            EngineAction::InvalidateSmoothing,
            EngineAction::InvalidateZooming,
            EngineAction::InvalidateUndistortion,
        ]
    );
    assert!(instance.ever_changed);
    assert_eq!(host.texts[&Params::InstanceId], "1");
    assert_eq!(instance.managers.keys(), vec!["k2".to_string(), "k1".to_string()]);
    assert!(Arc::ptr_eq(&instance.managers.peek("k1").unwrap(), &first));
    assert!(Arc::ptr_eq(&instance.managers.peek("k2").unwrap(), &second));
    assert_eq!(
        shared.keys(),
        vec!["foreign".to_string(), "k2".to_string(), "k1".to_string()]
    );
}

#[test]
fn an_edit_by_the_host_asks_nothing_and_keeps_both_caches() {
    let mut host = RecordingHost::new();
    for p in all_params() {
        host.refuse_writes_to.push(p);
        host.refuse_reads_of.push(p);
    }
    let mut shared: ManagerCache<u32> = ManagerCache::new(8);
    let mut instance: GyroflowPluginBaseInstance<u32> = GyroflowPluginBaseInstance::new();
    drop(instance.store_built(&mut shared, "k", 5));
    for param in [Params::Fov, Params::Smoothness, Params::ZoomLimit, Params::Rotation] {
        let actions = instance
            .param_changed(&mut host, &mut shared, param, false, &nothing_outside())
            .unwrap();
        assert!(actions.is_empty());
        assert!(!instance.ever_changed);
        assert_eq!(instance.managers.len(), 1);
        assert_eq!(shared.len(), 1);
    }
    assert!(host.log.is_empty());
}

#[test]
fn a_reload_lets_go_of_the_objects_whatever_the_host_answers() {
    for param in [Params::ProjectPath, Params::ReloadProject] {
        for user_edited in [false, true] {
            let mut host = RecordingHost::new();
            for p in all_params() {
                host.refuse_writes_to.push(p);
                host.refuse_reads_of.push(p);
            }
            let mut shared: ManagerCache<u32> = ManagerCache::new(8);
            let mut instance: GyroflowPluginBaseInstance<u32> = GyroflowPluginBaseInstance::new();
            instance.reload_values_from_project = false;
            drop(instance.store_built(&mut shared, "k", 5));
            let foreign = Arc::new(1);
            shared.put("foreign".to_string(), foreign.clone());
            let actions = instance
                .param_changed(&mut host, &mut shared, param, user_edited, &nothing_outside())
                .unwrap();
            assert!(actions.is_empty());
            assert!(instance.reload_values_from_project);
            assert_eq!(instance.managers.len(), 0);
            assert_eq!(shared.keys(), vec!["foreign".to_string()]);
        }
    }
}

#[test]
fn a_refused_write_ends_the_edit_with_the_error_of_the_host() {
    let mut host = RecordingHost::with_project("/a.mp4", "1");
    host.refuse_writes_to.push(Params::Status);
    let mut shared: ManagerCache<u32> = ManagerCache::new(8);
    let mut instance: GyroflowPluginBaseInstance<u32> = GyroflowPluginBaseInstance::new();
    drop(instance.store_built(&mut shared, "k", 5));
    let result =
        instance.param_changed(&mut host, &mut shared, Params::Fov, true, &nothing_outside());
    assert_eq!(
        result,
        Err(PluginError::ParameterAccessFailed("Status is read-only".to_string()))
    );
    assert!(!instance.ever_changed);
    assert_eq!(instance.managers.len(), 1);
}

#[test]
fn edits_bake_the_keyframes_anew() {
    let mut host = RecordingHost::with_project("/a.mp4", "1");
    host.numbers.insert(Params::Fov, ex(1_500_000));
    host.numbers.insert(Params::Smoothness, ex(40_000_000));
    let mut shared: ManagerCache<u32> = ManagerCache::new(8);
    let mut instance: GyroflowPluginBaseInstance<u32> = GyroflowPluginBaseInstance::new();
    instance.param_changed(&mut host, &mut shared, Params::Fov, true, &nothing_outside()).unwrap();
    let table = &instance.keyframable_params.cached_keyframes;
    assert_eq!(
        table.keyframes(KeyframeType::Fov),
        vec![Keyframe { timestamp_us: 0, value: ex(1_500_000) }]
    );
    assert_eq!(
        table.keyframes(KeyframeType::SmoothingParamSmoothness),
        vec![Keyframe { timestamp_us: 0, value: ex(400_000) }]
    );
}

#[test]
fn opencl_is_disabled_once() {
    let mut instance: GyroflowPluginBaseInstance<u32> = GyroflowPluginBaseInstance::new();
    assert!(instance.disable_opencl());
    assert!(instance.opencl_disabled);
    assert!(!instance.disable_opencl());
}

#[test]
fn the_writes_of_a_swap_and_of_a_fit() {
    assert_eq!(
        size_swap_writes(ex(3_840_000_000), ex(2_160_000_000)),
        vec![
            PortWrite::Number(Params::OutputWidth, ex(2_160_000_000)),
            PortWrite::Number(Params::OutputHeight, ex(3_840_000_000)),
        ]
    );
    assert_eq!(
        size_fit_writes((1280, 720)),
        vec![
            PortWrite::Number(Params::OutputWidth, ex(1_280_000_000)),
            PortWrite::Number(Params::OutputHeight, ex(720_000_000)),
        ]
    );
    assert_eq!(
        size_fit_writes((0, usize::MAX)),
        vec![
            PortWrite::Number(Params::OutputWidth, ex(0)),
            PortWrite::Number(Params::OutputHeight, ex(i64::MAX)),
        ]
    );
}

#[test]
fn a_refused_width_ends_the_swap_before_the_height_is_written() {
    let mut host = RecordingHost::with_project("/a.mp4", "1");
    host.numbers.insert(Params::OutputWidth, ex(3_840_000_000));
    host.numbers.insert(Params::OutputHeight, ex(2_160_000_000));
    host.refuse_writes_to.push(Params::OutputWidth);
    let mut shared: ManagerCache<u32> = ManagerCache::new(8);
    let mut instance: GyroflowPluginBaseInstance<u32> = GyroflowPluginBaseInstance::new();
    drop(instance.store_built(&mut shared, "k", 5));
    let outcome =
        instance.param_changed(&mut host, &mut shared, Params::OutputSizeSwap, true, &nothing_outside());
    assert!(matches!(outcome, Err(PluginError::ParameterAccessFailed(_))));
    assert!(host.log.is_empty());
    assert_eq!(host.numbers[&Params::OutputHeight], ex(2_160_000_000));
}

#[test]
fn an_instance_without_objects_reads_no_size() {
    let mut host = RecordingHost::with_project("/a.mp4", "1");
    host.refuse_reads_of.push(Params::OutputWidth);
    host.refuse_reads_of.push(Params::OutputHeight);
    let mut shared: ManagerCache<u32> = ManagerCache::new(8);
    let mut instance: GyroflowPluginBaseInstance<u32> = GyroflowPluginBaseInstance::new();
    instance.timeline_size = (1280, 720);
    let actions = instance
        .param_changed(&mut host, &mut shared, Params::OutputSizeToTimeline, true, &nothing_outside())
        .unwrap();
    assert!(actions.is_empty());
    assert_eq!(
        host.log,
        vec![
            PortWrite::Number(Params::OutputWidth, ex(1_280_000_000)),
            PortWrite::Number(Params::OutputHeight, ex(720_000_000)),
        ]
    );
}

#[test]
fn nothing_to_send_succeeds_without_asking_the_host() {
    let mut host = RecordingHost::new();
    for p in all_params() {
        host.refuse_writes_to.push(p);
    }
    assert_eq!(send_until_refused(&mut host, &Vec::new()), Ok(()));
    assert!(host.log.is_empty());
    let one = vec![PortWrite::Flag(Params::ToggleOverview, true)];
    assert!(send_until_refused(&mut host, &one).is_err());
}

#[test]
fn a_hit_notes_the_size_of_the_timeline_and_a_failure_does_not() {
    let mut shared: ManagerCache<u32> = ManagerCache::new(8);
    let mut instance: GyroflowPluginBaseInstance<u32> = GyroflowPluginBaseInstance::new();
    let mut unreadable = RecordingHost::with_project("/a.mp4", "1");
    unreadable.refuse_reads_of.push(Params::InstanceId);
    assert!(instance.stab_manager(&mut unreadable, &mut shared, (1920, 1080)).is_err());
    assert_eq!(instance.timeline_size, (0, 0));
    let mut host = RecordingHost::with_project("/a.mp4", "1");
    match instance.stab_manager(&mut host, &mut shared, (1920, 1080)).unwrap() {
        Acquired::Missing(request) => {
            assert_eq!(request.key, "/a.mp4false1");
            assert_eq!(request.path, "/a.mp4");
            assert!(!request.disable_stretch);
            assert!(!request.is_project);
        }
        Acquired::Cached(_) => panic!("nothing was stored"),
    }
    assert_eq!(instance.timeline_size, (1920, 1080));
    assert_eq!(shared.len(), 0);
    assert_eq!(instance.managers.len(), 0);
}
