use gyroflow_plugin_base::fixed::Fixed;
use gyroflow_plugin_base::instance::{GyroflowPluginBaseInstance, Settings};
use gyroflow_plugin_base::instances::InstanceTable;
use gyroflow_plugin_base::cache::ManagerCache;
use gyroflow_plugin_base::keyframes::{Keyframe, KeyframeType};
use gyroflow_plugin_base::lifecycle::{payload_of, Instance, InstanceRecord, FORMAT_VERSION};
use gyroflow_plugin_base::params::Params;
use gyroflow_plugin_base::stored::StoredParams;
use gyroflow_plugin_base::text::{cache_key, decimal, fresh_instance_id};
use std::sync::Arc;

fn lx(micros: i64) -> Fixed {
    Fixed { micros }
}

fn effect_settings() -> Settings {
    Settings {
        reload_values_from_project: true,
        original_video_size: (0, 0),
        original_output_size: (0, 0),
        timeline_size: (0, 0),
        num_frames: 0,
        fps: lx(0),
        has_motion: false,
        ever_changed: false,
        cache_keyframes_every_frame: true,
        framebuffer_inverted: false,
        anamorphic_adjust_size: false,
        always_set_input_rotation: true,
        opencl_disabled: false,
    }
}

fn settings_equal(a: &Settings, b: &Settings) -> bool {
    a.reload_values_from_project == b.reload_values_from_project
        && a.original_video_size == b.original_video_size
        && a.original_output_size == b.original_output_size
        && a.timeline_size == b.timeline_size
        && a.num_frames == b.num_frames
        && a.fps == b.fps
        && a.has_motion == b.has_motion
        && a.ever_changed == b.ever_changed
        && a.cache_keyframes_every_frame == b.cache_keyframes_every_frame
        && a.framebuffer_inverted == b.framebuffer_inverted
        && a.anamorphic_adjust_size == b.anamorphic_adjust_size
        && a.always_set_input_rotation == b.always_set_input_rotation
        && a.opencl_disabled == b.opencl_disabled
}

fn assert_fresh_stored(stored: &StoredParams, id: &str) {
    assert_eq!(stored.version, 1);
    assert_eq!(stored.media_file_path, "");
    assert_eq!(stored.instance_id, id);
    assert_eq!(stored.sequence_size, (0, 0));
    assert_eq!(stored.media_fps, lx(0));
    assert_eq!(stored.media_fps_ticks, 0);
    assert!(stored.pending_params_f64.is_empty());
    assert!(stored.pending_params_bool.is_empty());
    assert!(stored.pending_params_i32.is_empty());
    assert_eq!(stored.pending_params_str.get(Params::Status), Some(&"---".to_string()));
    for i in 0..gyroflow_plugin_base::params::PARAM_COUNT {
        let p = Params::from_index(i).unwrap();
        if p != Params::Status {
            assert!(!stored.pending_params_str.contains(p));
        }
        assert!(!stored.premiere_keyframed_params.contains(p));
    }
    assert!(stored.speed_per_frame.is_empty());
    assert_eq!(stored.speed_checksum, 0);
}

#[test]
fn decimal_text_of_numbers() {
    assert_eq!(decimal(0), "0");
    assert_eq!(decimal(7), "7");
    assert_eq!(decimal(10), "10");
    assert_eq!(decimal(1_234_567_890), "1234567890");
    assert_eq!(decimal(u64::MAX), "18446744073709551615");
}

#[test]
fn cache_keys_join_path_stretch_and_id() {
    assert_eq!(cache_key("/a/b.mp4", false, "17"), "/a/b.mp4false17");
    assert_eq!(cache_key("/a/b.mp4", true, "17"), "/a/b.mp4true17");
    assert_eq!(cache_key("", false, ""), "false");
}

#[test]
fn fresh_ids_are_decimal_numbers() {
    for _ in 0..20 {
        let id = fresh_instance_id();
        assert!(!id.is_empty());
        assert_eq!(id.parse::<u64>().unwrap().to_string(), id);
    }
}

#[test]
fn fresh_ids_differ() {
    let ids: Vec<String> = (0..8).map(|_| fresh_instance_id()).collect();
    assert!(ids.iter().any(|id| *id != ids[0]));
}

#[test]
fn a_fresh_instance_has_the_state_of_a_new_effect() {
    let instance: Instance<u8> = Instance::with_id(12345);
    assert_fresh_stored(&instance.stored, "12345");
    let live = instance.gyroflow.as_ref().unwrap();
    assert!(settings_equal(&live.current_settings(), &effect_settings()));
    assert_eq!(live.managers.len(), 0);
    assert_eq!(live.managers.cap(), 20);
    assert!(!live.keyframable_params.use_gyroflows_keyframes);
    assert!(!instance.ever_changed());
}

#[test]
fn new_instances_draw_their_id() {
    let instance: Instance<u8> = Instance::new();
    let id = instance.stored.instance_id.clone();
    assert_fresh_stored(&instance.stored, &id);
    assert_eq!(id.parse::<u64>().unwrap().to_string(), id);
}

#[test]
fn an_instance_without_an_id_gets_one_and_counts_as_unchanged() {
    let mut base: GyroflowPluginBaseInstance<u8> = GyroflowPluginBaseInstance::new();
    let mut id = String::new();
    base.assign_instance_id(&mut id, 99);
    assert_eq!(id, "99");
    assert!(!base.ever_changed);
    assert!(settings_equal(
        &base.current_settings(),
        &GyroflowPluginBaseInstance::<u8>::new().current_settings()
    ));
    base.assign_instance_id(&mut id, 100);
    assert_eq!(id, "99");
    assert!(!base.ever_changed);
    base.ever_changed = true;
    let mut other = String::new();
    base.assign_instance_id(&mut other, 7);
    assert_eq!(other, "7");
    assert!(base.ever_changed);
}

#[test]
fn initialize_instance_id_draws_only_for_an_empty_id() {
    let mut base: GyroflowPluginBaseInstance<u8> = GyroflowPluginBaseInstance::new();
    let mut id = "keep".to_string();
    base.initialize_instance_id(&mut id);
    assert_eq!(id, "keep");
    assert!(!base.ever_changed);
    let mut empty = String::new();
    base.initialize_instance_id(&mut empty);
    assert!(!empty.is_empty());
    assert_eq!(empty.parse::<u64>().unwrap().to_string(), empty);
    assert!(!base.ever_changed);
}

#[test]
fn the_live_part_of_a_new_effect() {
    let mut id = "5".to_string();
    let live: GyroflowPluginBaseInstance<u8> = Instance::<u8>::new_base_instance(&mut id);
    assert_eq!(id, "5");
    assert!(settings_equal(&live.current_settings(), &effect_settings()));
    let mut none = String::new();
    let first: GyroflowPluginBaseInstance<u8> =
        Instance::<u8>::new_base_instance_with(&mut none, 31);
    assert_eq!(none, "31");
    assert!(!first.ever_changed);
    assert!(settings_equal(&first.current_settings(), &effect_settings()));
    assert_eq!(first.managers.len(), 0);
    assert!(!first.keyframable_params.use_gyroflows_keyframes);
    assert_eq!(first.keyframable_params.cached_keyframes.len(KeyframeType::Fov), 0);
}

#[test]
fn unreadable_blob_restores_a_fresh_instance() {
    let instance: Instance<u8> = Instance::restore(None, 777);
    assert_fresh_stored(&instance.stored, "777");
    let live = instance.gyroflow.as_ref().unwrap();
    assert!(settings_equal(&live.current_settings(), &effect_settings()));
    assert_eq!(live.managers.len(), 0);
}

#[test]
fn unflatten_never_fails() {
    let instance: Instance<u8> = Instance::unflatten(1, None);
    let id = instance.stored.instance_id.clone();
    assert_fresh_stored(&instance.stored, &id);
    assert!(instance.gyroflow.is_some());
    let other: Instance<u8> = Instance::unflatten(9, None);
    assert!(other.gyroflow.is_some());
}

#[test]
fn a_record_restores_its_values_without_engine_objects() {
    let mut stored = StoredParams::with_id("41".to_string());
    stored.media_file_path = "/m.mp4".to_string();
    stored.sequence_size = (1920, 1080);
    stored.pending_params_f64.insert(Params::Fov, lx(2_000_000));
    let mut settings = effect_settings();
    settings.num_frames = 250;
    settings.fps = lx(25_000_000);
    settings.ever_changed = true;
    settings.reload_values_from_project = false;
    let record = InstanceRecord { stored, gyroflow: Some(settings) };
    let instance: Instance<u8> = Instance::restore(Some(record), 1);
    assert_eq!(instance.stored.instance_id, "41");
    assert_eq!(instance.stored.media_file_path, "/m.mp4");
    assert_eq!(instance.stored.sequence_size, (1920, 1080));
    assert_eq!(instance.stored.pending_params_f64.get(Params::Fov), Some(&lx(2_000_000)));
    let live = instance.gyroflow.as_ref().unwrap();
    assert_eq!(live.num_frames, 250);
    assert_eq!(live.fps, lx(25_000_000));
    assert!(live.ever_changed);
    assert!(!live.reload_values_from_project);
    assert_eq!(live.managers.len(), 0);
}

#[test]
fn a_record_without_a_live_part_gets_a_new_one() {
    let record = InstanceRecord { stored: StoredParams::with_id("41".to_string()), gyroflow: None };
    let instance: Instance<u8> = Instance::restore(Some(record), 5);
    assert_eq!(instance.stored.instance_id, "41");
    assert!(settings_equal(
        &instance.gyroflow.as_ref().unwrap().current_settings(),
        &effect_settings()
    ));
    let without_id =
        InstanceRecord { stored: StoredParams::with_id(String::new()), gyroflow: None };
    let named: Instance<u8> = Instance::restore(Some(without_id), 5);
    assert_eq!(named.stored.instance_id, "5");
    assert!(!named.gyroflow.as_ref().unwrap().ever_changed);
    assert!(settings_equal(
        &named.gyroflow.as_ref().unwrap().current_settings(),
        &effect_settings()
    ));
}

#[test]
fn flatten_saves_the_durable_state_only() {
    let mut instance: Instance<u32> = Instance::with_id(3);
    let mut shared: ManagerCache<u32> = ManagerCache::new(8);
    instance.stored.media_file_path = "/m.mp4".to_string();
    instance.stored.speed_per_frame = vec![lx(100_000_000), lx(50_000_000)];
    let live = instance.gyroflow.as_mut().unwrap();
    live.num_frames = 10;
    drop(live.store_built(&mut shared, "k", 1));
    let (version, record) = instance.flatten();
    assert_eq!(version, FORMAT_VERSION);
    assert_eq!(version, 1);
    assert_eq!(record.stored.instance_id, "3");
    assert_eq!(record.stored.media_file_path, "/m.mp4");
    assert_eq!(record.stored.speed_per_frame, vec![lx(100_000_000), lx(50_000_000)]);
    assert_eq!(record.gyroflow.as_ref().unwrap().num_frames, 10);
    // What is saved comes back; what is live is built again on demand.
    let back: Instance<u32> = Instance::restore(Some(record), 0);
    assert_eq!(back.stored.instance_id, "3");
    assert_eq!(back.gyroflow.as_ref().unwrap().num_frames, 10);
    assert_eq!(back.gyroflow.as_ref().unwrap().managers.len(), 0);
}

#[test]
fn payload_follows_the_version() {
    assert_eq!(payload_of(&vec![1, 0, 9, 8, 7]), Some(vec![9, 8, 7]));
    assert_eq!(payload_of(&vec![1, 0, 9]), Some(vec![9]));
    assert_eq!(payload_of(&vec![1, 0]), None);
    assert_eq!(payload_of(&vec![1]), None);
    assert_eq!(payload_of(&Vec::new()), None);
}

#[test]
fn edits_that_fork() {
    for param in [
        Params::Fov,
        Params::Smoothness,
        Params::ZoomLimit,
        Params::LensCorrectionStrength,
        Params::HorizonLockAmount,
        Params::HorizonLockRoll,
        Params::AdditionalPitch,
        Params::AdditionalYaw,
        Params::Rotation,
        Params::InputRotation,
        Params::VideoSpeed,
        Params::UseGyroflowsKeyframes,
        Params::RecalculateKeyframes,
    ] {
        assert!(param.forks());
    }
    for param in [
        Params::OutputHeight,
        Params::OutputWidth,
        Params::OutputSizeSwap,
        Params::OutputSizeToTimeline,
        Params::IntegrationMethod,
        Params::Status,
        Params::ToggleOverview,
        Params::Browse,
        Params::DisableStretch,
        Params::ProjectPath,
    ] {
        assert!(!param.forks());
    }
}

#[test]
fn begin_edit_asks_for_a_fork_once() {
    let mut instance: Instance<u8> = Instance::with_id(3);
    instance.stored.sequence_size = (1920, 1080);
    assert!(instance.begin_edit(Params::Fov));
    assert_eq!(instance.stored.sequence_size, (1920, 1080));
    assert!(!instance.begin_edit(Params::Status));
    assert!(!instance.begin_edit(Params::ToggleOverview));
    assert_eq!(instance.stored.sequence_size, (1920, 1080));
    for size_edit in [
        Params::OutputWidth,
        Params::OutputHeight,
        Params::OutputSizeSwap,
        Params::OutputSizeToTimeline,
    ] {
        instance.stored.sequence_size = (1920, 1080);
        assert!(!instance.begin_edit(size_edit));
        assert_eq!(instance.stored.sequence_size, (0, 0));
        assert_eq!(instance.stored.instance_id, "3");
        assert!(!instance.gyroflow.as_ref().unwrap().ever_changed);
    }
    assert!(instance.begin_edit(Params::Smoothness));
    instance.gyroflow.as_mut().unwrap().ever_changed = true;
    assert!(!instance.begin_edit(Params::Fov));
    instance.stored.sequence_size = (10, 10);
    assert!(!instance.begin_edit(Params::OutputSizeSwap));
    assert_eq!(instance.stored.sequence_size, (0, 0));
}

#[test]
fn a_fork_keeps_everything_but_the_id() {
    let mut instance: Instance<u32> = Instance::with_id(3);
    let mut shared: ManagerCache<u32> = ManagerCache::new(8);
    instance.stored.media_file_path = "/m.mp4".to_string();
    instance.stored.sequence_size = (1920, 1080);
    instance.stored.media_fps = lx(24_000_000);
    instance.stored.media_fps_ticks = 10_584_000_000;
    instance.stored.pending_params_f64.insert(Params::Fov, lx(1_500_000));
    instance.stored.pending_params_bool.insert(Params::DisableStretch, true);
    instance.stored.pending_params_str.insert(Params::ProjectPath, "/m.gyroflow".to_string());
    instance.stored.pending_params_i32.insert(Params::Interpolation, 3);
    instance.stored.premiere_keyframed_params.insert(Params::Smoothness);
    instance.stored.speed_per_frame = vec![lx(100_000_000)];
    instance.stored.speed_checksum = 77;
    let live = instance.gyroflow.as_mut().unwrap();
    live.num_frames = 12;
    live.keyframable_params.cached_keyframes.set(KeyframeType::Fov, 0, lx(9));
    let object = live.store_built(&mut shared, "k", 5);

    let copy = instance.fork(4);

    assert_eq!(copy.stored.instance_id, "4");
    assert_ne!(copy.stored.instance_id, instance.stored.instance_id);
    assert_eq!(copy.stored.version, 1);
    assert_eq!(copy.stored.media_file_path, "/m.mp4");
    assert_eq!(copy.stored.sequence_size, (1920, 1080));
    assert_eq!(copy.stored.media_fps, lx(24_000_000));
    assert_eq!(copy.stored.media_fps_ticks, 10_584_000_000);
    assert_eq!(copy.stored.pending_params_f64.entries(), vec![(Params::Fov, lx(1_500_000))]);
    assert_eq!(copy.stored.pending_params_bool.entries(), vec![(Params::DisableStretch, true)]);
    assert_eq!(
        copy.stored.pending_params_str.get(Params::ProjectPath),
        Some(&"/m.gyroflow".to_string())
    );
    assert_eq!(copy.stored.pending_params_str.get(Params::Status), Some(&"---".to_string()));
    assert_eq!(copy.stored.pending_params_i32.entries(), vec![(Params::Interpolation, 3)]);
    assert!(copy.stored.premiere_keyframed_params.contains(Params::Smoothness));
    assert!(!copy.stored.premiere_keyframed_params.contains(Params::Fov));
    assert_eq!(copy.stored.speed_per_frame, vec![lx(100_000_000)]);
    assert_eq!(copy.stored.speed_checksum, 77);
    let forked = copy.gyroflow.as_ref().unwrap();
    assert!(forked.ever_changed);
    assert_eq!(forked.num_frames, 12);
    assert!(Arc::ptr_eq(&forked.managers.peek("k").unwrap(), &object));
    assert_eq!(
        forked.keyframable_params.cached_keyframes.keyframes(KeyframeType::Fov),
        vec![Keyframe { timestamp_us: 0, value: lx(9) }]
    );
    // The instance that was forked is as it was.
    assert_eq!(instance.stored.instance_id, "3");
    assert!(!instance.gyroflow.as_ref().unwrap().ever_changed);
}

#[test]
fn frame_rates_are_brought_in_line() {
    let mut instance: Instance<u8> = Instance::with_id(3);
    instance.stored.media_fps = lx(30_000_000);
    assert_eq!(instance.sync_fps(), lx(30_000_000));
    assert_eq!(instance.stored.media_fps, lx(30_000_000));
    instance.gyroflow.as_mut().unwrap().fps = lx(59_940_000);
    assert_eq!(instance.sync_fps(), lx(59_940_000));
    assert_eq!(instance.stored.media_fps, lx(59_940_000));
}

#[test]
fn a_fork_in_the_table_leaves_the_old_handle_as_it_is() {
    let mut table: InstanceTable<u8> = InstanceTable::new();
    assert!(table.insert(10, Instance::with_id(3)).is_none());
    assert!(table.fork(10, 11, 4));
    assert!(table.contains(10));
    assert!(table.contains(11));
    assert_eq!(table.get(10).unwrap().stored.instance_id, "3");
    assert!(!table.get(10).unwrap().ever_changed());
    assert_eq!(table.get(11).unwrap().stored.instance_id, "4");
    assert!(table.get(11).unwrap().ever_changed());
}

#[test]
fn a_fork_needs_an_instance_and_a_free_handle() {
    let mut table: InstanceTable<u8> = InstanceTable::new();
    table.insert(10, Instance::with_id(3));
    table.insert(12, Instance::with_id(5));
    assert!(!table.fork(99, 11, 4));
    assert!(!table.fork(10, 12, 4));
    assert!(!table.fork(10, 10, 4));
    assert!(!table.contains(11));
    assert_eq!(table.get(12).unwrap().stored.instance_id, "5");
    let mut bare: Instance<u8> = Instance::with_id(6);
    bare.gyroflow = None;
    table.insert(13, bare);
    assert!(!table.fork(13, 14, 4));
    assert!(!table.contains(14));
}

#[test]
fn the_table_gives_instances_back() {
    let mut table: InstanceTable<u8> = InstanceTable::new();
    table.insert(1, Instance::with_id(3));
    let replaced = table.insert(1, Instance::with_id(4)).unwrap();
    assert_eq!(replaced.stored.instance_id, "3");
    assert_eq!(table.remove(1).unwrap().stored.instance_id, "4");
    assert!(table.remove(1).is_none());
    table.insert(2, Instance::with_id(5));
    table.clear();
    assert!(!table.contains(2));
    assert!(table.get(2).is_none());
}
