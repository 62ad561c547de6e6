use gyroflow_plugin_base::definitions::{get_param_definitions, ParameterType, DEFINITION_COUNT};
use gyroflow_plugin_base::fixed::Fixed;
use gyroflow_plugin_base::geometry::get_center_rect;
use gyroflow_plugin_base::hosts::{
    first_project_for, host_destretches, pending_path, select_default_index, status_color,
    ArbString, CurrentFileInfo, StatusColor,
};
use gyroflow_plugin_base::image::{DecodedFrame, PngImage};
use gyroflow_plugin_base::instance::GyroflowPluginBase;
use gyroflow_plugin_base::pacing::{
    render_status, snap_to_frame, speed_between, RenderStatus, SpeedScan,
};
use gyroflow_plugin_base::params::{same_text, Params, PARAM_COUNT};

fn hx(micros: i64) -> Fixed {
    Fixed { micros }
}

fn encode_png(width: u32, height: u32, rgba: &[u8]) -> Vec<u8> {
    let mut bytes: Vec<u8> = Vec::new();
    {
        let mut encoder = png::Encoder::new(&mut bytes, width, height);
        encoder.set_color(png::ColorType::Rgba);
        encoder.set_depth(png::BitDepth::Eight);
        let mut writer = encoder.write_header().unwrap();
        writer.write_image_data(rgba).unwrap();
    }
    bytes
}

#[test]
fn parameters_are_numbered_in_order() {
    assert_eq!(PARAM_COUNT, 52);
    for i in 0..PARAM_COUNT {
        assert_eq!(Params::from_index(i).unwrap().index(), i);
    }
    assert!(Params::from_index(PARAM_COUNT).is_none());
    assert_eq!(Params::Logo.index(), 0);
    assert_eq!(Params::FusionStartFrame.index(), 51);
}

#[test]
fn names_and_parameters_round_trip() {
    for i in 0..PARAM_COUNT {
        let param = Params::from_index(i).unwrap();
        assert_eq!(param.to_string(), format!("{param:?}"));
        assert_eq!(param.name(), param.to_string());
        assert_eq!(Params::from_str(param.name()), Some(param));
    }
}

#[test]
fn unknown_names_are_no_parameters() {
    assert_eq!(Params::from_str("fov"), None);
    assert_eq!(Params::from_str(""), None);
    assert_eq!(Params::from_str("Fov "), None);
    assert_eq!(Params::from_str("ProjectGroupEnd"), Some(Params::ProjectGroupEnd));
}

#[test]
fn texts_compare_letter_for_letter() {
    assert!(same_text("abc", "abc"));
    assert!(!same_text("abc", "abd"));
    assert!(!same_text("abc", "ab"));
    assert!(same_text("", ""));
}

#[test]
fn a_frame_close_to_the_ratio_is_taken_whole() {
    assert_eq!(get_center_rect(1920, 1080, hx(1_777_778)), (0, 0, 1920, 1080));
    assert_eq!(get_center_rect(11, 10, hx(1_000_000)), (0, 0, 11, 10));
    assert_eq!(get_center_rect(9, 10, hx(1_000_000)), (0, 0, 9, 10));
    assert_eq!(get_center_rect(0, 0, hx(1_777_778)), (0, 0, 0, 0));
}

#[test]
fn a_frame_that_is_too_wide_keeps_its_height() {
    assert_eq!(get_center_rect(1920, 1080, hx(1_333_333)), (240, 0, 1440, 1080));
    assert_eq!(get_center_rect(12, 10, hx(1_000_000)), (1, 0, 10, 10));
    assert_eq!(get_center_rect(3840, 1080, hx(1_777_778)), (960, 0, 1920, 1080));
}

#[test]
fn a_frame_that_is_too_narrow_keeps_its_width() {
    assert_eq!(get_center_rect(1000, 1000, hx(2_000_000)), (0, 250, 1000, 500));
    assert_eq!(get_center_rect(1080, 1920, hx(1_777_778)), (0, 656, 1080, 607));
    assert_eq!(get_center_rect(0, 10, hx(1_000_000)), (0, 5, 0, 0));
}

#[test]
fn frames_without_height_and_ratios_without_size() {
    assert_eq!(get_center_rect(5, 0, hx(1_000_000)), (2, 0, 0, 0));
    assert_eq!(get_center_rect(10, 10, hx(0)), (5, 0, 0, 10));
    assert_eq!(get_center_rect(10, 10, hx(-1_000_000)), (5, 0, 0, 10));
    assert_eq!(get_center_rect(0, 10, hx(0)), (0, 0, 0, 10));
}

#[test]
fn the_rectangle_always_fits_the_frame() {
    for (w, h) in [(1usize, 1usize), (7, 3), (3, 7), (4096, 2160), (usize::MAX, 1), (1, usize::MAX)] {
        for ratio in [1i64, 500_000, 1_000_000, 1_777_778, 2_390_000, i64::MAX, -5, i64::MIN] {
            let (x, y, rw, rh) = get_center_rect(w, h, hx(ratio));
            assert!(x.checked_add(rw).unwrap() <= w);
            assert!(y.checked_add(rh).unwrap() <= h);
        }
    }
}

#[test]
fn the_shared_state_offers_the_same_rectangle() {
    assert_eq!(
        GyroflowPluginBase::<u8>::get_center_rect(1920, 1080, hx(1_333_333)),
        (240, 0, 1440, 1080)
    );
    assert_eq!(GyroflowPluginBase::<u8>::get_param_definitions().len(), 13);
}

#[test]
fn timestamps_snap_to_the_start_of_their_frame() {
    assert_eq!(snap_to_frame(150_000, hx(10_000_000)), 100_000);
    assert_eq!(snap_to_frame(100_000, hx(10_000_000)), 100_000);
    assert_eq!(snap_to_frame(99_000, hx(10_000_000)), 0);
    assert_eq!(snap_to_frame(0, hx(10_000_000)), 0);
    assert_eq!(snap_to_frame(33_000, hx(29_970_000)), 0);
}

#[test]
fn a_timestamp_a_hair_before_a_frame_snaps_forward() {
    assert_eq!(snap_to_frame(33_366, hx(29_970_000)), 33_367);
    assert_eq!(snap_to_frame(99_950, hx(10_000_000)), 100_000);
    assert_eq!(snap_to_frame(99_900, hx(10_000_000)), 0);
    assert_eq!(snap_to_frame(99_901, hx(10_000_000)), 100_000);
}

#[test]
fn negative_timestamps_snap_backwards() {
    assert_eq!(snap_to_frame(-1, hx(10_000_000)), -100_000);
    assert_eq!(snap_to_frame(-100_000, hx(10_000_000)), -100_000);
    assert_eq!(snap_to_frame(-100_001, hx(10_000_000)), -200_000);
    assert_eq!(snap_to_frame(i64::MIN, hx(1)), i64::MIN);
    assert_eq!(snap_to_frame(i64::MAX, hx(i64::MAX)), i64::MAX);
}

#[test]
fn status_of_a_rendered_clip() {
    let fps = hx(30_000_000);
    assert_eq!(render_status(hx(29_970_000), fps, true, true), RenderStatus::FpsMismatch);
    assert_eq!(render_status(hx(30_010_001), fps, true, true), RenderStatus::FpsMismatch);
    assert_eq!(render_status(hx(30_010_000), fps, true, true), RenderStatus::Ready);
    assert_eq!(render_status(hx(29_990_000), fps, false, false), RenderStatus::NotSynced);
    assert_eq!(render_status(fps, fps, false, true), RenderStatus::Ready);
    assert_eq!(render_status(fps, fps, true, false), RenderStatus::Ready);
    assert_eq!(render_status(hx(i64::MIN), hx(i64::MAX), true, true), RenderStatus::FpsMismatch);
}

#[test]
fn texts_of_the_render_status() {
    assert_eq!(RenderStatus::Ready.texts(), ("OK", "OK"));
    assert_eq!(RenderStatus::FpsMismatch.texts().0, "Timeline fps mismatch!");
    assert_eq!(RenderStatus::NotSynced.texts().0, "Not synced. Open in Gyroflow");
    assert!(RenderStatus::Ready.is_ok());
    assert!(!RenderStatus::FpsMismatch.is_ok());
    assert!(!RenderStatus::NotSynced.is_ok());
}

#[test]
fn speed_between_two_samples() {
    assert_eq!(speed_between(1000, 0, 1000, 0), hx(100_000_000));
    assert_eq!(speed_between(1000, 0, 500, 0), hx(50_000_000));
    assert_eq!(speed_between(33_333, 0, 16_667, 0), hx(50_001_500));
    assert_eq!(speed_between(1000, 0, -2000, 0), hx(-200_000_000));
    assert_eq!(speed_between(0, 0, 5, 0), hx(i64::MAX));
    assert_eq!(speed_between(2000, 1000, 700, 200), hx(50_000_000));
    assert_eq!(speed_between(i64::MAX, i64::MIN, i64::MAX, i64::MIN), hx(100_000_000));
    assert_eq!(speed_between(5, 5, 9, 1), hx(i64::MAX));
    assert_eq!(speed_between(5, 5, 1, 1), hx(0));
}

#[test]
fn the_speed_scan_ends_where_the_clip_stands_still() {
    let mut scan = SpeedScan::new();
    assert!(scan.step(0, Some(0)));
    assert!(scan.step(1000, Some(500)));
    assert!(scan.step(2000, None));
    assert!(scan.step(3000, Some(2500)));
    assert!(!scan.step(4000, Some(2500)));
    assert!(scan.done);
    assert_eq!(scan.speeds, vec![hx(100_000_000), hx(50_000_000), hx(100_000_000)]);
    assert!(!scan.step(5000, Some(9000)));
    assert_eq!(scan.speeds.len(), 3);
    assert_eq!(scan.previous, Some((3000, 2500)));
}

#[test]
fn the_speed_scan_goes_on_at_a_crawl() {
    let mut scan = SpeedScan::new();
    assert!(scan.step(0, Some(0)));
    // A thousandth of a percent is standing still; a bit more is not.
    assert!(scan.step(100_000_000, Some(1_001)));
    assert_eq!(scan.speeds[1], hx(1_001));
    assert!(!scan.step(200_000_000, Some(2_001)));
    assert_eq!(scan.speeds.len(), 2);
}

#[test]
fn arbitrary_texts() {
    let mut text = ArbString::new();
    assert_eq!(text.get(), "");
    text.set("abc");
    assert_eq!(text.get(), "abc");
    text.set("x");
    assert_eq!(text.val, "x");
    let other = ArbString { val: "y".to_string() };
    assert_eq!(text.interpolate(&other, hx(500_000)).val, "x");
}

#[test]
fn controls_of_the_effect_host() {
    for param in [
        Params::LoadCurrent,
        Params::VideoSpeed,
        Params::FusionStartFrame,
        Params::DontDrawOutside,
        Params::InfoGroup,
        Params::LoadedProject,
    ] {
        assert!(!param.defined_for_effect(true));
        assert!(!param.defined_for_effect(false));
    }
    assert!(Params::CreateCamera.defined_for_effect(true));
    assert!(!Params::CreateCamera.defined_for_effect(false));
    assert!(Params::Fov.defined_for_effect(false));
    assert!(Params::StabilizationSpeedRamp.defined_for_effect(false));
}

#[test]
fn controls_of_the_filter_host() {
    assert!(!Params::StabilizationSpeedRamp.defined_for_filter(true));
    assert!(Params::LoadCurrent.defined_for_filter(true));
    assert!(!Params::LoadCurrent.defined_for_filter(false));
    assert!(Params::VideoSpeed.defined_for_filter(false));
    assert!(Params::DontDrawOutside.defined_for_filter(false));
}

#[test]
fn default_of_a_selection() {
    let options = vec!["None", "Complementary", "VQF", "Simple gyro"];
    assert_eq!(select_default_index(&options, "VQF"), 2);
    assert_eq!(select_default_index(&options, "None"), 0);
    assert_eq!(select_default_index(&options, "Mahony"), 0);
    assert_eq!(select_default_index(&Vec::new(), "VQF"), 0);
    assert_eq!(select_default_index(&vec!["a", "b", "b"], "b"), 1);
}

#[test]
fn colour_of_the_status() {
    assert_eq!(status_color("OK"), StatusColor::Green);
    assert_eq!(status_color("Calculating..."), StatusColor::Yellow);
    assert_eq!(status_color("Project not loaded"), StatusColor::Red);
    assert_eq!(status_color(""), StatusColor::Red);
}

#[test]
fn footage_with_square_pixels_is_not_destretched() {
    assert!(!host_destretches(hx(1_000_000)));
    assert!(!host_destretches(hx(1_004_999)));
    assert!(!host_destretches(hx(995_000)));
    assert!(host_destretches(hx(1_005_000)));
    assert!(host_destretches(hx(994_999)));
    assert!(host_destretches(hx(1_333_333)));
    assert!(host_destretches(hx(0)));
}

#[test]
fn the_first_project_with_the_name_of_the_media_is_found() {
    let names: Vec<String> = ["GX01.mp4", "GX010001.gyroflow.bak", "GX01_v2.gyroflow", "GX01.gyroflow"]
        .iter()
        .map(|s| s.to_string())
        .collect();
    assert_eq!(first_project_for("GX01", &names), Some(2));
    assert_eq!(first_project_for("GX02", &names), None);
    assert_eq!(first_project_for("", &names), Some(2));
    assert_eq!(first_project_for("GX01", &Vec::new()), None);
}

#[test]
fn pending_file_info_names_the_path_to_take() {
    let info = CurrentFileInfo {
        file_path: "/v/a.mp4".to_string(),
        project_path: Some("/v/a.gyroflow".to_string()),
        fps: hx(25_000_000),
        duration_s: hx(10_000_000),
        frame_count: 250,
        width: 1920,
        height: 1080,
        pixel_aspect_ratio: "Square".to_string(),
    };
    assert_eq!(pending_path(true, &Some(info.clone())), Some(("/v/a.gyroflow".to_string(), false)));
    assert_eq!(pending_path(false, &Some(info.clone())), None);
    assert_eq!(pending_path(true, &None), None);
    let mut video_only = info;
    video_only.project_path = None;
    assert_eq!(pending_path(true, &Some(video_only)), Some(("/v/a.mp4".to_string(), true)));
}

#[test]
fn every_definition_names_a_parameter() {
    fn check(definition: &ParameterType, groups_allowed: bool) {
        assert!(Params::from_str(definition.id()).is_some());
        match definition {
            ParameterType::Slider { min, max, default, .. } => {
                assert!(min.micros <= default.micros && default.micros <= max.micros);
            }
            ParameterType::Select { options, default, .. } => {
                assert!(options.contains(default));
            }
            ParameterType::Group { id, parameters, .. } => {
                assert!(groups_allowed);
                assert!(Params::from_str(&format!("{id}End")).is_some());
                for inner in parameters {
                    check(inner, false);
                }
            }
            _ => {}
        }
    }
    let definitions = get_param_definitions();
    assert_eq!(definitions.len(), DEFINITION_COUNT);
    for definition in &definitions {
        check(definition, true);
    }
}

#[test]
fn definitions_keep_their_order_and_values() {
    let definitions = get_param_definitions();
    let ids: Vec<&str> = definitions.iter().map(|d| d.id()).collect();
    assert_eq!(
        ids,
        vec![
            "InstanceId",
            "ProjectPath",
            "ProjectData",
            "EmbeddedLensProfile",
            "EmbeddedPreset",
            "ProjectGroup",
            "AdjustGroup",
            "KeyframesGroup",
            "OutputSizeGroup",
            "ToggleOverview",
            "DontDrawOutside",
            "IncludeProjectData",
            "InfoGroup",
        ]
    );
    match &definitions[6] {
        ParameterType::Group { label, opened, parameters, .. } => {
            assert_eq!(*label, "Adjust parameters");
            assert!(*opened);
            assert_eq!(parameters.len(), 14);
            match &parameters[0] {
                ParameterType::Slider { id, min, max, default, .. } => {
                    assert_eq!(*id, "Smoothness");
                    assert_eq!((min.micros, max.micros, default.micros), (1_000_000, 300_000_000, 50_000_000));
                }
                _ => panic!("smoothness is a slider"),
            }
            match &parameters[12] {
                ParameterType::Select { id, options, default, .. } => {
                    assert_eq!(*id, "IntegrationMethod");
                    assert_eq!(options.len(), 7);
                    assert_eq!(*default, "VQF");
                    assert_eq!(select_default_index(options, default), 2);
                }
                _ => panic!("the integration method is a selection"),
            }
        }
        _ => panic!("the adjustments are a group"),
    }
    match &definitions[7] {
        ParameterType::Group { opened, parameters, .. } => {
            assert!(!*opened);
            assert_eq!(parameters.len(), 4);
        }
        _ => panic!("the keyframes are a group"),
    }
}

#[test]
fn a_png_is_decoded_to_blue_green_red_alpha() {
    let bytes = encode_png(2, 1, &[10, 20, 30, 40, 50, 60, 70, 80]);
    let image = PngImage::new(&bytes);
    assert_eq!(image.width, 2);
    assert_eq!(image.height, 1);
    assert_eq!(image.line_size, 8);
    assert_eq!(image.data, vec![30, 20, 10, 40, 70, 60, 50, 80]);
    assert_ne!(image.data, bytes);
}

#[test]
fn bytes_that_are_no_png_give_no_image() {
    assert!(PngImage::try_new(&[1, 2, 3, 4]).is_none());
    assert!(PngImage::try_new(&[]).is_none());
    let bytes = encode_png(1, 2, &[1, 2, 3, 4, 5, 6, 7, 8]);
    assert!(PngImage::try_new(&bytes[..bytes.len() / 2]).is_none());
    let image = PngImage::try_new(&bytes).unwrap();
    assert_eq!((image.width, image.height, image.line_size), (1, 2, 4));
    assert_eq!(image.data, vec![3, 2, 1, 4, 7, 6, 5, 8]);
}

#[test]
fn a_decoded_frame_is_swapped_once() {
    let frame = DecodedFrame {
        width: 1,
        height: 1,
        line_size: 4,
        frame_size: 4,
        buffer: vec![1, 2, 3, 4, 9, 9, 9, 9],
    };
    let image = PngImage::from_frame(frame);
    assert_eq!(image.data, vec![3, 2, 1, 4]);
    assert_eq!((image.width, image.height, image.line_size), (1, 1, 4));
    let short = DecodedFrame { width: 2, height: 1, line_size: 8, frame_size: 8, buffer: vec![1, 2, 3, 4, 5] };
    assert_eq!(PngImage::from_frame(short).data, vec![3, 2, 1, 4, 0, 0, 5, 0]);
}

#[test]
fn no_two_definitions_share_an_id_at_any_depth() {
    let definitions = get_param_definitions();
    assert!(matches!(definitions[0], ParameterType::HiddenString { id: "InstanceId" }));
    let mut ids: Vec<&str> = Vec::new();
    for definition in &definitions {
        ids.push(definition.id());
        if let ParameterType::Group { parameters, .. } = definition {
            for inner in parameters {
                ids.push(inner.id());
            }
        }
    }
    assert_eq!(ids.len(), 46);
    for (i, id) in ids.iter().enumerate() {
        assert!(!ids[..i].contains(id), "{id} is defined twice");
        assert_eq!(Params::from_str(id).map(|p| p.name()), Some(*id));
    }
}

#[test]
fn the_name_of_a_parameter_gives_the_parameter_back() {
    for i in 0..PARAM_COUNT {
        let param = Params::from_index(i).unwrap();
        assert_eq!(Params::from_str(param.name()), Some(param));
        assert_eq!(Params::from_str(&param.to_string()), Some(param));
    }
    assert_eq!(Params::from_str("fov"), None);
    assert_eq!(Params::from_str(""), None);
}
