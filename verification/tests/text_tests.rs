use gyroflow_plugin_base::chars::{
    from_chars, matches_at, replace_all, text_between, to_chars, trim_start_char,
};
use gyroflow_plugin_base::fixed::Fixed;
use gyroflow_plugin_base::frames::{
    aspect_ratio, inside_rect, moved_by_more_than, result_rect, scale_count, scaled_length,
    scaled_rect, scaled_timestamp_us, stride_or_default, trim_update, unescape_path,
};
use gyroflow_plugin_base::hosts::{
    animatable, hash_string, opencl_unusable, render_support, simple_param, RenderOffer,
    RenderSupport, SimpleParamKind, ANIMATABLE_COUNT,
};
use gyroflow_plugin_base::keyframes::KeyframeType;
use gyroflow_plugin_base::launch::{gyroflow_location, launch_plan, LaunchPlan, Platform};
use gyroflow_plugin_base::params::Params;
use gyroflow_plugin_base::text::{ends_with, starts_with};

fn tx(micros: i64) -> Fixed {
    Fixed { micros }
}

fn strings(items: &[&str]) -> Vec<String> {
    items.iter().map(|s| s.to_string()).collect()
}

#[test]
fn texts_and_characters_convert_both_ways() {
    assert_eq!(to_chars("añb"), vec!['a', 'ñ', 'b']);
    assert!(to_chars("").is_empty());
    assert_eq!(from_chars(&vec!['x', 'ÿ', 'z']), "xÿz");
    assert_eq!(text_between(&vec!['a', 'b', 'c', 'd'], 1, 3), "bc");
    assert_eq!(text_between(&vec!['a', 'b'], 2, 2), "");
}

#[test]
fn patterns_are_found_where_they_stand() {
    let text = to_chars("abcabc");
    let pattern = to_chars("bc");
    assert!(matches_at(&text, &pattern, 1));
    assert!(matches_at(&text, &pattern, 4));
    assert!(!matches_at(&text, &pattern, 0));
    assert!(!matches_at(&text, &pattern, 5));
    assert!(!matches_at(&text, &pattern, 99));
    assert!(matches_at(&text, &Vec::new(), 6));
}

#[test]
fn every_occurrence_is_replaced_from_the_left() {
    assert_eq!(replace_all("a/b/c", "/", ":"), "a:b:c");
    assert_eq!(replace_all("aaa", "aa", "b"), "ba");
    assert_eq!(replace_all("abc", "x", "y"), "abc");
    assert_eq!(replace_all("abc", "", "y"), "abc");
    assert_eq!(replace_all("", "a", "b"), "");
    assert_eq!(replace_all("abab", "ab", ""), "");
    assert_eq!(replace_all("xay", "a", "aa"), "xaay");
}

#[test]
fn leading_characters_are_trimmed() {
    assert_eq!(trim_start_char(":::a:b", ':'), "a:b");
    assert_eq!(trim_start_char("a:b", ':'), "a:b");
    assert_eq!(trim_start_char(":::", ':'), "");
    assert_eq!(trim_start_char("", ':'), "");
}

#[test]
fn escaped_paths_get_their_separators_back() {
    assert_eq!(unescape_path("C_DRIVE_SEP_clips_DIR_SEP_a.mp4"), "C:/clips/a.mp4");
    assert_eq!(unescape_path("_DIR_SEP_home_DIR_SEP_me"), "/home/me");
    assert_eq!(unescape_path("plain.mp4"), "plain.mp4");
}

#[test]
fn the_location_of_the_application() {
    assert_eq!(gyroflow_location(Some("/opt/gf"), Platform::Other, false), Some("/opt/gf".to_string()));
    assert_eq!(gyroflow_location(Some(""), Platform::Other, true), None);
    assert_eq!(gyroflow_location(None, Platform::Windows, true), None);
    assert_eq!(
        gyroflow_location(Some(""), Platform::MacOs, true),
        Some("/Applications/Gyroflow.app".to_string())
    );
    assert_eq!(gyroflow_location(None, Platform::MacOs, false), None);
}

#[test]
fn a_mac_is_told_by_script() {
    assert_eq!(
        launch_plan(Platform::MacOs, None, Some("/Users/me/clip.gyroflow")),
        LaunchPlan::Run {
            program: "osascript".to_string(),
            args: strings(&[
                "-e",
                "tell application \"Gyroflow\" to open file \"Users:me:clip.gyroflow\""
            ]),
        }
    );
    assert_eq!(
        launch_plan(Platform::MacOs, Some("/ignored"), Some("")),
        LaunchPlan::Run {
            program: "osascript".to_string(),
            args: strings(&["-e", "tell application \"Gyroflow\" to activate"]),
        }
    );
    assert_eq!(
        launch_plan(Platform::MacOs, None, None),
        LaunchPlan::Run { program: "osascript".to_string(), args: Vec::new() }
    );
}

#[test]
fn elsewhere_the_application_is_run() {
    assert_eq!(
        launch_plan(Platform::Other, Some("/opt/gyroflow"), Some("/p.gyroflow")),
        LaunchPlan::Run {
            program: "/opt/gyroflow".to_string(),
            args: strings(&["--open", "/p.gyroflow"]),
        }
    );
    assert_eq!(
        launch_plan(Platform::Other, Some("/opt/gyroflow"), Some("")),
        LaunchPlan::Run { program: "/opt/gyroflow".to_string(), args: Vec::new() }
    );
    assert_eq!(
        launch_plan(Platform::Windows, Some("C:/gf.exe"), Some("C:/p.gyroflow")),
        LaunchPlan::Run {
            program: "C:/gf.exe".to_string(),
            args: strings(&["--open", "C:/p.gyroflow"]),
        }
    );
    assert_eq!(
        launch_plan(Platform::Other, Some("shell:App"), Some("/p")),
        LaunchPlan::Run { program: "shell:App".to_string(), args: strings(&["--open", "/p"]) }
    );
}

#[test]
fn a_shell_location_on_windows_goes_through_the_shell() {
    assert_eq!(
        launch_plan(Platform::Windows, Some("shell:AppsFolder\\Gyroflow"), Some("C:/p.gyroflow")),
        LaunchPlan::Run {
            program: "cmd.exe".to_string(),
            args: strings(&["/c", "start", "", "shell:AppsFolder\\Gyroflow", "--open", "C:/p.gyroflow"]),
        }
    );
    assert_eq!(
        launch_plan(Platform::Windows, Some("shell:AppsFolder\\Gyroflow"), Some("")),
        LaunchPlan::Run {
            program: "cmd.exe".to_string(),
            args: strings(&["/c", "start", "", "shell:AppsFolder\\Gyroflow"]),
        }
    );
}

#[test]
fn nothing_is_run_without_a_project_or_a_location() {
    assert_eq!(launch_plan(Platform::Other, Some("/opt/gyroflow"), None), LaunchPlan::Nothing);
    assert_eq!(launch_plan(Platform::Other, Some(""), Some("/p")), LaunchPlan::Nothing);
    match launch_plan(Platform::Windows, None, Some("/p")) {
        LaunchPlan::Explain(text) => assert!(text.starts_with("Unable to find Gyroflow app path.")),
        other => panic!("unexpected plan {other:?}"),
    }
}

#[test]
fn output_sizes_follow_the_scale_of_the_host() {
    assert_eq!(scaled_length(tx(3_840_000_000), tx(500_000)), 1920);
    assert_eq!(scaled_length(tx(1_000_000), tx(500_000)), 1);
    assert_eq!(scaled_length(tx(3_000_000), tx(500_000)), 2);
    assert_eq!(scaled_length(tx(-5_000_000), tx(1_000_000)), 0);
    assert_eq!(scaled_length(tx(i64::MAX), tx(i64::MAX)), u32::MAX);
}

#[test]
fn the_result_is_centred_in_the_reference_frame() {
    let one = tx(1_000_000);
    assert_eq!(
        result_rect(1920, 1080, tx(1_280_000_000), tx(720_000_000), one, one),
        (320, 180, 1600, 900)
    );
    assert_eq!(
        result_rect(1920, 1080, tx(3_840_000_000), tx(2_160_000_000), one, one),
        (-960, -540, 2880, 1620)
    );
    assert_eq!(
        result_rect(1920, 1080, tx(1_280_000_000), tx(720_000_000), tx(500_000), tx(250_000)),
        (160, 45, 800, 225)
    );
    assert_eq!(result_rect(3, 3, tx(2_000_000), tx(2_000_000), one, one), (1, 1, 3, 3));
}

#[test]
fn a_trim_is_taken_over_when_it_changed() {
    let duration_ms = tx(10_000_000_000);
    assert_eq!(trim_update(None, None, duration_ms), None);
    assert_eq!(
        trim_update(None, Some((tx(2_000_000), tx(5_000_000))), duration_ms),
        Some((tx(200_000), tx(500_000)))
    );
    assert_eq!(
        trim_update(Some((tx(200_000), tx(500_000))), Some((tx(2_000_000), tx(5_000_000))), duration_ms),
        None
    );
    assert_eq!(
        trim_update(Some((tx(200_000), tx(500_000))), None, duration_ms),
        Some((tx(0), tx(1_000_000)))
    );
    // Differences below a millisecond do not count.
    assert_eq!(
        trim_update(Some((tx(200_000), tx(500_000))), Some((tx(2_000_400), tx(5_000_000))), duration_ms),
        None
    );
    assert_eq!(
        trim_update(Some((tx(200_000), tx(500_000))), Some((tx(2_000_500), tx(5_000_000))), duration_ms),
        Some((tx(200_050), tx(500_000)))
    );
}

#[test]
fn strides_default_to_four_channels_of_floats() {
    assert_eq!(stride_or_default(0, 1920), 30_720);
    assert_eq!(stride_or_default(7680, 1920), 7680);
}

#[test]
fn aspect_ratios() {
    assert_eq!(aspect_ratio(1920, 1080), tx(1_777_778));
    assert_eq!(aspect_ratio(1000, 1000), tx(1_000_000));
    assert_eq!(aspect_ratio(0, 5), tx(0));
    assert_eq!(aspect_ratio(5, 0), tx(i64::MAX));
    assert_eq!(aspect_ratio(0, 0), tx(0));
}

#[test]
fn drawing_inside_the_source_clip() {
    // A 16:9 output inside a 4:3 source that sits at (240, 0) of the frame.
    assert_eq!(inside_rect((240, 0, 1440, 1080), 1920, 1080), (240, 135, 1440, 810));
    assert_eq!(inside_rect((10, 20, 1000, 1000), 500, 500), (10, 20, 1000, 1000));
    assert_eq!(inside_rect((10, 20, 1000, 1000), 500, 1000), (260, 20, 500, 1000));
}

#[test]
fn drawing_at_a_render_scale() {
    assert_eq!(scaled_rect(1920, 1080, tx(500_000), tx(500_000)), Some((0, 540, 960, 540)));
    assert_eq!(scaled_rect(1920, 1080, tx(1_000_000), tx(1_000_000)), None);
    assert_eq!(scaled_rect(1920, 1080, tx(2_000_000), tx(2_000_000)), None);
    assert_eq!(scaled_rect(1920, 1080, tx(-1), tx(500_000)), Some((0, 540, 0, 540)));
    assert_eq!(scale_count(3, tx(500_000)), 2);
    assert_eq!(scale_count(usize::MAX, tx(i64::MAX)), usize::MAX);
    assert_eq!(scale_count(10, tx(0)), 0);
}

#[test]
fn moves_beyond_a_threshold() {
    assert!(moved_by_more_than(tx(500_000), tx(501_001), tx(1_000)));
    assert!(!moved_by_more_than(tx(500_000), tx(501_000), tx(1_000)));
    assert!(moved_by_more_than(tx(500_000), tx(498_999), tx(1_000)));
    assert!(moved_by_more_than(tx(i64::MIN), tx(i64::MAX), tx(i64::MAX)));
    assert!(!moved_by_more_than(tx(7), tx(7), tx(0)));
}

#[test]
fn timestamps_at_a_time_scale() {
    assert_eq!(scaled_timestamp_us(tx(2_500_000), tx(1_000_000)), 2_500_000);
    assert_eq!(scaled_timestamp_us(tx(2_500_000), tx(2_000_000)), 5_000_000);
    assert_eq!(scaled_timestamp_us(tx(1), tx(500_000)), 1);
    assert_eq!(scaled_timestamp_us(tx(-3_000_000), tx(1_000_000)), -3_000_000);
}

#[test]
fn hashes_depend_on_the_text_alone() {
    assert_eq!(hash_string("abc"), hash_string("abc"));
    assert_ne!(hash_string("abc"), hash_string("abd"));
    assert_ne!(hash_string(""), hash_string("a"));
    assert_ne!(hash_string("97"), 97);
}

#[test]
fn the_parameters_the_editor_may_animate() {
    assert_eq!(ANIMATABLE_COUNT, 10);
    let expected = [
        Params::Fov,
        Params::Smoothness,
        Params::ZoomLimit,
        Params::LensCorrectionStrength,
        Params::HorizonLockAmount,
        Params::HorizonLockRoll,
        Params::VideoSpeed,
        Params::Rotation,
        Params::AdditionalYaw,
        Params::AdditionalPitch,
    ];
    for (i, param) in expected.iter().enumerate() {
        assert_eq!(animatable(i), *param);
        assert!(KeyframeType::of_param(*param).is_some());
    }
}

#[test]
fn render_support_of_the_filter_host() {
    let offer = RenderOffer {
        host_opengl: true,
        host_opencl: false,
        host_cuda: false,
        host_metal: false,
        opencl_device: true,
        metal_device: true,
        vulkan_or_dx12_device: true,
        platform: Platform::Other,
    };
    assert_eq!(
        render_support(offer),
        RenderSupport { opengl: true, opencl: false, metal: false, cuda: false, deferred: true }
    );
    assert!(!opencl_unusable(offer));
    let full = RenderOffer { host_opencl: true, host_cuda: true, ..offer };
    assert_eq!(
        render_support(full),
        RenderSupport { opengl: true, opencl: true, metal: false, cuda: true, deferred: false }
    );
    let mac = RenderOffer { platform: Platform::MacOs, opencl_device: false, ..full };
    assert_eq!(
        render_support(mac),
        RenderSupport { opengl: false, opencl: false, metal: true, cuda: false, deferred: false }
    );
    let bare = RenderOffer { host_opengl: false, ..offer };
    assert!(opencl_unusable(bare));
}

#[test]
fn parameters_of_the_simple_filter_interface() {
    assert_eq!(simple_param(0), Some(("Project", SimpleParamKind::Text, "Project file or video")));
    assert_eq!(simple_param(1), Some(("Smoothness", SimpleParamKind::Number, "Smoothness")));
    assert_eq!(simple_param(2), Some(("Overview", SimpleParamKind::Switch, "Stabilization overview")));
    assert_eq!(
        simple_param(3),
        Some(("TimestampScale", SimpleParamKind::Number, "Scale for the input timestamp"))
    );
    assert_eq!(simple_param(4), None);
    assert_eq!(simple_param(-1), None);
}

#[test]
fn texts_start_and_end_with_texts() {
    assert!(starts_with("/a/clip.gyroflow", "/a/"));
    assert!(starts_with("clip", "clip"));
    assert!(starts_with("clip", ""));
    assert!(!starts_with("clip", "clips"));
    assert!(!starts_with("clip", "lip"));
    assert!(ends_with("/a/clip.gyroflow", ".gyroflow"));
    assert!(ends_with("clip", "clip"));
    assert!(ends_with("clip", ""));
    assert!(!ends_with("clip.gyroflow.bak", ".gyroflow"));
    assert!(!ends_with("flow", ".gyroflow"));
    assert!(ends_with("h\u{e9}llo", "\u{e9}llo"));
    assert!(!ends_with("h\u{e9}llo", "ello"));
}
