//! What the bindings to the hosts decide.
//!
//! Each host has its own way to define parameters, to draw and to hand over
//! files. What is decided on the way does not depend on the host's
//! interface and is kept here.

use crate::fixed::{ratio, saturate, Fixed};
use crate::params::{same_text, Params};
use crate::text::{ends_with, is_prefix, is_suffix, starts_with};
use vstd::prelude::*;
use vstd::std_specs::hash::DefaultHasherAdditionalSpecFns;
use vstd::string::StringExecFns;

verus! {

/// A text that a host keeps as arbitrary data of a parameter.
#[derive(Debug, Clone)]
pub struct ArbString {
    pub val: String,
}

impl ArbString {
    /// An empty text.
    pub fn new() -> (text: Self)
        ensures
            text.val@ == Seq::<char>::empty(),
    {
        ArbString { val: String::new() }
    }

    /// The text.
    pub fn get(&self) -> (text: &str)
        ensures
            text@ == self.val@,
    {
        self.val.as_str()
    }

    /// Replaces the text by `v`.
    pub fn set(&mut self, v: &str)
        ensures
            final(self).val@ == v@,
    {
        self.val = String::from_str(v);
    }

    /// The text between this one and `other`: texts do not blend, so it is
    /// this one, wherever between the two the host asks.
    pub fn interpolate(&self, _other: &Self, _value: Fixed) -> (text: Self)
        ensures
            text.val@ == self.val@,
    {
        ArbString { val: self.val.clone() }
    }
}

impl Params {
    /// Whether the effect host defines a control for the parameter. It has
    /// none for loading the current file, for the video speed, for the
    /// start frame, for drawing inside the clip and for the loaded names
    /// and their group; and it creates a camera only in the compositing
    /// application.
    pub open spec fn spec_defined_for_effect(self, is_after_effects: bool) -> bool {
        !(self == Params::LoadCurrent || self == Params::VideoSpeed || self
            == Params::FusionStartFrame || self == Params::DontDrawOutside || self
            == Params::InfoGroup || self == Params::InfoGroupEnd || self == Params::LoadedProject
            || self == Params::LoadedPreset || self == Params::LoadedLens || (self
            == Params::CreateCamera && !is_after_effects))
    }

    /// Whether the effect host defines a control for the parameter.
    pub fn defined_for_effect(self, is_after_effects: bool) -> (defined: bool)
        ensures
            defined == self.spec_defined_for_effect(is_after_effects),
    {
        match self {
            Params::LoadCurrent
            | Params::VideoSpeed
            | Params::FusionStartFrame
            | Params::DontDrawOutside
            | Params::InfoGroup
            | Params::InfoGroupEnd
            | Params::LoadedProject
            | Params::LoadedPreset
            | Params::LoadedLens => false,
            Params::CreateCamera => is_after_effects,
            _ => true,
        }
    }

    /// Whether the filter host defines a control for the parameter. It has
    /// none for the adjustment to speed ramps, and it offers to load the
    /// current file only where the scripting tool of the host is at hand.
    pub fn defined_for_filter(self, scripting_available: bool) -> (defined: bool)
        ensures
            defined == !(self == Params::StabilizationSpeedRamp || (self == Params::LoadCurrent
                && !scripting_available)),
    {
        match self {
            Params::StabilizationSpeedRamp => false,
            Params::LoadCurrent => scripting_available,
            _ => true,
        }
    }
}

/// The position of the default among the options of a selection: that of
/// the first option with the text of `default`, and zero when none has it.
pub fn select_default_index(options: &Vec<&'static str>, default: &str) -> (index: usize)
    ensures
        index == 0 || index < options@.len(),
        index < options@.len() ==> forall|k: int| 0 <= k < index ==> (#[trigger] options@[k])@ != default@,
        index > 0 ==> options@[index as int]@ == default@,
        index == 0 && (exists|k: int| 0 <= k < options@.len() && (#[trigger] options@[k])@ == default@)
            ==> options@[0]@ == default@,
{
    let n: usize = options.len();
    let mut i: usize = 0;
    while i < n
        invariant
            n == options@.len(),
            i <= n,
            forall|k: int| 0 <= k < i ==> (#[trigger] options@[k])@ != default@,
        decreases n - i,
    {
        if same_text(options[i], default) {
            return i;
        }
        i = i + 1;
    }
    0
}

/// The colour of the status line.
#[derive(Debug, Copy, Clone, PartialEq, Eq, Structural)]
pub enum StatusColor {
    Green,
    Yellow,
    Red,
}

/// The colour of the status line: green when all is well, yellow while the
/// engine calculates, and red for anything else.
pub fn status_color(status: &str) -> (color: StatusColor)
    ensures
        color == if status@ == "OK"@ {
            StatusColor::Green
        } else if status@ == "Calculating..."@ {
            StatusColor::Yellow
        } else {
            StatusColor::Red
        },
{
    if same_text(status, "OK") {
        StatusColor::Green
    } else if same_text(status, "Calculating...") {
        StatusColor::Yellow
    } else {
        StatusColor::Red
    }
}

/// Whether footage with the pixel aspect ratio `par` was de-stretched by
/// the host, so that the engine must not stretch it again: when the ratio,
/// to the nearest hundredth, is not one.
pub fn host_destretches(par: Fixed) -> (destretched: bool)
    ensures
        destretched == (saturate(ratio(par.micros as int * 100, 1_000_000)) != 100),
{
    crate::fixed::mul_div(par.micros, 100, 1_000_000) != 100
}

/// The first of `names` that is a project file for the media file with the
/// stem `stem`: its name starts with the stem and ends with `.gyroflow`.
pub fn first_project_for(stem: &str, names: &Vec<String>) -> (found: Option<usize>)
    ensures
        found matches Some(i) ==> i < names@.len() && is_prefix(names@[i as int]@, stem@)
            && is_suffix(names@[i as int]@, ".gyroflow"@) && forall|k: int|
            0 <= k < i ==> !(is_prefix((#[trigger] names@[k])@, stem@) && is_suffix(
                names@[k]@,
                ".gyroflow"@,
            )),
        found is None ==> forall|k: int|
            0 <= k < names@.len() ==> !(is_prefix((#[trigger] names@[k])@, stem@) && is_suffix(
                names@[k]@,
                ".gyroflow"@,
            )),
{
    let n: usize = names.len();
    let mut i: usize = 0;
    while i < n
        invariant
            n == names@.len(),
            i <= n,
            forall|k: int|
                0 <= k < i ==> !(is_prefix((#[trigger] names@[k])@, stem@) && is_suffix(
                    names@[k]@,
                    ".gyroflow"@,
                )),
        decreases n - i,
    {
        if starts_with(names[i].as_str(), stem) && ends_with(names[i].as_str(), ".gyroflow") {
            return Some(i);
        }
        i = i + 1;
    }
    None
}

/// What the scripting tool of a host told about the file that is shown.
#[derive(Debug, Clone)]
pub struct CurrentFileInfo {
    pub file_path: String,
    pub project_path: Option<String>,
    pub fps: Fixed,
    pub duration_s: Fixed,
    pub frame_count: usize,
    pub width: usize,
    pub height: usize,
    pub pixel_aspect_ratio: String,
}

/// The path that the host is to take over from the file info that just
/// arrived, and whether it is the path of a video rather than of a project:
/// the project of the file if there is one, else the file itself. Nothing
/// when no info is pending or none arrived.
pub fn pending_path(pending: bool, info: &Option<CurrentFileInfo>) -> (path: Option<(String, bool)>)
    ensures
        path is Some <==> pending && info is Some,
        path matches Some(p) ==> match info->0.project_path {
            Some(project) => p.0@ == project@ && !p.1,
            None => p.0@ == info->0.file_path@ && p.1,
        },
{
    if !pending {
        return None;
    }
    match info {
        Some(current) => {
            match &current.project_path {
                Some(project) => Some((project.clone(), false)),
                None => Some((current.file_path.clone(), true)),
            }
        },
        None => None,
    }
}

/// What hashing a text writes into a hasher: the sequence of byte strings
/// that `Hash::hash` hands to it.
pub uninterp spec fn hashed_writes(text: Seq<char>) -> Seq<Seq<u8>>;

/// `Hash::hash` of a text into a hasher: the writes of the text follow what
/// the hasher had been fed before.
#[verifier::external_body]
pub(crate) fn feed_text(hasher: &mut std::collections::hash_map::DefaultHasher, s: &str)
    ensures
        final(hasher)@ == old(hasher)@ + hashed_writes(s@),
{
    std::hash::Hash::hash(s, hasher)
}

/// The hash of a text by the default hasher of the standard library. It
/// depends on the text alone.
pub fn hash_string(s: &str) -> (hash: u64)
    ensures
        hash == std::collections::hash_map::DefaultHasher::spec_finish(hashed_writes(s@)),
{
    let mut hasher = std::collections::hash_map::DefaultHasher::new();
    feed_text(&mut hasher, s);
    assert(hasher@ =~= hashed_writes(s@));
    std::hash::Hasher::finish(&hasher)
}

/// The parameters that the video editor may animate.
pub const ANIMATABLE_COUNT: usize = 10;

/// The parameters that the video editor may animate, in the order in which
/// they are asked for.
pub fn animatable(i: usize) -> (param: Params)
    requires
        i < ANIMATABLE_COUNT,
    ensures
        param == crate::keyframes::KeyframeType::spec_param(
            match i {
                0 => crate::keyframes::KeyframeType::Fov,
                1 => crate::keyframes::KeyframeType::SmoothingParamSmoothness,
                2 => crate::keyframes::KeyframeType::MaxZoom,
                3 => crate::keyframes::KeyframeType::LensCorrectionStrength,
                4 => crate::keyframes::KeyframeType::LockHorizonAmount,
                5 => crate::keyframes::KeyframeType::LockHorizonRoll,
                6 => crate::keyframes::KeyframeType::VideoSpeed,
                7 => crate::keyframes::KeyframeType::VideoRotation,
                8 => crate::keyframes::KeyframeType::AdditionalRotationX,
                _ => crate::keyframes::KeyframeType::AdditionalRotationY,
            },
        ),
{
    match i {
        0 => Params::Fov,
        1 => Params::Smoothness,
        2 => Params::ZoomLimit,
        3 => Params::LensCorrectionStrength,
        4 => Params::HorizonLockAmount,
        5 => Params::HorizonLockRoll,
        6 => Params::VideoSpeed,
        7 => Params::Rotation,
        8 => Params::AdditionalYaw,
        _ => Params::AdditionalPitch,
    }
}

/// Which graphics interfaces the filter host is told that the plugin
/// renders with.
#[derive(Debug, Copy, Clone, PartialEq, Eq, Structural)]
pub struct RenderSupport {
    pub opengl: bool,
    pub opencl: bool,
    pub metal: bool,
    pub cuda: bool,
    /// Whether the devices are listed later, when a context is attached.
    pub deferred: bool,
}

/// What the filter host offers and what devices were found.
#[derive(Debug, Copy, Clone, PartialEq, Eq, Structural)]
pub struct RenderOffer {
    pub host_opengl: bool,
    pub host_opencl: bool,
    pub host_cuda: bool,
    pub host_metal: bool,
    /// Whether a device was found for OpenCL.
    pub opencl_device: bool,
    /// Whether a device was found that renders with Metal, and Metal is not
    /// switched off.
    pub metal_device: bool,
    /// Whether a device was found that renders with Vulkan or DirectX.
    pub vulkan_or_dx12_device: bool,
    pub platform: crate::launch::Platform,
}

/// Whether OpenCL is to be switched off for the process: when the host
/// offers neither OpenCL nor OpenGL.
pub fn opencl_unusable(offer: RenderOffer) -> (off: bool)
    ensures
        off == (!offer.host_opencl && !offer.host_opengl),
{
    !offer.host_opencl && !offer.host_opengl
}

/// Which graphics interfaces the filter host is told that the plugin
/// renders with. A host that offers OpenGL alone is told so at once, and
/// the devices are listed when a context is attached. Else OpenCL and
/// OpenGL are named when a device for OpenCL was found, Metal on a Mac with
/// a device for it, and CUDA elsewhere with a device for Vulkan or DirectX.
pub fn render_support(offer: RenderOffer) -> (support: RenderSupport)
    ensures
        support == if offer.host_opengl && !offer.host_opencl && !offer.host_cuda
            && !offer.host_metal {
            RenderSupport { opengl: true, opencl: false, metal: false, cuda: false, deferred: true }
        } else {
            RenderSupport {
                opengl: offer.opencl_device,
                opencl: offer.opencl_device,
                metal: offer.platform == crate::launch::Platform::MacOs && offer.metal_device,
                cuda: offer.platform != crate::launch::Platform::MacOs
                    && offer.vulkan_or_dx12_device,
                deferred: false,
            }
        },
{
    if offer.host_opengl && !offer.host_opencl && !offer.host_cuda && !offer.host_metal {
        RenderSupport { opengl: true, opencl: false, metal: false, cuda: false, deferred: true }
    } else {
        let mac = matches!(offer.platform, crate::launch::Platform::MacOs);
        RenderSupport {
            opengl: offer.opencl_device,
            opencl: offer.opencl_device,
            metal: mac && offer.metal_device,
            cuda: !mac && offer.vulkan_or_dx12_device,
            deferred: false,
        }
    }
}

/// The kind of a parameter of the simple filter interface.
#[derive(Debug, Copy, Clone, PartialEq, Eq, Structural)]
pub enum SimpleParamKind {
    Text,
    Number,
    Switch,
}

/// How many parameters the simple filter interface has.
pub const SIMPLE_PARAM_COUNT: usize = 4;

/// The name, kind and explanation of parameter `index` of the simple filter
/// interface: the project, the smoothness, the overview and the scale of
/// the timestamps.
pub fn simple_param(index: i32) -> (info: Option<(&'static str, SimpleParamKind, &'static str)>)
    ensures
        info is Some <==> 0 <= index < SIMPLE_PARAM_COUNT,
        index == 0 ==> (info matches Some(t) && t.0@ == "Project"@ && t.1 == SimpleParamKind::Text
            && t.2@ == "Project file or video"@),
        index == 1 ==> (info matches Some(t) && t.0@ == "Smoothness"@ && t.1
            == SimpleParamKind::Number && t.2@ == "Smoothness"@),
        index == 2 ==> (info matches Some(t) && t.0@ == "Overview"@ && t.1
            == SimpleParamKind::Switch && t.2@ == "Stabilization overview"@),
        index == 3 ==> (info matches Some(t) && t.0@ == "TimestampScale"@ && t.1
            == SimpleParamKind::Number && t.2@ == "Scale for the input timestamp"@),
{
    match index {
        0 => Some(("Project", SimpleParamKind::Text, "Project file or video")),
        1 => Some(("Smoothness", SimpleParamKind::Number, "Smoothness")),
        2 => Some(("Overview", SimpleParamKind::Switch, "Stabilization overview")),
        3 => Some(("TimestampScale", SimpleParamKind::Number, "Scale for the input timestamp")),
        _ => None,
    }
}

} // verus!
