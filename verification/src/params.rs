//! The parameters a host shows for one plugin instance.

use vstd::prelude::*;
use vstd::string::StringExecFns;

verus! {

/// One parameter of the plugin, as the host knows it.
#[derive(Debug, Copy, Clone, Hash, PartialEq, Eq, Structural)]
pub enum Params {
    Logo,
    InstanceId,
    ProjectData,
    EmbeddedLensProfile,
    EmbeddedPreset,
    ProjectGroup,
    ProjectGroupEnd,
    LoadCurrent,
    ProjectPath,
    Browse,
    LoadLens,
    OpenGyroflow,
    ReloadProject,
    OpenRecentProject,
    Status,
    AdjustGroup,
    AdjustGroupEnd,
    Fov,
    Smoothness,
    ZoomLimit,
    LensCorrectionStrength,
    HorizonLockAmount,
    HorizonLockRoll,
    AdditionalPitch,
    AdditionalYaw,
    InputRotation,
    Rotation,
    VideoSpeed,
    DisableStretch,
    IntegrationMethod,
    KeyframesGroup,
    KeyframesGroupEnd,
    UseGyroflowsKeyframes,
    RecalculateKeyframes,
    OutputSizeGroup,
    OutputSizeGroupEnd,
    OutputWidth,
    OutputHeight,
    OutputSizeToTimeline,
    OutputSizeSwap,
    ToggleOverview,
    DontDrawOutside,
    IncludeProjectData,
    StabilizationSpeedRamp,
    InfoGroup,
    InfoGroupEnd,
    LoadedProject,
    LoadedPreset,
    LoadedLens,
    CreateCamera,
    Interpolation,
    FusionStartFrame,
}

/// How many parameters there are.
pub const PARAM_COUNT: usize = 52;

/// Whether two strings hold the same text.
pub fn same_text(a: &str, b: &str) -> (same: bool)
    ensures
        same == (a@ == b@),
{
    String::from_str(a) == String::from_str(b)
}

impl Params {
    /// The position of the parameter in the list of all parameters.
    pub open spec fn spec_index(self) -> int {
        match self {
            Params::Logo => 0,
            Params::InstanceId => 1,
            Params::ProjectData => 2,
            Params::EmbeddedLensProfile => 3,
            Params::EmbeddedPreset => 4,
            Params::ProjectGroup => 5,
            Params::ProjectGroupEnd => 6,
            Params::LoadCurrent => 7,
            Params::ProjectPath => 8,
            Params::Browse => 9,
            Params::LoadLens => 10,
            Params::OpenGyroflow => 11,
            Params::ReloadProject => 12,
            Params::OpenRecentProject => 13,
            Params::Status => 14,
            Params::AdjustGroup => 15,
            Params::AdjustGroupEnd => 16,
            Params::Fov => 17,
            Params::Smoothness => 18,
            Params::ZoomLimit => 19,
            Params::LensCorrectionStrength => 20,
            Params::HorizonLockAmount => 21,
            Params::HorizonLockRoll => 22,
            Params::AdditionalPitch => 23,
            Params::AdditionalYaw => 24,
            Params::InputRotation => 25,
            Params::Rotation => 26,
            Params::VideoSpeed => 27,
            Params::DisableStretch => 28,
            Params::IntegrationMethod => 29,
            Params::KeyframesGroup => 30,
            Params::KeyframesGroupEnd => 31,
            Params::UseGyroflowsKeyframes => 32,
            Params::RecalculateKeyframes => 33,
            Params::OutputSizeGroup => 34,
            Params::OutputSizeGroupEnd => 35,
            Params::OutputWidth => 36,
            Params::OutputHeight => 37,
            Params::OutputSizeToTimeline => 38,
            Params::OutputSizeSwap => 39,
            Params::ToggleOverview => 40,
            Params::DontDrawOutside => 41,
            Params::IncludeProjectData => 42,
            Params::StabilizationSpeedRamp => 43,
            Params::InfoGroup => 44,
            Params::InfoGroupEnd => 45,
            Params::LoadedProject => 46,
            Params::LoadedPreset => 47,
            Params::LoadedLens => 48,
            Params::CreateCamera => 49,
            Params::Interpolation => 50,
            Params::FusionStartFrame => 51,
        }
    }

    /// The name of the parameter: the text a host stores and shows for it.
    pub open spec fn spec_name(self) -> Seq<char> {
        match self {
            Params::Logo => "Logo"@,
            Params::InstanceId => "InstanceId"@,
            Params::ProjectData => "ProjectData"@,
            Params::EmbeddedLensProfile => "EmbeddedLensProfile"@,
            Params::EmbeddedPreset => "EmbeddedPreset"@,
            Params::ProjectGroup => "ProjectGroup"@,
            Params::ProjectGroupEnd => "ProjectGroupEnd"@,
            Params::LoadCurrent => "LoadCurrent"@,
            Params::ProjectPath => "ProjectPath"@,
            Params::Browse => "Browse"@,
            Params::LoadLens => "LoadLens"@,
            Params::OpenGyroflow => "OpenGyroflow"@,
            Params::ReloadProject => "ReloadProject"@,
            Params::OpenRecentProject => "OpenRecentProject"@,
            Params::Status => "Status"@,
            Params::AdjustGroup => "AdjustGroup"@,
            Params::AdjustGroupEnd => "AdjustGroupEnd"@,
            Params::Fov => "Fov"@,
            Params::Smoothness => "Smoothness"@,
            Params::ZoomLimit => "ZoomLimit"@,
            Params::LensCorrectionStrength => "LensCorrectionStrength"@,
            Params::HorizonLockAmount => "HorizonLockAmount"@,
            Params::HorizonLockRoll => "HorizonLockRoll"@,
            Params::AdditionalPitch => "AdditionalPitch"@,
            Params::AdditionalYaw => "AdditionalYaw"@,
            Params::InputRotation => "InputRotation"@,
            Params::Rotation => "Rotation"@,
            Params::VideoSpeed => "VideoSpeed"@,
            Params::DisableStretch => "DisableStretch"@,
            Params::IntegrationMethod => "IntegrationMethod"@,
            Params::KeyframesGroup => "KeyframesGroup"@,
            Params::KeyframesGroupEnd => "KeyframesGroupEnd"@,
            Params::UseGyroflowsKeyframes => "UseGyroflowsKeyframes"@,
            Params::RecalculateKeyframes => "RecalculateKeyframes"@,
            Params::OutputSizeGroup => "OutputSizeGroup"@,
            Params::OutputSizeGroupEnd => "OutputSizeGroupEnd"@,
            Params::OutputWidth => "OutputWidth"@,
            Params::OutputHeight => "OutputHeight"@,
            Params::OutputSizeToTimeline => "OutputSizeToTimeline"@,
            Params::OutputSizeSwap => "OutputSizeSwap"@,
            Params::ToggleOverview => "ToggleOverview"@,
            Params::DontDrawOutside => "DontDrawOutside"@,
            Params::IncludeProjectData => "IncludeProjectData"@,
            Params::StabilizationSpeedRamp => "StabilizationSpeedRamp"@,
            Params::InfoGroup => "InfoGroup"@,
            Params::InfoGroupEnd => "InfoGroupEnd"@,
            Params::LoadedProject => "LoadedProject"@,
            Params::LoadedPreset => "LoadedPreset"@,
            Params::LoadedLens => "LoadedLens"@,
            Params::CreateCamera => "CreateCamera"@,
            Params::Interpolation => "Interpolation"@,
            Params::FusionStartFrame => "FusionStartFrame"@,
        }
    }

    /// The parameter at position `i` of the list of all parameters.
    pub open spec fn spec_from_index(i: int) -> Option<Params> {
        if i == 0 {
            Some(Params::Logo)
        } else if i == 1 {
            Some(Params::InstanceId)
        } else if i == 2 {
            Some(Params::ProjectData)
        } else if i == 3 {
            Some(Params::EmbeddedLensProfile)
        } else if i == 4 {
            Some(Params::EmbeddedPreset)
        } else if i == 5 {
            Some(Params::ProjectGroup)
        } else if i == 6 {
            Some(Params::ProjectGroupEnd)
        } else if i == 7 {
            Some(Params::LoadCurrent)
        } else if i == 8 {
            Some(Params::ProjectPath)
        } else if i == 9 {
            Some(Params::Browse)
        } else if i == 10 {
            Some(Params::LoadLens)
        } else if i == 11 {
            Some(Params::OpenGyroflow)
        } else if i == 12 {
            Some(Params::ReloadProject)
        } else if i == 13 {
            Some(Params::OpenRecentProject)
        } else if i == 14 {
            Some(Params::Status)
        } else if i == 15 {
            Some(Params::AdjustGroup)
        } else if i == 16 {
            Some(Params::AdjustGroupEnd)
        } else if i == 17 {
            Some(Params::Fov)
        } else if i == 18 {
            Some(Params::Smoothness)
        } else if i == 19 {
            Some(Params::ZoomLimit)
        } else if i == 20 {
            Some(Params::LensCorrectionStrength)
        } else if i == 21 {
            Some(Params::HorizonLockAmount)
        } else if i == 22 {
            Some(Params::HorizonLockRoll)
        } else if i == 23 {
            Some(Params::AdditionalPitch)
        } else if i == 24 {
            Some(Params::AdditionalYaw)
        } else if i == 25 {
            Some(Params::InputRotation)
        } else if i == 26 {
            Some(Params::Rotation)
        } else if i == 27 {
            Some(Params::VideoSpeed)
        } else if i == 28 {
            Some(Params::DisableStretch)
        } else if i == 29 {
            Some(Params::IntegrationMethod)
        } else if i == 30 {
            Some(Params::KeyframesGroup)
        } else if i == 31 {
            Some(Params::KeyframesGroupEnd)
        } else if i == 32 {
            Some(Params::UseGyroflowsKeyframes)
        } else if i == 33 {
            Some(Params::RecalculateKeyframes)
        } else if i == 34 {
            Some(Params::OutputSizeGroup)
        } else if i == 35 {
            Some(Params::OutputSizeGroupEnd)
        } else if i == 36 {
            Some(Params::OutputWidth)
        } else if i == 37 {
            Some(Params::OutputHeight)
        } else if i == 38 {
            Some(Params::OutputSizeToTimeline)
        } else if i == 39 {
            Some(Params::OutputSizeSwap)
        } else if i == 40 {
            Some(Params::ToggleOverview)
        } else if i == 41 {
            Some(Params::DontDrawOutside)
        } else if i == 42 {
            Some(Params::IncludeProjectData)
        } else if i == 43 {
            Some(Params::StabilizationSpeedRamp)
        } else if i == 44 {
            Some(Params::InfoGroup)
        } else if i == 45 {
            Some(Params::InfoGroupEnd)
        } else if i == 46 {
            Some(Params::LoadedProject)
        } else if i == 47 {
            Some(Params::LoadedPreset)
        } else if i == 48 {
            Some(Params::LoadedLens)
        } else if i == 49 {
            Some(Params::CreateCamera)
        } else if i == 50 {
            Some(Params::Interpolation)
        } else if i == 51 {
            Some(Params::FusionStartFrame)
        } else {
            None
        }
    }

    /// The position of the parameter in the list of all parameters.
    pub fn index(self) -> (i: usize)
        ensures
            i == self.spec_index(),
            i < PARAM_COUNT,
    {
        match self {
            Params::Logo => 0,
            Params::InstanceId => 1,
            Params::ProjectData => 2,
            Params::EmbeddedLensProfile => 3,
            Params::EmbeddedPreset => 4,
            Params::ProjectGroup => 5,
            Params::ProjectGroupEnd => 6,
            Params::LoadCurrent => 7,
            Params::ProjectPath => 8,
            Params::Browse => 9,
            Params::LoadLens => 10,
            Params::OpenGyroflow => 11,
            Params::ReloadProject => 12,
            Params::OpenRecentProject => 13,
            Params::Status => 14,
            Params::AdjustGroup => 15,
            Params::AdjustGroupEnd => 16,
            Params::Fov => 17,
            Params::Smoothness => 18,
            Params::ZoomLimit => 19,
            Params::LensCorrectionStrength => 20,
            Params::HorizonLockAmount => 21,
            Params::HorizonLockRoll => 22,
            Params::AdditionalPitch => 23,
            Params::AdditionalYaw => 24,
            Params::InputRotation => 25,
            Params::Rotation => 26,
            Params::VideoSpeed => 27,
            Params::DisableStretch => 28,
            Params::IntegrationMethod => 29,
            Params::KeyframesGroup => 30,
            Params::KeyframesGroupEnd => 31,
            Params::UseGyroflowsKeyframes => 32,
            Params::RecalculateKeyframes => 33,
            Params::OutputSizeGroup => 34,
            Params::OutputSizeGroupEnd => 35,
            Params::OutputWidth => 36,
            Params::OutputHeight => 37,
            Params::OutputSizeToTimeline => 38,
            Params::OutputSizeSwap => 39,
            Params::ToggleOverview => 40,
            Params::DontDrawOutside => 41,
            Params::IncludeProjectData => 42,
            Params::StabilizationSpeedRamp => 43,
            Params::InfoGroup => 44,
            Params::InfoGroupEnd => 45,
            Params::LoadedProject => 46,
            Params::LoadedPreset => 47,
            Params::LoadedLens => 48,
            Params::CreateCamera => 49,
            Params::Interpolation => 50,
            Params::FusionStartFrame => 51,
        }
    }

    /// The parameter at position `i` of the list of all parameters.
    pub fn from_index(i: usize) -> (param: Option<Params>)
        ensures
            param == Self::spec_from_index(i as int),
            param is Some <==> i < PARAM_COUNT,
            param is Some ==> param->0.spec_index() == i,
    {
        match i {
            0 => Some(Params::Logo),
            1 => Some(Params::InstanceId),
            2 => Some(Params::ProjectData),
            3 => Some(Params::EmbeddedLensProfile),
            4 => Some(Params::EmbeddedPreset),
            5 => Some(Params::ProjectGroup),
            6 => Some(Params::ProjectGroupEnd),
            7 => Some(Params::LoadCurrent),
            8 => Some(Params::ProjectPath),
            9 => Some(Params::Browse),
            10 => Some(Params::LoadLens),
            11 => Some(Params::OpenGyroflow),
            12 => Some(Params::ReloadProject),
            13 => Some(Params::OpenRecentProject),
            14 => Some(Params::Status),
            15 => Some(Params::AdjustGroup),
            16 => Some(Params::AdjustGroupEnd),
            17 => Some(Params::Fov),
            18 => Some(Params::Smoothness),
            19 => Some(Params::ZoomLimit),
            20 => Some(Params::LensCorrectionStrength),
            21 => Some(Params::HorizonLockAmount),
            22 => Some(Params::HorizonLockRoll),
            23 => Some(Params::AdditionalPitch),
            24 => Some(Params::AdditionalYaw),
            25 => Some(Params::InputRotation),
            26 => Some(Params::Rotation),
            27 => Some(Params::VideoSpeed),
            28 => Some(Params::DisableStretch),
            29 => Some(Params::IntegrationMethod),
            30 => Some(Params::KeyframesGroup),
            31 => Some(Params::KeyframesGroupEnd),
            32 => Some(Params::UseGyroflowsKeyframes),
            33 => Some(Params::RecalculateKeyframes),
            34 => Some(Params::OutputSizeGroup),
            35 => Some(Params::OutputSizeGroupEnd),
            36 => Some(Params::OutputWidth),
            37 => Some(Params::OutputHeight),
            38 => Some(Params::OutputSizeToTimeline),
            39 => Some(Params::OutputSizeSwap),
            40 => Some(Params::ToggleOverview),
            41 => Some(Params::DontDrawOutside),
            42 => Some(Params::IncludeProjectData),
            43 => Some(Params::StabilizationSpeedRamp),
            44 => Some(Params::InfoGroup),
            45 => Some(Params::InfoGroupEnd),
            46 => Some(Params::LoadedProject),
            47 => Some(Params::LoadedPreset),
            48 => Some(Params::LoadedLens),
            49 => Some(Params::CreateCamera),
            50 => Some(Params::Interpolation),
            51 => Some(Params::FusionStartFrame),
            _ => None,
        }
    }

    /// The name of the parameter.
    pub fn name(self) -> (name: &'static str)
        ensures
            name@ == self.spec_name(),
    {
        match self {
            Params::Logo => "Logo",
            Params::InstanceId => "InstanceId",
            Params::ProjectData => "ProjectData",
            Params::EmbeddedLensProfile => "EmbeddedLensProfile",
            Params::EmbeddedPreset => "EmbeddedPreset",
            Params::ProjectGroup => "ProjectGroup",
            Params::ProjectGroupEnd => "ProjectGroupEnd",
            Params::LoadCurrent => "LoadCurrent",
            Params::ProjectPath => "ProjectPath",
            Params::Browse => "Browse",
            Params::LoadLens => "LoadLens",
            Params::OpenGyroflow => "OpenGyroflow",
            Params::ReloadProject => "ReloadProject",
            Params::OpenRecentProject => "OpenRecentProject",
            Params::Status => "Status",
            Params::AdjustGroup => "AdjustGroup",
            Params::AdjustGroupEnd => "AdjustGroupEnd",
            Params::Fov => "Fov",
            Params::Smoothness => "Smoothness",
            Params::ZoomLimit => "ZoomLimit",
            Params::LensCorrectionStrength => "LensCorrectionStrength",
            Params::HorizonLockAmount => "HorizonLockAmount",
            Params::HorizonLockRoll => "HorizonLockRoll",
            Params::AdditionalPitch => "AdditionalPitch",
            Params::AdditionalYaw => "AdditionalYaw",
            Params::InputRotation => "InputRotation",
            Params::Rotation => "Rotation",
            Params::VideoSpeed => "VideoSpeed",
            Params::DisableStretch => "DisableStretch",
            Params::IntegrationMethod => "IntegrationMethod",
            Params::KeyframesGroup => "KeyframesGroup",
            Params::KeyframesGroupEnd => "KeyframesGroupEnd",
            Params::UseGyroflowsKeyframes => "UseGyroflowsKeyframes",
            Params::RecalculateKeyframes => "RecalculateKeyframes",
            Params::OutputSizeGroup => "OutputSizeGroup",
            Params::OutputSizeGroupEnd => "OutputSizeGroupEnd",
            Params::OutputWidth => "OutputWidth",
            Params::OutputHeight => "OutputHeight",
            Params::OutputSizeToTimeline => "OutputSizeToTimeline",
            Params::OutputSizeSwap => "OutputSizeSwap",
            Params::ToggleOverview => "ToggleOverview",
            Params::DontDrawOutside => "DontDrawOutside",
            Params::IncludeProjectData => "IncludeProjectData",
            Params::StabilizationSpeedRamp => "StabilizationSpeedRamp",
            Params::InfoGroup => "InfoGroup",
            Params::InfoGroupEnd => "InfoGroupEnd",
            Params::LoadedProject => "LoadedProject",
            Params::LoadedPreset => "LoadedPreset",
            Params::LoadedLens => "LoadedLens",
            Params::CreateCamera => "CreateCamera",
            Params::Interpolation => "Interpolation",
            Params::FusionStartFrame => "FusionStartFrame",
        }
    }

    /// The name of the parameter, as an owned string.
    pub fn to_string(&self) -> (name: String)
        ensures
            name@ == self.spec_name(),
    {
        String::from_str(self.name())
    }

    /// The parameter called `name`, if there is one. Names are matched letter
    /// for letter, and the name of a parameter gives that parameter back.
    pub fn from_str(name: &str) -> (param: Option<Params>)
        ensures
            param is Some ==> param->0.spec_name() == name@,
            param is None ==> forall|p: Params| p.spec_name() != name@,
            forall|p: Params| #[trigger] p.spec_name() == name@ ==> param == Some(p),
    {
        let mut i: usize = 0;
        while i < PARAM_COUNT
            invariant
                i <= PARAM_COUNT,
                forall|p: Params| p.spec_index() < i ==> p.spec_name() != name@,
            decreases PARAM_COUNT - i,
        {
            match Params::from_index(i) {
                Some(p) => {
                    if same_text(p.name(), name) {
                        assert forall|q: Params| #[trigger] q.spec_name() == name@ implies q == p by {
                            law_names_differ(q, p);
                        }
                        return Some(p);
                    }
                    assert forall|q: Params| q.spec_index() < i + 1 implies q.spec_name()
                        != name@ by {
                        if q.spec_index() == i {
                            assert(q == p);
                        }
                    }
                },
                None => {},
            }
            i = i + 1;
        }
        assert forall|p: Params| p.spec_name() != name@ by {
            assert(p.spec_index() < PARAM_COUNT);
        }
        None
    }
}

/// No two parameters have the same name.
pub proof fn law_names_differ(p: Params, q: Params)
    requires
        p.spec_name() == q.spec_name(),
    ensures
        p == q,
{
    reveal_strlit("Logo");
    reveal_strlit("InstanceId");
    reveal_strlit("ProjectData");
    reveal_strlit("EmbeddedLensProfile");
    reveal_strlit("EmbeddedPreset");
    reveal_strlit("ProjectGroup");
    reveal_strlit("ProjectGroupEnd");
    reveal_strlit("LoadCurrent");
    reveal_strlit("ProjectPath");
    reveal_strlit("Browse");
    reveal_strlit("LoadLens");
    reveal_strlit("OpenGyroflow");
    reveal_strlit("ReloadProject");
    reveal_strlit("OpenRecentProject");
    reveal_strlit("Status");
    reveal_strlit("AdjustGroup");
    reveal_strlit("AdjustGroupEnd");
    reveal_strlit("Fov");
    reveal_strlit("Smoothness");
    reveal_strlit("ZoomLimit");
    reveal_strlit("LensCorrectionStrength");
    reveal_strlit("HorizonLockAmount");
    reveal_strlit("HorizonLockRoll");
    reveal_strlit("AdditionalPitch");
    reveal_strlit("AdditionalYaw");
    reveal_strlit("InputRotation");
    reveal_strlit("Rotation");
    reveal_strlit("VideoSpeed");
    reveal_strlit("DisableStretch");
    reveal_strlit("IntegrationMethod");
    reveal_strlit("KeyframesGroup");
    reveal_strlit("KeyframesGroupEnd");
    reveal_strlit("UseGyroflowsKeyframes");
    reveal_strlit("RecalculateKeyframes");
    reveal_strlit("OutputSizeGroup");
    reveal_strlit("OutputSizeGroupEnd");
    reveal_strlit("OutputWidth");
    reveal_strlit("OutputHeight");
    reveal_strlit("OutputSizeToTimeline");
    reveal_strlit("OutputSizeSwap");
    reveal_strlit("ToggleOverview");
    reveal_strlit("DontDrawOutside");
    reveal_strlit("IncludeProjectData");
    reveal_strlit("StabilizationSpeedRamp");
    reveal_strlit("InfoGroup");
    reveal_strlit("InfoGroupEnd");
    reveal_strlit("LoadedProject");
    reveal_strlit("LoadedPreset");
    reveal_strlit("LoadedLens");
    reveal_strlit("CreateCamera");
    reveal_strlit("Interpolation");
    reveal_strlit("FusionStartFrame");
    assert("Logo"@.len() == 4);
    assert("InstanceId"@.len() == 10);
    assert("ProjectData"@.len() == 11);
    assert("EmbeddedLensProfile"@.len() == 19);
    assert("EmbeddedPreset"@.len() == 14);
    assert("ProjectGroup"@.len() == 12);
    assert("ProjectGroupEnd"@.len() == 15);
    assert("LoadCurrent"@.len() == 11);
    assert("ProjectPath"@.len() == 11);
    assert("Browse"@.len() == 6);
    assert("LoadLens"@.len() == 8);
    assert("OpenGyroflow"@.len() == 12);
    assert("ReloadProject"@.len() == 13);
    assert("OpenRecentProject"@.len() == 17);
    assert("Status"@.len() == 6);
    assert("AdjustGroup"@.len() == 11);
    assert("AdjustGroupEnd"@.len() == 14);
    assert("Fov"@.len() == 3);
    assert("Smoothness"@.len() == 10);
    assert("ZoomLimit"@.len() == 9);
    assert("LensCorrectionStrength"@.len() == 22);
    assert("HorizonLockAmount"@.len() == 17);
    assert("HorizonLockRoll"@.len() == 15);
    assert("AdditionalPitch"@.len() == 15);
    assert("AdditionalYaw"@.len() == 13);
    assert("InputRotation"@.len() == 13);
    assert("Rotation"@.len() == 8);
    assert("VideoSpeed"@.len() == 10);
    assert("DisableStretch"@.len() == 14);
    assert("IntegrationMethod"@.len() == 17);
    assert("KeyframesGroup"@.len() == 14);
    assert("KeyframesGroupEnd"@.len() == 17);
    assert("UseGyroflowsKeyframes"@.len() == 21);
    assert("RecalculateKeyframes"@.len() == 20);
    assert("OutputSizeGroup"@.len() == 15);
    assert("OutputSizeGroupEnd"@.len() == 18);
    assert("OutputWidth"@.len() == 11);
    assert("OutputHeight"@.len() == 12);
    assert("OutputSizeToTimeline"@.len() == 20);
    assert("OutputSizeSwap"@.len() == 14);
    assert("ToggleOverview"@.len() == 14);
    assert("DontDrawOutside"@.len() == 15);
    assert("IncludeProjectData"@.len() == 18);
    assert("StabilizationSpeedRamp"@.len() == 22);
    assert("InfoGroup"@.len() == 9);
    assert("InfoGroupEnd"@.len() == 12);
    assert("LoadedProject"@.len() == 13);
    assert("LoadedPreset"@.len() == 12);
    assert("LoadedLens"@.len() == 10);
    assert("CreateCamera"@.len() == 12);
    assert("Interpolation"@.len() == 13);
    assert("FusionStartFrame"@.len() == 16);
    assert("InstanceId"@[0] != "Smoothness"@[0]);
    assert("InstanceId"@[0] != "VideoSpeed"@[0]);
    assert("InstanceId"@[0] != "LoadedLens"@[0]);
    assert("ProjectData"@[0] != "LoadCurrent"@[0]);
    assert("ProjectData"@[7] != "ProjectPath"@[7]);
    assert("ProjectData"@[0] != "AdjustGroup"@[0]);
    assert("ProjectData"@[0] != "OutputWidth"@[0]);
    assert("EmbeddedPreset"@[0] != "AdjustGroupEnd"@[0]);
    assert("EmbeddedPreset"@[0] != "DisableStretch"@[0]);
    assert("EmbeddedPreset"@[0] != "KeyframesGroup"@[0]);
    assert("EmbeddedPreset"@[0] != "OutputSizeSwap"@[0]);
    assert("EmbeddedPreset"@[0] != "ToggleOverview"@[0]);
    assert("ProjectGroup"@[0] != "OpenGyroflow"@[0]);
    assert("ProjectGroup"@[0] != "OutputHeight"@[0]);
    assert("ProjectGroup"@[0] != "InfoGroupEnd"@[0]);
    assert("ProjectGroup"@[0] != "LoadedPreset"@[0]);
    assert("ProjectGroup"@[0] != "CreateCamera"@[0]);
    assert("ProjectGroupEnd"@[0] != "HorizonLockRoll"@[0]);
    assert("ProjectGroupEnd"@[0] != "AdditionalPitch"@[0]);
    assert("ProjectGroupEnd"@[0] != "OutputSizeGroup"@[0]);
    assert("ProjectGroupEnd"@[0] != "DontDrawOutside"@[0]);
    assert("LoadCurrent"@[0] != "ProjectPath"@[0]);
    assert("LoadCurrent"@[0] != "AdjustGroup"@[0]);
    assert("LoadCurrent"@[0] != "OutputWidth"@[0]);
    assert("ProjectPath"@[0] != "AdjustGroup"@[0]);
    assert("ProjectPath"@[0] != "OutputWidth"@[0]);
    assert("Browse"@[0] != "Status"@[0]);
    assert("LoadLens"@[0] != "Rotation"@[0]);
    assert("OpenGyroflow"@[1] != "OutputHeight"@[1]);
    assert("OpenGyroflow"@[0] != "InfoGroupEnd"@[0]);
    assert("OpenGyroflow"@[0] != "LoadedPreset"@[0]);
    assert("OpenGyroflow"@[0] != "CreateCamera"@[0]);
    assert("ReloadProject"@[0] != "AdditionalYaw"@[0]);
    assert("ReloadProject"@[0] != "InputRotation"@[0]);
    assert("ReloadProject"@[0] != "LoadedProject"@[0]);
    assert("ReloadProject"@[0] != "Interpolation"@[0]);
    assert("OpenRecentProject"@[0] != "HorizonLockAmount"@[0]);
    assert("OpenRecentProject"@[0] != "IntegrationMethod"@[0]);
    assert("OpenRecentProject"@[0] != "KeyframesGroupEnd"@[0]);
    assert("AdjustGroup"@[0] != "OutputWidth"@[0]);
    assert("AdjustGroupEnd"@[0] != "DisableStretch"@[0]);
    assert("AdjustGroupEnd"@[0] != "KeyframesGroup"@[0]);
    assert("AdjustGroupEnd"@[0] != "OutputSizeSwap"@[0]);
    assert("AdjustGroupEnd"@[0] != "ToggleOverview"@[0]);
    assert("Smoothness"@[0] != "VideoSpeed"@[0]);
    assert("Smoothness"@[0] != "LoadedLens"@[0]);
    assert("ZoomLimit"@[0] != "InfoGroup"@[0]);
    assert("LensCorrectionStrength"@[0] != "StabilizationSpeedRamp"@[0]);
    assert("HorizonLockAmount"@[0] != "IntegrationMethod"@[0]);
    assert("HorizonLockAmount"@[0] != "KeyframesGroupEnd"@[0]);
    assert("HorizonLockRoll"@[0] != "AdditionalPitch"@[0]);
    assert("HorizonLockRoll"@[0] != "OutputSizeGroup"@[0]);
    assert("HorizonLockRoll"@[0] != "DontDrawOutside"@[0]);
    assert("AdditionalPitch"@[0] != "OutputSizeGroup"@[0]);
    assert("AdditionalPitch"@[0] != "DontDrawOutside"@[0]);
    assert("AdditionalYaw"@[0] != "InputRotation"@[0]);
    assert("AdditionalYaw"@[0] != "LoadedProject"@[0]);
    assert("AdditionalYaw"@[0] != "Interpolation"@[0]);
    assert("InputRotation"@[0] != "LoadedProject"@[0]);
    assert("InputRotation"@[2] != "Interpolation"@[2]);
    assert("VideoSpeed"@[0] != "LoadedLens"@[0]);
    assert("DisableStretch"@[0] != "KeyframesGroup"@[0]);
    assert("DisableStretch"@[0] != "OutputSizeSwap"@[0]);
    assert("DisableStretch"@[0] != "ToggleOverview"@[0]);
    assert("IntegrationMethod"@[0] != "KeyframesGroupEnd"@[0]);
    assert("KeyframesGroup"@[0] != "OutputSizeSwap"@[0]);
    assert("KeyframesGroup"@[0] != "ToggleOverview"@[0]);
    assert("RecalculateKeyframes"@[0] != "OutputSizeToTimeline"@[0]);
    assert("OutputSizeGroup"@[0] != "DontDrawOutside"@[0]);
    assert("OutputSizeGroupEnd"@[0] != "IncludeProjectData"@[0]);
    assert("OutputHeight"@[0] != "InfoGroupEnd"@[0]);
    assert("OutputHeight"@[0] != "LoadedPreset"@[0]);
    assert("OutputHeight"@[0] != "CreateCamera"@[0]);
    assert("OutputSizeSwap"@[0] != "ToggleOverview"@[0]);
    assert("InfoGroupEnd"@[0] != "LoadedPreset"@[0]);
    assert("InfoGroupEnd"@[0] != "CreateCamera"@[0]);
    assert("LoadedProject"@[0] != "Interpolation"@[0]);
    assert("LoadedPreset"@[0] != "CreateCamera"@[0]);
}

} // verus!
