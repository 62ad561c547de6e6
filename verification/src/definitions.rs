//! The parameters of the plugin as every host defines them: what kind of
//! control each is, its label and hint, its range and its default.

use crate::fixed::Fixed;
use crate::params::Params;
use vstd::prelude::*;

verus! {

/// The definition of one control, or of a group of controls.
pub enum ParameterType {
    HiddenString { id: &'static str },
    TextBox { id: &'static str, label: &'static str, hint: &'static str },
    Text { id: &'static str, label: &'static str, hint: &'static str },
    Slider {
        id: &'static str,
        label: &'static str,
        hint: &'static str,
        min: Fixed,
        max: Fixed,
        default: Fixed,
    },
    Checkbox { id: &'static str, label: &'static str, hint: &'static str, default: bool },
    Button { id: &'static str, label: &'static str, hint: &'static str },
    Group { id: &'static str, label: &'static str, opened: bool, parameters: Vec<ParameterType> },
    Select {
        id: &'static str,
        label: &'static str,
        hint: &'static str,
        options: Vec<&'static str>,
        default: &'static str,
    },
}

/// How many definitions there are at the top level.
pub const DEFINITION_COUNT: usize = 13;

/// Whether `name` is the name of a parameter.
pub open spec fn names_param(name: Seq<char>) -> bool {
    exists|p: Params| #[trigger] p.spec_name() == name
}

impl ParameterType {
    /// The id of the control or group.
    pub open spec fn spec_id(&self) -> Seq<char> {
        match self {
            ParameterType::HiddenString { id } => id@,
            ParameterType::TextBox { id, .. } => id@,
            ParameterType::Text { id, .. } => id@,
            ParameterType::Slider { id, .. } => id@,
            ParameterType::Checkbox { id, .. } => id@,
            ParameterType::Button { id, .. } => id@,
            ParameterType::Group { id, .. } => id@,
            ParameterType::Select { id, .. } => id@,
        }
    }

    /// Whether the definition of a single control is sound: its id names a
    /// parameter, the default of a slider lies within its range, and the
    /// default of a selection is one of its options.
    pub open spec fn control_ok(&self) -> bool {
        &&& !(self is Group)
        &&& names_param(self.spec_id())
        &&& self matches ParameterType::Slider { min, max, default, .. } ==> min.micros
            <= default.micros <= max.micros
        &&& self matches ParameterType::Select { options, default, .. } ==> exists|i: int|
            0 <= i < options@.len() && (#[trigger] options@[i])@ == default@
    }

    /// Whether the definition is sound: a single control is as `control_ok`
    /// says; a group has an id that names a parameter, and so does the id
    /// with `End` behind it, and every control of the group is sound.
    pub open spec fn definition_ok(&self) -> bool {
        match self {
            ParameterType::Group { id, parameters, .. } => {
                &&& names_param(id@)
                &&& names_param(id@ + "End"@)
                &&& forall|i: int|
                    0 <= i < parameters@.len() ==> (#[trigger] parameters@[i]).control_ok()
            },
            _ => self.control_ok(),
        }
    }

    /// The id of the control or group.
    pub fn id(&self) -> (id: &'static str)
        ensures
            id@ == self.spec_id(),
    {
        match self {
            ParameterType::HiddenString { id } => id,
            ParameterType::TextBox { id, .. } => id,
            ParameterType::Text { id, .. } => id,
            ParameterType::Slider { id, .. } => id,
            ParameterType::Checkbox { id, .. } => id,
            ParameterType::Button { id, .. } => id,
            ParameterType::Group { id, .. } => id,
            ParameterType::Select { id, .. } => id,
        }
    }
}

/// The ids of the definitions at the top level, in the order in which a
/// host shows them.
pub open spec fn top_level_ids() -> Seq<Seq<char>> {
    seq![
        "InstanceId"@,
        "ProjectPath"@,
        "ProjectData"@,
        "EmbeddedLensProfile"@,
        "EmbeddedPreset"@,
        "ProjectGroup"@,
        "AdjustGroup"@,
        "KeyframesGroup"@,
        "OutputSizeGroup"@,
        "ToggleOverview"@,
        "DontDrawOutside"@,
        "IncludeProjectData"@,
        "InfoGroup"@,
    ]
}

/// The ids of the controls of the group with the id `group`, in the order
/// in which a host shows them; no ids for any other id.
pub open spec fn control_ids(group: Seq<char>) -> Seq<Seq<char>> {
    if group == "ProjectGroup"@ {
        seq!["Status"@, "LoadCurrent"@, "Browse"@, "LoadLens"@, "OpenGyroflow"@, "ReloadProject"@, "OpenRecentProject"@]
    } else if group == "AdjustGroup"@ {
        seq!["Smoothness"@, "ZoomLimit"@, "LensCorrectionStrength"@, "HorizonLockAmount"@, "HorizonLockRoll"@, "AdditionalPitch"@, "AdditionalYaw"@, "Rotation"@, "InputRotation"@, "Fov"@, "VideoSpeed"@, "DisableStretch"@, "IntegrationMethod"@, "FusionStartFrame"@]
    } else if group == "KeyframesGroup"@ {
        seq!["UseGyroflowsKeyframes"@, "StabilizationSpeedRamp"@, "RecalculateKeyframes"@, "CreateCamera"@]
    } else if group == "OutputSizeGroup"@ {
        seq!["OutputWidth"@, "OutputHeight"@, "OutputSizeToTimeline"@, "OutputSizeSwap"@, "Interpolation"@]
    } else if group == "InfoGroup"@ {
        seq!["LoadedProject"@, "LoadedPreset"@, "LoadedLens"@]
    } else {
        Seq::<Seq<char>>::empty()
    }
}

/// The ids of the groups differ from one another.
proof fn lemma_group_ids_differ()
    ensures
        "ProjectGroup"@ != "AdjustGroup"@,
        "ProjectGroup"@ != "KeyframesGroup"@,
        "ProjectGroup"@ != "OutputSizeGroup"@,
        "ProjectGroup"@ != "InfoGroup"@,
        "AdjustGroup"@ != "KeyframesGroup"@,
        "AdjustGroup"@ != "OutputSizeGroup"@,
        "AdjustGroup"@ != "InfoGroup"@,
        "KeyframesGroup"@ != "OutputSizeGroup"@,
        "KeyframesGroup"@ != "InfoGroup"@,
        "OutputSizeGroup"@ != "InfoGroup"@,
{
    reveal_strlit("ProjectGroup");
    reveal_strlit("AdjustGroup");
    reveal_strlit("KeyframesGroup");
    reveal_strlit("OutputSizeGroup");
    reveal_strlit("InfoGroup");
    assert("ProjectGroup"@.len() == 12);
    assert("AdjustGroup"@.len() == 11);
    assert("KeyframesGroup"@.len() == 14);
    assert("OutputSizeGroup"@.len() == 15);
    assert("InfoGroup"@.len() == 9);
}

/// Every id that the definitions use: those of the top level, then those
/// of the controls of each group.
pub open spec fn all_ids() -> Seq<Seq<char>> {
    top_level_ids() + control_ids("ProjectGroup"@) + control_ids("AdjustGroup"@) + control_ids(
        "KeyframesGroup"@,
    ) + control_ids("OutputSizeGroup"@) + control_ids("InfoGroup"@)
}

/// The parameters that the definitions define, in the order of `all_ids`.
pub open spec fn defined_params() -> Seq<Params> {
    seq![
        Params::InstanceId,
        Params::ProjectPath,
        Params::ProjectData,
        Params::EmbeddedLensProfile,
        Params::EmbeddedPreset,
        Params::ProjectGroup,
        Params::AdjustGroup,
        Params::KeyframesGroup,
        Params::OutputSizeGroup,
        Params::ToggleOverview,
        Params::DontDrawOutside,
        Params::IncludeProjectData,
        Params::InfoGroup,
        Params::Status,
        Params::LoadCurrent,
        Params::Browse,
        Params::LoadLens,
        Params::OpenGyroflow,
        Params::ReloadProject,
        Params::OpenRecentProject,
        Params::Smoothness,
        Params::ZoomLimit,
        Params::LensCorrectionStrength,
        Params::HorizonLockAmount,
        Params::HorizonLockRoll,
        Params::AdditionalPitch,
        Params::AdditionalYaw,
        Params::Rotation,
        Params::InputRotation,
        Params::Fov,
        Params::VideoSpeed,
        Params::DisableStretch,
        Params::IntegrationMethod,
        Params::FusionStartFrame,
        Params::UseGyroflowsKeyframes,
        Params::StabilizationSpeedRamp,
        Params::RecalculateKeyframes,
        Params::CreateCamera,
        Params::OutputWidth,
        Params::OutputHeight,
        Params::OutputSizeToTimeline,
        Params::OutputSizeSwap,
        Params::Interpolation,
        Params::LoadedProject,
        Params::LoadedPreset,
        Params::LoadedLens,
    ]
}

/// Every id of the definitions is the name of a parameter of its own: no
/// two controls or groups, at whatever depth, have the same id.
pub proof fn law_definition_ids_differ()
    ensures
        all_ids().len() == defined_params().len(),
        forall|i: int|
            0 <= i < all_ids().len() ==> #[trigger] all_ids()[i] == defined_params()[i].spec_name(),
        forall|i: int, j: int|
            0 <= i < j < all_ids().len() ==> #[trigger] all_ids()[i] != #[trigger] all_ids()[j],
{
    lemma_group_ids_differ();
    let params = defined_params();
    let ids = all_ids();
    assert(ids =~= Seq::new(params.len(), |i: int| params[i].spec_name()));
    assert forall|i: int, j: int| 0 <= i < j < ids.len() implies #[trigger] ids[i]
        != #[trigger] ids[j] by {
        assert(params[i].spec_index() != params[j].spec_index());
        if ids[i] == ids[j] {
            crate::params::law_names_differ(params[i], params[j]);
        }
    }
}

/// The ids of a list of definitions, in order.
pub open spec fn ids_of(definitions: Seq<ParameterType>) -> Seq<Seq<char>> {
    Seq::new(definitions.len(), |i: int| definitions[i].spec_id())
}

/// No two definitions at the top level have the same id.
pub proof fn lemma_top_level_ids_differ()
    ensures
        top_level_ids().len() == DEFINITION_COUNT,
        forall|i: int, j: int|
            0 <= i < j < top_level_ids().len() ==> #[trigger] top_level_ids()[i]
                != #[trigger] top_level_ids()[j],
{
    reveal_strlit("InstanceId");
    reveal_strlit("ProjectPath");
    reveal_strlit("ProjectData");
    reveal_strlit("EmbeddedLensProfile");
    reveal_strlit("EmbeddedPreset");
    reveal_strlit("ProjectGroup");
    reveal_strlit("AdjustGroup");
    reveal_strlit("KeyframesGroup");
    reveal_strlit("OutputSizeGroup");
    reveal_strlit("ToggleOverview");
    reveal_strlit("DontDrawOutside");
    reveal_strlit("IncludeProjectData");
    reveal_strlit("InfoGroup");
    assert("InstanceId"@.len() == 10);
    assert("ProjectPath"@.len() == 11);
    assert("ProjectData"@.len() == 11);
    assert("EmbeddedLensProfile"@.len() == 19);
    assert("EmbeddedPreset"@.len() == 14);
    assert("ProjectGroup"@.len() == 12);
    assert("AdjustGroup"@.len() == 11);
    assert("KeyframesGroup"@.len() == 14);
    assert("OutputSizeGroup"@.len() == 15);
    assert("ToggleOverview"@.len() == 14);
    assert("DontDrawOutside"@.len() == 15);
    assert("IncludeProjectData"@.len() == 18);
    assert("InfoGroup"@.len() == 9);
    let ids = top_level_ids();
    assert forall|i: int, j: int| 0 <= i < j < ids.len() implies #[trigger] ids[i]
        != #[trigger] ids[j] by {
        if ids[i].len() == ids[j].len() {
            if ids[i].len() == 11 {
                assert(ids[i][0] != ids[j][0] || ids[i][7] != ids[j][7]);
            } else {
                assert(ids[i][0] != ids[j][0]);
            }
        }
    }
}

/// Every id that a definition uses is the name of a parameter.
proof fn lemma_ids_name_params()
    ensures
        names_param("InstanceId"@),
        names_param("ProjectPath"@),
        names_param("ProjectData"@),
        names_param("EmbeddedLensProfile"@),
        names_param("EmbeddedPreset"@),
        names_param("ProjectGroup"@),
        names_param("Status"@),
        names_param("LoadCurrent"@),
        names_param("Browse"@),
        names_param("LoadLens"@),
        names_param("OpenGyroflow"@),
        names_param("ReloadProject"@),
        names_param("OpenRecentProject"@),
        names_param("AdjustGroup"@),
        names_param("Smoothness"@),
        names_param("ZoomLimit"@),
        names_param("LensCorrectionStrength"@),
        names_param("HorizonLockAmount"@),
        names_param("HorizonLockRoll"@),
        names_param("AdditionalPitch"@),
        names_param("AdditionalYaw"@),
        names_param("Rotation"@),
        names_param("InputRotation"@),
        names_param("Fov"@),
        names_param("VideoSpeed"@),
        names_param("DisableStretch"@),
        names_param("IntegrationMethod"@),
        names_param("FusionStartFrame"@),
        names_param("KeyframesGroup"@),
        names_param("UseGyroflowsKeyframes"@),
        names_param("StabilizationSpeedRamp"@),
        names_param("RecalculateKeyframes"@),
        names_param("CreateCamera"@),
        names_param("OutputSizeGroup"@),
        names_param("OutputWidth"@),
        names_param("OutputHeight"@),
        names_param("OutputSizeToTimeline"@),
        names_param("OutputSizeSwap"@),
        names_param("Interpolation"@),
        names_param("ToggleOverview"@),
        names_param("DontDrawOutside"@),
        names_param("IncludeProjectData"@),
        names_param("InfoGroup"@),
        names_param("LoadedProject"@),
        names_param("LoadedPreset"@),
        names_param("LoadedLens"@),
        names_param("ProjectGroup"@ + "End"@),
        names_param("AdjustGroup"@ + "End"@),
        names_param("KeyframesGroup"@ + "End"@),
        names_param("OutputSizeGroup"@ + "End"@),
        names_param("InfoGroup"@ + "End"@),
{
    assert(Params::InstanceId.spec_name() == "InstanceId"@);
    assert(Params::ProjectPath.spec_name() == "ProjectPath"@);
    assert(Params::ProjectData.spec_name() == "ProjectData"@);
    assert(Params::EmbeddedLensProfile.spec_name() == "EmbeddedLensProfile"@);
    assert(Params::EmbeddedPreset.spec_name() == "EmbeddedPreset"@);
    assert(Params::ProjectGroup.spec_name() == "ProjectGroup"@);
    assert(Params::Status.spec_name() == "Status"@);
    assert(Params::LoadCurrent.spec_name() == "LoadCurrent"@);
    assert(Params::Browse.spec_name() == "Browse"@);
    assert(Params::LoadLens.spec_name() == "LoadLens"@);
    assert(Params::OpenGyroflow.spec_name() == "OpenGyroflow"@);
    assert(Params::ReloadProject.spec_name() == "ReloadProject"@);
    assert(Params::OpenRecentProject.spec_name() == "OpenRecentProject"@);
    assert(Params::AdjustGroup.spec_name() == "AdjustGroup"@);
    assert(Params::Smoothness.spec_name() == "Smoothness"@);
    assert(Params::ZoomLimit.spec_name() == "ZoomLimit"@);
    assert(Params::LensCorrectionStrength.spec_name() == "LensCorrectionStrength"@);
    assert(Params::HorizonLockAmount.spec_name() == "HorizonLockAmount"@);
    assert(Params::HorizonLockRoll.spec_name() == "HorizonLockRoll"@);
    assert(Params::AdditionalPitch.spec_name() == "AdditionalPitch"@);
    assert(Params::AdditionalYaw.spec_name() == "AdditionalYaw"@);
    assert(Params::Rotation.spec_name() == "Rotation"@);
    assert(Params::InputRotation.spec_name() == "InputRotation"@);
    assert(Params::Fov.spec_name() == "Fov"@);
    assert(Params::VideoSpeed.spec_name() == "VideoSpeed"@);
    assert(Params::DisableStretch.spec_name() == "DisableStretch"@);
    assert(Params::IntegrationMethod.spec_name() == "IntegrationMethod"@);
    assert(Params::FusionStartFrame.spec_name() == "FusionStartFrame"@);
    assert(Params::KeyframesGroup.spec_name() == "KeyframesGroup"@);
    assert(Params::UseGyroflowsKeyframes.spec_name() == "UseGyroflowsKeyframes"@);
    assert(Params::StabilizationSpeedRamp.spec_name() == "StabilizationSpeedRamp"@);
    assert(Params::RecalculateKeyframes.spec_name() == "RecalculateKeyframes"@);
    assert(Params::CreateCamera.spec_name() == "CreateCamera"@);
    assert(Params::OutputSizeGroup.spec_name() == "OutputSizeGroup"@);
    assert(Params::OutputWidth.spec_name() == "OutputWidth"@);
    assert(Params::OutputHeight.spec_name() == "OutputHeight"@);
    assert(Params::OutputSizeToTimeline.spec_name() == "OutputSizeToTimeline"@);
    assert(Params::OutputSizeSwap.spec_name() == "OutputSizeSwap"@);
    assert(Params::Interpolation.spec_name() == "Interpolation"@);
    assert(Params::ToggleOverview.spec_name() == "ToggleOverview"@);
    assert(Params::DontDrawOutside.spec_name() == "DontDrawOutside"@);
    assert(Params::IncludeProjectData.spec_name() == "IncludeProjectData"@);
    assert(Params::InfoGroup.spec_name() == "InfoGroup"@);
    assert(Params::LoadedProject.spec_name() == "LoadedProject"@);
    assert(Params::LoadedPreset.spec_name() == "LoadedPreset"@);
    assert(Params::LoadedLens.spec_name() == "LoadedLens"@);
    reveal_strlit("End");
    reveal_strlit("ProjectGroup");
    reveal_strlit("ProjectGroupEnd");
    assert("ProjectGroup"@ + "End"@ =~= "ProjectGroupEnd"@);
    assert(Params::ProjectGroupEnd.spec_name() == "ProjectGroup"@ + "End"@);
    reveal_strlit("AdjustGroup");
    reveal_strlit("AdjustGroupEnd");
    assert("AdjustGroup"@ + "End"@ =~= "AdjustGroupEnd"@);
    assert(Params::AdjustGroupEnd.spec_name() == "AdjustGroup"@ + "End"@);
    reveal_strlit("KeyframesGroup");
    reveal_strlit("KeyframesGroupEnd");
    assert("KeyframesGroup"@ + "End"@ =~= "KeyframesGroupEnd"@);
    assert(Params::KeyframesGroupEnd.spec_name() == "KeyframesGroup"@ + "End"@);
    reveal_strlit("OutputSizeGroup");
    reveal_strlit("OutputSizeGroupEnd");
    assert("OutputSizeGroup"@ + "End"@ =~= "OutputSizeGroupEnd"@);
    assert(Params::OutputSizeGroupEnd.spec_name() == "OutputSizeGroup"@ + "End"@);
    reveal_strlit("InfoGroup");
    reveal_strlit("InfoGroupEnd");
    assert("InfoGroup"@ + "End"@ =~= "InfoGroupEnd"@);
    assert(Params::InfoGroupEnd.spec_name() == "InfoGroup"@ + "End"@);
}

fn group_projectgroup() -> (group: ParameterType)
    ensures
        group.definition_ok(),
        group.spec_id() == "ProjectGroup"@,
        group is Group,
        ids_of(group->parameters@) == control_ids("ProjectGroup"@),
{
    proof {
        lemma_ids_name_params();
    }
    let mut parameters: Vec<ParameterType> = Vec::new();
    let control = ParameterType::Text { id: "Status", label: "Status", hint: "Status" };
    assert(control.control_ok());
    parameters.push(control);
    let control = ParameterType::Button { id: "LoadCurrent", label: "Load for current file", hint: "Try to load project file for current video file, or try to stabilize that video file directly" };
    assert(control.control_ok());
    parameters.push(control);
    let control = ParameterType::Button { id: "Browse", label: "Browse", hint: "Browse for the Gyroflow project file" };
    assert(control.control_ok());
    parameters.push(control);
    let control = ParameterType::Button { id: "LoadLens", label: "Load preset/lens profile", hint: "Browse for the lens profile or a preset" };
    assert(control.control_ok());
    parameters.push(control);
    let control = ParameterType::Button { id: "OpenGyroflow", label: "Open Gyroflow", hint: "Open project in Gyroflow" };
    assert(control.control_ok());
    parameters.push(control);
    let control = ParameterType::Button { id: "ReloadProject", label: "Reload project", hint: "Reload currently loaded project" };
    assert(control.control_ok());
    parameters.push(control);
    let control = ParameterType::Button { id: "OpenRecentProject", label: "Last saved project", hint: "Load most recently saved project in the Gyroflow app" };
    assert(control.control_ok());
    parameters.push(control);
    proof {
        lemma_group_ids_differ();
        assert(ids_of(parameters@) =~= control_ids("ProjectGroup"@));
    }
    ParameterType::Group { id: "ProjectGroup", label: "Gyroflow project", opened: true, parameters }
}

fn group_adjustgroup() -> (group: ParameterType)
    ensures
        group.definition_ok(),
        group.spec_id() == "AdjustGroup"@,
        group is Group,
        ids_of(group->parameters@) == control_ids("AdjustGroup"@),
{
    proof {
        lemma_ids_name_params();
    }
    let mut parameters: Vec<ParameterType> = Vec::new();
    let control = ParameterType::Slider {
        id: "Smoothness",
        label: "Smoothness",
        hint: "Smoothness",
        min: Fixed { micros: 1000000 },
        max: Fixed { micros: 300000000 },
        default: Fixed { micros: 50000000 },
    };
    assert(control.control_ok());
    parameters.push(control);
    let control = ParameterType::Slider {
        id: "ZoomLimit",
        label: "Zoom limit",
        hint: "Zoom limit",
        min: Fixed { micros: 51000000 },
        max: Fixed { micros: 300000000 },
        default: Fixed { micros: 130000000 },
    };
    assert(control.control_ok());
    parameters.push(control);
    let control = ParameterType::Slider {
        id: "LensCorrectionStrength",
        label: "Lens correction",
        hint: "Lens correction",
        min: Fixed { micros: 0 },
        max: Fixed { micros: 100000000 },
        default: Fixed { micros: 100000000 },
    };
    assert(control.control_ok());
    parameters.push(control);
    let control = ParameterType::Slider {
        id: "HorizonLockAmount",
        label: "Horizon lock",
        hint: "Horizon lock amount",
        min: Fixed { micros: 0 },
        max: Fixed { micros: 100000000 },
        default: Fixed { micros: 0 },
    };
    assert(control.control_ok());
    parameters.push(control);
    let control = ParameterType::Slider {
        id: "HorizonLockRoll",
        label: "Horizon roll",
        hint: "Horizon lock roll adjustment",
        min: Fixed { micros: -100000000 },
        max: Fixed { micros: 100000000 },
        default: Fixed { micros: 0 },
    };
    assert(control.control_ok());
    parameters.push(control);
    let control = ParameterType::Slider {
        id: "AdditionalPitch",
        label: "Additional pitch",
        hint: "Additional pitch rotation",
        min: Fixed { micros: -180000000 },
        max: Fixed { micros: 180000000 },
        default: Fixed { micros: 0 },
    };
    assert(control.control_ok());
    parameters.push(control);
    let control = ParameterType::Slider {
        id: "AdditionalYaw",
        label: "Additional yaw",
        hint: "Additional yaw rotation",
        min: Fixed { micros: -180000000 },
        max: Fixed { micros: 180000000 },
        default: Fixed { micros: 0 },
    };
    assert(control.control_ok());
    parameters.push(control);
    let control = ParameterType::Slider {
        id: "Rotation",
        label: "Video rotation",
        hint: "Video rotation",
        min: Fixed { micros: -360000000 },
        max: Fixed { micros: 360000000 },
        default: Fixed { micros: 0 },
    };
    assert(control.control_ok());
    parameters.push(control);
    let control = ParameterType::Slider {
        id: "InputRotation",
        label: "Input rotation",
        hint: "Input rotation",
        min: Fixed { micros: -360000000 },
        max: Fixed { micros: 360000000 },
        default: Fixed { micros: 0 },
    };
    assert(control.control_ok());
    parameters.push(control);
    let control = ParameterType::Slider {
        id: "Fov",
        label: "FOV",
        hint: "FOV",
        min: Fixed { micros: 100000 },
        max: Fixed { micros: 3000000 },
        default: Fixed { micros: 1000000 },
    };
    assert(control.control_ok());
    parameters.push(control);
    let control = ParameterType::Slider {
        id: "VideoSpeed",
        label: "Video speed",
        hint: "Use this slider to change video speed or keyframe it, instead of built-in speed changes in the editor",
        min: Fixed { micros: 100 },
        max: Fixed { micros: 1000000000 },
        default: Fixed { micros: 100000000 },
    };
    assert(control.control_ok());
    parameters.push(control);
    let control = ParameterType::Checkbox {
        id: "DisableStretch",
        label: "Disable Gyroflow's stretch",
        hint: "If you used Input stretch in the lens profile in Gyroflow, and you de-stretched the video separately in your editor (by setting anamorphic squeeze factor), check this to disable Gyroflow's internal stretching.",
        default: false,
    };
    assert(control.control_ok());
    parameters.push(control);
    let control = ParameterType::Select {
        id: "IntegrationMethod",
        label: "Integration method",
        hint: "IMU integration method",
        options: vec!["None", "Complementary", "VQF", "Simple gyro", "Simple gyro + accel", "Mahony", "Madgwick"],
        default: "VQF",
    };
    assert(control->Select_options@[2]@ == control->Select_default@);
    assert(control.control_ok());
    parameters.push(control);
    let control = ParameterType::Slider {
        id: "FusionStartFrame",
        label: "Fusion Start Frame",
        hint: "Fusion Start Frame (from Project Settings)",
        min: Fixed { micros: 0 },
        max: Fixed { micros: 100000000000 },
        default: Fixed { micros: 0 },
    };
    assert(control.control_ok());
    parameters.push(control);
    proof {
        lemma_group_ids_differ();
        assert(ids_of(parameters@) =~= control_ids("AdjustGroup"@));
    }
    ParameterType::Group { id: "AdjustGroup", label: "Adjust parameters", opened: true, parameters }
}

fn group_keyframesgroup() -> (group: ParameterType)
    ensures
        group.definition_ok(),
        group.spec_id() == "KeyframesGroup"@,
        group is Group,
        ids_of(group->parameters@) == control_ids("KeyframesGroup"@),
{
    proof {
        lemma_ids_name_params();
    }
    let mut parameters: Vec<ParameterType> = Vec::new();
    let control = ParameterType::Checkbox {
        id: "UseGyroflowsKeyframes",
        label: "Use Gyroflow's keyframes",
        hint: "Use internal Gyroflow's keyframes, instead of the editor ones.",
        default: false,
    };
    assert(control.control_ok());
    parameters.push(control);
    let control = ParameterType::Checkbox {
        id: "StabilizationSpeedRamp",
        label: "Adjust stabilization to speed",
        hint: "When you speed ramp the clip, let Gyroflow adjust the stabilization amount to the video speed.",
        default: true,
    };
    assert(control.control_ok());
    parameters.push(control);
    let control = ParameterType::Button { id: "RecalculateKeyframes", label: "Recalculate keyframes", hint: "Recalculate keyframes after adjusting the splines (in Fusion mode)" };
    assert(control.control_ok());
    parameters.push(control);
    let control = ParameterType::Button { id: "CreateCamera", label: "Create camera", hint: "Create camera layer" };
    assert(control.control_ok());
    parameters.push(control);
    proof {
        lemma_group_ids_differ();
        assert(ids_of(parameters@) =~= control_ids("KeyframesGroup"@));
    }
    ParameterType::Group { id: "KeyframesGroup", label: "Keyframes", opened: false, parameters }
}

fn group_outputsizegroup() -> (group: ParameterType)
    ensures
        group.definition_ok(),
        group.spec_id() == "OutputSizeGroup"@,
        group is Group,
        ids_of(group->parameters@) == control_ids("OutputSizeGroup"@),
{
    proof {
        lemma_ids_name_params();
    }
    let mut parameters: Vec<ParameterType> = Vec::new();
    let control = ParameterType::Slider {
        id: "OutputWidth",
        label: "Width",
        hint: "Width",
        min: Fixed { micros: 1000000 },
        max: Fixed { micros: 16384000000 },
        default: Fixed { micros: 3840000000 },
    };
    assert(control.control_ok());
    parameters.push(control);
    let control = ParameterType::Slider {
        id: "OutputHeight",
        label: "Height",
        hint: "Height",
        min: Fixed { micros: 1000000 },
        max: Fixed { micros: 16384000000 },
        default: Fixed { micros: 2160000000 },
    };
    assert(control.control_ok());
    parameters.push(control);
    let control = ParameterType::Button { id: "OutputSizeToTimeline", label: "Fit to timeline", hint: "Set the output size to the timeline dimensions" };
    assert(control.control_ok());
    parameters.push(control);
    let control = ParameterType::Button { id: "OutputSizeSwap", label: "Swap", hint: "Swap width and height" };
    assert(control.control_ok());
    parameters.push(control);
    let control = ParameterType::Select {
        id: "Interpolation",
        label: "Interpolation",
        hint: "Scaling interpolation method",
        options: vec!["Lanczos4", "RobidouxSharp", "Bilinear", "Bicubic", "Robidoux", "Mitchell", "CatmullRom"],
        default: "Lanczos4",
    };
    assert(control->Select_options@[0]@ == control->Select_default@);
    assert(control.control_ok());
    parameters.push(control);
    proof {
        lemma_group_ids_differ();
        assert(ids_of(parameters@) =~= control_ids("OutputSizeGroup"@));
    }
    ParameterType::Group { id: "OutputSizeGroup", label: "Output size", opened: false, parameters }
}

fn group_infogroup() -> (group: ParameterType)
    ensures
        group.definition_ok(),
        group.spec_id() == "InfoGroup"@,
        group is Group,
        ids_of(group->parameters@) == control_ids("InfoGroup"@),
{
    proof {
        lemma_ids_name_params();
    }
    let mut parameters: Vec<ParameterType> = Vec::new();
    let control = ParameterType::Text { id: "LoadedProject", label: "Loaded project", hint: "Loaded project or video file" };
    assert(control.control_ok());
    parameters.push(control);
    let control = ParameterType::Text { id: "LoadedPreset", label: "Loaded preset", hint: "Loaded preset" };
    assert(control.control_ok());
    parameters.push(control);
    let control = ParameterType::Text { id: "LoadedLens", label: "Loaded lens profile", hint: "Loaded lens profile" };
    assert(control.control_ok());
    parameters.push(control);
    proof {
        lemma_group_ids_differ();
        assert(ids_of(parameters@) =~= control_ids("InfoGroup"@));
    }
    ParameterType::Group { id: "InfoGroup", label: "Info", opened: true, parameters }
}

/// The definitions of all parameters, in the order in which a host shows
/// them: first the hidden instance id and the other hidden texts, then the
/// groups and switches, under the ids of `top_level_ids`. The controls of a
/// group have the ids of `control_ids`, in that order. Every definition is
/// sound, and no two of them have the same id.
pub fn get_param_definitions() -> (definitions: Vec<ParameterType>)
    ensures
        definitions@.len() == DEFINITION_COUNT,
        ids_of(definitions@) == top_level_ids(),
        forall|i: int| 0 <= i < 5 ==> (#[trigger] definitions@[i]) is HiddenString,
        forall|i: int|
            0 <= i < definitions@.len() ==> ((#[trigger] definitions@[i]) is Group <==> 5 <= i < 9 || i
                == 12),
        forall|i: int|
            0 <= i < definitions@.len() && (#[trigger] definitions@[i]) is Group ==> ids_of(
                definitions@[i]->parameters@,
            ) == control_ids(definitions@[i].spec_id()),
        forall|i: int| 0 <= i < definitions@.len() ==> (#[trigger] definitions@[i]).definition_ok(),
        forall|i: int, j: int|
            0 <= i < j < definitions@.len() ==> (#[trigger] definitions@[i]).spec_id() != (
            #[trigger] definitions@[j]).spec_id(),
{
    proof {
        lemma_ids_name_params();
    }
    let mut definitions: Vec<ParameterType> = Vec::new();
    let control = ParameterType::HiddenString { id: "InstanceId" };
    assert(control.definition_ok());
    definitions.push(control);
    let control = ParameterType::HiddenString { id: "ProjectPath" };
    assert(control.definition_ok());
    definitions.push(control);
    let control = ParameterType::HiddenString { id: "ProjectData" };
    assert(control.definition_ok());
    definitions.push(control);
    let control = ParameterType::HiddenString { id: "EmbeddedLensProfile" };
    assert(control.definition_ok());
    definitions.push(control);
    let control = ParameterType::HiddenString { id: "EmbeddedPreset" };
    assert(control.definition_ok());
    definitions.push(control);
    definitions.push(group_projectgroup());
    definitions.push(group_adjustgroup());
    definitions.push(group_keyframesgroup());
    definitions.push(group_outputsizegroup());
    let control = ParameterType::Checkbox {
        id: "ToggleOverview",
        label: "Stabilization overview",
        hint: "Zooms out the view to see the stabilization results. Disable this before rendering.",
        default: false,
    };
    assert(control.definition_ok());
    definitions.push(control);
    let control = ParameterType::Checkbox {
        id: "DontDrawOutside",
        label: "Don't draw outside source clip",
        hint: "When clip and timeline aspect ratio don't match, draw the final image inside the source clip, instead of drawing outside it.",
        default: false,
    };
    assert(control.definition_ok());
    definitions.push(control);
    let control = ParameterType::Checkbox {
        id: "IncludeProjectData",
        label: "Embed .gyroflow data in plugin",
        hint: "If you intend to share the project to someone else, the plugin can embed the Gyroflow project data including gyro data inside the video editor project. This way you don't have to share .gyroflow project files. Enabling this option will make the project bigger.",
        default: false,
    };
    assert(control.definition_ok());
    definitions.push(control);
    definitions.push(group_infogroup());
    proof {
        assert(ids_of(definitions@) =~= top_level_ids());
        lemma_top_level_ids_differ();
        assert forall|i: int, j: int| 0 <= i < j < definitions@.len() implies (
        #[trigger] definitions@[i]).spec_id() != (#[trigger] definitions@[j]).spec_id() by {
            assert(definitions@[i].spec_id() == ids_of(definitions@)[i]);
            assert(definitions@[j].spec_id() == ids_of(definitions@)[j]);
            assert(top_level_ids()[i] != top_level_ids()[j]);
        }
    }
    definitions
}

} // verus!
