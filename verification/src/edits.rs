//! What an edit of a parameter asks for.
//!
//! An edit is classified once, here: what must be fetched from outside
//! before it can be handled, whether the instance lets go of its engine
//! objects, and which stages of every engine object it invalidates. The
//! stages depend on each other: smoothing feeds zooming, and both feed
//! undistortion, the final mapping of pixels.

use crate::params::Params;
use vstd::prelude::*;

verus! {

/// What has to be fetched from outside before an edit can be handled.
#[derive(Debug, Copy, Clone, PartialEq, Eq, Structural)]
pub enum OutsideNeed {
    /// Nothing.
    Nothing,
    /// A project or video file, picked by the user.
    ProjectDialog,
    /// A lens profile or preset, picked by the user, and its contents.
    LensDialog,
    /// The application is to be opened on the current project.
    LaunchApplication,
    /// The path of the project that the application saved last.
    RecentProject,
    /// The data of the current project, from its file or from the engine.
    ProjectData,
}

/// One thing to do to an engine object.
#[derive(Debug, Copy, Clone, PartialEq, Eq, Structural)]
pub enum EngineStep {
    /// Set the output size and recompute the zoom.
    Resize,
    /// Take over the integration method.
    ApplyIntegrationMethod,
    InvalidateSmoothing,
    InvalidateZooming,
    InvalidateUndistortion,
    /// Recalculate the timestamps of the speed ramp.
    RecomputeRamp,
    /// Switch the overview on or off.
    SetOverview,
}

/// A set of stages of an engine object.
#[derive(Debug, Copy, Clone, PartialEq, Eq, Structural)]
pub struct StageSet {
    pub smoothing: bool,
    pub zooming: bool,
    pub undistortion: bool,
}

impl Params {
    /// The parameters whose edit changes what the engine computes.
    pub open spec fn spec_recalculates(self) -> bool {
        self.spec_feeds_smoothing() || self.spec_shapes_geometry() || self == Params::Fov || self
            == Params::InputRotation || self == Params::VideoSpeed || self
            == Params::UseGyroflowsKeyframes
    }

    /// The parameters that the smoothing stage reads.
    pub open spec fn spec_feeds_smoothing(self) -> bool {
        self == Params::IntegrationMethod || self == Params::Smoothness || self == Params::ZoomLimit
            || self == Params::HorizonLockAmount || self == Params::HorizonLockRoll || self
            == Params::AdditionalPitch || self == Params::AdditionalYaw || self
            == Params::RecalculateKeyframes
    }

    /// The parameters that change the geometry the zoom is fitted to, and
    /// nothing of the smoothing.
    pub open spec fn spec_shapes_geometry(self) -> bool {
        self == Params::LensCorrectionStrength || self == Params::Rotation
    }

    /// The parameters that move the speed ramp.
    pub open spec fn spec_moves_ramp(self) -> bool {
        self == Params::VideoSpeed || self == Params::UseGyroflowsKeyframes || self
            == Params::RecalculateKeyframes
    }

    /// The parameters of the output size.
    pub open spec fn spec_sizes_output(self) -> bool {
        self == Params::OutputWidth || self == Params::OutputHeight || self
            == Params::OutputSizeSwap || self == Params::OutputSizeToTimeline
    }

    /// The parameters after whose edit the instance lets go of its engine
    /// objects.
    pub open spec fn spec_drops_objects(self) -> bool {
        self == Params::ProjectPath || self == Params::ReloadProject || self
            == Params::DontDrawOutside
    }

    /// The parameters after whose edit the values stored in the project are
    /// read into the host again.
    pub open spec fn spec_reloads_values(self) -> bool {
        self == Params::ProjectPath || self == Params::ReloadProject
    }

    /// What has to be fetched from outside before an edit of the parameter
    /// can be handled.
    pub open spec fn spec_outside_need(self) -> OutsideNeed {
        match self {
            Params::Browse => OutsideNeed::ProjectDialog,
            Params::LoadLens => OutsideNeed::LensDialog,
            Params::OpenGyroflow => OutsideNeed::LaunchApplication,
            Params::OpenRecentProject => OutsideNeed::RecentProject,
            Params::IncludeProjectData => OutsideNeed::ProjectData,
            _ => OutsideNeed::Nothing,
        }
    }

    pub fn recalculates(self) -> (b: bool)
        ensures
            b == self.spec_recalculates(),
    {
        match self {
            Params::Fov
            | Params::Smoothness
            | Params::ZoomLimit
            | Params::LensCorrectionStrength
            | Params::HorizonLockAmount
            | Params::HorizonLockRoll
            | Params::AdditionalPitch
            | Params::AdditionalYaw
            | Params::Rotation
            | Params::InputRotation
            | Params::VideoSpeed
            | Params::IntegrationMethod
            | Params::UseGyroflowsKeyframes
            | Params::RecalculateKeyframes => true,
            _ => false,
        }
    }

    pub fn feeds_smoothing(self) -> (b: bool)
        ensures
            b == self.spec_feeds_smoothing(),
    {
        match self {
            Params::IntegrationMethod
            | Params::Smoothness
            | Params::ZoomLimit
            | Params::HorizonLockAmount
            | Params::HorizonLockRoll
            | Params::AdditionalPitch
            | Params::AdditionalYaw
            | Params::RecalculateKeyframes => true,
            _ => false,
        }
    }

    pub fn shapes_geometry(self) -> (b: bool)
        ensures
            b == self.spec_shapes_geometry(),
    {
        match self {
            Params::LensCorrectionStrength | Params::Rotation => true,
            _ => false,
        }
    }

    pub fn moves_ramp(self) -> (b: bool)
        ensures
            b == self.spec_moves_ramp(),
    {
        match self {
            Params::VideoSpeed | Params::UseGyroflowsKeyframes | Params::RecalculateKeyframes => true,
            _ => false,
        }
    }

    pub fn sizes_output(self) -> (b: bool)
        ensures
            b == self.spec_sizes_output(),
    {
        match self {
            Params::OutputWidth
            | Params::OutputHeight
            | Params::OutputSizeSwap
            | Params::OutputSizeToTimeline => true,
            _ => false,
        }
    }

    pub fn drops_objects(self) -> (b: bool)
        ensures
            b == self.spec_drops_objects(),
    {
        match self {
            Params::ProjectPath | Params::ReloadProject | Params::DontDrawOutside => true,
            _ => false,
        }
    }

    pub fn reloads_values(self) -> (b: bool)
        ensures
            b == self.spec_reloads_values(),
    {
        match self {
            Params::ProjectPath | Params::ReloadProject => true,
            _ => false,
        }
    }

    pub fn outside_need(self) -> (need: OutsideNeed)
        ensures
            need == self.spec_outside_need(),
    {
        match self {
            Params::Browse => OutsideNeed::ProjectDialog,
            Params::LoadLens => OutsideNeed::LensDialog,
            Params::OpenGyroflow => OutsideNeed::LaunchApplication,
            Params::OpenRecentProject => OutsideNeed::RecentProject,
            Params::IncludeProjectData => OutsideNeed::ProjectData,
            _ => OutsideNeed::Nothing,
        }
    }
}

/// The stages that an edit of `param` invalidates. Only edits by the user
/// invalidate anything. A parameter of the smoothing invalidates smoothing,
/// zooming and undistortion; a parameter of the geometry invalidates zooming
/// and undistortion and leaves the smoothing alone; every other parameter
/// that the engine reads, and the overview switch, invalidate undistortion
/// only; a change of the output size has the zoom recomputed.
pub open spec fn invalidated(param: Params, user_edited: bool) -> StageSet {
    StageSet {
        smoothing: user_edited && param.spec_feeds_smoothing(),
        zooming: user_edited && (param.spec_feeds_smoothing() || param.spec_shapes_geometry()
            || param.spec_sizes_output()),
        undistortion: user_edited && (param.spec_recalculates() || param == Params::ToggleOverview),
    }
}

/// The part of the steps that a change of the output size asks for.
pub open spec fn resize_steps(param: Params) -> Seq<EngineStep> {
    if param.spec_sizes_output() {
        seq![EngineStep::Resize, EngineStep::InvalidateZooming]
    } else {
        Seq::<EngineStep>::empty()
    }
}

/// The part of the steps that a change of what the engine computes asks for.
pub open spec fn recalculation_steps(param: Params) -> Seq<EngineStep> {
    if !param.spec_recalculates() {
        Seq::<EngineStep>::empty()
    } else {
        (if param == Params::IntegrationMethod {
            seq![EngineStep::ApplyIntegrationMethod]
        } else {
            Seq::<EngineStep>::empty()
        }) + (if param.spec_feeds_smoothing() {
            seq![EngineStep::InvalidateSmoothing, EngineStep::InvalidateZooming]
        } else if param.spec_shapes_geometry() {
            seq![EngineStep::InvalidateZooming]
        } else {
            Seq::<EngineStep>::empty()
        }) + seq![EngineStep::InvalidateUndistortion] + (if param.spec_moves_ramp() {
            seq![EngineStep::RecomputeRamp]
        } else {
            Seq::<EngineStep>::empty()
        })
    }
}

/// The part of the steps that the overview switch asks for.
pub open spec fn overview_steps(param: Params) -> Seq<EngineStep> {
    if param == Params::ToggleOverview {
        seq![EngineStep::SetOverview, EngineStep::InvalidateUndistortion]
    } else {
        Seq::<EngineStep>::empty()
    }
}

/// What is done, in this order, to every engine object of the instance after
/// an edit of `param`.
pub open spec fn engine_steps_model(param: Params, user_edited: bool) -> Seq<EngineStep> {
    if user_edited {
        resize_steps(param) + recalculation_steps(param) + overview_steps(param)
    } else {
        Seq::<EngineStep>::empty()
    }
}

/// The stages that an edit of `param` invalidates.
pub fn invalidated_stages(param: Params, user_edited: bool) -> (stages: StageSet)
    ensures
        stages == invalidated(param, user_edited),
{
    StageSet {
        smoothing: user_edited && param.feeds_smoothing(),
        zooming: user_edited && (param.feeds_smoothing() || param.shapes_geometry()
            || param.sizes_output()),
        undistortion: user_edited && (param.recalculates() || matches!(
            param,
            Params::ToggleOverview
        )),
    }
}

/// What is done, in this order, to every engine object of the instance after
/// an edit of `param`.
pub fn engine_steps(param: Params, user_edited: bool) -> (steps: Vec<EngineStep>)
    ensures
        steps@ == engine_steps_model(param, user_edited),
{
    let mut steps: Vec<EngineStep> = Vec::new();
    if !user_edited {
        return steps;
    }
    if param.sizes_output() {
        steps.push(EngineStep::Resize);
        steps.push(EngineStep::InvalidateZooming);
    }
    assert(steps@ =~= resize_steps(param));
    if param.recalculates() {
        if matches!(param, Params::IntegrationMethod) {
            steps.push(EngineStep::ApplyIntegrationMethod);
        }
        if param.feeds_smoothing() {
            steps.push(EngineStep::InvalidateSmoothing);
            steps.push(EngineStep::InvalidateZooming);
        } else if param.shapes_geometry() {
            steps.push(EngineStep::InvalidateZooming);
        }
        steps.push(EngineStep::InvalidateUndistortion);
        if param.moves_ramp() {
            steps.push(EngineStep::RecomputeRamp);
        }
    }
    assert(steps@ =~= resize_steps(param) + recalculation_steps(param));
    if matches!(param, Params::ToggleOverview) {
        steps.push(EngineStep::SetOverview);
        steps.push(EngineStep::InvalidateUndistortion);
    }
    assert(steps@ =~= engine_steps_model(param, user_edited));
    steps
}

/// An edit that invalidates the zoom and is not an edit of the smoothing
/// leaves the smoothing alone: no step of it invalidates smoothing.
pub proof fn law_zooming_spares_smoothing(param: Params, user_edited: bool)
    requires
        !param.spec_feeds_smoothing(),
    ensures
        !invalidated(param, user_edited).smoothing,
        !engine_steps_model(param, user_edited).contains(EngineStep::InvalidateSmoothing),
{
    let steps = engine_steps_model(param, user_edited);
    if steps.contains(EngineStep::InvalidateSmoothing) {
        let i = choose|i: int| 0 <= i < steps.len() && steps[i] == EngineStep::InvalidateSmoothing;
        assert(false);
    }
}

/// Invalidating the smoothing invalidates what is computed from it: the
/// zoom, and the undistortion after it. The steps come in that order, so
/// nothing is recomputed from a stale stage.
pub proof fn law_smoothing_reaches_undistortion(param: Params, user_edited: bool)
    requires
        invalidated(param, user_edited).smoothing,
    ensures
        invalidated(param, user_edited).zooming,
        invalidated(param, user_edited).undistortion,
        exists|i: int, j: int, k: int|
            0 <= i < j < k < engine_steps_model(param, user_edited).len() && engine_steps_model(
                param,
                user_edited,
            )[i] == EngineStep::InvalidateSmoothing && engine_steps_model(param, user_edited)[j]
                == EngineStep::InvalidateZooming && engine_steps_model(param, user_edited)[k]
                == EngineStep::InvalidateUndistortion,
{
    let steps = engine_steps_model(param, user_edited);
    let i: int = if param == Params::IntegrationMethod {
        1
    } else {
        0
    };
    assert(resize_steps(param) =~= Seq::<EngineStep>::empty());
    assert(steps[i] == EngineStep::InvalidateSmoothing);
    assert(steps[i + 1] == EngineStep::InvalidateZooming);
    assert(steps[i + 2] == EngineStep::InvalidateUndistortion);
}

/// Every edit of a parameter that the engine reads invalidates the
/// undistortion, and whatever an edit invalidates of smoothing or geometry,
/// the undistortion is invalidated with it.
pub proof fn law_undistortion_follows(param: Params, user_edited: bool)
    ensures
        user_edited && param.spec_recalculates() ==> invalidated(param, user_edited).undistortion,
        invalidated(param, user_edited).smoothing ==> invalidated(param, user_edited).undistortion,
        user_edited && param.spec_shapes_geometry() ==> invalidated(param, user_edited).zooming
            && invalidated(param, user_edited).undistortion,
        !user_edited ==> invalidated(param, user_edited) == (StageSet {
            smoothing: false,
            zooming: false,
            undistortion: false,
        }),
{
}

/// The stages named by `invalidated` are the ones the steps invalidate.
pub proof fn law_steps_match_stages(param: Params, user_edited: bool)
    ensures
        invalidated(param, user_edited).smoothing == engine_steps_model(
            param,
            user_edited,
        ).contains(EngineStep::InvalidateSmoothing),
        invalidated(param, user_edited).zooming == engine_steps_model(param, user_edited).contains(
            EngineStep::InvalidateZooming,
        ),
        invalidated(param, user_edited).undistortion == engine_steps_model(
            param,
            user_edited,
        ).contains(EngineStep::InvalidateUndistortion),
{
    let steps = engine_steps_model(param, user_edited);
    let stages = invalidated(param, user_edited);
    if stages.smoothing {
        let i: int = if param == Params::IntegrationMethod {
            1
        } else {
            0
        };
        assert(steps[i] == EngineStep::InvalidateSmoothing);
    }
    if stages.zooming {
        if param.spec_sizes_output() {
            assert(steps[1] == EngineStep::InvalidateZooming);
        } else if param.spec_feeds_smoothing() {
            let i: int = if param == Params::IntegrationMethod {
                2
            } else {
                1
            };
            assert(steps[i] == EngineStep::InvalidateZooming);
        } else {
            assert(steps[0] == EngineStep::InvalidateZooming);
        }
    }
    if stages.undistortion {
        if param == Params::ToggleOverview {
            assert(steps[1] == EngineStep::InvalidateUndistortion);
        } else {
            let i: int = if param == Params::IntegrationMethod {
                3
            } else if param.spec_feeds_smoothing() {
                2
            } else if param.spec_shapes_geometry() {
                1
            } else {
                0
            };
            assert(steps[i] == EngineStep::InvalidateUndistortion);
        }
    }
    if steps.contains(EngineStep::InvalidateSmoothing) {
        let i = choose|i: int| 0 <= i < steps.len() && steps[i] == EngineStep::InvalidateSmoothing;
        assert(stages.smoothing);
    }
    if steps.contains(EngineStep::InvalidateZooming) {
        let i = choose|i: int| 0 <= i < steps.len() && steps[i] == EngineStep::InvalidateZooming;
        assert(stages.zooming);
    }
    if steps.contains(EngineStep::InvalidateUndistortion) {
        let i = choose|i: int|
            0 <= i < steps.len() && steps[i] == EngineStep::InvalidateUndistortion;
        assert(stages.undistortion);
    }
}

} // verus!
