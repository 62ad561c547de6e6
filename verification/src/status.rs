//! What the host shows of an instance: which controls are enabled, and the
//! status line.

use crate::params::{same_text, Params};
use crate::port::{models, PortWrite, WriteModel};
use vstd::prelude::*;
use vstd::string::StringExecFns;

verus! {

/// How many controls follow the loaded state.
pub const GATED_COUNT: usize = 18;

/// The controls that are enabled while a project is loaded and disabled
/// while none is, in the order in which they are written.
pub open spec fn gated_control(i: int) -> Params {
    if i == 0 {
        Params::Fov
    } else if i == 1 {
        Params::Smoothness
    } else if i == 2 {
        Params::ZoomLimit
    } else if i == 3 {
        Params::LensCorrectionStrength
    } else if i == 4 {
        Params::HorizonLockAmount
    } else if i == 5 {
        Params::HorizonLockRoll
    } else if i == 6 {
        Params::AdditionalPitch
    } else if i == 7 {
        Params::AdditionalYaw
    } else if i == 8 {
        Params::Rotation
    } else if i == 9 {
        Params::VideoSpeed
    } else if i == 10 {
        Params::DisableStretch
    } else if i == 11 {
        Params::IntegrationMethod
    } else if i == 12 {
        Params::ToggleOverview
    } else if i == 13 {
        Params::ReloadProject
    } else if i == 14 {
        Params::OutputWidth
    } else if i == 15 {
        Params::OutputHeight
    } else if i == 16 {
        Params::OutputSizeToTimeline
    } else {
        Params::OutputSizeSwap
    }
}

/// The status text of the loaded state.
pub open spec fn loaded_status(loaded: bool) -> Seq<char> {
    if loaded {
        "OK"@
    } else {
        "Project not loaded"@
    }
}

/// The label of the button that opens the application.
pub open spec fn open_label(loaded: bool) -> Seq<char> {
    if loaded {
        "Open in Gyroflow"@
    } else {
        "Open Gyroflow"@
    }
}

/// The writes that show the loaded state: every gated control enabled or
/// disabled, then the status text, then the label of the open button.
pub open spec fn loaded_state_model(loaded: bool) -> Seq<WriteModel> {
    Seq::new(
        GATED_COUNT as nat + 2,
        |i: int|
            if i < GATED_COUNT {
                WriteModel::Enabled(gated_control(i), loaded)
            } else if i == GATED_COUNT {
                WriteModel::Text(Params::Status, loaded_status(loaded))
            } else {
                WriteModel::Label(Params::OpenGyroflow, open_label(loaded))
            },
    )
}

/// The writes that set the status line to `status` with `hint`, given that
/// it shows `current` now: none when the text is shown already; else the
/// text and the hint, and for a good status the loaded state as well.
pub open spec fn status_model(
    current: Seq<char>,
    status: Seq<char>,
    hint: Seq<char>,
    ok: bool,
) -> Seq<WriteModel> {
    if current == status {
        Seq::<WriteModel>::empty()
    } else {
        let head = seq![
            WriteModel::Text(Params::Status, status),
            WriteModel::Hint(Params::Status, hint),
        ];
        if ok {
            head + loaded_state_model(true)
        } else {
            head
        }
    }
}

fn gated(i: usize) -> (param: Params)
    requires
        i < GATED_COUNT,
    ensures
        param == gated_control(i as int),
{
    if i == 0 {
        Params::Fov
    } else if i == 1 {
        Params::Smoothness
    } else if i == 2 {
        Params::ZoomLimit
    } else if i == 3 {
        Params::LensCorrectionStrength
    } else if i == 4 {
        Params::HorizonLockAmount
    } else if i == 5 {
        Params::HorizonLockRoll
    } else if i == 6 {
        Params::AdditionalPitch
    } else if i == 7 {
        Params::AdditionalYaw
    } else if i == 8 {
        Params::Rotation
    } else if i == 9 {
        Params::VideoSpeed
    } else if i == 10 {
        Params::DisableStretch
    } else if i == 11 {
        Params::IntegrationMethod
    } else if i == 12 {
        Params::ToggleOverview
    } else if i == 13 {
        Params::ReloadProject
    } else if i == 14 {
        Params::OutputWidth
    } else if i == 15 {
        Params::OutputHeight
    } else if i == 16 {
        Params::OutputSizeToTimeline
    } else {
        Params::OutputSizeSwap
    }
}

/// Appends the writes that show the loaded state to `writes`.
pub fn push_loaded_state(writes: &mut Vec<PortWrite>, loaded: bool)
    ensures
        models(final(writes)@) == models(old(writes)@) + loaded_state_model(loaded),
{
    let ghost start = models(writes@);
    let mut i: usize = 0;
    while i < GATED_COUNT
        invariant
            i <= GATED_COUNT,
            models(writes@) == start + loaded_state_model(loaded).take(i as int),
        decreases GATED_COUNT - i,
    {
        let ghost before = models(writes@);
        writes.push(PortWrite::Enabled(gated(i), loaded));
        proof {
            assert(models(writes@) =~= before.push(WriteModel::Enabled(gated_control(i as int), loaded)));
            assert(loaded_state_model(loaded).take(i + 1) =~= loaded_state_model(loaded).take(
                i as int,
            ).push(WriteModel::Enabled(gated_control(i as int), loaded)));
        }
        i = i + 1;
    }
    let ghost before = models(writes@);
    let status: &'static str = if loaded {
        "OK"
    } else {
        "Project not loaded"
    };
    let label: &'static str = if loaded {
        "Open in Gyroflow"
    } else {
        "Open Gyroflow"
    };
    writes.push(PortWrite::Text(Params::Status, String::from_str(status)));
    writes.push(PortWrite::Label(Params::OpenGyroflow, String::from_str(label)));
    proof {
        assert(models(writes@) =~= before.push(
            WriteModel::Text(Params::Status, loaded_status(loaded)),
        ).push(WriteModel::Label(Params::OpenGyroflow, open_label(loaded))));
        assert(models(writes@) =~= start + loaded_state_model(loaded));
    }
}

/// The writes that show the loaded state.
pub fn loaded_state_writes(loaded: bool) -> (writes: Vec<PortWrite>)
    ensures
        models(writes@) == loaded_state_model(loaded),
{
    let mut writes: Vec<PortWrite> = Vec::new();
    assert(models(writes@) =~= Seq::<WriteModel>::empty());
    push_loaded_state(&mut writes, loaded);
    assert(models(writes@) =~= loaded_state_model(loaded));
    writes
}

/// The writes that set the status line, given the text it shows now.
pub fn status_writes(current: &str, status: &str, hint: &str, ok: bool) -> (writes: Vec<PortWrite>)
    ensures
        models(writes@) == status_model(current@, status@, hint@, ok),
{
    let mut writes: Vec<PortWrite> = Vec::new();
    if same_text(current, status) {
        assert(models(writes@) =~= Seq::<WriteModel>::empty());
        return writes;
    }
    writes.push(PortWrite::Text(Params::Status, String::from_str(status)));
    writes.push(PortWrite::Hint(Params::Status, String::from_str(hint)));
    let ghost head = seq![
        WriteModel::Text(Params::Status, status@),
        WriteModel::Hint(Params::Status, hint@),
    ];
    assert(models(writes@) =~= head);
    if ok {
        push_loaded_state(&mut writes, true);
    }
    writes
}

} // verus!
