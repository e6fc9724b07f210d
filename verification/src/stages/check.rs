//! Recovery detection: which Jetson, if any, is on the USB bus and whether
//! it is in APX recovery.
use vstd::prelude::*;
use crate::error::{Error, ErrorView, RecoveryError};
use crate::logging::Level;
use crate::plan::{add_log, add_step, plan_view, step, Effect, EffectView, Instr, InstrView};
use crate::text::{cat, owned};

verus! {

/// NVIDIA's USB vendor id.
pub const NVIDIA: u16 = 0x0955;

/// The product id of a Jetson that runs L4T (RNDIS), not in recovery.
pub const RUNNING_L4T: u16 = 0x7020;

/// Jetson USB state on the T234 family, as seen from the flashing host.
#[derive(Debug, Clone, Copy, PartialEq, Eq, Structural)]
pub enum UsbState {
    /// In APX recovery, ready to flash (with the detected model).
    Recovery(Model),
    /// Booted and running L4T (RNDIS, product 0x7020): not flashable.
    RunningL4t,
    /// No Jetson on the USB bus.
    Absent,
}

#[derive(Debug, Clone, Copy, PartialEq, Eq, Structural)]
pub enum Model {
    AgxOrin,
    OrinNx,
    OrinNano,
}

/// The model whose APX recovery mode answers with product id `pid`.
pub open spec fn model_of(pid: u16) -> Option<Model> {
    if pid == 0x7023 {
        Some(Model::AgxOrin)
    } else if pid == 0x7423 {
        Some(Model::OrinNx)
    } else if pid == 0x7523 {
        Some(Model::OrinNano)
    } else {
        None
    }
}

/// The recovery-mode product id of a model.
pub open spec fn recovery_pid(m: Model) -> u16 {
    match m {
        Model::AgxOrin => 0x7023,
        Model::OrinNx => 0x7423,
        Model::OrinNano => 0x7523,
    }
}

pub open spec fn spec_model_name(m: Model) -> Seq<char> {
    match m {
        Model::AgxOrin => "Jetson AGX Orin"@,
        Model::OrinNx => "Jetson Orin NX"@,
        Model::OrinNano => "Jetson Orin Nano"@,
    }
}

/// `vendor:product` as `lsusb` shows it.
pub open spec fn spec_usb_id(m: Model) -> Seq<char> {
    match m {
        Model::AgxOrin => "0955:7023"@,
        Model::OrinNx => "0955:7423"@,
        Model::OrinNano => "0955:7523"@,
    }
}

/// A device (its `(vendor, product)` ids, or `None` when its descriptor
/// could not be read) that is a Jetson in APX recovery.
pub open spec fn in_recovery(d: Option<(u16, u16)>) -> bool {
    match d {
        Some((vendor, product)) => vendor == NVIDIA && model_of(product) is Some,
        None => false,
    }
}

/// A device that is a Jetson running L4T.
pub open spec fn running_l4t(d: Option<(u16, u16)>) -> bool {
    d == Some((NVIDIA, RUNNING_L4T))
}

/// The position of the first device in recovery.
pub open spec fn first_in_recovery(devices: Seq<Option<(u16, u16)>>) -> int {
    choose|i: int|
        0 <= i < devices.len() && in_recovery(devices[i]) && forall|j: int|
            0 <= j < i ==> !in_recovery(#[trigger] devices[j])
}

/// The USB state that a list of devices shows: the model of the first
/// device in recovery, if any; else running L4T if such a device is
/// present; else absent.
pub open spec fn usb_state_of(devices: Seq<Option<(u16, u16)>>) -> UsbState {
    if exists|i: int| 0 <= i < devices.len() && in_recovery(#[trigger] devices[i]) {
        match devices[first_in_recovery(devices)] {
            Some((_, product)) => UsbState::Recovery(model_of(product).unwrap()),
            None => UsbState::Absent,
        }
    } else if exists|i: int| 0 <= i < devices.len() && running_l4t(#[trigger] devices[i]) {
        UsbState::RunningL4t
    } else {
        UsbState::Absent
    }
}

impl Model {
    /// The model whose recovery mode answers with product id `pid`.
    pub fn from_pid(pid: u16) -> (r: Option<Model>)
        ensures
            r == model_of(pid),
    {
        if pid == 0x7023 {
            Some(Model::AgxOrin)
        } else if pid == 0x7423 {
            Some(Model::OrinNx)
        } else if pid == 0x7523 {
            Some(Model::OrinNano)
        } else {
            None
        }
    }

    pub fn name(self) -> (r: &'static str)
        ensures
            r@ == spec_model_name(self),
    {
        match self {
            Model::AgxOrin => "Jetson AGX Orin",
            Model::OrinNx => "Jetson Orin NX",
            Model::OrinNano => "Jetson Orin Nano",
        }
    }

    /// The USB id of the model in recovery, `vendor:product`.
    pub fn usb_id(self) -> (r: &'static str)
        ensures
            r@ == spec_usb_id(self),
    {
        match self {
            Model::AgxOrin => "0955:7023",
            Model::OrinNx => "0955:7423",
            Model::OrinNano => "0955:7523",
        }
    }
}

/// Classifies the USB bus from the ids of its devices, in bus order
/// (`None` for a device whose descriptor could not be read).
pub fn detect(devices: &Vec<Option<(u16, u16)>>) -> (r: UsbState)
    ensures
        r == usb_state_of(devices@),
{
    let mut running = false;
    let mut i: usize = 0;
    while i < devices.len()
        invariant
            i <= devices.len(),
            forall|j: int| 0 <= j < i ==> !in_recovery(#[trigger] devices@[j]),
            running == exists|j: int| 0 <= j < i && running_l4t(#[trigger] devices@[j]),
        decreases devices.len() - i,
    {
        if let Some((vendor, product)) = devices[i] {
            if vendor == NVIDIA {
                if let Some(model) = Model::from_pid(product) {
                    assert(in_recovery(devices@[i as int]));
                    let ghost f = first_in_recovery(devices@);
                    assert(f == i as int) by {
                        assert(exists|k: int| 0 <= k < devices@.len() && in_recovery(#[trigger] devices@[k])
                            && forall|j: int| 0 <= j < k ==> !in_recovery(#[trigger] devices@[j])) by {
                            assert(forall|j: int| 0 <= j < i ==> !in_recovery(#[trigger] devices@[j]));
                        }
                        if f < i {
                            assert(!in_recovery(devices@[f]));
                        }
                        if f > i {
                            assert(!in_recovery(devices@[i as int]));
                        }
                    }
                    return UsbState::Recovery(model);
                }
                if product == RUNNING_L4T {
                    running = true;
                }
            }
        }
        assert(running == exists|j: int| 0 <= j < i + 1 && running_l4t(#[trigger] devices@[j]));
        i = i + 1;
    }
    if running {
        UsbState::RunningL4t
    } else {
        UsbState::Absent
    }
}

/// What the check stage reports for a USB state, and how it ends.
pub open spec fn check_plan(state: UsbState) -> Seq<InstrView> {
    match state {
        UsbState::Recovery(m) => seq![
            step(EffectView::Log(Level::Success, spec_model_name(m) + " in APX recovery ("@ + spec_usb_id(m) + ")."@)),
        ],
        UsbState::RunningL4t => seq![
            step(EffectView::Log(Level::Failure, "Jetson is running L4T (0955:7020), not in recovery."@)),
            step(EffectView::Log(Level::Info, "Hold the REC (recovery) button while pressing RST (reset). Then re-run."@)),
            step(EffectView::Fail(ErrorView::Recovery(RecoveryError::RunningL4t))),
        ],
        UsbState::Absent => seq![
            step(EffectView::Log(Level::Failure, "No Jetson detected on USB. Power on the board, hold REC, tap RST."@)),
            step(EffectView::Fail(ErrorView::Recovery(RecoveryError::Absent))),
        ],
    }
}

/// The check stage for a detected USB state.
pub fn plan(state: UsbState) -> (r: Vec<Instr>)
    ensures
        plan_view(r@) == check_plan(state),
{
    let mut r: Vec<Instr> = Vec::new();
    match state {
        UsbState::Recovery(model) => {
            let msg = cat(model.name(), " in APX recovery (");
            let msg = msg.concat(model.usb_id()).concat(").");
            add_log(&mut r, Level::Success, msg);
        },
        UsbState::RunningL4t => {
            add_log(&mut r, Level::Failure, owned("Jetson is running L4T (0955:7020), not in recovery."));
            add_log(
                &mut r,
                Level::Info,
                owned("Hold the REC (recovery) button while pressing RST (reset). Then re-run."),
            );
            add_step(&mut r, Effect::Fail(Error::Recovery(RecoveryError::RunningL4t)));
        },
        UsbState::Absent => {
            add_log(
                &mut r,
                Level::Failure,
                owned("No Jetson detected on USB. Power on the board, hold REC, tap RST."),
            );
            add_step(&mut r, Effect::Fail(Error::Recovery(RecoveryError::Absent)));
        },
    }
    assert(plan_view(r@) =~= check_plan(state));
    r
}

/// Each model's recovery product id is recognised as that model, and no
/// other id is.
pub proof fn law_recovery_ids_identify_models(m: Model, pid: u16)
    ensures
        model_of(recovery_pid(m)) == Some(m),
        model_of(pid) == Some(m) ==> pid == recovery_pid(m),
        model_of(RUNNING_L4T) is None,
{
}

/// A device in recovery is reported whatever else is on the bus; running
/// L4T is reported only when no device is in recovery.
pub proof fn law_recovery_wins(devices: Seq<Option<(u16, u16)>>, i: int)
    requires
        0 <= i < devices.len(),
        in_recovery(devices[i]),
    ensures
        usb_state_of(devices) is Recovery,
{
    let f = first_in_recovery(devices);
    assert(exists|k: int| 0 <= k < devices.len() && in_recovery(#[trigger] devices[k]));
    lemma_first_exists(devices, i);
}

/// Some device in recovery comes first.
proof fn lemma_first_exists(devices: Seq<Option<(u16, u16)>>, i: int)
    requires
        0 <= i < devices.len(),
        in_recovery(devices[i]),
    ensures
        exists|k: int| 0 <= k < devices.len() && in_recovery(devices[k]) && forall|j: int|
            0 <= j < k ==> !in_recovery(#[trigger] devices[j]),
    decreases i,
{
    if exists|j: int| 0 <= j < i && in_recovery(#[trigger] devices[j]) {
        let j = choose|j: int| 0 <= j < i && in_recovery(#[trigger] devices[j]);
        lemma_first_exists(devices, j);
    } else {
        assert(forall|j: int| 0 <= j < i ==> !in_recovery(#[trigger] devices[j]));
    }
}

} // verus!
