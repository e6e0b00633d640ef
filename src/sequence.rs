use vstd::prelude::*;
use crate::dispatch::DeviceAction;
use crate::mapping::{MappingTable, NodeMapping};
use crate::messages::Sequence;
use crate::model::ValveState;
use crate::text::text_eq;

verus! {

/// An action on a named device, as a script's handle asks for it; the
/// embedding process carries it out.
#[derive(Clone, Debug)]
pub struct DeviceRequest {
    /// The text identifier of the device.
    pub text_id: String,
    /// What to do with it.
    pub action: DeviceAction,
}

/// A script's handle on a sensor, bound to one node name.
#[derive(Clone, Debug)]
pub struct Sensor {
    name: String,
}

impl Sensor {
    pub closed spec fn spec_name(&self) -> Seq<char> {
        self.name@
    }

    /// Creates a handle on the sensor named `name`.
    pub fn new(name: String) -> (r: Sensor)
        ensures
            r.spec_name() == name@,
    {
        Sensor { name }
    }

    /// The name of the sensor.
    pub fn name(&self) -> (r: &str)
        ensures
            r@ == self.spec_name(),
    {
        self.name.as_str()
    }

    /// The request that reads the sensor's latest measurement. It is made at
    /// each read, so comparisons always see the current value.
    pub fn read(&self) -> (r: DeviceRequest)
        ensures
            r.text_id@ == self.spec_name(),
            r.action == DeviceAction::ReadSensor,
    {
        DeviceRequest { text_id: self.name.clone(), action: DeviceAction::ReadSensor }
    }
}

/// A script's handle on a valve, bound to one node name.
#[derive(Clone, Debug)]
pub struct Valve {
    name: String,
}

impl Valve {
    pub closed spec fn spec_name(&self) -> Seq<char> {
        self.name@
    }

    /// Creates a handle on the valve named `name`.
    pub fn new(name: String) -> (r: Valve)
        ensures
            r.spec_name() == name@,
    {
        Valve { name }
    }

    /// The name of the valve.
    pub fn name(&self) -> (r: &str)
        ensures
            r@ == self.spec_name(),
    {
        self.name.as_str()
    }

    /// The request that opens the valve.
    pub fn open(&self) -> (r: DeviceRequest)
        ensures
            r.text_id@ == self.spec_name(),
            r.action == (DeviceAction::ActuateValve { state: ValveState::Open }),
    {
        self.actuate(true)
    }

    /// The request that closes the valve.
    pub fn close(&self) -> (r: DeviceRequest)
        ensures
            r.text_id@ == self.spec_name(),
            r.action == (DeviceAction::ActuateValve { state: ValveState::Closed }),
    {
        self.actuate(false)
    }

    /// The request that opens the valve (`true`) or closes it (`false`).
    pub fn actuate(&self, open: bool) -> (r: DeviceRequest)
        ensures
            r.text_id@ == self.spec_name(),
            r.action == (DeviceAction::ActuateValve {
                state: if open {
                    ValveState::Open
                } else {
                    ValveState::Closed
                },
            }),
    {
        let state = if open {
            ValveState::Open
        } else {
            ValveState::Closed
        };
        DeviceRequest { text_id: self.name.clone(), action: DeviceAction::ActuateValve { state } }
    }
}

/// The kind of handle a node is exposed to scripts as.
#[derive(Clone, Copy, Debug, PartialEq, Eq, Structural)]
pub enum HandleKind {
    Sensor,
    Valve,
}

/// One handle to expose to a script: a name and the kind of its handle.
#[derive(Clone, Debug)]
pub struct Binding {
    pub text_id: String,
    pub kind: HandleKind,
}

/// The kind of handle for a mapping: a valve handle for a valve-current
/// channel, a sensor handle otherwise.
pub open spec fn spec_handle_kind(m: crate::mapping::NodeMappingView) -> HandleKind {
    if m.channel_type.spec_is_valve() {
        HandleKind::Valve
    } else {
        HandleKind::Sensor
    }
}

/// The handle of one mapping.
pub fn binding_of(m: &NodeMapping) -> (r: Binding)
    ensures
        r.text_id@ == m.text_id@,
        r.kind == spec_handle_kind(m@),
{
    let kind = if m.channel_type.is_valve() {
        HandleKind::Valve
    } else {
        HandleKind::Sensor
    };
    Binding { text_id: m.text_id.clone(), kind }
}

/// The handles to expose to a script: one for every mapping of the table, in
/// the table's order.
pub fn bindings(table: &MappingTable) -> (r: Vec<Binding>)
    ensures
        r@.len() == table@.len(),
        forall|i: int|
            0 <= i < r@.len() ==> r@[i].text_id@ == table@[i].text_id && r@[i].kind
                == spec_handle_kind(table@[i]),
{
    let mut r: Vec<Binding> = Vec::new();
    let mut i: usize = 0;
    while i < table.len()
        invariant
            i <= table@.len(),
            r@.len() == i,
            forall|k: int|
                0 <= k < i ==> r@[k].text_id@ == table@[k].text_id && r@[k].kind
                    == spec_handle_kind(table@[k]),
        decreases table@.len() - i,
    {
        r.push(binding_of(table.get(i)));
        i = i + 1;
    }
    r
}

/// Whether a sequence is the abort sequence, which is stored instead of run.
pub fn is_abort(sequence: &Sequence) -> (r: bool)
    ensures
        r == (sequence.name@ == "abort"@),
{
    text_eq(sequence.name.as_str(), "abort")
}

/// The phases of one run of a sequence.
#[derive(Clone, Copy, Debug, PartialEq, Eq, Structural)]
pub enum RunPhase {
    NotStarted,
    /// Handles are being bound from a snapshot of the mapping table.
    Binding,
    /// The script is running, holding no lock.
    Running,
    Completed,
    Failed,
    /// The sequence was the abort sequence: it is stored, never run.
    Stored,
}

/// What happens to a run of a sequence.
#[derive(Clone, Copy, Debug, PartialEq, Eq, Structural)]
pub enum RunEvent {
    /// The sequence is received; `abort` tells whether it is the abort sequence.
    Received { abort: bool },
    /// Every handle is bound and the table's lock is released.
    Bound,
    /// The script ran to its end.
    Finished,
    /// Binding or the script raised an error.
    Raised,
}

/// The phase a run moves to on an event, if the event can happen there.
pub open spec fn spec_advance(phase: RunPhase, event: RunEvent) -> Option<RunPhase> {
    match (phase, event) {
        (RunPhase::NotStarted, RunEvent::Received { abort }) => Some(
            if abort {
                RunPhase::Stored
            } else {
                RunPhase::Binding
            },
        ),
        (RunPhase::Binding, RunEvent::Bound) => Some(RunPhase::Running),
        (RunPhase::Binding, RunEvent::Raised) => Some(RunPhase::Failed),
        (RunPhase::Running, RunEvent::Finished) => Some(RunPhase::Completed),
        (RunPhase::Running, RunEvent::Raised) => Some(RunPhase::Failed),
        _ => None,
    }
}

/// Moves a run to its next phase, or returns `None` where the event cannot
/// happen in that phase.
pub fn advance(phase: RunPhase, event: RunEvent) -> (r: Option<RunPhase>)
    ensures
        r == spec_advance(phase, event),
{
    match (phase, event) {
        (RunPhase::NotStarted, RunEvent::Received { abort }) => Some(
            if abort {
                RunPhase::Stored
            } else {
                RunPhase::Binding
            },
        ),
        (RunPhase::Binding, RunEvent::Bound) => Some(RunPhase::Running),
        (RunPhase::Binding, RunEvent::Raised) => Some(RunPhase::Failed),
        (RunPhase::Running, RunEvent::Finished) => Some(RunPhase::Completed),
        (RunPhase::Running, RunEvent::Raised) => Some(RunPhase::Failed),
        _ => None,
    }
}

/// An abort sequence never reaches the running phase: it is stored on
/// receipt, and nothing follows from there.
pub proof fn lemma_abort_never_runs(event: RunEvent)
    ensures
        spec_advance(RunPhase::NotStarted, RunEvent::Received { abort: true }) == Some(
            RunPhase::Stored,
        ),
        spec_advance(RunPhase::Stored, event).is_none(),
{
}

} // verus!
