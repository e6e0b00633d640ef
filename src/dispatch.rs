use vstd::prelude::*;
use crate::mapping::{
    has_key, lemma_valid_list_resolves, MappingTable, NodeMapping, NodeMappingView,
};
use crate::messages::SamControlMessage;
use crate::model::{Measurement, ValveState};
use crate::store::{sensor_readings, VehicleState};

verus! {

/// What a device handler is asked to do with a named device.
#[derive(Clone, Copy, Debug, PartialEq, Eq, Structural)]
pub enum DeviceAction {
    /// Read and return the sensor's latest value.
    ReadSensor,
    /// Actuate the valve to match `state`, either `Open` or `Closed`.
    ActuateValve {
        /// The state which the valve should be actuated to match.
        state: ValveState,
    },
}

/// A command to transmit to a board.
#[derive(Clone, Debug)]
pub struct BoardCommand {
    /// The board to send the message to.
    pub board_id: String,
    /// The message to send.
    pub message: SamControlMessage,
    /// Set when the mapping gave no polarity and the valve was taken to be
    /// normally closed.
    pub polarity_defaulted: bool,
}

/// The effect of a dispatched action.
#[derive(Clone, Debug)]
pub enum Dispatch {
    /// The sensor's latest reading from the store, or `None` if it has none yet.
    Reading(Option<Measurement>),
    /// A valve command, to be sent to its board.
    Command(BoardCommand),
}

/// Why an action could not be dispatched.
#[derive(Clone, Debug)]
pub enum DispatchError {
    /// No mapping has this text identifier.
    UnknownDevice(String),
    /// A valve can only be actuated to open or closed.
    UnsupportedState(ValveState),
}

/// Whether a valve is asked to end up open: `Open` and `CommandedOpen` ask
/// for open, `Closed` and `CommandedClosed` for closed.
pub open spec fn spec_wants_open(state: ValveState) -> bool {
    state == ValveState::Open || state == ValveState::CommandedOpen
}

/// Whether a valve's channel is to be powered: a normally closed valve opens
/// when powered, a normally open one closes when powered.
pub open spec fn spec_powered(normally_closed: bool, open: bool) -> bool {
    open != normally_closed
}

/// Computes whether a valve's channel is powered to reach the desired state.
pub fn powered(normally_closed: bool, open: bool) -> (r: bool)
    ensures
        r == spec_powered(normally_closed, open),
{
    open != normally_closed
}

/// The polarity that a mapping gives its valve; a valve whose mapping gives
/// none is taken to be normally closed.
pub open spec fn spec_normally_closed(m: NodeMappingView) -> bool {
    match m.normally_closed {
        Some(nc) => nc,
        None => true,
    }
}

/// The command that actuates the valve of mapping `m` to `state`.
pub open spec fn spec_valve_command(m: NodeMappingView, state: ValveState) -> SamControlMessage {
    SamControlMessage::ActuateValve {
        channel: m.channel,
        open: spec_powered(spec_normally_closed(m), spec_wants_open(state)),
    }
}

/// Builds the command that actuates the valve of `mapping` to `state`.
pub fn valve_command(mapping: &NodeMapping, state: ValveState) -> (r: Result<BoardCommand, DispatchError>)
    ensures
        state == ValveState::Disconnected <==> r is Err,
        r matches Err(e) ==> e == DispatchError::UnsupportedState(state),
        r matches Ok(c) ==> {
            &&& c.board_id@ == mapping.board_id@
            &&& c.message == spec_valve_command(mapping@, state)
            &&& c.polarity_defaulted == mapping.normally_closed.is_none()
        },
{
    let open = match state {
        ValveState::Open | ValveState::CommandedOpen => true,
        ValveState::Closed | ValveState::CommandedClosed => false,
        ValveState::Disconnected => {
            return Err(DispatchError::UnsupportedState(state));
        },
    };
    let (normally_closed, polarity_defaulted) = match mapping.normally_closed {
        Some(nc) => (nc, false),
        None => (true, true),
    };
    Ok(
        BoardCommand {
            board_id: mapping.board_id.clone(),
            message: SamControlMessage::ActuateValve {
                channel: mapping.channel,
                open: powered(normally_closed, open),
            },
            polarity_defaulted,
        },
    )
}

/// Translates an action on the device named `text_id` into its effect.
///
/// A read is served from the store, never from the board. An actuation
/// yields the command for the valve's board and changes nothing: the store
/// only changes when the board acknowledges.
pub fn dispatch(
    table: &MappingTable,
    store: &VehicleState,
    text_id: &str,
    action: DeviceAction,
) -> (r: Result<Dispatch, DispatchError>)
    requires
        table.well_formed(),
        store.well_formed(),
    ensures
        !has_key(table@, text_id@) ==> (r matches Err(DispatchError::UnknownDevice(id))
            && id@ == text_id@),
        has_key(table@, text_id@) && action == DeviceAction::ReadSensor ==> (r matches Ok(
            Dispatch::Reading(v),
        ) && v == (if sensor_readings(store@).contains_key(text_id@) {
            Some(sensor_readings(store@)[text_id@])
        } else {
            None
        })),
        forall|m: NodeMappingView, state: ValveState|
            table@.contains(m) && m.text_id == text_id@ && action == (DeviceAction::ActuateValve {
                state,
            }) ==> (if state == ValveState::Disconnected {
                r matches Err(DispatchError::UnsupportedState(s)) && s == state
            } else {
                r matches Ok(Dispatch::Command(c)) && c.board_id@ == m.board_id && c.message
                    == spec_valve_command(m, state) && c.polarity_defaulted
                    == m.normally_closed.is_none()
            }),
{
    let mapping = match table.resolve(text_id) {
        Some(m) => m,
        None => {
            return Err(DispatchError::UnknownDevice(text_id.to_owned()));
        },
    };
    proof {
        let i = choose|i: int| 0 <= i < table@.len() && table@[i] == mapping@;
        lemma_valid_list_resolves(table@, i);
    }
    match action {
        DeviceAction::ReadSensor => Ok(Dispatch::Reading(store.get_sensor(text_id))),
        DeviceAction::ActuateValve { state } => match valve_command(mapping, state) {
            Ok(c) => Ok(Dispatch::Command(c)),
            Err(e) => Err(e),
        },
    }
}

/// Picks the address to send to among the results of a name lookup, given
/// whether each is an IPv4 address: the first IPv4 one, or else the first.
pub fn select_address(is_ipv4: &Vec<bool>) -> (r: Option<usize>)
    ensures
        r.is_none() <==> is_ipv4@.len() == 0,
        r matches Some(i) ==> i < is_ipv4@.len() && (if exists|k: int|
            0 <= k < is_ipv4@.len() && is_ipv4@[k] {
            is_ipv4@[i as int] && forall|k: int| 0 <= k < i ==> !is_ipv4@[k]
        } else {
            i == 0
        }),
{
    let mut i: usize = 0;
    while i < is_ipv4.len()
        invariant
            i <= is_ipv4@.len(),
            forall|k: int| 0 <= k < i ==> !is_ipv4@[k],
        decreases is_ipv4@.len() - i,
    {
        if is_ipv4[i] {
            return Some(i);
        }
        i = i + 1;
    }
    if is_ipv4.len() == 0 {
        None
    } else {
        Some(0)
    }
}

/// The command that actuates a valve follows its polarity: for a normally
/// closed valve, opening unpowers the channel and closing powers it; for a
/// normally open valve, opening powers it and closing unpowers it.
pub proof fn lemma_valve_polarity()
    ensures
        spec_powered(true, true) == false,
        spec_powered(true, false) == true,
        spec_powered(false, true) == true,
        spec_powered(false, false) == false,
{
}

} // verus!
