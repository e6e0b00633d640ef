use vstd::prelude::*;
use crate::mapping::NodeMapping;
use crate::model::ChannelType;

verus! {

/// A control message sent from the flight computer to a board.
#[derive(Clone, Copy, Debug, PartialEq, Eq, Structural)]
pub enum SamControlMessage {
    /// Instructs the board to actuate a valve.
    ActuateValve {
        /// The channel that the valve is connected to.
        channel: u32,
        /// `true` to power the valve's channel, `false` to unpower it.
        open: bool,
    },
    /// Instructs the board to set an LED.
    SetLed {
        /// The channel that the LED is wired to.
        channel: u32,
        /// `true` to turn the LED on, `false` to turn it off.
        on: bool,
    },
}

/// A single data point with a timestamp and channel, no units.
#[derive(Clone, Copy, Debug, PartialEq, Eq, Structural)]
pub struct DataPoint {
    /// The bit pattern of the raw value of the measurement, no units.
    pub value_bits: u64,
    /// When the data point was recorded, in nanoseconds since the Unix epoch.
    pub timestamp: u64,
    /// The channel that the data point was recorded from.
    pub channel: u32,
    /// The type of that channel.
    pub channel_type: ChannelType,
}

/// A generic data message that can originate from any board.
#[derive(Clone, Debug)]
pub enum DataMessage {
    /// A board asks to establish a connection with the flight computer, giving
    /// its identifier and the address that heartbeats and sequences go to.
    Establish(String, String),
    /// The flight computer acknowledges an establish message, naming the
    /// address to send data to instead, if any.
    FlightEstablishAck(Option<String>),
    /// Sent by the flight computer after a long silence from a board.
    FlightHeartbeat,
    /// A board acknowledges a heartbeat, giving its identifier.
    HeartbeatAck(String),
    /// An array of channel data points from a board.
    Sam(String, Vec<DataPoint>),
    /// Data originating from the battery management system.
    Bms(String),
}

/// A script that the flight computer runs on an operator's behalf.
#[derive(Clone, Debug)]
pub struct Sequence {
    /// The unique, human-readable name of the sequence. A sequence named
    /// "abort" is stored and persisted instead of run.
    pub name: String,
    /// The script run as soon as the sequence is received (except abort).
    pub script: String,
}

/// A script that runs once its condition holds.
#[derive(Clone, Debug)]
pub struct Trigger {
    /// The unique, human-readable name of the trigger.
    pub name: String,
    /// The condition upon which the script is run.
    pub condition: String,
    /// The script run when the condition is met.
    pub script: String,
}

/// A message sent from the control server to the flight computer.
#[derive(Clone, Debug)]
pub enum FlightControlMessage {
    /// A set of mappings to be applied immediately.
    Mappings(Vec<NodeMapping>),
    /// A sequence to be run immediately.
    Sequence(Sequence),
    /// A trigger to be checked by the flight computer.
    Trigger(Trigger),
}

/// The message from the control server to the flight computer, under its
/// earlier name.
pub type ControlMessage = FlightControlMessage;

} // verus!
