use vstd::prelude::*;

verus! {

/// Provides a terminal-friendly representation of a value. ANSI codes such as
/// colours may appear in a pretty string.
pub trait ToPrettyString {
    fn to_pretty_string(&self) -> String;
}

/// Every unit passed around in communications, mainly for sensor readings.
#[derive(Clone, Copy, Debug, PartialEq, Eq, Hash, Structural)]
pub enum Unit {
    /// Current, in amperes.
    Amps,
    /// Pressure, in pounds per square inch.
    Psi,
    /// Temperature, in Kelvin.
    Kelvin,
    /// Force, in pounds.
    Pounds,
    /// Electric potential, in volts.
    Volts,
}

impl Unit {
    pub open spec fn spec_symbol(self) -> Seq<char> {
        match self {
            Unit::Amps => "A"@,
            Unit::Psi => "psi"@,
            Unit::Kelvin => "K"@,
            Unit::Pounds => "lbf"@,
            Unit::Volts => "V"@,
        }
    }

    /// The short symbol of the unit, as it is displayed after a value.
    pub fn symbol(&self) -> (r: &'static str)
        ensures
            r@ == self.spec_symbol(),
    {
        match self {
            Unit::Amps => "A",
            Unit::Psi => "psi",
            Unit::Kelvin => "K",
            Unit::Pounds => "lbf",
            Unit::Volts => "V",
        }
    }
}

/// A measurement of a sensor: a raw value and the unit it is expressed in.
///
/// The value is an IEEE-754 double held by its bit pattern (`f64::to_bits`),
/// so that the library carries it without interpreting it.
#[derive(Clone, Copy, Debug, PartialEq, Eq, Structural)]
pub struct Measurement {
    /// The bit pattern of the raw value, independent of the unit.
    pub value_bits: u64,
    /// The unit of the measurement, independent of the value.
    pub unit: Unit,
}

/// Every state a valve can be in.
#[derive(Clone, Copy, Debug, PartialEq, Eq, Hash, Structural)]
pub enum ValveState {
    /// Valve disconnected.
    Disconnected,
    /// Acknowledged open.
    Open,
    /// Acknowledged closed.
    Closed,
    /// Commanded open, but currently closed.
    CommandedOpen,
    /// Commanded closed, but currently open.
    CommandedClosed,
}

impl ValveState {
    pub open spec fn spec_label(self) -> Seq<char> {
        match self {
            ValveState::Disconnected => "disconnected"@,
            ValveState::Open => "open"@,
            ValveState::Closed => "closed"@,
            ValveState::CommandedOpen => "commanded open"@,
            ValveState::CommandedClosed => "commanded closed"@,
        }
    }

    pub open spec fn spec_pretty(self) -> Seq<char> {
        match self {
            ValveState::Disconnected => "\x1b[31mdisconnected\x1b[0m"@,
            ValveState::Open => "\x1b[32mopen\x1b[0m"@,
            ValveState::Closed => "\x1b[32mclosed\x1b[0m"@,
            ValveState::CommandedOpen => "\x1b[33mclosed\x1b[0m"@,
            ValveState::CommandedClosed => "\x1b[33mopen\x1b[0m"@,
        }
    }

    /// The plain name of the state.
    pub fn label(&self) -> (r: &'static str)
        ensures
            r@ == self.spec_label(),
    {
        match self {
            ValveState::Disconnected => "disconnected",
            ValveState::Open => "open",
            ValveState::Closed => "closed",
            ValveState::CommandedOpen => "commanded open",
            ValveState::CommandedClosed => "commanded closed",
        }
    }
}

impl ToPrettyString for ValveState {
    /// The state coloured for a terminal. A commanded state shows the state
    /// the valve is still physically in, in yellow.
    fn to_pretty_string(&self) -> (r: String)
        ensures
            r@ == self.spec_pretty(),
    {
        let s: &str = match self {
            ValveState::Disconnected => "\x1b[31mdisconnected\x1b[0m",
            ValveState::Open => "\x1b[32mopen\x1b[0m",
            ValveState::Closed => "\x1b[32mclosed\x1b[0m",
            ValveState::CommandedOpen => "\x1b[33mclosed\x1b[0m",
            ValveState::CommandedClosed => "\x1b[33mopen\x1b[0m",
        };
        s.to_owned()
    }
}

/// Every channel type that a node mapping may use.
#[derive(Clone, Copy, Debug, PartialEq, Eq, Hash, Structural)]
pub enum ChannelType {
    /// A pressure transducer on a current loop, measuring the pressure of a fluid.
    CurrentLoop,
    /// The voltage present on a pin connected to a valve.
    ValveVoltage,
    /// The current flowing through a pin connected to a valve.
    ValveCurrent,
    /// The voltage on the power rail of the board.
    RailVoltage,
    /// The current flowing through the power rail of the board.
    RailCurrent,
    /// The signal from a load cell, carried by a differential pair.
    DifferentialSignal,
    /// The channel of a resistance thermometer, measuring temperature.
    Rtd,
    /// The channel of a thermocouple, measuring temperature.
    Tc,
}

impl ChannelType {
    /// The one unit that each channel type produces.
    pub open spec fn spec_unit(self) -> Unit {
        match self {
            ChannelType::CurrentLoop => Unit::Psi,
            ChannelType::ValveVoltage => Unit::Volts,
            ChannelType::ValveCurrent => Unit::Amps,
            ChannelType::RailVoltage => Unit::Volts,
            ChannelType::RailCurrent => Unit::Amps,
            ChannelType::DifferentialSignal => Unit::Pounds,
            ChannelType::Rtd => Unit::Kelvin,
            ChannelType::Tc => Unit::Kelvin,
        }
    }

    /// Gets the unit associated with the channel type.
    pub fn unit(&self) -> (r: Unit)
        ensures
            r == self.spec_unit(),
    {
        match self {
            ChannelType::CurrentLoop => Unit::Psi,
            ChannelType::ValveVoltage => Unit::Volts,
            ChannelType::ValveCurrent => Unit::Amps,
            ChannelType::RailVoltage => Unit::Volts,
            ChannelType::RailCurrent => Unit::Amps,
            ChannelType::DifferentialSignal => Unit::Pounds,
            ChannelType::Rtd => Unit::Kelvin,
            ChannelType::Tc => Unit::Kelvin,
        }
    }

    /// Whether a node on this channel type is a valve rather than a sensor.
    pub open spec fn spec_is_valve(self) -> bool {
        self == ChannelType::ValveCurrent
    }

    /// Whether a node on this channel type is a valve rather than a sensor.
    pub fn is_valve(&self) -> (r: bool)
        ensures
            r == self.spec_is_valve(),
    {
        match self {
            ChannelType::ValveCurrent => true,
            _ => false,
        }
    }
}

/// Which computer owns, and may command, a node.
#[derive(Clone, Copy, Debug, PartialEq, Eq, Hash, Structural)]
pub enum Computer {
    /// The flight computer.
    Flight,
    /// The ground computer.
    Ground,
}

} // verus!
