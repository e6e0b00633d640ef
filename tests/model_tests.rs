use common::model::{ChannelType, Computer, Measurement, ToPrettyString, Unit, ValveState};

#[test]
fn channel_types_map_to_their_units() {
    assert_eq!(ChannelType::CurrentLoop.unit(), Unit::Psi);
    assert_eq!(ChannelType::ValveVoltage.unit(), Unit::Volts);
    assert_eq!(ChannelType::ValveCurrent.unit(), Unit::Amps);
    assert_eq!(ChannelType::RailVoltage.unit(), Unit::Volts);
    assert_eq!(ChannelType::RailCurrent.unit(), Unit::Amps);
    assert_eq!(ChannelType::DifferentialSignal.unit(), Unit::Pounds);
    assert_eq!(ChannelType::Rtd.unit(), Unit::Kelvin);
    assert_eq!(ChannelType::Tc.unit(), Unit::Kelvin);
}

#[test]
fn only_valve_current_is_a_valve() {
    assert!(ChannelType::ValveCurrent.is_valve());
    assert!(!ChannelType::ValveVoltage.is_valve());
    assert!(!ChannelType::CurrentLoop.is_valve());
}

#[test]
fn unit_symbols() {
    assert_eq!(Unit::Amps.symbol(), "A");
    assert_eq!(Unit::Psi.symbol(), "psi");
    assert_eq!(Unit::Kelvin.symbol(), "K");
    assert_eq!(Unit::Pounds.symbol(), "lbf");
    assert_eq!(Unit::Volts.symbol(), "V");
}

#[test]
fn valve_state_labels() {
    assert_eq!(ValveState::Disconnected.label(), "disconnected");
    assert_eq!(ValveState::Open.label(), "open");
    assert_eq!(ValveState::Closed.label(), "closed");
    assert_eq!(ValveState::CommandedOpen.label(), "commanded open");
    assert_eq!(ValveState::CommandedClosed.label(), "commanded closed");
}

#[test]
fn valve_state_pretty_strings_show_the_physical_state() {
    assert_eq!(ValveState::Disconnected.to_pretty_string(), "\x1b[31mdisconnected\x1b[0m");
    assert_eq!(ValveState::Open.to_pretty_string(), "\x1b[32mopen\x1b[0m");
    assert_eq!(ValveState::Closed.to_pretty_string(), "\x1b[32mclosed\x1b[0m");
    assert_eq!(ValveState::CommandedOpen.to_pretty_string(), "\x1b[33mclosed\x1b[0m");
    assert_eq!(ValveState::CommandedClosed.to_pretty_string(), "\x1b[33mopen\x1b[0m");
}

#[test]
fn measurement_keeps_value_bits() {
    let m = Measurement { value_bits: 14.7f64.to_bits(), unit: Unit::Psi };
    assert_eq!(f64::from_bits(m.value_bits), 14.7);
    assert_ne!(Computer::Flight, Computer::Ground);
}
