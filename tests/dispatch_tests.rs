use common::codec::encode_control;
use common::dispatch::{
    dispatch, powered, select_address, valve_command, DeviceAction, Dispatch, DispatchError,
};
use common::mapping::{MappingTable, NodeMapping};
use common::messages::SamControlMessage;
use common::model::{ChannelType, Computer, Measurement, Unit, ValveState};
use common::store::VehicleState;

fn valve(text_id: &str, channel: u32, normally_closed: Option<bool>) -> NodeMapping {
    NodeMapping {
        text_id: text_id.to_string(),
        board_id: "sam-01".to_string(),
        channel_type: ChannelType::ValveCurrent,
        channel,
        computer: Computer::Flight,
        max: None,
        min: None,
        calibrated_offset: 0,
        connected_threshold: None,
        powered_threshold: None,
        normally_closed,
    }
}

#[test]
fn powered_flag_follows_polarity() {
    assert!(!powered(true, true));
    assert!(powered(true, false));
    assert!(powered(false, true));
    assert!(!powered(false, false));
}

#[test]
fn actuating_normally_closed_valve_open_sends_unpowered_command() {
    let mut table = MappingTable::new();
    table.load(vec![valve("vlv1", 3, Some(true))]).unwrap();
    let mut store = VehicleState::new();
    store.update_valve("vlv1", ValveState::Closed, 7);
    let r = dispatch(&table, &store, "vlv1", DeviceAction::ActuateValve { state: ValveState::Open });
    match r {
        Ok(Dispatch::Command(c)) => {
            assert_eq!(c.board_id, "sam-01");
            assert_eq!(c.message, SamControlMessage::ActuateValve { channel: 3, open: false });
            assert!(!c.polarity_defaulted);
            assert_eq!(encode_control(&c.message), vec![0u8, 3, 0, 0, 0, 0]);
        }
        other => panic!("unexpected {:?}", other),
    }
    assert_eq!(store.get_valve("vlv1"), Some(ValveState::Closed));
    assert_eq!(store.get_update_time("vlv1"), Some(7));
}

#[test]
fn missing_polarity_defaults_to_normally_closed() {
    let m = valve("vlv2", 5, None);
    let c = valve_command(&m, ValveState::Closed).unwrap();
    assert_eq!(c.message, SamControlMessage::ActuateValve { channel: 5, open: true });
    assert!(c.polarity_defaulted);
    let c = valve_command(&valve("vlv3", 6, Some(false)), ValveState::Open).unwrap();
    assert_eq!(c.message, SamControlMessage::ActuateValve { channel: 6, open: true });
}

#[test]
fn disconnected_is_not_a_target_state() {
    match valve_command(&valve("vlv1", 3, Some(true)), ValveState::Disconnected) {
        Err(DispatchError::UnsupportedState(s)) => assert_eq!(s, ValveState::Disconnected),
        other => panic!("unexpected {:?}", other),
    }
}

#[test]
fn unknown_device_is_reported() {
    let table = MappingTable::new();
    let store = VehicleState::new();
    match dispatch(&table, &store, "ghost", DeviceAction::ActuateValve { state: ValveState::Open }) {
        Err(DispatchError::UnknownDevice(id)) => assert_eq!(id, "ghost"),
        other => panic!("unexpected {:?}", other),
    }
    match dispatch(&table, &store, "ghost", DeviceAction::ReadSensor) {
        Err(DispatchError::UnknownDevice(id)) => assert_eq!(id, "ghost"),
        other => panic!("unexpected {:?}", other),
    }
}

#[test]
fn reads_are_served_from_the_store() {
    let mut table = MappingTable::new();
    let mut pt = valve("pt1", 1, None);
    pt.channel_type = ChannelType::CurrentLoop;
    table.load(vec![pt]).unwrap();
    let mut store = VehicleState::new();
    match dispatch(&table, &store, "pt1", DeviceAction::ReadSensor) {
        Ok(Dispatch::Reading(None)) => {}
        other => panic!("unexpected {:?}", other),
    }
    let m = Measurement { value_bits: 250.5f64.to_bits(), unit: Unit::Psi };
    store.update_sensor("pt1", m, 42);
    match dispatch(&table, &store, "pt1", DeviceAction::ReadSensor) {
        Ok(Dispatch::Reading(Some(r))) => assert_eq!(r, m),
        other => panic!("unexpected {:?}", other),
    }
}

#[test]
fn first_ipv4_address_is_preferred() {
    assert_eq!(select_address(&vec![]), None);
    assert_eq!(select_address(&vec![false, true, true]), Some(1));
    assert_eq!(select_address(&vec![false, false]), Some(0));
    assert_eq!(select_address(&vec![true]), Some(0));
}
