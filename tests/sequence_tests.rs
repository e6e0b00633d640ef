use common::dispatch::DeviceAction;
use common::mapping::{MappingTable, NodeMapping};
use common::messages::Sequence;
use common::model::{ChannelType, Computer, ValveState};
use common::sequence::{advance, bindings, is_abort, HandleKind, RunEvent, RunPhase, Sensor, Valve};

fn mapping(text_id: &str, channel: u32, channel_type: ChannelType) -> NodeMapping {
    NodeMapping {
        text_id: text_id.to_string(),
        board_id: "sam-01".to_string(),
        channel_type,
        channel,
        computer: Computer::Flight,
        max: None,
        min: None,
        calibrated_offset: 0,
        connected_threshold: None,
        powered_threshold: None,
        normally_closed: Some(true),
    }
}

#[test]
fn sensor_read_asks_for_a_fresh_reading() {
    let s = Sensor::new("pt1".to_string());
    assert_eq!(s.name(), "pt1");
    let r = s.read();
    assert_eq!(r.text_id, "pt1");
    assert_eq!(r.action, DeviceAction::ReadSensor);
}

#[test]
fn valve_open_and_close_ask_for_actuation() {
    let v = Valve::new("vlv1".to_string());
    assert_eq!(v.name(), "vlv1");
    let o = v.open();
    assert_eq!(o.text_id, "vlv1");
    assert_eq!(o.action, DeviceAction::ActuateValve { state: ValveState::Open });
    let c = v.close();
    assert_eq!(c.action, DeviceAction::ActuateValve { state: ValveState::Closed });
    assert_eq!(v.actuate(true).action, DeviceAction::ActuateValve { state: ValveState::Open });
    assert_eq!(v.actuate(false).action, DeviceAction::ActuateValve { state: ValveState::Closed });
}

#[test]
fn every_mapping_is_bound_by_kind() {
    let mut table = MappingTable::new();
    table
        .load(vec![
            mapping("vlv1", 1, ChannelType::ValveCurrent),
            mapping("vlv1_v", 1, ChannelType::ValveVoltage),
            mapping("pt1", 2, ChannelType::CurrentLoop),
        ])
        .unwrap();
    let b = bindings(&table);
    assert_eq!(b.len(), 3);
    assert_eq!(b[0].text_id, "vlv1");
    assert_eq!(b[0].kind, HandleKind::Valve);
    assert_eq!(b[1].text_id, "vlv1_v");
    assert_eq!(b[1].kind, HandleKind::Sensor);
    assert_eq!(b[2].kind, HandleKind::Sensor);
    assert!(bindings(&MappingTable::new()).is_empty());
}

#[test]
fn only_the_sequence_named_abort_is_stored() {
    let abort = Sequence { name: "abort".to_string(), script: "x".to_string() };
    let other = Sequence { name: "abort2".to_string(), script: "x".to_string() };
    let upper = Sequence { name: "Abort".to_string(), script: "x".to_string() };
    assert!(is_abort(&abort));
    assert!(!is_abort(&other));
    assert!(!is_abort(&upper));
}

#[test]
fn run_phases_follow_the_state_machine() {
    assert_eq!(advance(RunPhase::NotStarted, RunEvent::Received { abort: true }), Some(RunPhase::Stored));
    assert_eq!(advance(RunPhase::NotStarted, RunEvent::Received { abort: false }), Some(RunPhase::Binding));
    assert_eq!(advance(RunPhase::Binding, RunEvent::Bound), Some(RunPhase::Running));
    assert_eq!(advance(RunPhase::Binding, RunEvent::Raised), Some(RunPhase::Failed));
    assert_eq!(advance(RunPhase::Running, RunEvent::Finished), Some(RunPhase::Completed));
    assert_eq!(advance(RunPhase::Running, RunEvent::Raised), Some(RunPhase::Failed));
    assert_eq!(advance(RunPhase::Stored, RunEvent::Bound), None);
    assert_eq!(advance(RunPhase::Completed, RunEvent::Finished), None);
    assert_eq!(advance(RunPhase::NotStarted, RunEvent::Bound), None);
}
