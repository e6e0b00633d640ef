use common::model::{Measurement, Unit, ValveState};
use common::store::VehicleState;

fn psi(v: f64) -> Measurement {
    Measurement { value_bits: v.to_bits(), unit: Unit::Psi }
}

#[test]
fn unknown_sensor_on_empty_store_has_no_value() {
    let store = VehicleState::new();
    assert_eq!(store.get_sensor("unknown"), None);
    assert_eq!(store.get_valve("unknown"), None);
    assert_eq!(store.get_update_time("unknown"), None);
}

#[test]
fn last_update_in_time_order_wins() {
    let mut store = VehicleState::new();
    assert!(!store.update_sensor("pt1", psi(1.0), 100));
    assert!(!store.update_sensor("pt2", psi(9.0), 150));
    assert!(!store.update_sensor("pt1", psi(2.0), 200));
    assert!(!store.update_sensor("pt1", psi(3.0), 300));
    assert_eq!(store.get_sensor("pt1"), Some(psi(3.0)));
    assert_eq!(store.get_update_time("pt1"), Some(300));
    assert_eq!(store.get_sensor("pt2"), Some(psi(9.0)));
}

#[test]
fn older_update_is_stored_and_flagged() {
    let mut store = VehicleState::new();
    store.update_sensor("pt1", psi(5.0), 500);
    assert!(store.update_sensor("pt1", psi(4.0), 400));
    assert_eq!(store.get_sensor("pt1"), Some(psi(4.0)));
    assert_eq!(store.get_update_time("pt1"), Some(400));
    assert!(!store.update_sensor("pt1", psi(4.5), 400));
}

#[test]
fn a_node_is_a_valve_or_a_sensor_never_both() {
    let mut store = VehicleState::new();
    store.update_valve("vlv1", ValveState::Open, 10);
    assert_eq!(store.get_valve("vlv1"), Some(ValveState::Open));
    assert_eq!(store.get_sensor("vlv1"), None);
    assert_eq!(store.get_update_time("vlv1"), Some(10));
    store.update_sensor("vlv1", psi(1.0), 20);
    assert_eq!(store.get_valve("vlv1"), None);
    assert_eq!(store.get_sensor("vlv1"), Some(psi(1.0)));
    assert_eq!(store.get_update_time("vlv1"), Some(20));
}

#[test]
fn reset_forgets_everything() {
    let mut store = VehicleState::new();
    store.update_valve("vlv1", ValveState::Closed, 1);
    store.update_sensor("pt1", psi(1.0), 2);
    store.reset();
    assert_eq!(store.get_valve("vlv1"), None);
    assert_eq!(store.get_sensor("pt1"), None);
    assert_eq!(store.get_update_time("pt1"), None);
}

#[test]
fn snapshot_lists_every_node_once() {
    let mut store = VehicleState::new();
    store.update_valve("vlv1", ValveState::Open, 1);
    store.update_sensor("pt1", psi(2.0), 2);
    store.update_sensor("pt1", psi(3.0), 3);
    let mut snap = store.snapshot();
    snap.sort_by(|a, b| a.0.cmp(&b.0));
    assert_eq!(snap.len(), 2);
    assert_eq!(snap[0].0, "pt1");
    assert_eq!(snap[0].1.reading, common::store::Reading::Sensor(psi(3.0)));
    assert_eq!(snap[0].1.updated_at, 3);
    assert_eq!(snap[1].0, "vlv1");
    assert_eq!(snap[1].1.reading, common::store::Reading::Valve(ValveState::Open));
}
