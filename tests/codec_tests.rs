use common::codec::{decode_control, decode_node_mapping, encode_control, encode_node_mapping};
use common::mapping::NodeMapping;
use common::messages::SamControlMessage;
use common::model::{ChannelType, Computer};

fn full() -> NodeMapping {
    NodeMapping {
        text_id: "fuel_press_é".to_string(),
        board_id: "sam-03".to_string(),
        channel_type: ChannelType::DifferentialSignal,
        channel: 0x0102_0304,
        computer: Computer::Ground,
        max: Some(1000.0f64.to_bits()),
        min: Some(0.0f64.to_bits()),
        calibrated_offset: (-1.25f64).to_bits(),
        connected_threshold: Some(0.1f64.to_bits()),
        powered_threshold: Some(0.0f64.to_bits()),
        normally_closed: Some(false),
    }
}

fn same(a: &NodeMapping, b: &NodeMapping) -> bool {
    a.text_id == b.text_id
        && a.board_id == b.board_id
        && a.channel_type == b.channel_type
        && a.channel == b.channel
        && a.computer == b.computer
        && a.max == b.max
        && a.min == b.min
        && a.calibrated_offset == b.calibrated_offset
        && a.connected_threshold == b.connected_threshold
        && a.powered_threshold == b.powered_threshold
        && a.normally_closed == b.normally_closed
}

#[test]
fn node_mapping_round_trips_with_every_field() {
    let m = full();
    let bytes = encode_node_mapping(&m);
    let back = decode_node_mapping(&bytes).expect("decodes");
    assert!(same(&m, &back));
}

#[test]
fn node_mapping_round_trips_with_absent_fields() {
    let m = NodeMapping {
        text_id: String::new(),
        board_id: "b".to_string(),
        channel_type: ChannelType::CurrentLoop,
        channel: 0,
        computer: Computer::Flight,
        max: None,
        min: None,
        calibrated_offset: 0,
        connected_threshold: None,
        powered_threshold: None,
        normally_closed: None,
    };
    let bytes = encode_node_mapping(&m);
    assert_eq!(
        bytes,
        vec![0, 0, 0, 0, 1, 0, 0, 0, b'b', 0, 0, 0, 0, 0, 0, 0, 0, 0, 0, 0, 0, 0, 0, 0, 0, 0, 0, 0]
    );
    let back = decode_node_mapping(&bytes).expect("decodes");
    assert!(same(&m, &back));
    assert_eq!(back.max, None);
    assert_eq!(back.normally_closed, None);
}

#[test]
fn text_is_decoded_from_utf8() {
    let m = full();
    let bytes = encode_node_mapping(&m);
    assert_eq!(&bytes[0..4], &[13u8, 0, 0, 0]);
    let back = decode_node_mapping(&bytes).unwrap();
    assert_eq!(back.text_id, "fuel_press_é");
}

#[test]
fn malformed_mappings_are_refused() {
    let mut bytes = encode_node_mapping(&full());
    bytes.push(0);
    assert!(decode_node_mapping(&bytes).is_none());
    let bytes = encode_node_mapping(&full());
    assert!(decode_node_mapping(&bytes[..bytes.len() - 1]).is_none());
    let mut bad_utf8 = bytes.clone();
    bad_utf8[4] = 0xff;
    assert!(decode_node_mapping(&bad_utf8).is_none());
    assert!(decode_node_mapping(&[]).is_none());
}

#[test]
fn control_messages_round_trip() {
    for msg in [
        SamControlMessage::ActuateValve { channel: 3, open: false },
        SamControlMessage::ActuateValve { channel: u32::MAX, open: true },
        SamControlMessage::SetLed { channel: 258, on: true },
    ] {
        let bytes = encode_control(&msg);
        assert_eq!(bytes.len(), 6);
        assert_eq!(decode_control(&bytes), Some(msg));
    }
    assert_eq!(
        encode_control(&SamControlMessage::SetLed { channel: 258, on: true }),
        vec![1, 2, 1, 0, 0, 1]
    );
}

#[test]
fn malformed_control_messages_are_refused() {
    assert_eq!(decode_control(&[2, 0, 0, 0, 0, 0]), None);
    assert_eq!(decode_control(&[0, 0, 0, 0, 0, 2]), None);
    assert_eq!(decode_control(&[0, 0, 0, 0, 0]), None);
    assert_eq!(decode_control(&[0, 0, 0, 0, 0, 1, 0]), None);
}
