use common::mapping::{ConfigError, MappingTable, NodeMapping};
use common::model::{ChannelType, Computer};

fn mapping(text_id: &str, board_id: &str, channel: u32, channel_type: ChannelType) -> NodeMapping {
    NodeMapping {
        text_id: text_id.to_string(),
        board_id: board_id.to_string(),
        channel_type,
        channel,
        computer: Computer::Flight,
        max: None,
        min: None,
        calibrated_offset: 0,
        connected_threshold: None,
        powered_threshold: None,
        normally_closed: None,
    }
}

#[test]
fn valid_list_loads_and_every_entry_resolves() {
    let mut table = MappingTable::new();
    let list = vec![
        mapping("vlv1", "sam-01", 3, ChannelType::ValveCurrent),
        mapping("pt1", "sam-01", 3, ChannelType::CurrentLoop),
        mapping("pt2", "sam-02", 3, ChannelType::CurrentLoop),
    ];
    assert!(table.load(list).is_ok());
    assert_eq!(table.len(), 3);
    for name in ["vlv1", "pt1", "pt2"] {
        let m = table.resolve(name).expect("entry resolves");
        assert_eq!(m.text_id, name);
    }
    assert_eq!(table.resolve("pt2").unwrap().board_id, "sam-02");
    assert!(table.resolve("pt3").is_none());
}

#[test]
fn duplicate_key_is_refused_and_table_kept() {
    let mut table = MappingTable::new();
    table.load(vec![mapping("old", "sam-01", 1, ChannelType::Rtd)]).unwrap();
    let list = vec![
        mapping("pt1", "sam-01", 1, ChannelType::CurrentLoop),
        mapping("pt1", "sam-02", 2, ChannelType::CurrentLoop),
    ];
    match table.load(list) {
        Err(ConfigError::DuplicateKey(id)) => assert_eq!(id, "pt1"),
        other => panic!("unexpected {:?}", other),
    }
    assert_eq!(table.len(), 1);
    assert!(table.resolve("old").is_some());
    assert!(table.resolve("pt1").is_none());
}

#[test]
fn channel_claimed_twice_is_refused() {
    let mut table = MappingTable::new();
    let list = vec![
        mapping("pt1", "sam-01", 4, ChannelType::CurrentLoop),
        mapping("pt2", "sam-01", 4, ChannelType::CurrentLoop),
    ];
    match table.load(list) {
        Err(ConfigError::InvalidChannel(id)) => assert_eq!(id, "pt2"),
        other => panic!("unexpected {:?}", other),
    }
    assert_eq!(table.len(), 0);
}

#[test]
fn same_channel_on_other_computer_is_accepted() {
    let mut table = MappingTable::new();
    let mut ground = mapping("pt2", "sam-01", 4, ChannelType::CurrentLoop);
    ground.computer = Computer::Ground;
    let list = vec![mapping("pt1", "sam-01", 4, ChannelType::CurrentLoop), ground];
    assert!(table.load(list).is_ok());
}

#[test]
fn empty_list_loads() {
    let mut table = MappingTable::new();
    table.load(vec![mapping("a", "b", 0, ChannelType::Tc)]).unwrap();
    assert!(table.load(Vec::new()).is_ok());
    assert_eq!(table.len(), 0);
    assert!(table.resolve("a").is_none());
}
