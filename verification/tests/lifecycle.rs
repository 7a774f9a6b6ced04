use dvn::codec::MINIMUM_PACKET_LENGTH;
use dvn::lifecycle::{Dvn, DvnConfig, DvnStatus};

#[test]
fn new_node_is_stopped_and_empty() {
    let node = Dvn::new(DvnConfig {});
    assert_eq!(node.status(), DvnStatus::Stopped);
    assert!(node.packet().is_none());
    assert!(node.get_header().is_none());
    assert!(node.get_header_hash().is_none());
    assert!(node.get_message_hash().is_none());
}

#[test]
fn config_is_handed_back() {
    let node = Dvn::new(DvnConfig {});
    let _config: &DvnConfig = node.config();
}

#[test]
fn listening_is_idempotent() {
    let mut node = Dvn::new(DvnConfig {});
    node.listening();
    assert_eq!(node.status(), DvnStatus::Listening);
    node.listening();
    assert_eq!(node.status(), DvnStatus::Listening);
}

#[test]
fn received_long_packet_yields_a_header() {
    let mut node = Dvn::new(DvnConfig {});
    node.listening();
    node.packet_received(vec![0u8; MINIMUM_PACKET_LENGTH]);
    assert_eq!(node.status(), DvnStatus::PacketReceived);
    assert!(node.get_header().is_some());
}

#[test]
fn received_short_packet_yields_no_header() {
    let mut node = Dvn::new(DvnConfig {});
    node.listening();
    node.packet_received(vec![0u8; MINIMUM_PACKET_LENGTH - 1]);
    assert_eq!(node.status(), DvnStatus::PacketReceived);
    assert!(node.get_header().is_none());
    assert!(node.get_header_hash().is_none());
    assert!(node.get_message_hash().is_none());
}

#[test]
fn packet_returns_the_stored_bytes() {
    let mut node = Dvn::new(DvnConfig {});
    let payload: Vec<u8> = (0..120).map(|i| i as u8).collect();
    node.packet_received(payload.clone());
    assert_eq!(node.packet(), Some(payload));
}

#[test]
fn a_new_packet_replaces_the_old_one() {
    let mut node = Dvn::new(DvnConfig {});
    node.packet_received(vec![1u8; 100]);
    node.packet_received(vec![2u8; 95]);
    assert_eq!(node.packet(), Some(vec![2u8; 95]));
}

#[test]
fn reset_drops_the_packet_and_listens_again() {
    let mut node = Dvn::new(DvnConfig {});
    node.listening();
    node.packet_received(vec![7u8; 100]);
    node.reset_packet();
    assert_eq!(node.status(), DvnStatus::Listening);
    assert!(node.packet().is_none());
    assert!(node.get_header().is_none());
    assert!(node.get_message_hash().is_none());
}

#[test]
fn verifying_keeps_the_packet() {
    let mut node = Dvn::new(DvnConfig {});
    node.packet_received(vec![7u8; 100]);
    node.verifying();
    assert_eq!(node.status(), DvnStatus::Verifying);
    assert_eq!(node.packet(), Some(vec![7u8; 100]));
    assert!(node.get_header().is_some());
}
