use dvn::codec::{extract_header, MESSAGE_OFFSET};
use dvn::lifecycle::{Dvn, DvnConfig};

fn counting_packet(len: usize) -> Vec<u8> {
    let mut p = Vec::with_capacity(len);
    for i in 0..len {
        p.push(i as u8);
    }
    p
}

#[test]
fn header_hash_is_keccak_of_the_serialized_header() {
    let packet = counting_packet(130);
    let mut node = Dvn::new(DvnConfig {});
    node.packet_received(packet.clone());

    let header_bytes = extract_header(&packet).unwrap().to_slice();
    let expected = alloy_primitives::keccak256(&header_bytes);

    let hash = node.get_header_hash().unwrap();
    assert_eq!(hash.len(), 32);
    assert_eq!(hash, expected.as_slice().to_vec());
    assert_ne!(hash, header_bytes);
}

#[test]
fn message_hash_is_keccak_of_the_message_body() {
    let packet = counting_packet(130);
    let mut node = Dvn::new(DvnConfig {});
    node.packet_received(packet.clone());

    let message = packet[MESSAGE_OFFSET..].to_vec();
    let expected = alloy_primitives::keccak256(&message);

    let hash = node.get_message_hash().unwrap();
    assert_eq!(hash.len(), 32);
    assert_eq!(hash, expected.as_slice().to_vec());
    assert_ne!(hash, message);
}

#[test]
fn zero_packet_hashes_agree_with_direct_keccak() {
    let packet = vec![0u8; 93];
    let mut node = Dvn::new(DvnConfig {});
    node.packet_received(packet.clone());

    let expected_header = alloy_primitives::keccak256(vec![0u8; 85]);
    assert_eq!(
        node.get_header_hash().unwrap(),
        expected_header.as_slice().to_vec()
    );

    let expected_message = alloy_primitives::keccak256(vec![0u8; 12]);
    assert_eq!(
        node.get_message_hash().unwrap(),
        expected_message.as_slice().to_vec()
    );
}

#[test]
fn no_packet_or_short_packet_means_no_hashes() {
    let mut node = Dvn::new(DvnConfig {});
    assert!(node.get_header_hash().is_none());
    assert!(node.get_message_hash().is_none());

    node.packet_received(vec![0u8; 92]);
    assert!(node.get_header_hash().is_none());
    assert!(node.get_message_hash().is_none());
}
