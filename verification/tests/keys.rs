use libp2p::identity::Keypair;
use p2p_camera::net::keys::{load_or_create_keypair, KeyStep};

#[test]
fn key_is_made_once_and_used_from_then_on() {
    let (data, first) = match load_or_create_keypair(None) {
        KeyStep::Store { data, keypair, peer } => {
            assert_eq!(keypair.public().to_peer_id().to_bytes(), peer.bytes);
            assert_eq!(keypair.to_protobuf_encoding().unwrap(), data);
            (data, peer)
        }
        other => panic!("{:?}", other),
    };
    for _ in 0..3 {
        match load_or_create_keypair(Some(&data)) {
            KeyStep::Use { keypair, peer } => {
                assert_eq!(peer.bytes, first.bytes);
                assert_eq!(keypair.to_protobuf_encoding().unwrap(), data);
                assert_eq!(keypair.public().to_peer_id().to_bytes(), first.bytes);
            }
            other => panic!("{:?}", other),
        }
    }
    match load_or_create_keypair(None) {
        KeyStep::Store { peer, .. } => assert_ne!(peer.bytes, first.bytes),
        other => panic!("{:?}", other),
    }
}

#[test]
fn kept_key_is_read() {
    let key = Keypair::generate_ed25519();
    match load_or_create_keypair(Some(&key.to_protobuf_encoding().unwrap())) {
        KeyStep::Use { keypair, peer } => {
            assert_eq!(
                keypair.to_protobuf_encoding().unwrap(),
                key.to_protobuf_encoding().unwrap()
            );
            assert_eq!(peer.bytes, key.public().to_peer_id().to_bytes());
        }
        other => panic!("{:?}", other),
    }
}

#[test]
fn bytes_that_are_no_key_are_refused() {
    let mut cut = Keypair::generate_ed25519().to_protobuf_encoding().unwrap();
    cut.pop();
    for data in [&[][..], &[1, 2, 3], &cut] {
        match load_or_create_keypair(Some(data)) {
            KeyStep::Refuse { error } => assert!(error.starts_with("Key decoding error: ")),
            other => panic!("{:?}", other),
        }
    }
}
