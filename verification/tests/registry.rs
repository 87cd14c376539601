use libp2p::identity::Keypair;
use p2p_camera::mobile_core::registry_client::{
    judge_binding, query_error_text, registry_query, QueryError, MAX_ANSWER_LEN,
};
use p2p_camera::mobile_core::viewer::MediaPlayer;
use p2p_camera::net::addr::PeerId;
use p2p_camera::proto::registry::{registry_error_text, RegistryError, RegistryMessage};
use p2p_camera::proto::registry_reader::{read_error_text, MessageReader, ReadError};
use p2p_camera::relay_server::registry::{
    describe_message, judge_registration, refusal_error_text, Refusal, RegistryTable, BAD_SIGNATURE, KEY_MISMATCH,
    MAX_REQUEST_LEN, NOT_CONNECTION_PEER,
};

fn peer_of(k: &Keypair) -> PeerId {
    PeerId { bytes: k.public().to_peer_id().to_bytes() }
}

fn registration(k: &Keypair, serial: &str) -> RegistryMessage {
    let peer_id = k.public().to_peer_id().to_bytes();
    let payload = RegistryMessage::sign_payload(serial, &peer_id);
    RegistryMessage::Register {
        serial: serial.to_string(),
        peer_id,
        pubkey: k.public().encode_protobuf(),
        signature: k.sign(&payload).unwrap(),
    }
}

fn error_text(m: &Option<RegistryMessage>) -> String {
    match m {
        Some(RegistryMessage::Error { message }) => message.clone(),
        other => panic!("no error: {:?}", other),
    }
}

#[test]
fn message_layouts_on_the_wire() {
    let m = RegistryMessage::Register {
        serial: "ab".to_string(),
        peer_id: vec![1],
        pubkey: vec![2, 3],
        signature: vec![],
    };
    assert_eq!(m.encode(), vec![1, 0, 2, b'a', b'b', 0, 1, 1, 0, 2, 2, 3, 0, 0]);
    assert_eq!(RegistryMessage::Query { serial: "x".to_string() }.encode(), vec![2, 0, 1, b'x']);
    let m = RegistryMessage::Response { peer_id: vec![7], pubkey: vec![], signature: vec![8] };
    assert_eq!(m.encode(), vec![3, 0, 1, 7, 0, 0, 0, 1, 8]);
    assert_eq!(RegistryMessage::NotFound.encode(), vec![4]);
    assert_eq!(
        RegistryMessage::Error { message: "é".to_string() }.encode(),
        vec![5, 0, 2, 0xc3, 0xa9]
    );
}

#[test]
fn messages_are_read_back() {
    let m = RegistryMessage::Register {
        serial: "e33700a6620dfddc".to_string(),
        peer_id: vec![1, 2, 3],
        pubkey: vec![4; 300],
        signature: vec![5; 64],
    };
    let mut bytes = m.encode();
    match RegistryMessage::decode(&bytes) {
        Ok(RegistryMessage::Register { serial, peer_id, pubkey, signature }) => {
            assert_eq!(serial, "e33700a6620dfddc");
            assert_eq!(peer_id, vec![1, 2, 3]);
            assert_eq!(pubkey, vec![4; 300]);
            assert_eq!(signature, vec![5; 64]);
        }
        other => panic!("{:?}", other),
    }
    bytes.push(99);
    assert_eq!(RegistryMessage::decode(&bytes).unwrap_err(), RegistryError::TrailingBytes);
    assert!(matches!(RegistryMessage::decode(&[4]), Ok(RegistryMessage::NotFound)));
    match RegistryMessage::decode(&[5, 0, 2, 0xc3, 0xa9]) {
        Ok(RegistryMessage::Error { message }) => assert_eq!(message, "é"),
        other => panic!("{:?}", other),
    }
}

#[test]
fn bad_messages_are_refused() {
    assert_eq!(RegistryMessage::decode(&[]).unwrap_err(), RegistryError::Empty);
    assert_eq!(RegistryMessage::decode(&[2, 0]).unwrap_err(), RegistryError::TruncatedLength);
    assert_eq!(
        RegistryMessage::decode(&[2, 0, 5, 1, 2]).unwrap_err(),
        RegistryError::TruncatedPayload { need: 5, have: 2 }
    );
    let utf8 = |bytes: &[u8]| String::from_utf8(bytes.to_vec()).unwrap_err().to_string();
    assert_eq!(
        RegistryMessage::decode(&[2, 0, 1, 0xff]).unwrap_err(),
        RegistryError::InvalidSerial(utf8(&[0xff]))
    );
    assert_eq!(
        RegistryMessage::decode(&[1, 0, 2, 65, 0xc3]).unwrap_err(),
        RegistryError::InvalidSerial(utf8(&[65, 0xc3]))
    );
    assert_eq!(
        RegistryMessage::decode(&[5, 0, 1, 0xff]).unwrap_err(),
        RegistryError::InvalidErrorText(utf8(&[0xff]))
    );
    assert_eq!(RegistryMessage::decode(&[6, 0, 0]).unwrap_err(), RegistryError::UnknownTag(6));
    assert_eq!(RegistryMessage::decode(&[4, 0]).unwrap_err(), RegistryError::TrailingBytes);
    assert_eq!(RegistryMessage::decode(&[2, 0, 1, 65, 9]).unwrap_err(), RegistryError::TrailingBytes);
    assert_eq!(RegistryMessage::decode(&[5, 0, 0, 0]).unwrap_err(), RegistryError::TrailingBytes);
    assert_eq!(
        RegistryMessage::decode(&[3, 0, 0, 0, 0, 0, 0, 7]).unwrap_err(),
        RegistryError::TrailingBytes
    );
}

#[test]
fn texts_of_decode_errors() {
    let text = |bytes: &[u8]| registry_error_text(&RegistryMessage::decode(bytes).unwrap_err());
    assert_eq!(text(&[]), "registry: empty message");
    assert_eq!(text(&[2, 0]), "registry: truncated length prefix");
    assert_eq!(text(&[2, 0, 50, 1, 2]), "registry: truncated payload (need 50, have 2)");
    assert_eq!(
        text(&[2, 0, 1, 0xff]),
        "registry: invalid serial utf8: invalid utf-8 sequence of 1 bytes from index 0"
    );
    assert_eq!(
        text(&[5, 0, 2, 65, 0xc3]),
        "registry: invalid error utf8: incomplete utf-8 byte sequence from index 1"
    );
    assert_eq!(text(&[123]), "registry: unknown message tag 123");
    assert_eq!(text(&[4, 0]), "registry: trailing bytes");
    assert_eq!(
        read_error_text(&ReadError::NoData, "response"),
        "registry stream closed without response"
    );
    assert_eq!(
        read_error_text(&ReadError::Invalid(RegistryError::UnknownTag(6)), "data"),
        "registry: unknown message tag 6"
    );
}

#[test]
fn signed_payload_is_serial_then_peer() {
    assert_eq!(RegistryMessage::sign_payload("ab", &[1, 2]), vec![b'a', b'b', 1, 2]);
}

#[test]
fn message_is_read_in_pieces() {
    let bytes = RegistryMessage::Query { serial: "abc".to_string() }.encode();
    let mut reader = MessageReader::new(MAX_REQUEST_LEN);
    assert_eq!(reader.finish().unwrap_err(), ReadError::NoData);
    for i in 0..bytes.len() {
        assert_eq!(reader.push(&bytes[i..i + 1]), i + 1 == bytes.len());
    }
    match reader.finish() {
        Ok(RegistryMessage::Query { serial }) => assert_eq!(serial, "abc"),
        other => panic!("{:?}", other),
    }
    let mut junk = MessageReader::new(MAX_ANSWER_LEN);
    assert!(!junk.push(&vec![9u8; MAX_ANSWER_LEN - 1]));
    assert!(junk.push(&[9]));
    assert_eq!(junk.finish().unwrap_err(), ReadError::Invalid(RegistryError::UnknownTag(9)));
    let mut longer = MessageReader::new(MAX_ANSWER_LEN);
    assert!(!longer.push(&[4, 0]));
    assert_eq!(longer.finish().unwrap_err(), ReadError::Invalid(RegistryError::TrailingBytes));
}

#[test]
fn registered_camera_is_found_by_a_viewer() {
    let camera = Keypair::generate_ed25519();
    let viewer = Keypair::generate_ed25519();
    let mut table = RegistryTable::new();
    let answer = table.handle_message(&peer_of(&camera), registration(&camera, "sn-1"));
    assert!(answer.result.is_ok());
    assert!(matches!(answer.reply, Some(RegistryMessage::Response { .. })));

    let answer = table.handle_message(&peer_of(&viewer), registry_query("sn-1"));
    let wire = answer.reply.unwrap().encode();
    let received = RegistryMessage::decode(&wire).unwrap();
    let (peer, key) = MediaPlayer::query_registry("sn-1", received).unwrap();
    assert_eq!(peer.bytes, camera.public().to_peer_id().to_bytes());
    assert_eq!(key, camera.public().encode_protobuf());

    let answer = table.handle_message(&peer_of(&viewer), registry_query("sn-2"));
    assert!(matches!(answer.reply, Some(RegistryMessage::NotFound)));
}

#[test]
fn registration_for_another_peer_is_refused() {
    let camera = Keypair::generate_ed25519();
    let other = Keypair::generate_ed25519();
    let mut table = RegistryTable::new();
    let answer = table.handle_message(&peer_of(&other), registration(&camera, "sn"));
    assert_eq!(
        refusal_error_text(&answer.result.unwrap_err()),
        format!(
            "register rejected: claimed {} != connection {}",
            camera.public().to_peer_id(),
            other.public().to_peer_id()
        )
    );
    assert_eq!(error_text(&answer.reply), NOT_CONNECTION_PEER);
    let answer = table.handle_message(&peer_of(&other), registry_query("sn"));
    assert!(matches!(answer.reply, Some(RegistryMessage::NotFound)));
}

#[test]
fn registration_with_a_wrong_key_or_signature_is_refused() {
    let camera = Keypair::generate_ed25519();
    let other = Keypair::generate_ed25519();
    let me = peer_of(&camera);
    let mut table = RegistryTable::new();
    let parts = |serial: &str, k: &Keypair| match registration(&camera, serial) {
        RegistryMessage::Register { serial, peer_id, signature, .. } => RegistryMessage::Register {
            serial,
            peer_id,
            pubkey: k.public().encode_protobuf(),
            signature,
        },
        m => m,
    };
    let answer = table.handle_message(&me, parts("sn", &other));
    let refusal = answer.result.unwrap_err();
    assert!(matches!(refusal, Refusal::KeyMismatch));
    assert_eq!(refusal_error_text(&refusal), "register rejected: pubkey/peer_id mismatch");
    assert_eq!(error_text(&answer.reply), KEY_MISMATCH);

    let bad = match registration(&camera, "sn") {
        RegistryMessage::Register { peer_id, pubkey, signature, .. } => RegistryMessage::Register {
            serial: "other".to_string(),
            peer_id,
            pubkey,
            signature,
        },
        m => m,
    };
    let answer = table.handle_message(&me, bad);
    let refusal = answer.result.unwrap_err();
    assert!(matches!(refusal, Refusal::BadSignature));
    assert_eq!(refusal_error_text(&refusal), "register rejected: bad signature");
    assert_eq!(error_text(&answer.reply), BAD_SIGNATURE);

    let unreadable = RegistryMessage::Register {
        serial: "sn".to_string(),
        peer_id: vec![1, 2, 3],
        pubkey: vec![],
        signature: vec![],
    };
    let answer = table.handle_message(&me, unreadable);
    let why = libp2p::PeerId::from_bytes(&[1, 2, 3]).unwrap_err().to_string();
    assert_eq!(
        refusal_error_text(&answer.result.unwrap_err()),
        format!("invalid peer_id: {}", why)
    );
    assert!(answer.reply.is_none());

    let no_key = match registration(&camera, "sn") {
        RegistryMessage::Register { serial, peer_id, signature, .. } => RegistryMessage::Register {
            serial,
            peer_id,
            pubkey: vec![1, 2, 3],
            signature,
        },
        m => m,
    };
    let answer = table.handle_message(&me, no_key);
    let why = libp2p::identity::PublicKey::try_decode_protobuf(&[1, 2, 3]).unwrap_err();
    assert_eq!(
        refusal_error_text(&answer.result.unwrap_err()),
        format!("invalid pubkey: {}", why)
    );
    assert!(answer.reply.is_none());
}

#[test]
fn message_for_a_client_is_unexpected_at_the_relay() {
    let peer = peer_of(&Keypair::generate_ed25519());
    let mut table = RegistryTable::new();
    let answer = table.handle_message(&peer, RegistryMessage::NotFound);
    let refusal = answer.result.unwrap_err();
    assert!(matches!(refusal, Refusal::UnexpectedMessage));
    assert_eq!(refusal_error_text(&refusal), "unexpected registry message");
    assert_eq!(error_text(&answer.reply), "unexpected message: NotFound");
    let m = RegistryMessage::Response { peer_id: vec![1, 2], pubkey: vec![], signature: vec![3] };
    let answer = table.handle_message(&peer, m);
    assert_eq!(
        error_text(&answer.reply),
        "unexpected message: Response { peer_id: [1, 2], pubkey: [], signature: [3] }"
    );
}

#[test]
fn messages_are_described_as_debug_does() {
    let samples = vec![
        RegistryMessage::Query { serial: "a\"b\n".to_string() },
        RegistryMessage::Error { message: "签名".to_string() },
        RegistryMessage::NotFound,
        RegistryMessage::Register {
            serial: "s".to_string(),
            peer_id: vec![255, 0],
            pubkey: vec![10],
            signature: vec![],
        },
    ];
    for m in samples {
        assert_eq!(describe_message(&m), format!("{:?}", m));
    }
}

#[test]
fn verdicts_on_registrations() {
    let p = PeerId { bytes: vec![1] };
    let q = PeerId { bytes: vec![2] };
    let ok = |x: &PeerId| Ok(PeerId { bytes: x.bytes.clone() });
    let none = || Err("e".to_string());
    match judge_registration(none(), &p, ok(&p), true) {
        Err(Refusal::InvalidPeerId(e)) => assert_eq!(e, "e"),
        other => panic!("{:?}", other),
    }
    match judge_registration(ok(&q), &p, none(), true) {
        Err(Refusal::NotConnectionPeer { claimed, remote }) => {
            assert_eq!((claimed.bytes, remote.bytes), (vec![2], vec![1]));
        }
        other => panic!("{:?}", other),
    }
    match judge_registration(ok(&p), &p, none(), true) {
        Err(Refusal::InvalidKey(e)) => assert_eq!(e, "e"),
        other => panic!("{:?}", other),
    }
    let with_key = |x: &PeerId, signed: bool| judge_registration(ok(&p), &p, ok(x), signed);
    assert!(matches!(with_key(&q, true), Err(Refusal::KeyMismatch)));
    assert!(matches!(with_key(&p, false), Err(Refusal::BadSignature)));
    assert!(matches!(with_key(&p, true), Ok(())));
}

#[test]
fn forged_answers_are_refused() {
    let camera = Keypair::generate_ed25519();
    let forger = Keypair::generate_ed25519();
    let answer = |k: &Keypair, serial: &str, key: &Keypair| {
        let peer_id = k.public().to_peer_id().to_bytes();
        let signature = k.sign(&RegistryMessage::sign_payload(serial, &peer_id)).unwrap();
        RegistryMessage::Response { peer_id, pubkey: key.public().encode_protobuf(), signature }
    };
    assert!(MediaPlayer::query_registry("sn", answer(&camera, "sn", &camera)).is_ok());
    assert!(matches!(
        MediaPlayer::query_registry("sn", answer(&camera, "sn", &forger)),
        Err(QueryError::KeyMismatch)
    ));
    assert!(matches!(
        MediaPlayer::query_registry("sn", answer(&camera, "other", &camera)),
        Err(QueryError::BadSignature)
    ));
    assert!(matches!(
        MediaPlayer::query_registry(
            "sn",
            RegistryMessage::Response { peer_id: vec![], pubkey: vec![], signature: vec![] }
        ),
        Err(QueryError::InvalidPeerId(_))
    ));
    assert!(matches!(
        MediaPlayer::query_registry("sn", RegistryMessage::NotFound),
        Err(QueryError::NotFound)
    ));
    assert!(matches!(
        MediaPlayer::query_registry("sn", registry_query("sn")),
        Err(QueryError::UnexpectedResponse)
    ));
    let e = MediaPlayer::query_registry("sn", RegistryMessage::Error { message: "x".to_string() })
        .unwrap_err();
    assert_eq!(query_error_text(&e, "sn"), "relay registry 错误: x");
    assert_eq!(
        query_error_text(&QueryError::NotFound, "sn"),
        "serial 'sn' 未在 relay 注册表中找到 (相机是否已上线？)"
    );
    let p = PeerId { bytes: vec![1] };
    let e = judge_binding(Ok(p), Err("why".to_string()), true, vec![]).unwrap_err();
    assert!(matches!(e, QueryError::InvalidKey(_)));
    assert_eq!(query_error_text(&e, "sn"), "invalid pubkey from registry: why");
    let answer = |peer_id: Vec<u8>, pubkey: Vec<u8>| {
        let m = RegistryMessage::Response { peer_id, pubkey, signature: vec![] };
        query_error_text(&MediaPlayer::query_registry("sn", m).unwrap_err(), "sn")
    };
    assert_eq!(answer(vec![], vec![]), "invalid peer_id from registry: invalid multihash");
    let peer_id = camera.public().to_peer_id().to_bytes();
    assert_eq!(
        answer(peer_id, vec![9]),
        "invalid pubkey from registry: Key decoding error: failed to decode public key bytes from protobuf"
    );
}
