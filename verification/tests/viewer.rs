use bytes::Bytes;
use p2p_camera::mobile_core::connect::{
    connect_error_text, drain_to_latest_keyframe, pick_target, resolve_target,
    viewer_listen_addresses, CameraEvent, ConnectAttempt, ConnectError, ConnectEvent,
    PickedTarget, WaitStep,
};
use p2p_camera::mobile_core::keyframe::is_nal_keyframe;
use p2p_camera::mobile_core::net_diag::ConnectionType;
use p2p_camera::mobile_core::receiver::{
    eof_reason, read_error_reason, FrameReceiver, ReceiveStep, IDR_WAIT_TIMEOUT_NS,
};
use p2p_camera::mobile_core::stream_select::{get_video_protocol, stream_name, StreamTypeResolver};
use p2p_camera::mobile_core::viewer::{
    ConnectOptions, MediaPlayer, MediaPlayerEvent, NetworkEvent, PlayerAction,
};
use p2p_camera::net::addr::{Ipv4, Multiaddr, PeerId, Protocol};
use p2p_camera::net::nat_diag::NatType;
use p2p_camera::proto::media_packet::{MediaPacket, MediaTrack, FLAG_VIDEO_KEYFRAME};
use p2p_camera::proto::stream_protocols::{
    VIDEO_MAIN_PROTOCOL, VIDEO_SUB_PROTOCOL, VIDEO_THIRD_PROTOCOL,
};
use p2p_camera::text_map::TextMap;

const CAMERA: &str = "12D3KooWDpJ7As7BWAwRMfu1VU2WCqNjvq387JEYKDBj4kx6nXTN";
const RELAY: &str = "12D3KooWL3XJ9EMCyZvmmGXL2LMiVBtrVa2BuESsJiXkSj7333Jw";

fn peer(text: &str) -> PeerId {
    match resolve_target(text, &TextMap::new()) {
        PickedTarget::Known(p) => p,
        other => panic!("{:?}", other),
    }
}

fn relay_text() -> String {
    format!("/ip4/9.9.9.9/udp/4001/quic-v1/p2p/{}", RELAY)
}

fn quic(a: u8, b: u8, c: u8, d: u8, port: u16) -> Multiaddr {
    Multiaddr {
        parts: vec![Protocol::Ip4(Ipv4 { a, b, c, d }), Protocol::Udp(port), Protocol::QuicV1],
    }
}

fn lan() -> Multiaddr {
    quic(192, 168, 1, 50, 4242)
}

fn tcp_lan() -> Multiaddr {
    Multiaddr {
        parts: vec![Protocol::Ip4(Ipv4 { a: 192, b: 168, c: 1, d: 50 }), Protocol::Tcp(80)],
    }
}

fn circuit() -> Multiaddr {
    quic(9, 9, 9, 9, 4001).with(Protocol::P2pCircuit)
}

fn begin(player: &mut MediaPlayer, device: &str, mdns: bool) -> ConnectAttempt {
    player.connect(&vec![relay_text()], device, mdns, &TextMap::new(), "auto").unwrap()
}

fn connected_player() -> MediaPlayer {
    let mut player = MediaPlayer::new();
    let mut attempt = begin(&mut player, CAMERA, false);
    player.connect_event(
        &mut attempt,
        ConnectEvent::Established { peer: peer(RELAY), addr: quic(9, 9, 9, 9, 4001) },
    );
    player.choose_route(&attempt, None).unwrap();
    let kind = player
        .wait_for_connection_and_classify(CameraEvent::Established {
            peer: peer(CAMERA),
            addr: circuit(),
            connection_id: 11,
        })
        .unwrap()
        .unwrap();
    assert_eq!(player.plan_streams(kind).video, VIDEO_SUB_PROTOCOL);
    player.mark_connected();
    player
}

#[test]
fn targets_are_peer_ids_or_serials() {
    let mut map = TextMap::new();
    map.insert("sn1", CAMERA);
    map.insert("sn2", "nonsense");
    assert!(matches!(resolve_target(CAMERA, &map), PickedTarget::Known(_)));
    match resolve_target("sn1", &map) {
        PickedTarget::Known(p) => assert_eq!(p.bytes, peer(CAMERA).bytes),
        other => panic!("{:?}", other),
    }
    assert!(matches!(resolve_target("sn2", &map), PickedTarget::Invalid));
    assert!(matches!(resolve_target("sn3", &map), PickedTarget::Unknown));
    let p = || PeerId { bytes: vec![1] };
    assert!(matches!(pick_target(Some(p()), Some(None)), PickedTarget::Known(_)));
    assert!(matches!(pick_target(None, Some(Some(p()))), PickedTarget::Known(_)));
    assert!(matches!(pick_target(None, Some(None)), PickedTarget::Invalid));
    assert!(matches!(pick_target(None, None), PickedTarget::Unknown));
}

#[test]
fn peer_ids_are_read_as_the_network_library_does() {
    let known: libp2p::PeerId = CAMERA.parse().unwrap();
    assert_eq!(peer(CAMERA).bytes, known.to_bytes());
    assert_eq!(eof_reason(&peer(CAMERA)), format!("Stream EOF from {}", CAMERA));
    assert_eq!(
        read_error_reason(&peer(CAMERA), "boom"),
        format!("Stream read error from {}: boom", CAMERA)
    );
}

#[test]
fn relay_addresses_are_read() {
    let mut player = MediaPlayer::new();
    let attempt = begin(&mut player, CAMERA, false);
    let parts = &attempt.relays[0].parts;
    assert_eq!(parts.len(), 4);
    assert!(matches!(parts[0], Protocol::Ip4(Ipv4 { a: 9, b: 9, c: 9, d: 9 })));
    assert!(matches!(parts[1], Protocol::Udp(4001)));
    assert!(matches!(parts[2], Protocol::QuicV1));
    match &parts[3] {
        Protocol::P2p(p) => assert_eq!(p.bytes, peer(RELAY).bytes),
        other => panic!("{:?}", other),
    }
    let bad = vec![relay_text(), "nowhere".to_string()];
    let e = player.connect(&bad, CAMERA, false, &TextMap::new(), "auto").unwrap_err();
    assert_eq!(connect_error_text(&e), "invalid multiaddr");
    match e {
        ConnectError::InvalidRelayAddress { index, error } => {
            assert_eq!((index, error.as_str()), (1, "invalid multiaddr"));
        }
        other => panic!("{:?}", other),
    }
    let other = vec!["/ip6/2408::1/tcp/80/ws".to_string()];
    let attempt = player.connect(&other, CAMERA, false, &TextMap::new(), "auto").unwrap();
    assert!(attempt.relays[0].has_ip6() && attempt.relays[0].has_tcp());
    assert!(matches!(attempt.relays[0].parts[2], Protocol::Other(_)));
}

#[test]
fn bad_serial_mapping_leaves_the_viewer_alone() {
    let mut player = MediaPlayer::new();
    let mut map = TextMap::new();
    map.insert("sn", "zzz");
    let e = player.connect(&vec![], "sn", true, &map, "main").unwrap_err();
    match e {
        ConnectError::BadSerialMapping { serial, value } => {
            assert_eq!((serial.as_str(), value.as_str()), ("sn", "zzz"));
        }
        other => panic!("{:?}", other),
    }
    assert!(player.connect_params.is_none());
    assert!(matches!(player.reconnect(), Err(ConnectError::NothingToReconnect)));
}

#[test]
fn lan_is_preferred_to_a_relay() {
    let mut player = MediaPlayer::new();
    let mut attempt = begin(&mut player, CAMERA, true);
    assert_eq!(attempt.wait_step(false), WaitStep::Wait(30_000));
    player.connect_event(
        &mut attempt,
        ConnectEvent::Established { peer: peer(RELAY), addr: quic(9, 9, 9, 9, 4001) },
    );
    assert_eq!(attempt.wait_step(false), WaitStep::Wait(100));
    assert_eq!(attempt.wait_step(true), WaitStep::Proceed);
    assert!(attempt.proceed_on_timeout());
    player.connect_event(&mut attempt, ConnectEvent::Discovered(vec![(peer(CAMERA), lan())]));
    assert_eq!(attempt.wait_step(false), WaitStep::Proceed);
    let route = player.choose_route(&attempt, None).unwrap();
    assert_eq!(route.first_udp(), Some(4242));
    assert!(matches!(attempt.registry_relay(), Ok(None)));
}

#[test]
fn relay_is_used_when_the_camera_is_not_near() {
    let mut player = MediaPlayer::new();
    let mut attempt = begin(&mut player, CAMERA, false);
    player.connect_event(
        &mut attempt,
        ConnectEvent::Established { peer: peer(CAMERA), addr: quic(8, 8, 8, 8, 1) },
    );
    assert_eq!(attempt.wait_step(true), WaitStep::Wait(30_000));
    player.connect_event(
        &mut attempt,
        ConnectEvent::Established { peer: peer(RELAY), addr: quic(9, 9, 9, 9, 4001) },
    );
    assert_eq!(attempt.wait_step(false), WaitStep::Proceed);
    let route = player.choose_route(&attempt, None).unwrap();
    assert!(route.has_circuit() && route.has_peer(&peer(CAMERA)));
    assert_eq!(route.first_ip4(), Some(Ipv4 { a: 9, b: 9, c: 9, d: 9 }));
    assert_eq!(player.connected_relay.as_ref().unwrap().bytes, peer(RELAY).bytes);
}

#[test]
fn no_relay_and_no_camera_is_an_error() {
    let mut player = MediaPlayer::new();
    let mut attempt = begin(&mut player, CAMERA, true);
    player.connect_event(&mut attempt, ConnectEvent::DialFailed { peer: Some(peer(CAMERA)) });
    player.connect_event(&mut attempt, ConnectEvent::DialFailed { peer: None });
    assert_eq!(attempt.relay_errors, 0);
    player.connect_event(&mut attempt, ConnectEvent::DialFailed { peer: Some(peer(RELAY)) });
    assert_eq!(attempt.wait_step(false), WaitStep::Wait(30_000));
    assert_eq!(attempt.wait_step(true), WaitStep::Proceed);
    assert!(!attempt.proceed_on_timeout());
    assert!(matches!(player.choose_route(&attempt, None), Err(ConnectError::NoRoute)));
}

#[test]
fn serial_needs_a_relay_and_may_be_found_near() {
    let mut player = MediaPlayer::new();
    let mut attempt = begin(&mut player, "sn-9", true);
    match attempt.registry_relay() {
        Err(ConnectError::NoRelayForSerial { serial }) => assert_eq!(serial, "sn-9"),
        other => panic!("{:?}", other),
    }
    assert!(matches!(player.choose_route(&attempt, None), Err(ConnectError::CameraUnknown)));
    player.connect_event(
        &mut attempt,
        ConnectEvent::Established { peer: peer(RELAY), addr: quic(9, 9, 9, 9, 4001) },
    );
    player.connect_event(&mut attempt, ConnectEvent::Discovered(vec![(peer(CAMERA), lan())]));
    assert!(attempt.lan_addr.is_none());
    assert!(matches!(attempt.registry_relay(), Ok(Some(_))));
    let route = player.choose_route(&attempt, Some(peer(CAMERA))).unwrap();
    assert!(!route.has_circuit());
    assert_eq!(player.device_cam_peer_id.as_ref().unwrap().bytes, peer(CAMERA).bytes);
}

#[test]
fn waiting_for_the_camera() {
    let mut player = MediaPlayer::new();
    assert!(matches!(
        player.wait_for_connection_and_classify(CameraEvent::Other),
        Err(ConnectError::CameraUnknown)
    ));
    let mut player = connected_player();
    assert_eq!(player.relay_connection_id, Some(11));
    let mut ask = |e: CameraEvent| player.wait_for_connection_and_classify(e);
    let est = |p: &str, addr: Multiaddr| CameraEvent::Established {
        peer: peer(p),
        addr,
        connection_id: 5,
    };
    assert!(matches!(ask(est(RELAY, lan())), Ok(None)));
    assert!(matches!(ask(est(CAMERA, lan())), Ok(Some(ConnectionType::LanDirect))));
    assert!(matches!(
        ask(est(CAMERA, quic(8, 8, 8, 8, 1))),
        Ok(Some(ConnectionType::QuicDirect))
    ));
    assert!(matches!(ask(est(CAMERA, tcp_lan())), Ok(Some(ConnectionType::TcpDirect))));
    let failed = |p: Option<&str>| CameraEvent::DialFailed {
        peer: p.map(peer),
        error: "no answer".to_string(),
    };
    let e = ask(failed(Some(CAMERA))).unwrap_err();
    assert!(matches!(e, ConnectError::CameraUnreachable(_)));
    assert_eq!(connect_error_text(&e), "Connection to device-cam failed: no answer");
    assert!(matches!(ask(failed(Some(RELAY))), Ok(None)));
    let e = ask(failed(None)).unwrap_err();
    assert!(matches!(e, ConnectError::DialFailed(_)));
    assert_eq!(connect_error_text(&e), "Connection failed: no answer");
}

#[test]
fn texts_of_connect_errors() {
    let e = ConnectError::BadSerialMapping { serial: "sn".to_string(), value: "zzz".to_string() };
    assert_eq!(
        connect_error_text(&e),
        "serial_map 中 'sn' 的值 'zzz' 不是合法 PeerId，请检查配置"
    );
    assert_eq!(
        connect_error_text(&ConnectError::NoRelayForSerial { serial: "sn".to_string() }),
        "无法解析序列号 'sn'：未连接到任何 Relay（请检查 relays 配置或补充 serial_map）"
    );
    assert_eq!(
        connect_error_text(&ConnectError::NoRoute),
        "Failed to connect: no relay connection and no mDNS discovery"
    );
    assert_eq!(connect_error_text(&ConnectError::CameraUnknown), "device_cam_peer_id not set");
    assert_eq!(
        connect_error_text(&ConnectError::NothingToReconnect),
        "No connect params saved, cannot reconnect"
    );
}

#[test]
fn direct_connection_upgrades_the_stream() {
    let mut player = connected_player();
    let actions = player.poll_swarm(NetworkEvent::ConnectionEstablished {
        peer: peer(CAMERA),
        addr: lan(),
        connection_id: 12,
    });
    assert_eq!(actions.len(), 1);
    match &actions[0] {
        PlayerAction::UpgradeVideo { peer: p, protocol } => {
            assert_eq!(p.bytes, peer(CAMERA).bytes);
            assert_eq!(*protocol, VIDEO_MAIN_PROTOCOL);
        }
        other => panic!("{:?}", other),
    }
    assert!(player.connection_quality().direct_upgraded);
    let next = player.stream_upgraded(&peer(CAMERA));
    assert_eq!(next.len(), 4);
    assert!(matches!(
        next[0],
        PlayerAction::Notify(MediaPlayerEvent::DirectUpgraded { via_lan: true })
    ));
    assert!(matches!(next[1], PlayerAction::CloseConnection(11)));
    assert!(matches!(next[2], PlayerAction::UpgradeAudio(_)));
    assert!(matches!(next[3], PlayerAction::UpgradeControl(_)));
    player.no_audio = true;
    assert_eq!(player.stream_upgraded(&peer(CAMERA)).len(), 2);
    let again = player.poll_swarm(NetworkEvent::ConnectionEstablished {
        peer: peer(CAMERA),
        addr: lan(),
        connection_id: 13,
    });
    assert!(again.is_empty());
}

#[test]
fn connections_of_other_peers_do_not_upgrade() {
    let mut player = connected_player();
    let actions = player.poll_swarm(NetworkEvent::ConnectionEstablished {
        peer: peer(RELAY),
        addr: quic(8, 8, 8, 8, 1),
        connection_id: 1,
    });
    assert!(actions.is_empty());
    let mut named = connected_player();
    named.stream_resolver = StreamTypeResolver::new("sub");
    named.stream_resolver.update_connection_type(ConnectionType::RelayCircuit);
    let actions = named.poll_swarm(NetworkEvent::ConnectionEstablished {
        peer: peer(CAMERA),
        addr: lan(),
        connection_id: 1,
    });
    assert!(actions.is_empty());
}

#[test]
fn lost_connection_is_reported() {
    let mut player = connected_player();
    assert!(player
        .poll_swarm(NetworkEvent::ConnectionClosed { peer: peer(CAMERA), remaining: 1 })
        .is_empty());
    assert!(player.connected);
    let a = player.poll_swarm(NetworkEvent::ConnectionClosed { peer: peer(CAMERA), remaining: 0 });
    match &a[0] {
        PlayerAction::Notify(MediaPlayerEvent::Disconnected { reason }) => {
            assert_eq!(reason, "DeviceCam connection closed")
        }
        other => panic!("{:?}", other),
    }
    assert!(!player.connected);
    assert_eq!(player.connection_quality().connection_type, ConnectionType::Disconnected);
    let a = player.poll_swarm(NetworkEvent::ConnectionClosed { peer: peer(RELAY), remaining: 0 });
    match &a[0] {
        PlayerAction::Notify(MediaPlayerEvent::Disconnected { reason }) => {
            assert_eq!(*reason, format!("Connection to {} closed", RELAY))
        }
        other => panic!("{:?}", other),
    }
}

#[test]
fn failed_hole_punches_add_up() {
    let mut player = connected_player();
    let fail = || NetworkEvent::DcutrFailed { error: "timeout".to_string() };
    assert!(player.poll_swarm(fail()).is_empty());
    let a = player.poll_swarm(fail());
    assert!(matches!(a[0], PlayerAction::Notify(MediaPlayerEvent::DcutrBackoff)));
    assert_eq!(
        player.connection_quality().last_dcutr_result,
        Some(Err("timeout".to_string()))
    );
    assert!(player.poll_swarm(NetworkEvent::DcutrSucceeded).is_empty());
    assert_eq!(player.connection_quality().last_dcutr_result, Some(Ok(())));
    assert_eq!(player.connection_quality().connection_type, ConnectionType::QuicDirect);
    player.set_enable_dcutr(true);
    assert!(player.reconnect().unwrap().enable_dcutr);
    player.set_enable_dcutr(false);
    assert!(!player.reconnect().unwrap().enable_dcutr);
}

#[test]
fn identify_dials_the_camera_near_by_once() {
    let mut player = connected_player();
    let identify = |p: &str, observed: Multiaddr| NetworkEvent::Identified {
        peer: peer(p),
        observed,
        listen: vec![tcp_lan(), lan()],
    };
    let a = player.poll_swarm(identify(RELAY, quic(7, 7, 7, 7, 4242)));
    assert_eq!(a.len(), 1);
    let a = player.poll_swarm(identify(CAMERA, quic(7, 7, 7, 7, 4242)));
    assert_eq!(a.len(), 2);
    match &a[1] {
        PlayerAction::Dial(addr) => assert_eq!(addr.first_udp(), Some(4242)),
        other => panic!("{:?}", other),
    }
    assert_eq!(player.remote_nat_hint.as_deref(), Some("Cone"));
    let a = player.poll_swarm(identify(CAMERA, quic(7, 7, 7, 7, 1)));
    assert_eq!(a.len(), 1);
    match &a[0] {
        PlayerAction::Notify(MediaPlayerEvent::NatDiagnosis { local_nat, remote_nat }) => {
            assert_eq!(*local_nat, NatType::Symmetric);
            assert_eq!(remote_nat.as_deref(), Some("Cone"));
        }
        other => panic!("{:?}", other),
    }
    assert_eq!(player.remote_nat_hint.as_deref(), Some("Symmetric?"));
    assert!(player.symmetric_detected);
    assert_eq!(player.nat_diagnosis().unwrap().nat_type, NatType::Symmetric);
}

#[test]
fn listening_fills_in_the_local_side() {
    let options =
        ConnectOptions { udp_port: 0, network_type: "4g".to_string(), no_audio: true };
    let mut player = MediaPlayer::new_with_options(options);
    assert!(player.nat_diagnosis().is_none());
    assert!(player.poll_swarm(NetworkEvent::NewListenAddr(quic(127, 0, 0, 1, 5))).is_empty());
    let a = player.poll_swarm(NetworkEvent::NewListenAddr(quic(10, 0, 0, 7, 5000)));
    assert!(matches!(a[0], PlayerAction::AddExternalAddress(_)));
    assert_eq!(player.local_quic_port(), 5000);
    assert_eq!(player.local_ips(), &[Ipv4 { a: 10, b: 0, c: 0, d: 7 }]);
    player.poll_swarm(NetworkEvent::NewListenAddr(quic(10, 0, 0, 7, 6000)));
    assert_eq!(player.local_ips().len(), 1);
    player.poll_swarm(NetworkEvent::Identified {
        peer: peer(RELAY),
        observed: quic(7, 7, 7, 7, 6000),
        listen: vec![],
    });
    let d = player.nat_diagnosis().unwrap();
    assert_eq!(d.nat_type, NatType::FullCone);
    assert!(d.is_4g);
    player.set_force_4g(false);
    assert!(!player.nat_diagnosis().unwrap().is_4g);
}

#[test]
fn quic_addresses_near_by_are_kept() {
    let mut player = MediaPlayer::new();
    let found = |a: Multiaddr| NetworkEvent::MdnsDiscovered(vec![(peer(CAMERA), a)]);
    player.poll_swarm(found(circuit()));
    assert!(player.mdns_cache.get(&peer(CAMERA)).is_none());
    player.poll_swarm(found(tcp_lan()));
    assert!(player.mdns_cache.get(&peer(CAMERA)).unwrap().has_tcp());
    player.poll_swarm(found(lan()));
    player.poll_swarm(found(tcp_lan()));
    assert!(player.mdns_cache.get(&peer(CAMERA)).unwrap().has_quic());
    player.poll_swarm(NetworkEvent::MdnsExpired);
    let attempt = begin(&mut player, CAMERA, true);
    assert_eq!(attempt.lan_addr.as_ref().unwrap().first_udp(), Some(4242));
    assert!(begin(&mut player, CAMERA, false).lan_addr.is_none());
}

#[test]
fn reconnect_asks_for_the_same_again() {
    let mut player = connected_player();
    player.poll_swarm(NetworkEvent::Identified {
        peer: peer(RELAY),
        observed: lan(),
        listen: vec![],
    });
    let plan = player.reconnect().unwrap();
    assert!(plan.enable_dcutr);
    assert_eq!(plan.params.device_cam_peer_id, CAMERA);
    assert_eq!(plan.params.relay_addrs, vec![relay_text()]);
    assert_eq!(plan.options.network_type, "wifi");
    assert_eq!(plan.listen.len(), 2);
    assert!(player.nat_diagnosis().is_none());
    assert_eq!(player.shutdown().unwrap().bytes, peer(CAMERA).bytes);
    assert!(!player.connected);
    let listen = viewer_listen_addresses(7000);
    assert_eq!(listen[0].first_udp(), Some(7000));
    assert!(listen[1].has_tcp());
}

#[test]
fn streams_by_name_and_connection() {
    assert_eq!(get_video_protocol("sub"), VIDEO_SUB_PROTOCOL);
    assert_eq!(get_video_protocol("third"), VIDEO_THIRD_PROTOCOL);
    assert_eq!(get_video_protocol("main"), VIDEO_MAIN_PROTOCOL);
    assert_eq!(get_video_protocol("whatever"), VIDEO_MAIN_PROTOCOL);
    assert_eq!(stream_name(VIDEO_MAIN_PROTOCOL), "main");
    assert_eq!(stream_name(VIDEO_SUB_PROTOCOL), "sub");
    assert_eq!(stream_name(VIDEO_THIRD_PROTOCOL), "third");
    let mut r = StreamTypeResolver::new("auto");
    assert_eq!(r.resolve(), VIDEO_SUB_PROTOCOL);
    r.update_connection_type(ConnectionType::RelayCircuit);
    assert_eq!(r.resolve(), VIDEO_SUB_PROTOCOL);
    r.update_connection_type(ConnectionType::QuicDirect);
    assert_eq!(r.resolve(), VIDEO_MAIN_PROTOCOL);
    assert!(r.should_upgrade_stream(ConnectionType::RelayCircuit));
    assert!(!r.should_upgrade_stream(ConnectionType::LanDirect));
    assert_eq!(r.upgrade_protocol(), VIDEO_MAIN_PROTOCOL);
    let mut named = StreamTypeResolver::new("third");
    named.update_connection_type(ConnectionType::LanDirect);
    assert_eq!(named.resolve(), VIDEO_THIRD_PROTOCOL);
    assert!(!named.should_upgrade_stream(ConnectionType::RelayCircuit));
}

#[test]
fn keyframes_are_found_in_bytes() {
    assert!(is_nal_keyframe(&[0, 0, 0, 1, 0x26, 1]));
    assert!(is_nal_keyframe(&[0, 0, 0, 1, 0x65]));
    assert!(is_nal_keyframe(&[0, 0, 1, 0x65, 0]));
    assert!(is_nal_keyframe(&[0, 0, 1, 0x65]));
    assert!(is_nal_keyframe(&[0, 0, 1, 0x26]));
    assert!(is_nal_keyframe(&[0, 0, 1, 0x02, 1, 0, 0, 1, 0x26]));
    assert!(!is_nal_keyframe(&[0, 0, 1, 0x02]));
    assert!(is_nal_keyframe(&[0, 0, 1, 0, 0, 1, 0x26]));
    assert!(is_nal_keyframe(&[0, 0, 0, 1, 0, 0, 0, 1, 0x26, 1]));
    assert!(!is_nal_keyframe(&[0, 0, 0, 1]));
    assert!(!is_nal_keyframe(&[0, 0, 1]));
    assert!(!is_nal_keyframe(&[0, 0, 0, 1, 0x02, 1]));
    assert!(is_nal_keyframe(&[0, 0, 0, 1, 0x40, 1, 0, 0, 0, 1, 0x26, 1, 9]));
    assert!(!is_nal_keyframe(&[]));
    assert!(!is_nal_keyframe(&[0x26, 0x65, 0x26, 0x65, 0x26]));
    for t in 0u8..64 {
        let h265 = t << 1;
        let expected = (16..=21).contains(&t) || (h265 & 0x1f) == 5;
        assert_eq!(is_nal_keyframe(&[0, 0, 1, h265, 1]), expected);
    }
}

#[test]
fn receiver_starts_with_a_keyframe() {
    let mut r = FrameReceiver::new();
    let p = MediaPacket::video(1, Bytes::from_static(&[0, 0, 0, 1, 0x02, 1]));
    let key = MediaPacket::video(2, Bytes::from_static(&[0, 0, 0, 1, 0x26, 1]));
    let audio = MediaPacket::audio_pcm(3, Bytes::from_static(&[1, 2]));
    assert!(matches!(r.next(0), ReceiveStep::NeedData));
    let bytes: Vec<u8> =
        [p.encode(), audio.encode(), key.encode(), p.encode()].iter().flat_map(|b| b.to_vec()).collect();
    r.feed(&bytes[..5]);
    assert!(matches!(r.next(0), ReceiveStep::NeedData));
    r.feed(&bytes[5..]);
    assert_eq!(r.pending_len(), bytes.len());
    assert!(matches!(r.next(10), ReceiveStep::Dropped));
    match r.next(10) {
        ReceiveStep::Forward(q) => assert_eq!((q.track, q.flags), (MediaTrack::Audio, 0)),
        other => panic!("{:?}", other),
    }
    match r.next(10) {
        ReceiveStep::Forward(q) => {
            assert_eq!(q.timestamp_ms, 2);
            assert!(q.is_keyframe());
        }
        other => panic!("{:?}", other),
    }
    match r.next(10) {
        ReceiveStep::Forward(q) => assert!(!q.is_keyframe()),
        other => panic!("{:?}", other),
    }
    assert!(matches!(r.next(10), ReceiveStep::NeedData));
    assert_eq!(r.pending_len(), 0);
}

#[test]
fn receiver_gives_up_waiting_for_a_keyframe() {
    let mut r = FrameReceiver::new();
    let p = MediaPacket::video(1, Bytes::from_static(&[0, 0, 0, 1, 0x02, 1]));
    for _ in 0..3 {
        r.feed(&p.encode());
    }
    assert!(matches!(r.next(100), ReceiveStep::Dropped));
    assert!(matches!(r.next(99 + IDR_WAIT_TIMEOUT_NS), ReceiveStep::Dropped));
    assert!(matches!(r.next(100 + IDR_WAIT_TIMEOUT_NS), ReceiveStep::Forward(_)));
}

#[test]
fn receiver_judges_keyframes_itself() {
    let mut r = FrameReceiver::new();
    let mut lie = MediaPacket::video(1, Bytes::from_static(&[0, 0, 0, 1, 0x02, 1]));
    lie.flags = FLAG_VIDEO_KEYFRAME;
    r.feed(&lie.encode());
    assert!(matches!(r.next(0), ReceiveStep::Dropped));
}

#[test]
fn stale_frames_are_drained() {
    let frame = |ts: u64, key: bool| {
        let mut p = MediaPacket::video(ts, Bytes::from_static(&[1]));
        if key {
            p.flags |= FLAG_VIDEO_KEYFRAME;
        }
        p
    };
    let kept = drain_to_latest_keyframe(vec![
        frame(1, true),
        frame(2, false),
        frame(3, true),
        frame(4, false),
    ]);
    let times: Vec<u64> = kept.iter().map(|p| p.timestamp_ms).collect();
    assert_eq!(times, vec![3, 4]);
    assert!(drain_to_latest_keyframe(vec![frame(1, false)]).is_empty());
    assert!(drain_to_latest_keyframe(vec![]).is_empty());
}
