use p2p_camera::device_cam::config::{
    validate_device_cam_config, CliOverrides, Config, ReportLevel, StreamConfig, StreamType,
};
use p2p_camera::device_cam::node::{
    camera_listen_addresses, describe_connection, ActiveStreams, CameraNetwork, PunchFailures,
    SentStream,
};
use p2p_camera::device_cam::relay_link::{BadRelay, RelayAddrError, RelayLinks};
use p2p_camera::device_cam::rk_video_source::{
    has_no_nul, on_audio_frame, on_frame, source_stops, stream_config_to_params, RkAudioSource,
    RkVideoSource, StreamParams, STOP_CHECK_MS,
};
use p2p_camera::device_cam::uds_server::{command_reply, dispatch, error_reply, UdsAction, UdsCommand};
use p2p_camera::device_cam::video_sender::{
    audio_continues, idr_channel, SendAction, SendEvent, VideoSender, WriteSpeed,
};
use p2p_camera::net::addr::{Ipv4, Multiaddr, PeerId, Protocol};
use p2p_camera::net::nat_diag::NatType;
use p2p_camera::proto::media_packet::MediaTrack;

const RELAY: &str = "12D3KooWL3XJ9EMCyZvmmGXL2LMiVBtrVa2BuESsJiXkSj7333Jw";

fn quic(a: u8, b: u8, c: u8, d: u8, port: u16) -> Multiaddr {
    Multiaddr {
        parts: vec![Protocol::Ip4(Ipv4 { a, b, c, d }), Protocol::Udp(port), Protocol::QuicV1],
    }
}

fn links() -> RelayLinks {
    RelayLinks::new(&vec![format!("/ip4/9.9.9.9/tcp/4001/p2p/{}", RELAY)]).unwrap()
}

#[test]
fn camera_defaults() {
    let c = Config::default();
    assert!(c.relays.is_empty() && c.relay.is_empty());
    assert!(c.enable_mdns && c.enable_dcutr);
    assert_eq!((c.mode.as_str(), c.key_file.as_str()), ("listen", "device-cam.key"));
    assert_eq!((c.video.main.width, c.video.main.bitrate_kbps), (2304, 2048));
    assert_eq!((c.video.sub.height, c.video.sub.dst_frame_rate_num), (576, 30));
    assert_eq!((c.video.third.width, c.video.third.bitrate_kbps), (960, 1024));
    assert_eq!((c.audio.sample_rate, c.audio.encode_type.as_str()), (16000, "PCM"));
    assert_eq!((c.lcd.width, c.lcd.height, c.sensor_frame_rate), (800, 480, 30));
    assert_eq!(c.rknn.model_path, "/oem/yolov5.rknn");
    let s = StreamConfig::default();
    assert_eq!((s.width, s.height, s.bitrate_kbps, s.gop), (800, 600, 0, 50));
}

#[test]
fn camera_command_line_comes_first() {
    let mut c = Config::default();
    c.relays = vec!["old".to_string()];
    c.apply_cli_overrides(&CliOverrides::default());
    assert_eq!(c.relays, vec!["old"]);
    let cli = CliOverrides {
        relays: vec!["a".to_string(), "b".to_string()],
        enable_mdns: Some(false),
        mode: Some("m".to_string()),
        key_file: Some("k".to_string()),
        enable_audio: true,
        udp_port: Some(7),
        video_file: Some("v".to_string()),
        rknn_model: Some("r".to_string()),
    };
    c.apply_cli_overrides(&cli);
    assert_eq!(c.relays, vec!["a", "b"]);
    assert!(!c.enable_mdns && c.audio.enabled && c.rknn.enabled);
    assert_eq!((c.mode.as_str(), c.key_file.as_str()), ("m", "k"));
    assert_eq!((c.udp_port, c.video_file.as_deref()), (Some(7), Some("v")));
    assert_eq!(c.rknn.model_path, "r");
}

#[test]
fn single_relay_of_old_settings() {
    let mut c = Config::default();
    c.relay = "one".to_string();
    c.resolve_relays();
    assert_eq!(c.relays, vec!["one"]);
    c.resolve_relays();
    assert_eq!(c.relays, vec!["one"]);
    let mut d = Config::default();
    d.relay = "one".to_string();
    d.relays = vec!["two".to_string()];
    d.resolve_relays();
    assert_eq!(d.relays, vec!["two"]);
    assert!(d.is_reachable());
    let mut e = Config::default();
    e.resolve_relays();
    assert!(e.relays.is_empty() && e.is_reachable());
    e.enable_mdns = false;
    assert!(!e.is_reachable());
}

#[test]
fn streams_that_are_switched_on() {
    let mut c = Config::default();
    c.video.sub.enabled = false;
    let names: Vec<&str> = c.enabled_streams().iter().map(|(t, _)| t.name()).collect();
    assert_eq!(names, vec!["main", "third"]);
    assert_eq!(c.enabled_streams()[1].1.width, 960);
    assert_eq!(StreamType::from_chn_id(1), Some(StreamType::Sub));
    assert_eq!(StreamType::from_chn_id(3), None);
}

#[test]
fn report_on_the_settings() {
    let mut c = Config::default();
    c.relays = vec!["/ip4/1.1.1.1/tcp/1".to_string(), "/udp/1/quic-v1".to_string()];
    c.udp_port = Some(0);
    let lines = validate_device_cam_config(&c);
    let text: Vec<&str> = lines.iter().map(|l| l.text.as_str()).collect();
    assert_eq!(
        text,
        vec![
            "WARNING: Relay #1 using TCP - DCUtR will only produce TCP candidates",
            "Relay #2 protocol: QUIC - good for DCUtR hole punching",
            "WARNING: Using random UDP port - cannot configure port forwarding for DCUtR",
            "mDNS enabled - LAN discovery active",
            "Stream config:",
            "  Main:  ON (2304x1296 @25/1fps 2048kbps H265)",
            "  Sub:   ON (704x576 @30/1fps 512kbps H265)",
            "  Third: ON (960x540 @25/1fps 1024kbps H265)",
            "Audio: OFF (16000Hz, 1ch, 1024samples/frame, card=hw:0,0, fmt=S16, encode=PCM, bitrate=16000, vqe=false)",
        ]
    );
    assert_eq!(lines[0].level, ReportLevel::Warning);
    assert_eq!(lines[1].level, ReportLevel::Info);
    let mut one = Config::default();
    one.relays = vec!["/tcp/1/quic-v1".to_string()];
    one.enable_mdns = false;
    let lines = validate_device_cam_config(&one);
    assert_eq!(lines[0].text, "Relay protocol: QUIC - good for DCUtR hole punching");
    assert_eq!(lines[1].text, "mDNS disabled");
}

#[test]
fn relay_links_need_addresses_with_peers() {
    let links = links();
    assert_eq!(links.states.len(), 1);
    assert_eq!(links.states[0].peer_id.bytes.len(), 38);
    let bad = |t: &str| RelayLinks::new(&vec![format!("/p2p/{}", RELAY), t.to_string()]).unwrap_err();
    assert_eq!(bad("x"), BadRelay { index: 1, error: RelayAddrError::Invalid });
    assert_eq!(bad("/ip4/1.1.1.1/tcp/1"), BadRelay { index: 1, error: RelayAddrError::NoPeer });
}

#[test]
fn waits_between_tries_grow() {
    let mut l = links();
    let relay = l.states[0].peer_id.clone();
    let waits: Vec<u64> = (0..8).map(|_| l.dial_failed(&relay).unwrap().1).collect();
    assert_eq!(waits, vec![3, 6, 12, 24, 48, 60, 60, 60]);
    assert_eq!(l.states[0].reconnect_timer, Some(60));
    assert_eq!(l.states[0].reconnect_delay(), 60);
}

#[test]
fn relay_is_reserved_and_tried_again() {
    let mut l = links();
    let relay = l.states[0].peer_id.clone();
    let other = PeerId { bytes: vec![1] };
    assert!(l.is_relay(&relay) && !l.is_relay(&other));
    let (i, addr) = l.connected(&relay).unwrap();
    assert_eq!(i, 0);
    assert!(addr.has_circuit() && addr.has_peer(&relay));
    l.reservation_requested(i, 77);
    assert!(l.connected(&relay).is_none());
    assert_eq!(l.reserved_count(), 0);
    l.reservation_accepted(&relay);
    assert_eq!(l.reserved_count(), 1);
    assert_eq!(l.listener_peer(77).unwrap().bytes, relay.bytes);
    assert!(l.listener_peer(78).is_none());
    assert!(l.listener_closed(78, true).is_none());
    assert!(l.listener_closed(77, true).is_some());
    assert_eq!(l.reserved_count(), 0);
    l.reservation_requested(0, 80);
    assert!(l.listener_closed(80, false).is_none());
    assert!(l.disconnected(&relay, 1).is_none());
    assert!(l.disconnected(&other, 0).is_none());
    assert_eq!(l.disconnected(&relay, 0), Some((0, 3)));
    assert!(l.timer_elapsed(0).unwrap().has_peer(&relay));
    assert!(l.timer_elapsed(0).is_none());
    assert_eq!(l.dialled(0, false), Some(6));
    assert!(l.timer_elapsed(0).is_some());
    assert_eq!(l.dialled(0, true), None);
    assert!(l.states[0].dial_pending);
    assert_eq!(l.dial_failed(&relay), Some((0, 12)));
    assert!(l.dial_failed(&other).is_none());
    assert!(l.connected(&relay).is_some());
    assert_eq!((l.states[0].reconnect_attempt, l.states[0].reconnect_timer), (0, None));
}

#[test]
fn camera_learns_of_its_network() {
    let mut n = CameraNetwork::new();
    n.identified(&quic(7, 7, 7, 7, 5000));
    assert!(n.local_nat_type.is_none());
    assert!(!n.new_listen_addr(&quic(127, 0, 0, 1, 5000)));
    assert!(n.nat_diagnostic.is_none());
    assert!(n.new_listen_addr(&quic(10, 0, 0, 2, 5000)));
    assert!(n.new_listen_addr(&quic(10, 0, 0, 2, 6000)));
    assert_eq!((n.local_ips.len(), n.local_quic_port), (1, 6000));
    n.identified(&quic(7, 7, 7, 7, 5000));
    assert_eq!(n.local_nat_type, Some(NatType::FullCone));
    let near = n.same_network(&vec![quic(10, 0, 0, 9, 1), quic(10, 0, 1, 9, 1)]);
    assert_eq!(near.len(), 1);
}

#[test]
fn connections_are_described() {
    let mut relayed = quic(1, 1, 1, 1, 1);
    relayed.parts.push(Protocol::P2pCircuit);
    assert_eq!(describe_connection(&relayed), "Relay Circuit (转发)");
    assert_eq!(describe_connection(&quic(10, 1, 1, 1, 1)), "LAN Direct (局域网直连)");
    assert_eq!(describe_connection(&quic(8, 1, 1, 1, 1)), "DCUtR Hole Punch (打洞直连)");
    assert_eq!(describe_connection(&Multiaddr::empty()), "Other");
    assert_eq!(camera_listen_addresses(None)[0].first_udp(), Some(0));
    assert_eq!(camera_listen_addresses(Some(9))[0].first_udp(), Some(9));
}

#[test]
fn one_task_sends_a_stream_to_a_viewer() {
    let a = PeerId { bytes: vec![1] };
    let b = PeerId { bytes: vec![2] };
    let mut s = ActiveStreams::new();
    assert_eq!(s.replace(&a, SentStream::Main, 1), None);
    assert_eq!(s.replace(&a, SentStream::Sub, 2), None);
    assert_eq!(s.replace(&b, SentStream::Main, 3), None);
    assert_eq!(s.replace(&a, SentStream::Main, 4), Some(1));
    assert_eq!(s.replace(&a, SentStream::Main, 5), Some(4));
    assert_eq!(s.replace(&b, SentStream::Main, 6), Some(3));
    assert_eq!(s.replace(&a, SentStream::Audio, 7), None);
}

#[test]
fn slow_viewers_are_kept() {
    let mut v = VideoSender::new("third");
    assert_eq!(v.chn, 2);
    let written = |len, write_ms| SendEvent::Written { len, write_ms };
    let speed = |a: SendAction| match a {
        SendAction::Continue { speed, .. } => speed,
        other => panic!("{:?}", other),
    };
    assert_eq!(speed(v.step(written(10, 100))), WriteSpeed::Normal);
    assert_eq!(speed(v.step(written(10, 101))), WriteSpeed::Slow);
    assert_eq!(speed(v.step(written(10, 500))), WriteSpeed::Slow);
    assert_eq!(speed(v.step(written(10, 501))), WriteSpeed::Stalled);
    assert_eq!(v.step(SendEvent::WriteTimedOut), SendAction::DropFrame);
    assert_eq!(v.step(SendEvent::Lagged(5)), SendAction::RequestIdr { chn: 2 });
    assert!(!v.stopped);
    for _ in 4..99 {
        assert!(matches!(v.step(written(1, 0)), SendAction::Continue { report: false, .. }));
    }
    assert!(matches!(v.step(written(1, 0)), SendAction::Continue { report: true, .. }));
    assert_eq!((v.frame_count, v.bytes_sent), (100, 136));
    assert_eq!((v.lagged_count, v.dropped_count), (5, 1));
    assert_eq!(v.step(SendEvent::WriteFailed), SendAction::Stop);
    assert!(v.stopped);
    assert_eq!(VideoSender::new("main").step(SendEvent::SourceClosed), SendAction::Stop);
    assert_eq!((idr_channel("main(legacy)"), idr_channel("sub"), idr_channel("x")), (0, 1, 0));
    assert!(audio_continues(SendEvent::Lagged(3)));
    assert!(!audio_continues(SendEvent::WriteFailed));
}

#[test]
fn local_commands() {
    let cmd = |c: &str, fps: Option<u32>| UdsCommand { cmd: c.to_string(), fps };
    assert!(matches!(dispatch(&cmd("snapshot", None), true), UdsAction::TakeSnapshot));
    assert!(matches!(
        dispatch(&cmd("compose", None), true),
        UdsAction::ComposeVideo { fps: 5 }
    ));
    assert!(matches!(
        dispatch(&cmd("compose", Some(9)), true),
        UdsAction::ComposeVideo { fps: 9 }
    ));
    let text = |a: UdsAction| match a {
        UdsAction::Reply(t) => t,
        other => panic!("{:?}", other),
    };
    assert_eq!(
        text(dispatch(&cmd("snapshot", None), false)),
        "{\"ok\":false,\"error\":\"not available on this platform\"}\n"
    );
    assert_eq!(
        text(dispatch(&cmd("x", None), true)),
        "{\"ok\":false,\"error\":\"unknown cmd: x\"}\n"
    );
    assert_eq!(command_reply(Ok("f".to_string())), "{\"ok\":true,\"file\":\"f\"}\n");
    assert_eq!(command_reply(Err("e".to_string())), error_reply("e"));
}

#[test]
fn camera_start_plan() {
    let mut main = StreamParams::default();
    main.dst_fps_num = 50;
    main.dst_fps_den = 2;
    main.gop = 4294967295;
    let sub = stream_config_to_params(&Config::default().video.sub);
    let source = RkVideoSource::new(main, Some(sub), None, 0);
    assert_eq!(source.sensor_frame_rate, 30);
    let plan = source.spawn();
    assert_eq!(plan.channels.len(), 2);
    assert_eq!((plan.channels[0].chn_id, plan.channels[0].gop), (0, -1));
    assert_eq!((plan.channels[1].chn_id, plan.channels[1].width), (1, 704));
    assert_eq!(plan.channels[1].codec, "H265");
    assert_eq!((plan.init.width, plan.init.height, plan.init.fps), (2304, 1296, 25));
    assert_eq!((plan.init.bitrate_kbps, plan.init.sensor_fps), (2048, 30));
    assert!(has_no_nul("abc") && !has_no_nul("a\0c"));
}

#[test]
fn audio_start_plan() {
    let s = RkAudioSource::new(
        8000,
        "hw:0,0".to_string(),
        1,
        1024,
        50,
        "S16".to_string(),
        "G711U".to_string(),
        16000,
        true,
        "cfg".to_string(),
    );
    let init = s.spawn();
    assert_eq!((init.flags, init.sample_rate, init.enable_vqe), (3, 8000, 1));
    assert_eq!((init.card_name.as_str(), init.format.as_str()), ("hw:0,0", "S16"));
    assert_eq!(RkAudioSource::audio_flags("G711A"), 2);
    assert_eq!(RkAudioSource::audio_flags("MP2"), 0);
}

#[test]
fn packets_from_hardware_frames() {
    let (chn, p) = on_frame(2, &[1, 2, 3], 5999, None).unwrap();
    assert_eq!((chn, p.timestamp_ms, p.flags), (2, 5, 0));
    assert_eq!(p.data.as_ref(), &[1, 2, 3]);
    assert_eq!(on_frame(0, &[], 5999, Some(8)).unwrap().1.timestamp_ms, 8);
    assert!(on_frame(3, &[1], 0, None).is_none());
    assert!(on_frame(-1, &[1], 0, None).is_none());
    let a = on_audio_frame(&[4], Some(9), 2);
    assert_eq!((a.track, a.timestamp_ms, a.flags), (MediaTrack::Audio, 9, 2));
    assert_eq!(on_audio_frame(&[4], None, 0).timestamp_ms, 0);
}

#[test]
fn first_link_whose_wait_is_over_is_due() {
    let text = format!("/ip4/9.9.9.9/tcp/4001/p2p/{}", RELAY);
    let mut l = RelayLinks::new(&vec![text.clone(), text.clone(), text]).unwrap();
    assert_eq!(l.next_due(&vec![true, true, true]), None);
    l.states[1].reconnect_timer = Some(3);
    l.states[2].reconnect_timer = Some(3);
    assert_eq!(l.next_due(&vec![true, true, true]), Some(1));
    assert_eq!(l.next_due(&vec![true, false, true]), Some(2));
    assert_eq!(l.next_due(&vec![true, false, false]), None);
    assert_eq!(l.next_due(&vec![]), None);
}

#[test]
fn source_stops_without_channels() {
    assert!(source_stops(&vec![false, false, false]));
    assert!(!source_stops(&vec![false, true, false]));
    assert!(source_stops(&vec![]));
    assert_eq!(STOP_CHECK_MS, 1000);
}

#[test]
fn failed_punches_are_counted_for_each_viewer() {
    let (a, b) = (PeerId { bytes: vec![1] }, PeerId { bytes: vec![2] });
    let mut f = PunchFailures::new();
    assert_eq!(f.failed(&a, true), None);
    assert_eq!(f.failed(&b, true), None);
    assert_eq!(
        f.failed(&a, true).unwrap(),
        "DCUtR 对该 viewer 已失败 2 次，打洞对本端无效。建议在该 device-cam.toml 设置 \
         enable_dcutr = false 仅走中继，可消除打洞握手对视频流的干扰与卡顿。"
    );
    assert_eq!(f.failed(&a, false), None);
    assert!(f.failed(&a, true).unwrap().contains(" 4 "));
    assert_eq!((f.count(&a), f.count(&b), f.count(&PeerId { bytes: vec![3] })), (4, 1, 0));
}
