use bytes::Bytes;
use p2p_camera::mobile_core::jni_bridge::{
    audio_frame_bytes, command_error_text, command_failure, command_from_document, handle_to_idx,
    parse_connect_command, video_frame_bytes, CommandError, CommandFailure, ConnectDocument,
    HandleTable, Phase, ViewerEvent, ViewerWorker, WorkerAction, WorkerInput,
};
use p2p_camera::mobile_core::viewer::MediaPlayerEvent;
use p2p_camera::proto::media_packet::{MediaPacket, FLAG_VIDEO_KEYFRAME};

fn running(no_audio: bool) -> ViewerWorker {
    let mut w = ViewerWorker::new();
    w.step(WorkerInput::Connect { device_id: "cam".to_string(), no_audio });
    w.step(WorkerInput::Created(Ok(())));
    w.step(WorkerInput::ConnectDone(Ok(())));
    assert_eq!(w.phase, Phase::Running);
    w
}

fn message(a: &WorkerAction) -> String {
    match a {
        WorkerAction::Emit(ViewerEvent::Error { message }) => message.clone(),
        other => panic!("{:?}", other),
    }
}

#[test]
fn handles_are_reused() {
    let mut t: HandleTable<&'static str> = HandleTable::new();
    assert_eq!(t.alloc_handle("a"), 1);
    assert_eq!(t.alloc_handle("b"), 2);
    assert_eq!(t.alloc_handle("c"), 3);
    assert_eq!(t.get(2), Some(&"b"));
    assert_eq!(t.take_handle(2), Some("b"));
    assert_eq!(t.take_handle(2), None);
    assert_eq!(t.get(2), None);
    assert_eq!(t.get(3), Some(&"c"));
    assert_eq!(t.alloc_handle("d"), 2);
    assert_eq!(t.take_handle(0), None);
    assert_eq!(t.get(0), None);
    assert_eq!(t.get(9), None);
}

#[test]
fn handles_from_the_application() {
    assert_eq!(handle_to_idx(0), None);
    assert_eq!(handle_to_idx(1), Some(0));
    assert_eq!(handle_to_idx(7), Some(6));
    assert_eq!(handle_to_idx(-1), Some(usize::MAX - 1));
}

#[test]
fn worker_connects_and_plays() {
    let mut w = ViewerWorker::new();
    assert!(matches!(w.step(WorkerInput::Control)[..], [WorkerAction::ReplyNotConnected]));
    let a = w.step(WorkerInput::Connect { device_id: "cam".to_string(), no_audio: true });
    assert!(matches!(a[..], [WorkerAction::CreateViewer]));
    let a = w.step(WorkerInput::Created(Ok(())));
    assert!(matches!(
        a[..],
        [WorkerAction::Emit(ViewerEvent::Connecting), WorkerAction::Connect]
    ));
    let a = w.step(WorkerInput::ConnectDone(Ok(())));
    match &a[..] {
        [WorkerAction::Emit(ViewerEvent::Connected { peer_id, connection_type }), WorkerAction::Emit(ViewerEvent::StreamReady), WorkerAction::CloseAudio] =>
        {
            assert_eq!((peer_id.as_str(), connection_type.as_str()), ("cam", "relay"));
        }
        other => panic!("{:?}", other),
    }
    assert!(matches!(w.step(WorkerInput::Control)[..], [WorkerAction::ForwardControl]));
    let again = w.step(WorkerInput::Connect { device_id: "x".to_string(), no_audio: false });
    assert!(again.is_empty());
    assert_eq!(w.device_id, "cam");
    assert!(w.step(WorkerInput::Shutdown).is_empty());
    assert_eq!(w.phase, Phase::Stopped);
    assert!(w.step(WorkerInput::Control).is_empty());
}

#[test]
fn worker_connects_again_after_a_loss() {
    let mut w = running(false);
    let lost = MediaPlayerEvent::StreamEOF { reason: "x".to_string() };
    let a = w.step(WorkerInput::Player(lost));
    assert!(matches!(
        a[..],
        [
            WorkerAction::Emit(ViewerEvent::Disconnected),
            WorkerAction::Emit(ViewerEvent::Connecting),
            WorkerAction::Reconnect
        ]
    ));
    assert_eq!(w.step(WorkerInput::ConnectDone(Ok(()))).len(), 2);
    assert_eq!(w.phase, Phase::Running);
    w.step(WorkerInput::Player(MediaPlayerEvent::Disconnected { reason: "y".to_string() }));
    let a = w.step(WorkerInput::ConnectDone(Err("no".to_string())));
    assert_eq!(message(&a[0]), "reconnect failed: no");
    assert_eq!(w.phase, Phase::Stopped);
}

#[test]
fn worker_reports_what_failed() {
    let mut w = ViewerWorker::new();
    let a = w.step(WorkerInput::RuntimeFailed { error: "e".to_string() });
    assert_eq!(message(&a[0]), "tokio runtime: e");
    let mut w = ViewerWorker::new();
    w.step(WorkerInput::Connect { device_id: "cam".to_string(), no_audio: false });
    let a = w.step(WorkerInput::Created(Err("e".to_string())));
    assert_eq!(message(&a[0]), "create viewer: e");
    let mut w = ViewerWorker::new();
    w.step(WorkerInput::Connect { device_id: "cam".to_string(), no_audio: false });
    w.step(WorkerInput::Created(Ok(())));
    let a = w.step(WorkerInput::ConnectDone(Err("e".to_string())));
    assert_eq!(message(&a[0]), "connect failed: e");
    let mut w = ViewerWorker::new();
    assert!(w.step(WorkerInput::CommandsClosed).is_empty());
    assert_eq!(w.phase, Phase::Stopped);
}

#[test]
fn worker_passes_on_events_of_the_viewer() {
    let mut w = running(false);
    for (via_lan, text) in [(true, "LAN direct"), (false, "DCUtR")] {
        let a = w.step(WorkerInput::Player(MediaPlayerEvent::DirectUpgraded { via_lan }));
        match &a[..] {
            [WorkerAction::Emit(ViewerEvent::DirectUpgraded { connection_type })] => {
                assert_eq!(connection_type, text)
            }
            other => panic!("{:?}", other),
        }
    }
    let a = w.step(WorkerInput::Player(MediaPlayerEvent::DcutrBackoff));
    assert!(matches!(a[..], [WorkerAction::DisableDcutr]));
}

#[test]
fn connect_command_from_json() {
    let json = r#"{"relays":["/ip4/1.1.1.1/tcp/1",7,"/ip4/2.2.2.2/tcp/2"],"deviceId":"cam",
        "enable_mdns":true,"stream_type":"sub","no_audio":true,"network_type":"4g",
        "serial_map":{"sn1":"peer1","sn2":5}}"#;
    let c = parse_connect_command(json).unwrap();
    assert_eq!(c.relays, vec!["/ip4/1.1.1.1/tcp/1", "/ip4/2.2.2.2/tcp/2"]);
    assert_eq!(c.device_id, "cam");
    assert!(c.enable_mdns && c.no_audio);
    assert_eq!((c.stream_type.as_str(), c.network_type.as_str()), ("sub", "4g"));
    assert_eq!(c.serial_map.get("sn1"), Some("peer1"));
    assert_eq!(c.serial_map.get("sn2"), None);
}

#[test]
fn connect_command_has_defaults() {
    let c = parse_connect_command(r#"{"relays":["r"],"deviceId":"d","no_audio":"yes"}"#).unwrap();
    assert!(!c.enable_mdns && !c.no_audio);
    assert_eq!((c.stream_type.as_str(), c.network_type.as_str()), ("auto", "auto"));
    assert_eq!(c.serial_map.get("x"), None);
}

#[test]
fn incomplete_connect_commands_are_refused() {
    for json in [
        r#"{}"#,
        r#"[]"#,
        r#"{"relays":["r"]}"#,
        r#"{"relays":["r"],"deviceId":""}"#,
        r#"{"relays":[],"deviceId":"d"}"#,
        r#"{"relays":[1],"deviceId":"d"}"#,
        r#"{"relays":"r","deviceId":"d"}"#,
    ] {
        let e = parse_connect_command(json).unwrap_err();
        assert!(matches!(e, CommandError::Incomplete));
        assert_eq!(command_error_text(&e), "relays and deviceId are required");
    }
    let e = parse_connect_command("{").unwrap_err();
    let expected = serde_json::from_str::<serde_json::Value>("{").unwrap_err().to_string();
    assert_eq!(command_error_text(&e), format!("invalid json: {}", expected));
}

#[test]
fn connect_command_from_a_document() {
    let doc = ConnectDocument {
        relays: Some(vec![None, Some("r".to_string())]),
        device_id: Some("d".to_string()),
        enable_mdns: Some(false),
        stream_type: None,
        no_audio: Some(true),
        network_type: Some("wifi".to_string()),
        serial_map: Some(vec![
            ("a".to_string(), Some("1".to_string())),
            ("a".to_string(), Some("2".to_string())),
        ]),
    };
    let c = command_from_document(doc).unwrap();
    assert_eq!(c.relays, vec!["r"]);
    assert_eq!(c.serial_map.get("a"), Some("2"));
    assert_eq!(c.stream_type, "auto");
}

#[test]
fn frames_for_the_application() {
    let mut p = MediaPacket::video(0x0102, Bytes::from_static(&[9, 8]));
    p.flags = FLAG_VIDEO_KEYFRAME;
    let us = 0x0102u64 * 1000;
    let mut expected = (us as i64).to_be_bytes().to_vec();
    expected.push(4);
    expected.extend_from_slice(&[9, 8]);
    assert_eq!(video_frame_bytes(&p).unwrap(), expected);
    let a = MediaPacket::audio_pcm(u64::MAX / 1000, Bytes::from_static(&[7]));
    let mut expected = ((u64::MAX / 1000 * 1000) as i64).to_be_bytes().to_vec();
    expected.push(7);
    assert_eq!(audio_frame_bytes(&a).unwrap(), expected);
}

#[test]
fn control_commands_without_an_answer() {
    let text = |f: CommandFailure| command_failure(f).error.unwrap();
    assert_eq!(text(CommandFailure::InvalidHandle), "invalid handle");
    assert_eq!(text(CommandFailure::InvalidString), "invalid json string");
    assert_eq!(text(CommandFailure::NotSent), "failed to send control command");
    assert_eq!(text(CommandFailure::Timeout), "control command timeout");
    assert_eq!(text(CommandFailure::NotConnected), "not connected");
}
