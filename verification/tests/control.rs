use p2p_camera::device_cam::control_handler::{
    image_reply, is_downloadable, list_snapshots, reboot_reply, reset_reply, stream_name_to_id,
    validate_encoder_config, ControlHandler, ControlStep, DownloadAction, DownloadEvent,
    DownloadTask, NOT_AVAILABLE,
};
use p2p_camera::device_cam::params::{to_signed, to_unsigned, Param, ParamStore, ParamValue};
use p2p_camera::device_cam::rk_video_source::{
    encoder_params, get_encoder_config, set_encoder_config, system_params, IspControl, IspReadings,
};
use p2p_camera::mobile_core::control_client::SendControlError;
use p2p_camera::mobile_core::viewer::MediaPlayer;
use p2p_camera::proto::control::{
    encode_request, encode_response, frame_header, read_frame_len, try_decode_request,
    try_decode_response, ControlRequest, ControlResponse, EncoderConfig, FrameError,
    ImageAdjustment, ImageConfig, SystemConfigSet, MAX_FRAME_LEN,
};

fn good() -> EncoderConfig {
    EncoderConfig {
        output_data_type: "H.264".to_string(),
        width: 1280,
        height: 720,
        rc_mode: "VBR".to_string(),
        rc_quality: "medium".to_string(),
        gop: 60,
        gop_mode: "smartP".to_string(),
        max_rate: 1000,
        dst_frame_rate_num: 20,
        dst_frame_rate_den: 1,
        h264_profile: "main".to_string(),
        smart: "open".to_string(),
        rotation: 90,
    }
}

fn handler(hardware: bool) -> ControlHandler {
    ControlHandler { params: ParamStore::new(), hardware }
}

fn reply(step: ControlStep) -> ControlResponse {
    match step {
        ControlStep::Reply(r) => r,
        other => panic!("{:?}", other),
    }
}

fn error_of(step: ControlStep) -> String {
    let r = reply(step);
    assert!(!r.ok);
    r.error.unwrap()
}

#[test]
fn frames_are_framed_and_read_back() {
    let frame = encode_request(b"{}");
    assert_eq!(frame, vec![0, 0, 0, 2, b'{', b'}']);
    assert_eq!(encode_response(b""), vec![0, 0, 0, 0]);
    let mut more = frame.clone();
    more.push(7);
    let (payload, used) = try_decode_request(&more).unwrap();
    assert_eq!(payload, b"{}");
    assert_eq!(used, 6);
    for n in 0..frame.len() {
        assert!(try_decode_response(&frame[..n]).is_none());
    }
}

#[test]
fn frame_lengths_are_limited() {
    assert_eq!(read_frame_len(frame_header(5)), Ok(5));
    assert_eq!(read_frame_len(frame_header(MAX_FRAME_LEN)), Ok(1048576));
    assert_eq!(
        read_frame_len(frame_header(MAX_FRAME_LEN + 1)),
        Err(FrameError::TooLarge(1048577))
    );
    assert_eq!(read_frame_len([255; 4]), Err(FrameError::TooLarge(4294967295)));
}

#[test]
fn responses_of_ok_and_err() {
    let r = ControlResponse::ok();
    assert!(r.ok && r.error.is_none() && r.avi_files.is_none());
    let r = ControlResponse::err("x");
    assert!(!r.ok);
    assert_eq!(r.error.as_deref(), Some("x"));
}

#[test]
fn encoder_config_faults() {
    assert_eq!(validate_encoder_config(&good()), Ok(()));
    let fault = |f: &dyn Fn(&mut EncoderConfig)| {
        let mut c = good();
        f(&mut c);
        validate_encoder_config(&c).unwrap_err()
    };
    assert_eq!(fault(&|c| c.width = 319), "width 319 out of range 320-4096");
    assert_eq!(fault(&|c| c.width = 4097), "width 4097 out of range 320-4096");
    assert_eq!(fault(&|c| c.height = 2161), "height 2161 out of range 240-2160");
    assert_eq!(fault(&|c| c.max_rate = 0), "max_rate 0 out of range 1-16384");
    assert_eq!(fault(&|c| c.dst_frame_rate_num = 31), "dst_frame_rate_num 31 out of range 1-30");
    assert_eq!(fault(&|c| c.dst_frame_rate_den = 0), "dst_frame_rate_den must be positive");
    assert_eq!(fault(&|c| c.gop = 401), "gop 401 out of range 1-400");
    assert_eq!(
        fault(&|c| c.output_data_type = "H264".to_string()),
        "invalid output_data_type: H264"
    );
    assert_eq!(fault(&|c| c.rc_mode = "cbr".to_string()), "invalid rc_mode: cbr");
    assert_eq!(fault(&|c| c.rc_quality = "best".to_string()), "invalid rc_quality: best");
    assert_eq!(fault(&|c| c.gop_mode = "".to_string()), "invalid gop_mode: ");
    assert_eq!(fault(&|c| c.h264_profile = "x".to_string()), "invalid h264_profile: x");
    assert_eq!(fault(&|c| c.smart = "yes".to_string()), "invalid smart: yes");
    assert_eq!(fault(&|c| c.rotation = 45), "invalid rotation: 45");
    for q in ["lowest", "lower", "low", "medium", "high", "higher", "highest"] {
        let mut c = good();
        c.rc_quality = q.to_string();
        assert_eq!(validate_encoder_config(&c), Ok(()));
    }
}

#[test]
fn stream_names_have_channels() {
    assert_eq!(stream_name_to_id("main"), Some(0));
    assert_eq!(stream_name_to_id("sub"), Some(1));
    assert_eq!(stream_name_to_id("third"), Some(2));
    assert_eq!(stream_name_to_id("fourth"), None);
}

#[test]
fn encoder_set_then_get() {
    let mut h = handler(true);
    let set = ControlRequest::SetEncoderConfig { stream: "sub".to_string(), config: good() };
    assert!(reply(h.handle_request(set)).ok);
    assert_eq!(h.params.take_writes().len(), 13);
    let got = reply(h.handle_request(ControlRequest::GetEncoderConfig { stream: "sub".to_string() }));
    let c = got.encoder_config.unwrap();
    assert_eq!(c.output_data_type, "H.264");
    assert_eq!((c.width, c.height, c.gop, c.max_rate), (1280, 720, 60, 1000));
    assert_eq!((c.rc_mode.as_str(), c.rc_quality.as_str()), ("VBR", "medium"));
    assert_eq!((c.gop_mode.as_str(), c.smart.as_str()), ("smartP", "open"));
    assert_eq!((c.dst_frame_rate_num, c.dst_frame_rate_den, c.rotation), (20, 1, 90));
    assert_eq!(c.h264_profile, "main");

    let other =
        reply(h.handle_request(ControlRequest::GetEncoderConfig { stream: "main".to_string() }));
    let d = other.encoder_config.unwrap();
    assert_eq!((d.width, d.height, d.gop, d.max_rate), (2304, 1296, 50, 2048));
    assert_eq!(d.output_data_type, "H.265");
}

#[test]
fn bad_encoder_requests_change_nothing() {
    let mut h = handler(true);
    let mut c = good();
    c.width = 1;
    let e = h.handle_request(ControlRequest::SetEncoderConfig {
        stream: "main".to_string(),
        config: c,
    });
    assert_eq!(error_of(e), "width 1 out of range 320-4096");
    let e = h.handle_request(ControlRequest::SetEncoderConfig {
        stream: "x".to_string(),
        config: good(),
    });
    assert_eq!(error_of(e), "invalid stream name");
    let e = h.handle_request(ControlRequest::GetEncoderConfig { stream: "x".to_string() });
    assert_eq!(error_of(e), "invalid stream name");
    assert!(h.params.take_writes().is_empty());
    let mut store = ParamStore::new();
    assert_eq!(set_encoder_config(&mut store, 7, &good()), Err("invalid chn_id: 7".to_string()));
    assert!(get_encoder_config(&store, 3).is_none());
}

#[test]
fn without_hardware_only_files_are_served() {
    let mut h = handler(false);
    let e = h.handle_request(ControlRequest::GetSystemConfig);
    assert_eq!(error_of(e), NOT_AVAILABLE);
    let e = h.handle_request(ControlRequest::GetEncoderConfig { stream: "main".to_string() });
    assert_eq!(error_of(e), NOT_AVAILABLE);
    let e = h.handle_request(ControlRequest::SystemReboot);
    assert_eq!(error_of(e), NOT_AVAILABLE);
    assert!(matches!(h.handle_request(ControlRequest::ListSnapshots), ControlStep::ListFiles));
}

#[test]
fn system_set_then_get() {
    let mut h = handler(true);
    let set = ControlRequest::SetSystemConfig {
        config: SystemConfigSet {
            device_name: Some("Hall".to_string()),
            telecontrol_id: None,
        },
    };
    assert!(reply(h.handle_request(set)).ok);
    let c = reply(h.handle_request(ControlRequest::GetSystemConfig)).system_config.unwrap();
    assert_eq!(c.device_name, "Hall");
    assert_eq!(c.telecontrol_id, "0");
    assert_eq!(c.model, "RV1106");
    assert_eq!(c.serial_number, "unknown");
    assert_eq!(c.firmware_version, "1.0.0");
    assert_eq!(c.manufacturer, "Rockchip");
}

#[test]
fn image_set_changes_only_given_fields() {
    let mut h = handler(true);
    let config = ImageConfig {
        adjustment: Some(ImageAdjustment {
            contrast: None,
            brightness: Some(70),
            saturation: None,
            sharpness: None,
            hue: Some(-1),
        }),
        exposure: None,
        night_to_day: None,
        white_balance: None,
        enhancement: None,
        video_adjustment: None,
    };
    match h.handle_request(ControlRequest::SetImageConfig { cam_id: 2, config }) {
        ControlStep::ApplyImage { cam, writes } => {
            assert_eq!(cam, 2);
            assert_eq!(writes, vec![(IspControl::Brightness, 70), (IspControl::Hue, -1)]);
        }
        other => panic!("{:?}", other),
    }
    let keys: Vec<String> = h.params.take_writes().into_iter().map(|p| p.key).collect();
    assert_eq!(keys, vec!["isp.2.adjustment.brightness", "isp.2.adjustment.hue"]);
    assert!(matches!(
        h.handle_request(ControlRequest::GetImageConfig { cam_id: 1 }),
        ControlStep::ReadImage { cam: 1 }
    ));
    let isp = IspReadings { contrast: 1, brightness: 2, saturation: 3, sharpness: 4, hue: 5 };
    let a = image_reply(isp).image_config.unwrap().adjustment.unwrap();
    assert_eq!((a.contrast, a.hue), (Some(1), Some(5)));
}

#[test]
fn snapshots_are_listed_in_order() {
    let names: Vec<String> = ["b.avi", "a.mov", ".avi", "c.jpg", "B.avi", "a.mov.txt", "..mov"]
        .iter()
        .map(|s| s.to_string())
        .collect();
    let r = list_snapshots(&names);
    assert!(r.ok);
    assert_eq!(r.avi_files.unwrap(), vec!["..mov", "B.avi", "a.mov", "b.avi"]);
    assert_eq!(list_snapshots(&vec![]).avi_files.unwrap().len(), 0);
}

#[test]
fn only_plain_video_names_are_downloaded() {
    assert!(is_downloadable("a.avi"));
    assert!(is_downloadable("a.mov"));
    assert!(!is_downloadable("a.txt"));
    assert!(!is_downloadable("x/a.avi"));
    assert!(!is_downloadable("a..avi"));
    let mut h = handler(true);
    let step = h.handle_request(ControlRequest::DownloadFile { name: "a.avi".to_string() });
    match step {
        ControlStep::SendFile { path } => assert_eq!(path, "/userdata/snaps/a.avi"),
        other => panic!("{:?}", other),
    }
    let e = h.handle_request(ControlRequest::DownloadFile { name: "../a.avi".to_string() });
    assert_eq!(error_of(e), "invalid file name");
}

#[test]
fn file_is_sent_in_chunks() {
    let mut t = DownloadTask::new();
    assert!(matches!(t.step(DownloadEvent::Stat(Ok(70000))), DownloadAction::OpenStream));
    assert!(matches!(t.step(DownloadEvent::StreamOpened(Ok(()))), DownloadAction::OpenFile));
    assert!(matches!(t.step(DownloadEvent::FileOpened(Ok(()))), DownloadAction::ReadChunk));
    assert!(matches!(
        t.step(DownloadEvent::Read(Ok(65536))),
        DownloadAction::WriteChunk(65536)
    ));
    assert!(matches!(t.step(DownloadEvent::Written(Ok(()))), DownloadAction::ReadChunk));
    match t.step(DownloadEvent::Read(Ok(0))) {
        DownloadAction::Reply(r) => assert_eq!((r.ok, r.file_size), (true, Some(70000))),
        other => panic!("{:?}", other),
    }
    assert!(matches!(t.step(DownloadEvent::Read(Ok(1))), DownloadAction::Ignore));
}

#[test]
fn file_that_cannot_be_sent_is_answered() {
    let fails = |events: Vec<DownloadEvent>| {
        let mut t = DownloadTask::new();
        let mut last = DownloadAction::Ignore;
        for e in events {
            last = t.step(e);
        }
        match last {
            DownloadAction::Reply(r) => r.error.unwrap(),
            other => panic!("{:?}", other),
        }
    };
    let e = || "e".to_string();
    assert_eq!(fails(vec![DownloadEvent::Stat(Err(e()))]), "file not found: e");
    assert_eq!(
        fails(vec![DownloadEvent::Stat(Ok(1)), DownloadEvent::StreamOpened(Err(e()))]),
        "open file stream failed: e"
    );
    assert_eq!(
        fails(vec![
            DownloadEvent::Stat(Ok(1)),
            DownloadEvent::StreamOpened(Ok(())),
            DownloadEvent::FileOpened(Err(e()))
        ]),
        "open file failed: e"
    );
    assert_eq!(
        fails(vec![
            DownloadEvent::Stat(Ok(1)),
            DownloadEvent::StreamOpened(Ok(())),
            DownloadEvent::FileOpened(Ok(())),
            DownloadEvent::Read(Err(e()))
        ]),
        "file read failed: e"
    );
    assert_eq!(
        fails(vec![
            DownloadEvent::Stat(Ok(1)),
            DownloadEvent::StreamOpened(Ok(())),
            DownloadEvent::FileOpened(Ok(())),
            DownloadEvent::Read(Ok(1)),
            DownloadEvent::Written(Err(e()))
        ]),
        "file stream write failed"
    );
}

#[test]
fn hardware_calls_are_answered() {
    assert!(reboot_reply(0).ok);
    assert_eq!(reboot_reply(-3).error.unwrap(), "rk_system_reboot failed: -3");
    assert_eq!(reset_reply(12).error.unwrap(), "rk_system_factory_reset failed: 12");
}

#[test]
fn parameters_are_loaded_and_read() {
    let mut store = ParamStore::new();
    let params = encoder_params(1).unwrap();
    assert_eq!(params.len(), 13);
    assert_eq!(params[1].key, "video.1.width");
    for p in params {
        store.load(p);
    }
    store.load(Param { key: "video.1.width".to_string(), value: ParamValue::Int(-1) });
    store.load(Param {
        key: "video.1.rc_mode".to_string(),
        value: ParamValue::Text("VBR".to_string()),
    });
    let c = get_encoder_config(&store, 1).unwrap();
    assert_eq!((c.width, c.height), (4294967295, 1296));
    assert_eq!(c.rc_mode, "VBR");
    assert!(store.take_writes().is_empty());
    assert!(encoder_params(3).is_none());
    assert_eq!(system_params().len(), 6);
    assert_eq!(to_signed(4294967295), -1);
    assert_eq!(to_signed(2147483648), -2147483648);
    assert_eq!(to_unsigned(-2147483648), 2147483648);
    assert_eq!(to_unsigned(to_signed(123)), 123);
}

#[test]
fn viewer_reads_control_answers() {
    let mut r = ControlResponse::ok();
    r.avi_files = Some(vec!["a.avi".to_string()]);
    assert_eq!(MediaPlayer::list_snapshots(r).unwrap(), vec!["a.avi"]);
    assert_eq!(MediaPlayer::list_snapshots(ControlResponse::ok()).unwrap().len(), 0);
    assert_eq!(MediaPlayer::list_snapshots(ControlResponse::err("no")).unwrap_err(), "no");
    let mut silent = ControlResponse::err("x");
    silent.error = None;
    assert_eq!(MediaPlayer::set_encoder_config(&silent).unwrap_err(), "unknown error");
    assert_eq!(MediaPlayer::download_file(&silent).unwrap_err(), "download rejected");
    assert_eq!(
        MediaPlayer::get_encoder_config(ControlResponse::ok()).unwrap_err(),
        "control response missing encoder_config"
    );
    assert_eq!(
        MediaPlayer::get_image_config(ControlResponse::ok()).unwrap_err(),
        "control response missing image_config"
    );
    let mut with = ControlResponse::ok();
    with.encoder_config = Some(good());
    assert_eq!(MediaPlayer::get_encoder_config(with).unwrap().width, 1280);
    assert_eq!(MediaPlayer::set_image_config(&ControlResponse::ok()), Ok(()));
    assert!(matches!(
        MediaPlayer::get_image_config_request(3),
        ControlRequest::GetImageConfig { cam_id: 3 }
    ));
}

#[test]
fn viewer_without_camera_cannot_ask() {
    let player = MediaPlayer::new();
    assert!(matches!(player.send_control(false), Err(SendControlError::NotConnected)));
    assert!(matches!(player.send_control(true), Ok(None)));
    assert!(player.download_file_request("a.avi").is_err());
}

#[test]
fn download_counts_bytes_up_to_the_end() {
    let mut d = MediaPlayer::download_file(&ControlResponse::ok()).unwrap();
    assert!(d.frame(Some(&[1, 2, 3])));
    assert!(d.frame(Some(&[4])));
    assert!(!d.frame(Some(&[])));
    assert!(d.done);
    assert_eq!(d.total, 4);
    let mut cut = MediaPlayer::download_file(&ControlResponse::ok()).unwrap();
    assert!(!cut.frame(None));
    assert!(cut.done);
}

#[test]
fn parameters_are_replaced() {
    let mut store = ParamStore::new();
    for n in 0..50 {
        store.load(Param { key: "a".to_string(), value: ParamValue::Int(n) });
        store.load(Param { key: "b".to_string(), value: ParamValue::Text(n.to_string()) });
        store.load(Param { key: "c".to_string(), value: ParamValue::Int(-n) });
    }
    assert_eq!((store.get_int("a", 7), store.get_int("c", 7), store.get_int("d", 7)), (49, -49, 7));
    assert_eq!(store.get_text("b", ""), "49");
    assert!(store.take_writes().is_empty());
    store.set_int("a", 1);
    store.set_text("b", "x");
    assert_eq!((store.get_int("a", 7), store.get_int("c", 7)), (1, -49));
    assert_eq!(store.get_text("b", ""), "x");
    assert_eq!(store.take_writes().len(), 2);
}
