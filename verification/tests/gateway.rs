use p2p_camera::gateway::h265::{
    first_nal_in_au, nal_type, split_h265_access_units, split_h265_nal_units,
};
use p2p_camera::gateway::media_source::{init_packets, FileVideoSource, SilenceAudioSource};
use p2p_camera::gateway::session::{
    wait_before_session, GatewaySession, SessionAction, SessionEvent, SessionPhase,
};
use p2p_camera::net::addr::{Multiaddr, Protocol};
use p2p_camera::proto::media_packet::MediaTrack;

const VPS: [u8; 3] = [0x40, 1, 1];
const SPS: [u8; 3] = [0x42, 1, 2];
const IDR: [u8; 4] = [0x26, 1, 0xa0, 3];
const FIRST_SLICE: [u8; 3] = [0x02, 1, 0x80];
const NEXT_SLICE: [u8; 3] = [0x02, 1, 0x40];
const SEI: [u8; 3] = [0x4e, 1, 5];

fn coded(units: &[&[u8]]) -> Vec<u8> {
    let mut out = Vec::new();
    for u in units {
        out.extend_from_slice(&[0, 0, 0, 1]);
        out.extend_from_slice(u);
    }
    out
}

#[test]
fn units_between_start_codes() {
    let data = [0, 0, 1, 9, 8, 0, 0, 0, 1, 7, 0, 0, 1, 6, 5];
    assert_eq!(
        split_h265_nal_units(&data),
        vec![vec![9u8, 8], vec![7], vec![6, 5]]
    );
    assert_eq!(split_h265_nal_units(&[1, 2, 3]), vec![vec![1u8, 2, 3]]);
    assert!(split_h265_nal_units(&[]).is_empty());
    assert_eq!(split_h265_nal_units(&[0, 0, 1]), vec![vec![0u8, 0, 1]]);
    assert_eq!(split_h265_nal_units(&[5, 0, 0, 1, 4, 0, 0, 1]), vec![vec![4u8]]);
    assert_eq!(
        split_h265_nal_units(&[0, 0, 1, 0, 0, 1, 4]),
        vec![vec![], vec![4u8]]
    );
}

#[test]
fn joined_units_are_split_again() {
    let data = coded(&[&VPS, &SPS, &IDR]);
    assert_eq!(
        split_h265_nal_units(&data),
        vec![VPS.to_vec(), SPS.to_vec(), IDR.to_vec()]
    );
    let data = coded(&[&[0x40, 0], &[], &[0, 0], &[7, 0, 0]]);
    assert_eq!(
        split_h265_nal_units(&data),
        vec![vec![0x40u8, 0], vec![], vec![0, 0], vec![7, 0, 0]]
    );
}

#[test]
fn pictures_are_access_units() {
    let data = coded(&[&VPS, &SPS, &IDR, &SEI, &FIRST_SLICE, &NEXT_SLICE, &FIRST_SLICE]);
    assert_eq!(
        split_h265_access_units(&data),
        vec![
            coded(&[&VPS]),
            coded(&[&SPS]),
            coded(&[&IDR, &SEI]),
            coded(&[&FIRST_SLICE, &NEXT_SLICE]),
            coded(&[&FIRST_SLICE]),
        ]
    );
    assert!(split_h265_access_units(&[]).is_empty());
}

#[test]
fn first_unit_of_an_access_unit() {
    assert_eq!(first_nal_in_au(&coded(&[&IDR, &SEI])), Some(&IDR[..]));
    assert_eq!(first_nal_in_au(&[0, 0, 1, 7, 8]), Some(&[7u8, 8][..]));
    assert_eq!(first_nal_in_au(&[0, 0, 1, 7, 0, 0, 1]), Some(&[7u8][..]));
    assert_eq!(first_nal_in_au(&[0, 0, 1, 7, 0, 0, 0, 1]), Some(&[7u8][..]));
    assert_eq!(first_nal_in_au(&[0, 0, 1, 0x40, 0, 0, 1]), Some(&[0x40u8][..]));
    assert_eq!(first_nal_in_au(&[0, 0, 1, 7, 0, 0]), Some(&[7u8, 0, 0][..]));
    assert_eq!(first_nal_in_au(&[0, 0, 1, 7, 0, 0, 1, 2]), Some(&[7u8][..]));
    assert_eq!(first_nal_in_au(&[0, 0, 1]), Some(&[][..]));
    assert_eq!(first_nal_in_au(&[1, 0, 0, 1, 5]), None);
    assert_eq!(first_nal_in_au(&[]), None);
    assert_eq!(nal_type(&[]), 0);
    assert_eq!(nal_type(&VPS), 32);
    assert_eq!(nal_type(&[0xff]), 63);
}

#[test]
fn file_is_played_over_and_over() {
    let mut s = FileVideoSource::from_file(&coded(&[&VPS, &IDR]));
    assert!(s.param_sets_handle().is_none());
    let p = s.next_packet(40).unwrap();
    assert_eq!((p.track, p.timestamp_ms, p.flags), (MediaTrack::Video, 40, 0));
    assert_eq!(p.data.as_ref(), &coded(&[&VPS])[..]);
    assert_eq!(s.param_sets_handle(), &Some(vec![VPS.to_vec()]));
    assert_eq!(s.next_packet(80).unwrap().data.as_ref(), &coded(&[&IDR])[..]);
    assert_eq!(s.next_frame(), coded(&[&VPS]));
    assert!(FileVideoSource::from_file(&[]).next_packet(0).is_none());
}

#[test]
fn latest_parameter_sets_are_kept() {
    let newer = [0x40, 1, 9];
    let mut s = FileVideoSource::from_file(&coded(&[&VPS, &SPS, &newer]));
    for t in 0..3 {
        s.next_packet(t).unwrap();
    }
    assert_eq!(s.param_sets_handle(), &Some(vec![SPS.to_vec(), newer.to_vec()]));
    let first = init_packets(s.param_sets_handle());
    assert_eq!(first.len(), 2);
    assert_eq!(first[0].data.as_ref(), &coded(&[&SPS])[..]);
    assert_eq!((first[1].timestamp_ms, first[1].flags), (0, 0));
    assert!(init_packets(&None).is_empty());
}

#[test]
fn silence_lasts_twenty_milliseconds() {
    let s = SilenceAudioSource::new(16000, 1);
    assert_eq!(s.next_frame(), vec![0u8; 640]);
    assert_eq!(SilenceAudioSource::new(44100, 2).next_frame().len(), 3528);
    assert_eq!(SilenceAudioSource::new(49, 1).next_frame().len(), 0);
    let p = s.next_packet(20);
    assert_eq!((p.track, p.timestamp_ms, p.flags, p.data.len()), (MediaTrack::Audio, 20, 0, 640));
    for rate in [8000u32, 11025, 22050, 44100, 48000, 96000, 12345, 4294967295] {
        let by_float = (rate as f64 * std::time::Duration::from_millis(20).as_secs_f64()) as usize;
        assert_eq!(by_float, (rate / 50) as usize);
    }
}

fn relay() -> Multiaddr {
    Multiaddr { parts: vec![Protocol::Tcp(1)] }
}

fn fail_text(a: SessionAction) -> String {
    match a {
        SessionAction::Fail(t) => t,
        other => panic!("{:?}", other),
    }
}

fn failed(listener: u64) -> SessionEvent {
    SessionEvent::ListenerFailed { listener, error: "e".to_string() }
}

#[test]
fn session_is_served_under_a_reservation() {
    let mut s = GatewaySession::new(relay());
    assert!(matches!(s.step(SessionEvent::ReservationAccepted), SessionAction::Wait));
    match s.step(SessionEvent::Established) {
        SessionAction::RequestReservation(a) => assert!(a.has_circuit() && a.has_tcp()),
        other => panic!("{:?}", other),
    }
    s.step(SessionEvent::ReservationRequested { listener: 4 });
    assert!(matches!(s.step(failed(5)), SessionAction::Wait));
    assert!(matches!(s.step(SessionEvent::ReservationAccepted), SessionAction::Serve));
    assert!(matches!(s.step(failed(5)), SessionAction::Wait));
    assert!(matches!(s.step(SessionEvent::Other), SessionAction::Wait));
    assert_eq!(s.phase, SessionPhase::Serving(4));
    assert_eq!(fail_text(s.step(failed(4))), "Relay reservation lost: e");
    assert_eq!(s.phase, SessionPhase::Ended);
    assert!(matches!(s.step(SessionEvent::Established), SessionAction::Wait));
}

#[test]
fn session_fails_with_a_reason() {
    let serving = || {
        let mut s = GatewaySession::new(relay());
        s.step(SessionEvent::Established);
        s.step(SessionEvent::ReservationRequested { listener: 4 });
        s
    };
    let mut s = GatewaySession::new(relay());
    assert_eq!(
        fail_text(s.step(SessionEvent::DialFailed { error: "x".to_string() })),
        "Failed to connect to relay: x"
    );
    let mut s = GatewaySession::new(relay());
    assert_eq!(fail_text(s.step(SessionEvent::TimedOut)), "Timeout waiting for relay connection");
    assert_eq!(fail_text(serving().step(failed(4))), "Reservation request rejected: e");
    let mut s = serving();
    s.step(SessionEvent::ReservationAccepted);
    assert_eq!(fail_text(s.step(SessionEvent::VideoClosed)), "Video stream accept channel closed");
    let mut s = serving();
    s.step(SessionEvent::ReservationAccepted);
    assert_eq!(fail_text(s.step(SessionEvent::AudioClosed)), "Audio stream accept channel closed");
    assert_eq!((wait_before_session(1), wait_before_session(2)), (0, 3));
}

#[test]
fn session_from_the_text_of_an_address() {
    let s = GatewaySession::from_text("/ip4/1.2.3.4/tcp/4001").unwrap();
    assert_eq!(s.phase, SessionPhase::Connecting);
    assert_eq!(s.relay_addr.parts.len(), 2);
    assert!(matches!(s.relay_addr.parts[1], Protocol::Tcp(4001)));
    assert_eq!(GatewaySession::from_text("1.2.3.4:4001").err().unwrap(), "invalid multiaddr");
    let e = GatewaySession::from_text("/ip5/1.2.3.4").err().unwrap();
    assert_eq!(e, "unknown protocol string: ip5");
}
