use bytes::Bytes;
use p2p_camera::mobile_core::jitter_buffer::AvJitterBuffer;
use p2p_camera::proto::media_packet::MediaPacket;

const MS: u128 = 1_000_000;

fn plain(ts: u64) -> MediaPacket {
    MediaPacket::video(ts, Bytes::from_static(&[0, 0, 0, 1, 0x02, 1]))
}

fn key(ts: u64) -> MediaPacket {
    MediaPacket::video(ts, Bytes::from_static(&[0, 0, 0, 1, 0x26, 1]))
}

fn sound(ts: u64) -> MediaPacket {
    MediaPacket::audio_pcm(ts, Bytes::from_static(&[1]))
}

fn buffer() -> AvJitterBuffer {
    AvJitterBuffer::new(100 * MS, 50 * MS)
}

#[test]
fn video_waits_until_enough_is_buffered() {
    let mut b = buffer();
    assert!(b.next_video().is_none());
    b.push(plain(1000));
    assert!(!b.video_ready());
    assert!(b.next_video().is_none());
    b.push(plain(1099));
    assert!(b.next_video().is_none());
    assert_eq!(b.video_buffered(), 99);
    b.push(plain(1100));
    assert!(b.video_ready());
    assert_eq!(b.next_video().unwrap().timestamp_ms, 1000);
    assert_eq!(b.next_video().unwrap().timestamp_ms, 1099);
    assert_eq!(b.next_video().unwrap().timestamp_ms, 1100);
    assert!(b.next_video().is_none());
    b.push(plain(1140));
    assert_eq!(b.next_video().unwrap().timestamp_ms, 1140);
}

#[test]
fn too_much_video_is_skipped_up_to_a_keyframe() {
    let mut b = buffer();
    b.push(plain(0));
    b.push(plain(100));
    b.push(key(150));
    b.push(plain(201));
    assert_eq!(b.next_video().unwrap().timestamp_ms, 150);
    assert_eq!(b.next_video().unwrap().timestamp_ms, 201);
    let mut none = buffer();
    none.push(plain(0));
    none.push(plain(300));
    assert!(none.next_video().is_none());
    assert_eq!(none.video_buffered(), 0);
    assert!(!none.video_ready());
}

#[test]
fn full_buffer_keeps_a_leading_keyframe() {
    let mut b = AvJitterBuffer::new(59 * MS, 50 * MS);
    b.push(key(0));
    for ts in 1..60 {
        b.push(plain(ts));
    }
    assert_eq!(b.video_buffered(), 59);
    b.push(plain(100));
    assert_eq!(b.video_buffered(), 100);
    assert_eq!(b.next_video().unwrap().timestamp_ms, 0);

    let mut c = AvJitterBuffer::new(59 * MS, 50 * MS);
    for ts in 0..61 {
        c.push(plain(ts));
    }
    assert_eq!(c.video_buffered(), 59);
    assert_eq!(c.next_video().unwrap().timestamp_ms, 1);
}

#[test]
fn video_is_held_back_for_audio() {
    let mut b = buffer();
    for ts in [0, 50, 100, 160] {
        b.push(plain(ts));
    }
    assert_eq!(b.next_video().unwrap().timestamp_ms, 0);
    b.push(sound(0));
    b.push(sound(50));
    assert_eq!(b.audio_buffered(), 50);
    assert_eq!(b.next_audio().unwrap().timestamp_ms, 0);
    assert_eq!(b.next_video().unwrap().timestamp_ms, 50);
    assert!(b.next_video().is_none());
    assert_eq!(b.video_buffered(), 60);
    assert_eq!(b.next_audio().unwrap().timestamp_ms, 50);
    assert_eq!(b.next_video().unwrap().timestamp_ms, 100);
    assert!(b.next_video().is_none());
}

#[test]
fn cleared_buffer_starts_anew() {
    let mut b = buffer();
    b.push(plain(0));
    b.push(plain(100));
    b.push(sound(0));
    assert!(b.next_video().is_some());
    b.clear();
    assert_eq!(b.video_buffered(), 0);
    assert!(!b.video_ready());
    assert!(b.next_audio().is_none());
    b.push(plain(5));
    assert!(b.next_video().is_none());
}
