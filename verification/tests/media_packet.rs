use bytes::{Bytes, BytesMut};
use p2p_camera::proto::media_packet::{
    MediaPacket, MediaTrack, AUDIO_CODEC_G711A, AUDIO_CODEC_G711U, FLAG_VIDEO_KEYFRAME,
};

#[test]
fn test_video_packet_roundtrip() {
    let data = Bytes::from_static(&[0, 0, 0, 1, 0x65, 0x01, 0x02]);
    let pkt = MediaPacket::video(12345, data);
    let encoded = pkt.encode();

    let mut buf = BytesMut::from(encoded.as_ref());
    let decoded = MediaPacket::try_decode(&mut buf).unwrap();

    assert_eq!(decoded.track, MediaTrack::Video);
    assert_eq!(decoded.timestamp_ms, 12345);
    assert_eq!(decoded.flags, 0);
    assert_eq!(decoded.data.len(), 7);
}

#[test]
fn test_audio_packet_roundtrip() {
    let data = Bytes::from(vec![0u8; 320]);
    let pkt = MediaPacket::audio_pcm(67890, data);
    let encoded = pkt.encode();

    let mut buf = BytesMut::from(encoded.as_ref());
    let decoded = MediaPacket::try_decode(&mut buf).unwrap();

    assert_eq!(decoded.track, MediaTrack::Audio);
    assert_eq!(decoded.timestamp_ms, 67890);
    assert_eq!(decoded.flags, 0);
    assert_eq!(decoded.data.len(), 320);
}

#[test]
fn packet_layout_on_the_wire() {
    let pkt = MediaPacket {
        track: MediaTrack::Audio,
        timestamp_ms: 0x0102_0304_0506_0708,
        flags: 3,
        data: Bytes::from_static(&[9, 8]),
    };
    assert_eq!(
        pkt.encode().as_ref(),
        &[2, 1, 2, 3, 4, 5, 6, 7, 8, 3, 0, 0, 0, 2, 9, 8]
    );
}

#[test]
fn packets_are_read_one_after_the_other() {
    let a = MediaPacket::video(1, Bytes::from_static(&[1, 2, 3]));
    let b = MediaPacket::audio_g711a(2, Bytes::from_static(&[4]));
    let mut buf = BytesMut::new();
    buf.extend_from_slice(&a.encode());
    buf.extend_from_slice(&b.encode());
    buf.extend_from_slice(&[1, 0, 0]);

    assert_eq!(MediaPacket::peek_len(&buf), Some(17));
    let first = MediaPacket::try_decode(&mut buf).unwrap();
    assert_eq!(first.track, MediaTrack::Video);
    assert_eq!(first.data.as_ref(), &[1, 2, 3]);
    let second = MediaPacket::try_decode(&mut buf).unwrap();
    assert_eq!(second.flags, AUDIO_CODEC_G711A);
    assert_eq!(second.timestamp_ms, 2);
    assert_eq!(second.data.as_ref(), &[4]);
    assert!(MediaPacket::try_decode(&mut buf).is_none());
    assert_eq!(buf.as_ref(), &[1, 0, 0]);
    assert_eq!(MediaPacket::peek_len(&buf), None);
}

#[test]
fn partial_packet_waits() {
    let encoded = MediaPacket::video(7, Bytes::from_static(&[1, 2, 3, 4])).encode();
    for n in 0..encoded.len() {
        let mut buf = BytesMut::from(&encoded[..n]);
        assert!(MediaPacket::try_decode(&mut buf).is_none());
        assert_eq!(MediaPacket::peek_len(&buf), None);
        assert_eq!(buf.len(), n);
    }
}

#[test]
fn unknown_track_is_not_decoded_but_has_a_length() {
    let mut bytes = MediaPacket::video(7, Bytes::from_static(&[1])).encode().to_vec();
    bytes[0] = 9;
    let mut buf = BytesMut::from(bytes.as_slice());
    assert!(MediaPacket::try_decode(&mut buf).is_none());
    assert_eq!(buf.len(), 15);
    assert_eq!(MediaPacket::peek_len(&buf), Some(15));
}

#[test]
fn tracks_by_number() {
    assert_eq!(MediaTrack::from_u8(1), Some(MediaTrack::Video));
    assert_eq!(MediaTrack::from_u8(2), Some(MediaTrack::Audio));
    assert_eq!(MediaTrack::from_u8(0), None);
    assert_eq!(MediaTrack::from_u8(3), None);
    assert_eq!(MediaTrack::Video.code(), 1);
    assert_eq!(MediaTrack::Audio.code(), 2);
}

#[test]
fn keyframe_flag_counts_for_video_only() {
    let mut video = MediaPacket::video(0, Bytes::from_static(&[1]));
    assert!(!video.is_keyframe());
    video.flags |= FLAG_VIDEO_KEYFRAME;
    assert!(video.is_keyframe());
    let mut audio = MediaPacket::audio_g711u(0, Bytes::from_static(&[1]));
    assert_eq!(audio.flags, AUDIO_CODEC_G711U);
    audio.flags |= FLAG_VIDEO_KEYFRAME;
    assert!(!audio.is_keyframe());
}

#[test]
fn cloned_packet_is_the_same() {
    let p = MediaPacket::video(5, Bytes::from_static(&[1, 2]));
    let q = p.clone();
    assert_eq!(q.encode(), p.encode());
}
