//! Packets of video and audio.
//!
//! ```text
//! +---------+---------------+---------+---------+---------+
//! |track 1 B|timestamp 8 B  |flags 1 B|len 4 B  |data     |
//! +---------+---------------+---------+---------+---------+
//! ```
//!
//! The track is 1 for video and 2 for audio; numbers are big-endian. The two low
//! bits of the flags of an audio packet name its codec; bit 2 of the flags of a
//! video packet marks a key frame, and is set by the receiving side.

use vstd::prelude::*;

use crate::be_bytes::{
    be_bytes, be_read, be_value, lemma_be_bytes_len, lemma_be_bytes_wrap, lemma_be_inverse,
    lemma_be_roundtrip, lemma_be_value_bound, lemma_byte_ranges,
};
use crate::byte_buf::{
    buffer_advance, buffer_contents, buffer_copy_to_bytes, buffer_extend_from_slice, buffer_freeze,
    buffer_limit, buffer_put_u32, buffer_put_u64, buffer_put_u8, buffer_slice,
    buffer_with_capacity, bytes_contents, bytes_slice,
};

verus! {

/// Audio codec in the flags: PCM, 16 bits, little-endian.
pub const AUDIO_CODEC_PCM: u8 = 0;

/// Audio codec in the flags: AAC.
pub const AUDIO_CODEC_AAC: u8 = 1;

/// Audio codec in the flags: G.711 A-law.
pub const AUDIO_CODEC_G711A: u8 = 2;

/// Audio codec in the flags: G.711 mu-law.
pub const AUDIO_CODEC_G711U: u8 = 3;

/// Flag of a video packet that holds a key frame.
pub const FLAG_VIDEO_KEYFRAME: u8 = 0x04;

/// Bytes before the data: track, timestamp, flags and data length.
pub const HEADER_SIZE: usize = 1 + 8 + 1 + 4;

/// What a packet carries.
#[derive(Debug, Clone, Copy, PartialEq, Eq, Structural)]
pub enum MediaTrack {
    Video,
    Audio,
}

/// The byte that stands for a track.
pub open spec fn track_code(track: MediaTrack) -> u8 {
    match track {
        MediaTrack::Video => 1,
        MediaTrack::Audio => 2,
    }
}

impl MediaTrack {
    /// The track that a byte stands for.
    pub fn from_u8(v: u8) -> (r: Option<MediaTrack>)
        ensures
            v == 1 ==> r == Some(MediaTrack::Video),
            v == 2 ==> r == Some(MediaTrack::Audio),
            v != 1 && v != 2 ==> r is None,
    {
        match v {
            0x01 => Some(MediaTrack::Video),
            0x02 => Some(MediaTrack::Audio),
            _ => None,
        }
    }

    /// The byte that stands for the track.
    pub fn code(self) -> (r: u8)
        ensures
            r == track_code(self),
    {
        match self {
            MediaTrack::Video => 1,
            MediaTrack::Audio => 2,
        }
    }
}

/// A packet of one track.
#[derive(Debug)]
pub struct MediaPacket {
    pub track: MediaTrack,
    pub timestamp_ms: u64,
    pub flags: u8,
    pub data: bytes::Bytes,
}

/// A packet with its data as a sequence.
pub struct PacketView {
    pub track: MediaTrack,
    pub timestamp_ms: u64,
    pub flags: u8,
    pub data: Seq<u8>,
}

impl View for MediaPacket {
    type V = PacketView;

    open spec fn view(&self) -> PacketView {
        PacketView {
            track: self.track,
            timestamp_ms: self.timestamp_ms,
            flags: self.flags,
            data: bytes_contents(self.data),
        }
    }
}

impl Clone for MediaPacket {
    fn clone(&self) -> (r: MediaPacket)
        ensures
            r@ == self@,
    {
        MediaPacket {
            track: self.track,
            timestamp_ms: self.timestamp_ms,
            flags: self.flags,
            data: self.data.clone(),
        }
    }
}

/// The header of a packet. A data length of 2^32 or more is cut to its low 32 bits.
pub open spec fn packet_header(p: PacketView) -> Seq<u8> {
    seq![track_code(p.track)] + be_bytes(p.timestamp_ms as nat, 8) + seq![p.flags] + be_bytes(
        p.data.len(),
        4,
    )
}

/// A packet on the wire.
pub open spec fn packet_bytes(p: PacketView) -> Seq<u8> {
    packet_header(p) + p.data
}

/// The length, header included, that the header at the start of `s` announces.
pub open spec fn announced_len(s: Seq<u8>) -> nat {
    HEADER_SIZE as nat + be_value(s.subrange(10, 14))
}

/// The length of the first packet of `s`, if all of it is there.
pub open spec fn whole_packet_len(s: Seq<u8>) -> Option<nat> {
    if s.len() >= HEADER_SIZE && s.len() >= announced_len(s) {
        Some(announced_len(s))
    } else {
        None
    }
}

/// The first packet of `s`, if all of it is there and its track is known.
pub open spec fn first_packet(s: Seq<u8>) -> Option<PacketView> {
    if whole_packet_len(s) is Some && (s[0] == 1 || s[0] == 2) {
        Some(
            PacketView {
                track: if s[0] == 1 {
                    MediaTrack::Video
                } else {
                    MediaTrack::Audio
                },
                timestamp_ms: be_value(s.subrange(1, 9)) as u64,
                flags: s[9],
                data: s.subrange(HEADER_SIZE as int, announced_len(s) as int),
            },
        )
    } else {
        None
    }
}

impl MediaPacket {
    /// Whether the packet is a video packet marked as a key frame.
    pub fn is_keyframe(&self) -> (r: bool)
        ensures
            r == (self.track == MediaTrack::Video && (self.flags & FLAG_VIDEO_KEYFRAME) != 0),
    {
        self.track == MediaTrack::Video && (self.flags & FLAG_VIDEO_KEYFRAME) != 0
    }

    /// A video packet, not yet marked.
    pub fn video(timestamp_ms: u64, data: bytes::Bytes) -> (r: MediaPacket)
        ensures
            r == (MediaPacket { track: MediaTrack::Video, timestamp_ms, flags: 0, data }),
    {
        MediaPacket { track: MediaTrack::Video, timestamp_ms, flags: 0, data }
    }

    /// An audio packet with PCM samples.
    pub fn audio_pcm(timestamp_ms: u64, data: bytes::Bytes) -> (r: MediaPacket)
        ensures
            r == (MediaPacket {
                track: MediaTrack::Audio,
                timestamp_ms,
                flags: AUDIO_CODEC_PCM,
                data,
            }),
    {
        MediaPacket { track: MediaTrack::Audio, timestamp_ms, flags: AUDIO_CODEC_PCM, data }
    }

    /// An audio packet with G.711 A-law samples.
    pub fn audio_g711a(timestamp_ms: u64, data: bytes::Bytes) -> (r: MediaPacket)
        ensures
            r == (MediaPacket {
                track: MediaTrack::Audio,
                timestamp_ms,
                flags: AUDIO_CODEC_G711A,
                data,
            }),
    {
        MediaPacket { track: MediaTrack::Audio, timestamp_ms, flags: AUDIO_CODEC_G711A, data }
    }

    /// An audio packet with G.711 mu-law samples.
    pub fn audio_g711u(timestamp_ms: u64, data: bytes::Bytes) -> (r: MediaPacket)
        ensures
            r == (MediaPacket {
                track: MediaTrack::Audio,
                timestamp_ms,
                flags: AUDIO_CODEC_G711U,
                data,
            }),
    {
        MediaPacket { track: MediaTrack::Audio, timestamp_ms, flags: AUDIO_CODEC_G711U, data }
    }

    /// The packet on the wire.
    pub fn encode(&self) -> (r: bytes::Bytes)
        requires
            HEADER_SIZE + self@.data.len() <= buffer_limit(),
        ensures
            bytes_contents(r) == packet_bytes(self@),
    {
        let data = bytes_slice(&self.data);
        let mut buf = buffer_with_capacity(HEADER_SIZE + data.len());
        proof {
            lemma_be_bytes_len(self.timestamp_ms as nat, 8);
            lemma_be_bytes_len(data@.len(), 4);
            lemma_be_bytes_wrap(data@.len(), 4);
            lemma_byte_ranges();
        }
        buffer_put_u8(&mut buf, self.track.code());
        buffer_put_u64(&mut buf, self.timestamp_ms);
        buffer_put_u8(&mut buf, self.flags);
        let low: u32 = (data.len() as u64 % 0x1_0000_0000) as u32;
        buffer_put_u32(&mut buf, low);
        buffer_extend_from_slice(&mut buf, data);
        assert(buffer_contents(buf) =~= packet_bytes(self@));
        buffer_freeze(buf)
    }

    /// Takes the first packet out of the buffer. Where none is complete, or the
    /// track is unknown, the buffer stays as it is.
    pub fn try_decode(buf: &mut bytes::BytesMut) -> (r: Option<MediaPacket>)
        ensures
            r is Some <==> first_packet(buffer_contents(*old(buf))) is Some,
            r matches Some(p) ==> {
                &&& Some(p@) == first_packet(buffer_contents(*old(buf)))
                &&& buffer_contents(*final(buf)) == buffer_contents(*old(buf)).skip(
                    announced_len(buffer_contents(*old(buf))) as int,
                )
            },
            r is None ==> *final(buf) == *old(buf),
    {
        let ghost s = buffer_contents(*buf);
        let all = buffer_slice(buf);
        if all.len() < HEADER_SIZE {
            return None;
        }
        let track = match MediaTrack::from_u8(all[0]) {
            Some(t) => t,
            None => {
                return None;
            },
        };
        proof {
            lemma_be_value_bound(s.subrange(1, 9));
            lemma_be_value_bound(s.subrange(10, 14));
            lemma_byte_ranges();
        }
        let timestamp_ms: u64 = be_read(vstd::slice::slice_subrange(all, 1, 9));
        let flags: u8 = all[9];
        let data_len: usize = be_read(vstd::slice::slice_subrange(all, 10, 14)) as usize;
        if all.len() - HEADER_SIZE < data_len {
            return None;
        }
        buffer_advance(buf, HEADER_SIZE);
        let data = buffer_copy_to_bytes(buf, data_len);
        proof {
            assert(bytes_contents(data) =~= s.subrange(
                HEADER_SIZE as int,
                announced_len(s) as int,
            ));
            assert(buffer_contents(*buf) =~= s.skip(announced_len(s) as int));
        }
        Some(MediaPacket { track, timestamp_ms, flags, data })
    }

    /// The length of the first packet in the buffer, if all of it is there. The
    /// track is not looked at.
    pub fn peek_len(buf: &bytes::BytesMut) -> (r: Option<usize>)
        ensures
            match whole_packet_len(buffer_contents(*buf)) {
                Some(n) => r matches Some(m) && m == n,
                None => r is None,
            },
    {
        let all = buffer_slice(buf);
        if all.len() < HEADER_SIZE {
            return None;
        }
        proof {
            lemma_be_value_bound(all@.subrange(10, 14));
            lemma_byte_ranges();
        }
        let data_len: usize = be_read(vstd::slice::slice_subrange(all, 10, 14)) as usize;
        if all.len() - HEADER_SIZE < data_len {
            return None;
        }
        Some(HEADER_SIZE + data_len)
    }
}

proof fn lemma_header_parts(p: PacketView, rest: Seq<u8>)
    ensures
        packet_header(p).len() == HEADER_SIZE,
        ({
            let s = packet_bytes(p) + rest;
            &&& s[0] == track_code(p.track)
            &&& s.subrange(1, 9) == be_bytes(p.timestamp_ms as nat, 8)
            &&& s[9] == p.flags
            &&& s.subrange(10, 14) == be_bytes(p.data.len(), 4)
        }),
{
    lemma_be_bytes_len(p.timestamp_ms as nat, 8);
    lemma_be_bytes_len(p.data.len(), 4);
    let s = packet_bytes(p) + rest;
    assert(s.subrange(1, 9) =~= be_bytes(p.timestamp_ms as nat, 8));
    assert(s.subrange(10, 14) =~= be_bytes(p.data.len(), 4));
}

/// A packet whose data length fits its header is read back as it was written,
/// whatever follows it, and exactly its bytes are consumed.
pub proof fn law_packet_roundtrip(p: PacketView, rest: Seq<u8>)
    requires
        p.data.len() < 0x1_0000_0000,
    ensures
        first_packet(packet_bytes(p) + rest) == Some(p),
        whole_packet_len(packet_bytes(p) + rest) == Some(packet_bytes(p).len()),
        (packet_bytes(p) + rest).skip(announced_len(packet_bytes(p) + rest) as int) == rest,
{
    let s = packet_bytes(p) + rest;
    lemma_header_parts(p, rest);
    lemma_byte_ranges();
    lemma_be_roundtrip(p.timestamp_ms as nat, 8);
    lemma_be_roundtrip(p.data.len(), 4);
    assert(s.subrange(HEADER_SIZE as int, announced_len(s) as int) =~= p.data);
    assert(s.skip(announced_len(s) as int) =~= rest);
}

/// What is read as a packet is exactly what that packet is written as.
pub proof fn law_packet_canonical(s: Seq<u8>)
    requires
        first_packet(s) is Some,
    ensures
        s.take(announced_len(s) as int) == packet_bytes(first_packet(s)->0),
        first_packet(s)->0.data.len() < 0x1_0000_0000,
{
    let p = first_packet(s)->0;
    lemma_byte_ranges();
    lemma_be_value_bound(s.subrange(1, 9));
    lemma_be_value_bound(s.subrange(10, 14));
    lemma_be_inverse(s.subrange(1, 9));
    lemma_be_inverse(s.subrange(10, 14));
    lemma_be_bytes_len(p.timestamp_ms as nat, 8);
    lemma_be_bytes_len(p.data.len(), 4);
    let t = packet_bytes(p);
    assert(be_bytes(p.timestamp_ms as nat, 8) == s.subrange(1, 9));
    assert(be_bytes(p.data.len(), 4) == s.subrange(10, 14));
    assert(t =~= s.take(announced_len(s) as int)) by {
        assert forall|i: int| 0 <= i < t.len() implies t[i] == s[i] by {
            if 1 <= i < 9 {
                assert(t[i] == s.subrange(1, 9)[i - 1]);
            } else if 10 <= i < 14 {
                assert(t[i] == s.subrange(10, 14)[i - 10]);
            } else if i >= 14 {
                assert(t[i] == p.data[i - 14]);
            }
        }
    }
}

/// As long as a packet has not arrived in full, nothing is read and the buffer
/// waits for more.
pub proof fn law_partial_packet_waits(p: PacketView, arrived: int)
    requires
        p.data.len() < 0x1_0000_0000,
        0 <= arrived < packet_bytes(p).len(),
    ensures
        first_packet(packet_bytes(p).take(arrived)) is None,
        whole_packet_len(packet_bytes(p).take(arrived)) is None,
{
    let full = packet_bytes(p);
    let s = full.take(arrived);
    lemma_header_parts(p, seq![]);
    assert(full + Seq::<u8>::empty() =~= full);
    if arrived >= HEADER_SIZE {
        lemma_byte_ranges();
        lemma_be_roundtrip(p.data.len(), 4);
        assert(s.subrange(10, 14) =~= full.subrange(10, 14));
    }
}

/// The packets at the start of `s`, one after the other, as far as they are there.
pub open spec fn packets_in(s: Seq<u8>) -> Seq<PacketView>
    decreases s.len(),
{
    match first_packet(s) {
        Some(p) => if announced_len(s) <= s.len() {
            seq![p] + packets_in(s.skip(announced_len(s) as int))
        } else {
            seq![]
        },
        None => seq![],
    }
}

/// Packets on the wire, one after the other.
pub open spec fn stream_bytes(packets: Seq<PacketView>) -> Seq<u8>
    decreases packets.len(),
{
    if packets.len() == 0 {
        seq![]
    } else {
        packet_bytes(packets[0]) + stream_bytes(packets.skip(1))
    }
}

/// Packets that are sent one after the other are read one after the other, whatever
/// follows them.
pub proof fn law_stream_roundtrip(packets: Seq<PacketView>, rest: Seq<u8>)
    requires
        forall|i: int| 0 <= i < packets.len() ==> (#[trigger] packets[i]).data.len() < 0x1_0000_0000,
    ensures
        packets_in(stream_bytes(packets) + rest) == packets + packets_in(rest),
    decreases packets.len(),
{
    let s = stream_bytes(packets) + rest;
    if packets.len() == 0 {
        assert(s =~= rest);
        assert(packets + packets_in(rest) =~= packets_in(rest));
    } else {
        let more = packets.skip(1);
        let after = stream_bytes(more) + rest;
        assert forall|i: int| 0 <= i < more.len() implies (#[trigger] more[i]).data.len()
            < 0x1_0000_0000 by {
            assert(more[i] == packets[i + 1]);
        }
        law_stream_roundtrip(more, rest);
        assert(s =~= packet_bytes(packets[0]) + after);
        assert(packets[0].data.len() < 0x1_0000_0000);
        law_packet_roundtrip(packets[0], after);
        assert(packets + packets_in(rest) =~= seq![packets[0]] + (more + packets_in(rest)));
    }
}

/// A packet on the wire: one byte for the track, 1 for video and 2 for audio, eight for
/// the timestamp, one for the flags, four for the length of the data, then the data.
pub proof fn law_packet_layout(p: PacketView)
    requires
        p.data.len() < 0x1_0000_0000,
    ensures
        packet_bytes(p).len() == 14 + p.data.len(),
        packet_bytes(p)[0] == (if p.track == MediaTrack::Video {
            1u8
        } else {
            2u8
        }),
        be_value(packet_bytes(p).subrange(1, 9)) == p.timestamp_ms,
        packet_bytes(p)[9] == p.flags,
        be_value(packet_bytes(p).subrange(10, 14)) == p.data.len(),
        packet_bytes(p).skip(14) == p.data,
{
    lemma_be_bytes_len(p.timestamp_ms as nat, 8);
    lemma_be_bytes_len(p.data.len(), 4);
    lemma_byte_ranges();
    lemma_be_roundtrip(p.timestamp_ms as nat, 8);
    lemma_be_roundtrip(p.data.len(), 4);
    assert(packet_bytes(p).subrange(1, 9) =~= be_bytes(p.timestamp_ms as nat, 8));
    assert(packet_bytes(p).subrange(10, 14) =~= be_bytes(p.data.len(), 4));
    assert(packet_bytes(p).skip(14) =~= p.data);
}

/// Bytes are a packet exactly where the header is there with a known track and as much
/// data as it announces; what is behind that does not matter.
pub proof fn law_packet_is_there(s: Seq<u8>)
    ensures
        first_packet(s) is Some <==> s.len() >= 14 && s.len() - 14 >= be_value(s.subrange(10, 14))
            && (s[0] == 1 || s[0] == 2),
        first_packet(s) matches Some(p) ==> (p.track == MediaTrack::Video <==> s[0] == 1) && p.flags
            == s[9] && p.data == s.subrange(14, 14 + be_value(s.subrange(10, 14)) as int),
{
}

} // verus!
