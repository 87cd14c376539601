//! Taking media packets out of a stream.

use vstd::prelude::*;

use super::keyframe::{holds_keyframe, is_nal_keyframe};
use crate::byte_buf::{
    buffer_contents, buffer_extend_from_slice, buffer_limit, buffer_slice, buffer_with_capacity,
    bytes_slice,
};
use crate::net::addr::PeerId;
use crate::net::identity::{peer_text, text_of_peer};
use crate::proto::media_packet::{
    announced_len, first_packet, law_packet_roundtrip, packet_bytes, MediaPacket, MediaTrack,
    PacketView, FLAG_VIDEO_KEYFRAME,
};

verus! {

broadcast use vstd::string::group_string_axioms;

/// Bytes that are read from a stream at once.
pub const STREAM_READ_BUF: usize = 65536;

/// How long to wait for the first key frame, in nanoseconds. The wait is a last
/// resort: a camera sends a key frame long before, and showing video without one
/// shows garbage.
pub const IDR_WAIT_TIMEOUT_NS: u64 = 5_000_000_000;

/// The state of a receiver: the bytes not yet decoded, whether video flows, and when
/// the first packet of video came.
pub struct ReceiverView {
    pub pending: Seq<u8>,
    pub started: bool,
    pub first_video: Option<u64>,
}

/// What became of the next packet.
pub enum ReceiveStepView {
    /// No packet has arrived in full.
    NeedData,
    /// A packet that cannot be decoded yet was dropped.
    Dropped,
    /// A packet to hand on.
    Forward(PacketView),
}

/// The packet with its key frame flag set by its own bytes. What the camera wrote
/// there does not count.
pub open spec fn marked(p: PacketView) -> PacketView {
    if p.track == MediaTrack::Video {
        PacketView {
            flags: if holds_keyframe(p.data) {
                p.flags | FLAG_VIDEO_KEYFRAME
            } else {
                p.flags & !FLAG_VIDEO_KEYFRAME
            },
            ..p
        }
    } else {
        p
    }
}

/// How long the receiver has waited at `now`.
pub open spec fn waited(first: u64, now: u64) -> int {
    if now >= first {
        now - first
    } else {
        0
    }
}

/// What becomes of the next packet at `now`, and the state after it.
pub open spec fn receive_step(v: ReceiverView, now: u64) -> (ReceiverView, ReceiveStepView) {
    match first_packet(v.pending) {
        None => (v, ReceiveStepView::NeedData),
        Some(p) => {
            let q = marked(p);
            let rest = ReceiverView { pending: v.pending.skip(announced_len(v.pending) as int), ..v };
            if p.track == MediaTrack::Audio || v.started {
                (rest, ReceiveStepView::Forward(q))
            } else {
                let first = match v.first_video {
                    Some(t) => t,
                    None => now,
                };
                let timed = ReceiverView { first_video: Some(first), ..rest };
                if holds_keyframe(p.data) || waited(first, now) >= IDR_WAIT_TIMEOUT_NS {
                    (ReceiverView { started: true, ..timed }, ReceiveStepView::Forward(q))
                } else {
                    (timed, ReceiveStepView::Dropped)
                }
            }
        },
    }
}

/// What became of the next packet.
#[derive(Debug)]
pub enum ReceiveStep {
    NeedData,
    Dropped,
    Forward(MediaPacket),
}

/// Decodes the packets of one stream. Video before the first key frame is dropped:
/// a decoder cannot start without one.
pub struct FrameReceiver {
    buf: bytes::BytesMut,
    got_first_idr: bool,
    first_video_ns: Option<u64>,
}

impl View for FrameReceiver {
    type V = ReceiverView;

    closed spec fn view(&self) -> ReceiverView {
        ReceiverView {
            pending: buffer_contents(self.buf),
            started: self.got_first_idr,
            first_video: self.first_video_ns,
        }
    }
}

impl FrameReceiver {
    pub fn new() -> (r: FrameReceiver)
        ensures
            r@ == (ReceiverView { pending: seq![], started: false, first_video: None }),
    {
        FrameReceiver {
            buf: buffer_with_capacity(STREAM_READ_BUF),
            got_first_idr: false,
            first_video_ns: None,
        }
    }

    /// How many bytes have not been decoded yet.
    pub fn pending_len(&self) -> (r: usize)
        ensures
            r == self@.pending.len(),
    {
        buffer_slice(&self.buf).len()
    }

    /// Takes in what was read from the stream.
    pub fn feed(&mut self, data: &[u8])
        requires
            old(self)@.pending.len() + data@.len() <= buffer_limit(),
        ensures
            final(self)@ == (ReceiverView {
                pending: old(self)@.pending + data@,
                ..old(self)@
            }),
    {
        buffer_extend_from_slice(&mut self.buf, data);
    }

    /// Takes the next packet out, at the time `now_ns`.
    pub fn next(&mut self, now_ns: u64) -> (r: ReceiveStep)
        ensures
            final(self)@ == receive_step(old(self)@, now_ns).0,
            match receive_step(old(self)@, now_ns).1 {
                ReceiveStepView::NeedData => r matches ReceiveStep::NeedData,
                ReceiveStepView::Dropped => r matches ReceiveStep::Dropped,
                ReceiveStepView::Forward(p) => r matches ReceiveStep::Forward(q) && q@ == p,
            },
    {
        let mut packet = match MediaPacket::try_decode(&mut self.buf) {
            Some(p) => p,
            None => {
                return ReceiveStep::NeedData;
            },
        };
        if packet.track == MediaTrack::Video {
            let key = is_nal_keyframe(bytes_slice(&packet.data));
            if key {
                packet.flags = packet.flags | FLAG_VIDEO_KEYFRAME;
            } else {
                packet.flags = packet.flags & !FLAG_VIDEO_KEYFRAME;
            }
            if !self.got_first_idr {
                let first: u64 = match self.first_video_ns {
                    Some(t) => t,
                    None => now_ns,
                };
                self.first_video_ns = Some(first);
                let long_wait = now_ns >= first && now_ns - first >= IDR_WAIT_TIMEOUT_NS;
                if key || long_wait {
                    self.got_first_idr = true;
                } else {
                    return ReceiveStep::Dropped;
                }
            }
        }
        ReceiveStep::Forward(packet)
    }
}

/// The reason given when a stream ends.
pub fn eof_reason(peer: &PeerId) -> (r: String)
    ensures
        r@ == "Stream EOF from "@ + text_of_peer(peer@),
{
    let mut s = "Stream EOF from ".to_owned();
    s.append(peer_text(peer).as_str());
    s
}

/// The reason given when a stream fails with `error`.
pub fn read_error_reason(peer: &PeerId, error: &str) -> (r: String)
    ensures
        r@ == "Stream read error from "@ + text_of_peer(peer@) + ": "@ + error@,
{
    let mut s = "Stream read error from ".to_owned();
    s.append(peer_text(peer).as_str());
    s.append(": ");
    s.append(error);
    s
}

/// Video starts with a key frame, or with whatever there is after five seconds
/// without one.
pub proof fn law_video_starts_with_keyframe(v: ReceiverView, now: u64)
    requires
        !v.started,
        receive_step(v, now).1 matches ReceiveStepView::Forward(p) && p.track == MediaTrack::Video,
    ensures
        holds_keyframe(receive_step(v, now).1->0.data) || (v.first_video matches Some(first) && now
            - first >= IDR_WAIT_TIMEOUT_NS),
{
}

/// Once video flows no packet is dropped.
pub proof fn law_nothing_dropped_after_start(v: ReceiverView, now: u64)
    requires
        v.started,
    ensures
        !(receive_step(v, now).1 is Dropped),
        receive_step(v, now).0.started,
{
}

/// A packet of video that is handed on is flagged as a key frame exactly where its
/// bytes hold one.
pub proof fn law_flag_tells_keyframe(v: ReceiverView, now: u64)
    requires
        receive_step(v, now).1 matches ReceiveStepView::Forward(p) && p.track == MediaTrack::Video,
    ensures
        (receive_step(v, now).1->0.flags & FLAG_VIDEO_KEYFRAME) != 0 <==> holds_keyframe(
            receive_step(v, now).1->0.data,
        ),
{
    let f = first_packet(v.pending)->0.flags;
    assert((f | 4u8) & 4u8 != 0) by (bit_vector);
    assert((f & !4u8) & 4u8 == 0) by (bit_vector);
}

/// What a camera sends, a viewer receives: a packet at the front of the stream is
/// handed on, marked, once video flows or if it is a key frame, and what follows it is
/// next.
pub proof fn law_sent_packet_is_received(
    v: ReceiverView,
    p: PacketView,
    rest: Seq<u8>,
    now: u64,
)
    requires
        v.pending == packet_bytes(p) + rest,
        p.data.len() < 0x1_0000_0000,
        v.started || p.track == MediaTrack::Audio || holds_keyframe(p.data),
    ensures
        receive_step(v, now).1 == ReceiveStepView::Forward(marked(p)),
        receive_step(v, now).0.pending == rest,
        p.track == MediaTrack::Video ==> receive_step(v, now).0.started,
{
    law_packet_roundtrip(p, rest);
}

/// Video before the first key frame is dropped, and what follows it is next, as long as
/// less than five seconds have passed since the first packet of video; the first one
/// starts the clock.
pub proof fn law_video_waits_for_keyframe(
    v: ReceiverView,
    p: PacketView,
    rest: Seq<u8>,
    now: u64,
)
    requires
        v.pending == packet_bytes(p) + rest,
        p.data.len() < 0x1_0000_0000,
        p.track == MediaTrack::Video,
        !v.started,
        !holds_keyframe(p.data),
        v.first_video matches Some(first) ==> now < first + 5_000_000_000,
    ensures
        receive_step(v, now).1 is Dropped,
        receive_step(v, now).0.pending == rest,
        !receive_step(v, now).0.started,
        receive_step(v, now).0.first_video == if v.first_video is Some {
            v.first_video
        } else {
            Some(now)
        },
{
    law_packet_roundtrip(p, rest);
}

/// After five seconds without a key frame video flows all the same.
pub proof fn law_wait_for_keyframe_ends(
    v: ReceiverView,
    p: PacketView,
    rest: Seq<u8>,
    now: u64,
)
    requires
        v.pending == packet_bytes(p) + rest,
        p.data.len() < 0x1_0000_0000,
        p.track == MediaTrack::Video,
        v.first_video matches Some(first) && now >= first + 5_000_000_000,
    ensures
        receive_step(v, now).1 matches ReceiveStepView::Forward(q) && q.data == p.data
            && q.timestamp_ms == p.timestamp_ms && q.track == p.track,
        receive_step(v, now).0.started,
        receive_step(v, now).0.pending == rest,
{
    law_packet_roundtrip(p, rest);
}

/// Audio is handed on unchanged, whether video flows or not, and does not start video.
pub proof fn law_audio_always_flows(v: ReceiverView, p: PacketView, rest: Seq<u8>, now: u64)
    requires
        v.pending == packet_bytes(p) + rest,
        p.data.len() < 0x1_0000_0000,
        p.track == MediaTrack::Audio,
    ensures
        receive_step(v, now).1 == ReceiveStepView::Forward(p),
        receive_step(v, now).0 == (ReceiverView { pending: rest, ..v }),
{
    law_packet_roundtrip(p, rest);
}

/// Marking a packet changes nothing but the key frame flag of video.
pub proof fn law_marking_keeps_the_rest(p: PacketView)
    ensures
        marked(p).track == p.track,
        marked(p).timestamp_ms == p.timestamp_ms,
        marked(p).data == p.data,
        marked(p).flags | FLAG_VIDEO_KEYFRAME == p.flags | FLAG_VIDEO_KEYFRAME,
        p.track == MediaTrack::Audio ==> marked(p).flags == p.flags,
{
    let f = p.flags;
    assert((f | 4u8) | 4u8 == f | 4u8) by (bit_vector);
    assert((f & !4u8) | 4u8 == f | 4u8) by (bit_vector);
}

/// Bytes that are no whole packet yet are kept until more arrive, and nothing else
/// changes.
pub proof fn law_waits_for_whole_packet(v: ReceiverView, now: u64)
    requires
        first_packet(v.pending) is None,
    ensures
        receive_step(v, now).1 is NeedData,
        receive_step(v, now).0 == v,
{
}

} // verus!
