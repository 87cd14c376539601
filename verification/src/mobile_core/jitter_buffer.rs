//! A buffer that evens out the arrival of video and audio.
//!
//! Each track waits until enough is buffered before it starts to play, and skips
//! ahead to a key frame when too much is. Video does not run ahead of audio by more
//! than 50 ms.

use std::collections::VecDeque;

use vstd::prelude::*;

use super::keyframe::{holds_keyframe, is_nal_keyframe};
use crate::byte_buf::bytes_slice;
use crate::proto::media_packet::{MediaPacket, MediaTrack, PacketView};

verus! {

/// How far video may run ahead of audio, in milliseconds.
pub const SYNC_THRESHOLD_MS: i64 = 50;

/// Frames of video that are kept at most.
pub const VIDEO_CAPACITY: usize = 60;

/// Packets of audio that are kept at most.
pub const AUDIO_CAPACITY: usize = 200;

/// The state of one track: what is buffered, the delay aimed at in nanoseconds, how
/// many packets are kept at most, and the timestamp that was last played.
pub struct TrackView {
    pub frames: Seq<PacketView>,
    pub target_delay_ns: nat,
    pub capacity: nat,
    pub last_played: Option<u64>,
}

/// The state of both tracks.
pub struct JitterView {
    pub video: TrackView,
    pub audio: TrackView,
}

/// The views of packets.
pub open spec fn packet_views(packets: Seq<MediaPacket>) -> Seq<PacketView> {
    packets.map_values(|p: MediaPacket| p@)
}

/// Whether the first packet was not captured after the last, so that there is a
/// time between them.
pub open spec fn spans_time(frames: Seq<PacketView>) -> bool {
    frames.len() >= 2 ==> frames[0].timestamp_ms <= frames.last().timestamp_ms
}

/// The time from the first packet to the last, in milliseconds.
pub open spec fn buffered_ms(frames: Seq<PacketView>) -> int {
    if frames.len() < 2 {
        0
    } else {
        frames.last().timestamp_ms - frames[0].timestamp_ms
    }
}

/// The same in nanoseconds.
pub open spec fn buffered_ns(frames: Seq<PacketView>) -> int {
    buffered_ms(frames) * 1_000_000
}

/// The track with one more packet. When it is full, the first packet makes room,
/// unless it holds a key frame: then the last one does.
pub open spec fn pushed(t: TrackView, p: PacketView) -> TrackView {
    let kept = if t.frames.len() >= t.capacity && t.frames.len() > 0 {
        if holds_keyframe(t.frames[0].data) {
            t.frames.drop_last()
        } else {
            t.frames.drop_first()
        }
    } else {
        t.frames
    };
    TrackView { frames: kept.push(p), ..t }
}

/// The packets from the first key frame on.
pub open spec fn from_keyframe(frames: Seq<PacketView>) -> Seq<PacketView>
    decreases frames.len(),
{
    if frames.len() == 0 || holds_keyframe(frames[0].data) {
        frames
    } else {
        from_keyframe(frames.drop_first())
    }
}

/// Whether the track still waits to start playing.
pub open spec fn waits(t: TrackView) -> bool {
    t.frames.len() == 0 || (t.last_played is None && buffered_ns(t.frames) < t.target_delay_ns)
}

/// What can be played next: all that is buffered or, where that is more than twice
/// the delay aimed at, what is left from the first key frame on.
pub open spec fn playable(t: TrackView) -> Seq<PacketView> {
    if buffered_ns(t.frames) > 2 * t.target_delay_ns {
        from_keyframe(t.frames)
    } else {
        t.frames
    }
}

/// The next packet to play.
pub open spec fn next_packet(t: TrackView) -> Option<PacketView> {
    if waits(t) || playable(t).len() == 0 {
        None
    } else {
        Some(playable(t)[0])
    }
}

/// The track after the next packet was taken out.
pub open spec fn after_pop(t: TrackView) -> TrackView {
    if waits(t) {
        t
    } else if playable(t).len() == 0 {
        TrackView { frames: seq![], ..t }
    } else {
        TrackView {
            frames: playable(t).drop_first(),
            last_played: Some(playable(t)[0].timestamp_ms),
            ..t
        }
    }
}

/// A timestamp as a signed 64-bit number.
pub open spec fn as_signed(ts: u64) -> int {
    if ts < 0x8000_0000_0000_0000 {
        ts as int
    } else {
        ts - 0x1_0000_0000_0000_0000
    }
}

/// How far a packet of video is ahead of the audio last played, where both tracks
/// have played already.
pub open spec fn video_lead(j: JitterView) -> Option<int> {
    match (next_packet(j.video), j.video.last_played, j.audio.last_played) {
        (Some(p), Some(_), Some(audio_ts)) => Some(as_signed(p.timestamp_ms) - as_signed(audio_ts)),
        _ => None,
    }
}

/// Whether the next packet of video has to wait for audio to catch up.
pub open spec fn video_held(j: JitterView) -> bool {
    video_lead(j) matches Some(lead) && lead > SYNC_THRESHOLD_MS
}

/// The state after asking for video. What is held back stays at the front.
pub open spec fn after_next_video(j: JitterView) -> JitterView {
    if video_held(j) {
        JitterView { video: TrackView { frames: playable(j.video), ..j.video }, ..j }
    } else {
        JitterView { video: after_pop(j.video), ..j }
    }
}

/// A track with nothing buffered, that has not played.
pub open spec fn cleared(t: TrackView) -> TrackView {
    TrackView { frames: seq![], last_played: None, ..t }
}

struct TrackBuffer {
    frames: VecDeque<MediaPacket>,
    target_delay_ns: u128,
    max_size: usize,
    last_played_ts: Option<u64>,
}

impl TrackBuffer {
    closed spec fn view(&self) -> TrackView {
        TrackView {
            frames: packet_views(self.frames@),
            target_delay_ns: self.target_delay_ns as nat,
            capacity: self.max_size as nat,
            last_played: self.last_played_ts,
        }
    }

    fn new(target_delay_ns: u128, max_size: usize) -> (r: TrackBuffer)
        ensures
            r.view() == (TrackView {
                frames: seq![],
                target_delay_ns: target_delay_ns as nat,
                capacity: max_size as nat,
                last_played: None,
            }),
    {
        let r = TrackBuffer {
            frames: VecDeque::new(),
            target_delay_ns,
            max_size,
            last_played_ts: None,
        };
        assert(packet_views(r.frames@) =~= seq![]);
        r
    }

    fn push(&mut self, packet: MediaPacket)
        ensures
            final(self).view() == pushed(old(self).view(), packet@),
    {
        let ghost before = self.view();
        if self.frames.len() >= self.max_size && self.frames.len() > 0 {
            if is_nal_keyframe(bytes_slice(&self.frames[0].data)) {
                let _ = self.frames.pop_back();
                assert(packet_views(self.frames@) =~= before.frames.drop_last());
            } else {
                let _ = self.frames.pop_front();
                assert(packet_views(self.frames@) =~= before.frames.drop_first());
            }
        }
        self.frames.push_back(packet);
        assert(packet_views(self.frames@) =~= pushed(before, packet@).frames);
    }

    fn pop_next(&mut self) -> (r: Option<MediaPacket>)
        requires
            spans_time(old(self).view().frames),
            delay_doubles(old(self).view()),
        ensures
            final(self).view() == after_pop(old(self).view()),
            match next_packet(old(self).view()) {
                Some(p) => r matches Some(q) && q@ == p,
                None => r is None,
            },
    {
        let ghost before = self.view();
        if self.frames.len() == 0 {
            return None;
        }
        let buffered: u128 = self.buffered_duration() as u128 * 1_000_000;
        if self.last_played_ts.is_none() && buffered < self.target_delay_ns {
            return None;
        }
        if buffered > self.target_delay_ns * 2 {
            while self.frames.len() > 0
                invariant_except_break
                    from_keyframe(packet_views(self.frames@)) == from_keyframe(before.frames),
                    self.view() == (TrackView { frames: packet_views(self.frames@), ..before }),
                ensures
                    packet_views(self.frames@) == from_keyframe(before.frames),
                    self.view() == (TrackView { frames: packet_views(self.frames@), ..before }),
                decreases self.frames@.len(),
            {
                assert(packet_views(self.frames@)[0] == self.frames@[0]@);
                if is_nal_keyframe(bytes_slice(&self.frames[0].data)) {
                    break ;
                }
                let ghost at = packet_views(self.frames@);
                let _ = self.frames.pop_front();
                assert(packet_views(self.frames@) =~= at.drop_first());
            }
        }
        assert(packet_views(self.frames@) == playable(before));
        let ghost rest = packet_views(self.frames@);
        match self.frames.pop_front() {
            Some(packet) => {
                self.last_played_ts = Some(packet.timestamp_ms);
                assert(packet_views(self.frames@) =~= rest.drop_first());
                assert(rest[0] == packet@);
                Some(packet)
            },
            None => {
                assert(packet_views(self.frames@) =~= seq![]);
                None
            },
        }
    }

    fn buffered_duration(&self) -> (r: u64)
        requires
            spans_time(self.view().frames),
        ensures
            r == buffered_ms(self.view().frames),
    {
        if self.frames.len() < 2 {
            return 0;
        }
        let first: u64 = self.frames[0].timestamp_ms;
        let last: u64 = self.frames[self.frames.len() - 1].timestamp_ms;
        last - first
    }

    fn in_order(&self) -> (r: bool)
        ensures
            r == spans_time(self.view().frames),
    {
        self.frames.len() < 2 || self.frames[0].timestamp_ms <= self.frames[self.frames.len()
            - 1].timestamp_ms
    }

    fn clear(&mut self)
        ensures
            final(self).view() == cleared(old(self).view()),
    {
        self.frames.clear();
        self.last_played_ts = None;
        assert(packet_views(self.frames@) =~= seq![]);
    }
}

/// The buffer of both tracks.
pub struct AvJitterBuffer {
    video: TrackBuffer,
    audio: TrackBuffer,
}

impl View for AvJitterBuffer {
    type V = JitterView;

    closed spec fn view(&self) -> JitterView {
        JitterView { video: self.video.view(), audio: self.audio.view() }
    }
}

/// Whether no track holds more than it may.
pub open spec fn within_limits(j: JitterView) -> bool {
    &&& j.video.frames.len() <= j.video.capacity
    &&& j.audio.frames.len() <= j.audio.capacity
    &&& j.video.capacity > 0
    &&& j.audio.capacity > 0
}

/// Whether asking the track for a packet stays within the range of a duration: twice
/// the delay aimed at is one, unless the track still waits.
pub open spec fn delay_doubles(t: TrackView) -> bool {
    !waits(t) ==> t.target_delay_ns * 2 <= max_duration_ns()
}

/// The longest duration, in nanoseconds.
pub open spec fn max_duration_ns() -> int {
    u64::MAX * 1_000_000_000 + 999_999_999
}

impl AvJitterBuffer {
    /// An empty buffer. The delays aimed at are in nanoseconds.
    pub fn new(video_delay_ns: u128, audio_delay_ns: u128) -> (r: AvJitterBuffer)
        requires
            video_delay_ns <= max_duration_ns(),
            audio_delay_ns <= max_duration_ns(),
        ensures
            r@ == (JitterView {
                video: TrackView {
                    frames: seq![],
                    target_delay_ns: video_delay_ns as nat,
                    capacity: VIDEO_CAPACITY as nat,
                    last_played: None,
                },
                audio: TrackView {
                    frames: seq![],
                    target_delay_ns: audio_delay_ns as nat,
                    capacity: AUDIO_CAPACITY as nat,
                    last_played: None,
                },
            }),
            within_limits(r@),
    {
        AvJitterBuffer {
            video: TrackBuffer::new(video_delay_ns, VIDEO_CAPACITY),
            audio: TrackBuffer::new(audio_delay_ns, AUDIO_CAPACITY),
        }
    }

    /// Takes in a packet.
    pub fn push(&mut self, packet: MediaPacket)
        ensures
            final(self)@ == match packet.track {
                MediaTrack::Video => JitterView {
                    video: pushed(old(self)@.video, packet@),
                    ..old(self)@
                },
                MediaTrack::Audio => JitterView {
                    audio: pushed(old(self)@.audio, packet@),
                    ..old(self)@
                },
            },
            within_limits(old(self)@) ==> within_limits(final(self)@),
    {
        match packet.track {
            MediaTrack::Video => self.video.push(packet),
            MediaTrack::Audio => self.audio.push(packet),
        }
    }

    /// The next packet of video, if it is time for one. Once both tracks have
    /// played, a packet that would run too far ahead of audio is held back.
    pub fn next_video(&mut self) -> (r: Option<MediaPacket>)
        requires
            spans_time(old(self)@.video.frames),
            delay_doubles(old(self)@.video),
            video_lead(old(self)@) matches Some(lead) ==> i64::MIN <= lead <= i64::MAX,
        ensures
            final(self)@ == after_next_video(old(self)@),
            match next_packet(old(self)@.video) {
                Some(p) => if video_held(old(self)@) {
                    r is None
                } else {
                    r matches Some(q) && q@ == p
                },
                None => r is None,
            },
            within_limits(old(self)@) ==> within_limits(final(self)@),
    {
        let ghost before = self@;
        proof {
            lemma_from_keyframe_len(before.video.frames);
        }
        let played = self.video.last_played_ts;
        let video = match self.video.pop_next() {
            Some(p) => p,
            None => {
                return None;
            },
        };
        if played.is_some() {
            if let Some(audio_ts) = self.audio.last_played_ts {
                let diff: i64 = signed(video.timestamp_ms) - signed(audio_ts);
                if diff > SYNC_THRESHOLD_MS {
                    let ghost rest = packet_views(self.video.frames@);
                    self.video.frames.push_front(video);
                    self.video.last_played_ts = played;
                    proof {
                        assert(packet_views(self.video.frames@) =~= seq![video@] + rest);
                        assert(rest == playable(before.video).drop_first());
                        assert(seq![video@] + rest =~= playable(before.video));
                    }
                    return None;
                }
            }
        }
        Some(video)
    }

    /// The next packet of audio, if it is time for one.
    pub fn next_audio(&mut self) -> (r: Option<MediaPacket>)
        requires
            spans_time(old(self)@.audio.frames),
            delay_doubles(old(self)@.audio),
        ensures
            final(self)@ == (JitterView { audio: after_pop(old(self)@.audio), ..old(self)@ }),
            match next_packet(old(self)@.audio) {
                Some(p) => r matches Some(q) && q@ == p,
                None => r is None,
            },
            within_limits(old(self)@) ==> within_limits(final(self)@),
    {
        proof {
            lemma_from_keyframe_len(self@.audio.frames);
        }
        self.audio.pop_next()
    }

    /// Whether the video that is buffered spans a time, so that it can be played.
    pub fn video_in_order(&self) -> (r: bool)
        ensures
            r == spans_time(self@.video.frames),
    {
        self.video.in_order()
    }

    /// Whether the audio that is buffered spans a time, so that it can be played.
    pub fn audio_in_order(&self) -> (r: bool)
        ensures
            r == spans_time(self@.audio.frames),
    {
        self.audio.in_order()
    }

    /// How much video is buffered, in milliseconds.
    pub fn video_buffered(&self) -> (r: u64)
        requires
            spans_time(self@.video.frames),
        ensures
            r == buffered_ms(self@.video.frames),
    {
        self.video.buffered_duration()
    }

    /// How much audio is buffered, in milliseconds.
    pub fn audio_buffered(&self) -> (r: u64)
        requires
            spans_time(self@.audio.frames),
        ensures
            r == buffered_ms(self@.audio.frames),
    {
        self.audio.buffered_duration()
    }

    /// Whether video plays already or enough is buffered to start.
    pub fn video_ready(&self) -> (r: bool)
        requires
            self@.video.last_played is None ==> spans_time(self@.video.frames),
        ensures
            r == (self@.video.last_played is Some || buffered_ns(self@.video.frames)
                >= self@.video.target_delay_ns),
    {
        self.video.last_played_ts.is_some() || self.video.buffered_duration() as u128 * 1_000_000
            >= self.video.target_delay_ns
    }

    /// Drops all that is buffered and starts anew, as after a reconnect.
    pub fn clear(&mut self)
        ensures
            final(self)@ == (JitterView {
                video: cleared(old(self)@.video),
                audio: cleared(old(self)@.audio),
            }),
            within_limits(old(self)@) ==> within_limits(final(self)@),
    {
        self.video.clear();
        self.audio.clear();
    }
}

fn signed(ts: u64) -> (r: i64)
    ensures
        r == as_signed(ts),
{
    if ts < 0x8000_0000_0000_0000 {
        ts as i64
    } else {
        -((u64::MAX - ts) as i64) - 1
    }
}

proof fn lemma_from_keyframe_len(frames: Seq<PacketView>)
    ensures
        from_keyframe(frames).len() <= frames.len(),
        from_keyframe(frames).len() > 0 ==> holds_keyframe(from_keyframe(frames)[0].data),
        from_keyframe(frames) == frames.skip(frames.len() - from_keyframe(frames).len()),
    decreases frames.len(),
{
    if frames.len() == 0 || holds_keyframe(frames[0].data) {
        assert(frames.skip(0) =~= frames);
    } else {
        lemma_from_keyframe_len(frames.drop_first());
        let n = from_keyframe(frames).len();
        assert(frames.drop_first().skip(frames.len() - 1 - n) =~= frames.skip(frames.len() - n));
    }
}

/// A key frame at the front is never dropped to make room.
pub proof fn law_keyframe_kept(t: TrackView, p: PacketView)
    requires
        t.capacity >= 2,
        t.frames.len() > 0,
        holds_keyframe(t.frames[0].data),
        t.frames.len() <= t.capacity,
    ensures
        pushed(t, p).frames[0] == t.frames[0],
        pushed(t, p).frames.len() <= t.capacity,
{
}

/// When playback skips ahead, it resumes at a key frame: what is played next needs
/// no packet that was dropped.
pub proof fn law_skip_resumes_at_keyframe(t: TrackView)
    requires
        next_packet(t) is Some,
        buffered_ns(t.frames) > 2 * t.target_delay_ns,
    ensures
        holds_keyframe(next_packet(t)->0.data),
{
    lemma_from_keyframe_len(t.frames);
}

/// Packets are played in the order in which they came: the next one and those left
/// after it are the end of what was buffered.
pub proof fn law_plays_in_order(t: TrackView)
    requires
        next_packet(t) is Some,
    ensures
        ({
            let rest = seq![next_packet(t)->0] + after_pop(t).frames;
            &&& rest.len() <= t.frames.len()
            &&& rest == t.frames.skip(t.frames.len() - rest.len())
        }),
{
    lemma_from_keyframe_len(t.frames);
    let rest = seq![next_packet(t)->0] + after_pop(t).frames;
    assert(rest =~= playable(t));
    assert(t.frames.skip(0) =~= t.frames);
}

/// Once both tracks have played, video that is handed out is at most 50 ms ahead of
/// the audio last played.
pub proof fn law_video_not_ahead(j: JitterView)
    requires
        j.video.last_played is Some,
        j.audio.last_played is Some,
        next_packet(j.video) is Some,
        !video_held(j),
    ensures
        as_signed(next_packet(j.video)->0.timestamp_ms) - as_signed(j.audio.last_played->0)
            <= SYNC_THRESHOLD_MS,
{
}

/// Video that is held back is not lost: the same packet comes next again.
pub proof fn law_held_video_comes_again(j: JitterView)
    requires
        video_held(j),
    ensures
        after_next_video(j).video.frames.len() > 0,
        after_next_video(j).video.frames[0] == next_packet(j.video)->0,
        after_next_video(j).video.last_played == j.video.last_played,
{
}

/// After a reconnect each track waits again until enough is buffered.
pub proof fn law_cleared_waits(t: TrackView)
    ensures
        waits(cleared(t)),
        next_packet(cleared(t)) is None,
{
}

/// Timestamps of less than 2^63 milliseconds can always be compared.
pub proof fn law_small_timestamps_compare(j: JitterView)
    requires
        forall|i: int|
            0 <= i < j.video.frames.len() ==> (#[trigger] j.video.frames[i]).timestamp_ms
                < 0x8000_0000_0000_0000,
        j.audio.last_played matches Some(ts) ==> ts < 0x8000_0000_0000_0000,
    ensures
        video_lead(j) matches Some(lead) ==> i64::MIN <= lead <= i64::MAX,
{
    if next_packet(j.video) is Some {
        lemma_from_keyframe_len(j.video.frames);
        let n = j.video.frames.len() - playable(j.video).len();
        assert(j.video.frames.skip(0) =~= j.video.frames);
        assert(playable(j.video)[0] == j.video.frames[n]);
    }
}

/// A track that has not played hands out nothing, and loses nothing, while the time from
/// its first to its last packet is less than the delay aimed at, whatever the packets
/// hold.
pub proof fn law_start_waits_for_delay(t: TrackView)
    requires
        t.last_played is None,
        t.frames.len() >= 2,
        (t.frames.last().timestamp_ms - t.frames[0].timestamp_ms) * 1_000_000 < t.target_delay_ns,
    ensures
        next_packet(t) is None,
        after_pop(t) == t,
{
}

/// A single packet spans no time: a track that has not played keeps it back, unless no
/// delay is aimed at.
pub proof fn law_single_packet_waits(t: TrackView)
    requires
        t.last_played is None,
        t.frames.len() == 1,
    ensures
        next_packet(t) is None <==> t.target_delay_ns > 0,
        t.target_delay_ns > 0 ==> after_pop(t) == t,
{
}

/// Nothing is handed out of an empty track, and it stays as it is.
pub proof fn law_empty_track(t: TrackView)
    requires
        t.frames.len() == 0,
    ensures
        next_packet(t) is None,
        after_pop(t) == t,
{
}

/// Once a track plays, or spans the delay aimed at, the packet that came first is played
/// and leaves, as long as no more than twice the delay is buffered. Its timestamp is
/// remembered and nothing else changes.
pub proof fn law_first_packet_plays(t: TrackView)
    requires
        t.frames.len() > 0,
        ({
            let span = if t.frames.len() == 1 {
                0
            } else {
                (t.frames.last().timestamp_ms - t.frames[0].timestamp_ms) * 1_000_000
            };
            (t.last_played is Some || span >= t.target_delay_ns) && span <= 2 * t.target_delay_ns
        }),
    ensures
        next_packet(t) == Some(t.frames[0]),
        after_pop(t).frames == t.frames.skip(1),
        after_pop(t).last_played == Some(t.frames[0].timestamp_ms),
        after_pop(t).target_delay_ns == t.target_delay_ns,
        after_pop(t).capacity == t.capacity,
{
    assert(t.frames.drop_first() =~= t.frames.skip(1));
}

/// Where more than twice the delay is buffered, what precedes the first key frame is
/// dropped, the key frame plays, and what follows it stays. Without a key frame all is
/// dropped and nothing plays.
pub proof fn law_skips_to_first_keyframe(t: TrackView, i: int)
    requires
        t.frames.len() >= 2,
        (t.frames.last().timestamp_ms - t.frames[0].timestamp_ms) * 1_000_000 > 2
            * t.target_delay_ns,
        0 <= i <= t.frames.len(),
        forall|k: int| 0 <= k < i ==> !holds_keyframe((#[trigger] t.frames[k]).data),
        i < t.frames.len() ==> holds_keyframe(t.frames[i].data),
    ensures
        i < t.frames.len() ==> {
            &&& next_packet(t) == Some(t.frames[i])
            &&& after_pop(t).frames == t.frames.skip(i + 1)
            &&& after_pop(t).last_played == Some(t.frames[i].timestamp_ms)
        },
        i == t.frames.len() ==> {
            &&& next_packet(t) is None
            &&& after_pop(t).frames.len() == 0
            &&& after_pop(t).last_played == t.last_played
        },
        after_pop(t).target_delay_ns == t.target_delay_ns,
        after_pop(t).capacity == t.capacity,
{
    lemma_from_first_keyframe(t.frames, i);
    if i < t.frames.len() {
        assert(t.frames.skip(i).drop_first() =~= t.frames.skip(i + 1));
    }
}

proof fn lemma_from_first_keyframe(frames: Seq<PacketView>, i: int)
    requires
        0 <= i <= frames.len(),
        forall|k: int| 0 <= k < i ==> !holds_keyframe((#[trigger] frames[k]).data),
        i < frames.len() ==> holds_keyframe(frames[i].data),
    ensures
        from_keyframe(frames) == frames.skip(i),
    decreases frames.len(),
{
    if i == 0 {
        assert(frames.skip(0) =~= frames);
    } else {
        let rest = frames.drop_first();
        assert(!holds_keyframe(frames[0].data));
        assert forall|k: int| 0 <= k < i - 1 implies !holds_keyframe((#[trigger] rest[k]).data) by {
            assert(rest[k] == frames[k + 1]);
        }
        lemma_from_first_keyframe(rest, i - 1);
        assert(rest.skip(i - 1) =~= frames.skip(i));
    }
}

/// A packet that arrives comes last. While there is room nothing is dropped for it; a
/// full track gives up its first packet or, where that holds a key frame, its last.
/// Arrival neither starts nor stops playback.
pub proof fn law_arrival(t: TrackView, p: PacketView)
    requires
        t.capacity > 0,
        t.frames.len() <= t.capacity,
    ensures
        ({
            let now = pushed(t, p);
            let n = t.frames.len() as int;
            &&& now.frames.len() > 0
            &&& now.frames.last() == p
            &&& n < t.capacity ==> now.frames.len() == n + 1 && now.frames.take(n) == t.frames
            &&& n == t.capacity && !holds_keyframe(t.frames[0].data) ==> now.frames.len() == n
                && now.frames.take(n - 1) == t.frames.skip(1)
            &&& n == t.capacity && holds_keyframe(t.frames[0].data) ==> now.frames.len() == n
                && now.frames.take(n - 1) == t.frames.take(n - 1)
            &&& now.last_played == t.last_played
            &&& now.target_delay_ns == t.target_delay_ns
            &&& now.capacity == t.capacity
        }),
{
    let now = pushed(t, p);
    let n = t.frames.len() as int;
    if n < t.capacity {
        assert(now.frames.take(n) =~= t.frames);
    } else if holds_keyframe(t.frames[0].data) {
        assert(now.frames.take(n - 1) =~= t.frames.take(n - 1));
    } else {
        assert(now.frames.take(n - 1) =~= t.frames.skip(1));
    }
}

/// Video is held back exactly where both tracks have played and its next packet is more
/// than 50 ms ahead of the audio last played: said of timestamps of less than 2^63.
pub proof fn law_video_held_back(j: JitterView)
    requires
        next_packet(j.video) matches Some(p) ==> p.timestamp_ms < 0x8000_0000_0000_0000,
        j.audio.last_played matches Some(ts) ==> ts < 0x8000_0000_0000_0000,
    ensures
        video_held(j) <==> j.video.last_played is Some && (j.audio.last_played matches Some(ts) && (
        next_packet(j.video) matches Some(p) && p.timestamp_ms > ts + 50)),
{
}

/// Asking for video leaves audio alone; where video is not held back it is played as the
/// track alone would play it.
pub proof fn law_video_leaves_audio(j: JitterView)
    ensures
        after_next_video(j).audio == j.audio,
        !video_held(j) ==> after_next_video(j).video == after_pop(j.video),
        video_held(j) ==> after_next_video(j).video.last_played == j.video.last_played
            && after_next_video(j).video.capacity == j.video.capacity
            && after_next_video(j).video.target_delay_ns == j.video.target_delay_ns,
{
}

/// A packet of video that is held back is kept with all that follows it.
pub proof fn law_held_video_is_kept(j: JitterView)
    requires
        video_held(j),
    ensures
        after_next_video(j).video.frames == seq![next_packet(j.video)->0] + after_pop(
            j.video,
        ).frames,
{
    assert(playable(j.video) =~= seq![playable(j.video)[0]] + playable(j.video).drop_first());
}

/// After a reconnect nothing is buffered and nothing has played; the delay and the limit
/// stay.
pub proof fn law_clear_starts_anew(t: TrackView)
    ensures
        cleared(t).frames.len() == 0,
        cleared(t).last_played is None,
        cleared(t).target_delay_ns == t.target_delay_ns,
        cleared(t).capacity == t.capacity,
{
}

/// What is buffered is measured from the first packet to the last.
pub proof fn law_buffered_time(frames: Seq<PacketView>)
    ensures
        frames.len() <= 1 ==> buffered_ms(frames) == 0,
        frames.len() > 1 ==> frames[0].timestamp_ms + buffered_ms(frames)
            == frames[frames.len() - 1].timestamp_ms,
        buffered_ns(frames) == 1000 * (1000 * buffered_ms(frames)),
{
}

} // verus!
