//! Sending video and audio to a viewer.

use vstd::prelude::*;

use crate::text::str_eq;

verus! {

broadcast use vstd::string::group_string_axioms;

/// A write that takes longer than this is slow, in milliseconds.
pub const WRITE_SLOW_THRESHOLD_MS: u64 = 100;

/// A write that takes longer than this is held up, in milliseconds.
pub const WRITE_STALL_THRESHOLD_MS: u64 = 500;

/// A write that takes longer than this is given up, in seconds. Writes of several
/// seconds are normal across networks.
pub const WRITE_TIMEOUT_SECS: u64 = 15;

/// After so many frames there is a report.
pub const REPORT_INTERVAL: u64 = 100;

/// The encoder channel that a stream comes from.
pub open spec fn channel_of(stream_name: Seq<char>) -> u8 {
    if stream_name == "sub"@ {
        1
    } else if stream_name == "third"@ {
        2
    } else {
        0
    }
}

/// The encoder channel that a stream comes from: the main one, unless it is the sub
/// or the third stream.
pub fn idr_channel(stream_name: &str) -> (r: u8)
    ensures
        r == channel_of(stream_name@),
{
    if str_eq(stream_name, "sub") {
        1
    } else if str_eq(stream_name, "third") {
        2
    } else {
        0
    }
}

/// How long a write took.
#[derive(Debug, Clone, Copy, PartialEq, Eq, Structural)]
pub enum WriteSpeed {
    Normal,
    /// The relay is congested, or the viewer is slow.
    Slow,
    /// Something holds it up, such as hole punching.
    Stalled,
}

/// How long a write took.
pub open spec fn speed_of(write_ms: u64) -> WriteSpeed {
    if write_ms > WRITE_STALL_THRESHOLD_MS {
        WriteSpeed::Stalled
    } else if write_ms > WRITE_SLOW_THRESHOLD_MS {
        WriteSpeed::Slow
    } else {
        WriteSpeed::Normal
    }
}

/// What happens while video is sent.
#[derive(Debug, Clone, Copy, PartialEq, Eq, Structural)]
pub enum SendEvent {
    /// A packet of so many bytes was written in so many milliseconds.
    Written { len: u64, write_ms: u64 },
    /// A write has failed: the stream is dead.
    WriteFailed,
    /// A write has taken too long.
    WriteTimedOut,
    /// So many packets were lost because the sender was too slow.
    Lagged(u64),
    /// There is no more video.
    SourceClosed,
}

/// What to do next.
#[derive(Debug, Clone, Copy, PartialEq, Eq, Structural)]
pub enum SendAction {
    /// Take the next packet.
    Continue { speed: WriteSpeed, report: bool },
    /// Drop the packet but keep the connection: closing it would make the viewer
    /// connect again and again.
    DropFrame,
    /// Ask the encoder for a key frame, then take the next packet: what was lost may
    /// be needed to decode what follows.
    RequestIdr { chn: u8 },
    /// Close the stream.
    Stop,
}

/// Sends one stream to one viewer.
#[derive(Debug, Clone, Copy, PartialEq, Eq, Structural)]
pub struct VideoSender {
    /// The encoder channel that the stream comes from.
    pub chn: u8,
    pub frame_count: u64,
    pub bytes_sent: u64,
    pub lagged_count: u64,
    pub dropped_count: u64,
    pub stopped: bool,
}

/// What an event leads to.
pub open spec fn send_step(s: VideoSender, event: SendEvent) -> (VideoSender, SendAction) {
    match event {
        SendEvent::Written { len, write_ms } => {
            let frames = (s.frame_count + 1) as u64;
            (
                VideoSender {
                    frame_count: frames,
                    bytes_sent: (s.bytes_sent + len) as u64,
                    ..s
                },
                SendAction::Continue {
                    speed: speed_of(write_ms),
                    report: frames % REPORT_INTERVAL == 0,
                },
            )
        },
        SendEvent::WriteFailed => (VideoSender { stopped: true, ..s }, SendAction::Stop),
        SendEvent::WriteTimedOut => (
            VideoSender { dropped_count: (s.dropped_count + 1) as u64, ..s },
            SendAction::DropFrame,
        ),
        SendEvent::Lagged(n) => (
            VideoSender { lagged_count: (s.lagged_count + n) as u64, ..s },
            SendAction::RequestIdr { chn: s.chn },
        ),
        SendEvent::SourceClosed => (VideoSender { stopped: true, ..s }, SendAction::Stop),
    }
}

/// Whether no counter overflows on an event.
pub open spec fn send_counts_fit(s: VideoSender, event: SendEvent) -> bool {
    match event {
        SendEvent::Written { len, write_ms } => s.frame_count < u64::MAX && s.bytes_sent + len
            <= u64::MAX,
        SendEvent::WriteTimedOut => s.dropped_count < u64::MAX,
        SendEvent::Lagged(n) => s.lagged_count + n <= u64::MAX,
        _ => true,
    }
}

impl VideoSender {
    /// Begins to send a stream. A key frame is to be asked of the encoder channel in
    /// the result at once: the viewer cannot decode anything before one.
    pub fn new(stream_name: &str) -> (r: VideoSender)
        ensures
            r == (VideoSender {
                chn: channel_of(stream_name@),
                frame_count: 0,
                bytes_sent: 0,
                lagged_count: 0,
                dropped_count: 0,
                stopped: false,
            }),
    {
        VideoSender {
            chn: idr_channel(stream_name),
            frame_count: 0,
            bytes_sent: 0,
            lagged_count: 0,
            dropped_count: 0,
            stopped: false,
        }
    }

    /// Takes in an event and says what to do next.
    pub fn step(&mut self, event: SendEvent) -> (r: SendAction)
        requires
            send_counts_fit(*old(self), event),
        ensures
            (*final(self), r) == send_step(*old(self), event),
    {
        match event {
            SendEvent::Written { len, write_ms } => {
                self.frame_count = self.frame_count + 1;
                self.bytes_sent = self.bytes_sent + len;
                let speed = if write_ms > WRITE_STALL_THRESHOLD_MS {
                    WriteSpeed::Stalled
                } else if write_ms > WRITE_SLOW_THRESHOLD_MS {
                    WriteSpeed::Slow
                } else {
                    WriteSpeed::Normal
                };
                SendAction::Continue { speed, report: self.frame_count % REPORT_INTERVAL == 0 }
            },
            SendEvent::WriteFailed => {
                self.stopped = true;
                SendAction::Stop
            },
            SendEvent::WriteTimedOut => {
                self.dropped_count = self.dropped_count + 1;
                SendAction::DropFrame
            },
            SendEvent::Lagged(n) => {
                self.lagged_count = self.lagged_count + n;
                SendAction::RequestIdr { chn: self.chn }
            },
            SendEvent::SourceClosed => {
                self.stopped = true;
                SendAction::Stop
            },
        }
    }
}

/// Whether audio goes on after an event: lost packets do not matter, and a write that
/// fails or the end of the source stops it.
pub fn audio_continues(event: SendEvent) -> (r: bool)
    ensures
        r == !(event == SendEvent::WriteFailed || event == SendEvent::SourceClosed),
{
    match event {
        SendEvent::WriteFailed => false,
        SendEvent::SourceClosed => false,
        _ => true,
    }
}

/// The stream is closed only when a write has failed or the source is: a write that
/// takes too long costs a frame, never the connection.
pub proof fn law_slow_viewer_is_kept(s: VideoSender, event: SendEvent)
    requires
        !s.stopped,
    ensures
        send_step(s, event).0.stopped <==> event == SendEvent::WriteFailed || event
            == SendEvent::SourceClosed,
        send_step(s, event).1 == SendAction::Stop <==> send_step(s, event).0.stopped,
{
}

/// After packets were lost a key frame is asked of the stream's own channel.
pub proof fn law_loss_requests_keyframe(s: VideoSender, lost: u64)
    ensures
        send_step(s, SendEvent::Lagged(lost)).1 == (SendAction::RequestIdr { chn: s.chn }),
{
}

/// A frame that was written is counted with its bytes, is slow from more than 100 ms and
/// stalled from more than 500 ms on, and every hundredth one is reported.
pub proof fn law_written_frame_counts(s: VideoSender, len: u64, write_ms: u64)
    requires
        s.frame_count < u64::MAX,
        s.bytes_sent + len <= u64::MAX,
    ensures
        ({
            let (now, action) = send_step(s, SendEvent::Written { len, write_ms });
            &&& now.frame_count == s.frame_count + 1
            &&& now.bytes_sent == s.bytes_sent + len
            &&& now == (VideoSender {
                frame_count: now.frame_count,
                bytes_sent: now.bytes_sent,
                ..s
            })
            &&& action matches SendAction::Continue { speed, report } && (report <==> (s.frame_count
                + 1) % 100 == 0) && (speed == WriteSpeed::Normal <==> write_ms <= 100) && (speed
                == WriteSpeed::Slow <==> 100 < write_ms <= 500) && (speed == WriteSpeed::Stalled
                <==> write_ms > 500)
        }),
{
}

/// A frame that could not be written in time is dropped and counted, and packets that
/// were missed are counted, one by one; neither stops the stream nor counts as sent.
pub proof fn law_lost_frames_count(s: VideoSender, lost: u64)
    requires
        s.dropped_count < u64::MAX,
        s.lagged_count + lost <= u64::MAX,
    ensures
        send_step(s, SendEvent::WriteTimedOut).1 == SendAction::DropFrame,
        send_step(s, SendEvent::WriteTimedOut).0 == (VideoSender {
            dropped_count: (s.dropped_count + 1) as u64,
            ..s
        }),
        send_step(s, SendEvent::Lagged(lost)).0 == (VideoSender {
            lagged_count: (s.lagged_count + lost) as u64,
            ..s
        }),
        send_step(s, SendEvent::WriteFailed).0 == (VideoSender { stopped: true, ..s }),
        send_step(s, SendEvent::SourceClosed).0 == (VideoSender { stopped: true, ..s }),
{
}

/// Key frames are asked of the channel that the stream is sent from: 0 for the main
/// stream and unknown ones, 1 for `sub`, 2 for `third`.
pub proof fn law_channels_of_streams(stream_name: Seq<char>)
    ensures
        channel_of(stream_name) == 1 <==> stream_name == "sub"@,
        channel_of(stream_name) == 2 <==> stream_name == "third"@,
        channel_of(stream_name) <= 2,
{
    reveal_strlit("sub");
    reveal_strlit("third");
    assert("sub"@.len() == 3 && "third"@.len() == 5);
}

} // verus!
