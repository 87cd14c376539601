//! Video from a file and silence for audio.

use vstd::prelude::*;

use super::h265::{
    access_units, byte_views, first_nal, first_nal_in_au, is_param_set, joined, law_first_unit,
    law_joined_units_split_again, law_unit_type, nal_type, nal_units, no_code_in,
    split_h265_access_units, type_of, with_code, NAL_PPS, NAL_SPS, NAL_VPS,
};
use crate::byte_buf::{bytes_contents, bytes_from_vec};
use crate::proto::media_packet::{MediaPacket, MediaTrack, PacketView, AUDIO_CODEC_PCM};

verus! {

/// The time from one frame of video to the next, in milliseconds.
pub const FRAME_INTERVAL_MS: u64 = 40;

/// The time from one frame of audio to the next, in milliseconds.
pub const AUDIO_INTERVAL_MS: u64 = 20;

/// How many frames of audio there are in a second.
pub const AUDIO_FRAMES_PER_SECOND: u32 = 50;

/// The parameter sets after one more was seen: it takes the place of the one of its
/// type, and comes last.
pub open spec fn with_param_set(sets: Seq<Seq<u8>>, nal: Seq<u8>) -> Seq<Seq<u8>> {
    without_type(sets, type_of(nal)).push(nal)
}

/// The units that are not of a type.
pub open spec fn without_type(sets: Seq<Seq<u8>>, t: u8) -> Seq<Seq<u8>>
    decreases sets.len(),
{
    if sets.len() == 0 {
        seq![]
    } else if type_of(sets.last()) == t {
        without_type(sets.drop_last(), t)
    } else {
        without_type(sets.drop_last(), t).push(sets.last())
    }
}

/// The first unit of an access unit; an empty one, where there is none.
pub open spec fn leading_nal(au: Seq<u8>) -> Seq<u8> {
    match first_nal(au) {
        Some(nal) => nal,
        None => seq![],
    }
}

/// Parameter sets, perhaps none.
pub open spec fn sets_view(sets: Option<Vec<Vec<u8>>>) -> Option<Seq<Seq<u8>>> {
    match sets {
        Some(v) => Some(byte_views(v@)),
        None => None,
    }
}

/// The parameter sets after an access unit was sent.
pub open spec fn sets_after(sets: Option<Seq<Seq<u8>>>, au: Seq<u8>) -> Option<Seq<Seq<u8>>> {
    if is_param_set(type_of(leading_nal(au))) {
        Some(
            with_param_set(
                match sets {
                    Some(v) => v,
                    None => seq![],
                },
                leading_nal(au),
            ),
        )
    } else {
        sets
    }
}

/// Plays a file over and over.
pub struct FileVideoSource {
    nal_units: Vec<Vec<u8>>,
    current: usize,
    latest_param_sets: Option<Vec<Vec<u8>>>,
}

impl FileVideoSource {
    /// The access units of the file.
    pub closed spec fn frames(&self) -> Seq<Seq<u8>> {
        byte_views(self.nal_units@)
    }

    /// Which of them comes next.
    pub closed spec fn position(&self) -> int {
        self.current as int
    }

    /// The parameter sets that were sent last.
    pub closed spec fn param_sets(&self) -> Option<Seq<Seq<u8>>> {
        sets_view(self.latest_param_sets)
    }

    /// The next access unit is one of the file's.
    pub closed spec fn wf(&self) -> bool {
        self.nal_units@.len() > 0 ==> self.current < self.nal_units@.len()
    }

    /// Plays a file of H.265.
    pub fn from_file(data: &[u8]) -> (r: FileVideoSource)
        ensures
            r.wf(),
            r.frames() == access_units(data@),
            r.position() == 0,
            r.param_sets() is None,
    {
        FileVideoSource {
            nal_units: split_h265_access_units(data),
            current: 0,
            latest_param_sets: None,
        }
    }

    /// The parameter sets that were sent last: a new viewer needs them to decode what
    /// follows.
    pub fn param_sets_handle(&self) -> (r: &Option<Vec<Vec<u8>>>)
        ensures
            sets_view(*r) == self.param_sets(),
    {
        &self.latest_param_sets
    }

    /// The next access unit; after the last comes the first again.
    pub fn next_frame(&mut self) -> (r: Vec<u8>)
        requires
            old(self).wf(),
        ensures
            final(self).wf(),
            final(self).frames() == old(self).frames(),
            final(self).param_sets() == old(self).param_sets(),
            old(self).frames().len() == 0 ==> r@.len() == 0 && final(self).position() == old(
                self).position(),
            old(self).frames().len() > 0 ==> {
                &&& 0 <= old(self).position() < old(self).frames().len()
                &&& r@ == old(self).frames()[old(self).position()]
                &&& final(self).position() == (old(self).position() + 1) % old(
                    self).frames().len() as int
            },
    {
        if self.nal_units.len() == 0 {
            return Vec::new();
        }
        let frame = vstd::slice::slice_to_vec(self.nal_units[self.current].as_slice());
        let n: usize = self.nal_units.len();
        proof {
            assert(self.current + 1 == n ==> (self.current + 1) % n as int == 0) by (nonlinear_arith)
                requires
                    n > 0,
            ;
            assert(self.current + 1 < n ==> (self.current + 1) % n as int == self.current + 1)
                by (nonlinear_arith)
                requires
                    n > 0,
            ;
        }
        self.current = if self.current + 1 == n {
            0
        } else {
            self.current + 1
        };
        frame
    }

    fn note_param_set(&mut self, nal: &[u8])
        ensures
            final(self).param_sets() == Some(
                with_param_set(
                    match old(self).param_sets() {
                        Some(v) => v,
                        None => seq![],
                    },
                    nal@,
                ),
            ),
            final(self).nal_units == old(self).nal_units,
            final(self).current == old(self).current,
    {
        let t: u8 = nal_type(nal);
        let mut kept: Vec<Vec<u8>> = Vec::new();
        assert(byte_views(kept@) =~= seq![]);
        if let Some(sets) = &self.latest_param_sets {
            kept = keep_other_types(sets, t);
        }
        let ghost before = kept@;
        kept.push(vstd::slice::slice_to_vec(nal));
        assert(byte_views(kept@) =~= byte_views(before).push(nal@));
        self.latest_param_sets = Some(kept);
    }

    /// The next packet of video, at the time `timestamp_ms`; none, where the file
    /// has none.
    pub fn next_packet(&mut self, timestamp_ms: u64) -> (r: Option<MediaPacket>)
        requires
            old(self).wf(),
        ensures
            final(self).wf(),
            final(self).frames() == old(self).frames(),
            ({
                let none = old(self).frames().len() == 0 || old(self).frames()[old(
                    self).position()].len() == 0;
                let au = old(self).frames()[old(self).position()];
                &&& r is None <==> none
                &&& none ==> final(self).param_sets() == old(self).param_sets()
                &&& !none ==> {
                    &&& r matches Some(p) && p@ == (PacketView {
                        track: MediaTrack::Video,
                        timestamp_ms,
                        flags: 0,
                        data: au,
                    })
                    &&& final(self).param_sets() == sets_after(old(self).param_sets(), au)
                }
            }),
            old(self).frames().len() > 0 ==> final(self).position() == (old(self).position() + 1)
                % old(self).frames().len() as int,
    {
        let data = self.next_frame();
        if data.len() == 0 {
            return None;
        }
        let ghost au = data@;
        if let Some(nal) = first_nal_in_au(data.as_slice()) {
            let t: u8 = nal_type(nal);
            if t == NAL_VPS || t == NAL_SPS || t == NAL_PPS {
                self.note_param_set(nal);
            }
        }
        Some(MediaPacket::video(timestamp_ms, bytes_from_vec(data)))
    }
}

fn keep_other_types(sets: &Vec<Vec<u8>>, t: u8) -> (r: Vec<Vec<u8>>)
    ensures
        byte_views(r@) == without_type(byte_views(sets@), t),
{
    let ghost views = byte_views(sets@);
    let mut kept: Vec<Vec<u8>> = Vec::new();
    let mut i: usize = 0;
    assert(views.take(0) =~= seq![]);
    assert(byte_views(kept@) =~= seq![]);
    while i < sets.len()
        invariant
            i <= sets@.len(),
            views == byte_views(sets@),
            byte_views(kept@) == without_type(views.take(i as int), t),
        decreases sets@.len() - i,
    {
        let ghost before = kept@;
        proof {
            assert(views.take(i as int + 1).drop_last() =~= views.take(i as int));
            assert(views.take(i as int + 1).last() == sets@[i as int]@);
        }
        if nal_type(sets[i].as_slice()) != t {
            kept.push(vstd::slice::slice_to_vec(sets[i].as_slice()));
            assert(byte_views(kept@) =~= byte_views(before).push(sets@[i as int]@));
        }
        i += 1;
    }
    assert(views.take(views.len() as int) =~= views);
    kept
}

/// Silence in PCM, 16 bits.
#[derive(Debug, Clone, Copy, PartialEq, Eq, Structural)]
pub struct SilenceAudioSource {
    pub sample_rate: u32,
    pub channels: u8,
}

/// How many bytes a frame of silence has: 20 ms of samples, two bytes each, for each
/// channel.
pub open spec fn silence_len(s: SilenceAudioSource) -> nat {
    (s.sample_rate as nat / AUDIO_FRAMES_PER_SECOND as nat) * s.channels as nat * 2
}

impl SilenceAudioSource {
    pub fn new(sample_rate: u32, channels: u8) -> (r: SilenceAudioSource)
        ensures
            r == (SilenceAudioSource { sample_rate, channels }),
    {
        SilenceAudioSource { sample_rate, channels }
    }

    /// A frame of silence.
    pub fn next_frame(&self) -> (r: Vec<u8>)
        requires
            silence_len(*self) <= isize::MAX,
        ensures
            r@ == Seq::new(silence_len(*self), |i: int| 0u8),
    {
        let samples: u64 = (self.sample_rate / AUDIO_FRAMES_PER_SECOND) as u64;
        assert(samples * (self.channels as u64) <= 0xffff_ffff * 0xff) by (nonlinear_arith)
            requires
                samples <= 0xffff_ffff,
                self.channels <= 0xff,
        ;
        let total: u64 = samples * (self.channels as u64) * 2;
        let mut data: Vec<u8> = Vec::new();
        let mut i: u64 = 0;
        while i < total
            invariant
                i <= total,
                data@.len() == i,
                forall|k: int| 0 <= k < i ==> data@[k] == 0,
            decreases total - i,
        {
            data.push(0);
            i += 1;
        }
        assert(data@ =~= Seq::new(silence_len(*self), |i: int| 0u8));
        data
    }

    /// A packet of silence, at the time `timestamp_ms`.
    pub fn next_packet(&self, timestamp_ms: u64) -> (r: MediaPacket)
        requires
            silence_len(*self) <= isize::MAX,
        ensures
            r@ == (PacketView {
                track: MediaTrack::Audio,
                timestamp_ms,
                flags: AUDIO_CODEC_PCM,
                data: Seq::new(silence_len(*self), |i: int| 0u8),
            }),
    {
        MediaPacket::audio_pcm(timestamp_ms, bytes_from_vec(self.next_frame()))
    }
}

/// The packets that a new viewer gets first: each parameter set behind a start code.
pub open spec fn init_packet(nal: Seq<u8>) -> PacketView {
    PacketView { track: MediaTrack::Video, timestamp_ms: 0, flags: 0, data: with_code(nal) }
}

/// The views of packets.
pub open spec fn packet_list(packets: Seq<MediaPacket>) -> Seq<PacketView> {
    packets.map_values(|p: MediaPacket| p@)
}

/// The packets that a new viewer gets first, so that it need not wait for the next
/// parameter sets.
pub fn init_packets(sets: &Option<Vec<Vec<u8>>>) -> (r: Vec<MediaPacket>)
    ensures
        packet_list(r@) == match sets_view(*sets) {
            Some(v) => v.map_values(|nal: Seq<u8>| init_packet(nal)),
            None => seq![],
        },
{
    let mut out: Vec<MediaPacket> = Vec::new();
    let sets = match sets {
        Some(v) => v,
        None => {
            assert(packet_list(out@) =~= seq![]);
            return out;
        },
    };
    let mut i: usize = 0;
    while i < sets.len()
        invariant
            i <= sets@.len(),
            out@.len() == i,
            forall|k: int| 0 <= k < i ==> (#[trigger] out@[k])@ == init_packet(sets@[k]@),
        decreases sets@.len() - i,
    {
        let mut data: Vec<u8> = Vec::new();
        data.push(0);
        data.push(0);
        data.push(0);
        data.push(1);
        data.extend_from_slice(sets[i].as_slice());
        assert(data@ =~= with_code(sets@[i as int]@));
        out.push(MediaPacket::video(0, bytes_from_vec(data)));
        i += 1;
    }
    assert(packet_list(out@) =~= byte_views(sets@).map_values(|nal: Seq<u8>| init_packet(nal)));
    out
}

/// Of each type at most one parameter set is kept, and it is the last that was seen.
pub proof fn law_one_set_of_each_type(sets: Seq<Seq<u8>>, nal: Seq<u8>, k: int)
    requires
        0 <= k < with_param_set(sets, nal).len() - 1,
    ensures
        type_of(with_param_set(sets, nal)[k]) != type_of(nal),
        with_param_set(sets, nal).last() == nal,
{
    lemma_without_type(sets, type_of(nal), k);
}

proof fn lemma_without_type(sets: Seq<Seq<u8>>, t: u8, k: int)
    requires
        0 <= k < without_type(sets, t).len(),
    ensures
        type_of(without_type(sets, t)[k]) != t,
    decreases sets.len(),
{
    if sets.len() > 0 {
        if k < without_type(sets.drop_last(), t).len() {
            lemma_without_type(sets.drop_last(), t, k);
        }
    }
}

/// A parameter set (types 32 to 34) at the front of an access unit that is sent is kept
/// for viewers to come, behind those of other types, which stay in order; the one of its
/// own type that was kept before is given up.
pub proof fn law_param_set_is_kept(sets: Option<Seq<Seq<u8>>>, nal: Seq<u8>, rest: Seq<u8>)
    requires
        no_code_in(nal),
        nal.len() > 0,
        64 <= nal[0] % 128 < 70,
        rest.len() == 0 || (rest.len() >= 4 && rest.take(4) == seq![0u8, 0, 0, 1]),
    ensures
        ({
            let before = match sets {
                Some(v) => v,
                None => seq![],
            };
            sets_after(sets, seq![0u8, 0, 0, 1] + nal + rest) == Some(
                before.filter(|u: Seq<u8>| type_of(u) != type_of(nal)).push(nal),
            )
        }),
{
    law_first_unit(nal, rest);
    law_unit_type(nal);
    let b = nal[0];
    assert((b / 2) % 64 == (b % 128) / 2) by (bit_vector);
    let before = match sets {
        Some(v) => v,
        None => seq![],
    };
    lemma_without_type_filters(before, type_of(nal));
}

proof fn lemma_without_type_filters(sets: Seq<Seq<u8>>, t: u8)
    ensures
        without_type(sets, t) == sets.filter(|u: Seq<u8>| type_of(u) != t),
    decreases sets.len(),
{
    reveal(Seq::filter);
    if sets.len() > 0 {
        lemma_without_type_filters(sets.drop_last(), t);
    }
}

/// An access unit whose first unit is no parameter set leaves those that are kept alone.
pub proof fn law_pictures_keep_param_sets(
    sets: Option<Seq<Seq<u8>>>,
    nal: Seq<u8>,
    rest: Seq<u8>,
)
    requires
        no_code_in(nal),
        nal.len() == 0 || !(64 <= nal[0] % 128 < 70),
        rest.len() == 0 || (rest.len() >= 4 && rest.take(4) == seq![0u8, 0, 0, 1]),
    ensures
        sets_after(sets, seq![0u8, 0, 0, 1] + nal + rest) == sets,
{
    law_first_unit(nal, rest);
    law_unit_type(nal);
    if nal.len() > 0 {
        let b = nal[0];
        assert((b / 2) % 64 == (b % 128) / 2) by (bit_vector);
    }
}

/// What a new viewer gets first is video at time zero, without flags: a parameter set
/// behind a start code, which is taken apart as that parameter set again.
pub proof fn law_init_packet(nal: Seq<u8>)
    requires
        no_code_in(nal),
        nal.len() > 0,
    ensures
        init_packet(nal).track == MediaTrack::Video,
        init_packet(nal).timestamp_ms == 0,
        init_packet(nal).flags == 0,
        init_packet(nal).data == seq![0u8, 0, 0, 1] + nal,
        nal_units(init_packet(nal).data) == seq![nal],
{
    let units = seq![nal];
    law_joined_units_split_again(units);
    let coded = units.map_values(|u: Seq<u8>| with_code(u));
    assert(coded =~= Seq::<Seq<u8>>::empty().push(with_code(nal)));
    reveal_with_fuel(joined, 2);
    assert(joined(coded) =~= with_code(nal));
}

/// Fifty frames of silence last a second: they hold two bytes for each sample of each
/// channel.
pub proof fn law_silence_lasts(source: SilenceAudioSource)
    requires
        source.sample_rate % 50 == 0,
    ensures
        50 * silence_len(source) == source.sample_rate * source.channels * 2,
{
    let n = source.sample_rate as nat / 50;
    let c = source.channels as nat;
    assert(50 * (n * c * 2) == (50 * n) * c * 2) by (nonlinear_arith);
}

} // verus!
