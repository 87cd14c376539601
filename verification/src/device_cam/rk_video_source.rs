//! The camera hardware: what it is set up with, the packets made of its frames, and
//! its parameters.

use vstd::prelude::*;

use super::config::StreamConfig;
use super::params::{
    int_at, int_set, param_views, same_bits, text_at, text_set, to_signed, to_unsigned,
    without_sign, Param, ParamStore, ParamValue, StoreView, ValueView,
};
use crate::byte_buf::{bytes_contents, bytes_copy_from_slice};
use crate::proto::control::{
    EncoderConfig, ImageAdjustment, ImageConfig, SystemConfig, SystemConfigSet,
};
use crate::proto::media_packet::{
    MediaPacket, MediaTrack, PacketView, AUDIO_CODEC_G711A, AUDIO_CODEC_G711U, AUDIO_CODEC_PCM,
};
use crate::text::{
    decimal, push_decimal, push_signed_decimal, signed_decimal, str_eq,
};

verus! {

broadcast use vstd::string::group_string_axioms;

/// How many streams the hardware encodes.
pub const MAX_CHN: usize = 3;

/// The frame rate of the sensor where none is set.
pub const DEFAULT_SENSOR_FRAME_RATE: u32 = 30;

/// Encoder parameters of one stream.
#[derive(Debug, Clone)]
pub struct StreamParams {
    pub codec: String,
    pub width: u32,
    pub height: u32,
    pub src_fps_num: u32,
    pub src_fps_den: u32,
    pub dst_fps_num: u32,
    pub dst_fps_den: u32,
    pub bitrate_kbps: u32,
    pub rc_mode: String,
    pub rc_quality: String,
    pub gop: u32,
    pub gop_mode: String,
    pub h264_profile: String,
    pub smartp_viridrlen: u32,
    pub stream_buf_cnt: u32,
    pub mirror: String,
}

impl Default for StreamParams {
    fn default() -> (r: StreamParams)
        ensures
            r.codec@ == "H265"@,
            r.width == 2304,
            r.height == 1296,
            r.src_fps_num == 25,
            r.src_fps_den == 1,
            r.dst_fps_num == 25,
            r.dst_fps_den == 1,
            r.bitrate_kbps == 2048,
            r.rc_mode@ == "CBR"@,
            r.rc_quality@ == "high"@,
            r.gop == 50,
            r.gop_mode@ == "normalP"@,
            r.h264_profile@ == "high"@,
            r.smartp_viridrlen == 25,
            r.stream_buf_cnt == 2,
            r.mirror@ == "none"@,
    {
        StreamParams {
            codec: "H265".to_owned(),
            width: 2304,
            height: 1296,
            src_fps_num: 25,
            src_fps_den: 1,
            dst_fps_num: 25,
            dst_fps_den: 1,
            bitrate_kbps: 2048,
            rc_mode: "CBR".to_owned(),
            rc_quality: "high".to_owned(),
            gop: 50,
            gop_mode: "normalP".to_owned(),
            h264_profile: "high".to_owned(),
            smartp_viridrlen: 25,
            stream_buf_cnt: 2,
            mirror: "none".to_owned(),
        }
    }
}

/// The encoder parameters that the settings of a stream give.
pub fn stream_config_to_params(s: &StreamConfig) -> (r: StreamParams)
    ensures
        r == (StreamParams {
            codec: s.codec,
            width: s.width,
            height: s.height,
            src_fps_num: s.src_frame_rate_num,
            src_fps_den: s.src_frame_rate_den,
            dst_fps_num: s.dst_frame_rate_num,
            dst_fps_den: s.dst_frame_rate_den,
            bitrate_kbps: s.bitrate_kbps,
            rc_mode: s.rc_mode,
            rc_quality: s.rc_quality,
            gop: s.gop,
            gop_mode: s.gop_mode,
            h264_profile: s.h264_profile,
            smartp_viridrlen: s.smartp_viridrlen,
            stream_buf_cnt: s.stream_buf_cnt,
            mirror: s.mirror,
        }),
{
    StreamParams {
        codec: s.codec.clone(),
        width: s.width,
        height: s.height,
        src_fps_num: s.src_frame_rate_num,
        src_fps_den: s.src_frame_rate_den,
        dst_fps_num: s.dst_frame_rate_num,
        dst_fps_den: s.dst_frame_rate_den,
        bitrate_kbps: s.bitrate_kbps,
        rc_mode: s.rc_mode.clone(),
        rc_quality: s.rc_quality.clone(),
        gop: s.gop,
        gop_mode: s.gop_mode.clone(),
        h264_profile: s.h264_profile.clone(),
        smartp_viridrlen: s.smartp_viridrlen,
        stream_buf_cnt: s.stream_buf_cnt,
        mirror: s.mirror.clone(),
    }
}

/// Whether a text has no NUL, so that it can be handed to the hardware's library.
pub open spec fn no_nul(s: Seq<char>) -> bool {
    !s.contains('\0')
}

/// Whether no text of the parameters has a NUL.
pub open spec fn params_no_nul(p: StreamParams) -> bool {
    no_nul(p.codec@) && no_nul(p.rc_mode@) && no_nul(p.rc_quality@) && no_nul(p.gop_mode@)
        && no_nul(p.h264_profile@) && no_nul(p.mirror@)
}

/// Whether a text has no NUL.
pub fn has_no_nul(s: &str) -> (r: bool)
    ensures
        r == no_nul(s@),
{
    let chars = crate::text::chars_of(s);
    let mut i: usize = 0;
    while i < chars.len()
        invariant
            i <= chars@.len(),
            chars@ == s@,
            forall|k: int| 0 <= k < i ==> chars@[k] != '\0',
        decreases chars@.len() - i,
    {
        if chars[i] == '\0' {
            assert(s@[i as int] == '\0');
            return false;
        }
        i += 1;
    }
    true
}

/// What an encoder channel is set up with.
#[derive(Debug)]
pub struct ChannelSetup {
    pub chn_id: i32,
    pub codec: String,
    pub width: i32,
    pub height: i32,
    pub src_fps_num: i32,
    pub src_fps_den: i32,
    pub dst_fps_num: i32,
    pub dst_fps_den: i32,
    pub bitrate_kbps: i32,
    pub rc_mode: String,
    pub rc_quality: String,
    pub gop: i32,
    pub gop_mode: String,
    pub h264_profile: String,
    pub smartp_viridrlen: i32,
    pub stream_buf_cnt: i32,
    pub mirror: String,
}

/// What a channel is set up with for these parameters.
pub open spec fn setup_of(chn_id: i32, p: StreamParams) -> ChannelSetup {
    ChannelSetup {
        chn_id,
        codec: p.codec,
        width: same_bits(p.width),
        height: same_bits(p.height),
        src_fps_num: same_bits(p.src_fps_num),
        src_fps_den: same_bits(p.src_fps_den),
        dst_fps_num: same_bits(p.dst_fps_num),
        dst_fps_den: same_bits(p.dst_fps_den),
        bitrate_kbps: same_bits(p.bitrate_kbps),
        rc_mode: p.rc_mode,
        rc_quality: p.rc_quality,
        gop: same_bits(p.gop),
        gop_mode: p.gop_mode,
        h264_profile: p.h264_profile,
        smartp_viridrlen: same_bits(p.smartp_viridrlen),
        stream_buf_cnt: same_bits(p.stream_buf_cnt),
        mirror: p.mirror,
    }
}

fn setup_channel(chn_id: i32, p: &StreamParams) -> (r: ChannelSetup)
    ensures
        r == setup_of(chn_id, *p),
{
    ChannelSetup {
        chn_id,
        codec: p.codec.clone(),
        width: to_signed(p.width),
        height: to_signed(p.height),
        src_fps_num: to_signed(p.src_fps_num),
        src_fps_den: to_signed(p.src_fps_den),
        dst_fps_num: to_signed(p.dst_fps_num),
        dst_fps_den: to_signed(p.dst_fps_den),
        bitrate_kbps: to_signed(p.bitrate_kbps),
        rc_mode: p.rc_mode.clone(),
        rc_quality: p.rc_quality.clone(),
        gop: to_signed(p.gop),
        gop_mode: p.gop_mode.clone(),
        h264_profile: p.h264_profile.clone(),
        smartp_viridrlen: to_signed(p.smartp_viridrlen),
        stream_buf_cnt: to_signed(p.stream_buf_cnt),
        mirror: p.mirror.clone(),
    }
}

/// What the camera is initialised with.
#[derive(Debug, Clone, Copy, PartialEq, Eq, Structural)]
pub struct CameraInit {
    pub width: i32,
    pub height: i32,
    pub fps: i32,
    pub bitrate_kbps: i32,
    pub sensor_fps: i32,
}

/// How the camera is started: each channel is set up, then the camera initialised.
#[derive(Debug)]
pub struct CameraPlan {
    pub channels: Vec<ChannelSetup>,
    pub init: CameraInit,
}

/// The camera as a source of video in up to three streams.
#[derive(Debug)]
pub struct RkVideoSource {
    pub main_params: StreamParams,
    pub sub_params: Option<StreamParams>,
    pub third_params: Option<StreamParams>,
    /// The rate at which the encoder gets frames. It drops frames by this rate and
    /// that of the stream, so that a wrong one makes it drop none.
    pub sensor_frame_rate: u32,
}

/// The channels that are set up.
pub open spec fn channel_list(s: RkVideoSource) -> Seq<ChannelSetup> {
    let sub = match s.sub_params {
        Some(p) => seq![setup_of(1, p)],
        None => seq![],
    };
    let third = match s.third_params {
        Some(p) => seq![setup_of(2, p)],
        None => seq![],
    };
    seq![setup_of(0, s.main_params)] + sub + third
}

impl RkVideoSource {
    pub fn new(
        main: StreamParams,
        sub: Option<StreamParams>,
        third: Option<StreamParams>,
        sensor_frame_rate: u32,
    ) -> (r: RkVideoSource)
        ensures
            r == (RkVideoSource {
                main_params: main,
                sub_params: sub,
                third_params: third,
                sensor_frame_rate: if sensor_frame_rate > 0 {
                    sensor_frame_rate
                } else {
                    DEFAULT_SENSOR_FRAME_RATE
                },
            }),
    {
        RkVideoSource {
            main_params: main,
            sub_params: sub,
            third_params: third,
            sensor_frame_rate: if sensor_frame_rate > 0 {
                sensor_frame_rate
            } else {
                DEFAULT_SENSOR_FRAME_RATE
            },
        }
    }

    /// How the camera is started.
    pub fn spawn(&self) -> (r: CameraPlan)
        requires
            self.main_params.dst_fps_den > 0,
            params_no_nul(self.main_params),
            self.sub_params matches Some(p) ==> params_no_nul(p),
            self.third_params matches Some(p) ==> params_no_nul(p),
        ensures
            r.channels@ == channel_list(*self),
            r.init == (CameraInit {
                width: same_bits(self.main_params.width),
                height: same_bits(self.main_params.height),
                fps: same_bits(
                    (self.main_params.dst_fps_num / self.main_params.dst_fps_den) as u32,
                ),
                bitrate_kbps: same_bits(self.main_params.bitrate_kbps),
                sensor_fps: same_bits(self.sensor_frame_rate),
            }),
    {
        let mut channels: Vec<ChannelSetup> = Vec::new();
        channels.push(setup_channel(0, &self.main_params));
        if let Some(p) = &self.sub_params {
            channels.push(setup_channel(1, p));
        }
        if let Some(p) = &self.third_params {
            channels.push(setup_channel(2, p));
        }
        assert(channels@ =~= channel_list(*self));
        let main = &self.main_params;
        let fps: u32 = main.dst_fps_num / main.dst_fps_den;
        CameraPlan {
            channels,
            init: CameraInit {
                width: to_signed(main.width),
                height: to_signed(main.height),
                fps: to_signed(fps),
                bitrate_kbps: to_signed(main.bitrate_kbps),
                sensor_fps: to_signed(self.sensor_frame_rate),
            },
        }
    }
}

/// How long the camera or audio runs before it is looked at again whether it is to
/// stop, in milliseconds.
pub const STOP_CHECK_MS: u64 = 1000;

/// Whether the camera or audio is to be shut down: none of the channels that take what
/// it makes is left. `senders` tells of each channel whether it is.
pub fn source_stops(senders: &Vec<bool>) -> (r: bool)
    ensures
        r == !senders@.contains(true),
{
    let mut i: usize = 0;
    while i < senders.len()
        invariant
            i <= senders@.len(),
            forall|k: int| 0 <= k < i ==> !senders@[k],
        decreases senders@.len() - i,
    {
        if senders[i] {
            assert(senders@[i as int]);
            return false;
        }
        i += 1;
    }
    true
}

/// The packet made of an encoded frame, and its channel. `elapsed_ms` is the time
/// since the camera was started; where that is not known, the frame's own time
/// counts. A frame of no known channel is dropped.
pub fn on_frame(chn_id: i32, data: &[u8], pts_us: u64, elapsed_ms: Option<u64>) -> (r: Option<
    (usize, MediaPacket),
>)
    ensures
        r is Some <==> 0 <= chn_id < MAX_CHN,
        r matches Some((chn, packet)) ==> {
            &&& chn == chn_id
            &&& packet@ == (PacketView {
                track: MediaTrack::Video,
                timestamp_ms: match elapsed_ms {
                    Some(t) => t,
                    None => (pts_us / 1000) as u64,
                },
                flags: 0,
                data: data@,
            })
        },
{
    if chn_id < 0 || chn_id as usize >= MAX_CHN {
        return None;
    }
    let timestamp_ms: u64 = match elapsed_ms {
        Some(t) => t,
        None => pts_us / 1000,
    };
    Some((chn_id as usize, MediaPacket::video(timestamp_ms, bytes_copy_from_slice(data))))
}

/// The packet made of a frame of audio. `elapsed_ms` is the time since audio was
/// started.
pub fn on_audio_frame(data: &[u8], elapsed_ms: Option<u64>, flags: u8) -> (r: MediaPacket)
    ensures
        r@ == (PacketView {
            track: MediaTrack::Audio,
            timestamp_ms: match elapsed_ms {
                Some(t) => t,
                None => 0,
            },
            flags,
            data: data@,
        }),
{
    let timestamp_ms: u64 = match elapsed_ms {
        Some(t) => t,
        None => 0,
    };
    MediaPacket {
        track: MediaTrack::Audio,
        timestamp_ms,
        flags,
        data: bytes_copy_from_slice(data),
    }
}

/// What audio is initialised with.
#[derive(Debug)]
pub struct AudioInit {
    /// The codec that marks the packets.
    pub flags: u8,
    pub sample_rate: i32,
    pub card_name: String,
    pub channels: i32,
    pub frame_size: i32,
    pub volume: i32,
    pub encode_type: String,
    pub format: String,
    pub bit_rate: i32,
    pub enable_vqe: i32,
    pub vqe_cfg: String,
}

/// The sound card as a source of audio.
#[derive(Debug)]
pub struct RkAudioSource {
    pub sample_rate: u32,
    pub card_name: String,
    pub channels: u32,
    pub frame_size: u32,
    pub volume: u32,
    pub format: String,
    pub encode_type: String,
    pub bit_rate: u32,
    pub enable_vqe: bool,
    pub vqe_cfg: String,
}

/// The codec that marks packets of an encoding.
pub open spec fn flags_of(encode_type: Seq<char>) -> u8 {
    if encode_type == "G711A"@ {
        AUDIO_CODEC_G711A
    } else if encode_type == "G711U"@ {
        AUDIO_CODEC_G711U
    } else {
        AUDIO_CODEC_PCM
    }
}

impl RkAudioSource {
    pub fn new(
        sample_rate: u32,
        card_name: String,
        channels: u32,
        frame_size: u32,
        volume: u32,
        format: String,
        encode_type: String,
        bit_rate: u32,
        enable_vqe: bool,
        vqe_cfg: String,
    ) -> (r: RkAudioSource)
        ensures
            r == (RkAudioSource {
                sample_rate,
                card_name,
                channels,
                frame_size,
                volume,
                format,
                encode_type,
                bit_rate,
                enable_vqe,
                vqe_cfg,
            }),
    {
        RkAudioSource {
            sample_rate,
            card_name,
            channels,
            frame_size,
            volume,
            format,
            encode_type,
            bit_rate,
            enable_vqe,
            vqe_cfg,
        }
    }

    /// The codec that marks packets of an encoding.
    pub fn audio_flags(encode_type: &str) -> (r: u8)
        ensures
            r == flags_of(encode_type@),
    {
        if str_eq(encode_type, "G711A") {
            AUDIO_CODEC_G711A
        } else if str_eq(encode_type, "G711U") {
            AUDIO_CODEC_G711U
        } else {
            AUDIO_CODEC_PCM
        }
    }

    /// How audio is started.
    pub fn spawn(&self) -> (r: AudioInit)
        requires
            no_nul(self.card_name@),
            no_nul(self.encode_type@),
            no_nul(self.format@),
            no_nul(self.vqe_cfg@),
        ensures
            r == (AudioInit {
                flags: flags_of(self.encode_type@),
                sample_rate: same_bits(self.sample_rate),
                card_name: self.card_name,
                channels: same_bits(self.channels),
                frame_size: same_bits(self.frame_size),
                volume: same_bits(self.volume),
                encode_type: self.encode_type,
                format: self.format,
                bit_rate: same_bits(self.bit_rate),
                enable_vqe: if self.enable_vqe {
                    1
                } else {
                    0
                },
                vqe_cfg: self.vqe_cfg,
            }),
    {
        AudioInit {
            flags: RkAudioSource::audio_flags(self.encode_type.as_str()),
            sample_rate: to_signed(self.sample_rate),
            card_name: self.card_name.clone(),
            channels: to_signed(self.channels),
            frame_size: to_signed(self.frame_size),
            volume: to_signed(self.volume),
            encode_type: self.encode_type.clone(),
            format: self.format.clone(),
            bit_rate: to_signed(self.bit_rate),
            enable_vqe: if self.enable_vqe {
                1
            } else {
                0
            },
            vqe_cfg: self.vqe_cfg.clone(),
        }
    }
}

/// Where the parameters of a channel's encoder are kept.
pub open spec fn encoder_prefix(chn_id: u32) -> Option<Seq<char>> {
    if chn_id == 0 {
        Some("video.0"@)
    } else if chn_id == 1 {
        Some("video.1"@)
    } else if chn_id == 2 {
        Some("video.2"@)
    } else {
        None
    }
}

fn prefix_of(chn_id: u32) -> (r: Option<&'static str>)
    ensures
        match encoder_prefix(chn_id) {
            Some(p) => r matches Some(q) && q@ == p,
            None => r is None,
        },
{
    match chn_id {
        0 => Some("video.0"),
        1 => Some("video.1"),
        2 => Some("video.2"),
        _ => None,
    }
}

/// The key of a field.
pub open spec fn field_key(prefix: Seq<char>, field: Seq<char>) -> Seq<char> {
    prefix + "."@ + field
}

fn key_of(prefix: &str, field: &str) -> (r: String)
    ensures
        r@ == field_key(prefix@, field@),
{
    let mut s = prefix.to_owned();
    s.append(".");
    s.append(field);
    s
}

/// Whether these are the encoder parameters under a prefix.
pub open spec fn is_encoder_config(c: EncoderConfig, s: StoreView, prefix: Seq<char>) -> bool {
    &&& c.output_data_type@ == text_at(s, field_key(prefix, "output_data_type"@), "H.265"@)
    &&& c.width == without_sign(int_at(s, field_key(prefix, "width"@), 2304))
    &&& c.height == without_sign(int_at(s, field_key(prefix, "height"@), 1296))
    &&& c.rc_mode@ == text_at(s, field_key(prefix, "rc_mode"@), "CBR"@)
    &&& c.rc_quality@ == text_at(s, field_key(prefix, "rc_quality"@), "high"@)
    &&& c.gop == without_sign(int_at(s, field_key(prefix, "gop"@), 50))
    &&& c.gop_mode@ == text_at(s, field_key(prefix, "gop_mode"@), "normalP"@)
    &&& c.max_rate == without_sign(int_at(s, field_key(prefix, "max_rate"@), 2048))
    &&& c.dst_frame_rate_num == without_sign(
        int_at(s, field_key(prefix, "dst_frame_rate_num"@), 25),
    )
    &&& c.dst_frame_rate_den == without_sign(
        int_at(s, field_key(prefix, "dst_frame_rate_den"@), 1),
    )
    &&& c.h264_profile@ == text_at(s, field_key(prefix, "h264_profile"@), "high"@)
    &&& c.smart@ == text_at(s, field_key(prefix, "smart"@), "close"@)
    &&& c.rotation == without_sign(int_at(s, field_key(prefix, "rotation"@), 0))
}

/// The encoder parameters of a channel.
pub fn get_encoder_config(store: &ParamStore, chn_id: u32) -> (r: Option<EncoderConfig>)
    ensures
        match encoder_prefix(chn_id) {
            Some(prefix) => r matches Some(c) && is_encoder_config(c, store@, prefix),
            None => r is None,
        },
{
    let p = match prefix_of(chn_id) {
        Some(p) => p,
        None => {
            return None;
        },
    };
    Some(
        EncoderConfig {
            output_data_type: store.get_text(key_of(p, "output_data_type").as_str(), "H.265"),
            width: to_unsigned(store.get_int(key_of(p, "width").as_str(), 2304)),
            height: to_unsigned(store.get_int(key_of(p, "height").as_str(), 1296)),
            rc_mode: store.get_text(key_of(p, "rc_mode").as_str(), "CBR"),
            rc_quality: store.get_text(key_of(p, "rc_quality").as_str(), "high"),
            gop: to_unsigned(store.get_int(key_of(p, "gop").as_str(), 50)),
            gop_mode: store.get_text(key_of(p, "gop_mode").as_str(), "normalP"),
            max_rate: to_unsigned(store.get_int(key_of(p, "max_rate").as_str(), 2048)),
            dst_frame_rate_num: to_unsigned(
                store.get_int(key_of(p, "dst_frame_rate_num").as_str(), 25),
            ),
            dst_frame_rate_den: to_unsigned(
                store.get_int(key_of(p, "dst_frame_rate_den").as_str(), 1),
            ),
            h264_profile: store.get_text(key_of(p, "h264_profile").as_str(), "high"),
            smart: store.get_text(key_of(p, "smart").as_str(), "close"),
            rotation: to_unsigned(store.get_int(key_of(p, "rotation").as_str(), 0)),
        },
    )
}

/// The parameters with those of an encoder set.
pub open spec fn encoder_saved(s: StoreView, prefix: Seq<char>, c: EncoderConfig) -> StoreView {
    let s1 = text_set(s, field_key(prefix, "output_data_type"@), c.output_data_type@);
    let s2 = int_set(s1, field_key(prefix, "width"@), same_bits(c.width));
    let s3 = int_set(s2, field_key(prefix, "height"@), same_bits(c.height));
    let s4 = text_set(s3, field_key(prefix, "rc_mode"@), c.rc_mode@);
    let s5 = text_set(s4, field_key(prefix, "rc_quality"@), c.rc_quality@);
    let s6 = int_set(s5, field_key(prefix, "gop"@), same_bits(c.gop));
    let s7 = text_set(s6, field_key(prefix, "gop_mode"@), c.gop_mode@);
    let s8 = int_set(s7, field_key(prefix, "max_rate"@), same_bits(c.max_rate));
    let s9 = int_set(
        s8,
        field_key(prefix, "dst_frame_rate_num"@),
        same_bits(c.dst_frame_rate_num),
    );
    let s10 = int_set(
        s9,
        field_key(prefix, "dst_frame_rate_den"@),
        same_bits(c.dst_frame_rate_den),
    );
    let s11 = text_set(s10, field_key(prefix, "h264_profile"@), c.h264_profile@);
    let s12 = text_set(s11, field_key(prefix, "smart"@), c.smart@);
    int_set(s12, field_key(prefix, "rotation"@), same_bits(c.rotation))
}

/// Whether no text of the parameters has a NUL.
pub open spec fn encoder_no_nul(c: EncoderConfig) -> bool {
    no_nul(c.output_data_type@) && no_nul(c.rc_mode@) && no_nul(c.rc_quality@) && no_nul(
        c.gop_mode@,
    ) && no_nul(c.h264_profile@) && no_nul(c.smart@)
}

/// Sets the encoder parameters of a channel. They take effect at the next start.
pub fn set_encoder_config(store: &mut ParamStore, chn_id: u32, config: &EncoderConfig) -> (r:
    Result<(), String>)
    requires
        encoder_prefix(chn_id) is Some ==> encoder_no_nul(*config),
    ensures
        match encoder_prefix(chn_id) {
            Some(prefix) => r is Ok && final(store)@ == encoder_saved(old(store)@, prefix, *config),
            None => final(store)@ == old(store)@ && (r matches Err(e) && e@ == "invalid chn_id: "@
                + decimal(chn_id as nat)),
        },
{
    let p = match prefix_of(chn_id) {
        Some(p) => p,
        None => {
            let mut e = "invalid chn_id: ".to_owned();
            push_decimal(&mut e, chn_id as u64);
            return Err(e);
        },
    };
    store.set_text(key_of(p, "output_data_type").as_str(), config.output_data_type.as_str());
    store.set_int(key_of(p, "width").as_str(), to_signed(config.width));
    store.set_int(key_of(p, "height").as_str(), to_signed(config.height));
    store.set_text(key_of(p, "rc_mode").as_str(), config.rc_mode.as_str());
    store.set_text(key_of(p, "rc_quality").as_str(), config.rc_quality.as_str());
    store.set_int(key_of(p, "gop").as_str(), to_signed(config.gop));
    store.set_text(key_of(p, "gop_mode").as_str(), config.gop_mode.as_str());
    store.set_int(key_of(p, "max_rate").as_str(), to_signed(config.max_rate));
    store.set_int(
        key_of(p, "dst_frame_rate_num").as_str(),
        to_signed(config.dst_frame_rate_num),
    );
    store.set_int(
        key_of(p, "dst_frame_rate_den").as_str(),
        to_signed(config.dst_frame_rate_den),
    );
    store.set_text(key_of(p, "h264_profile").as_str(), config.h264_profile.as_str());
    store.set_text(key_of(p, "smart").as_str(), config.smart.as_str());
    store.set_int(key_of(p, "rotation").as_str(), to_signed(config.rotation));
    Ok(())
}

/// The parameters of an encoder, each with the value that it has by default.
pub open spec fn encoder_param_list(prefix: Seq<char>) -> Seq<(Seq<char>, ValueView)> {
    seq![
        (field_key(prefix, "output_data_type"@), ValueView::Text("H.265"@)),
        (field_key(prefix, "width"@), ValueView::Int(2304)),
        (field_key(prefix, "height"@), ValueView::Int(1296)),
        (field_key(prefix, "rc_mode"@), ValueView::Text("CBR"@)),
        (field_key(prefix, "rc_quality"@), ValueView::Text("high"@)),
        (field_key(prefix, "gop"@), ValueView::Int(50)),
        (field_key(prefix, "gop_mode"@), ValueView::Text("normalP"@)),
        (field_key(prefix, "max_rate"@), ValueView::Int(2048)),
        (field_key(prefix, "dst_frame_rate_num"@), ValueView::Int(25)),
        (field_key(prefix, "dst_frame_rate_den"@), ValueView::Int(1)),
        (field_key(prefix, "h264_profile"@), ValueView::Text("high"@)),
        (field_key(prefix, "smart"@), ValueView::Text("close"@)),
        (field_key(prefix, "rotation"@), ValueView::Int(0)),
    ]
}

fn int_param(key: String, value: i32) -> (r: Param)
    ensures
        r@ == (key@, ValueView::Int(value)),
{
    Param { key, value: ParamValue::Int(value) }
}

fn text_param(key: String, value: &str) -> (r: Param)
    ensures
        r@ == (key@, ValueView::Text(value@)),
{
    Param { key, value: ParamValue::Text(value.to_owned()) }
}

/// The parameters of a channel's encoder that are to be read, each with the value
/// that it has by default.
pub fn encoder_params(chn_id: u32) -> (r: Option<Vec<Param>>)
    ensures
        match encoder_prefix(chn_id) {
            Some(prefix) => r matches Some(v) && param_views(v@) == encoder_param_list(prefix),
            None => r is None,
        },
{
    let p = match prefix_of(chn_id) {
        Some(p) => p,
        None => {
            return None;
        },
    };
    let mut v: Vec<Param> = Vec::new();
    v.push(text_param(key_of(p, "output_data_type"), "H.265"));
    v.push(int_param(key_of(p, "width"), 2304));
    v.push(int_param(key_of(p, "height"), 1296));
    v.push(text_param(key_of(p, "rc_mode"), "CBR"));
    v.push(text_param(key_of(p, "rc_quality"), "high"));
    v.push(int_param(key_of(p, "gop"), 50));
    v.push(text_param(key_of(p, "gop_mode"), "normalP"));
    v.push(int_param(key_of(p, "max_rate"), 2048));
    v.push(int_param(key_of(p, "dst_frame_rate_num"), 25));
    v.push(int_param(key_of(p, "dst_frame_rate_den"), 1));
    v.push(text_param(key_of(p, "h264_profile"), "high"));
    v.push(text_param(key_of(p, "smart"), "close"));
    v.push(int_param(key_of(p, "rotation"), 0));
    assert(param_views(v@) =~= encoder_param_list(p@));
    Some(v)
}

/// Something that the image processor adjusts.
#[derive(Debug, Clone, Copy, PartialEq, Eq, Structural)]
pub enum IspControl {
    Contrast,
    Brightness,
    Saturation,
    Sharpness,
    Hue,
}

/// What the image processor is adjusted to.
#[derive(Debug, Clone, Copy, PartialEq, Eq, Structural)]
pub struct IspReadings {
    pub contrast: i32,
    pub brightness: i32,
    pub saturation: i32,
    pub sharpness: i32,
    pub hue: i32,
}

/// The image parameters, from what the image processor is adjusted to.
pub fn get_image_config(isp: IspReadings) -> (r: ImageConfig)
    ensures
        r == (ImageConfig {
            adjustment: Some(
                ImageAdjustment {
                    contrast: Some(isp.contrast),
                    brightness: Some(isp.brightness),
                    saturation: Some(isp.saturation),
                    sharpness: Some(isp.sharpness),
                    hue: Some(isp.hue),
                },
            ),
            exposure: None,
            night_to_day: None,
            white_balance: None,
            enhancement: None,
            video_adjustment: None,
        }),
{
    ImageConfig {
        adjustment: Some(
            ImageAdjustment {
                contrast: Some(isp.contrast),
                brightness: Some(isp.brightness),
                saturation: Some(isp.saturation),
                sharpness: Some(isp.sharpness),
                hue: Some(isp.hue),
            },
        ),
        exposure: None,
        night_to_day: None,
        white_balance: None,
        enhancement: None,
        video_adjustment: None,
    }
}

/// Where the adjustment of a camera's image is kept.
pub open spec fn image_prefix(cam_id: u32) -> Seq<char> {
    "isp."@ + decimal(cam_id as nat) + ".adjustment"@
}

/// What the image processor is adjusted to, in order: the fields that are there.
pub open spec fn isp_writes(a: ImageAdjustment) -> Seq<(IspControl, i32)> {
    isp_write(IspControl::Contrast, a.contrast) + isp_write(IspControl::Brightness, a.brightness)
        + isp_write(IspControl::Saturation, a.saturation) + isp_write(
        IspControl::Sharpness,
        a.sharpness,
    ) + isp_write(IspControl::Hue, a.hue)
}

/// What the image processor is adjusted to for one field.
pub open spec fn isp_write(control: IspControl, value: Option<i32>) -> Seq<(IspControl, i32)> {
    match value {
        Some(v) => seq![(control, v)],
        None => seq![],
    }
}

/// The parameters with a number set, if there is one.
pub open spec fn maybe_int_set(s: StoreView, key: Seq<char>, value: Option<i32>) -> StoreView {
    match value {
        Some(v) => int_set(s, key, v),
        None => s,
    }
}

/// The parameters with the adjustment of an image set.
pub open spec fn adjustment_saved(s: StoreView, prefix: Seq<char>, a: ImageAdjustment) -> StoreView {
    let s1 = maybe_int_set(s, field_key(prefix, "contrast"@), a.contrast);
    let s2 = maybe_int_set(s1, field_key(prefix, "brightness"@), a.brightness);
    let s3 = maybe_int_set(s2, field_key(prefix, "saturation"@), a.saturation);
    let s4 = maybe_int_set(s3, field_key(prefix, "sharpness"@), a.sharpness);
    maybe_int_set(s4, field_key(prefix, "hue"@), a.hue)
}

fn set_adjustment(
    store: &mut ParamStore,
    writes: &mut Vec<(IspControl, i32)>,
    control: IspControl,
    key: String,
    value: Option<i32>,
)
    ensures
        final(store)@ == maybe_int_set(old(store)@, key@, value),
        final(writes)@ == old(writes)@ + isp_write(control, value),
{
    if let Some(v) = value {
        store.set_int(key.as_str(), v);
        writes.push((control, v));
    }
    assert(writes@ =~= old(writes)@ + isp_write(control, value));
}

/// Sets the image parameters of a camera: the result is what the image processor is
/// to be adjusted to. Only the fields that are there are changed, and only the
/// adjustment is.
pub fn set_image_config(store: &mut ParamStore, cam_id: u32, config: &ImageConfig) -> (r: Vec<
    (IspControl, i32),
>)
    ensures
        match config.adjustment {
            Some(a) => {
                &&& r@ == isp_writes(a)
                &&& final(store)@ == adjustment_saved(old(store)@, image_prefix(cam_id), a)
            },
            None => r@.len() == 0 && final(store)@ == old(store)@,
        },
{
    let mut writes: Vec<(IspControl, i32)> = Vec::new();
    if let Some(a) = &config.adjustment {
        let mut prefix = "isp.".to_owned();
        push_decimal(&mut prefix, cam_id as u64);
        prefix.append(".adjustment");
        let p = prefix.as_str();
        set_adjustment(store, &mut writes, IspControl::Contrast, key_of(p, "contrast"), a.contrast);
        set_adjustment(
            store,
            &mut writes,
            IspControl::Brightness,
            key_of(p, "brightness"),
            a.brightness,
        );
        set_adjustment(
            store,
            &mut writes,
            IspControl::Saturation,
            key_of(p, "saturation"),
            a.saturation,
        );
        set_adjustment(
            store,
            &mut writes,
            IspControl::Sharpness,
            key_of(p, "sharpness"),
            a.sharpness,
        );
        set_adjustment(store, &mut writes, IspControl::Hue, key_of(p, "hue"), a.hue);
        assert(writes@ =~= isp_writes(*a));
    }
    writes
}

/// Where the name of the camera is kept.
pub const DEVICE_NAME_KEY: &'static str = "system.device_info.device_name";

/// Where the camera's number for remote control is kept.
pub const TELECONTROL_ID_KEY: &'static str = "system.device_info.telecontrol_id";

pub const MODEL_KEY: &'static str = "system.device_info.model";

pub const SERIAL_NUMBER_KEY: &'static str = "system.device_info.serial_number";

pub const FIRMWARE_VERSION_KEY: &'static str = "system.device_info.firmware_version";

pub const MANUFACTURER_KEY: &'static str = "system.device_info.manufacturer";

/// Whether this is what the camera says of itself.
pub open spec fn is_system_config(c: SystemConfig, s: StoreView) -> bool {
    &&& c.device_name@ == text_at(s, DEVICE_NAME_KEY@, "RK IP Camera"@)
    &&& c.telecontrol_id@ == text_at(s, TELECONTROL_ID_KEY@, "0"@)
    &&& c.model@ == text_at(s, MODEL_KEY@, "RV1106"@)
    &&& c.serial_number@ == text_at(s, SERIAL_NUMBER_KEY@, "unknown"@)
    &&& c.firmware_version@ == text_at(s, FIRMWARE_VERSION_KEY@, "1.0.0"@)
    &&& c.manufacturer@ == text_at(s, MANUFACTURER_KEY@, "Rockchip"@)
}

/// What the camera says of itself.
pub fn get_system_config(store: &ParamStore) -> (r: SystemConfig)
    ensures
        is_system_config(r, store@),
{
    SystemConfig {
        device_name: store.get_text(DEVICE_NAME_KEY, "RK IP Camera"),
        telecontrol_id: store.get_text(TELECONTROL_ID_KEY, "0"),
        model: store.get_text(MODEL_KEY, "RV1106"),
        serial_number: store.get_text(SERIAL_NUMBER_KEY, "unknown"),
        firmware_version: store.get_text(FIRMWARE_VERSION_KEY, "1.0.0"),
        manufacturer: store.get_text(MANUFACTURER_KEY, "Rockchip"),
    }
}

/// The parameters with a text set, if there is one.
pub open spec fn maybe_text_set(s: StoreView, key: Seq<char>, value: Option<String>) -> StoreView {
    match value {
        Some(v) => text_set(s, key, v@),
        None => s,
    }
}

/// The parameters with what the camera says of itself set.
pub open spec fn system_saved(s: StoreView, c: SystemConfigSet) -> StoreView {
    maybe_text_set(
        maybe_text_set(s, DEVICE_NAME_KEY@, c.device_name),
        TELECONTROL_ID_KEY@,
        c.telecontrol_id,
    )
}

/// Whether no text in it has a NUL.
pub open spec fn system_no_nul(c: SystemConfigSet) -> bool {
    &&& c.device_name matches Some(t) ==> no_nul(t@)
    &&& c.telecontrol_id matches Some(t) ==> no_nul(t@)
}

/// Sets what can be set of what the camera says of itself.
pub fn set_system_config(store: &mut ParamStore, config: &SystemConfigSet)
    requires
        system_no_nul(*config),
    ensures
        final(store)@ == system_saved(old(store)@, *config),
{
    if let Some(name) = &config.device_name {
        store.set_text(DEVICE_NAME_KEY, name.as_str());
    }
    if let Some(id) = &config.telecontrol_id {
        store.set_text(TELECONTROL_ID_KEY, id.as_str());
    }
}

/// What the camera says of itself, each with the value that it has by default.
pub open spec fn system_param_list() -> Seq<(Seq<char>, ValueView)> {
    seq![
        (DEVICE_NAME_KEY@, ValueView::Text("RK IP Camera"@)),
        (TELECONTROL_ID_KEY@, ValueView::Text("0"@)),
        (MODEL_KEY@, ValueView::Text("RV1106"@)),
        (SERIAL_NUMBER_KEY@, ValueView::Text("unknown"@)),
        (FIRMWARE_VERSION_KEY@, ValueView::Text("1.0.0"@)),
        (MANUFACTURER_KEY@, ValueView::Text("Rockchip"@)),
    ]
}

/// The parameters that are to be read for what the camera says of itself, each with
/// the value that it has by default.
pub fn system_params() -> (r: Vec<Param>)
    ensures
        param_views(r@) == system_param_list(),
{
    let mut v: Vec<Param> = Vec::new();
    v.push(text_param(DEVICE_NAME_KEY.to_owned(), "RK IP Camera"));
    v.push(text_param(TELECONTROL_ID_KEY.to_owned(), "0"));
    v.push(text_param(MODEL_KEY.to_owned(), "RV1106"));
    v.push(text_param(SERIAL_NUMBER_KEY.to_owned(), "unknown"));
    v.push(text_param(FIRMWARE_VERSION_KEY.to_owned(), "1.0.0"));
    v.push(text_param(MANUFACTURER_KEY.to_owned(), "Rockchip"));
    assert(param_views(v@) =~= system_param_list());
    v
}

/// Whether a call of the hardware's library worked out: it returns 0 then.
pub open spec fn call_result(what: Seq<char>, code: i32) -> Result<(), Seq<char>> {
    if code == 0 {
        Ok(())
    } else {
        Err(what + " failed: "@ + signed_decimal(code as int))
    }
}

fn check_call(what: &str, code: i32) -> (r: Result<(), String>)
    ensures
        match call_result(what@, code) {
            Ok(_) => r is Ok,
            Err(e) => r matches Err(t) && t@ == e,
        },
{
    if code != 0 {
        let mut s = what.to_owned();
        s.append(" failed: ");
        push_signed_decimal(&mut s, code as i64);
        return Err(s);
    }
    Ok(())
}

/// Whether the restart was begun, by what the hardware's library returned.
pub fn system_reboot(code: i32) -> (r: Result<(), String>)
    ensures
        match call_result("rk_system_reboot"@, code) {
            Ok(_) => r is Ok,
            Err(e) => r matches Err(t) && t@ == e,
        },
{
    check_call("rk_system_reboot", code)
}

/// Whether all was reset, by what the hardware's library returned.
pub fn factory_reset(code: i32) -> (r: Result<(), String>)
    ensures
        match call_result("rk_system_factory_reset"@, code) {
            Ok(_) => r is Ok,
            Err(e) => r matches Err(t) && t@ == e,
        },
{
    check_call("rk_system_factory_reset", code)
}

proof fn lemma_field_key_injective(prefix: Seq<char>, a: Seq<char>, b: Seq<char>)
    requires
        field_key(prefix, a) == field_key(prefix, b),
    ensures
        a == b,
{
    let n = (prefix + "."@).len() as int;
    assert(field_key(prefix, a).skip(n) =~= a);
    assert(field_key(prefix, b).skip(n) =~= b);
}

proof fn lemma_int_fields_apart()
    ensures
        "width"@ != "height"@,
        "width"@ != "gop"@,
        "width"@ != "max_rate"@,
        "width"@ != "dst_frame_rate_num"@,
        "width"@ != "dst_frame_rate_den"@,
        "width"@ != "rotation"@,
        "height"@ != "gop"@,
        "height"@ != "max_rate"@,
        "height"@ != "dst_frame_rate_num"@,
        "height"@ != "dst_frame_rate_den"@,
        "height"@ != "rotation"@,
        "gop"@ != "max_rate"@,
        "gop"@ != "dst_frame_rate_num"@,
        "gop"@ != "dst_frame_rate_den"@,
        "gop"@ != "rotation"@,
        "max_rate"@ != "dst_frame_rate_num"@,
        "max_rate"@ != "dst_frame_rate_den"@,
        "max_rate"@ != "rotation"@,
        "dst_frame_rate_num"@ != "dst_frame_rate_den"@,
        "dst_frame_rate_num"@ != "rotation"@,
        "dst_frame_rate_den"@ != "rotation"@,
{
    reveal_strlit("width");
    reveal_strlit("height");
    reveal_strlit("gop");
    reveal_strlit("max_rate");
    reveal_strlit("dst_frame_rate_num");
    reveal_strlit("dst_frame_rate_den");
    reveal_strlit("rotation");
    assert("width"@.len() == 5 && "height"@.len() == 6 && "gop"@.len() == 3);
    assert("max_rate"@.len() == 8 && "rotation"@.len() == 8);
    assert("dst_frame_rate_num"@.len() == 18 && "dst_frame_rate_den"@.len() == 18);
    assert("max_rate"@[0] != "rotation"@[0]);
    assert("dst_frame_rate_num"@[15] != "dst_frame_rate_den"@[15]);
}

proof fn lemma_text_fields_apart()
    ensures
        "output_data_type"@ != "rc_mode"@,
        "output_data_type"@ != "rc_quality"@,
        "output_data_type"@ != "gop_mode"@,
        "output_data_type"@ != "h264_profile"@,
        "output_data_type"@ != "smart"@,
        "rc_mode"@ != "rc_quality"@,
        "rc_mode"@ != "gop_mode"@,
        "rc_mode"@ != "h264_profile"@,
        "rc_mode"@ != "smart"@,
        "rc_quality"@ != "gop_mode"@,
        "rc_quality"@ != "h264_profile"@,
        "rc_quality"@ != "smart"@,
        "gop_mode"@ != "h264_profile"@,
        "gop_mode"@ != "smart"@,
        "h264_profile"@ != "smart"@,
{
    reveal_strlit("output_data_type");
    reveal_strlit("rc_mode");
    reveal_strlit("rc_quality");
    reveal_strlit("gop_mode");
    reveal_strlit("h264_profile");
    reveal_strlit("smart");
    assert("output_data_type"@.len() == 16 && "rc_mode"@.len() == 7 && "rc_quality"@.len() == 10);
    assert("gop_mode"@.len() == 8 && "h264_profile"@.len() == 12 && "smart"@.len() == 5);
}

/// What is set of an encoder is what is read of it afterwards.
pub proof fn law_encoder_set_then_get(
    s: StoreView,
    prefix: Seq<char>,
    set: EncoderConfig,
    got: EncoderConfig,
)
    requires
        is_encoder_config(got, encoder_saved(s, prefix, set), prefix),
    ensures
        got.output_data_type@ == set.output_data_type@,
        got.width == set.width,
        got.height == set.height,
        got.rc_mode@ == set.rc_mode@,
        got.rc_quality@ == set.rc_quality@,
        got.gop == set.gop,
        got.gop_mode@ == set.gop_mode@,
        got.max_rate == set.max_rate,
        got.dst_frame_rate_num == set.dst_frame_rate_num,
        got.dst_frame_rate_den == set.dst_frame_rate_den,
        got.h264_profile@ == set.h264_profile@,
        got.smart@ == set.smart@,
        got.rotation == set.rotation,
{
    lemma_int_fields_apart();
    lemma_text_fields_apart();
    assert forall|a: Seq<char>, b: Seq<char>|
        #![trigger field_key(prefix, a), field_key(prefix, b)]
        a != b implies field_key(prefix, a) != field_key(prefix, b) by {
        if field_key(prefix, a) == field_key(prefix, b) {
            lemma_field_key_injective(prefix, a, b);
        }
    }
}

proof fn lemma_prefixes_apart(p: u32, q: u32, a: Seq<char>, b: Seq<char>)
    requires
        p < 3,
        q < 3,
        p != q,
    ensures
        field_key(encoder_prefix(p)->0, a) != field_key(encoder_prefix(q)->0, b),
{
    reveal_strlit("video.0");
    reveal_strlit("video.1");
    reveal_strlit("video.2");
    let x = field_key(encoder_prefix(p)->0, a);
    let y = field_key(encoder_prefix(q)->0, b);
    assert(x[6] == encoder_prefix(p)->0[6]);
    assert(y[6] == encoder_prefix(q)->0[6]);
}

/// Setting one stream's encoder leaves those of the other streams as they were.
pub proof fn law_encoders_apart(
    s: StoreView,
    chn: u32,
    other: u32,
    set: EncoderConfig,
    got: EncoderConfig,
)
    requires
        chn < 3,
        other < 3,
        chn != other,
    ensures
        is_encoder_config(
            got,
            encoder_saved(s, encoder_prefix(chn)->0, set),
            encoder_prefix(other)->0,
        ) <==> is_encoder_config(got, s, encoder_prefix(other)->0),
{
    let p = encoder_prefix(chn)->0;
    let q = encoder_prefix(other)->0;
    assert forall|a: Seq<char>, b: Seq<char>|
        #![trigger field_key(p, a), field_key(q, b)]
        field_key(p, a) != field_key(q, b) by {
        lemma_prefixes_apart(chn, other, a, b);
    }
}

/// What is set of what the camera says of itself is what is read afterwards; what is
/// not set stays as it was.
pub proof fn law_system_set_then_get(
    s: StoreView,
    set: SystemConfigSet,
    before: SystemConfig,
    got: SystemConfig,
)
    requires
        is_system_config(before, s),
        is_system_config(got, system_saved(s, set)),
    ensures
        got.device_name@ == match set.device_name {
            Some(t) => t@,
            None => before.device_name@,
        },
        got.telecontrol_id@ == match set.telecontrol_id {
            Some(t) => t@,
            None => before.telecontrol_id@,
        },
        got.model@ == before.model@,
        got.serial_number@ == before.serial_number@,
        got.firmware_version@ == before.firmware_version@,
        got.manufacturer@ == before.manufacturer@,
{
    reveal_strlit("system.device_info.device_name");
    reveal_strlit("system.device_info.telecontrol_id");
    reveal_strlit("system.device_info.model");
    reveal_strlit("system.device_info.serial_number");
    reveal_strlit("system.device_info.firmware_version");
    reveal_strlit("system.device_info.manufacturer");
    assert(DEVICE_NAME_KEY@[19] != TELECONTROL_ID_KEY@[19]);
    assert(DEVICE_NAME_KEY@[19] != MODEL_KEY@[19]);
    assert(DEVICE_NAME_KEY@[19] != SERIAL_NUMBER_KEY@[19]);
    assert(DEVICE_NAME_KEY@[19] != FIRMWARE_VERSION_KEY@[19]);
    assert(DEVICE_NAME_KEY@[19] != MANUFACTURER_KEY@[19]);
    assert(TELECONTROL_ID_KEY@[19] != MODEL_KEY@[19]);
    assert(TELECONTROL_ID_KEY@[19] != SERIAL_NUMBER_KEY@[19]);
    assert(TELECONTROL_ID_KEY@[19] != FIRMWARE_VERSION_KEY@[19]);
    assert(TELECONTROL_ID_KEY@[19] != MANUFACTURER_KEY@[19]);
}

/// The image processor after it was adjusted.
pub open spec fn adjusted(isp: IspReadings, a: ImageAdjustment) -> IspReadings {
    IspReadings {
        contrast: match a.contrast {
            Some(v) => v,
            None => isp.contrast,
        },
        brightness: match a.brightness {
            Some(v) => v,
            None => isp.brightness,
        },
        saturation: match a.saturation {
            Some(v) => v,
            None => isp.saturation,
        },
        sharpness: match a.sharpness {
            Some(v) => v,
            None => isp.sharpness,
        },
        hue: match a.hue {
            Some(v) => v,
            None => isp.hue,
        },
    }
}

/// The image processor after one write.
pub open spec fn written(isp: IspReadings, control: IspControl, value: i32) -> IspReadings {
    match control {
        IspControl::Contrast => IspReadings { contrast: value, ..isp },
        IspControl::Brightness => IspReadings { brightness: value, ..isp },
        IspControl::Saturation => IspReadings { saturation: value, ..isp },
        IspControl::Sharpness => IspReadings { sharpness: value, ..isp },
        IspControl::Hue => IspReadings { hue: value, ..isp },
    }
}

/// The image processor after these writes, in order.
pub open spec fn written_all(isp: IspReadings, writes: Seq<(IspControl, i32)>) -> IspReadings
    decreases writes.len(),
{
    if writes.len() == 0 {
        isp
    } else {
        written(
            written_all(isp, writes.drop_last()),
            writes.last().0,
            writes.last().1,
        )
    }
}

proof fn lemma_written_append(
    isp: IspReadings,
    writes: Seq<(IspControl, i32)>,
    control: IspControl,
    value: Option<i32>,
)
    ensures
        written_all(isp, writes + isp_write(control, value)) == match value {
            Some(v) => written(written_all(isp, writes), control, v),
            None => written_all(isp, writes),
        },
{
    match value {
        Some(v) => {
            let all = writes + isp_write(control, value);
            assert(all.drop_last() =~= writes);
            assert(all.last() == (control, v));
        },
        None => {
            assert(writes + isp_write(control, value) =~= writes);
        },
    }
}

/// Writing what setting an adjustment asks for changes exactly the fields that are
/// there.
pub proof fn law_partial_adjustment(isp: IspReadings, a: ImageAdjustment)
    ensures
        written_all(isp, isp_writes(a)) == adjusted(isp, a),
{
    let w0 = Seq::<(IspControl, i32)>::empty();
    let w1 = isp_write(IspControl::Contrast, a.contrast);
    let w2 = w1 + isp_write(IspControl::Brightness, a.brightness);
    let w3 = w2 + isp_write(IspControl::Saturation, a.saturation);
    let w4 = w3 + isp_write(IspControl::Sharpness, a.sharpness);
    assert(w0 + w1 =~= w1);
    lemma_written_append(isp, w0, IspControl::Contrast, a.contrast);
    lemma_written_append(isp, w1, IspControl::Brightness, a.brightness);
    lemma_written_append(isp, w2, IspControl::Saturation, a.saturation);
    lemma_written_append(isp, w3, IspControl::Sharpness, a.sharpness);
    lemma_written_append(isp, w4, IspControl::Hue, a.hue);
}

/// The camera is set up with one channel for each stream that there is, numbered 0, 1 and
/// 2 for main, sub and third, in this order; the main one is always there. Numbers that
/// fit are handed over as they are, texts always.
pub proof fn law_channels_follow_streams(s: RkVideoSource)
    ensures
        ({
            let channels = channel_list(s);
            let subs: int = if s.sub_params is Some {
                1
            } else {
                0
            };
            let thirds: int = if s.third_params is Some {
                1
            } else {
                0
            };
            &&& channels.len() == 1 + subs + thirds
            &&& channels[0].chn_id == 0 && channels[0] == setup_of(0, s.main_params)
            &&& s.sub_params matches Some(p) ==> channels[1] == setup_of(1, p)
            &&& s.third_params matches Some(p) ==> channels.last() == setup_of(2, p)
        }),
{
}

/// A channel is set up with the parameters of its stream, each under its own name.
pub proof fn law_setup_keeps_parameters(chn_id: i32, p: StreamParams)
    ensures
        ({
            let c = setup_of(chn_id, p);
            &&& c.chn_id == chn_id
            &&& c.codec@ == p.codec@ && c.rc_mode@ == p.rc_mode@ && c.rc_quality@ == p.rc_quality@
            &&& c.gop_mode@ == p.gop_mode@ && c.h264_profile@ == p.h264_profile@ && c.mirror@
                == p.mirror@
            &&& p.width < 0x8000_0000 ==> c.width == p.width
            &&& p.height < 0x8000_0000 ==> c.height == p.height
            &&& p.src_fps_num < 0x8000_0000 ==> c.src_fps_num == p.src_fps_num
            &&& p.src_fps_den < 0x8000_0000 ==> c.src_fps_den == p.src_fps_den
            &&& p.dst_fps_num < 0x8000_0000 ==> c.dst_fps_num == p.dst_fps_num
            &&& p.dst_fps_den < 0x8000_0000 ==> c.dst_fps_den == p.dst_fps_den
            &&& p.bitrate_kbps < 0x8000_0000 ==> c.bitrate_kbps == p.bitrate_kbps
            &&& p.gop < 0x8000_0000 ==> c.gop == p.gop
            &&& p.smartp_viridrlen < 0x8000_0000 ==> c.smartp_viridrlen == p.smartp_viridrlen
            &&& p.stream_buf_cnt < 0x8000_0000 ==> c.stream_buf_cnt == p.stream_buf_cnt
        }),
{
}

/// Audio is flagged by its encoding: G.711 by its own law each, anything else as PCM.
pub proof fn law_audio_flags(encode_type: Seq<char>)
    ensures
        encode_type == "G711A"@ ==> flags_of(encode_type) == AUDIO_CODEC_G711A,
        encode_type == "G711U"@ ==> flags_of(encode_type) == AUDIO_CODEC_G711U,
        encode_type != "G711A"@ && encode_type != "G711U"@ ==> flags_of(encode_type)
            == AUDIO_CODEC_PCM,
{
    reveal_strlit("G711A");
    reveal_strlit("G711U");
    assert("G711A"@[4] == 'A' && "G711U"@[4] == 'U');
}

/// The parameters of the channels 0, 1 and 2 are kept under `video.` and the number of
/// the channel; there is no other channel.
pub proof fn law_channel_prefix(chn_id: u32)
    ensures
        encoder_prefix(chn_id) is Some <==> chn_id < 3,
        chn_id < 3 ==> encoder_prefix(chn_id) == Some("video."@ + decimal(chn_id as nat)),
{
    reveal_strlit("video.");
    reveal_strlit("video.0");
    reveal_strlit("video.1");
    reveal_strlit("video.2");
    if chn_id < 3 {
        assert(encoder_prefix(chn_id)->0 =~= "video."@ + decimal(chn_id as nat));
    }
}

/// What a camera that was never set up reports of an encoder.
pub proof fn law_default_encoder(s: StoreView, prefix: Seq<char>, c: EncoderConfig)
    requires
        is_encoder_config(c, s, prefix),
        s.ints == Map::<Seq<char>, i32>::empty(),
        s.texts == Map::<Seq<char>, Seq<char>>::empty(),
    ensures
        c.output_data_type@ == "H.265"@,
        c.width == 2304 && c.height == 1296,
        c.rc_mode@ == "CBR"@ && c.rc_quality@ == "high"@,
        c.gop == 50 && c.gop_mode@ == "normalP"@,
        c.max_rate == 2048,
        c.dst_frame_rate_num == 25 && c.dst_frame_rate_den == 1,
        c.h264_profile@ == "high"@ && c.smart@ == "close"@ && c.rotation == 0,
{
}

/// What was stored of an encoder is written to the disk under its thirteen keys, each
/// once, in the order of the fields; nothing else is.
pub proof fn law_encoder_is_written(s: StoreView, prefix: Seq<char>, c: EncoderConfig)
    ensures
        ({
            let w = encoder_saved(s, prefix, c).writes;
            let n = s.writes.len() as int;
            &&& w.len() == n + 13
            &&& w.take(n) == s.writes
            &&& w[n] == (prefix + ".output_data_type"@, ValueView::Text(c.output_data_type@))
            &&& w[n + 1] == (prefix + ".width"@, ValueView::Int(same_bits(c.width)))
            &&& w[n + 2] == (prefix + ".height"@, ValueView::Int(same_bits(c.height)))
            &&& w[n + 3] == (prefix + ".rc_mode"@, ValueView::Text(c.rc_mode@))
            &&& w[n + 4] == (prefix + ".rc_quality"@, ValueView::Text(c.rc_quality@))
            &&& w[n + 5] == (prefix + ".gop"@, ValueView::Int(same_bits(c.gop)))
            &&& w[n + 6] == (prefix + ".gop_mode"@, ValueView::Text(c.gop_mode@))
            &&& w[n + 7] == (prefix + ".max_rate"@, ValueView::Int(same_bits(c.max_rate)))
            &&& w[n + 8] == (
                prefix + ".dst_frame_rate_num"@,
                ValueView::Int(same_bits(c.dst_frame_rate_num)),
            )
            &&& w[n + 9] == (
                prefix + ".dst_frame_rate_den"@,
                ValueView::Int(same_bits(c.dst_frame_rate_den)),
            )
            &&& w[n + 10] == (prefix + ".h264_profile"@, ValueView::Text(c.h264_profile@))
            &&& w[n + 11] == (prefix + ".smart"@, ValueView::Text(c.smart@))
            &&& w[n + 12] == (prefix + ".rotation"@, ValueView::Int(same_bits(c.rotation)))
        }),
{
    lemma_dotted(prefix);
    let w = encoder_saved(s, prefix, c).writes;
    assert(w.take(s.writes.len() as int) =~= s.writes);
}

proof fn lemma_dotted(prefix: Seq<char>)
    ensures
        field_key(prefix, "output_data_type"@) == prefix + ".output_data_type"@,
        field_key(prefix, "width"@) == prefix + ".width"@,
        field_key(prefix, "height"@) == prefix + ".height"@,
        field_key(prefix, "rc_mode"@) == prefix + ".rc_mode"@,
        field_key(prefix, "rc_quality"@) == prefix + ".rc_quality"@,
        field_key(prefix, "gop"@) == prefix + ".gop"@,
        field_key(prefix, "gop_mode"@) == prefix + ".gop_mode"@,
        field_key(prefix, "max_rate"@) == prefix + ".max_rate"@,
        field_key(prefix, "dst_frame_rate_num"@) == prefix + ".dst_frame_rate_num"@,
        field_key(prefix, "dst_frame_rate_den"@) == prefix + ".dst_frame_rate_den"@,
        field_key(prefix, "h264_profile"@) == prefix + ".h264_profile"@,
        field_key(prefix, "smart"@) == prefix + ".smart"@,
        field_key(prefix, "rotation"@) == prefix + ".rotation"@,
{
    reveal_strlit(".");
    reveal_strlit("output_data_type");
    reveal_strlit(".output_data_type");
    reveal_strlit("width");
    reveal_strlit(".width");
    reveal_strlit("height");
    reveal_strlit(".height");
    reveal_strlit("rc_mode");
    reveal_strlit(".rc_mode");
    reveal_strlit("rc_quality");
    reveal_strlit(".rc_quality");
    reveal_strlit("gop");
    reveal_strlit(".gop");
    reveal_strlit("gop_mode");
    reveal_strlit(".gop_mode");
    reveal_strlit("max_rate");
    reveal_strlit(".max_rate");
    reveal_strlit("dst_frame_rate_num");
    reveal_strlit(".dst_frame_rate_num");
    reveal_strlit("dst_frame_rate_den");
    reveal_strlit(".dst_frame_rate_den");
    reveal_strlit("h264_profile");
    reveal_strlit(".h264_profile");
    reveal_strlit("smart");
    reveal_strlit(".smart");
    reveal_strlit("rotation");
    reveal_strlit(".rotation");
    lemma_key_parts(prefix, "output_data_type"@, ".output_data_type"@);
    lemma_key_parts(prefix, "width"@, ".width"@);
    lemma_key_parts(prefix, "height"@, ".height"@);
    lemma_key_parts(prefix, "rc_mode"@, ".rc_mode"@);
    lemma_key_parts(prefix, "rc_quality"@, ".rc_quality"@);
    lemma_key_parts(prefix, "gop"@, ".gop"@);
    lemma_key_parts(prefix, "gop_mode"@, ".gop_mode"@);
    lemma_key_parts(prefix, "max_rate"@, ".max_rate"@);
    lemma_key_parts(prefix, "dst_frame_rate_num"@, ".dst_frame_rate_num"@);
    lemma_key_parts(prefix, "dst_frame_rate_den"@, ".dst_frame_rate_den"@);
    lemma_key_parts(prefix, "h264_profile"@, ".h264_profile"@);
    lemma_key_parts(prefix, "smart"@, ".smart"@);
    lemma_key_parts(prefix, "rotation"@, ".rotation"@);
}

proof fn lemma_key_parts(prefix: Seq<char>, field: Seq<char>, dotted: Seq<char>)
    requires
        dotted =~= "."@ + field,
    ensures
        field_key(prefix, field) == prefix + dotted,
{
    assert(field_key(prefix, field) =~= prefix + dotted);
}

/// The camera's own list of default parameters says what it reports before anything was
/// set.
pub proof fn law_default_params_agree(s: StoreView, prefix: Seq<char>, c: EncoderConfig)
    requires
        is_encoder_config(c, s, prefix),
        s.ints == Map::<Seq<char>, i32>::empty(),
        s.texts == Map::<Seq<char>, Seq<char>>::empty(),
    ensures
        encoder_param_list(prefix) == encoder_saved(s, prefix, c).writes.skip(
            s.writes.len() as int,
        ),
{
    law_default_encoder(s, prefix, c);
    assert(encoder_param_list(prefix) =~= encoder_saved(s, prefix, c).writes.skip(
        s.writes.len() as int,
    ));
}

/// Only what is named of an adjustment is stored, under the camera's number: `isp.`, the
/// number, `.adjustment.` and the name; all else stays as it was.
pub proof fn law_adjustment_is_stored(
    s: StoreView,
    cam_id: u32,
    a: ImageAdjustment,
    key: Seq<char>,
    default: i32,
)
    ensures
        ({
            let now = adjustment_saved(s, image_prefix(cam_id), a);
            let prefix = "isp."@ + decimal(cam_id as nat) + ".adjustment"@;
            &&& a.contrast matches Some(v) ==> int_at(now, prefix + ".contrast"@, default) == v
            &&& a.brightness matches Some(v) ==> int_at(now, prefix + ".brightness"@, default) == v
            &&& a.saturation matches Some(v) ==> int_at(now, prefix + ".saturation"@, default) == v
            &&& a.sharpness matches Some(v) ==> int_at(now, prefix + ".sharpness"@, default) == v
            &&& a.hue matches Some(v) ==> int_at(now, prefix + ".hue"@, default) == v
            &&& (a.contrast is None || key != prefix + ".contrast"@) && (a.brightness is None || key
                != prefix + ".brightness"@) && (a.saturation is None || key != prefix
                + ".saturation"@) && (a.sharpness is None || key != prefix + ".sharpness"@) && (
            a.hue is None || key != prefix + ".hue"@) ==> int_at(now, key, default) == int_at(
                s,
                key,
                default,
            )
            &&& now.texts == s.texts
        }),
{
    let prefix = "isp."@ + decimal(cam_id as nat) + ".adjustment"@;
    reveal_strlit(".");
    reveal_strlit("contrast");
    reveal_strlit("brightness");
    reveal_strlit("saturation");
    reveal_strlit("sharpness");
    reveal_strlit("hue");
    reveal_strlit(".contrast");
    reveal_strlit(".brightness");
    reveal_strlit(".saturation");
    reveal_strlit(".sharpness");
    reveal_strlit(".hue");
    lemma_key_parts(prefix, "contrast"@, ".contrast"@);
    lemma_key_parts(prefix, "brightness"@, ".brightness"@);
    lemma_key_parts(prefix, "saturation"@, ".saturation"@);
    lemma_key_parts(prefix, "sharpness"@, ".sharpness"@);
    lemma_key_parts(prefix, "hue"@, ".hue"@);
    let n = prefix.len() as int;
    assert((prefix + ".contrast"@)[n + 1] == 'c');
    assert((prefix + ".brightness"@)[n + 1] == 'b');
    assert((prefix + ".saturation"@)[n + 1] == 's' && (prefix + ".saturation"@)[n + 2] == 'a');
    assert((prefix + ".sharpness"@)[n + 1] == 's' && (prefix + ".sharpness"@)[n + 2] == 'h');
    assert((prefix + ".hue"@)[n + 1] == 'h');
}

/// A call of the hardware's library succeeds exactly where it returns 0; else the error
/// names the call and what it returned.
pub proof fn law_call_succeeds_with_zero(what: Seq<char>, code: i32)
    ensures
        call_result(what, code) is Ok <==> code == 0,
        code != 0 ==> call_result(what, code) == Err::<(), Seq<char>>(
            what + " failed: "@ + signed_decimal(code as int),
        ),
{
}

/// What a camera that was never set up says of itself, and that only its name and its
/// number for remote control can be changed.
pub proof fn law_default_system(s: StoreView, c: SystemConfig)
    requires
        is_system_config(c, s),
        s.texts == Map::<Seq<char>, Seq<char>>::empty(),
    ensures
        c.device_name@ == "RK IP Camera"@,
        c.telecontrol_id@ == "0"@,
        c.model@ == "RV1106"@,
        c.serial_number@ == "unknown"@,
        c.firmware_version@ == "1.0.0"@,
        c.manufacturer@ == "Rockchip"@,
{
}

} // verus!
