//! The control channel: requests, responses, and the frames that carry them.
//!
//! A frame is a length in four bytes, most significant first, then that many bytes
//! of JSON.

use vstd::prelude::*;

use crate::be_bytes::{
    be_bytes, be_read, be_u32, be_value, lemma_be_bytes_len, lemma_be_bytes_wrap,
    lemma_be_inverse, lemma_be_roundtrip, lemma_be_value_bound, lemma_byte_ranges,
};

verus! {

broadcast use vstd::string::group_string_axioms;

/// A request of the viewer.
#[allow(inconsistent_fields)]
#[derive(Debug, Clone)]
pub enum ControlRequest {
    /// Encoder parameters of a stream: `main`, `sub` or `third`.
    GetEncoderConfig { stream: String },
    SetEncoderConfig { stream: String, config: EncoderConfig },
    GetImageConfig { cam_id: u32 },
    SetImageConfig { cam_id: u32, config: ImageConfig },
    GetSystemConfig,
    SetSystemConfig { config: SystemConfigSet },
    SystemReboot,
    FactoryReset,
    /// The video files made of snapshots.
    ListSnapshots,
    /// Whether a file can be downloaded, and its size.
    DownloadFile { name: String },
}

/// The camera's answer.
#[derive(Debug, Clone)]
pub struct ControlResponse {
    pub ok: bool,
    pub error: Option<String>,
    pub encoder_config: Option<EncoderConfig>,
    pub image_config: Option<ImageConfig>,
    pub system_config: Option<SystemConfig>,
    pub avi_files: Option<Vec<String>>,
    pub file_size: Option<u64>,
}

impl ControlResponse {
    /// Success, with nothing to report.
    pub open spec fn is_plain_ok(self) -> bool {
        self == (ControlResponse {
            ok: true,
            error: None,
            encoder_config: None,
            image_config: None,
            system_config: None,
            avi_files: None,
            file_size: None,
        })
    }

    /// Failure with this text, and nothing else.
    pub open spec fn is_error(self, text: Seq<char>) -> bool {
        &&& !self.ok
        &&& self.error matches Some(e) && e@ == text
        &&& self.encoder_config is None
        &&& self.image_config is None
        &&& self.system_config is None
        &&& self.avi_files is None
        &&& self.file_size is None
    }

    pub fn ok() -> (r: ControlResponse)
        ensures
            r.is_plain_ok(),
    {
        ControlResponse {
            ok: true,
            error: None,
            encoder_config: None,
            image_config: None,
            system_config: None,
            avi_files: None,
            file_size: None,
        }
    }

    pub fn err(msg: &str) -> (r: ControlResponse)
        ensures
            r.is_error(msg@),
    {
        ControlResponse {
            ok: false,
            error: Some(msg.to_owned()),
            encoder_config: None,
            image_config: None,
            system_config: None,
            avi_files: None,
            file_size: None,
        }
    }
}

/// Parameters of an encoder.
#[derive(Debug, Clone)]
pub struct EncoderConfig {
    /// `H.264` or `H.265`
    pub output_data_type: String,
    pub width: u32,
    pub height: u32,
    /// `CBR` or `VBR`
    pub rc_mode: String,
    /// `lowest`, `low`, `medium`, `high` or `highest`
    pub rc_quality: String,
    pub gop: u32,
    /// `normalP` or `smartP`
    pub gop_mode: String,
    /// In kbit/s
    pub max_rate: u32,
    pub dst_frame_rate_num: u32,
    pub dst_frame_rate_den: u32,
    /// `high`, `main` or `baseline`
    pub h264_profile: String,
    /// `open` or `close`
    pub smart: String,
    /// 0, 90, 180 or 270
    pub rotation: u32,
}

/// Parameters of the image, in groups that may each be left out.
#[derive(Debug, Clone)]
pub struct ImageConfig {
    pub adjustment: Option<ImageAdjustment>,
    pub exposure: Option<ImageExposure>,
    pub night_to_day: Option<ImageNightToDay>,
    pub white_balance: Option<ImageWhiteBalance>,
    pub enhancement: Option<ImageEnhancement>,
    pub video_adjustment: Option<ImageVideoAdjustment>,
}

/// Adjustment of the image, each value from 0 to 100. Only the fields that are
/// there are changed.
#[derive(Debug, Clone, Copy)]
pub struct ImageAdjustment {
    pub contrast: Option<i32>,
    pub brightness: Option<i32>,
    pub saturation: Option<i32>,
    pub sharpness: Option<i32>,
    pub hue: Option<i32>,
}

/// Exposure.
#[derive(Debug, Clone)]
pub struct ImageExposure {
    /// `auto` or `manual`
    pub exposure_mode: String,
    /// `auto` or `manual`
    pub gain_mode: String,
    pub exposure_time: i32,
    pub exposure_gain: i32,
}

/// Switching between night and day.
#[derive(Debug, Clone)]
pub struct ImageNightToDay {
    /// `day`, `night` or `auto`
    pub night_to_day_mode: String,
    pub switch_sensitivity: i32,
    pub ir_cut_status: i32,
}

/// White balance.
#[derive(Debug, Clone)]
pub struct ImageWhiteBalance {
    /// `auto` or `manual`
    pub wb_mode: String,
    pub r_gain: i32,
    pub b_gain: i32,
    pub auto_wb_speed: i32,
}

/// Enhancement of the image.
#[derive(Debug, Clone)]
pub struct ImageEnhancement {
    pub denoise_level: i32,
    pub spatial_denoise_level: i32,
    pub dehaze_level: i32,
    pub fec_level: i32,
    /// `close`, `auto` or `manual`
    pub hdr_mode: String,
    pub hdr_level: i32,
    /// `open` or `close`
    pub distortion_correction: String,
    pub wdr_level: i32,
}

/// Turning the picture over.
#[derive(Debug, Clone)]
pub struct ImageVideoAdjustment {
    /// `open` or `close`
    pub flip: String,
    /// `open` or `close`
    pub mirror: String,
}

/// What the camera says of itself.
#[derive(Debug, Clone)]
pub struct SystemConfig {
    pub device_name: String,
    pub telecontrol_id: String,
    pub model: String,
    pub serial_number: String,
    pub firmware_version: String,
    pub manufacturer: String,
}

/// What can be set of it.
#[derive(Debug, Clone)]
pub struct SystemConfigSet {
    pub device_name: Option<String>,
    pub telecontrol_id: Option<String>,
}

/// Bytes of a frame's length.
pub const LEN_SIZE: usize = 4;

/// The longest frame that is read from a stream.
pub const MAX_FRAME_LEN: usize = 1024 * 1024;

/// Why a frame is refused.
#[derive(Debug, Clone, Copy, PartialEq, Eq, Structural)]
pub enum FrameError {
    TooLarge(usize),
}

/// A frame on the wire. A length of 2^32 or more is cut to its low 32 bits.
pub open spec fn frame_bytes(payload: Seq<u8>) -> Seq<u8> {
    be_bytes(payload.len(), 4) + payload
}

/// The payload of the first frame of `s`, if all of it is there.
pub open spec fn first_frame(s: Seq<u8>) -> Option<Seq<u8>> {
    if s.len() >= LEN_SIZE && s.len() - LEN_SIZE >= be_value(s.take(4)) {
        Some(s.subrange(4, 4 + be_value(s.take(4)) as int))
    } else {
        None
    }
}

/// The length that goes before a payload.
pub fn frame_header(payload_len: usize) -> (r: [u8; 4])
    ensures
        r@ == be_bytes(payload_len as nat, 4),
{
    proof {
        lemma_be_bytes_wrap(payload_len as nat, 4);
        lemma_byte_ranges();
    }
    let low: u32 = (payload_len as u64 % 0x1_0000_0000) as u32;
    be_u32(low)
}

fn encode_frame(json: &[u8]) -> (r: Vec<u8>)
    ensures
        r@ == frame_bytes(json@),
{
    let header: [u8; 4] = frame_header(json.len());
    let mut buf: Vec<u8> = Vec::new();
    buf.extend_from_slice(header.as_slice());
    buf.extend_from_slice(json);
    assert(buf@ =~= frame_bytes(json@));
    buf
}

fn try_decode_frame(buf: &[u8]) -> (r: Option<(&[u8], usize)>)
    ensures
        match first_frame(buf@) {
            Some(payload) => r matches Some((p, used)) && p@ == payload && used == LEN_SIZE
                + payload.len(),
            None => r is None,
        },
{
    if buf.len() < LEN_SIZE {
        return None;
    }
    proof {
        assert(buf@.take(4) =~= buf@.subrange(0, 4));
        lemma_be_value_bound(buf@.take(4));
        lemma_byte_ranges();
    }
    let len: usize = be_read(vstd::slice::slice_subrange(buf, 0, 4)) as usize;
    if buf.len() - LEN_SIZE < len {
        return None;
    }
    Some((vstd::slice::slice_subrange(buf, LEN_SIZE, LEN_SIZE + len), LEN_SIZE + len))
}

/// A frame around a request in JSON.
pub fn encode_request(json: &[u8]) -> (r: Vec<u8>)
    ensures
        r@ == frame_bytes(json@),
{
    encode_frame(json)
}

/// A frame around a response in JSON.
pub fn encode_response(json: &[u8]) -> (r: Vec<u8>)
    ensures
        r@ == frame_bytes(json@),
{
    encode_frame(json)
}

/// The request in JSON in the first frame of the buffer, and the bytes that the frame
/// takes up, if all of it is there.
pub fn try_decode_request(buf: &[u8]) -> (r: Option<(&[u8], usize)>)
    ensures
        match first_frame(buf@) {
            Some(payload) => r matches Some((p, used)) && p@ == payload && used == LEN_SIZE
                + payload.len(),
            None => r is None,
        },
{
    try_decode_frame(buf)
}

/// The response in JSON in the first frame of the buffer, and the bytes that the
/// frame takes up, if all of it is there.
pub fn try_decode_response(buf: &[u8]) -> (r: Option<(&[u8], usize)>)
    ensures
        match first_frame(buf@) {
            Some(payload) => r matches Some((p, used)) && p@ == payload && used == LEN_SIZE
                + payload.len(),
            None => r is None,
        },
{
    try_decode_frame(buf)
}

/// The length that a frame's header announces, or its refusal.
pub open spec fn accepted_frame_len(header: Seq<u8>) -> Result<usize, FrameError> {
    if be_value(header) > MAX_FRAME_LEN {
        Err(FrameError::TooLarge(be_value(header) as usize))
    } else {
        Ok(be_value(header) as usize)
    }
}

/// How many bytes of payload to read from a stream after a frame's length.
pub fn read_frame_len(header: [u8; 4]) -> (r: Result<usize, FrameError>)
    ensures
        r == accepted_frame_len(header@),
{
    proof {
        lemma_be_value_bound(header@);
        lemma_byte_ranges();
    }
    let len: usize = be_read(header.as_slice()) as usize;
    if len > MAX_FRAME_LEN {
        return Err(FrameError::TooLarge(len));
    }
    Ok(len)
}

/// A payload whose length fits the header is read back from its frame, whatever
/// follows, and the frame takes up exactly its own bytes.
pub proof fn law_frame_roundtrip(payload: Seq<u8>, rest: Seq<u8>)
    requires
        payload.len() < 0x1_0000_0000,
    ensures
        first_frame(frame_bytes(payload) + rest) == Some(payload),
        frame_bytes(payload).len() == LEN_SIZE + payload.len(),
        (frame_bytes(payload) + rest).skip(LEN_SIZE + payload.len()) == rest,
{
    let s = frame_bytes(payload) + rest;
    lemma_be_bytes_len(payload.len(), 4);
    lemma_byte_ranges();
    lemma_be_roundtrip(payload.len(), 4);
    assert(s.take(4) =~= be_bytes(payload.len(), 4));
    assert(s.subrange(4, 4 + payload.len() as int) =~= payload);
    assert(s.skip(LEN_SIZE + payload.len()) =~= rest);
}

/// As long as a frame has not arrived in full, nothing is read.
pub proof fn law_partial_frame_waits(payload: Seq<u8>, arrived: int)
    requires
        payload.len() < 0x1_0000_0000,
        0 <= arrived < frame_bytes(payload).len(),
    ensures
        first_frame(frame_bytes(payload).take(arrived)) is None,
{
    lemma_be_bytes_len(payload.len(), 4);
    if arrived >= LEN_SIZE {
        lemma_byte_ranges();
        lemma_be_roundtrip(payload.len(), 4);
        assert(frame_bytes(payload).take(arrived).take(4) =~= be_bytes(payload.len(), 4));
    }
}

/// What is read as a frame is exactly what its payload is framed as.
pub proof fn law_frame_canonical(s: Seq<u8>)
    requires
        first_frame(s) is Some,
    ensures
        s.take(LEN_SIZE + first_frame(s)->0.len()) == frame_bytes(first_frame(s)->0),
{
    lemma_be_inverse(s.take(4));
    lemma_be_value_bound(s.take(4));
    assert(s.take(LEN_SIZE + first_frame(s)->0.len()) =~= frame_bytes(first_frame(s)->0));
}

/// The header that is written before a payload of at most [`MAX_FRAME_LEN`] bytes
/// tells the reader that payload's length; one before a longer payload, up to the
/// largest length that it can hold, is refused.
pub proof fn law_frame_header_read(payload_len: nat)
    requires
        payload_len < 0x1_0000_0000,
    ensures
        accepted_frame_len(be_bytes(payload_len, 4)) == if payload_len <= MAX_FRAME_LEN {
            Ok::<usize, FrameError>(payload_len as usize)
        } else {
            Err(FrameError::TooLarge(payload_len as usize))
        },
{
    lemma_byte_ranges();
    lemma_be_roundtrip(payload_len, 4);
}

/// A frame on the wire is the length of its payload in four bytes, then the payload. One
/// of more than a megabyte is refused.
pub proof fn law_frame_layout(payload: Seq<u8>, header: Seq<u8>)
    requires
        payload.len() < 0x1_0000_0000,
        header.len() == 4,
    ensures
        frame_bytes(payload).len() == 4 + payload.len(),
        frame_bytes(payload).skip(4) == payload,
        be_value(frame_bytes(payload).take(4)) == payload.len(),
        accepted_frame_len(header) is Ok <==> be_value(header) <= 1_048_576,
        accepted_frame_len(header) matches Ok(n) ==> n == be_value(header),
{
    lemma_be_bytes_len(payload.len(), 4);
    lemma_byte_ranges();
    lemma_be_roundtrip(payload.len(), 4);
    assert(frame_bytes(payload).take(4) =~= be_bytes(payload.len(), 4));
    assert(frame_bytes(payload).skip(4) =~= payload);
}

/// A response is good or an error with a text, never both.
pub proof fn law_responses(r: ControlResponse, text: Seq<char>)
    ensures
        r.is_plain_ok() ==> r.ok && r.error is None && !r.is_error(text),
        r.is_error(text) ==> !r.ok && (r.error matches Some(e) && e@ == text),
        r.is_plain_ok() || r.is_error(text) ==> r.encoder_config is None && r.image_config is None
            && r.system_config is None && r.avi_files is None && r.file_size is None,
{
}

} // verus!
