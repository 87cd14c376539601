//! The camera's answers to control requests.

use vstd::prelude::*;

use super::params::{same_bits, to_signed, ParamStore, StoreView};
use super::rk_video_source::{
    adjusted, adjustment_saved, call_result, encoder_no_nul, encoder_prefix, encoder_saved, factory_reset,
    get_encoder_config, get_image_config, get_system_config, image_prefix, is_encoder_config,
    is_system_config, isp_writes, law_default_encoder, law_encoder_set_then_get,
    law_partial_adjustment, law_system_set_then_get, no_nul, set_encoder_config, set_image_config, set_system_config,
    system_no_nul, system_reboot, system_saved, written_all, IspControl, IspReadings,
};
use crate::proto::control::{
    ControlRequest, ControlResponse, EncoderConfig, ImageAdjustment, ImageConfig, SystemConfig,
    SystemConfigSet,
};
use crate::sorting::{in_order, sort_texts};
use crate::text::{
    contains, decimal, ends_with, law_ends_with, push_decimal, str_contains, str_ends_with, str_eq,
};

verus! {

broadcast use vstd::string::group_string_axioms;

/// Where videos made of snapshots are kept.
pub const SNAP_DIR: &'static str = "/userdata/snaps";

/// How many bytes of a file are sent in a frame.
pub const FILE_CHUNK: usize = 65536;

/// The answer where there is no camera hardware.
pub const NOT_AVAILABLE: &'static str = "not available on this platform";

/// The encoder channel of a stream.
pub open spec fn channel_named(stream: Seq<char>) -> Option<u32> {
    if stream == "main"@ {
        Some(0)
    } else if stream == "sub"@ {
        Some(1)
    } else if stream == "third"@ {
        Some(2)
    } else {
        None
    }
}

/// The encoder channel of a stream.
pub fn stream_name_to_id(stream: &str) -> (r: Option<u32>)
    ensures
        r == channel_named(stream@),
{
    if str_eq(stream, "main") {
        Some(0)
    } else if str_eq(stream, "sub") {
        Some(1)
    } else if str_eq(stream, "third") {
        Some(2)
    } else {
        None
    }
}

/// A number and what is wrong with it.
pub open spec fn out_of_range(what: Seq<char>, n: u32, range: Seq<char>) -> Seq<char> {
    what + " "@ + decimal(n as nat) + " out of range "@ + range
}

/// Whether a text names how the bit rate is controlled.
pub open spec fn known_quality(q: Seq<char>) -> bool {
    q == "lowest"@ || q == "lower"@ || q == "low"@ || q == "medium"@ || q == "high"@ || q
        == "higher"@ || q == "highest"@
}

/// What is wrong with encoder parameters, if anything is: the first thing in the
/// order of the fields below.
pub open spec fn encoder_fault(c: EncoderConfig) -> Option<Seq<char>> {
    if !(320 <= c.width <= 4096) {
        Some(out_of_range("width"@, c.width, "320-4096"@))
    } else if !(240 <= c.height <= 2160) {
        Some(out_of_range("height"@, c.height, "240-2160"@))
    } else if !(1 <= c.max_rate <= 16384) {
        Some(out_of_range("max_rate"@, c.max_rate, "1-16384"@))
    } else if !(1 <= c.dst_frame_rate_num <= 30) {
        Some(out_of_range("dst_frame_rate_num"@, c.dst_frame_rate_num, "1-30"@))
    } else if c.dst_frame_rate_den == 0 {
        Some("dst_frame_rate_den must be positive"@)
    } else if !(1 <= c.gop <= 400) {
        Some(out_of_range("gop"@, c.gop, "1-400"@))
    } else if !(c.output_data_type@ == "H.264"@ || c.output_data_type@ == "H.265"@) {
        Some("invalid output_data_type: "@ + c.output_data_type@)
    } else if !(c.rc_mode@ == "CBR"@ || c.rc_mode@ == "VBR"@) {
        Some("invalid rc_mode: "@ + c.rc_mode@)
    } else if !known_quality(c.rc_quality@) {
        Some("invalid rc_quality: "@ + c.rc_quality@)
    } else if !(c.gop_mode@ == "normalP"@ || c.gop_mode@ == "smartP"@) {
        Some("invalid gop_mode: "@ + c.gop_mode@)
    } else if !(c.h264_profile@ == "high"@ || c.h264_profile@ == "main"@ || c.h264_profile@
        == "baseline"@) {
        Some("invalid h264_profile: "@ + c.h264_profile@)
    } else if !(c.smart@ == "open"@ || c.smart@ == "close"@) {
        Some("invalid smart: "@ + c.smart@)
    } else if !(c.rotation == 0 || c.rotation == 90 || c.rotation == 180 || c.rotation == 270) {
        Some("invalid rotation: "@ + decimal(c.rotation as nat))
    } else {
        None
    }
}

fn range_text(what: &str, n: u32, range: &str) -> (r: String)
    ensures
        r@ == out_of_range(what@, n, range@),
{
    let mut s = what.to_owned();
    s.append(" ");
    push_decimal(&mut s, n as u64);
    s.append(" out of range ");
    s.append(range);
    s
}

fn invalid_text(what: &str, value: &str) -> (r: String)
    ensures
        r@ == what@ + value@,
{
    let mut s = what.to_owned();
    s.append(value);
    s
}

/// Whether encoder parameters make sense; if not, what is wrong.
pub fn validate_encoder_config(config: &EncoderConfig) -> (r: Result<(), String>)
    ensures
        match encoder_fault(*config) {
            Some(e) => r matches Err(t) && t@ == e,
            None => r is Ok,
        },
{
    if config.width < 320 || config.width > 4096 {
        return Err(range_text("width", config.width, "320-4096"));
    }
    if config.height < 240 || config.height > 2160 {
        return Err(range_text("height", config.height, "240-2160"));
    }
    if config.max_rate == 0 || config.max_rate > 16384 {
        return Err(range_text("max_rate", config.max_rate, "1-16384"));
    }
    if config.dst_frame_rate_num == 0 || config.dst_frame_rate_num > 30 {
        return Err(range_text("dst_frame_rate_num", config.dst_frame_rate_num, "1-30"));
    }
    if config.dst_frame_rate_den == 0 {
        return Err("dst_frame_rate_den must be positive".to_owned());
    }
    if config.gop == 0 || config.gop > 400 {
        return Err(range_text("gop", config.gop, "1-400"));
    }
    let kind = config.output_data_type.as_str();
    if !(str_eq(kind, "H.264") || str_eq(kind, "H.265")) {
        return Err(invalid_text("invalid output_data_type: ", kind));
    }
    let mode = config.rc_mode.as_str();
    if !(str_eq(mode, "CBR") || str_eq(mode, "VBR")) {
        return Err(invalid_text("invalid rc_mode: ", mode));
    }
    let quality = config.rc_quality.as_str();
    if !(str_eq(quality, "lowest") || str_eq(quality, "lower") || str_eq(quality, "low") || str_eq(
        quality,
        "medium",
    ) || str_eq(quality, "high") || str_eq(quality, "higher") || str_eq(quality, "highest")) {
        return Err(invalid_text("invalid rc_quality: ", quality));
    }
    let gop_mode = config.gop_mode.as_str();
    if !(str_eq(gop_mode, "normalP") || str_eq(gop_mode, "smartP")) {
        return Err(invalid_text("invalid gop_mode: ", gop_mode));
    }
    let profile = config.h264_profile.as_str();
    if !(str_eq(profile, "high") || str_eq(profile, "main") || str_eq(profile, "baseline")) {
        return Err(invalid_text("invalid h264_profile: ", profile));
    }
    let smart = config.smart.as_str();
    if !(str_eq(smart, "open") || str_eq(smart, "close")) {
        return Err(invalid_text("invalid smart: ", smart));
    }
    match config.rotation {
        0 | 90 | 180 | 270 => Ok(()),
        _ => {
            let mut s = "invalid rotation: ".to_owned();
            push_decimal(&mut s, config.rotation as u64);
            Err(s)
        },
    }
}

proof fn lemma_literals_have_no_nul()
    ensures
        no_nul("H.264"@),
        no_nul("H.265"@),
        no_nul("CBR"@),
        no_nul("VBR"@),
        no_nul("lowest"@),
        no_nul("lower"@),
        no_nul("low"@),
        no_nul("medium"@),
        no_nul("high"@),
        no_nul("higher"@),
        no_nul("highest"@),
        no_nul("normalP"@),
        no_nul("smartP"@),
        no_nul("main"@),
        no_nul("baseline"@),
        no_nul("open"@),
        no_nul("close"@),
{
    reveal_strlit("H.264");
    reveal_strlit("H.265");
    reveal_strlit("CBR");
    reveal_strlit("VBR");
    reveal_strlit("lowest");
    reveal_strlit("lower");
    reveal_strlit("low");
    reveal_strlit("medium");
    reveal_strlit("high");
    reveal_strlit("higher");
    reveal_strlit("highest");
    reveal_strlit("normalP");
    reveal_strlit("smartP");
    reveal_strlit("main");
    reveal_strlit("baseline");
    reveal_strlit("open");
    reveal_strlit("close");
}

/// Whether this is how the videos made of snapshots are named.
pub open spec fn is_video_name(name: Seq<char>) -> bool {
    name.len() > 4 && (ends_with(name, ".avi"@) || ends_with(name, ".mov"@))
}

/// The videos among files.
pub open spec fn video_names(names: Seq<String>) -> Seq<String>
    decreases names.len(),
{
    if names.len() == 0 {
        seq![]
    } else if is_video_name(names.last()@) {
        video_names(names.drop_last()).push(names.last())
    } else {
        video_names(names.drop_last())
    }
}

/// Whether a response lists these files, and does nothing else.
pub open spec fn is_listing(r: ControlResponse, names: Seq<String>) -> bool {
    &&& r.ok
    &&& r.error is None
    &&& r.encoder_config is None
    &&& r.image_config is None
    &&& r.system_config is None
    &&& r.file_size is None
    &&& r.avi_files matches Some(files) && in_order(files@) && files@.to_multiset() == video_names(
        names,
    ).to_multiset()
}

/// The answer that lists the videos among the files of the directory, in order.
pub fn list_snapshots(names: &Vec<String>) -> (r: ControlResponse)
    ensures
        is_listing(r, names@),
{
    let mut videos: Vec<String> = Vec::new();
    let mut i: usize = 0;
    assert(names@.take(0) =~= seq![]);
    while i < names.len()
        invariant
            i <= names@.len(),
            videos@ == video_names(names@.take(i as int)),
        decreases names@.len() - i,
    {
        proof {
            assert(names@.take(i as int + 1).drop_last() =~= names@.take(i as int));
        }
        let name = names[i].as_str();
        if name.unicode_len() > 4 && (str_ends_with(name, ".avi") || str_ends_with(name, ".mov")) {
            videos.push(names[i].clone());
        }
        i += 1;
    }
    assert(names@.take(names@.len() as int) =~= names@);
    let files = sort_texts(&videos);
    let mut resp = ControlResponse::ok();
    resp.avi_files = Some(files);
    resp
}

/// Whether a file may be downloaded: a video in the directory itself.
pub open spec fn may_download(name: Seq<char>) -> bool {
    &&& ends_with(name, ".avi"@) || ends_with(name, ".mov"@)
    &&& !contains(name, "/"@)
    &&& !contains(name, ".."@)
}

/// Whether a file may be downloaded.
pub fn is_downloadable(name: &str) -> (r: bool)
    ensures
        r == may_download(name@),
{
    (str_ends_with(name, ".avi") || str_ends_with(name, ".mov")) && !str_contains(name, "/")
        && !str_contains(name, "..")
}

/// Where a file is.
pub open spec fn snapshot_path(name: Seq<char>) -> Seq<char> {
    SNAP_DIR@ + "/"@ + name
}

/// What to do about a request.
#[derive(Debug)]
pub enum ControlStep {
    /// Send the answer.
    Reply(ControlResponse),
    /// Read what the image processor of a camera is adjusted to, and answer with
    /// [`image_reply`].
    ReadImage { cam: i32 },
    /// Adjust the image processor of a camera, then answer that it is done.
    ApplyImage { cam: i32, writes: Vec<(IspControl, i32)> },
    /// Restart, and answer with [`reboot_reply`].
    Reboot,
    /// Reset all, and answer with [`reset_reply`].
    FactoryReset,
    /// Read the directory and answer with [`list_snapshots`].
    ListFiles,
    /// Send a file, as a [`DownloadTask`] says.
    SendFile { path: String },
}

/// Answers requests.
pub struct ControlHandler {
    pub params: ParamStore,
    /// There is camera hardware.
    pub hardware: bool,
}

/// Whether a step is an answer with this error.
pub open spec fn replies_error(step: ControlStep, text: Seq<char>) -> bool {
    step matches ControlStep::Reply(r) && r.is_error(text)
}

/// Whether a response gives encoder parameters, and does nothing else.
pub open spec fn gives_encoder(r: ControlResponse, s: StoreView, prefix: Seq<char>) -> bool {
    &&& r.encoder_config matches Some(c) && is_encoder_config(c, s, prefix)
    &&& r == (ControlResponse {
        ok: true,
        error: None,
        encoder_config: r.encoder_config,
        image_config: None,
        system_config: None,
        avi_files: None,
        file_size: None,
    })
}

/// Whether a response gives what the camera says of itself, and does nothing else.
pub open spec fn gives_system(r: ControlResponse, s: StoreView) -> bool {
    &&& r.system_config matches Some(c) && is_system_config(c, s)
    &&& r == (ControlResponse {
        ok: true,
        error: None,
        encoder_config: None,
        image_config: None,
        system_config: r.system_config,
        avi_files: None,
        file_size: None,
    })
}

/// Whether this is what a request leads to with camera hardware: `before` and
/// `after` are the parameters.
pub open spec fn handled(
    before: StoreView,
    req: ControlRequest,
    after: StoreView,
    step: ControlStep,
) -> bool {
    match req {
        ControlRequest::GetEncoderConfig { stream } => {
            &&& after == before
            &&& match channel_named(stream@) {
                Some(chn) => step matches ControlStep::Reply(r) && gives_encoder(
                    r,
                    before,
                    encoder_prefix(chn)->0,
                ),
                None => replies_error(step, "invalid stream name"@),
            }
        },
        ControlRequest::SetEncoderConfig { stream, config } => match (
            channel_named(stream@),
            encoder_fault(config),
        ) {
            (None, _) => after == before && replies_error(step, "invalid stream name"@),
            (Some(_), Some(fault)) => after == before && replies_error(step, fault),
            (Some(chn), None) => {
                &&& after == encoder_saved(before, encoder_prefix(chn)->0, config)
                &&& step matches ControlStep::Reply(r) && r.is_plain_ok()
            },
        },
        ControlRequest::GetImageConfig { cam_id } => {
            &&& after == before
            &&& step == (ControlStep::ReadImage { cam: same_bits(cam_id) })
        },
        ControlRequest::SetImageConfig { cam_id, config } => {
            &&& step matches ControlStep::ApplyImage { cam, writes } && cam == same_bits(cam_id)
                && writes@ == match config.adjustment {
                Some(a) => isp_writes(a),
                None => seq![],
            }
            &&& after == match config.adjustment {
                Some(a) => adjustment_saved(before, image_prefix(cam_id), a),
                None => before,
            }
        },
        ControlRequest::GetSystemConfig => {
            &&& after == before
            &&& step matches ControlStep::Reply(r) && gives_system(r, before)
        },
        ControlRequest::SetSystemConfig { config } => {
            &&& after == system_saved(before, config)
            &&& step matches ControlStep::Reply(r) && r.is_plain_ok()
        },
        ControlRequest::SystemReboot => after == before && step == ControlStep::Reboot,
        ControlRequest::FactoryReset => after == before && step == ControlStep::FactoryReset,
        ControlRequest::ListSnapshots => after == before && step == ControlStep::ListFiles,
        ControlRequest::DownloadFile { name } => after == before && handles_download(
            name@,
            step,
        ),
    }
}

/// Whether this is what a request for a file leads to.
pub open spec fn handles_download(name: Seq<char>, step: ControlStep) -> bool {
    if may_download(name) {
        step matches ControlStep::SendFile { path } && path@ == snapshot_path(name)
    } else {
        replies_error(step, "invalid file name"@)
    }
}

/// Whether this is what a request leads to without camera hardware: files can be
/// listed and sent, all else is refused. What is wrong with a request is said first.
pub open spec fn refused_without_hardware(req: ControlRequest, step: ControlStep) -> bool {
    match req {
        ControlRequest::GetEncoderConfig { stream } => replies_error(
            step,
            if channel_named(stream@) is None {
                "invalid stream name"@
            } else {
                NOT_AVAILABLE@
            },
        ),
        ControlRequest::SetEncoderConfig { stream, config } => replies_error(
            step,
            match (channel_named(stream@), encoder_fault(config)) {
                (None, _) => "invalid stream name"@,
                (Some(_), Some(fault)) => fault,
                (Some(_), None) => NOT_AVAILABLE@,
            },
        ),
        ControlRequest::ListSnapshots => step == ControlStep::ListFiles,
        ControlRequest::DownloadFile { name } => handles_download(name@, step),
        _ => replies_error(step, NOT_AVAILABLE@),
    }
}

impl ControlHandler {
    fn get_encoder(&self, stream: &str) -> (r: ControlResponse)
        ensures
            match channel_named(stream@) {
                Some(chn) => if self.hardware {
                    gives_encoder(r, self.params@, encoder_prefix(chn)->0)
                } else {
                    r.is_error(NOT_AVAILABLE@)
                },
                None => r.is_error("invalid stream name"@),
            },
    {
        let chn_id: u32 = match stream_name_to_id(stream) {
            Some(id) => id,
            None => {
                return ControlResponse::err("invalid stream name");
            },
        };
        if !self.hardware {
            return ControlResponse::err(NOT_AVAILABLE);
        }
        match get_encoder_config(&self.params, chn_id) {
            Some(config) => {
                let mut resp = ControlResponse::ok();
                resp.encoder_config = Some(config);
                resp
            },
            None => ControlResponse::err("stream not enabled"),
        }
    }

    fn set_encoder(&mut self, stream: &str, config: &EncoderConfig) -> (r: ControlResponse)
        ensures
            final(self).hardware == old(self).hardware,
            match (channel_named(stream@), encoder_fault(*config)) {
                (None, _) => final(self).params@ == old(self).params@ && r.is_error(
                    "invalid stream name"@,
                ),
                (Some(_), Some(fault)) => final(self).params@ == old(self).params@ && r.is_error(
                    fault,
                ),
                (Some(chn), None) => if old(self).hardware {
                    &&& final(self).params@ == encoder_saved(
                        old(self).params@,
                        encoder_prefix(chn)->0,
                        *config,
                    )
                    &&& r.is_plain_ok()
                } else {
                    final(self).params@ == old(self).params@ && r.is_error(NOT_AVAILABLE@)
                },
            },
    {
        let chn_id: u32 = match stream_name_to_id(stream) {
            Some(id) => id,
            None => {
                return ControlResponse::err("invalid stream name");
            },
        };
        if let Err(e) = validate_encoder_config(config) {
            return ControlResponse::err(e.as_str());
        }
        if !self.hardware {
            return ControlResponse::err(NOT_AVAILABLE);
        }
        proof {
            lemma_literals_have_no_nul();
        }
        match set_encoder_config(&mut self.params, chn_id, config) {
            Ok(_) => ControlResponse::ok(),
            Err(e) => ControlResponse::err(e.as_str()),
        }
    }

    /// Takes in a request and says what to do about it.
    pub fn handle_request(&mut self, req: ControlRequest) -> (r: ControlStep)
        requires
            old(self).hardware ==> (req matches ControlRequest::SetSystemConfig { config }
                ==> system_no_nul(config)),
        ensures
            final(self).hardware == old(self).hardware,
            old(self).hardware ==> handled(old(self).params@, req, final(self).params@, r),
            !old(self).hardware ==> refused_without_hardware(req, r) && final(self).params@ == old(
                self).params@,
    {
        match &req {
            ControlRequest::ListSnapshots => {
                return ControlStep::ListFiles;
            },
            ControlRequest::DownloadFile { name } => {
                if !is_downloadable(name.as_str()) {
                    return ControlStep::Reply(ControlResponse::err("invalid file name"));
                }
                let mut path = SNAP_DIR.to_owned();
                path.append("/");
                path.append(name.as_str());
                return ControlStep::SendFile { path };
            },
            ControlRequest::GetEncoderConfig { stream } => {
                return ControlStep::Reply(self.get_encoder(stream.as_str()));
            },
            ControlRequest::SetEncoderConfig { stream, config } => {
                return ControlStep::Reply(self.set_encoder(stream.as_str(), config));
            },
            _ => {},
        }
        if !self.hardware {
            return ControlStep::Reply(ControlResponse::err(NOT_AVAILABLE));
        }
        match &req {
            ControlRequest::GetImageConfig { cam_id } => ControlStep::ReadImage {
                cam: to_signed(*cam_id),
            },
            ControlRequest::SetImageConfig { cam_id, config } => {
                let writes = set_image_config(&mut self.params, *cam_id, config);
                assert(config.adjustment is None ==> writes@ =~= seq![]);
                ControlStep::ApplyImage { cam: to_signed(*cam_id), writes }
            },
            ControlRequest::GetSystemConfig => {
                let mut resp = ControlResponse::ok();
                resp.system_config = Some(get_system_config(&self.params));
                ControlStep::Reply(resp)
            },
            ControlRequest::SetSystemConfig { config } => {
                set_system_config(&mut self.params, config);
                ControlStep::Reply(ControlResponse::ok())
            },
            ControlRequest::SystemReboot => ControlStep::Reboot,
            _ => ControlStep::FactoryReset,
        }
    }
}

/// The answer with the image parameters.
pub fn image_reply(isp: IspReadings) -> (r: ControlResponse)
    ensures
        r == (ControlResponse {
            ok: true,
            error: None,
            encoder_config: None,
            image_config: Some(
                ImageConfig {
                    adjustment: Some(
                        ImageAdjustment {
                            contrast: Some(isp.contrast),
                            brightness: Some(isp.brightness),
                            saturation: Some(isp.saturation),
                            sharpness: Some(isp.sharpness),
                            hue: Some(isp.hue),
                        },
                    ),
                    exposure: None,
                    night_to_day: None,
                    white_balance: None,
                    enhancement: None,
                    video_adjustment: None,
                },
            ),
            system_config: None,
            avi_files: None,
            file_size: None,
        }),
{
    let mut resp = ControlResponse::ok();
    resp.image_config = Some(get_image_config(isp));
    resp
}

fn call_reply(result: Result<(), String>) -> (r: ControlResponse)
    ensures
        match result {
            Ok(_) => r.is_plain_ok(),
            Err(e) => r.is_error(e@),
        },
{
    match result {
        Ok(_) => ControlResponse::ok(),
        Err(e) => ControlResponse::err(e.as_str()),
    }
}

/// The answer after a restart was asked of the hardware's library, which returned
/// `code`.
pub fn reboot_reply(code: i32) -> (r: ControlResponse)
    ensures
        match call_result("rk_system_reboot"@, code) {
            Ok(_) => r.is_plain_ok(),
            Err(e) => r.is_error(e),
        },
{
    call_reply(system_reboot(code))
}

/// The answer after a reset was asked of the hardware's library, which returned
/// `code`.
pub fn reset_reply(code: i32) -> (r: ControlResponse)
    ensures
        match call_result("rk_system_factory_reset"@, code) {
            Ok(_) => r.is_plain_ok(),
            Err(e) => r.is_error(e),
        },
{
    call_reply(factory_reset(code))
}

/// The answer to what is no request.
pub fn invalid_request_reply() -> (r: ControlResponse)
    ensures
        r.is_error("invalid json"@),
{
    ControlResponse::err("invalid json")
}

/// Where sending a file stands.
#[derive(Debug, Clone, Copy, PartialEq, Eq, Structural)]
pub enum DownloadPhase {
    /// The size of the file is looked up.
    Stat,
    /// A stream to the viewer is opened.
    OpenStream,
    /// The file is opened.
    OpenFile,
    /// A piece is read.
    Read,
    /// A piece is sent.
    Write,
    /// It has ended.
    Done,
}

/// What came of the last thing done to send a file.
#[derive(Debug)]
pub enum DownloadEvent {
    Stat(Result<u64, String>),
    StreamOpened(Result<(), String>),
    FileOpened(Result<(), String>),
    /// So many bytes were read; none at the end of the file.
    Read(Result<usize, String>),
    Written(Result<(), String>),
}

/// What to do next to send a file.
#[derive(Debug)]
pub enum DownloadAction {
    OpenStream,
    OpenFile,
    ReadChunk,
    /// Send so many bytes in a frame.
    WriteChunk(usize),
    Reply(ControlResponse),
    /// Nothing: the event does not belong here.
    Ignore,
}

/// Sends a file to the viewer.
#[derive(Debug, Clone, Copy, PartialEq, Eq, Structural)]
pub struct DownloadTask {
    pub phase: DownloadPhase,
    pub size: u64,
}

/// Whether an action is an answer with this error.
pub open spec fn download_fails(action: DownloadAction, text: Seq<char>) -> bool {
    action matches DownloadAction::Reply(r) && r.is_error(text)
}

/// Whether a response gives the size of a file, and does nothing else.
pub open spec fn gives_size(r: ControlResponse, size: u64) -> bool {
    r == (ControlResponse {
        ok: true,
        error: None,
        encoder_config: None,
        image_config: None,
        system_config: None,
        avi_files: None,
        file_size: Some(size),
    })
}

/// Whether this is what an event leads to while a file is sent. The first thing that
/// fails ends it, with an answer that says what.
pub open spec fn download_step(
    before: DownloadTask,
    event: DownloadEvent,
    after: DownloadTask,
    action: DownloadAction,
) -> bool {
    let failed = DownloadTask { phase: DownloadPhase::Done, ..before };
    match (before.phase, event) {
        (DownloadPhase::Stat, DownloadEvent::Stat(Ok(size))) => after == (DownloadTask {
            phase: DownloadPhase::OpenStream,
            size,
        }) && action == DownloadAction::OpenStream,
        (DownloadPhase::Stat, DownloadEvent::Stat(Err(e))) => after == failed && download_fails(
            action,
            "file not found: "@ + e@,
        ),
        (DownloadPhase::OpenStream, DownloadEvent::StreamOpened(Ok(_))) => after == (DownloadTask {
            phase: DownloadPhase::OpenFile,
            ..before
        }) && action == DownloadAction::OpenFile,
        (DownloadPhase::OpenStream, DownloadEvent::StreamOpened(Err(e))) => after == failed
            && download_fails(action, "open file stream failed: "@ + e@),
        (DownloadPhase::OpenFile, DownloadEvent::FileOpened(Ok(_))) => after == (DownloadTask {
            phase: DownloadPhase::Read,
            ..before
        }) && action == DownloadAction::ReadChunk,
        (DownloadPhase::OpenFile, DownloadEvent::FileOpened(Err(e))) => after == failed
            && download_fails(action, "open file failed: "@ + e@),
        (DownloadPhase::Read, DownloadEvent::Read(Ok(n))) => if n == 0 {
            after == failed && (action matches DownloadAction::Reply(r) && gives_size(
                r,
                before.size,
            ))
        } else {
            after == (DownloadTask { phase: DownloadPhase::Write, ..before }) && action
                == DownloadAction::WriteChunk(n)
        },
        (DownloadPhase::Read, DownloadEvent::Read(Err(e))) => after == failed && download_fails(
            action,
            "file read failed: "@ + e@,
        ),
        (DownloadPhase::Write, DownloadEvent::Written(Ok(_))) => after == (DownloadTask {
            phase: DownloadPhase::Read,
            ..before
        }) && action == DownloadAction::ReadChunk,
        (DownloadPhase::Write, DownloadEvent::Written(Err(_))) => after == failed
            && download_fails(action, "file stream write failed"@),
        _ => after == before && action == DownloadAction::Ignore,
    }
}

fn fail_text(what: &str, error: &str) -> (r: DownloadAction)
    ensures
        download_fails(r, what@ + error@),
{
    let mut s = what.to_owned();
    s.append(error);
    DownloadAction::Reply(ControlResponse::err(s.as_str()))
}

impl DownloadTask {
    /// The size of the file is to be looked up first.
    pub fn new() -> (r: DownloadTask)
        ensures
            r == (DownloadTask { phase: DownloadPhase::Stat, size: 0 }),
    {
        DownloadTask { phase: DownloadPhase::Stat, size: 0 }
    }

    /// Takes in what came of the last thing done, and says what to do next.
    pub fn step(&mut self, event: DownloadEvent) -> (r: DownloadAction)
        ensures
            download_step(*old(self), event, *final(self), r),
    {
        match event {
            DownloadEvent::Stat(result) => {
                if self.phase != DownloadPhase::Stat {
                    return DownloadAction::Ignore;
                }
                match result {
                    Ok(size) => {
                        self.size = size;
                        self.phase = DownloadPhase::OpenStream;
                        DownloadAction::OpenStream
                    },
                    Err(e) => {
                        self.phase = DownloadPhase::Done;
                        fail_text("file not found: ", e.as_str())
                    },
                }
            },
            DownloadEvent::StreamOpened(result) => {
                if self.phase != DownloadPhase::OpenStream {
                    return DownloadAction::Ignore;
                }
                match result {
                    Ok(_) => {
                        self.phase = DownloadPhase::OpenFile;
                        DownloadAction::OpenFile
                    },
                    Err(e) => {
                        self.phase = DownloadPhase::Done;
                        fail_text("open file stream failed: ", e.as_str())
                    },
                }
            },
            DownloadEvent::FileOpened(result) => {
                if self.phase != DownloadPhase::OpenFile {
                    return DownloadAction::Ignore;
                }
                match result {
                    Ok(_) => {
                        self.phase = DownloadPhase::Read;
                        DownloadAction::ReadChunk
                    },
                    Err(e) => {
                        self.phase = DownloadPhase::Done;
                        fail_text("open file failed: ", e.as_str())
                    },
                }
            },
            DownloadEvent::Read(result) => {
                if self.phase != DownloadPhase::Read {
                    return DownloadAction::Ignore;
                }
                match result {
                    Ok(n) => {
                        if n == 0 {
                            self.phase = DownloadPhase::Done;
                            let mut resp = ControlResponse::ok();
                            resp.file_size = Some(self.size);
                            return DownloadAction::Reply(resp);
                        }
                        self.phase = DownloadPhase::Write;
                        DownloadAction::WriteChunk(n)
                    },
                    Err(e) => {
                        self.phase = DownloadPhase::Done;
                        fail_text("file read failed: ", e.as_str())
                    },
                }
            },
            DownloadEvent::Written(result) => {
                if self.phase != DownloadPhase::Write {
                    return DownloadAction::Ignore;
                }
                match result {
                    Ok(_) => {
                        self.phase = DownloadPhase::Read;
                        DownloadAction::ReadChunk
                    },
                    Err(_) => {
                        self.phase = DownloadPhase::Done;
                        DownloadAction::Reply(ControlResponse::err("file stream write failed"))
                    },
                }
            },
        }
    }
}

/// A file that is sent lies in the directory itself: its name has no slash and
/// nothing that leads out.
pub proof fn law_download_stays_inside(name: Seq<char>, step: ControlStep)
    requires
        handles_download(name, step),
        step is SendFile,
    ensures
        !name.contains('/'),
        !contains(name, ".."@),
        step->path@ == SNAP_DIR@ + "/"@ + name,
{
    reveal_strlit("/");
    if name.contains('/') {
        let i = choose|i: int| 0 <= i < name.len() && name[i] == '/';
        assert(name.subrange(i, i + 1) =~= "/"@);
        assert(crate::text::occurs_at(name, "/"@, i));
    }
}

/// Encoder parameters that do not make sense are refused with a reason, and nothing
/// is stored.
pub proof fn law_bad_encoder_not_stored(
    before: StoreView,
    stream: String,
    config: EncoderConfig,
    after: StoreView,
    step: ControlStep,
)
    requires
        channel_named(stream@) is Some,
        encoder_fault(config) is Some,
        handled(before, (ControlRequest::SetEncoderConfig { stream, config }), after, step),
    ensures
        after == before,
        replies_error(step, encoder_fault(config)->0),
{
}

/// Reading changes no parameter.
pub proof fn law_reading_changes_nothing(
    before: StoreView,
    req: ControlRequest,
    after: StoreView,
    step: ControlStep,
)
    requires
        handled(before, req, after, step),
        !(req is SetEncoderConfig || req is SetImageConfig || req is SetSystemConfig),
    ensures
        after == before,
{
}

/// A file that was being sent is answered for once: after the answer nothing more
/// happens.
pub proof fn law_download_answers_once(
    before: DownloadTask,
    event: DownloadEvent,
    after: DownloadTask,
    action: DownloadAction,
)
    requires
        download_step(before, event, after, action),
    ensures
        action is Reply ==> after.phase == DownloadPhase::Done,
        before.phase == DownloadPhase::Done ==> after == before && action
            == DownloadAction::Ignore,
{
}

/// Encoder parameters make sense exactly where every number is in its range and every
/// text is one of those that the encoder knows.
pub proof fn law_sensible_encoder(c: EncoderConfig)
    ensures
        encoder_fault(c) is None <==> {
            &&& 320 <= c.width <= 4096
            &&& 240 <= c.height <= 2160
            &&& 1 <= c.max_rate <= 16384
            &&& 1 <= c.dst_frame_rate_num <= 30
            &&& 1 <= c.dst_frame_rate_den
            &&& 1 <= c.gop <= 400
            &&& seq!["H.264"@, "H.265"@].contains(c.output_data_type@)
            &&& seq!["CBR"@, "VBR"@].contains(c.rc_mode@)
            &&& seq![
                "lowest"@,
                "lower"@,
                "low"@,
                "medium"@,
                "high"@,
                "higher"@,
                "highest"@,
            ].contains(c.rc_quality@)
            &&& seq!["normalP"@, "smartP"@].contains(c.gop_mode@)
            &&& seq!["high"@, "main"@, "baseline"@].contains(c.h264_profile@)
            &&& seq!["open"@, "close"@].contains(c.smart@)
            &&& seq![0u32, 90, 180, 270].contains(c.rotation)
        },
{
    let kinds = seq!["H.264"@, "H.265"@];
    assert(kinds[0] == "H.264"@ && kinds[1] == "H.265"@);
    let modes = seq!["CBR"@, "VBR"@];
    assert(modes[0] == "CBR"@ && modes[1] == "VBR"@);
    let q = seq!["lowest"@, "lower"@, "low"@, "medium"@, "high"@, "higher"@, "highest"@];
    assert(q[0] == "lowest"@ && q[1] == "lower"@ && q[2] == "low"@ && q[3] == "medium"@);
    assert(q[4] == "high"@ && q[5] == "higher"@ && q[6] == "highest"@);
    let gops = seq!["normalP"@, "smartP"@];
    assert(gops[0] == "normalP"@ && gops[1] == "smartP"@);
    let profiles = seq!["high"@, "main"@, "baseline"@];
    assert(profiles[0] == "high"@ && profiles[1] == "main"@ && profiles[2] == "baseline"@);
    let smarts = seq!["open"@, "close"@];
    assert(smarts[0] == "open"@ && smarts[1] == "close"@);
    let turns = seq![0u32, 90, 180, 270];
    assert(turns[0] == 0 && turns[1] == 90 && turns[2] == 180 && turns[3] == 270);
}

/// The settings that a camera reports before anything was set can be set.
pub proof fn law_default_encoder_can_be_set(s: StoreView, prefix: Seq<char>, c: EncoderConfig)
    requires
        is_encoder_config(c, s, prefix),
        s.ints == Map::<Seq<char>, i32>::empty(),
        s.texts == Map::<Seq<char>, Seq<char>>::empty(),
    ensures
        encoder_fault(c) is None,
{
    law_default_encoder(s, prefix, c);
}

/// A number out of its range is named with the range, one such number after the other in
/// the order of the fields; what is wrong with the texts is said only when all numbers
/// are in range.
pub proof fn law_encoder_faults_of_numbers(c: EncoderConfig)
    ensures
        ({
            let width_ok = 320 <= c.width <= 4096;
            let height_ok = 240 <= c.height <= 2160;
            let rate_ok = 1 <= c.max_rate <= 16384;
            let num_ok = 1 <= c.dst_frame_rate_num <= 30;
            let den_ok = c.dst_frame_rate_den > 0;
            let gop_ok = 1 <= c.gop <= 400;
            &&& !width_ok ==> encoder_fault(c) == Some(
                "width"@ + " "@ + decimal(c.width as nat) + " out of range "@ + "320-4096"@,
            )
            &&& width_ok && !height_ok ==> encoder_fault(c) == Some(
                "height"@ + " "@ + decimal(c.height as nat) + " out of range "@ + "240-2160"@,
            )
            &&& width_ok && height_ok && !rate_ok ==> encoder_fault(c) == Some(
                "max_rate"@ + " "@ + decimal(c.max_rate as nat) + " out of range "@ + "1-16384"@,
            )
            &&& width_ok && height_ok && rate_ok && !num_ok ==> encoder_fault(c) == Some(
                "dst_frame_rate_num"@ + " "@ + decimal(c.dst_frame_rate_num as nat)
                    + " out of range "@ + "1-30"@,
            )
            &&& width_ok && height_ok && rate_ok && num_ok && !den_ok ==> encoder_fault(c) == Some(
                "dst_frame_rate_den must be positive"@,
            )
            &&& width_ok && height_ok && rate_ok && num_ok && den_ok && !gop_ok ==> encoder_fault(c)
                == Some("gop"@ + " "@ + decimal(c.gop as nat) + " out of range "@ + "1-400"@)
        }),
{
}

/// Where only one text is wrong, or the rotation, the fault names it with its value.
pub proof fn law_encoder_faults_of_texts(c: EncoderConfig, good: EncoderConfig)
    requires
        encoder_fault(good) is None,
    ensures
        ({
            let d = EncoderConfig { output_data_type: c.output_data_type, ..good };
            encoder_fault(d) is Some ==> encoder_fault(d)->0 == "invalid output_data_type: "@
                + c.output_data_type@
        }),
        ({
            let d = EncoderConfig { rc_mode: c.rc_mode, ..good };
            encoder_fault(d) is Some ==> encoder_fault(d)->0 == "invalid rc_mode: "@ + c.rc_mode@
        }),
        ({
            let d = EncoderConfig { rc_quality: c.rc_quality, ..good };
            encoder_fault(d) is Some ==> encoder_fault(d)->0 == "invalid rc_quality: "@
                + c.rc_quality@
        }),
        ({
            let d = EncoderConfig { gop_mode: c.gop_mode, ..good };
            encoder_fault(d) is Some ==> encoder_fault(d)->0 == "invalid gop_mode: "@ + c.gop_mode@
        }),
        ({
            let d = EncoderConfig { h264_profile: c.h264_profile, ..good };
            encoder_fault(d) is Some ==> encoder_fault(d)->0 == "invalid h264_profile: "@
                + c.h264_profile@
        }),
        ({
            let d = EncoderConfig { smart: c.smart, ..good };
            encoder_fault(d) is Some ==> encoder_fault(d)->0 == "invalid smart: "@ + c.smart@
        }),
        ({
            let d = EncoderConfig { rotation: c.rotation, ..good };
            encoder_fault(d) is Some ==> encoder_fault(d)->0 == "invalid rotation: "@ + decimal(
                c.rotation as nat,
            )
        }),
{
}

/// The streams are `main`, `sub` and `third`, on the channels 0, 1 and 2; a name that is
/// none of these has no channel.
pub proof fn law_stream_channels(stream: Seq<char>)
    ensures
        channel_named(stream) == Some(0u32) <==> stream == "main"@,
        channel_named(stream) == Some(1u32) <==> stream == "sub"@,
        channel_named(stream) == Some(2u32) <==> stream == "third"@,
        channel_named(stream) is None <==> stream != "main"@ && stream != "sub"@ && stream
            != "third"@,
{
    reveal_strlit("main");
    reveal_strlit("sub");
    reveal_strlit("third");
    assert("main"@.len() == 4 && "sub"@.len() == 3 && "third"@.len() == 5);
}

/// Settings that make sense are accepted for each of the three streams, and asked for
/// afterwards they are what was set.
pub proof fn law_encoder_is_set_and_read(
    before: StoreView,
    stream: String,
    config: EncoderConfig,
    set: StoreView,
    first: ControlStep,
    after: StoreView,
    second: ControlStep,
)
    requires
        stream@ == "main"@ || stream@ == "sub"@ || stream@ == "third"@,
        encoder_fault(config) is None,
        handled(before, (ControlRequest::SetEncoderConfig { stream, config }), set, first),
        handled(set, (ControlRequest::GetEncoderConfig { stream }), after, second),
    ensures
        first matches ControlStep::Reply(r) && r.ok && r.error is None,
        after == set,
        second matches ControlStep::Reply(r) && r.ok && r.error is None && (r.encoder_config
            matches Some(got) && got.output_data_type@ == config.output_data_type@ && got.width
            == config.width && got.height == config.height && got.rc_mode@ == config.rc_mode@
            && got.rc_quality@ == config.rc_quality@ && got.gop == config.gop && got.gop_mode@
            == config.gop_mode@ && got.max_rate == config.max_rate && got.dst_frame_rate_num
            == config.dst_frame_rate_num && got.dst_frame_rate_den == config.dst_frame_rate_den
            && got.h264_profile@ == config.h264_profile@ && got.smart@ == config.smart@
            && got.rotation == config.rotation),
{
    law_stream_channels(stream@);
    let chn = channel_named(stream@)->0;
    let prefix = encoder_prefix(chn)->0;
    let r = second->Reply_0;
    law_encoder_set_then_get(before, prefix, config, r.encoder_config->0);
}

/// A request for a stream that there is not is refused, whatever else it says, and stores
/// nothing.
pub proof fn law_unknown_stream_is_refused(
    before: StoreView,
    stream: String,
    config: EncoderConfig,
    after: StoreView,
    step: ControlStep,
    set: bool,
)
    requires
        stream@ != "main"@ && stream@ != "sub"@ && stream@ != "third"@,
        handled(
            before,
            if set {
                ControlRequest::SetEncoderConfig { stream, config }
            } else {
                ControlRequest::GetEncoderConfig { stream }
            },
            after,
            step,
        ),
    ensures
        after == before,
        step matches ControlStep::Reply(r) && !r.ok && (r.error matches Some(e) && e@
            == "invalid stream name"@),
{
    law_stream_channels(stream@);
}

/// What the camera says of itself can be changed by name and number for remote control,
/// one at a time or both, and is read back.
pub proof fn law_system_is_set_and_read(
    before: StoreView,
    config: SystemConfigSet,
    set: StoreView,
    first: ControlStep,
    after: StoreView,
    second: ControlStep,
    known: SystemConfig,
)
    requires
        is_system_config(known, before),
        handled(before, (ControlRequest::SetSystemConfig { config }), set, first),
        handled(set, ControlRequest::GetSystemConfig, after, second),
    ensures
        first matches ControlStep::Reply(r) && r.ok && r.error is None,
        second matches ControlStep::Reply(r) && r.ok && (r.system_config matches Some(got)
            && got.device_name@ == (if config.device_name is Some {
            config.device_name->0@
        } else {
            known.device_name@
        }) && got.telecontrol_id@ == (if config.telecontrol_id is Some {
            config.telecontrol_id->0@
        } else {
            known.telecontrol_id@
        }) && got.model@ == known.model@ && got.serial_number@ == known.serial_number@),
{
    let r = second->Reply_0;
    law_system_set_then_get(before, config, known, r.system_config->0);
}

/// Restarting, resetting, listing files and reading the image are left to the program
/// around, each under its own step; an image is adjusted on the camera that was named, by
/// what was named and nothing else.
pub proof fn law_requests_have_their_steps(
    before: StoreView,
    req: ControlRequest,
    after: StoreView,
    step: ControlStep,
)
    requires
        handled(before, req, after, step),
    ensures
        req is SystemReboot <==> step is Reboot,
        req is FactoryReset <==> step is FactoryReset,
        req is ListSnapshots <==> step is ListFiles,
        req matches ControlRequest::GetImageConfig { cam_id } ==> cam_id < 0x8000_0000 ==> (step
            matches ControlStep::ReadImage { cam } && cam == cam_id),
        req matches ControlRequest::SetImageConfig { cam_id, config } ==> cam_id < 0x8000_0000 ==> (
        step matches ControlStep::ApplyImage { cam, writes } && cam == cam_id && (config.adjustment
            is None ==> writes@.len() == 0 && after == before) && (config.adjustment matches Some(a)
            ==> forall|isp: IspReadings| #[trigger]
            written_all(isp, writes@) == adjusted(isp, a))),
        step is ReadImage <==> req is GetImageConfig,
        step is ApplyImage <==> req is SetImageConfig,
{
    if let ControlRequest::SetImageConfig { config, .. } = req {
        if let Some(a) = config.adjustment {
            assert forall|isp: IspReadings| #[trigger]
                written_all(isp, isp_writes(a)) == adjusted(isp, a) by {
                law_partial_adjustment(isp, a);
            }
        }
    }
}

/// Without camera hardware the files are still served; everything else is refused, and
/// what is wrong with a request is said before that.
pub proof fn law_refused_without_hardware(req: ControlRequest, step: ControlStep)
    requires
        refused_without_hardware(req, step),
    ensures
        req is ListSnapshots ==> step is ListFiles,
        req matches ControlRequest::DownloadFile { name } ==> handles_download(name@, step),
        !(req is ListSnapshots || req is DownloadFile) ==> (step matches ControlStep::Reply(r)
            && !r.ok && r.error is Some && r.encoder_config is None && r.system_config is None
            && r.image_config is None),
        req is GetImageConfig || req is SetImageConfig || req is GetSystemConfig || req
            is SetSystemConfig || req is SystemReboot || req is FactoryReset ==> step->Reply_0.error->0@
            == "not available on this platform"@,
        req matches ControlRequest::GetEncoderConfig { stream } ==> step->Reply_0.error->0@ == if stream@
            == "main"@ || stream@ == "sub"@ || stream@ == "third"@ {
            "not available on this platform"@
        } else {
            "invalid stream name"@
        },
        req matches ControlRequest::SetEncoderConfig { stream, config } ==> step->Reply_0.error->0@
            == if !(stream@ == "main"@ || stream@ == "sub"@ || stream@ == "third"@) {
            "invalid stream name"@
        } else if encoder_fault(config) is Some {
            encoder_fault(config)->0
        } else {
            "not available on this platform"@
        },
{
    if let ControlRequest::GetEncoderConfig { stream } = req {
        law_stream_channels(stream@);
    }
    if let ControlRequest::SetEncoderConfig { stream, config } = req {
        law_stream_channels(stream@);
    }
}

/// A file is sent exactly where its name ends in `.avi` or `.mov` and has neither a slash
/// nor two dots in a row; it is looked for in the directory of the snapshots under that
/// very name. Any other name is refused.
pub proof fn law_videos_can_be_downloaded(name: Seq<char>, step: ControlStep)
    requires
        handles_download(name, step),
    ensures
        ({
            let video = exists|stem: Seq<char>|
                name == #[trigger] (stem + ".avi"@) || name == stem + ".mov"@;
            let inside = !name.contains('/') && forall|i: int|
                0 <= i < name.len() - 1 ==> !(#[trigger] name[i] == '.' && name[i + 1] == '.');
            &&& video && inside ==> (step matches ControlStep::SendFile { path } && path@
                == "/userdata/snaps"@ + "/"@ + name)
            &&& !(video && inside) ==> (step matches ControlStep::Reply(r) && !r.ok && (r.error
                matches Some(e) && e@ == "invalid file name"@))
        }),
{
    reveal_strlit("/");
    reveal_strlit("..");
    law_ends_with(name, ".avi"@);
    law_ends_with(name, ".mov"@);
    let video = exists|stem: Seq<char>|
        name == #[trigger] (stem + ".avi"@) || name == stem + ".mov"@;
    if ends_with(name, ".mov"@) {
        let stem = choose|stem: Seq<char>| name == #[trigger] (stem + ".mov"@);
        assert(name == stem + ".avi"@ || name == stem + ".mov"@);
        let other = stem + ".avi"@;
        assert(video);
    }
    if video {
        let stem = choose|stem: Seq<char>|
            name == #[trigger] (stem + ".avi"@) || name == stem + ".mov"@;
        assert(name == stem + ".avi"@ || name == stem + ".mov"@);
    }
    if name.contains('/') {
        let i = choose|i: int| 0 <= i < name.len() && name[i] == '/';
        assert(name.subrange(i, i + 1) =~= "/"@);
        assert(crate::text::occurs_at(name, "/"@, i));
    }
    if contains(name, "/"@) {
        let at = choose|at: int| crate::text::occurs_at(name, "/"@, at);
        assert(name.subrange(at, at + 1)[0] == name[at]);
        assert(name.contains('/'));
    }
    let dotted = exists|i: int|
        0 <= i < name.len() - 1 && #[trigger] name[i] == '.' && name[i + 1] == '.';
    if dotted {
        let i = choose|i: int|
            0 <= i < name.len() - 1 && #[trigger] name[i] == '.' && name[i + 1] == '.';
        assert(name.subrange(i, i + 2) =~= ".."@);
        assert(crate::text::occurs_at(name, ".."@, i));
    }
    if contains(name, ".."@) {
        let at = choose|at: int| crate::text::occurs_at(name, ".."@, at);
        let two = name.subrange(at, at + 2);
        assert(two[0] == name[at] && two[1] == name[at + 1]);
        assert(dotted);
    }
}

/// The videos in the directory are the files whose names end in `.avi` or `.mov` and have
/// something before that; all of them are listed, each as often as it is there.
pub proof fn law_videos_are_listed(names: Seq<String>)
    ensures
        video_names(names) == names.filter(
            |n: String| n@.len() > 4 && (ends_with(n@, ".avi"@) || ends_with(n@, ".mov"@)),
        ),
    decreases names.len(),
{
    reveal(Seq::filter);
    if names.len() > 0 {
        law_videos_are_listed(names.drop_last());
    }
}

/// Sending a file goes from its size to the stream, to the file, and then from one piece
/// to the next; a piece is sent as it was read, and the end of the file is answered with
/// the size that was looked up first.
pub proof fn law_download_proceeds(
    before: DownloadTask,
    event: DownloadEvent,
    after: DownloadTask,
    action: DownloadAction,
)
    requires
        download_step(before, event, after, action),
    ensures
        before.phase == DownloadPhase::Stat ==> (event matches DownloadEvent::Stat(Ok(size))
            ==> action is OpenStream && after.phase == DownloadPhase::OpenStream && after.size
            == size),
        before.phase == DownloadPhase::OpenStream ==> (event matches DownloadEvent::StreamOpened(
            Ok(_),
        ) ==> action is OpenFile && after.phase == DownloadPhase::OpenFile),
        before.phase == DownloadPhase::OpenFile ==> (event matches DownloadEvent::FileOpened(Ok(_))
            ==> action is ReadChunk && after.phase == DownloadPhase::Read),
        before.phase == DownloadPhase::Read ==> (event matches DownloadEvent::Read(Ok(n)) ==> if n
            > 0 {
            action == DownloadAction::WriteChunk(n) && after.phase == DownloadPhase::Write
        } else {
            after.phase == DownloadPhase::Done && (action matches DownloadAction::Reply(r) && r.ok
                && r.error is None && r.file_size == Some(before.size))
        }),
        before.phase == DownloadPhase::Write ==> (event matches DownloadEvent::Written(Ok(_))
            ==> action is ReadChunk && after.phase == DownloadPhase::Read),
        before.phase != DownloadPhase::Stat ==> after.size == before.size,
{
}

/// Whatever fails first ends the sending with an error that says what failed, and why.
pub proof fn law_download_failure_is_told(
    before: DownloadTask,
    event: DownloadEvent,
    after: DownloadTask,
    action: DownloadAction,
)
    requires
        download_step(before, event, after, action),
        ({
            ||| before.phase == DownloadPhase::Stat && event matches DownloadEvent::Stat(Err(_))
            ||| before.phase == DownloadPhase::OpenStream && event
                matches DownloadEvent::StreamOpened(Err(_))
            ||| before.phase == DownloadPhase::OpenFile && event
                matches DownloadEvent::FileOpened(Err(_))
            ||| before.phase == DownloadPhase::Read && event matches DownloadEvent::Read(Err(_))
            ||| before.phase == DownloadPhase::Write && event matches DownloadEvent::Written(Err(_))
        }),
    ensures
        after.phase == DownloadPhase::Done,
        action matches DownloadAction::Reply(r) && !r.ok && r.file_size is None && (r.error
            matches Some(text) && match event {
            DownloadEvent::Stat(Err(e)) => text@ == "file not found: "@ + e@,
            DownloadEvent::StreamOpened(Err(e)) => text@ == "open file stream failed: "@ + e@,
            DownloadEvent::FileOpened(Err(e)) => text@ == "open file failed: "@ + e@,
            DownloadEvent::Read(Err(e)) => text@ == "file read failed: "@ + e@,
            _ => text@ == "file stream write failed"@,
        }),
{
}

/// What came of something that was not being done is ignored.
pub proof fn law_stray_download_events_ignored(
    before: DownloadTask,
    event: DownloadEvent,
    after: DownloadTask,
    action: DownloadAction,
)
    requires
        download_step(before, event, after, action),
        !(before.phase == DownloadPhase::Stat && event is Stat),
        !(before.phase == DownloadPhase::OpenStream && event is StreamOpened),
        !(before.phase == DownloadPhase::OpenFile && event is FileOpened),
        !(before.phase == DownloadPhase::Read && event is Read),
        !(before.phase == DownloadPhase::Write && event is Written),
    ensures
        after == before,
        action is Ignore,
{
}

/// A listing names the videos and nothing else, in order: each is one of the files, and
/// no video is left out.
pub proof fn law_listing_is_complete(r: ControlResponse, names: Seq<String>, name: String)
    requires
        is_listing(r, names),
    ensures
        r.ok,
        r.error is None,
        r.avi_files is Some,
        r.avi_files->0@.contains(name) <==> names.contains(name) && name@.len() > 4 && (ends_with(
            name@,
            ".avi"@,
        ) || ends_with(name@, ".mov"@)),
        in_order(r.avi_files->0@),
{
    let files = r.avi_files->0@;
    let pred = |n: String| n@.len() > 4 && (ends_with(n@, ".avi"@) || ends_with(n@, ".mov"@));
    law_videos_are_listed(names);
    assert(video_names(names) == names.filter(pred));
    files.to_multiset_ensures();
    names.filter(pred).to_multiset_ensures();
    names.filter_lemma(pred);
    if names.filter(pred).contains(name) {
        lemma_filtered_is_there(names, pred, name);
    }
    if names.contains(name) && pred(name) {
        let i = choose|i: int| 0 <= i < names.len() && names[i] == name;
        assert(names.filter(pred).contains(names[i]));
    }
    assert(files.contains(name) <==> files.to_multiset().count(name) > 0);
    assert(names.filter(pred).contains(name) <==> names.filter(pred).to_multiset().count(name) > 0);
}

proof fn lemma_filtered_is_there(names: Seq<String>, pred: spec_fn(String) -> bool, name: String)
    requires
        names.filter(pred).contains(name),
    ensures
        names.contains(name),
        pred(name),
    decreases names.len(),
{
    reveal(Seq::filter);
    if names.len() > 0 {
        let front = names.drop_last();
        let before = front.filter(pred);
        let all = names.filter(pred);
        let i = choose|i: int| 0 <= i < all.len() && all[i] == name;
        if i < before.len() {
            assert(before[i] == name);
            assert(before.contains(name));
            lemma_filtered_is_there(front, pred, name);
            let k = choose|k: int| 0 <= k < front.len() && front[k] == name;
            assert(names[k] == name);
        } else {
            assert(names[names.len() - 1] == name);
        }
    }
}

} // verus!
