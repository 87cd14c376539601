//! Settings of the camera. What the command line gives comes before what the
//! settings file gives, and that before the defaults.
//!
//! Relays are listed in `relays`; `relay` is an older setting for a single one, used
//! where the list is empty.

use vstd::prelude::*;

use crate::text::{clone_texts, contains, decimal, push_decimal, str_contains};

verus! {

broadcast use vstd::string::group_string_axioms;

/// Encoder settings of one stream.
#[derive(Debug, Clone)]
pub struct StreamConfig {
    pub enabled: bool,
    /// `H265` or `H264`
    pub codec: String,
    pub width: u32,
    pub height: u32,
    pub src_frame_rate_num: u32,
    pub src_frame_rate_den: u32,
    pub dst_frame_rate_num: u32,
    pub dst_frame_rate_den: u32,
    /// `CBR` or `VBR`
    pub rc_mode: String,
    /// `highest` down to `lowest`
    pub rc_quality: String,
    pub bitrate_kbps: u32,
    /// Frames from one key frame to the next
    pub gop: u32,
    /// `normalP` or `smartP`
    pub gop_mode: String,
    /// Distance of virtual key frames, for `smartP`
    pub smartp_viridrlen: u32,
    /// `baseline`, `main` or `high`, for H.264
    pub h264_profile: String,
    pub stream_buf_cnt: u32,
    /// `none`, `horizontal`, `vertical` or `both`
    pub mirror: String,
}

/// Whether the settings are the defaults, but for the size, the frame rates and the
/// bit rate.
pub open spec fn default_encoding(s: StreamConfig) -> bool {
    &&& s.enabled
    &&& s.codec@ == "H265"@
    &&& s.src_frame_rate_den == 1
    &&& s.dst_frame_rate_den == 1
    &&& s.rc_mode@ == "CBR"@
    &&& s.rc_quality@ == "high"@
    &&& s.gop == 50
    &&& s.gop_mode@ == "normalP"@
    &&& s.smartp_viridrlen == 25
    &&& s.h264_profile@ == "high"@
    &&& s.stream_buf_cnt == 2
    &&& s.mirror@ == "none"@
}

/// Whether the settings are the defaults with this size, frame rate and bit rate.
pub open spec fn default_stream(
    s: StreamConfig,
    width: u32,
    height: u32,
    fps: u32,
    bitrate_kbps: u32,
) -> bool {
    &&& default_encoding(s)
    &&& s.width == width
    &&& s.height == height
    &&& s.src_frame_rate_num == fps
    &&& s.dst_frame_rate_num == fps
    &&& s.bitrate_kbps == bitrate_kbps
}

fn stream_of(width: u32, height: u32, fps: u32, bitrate_kbps: u32) -> (r: StreamConfig)
    ensures
        default_stream(r, width, height, fps, bitrate_kbps),
{
    StreamConfig {
        enabled: true,
        codec: "H265".to_owned(),
        width,
        height,
        src_frame_rate_num: fps,
        src_frame_rate_den: 1,
        dst_frame_rate_num: fps,
        dst_frame_rate_den: 1,
        rc_mode: "CBR".to_owned(),
        rc_quality: "high".to_owned(),
        bitrate_kbps,
        gop: 50,
        gop_mode: "normalP".to_owned(),
        smartp_viridrlen: 25,
        h264_profile: "high".to_owned(),
        stream_buf_cnt: 2,
        mirror: "none".to_owned(),
    }
}

impl Default for StreamConfig {
    fn default() -> (r: StreamConfig)
        ensures
            default_stream(r, 800, 600, 25, 0),
    {
        stream_of(800, 600, 25, 0)
    }
}

/// Settings of the three streams.
#[derive(Debug, Clone)]
pub struct VideoConfig {
    pub main: StreamConfig,
    pub sub: StreamConfig,
    pub third: StreamConfig,
}

impl Default for VideoConfig {
    fn default() -> (r: VideoConfig)
        ensures
            default_stream(r.main, 2304, 1296, 25, 2048),
            default_stream(r.sub, 704, 576, 30, 512),
            default_stream(r.third, 960, 540, 25, 1024),
    {
        VideoConfig {
            main: stream_of(2304, 1296, 25, 2048),
            sub: stream_of(704, 576, 30, 512),
            third: stream_of(960, 540, 25, 1024),
        }
    }
}

/// Settings of a display on the camera.
#[derive(Debug, Clone, Copy, PartialEq, Eq, Structural)]
pub struct LcdConfig {
    pub enabled: bool,
    /// 0 to detect it
    pub width: u32,
    /// 0 to detect it
    pub height: u32,
}

impl Default for LcdConfig {
    fn default() -> (r: LcdConfig)
        ensures
            r == (LcdConfig { enabled: false, width: 800, height: 480 }),
    {
        LcdConfig { enabled: false, width: 800, height: 480 }
    }
}

/// Settings of object detection.
#[derive(Debug, Clone)]
pub struct RknnConfig {
    pub enabled: bool,
    pub model_path: String,
}

impl Default for RknnConfig {
    fn default() -> (r: RknnConfig)
        ensures
            !r.enabled,
            r.model_path@ == "/oem/yolov5.rknn"@,
    {
        RknnConfig { enabled: false, model_path: "/oem/yolov5.rknn".to_owned() }
    }
}

/// Settings of audio.
#[derive(Debug, Clone)]
pub struct AudioConfig {
    pub enabled: bool,
    pub card_name: String,
    /// In Hz
    pub sample_rate: u32,
    pub channels: u32,
    /// Samples in a frame
    pub frame_size: u32,
    /// `S16` or `U8`
    pub format: String,
    /// 0 to 100
    pub volume: u32,
    /// `PCM`, `G711A`, `G711U` or `MP2`
    pub encode_type: String,
    /// In bit/s
    pub bit_rate: u32,
    pub enable_vqe: bool,
    pub vqe_cfg: String,
}

/// Whether audio has the default settings.
pub open spec fn default_audio(a: AudioConfig) -> bool {
    &&& !a.enabled
    &&& a.card_name@ == "hw:0,0"@
    &&& a.sample_rate == 16000
    &&& a.channels == 1
    &&& a.frame_size == 1024
    &&& a.format@ == "S16"@
    &&& a.volume == 50
    &&& a.encode_type@ == "PCM"@
    &&& a.bit_rate == 16000
    &&& !a.enable_vqe
    &&& a.vqe_cfg@ == "/oem/usr/share/vqefiles/config_aivqe.json"@
}

impl Default for AudioConfig {
    fn default() -> (r: AudioConfig)
        ensures
            default_audio(r),
    {
        AudioConfig {
            enabled: false,
            card_name: "hw:0,0".to_owned(),
            sample_rate: 16000,
            channels: 1,
            frame_size: 1024,
            format: "S16".to_owned(),
            volume: 50,
            encode_type: "PCM".to_owned(),
            bit_rate: 16000,
            enable_vqe: false,
            vqe_cfg: "/oem/usr/share/vqefiles/config_aivqe.json".to_owned(),
        }
    }
}

/// Settings of the camera.
#[derive(Debug, Clone)]
pub struct Config {
    pub relays: Vec<String>,
    /// A single relay; used where the list is empty.
    pub relay: String,
    pub enable_mdns: bool,
    /// Punch holes for direct connections. Where that is bound to fail it only
    /// disturbs video through the relay.
    pub enable_dcutr: bool,
    pub mode: String,
    /// The file of the camera's key.
    pub key_file: String,
    pub audio: AudioConfig,
    pub udp_port: Option<u16>,
    pub video: VideoConfig,
    pub lcd: LcdConfig,
    pub rknn: RknnConfig,
    /// The frame rate at which the sensor delivers.
    pub sensor_frame_rate: u32,
    /// A file to play in place of the camera.
    pub video_file: Option<String>,
}

impl Default for Config {
    fn default() -> (r: Config)
        ensures
            r.relays@.len() == 0,
            r.relay@.len() == 0,
            r.enable_mdns,
            r.enable_dcutr,
            r.mode@ == "listen"@,
            r.key_file@ == "device-cam.key"@,
            default_audio(r.audio),
            r.udp_port is None,
            default_stream(r.video.main, 2304, 1296, 25, 2048),
            default_stream(r.video.sub, 704, 576, 30, 512),
            default_stream(r.video.third, 960, 540, 25, 1024),
            r.lcd == (LcdConfig { enabled: false, width: 800, height: 480 }),
            !r.rknn.enabled,
            r.rknn.model_path@ == "/oem/yolov5.rknn"@,
            r.sensor_frame_rate == 30,
            r.video_file is None,
    {
        Config {
            relays: Vec::new(),
            relay: String::new(),
            enable_mdns: true,
            enable_dcutr: true,
            mode: "listen".to_owned(),
            key_file: "device-cam.key".to_owned(),
            audio: AudioConfig::default(),
            udp_port: None,
            video: VideoConfig::default(),
            lcd: LcdConfig::default(),
            rknn: RknnConfig::default(),
            sensor_frame_rate: 30,
            video_file: None,
        }
    }
}

/// What the command line sets.
#[derive(Debug)]
pub struct CliOverrides {
    pub relays: Vec<String>,
    pub enable_mdns: Option<bool>,
    pub mode: Option<String>,
    pub key_file: Option<String>,
    pub enable_audio: bool,
    pub udp_port: Option<u16>,
    pub video_file: Option<String>,
    /// A model for object detection, which it switches on.
    pub rknn_model: Option<String>,
}

impl Default for CliOverrides {
    fn default() -> (r: CliOverrides)
        ensures
            r.relays@.len() == 0,
            r.enable_mdns is None,
            r.mode is None,
            r.key_file is None,
            !r.enable_audio,
            r.udp_port is None,
            r.video_file is None,
            r.rknn_model is None,
    {
        CliOverrides {
            relays: Vec::new(),
            enable_mdns: None,
            mode: None,
            key_file: None,
            enable_audio: false,
            udp_port: None,
            video_file: None,
            rknn_model: None,
        }
    }
}

/// A value, or else another one.
pub open spec fn or_else<T>(value: Option<T>, other: T) -> T {
    match value {
        Some(v) => v,
        None => other,
    }
}

/// Whether `after` is `before` with what the command line sets put in its place.
pub open spec fn overridden(before: Config, cli: CliOverrides, after: Config) -> bool {
    &&& after.relays@ == if cli.relays@.len() > 0 {
        cli.relays@
    } else {
        before.relays@
    }
    &&& after.enable_mdns == or_else(cli.enable_mdns, before.enable_mdns)
    &&& after.mode == or_else(cli.mode, before.mode)
    &&& after.key_file == or_else(cli.key_file, before.key_file)
    &&& after.audio == (AudioConfig {
        enabled: before.audio.enabled || cli.enable_audio,
        ..before.audio
    })
    &&& after.udp_port == match cli.udp_port {
        Some(p) => Some(p),
        None => before.udp_port,
    }
    &&& after.video_file == match cli.video_file {
        Some(f) => Some(f),
        None => before.video_file,
    }
    &&& after.rknn == match cli.rknn_model {
        Some(m) => RknnConfig { enabled: true, model_path: m },
        None => before.rknn,
    }
    &&& after.relay == before.relay
    &&& after.enable_dcutr == before.enable_dcutr
    &&& after.video == before.video
    &&& after.lcd == before.lcd
    &&& after.sensor_frame_rate == before.sensor_frame_rate
}

/// A stream.
#[derive(Debug, Clone, Copy, PartialEq, Eq, Structural)]
pub enum StreamType {
    Main,
    Sub,
    Third,
}

impl StreamType {
    /// The stream of an encoder channel.
    pub fn from_chn_id(chn_id: u8) -> (r: Option<StreamType>)
        ensures
            r == if chn_id == 0 {
                Some(StreamType::Main)
            } else if chn_id == 1 {
                Some(StreamType::Sub)
            } else if chn_id == 2 {
                Some(StreamType::Third)
            } else {
                None
            },
    {
        match chn_id {
            0 => Some(StreamType::Main),
            1 => Some(StreamType::Sub),
            2 => Some(StreamType::Third),
            _ => None,
        }
    }

    pub fn name(&self) -> (r: &'static str)
        ensures
            r@ == match *self {
                StreamType::Main => "main"@,
                StreamType::Sub => "sub"@,
                StreamType::Third => "third"@,
            },
    {
        match self {
            StreamType::Main => "main",
            StreamType::Sub => "sub",
            StreamType::Third => "third",
        }
    }
}

/// The streams that are switched on, with their settings.
pub open spec fn enabled_list(video: VideoConfig) -> Seq<(StreamType, StreamConfig)> {
    let main = if video.main.enabled {
        seq![(StreamType::Main, video.main)]
    } else {
        seq![]
    };
    let sub = if video.sub.enabled {
        seq![(StreamType::Sub, video.sub)]
    } else {
        seq![]
    };
    let third = if video.third.enabled {
        seq![(StreamType::Third, video.third)]
    } else {
        seq![]
    };
    main + sub + third
}

impl Config {
    /// Takes over the single relay of an older settings file. A list of relays comes
    /// first.
    pub fn resolve_relays(&mut self)
        ensures
            final(self).relays@ == if old(self).relays@.len() == 0 && old(self).relay@.len() > 0 {
                seq![old(self).relay]
            } else {
                old(self).relays@
            },
            *final(self) == (Config { relays: final(self).relays, ..*old(self) }),
    {
        if self.relays.len() == 0 && !self.relay.as_str().is_empty() {
            let relay = self.relay.clone();
            self.relays.push(relay);
            assert(self.relays@ =~= seq![old(self).relay]);
        }
    }

    /// Puts what the command line sets in place. A list of relays there replaces the
    /// whole list.
    pub fn apply_cli_overrides(&mut self, cli: &CliOverrides)
        ensures
            overridden(*old(self), *cli, *final(self)),
    {
        if cli.relays.len() > 0 {
            self.relays = clone_texts(&cli.relays);
        }
        if let Some(enable_mdns) = cli.enable_mdns {
            self.enable_mdns = enable_mdns;
        }
        if let Some(mode) = &cli.mode {
            self.mode = mode.clone();
        }
        if let Some(key_file) = &cli.key_file {
            self.key_file = key_file.clone();
        }
        if cli.enable_audio {
            self.audio.enabled = true;
        }
        if let Some(udp_port) = cli.udp_port {
            self.udp_port = Some(udp_port);
        }
        if let Some(video_file) = &cli.video_file {
            self.video_file = Some(video_file.clone());
        }
        if let Some(model) = &cli.rknn_model {
            self.rknn.enabled = true;
            self.rknn.model_path = model.clone();
        }
    }

    /// The streams that are switched on, with their settings.
    pub fn enabled_streams(&self) -> (r: Vec<(StreamType, &StreamConfig)>)
        ensures
            r@.map_values(|p: (StreamType, &StreamConfig)| (p.0, *p.1)) == enabled_list(self.video),
    {
        let mut streams: Vec<(StreamType, &StreamConfig)> = Vec::new();
        if self.video.main.enabled {
            streams.push((StreamType::Main, &self.video.main));
        }
        if self.video.sub.enabled {
            streams.push((StreamType::Sub, &self.video.sub));
        }
        if self.video.third.enabled {
            streams.push((StreamType::Third, &self.video.third));
        }
        assert(streams@.map_values(|p: (StreamType, &StreamConfig)| (p.0, *p.1)) =~= enabled_list(
            self.video,
        ));
        streams
    }

    /// Whether the camera can be reached at all: through a relay or on the local
    /// network.
    pub fn is_reachable(&self) -> (r: bool)
        ensures
            r == (self.relays@.len() > 0 || self.enable_mdns),
    {
        self.relays.len() > 0 || self.enable_mdns
    }
}

/// How much a line of a report matters.
#[derive(Debug, Clone, Copy, PartialEq, Eq, Structural)]
pub enum ReportLevel {
    Warning,
    Info,
}

/// A line of a report on the settings.
#[derive(Debug)]
pub struct ReportLine {
    pub level: ReportLevel,
    pub text: String,
}

/// The views of lines.
pub open spec fn line_views(lines: Seq<ReportLine>) -> Seq<(ReportLevel, Seq<char>)> {
    lines.map_values(|l: ReportLine| (l.level, l.text@))
}

/// How a relay is called in the report: by its number, if there are several.
pub open spec fn relay_label(index: int, count: int) -> Seq<char> {
    if count == 1 {
        "Relay"@
    } else {
        "Relay #"@ + decimal((index + 1) as nat)
    }
}

/// What the report says of a relay: QUIC is good for hole punching, TCP alone is not.
pub open spec fn relay_line(relay: Seq<char>, index: int, count: int) -> Option<
    (ReportLevel, Seq<char>),
> {
    if contains(relay, "/quic-v1"@) {
        Some(
            (
                ReportLevel::Info,
                relay_label(index, count) + " protocol: QUIC - good for DCUtR hole punching"@,
            ),
        )
    } else if contains(relay, "/tcp/"@) {
        Some(
            (
                ReportLevel::Warning,
                "WARNING: "@ + relay_label(index, count)
                    + " using TCP - DCUtR will only produce TCP candidates"@,
            ),
        )
    } else {
        None
    }
}

/// What the report says of the first `n` relays.
pub open spec fn relay_lines(relays: Seq<String>, n: int) -> Seq<(ReportLevel, Seq<char>)>
    decreases n,
{
    if n <= 0 {
        seq![]
    } else {
        match relay_line(relays[n - 1]@, n - 1, relays.len() as int) {
            Some(line) => relay_lines(relays, n - 1).push(line),
            None => relay_lines(relays, n - 1),
        }
    }
}

/// Whether something is switched on.
pub open spec fn on_off(enabled: bool) -> Seq<char> {
    if enabled {
        "ON"@
    } else {
        "OFF"@
    }
}

/// What the report says of a stream.
pub open spec fn stream_line(label: Seq<char>, s: StreamConfig) -> Seq<char> {
    label + on_off(s.enabled) + " ("@ + decimal(s.width as nat) + "x"@ + decimal(s.height as nat)
        + " @"@ + decimal(s.dst_frame_rate_num as nat) + "/"@ + decimal(
        s.dst_frame_rate_den as nat,
    ) + "fps "@ + decimal(s.bitrate_kbps as nat) + "kbps "@ + s.codec@ + ")"@
}

/// What the report says of audio.
pub open spec fn audio_line(a: AudioConfig) -> Seq<char> {
    "Audio: "@ + on_off(a.enabled) + " ("@ + decimal(a.sample_rate as nat) + "Hz, "@ + decimal(
        a.channels as nat,
    ) + "ch, "@ + decimal(a.frame_size as nat) + "samples/frame, card="@ + a.card_name@ + ", fmt="@
        + a.format@ + ", encode="@ + a.encode_type@ + ", bitrate="@ + decimal(a.bit_rate as nat)
        + ", vqe="@ + if a.enable_vqe {
        "true"@
    } else {
        "false"@
    } + ")"@
}

/// The report on the settings.
pub open spec fn config_report(c: Config) -> Seq<(ReportLevel, Seq<char>)> {
    let port = if c.udp_port == Some(0u16) {
        seq![
            (
                ReportLevel::Warning,
                "WARNING: Using random UDP port - cannot configure port forwarding for DCUtR"@,
            ),
        ]
    } else {
        seq![]
    };
    let mdns = if c.enable_mdns {
        "mDNS enabled - LAN discovery active"@
    } else {
        "mDNS disabled"@
    };
    relay_lines(c.relays@, c.relays@.len() as int) + port + seq![
        (ReportLevel::Info, mdns),
        (ReportLevel::Info, "Stream config:"@),
        (ReportLevel::Info, stream_line("  Main:  "@, c.video.main)),
        (ReportLevel::Info, stream_line("  Sub:   "@, c.video.sub)),
        (ReportLevel::Info, stream_line("  Third: "@, c.video.third)),
        (ReportLevel::Info, audio_line(c.audio)),
    ]
}

fn relay_report(relay: &str, index: usize, count: usize) -> (r: Option<ReportLine>)
    requires
        index < count,
    ensures
        match relay_line(relay@, index as int, count as int) {
            Some((level, text)) => r matches Some(l) && l.level == level && l.text@ == text,
            None => r is None,
        },
{
    let mut label = "Relay".to_owned();
    if count != 1 {
        label = "Relay #".to_owned();
        push_decimal(&mut label, index as u64 + 1);
    }
    let quic = str_contains(relay, "/quic-v1");
    if str_contains(relay, "/tcp/") && !quic {
        let mut text = "WARNING: ".to_owned();
        text.append(label.as_str());
        text.append(" using TCP - DCUtR will only produce TCP candidates");
        Some(ReportLine { level: ReportLevel::Warning, text })
    } else if quic {
        let mut text = label;
        text.append(" protocol: QUIC - good for DCUtR hole punching");
        Some(ReportLine { level: ReportLevel::Info, text })
    } else {
        None
    }
}

fn on_off_text(enabled: bool) -> (r: &'static str)
    ensures
        r@ == on_off(enabled),
{
    if enabled {
        "ON"
    } else {
        "OFF"
    }
}

fn stream_report(label: &str, s: &StreamConfig) -> (r: String)
    ensures
        r@ == stream_line(label@, *s),
{
    let mut t = label.to_owned();
    t.append(on_off_text(s.enabled));
    t.append(" (");
    push_decimal(&mut t, s.width as u64);
    t.append("x");
    push_decimal(&mut t, s.height as u64);
    t.append(" @");
    push_decimal(&mut t, s.dst_frame_rate_num as u64);
    t.append("/");
    push_decimal(&mut t, s.dst_frame_rate_den as u64);
    t.append("fps ");
    push_decimal(&mut t, s.bitrate_kbps as u64);
    t.append("kbps ");
    t.append(s.codec.as_str());
    t.append(")");
    t
}

fn audio_report(a: &AudioConfig) -> (r: String)
    ensures
        r@ == audio_line(*a),
{
    let mut t = "Audio: ".to_owned();
    t.append(on_off_text(a.enabled));
    t.append(" (");
    push_decimal(&mut t, a.sample_rate as u64);
    t.append("Hz, ");
    push_decimal(&mut t, a.channels as u64);
    t.append("ch, ");
    push_decimal(&mut t, a.frame_size as u64);
    t.append("samples/frame, card=");
    t.append(a.card_name.as_str());
    t.append(", fmt=");
    t.append(a.format.as_str());
    t.append(", encode=");
    t.append(a.encode_type.as_str());
    t.append(", bitrate=");
    push_decimal(&mut t, a.bit_rate as u64);
    t.append(", vqe=");
    t.append(
        if a.enable_vqe {
            "true"
        } else {
            "false"
        },
    );
    t.append(")");
    t
}

/// A report on the settings: what stands in the way of hole punching, and what is
/// switched on.
pub fn validate_device_cam_config(config: &Config) -> (r: Vec<ReportLine>)
    ensures
        line_views(r@) == config_report(*config),
{
    let mut lines: Vec<ReportLine> = Vec::new();
    let count: usize = config.relays.len();
    let mut i: usize = 0;
    assert(line_views(lines@) =~= relay_lines(config.relays@, 0));
    while i < count
        invariant
            i <= count == config.relays@.len(),
            line_views(lines@) == relay_lines(config.relays@, i as int),
        decreases count - i,
    {
        let ghost before = lines@;
        if let Some(line) = relay_report(config.relays[i].as_str(), i, count) {
            lines.push(line);
            assert(line_views(lines@) =~= line_views(before).push((line.level, line.text@)));
        }
        i += 1;
    }
    let ghost relays = lines@;
    if let Some(port) = config.udp_port {
        if port == 0 {
            lines.push(
                ReportLine {
                    level: ReportLevel::Warning,
                    text:
                        "WARNING: Using random UDP port - cannot configure port forwarding for DCUtR".to_owned(),
                },
            );
        }
    }
    let mdns = if config.enable_mdns {
        "mDNS enabled - LAN discovery active"
    } else {
        "mDNS disabled"
    };
    lines.push(ReportLine { level: ReportLevel::Info, text: mdns.to_owned() });
    lines.push(ReportLine { level: ReportLevel::Info, text: "Stream config:".to_owned() });
    lines.push(
        ReportLine {
            level: ReportLevel::Info,
            text: stream_report("  Main:  ", &config.video.main),
        },
    );
    lines.push(
        ReportLine {
            level: ReportLevel::Info,
            text: stream_report("  Sub:   ", &config.video.sub),
        },
    );
    lines.push(
        ReportLine {
            level: ReportLevel::Info,
            text: stream_report("  Third: ", &config.video.third),
        },
    );
    lines.push(ReportLine { level: ReportLevel::Info, text: audio_report(&config.audio) });
    assert(line_views(lines@) =~= config_report(*config));
    lines
}

/// Giving the same command line twice changes nothing more.
pub proof fn law_overrides_once(before: Config, cli: CliOverrides, after: Config, again: Config)
    requires
        overridden(before, cli, after),
        overridden(after, cli, again),
    ensures
        again.relays@ == after.relays@,
        again == (Config { relays: again.relays, ..after }),
{
}

/// What the command line does not set stays as the settings file has it.
pub proof fn law_empty_command_line(before: Config, cli: CliOverrides, after: Config)
    requires
        overridden(before, cli, after),
        cli.relays@.len() == 0,
        cli.enable_mdns is None,
        cli.mode is None,
        cli.key_file is None,
        !cli.enable_audio,
        cli.udp_port is None,
        cli.video_file is None,
        cli.rknn_model is None,
    ensures
        after.relays@ == before.relays@,
        after == (Config { relays: after.relays, ..before }),
{
}

/// What the command line says wins over the configuration, and what it does not say is
/// left alone. Audio can be switched on there but not off, and naming a model switches
/// the recognition on.
pub proof fn law_command_line_wins(before: Config, cli: CliOverrides, after: Config)
    requires
        overridden(before, cli, after),
    ensures
        cli.relays@.len() > 0 ==> after.relays@ == cli.relays@,
        cli.relays@.len() == 0 ==> after.relays@ == before.relays@,
        cli.enable_mdns matches Some(b) ==> after.enable_mdns == b,
        cli.enable_mdns is None ==> after.enable_mdns == before.enable_mdns,
        cli.mode matches Some(m) ==> after.mode@ == m@,
        cli.mode is None ==> after.mode@ == before.mode@,
        cli.key_file matches Some(k) ==> after.key_file@ == k@,
        cli.key_file is None ==> after.key_file@ == before.key_file@,
        cli.enable_audio || before.audio.enabled <==> after.audio.enabled,
        after.audio == (AudioConfig { enabled: after.audio.enabled, ..before.audio }),
        cli.udp_port is Some ==> after.udp_port == cli.udp_port,
        cli.udp_port is None ==> after.udp_port == before.udp_port,
        cli.video_file is Some ==> after.video_file == cli.video_file,
        cli.video_file is None ==> after.video_file == before.video_file,
        cli.rknn_model matches Some(m) ==> after.rknn.enabled && after.rknn.model_path@ == m@,
        cli.rknn_model is None ==> after.rknn == before.rknn,
        after.relay == before.relay && after.enable_dcutr == before.enable_dcutr && after.video
            == before.video && after.lcd == before.lcd && after.sensor_frame_rate
            == before.sensor_frame_rate,
{
}

/// The streams that are sent are those that are enabled, main before sub before third.
pub proof fn law_enabled_streams(video: VideoConfig)
    ensures
        enabled_list(video) == seq![
            (StreamType::Main, video.main),
            (StreamType::Sub, video.sub),
            (StreamType::Third, video.third),
        ].filter(|s: (StreamType, StreamConfig)| s.1.enabled),
{
    reveal_with_fuel(Seq::filter, 4);
    let all = seq![
        (StreamType::Main, video.main),
        (StreamType::Sub, video.sub),
        (StreamType::Third, video.third),
    ];
    assert(all.drop_last().drop_last().drop_last() =~= seq![]);
    assert(enabled_list(video) =~= all.filter(|s: (StreamType, StreamConfig)| s.1.enabled));
}

/// The report warns of a relay exactly where its text names TCP and not QUIC, and praises
/// one with QUIC; other relays are passed over. A single relay is not numbered, several
/// are, from one.
pub proof fn law_relays_in_report(relay: Seq<char>, index: int, count: int)
    requires
        0 <= index < count,
    ensures
        ({
            let label = if count == 1 {
                "Relay"@
            } else {
                "Relay #"@ + decimal((index + 1) as nat)
            };
            &&& contains(relay, "/quic-v1"@) ==> relay_line(relay, index, count) == Some(
                (
                    ReportLevel::Info,
                    label + " protocol: QUIC - good for DCUtR hole punching"@,
                ),
            )
            &&& !contains(relay, "/quic-v1"@) && contains(relay, "/tcp/"@) ==> relay_line(
                relay,
                index,
                count,
            ) == Some(
                (
                    ReportLevel::Warning,
                    "WARNING: "@ + label + " using TCP - DCUtR will only produce TCP candidates"@,
                ),
            )
            &&& !contains(relay, "/quic-v1"@) && !contains(relay, "/tcp/"@) ==> relay_line(
                relay,
                index,
                count,
            ) is None
        }),
{
}

/// After the relays the report has one line for the local network, a heading, one line
/// for each stream and one for audio, all of them for information; before these it warns
/// of a random port exactly where port 0 is asked for.
pub proof fn law_report_order(c: Config)
    ensures
        ({
            let relays = relay_lines(c.relays@, c.relays@.len() as int);
            let report = config_report(c);
            let warns: int = if c.udp_port == Some(0u16) {
                1
            } else {
                0
            };
            let n = relays.len() + warns;
            &&& report.len() == n + 6
            &&& report.take(relays.len() as int) == relays
            &&& c.udp_port == Some(0u16) ==> report[relays.len() as int].0 == ReportLevel::Warning
            &&& report[n] == (
                ReportLevel::Info,
                if c.enable_mdns {
                    "mDNS enabled - LAN discovery active"@
                } else {
                    "mDNS disabled"@
                },
            )
            &&& report[n + 2] == (ReportLevel::Info, stream_line("  Main:  "@, c.video.main))
            &&& report[n + 3] == (ReportLevel::Info, stream_line("  Sub:   "@, c.video.sub))
            &&& report[n + 4] == (ReportLevel::Info, stream_line("  Third: "@, c.video.third))
            &&& report[n + 5] == (ReportLevel::Info, audio_line(c.audio))
        }),
{
    let relays = relay_lines(c.relays@, c.relays@.len() as int);
    assert(config_report(c).take(relays.len() as int) =~= relays);
}

/// A stream by default: enabled, with H.265 at a constant bit rate, high quality, a key
/// frame every fifty frames, and what is said of its size, rate and bit rate.
pub proof fn law_default_stream(
    s: StreamConfig,
    width: u32,
    height: u32,
    fps: u32,
    bitrate_kbps: u32,
)
    requires
        default_stream(s, width, height, fps, bitrate_kbps),
    ensures
        s.enabled,
        s.codec@ == "H265"@ && s.rc_mode@ == "CBR"@ && s.rc_quality@ == "high"@,
        s.gop == 50 && s.gop_mode@ == "normalP"@ && s.smartp_viridrlen == 25,
        s.h264_profile@ == "high"@ && s.mirror@ == "none"@ && s.stream_buf_cnt == 2,
        s.width == width && s.height == height && s.bitrate_kbps == bitrate_kbps,
        s.src_frame_rate_num == fps && s.src_frame_rate_den == 1,
        s.dst_frame_rate_num == fps && s.dst_frame_rate_den == 1,
{
}

/// Audio by default: off, one channel of PCM at 16 kHz.
pub proof fn law_default_audio(a: AudioConfig)
    requires
        default_audio(a),
    ensures
        !a.enabled && !a.enable_vqe,
        a.sample_rate == 16000 && a.channels == 1 && a.frame_size == 1024 && a.bit_rate == 16000,
        a.volume == 50,
        a.card_name@ == "hw:0,0"@ && a.format@ == "S16"@ && a.encode_type@ == "PCM"@,
        a.vqe_cfg@ == "/oem/usr/share/vqefiles/config_aivqe.json"@,
{
}

/// The line of a stream tells whether it is on, its size, its rate, its bit rate and its
/// codec, in this order.
pub proof fn law_stream_line(label: Seq<char>, s: StreamConfig)
    ensures
        stream_line(label, s) == label + (if s.enabled {
            "ON"@
        } else {
            "OFF"@
        }) + " ("@ + decimal(s.width as nat) + "x"@ + decimal(s.height as nat) + " @"@ + decimal(
            s.dst_frame_rate_num as nat,
        ) + "/"@ + decimal(s.dst_frame_rate_den as nat) + "fps "@ + decimal(s.bitrate_kbps as nat)
            + "kbps "@ + s.codec@ + ")"@,
{
}

} // verus!
