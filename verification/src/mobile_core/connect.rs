//! Connecting to the camera: through the local network where it is found there, else
//! through a relay.

use vstd::prelude::*;

use super::net_diag::{ConnectionQuality, ConnectionType, NatDiagnostic, NatView};
use super::stream_select::{resolved_protocol, StreamTypeResolver};
use super::viewer::{
    classify_connection, connection_of, found_views, note_address, noted_all, opt_peer,
    player_step, ConnectOptions, ConnectParams, MediaPlayer, NetworkEvent, ParamsView, PlayerView,
};
use crate::net::addr::{
    addr_views, any_v4, has_part, law_parts_of_an_address, quic_addr, quic_at, tcp_addr, tcp_at,
    Ipv4, Multiaddr, Part, PeerId, Protocol,
};
use crate::net::addr_book::AddrBook;
use crate::net::identity::{addr_from_text, addr_of_text, peer_from_text, peer_of_text};
use crate::proto::media_packet::{MediaPacket, MediaTrack, PacketView, FLAG_VIDEO_KEYFRAME};
use crate::text::{clone_texts, str_eq};
use crate::text_map::TextMap;

verus! {

broadcast use vstd::string::group_string_axioms;

/// How long to wait for an event before anything is connected, in milliseconds.
pub const FIRST_WAIT_MS: u64 = 30_000;

/// How long to wait for an event once a relay is connected, in milliseconds.
pub const NEXT_WAIT_MS: u64 = 100;

/// Why the camera cannot be connected.
#[derive(Debug)]
pub enum ConnectError {
    /// The map of serial numbers gives something that is no peer id.
    BadSerialMapping { serial: String, value: String },
    /// The text at this place in the list is no address, for this reason.
    InvalidRelayAddress { index: usize, error: String },
    /// The serial number cannot be resolved, as no relay is connected.
    NoRelayForSerial { serial: String },
    /// Neither the local network nor a relay leads to the camera.
    NoRoute,
    /// It is not known which peer the camera is.
    CameraUnknown,
    /// The camera could not be dialled, for this reason.
    CameraUnreachable(String),
    /// A dial to some unknown peer failed, for this reason.
    DialFailed(String),
    /// There was no connection before.
    NothingToReconnect,
}

/// The text of the error for the user.
pub fn connect_error_text(error: &ConnectError) -> (r: String)
    ensures
        r@ == match *error {
            ConnectError::BadSerialMapping { serial, value } => "serial_map 中 '"@ + serial@
                + "' 的值 '"@ + value@ + "' 不是合法 PeerId，请检查配置"@,
            ConnectError::InvalidRelayAddress { error, .. } => error@,
            ConnectError::NoRelayForSerial { serial } => "无法解析序列号 '"@ + serial@
                + "'：未连接到任何 Relay（请检查 relays 配置或补充 serial_map）"@,
            ConnectError::NoRoute => "Failed to connect: no relay connection and no mDNS discovery"@,
            ConnectError::CameraUnknown => "device_cam_peer_id not set"@,
            ConnectError::CameraUnreachable(error) => "Connection to device-cam failed: "@ + error@,
            ConnectError::DialFailed(error) => "Connection failed: "@ + error@,
            ConnectError::NothingToReconnect => "No connect params saved, cannot reconnect"@,
        },
{
    match error {
        ConnectError::BadSerialMapping { serial, value } => {
            let mut s = "serial_map 中 '".to_owned();
            s.append(serial.as_str());
            s.append("' 的值 '");
            s.append(value.as_str());
            s.append("' 不是合法 PeerId，请检查配置");
            s
        },
        ConnectError::InvalidRelayAddress { error, .. } => error.clone(),
        ConnectError::NoRelayForSerial { serial } => {
            let mut s = "无法解析序列号 '".to_owned();
            s.append(serial.as_str());
            s.append("'：未连接到任何 Relay（请检查 relays 配置或补充 serial_map）");
            s
        },
        ConnectError::NoRoute => {
            "Failed to connect: no relay connection and no mDNS discovery".to_owned()
        },
        ConnectError::CameraUnknown => "device_cam_peer_id not set".to_owned(),
        ConnectError::CameraUnreachable(error) => {
            let mut s = "Connection to device-cam failed: ".to_owned();
            s.append(error.as_str());
            s
        },
        ConnectError::DialFailed(error) => {
            let mut s = "Connection failed: ".to_owned();
            s.append(error.as_str());
            s
        },
        ConnectError::NothingToReconnect => "No connect params saved, cannot reconnect".to_owned(),
    }
}

/// What the user's input stands for.
pub enum Target {
    /// A peer.
    Known(Seq<u8>),
    /// A serial number to ask a relay for.
    Unknown,
    /// A serial number whose peer id in the map is none.
    Invalid,
}

/// What the input stands for: `parsed` is the peer id that the input is, if any, and
/// `mapped` what the map of serial numbers gives for it, as a peer id.
pub open spec fn target_of(parsed: Option<Seq<u8>>, mapped: Option<Option<Seq<u8>>>) -> Target {
    match (parsed, mapped) {
        (Some(p), _) => Target::Known(p),
        (None, Some(Some(p))) => Target::Known(p),
        (None, Some(None)) => Target::Invalid,
        (None, None) => Target::Unknown,
    }
}

/// What the map of serial numbers gives for an input, as a peer id.
pub open spec fn mapped_peer(
    device: Seq<char>,
    serial_map: Map<Seq<char>, Seq<char>>,
) -> Option<Option<Seq<u8>>> {
    if serial_map.contains_key(device) {
        Some(peer_of_text(serial_map[device]))
    } else {
        None
    }
}

/// What the input stands for.
pub open spec fn target_for(device: Seq<char>, serial_map: Map<Seq<char>, Seq<char>>) -> Target {
    target_of(peer_of_text(device), mapped_peer(device, serial_map))
}

/// The outcome of [`pick_target`].
#[derive(Debug)]
pub enum PickedTarget {
    Known(PeerId),
    Unknown,
    Invalid,
}

impl View for PickedTarget {
    type V = Target;

    open spec fn view(&self) -> Target {
        match self {
            PickedTarget::Known(p) => Target::Known(p@),
            PickedTarget::Unknown => Target::Unknown,
            PickedTarget::Invalid => Target::Invalid,
        }
    }
}

/// Picks what the input stands for, by what it and the map were read as.
pub fn pick_target(parsed: Option<PeerId>, mapped: Option<Option<PeerId>>) -> (r: PickedTarget)
    ensures
        r@ == target_of(
            opt_peer(parsed),
            match mapped {
                Some(m) => Some(opt_peer(m)),
                None => None,
            },
        ),
{
    match parsed {
        Some(p) => PickedTarget::Known(p),
        None => match mapped {
            Some(Some(p)) => PickedTarget::Known(p),
            Some(None) => PickedTarget::Invalid,
            None => PickedTarget::Unknown,
        },
    }
}

/// What the input stands for: a peer id, or a serial number that the map may give a
/// peer id for.
pub fn resolve_target(device: &str, serial_map: &TextMap) -> (r: PickedTarget)
    ensures
        r@ == target_for(device@, serial_map@),
{
    let parsed = peer_from_text(device);
    let mapped = match serial_map.get(device) {
        Some(text) => Some(peer_from_text(text)),
        None => None,
    };
    pick_target(parsed, mapped)
}

/// The addresses that texts stand for, up to the first that stands for none.
pub open spec fn parsed_addrs(texts: Seq<String>) -> Seq<Seq<Part>>
    decreases texts.len(),
{
    if texts.len() == 0 {
        seq![]
    } else {
        match addr_of_text(texts[0]@) {
            Ok(a) => seq![a] + parsed_addrs(texts.skip(1)),
            Err(_) => seq![],
        }
    }
}

/// Whether the first text that is no address stands at this place, and this is why.
pub open spec fn is_bad_addr(texts: Seq<String>, index: int, error: Seq<char>) -> bool {
    &&& index == parsed_addrs(texts).len()
    &&& 0 <= index < texts.len()
    &&& addr_of_text(texts[index]@) == Err::<Seq<Part>, Seq<char>>(error)
}

/// Reads addresses; the first that is none is the error, with its place and the
/// reason.
pub fn parse_addrs(texts: &Vec<String>) -> (r: Result<Vec<Multiaddr>, (usize, String)>)
    ensures
        match r {
            Ok(v) => addr_views(v@) == parsed_addrs(texts@) && v@.len() == texts@.len(),
            Err((i, e)) => is_bad_addr(texts@, i as int, e@),
        },
{
    let mut out: Vec<Multiaddr> = Vec::new();
    let mut i: usize = 0;
    assert(texts@.skip(0) =~= texts@);
    assert(addr_views(out@) + parsed_addrs(texts@.skip(0)) =~= parsed_addrs(texts@));
    while i < texts.len()
        invariant
            i <= texts@.len(),
            out@.len() == i,
            addr_views(out@) + parsed_addrs(texts@.skip(i as int)) == parsed_addrs(texts@),
        decreases texts@.len() - i,
    {
        let ghost before = addr_views(out@);
        proof {
            assert(texts@.skip(i as int)[0] == texts@[i as int]);
            assert(texts@.skip(i as int).skip(1) =~= texts@.skip(i + 1));
        }
        match addr_from_text(texts[i].as_str()) {
            Ok(a) => {
                out.push(a);
                assert(addr_views(out@) =~= before.push(a@));
                assert(addr_views(out@) + parsed_addrs(texts@.skip(i + 1)) =~= before + parsed_addrs(
                    texts@.skip(i as int),
                ));
            },
            Err(e) => {
                return Err((i, e));
            },
        }
        i += 1;
    }
    assert(texts@.skip(texts@.len() as int) =~= seq![]);
    assert(addr_views(out@) + parsed_addrs(seq![]) =~= addr_views(out@));
    Ok(out)
}

/// A connection in the making.
#[derive(Debug)]
pub struct ConnectAttempt {
    /// The camera, where its peer id is known beforehand.
    pub target: Option<PeerId>,
    /// The relays, all of which are dialled at once.
    pub relays: Vec<Multiaddr>,
    pub enable_mdns: bool,
    /// What the user asked for.
    pub device: String,
    /// The first relay that was connected.
    pub relay: Option<(PeerId, Multiaddr)>,
    /// The camera's address on the local network.
    pub lan_addr: Option<Multiaddr>,
    /// How many dials of relays have failed.
    pub relay_errors: usize,
}

/// The same with sequences.
pub struct AttemptView {
    pub target: Option<Seq<u8>>,
    pub relays: Seq<Seq<Part>>,
    pub enable_mdns: bool,
    pub device: Seq<char>,
    pub relay: Option<(Seq<u8>, Seq<Part>)>,
    pub lan_addr: Option<Seq<Part>>,
    pub relay_errors: usize,
}

/// The view of an optional address.
pub open spec fn opt_addr(a: Option<Multiaddr>) -> Option<Seq<Part>> {
    match a {
        Some(m) => Some(m@),
        None => None,
    }
}

impl View for ConnectAttempt {
    type V = AttemptView;

    open spec fn view(&self) -> AttemptView {
        AttemptView {
            target: opt_peer(self.target),
            relays: addr_views(self.relays@),
            enable_mdns: self.enable_mdns,
            device: self.device@,
            relay: match self.relay {
                Some((p, a)) => Some((p@, a@)),
                None => None,
            },
            lan_addr: opt_addr(self.lan_addr),
            relay_errors: self.relay_errors,
        }
    }
}

/// The viewer's state when a connection begins.
pub open spec fn prepared(
    v: PlayerView,
    params: ParamsView,
    network_type: Seq<char>,
    udp_port: u16,
) -> PlayerView {
    PlayerView {
        params: Some(params),
        no_audio: params.no_audio,
        network_type,
        udp_port,
        stream_type: params.stream_type,
        stream_connection: ConnectionType::Disconnected,
        lan_attempted: false,
        dcutr_fails: 0,
        ..v
    }
}

/// The address of a peer that was found on the local network, if that is to be used.
pub open spec fn known_lan_addr(
    found: Map<Seq<u8>, Seq<Part>>,
    peer: Option<Seq<u8>>,
    enable_mdns: bool,
) -> Option<Seq<Part>> {
    match peer {
        Some(p) => if enable_mdns && found.contains_key(p) {
            Some(found[p])
        } else {
            None
        },
        None => None,
    }
}

/// The connection in the making when it begins.
pub open spec fn begun(
    v: PlayerView,
    target: Option<Seq<u8>>,
    relays: Seq<Seq<Part>>,
    enable_mdns: bool,
    device: Seq<char>,
) -> AttemptView {
    AttemptView {
        target,
        relays,
        enable_mdns,
        device,
        relay: None,
        lan_addr: known_lan_addr(v.found, target, enable_mdns),
        relay_errors: 0,
    }
}

/// What to do while a connection is in the making.
#[derive(Debug, Clone, Copy, PartialEq, Eq, Structural)]
pub enum WaitStep {
    /// Go on to the camera.
    Proceed,
    /// Wait so many milliseconds for an event.
    Wait(u64),
}

/// Whether the search is over. The local network comes first: a relay is used only
/// when the time for finding the camera there has passed.
pub open spec fn search_over(a: AttemptView, deadline_passed: bool) -> bool {
    let expired = !a.enable_mdns || deadline_passed;
    a.lan_addr is Some || (expired && (a.relay is Some || a.relay_errors >= a.relays.len()))
}

/// An event while a connection is in the making.
#[allow(inconsistent_fields)]
#[derive(Debug)]
pub enum ConnectEvent {
    Established { peer: PeerId, addr: Multiaddr },
    Discovered(Vec<(PeerId, Multiaddr)>),
    DialFailed { peer: Option<PeerId> },
    Other,
}

/// Whether a peer is one of the relays.
pub open spec fn is_relay(relays: Seq<Seq<Part>>, peer: Seq<u8>) -> bool {
    exists|i: int| 0 <= i < relays.len() && has_part(#[trigger] relays[i], Part::P2p(peer))
}

/// The first address of a peer among those that were found.
pub open spec fn first_found(found: Seq<(Seq<u8>, Seq<Part>)>, peer: Seq<u8>) -> Option<Seq<Part>>
    decreases found.len(),
{
    if found.len() == 0 {
        None
    } else {
        match first_found(found.drop_last(), peer) {
            Some(a) => Some(a),
            None => if found.last().0 == peer {
                Some(found.last().1)
            } else {
                None
            },
        }
    }
}

/// What an event makes of the viewer and of the connection in the making.
pub open spec fn connect_step(v: PlayerView, a: AttemptView, event: ConnectEvent) -> (
    PlayerView,
    AttemptView,
) {
    match event {
        ConnectEvent::Established { peer, addr } => if is_relay(a.relays, peer@) && a.relay is None {
            (
                PlayerView { relay: Some(peer@), ..v },
                AttemptView { relay: Some((peer@, addr@)), ..a },
            )
        } else {
            (v, a)
        },
        ConnectEvent::Discovered(found) => (
            PlayerView { found: noted_all(v.found, found_views(found@)), ..v },
            AttemptView {
                lan_addr: if a.lan_addr is Some {
                    a.lan_addr
                } else {
                    match a.target {
                        Some(t) => first_found(found_views(found@), t),
                        None => None,
                    }
                },
                ..a
            },
        ),
        ConnectEvent::DialFailed { peer } => match peer {
            Some(p) => if is_relay(a.relays, p@) {
                (v, AttemptView { relay_errors: (a.relay_errors + 1) as usize, ..a })
            } else {
                (v, a)
            },
            None => (v, a),
        },
        ConnectEvent::Other => (v, a),
    }
}

impl ConnectAttempt {
    /// Whether to go on to the camera or to wait; `deadline_passed` tells whether the
    /// time for finding the camera on the local network has passed.
    pub fn wait_step(&self, deadline_passed: bool) -> (r: WaitStep)
        ensures
            r == if search_over(self@, deadline_passed) {
                WaitStep::Proceed
            } else if self@.relay is None {
                WaitStep::Wait(FIRST_WAIT_MS)
            } else {
                WaitStep::Wait(NEXT_WAIT_MS)
            },
    {
        let mdns_expired = !self.enable_mdns || deadline_passed;
        if self.lan_addr.is_some() {
            return WaitStep::Proceed;
        }
        if mdns_expired && self.relay.is_some() {
            return WaitStep::Proceed;
        }
        if self.relay_errors >= self.relays.len() && mdns_expired {
            return WaitStep::Proceed;
        }
        if self.relay.is_none() {
            WaitStep::Wait(FIRST_WAIT_MS)
        } else {
            WaitStep::Wait(NEXT_WAIT_MS)
        }
    }

    /// Whether to go on to the camera when no event came in time.
    pub fn proceed_on_timeout(&self) -> (r: bool)
        ensures
            r == (self@.lan_addr is Some || self@.relay is Some),
    {
        self.lan_addr.is_some() || self.relay.is_some()
    }

    fn knows_relay(&self, peer: &PeerId) -> (r: bool)
        ensures
            r == is_relay(self@.relays, peer@),
    {
        let mut i: usize = 0;
        while i < self.relays.len()
            invariant
                i <= self.relays@.len(),
                forall|k: int|
                    0 <= k < i ==> !has_part(#[trigger] self@.relays[k], Part::P2p(peer@)),
            decreases self.relays@.len() - i,
        {
            if self.relays[i].has_peer(peer) {
                assert(has_part(self@.relays[i as int], Part::P2p(peer@)));
                return true;
            }
            i += 1;
        }
        false
    }

    /// The relay to ask who the camera is, where that is not known.
    pub fn registry_relay(&self) -> (r: Result<Option<PeerId>, ConnectError>)
        ensures
            self@.target is Some ==> r matches Ok(None),
            self@.target is None ==> match self@.relay {
                Some((p, _)) => r matches Ok(Some(q)) && q@ == p,
                None => r matches Err(ConnectError::NoRelayForSerial { serial }) && serial@
                    == self@.device,
            },
    {
        if self.target.is_some() {
            return Ok(None);
        }
        match &self.relay {
            Some(r) => Ok(Some(r.0.clone())),
            None => Err(ConnectError::NoRelayForSerial { serial: self.device.clone() }),
        }
    }
}

/// Who the camera is: known beforehand, or `resolved` by a relay.
pub open spec fn camera_of(a: AttemptView, resolved: Option<Seq<u8>>) -> Option<Seq<u8>> {
    match a.target {
        Some(t) => Some(t),
        None => resolved,
    }
}

/// The address to dial for the camera.
pub open spec fn route_to(
    found: Map<Seq<u8>, Seq<Part>>,
    a: AttemptView,
    camera: Seq<u8>,
) -> Option<Seq<Part>> {
    match (a.lan_addr, known_lan_addr(found, Some(camera), a.enable_mdns), a.relay) {
        (Some(addr), _, _) => Some(addr),
        (None, Some(addr), _) => Some(addr),
        (None, None, Some((_, relay_addr))) => Some(
            relay_addr.push(Part::P2pCircuit).push(Part::P2p(camera)),
        ),
        (None, None, None) => None,
    }
}

/// An event while the camera is dialled.
#[allow(inconsistent_fields)]
#[derive(Debug)]
pub enum CameraEvent {
    Established { peer: PeerId, addr: Multiaddr, connection_id: u64 },
    DialFailed { peer: Option<PeerId>, error: String },
    Other,
}

/// What an event says while the camera is dialled.
pub enum CameraWait {
    Waiting,
    Connected(ConnectionType),
    CameraUnknown,
    CameraUnreachable(Seq<char>),
    DialFailed(Seq<char>),
}

/// What an event says while the camera is dialled. Other peers do not matter.
pub open spec fn camera_wait(camera: Option<Seq<u8>>, event: CameraEvent) -> CameraWait {
    match camera {
        None => CameraWait::CameraUnknown,
        Some(c) => match event {
            CameraEvent::Established { peer, addr, .. } => if peer@ == c {
                CameraWait::Connected(connection_of(addr@))
            } else {
                CameraWait::Waiting
            },
            CameraEvent::DialFailed { peer, error } => match peer {
                Some(p) => if p@ == c {
                    CameraWait::CameraUnreachable(error@)
                } else {
                    CameraWait::Waiting
                },
                None => CameraWait::DialFailed(error@),
            },
            CameraEvent::Other => CameraWait::Waiting,
        },
    }
}

/// Which streams to open.
#[derive(Debug)]
pub struct StreamPlan {
    /// The protocol of the video stream.
    pub video: &'static str,
    /// Audio is wanted too.
    pub audio: bool,
}

/// What a reconnect takes.
#[derive(Debug)]
pub struct ReconnectPlan {
    pub enable_dcutr: bool,
    /// What to listen on.
    pub listen: Vec<Multiaddr>,
    pub params: ConnectParams,
    pub options: ConnectOptions,
}

/// What the viewer listens on: QUIC at a port of the user's choice, TCP at any.
pub open spec fn viewer_listen_list(udp_port: u16) -> Seq<Seq<Part>> {
    seq![quic_at(any_v4(), udp_port), tcp_at(any_v4(), 0)]
}

/// What the viewer listens on.
pub fn viewer_listen_addresses(udp_port: u16) -> (r: Vec<Multiaddr>)
    ensures
        addr_views(r@) == viewer_listen_list(udp_port),
{
    let any = Ipv4 { a: 0, b: 0, c: 0, d: 0 };
    let mut addrs: Vec<Multiaddr> = Vec::new();
    addrs.push(quic_addr(Protocol::Ip4(any), udp_port));
    addrs.push(tcp_addr(Protocol::Ip4(any), 0));
    assert(addr_views(addrs@) =~= viewer_listen_list(udp_port));
    addrs
}

/// The state of a viewer that has never connected.
pub open spec fn fresh(network_type: Seq<char>, no_audio: bool, udp_port: u16) -> PlayerView {
    PlayerView {
        nat_diag: NatView {
            history: seq![],
            local_port: 0,
            ips: seq![],
            forced: network_type == "4g"@,
        },
        connection_type: ConnectionType::Disconnected,
        active_connections: 0,
        direct_upgraded: false,
        last_dcutr: None,
        camera: None,
        lan_attempted: false,
        stream_type: "auto"@,
        stream_connection: ConnectionType::Disconnected,
        relay_connection: None,
        params: None,
        connected: false,
        symmetric: false,
        dcutr_fails: 0,
        local_ips: seq![],
        local_quic_port: 0,
        remote_hint: None,
        network_type,
        no_audio,
        udp_port,
        found: Map::empty(),
        relay: None,
    }
}

impl MediaPlayer {
    /// A viewer with default options.
    pub fn new() -> (r: MediaPlayer)
        ensures
            r@ == fresh("wifi"@, false, 0),
    {
        MediaPlayer::new_with_options(ConnectOptions::default())
    }

    /// A viewer that has never connected.
    pub fn new_with_options(options: ConnectOptions) -> (r: MediaPlayer)
        ensures
            r@ == fresh(options.network_type@, options.no_audio, options.udp_port),
    {
        let mut nat_diagnostic = NatDiagnostic::new(0, Vec::new());
        if str_eq(options.network_type.as_str(), "4g") {
            nat_diagnostic.set_force_4g(true);
        }
        MediaPlayer {
            nat_diagnostic,
            connection_quality: ConnectionQuality::default(),
            device_cam_peer_id: None,
            lan_direct_attempted: false,
            stream_resolver: StreamTypeResolver::new("auto"),
            relay_connection_id: None,
            connect_params: None,
            connected: false,
            symmetric_detected: false,
            dcutr_fail_count: 0,
            local_ips: Vec::new(),
            local_quic_port: 0,
            remote_nat_hint: None,
            network_type: options.network_type.clone(),
            no_audio: options.no_audio,
            udp_port: options.udp_port,
            mdns_cache: AddrBook::new(),
            connected_relay: None,
        }
    }

    /// Begins a connection with default options. `device` is a peer id or a serial
    /// number.
    pub fn connect(
        &mut self,
        relay_addrs: &Vec<String>,
        device: &str,
        enable_mdns: bool,
        serial_map: &TextMap,
        stream_type: &str,
    ) -> (r: Result<ConnectAttempt, ConnectError>)
        ensures
            match target_for(device@, serial_map@) {
                Target::Invalid => {
                    &&& final(self)@ == old(self)@
                    &&& r matches Err(ConnectError::BadSerialMapping { serial, value }) && serial@
                        == device@ && value@ == serial_map@[device@]
                },
                target => {
                    &&& final(self)@ == prepared(
                        old(self)@,
                        ParamsView {
                            relay_addrs: relay_addrs@,
                            device: device@,
                            enable_mdns,
                            stream_type: stream_type@,
                            no_audio: false,
                            serial_map: serial_map@,
                        },
                        "wifi"@,
                        0,
                    )
                    &&& is_begun(r, final(self)@, target, relay_addrs@, enable_mdns, device@)
                },
            },
    {
        self.connect_with_options(
            relay_addrs,
            device,
            enable_mdns,
            serial_map,
            stream_type,
            ConnectOptions::default(),
        )
    }

    /// Begins a connection: the relays in the result are to be dialled, all at once.
    /// `device` is a peer id or a serial number.
    pub fn connect_with_options(
        &mut self,
        relay_addrs: &Vec<String>,
        device: &str,
        enable_mdns: bool,
        serial_map: &TextMap,
        stream_type: &str,
        options: ConnectOptions,
    ) -> (r: Result<ConnectAttempt, ConnectError>)
        ensures
            match target_for(device@, serial_map@) {
                Target::Invalid => {
                    &&& final(self)@ == old(self)@
                    &&& r matches Err(ConnectError::BadSerialMapping { serial, value }) && serial@
                        == device@ && value@ == serial_map@[device@]
                },
                target => {
                    &&& final(self)@ == prepared(
                        old(self)@,
                        ParamsView {
                            relay_addrs: relay_addrs@,
                            device: device@,
                            enable_mdns,
                            stream_type: stream_type@,
                            no_audio: options.no_audio,
                            serial_map: serial_map@,
                        },
                        options.network_type@,
                        options.udp_port,
                    )
                    &&& is_begun(r, final(self)@, target, relay_addrs@, enable_mdns, device@)
                },
            },
    {
        let target = match resolve_target(device, serial_map) {
            PickedTarget::Known(p) => Some(p),
            PickedTarget::Unknown => None,
            PickedTarget::Invalid => {
                let value = match serial_map.get(device) {
                    Some(text) => text.to_owned(),
                    None => String::new(),
                };
                return Err(ConnectError::BadSerialMapping { serial: device.to_owned(), value });
            },
        };
        self.connect_params = Some(
            ConnectParams {
                relay_addrs: clone_texts(relay_addrs),
                device_cam_peer_id: device.to_owned(),
                enable_mdns,
                stream_type: stream_type.to_owned(),
                no_audio: options.no_audio,
                serial_map: serial_map.clone(),
            },
        );
        self.no_audio = options.no_audio;
        self.network_type = options.network_type;
        self.udp_port = options.udp_port;
        self.stream_resolver = StreamTypeResolver::new(stream_type);
        self.lan_direct_attempted = false;
        self.dcutr_fail_count = 0;
        let relays = match parse_addrs(relay_addrs) {
            Ok(v) => v,
            Err((index, error)) => {
                return Err(ConnectError::InvalidRelayAddress { index, error });
            },
        };
        let lan_addr = match &target {
            Some(t) => self.found_address(t, enable_mdns),
            None => None,
        };
        Ok(
            ConnectAttempt {
                target,
                relays,
                enable_mdns,
                device: device.to_owned(),
                relay: None,
                lan_addr,
                relay_errors: 0,
            },
        )
    }

    fn found_address(&self, peer: &PeerId, enable_mdns: bool) -> (r: Option<Multiaddr>)
        ensures
            opt_addr(r) == known_lan_addr(self@.found, Some(peer@), enable_mdns),
    {
        if !enable_mdns {
            return None;
        }
        match self.mdns_cache.get(peer) {
            Some(a) => Some(a.clone()),
            None => None,
        }
    }

    /// Takes in an event while a connection is in the making.
    pub fn connect_event(&mut self, attempt: &mut ConnectAttempt, event: ConnectEvent)
        requires
            event is DialFailed ==> old(attempt)@.relay_errors < usize::MAX,
        ensures
            (final(self)@, final(attempt)@) == connect_step(old(self)@, old(attempt)@, event),
    {
        match event {
            ConnectEvent::Established { peer, addr } => {
                if attempt.knows_relay(&peer) && attempt.relay.is_none() {
                    self.connected_relay = Some(peer.clone());
                    attempt.relay = Some((peer, addr));
                }
            },
            ConnectEvent::Discovered(found) => self.connect_found(attempt, &found),
            ConnectEvent::DialFailed { peer } => {
                if let Some(p) = peer {
                    if attempt.knows_relay(&p) {
                        attempt.relay_errors = attempt.relay_errors + 1;
                    }
                }
            },
            ConnectEvent::Other => {},
        }
    }

    fn connect_found(&mut self, attempt: &mut ConnectAttempt, found: &Vec<(PeerId, Multiaddr)>)
        ensures
            final(self)@ == (PlayerView {
                found: noted_all(old(self)@.found, found_views(found@)),
                ..old(self)@
            }),
            final(attempt)@ == (AttemptView {
                lan_addr: if old(attempt)@.lan_addr is Some {
                    old(attempt)@.lan_addr
                } else {
                    match old(attempt)@.target {
                        Some(t) => first_found(found_views(found@), t),
                        None => None,
                    }
                },
                ..old(attempt)@
            }),
    {
        let ghost more = found_views(found@);
        let ghost before = attempt@;
        let mut i: usize = 0;
        assert(more.take(0) =~= seq![]);
        while i < found.len()
            invariant
                i <= found@.len(),
                more == found_views(found@),
                before == old(attempt)@,
                self@ == (PlayerView {
                    found: noted_all(old(self)@.found, more.take(i as int)),
                    ..old(self)@
                }),
                attempt@ == (AttemptView {
                    lan_addr: if before.lan_addr is Some {
                        before.lan_addr
                    } else {
                        match before.target {
                            Some(t) => first_found(more.take(i as int), t),
                            None => None,
                        }
                    },
                    ..before
                }),
            decreases found@.len() - i,
        {
            proof {
                assert(more.take(i as int + 1).drop_last() =~= more.take(i as int));
                assert(more.take(i as int + 1).last() == (found@[i as int].0@, found@[i as int].1@));
            }
            note_address(&mut self.mdns_cache, &found[i].0, &found[i].1);
            let hit = match &attempt.target {
                Some(t) => t.same(&found[i].0) && attempt.lan_addr.is_none(),
                None => false,
            };
            if hit {
                attempt.lan_addr = Some(found[i].1.clone());
            }
            i += 1;
        }
        assert(more.take(more.len() as int) =~= more);
    }

    /// Settles who the camera is and which address to dial for it. `resolved` is the
    /// peer id that a relay gave for the serial number, where one was asked.
    pub fn choose_route(&mut self, attempt: &ConnectAttempt, resolved: Option<PeerId>) -> (r: Result<
        Multiaddr,
        ConnectError,
    >)
        ensures
            match camera_of(attempt@, opt_peer(resolved)) {
                None => {
                    &&& final(self)@ == old(self)@
                    &&& r matches Err(ConnectError::CameraUnknown)
                },
                Some(camera) => {
                    &&& final(self)@ == (PlayerView {
                        camera: Some(camera),
                        relay: match attempt@.relay {
                            Some((p, _)) => Some(p),
                            None => None,
                        },
                        ..old(self)@
                    })
                    &&& match route_to(old(self)@.found, attempt@, camera) {
                        Some(addr) => r matches Ok(a) && a@ == addr,
                        None => r matches Err(ConnectError::NoRoute),
                    }
                },
            },
    {
        let camera = match &attempt.target {
            Some(t) => t.clone(),
            None => match resolved {
                Some(p) => p,
                None => {
                    return Err(ConnectError::CameraUnknown);
                },
            },
        };
        self.connected_relay = match &attempt.relay {
            Some(r) => Some(r.0.clone()),
            None => None,
        };
        self.device_cam_peer_id = Some(camera.clone());
        if let Some(a) = &attempt.lan_addr {
            return Ok(a.clone());
        }
        if let Some(a) = self.found_address(&camera, attempt.enable_mdns) {
            return Ok(a);
        }
        match &attempt.relay {
            Some(r) => Ok(r.1.clone().with(Protocol::P2pCircuit).with(Protocol::P2p(camera))),
            None => Err(ConnectError::NoRoute),
        }
    }

    /// Takes in an event while the camera is dialled: nothing yet, or how it is
    /// connected.
    pub fn wait_for_connection_and_classify(&mut self, event: CameraEvent) -> (r: Result<
        Option<ConnectionType>,
        ConnectError,
    >)
        ensures
            match camera_wait(old(self)@.camera, event) {
                CameraWait::Waiting => r matches Ok(None) && final(self)@ == old(self)@,
                CameraWait::Connected(kind) => r == Ok::<Option<ConnectionType>, ConnectError>(
                    Some(kind),
                ) && final(self)@ == (PlayerView {
                    relay_connection: if kind == ConnectionType::RelayCircuit {
                        Some(event->connection_id)
                    } else {
                        old(self)@.relay_connection
                    },
                    ..old(self)@
                }),
                CameraWait::CameraUnknown => r matches Err(ConnectError::CameraUnknown) && final(self)@ == old(self)@,
                CameraWait::CameraUnreachable(e) => r matches Err(
                    ConnectError::CameraUnreachable(t),
                ) && t@ == e && final(self)@ == old(self)@,
                CameraWait::DialFailed(e) => r matches Err(ConnectError::DialFailed(t)) && t@ == e
                    && final(self)@ == old(self)@,
            },
    {
        let camera = match &self.device_cam_peer_id {
            Some(c) => c,
            None => {
                return Err(ConnectError::CameraUnknown);
            },
        };
        match event {
            CameraEvent::Established { peer, addr, connection_id } => {
                if !peer.same(camera) {
                    return Ok(None);
                }
                let kind = classify_connection(&addr);
                if kind == ConnectionType::RelayCircuit {
                    self.relay_connection_id = Some(connection_id);
                }
                Ok(Some(kind))
            },
            CameraEvent::DialFailed { peer, error } => match peer {
                Some(p) => if p.same(camera) {
                    Err(ConnectError::CameraUnreachable(error))
                } else {
                    Ok(None)
                },
                None => Err(ConnectError::DialFailed(error)),
            },
            CameraEvent::Other => Ok(None),
        }
    }

    /// Which streams to open, now that the camera is connected.
    pub fn plan_streams(&mut self, kind: ConnectionType) -> (r: StreamPlan)
        ensures
            final(self)@ == (PlayerView { stream_connection: kind, ..old(self)@ }),
            r.video@ == resolved_protocol(old(self)@.stream_type, kind),
            r.audio == !old(self)@.no_audio,
    {
        self.stream_resolver.update_connection_type(kind);
        StreamPlan { video: self.stream_resolver.resolve(), audio: !self.no_audio }
    }

    /// The video stream is open: the viewer is connected.
    pub fn mark_connected(&mut self)
        ensures
            final(self)@ == (PlayerView { connected: true, ..old(self)@ }),
    {
        self.connected = true;
    }

    /// What it takes to connect once more, as before. What relays have observed is
    /// forgotten.
    pub fn reconnect(&mut self) -> (r: Result<ReconnectPlan, ConnectError>)
        ensures
            match old(self)@.params {
                None => r matches Err(ConnectError::NothingToReconnect) && final(self)@ == old(self)@,
                Some(params) => {
                    &&& final(self)@ == (PlayerView {
                        nat_diag: NatView {
                            history: seq![],
                            local_port: 0,
                            ips: seq![],
                            forced: false,
                        },
                        ..old(self)@
                    })
                    &&& r matches Ok(plan) && {
                        &&& plan.enable_dcutr == !old(self)@.symmetric
                        &&& addr_views(plan.listen@) == viewer_listen_list(old(self)@.udp_port)
                        &&& plan.params@ == params
                        &&& plan.options.udp_port == old(self)@.udp_port
                        &&& plan.options.network_type@ == old(self)@.network_type
                        &&& plan.options.no_audio == params.no_audio
                    }
                },
            },
    {
        let params = match &self.connect_params {
            Some(p) => ConnectParams {
                relay_addrs: clone_texts(&p.relay_addrs),
                device_cam_peer_id: p.device_cam_peer_id.clone(),
                enable_mdns: p.enable_mdns,
                stream_type: p.stream_type.clone(),
                no_audio: p.no_audio,
                serial_map: p.serial_map.clone(),
            },
            None => {
                return Err(ConnectError::NothingToReconnect);
            },
        };
        self.nat_diagnostic = NatDiagnostic::new(0, Vec::new());
        let options = ConnectOptions {
            udp_port: self.udp_port,
            network_type: self.network_type.clone(),
            no_audio: params.no_audio,
        };
        Ok(
            ReconnectPlan {
                enable_dcutr: !self.symmetric_detected,
                listen: viewer_listen_addresses(self.udp_port),
                params,
                options,
            },
        )
    }

    /// Ends the connection: the peer in the result is to be disconnected.
    pub fn shutdown(&mut self) -> (r: Option<PeerId>)
        ensures
            final(self)@ == (PlayerView { connected: false, ..old(self)@ }),
            opt_peer(r) == old(self)@.camera,
    {
        self.connected = false;
        match &self.device_cam_peer_id {
            Some(p) => Some(p.clone()),
            None => None,
        }
    }
}

/// Whether a result is the begin of a connection, or the refusal of a relay's
/// address.
pub open spec fn is_begun(
    r: Result<ConnectAttempt, ConnectError>,
    v: PlayerView,
    target: Target,
    relay_texts: Seq<String>,
    enable_mdns: bool,
    device: Seq<char>,
) -> bool {
    let relays = parsed_addrs(relay_texts);
    if relays.len() == relay_texts.len() {
        r matches Ok(a) && a@ == begun(
            v,
            match target {
                Target::Known(p) => Some(p),
                _ => None,
            },
            relays,
            enable_mdns,
            device,
        )
    } else {
        r matches Err(ConnectError::InvalidRelayAddress { index, error }) && is_bad_addr(
            relay_texts,
            index as int,
            error@,
        )
    }
}

/// Whether a packet is marked as a key frame.
pub open spec fn marked_key(p: PacketView) -> bool {
    p.track == MediaTrack::Video && (p.flags & FLAG_VIDEO_KEYFRAME) != 0
}

/// The packets from the last key frame on; none, if there is no key frame.
pub open spec fn from_last_key(frames: Seq<MediaPacket>) -> Seq<MediaPacket>
    decreases frames.len(),
{
    if frames.len() == 0 {
        seq![]
    } else if marked_key(frames.last()@) {
        seq![frames.last()]
    } else {
        let before = from_last_key(frames.drop_last());
        if before.len() == 0 {
            seq![]
        } else {
            before.push(frames.last())
        }
    }
}

/// Drops what has piled up before the last key frame.
pub fn drain_to_latest_keyframe(frames: Vec<MediaPacket>) -> (r: Vec<MediaPacket>)
    ensures
        r@ == from_last_key(frames@),
{
    let ghost all = frames@;
    let mut at: usize = frames.len();
    while at > 0
        invariant
            at <= frames@.len(),
            all == frames@,
            forall|k: int| at <= k < all.len() ==> !marked_key((#[trigger] all[k])@),
        decreases at,
    {
        at -= 1;
        if frames[at].is_keyframe() {
            proof {
                lemma_last_key(all, at as int);
            }
            let mut rest = frames;
            let kept = rest.split_off(at);
            assert(kept@ =~= all.skip(at as int));
            return kept;
        }
    }
    proof {
        lemma_no_key(all);
    }
    Vec::new()
}

proof fn lemma_no_key(frames: Seq<MediaPacket>)
    requires
        forall|k: int| 0 <= k < frames.len() ==> !marked_key((#[trigger] frames[k])@),
    ensures
        from_last_key(frames) == Seq::<MediaPacket>::empty(),
    decreases frames.len(),
{
    if frames.len() > 0 {
        let front = frames.drop_last();
        assert forall|k: int| 0 <= k < front.len() implies !marked_key((#[trigger] front[k])@) by {
            assert(front[k] == frames[k]);
        }
        lemma_no_key(front);
        assert(!marked_key(frames[frames.len() - 1]@));
    }
}

proof fn lemma_last_key(frames: Seq<MediaPacket>, at: int)
    requires
        0 <= at < frames.len(),
        marked_key(frames[at]@),
        forall|k: int| at < k < frames.len() ==> !marked_key((#[trigger] frames[k])@),
    ensures
        from_last_key(frames) == frames.skip(at),
    decreases frames.len(),
{
    if at == frames.len() - 1 {
        assert(frames.skip(at) =~= seq![frames.last()]);
    } else {
        let front = frames.drop_last();
        assert forall|k: int| at < k < front.len() implies !marked_key((#[trigger] front[k])@) by {
            assert(front[k] == frames[k]);
        }
        lemma_last_key(front, at);
        assert(!marked_key(frames[frames.len() - 1]@));
        assert(frames.skip(at) =~= front.skip(at).push(frames.last()));
    }
}

/// An address on the local network is preferred to a relay, however the camera was
/// named.
pub proof fn law_lan_before_relay(
    found: Map<Seq<u8>, Seq<Part>>,
    a: AttemptView,
    camera: Seq<u8>,
)
    requires
        a.enable_mdns,
        found.contains_key(camera),
        a.lan_addr is None,
    ensures
        route_to(found, a, camera) == Some(found[camera]),
{
}

/// A route is found exactly where the camera is known on the local network or a
/// relay is connected.
pub proof fn law_route_iff(found: Map<Seq<u8>, Seq<Part>>, a: AttemptView, camera: Seq<u8>)
    ensures
        route_to(found, a, camera) is Some <==> a.lan_addr is Some || (a.enable_mdns
            && found.contains_key(camera)) || a.relay is Some,
{
}

/// The first relay that is connected is the one that is used, and only a relay that
/// the user has named is.
pub proof fn law_first_relay_is_kept(v: PlayerView, a: AttemptView, event: ConnectEvent)
    ensures
        a.relay is Some ==> connect_step(v, a, event).1.relay == a.relay,
        a.relay is None && connect_step(v, a, event).1.relay is Some ==> is_relay(
            a.relays,
            connect_step(v, a, event).1.relay->Some_0.0,
        ),
{
}

/// What is kept starts with a key frame and is the end of what there was.
pub proof fn law_drain_keeps_end(frames: Seq<MediaPacket>)
    ensures
        from_last_key(frames).len() <= frames.len(),
        from_last_key(frames) == frames.skip(frames.len() - from_last_key(frames).len()),
        from_last_key(frames).len() > 0 ==> marked_key(from_last_key(frames)[0]@),
    decreases frames.len(),
{
    if frames.len() == 0 {
        assert(frames.skip(0) =~= seq![]);
    } else if marked_key(frames.last()@) {
        assert(frames.skip(frames.len() - 1) =~= seq![frames.last()]);
    } else {
        law_drain_keeps_end(frames.drop_last());
        let before = from_last_key(frames.drop_last());
        if before.len() == 0 {
            assert(frames.skip(frames.len() as int) =~= seq![]);
        } else {
            assert(frames.skip(frames.len() - 1 - before.len()) =~= before.push(frames.last()));
        }
    }
}

/// Where a relay leads to the camera and the local network does not, the camera is
/// dialled behind the relay: the route is the relay's address, unchanged, then the mark
/// of a circuit, then the camera, and nothing else.
pub proof fn law_relayed_route_ends_at_camera(
    found: Map<Seq<u8>, Seq<Part>>,
    a: AttemptView,
    camera: Seq<u8>,
)
    requires
        a.lan_addr is None,
        !a.enable_mdns || !found.contains_key(camera),
        a.relay is Some,
    ensures
        ({
            let relay_addr = a.relay->Some_0.1;
            let n = relay_addr.len() as int;
            route_to(found, a, camera) matches Some(route) && route.len() == n + 2 && route.take(n)
                == relay_addr && route[n] == Part::P2pCircuit && route[n + 1] == Part::P2p(camera)
        }),
{
    let relay_addr = a.relay->Some_0.1;
    let n = relay_addr.len() as int;
    assert(route_to(found, a, camera)->0.take(n) =~= relay_addr);
}

/// The address at which the camera was found while connecting is dialled as it is,
/// whatever relay is connected and whatever else is known.
pub proof fn law_found_camera_is_dialled(
    found: Map<Seq<u8>, Seq<Part>>,
    a: AttemptView,
    camera: Seq<u8>,
    addr: Seq<Part>,
)
    requires
        a.lan_addr == Some(addr),
    ensures
        route_to(found, a, camera) == Some(addr),
{
}

/// With the local network switched off, what was found there does not matter.
pub proof fn law_no_lan_without_mdns(
    found: Map<Seq<u8>, Seq<Part>>,
    other: Map<Seq<u8>, Seq<Part>>,
    a: AttemptView,
    camera: Seq<u8>,
)
    requires
        !a.enable_mdns,
    ensures
        route_to(found, a, camera) == route_to(other, a, camera),
{
}

/// A camera that the user has named by its peer id stays the camera, whatever a relay
/// says; for a serial number it is the peer that the relay gives.
pub proof fn law_named_camera_is_dialled(a: AttemptView, resolved: Option<Seq<u8>>)
    ensures
        a.target is Some ==> camera_of(a, resolved) == a.target,
        a.target is None ==> camera_of(a, resolved) == resolved,
{
}

/// Which peer the input stands for: the one that it spells, else the one that the map
/// of serial numbers spells for it. An entry that spells none is an error, and so never
/// taken for an unknown serial number.
pub proof fn law_input_resolves(device: Seq<char>, serial_map: Map<Seq<char>, Seq<char>>)
    ensures
        target_for(device, serial_map) is Invalid <==> peer_of_text(device) is None
            && serial_map.contains_key(device) && peer_of_text(serial_map[device]) is None,
        target_for(device, serial_map) is Unknown <==> peer_of_text(device) is None
            && !serial_map.contains_key(device),
        target_for(device, serial_map) matches Target::Known(p) ==> Some(p) == if peer_of_text(
            device,
        ) is Some {
            peer_of_text(device)
        } else {
            peer_of_text(serial_map[device])
        },
{
}

/// The relays are read in the order in which they were given, up to the first that is no
/// address.
pub proof fn law_relays_read_in_order(texts: Seq<String>)
    ensures
        parsed_addrs(texts).len() <= texts.len(),
        forall|i: int|
            0 <= i < parsed_addrs(texts).len() ==> addr_of_text(texts[i]@) == Ok::<
                Seq<Part>,
                Seq<char>,
            >(#[trigger] parsed_addrs(texts)[i]),
        parsed_addrs(texts).len() < texts.len() ==> addr_of_text(
            texts[parsed_addrs(texts).len() as int]@,
        ) is Err,
    decreases texts.len(),
{
    if texts.len() > 0 && addr_of_text(texts[0]@) is Ok {
        let rest = texts.skip(1);
        law_relays_read_in_order(rest);
        let all = parsed_addrs(texts);
        assert forall|i: int| 0 <= i < all.len() implies addr_of_text(texts[i]@) == Ok::<
            Seq<Part>,
            Seq<char>,
        >(#[trigger] all[i]) by {
            if i > 0 {
                assert(all[i] == parsed_addrs(rest)[i - 1]);
                assert(rest[i - 1] == texts[i]);
            }
        }
        if all.len() < texts.len() {
            assert(rest[parsed_addrs(rest).len() as int] == texts[all.len() as int]);
        }
    }
}

/// The search for the camera ends at once where it is found on the local network. A
/// relay ends it only when the time for the local network has passed or is not granted,
/// and so does the failure of as many dials as there are relays.
pub proof fn law_search_ends(a: AttemptView, deadline_passed: bool)
    ensures
        a.lan_addr is Some ==> search_over(a, deadline_passed),
        a.lan_addr is None && a.enable_mdns && !deadline_passed ==> !search_over(
            a,
            deadline_passed,
        ),
        a.lan_addr is None && (!a.enable_mdns || deadline_passed) && a.relay is Some ==> search_over(
            a,
            deadline_passed,
        ),
        a.lan_addr is None && (!a.enable_mdns || deadline_passed) && a.relay is None ==> (
        search_over(a, deadline_passed) <==> a.relay_errors >= a.relays.len()),
{
}

/// When a connection begins nothing of an earlier one is left over: no relay is
/// connected and none has failed. The camera's address on the local network is taken
/// from what was found before, where that is to be used.
pub proof fn law_attempt_begins_afresh(
    v: PlayerView,
    target: Option<Seq<u8>>,
    relays: Seq<Seq<Part>>,
    enable_mdns: bool,
    device: Seq<char>,
)
    ensures
        ({
            let a = begun(v, target, relays, enable_mdns, device);
            &&& a.relay is None
            &&& a.relay_errors == 0
            &&& a.target == target
            &&& a.relays == relays
            &&& a.enable_mdns == enable_mdns
            &&& a.device == device
            &&& a.lan_addr is Some <==> enable_mdns && (target matches Some(t)
                && v.found.contains_key(t))
            &&& a.lan_addr is Some ==> a.lan_addr == Some(v.found[target->0])
        }),
{
}

/// A new connection remembers what was asked for and forgets how the last one fared;
/// what is known of the network, of the camera and of the peers nearby is kept.
pub proof fn law_connect_prepares(
    v: PlayerView,
    params: ParamsView,
    network_type: Seq<char>,
    udp_port: u16,
)
    ensures
        ({
            let now = prepared(v, params, network_type, udp_port);
            &&& now.params == Some(params)
            &&& now.stream_type == params.stream_type
            &&& now.no_audio == params.no_audio
            &&& now.network_type == network_type
            &&& now.udp_port == udp_port
            &&& now.stream_connection == ConnectionType::Disconnected
            &&& !now.lan_attempted
            &&& now.dcutr_fails == 0
            &&& now.symmetric == v.symmetric
            &&& now.found == v.found
            &&& now.nat_diag == v.nat_diag
            &&& now.local_ips == v.local_ips
            &&& now.local_quic_port == v.local_quic_port
            &&& now.camera == v.camera
            &&& now.relay == v.relay
            &&& now.relay_connection == v.relay_connection
            &&& now.connected == v.connected
            &&& now.connection_type == v.connection_type
            &&& now.active_connections == v.active_connections
            &&& now.direct_upgraded == v.direct_upgraded
            &&& now.last_dcutr == v.last_dcutr
            &&& now.remote_hint == v.remote_hint
        }),
{
}

/// The first connection to a peer that one of the relays' addresses names makes it the
/// relay, with the address at which it was reached. No other connection changes
/// anything.
pub proof fn law_relay_connects(v: PlayerView, a: AttemptView, peer: PeerId, addr: Multiaddr)
    ensures
        ({
            let named = exists|i: int|
                0 <= i < a.relays.len() && (#[trigger] a.relays[i]).contains(Part::P2p(peer@));
            let (w, b) = connect_step(v, a, ConnectEvent::Established { peer, addr });
            &&& named && a.relay is None ==> b.relay == Some((peer@, addr@)) && w.relay == Some(
                peer@,
            )
            &&& !named || a.relay is Some ==> b.relay == a.relay && w.relay == v.relay
            &&& b == (AttemptView { relay: b.relay, ..a })
            &&& w == (PlayerView { relay: w.relay, ..v })
        }),
{
    let named = exists|i: int|
        0 <= i < a.relays.len() && (#[trigger] a.relays[i]).contains(Part::P2p(peer@));
    if is_relay(a.relays, peer@) {
        let i = choose|i: int|
            0 <= i < a.relays.len() && has_part(#[trigger] a.relays[i], Part::P2p(peer@));
        law_parts_of_an_address(a.relays[i], Part::P2p(peer@));
        assert(named);
    }
    if named {
        let i = choose|i: int|
            0 <= i < a.relays.len() && (#[trigger] a.relays[i]).contains(Part::P2p(peer@));
        law_parts_of_an_address(a.relays[i], Part::P2p(peer@));
        assert(is_relay(a.relays, peer@));
    }
}

/// Only a failed dial to one of the relays counts, and each counts once.
pub proof fn law_relay_failures_count(v: PlayerView, a: AttemptView, peer: Option<PeerId>)
    requires
        a.relay_errors < usize::MAX,
    ensures
        ({
            let named = peer matches Some(p) && exists|i: int|
                0 <= i < a.relays.len() && (#[trigger] a.relays[i]).contains(Part::P2p(p@));
            let (w, b) = connect_step(v, a, ConnectEvent::DialFailed { peer });
            &&& w == v
            &&& b == (AttemptView { relay_errors: b.relay_errors, ..a })
            &&& b.relay_errors == a.relay_errors + if named {
                1int
            } else {
                0
            }
        }),
{
    if let Some(p) = peer {
        let named = exists|i: int|
            0 <= i < a.relays.len() && (#[trigger] a.relays[i]).contains(Part::P2p(p@));
        if is_relay(a.relays, p@) {
            let i = choose|i: int|
                0 <= i < a.relays.len() && has_part(#[trigger] a.relays[i], Part::P2p(p@));
            law_parts_of_an_address(a.relays[i], Part::P2p(p@));
            assert(named);
        }
        if named {
            let i = choose|i: int|
                0 <= i < a.relays.len() && (#[trigger] a.relays[i]).contains(Part::P2p(p@));
            law_parts_of_an_address(a.relays[i], Part::P2p(p@));
            assert(is_relay(a.relays, p@));
        }
    }
}

/// The first of the peers found nearby that is the camera gives its address on the local
/// network; an address that was found before is kept. Where the camera is named by a
/// serial number it is not recognised yet. All peers are noted either way.
pub proof fn law_camera_is_found_nearby(
    v: PlayerView,
    a: AttemptView,
    found: Vec<(PeerId, Multiaddr)>,
    i: int,
)
    requires
        0 <= i <= found@.len(),
        a.target matches Some(t) ==> forall|k: int|
            0 <= k < i ==> (#[trigger] found@[k]).0@ != t,
        a.target matches Some(t) ==> i < found@.len() ==> found@[i].0@ == t,
    ensures
        ({
            let (w, b) = connect_step(v, a, ConnectEvent::Discovered(found));
            &&& b == (AttemptView { lan_addr: b.lan_addr, ..a })
            &&& a.lan_addr is Some ==> b.lan_addr == a.lan_addr
            &&& a.lan_addr is None && a.target is None ==> b.lan_addr is None
            &&& a.lan_addr is None && a.target is Some ==> b.lan_addr == if i < found@.len() {
                Some(found@[i].1@)
            } else {
                None
            }
            &&& w == (PlayerView { found: w.found, ..v })
            &&& w.found == player_step(v, NetworkEvent::MdnsDiscovered(found)).state.found
        }),
{
    if let Some(t) = a.target {
        let views = found_views(found@);
        assert forall|k: int| 0 <= k < i implies (#[trigger] views[k]).0 != t by {
            assert(views[k].0 == found@[k].0@);
        }
        lemma_first_found(views, t, i);
    }
}

proof fn lemma_first_found(found: Seq<(Seq<u8>, Seq<Part>)>, peer: Seq<u8>, i: int)
    requires
        0 <= i <= found.len(),
        forall|k: int| 0 <= k < i ==> (#[trigger] found[k]).0 != peer,
        i < found.len() ==> found[i].0 == peer,
    ensures
        first_found(found, peer) == if i < found.len() {
            Some(found[i].1)
        } else {
            None
        },
    decreases found.len(),
{
    if found.len() > 0 {
        let front = found.drop_last();
        let j = if i < front.len() {
            i
        } else {
            front.len() as int
        };
        assert forall|k: int| 0 <= k < j implies (#[trigger] front[k]).0 != peer by {
            assert(front[k] == found[k]);
        }
        lemma_first_found(front, peer, j);
        if i == found.len() {
            assert(found[found.len() - 1].0 != peer);
        }
    }
}

/// While the camera is dialled, a connection to it tells how it is connected, and only
/// a failed dial to it or to nobody in particular ends the wait. What happens with other
/// peers does not matter.
pub proof fn law_wait_for_camera(camera: Seq<u8>, event: CameraEvent)
    ensures
        camera_wait(None, event) is CameraUnknown,
        camera_wait(Some(camera), event) is Connected <==> (event matches CameraEvent::Established {
            peer,
            ..
        } && peer@ == camera),
        event matches CameraEvent::Established { peer, addr, .. } ==> peer@ == camera
            ==> camera_wait(Some(camera), event) == CameraWait::Connected(connection_of(addr@)),
        camera_wait(Some(camera), event) is CameraUnreachable <==> (event
            matches CameraEvent::DialFailed { peer: Some(peer), .. } && peer@ == camera),
        camera_wait(Some(camera), event) is DialFailed <==> (event
            matches CameraEvent::DialFailed { peer: None, .. }),
        event matches CameraEvent::DialFailed { error, .. } ==> match camera_wait(
            Some(camera),
            event,
        ) {
            CameraWait::CameraUnreachable(e) => e == error@,
            CameraWait::DialFailed(e) => e == error@,
            other => other is Waiting,
        },
        !(camera_wait(Some(camera), event) is CameraUnknown),
{
}

/// The viewer listens on all addresses of IPv4: with QUIC on the port of the user's
/// choice, with TCP on any.
pub proof fn law_viewer_listens(udp_port: u16)
    ensures
        viewer_listen_list(udp_port).len() == 2,
        viewer_listen_list(udp_port)[0] == seq![
            Part::Ip4(Ipv4 { a: 0, b: 0, c: 0, d: 0 }),
            Part::Udp(udp_port),
            Part::QuicV1,
        ],
        viewer_listen_list(udp_port)[1] == seq![
            Part::Ip4(Ipv4 { a: 0, b: 0, c: 0, d: 0 }),
            Part::Tcp(0),
        ],
{
}

/// A viewer that has never connected knows of no camera, no relay and no peer nearby,
/// has nothing to reconnect to, leaves the stream to the connection, and may punch
/// holes. Only `4g` makes its network a mobile one.
pub proof fn law_fresh_viewer(network_type: Seq<char>, no_audio: bool, udp_port: u16)
    ensures
        ({
            let v = fresh(network_type, no_audio, udp_port);
            &&& v.camera is None && v.relay is None && v.relay_connection is None
            &&& v.found == Map::<Seq<u8>, Seq<Part>>::empty()
            &&& v.params is None && !v.connected
            &&& v.stream_type == "auto"@
            &&& v.stream_connection == ConnectionType::Disconnected
            &&& v.connection_type == ConnectionType::Disconnected
            &&& v.active_connections == 0 && !v.direct_upgraded
            &&& !v.symmetric && v.dcutr_fails == 0 && v.last_dcutr is None && !v.lan_attempted
            &&& v.local_ips.len() == 0 && v.local_quic_port == 0 && v.remote_hint is None
            &&& v.nat_diag.history.len() == 0 && v.nat_diag.ips.len() == 0
            &&& v.nat_diag.local_port == 0
            &&& v.nat_diag.forced <==> network_type == "4g"@
            &&& v.network_type == network_type && v.no_audio == no_audio && v.udp_port == udp_port
        }),
{
}

/// What is kept starts with the last key frame that there was: none follows it, and
/// nothing is kept only where there was none.
pub proof fn law_drain_starts_at_last_key(frames: Seq<MediaPacket>, k: int)
    requires
        0 <= k < frames.len(),
        frames[k]@.track == MediaTrack::Video,
        (frames[k]@.flags & FLAG_VIDEO_KEYFRAME) != 0,
        forall|i: int|
            k < i < frames.len() ==> !((#[trigger] frames[i])@.track == MediaTrack::Video && (
            frames[i]@.flags & FLAG_VIDEO_KEYFRAME) != 0),
    ensures
        from_last_key(frames) == frames.skip(k),
{
    lemma_last_key(frames, k);
}

/// Without a key frame nothing is kept.
pub proof fn law_drain_without_key(frames: Seq<MediaPacket>)
    requires
        forall|i: int|
            0 <= i < frames.len() ==> !((#[trigger] frames[i])@.track == MediaTrack::Video && (
            frames[i]@.flags & FLAG_VIDEO_KEYFRAME) != 0),
    ensures
        from_last_key(frames).len() == 0,
{
    lemma_no_key(frames);
}

} // verus!
