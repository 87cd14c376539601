//! The viewer's state, and how events of the network change it.

use vstd::prelude::*;

use super::net_diag::{ConnectionQuality, ConnectionType, NatDiagnosis, NatDiagnostic, NatType, NatView};
use super::stream_select::{upgrade_due, StreamTypeResolver};
use crate::net::addr::{
    addr_views, first_udp, has_part, has_private_ip4, law_parts_of_an_address, Ipv4, Multiaddr,
    Part, PeerId,
};
use crate::net::addr_book::AddrBook;
use crate::net::identity::{peer_text, text_of_peer};
use crate::net::lan::{add_ip, clone_ips, lan_addresses, lan_list, punchable_address, punchable_ip, with_ip};
use crate::net::nat_diag::{finding, reports};
use crate::proto::stream_protocols::VIDEO_MAIN_PROTOCOL;
use crate::text::{clone_text, str_eq};
use crate::text_map::TextMap;

verus! {

broadcast use vstd::string::group_string_axioms;

/// How long to look for the camera on the local network, in seconds.
pub const MDNS_DISCOVERY_TIMEOUT_SECS: u64 = 5;

/// How long to wait before a reconnect, in seconds.
pub const RECONNECT_DELAY_SECS: u64 = 3;

/// After so many failed hole punches the user is told to do without.
pub const DCUTR_BACKOFF_FAILS: u32 = 2;

/// What the viewer tells the layer above it.
#[derive(Debug, Clone)]
pub enum MediaPlayerEvent {
    /// The connection is gone.
    Disconnected { reason: String },
    /// The camera is connected directly now.
    DirectUpgraded { via_lan: bool },
    /// A stream has ended; the connection may still be there.
    StreamEOF { reason: String },
    /// What is known of the NATs.
    NatDiagnosis { local_nat: NatType, remote_nat: Option<String> },
    /// Hole punching fails again and again.
    DcutrBackoff,
}

/// An event with sequences for texts.
pub enum PlayerEventView {
    Disconnected { reason: Seq<char> },
    DirectUpgraded { via_lan: bool },
    StreamEOF { reason: Seq<char> },
    NatDiagnosis { local_nat: NatType, remote_nat: Option<Seq<char>> },
    DcutrBackoff,
}

/// The view of an optional text.
pub open spec fn opt_text(s: Option<String>) -> Option<Seq<char>> {
    match s {
        Some(t) => Some(t@),
        None => None,
    }
}

/// The view of an optional peer.
pub open spec fn opt_peer(p: Option<PeerId>) -> Option<Seq<u8>> {
    match p {
        Some(q) => Some(q@),
        None => None,
    }
}

impl View for MediaPlayerEvent {
    type V = PlayerEventView;

    open spec fn view(&self) -> PlayerEventView {
        match self {
            MediaPlayerEvent::Disconnected { reason } => PlayerEventView::Disconnected {
                reason: reason@,
            },
            MediaPlayerEvent::DirectUpgraded { via_lan } => PlayerEventView::DirectUpgraded {
                via_lan: *via_lan,
            },
            MediaPlayerEvent::StreamEOF { reason } => PlayerEventView::StreamEOF {
                reason: reason@,
            },
            MediaPlayerEvent::NatDiagnosis { local_nat, remote_nat } => {
                PlayerEventView::NatDiagnosis {
                    local_nat: *local_nat,
                    remote_nat: opt_text(*remote_nat),
                }
            },
            MediaPlayerEvent::DcutrBackoff => PlayerEventView::DcutrBackoff,
        }
    }
}

/// Options of a connection.
#[derive(Debug, Clone)]
pub struct ConnectOptions {
    /// The local QUIC port, 0 for any.
    pub udp_port: u16,
    /// `wifi` or `4g`.
    pub network_type: String,
    pub no_audio: bool,
}

impl Default for ConnectOptions {
    fn default() -> (r: ConnectOptions)
        ensures
            r.udp_port == 0,
            r.network_type@ == "wifi"@,
            !r.no_audio,
    {
        ConnectOptions { udp_port: 0, network_type: "wifi".to_owned(), no_audio: false }
    }
}

/// What a connection was asked for, to ask for it again.
#[derive(Debug, Clone)]
pub struct ConnectParams {
    pub relay_addrs: Vec<String>,
    /// A peer id or a serial number.
    pub device_cam_peer_id: String,
    pub enable_mdns: bool,
    pub stream_type: String,
    pub no_audio: bool,
    pub serial_map: TextMap,
}

/// The same with sequences and maps.
pub struct ParamsView {
    pub relay_addrs: Seq<String>,
    pub device: Seq<char>,
    pub enable_mdns: bool,
    pub stream_type: Seq<char>,
    pub no_audio: bool,
    pub serial_map: Map<Seq<char>, Seq<char>>,
}

impl View for ConnectParams {
    type V = ParamsView;

    open spec fn view(&self) -> ParamsView {
        ParamsView {
            relay_addrs: self.relay_addrs@,
            device: self.device_cam_peer_id@,
            enable_mdns: self.enable_mdns,
            stream_type: self.stream_type@,
            no_audio: self.no_audio,
            serial_map: self.serial_map@,
        }
    }
}

/// The state of the viewer.
pub struct MediaPlayer {
    pub nat_diagnostic: NatDiagnostic,
    pub connection_quality: ConnectionQuality,
    pub device_cam_peer_id: Option<PeerId>,
    pub lan_direct_attempted: bool,
    pub stream_resolver: StreamTypeResolver,
    /// The connection through a relay, to close after an upgrade.
    pub relay_connection_id: Option<u64>,
    pub connect_params: Option<ConnectParams>,
    pub connected: bool,
    /// Hole punching is of no use; a reconnect does without.
    pub symmetric_detected: bool,
    pub dcutr_fail_count: u32,
    pub local_ips: Vec<Ipv4>,
    pub local_quic_port: u16,
    pub remote_nat_hint: Option<String>,
    pub network_type: String,
    pub no_audio: bool,
    pub udp_port: u16,
    /// Addresses found on the local network.
    pub mdns_cache: AddrBook,
    pub connected_relay: Option<PeerId>,
}

/// The state of the viewer with sequences and maps.
pub struct PlayerView {
    pub nat_diag: NatView,
    pub connection_type: ConnectionType,
    pub active_connections: usize,
    pub direct_upgraded: bool,
    pub last_dcutr: Option<Result<(), Seq<char>>>,
    pub camera: Option<Seq<u8>>,
    pub lan_attempted: bool,
    pub stream_type: Seq<char>,
    pub stream_connection: ConnectionType,
    pub relay_connection: Option<u64>,
    pub params: Option<ParamsView>,
    pub connected: bool,
    pub symmetric: bool,
    pub dcutr_fails: u32,
    pub local_ips: Seq<Ipv4>,
    pub local_quic_port: u16,
    pub remote_hint: Option<Seq<char>>,
    pub network_type: Seq<char>,
    pub no_audio: bool,
    pub udp_port: u16,
    pub found: Map<Seq<u8>, Seq<Part>>,
    pub relay: Option<Seq<u8>>,
}

impl View for MediaPlayer {
    type V = PlayerView;

    open spec fn view(&self) -> PlayerView {
        PlayerView {
            nat_diag: self.nat_diagnostic.view(),
            connection_type: self.connection_quality.connection_type,
            active_connections: self.connection_quality.active_connections,
            direct_upgraded: self.connection_quality.direct_upgraded,
            last_dcutr: match self.connection_quality.last_dcutr_result {
                Some(Ok(_)) => Some(Ok(())),
                Some(Err(e)) => Some(Err(e@)),
                None => None,
            },
            camera: opt_peer(self.device_cam_peer_id),
            lan_attempted: self.lan_direct_attempted,
            stream_type: self.stream_resolver.stream_type@,
            stream_connection: self.stream_resolver.connection_type,
            relay_connection: self.relay_connection_id,
            params: match self.connect_params {
                Some(p) => Some(p@),
                None => None,
            },
            connected: self.connected,
            symmetric: self.symmetric_detected,
            dcutr_fails: self.dcutr_fail_count,
            local_ips: self.local_ips@,
            local_quic_port: self.local_quic_port,
            remote_hint: opt_text(self.remote_nat_hint),
            network_type: self.network_type@,
            no_audio: self.no_audio,
            udp_port: self.udp_port,
            found: self.mdns_cache@,
            relay: opt_peer(self.connected_relay),
        }
    }
}

/// An event of the network.
#[derive(Debug)]
pub enum NetworkEvent {
    /// Peers were found on the local network.
    MdnsDiscovered(Vec<(PeerId, Multiaddr)>),
    /// Addresses on the local network have expired.
    MdnsExpired,
    /// A hole was punched.
    DcutrSucceeded,
    /// Punching a hole failed.
    DcutrFailed { error: String },
    /// A peer has told of itself and of how it sees the viewer.
    Identified { peer: PeerId, observed: Multiaddr, listen: Vec<Multiaddr> },
    /// A connection to a peer at an address.
    ConnectionEstablished { peer: PeerId, addr: Multiaddr, connection_id: u64 },
    /// A connection is gone and so many to the peer remain.
    ConnectionClosed { peer: PeerId, remaining: u32 },
    /// The viewer listens on an address.
    NewListenAddr(Multiaddr),
    /// Anything else.
    Other,
}

/// What the viewer has to do after an event.
#[derive(Debug)]
pub enum PlayerAction {
    /// Tell the layer above.
    Notify(MediaPlayerEvent),
    /// Dial an address.
    Dial(Multiaddr),
    /// Tell peers of an address.
    AddExternalAddress(Multiaddr),
    /// Open a video stream; if that works out, it takes the place of the one
    /// there is and [`MediaPlayer::stream_upgraded`] says what comes next.
    UpgradeVideo { peer: PeerId, protocol: &'static str },
    /// Close a connection.
    CloseConnection(u64),
    /// Open an audio stream in place of the one there is.
    UpgradeAudio(PeerId),
    /// Open a control stream in place of the one there is.
    UpgradeControl(PeerId),
}

/// An action with sequences.
pub enum ActionView {
    Notify(PlayerEventView),
    Dial(Seq<Part>),
    AddExternalAddress(Seq<Part>),
    UpgradeVideo { peer: Seq<u8>, protocol: Seq<char> },
    CloseConnection(u64),
    UpgradeAudio(Seq<u8>),
    UpgradeControl(Seq<u8>),
}

impl View for PlayerAction {
    type V = ActionView;

    open spec fn view(&self) -> ActionView {
        match self {
            PlayerAction::Notify(e) => ActionView::Notify(e@),
            PlayerAction::Dial(a) => ActionView::Dial(a@),
            PlayerAction::AddExternalAddress(a) => ActionView::AddExternalAddress(a@),
            PlayerAction::UpgradeVideo { peer, protocol } => ActionView::UpgradeVideo {
                peer: peer@,
                protocol: protocol@,
            },
            PlayerAction::CloseConnection(id) => ActionView::CloseConnection(*id),
            PlayerAction::UpgradeAudio(peer) => ActionView::UpgradeAudio(peer@),
            PlayerAction::UpgradeControl(peer) => ActionView::UpgradeControl(peer@),
        }
    }
}

/// The views of actions.
pub open spec fn action_views(actions: Seq<PlayerAction>) -> Seq<ActionView> {
    actions.map_values(|a: PlayerAction| a@)
}

/// The views of what was found on the local network.
pub open spec fn found_views(found: Seq<(PeerId, Multiaddr)>) -> Seq<(Seq<u8>, Seq<Part>)> {
    found.map_values(|f: (PeerId, Multiaddr)| (f.0@, f.1@))
}

/// The addresses on the local network after one more was found. Addresses through a
/// relay do not count, and QUIC is not given up for anything else.
pub open spec fn noted(
    found: Map<Seq<u8>, Seq<Part>>,
    peer: Seq<u8>,
    addr: Seq<Part>,
) -> Map<Seq<u8>, Seq<Part>> {
    if has_part(addr, Part::P2pCircuit) || (found.contains_key(peer) && has_part(
        found[peer],
        Part::QuicV1,
    ) && !has_part(addr, Part::QuicV1)) {
        found
    } else {
        found.insert(peer, addr)
    }
}

/// The addresses on the local network after these were found, in order.
pub open spec fn noted_all(
    found: Map<Seq<u8>, Seq<Part>>,
    more: Seq<(Seq<u8>, Seq<Part>)>,
) -> Map<Seq<u8>, Seq<Part>>
    decreases more.len(),
{
    if more.len() == 0 {
        found
    } else {
        noted(noted_all(found, more.drop_last()), more.last().0, more.last().1)
    }
}

/// Notes an address on the local network.
pub fn note_address(book: &mut AddrBook, peer: &PeerId, addr: &Multiaddr)
    ensures
        final(book)@ == noted(old(book)@, peer@, addr@),
{
    if addr.has_circuit() {
        return ;
    }
    let keep = match book.get(peer) {
        Some(known) => known.has_quic() && !addr.has_quic(),
        None => false,
    };
    if !keep {
        book.insert(peer, addr);
    }
}

/// The first UDP port among the QUIC addresses of a list.
pub open spec fn quic_listen_port(listen: Seq<Seq<Part>>) -> Option<u16>
    decreases listen.len(),
{
    if listen.len() == 0 {
        None
    } else if has_part(listen[0], Part::QuicV1) && first_udp(listen[0]) is Some {
        first_udp(listen[0])
    } else {
        quic_listen_port(listen.skip(1))
    }
}

fn find_quic_listen_port(listen: &Vec<Multiaddr>) -> (r: Option<u16>)
    ensures
        r == quic_listen_port(addr_views(listen@)),
{
    let ghost views = addr_views(listen@);
    let mut i: usize = 0;
    assert(views.skip(0) =~= views);
    while i < listen.len()
        invariant
            i <= listen@.len(),
            views == addr_views(listen@),
            quic_listen_port(views) == quic_listen_port(views.skip(i as int)),
        decreases listen@.len() - i,
    {
        assert(views.skip(i as int)[0] == listen@[i as int]@);
        assert(views.skip(i as int).skip(1) =~= views.skip(i + 1));
        if listen[i].has_quic() {
            if let Some(port) = listen[i].first_udp() {
                return Some(port);
            }
        }
        i += 1;
    }
    None
}

/// A guess at the camera's NAT: the port at which it is seen is the one on which it
/// listens, or it is not. Without both ports the guess stays as it was.
pub open spec fn guessed_nat(
    hint: Option<Seq<char>>,
    observed: Seq<Part>,
    listen: Seq<Seq<Part>>,
) -> Option<Seq<char>> {
    match (first_udp(observed), quic_listen_port(listen)) {
        (Some(seen), Some(port)) => if seen == port {
            Some("Cone"@)
        } else {
            Some("Symmetric?"@)
        },
        _ => hint,
    }
}

/// How a peer at an address is connected.
pub open spec fn connection_of(addr: Seq<Part>) -> ConnectionType {
    if has_part(addr, Part::P2pCircuit) {
        ConnectionType::RelayCircuit
    } else if has_part(addr, Part::QuicV1) {
        if has_private_ip4(addr) {
            ConnectionType::LanDirect
        } else {
            ConnectionType::QuicDirect
        }
    } else {
        ConnectionType::TcpDirect
    }
}

/// How a peer at an address is connected.
pub fn classify_connection(addr: &Multiaddr) -> (r: ConnectionType)
    ensures
        r == connection_of(addr@),
{
    if addr.has_circuit() {
        ConnectionType::RelayCircuit
    } else if addr.has_quic() {
        if addr.has_private_ip4() {
            ConnectionType::LanDirect
        } else {
            ConnectionType::QuicDirect
        }
    } else {
        ConnectionType::TcpDirect
    }
}

/// A new state and what to do.
pub struct PlayerStep {
    pub state: PlayerView,
    pub actions: Seq<ActionView>,
}

/// After a hole was punched.
pub open spec fn after_dcutr_success(v: PlayerView) -> PlayerView {
    PlayerView {
        direct_upgraded: true,
        connection_type: ConnectionType::QuicDirect,
        last_dcutr: Some(Ok(())),
        ..v
    }
}

/// After punching a hole failed.
pub open spec fn after_dcutr_failure(v: PlayerView, error: Seq<char>) -> PlayerStep {
    let fails = (v.dcutr_fails + 1) as u32;
    PlayerStep {
        state: PlayerView { last_dcutr: Some(Err(error)), dcutr_fails: fails, ..v },
        actions: if fails >= DCUTR_BACKOFF_FAILS {
            seq![ActionView::Notify(PlayerEventView::DcutrBackoff)]
        } else {
            seq![]
        },
    }
}

/// After a peer has told of itself and of how it sees the viewer. The camera is
/// dialled on the local network, once, if it can be reached there.
pub open spec fn after_identified(
    v: PlayerView,
    peer: Seq<u8>,
    observed: Seq<Part>,
    listen: Seq<Seq<Part>>,
) -> PlayerStep {
    let nat_diag = NatView { history: v.nat_diag.history.push(observed), ..v.nat_diag };
    let local = finding(nat_diag.history, nat_diag.local_port, false).nat_type;
    let seen = PlayerView { nat_diag, symmetric: v.symmetric || local == NatType::Symmetric, ..v };
    let note = ActionView::Notify(
        PlayerEventView::NatDiagnosis { local_nat: local, remote_nat: v.remote_hint },
    );
    if v.camera != Some(peer) {
        PlayerStep { state: seen, actions: seq![note] }
    } else {
        let guessed = PlayerView {
            remote_hint: guessed_nat(v.remote_hint, observed, listen),
            ..seen
        };
        let lan = lan_list(listen, v.nat_diag.ips, true);
        if v.direct_upgraded || v.lan_attempted || lan.len() == 0 {
            PlayerStep { state: guessed, actions: seq![note] }
        } else {
            PlayerStep {
                state: PlayerView { lan_attempted: true, ..guessed },
                actions: seq![note, ActionView::Dial(lan[0])],
            }
        }
    }
}

/// The state with a connection to a peer at an address.
pub open spec fn with_connection(v: PlayerView, addr: Seq<Part>, connection_id: u64) -> PlayerView {
    let counted = PlayerView {
        active_connections: (v.active_connections + 1) as usize,
        ..v
    };
    let kind = connection_of(addr);
    if kind == ConnectionType::TcpDirect {
        counted
    } else {
        PlayerView {
            connection_type: kind,
            stream_connection: kind,
            relay_connection: if kind == ConnectionType::RelayCircuit {
                Some(connection_id)
            } else {
                v.relay_connection
            },
            direct_upgraded: v.direct_upgraded || kind == ConnectionType::LanDirect,
            ..counted
        }
    }
}

/// After a connection was established. When the camera was connected through a relay
/// and now is directly, the main stream is opened.
pub open spec fn after_established(
    v: PlayerView,
    peer: Seq<u8>,
    addr: Seq<Part>,
    connection_id: u64,
) -> PlayerStep {
    let now = with_connection(v, addr, connection_id);
    PlayerStep {
        state: now,
        actions: if v.camera == Some(peer) && upgrade_due(
            v.stream_type,
            v.stream_connection,
            now.stream_connection,
        ) {
            seq![ActionView::UpgradeVideo { peer, protocol: VIDEO_MAIN_PROTOCOL@ }]
        } else {
            seq![]
        },
    }
}

/// After the main stream was opened on a direct connection: the connection through
/// the relay is closed, and audio and control follow.
pub open spec fn after_upgrade(v: PlayerView, peer: Seq<u8>) -> PlayerStep {
    let note = seq![
        ActionView::Notify(
            PlayerEventView::DirectUpgraded {
                via_lan: v.connection_type == ConnectionType::LanDirect,
            },
        ),
    ];
    let close = match v.relay_connection {
        Some(id) => seq![ActionView::CloseConnection(id)],
        None => seq![],
    };
    let audio = if v.no_audio {
        seq![]
    } else {
        seq![ActionView::UpgradeAudio(peer)]
    };
    PlayerStep {
        state: PlayerView { relay_connection: None, ..v },
        actions: note + close + audio + seq![ActionView::UpgradeControl(peer)],
    }
}

/// Why the connection is gone.
pub open spec fn closed_reason(v: PlayerView, peer: Seq<u8>) -> Seq<char> {
    if v.camera == Some(peer) {
        "DeviceCam connection closed"@
    } else {
        "Connection to "@ + text_of_peer(peer) + " closed"@
    }
}

/// After a connection was closed.
pub open spec fn after_closed(v: PlayerView, peer: Seq<u8>, remaining: u32) -> PlayerStep {
    if remaining == 0 {
        PlayerStep {
            state: PlayerView {
                active_connections: 0,
                connection_type: ConnectionType::Disconnected,
                direct_upgraded: false,
                connected: false,
                ..v
            },
            actions: seq![
                ActionView::Notify(PlayerEventView::Disconnected { reason: closed_reason(v, peer) }),
            ],
        }
    } else {
        PlayerStep {
            state: PlayerView { active_connections: remaining as usize, ..v },
            actions: seq![],
        }
    }
}

/// After the viewer started to listen on an address. Until a relay has observed the
/// viewer, its diagnosis starts anew with all that is known of the local side.
pub open spec fn after_listening(v: PlayerView, addr: Seq<Part>) -> PlayerStep {
    match punchable_ip(addr) {
        None => PlayerStep { state: v, actions: seq![] },
        Some(ip) => {
            let ips = with_ip(v.local_ips, ip);
            let port = match first_udp(addr) {
                Some(p) => p,
                None => v.local_quic_port,
            };
            let nat_diag = if v.nat_diag.history.len() == 0 && port != 0 {
                NatView {
                    history: seq![],
                    local_port: port,
                    ips,
                    forced: v.network_type == "4g"@,
                }
            } else {
                v.nat_diag
            };
            PlayerStep {
                state: PlayerView { local_ips: ips, local_quic_port: port, nat_diag, ..v },
                actions: seq![ActionView::AddExternalAddress(addr)],
            }
        },
    }
}

/// What an event leads to.
pub open spec fn player_step(v: PlayerView, event: NetworkEvent) -> PlayerStep {
    match event {
        NetworkEvent::MdnsDiscovered(found) => PlayerStep {
            state: PlayerView { found: noted_all(v.found, found_views(found@)), ..v },
            actions: seq![],
        },
        NetworkEvent::MdnsExpired => PlayerStep { state: v, actions: seq![] },
        NetworkEvent::DcutrSucceeded => PlayerStep {
            state: after_dcutr_success(v),
            actions: seq![],
        },
        NetworkEvent::DcutrFailed { error } => after_dcutr_failure(v, error@),
        NetworkEvent::Identified { peer, observed, listen } => after_identified(
            v,
            peer@,
            observed@,
            addr_views(listen@),
        ),
        NetworkEvent::ConnectionEstablished { peer, addr, connection_id } => after_established(
            v,
            peer@,
            addr@,
            connection_id,
        ),
        NetworkEvent::ConnectionClosed { peer, remaining } => after_closed(v, peer@, remaining),
        NetworkEvent::NewListenAddr(addr) => after_listening(v, addr@),
        NetworkEvent::Other => PlayerStep { state: v, actions: seq![] },
    }
}

/// Whether no counter overflows on an event.
pub open spec fn counters_fit(v: PlayerView, event: NetworkEvent) -> bool {
    &&& event is DcutrFailed ==> v.dcutr_fails < u32::MAX
    &&& event is ConnectionEstablished ==> v.active_connections < usize::MAX
}

impl MediaPlayer {
    /// Whether this is the camera.
    fn is_camera(&self, peer: &PeerId) -> (r: bool)
        ensures
            r == (self@.camera == Some(peer@)),
    {
        match &self.device_cam_peer_id {
            Some(camera) => camera.same(peer),
            None => false,
        }
    }

    fn on_discovered(&mut self, found: &Vec<(PeerId, Multiaddr)>)
        ensures
            final(self)@ == (PlayerView {
                found: noted_all(old(self)@.found, found_views(found@)),
                ..old(self)@
            }),
    {
        let ghost more = found_views(found@);
        let ghost known = self@.found;
        let mut i: usize = 0;
        assert(more.take(0) =~= seq![]);
        while i < found.len()
            invariant
                i <= found@.len(),
                more == found_views(found@),
                self@ == (PlayerView { found: noted_all(known, more.take(i as int)), ..old(self)@ }),
            decreases found@.len() - i,
        {
            proof {
                assert(more.take(i as int + 1).drop_last() =~= more.take(i as int));
                assert(more.take(i as int + 1).last() == (found@[i as int].0@, found@[i as int].1@));
            }
            note_address(&mut self.mdns_cache, &found[i].0, &found[i].1);
            i += 1;
        }
        assert(more.take(more.len() as int) =~= more);
    }

    fn on_dcutr_failed(&mut self, error: String) -> (r: Vec<PlayerAction>)
        requires
            old(self)@.dcutr_fails < u32::MAX,
        ensures
            final(self)@ == after_dcutr_failure(old(self)@, error@).state,
            action_views(r@) == after_dcutr_failure(old(self)@, error@).actions,
    {
        let mut actions: Vec<PlayerAction> = Vec::new();
        self.connection_quality.last_dcutr_result = Some(Err(error));
        self.dcutr_fail_count = self.dcutr_fail_count + 1;
        if self.dcutr_fail_count >= DCUTR_BACKOFF_FAILS {
            actions.push(PlayerAction::Notify(MediaPlayerEvent::DcutrBackoff));
        }
        assert(action_views(actions@) =~= after_dcutr_failure(old(self)@, error@).actions);
        actions
    }

    fn on_identified(&mut self, peer: &PeerId, observed: &Multiaddr, listen: &Vec<Multiaddr>) -> (r:
        Vec<PlayerAction>)
        ensures
            final(self)@ == after_identified(
                old(self)@,
                peer@,
                observed@,
                addr_views(listen@),
            ).state,
            action_views(r@) == after_identified(
                old(self)@,
                peer@,
                observed@,
                addr_views(listen@),
            ).actions,
    {
        let ghost step = after_identified(self@, peer@, observed@, addr_views(listen@));
        let mut actions: Vec<PlayerAction> = Vec::new();
        self.nat_diagnostic.record_observed(observed);
        let local_nat = self.nat_diagnostic.diagnose().nat_type;
        if local_nat == NatType::Symmetric {
            self.symmetric_detected = true;
        }
        actions.push(
            PlayerAction::Notify(
                MediaPlayerEvent::NatDiagnosis {
                    local_nat,
                    remote_nat: clone_text(&self.remote_nat_hint),
                },
            ),
        );
        if self.is_camera(peer) {
            if let Some(seen) = observed.first_udp() {
                if let Some(port) = find_quic_listen_port(listen) {
                    if seen == port {
                        self.remote_nat_hint = Some("Cone".to_owned());
                    } else {
                        self.remote_nat_hint = Some("Symmetric?".to_owned());
                    }
                }
            }
            if !self.connection_quality.direct_upgraded && !self.lan_direct_attempted {
                let lan = lan_addresses(listen, self.nat_diagnostic.local_ips(), true);
                if lan.len() > 0 {
                    assert(addr_views(lan@)[0] == lan@[0]@);
                    self.lan_direct_attempted = true;
                    actions.push(PlayerAction::Dial(lan[0].clone()));
                }
            }
        }
        assert(action_views(actions@) =~= step.actions);
        actions
    }

    fn on_established(&mut self, peer: &PeerId, addr: &Multiaddr, connection_id: u64) -> (r: Vec<
        PlayerAction,
    >)
        requires
            old(self)@.active_connections < usize::MAX,
        ensures
            final(self)@ == after_established(old(self)@, peer@, addr@, connection_id).state,
            action_views(r@) == after_established(
                old(self)@,
                peer@,
                addr@,
                connection_id,
            ).actions,
    {
        let ghost step = after_established(self@, peer@, addr@, connection_id);
        let mut actions: Vec<PlayerAction> = Vec::new();
        self.connection_quality.active_connections = self.connection_quality.active_connections + 1;
        let old_conn_type = self.stream_resolver.connection_type;
        let kind = classify_connection(addr);
        if kind != ConnectionType::TcpDirect {
            self.connection_quality.connection_type = kind;
            self.stream_resolver.update_connection_type(kind);
            if kind == ConnectionType::RelayCircuit {
                self.relay_connection_id = Some(connection_id);
            }
            if kind == ConnectionType::LanDirect {
                self.connection_quality.direct_upgraded = true;
            }
        }
        if self.is_camera(peer) && self.stream_resolver.should_upgrade_stream(old_conn_type) {
            actions.push(
                PlayerAction::UpgradeVideo {
                    peer: peer.clone(),
                    protocol: self.stream_resolver.upgrade_protocol(),
                },
            );
        }
        assert(action_views(actions@) =~= step.actions);
        actions
    }

    fn on_closed(&mut self, peer: &PeerId, remaining: u32) -> (r: Vec<PlayerAction>)
        ensures
            final(self)@ == after_closed(old(self)@, peer@, remaining).state,
            action_views(r@) == after_closed(old(self)@, peer@, remaining).actions,
    {
        let ghost step = after_closed(self@, peer@, remaining);
        let mut actions: Vec<PlayerAction> = Vec::new();
        self.connection_quality.active_connections = remaining as usize;
        if remaining == 0 {
            self.connection_quality.connection_type = ConnectionType::Disconnected;
            self.connection_quality.direct_upgraded = false;
            self.connected = false;
            let reason = if self.is_camera(peer) {
                "DeviceCam connection closed".to_owned()
            } else {
                let mut s = "Connection to ".to_owned();
                s.append(peer_text(peer).as_str());
                s.append(" closed");
                s
            };
            actions.push(PlayerAction::Notify(MediaPlayerEvent::Disconnected { reason }));
        }
        assert(action_views(actions@) =~= step.actions);
        actions
    }

    fn on_listening(&mut self, addr: &Multiaddr) -> (r: Vec<PlayerAction>)
        ensures
            final(self)@ == after_listening(old(self)@, addr@).state,
            action_views(r@) == after_listening(old(self)@, addr@).actions,
    {
        let ghost step = after_listening(self@, addr@);
        let mut actions: Vec<PlayerAction> = Vec::new();
        if let Some(ip) = punchable_address(addr) {
            actions.push(PlayerAction::AddExternalAddress(addr.clone()));
            add_ip(&mut self.local_ips, ip);
            assert(self.local_ips@.len() > 0) by {
                assert(self.local_ips@.contains(ip)) by {
                    if !old(self)@.local_ips.contains(ip) {
                        assert(self.local_ips@.last() == ip);
                    }
                }
            }
            if let Some(port) = addr.first_udp() {
                self.local_quic_port = port;
            }
            if self.nat_diagnostic.observed_history_is_empty() && self.local_quic_port != 0
                && self.local_ips.len() > 0 {
                let mut diag = NatDiagnostic::new(self.local_quic_port, clone_ips(&self.local_ips));
                if str_eq(self.network_type.as_str(), "4g") {
                    diag.set_force_4g(true);
                }
                self.nat_diagnostic = diag;
            }
        }
        assert(action_views(actions@) =~= step.actions);
        actions
    }

    /// Takes in an event of the network and says what to do about it.
    pub fn poll_swarm(&mut self, event: NetworkEvent) -> (r: Vec<PlayerAction>)
        requires
            counters_fit(old(self)@, event),
        ensures
            final(self)@ == player_step(old(self)@, event).state,
            action_views(r@) == player_step(old(self)@, event).actions,
    {
        let mut none: Vec<PlayerAction> = Vec::new();
        assert(action_views(none@) =~= seq![]);
        match event {
            NetworkEvent::MdnsDiscovered(found) => {
                self.on_discovered(&found);
                none
            },
            NetworkEvent::MdnsExpired => none,
            NetworkEvent::DcutrSucceeded => {
                self.connection_quality.direct_upgraded = true;
                self.connection_quality.connection_type = ConnectionType::QuicDirect;
                self.connection_quality.last_dcutr_result = Some(Ok(()));
                none
            },
            NetworkEvent::DcutrFailed { error } => self.on_dcutr_failed(error),
            NetworkEvent::Identified { peer, observed, listen } => self.on_identified(
                &peer,
                &observed,
                &listen,
            ),
            NetworkEvent::ConnectionEstablished { peer, addr, connection_id } => {
                self.on_established(&peer, &addr, connection_id)
            },
            NetworkEvent::ConnectionClosed { peer, remaining } => self.on_closed(&peer, remaining),
            NetworkEvent::NewListenAddr(addr) => self.on_listening(&addr),
            NetworkEvent::Other => none,
        }
    }

    /// What to do once the main stream is open on a direct connection.
    pub fn stream_upgraded(&mut self, peer: &PeerId) -> (r: Vec<PlayerAction>)
        ensures
            final(self)@ == after_upgrade(old(self)@, peer@).state,
            action_views(r@) == after_upgrade(old(self)@, peer@).actions,
    {
        let ghost step = after_upgrade(self@, peer@);
        let mut actions: Vec<PlayerAction> = Vec::new();
        let via_lan = self.connection_quality.connection_type == ConnectionType::LanDirect;
        actions.push(PlayerAction::Notify(MediaPlayerEvent::DirectUpgraded { via_lan }));
        if let Some(id) = self.relay_connection_id {
            self.relay_connection_id = None;
            actions.push(PlayerAction::CloseConnection(id));
        }
        if !self.no_audio {
            actions.push(PlayerAction::UpgradeAudio(peer.clone()));
        }
        actions.push(PlayerAction::UpgradeControl(peer.clone()));
        assert(action_views(actions@) =~= step.actions);
        actions
    }

    /// What is known of the NAT, once a relay has observed the viewer.
    pub fn nat_diagnosis(&self) -> (r: Option<NatDiagnosis>)
        ensures
            r is None <==> self@.nat_diag.history.len() == 0,
            r matches Some(d) ==> reports(
                d,
                self@.nat_diag.history,
                self@.nat_diag.local_port,
                self.nat_diagnostic.is_4g(),
                false,
            ),
    {
        if self.nat_diagnostic.observed_history_is_empty() {
            None
        } else {
            Some(self.nat_diagnostic.diagnose())
        }
    }

    pub fn connection_quality(&self) -> (r: &ConnectionQuality)
        ensures
            *r == self.connection_quality,
    {
        &self.connection_quality
    }

    /// Says whether the network is a mobile one.
    pub fn set_force_4g(&mut self, force: bool)
        ensures
            final(self)@ == (PlayerView {
                nat_diag: NatView { forced: force, ..old(self)@.nat_diag },
                ..old(self)@
            }),
    {
        self.nat_diagnostic.set_force_4g(force);
    }

    pub fn local_ips(&self) -> (r: &[Ipv4])
        ensures
            r@ == self@.local_ips,
    {
        self.local_ips.as_slice()
    }

    pub fn local_quic_port(&self) -> (r: u16)
        ensures
            r == self@.local_quic_port,
    {
        self.local_quic_port
    }

    /// Switches hole punching off for the next connection. It cannot be switched on
    /// again.
    pub fn set_enable_dcutr(&mut self, enable: bool)
        ensures
            final(self)@ == (PlayerView { symmetric: old(self)@.symmetric || !enable, ..old(self)@ }),
    {
        if !enable {
            self.symmetric_detected = true;
        }
    }
}

/// On the local network QUIC is not given up for anything else, and an address
/// through a relay is never noted.
pub proof fn law_found_prefers_quic(
    found: Map<Seq<u8>, Seq<Part>>,
    more: Seq<(Seq<u8>, Seq<Part>)>,
    peer: Seq<u8>,
)
    requires
        found.contains_key(peer),
    ensures
        noted_all(found, more).contains_key(peer),
        has_part(found[peer], Part::QuicV1) ==> has_part(
            noted_all(found, more)[peer],
            Part::QuicV1,
        ),
        !has_part(found[peer], Part::P2pCircuit) ==> !has_part(
            noted_all(found, more)[peer],
            Part::P2pCircuit,
        ),
    decreases more.len(),
{
    if more.len() > 0 {
        law_found_prefers_quic(found, more.drop_last(), peer);
    }
}

/// The camera is dialled on the local network at most once for each connection: the
/// one dial sets a mark, and with the mark there is none.
pub proof fn law_lan_dialled_once(
    v: PlayerView,
    peer: Seq<u8>,
    observed: Seq<Part>,
    listen: Seq<Seq<Part>>,
)
    ensures
        after_identified(v, peer, observed, listen).actions.len() == 2 ==> after_identified(
            v,
            peer,
            observed,
            listen,
        ).state.lan_attempted,
        v.lan_attempted ==> after_identified(v, peer, observed, listen).actions.len() == 1
            && after_identified(v, peer, observed, listen).state.lan_attempted,
{
}

/// Once a symmetric NAT was found, no event makes the viewer forget it: the next
/// connection does without hole punching.
pub proof fn law_symmetric_is_remembered(v: PlayerView, event: NetworkEvent)
    requires
        v.symmetric,
    ensures
        player_step(v, event).state.symmetric,
{
}

/// The user is told to do without hole punching from the second failure on, and not
/// before.
pub proof fn law_backoff_after_two_failures(v: PlayerView, error: Seq<char>)
    requires
        v.dcutr_fails < u32::MAX,
    ensures
        after_dcutr_failure(v, error).actions.len() > 0 <==> v.dcutr_fails >= 1,
        after_dcutr_failure(v, error).state.dcutr_fails == v.dcutr_fails + 1,
{
}

/// The stream is upgraded only when the camera itself, with the stream left to the
/// viewer's choice, goes from a relay to a direct connection.
pub proof fn law_upgrade_only_to_direct(
    v: PlayerView,
    peer: Seq<u8>,
    addr: Seq<Part>,
    connection_id: u64,
)
    requires
        after_established(v, peer, addr, connection_id).actions.len() > 0,
    ensures
        v.camera == Some(peer),
        v.stream_type == "auto"@,
        v.stream_connection == ConnectionType::RelayCircuit,
        !has_part(addr, Part::P2pCircuit),
        has_part(addr, Part::QuicV1),
{
}

/// After an upgrade no connection through a relay is left to close.
pub proof fn law_upgrade_closes_relay(v: PlayerView, peer: Seq<u8>)
    ensures
        after_upgrade(v, peer).state.relay_connection is None,
        v.relay_connection matches Some(id) ==> after_upgrade(v, peer).actions.contains(
            ActionView::CloseConnection(id),
        ),
{
    if let Some(id) = v.relay_connection {
        assert(after_upgrade(v, peer).actions[1] == ActionView::CloseConnection(id));
    }
}

/// How a peer is connected follows from the address alone: through a relay where it
/// names a circuit; else directly, by QUIC where it names QUIC, in the local network
/// where it names a private IPv4 address too, and by TCP where it does not name QUIC.
pub proof fn law_kinds_of_connection(addr: Seq<Part>)
    ensures
        connection_of(addr) == ConnectionType::RelayCircuit <==> addr.contains(Part::P2pCircuit),
        connection_of(addr) == ConnectionType::TcpDirect <==> !addr.contains(Part::P2pCircuit)
            && !addr.contains(Part::QuicV1),
        connection_of(addr) == ConnectionType::LanDirect <==> !addr.contains(Part::P2pCircuit)
            && addr.contains(Part::QuicV1) && exists|ip: Ipv4|
            addr.contains(Part::Ip4(ip)) && ip.private(),
        connection_of(addr) != ConnectionType::Disconnected,
{
    law_parts_of_an_address(addr, Part::P2pCircuit);
    law_parts_of_an_address(addr, Part::QuicV1);
}

/// The converse of [`law_upgrade_only_to_direct`]: once the camera, with the stream left
/// to the viewer's choice, goes from a relay to a direct connection by QUIC, be its
/// address public or private, the main stream of that peer is opened, and nothing else
/// is done.
pub proof fn law_direct_connection_upgrades(
    v: PlayerView,
    peer: PeerId,
    addr: Multiaddr,
    connection_id: u64,
)
    requires
        v.camera == Some(peer@),
        v.stream_type == "auto"@,
        v.stream_connection == ConnectionType::RelayCircuit,
        addr@.contains(Part::QuicV1),
        !addr@.contains(Part::P2pCircuit),
    ensures
        player_step(
            v,
            (NetworkEvent::ConnectionEstablished { peer, addr, connection_id }),
        ).actions == seq![
            ActionView::UpgradeVideo { peer: peer@, protocol: VIDEO_MAIN_PROTOCOL@ },
        ],
{
    law_parts_of_an_address(addr@, Part::P2pCircuit);
    law_parts_of_an_address(addr@, Part::QuicV1);
}

/// No other connection leads to any action.
pub proof fn law_other_connections_do_nothing(
    v: PlayerView,
    peer: PeerId,
    addr: Multiaddr,
    connection_id: u64,
)
    requires
        v.camera != Some(peer@) || v.stream_type != "auto"@ || v.stream_connection
            != ConnectionType::RelayCircuit || !addr@.contains(Part::QuicV1) || addr@.contains(
            Part::P2pCircuit,
        ),
    ensures
        player_step(
            v,
            (NetworkEvent::ConnectionEstablished { peer, addr, connection_id }),
        ).actions.len() == 0,
{
    law_parts_of_an_address(addr@, Part::P2pCircuit);
    law_parts_of_an_address(addr@, Part::QuicV1);
}

/// A connection is counted. One by QUIC or through a relay is the one that the viewer
/// reports and that picks the stream from then on, one by TCP is not. The latest
/// connection through a relay is the one to close after an upgrade, and a connection in
/// the local network needs no hole punching.
pub proof fn law_connection_is_noted(
    v: PlayerView,
    peer: PeerId,
    addr: Multiaddr,
    connection_id: u64,
)
    requires
        v.active_connections < usize::MAX,
    ensures
        ({
            let now = player_step(
                v,
                (NetworkEvent::ConnectionEstablished { peer, addr, connection_id }),
            ).state;
            let relayed = addr@.contains(Part::P2pCircuit);
            let quic = addr@.contains(Part::QuicV1);
            let lan = quic && !relayed && exists|ip: Ipv4|
                addr@.contains(Part::Ip4(ip)) && ip.private();
            &&& now.active_connections == v.active_connections + 1
            &&& relayed || quic ==> now.connection_type == now.stream_connection
                && now.connection_type == if relayed {
                ConnectionType::RelayCircuit
            } else if lan {
                ConnectionType::LanDirect
            } else {
                ConnectionType::QuicDirect
            }
            &&& !relayed && !quic ==> now.connection_type == v.connection_type
                && now.stream_connection == v.stream_connection
            &&& now.relay_connection == if relayed {
                Some(connection_id)
            } else {
                v.relay_connection
            }
            &&& now.direct_upgraded == (v.direct_upgraded || lan)
            &&& now == (PlayerView {
                active_connections: now.active_connections,
                connection_type: now.connection_type,
                stream_connection: now.stream_connection,
                relay_connection: now.relay_connection,
                direct_upgraded: now.direct_upgraded,
                ..v
            })
        }),
{
    law_kinds_of_connection(addr@);
}

/// The viewer is disconnected exactly when the last connection to a peer is gone, and
/// says so once; as long as connections remain, only their number changes.
pub proof fn law_disconnected_after_last_connection(
    v: PlayerView,
    peer: PeerId,
    remaining: u32,
)
    ensures
        ({
            let step = player_step(v, NetworkEvent::ConnectionClosed { peer, remaining });
            &&& step.state.active_connections == remaining
            &&& remaining > 0 ==> step.actions.len() == 0 && step.state == (PlayerView {
                active_connections: step.state.active_connections,
                ..v
            })
            &&& remaining == 0 ==> {
                &&& step.actions.len() == 1
                &&& step.actions[0] matches ActionView::Notify(PlayerEventView::Disconnected { reason })
                    && reason == if v.camera == Some(peer@) {
                    "DeviceCam connection closed"@
                } else {
                    "Connection to "@ + text_of_peer(peer@) + " closed"@
                }
                &&& !step.state.connected
                &&& !step.state.direct_upgraded
                &&& step.state.connection_type == ConnectionType::Disconnected
                &&& step.state == (PlayerView {
                    active_connections: 0,
                    connected: false,
                    direct_upgraded: false,
                    connection_type: ConnectionType::Disconnected,
                    ..v
                })
            }
        }),
{
}

/// A punched hole makes the connection a direct one by QUIC, without any action; a
/// failed punch is counted and its reason kept, and the connection stays what it was.
pub proof fn law_hole_punching_is_noted(v: PlayerView, error: String)
    requires
        v.dcutr_fails < u32::MAX,
    ensures
        ({
            let good = player_step(v, NetworkEvent::DcutrSucceeded);
            let bad = player_step(v, NetworkEvent::DcutrFailed { error });
            &&& good.actions.len() == 0
            &&& good.state.direct_upgraded && good.state.connection_type
                == ConnectionType::QuicDirect
            &&& good.state.last_dcutr matches Some(Ok(_))
            &&& good.state == (PlayerView {
                direct_upgraded: good.state.direct_upgraded,
                connection_type: good.state.connection_type,
                last_dcutr: good.state.last_dcutr,
                ..v
            })
            &&& bad.state.dcutr_fails == v.dcutr_fails + 1
            &&& bad.state.last_dcutr matches Some(Err(e)) && e == error@
            &&& bad.state == (PlayerView {
                dcutr_fails: bad.state.dcutr_fails,
                last_dcutr: bad.state.last_dcutr,
                ..v
            })
            &&& bad.actions == if v.dcutr_fails == 0 {
                seq![]
            } else {
                seq![ActionView::Notify(PlayerEventView::DcutrBackoff)]
            }
        }),
{
}

/// Events that say nothing of a connection change nothing, and peers found nearby are
/// noted without any action.
pub proof fn law_quiet_events(v: PlayerView, found: Vec<(PeerId, Multiaddr)>)
    ensures
        player_step(v, NetworkEvent::Other).state == v,
        player_step(v, NetworkEvent::Other).actions.len() == 0,
        player_step(v, NetworkEvent::MdnsExpired).state == v,
        player_step(v, NetworkEvent::MdnsExpired).actions.len() == 0,
        player_step(v, NetworkEvent::MdnsDiscovered(found)).actions.len() == 0,
        player_step(v, NetworkEvent::MdnsDiscovered(found)).state == (PlayerView {
            found: player_step(v, NetworkEvent::MdnsDiscovered(found)).state.found,
            ..v
        }),
{
}

/// Of the addresses at which a peer is found nearby, the last by QUIC is kept; those that
/// come after it do not take its place.
pub proof fn law_last_quic_address_is_kept(
    v: PlayerView,
    found: Vec<(PeerId, Multiaddr)>,
    i: int,
)
    requires
        0 <= i < found@.len(),
        found@[i].1@.contains(Part::QuicV1),
        !found@[i].1@.contains(Part::P2pCircuit),
        forall|k: int|
            i < k < found@.len() && (#[trigger] found@[k]).0@ == found@[i].0@
                ==> !found@[k].1@.contains(Part::QuicV1) || found@[k].1@.contains(
                Part::P2pCircuit,
            ),
    ensures
        ({
            let now = player_step(v, NetworkEvent::MdnsDiscovered(found)).state.found;
            now.contains_key(found@[i].0@) && now[found@[i].0@] == found@[i].1@
        }),
{
    let more = found_views(found@);
    assert forall|k: int| i < k < more.len() && (#[trigger] more[k]).0 == more[i].0 implies !more[
    k].1.contains(Part::QuicV1) || more[k].1.contains(Part::P2pCircuit) by {
        assert(found@[k].0@ == found@[i].0@);
    }
    lemma_last_quic(v.found, more, i);
}

proof fn lemma_last_quic(
    found: Map<Seq<u8>, Seq<Part>>,
    more: Seq<(Seq<u8>, Seq<Part>)>,
    i: int,
)
    requires
        0 <= i < more.len(),
        more[i].1.contains(Part::QuicV1),
        !more[i].1.contains(Part::P2pCircuit),
        forall|k: int|
            i < k < more.len() && (#[trigger] more[k]).0 == more[i].0 ==> !more[k].1.contains(
                Part::QuicV1,
            ) || more[k].1.contains(Part::P2pCircuit),
    ensures
        noted_all(found, more).contains_key(more[i].0),
        noted_all(found, more)[more[i].0] == more[i].1,
    decreases more.len(),
{
    let last = more.last();
    law_parts_of_an_address(last.1, Part::QuicV1);
    law_parts_of_an_address(last.1, Part::P2pCircuit);
    law_parts_of_an_address(more[i].1, Part::QuicV1);
    if i < more.len() - 1 {
        let front = more.drop_last();
        assert forall|k: int| i < k < front.len() && (#[trigger] front[k]).0 == front[i].0 implies !front[
        k].1.contains(Part::QuicV1) || front[k].1.contains(Part::P2pCircuit) by {
            assert(front[k] == more[k]);
        }
        lemma_last_quic(found, front, i);
        assert(more[more.len() - 1] == last);
    }
}

/// Where no address of a peer is by QUIC, neither the one known before nor any found
/// now, the last that is not through a relay is kept.
pub proof fn law_last_plain_address_is_kept(
    v: PlayerView,
    found: Vec<(PeerId, Multiaddr)>,
    i: int,
)
    requires
        0 <= i < found@.len(),
        !found@[i].1@.contains(Part::P2pCircuit),
        v.found.contains_key(found@[i].0@) ==> !v.found[found@[i].0@].contains(Part::QuicV1),
        forall|k: int|
            0 <= k < found@.len() && (#[trigger] found@[k]).0@ == found@[i].0@
                ==> !found@[k].1@.contains(Part::QuicV1),
        forall|k: int|
            i < k < found@.len() && (#[trigger] found@[k]).0@ == found@[i].0@
                ==> found@[k].1@.contains(Part::P2pCircuit),
    ensures
        ({
            let now = player_step(v, NetworkEvent::MdnsDiscovered(found)).state.found;
            now.contains_key(found@[i].0@) && now[found@[i].0@] == found@[i].1@
        }),
{
    let more = found_views(found@);
    assert forall|k: int| 0 <= k < more.len() && (#[trigger] more[k]).0 == more[i].0 implies !more[
    k].1.contains(Part::QuicV1) && (i < k ==> more[k].1.contains(Part::P2pCircuit)) by {
        assert(found@[k].0@ == found@[i].0@);
    }
    lemma_last_plain(v.found, more, i);
}

proof fn lemma_no_quic(
    found: Map<Seq<u8>, Seq<Part>>,
    more: Seq<(Seq<u8>, Seq<Part>)>,
    peer: Seq<u8>,
)
    requires
        found.contains_key(peer) ==> !found[peer].contains(Part::QuicV1),
        forall|k: int|
            0 <= k < more.len() && (#[trigger] more[k]).0 == peer ==> !more[k].1.contains(
                Part::QuicV1,
            ),
    ensures
        noted_all(found, more).contains_key(peer) ==> !noted_all(found, more)[peer].contains(
            Part::QuicV1,
        ),
    decreases more.len(),
{
    if more.len() > 0 {
        let front = more.drop_last();
        assert forall|k: int| 0 <= k < front.len() && (#[trigger] front[k]).0 == peer implies !front[
        k].1.contains(Part::QuicV1) by {
            assert(front[k] == more[k]);
        }
        lemma_no_quic(found, front, peer);
        assert(more[more.len() - 1] == more.last());
    }
}

proof fn lemma_last_plain(
    found: Map<Seq<u8>, Seq<Part>>,
    more: Seq<(Seq<u8>, Seq<Part>)>,
    i: int,
)
    requires
        0 <= i < more.len(),
        !more[i].1.contains(Part::P2pCircuit),
        found.contains_key(more[i].0) ==> !found[more[i].0].contains(Part::QuicV1),
        forall|k: int|
            0 <= k < more.len() && (#[trigger] more[k]).0 == more[i].0 ==> !more[k].1.contains(
                Part::QuicV1,
            ) && (i < k ==> more[k].1.contains(Part::P2pCircuit)),
    ensures
        noted_all(found, more).contains_key(more[i].0),
        noted_all(found, more)[more[i].0] == more[i].1,
    decreases more.len(),
{
    let last = more.last();
    let front = more.drop_last();
    assert(more[more.len() - 1] == last);
    law_parts_of_an_address(last.1, Part::P2pCircuit);
    if i < more.len() - 1 {
        assert forall|k: int| 0 <= k < front.len() && (#[trigger] front[k]).0 == front[i].0 implies !front[
        k].1.contains(Part::QuicV1) && (i < k ==> front[k].1.contains(Part::P2pCircuit)) by {
            assert(front[k] == more[k]);
        }
        lemma_last_plain(found, front, i);
    } else {
        assert forall|k: int| 0 <= k < front.len() && (#[trigger] front[k]).0 == last.0 implies !front[
        k].1.contains(Part::QuicV1) by {
            assert(front[k] == more[k]);
        }
        lemma_no_quic(found, front, last.0);
        let before = noted_all(found, front);
        if before.contains_key(last.0) {
            law_parts_of_an_address(before[last.0], Part::QuicV1);
        }
    }
}

/// What is known of a peer stays as it was where the peer is not among those found, or
/// only behind a relay.
pub proof fn law_other_peers_stay_noted(
    v: PlayerView,
    found: Vec<(PeerId, Multiaddr)>,
    peer: Seq<u8>,
)
    requires
        forall|k: int|
            0 <= k < found@.len() && (#[trigger] found@[k]).0@ == peer ==> found@[k].1@.contains(
                Part::P2pCircuit,
            ),
    ensures
        ({
            let now = player_step(v, NetworkEvent::MdnsDiscovered(found)).state.found;
            &&& now.contains_key(peer) <==> v.found.contains_key(peer)
            &&& v.found.contains_key(peer) ==> now[peer] == v.found[peer]
        }),
{
    let more = found_views(found@);
    assert forall|k: int| 0 <= k < more.len() && (#[trigger] more[k]).0 == peer implies more[
    k].1.contains(Part::P2pCircuit) by {
        assert(found@[k].0@ == peer);
    }
    lemma_others_noted(v.found, more, peer);
}

proof fn lemma_others_noted(
    found: Map<Seq<u8>, Seq<Part>>,
    more: Seq<(Seq<u8>, Seq<Part>)>,
    peer: Seq<u8>,
)
    requires
        forall|k: int|
            0 <= k < more.len() && (#[trigger] more[k]).0 == peer ==> more[k].1.contains(
                Part::P2pCircuit,
            ),
    ensures
        noted_all(found, more).contains_key(peer) <==> found.contains_key(peer),
        found.contains_key(peer) ==> noted_all(found, more)[peer] == found[peer],
    decreases more.len(),
{
    if more.len() > 0 {
        let front = more.drop_last();
        assert forall|k: int| 0 <= k < front.len() && (#[trigger] front[k]).0 == peer implies front[
        k].1.contains(Part::P2pCircuit) by {
            assert(front[k] == more[k]);
        }
        lemma_others_noted(found, front, peer);
        assert(more[more.len() - 1] == more.last());
        law_parts_of_an_address(more.last().1, Part::P2pCircuit);
    }
}

/// Whoever tells the viewer how it is seen, the viewer reports what is known of the NATs
/// first, with what was guessed of the camera's before, and remembers the observation.
/// Peers other than the camera have no other effect.
pub proof fn law_observation_is_reported(
    v: PlayerView,
    peer: PeerId,
    observed: Multiaddr,
    listen: Vec<Multiaddr>,
)
    ensures
        ({
            let step = player_step(v, NetworkEvent::Identified { peer, observed, listen });
            let history = v.nat_diag.history.push(observed@);
            let diagnosed = finding(history, v.nat_diag.local_port, false).nat_type;
            &&& step.state.nat_diag.history == history
            &&& step.state.nat_diag.local_port == v.nat_diag.local_port
            &&& step.state.nat_diag.ips == v.nat_diag.ips
            &&& step.state.nat_diag.forced == v.nat_diag.forced
            &&& step.state.symmetric == (v.symmetric || diagnosed == NatType::Symmetric)
            &&& step.actions.len() >= 1
            &&& step.actions[0] matches ActionView::Notify(
                PlayerEventView::NatDiagnosis { local_nat, remote_nat },
            ) && local_nat == diagnosed && remote_nat == v.remote_hint
            &&& v.camera != Some(peer@) ==> step.actions.len() == 1 && step.state.remote_hint
                == v.remote_hint && step.state.lan_attempted == v.lan_attempted
            &&& step.state == (PlayerView {
                nat_diag: step.state.nat_diag,
                symmetric: step.state.symmetric,
                remote_hint: step.state.remote_hint,
                lan_attempted: step.state.lan_attempted,
                ..v
            })
        }),
{
}

/// The camera's first address in the local network is dialled as soon as the camera has
/// told of itself, unless the connection is direct already, an address was dialled
/// before, or there is none.
pub proof fn law_camera_is_dialled_nearby(
    v: PlayerView,
    peer: PeerId,
    observed: Multiaddr,
    listen: Vec<Multiaddr>,
)
    requires
        v.camera == Some(peer@),
    ensures
        ({
            let step = player_step(v, NetworkEvent::Identified { peer, observed, listen });
            let near = lan_list(addr_views(listen@), v.nat_diag.ips, true);
            let dials = !v.direct_upgraded && !v.lan_attempted && near.len() > 0;
            &&& step.state.lan_attempted == (v.lan_attempted || dials)
            &&& dials ==> step.actions.len() == 2 && step.actions[1] == ActionView::Dial(near[0])
            &&& !dials ==> step.actions.len() == 1
        }),
{
}

/// The camera's NAT is guessed to be a cone exactly where the camera is seen at the port
/// on which it listens for QUIC, and a symmetric one where it is seen at another; where
/// either is unknown the guess stays.
pub proof fn law_guess_at_camera_nat(
    v: PlayerView,
    peer: PeerId,
    observed: Multiaddr,
    listen: Vec<Multiaddr>,
)
    requires
        v.camera == Some(peer@),
    ensures
        ({
            let hint = player_step(
                v,
                NetworkEvent::Identified { peer, observed, listen },
            ).state.remote_hint;
            match (first_udp(observed@), quic_listen_port(addr_views(listen@))) {
                (Some(seen), Some(port)) => hint == Some(
                    if seen == port {
                        "Cone"@
                    } else {
                        "Symmetric?"@
                    },
                ),
                _ => hint == v.remote_hint,
            }
        }),
{
}

/// The port on which a peer listens for QUIC is that of the first of its QUIC addresses
/// with a UDP port.
pub proof fn law_quic_listen_port(listen: Seq<Seq<Part>>, i: int)
    requires
        0 <= i <= listen.len(),
        forall|k: int|
            0 <= k < i ==> !(#[trigger] listen[k]).contains(Part::QuicV1) || first_udp(listen[k])
                is None,
        i < listen.len() ==> listen[i].contains(Part::QuicV1) && first_udp(listen[i]) is Some,
    ensures
        quic_listen_port(listen) == if i < listen.len() {
            first_udp(listen[i])
        } else {
            None
        },
    decreases listen.len(),
{
    if listen.len() > 0 {
        law_parts_of_an_address(listen[0], Part::QuicV1);
        if i > 0 {
            let rest = listen.skip(1);
            assert(!listen[0].contains(Part::QuicV1) || first_udp(listen[0]) is None);
            assert forall|k: int| 0 <= k < i - 1 implies !(#[trigger] rest[k]).contains(
                Part::QuicV1,
            ) || first_udp(rest[k]) is None by {
                assert(rest[k] == listen[k + 1]);
            }
            law_quic_listen_port(rest, i - 1);
        }
    }
}

/// An address on which the viewer listens is told to peers exactly where holes can be
/// punched to it, and then its IP address and its port are remembered. The diagnosis
/// starts anew with them until somebody has observed the viewer, and is left alone from
/// then on.
pub proof fn law_listening_is_told(v: PlayerView, addr: Multiaddr)
    ensures
        ({
            let step = player_step(v, NetworkEvent::NewListenAddr(addr));
            match punchable_ip(addr@) {
                None => step.actions.len() == 0 && step.state == v,
                Some(ip) => {
                    &&& step.actions == seq![ActionView::AddExternalAddress(addr@)]
                    &&& step.state.local_ips == with_ip(v.local_ips, ip)
                    &&& first_udp(addr@) matches Some(p) ==> step.state.local_quic_port == p
                    &&& first_udp(addr@) is None ==> step.state.local_quic_port
                        == v.local_quic_port
                    &&& v.nat_diag.history.len() > 0 || step.state.local_quic_port == 0
                        ==> step.state.nat_diag == v.nat_diag
                    &&& v.nat_diag.history.len() == 0 && step.state.local_quic_port != 0 ==> {
                        &&& step.state.nat_diag.history.len() == 0
                        &&& step.state.nat_diag.local_port == step.state.local_quic_port
                        &&& step.state.nat_diag.ips == step.state.local_ips
                        &&& step.state.nat_diag.forced <==> v.network_type == "4g"@
                    }
                    &&& step.state == (PlayerView {
                        local_ips: step.state.local_ips,
                        local_quic_port: step.state.local_quic_port,
                        nat_diag: step.state.nat_diag,
                        ..v
                    })
                },
            }
        }),
{
}

/// After an upgrade the layer above is told first, and whether it was through the local
/// network; then the connection through the relay is closed, if there is one, audio
/// follows unless it is not wanted, and control comes last. Each is done once and for the
/// same peer.
pub proof fn law_upgrade_order(v: PlayerView, peer: Seq<u8>)
    ensures
        ({
            let actions = after_upgrade(v, peer).actions;
            let closes: int = if v.relay_connection is Some {
                1
            } else {
                0
            };
            let audio: int = if v.no_audio {
                0
            } else {
                1
            };
            &&& actions.len() == 2 + closes + audio
            &&& actions[0] matches ActionView::Notify(PlayerEventView::DirectUpgraded { via_lan })
                && (via_lan <==> v.connection_type == ConnectionType::LanDirect)
            &&& v.relay_connection matches Some(id) ==> actions[1] == ActionView::CloseConnection(
                id,
            )
            &&& !v.no_audio ==> actions[1 + closes] == ActionView::UpgradeAudio(peer)
            &&& actions.last() == ActionView::UpgradeControl(peer)
            &&& after_upgrade(v, peer).state == (PlayerView { relay_connection: None, ..v })
        }),
{
}

} // verus!
