//! What the camera learns of the network, and the streams it sends.

use vstd::prelude::*;

use super::net_diag::{recorded, NatDiagnostic, NatType};
use crate::net::addr::{
    any_v4, addr_views, first_udp, has_part, has_private_ip4, law_parts_of_an_address, quic_addr,
    quic_at, tcp_addr, tcp_at,
    Ipv4, Multiaddr, Part, PeerId, Protocol,
};
use crate::net::lan::{
    add_ip, clone_ips, lan_addresses, lan_list, punchable_address, punchable_ip, with_ip,
};
use crate::text::{decimal, push_decimal};

verus! {

broadcast use vstd::string::group_string_axioms;

/// How a peer at an address is connected, for the user.
pub open spec fn connection_text(addr: Seq<Part>) -> Seq<char> {
    if has_part(addr, Part::P2pCircuit) {
        "Relay Circuit (转发)"@
    } else if has_part(addr, Part::QuicV1) {
        if has_private_ip4(addr) {
            "LAN Direct (局域网直连)"@
        } else {
            "DCUtR Hole Punch (打洞直连)"@
        }
    } else {
        "Other"@
    }
}

/// How a peer at an address is connected, for the user.
pub fn describe_connection(addr: &Multiaddr) -> (r: &'static str)
    ensures
        r@ == connection_text(addr@),
{
    if addr.has_circuit() {
        "Relay Circuit (转发)"
    } else if addr.has_quic() {
        if addr.has_private_ip4() {
            "LAN Direct (局域网直连)"
        } else {
            "DCUtR Hole Punch (打洞直连)"
        }
    } else {
        "Other"
    }
}

/// What the camera listens on: QUIC at a port that may be set, TCP at any.
pub open spec fn camera_listen_list(udp_port: Option<u16>) -> Seq<Seq<Part>> {
    seq![
        quic_at(
            any_v4(),
            match udp_port {
                Some(p) => p,
                None => 0,
            },
        ),
        tcp_at(any_v4(), 0),
    ]
}

/// What the camera listens on.
pub fn camera_listen_addresses(udp_port: Option<u16>) -> (r: Vec<Multiaddr>)
    ensures
        addr_views(r@) == camera_listen_list(udp_port),
{
    let any = Ipv4 { a: 0, b: 0, c: 0, d: 0 };
    let port: u16 = match udp_port {
        Some(p) => p,
        None => 0,
    };
    let mut addrs: Vec<Multiaddr> = Vec::new();
    addrs.push(quic_addr(Protocol::Ip4(any), port));
    addrs.push(tcp_addr(Protocol::Ip4(any), 0));
    assert(addr_views(addrs@) =~= camera_listen_list(udp_port));
    addrs
}

/// What the camera knows of its own network.
pub struct CameraNetwork {
    pub nat_diagnostic: Option<NatDiagnostic>,
    pub local_nat_type: Option<NatType>,
    pub local_ips: Vec<Ipv4>,
    pub local_quic_port: u16,
}

/// The diagnosis of the NAT, as a value.
pub struct DiagView {
    pub history: Seq<Seq<Part>>,
    pub local_port: u16,
    pub ips: Seq<Ipv4>,
    pub forced: bool,
}

/// The view of a diagnosis.
pub open spec fn diag_view(d: Option<NatDiagnostic>) -> Option<DiagView> {
    match d {
        Some(n) => Some(
            DiagView {
                history: n.history(),
                local_port: n.local_port(),
                ips: n.ips(),
                forced: n.forced(),
            },
        ),
        None => None,
    }
}

impl CameraNetwork {
    /// Nothing is known.
    pub fn new() -> (r: CameraNetwork)
        ensures
            r.nat_diagnostic is None,
            r.local_nat_type is None,
            r.local_ips@.len() == 0,
            r.local_quic_port == 0,
    {
        CameraNetwork {
            nat_diagnostic: None,
            local_nat_type: None,
            local_ips: Vec::new(),
            local_quic_port: 0,
        }
    }

    /// The camera listens on an address. The result tells whether peers are to be
    /// told of it. The diagnosis starts with the first port that is known, and is not
    /// started again.
    pub fn new_listen_addr(&mut self, addr: &Multiaddr) -> (tell: bool)
        ensures
            tell == (punchable_ip(addr@) is Some),
            final(self).local_nat_type == old(self).local_nat_type,
            match punchable_ip(addr@) {
                None => {
                    &&& final(self).local_ips@ == old(self).local_ips@
                    &&& final(self).local_quic_port == old(self).local_quic_port
                    &&& final(self).nat_diagnostic == old(self).nat_diagnostic
                },
                Some(ip) => {
                    &&& final(self).local_ips@ == with_ip(old(self).local_ips@, ip)
                    &&& final(self).local_quic_port == match first_udp(addr@) {
                        Some(p) => p,
                        None => old(self).local_quic_port,
                    }
                    &&& if old(self).nat_diagnostic is None && final(self).local_quic_port != 0 {
                        diag_view(final(self).nat_diagnostic) == Some(
                            DiagView {
                                history: seq![],
                                local_port: final(self).local_quic_port,
                                ips: final(self).local_ips@,
                                forced: false,
                            },
                        )
                    } else {
                        final(self).nat_diagnostic == old(self).nat_diagnostic
                    }
                },
            },
    {
        let ip = match punchable_address(addr) {
            Some(ip) => ip,
            None => {
                return false;
            },
        };
        add_ip(&mut self.local_ips, ip);
        if let Some(port) = addr.first_udp() {
            self.local_quic_port = port;
        }
        if self.nat_diagnostic.is_none() && self.local_quic_port != 0 {
            self.nat_diagnostic = Some(
                NatDiagnostic::new(self.local_quic_port, clone_ips(&self.local_ips)),
            );
        }
        true
    }

    /// A peer has told how it sees the camera.
    pub fn identified(&mut self, observed: &Multiaddr)
        ensures
            final(self).local_ips == old(self).local_ips,
            final(self).local_quic_port == old(self).local_quic_port,
            match diag_view(old(self).nat_diagnostic) {
                Some(d) => {
                    &&& diag_view(final(self).nat_diagnostic) == Some(
                        DiagView {
                            history: recorded(d.history, d.local_port, observed@),
                            ..d
                        },
                    )
                    &&& final(self).local_nat_type == Some(
                        final(self).nat_diagnostic->0.nat_type(),
                    )
                },
                None => {
                    &&& final(self).nat_diagnostic is None
                    &&& final(self).local_nat_type == old(self).local_nat_type
                },
            },
    {
        let mut diag = None;
        core::mem::swap(&mut diag, &mut self.nat_diagnostic);
        if let Some(mut d) = diag {
            d.record_observed(observed);
            self.local_nat_type = Some(d.diagnose().nat_type);
            self.nat_diagnostic = Some(d);
        }
    }

    /// The addresses of a peer on the camera's own network.
    pub fn same_network(&self, listen: &Vec<Multiaddr>) -> (r: Vec<Multiaddr>)
        ensures
            addr_views(r@) == lan_list(addr_views(listen@), self.local_ips@, false),
    {
        lan_addresses(listen, self.local_ips.as_slice(), false)
    }
}

/// From this failure on punching a hole to a viewer is advised against.
pub const PUNCH_ADVICE_FAILS: u32 = 2;

/// How many times punching a hole to each viewer has failed.
pub struct PunchFailures {
    counts: Vec<(PeerId, u32)>,
}

spec fn count_map(counts: Seq<(PeerId, u32)>) -> Map<Seq<u8>, u32>
    decreases counts.len(),
{
    if counts.len() == 0 {
        Map::empty()
    } else {
        count_map(counts.drop_last()).insert(counts.last().0@, counts.last().1)
    }
}

impl View for PunchFailures {
    type V = Map<Seq<u8>, u32>;

    closed spec fn view(&self) -> Map<Seq<u8>, u32> {
        count_map(self.counts@)
    }
}

/// The number of failures with a viewer.
pub open spec fn failures_with(counts: Map<Seq<u8>, u32>, peer: Seq<u8>) -> u32 {
    if counts.contains_key(peer) {
        counts[peer]
    } else {
        0
    }
}

/// The advice after so many failures with a viewer.
pub open spec fn punch_advice(fails: u32) -> Seq<char> {
    "DCUtR 对该 viewer 已失败 "@ + decimal(fails as nat)
        + " 次，打洞对本端无效。建议在该 device-cam.toml 设置 enable_dcutr = false 仅走中继，可消除打洞握手对视频流的干扰与卡顿。"@
}

proof fn lemma_count_replaced(counts: Seq<(PeerId, u32)>, i: int, entry: (PeerId, u32))
    requires
        0 <= i < counts.len(),
        counts[i].0@ == entry.0@,
        forall|k: int| i < k < counts.len() ==> (#[trigger] counts[k]).0@ != entry.0@,
    ensures
        count_map(counts).contains_key(entry.0@),
        count_map(counts)[entry.0@] == counts[i].1,
        count_map(counts.update(i, entry)) == count_map(counts).insert(entry.0@, entry.1),
    decreases counts.len(),
{
    let after = counts.update(i, entry);
    if i == counts.len() - 1 {
        assert(after.drop_last() =~= counts.drop_last());
        assert(count_map(after) =~= count_map(counts).insert(entry.0@, entry.1));
    } else {
        lemma_count_replaced(counts.drop_last(), i, entry);
        assert(after.drop_last() =~= counts.drop_last().update(i, entry));
        assert(counts[counts.len() - 1].0@ != entry.0@);
        assert(count_map(after) =~= count_map(counts).insert(entry.0@, entry.1));
    }
}

proof fn lemma_count_absent(counts: Seq<(PeerId, u32)>, peer: Seq<u8>)
    requires
        forall|k: int| 0 <= k < counts.len() ==> (#[trigger] counts[k]).0@ != peer,
    ensures
        !count_map(counts).contains_key(peer),
    decreases counts.len(),
{
    if counts.len() > 0 {
        let front = counts.drop_last();
        assert forall|k: int| 0 <= k < front.len() implies (#[trigger] front[k]).0@ != peer by {
            assert(front[k] == counts[k]);
        }
        lemma_count_absent(front, peer);
        assert(counts[counts.len() - 1].0@ != peer);
    }
}

impl PunchFailures {
    pub fn new() -> (r: PunchFailures)
        ensures
            r@ == Map::<Seq<u8>, u32>::empty(),
    {
        PunchFailures { counts: Vec::new() }
    }

    fn position(&self, peer: &PeerId) -> (r: Option<usize>)
        ensures
            match r {
                Some(i) => i < self.counts@.len() && self.counts@[i as int].0@ == peer@ && forall|
                    k: int,
                |
                    i < k < self.counts@.len() ==> (#[trigger] self.counts@[k]).0@ != peer@,
                None => forall|k: int|
                    0 <= k < self.counts@.len() ==> (#[trigger] self.counts@[k]).0@ != peer@,
            },
    {
        let mut n: usize = self.counts.len();
        while n > 0
            invariant
                n <= self.counts@.len(),
                forall|k: int|
                    n <= k < self.counts@.len() ==> (#[trigger] self.counts@[k]).0@ != peer@,
            decreases n,
        {
            n -= 1;
            if self.counts[n].0.same(peer) {
                return Some(n);
            }
        }
        None
    }

    /// How many times punching a hole to a viewer has failed.
    pub fn count(&self, peer: &PeerId) -> (r: u32)
        ensures
            r == failures_with(self@, peer@),
    {
        match self.position(peer) {
            Some(i) => {
                proof {
                    lemma_count_replaced(self.counts@, i as int, self.counts@[i as int]);
                }
                self.counts[i].1
            },
            None => {
                proof {
                    lemma_count_absent(self.counts@, peer@);
                }
                0
            },
        }
    }

    /// Punching a hole to a viewer has failed once more. The result is the advice for
    /// the log: where punching is enabled, from the second failure on.
    pub fn failed(&mut self, peer: &PeerId, enabled: bool) -> (r: Option<String>)
        requires
            failures_with(old(self)@, peer@) < u32::MAX,
        ensures
            final(self)@ == old(self)@.insert(
                peer@,
                (failures_with(old(self)@, peer@) + 1) as u32,
            ),
            match r {
                Some(text) => enabled && final(self)@[peer@] >= PUNCH_ADVICE_FAILS && text@
                    == punch_advice(final(self)@[peer@]),
                None => !(enabled && final(self)@[peer@] >= PUNCH_ADVICE_FAILS),
            },
    {
        let fails: u32 = self.count(peer) + 1;
        let ghost before = self.counts@;
        let entry = (peer.clone(), fails);
        match self.position(peer) {
            Some(i) => {
                proof {
                    lemma_count_replaced(before, i as int, entry);
                }
                self.counts.set(i, entry);
            },
            None => {
                self.counts.push(entry);
                assert(self.counts@.drop_last() =~= before);
            },
        }
        if !enabled || fails < PUNCH_ADVICE_FAILS {
            return None;
        }
        let mut text = "DCUtR 对该 viewer 已失败 ".to_owned();
        push_decimal(&mut text, fails as u64);
        text.append(
            " 次，打洞对本端无效。建议在该 device-cam.toml 设置 enable_dcutr = false 仅走中继，可消除打洞握手对视频流的干扰与卡顿。",
        );
        Some(text)
    }
}

/// What is sent to a viewer.
#[derive(Debug, Clone, Copy, PartialEq, Eq, Structural)]
pub enum SentStream {
    Main,
    Sub,
    Third,
    Audio,
}

/// The tasks that send streams to viewers: one for each viewer and stream.
pub struct ActiveStreams {
    entries: Vec<(PeerId, SentStream, u64)>,
}

spec fn stream_map(entries: Seq<(PeerId, SentStream, u64)>) -> Map<(Seq<u8>, SentStream), u64>
    decreases entries.len(),
{
    if entries.len() == 0 {
        Map::empty()
    } else {
        let e = entries.last();
        stream_map(entries.drop_last()).insert((e.0@, e.1), e.2)
    }
}

impl View for ActiveStreams {
    type V = Map<(Seq<u8>, SentStream), u64>;

    closed spec fn view(&self) -> Map<(Seq<u8>, SentStream), u64> {
        stream_map(self.entries@)
    }
}

proof fn lemma_stream_replaced(
    entries: Seq<(PeerId, SentStream, u64)>,
    i: int,
    e: (PeerId, SentStream, u64),
)
    requires
        0 <= i < entries.len(),
        entries[i].0@ == e.0@,
        entries[i].1 == e.1,
        forall|k: int|
            i < k < entries.len() ==> ((#[trigger] entries[k]).0@, entries[k].1) != (e.0@, e.1),
    ensures
        stream_map(entries).contains_key((e.0@, e.1)),
        stream_map(entries)[(e.0@, e.1)] == entries[i].2,
        stream_map(entries.update(i, e)) == stream_map(entries).insert((e.0@, e.1), e.2),
    decreases entries.len(),
{
    let key = (e.0@, e.1);
    let after = entries.update(i, e);
    if i == entries.len() - 1 {
        assert(after.drop_last() =~= entries.drop_last());
        assert(stream_map(after) =~= stream_map(entries).insert(key, e.2));
    } else {
        let last = entries.last();
        lemma_stream_replaced(entries.drop_last(), i, e);
        assert(after.drop_last() =~= entries.drop_last().update(i, e));
        assert(entries[entries.len() - 1] == last);
        assert((last.0@, last.1) != key);
        assert(stream_map(after) =~= stream_map(entries).insert(key, e.2));
    }
}

proof fn lemma_stream_absent(entries: Seq<(PeerId, SentStream, u64)>, key: (Seq<u8>, SentStream))
    requires
        forall|k: int| 0 <= k < entries.len() ==> ((#[trigger] entries[k]).0@, entries[k].1) != key,
    ensures
        !stream_map(entries).contains_key(key),
    decreases entries.len(),
{
    if entries.len() > 0 {
        let front = entries.drop_last();
        assert forall|k: int| 0 <= k < front.len() implies ((#[trigger] front[k]).0@, front[k].1)
            != key by {
            assert(front[k] == entries[k]);
        }
        lemma_stream_absent(front, key);
        let last = entries[entries.len() - 1];
        assert((last.0@, last.1) != key);
    }
}

impl ActiveStreams {
    pub fn new() -> (r: ActiveStreams)
        ensures
            r@ == Map::<(Seq<u8>, SentStream), u64>::empty(),
    {
        ActiveStreams { entries: Vec::new() }
    }

    /// A task begins to send a stream to a viewer. The result is the task that did so
    /// before: it is to be ended, or two would send at once.
    pub fn replace(&mut self, peer: &PeerId, stream: SentStream, task: u64) -> (r: Option<u64>)
        ensures
            final(self)@ == old(self)@.insert((peer@, stream), task),
            r == if old(self)@.contains_key((peer@, stream)) {
                Some(old(self)@[(peer@, stream)])
            } else {
                None
            },
    {
        let ghost all = self.entries@;
        let mut n: usize = self.entries.len();
        while n > 0
            invariant
                n <= self.entries@.len(),
                self.entries@ == all,
                all == old(self).entries@,
                forall|k: int|
                    n <= k < all.len() ==> ((#[trigger] all[k]).0@, all[k].1) != (peer@, stream),
            decreases n,
        {
            n -= 1;
            if self.entries[n].1 == stream && self.entries[n].0.same(peer) {
                let before: u64 = self.entries[n].2;
                let entry = (peer.clone(), stream, task);
                proof {
                    lemma_stream_replaced(all, n as int, entry);
                }
                self.entries.set(n, entry);
                return Some(before);
            }
        }
        proof {
            lemma_stream_absent(all, (peer@, stream));
        }
        self.entries.push((peer.clone(), stream, task));
        assert(self.entries@.drop_last() =~= all);
        None
    }
}

/// How a viewer is connected is told by its address: behind a circuit through a relay,
/// else by QUIC directly, in the local network where an IPv4 address is private.
pub proof fn law_connection_is_told(addr: Seq<Part>)
    ensures
        addr.contains(Part::P2pCircuit) ==> connection_text(addr) == "Relay Circuit (转发)"@,
        !addr.contains(Part::P2pCircuit) && !addr.contains(Part::QuicV1) ==> connection_text(addr)
            == "Other"@,
        !addr.contains(Part::P2pCircuit) && addr.contains(Part::QuicV1) ==> connection_text(addr)
            == if exists|ip: Ipv4| addr.contains(Part::Ip4(ip)) && ip.private() {
            "LAN Direct (局域网直连)"@
        } else {
            "DCUtR Hole Punch (打洞直连)"@
        },
{
    law_parts_of_an_address(addr, Part::P2pCircuit);
    law_parts_of_an_address(addr, Part::QuicV1);
}

/// The camera listens on all addresses of IPv4: with QUIC on its port, or any where none
/// is set, with TCP on any.
pub proof fn law_camera_listens(udp_port: Option<u16>)
    ensures
        camera_listen_list(udp_port).len() == 2,
        camera_listen_list(udp_port)[0] == seq![
            Part::Ip4(Ipv4 { a: 0, b: 0, c: 0, d: 0 }),
            Part::Udp(
                if udp_port is Some {
                    udp_port->0
                } else {
                    0
                },
            ),
            Part::QuicV1,
        ],
        camera_listen_list(udp_port)[1] == seq![
            Part::Ip4(Ipv4 { a: 0, b: 0, c: 0, d: 0 }),
            Part::Tcp(0),
        ],
{
}

/// Failures to punch a hole are counted for each peer apart, from zero.
pub proof fn law_failures_counted_apart(
    counts: Map<Seq<u8>, u32>,
    peer: Seq<u8>,
    other: Seq<u8>,
    n: u32,
)
    requires
        other != peer,
    ensures
        failures_with(Map::<Seq<u8>, u32>::empty(), peer) == 0,
        failures_with(counts.insert(peer, n), peer) == n,
        failures_with(counts.insert(peer, n), other) == failures_with(counts, other),
{
}

} // verus!
