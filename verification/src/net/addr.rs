//! Network addresses: IP addresses and the parts of a multiaddress.

use vstd::prelude::*;

use crate::text::bytes_eq;

verus! {

/// An IPv4 address, by its octets.
#[derive(Debug, Clone, Copy, PartialEq, Eq, Structural)]
pub struct Ipv4 {
    pub a: u8,
    pub b: u8,
    pub c: u8,
    pub d: u8,
}

impl Ipv4 {
    /// 10.0.0.0/8, 172.16.0.0/12 or 192.168.0.0/16.
    pub open spec fn private(self) -> bool {
        self.a == 10 || (self.a == 172 && 16 <= self.b <= 31) || (self.a == 192 && self.b == 168)
    }

    /// 127.0.0.0/8.
    pub open spec fn loopback(self) -> bool {
        self.a == 127
    }

    /// 169.254.0.0/16.
    pub open spec fn link_local(self) -> bool {
        self.a == 169 && self.b == 254
    }

    /// 0.0.0.0.
    pub open spec fn unspecified(self) -> bool {
        self.a == 0 && self.b == 0 && self.c == 0 && self.d == 0
    }

    pub fn is_private(self) -> (r: bool)
        ensures
            r == self.private(),
    {
        self.a == 10 || (self.a == 172 && 16 <= self.b && self.b <= 31) || (self.a == 192 && self.b
            == 168)
    }

    pub fn is_loopback(self) -> (r: bool)
        ensures
            r == self.loopback(),
    {
        self.a == 127
    }

    pub fn is_link_local(self) -> (r: bool)
        ensures
            r == self.link_local(),
    {
        self.a == 169 && self.b == 254
    }

    pub fn is_unspecified(self) -> (r: bool)
        ensures
            r == self.unspecified(),
    {
        self.a == 0 && self.b == 0 && self.c == 0 && self.d == 0
    }
}

impl Ipv4 {
    pub fn from_octets(o: [u8; 4]) -> (r: Ipv4)
        ensures
            r == (Ipv4 { a: o@[0], b: o@[1], c: o@[2], d: o@[3] }),
    {
        Ipv4 { a: o[0], b: o[1], c: o[2], d: o[3] }
    }
}

/// An IPv6 address, by its 16-bit segments.
#[derive(Debug, Clone, Copy, PartialEq, Eq, Structural)]
pub struct Ipv6 {
    pub s0: u16,
    pub s1: u16,
    pub s2: u16,
    pub s3: u16,
    pub s4: u16,
    pub s5: u16,
    pub s6: u16,
    pub s7: u16,
}

impl Ipv6 {
    /// fc00::/7.
    pub open spec fn unique_local(self) -> bool {
        0xfc00 <= self.s0 <= 0xfdff
    }

    /// fe80::/10.
    pub open spec fn link_local(self) -> bool {
        0xfe80 <= self.s0 <= 0xfebf
    }

    /// All segments but the last are zero.
    pub open spec fn ends_in(self, last: u16) -> bool {
        self == (Ipv6 { s0: 0, s1: 0, s2: 0, s3: 0, s4: 0, s5: 0, s6: 0, s7: last })
    }

    pub fn is_unique_local(self) -> (r: bool)
        ensures
            r == self.unique_local(),
    {
        0xfc00 <= self.s0 && self.s0 <= 0xfdff
    }

    pub fn is_link_local(self) -> (r: bool)
        ensures
            r == self.link_local(),
    {
        0xfe80 <= self.s0 && self.s0 <= 0xfebf
    }

    /// ::1.
    pub fn is_loopback(self) -> (r: bool)
        ensures
            r == self.ends_in(1),
    {
        self == Ipv6 { s0: 0, s1: 0, s2: 0, s3: 0, s4: 0, s5: 0, s6: 0, s7: 1 }
    }

    /// The address of no host: all zero.
    pub fn is_unspecified(self) -> (r: bool)
        ensures
            r == self.ends_in(0),
    {
        self == Ipv6 { s0: 0, s1: 0, s2: 0, s3: 0, s4: 0, s5: 0, s6: 0, s7: 0 }
    }
}

impl Ipv6 {
    pub fn from_segments(s: [u16; 8]) -> (r: Ipv6)
        ensures
            r == (Ipv6 {
                s0: s@[0],
                s1: s@[1],
                s2: s@[2],
                s3: s@[3],
                s4: s@[4],
                s5: s@[5],
                s6: s@[6],
                s7: s@[7],
            }),
    {
        Ipv6 {
            s0: s[0],
            s1: s[1],
            s2: s[2],
            s3: s[3],
            s4: s[4],
            s5: s[5],
            s6: s[6],
            s7: s[7],
        }
    }
}

/// The identity of a peer, by the bytes of its multihash.
#[derive(Debug)]
pub struct PeerId {
    pub bytes: Vec<u8>,
}

impl View for PeerId {
    type V = Seq<u8>;

    open spec fn view(&self) -> Seq<u8> {
        self.bytes@
    }
}

impl Clone for PeerId {
    fn clone(&self) -> (r: PeerId)
        ensures
            r@ == self@,
    {
        PeerId { bytes: vstd::slice::slice_to_vec(self.bytes.as_slice()) }
    }
}

impl PeerId {
    /// Whether both are the same peer.
    pub fn same(&self, other: &PeerId) -> (r: bool)
        ensures
            r == (self@ == other@),
    {
        bytes_eq(self.bytes.as_slice(), other.bytes.as_slice())
    }
}

/// One part of an address.
#[derive(Debug)]
pub enum Protocol {
    Ip4(Ipv4),
    Ip6(Ipv6),
    Tcp(u16),
    Udp(u16),
    QuicV1,
    P2pCircuit,
    P2p(PeerId),
    /// Any other part, in its binary form.
    Other(Vec<u8>),
}

/// One part of an address, with sequences for vectors.
pub enum Part {
    Ip4(Ipv4),
    Ip6(Ipv6),
    Tcp(u16),
    Udp(u16),
    QuicV1,
    P2pCircuit,
    P2p(Seq<u8>),
    Other(Seq<u8>),
}

impl View for Protocol {
    type V = Part;

    open spec fn view(&self) -> Part {
        match self {
            Protocol::Ip4(ip) => Part::Ip4(*ip),
            Protocol::Ip6(ip) => Part::Ip6(*ip),
            Protocol::Tcp(port) => Part::Tcp(*port),
            Protocol::Udp(port) => Part::Udp(*port),
            Protocol::QuicV1 => Part::QuicV1,
            Protocol::P2pCircuit => Part::P2pCircuit,
            Protocol::P2p(peer) => Part::P2p(peer@),
            Protocol::Other(bytes) => Part::Other(bytes@),
        }
    }
}

impl Clone for Protocol {
    fn clone(&self) -> (r: Protocol)
        ensures
            r@ == self@,
    {
        match self {
            Protocol::Ip4(ip) => Protocol::Ip4(*ip),
            Protocol::Ip6(ip) => Protocol::Ip6(*ip),
            Protocol::Tcp(port) => Protocol::Tcp(*port),
            Protocol::Udp(port) => Protocol::Udp(*port),
            Protocol::QuicV1 => Protocol::QuicV1,
            Protocol::P2pCircuit => Protocol::P2pCircuit,
            Protocol::P2p(peer) => Protocol::P2p(peer.clone()),
            Protocol::Other(bytes) => Protocol::Other(vstd::slice::slice_to_vec(bytes.as_slice())),
        }
    }
}

/// An address: a path of parts.
#[derive(Debug)]
pub struct Multiaddr {
    pub parts: Vec<Protocol>,
}

impl View for Multiaddr {
    type V = Seq<Part>;

    open spec fn view(&self) -> Seq<Part> {
        self.parts@.map_values(|p: Protocol| p@)
    }
}

impl Clone for Multiaddr {
    fn clone(&self) -> (r: Multiaddr)
        ensures
            r@ == self@,
    {
        let mut parts: Vec<Protocol> = Vec::new();
        let mut i: usize = 0;
        while i < self.parts.len()
            invariant
                i <= self.parts@.len(),
                parts@.len() == i,
                forall|k: int| 0 <= k < i ==> parts@[k]@ == self.parts@[k]@,
            decreases self.parts@.len() - i,
        {
            parts.push(self.parts[i].clone());
            i += 1;
        }
        let r = Multiaddr { parts };
        assert(r@ =~= self@);
        r
    }
}

/// The views of a list of addresses.
pub open spec fn addr_views(addrs: Seq<Multiaddr>) -> Seq<Seq<Part>> {
    addrs.map_values(|a: Multiaddr| a@)
}

/// A copy of a list of addresses.
pub fn clone_addrs(addrs: &Vec<Multiaddr>) -> (r: Vec<Multiaddr>)
    ensures
        addr_views(r@) == addr_views(addrs@),
{
    let mut out: Vec<Multiaddr> = Vec::new();
    let mut i: usize = 0;
    while i < addrs.len()
        invariant
            i <= addrs@.len(),
            out@.len() == i,
            forall|k: int| 0 <= k < i ==> out@[k]@ == addrs@[k]@,
        decreases addrs@.len() - i,
    {
        out.push(addrs[i].clone());
        i += 1;
    }
    assert(addr_views(out@) =~= addr_views(addrs@));
    out
}

/// Whether some part is `part`.
pub open spec fn has_part(addr: Seq<Part>, part: Part) -> bool {
    exists|i: int| 0 <= i < addr.len() && addr[i] == part
}

/// Whether some part is a TCP port.
pub open spec fn has_tcp(addr: Seq<Part>) -> bool {
    exists|i: int| 0 <= i < addr.len() && #[trigger] addr[i] is Tcp
}

/// Whether some part is an IPv6 address.
pub open spec fn has_ip6(addr: Seq<Part>) -> bool {
    exists|i: int| 0 <= i < addr.len() && #[trigger] addr[i] is Ip6
}

/// Whether some part is a private IPv4 address.
pub open spec fn has_private_ip4(addr: Seq<Part>) -> bool {
    exists|i: int| 0 <= i < addr.len() && (#[trigger] addr[i] matches Part::Ip4(ip) && ip.private())
}

/// The first IPv4 address.
pub open spec fn first_ip4(addr: Seq<Part>) -> Option<Ipv4>
    decreases addr.len(),
{
    if addr.len() == 0 {
        None
    } else if let Part::Ip4(ip) = addr[0] {
        Some(ip)
    } else {
        first_ip4(addr.skip(1))
    }
}

/// The first UDP port.
pub open spec fn first_udp(addr: Seq<Part>) -> Option<u16>
    decreases addr.len(),
{
    if addr.len() == 0 {
        None
    } else if let Part::Udp(port) = addr[0] {
        Some(port)
    } else {
        first_udp(addr.skip(1))
    }
}

/// The first peer id.
pub open spec fn first_peer(addr: Seq<Part>) -> Option<Seq<u8>>
    decreases addr.len(),
{
    if addr.len() == 0 {
        None
    } else if let Part::P2p(peer) = addr[0] {
        Some(peer)
    } else {
        first_peer(addr.skip(1))
    }
}

/// The IPv4 address of every interface.
pub open spec fn any_v4() -> Part {
    Part::Ip4(Ipv4 { a: 0, b: 0, c: 0, d: 0 })
}

/// A TCP port at an IP address.
pub open spec fn tcp_at(ip: Part, port: u16) -> Seq<Part> {
    seq![ip, Part::Tcp(port)]
}

/// QUIC on a UDP port at an IP address.
pub open spec fn quic_at(ip: Part, port: u16) -> Seq<Part> {
    seq![ip, Part::Udp(port), Part::QuicV1]
}

/// The address of a TCP port at an IP address.
pub fn tcp_addr(ip: Protocol, port: u16) -> (r: Multiaddr)
    ensures
        r@ == tcp_at(ip@, port),
{
    let r = Multiaddr::empty().with(ip).with(Protocol::Tcp(port));
    assert(r@ =~= tcp_at(ip@, port));
    r
}

/// The address of QUIC on a UDP port at an IP address.
pub fn quic_addr(ip: Protocol, port: u16) -> (r: Multiaddr)
    ensures
        r@ == quic_at(ip@, port),
{
    let r = Multiaddr::empty().with(ip).with(Protocol::Udp(port)).with(Protocol::QuicV1);
    assert(r@ =~= quic_at(ip@, port));
    r
}

impl Multiaddr {
    /// The address with no parts.
    pub fn empty() -> (r: Multiaddr)
        ensures
            r@ == Seq::<Part>::empty(),
    {
        let r = Multiaddr { parts: Vec::new() };
        assert(r@ =~= Seq::<Part>::empty());
        r
    }

    /// The address with one more part.
    pub fn with(self, part: Protocol) -> (r: Multiaddr)
        ensures
            r@ == self@.push(part@),
    {
        let mut parts = self.parts;
        parts.push(part);
        let r = Multiaddr { parts };
        assert(r@ =~= self@.push(part@));
        r
    }

    pub fn has_quic(&self) -> (r: bool)
        ensures
            r == has_part(self@, Part::QuicV1),
    {
        let mut i: usize = 0;
        while i < self.parts.len()
            invariant
                i <= self.parts@.len(),
                forall|k: int| 0 <= k < i ==> self@[k] != Part::QuicV1,
            decreases self.parts@.len() - i,
        {
            if let Protocol::QuicV1 = &self.parts[i] {
                assert(self@[i as int] == Part::QuicV1);
                return true;
            }
            i += 1;
        }
        false
    }

    pub fn has_circuit(&self) -> (r: bool)
        ensures
            r == has_part(self@, Part::P2pCircuit),
    {
        let mut i: usize = 0;
        while i < self.parts.len()
            invariant
                i <= self.parts@.len(),
                forall|k: int| 0 <= k < i ==> self@[k] != Part::P2pCircuit,
            decreases self.parts@.len() - i,
        {
            if let Protocol::P2pCircuit = &self.parts[i] {
                assert(self@[i as int] == Part::P2pCircuit);
                return true;
            }
            i += 1;
        }
        false
    }

    pub fn has_tcp(&self) -> (r: bool)
        ensures
            r == has_tcp(self@),
    {
        let mut i: usize = 0;
        while i < self.parts.len()
            invariant
                i <= self.parts@.len(),
                forall|k: int| 0 <= k < i ==> !(self@[k] is Tcp),
            decreases self.parts@.len() - i,
        {
            if let Protocol::Tcp(_) = &self.parts[i] {
                assert(self@[i as int] is Tcp);
                return true;
            }
            i += 1;
        }
        false
    }

    pub fn has_ip6(&self) -> (r: bool)
        ensures
            r == has_ip6(self@),
    {
        let mut i: usize = 0;
        while i < self.parts.len()
            invariant
                i <= self.parts@.len(),
                forall|k: int| 0 <= k < i ==> !(self@[k] is Ip6),
            decreases self.parts@.len() - i,
        {
            if let Protocol::Ip6(_) = &self.parts[i] {
                assert(self@[i as int] is Ip6);
                return true;
            }
            i += 1;
        }
        false
    }

    pub fn has_private_ip4(&self) -> (r: bool)
        ensures
            r == has_private_ip4(self@),
    {
        let mut i: usize = 0;
        while i < self.parts.len()
            invariant
                i <= self.parts@.len(),
                forall|k: int|
                    0 <= k < i ==> !(#[trigger] self@[k] matches Part::Ip4(ip) && ip.private()),
            decreases self.parts@.len() - i,
        {
            if let Protocol::Ip4(ip) = &self.parts[i] {
                if ip.is_private() {
                    assert(self@[i as int] matches Part::Ip4(p) && p.private());
                    return true;
                }
            }
            i += 1;
        }
        false
    }

    /// Whether the address names this peer.
    pub fn has_peer(&self, peer: &PeerId) -> (r: bool)
        ensures
            r == has_part(self@, Part::P2p(peer@)),
    {
        let mut i: usize = 0;
        while i < self.parts.len()
            invariant
                i <= self.parts@.len(),
                forall|k: int| 0 <= k < i ==> self@[k] != Part::P2p(peer@),
            decreases self.parts@.len() - i,
        {
            if let Protocol::P2p(p) = &self.parts[i] {
                if p.same(peer) {
                    assert(self@[i as int] == Part::P2p(peer@));
                    return true;
                }
            }
            i += 1;
        }
        false
    }

    pub fn first_ip4(&self) -> (r: Option<Ipv4>)
        ensures
            r == first_ip4(self@),
    {
        let mut i: usize = 0;
        assert(self@.skip(0) =~= self@);
        while i < self.parts.len()
            invariant
                i <= self.parts@.len(),
                first_ip4(self@) == first_ip4(self@.skip(i as int)),
            decreases self.parts@.len() - i,
        {
            assert(self@.skip(i as int)[0] == self.parts@[i as int]@);
            assert(self@.skip(i as int).skip(1) =~= self@.skip(i + 1));
            if let Protocol::Ip4(ip) = &self.parts[i] {
                return Some(*ip);
            }
            i += 1;
        }
        None
    }

    pub fn first_udp(&self) -> (r: Option<u16>)
        ensures
            r == first_udp(self@),
    {
        let mut i: usize = 0;
        assert(self@.skip(0) =~= self@);
        while i < self.parts.len()
            invariant
                i <= self.parts@.len(),
                first_udp(self@) == first_udp(self@.skip(i as int)),
            decreases self.parts@.len() - i,
        {
            assert(self@.skip(i as int)[0] == self.parts@[i as int]@);
            assert(self@.skip(i as int).skip(1) =~= self@.skip(i + 1));
            if let Protocol::Udp(port) = &self.parts[i] {
                return Some(*port);
            }
            i += 1;
        }
        None
    }

    pub fn first_peer(&self) -> (r: Option<PeerId>)
        ensures
            match first_peer(self@) {
                Some(p) => r matches Some(q) && q@ == p,
                None => r is None,
            },
    {
        let mut i: usize = 0;
        assert(self@.skip(0) =~= self@);
        while i < self.parts.len()
            invariant
                i <= self.parts@.len(),
                first_peer(self@) == first_peer(self@.skip(i as int)),
            decreases self.parts@.len() - i,
        {
            assert(self@.skip(i as int)[0] == self.parts@[i as int]@);
            assert(self@.skip(i as int).skip(1) =~= self@.skip(i + 1));
            if let Protocol::P2p(peer) = &self.parts[i] {
                return Some(peer.clone());
            }
            i += 1;
        }
        None
    }
}

/// The private ranges are 10.0.0.0/8, 172.16.0.0/12 and 192.168.0.0/16, loopback is
/// 127.0.0.0/8, link-local is 169.254.0.0/16, and only 0.0.0.0 is unspecified: said of
/// the address as one number.
pub proof fn law_ip4_ranges(ip: Ipv4)
    ensures
        ({
            let n = ip.a * 0x100_0000 + ip.b * 0x1_0000 + ip.c * 0x100 + ip.d;
            &&& ip.private() <==> (0x0a00_0000 <= n <= 0x0aff_ffff || 0xac10_0000 <= n
                <= 0xac1f_ffff || 0xc0a8_0000 <= n <= 0xc0a8_ffff)
            &&& ip.loopback() <==> 0x7f00_0000 <= n <= 0x7fff_ffff
            &&& ip.link_local() <==> 0xa9fe_0000 <= n <= 0xa9fe_ffff
            &&& ip.unspecified() <==> n == 0
        }),
{
}

/// The unique local range of IPv6 is fc00::/7 and the link-local one is fe80::/10: said
/// of the highest bits of the first segment.
pub proof fn law_ip6_ranges(ip: Ipv6)
    ensures
        ip.unique_local() <==> ip.s0 / 0x200 == 0x7e,
        ip.link_local() <==> ip.s0 / 0x40 == 0x3fa,
{
}

/// An address has a part exactly where the part is among its parts, and a private IPv4
/// address exactly where a private one is.
pub proof fn law_parts_of_an_address(addr: Seq<Part>, part: Part)
    ensures
        has_part(addr, part) <==> addr.contains(part),
        has_tcp(addr) <==> exists|port: u16| addr.contains(Part::Tcp(port)),
        has_ip6(addr) <==> exists|ip: Ipv6| addr.contains(Part::Ip6(ip)),
        has_private_ip4(addr) <==> exists|ip: Ipv4| addr.contains(Part::Ip4(ip)) && ip.private(),
{
    if has_tcp(addr) {
        let i = choose|i: int| 0 <= i < addr.len() && #[trigger] addr[i] is Tcp;
        assert(addr.contains(Part::Tcp(addr[i]->Tcp_0)));
    }
    if has_ip6(addr) {
        let i = choose|i: int| 0 <= i < addr.len() && #[trigger] addr[i] is Ip6;
        assert(addr.contains(Part::Ip6(addr[i]->Ip6_0)));
    }
    if has_private_ip4(addr) {
        let i = choose|i: int|
            0 <= i < addr.len() && (#[trigger] addr[i] matches Part::Ip4(ip) && ip.private());
        assert(addr.contains(Part::Ip4(addr[i]->Ip4_0)));
    }
    if exists|ip: Ipv4| addr.contains(Part::Ip4(ip)) && ip.private() {
        let ip = choose|ip: Ipv4| addr.contains(Part::Ip4(ip)) && ip.private();
        let i = choose|i: int| 0 <= i < addr.len() && addr[i] == Part::Ip4(ip);
        assert(addr[i] matches Part::Ip4(q) && q.private());
    }
}

/// Of several IPv4 addresses in an address the first counts.
pub proof fn law_first_ip4(addr: Seq<Part>, i: int)
    requires
        0 <= i <= addr.len(),
        forall|k: int| 0 <= k < i ==> !((#[trigger] addr[k]) is Ip4),
        i < addr.len() ==> addr[i] is Ip4,
    ensures
        first_ip4(addr) == if i < addr.len() {
            Some(addr[i]->Ip4_0)
        } else {
            None
        },
    decreases addr.len(),
{
    if i > 0 {
        assert forall|k: int| 0 <= k < i - 1 implies !((#[trigger] addr.skip(1)[k]) is Ip4) by {
            assert(addr.skip(1)[k] == addr[k + 1]);
        }
        assert(!(addr[0] is Ip4));
        law_first_ip4(addr.skip(1), i - 1);
    }
}

/// Of several UDP ports in an address the first counts.
pub proof fn law_first_udp(addr: Seq<Part>, i: int)
    requires
        0 <= i <= addr.len(),
        forall|k: int| 0 <= k < i ==> !((#[trigger] addr[k]) is Udp),
        i < addr.len() ==> addr[i] is Udp,
    ensures
        first_udp(addr) == if i < addr.len() {
            Some(addr[i]->Udp_0)
        } else {
            None
        },
    decreases addr.len(),
{
    if i > 0 {
        assert forall|k: int| 0 <= k < i - 1 implies !((#[trigger] addr.skip(1)[k]) is Udp) by {
            assert(addr.skip(1)[k] == addr[k + 1]);
        }
        assert(!(addr[0] is Udp));
        law_first_udp(addr.skip(1), i - 1);
    }
}

/// Of several peers in an address the first counts.
pub proof fn law_first_peer(addr: Seq<Part>, i: int)
    requires
        0 <= i <= addr.len(),
        forall|k: int| 0 <= k < i ==> !((#[trigger] addr[k]) is P2p),
        i < addr.len() ==> addr[i] is P2p,
    ensures
        first_peer(addr) == if i < addr.len() {
            Some(addr[i]->P2p_0)
        } else {
            None
        },
    decreases addr.len(),
{
    if i > 0 {
        assert forall|k: int| 0 <= k < i - 1 implies !((#[trigger] addr.skip(1)[k]) is P2p) by {
            assert(addr.skip(1)[k] == addr[k + 1]);
        }
        assert(!(addr[0] is P2p));
        law_first_peer(addr.skip(1), i - 1);
    }
}

/// An address of TCP is an IP address and a port, one of QUIC an IP address, a UDP port
/// and the mark of QUIC, in this order.
pub proof fn law_socket_addresses(ip: Part, port: u16)
    ensures
        tcp_at(ip, port).len() == 2,
        tcp_at(ip, port)[0] == ip,
        tcp_at(ip, port)[1] == Part::Tcp(port),
        quic_at(ip, port).len() == 3,
        quic_at(ip, port)[0] == ip,
        quic_at(ip, port)[1] == Part::Udp(port),
        quic_at(ip, port)[2] == Part::QuicV1,
        any_v4() matches Part::Ip4(any) && any.a == 0 && any.b == 0 && any.c == 0 && any.d == 0,
{
}

} // verus!
