//! What the relay listens on and which addresses it tells peers of.

use vstd::prelude::*;

use crate::net::addr::{
    addr_views, any_v4, has_ip6, quic_addr, quic_at, tcp_addr, tcp_at, Ipv4, Ipv6, Multiaddr, Part,
    Protocol,
};
use crate::text::{decimal, push_decimal};

verus! {

broadcast use vstd::string::group_string_axioms;

/// An IP address of either family.
#[derive(Debug, Clone, Copy, PartialEq, Eq, Structural)]
pub enum IpAddress {
    V4(Ipv4),
    V6(Ipv6),
}

/// The IPv6 address of every interface.
pub open spec fn any_v6() -> Part {
    Part::Ip6(Ipv6 { s0: 0, s1: 0, s2: 0, s3: 0, s4: 0, s5: 0, s6: 0, s7: 0 })
}

/// What the relay listens on: TCP and QUIC over IPv4 in any case, and over IPv6 if
/// that is switched on. A socket for IPv6 takes no IPv4 connections, so each family
/// has its own.
pub open spec fn listen_list(port: u16, use_ipv6: bool) -> Seq<Seq<Part>> {
    if use_ipv6 {
        seq![
            tcp_at(any_v4(), port),
            quic_at(any_v4(), port),
            tcp_at(any_v6(), port),
            quic_at(any_v6(), port),
        ]
    } else {
        seq![tcp_at(any_v4(), port), quic_at(any_v4(), port)]
    }
}

/// The addresses to listen on.
pub fn listen_addresses(port: u16, use_ipv6: bool) -> (r: Vec<Multiaddr>)
    ensures
        addr_views(r@) == listen_list(port, use_ipv6),
{
    let v4 = Ipv4 { a: 0, b: 0, c: 0, d: 0 };
    let v6 = Ipv6 { s0: 0, s1: 0, s2: 0, s3: 0, s4: 0, s5: 0, s6: 0, s7: 0 };
    let mut addrs: Vec<Multiaddr> = Vec::new();
    addrs.push(tcp_addr(Protocol::Ip4(v4), port));
    addrs.push(quic_addr(Protocol::Ip4(v4), port));
    if use_ipv6 {
        addrs.push(tcp_addr(Protocol::Ip6(v6), port));
        addrs.push(quic_addr(Protocol::Ip6(v6), port));
    }
    assert(addr_views(addrs@) =~= listen_list(port, use_ipv6));
    addrs
}

/// Whether the relay gives up where it cannot listen on an address. IPv6 may be
/// missing on the host, so only IPv4 is needed.
pub fn listen_failure_is_fatal(addr: &Multiaddr) -> (r: bool)
    ensures
        r == !has_ip6(addr@),
{
    !addr.has_ip6()
}

/// Why the public addresses are refused, and which of them.
#[derive(Debug, Clone, Copy, PartialEq, Eq, Structural)]
pub enum PublicIpError {
    /// The entry is no IP address.
    Invalid(usize),
    /// The entry is no public address.
    NotPublic(usize),
}

/// Whether an address is reachable from outside: not private or unique local, not
/// link local, not loopback and not unspecified.
pub open spec fn is_public(ip: IpAddress) -> bool {
    match ip {
        IpAddress::V4(v4) => !(v4.private() || v4.loopback() || v4.link_local()
            || v4.unspecified()),
        IpAddress::V6(v6) => !(v6.unique_local() || v6.link_local() || v6.ends_in(1) || v6.ends_in(
            0,
        )),
    }
}

/// The part that stands for an IP address.
pub open spec fn ip_part(ip: IpAddress) -> Part {
    match ip {
        IpAddress::V4(v4) => Part::Ip4(v4),
        IpAddress::V6(v6) => Part::Ip6(v6),
    }
}

/// What is wrong with one entry.
pub open spec fn entry_error(entry: Option<IpAddress>, index: int) -> Option<PublicIpError> {
    match entry {
        None => Some(PublicIpError::Invalid(index as usize)),
        Some(ip) => if is_public(ip) {
            None
        } else {
            Some(PublicIpError::NotPublic(index as usize))
        },
    }
}

/// What is wrong with the first entry that is wrong.
pub open spec fn first_error(entries: Seq<Option<IpAddress>>) -> Option<PublicIpError>
    decreases entries.len(),
{
    if entries.len() == 0 {
        None
    } else {
        match first_error(entries.drop_last()) {
            Some(e) => Some(e),
            None => entry_error(entries.last(), entries.len() - 1),
        }
    }
}

/// TCP and QUIC addresses for each entry, in order.
pub open spec fn external_list(entries: Seq<Option<IpAddress>>, port: u16) -> Seq<Seq<Part>>
    decreases entries.len(),
{
    if entries.len() == 0 {
        seq![]
    } else {
        let ip = ip_part(entries.last()->0);
        external_list(entries.drop_last(), port).push(tcp_at(ip, port)).push(quic_at(ip, port))
    }
}

/// Whether an IPv6 address is among the entries.
pub open spec fn any_entry_v6(entries: Seq<Option<IpAddress>>) -> bool {
    exists|i: int| 0 <= i < entries.len() && #[trigger] entries[i] matches Some(IpAddress::V6(_))
}

fn public_address(ip: IpAddress) -> (r: bool)
    ensures
        r == is_public(ip),
{
    match ip {
        IpAddress::V4(v4) => !(v4.is_private() || v4.is_loopback() || v4.is_link_local()
            || v4.is_unspecified()),
        IpAddress::V6(v6) => !(v6.is_unique_local() || v6.is_link_local() || v6.is_loopback()
            || v6.is_unspecified()),
    }
}

/// The addresses to tell peers of.
#[derive(Debug)]
pub struct ExternalAddresses {
    pub addrs: Vec<Multiaddr>,
    /// An IPv6 address is told of, though the relay does not listen on IPv6.
    pub ipv6_not_listening: bool,
}

/// The addresses to tell peers of, from the public addresses in the settings. An
/// entry is what its text was read as. The first entry that is no public address
/// stops the relay.
pub fn external_addresses(entries: &Vec<Option<IpAddress>>, port: u16, use_ipv6: bool) -> (r:
    Result<ExternalAddresses, PublicIpError>)
    ensures
        match first_error(entries@) {
            Some(e) => r == Err::<ExternalAddresses, PublicIpError>(e),
            None => r matches Ok(x) && addr_views(x.addrs@) == external_list(entries@, port)
                && x.ipv6_not_listening == (any_entry_v6(entries@) && !use_ipv6),
        },
{
    let mut addrs: Vec<Multiaddr> = Vec::new();
    let mut has_v6 = false;
    let mut i: usize = 0;
    assert(entries@.take(0) =~= seq![]);
    assert(addr_views(addrs@) =~= external_list(entries@.take(0), port));
    while i < entries.len()
        invariant
            i <= entries@.len(),
            first_error(entries@.take(i as int)) is None,
            addr_views(addrs@) == external_list(entries@.take(i as int), port),
            has_v6 == any_entry_v6(entries@.take(i as int)),
        decreases entries@.len() - i,
    {
        let ghost seen = entries@.take(i as int);
        let ghost next = entries@.take(i as int + 1);
        proof {
            assert(next.drop_last() =~= seen);
            assert forall|e: PublicIpError| first_error(next) == Some(e) implies first_error(
                entries@,
            ) == Some(e) by {
                lemma_first_error_prefix(entries@, i as int + 1);
            }
        }
        let ip = match entries[i] {
            Some(ip) => ip,
            None => {
                return Err(PublicIpError::Invalid(i));
            },
        };
        if !public_address(ip) {
            return Err(PublicIpError::NotPublic(i));
        }
        let ghost before = addrs@;
        match ip {
            IpAddress::V4(v4) => {
                addrs.push(tcp_addr(Protocol::Ip4(v4), port));
                addrs.push(quic_addr(Protocol::Ip4(v4), port));
            },
            IpAddress::V6(v6) => {
                has_v6 = true;
                addrs.push(tcp_addr(Protocol::Ip6(v6), port));
                addrs.push(quic_addr(Protocol::Ip6(v6), port));
            },
        }
        proof {
            assert(addr_views(addrs@) =~= addr_views(before).push(
                tcp_at(ip_part(ip), port),
            ).push(quic_at(ip_part(ip), port)));
            assert(next[i as int] == entries@[i as int]);
            if any_entry_v6(seen) {
                let k = choose|k: int|
                    0 <= k < seen.len() && #[trigger] seen[k] matches Some(IpAddress::V6(_));
                assert(next[k] == seen[k]);
            }
            if any_entry_v6(next) && !(ip is V6) {
                let k = choose|k: int|
                    0 <= k < next.len() && #[trigger] next[k] matches Some(IpAddress::V6(_));
                assert(next[k] == seen[k]);
            }
        }
        i += 1;
    }
    assert(entries@.take(entries@.len() as int) =~= entries@);
    Ok(ExternalAddresses { addrs, ipv6_not_listening: has_v6 && !use_ipv6 })
}

proof fn lemma_first_error_prefix(entries: Seq<Option<IpAddress>>, n: int)
    requires
        0 <= n <= entries.len(),
        first_error(entries.take(n)) is Some,
    ensures
        first_error(entries) == first_error(entries.take(n)),
    decreases entries.len(),
{
    if n == entries.len() {
        assert(entries.take(n) =~= entries);
    } else {
        assert(entries.drop_last().take(n) =~= entries.take(n));
        lemma_first_error_prefix(entries.drop_last(), n);
    }
}

/// A public address as written in the settings, for the addresses to dial.
#[derive(Debug)]
pub struct PublicIpText {
    /// Without the blanks around it.
    pub text: String,
    /// It was read as an IPv6 address.
    pub is_ipv6: bool,
}

/// The TCP address to dial.
pub open spec fn tcp_dial_text(
    family: Seq<char>,
    ip: Seq<char>,
    port: u16,
    peer: Seq<char>,
) -> Seq<char> {
    "/"@ + family + "/"@ + ip + "/tcp/"@ + decimal(port as nat) + "/p2p/"@ + peer
}

/// The QUIC address to dial.
pub open spec fn quic_dial_text(
    family: Seq<char>,
    ip: Seq<char>,
    port: u16,
    peer: Seq<char>,
) -> Seq<char> {
    "/"@ + family + "/"@ + ip + "/udp/"@ + decimal(port as nat) + "/quic-v1/p2p/"@ + peer
}

/// The name of an address family.
pub open spec fn family_text(is_ipv6: bool) -> Seq<char> {
    if is_ipv6 {
        "ip6"@
    } else {
        "ip4"@
    }
}

/// The views of a list of texts.
pub open spec fn text_views(texts: Seq<String>) -> Seq<Seq<char>> {
    texts.map_values(|t: String| t@)
}

/// TCP and QUIC addresses to dial for each public address, in order.
pub open spec fn dial_list(ips: Seq<PublicIpText>, port: u16, peer: Seq<char>) -> Seq<Seq<char>>
    decreases ips.len(),
{
    if ips.len() == 0 {
        seq![]
    } else {
        let ip = ips.last();
        dial_list(ips.drop_last(), port, peer).push(
            tcp_dial_text(family_text(ip.is_ipv6), ip.text@, port, peer),
        ).push(quic_dial_text(family_text(ip.is_ipv6), ip.text@, port, peer))
    }
}

fn tcp_dial(family: &str, ip: &str, port: u16, peer: &str) -> (r: String)
    ensures
        r@ == tcp_dial_text(family@, ip@, port, peer@),
{
    let mut s = "/".to_owned();
    s.append(family);
    s.append("/");
    s.append(ip);
    s.append("/tcp/");
    push_decimal(&mut s, port as u64);
    s.append("/p2p/");
    s.append(peer);
    s
}

fn quic_dial(family: &str, ip: &str, port: u16, peer: &str) -> (r: String)
    ensures
        r@ == quic_dial_text(family@, ip@, port, peer@),
{
    let mut s = "/".to_owned();
    s.append(family);
    s.append("/");
    s.append(ip);
    s.append("/udp/");
    push_decimal(&mut s, port as u64);
    s.append("/quic-v1/p2p/");
    s.append(peer);
    s
}

/// The addresses that clients can dial, in full. Without public addresses a
/// placeholder stands for the IP address.
pub fn dial_texts(ips: &Vec<PublicIpText>, port: u16, peer: &str) -> (r: Vec<String>)
    ensures
        text_views(r@) == if ips@.len() == 0 {
            seq![
                tcp_dial_text("ip4"@, "<PUBLIC_IP>"@, port, peer@),
                quic_dial_text("ip4"@, "<PUBLIC_IP>"@, port, peer@),
            ]
        } else {
            dial_list(ips@, port, peer@)
        },
{
    let mut out: Vec<String> = Vec::new();
    if ips.len() == 0 {
        out.push(tcp_dial("ip4", "<PUBLIC_IP>", port, peer));
        out.push(quic_dial("ip4", "<PUBLIC_IP>", port, peer));
        assert(text_views(out@) =~= seq![
            tcp_dial_text("ip4"@, "<PUBLIC_IP>"@, port, peer@),
            quic_dial_text("ip4"@, "<PUBLIC_IP>"@, port, peer@),
        ]);
        return out;
    }
    let mut i: usize = 0;
    assert(ips@.take(0) =~= seq![]);
    assert(text_views(out@) =~= dial_list(ips@.take(0), port, peer@));
    while i < ips.len()
        invariant
            i <= ips@.len(),
            text_views(out@) == dial_list(ips@.take(i as int), port, peer@),
        decreases ips@.len() - i,
    {
        let ghost before = out@;
        let ip = &ips[i];
        let family = if ip.is_ipv6 {
            "ip6"
        } else {
            "ip4"
        };
        out.push(tcp_dial(family, ip.text.as_str(), port, peer));
        out.push(quic_dial(family, ip.text.as_str(), port, peer));
        proof {
            let next = ips@.take(i as int + 1);
            assert(next.drop_last() =~= ips@.take(i as int));
            assert(text_views(out@) =~= text_views(before).push(
                tcp_dial_text(family@, ip.text@, port, peer@),
            ).push(quic_dial_text(family@, ip.text@, port, peer@)));
        }
        i += 1;
    }
    assert(ips@.take(ips@.len() as int) =~= ips@);
    out
}

/// IPv4 is listened on, over TCP and over QUIC, whether or not IPv6 is.
pub proof fn law_ipv4_always_listens(port: u16, use_ipv6: bool)
    ensures
        listen_list(port, use_ipv6).contains(tcp_at(any_v4(), port)),
        listen_list(port, use_ipv6).contains(quic_at(any_v4(), port)),
{
    assert(listen_list(port, use_ipv6)[0] == tcp_at(any_v4(), port));
    assert(listen_list(port, use_ipv6)[1] == quic_at(any_v4(), port));
}

/// Only public addresses are ever told of: with any other entry the relay does not
/// start.
pub proof fn law_external_addresses_public(entries: Seq<Option<IpAddress>>, i: int)
    requires
        first_error(entries) is None,
        0 <= i < entries.len(),
    ensures
        entries[i] matches Some(ip) && is_public(ip),
    decreases entries.len(),
{
    if i < entries.len() - 1 {
        law_external_addresses_public(entries.drop_last(), i);
    }
}

/// The relay listens on its port on all addresses, with TCP and with QUIC: those of IPv4,
/// and those of IPv6 behind them exactly where that is wanted.
pub proof fn law_relay_listens(port: u16, use_ipv6: bool)
    ensures
        ({
            let list = listen_list(port, use_ipv6);
            let v4 = Part::Ip4(Ipv4 { a: 0, b: 0, c: 0, d: 0 });
            let v6 = Part::Ip6(Ipv6 { s0: 0, s1: 0, s2: 0, s3: 0, s4: 0, s5: 0, s6: 0, s7: 0 });
            &&& list.len() == if use_ipv6 {
                4
            } else {
                2int
            }
            &&& list[0] == seq![v4, Part::Tcp(port)]
            &&& list[1] == seq![v4, Part::Udp(port), Part::QuicV1]
            &&& use_ipv6 ==> list[2] == seq![v6, Part::Tcp(port)] && list[3] == seq![
                v6,
                Part::Udp(port),
                Part::QuicV1,
            ]
        }),
{
}

/// An address can be told to others unless it is private, loopback, link-local or the
/// unspecified one.
pub proof fn law_public_addresses(v4: Ipv4, v6: Ipv6)
    ensures
        is_public(IpAddress::V4(v4)) <==> !v4.private() && v4.a != 127 && !(v4.a == 169 && v4.b
            == 254) && !(v4.a == 0 && v4.b == 0 && v4.c == 0 && v4.d == 0),
        is_public(IpAddress::V6(v6)) <==> v6.s0 / 0x200 != 0x7e && v6.s0 / 0x40 != 0x3fa && !(v6.s0
            == 0 && v6.s1 == 0 && v6.s2 == 0 && v6.s3 == 0 && v6.s4 == 0 && v6.s5 == 0 && v6.s6 == 0
            && v6.s7 <= 1),
{
}

/// The first entry that is no address, or none that can be told, is the error, with its
/// place; without such an entry there is none.
pub proof fn law_first_bad_entry(entries: Seq<Option<IpAddress>>, i: int)
    requires
        0 <= i <= entries.len(),
        i <= usize::MAX,
        forall|k: int|
            0 <= k < i ==> ((#[trigger] entries[k]) matches Some(ip) && is_public(ip)),
        i < entries.len() ==> !(entries[i] matches Some(ip) && is_public(ip)),
    ensures
        first_error(entries) == if i == entries.len() {
            None
        } else if entries[i] is None {
            Some(PublicIpError::Invalid(i as usize))
        } else {
            Some(PublicIpError::NotPublic(i as usize))
        },
    decreases entries.len(),
{
    if entries.len() > 0 {
        let front = entries.drop_last();
        let j = if i < front.len() {
            i
        } else {
            front.len() as int
        };
        assert forall|k: int| 0 <= k < j implies ((#[trigger] front[k]) matches Some(ip) && is_public(
            ip,
        )) by {
            assert(front[k] == entries[k]);
        }
        law_first_bad_entry(front, j);
        if i == entries.len() {
            assert(entries[entries.len() - 1] matches Some(ip) && is_public(ip));
        }
    }
}

/// For each address that is told there is one with TCP and, right behind it, one with
/// QUIC, both on the relay's port, in the order of the entries.
pub proof fn law_external_addresses(entries: Seq<Option<IpAddress>>, port: u16, i: int)
    requires
        0 <= i < entries.len(),
        entries[i] is Some,
    ensures
        external_list(entries, port).len() == 2 * entries.len(),
        ({
            let ip = match entries[i]->0 {
                IpAddress::V4(v4) => Part::Ip4(v4),
                IpAddress::V6(v6) => Part::Ip6(v6),
            };
            &&& external_list(entries, port)[2 * i] == seq![ip, Part::Tcp(port)]
            &&& external_list(entries, port)[2 * i + 1] == seq![ip, Part::Udp(port), Part::QuicV1]
        }),
    decreases entries.len(),
{
    lemma_external_len(entries.drop_last(), port);
    if i < entries.len() - 1 {
        law_external_addresses(entries.drop_last(), port, i);
    }
}

proof fn lemma_external_len(entries: Seq<Option<IpAddress>>, port: u16)
    ensures
        external_list(entries, port).len() == 2 * entries.len(),
    decreases entries.len(),
{
    if entries.len() > 0 {
        lemma_external_len(entries.drop_last(), port);
    }
}

/// What a client is told to dial: for each address one line with TCP and, right behind it,
/// one with QUIC, both with the relay's port and peer id.
pub proof fn law_dial_lines(ips: Seq<PublicIpText>, port: u16, peer: Seq<char>, i: int)
    requires
        0 <= i < ips.len(),
    ensures
        dial_list(ips, port, peer).len() == 2 * ips.len(),
        ({
            let family = if ips[i].is_ipv6 {
                "ip6"@
            } else {
                "ip4"@
            };
            &&& dial_list(ips, port, peer)[2 * i] == "/"@ + family + "/"@ + ips[i].text@ + "/tcp/"@
                + decimal(port as nat) + "/p2p/"@ + peer
            &&& dial_list(ips, port, peer)[2 * i + 1] == "/"@ + family + "/"@ + ips[i].text@
                + "/udp/"@ + decimal(port as nat) + "/quic-v1/p2p/"@ + peer
        }),
    decreases ips.len(),
{
    lemma_dial_len(ips.drop_last(), port, peer);
    if i < ips.len() - 1 {
        law_dial_lines(ips.drop_last(), port, peer, i);
    }
}

proof fn lemma_dial_len(ips: Seq<PublicIpText>, port: u16, peer: Seq<char>)
    ensures
        dial_list(ips, port, peer).len() == 2 * ips.len(),
    decreases ips.len(),
{
    if ips.len() > 0 {
        lemma_dial_len(ips.drop_last(), port, peer);
    }
}

} // verus!
