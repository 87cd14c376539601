//! Peers on the same local network.

use vstd::prelude::*;

use super::addr::{
    addr_views, first_ip4, has_part, law_parts_of_an_address, Ipv4, Multiaddr, Part,
};

verus! {

/// Whether two addresses are in the same /24 network.
pub open spec fn same_subnet(a: Ipv4, b: Ipv4) -> bool {
    a.a == b.a && a.b == b.b && a.c == b.c
}

/// Whether two addresses are in the same /24 network.
pub fn is_same_subnet(a: Ipv4, b: Ipv4) -> (r: bool)
    ensures
        r == same_subnet(a, b),
{
    a.a == b.a && a.b == b.b && a.c == b.c
}

/// Whether some local address is in the same /24 network.
pub open spec fn any_same_subnet(local_ips: Seq<Ipv4>, ip: Ipv4) -> bool {
    exists|i: int| 0 <= i < local_ips.len() && same_subnet(#[trigger] local_ips[i], ip)
}

fn in_local_subnet(local_ips: &[Ipv4], ip: Ipv4) -> (r: bool)
    ensures
        r == any_same_subnet(local_ips@, ip),
{
    let mut i: usize = 0;
    while i < local_ips.len()
        invariant
            i <= local_ips@.len(),
            forall|k: int| 0 <= k < i ==> !same_subnet(#[trigger] local_ips@[k], ip),
        decreases local_ips@.len() - i,
    {
        if is_same_subnet(local_ips[i], ip) {
            return true;
        }
        i += 1;
    }
    false
}

/// Whether an address of a peer can be reached without leaving the local network:
/// QUIC, not through a relay, at a private address in a local subnet. With
/// `unknown_is_local`, a host that knows no address of its own takes any private
/// address for local.
pub open spec fn lan_candidate(
    addr: Seq<Part>,
    local_ips: Seq<Ipv4>,
    unknown_is_local: bool,
) -> bool {
    &&& has_part(addr, Part::QuicV1)
    &&& !has_part(addr, Part::P2pCircuit)
    &&& first_ip4(addr) matches Some(ip) && ip.private() && ((unknown_is_local
        && local_ips.len() == 0) || any_same_subnet(local_ips, ip))
}

/// The addresses of a peer that can be reached without leaving the local network.
pub open spec fn lan_list(
    listen: Seq<Seq<Part>>,
    local_ips: Seq<Ipv4>,
    unknown_is_local: bool,
) -> Seq<Seq<Part>>
    decreases listen.len(),
{
    if listen.len() == 0 {
        seq![]
    } else {
        let before = lan_list(listen.drop_last(), local_ips, unknown_is_local);
        if lan_candidate(listen.last(), local_ips, unknown_is_local) {
            before.push(listen.last())
        } else {
            before
        }
    }
}

fn is_lan_candidate(addr: &Multiaddr, local_ips: &[Ipv4], unknown_is_local: bool) -> (r: bool)
    ensures
        r == lan_candidate(addr@, local_ips@, unknown_is_local),
{
    if !addr.has_quic() || addr.has_circuit() {
        return false;
    }
    match addr.first_ip4() {
        Some(ip) => ip.is_private() && !ip.is_loopback() && ((unknown_is_local && local_ips.len()
            == 0) || in_local_subnet(local_ips, ip)),
        None => false,
    }
}

/// The addresses of a peer that can be reached without leaving the local network.
pub fn lan_addresses(listen: &Vec<Multiaddr>, local_ips: &[Ipv4], unknown_is_local: bool) -> (r:
    Vec<Multiaddr>)
    ensures
        addr_views(r@) == lan_list(addr_views(listen@), local_ips@, unknown_is_local),
{
    let mut out: Vec<Multiaddr> = Vec::new();
    let ghost views = addr_views(listen@);
    let mut i: usize = 0;
    assert(views.take(0) =~= seq![]);
    assert(addr_views(out@) =~= lan_list(views.take(0), local_ips@, unknown_is_local));
    while i < listen.len()
        invariant
            i <= listen@.len(),
            views == addr_views(listen@),
            addr_views(out@) == lan_list(views.take(i as int), local_ips@, unknown_is_local),
        decreases listen@.len() - i,
    {
        let ghost before = out@;
        proof {
            assert(views.take(i as int + 1).drop_last() =~= views.take(i as int));
            assert(views.take(i as int + 1).last() == listen@[i as int]@);
        }
        if is_lan_candidate(&listen[i], local_ips, unknown_is_local) {
            out.push(listen[i].clone());
            assert(addr_views(out@) =~= addr_views(before).push(listen@[i as int]@));
        }
        i += 1;
    }
    assert(views.take(views.len() as int) =~= views);
    out
}

/// The IPv4 address of a local address that peers can be told of for hole punching:
/// QUIC, not through a relay, and neither loopback nor unspecified.
pub open spec fn punchable_ip(addr: Seq<Part>) -> Option<Ipv4> {
    if has_part(addr, Part::QuicV1) && !has_part(addr, Part::P2pCircuit) {
        match first_ip4(addr) {
            Some(ip) => if ip.loopback() || ip.unspecified() {
                None
            } else {
                Some(ip)
            },
            None => None,
        }
    } else {
        None
    }
}

/// The IPv4 address of a local address that peers can be told of for hole punching.
pub fn punchable_address(addr: &Multiaddr) -> (r: Option<Ipv4>)
    ensures
        r == punchable_ip(addr@),
{
    if !addr.has_quic() || addr.has_circuit() {
        return None;
    }
    match addr.first_ip4() {
        Some(ip) => if ip.is_loopback() || ip.is_unspecified() {
            None
        } else {
            Some(ip)
        },
        None => None,
    }
}

/// A list of addresses with one that is in it only once.
pub open spec fn with_ip(ips: Seq<Ipv4>, ip: Ipv4) -> Seq<Ipv4> {
    if ips.contains(ip) {
        ips
    } else {
        ips.push(ip)
    }
}

/// Adds an address that is not in the list yet.
pub fn add_ip(ips: &mut Vec<Ipv4>, ip: Ipv4)
    ensures
        final(ips)@ == with_ip(old(ips)@, ip),
{
    let mut i: usize = 0;
    while i < ips.len()
        invariant
            i <= ips@.len(),
            ips@ == old(ips)@,
            forall|k: int| 0 <= k < i ==> ips@[k] != ip,
        decreases ips@.len() - i,
    {
        if ips[i] == ip {
            assert(ips@.contains(ip)) by {
                assert(ips@[i as int] == ip);
            }
            return ;
        }
        i += 1;
    }
    ips.push(ip);
}

/// A copy of a list of addresses.
pub fn clone_ips(ips: &Vec<Ipv4>) -> (r: Vec<Ipv4>)
    ensures
        r@ == ips@,
{
    vstd::slice::slice_to_vec(ips.as_slice())
}

/// Two addresses are in one subnet exactly where they differ in the last octet at most,
/// that is, as numbers they agree when the last eight bits are dropped.
pub proof fn law_subnet_is_slash_24(x: Ipv4, y: Ipv4)
    ensures
        same_subnet(x, y) <==> x.a * 0x1_0000 + x.b * 0x100 + x.c == y.a * 0x1_0000 + y.b * 0x100
            + y.c,
        same_subnet(x, y) == same_subnet(y, x),
{
}

/// The addresses to try on the local network are those of QUIC, not through a relay,
/// whose IP address is private and in the subnet of a local one; where no local one is
/// known, `unknown_is_local` decides. They stay in order, and none is left out.
pub proof fn law_lan_list(
    listen: Seq<Seq<Part>>,
    local_ips: Seq<Ipv4>,
    unknown_is_local: bool,
)
    ensures
        lan_list(listen, local_ips, unknown_is_local) == listen.filter(
            |addr: Seq<Part>|
                addr.contains(Part::QuicV1) && !addr.contains(Part::P2pCircuit) && (first_ip4(addr)
                    matches Some(ip) && ip.private() && if local_ips.len() == 0 {
                    unknown_is_local
                } else {
                    exists|i: int|
                        0 <= i < local_ips.len() && same_subnet(#[trigger] local_ips[i], ip)
                }),
        ),
    decreases listen.len(),
{
    reveal(Seq::filter);
    if listen.len() > 0 {
        law_lan_list(listen.drop_last(), local_ips, unknown_is_local);
        law_parts_of_an_address(listen.last(), Part::QuicV1);
        law_parts_of_an_address(listen.last(), Part::P2pCircuit);
    }
}

/// An address that others can be told for hole punching is one of QUIC, not through a
/// relay, with an IP address that is neither loopback nor 0.0.0.0; the IP address is its
/// first.
pub proof fn law_punchable_address(addr: Seq<Part>)
    ensures
        punchable_ip(addr) is Some <==> addr.contains(Part::QuicV1) && !addr.contains(
            Part::P2pCircuit,
        ) && (first_ip4(addr) matches Some(ip) && ip.a != 127 && !(ip.a == 0 && ip.b == 0 && ip.c
            == 0 && ip.d == 0)),
        punchable_ip(addr) is Some ==> punchable_ip(addr) == first_ip4(addr),
{
    law_parts_of_an_address(addr, Part::QuicV1);
    law_parts_of_an_address(addr, Part::P2pCircuit);
}

/// An IP address is listed once, however often it is added, and behind those that were
/// there.
pub proof fn law_ips_listed_once(ips: Seq<Ipv4>, ip: Ipv4)
    requires
        ips.no_duplicates(),
    ensures
        with_ip(ips, ip).no_duplicates(),
        with_ip(ips, ip).contains(ip),
        with_ip(with_ip(ips, ip), ip) == with_ip(ips, ip),
        with_ip(ips, ip).take(ips.len() as int) == ips,
        with_ip(ips, ip).len() <= ips.len() + 1,
        with_ip(ips, ip).len() == ips.len() <==> ips.contains(ip),
{
    assert(with_ip(ips, ip).take(ips.len() as int) =~= ips);
    if !ips.contains(ip) {
        assert(with_ip(ips, ip).last() == ip);
    }
}

} // verus!
