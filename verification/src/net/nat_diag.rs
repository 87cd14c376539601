//! What kind of NAT a host is behind, told by the ports under which a relay sees
//! it, and what that means for hole punching (DCUtR).

use vstd::prelude::*;

use super::addr::{addr_views, clone_addrs, first_udp, Ipv4, Multiaddr, Part};
use crate::text::{decimal, push_decimal};

verus! {

broadcast use vstd::string::group_string_axioms;

/// A kind of NAT.
#[derive(Debug, Clone, Copy, PartialEq, Eq, Structural)]
pub enum NatType {
    FullCone,
    RestrictedCone,
    PortRestrictedCone,
    Symmetric,
    Unknown,
}

/// Whether the NAT keeps its mapping for every destination.
pub open spec fn is_cone(t: NatType) -> bool {
    t == NatType::FullCone || t == NatType::RestrictedCone || t == NatType::PortRestrictedCone
}

impl NatType {
    /// A name for the kind.
    pub open spec fn short_name_text(self) -> Seq<char> {
        match self {
            NatType::FullCone => "FullCone"@,
            NatType::RestrictedCone => "RestrictedCone"@,
            NatType::PortRestrictedCone => "PortRestrictedCone"@,
            NatType::Symmetric => "Symmetric"@,
            NatType::Unknown => "Unknown"@,
        }
    }

    /// Whether hole punching can work.
    pub fn dcutr_feasible(&self) -> (r: bool)
        ensures
            r == is_cone(*self),
    {
        matches!(self, NatType::FullCone | NatType::RestrictedCone | NatType::PortRestrictedCone)
    }

    pub fn description(&self) -> (r: &'static str)
        ensures
            r@ == match *self {
                NatType::FullCone => "Full Cone NAT - DCUtR feasible"@,
                NatType::RestrictedCone => "Restricted Cone NAT - DCUtR feasible"@,
                NatType::PortRestrictedCone => "Port Restricted Cone NAT - DCUtR feasible"@,
                NatType::Symmetric =>
                    "Symmetric NAT - DCUtR NOT feasible, will use Relay Circuit"@,
                NatType::Unknown => "NAT type unknown - insufficient observation data"@,
            },
    {
        match self {
            NatType::FullCone => "Full Cone NAT - DCUtR feasible",
            NatType::RestrictedCone => "Restricted Cone NAT - DCUtR feasible",
            NatType::PortRestrictedCone => "Port Restricted Cone NAT - DCUtR feasible",
            NatType::Symmetric => "Symmetric NAT - DCUtR NOT feasible, will use Relay Circuit",
            NatType::Unknown => "NAT type unknown - insufficient observation data",
        }
    }

    pub fn short_name(&self) -> (r: &'static str)
        ensures
            r@ == self.short_name_text(),
    {
        match self {
            NatType::FullCone => "FullCone",
            NatType::RestrictedCone => "RestrictedCone",
            NatType::PortRestrictedCone => "PortRestrictedCone",
            NatType::Symmetric => "Symmetric",
            NatType::Unknown => "Unknown",
        }
    }
}

/// 100.64.0.0/10, shared address space of carriers.
pub open spec fn carrier_shared(ip: Ipv4) -> bool {
    ip.a == 100 && 64 <= ip.b <= 127
}

/// Whether the first three octets are these.
pub open spec fn in_net24(ip: Ipv4, a: u8, b: u8, c: u8) -> bool {
    ip.a == a && ip.b == b && ip.c == c
}

/// Whether an address is in none of the blocks that are not routed publicly.
pub open spec fn publicly_routed(ip: Ipv4) -> bool {
    !(ip.private() || ip.loopback() || ip.link_local() || carrier_shared(ip) || in_net24(
        ip,
        192,
        0,
        0,
    ) || in_net24(ip, 192, 0, 2) || in_net24(ip, 198, 51, 100) || in_net24(ip, 203, 0, 113)
        || ip.a >= 224)
}

/// Whether an address looks like one inside a carrier's network: shared address
/// space, or neither private nor public.
pub open spec fn carrier_internal(ip: Ipv4) -> bool {
    carrier_shared(ip) || (!ip.private() && !ip.loopback() && !ip.unspecified()
        && !publicly_routed(ip))
}

/// Whether an address can be reached from the internet. Multicast (224.0.0.0/4) and
/// reserved addresses (240.0.0.0/4) cannot.
pub fn is_public_ip(ip: Ipv4) -> (r: bool)
    ensures
        r == publicly_routed(ip),
{
    if ip.is_private() {
        return false;
    }
    if ip.is_loopback() {
        return false;
    }
    if ip.is_link_local() {
        return false;
    }
    if ip.a == 100 && ip.b >= 64 && ip.b <= 127 {
        return false;
    }
    if ip.a == 192 && ip.b == 0 && ip.c == 0 {
        return false;
    }
    if ip.a == 192 && ip.b == 0 && ip.c == 2 {
        return false;
    }
    if ip.a == 198 && ip.b == 51 && ip.c == 100 {
        return false;
    }
    if ip.a == 203 && ip.b == 0 && ip.c == 113 {
        return false;
    }
    if ip.a >= 224 {
        return false;
    }
    true
}

/// Whether an address looks like one inside a carrier's network.
pub fn is_carrier_internal(ip: Ipv4) -> (r: bool)
    ensures
        r == carrier_internal(ip),
{
    if ip.a == 100 && ip.b >= 64 && ip.b <= 127 {
        return true;
    }
    !ip.is_private() && !ip.is_loopback() && !ip.is_unspecified() && !is_public_ip(ip)
}

/// Advice on hole punching.
pub open spec fn suggestion_text(nat_type: NatType, is_4g: bool) -> Seq<char> {
    match (nat_type, is_4g) {
        (
            NatType::Symmetric,
            true,
        ) => "4G/CGNAT with Symmetric NAT: DCUtR hole-punching will not succeed. Placing device-cam on broadband (Cone NAT) network increases DCUtR success rate. Relay circuit will be used as fallback."@,
        (
            NatType::Symmetric,
            false,
        ) => "Symmetric NAT: DCUtR hole-punching will not succeed, relay circuit is the only option. Consider: 1) Configure port forwarding on router, 2) Use --udp-port to fix local port"@,
        (
            NatType::Unknown,
            true,
        ) => "4G/CGNAT detected with unknown NAT type: DCUtR will be attempted but success rate is uncertain. Placing device-cam on broadband network increases DCUtR success rate."@,
        (
            NatType::Unknown,
            false,
        ) => "NAT type unknown: DCUtR will be attempted, success depends on NAT compatibility of both peers."@,
        (
            _,
            true,
        ) => "4G/CGNAT detected: DCUtR may succeed if remote peer is on broadband (Cone NAT). Placing device-cam on broadband network increases DCUtR success rate."@,
        (
            _,
            false,
        ) => "Cone NAT: DCUtR hole-punching should succeed. If it fails, check firewall settings or port forwarding configuration."@,
    }
}

/// Advice on hole punching.
pub fn generate_suggestion(nat_type: NatType, is_4g: bool) -> (r: String)
    ensures
        r@ == suggestion_text(nat_type, is_4g),
{
    let text = match (nat_type, is_4g) {
        (
            NatType::Symmetric,
            true,
        ) => "4G/CGNAT with Symmetric NAT: DCUtR hole-punching will not succeed. Placing device-cam on broadband (Cone NAT) network increases DCUtR success rate. Relay circuit will be used as fallback.",
        (
            NatType::Symmetric,
            false,
        ) => "Symmetric NAT: DCUtR hole-punching will not succeed, relay circuit is the only option. Consider: 1) Configure port forwarding on router, 2) Use --udp-port to fix local port",
        (
            NatType::Unknown,
            true,
        ) => "4G/CGNAT detected with unknown NAT type: DCUtR will be attempted but success rate is uncertain. Placing device-cam on broadband network increases DCUtR success rate.",
        (
            NatType::Unknown,
            false,
        ) => "NAT type unknown: DCUtR will be attempted, success depends on NAT compatibility of both peers.",
        (
            _,
            true,
        ) => "4G/CGNAT detected: DCUtR may succeed if remote peer is on broadband (Cone NAT). Placing device-cam on broadband network increases DCUtR success rate.",
        (
            _,
            false,
        ) => "Cone NAT: DCUtR hole-punching should succeed. If it fails, check firewall settings or port forwarding configuration.",
    };
    text.to_owned()
}

/// What the observations say of the NAT.
#[derive(Debug, Clone)]
pub struct NatDiagnosis {
    pub nat_type: NatType,
    pub observed_addresses: Vec<Multiaddr>,
    pub local_port: u16,
    pub evidence: String,
    pub dcutr_feasible: bool,
    pub is_4g: bool,
    pub dcutr_suggestion: String,
}

/// The UDP ports in a list of addresses, in order. An address without one is left
/// out.
pub open spec fn udp_ports(history: Seq<Seq<Part>>) -> Seq<u16>
    decreases history.len(),
{
    if history.len() == 0 {
        seq![]
    } else {
        match first_udp(history.last()) {
            Some(port) => udp_ports(history.drop_last()).push(port),
            None => udp_ports(history.drop_last()),
        }
    }
}

/// Whether all ports are the same.
pub open spec fn all_same(ports: Seq<u16>) -> bool {
    forall|i: int| 0 <= i < ports.len() ==> #[trigger] ports[i] == ports[0]
}

/// Ports in decimal, with commas between them.
pub open spec fn port_list(ports: Seq<u16>) -> Seq<char>
    decreases ports.len(),
{
    if ports.len() == 0 {
        seq![]
    } else if ports.len() == 1 {
        decimal(ports[0] as nat)
    } else {
        port_list(ports.drop_last()) + ", "@ + decimal(ports.last() as nat)
    }
}

/// A kind of NAT, whether to punch holes, and why.
pub struct Finding {
    pub nat_type: NatType,
    pub feasible: bool,
    pub evidence: Seq<char>,
}

/// What observed addresses say of the NAT of a host whose local port is
/// `local_port`. With `doubt`, ports that agree do not show a cone: a carrier's NAT
/// may still use another port towards another destination.
pub open spec fn finding(history: Seq<Seq<Part>>, local_port: u16, doubt: bool) -> Finding {
    let ports = udp_ports(history);
    if history.len() == 0 {
        Finding {
            nat_type: NatType::Unknown,
            feasible: false,
            evidence: "No Identify observations received yet"@,
        }
    } else if ports.len() == 0 {
        Finding {
            nat_type: NatType::Unknown,
            feasible: false,
            evidence: "No UDP ports found in observed addresses (TCP-only observations)"@,
        }
    } else if ports.len() == 1 && ports[0] == local_port && local_port != 0 {
        let seen = "Observed port "@ + decimal(ports[0] as nat) + " matches local port "@ + decimal(
            local_port as nat,
        );
        if doubt {
            Finding {
                nat_type: NatType::Unknown,
                feasible: false,
                evidence: seen
                    + ", but 4G/CGNAT detected - cannot confirm Full Cone NAT from single observation (CGNAT may assign different ports to different destinations)"@,
            }
        } else {
            Finding {
                nat_type: NatType::FullCone,
                feasible: true,
                evidence: seen + " - no NAT or 1:1 NAT"@,
            }
        }
    } else if ports.len() == 1 {
        Finding {
            nat_type: NatType::Unknown,
            feasible: true,
            evidence: "Only 1 observation with port "@ + decimal(ports[0] as nat)
                + " - need more data to determine NAT type"@,
        }
    } else if all_same(ports) {
        let seen = "Observed port "@ + decimal(ports[0] as nat) + " consistent across "@ + decimal(
            ports.len(),
        ) + " observations"@;
        if doubt {
            Finding {
                nat_type: NatType::Unknown,
                feasible: false,
                evidence: seen
                    + ", but 4G/CGNAT detected - cannot confirm Cone NAT (CGNAT may assign different ports to different destinations)"@,
            }
        } else {
            Finding {
                nat_type: NatType::PortRestrictedCone,
                feasible: true,
                evidence: seen + " - Cone NAT"@,
            }
        }
    } else {
        Finding {
            nat_type: NatType::Symmetric,
            feasible: false,
            evidence: "Observed ports vary: "@ + port_list(ports) + " - Symmetric NAT"@,
        }
    }
}

/// Whether `d` reports what the observations say.
pub open spec fn reports(
    d: NatDiagnosis,
    history: Seq<Seq<Part>>,
    local_port: u16,
    is_4g: bool,
    doubt: bool,
) -> bool {
    let f = finding(history, local_port, doubt);
    &&& d.nat_type == f.nat_type
    &&& addr_views(d.observed_addresses@) == history
    &&& d.local_port == local_port
    &&& d.evidence@ == f.evidence
    &&& d.dcutr_feasible == f.feasible
    &&& d.is_4g == is_4g
    &&& d.dcutr_suggestion@ == suggestion_text(f.nat_type, is_4g)
}

fn collect_udp_ports(history: &Vec<Multiaddr>) -> (r: Vec<u16>)
    ensures
        r@ == udp_ports(addr_views(history@)),
{
    let mut ports: Vec<u16> = Vec::new();
    let ghost views = addr_views(history@);
    let mut i: usize = 0;
    assert(views.take(0) =~= seq![]);
    while i < history.len()
        invariant
            i <= history@.len(),
            views == addr_views(history@),
            ports@ == udp_ports(views.take(i as int)),
        decreases history@.len() - i,
    {
        proof {
            assert(views.take(i as int + 1).drop_last() =~= views.take(i as int));
            assert(views.take(i as int + 1).last() == history@[i as int]@);
        }
        if let Some(port) = history[i].first_udp() {
            ports.push(port);
        }
        i += 1;
    }
    assert(views.take(views.len() as int) =~= views);
    ports
}

fn ports_agree(ports: &Vec<u16>) -> (r: bool)
    requires
        ports@.len() > 0,
    ensures
        r == all_same(ports@),
{
    let mut i: usize = 0;
    while i < ports.len()
        invariant
            i <= ports@.len(),
            ports@.len() > 0,
            forall|k: int| 0 <= k < i ==> #[trigger] ports@[k] == ports@[0],
        decreases ports@.len() - i,
    {
        if ports[i] != ports[0] {
            return false;
        }
        i += 1;
    }
    true
}

fn push_port_list(s: &mut String, ports: &Vec<u16>)
    ensures
        final(s)@ == old(s)@ + port_list(ports@),
{
    let ghost start = s@;
    let mut i: usize = 0;
    assert(ports@.take(0) =~= seq![]);
    assert(start + port_list(ports@.take(0)) =~= start);
    while i < ports.len()
        invariant
            i <= ports@.len(),
            s@ == start + port_list(ports@.take(i as int)),
        decreases ports@.len() - i,
    {
        let ghost next = ports@.take(i as int + 1);
        assert(next.drop_last() =~= ports@.take(i as int));
        if i > 0 {
            s.append(", ");
        }
        push_decimal(s, ports[i] as u64);
        assert(s@ =~= start + port_list(next));
        i += 1;
    }
    assert(ports@.take(ports@.len() as int) =~= ports@);
}

/// Diagnoses the NAT from observed addresses.
pub fn diagnose_history(history: &Vec<Multiaddr>, local_port: u16, is_4g: bool, doubt: bool) -> (r:
    NatDiagnosis)
    ensures
        reports(r, addr_views(history@), local_port, is_4g, doubt),
{
    let ports = collect_udp_ports(history);
    let nat_type: NatType;
    let dcutr_feasible: bool;
    let mut evidence = String::new();
    if history.len() == 0 {
        nat_type = NatType::Unknown;
        dcutr_feasible = false;
        evidence = "No Identify observations received yet".to_owned();
    } else if ports.len() == 0 {
        nat_type = NatType::Unknown;
        dcutr_feasible = false;
        evidence = "No UDP ports found in observed addresses (TCP-only observations)".to_owned();
    } else if ports.len() == 1 && ports[0] == local_port && local_port != 0 {
        evidence.append("Observed port ");
        push_decimal(&mut evidence, ports[0] as u64);
        evidence.append(" matches local port ");
        push_decimal(&mut evidence, local_port as u64);
        if doubt {
            nat_type = NatType::Unknown;
            dcutr_feasible = false;
            evidence.append(
                ", but 4G/CGNAT detected - cannot confirm Full Cone NAT from single observation (CGNAT may assign different ports to different destinations)",
            );
        } else {
            nat_type = NatType::FullCone;
            dcutr_feasible = true;
            evidence.append(" - no NAT or 1:1 NAT");
        }
    } else if ports.len() == 1 {
        nat_type = NatType::Unknown;
        dcutr_feasible = true;
        evidence.append("Only 1 observation with port ");
        push_decimal(&mut evidence, ports[0] as u64);
        evidence.append(" - need more data to determine NAT type");
    } else if ports_agree(&ports) {
        evidence.append("Observed port ");
        push_decimal(&mut evidence, ports[0] as u64);
        evidence.append(" consistent across ");
        push_decimal(&mut evidence, ports.len() as u64);
        evidence.append(" observations");
        if doubt {
            nat_type = NatType::Unknown;
            dcutr_feasible = false;
            evidence.append(
                ", but 4G/CGNAT detected - cannot confirm Cone NAT (CGNAT may assign different ports to different destinations)",
            );
        } else {
            nat_type = NatType::PortRestrictedCone;
            dcutr_feasible = true;
            evidence.append(" - Cone NAT");
        }
    } else {
        nat_type = NatType::Symmetric;
        dcutr_feasible = false;
        evidence.append("Observed ports vary: ");
        push_port_list(&mut evidence, &ports);
        evidence.append(" - Symmetric NAT");
    }
    assert(evidence@ =~= finding(addr_views(history@), local_port, doubt).evidence);
    NatDiagnosis {
        nat_type,
        observed_addresses: clone_addrs(history),
        local_port,
        evidence,
        dcutr_feasible,
        is_4g,
        dcutr_suggestion: generate_suggestion(nat_type, is_4g),
    }
}

/// A symmetric NAT is found exactly where two observed ports differ.
pub proof fn law_symmetric_iff_ports_differ(
    history: Seq<Seq<Part>>,
    local_port: u16,
    doubt: bool,
)
    ensures
        finding(history, local_port, doubt).nat_type == NatType::Symmetric <==> exists|
            i: int,
            j: int,
        |
            0 <= i < udp_ports(history).len() && 0 <= j < udp_ports(history).len() && udp_ports(
                history,
            )[i] != udp_ports(history)[j],
{
    let ports = udp_ports(history);
    if finding(history, local_port, doubt).nat_type == NatType::Symmetric {
        let i = choose|i: int| 0 <= i < ports.len() && #[trigger] ports[i] != ports[0];
        assert(ports[i] != ports[0]);
    }
    if exists|i: int, j: int|
        0 <= i < ports.len() && 0 <= j < ports.len() && ports[i] != ports[j] {
        let (i, j) = choose|i: int, j: int|
            0 <= i < ports.len() && 0 <= j < ports.len() && ports[i] != ports[j];
        assert(ports[i] != ports[0] || ports[j] != ports[0]);
        assert(!all_same(ports));
        assert(history.len() > 0);
    }
}

/// Hole punching is called feasible for every cone that is found and for no
/// symmetric NAT.
pub proof fn law_finding_feasible(history: Seq<Seq<Part>>, local_port: u16, doubt: bool)
    ensures
        is_cone(finding(history, local_port, doubt).nat_type) ==> finding(
            history,
            local_port,
            doubt,
        ).feasible,
        finding(history, local_port, doubt).nat_type == NatType::Symmetric ==> !finding(
            history,
            local_port,
            doubt,
        ).feasible,
{
}

/// The ports that were observed are the UDP ports of those observations that have one, in
/// order.
pub proof fn law_observed_ports(history: Seq<Seq<Part>>)
    ensures
        udp_ports(history) == history.filter(
            |addr: Seq<Part>| first_udp(addr) is Some,
        ).map_values(|addr: Seq<Part>| first_udp(addr)->0),
    decreases history.len(),
{
    reveal(Seq::filter);
    let seen = history.filter(|addr: Seq<Part>| first_udp(addr) is Some);
    if history.len() > 0 {
        let front = history.drop_last();
        let before = front.filter(|addr: Seq<Part>| first_udp(addr) is Some);
        law_observed_ports(front);
        if first_udp(history.last()) is Some {
            assert(seen =~= before.push(history.last()));
        }
    }
    assert(udp_ports(history) =~= seen.map_values(|addr: Seq<Part>| first_udp(addr)->0));
}

/// Without any observed port nothing is known of the NAT, and hole punching is not
/// promised.
pub proof fn law_nothing_known_without_ports(
    history: Seq<Seq<Part>>,
    local_port: u16,
    doubt: bool,
)
    requires
        udp_ports(history).len() == 0,
    ensures
        finding(history, local_port, doubt).nat_type == NatType::Unknown,
        !finding(history, local_port, doubt).feasible,
{
}

/// A single observation tells of a full cone where the viewer is seen at the very port on
/// which it listens, and of nothing where it is not, or where a mobile network casts
/// doubt on it. Hole punching is worth a try unless there is that doubt.
pub proof fn law_single_observation(history: Seq<Seq<Part>>, local_port: u16, doubt: bool)
    requires
        udp_ports(history).len() == 1,
    ensures
        ({
            let f = finding(history, local_port, doubt);
            let kept = udp_ports(history)[0] == local_port && local_port != 0;
            &&& f.nat_type == NatType::FullCone <==> kept && !doubt
            &&& f.nat_type == NatType::Unknown <==> !kept || doubt
            &&& f.feasible <==> !(kept && doubt)
        }),
{
}

/// Several observations at one port tell of a port restricted cone, whatever the local
/// port is, unless a mobile network casts doubt on it: then nothing is known and hole
/// punching is not promised.
pub proof fn law_consistent_observations(
    history: Seq<Seq<Part>>,
    local_port: u16,
    doubt: bool,
    port: u16,
)
    requires
        udp_ports(history).len() >= 2,
        forall|i: int| 0 <= i < udp_ports(history).len() ==> #[trigger] udp_ports(history)[i] == port,
    ensures
        finding(history, local_port, doubt).nat_type == if doubt {
            NatType::Unknown
        } else {
            NatType::PortRestrictedCone
        },
        finding(history, local_port, doubt).feasible == !doubt,
{
    assert(udp_ports(history)[0] == port);
}

/// Two observations at different ports settle it: the NAT is symmetric and hole punching
/// does not work, whatever else was observed and on whatever network.
pub proof fn law_different_ports_are_symmetric(
    history: Seq<Seq<Part>>,
    local_port: u16,
    doubt: bool,
    i: int,
    j: int,
)
    requires
        0 <= i < udp_ports(history).len(),
        0 <= j < udp_ports(history).len(),
        udp_ports(history)[i] != udp_ports(history)[j],
    ensures
        finding(history, local_port, doubt).nat_type == NatType::Symmetric,
        !finding(history, local_port, doubt).feasible,
{
    law_symmetric_iff_ports_differ(history, local_port, doubt);
}

/// Hole punching works with a cone of any kind, and with nothing else.
pub proof fn law_cones(t: NatType)
    ensures
        is_cone(t) <==> t != NatType::Symmetric && t != NatType::Unknown,
{
}

/// Addresses that carriers share are those of 100.64.0.0/10. Not routed publicly are they,
/// the private, loopback and link-local ranges, 192.0.0.0/24, the three ranges for
/// documentation, and all from 224.0.0.0 on: said of the address as one number.
pub proof fn law_public_ranges(ip: Ipv4)
    ensures
        ({
            let n = ip.a * 0x100_0000 + ip.b * 0x1_0000 + ip.c * 0x100 + ip.d;
            &&& carrier_shared(ip) <==> 0x6440_0000 <= n <= 0x647f_ffff
            &&& publicly_routed(ip) <==> {
                &&& !(0x0a00_0000 <= n <= 0x0aff_ffff)
                &&& !(0xac10_0000 <= n <= 0xac1f_ffff)
                &&& !(0xc0a8_0000 <= n <= 0xc0a8_ffff)
                &&& !(0x7f00_0000 <= n <= 0x7fff_ffff)
                &&& !(0xa9fe_0000 <= n <= 0xa9fe_ffff)
                &&& !(0x6440_0000 <= n <= 0x647f_ffff)
                &&& !(0xc000_0000 <= n <= 0xc000_00ff)
                &&& !(0xc000_0200 <= n <= 0xc000_02ff)
                &&& !(0xc633_6400 <= n <= 0xc633_64ff)
                &&& !(0xcb00_7100 <= n <= 0xcb00_71ff)
                &&& n < 0xe000_0000
            }
            &&& carrier_internal(ip) <==> (!publicly_routed(ip) && n != 0 && !(0x0a00_0000 <= n
                <= 0x0aff_ffff) && !(0xac10_0000 <= n <= 0xac1f_ffff) && !(0xc0a8_0000 <= n
                <= 0xc0a8_ffff) && !(0x7f00_0000 <= n <= 0x7fff_ffff))
        }),
{
}

/// A diagnosis says what was found: the type and whether hole punching is feasible with
/// the evidence for it, from all observations, and with advice that fits the type and the
/// network.
pub proof fn law_diagnosis_says_the_finding(
    d: NatDiagnosis,
    history: Seq<Seq<Part>>,
    local_port: u16,
    is_4g: bool,
    doubt: bool,
)
    requires
        reports(d, history, local_port, is_4g, doubt),
    ensures
        d.nat_type == finding(history, local_port, doubt).nat_type,
        d.dcutr_feasible == finding(history, local_port, doubt).feasible,
        d.evidence@ == finding(history, local_port, doubt).evidence,
        d.observed_addresses@.len() == history.len(),
        forall|i: int|
            0 <= i < history.len() ==> (#[trigger] d.observed_addresses@[i])@ == history[i],
        d.local_port == local_port,
        d.is_4g == is_4g,
        d.dcutr_suggestion@ == suggestion_text(d.nat_type, is_4g),
{
    let views = addr_views(d.observed_addresses@);
    assert forall|i: int| 0 <= i < history.len() implies (#[trigger] d.observed_addresses@[i])@
        == history[i] by {
        assert(views[i] == d.observed_addresses@[i]@);
    }
}

/// The evidence names the ports: the one that was observed, the local one that it agrees
/// with, how often it was observed, or all of them where they differ.
pub proof fn law_evidence_names_ports(history: Seq<Seq<Part>>, local_port: u16)
    requires
        udp_ports(history).len() > 0,
    ensures
        ({
            let ports = udp_ports(history);
            let evidence = finding(history, local_port, false).evidence;
            let first = decimal(ports[0] as nat);
            &&& ports.len() == 1 && ports[0] == local_port && local_port != 0 ==> evidence
                == "Observed port "@ + first + " matches local port "@ + decimal(local_port as nat)
                + " - no NAT or 1:1 NAT"@
            &&& ports.len() == 1 && (ports[0] != local_port || local_port == 0) ==> evidence
                == "Only 1 observation with port "@ + first
                + " - need more data to determine NAT type"@
            &&& ports.len() > 1 && (forall|i: int|
                0 <= i < ports.len() ==> #[trigger] ports[i] == ports[0]) ==> evidence
                == "Observed port "@ + first + " consistent across "@ + decimal(ports.len())
                + " observations"@ + " - Cone NAT"@
            &&& (exists|i: int| 0 <= i < ports.len() && #[trigger] ports[i] != ports[0])
                ==> evidence == "Observed ports vary: "@ + port_list(ports) + " - Symmetric NAT"@
        }),
{
}

/// A list of ports has them in order, with a comma and a blank between two.
pub proof fn law_port_list(ports: Seq<u16>, port: u16)
    ensures
        port_list(seq![port]) == decimal(port as nat),
        ports.len() > 0 ==> port_list(ports.push(port)) == port_list(ports) + ", "@ + decimal(
            port as nat,
        ),
{
    assert(ports.push(port).drop_last() =~= ports);
}

} // verus!
