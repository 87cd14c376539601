//! The camera's view of its own NAT.

use vstd::prelude::*;

use crate::net::addr::{addr_views, first_udp, Ipv4, Multiaddr, Part};
pub use crate::net::nat_diag::{NatDiagnosis, NatType};
use crate::net::nat_diag::{
    carrier_internal, diagnose_history, finding, in_net24, is_carrier_internal, is_cone, reports,
};

verus! {

broadcast use vstd::string::group_string_axioms;

/// What to expect of hole punching.
#[derive(Debug, Clone)]
pub struct DcutrPrediction {
    pub likely_success: bool,
    pub is_4g: bool,
    pub nat_type: NatType,
    pub reason: String,
}

/// How to connect.
#[derive(Debug, Clone, Copy, PartialEq, Eq, Structural)]
pub enum ConnectionStrategy {
    /// Try hole punching.
    Dcutr,
    /// Do not try, use the relay at once.
    SkipDcutr,
}

impl ConnectionStrategy {
    pub fn name(&self) -> (r: &'static str)
        ensures
            r@ == match *self {
                ConnectionStrategy::Dcutr => "DCUtR"@,
                ConnectionStrategy::SkipDcutr => "SkipDcutr"@,
            },
    {
        match self {
            ConnectionStrategy::Dcutr => "DCUtR",
            ConnectionStrategy::SkipDcutr => "SkipDcutr",
        }
    }
}

/// Whether an address looks like one of a mobile network: the usual networks of a
/// phone's hot spot, or inside a carrier's network.
pub open spec fn mobile_network(ip: Ipv4) -> bool {
    in_net24(ip, 192, 168, 174) || in_net24(ip, 192, 168, 133) || in_net24(ip, 192, 168, 43)
        || carrier_internal(ip)
}

/// Whether an address looks like one of a mobile network.
pub fn is_4g_network(ip: Ipv4) -> (r: bool)
    ensures
        r == mobile_network(ip),
{
    if ip.a == 192 && ip.b == 168 && ip.c == 174 {
        return true;
    }
    if ip.a == 192 && ip.b == 168 && ip.c == 133 {
        return true;
    }
    if ip.a == 192 && ip.b == 168 && ip.c == 43 {
        return true;
    }
    is_carrier_internal(ip)
}

/// Whether some address looks like one of a mobile network.
pub open spec fn any_mobile(ips: Seq<Ipv4>) -> bool {
    exists|i: int| 0 <= i < ips.len() && mobile_network(#[trigger] ips[i])
}

/// Whether an observed address goes with the observations before it: its port is
/// the local one or was seen before.
pub open spec fn port_continues(
    history: Seq<Seq<Part>>,
    local_port: u16,
    addr: Seq<Part>,
) -> bool {
    match first_udp(addr) {
        Some(port) => port == local_port || exists|i: int|
            0 <= i < history.len() && first_udp(#[trigger] history[i]) == Some(port),
        None => false,
    }
}

/// The observations after one more. An address that does not go with those before
/// belongs to a new connection to the relay, and they are dropped.
pub open spec fn recorded(
    history: Seq<Seq<Part>>,
    local_port: u16,
    addr: Seq<Part>,
) -> Seq<Seq<Part>> {
    if port_continues(history, local_port, addr) {
        history.push(addr)
    } else {
        seq![addr]
    }
}

/// Collects what relays observe.
pub struct NatDiagnostic {
    observed_history: Vec<Multiaddr>,
    local_quic_port: u16,
    local_ips: Vec<Ipv4>,
    force_4g: bool,
}

impl NatDiagnostic {
    /// The addresses under which relays saw the camera.
    pub closed spec fn history(&self) -> Seq<Seq<Part>> {
        addr_views(self.observed_history@)
    }

    pub closed spec fn local_port(&self) -> u16 {
        self.local_quic_port
    }

    pub closed spec fn ips(&self) -> Seq<Ipv4> {
        self.local_ips@
    }

    /// The user has said that the network is a mobile one.
    pub closed spec fn forced(&self) -> bool {
        self.force_4g
    }

    pub open spec fn is_4g(&self) -> bool {
        self.forced() || any_mobile(self.ips())
    }

    /// The kind of NAT that the observations show. On a mobile network ports that
    /// agree show nothing.
    pub open spec fn nat_type(&self) -> NatType {
        finding(self.history(), self.local_port(), self.is_4g()).nat_type
    }

    pub fn new(local_quic_port: u16, local_ips: Vec<Ipv4>) -> (r: NatDiagnostic)
        ensures
            r.history() == Seq::<Seq<Part>>::empty(),
            r.local_port() == local_quic_port,
            r.ips() == local_ips@,
            !r.forced(),
    {
        let r = NatDiagnostic {
            observed_history: Vec::new(),
            local_quic_port,
            local_ips,
            force_4g: false,
        };
        assert(r.history() =~= Seq::<Seq<Part>>::empty());
        r
    }

    /// Says that the network is a mobile one. Its addresses may be private ones that
    /// do not show it.
    pub fn set_force_4g(&mut self, force: bool)
        ensures
            final(self).forced() == force,
            final(self).history() == old(self).history(),
            final(self).local_port() == old(self).local_port(),
            final(self).ips() == old(self).ips(),
    {
        self.force_4g = force;
    }

    /// Notes an address under which a relay saw the camera.
    pub fn record_observed(&mut self, addr: &Multiaddr)
        ensures
            final(self).history() == recorded(old(self).history(), old(self).local_port(), addr@),
            final(self).local_port() == old(self).local_port(),
            final(self).ips() == old(self).ips(),
            final(self).forced() == old(self).forced(),
    {
        let ghost history = self.history();
        let continues = match addr.first_udp() {
            Some(port) => port == self.local_quic_port || self.port_seen(port),
            None => false,
        };
        assert(continues == port_continues(history, self.local_quic_port, addr@));
        if !continues && self.observed_history.len() > 0 {
            self.observed_history.clear();
        }
        self.observed_history.push(addr.clone());
        assert(self.history() =~= recorded(history, self.local_quic_port, addr@));
    }

    fn port_seen(&self, port: u16) -> (r: bool)
        ensures
            r == exists|i: int|
                0 <= i < self.history().len() && first_udp(#[trigger] self.history()[i]) == Some(
                    port,
                ),
    {
        let mut i: usize = 0;
        while i < self.observed_history.len()
            invariant
                i <= self.observed_history@.len(),
                forall|k: int|
                    0 <= k < i ==> first_udp(#[trigger] self.history()[k]) != Some(port),
            decreases self.observed_history@.len() - i,
        {
            assert(self.history()[i as int] == self.observed_history@[i as int]@);
            if let Some(p) = self.observed_history[i].first_udp() {
                if p == port {
                    return true;
                }
            }
            i += 1;
        }
        false
    }

    pub fn observed_history_is_empty(&self) -> (r: bool)
        ensures
            r == (self.history().len() == 0),
    {
        self.observed_history.len() == 0
    }

    fn on_4g(&self) -> (r: bool)
        ensures
            r == self.is_4g(),
    {
        if self.force_4g {
            return true;
        }
        let mut i: usize = 0;
        while i < self.local_ips.len()
            invariant
                i <= self.local_ips@.len(),
                forall|k: int| 0 <= k < i ==> !mobile_network(#[trigger] self.ips()[k]),
            decreases self.local_ips@.len() - i,
        {
            if is_4g_network(self.local_ips[i]) {
                assert(mobile_network(self.ips()[i as int]));
                return true;
            }
            i += 1;
        }
        false
    }

    /// Whether hole punching is bound to fail, so that trying only costs time: the
    /// NAT is symmetric or the network a mobile one.
    pub fn should_skip_dcutr(&self) -> (r: bool)
        ensures
            r == (self.nat_type() == NatType::Symmetric || self.is_4g()),
    {
        let is_4g = self.on_4g();
        let diag = self.diagnose();
        diag.nat_type == NatType::Symmetric || is_4g
    }

    /// How to connect, and why.
    pub fn connection_strategy(&self) -> (r: (ConnectionStrategy, String))
        ensures
            r.0 == strategy_for(self.nat_type(), self.is_4g()),
            r.1@ == strategy_reason(self.nat_type(), self.is_4g()),
    {
        let is_4g = self.on_4g();
        let diag = self.diagnose();
        if diag.nat_type == NatType::Symmetric {
            return (
                ConnectionStrategy::SkipDcutr,
                "Symmetric NAT: DCUtR will fail, port mapping is unpredictable. Saved ~17s timeout waiting.".to_owned(),
            );
        }
        if is_4g {
            return (
                ConnectionStrategy::SkipDcutr,
                "4G/CGNAT: DCUtR will fail, carrier-grade NAT blocks inbound UDP. Saved ~17s timeout waiting.".to_owned(),
            );
        }
        if diag.nat_type.dcutr_feasible() {
            let mut reason = diag.nat_type.short_name().to_owned();
            reason.append(" NAT: DCUtR should succeed");
            return (ConnectionStrategy::Dcutr, reason);
        }
        (ConnectionStrategy::Dcutr, "NAT type unknown: DCUtR will be attempted".to_owned())
    }

    /// What to expect of hole punching.
    pub fn dcutr_prediction(&self) -> (r: DcutrPrediction)
        ensures
            r.is_4g == self.is_4g(),
            r.nat_type == self.nat_type(),
            r.likely_success == (is_cone(self.nat_type()) && !self.is_4g()),
            r.reason@ == prediction_reason(self.nat_type(), self.is_4g()),
    {
        let is_4g = self.on_4g();
        let nat_type = self.diagnose().nat_type;
        let feasible = nat_type.dcutr_feasible();
        let mut reason = String::new();
        if is_4g && !feasible {
            reason.append("4G/CGNAT + ");
            reason.append(nat_type.short_name());
            reason.append(
                " NAT: DCUtR hole-punching will likely fail. CGNAT does not allow inbound UDP from external addresses. Relay circuit will be used.",
            );
        } else if is_4g {
            reason.append("4G/CGNAT detected (");
            reason.append(nat_type.short_name());
            reason.append(
                "): DCUtR may fail because CGNAT typically blocks inbound UDP. Success depends on remote peer's NAT type (Cone NAT on broadband may work). Relay circuit will be used as fallback.",
            );
        } else if !feasible {
            reason.append(nat_type.short_name());
            reason.append(
                " NAT: DCUtR hole-punching will not succeed. Relay circuit will be used.",
            );
        } else {
            reason.append(nat_type.short_name());
            reason.append(
                " NAT: DCUtR hole-punching should succeed. If it fails, check firewall settings or port forwarding.",
            );
        }
        assert(reason@ =~= prediction_reason(nat_type, is_4g));
        DcutrPrediction { likely_success: feasible && !is_4g, is_4g, nat_type, reason }
    }

    /// What the observations say of the NAT.
    pub fn diagnose(&self) -> (r: NatDiagnosis)
        ensures
            reports(r, self.history(), self.local_port(), self.is_4g(), self.is_4g()),
    {
        let is_4g = self.on_4g();
        diagnose_history(&self.observed_history, self.local_quic_port, is_4g, is_4g)
    }
}

/// How to connect.
pub open spec fn strategy_for(nat_type: NatType, is_4g: bool) -> ConnectionStrategy {
    if nat_type == NatType::Symmetric || is_4g {
        ConnectionStrategy::SkipDcutr
    } else {
        ConnectionStrategy::Dcutr
    }
}

/// Why to connect that way.
pub open spec fn strategy_reason(nat_type: NatType, is_4g: bool) -> Seq<char> {
    if nat_type == NatType::Symmetric {
        "Symmetric NAT: DCUtR will fail, port mapping is unpredictable. Saved ~17s timeout waiting."@
    } else if is_4g {
        "4G/CGNAT: DCUtR will fail, carrier-grade NAT blocks inbound UDP. Saved ~17s timeout waiting."@
    } else if is_cone(nat_type) {
        nat_type.short_name_text() + " NAT: DCUtR should succeed"@
    } else {
        "NAT type unknown: DCUtR will be attempted"@
    }
}

/// Why to expect that of hole punching.
pub open spec fn prediction_reason(nat_type: NatType, is_4g: bool) -> Seq<char> {
    if is_4g && !is_cone(nat_type) {
        "4G/CGNAT + "@ + nat_type.short_name_text()
            + " NAT: DCUtR hole-punching will likely fail. CGNAT does not allow inbound UDP from external addresses. Relay circuit will be used."@
    } else if is_4g {
        "4G/CGNAT detected ("@ + nat_type.short_name_text()
            + "): DCUtR may fail because CGNAT typically blocks inbound UDP. Success depends on remote peer's NAT type (Cone NAT on broadband may work). Relay circuit will be used as fallback."@
    } else if !is_cone(nat_type) {
        nat_type.short_name_text()
            + " NAT: DCUtR hole-punching will not succeed. Relay circuit will be used."@
    } else {
        nat_type.short_name_text()
            + " NAT: DCUtR hole-punching should succeed. If it fails, check firewall settings or port forwarding."@
    }
}

/// On a mobile network no cone is ever found, so that nothing is predicted to
/// succeed there.
pub proof fn law_no_cone_on_mobile_network(d: NatDiagnostic)
    requires
        d.is_4g(),
    ensures
        !is_cone(d.nat_type()),
{
}

/// Whether all observed ports other than the local one are the same.
pub open spec fn one_mapping(history: Seq<Seq<Part>>, local_port: u16) -> bool {
    forall|i: int, j: int|
        0 <= i < history.len() && 0 <= j < history.len() && first_udp(
            #[trigger] history[i],
        ) is Some && first_udp(#[trigger] history[j]) is Some && first_udp(history[i]) != Some(
            local_port,
        ) && first_udp(history[j]) != Some(local_port) ==> first_udp(history[i]) == first_udp(
            history[j],
        )
}

/// Observations of one connection only are kept: apart from the local port at most
/// one port is ever among them.
pub proof fn law_observations_of_one_connection(
    history: Seq<Seq<Part>>,
    local_port: u16,
    addr: Seq<Part>,
)
    requires
        one_mapping(history, local_port),
    ensures
        one_mapping(recorded(history, local_port, addr), local_port),
        recorded(history, local_port, addr).last() == addr,
{
}

/// Hole punching is skipped exactly where the strategy says so.
pub proof fn law_skip_is_strategy(d: NatDiagnostic)
    ensures
        (d.nat_type() == NatType::Symmetric || d.is_4g()) <==> strategy_for(d.nat_type(), d.is_4g())
            == ConnectionStrategy::SkipDcutr,
{
}

/// Networks of mobile carriers and hot spots are 192.168.174.0/24, 192.168.133.0/24 and
/// 192.168.43.0/24, and all that carriers use inside.
pub proof fn law_mobile_networks(ip: Ipv4)
    ensures
        ({
            let net = ip.a * 0x1_0000 + ip.b * 0x100 + ip.c;
            mobile_network(ip) <==> net == 0xc0_a8ae || net == 0xc0_a885 || net == 0xc0_a82b
                || carrier_internal(ip)
        }),
{
}

/// An observation at the local port, or at a port that was seen before, joins the others;
/// one at a new port, or at none, starts them anew: the connection is another one.
pub proof fn law_new_port_starts_anew(
    history: Seq<Seq<Part>>,
    local_port: u16,
    addr: Seq<Part>,
)
    ensures
        ({
            let known = first_udp(addr) matches Some(port) && (port == local_port || exists|i: int|
                0 <= i < history.len() && first_udp(#[trigger] history[i]) == Some(port));
            &&& known ==> recorded(history, local_port, addr) == history.push(addr)
            &&& !known ==> recorded(history, local_port, addr) == seq![addr]
        }),
{
}

/// Hole punching is tried exactly where the NAT is not symmetric and the network is not a
/// mobile one, and the reason says which of the two speaks against it.
pub proof fn law_when_holes_are_punched(nat_type: NatType, is_4g: bool)
    ensures
        strategy_for(nat_type, is_4g) == ConnectionStrategy::Dcutr <==> nat_type
            != NatType::Symmetric && !is_4g,
        nat_type == NatType::Symmetric ==> strategy_reason(nat_type, is_4g)
            == "Symmetric NAT: DCUtR will fail, port mapping is unpredictable. Saved ~17s timeout waiting."@,
        nat_type != NatType::Symmetric && is_4g ==> strategy_reason(nat_type, is_4g)
            == "4G/CGNAT: DCUtR will fail, carrier-grade NAT blocks inbound UDP. Saved ~17s timeout waiting."@,
        nat_type == NatType::Unknown && !is_4g ==> strategy_reason(nat_type, is_4g)
            == "NAT type unknown: DCUtR will be attempted"@,
        nat_type != NatType::Unknown && nat_type != NatType::Symmetric && !is_4g ==> strategy_reason(
            nat_type,
            is_4g,
        ) == nat_type.short_name_text() + " NAT: DCUtR should succeed"@,
{
}

} // verus!
