//! The viewer's view of its own NAT and of its connection.

use vstd::prelude::*;

use crate::net::addr::{addr_views, Ipv4, Multiaddr, Part};
pub use crate::net::nat_diag::{NatDiagnosis, NatType};
use crate::net::nat_diag::{
    carrier_internal, diagnose_history, finding, in_net24, is_carrier_internal, reports,
};

verus! {

broadcast use vstd::string::group_string_axioms;

/// How two peers are connected.
#[derive(Debug, Clone, Copy, PartialEq, Eq, Structural)]
pub enum ConnectionType {
    RelayCircuit,
    QuicDirect,
    LanDirect,
    TcpDirect,
    Disconnected,
}

impl ConnectionType {
    /// Whether traffic goes to the peer without a relay.
    pub open spec fn direct(self) -> bool {
        self == ConnectionType::QuicDirect || self == ConnectionType::LanDirect || self
            == ConnectionType::TcpDirect
    }

    pub fn description(&self) -> (r: &'static str)
        ensures
            r@ == match *self {
                ConnectionType::RelayCircuit => "Relay Circuit (forwarded via relay server)"@,
                ConnectionType::QuicDirect => "QUIC Direct (hole punched, no relay)"@,
                ConnectionType::LanDirect => "LAN Direct (same subnet, no relay)"@,
                ConnectionType::TcpDirect => "TCP Direct"@,
                ConnectionType::Disconnected => "Disconnected"@,
            },
    {
        match self {
            ConnectionType::RelayCircuit => "Relay Circuit (forwarded via relay server)",
            ConnectionType::QuicDirect => "QUIC Direct (hole punched, no relay)",
            ConnectionType::LanDirect => "LAN Direct (same subnet, no relay)",
            ConnectionType::TcpDirect => "TCP Direct",
            ConnectionType::Disconnected => "Disconnected",
        }
    }

    pub fn is_relay(&self) -> (r: bool)
        ensures
            r == (*self == ConnectionType::RelayCircuit),
    {
        *self == ConnectionType::RelayCircuit
    }

    pub fn is_direct(&self) -> (r: bool)
        ensures
            r == self.direct(),
    {
        *self == ConnectionType::QuicDirect || *self == ConnectionType::LanDirect || *self
            == ConnectionType::TcpDirect
    }
}

/// The state of the connection to the camera.
#[derive(Debug, Clone)]
pub struct ConnectionQuality {
    pub connection_type: ConnectionType,
    pub active_connections: usize,
    pub direct_upgraded: bool,
    pub last_dcutr_result: Option<Result<(), String>>,
}

impl Default for ConnectionQuality {
    fn default() -> (r: ConnectionQuality)
        ensures
            r == (ConnectionQuality {
                connection_type: ConnectionType::Disconnected,
                active_connections: 0,
                direct_upgraded: false,
                last_dcutr_result: None,
            }),
    {
        ConnectionQuality {
            connection_type: ConnectionType::Disconnected,
            active_connections: 0,
            direct_upgraded: false,
            last_dcutr_result: None,
        }
    }
}

/// Whether an address looks like one of a mobile network: the usual network of a
/// phone's hot spot, or inside a carrier's network.
pub open spec fn mobile_network(ip: Ipv4) -> bool {
    in_net24(ip, 192, 168, 174) || carrier_internal(ip)
}

/// Whether an address looks like one of a mobile network.
pub fn is_4g_network(ip: Ipv4) -> (r: bool)
    ensures
        r == mobile_network(ip),
{
    if ip.a == 192 && ip.b == 168 && ip.c == 174 {
        return true;
    }
    is_carrier_internal(ip)
}

/// Whether some address looks like one of a mobile network.
pub open spec fn any_mobile(ips: Seq<Ipv4>) -> bool {
    exists|i: int| 0 <= i < ips.len() && mobile_network(#[trigger] ips[i])
}

/// What relays have observed, and what the viewer knows of itself.
pub struct NatView {
    pub history: Seq<Seq<Part>>,
    pub local_port: u16,
    pub ips: Seq<Ipv4>,
    pub forced: bool,
}

/// Collects what relays observe.
pub struct NatDiagnostic {
    observed_history: Vec<Multiaddr>,
    local_quic_port: u16,
    local_ips: Vec<Ipv4>,
    force_4g: bool,
}

impl NatDiagnostic {
    /// The addresses under which relays saw the viewer.
    pub closed spec fn history(&self) -> Seq<Seq<Part>> {
        addr_views(self.observed_history@)
    }

    pub closed spec fn local_port(&self) -> u16 {
        self.local_quic_port
    }

    pub closed spec fn ips(&self) -> Seq<Ipv4> {
        self.local_ips@
    }

    /// The user has said that the network is a mobile one.
    pub closed spec fn forced(&self) -> bool {
        self.force_4g
    }

    pub open spec fn view(&self) -> NatView {
        NatView {
            history: self.history(),
            local_port: self.local_port(),
            ips: self.ips(),
            forced: self.forced(),
        }
    }

    pub open spec fn is_4g(&self) -> bool {
        self.forced() || any_mobile(self.ips())
    }

    /// The kind of NAT that the observations show.
    pub open spec fn nat_type(&self) -> NatType {
        finding(self.history(), self.local_port(), false).nat_type
    }

    pub fn new(local_quic_port: u16, local_ips: Vec<Ipv4>) -> (r: NatDiagnostic)
        ensures
            r.history() == Seq::<Seq<Part>>::empty(),
            r.local_port() == local_quic_port,
            r.ips() == local_ips@,
            !r.forced(),
    {
        let r = NatDiagnostic {
            observed_history: Vec::new(),
            local_quic_port,
            local_ips,
            force_4g: false,
        };
        assert(r.history() =~= Seq::<Seq<Part>>::empty());
        r
    }

    /// Says that the network is a mobile one.
    pub fn set_force_4g(&mut self, force: bool)
        ensures
            final(self).forced() == force,
            final(self).history() == old(self).history(),
            final(self).local_port() == old(self).local_port(),
            final(self).ips() == old(self).ips(),
    {
        self.force_4g = force;
    }

    /// Notes an address under which a relay saw the viewer.
    pub fn record_observed(&mut self, addr: &Multiaddr)
        ensures
            final(self).history() == old(self).history().push(addr@),
            final(self).local_port() == old(self).local_port(),
            final(self).ips() == old(self).ips(),
            final(self).forced() == old(self).forced(),
    {
        let ghost history = self.history();
        self.observed_history.push(addr.clone());
        assert(self.history() =~= history.push(addr@));
    }

    pub fn observed_history_is_empty(&self) -> (r: bool)
        ensures
            r == (self.history().len() == 0),
    {
        self.observed_history.len() == 0
    }

    pub fn local_ips(&self) -> (r: &[Ipv4])
        ensures
            r@ == self.ips(),
    {
        self.local_ips.as_slice()
    }

    fn on_4g(&self) -> (r: bool)
        ensures
            r == self.is_4g(),
    {
        if self.force_4g {
            return true;
        }
        let mut i: usize = 0;
        while i < self.local_ips.len()
            invariant
                i <= self.local_ips@.len(),
                forall|k: int| 0 <= k < i ==> !mobile_network(#[trigger] self.ips()[k]),
            decreases self.local_ips@.len() - i,
        {
            if is_4g_network(self.local_ips[i]) {
                assert(mobile_network(self.ips()[i as int]));
                return true;
            }
            i += 1;
        }
        false
    }

    /// What the observations say of the NAT.
    pub fn diagnose(&self) -> (r: NatDiagnosis)
        ensures
            reports(r, self.history(), self.local_port(), self.is_4g(), false),
    {
        diagnose_history(&self.observed_history, self.local_quic_port, self.on_4g(), false)
    }
}

/// A network is a mobile one where it is 192.168.174.0/24 or one that carriers use inside;
/// one such address among several is enough.
pub proof fn law_mobile_networks(ip: Ipv4, ips: Seq<Ipv4>, i: int)
    requires
        0 <= i < ips.len(),
    ensures
        mobile_network(ip) <==> ip.a * 0x1_0000 + ip.b * 0x100 + ip.c == 0xc0_a8ae
            || carrier_internal(ip),
        mobile_network(ips[i]) ==> any_mobile(ips),
        (forall|k: int| 0 <= k < ips.len() ==> !mobile_network(#[trigger] ips[k])) ==> !any_mobile(
            ips,
        ),
{
}

/// A connection is direct unless it goes through a relay or there is none.
pub proof fn law_direct_connections(kind: ConnectionType)
    ensures
        kind.direct() <==> kind != ConnectionType::RelayCircuit && kind
            != ConnectionType::Disconnected,
{
}

} // verus!
