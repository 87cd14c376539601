use p2p_camera::device_cam::net_diag as camera;
use p2p_camera::mobile_core::net_diag as viewer;
use p2p_camera::net::addr::{Ipv4, Multiaddr, PeerId, Protocol};
use p2p_camera::net::addr_book::AddrBook;
use p2p_camera::net::lan::{is_same_subnet, lan_addresses, punchable_address};
use p2p_camera::net::nat_diag::{is_public_ip, NatType};

fn ip(a: u8, b: u8, c: u8, d: u8) -> Ipv4 {
    Ipv4 { a, b, c, d }
}

fn udp(port: u16) -> Multiaddr {
    quic(ip(1, 2, 3, 4), port)
}

fn quic(host: Ipv4, port: u16) -> Multiaddr {
    Multiaddr { parts: vec![Protocol::Ip4(host), Protocol::Udp(port), Protocol::QuicV1] }
}

fn tcp(port: u16) -> Multiaddr {
    Multiaddr { parts: vec![Protocol::Ip4(ip(1, 2, 3, 4)), Protocol::Tcp(port)] }
}

#[test]
fn nat_types_have_names() {
    assert!(NatType::FullCone.dcutr_feasible());
    assert!(NatType::RestrictedCone.dcutr_feasible());
    assert!(NatType::PortRestrictedCone.dcutr_feasible());
    assert!(!NatType::Symmetric.dcutr_feasible());
    assert!(!NatType::Unknown.dcutr_feasible());
    assert_eq!(NatType::Symmetric.short_name(), "Symmetric");
    assert_eq!(
        NatType::Unknown.description(),
        "NAT type unknown - insufficient observation data"
    );
    assert_eq!(camera::ConnectionStrategy::Dcutr.name(), "DCUtR");
    assert_eq!(camera::ConnectionStrategy::SkipDcutr.name(), "SkipDcutr");
    assert_eq!(viewer::ConnectionType::TcpDirect.description(), "TCP Direct");
    assert!(viewer::ConnectionType::RelayCircuit.is_relay());
    assert!(viewer::ConnectionType::LanDirect.is_direct());
    assert!(!viewer::ConnectionType::Disconnected.is_direct());
}

#[test]
fn addresses_of_mobile_networks() {
    for f in [camera::is_4g_network, viewer::is_4g_network] {
        assert!(f(ip(192, 168, 174, 5)));
        assert!(f(ip(100, 64, 0, 1)));
        assert!(f(ip(100, 127, 255, 255)));
        assert!(f(ip(169, 254, 1, 1)));
        assert!(f(ip(224, 0, 0, 1)));
        assert!(!f(ip(192, 168, 1, 5)));
        assert!(!f(ip(10, 1, 1, 1)));
        assert!(!f(ip(127, 0, 0, 1)));
        assert!(!f(ip(0, 0, 0, 0)));
        assert!(!f(ip(8, 8, 8, 8)));
        assert!(!f(ip(100, 128, 0, 1)));
    }
    assert!(camera::is_4g_network(ip(192, 168, 133, 1)));
    assert!(camera::is_4g_network(ip(192, 168, 43, 1)));
    assert!(!viewer::is_4g_network(ip(192, 168, 133, 1)));
    assert!(!viewer::is_4g_network(ip(192, 168, 43, 1)));
    for reserved in [
        ip(192, 0, 0, 1),
        ip(192, 0, 2, 1),
        ip(198, 51, 100, 1),
        ip(203, 0, 113, 1),
        ip(239, 1, 1, 1),
        ip(240, 0, 0, 1),
        ip(172, 16, 0, 1),
    ] {
        assert!(!is_public_ip(reserved));
    }
    assert!(is_public_ip(ip(223, 5, 5, 5)));
}

#[test]
fn viewer_diagnosis_by_ports() {
    let mut d = viewer::NatDiagnostic::new(5000, vec![ip(192, 168, 1, 2)]);
    assert!(d.observed_history_is_empty());
    let r = d.diagnose();
    assert_eq!(r.nat_type, NatType::Unknown);
    assert_eq!(r.evidence, "No Identify observations received yet");
    assert!(!r.dcutr_feasible && !r.is_4g);

    d.record_observed(&tcp(80));
    assert_eq!(
        d.diagnose().evidence,
        "No UDP ports found in observed addresses (TCP-only observations)"
    );
    d.record_observed(&udp(5000));
    let r = d.diagnose();
    assert_eq!(r.nat_type, NatType::FullCone);
    assert_eq!(r.evidence, "Observed port 5000 matches local port 5000 - no NAT or 1:1 NAT");
    assert_eq!(r.observed_addresses.len(), 2);
    d.record_observed(&udp(5000));
    let r = d.diagnose();
    assert_eq!(r.nat_type, NatType::PortRestrictedCone);
    assert_eq!(r.evidence, "Observed port 5000 consistent across 2 observations - Cone NAT");
    d.record_observed(&udp(6000));
    let r = d.diagnose();
    assert_eq!(r.nat_type, NatType::Symmetric);
    assert_eq!(r.evidence, "Observed ports vary: 5000, 5000, 6000 - Symmetric NAT");
    assert!(!r.dcutr_feasible);
    assert!(r.dcutr_suggestion.starts_with("Symmetric NAT: DCUtR hole-punching will not succeed"));
    assert_eq!(d.local_ips().len(), 1);
}

#[test]
fn single_observation_of_another_port_says_little() {
    let mut d = viewer::NatDiagnostic::new(0, vec![]);
    d.record_observed(&udp(0));
    let r = d.diagnose();
    assert_eq!(r.nat_type, NatType::Unknown);
    assert!(r.dcutr_feasible);
    assert_eq!(
        r.evidence,
        "Only 1 observation with port 0 - need more data to determine NAT type"
    );
}

#[test]
fn mobile_network_puts_cones_in_doubt_for_the_camera() {
    let mut d = camera::NatDiagnostic::new(5000, vec![ip(10, 0, 0, 2)]);
    d.record_observed(&udp(5000));
    assert_eq!(d.diagnose().nat_type, NatType::FullCone);
    assert!(!d.should_skip_dcutr());
    let (s, reason) = d.connection_strategy();
    assert_eq!(s, camera::ConnectionStrategy::Dcutr);
    assert_eq!(reason, "FullCone NAT: DCUtR should succeed");
    let p = d.dcutr_prediction();
    assert!(p.likely_success);

    d.set_force_4g(true);
    let r = d.diagnose();
    assert_eq!(r.nat_type, NatType::Unknown);
    assert!(r.is_4g && !r.dcutr_feasible);
    assert!(d.should_skip_dcutr());
    let p = d.dcutr_prediction();
    assert!(!p.likely_success && p.is_4g);
    assert!(p.reason.starts_with("4G/CGNAT + Unknown NAT: "));
    assert_eq!(d.connection_strategy().0, camera::ConnectionStrategy::SkipDcutr);
}

#[test]
fn camera_keeps_observations_of_one_connection() {
    let mut d = camera::NatDiagnostic::new(5000, vec![]);
    d.record_observed(&udp(6000));
    d.record_observed(&udp(6000));
    assert_eq!(d.diagnose().nat_type, NatType::PortRestrictedCone);
    d.record_observed(&udp(7000));
    assert_eq!(d.diagnose().observed_addresses.len(), 1);
    d.record_observed(&udp(5000));
    assert_eq!(d.diagnose().nat_type, NatType::Symmetric);
    assert!(d.should_skip_dcutr());
    assert_eq!(d.connection_strategy().0, camera::ConnectionStrategy::SkipDcutr);
    d.record_observed(&tcp(1));
    assert_eq!(d.diagnose().observed_addresses.len(), 1);
}

#[test]
fn unknown_nat_is_tried() {
    let d = camera::NatDiagnostic::new(5000, vec![]);
    let (s, reason) = d.connection_strategy();
    assert_eq!(s, camera::ConnectionStrategy::Dcutr);
    assert_eq!(reason, "NAT type unknown: DCUtR will be attempted");
    assert!(!d.dcutr_prediction().likely_success);
}

#[test]
fn local_addresses_of_a_peer() {
    assert!(is_same_subnet(ip(192, 168, 1, 2), ip(192, 168, 1, 200)));
    assert!(!is_same_subnet(ip(192, 168, 1, 2), ip(192, 168, 2, 2)));
    let mut relayed = quic(ip(192, 168, 1, 9), 1);
    relayed.parts.push(Protocol::P2pCircuit);
    let listen = vec![
        tcp(1),
        quic(ip(8, 8, 8, 8), 1),
        relayed,
        quic(ip(192, 168, 2, 9), 1),
        quic(ip(192, 168, 1, 9), 7),
    ];
    let near = lan_addresses(&listen, &[ip(192, 168, 1, 2)], true);
    assert_eq!(near.len(), 1);
    assert_eq!(near[0].first_udp(), Some(7));
    assert_eq!(lan_addresses(&listen, &[], true).len(), 2);
    assert_eq!(lan_addresses(&listen, &[], false).len(), 0);
}

#[test]
fn addresses_for_hole_punching() {
    assert_eq!(punchable_address(&quic(ip(192, 168, 1, 9), 7)), Some(ip(192, 168, 1, 9)));
    assert_eq!(punchable_address(&quic(ip(127, 0, 0, 1), 7)), None);
    assert_eq!(punchable_address(&quic(ip(0, 0, 0, 0), 7)), None);
    assert_eq!(punchable_address(&tcp(7)), None);
}

#[test]
fn address_book_keeps_one_address_for_a_peer() {
    let a = PeerId { bytes: vec![1] };
    let b = PeerId { bytes: vec![2] };
    let mut book = AddrBook::new();
    book.insert(&a, &udp(1));
    book.insert(&b, &udp(2));
    book.insert(&a, &udp(3));
    assert_eq!(book.get(&a).unwrap().first_udp(), Some(3));
    assert_eq!(book.get(&b).unwrap().first_udp(), Some(2));
    book.remove(&a);
    assert!(book.get(&a).is_none());
    assert!(book.get(&b).is_some());
}

#[test]
fn parts_of_an_address() {
    let peer = PeerId { bytes: vec![4, 5] };
    let addr = udp(9).with(Protocol::P2pCircuit).with(Protocol::P2p(peer.clone()));
    assert!(addr.has_quic() && addr.has_circuit() && addr.has_peer(&peer));
    assert!(!addr.has_tcp() && !addr.has_ip6() && !addr.has_private_ip4());
    assert!(!addr.has_peer(&PeerId { bytes: vec![4] }));
    assert_eq!(addr.first_peer().unwrap().bytes, vec![4, 5]);
    assert_eq!(addr.first_ip4(), Some(ip(1, 2, 3, 4)));
    assert!(Multiaddr::empty().first_udp().is_none());
}
