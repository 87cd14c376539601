use p2p_camera::net::addr::{Ipv4, Ipv6, Multiaddr, Protocol};
use p2p_camera::relay_server::config::{CliOverrides, Config};
use p2p_camera::relay_server::startup::{
    dial_texts, external_addresses, listen_addresses, listen_failure_is_fatal, IpAddress,
    PublicIpError, PublicIpText,
};

fn v4(a: u8, b: u8, c: u8, d: u8) -> Option<IpAddress> {
    Some(IpAddress::V4(Ipv4 { a, b, c, d }))
}

fn v6(first: u16, last: u16) -> Option<IpAddress> {
    Some(IpAddress::V6(Ipv6::from_segments([first, 0, 0, 0, 0, 0, 0, last])))
}

fn kinds(a: &Multiaddr) -> Vec<&'static str> {
    a.parts
        .iter()
        .map(|p| match p {
            Protocol::Ip4(_) => "ip4",
            Protocol::Ip6(_) => "ip6",
            Protocol::Tcp(4001) => "tcp",
            Protocol::Udp(4001) => "udp",
            Protocol::QuicV1 => "quic",
            _ => "?",
        })
        .collect()
}

#[test]
fn relay_defaults_and_overrides() {
    let mut c = Config::default();
    assert_eq!((c.use_ipv6, c.key_file.as_str(), c.port), (false, "relay-server.key", 4001));
    assert!(c.public_ips.is_empty());
    c.apply_cli_overrides(&CliOverrides::default());
    assert_eq!(c.port, 4001);
    let cli = CliOverrides {
        use_ipv6: true,
        key_file: Some("k".to_string()),
        port: Some(5000),
        public_ips: vec!["1.2.3.4".to_string()],
    };
    c.apply_cli_overrides(&cli);
    assert_eq!((c.use_ipv6, c.key_file.as_str(), c.port), (true, "k", 5000));
    assert_eq!(c.public_ips, vec!["1.2.3.4"]);
    c.apply_cli_overrides(&CliOverrides::default());
    assert_eq!((c.use_ipv6, c.port), (true, 5000));
    assert_eq!(c.public_ips, vec!["1.2.3.4"]);
}

#[test]
fn relay_listens_on_both_families() {
    let v: Vec<Vec<&str>> = listen_addresses(4001, true).iter().map(kinds).collect();
    assert_eq!(
        v,
        vec![
            vec!["ip4", "tcp"],
            vec!["ip4", "udp", "quic"],
            vec!["ip6", "tcp"],
            vec!["ip6", "udp", "quic"]
        ]
    );
    let only4 = listen_addresses(4001, false);
    assert_eq!(only4.len(), 2);
    assert!(listen_failure_is_fatal(&only4[0]));
    assert!(!listen_failure_is_fatal(&listen_addresses(4001, true)[3]));
}

#[test]
fn relay_tells_of_public_addresses_only() {
    let ok = external_addresses(&vec![v4(1, 2, 3, 4), v6(0x2408, 1)], 4001, false).unwrap();
    let v: Vec<Vec<&str>> = ok.addrs.iter().map(kinds).collect();
    assert_eq!(
        v,
        vec![
            vec!["ip4", "tcp"],
            vec!["ip4", "udp", "quic"],
            vec!["ip6", "tcp"],
            vec!["ip6", "udp", "quic"]
        ]
    );
    assert!(ok.ipv6_not_listening);
    assert!(!external_addresses(&vec![v6(0x2408, 1)], 4001, true).unwrap().ipv6_not_listening);
    let refused = |e: Option<IpAddress>| {
        external_addresses(&vec![v4(1, 1, 1, 1), e], 4001, true).unwrap_err()
    };
    assert_eq!(refused(None), PublicIpError::Invalid(1));
    for bad in [
        v4(10, 0, 0, 1),
        v4(172, 16, 0, 1),
        v4(172, 31, 9, 1),
        v4(192, 168, 1, 1),
        v4(127, 0, 0, 1),
        v4(169, 254, 0, 1),
        v4(0, 0, 0, 0),
        v6(0xfc00, 1),
        v6(0xfdff, 1),
        v6(0xfe80, 1),
        v6(0xfebf, 1),
        v6(0, 1),
        v6(0, 0),
    ] {
        assert_eq!(refused(bad), PublicIpError::NotPublic(1));
    }
    for good in [v4(172, 32, 0, 1), v4(100, 64, 0, 1), v6(0xfe00, 1), v6(0xfec0, 1)] {
        assert!(external_addresses(&vec![good], 4001, true).is_ok());
    }
}

#[test]
fn relay_addresses_to_dial() {
    let placeholder = dial_texts(&vec![], 4001, "PEER");
    assert_eq!(
        placeholder,
        vec![
            "/ip4/<PUBLIC_IP>/tcp/4001/p2p/PEER",
            "/ip4/<PUBLIC_IP>/udp/4001/quic-v1/p2p/PEER"
        ]
    );
    let ips = vec![
        PublicIpText { text: "1.2.3.4".to_string(), is_ipv6: false },
        PublicIpText { text: "2408::1".to_string(), is_ipv6: true },
    ];
    assert_eq!(
        dial_texts(&ips, 80, "P"),
        vec![
            "/ip4/1.2.3.4/tcp/80/p2p/P",
            "/ip4/1.2.3.4/udp/80/quic-v1/p2p/P",
            "/ip6/2408::1/tcp/80/p2p/P",
            "/ip6/2408::1/udp/80/quic-v1/p2p/P"
        ]
    );
}
