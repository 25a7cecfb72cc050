use restrictions::{LocalProtocol, ReverseTunnelConfigProtocol, TunnelConfigProtocol};

#[test]
fn forward_classification_keeps_tcp_and_udp() {
    assert_eq!(TunnelConfigProtocol::from(&LocalProtocol::Tcp), TunnelConfigProtocol::Tcp);
    assert_eq!(TunnelConfigProtocol::from(&LocalProtocol::Udp), TunnelConfigProtocol::Udp);
}

#[test]
fn forward_classification_of_other_shapes_is_unknown() {
    let others = vec![
        LocalProtocol::Stdio,
        LocalProtocol::Socks5,
        LocalProtocol::TProxyTcp,
        LocalProtocol::TProxyUdp,
        LocalProtocol::ReverseTcp,
        LocalProtocol::ReverseUdp,
        LocalProtocol::ReverseSocks5,
        LocalProtocol::ReverseUnix,
        LocalProtocol::Unix,
    ];
    for shape in &others {
        assert_eq!(TunnelConfigProtocol::from(shape), TunnelConfigProtocol::Unknown);
    }
}

#[test]
fn reverse_classification_keeps_the_reverse_shapes() {
    assert_eq!(
        ReverseTunnelConfigProtocol::from(&LocalProtocol::ReverseTcp),
        ReverseTunnelConfigProtocol::Tcp
    );
    assert_eq!(
        ReverseTunnelConfigProtocol::from(&LocalProtocol::ReverseUdp),
        ReverseTunnelConfigProtocol::Udp
    );
    assert_eq!(
        ReverseTunnelConfigProtocol::from(&LocalProtocol::ReverseSocks5),
        ReverseTunnelConfigProtocol::Socks5
    );
    assert_eq!(
        ReverseTunnelConfigProtocol::from(&LocalProtocol::ReverseUnix),
        ReverseTunnelConfigProtocol::Unix
    );
}

#[test]
fn reverse_classification_of_other_shapes_is_unknown() {
    let others = vec![
        LocalProtocol::Tcp,
        LocalProtocol::Udp,
        LocalProtocol::Stdio,
        LocalProtocol::Socks5,
        LocalProtocol::TProxyTcp,
        LocalProtocol::TProxyUdp,
        LocalProtocol::Unix,
    ];
    for shape in &others {
        assert_eq!(
            ReverseTunnelConfigProtocol::from(shape),
            ReverseTunnelConfigProtocol::Unknown
        );
    }
}

#[test]
fn no_shape_is_known_to_both_directions() {
    let all = vec![
        LocalProtocol::Tcp,
        LocalProtocol::Udp,
        LocalProtocol::Stdio,
        LocalProtocol::Socks5,
        LocalProtocol::TProxyTcp,
        LocalProtocol::TProxyUdp,
        LocalProtocol::ReverseTcp,
        LocalProtocol::ReverseUdp,
        LocalProtocol::ReverseSocks5,
        LocalProtocol::ReverseUnix,
        LocalProtocol::Unix,
    ];
    for shape in &all {
        let forward = TunnelConfigProtocol::from(shape);
        let reverse = ReverseTunnelConfigProtocol::from(shape);
        assert!(
            forward == TunnelConfigProtocol::Unknown
                || reverse == ReverseTunnelConfigProtocol::Unknown
        );
    }
}
