use tunnel_net::{TunnelNetConfig, TunnelNetProtocol, TunnelRole};

fn config(server_mode: bool, protocol: TunnelNetProtocol) -> TunnelNetConfig {
    TunnelNetConfig::new(
        server_mode,
        true,
        "utun10".to_string(),
        "172.16.0.10/24".to_string(),
        "8.8.8.8:53".to_string(),
        "172.16.0.10".to_string(),
        "172.16.0.1".to_string(),
        1500,
        "127.0.0.1:3000".to_string(),
        "127.0.0.1:3001".to_string(),
        protocol,
    )
}

#[test]
fn getters_return_settings() {
    let c = config(false, TunnelNetProtocol::TCP);
    assert_eq!(c.get_protocol(), TunnelNetProtocol::TCP);
    assert_eq!(c.get_mtu(), 1500);
    assert_eq!(c.get_cidr(), "172.16.0.10/24");
    assert_eq!(c.get_dev_name(), "utun10");
    assert_eq!(c.get_server_addr(), "127.0.0.1:3001");
    assert_eq!(c.get_local_addr(), "127.0.0.1:3000");
    assert!(!c.get_server_mode());
    assert!(c.get_global_mode());
    assert_eq!(c.get_darwin_vpn_ip(), "172.16.0.10");
    assert_eq!(c.get_darwin_vpn_gateway(), "172.16.0.1");
    assert_eq!(c.get_dns(), "8.8.8.8:53");
}

#[test]
fn role_follows_protocol_and_mode() {
    assert_eq!(config(true, TunnelNetProtocol::TCP).role(), TunnelRole::TcpServer);
    assert_eq!(config(false, TunnelNetProtocol::TCP).role(), TunnelRole::TcpClient);
    assert_eq!(config(true, TunnelNetProtocol::UDP).role(), TunnelRole::Idle);
    assert_eq!(config(false, TunnelNetProtocol::WebSocket).role(), TunnelRole::Idle);
}

#[test]
fn protocol_names_are_kebab_case() {
    assert_eq!(TunnelNetProtocol::from_name("tcp"), Some(TunnelNetProtocol::TCP));
    assert_eq!(TunnelNetProtocol::from_name("udp"), Some(TunnelNetProtocol::UDP));
    assert_eq!(TunnelNetProtocol::from_name("web-socket"), Some(TunnelNetProtocol::WebSocket));
}

#[test]
fn protocol_names_match_exactly() {
    assert_eq!(TunnelNetProtocol::from_name("TCP"), None);
    assert_eq!(TunnelNetProtocol::from_name("websocket"), None);
    assert_eq!(TunnelNetProtocol::from_name("WebSocket"), None);
    assert_eq!(TunnelNetProtocol::from_name(""), None);
    assert_eq!(TunnelNetProtocol::from_name("tcp "), None);
}

#[test]
fn protocol_name_round_trip() {
    for p in [TunnelNetProtocol::TCP, TunnelNetProtocol::UDP, TunnelNetProtocol::WebSocket] {
        assert_eq!(TunnelNetProtocol::from_name(p.name()), Some(p));
    }
    assert_eq!(TunnelNetProtocol::WebSocket.name(), "web-socket");
}
