use tunnel_net::{
    client_event, server_event, ClientEvent, ServerEvent, TunnelNetConfig, TunnelNetProtocol,
    TunnelNetTCPServer, FIRST_CONNECTION_TOKEN,
};

fn server() -> TunnelNetTCPServer {
    let cfg = TunnelNetConfig::new(
        true,
        false,
        "utun10".to_string(),
        "172.16.0.10/24".to_string(),
        "8.8.8.8:53".to_string(),
        "172.16.0.10".to_string(),
        "172.16.0.1".to_string(),
        1500,
        "0.0.0.0:3001".to_string(),
        "127.0.0.1:3001".to_string(),
        TunnelNetProtocol::TCP,
    );
    TunnelNetTCPServer::new(&cfg)
}

fn packet(src: [u8; 4], dst: [u8; 4]) -> Vec<u8> {
    let mut p = vec![0u8; 28];
    p[0] = 0x45;
    p[12..16].copy_from_slice(&src);
    p[16..20].copy_from_slice(&dst);
    p
}

#[test]
fn server_listens_on_local_address() {
    assert_eq!(server().local_addr(), "0.0.0.0:3001");
}

#[test]
fn tokens_start_after_listener_and_increase() {
    let mut s = server();
    assert!(!s.tokens_exhausted());
    assert_eq!(s.next_unique_token(), FIRST_CONNECTION_TOKEN);
    assert_eq!(s.next_unique_token(), 3);
    assert_eq!(s.next_unique_token(), 4);
}

#[test]
fn reply_goes_to_connection_that_sent() {
    let mut s = server();
    assert!(s.learn_route(5, &packet([172, 16, 0, 2], [8, 8, 8, 8])));
    assert!(s.learn_route(6, &packet([172, 16, 0, 3], [8, 8, 8, 8])));
    assert_eq!(s.route_for(&packet([8, 8, 8, 8], [172, 16, 0, 2])), Some(5));
    assert_eq!(s.route_for(&packet([8, 8, 8, 8], [172, 16, 0, 3])), Some(6));
    assert_eq!(s.route_for(&packet([8, 8, 8, 8], [172, 16, 0, 4])), None);
}

#[test]
fn latest_connection_wins() {
    let mut s = server();
    s.learn_route(5, &packet([172, 16, 0, 2], [1, 1, 1, 1]));
    s.learn_route(9, &packet([172, 16, 0, 2], [1, 1, 1, 1]));
    assert_eq!(s.route_for(&packet([1, 1, 1, 1], [172, 16, 0, 2])), Some(9));
}

#[test]
fn short_packets_are_not_routed() {
    let mut s = server();
    assert!(!s.learn_route(5, &[0u8; 15]));
    s.learn_route(5, &packet([0, 0, 0, 0], [1, 1, 1, 1]));
    assert_eq!(s.route_for(&[0u8; 19]), None);
    assert_eq!(s.route_for(&[0u8; 20]), Some(5));
}

#[test]
fn events_are_classified_by_token() {
    assert_eq!(server_event(0), ServerEvent::Tun);
    assert_eq!(server_event(1), ServerEvent::Listener);
    assert_eq!(server_event(7), ServerEvent::Connection(7));
    assert_eq!(client_event(0), ClientEvent::Tun);
    assert_eq!(client_event(1), ClientEvent::Server);
    assert_eq!(client_event(2), ClientEvent::Unknown);
}
