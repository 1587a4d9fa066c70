use tunnel_net::{
    plan_link_setup, plan_routes, server_host, DefaultInterface, MissingInterfaceInfo, Platform,
    SetupError, ShellCommand, TunnelNetConfig, TunnelNetProtocol,
};

fn config(global_mode: bool, dns: &str, server_addr: &str) -> TunnelNetConfig {
    TunnelNetConfig::new(
        false,
        global_mode,
        "utun10".to_string(),
        "172.16.0.10/24".to_string(),
        dns.to_string(),
        "172.16.0.10".to_string(),
        "172.16.0.1".to_string(),
        1500,
        "127.0.0.1:3000".to_string(),
        server_addr.to_string(),
        TunnelNetProtocol::TCP,
    )
}

fn lines(cmds: &[ShellCommand]) -> Vec<String> {
    cmds.iter()
        .map(|c| {
            let mut s = c.program.clone();
            for a in &c.args {
                s.push(' ');
                s.push_str(a);
            }
            s
        })
        .collect()
}

fn iface(ipv4: Option<u32>, gateway: Option<&str>) -> DefaultInterface {
    DefaultInterface { ipv4, gateway: gateway.map(|g| g.to_string()) }
}

#[test]
fn linux_link_setup() {
    let cfg = config(false, "8.8.8.8:53", "1.2.3.4:3001");
    let cmds = plan_link_setup(Platform::Linux, "tun0", &cfg).unwrap();
    assert_eq!(
        lines(&cmds),
        vec![
            "/sbin/ip link set dev tun0 mtu 1500",
            "/sbin/ip addr add 172.16.0.10/24 dev tun0",
            "/sbin/ip link set dev tun0 up",
        ]
    );
}

#[test]
fn darwin_link_setup() {
    let cfg = config(false, "8.8.8.8:53", "1.2.3.4:3001");
    let cmds = plan_link_setup(Platform::Darwin, "utun10", &cfg).unwrap();
    assert_eq!(lines(&cmds), vec!["ifconfig utun10 inet 172.16.0.10 172.16.0.1 up"]);
}

#[test]
fn other_platform_is_refused() {
    let cfg = config(false, "8.8.8.8:53", "1.2.3.4:3001");
    assert_eq!(plan_link_setup(Platform::Other, "tun0", &cfg).err(), Some(SetupError::UnsupportedPlatform));
}

#[test]
fn server_host_is_before_the_port() {
    assert_eq!(server_host(&config(false, "", "1.2.3.4:3001")), Ok("1.2.3.4"));
    assert_eq!(server_host(&config(false, "", "1.2.3.4")), Err(SetupError::MissingServerPort));
}

#[test]
fn linux_outside_global_mode_adds_no_route() {
    let cfg = config(false, "8.8.8.8:53", "1.2.3.4:3001");
    let plan = plan_routes(Platform::Linux, "tun0", &cfg, "1.2.3.4", &iface(None, None));
    assert!(plan.commands.is_empty());
    assert_eq!(plan.missing, None);
}

#[test]
fn linux_global_mode_routes() {
    let cfg = config(true, "8.8.8.8:53", "1.2.3.4:3001");
    let plan = plan_routes(Platform::Linux, "tun0", &cfg, "1.2.3.4", &iface(Some(0xC0A8_0005), None));
    assert_eq!(plan.missing, None);
    assert_eq!(
        lines(&plan.commands),
        vec![
            "/sbin/ip route add 0.0.0.0/1 dev tun0",
            "/sbin/ip route add 128.0.0.0/1 dev tun0",
            "/sbin/ip route add 1.2.3.4/32 via gateway dev 192.168.0.5",
            "/sbin/ip route add 8.8.8.8/32 via gateway dev 192.168.0.5",
        ]
    );
}

#[test]
fn linux_global_mode_without_dns_port() {
    let cfg = config(true, "8.8.8.8", "1.2.3.4:3001");
    let plan = plan_routes(Platform::Linux, "tun0", &cfg, "1.2.3.4", &iface(Some(0x0A00_0001), None));
    assert_eq!(plan.commands.len(), 3);
    assert_eq!(lines(&plan.commands)[2], "/sbin/ip route add 1.2.3.4/32 via gateway dev 10.0.0.1");
}

#[test]
fn linux_global_mode_without_ipv4_stops_after_halves() {
    let cfg = config(true, "8.8.8.8:53", "1.2.3.4:3001");
    let plan = plan_routes(Platform::Linux, "tun0", &cfg, "1.2.3.4", &iface(None, Some("10.0.0.1")));
    assert_eq!(plan.missing, Some(MissingInterfaceInfo::Ipv4Address));
    assert_eq!(
        lines(&plan.commands),
        vec!["/sbin/ip route add 0.0.0.0/1 dev tun0", "/sbin/ip route add 128.0.0.0/1 dev tun0"]
    );
}

#[test]
fn darwin_global_mode_routes() {
    let cfg = config(true, "8.8.8.8:53", "1.2.3.4:3001");
    let plan = plan_routes(Platform::Darwin, "utun10", &cfg, "1.2.3.4", &iface(None, Some("192.168.0.1")));
    assert_eq!(plan.missing, None);
    assert_eq!(
        lines(&plan.commands),
        vec![
            "route add 1.2.3.4 192.168.0.1",
            "route add 8.8.8.8 192.168.0.1",
            "route add 0.0.0.0/1 -interface utun10",
            "route add 128.0.0.0/1 -interface utun10",
            "route add default 172.16.0.1",
            "route add change 172.16.0.1",
        ]
    );
}

#[test]
fn darwin_default_route_outside_global_mode() {
    let cfg = config(false, "8.8.8.8:53", "1.2.3.4:3001");
    let plan = plan_routes(Platform::Darwin, "utun10", &cfg, "1.2.3.4", &iface(None, Some("192.168.0.1")));
    assert_eq!(
        lines(&plan.commands),
        vec!["route add default 192.168.0.1", "route change default 192.168.0.1"]
    );
}

#[test]
fn darwin_without_gateway_stops_at_once() {
    let cfg = config(true, "8.8.8.8:53", "1.2.3.4:3001");
    let plan = plan_routes(Platform::Darwin, "utun10", &cfg, "1.2.3.4", &iface(Some(1), None));
    assert!(plan.commands.is_empty());
    assert_eq!(plan.missing, Some(MissingInterfaceInfo::Gateway));
}
