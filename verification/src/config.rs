use crate::text::str_equals;
use vstd::prelude::*;

verus! {

/// The transport that carries the tunnel.
#[derive(Clone, Copy, Debug, PartialEq, Eq, Structural)]
pub enum TunnelNetProtocol {
    TCP,
    UDP,
    WebSocket,
}

/// The name under which each protocol is written on the command line
/// (the kebab-case form of the variant's name).
pub open spec fn protocol_name(p: TunnelNetProtocol) -> Seq<char> {
    match p {
        TunnelNetProtocol::TCP => "tcp"@,
        TunnelNetProtocol::UDP => "udp"@,
        TunnelNetProtocol::WebSocket => "web-socket"@,
    }
}

/// The protocol named by `s`, matched exactly (case included).
pub open spec fn protocol_named(s: Seq<char>) -> Option<TunnelNetProtocol> {
    if s == "tcp"@ {
        Some(TunnelNetProtocol::TCP)
    } else if s == "udp"@ {
        Some(TunnelNetProtocol::UDP)
    } else if s == "web-socket"@ {
        Some(TunnelNetProtocol::WebSocket)
    } else {
        None
    }
}

impl TunnelNetProtocol {
    /// The command-line name of the protocol.
    pub fn name(self) -> (r: &'static str)
        ensures
            r@ == protocol_name(self),
    {
        match self {
            TunnelNetProtocol::TCP => "tcp",
            TunnelNetProtocol::UDP => "udp",
            TunnelNetProtocol::WebSocket => "web-socket",
        }
    }

    /// Parses a protocol from its command-line name; `None` when `s` names
    /// no protocol.
    pub fn from_name(s: &str) -> (r: Option<TunnelNetProtocol>)
        ensures
            r == protocol_named(s@),
    {
        if str_equals(s, "tcp") {
            Some(TunnelNetProtocol::TCP)
        } else if str_equals(s, "udp") {
            Some(TunnelNetProtocol::UDP)
        } else if str_equals(s, "web-socket") {
            Some(TunnelNetProtocol::WebSocket)
        } else {
            None
        }
    }
}

/// Every protocol is parsed back from its own name.
pub proof fn lemma_protocol_name_round_trip(p: TunnelNetProtocol)
    ensures
        protocol_named(protocol_name(p)) == Some(p),
{
    reveal_strlit("tcp");
    reveal_strlit("udp");
    reveal_strlit("web-socket");
    assert("tcp"@[0] == 't');
    assert("udp"@[0] == 'u');
    assert("web-socket"@.len() == 10);
    assert("udp"@ != "tcp"@);
    assert("web-socket"@ != "tcp"@);
    assert("web-socket"@ != "udp"@);
}

/// A name parses to a protocol only if it is that protocol's name, so no
/// two protocols share a name and nothing else is accepted.
pub proof fn lemma_protocol_named_only_by_name(s: Seq<char>)
    ensures
        protocol_named(s) matches Some(p) ==> protocol_name(p) == s,
        protocol_named(s) is None ==> s != protocol_name(TunnelNetProtocol::TCP) && s
            != protocol_name(TunnelNetProtocol::UDP) && s != protocol_name(
            TunnelNetProtocol::WebSocket,
        ),
{
}

/// Only TCP runs anything: as server in server mode, as client otherwise.
pub proof fn lemma_role(c: ConfigView)
    ensures
        spec_role(c) == TunnelRole::TcpServer <==> c.protocol == TunnelNetProtocol::TCP
            && c.server_mode,
        spec_role(c) == TunnelRole::TcpClient <==> c.protocol == TunnelNetProtocol::TCP
            && !c.server_mode,
        spec_role(c) == TunnelRole::Idle <==> c.protocol != TunnelNetProtocol::TCP,
{
}

/// What a configuration holds, as mathematical values.
pub ghost struct ConfigView {
    pub server_mode: bool,
    pub global_mode: bool,
    pub dev_name: Seq<char>,
    pub cidr: Seq<char>,
    pub dns: Seq<char>,
    pub darwin_vpn_ip: Seq<char>,
    pub darwin_vpn_gateway: Seq<char>,
    pub mtu: u32,
    pub local_addr: Seq<char>,
    pub server_addr: Seq<char>,
    pub protocol: TunnelNetProtocol,
}

/// The settings of a tunnel endpoint, as given on the command line.
pub struct TunnelNetConfig {
    server_mode: bool,
    global_mode: bool,
    dev_name: String,
    cidr: String,
    dns: String,
    darwin_vpn_ip: String,
    darwin_vpn_gateway: String,
    mtu: u32,
    local_addr: String,
    server_addr: String,
    protocol: TunnelNetProtocol,
}

impl View for TunnelNetConfig {
    type V = ConfigView;

    closed spec fn view(&self) -> ConfigView {
        ConfigView {
            server_mode: self.server_mode,
            global_mode: self.global_mode,
            dev_name: self.dev_name@,
            cidr: self.cidr@,
            dns: self.dns@,
            darwin_vpn_ip: self.darwin_vpn_ip@,
            darwin_vpn_gateway: self.darwin_vpn_gateway@,
            mtu: self.mtu,
            local_addr: self.local_addr@,
            server_addr: self.server_addr@,
            protocol: self.protocol,
        }
    }
}

/// What an endpoint runs, as chosen by its protocol and mode.
#[derive(Clone, Copy, Debug, PartialEq, Eq, Structural)]
pub enum TunnelRole {
    /// TCP server: accepts clients and routes packets between them and the device.
    TcpServer,
    /// TCP client: relays between the device and one server connection.
    TcpClient,
    /// A protocol that does nothing yet (UDP, WebSocket).
    Idle,
}

/// The role that a configuration selects.
pub open spec fn spec_role(c: ConfigView) -> TunnelRole {
    match c.protocol {
        TunnelNetProtocol::TCP => if c.server_mode {
            TunnelRole::TcpServer
        } else {
            TunnelRole::TcpClient
        },
        _ => TunnelRole::Idle,
    }
}

impl TunnelNetConfig {
    /// Builds a configuration from its settings.
    pub fn new(
        server_mode: bool,
        global_mode: bool,
        dev_name: String,
        cidr: String,
        dns: String,
        darwin_vpn_ip: String,
        darwin_vpn_gateway: String,
        mtu: u32,
        local_addr: String,
        server_addr: String,
        protocol: TunnelNetProtocol,
    ) -> (r: TunnelNetConfig)
        ensures
            r@ == (ConfigView {
                server_mode,
                global_mode,
                dev_name: dev_name@,
                cidr: cidr@,
                dns: dns@,
                darwin_vpn_ip: darwin_vpn_ip@,
                darwin_vpn_gateway: darwin_vpn_gateway@,
                mtu,
                local_addr: local_addr@,
                server_addr: server_addr@,
                protocol,
            }),
    {
        TunnelNetConfig {
            server_mode,
            global_mode,
            dev_name,
            cidr,
            dns,
            darwin_vpn_ip,
            darwin_vpn_gateway,
            mtu,
            local_addr,
            server_addr,
            protocol,
        }
    }

    /// The role this configuration selects: TCP server or client, or nothing
    /// for the protocols that are not carried yet.
    pub fn role(&self) -> (r: TunnelRole)
        ensures
            r == spec_role(self@),
    {
        match self.protocol {
            TunnelNetProtocol::TCP => if self.server_mode {
                TunnelRole::TcpServer
            } else {
                TunnelRole::TcpClient
            },
            TunnelNetProtocol::UDP => TunnelRole::Idle,
            TunnelNetProtocol::WebSocket => TunnelRole::Idle,
        }
    }

    pub fn get_protocol(&self) -> (r: TunnelNetProtocol)
        ensures
            r == self@.protocol,
    {
        self.protocol
    }

    pub fn get_mtu(&self) -> (r: u32)
        ensures
            r == self@.mtu,
    {
        self.mtu
    }

    pub fn get_cidr(&self) -> (r: &str)
        ensures
            r@ == self@.cidr,
    {
        self.cidr.as_str()
    }

    pub fn get_dev_name(&self) -> (r: &str)
        ensures
            r@ == self@.dev_name,
    {
        self.dev_name.as_str()
    }

    pub fn get_server_addr(&self) -> (r: &str)
        ensures
            r@ == self@.server_addr,
    {
        self.server_addr.as_str()
    }

    pub fn get_local_addr(&self) -> (r: &str)
        ensures
            r@ == self@.local_addr,
    {
        self.local_addr.as_str()
    }

    pub fn get_server_mode(&self) -> (r: bool)
        ensures
            r == self@.server_mode,
    {
        self.server_mode
    }

    pub fn get_global_mode(&self) -> (r: bool)
        ensures
            r == self@.global_mode,
    {
        self.global_mode
    }

    pub fn get_darwin_vpn_ip(&self) -> (r: &str)
        ensures
            r@ == self@.darwin_vpn_ip,
    {
        self.darwin_vpn_ip.as_str()
    }

    pub fn get_darwin_vpn_gateway(&self) -> (r: &str)
        ensures
            r@ == self@.darwin_vpn_gateway,
    {
        self.darwin_vpn_gateway.as_str()
    }

    pub fn get_dns(&self) -> (r: &str)
        ensures
            r@ == self@.dns,
    {
        self.dns.as_str()
    }
}

} // verus!
