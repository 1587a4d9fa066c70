//! Verified core of a TUN-over-TCP tunnel: IPv4 header field extraction,
//! tunnel configuration, interface-name encoding, command planning for
//! interface and route setup, the read buffer that collects data from
//! non-blocking sources, and the TCP endpoints' event and routing decisions.
pub mod config;
pub mod ifname;
pub mod net;
pub mod relay;
pub mod setup;
pub mod tcp;
pub mod text;

pub use config::{TunnelNetConfig, TunnelNetProtocol, TunnelRole};
pub use ifname::{decode_ifname, encode_ifname, IfNameError, IFF_TUN, IFNAMSIZ};
pub use net::{get_ipv4_source, get_ipv4_target};
pub use relay::{ReadAction, ReadBuffer, ReadOutcome, INITIAL_READ_CAPACITY, READ_GROWTH};
pub use setup::{
    plan_link_setup, plan_routes, server_host, DefaultInterface, MissingInterfaceInfo, Platform,
    RoutePlan, SetupError, ShellCommand,
};
pub use tcp::{
    client_event, server_event, ClientEvent, ServerEvent, TunnelNetTCPServer,
    FIRST_CONNECTION_TOKEN, PEER_TOKEN, TUN_TOKEN,
};
pub use text::{before_first_colon, ipv4_to_dotted, str_equals, u32_to_decimal};
