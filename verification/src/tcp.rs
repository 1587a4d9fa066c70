use crate::config::TunnelNetConfig;
use crate::net::{get_ipv4_source, get_ipv4_target, spec_ipv4_source, spec_ipv4_target};
use std::collections::HashMap;
use vstd::prelude::*;

verus! {

broadcast use vstd::std_specs::hash::group_hash_axioms;

/// Poll token of the TUN device.
pub const TUN_TOKEN: usize = 0;

/// Poll token of the peer socket: the listener on the server, the server
/// connection on the client.
pub const PEER_TOKEN: usize = 1;

/// The first token handed to an accepted connection.
pub const FIRST_CONNECTION_TOKEN: usize = 2;

/// Where a readiness event on the server comes from.
#[derive(Clone, Copy, Debug, PartialEq, Eq, Structural)]
pub enum ServerEvent {
    /// The TUN device has packets for the clients.
    Tun,
    /// The listener has connections to accept.
    Listener,
    /// A client connection, by its token.
    Connection(usize),
}

/// Where a readiness event on the client comes from.
#[derive(Clone, Copy, Debug, PartialEq, Eq, Structural)]
pub enum ClientEvent {
    /// The TUN device has packets for the server.
    Tun,
    /// The server connection has packets for the device.
    Server,
    /// A token the client never registered.
    Unknown,
}

/// Which source a token names on the server.
pub open spec fn spec_server_event(token: usize) -> ServerEvent {
    if token == PEER_TOKEN {
        ServerEvent::Listener
    } else if token == TUN_TOKEN {
        ServerEvent::Tun
    } else {
        ServerEvent::Connection(token)
    }
}

/// Which source a token names on the client.
pub open spec fn spec_client_event(token: usize) -> ClientEvent {
    if token == TUN_TOKEN {
        ClientEvent::Tun
    } else if token == PEER_TOKEN {
        ClientEvent::Server
    } else {
        ClientEvent::Unknown
    }
}

/// Classifies a token of a readiness event on the server.
pub fn server_event(token: usize) -> (r: ServerEvent)
    ensures
        r == spec_server_event(token),
        token == TUN_TOKEN <==> r == ServerEvent::Tun,
        token == PEER_TOKEN <==> r == ServerEvent::Listener,
        token >= FIRST_CONNECTION_TOKEN ==> r == ServerEvent::Connection(token),
{
    if token == PEER_TOKEN {
        ServerEvent::Listener
    } else if token == TUN_TOKEN {
        ServerEvent::Tun
    } else {
        ServerEvent::Connection(token)
    }
}

/// Classifies a token of a readiness event on the client.
pub fn client_event(token: usize) -> (r: ClientEvent)
    ensures
        r == spec_client_event(token),
        token == TUN_TOKEN <==> r == ClientEvent::Tun,
        token == PEER_TOKEN <==> r == ClientEvent::Server,
        token >= FIRST_CONNECTION_TOKEN ==> r == ClientEvent::Unknown,
{
    if token == TUN_TOKEN {
        ClientEvent::Tun
    } else if token == PEER_TOKEN {
        ClientEvent::Server
    } else {
        ClientEvent::Unknown
    }
}

/// The server's state as mathematical values: the address it listens on,
/// the next connection token, and the route from each client address to the
/// token of the connection it came through.
pub ghost struct ServerView {
    pub local_addr: Seq<char>,
    pub next_token: usize,
    pub routes: Map<u32, usize>,
}

/// The routes after a packet from connection `token` arrived: its source
/// address now leads to that connection.
pub open spec fn spec_learn(routes: Map<u32, usize>, token: usize, packet: Seq<u8>) -> Map<
    u32,
    usize,
> {
    match spec_ipv4_source(packet) {
        Some(src) => routes.insert(src, token),
        None => routes,
    }
}

/// The connection that a packet from the device goes to: the one its
/// destination address was last seen on, if any.
pub open spec fn spec_route(routes: Map<u32, usize>, packet: Seq<u8>) -> Option<usize> {
    match spec_ipv4_target(packet) {
        Some(dst) => if routes.contains_key(dst) {
            Some(routes[dst])
        } else {
            None
        },
        None => None,
    }
}

/// The TCP server's routing state: the address it listens on, the token
/// counter for accepted connections, and the table from client addresses to
/// connection tokens.
pub struct TunnelNetTCPServer {
    local_addr: String,
    unique_token: usize,
    client_map: HashMap<u32, usize>,
}

impl View for TunnelNetTCPServer {
    type V = ServerView;

    closed spec fn view(&self) -> ServerView {
        ServerView {
            local_addr: self.local_addr@,
            next_token: self.unique_token,
            routes: self.client_map@,
        }
    }
}

impl TunnelNetTCPServer {
    #[verifier::type_invariant]
    spec fn inv(self) -> bool {
        self.unique_token >= FIRST_CONNECTION_TOKEN
    }

    /// A server that listens on the configured local address, has no routes
    /// yet, and hands out tokens from just after the listener's.
    pub fn new(cfg: &TunnelNetConfig) -> (r: TunnelNetTCPServer)
        ensures
            r@ == (ServerView {
                local_addr: cfg@.local_addr,
                next_token: FIRST_CONNECTION_TOKEN,
                routes: Map::empty(),
            }),
    {
        TunnelNetTCPServer {
            local_addr: String::from_str(cfg.get_local_addr()),
            unique_token: PEER_TOKEN + 1,
            client_map: HashMap::new(),
        }
    }

    /// The address the server listens on.
    pub fn local_addr(&self) -> (r: &str)
        ensures
            r@ == self@.local_addr,
    {
        self.local_addr.as_str()
    }

    /// Whether the token counter has reached its end.
    pub fn tokens_exhausted(&self) -> (r: bool)
        ensures
            r == (self@.next_token == usize::MAX),
    {
        self.unique_token == usize::MAX
    }

    /// The token for the next accepted connection; the counter moves on.
    pub fn next_unique_token(&mut self) -> (r: usize)
        requires
            old(self)@.next_token < usize::MAX,
        ensures
            r == old(self)@.next_token,
            r >= FIRST_CONNECTION_TOKEN,
            final(self)@ == (ServerView { next_token: (r + 1) as usize, ..old(self)@ }),
    {
        proof {
            use_type_invariant(&*self);
        }
        let next = self.unique_token;
        self.unique_token = self.unique_token + 1;
        next
    }

    /// Takes in a packet that arrived on connection `token`: when it holds
    /// an IPv4 source address, replies to that address go to this
    /// connection from now on, and the packet is to be written to the
    /// device (`true`); otherwise it is dropped (`false`).
    pub fn learn_route(&mut self, token: usize, packet: &[u8]) -> (r: bool)
        ensures
            final(self)@ == (ServerView {
                routes: spec_learn(old(self)@.routes, token, packet@),
                ..old(self)@
            }),
            r == spec_ipv4_source(packet@) is Some,
    {
        proof {
            use_type_invariant(&*self);
        }
        match get_ipv4_source(packet) {
            Some(src) => {
                let mut routes: HashMap<u32, usize> = HashMap::new();
                core::mem::swap(&mut routes, &mut self.client_map);
                routes.insert(src, token);
                core::mem::swap(&mut routes, &mut self.client_map);
                true
            },
            None => false,
        }
    }

    /// The token of the connection that a packet from the device goes to,
    /// found by its destination address; `None` when the packet has no
    /// destination or no client has sent from that address.
    pub fn route_for(&self, packet: &[u8]) -> (r: Option<usize>)
        ensures
            r == spec_route(self@.routes, packet@),
    {
        match get_ipv4_target(packet) {
            Some(dst) => match self.client_map.get(&dst) {
                Some(t) => Some(*t),
                None => None,
            },
            None => None,
        }
    }
}

/// A reply goes back through the connection that its destination last sent
/// from: after a packet with source address `a` arrived on connection
/// `token`, a packet with destination `a` is routed to `token`.
pub proof fn lemma_reply_follows_learned_route(
    routes: Map<u32, usize>,
    token: usize,
    request: Seq<u8>,
    reply: Seq<u8>,
)
    requires
        spec_ipv4_source(request) is Some,
        spec_ipv4_target(reply) == spec_ipv4_source(request),
    ensures
        spec_route(spec_learn(routes, token, request), reply) == Some(token),
{
}

/// Learning from a packet leaves every other address's route as it was.
pub proof fn lemma_learn_keeps_other_routes(
    routes: Map<u32, usize>,
    token: usize,
    request: Seq<u8>,
    reply: Seq<u8>,
)
    requires
        spec_ipv4_target(reply) != spec_ipv4_source(request),
    ensures
        spec_route(spec_learn(routes, token, request), reply) == spec_route(routes, reply),
{
}

/// Connection tokens are fresh: each one handed out is above the device's
/// and the listener's, and above every token handed out before it.
pub proof fn lemma_tokens_fresh(before: ServerView, after: ServerView, first: usize, second: usize)
    requires
        before.next_token >= FIRST_CONNECTION_TOKEN,
        first == before.next_token,
        after.next_token == first + 1,
        second == after.next_token,
    ensures
        first != TUN_TOKEN && first != PEER_TOKEN,
        second != TUN_TOKEN && second != PEER_TOKEN,
        first < second,
{
}

/// On the server only the device's token is the device and only the
/// listener's token is the listener; every token a connection can get is
/// that connection, and a connection event carries its own token.
pub proof fn lemma_server_event_classification(token: usize)
    ensures
        spec_server_event(token) == ServerEvent::Tun <==> token == TUN_TOKEN,
        spec_server_event(token) == ServerEvent::Listener <==> token == PEER_TOKEN,
        token >= FIRST_CONNECTION_TOKEN ==> spec_server_event(token) == ServerEvent::Connection(
            token,
        ),
        spec_server_event(token) matches ServerEvent::Connection(t) ==> t == token,
{
}

/// Every token that the server hands to an accepted connection is
/// dispatched as that connection's data.
pub proof fn lemma_handed_tokens_are_connections(before: ServerView, token: usize)
    requires
        before.next_token >= FIRST_CONNECTION_TOKEN,
        token == before.next_token,
    ensures
        spec_server_event(token) == ServerEvent::Connection(token),
{
}

/// On the client only the device's token is the device and only the
/// server connection's token is the server; any other token is unknown.
pub proof fn lemma_client_event_classification(token: usize)
    ensures
        spec_client_event(token) == ClientEvent::Tun <==> token == TUN_TOKEN,
        spec_client_event(token) == ClientEvent::Server <==> token == PEER_TOKEN,
        token >= FIRST_CONNECTION_TOKEN ==> spec_client_event(token) == ClientEvent::Unknown,
{
}

} // verus!
