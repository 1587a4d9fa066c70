use crate::config::{ConfigView, TunnelNetConfig};
use crate::text::{before_colon, before_first_colon, decimal, dotted_quad, ipv4_to_dotted, u32_to_decimal};
use vstd::prelude::*;

verus! {

/// The operating system that the interface and routes are set up on.
#[derive(Clone, Copy, Debug, PartialEq, Eq, Structural)]
pub enum Platform {
    Linux,
    Darwin,
    Other,
}

/// Why setting up the device stopped.
#[derive(Clone, Copy, Debug, PartialEq, Eq, Structural)]
pub enum SetupError {
    /// Neither Linux nor Darwin.
    UnsupportedPlatform,
    /// The server address holds no `':'` before a port.
    MissingServerPort,
    /// The system reported no default network interface.
    NoDefaultInterface,
}

/// Information that the route setup needs of the default interface but did
/// not find; the setup stops there, after the commands planned before it.
#[derive(Clone, Copy, Debug, PartialEq, Eq, Structural)]
pub enum MissingInterfaceInfo {
    /// The default interface has no IPv4 address.
    Ipv4Address,
    /// The default interface has no gateway.
    Gateway,
}

/// A program to run with its arguments.
pub struct ShellCommand {
    pub program: String,
    pub args: Vec<String>,
}

/// A command as a program name and argument texts.
pub ghost struct CommandView {
    pub program: Seq<char>,
    pub args: Seq<Seq<char>>,
}

impl View for ShellCommand {
    type V = CommandView;

    open spec fn view(&self) -> CommandView {
        CommandView { program: self.program@, args: self.args@.map_values(|a: String| a@) }
    }
}

/// The views of a list of commands.
pub open spec fn commands_view(v: Seq<ShellCommand>) -> Seq<CommandView> {
    v.map_values(|c: ShellCommand| c@)
}

/// What the route setup reads of the system's default interface.
pub struct DefaultInterface {
    /// The interface's first IPv4 address, big-endian.
    pub ipv4: Option<u32>,
    /// The gateway's address, in its text form.
    pub gateway: Option<String>,
}

/// The default interface as mathematical values.
pub ghost struct InterfaceView {
    pub ipv4: Option<u32>,
    pub gateway: Option<Seq<char>>,
}

impl View for DefaultInterface {
    type V = InterfaceView;

    open spec fn view(&self) -> InterfaceView {
        InterfaceView {
            ipv4: self.ipv4,
            gateway: match self.gateway {
                Some(g) => Some(g@),
                None => None,
            },
        }
    }
}

/// Commands planned for the routes, and what was missing if the setup stops
/// after them.
pub struct RoutePlan {
    pub commands: Vec<ShellCommand>,
    pub missing: Option<MissingInterfaceInfo>,
}

pub open spec fn cmd(program: Seq<char>, args: Seq<Seq<char>>) -> CommandView {
    CommandView { program, args }
}

/// The commands that bring the device up, or `None` on an unsupported platform.
pub open spec fn spec_link_commands(platform: Platform, name: Seq<char>, c: ConfigView) -> Option<
    Seq<CommandView>,
> {
    match platform {
        Platform::Linux => Some(
            seq![
                cmd("/sbin/ip"@, seq!["link"@, "set"@, "dev"@, name, "mtu"@, decimal(c.mtu as nat)]),
                cmd("/sbin/ip"@, seq!["addr"@, "add"@, c.cidr, "dev"@, name]),
                cmd("/sbin/ip"@, seq!["link"@, "set"@, "dev"@, name, "up"@]),
            ],
        ),
        Platform::Darwin => Some(
            seq![
                cmd(
                    "ifconfig"@,
                    seq![name, "inet"@, c.darwin_vpn_ip, c.darwin_vpn_gateway, "up"@],
                ),
            ],
        ),
        Platform::Other => None,
    }
}

/// The host route `ip/32` through the physical interface at `via`.
pub open spec fn linux_host_route(ip: Seq<char>, via: u32) -> CommandView {
    cmd(
        "/sbin/ip"@,
        seq!["route"@, "add"@, ip + "/"@ + "32"@, "via"@, "gateway"@, "dev"@, dotted_quad(via)],
    )
}

/// The commands that route traffic once the device is up, and what is
/// missing of the default interface if the setup stops after them.
pub open spec fn spec_route_commands(
    platform: Platform,
    name: Seq<char>,
    c: ConfigView,
    server_ip: Seq<char>,
    iface: InterfaceView,
) -> (Seq<CommandView>, Option<MissingInterfaceInfo>) {
    match platform {
        Platform::Linux => if !c.global_mode {
            (seq![], None)
        } else {
            let half_low = cmd("/sbin/ip"@, seq!["route"@, "add"@, "0.0.0.0/1"@, "dev"@, name]);
            let half_high = cmd("/sbin/ip"@, seq!["route"@, "add"@, "128.0.0.0/1"@, "dev"@, name]);
            match iface.ipv4 {
                None => (seq![half_low, half_high], Some(MissingInterfaceInfo::Ipv4Address)),
                Some(via) => {
                    let base = seq![half_low, half_high, linux_host_route(server_ip, via)];
                    match before_colon(c.dns) {
                        Some(dns_ip) => (base.push(linux_host_route(dns_ip, via)), None),
                        None => (base, None),
                    }
                },
            }
        },
        Platform::Darwin => match iface.gateway {
            None => (seq![], Some(MissingInterfaceInfo::Gateway)),
            Some(gw) => if c.global_mode {
                let server = seq![cmd("route"@, seq!["add"@, server_ip, gw])];
                let dns = match before_colon(c.dns) {
                    Some(dns_ip) => seq![cmd("route"@, seq!["add"@, dns_ip, gw])],
                    None => seq![],
                };
                let rest = seq![
                    cmd("route"@, seq!["add"@, "0.0.0.0/1"@, "-interface"@, name]),
                    cmd("route"@, seq!["add"@, "128.0.0.0/1"@, "-interface"@, name]),
                    cmd("route"@, seq!["add"@, "default"@, c.darwin_vpn_gateway]),
                    cmd("route"@, seq!["add"@, "change"@, c.darwin_vpn_gateway]),
                ];
                (server + dns + rest, None)
            } else {
                (
                    seq![
                        cmd("route"@, seq!["add"@, "default"@, gw]),
                        cmd("route"@, seq!["change"@, "default"@, gw]),
                    ],
                    None,
                )
            },
        },
        Platform::Other => (seq![], None),
    }
}

fn text(s: &str) -> (r: String)
    ensures
        r@ == s@,
{
    String::from_str(s)
}

fn command(program: &str, args: Vec<String>) -> (r: ShellCommand)
    ensures
        r@ == cmd(program@, args@.map_values(|a: String| a@)),
{
    ShellCommand { program: text(program), args }
}

fn push_command(cmds: &mut Vec<ShellCommand>, c: ShellCommand)
    ensures
        commands_view(final(cmds)@) == commands_view(old(cmds)@).push(c@),
{
    cmds.push(c);
    proof {
        assert(commands_view(cmds@) =~= commands_view(old(cmds)@).push(c@));
    }
}

fn args2(a: String, b: String) -> (r: Vec<String>)
    ensures
        r@.map_values(|x: String| x@) == seq![a@, b@],
{
    let mut v: Vec<String> = Vec::new();
    v.push(a);
    v.push(b);
    proof {
        assert(v@.map_values(|x: String| x@) =~= seq![a@, b@]);
    }
    v
}

fn args3(a: String, b: String, c: String) -> (r: Vec<String>)
    ensures
        r@.map_values(|x: String| x@) == seq![a@, b@, c@],
{
    let mut v: Vec<String> = Vec::new();
    v.push(a);
    v.push(b);
    v.push(c);
    proof {
        assert(v@.map_values(|x: String| x@) =~= seq![a@, b@, c@]);
    }
    v
}

fn args4(a: String, b: String, c: String, d: String) -> (r: Vec<String>)
    ensures
        r@.map_values(|x: String| x@) == seq![a@, b@, c@, d@],
{
    let mut v: Vec<String> = Vec::new();
    v.push(a);
    v.push(b);
    v.push(c);
    v.push(d);
    proof {
        assert(v@.map_values(|x: String| x@) =~= seq![a@, b@, c@, d@]);
    }
    v
}

fn args5(a: String, b: String, c: String, d: String, e: String) -> (r: Vec<String>)
    ensures
        r@.map_values(|x: String| x@) == seq![a@, b@, c@, d@, e@],
{
    let mut v: Vec<String> = Vec::new();
    v.push(a);
    v.push(b);
    v.push(c);
    v.push(d);
    v.push(e);
    proof {
        assert(v@.map_values(|x: String| x@) =~= seq![a@, b@, c@, d@, e@]);
    }
    v
}

fn args6(a: String, b: String, c: String, d: String, e: String, f: String) -> (r: Vec<String>)
    ensures
        r@.map_values(|x: String| x@) == seq![a@, b@, c@, d@, e@, f@],
{
    let mut v: Vec<String> = Vec::new();
    v.push(a);
    v.push(b);
    v.push(c);
    v.push(d);
    v.push(e);
    v.push(f);
    proof {
        assert(v@.map_values(|x: String| x@) =~= seq![a@, b@, c@, d@, e@, f@]);
    }
    v
}

fn args7(a: String, b: String, c: String, d: String, e: String, f: String, g: String) -> (r: Vec<
    String,
>)
    ensures
        r@.map_values(|x: String| x@) == seq![a@, b@, c@, d@, e@, f@, g@],
{
    let mut v: Vec<String> = Vec::new();
    v.push(a);
    v.push(b);
    v.push(c);
    v.push(d);
    v.push(e);
    v.push(f);
    v.push(g);
    proof {
        assert(v@.map_values(|x: String| x@) =~= seq![a@, b@, c@, d@, e@, f@, g@]);
    }
    v
}

/// Plans the commands that set the device's MTU and address and bring it up:
/// `ip link` and `ip addr` on Linux, `ifconfig` on Darwin. Any other
/// platform is refused.
pub fn plan_link_setup(platform: Platform, dev_name: &str, cfg: &TunnelNetConfig) -> (r: Result<
    Vec<ShellCommand>,
    SetupError,
>)
    ensures
        match r {
            Ok(cmds) => spec_link_commands(platform, dev_name@, cfg@) == Some(
                commands_view(cmds@),
            ),
            Err(e) => spec_link_commands(platform, dev_name@, cfg@) is None && e
                == SetupError::UnsupportedPlatform,
        },
        r is Err <==> platform == Platform::Other,
        platform == Platform::Linux ==> (r matches Ok(cmds) && cmds@.len() == 3
            && cmds@[0]@.program == "/sbin/ip"@ && cmds@[0]@.args.len() == 6
            && cmds@[0]@.args[3] == dev_name@ && cmds@[0]@.args[4] == "mtu"@
            && cmds@[0]@.args[5] == decimal(cfg@.mtu as nat) && cmds@[1]@.args[2] == cfg@.cidr),
        platform == Platform::Darwin ==> (r matches Ok(cmds) && cmds@.len() == 1
            && cmds@[0]@.program == "ifconfig"@),
{
    let mut cmds: Vec<ShellCommand> = Vec::new();
    match platform {
        Platform::Linux => {
            let mtu = u32_to_decimal(cfg.get_mtu());
            push_command(
                &mut cmds,
                command(
                    "/sbin/ip",
                    args6(text("link"), text("set"), text("dev"), text(dev_name), text("mtu"), mtu),
                ),
            );
            push_command(
                &mut cmds,
                command(
                    "/sbin/ip",
                    args5(
                        text("addr"),
                        text("add"),
                        text(cfg.get_cidr()),
                        text("dev"),
                        text(dev_name),
                    ),
                ),
            );
            push_command(
                &mut cmds,
                command(
                    "/sbin/ip",
                    args5(text("link"), text("set"), text("dev"), text(dev_name), text("up")),
                ),
            );
        },
        Platform::Darwin => {
            push_command(
                &mut cmds,
                command(
                    "ifconfig",
                    args5(
                        text(dev_name),
                        text("inet"),
                        text(cfg.get_darwin_vpn_ip()),
                        text(cfg.get_darwin_vpn_gateway()),
                        text("up"),
                    ),
                ),
            );
        },
        Platform::Other => {
            return Err(SetupError::UnsupportedPlatform);
        },
    }
    proof {
        assert(commands_view(cmds@) =~= spec_link_commands(platform, dev_name@, cfg@).unwrap());
        assert(cmds@[0]@ == commands_view(cmds@)[0]);
    }
    Ok(cmds)
}

/// The server's host: the part of the server address before its first
/// `':'`. Without a `':'` the setup is refused.
pub fn server_host(cfg: &TunnelNetConfig) -> (r: Result<&str, SetupError>)
    ensures
        match r {
            Ok(h) => before_colon(cfg@.server_addr) == Some(h@),
            Err(e) => before_colon(cfg@.server_addr) is None && e == SetupError::MissingServerPort,
        },
{
    match before_first_colon(cfg.get_server_addr()) {
        Some(h) => Ok(h),
        None => Err(SetupError::MissingServerPort),
    }
}

fn linux_host_route_command(ip: &str, via: u32) -> (r: ShellCommand)
    ensures
        r@ == linux_host_route(ip@, via),
{
    let mut dest = text(ip);
    dest.append("/");
    dest.append("32");
    command(
        "/sbin/ip",
        args7(
            text("route"),
            text("add"),
            dest,
            text("via"),
            text("gateway"),
            text("dev"),
            ipv4_to_dotted(via),
        ),
    )
}

/// Plans the routes of the tunnel. On Linux in global mode: both halves of
/// the IPv4 space through the device, then host routes for the server and,
/// when the DNS address has a port, the DNS server, through the default
/// interface's first IPv4 address; outside global mode, nothing. On Darwin:
/// with a gateway, host routes for the server and DNS server via the
/// gateway, both halves through the device and the default route through
/// the tunnel's gateway in global mode, or the default route via the
/// gateway otherwise. When the default interface lacks what a command
/// needs, the plan stops there and says what was missing.
pub fn plan_routes(
    platform: Platform,
    dev_name: &str,
    cfg: &TunnelNetConfig,
    server_ip: &str,
    iface: &DefaultInterface,
) -> (r: RoutePlan)
    ensures
        (commands_view(r.commands@), r.missing) == spec_route_commands(
            platform,
            dev_name@,
            cfg@,
            server_ip@,
            iface@,
        ),
        platform == Platform::Linux && !cfg@.global_mode ==> r.commands@.len() == 0 && r.missing
            is None,
        platform == Platform::Linux && cfg@.global_mode ==> (r.missing is Some <==> iface@.ipv4
            is None),
        platform == Platform::Darwin ==> (r.missing is Some <==> iface@.gateway is None),
        platform == Platform::Other ==> r.commands@.len() == 0 && r.missing is None,
{
    let mut cmds: Vec<ShellCommand> = Vec::new();
    match platform {
        Platform::Linux => {
            if !cfg.get_global_mode() {
                proof {
                    assert(commands_view(cmds@) =~= seq![]);
                }
                return RoutePlan { commands: cmds, missing: None };
            }
            push_command(
                &mut cmds,
                command(
                    "/sbin/ip",
                    args5(text("route"), text("add"), text("0.0.0.0/1"), text("dev"), text(dev_name)),
                ),
            );
            push_command(
                &mut cmds,
                command(
                    "/sbin/ip",
                    args5(
                        text("route"),
                        text("add"),
                        text("128.0.0.0/1"),
                        text("dev"),
                        text(dev_name),
                    ),
                ),
            );
            match iface.ipv4 {
                None => {
                    return RoutePlan { commands: cmds, missing: Some(MissingInterfaceInfo::Ipv4Address) };
                },
                Some(via) => {
                    push_command(&mut cmds, linux_host_route_command(server_ip, via));
                    match before_first_colon(cfg.get_dns()) {
                        Some(dns_ip) => {
                            push_command(&mut cmds, linux_host_route_command(dns_ip, via));
                        },
                        None => {},
                    }
                },
            }
            RoutePlan { commands: cmds, missing: None }
        },
        Platform::Darwin => {
            match &iface.gateway {
                None => {
                    proof {
                        assert(commands_view(cmds@) =~= seq![]);
                    }
                    RoutePlan { commands: cmds, missing: Some(MissingInterfaceInfo::Gateway) }
                },
                Some(gw) => {
                    if cfg.get_global_mode() {
                        push_command(
                            &mut cmds,
                            command("route", args3(text("add"), text(server_ip), text(gw.as_str()))),
                        );
                        match before_first_colon(cfg.get_dns()) {
                            Some(dns_ip) => {
                                push_command(
                                    &mut cmds,
                                    command(
                                        "route",
                                        args3(text("add"), text(dns_ip), text(gw.as_str())),
                                    ),
                                );
                            },
                            None => {},
                        }
                        push_command(
                            &mut cmds,
                            command(
                                "route",
                                args4(
                                    text("add"),
                                    text("0.0.0.0/1"),
                                    text("-interface"),
                                    text(dev_name),
                                ),
                            ),
                        );
                        push_command(
                            &mut cmds,
                            command(
                                "route",
                                args4(
                                    text("add"),
                                    text("128.0.0.0/1"),
                                    text("-interface"),
                                    text(dev_name),
                                ),
                            ),
                        );
                        push_command(
                            &mut cmds,
                            command(
                                "route",
                                args3(
                                    text("add"),
                                    text("default"),
                                    text(cfg.get_darwin_vpn_gateway()),
                                ),
                            ),
                        );
                        push_command(
                            &mut cmds,
                            command(
                                "route",
                                args3(
                                    text("add"),
                                    text("change"),
                                    text(cfg.get_darwin_vpn_gateway()),
                                ),
                            ),
                        );
                        proof {
                            let spec = spec_route_commands(platform, dev_name@, cfg@, server_ip@, iface@);
                            assert(commands_view(cmds@) =~= spec.0);
                        }
                    } else {
                        push_command(
                            &mut cmds,
                            command("route", args3(text("add"), text("default"), text(gw.as_str()))),
                        );
                        push_command(
                            &mut cmds,
                            command("route", args3(text("change"), text("default"), text(gw.as_str()))),
                        );
                    }
                    RoutePlan { commands: cmds, missing: None }
                },
            }
        },
        Platform::Other => {
            proof {
                assert(commands_view(cmds@) =~= seq![]);
            }
            RoutePlan { commands: cmds, missing: None }
        },
    }
}

/// On Linux the device is brought up by three `ip` commands: the first
/// sets the device's MTU to the decimal text of the configured MTU, the
/// second adds the configured address to the device, the third sets it up.
/// Darwin uses one `ifconfig`; other platforms are refused.
pub proof fn lemma_link_commands(name: Seq<char>, c: ConfigView)
    ensures
        spec_link_commands(Platform::Linux, name, c) matches Some(cmds) && cmds.len() == 3
            && cmds[0].program == "/sbin/ip"@ && cmds[0].args == seq![
            "link"@,
            "set"@,
            "dev"@,
            name,
            "mtu"@,
            decimal(c.mtu as nat),
        ] && cmds[1].args == seq!["addr"@, "add"@, c.cidr, "dev"@, name] && cmds[2].args
            == seq!["link"@, "set"@, "dev"@, name, "up"@],
        spec_link_commands(Platform::Darwin, name, c) matches Some(cmds) && cmds.len() == 1
            && cmds[0].program == "ifconfig"@ && cmds[0].args == seq![
            name,
            "inet"@,
            c.darwin_vpn_ip,
            c.darwin_vpn_gateway,
            "up"@,
        ],
        spec_link_commands(Platform::Other, name, c) is None,
{
}

/// On Linux, outside global mode no route is added and nothing is missing,
/// whatever the default interface. In global mode both halves of the IPv4
/// space go through the device first; then, when the default interface has
/// an IPv4 address, a host route for the server (and for the DNS server
/// when its address has a port) through that address, and otherwise the
/// plan stops after the halves reporting the missing address.
pub proof fn lemma_linux_routes(
    name: Seq<char>,
    c: ConfigView,
    server_ip: Seq<char>,
    iface: InterfaceView,
)
    ensures
        !c.global_mode ==> spec_route_commands(Platform::Linux, name, c, server_ip, iface) == (
            Seq::<CommandView>::empty(),
            None::<MissingInterfaceInfo>,
        ),
        c.global_mode ==> {
            let (cmds, missing) = spec_route_commands(Platform::Linux, name, c, server_ip, iface);
            &&& cmds.len() >= 2
            &&& cmds[0] == cmd("/sbin/ip"@, seq!["route"@, "add"@, "0.0.0.0/1"@, "dev"@, name])
            &&& cmds[1] == cmd("/sbin/ip"@, seq!["route"@, "add"@, "128.0.0.0/1"@, "dev"@, name])
            &&& (missing == Some(MissingInterfaceInfo::Ipv4Address) <==> iface.ipv4 is None)
            &&& missing != Some(MissingInterfaceInfo::Gateway)
            &&& iface.ipv4 is None ==> cmds.len() == 2
            &&& iface.ipv4 matches Some(via) ==> {
                &&& cmds.len() == if before_colon(c.dns) is Some {
                    4int
                } else {
                    3int
                }
                &&& cmds[2].program == "/sbin/ip"@
                &&& cmds[2].args == seq![
                    "route"@,
                    "add"@,
                    server_ip + "/"@ + "32"@,
                    "via"@,
                    "gateway"@,
                    "dev"@,
                    dotted_quad(via),
                ]
                &&& before_colon(c.dns) matches Some(dns_ip) ==> cmds[3].args == seq![
                    "route"@,
                    "add"@,
                    dns_ip + "/"@ + "32"@,
                    "via"@,
                    "gateway"@,
                    "dev"@,
                    dotted_quad(via),
                ]
            }
        },
{
}

/// On Darwin, without a gateway the plan stops at once reporting it. With
/// one, outside global mode the default route is added and changed to go
/// via the gateway; in global mode the server (and the DNS server when its
/// address has a port) get routes via the gateway, both halves go through
/// the device, and the default route goes to the tunnel's gateway.
pub proof fn lemma_darwin_routes(
    name: Seq<char>,
    c: ConfigView,
    server_ip: Seq<char>,
    iface: InterfaceView,
)
    ensures
        iface.gateway is None ==> spec_route_commands(Platform::Darwin, name, c, server_ip, iface)
            == (Seq::<CommandView>::empty(), Some(MissingInterfaceInfo::Gateway)),
        iface.gateway matches Some(gw) ==> {
            let (cmds, missing) = spec_route_commands(Platform::Darwin, name, c, server_ip, iface);
            &&& missing is None
            &&& !c.global_mode ==> cmds == seq![
                cmd("route"@, seq!["add"@, "default"@, gw]),
                cmd("route"@, seq!["change"@, "default"@, gw]),
            ]
            &&& c.global_mode ==> {
                let k: int = if before_colon(c.dns) is Some {
                    1
                } else {
                    0
                };
                &&& cmds.len() == 5 + k
                &&& cmds[0] == cmd("route"@, seq!["add"@, server_ip, gw])
                &&& before_colon(c.dns) matches Some(dns_ip) ==> cmds[1] == cmd(
                    "route"@,
                    seq!["add"@, dns_ip, gw],
                )
                &&& cmds[1 + k] == cmd("route"@, seq!["add"@, "0.0.0.0/1"@, "-interface"@, name])
                &&& cmds[2 + k] == cmd("route"@, seq!["add"@, "128.0.0.0/1"@, "-interface"@, name])
                &&& cmds[3 + k] == cmd("route"@, seq!["add"@, "default"@, c.darwin_vpn_gateway])
                &&& cmds[4 + k] == cmd("route"@, seq!["add"@, "change"@, c.darwin_vpn_gateway])
            }
        },
{
}

/// On a platform other than Linux and Darwin no route is planned.
pub proof fn lemma_other_routes(
    name: Seq<char>,
    c: ConfigView,
    server_ip: Seq<char>,
    iface: InterfaceView,
)
    ensures
        spec_route_commands(Platform::Other, name, c, server_ip, iface) == (
            Seq::<CommandView>::empty(),
            None::<MissingInterfaceInfo>,
        ),
{
}

} // verus!
