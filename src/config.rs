use vstd::prelude::*;
use vstd::string::StringExecFns;

use trust_dns_resolver::config::{ResolverConfig, ResolverOpts};

verus! {

#[verifier::external_type_specification]
#[verifier::external_body]
pub struct ExResolverConfig(ResolverConfig);

#[verifier::external_type_specification]
#[verifier::external_body]
pub struct ExResolverOpts(ResolverOpts);

#[verifier::external_type_specification]
#[verifier::external_body]
pub struct ExIoError(std::io::Error);

/// The transport used to reach an upstream server.
#[derive(PartialEq, Eq, Structural, Clone, Copy, Debug)]
pub enum Protocol {
    Udp,
    Tcp,
}

/// The name of a transport protocol, as shown to the operator.
pub fn protocol(p: &Protocol) -> (r: &'static str)
    ensures
        *p is Udp ==> r@ == "UDP"@,
        *p is Tcp ==> r@ == "TCP"@,
{
    proof {
        reveal_strlit("UDP");
        reveal_strlit("TCP");
    }
    match p {
        Protocol::Udp => "UDP",
        Protocol::Tcp => "TCP",
    }
}

/// Where the servers to query come from.
#[derive(PartialEq, Eq, Structural, Clone, Copy, Debug)]
pub enum ResolverChoice {
    /// A well-known public resolver.
    WellKnown,
    /// The servers configured on the host.
    Host,
}

/// The choice made by the operator's flag.
pub fn choose_resolver(use_well_known: bool) -> (r: ResolverChoice)
    ensures
        use_well_known <==> r is WellKnown,
{
    if use_well_known {
        ResolverChoice::WellKnown
    } else {
        ResolverChoice::Host
    }
}

/// One upstream DNS server: its socket address as text, its family and its transport.
#[derive(Clone, Debug)]
pub struct ServerEndpoint {
    pub address: String,
    pub ipv6: bool,
    pub protocol: Protocol,
}

/// The label of an endpoint's address family, as shown to the operator.
pub fn family_label(e: &ServerEndpoint) -> (r: &'static str)
    ensures
        !e.ipv6 ==> r@ == "IPv4"@,
        e.ipv6 ==> r@ == "IPv6"@,
{
    proof {
        reveal_strlit("IPv4");
        reveal_strlit("IPv6");
    }
    if e.ipv6 {
        "IPv6"
    } else {
        "IPv4"
    }
}

/// The line that shows an endpoint to the operator.
pub open spec fn endpoint_line(e: ServerEndpoint) -> Seq<char> {
    "DNS Server ("@ + (if e.ipv6 { "IPv6"@ } else { "IPv4"@ }) + "): "@ + e.address@ + " - "@
        + (if e.protocol is Udp { "UDP"@ } else { "TCP"@ })
}

/// Shows an endpoint's address family, address and transport, for example
/// `DNS Server (IPv4): 192.168.1.1:53 - UDP`.
pub fn describe_endpoint(e: &ServerEndpoint) -> (r: String)
    ensures
        r@ == endpoint_line(*e),
{
    let mut r = "DNS Server (".to_owned();
    r.append(family_label(e));
    r.append("): ");
    r.append(e.address.as_str());
    r.append(" - ");
    r.append(protocol(&e.protocol));
    proof {
        reveal_strlit("DNS Server (");
        reveal_strlit("): ");
        reveal_strlit(" - ");
        reveal_strlit("IPv4");
        reveal_strlit("IPv6");
        reveal_strlit("UDP");
        reveal_strlit("TCP");
    }
    r
}

/// Errors that end the monitor.
#[derive(PartialEq, Eq, Structural, Clone, Copy, Debug)]
pub enum MonitorError {
    /// The host's resolver configuration could not be read or parsed.
    ConfigUnavailable,
    /// No configured server answered a lookup.
    ResolutionFailed,
}

/// The upstream servers and options a resolver is built from.
pub struct ResolverSetup {
    pub source: ResolverChoice,
    pub config: ResolverConfig,
    pub opts: ResolverOpts,
    /// The servers to report to the operator; empty for the well-known resolver.
    pub endpoints: Vec<ServerEndpoint>,
}

/// Whether the text of a host resolver configuration parses.
pub uninterp spec fn resolv_conf_parses(data: Seq<u8>) -> bool;

/// Relies on `trust_dns_resolver::system_conf::parse_resolv_conf`: it turns the
/// text of a resolv.conf file into a server list and options, and fails exactly
/// when that text does not parse, which depends on the bytes alone.
#[verifier::external_body]
fn parse_resolv_conf(data: &[u8]) -> (r: Result<(ResolverConfig, ResolverOpts), std::io::Error>)
    ensures
        r is Ok <==> resolv_conf_parses(data@),
{
    trust_dns_resolver::system_conf::parse_resolv_conf(data)
}

/// Relies on `ResolverConfig::name_servers`: for each configured server, its
/// socket address as text, whether that address is IPv6, and whether its
/// protocol is datagram-oriented (`Protocol::is_datagram`, true for UDP only).
#[verifier::external_body]
fn name_servers(cfg: &ResolverConfig) -> (r: Vec<(String, bool, bool)>) {
    cfg.name_servers().iter().map(|ns| (ns.socket_addr.to_string(), ns.socket_addr.is_ipv6(), ns.protocol.is_datagram())).collect()
}

/// Relies on `ResolverConfig::default`: Google's public DNS servers.
#[verifier::external_body]
fn default_config() -> (r: ResolverConfig) {
    ResolverConfig::default()
}

/// Relies on `ResolverOpts::default`: standard timeouts and attempts.
#[verifier::external_body]
fn default_opts() -> (r: ResolverOpts) {
    ResolverOpts::default()
}

/// One endpoint: a datagram transport is UDP, any other is TCP.
pub fn endpoint_from(address: String, ipv6: bool, datagram: bool) -> (r: ServerEndpoint)
    ensures
        r.address@ == address@,
        r.ipv6 == ipv6,
        r.protocol == (if datagram { Protocol::Udp } else { Protocol::Tcp }),
{
    let protocol = if datagram {
        Protocol::Udp
    } else {
        Protocol::Tcp
    };
    ServerEndpoint { address, ipv6, protocol }
}

/// The endpoints of a parsed configuration, in its order.
fn endpoints_of(cfg: &ResolverConfig) -> (r: Vec<ServerEndpoint>) {
    let servers = name_servers(cfg);
    let mut r: Vec<ServerEndpoint> = Vec::new();
    let mut i: usize = 0;
    while i < servers.len()
        invariant
            0 <= i <= servers@.len(),
        decreases servers@.len() - i,
    {
        r.push(endpoint_from(servers[i].0.clone(), servers[i].1, servers[i].2));
        i = i + 1;
    }
    r
}

/// The well-known public resolver with its standard options. The host's
/// configuration plays no part in it.
pub fn well_known_setup() -> (r: ResolverSetup)
    ensures
        r.source is WellKnown,
        r.endpoints@.len() == 0,
{
    ResolverSetup {
        source: ResolverChoice::WellKnown,
        config: default_config(),
        opts: default_opts(),
        endpoints: Vec::new(),
    }
}

/// The host's servers and options, from the text of its resolver configuration.
pub fn host_setup(data: &[u8]) -> (r: Result<ResolverSetup, MonitorError>)
    ensures
        r is Ok <==> resolv_conf_parses(data@),
        r is Ok ==> r->Ok_0.source is Host,
        r is Err ==> r->Err_0 == MonitorError::ConfigUnavailable,
{
    match parse_resolv_conf(data) {
        Ok((config, opts)) => {
            let endpoints = endpoints_of(&config);
            Ok(ResolverSetup { source: ResolverChoice::Host, config, opts, endpoints })
        },
        Err(_) => Err(MonitorError::ConfigUnavailable),
    }
}

/// The host's setup when its configuration could be read, and
/// `ConfigUnavailable` when it could not.
pub fn host_setup_from(read: Option<Vec<u8>>) -> (r: Result<ResolverSetup, MonitorError>)
    ensures
        read is None ==> r == Err::<ResolverSetup, MonitorError>(MonitorError::ConfigUnavailable),
        read is Some ==> (r is Ok <==> resolv_conf_parses(read->Some_0@)),
        r is Ok ==> r->Ok_0.source is Host,
        r is Err ==> r->Err_0 == MonitorError::ConfigUnavailable,
{
    match read {
        Some(data) => host_setup(data.as_slice()),
        None => Err(MonitorError::ConfigUnavailable),
    }
}

} // verus!
