//! How the proxy decides where a request goes and whether it receives
//! faults.

use vstd::prelude::*;
use vstd::string::*;
use crate::errors::ProxyError;
use crate::text::{find_char, first_index_of, option_view, push_decimal, spec_decimal, str_eq, substring};
use crate::types::ConnectRequest;

verus! {

/// Port assumed for a scheme when a host names none.
pub open spec fn spec_default_port(scheme: Seq<char>) -> Seq<char> {
    if scheme == "https"@ {
        "443"@
    } else {
        "80"@
    }
}

/// Host and port of `domain`, split at its first `:`; the scheme's default
/// port stands in for a missing or empty port.
pub open spec fn spec_parse_domain(scheme: Seq<char>, domain: Seq<char>) -> (Seq<char>, Seq<char>) {
    match first_index_of(domain, ':') {
        Some(i) => (
            domain.take(i),
            if i + 1 == domain.len() {
                spec_default_port(scheme)
            } else {
                domain.skip(i + 1)
            },
        ),
        None => (domain, spec_default_port(scheme)),
    }
}

/// Splits a `host[:port]` string into host and port.
pub fn parse_domain_with_scheme(scheme: &str, domain: &str) -> (r: (String, String))
    ensures
        r.0@ == spec_parse_domain(scheme@, domain@).0,
        r.1@ == spec_parse_domain(scheme@, domain@).1,
{
    let default_port = if str_eq(scheme, "https") { "443" } else { "80" };
    match find_char(domain, ':') {
        Some(i) => {
            let n = domain.unicode_len();
            let host = substring(domain, 0, i);
            let port = if i + 1 == n {
                String::from_str(default_port)
            } else {
                substring(domain, i + 1, n)
            };
            assert(domain@.subrange(0, i as int) =~= domain@.take(i as int));
            assert(domain@.subrange(i + 1, n as int) =~= domain@.skip(i + 1));
            (host, port)
        },
        None => (String::from_str(domain), String::from_str(default_port)),
    }
}

/// Splitting a domain that holds a `:` and a non-empty port, then joining
/// host and port with `:`, gives the domain back.
pub proof fn lemma_parse_domain_rejoin(scheme: Seq<char>, domain: Seq<char>, i: int)
    requires
        first_index_of(domain, ':') == Some(i),
        i + 1 < domain.len(),
    ensures
        spec_parse_domain(scheme, domain).0 + seq![':'] + spec_parse_domain(scheme, domain).1
            == domain,
{
    let parts = spec_parse_domain(scheme, domain);
    assert(parts.0 == domain.take(i));
    assert(parts.1 == domain.skip(i + 1));
    assert(0 <= i < domain.len() && domain[i] == ':');
    assert(domain.take(i) + seq![':'] + domain.skip(i + 1) =~= domain);
}

/// Calls `local_ip_address::local_ip` and writes the address with
/// `to_string`; `None` when no local address is found. What address the
/// machine has is left unstated.
#[verifier::external_body]
pub fn map_localhost_to_nic() -> (r: Option<String>) {
    match local_ip_address::local_ip() {
        Ok(ip) => Some(ip.to_string()),
        Err(_) => None,
    }
}

/// Whether resolving an upstream from these parts substitutes the local
/// interface address for `localhost`.
pub open spec fn spec_needs_nic(authority: Option<Seq<char>>, host_header: Option<Seq<char>>, stealth: bool) -> bool {
    &&& authority is None
    &&& host_header is Some
    &&& stealth
    &&& spec_parse_domain("http"@, host_header->0).0 == "localhost"@
}

/// The upstream URL a request is forwarded to, given the local interface
/// address where one is needed: `None` where the request names no target,
/// `Some(None)` where the local address is needed but unknown.
pub open spec fn spec_upstream(
    scheme: Seq<char>,
    authority: Option<Seq<char>>,
    host_header: Option<Seq<char>>,
    path: Seq<char>,
    stealth: bool,
    nic: Option<Seq<char>>,
) -> Option<Option<Seq<char>>> {
    match authority {
        Some(a) => Some(Some(scheme + "://"@ + a + path)),
        None => match host_header {
            Some(h) => {
                let (host, port) = spec_parse_domain("http"@, h);
                if stealth && host == "localhost"@ {
                    match nic {
                        Some(n) => Some(Some("http://"@ + n + ":"@ + port + path)),
                        None => Some(None),
                    }
                } else {
                    Some(Some("http://"@ + host + ":"@ + port + path))
                }
            },
            None => None,
        },
    }
}

/// How `upstream_for` answers for the given parts.
pub open spec fn spec_upstream_result(
    r: Result<String, ProxyError>,
    u: Option<Option<Seq<char>>>,
) -> bool {
    match u {
        Some(Some(url)) => r matches Ok(s) && s@ == url,
        Some(None) => r matches Err(ProxyError::Internal(m)) && m@ == "Failed to determine the local interface address"@,
        None => r matches Err(ProxyError::InvalidRequest(m)) && m@ == "Unable to determine upstream target"@,
    }
}

/// Builds the upstream URL of a proxied request from its scheme, its
/// authority, its Host header and its path, given the local interface
/// address (used in stealth mode in place of `localhost`).
pub fn upstream_for(
    scheme: &str,
    authority: Option<&str>,
    host_header: Option<&str>,
    path: &str,
    stealth: bool,
    nic: Option<&str>,
) -> (r: Result<String, ProxyError>)
    ensures
        spec_upstream_result(
            r,
            spec_upstream(scheme@, option_view(authority), option_view(host_header), path@, stealth, option_view(nic)),
        ),
{
    match authority {
        Some(a) => {
            let mut s = String::from_str(scheme);
            s.append("://");
            s.append(a);
            s.append(path);
            Ok(s)
        },
        None => match host_header {
            Some(h) => {
                let (host, port) = parse_domain_with_scheme("http", h);
                let mut s = String::from_str("http://");
                if stealth && str_eq(host.as_str(), "localhost") {
                    match nic {
                        Some(n) => s.append(n),
                        None => {
                            return Err(
                                ProxyError::Internal(
                                    String::from_str("Failed to determine the local interface address"),
                                ),
                            );
                        },
                    }
                } else {
                    s.append(host.as_str());
                }
                s.append(":");
                s.append(port.as_str());
                s.append(path);
                Ok(s)
            },
            None => Err(ProxyError::InvalidRequest(String::from_str("Unable to determine upstream target"))),
        },
    }
}

/// Determines the upstream URL of a proxied request; in stealth mode a
/// `localhost` target is replaced by the machine's interface address.
pub fn determine_upstream(
    scheme: &str,
    authority: Option<&str>,
    host_header: Option<&str>,
    path: &str,
    stealth: bool,
) -> (r: Result<String, ProxyError>)
    ensures
        !spec_needs_nic(option_view(authority), option_view(host_header), stealth) ==> spec_upstream_result(
            r,
            spec_upstream(scheme@, option_view(authority), option_view(host_header), path@, stealth, None),
        ),
        spec_needs_nic(option_view(authority), option_view(host_header), stealth) ==> exists|nic: Option<Seq<char>>|
            spec_upstream_result(
                r,
                #[trigger] spec_upstream(scheme@, option_view(authority), option_view(host_header), path@, stealth, nic),
            ),
{
    let needs_nic = match (authority, host_header) {
        (None, Some(h)) => {
            let (host, _) = parse_domain_with_scheme("http", h);
            stealth && str_eq(host.as_str(), "localhost")
        },
        _ => false,
    };
    if needs_nic {
        let nic = map_localhost_to_nic();
        let r = match &nic {
            Some(n) => upstream_for(scheme, authority, host_header, path, stealth, Some(n.as_str())),
            None => upstream_for(scheme, authority, host_header, path, stealth, None),
        };
        proof {
            let w = match nic {
                Some(n) => Some(n@),
                None => None,
            };
            assert(spec_upstream_result(
                r,
                spec_upstream(scheme@, option_view(authority), option_view(host_header), path@, stealth, w),
            ));
        }
        r
    } else {
        upstream_for(scheme, authority, host_header, path, stealth, None)
    }
}

/// What `url::Url::parse` followed by `host_str` and `port_or_known_default`
/// gives for a URL: its host and its port (explicit or the scheme's known
/// default), `None` where the URL does not parse or lacks either.
pub uninterp spec fn url_host_and_port(s: Seq<char>) -> Option<(Seq<char>, u16)>;

/// Calls `url::Url::parse`, then `host_str` and `port_or_known_default` on
/// the result; the URL grammar is named by `url_host_and_port`.
#[verifier::external_body]
fn parse_url_host_and_port(s: &str) -> (r: Option<(String, u16)>)
    ensures
        match url_host_and_port(s@) {
            Some((h, p)) => r matches Some((rh, rp)) && rh@ == h && rp == p,
            None => r is None,
        },
{
    match url::Url::parse(s) {
        Ok(u) => match (u.host_str(), u.port_or_known_default()) {
            (Some(h), Some(p)) => Some((h.to_string(), p)),
            _ => None,
        },
        Err(_) => None,
    }
}

/// `host:port` of a URL's authority.
pub open spec fn spec_host_port_text(host: Seq<char>, port: u16) -> Seq<char> {
    host + ":"@ + spec_decimal(port as nat)
}

/// The `host:port` of an upstream URL, matched against the allowed hosts;
/// `None` where the URL has no host or port.
pub fn get_host(upstream_url: &str) -> (r: Option<String>)
    ensures
        match url_host_and_port(upstream_url@) {
            Some((h, p)) => r matches Some(s) && s@ == spec_host_port_text(h, p),
            None => r is None,
        },
{
    match parse_url_host_and_port(upstream_url) {
        Some((host, port)) => {
            let mut s = String::from_str(host.as_str());
            s.append(":");
            push_decimal(&mut s, port as u64);
            Some(s)
        },
        None => None,
    }
}

/// The CONNECT target of an upstream URL; `None` where it has no host or
/// port.
pub fn connect_request_for(upstream_url: &str) -> (r: Option<ConnectRequest>)
    ensures
        match url_host_and_port(upstream_url@) {
            Some((h, p)) => r matches Some(c) && c.target_host@ == h && c.target_port == p,
            None => r is None,
        },
{
    match parse_url_host_and_port(upstream_url) {
        Some((host, port)) => Some(ConnectRequest { target_host: host, target_port: port }),
        None => None,
    }
}

/// `hosts` holds `host`.
pub open spec fn spec_contains_host(hosts: Seq<String>, host: Seq<char>) -> bool {
    exists|i: int| 0 <= i < hosts.len() && #[trigger] hosts[i]@ == host
}

/// Traffic to a host outside the allowed list passes through untouched.
pub fn is_passthrough(hosts: &Vec<String>, upstream_host: &str) -> (r: bool)
    ensures
        r == !spec_contains_host(hosts@, upstream_host@),
{
    let mut i: usize = 0;
    while i < hosts.len()
        invariant
            i <= hosts.len(),
            forall|j: int| 0 <= j < i ==> #[trigger] hosts@[j]@ != upstream_host@,
        decreases hosts.len() - i,
    {
        if str_eq(hosts[i].as_str(), upstream_host) {
            assert(hosts@[i as int]@ == upstream_host@);
            return false;
        }
        i += 1;
    }
    true
}

/// How a proxied request is handled.
pub struct Route {
    /// The URL the request goes to.
    pub upstream: String,
    /// Whether the request passes through without faults (its host is
    /// not in the allowed list).
    pub passthrough: bool,
    /// Whether the request is a CONNECT, handled as a tunnel.
    pub tunnel: bool,
}

/// How `route_request` answers, given the upstream its parts resolve to
/// (see `spec_upstream`).
pub open spec fn spec_route_result(
    r: Result<Route, ProxyError>,
    is_connect: bool,
    hosts: Seq<String>,
    u: Option<Option<Seq<char>>>,
) -> bool {
    match u {
        Some(Some(url)) => match url_host_and_port(url) {
            Some((h, p)) => r matches Ok(route) && route.upstream@ == url && route.passthrough
                == !spec_contains_host(hosts, spec_host_port_text(h, p)) && route.tunnel == is_connect,
            None => r matches Err(ProxyError::Internal(m)) && m@ == "Missing host"@,
        },
        Some(None) => r matches Err(ProxyError::Internal(m)) && m@
            == "Failed to determine the local interface address"@,
        None => r matches Err(ProxyError::InvalidRequest(m)) && m@ == "Unable to determine upstream target"@,
    }
}

/// Routes a proxied request: resolves its upstream, checks the upstream's
/// `host:port` against the allowed hosts, and tunnels CONNECT requests.
pub fn route_request(
    is_connect: bool,
    scheme: &str,
    authority: Option<&str>,
    host_header: Option<&str>,
    path: &str,
    stealth: bool,
    hosts: &Vec<String>,
) -> (r: Result<Route, ProxyError>)
    ensures
        !spec_needs_nic(option_view(authority), option_view(host_header), stealth) ==> spec_route_result(
            r,
            is_connect,
            hosts@,
            spec_upstream(scheme@, option_view(authority), option_view(host_header), path@, stealth, None),
        ),
        spec_needs_nic(option_view(authority), option_view(host_header), stealth) ==> exists|nic: Option<Seq<char>>|
            spec_route_result(
                r,
                is_connect,
                hosts@,
                #[trigger] spec_upstream(scheme@, option_view(authority), option_view(host_header), path@, stealth, nic),
            ),
{
    let up = determine_upstream(scheme, authority, host_header, path, stealth);
    let ghost nic: Option<Seq<char>> = if spec_needs_nic(option_view(authority), option_view(host_header), stealth) {
        choose|nic: Option<Seq<char>>|
            spec_upstream_result(
                up,
                #[trigger] spec_upstream(scheme@, option_view(authority), option_view(host_header), path@, stealth, nic),
            )
    } else {
        None
    };
    let ghost u = spec_upstream(scheme@, option_view(authority), option_view(host_header), path@, stealth, nic);
    assert(spec_upstream_result(up, u));
    let r = match up {
        Ok(upstream) => match get_host(upstream.as_str()) {
            Some(host) => {
                let passthrough = is_passthrough(hosts, host.as_str());
                Ok(Route { upstream, passthrough, tunnel: is_connect })
            },
            None => Err(ProxyError::Internal(String::from_str("Missing host"))),
        },
        Err(e) => Err(e),
    };
    assert(spec_route_result(r, is_connect, hosts@, u));
    r
}

/// Status and byte counts reported once a tunnel closes: the counts copied
/// each way and status 0 on success, nothing and status 500 on failure.
pub fn tunnel_report(copied: Option<(u64, u64)>) -> (r: (u16, u64, u64))
    ensures
        match copied {
            Some((a, b)) => r == (0u16, a, b),
            None => r == (500u16, 0u64, 0u64),
        },
{
    match copied {
        Some((from_client, to_server)) => (0, from_client, to_server),
        None => (500, 0, 0),
    }
}

} // verus!
