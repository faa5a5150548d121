use lueur_cli::errors::ProxyError;
use lueur_cli::proxy::{
    connect_request_for, determine_upstream, get_host, is_passthrough, parse_domain_with_scheme, route_request, tunnel_report,
    upstream_for,
};

#[test]
fn parse_domain_defaults_port_by_scheme() {
    assert_eq!(parse_domain_with_scheme("http", "example.com"), ("example.com".to_string(), "80".to_string()));
    assert_eq!(parse_domain_with_scheme("https", "example.com"), ("example.com".to_string(), "443".to_string()));
    assert_eq!(parse_domain_with_scheme("https", "example.com:"), ("example.com".to_string(), "443".to_string()));
    assert_eq!(parse_domain_with_scheme("http", "example.com:8080"), ("example.com".to_string(), "8080".to_string()));
    assert_eq!(parse_domain_with_scheme("http", "a:b:c"), ("a".to_string(), "b:c".to_string()));
}

#[test]
fn parse_domain_rejoins() {
    let (h, p) = parse_domain_with_scheme("http", "localhost:3000");
    assert_eq!(format!("{}:{}", h, p), "localhost:3000");
}

#[test]
fn upstream_from_authority() {
    let u = determine_upstream("https", Some("example.com:443"), Some("ignored"), "/a?b=1", false);
    assert_eq!(u.ok(), Some("https://example.com:443/a?b=1".to_string()));
}

#[test]
fn upstream_from_host_header() {
    let u = determine_upstream("http", None, Some("example.com"), "/", false);
    assert_eq!(u.ok(), Some("http://example.com:80/".to_string()));
    let u = determine_upstream("https", None, Some("localhost:9000"), "/x", false);
    assert_eq!(u.ok(), Some("http://localhost:9000/x".to_string()));
}

#[test]
fn upstream_stealth_localhost_uses_nic() {
    let u = upstream_for("http", None, Some("localhost:9000"), "/x", true, Some("10.0.0.5"));
    assert_eq!(u.ok(), Some("http://10.0.0.5:9000/x".to_string()));
    match upstream_for("http", None, Some("localhost"), "/", true, None) {
        Err(ProxyError::Internal(m)) => assert_eq!(m, "Failed to determine the local interface address"),
        _ => panic!("expected an internal error"),
    }
    let u = upstream_for("http", None, Some("example.com"), "/", true, None);
    assert_eq!(u.ok(), Some("http://example.com:80/".to_string()));
}

#[test]
fn upstream_missing_target() {
    match determine_upstream("http", None, None, "/", false) {
        Err(ProxyError::InvalidRequest(m)) => assert_eq!(m, "Unable to determine upstream target"),
        _ => panic!("expected an invalid request"),
    }
}

#[test]
fn host_of_upstream() {
    assert_eq!(get_host("http://example.com/path"), Some("example.com:80".to_string()));
    assert_eq!(get_host("https://example.com/path"), Some("example.com:443".to_string()));
    assert_eq!(get_host("http://127.0.0.1:8080/"), Some("127.0.0.1:8080".to_string()));
    assert_eq!(get_host("not a url"), None);
}

#[test]
fn connect_target_of_upstream() {
    let c = connect_request_for("https://example.com:8443/").unwrap();
    assert_eq!(c.target_host, "example.com");
    assert_eq!(c.target_port, 8443);
    assert!(connect_request_for("mailto:someone").is_none());
}

#[test]
fn passthrough_unless_listed() {
    let hosts = vec!["example.com:80".to_string(), "api.local:8080".to_string()];
    assert!(!is_passthrough(&hosts, "example.com:80"));
    assert!(!is_passthrough(&hosts, "api.local:8080"));
    assert!(is_passthrough(&hosts, "example.com:443"));
    assert!(is_passthrough(&Vec::new(), "example.com:80"));
}

#[test]
fn tunnel_outcomes() {
    assert_eq!(tunnel_report(Some((10, 20))), (0, 10, 20));
    assert_eq!(tunnel_report(None), (500, 0, 0));
}

#[test]
fn error_status_and_messages() {
    let e = ProxyError::InvalidConfiguration("x".to_string());
    assert_eq!(e.status_code(), 400);
    assert_eq!(e.error_message(), "Invalid Configuration: x");
    let e = ProxyError::RpcCallError("p".to_string(), "m".to_string(), "boom".to_string());
    assert_eq!(e.status_code(), 400);
    assert_eq!(e.error_message(), "RPC Call Error in plugin 'p', method 'm': boom");
    let e = ProxyError::RpcConnectionError("p".to_string(), "down".to_string());
    assert_eq!(e.status_code(), 502);
    assert_eq!(e.error_message(), "RPC Connection Error to plugin 'p': down");
    let e = ProxyError::InvalidRequest("r".to_string());
    assert_eq!((e.status_code(), e.error_message()), (400, "Invalid Request: r".to_string()));
    let e = ProxyError::InvalidHeader("h".to_string());
    assert_eq!((e.status_code(), e.error_message()), (400, "Invalid Header: h".to_string()));
    let e = ProxyError::Other("o".to_string());
    assert_eq!((e.status_code(), e.error_message()), (500, "Other Error: o".to_string()));
    let e = ProxyError::Internal("i".to_string());
    assert_eq!((e.status_code(), e.error_message()), (500, "Internal Server Error: i".to_string()));
    let e = ProxyError::FaultTriggeredError(503, "busy".to_string());
    assert_eq!((e.status_code(), e.error_message()), (503, "busy".to_string()));
    let e = ProxyError::IoError(std::io::Error::new(std::io::ErrorKind::Other, "disk"));
    assert_eq!((e.status_code(), e.error_message()), (500, "IO Error: disk".to_string()));
    let e = ProxyError::GrpcError(tonic::Status::not_found("nope"));
    assert_eq!(e.status_code(), 502);
    assert!(e.error_message().starts_with("gRPC Error: "));
    assert!(e.error_message().contains("nope"));
}

#[test]
fn route_request_checks_the_allowed_hosts() {
    let hosts = vec!["example.com:80".to_string()];
    let r = route_request(false, "http", Some("example.com"), None, "/x", false, &hosts).ok().unwrap();
    assert_eq!(r.upstream, "http://example.com/x");
    assert!(!r.passthrough);
    assert!(!r.tunnel);
    let r = route_request(true, "https", Some("other.com:8443"), None, "", false, &hosts).ok().unwrap();
    assert_eq!(r.upstream, "https://other.com:8443");
    assert!(r.passthrough);
    assert!(r.tunnel);
    let r = route_request(false, "http", None, Some("example.com"), "/", false, &hosts).ok().unwrap();
    assert_eq!(r.upstream, "http://example.com:80/");
    assert!(!r.passthrough);
}

#[test]
fn route_request_errors() {
    let hosts: Vec<String> = Vec::new();
    match route_request(false, "http", None, None, "/", false, &hosts) {
        Err(ProxyError::InvalidRequest(m)) => assert_eq!(m, "Unable to determine upstream target"),
        _ => panic!("no target"),
    }
    match route_request(false, "http", Some(""), None, "/", false, &hosts) {
        Err(ProxyError::Internal(m)) => assert_eq!(m, "Missing host"),
        _ => panic!("no host"),
    }
}
