use std::sync::Arc;

use my_reverse_proxy::app_config::{AppConfigurationInner, ListenConfiguration};
use my_reverse_proxy::endpoint::{HttpEndpointInfo, HttpListenPortConfiguration, ListenHttpEndpointType};
use my_reverse_proxy::host_str::{EndpointHttpHostString, EndpointPort, ListenHost};

fn host(s: &str) -> EndpointHttpHostString {
    EndpointHttpHostString::new(s.to_string()).unwrap()
}

fn info(s: &str, ssl: Option<&str>) -> HttpEndpointInfo {
    HttpEndpointInfo {
        host_endpoint: host(s),
        listen_endpoint_type: ListenHttpEndpointType::Https1,
        ssl_certificate_id: ssl.map(|x| x.to_string()),
        debug: false,
        keep_alive: true,
    }
}

#[test]
fn host_strings_parse_server_name_and_port() {
    let h = host("example.com:443");
    assert_eq!(h.as_str(), "example.com:443");
    assert!(h.has_server_name());
    assert_eq!(h.get_server_name(), Some("example.com"));
    assert!(h.is_my_server_name("EXAMPLE.COM"));
    assert!(!h.is_my_server_name("other.com"));
    assert!(matches!(h.get_port(), EndpointPort::Tcp(443)));
    let bare = host("8080");
    assert!(!bare.has_server_name());
    assert!(bare.is_my_server_name("anything"));
    assert!(matches!(bare.get_listen_host(), ListenHost::Tcp(8080)));
    let unix = host("/var/run/proxy.sock");
    assert!(unix.is_unix_socket());
    match unix.get_port() {
        EndpointPort::UnixSocket(p) => assert_eq!(p.as_str(), "/var/run/proxy.sock"),
        other => panic!("{:?}", other),
    }
    assert!(host("~/proxy.sock").is_unix_socket());
}

#[test]
fn a_host_without_a_valid_port_is_rejected() {
    let err = EndpointHttpHostString::new("example.com:http".to_string()).unwrap_err();
    assert_eq!(err, "Can not pars endpoint port for host: example.com:http");
    assert!(EndpointHttpHostString::new("example.com:70000".to_string()).is_err());
    assert!(EndpointHttpHostString::new("example.com".to_string()).is_err());
}

#[test]
fn endpoints_are_routed_by_server_name() {
    let mut port = HttpListenPortConfiguration::new(Arc::new(info("a.com:443", Some("cert-a"))), ListenHost::Tcp(443));
    port.insert_or_replace_configuration(info("b.com:443", None));
    assert_eq!(port.endpoints.len(), 2);
    port.insert_or_replace_configuration(info("b.com:443", Some("cert-b")));
    assert_eq!(port.endpoints.len(), 2);
    let found = port.get_http_endpoint_info(Some("B.com")).unwrap();
    assert_eq!(found.as_str(), "b.com:443");
    assert!(port.get_http_endpoint_info(Some("c.com")).is_none());
    assert!(port.get_http_endpoint_info(None).is_none());
    let (cert, e) = port.get_ssl_certificate("b.com").unwrap();
    assert_eq!(cert, "cert-b");
    assert_eq!(e.as_str(), "b.com:443");
    let left = port.delete_configuration(&host("a.com:443")).unwrap();
    assert_eq!(left.endpoints.len(), 1);
    assert!(port.delete_configuration(&host("z.com:443")).is_none());
}

#[test]
fn a_lone_endpoint_without_server_name_answers_requests_without_one() {
    let port = HttpListenPortConfiguration::new(Arc::new(info("8000", None)), ListenHost::Tcp(8000));
    assert_eq!(port.get_http_endpoint_info(None).unwrap().as_str(), "8000");
}

fn listener(hosts: &[&str]) -> ListenConfiguration {
    let mut cfg = HttpListenPortConfiguration::new(Arc::new(info(hosts[0], None)), ListenHost::Tcp(443));
    for h in &hosts[1..] {
        cfg.insert_or_replace_configuration(info(h, None));
    }
    ListenConfiguration::Http(Arc::new(cfg))
}

#[test]
fn a_failed_endpoint_leaves_its_listener() {
    let mut cfg = AppConfigurationInner::new();
    let a = host("a.com:443");
    cfg.apply_compiled(&a, Ok(listener(&["a.com:443", "b.com:443"])));
    cfg.add_http_configuration_error(&a, "bad certificate".to_string());
    match cfg.listen_tcp_endpoints.get(&443) {
        Some(ListenConfiguration::Http(c)) => {
            assert_eq!(c.endpoints.len(), 1);
            assert_eq!(c.endpoints[0].as_str(), "b.com:443");
        }
        other => panic!("{:?}", other),
    }
    assert_eq!(cfg.error_configurations.get(&"a.com:443".to_string()).map(|s| s.as_str()), Some("bad certificate"));
    let b = host("b.com:443");
    cfg.add_http_configuration_error(&b, "also bad".to_string());
    assert!(cfg.listen_tcp_endpoints.get(&443).is_none());
}

#[test]
fn compiling_builds_the_tables_and_keeps_errors() {
    let mut cfg = AppConfigurationInner::new();
    let a = host("a.com:443");
    assert!(cfg.existing_for(&a).is_none());
    cfg.apply_compiled(&a, Ok(listener(&["a.com:443"])));
    assert!(cfg.existing_for(&host("x.com:443")).is_some());
    let u = host("/tmp/p.sock");
    cfg.apply_compiled(&u, Err("no location".to_string()));
    assert!(cfg.existing_for(&u).is_none());
    assert_eq!(cfg.error_configurations.get(&"/tmp/p.sock".to_string()).map(|s| s.as_str()), Some("no location"));
    cfg.apply_compiled(&u, Ok(ListenConfiguration::Tcp));
    assert!(cfg.existing_for(&u).is_some());
}

#[test]
fn reloading_a_listener_replaces_or_removes_it() {
    let mut cfg = AppConfigurationInner::new();
    cfg.apply_compiled(&host("8080"), Err("broken".to_string()));
    assert_eq!(cfg.apply_tcp_port_reload(8080, Some(ListenConfiguration::Tcp)), "Updated TCP port 8080");
    assert!(cfg.error_configurations.get(&"8080".to_string()).is_none());
    assert!(cfg.listen_tcp_endpoints.get(&8080).is_some());
    assert_eq!(cfg.apply_tcp_port_reload(8080, None), "Removed TCP port 8080");
    assert!(cfg.listen_tcp_endpoints.get(&8080).is_none());
    let path = "/tmp/x.sock".to_string();
    assert_eq!(cfg.apply_unix_reload(&path, Some(ListenConfiguration::Tcp)), "Updated Unix socket /tmp/x.sock");
    assert_eq!(cfg.apply_unix_reload(&path, None), "Removed Unix socket /tmp/x.sock");
}

#[test]
fn a_full_load_swaps_the_tables_in_whole() {
    let mut live = AppConfigurationInner::new();
    live.apply_compiled(&host("old.com:443"), Ok(ListenConfiguration::Tcp));
    live.apply_compiled(&host("/tmp/old.sock"), Err("broken".to_string()));
    let mut fresh = AppConfigurationInner::new();
    fresh.apply_compiled(&host("new.com:8443"), Ok(ListenConfiguration::Tcp));
    live.swap_in(fresh);
    assert!(live.listen_tcp_endpoints.get(&443).is_none());
    assert!(live.listen_tcp_endpoints.get(&8443).is_some());
    assert!(live.error_configurations.get(&"/tmp/old.sock".to_string()).is_none());
}

#[test]
fn a_tcp_host_string_carries_its_parsed_port() {
    let h = host("a.com:8080");
    assert!(!h.is_unix_socket());
    assert!(matches!(h.get_port(), EndpointPort::Tcp(8080)));
    let u = host("~/p.sock");
    assert!(u.is_unix_socket());
    assert!(!u.has_server_name());
}

#[test]
fn a_full_load_builds_from_the_compiled_hosts_and_replaces_everything() {
    let mut live = AppConfigurationInner::new();
    live.apply_compiled(&host("old.com:443"), Ok(ListenConfiguration::Tcp));
    live.load_compiled(vec![
        (host("a.com:8080"), Ok(ListenConfiguration::Tcp)),
        (host("/tmp/b.sock"), Err("no location".to_string())),
        (host("c.com:8080"), Ok(listener(&["c.com:8080"]))),
    ]);
    assert!(live.listen_tcp_endpoints.get(&443).is_none());
    assert!(matches!(live.listen_tcp_endpoints.get(&8080), Some(ListenConfiguration::Http(_))));
    assert_eq!(live.error_configurations.get(&"/tmp/b.sock".to_string()).map(|s| s.as_str()), Some("no location"));
    assert!(live.listen_unix_socket_endpoints.get(&"/tmp/b.sock".to_string()).is_none());
}
