use std::sync::Arc;

use my_reverse_proxy::proxy_pass::{
    connection_key, mcp_path, remote_host_key, DynamicProxyConfig, MyReverseProxyRemoteEndpoint, PoolTuning,
    ProxyPassFilesPathModel, ProxyPassToConfig, ProxyPassToModel, RemoteEndpoint, Scheme, SshCredentials,
    StaticContentConfig,
};
use my_reverse_proxy::static_content::StaticContentSrc;
use my_reverse_proxy::templates::{build_layout_with_explicit_status, generate_layout, generate_layout_with_close, ErrorTemplates};

fn remote(src: &str, scheme: Option<Scheme>, host_port: &str, path: &str) -> Arc<RemoteEndpoint> {
    Arc::new(RemoteEndpoint {
        src: src.to_string(),
        scheme,
        host: host_port.split(':').next().unwrap().to_string(),
        port: None,
        host_port: host_port.to_string(),
        path_and_query: path.to_string(),
    })
}

fn model(remote_host: MyReverseProxyRemoteEndpoint) -> ProxyPassToModel {
    ProxyPassToModel { remote_host, request_timeout_ms: 15_000, connect_timeout_ms: 5_000, pool_tuning: PoolTuning::default_tuning() }
}

fn creds() -> Arc<SshCredentials> {
    Arc::new(SshCredentials { ssh_user_name: "root".to_string(), ssh_remote_host: "10.0.0.1".to_string(), ssh_remote_port: 22 })
}

#[test]
fn upstreams_print_as_written() {
    let direct = MyReverseProxyRemoteEndpoint::Direct { remote_host: remote("http://a:80/x", Some(Scheme::Http), "a:80", "/x") };
    assert_eq!(direct.to_string(), "http://a:80/x");
    assert_eq!(direct.kind_as_str(), "direct");
    let ssh = MyReverseProxyRemoteEndpoint::OverSsh { ssh_credentials: creds(), remote_host: remote("b:5123", None, "b:5123", "") };
    assert_eq!(ssh.to_string(), "ssh:root@10.0.0.1:22->b:5123");
    assert_eq!(ssh.kind_as_str(), "ssh");
    let gw = MyReverseProxyRemoteEndpoint::Gateway { id: Arc::new("gw1".to_string()), remote_host: remote("c:1", None, "c:1", "") };
    assert_eq!(gw.to_string(), "gateway:gw1->c:1");
    assert_eq!(gw.kind_as_str(), "gateway");
}

#[test]
fn locations_name_their_type() {
    let direct = || MyReverseProxyRemoteEndpoint::Direct { remote_host: remote("http://a:80", Some(Scheme::Http), "a:80", "/mcp?x=1") };
    assert_eq!(ProxyPassToConfig::Http1(model(direct())).get_type_as_str(), "http1");
    assert_eq!(ProxyPassToConfig::UnixHttp1(model(direct())).get_type_as_str(), "unix+http1");
    let mcp = ProxyPassToConfig::McpHttp1(model(direct()));
    assert_eq!(mcp.get_type_as_str(), "mcp");
    assert_eq!(mcp_path(&mcp), Some("/mcp?x=1"));
    assert_eq!(mcp_path(&ProxyPassToConfig::Drop), None);
    assert!(ProxyPassToConfig::Drop.is_drop());
    assert_eq!(ProxyPassToConfig::Drop.to_string(), "drop");
    let dynamic = ProxyPassToConfig::DynamicProxy(Arc::new(DynamicProxyConfig { request_timeout_ms: 1, connect_timeout_ms: 1, allowed_hosts: None }));
    assert_eq!(dynamic.to_string(), "dynamic");
    assert_eq!(dynamic.get_type_as_str(), "dynamic");
    assert_eq!(dynamic.remote_endpoint_kind(), None);
    assert_eq!(mcp.remote_endpoint_kind(), Some("direct"));
    let files = ProxyPassToConfig::FilesPath(ProxyPassFilesPathModel { files_path: direct(), default_file: None });
    assert_eq!(files.get_type_as_str(), "files_path");
    assert_eq!(files.remote_endpoint_kind(), Some("direct"));
}

#[test]
fn static_content_prints_its_response() {
    let cfg = StaticContentConfig { status_code: 200, content_type: Some("text/plain".to_string()), body: b"hello".to_vec() };
    assert_eq!(cfg.to_string(), "status_code: 200, content_type: Some(\"text/plain\"), body: 5bytes");
    let none = StaticContentConfig { status_code: 404, content_type: None, body: vec![] };
    assert_eq!(none.to_string(), "status_code: 404, content_type: None, body: 0bytes");
    let p = ProxyPassToConfig::Static(Arc::new(none));
    assert_eq!(p.get_type_as_str(), "static");
}

#[test]
fn a_static_location_answers_with_its_configured_response() {
    let cfg = Arc::new(StaticContentConfig { status_code: 201, content_type: Some("application/json".to_string()), body: b"{}".to_vec() });
    let src = StaticContentSrc::new(cfg);
    let r = src.get_request_executor().execute_request();
    assert_eq!(r.status_code, 201);
    assert_eq!(r.content_type.as_deref(), Some("application/json"));
    assert_eq!(r.body, b"{}".to_vec());
}

#[test]
fn pool_keys_identify_protocol_transport_and_host() {
    let direct = MyReverseProxyRemoteEndpoint::Direct { remote_host: remote("https://a:443", Some(Scheme::Https), "a:443", "/") };
    let m = model(direct);
    assert_eq!(remote_host_key("h1", &m), "h1|Some(Https)|a:443");
    let ssh = model(MyReverseProxyRemoteEndpoint::OverSsh { ssh_credentials: creds(), remote_host: remote("b:1", None, "b:1", "") });
    assert_eq!(connection_key(&ProxyPassToConfig::Http2(ssh)), "h2|ssh:root@10.0.0.1:22|b:1");
    let gw = model(MyReverseProxyRemoteEndpoint::Gateway { id: Arc::new("g".to_string()), remote_host: remote("c:1", None, "c:1", "") });
    assert_eq!(connection_key(&ProxyPassToConfig::UnixHttp1(gw)), "uds-h1|gw:g|c:1");
    assert_eq!(connection_key(&ProxyPassToConfig::Drop), "drop");
}

fn body(status: u16, text: &str, second: Option<&str>) -> String {
    let second = match second {
        Some(s) => format!("<h4>{s}</h4>"),
        None => String::new(),
    };
    format!(
        "\n        <div style=\"text-align: center;\">\n        <h2>{text}</h2>\n      {second}\n        <p>{status}</p>\n        <hr/>\n        <div>MyReverseProxy 9.9.9</div>\n        </div>\n        "
    )
}

#[test]
fn error_pages_are_complete_responses() {
    let b = body(503, "Server Error", Some("Timeout"));
    let expected = format!("HTTP/1.1 200 OK\r\nContent-Length: {}\r\n\r\n{}", b.len(), b);
    assert_eq!(generate_layout(503, "Server Error", Some("Timeout"), "9.9.9"), expected.into_bytes());
    let b = body(503, "Server Error", None);
    let expected = format!("HTTP/1.1 200 OK\r\nContent-Length: {}\r\nConnection: close\r\n\r\n{}", b.len(), b);
    assert_eq!(generate_layout_with_close(503, "Server Error", None, "9.9.9"), expected.into_bytes());
    let b = body(421, "Misdirected Request", Some("x"));
    let expected = format!("HTTP/1.1 421 Misdirected Request\r\nContent-Length: {}\r\n\r\n{}", b.len(), b);
    assert_eq!(build_layout_with_explicit_status(421, "Misdirected Request", Some("x"), "9.9.9"), expected.into_bytes());
}

#[test]
fn the_page_set_is_built_for_one_version() {
    let t = ErrorTemplates::new("9.9.9");
    assert_eq!(t.error_timeout, generate_layout(503, "Server Error", Some("Timeout"), "9.9.9"));
    assert_eq!(t.not_authorized_page, generate_layout(401, "Not authorized request", None, "9.9.9"));
    assert_eq!(
        t.proxy_to_host_not_allowed,
        build_layout_with_explicit_status(403, "Forbidden", Some("Upstream host not allowed"), "9.9.9")
    );
    assert_eq!(
        t.location_is_not_found,
        generate_layout_with_close(503, "Server Error", Some("Remote location configuration is missing"), "9.9.9")
    );
}

#[test]
fn mcp_and_http1_locations_to_one_upstream_share_a_key() {
    let m = || model(MyReverseProxyRemoteEndpoint::Direct { remote_host: remote("http://a:80", Some(Scheme::Http), "a:80", "/") });
    assert_eq!(connection_key(&ProxyPassToConfig::McpHttp1(m())), connection_key(&ProxyPassToConfig::Http1(m())));
    assert_eq!(connection_key(&ProxyPassToConfig::Http1(m())), "h1|Some(Http)|a:80");
}
