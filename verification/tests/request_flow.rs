use std::sync::Arc;

use my_reverse_proxy::endpoint::{HttpEndpointInfo, ListenHttpEndpointType};
use my_reverse_proxy::errors::{ErrorHandling, NetworkError, ProxyServerError};
use my_reverse_proxy::headers::Http1Headers;
use my_reverse_proxy::host_str::EndpointHttpHostString;
use my_reverse_proxy::proxy_logs::ProxyLogs;
use my_reverse_proxy::proxy_pass::{
    connection_key, DynamicProxyConfig, MyReverseProxyRemoteEndpoint, ProxyPassToConfig, RemoteEndpoint, Scheme,
};
use my_reverse_proxy::request_flow::{
    dispatch_step, error_response_events, serve_next_request, DispatchAction, DispatchEvent, DispatchStage,
};
use my_reverse_proxy::upstream_policy::ResponseEvent;
use my_reverse_proxy::request_flow::{
    after_local_response_step, after_request_step, close_after_request, connection_lost_error, head_send_step,
    log_upstream_failure, needs_endpoint_resolve, request_host_for_metric, resolve_dynamic_target, respond_error_plan,
    upstream_failure_message, H1CurrentRequest, HeadSendStep, ProxyToHeader, ReaderStep, UpstreamFailure,
    WebSocketUpgradeResult,
};

fn head(buf: &[u8], host: &str) -> Http1Headers {
    let text = std::str::from_utf8(buf).unwrap();
    let start = text.find(host).unwrap();
    Http1Headers { first_line_end: text.find("\r\n").unwrap(), host_value: Some((start, start + host.len())) }
}

#[test]
fn the_request_host_drops_its_port_and_spaces() {
    let buf = b"GET / HTTP/1.1\r\nHost:  example.com:8080 \r\n\r\n";
    let h = head(buf, " example.com:8080 ");
    assert_eq!(request_host_for_metric(buf, &h), Some("example.com".to_string()));
}

#[test]
fn no_host_header_or_an_out_of_range_one_gives_nothing() {
    let buf = b"GET / HTTP/1.1\r\n\r\n";
    let none = Http1Headers { first_line_end: 14, host_value: None };
    assert_eq!(request_host_for_metric(buf, &none), None);
    let beyond = Http1Headers { first_line_end: 14, host_value: Some((10, 100)) };
    assert_eq!(request_host_for_metric(buf, &beyond), None);
    let bad = [b'H', 0xff, 0xfe];
    let invalid = Http1Headers { first_line_end: 0, host_value: Some((0, 3)) };
    assert_eq!(request_host_for_metric(&bad, &invalid), None);
}

fn http_endpoint(host: &str) -> HttpEndpointInfo {
    HttpEndpointInfo {
        host_endpoint: EndpointHttpHostString::new(host.to_string()).unwrap(),
        listen_endpoint_type: ListenHttpEndpointType::Http1,
        ssl_certificate_id: None,
        debug: false,
        keep_alive: true,
    }
}

#[test]
fn the_endpoint_is_resolved_when_unknown_or_not_serving_the_host() {
    let e = http_endpoint("example.com:80");
    assert!(needs_endpoint_resolve(None, Some("example.com")));
    assert!(needs_endpoint_resolve(None, None));
    assert!(!needs_endpoint_resolve(Some(&e), Some("EXAMPLE.com")));
    assert!(needs_endpoint_resolve(Some(&e), Some("other.com")));
    assert!(!needs_endpoint_resolve(Some(&e), None));
}

fn target(scheme: Option<Scheme>, host: &str) -> RemoteEndpoint {
    RemoteEndpoint {
        src: format!("http://{host}:8080"),
        scheme,
        host: host.to_string(),
        port: Some(8080),
        host_port: format!("{host}:8080"),
        path_and_query: "/".to_string(),
    }
}

fn dynamic(allowed: Option<Vec<&str>>) -> DynamicProxyConfig {
    DynamicProxyConfig {
        request_timeout_ms: 15_000,
        connect_timeout_ms: 5_000,
        allowed_hosts: allowed.map(|v| v.into_iter().map(|s| s.to_string()).collect()),
    }
}

#[test]
fn dynamic_locations_refuse_missing_or_invalid_targets() {
    let cfg = dynamic(None);
    assert!(matches!(resolve_dynamic_target(&cfg, ProxyToHeader::Missing), Err(ProxyServerError::ProxyToHeaderMissing)));
    assert!(matches!(resolve_dynamic_target(&cfg, ProxyToHeader::Unparsable), Err(ProxyServerError::ProxyToHeaderInvalid)));
    let unix = target(Some(Scheme::UnixSocket), "a");
    assert!(matches!(
        resolve_dynamic_target(&cfg, ProxyToHeader::Parsed(unix)),
        Err(ProxyServerError::ProxyToHeaderInvalid)
    ));
    let no_scheme = target(None, "a");
    assert!(matches!(
        resolve_dynamic_target(&cfg, ProxyToHeader::Parsed(no_scheme)),
        Err(ProxyServerError::ProxyToHeaderInvalid)
    ));
}

#[test]
fn dynamic_locations_honour_the_allow_list() {
    let cfg = dynamic(Some(vec!["api.internal"]));
    let denied = target(Some(Scheme::Https), "evil.com");
    assert!(matches!(
        resolve_dynamic_target(&cfg, ProxyToHeader::Parsed(denied)),
        Err(ProxyServerError::ProxyToHostNotAllowed)
    ));
    let allowed = target(Some(Scheme::Wss), "API.Internal");
    let (to, host_port) = resolve_dynamic_target(&cfg, ProxyToHeader::Parsed(allowed)).unwrap();
    assert_eq!(host_port, "API.Internal:8080");
    match to {
        ProxyPassToConfig::Http1(m) => {
            assert_eq!(m.request_timeout_ms, 15_000);
            assert_eq!(m.connect_timeout_ms, 5_000);
            assert_eq!(m.pool_tuning.pool_size, 5);
            match m.remote_host {
                MyReverseProxyRemoteEndpoint::Direct { remote_host } => assert_eq!(remote_host.host, "API.Internal"),
                other => panic!("{:?}", other),
            }
        }
        other => panic!("{:?}", other),
    }
}

#[test]
fn error_plans_follow_the_handling() {
    let page: &[u8] = b"page";
    let h = ErrorHandling { page: Some(page), status_5xx: Some(503), register_ip_failure: true };
    let p = respond_error_plan(&h, true, true);
    assert!(p.register_ip_failure);
    assert_eq!(p.log_5xx, Some(503));
    assert_eq!(p.page, Some(page));
    assert_eq!(p.afterwards, ReaderStep::Close);
    let p = respond_error_plan(&h, false, false);
    assert!(!p.register_ip_failure);
    assert_eq!(p.log_5xx, None);
    assert_eq!(p.afterwards, ReaderStep::Close);
}

#[test]
fn an_error_page_is_queued_only_while_the_writer_is_there() {
    let page: &[u8] = b"page";
    let events = error_response_events(Some(page), true);
    assert_eq!(events.len(), 2);
    assert!(matches!(&events[0], ResponseEvent::Chunk(b) if b.as_slice() == page));
    assert!(matches!(events[1], ResponseEvent::Done));
    assert!(error_response_events(Some(page), false).is_empty());
    assert!(error_response_events(None, true).is_empty());
}

#[test]
fn a_failed_request_stops_the_single_loop_server() {
    assert!(!serve_next_request(true, Some(true)));
    assert!(!serve_next_request(true, None));
    assert!(serve_next_request(false, Some(true)));
    assert!(serve_next_request(false, None));
    assert!(!serve_next_request(false, Some(false)));
}

#[test]
fn connections_stay_open_only_on_keep_alive() {
    assert_eq!(after_request_step(true, true), ReaderStep::Continue);
    assert_eq!(after_request_step(false, true), ReaderStep::Close);
    assert_eq!(after_request_step(true, false), ReaderStep::Close);
    assert_eq!(after_local_response_step(true, true), ReaderStep::Continue);
    assert_eq!(after_local_response_step(false, true), ReaderStep::Close);
    assert_eq!(after_local_response_step(true, false), ReaderStep::Close);
    assert!(close_after_request(Some(false)));
    assert!(!close_after_request(Some(true)));
    assert!(!close_after_request(None));
}

#[test]
fn a_stale_head_send_reconnects_once() {
    assert!(matches!(head_send_step(false, true), HeadSendStep::Forward));
    assert!(matches!(head_send_step(false, false), HeadSendStep::Reconnect));
    match head_send_step(true, false) {
        HeadSendStep::Fail(ProxyServerError::CanNotWriteContentToRemoteConnection(NetworkError::OtherStr(m))) => {
            assert_eq!(m, "Remote resource is disconnected")
        }
        other => panic!("{:?}", other),
    }
    match connection_lost_error() {
        ProxyServerError::CanNotWriteContentToRemoteConnection(NetworkError::OtherStr(m)) => {
            assert_eq!(m, "Remote connection is lost")
        }
        other => panic!("{:?}", other),
    }
}

#[test]
fn upstream_failures_are_logged_under_the_location() {
    let mut logs = ProxyLogs::new();
    let msg = upstream_failure_message(UpstreamFailure::Connect, "http://a:1", "Disconnected");
    assert_eq!(msg, "Can not connect to upstream http://a:1: Disconnected");
    log_upstream_failure(&mut logs, 7, msg.clone(), 123);
    let items = logs.get_by_location(7);
    assert_eq!(items.len(), 1);
    assert_eq!(items[0].message, msg);
    assert_eq!(items[0].moment, 123);
    assert_eq!(
        upstream_failure_message(UpstreamFailure::HeadersRejectedAgain, "u", ""),
        "Upstream u reconnected but sending request headers failed again"
    );
    assert_eq!(
        upstream_failure_message(UpstreamFailure::BodyTransfer, "u", "x"),
        "Upstream u request failed transferring request body: x"
    );
    assert_eq!(upstream_failure_message(UpstreamFailure::Reconnect, "u", "x"), "Can not reconnect to upstream u: x");
}

#[test]
fn an_upgrade_names_its_pool_key_and_a_request_starts_empty() {
    let t = target(Some(Scheme::Http), "h");
    let p = ProxyPassToConfig::Http1(my_reverse_proxy::proxy_pass::ProxyPassToModel {
        remote_host: MyReverseProxyRemoteEndpoint::Direct { remote_host: Arc::new(t) },
        request_timeout_ms: 1,
        connect_timeout_ms: 1,
        pool_tuning: my_reverse_proxy::proxy_pass::PoolTuning::default_tuning(),
    });
    let r = WebSocketUpgradeResult::for_upstream(&p);
    assert_eq!(r.upstream_key, connection_key(&p));
    assert_eq!(r.upstream_key, "h1|Some(Http)|h:8080");
    let c = H1CurrentRequest::new(9);
    assert_eq!(c.connection_id, 9);
    assert!(c.buffer.is_empty());
    assert!(!c.done);
}

#[test]
fn a_drop_location_closes_before_authorization() {
    let (s, a) = dispatch_step(DispatchStage::ReadingHead, DispatchEvent::HeadRead);
    assert_eq!(s, DispatchStage::FindingLocation);
    assert!(matches!(a, DispatchAction::FindLocation));
    let (s2, a2) = dispatch_step(s, DispatchEvent::LocationFound { is_drop: true });
    assert_eq!(s2, DispatchStage::Finished);
    assert!(matches!(a2, DispatchAction::Close));
    let (s, a) = dispatch_step(s, DispatchEvent::LocationFound { is_drop: false });
    assert_eq!(s, DispatchStage::Authorizing);
    assert!(matches!(a, DispatchAction::Authorize));
    let (s, a) = dispatch_step(s, DispatchEvent::Authorized);
    assert!(matches!(a, DispatchAction::CheckUser));
    let (_, a) = dispatch_step(s, DispatchEvent::UserChecked { allowed: false });
    assert!(matches!(a, DispatchAction::RespondError(ProxyServerError::NotAuthorized)));
    let (_, a) = dispatch_step(DispatchStage::CheckingUser, DispatchEvent::UserChecked { allowed: true });
    assert!(matches!(a, DispatchAction::Route));
    let (_, a) = dispatch_step(DispatchStage::ReadingHead, DispatchEvent::HeadFailed);
    assert!(matches!(a, DispatchAction::Close));
}
