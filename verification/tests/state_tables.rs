use std::sync::Arc;

use my_reverse_proxy::headers::{find_authorization_value, header_auth_passes, trim_ascii, Http1Headers};
use my_reverse_proxy::metrics::{Http1ConnectionGauge, MetricsInner, MetricsValues};
use my_reverse_proxy::pending_uploads::{PendingSslUploads, PendingUploadState};
use my_reverse_proxy::proxy_logs::{ProxyLogScope, ProxyLogs, MAX_LOG_MESSAGES};
use my_reverse_proxy::settings::{
    EndpointSettings, LocationSettings, McpEndpointSettings, OAuthContext, OAuthCredentialsList, OAuthSettings,
    SshConfig, SshConfigListInternal,
};
use my_reverse_proxy::proxy_pass::PoolTuning;

#[test]
fn a_log_ring_keeps_the_newest_hundred() {
    let mut logs = ProxyLogs::new();
    for i in 0..(MAX_LOG_MESSAGES as i64 + 5) {
        logs.write_port("443", format!("m{i}"), i);
    }
    let items = logs.get_by_port("443");
    assert_eq!(items.len(), MAX_LOG_MESSAGES);
    assert_eq!(items[0].message, "m5");
    assert_eq!(items[MAX_LOG_MESSAGES - 1].message, "m104");
    assert!(logs.get_by_port("80").is_empty());
}

#[test]
fn endpoint_logs_also_land_under_the_location() {
    let mut logs = ProxyLogs::new();
    logs.write("a.com:443", Some(3), "hello".to_string(), 10);
    logs.write("a.com:443", None, "bye".to_string(), 11);
    assert_eq!(logs.get_by_endpoint("a.com:443").len(), 2);
    let loc = logs.get_by_location(3);
    assert_eq!(loc.len(), 1);
    assert_eq!(loc[0].message, "hello");
    assert_eq!(loc[0].moment, 10);
    let scope = ProxyLogScope::new(Arc::new("b.com:443".to_string()), 9);
    scope.write(&mut logs, "ws closed".to_string(), 12);
    assert_eq!(logs.get_by_endpoint("b.com:443")[0].message, "ws closed");
    assert_eq!(logs.get_by_location(9)[0].moment, 12);
}

#[test]
fn gauges_count_up_and_down() {
    let mut v: MetricsValues<u16> = MetricsValues::new();
    assert_eq!(v.get(&443), 0);
    v.dec(&443);
    assert_eq!(v.get(&443), -1);
    v.inc(&443);
    v.inc(&443);
    assert_eq!(v.get(&443), 1);
}

#[test]
fn a_connection_is_attributed_once_and_released_everywhere() {
    let mut m = MetricsInner::new();
    let mut g = Http1ConnectionGauge::open(&mut m, Some(443));
    assert_eq!(m.connection_by_port.get(&443), 1);
    g.attribute_to_endpoint(&mut m, "a.com:443");
    g.attribute_to_endpoint(&mut m, "b.com:443");
    assert_eq!(m.connection_by_endpoint.get(&"a.com:443".to_string()), 1);
    assert_eq!(m.connection_by_endpoint.get(&"b.com:443".to_string()), 0);
    g.release(&mut m);
    assert_eq!(m.connection_by_port.get(&443), 0);
    assert_eq!(m.connection_by_endpoint.get(&"a.com:443".to_string()), 0);
    let unix = Http1ConnectionGauge::new(None);
    assert_eq!(unix.port(), None);
}

#[test]
fn an_upload_completes_once_both_parts_arrive() {
    let mut u = PendingSslUploads::new();
    assert!(matches!(u.set_certificate("c1", b"CERT".to_vec()), PendingUploadState::WaitingForPrivateKey));
    match u.set_private_key("c1", b"KEY".to_vec()) {
        PendingUploadState::Complete { cert_pem, private_key_pem } => {
            assert_eq!(cert_pem, b"CERT".to_vec());
            assert_eq!(private_key_pem, b"KEY".to_vec());
        }
        other => panic!("{:?}", other),
    }
    assert!(matches!(u.set_private_key("c1", b"K2".to_vec()), PendingUploadState::WaitingForCertificate));
    assert!(matches!(u.set_private_key("c1", b"K3".to_vec()), PendingUploadState::WaitingForCertificate));
    match u.set_certificate("c1", b"C2".to_vec()) {
        PendingUploadState::Complete { cert_pem, private_key_pem } => {
            assert_eq!(cert_pem, b"C2".to_vec());
            assert_eq!(private_key_pem, b"K3".to_vec());
        }
        other => panic!("{:?}", other),
    }
}

#[test]
fn settings_fall_back_to_defaults() {
    let mcp = McpEndpointSettings::from_settings(&EndpointSettings {
        mcp_read_timeout_ms: None,
        mcp_write_timeout_ms: Some(1_000),
        mcp_buffer_size: None,
    });
    assert_eq!(mcp.read_timeout_ms, 180_000);
    assert_eq!(mcp.write_timeout_ms, 1_000);
    assert_eq!(mcp.buffer_size, 512 * 1024);
    let pool = PoolTuning::from_location_settings(&LocationSettings {
        pool_size: Some(9),
        pool_ping_timeout_ms: None,
        pool_hot_window_ms: None,
    });
    assert_eq!(pool.pool_size, 9);
    assert_eq!(pool.ping_timeout_ms, 1_000);
    assert_eq!(pool.hot_window_ms, 3_000);
}

fn oauth(pairs: &[(&str, &str)]) -> OAuthSettings {
    OAuthSettings { entries: pairs.iter().map(|(a, b)| (a.to_string(), b.to_string())).collect() }
}

#[test]
fn oauth_contexts_survive_unchanged_reloads() {
    let mut list = OAuthCredentialsList::new();
    assert!(list.get("g").is_none());
    list.add_or_update("g".to_string(), OAuthContext::new(oauth(&[("client_id", "1")])));
    assert!(list.is_up_to_date("g", &oauth(&[("client_id", "1")])));
    assert!(!list.is_up_to_date("g", &oauth(&[("client_id", "2")])));
    assert!(!list.is_up_to_date("other", &oauth(&[])));
    assert_eq!(list.get("g").unwrap().codes_in_flight.len(), 0);
}

#[test]
fn ssh_settings_match_with_or_without_port_22() {
    let mut l = SshConfigListInternal::new();
    l.clear_and_init(vec![
        ("root@10.0.0.1".to_string(), SshConfig::Password("p".to_string())),
        ("admin@10.0.0.2:2222".to_string(), SshConfig::Password("q".to_string())),
    ]);
    assert!(l.get("root@10.0.0.1:22").is_some());
    assert!(l.get("root@10.0.0.1").is_some());
    assert!(l.get("admin@10.0.0.2:2222").is_some());
    assert!(l.get("admin@10.0.0.2").is_none());
    assert!(l.get("root@10.0.0.1:2222").is_none());
    l.clear_and_init(vec![]);
    assert!(l.get("root@10.0.0.1").is_none());
}

#[test]
fn the_authorization_header_is_found_trimmed() {
    let data = b"GET / HTTP/1.1\r\nHost: a\r\nAUTHORIZATION:  Bearer xyz \t\r\n\r\n";
    let h = Http1Headers { first_line_end: 14, host_value: None };
    assert_eq!(find_authorization_value(&h, data), Some(&b"Bearer xyz"[..]));
    assert!(header_auth_passes(Some("Bearer xyz"), &h, data));
    assert!(!header_auth_passes(Some("Bearer abc"), &h, data));
    assert!(header_auth_passes(None, &h, data));
    assert!(header_auth_passes(Some(""), &h, data));
    let none = b"GET / HTTP/1.1\r\nHost: a\r\n\r\n";
    assert_eq!(find_authorization_value(&h, none), None);
    assert!(!header_auth_passes(Some("Bearer xyz"), &h, none));
    assert_eq!(trim_ascii(b" \t x y \t"), b"x y");
    assert_eq!(trim_ascii(b"\x0cBearer x\r\n"), b"Bearer x");
    assert_eq!(trim_ascii(b" \tBearer x\t "), b"Bearer x");
}
