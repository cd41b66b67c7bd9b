use std::collections::HashMap;

use my_reverse_proxy::dashboard::{
    display_ip_list, gateway_route_rows, str_lt, endpoint_conn_class, endpoint_has_meta, endpoint_logs_request, forward_pill,
    gateway_client_conn_class, gateway_server_conn_class, latest_sample, listen_type_class, location_logs_request,
    location_type_class, pool_label, port_conn_class, port_logs_request,
};
use my_reverse_proxy::ui::{
    fmt_time, init_ssl_certificate_request, location_row_class, normalize_type, ssl_days_left_class, to_base64,
    upload_rejection_message, urlencode, GatewayConnectionModel, HttpEndpointInfoModel, HttpProxyPassLocationModel,
    LogScope, PortConfigurationModel,
};

fn endpoint_model(host: &str) -> HttpEndpointInfoModel {
    HttpEndpointInfoModel {
        host: host.to_string(),
        kind: "https".to_string(),
        locations: vec![],
        debug: false,
        inbound_connections: 0,
        resolved_ip: None,
        ip_list: None,
        allowed_user_list_id: None,
        ssl_cert_id: None,
        client_cert_id: None,
        g_auth: None,
    }
}

#[test]
fn type_pills_use_a_css_slug() {
    assert_eq!(normalize_type("Unix+HTTP1"), "unix-http1");
    assert_eq!(listen_type_class("HTTPS2"), "type-pill listen-https2");
    assert_eq!(location_type_class("unix+http1"), "type-pill type-unix-http1");
}

#[test]
fn counters_light_up_while_connections_are_open() {
    assert_eq!(port_conn_class(3), "conn-count active");
    assert_eq!(port_conn_class(0), "conn-count");
    assert_eq!(endpoint_conn_class(1), "conn-count endpoint-conn active");
    assert_eq!(endpoint_conn_class(-1), "conn-count endpoint-conn");
    assert_eq!(gateway_server_conn_class(0), "conn-count");
    assert_eq!(gateway_server_conn_class(2), "conn-count active");
    assert_eq!(gateway_client_conn_class(0), "conn-count endpoint-conn");
    assert_eq!(gateway_client_conn_class(1), "conn-count endpoint-conn active");
}

#[test]
fn log_dialogs_name_their_scope() {
    let port = PortConfigurationModel {
        port: 443,
        unix_socket: None,
        kind: "https".to_string(),
        endpoints: vec![],
        inbound_connections: 0,
    };
    let r = port_logs_request(&port);
    assert_eq!(r.title, "Port logs — 443");
    assert_eq!(r.scope, LogScope::Port("443".to_string()));
    let unix = PortConfigurationModel { unix_socket: Some("/tmp/s".to_string()), port: 0, ..port };
    let r = port_logs_request(&unix);
    assert_eq!(r.title, "Port logs — unix /tmp/s");
    assert_eq!(r.scope, LogScope::Port("/tmp/s".to_string()));
    let r = endpoint_logs_request(&endpoint_model("a.com:443"));
    assert_eq!(r.title, "Endpoint logs — a.com:443");
    assert_eq!(r.scope, LogScope::Endpoint("a.com:443".to_string()));
    let loc = HttpProxyPassLocationModel {
        path: "/api".to_string(),
        to: "http://x".to_string(),
        kind: "http1".to_string(),
        remote_kind: None,
        location_id: -12,
        id_string: String::new(),
        debug: false,
        pool_alive: None,
        pool_total: None,
        last_status: None,
    };
    let r = location_logs_request(&loc);
    assert_eq!(r.title, "Location logs — /api (-12)");
    assert_eq!(r.scope, LogScope::Location(-12));
}

#[test]
fn meta_pool_and_status_labels() {
    let mut e = endpoint_model("a");
    assert!(!endpoint_has_meta(&e));
    e.ip_list = Some("office".to_string());
    assert!(endpoint_has_meta(&e));
    assert_eq!(pool_label(Some(2), Some(5)), "2/5");
    assert_eq!(pool_label(Some(2), None), "—");
    assert_eq!(location_row_class(Some(1)), "upstream-ok");
    assert_eq!(location_row_class(Some(2)), "upstream-error");
    assert_eq!(location_row_class(Some(0)), "upstream-unknown");
    assert_eq!(location_row_class(None), "");
    assert_eq!(ssl_days_left_class(3), "days-left critical");
    assert_eq!(ssl_days_left_class(10), "days-left warn");
    assert_eq!(ssl_days_left_class(30), "days-left ok");
}

#[test]
fn gateway_connections_show_their_forward_state_and_traffic() {
    let conn = GatewayConnectionModel {
        name: "gw".to_string(),
        forward_connections: 1,
        proxy_connections: 2,
        forward_routes: HashMap::new(),
        proxy_routes: HashMap::new(),
        ping_time: "1ms".to_string(),
        is_incoming_forward_connection_allowed: true,
        in_history: vec![1, 2, 3],
        out_history: vec![],
        timestamp: String::new(),
    };
    assert_eq!(forward_pill(&conn), ("allowed", "type-pill type-http2"));
    let blocked = GatewayConnectionModel { is_incoming_forward_connection_allowed: false, ..conn.clone() };
    assert_eq!(forward_pill(&blocked), ("blocked", "type-pill type-drop"));
    assert_eq!(latest_sample(&conn.in_history), 3);
    assert_eq!(latest_sample(&conn.out_history), 0);
}

#[test]
fn resolved_ips_are_listed_comma_separated() {
    assert_eq!(display_ip_list(&vec![]), None);
    assert_eq!(display_ip_list(&vec!["12.34.54.34".to_string()]), Some("12.34.54.34".to_string()));
    assert_eq!(
        display_ip_list(&vec!["12.34.54.34".to_string(), "12.34.54.35".to_string()]),
        Some("12.34.54.34, 12.34.54.35".to_string())
    );
}

#[test]
fn times_encodings_and_messages() {
    assert_eq!(fmt_time(0), "—");
    assert_eq!(fmt_time(3_723_004_000), "01:02:03.004");
    assert_eq!(fmt_time(86_400_000_000 + 1_000), "00:00:00.001");
    assert_eq!(urlencode("a b/c~"), "a%20b%2Fc~");
    assert_eq!(urlencode("é"), "%C3%A9");
    assert_eq!(to_base64("abc"), "YWJj");
    assert_eq!(to_base64("ab"), "YWI=");
    let req = init_ssl_certificate_request("c1", "a", "abcd");
    assert_eq!(req.cert_id, "c1");
    assert_eq!(req.cert, "YQ==");
    assert_eq!(req.private_key, "YWJjZA==");
    assert_eq!(upload_rejection_message("  Validation error: bad key ", "/api/x", "400"), "bad key");
    assert_eq!(upload_rejection_message("   ", "/api/x", "400"), "POST /api/x returned 400");
}

#[test]
fn gateway_routes_are_merged_and_sorted() {
    let mut forward = HashMap::new();
    forward.insert("db:5432".to_string(), 2);
    forward.insert("api:80".to_string(), 1);
    let mut proxy = HashMap::new();
    proxy.insert("api:80".to_string(), 4);
    proxy.insert("cache:6379".to_string(), 3);
    let conn = GatewayConnectionModel {
        name: "gw".to_string(),
        forward_connections: 3,
        proxy_connections: 7,
        forward_routes: forward,
        proxy_routes: proxy,
        ping_time: String::new(),
        is_incoming_forward_connection_allowed: false,
        in_history: vec![],
        out_history: vec![],
        timestamp: String::new(),
    };
    assert_eq!(
        gateway_route_rows(&conn),
        vec![
            ("api:80".to_string(), 1, 4),
            ("cache:6379".to_string(), 0, 3),
            ("db:5432".to_string(), 2, 0),
        ]
    );
}

#[test]
fn strings_order_like_str() {
    assert!(str_lt("abc", "abd"));
    assert!(str_lt("ab", "abc"));
    assert!(!str_lt("abc", "abc"));
    assert!(!str_lt("b", "abc"));
    assert!(str_lt("Z", "a"));
    assert!(str_lt("é", "ê"));
}
