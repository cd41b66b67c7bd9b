use std::time::Duration;

use my_reverse_proxy::errors::{NetworkError, ProxyServerError};
use my_reverse_proxy::templates::ErrorTemplates;

fn templates() -> ErrorTemplates {
    ErrorTemplates::new("1.0.0")
}

#[test]
fn network_error_closes_silently() {
    let tpl = templates();
    let err = ProxyServerError::NetworkError(NetworkError::Disconnected);
    let h = err.error_handling(&tpl);
    assert!(h.page.is_none());
    assert_eq!(h.status_5xx, None);
    assert!(!h.register_ip_failure);
}

#[test]
fn drop_connection_closes_silently() {
    let tpl = templates();
    let err = ProxyServerError::DropConnection;
    let h = err.error_handling(&tpl);
    assert!(h.page.is_none());
    assert_eq!(h.status_5xx, None);
    assert!(!h.register_ip_failure);
}

#[test]
fn malformed_request_penalises_source_without_page() {
    let tpl = templates();
    for err in [
        ProxyServerError::HttpConfigurationIsNotFound,
        ProxyServerError::ParsingPayloadError("x"),
        ProxyServerError::ChunkHeaderParseError,
        ProxyServerError::HeadersParseError("x"),
    ] {
        let h = err.error_handling(&tpl);
        assert!(h.page.is_none(), "{:?}", err);
        assert_eq!(h.status_5xx, None);
        assert!(h.register_ip_failure, "{:?}", err);
    }
}

#[test]
fn connect_failure_is_503_unavailable_page() {
    let tpl = templates();
    let err = ProxyServerError::CanNotConnectToRemoteResource {
        remote_resource: "http://x:1/".to_string(),
        err: NetworkError::Disconnected,
    };
    let h = err.error_handling(&tpl);
    assert_eq!(h.status_5xx, Some(503));
    assert_eq!(h.page, Some(tpl.remote_resource_is_not_available.as_slice()));
    assert!(!h.register_ip_failure);
}

#[test]
fn connect_timeout_uses_timeout_page() {
    let tpl = templates();
    let err = ProxyServerError::CanNotConnectToRemoteResource {
        remote_resource: "http://x:1/".to_string(),
        err: NetworkError::Timeout(Duration::from_secs(1)),
    };
    let h = err.error_handling(&tpl);
    assert_eq!(h.status_5xx, Some(503));
    assert_eq!(h.page, Some(tpl.error_timeout.as_slice()));
}

#[test]
fn write_failure_is_503_unavailable_page() {
    let tpl = templates();
    let err = ProxyServerError::CanNotWriteContentToRemoteConnection(NetworkError::Disconnected);
    let h = err.error_handling(&tpl);
    assert_eq!(h.status_5xx, Some(503));
    assert_eq!(h.page, Some(tpl.remote_resource_is_not_available.as_slice()));
}

#[test]
fn location_not_found_is_logged_503() {
    let tpl = templates();
    let err = ProxyServerError::LocationIsNotFound;
    let h = err.error_handling(&tpl);
    assert_eq!(h.status_5xx, Some(503));
    assert_eq!(h.page, Some(tpl.location_is_not_found.as_slice()));
}

#[test]
fn not_authorized_has_page_but_is_not_logged_5xx() {
    let tpl = templates();
    let err = ProxyServerError::NotAuthorized;
    let h = err.error_handling(&tpl);
    assert_eq!(h.status_5xx, None);
    assert_eq!(h.page, Some(tpl.not_authorized_page.as_slice()));
    assert!(!h.register_ip_failure);
}

#[test]
fn http_response_passes_payload_through() {
    let tpl = templates();
    let payload = b"HTTP/1.1 418 I am a teapot\r\n\r\n".to_vec();
    let err = ProxyServerError::HttpResponse(payload.clone());
    let h = err.error_handling(&tpl);
    assert_eq!(h.status_5xx, None);
    assert_eq!(h.page, Some(payload.as_slice()));
}

#[test]
fn proxy_to_errors_use_the_421_and_403_pages() {
    let tpl = templates();
    let h = ProxyServerError::ProxyToHeaderInvalid.error_handling(&tpl);
    assert_eq!(h.page, Some(tpl.proxy_to_header_missing.as_slice()));
    let h = ProxyServerError::ProxyToHostNotAllowed.error_handling(&tpl);
    assert_eq!(h.page, Some(tpl.proxy_to_host_not_allowed.as_slice()));
    assert!(tpl.proxy_to_host_not_allowed.starts_with(b"HTTP/1.1 403 Forbidden\r\n"));
}

#[test]
fn pages_that_are_not_printed_as_debug() {
    assert!(!ProxyServerError::NotAuthorized.can_be_printed_as_debug());
    assert!(!ProxyServerError::LocationIsNotFound.can_be_printed_as_debug());
    assert!(!ProxyServerError::HttpResponse(vec![1]).can_be_printed_as_debug());
    assert!(ProxyServerError::DropConnection.can_be_printed_as_debug());
}

#[test]
fn layout_page_exact_bytes() {
    let page = my_reverse_proxy::templates::generate_layout(404, "Resource not found", None, "9.9");
    let body = "\n        <div style=\"text-align: center;\">\n        <h2>Resource not found</h2>\n      \n        <p>404</p>\n        <hr/>\n        <div>MyReverseProxy 9.9</div>\n        </div>\n        ";
    let expected = format!("HTTP/1.1 200 OK\r\nContent-Length: {}\r\n\r\n{}", body.len(), body);
    assert_eq!(page, expected.into_bytes());
    let closed = my_reverse_proxy::templates::generate_layout_with_close(503, "Server Error", Some("x"), "9.9");
    assert!(String::from_utf8(closed).unwrap().contains("Connection: close\r\n\r\n"));
}

#[test]
fn errors_convert_from_transport_and_parser_failures() {
    let e: ProxyServerError = NetworkError::Disconnected.into();
    assert!(matches!(e, ProxyServerError::NetworkError(NetworkError::Disconnected)));
    let p = ProxyServerError::from("bad header");
    assert!(matches!(p, ProxyServerError::ParsingPayloadError("bad header")));
}
