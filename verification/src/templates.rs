//! The HTML pages the proxy answers with when it cannot serve a request.
//!
//! A page is a complete HTTP/1.1 response: a status line, a `Content-Length`
//! header (and `Connection: close` where asked), a blank line and a small
//! centred HTML body naming the status, an optional second line and the
//! proxy's version.
use vstd::prelude::*;
use vstd::string::*;
use vstd::utf8::encode_utf8;
use crate::text::{decimal_chars, push_decimal};

verus! {

/// The HTML body of an error page.
pub open spec fn layout_body(text: Seq<char>, second_line: Option<Seq<char>>, status_code: u16, app_version: Seq<char>) -> Seq<char> {
    let second = match second_line {
        Some(s) => "<h4>"@ + s + "</h4>"@,
        None => Seq::empty(),
    };
    "\n        <div style=\"text-align: center;\">\n        <h2>"@ + text + "</h2>\n      "@ + second
        + "\n        <p>"@ + decimal_chars(status_code as nat) + "</p>\n        <hr/>\n        <div>MyReverseProxy "@
        + app_version + "</div>\n        </div>\n        "@
}

/// Status line, `Content-Length` of `body` (counted in UTF-8 bytes), an
/// optional `Connection: close`, the blank line, then the body.
pub open spec fn response_chars(first_line: Seq<char>, body: Seq<char>, connection_close: bool) -> Seq<char> {
    first_line + "\r\nContent-Length: "@ + decimal_chars(encode_utf8(body).len()) + "\r\n"@
        + (if connection_close { "Connection: close\r\n"@ } else { Seq::empty() }) + "\r\n"@ + body
}

/// The bytes of a page whose status line reads `200 OK`.
pub open spec fn layout_page(status_code: u16, text: Seq<char>, second_line: Option<Seq<char>>, connection_close: bool, app_version: Seq<char>) -> Seq<u8> {
    encode_utf8(response_chars("HTTP/1.1 200 OK"@, layout_body(text, second_line, status_code, app_version), connection_close))
}

/// The bytes of a page whose status line carries `status_code` and `text`.
pub open spec fn explicit_status_page(status_code: u16, text: Seq<char>, second_line: Option<Seq<char>>, app_version: Seq<char>) -> Seq<u8> {
    encode_utf8(response_chars(
        "HTTP/1.1 "@ + decimal_chars(status_code as nat) + " "@ + text,
        layout_body(text, second_line, status_code, app_version),
        false,
    ))
}

fn build_body(status_code: u16, text: &str, second_line: Option<&str>, app_version: &str) -> (r: String)
    ensures
        r@ == layout_body(text@, match second_line { Some(s) => Some(s@), None => None }, status_code, app_version@),
{
    let mut body = String::from_str("\n        <div style=\"text-align: center;\">\n        <h2>");
    body.append(text);
    body.append("</h2>\n      ");
    match second_line {
        Some(s) => {
            body.append("<h4>");
            body.append(s);
            body.append("</h4>");
        }
        None => {}
    }
    body.append("\n        <p>");
    push_decimal(&mut body, status_code as u64);
    body.append("</p>\n        <hr/>\n        <div>MyReverseProxy ");
    body.append(app_version);
    body.append("</div>\n        </div>\n        ");
    body
}

fn assemble(first_line: String, body: String, connection_close: bool) -> (r: Vec<u8>)
    ensures
        r@ == encode_utf8(response_chars(first_line@, body@, connection_close)),
{
    let body_len = body.as_str().as_bytes().len();
    let mut page = first_line;
    page.append("\r\nContent-Length: ");
    push_decimal(&mut page, body_len as u64);
    page.append("\r\n");
    if connection_close {
        page.append("Connection: close\r\n");
    }
    page.append("\r\n");
    page.append(body.as_str());
    let bytes = page.as_str().as_bytes();
    vstd::slice::slice_to_vec(bytes)
}

fn build_layout(status_code: u16, text: &str, second_line: Option<&str>, connection_close: bool, app_version: &str) -> (r: Vec<u8>)
    ensures
        r@ == layout_page(status_code, text@, match second_line { Some(s) => Some(s@), None => None }, connection_close, app_version@),
{
    let body = build_body(status_code, text, second_line, app_version);
    assemble(String::from_str("HTTP/1.1 200 OK"), body, connection_close)
}

pub fn generate_layout(status_code: u16, text: &str, second_line: Option<&str>, app_version: &str) -> (r: Vec<u8>)
    ensures
        r@ == layout_page(status_code, text@, match second_line { Some(s) => Some(s@), None => None }, false, app_version@),
{
    build_layout(status_code, text, second_line, false, app_version)
}

pub fn generate_layout_with_close(status_code: u16, text: &str, second_line: Option<&str>, app_version: &str) -> (r: Vec<u8>)
    ensures
        r@ == layout_page(status_code, text@, match second_line { Some(s) => Some(s@), None => None }, true, app_version@),
{
    build_layout(status_code, text, second_line, true, app_version)
}

/// Like [`generate_layout`] but the status line carries the actual status
/// code (and `text` as its reason phrase) instead of `200 OK`.
pub fn build_layout_with_explicit_status(status_code: u16, text: &str, second_line: Option<&str>, app_version: &str) -> (r: Vec<u8>)
    ensures
        r@ == explicit_status_page(status_code, text@, match second_line { Some(s) => Some(s@), None => None }, app_version@),
{
    let body = build_body(status_code, text, second_line, app_version);
    let mut first = String::from_str("HTTP/1.1 ");
    push_decimal(&mut first, status_code as u64);
    first.append(" ");
    first.append(text);
    assemble(first, body, false)
}

/// Every page the proxy can answer with on its own.
pub struct ErrorTemplates {
    pub not_found: Vec<u8>,
    pub remote_resource_is_not_available: Vec<u8>,
    pub location_is_not_found: Vec<u8>,
    pub endpoint_can_not_be_upgraded_to_web_socket: Vec<u8>,
    pub error_timeout: Vec<u8>,
    pub error_getting_content_from_remote_resource: Vec<u8>,
    pub upstream_is_not_http: Vec<u8>,
    pub not_authorized_page: Vec<u8>,
    pub proxy_to_header_missing: Vec<u8>,
    pub proxy_to_host_not_allowed: Vec<u8>,
    pub mtls_required_misdirected: Vec<u8>,
}

impl ErrorTemplates {
    pub open spec fn built_for(&self, v: Seq<char>) -> bool {
        &&& self.not_found@ == layout_page(404, "Resource not found"@, None, false, v)
        &&& self.remote_resource_is_not_available@ == layout_page(503, "Server Error"@, Some("Remote resource is not available"@), false, v)
        &&& self.location_is_not_found@ == layout_page(503, "Server Error"@, Some("Remote location configuration is missing"@), true, v)
        &&& self.endpoint_can_not_be_upgraded_to_web_socket@ == layout_page(405, "Forbidden"@, Some("Endpoint can not be upgraded to websocket"@), false, v)
        &&& self.error_timeout@ == layout_page(503, "Server Error"@, Some("Timeout"@), false, v)
        &&& self.error_getting_content_from_remote_resource@ == layout_page(502, "Server Error"@, Some("Bad gateway"@), false, v)
        &&& self.upstream_is_not_http@ == layout_page(502, "Server Error"@, Some("Upstream is not a valid HTTP server"@), false, v)
        &&& self.not_authorized_page@ == layout_page(401, "Not authorized request"@, None, false, v)
        &&& self.proxy_to_header_missing@ == explicit_status_page(421, "Misdirected Request"@, Some("Missing or invalid proxy-to header"@), v)
        &&& self.proxy_to_host_not_allowed@ == explicit_status_page(403, "Forbidden"@, Some("Upstream host not allowed"@), v)
        &&& self.mtls_required_misdirected@ == explicit_status_page(421, "Misdirected Request"@, Some("A client certificate is required for this host"@), v)
    }

    /// Builds every page, each footed with `app_version`.
    pub fn new(app_version: &str) -> (r: Self)
        ensures
            r.built_for(app_version@),
    {
        ErrorTemplates {
            not_found: generate_layout(404, "Resource not found", None, app_version),
            remote_resource_is_not_available: generate_layout(503, "Server Error", Some("Remote resource is not available"), app_version),
            location_is_not_found: generate_layout_with_close(503, "Server Error", Some("Remote location configuration is missing"), app_version),
            endpoint_can_not_be_upgraded_to_web_socket: generate_layout(405, "Forbidden", Some("Endpoint can not be upgraded to websocket"), app_version),
            error_timeout: generate_layout(503, "Server Error", Some("Timeout"), app_version),
            error_getting_content_from_remote_resource: generate_layout(502, "Server Error", Some("Bad gateway"), app_version),
            upstream_is_not_http: generate_layout(502, "Server Error", Some("Upstream is not a valid HTTP server"), app_version),
            not_authorized_page: generate_layout(401, "Not authorized request", None, app_version),
            proxy_to_header_missing: build_layout_with_explicit_status(421, "Misdirected Request", Some("Missing or invalid proxy-to header"), app_version),
            proxy_to_host_not_allowed: build_layout_with_explicit_status(403, "Forbidden", Some("Upstream host not allowed"), app_version),
            mtls_required_misdirected: build_layout_with_explicit_status(421, "Misdirected Request", Some("A client certificate is required for this host"), app_version),
        }
    }
}

} // verus!
