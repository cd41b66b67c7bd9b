use my_reverse_proxy::content_sources::{
    expand_home, needs_home, remote_file_path, serve_file_target, ssh_connect_error, ssh_download_response,
    ssh_tunnel_port,
};
use my_reverse_proxy::ui::{
    api_error, build_url, endpoint_logs_path, location_logs_path, port_logs_path, ApiFailure, CURRENT_CONFIG_PATH,
    INIT_FROM_PEM_PATH,
};

#[test]
fn folder_locations_serve_the_default_file_for_the_root() {
    assert_eq!(serve_file_target("/", Some("index.html")), Some("index.html"));
    assert_eq!(serve_file_target("/", None), None);
    assert_eq!(serve_file_target("/a.css", Some("index.html")), Some("/a.css"));
}

#[test]
fn ssh_folder_locations_join_the_folder_and_the_path() {
    assert_eq!(remote_file_path("~/www", "/", Some("index.html")), "~/www/index.html");
    assert_eq!(remote_file_path("~/www", "/", None), "~/www/");
    assert_eq!(remote_file_path("/srv", "/img/a.png", Some("index.html")), "/srv/img/a.png");
}

#[test]
fn the_home_directory_replaces_every_tilde() {
    assert!(needs_home("~/www/index.html"));
    assert!(!needs_home("/srv/index.html"));
    assert_eq!(expand_home("~/www/~x", "/home/u"), "/home/u/www//home/ux");
    assert_eq!(expand_home("/srv", "/home/u"), "/srv");
}

#[test]
fn ssh_downloads_become_responses() {
    let ok = ssh_download_response(Ok(b"body".to_vec()), Some("text/html".to_string())).unwrap();
    assert_eq!(ok.status_code, 200);
    assert_eq!(ok.body, b"body".to_vec());
    assert_eq!(ok.content_type.as_deref(), Some("text/html"));
    let missing = ssh_download_response(Err(Some(-28)), Some("text/html".to_string())).unwrap();
    assert_eq!(missing.status_code, 404);
    assert_eq!(missing.body, b"Not found".to_vec());
    assert!(missing.content_type.is_none());
    assert!(ssh_download_response(Err(Some(-1)), None).is_none());
    assert!(ssh_download_response(Err(None), None).is_none());
}

#[test]
fn ssh_tunnels_default_to_port_80() {
    assert_eq!(ssh_tunnel_port(None), 80);
    assert_eq!(ssh_tunnel_port(Some(8080)), 8080);
    assert_eq!(ssh_connect_error("http://a:1", "Timeout"), "http://a:1. Err: Timeout");
}

#[test]
fn admin_api_urls_and_errors() {
    assert_eq!(build_url("https://proxy:8000", CURRENT_CONFIG_PATH), "https://proxy:8000/api/configuration/Current");
    assert_eq!(INIT_FROM_PEM_PATH, "/api/SslCertificates/InitFromPem");
    assert_eq!(port_logs_path("/tmp/a b.sock"), "/api/logs/port?id=%2Ftmp%2Fa%20b.sock");
    assert_eq!(endpoint_logs_path("a.com:443"), "/api/logs/endpoint?id=a.com%3A443");
    assert_eq!(location_logs_path(42), "/api/logs/location?id=42");
    assert_eq!(api_error(ApiFailure::Send, "GET", "u", "refused"), "GET u failed: refused");
    assert_eq!(api_error(ApiFailure::Status, "GET", "u", "500"), "GET u returned 500");
    assert_eq!(api_error(ApiFailure::Decode, "GET", "u", "eof"), "decoding u response failed: eof");
}
