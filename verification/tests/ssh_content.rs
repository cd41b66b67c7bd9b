use my_reverse_proxy::proxy_pass::{RemoteEndpoint, Scheme};
use my_reverse_proxy::ssh_content::{parse_ssh_part, SshContentSource, SshRemoteContent};

fn parsed_endpoint(src: &str, host: &str, port: Option<u16>) -> RemoteEndpoint {
    RemoteEndpoint {
        src: src.to_string(),
        scheme: None,
        host: host.to_string(),
        port,
        host_port: src.to_string(),
        path_and_query: String::new(),
    }
}

#[test]
fn test_parse_ssh_configuration() {
    let result = SshContentSource::parse(
        "ssh:root@12.12.13.13:22",
        "10.0.0.1:5123",
        Ok(parsed_endpoint("10.0.0.1:5123", "10.0.0.1", Some(5123))),
    )
    .unwrap();

    assert_eq!(result.credentials.get_user_name(), "root");
    assert_eq!(result.credentials.get_host_port_as_string(), "12.12.13.13:22");
    assert_eq!(result.remote_content.unwrap_as_remote_host().as_str(), "10.0.0.1:5123");
}

#[test]
fn test_parse_ssh_configuration_as_file() {
    let result = SshContentSource::parse(
        "ssh:root@12.12.13.13:22",
        "/home/user/file.txt",
        Err("not an endpoint".to_string()),
    )
    .unwrap();

    assert_eq!(result.credentials.get_user_name(), "root");
    assert_eq!(result.credentials.get_host_port_as_string(), "12.12.13.13:22");
    assert_eq!(result.remote_content.unwrap_as_file_path(), "/home/user/file.txt");
}

#[test]
fn ssh_part_defaults_to_port_22() {
    assert_eq!(parse_ssh_part("ssh:admin@bastion.example.com"), ("admin", "bastion.example.com", 22));
    assert_eq!(parse_ssh_part("user@h:2222"), ("user", "h", 2222));
}

#[test]
fn remote_parts_that_look_like_paths_are_files() {
    for p in ["/etc/x", "~/x", "./x"] {
        match SshRemoteContent::parse(p, Err("e".to_string())).unwrap() {
            SshRemoteContent::FilePath(f) => assert_eq!(f, p),
            other => panic!("{:?}", other),
        }
    }
    let err = SshRemoteContent::parse("bad", Err("Invalid remote endpoint".to_string())).unwrap_err();
    assert_eq!(err, "Invalid remote endpoint");
}

#[test]
fn a_remote_error_is_passed_on() {
    let r = SshContentSource::parse("ssh:root@h:22", "nonsense", Err("bad endpoint".to_string()));
    assert_eq!(r.unwrap_err(), "bad endpoint");
}

#[test]
fn source_prints_user_host_and_remote() {
    let mut e = parsed_endpoint("http://10.0.0.1:5123", "10.0.0.1", Some(5123));
    e.scheme = Some(Scheme::Http);
    let src = SshContentSource::parse("ssh:root@12.12.13.13", "http://10.0.0.1:5123", Ok(e)).unwrap();
    assert_eq!(src.to_string(), "root@12.12.13.13:22->http://10.0.0.1:5123");
}
