//! Where a location passes its requests: the upstream description, its
//! display form, its kind, and the key upstream connections are pooled by.
use vstd::prelude::*;
use std::sync::Arc;
use crate::text::{decimal_chars, push_decimal};

verus! {


/// Location type names shared with the configuration files.
pub const LOCATION_TYPE_MCP: &'static str = "mcp";
pub const LOCATION_TYPE_STATIC: &'static str = "static";
pub const LOCATION_TYPE_DYNAMIC: &'static str = "dynamic";

/// URL scheme of a remote endpoint.
#[derive(Clone, Copy, Debug, PartialEq, Eq)]
pub enum Scheme {
    Http,
    Https,
    Ws,
    Wss,
    UnixSocket,
}

/// A parsed remote endpoint (`scheme://host:port/path?query`), holding the
/// parts the proxy reads.  Parsing itself happens where the text is read.
#[derive(Clone, Debug)]
pub struct RemoteEndpoint {
    /// The endpoint as written.
    pub src: String,
    pub scheme: Option<Scheme>,
    pub host: String,
    pub port: Option<u16>,
    /// `host:port` as written (just `host` when no port is given).
    pub host_port: String,
    pub path_and_query: String,
}

impl RemoteEndpoint {
    /// The endpoint as written.
    pub fn as_str(&self) -> (r: &str)
        ensures
            r@ == self.src@,
    {
        self.src.as_str()
    }

    pub fn get_host(&self) -> (r: &str)
        ensures
            r@ == self.host@,
    {
        self.host.as_str()
    }

    pub fn get_host_port(&self) -> (r: &str)
        ensures
            r@ == self.host_port@,
    {
        self.host_port.as_str()
    }
}

/// Credentials of an ssh tunnel through the local ssh agent.
#[derive(Clone, Debug)]
pub struct SshCredentials {
    pub ssh_user_name: String,
    pub ssh_remote_host: String,
    pub ssh_remote_port: u16,
}

impl SshCredentials {
    pub open spec fn host_port_spec(&self) -> Seq<char> {
        self.ssh_remote_host@ + ":"@ + decimal_chars(self.ssh_remote_port as nat)
    }

    /// `user@host:port`, the id the ssh settings are looked up by.
    pub open spec fn id_spec(&self) -> Seq<char> {
        self.ssh_user_name@ + "@"@ + self.host_port_spec()
    }

    pub fn get_user_name(&self) -> (r: &str)
        ensures
            r@ == self.ssh_user_name@,
    {
        self.ssh_user_name.as_str()
    }

    pub fn get_host_port_as_string(&self) -> (r: String)
        ensures
            r@ == self.host_port_spec(),
    {
        let mut r = self.ssh_remote_host.clone();
        r.append(":");
        push_decimal(&mut r, self.ssh_remote_port as u64);
        r
    }

    pub fn to_string(&self) -> (r: String)
        ensures
            r@ == self.id_spec(),
    {
        let mut r = self.ssh_user_name.clone();
        r.append("@");
        let hp = self.get_host_port_as_string();
        r.append(hp.as_str());
        r
    }
}

/// How the proxy reaches an upstream.
#[derive(Clone, Debug)]
pub enum MyReverseProxyRemoteEndpoint {
    Direct { remote_host: Arc<RemoteEndpoint> },
    OverSsh { ssh_credentials: Arc<SshCredentials>, remote_host: Arc<RemoteEndpoint> },
    Gateway { id: Arc<String>, remote_host: Arc<RemoteEndpoint> },
}

impl MyReverseProxyRemoteEndpoint {
    pub open spec fn remote_host_spec(&self) -> RemoteEndpoint {
        match self {
            MyReverseProxyRemoteEndpoint::Direct { remote_host } => **remote_host,
            MyReverseProxyRemoteEndpoint::OverSsh { remote_host, .. } => **remote_host,
            MyReverseProxyRemoteEndpoint::Gateway { remote_host, .. } => **remote_host,
        }
    }

    pub open spec fn to_string_spec(&self) -> Seq<char> {
        match self {
            MyReverseProxyRemoteEndpoint::Direct { remote_host } => remote_host.src@,
            MyReverseProxyRemoteEndpoint::OverSsh { ssh_credentials, remote_host } =>
                "ssh:"@ + ssh_credentials.id_spec() + "->"@ + remote_host.src@,
            MyReverseProxyRemoteEndpoint::Gateway { id, remote_host } =>
                "gateway:"@ + id@ + "->"@ + remote_host.src@,
        }
    }

    pub open spec fn kind_spec(&self) -> Seq<char> {
        match self {
            MyReverseProxyRemoteEndpoint::Direct { .. } => "direct"@,
            MyReverseProxyRemoteEndpoint::OverSsh { .. } => "ssh"@,
            MyReverseProxyRemoteEndpoint::Gateway { .. } => "gateway"@,
        }
    }

    /// The upstream as written in the configuration.
    pub fn to_string(&self) -> (r: String)
        ensures
            r@ == self.to_string_spec(),
    {
        match self {
            MyReverseProxyRemoteEndpoint::Direct { remote_host } => remote_host.src.clone(),
            MyReverseProxyRemoteEndpoint::OverSsh { ssh_credentials, remote_host } => {
                let mut r = String::from_str("ssh:");
                let id = ssh_credentials.to_string();
                r.append(id.as_str());
                r.append("->");
                r.append(remote_host.src.as_str());
                r
            },
            MyReverseProxyRemoteEndpoint::Gateway { id, remote_host } => {
                let mut r = String::from_str("gateway:");
                r.append(id.as_str());
                r.append("->");
                r.append(remote_host.src.as_str());
                r
            },
        }
    }

    /// The transport kind: `direct`, `ssh` or `gateway`.
    pub fn kind_as_str(&self) -> (r: &'static str)
        ensures
            r@ == self.kind_spec(),
    {
        match self {
            MyReverseProxyRemoteEndpoint::Direct { .. } => "direct",
            MyReverseProxyRemoteEndpoint::OverSsh { .. } => "ssh",
            MyReverseProxyRemoteEndpoint::Gateway { .. } => "gateway",
        }
    }

    pub fn get_path_and_query(&self) -> (r: &str)
        ensures
            r@ == self.remote_host_spec().path_and_query@,
    {
        match self {
            MyReverseProxyRemoteEndpoint::Direct { remote_host } => remote_host.path_and_query.as_str(),
            MyReverseProxyRemoteEndpoint::OverSsh { remote_host, .. } => remote_host.path_and_query.as_str(),
            MyReverseProxyRemoteEndpoint::Gateway { remote_host, .. } => remote_host.path_and_query.as_str(),
        }
    }
}

/// `format!("{:?}", s)` of a string: quoted, with its characters escaped.
pub uninterp spec fn str_debug(s: Seq<char>) -> Seq<char>;

/// `<str as Debug>::fmt` through `format!`: the quoted, escaped form of `s`.
#[verifier::external_body]
fn debug_str(s: &str) -> (r: String)
    ensures
        r@ == str_debug(s@),
{
    format!("{:?}", s)
}

#[derive(Debug, Clone)]
pub struct StaticContentConfig {
    pub status_code: u16,
    pub content_type: Option<String>,
    pub body: Vec<u8>,
}

impl StaticContentConfig {
    pub open spec fn to_string_spec(&self) -> Seq<char> {
        "status_code: "@ + decimal_chars(self.status_code as nat) + ", content_type: "@
            + match self.content_type {
                Some(ct) => "Some("@ + str_debug(ct@) + ")"@,
                None => "None"@,
            } + ", body: "@ + decimal_chars(self.body@.len()) + "bytes"@
    }

    pub fn to_string(&self) -> (r: String)
        ensures
            r@ == self.to_string_spec(),
    {
        let mut r = String::from_str("status_code: ");
        push_decimal(&mut r, self.status_code as u64);
        r.append(", content_type: ");
        match &self.content_type {
            Some(ct) => {
                r.append("Some(");
                let d = debug_str(ct.as_str());
                r.append(d.as_str());
                r.append(")");
            },
            None => {
                r.append("None");
            },
        }
        r.append(", body: ");
        push_decimal(&mut r, self.body.len() as u64);
        r.append("bytes");
        r
    }
}

#[derive(Debug)]
pub struct ProxyPassFilesPathModel {
    pub files_path: MyReverseProxyRemoteEndpoint,
    pub default_file: Option<String>,
}

impl ProxyPassFilesPathModel {
    pub fn to_string(&self) -> (r: String)
        ensures
            r@ == self.files_path.to_string_spec(),
    {
        self.files_path.to_string()
    }
}

/// Per-location tuning of the upstream connection pool.
#[derive(Debug, Clone, Copy)]
pub struct PoolTuning {
    pub pool_size: u8,
    pub ping_timeout_ms: u64,
    pub hot_window_ms: u64,
}

pub const DEFAULT_POOL_SIZE: u8 = 5;
pub const DEFAULT_POOL_HOT_WINDOW_MS: u64 = 3_000;
pub const DEFAULT_POOL_PING_TIMEOUT_MS: u64 = 1_000;

impl PoolTuning {
    pub fn default_tuning() -> (r: Self)
        ensures
            r.pool_size == DEFAULT_POOL_SIZE,
            r.ping_timeout_ms == DEFAULT_POOL_PING_TIMEOUT_MS,
            r.hot_window_ms == DEFAULT_POOL_HOT_WINDOW_MS,
    {
        PoolTuning {
            pool_size: DEFAULT_POOL_SIZE,
            ping_timeout_ms: DEFAULT_POOL_PING_TIMEOUT_MS,
            hot_window_ms: DEFAULT_POOL_HOT_WINDOW_MS,
        }
    }
}

#[derive(Debug)]
pub struct ProxyPassToModel {
    pub remote_host: MyReverseProxyRemoteEndpoint,
    pub request_timeout_ms: u64,
    pub connect_timeout_ms: u64,
    pub pool_tuning: PoolTuning,
}

#[derive(Debug)]
pub struct DynamicProxyConfig {
    pub request_timeout_ms: u64,
    pub connect_timeout_ms: u64,
    pub allowed_hosts: Option<Vec<String>>,
}

#[derive(Debug)]
pub enum ProxyPassToConfig {
    Http1(ProxyPassToModel),
    Http2(ProxyPassToModel),
    McpHttp1(ProxyPassToModel),
    UnixHttp1(ProxyPassToModel),
    UnixHttp2(ProxyPassToModel),
    FilesPath(ProxyPassFilesPathModel),
    Static(Arc<StaticContentConfig>),
    Drop,
    DynamicProxy(Arc<DynamicProxyConfig>),
}

impl ProxyPassToConfig {
    pub open spec fn to_string_spec(&self) -> Seq<char> {
        match self {
            ProxyPassToConfig::Http1(m) | ProxyPassToConfig::McpHttp1(m) | ProxyPassToConfig::UnixHttp1(m)
            | ProxyPassToConfig::UnixHttp2(m) | ProxyPassToConfig::Http2(m) => m.remote_host.to_string_spec(),
            ProxyPassToConfig::FilesPath(m) => m.files_path.to_string_spec(),
            ProxyPassToConfig::Static(m) => m.to_string_spec(),
            ProxyPassToConfig::Drop => "drop"@,
            ProxyPassToConfig::DynamicProxy(_) => LOCATION_TYPE_DYNAMIC@,
        }
    }

    pub open spec fn type_spec(&self) -> Seq<char> {
        match self {
            ProxyPassToConfig::UnixHttp1(_) => "unix+http1"@,
            ProxyPassToConfig::UnixHttp2(_) => "unix+http2"@,
            ProxyPassToConfig::Http1(_) => "http1"@,
            ProxyPassToConfig::McpHttp1(_) => LOCATION_TYPE_MCP@,
            ProxyPassToConfig::Http2(_) => "http2"@,
            ProxyPassToConfig::FilesPath(_) => "files_path"@,
            ProxyPassToConfig::Static(_) => LOCATION_TYPE_STATIC@,
            ProxyPassToConfig::Drop => "drop"@,
            ProxyPassToConfig::DynamicProxy(_) => LOCATION_TYPE_DYNAMIC@,
        }
    }

    /// A description of where requests go, for logs and the admin UI.
    pub fn to_string(&self) -> (r: String)
        ensures
            r@ == self.to_string_spec(),
    {
        match self {
            ProxyPassToConfig::Http1(m) => m.remote_host.to_string(),
            ProxyPassToConfig::McpHttp1(m) => m.remote_host.to_string(),
            ProxyPassToConfig::UnixHttp1(m) => m.remote_host.to_string(),
            ProxyPassToConfig::UnixHttp2(m) => m.remote_host.to_string(),
            ProxyPassToConfig::Http2(m) => m.remote_host.to_string(),
            ProxyPassToConfig::FilesPath(m) => m.to_string(),
            ProxyPassToConfig::Static(m) => m.to_string(),
            ProxyPassToConfig::Drop => String::from_str("drop"),
            ProxyPassToConfig::DynamicProxy(_) => String::from_str(LOCATION_TYPE_DYNAMIC),
        }
    }

    pub fn get_type_as_str(&self) -> (r: &'static str)
        ensures
            r@ == self.type_spec(),
    {
        match self {
            ProxyPassToConfig::UnixHttp1(_) => "unix+http1",
            ProxyPassToConfig::UnixHttp2(_) => "unix+http2",
            ProxyPassToConfig::Http1(_) => "http1",
            ProxyPassToConfig::McpHttp1(_) => LOCATION_TYPE_MCP,
            ProxyPassToConfig::Http2(_) => "http2",
            ProxyPassToConfig::FilesPath(_) => "files_path",
            ProxyPassToConfig::Static(_) => LOCATION_TYPE_STATIC,
            ProxyPassToConfig::Drop => "drop",
            ProxyPassToConfig::DynamicProxy(_) => LOCATION_TYPE_DYNAMIC,
        }
    }

    pub fn is_drop(&self) -> (r: bool)
        ensures
            r == (*self is Drop),
    {
        match self {
            ProxyPassToConfig::Drop => true,
            _ => false,
        }
    }

    /// The transport kind of the upstream (`direct` / `ssh` / `gateway`) for
    /// locations that reach a remote; `None` for static, drop and dynamic.
    pub fn remote_endpoint_kind(&self) -> (r: Option<&'static str>)
        ensures
            match self {
                ProxyPassToConfig::Http1(m) | ProxyPassToConfig::McpHttp1(m) | ProxyPassToConfig::Http2(m)
                | ProxyPassToConfig::UnixHttp1(m) | ProxyPassToConfig::UnixHttp2(m) =>
                    r is Some && r->0@ == m.remote_host.kind_spec(),
                ProxyPassToConfig::FilesPath(m) => r is Some && r->0@ == m.files_path.kind_spec(),
                _ => r is None,
            },
    {
        match self {
            ProxyPassToConfig::Http1(m) => Some(m.remote_host.kind_as_str()),
            ProxyPassToConfig::McpHttp1(m) => Some(m.remote_host.kind_as_str()),
            ProxyPassToConfig::Http2(m) => Some(m.remote_host.kind_as_str()),
            ProxyPassToConfig::UnixHttp1(m) => Some(m.remote_host.kind_as_str()),
            ProxyPassToConfig::UnixHttp2(m) => Some(m.remote_host.kind_as_str()),
            ProxyPassToConfig::FilesPath(m) => Some(m.files_path.kind_as_str()),
            _ => None,
        }
    }
}

/// The path an mcp location rewrites requests onto (its upstream's path and
/// query); `None` for every other location.
pub fn mcp_path(proxy_pass_to: &ProxyPassToConfig) -> (r: Option<&str>)
    ensures
        match proxy_pass_to {
            ProxyPassToConfig::McpHttp1(m) => r is Some && r->0@ == m.remote_host.remote_host_spec().path_and_query@,
            _ => r is None,
        },
{
    match proxy_pass_to {
        ProxyPassToConfig::McpHttp1(model) => Some(model.remote_host.get_path_and_query()),
        _ => None,
    }
}

/// `Debug` of an optional scheme, as it appears in pool keys.
pub open spec fn scheme_debug(s: Option<Scheme>) -> Seq<char> {
    match s {
        None => "None"@,
        Some(Scheme::Http) => "Some(Http)"@,
        Some(Scheme::Https) => "Some(Https)"@,
        Some(Scheme::Ws) => "Some(Ws)"@,
        Some(Scheme::Wss) => "Some(Wss)"@,
        Some(Scheme::UnixSocket) => "Some(UnixSocket)"@,
    }
}

fn scheme_debug_str(s: Option<Scheme>) -> (r: &'static str)
    ensures
        r@ == scheme_debug(s),
{
    match s {
        None => "None",
        Some(Scheme::Http) => "Some(Http)",
        Some(Scheme::Https) => "Some(Https)",
        Some(Scheme::Ws) => "Some(Ws)",
        Some(Scheme::Wss) => "Some(Wss)",
        Some(Scheme::UnixSocket) => "Some(UnixSocket)",
    }
}

pub open spec fn remote_host_key_spec(protocol: Seq<char>, model: ProxyPassToModel) -> Seq<char> {
    match model.remote_host {
        MyReverseProxyRemoteEndpoint::Direct { remote_host } =>
            protocol + "|"@ + scheme_debug(remote_host.scheme) + "|"@ + remote_host.host_port@,
        MyReverseProxyRemoteEndpoint::OverSsh { ssh_credentials, remote_host } =>
            protocol + "|ssh:"@ + ssh_credentials.id_spec() + "|"@ + remote_host.host_port@,
        MyReverseProxyRemoteEndpoint::Gateway { id, remote_host } =>
            protocol + "|gw:"@ + id@ + "|"@ + remote_host.host_port@,
    }
}

/// Pool key of a network upstream: protocol, transport and `host:port`.
pub fn remote_host_key(protocol: &str, model: &ProxyPassToModel) -> (r: String)
    ensures
        r@ == remote_host_key_spec(protocol@, *model),
{
    let mut r = String::from_str(protocol);
    match &model.remote_host {
        MyReverseProxyRemoteEndpoint::Direct { remote_host } => {
            r.append("|");
            r.append(scheme_debug_str(remote_host.scheme));
            r.append("|");
            r.append(remote_host.host_port.as_str());
        },
        MyReverseProxyRemoteEndpoint::OverSsh { ssh_credentials, remote_host } => {
            r.append("|ssh:");
            let id = ssh_credentials.to_string();
            r.append(id.as_str());
            r.append("|");
            r.append(remote_host.host_port.as_str());
        },
        MyReverseProxyRemoteEndpoint::Gateway { id, remote_host } => {
            r.append("|gw:");
            r.append(id.as_str());
            r.append("|");
            r.append(remote_host.host_port.as_str());
        },
    }
    r
}

pub open spec fn connection_key_spec(p: ProxyPassToConfig) -> Seq<char> {
    match p {
        ProxyPassToConfig::Http1(m) | ProxyPassToConfig::McpHttp1(m) => remote_host_key_spec("h1"@, m),
        ProxyPassToConfig::Http2(m) => remote_host_key_spec("h2"@, m),
        ProxyPassToConfig::UnixHttp1(m) => remote_host_key_spec("uds-h1"@, m),
        ProxyPassToConfig::UnixHttp2(m) => remote_host_key_spec("uds-h2"@, m),
        other => other.to_string_spec(),
    }
}

/// Identity of an upstream connection: two locations with the same key share
/// the upstream connection slot.
pub fn connection_key(proxy_pass_to: &ProxyPassToConfig) -> (r: String)
    ensures
        r@ == connection_key_spec(*proxy_pass_to),
{
    match proxy_pass_to {
        ProxyPassToConfig::Http1(model) => remote_host_key("h1", model),
        ProxyPassToConfig::McpHttp1(model) => remote_host_key("h1", model),
        ProxyPassToConfig::Http2(model) => remote_host_key("h2", model),
        ProxyPassToConfig::UnixHttp1(model) => remote_host_key("uds-h1", model),
        ProxyPassToConfig::UnixHttp2(model) => remote_host_key("uds-h2", model),
        other => other.to_string(),
    }
}

/// An mcp location and a plain http/1 location to the same upstream share a
/// pool key; this is why an mcp client keeps its connection apart from the
/// pool.
pub proof fn lemma_mcp_and_http1_share_a_key(m: ProxyPassToModel)
    ensures
        connection_key_spec(ProxyPassToConfig::McpHttp1(m)) == connection_key_spec(ProxyPassToConfig::Http1(m)),
{
}

} // verus!
