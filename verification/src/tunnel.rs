//! How an upstream is dialled and how responses and upgraded connections are
//! relayed: the transport a location's upstream runs over, what the
//! response relay does after each stage, and what a websocket tunnel does
//! after each stage of its handshake.
use vstd::prelude::*;
use crate::proxy_pass::{MyReverseProxyRemoteEndpoint, ProxyPassToConfig, Scheme};

verus! {

/// The transport of one upstream connection.
#[derive(Clone, Copy, Debug, PartialEq, Eq)]
pub enum UpstreamKind {
    Http1Direct,
    Http1UnixSocket,
    Https1Direct,
    Http1OverSsh,
    Http1OverGateway,
}

/// Whether a scheme asks for TLS.
pub open spec fn scheme_is_https(s: Scheme) -> bool {
    s == Scheme::Https || s == Scheme::Wss
}

/// The upstreams that can be dialled: http/1 and mcp locations over any
/// route, and unix-socket http/1 locations reached directly.
pub open spec fn is_dialable(p: ProxyPassToConfig) -> bool {
    match p {
        ProxyPassToConfig::Http1(_) | ProxyPassToConfig::McpHttp1(_) => true,
        ProxyPassToConfig::UnixHttp1(m) => m.remote_host is Direct,
        _ => false,
    }
}

pub open spec fn transport_spec(p: ProxyPassToConfig) -> UpstreamKind {
    match p {
        ProxyPassToConfig::Http1(m) | ProxyPassToConfig::McpHttp1(m) => match m.remote_host {
            MyReverseProxyRemoteEndpoint::Gateway { .. } => UpstreamKind::Http1OverGateway,
            MyReverseProxyRemoteEndpoint::OverSsh { .. } => UpstreamKind::Http1OverSsh,
            MyReverseProxyRemoteEndpoint::Direct { remote_host } => match remote_host.scheme {
                Some(s) => if scheme_is_https(s) { UpstreamKind::Https1Direct } else { UpstreamKind::Http1Direct },
                None => UpstreamKind::Http1Direct,
            },
        },
        _ => UpstreamKind::Http1UnixSocket,
    }
}

/// The transport used to dial a location's upstream: through the gateway
/// or the ssh tunnel it names, over TLS for an https (or wss) target, over
/// plain TCP otherwise, and over the socket for a unix-socket location.
/// Other locations never reach an upstream connection (static content,
/// files, drop and dynamic are answered before), and unix sockets are only
/// reached directly.
pub fn upstream_transport(proxy_pass_to: &ProxyPassToConfig) -> (r: UpstreamKind)
    requires
        is_dialable(*proxy_pass_to),
    ensures
        r == transport_spec(*proxy_pass_to),
{
    match proxy_pass_to {
        ProxyPassToConfig::Http1(m) | ProxyPassToConfig::McpHttp1(m) => match &m.remote_host {
            MyReverseProxyRemoteEndpoint::Gateway { .. } => UpstreamKind::Http1OverGateway,
            MyReverseProxyRemoteEndpoint::OverSsh { .. } => UpstreamKind::Http1OverSsh,
            MyReverseProxyRemoteEndpoint::Direct { remote_host } => match remote_host.scheme {
                Some(Scheme::Https) | Some(Scheme::Wss) => UpstreamKind::Https1Direct,
                _ => UpstreamKind::Http1Direct,
            },
        },
        _ => UpstreamKind::Http1UnixSocket,
    }
}

/// A direct upstream is dialled over TLS exactly when its scheme is https
/// or wss; http, ws, a unix-socket scheme and a missing scheme are dialled
/// over plain TCP.  This
/// holds for http/1 and mcp locations alike.
pub proof fn lemma_tls_only_for_https_and_wss(p: ProxyPassToConfig)
    requires
        p is Http1 || p is McpHttp1,
        (match p {
            ProxyPassToConfig::Http1(m) | ProxyPassToConfig::McpHttp1(m) => m.remote_host is Direct,
            _ => false,
        }),
    ensures
        ({
            let scheme = match p {
                ProxyPassToConfig::Http1(m) | ProxyPassToConfig::McpHttp1(m) => match m.remote_host {
                    MyReverseProxyRemoteEndpoint::Direct { remote_host } => remote_host.scheme,
                    _ => None,
                },
                _ => None,
            };
            &&& (transport_spec(p) == UpstreamKind::Https1Direct)
                <==> (scheme == Some(Scheme::Https) || scheme == Some(Scheme::Wss))
            &&& (transport_spec(p) == UpstreamKind::Http1Direct)
                <==> (scheme is None || scheme == Some(Scheme::Http) || scheme == Some(Scheme::Ws)
                    || scheme == Some(Scheme::UnixSocket))
        }),
{
}

/// How far relaying one response from a shared upstream connection got.
#[derive(Clone, Copy, Debug, PartialEq, Eq)]
pub enum ReadLoopStage {
    HeadersNotRead,
    HeadersInvalid,
    HeadersNotRelayed,
    BodyNotRelayed,
    /// The whole response reached the client.
    Relayed { web_socket_upgrade: bool },
}

#[derive(Clone, Copy, Debug, PartialEq, Eq)]
pub enum ReadLoopAction {
    /// Mark the upstream disconnected, send the client the "error getting
    /// content from the remote resource" page, end the request and stop.
    FailAndStop,
    /// Wait for the next response on this connection.
    NextResponse,
    /// Hand both connections over to the tunnel.
    Upgrade,
}

/// What the response relay does after a stage: every failure ends the
/// connection with the bad-gateway page; a relayed response either waits
/// for the next one or becomes a tunnel.
pub fn read_loop_step(stage: ReadLoopStage) -> (r: ReadLoopAction)
    ensures
        r == match stage {
            ReadLoopStage::Relayed { web_socket_upgrade } =>
                if web_socket_upgrade { ReadLoopAction::Upgrade } else { ReadLoopAction::NextResponse },
            _ => ReadLoopAction::FailAndStop,
        },
{
    match stage {
        ReadLoopStage::Relayed { web_socket_upgrade } => {
            if web_socket_upgrade { ReadLoopAction::Upgrade } else { ReadLoopAction::NextResponse }
        },
        _ => ReadLoopAction::FailAndStop,
    }
}

/// What serves a location whose response upgraded the connection.
#[derive(Clone, Copy, Debug, PartialEq, Eq)]
pub enum UpgradeSource {
    Network(UpstreamKind),
    StaticContent,
    LocalFiles,
}

/// How an upgraded connection is carried on.
#[derive(Clone, Copy, Debug, PartialEq, Eq)]
pub enum UpgradePlan {
    /// Spawn the two pumps under these task names.
    Pump { client_to_server: &'static str, server_to_client: &'static str },
    /// Answer with the "endpoint can not be upgraded to web socket" page and
    /// shut the client socket.
    Refuse,
}

pub open spec fn upgrade_plan_spec(source: UpgradeSource) -> UpgradePlan {
    match source {
        UpgradeSource::Network(UpstreamKind::Http1Direct) => UpgradePlan::Pump {
            client_to_server: "h1_ws_pump_client_to_server_http1direct",
            server_to_client: "h1_ws_pump_server_to_client_http1direct",
        },
        UpgradeSource::Network(UpstreamKind::Http1UnixSocket) => UpgradePlan::Pump {
            client_to_server: "h1_ws_pump_client_to_server_http1unix",
            server_to_client: "h1_ws_pump_server_to_client_http1unix",
        },
        UpgradeSource::Network(UpstreamKind::Https1Direct) => UpgradePlan::Pump {
            client_to_server: "h1_ws_pump_client_to_server_https",
            server_to_client: "h1_ws_pump_server_to_client_https",
        },
        UpgradeSource::Network(UpstreamKind::Http1OverSsh) => UpgradePlan::Pump {
            client_to_server: "h1_ws_pump_client_to_server_ssh",
            server_to_client: "h1_ws_pump_server_to_client_ssh",
        },
        UpgradeSource::Network(UpstreamKind::Http1OverGateway) => UpgradePlan::Pump {
            client_to_server: "h1_ws_pump_client_to_server_gateway",
            server_to_client: "h1_ws_pump_server_to_client_gateway",
        },
        _ => UpgradePlan::Refuse,
    }
}

/// Network upstreams are pumped both ways, each transport under its own
/// task names; content the proxy serves itself cannot be upgraded.
pub fn upgrade_plan(source: UpgradeSource) -> (r: UpgradePlan)
    ensures
        r == upgrade_plan_spec(source),
{
    match source {
        UpgradeSource::Network(UpstreamKind::Http1Direct) => UpgradePlan::Pump {
            client_to_server: "h1_ws_pump_client_to_server_http1direct",
            server_to_client: "h1_ws_pump_server_to_client_http1direct",
        },
        UpgradeSource::Network(UpstreamKind::Http1UnixSocket) => UpgradePlan::Pump {
            client_to_server: "h1_ws_pump_client_to_server_http1unix",
            server_to_client: "h1_ws_pump_server_to_client_http1unix",
        },
        UpgradeSource::Network(UpstreamKind::Https1Direct) => UpgradePlan::Pump {
            client_to_server: "h1_ws_pump_client_to_server_https",
            server_to_client: "h1_ws_pump_server_to_client_https",
        },
        UpgradeSource::Network(UpstreamKind::Http1OverSsh) => UpgradePlan::Pump {
            client_to_server: "h1_ws_pump_client_to_server_ssh",
            server_to_client: "h1_ws_pump_server_to_client_ssh",
        },
        UpgradeSource::Network(UpstreamKind::Http1OverGateway) => UpgradePlan::Pump {
            client_to_server: "h1_ws_pump_client_to_server_gateway",
            server_to_client: "h1_ws_pump_server_to_client_gateway",
        },
        UpgradeSource::StaticContent | UpgradeSource::LocalFiles => UpgradePlan::Refuse,
    }
}

/// How far the handshake of a websocket tunnel got.
#[derive(Clone, Copy, Debug, PartialEq, Eq)]
pub enum TunnelStage {
    ConnectFailed,
    HeadNotSent,
    ResponseHeadNotRead,
    ResponseHeadInvalid,
    ResponseHeadNotRelayed,
    /// The upstream's answer reached the client.
    ResponseHeadRelayed { upgraded: bool },
}

#[derive(Clone, Copy, Debug, PartialEq, Eq)]
pub enum TunnelAction {
    /// Shut the client socket; there is no tunnel.
    ShutdownClient,
    /// The upgrade was refused: relay the response body, then close.
    RelayBodyThenClose,
    /// Spawn the pumps in both directions.
    StartPumps,
}

/// What a tunnel does after a stage of its handshake: any failure shuts the
/// client; a refused upgrade is an ordinary response whose body is relayed
/// before closing, so the client gets it whole; an accepted one is pumped.
pub fn tunnel_step(stage: TunnelStage) -> (r: TunnelAction)
    ensures
        r == match stage {
            TunnelStage::ResponseHeadRelayed { upgraded } =>
                if upgraded { TunnelAction::StartPumps } else { TunnelAction::RelayBodyThenClose },
            _ => TunnelAction::ShutdownClient,
        },
{
    match stage {
        TunnelStage::ResponseHeadRelayed { upgraded } => {
            if upgraded { TunnelAction::StartPumps } else { TunnelAction::RelayBodyThenClose }
        },
        _ => TunnelAction::ShutdownClient,
    }
}

/// The read timeout (30 minutes) a request's worker reads an mcp upstream
/// with: a generous safety net, since an mcp listening stream legitimately
/// idles between server-initiated messages.
pub const WORKER_MCP_READ_TIMEOUT_MS: u64 = 1_800_000;

/// The read timeout a request's worker reads its upstream with: an mcp
/// stream idles between server messages far longer than an ordinary body,
/// so it gets [`WORKER_MCP_READ_TIMEOUT_MS`] instead of the endpoint's.
pub fn worker_read_timeout_ms(is_mcp: bool, endpoint_read_timeout_ms: u64) -> (r: u64)
    ensures
        r == (if is_mcp { WORKER_MCP_READ_TIMEOUT_MS } else { endpoint_read_timeout_ms }),
{
    if is_mcp { WORKER_MCP_READ_TIMEOUT_MS } else { endpoint_read_timeout_ms }
}

/// Whether an mcp request may use the connection its client kept: only on
/// the first attempt; a retry exists because the kept one was no good.
pub fn mcp_may_reuse_kept(attempt: u32) -> (r: bool)
    ensures
        r == (attempt == 1),
{
    attempt == 1
}

} // verus!
