use std::sync::Arc;

use my_reverse_proxy::conn_pool::{H1PoolHolder, McpUpstream, PooledConnection};
use my_reverse_proxy::proxy_pass::{
    MyReverseProxyRemoteEndpoint, PoolTuning, ProxyPassToConfig, ProxyPassToModel, RemoteEndpoint, Scheme, SshCredentials,
};
use my_reverse_proxy::tunnel::{
    mcp_may_reuse_kept, read_loop_step, tunnel_step, upgrade_plan, upstream_transport, worker_read_timeout_ms,
    ReadLoopAction, ReadLoopStage, TunnelAction, TunnelStage, UpgradePlan, UpgradeSource, UpstreamKind,
};

fn tunnel_remote(scheme: Option<Scheme>, host_port: &str) -> Arc<RemoteEndpoint> {
    Arc::new(RemoteEndpoint {
        src: host_port.to_string(),
        scheme,
        host: host_port.split(':').next().unwrap().to_string(),
        port: None,
        host_port: host_port.to_string(),
        path_and_query: "/".to_string(),
    })
}

fn tunnel_model(remote_host: MyReverseProxyRemoteEndpoint) -> ProxyPassToModel {
    ProxyPassToModel { remote_host, request_timeout_ms: 1, connect_timeout_ms: 1, pool_tuning: PoolTuning::default_tuning() }
}

#[test]
fn each_upstream_is_dialled_over_its_transport() {
    let direct = |s| ProxyPassToConfig::Http1(tunnel_model(MyReverseProxyRemoteEndpoint::Direct { remote_host: tunnel_remote(s, "a:1") }));
    assert_eq!(upstream_transport(&direct(Some(Scheme::Http))), UpstreamKind::Http1Direct);
    assert_eq!(upstream_transport(&direct(Some(Scheme::Https))), UpstreamKind::Https1Direct);
    assert_eq!(upstream_transport(&direct(Some(Scheme::Wss))), UpstreamKind::Https1Direct);
    assert_eq!(upstream_transport(&direct(None)), UpstreamKind::Http1Direct);
    let ssh = ProxyPassToConfig::McpHttp1(tunnel_model(MyReverseProxyRemoteEndpoint::OverSsh {
        ssh_credentials: Arc::new(SshCredentials {
            ssh_user_name: "u".to_string(),
            ssh_remote_host: "h".to_string(),
            ssh_remote_port: 22,
        }),
        remote_host: tunnel_remote(None, "b:2"),
    }));
    assert_eq!(upstream_transport(&ssh), UpstreamKind::Http1OverSsh);
    let gw = ProxyPassToConfig::Http1(tunnel_model(MyReverseProxyRemoteEndpoint::Gateway {
        id: Arc::new("gw1".to_string()),
        remote_host: tunnel_remote(None, "c:3"),
    }));
    assert_eq!(upstream_transport(&gw), UpstreamKind::Http1OverGateway);
    let unix = ProxyPassToConfig::UnixHttp1(tunnel_model(MyReverseProxyRemoteEndpoint::Direct {
        remote_host: tunnel_remote(Some(Scheme::UnixSocket), "/tmp/s.sock"),
    }));
    assert_eq!(upstream_transport(&unix), UpstreamKind::Http1UnixSocket);
}

#[test]
fn the_response_relay_stops_on_any_failure() {
    for stage in [
        ReadLoopStage::HeadersNotRead,
        ReadLoopStage::HeadersInvalid,
        ReadLoopStage::HeadersNotRelayed,
        ReadLoopStage::BodyNotRelayed,
    ] {
        assert_eq!(read_loop_step(stage), ReadLoopAction::FailAndStop);
    }
    assert_eq!(read_loop_step(ReadLoopStage::Relayed { web_socket_upgrade: false }), ReadLoopAction::NextResponse);
    assert_eq!(read_loop_step(ReadLoopStage::Relayed { web_socket_upgrade: true }), ReadLoopAction::Upgrade);
}

#[test]
fn upgrades_pump_network_upstreams_and_refuse_local_content() {
    assert_eq!(
        upgrade_plan(UpgradeSource::Network(UpstreamKind::Http1OverSsh)),
        UpgradePlan::Pump {
            client_to_server: "h1_ws_pump_client_to_server_ssh",
            server_to_client: "h1_ws_pump_server_to_client_ssh",
        }
    );
    assert_eq!(
        upgrade_plan(UpgradeSource::Network(UpstreamKind::Http1Direct)),
        UpgradePlan::Pump {
            client_to_server: "h1_ws_pump_client_to_server_http1direct",
            server_to_client: "h1_ws_pump_server_to_client_http1direct",
        }
    );
    assert_eq!(upgrade_plan(UpgradeSource::StaticContent), UpgradePlan::Refuse);
    assert_eq!(upgrade_plan(UpgradeSource::LocalFiles), UpgradePlan::Refuse);
}

#[test]
fn a_tunnel_pumps_only_an_accepted_upgrade() {
    assert_eq!(tunnel_step(TunnelStage::ConnectFailed), TunnelAction::ShutdownClient);
    assert_eq!(tunnel_step(TunnelStage::ResponseHeadNotRelayed), TunnelAction::ShutdownClient);
    assert_eq!(tunnel_step(TunnelStage::ResponseHeadRelayed { upgraded: false }), TunnelAction::RelayBodyThenClose);
    assert_eq!(tunnel_step(TunnelStage::ResponseHeadRelayed { upgraded: true }), TunnelAction::StartPumps);
}

#[test]
fn mcp_reads_with_its_own_timeout_and_reuses_only_first() {
    assert_eq!(worker_read_timeout_ms(true, 5_000), 1_800_000);
    assert_eq!(worker_read_timeout_ms(false, 5_000), 5_000);
    assert!(mcp_may_reuse_kept(1));
    assert!(!mcp_may_reuse_kept(2));
}

#[derive(Debug, PartialEq)]
struct Conn {
    id: u32,
    dead: bool,
}

impl PooledConnection for Conn {
    fn is_disconnected(&self) -> bool {
        self.dead
    }
}

fn upstream() -> ProxyPassToConfig {
    ProxyPassToConfig::Http1(tunnel_model(MyReverseProxyRemoteEndpoint::Direct { remote_host: tunnel_remote(Some(Scheme::Http), "a:1") }))
}

#[test]
fn the_pool_hands_out_the_newest_live_connection() {
    let mut pool = H1PoolHolder::new_global(3);
    let p = upstream();
    assert!(pool.acquire_idle(&p).is_none());
    pool.release(&p, Conn { id: 1, dead: false });
    pool.release(&p, Conn { id: 2, dead: false });
    pool.release(&p, Conn { id: 3, dead: true });
    assert_eq!(pool.acquire_idle(&p), Some(Conn { id: 2, dead: false }));
    assert_eq!(pool.acquire_idle(&p), Some(Conn { id: 1, dead: false }));
    assert_eq!(pool.acquire_idle(&p), None);
}

#[test]
fn a_local_pool_keeps_one_idle_connection() {
    let mut pool = H1PoolHolder::new_local();
    let p = upstream();
    pool.release(&p, Conn { id: 1, dead: false });
    pool.release(&p, Conn { id: 2, dead: false });
    assert_eq!(pool.acquire_idle(&p), Some(Conn { id: 1, dead: false }));
    assert_eq!(pool.acquire_idle(&p), None);
    let mut zero = H1PoolHolder::new_global(0);
    zero.release(&p, Conn { id: 5, dead: false });
    assert_eq!(zero.acquire_idle(&p), Some(Conn { id: 5, dead: false }));
}

#[test]
fn dead_idle_connections_are_skipped() {
    let mut pool = H1PoolHolder::new_global(4);
    let p = upstream();
    pool.release(&p, Conn { id: 1, dead: false });
    // becomes dead while parked: simulate by releasing a live one then a dead one on top
    pool.release(&p, Conn { id: 2, dead: false });
    assert_eq!(pool.acquire_idle(&p).map(|c| c.id), Some(2));
}

#[test]
fn an_mcp_slot_keeps_one_connection_until_it_idles_out() {
    let mut slot = McpUpstream::new();
    assert!(slot.take(0).is_none());
    assert!(slot.put(Conn { id: 1, dead: false }, 1_000));
    assert_eq!(slot.take(2_000), Some(Conn { id: 1, dead: false }));
    assert!(slot.take(2_000).is_none());
    assert!(!slot.put(Conn { id: 2, dead: false }, 0));
    assert!(slot.take(300_000_000).is_none());
    assert!(!slot.put(Conn { id: 3, dead: true }, 0));
    assert!(slot.take(1).is_none());
}

#[test]
fn the_registry_sweep_evicts_only_expired_connections() {
    let mut slot = McpUpstream::new();
    slot.put(Conn { id: 1, dead: false }, 0);
    assert!(slot.evict_if_idle(299_999_999).is_none());
    assert_eq!(slot.evict_if_idle(300_000_000), Some(Conn { id: 1, dead: false }));
    assert!(slot.evict_if_idle(400_000_000).is_none());
}

#[test]
fn release_with_state_drops_what_reported_disconnected() {
    let mut pool = H1PoolHolder::new_global(2);
    let p = upstream();
    pool.release_with_state(&p, Conn { id: 1, dead: false }, true);
    assert_eq!(pool.acquire_idle(&p), None);
    pool.release_with_state(&p, Conn { id: 2, dead: false }, false);
    pool.release_with_state(&p, Conn { id: 3, dead: false }, false);
    pool.release_with_state(&p, Conn { id: 4, dead: false }, false);
    assert_eq!(pool.acquire_idle(&p).map(|c| c.id), Some(3));
    assert_eq!(pool.acquire_idle(&p).map(|c| c.id), Some(2));
    assert_eq!(pool.acquire_idle(&p), None);
}

#[test]
fn put_with_state_registers_on_the_first_live_connection() {
    let mut slot = McpUpstream::new();
    assert!(!slot.put_with_state(Conn { id: 1, dead: false }, 0, true));
    assert!(slot.take(1).is_none());
    assert!(slot.put_with_state(Conn { id: 2, dead: false }, 0, false));
    assert!(!slot.put_with_state(Conn { id: 3, dead: false }, 5, false));
    assert_eq!(slot.take(6), Some(Conn { id: 3, dead: false }));
}

#[test]
fn acquire_idle_with_states_hands_out_the_first_live_one() {
    let mut pool = H1PoolHolder::new_global(4);
    let p = upstream();
    for id in 1..=4 {
        pool.release_with_state(&p, Conn { id, dead: false }, false);
    }
    // most recent first: 4 and 3 are disconnected, 2 is live
    assert_eq!(pool.acquire_idle_with_states(&p, &vec![true, true, false, true]).map(|c| c.id), Some(2));
    // only 1 is left idle
    assert_eq!(pool.acquire_idle_with_states(&p, &vec![false]).map(|c| c.id), Some(1));
    assert!(pool.acquire_idle_with_states(&p, &vec![]).is_none());
    pool.release_with_state(&p, Conn { id: 9, dead: false }, false);
    assert!(pool.acquire_idle_with_states(&p, &vec![true]).is_none());
    assert!(pool.acquire_idle(&p).is_none());
}

#[test]
fn take_with_state_returns_only_a_live_unexpired_connection() {
    let mut slot = McpUpstream::new();
    slot.put_with_state(Conn { id: 1, dead: false }, 0, false);
    assert!(slot.take_with_state(10, true).is_none());
    assert!(slot.take_with_state(10, false).is_none());
    slot.put_with_state(Conn { id: 2, dead: false }, 0, false);
    assert!(slot.take_with_state(300_000_000, false).is_none());
    slot.put_with_state(Conn { id: 3, dead: false }, 0, false);
    assert_eq!(slot.take_with_state(299_999_999, false), Some(Conn { id: 3, dead: false }));
}
