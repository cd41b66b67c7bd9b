//! The live listener configuration: what listens on each TCP port and unix
//! socket, and the hosts whose configuration failed to load.  Loading
//! builds fresh tables host by host and swaps them in whole; reloading one
//! listener replaces just its entry.
use vstd::prelude::*;
use std::sync::Arc;
use crate::assoc::AssocList;
use crate::endpoint::{HttpEndpointInfo, HttpListenPortConfiguration};
use crate::host_str::{EndpointHttpHostString, EndpointPort};
use crate::text::{decimal_chars, push_decimal};

verus! {

/// What one listener serves.
#[derive(Debug)]
pub enum ListenConfiguration {
    /// HTTP endpoints, routed by server name.
    Http(Arc<HttpListenPortConfiguration>),
    /// Raw TCP forwarding, whose details the routing does not read.
    Tcp,
}

impl ListenConfiguration {
    pub open spec fn wf(&self) -> bool {
        match self {
            ListenConfiguration::Http(c) => c.wf(),
            ListenConfiguration::Tcp => true,
        }
    }

    /// A second handle on the same configuration.
    pub fn duplicate(&self) -> (r: Self)
        ensures
            r == *self,
    {
        match self {
            ListenConfiguration::Http(c) => ListenConfiguration::Http(c.clone()),
            ListenConfiguration::Tcp => ListenConfiguration::Tcp,
        }
    }
}

/// The listener tables.
pub struct AppConfigurationInner {
    pub listen_tcp_endpoints: AssocList<u16, ListenConfiguration>,
    pub listen_unix_socket_endpoints: AssocList<String, ListenConfiguration>,
    /// Host string → why its configuration could not be loaded.
    pub error_configurations: AssocList<String, String>,
}

pub open spec fn table_wf<K>(t: Map<K, ListenConfiguration>) -> bool {
    forall|k: K| #[trigger] t.contains_key(k) ==> t[k].wf()
}

/// The position of the endpoint with host string `host` (host strings are
/// distinct within a listener).
pub open spec fn endpoint_index(eps: Seq<Arc<HttpEndpointInfo>>, host: Seq<char>) -> Option<int> {
    if exists|i: int| 0 <= i < eps.len() && (#[trigger] eps[i]).host_endpoint.source() == host {
        Some(choose|i: int| 0 <= i < eps.len() && (#[trigger] eps[i]).host_endpoint.source() == host)
    } else {
        None
    }
}

/// `t2` is table `t` after the endpoint `host` failed on listener `key`: the
/// endpoint is taken off that HTTP listener, and a listener left without
/// endpoints is dropped; any other table is left alone.
pub open spec fn without_failed_endpoint<K>(t: Map<K, ListenConfiguration>, key: K, host: Seq<char>, t2: Map<K, ListenConfiguration>) -> bool {
    if t.contains_key(key) && t[key] is Http && endpoint_index(t[key]->Http_0.endpoints@, host) is Some {
        let eps = t[key]->Http_0.endpoints@;
        let i = endpoint_index(eps, host)->0;
        if eps.len() == 1 {
            t2 == t.remove(key)
        } else {
            &&& t2.dom() == t.dom()
            &&& forall|k: K| k != key && #[trigger] t.contains_key(k) ==> t2[k] == t[k]
            &&& t2[key] matches ListenConfiguration::Http(c) && c.endpoints@ == eps.remove(i)
        }
    } else {
        t2 == t
    }
}

proof fn lemma_endpoint_index_unique(eps: Seq<Arc<HttpEndpointInfo>>, host: Seq<char>, i: int)
    requires
        crate::endpoint::hosts_distinct(eps),
        0 <= i < eps.len(),
        eps[i].host_endpoint.source() == host,
    ensures
        endpoint_index(eps, host) == Some(i),
{
    let k = choose|k: int| 0 <= k < eps.len() && (#[trigger] eps[k]).host_endpoint.source() == host;
    assert(0 <= k < eps.len() && eps[k].host_endpoint.source() == host);
    if k < i { assert(eps[k].host_endpoint.source() != eps[i].host_endpoint.source()); }
    if i < k { assert(eps[i].host_endpoint.source() != eps[k].host_endpoint.source()); }
}

/// The tables a full load builds from the compiled hosts, in order: a host
/// that compiled becomes what its listener serves (a later host on the same
/// listener replaces it), a host that failed keeps its error.
pub open spec fn loaded_tables(hosts: Seq<(EndpointHttpHostString, Result<ListenConfiguration, String>)>)
    -> (Map<u16, ListenConfiguration>, Map<Seq<char>, ListenConfiguration>, Map<Seq<char>, String>)
    decreases hosts.len(),
{
    if hosts.len() == 0 {
        (Map::empty(), Map::empty(), Map::empty())
    } else {
        let prev = loaded_tables(hosts.drop_last());
        let host = hosts.last().0;
        match hosts.last().1 {
            Ok(c) => match host.port_spec() {
                Some(p) => (prev.0.insert(p, c), prev.1, prev.2),
                None => (prev.0, prev.1.insert(host.source(), c), prev.2),
            },
            Err(e) => (prev.0, prev.1, prev.2.insert(host.source(), e)),
        }
    }
}

pub open spec fn compiled_hosts_wf(hosts: Seq<(EndpointHttpHostString, Result<ListenConfiguration, String>)>) -> bool {
    forall|i: int| 0 <= i < hosts.len() ==> (#[trigger] hosts[i]).0.wf() && (hosts[i].1 matches Ok(c) ==> c.wf())
}

impl AppConfigurationInner {
    pub open spec fn tcp(&self) -> Map<u16, ListenConfiguration> {
        self.listen_tcp_endpoints.map()
    }

    pub open spec fn unix(&self) -> Map<Seq<char>, ListenConfiguration> {
        self.listen_unix_socket_endpoints.map()
    }

    pub open spec fn errors(&self) -> Map<Seq<char>, String> {
        self.error_configurations.map()
    }

    /// The tables are well formed and so is every HTTP listener in them.
    pub open spec fn wf(&self) -> bool {
        &&& self.listen_tcp_endpoints.wf()
        &&& self.listen_unix_socket_endpoints.wf()
        &&& self.error_configurations.wf()
        &&& table_wf(self.tcp())
        &&& table_wf(self.unix())
    }

    pub fn new() -> (r: Self)
        ensures
            r.wf(),
            r.tcp().dom().is_empty(),
            r.unix().dom().is_empty(),
            r.errors().dom().is_empty(),
    {
        AppConfigurationInner {
            listen_tcp_endpoints: AssocList::new(),
            listen_unix_socket_endpoints: AssocList::new(),
            error_configurations: AssocList::new(),
        }
    }

    fn drop_failed_endpoint<K: crate::assoc::KeyEq>(
        table: &mut AssocList<K, ListenConfiguration>,
        key: &K,
        host_id: &EndpointHttpHostString,
    )
        requires
            old(table).wf(),
            table_wf(old(table).map()),
        ensures
            final(table).wf(),
            table_wf(final(table).map()),
            without_failed_endpoint(old(table).map(), key@, host_id.source(), final(table).map()),
    {
        let ghost t = table.map();
        let remaining = match table.get(key) {
            Some(ListenConfiguration::Http(cfg)) => {
                proof { assert(t.contains_key(key@)); }
                cfg.delete_configuration(host_id)
            },
            _ => None,
        };
        match remaining {
            Some(location) => {
                proof {
                    let eps = t[key@]->Http_0.endpoints@;
                    let i = choose|i: int| 0 <= i < eps.len()
                        && (#[trigger] eps[i]).host_endpoint.source() == host_id.source()
                        && location.endpoints@ == eps.remove(i);
                    lemma_endpoint_index_unique(eps, host_id.source(), i);
                }
                if location.endpoints.len() == 0 {
                    table.remove(key);
                } else {
                    table.insert(key.key_clone(), ListenConfiguration::Http(Arc::new(location)));
                    proof {
                        assert(table.map().dom() =~= t.dom());
                    }
                }
            },
            None => {
                proof {
                    if t.contains_key(key@) && t[key@] is Http {
                        let eps = t[key@]->Http_0.endpoints@;
                        assert(!(exists|i: int| 0 <= i < eps.len() && (#[trigger] eps[i]).host_endpoint.source() == host_id.source()));
                    }
                }
            },
        }
    }

    /// Records that the endpoint `host_id` failed to load: it is taken off
    /// its listener (a listener left without endpoints stops listening), and
    /// the error is kept under its host string.
    pub fn add_http_configuration_error(&mut self, host_id: &EndpointHttpHostString, error: String)
        requires
            old(self).wf(),
            host_id.wf(),
        ensures
            final(self).wf(),
            final(self).errors() == old(self).errors().insert(host_id.source(), error),
            match host_id.port_spec() {
                Some(p) => without_failed_endpoint(old(self).tcp(), p, host_id.source(), final(self).tcp())
                    && final(self).unix() == old(self).unix(),
                None => without_failed_endpoint(old(self).unix(), host_id.source(), host_id.source(), final(self).unix())
                    && final(self).tcp() == old(self).tcp(),
            },
    {
        match host_id.get_port() {
            EndpointPort::Tcp(port) => {
                Self::drop_failed_endpoint(&mut self.listen_tcp_endpoints, &port, host_id);
            },
            EndpointPort::UnixSocket(unix_host) => {
                let key: String = (*unix_host).clone();
                Self::drop_failed_endpoint(&mut self.listen_unix_socket_endpoints, &key, host_id);
            },
        }
        self.error_configurations.insert(host_id.as_str().to_string(), error);
    }

    /// A full load: builds fresh tables from the compiled hosts, in order,
    /// and swaps them in in one write, so what the settings no longer name
    /// is gone afterwards.
    pub fn load_compiled(&mut self, hosts: Vec<(EndpointHttpHostString, Result<ListenConfiguration, String>)>)
        requires
            compiled_hosts_wf(hosts@),
        ensures
            final(self).wf(),
            (final(self).tcp(), final(self).unix(), final(self).errors()) == loaded_tables(hosts@),
    {
        let ghost all = hosts@;
        let mut fresh = AppConfigurationInner::new();
        let mut rest = hosts;
        let ghost mut done: int = 0;
        proof {
            assert(all.subrange(0, 0) =~= Seq::<(EndpointHttpHostString, Result<ListenConfiguration, String>)>::empty());
            assert(fresh.tcp() =~= Map::empty());
            assert(fresh.unix() =~= Map::empty());
            assert(fresh.errors() =~= Map::empty());
        }
        while rest.len() > 0
            invariant
                0 <= done <= all.len(),
                rest@ == all.subrange(done, all.len() as int),
                compiled_hosts_wf(all),
                fresh.wf(),
                (fresh.tcp(), fresh.unix(), fresh.errors()) == loaded_tables(all.subrange(0, done)),
            decreases rest@.len(),
        {
            let (host, compiled) = rest.remove(0);
            proof {
                assert(all[done] == (host, compiled));
                assert(all.subrange(0, done + 1).drop_last() =~= all.subrange(0, done));
                assert(all.subrange(0, done + 1).last() == all[done]);
            }
            fresh.apply_compiled(&host, compiled);
            proof {
                done = done + 1;
                assert(rest@ =~= all.subrange(done, all.len() as int));
            }
        }
        proof {
            assert(all.subrange(0, done) =~= all);
        }
        self.swap_in(fresh);
    }

    /// Swaps freshly built tables in, in one write: afterwards exactly what
    /// `fresh` holds is configured, so a listener or error that is no longer
    /// in the settings is gone rather than left over from before.
    pub fn swap_in(&mut self, fresh: AppConfigurationInner)
        requires
            fresh.wf(),
        ensures
            final(self).wf(),
            final(self).tcp() == fresh.tcp(),
            final(self).unix() == fresh.unix(),
            final(self).errors() == fresh.errors(),
    {
        self.listen_tcp_endpoints = fresh.listen_tcp_endpoints;
        self.listen_unix_socket_endpoints = fresh.listen_unix_socket_endpoints;
        self.error_configurations = fresh.error_configurations;
    }

    /// What is already configured on the listener of `host` (several hosts
    /// can share one listener), to compile the next host onto.
    pub fn existing_for(&self, host: &EndpointHttpHostString) -> (r: Option<ListenConfiguration>)
        requires
            self.wf(),
            host.wf(),
        ensures
            match host.port_spec() {
                Some(p) => r == (if self.tcp().contains_key(p) { Some(self.tcp()[p]) } else { None }),
                None => r == (if self.unix().contains_key(host.source()) { Some(self.unix()[host.source()]) } else { None }),
            },
    {
        match host.get_port() {
            EndpointPort::Tcp(port) => match self.listen_tcp_endpoints.get(&port) {
                Some(c) => Some(c.duplicate()),
                None => None,
            },
            EndpointPort::UnixSocket(path) => match self.listen_unix_socket_endpoints.get(&*path) {
                Some(c) => Some(c.duplicate()),
                None => None,
            },
        }
    }

    /// Takes the compiled configuration of `host` into the tables being
    /// built: it becomes what its listener serves, or, when compiling
    /// failed, the error is kept under the host string.
    pub fn apply_compiled(&mut self, host: &EndpointHttpHostString, compiled: Result<ListenConfiguration, String>)
        requires
            old(self).wf(),
            host.wf(),
            compiled matches Ok(c) ==> c.wf(),
        ensures
            final(self).wf(),
            match compiled {
                Ok(c) => {
                    &&& final(self).errors() == old(self).errors()
                    &&& match host.port_spec() {
                        Some(p) => final(self).tcp() == old(self).tcp().insert(p, c) && final(self).unix() == old(self).unix(),
                        None => final(self).unix() == old(self).unix().insert(host.source(), c)
                            && final(self).tcp() == old(self).tcp(),
                    }
                },
                Err(e) => {
                    &&& final(self).errors() == old(self).errors().insert(host.source(), e)
                    &&& final(self).tcp() == old(self).tcp()
                    &&& final(self).unix() == old(self).unix()
                },
            },
    {
        match compiled {
            Ok(c) => match host.get_port() {
                EndpointPort::Tcp(port) => {
                    self.listen_tcp_endpoints.insert(port, c);
                },
                EndpointPort::UnixSocket(path) => {
                    let key: String = (*path).clone();
                    self.listen_unix_socket_endpoints.insert(key, c);
                },
            },
            Err(e) => {
                self.error_configurations.insert(host.as_str().to_string(), e);
            },
        }
    }

    /// Replaces what listens on TCP port `port` with a freshly compiled
    /// configuration (`None`: nothing is configured there any more), clears
    /// the port's load error, and reports what happened.
    pub fn apply_tcp_port_reload(&mut self, port: u16, new_config: Option<ListenConfiguration>) -> (r: String)
        requires
            old(self).wf(),
            new_config matches Some(c) ==> c.wf(),
        ensures
            final(self).wf(),
            final(self).errors() == old(self).errors().remove(decimal_chars(port as nat)),
            final(self).unix() == old(self).unix(),
            final(self).tcp() == match new_config {
                Some(c) => old(self).tcp().insert(port, c),
                None => old(self).tcp().remove(port),
            },
            r@ == (if new_config is Some { "Updated TCP port "@ } else { "Removed TCP port "@ }) + decimal_chars(port as nat),
    {
        let mut key = String::new();
        push_decimal(&mut key, port as u64);
        proof { assert(key@ =~= decimal_chars(port as nat)); }
        self.error_configurations.remove(&key);
        let had_config = new_config.is_some();
        match new_config {
            Some(c) => {
                self.listen_tcp_endpoints.insert(port, c);
            },
            None => {
                self.listen_tcp_endpoints.remove(&port);
            },
        }
        let mut r = if had_config { String::from_str("Updated TCP port ") } else { String::from_str("Removed TCP port ") };
        push_decimal(&mut r, port as u64);
        r
    }

    /// Replaces what listens on unix socket `host` with a freshly compiled
    /// configuration (`None`: nothing is configured there any more), clears
    /// its load error, and reports what happened.
    pub fn apply_unix_reload(&mut self, host: &String, new_config: Option<ListenConfiguration>) -> (r: String)
        requires
            old(self).wf(),
            new_config matches Some(c) ==> c.wf(),
        ensures
            final(self).wf(),
            final(self).errors() == old(self).errors().remove(host@),
            final(self).tcp() == old(self).tcp(),
            final(self).unix() == match new_config {
                Some(c) => old(self).unix().insert(host@, c),
                None => old(self).unix().remove(host@),
            },
            r@ == (if new_config is Some { "Updated Unix socket "@ } else { "Removed Unix socket "@ }) + host@,
    {
        self.error_configurations.remove(host);
        let had_config = new_config.is_some();
        match new_config {
            Some(c) => {
                self.listen_unix_socket_endpoints.insert(host.clone(), c);
            },
            None => {
                self.listen_unix_socket_endpoints.remove(host);
            },
        }
        let mut r = if had_config { String::from_str("Updated Unix socket ") } else { String::from_str("Removed Unix socket ") };
        r.append(host.as_str());
        r
    }
}

/// After an endpoint failed to load, its listener no longer serves it:
/// whatever listener remains under the key has no endpoint with its host
/// string.
pub proof fn lemma_failed_endpoint_is_no_longer_served<K>(
    t: Map<K, ListenConfiguration>,
    key: K,
    host: Seq<char>,
    t2: Map<K, ListenConfiguration>,
)
    requires
        table_wf(t),
        without_failed_endpoint(t, key, host, t2),
        t.contains_key(key) && t[key] is Http ==> endpoint_index(t[key]->Http_0.endpoints@, host) is Some,
    ensures
        t2.contains_key(key) && t2[key] is Http ==> forall|j: int| 0 <= j < t2[key]->Http_0.endpoints@.len()
            ==> (#[trigger] t2[key]->Http_0.endpoints@[j]).host_endpoint.source() != host,
{
    if t.contains_key(key) && t[key] is Http {
        let eps = t[key]->Http_0.endpoints@;
        let i = endpoint_index(eps, host)->0;
        assert(t[key].wf());
        assert(0 <= i < eps.len() && eps[i].host_endpoint.source() == host);
        if eps.len() != 1 {
            let rest = t2[key]->Http_0.endpoints@;
            assert forall|j: int| 0 <= j < rest.len() implies (#[trigger] rest[j]).host_endpoint.source() != host by {
                let oj = if j < i { j } else { j + 1 };
                assert(rest[j] == eps[oj]);
                if oj < i {
                    assert(eps[oj].host_endpoint.source() != eps[i].host_endpoint.source());
                } else {
                    assert(eps[i].host_endpoint.source() != eps[oj].host_endpoint.source());
                }
            }
        }
    }
}

} // verus!
