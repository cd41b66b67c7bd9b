//! The endpoints that listen on one port, and how a request's server name
//! picks one of them.
use vstd::prelude::*;
use std::sync::Arc;
use crate::host_str::{EndpointHttpHostString, ListenHost};
use crate::text::{eq_ignore_ascii_case_spec, str_eq};

verus! {

#[derive(Clone, Copy, Debug, PartialEq, Eq)]
pub enum ListenHttpEndpointType {
    Http1,
    Https1,
    Http2,
    Https2,
    Mcp,
}

/// What the routing reads of a configured HTTP endpoint.
#[derive(Debug)]
pub struct HttpEndpointInfo {
    pub host_endpoint: EndpointHttpHostString,
    pub listen_endpoint_type: ListenHttpEndpointType,
    pub ssl_certificate_id: Option<String>,
    pub debug: bool,
    pub keep_alive: bool,
}

impl HttpEndpointInfo {
    pub open spec fn wf(&self) -> bool {
        self.host_endpoint.wf()
    }

    /// Whether a request for `server_name` belongs to this endpoint.
    pub open spec fn serves(&self, server_name: Seq<char>) -> bool {
        match self.host_endpoint.server_name_spec() {
            Some(mine) => eq_ignore_ascii_case_spec(mine, server_name),
            None => true,
        }
    }

    pub fn as_str(&self) -> (r: &str)
        ensures
            r@ == self.host_endpoint.source(),
    {
        self.host_endpoint.as_str()
    }

    pub fn is_my_endpoint(&self, server_name: &str) -> (r: bool)
        requires
            self.wf(),
        ensures
            r == self.serves(server_name@),
    {
        self.host_endpoint.is_my_server_name(server_name)
    }
}

/// The host strings of a list of endpoints.
pub open spec fn hosts_of(endpoints: Seq<Arc<HttpEndpointInfo>>) -> Seq<Seq<char>> {
    endpoints.map_values(|e: Arc<HttpEndpointInfo>| e.host_endpoint.source())
}

pub open spec fn hosts_distinct(endpoints: Seq<Arc<HttpEndpointInfo>>) -> bool {
    forall|i: int, j: int| 0 <= i < j < endpoints.len()
        ==> (#[trigger] endpoints[i]).host_endpoint.source() != (#[trigger] endpoints[j]).host_endpoint.source()
}

pub open spec fn all_wf(endpoints: Seq<Arc<HttpEndpointInfo>>) -> bool {
    forall|i: int| 0 <= i < endpoints.len() ==> (#[trigger] endpoints[i]).wf()
}

/// The first endpoint that serves `server_name`.
pub open spec fn first_serving(endpoints: Seq<Arc<HttpEndpointInfo>>, server_name: Seq<char>) -> Option<int> {
    if exists|i: int| 0 <= i < endpoints.len() && (#[trigger] endpoints[i]).serves(server_name) {
        Some(choose|i: int| 0 <= i < endpoints.len() && (#[trigger] endpoints[i]).serves(server_name)
            && forall|j: int| 0 <= j < i ==> !(#[trigger] endpoints[j]).serves(server_name))
    } else {
        None
    }
}

proof fn lemma_first_serving(endpoints: Seq<Arc<HttpEndpointInfo>>, server_name: Seq<char>, i: int)
    requires
        0 <= i < endpoints.len(),
        endpoints[i].serves(server_name),
        forall|j: int| 0 <= j < i ==> !(#[trigger] endpoints[j]).serves(server_name),
    ensures
        first_serving(endpoints, server_name) == Some(i),
{
    let k = choose|k: int| 0 <= k < endpoints.len() && (#[trigger] endpoints[k]).serves(server_name)
        && forall|j: int| 0 <= j < k ==> !(#[trigger] endpoints[j]).serves(server_name);
    assert(0 <= k < endpoints.len() && endpoints[k].serves(server_name)
        && forall|j: int| 0 <= j < k ==> !(#[trigger] endpoints[j]).serves(server_name));
    if k < i {
        assert(!endpoints[k].serves(server_name));
    }
    if i < k {
        assert(!endpoints[i].serves(server_name));
    }
}

#[derive(Clone, Debug)]
pub struct HttpListenPortConfiguration {
    pub endpoints: Vec<Arc<HttpEndpointInfo>>,
    pub listen_endpoint_type: ListenHttpEndpointType,
    pub listen_host: ListenHost,
}

impl HttpListenPortConfiguration {
    /// No two endpoints on the port share a host string, and each is well
    /// formed.
    pub open spec fn wf(&self) -> bool {
        hosts_distinct(self.endpoints@) && all_wf(self.endpoints@)
    }

    pub fn new(endpoint_info: Arc<HttpEndpointInfo>, listen_host: ListenHost) -> (r: Self)
        requires
            endpoint_info.wf(),
        ensures
            r.wf(),
            r.endpoints@ == seq![endpoint_info],
            r.listen_endpoint_type == endpoint_info.listen_endpoint_type,
            r.listen_host == listen_host,
    {
        let listen_endpoint_type = endpoint_info.listen_endpoint_type;
        let mut endpoints = Vec::new();
        endpoints.push(endpoint_info);
        HttpListenPortConfiguration { endpoints, listen_endpoint_type, listen_host }
    }

    fn position_of(&self, host: &str) -> (r: Option<usize>)
        ensures
            match r {
                Some(i) => i < self.endpoints@.len() && self.endpoints@[i as int].host_endpoint.source() == host@
                    && forall|j: int| 0 <= j < i ==> (#[trigger] self.endpoints@[j]).host_endpoint.source() != host@,
                None => forall|j: int| 0 <= j < self.endpoints@.len() ==> (#[trigger] self.endpoints@[j]).host_endpoint.source() != host@,
            },
    {
        let mut i: usize = 0;
        while i < self.endpoints.len()
            invariant
                0 <= i <= self.endpoints@.len(),
                forall|j: int| 0 <= j < i ==> (#[trigger] self.endpoints@[j]).host_endpoint.source() != host@,
            decreases self.endpoints@.len() - i,
        {
            if str_eq(self.endpoints[i].host_endpoint.as_str(), host) {
                return Some(i);
            }
            i = i + 1;
        }
        None
    }

    /// Puts `endpoint_info` in place of the endpoint with the same host string,
    /// or appends it when there is none.
    pub fn insert_or_replace_configuration(&mut self, endpoint_info: HttpEndpointInfo)
        requires
            old(self).wf(),
            endpoint_info.wf(),
        ensures
            final(self).wf(),
            final(self).listen_endpoint_type == old(self).listen_endpoint_type,
            final(self).listen_host == old(self).listen_host,
            (exists|i: int| 0 <= i < old(self).endpoints@.len()
                && (#[trigger] old(self).endpoints@[i]).host_endpoint.source() == endpoint_info.host_endpoint.source())
                ==> exists|i: int| 0 <= i < old(self).endpoints@.len()
                    && (#[trigger] old(self).endpoints@[i]).host_endpoint.source() == endpoint_info.host_endpoint.source()
                    && final(self).endpoints@ == old(self).endpoints@.update(i, Arc::new(endpoint_info)),
            !(exists|i: int| 0 <= i < old(self).endpoints@.len()
                && (#[trigger] old(self).endpoints@[i]).host_endpoint.source() == endpoint_info.host_endpoint.source())
                ==> final(self).endpoints@ == old(self).endpoints@.push(Arc::new(endpoint_info)),
    {
        let ghost old_eps = self.endpoints@;
        let index = self.position_of(endpoint_info.as_str());
        match index {
            Some(index) => {
                let ghost e = endpoint_info;
                self.endpoints.set(index, Arc::new(endpoint_info));
                assert(self.endpoints@ == old_eps.update(index as int, Arc::new(e)));
                assert(hosts_distinct(self.endpoints@)) by {
                    assert forall|a: int, b: int| 0 <= a < b < self.endpoints@.len() implies
                        (#[trigger] self.endpoints@[a]).host_endpoint.source() != (#[trigger] self.endpoints@[b]).host_endpoint.source() by {
                        assert(old_eps[a].host_endpoint.source() != old_eps[b].host_endpoint.source());
                    }
                }
            },
            None => {
                let ghost e = endpoint_info;
                self.endpoints.push(Arc::new(endpoint_info));
                assert(hosts_distinct(self.endpoints@)) by {
                    assert forall|a: int, b: int| 0 <= a < b < self.endpoints@.len() implies
                        (#[trigger] self.endpoints@[a]).host_endpoint.source() != (#[trigger] self.endpoints@[b]).host_endpoint.source() by {
                        assert(self.endpoints@[a] == old_eps[a]);
                        if b < old_eps.len() { assert(self.endpoints@[b] == old_eps[b]); }
                    }
                }
            },
        }
    }

    /// The configuration without the endpoint whose host string is
    /// `endpoint_host_string`; `None` when there is no such endpoint.
    pub fn delete_configuration(&self, endpoint_host_string: &EndpointHttpHostString) -> (r: Option<Self>)
        requires
            self.wf(),
        ensures
            match r {
                Some(c) => exists|i: int| 0 <= i < self.endpoints@.len()
                    && (#[trigger] self.endpoints@[i]).host_endpoint.source() == endpoint_host_string.source()
                    && c.endpoints@ == self.endpoints@.remove(i)
                    && c.listen_endpoint_type == self.listen_endpoint_type
                    && c.wf()
                    && match c.listen_host {
                        ListenHost::Tcp(p) => endpoint_host_string.port_spec() == Some(p),
                        ListenHost::Unix(path) => endpoint_host_string.port_spec() is None && path@ == endpoint_host_string.source(),
                    },
                None => forall|i: int| 0 <= i < self.endpoints@.len()
                    ==> (#[trigger] self.endpoints@[i]).host_endpoint.source() != endpoint_host_string.source(),
            },
    {
        let index = match self.position_of(endpoint_host_string.as_str()) {
            Some(i) => i,
            None => return None,
        };
        let mut result: Vec<Arc<HttpEndpointInfo>> = Vec::new();
        let mut j: usize = 0;
        while j < self.endpoints.len()
            invariant
                0 <= j <= self.endpoints@.len(),
                index < self.endpoints@.len(),
                result@ == (if j <= index { self.endpoints@.subrange(0, j as int) } else {
                    self.endpoints@.subrange(0, j as int).remove(index as int)
                }),
            decreases self.endpoints@.len() - j,
        {
            if j != index {
                result.push(self.endpoints[j].clone());
            }
            proof {
                if j < index {
                    assert(self.endpoints@.subrange(0, j + 1) == self.endpoints@.subrange(0, j as int).push(self.endpoints@[j as int]));
                } else if j == index {
                    assert(self.endpoints@.subrange(0, j + 1).remove(index as int) == self.endpoints@.subrange(0, j as int));
                } else {
                    assert(self.endpoints@.subrange(0, j + 1).remove(index as int)
                        == self.endpoints@.subrange(0, j as int).remove(index as int).push(self.endpoints@[j as int]));
                }
            }
            j = j + 1;
        }
        assert(self.endpoints@.subrange(0, self.endpoints@.len() as int) == self.endpoints@);
        let ghost removed = self.endpoints@.remove(index as int);
        assert(hosts_distinct(removed) && all_wf(removed)) by {
            assert forall|a: int, b: int| 0 <= a < b < removed.len() implies
                (#[trigger] removed[a]).host_endpoint.source() != (#[trigger] removed[b]).host_endpoint.source() by {
                let oa = if a < index { a } else { a + 1 };
                let ob = if b < index { b } else { b + 1 };
                assert(removed[a] == self.endpoints@[oa]);
                assert(removed[b] == self.endpoints@[ob]);
            }
            assert forall|a: int| 0 <= a < removed.len() implies (#[trigger] removed[a]).wf() by {
                let oa = if a < index { a } else { a + 1 };
                assert(removed[a] == self.endpoints@[oa]);
            }
        }
        Some(HttpListenPortConfiguration {
            listen_endpoint_type: self.listen_endpoint_type,
            endpoints: result,
            listen_host: endpoint_host_string.get_listen_host(),
        })
    }

    /// The endpoint a request is routed to.  With a server name: the first
    /// endpoint that serves it.  Without one: the only endpoint, provided it
    /// has no server name of its own.
    pub fn get_http_endpoint_info(&self, server_name: Option<&str>) -> (r: Option<Arc<HttpEndpointInfo>>)
        requires
            all_wf(self.endpoints@),
            server_name is None ==> self.endpoints@.len() > 0,
        ensures
            match server_name {
                Some(name) => match first_serving(self.endpoints@, name@) {
                    Some(i) => r == Some(self.endpoints@[i]),
                    None => r is None,
                },
                None => if self.endpoints@.len() == 1 && self.endpoints@[0].host_endpoint.server_name_spec() is None {
                    r == Some(self.endpoints@[0])
                } else {
                    r is None
                },
            },
    {
        match server_name {
            None => {
                if self.endpoints.len() > 1 {
                    return None;
                }
                let first = &self.endpoints[0];
                if !first.host_endpoint.has_server_name() {
                    return Some(first.clone());
                }
                None
            },
            Some(name) => {
                let mut i: usize = 0;
                while i < self.endpoints.len()
                    invariant
                        0 <= i <= self.endpoints@.len(),
                        server_name == Some(name),
                        all_wf(self.endpoints@),
                        forall|j: int| 0 <= j < i ==> !(#[trigger] self.endpoints@[j]).serves(name@),
                    decreases self.endpoints@.len() - i,
                {
                    if self.endpoints[i].is_my_endpoint(name) {
                        proof { lemma_first_serving(self.endpoints@, name@, i as int); }
                        return Some(self.endpoints[i].clone());
                    }
                    i = i + 1;
                }
                None
            },
        }
    }

    /// The certificate of the first endpoint that serves `server_name` and has
    /// one, with that endpoint.
    pub fn get_ssl_certificate<'s>(&'s self, server_name: &str) -> (r: Option<(&'s String, Arc<HttpEndpointInfo>)>)
        requires
            all_wf(self.endpoints@),
        ensures
            match r {
                Some((id, e)) => exists|i: int| 0 <= i < self.endpoints@.len()
                    && #[trigger] self.endpoints@[i] == e
                    && e.serves(server_name@)
                    && e.ssl_certificate_id == Some(*id)
                    && forall|j: int| 0 <= j < i ==> !((#[trigger] self.endpoints@[j]).serves(server_name@)
                        && self.endpoints@[j].ssl_certificate_id is Some),
                None => forall|j: int| 0 <= j < self.endpoints@.len() ==> !((#[trigger] self.endpoints@[j]).serves(server_name@)
                    && self.endpoints@[j].ssl_certificate_id is Some),
            },
    {
        let mut i: usize = 0;
        while i < self.endpoints.len()
            invariant
                0 <= i <= self.endpoints@.len(),
                all_wf(self.endpoints@),
                forall|j: int| 0 <= j < i ==> !((#[trigger] self.endpoints@[j]).serves(server_name@)
                    && self.endpoints@[j].ssl_certificate_id is Some),
            decreases self.endpoints@.len() - i,
        {
            let endpoint_info = &self.endpoints[i];
            if endpoint_info.is_my_endpoint(server_name) {
                match &endpoint_info.ssl_certificate_id {
                    Some(ssl_id) => {
                        return Some((ssl_id, endpoint_info.clone()));
                    },
                    None => {},
                }
            }
            i = i + 1;
        }
        None
    }
}

} // verus!
