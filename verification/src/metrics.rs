//! Live connection gauges by listen port and by endpoint.
use vstd::prelude::*;
use crate::assoc::{AssocList, KeyEq};

verus! {

/// The gauge value of `k`: its counter, or 0 when never touched.
pub open spec fn count_of<K>(m: Map<K, isize>, k: K) -> int {
    if m.contains_key(k) { m[k] as int } else { 0 }
}

/// Signed counters by key.
pub struct MetricsValues<TKey: KeyEq> {
    data: AssocList<TKey, isize>,
}

impl<TKey: KeyEq> MetricsValues<TKey> {
    pub closed spec fn counters(&self) -> Map<TKey::V, isize> {
        self.data.map()
    }

    pub closed spec fn wf(&self) -> bool {
        self.data.wf()
    }

    pub fn new() -> (r: Self)
        ensures
            r.wf(),
            r.counters().dom().is_empty(),
    {
        MetricsValues { data: AssocList::new() }
    }

    pub fn inc(&mut self, key: &TKey)
        requires
            old(self).wf(),
            count_of(old(self).counters(), key@) < isize::MAX,
        ensures
            final(self).wf(),
            final(self).counters() == old(self).counters().insert(key@, (count_of(old(self).counters(), key@) + 1) as isize),
    {
        let current = match self.data.get(key) {
            Some(v) => *v,
            None => 0,
        };
        let _ = self.data.insert(key.key_clone(), current + 1);
    }

    pub fn dec(&mut self, key: &TKey)
        requires
            old(self).wf(),
            count_of(old(self).counters(), key@) > isize::MIN,
        ensures
            final(self).wf(),
            final(self).counters() == old(self).counters().insert(key@, (count_of(old(self).counters(), key@) - 1) as isize),
    {
        let current = match self.data.get(key) {
            Some(v) => *v,
            None => 0,
        };
        let _ = self.data.insert(key.key_clone(), current - 1);
    }

    pub fn get(&self, key: &TKey) -> (r: isize)
        requires
            self.wf(),
        ensures
            r as int == count_of(self.counters(), key@),
    {
        match self.data.get(key) {
            Some(value) => *value,
            None => 0,
        }
    }
}

/// Decrementing a gauge right after incrementing it reads the value it read
/// before, and leaves every other key alone.
pub proof fn lemma_inc_then_dec_restores<K>(m: Map<K, isize>, k: K, other: K)
    requires
        count_of(m, k) < isize::MAX,
    ensures
        ({
            let after_inc = m.insert(k, (count_of(m, k) + 1) as isize);
            let after_dec = after_inc.insert(k, (count_of(after_inc, k) - 1) as isize);
            &&& count_of(after_dec, k) == count_of(m, k)
            &&& other != k ==> count_of(after_dec, other) == count_of(m, other)
        }),
{
}

pub struct MetricsInner {
    pub connection_by_port: MetricsValues<u16>,
    /// Live inbound connections attributed to a configured endpoint (its host
    /// string, e.g. `"myapp.com:443"`).
    pub connection_by_endpoint: MetricsValues<String>,
}

impl MetricsInner {
    pub open spec fn wf(&self) -> bool {
        self.connection_by_port.wf() && self.connection_by_endpoint.wf()
    }

    pub fn new() -> (r: Self)
        ensures
            r.wf(),
            r.connection_by_port.counters().dom().is_empty(),
            r.connection_by_endpoint.counters().dom().is_empty(),
    {
        MetricsInner { connection_by_port: MetricsValues::new(), connection_by_endpoint: MetricsValues::new() }
    }
}

/// The endpoint a connection has been counted against: a connection is
/// attributed once, to the first endpoint it resolves.
pub struct Http1ConnectionGauge {
    port: Option<u16>,
    endpoint: Option<String>,
}

impl Http1ConnectionGauge {
    pub closed spec fn port_spec(&self) -> Option<u16> {
        self.port
    }

    pub fn port(&self) -> (r: Option<u16>)
        ensures
            r == self.port_spec(),
    {
        self.port
    }

    pub closed spec fn endpoint_spec(&self) -> Option<Seq<char>> {
        match self.endpoint {
            Some(e) => Some(e@),
            None => None,
        }
    }

    /// A connection accepted on `port`, not yet attributed to any endpoint.
    pub fn new(port: Option<u16>) -> (r: Self)
        ensures
            r.port_spec() == port,
            r.endpoint_spec() is None,
    {
        Http1ConnectionGauge { port, endpoint: None }
    }

    /// Counts a connection accepted on `port` (when it has one) and returns
    /// its gauge, not yet attributed to any endpoint.
    pub fn open(metrics: &mut MetricsInner, port: Option<u16>) -> (r: Self)
        requires
            old(metrics).wf(),
            port matches Some(p) ==> count_of(old(metrics).connection_by_port.counters(), p) < isize::MAX,
        ensures
            final(metrics).wf(),
            r.port_spec() == port,
            r.endpoint_spec() is None,
            final(metrics).connection_by_endpoint.counters() == old(metrics).connection_by_endpoint.counters(),
            final(metrics).connection_by_port.counters() == match port {
                Some(p) => old(metrics).connection_by_port.counters().insert(p,
                    (count_of(old(metrics).connection_by_port.counters(), p) + 1) as isize),
                None => old(metrics).connection_by_port.counters(),
            },
    {
        match port {
            Some(p) => metrics.connection_by_port.inc(&p),
            None => {},
        }
        Http1ConnectionGauge { port, endpoint: None }
    }

    /// The connection closed: uncount it from its port and from the endpoint
    /// it was attributed to.
    pub fn release(self, metrics: &mut MetricsInner)
        requires
            old(metrics).wf(),
            self.port_spec() matches Some(p) ==> count_of(old(metrics).connection_by_port.counters(), p) > isize::MIN,
            self.endpoint_spec() matches Some(e) ==> count_of(old(metrics).connection_by_endpoint.counters(), e) > isize::MIN,
        ensures
            final(metrics).wf(),
            final(metrics).connection_by_port.counters() == match self.port_spec() {
                Some(p) => old(metrics).connection_by_port.counters().insert(p,
                    (count_of(old(metrics).connection_by_port.counters(), p) - 1) as isize),
                None => old(metrics).connection_by_port.counters(),
            },
            final(metrics).connection_by_endpoint.counters() == match self.endpoint_spec() {
                Some(e) => old(metrics).connection_by_endpoint.counters().insert(e,
                    (count_of(old(metrics).connection_by_endpoint.counters(), e) - 1) as isize),
                None => old(metrics).connection_by_endpoint.counters(),
            },
    {
        match self.port {
            Some(p) => metrics.connection_by_port.dec(&p),
            None => {},
        }
        match &self.endpoint {
            Some(e) => metrics.connection_by_endpoint.dec(e),
            None => {},
        }
    }

    /// Attributes the connection to `host` (counting it in `metrics`) unless
    /// it is already attributed.
    pub fn attribute_to_endpoint(&mut self, metrics: &mut MetricsInner, host: &str)
        requires
            old(metrics).wf(),
            old(self).endpoint_spec() is None ==> count_of(old(metrics).connection_by_endpoint.counters(), host@) < isize::MAX,
        ensures
            final(metrics).wf(),
            final(self).port_spec() == old(self).port_spec(),
            final(metrics).connection_by_port.counters() == old(metrics).connection_by_port.counters(),
            old(self).endpoint_spec() is Some ==> {
                &&& final(self).endpoint_spec() == old(self).endpoint_spec()
                &&& final(metrics).connection_by_endpoint.counters() == old(metrics).connection_by_endpoint.counters()
            },
            old(self).endpoint_spec() is None ==> {
                &&& final(self).endpoint_spec() == Some(host@)
                &&& final(metrics).connection_by_endpoint.counters() == old(metrics).connection_by_endpoint.counters().insert(
                    host@, (count_of(old(metrics).connection_by_endpoint.counters(), host@) + 1) as isize)
            },
    {
        if self.endpoint.is_some() {
            return;
        }
        let key = host.to_string();
        metrics.connection_by_endpoint.inc(&key);
        self.endpoint = Some(key);
    }
}

} // verus!
