//! In-memory ring buffers of the last [`MAX_LOG_MESSAGES`] diagnostics,
//! grouped along the three axes of the admin UI: listener (port or unix
//! socket) → endpoint → location.
use vstd::prelude::*;
use std::collections::VecDeque;
use std::sync::Arc;
use ahash::AHashMap;

verus! {

/// How many messages are kept per port / endpoint / location.
pub const MAX_LOG_MESSAGES: usize = 100;

#[derive(Debug)]
pub struct ProxyLogEntry {
    /// Unix microseconds.
    pub moment: i64,
    pub message: String,
}

impl ProxyLogEntry {
    pub fn new(message: String, moment: i64) -> (r: Self)
        ensures
            r.moment == moment,
            r.message == message,
    {
        ProxyLogEntry { moment, message }
    }

    pub fn duplicate(&self) -> (r: Self)
        ensures
            r == *self,
    {
        ProxyLogEntry { moment: self.moment, message: self.message.clone() }
    }
}

/// The buffer after one more message: the oldest one is dropped once the
/// buffer is full.
pub open spec fn push_ring(buf: Seq<ProxyLogEntry>, e: ProxyLogEntry) -> Seq<ProxyLogEntry> {
    if buf.len() >= MAX_LOG_MESSAGES { buf.drop_first().push(e) } else { buf.push(e) }
}

pub open spec fn buffer_or_empty<K>(m: Map<K, Seq<ProxyLogEntry>>, k: K) -> Seq<ProxyLogEntry> {
    if m.contains_key(k) { m[k] } else { Seq::empty() }
}

/// Every buffer of a table holds at most [`MAX_LOG_MESSAGES`] messages.
pub open spec fn bounded<K>(m: Map<K, Seq<ProxyLogEntry>>) -> bool {
    forall|k: K| #[trigger] m.contains_key(k) ==> m[k].len() <= MAX_LOG_MESSAGES
}

/// What an `AHashMap<String, VecDeque<ProxyLogEntry>>` holds.
pub uninterp spec fn named_logs(m: AHashMap<String, VecDeque<ProxyLogEntry>>) -> Map<Seq<char>, Seq<ProxyLogEntry>>;

/// What an `AHashMap<i64, VecDeque<ProxyLogEntry>>` holds.
pub uninterp spec fn location_logs(m: AHashMap<i64, VecDeque<ProxyLogEntry>>) -> Map<i64, Seq<ProxyLogEntry>>;

/// `AHashMap::new`: a map that holds nothing.
#[verifier::external_body]
fn named_logs_new() -> (r: AHashMap<String, VecDeque<ProxyLogEntry>>)
    ensures
        named_logs(r).dom().is_empty(),
{
    AHashMap::new()
}

/// `AHashMap::new`: a map that holds nothing.
#[verifier::external_body]
fn location_logs_new() -> (r: AHashMap<i64, VecDeque<ProxyLogEntry>>)
    ensures
        location_logs(r).dom().is_empty(),
{
    AHashMap::new()
}

/// `AHashMap::get` by `&str`: the buffer under `key`, if any.
#[verifier::external_body]
fn named_logs_get<'a>(m: &'a AHashMap<String, VecDeque<ProxyLogEntry>>, key: &str) -> (r: Option<&'a VecDeque<ProxyLogEntry>>)
    ensures
        match r {
            Some(b) => named_logs(*m).contains_key(key@) && b@ == named_logs(*m)[key@],
            None => !named_logs(*m).contains_key(key@),
        },
{
    m.get(key)
}

/// `AHashMap::get`: the buffer under `key`, if any.
#[verifier::external_body]
fn location_logs_get<'a>(m: &'a AHashMap<i64, VecDeque<ProxyLogEntry>>, key: i64) -> (r: Option<&'a VecDeque<ProxyLogEntry>>)
    ensures
        match r {
            Some(b) => location_logs(*m).contains_key(key) && b@ == location_logs(*m)[key],
            None => !location_logs(*m).contains_key(key),
        },
{
    m.get(&key)
}

/// `AHashMap::remove` by `&str`: takes the buffer under `key` out.
#[verifier::external_body]
fn named_logs_remove(m: &mut AHashMap<String, VecDeque<ProxyLogEntry>>, key: &str) -> (r: Option<VecDeque<ProxyLogEntry>>)
    ensures
        named_logs(*final(m)) == named_logs(*old(m)).remove(key@),
        match r {
            Some(b) => named_logs(*old(m)).contains_key(key@) && b@ == named_logs(*old(m))[key@],
            None => !named_logs(*old(m)).contains_key(key@),
        },
{
    m.remove(key)
}

/// `AHashMap::remove`: takes the buffer under `key` out.
#[verifier::external_body]
fn location_logs_remove(m: &mut AHashMap<i64, VecDeque<ProxyLogEntry>>, key: i64) -> (r: Option<VecDeque<ProxyLogEntry>>)
    ensures
        location_logs(*final(m)) == location_logs(*old(m)).remove(key),
        match r {
            Some(b) => location_logs(*old(m)).contains_key(key) && b@ == location_logs(*old(m))[key],
            None => !location_logs(*old(m)).contains_key(key),
        },
{
    m.remove(&key)
}

/// `AHashMap::insert`: `key` now maps to `buf`.
#[verifier::external_body]
fn named_logs_insert(m: &mut AHashMap<String, VecDeque<ProxyLogEntry>>, key: String, buf: VecDeque<ProxyLogEntry>)
    ensures
        named_logs(*final(m)) == named_logs(*old(m)).insert(key@, buf@),
{
    m.insert(key, buf);
}

/// `AHashMap::insert`: `key` now maps to `buf`.
#[verifier::external_body]
fn location_logs_insert(m: &mut AHashMap<i64, VecDeque<ProxyLogEntry>>, key: i64, buf: VecDeque<ProxyLogEntry>)
    ensures
        location_logs(*final(m)) == location_logs(*old(m)).insert(key, buf@),
{
    m.insert(key, buf);
}

fn push(buf: &mut VecDeque<ProxyLogEntry>, entry: ProxyLogEntry)
    requires
        old(buf)@.len() <= MAX_LOG_MESSAGES,
    ensures
        final(buf)@ == push_ring(old(buf)@, entry),
        final(buf)@.len() <= MAX_LOG_MESSAGES,
{
    if buf.len() == MAX_LOG_MESSAGES {
        let _ = buf.pop_front();
    }
    buf.push_back(entry);
}

fn snapshot(buf: &VecDeque<ProxyLogEntry>) -> (r: Vec<ProxyLogEntry>)
    ensures
        r@ == buf@,
{
    let mut r: Vec<ProxyLogEntry> = Vec::new();
    let mut i: usize = 0;
    while i < buf.len()
        invariant
            0 <= i <= buf@.len(),
            r@ == buf@.subrange(0, i as int),
        decreases buf@.len() - i,
    {
        r.push(buf[i].duplicate());
        i = i + 1;
    }
    r
}

/// A resolved (endpoint, location) pair carried into long-running tasks so
/// their diagnostics land in the right buffers.
#[derive(Clone, Debug)]
pub struct ProxyLogScope {
    pub endpoint: Arc<String>,
    pub location_id: i64,
}

impl ProxyLogScope {
    pub fn new(endpoint: Arc<String>, location_id: i64) -> (r: Self)
        ensures
            r.endpoint == endpoint,
            r.location_id == location_id,
    {
        ProxyLogScope { endpoint, location_id }
    }

    /// Logs `message` at `moment` to this scope's endpoint and location.
    pub fn write(&self, logs: &mut ProxyLogs, message: String, moment: i64)
        requires
            old(logs).wf(),
        ensures
            final(logs).wf(),
            final(logs).by_port() == old(logs).by_port(),
            final(logs).by_endpoint() == old(logs).by_endpoint().insert(self.endpoint@,
                push_ring(buffer_or_empty(old(logs).by_endpoint(), self.endpoint@), ProxyLogEntry { moment, message })),
            final(logs).by_location() == old(logs).by_location().insert(self.location_id,
                push_ring(buffer_or_empty(old(logs).by_location(), self.location_id), ProxyLogEntry { moment, message })),
    {
        logs.write(self.endpoint.as_str(), Some(self.location_id), message, moment);
    }
}

pub struct ProxyLogs {
    by_port: AHashMap<String, VecDeque<ProxyLogEntry>>,
    by_endpoint: AHashMap<String, VecDeque<ProxyLogEntry>>,
    by_location: AHashMap<i64, VecDeque<ProxyLogEntry>>,
}

impl ProxyLogs {
    /// Logs of connections for which no endpoint could be resolved, by
    /// listener (TCP port as decimal text, or unix socket path).
    pub closed spec fn by_port(&self) -> Map<Seq<char>, Seq<ProxyLogEntry>> {
        named_logs(self.by_port)
    }

    /// Logs attributed to a resolved endpoint (its host string).
    pub closed spec fn by_endpoint(&self) -> Map<Seq<char>, Seq<ProxyLogEntry>> {
        named_logs(self.by_endpoint)
    }

    /// Logs attributed to a resolved location (its id).
    pub closed spec fn by_location(&self) -> Map<i64, Seq<ProxyLogEntry>> {
        location_logs(self.by_location)
    }

    pub open spec fn wf(&self) -> bool {
        bounded(self.by_port()) && bounded(self.by_endpoint()) && bounded(self.by_location())
    }

    pub fn new() -> (r: Self)
        ensures
            r.wf(),
            r.by_port().dom().is_empty(),
            r.by_endpoint().dom().is_empty(),
            r.by_location().dom().is_empty(),
    {
        ProxyLogs { by_port: named_logs_new(), by_endpoint: named_logs_new(), by_location: location_logs_new() }
    }

    fn push_into(map: &mut AHashMap<String, VecDeque<ProxyLogEntry>>, key: &str, entry: ProxyLogEntry)
        requires
            bounded(named_logs(*old(map))),
        ensures
            bounded(named_logs(*final(map))),
            named_logs(*final(map)) == named_logs(*old(map)).insert(key@, push_ring(buffer_or_empty(named_logs(*old(map)), key@), entry)),
    {
        let ghost before = named_logs(*map);
        let mut buf = match named_logs_remove(map, key) {
            Some(b) => b,
            None => VecDeque::new(),
        };
        push(&mut buf, entry);
        named_logs_insert(map, key.to_string(), buf);
        proof {
            assert(named_logs(*map) =~= before.insert(key@, push_ring(buffer_or_empty(before, key@), entry)));
        }
    }

    fn push_into_location(&mut self, location_id: i64, entry: ProxyLogEntry)
        requires
            old(self).wf(),
        ensures
            final(self).wf(),
            final(self).by_port() == old(self).by_port(),
            final(self).by_endpoint() == old(self).by_endpoint(),
            final(self).by_location() == old(self).by_location().insert(location_id,
                push_ring(buffer_or_empty(old(self).by_location(), location_id), entry)),
    {
        let ghost before = location_logs(self.by_location);
        let mut buf = match location_logs_remove(&mut self.by_location, location_id) {
            Some(b) => b,
            None => VecDeque::new(),
        };
        push(&mut buf, entry);
        location_logs_insert(&mut self.by_location, location_id, buf);
        proof {
            assert(location_logs(self.by_location) =~= before.insert(location_id, push_ring(buffer_or_empty(before, location_id), entry)));
        }
    }

    /// Logs a connection that hit listener `listen_id` without resolving an
    /// endpoint.
    pub fn write_port(&mut self, listen_id: &str, message: String, moment: i64)
        requires
            old(self).wf(),
        ensures
            final(self).wf(),
            final(self).by_port() == old(self).by_port().insert(listen_id@,
                push_ring(buffer_or_empty(old(self).by_port(), listen_id@), ProxyLogEntry { moment, message })),
            final(self).by_endpoint() == old(self).by_endpoint(),
            final(self).by_location() == old(self).by_location(),
    {
        Self::push_into(&mut self.by_port, listen_id, ProxyLogEntry::new(message, moment));
    }

    /// Logs to an endpoint and, when known, to the location as well.
    pub fn write(&mut self, endpoint: &str, location_id: Option<i64>, message: String, moment: i64)
        requires
            old(self).wf(),
        ensures
            final(self).wf(),
            final(self).by_port() == old(self).by_port(),
            final(self).by_endpoint() == old(self).by_endpoint().insert(endpoint@,
                push_ring(buffer_or_empty(old(self).by_endpoint(), endpoint@), ProxyLogEntry { moment, message })),
            final(self).by_location() == match location_id {
                Some(id) => old(self).by_location().insert(id,
                    push_ring(buffer_or_empty(old(self).by_location(), id), ProxyLogEntry { moment, message })),
                None => old(self).by_location(),
            },
    {
        let entry = ProxyLogEntry::new(message, moment);
        let copy = entry.duplicate();
        Self::push_into(&mut self.by_endpoint, endpoint, entry);
        match location_id {
            Some(id) => self.push_into_location(id, copy),
            None => {},
        }
    }

    /// Logs to a location only.
    pub fn write_location(&mut self, location_id: i64, message: String, moment: i64)
        requires
            old(self).wf(),
        ensures
            final(self).wf(),
            final(self).by_port() == old(self).by_port(),
            final(self).by_endpoint() == old(self).by_endpoint(),
            final(self).by_location() == old(self).by_location().insert(location_id,
                push_ring(buffer_or_empty(old(self).by_location(), location_id), ProxyLogEntry { moment, message })),
    {
        self.push_into_location(location_id, ProxyLogEntry::new(message, moment));
    }

    /// The buffered messages of a listener, oldest first.
    pub fn get_by_port(&self, listen_id: &str) -> (r: Vec<ProxyLogEntry>)
        ensures
            r@ == buffer_or_empty(self.by_port(), listen_id@),
    {
        match named_logs_get(&self.by_port, listen_id) {
            Some(buf) => snapshot(buf),
            None => Vec::new(),
        }
    }

    /// The buffered messages of an endpoint, oldest first.
    pub fn get_by_endpoint(&self, endpoint: &str) -> (r: Vec<ProxyLogEntry>)
        ensures
            r@ == buffer_or_empty(self.by_endpoint(), endpoint@),
    {
        match named_logs_get(&self.by_endpoint, endpoint) {
            Some(buf) => snapshot(buf),
            None => Vec::new(),
        }
    }

    /// The buffered messages of a location, oldest first.
    pub fn get_by_location(&self, location_id: i64) -> (r: Vec<ProxyLogEntry>)
        ensures
            r@ == buffer_or_empty(self.by_location(), location_id),
    {
        match location_logs_get(&self.by_location, location_id) {
            Some(buf) => snapshot(buf),
            None => Vec::new(),
        }
    }
}

/// A message just written is the newest one its buffer returns, and a buffer
/// never grows beyond [`MAX_LOG_MESSAGES`].
pub proof fn lemma_ring_keeps_newest(buf: Seq<ProxyLogEntry>, e: ProxyLogEntry)
    requires
        buf.len() <= MAX_LOG_MESSAGES,
    ensures
        push_ring(buf, e).len() <= MAX_LOG_MESSAGES,
        push_ring(buf, e).last() == e,
        buf.len() < MAX_LOG_MESSAGES ==> push_ring(buf, e) == buf.push(e),
        buf.len() == MAX_LOG_MESSAGES ==> push_ring(buf, e) == buf.subrange(1, buf.len() as int).push(e),
{
}

} // verus!
