//! Settings resolved from the configuration with fallback to defaults, the
//! live `oauth:` blocks, and the ssh credentials table.
use vstd::prelude::*;
use std::sync::Arc;
use crate::assoc::AssocList;
use crate::proxy_pass::{PoolTuning, DEFAULT_POOL_SIZE, DEFAULT_POOL_PING_TIMEOUT_MS, DEFAULT_POOL_HOT_WINDOW_MS};
use crate::text::str_eq;

verus! {

pub const DEFAULT_MCP_READ_TIMEOUT_MS: u64 = 180_000;
pub const DEFAULT_MCP_WRITE_TIMEOUT_MS: u64 = 30_000;
pub const DEFAULT_MCP_BUFFER_SIZE: usize = 524_288;

/// The mcp-related settings of an endpoint block, as written.
#[derive(Debug, Clone, Copy)]
pub struct EndpointSettings {
    pub mcp_read_timeout_ms: Option<u64>,
    pub mcp_write_timeout_ms: Option<u64>,
    pub mcp_buffer_size: Option<usize>,
}

pub open spec fn or_default<T>(v: Option<T>, d: T) -> T {
    match v {
        Some(x) => x,
        None => d,
    }
}

impl EndpointSettings {
    pub fn get_mcp_read_timeout(&self) -> (r: u64)
        ensures
            r == or_default(self.mcp_read_timeout_ms, DEFAULT_MCP_READ_TIMEOUT_MS),
    {
        match self.mcp_read_timeout_ms {
            Some(v) => v,
            None => DEFAULT_MCP_READ_TIMEOUT_MS,
        }
    }

    pub fn get_mcp_write_timeout(&self) -> (r: u64)
        ensures
            r == or_default(self.mcp_write_timeout_ms, DEFAULT_MCP_WRITE_TIMEOUT_MS),
    {
        match self.mcp_write_timeout_ms {
            Some(v) => v,
            None => DEFAULT_MCP_WRITE_TIMEOUT_MS,
        }
    }

    pub fn get_mcp_buffer_size(&self) -> (r: usize)
        ensures
            r == or_default(self.mcp_buffer_size, DEFAULT_MCP_BUFFER_SIZE),
    {
        match self.mcp_buffer_size {
            Some(v) => v,
            None => DEFAULT_MCP_BUFFER_SIZE,
        }
    }
}

/// Per-endpoint mcp tunnel parameters.
#[derive(Debug, Clone, Copy)]
pub struct McpEndpointSettings {
    pub read_timeout_ms: u64,
    pub write_timeout_ms: u64,
    pub buffer_size: usize,
}

impl McpEndpointSettings {
    pub fn from_settings(endpoint: &EndpointSettings) -> (r: Self)
        ensures
            r.read_timeout_ms == or_default(endpoint.mcp_read_timeout_ms, DEFAULT_MCP_READ_TIMEOUT_MS),
            r.write_timeout_ms == or_default(endpoint.mcp_write_timeout_ms, DEFAULT_MCP_WRITE_TIMEOUT_MS),
            r.buffer_size == or_default(endpoint.mcp_buffer_size, DEFAULT_MCP_BUFFER_SIZE),
    {
        McpEndpointSettings {
            read_timeout_ms: endpoint.get_mcp_read_timeout(),
            write_timeout_ms: endpoint.get_mcp_write_timeout(),
            buffer_size: endpoint.get_mcp_buffer_size(),
        }
    }
}

/// The pool-related settings of a location block, as written.
#[derive(Debug, Clone, Copy)]
pub struct LocationSettings {
    pub pool_size: Option<u8>,
    pub pool_ping_timeout_ms: Option<u64>,
    pub pool_hot_window_ms: Option<u64>,
}

impl PoolTuning {
    pub fn from_location_settings(location: &LocationSettings) -> (r: Self)
        ensures
            r.pool_size == or_default(location.pool_size, DEFAULT_POOL_SIZE),
            r.ping_timeout_ms == or_default(location.pool_ping_timeout_ms, DEFAULT_POOL_PING_TIMEOUT_MS),
            r.hot_window_ms == or_default(location.pool_hot_window_ms, DEFAULT_POOL_HOT_WINDOW_MS),
    {
        PoolTuning {
            pool_size: match location.pool_size { Some(v) => v, None => DEFAULT_POOL_SIZE },
            ping_timeout_ms: match location.pool_ping_timeout_ms { Some(v) => v, None => DEFAULT_POOL_PING_TIMEOUT_MS },
            hot_window_ms: match location.pool_hot_window_ms { Some(v) => v, None => DEFAULT_POOL_HOT_WINDOW_MS },
        }
    }
}

/// The settings of an `oauth:` block, as `(name, value)` pairs in the order
/// they are written.
#[derive(Debug)]
pub struct OAuthSettings {
    pub entries: Vec<(String, String)>,
}

pub open spec fn settings_view(s: OAuthSettings) -> Seq<(Seq<char>, Seq<char>)> {
    s.entries@.map_values(|p: (String, String)| (p.0@, p.1@))
}

impl OAuthSettings {
    pub fn same_as(&self, other: &OAuthSettings) -> (r: bool)
        ensures
            r == (settings_view(*self) == settings_view(*other)),
    {
        if self.entries.len() != other.entries.len() {
            return false;
        }
        let mut i: usize = 0;
        while i < self.entries.len()
            invariant
                self.entries@.len() == other.entries@.len(),
                0 <= i <= self.entries@.len(),
                forall|j: int| 0 <= j < i ==> settings_view(*self)[j] == settings_view(*other)[j],
            decreases self.entries@.len() - i,
        {
            if !str_eq(self.entries[i].0.as_str(), other.entries[i].0.as_str())
                || !str_eq(self.entries[i].1.as_str(), other.entries[i].1.as_str()) {
                assert(settings_view(*self)[i as int] != settings_view(*other)[i as int]);
                return false;
            }
            i = i + 1;
        }
        assert(settings_view(*self) =~= settings_view(*other));
        true
    }
}

/// A live `oauth:` block: its settings and the authorization codes currently
/// in flight.
#[derive(Debug)]
pub struct OAuthContext {
    pub settings: OAuthSettings,
    pub codes_in_flight: Vec<String>,
}

impl OAuthContext {
    pub fn new(settings: OAuthSettings) -> (r: Self)
        ensures
            r.settings == settings,
            r.codes_in_flight@.len() == 0,
    {
        OAuthContext { settings, codes_in_flight: Vec::new() }
    }

    pub fn settings_are_the_same(&self, settings: &OAuthSettings) -> (r: bool)
        ensures
            r == (settings_view(self.settings) == settings_view(*settings)),
    {
        self.settings.same_as(settings)
    }
}

/// The live `oauth:` blocks, by the name endpoints refer to them by.  A
/// reload keeps a context unless its block changed, so consents in progress
/// survive.
pub struct OAuthCredentialsList {
    items: AssocList<String, Arc<OAuthContext>>,
}

impl OAuthCredentialsList {
    pub closed spec fn items(&self) -> Map<Seq<char>, Arc<OAuthContext>> {
        self.items.map()
    }

    pub closed spec fn wf(&self) -> bool {
        self.items.wf()
    }

    pub fn new() -> (r: Self)
        ensures
            r.wf(),
            r.items().dom().is_empty(),
    {
        OAuthCredentialsList { items: AssocList::new() }
    }

    pub fn add_or_update(&mut self, key: String, item: OAuthContext)
        requires
            old(self).wf(),
        ensures
            final(self).wf(),
            final(self).items() == old(self).items().insert(key@, Arc::new(item)),
    {
        let _ = self.items.insert(key, Arc::new(item));
    }

    pub fn get(&self, key: &str) -> (r: Option<Arc<OAuthContext>>)
        requires
            self.wf(),
        ensures
            match r {
                Some(c) => self.items().contains_key(key@) && self.items()[key@] == c,
                None => !self.items().contains_key(key@),
            },
    {
        let k = key.to_string();
        match self.items.get(&k) {
            Some(c) => Some(c.clone()),
            None => None,
        }
    }

    /// Whether the block `key` is loaded with exactly `settings`.
    pub fn is_up_to_date(&self, key: &str, settings: &OAuthSettings) -> (r: bool)
        requires
            self.wf(),
        ensures
            r == (self.items().contains_key(key@) && settings_view(self.items()[key@].settings) == settings_view(*settings)),
    {
        let k = key.to_string();
        match self.items.get(&k) {
            Some(context) => context.settings_are_the_same(settings),
            None => false,
        }
    }
}

/// How an ssh tunnel authenticates.
#[derive(Debug, Clone)]
pub enum SshConfig {
    PrivateKey { private_key: String, pass_phrase: Option<String> },
    Password(String),
}

/// The ssh settings by credentials id (`user@host:port`, or `user@host` for
/// port 22).
pub struct SshConfigListInternal {
    data: AssocList<String, Arc<SshConfig>>,
}

pub open spec fn without_port_22(id: Seq<char>) -> Option<Seq<char>> {
    if id.len() >= 3 && id.subrange(id.len() - 3, id.len() as int) == ":22"@ {
        Some(id.subrange(0, id.len() - 3))
    } else {
        None
    }
}

impl SshConfigListInternal {
    pub closed spec fn entries(&self) -> Map<Seq<char>, Arc<SshConfig>> {
        self.data.map()
    }

    pub closed spec fn wf(&self) -> bool {
        self.data.wf()
    }

    pub fn new() -> (r: Self)
        ensures
            r.wf(),
            r.entries().dom().is_empty(),
    {
        SshConfigListInternal { data: AssocList::new() }
    }

    /// Replaces every entry with `data`; a later entry for an id wins.
    pub fn clear_and_init(&mut self, data: Vec<(String, SshConfig)>)
        requires
            old(self).wf(),
        ensures
            final(self).wf(),
            forall|id: Seq<char>| final(self).entries().contains_key(id)
                <==> exists|i: int| 0 <= i < data@.len() && (#[trigger] data@[i]).0@ == id,
    {
        self.data.clear();
        let mut data = data;
        let total = data.len();
        let ghost all = data@;
        let mut consumed: usize = 0;
        while data.len() > 0
            invariant
                self.data.wf(),
                consumed + data@.len() == all.len(),
                all.len() == total,
                data@ == all.subrange(consumed as int, all.len() as int),
                forall|id: Seq<char>| self.data.map().contains_key(id)
                    <==> exists|i: int| 0 <= i < consumed && (#[trigger] all[i]).0@ == id,
            decreases data@.len(),
        {
            let (id, config) = data.remove(0);
            let ghost idv = id@;
            let _ = self.data.insert(id, Arc::new(config));
            proof {
                assert forall|k: Seq<char>| self.data.map().contains_key(k)
                    <==> exists|i: int| 0 <= i < consumed + 1 && (#[trigger] all[i]).0@ == k by {
                    if k == idv {
                        assert(all[consumed as int].0@ == k);
                    } else if self.data.map().contains_key(k) {
                        let i = choose|i: int| 0 <= i < consumed && (#[trigger] all[i]).0@ == k;
                        assert(0 <= i < consumed + 1 && all[i].0@ == k);
                    } else {
                        if exists|i: int| 0 <= i < consumed + 1 && (#[trigger] all[i]).0@ == k {
                            let i = choose|i: int| 0 <= i < consumed + 1 && (#[trigger] all[i]).0@ == k;
                            if i < consumed {
                                assert(exists|j: int| 0 <= j < consumed && (#[trigger] all[j]).0@ == k);
                            }
                        }
                    }
                }
            }
            consumed = consumed + 1;
        }
    }

    /// The settings for credentials `id`; an id ending in `:22` also matches
    /// an entry written without the port.
    pub fn get(&self, id: &str) -> (r: Option<Arc<SshConfig>>)
        requires
            self.wf(),
        ensures
            r == (if self.entries().contains_key(id@) {
                Some(self.entries()[id@])
            } else {
                match without_port_22(id@) {
                    Some(short) => if self.entries().contains_key(short) { Some(self.entries()[short]) } else { None },
                    None => None,
                }
            }),
    {
        let key = id.to_string();
        match self.data.get(&key) {
            Some(c) => return Some(c.clone()),
            None => {},
        }
        let n = id.unicode_len();
        if n >= 3 {
            let tail = id.substring_char(n - 3, n);
            proof { reveal_strlit(":22"); }
            if str_eq(tail, ":22") {
                let short = id.substring_char(0, n - 3).to_string();
                return match self.data.get(&short) {
                    Some(c) => Some(c.clone()),
                    None => None,
                };
            }
        }
        None
    }
}

} // verus!
