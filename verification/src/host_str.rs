//! The host string that names an endpoint in the configuration:
//! `server_name:port`, a bare `port`, or a unix socket path (starting with
//! `/` or `~/`).
use vstd::prelude::*;
use std::sync::Arc;
use crate::text::{eq_ignore_ascii_case, eq_ignore_ascii_case_spec, find_char, parse_u16, parse_u16_spec, starts_with_char};

verus! {

#[derive(Clone, Debug)]
pub enum EndpointPort {
    Tcp(u16),
    UnixSocket(Arc<String>),
}

/// Where a listener binds: a TCP port on all IPv4 interfaces (0.0.0.0), or a
/// unix socket path.
#[derive(Clone, Debug)]
pub enum ListenHost {
    Tcp(u16),
    Unix(Arc<String>),
}

#[derive(Clone, Debug)]
pub struct EndpointHttpHostString {
    src: Arc<String>,
    port: Option<u16>,
    index: Option<usize>,
}

pub open spec fn is_unix_socket_path(s: Seq<char>) -> bool {
    (s.len() > 0 && s[0] == '/') || (s.len() > 1 && s[0] == '~' && s[1] == '/')
}

/// The position of the first `:`, if any.
pub open spec fn colon_index(s: Seq<char>) -> Option<int> {
    if exists|i: int| 0 <= i < s.len() && s[i] == ':' {
        Some(choose|i: int| 0 <= i < s.len() && s[i] == ':' && forall|j: int| 0 <= j < i ==> s[j] != ':')
    } else {
        None
    }
}

/// The text the port is read from: after the first `:`, or the whole host.
pub open spec fn port_text(s: Seq<char>) -> Seq<char> {
    match colon_index(s) {
        Some(i) => s.subrange(i + 1, s.len() as int),
        None => s,
    }
}

proof fn lemma_colon_index_unique(s: Seq<char>, i: int)
    requires
        0 <= i < s.len(),
        s[i] == ':',
        forall|j: int| 0 <= j < i ==> s[j] != ':',
    ensures
        colon_index(s) == Some(i),
{
    let k = choose|k: int| 0 <= k < s.len() && s[k] == ':' && forall|j: int| 0 <= j < k ==> s[j] != ':';
    assert(0 <= k < s.len() && s[k] == ':' && forall|j: int| 0 <= j < k ==> s[j] != ':');
    if k < i {
        assert(s[k] != ':');
    }
    if i < k {
        assert(s[i] != ':');
    }
}

proof fn lemma_first_colon_exists(s: Seq<char>, w: int)
    requires
        0 <= w < s.len(),
        s[w] == ':',
    ensures
        exists|i: int| 0 <= i < s.len() && s[i] == ':' && forall|j: int| 0 <= j < i ==> s[j] != ':',
    decreases w,
{
    if exists|j: int| 0 <= j < w && s[j] == ':' {
        let j = choose|j: int| 0 <= j < w && s[j] == ':';
        lemma_first_colon_exists(s, j);
    }
}

proof fn lemma_colon_index_props(s: Seq<char>)
    ensures
        match colon_index(s) {
            Some(i) => 0 <= i < s.len() && s[i] == ':' && forall|j: int| 0 <= j < i ==> s[j] != ':',
            None => forall|j: int| 0 <= j < s.len() ==> s[j] != ':',
        },
{
    if exists|i: int| 0 <= i < s.len() && s[i] == ':' {
        let w = choose|i: int| 0 <= i < s.len() && s[i] == ':';
        lemma_first_colon_exists(s, w);
        assert(exists|i: int| 0 <= i < s.len() && s[i] == ':' && forall|j: int| 0 <= j < i ==> s[j] != ':');
    }
}

impl EndpointHttpHostString {
    pub closed spec fn source(&self) -> Seq<char> {
        self.src@
    }

    /// The TCP port, or `None` for a unix socket.
    pub closed spec fn port_spec(&self) -> Option<u16> {
        self.port
    }

    /// The server name: the text before the first `:`, if there is one.
    pub closed spec fn server_name_spec(&self) -> Option<Seq<char>> {
        match self.index {
            Some(i) => Some(self.src@.subrange(0, i as int)),
            None => None,
        }
    }

    pub closed spec fn wf(&self) -> bool {
        if is_unix_socket_path(self.src@) {
            self.port is None && self.index is None
        } else {
            &&& self.port == parse_u16_spec(port_text(self.src@))
            &&& self.port is Some
            &&& match colon_index(self.src@) {
                Some(i) => self.index is Some && self.index->0 as int == i,
                None => self.index is None,
            }
        }
    }

    /// What a well-formed host string holds follows from its text: it is a
    /// unix socket exactly when its text is a socket path; otherwise its port
    /// is the one parsed after the first `:` and its server name the text
    /// before it.
    pub proof fn lemma_wf_follows_source(&self)
        requires
            self.wf(),
        ensures
            self.port_spec() is None <==> is_unix_socket_path(self.source()),
            is_unix_socket_path(self.source()) ==> self.server_name_spec() is None,
            !is_unix_socket_path(self.source()) ==> {
                &&& self.port_spec() == parse_u16_spec(port_text(self.source()))
                &&& self.server_name_spec() == match colon_index(self.source()) {
                    Some(i) => Some(self.source().subrange(0, i)),
                    None => None,
                }
            },
    {
    }

    /// Parses a host string.  A unix socket path is taken as it is; anything
    /// else needs a valid port after its first `:` (or as its whole text).
    pub fn new(host: String) -> (r: Result<Self, String>)
        ensures
            match r {
                Ok(h) => {
                    &&& h.wf()
                    &&& h.source() == host@
                    &&& (h.port_spec() is None <==> is_unix_socket_path(host@))
                    &&& is_unix_socket_path(host@) ==> h.port_spec() is None && h.server_name_spec() is None
                    &&& !is_unix_socket_path(host@) ==> {
                        &&& parse_u16_spec(port_text(host@)) is Some
                        &&& h.port_spec() == parse_u16_spec(port_text(host@))
                        &&& h.server_name_spec() == match colon_index(host@) {
                            Some(i) => Some(host@.subrange(0, i)),
                            None => None,
                        }
                    }
                },
                Err(msg) => {
                    &&& !is_unix_socket_path(host@)
                    &&& parse_u16_spec(port_text(host@)) is None
                    &&& msg@ == "Can not pars endpoint port for host: "@ + host@
                },
            },
    {
        let n = host.as_str().unicode_len();
        let is_unix_socket = starts_with_char(host.as_str(), '/')
            || (n > 1 && host.as_str().get_char(0) == '~' && host.as_str().get_char(1) == '/');
        if is_unix_socket {
            return Ok(EndpointHttpHostString { src: Arc::new(host), port: None, index: None });
        }
        let index = find_char(host.as_str(), ':');
        proof {
            match index {
                Some(i) => { lemma_colon_index_unique(host@, i as int); },
                None => {},
            }
        }
        let port = match index {
            Some(i) => parse_u16(host.as_str().substring_char(i + 1, n)),
            None => parse_u16(host.as_str()),
        };
        match port {
            Some(port) => Ok(EndpointHttpHostString { src: Arc::new(host), port: Some(port), index }),
            None => {
                let mut msg = String::from_str("Can not pars endpoint port for host: ");
                msg.append(host.as_str());
                Err(msg)
            },
        }
    }

    pub fn has_server_name(&self) -> (r: bool)
        ensures
            r == self.server_name_spec() is Some,
    {
        self.index.is_some()
    }

    pub fn get_server_name(&self) -> (r: Option<&str>)
        requires
            self.wf(),
        ensures
            match r {
                Some(s) => self.server_name_spec() == Some(s@),
                None => self.server_name_spec() is None,
            },
    {
        proof { lemma_colon_index_props(self.src@); }
        match self.index {
            Some(index) => Some(self.src.as_str().substring_char(0, index)),
            None => None,
        }
    }

    /// Whether `server_name` is this endpoint's (ASCII case-insensitively);
    /// an endpoint without a server name answers every name.
    pub fn is_my_server_name(&self, server_name: &str) -> (r: bool)
        requires
            self.wf(),
        ensures
            r == match self.server_name_spec() {
                Some(mine) => eq_ignore_ascii_case_spec(mine, server_name@),
                None => true,
            },
    {
        match self.get_server_name() {
            Some(my_server_name) => eq_ignore_ascii_case(my_server_name, server_name),
            None => true,
        }
    }

    pub fn as_str(&self) -> (r: &str)
        ensures
            r@ == self.source(),
    {
        self.src.as_str()
    }

    pub fn get_port(&self) -> (r: EndpointPort)
        ensures
            match r {
                EndpointPort::Tcp(p) => self.port_spec() == Some(p),
                EndpointPort::UnixSocket(path) => self.port_spec() is None && path@ == self.source(),
            },
    {
        match self.port {
            Some(port) => EndpointPort::Tcp(port),
            None => EndpointPort::UnixSocket(self.src.clone()),
        }
    }

    pub fn is_unix_socket(&self) -> (r: bool)
        ensures
            r == self.port_spec() is None,
    {
        self.port.is_none()
    }

    /// Where this endpoint listens: `0.0.0.0:port`, or its unix socket.
    pub fn get_listen_host(&self) -> (r: ListenHost)
        ensures
            match r {
                ListenHost::Tcp(p) => self.port_spec() == Some(p),
                ListenHost::Unix(path) => self.port_spec() is None && path@ == self.source(),
            },
    {
        match self.get_port() {
            EndpointPort::Tcp(port) => ListenHost::Tcp(port),
            EndpointPort::UnixSocket(host) => ListenHost::Unix(host),
        }
    }
}

} // verus!
