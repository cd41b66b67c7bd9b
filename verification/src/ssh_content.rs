//! Content served over an ssh tunnel: `ssh:user@host[:port]` followed by
//! either a remote endpoint reached through the tunnel or a file path on the
//! ssh host.
use vstd::prelude::*;
use std::sync::Arc;
use crate::proxy_pass::{RemoteEndpoint, SshCredentials};
use crate::text::{find_first, find_last, first_index_of, last_index_of, parse_u16, parse_u16_spec, starts_with_char};

verus! {

/// `s` up to the first `c` (all of it when there is none).
pub open spec fn seg_before(s: Seq<char>, c: char) -> Seq<char> {
    match first_index_of(s, c) {
        Some(i) => s.take(i),
        None => s,
    }
}

/// `s` after the first `c` (nothing when there is none).
pub open spec fn after_first(s: Seq<char>, c: char) -> Seq<char> {
    match first_index_of(s, c) {
        Some(i) => s.skip(i + 1),
        None => Seq::empty(),
    }
}

/// The user of `ssh:user@host:port`: the text before the `@`, after its
/// last `:`.
pub open spec fn ssh_user_spec(s: Seq<char>) -> Seq<char> {
    let u = seg_before(s, '@');
    match last_index_of(u, ':') {
        Some(i) => u.skip(i + 1),
        None => u,
    }
}

/// The `host[:port]` part: between the first `@` and the next one.
pub open spec fn ssh_host_port_part(s: Seq<char>) -> Seq<char> {
    seg_before(after_first(s, '@'), '@')
}

pub open spec fn ssh_host_spec(s: Seq<char>) -> Seq<char> {
    seg_before(ssh_host_port_part(s), ':')
}

/// The port: the text after the host's `:` (up to a further `:`), or 22
/// when no port is written.
pub open spec fn ssh_port_spec(s: Seq<char>) -> Option<u16> {
    let hp = ssh_host_port_part(s);
    match first_index_of(hp, ':') {
        Some(_) => parse_u16_spec(seg_before(after_first(hp, ':'), ':')),
        None => Some(22),
    }
}

/// An ssh part that can be read: it has an `@`, and its port (if written)
/// is a number that fits in 16 bits.
pub open spec fn ssh_part_ok(s: Seq<char>) -> bool {
    first_index_of(s, '@') is Some && ssh_port_spec(s) is Some
}

fn before_char<'a>(s: &'a str, c: char) -> (r: &'a str)
    ensures
        r@ == seg_before(s@, c),
{
    match find_first(s, c) {
        Some(i) => {
            let r = s.substring_char(0, i);
            proof { assert(r@ =~= s@.take(i as int)); }
            r
        },
        None => s,
    }
}

fn after_char<'a>(s: &'a str, c: char) -> (r: &'a str)
    ensures
        r@ == after_first(s@, c),
{
    let n = s.unicode_len();
    match find_first(s, c) {
        Some(i) => {
            let r = s.substring_char(i + 1, n);
            proof { assert(r@ =~= s@.skip(i + 1)); }
            r
        },
        None => {
            proof { reveal_strlit(""); }
            ""
        },
    }
}

/// Splits `ssh:user@host[:port]` into user, host and port.
pub fn parse_ssh_part(ssh_part: &str) -> (r: (&str, &str, u16))
    requires
        ssh_part_ok(ssh_part@),
    ensures
        r.0@ == ssh_user_spec(ssh_part@),
        r.1@ == ssh_host_spec(ssh_part@),
        Some(r.2) == ssh_port_spec(ssh_part@),
{
    let user_part = before_char(ssh_part, '@');
    let user_len = user_part.unicode_len();
    let user = match find_last(user_part, ':') {
        Some(i) => {
            let u = user_part.substring_char(i + 1, user_len);
            proof { assert(u@ =~= user_part@.skip(i + 1)); }
            u
        },
        None => user_part,
    };
    let host_port = before_char(after_char(ssh_part, '@'), '@');
    let host = before_char(host_port, ':');
    let port = match find_first(host_port, ':') {
        Some(_) => {
            let port_text = before_char(after_char(host_port, ':'), ':');
            match parse_u16(port_text) {
                Some(p) => p,
                None => 22,
            }
        },
        None => 22,
    };
    (user, host, port)
}

/// What an ssh location serves: an endpoint reached through the tunnel, or
/// a file on the ssh host.
#[derive(Debug, Clone)]
pub enum SshRemoteContent {
    RemoteHost(RemoteEndpoint),
    FilePath(String),
}

/// A remote part names a file when it starts with `/`, `~` or `.`.
pub open spec fn is_file_path(s: Seq<char>) -> bool {
    s.len() > 0 && (s[0] == '/' || s[0] == '~' || s[0] == '.')
}

impl SshRemoteContent {
    pub open spec fn text(&self) -> Seq<char> {
        match self {
            SshRemoteContent::RemoteHost(e) => e.src@,
            SshRemoteContent::FilePath(f) => f@,
        }
    }

    /// Reads the remote part: a file path is kept as written; anything else
    /// is the remote endpoint `remote_endpoint` (what parsing the part as an
    /// endpoint gave), whose error is passed on.
    pub fn parse(remote_part: &str, remote_endpoint: Result<RemoteEndpoint, String>) -> (r: Result<Self, String>)
        ensures
            is_file_path(remote_part@) ==> (r matches Ok(SshRemoteContent::FilePath(f)) && f@ == remote_part@),
            !is_file_path(remote_part@) ==> match remote_endpoint {
                Ok(e) => r matches Ok(SshRemoteContent::RemoteHost(x)) && x == e,
                Err(m) => r matches Err(x) && x@ == m@,
            },
    {
        if starts_with_char(remote_part, '/') || starts_with_char(remote_part, '~') || starts_with_char(remote_part, '.') {
            Ok(SshRemoteContent::FilePath(remote_part.to_string()))
        } else {
            match remote_endpoint {
                Ok(e) => Ok(SshRemoteContent::RemoteHost(e)),
                Err(m) => Err(m),
            }
        }
    }

    /// The remote part as written.
    pub fn as_str(&self) -> (r: &str)
        ensures
            r@ == self.text(),
    {
        match self {
            SshRemoteContent::RemoteHost(e) => e.src.as_str(),
            SshRemoteContent::FilePath(f) => f.as_str(),
        }
    }

    pub fn unwrap_as_remote_host(&self) -> (r: &RemoteEndpoint)
        requires
            self is RemoteHost,
        ensures
            *r == self->RemoteHost_0,
    {
        match self {
            SshRemoteContent::RemoteHost(e) => e,
            SshRemoteContent::FilePath(_) => vstd::pervasive::unreached(),
        }
    }

    pub fn unwrap_as_file_path(&self) -> (r: &str)
        requires
            self is FilePath,
        ensures
            r@ == self->FilePath_0@,
    {
        match self {
            SshRemoteContent::FilePath(f) => f.as_str(),
            SshRemoteContent::RemoteHost(_) => vstd::pervasive::unreached(),
        }
    }
}

/// Content reached through an ssh tunnel authenticated by the local agent.
#[derive(Debug, Clone)]
pub struct SshContentSource {
    pub credentials: Arc<SshCredentials>,
    pub remote_content: SshRemoteContent,
}

impl SshContentSource {
    /// Reads `ssh:user@host[:port]` and the remote part behind it (see
    /// [`SshRemoteContent::parse`]); the remote part's error is passed on.
    pub fn parse(ssh_part: &str, remote_part: &str, remote_endpoint: Result<RemoteEndpoint, String>) -> (r: Result<Self, String>)
        requires
            is_file_path(remote_part@) || remote_endpoint is Ok ==> ssh_part_ok(ssh_part@),
        ensures
            match r {
                Ok(src) => {
                    &&& src.credentials.ssh_user_name@ == ssh_user_spec(ssh_part@)
                    &&& src.credentials.ssh_remote_host@ == ssh_host_spec(ssh_part@)
                    &&& Some(src.credentials.ssh_remote_port) == ssh_port_spec(ssh_part@)
                    &&& is_file_path(remote_part@) ==> (src.remote_content matches SshRemoteContent::FilePath(f) && f@ == remote_part@)
                    &&& !is_file_path(remote_part@) ==> (remote_endpoint matches Ok(e)
                        && src.remote_content == SshRemoteContent::RemoteHost(e))
                },
                Err(m) => !is_file_path(remote_part@) && (remote_endpoint matches Err(x) && m@ == x@),
            },
    {
        let remote_content = match SshRemoteContent::parse(remote_part, remote_endpoint) {
            Ok(c) => c,
            Err(e) => return Err(e),
        };
        let (user_name, host, port) = parse_ssh_part(ssh_part);
        let credentials = SshCredentials {
            ssh_user_name: user_name.to_string(),
            ssh_remote_host: host.to_string(),
            ssh_remote_port: port,
        };
        Ok(SshContentSource { credentials: Arc::new(credentials), remote_content })
    }

    pub open spec fn to_string_spec(&self) -> Seq<char> {
        self.credentials.ssh_user_name@ + "@"@ + self.credentials.host_port_spec() + "->"@ + self.remote_content.text()
    }

    /// `user@host:port->remote part`.
    pub fn to_string(&self) -> (r: String)
        ensures
            r@ == self.to_string_spec(),
    {
        let mut r = String::from_str(self.credentials.get_user_name());
        r.append("@");
        let hp = self.credentials.get_host_port_as_string();
        r.append(hp.as_str());
        r.append("->");
        r.append(self.remote_content.as_str());
        r
    }
}

} // verus!
