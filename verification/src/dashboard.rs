//! What the admin dashboard shows for each listener, endpoint, location and
//! gateway connection: the CSS classes, labels and log-dialog requests it
//! renders.
use vstd::prelude::*;
use std::collections::HashMap;
use crate::text::str_eq;
use crate::text::{decimal_chars, push_decimal, push_signed_decimal, signed_decimal_chars};
use crate::ui::{
    normalize_type, normalize_type_spec, GatewayConnectionModel, HttpEndpointInfoModel, HttpProxyPassLocationModel,
    LogScope, LogsDialogRequest, PortConfigurationModel,
};

verus! {

/// The type pill of a listener or endpoint: `type-pill listen-<type>`.
pub fn listen_type_class(kind: &str) -> (r: String)
    ensures
        r@ == "type-pill listen-"@ + normalize_type_spec(kind@),
{
    let mut r = String::from_str("type-pill listen-");
    let slug = normalize_type(kind);
    r.append(slug.as_str());
    r
}

/// The type pill of a location: `type-pill type-<type>`.
pub fn location_type_class(kind: &str) -> (r: String)
    ensures
        r@ == "type-pill type-"@ + normalize_type_spec(kind@),
{
    let mut r = String::from_str("type-pill type-");
    let slug = normalize_type(kind);
    r.append(slug.as_str());
    r
}

/// The connection counter of a listener, lit while it has connections.
pub fn port_conn_class(inbound_connections: i64) -> (r: &'static str)
    ensures
        r@ == if inbound_connections > 0 { "conn-count active"@ } else { "conn-count"@ },
{
    if inbound_connections > 0 { "conn-count active" } else { "conn-count" }
}

/// The connection counter of an endpoint, lit while it has connections.
pub fn endpoint_conn_class(inbound_connections: i64) -> (r: &'static str)
    ensures
        r@ == if inbound_connections > 0 { "conn-count endpoint-conn active"@ } else { "conn-count endpoint-conn"@ },
{
    if inbound_connections > 0 { "conn-count endpoint-conn active" } else { "conn-count endpoint-conn" }
}

/// The client counter of the gateway server, lit while clients are
/// connected.
pub fn gateway_server_conn_class(connections: usize) -> (r: &'static str)
    ensures
        r@ == if connections == 0 { "conn-count"@ } else { "conn-count active"@ },
{
    if connections == 0 { "conn-count" } else { "conn-count active" }
}

/// The connection counter of a gateway client, lit while it is connected.
pub fn gateway_client_conn_class(connections: usize) -> (r: &'static str)
    ensures
        r@ == if connections == 0 { "conn-count endpoint-conn"@ } else { "conn-count endpoint-conn active"@ },
{
    if connections == 0 { "conn-count endpoint-conn" } else { "conn-count endpoint-conn active" }
}

/// The logs dialog of a listener: its unix socket path or its port.
pub fn port_logs_request(port: &PortConfigurationModel) -> (r: LogsDialogRequest)
    ensures
        match port.unix_socket {
            Some(socket) => r.title@ == "Port logs — unix "@ + socket@
                && (r.scope matches LogScope::Port(id) && id@ == socket@),
            None => r.title@ == "Port logs — "@ + decimal_chars(port.port as nat)
                && (r.scope matches LogScope::Port(id) && id@ == decimal_chars(port.port as nat)),
        },
{
    match &port.unix_socket {
        Some(socket) => {
            let mut title = String::from_str("Port logs — unix ");
            title.append(socket.as_str());
            LogsDialogRequest { title, scope: LogScope::Port(socket.clone()) }
        },
        None => {
            let mut id = String::new();
            push_decimal(&mut id, port.port as u64);
            let mut title = String::from_str("Port logs — ");
            push_decimal(&mut title, port.port as u64);
            proof { assert(id@ =~= decimal_chars(port.port as nat)); }
            LogsDialogRequest { title, scope: LogScope::Port(id) }
        },
    }
}

/// The logs dialog of an endpoint.
pub fn endpoint_logs_request(endpoint: &HttpEndpointInfoModel) -> (r: LogsDialogRequest)
    ensures
        r.title@ == "Endpoint logs — "@ + endpoint.host@,
        r.scope matches LogScope::Endpoint(h) && h@ == endpoint.host@,
{
    let mut title = String::from_str("Endpoint logs — ");
    title.append(endpoint.host.as_str());
    LogsDialogRequest { title, scope: LogScope::Endpoint(endpoint.host.clone()) }
}

/// The logs dialog of a location: its path and id.
pub fn location_logs_request(loc: &HttpProxyPassLocationModel) -> (r: LogsDialogRequest)
    ensures
        r.title@ == "Location logs — "@ + loc.path@ + " ("@ + signed_decimal_chars(loc.location_id as int) + ")"@,
        r.scope == LogScope::Location(loc.location_id),
{
    let mut title = String::from_str("Location logs — ");
    title.append(loc.path.as_str());
    title.append(" (");
    push_signed_decimal(&mut title, loc.location_id);
    title.append(")");
    LogsDialogRequest { title, scope: LogScope::Location(loc.location_id) }
}

/// Whether an endpoint shows its meta chips: it has any of an SSL
/// certificate, a client certificate, Google sign-in, a user list or an IP
/// list.
pub fn endpoint_has_meta(endpoint: &HttpEndpointInfoModel) -> (r: bool)
    ensures
        r == (endpoint.ssl_cert_id is Some || endpoint.client_cert_id is Some || endpoint.g_auth is Some
            || endpoint.allowed_user_list_id is Some || endpoint.ip_list is Some),
{
    endpoint.ssl_cert_id.is_some() || endpoint.client_cert_id.is_some() || endpoint.g_auth.is_some()
        || endpoint.allowed_user_list_id.is_some() || endpoint.ip_list.is_some()
}

/// A location's pool as `alive/total`, or `—` when it has no pool.
pub fn pool_label(pool_alive: Option<usize>, pool_total: Option<usize>) -> (r: String)
    ensures
        r@ == match (pool_alive, pool_total) {
            (Some(a), Some(t)) => decimal_chars(a as nat) + "/"@ + decimal_chars(t as nat),
            _ => "—"@,
        },
{
    match (pool_alive, pool_total) {
        (Some(alive), Some(total)) => {
            let mut r = String::new();
            push_decimal(&mut r, alive as u64);
            r.append("/");
            push_decimal(&mut r, total as u64);
            proof { assert(r@ =~= decimal_chars(alive as nat) + "/"@ + decimal_chars(total as nat)); }
            r
        },
        _ => String::from_str("—"),
    }
}

/// Whether a gateway connection accepts incoming forwards, as a label and
/// its pill class.
pub fn forward_pill(conn: &GatewayConnectionModel) -> (r: (&'static str, &'static str))
    ensures
        conn.is_incoming_forward_connection_allowed ==> r.0@ == "allowed"@ && r.1@ == "type-pill type-http2"@,
        !conn.is_incoming_forward_connection_allowed ==> r.0@ == "blocked"@ && r.1@ == "type-pill type-drop"@,
{
    if conn.is_incoming_forward_connection_allowed {
        ("allowed", "type-pill type-http2")
    } else {
        ("blocked", "type-pill type-drop")
    }
}

/// The latest sample of a traffic history (0 when there is none).
pub fn latest_sample(history: &Vec<usize>) -> (r: usize)
    ensures
        r == if history@.len() > 0 { history@.last() } else { 0 },
{
    if history.len() > 0 { history[history.len() - 1] } else { 0 }
}

pub open spec fn ip_list_display(ips: Seq<String>) -> Seq<char>
    decreases ips.len(),
{
    if ips.len() == 0 {
        Seq::empty()
    } else if ips.len() == 1 {
        ips[0]@
    } else {
        ip_list_display(ips.drop_last()) + ", "@ + ips.last()@
    }
}

/// The resolved addresses of a domain for display, comma separated; `None`
/// when there are none.
pub fn display_ip_list(ips: &Vec<String>) -> (r: Option<String>)
    ensures
        ips@.len() == 0 ==> r is None,
        ips@.len() > 0 ==> (r matches Some(s) && s@ == ip_list_display(ips@)),
{
    if ips.len() == 0 {
        return None;
    }
    let mut result = String::new();
    let mut i: usize = 0;
    while i < ips.len()
        invariant
            0 <= i <= ips@.len(),
            result@ == ip_list_display(ips@.subrange(0, i as int)),
        decreases ips@.len() - i,
    {
        proof {
            assert(ips@.subrange(0, i + 1).drop_last() == ips@.subrange(0, i as int));
            assert(ips@.subrange(0, i + 1).last() == ips@[i as int]);
        }
        if i > 0 {
            result.append(", ");
        } else {
            proof { assert(ip_list_display(ips@.subrange(0, 0)) =~= Seq::<char>::empty()); }
        }
        result.append(ips[i].as_str());
        proof {
            if i == 0 {
                assert(result@ =~= ips@[0]@);
            }
        }
        i = i + 1;
    }
    proof { assert(ips@.subrange(0, ips@.len() as int) == ips@); }
    Some(result)
}

/// The order of `str`: lexicographic by character (the order of their UTF-8
/// bytes).
pub open spec fn lex_lt(a: Seq<char>, b: Seq<char>) -> bool
    decreases a.len(),
{
    if a.len() == 0 {
        b.len() > 0
    } else if b.len() == 0 {
        false
    } else if a[0] != b[0] {
        a[0] < b[0]
    } else {
        lex_lt(a.drop_first(), b.drop_first())
    }
}

proof fn lemma_lex_transitive(a: Seq<char>, b: Seq<char>, c: Seq<char>)
    requires
        lex_lt(a, b),
        lex_lt(b, c),
    ensures
        lex_lt(a, c),
    decreases a.len(),
{
    if a.len() > 0 && b.len() > 0 && c.len() > 0 && a[0] == b[0] && b[0] == c[0] {
        lemma_lex_transitive(a.drop_first(), b.drop_first(), c.drop_first());
    }
}

proof fn lemma_lex_irreflexive(a: Seq<char>)
    ensures
        !lex_lt(a, a),
    decreases a.len(),
{
    if a.len() > 0 {
        lemma_lex_irreflexive(a.drop_first());
    }
}

proof fn lemma_lex_total(a: Seq<char>, b: Seq<char>)
    ensures
        a == b || lex_lt(a, b) || lex_lt(b, a),
    decreases a.len(),
{
    if a.len() > 0 && b.len() > 0 {
        if a[0] == b[0] {
            lemma_lex_total(a.drop_first(), b.drop_first());
            if a.drop_first() == b.drop_first() {
                assert(a =~= seq![a[0]] + a.drop_first());
                assert(b =~= seq![b[0]] + b.drop_first());
            }
        }
    } else if a.len() == 0 && b.len() == 0 {
        assert(a =~= b);
    }
}

/// `a < b` for strings.
pub fn str_lt(a: &str, b: &str) -> (r: bool)
    ensures
        r == lex_lt(a@, b@),
{
    let n = a.unicode_len();
    let m = b.unicode_len();
    let mut i: usize = 0;
    proof {
        assert(a@.skip(0) =~= a@);
        assert(b@.skip(0) =~= b@);
    }
    while i < n && i < m
        invariant
            n == a@.len(),
            m == b@.len(),
            0 <= i <= n,
            i <= m,
            lex_lt(a@, b@) == lex_lt(a@.skip(i as int), b@.skip(i as int)),
        decreases n - i,
    {
        let x = a.get_char(i);
        let y = b.get_char(i);
        if x != y {
            proof {
                assert(a@.skip(i as int)[0] == x);
                assert(b@.skip(i as int)[0] == y);
            }
            return x < y;
        }
        proof {
            assert(a@.skip(i as int).drop_first() =~= a@.skip(i + 1));
            assert(b@.skip(i as int).drop_first() =~= b@.skip(i + 1));
        }
        i = i + 1;
    }
    i < m && i == n
}

/// The strings of `s` in strictly increasing order.
pub open spec fn strictly_sorted(s: Seq<String>) -> bool {
    forall|i: int, j: int| 0 <= i < j < s.len() ==> lex_lt((#[trigger] s[i])@, (#[trigger] s[j])@)
}

pub open spec fn texts(s: Seq<String>) -> Set<Seq<char>> {
    Set::new(|t: Seq<char>| exists|i: int| 0 <= i < s.len() && (#[trigger] s[i])@ == t)
}

/// Adds `k` to a strictly sorted list of strings, unless it is there.
fn insert_sorted(keys: &mut Vec<String>, k: &String)
    requires
        strictly_sorted(old(keys)@),
    ensures
        strictly_sorted(final(keys)@),
        texts(final(keys)@) == texts(old(keys)@).insert(k@),
{
    let ghost old_keys = keys@;
    let mut i: usize = 0;
    while i < keys.len() && str_lt(keys[i].as_str(), k.as_str())
        invariant
            keys@ == old_keys,
            0 <= i <= keys@.len(),
            forall|j: int| 0 <= j < i ==> lex_lt((#[trigger] keys@[j])@, k@),
        decreases keys@.len() - i,
    {
        i = i + 1;
    }
    if i < keys.len() && str_eq(keys[i].as_str(), k.as_str()) {
        proof {
            assert(texts(keys@) =~= texts(old_keys).insert(k@));
        }
        return;
    }
    proof {
        if i < keys@.len() {
            lemma_lex_total(keys@[i as int]@, k@);
        }
    }
    keys.insert(i, k.clone());
    proof {
        let s = keys@;
        assert forall|p: int, q: int| 0 <= p < q < s.len() implies lex_lt((#[trigger] s[p])@, (#[trigger] s[q])@) by {
            if q < i {
                assert(s[p] == old_keys[p] && s[q] == old_keys[q]);
            } else if q == i {
                assert(s[p] == old_keys[p]);
            } else if p < i {
                assert(s[p] == old_keys[p] && s[q] == old_keys[q - 1]);
            } else if p == i {
                assert(s[q] == old_keys[q - 1]);
                if q - 1 > i {
                    lemma_lex_transitive(k@, old_keys[i as int]@, old_keys[q - 1]@);
                }
            } else {
                assert(s[p] == old_keys[p - 1] && s[q] == old_keys[q - 1]);
            }
        }
        assert forall|t: Seq<char>| texts(s).contains(t) <==> texts(old_keys).insert(k@).contains(t) by {
            if texts(s).contains(t) {
                let j = choose|j: int| 0 <= j < s.len() && (#[trigger] s[j])@ == t;
                if j < i { assert(s[j] == old_keys[j]); } else if j > i { assert(s[j] == old_keys[j - 1]); }
            }
            if texts(old_keys).contains(t) {
                let j = choose|j: int| 0 <= j < old_keys.len() && (#[trigger] old_keys[j])@ == t;
                if j < i { assert(s[j] == old_keys[j]); } else { assert(s[j + 1] == old_keys[j]); }
            }
            if t == k@ {
                assert(s[i as int]@ == t);
            }
        }
        assert(texts(s) =~= texts(old_keys).insert(k@));
    }
}

/// What a route table of a gateway connection holds: route → connections.
pub uninterp spec fn route_counts(m: HashMap<String, usize>) -> Map<Seq<char>, usize>;

/// `HashMap::iter` of a route table, each pair copied out: every route
/// exactly once, with its count, in the map's own order.
#[verifier::external_body]
fn route_pairs(m: &HashMap<String, usize>) -> (r: Vec<(String, usize)>)
    ensures
        forall|i: int| 0 <= i < r@.len() ==> route_counts(*m).contains_key(#[trigger] r@[i].0@)
            && route_counts(*m)[r@[i].0@] == r@[i].1,
        forall|k: Seq<char>| route_counts(*m).contains_key(k) ==> exists|i: int| 0 <= i < r@.len() && #[trigger] r@[i].0@ == k,
{
    m.iter().map(|(k, v)| (k.clone(), *v)).collect()
}

pub open spec fn count_or_zero(m: Map<Seq<char>, usize>, k: Seq<char>) -> usize {
    if m.contains_key(k) { m[k] } else { 0 }
}

fn count_in(pairs: &Vec<(String, usize)>, k: &String, Ghost(m): Ghost<Map<Seq<char>, usize>>) -> (r: usize)
    requires
        forall|i: int| 0 <= i < pairs@.len() ==> m.contains_key(#[trigger] pairs@[i].0@) && m[pairs@[i].0@] == pairs@[i].1,
        forall|t: Seq<char>| m.contains_key(t) ==> exists|i: int| 0 <= i < pairs@.len() && #[trigger] pairs@[i].0@ == t,
    ensures
        r == count_or_zero(m, k@),
{
    let mut i: usize = 0;
    while i < pairs.len()
        invariant
            0 <= i <= pairs@.len(),
            forall|j: int| 0 <= j < i ==> (#[trigger] pairs@[j]).0@ != k@,
            forall|j: int| 0 <= j < pairs@.len() ==> m.contains_key(#[trigger] pairs@[j].0@) && m[pairs@[j].0@] == pairs@[j].1,
        decreases pairs@.len() - i,
    {
        if str_eq(pairs[i].0.as_str(), k.as_str()) {
            return pairs[i].1;
        }
        i = i + 1;
    }
    proof {
        if m.contains_key(k@) {
            let j = choose|j: int| 0 <= j < pairs@.len() && #[trigger] pairs@[j].0@ == k@;
            assert(pairs@[j].0@ != k@);
        }
    }
    0
}

/// The routes of a gateway connection: every route it forwards or proxies,
/// once, in increasing order, with its forward and proxy connection counts
/// (0 where it has none).
pub fn gateway_route_rows(conn: &GatewayConnectionModel) -> (r: Vec<(String, usize, usize)>)
    ensures
        forall|i: int, j: int| 0 <= i < j < r@.len() ==> lex_lt((#[trigger] r@[i]).0@, (#[trigger] r@[j]).0@),
        forall|t: Seq<char>| (exists|i: int| 0 <= i < r@.len() && #[trigger] r@[i].0@ == t)
            <==> (route_counts(conn.forward_routes).contains_key(t) || route_counts(conn.proxy_routes).contains_key(t)),
        forall|i: int| 0 <= i < r@.len() ==> (#[trigger] r@[i]).1 == count_or_zero(route_counts(conn.forward_routes), r@[i].0@)
            && r@[i].2 == count_or_zero(route_counts(conn.proxy_routes), r@[i].0@),
{
    let forward = route_pairs(&conn.forward_routes);
    let proxy = route_pairs(&conn.proxy_routes);
    let ghost fm = route_counts(conn.forward_routes);
    let ghost pm = route_counts(conn.proxy_routes);
    let mut keys: Vec<String> = Vec::new();
    let mut i: usize = 0;
    while i < forward.len()
        invariant
            0 <= i <= forward@.len(),
            strictly_sorted(keys@),
            texts(keys@) == Set::new(|t: Seq<char>| exists|j: int| 0 <= j < i && (#[trigger] forward@[j]).0@ == t),
        decreases forward@.len() - i,
    {
        insert_sorted(&mut keys, &forward[i].0);
        proof {
            assert(texts(keys@) =~= Set::new(|t: Seq<char>| exists|j: int| 0 <= j < i + 1 && (#[trigger] forward@[j]).0@ == t)) by {
                assert forall|t: Seq<char>| texts(keys@).contains(t) implies
                    exists|j: int| 0 <= j < i + 1 && (#[trigger] forward@[j]).0@ == t by {
                    if t == forward@[i as int].0@ {
                    } else {
                        let j = choose|j: int| 0 <= j < i && (#[trigger] forward@[j]).0@ == t;
                        assert(0 <= j < i + 1 && forward@[j].0@ == t);
                    }
                }
            }
        }
        i = i + 1;
    }
    let mut i: usize = 0;
    while i < proxy.len()
        invariant
            0 <= i <= proxy@.len(),
            strictly_sorted(keys@),
            texts(keys@) == Set::new(|t: Seq<char>| (exists|j: int| 0 <= j < forward@.len() && (#[trigger] forward@[j]).0@ == t)
                || (exists|j: int| 0 <= j < i && (#[trigger] proxy@[j]).0@ == t)),
        decreases proxy@.len() - i,
    {
        insert_sorted(&mut keys, &proxy[i].0);
        proof {
            assert(texts(keys@) =~= Set::new(|t: Seq<char>| (exists|j: int| 0 <= j < forward@.len() && (#[trigger] forward@[j]).0@ == t)
                || (exists|j: int| 0 <= j < i + 1 && (#[trigger] proxy@[j]).0@ == t))) by {
                assert forall|t: Seq<char>| #![auto] texts(keys@).contains(t) implies
                    ((exists|j: int| 0 <= j < forward@.len() && (#[trigger] forward@[j]).0@ == t)
                    || (exists|j: int| 0 <= j < i + 1 && (#[trigger] proxy@[j]).0@ == t)) by {
                    if t == proxy@[i as int].0@ {
                    } else if exists|j: int| 0 <= j < i && (#[trigger] proxy@[j]).0@ == t {
                        let j = choose|j: int| 0 <= j < i && (#[trigger] proxy@[j]).0@ == t;
                        assert(0 <= j < i + 1 && proxy@[j].0@ == t);
                    }
                }
                assert forall|t: Seq<char>| #![auto] ((exists|j: int| 0 <= j < forward@.len() && (#[trigger] forward@[j]).0@ == t)
                    || (exists|j: int| 0 <= j < i + 1 && (#[trigger] proxy@[j]).0@ == t)) implies texts(keys@).contains(t) by {
                    if exists|j: int| 0 <= j < i + 1 && (#[trigger] proxy@[j]).0@ == t {
                        let j = choose|j: int| 0 <= j < i + 1 && (#[trigger] proxy@[j]).0@ == t;
                        if j < i {
                            assert(exists|j2: int| 0 <= j2 < i && (#[trigger] proxy@[j2]).0@ == t);
                        }
                    }
                }
            }
        }
        i = i + 1;
    }
    let mut rows: Vec<(String, usize, usize)> = Vec::new();
    let mut i: usize = 0;
    while i < keys.len()
        invariant
            0 <= i <= keys@.len(),
            rows@.len() == i,
            forall|j: int| 0 <= j < forward@.len() ==> fm.contains_key(#[trigger] forward@[j].0@) && fm[forward@[j].0@] == forward@[j].1,
            forall|t: Seq<char>| fm.contains_key(t) ==> exists|j: int| 0 <= j < forward@.len() && #[trigger] forward@[j].0@ == t,
            forall|j: int| 0 <= j < proxy@.len() ==> pm.contains_key(#[trigger] proxy@[j].0@) && pm[proxy@[j].0@] == proxy@[j].1,
            forall|t: Seq<char>| pm.contains_key(t) ==> exists|j: int| 0 <= j < proxy@.len() && #[trigger] proxy@[j].0@ == t,
            forall|j: int| 0 <= j < i ==> (#[trigger] rows@[j]).0@ == keys@[j]@
                && rows@[j].1 == count_or_zero(fm, keys@[j]@) && rows@[j].2 == count_or_zero(pm, keys@[j]@),
        decreases keys@.len() - i,
    {
        let f = count_in(&forward, &keys[i], Ghost(fm));
        let p = count_in(&proxy, &keys[i], Ghost(pm));
        rows.push((keys[i].clone(), f, p));
        i = i + 1;
    }
    proof {
        assert forall|a: int, b: int| 0 <= a < b < rows@.len() implies lex_lt((#[trigger] rows@[a]).0@, (#[trigger] rows@[b]).0@) by {
            assert(lex_lt(keys@[a]@, keys@[b]@));
        }
        assert forall|t: Seq<char>| (exists|k: int| 0 <= k < rows@.len() && #[trigger] rows@[k].0@ == t)
            <==> (fm.contains_key(t) || pm.contains_key(t)) by {
            if exists|k: int| 0 <= k < rows@.len() && #[trigger] rows@[k].0@ == t {
                let k = choose|k: int| 0 <= k < rows@.len() && #[trigger] rows@[k].0@ == t;
                assert(texts(keys@).contains(t));
                if exists|j: int| 0 <= j < forward@.len() && (#[trigger] forward@[j]).0@ == t {
                    let j = choose|j: int| 0 <= j < forward@.len() && (#[trigger] forward@[j]).0@ == t;
                    assert(fm.contains_key(forward@[j].0@));
                } else {
                    let j = choose|j: int| 0 <= j < proxy@.len() && (#[trigger] proxy@[j]).0@ == t;
                    assert(pm.contains_key(proxy@[j].0@));
                }
            }
            if fm.contains_key(t) || pm.contains_key(t) {
                if fm.contains_key(t) {
                    let j = choose|j: int| 0 <= j < forward@.len() && #[trigger] forward@[j].0@ == t;
                    assert(texts(keys@).contains(t));
                } else {
                    let j = choose|j: int| 0 <= j < proxy@.len() && #[trigger] proxy@[j].0@ == t;
                    assert(texts(keys@).contains(t));
                }
                let k = choose|k: int| 0 <= k < keys@.len() && (#[trigger] keys@[k])@ == t;
                assert(rows@[k].0@ == t);
            }
        }
    }
    rows
}

} // verus!
