//! The decisions of the client request loop between reading a request head
//! and handing it to an upstream: which host the request names, whether the
//! endpoint must be resolved again, how a `dynamic` location picks its
//! upstream from the `proxy-to` header, how a refused request is answered,
//! and whether the connection stays open afterwards.
use vstd::prelude::*;
use std::sync::Arc;
use crate::endpoint::HttpEndpointInfo;
use crate::errors::{ErrorHandling, ProxyServerError, page_view};
use crate::headers::Http1Headers;
use crate::proxy_pass::{
    connection_key, connection_key_spec, DynamicProxyConfig, MyReverseProxyRemoteEndpoint, PoolTuning,
    ProxyPassToConfig, ProxyPassToModel, RemoteEndpoint, Scheme, DEFAULT_POOL_HOT_WINDOW_MS,
    DEFAULT_POOL_PING_TIMEOUT_MS, DEFAULT_POOL_SIZE,
};
use crate::text::{eq_ignore_ascii_case, eq_ignore_ascii_case_spec, find_char, trim_spec, trim_str};
use crate::errors::NetworkError;
use crate::proxy_logs::{buffer_or_empty, push_ring, ProxyLogEntry, ProxyLogs};
use crate::errors::{handling_page, handling_registers_ip_failure, handling_status_5xx};
use crate::templates::{layout_page, ErrorTemplates};
use crate::upstream_policy::ResponseEvent;

verus! {

/// What `str::from_utf8` makes of a byte string: its characters when the
/// bytes are valid UTF-8, nothing otherwise.
pub uninterp spec fn utf8_decode(bytes: Seq<u8>) -> Option<Seq<char>>;

/// `std::str::from_utf8`, with the text copied out.
#[verifier::external_body]
fn decode_utf8(bytes: &[u8]) -> (r: Option<String>)
    ensures
        match r {
            Some(s) => utf8_decode(bytes@) == Some(s@),
            None => utf8_decode(bytes@) is None,
        },
{
    std::str::from_utf8(bytes).ok().map(|s| s.to_string())
}

/// `s` up to its first `:`.
pub open spec fn before_colon(s: Seq<char>) -> Seq<char> {
    if exists|i: int| 0 <= i < s.len() && s[i] == ':' {
        let i = choose|i: int| 0 <= i < s.len() && s[i] == ':' && forall|j: int| 0 <= j < i ==> s[j] != ':';
        s.take(i)
    } else {
        s
    }
}

/// The host a request names (its `Host` value without the port, trimmed),
/// as counted per domain.
pub open spec fn request_host_spec(buf: Seq<u8>, host_value: Option<(usize, usize)>) -> Option<Seq<char>> {
    match host_value {
        None => None,
        Some((start, end)) => if end > buf.len() {
            None
        } else {
            match utf8_decode(buf.subrange(start as int, end as int)) {
                Some(s) => Some(trim_spec(before_colon(s))),
                None => None,
            }
        },
    }
}

/// The host of the request whose head sits in `buf`: `None` when it has no
/// `Host` header, the header lies beyond the buffer, or its value is not
/// UTF-8.
pub fn request_host_for_metric(buf: &[u8], headers: &Http1Headers) -> (r: Option<String>)
    requires
        match headers.host_value {
            Some((start, end)) => start <= end,
            None => true,
        },
    ensures
        match r {
            Some(s) => request_host_spec(buf@, headers.host_value) == Some(s@),
            None => request_host_spec(buf@, headers.host_value) is None,
        },
{
    match headers.host_value {
        None => None,
        Some((start, end)) => {
            if end > buf.len() {
                return None;
            }
            let value = vstd::slice::slice_subrange(buf, start, end);
            match decode_utf8(value) {
                None => None,
                Some(text) => {
                    let host = text.as_str();
                    let no_port = match find_char(host, ':') {
                        Some(i) => {
                            proof {
                                let k = choose|k: int| 0 <= k < host@.len() && host@[k] == ':'
                                    && forall|j: int| 0 <= j < k ==> host@[j] != ':';
                                if k < i { assert(host@[k] == ':'); }
                                if i < k { assert(host@[i as int] == ':'); }
                            }
                            host.substring_char(0, i)
                        },
                        None => host,
                    };
                    proof {
                        if !(exists|i: int| 0 <= i < host@.len() && host@[i] == ':') {
                            assert(before_colon(host@) == host@);
                        }
                        assert(no_port@ =~= before_colon(host@));
                    }
                    let trimmed = trim_str(no_port);
                    Some(trimmed.to_string())
                },
            }
        },
    }
}

pub open spec fn needs_resolve_spec(current: Option<HttpEndpointInfo>, request_host: Option<Seq<char>>) -> bool {
    match current {
        None => true,
        Some(e) => match request_host {
            Some(h) => !e.serves(h),
            None => false,
        },
    }
}

/// Whether the endpoint of a connection must be looked up again for this
/// request: when none is known yet, or when the request names a host the
/// current endpoint does not serve.
pub fn needs_endpoint_resolve(current: Option<&HttpEndpointInfo>, request_host: Option<&str>) -> (r: bool)
    requires
        match current {
            Some(e) => e.wf(),
            None => true,
        },
    ensures
        r == needs_resolve_spec(
            match current { Some(e) => Some(*e), None => None },
            match request_host { Some(h) => Some(h@), None => None },
        ),
{
    match current {
        None => true,
        Some(e) => match request_host {
            Some(h) => !e.is_my_endpoint(h),
            None => false,
        },
    }
}

/// What the `proxy-to` header of a request to a `dynamic` location held.
#[derive(Debug)]
pub enum ProxyToHeader {
    Missing,
    /// Present, but not a remote endpoint.
    Unparsable,
    Parsed(RemoteEndpoint),
}

pub open spec fn is_web_scheme(s: Option<Scheme>) -> bool {
    match s {
        Some(Scheme::Http) | Some(Scheme::Https) | Some(Scheme::Ws) | Some(Scheme::Wss) => true,
        _ => false,
    }
}

pub open spec fn host_allowed(allowed: Option<Vec<String>>, host: Seq<char>) -> bool {
    match allowed {
        None => true,
        Some(v) => exists|i: int| 0 <= i < v@.len() && eq_ignore_ascii_case_spec((#[trigger] v@[i])@, host),
    }
}

/// A `dynamic` location's upstream for one request: the `proxy-to` target
/// reached directly with the location's timeouts and the default pool
/// tuning, plus the `host:port` that replaces the request's `Host`.
pub open spec fn is_dynamic_target(r: (ProxyPassToConfig, String), config: DynamicProxyConfig, target: RemoteEndpoint) -> bool {
    &&& r.0 matches ProxyPassToConfig::Http1(m)
        && m.remote_host matches MyReverseProxyRemoteEndpoint::Direct { remote_host }
        && *remote_host == target
        && m.request_timeout_ms == config.request_timeout_ms
        && m.connect_timeout_ms == config.connect_timeout_ms
        && m.pool_tuning.pool_size == DEFAULT_POOL_SIZE
        && m.pool_tuning.ping_timeout_ms == DEFAULT_POOL_PING_TIMEOUT_MS
        && m.pool_tuning.hot_window_ms == DEFAULT_POOL_HOT_WINDOW_MS
    &&& r.1@ == target.host_port@
}

fn host_is_allowed(allowed: &Vec<String>, host: &str) -> (r: bool)
    ensures
        r == exists|i: int| 0 <= i < allowed@.len() && eq_ignore_ascii_case_spec((#[trigger] allowed@[i])@, host@),
{
    let mut i: usize = 0;
    while i < allowed.len()
        invariant
            0 <= i <= allowed@.len(),
            forall|j: int| 0 <= j < i ==> !eq_ignore_ascii_case_spec((#[trigger] allowed@[j])@, host@),
        decreases allowed@.len() - i,
    {
        if eq_ignore_ascii_case(allowed[i].as_str(), host) {
            return true;
        }
        i = i + 1;
    }
    false
}

/// Resolves a `dynamic` location for one request from its `proxy-to`
/// header: a missing header, a target that is not an http(s) or ws(s)
/// endpoint, or a host outside the location's allow-list refuses the
/// request; otherwise the request goes straight to the target.
pub fn resolve_dynamic_target(config: &DynamicProxyConfig, proxy_to: ProxyToHeader) -> (r: Result<(ProxyPassToConfig, String), ProxyServerError>)
    ensures
        match proxy_to {
            ProxyToHeader::Missing => r matches Err(ProxyServerError::ProxyToHeaderMissing),
            ProxyToHeader::Unparsable => r matches Err(ProxyServerError::ProxyToHeaderInvalid),
            ProxyToHeader::Parsed(target) => if !is_web_scheme(target.scheme) {
                r matches Err(ProxyServerError::ProxyToHeaderInvalid)
            } else if !host_allowed(config.allowed_hosts, target.host@) {
                r matches Err(ProxyServerError::ProxyToHostNotAllowed)
            } else {
                r matches Ok(t) && is_dynamic_target(t, *config, target)
            },
        },
{
    let target = match proxy_to {
        ProxyToHeader::Missing => return Err(ProxyServerError::ProxyToHeaderMissing),
        ProxyToHeader::Unparsable => return Err(ProxyServerError::ProxyToHeaderInvalid),
        ProxyToHeader::Parsed(t) => t,
    };
    let web = match target.scheme {
        Some(Scheme::Http) | Some(Scheme::Https) | Some(Scheme::Ws) | Some(Scheme::Wss) => true,
        _ => false,
    };
    if !web {
        return Err(ProxyServerError::ProxyToHeaderInvalid);
    }
    match &config.allowed_hosts {
        Some(allowed) => {
            if !host_is_allowed(allowed, target.host.as_str()) {
                return Err(ProxyServerError::ProxyToHostNotAllowed);
            }
        },
        None => {},
    }
    let host_port = target.host_port.clone();
    let model = ProxyPassToModel {
        remote_host: MyReverseProxyRemoteEndpoint::Direct { remote_host: Arc::new(target) },
        request_timeout_ms: config.request_timeout_ms,
        connect_timeout_ms: config.connect_timeout_ms,
        pool_tuning: PoolTuning::default_tuning(),
    };
    Ok((ProxyPassToConfig::Http1(model), host_port))
}

/// What answering a refused request comes to, besides closing the
/// connection.
pub struct ErrorPlan<'a> {
    /// Count a failure of the source address.
    pub register_ip_failure: bool,
    /// Record this 5xx status in the endpoint's logs.
    pub log_5xx: Option<u16>,
    /// Write this page to the client first.
    pub page: Option<&'a [u8]>,
    /// What becomes of the connection afterwards.
    pub afterwards: ReaderStep,
}

/// Plans the answer to a refused request from its error handling: the source
/// is penalised only when its address is known, a 5xx is logged only when
/// an endpoint was resolved to log it under, and the connection is closed
/// afterwards (the refused request was never consumed, so the connection is
/// out of step).
pub fn respond_error_plan<'a>(handling: &ErrorHandling<'a>, source_address_known: bool, endpoint_known: bool) -> (r: ErrorPlan<'a>)
    ensures
        r.register_ip_failure == (handling.register_ip_failure && source_address_known),
        r.log_5xx == (if endpoint_known { handling.status_5xx } else { None }),
        page_view(r.page) == page_view(handling.page),
        r.afterwards == ReaderStep::Close,
{
    ErrorPlan {
        register_ip_failure: handling.register_ip_failure && source_address_known,
        log_5xx: if endpoint_known { handling.status_5xx } else { None },
        page: handling.page,
        afterwards: ReaderStep::Close,
    }
}

/// The events of the response slot that answers a refused request: its page
/// followed by a clean end, queued only when there is a page and the client
/// writer is still there to take the slot; nothing otherwise.
pub fn error_response_events(page: Option<&[u8]>, writer_alive: bool) -> (r: Vec<ResponseEvent>)
    ensures
        (page is Some && writer_alive) ==> r@.len() == 2 && r@[0] is Chunk
            && r@[0]->Chunk_0@ == page->0@ && r@[1] is Done,
        !(page is Some && writer_alive) ==> r@.len() == 0,
{
    let mut events: Vec<ResponseEvent> = Vec::new();
    match page {
        Some(p) => if writer_alive {
            events.push(ResponseEvent::Chunk(vstd::slice::slice_to_vec(p)));
            events.push(ResponseEvent::Done);
        },
        None => {},
    }
    events
}

pub open spec fn serve_next_spec(request_failed: bool, endpoint_keep_alive: Option<bool>) -> bool {
    !request_failed && match endpoint_keep_alive { Some(k) => k, None => true }
}

/// Whether the single-loop server reads another request on the connection
/// after one: a request that failed was answered by its error handling and
/// never consumed from the read buffer, so the loop stops and the
/// connection closes; one that went through ends the loop only on an
/// endpoint without keep-alive.
pub fn serve_next_request(request_failed: bool, endpoint_keep_alive: Option<bool>) -> (r: bool)
    ensures
        r == serve_next_spec(request_failed, endpoint_keep_alive),
{
    !request_failed && !close_after_request(endpoint_keep_alive)
}

/// A failed request stops the request loop: the single-loop server reads no
/// further request after it, and the pipelined reader answers it and
/// finishes dispatching.
pub proof fn lemma_failed_request_stops_the_loop(endpoint_keep_alive: Option<bool>, stage: DispatchStage, event: DispatchEvent)
    ensures
        !serve_next_spec(true, endpoint_keep_alive),
        dispatch_spec(stage, event).1 is RespondError ==> dispatch_spec(stage, event).0 == DispatchStage::Finished,
{
}

/// What the reader decided about the connection after one request.
#[derive(Clone, Copy, Debug, PartialEq, Eq)]
pub enum ReaderStep {
    /// Read the next request on this connection.
    Continue,
    /// Close the connection.
    Close,
    /// The request upgrades the connection to a tunnel.
    Upgrade,
}

/// After a request was dispatched and its body forwarded: the connection
/// stays open only on a keep-alive endpoint whose body went through.
pub fn after_request_step(keep_alive: bool, body_forwarded: bool) -> (r: ReaderStep)
    ensures
        r == (if keep_alive && body_forwarded { ReaderStep::Continue } else { ReaderStep::Close }),
{
    if keep_alive && body_forwarded { ReaderStep::Continue } else { ReaderStep::Close }
}

/// After a response the proxy produced itself (static content, a file) was
/// queued: a writer that is gone closes the connection, and so does an
/// endpoint without keep-alive.
pub fn after_local_response_step(writer_alive: bool, keep_alive: bool) -> (r: ReaderStep)
    ensures
        r == (if writer_alive && keep_alive { ReaderStep::Continue } else { ReaderStep::Close }),
{
    if !writer_alive {
        ReaderStep::Close
    } else if !keep_alive {
        ReaderStep::Close
    } else {
        ReaderStep::Continue
    }
}

/// Whether the single-loop server closes the connection after a request that
/// went through: only when the resolved endpoint does not keep connections
/// alive.
pub fn close_after_request(endpoint_keep_alive: Option<bool>) -> (r: bool)
    ensures
        r == match endpoint_keep_alive { Some(k) => !k, None => false },
{
    match endpoint_keep_alive {
        Some(k) => !k,
        None => false,
    }
}

/// A request that upgrades its connection to a tunnel: the pool key of the
/// upstream connection that carries it.
pub struct WebSocketUpgradeResult {
    pub upstream_key: String,
}

impl WebSocketUpgradeResult {
    pub fn for_upstream(proxy_pass_to: &ProxyPassToConfig) -> (r: Self)
        ensures
            r.upstream_key@ == connection_key_spec(*proxy_pass_to),
    {
        WebSocketUpgradeResult { upstream_key: connection_key(proxy_pass_to) }
    }
}

/// A request in flight on an upstream connection, collecting its response.
#[derive(Debug)]
pub struct H1CurrentRequest {
    pub connection_id: u64,
    pub buffer: Vec<u8>,
    pub done: bool,
}

impl H1CurrentRequest {
    pub fn new(connection_id: u64) -> (r: Self)
        ensures
            r.connection_id == connection_id,
            r.buffer@ == Seq::<u8>::empty(),
            !r.done,
    {
        H1CurrentRequest { connection_id, buffer: Vec::new(), done: false }
    }
}

/// Everything needed to turn one request into a tunnel, handed by the reader
/// to the connection entry.
pub struct UpgradeContext {
    pub proxy_pass_to: ProxyPassToConfig,
    pub end_point_info: Arc<HttpEndpointInfo>,
    pub location_id: i64,
    /// The compiled request head, with its upgrade headers.
    pub head: Vec<u8>,
    pub write_timeout_ms: u64,
}

/// What the single-loop server does after trying to send a request head to
/// the upstream connection it holds for the location.
#[derive(Debug)]
pub enum HeadSendStep {
    /// The head went out: forward the body.
    Forward,
    /// The held connection is stale: drop it, connect again and resend.
    Reconnect,
    /// The fresh connection failed too: the request fails.
    Fail(ProxyServerError),
}

/// A head that could not be sent on the held connection is sent once more
/// on a fresh one; if that fails as well the request fails with "can not
/// write content to remote connection".
pub fn head_send_step(on_fresh_connection: bool, sent: bool) -> (r: HeadSendStep)
    ensures
        sent ==> r is Forward,
        !sent && !on_fresh_connection ==> r is Reconnect,
        !sent && on_fresh_connection ==> (r matches HeadSendStep::Fail(
            ProxyServerError::CanNotWriteContentToRemoteConnection(NetworkError::OtherStr(m)))
            && m@ == "Remote resource is disconnected"@),
{
    if sent {
        HeadSendStep::Forward
    } else if !on_fresh_connection {
        HeadSendStep::Reconnect
    } else {
        proof { reveal_strlit("Remote resource is disconnected"); }
        HeadSendStep::Fail(ProxyServerError::CanNotWriteContentToRemoteConnection(
            NetworkError::OtherStr("Remote resource is disconnected"),
        ))
    }
}

/// The failure of a request whose upstream connection dropped before its
/// response could be read.
pub fn connection_lost_error() -> (r: ProxyServerError)
    ensures
        r matches ProxyServerError::CanNotWriteContentToRemoteConnection(NetworkError::OtherStr(m))
            && m@ == "Remote connection is lost"@,
{
    ProxyServerError::CanNotWriteContentToRemoteConnection(NetworkError::OtherStr("Remote connection is lost"))
}

/// The ways the single-loop server fails to reach an upstream, as logged.
#[derive(Clone, Copy, Debug, PartialEq, Eq)]
pub enum UpstreamFailure {
    Connect,
    Reconnect,
    HeadersRejectedAgain,
    BodyTransfer,
}

pub open spec fn upstream_failure_message_spec(kind: UpstreamFailure, upstream: Seq<char>, detail: Seq<char>) -> Seq<char> {
    match kind {
        UpstreamFailure::Connect => "Can not connect to upstream "@ + upstream + ": "@ + detail,
        UpstreamFailure::Reconnect => "Can not reconnect to upstream "@ + upstream + ": "@ + detail,
        UpstreamFailure::HeadersRejectedAgain => "Upstream "@ + upstream + " reconnected but sending request headers failed again"@,
        UpstreamFailure::BodyTransfer => "Upstream "@ + upstream + " request failed transferring request body: "@ + detail,
    }
}

/// The location log line of an upstream that could not be reached;
/// `detail` is the debug text of the error.
pub fn upstream_failure_message(kind: UpstreamFailure, upstream: &str, detail: &str) -> (r: String)
    ensures
        r@ == upstream_failure_message_spec(kind, upstream@, detail@),
{
    match kind {
        UpstreamFailure::Connect => {
            let mut r = String::from_str("Can not connect to upstream ");
            r.append(upstream);
            r.append(": ");
            r.append(detail);
            r
        },
        UpstreamFailure::Reconnect => {
            let mut r = String::from_str("Can not reconnect to upstream ");
            r.append(upstream);
            r.append(": ");
            r.append(detail);
            r
        },
        UpstreamFailure::HeadersRejectedAgain => {
            let mut r = String::from_str("Upstream ");
            r.append(upstream);
            r.append(" reconnected but sending request headers failed again");
            r
        },
        UpstreamFailure::BodyTransfer => {
            let mut r = String::from_str("Upstream ");
            r.append(upstream);
            r.append(" request failed transferring request body: ");
            r.append(detail);
            r
        },
    }
}

/// Upstream-reach failures are recorded under the location.
pub fn log_upstream_failure(logs: &mut ProxyLogs, location_id: i64, message: String, moment: i64)
    requires
        old(logs).wf(),
    ensures
        final(logs).wf(),
        final(logs).by_port() == old(logs).by_port(),
        final(logs).by_endpoint() == old(logs).by_endpoint(),
        final(logs).by_location() == old(logs).by_location().insert(location_id,
            push_ring(buffer_or_empty(old(logs).by_location(), location_id), ProxyLogEntry { moment, message })),
{
    logs.write_location(location_id, message, moment);
}

/// Where the reader stands in dispatching one request.
#[derive(Clone, Copy, Debug, PartialEq, Eq)]
pub enum DispatchStage {
    /// Reading the request head.
    ReadingHead,
    /// Looking up the endpoint's location for the request.
    FindingLocation,
    /// Running the location's authorization.
    Authorizing,
    /// Checking the authorized identity against the endpoint's user list.
    CheckingUser,
    /// The request is through; nothing more is decided here.
    Finished,
}

/// What the step before reported.
pub enum DispatchEvent {
    HeadRead,
    /// No head could be read (no bytes, or the transport is gone).
    HeadFailed,
    /// A location was found; `is_drop` when it is a `drop` location.
    LocationFound { is_drop: bool },
    LocationFailed(ProxyServerError),
    Authorized,
    AuthorizationFailed(ProxyServerError),
    UserChecked { allowed: bool },
}

/// What the reader does next.
pub enum DispatchAction {
    FindLocation,
    Authorize,
    CheckUser,
    /// Route the request to its content source or upstream.
    Route,
    /// Close the connection without an answer.
    Close,
    /// Answer the request as the error's handling says.
    RespondError(ProxyServerError),
}

pub open spec fn dispatch_spec(stage: DispatchStage, event: DispatchEvent) -> (DispatchStage, DispatchAction) {
    match (stage, event) {
        (DispatchStage::ReadingHead, DispatchEvent::HeadRead) => (DispatchStage::FindingLocation, DispatchAction::FindLocation),
        (DispatchStage::FindingLocation, DispatchEvent::LocationFound { is_drop }) => if is_drop {
            (DispatchStage::Finished, DispatchAction::Close)
        } else {
            (DispatchStage::Authorizing, DispatchAction::Authorize)
        },
        (DispatchStage::FindingLocation, DispatchEvent::LocationFailed(e)) => (DispatchStage::Finished, DispatchAction::RespondError(e)),
        (DispatchStage::Authorizing, DispatchEvent::Authorized) => (DispatchStage::CheckingUser, DispatchAction::CheckUser),
        (DispatchStage::Authorizing, DispatchEvent::AuthorizationFailed(e)) => (DispatchStage::Finished, DispatchAction::RespondError(e)),
        (DispatchStage::CheckingUser, DispatchEvent::UserChecked { allowed }) => if allowed {
            (DispatchStage::Finished, DispatchAction::Route)
        } else {
            (DispatchStage::Finished, DispatchAction::RespondError(ProxyServerError::NotAuthorized))
        },
        _ => (DispatchStage::Finished, DispatchAction::Close),
    }
}

/// One step of dispatching a request: the head is read, the location is
/// looked up, a `drop` location closes the connection at once, then the
/// request is authorized and its user checked before it is routed.  Any
/// failure is answered by its error handling; an event that does not fit
/// the stage (or an unreadable head) closes the connection.
pub fn dispatch_step(stage: DispatchStage, event: DispatchEvent) -> (r: (DispatchStage, DispatchAction))
    ensures
        r == dispatch_spec(stage, event),
{
    match stage {
        DispatchStage::ReadingHead => match event {
            DispatchEvent::HeadRead => (DispatchStage::FindingLocation, DispatchAction::FindLocation),
            _ => (DispatchStage::Finished, DispatchAction::Close),
        },
        DispatchStage::FindingLocation => match event {
            DispatchEvent::LocationFound { is_drop } => if is_drop {
                (DispatchStage::Finished, DispatchAction::Close)
            } else {
                (DispatchStage::Authorizing, DispatchAction::Authorize)
            },
            DispatchEvent::LocationFailed(e) => (DispatchStage::Finished, DispatchAction::RespondError(e)),
            _ => (DispatchStage::Finished, DispatchAction::Close),
        },
        DispatchStage::Authorizing => match event {
            DispatchEvent::Authorized => (DispatchStage::CheckingUser, DispatchAction::CheckUser),
            DispatchEvent::AuthorizationFailed(e) => (DispatchStage::Finished, DispatchAction::RespondError(e)),
            _ => (DispatchStage::Finished, DispatchAction::Close),
        },
        DispatchStage::CheckingUser => match event {
            DispatchEvent::UserChecked { allowed } => if allowed {
                (DispatchStage::Finished, DispatchAction::Route)
            } else {
                (DispatchStage::Finished, DispatchAction::RespondError(ProxyServerError::NotAuthorized))
            },
            _ => (DispatchStage::Finished, DispatchAction::Close),
        },
        DispatchStage::Finished => (DispatchStage::Finished, DispatchAction::Close),
    }
}

/// A `drop` location closes the connection before any authorization runs:
/// authorization is only ever started right after a location that is not
/// `drop` was found, and a request is only routed after its user passed the
/// check.
pub proof fn lemma_drop_closes_before_authorization(stage: DispatchStage, event: DispatchEvent)
    ensures
        dispatch_spec(DispatchStage::FindingLocation, DispatchEvent::LocationFound { is_drop: true })
            matches (DispatchStage::Finished, DispatchAction::Close),
        dispatch_spec(stage, event).1 is Authorize ==> stage == DispatchStage::FindingLocation
            && event matches DispatchEvent::LocationFound { is_drop: false },
        dispatch_spec(stage, event).1 is Route ==> stage == DispatchStage::CheckingUser
            && event matches DispatchEvent::UserChecked { allowed: true },
{
}

/// A request refused by authorization (a missing or wrong `Authorization`
/// header alike) is answered with the 401 "not authorized" page; it is not
/// logged as a 5xx and does not count against its source address.
pub proof fn lemma_refused_request_gets_401(tpl: ErrorTemplates, app_version: Seq<char>)
    requires
        tpl.built_for(app_version),
    ensures
        handling_page(ProxyServerError::NotAuthorized, tpl)
            == Some(layout_page(401, "Not authorized request"@, None, false, app_version)),
        handling_status_5xx(ProxyServerError::NotAuthorized) is None,
        !handling_registers_ip_failure(ProxyServerError::NotAuthorized),
{
}

} // verus!
