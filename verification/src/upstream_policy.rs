//! The decisions of the per-request upstream worker and of the client
//! writer: when a failed delivery is replayed, which page answers a failure,
//! when a connection is kept for reuse, and how response events are written.
use vstd::prelude::*;
use crate::errors::{NetworkError, ProxyServerError};
use crate::templates::ErrorTemplates;

verus! {

/// Total attempts to deliver one request to an upstream.
pub const MAX_DELIVERY_ATTEMPTS: u32 = 2;

/// What the worker hands the client writer for one response slot.
#[derive(Debug)]
pub enum ResponseEvent {
    Chunk(Vec<u8>),
    Done,
    Abort,
}

/// Whether a failure looks like a connection that went stale (the transport
/// dropped) rather than a broken upstream.  A timeout does not qualify, nor
/// does a parse failure.
pub open spec fn spec_is_stale_connection(err: ProxyServerError) -> bool {
    match err {
        ProxyServerError::NetworkError(e) => !(e is Timeout),
        _ => false,
    }
}

pub fn is_stale_connection(err: &ProxyServerError) -> (r: bool)
    ensures
        r == spec_is_stale_connection(*err),
{
    match err {
        ProxyServerError::NetworkError(e) => !e.is_timeout(),
        _ => false,
    }
}

/// The page that answers an upstream-response failure.
#[derive(Clone, Copy, Debug, PartialEq, Eq)]
pub enum FailurePage {
    RemoteResourceIsNotAvailable,
    ErrorTimeout,
    UpstreamIsNotHttp,
    BadGateway,
}

pub open spec fn classify_spec(err: ProxyServerError) -> FailurePage {
    match err {
        ProxyServerError::NetworkError(e) => if e is Timeout {
            FailurePage::ErrorTimeout
        } else {
            FailurePage::RemoteResourceIsNotAvailable
        },
        _ => FailurePage::UpstreamIsNotHttp,
    }
}

pub open spec fn page_of(p: FailurePage, tpl: ErrorTemplates) -> Seq<u8> {
    match p {
        FailurePage::RemoteResourceIsNotAvailable => tpl.remote_resource_is_not_available@,
        FailurePage::ErrorTimeout => tpl.error_timeout@,
        FailurePage::UpstreamIsNotHttp => tpl.upstream_is_not_http@,
        FailurePage::BadGateway => tpl.error_getting_content_from_remote_resource@,
    }
}

pub fn page_bytes<'a>(p: FailurePage, tpl: &'a ErrorTemplates) -> (r: &'a [u8])
    ensures
        r@ == page_of(p, *tpl),
{
    match p {
        FailurePage::RemoteResourceIsNotAvailable => tpl.remote_resource_is_not_available.as_slice(),
        FailurePage::ErrorTimeout => tpl.error_timeout.as_slice(),
        FailurePage::UpstreamIsNotHttp => tpl.upstream_is_not_http.as_slice(),
        FailurePage::BadGateway => tpl.error_getting_content_from_remote_resource.as_slice(),
    }
}

/// Picks the client error page for an upstream-response failure, with a
/// short label for the logs: unparseable bytes → "upstream is not HTTP"; a
/// timeout → timeout; anything else → "remote resource is not available".
pub fn classify_upstream_failure<'a>(err: &ProxyServerError, tpl: &'a ErrorTemplates) -> (r: (&'a [u8], &'static str))
    ensures
        r.0@ == page_of(classify_spec(*err), *tpl),
        r.1@ == (match classify_spec(*err) {
            FailurePage::ErrorTimeout => "timeout"@,
            FailurePage::RemoteResourceIsNotAvailable => "disconnected"@,
            _ => "non-HTTP response"@,
        }),
{
    match err {
        ProxyServerError::NetworkError(e) => {
            if e.is_timeout() {
                (tpl.error_timeout.as_slice(), "timeout")
            } else {
                (tpl.remote_resource_is_not_available.as_slice(), "disconnected")
            }
        },
        _ => (tpl.upstream_is_not_http.as_slice(), "non-HTTP response"),
    }
}

/// How one delivery attempt ended.
pub enum AttemptOutcome<'e> {
    /// No connection could be acquired.
    ConnectFailed,
    /// The request head could not be written.
    HeadNotSent,
    /// The (buffered, non-empty) request body could not be written.
    BodyNotSent,
    /// Reading the response head failed.
    ResponseHeadFailed(&'e ProxyServerError),
    /// The response head was read but could not be compiled.
    ResponseHeadInvalid(&'e ProxyServerError),
    /// The response head is ready to be handed to the client.
    ResponseReady,
}

/// What the worker does after an attempt.
#[derive(Clone, Copy, Debug, PartialEq, Eq)]
pub enum DeliveryAction {
    /// Drop the connection and try again on another one.
    Retry,
    /// Answer the client with `page`, record `status` in the logs, and mark
    /// the connection disconnected when `disconnect` is set.
    Fail { status: u16, page: FailurePage, disconnect: bool },
    /// Start streaming the response to the client.
    Deliver,
}

pub open spec fn delivery_spec(attempt: u32, reused: bool, outcome: AttemptOutcome) -> DeliveryAction {
    let last_attempt = attempt >= MAX_DELIVERY_ATTEMPTS;
    match outcome {
        AttemptOutcome::ConnectFailed => DeliveryAction::Fail {
            status: 503, page: FailurePage::RemoteResourceIsNotAvailable, disconnect: false,
        },
        AttemptOutcome::HeadNotSent => if reused && !last_attempt {
            DeliveryAction::Retry
        } else {
            DeliveryAction::Fail { status: 503, page: FailurePage::RemoteResourceIsNotAvailable, disconnect: false }
        },
        AttemptOutcome::BodyNotSent => if reused && !last_attempt {
            DeliveryAction::Retry
        } else {
            DeliveryAction::Fail { status: 502, page: FailurePage::BadGateway, disconnect: false }
        },
        AttemptOutcome::ResponseHeadFailed(err) => if reused && !last_attempt && spec_is_stale_connection(*err) {
            DeliveryAction::Retry
        } else {
            DeliveryAction::Fail { status: 502, page: classify_spec(*err), disconnect: true }
        },
        AttemptOutcome::ResponseHeadInvalid(err) => DeliveryAction::Fail {
            status: 502, page: classify_spec(*err), disconnect: true,
        },
        AttemptOutcome::ResponseReady => DeliveryAction::Deliver,
    }
}

/// Decides what follows attempt number `attempt` (counted from 1) on a
/// connection that was `reused` from the idle set or freshly dialled.
///
/// While nothing has reached the client, a failure on a reused connection is
/// treated as staleness and replayed; a failure on a fresh connection is a
/// broken upstream and is answered; a timeout is never replayed.
pub fn delivery_decision(attempt: u32, reused: bool, outcome: &AttemptOutcome) -> (r: DeliveryAction)
    ensures
        r == delivery_spec(attempt, reused, *outcome),
{
    let last_attempt = attempt >= MAX_DELIVERY_ATTEMPTS;
    match outcome {
        AttemptOutcome::ConnectFailed => DeliveryAction::Fail {
            status: 503, page: FailurePage::RemoteResourceIsNotAvailable, disconnect: false,
        },
        AttemptOutcome::HeadNotSent => if reused && !last_attempt {
            DeliveryAction::Retry
        } else {
            DeliveryAction::Fail { status: 503, page: FailurePage::RemoteResourceIsNotAvailable, disconnect: false }
        },
        AttemptOutcome::BodyNotSent => if reused && !last_attempt {
            DeliveryAction::Retry
        } else {
            DeliveryAction::Fail { status: 502, page: FailurePage::BadGateway, disconnect: false }
        },
        AttemptOutcome::ResponseHeadFailed(err) => if reused && !last_attempt && is_stale_connection(err) {
            DeliveryAction::Retry
        } else {
            DeliveryAction::Fail { status: 502, page: classify_page(err), disconnect: true }
        },
        AttemptOutcome::ResponseHeadInvalid(err) => DeliveryAction::Fail {
            status: 502, page: classify_page(err), disconnect: true,
        },
        AttemptOutcome::ResponseReady => DeliveryAction::Deliver,
    }
}

fn classify_page(err: &ProxyServerError) -> (r: FailurePage)
    ensures
        r == classify_spec(*err),
{
    match err {
        ProxyServerError::NetworkError(e) => if e.is_timeout() {
            FailurePage::ErrorTimeout
        } else {
            FailurePage::RemoteResourceIsNotAvailable
        },
        _ => FailurePage::UpstreamIsNotHttp,
    }
}

/// No attempt is ever followed by a replay once the attempt budget is spent.
pub proof fn lemma_replay_is_bounded(attempt: u32, reused: bool, outcome: AttemptOutcome)
    requires
        attempt >= MAX_DELIVERY_ATTEMPTS,
    ensures
        delivery_spec(attempt, reused, outcome) != DeliveryAction::Retry,
{
}

/// A timeout while reading the response is never replayed: the upstream may
/// still be working on the request.
pub proof fn lemma_timeout_is_never_replayed(attempt: u32, reused: bool, err: ProxyServerError)
    requires
        err is NetworkError && err->NetworkError_0 is Timeout,
    ensures
        delivery_spec(attempt, reused, AttemptOutcome::ResponseHeadFailed(&err)) != DeliveryAction::Retry,
{
}

/// A failure on a freshly dialled connection, in writing the request or in
/// reading the response, is answered, not replayed.
pub proof fn lemma_fresh_connection_failure_is_answered(attempt: u32, err: ProxyServerError)
    ensures
        delivery_spec(attempt, false, AttemptOutcome::HeadNotSent) is Fail,
        delivery_spec(attempt, false, AttemptOutcome::BodyNotSent) is Fail,
        delivery_spec(attempt, false, AttemptOutcome::ResponseHeadFailed(&err)) is Fail,
        delivery_spec(attempt, false, AttemptOutcome::ResponseHeadInvalid(&err)) is Fail,
{
}

/// Only a dropped transport is replayed: a response-head failure leads to a
/// retry exactly when the connection was reused, attempts remain, and the
/// error is a network error other than a timeout.  Bytes that are not HTTP
/// (or any other non-network error) are answered at once with the 502
/// "upstream is not HTTP" page and the connection is marked disconnected.
pub proof fn lemma_only_a_dropped_transport_is_replayed(attempt: u32, reused: bool, err: ProxyServerError)
    ensures
        (delivery_spec(attempt, reused, AttemptOutcome::ResponseHeadFailed(&err)) == DeliveryAction::Retry)
            <==> (reused && attempt < MAX_DELIVERY_ATTEMPTS && err is NetworkError
                && !(err->NetworkError_0 is Timeout)),
        !(err is NetworkError) ==> delivery_spec(attempt, reused, AttemptOutcome::ResponseHeadFailed(&err))
            == (DeliveryAction::Fail { status: 502, page: FailurePage::UpstreamIsNotHttp, disconnect: true }),
        !(err is NetworkError) ==> delivery_spec(attempt, reused, AttemptOutcome::ResponseHeadInvalid(&err))
            == (DeliveryAction::Fail { status: 502, page: FailurePage::UpstreamIsNotHttp, disconnect: true }),
{
}

/// A connection whose response ended with `Done` and is safely reusable
/// (self-delimiting framing, a known length or chunked, no leftover bytes,
/// a live socket) is handed back: to the client's mcp slot for an mcp
/// location, to the pool otherwise.
pub proof fn lemma_reusable_connection_is_handed_back(length: usize, chunked: bool, is_mcp: bool)
    ensures
        ({
            let framing = if chunked { HttpContentLength::Chunked } else { HttpContentLength::Known(length) };
            hand_back_spec(true, framing, true, false, is_mcp)
                == (if is_mcp { HandBack::ToMcpSlot } else { HandBack::ToPool })
        }),
        hand_back_spec(true, HttpContentLength::UntilClose, true, false, is_mcp) == HandBack::Close,
{
}

/// An upstream that cannot be reached at all is answered with the 503
/// "remote resource is not available" page on the first attempt.
pub proof fn lemma_connect_failure_is_503(attempt: u32, reused: bool)
    ensures
        delivery_spec(attempt, reused, AttemptOutcome::ConnectFailed)
            == (DeliveryAction::Fail { status: 503, page: FailurePage::RemoteResourceIsNotAvailable, disconnect: false }),
{
}

pub open spec fn failure_label_spec(err: ProxyServerError) -> Seq<char> {
    match classify_spec(err) {
        FailurePage::ErrorTimeout => "timeout"@,
        FailurePage::RemoteResourceIsNotAvailable => "disconnected"@,
        _ => "non-HTTP response"@,
    }
}

/// The log line of a failed delivery attempt that is answered (not
/// replayed), naming the upstream; `detail` is the debug text of the error
/// that stopped it.
pub open spec fn delivery_failure_message_spec(outcome: AttemptOutcome, upstream: Seq<char>, detail: Seq<char>) -> Seq<char> {
    match outcome {
        AttemptOutcome::ConnectFailed => "can not connect to upstream "@ + upstream + ": "@ + detail,
        AttemptOutcome::HeadNotSent => "upstream "@ + upstream + " did not accept request head"@,
        AttemptOutcome::BodyNotSent => "upstream "@ + upstream + " broke while forwarding request body"@,
        AttemptOutcome::ResponseHeadFailed(err) => "reading response head from upstream "@ + upstream + " ("@
            + failure_label_spec(*err) + "): "@ + detail,
        AttemptOutcome::ResponseHeadInvalid(err) => "compiling response head from upstream "@ + upstream + " ("@
            + failure_label_spec(*err) + "): "@ + detail,
        AttemptOutcome::ResponseReady => Seq::empty(),
    }
}

pub fn delivery_failure_message(outcome: &AttemptOutcome, upstream: &str, detail: &str) -> (r: String)
    ensures
        r@ == delivery_failure_message_spec(*outcome, upstream@, detail@),
{
    match outcome {
        AttemptOutcome::ConnectFailed => {
            let mut r = String::from_str("can not connect to upstream ");
            r.append(upstream);
            r.append(": ");
            r.append(detail);
            r
        },
        AttemptOutcome::HeadNotSent => {
            let mut r = String::from_str("upstream ");
            r.append(upstream);
            r.append(" did not accept request head");
            r
        },
        AttemptOutcome::BodyNotSent => {
            let mut r = String::from_str("upstream ");
            r.append(upstream);
            r.append(" broke while forwarding request body");
            r
        },
        AttemptOutcome::ResponseHeadFailed(err) | AttemptOutcome::ResponseHeadInvalid(err) => {
            let stage = match outcome {
                AttemptOutcome::ResponseHeadFailed(_) => "reading response head from upstream ",
                _ => "compiling response head from upstream ",
            };
            let mut r = String::from_str(stage);
            r.append(upstream);
            r.append(" (");
            let (_, label) = classify_upstream_failure_label(err);
            r.append(label);
            r.append("): ");
            r.append(detail);
            r
        },
        AttemptOutcome::ResponseReady => String::new(),
    }
}

fn classify_upstream_failure_label(err: &ProxyServerError) -> (r: (FailurePage, &'static str))
    ensures
        r.0 == classify_spec(*err),
        r.1@ == failure_label_spec(*err),
{
    let page = classify_page(err);
    let label = match page {
        FailurePage::ErrorTimeout => "timeout",
        FailurePage::RemoteResourceIsNotAvailable => "disconnected",
        _ => "non-HTTP response",
    };
    (page, label)
}

/// The events that finish a request that failed before the client received
/// anything: an mcp client gets the connection closed (an HTML page is
/// noise to it), everyone else gets the page followed by a clean end.
pub fn fail_request_events(is_mcp: bool, page: &[u8]) -> (r: Vec<ResponseEvent>)
    ensures
        is_mcp ==> r@.len() == 1 && r@[0] is Abort,
        !is_mcp ==> r@.len() == 2 && r@[0] is Chunk && r@[0]->Chunk_0@ == page@ && r@[1] is Done,
{
    let mut events: Vec<ResponseEvent> = Vec::new();
    if is_mcp {
        events.push(ResponseEvent::Abort);
    } else {
        events.push(ResponseEvent::Chunk(vstd::slice::slice_to_vec(page)));
        events.push(ResponseEvent::Done);
    }
    events
}

/// How a response that started reaching the client ends: once its head is
/// out nothing can be substituted, so a response that turns into an upgrade
/// on this path, or whose body breaks off, is aborted (the client connection
/// closes); one relayed whole ends with `Done`.
pub fn streaming_end(response_is_websocket: bool, body_relayed: bool) -> (r: ResponseEvent)
    ensures
        (response_is_websocket || !body_relayed) ==> r is Abort,
        (!response_is_websocket && body_relayed) ==> r is Done,
{
    if response_is_websocket || !body_relayed {
        ResponseEvent::Abort
    } else {
        ResponseEvent::Done
    }
}

/// How a response body is delimited.
#[derive(Clone, Copy, Debug, PartialEq, Eq)]
pub enum HttpContentLength {
    /// No length is known: the body runs until the connection closes.
    UntilClose,
    Known(usize),
    Chunked,
}

/// Whether a connection may go back to the idle set after a response: only
/// a self-delimiting response with no bytes left over on a live socket.
pub fn keep_for_reuse(framing: HttpContentLength, leftover_is_empty: bool, disconnected: bool) -> (r: bool)
    ensures
        r == ((framing is Known || framing is Chunked) && leftover_is_empty && !disconnected),
{
    let reusable_framing = match framing {
        HttpContentLength::Known(_) | HttpContentLength::Chunked => true,
        HttpContentLength::UntilClose => false,
    };
    reusable_framing && leftover_is_empty && !disconnected
}

/// Where the connection that served a response goes afterwards.
#[derive(Clone, Copy, Debug, PartialEq, Eq)]
pub enum HandBack {
    /// Parked in the client's mcp slot (`McpUpstream::put`).
    ToMcpSlot,
    /// Returned to the pool (`H1PoolHolder::release`).
    ToPool,
    /// Dropped, which closes it.
    Close,
}

pub open spec fn hand_back_spec(done_sent: bool, framing: HttpContentLength, leftover_is_empty: bool, disconnected: bool, is_mcp: bool) -> HandBack {
    if done_sent && (framing is Known || framing is Chunked) && leftover_is_empty && !disconnected {
        if is_mcp { HandBack::ToMcpSlot } else { HandBack::ToPool }
    } else {
        HandBack::Close
    }
}

/// Where the connection goes once its response is over: only after `Done`
/// reached the response slot, and only when it is safely reusable
/// ([`keep_for_reuse`]), is it handed back, to the client's mcp slot for an
/// mcp location and to the pool otherwise; in every other case it is
/// dropped.  It is handed back to one place, once.
pub fn hand_back(done_sent: bool, framing: HttpContentLength, leftover_is_empty: bool, disconnected: bool, is_mcp: bool) -> (r: HandBack)
    ensures
        r == hand_back_spec(done_sent, framing, leftover_is_empty, disconnected, is_mcp),
{
    if done_sent && keep_for_reuse(framing, leftover_is_empty, disconnected) {
        if is_mcp { HandBack::ToMcpSlot } else { HandBack::ToPool }
    } else {
        HandBack::Close
    }
}

/// A connection is never handed back after a response that did not end
/// with `Done`, nor after one that is not safely reusable; an mcp location's
/// connection never goes to the pool, and another's never to an mcp slot.
pub proof fn lemma_handed_back_only_after_done(done_sent: bool, framing: HttpContentLength, leftover_is_empty: bool, disconnected: bool, is_mcp: bool)
    ensures
        hand_back_spec(done_sent, framing, leftover_is_empty, disconnected, is_mcp) != HandBack::Close
            ==> done_sent && (framing is Known || framing is Chunked) && leftover_is_empty && !disconnected,
        is_mcp ==> hand_back_spec(done_sent, framing, leftover_is_empty, disconnected, is_mcp) != HandBack::ToPool,
        !is_mcp ==> hand_back_spec(done_sent, framing, leftover_is_empty, disconnected, is_mcp) != HandBack::ToMcpSlot,
{
}

/// What reached the client writer.
pub enum WriterInput<'e> {
    /// The next event of the current response slot.
    Event(&'e ResponseEvent),
    /// The current slot's sender went away before `Done` or `Abort`.
    SlotClosed,
    /// Writing to the client failed.
    WriteFailed,
    /// The queue of response slots closed with no slot in progress.
    QueueClosed,
}

/// What the client writer does next.
#[derive(Clone, Copy, Debug, PartialEq, Eq)]
pub enum WriterAction {
    /// Write the chunk to the client and read the next event.
    WriteChunk,
    /// The slot finished cleanly; take the next slot.
    NextSlot,
    /// Shut the client socket down and give the connection up.
    ShutdownAndClose,
    /// Give the connection up (the client is gone).
    Abandon,
    /// Flush and hand the write half back for reuse.
    Finish,
}

pub open spec fn writer_step_spec(input: WriterInput) -> WriterAction {
    match input {
        WriterInput::Event(e) => match *e {
            ResponseEvent::Chunk(_) => WriterAction::WriteChunk,
            ResponseEvent::Done => WriterAction::NextSlot,
            ResponseEvent::Abort => WriterAction::ShutdownAndClose,
        },
        WriterInput::SlotClosed => WriterAction::ShutdownAndClose,
        WriterInput::WriteFailed => WriterAction::Abandon,
        WriterInput::QueueClosed => WriterAction::Finish,
    }
}

/// The client writer's reaction to what it received.  A response that ends
/// without `Done` (aborted, or its worker died) closes the connection, so
/// the next response is never served on a desynced connection.
pub fn client_writer_step(input: &WriterInput) -> (r: WriterAction)
    ensures
        r == writer_step_spec(*input),
{
    match input {
        WriterInput::Event(e) => match e {
            ResponseEvent::Chunk(_) => WriterAction::WriteChunk,
            ResponseEvent::Done => WriterAction::NextSlot,
            ResponseEvent::Abort => WriterAction::ShutdownAndClose,
        },
        WriterInput::SlotClosed => WriterAction::ShutdownAndClose,
        WriterInput::WriteFailed => WriterAction::Abandon,
        WriterInput::QueueClosed => WriterAction::Finish,
    }
}

/// Where the worker of one request stands.
#[derive(Clone, Copy, Debug, PartialEq, Eq)]
pub enum WorkerStage {
    /// Attempt `attempt` (counted from 1) at delivering the request is under
    /// way; the client has received nothing yet.
    Delivering(u32),
    /// The response head went to the client; its body is being relayed.
    Streaming,
    /// The response slot is finished.
    Finished,
}

/// What the worker learnt since its last step.
pub enum WorkerEvent<'e> {
    /// An attempt on a connection that was `reused` or freshly dialled
    /// ended with `outcome`.
    Attempted { reused: bool, outcome: AttemptOutcome<'e> },
    /// A piece of the response body arrived from the upstream.
    BodyChunk,
    /// The response body stopped: whether the response turned out to be an
    /// upgrade on this path, and whether the body was relayed whole.
    BodyEnded { response_is_websocket: bool, body_relayed: bool },
}

/// What the worker does next.
#[derive(Clone, Copy, Debug, PartialEq, Eq)]
pub enum WorkerAction {
    /// Drop the connection and attempt again on another one.
    Redial,
    /// Finish the slot with the failure page (`fail_request_events`),
    /// record `status`, and mark the connection disconnected when
    /// `disconnect` is set.
    AnswerWithPage { status: u16, page: FailurePage, disconnect: bool },
    /// Hand the response head to the client.
    ForwardHead,
    /// Hand the body piece to the client.
    ForwardChunk,
    /// Finish the slot with `Done` (`done`) or `Abort` (`!done`).
    End { done: bool },
    /// Nothing: the event does not belong to this stage.
    Ignore,
}

pub open spec fn worker_spec(stage: WorkerStage, event: WorkerEvent) -> (WorkerStage, WorkerAction) {
    match (stage, event) {
        (WorkerStage::Delivering(attempt), WorkerEvent::Attempted { reused, outcome }) =>
            match delivery_spec(attempt, reused, outcome) {
                DeliveryAction::Retry => (WorkerStage::Delivering((attempt + 1) as u32), WorkerAction::Redial),
                DeliveryAction::Fail { status, page, disconnect } =>
                    (WorkerStage::Finished, WorkerAction::AnswerWithPage { status, page, disconnect }),
                DeliveryAction::Deliver => (WorkerStage::Streaming, WorkerAction::ForwardHead),
            },
        (WorkerStage::Streaming, WorkerEvent::BodyChunk) => (WorkerStage::Streaming, WorkerAction::ForwardChunk),
        (WorkerStage::Streaming, WorkerEvent::BodyEnded { response_is_websocket, body_relayed }) =>
            (WorkerStage::Finished, WorkerAction::End { done: !response_is_websocket && body_relayed }),
        _ => (stage, WorkerAction::Ignore),
    }
}

/// One step of the worker of a request: while nothing reached the client a
/// failed attempt is replayed or answered with a page (`delivery_decision`);
/// once the response head is forwarded the slot can only stream and end
/// with `Done` or `Abort` (`streaming_end`).
pub fn worker_step(stage: WorkerStage, event: WorkerEvent) -> (r: (WorkerStage, WorkerAction))
    requires
        stage matches WorkerStage::Delivering(a) ==> a >= 1,
    ensures
        r == worker_spec(stage, event),
        r.0 matches WorkerStage::Delivering(a) ==> a >= 1,
{
    match stage {
        WorkerStage::Delivering(attempt) => match event {
            WorkerEvent::Attempted { reused, outcome } => match delivery_decision(attempt, reused, &outcome) {
                DeliveryAction::Retry => (WorkerStage::Delivering(attempt + 1), WorkerAction::Redial),
                DeliveryAction::Fail { status, page, disconnect } =>
                    (WorkerStage::Finished, WorkerAction::AnswerWithPage { status, page, disconnect }),
                DeliveryAction::Deliver => (WorkerStage::Streaming, WorkerAction::ForwardHead),
            },
            _ => (stage, WorkerAction::Ignore),
        },
        WorkerStage::Streaming => match event {
            WorkerEvent::BodyChunk => (WorkerStage::Streaming, WorkerAction::ForwardChunk),
            WorkerEvent::BodyEnded { response_is_websocket, body_relayed } => {
                let end = streaming_end(response_is_websocket, body_relayed);
                (WorkerStage::Finished, WorkerAction::End { done: matches!(end, ResponseEvent::Done) })
            },
            _ => (stage, WorkerAction::Ignore),
        },
        WorkerStage::Finished => (stage, WorkerAction::Ignore),
    }
}

/// No error page follows a forwarded response head: once the worker has
/// left the delivering stage it never returns to it and never answers with
/// a page; a response it streams ends with `Done` only when relayed whole.
pub proof fn lemma_no_page_after_head(stage: WorkerStage, event: WorkerEvent)
    requires
        !(stage is Delivering),
    ensures
        !(worker_spec(stage, event).0 is Delivering),
        !(worker_spec(stage, event).1 is AnswerWithPage),
        !(worker_spec(stage, event).1 is Redial),
{
}

/// The attempt count only grows while delivering, and the worker redials at
/// most `MAX_DELIVERY_ATTEMPTS - 1` times: from the last attempt every
/// outcome is answered or delivered.
pub proof fn lemma_redial_is_bounded(attempt: u32, event: WorkerEvent)
    requires
        attempt >= MAX_DELIVERY_ATTEMPTS,
    ensures
        worker_spec(WorkerStage::Delivering(attempt), event).1 != WorkerAction::Redial,
{
}

/// How long an mcp connection may stay parked before it must not be reused.
pub const DEFAULT_MCP_IDLE_TIMEOUT_SECS: i64 = 300;

pub fn idle_timeout_micros() -> (r: i64)
    ensures
        r == DEFAULT_MCP_IDLE_TIMEOUT_SECS * 1_000_000,
{
    DEFAULT_MCP_IDLE_TIMEOUT_SECS * 1_000_000
}

/// Whether a connection parked since `idle_since` has sat idle for the whole
/// mcp idle timeout at `now`.
pub open spec fn idle_expired(idle_since: i64, now: i64) -> bool {
    (now as int) - (idle_since as int) >= DEFAULT_MCP_IDLE_TIMEOUT_SECS * 1_000_000
}

pub fn idle_micros_expired(idle_since: i64, now: i64) -> (r: bool)
    ensures
        r == idle_expired(idle_since, now),
{
    now as i128 - idle_since as i128 >= idle_timeout_micros() as i128
}

/// The writer serves the next response only after the current one ended
/// with `Done`; every other way a response can end closes or abandons the
/// connection.
pub proof fn lemma_only_done_moves_on(input: WriterInput)
    ensures
        writer_step_spec(input) == WriterAction::NextSlot <==> (input matches WriterInput::Event(e) && *e is Done),
        (input is SlotClosed || (input matches WriterInput::Event(e) && *e is Abort))
            ==> writer_step_spec(input) == WriterAction::ShutdownAndClose,
{
}

} // verus!
