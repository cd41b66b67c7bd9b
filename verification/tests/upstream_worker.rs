use std::time::Duration;

use my_reverse_proxy::errors::{NetworkError, ProxyServerError};
use my_reverse_proxy::templates::ErrorTemplates;
use my_reverse_proxy::upstream_policy::{
    classify_upstream_failure, client_writer_step, delivery_decision, delivery_failure_message, fail_request_events,
    idle_micros_expired, idle_timeout_micros, is_stale_connection, keep_for_reuse, streaming_end, AttemptOutcome, DeliveryAction,
    FailurePage, HttpContentLength, ResponseEvent, WriterAction, WriterInput, worker_step, WorkerAction, WorkerEvent,
    WorkerStage, hand_back, HandBack,
};

#[test]
fn a_dropped_transport_is_stale_and_replayable() {
    assert!(is_stale_connection(&ProxyServerError::NetworkError(
        NetworkError::Disconnected
    )));
    assert!(is_stale_connection(&ProxyServerError::NetworkError(
        NetworkError::IoError(std::io::Error::from(std::io::ErrorKind::ConnectionReset))
    )));
}

#[test]
fn a_timeout_is_not_replayable() {
    assert!(!is_stale_connection(&ProxyServerError::NetworkError(
        NetworkError::Timeout(Duration::from_secs(1))
    )));
}

#[test]
fn a_parse_failure_is_not_replayable() {
    assert!(!is_stale_connection(&ProxyServerError::HeadersParseError("bad")));
    assert!(!is_stale_connection(&ProxyServerError::BufferAllocationFail));
}

#[test]
fn upstream_failures_map_to_the_matching_page() {
    let tpl = ErrorTemplates::new("1.0.0");
    let (page, label) = classify_upstream_failure(
        &ProxyServerError::NetworkError(NetworkError::Timeout(Duration::from_secs(1))),
        &tpl,
    );
    assert_eq!(page, tpl.error_timeout.as_slice());
    assert_eq!(label, "timeout");

    let (page, label) =
        classify_upstream_failure(&ProxyServerError::NetworkError(NetworkError::Disconnected), &tpl);
    assert_eq!(page, tpl.remote_resource_is_not_available.as_slice());
    assert_eq!(label, "disconnected");

    let (page, label) = classify_upstream_failure(&ProxyServerError::HeadersParseError("bad"), &tpl);
    assert_eq!(page, tpl.upstream_is_not_http.as_slice());
    assert_eq!(label, "non-HTTP response");
}

#[test]
fn mcp_is_failed_by_closing_the_connection() {
    let events = fail_request_events(true, b"<html>bad gateway</html>");
    assert_eq!(events.len(), 1);
    assert!(matches!(events[0], ResponseEvent::Abort));
}

#[test]
fn a_plain_location_is_failed_with_the_error_page() {
    let page = b"<html>bad gateway</html>";
    let events = fail_request_events(false, page);
    match &events[0] {
        ResponseEvent::Chunk(bytes) => assert_eq!(bytes, &page.to_vec()),
        _ => panic!("expected the page chunk, got another event"),
    }
    assert!(matches!(events[1], ResponseEvent::Done));
    assert_eq!(events.len(), 2);
}

#[test]
fn a_stale_reused_connection_is_replayed_once() {
    let err = ProxyServerError::NetworkError(NetworkError::Disconnected);
    assert_eq!(
        delivery_decision(1, true, &AttemptOutcome::ResponseHeadFailed(&err)),
        DeliveryAction::Retry
    );
    assert_eq!(
        delivery_decision(2, true, &AttemptOutcome::ResponseHeadFailed(&err)),
        DeliveryAction::Fail { status: 502, page: FailurePage::RemoteResourceIsNotAvailable, disconnect: true }
    );
    assert_eq!(
        delivery_decision(1, false, &AttemptOutcome::ResponseHeadFailed(&err)),
        DeliveryAction::Fail { status: 502, page: FailurePage::RemoteResourceIsNotAvailable, disconnect: true }
    );
}

#[test]
fn write_failures_retry_then_fail() {
    assert_eq!(delivery_decision(1, true, &AttemptOutcome::HeadNotSent), DeliveryAction::Retry);
    assert_eq!(delivery_decision(1, true, &AttemptOutcome::BodyNotSent), DeliveryAction::Retry);
    assert_eq!(
        delivery_decision(1, false, &AttemptOutcome::HeadNotSent),
        DeliveryAction::Fail { status: 503, page: FailurePage::RemoteResourceIsNotAvailable, disconnect: false }
    );
    assert_eq!(
        delivery_decision(1, false, &AttemptOutcome::BodyNotSent),
        DeliveryAction::Fail { status: 502, page: FailurePage::BadGateway, disconnect: false }
    );
    assert_eq!(
        delivery_decision(2, false, &AttemptOutcome::HeadNotSent),
        DeliveryAction::Fail { status: 503, page: FailurePage::RemoteResourceIsNotAvailable, disconnect: false }
    );
    assert_eq!(
        delivery_decision(2, true, &AttemptOutcome::BodyNotSent),
        DeliveryAction::Fail { status: 502, page: FailurePage::BadGateway, disconnect: false }
    );
    assert_eq!(
        delivery_decision(1, true, &AttemptOutcome::ConnectFailed),
        DeliveryAction::Fail { status: 503, page: FailurePage::RemoteResourceIsNotAvailable, disconnect: false }
    );
    assert_eq!(delivery_decision(1, true, &AttemptOutcome::ResponseReady), DeliveryAction::Deliver);
}

#[test]
fn reuse_requires_delimited_body_and_live_socket() {
    assert!(keep_for_reuse(HttpContentLength::Known(10), true, false));
    assert!(keep_for_reuse(HttpContentLength::Chunked, true, false));
    assert!(!keep_for_reuse(HttpContentLength::UntilClose, true, false));
    assert!(!keep_for_reuse(HttpContentLength::Known(10), false, false));
    assert!(!keep_for_reuse(HttpContentLength::Chunked, true, true));
}

#[test]
fn writer_closes_on_abort_or_missing_done() {
    let chunk = ResponseEvent::Chunk(vec![1, 2]);
    assert_eq!(client_writer_step(&WriterInput::Event(&chunk)), WriterAction::WriteChunk);
    assert_eq!(client_writer_step(&WriterInput::Event(&ResponseEvent::Done)), WriterAction::NextSlot);
    assert_eq!(client_writer_step(&WriterInput::Event(&ResponseEvent::Abort)), WriterAction::ShutdownAndClose);
    assert_eq!(client_writer_step(&WriterInput::SlotClosed), WriterAction::ShutdownAndClose);
    assert_eq!(client_writer_step(&WriterInput::WriteFailed), WriterAction::Abandon);
    assert_eq!(client_writer_step(&WriterInput::QueueClosed), WriterAction::Finish);
}

#[test]
fn a_timeout_on_a_reused_connection_is_answered_not_replayed() {
    let err = ProxyServerError::NetworkError(NetworkError::Timeout(Duration::from_secs(5)));
    assert_eq!(
        delivery_decision(1, true, &AttemptOutcome::ResponseHeadFailed(&err)),
        DeliveryAction::Fail { status: 502, page: FailurePage::ErrorTimeout, disconnect: true }
    );
    let bad = ProxyServerError::HeadersParseError("bad");
    assert_eq!(
        delivery_decision(1, true, &AttemptOutcome::ResponseHeadInvalid(&bad)),
        DeliveryAction::Fail { status: 502, page: FailurePage::UpstreamIsNotHttp, disconnect: true }
    );
}

#[test]
fn delivery_failures_are_logged_with_the_upstream() {
    assert_eq!(
        delivery_failure_message(&AttemptOutcome::ConnectFailed, "http://a:1", "Disconnected"),
        "can not connect to upstream http://a:1: Disconnected"
    );
    assert_eq!(
        delivery_failure_message(&AttemptOutcome::HeadNotSent, "u", ""),
        "upstream u did not accept request head"
    );
    assert_eq!(
        delivery_failure_message(&AttemptOutcome::BodyNotSent, "u", ""),
        "upstream u broke while forwarding request body"
    );
    let err = ProxyServerError::NetworkError(NetworkError::Timeout(Duration::from_secs(1)));
    assert_eq!(
        delivery_failure_message(&AttemptOutcome::ResponseHeadFailed(&err), "u", "Timeout(1s)"),
        "reading response head from upstream u (timeout): Timeout(1s)"
    );
    let bad = ProxyServerError::HeadersParseError("bad");
    assert_eq!(
        delivery_failure_message(&AttemptOutcome::ResponseHeadInvalid(&bad), "u", "x"),
        "compiling response head from upstream u (non-HTTP response): x"
    );
}

#[test]
fn parked_mcp_connections_expire_after_the_idle_timeout() {
    assert_eq!(idle_timeout_micros(), 300_000_000);
    assert!(!idle_micros_expired(0, 299_999_999));
    assert!(idle_micros_expired(0, 300_000_000));
}

#[test]
fn a_started_response_ends_with_done_only_when_relayed_whole() {
    assert!(matches!(streaming_end(false, true), ResponseEvent::Done));
    assert!(matches!(streaming_end(true, true), ResponseEvent::Abort));
    assert!(matches!(streaming_end(false, false), ResponseEvent::Abort));
}

#[test]
fn the_worker_never_answers_with_a_page_once_the_head_is_forwarded() {
    let (s, a) = worker_step(WorkerStage::Delivering(1), WorkerEvent::Attempted { reused: true, outcome: AttemptOutcome::HeadNotSent });
    assert_eq!((s, a), (WorkerStage::Delivering(2), WorkerAction::Redial));
    let (s, a) = worker_step(s, WorkerEvent::Attempted { reused: false, outcome: AttemptOutcome::ResponseReady });
    assert_eq!((s, a), (WorkerStage::Streaming, WorkerAction::ForwardHead));
    let err = ProxyServerError::NetworkError(NetworkError::Disconnected);
    let (s2, a2) = worker_step(s, WorkerEvent::Attempted { reused: true, outcome: AttemptOutcome::ResponseHeadFailed(&err) });
    assert_eq!((s2, a2), (WorkerStage::Streaming, WorkerAction::Ignore));
    let (s, a) = worker_step(s, WorkerEvent::BodyChunk);
    assert_eq!((s, a), (WorkerStage::Streaming, WorkerAction::ForwardChunk));
    let (s, a) = worker_step(s, WorkerEvent::BodyEnded { response_is_websocket: false, body_relayed: false });
    assert_eq!((s, a), (WorkerStage::Finished, WorkerAction::End { done: false }));
    let (s, a) = worker_step(WorkerStage::Delivering(1), WorkerEvent::Attempted { reused: false, outcome: AttemptOutcome::HeadNotSent });
    assert_eq!(s, WorkerStage::Finished);
    assert_eq!(a, WorkerAction::AnswerWithPage { status: 503, page: FailurePage::RemoteResourceIsNotAvailable, disconnect: false });
}

#[test]
fn a_connection_goes_back_once_and_only_after_done() {
    assert_eq!(hand_back(true, HttpContentLength::Known(3), true, false, false), HandBack::ToPool);
    assert_eq!(hand_back(true, HttpContentLength::Chunked, true, false, true), HandBack::ToMcpSlot);
    assert_eq!(hand_back(false, HttpContentLength::Known(3), true, false, false), HandBack::Close);
    assert_eq!(hand_back(true, HttpContentLength::UntilClose, true, false, false), HandBack::Close);
    assert_eq!(hand_back(true, HttpContentLength::Known(3), false, false, true), HandBack::Close);
    assert_eq!(hand_back(true, HttpContentLength::Known(3), true, true, false), HandBack::Close);
}
