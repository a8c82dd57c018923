use pybridge::backend::{
    DeliverOutcome, PythonBackend, StartAction, StopAction, DEFAULT_TIMEOUT_MS,
};
use pybridge::errors::BridgeError;

fn empty_args() -> serde_json::Value {
    serde_json::from_str("{}").unwrap()
}

fn ready_backend() -> PythonBackend {
    let mut backend = PythonBackend::new();
    assert_eq!(backend.start(), StartAction::SpawnWorker);
    backend.started(1);
    backend
}

#[test]
fn test_python_backend_lifecycle() {
    let mut backend = PythonBackend::new();

    assert!(matches!(backend.start(), StartAction::SpawnWorker));
    backend.started(1);
    assert!(backend.is_ready());

    let result = backend.send_command("test", &empty_args(), 0);
    assert!(result.is_ok());

    assert!(matches!(backend.stop().0, StopAction::Terminate));
    backend.stop_finished();
    assert!(!backend.is_ready());
}

#[test]
fn start_twice_keeps_one_worker() {
    let mut backend = PythonBackend::new();
    assert_eq!(backend.start(), StartAction::SpawnWorker);
    backend.started(42);
    // The second start succeeds without asking for a second spawn.
    assert_eq!(backend.start(), StartAction::AlreadyRunning);
    assert!(backend.is_ready());
    assert_eq!(backend.handle, Some(42));
}

#[test]
fn stop_never_started_is_a_no_op_success() {
    let mut backend = PythonBackend::new();
    let (action, aborted) = backend.stop();
    assert_eq!(action, StopAction::NoProcess);
    assert_eq!(aborted, None);
    assert!(!backend.is_ready());
    // And it stays safe to repeat.
    assert_eq!(backend.stop().0, StopAction::NoProcess);
}

#[test]
fn send_writes_one_canonical_line() {
    let mut backend = ready_backend();
    let req = backend.send_command("ping", &empty_args(), 1000).unwrap();
    assert_eq!(req.line, b"{\"command\":\"ping\",\"args\":{}}\n".to_vec());
    assert_eq!(req.line.iter().filter(|b| **b == b'\n').count(), 1);
    assert_eq!(req.deadline_ms, 1000 + DEFAULT_TIMEOUT_MS);
}

#[test]
fn send_before_start_fails_not_running() {
    let mut backend = PythonBackend::new();
    let r = backend.send_command("ping", &empty_args(), 0);
    assert!(matches!(r, Err(BridgeError::NotRunning)));
    assert!(!backend.has_pending());
}

#[test]
fn spawn_failure_is_reported_and_recoverable() {
    let mut backend = PythonBackend::new();
    assert_eq!(backend.start(), StartAction::SpawnWorker);
    let err = backend.start_failed("no such file".to_string());
    assert_eq!(err, BridgeError::Spawn("no such file".to_string()));
    assert!(!backend.is_ready());
    // A later start may try again.
    assert_eq!(backend.start(), StartAction::SpawnWorker);
    backend.started(2);
    assert!(backend.is_ready());
}

#[test]
fn timeout_leaves_bridge_ready() {
    let mut backend = ready_backend();
    let req = backend.send_command("slow", &empty_args(), 0).unwrap();
    let r = backend.timed_out(req.ticket);
    assert_eq!(r, Some(BridgeError::Timeout));
    assert!(!backend.has_pending());
    // A timeout is not worker death: the bridge stays ready.
    assert!(backend.is_ready());
    // A second report of the same timeout finds nothing to do.
    assert_eq!(backend.timed_out(req.ticket), None);
}

#[test]
fn late_response_never_satisfies_the_next_request() {
    let mut backend = ready_backend();
    let first = backend.send_command("slow", &empty_args(), 0).unwrap();
    assert_eq!(backend.timed_out(first.ticket), Some(BridgeError::Timeout));

    let second = backend.send_command("fast", &empty_args(), 5).unwrap();
    assert_ne!(first.ticket, second.ticket);

    // The late reply to the first request arrives now: it is discarded.
    let stale = backend.deliver_line("{\"status\":\"success\",\"data\":\"old\"}");
    assert!(matches!(stale, DeliverOutcome::Discarded));
    assert!(backend.has_pending());

    // The real reply to the second request completes it.
    let real = backend.deliver_line("{\"status\":\"success\",\"data\":\"new\"}");
    let expected: serde_json::Value = serde_json::from_str("\"new\"").unwrap();
    match real {
        DeliverOutcome::Completed(Ok(Some(v))) => assert_eq!(v, expected),
        other => panic!("second reply was not delivered: {:?}", other),
    }
}

#[test]
fn worker_error_reaches_the_caller_verbatim() {
    let mut backend = ready_backend();
    backend.send_command("explode", &empty_args(), 0).unwrap();
    let out = backend.deliver_line("{\"status\":\"error\",\"error\":\"boom\"}");
    match out {
        DeliverOutcome::Completed(result) => {
            assert_eq!(result, Err(BridgeError::Worker("boom".to_string())));
        },
        other => panic!("reply was not delivered: {:?}", other),
    }
}

#[test]
fn diagnostic_lines_never_complete_a_request() {
    let mut backend = ready_backend();
    backend.send_command("work", &empty_args(), 0).unwrap();
    // Anything on the diagnostic pipe is passed through verbatim and the
    // pending request stays pending, even if the text looks like a response.
    let text = backend.note_diagnostic("{\"status\":\"success\",\"data\":1}");
    assert_eq!(text, "{\"status\":\"success\",\"data\":1}");
    assert!(backend.has_pending());
    // The genuine stdout line still completes the request afterwards.
    let out = backend.deliver_line("{\"status\":\"success\"}");
    assert!(matches!(out, DeliverOutcome::Completed(Ok(None))));
}

#[test]
fn unsolicited_line_is_discarded() {
    let mut backend = ready_backend();
    let out = backend.deliver_line("{\"status\":\"success\"}");
    assert!(matches!(out, DeliverOutcome::Discarded));
    assert!(backend.is_ready());
}

#[test]
fn worker_exit_fails_pending_call_and_future_sends() {
    let mut backend = ready_backend();
    backend.send_command("work", &empty_args(), 0).unwrap();
    let woken = backend.worker_exited();
    assert_eq!(woken, Some(BridgeError::ChildExited));
    assert!(!backend.is_ready());
    // Subsequent sends fail fast rather than retrying a dead handle.
    let r = backend.send_command("more", &empty_args(), 1);
    assert!(matches!(r, Err(BridgeError::NotRunning)));
}

#[test]
fn write_failure_is_child_exit() {
    let mut backend = ready_backend();
    backend.send_command("work", &empty_args(), 0).unwrap();
    let err = backend.write_failed();
    assert_eq!(err, BridgeError::ChildExited);
    assert!(!backend.is_ready());
    assert!(!backend.has_pending());
}

#[test]
fn stop_aborts_an_in_flight_request() {
    let mut backend = ready_backend();
    backend.send_command("work", &empty_args(), 0).unwrap();
    let (action, aborted) = backend.stop();
    assert_eq!(action, StopAction::Terminate);
    // The in-flight request is abandoned rather than left to hang: its
    // caller gets this failure at once.
    assert_eq!(aborted, Some(BridgeError::ChildExited));
    assert!(!backend.has_pending());
    backend.stop_finished();
    assert!(!backend.is_ready());
}

#[test]
fn end_to_end_scripted_worker() {
    // start() against a worker that begins reading stdin at once.
    let mut backend = PythonBackend::new();
    assert_eq!(backend.start(), StartAction::SpawnWorker);
    backend.started(7);
    assert!(backend.is_ready());

    // send("ping", {}) writes the canonical line and registers the wait.
    let req = backend.send_command("ping", &empty_args(), 100).unwrap();
    assert_eq!(req.line, b"{\"command\":\"ping\",\"args\":{}}\n".to_vec());

    // The worker replies; the caller gets {"pong": true}.
    let out = backend.deliver_line("{\"status\":\"success\",\"data\":{\"pong\":true}}");
    let expected: serde_json::Value = serde_json::from_str("{\"pong\":true}").unwrap();
    match out {
        DeliverOutcome::Completed(Ok(Some(v))) => assert_eq!(v, expected),
        other => panic!("reply was not delivered: {:?}", other),
    }

    // stop() terminates the process; afterwards the bridge is not ready.
    assert_eq!(backend.stop().0, StopAction::Terminate);
    backend.stop_finished();
    assert!(!backend.is_ready());
}
