use libpq::errors::PQError;
use libpq::runner::{
    RunnerAction, RunnerEvent, RunnerMachine, RunnerRequest, RunnerState, StopReason,
    CONFIRM_TIMEOUT_MS,
};

fn request(query: &str, params: Option<Vec<&str>>, single_row: bool) -> RunnerRequest {
    RunnerRequest {
        query: query.to_string(),
        params: params.map(|p| p.into_iter().map(|s| s.to_string()).collect()),
        tag: query.len() as u64,
        single_row,
    }
}

fn error(message: &str) -> PQError {
    PQError::from_text(message)
}

#[test]
fn plain_runner_full_cycle() {
    let (m, a) = RunnerMachine::plain();
    assert!(!m.confirm_writable);
    assert!(matches!(m.state, RunnerState::WaitingRequest));
    assert!(matches!(a, RunnerAction::ReceiveRequest));

    let (m, a) = m.step(RunnerEvent::Request(request("SELECT 1", None, false)));
    assert!(matches!(a, RunnerAction::PollWritable { timeout_ms: None }));

    let (m, a) = m.step(RunnerEvent::Polled(Ok(())));
    match a {
        RunnerAction::SendQuery { query } => assert_eq!(query, "SELECT 1"),
        other => panic!("unexpected action {:?}", other),
    }

    let (m, a) = m.step(RunnerEvent::Sent(Ok(())));
    assert!(matches!(a, RunnerAction::Flush));

    // not everything flushed: wait until writable, then flush again
    let (m, a) = m.step(RunnerEvent::Flushed(Ok(false)));
    assert!(matches!(a, RunnerAction::PollWritable { timeout_ms: None }));
    let (m, a) = m.step(RunnerEvent::Polled(Ok(())));
    assert!(matches!(a, RunnerAction::Flush));

    let (m, a) = m.step(RunnerEvent::Flushed(Ok(true)));
    assert!(matches!(a, RunnerAction::PollReadable));

    let (m, a) = m.step(RunnerEvent::Polled(Ok(())));
    assert!(matches!(a, RunnerAction::ConsumeInput));

    let (m, a) = m.step(RunnerEvent::Consumed(Ok(())));
    assert!(matches!(a, RunnerAction::CheckBusy));

    // busy: back to polling for input
    let (m, a) = m.step(RunnerEvent::Busy(true));
    assert!(matches!(a, RunnerAction::PollReadable));
    let (m, a) = m.step(RunnerEvent::Polled(Ok(())));
    assert!(matches!(a, RunnerAction::ConsumeInput));
    let (m, a) = m.step(RunnerEvent::Consumed(Ok(())));
    assert!(matches!(a, RunnerAction::CheckBusy));

    let (m, a) = m.step(RunnerEvent::Busy(false));
    assert!(matches!(a, RunnerAction::GetResult));

    // one result, then "no more results"
    let (m, a) = m.step(RunnerEvent::Fetched(true));
    assert!(matches!(a, RunnerAction::Deliver));
    assert!(matches!(m.state, RunnerState::Delivering { more: true }));
    let (m, a) = m.step(RunnerEvent::Delivered);
    assert!(matches!(a, RunnerAction::CheckBusy));
    let (m, a) = m.step(RunnerEvent::Busy(false));
    assert!(matches!(a, RunnerAction::GetResult));
    let (m, a) = m.step(RunnerEvent::Fetched(false));
    assert!(matches!(a, RunnerAction::Deliver));
    let (m, a) = m.step(RunnerEvent::Delivered);
    assert!(matches!(a, RunnerAction::ReceiveRequest));
    assert!(matches!(m.state, RunnerState::WaitingRequest));
}

#[test]
fn params_and_single_row_mode() {
    let (m, _) = RunnerMachine::plain();
    let (m, _) = m.step(RunnerEvent::Request(request("SELECT $1, $2", Some(vec!["a", "b"]), true)));
    let (m, a) = m.step(RunnerEvent::Polled(Ok(())));
    match a {
        RunnerAction::SendQueryParams { query, params } => {
            assert_eq!(query, "SELECT $1, $2");
            assert_eq!(params, vec!["a".to_string(), "b".to_string()]);
        },
        other => panic!("unexpected action {:?}", other),
    }
    let (m, a) = m.step(RunnerEvent::Sent(Ok(())));
    assert!(matches!(a, RunnerAction::SetSingleRowMode));
    let (_, a) = m.step(RunnerEvent::SingleRowSet);
    assert!(matches!(a, RunnerAction::Flush));
}

#[test]
fn confirming_runner_waits_two_seconds_after_flush() {
    let (m, a) = RunnerMachine::confirming();
    assert!(m.confirm_writable);
    assert!(matches!(a, RunnerAction::ReceiveRequest));
    let (m, _) = m.step(RunnerEvent::Request(request("SELECT 1", None, false)));
    let (m, _) = m.step(RunnerEvent::Polled(Ok(())));
    let (m, _) = m.step(RunnerEvent::Sent(Ok(())));
    let (m, a) = m.step(RunnerEvent::Flushed(Ok(true)));
    assert_eq!(CONFIRM_TIMEOUT_MS, 2000);
    assert!(matches!(a, RunnerAction::PollWritable { timeout_ms: Some(2000) }));
    assert!(matches!(m.state, RunnerState::Confirming));
    let (m, a) = m.step(RunnerEvent::Polled(Ok(())));
    assert!(matches!(a, RunnerAction::PollReadable));
    assert!(m.confirm_writable);
}

#[test]
fn disconnect_stops_runner() {
    let (m, _) = RunnerMachine::plain();
    let (m, a) = m.step(RunnerEvent::Disconnected);
    assert!(matches!(m.state, RunnerState::Stopped));
    match a {
        RunnerAction::Stop { reason } => {
            assert!(matches!(reason, StopReason::Disconnected));
            assert_eq!(reason.into_error().message, "Sender disconnected");
        },
        other => panic!("unexpected action {:?}", other),
    }
}

#[test]
fn first_error_stops_runner() {
    // polling fails
    let (m, _) = RunnerMachine::plain();
    let (m, _) = m.step(RunnerEvent::Request(request("SELECT 1", None, false)));
    let (m, a) = m.step(RunnerEvent::Polled(Err(error("poll failed"))));
    assert!(matches!(m.state, RunnerState::Stopped));
    match a {
        RunnerAction::Stop { reason: StopReason::Failed(e) } => assert_eq!(e.message, "poll failed"),
        other => panic!("unexpected action {:?}", other),
    }

    // sending fails
    let (m, _) = RunnerMachine::plain();
    let (m, _) = m.step(RunnerEvent::Request(request("SELECT 1", None, false)));
    let (m, _) = m.step(RunnerEvent::Polled(Ok(())));
    let (m, a) = m.step(RunnerEvent::Sent(Err(error("send failed"))));
    assert!(matches!(m.state, RunnerState::Stopped));
    match a {
        RunnerAction::Stop { reason } => assert_eq!(reason.into_error().message, "send failed"),
        other => panic!("unexpected action {:?}", other),
    }

    // flushing fails
    let (m, _) = RunnerMachine::confirming();
    let (m, _) = m.step(RunnerEvent::Request(request("SELECT 1", None, false)));
    let (m, _) = m.step(RunnerEvent::Polled(Ok(())));
    let (m, _) = m.step(RunnerEvent::Sent(Ok(())));
    let (m, a) = m.step(RunnerEvent::Flushed(Err(error("flush failed"))));
    assert!(matches!(m.state, RunnerState::Stopped));
    assert!(matches!(a, RunnerAction::Stop { reason: StopReason::Failed(_) }));

    // consuming fails
    let (m, _) = RunnerMachine::plain();
    let (m, _) = m.step(RunnerEvent::Request(request("SELECT 1", None, false)));
    let (m, _) = m.step(RunnerEvent::Polled(Ok(())));
    let (m, _) = m.step(RunnerEvent::Sent(Ok(())));
    let (m, _) = m.step(RunnerEvent::Flushed(Ok(true)));
    let (m, _) = m.step(RunnerEvent::Polled(Ok(())));
    let (m, a) = m.step(RunnerEvent::Consumed(Err(error("consume failed"))));
    assert!(matches!(m.state, RunnerState::Stopped));
    match a {
        RunnerAction::Stop { reason } => assert_eq!(reason.into_error().message, "consume failed"),
        other => panic!("unexpected action {:?}", other),
    }
}

#[test]
fn request_into_parts() {
    let (q, p, t, s) = request("SELECT $1", Some(vec!["x"]), true).into();
    assert_eq!(q, "SELECT $1");
    assert_eq!(p, Some(vec!["x".to_string()]));
    assert_eq!(t, 9);
    assert!(s);
}

#[test]
fn machine_expects_only_the_work_it_waits_on() {
    let (m, _) = RunnerMachine::plain();
    assert!(m.expects(&RunnerEvent::Request(request("SELECT 1", None, false))));
    assert!(m.expects(&RunnerEvent::Disconnected));
    assert!(!m.expects(&RunnerEvent::Polled(Ok(()))));
    assert!(!m.expects(&RunnerEvent::Delivered));
    let (m, _) = m.step(RunnerEvent::Request(request("SELECT 1", None, false)));
    assert!(m.expects(&RunnerEvent::Polled(Err(error("x")))));
    assert!(!m.expects(&RunnerEvent::Sent(Ok(()))));
    assert!(!m.expects(&RunnerEvent::Disconnected));
    let (m, _) = RunnerMachine::confirming();
    let (m, _) = m.step(RunnerEvent::Disconnected);
    assert!(matches!(m.state, RunnerState::Stopped));
    assert!(!m.expects(&RunnerEvent::Disconnected));
    assert!(!m.expects(&RunnerEvent::Request(request("SELECT 1", None, false))));
}

/// Drives a machine through one request with `results` results, returning
/// what was seen: "send", "result", "final", "ready".
fn one_request(m: RunnerMachine, query: &str, results: usize, seen: &mut Vec<String>) -> RunnerMachine {
    let (m, _) = m.step(RunnerEvent::Request(request(query, None, false)));
    assert_eq!(m.serving, Some(query.len() as u64));
    let (m, a) = m.step(RunnerEvent::Polled(Ok(())));
    if let RunnerAction::SendQuery { query } = a {
        seen.push(format!("send {}", query));
    }
    let (m, _) = m.step(RunnerEvent::Sent(Ok(())));
    let (mut m, _) = m.step(RunnerEvent::Flushed(Ok(true)));
    if m.confirm_writable {
        m = m.step(RunnerEvent::Polled(Ok(()))).0;
    }
    let (m, _) = m.step(RunnerEvent::Polled(Ok(())));
    let (mut m, _) = m.step(RunnerEvent::Consumed(Ok(())));
    for i in 0..=results {
        let more = i < results;
        let (n, _) = m.step(RunnerEvent::Busy(false));
        let (n, a) = n.step(RunnerEvent::Fetched(more));
        assert!(matches!(a, RunnerAction::Deliver));
        let to = n.serving.unwrap();
        seen.push(if more { format!("result for {}", to) } else { format!("final for {}", to) });
        let (n, a) = n.step(RunnerEvent::Delivered);
        if matches!(a, RunnerAction::ReceiveRequest) {
            seen.push("ready".to_string());
        }
        m = n;
    }
    m
}

#[test]
fn requests_run_one_after_the_other() {
    for confirming in [false, true] {
        let (m, _) = if confirming { RunnerMachine::confirming() } else { RunnerMachine::plain() };
        let mut seen = Vec::new();
        assert_eq!(m.serving, None);
        let m = one_request(m, "SELECT 1", 2, &mut seen);
        let m = one_request(m, "SELECT 22", 0, &mut seen);
        assert!(matches!(m.state, RunnerState::WaitingRequest));
        assert_eq!(
            seen,
            vec![
                "send SELECT 1", "result for 8", "result for 8", "final for 8", "ready",
                "send SELECT 22", "final for 9", "ready",
            ]
        );
    }
}
