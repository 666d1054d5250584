use gigui_sidecar::retry::{CallError, Failure, RetryLoop, RetryPolicy, RpcOutcome, Step};

fn policy(n: u32, base: u64) -> RetryPolicy {
    RetryPolicy::new(n, base).unwrap()
}

#[test]
fn policy_rejects_zero_attempts_and_overflow() {
    assert!(RetryPolicy::new(0, 100).is_none());
    assert!(RetryPolicy::new(3, u64::MAX).is_none());
    assert!(RetryPolicy::new(1, u64::MAX).is_some());
    assert_eq!(RetryPolicy::default(), RetryPolicy { max_attempts: 3, backoff_base_ms: 500 });
}

#[test]
fn backoff_is_linear_in_attempt_number() {
    let p = policy(5, 250);
    assert_eq!(p.backoff_ms(2), 250);
    assert_eq!(p.backoff_ms(3), 500);
    assert_eq!(p.backoff_ms(4), 750);
    assert_eq!(p.backoff_ms(5), 1000);
}

#[test]
fn always_failing_transport_makes_exactly_max_attempts() {
    for n in 1..=6u32 {
        let mut l = RetryLoop::new("health_check".to_string(), policy(n, 10));
        let mut attempts = 0u32;
        let mut waits = Vec::new();
        let err = loop {
            attempts += 1;
            match l.record::<()>(RpcOutcome::TransportFailure("connection refused".to_string())) {
                Step::Retry { wait_ms } => waits.push(wait_ms),
                Step::Finished(r) => break r.unwrap_err(),
            }
        };
        assert_eq!(attempts, n);
        assert_eq!(err.attempts, n);
        let expected: Vec<u64> = (1..n as u64).map(|k| 10 * k).collect();
        assert_eq!(waits, expected);
        assert_eq!(
            err.message(),
            format!("health_check failed after {} attempt(s): transport failure: connection refused", n)
        );
    }
}

#[test]
fn success_short_circuits() {
    let mut l = RetryLoop::new("get_settings".to_string(), policy(4, 10));
    assert!(matches!(l.record::<u32>(RpcOutcome::StatusFailure(503, "busy".to_string())), Step::Retry { wait_ms: 10 }));
    match l.record(RpcOutcome::Success(7u32)) {
        Step::Finished(Ok(v)) => assert_eq!(v, 7),
        _ => panic!("expected success"),
    }
    assert_eq!(l.attempts, 2);
}

#[test]
fn decode_failure_is_not_retried() {
    let mut l = RetryLoop::new("get_engine_info".to_string(), policy(5, 10));
    match l.record::<u32>(RpcOutcome::DecodeFailure("expected value".to_string())) {
        Step::Finished(Err(e)) => {
            assert_eq!(e.attempts, 1);
            assert!(matches!(e.last, Failure::Decode(_)));
            assert_eq!(e.message(), "get_engine_info failed after 1 attempt(s): decode failure: expected value");
        }
        _ => panic!("expected a final decode failure"),
    }
}

#[test]
fn status_failure_is_reported_after_budget() {
    let mut l = RetryLoop::new("save_settings".to_string(), policy(2, 100));
    assert!(matches!(l.record::<()>(RpcOutcome::StatusFailure(500, "boom".to_string())), Step::Retry { wait_ms: 100 }));
    match l.record::<()>(RpcOutcome::StatusFailure(502, "bad gateway".to_string())) {
        Step::Finished(Err(e)) => {
            assert_eq!(e.message(), "save_settings failed after 2 attempt(s): status 502: bad gateway");
        }
        _ => panic!("expected failure"),
    }
}

#[test]
fn call_error_message_names_everything() {
    let e = CallError { operation: "x".to_string(), attempts: 10, last: Failure::Status(404, "".to_string()) };
    assert_eq!(e.message(), "x failed after 10 attempt(s): status 404: ");
}
