use gigui_sidecar::endpoint::Endpoint;
use gigui_sidecar::http::{build_request, classify, decode_value, parse_response, Operation, Timeouts};
use gigui_sidecar::retry::RpcOutcome;

fn ep() -> Endpoint {
    Endpoint { host: "127.0.0.1".to_string(), port: 8000 }
}

#[test]
fn request_heads_follow_the_operation_table() {
    let r = build_request(Operation::HealthCheck, &ep(), vec![]);
    assert_eq!(
        r.head,
        "GET /health HTTP/1.0\r\nHost: 127.0.0.1:8000\r\nContent-Type: application/json\r\nContent-Length: 0\r\nConnection: close\r\n\r\n"
    );
    let body = b"{\"a\":1}".to_vec();
    let r = build_request(Operation::SaveSettings, &ep(), body.clone());
    assert!(r.head.starts_with("POST /api/settings HTTP/1.0\r\n"));
    assert!(r.head.contains("Content-Length: 7\r\n"));
    assert_eq!(r.body, body);
    let paths: Vec<(&str, &str)> = [
        Operation::HealthCheck,
        Operation::GetSettings,
        Operation::SaveSettings,
        Operation::ExecuteAnalysis,
        Operation::GetEngineInfo,
        Operation::GetPerformanceStats,
    ]
    .iter()
    .map(|o| (o.method(), o.path()))
    .collect();
    assert_eq!(
        paths,
        vec![
            ("GET", "/health"),
            ("GET", "/api/settings"),
            ("POST", "/api/settings"),
            ("POST", "/api/execute_analysis"),
            ("GET", "/api/engine_info"),
            ("GET", "/api/performance_stats"),
        ]
    );
    assert_eq!(Operation::ExecuteAnalysis.name(), "execute_analysis");
}

#[test]
fn analysis_gets_the_long_timeout() {
    let t = Timeouts::default();
    assert_eq!(t.timeout_for(Operation::ExecuteAnalysis), 600_000);
    assert_eq!(t.timeout_for(Operation::HealthCheck), 10_000);
    assert_eq!(t.timeout_for(Operation::GetSettings), 10_000);
}

#[test]
fn responses_are_parsed() {
    let r = parse_response(&b"HTTP/1.1 200 OK\r\nContent-Length: 2\r\n\r\n{}".to_vec()).unwrap();
    assert_eq!(r.status, 200);
    assert_eq!(r.body, b"{}".to_vec());
    let e = parse_response(&b"HTTP/1.0 404 Not Found\r\n\r\n".to_vec()).unwrap();
    assert_eq!(e.status, 404);
    assert!(e.body.is_empty());
    let crlf_in_body = parse_response(&b"HTTP/1.1 200 OK\r\n\r\na\r\n\r\nb".to_vec()).unwrap();
    assert_eq!(crlf_in_body.body, b"a\r\n\r\nb".to_vec());
    assert!(parse_response(&b"HTTP/1.1 200 OK\r\nno end".to_vec()).is_none());
    assert!(parse_response(&b"garbage".to_vec()).is_none());
    assert!(parse_response(&b"HTTP/1.1 2x0 OK\r\n\r\n".to_vec()).is_none());
}

#[test]
fn attempts_are_classified() {
    match classify(Err("connection refused".to_string())) {
        RpcOutcome::TransportFailure(m) => assert_eq!(m, "connection refused"),
        _ => panic!(),
    }
    match classify(Ok(b"HTTP/1.1 500 Internal Server Error\r\n\r\noops".to_vec())) {
        RpcOutcome::StatusFailure(c, t) => {
            assert_eq!(c, 500);
            assert_eq!(t, "oops");
        }
        _ => panic!(),
    }
    match classify(Ok(b"HTTP/1.1 503 Unavailable\r\n\r\n\xffx".to_vec())) {
        RpcOutcome::StatusFailure(_, t) => assert_eq!(t, "\u{fffd}x"),
        _ => panic!(),
    }
    match classify(Ok(b"nonsense".to_vec())) {
        RpcOutcome::TransportFailure(m) => assert_eq!(m, "malformed response"),
        _ => panic!(),
    }
    match classify(Ok(b"HTTP/1.1 201 Created\r\n\r\n[1]".to_vec())) {
        RpcOutcome::Success(b) => assert_eq!(b, b"[1]".to_vec()),
        _ => panic!(),
    }
}

#[test]
fn bodies_decode_as_json_or_fail_without_retry() {
    match decode_value(RpcOutcome::Success(b"{\"status\":\"ok\"}".to_vec())) {
        RpcOutcome::Success(v) => assert_eq!(v["status"], "ok"),
        _ => panic!(),
    }
    match decode_value(RpcOutcome::Success(b"{not json".to_vec())) {
        RpcOutcome::DecodeFailure(m) => assert!(!m.is_empty()),
        _ => panic!(),
    }
    match decode_value(RpcOutcome::StatusFailure(502, "x".to_string())) {
        RpcOutcome::StatusFailure(c, t) => {
            assert_eq!(c, 502);
            assert_eq!(t, "x");
        }
        _ => panic!(),
    }
}
