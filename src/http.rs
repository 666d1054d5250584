//! The wire format of calls to the backend: request heads out, response
//! status and body in.
//!
//! Requests are HTTP/1.0 with `Connection: close`, so a response is
//! everything the backend writes until it closes the connection.
use vstd::prelude::*;
use crate::endpoint::Endpoint;
use crate::paths::is_absolute;
use crate::settings::{resolved_inputs, strings, lemma_absolute_inputs_unchanged, Settings};
use crate::retry::RpcOutcome;
use crate::text::{decimal, push_decimal};
use crate::json::{is_json, json_error_message, lossy_text, parse_json, utf8_lossy};

verus! {

/// The operations that the backend serves, each at a fixed method and path.
#[derive(Clone, Copy, Debug, PartialEq, Eq, Structural)]
pub enum Operation {
    HealthCheck,
    GetSettings,
    SaveSettings,
    ExecuteAnalysis,
    GetEngineInfo,
    GetPerformanceStats,
}

impl Operation {
    pub open spec fn spec_is_post(self) -> bool {
        self == Operation::SaveSettings || self == Operation::ExecuteAnalysis
    }

    pub open spec fn spec_method(self) -> Seq<char> {
        if self.spec_is_post() {
            "POST"@
        } else {
            "GET"@
        }
    }

    pub open spec fn spec_path(self) -> Seq<char> {
        match self {
            Operation::HealthCheck => "/health"@,
            Operation::GetSettings | Operation::SaveSettings => "/api/settings"@,
            Operation::ExecuteAnalysis => "/api/execute_analysis"@,
            Operation::GetEngineInfo => "/api/engine_info"@,
            Operation::GetPerformanceStats => "/api/performance_stats"@,
        }
    }

    pub open spec fn spec_name(self) -> Seq<char> {
        match self {
            Operation::HealthCheck => "health_check"@,
            Operation::GetSettings => "get_settings"@,
            Operation::SaveSettings => "save_settings"@,
            Operation::ExecuteAnalysis => "execute_analysis"@,
            Operation::GetEngineInfo => "get_engine_info"@,
            Operation::GetPerformanceStats => "get_performance_stats"@,
        }
    }

    pub fn method(&self) -> (r: &'static str)
        ensures
            r@ == self.spec_method(),
    {
        match self {
            Operation::SaveSettings | Operation::ExecuteAnalysis => "POST",
            _ => "GET",
        }
    }

    pub fn path(&self) -> (r: &'static str)
        ensures
            r@ == self.spec_path(),
    {
        match self {
            Operation::HealthCheck => "/health",
            Operation::GetSettings | Operation::SaveSettings => "/api/settings",
            Operation::ExecuteAnalysis => "/api/execute_analysis",
            Operation::GetEngineInfo => "/api/engine_info",
            Operation::GetPerformanceStats => "/api/performance_stats",
        }
    }

    /// The name under which failures of this operation are reported.
    pub fn name(&self) -> (r: &'static str)
        ensures
            r@ == self.spec_name(),
    {
        match self {
            Operation::HealthCheck => "health_check",
            Operation::GetSettings => "get_settings",
            Operation::SaveSettings => "save_settings",
            Operation::ExecuteAnalysis => "execute_analysis",
            Operation::GetEngineInfo => "get_engine_info",
            Operation::GetPerformanceStats => "get_performance_stats",
        }
    }
}

/// Per-attempt request timeouts: analysis runs long, everything else is a
/// lightweight status call.
#[derive(Clone, Copy, Debug, PartialEq, Eq, Structural)]
pub struct Timeouts {
    pub status_ms: u64,
    pub analysis_ms: u64,
}

impl Timeouts {
    pub fn timeout_for(&self, op: Operation) -> (r: u64)
        ensures
            r == if op == Operation::ExecuteAnalysis {
                self.analysis_ms
            } else {
                self.status_ms
            },
    {
        match op {
            Operation::ExecuteAnalysis => self.analysis_ms,
            _ => self.status_ms,
        }
    }
}

impl Default for Timeouts {
    /// Ten seconds for status calls, ten minutes for an analysis.
    fn default() -> (r: Timeouts)
        ensures
            r == (Timeouts { status_ms: 10_000, analysis_ms: 600_000 }),
    {
        Timeouts { status_ms: 10_000, analysis_ms: 600_000 }
    }
}

/// A request: the head, as text, then the body bytes unchanged.
#[derive(Debug)]
pub struct Request {
    pub head: String,
    pub body: Vec<u8>,
}

/// The head of a request for `op` at `endpoint` with a body of `len` bytes.
pub open spec fn request_head(op: Operation, endpoint: Endpoint, len: nat) -> Seq<char> {
    op.spec_method() + " "@ + op.spec_path() + " HTTP/1"@ + ".0\r\nHost: "@ + endpoint.spec_authority()
        + "\r\nContent-Type: application/json\r\nContent-Length: "@ + decimal(len)
        + "\r\nConnection: close\r\n\r\n"@
}

/// The request for `op` at `endpoint`, carrying `body` as it is.
pub fn build_request(op: Operation, endpoint: &Endpoint, body: Vec<u8>) -> (r: Request)
    ensures
        r.head@ == request_head(op, *endpoint, body@.len()),
        r.body@ == body@,
{
    let mut head = String::from_str(op.method());
    head.append(" ");
    head.append(op.path());
    head.append(" HTTP/1");
    head.append(".0\r\nHost: ");
    let authority = endpoint.authority();
    head.append(authority.as_str());
    head.append("\r\nContent-Type: application/json\r\nContent-Length: ");
    push_decimal(&mut head, body.len() as u64);
    head.append("\r\nConnection: close\r\n\r\n");
    assert(head@ =~= request_head(op, *endpoint, body@.len()));
    Request { head, body }
}

/// A response: its status code and its body bytes.
#[derive(Debug)]
pub struct Response {
    pub status: u16,
    pub body: Vec<u8>,
}

pub open spec fn is_digit(b: u8) -> bool {
    48 <= b <= 57
}

/// The response starts with a status line `HTTP/x.y NNN`.
pub open spec fn has_status_line(b: Seq<u8>) -> bool {
    &&& b.len() >= 12
    &&& b[0] == 72 && b[1] == 84 && b[2] == 84 && b[3] == 80 && b[4] == 47  // "HTTP/"
    &&& b[8] == 32  // ' '
    &&& is_digit(b[9]) && is_digit(b[10]) && is_digit(b[11])
}

pub open spec fn status_of(b: Seq<u8>) -> int {
    (b[9] - 48) * 100 + (b[10] - 48) * 10 + (b[11] - 48)
}

/// The empty line (CR LF CR LF) that ends the head starts at `i`.
pub open spec fn blank_line_at(b: Seq<u8>, i: int) -> bool {
    0 <= i && i + 4 <= b.len() && b[i] == 13 && b[i + 1] == 10 && b[i + 2] == 13 && b[i + 3] == 10
}

/// The first index at or after `i` where the head ends, if any.
pub open spec fn head_end_from(b: Seq<u8>, i: int) -> Option<int>
    decreases b.len() - i,
{
    if i < 0 || i + 4 > b.len() {
        None
    } else if blank_line_at(b, i) {
        Some(i)
    } else {
        head_end_from(b, i + 1)
    }
}

/// `b` is a response: a status line, a head, and the blank line that ends it.
pub open spec fn is_response(b: Seq<u8>) -> bool {
    has_status_line(b) && head_end_from(b, 0) is Some
}

/// The body of response `b`: every byte after the blank line.
pub open spec fn body_of(b: Seq<u8>) -> Seq<u8> {
    b.subrange(head_end_from(b, 0)->0 + 4, b.len() as int)
}

/// CR LF CR LF.
pub open spec fn blank_line() -> Seq<u8> {
    seq![13u8, 10u8, 13u8, 10u8]
}

proof fn lemma_first_blank_line(b: Seq<u8>, k: int, i: int)
    requires
        0 <= i <= k,
        blank_line_at(b, k),
        forall|j: int| 0 <= j < k ==> !blank_line_at(b, j),
    ensures
        head_end_from(b, i) == Some(k),
    decreases k - i,
{
    if i < k {
        lemma_first_blank_line(b, k, i + 1);
    }
}

/// A response body passes through unchanged: when the head holds no blank
/// line of its own, the body read is exactly the bytes after it.
pub proof fn lemma_body_passes_through(head: Seq<u8>, body: Seq<u8>)
    requires
        has_status_line(head + blank_line() + body),
        forall|j: int| 0 <= j < head.len() ==> !blank_line_at(head + blank_line() + body, j),
    ensures
        is_response(head + blank_line() + body),
        body_of(head + blank_line() + body) == body,
{
    let b = head + blank_line() + body;
    let k = head.len() as int;
    assert(b[k] == 13 && b[k + 1] == 10 && b[k + 2] == 13 && b[k + 3] == 10);
    lemma_first_blank_line(b, k, 0);
    assert(b.subrange(k + 4, b.len() as int) =~= body);
}

/// Reads the status and the body of the bytes that the backend sent.
pub fn parse_response(b: &Vec<u8>) -> (r: Option<Response>)
    ensures
        r is Some <==> is_response(b@),
        r is Some ==> r->0.status == status_of(b@) && r->0.body@ == body_of(b@),
{
    let n = b.len();
    if n < 12 {
        return None;
    }
    if !(b[0] == 72 && b[1] == 84 && b[2] == 84 && b[3] == 80 && b[4] == 47 && b[8] == 32) {
        return None;
    }
    if !(48 <= b[9] && b[9] <= 57 && 48 <= b[10] && b[10] <= 57 && 48 <= b[11] && b[11] <= 57) {
        return None;
    }
    let status: u16 = ((b[9] - 48) as u16) * 100 + ((b[10] - 48) as u16) * 10 + ((b[11] - 48) as u16);
    assert(has_status_line(b@));
    assert(status == status_of(b@));
    let mut i: usize = 0;
    while i < n && n - i >= 4
        invariant
            n == b@.len(),
            n >= 12,
            0 <= i <= n,
            has_status_line(b@),
            status == status_of(b@),
            head_end_from(b@, 0) == head_end_from(b@, i as int),
        decreases n - i,
    {
        if b[i] == 13 && b[i + 1] == 10 && b[i + 2] == 13 && b[i + 3] == 10 {
            assert(blank_line_at(b@, i as int));
            assert(head_end_from(b@, i as int) == Some(i as int));
            let mut body: Vec<u8> = Vec::new();
            let mut k: usize = i + 4;
            while k < n
                invariant
                    n == b@.len(),
                    i + 4 <= k <= n,
                    has_status_line(b@),
                    status == status_of(b@),
                    head_end_from(b@, 0) == Some(i as int),
                    body@ =~= b@.subrange(i + 4, k as int),
                decreases n - k,
            {
                body.push(b[k]);
                k = k + 1;
            }
            assert(body@ =~= body_of(b@));
            return Some(Response { status, body });
        }
        i = i + 1;
    }
    None
}

/// Whether a status code reports success.
pub open spec fn is_success_status(code: int) -> bool {
    200 <= code <= 299
}

/// What an attempt came to, from what the transport returned: the bytes
/// the backend sent, or why none could be had.
///
/// A reply that is not a response counts as a transport failure; a
/// response with a status outside 2xx is a status failure carrying its body
/// as text; otherwise the attempt succeeded with the body.
pub fn classify(received: Result<Vec<u8>, String>) -> (r: RpcOutcome<Vec<u8>>)
    ensures
        received is Err ==> r == RpcOutcome::<Vec<u8>>::TransportFailure(received->Err_0),
        received is Ok && !is_response(received->Ok_0@) ==> r is TransportFailure
            && r->TransportFailure_0@ == "malformed response"@,
        received is Ok && is_response(received->Ok_0@) && is_success_status(
            status_of(received->Ok_0@),
        ) ==> r is Success && r->Success_0@ == body_of(received->Ok_0@),
        received is Ok && is_response(received->Ok_0@) && !is_success_status(
            status_of(received->Ok_0@),
        ) ==> r is StatusFailure && r->StatusFailure_0 == status_of(received->Ok_0@)
            && r->StatusFailure_1@ == utf8_lossy(body_of(received->Ok_0@)),
{
    match received {
        Err(m) => RpcOutcome::TransportFailure(m),
        Ok(b) => match parse_response(&b) {
            None => RpcOutcome::TransportFailure(String::from_str("malformed response")),
            Some(resp) => {
                if 200 <= resp.status && resp.status <= 299 {
                    RpcOutcome::Success(resp.body)
                } else {
                    let text = lossy_text(&resp.body);
                    RpcOutcome::StatusFailure(resp.status, text)
                }
            },
        },
    }
}

/// Decodes the body of a successful attempt as a JSON value; a body that is
/// not JSON makes the attempt a decode failure. Failures pass unchanged.
pub fn decode_value(o: RpcOutcome<Vec<u8>>) -> (r: RpcOutcome<serde_json::Value>)
    ensures
        o is Success ==> (r is Success <==> is_json(o->Success_0@)),
        o is Success ==> (r is DecodeFailure <==> !is_json(o->Success_0@)),
        o is TransportFailure ==> r == RpcOutcome::<serde_json::Value>::TransportFailure(
            o->TransportFailure_0,
        ),
        o is StatusFailure ==> r == RpcOutcome::<serde_json::Value>::StatusFailure(
            o->StatusFailure_0,
            o->StatusFailure_1,
        ),
        o is DecodeFailure ==> r == RpcOutcome::<serde_json::Value>::DecodeFailure(
            o->DecodeFailure_0,
        ),
{
    match o {
        RpcOutcome::Success(b) => match parse_json(&b) {
            Ok(v) => RpcOutcome::Success(v),
            Err(e) => RpcOutcome::DecodeFailure(json_error_message(&e)),
        },
        RpcOutcome::TransportFailure(m) => RpcOutcome::TransportFailure(m),
        RpcOutcome::StatusFailure(c, t) => RpcOutcome::StatusFailure(c, t),
        RpcOutcome::DecodeFailure(m) => RpcOutcome::DecodeFailure(m),
    }
}

/// The client does not alter the settings it carries between the host and
/// the backend: settings whose input paths are absolute are resolved to
/// themselves before they are encoded, and the body of the backend's
/// answer (the encoded settings it stored) reaches the caller byte for byte.
/// (That a request carries its body unchanged is stated by
/// [`build_request`].)
pub proof fn lemma_settings_round_trip(s: Settings, cwd: Seq<char>, head: Seq<u8>, encoded: Seq<u8>)
    requires
        forall|i: int| 0 <= i < s.input_fstrs@.len() ==> is_absolute(#[trigger] s.input_fstrs@[i]@),
        has_status_line(head + blank_line() + encoded),
        forall|j: int| 0 <= j < head.len() ==> !blank_line_at(head + blank_line() + encoded, j),
    ensures
        resolved_inputs(s, cwd) == strings(s.input_fstrs),
        is_response(head + blank_line() + encoded),
        body_of(head + blank_line() + encoded) == encoded,
{
    lemma_absolute_inputs_unchanged(s, cwd);
    lemma_body_passes_through(head, encoded);
}

} // verus!
