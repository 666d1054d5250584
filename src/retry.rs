//! The retry discipline shared by every call to the backend.
//!
//! A [`RetryLoop`] does not send anything itself: the caller performs an
//! attempt, hands its [`RpcOutcome`] to [`RetryLoop::record`], and is told
//! whether to wait and try again or to stop with a final result.
use vstd::prelude::*;
use crate::text::{decimal, push_decimal};

verus! {

/// How often a call is attempted and how long to wait between attempts.
#[derive(Clone, Copy, Debug, PartialEq, Eq, Structural)]
pub struct RetryPolicy {
    pub max_attempts: u32,
    pub backoff_base_ms: u64,
}

impl RetryPolicy {
    /// At least one attempt, and every backoff fits in 64 bits.
    pub open spec fn wf(self) -> bool {
        &&& self.max_attempts >= 1
        &&& self.backoff_base_ms * (self.max_attempts - 1) <= u64::MAX
    }

    /// The wait before attempt `k` (counted from 1), for `k >= 2`.
    pub open spec fn spec_backoff(self, k: int) -> int {
        self.backoff_base_ms * (k - 1)
    }

    /// A policy, or `None` where it allows no attempt or its longest
    /// backoff overflows.
    pub fn new(max_attempts: u32, backoff_base_ms: u64) -> (r: Option<RetryPolicy>)
        ensures
            r is Some <==> (RetryPolicy { max_attempts, backoff_base_ms }).wf(),
            r is Some ==> r->0 == (RetryPolicy { max_attempts, backoff_base_ms }),
    {
        if max_attempts == 0 {
            return None;
        }
        let n = (max_attempts - 1) as u64;
        match backoff_base_ms.checked_mul(n) {
            Some(_) => Some(RetryPolicy { max_attempts, backoff_base_ms }),
            None => None,
        }
    }

    /// The wait before attempt `attempt`: linear in the number of attempts
    /// already made.
    pub fn backoff_ms(&self, attempt: u32) -> (r: u64)
        requires
            self.wf(),
            2 <= attempt <= self.max_attempts,
        ensures
            r == self.spec_backoff(attempt as int),
    {
        proof {
            let b = self.backoff_base_ms as int;
            let m = self.max_attempts as int;
            let k = attempt as int;
            assert(b * (k - 1) <= b * (m - 1)) by (nonlinear_arith)
                requires
                    b >= 0,
                    1 <= k - 1 <= m - 1,
            ;
        }
        self.backoff_base_ms * ((attempt - 1) as u64)
    }
}

impl Default for RetryPolicy {
    /// Three attempts, half a second apart after the first failure.
    fn default() -> (r: RetryPolicy)
        ensures
            r == (RetryPolicy { max_attempts: 3, backoff_base_ms: 500 }),
    {
        RetryPolicy { max_attempts: 3, backoff_base_ms: 500 }
    }
}

/// What one attempt of a call came to.
pub enum RpcOutcome<T> {
    Success(T),
    TransportFailure(String),
    StatusFailure(u16, String),
    DecodeFailure(String),
}

/// Why an attempt failed.
#[derive(Debug)]
pub enum Failure {
    Transport(String),
    Status(u16, String),
    Decode(String),
}

impl Failure {
    /// The human-readable account of this failure.
    pub open spec fn spec_text(self) -> Seq<char> {
        match self {
            Failure::Transport(m) => "transport failure: "@ + m@,
            Failure::Status(code, body) => "status "@ + decimal(code as nat) + ": "@ + body@,
            Failure::Decode(m) => "decode failure: "@ + m@,
        }
    }

    /// Appends [`Failure::spec_text`] to `out`.
    pub fn push_text(&self, out: &mut String)
        ensures
            final(out)@ == old(out)@ + self.spec_text(),
    {
        match self {
            Failure::Transport(m) => {
                out.append("transport failure: ");
                out.append(m.as_str());
            },
            Failure::Status(code, body) => {
                out.append("status ");
                push_decimal(out, *code as u64);
                out.append(": ");
                out.append(body.as_str());
            },
            Failure::Decode(m) => {
                out.append("decode failure: ");
                out.append(m.as_str());
            },
        }
        assert(final(out)@ =~= old(out)@ + self.spec_text());
    }
}

/// The final failure of a call: its name, how many attempts were made and
/// why the last one failed.
#[derive(Debug)]
pub struct CallError {
    pub operation: String,
    pub attempts: u32,
    pub last: Failure,
}

impl CallError {
    pub open spec fn spec_message(self) -> Seq<char> {
        self.operation@ + " failed after "@ + decimal(self.attempts as nat) + " attempt(s): "@
            + self.last.spec_text()
    }

    /// States the operation, the number of attempts and the last failure.
    pub fn message(&self) -> (r: String)
        ensures
            r@ == self.spec_message(),
    {
        let mut s = self.operation.clone();
        s.append(" failed after ");
        push_decimal(&mut s, self.attempts as u64);
        s.append(" attempt(s): ");
        self.last.push_text(&mut s);
        assert(s@ =~= self.spec_message());
        s
    }
}

/// What the caller does after an attempt.
pub enum Step<T> {
    /// Sleep for `wait_ms` milliseconds, then attempt again.
    Retry { wait_ms: u64 },
    /// Stop: the call is over.
    Finished(Result<T, CallError>),
}

/// The attempts made so far for one call.
pub struct RetryLoop {
    pub operation: String,
    pub policy: RetryPolicy,
    pub attempts: u32,
}

impl RetryLoop {
    /// A call that may still be attempted.
    pub open spec fn wf(self) -> bool {
        &&& self.policy.wf()
        &&& self.attempts < self.policy.max_attempts
    }

    /// The loop after one more attempt, and what the caller does next.
    pub open spec fn spec_record<T>(self, o: RpcOutcome<T>) -> (RetryLoop, Step<T>) {
        let n = (self.attempts + 1) as u32;
        let after = RetryLoop { attempts: n, ..self };
        let fail = |f: Failure| Step::Finished(
            Err(CallError { operation: self.operation, attempts: n, last: f }),
        );
        let retry_or_fail = |f: Failure| if n < self.policy.max_attempts {
            Step::Retry { wait_ms: self.policy.spec_backoff(n + 1) as u64 }
        } else {
            fail(f)
        };
        match o {
            RpcOutcome::Success(v) => (after, Step::Finished(Ok(v))),
            RpcOutcome::DecodeFailure(m) => (after, fail(Failure::Decode(m))),
            RpcOutcome::TransportFailure(m) => (after, retry_or_fail(Failure::Transport(m))),
            RpcOutcome::StatusFailure(c, b) => (after, retry_or_fail(Failure::Status(c, b))),
        }
    }

    /// A call named `operation` with no attempt made yet.
    pub fn new(operation: String, policy: RetryPolicy) -> (r: RetryLoop)
        requires
            policy.wf(),
        ensures
            r == (RetryLoop { operation, policy, attempts: 0 }),
            r.wf(),
    {
        RetryLoop { operation, policy, attempts: 0 }
    }

    /// Records the outcome of the attempt just made.
    ///
    /// A success ends the call at once. A decode failure ends it too, since
    /// waiting does not mend a response of the wrong shape. A transport or
    /// status failure is retried after the linear backoff while attempts
    /// remain, and ends the call with that failure once they are used up.
    pub fn record<T>(&mut self, o: RpcOutcome<T>) -> (r: Step<T>)
        requires
            old(self).wf(),
        ensures
            (*final(self), r) == old(self).spec_record(o),
    {
        let n = self.attempts + 1;
        self.attempts = n;
        let last = match o {
            RpcOutcome::Success(v) => {
                return Step::Finished(Ok(v));
            },
            RpcOutcome::DecodeFailure(m) => {
                return Step::Finished(
                    Err(CallError { operation: self.operation.clone(), attempts: n, last: Failure::Decode(m) }),
                );
            },
            RpcOutcome::TransportFailure(m) => Failure::Transport(m),
            RpcOutcome::StatusFailure(c, b) => Failure::Status(c, b),
        };
        if n < self.policy.max_attempts {
            Step::Retry { wait_ms: self.policy.backoff_ms(n + 1) }
        } else {
            Step::Finished(Err(CallError { operation: self.operation.clone(), attempts: n, last }))
        }
    }
}

/// The loop and the last step once every attempt has failed at the
/// transport with message `m`, starting from `l`.
pub open spec fn failing_run(l: RetryLoop, m: String) -> (RetryLoop, Step<()>)
    decreases l.policy.max_attempts - l.attempts,
{
    let (next, step) = l.spec_record(RpcOutcome::<()>::TransportFailure(m));
    if l.attempts < l.policy.max_attempts && step is Retry {
        failing_run(next, m)
    } else {
        (next, step)
    }
}

proof fn lemma_failing_run_uses_all(l: RetryLoop, m: String)
    requires
        l.wf(),
    ensures
        failing_run(l, m).0.attempts == l.policy.max_attempts,
        failing_run(l, m).0.operation == l.operation,
        failing_run(l, m).1 == Step::<()>::Finished(Err(CallError {
            operation: l.operation,
            attempts: l.policy.max_attempts,
            last: Failure::Transport(m),
        })),
    decreases l.policy.max_attempts - l.attempts,
{
    let (next, step) = l.spec_record(RpcOutcome::<()>::TransportFailure(m));
    if step is Retry {
        lemma_failing_run_uses_all(next, m);
    }
}

/// When the transport always fails, a call under a policy of `N` attempts
/// makes exactly `N` attempts, waiting between each two, and its error
/// reports `N` and the last transport failure.
pub proof fn lemma_transport_always_fails(operation: String, policy: RetryPolicy, m: String)
    requires
        policy.wf(),
    ensures
        failing_run(RetryLoop { operation, policy, attempts: 0 }, m).0.attempts
            == policy.max_attempts,
        failing_run(RetryLoop { operation, policy, attempts: 0 }, m).1 == Step::<()>::Finished(
            Err(CallError { operation, attempts: policy.max_attempts, last: Failure::Transport(m) }),
        ),
        (CallError { operation, attempts: policy.max_attempts, last: Failure::Transport(m) }).spec_message()
            == operation@ + " failed after "@ + decimal(policy.max_attempts as nat)
            + " attempt(s): "@ + "transport failure: "@ + m@,
{
    lemma_failing_run_uses_all(RetryLoop { operation, policy, attempts: 0 }, m);
}

/// After a retryable failure of attempt `k` (with attempts left), the
/// caller waits `backoff_base * k` before attempt `k + 1`: the backoff is
/// linear, with no jitter.
pub proof fn lemma_linear_backoff<T>(l: RetryLoop, o: RpcOutcome<T>)
    requires
        l.wf(),
        o is TransportFailure || o is StatusFailure,
        l.attempts + 1 < l.policy.max_attempts,
    ensures
        l.spec_record(o).1 is Retry,
        l.spec_record(o).1->wait_ms == l.policy.backoff_base_ms * ((l.attempts + 2) - 1),
{
    let k = l.attempts as int + 1;
    let b = l.policy.backoff_base_ms as int;
    let mx = l.policy.max_attempts as int;
    assert(b * k <= b * (mx - 1)) by (nonlinear_arith)
        requires
            b >= 0,
            1 <= k <= mx - 1,
    ;
}

} // verus!
