//! The lifecycle of the backend process, as a state machine.
//!
//! The host owns the process handle and performs every [`Action`]; the
//! [`Supervisor`] decides which action comes next from what the host
//! reports as an [`Event`]. One operation (start, stop or status) runs at a
//! time: the host serialises requests behind one lock and feeds the events
//! of an operation until it gets [`Action::Report`].
use vstd::prelude::*;
use crate::locator::{Candidate, EntryKind, LocatorNotFound};
use crate::settings::strings;
use crate::text::{decimal, joined, push_decimal, push_joined, push_signed_decimal, signed_decimal};

verus! {

/// The lifecycle states that the rest of the host can observe.
#[derive(Clone, Copy, Debug, PartialEq, Eq, Structural)]
pub enum Phase {
    Stopped,
    Starting,
    Probing,
    Running,
    Stopping,
}

/// What the supervisor is waiting for.
#[derive(Clone, Copy, Debug, PartialEq, Eq, Structural)]
pub enum Stage {
    /// No operation in progress.
    Idle,
    /// Waiting to learn whether the owned process has exited.
    CheckingExit,
    /// Waiting for a liveness probe of a process believed to be running.
    CheckingLiveness,
    /// Waiting for the entry point to be located.
    Locating,
    /// Waiting for the spawn to succeed or fail.
    Spawning,
    /// Waiting out the startup grace period.
    Grace,
    /// Waiting for a readiness probe.
    Probing,
    /// Waiting out the interval between two readiness probes.
    ProbeWait,
    /// Probes are used up: waiting to learn whether the process crashed.
    CheckingCrash,
    /// Waiting for the process to end after a termination signal.
    Terminating,
    /// Waiting for the process to end after a forced kill.
    Killing,
}

/// The operation in progress.
#[derive(Clone, Copy, Debug, PartialEq, Eq, Structural)]
pub enum Request {
    Start,
    Stop,
    Status,
}

/// Budgets and delays of the lifecycle, all in milliseconds.
#[derive(Clone, Copy, Debug, PartialEq, Eq, Structural)]
pub struct SupervisorConfig {
    pub probe_attempts: u32,
    pub probe_interval_ms: u64,
    pub grace_executable_ms: u64,
    pub grace_script_ms: u64,
    pub terminate_timeout_ms: u64,
}

impl SupervisorConfig {
    pub open spec fn spec_grace(self, kind: EntryKind) -> u64 {
        match kind {
            EntryKind::Executable => self.grace_executable_ms,
            EntryKind::Script => self.grace_script_ms,
        }
    }

    /// The wait before the first probe: longer for a script, whose
    /// interpreter takes time to start.
    pub fn grace(&self, kind: EntryKind) -> (r: u64)
        ensures
            r == self.spec_grace(kind),
    {
        match kind {
            EntryKind::Executable => self.grace_executable_ms,
            EntryKind::Script => self.grace_script_ms,
        }
    }
}

impl Default for SupervisorConfig {
    /// Ten probes a second apart; half a second of grace for an executable,
    /// two for a script; five seconds for a graceful exit.
    fn default() -> (r: SupervisorConfig)
        ensures
            r == (SupervisorConfig {
                probe_attempts: 10,
                probe_interval_ms: 1000,
                grace_executable_ms: 500,
                grace_script_ms: 2000,
                terminate_timeout_ms: 5000,
            }),
    {
        SupervisorConfig {
            probe_attempts: 10,
            probe_interval_ms: 1000,
            grace_executable_ms: 500,
            grace_script_ms: 2000,
            terminate_timeout_ms: 5000,
        }
    }
}

/// Why a start failed.
#[derive(Debug)]
pub enum SupervisorError {
    /// No candidate entry point exists; every path probed, in order.
    LocatorNotFound(Vec<String>),
    /// The operating system could not launch the entry point.
    SpawnFailure(String),
    /// The process stayed alive but never answered healthy within this
    /// many probes.
    HealthCheckTimeout(u32),
    /// The process exited during startup.
    BackendCrashed { exit_status: Option<i32>, stderr: String },
}

impl SupervisorError {
    pub open spec fn spec_message(self) -> Seq<char> {
        match self {
            SupervisorError::LocatorNotFound(probed) => "backend entry point not found; probed: "@
                + joined(strings(probed), ", "@),
            SupervisorError::SpawnFailure(m) => "failed to launch the backend: "@ + m@,
            SupervisorError::HealthCheckTimeout(n) => "backend did not answer healthy after "@
                + decimal(n as nat) + " probe(s)"@,
            SupervisorError::BackendCrashed { exit_status, stderr } => "backend exited during startup ("@
                + match exit_status {
                Some(c) => "status "@ + signed_decimal(c as int),
                None => "no status"@,
            } + "): "@ + stderr@,
        }
    }

    /// A message with the context needed to diagnose the failure: the paths
    /// probed, the launch error, the number of probes, or the exit status
    /// and captured stderr.
    pub fn message(&self) -> (r: String)
        ensures
            r@ == self.spec_message(),
    {
        let mut s = String::new();
        match self {
            SupervisorError::LocatorNotFound(probed) => {
                s.append("backend entry point not found; probed: ");
                push_joined(&mut s, probed, ", ");
            },
            SupervisorError::SpawnFailure(m) => {
                s.append("failed to launch the backend: ");
                s.append(m.as_str());
            },
            SupervisorError::HealthCheckTimeout(n) => {
                s.append("backend did not answer healthy after ");
                push_decimal(&mut s, *n as u64);
                s.append(" probe(s)");
            },
            SupervisorError::BackendCrashed { exit_status, stderr } => {
                s.append("backend exited during startup (");
                match exit_status {
                    Some(c) => {
                        s.append("status ");
                        push_signed_decimal(&mut s, *c);
                    },
                    None => {
                        s.append("no status");
                    },
                }
                s.append("): ");
                s.append(stderr.as_str());
            },
        }
        assert(s@ =~= self.spec_message());
        s
    }
}

/// How an operation ended well.
#[derive(Clone, Copy, Debug, PartialEq, Eq, Structural)]
pub enum Completion {
    /// A new process was spawned and answered healthy.
    Started,
    /// The process already running answered healthy; nothing was spawned.
    AlreadyRunning,
    /// A process is running (answer to a status request).
    Running,
    /// No process is running.
    Stopped,
}

/// What the host reports.
#[derive(Debug)]
pub enum Event {
    StartRequested,
    StopRequested,
    StatusRequested,
    /// The owned process has exited, with its status and captured stderr.
    Exited { exit_status: Option<i32>, stderr: String },
    /// The owned process has not exited.
    StillRunning,
    /// The health endpoint answered healthy.
    Healthy,
    /// The health endpoint did not answer healthy.
    Unhealthy,
    Located(Candidate),
    NotFound(LocatorNotFound),
    Spawned,
    SpawnFailed(String),
    Slept,
    /// The process has ended and has been waited on.
    Terminated,
    /// The process did not end within the termination timeout.
    TerminationTimedOut,
}

/// What the host does next.
#[derive(Debug)]
pub enum Action {
    /// Check without blocking whether the owned process has exited; answer
    /// `Exited` (after reaping it and draining its stderr) or `StillRunning`.
    CheckExited,
    /// Probe the health endpoint; answer `Healthy` or `Unhealthy`.
    Probe,
    /// Look for the entry point; answer `Located` or `NotFound`.
    Locate,
    /// Spawn this entry point with the endpoint's startup flags, capturing
    /// its stderr; answer `Spawned` or `SpawnFailed`.
    Spawn(Candidate),
    /// Sleep this many milliseconds; answer `Slept`.
    Sleep(u64),
    /// Signal the process to terminate and wait for it at most this many
    /// milliseconds; answer `Terminated` or `TerminationTimedOut`.
    Terminate(u64),
    /// Kill the process and wait for it; answer `Terminated`.
    Kill,
    /// The operation is over, with this result.
    Report(Result<Completion, SupervisorError>),
    /// The event does not belong to the current stage; nothing changed.
    Ignore,
}

/// The process supervisor: the only owner of the lifecycle state.
pub struct Supervisor {
    pub config: SupervisorConfig,
    pub stage: Stage,
    pub request: Request,
    /// The kind of the owned process; `None` when no process is owned.
    pub process: Option<EntryKind>,
    /// The kind of entry point located for the start in progress.
    pub kind: EntryKind,
    /// Readiness probes made for the start in progress.
    pub probes: u32,
    /// The start in progress gave up on an unresponsive process, which is
    /// being terminated.
    pub timed_out: bool,
}

impl Supervisor {
    pub open spec fn wf(self) -> bool {
        &&& self.config.probe_attempts >= 1
        &&& match self.stage {
            Stage::Idle => !self.timed_out,
            Stage::CheckingExit => self.process is Some && !self.timed_out,
            Stage::CheckingLiveness => self.process is Some && self.request == Request::Start
                && !self.timed_out,
            Stage::Locating | Stage::Spawning => self.process is None && self.request
                == Request::Start && !self.timed_out,
            Stage::Grace | Stage::Probing => self.process is Some && self.request == Request::Start
                && self.probes < self.config.probe_attempts && !self.timed_out,
            Stage::ProbeWait => self.process is Some && self.request == Request::Start && 1
                <= self.probes < self.config.probe_attempts && !self.timed_out,
            Stage::CheckingCrash => self.process is Some && self.request == Request::Start
                && self.probes == self.config.probe_attempts && !self.timed_out,
            Stage::Terminating | Stage::Killing => self.process is Some && (self.timed_out
                ==> self.request == Request::Start),
        }
    }

    /// The observable lifecycle state.
    pub open spec fn spec_phase(self) -> Phase {
        match self.stage {
            Stage::Idle => if self.process is Some {
                Phase::Running
            } else {
                Phase::Stopped
            },
            Stage::CheckingExit => if self.request == Request::Stop {
                Phase::Stopping
            } else {
                Phase::Running
            },
            Stage::CheckingLiveness => Phase::Running,
            Stage::Locating | Stage::Spawning => Phase::Starting,
            Stage::Grace | Stage::Probing | Stage::ProbeWait | Stage::CheckingCrash => Phase::Probing,
            Stage::Terminating | Stage::Killing => Phase::Stopping,
        }
    }

    /// The state once the owned process has ended and been waited on.
    pub open spec fn spec_after_termination(self) -> (Supervisor, Action) {
        let gone = Supervisor { process: None, timed_out: false, ..self };
        if self.request == Request::Start {
            if self.timed_out {
                (
                    Supervisor { stage: Stage::Idle, ..gone },
                    Action::Report(Err(SupervisorError::HealthCheckTimeout(self.probes))),
                )
            } else {
                (Supervisor { stage: Stage::Locating, ..gone }, Action::Locate)
            }
        } else {
            (Supervisor { stage: Stage::Idle, ..gone }, Action::Report(Ok(Completion::Stopped)))
        }
    }

    /// The next state and action after event `ev`.
    pub open spec fn spec_step(self, ev: Event) -> (Supervisor, Action) {
        let terminate = Action::Terminate(self.config.terminate_timeout_ms);
        match (self.stage, ev) {
            (Stage::Idle, Event::StartRequested) => if self.process is Some {
                (Supervisor { stage: Stage::CheckingExit, request: Request::Start, ..self }, Action::CheckExited)
            } else {
                (Supervisor { stage: Stage::Locating, request: Request::Start, ..self }, Action::Locate)
            },
            (Stage::Idle, Event::StopRequested) => if self.process is Some {
                (Supervisor { stage: Stage::CheckingExit, request: Request::Stop, ..self }, Action::CheckExited)
            } else {
                (self, Action::Report(Ok(Completion::Stopped)))
            },
            (Stage::Idle, Event::StatusRequested) => if self.process is Some {
                (Supervisor { stage: Stage::CheckingExit, request: Request::Status, ..self }, Action::CheckExited)
            } else {
                (self, Action::Report(Ok(Completion::Stopped)))
            },
            (Stage::CheckingExit, Event::Exited { .. }) => {
                let reaped = Supervisor { process: None, ..self };
                if self.request == Request::Start {
                    (Supervisor { stage: Stage::Locating, ..reaped }, Action::Locate)
                } else {
                    (Supervisor { stage: Stage::Idle, ..reaped }, Action::Report(Ok(Completion::Stopped)))
                }
            },
            (Stage::CheckingExit, Event::StillRunning) => match self.request {
                Request::Start => (Supervisor { stage: Stage::CheckingLiveness, ..self }, Action::Probe),
                Request::Stop => (Supervisor { stage: Stage::Terminating, ..self }, terminate),
                Request::Status => (
                    Supervisor { stage: Stage::Idle, ..self },
                    Action::Report(Ok(Completion::Running)),
                ),
            },
            (Stage::CheckingLiveness, Event::Healthy) => (
                Supervisor { stage: Stage::Idle, ..self },
                Action::Report(Ok(Completion::AlreadyRunning)),
            ),
            (Stage::CheckingLiveness, Event::Unhealthy) => (
                Supervisor { stage: Stage::Terminating, ..self },
                terminate,
            ),
            (Stage::Locating, Event::Located(c)) => (
                Supervisor { stage: Stage::Spawning, kind: c.kind, ..self },
                Action::Spawn(c),
            ),
            (Stage::Locating, Event::NotFound(e)) => (
                Supervisor { stage: Stage::Idle, ..self },
                Action::Report(Err(SupervisorError::LocatorNotFound(e.probed))),
            ),
            (Stage::Spawning, Event::Spawned) => (
                Supervisor { stage: Stage::Grace, process: Some(self.kind), probes: 0, ..self },
                Action::Sleep(self.config.spec_grace(self.kind)),
            ),
            (Stage::Spawning, Event::SpawnFailed(m)) => (
                Supervisor { stage: Stage::Idle, ..self },
                Action::Report(Err(SupervisorError::SpawnFailure(m))),
            ),
            (Stage::Grace, Event::Slept) => (Supervisor { stage: Stage::Probing, ..self }, Action::Probe),
            (Stage::ProbeWait, Event::Slept) => (Supervisor { stage: Stage::Probing, ..self }, Action::Probe),
            (Stage::Probing, Event::Healthy) => (
                Supervisor { stage: Stage::Idle, ..self },
                Action::Report(Ok(Completion::Started)),
            ),
            (Stage::Probing, Event::Unhealthy) => {
                let made = (self.probes + 1) as u32;
                if made < self.config.probe_attempts {
                    (
                        Supervisor { stage: Stage::ProbeWait, probes: made, ..self },
                        Action::Sleep(self.config.probe_interval_ms),
                    )
                } else {
                    (Supervisor { stage: Stage::CheckingCrash, probes: made, ..self }, Action::CheckExited)
                }
            },
            (Stage::CheckingCrash, Event::Exited { exit_status, stderr }) => (
                Supervisor { stage: Stage::Idle, process: None, ..self },
                Action::Report(Err(SupervisorError::BackendCrashed { exit_status, stderr })),
            ),
            (Stage::CheckingCrash, Event::StillRunning) => (
                Supervisor { stage: Stage::Terminating, timed_out: true, ..self },
                terminate,
            ),
            (Stage::Terminating, Event::Terminated) => self.spec_after_termination(),
            (Stage::Killing, Event::Terminated) => self.spec_after_termination(),
            (Stage::Terminating, Event::TerminationTimedOut) => (
                Supervisor { stage: Stage::Killing, ..self },
                Action::Kill,
            ),
            _ => (self, Action::Ignore),
        }
    }

    /// A supervisor with no process.
    pub fn new(config: SupervisorConfig) -> (r: Supervisor)
        requires
            config.probe_attempts >= 1,
        ensures
            r.wf(),
            r.config == config,
            r.stage == Stage::Idle,
            r.process is None,
            r.spec_phase() == Phase::Stopped,
    {
        Supervisor {
            config,
            stage: Stage::Idle,
            request: Request::Status,
            process: None,
            kind: EntryKind::Executable,
            probes: 0,
            timed_out: false,
        }
    }

    /// The observable lifecycle state.
    pub fn phase(&self) -> (r: Phase)
        ensures
            r == self.spec_phase(),
    {
        match self.stage {
            Stage::Idle => if self.process.is_some() {
                Phase::Running
            } else {
                Phase::Stopped
            },
            Stage::CheckingExit => if self.request == Request::Stop {
                Phase::Stopping
            } else {
                Phase::Running
            },
            Stage::CheckingLiveness => Phase::Running,
            Stage::Locating | Stage::Spawning => Phase::Starting,
            Stage::Grace | Stage::Probing | Stage::ProbeWait | Stage::CheckingCrash => Phase::Probing,
            Stage::Terminating | Stage::Killing => Phase::Stopping,
        }
    }

    fn after_termination(&mut self) -> (r: Action)
        requires
            old(self).wf(),
            old(self).stage == Stage::Terminating || old(self).stage == Stage::Killing,
        ensures
            (*final(self), r) == old(self).spec_after_termination(),
    {
        let timed_out = self.timed_out;
        self.process = None;
        self.timed_out = false;
        if self.request == Request::Start {
            if timed_out {
                self.stage = Stage::Idle;
                Action::Report(Err(SupervisorError::HealthCheckTimeout(self.probes)))
            } else {
                self.stage = Stage::Locating;
                Action::Locate
            }
        } else {
            self.stage = Stage::Idle;
            Action::Report(Ok(Completion::Stopped))
        }
    }

    /// Takes in what the host reports and says what it does next.
    ///
    /// The owned process is only ever given up after it has been seen to
    /// exit or has been terminated and waited on.
    pub fn handle(&mut self, ev: Event) -> (r: Action)
        requires
            old(self).wf(),
        ensures
            (*final(self), r) == old(self).spec_step(ev),
            final(self).wf(),
            old(self).process is Some && final(self).process is None ==> (ev is Exited
                || ev is Terminated),
    {
        let ghost ev0 = ev;
        let terminate_ms = self.config.terminate_timeout_ms;
        match (self.stage, ev) {
            (Stage::Idle, Event::StartRequested) => {
                self.request = Request::Start;
                if self.process.is_some() {
                    self.stage = Stage::CheckingExit;
                    Action::CheckExited
                } else {
                    self.stage = Stage::Locating;
                    Action::Locate
                }
            },
            (Stage::Idle, Event::StopRequested) => {
                if self.process.is_some() {
                    self.request = Request::Stop;
                    self.stage = Stage::CheckingExit;
                    Action::CheckExited
                } else {
                    Action::Report(Ok(Completion::Stopped))
                }
            },
            (Stage::Idle, Event::StatusRequested) => {
                if self.process.is_some() {
                    self.request = Request::Status;
                    self.stage = Stage::CheckingExit;
                    Action::CheckExited
                } else {
                    Action::Report(Ok(Completion::Stopped))
                }
            },
            (Stage::CheckingExit, Event::Exited { .. }) => {
                self.process = None;
                if self.request == Request::Start {
                    self.stage = Stage::Locating;
                    Action::Locate
                } else {
                    self.stage = Stage::Idle;
                    Action::Report(Ok(Completion::Stopped))
                }
            },
            (Stage::CheckingExit, Event::StillRunning) => match self.request {
                Request::Start => {
                    self.stage = Stage::CheckingLiveness;
                    Action::Probe
                },
                Request::Stop => {
                    self.stage = Stage::Terminating;
                    Action::Terminate(terminate_ms)
                },
                Request::Status => {
                    self.stage = Stage::Idle;
                    Action::Report(Ok(Completion::Running))
                },
            },
            (Stage::CheckingLiveness, Event::Healthy) => {
                self.stage = Stage::Idle;
                Action::Report(Ok(Completion::AlreadyRunning))
            },
            (Stage::CheckingLiveness, Event::Unhealthy) => {
                self.stage = Stage::Terminating;
                Action::Terminate(terminate_ms)
            },
            (Stage::Locating, Event::Located(c)) => {
                self.stage = Stage::Spawning;
                self.kind = c.kind;
                Action::Spawn(c)
            },
            (Stage::Locating, Event::NotFound(e)) => {
                self.stage = Stage::Idle;
                Action::Report(Err(SupervisorError::LocatorNotFound(e.probed)))
            },
            (Stage::Spawning, Event::Spawned) => {
                self.stage = Stage::Grace;
                self.process = Some(self.kind);
                self.probes = 0;
                Action::Sleep(self.config.grace(self.kind))
            },
            (Stage::Spawning, Event::SpawnFailed(m)) => {
                self.stage = Stage::Idle;
                Action::Report(Err(SupervisorError::SpawnFailure(m)))
            },
            (Stage::Grace, Event::Slept) => {
                self.stage = Stage::Probing;
                Action::Probe
            },
            (Stage::ProbeWait, Event::Slept) => {
                self.stage = Stage::Probing;
                Action::Probe
            },
            (Stage::Probing, Event::Healthy) => {
                self.stage = Stage::Idle;
                Action::Report(Ok(Completion::Started))
            },
            (Stage::Probing, Event::Unhealthy) => {
                let made = self.probes + 1;
                self.probes = made;
                if made < self.config.probe_attempts {
                    self.stage = Stage::ProbeWait;
                    Action::Sleep(self.config.probe_interval_ms)
                } else {
                    self.stage = Stage::CheckingCrash;
                    Action::CheckExited
                }
            },
            (Stage::CheckingCrash, Event::Exited { exit_status, stderr }) => {
                self.stage = Stage::Idle;
                self.process = None;
                Action::Report(Err(SupervisorError::BackendCrashed { exit_status, stderr }))
            },
            (Stage::CheckingCrash, Event::StillRunning) => {
                self.stage = Stage::Terminating;
                self.timed_out = true;
                Action::Terminate(terminate_ms)
            },
            (Stage::Terminating, Event::Terminated) => self.after_termination(),
            (Stage::Killing, Event::Terminated) => self.after_termination(),
            (Stage::Terminating, Event::TerminationTimedOut) => {
                self.stage = Stage::Killing;
                Action::Kill
            },
            _ => Action::Ignore,
        }
    }
}

/// The state after feeding `evs` in order, and the actions taken.
pub open spec fn run(s: Supervisor, evs: Seq<Event>) -> (Supervisor, Seq<Action>)
    decreases evs.len(),
{
    if evs.len() == 0 {
        (s, Seq::empty())
    } else {
        let (next, a) = s.spec_step(evs[0]);
        let (last, rest) = run(next, evs.drop_first());
        (last, seq![a] + rest)
    }
}

/// How many of `acts` spawn a process.
pub open spec fn count_spawns(acts: Seq<Action>) -> nat
    decreases acts.len(),
{
    if acts.len() == 0 {
        0
    } else {
        (if acts[0] is Spawn { 1nat } else { 0nat }) + count_spawns(acts.drop_first())
    }
}

/// How many of `acts` signal the process to end.
pub open spec fn count_signals(acts: Seq<Action>) -> nat
    decreases acts.len(),
{
    if acts.len() == 0 {
        0
    } else {
        (if acts[0] is Terminate || acts[0] is Kill { 1nat } else { 0nat }) + count_signals(
            acts.drop_first(),
        )
    }
}

/// Starting twice against a backend that answers healthy spawns exactly
/// once: the second start finds the process alive and healthy, and reports
/// that it is already running.
pub proof fn lemma_start_is_idempotent(s: Supervisor, c: Candidate)
    requires
        s.wf(),
        s.stage == Stage::Idle,
        s.process is None,
    ensures
        ({
            let evs = seq![
                Event::StartRequested,
                Event::Located(c),
                Event::Spawned,
                Event::Slept,
                Event::Healthy,
                Event::StartRequested,
                Event::StillRunning,
                Event::Healthy,
            ];
            let (last, acts) = run(s, evs);
            &&& acts == seq![
                Action::Locate,
                Action::Spawn(c),
                Action::Sleep(s.config.spec_grace(c.kind)),
                Action::Probe,
                Action::Report(Ok(Completion::Started)),
                Action::CheckExited,
                Action::Probe,
                Action::Report(Ok(Completion::AlreadyRunning)),
            ]
            &&& count_spawns(acts) == 1
            &&& last.spec_phase() == Phase::Running
        }),
{
    let evs = seq![
        Event::StartRequested,
        Event::Located(c),
        Event::Spawned,
        Event::Slept,
        Event::Healthy,
        Event::StartRequested,
        Event::StillRunning,
        Event::Healthy,
    ];
    reveal_with_fuel(run, 9);
    reveal_with_fuel(count_spawns, 9);
    let (last, acts) = run(s, evs);
    assert(acts =~= seq![
        Action::Locate,
        Action::Spawn(c),
        Action::Sleep(s.config.spec_grace(c.kind)),
        Action::Probe,
        Action::Report(Ok(Completion::Started)),
        Action::CheckExited,
        Action::Probe,
        Action::Report(Ok(Completion::AlreadyRunning)),
    ]);
}

/// Crash detection is opportunistic: every request made while a process is
/// owned first asks whether that process has exited, before anything else
/// touches it.
pub proof fn lemma_requests_check_exit_first(s: Supervisor, ev: Event)
    requires
        s.wf(),
        s.stage == Stage::Idle,
        s.process is Some,
        ev is StartRequested || ev is StopRequested || ev is StatusRequested,
    ensures
        s.spec_step(ev).1 is CheckExited,
        s.spec_step(ev).0.stage == Stage::CheckingExit,
        s.spec_step(ev).0.process == s.process,
{
}

/// Stopping a stopped supervisor succeeds and changes nothing.
pub proof fn lemma_stop_when_stopped(s: Supervisor)
    requires
        s.wf(),
        s.spec_phase() == Phase::Stopped,
    ensures
        s.spec_step(Event::StopRequested) == (s, Action::Report(Ok(Completion::Stopped))),
{
}

/// Two stops, one after the other as the lock serialises them, send the
/// running process exactly one termination signal; both succeed and the
/// supervisor ends stopped.
pub proof fn lemma_stop_twice_signals_once(s: Supervisor)
    requires
        s.wf(),
        s.spec_phase() == Phase::Running,
        s.stage == Stage::Idle,
    ensures
        ({
            let evs = seq![
                Event::StopRequested,
                Event::StillRunning,
                Event::Terminated,
                Event::StopRequested,
            ];
            let (last, acts) = run(s, evs);
            &&& acts == seq![
                Action::CheckExited,
                Action::Terminate(s.config.terminate_timeout_ms),
                Action::Report(Ok(Completion::Stopped)),
                Action::Report(Ok(Completion::Stopped)),
            ]
            &&& count_signals(acts) == 1
            &&& last.spec_phase() == Phase::Stopped
        }),
{
    let evs = seq![Event::StopRequested, Event::StillRunning, Event::Terminated, Event::StopRequested];
    reveal_with_fuel(run, 5);
    reveal_with_fuel(count_signals, 5);
    let (last, acts) = run(s, evs);
    assert(acts =~= seq![
        Action::CheckExited,
        Action::Terminate(s.config.terminate_timeout_ms),
        Action::Report(Ok(Completion::Stopped)),
        Action::Report(Ok(Completion::Stopped)),
    ]);
}

/// The milliseconds that `acts` ask the host to sleep, in all.
pub open spec fn total_sleep(acts: Seq<Action>) -> nat
    decreases acts.len(),
{
    if acts.len() == 0 {
        0
    } else {
        (match acts[0] {
            Action::Sleep(ms) => ms as nat,
            _ => 0nat,
        }) + total_sleep(acts.drop_first())
    }
}

/// The events of `k + 1` failed readiness probes, after which the process
/// is found alive and is terminated.
pub open spec fn failed_probes(k: nat) -> Seq<Event>
    decreases k,
{
    if k == 0 {
        seq![Event::Unhealthy, Event::StillRunning, Event::Terminated]
    } else {
        seq![Event::Unhealthy, Event::Slept] + failed_probes((k - 1) as nat)
    }
}

/// A start against a backend that never answers healthy, with `probes`
/// readiness probes allowed.
pub open spec fn never_healthy_start(c: Candidate, probes: nat) -> Seq<Event> {
    seq![Event::StartRequested, Event::Located(c), Event::Spawned, Event::Slept] + failed_probes(
        (probes - 1) as nat,
    )
}

proof fn lemma_failed_probes(s: Supervisor, k: nat)
    requires
        s.wf(),
        s.stage == Stage::Probing,
        s.probes + k + 1 == s.config.probe_attempts,
    ensures
        ({
            let (last, acts) = run(s, failed_probes(k));
            &&& last.stage == Stage::Idle
            &&& last.process is None
            &&& last.config == s.config
            &&& acts.len() > 0
            &&& acts.last() == Action::Report(
                Err(SupervisorError::HealthCheckTimeout(s.config.probe_attempts)),
            )
            &&& total_sleep(acts) == k * s.config.probe_interval_ms
        }),
    decreases k,
{
    let evs = failed_probes(k);
    if k == 0 {
        reveal_with_fuel(run, 4);
        reveal_with_fuel(total_sleep, 4);
        let (last, acts) = run(s, evs);
        assert(acts =~= seq![
            Action::CheckExited,
            Action::Terminate(s.config.terminate_timeout_ms),
            Action::Report(Err(SupervisorError::HealthCheckTimeout(s.config.probe_attempts))),
        ]);
    } else {
        let rest = failed_probes((k - 1) as nat);
        assert(evs[0] == Event::Unhealthy);
        assert(evs.drop_first() =~= seq![Event::Slept] + rest);
        assert((seq![Event::Slept] + rest).drop_first() =~= rest);
        let (s1, a1) = s.spec_step(Event::Unhealthy);
        let (s2, a2) = s1.spec_step(Event::Slept);
        lemma_failed_probes(s2, (k - 1) as nat);
        let (last, acts_rest) = run(s2, rest);
        let (_, acts1) = run(s1, seq![Event::Slept] + rest);
        assert(acts1 == seq![a2] + acts_rest);
        let (_, acts) = run(s, evs);
        assert(acts == seq![a1] + acts1);
        assert((seq![a1] + acts1).drop_first() =~= acts1);
        assert((seq![a2] + acts_rest).drop_first() =~= acts_rest);
        assert(acts.last() == acts_rest.last());
        assert(total_sleep(acts1) == total_sleep(acts_rest));
        assert(total_sleep(acts) == s.config.probe_interval_ms + total_sleep(acts_rest));
        assert(k * s.config.probe_interval_ms == s.config.probe_interval_ms + (k - 1)
            * s.config.probe_interval_ms) by (nonlinear_arith);
    }
}

/// When the backend never answers healthy, a start makes every probe
/// allowed, waits the grace period and the interval between each two probes
/// and no more, terminates the unresponsive process, and fails with
/// `HealthCheckTimeout`, leaving the supervisor stopped.
pub proof fn lemma_never_healthy_times_out(s: Supervisor, c: Candidate)
    requires
        s.wf(),
        s.spec_phase() == Phase::Stopped,
        s.stage == Stage::Idle,
    ensures
        ({
            let (last, acts) = run(s, never_healthy_start(c, s.config.probe_attempts as nat));
            &&& last.spec_phase() == Phase::Stopped
            &&& last.process is None
            &&& acts.last() == Action::Report(
                Err(SupervisorError::HealthCheckTimeout(s.config.probe_attempts)),
            )
            &&& total_sleep(acts) == s.config.spec_grace(c.kind) + (s.config.probe_attempts - 1)
                * s.config.probe_interval_ms
        }),
{
    let n = s.config.probe_attempts;
    let rest = failed_probes((n - 1) as nat);
    let evs = never_healthy_start(c, n as nat);
    let (s1, a1) = s.spec_step(Event::StartRequested);
    let (s2, a2) = s1.spec_step(Event::Located(c));
    let (s3, a3) = s2.spec_step(Event::Spawned);
    let (s4, a4) = s3.spec_step(Event::Slept);
    lemma_failed_probes(s4, (n - 1) as nat);
    let e3 = seq![Event::Slept] + rest;
    let e2 = seq![Event::Spawned] + e3;
    let e1 = seq![Event::Located(c)] + e2;
    assert(evs =~= seq![Event::StartRequested] + e1);
    assert((seq![Event::StartRequested] + e1).drop_first() =~= e1);
    assert(e1.drop_first() =~= e2);
    assert(e2.drop_first() =~= e3);
    assert(e3.drop_first() =~= rest);
    let (last, acts4) = run(s4, rest);
    let (_, acts3) = run(s3, e3);
    let (_, acts2) = run(s2, e2);
    let (_, acts1) = run(s1, e1);
    let (_, acts) = run(s, evs);
    assert(acts3 == seq![a4] + acts4);
    assert(acts2 == seq![a3] + acts3);
    assert(acts1 == seq![a2] + acts2);
    assert(acts == seq![a1] + acts1);
    assert((seq![a4] + acts4).drop_first() =~= acts4);
    assert((seq![a3] + acts3).drop_first() =~= acts3);
    assert((seq![a2] + acts2).drop_first() =~= acts2);
    assert((seq![a1] + acts1).drop_first() =~= acts1);
    assert(acts.last() == acts4.last());
    assert(a3 == Action::Sleep(s.config.spec_grace(c.kind)));
    assert(total_sleep(acts3) == total_sleep(acts4));
    assert(total_sleep(acts2) == s.config.spec_grace(c.kind) + total_sleep(acts3));
    assert(total_sleep(acts1) == total_sleep(acts2));
    assert(total_sleep(acts) == total_sleep(acts1));
    assert(last.spec_phase() == Phase::Stopped);
}

} // verus!
