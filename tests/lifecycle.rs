use gigui_sidecar::locator::{Candidate, EntryKind, LocatorNotFound};
use gigui_sidecar::supervisor::{Action, Completion, Event, Phase, Supervisor, SupervisorConfig, SupervisorError};

fn exe() -> Candidate {
    Candidate { path: "/r/backend".to_string(), kind: EntryKind::Executable }
}

fn started() -> Supervisor {
    let mut s = Supervisor::new(SupervisorConfig::default());
    assert!(matches!(s.handle(Event::StartRequested), Action::Locate));
    assert!(matches!(s.handle(Event::Located(exe())), Action::Spawn(_)));
    assert!(matches!(s.handle(Event::Spawned), Action::Sleep(500)));
    assert!(matches!(s.handle(Event::Slept), Action::Probe));
    assert!(matches!(s.handle(Event::Healthy), Action::Report(Ok(Completion::Started))));
    assert_eq!(s.phase(), Phase::Running);
    s
}

#[test]
fn second_start_does_not_spawn() {
    let mut s = started();
    let mut spawns = 0;
    let mut a = s.handle(Event::StartRequested);
    loop {
        match a {
            Action::CheckExited => a = s.handle(Event::StillRunning),
            Action::Probe => a = s.handle(Event::Healthy),
            Action::Spawn(_) => {
                spawns += 1;
                a = s.handle(Event::Spawned);
            }
            Action::Report(r) => {
                assert!(matches!(r, Ok(Completion::AlreadyRunning)));
                break;
            }
            other => panic!("unexpected {:?}", other),
        }
    }
    assert_eq!(spawns, 0);
    assert_eq!(s.phase(), Phase::Running);
}

#[test]
fn stop_when_stopped_is_a_no_op() {
    let mut s = Supervisor::new(SupervisorConfig::default());
    assert!(matches!(s.handle(Event::StopRequested), Action::Report(Ok(Completion::Stopped))));
    assert_eq!(s.phase(), Phase::Stopped);
}

#[test]
fn two_stops_signal_once() {
    let mut s = started();
    let mut signals = 0;
    for _ in 0..2 {
        let mut a = s.handle(Event::StopRequested);
        loop {
            match a {
                Action::CheckExited => a = s.handle(Event::StillRunning),
                Action::Terminate(ms) => {
                    assert_eq!(ms, 5000);
                    signals += 1;
                    a = s.handle(Event::Terminated);
                }
                Action::Kill => {
                    signals += 1;
                    a = s.handle(Event::Terminated);
                }
                Action::Report(r) => {
                    assert!(matches!(r, Ok(Completion::Stopped)));
                    break;
                }
                other => panic!("unexpected {:?}", other),
            }
        }
    }
    assert_eq!(signals, 1);
    assert_eq!(s.phase(), Phase::Stopped);
}

#[test]
fn stop_escalates_to_kill() {
    let mut s = started();
    assert!(matches!(s.handle(Event::StopRequested), Action::CheckExited));
    assert_eq!(s.phase(), Phase::Stopping);
    assert!(matches!(s.handle(Event::StillRunning), Action::Terminate(5000)));
    assert!(matches!(s.handle(Event::TerminationTimedOut), Action::Kill));
    assert!(matches!(s.handle(Event::Terminated), Action::Report(Ok(Completion::Stopped))));
    assert_eq!(s.phase(), Phase::Stopped);
}

#[test]
fn never_healthy_times_out_and_leaves_stopped() {
    let config = SupervisorConfig {
        probe_attempts: 10,
        probe_interval_ms: 1000,
        grace_executable_ms: 0,
        grace_script_ms: 0,
        terminate_timeout_ms: 3000,
    };
    let mut s = Supervisor::new(config);
    let mut slept: u64 = 0;
    let mut probes = 0;
    let mut a = s.handle(Event::StartRequested);
    let result = loop {
        match a {
            Action::Locate => a = s.handle(Event::Located(exe())),
            Action::Spawn(_) => a = s.handle(Event::Spawned),
            Action::Sleep(ms) => {
                slept += ms;
                a = s.handle(Event::Slept);
            }
            Action::Probe => {
                probes += 1;
                assert_eq!(s.phase(), Phase::Probing);
                a = s.handle(Event::Unhealthy);
            }
            Action::CheckExited => a = s.handle(Event::StillRunning),
            Action::Terminate(_) => a = s.handle(Event::Terminated),
            Action::Report(r) => break r,
            other => panic!("unexpected {:?}", other),
        }
    };
    assert_eq!(probes, 10);
    assert_eq!(slept, 9000);
    match result {
        Err(e) => {
            assert!(matches!(e, SupervisorError::HealthCheckTimeout(10)));
            assert_eq!(e.message(), "backend did not answer healthy after 10 probe(s)");
        }
        Ok(_) => panic!("expected a timeout"),
    }
    assert_eq!(s.phase(), Phase::Stopped);
    assert!(s.process.is_none());
}

#[test]
fn crash_during_startup_reports_stderr() {
    let config = SupervisorConfig { probe_attempts: 2, ..SupervisorConfig::default() };
    let mut s = Supervisor::new(config);
    s.handle(Event::StartRequested);
    s.handle(Event::Located(Candidate { path: "/r/main.py".to_string(), kind: EntryKind::Script }));
    assert!(matches!(s.handle(Event::Spawned), Action::Sleep(2000)));
    assert!(matches!(s.handle(Event::Slept), Action::Probe));
    assert!(matches!(s.handle(Event::Unhealthy), Action::Sleep(1000)));
    assert!(matches!(s.handle(Event::Slept), Action::Probe));
    assert!(matches!(s.handle(Event::Unhealthy), Action::CheckExited));
    match s.handle(Event::Exited { exit_status: Some(1), stderr: "ImportError".to_string() }) {
        Action::Report(Err(e)) => {
            assert_eq!(e.message(), "backend exited during startup (status 1): ImportError");
        }
        other => panic!("unexpected {:?}", other),
    }
    assert_eq!(s.phase(), Phase::Stopped);
}

#[test]
fn locator_and_spawn_failures_are_reported() {
    let mut s = Supervisor::new(SupervisorConfig::default());
    s.handle(Event::StartRequested);
    assert_eq!(s.phase(), Phase::Starting);
    let nf = LocatorNotFound { probed: vec!["A".to_string(), "B".to_string()] };
    match s.handle(Event::NotFound(nf)) {
        Action::Report(Err(e)) => assert_eq!(e.message(), "backend entry point not found; probed: A, B"),
        other => panic!("unexpected {:?}", other),
    }
    assert_eq!(s.phase(), Phase::Stopped);
    s.handle(Event::StartRequested);
    s.handle(Event::Located(exe()));
    match s.handle(Event::SpawnFailed("permission denied".to_string())) {
        Action::Report(Err(e)) => assert_eq!(e.message(), "failed to launch the backend: permission denied"),
        other => panic!("unexpected {:?}", other),
    }
    assert_eq!(s.phase(), Phase::Stopped);
}

#[test]
fn exited_process_is_reaped_before_restart() {
    let mut s = started();
    assert!(matches!(s.handle(Event::StartRequested), Action::CheckExited));
    assert!(matches!(
        s.handle(Event::Exited { exit_status: Some(-9), stderr: String::new() }),
        Action::Locate
    ));
    assert!(s.process.is_none());
    assert_eq!(s.phase(), Phase::Starting);
}

#[test]
fn unhealthy_running_process_is_replaced() {
    let mut s = started();
    s.handle(Event::StartRequested);
    assert!(matches!(s.handle(Event::StillRunning), Action::Probe));
    assert!(matches!(s.handle(Event::Unhealthy), Action::Terminate(5000)));
    assert!(matches!(s.handle(Event::Terminated), Action::Locate));
}

#[test]
fn status_reaps_a_dead_process() {
    let mut s = started();
    assert!(matches!(s.handle(Event::StatusRequested), Action::CheckExited));
    assert!(matches!(s.handle(Event::StillRunning), Action::Report(Ok(Completion::Running))));
    s.handle(Event::StatusRequested);
    assert!(matches!(
        s.handle(Event::Exited { exit_status: None, stderr: String::new() }),
        Action::Report(Ok(Completion::Stopped))
    ));
    assert_eq!(s.phase(), Phase::Stopped);
}

#[test]
fn unexpected_events_are_ignored() {
    let mut s = Supervisor::new(SupervisorConfig::default());
    assert!(matches!(s.handle(Event::Healthy), Action::Ignore));
    assert!(matches!(s.handle(Event::Terminated), Action::Ignore));
    assert_eq!(s.phase(), Phase::Stopped);
}
