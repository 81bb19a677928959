use sidecar_supervisor::diag::DiagnosticLog;
use sidecar_supervisor::supervisor::ChildHandle;
use sidecar_supervisor::supervisor::LaunchError;
use sidecar_supervisor::supervisor::LaunchSpec;
use sidecar_supervisor::supervisor::PollStep;
use sidecar_supervisor::supervisor::Supervisor;
use sidecar_supervisor::supervisor::SupervisorState;

fn fresh(max_attempts: u32) -> (Supervisor, DiagnosticLog) {
    let spec = LaunchSpec::for_port("worker-api".to_string(), 5000);
    let sup = Supervisor::new(spec, 5000, max_attempts, 500);
    let log = DiagnosticLog::new("debug-session".to_string(), "run1".to_string());
    (sup, log)
}

/// Walks the run up to the point where the worker is spawned and polling can
/// begin.
fn spawned(max_attempts: u32, pid: u32) -> (Supervisor, DiagnosticLog) {
    let (mut sup, mut log) = fresh(max_attempts);
    sup.start(&mut log, 100);
    let (_, err) = sup.on_resolution(true, "", &mut log, 100);
    assert!(err.is_none());
    let (_, err) = sup.on_spawn(Ok(pid), &mut log, 100);
    assert!(err.is_none());
    (sup, log)
}

#[test]
fn launch_spec_injects_the_port_environment() {
    let spec = LaunchSpec::for_port("worker-api".to_string(), 5000);
    assert_eq!(spec.executable, "worker-api");
    assert_eq!(spec.env.len(), 1);
    assert_eq!(spec.env[0].0, "PORT");
    assert_eq!(spec.env[0].1, "5000");
}

#[test]
fn scenario_ready_within_two_attempts() {
    let (mut sup, mut log) = spawned(15, 4242);
    let mut outcomes = vec![false; 15];
    outcomes[1] = true;
    let (ready, lines) = sup.await_ready(&outcomes, &mut log, 100);
    assert!(ready);
    assert_eq!(sup.attempts, 2);
    assert_eq!(sup.state, SupervisorState::Ready);
    assert_eq!(lines.len(), 3);
    assert_eq!(log.entries.len(), 6);
}

#[test]
fn scenario_never_ready_spends_the_whole_budget() {
    let (mut sup, mut log) = spawned(15, 4242);
    let outcomes = vec![false; 15];
    let (ready, lines) = sup.await_ready(&outcomes, &mut log, 100);
    assert!(!ready);
    assert_eq!(sup.attempts, 15);
    assert_eq!(sup.state, SupervisorState::Exhausted);
    assert_eq!(lines.len(), 16);
    // One entry per decision: start, resolution, spawn, 15 attempts, outcome.
    assert_eq!(log.entries.len(), 19);
    for ev in &log.entries {
        assert_eq!(ev.session_id, "debug-session");
        assert_eq!(ev.run_id, "run1");
    }
    assert_eq!(log.entries[0].message, "supervision started");
    assert_eq!(log.entries[0].data, "{\"port\":5000,\"maxAttempts\":15}");
    assert_eq!(log.entries[1].message, "executable resolved");
    assert_eq!(log.entries[2].message, "worker spawned");
    assert_eq!(log.entries[2].data, "{\"pid\":4242}");
    for (i, ev) in log.entries[3..18].iter().enumerate() {
        assert_eq!(ev.location, "supervisor:probe");
        assert_eq!(ev.message, "probe attempt");
        assert_eq!(
            ev.data,
            format!("{{\"attempt\":{},\"maxAttempts\":15,\"connected\":false}}", i + 1)
        );
    }
    assert_eq!(log.entries[18].message, "polling concluded");
    assert_eq!(log.entries[18].data, "{\"ready\":false,\"attempts\":15}");
    assert_eq!(
        lines[0],
        "{\"location\":\"supervisor:probe\",\"message\":\"probe attempt\",\"data\":{\"attempt\":1,\"maxAttempts\":15,\"connected\":false},\"timestamp\":100,\"sessionId\":\"debug-session\",\"runId\":\"run1\"}"
    );
}

#[test]
fn scenario_unresolved_executable_is_fatal_and_probes_nothing() {
    let (mut sup, mut log) = fresh(15);
    sup.start(&mut log, 100);
    let (_, err) = sup.on_resolution(false, "worker binary not found", &mut log, 100);
    match err {
        Some(LaunchError::ResolutionFailed(d)) => assert_eq!(d, "worker binary not found"),
        other => panic!("expected a resolution failure, got {:?}", other),
    }
    assert_eq!(sup.state, SupervisorState::SpawnFailed);
    assert_eq!(sup.attempts, 0);
    assert_eq!(sup.child_pid(), None);
    assert_eq!(log.entries.len(), 2);
    assert_eq!(log.entries[1].message, "worker binary not found");
    assert_eq!(log.entries[1].data, "{\"step\":\"resolutionFailed\"}");
}

#[test]
fn scenario_refused_spawn_is_fatal() {
    let (mut sup, mut log) = fresh(15);
    sup.start(&mut log, 100);
    let (_, err) = sup.on_resolution(true, "", &mut log, 100);
    assert!(err.is_none());
    let (_, err) = sup.on_spawn(Err("permission denied".to_string()), &mut log, 100);
    match err {
        Some(LaunchError::SpawnFailed(d)) => assert_eq!(d, "permission denied"),
        other => panic!("expected a spawn failure, got {:?}", other),
    }
    assert_eq!(sup.state, SupervisorState::SpawnFailed);
    assert_eq!(sup.child_pid(), None);
    assert_eq!(log.entries.len(), 3);
    assert_eq!(log.entries[2].message, "permission denied");
}

#[test]
fn first_success_stops_the_poll_at_once() {
    let (mut sup, mut log) = spawned(15, 7);
    let (_, step) = sup.on_probe(true, &mut log, 100);
    assert_eq!(step, PollStep::Ready);
    assert_eq!(sup.state, SupervisorState::Ready);
    assert_eq!(sup.attempts, 1);
    let (_, ready) = sup.conclude(&mut log, 100);
    assert!(ready);
    assert_eq!(log.entries.len(), 5);
    assert_eq!(log.entries[4].data, "{\"ready\":true,\"attempts\":1}");
}

#[test]
fn an_unsuccessful_probe_keeps_polling_until_the_budget_ends() {
    let (mut sup, mut log) = spawned(3, 7);
    let (_, step) = sup.on_probe(false, &mut log, 100);
    assert_eq!(step, PollStep::Continue);
    assert_eq!(sup.state, SupervisorState::Polling);
    let (_, step) = sup.on_probe(false, &mut log, 100);
    assert_eq!(step, PollStep::Continue);
    let (_, step) = sup.on_probe(false, &mut log, 100);
    assert_eq!(step, PollStep::Exhausted);
    assert_eq!(sup.state, SupervisorState::Exhausted);
    assert_eq!(sup.attempts, 3);
}

#[test]
fn the_worker_handle_is_retained_for_good() {
    let (mut sup, mut log) = spawned(2, 31337);
    assert_eq!(sup.child_pid(), Some(31337));
    assert_eq!(sup.handle, Some(ChildHandle { pid: 31337 }));
    let outcomes = vec![false, false];
    let (ready, _) = sup.await_ready(&outcomes, &mut log, 100);
    assert!(!ready);
    assert_eq!(sup.child_pid(), Some(31337));
}

#[test]
fn readiness_is_found_on_the_last_allowed_attempt() {
    let (mut sup, mut log) = spawned(4, 1);
    let mut outcomes = vec![false; 4];
    outcomes[3] = true;
    let (ready, lines) = sup.await_ready(&outcomes, &mut log, 100);
    assert!(ready);
    assert_eq!(sup.attempts, 4);
    assert_eq!(sup.state, SupervisorState::Ready);
    assert_eq!(lines.len(), 5);
}

#[test]
fn polling_timestamps_are_monotone_even_with_a_lagging_clock() {
    let (mut sup, mut log) = spawned(2, 9);
    sup.on_probe(false, &mut log, 50);
    sup.on_probe(false, &mut log, 40);
    sup.conclude(&mut log, 60);
    let ts: Vec<u64> = log.entries.iter().map(|e| e.timestamp).collect();
    for w in ts.windows(2) {
        assert!(w[0] <= w[1]);
    }
}

#[test]
fn an_already_ready_target_needs_one_attempt_only() {
    let (mut sup, mut log) = spawned(15, 4242);
    let outcomes = vec![true; 15];
    let (ready, lines) = sup.await_ready(&outcomes, &mut log, 100);
    assert!(ready);
    assert_eq!(sup.attempts, 1);
    assert_eq!(sup.state, SupervisorState::Ready);
    assert_eq!(lines.len(), 2);
    assert_eq!(log.entries.len(), 5);
}
