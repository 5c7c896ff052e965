use sidecar_supervisor::launch::{HostPath, LaunchSpec, Platform, ResolveError};
use sidecar_supervisor::status::{exited_unready_event, spawn_failed_event, resolve_failed_event, OutputStream, StatusEvent};
use sidecar_supervisor::supervisor::{Action, Diagnostic, Phase, Supervisor, SupervisorInput};

fn stub_spec(exe: &str) -> LaunchSpec {
    LaunchSpec {
        executable: HostPath { parts: vec!["/".to_string(), "opt".to_string(), exe.to_string()] },
        arguments: Vec::new(),
        working_directory: HostPath { parts: vec!["/".to_string(), "opt".to_string()] },
        hide_console_window: false,
    }
}

fn count(acts: &[Action], f: fn(&Action) -> bool) -> usize {
    acts.iter().filter(|a| f(a)).count()
}

fn is_ready(a: &Action) -> bool {
    matches!(a, Action::Notify(StatusEvent::BackendReady))
}

fn is_exited(a: &Action) -> bool {
    matches!(a, Action::Notify(StatusEvent::BackendExitedUnready(_)))
}

fn is_spawn_failed(a: &Action) -> bool {
    matches!(a, Action::Notify(StatusEvent::SpawnFailed(_)))
}

#[test]
fn stub_that_prints_marker_is_ready_once() {
    let mut s = Supervisor::new(Platform::Other);
    let acts = s.handle_all(vec![
        SupervisorInput::Resolved(Ok(stub_spec("stub"))),
        SupervisorInput::Spawned(42),
        SupervisorInput::StdoutLine("STATUS: SERVER_STARTED".to_string()),
    ]);
    assert_eq!(count(&acts, is_ready), 1);
    assert_eq!(count(&acts, is_exited), 0);
    assert_eq!(s.worker(), Some(42));
    assert!(s.is_ready());
    assert!(matches!(acts[0], Action::Spawn(_)));
    assert!(matches!(acts[1], Action::Report(Diagnostic::WorkerStarted(42))));
    match &acts[2] {
        Action::Notify(StatusEvent::LogLine(OutputStream::Stdout, l)) => assert_eq!(l, "STATUS: SERVER_STARTED"),
        other => panic!("unexpected {:?}", other),
    }
    assert!(is_ready(&acts[3]));
}

#[test]
fn stub_that_exits_silently_is_reported_once() {
    let mut s = Supervisor::new(Platform::Other);
    let acts = s.handle_all(vec![
        SupervisorInput::Resolved(Ok(stub_spec("stub"))),
        SupervisorInput::Spawned(7),
        SupervisorInput::StdoutClosed,
        SupervisorInput::StdoutClosed,
    ]);
    assert_eq!(count(&acts, is_exited), 1);
    assert_eq!(count(&acts, is_ready), 0);
    assert_eq!(s.phase, Phase::Finished);
    assert_eq!(s.worker(), None);
    match acts.last() {
        Some(Action::Notify(StatusEvent::BackendExitedUnready(m))) => {
            assert_eq!(m, "Error: Backend process exited unexpectedly. Check logs.")
        }
        other => panic!("unexpected {:?}", other),
    }
}

#[test]
fn missing_executable_is_reported_once() {
    let mut s = Supervisor::new(Platform::Other);
    let acts = s.handle_all(vec![
        SupervisorInput::Resolved(Ok(stub_spec("does-not-exist"))),
        SupervisorInput::SpawnError("No such file or directory (os error 2)".to_string()),
        SupervisorInput::StdoutClosed,
    ]);
    assert_eq!(count(&acts, is_spawn_failed), 1);
    assert_eq!(count(&acts, is_ready), 0);
    assert_eq!(count(&acts, is_exited), 0);
    assert_eq!(s.worker(), None);
    match acts.last() {
        Some(Action::Notify(StatusEvent::SpawnFailed(m))) => {
            assert_eq!(m, "Error: No such file or directory (os error 2)")
        }
        other => panic!("unexpected {:?}", other),
    }
}

#[test]
fn resolution_failure_is_reported_without_spawn() {
    let mut s = Supervisor::new(Platform::Windows);
    let acts = s.handle(SupervisorInput::Resolved(Err(ResolveError::ResourceUnavailable("gone".to_string()))));
    assert_eq!(acts.len(), 1);
    match &acts[0] {
        Action::Notify(StatusEvent::SpawnFailed(m)) => {
            assert_eq!(m, "Error: Failed to resolve backend binary 'rag_api_server.exe': gone")
        }
        other => panic!("unexpected {:?}", other),
    }
    assert_eq!(s.phase, Phase::Finished);
    assert!(s.handle(SupervisorInput::Resolved(Ok(stub_spec("stub")))).is_empty());
}

#[test]
fn late_exit_is_only_logged() {
    let mut s = Supervisor::new(Platform::Other);
    let acts = s.handle_all(vec![
        SupervisorInput::Resolved(Ok(stub_spec("stub"))),
        SupervisorInput::Spawned(9),
        SupervisorInput::StdoutLine("x STATUS: SERVER_STARTED".to_string()),
        SupervisorInput::StdoutLine("STATUS: SERVER_STARTED".to_string()),
        SupervisorInput::StderrLine("warning".to_string()),
        SupervisorInput::StdoutClosed,
        SupervisorInput::StderrLine("bye".to_string()),
    ]);
    assert_eq!(count(&acts, is_ready), 1);
    assert_eq!(count(&acts, is_exited), 0);
    assert!(matches!(acts[acts.len() - 2], Action::Report(Diagnostic::WorkerExitedAfterReady)));
    match acts.last() {
        Some(Action::Notify(StatusEvent::LogLine(OutputStream::Stderr, l))) => assert_eq!(l, "bye"),
        other => panic!("unexpected {:?}", other),
    }
}

#[test]
fn lines_before_spawn_are_ignored() {
    let mut s = Supervisor::new(Platform::Other);
    assert!(s.handle(SupervisorInput::StdoutLine("STATUS: SERVER_STARTED".to_string())).is_empty());
    assert!(s.handle(SupervisorInput::Spawned(3)).is_empty());
    assert!(!s.is_ready());
}

#[test]
fn shutdown_twice_acts_once() {
    let mut s = Supervisor::new(Platform::Windows);
    s.handle_all(vec![SupervisorInput::Resolved(Ok(stub_spec("stub"))), SupervisorInput::Spawned(5)]);
    let first = s.handle(SupervisorInput::HostTerminating);
    assert_eq!(first.len(), 2);
    assert!(matches!(first[0], Action::KillWorker));
    match &first[1] {
        Action::TerminateByName(n) => assert_eq!(n, "rag_api_server.exe"),
        other => panic!("unexpected {:?}", other),
    }
    assert_eq!(s.worker(), None);
    assert_eq!(s.phase, Phase::Finished);
    let second = s.handle(SupervisorInput::HostTerminating);
    assert!(second.is_empty());
    assert_eq!(s.worker(), None);
}

#[test]
fn output_end_after_shutdown_is_no_failure() {
    let mut s = Supervisor::new(Platform::Other);
    let acts = s.handle_all(vec![
        SupervisorInput::Resolved(Ok(stub_spec("stub"))),
        SupervisorInput::Spawned(8),
        SupervisorInput::HostTerminating,
        SupervisorInput::StdoutLine("STATUS: SERVER_STARTED".to_string()),
        SupervisorInput::StdoutClosed,
    ]);
    assert_eq!(count(&acts, is_exited), 0);
    assert_eq!(count(&acts, is_ready), 0);
    assert_eq!(acts.len(), 3);
    assert!(matches!(acts[2], Action::KillWorker));
    assert_eq!(s.worker(), None);
}

#[test]
fn shutdown_without_worker_kills_nothing() {
    let mut s = Supervisor::new(Platform::Other);
    assert!(s.handle(SupervisorInput::HostTerminating).is_empty());
    assert!(s.handle(SupervisorInput::HostTerminating).is_empty());
    assert!(s.handle(SupervisorInput::Resolved(Ok(stub_spec("stub")))).is_empty());
    let mut w = Supervisor::new(Platform::Windows);
    let acts = w.handle(SupervisorInput::HostTerminating);
    assert_eq!(acts.len(), 1);
    assert!(matches!(acts[0], Action::TerminateByName(_)));
}

#[test]
fn worker_spawned_after_shutdown_is_killed() {
    let mut s = Supervisor::new(Platform::Other);
    s.handle(SupervisorInput::Resolved(Ok(stub_spec("stub"))));
    s.handle(SupervisorInput::HostTerminating);
    let acts = s.handle(SupervisorInput::Spawned(11));
    assert_eq!(acts.len(), 2);
    assert!(matches!(acts[1], Action::KillWorker));
    assert_eq!(s.worker(), None);
}

#[test]
fn event_messages_for_display() {
    match spawn_failed_event("denied") {
        StatusEvent::SpawnFailed(m) => assert_eq!(m, "Error: denied"),
        other => panic!("unexpected {:?}", other),
    }
    match resolve_failed_event(Platform::Other, ResolveError::NoContainingDirectory) {
        StatusEvent::SpawnFailed(m) => {
            assert_eq!(m, "Error: Backend binary 'rag_api_server' has no containing directory")
        }
        other => panic!("unexpected {:?}", other),
    }
    assert_eq!(
        exited_unready_event().display_text(),
        Some("Error: Backend process exited unexpectedly. Check logs.".to_string())
    );
    assert_eq!(StatusEvent::BackendReady.display_text(), Some("Backend started!".to_string()));
    assert_eq!(StatusEvent::LogLine(OutputStream::Stderr, "x".to_string()).display_text(), None);
}
