use knot::client::connect::{check_artifacts, read_lock_pid, ArtifactCheck, ClientBuilder, ConnectProbe, KnotClient};
use knot::client::errors::{ClientError, DaemonLifecycleError, IoFailure, IoKind};
use knot::client::handles::{kill_outcome, Artifact, CleanAction, ConnectState, KillHandle, StaleHandle};
use knot::client::kill::{
    map_signal_error, KillAction, KillPhase, KillProcedure, ProcessFailure, SignalError,
    SignalOutcome,
};
use knot::client::launch::{LaunchRetries, LaunchStep, LAUNCH_ATTEMPTS, LAUNCH_RETRY_DELAY_MS};
use knot::client::policies::{DaemonRequest, KillPolicy, PolicyConfig, TimeoutPolicy};
use knot::client::process::{same_name_ignoring_case, Process, ProcessError};
use knot::client::session::{command_id, execution_id, DaemonSession, WorkspaceState};

fn probe(
    lock: bool,
    socket: bool,
    connection: Option<u8>,
    lock_content: Option<&str>,
    bound: Option<Result<Process, ProcessError>>,
) -> ConnectProbe<u8, Process> {
    ConnectProbe {
        lock_exists: lock,
        socket_exists: socket,
        connection,
        lock_content: lock_content.map(|s| s.to_string()),
        bound,
    }
}

fn builder() -> ClientBuilder {
    ClientBuilder::new("/run/user/1000/knot", "/opt/knot/bin/knotd")
}

#[test]
fn connect_returns_offline_when_no_daemon_artifacts_exist() {
    match builder().resolve(probe(false, false, None, None, None)) {
        ConnectState::Offline(h) => {
            assert_eq!(h.runtime_dir, "/run/user/1000/knot");
            assert_eq!(h.daemon_path, "/opt/knot/bin/knotd");
        }
        _ => panic!("expected offline"),
    }
}

#[test]
fn connect_returns_stale_when_only_one_artifact_exists() {
    assert!(matches!(builder().resolve(probe(true, false, None, None, None)), ConnectState::Stale(_)));
    assert!(matches!(builder().resolve(probe(false, true, None, None, None)), ConnectState::Stale(_)));
}

#[test]
fn connect_returns_connected_when_connection_works() {
    assert!(matches!(builder().resolve(probe(true, true, Some(7), None, None)), ConnectState::Connected(7)));
}

#[test]
fn connect_returns_hung_for_bound_process() {
    let bound = Process::bind_to(4242, "knotd", Some("KnotD"));
    match builder().resolve(probe(true, true, None, Some(" 4242\n"), Some(bound))) {
        ConnectState::Hung(h) => {
            assert_eq!(h.process.pid(), 4242);
            assert_eq!(h.runtime_dir, "/run/user/1000/knot");
        }
        _ => panic!("expected hung"),
    }
}

#[test]
fn connect_returns_stale_for_dead_or_foreign_or_corrupted_lock() {
    let dead = Some(Process::bind_to(4242, "knotd", None));
    assert!(matches!(builder().resolve(probe(true, true, None, Some("4242"), dead)), ConnectState::Stale(_)));
    let foreign = Some(Process::bind_to(4242, "knotd", Some("bash")));
    assert!(matches!(builder().resolve(probe(true, true, None, Some("4242"), foreign)), ConnectState::Stale(_)));
    let bound = Some(Process::bind_to(4242, "knotd", Some("knotd")));
    assert!(matches!(builder().resolve(probe(true, true, None, Some("not a pid"), bound)), ConnectState::Stale(_)));
    assert!(matches!(builder().resolve(probe(true, true, None, None, None)), ConnectState::Stale(_)));
}

#[test]
fn artifacts_and_lock_pid() {
    assert_eq!(check_artifacts(false, false), ArtifactCheck::Offline);
    assert_eq!(check_artifacts(true, true), ArtifactCheck::Probe);
    assert_eq!(check_artifacts(true, false), ArtifactCheck::Stale);
    assert_eq!(check_artifacts(false, true), ArtifactCheck::Stale);
    assert_eq!(read_lock_pid("  123\n"), Some(123));
    assert_eq!(read_lock_pid("4294967295"), Some(4294967295));
    assert_eq!(read_lock_pid("4294967296"), None);
    assert_eq!(read_lock_pid(""), None);
    assert_eq!(read_lock_pid("12a"), None);
}

#[test]
fn builder_setters_and_defaults() {
    let b = builder()
        .with_timeout(TimeoutPolicy { fast_commands_ms: 10, long_streams_ms: Some(99) })
        .with_daemon_path("/tmp/knotd")
        .with_runtime_dir("/tmp/run");
    assert_eq!(b.runtime_dir, "/tmp/run");
    assert_eq!(b.daemon_path, "/tmp/knotd");
    assert_eq!(b.policy.timeout.fast_commands_ms, 10);
    assert_eq!(b.policy.timeout.long_streams_ms, Some(99));
    assert_eq!(b.policy.kill.graceful_timeout_ms, 200);
    assert_eq!(b.policy.kill.force_timeout_ms, 100);
}

#[test]
fn knot_client_builder_uses_standard_daemon_path() {
    if let Ok(b) = KnotClient::builder("/run/user/7/knot") {
        assert_eq!(b.runtime_dir, "/run/user/7/knot");
        assert!(b.daemon_path.ends_with("knotd"));
        assert!(b.daemon_path.contains("bin"));
    }
}

#[test]
fn policy_defaults() {
    let p = PolicyConfig::default();
    assert_eq!(p.timeout.fast_commands_ms, 3000);
    assert_eq!(p.timeout.long_streams_ms, None);
    assert_eq!(p.kill.graceful_timeout_ms, 200);
    assert_eq!(p.kill.force_timeout_ms, 100);
    let k = KillPolicy::new(0, 5);
    assert_eq!(k.graceful_timeout_ms, 0);
    assert_eq!(k.force_timeout_ms, 5);
}

#[test]
fn kill_does_not_call_kill_when_terminate_succeeds() {
    let (mut proc_, first) = KillProcedure::start(KillPolicy::default());
    assert!(matches!(first, KillAction::Terminate { timeout_ms: 200 }));
    assert!(matches!(proc_.on_outcome(SignalOutcome::Exited), KillAction::Done));
    assert_eq!(proc_.phase, KillPhase::Finished);
}

#[test]
fn kill_escalates_to_sigkill_when_terminate_not_responding() {
    let (mut proc_, _) = KillProcedure::start(KillPolicy::default());
    assert!(matches!(proc_.on_outcome(SignalOutcome::NotResponding), KillAction::Kill { timeout_ms: 100 }));
    assert_eq!(proc_.phase, KillPhase::Killing);
    assert!(matches!(proc_.on_outcome(SignalOutcome::Exited), KillAction::Done));
}

#[test]
fn kill_returns_not_responding_when_terminate_and_kill_both_not_responding() {
    let (mut proc_, _) = KillProcedure::start(KillPolicy::default());
    proc_.on_outcome(SignalOutcome::NotResponding);
    assert!(matches!(
        proc_.on_outcome(SignalOutcome::NotResponding),
        KillAction::Fail(SignalError::NotResponding)
    ));
}

#[test]
fn kill_does_not_escalate_on_mismatch_or_io_error() {
    let (mut a, _) = KillProcedure::start(KillPolicy::default());
    let mismatch = ProcessFailure::Mismatch { expected: "knotd".to_string(), actual: "bash".to_string() };
    match a.on_outcome(SignalOutcome::Failed(mismatch)) {
        KillAction::Fail(SignalError::ProcessError(ProcessFailure::Mismatch { expected, actual })) => {
            assert_eq!(expected, "knotd");
            assert_eq!(actual, "bash");
        }
        _ => panic!("expected a mismatch failure"),
    }
    let (mut b, _) = KillProcedure::start(KillPolicy::default());
    let io = ProcessFailure::Io(IoFailure { kind: IoKind::PermissionDenied, message: "denied".to_string() });
    assert!(matches!(
        b.on_outcome(SignalOutcome::Failed(io)),
        KillAction::Fail(SignalError::ProcessError(ProcessFailure::Io(_)))
    ));
}

#[test]
fn kill_treats_not_running_as_success() {
    let (mut a, _) = KillProcedure::start(KillPolicy::default());
    assert!(matches!(a.on_outcome(SignalOutcome::Failed(ProcessFailure::NotRunning)), KillAction::Done));
    let (mut b, _) = KillProcedure::start(KillPolicy::default());
    b.on_outcome(SignalOutcome::NotResponding);
    assert!(matches!(b.on_outcome(SignalOutcome::Failed(ProcessFailure::NotRunning)), KillAction::Done));
}

#[test]
fn kill_skips_terminate_and_goes_straight_to_kill_when_timeout_is_zero() {
    let (proc_, first) = KillProcedure::start(KillPolicy::new(0, 100));
    assert!(matches!(first, KillAction::Kill { timeout_ms: 100 }));
    assert_eq!(proc_.phase, KillPhase::Killing);
}

#[test]
fn kill_still_calls_terminate_when_timeout_is_nonzero() {
    let (_, first) = KillProcedure::start(KillPolicy::new(1, 100));
    assert!(matches!(first, KillAction::Terminate { timeout_ms: 1 }));
}

#[test]
fn launch_gives_up_after_all_attempts() {
    let mut retries = LaunchRetries::new();
    assert_eq!(retries.remaining(), LAUNCH_ATTEMPTS);
    assert_eq!(LAUNCH_ATTEMPTS, 40);
    for _ in 0..39 {
        match retries.on_attempt_failed("/opt/knotd") {
            LaunchStep::Retry { delay_ms } => assert_eq!(delay_ms, LAUNCH_RETRY_DELAY_MS),
            LaunchStep::GiveUp(_) => panic!("gave up too early"),
        }
    }
    match retries.on_attempt_failed("/opt/knotd") {
        LaunchStep::GiveUp(ClientError::Daemon(DaemonLifecycleError::LaunchFailed { message, binary_path, error })) => {
            assert_eq!(message, "daemon process was spawned, but IPC socket never appeared");
            assert_eq!(binary_path, "/opt/knotd");
            assert_eq!(error, "socket not found");
        }
        _ => panic!("expected to give up"),
    }
    assert_eq!(retries.remaining(), 0);
}

#[test]
fn bind_matches_process_name_case_insensitively() {
    assert_eq!(Process::bind_to(10, "knotd", Some("KNOTD")).unwrap().pid(), 10);
    assert!(same_name_ignoring_case("Knot-D", "knot-d"));
    assert!(!same_name_ignoring_case("knotd", "knot"));
    assert!(!same_name_ignoring_case("knotd", "knote"));
}

#[test]
fn bind_returns_mismatch_and_not_running() {
    match Process::bind_to(10, "knotd", Some("bash")) {
        Err(e) => {
            assert_eq!(e.message(), "process name mismatch: expected 'knotd', got 'bash'");
            assert!(matches!(e, ProcessError::Mismatch { .. }));
        }
        Ok(_) => panic!("expected a mismatch"),
    }
    match Process::bind_to(10, "knotd", None) {
        Err(e) => assert_eq!(e.message(), "process is not running"),
        Ok(_) => panic!("expected not running"),
    }
}

#[test]
fn process_spawn_results() {
    assert_eq!(Process::from_spawned("/bin/knotd", Some(77)).unwrap().pid(), 77);
    match Process::from_spawned("/bin/knotd", None) {
        Err(f) => {
            assert_eq!(f.kind, IoKind::Other);
            assert_eq!(
                f.message,
                "daemon process at '/bin/knotd' exited immediately and yielded no PID. It might have crashed on startup."
            );
        }
        Ok(_) => panic!("expected an error"),
    }
}

#[test]
fn stale_clean_plan_removes_socket_before_lock() {
    let h = StaleHandle {
        runtime_dir: "/run/knot".to_string(),
        daemon_path: "/bin/knotd".to_string(),
        policy: PolicyConfig::default(),
    };
    assert_eq!(h.clean_plan(true, true), vec![Artifact::Socket, Artifact::Lock]);
    assert_eq!(h.clean_plan(false, true), vec![Artifact::Lock]);
    assert_eq!(h.clean_plan(true, false), vec![Artifact::Socket]);
    assert_eq!(h.clean_plan(false, false), Vec::<Artifact>::new());
    assert!(h.socket_path().ends_with("knotd.sock"));
    assert!(h.daemon_lock_path().ends_with("knotd.lock"));
    assert!(h.socket_path().starts_with("/run/knot/"));
    let offline = h.into_offline();
    assert_eq!(offline.runtime_dir, "/run/knot");
    match offline.spawn_failed("No such file or directory") {
        ClientError::Daemon(DaemonLifecycleError::LaunchFailed { message, binary_path, error }) => {
            assert_eq!(message, "failed to execute daemon binary");
            assert_eq!(binary_path, "/bin/knotd");
            assert_eq!(error, "No such file or directory");
        }
        _ => panic!("expected a launch failure"),
    }
}

#[test]
fn kill_returns_stale_handle_for_same_runtime_dir() {
    let handle = KillHandle {
        runtime_dir: "/run/knot".to_string(),
        process: Process::bind_to(5, "knotd", Some("knotd")).unwrap(),
        daemon_path: "/bin/knotd".to_string(),
        policy: PolicyConfig { timeout: TimeoutPolicy::default(), kill: KillPolicy::new(1, 2) },
    };
    match kill_outcome(handle, Ok(())) {
        Ok(stale) => {
            assert_eq!(stale.runtime_dir, "/run/knot");
            assert_eq!(stale.daemon_path, "/bin/knotd");
            assert_eq!(stale.policy.kill.graceful_timeout_ms, 1);
        }
        Err(_) => panic!("expected a stale handle"),
    }
}

#[test]
fn kill_failure_is_reported_as_io_error() {
    let handle = KillHandle {
        runtime_dir: "/run/knot".to_string(),
        process: Process::bind_to(5, "knotd", Some("knotd")).unwrap(),
        daemon_path: "/bin/knotd".to_string(),
        policy: PolicyConfig::default(),
    };
    let failure = IoFailure { kind: IoKind::PermissionDenied, message: "Operation not permitted".to_string() };
    match kill_outcome(handle, Err(failure)) {
        Err(ClientError::Io(f)) => {
            assert_eq!(f.kind, IoKind::PermissionDenied);
            assert_eq!(f.message, "Operation not permitted");
        }
        _ => panic!("expected an io error"),
    }
}

#[test]
fn handshake_sessions() {
    assert!(matches!(DaemonSession::from_handshake(1u8, Some(WorkspaceState::InSync)), Ok(DaemonSession::Ready(1))));
    match DaemonSession::from_handshake(2u8, Some(WorkspaceState::OutOfSync)) {
        Ok(DaemonSession::Unsynced(h)) => assert_eq!(h.into_controller(), 2),
        _ => panic!("expected an unsynced session"),
    }
    match DaemonSession::from_handshake(3u8, Some(WorkspaceState::Unregistered)) {
        Err(ClientError::Contract(m)) => assert_eq!(m, "workspace registration error"),
        _ => panic!("expected a contract error"),
    }
    match DaemonSession::from_handshake(4u8, Some(WorkspaceState::Unspecified)) {
        Err(ClientError::Contract(m)) => assert_eq!(m, "unknown workspace state"),
        _ => panic!("expected a contract error"),
    }
    assert!(matches!(DaemonSession::from_handshake(5u8, None), Err(ClientError::Contract(_))));
}

#[test]
fn reply_header_identifiers() {
    assert_eq!(execution_id(Some("exec-1")).unwrap(), "exec-1");
    assert_eq!(command_id(Some("cmd-9")).unwrap(), "cmd-9");
    match execution_id(None) {
        Err(ClientError::Contract(m)) => assert_eq!(m, "daemon did not return an 'x-execution-id' header"),
        _ => panic!("expected a contract error"),
    }
    match command_id(None) {
        Err(ClientError::Contract(m)) => assert_eq!(m, "daemon did not return an 'x-command-id' header"),
        _ => panic!("expected a contract error"),
    }
}

#[test]
fn signal_errors_map_no_such_process_to_not_running() {
    let refused = || IoFailure { kind: IoKind::Other, message: "refused".to_string() };
    assert!(matches!(map_signal_error(Some(3), 3, refused()), ProcessFailure::NotRunning));
    match map_signal_error(Some(1), 3, refused()) {
        ProcessFailure::Io(f) => assert_eq!(f.message, "refused"),
        _ => panic!("expected the refusal"),
    }
    assert!(matches!(map_signal_error(None, 3, refused()), ProcessFailure::Io(_)));
}

#[test]
fn request_deadlines() {
    let t = TimeoutPolicy { fast_commands_ms: 3000, long_streams_ms: Some(60000) };
    assert_eq!(t.deadline_for(DaemonRequest::Handshake), Some(3000));
    assert_eq!(t.deadline_for(DaemonRequest::Sync), Some(3000));
    assert_eq!(t.deadline_for(DaemonRequest::Status), Some(3000));
    assert_eq!(t.deadline_for(DaemonRequest::Up), Some(60000));
    assert_eq!(TimeoutPolicy::default().deadline_for(DaemonRequest::Down), None);
}

#[test]
fn connect_returns_stale_when_bound_process_is_another_pid() {
    let other = Some(Process::bind_to(99, "knotd", Some("knotd")));
    assert!(matches!(builder().resolve(probe(true, true, None, Some("4242"), other)), ConnectState::Stale(_)));
}

fn stale() -> StaleHandle {
    StaleHandle { runtime_dir: "/run/knot".to_string(), daemon_path: "/bin/knotd".to_string(), policy: PolicyConfig::default() }
}

#[test]
fn cleanup_removes_socket_then_lock() {
    let (mut cleanup, first) = stale().start_clean(true, true);
    assert!(matches!(first, CleanAction::Remove(Artifact::Socket)));
    assert!(matches!(cleanup.on_removed(Ok(())), CleanAction::Remove(Artifact::Lock)));
    assert!(matches!(cleanup.on_removed(Ok(())), CleanAction::Done));
    assert_eq!(cleanup.next_removal(), None);
}

#[test]
fn cleanup_does_not_remove_lock_when_socket_cleanup_fails() {
    let (mut cleanup, _) = stale().start_clean(true, true);
    let failure = IoFailure { kind: IoKind::PermissionDenied, message: "denied".to_string() };
    match cleanup.on_removed(Err(failure)) {
        CleanAction::Fail(ClientError::Io(f)) => assert_eq!(f.message, "denied"),
        _ => panic!("expected the failure"),
    }
    assert_eq!(cleanup.next_removal(), None);
}

#[test]
fn cleanup_with_nothing_to_remove_is_done() {
    let (cleanup, first) = stale().start_clean(false, false);
    assert!(matches!(first, CleanAction::Done));
    assert_eq!(cleanup.next_removal(), None);
    let (_, only_lock) = stale().start_clean(false, true);
    assert!(matches!(only_lock, CleanAction::Remove(Artifact::Lock)));
}
