use knot::client::errors::{
    ClientError, DaemonLifecycleError, IoFailure, IoKind, RpcCode, RpcStatus, WorkspaceError,
};
use knot::base::errors::PathResolutionError;
use knot::terminal::report::ErrorReport;

#[test]
fn workspace_error_texts() {
    let e = WorkspaceError::NotInitialized("/tmp/p".to_string());
    assert_eq!(e.message(), "knot workspace is not initialized");
    assert_eq!(e.context().unwrap(), "could not find the '.knot' directory at '/tmp/p'");
    assert_eq!(e.solution(), Some("run 'knot init' to set up a new workspace in this directory."));
    let e = WorkspaceError::BrokenData("/tmp/f".to_string());
    assert_eq!(e.context().unwrap(), "the file '/tmp/f' contains unexpected or broken data");
}

#[test]
fn daemon_error_texts() {
    let e = DaemonLifecycleError::LaunchFailed {
        message: "m".to_string(),
        binary_path: "/b".to_string(),
        error: "e".to_string(),
    };
    assert_eq!(e.context().unwrap(), "attempted to launch '/b'.\ndetails: m\nsystem error: e");
    assert_eq!(e.solution(), Some("ensure the knot executable is present in your PATH or explicitly configured."));
    let e = DaemonLifecycleError::NotRunning("/s".to_string());
    assert_eq!(e.context().unwrap(), "expected an active socket file at '/s', but it wasn't found");
    assert_eq!(e.message(), "the knot background daemon is not running");
}

#[test]
fn client_error_solutions() {
    let status = |code| ClientError::Protocol(RpcStatus { code, message: "msg".to_string() });
    assert_eq!(
        status(RpcCode::Unavailable).solution(),
        Some("the daemon is unreachable. It may have crashed or was shut down. Run 'knot repair'.")
    );
    assert_eq!(
        status(RpcCode::Internal).solution(),
        Some("check the daemon logs for more details using 'knot logs'.")
    );
    assert_eq!(status(RpcCode::Internal).context().unwrap(), "msg");
    let io = |kind| ClientError::Io(IoFailure { kind, message: "io".to_string() });
    assert_eq!(
        io(IoKind::AddrInUse).solution(),
        Some("the required port or IPC socket is already in use by another process.")
    );
    assert_eq!(io(IoKind::Other).message(), "filesystem error");
    assert_eq!(
        ClientError::PathResolution(PathResolutionError).context().unwrap(),
        "the OS reported no valid application data directory for the current user"
    );
    assert_eq!(ClientError::Contract("c".to_string()).solution(), Some("ensure your CLI and daemon versions match."));
    assert_eq!(ClientError::Transport("t".to_string()).message(), "failed to establish transport channel");
}

#[test]
fn report_from_client_error() {
    let e = ClientError::Workspace(WorkspaceError::NotInitialized("/w".to_string()));
    let r = ErrorReport::from_error(&e);
    assert_eq!(r.message, "knot workspace is not initialized");
    assert_eq!(r.context.as_deref(), Some("could not find the '.knot' directory at '/w'"));
    assert_eq!(r.solution.as_deref(), Some("run 'knot init' to set up a new workspace in this directory."));
}
