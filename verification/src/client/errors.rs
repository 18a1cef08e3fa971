use vstd::prelude::*;
use vstd::string::StringExecFns;
use crate::base::errors::{PathResolutionError, path_resolution_message};
use crate::terminal::report::{ErrorReport, ReportView, opt_view};

verus! {

/// The status codes of a daemon request (the gRPC status codes).
#[derive(PartialEq, Eq, Structural, Clone, Copy, Debug)]
pub enum RpcCode {
    /// The request succeeded.
    Success,
    Cancelled,
    Unknown,
    InvalidArgument,
    DeadlineExceeded,
    NotFound,
    AlreadyExists,
    PermissionDenied,
    ResourceExhausted,
    FailedPrecondition,
    Aborted,
    OutOfRange,
    Unimplemented,
    Internal,
    Unavailable,
    DataLoss,
    Unauthenticated,
}

/// A failed daemon request: its status code and the message the daemon gave.
#[derive(Debug)]
pub struct RpcStatus {
    pub code: RpcCode,
    pub message: String,
}

/// The kinds of filesystem failure the client tells apart.
#[derive(PartialEq, Eq, Structural, Clone, Copy, Debug)]
pub enum IoKind {
    PermissionDenied,
    NotFound,
    AlreadyExists,
    AddrInUse,
    Other,
}

/// A filesystem failure: its kind and its description.
#[derive(Debug)]
pub struct IoFailure {
    pub kind: IoKind,
    pub message: String,
}

/// Problems with the workspace.
#[derive(Debug)]
pub enum WorkspaceError {
    /// No workspace at the given path.
    NotInitialized(String),
    /// A workspace file holds broken data.
    BrokenData(String),
}

/// Problems with the daemon's lifecycle.
#[derive(Debug)]
pub enum DaemonLifecycleError {
    /// The daemon is not running; no socket at the given path.
    NotRunning(String),
    /// The daemon could not be started.
    LaunchFailed { message: String, binary_path: String, error: String },
}

/// Everything that can go wrong in the client.
#[derive(Debug)]
pub enum ClientError {
    Workspace(WorkspaceError),
    Daemon(DaemonLifecycleError),
    /// A daemon request failed.
    Protocol(RpcStatus),
    /// The transport channel could not be set up; the text describes why.
    Transport(String),
    /// A filesystem operation failed.
    Io(IoFailure),
    /// The daemon broke the protocol contract.
    Contract(String),
    /// The daemon binary path could not be resolved.
    PathResolution(PathResolutionError),
}

/// The one-line description of a workspace error.
pub open spec fn workspace_message(w: WorkspaceError) -> Seq<char> {
    match w {
        WorkspaceError::NotInitialized(_) => "knot workspace is not initialized"@,
        WorkspaceError::BrokenData(_) => "workspace data is corrupted or unreadable"@,
    }
}

/// The context of a workspace error.
pub open spec fn workspace_context(w: WorkspaceError) -> Seq<char> {
    match w {
        WorkspaceError::NotInitialized(p) => "could not find the '.knot' directory at '"@ + p@ + "'"@,
        WorkspaceError::BrokenData(p) => "the file '"@ + p@ + "' contains unexpected or broken data"@,
    }
}

/// The suggested solution of a workspace error.
pub open spec fn workspace_solution(w: WorkspaceError) -> Seq<char> {
    match w {
        WorkspaceError::NotInitialized(_) => "run 'knot init' to set up a new workspace in this directory."@,
        WorkspaceError::BrokenData(_) => "try running 'knot repair' or delete the corrupted file to recreate it."@,
    }
}

/// The one-line description of a daemon lifecycle error.
pub open spec fn daemon_message(d: DaemonLifecycleError) -> Seq<char> {
    match d {
        DaemonLifecycleError::NotRunning(_) => "the knot background daemon is not running"@,
        DaemonLifecycleError::LaunchFailed { .. } => "failed to start the knot background daemon"@,
    }
}

/// The context of a daemon lifecycle error.
pub open spec fn daemon_context(d: DaemonLifecycleError) -> Seq<char> {
    match d {
        DaemonLifecycleError::NotRunning(p) => "expected an active socket file at '"@ + p@
            + "', but it wasn't found"@,
        DaemonLifecycleError::LaunchFailed { message, binary_path, error } => "attempted to launch '"@
            + binary_path@ + "'.\ndetails: "@ + message@ + "\nsystem error: "@ + error@,
    }
}

/// The suggested solution of a daemon lifecycle error.
pub open spec fn daemon_solution(d: DaemonLifecycleError) -> Seq<char> {
    match d {
        DaemonLifecycleError::NotRunning(_) => "start the daemon by running 'knot up'."@,
        DaemonLifecycleError::LaunchFailed { .. } => "ensure the knot executable is present in your PATH or explicitly configured."@,
    }
}

/// The one-line description of a client error.
pub open spec fn client_message(e: ClientError) -> Seq<char> {
    match e {
        ClientError::Workspace(w) => workspace_message(w),
        ClientError::Daemon(d) => daemon_message(d),
        ClientError::Protocol(_) => "daemon request failed"@,
        ClientError::Transport(_) => "failed to establish transport channel"@,
        ClientError::Io(_) => "filesystem error"@,
        ClientError::Contract(_) => "protocol contract violation"@,
        ClientError::PathResolution(_) => "failed to resolve daemon binary path"@,
    }
}

/// The context of a client error.
pub open spec fn client_context(e: ClientError) -> Seq<char> {
    match e {
        ClientError::Workspace(w) => workspace_context(w),
        ClientError::Daemon(d) => daemon_context(d),
        ClientError::Protocol(status) => status.message@,
        ClientError::Transport(text) => text@,
        ClientError::Io(failure) => failure.message@,
        ClientError::Contract(msg) => msg@,
        ClientError::PathResolution(_) => "the OS reported no valid application data directory for the current user"@,
    }
}

/// The suggested solution for a failed daemon request with status `code`.
pub open spec fn protocol_solution(code: RpcCode) -> Seq<char> {
    match code {
        RpcCode::Unavailable => "the daemon is unreachable. It may have crashed or was shut down. Run 'knot repair'."@,
        RpcCode::Unimplemented => "version mismatch: the daemon does not support this command. Update your CLI or Daemon."@,
        RpcCode::FailedPrecondition => "the workspace is not in the correct state to execute this command."@,
        RpcCode::PermissionDenied => "you do not have the required permissions to execute this request via the IPC socket."@,
        _ => "check the daemon logs for more details using 'knot logs'."@,
    }
}

/// The suggested solution for a filesystem failure of kind `kind`.
pub open spec fn io_solution(kind: IoKind) -> Seq<char> {
    match kind {
        IoKind::PermissionDenied => "verify file permissions or run the command with elevated privileges."@,
        IoKind::NotFound => "a required file or directory was not found. check your workspace paths."@,
        IoKind::AlreadyExists => "a file or socket already exists where knot is trying to create one. try running 'knot repair'."@,
        IoKind::AddrInUse => "the required port or IPC socket is already in use by another process."@,
        IoKind::Other => "verify disk space and directory permissions, or try running 'knot repair'."@,
    }
}

/// The suggested solution of a client error.
pub open spec fn client_solution(e: ClientError) -> Seq<char> {
    match e {
        ClientError::Workspace(w) => workspace_solution(w),
        ClientError::Daemon(d) => daemon_solution(d),
        ClientError::Contract(_) => "ensure your CLI and daemon versions match."@,
        ClientError::Transport(_) => "the daemon might have crashed. Try running 'knot repair' or check logs."@,
        ClientError::Protocol(status) => protocol_solution(status.code),
        ClientError::Io(failure) => io_solution(failure.kind),
        ClientError::PathResolution(_) => "Ensure your environment has a valid home directory configured (e.g. the $HOME variable on Linux/macOS, or a valid user profile on Windows), then retry."@,
    }
}

impl WorkspaceError {
    /// The one-line description of the error.
    pub fn message(&self) -> (s: String)
        ensures
            s@ == workspace_message(*self),
    {
        match self {
            WorkspaceError::NotInitialized(_) => String::from_str("knot workspace is not initialized"),
            WorkspaceError::BrokenData(_) => String::from_str("workspace data is corrupted or unreadable"),
        }
    }

    /// Details of where the problem is; there always are some.
    pub fn context(&self) -> (c: Option<String>)
        ensures
            opt_view(c) == Some(workspace_context(*self)),
    {
        match self {
            WorkspaceError::NotInitialized(path) => {
                let mut s = String::from_str("could not find the '.knot' directory at '");
                s.append(path.as_str());
                s.append("'");
                Some(s)
            },
            WorkspaceError::BrokenData(path) => {
                let mut s = String::from_str("the file '");
                s.append(path.as_str());
                s.append("' contains unexpected or broken data");
                Some(s)
            },
        }
    }

    /// What the user can do about the error; there always is a suggestion.
    pub fn solution(&self) -> (s: Option<&'static str>)
        ensures
            s matches Some(t) && t@ == workspace_solution(*self),
    {
        match self {
            WorkspaceError::NotInitialized(_) => Some("run 'knot init' to set up a new workspace in this directory."),
            WorkspaceError::BrokenData(_) => Some("try running 'knot repair' or delete the corrupted file to recreate it."),
        }
    }
}

impl DaemonLifecycleError {
    /// The one-line description of the error.
    pub fn message(&self) -> (s: String)
        ensures
            s@ == daemon_message(*self),
    {
        match self {
            DaemonLifecycleError::NotRunning(_) => String::from_str("the knot background daemon is not running"),
            DaemonLifecycleError::LaunchFailed { .. } => String::from_str("failed to start the knot background daemon"),
        }
    }

    /// Details of what was attempted; there always are some.
    pub fn context(&self) -> (c: Option<String>)
        ensures
            opt_view(c) == Some(daemon_context(*self)),
    {
        match self {
            DaemonLifecycleError::NotRunning(path) => {
                let mut s = String::from_str("expected an active socket file at '");
                s.append(path.as_str());
                s.append("', but it wasn't found");
                Some(s)
            },
            DaemonLifecycleError::LaunchFailed { message, binary_path, error } => {
                let mut s = String::from_str("attempted to launch '");
                s.append(binary_path.as_str());
                s.append("'.\ndetails: ");
                s.append(message.as_str());
                s.append("\nsystem error: ");
                s.append(error.as_str());
                Some(s)
            },
        }
    }

    /// What the user can do about the error; there always is a suggestion.
    pub fn solution(&self) -> (s: Option<&'static str>)
        ensures
            s matches Some(t) && t@ == daemon_solution(*self),
    {
        match self {
            DaemonLifecycleError::NotRunning(_) => Some("start the daemon by running 'knot up'."),
            DaemonLifecycleError::LaunchFailed { .. } => Some(
                "ensure the knot executable is present in your PATH or explicitly configured.",
            ),
        }
    }
}

impl ClientError {
    /// The one-line description of the error.
    pub fn message(&self) -> (s: String)
        ensures
            s@ == client_message(*self),
    {
        match self {
            ClientError::Workspace(w) => w.message(),
            ClientError::Daemon(d) => d.message(),
            ClientError::Protocol(_) => String::from_str("daemon request failed"),
            ClientError::Transport(_) => String::from_str("failed to establish transport channel"),
            ClientError::Io(_) => String::from_str("filesystem error"),
            ClientError::Contract(_) => String::from_str("protocol contract violation"),
            ClientError::PathResolution(_) => String::from_str("failed to resolve daemon binary path"),
        }
    }

    /// Details of the error; every kind of client error has some.
    pub fn context(&self) -> (c: Option<String>)
        ensures
            opt_view(c) == Some(client_context(*self)),
    {
        match self {
            ClientError::Workspace(w) => w.context(),
            ClientError::Daemon(d) => d.context(),
            ClientError::Protocol(status) => Some(status.message.clone()),
            ClientError::Transport(text) => Some(text.clone()),
            ClientError::Io(failure) => Some(failure.message.clone()),
            ClientError::Contract(msg) => Some(msg.clone()),
            ClientError::PathResolution(_) => Some(
                String::from_str("the OS reported no valid application data directory for the current user"),
            ),
        }
    }

    /// What the user can do about the error; every kind has a suggestion.
    pub fn solution(&self) -> (s: Option<&'static str>)
        ensures
            s matches Some(t) && t@ == client_solution(*self),
    {
        match self {
            ClientError::Workspace(w) => w.solution(),
            ClientError::Daemon(d) => d.solution(),
            ClientError::Contract(_) => Some("ensure your CLI and daemon versions match."),
            ClientError::Transport(_) => Some("the daemon might have crashed. Try running 'knot repair' or check logs."),
            ClientError::Protocol(status) => match status.code {
                RpcCode::Unavailable => Some(
                    "the daemon is unreachable. It may have crashed or was shut down. Run 'knot repair'.",
                ),
                RpcCode::Unimplemented => Some(
                    "version mismatch: the daemon does not support this command. Update your CLI or Daemon.",
                ),
                RpcCode::FailedPrecondition => Some("the workspace is not in the correct state to execute this command."),
                RpcCode::PermissionDenied => Some(
                    "you do not have the required permissions to execute this request via the IPC socket.",
                ),
                _ => Some("check the daemon logs for more details using 'knot logs'."),
            },
            ClientError::Io(failure) => match failure.kind {
                IoKind::PermissionDenied => Some("verify file permissions or run the command with elevated privileges."),
                IoKind::NotFound => Some("a required file or directory was not found. check your workspace paths."),
                IoKind::AlreadyExists => Some(
                    "a file or socket already exists where knot is trying to create one. try running 'knot repair'.",
                ),
                IoKind::AddrInUse => Some("the required port or IPC socket is already in use by another process."),
                IoKind::Other => Some("verify disk space and directory permissions, or try running 'knot repair'."),
            },
            ClientError::PathResolution(_) => Some(
                "Ensure your environment has a valid home directory configured (e.g. the $HOME variable on Linux/macOS, or a valid user profile on Windows), then retry.",
            ),
        }
    }
}

impl ErrorReport {
    /// A report of a client error: its description as the message, with its suggested
    /// solution and its context.
    pub fn from_error(error: &ClientError) -> (r: ErrorReport)
        ensures
            r@ == (ReportView {
                message: client_message(*error),
                context: Some(client_context(*error)),
                solution: Some(client_solution(*error)),
            }),
    {
        let message = error.message();
        let mut report = ErrorReport::new(message.as_str());
        match error.solution() {
            Some(solution) => {
                report = report.with_solution(solution);
            },
            None => {},
        }
        match error.context() {
            Some(context) => {
                report = report.with_context(context.as_str());
            },
            None => {},
        }
        report
    }
}

} // verus!
