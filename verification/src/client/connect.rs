use vstd::prelude::*;
use vstd::string::StringExecFns;
use crate::base::errors::PathResolutionError;
use crate::base::number::{parse_u32, parsed_u32};
use crate::base::paths::{binary_path_of, daemon_binary_path, KNOT_DAEMON_BINARY_NAME};
use crate::client::handles::{ConnectState, KillHandle, OfflineHandle, StaleHandle};
use crate::client::policies::{PolicyConfig, TimeoutPolicy};
use crate::client::process::{ProcessControl, ProcessError};
use crate::terminal::text::{trim, trimmed_end, trimmed_start};

verus! {

/// What the daemon's files in the runtime directory tell.
#[derive(PartialEq, Eq, Structural, Clone, Copy, Debug)]
pub enum ArtifactCheck {
    /// Neither lock nor socket: no daemon.
    Offline,
    /// Only one of them: leftovers of a dead daemon.
    Stale,
    /// Both: a daemon should be there; try to connect.
    Probe,
}

/// The kind of a connection state.
#[derive(PartialEq, Eq, Structural, Clone, Copy, Debug)]
pub enum ConnectKind {
    Offline,
    Stale,
    Connected,
    Hung,
}

/// What the lock and socket files tell.
pub open spec fn artifact_check(lock_exists: bool, socket_exists: bool) -> ArtifactCheck {
    if !lock_exists && !socket_exists {
        ArtifactCheck::Offline
    } else if lock_exists && socket_exists {
        ArtifactCheck::Probe
    } else {
        ArtifactCheck::Stale
    }
}

/// The process identifier a lock file holds: its text, trimmed, parsed as a `u32`.
pub open spec fn lock_pid(content: Seq<char>) -> Option<u32> {
    parsed_u32(trimmed_end(trimmed_start(content)))
}

/// Everything the client observed while inspecting the runtime directory. The later
/// fields are only filled in when the earlier ones call for them.
pub struct ConnectProbe<C, P> {
    /// Whether the lock file exists.
    pub lock_exists: bool,
    /// Whether the socket exists.
    pub socket_exists: bool,
    /// The connection, if connecting over the socket worked.
    pub connection: Option<C>,
    /// The text of the lock file, if it could be read.
    pub lock_content: Option<String>,
    /// What binding to the process named in the lock file gave.
    pub bound: Option<Result<P, ProcessError>>,
}

/// Where the daemon stands, given the observations.
pub open spec fn connect_kind<C, P: ProcessControl>(probe: ConnectProbe<C, P>) -> ConnectKind {
    match artifact_check(probe.lock_exists, probe.socket_exists) {
        ArtifactCheck::Offline => ConnectKind::Offline,
        ArtifactCheck::Stale => ConnectKind::Stale,
        ArtifactCheck::Probe => if probe.connection is Some {
            ConnectKind::Connected
        } else {
            match probe.lock_content {
                Some(text) => match lock_pid(text@) {
                    Some(pid) => match probe.bound {
                        Some(Ok(p)) => if p.spec_pid() == pid {
                            ConnectKind::Hung
                        } else {
                            ConnectKind::Stale
                        },
                        _ => ConnectKind::Stale,
                    },
                    None => ConnectKind::Stale,
                },
                None => ConnectKind::Stale,
            }
        },
    }
}

/// The kind of a connection state.
pub open spec fn kind_of<C, P>(s: ConnectState<C, P>) -> ConnectKind {
    match s {
        ConnectState::Offline(_) => ConnectKind::Offline,
        ConnectState::Stale(_) => ConnectKind::Stale,
        ConnectState::Connected(_) => ConnectKind::Connected,
        ConnectState::Hung(_) => ConnectKind::Hung,
    }
}

/// Tells from the lock and socket files whether the daemon is offline, stale, or to be probed.
pub fn check_artifacts(lock_exists: bool, socket_exists: bool) -> (c: ArtifactCheck)
    ensures
        c == artifact_check(lock_exists, socket_exists),
{
    if !lock_exists && !socket_exists {
        ArtifactCheck::Offline
    } else if lock_exists && socket_exists {
        ArtifactCheck::Probe
    } else {
        ArtifactCheck::Stale
    }
}

/// Reads the process identifier out of the text of a lock file.
pub fn read_lock_pid(content: &str) -> (pid: Option<u32>)
    ensures
        pid == lock_pid(content@),
{
    let trimmed = trim(content);
    parse_u32(trimmed.as_str())
}

/// Configures and resolves a connection to the daemon.
pub struct ClientBuilder {
    pub runtime_dir: String,
    pub daemon_path: String,
    pub policy: PolicyConfig,
}

impl ClientBuilder {
    /// A builder for the daemon binary at `daemon_path`, with its files in `runtime_dir`
    /// and the default policies.
    pub fn new(runtime_dir: &str, daemon_path: &str) -> (b: Self)
        ensures
            b.runtime_dir@ == runtime_dir@,
            b.daemon_path@ == daemon_path@,
            b.policy.timeout.fast_commands_ms == 3000,
            b.policy.timeout.long_streams_ms is None,
            b.policy.kill.graceful_timeout_ms == 200,
            b.policy.kill.force_timeout_ms == 100,
    {
        ClientBuilder {
            runtime_dir: String::from_str(runtime_dir),
            daemon_path: String::from_str(daemon_path),
            policy: PolicyConfig::default(),
        }
    }

    /// Uses other request deadlines.
    pub fn with_timeout(self, timeout: TimeoutPolicy) -> (b: Self)
        ensures
            b.runtime_dir == self.runtime_dir,
            b.daemon_path == self.daemon_path,
            b.policy == (PolicyConfig { timeout, ..self.policy }),
    {
        ClientBuilder { policy: PolicyConfig { timeout, kill: self.policy.kill }, ..self }
    }

    /// Uses another daemon binary.
    pub fn with_daemon_path(self, path: &str) -> (b: Self)
        ensures
            b.runtime_dir == self.runtime_dir,
            b.daemon_path@ == path@,
            b.policy == self.policy,
    {
        ClientBuilder { daemon_path: String::from_str(path), ..self }
    }

    /// Uses another runtime directory.
    pub fn with_runtime_dir(self, path: &str) -> (b: Self)
        ensures
            b.runtime_dir@ == path@,
            b.daemon_path == self.daemon_path,
            b.policy == self.policy,
    {
        ClientBuilder { runtime_dir: String::from_str(path), ..self }
    }

    /// The connection state the observations lead to. Both files present with a working
    /// connection give a connected state; both present without one, a hung daemon only
    /// when the lock names a process that was bound; anything else is offline (no files)
    /// or stale. The handles keep this builder's directory, binary and policy.
    pub fn resolve<C, P: ProcessControl>(self, probe: ConnectProbe<C, P>) -> (s: ConnectState<C, P>)
        ensures
            kind_of(s) == connect_kind(probe),
            s matches ConnectState::Offline(h) ==> h.runtime_dir == self.runtime_dir
                && h.daemon_path == self.daemon_path && h.policy == self.policy,
            s matches ConnectState::Stale(h) ==> h.runtime_dir == self.runtime_dir
                && h.daemon_path == self.daemon_path && h.policy == self.policy,
            s matches ConnectState::Hung(h) ==> h.runtime_dir == self.runtime_dir
                && h.daemon_path == self.daemon_path && h.policy == self.policy
                && probe.bound == Some(Ok::<P, ProcessError>(h.process))
                && (probe.lock_content matches Some(t) && lock_pid(t@) == Some(h.process.spec_pid())),
    {
        let ClientBuilder { runtime_dir, daemon_path, policy } = self;
        match check_artifacts(probe.lock_exists, probe.socket_exists) {
            ArtifactCheck::Offline => ConnectState::Offline(OfflineHandle { runtime_dir, daemon_path, policy }),
            ArtifactCheck::Stale => ConnectState::Stale(StaleHandle { runtime_dir, daemon_path, policy }),
            ArtifactCheck::Probe => match probe.connection {
                Some(c) => ConnectState::Connected(c),
                None => {
                    let pid = match &probe.lock_content {
                        Some(text) => read_lock_pid(text.as_str()),
                        None => None,
                    };
                    match (pid, probe.bound) {
                        (Some(expected), Some(Ok(process))) => {
                            if process.pid() == expected {
                                ConnectState::Hung(KillHandle { runtime_dir, process, daemon_path, policy })
                            } else {
                                ConnectState::Stale(StaleHandle { runtime_dir, daemon_path, policy })
                            }
                        },
                        _ => ConnectState::Stale(StaleHandle { runtime_dir, daemon_path, policy }),
                    }
                },
            },
        }
    }
}

/// The entry point for reaching the daemon.
pub struct KnotClient;

impl KnotClient {
    /// A builder with the default configuration: the daemon's files in `runtime_dir`,
    /// the daemon binary at its standard path, and the default policies. Without a
    /// standard binary path (no home directory) this is the resolution error.
    pub fn builder(runtime_dir: &str) -> (r: Result<ClientBuilder, PathResolutionError>)
        ensures
            exists|d: Option<Seq<char>>| #[trigger] binary_path_of(d, KNOT_DAEMON_BINARY_NAME@) == match r {
                Ok(b) => Ok::<Seq<char>, PathResolutionError>(b.daemon_path@),
                Err(e) => Err(e),
            },
            exists|p: Result<String, PathResolutionError>| #[trigger] call_ensures(daemon_binary_path, (), p)
                && match p {
                    Ok(path) => r matches Ok(b) && b.daemon_path@ == path@,
                    Err(e) => r == Err::<ClientBuilder, PathResolutionError>(e),
                },
            r matches Ok(b) ==> {
                &&& b.runtime_dir@ == runtime_dir@
                &&& b.policy.timeout.fast_commands_ms == 3000
                &&& b.policy.timeout.long_streams_ms is None
                &&& b.policy.kill.graceful_timeout_ms == 200
                &&& b.policy.kill.force_timeout_ms == 100
            },
    {
        match daemon_binary_path() {
            Ok(path) => Ok(ClientBuilder::new(runtime_dir, path.as_str())),
            Err(e) => Err(e),
        }
    }
}

/// Law: the client treats a daemon as hung, and so may kill it, only when both its
/// files are present, no connection could be made, the lock file names a process, and
/// binding to that very process (which checks its name) succeeded. It treats the
/// daemon as offline exactly when neither file is present.
pub proof fn lemma_hung_only_for_bound_process<C, P: ProcessControl>(probe: ConnectProbe<C, P>)
    ensures
        connect_kind(probe) == ConnectKind::Hung ==> {
            &&& probe.lock_exists && probe.socket_exists
            &&& probe.connection is None
            &&& probe.bound matches Some(Ok(p)) && probe.lock_content matches Some(text)
                && lock_pid(text@) == Some(p.spec_pid())
        },
        (connect_kind(probe) == ConnectKind::Offline) == (!probe.lock_exists && !probe.socket_exists),
{
}

} // verus!
