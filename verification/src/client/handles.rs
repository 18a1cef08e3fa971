use vstd::prelude::*;
use vstd::string::StringExecFns;
use crate::base::consts::{KNOT_DAEMON_LOCK_FILE, KNOT_SOCKET_FILE};
use crate::base::paths::{join_path, path_joined};
use crate::client::errors::{ClientError, DaemonLifecycleError, IoFailure};
use crate::client::policies::PolicyConfig;
use crate::client::process::ProcessControl;

verus! {

/// No daemon runs: a new one can be launched in the runtime directory.
pub struct OfflineHandle {
    pub runtime_dir: String,
    pub daemon_path: String,
    pub policy: PolicyConfig,
}

/// The daemon is gone but its files (socket, lock) may remain: they are to be cleaned.
pub struct StaleHandle {
    pub runtime_dir: String,
    pub daemon_path: String,
    pub policy: PolicyConfig,
}

/// A daemon process runs but does not answer: it is to be killed.
pub struct KillHandle<P> {
    pub runtime_dir: String,
    pub process: P,
    pub daemon_path: String,
    pub policy: PolicyConfig,
}

/// Where the daemon stands when the client connects: offline, stale, connected
/// through `C`, or hung with the process `P`.
pub enum ConnectState<C, P> {
    Offline(OfflineHandle),
    Stale(StaleHandle),
    Connected(C),
    Hung(KillHandle<P>),
}

/// A file the client may have to remove.
#[derive(PartialEq, Eq, Structural, Clone, Copy, Debug)]
pub enum Artifact {
    Socket,
    Lock,
}

/// The path of the socket in a runtime directory.
pub open spec fn socket_path_in(runtime_dir: Seq<char>) -> Seq<char> {
    path_joined(runtime_dir, KNOT_SOCKET_FILE@)
}

/// The path of the lock file in a runtime directory.
pub open spec fn lock_path_in(runtime_dir: Seq<char>) -> Seq<char> {
    path_joined(runtime_dir, KNOT_DAEMON_LOCK_FILE@)
}

/// The files to remove, in order: the socket first, then the lock, each only if present.
pub open spec fn clean_order(socket_exists: bool, lock_exists: bool) -> Seq<Artifact> {
    (if socket_exists { seq![Artifact::Socket] } else { Seq::empty() }) + (if lock_exists {
        seq![Artifact::Lock]
    } else {
        Seq::empty()
    })
}

/// What to do next while cleaning a runtime directory.
#[derive(Debug)]
pub enum CleanAction {
    /// Remove this file and report how that went.
    Remove(Artifact),
    /// Every file is gone: the directory is clean.
    Done,
    /// A removal failed; cleaning stopped there.
    Fail(ClientError),
}

/// The plain content of a [`Cleanup`].
pub struct CleanView {
    /// The files to remove, in order.
    pub plan: Seq<Artifact>,
    /// How many of them were removed.
    pub removed: nat,
    /// Whether a removal failed.
    pub failed: bool,
}

/// The file a cleanup removes next, if any: none once a removal failed or every file
/// is gone.
pub open spec fn pending(c: CleanView) -> Option<Artifact> {
    if !c.failed && c.removed < c.plan.len() {
        Some(c.plan[c.removed as int])
    } else {
        None
    }
}

/// The action that goes with a cleanup's state.
pub open spec fn clean_action_is(c: CleanView, action: CleanAction) -> bool {
    match pending(c) {
        Some(a) => action == CleanAction::Remove(a),
        None => !c.failed && action is Done,
    }
}

/// The decisions of cleaning a stale runtime directory: the socket first, then the
/// lock, each only if present, stopping at the first failed removal. The caller
/// removes each file and reports the result.
pub struct Cleanup {
    plan: Vec<Artifact>,
    removed: usize,
    failed: bool,
}

impl View for Cleanup {
    type V = CleanView;

    closed spec fn view(&self) -> CleanView {
        CleanView { plan: self.plan@, removed: self.removed as nat, failed: self.failed }
    }
}

impl Cleanup {
    /// The cleanup is under way: a removal is pending.
    pub open spec fn in_progress(&self) -> bool {
        pending(self@) is Some
    }

    /// The file to remove next, if any.
    pub fn next_removal(&self) -> (r: Option<Artifact>)
        ensures
            r == pending(self@),
    {
        if !self.failed && self.removed < self.plan.len() {
            Some(self.plan[self.removed])
        } else {
            None
        }
    }

    /// Takes the result of removing the pending file and returns the next action: the
    /// next file, the end, or, after a failed removal, that failure (and nothing more
    /// is removed).
    pub fn on_removed(&mut self, result: Result<(), IoFailure>) -> (action: CleanAction)
        requires
            old(self).in_progress(),
        ensures
            final(self)@.plan == old(self)@.plan,
            match result {
                Ok(()) => final(self)@.removed == old(self)@.removed + 1 && !final(self)@.failed
                    && clean_action_is(final(self)@, action),
                Err(f) => final(self)@.removed == old(self)@.removed && final(self)@.failed
                    && (action matches CleanAction::Fail(ClientError::Io(g)) && g == f),
            },
    {
        let n = self.plan.len();
        assert(self.removed < n);
        match result {
            Ok(()) => {
                self.removed = self.removed + 1;
                if self.removed < self.plan.len() {
                    CleanAction::Remove(self.plan[self.removed])
                } else {
                    CleanAction::Done
                }
            },
            Err(failure) => {
                self.failed = true;
                CleanAction::Fail(ClientError::Io(failure))
            },
        }
    }
}

/// Law: cleaning stops at the first failed removal, and the lock is only removed after
/// the socket's removal succeeded (when both are present): a lock removal is pending
/// only once the socket is gone.
pub proof fn lemma_cleanup_order(socket_exists: bool, lock_exists: bool, c: CleanView)
    requires
        c.plan == clean_order(socket_exists, lock_exists),
    ensures
        c.failed ==> pending(c) is None,
        pending(c) == Some(Artifact::Lock) && socket_exists ==> c.removed == 1 && c.plan[0] == Artifact::Socket,
        pending(c) == Some(Artifact::Socket) ==> c.removed == 0,
{
}

impl OfflineHandle {
    /// The path where the daemon's socket appears.
    pub fn socket_path(&self) -> (p: String)
        ensures
            p@ == socket_path_in(self.runtime_dir@),
    {
        join_path(self.runtime_dir.as_str(), KNOT_SOCKET_FILE)
    }

    /// The error for a daemon binary that could not be executed.
    pub fn spawn_failed(&self, error: &str) -> (e: ClientError)
        ensures
            e matches ClientError::Daemon(DaemonLifecycleError::LaunchFailed { message, binary_path, error: err })
                && message@ == "failed to execute daemon binary"@ && binary_path@ == self.daemon_path@
                && err@ == error@,
    {
        ClientError::Daemon(DaemonLifecycleError::LaunchFailed {
            message: String::from_str("failed to execute daemon binary"),
            binary_path: self.daemon_path.clone(),
            error: String::from_str(error),
        })
    }
}

impl StaleHandle {
    /// The path of the leftover socket.
    pub fn socket_path(&self) -> (p: String)
        ensures
            p@ == socket_path_in(self.runtime_dir@),
    {
        join_path(self.runtime_dir.as_str(), KNOT_SOCKET_FILE)
    }

    /// The path of the leftover lock file.
    pub fn daemon_lock_path(&self) -> (p: String)
        ensures
            p@ == lock_path_in(self.runtime_dir@),
    {
        join_path(self.runtime_dir.as_str(), KNOT_DAEMON_LOCK_FILE)
    }

    /// Which files a cleanup removes, in order, given which exist: the socket before
    /// the lock, and each only if present. A failed removal ends the cleanup there.
    pub fn clean_plan(&self, socket_exists: bool, lock_exists: bool) -> (plan: Vec<Artifact>)
        ensures
            plan@ == clean_order(socket_exists, lock_exists),
    {
        let mut plan: Vec<Artifact> = Vec::new();
        if socket_exists {
            plan.push(Artifact::Socket);
        }
        if lock_exists {
            plan.push(Artifact::Lock);
        }
        assert(plan@ =~= clean_order(socket_exists, lock_exists));
        plan
    }

    /// Starts cleaning, given which files exist: the cleanup and its first action.
    pub fn start_clean(&self, socket_exists: bool, lock_exists: bool) -> (r: (Cleanup, CleanAction))
        ensures
            r.0@ == (CleanView { plan: clean_order(socket_exists, lock_exists), removed: 0, failed: false }),
            clean_action_is(r.0@, r.1),
    {
        let plan = self.clean_plan(socket_exists, lock_exists);
        let first = if plan.len() > 0 {
            CleanAction::Remove(plan[0])
        } else {
            CleanAction::Done
        };
        (Cleanup { plan, removed: 0, failed: false }, first)
    }

    /// After the cleanup: a clean runtime directory, ready for a new daemon.
    pub fn into_offline(self) -> (h: OfflineHandle)
        ensures
            h.runtime_dir == self.runtime_dir,
            h.daemon_path == self.daemon_path,
            h.policy == self.policy,
    {
        OfflineHandle { runtime_dir: self.runtime_dir, daemon_path: self.daemon_path, policy: self.policy }
    }
}

impl<P: ProcessControl> KillHandle<P> {
    /// Kills the process. When that works, the daemon's leftovers remain to be cleaned,
    /// so the result is a stale handle for the same directory, binary and policy;
    /// otherwise the failure is returned as a filesystem-level error.
    pub fn kill(self) -> (r: Result<StaleHandle, ClientError>)
        ensures
            r matches Ok(h) ==> h.runtime_dir == self.runtime_dir && h.daemon_path == self.daemon_path
                && h.policy == self.policy,
            r matches Err(e) ==> e is Io,
            exists|killed: Result<(), IoFailure>| #[trigger] call_ensures(P::kill, (&self.process,), killed)
                && match killed {
                    Ok(()) => r is Ok,
                    Err(f) => r matches Err(ClientError::Io(g)) && g == f,
                },
    {
        let killed = self.process.kill();
        kill_outcome(self, killed)
    }
}

/// Law: stopping a hung daemon hands back what killing its process gave: a stale
/// handle for the same directory, binary and policy only when the process was killed,
/// and exactly the failure of the kill otherwise.
pub proof fn lemma_kill_follows_process<P: ProcessControl>(handle: KillHandle<P>, r: Result<StaleHandle, ClientError>)
    requires
        call_ensures(KillHandle::<P>::kill, (handle,), r),
    ensures
        exists|killed: Result<(), IoFailure>| #[trigger] call_ensures(P::kill, (&handle.process,), killed)
            && match killed {
                Ok(()) => r matches Ok(h) && h.runtime_dir == handle.runtime_dir && h.daemon_path
                    == handle.daemon_path && h.policy == handle.policy,
                Err(f) => r matches Err(ClientError::Io(g)) && g == f,
            },
{
}

/// The outcome of a kill, given what killing the process returned: a stale handle when
/// it worked, the failure as a filesystem-level error otherwise.
pub fn kill_outcome<P>(handle: KillHandle<P>, killed: Result<(), IoFailure>) -> (r: Result<StaleHandle, ClientError>)
    ensures
        match killed {
            Ok(()) => r matches Ok(h) && h.runtime_dir == handle.runtime_dir && h.daemon_path == handle.daemon_path
                && h.policy == handle.policy,
            Err(f) => r matches Err(ClientError::Io(g)) && g == f,
        },
{
    match killed {
        Ok(()) => Ok(StaleHandle { runtime_dir: handle.runtime_dir, daemon_path: handle.daemon_path, policy: handle.policy }),
        Err(failure) => Err(ClientError::Io(failure)),
    }
}

} // verus!
