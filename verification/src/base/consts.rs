use vstd::prelude::*;

verus! {

/// The name of the daemon's lock file (holding its PID) in the runtime directory.
pub const KNOT_DAEMON_LOCK_FILE: &'static str = "knotd.lock";

/// The name of the daemon's IPC socket in the runtime directory.
pub const KNOT_SOCKET_FILE: &'static str = "knotd.sock";

} // verus!
