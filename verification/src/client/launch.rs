use vstd::prelude::*;
use vstd::string::StringExecFns;
use crate::client::errors::{ClientError, DaemonLifecycleError};

verus! {

/// How many times a freshly spawned daemon is tried before giving up.
pub const LAUNCH_ATTEMPTS: u32 = 40;

/// The pause between two connection attempts, in milliseconds.
pub const LAUNCH_RETRY_DELAY_MS: u64 = 50;

/// What to do after a connection attempt to a freshly spawned daemon failed.
#[derive(Debug)]
pub enum LaunchStep {
    /// Wait `delay_ms` and try again.
    Retry { delay_ms: u64 },
    /// Stop: the socket never appeared.
    GiveUp(ClientError),
}

/// Counts the connection attempts left while waiting for a spawned daemon's socket.
pub struct LaunchRetries {
    remaining: u32,
}

impl View for LaunchRetries {
    type V = nat;

    closed spec fn view(&self) -> nat {
        self.remaining as nat
    }
}

impl LaunchRetries {
    /// A fresh count of attempts.
    pub fn new() -> (r: Self)
        ensures
            r@ == LAUNCH_ATTEMPTS,
    {
        LaunchRetries { remaining: LAUNCH_ATTEMPTS }
    }

    /// How many attempts are left.
    pub fn remaining(&self) -> (n: u32)
        ensures
            n == self@,
    {
        self.remaining
    }

    /// Records a failed attempt. While attempts remain the caller waits and retries;
    /// the last failure gives up with a launch error for `daemon_path`.
    pub fn on_attempt_failed(&mut self, daemon_path: &str) -> (step: LaunchStep)
        requires
            old(self)@ > 0,
        ensures
            final(self)@ == old(self)@ - 1,
            final(self)@ > 0 ==> (step matches LaunchStep::Retry { delay_ms } && delay_ms == LAUNCH_RETRY_DELAY_MS),
            final(self)@ == 0 ==> (step matches LaunchStep::GiveUp(ClientError::Daemon(
                DaemonLifecycleError::LaunchFailed { message, binary_path, error },
            )) && message@ == "daemon process was spawned, but IPC socket never appeared"@
                && binary_path@ == daemon_path@ && error@ == "socket not found"@),
    {
        self.remaining = self.remaining - 1;
        if self.remaining == 0 {
            LaunchStep::GiveUp(ClientError::Daemon(DaemonLifecycleError::LaunchFailed {
                message: String::from_str("daemon process was spawned, but IPC socket never appeared"),
                binary_path: String::from_str(daemon_path),
                error: String::from_str("socket not found"),
            }))
        } else {
            LaunchStep::Retry { delay_ms: LAUNCH_RETRY_DELAY_MS }
        }
    }
}

} // verus!
