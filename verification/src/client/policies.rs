use vstd::prelude::*;

verus! {

/// How long to wait for the daemon to exit when stopping it, in milliseconds.
#[derive(Clone, Copy, Debug)]
pub struct KillPolicy {
    /// Time allowed for a graceful exit after a termination request; zero skips that step.
    pub graceful_timeout_ms: u64,
    /// Time allowed for the exit after a forced kill.
    pub force_timeout_ms: u64,
}

impl Default for KillPolicy {
    fn default() -> (p: Self)
        ensures
            p.graceful_timeout_ms == 200,
            p.force_timeout_ms == 100,
    {
        KillPolicy { graceful_timeout_ms: 200, force_timeout_ms: 100 }
    }
}

impl KillPolicy {
    /// A policy with the given timeouts.
    pub fn new(graceful_timeout_ms: u64, force_timeout_ms: u64) -> (p: Self)
        ensures
            p.graceful_timeout_ms == graceful_timeout_ms,
            p.force_timeout_ms == force_timeout_ms,
    {
        KillPolicy { graceful_timeout_ms, force_timeout_ms }
    }
}

/// Deadlines of daemon requests, in milliseconds.
#[derive(Clone, Copy, Debug)]
pub struct TimeoutPolicy {
    /// Deadline of short request-response commands.
    pub fast_commands_ms: u64,
    /// Deadline of long streaming commands; none means no deadline.
    pub long_streams_ms: Option<u64>,
}

impl Default for TimeoutPolicy {
    fn default() -> (p: Self)
        ensures
            p.fast_commands_ms == 3000,
            p.long_streams_ms is None,
    {
        TimeoutPolicy { fast_commands_ms: 3000, long_streams_ms: None }
    }
}

/// The requests the client sends to the daemon.
#[derive(PartialEq, Eq, Structural, Clone, Copy, Debug)]
pub enum DaemonRequest {
    Handshake,
    Sync,
    Status,
    Up,
    Down,
}

impl TimeoutPolicy {
    /// The deadline of a request, in milliseconds: the fast one for short commands,
    /// the streaming one (possibly none) for the long streams of `up` and `down`.
    pub fn deadline_for(&self, request: DaemonRequest) -> (d: Option<u64>)
        ensures
            d == match request {
                DaemonRequest::Up | DaemonRequest::Down => self.long_streams_ms,
                _ => Some(self.fast_commands_ms),
            },
    {
        match request {
            DaemonRequest::Up | DaemonRequest::Down => self.long_streams_ms,
            _ => Some(self.fast_commands_ms),
        }
    }
}

/// All the client's policies.
#[derive(Clone, Copy, Debug)]
pub struct PolicyConfig {
    pub timeout: TimeoutPolicy,
    pub kill: KillPolicy,
}

impl Default for PolicyConfig {
    fn default() -> (p: Self)
        ensures
            p.timeout.fast_commands_ms == 3000,
            p.timeout.long_streams_ms is None,
            p.kill.graceful_timeout_ms == 200,
            p.kill.force_timeout_ms == 100,
    {
        PolicyConfig { timeout: TimeoutPolicy::default(), kill: KillPolicy::default() }
    }
}

} // verus!
