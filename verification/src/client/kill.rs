use vstd::prelude::*;
use crate::client::errors::IoFailure;
use crate::client::policies::KillPolicy;

verus! {

/// Why an operation on a bound process failed.
#[derive(Debug)]
pub enum ProcessFailure {
    /// The process no longer exists.
    NotRunning,
    /// The process under the identifier is not the one that was bound.
    Mismatch { expected: String, actual: String },
    /// The identifier was reused by another process.
    Reused,
    /// The operating system refused.
    Io(IoFailure),
}

/// The failure a refused signal comes to, given the operating system's error code, if
/// any, and the platform's code for "no such process" (`ESRCH`): that code means the
/// process is not running; any other code, or none, is the refusal itself.
pub fn map_signal_error(os_code: Option<i32>, no_such_process: i32, failure: IoFailure) -> (f: ProcessFailure)
    ensures
        os_code == Some(no_such_process) ==> f is NotRunning,
        os_code != Some(no_such_process) ==> f == ProcessFailure::Io(failure),
{
    match os_code {
        Some(code) => {
            if code == no_such_process {
                ProcessFailure::NotRunning
            } else {
                ProcessFailure::Io(failure)
            }
        },
        None => ProcessFailure::Io(failure),
    }
}

/// What a termination request or a kill, with its wait, came to.
#[derive(Debug)]
pub enum SignalOutcome {
    /// The process exited within the time allowed.
    Exited,
    /// The process was still there when the time ran out.
    NotResponding,
    /// The request itself failed.
    Failed(ProcessFailure),
}

/// Why stopping the daemon failed.
#[derive(Debug)]
pub enum SignalError {
    /// It did not exit even after being killed.
    NotResponding,
    /// Controlling the process failed.
    ProcessError(ProcessFailure),
}

/// What to do next while stopping the daemon.
#[derive(Debug)]
pub enum KillAction {
    /// Ask the process to terminate and wait up to `timeout_ms` for it to exit.
    Terminate { timeout_ms: u64 },
    /// Kill the process and wait up to `timeout_ms` for it to exit.
    Kill { timeout_ms: u64 },
    /// The process is gone: its leftovers are to be cleaned.
    Done,
    /// Stopping failed.
    Fail(SignalError),
}

/// Which request is under way.
#[derive(PartialEq, Eq, Structural, Clone, Copy, Debug)]
pub enum KillPhase {
    Terminating,
    Killing,
    Finished,
}

/// The first step: a graceful termination, unless its timeout is zero, in which case
/// the process is killed at once.
pub open spec fn first_action(policy: KillPolicy) -> (KillPhase, KillAction) {
    if policy.graceful_timeout_ms == 0 {
        (KillPhase::Killing, KillAction::Kill { timeout_ms: policy.force_timeout_ms })
    } else {
        (KillPhase::Terminating, KillAction::Terminate { timeout_ms: policy.graceful_timeout_ms })
    }
}

/// The step after a termination request: an exit (or a process already gone) ends it;
/// no response escalates to a kill; any other failure is returned without escalating.
pub open spec fn after_terminate(policy: KillPolicy, outcome: SignalOutcome) -> (KillPhase, KillAction) {
    match outcome {
        SignalOutcome::Exited => (KillPhase::Finished, KillAction::Done),
        SignalOutcome::NotResponding => (KillPhase::Killing, KillAction::Kill { timeout_ms: policy.force_timeout_ms }),
        SignalOutcome::Failed(ProcessFailure::NotRunning) => (KillPhase::Finished, KillAction::Done),
        SignalOutcome::Failed(f) => (KillPhase::Finished, KillAction::Fail(SignalError::ProcessError(f))),
    }
}

/// The step after a kill: an exit (or a process already gone) ends it; no response
/// is the final failure; any other failure is returned.
pub open spec fn after_kill(outcome: SignalOutcome) -> (KillPhase, KillAction) {
    match outcome {
        SignalOutcome::Exited => (KillPhase::Finished, KillAction::Done),
        SignalOutcome::NotResponding => (KillPhase::Finished, KillAction::Fail(SignalError::NotResponding)),
        SignalOutcome::Failed(ProcessFailure::NotRunning) => (KillPhase::Finished, KillAction::Done),
        SignalOutcome::Failed(f) => (KillPhase::Finished, KillAction::Fail(SignalError::ProcessError(f))),
    }
}

/// The decisions of stopping a hung daemon: a graceful termination first, then a kill.
/// The caller performs each action and reports its outcome.
pub struct KillProcedure {
    pub policy: KillPolicy,
    pub phase: KillPhase,
}

impl KillProcedure {
    /// Starts stopping the daemon under `policy`; returns the procedure and its first action.
    pub fn start(policy: KillPolicy) -> (r: (KillProcedure, KillAction))
        ensures
            r.0.policy == policy,
            (r.0.phase, r.1) == first_action(policy),
    {
        if policy.graceful_timeout_ms == 0 {
            (KillProcedure { policy, phase: KillPhase::Killing }, KillAction::Kill { timeout_ms: policy.force_timeout_ms })
        } else {
            (
                KillProcedure { policy, phase: KillPhase::Terminating },
                KillAction::Terminate { timeout_ms: policy.graceful_timeout_ms },
            )
        }
    }

    /// Takes the outcome of the action under way and returns the next one.
    pub fn on_outcome(&mut self, outcome: SignalOutcome) -> (action: KillAction)
        requires
            old(self).phase != KillPhase::Finished,
        ensures
            final(self).policy == old(self).policy,
            (final(self).phase, action) == if old(self).phase == KillPhase::Terminating {
                after_terminate(old(self).policy, outcome)
            } else {
                after_kill(outcome)
            },
    {
        let terminating = self.phase == KillPhase::Terminating;
        match outcome {
            SignalOutcome::Exited => {
                self.phase = KillPhase::Finished;
                KillAction::Done
            },
            SignalOutcome::NotResponding => {
                if terminating {
                    self.phase = KillPhase::Killing;
                    KillAction::Kill { timeout_ms: self.policy.force_timeout_ms }
                } else {
                    self.phase = KillPhase::Finished;
                    KillAction::Fail(SignalError::NotResponding)
                }
            },
            SignalOutcome::Failed(ProcessFailure::NotRunning) => {
                self.phase = KillPhase::Finished;
                KillAction::Done
            },
            SignalOutcome::Failed(f) => {
                self.phase = KillPhase::Finished;
                KillAction::Fail(SignalError::ProcessError(f))
            },
        }
    }
}

/// Law: stopping a daemon asks for termination at most once and kills at most once,
/// terminating (when it does) before killing: a termination is only ever the first
/// action, and after a kill nothing but the end follows. A zero graceful timeout skips
/// termination.
pub proof fn lemma_kill_escalates_once(policy: KillPolicy, first: SignalOutcome, second: SignalOutcome)
    ensures
        policy.graceful_timeout_ms == 0 ==> first_action(policy).1 is Kill,
        policy.graceful_timeout_ms != 0 ==> first_action(policy).1 is Terminate,
        !(after_terminate(policy, first).1 is Terminate),
        after_terminate(policy, first).1 is Kill ==> after_terminate(policy, first).0 == KillPhase::Killing,
        after_terminate(policy, first).0 != KillPhase::Killing ==> after_terminate(policy, first).0 == KillPhase::Finished,
        after_kill(second).0 == KillPhase::Finished,
        after_kill(second).1 is Done || after_kill(second).1 is Fail,
{
}

/// Law: a process that is already gone counts as stopped, and a failure other than no
/// response (an identity mismatch, a reused identifier, a refusal by the system) never
/// leads to a kill: signalling again could hit an unrelated process.
pub proof fn lemma_kill_never_escalates_on_failure(policy: KillPolicy, f: ProcessFailure)
    ensures
        after_terminate(policy, SignalOutcome::Failed(ProcessFailure::NotRunning)).1 is Done,
        after_kill(SignalOutcome::Failed(ProcessFailure::NotRunning)).1 is Done,
        !(f is NotRunning) ==> after_terminate(policy, SignalOutcome::Failed(f)).1 is Fail,
        !(f is NotRunning) ==> after_kill(SignalOutcome::Failed(f)).1 is Fail,
        after_terminate(policy, SignalOutcome::Exited).1 is Done,
{
}

} // verus!
