use vstd::prelude::*;
use vstd::string::{StrSliceExecFns, StringExecFns};
use crate::client::errors::{IoFailure, IoKind};

verus! {

/// Basic control over a process: its identifier, and a way to end it.
pub trait ProcessControl {
    /// The identifier of the process.
    spec fn spec_pid(&self) -> u32;

    /// Ends the process at once.
    fn kill(&self) -> Result<(), IoFailure>;

    /// The process identifier.
    fn pid(&self) -> (pid: u32)
        ensures
            pid == self.spec_pid(),
    ;
}

/// Why binding to a process failed.
#[derive(Debug)]
pub enum ProcessError {
    /// No process runs under the identifier.
    NotRunning,
    /// The process under the identifier has another name.
    Mismatch { expected: String, actual: String },
}

/// The description of a process error.
pub open spec fn process_error_message(e: ProcessError) -> Seq<char> {
    match e {
        ProcessError::NotRunning => "process is not running"@,
        ProcessError::Mismatch { expected, actual } => "process name mismatch: expected '"@ + expected@
            + "', got '"@ + actual@ + "'"@,
    }
}

impl ProcessError {
    /// The description of the error.
    pub fn message(&self) -> (s: String)
        ensures
            s@ == process_error_message(*self),
    {
        match self {
            ProcessError::NotRunning => String::from_str("process is not running"),
            ProcessError::Mismatch { expected, actual } => {
                let mut s = String::from_str("process name mismatch: expected '");
                s.append(expected.as_str());
                s.append("', got '");
                s.append(actual.as_str());
                s.append("'");
                s
            },
        }
    }
}

/// The code of `c` with ASCII upper-case letters turned to lower case.
pub open spec fn ascii_lower(c: char) -> u32 {
    if 'A' <= c && c <= 'Z' {
        ((c as u32) + 32) as u32
    } else {
        c as u32
    }
}

/// The two texts are equal when ASCII letters are compared without regard to case.
pub open spec fn eq_ignore_ascii_case(a: Seq<char>, b: Seq<char>) -> bool {
    &&& a.len() == b.len()
    &&& forall|i: int| 0 <= i < a.len() ==> ascii_lower(#[trigger] a[i]) == ascii_lower(b[i])
}

/// The code of one character with ASCII upper-case letters lower-cased.
fn lower(c: char) -> (r: u32)
    ensures
        r == ascii_lower(c),
{
    if 'A' <= c && c <= 'Z' {
        c as u32 + 32
    } else {
        c as u32
    }
}

/// Compares two texts without regard to the case of ASCII letters.
pub fn same_name_ignoring_case(a: &str, b: &str) -> (eq: bool)
    ensures
        eq == eq_ignore_ascii_case(a@, b@),
{
    let n = a.unicode_len();
    let m = b.unicode_len();
    if n != m {
        return false;
    }
    let mut i: usize = 0;
    while i < n
        invariant
            i <= n,
            n == a@.len(),
            m == b@.len(),
            n == m,
            forall|k: int| 0 <= k < i ==> ascii_lower(#[trigger] a@[k]) == ascii_lower(b@[k]),
        decreases n - i,
    {
        if lower(a.get_char(i)) != lower(b.get_char(i)) {
            return false;
        }
        i = i + 1;
    }
    true
}

/// A process known by its identifier.
#[derive(Debug)]
pub struct Process {
    pid: u32,
}

/// Ends process `pid` with `SIGKILL` (`nix::sys::signal::kill`); a refusal is turned
/// into a filesystem-level failure of the matching kind (`std::io::Error::from`).
/// Whether it succeeds depends on the operating system, so nothing is stated of it.
#[verifier::external_body]
fn send_sigkill(pid: u32) -> Result<(), IoFailure> {
    match nix::sys::signal::kill(nix::unistd::Pid::from_raw(pid as i32), nix::sys::signal::Signal::SIGKILL) {
        Ok(()) => Ok(()),
        Err(e) => {
            let e = std::io::Error::from(e);
            let kind = match e.kind() {
                std::io::ErrorKind::PermissionDenied => IoKind::PermissionDenied,
                std::io::ErrorKind::NotFound => IoKind::NotFound,
                std::io::ErrorKind::AlreadyExists => IoKind::AlreadyExists,
                std::io::ErrorKind::AddrInUse => IoKind::AddrInUse,
                _ => IoKind::Other,
            };
            Err(IoFailure { kind, message: e.to_string() })
        },
    }
}

impl Process {
    pub(crate) fn new(pid: u32) -> (p: Self)
        ensures
            p.spec_pid() == pid,
    {
        Process { pid }
    }

    /// The process identifier.
    pub fn pid(&self) -> (pid: u32)
        ensures
            pid == self.spec_pid(),
    {
        self.pid
    }

    /// Binds to process `pid` given what the process table shows under it: the name of
    /// the running process, or nothing. It binds when the name equals `expected_name`
    /// without regard to ASCII case.
    pub fn bind_to(pid: u32, expected_name: &str, running_name: Option<&str>) -> (r: Result<Process, ProcessError>)
        ensures
            match running_name {
                None => r matches Err(ProcessError::NotRunning),
                Some(name) => if eq_ignore_ascii_case(name@, expected_name@) {
                    r matches Ok(p) && p.spec_pid() == pid
                } else {
                    r matches Err(ProcessError::Mismatch { expected, actual }) && expected@ == expected_name@
                        && actual@ == name@
                },
            },
    {
        match running_name {
            None => Err(ProcessError::NotRunning),
            Some(name) => {
                if same_name_ignoring_case(name, expected_name) {
                    Ok(Process::new(pid))
                } else {
                    Err(ProcessError::Mismatch {
                        expected: String::from_str(expected_name),
                        actual: String::from_str(name),
                    })
                }
            },
        }
    }

    /// The process that a spawn produced, given the identifier the operating system
    /// reported for it; without one the process exited at once and this is an error.
    pub fn from_spawned(binary: &str, id: Option<u32>) -> (r: Result<Process, IoFailure>)
        ensures
            match id {
                Some(pid) => r matches Ok(p) && p.spec_pid() == pid,
                None => r matches Err(f) && f.kind == IoKind::Other && f.message@ == "daemon process at '"@
                    + binary@ + "' exited immediately and yielded no PID. It might have crashed on startup."@,
            },
    {
        match id {
            Some(pid) => Ok(Process::new(pid)),
            None => {
                let mut message = String::from_str("daemon process at '");
                message.append(binary);
                message.append("' exited immediately and yielded no PID. It might have crashed on startup.");
                Err(IoFailure { kind: IoKind::Other, message })
            },
        }
    }
}

impl ProcessControl for Process {
    closed spec fn spec_pid(&self) -> u32 {
        self.pid
    }

    fn kill(&self) -> Result<(), IoFailure> {
        send_sigkill(self.pid)
    }

    fn pid(&self) -> (pid: u32) {
        self.pid
    }
}

} // verus!
