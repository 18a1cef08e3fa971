use vstd::prelude::*;
use vstd::string::StringExecFns;
use crate::base::errors::PathResolutionError;
use crate::base::paths::{
    KNOT_DAEMON_BINARY_NAME, binary_path_in, binary_path_of, daemon_binary_path, opt_str, path_result,
};
use crate::client::errors::{ClientError, DaemonLifecycleError, client_message};
use crate::terminal::id_set::id_views;

verus! {

/// A copy of a list of arguments.
fn copy_args(args: &Vec<String>) -> (r: Vec<String>)
    ensures
        id_views(r@) == id_views(args@),
{
    let mut r: Vec<String> = Vec::new();
    let mut i: usize = 0;
    while i < args.len()
        invariant
            i <= args@.len(),
            id_views(r@) == id_views(args@).take(i as int),
        decreases args@.len() - i,
    {
        let ghost before = r@;
        let item = args[i].clone();
        assert(item@ == id_views(args@)[i as int]);
        r.push(item);
        assert(id_views(r@) =~= id_views(before).push(item@));
        assert(id_views(args@).take(i + 1) =~= id_views(args@).take(i as int).push(item@));
        assert(id_views(r@) =~= id_views(args@).take(i + 1));
        i = i + 1;
    }
    assert(id_views(args@).take(i as int) =~= id_views(args@));
    r
}

/// The error for a daemon executable that could not be spawned.
pub fn spawn_failure(binary: &str, error: &str) -> (e: ClientError)
    ensures
        e matches ClientError::Daemon(DaemonLifecycleError::LaunchFailed { message, binary_path, error: err })
            && message@ == "Failed to spawn daemon executable"@ && binary_path@ == binary@ && err@ == error@,
{
    ClientError::Daemon(DaemonLifecycleError::LaunchFailed {
        message: String::from_str("Failed to spawn daemon executable"),
        binary_path: String::from_str(binary),
        error: String::from_str(error),
    })
}

/// The identifier of a spawned daemon, given what the operating system reported for
/// it; without one the daemon exited at once, which is a launch failure.
pub fn spawned_pid(binary: &str, id: Option<u32>) -> (r: Result<u32, ClientError>)
    ensures
        match id {
            Some(pid) => r == Ok::<u32, ClientError>(pid),
            None => r matches Err(ClientError::Daemon(DaemonLifecycleError::LaunchFailed { message, binary_path, error }))
                && message@ == "Daemon process exited immediately and yielded no PID. It might have crashed on startup."@
                && binary_path@ == binary@ && error@ == Seq::<char>::empty(),
        },
{
    match id {
        Some(pid) => Ok(pid),
        None => Err(ClientError::Daemon(DaemonLifecycleError::LaunchFailed {
            message: String::from_str("Daemon process exited immediately and yielded no PID. It might have crashed on startup."),
            binary_path: String::from_str(binary),
            error: String::new(),
        })),
    }
}

/// Launches the daemon from a given executable path, with arguments.
pub struct ExternalPathLauncher {
    binary_file_path: String,
    args: Vec<String>,
}

impl ExternalPathLauncher {
    /// The executable path.
    pub closed spec fn spec_binary(&self) -> Seq<char> {
        self.binary_file_path@
    }

    /// The arguments, in order.
    pub closed spec fn spec_args(&self) -> Seq<Seq<char>> {
        id_views(self.args@)
    }

    /// A launcher for the executable at `binary_file_path`, without arguments.
    pub fn new(binary_file_path: &str) -> (l: Self)
        ensures
            l.spec_binary() == binary_file_path@,
            l.spec_args() == Seq::<Seq<char>>::empty(),
    {
        let l = ExternalPathLauncher { binary_file_path: String::from_str(binary_file_path), args: Vec::new() };
        assert(id_views(l.args@) =~= Seq::<Seq<char>>::empty());
        l
    }

    /// Adds an argument for the daemon.
    pub fn arg(&mut self, value: &str) -> (r: &mut Self)
        ensures
            r.spec_binary() == old(self).spec_binary(),
            r.spec_args() == old(self).spec_args().push(value@),
            *final(self) == *final(r),
    {
        let ghost before = self.args@;
        self.args.push(String::from_str(value));
        assert(id_views(self.args@) =~= id_views(before).push(value@));
        self
    }

    /// The executable path.
    pub fn binary_path(&self) -> (p: &str)
        ensures
            p@ == self.spec_binary(),
    {
        self.binary_file_path.as_str()
    }

    /// The arguments.
    pub fn args(&self) -> (a: &Vec<String>)
        ensures
            id_views(a@) == self.spec_args(),
    {
        &self.args
    }
}

/// Launches the daemon as `knot` from the system `PATH`.
pub struct SystemPathLauncher {
    args: Vec<String>,
}

impl SystemPathLauncher {
    /// The arguments, in order.
    pub closed spec fn spec_args(&self) -> Seq<Seq<char>> {
        id_views(self.args@)
    }

    /// A launcher without arguments.
    pub fn new() -> (l: Self)
        ensures
            l.spec_args() == Seq::<Seq<char>>::empty(),
    {
        let l = SystemPathLauncher { args: Vec::new() };
        assert(id_views(l.args@) =~= Seq::<Seq<char>>::empty());
        l
    }

    /// Adds an argument for the daemon.
    pub fn arg(&mut self, value: &str) -> (r: &mut Self)
        ensures
            r.spec_args() == old(self).spec_args().push(value@),
            *final(self) == *final(r),
    {
        let ghost before = self.args@;
        self.args.push(String::from_str(value));
        assert(id_views(self.args@) =~= id_views(before).push(value@));
        self
    }

    /// The executable: `knot`, found through `PATH`.
    pub fn binary_path(&self) -> (p: &'static str)
        ensures
            p@ == "knot"@,
    {
        "knot"
    }

    /// The arguments.
    pub fn args(&self) -> (a: &Vec<String>)
        ensures
            id_views(a@) == self.spec_args(),
    {
        &self.args
    }

    /// The launcher that does the spawning: `knot` with these arguments.
    pub fn to_external(&self) -> (l: ExternalPathLauncher)
        ensures
            l.spec_binary() == "knot"@,
            l.spec_args() == self.spec_args(),
    {
        ExternalPathLauncher { binary_file_path: String::from_str("knot"), args: copy_args(&self.args) }
    }
}

/// Launches the daemon from the running executable, when one binary acts as both.
pub struct CurrentExeLauncher {
    current_exe: String,
    args: Vec<String>,
}

impl CurrentExeLauncher {
    /// The executable path.
    pub closed spec fn spec_binary(&self) -> Seq<char> {
        self.current_exe@
    }

    /// The arguments, in order.
    pub closed spec fn spec_args(&self) -> Seq<Seq<char>> {
        id_views(self.args@)
    }

    /// A launcher for the running executable, whose path is `current_exe`.
    pub fn new(current_exe: &str) -> (l: Self)
        ensures
            l.spec_binary() == current_exe@,
            l.spec_args() == Seq::<Seq<char>>::empty(),
    {
        let l = CurrentExeLauncher { current_exe: String::from_str(current_exe), args: Vec::new() };
        assert(id_views(l.args@) =~= Seq::<Seq<char>>::empty());
        l
    }

    /// Adds an argument for the daemon.
    pub fn arg(&mut self, value: &str) -> (r: &mut Self)
        ensures
            r.spec_binary() == old(self).spec_binary(),
            r.spec_args() == old(self).spec_args().push(value@),
            *final(self) == *final(r),
    {
        let ghost before = self.args@;
        self.args.push(String::from_str(value));
        assert(id_views(self.args@) =~= id_views(before).push(value@));
        self
    }

    /// The executable path.
    pub fn binary_path(&self) -> (p: &str)
        ensures
            p@ == self.spec_binary(),
    {
        self.current_exe.as_str()
    }

    /// The arguments.
    pub fn args(&self) -> (a: &Vec<String>)
        ensures
            id_views(a@) == self.spec_args(),
    {
        &self.args
    }

    /// The launcher that does the spawning: the running executable with these arguments.
    pub fn to_external(&self) -> (l: ExternalPathLauncher)
        ensures
            l.spec_binary() == self.spec_binary(),
            l.spec_args() == self.spec_args(),
    {
        ExternalPathLauncher { binary_file_path: self.current_exe.clone(), args: copy_args(&self.args) }
    }
}

/// The error for a standard binary directory that cannot be resolved.
pub open spec fn unresolved_directory(e: ClientError) -> bool {
    e matches ClientError::Daemon(DaemonLifecycleError::LaunchFailed { message, binary_path, error })
        && message@ == "Failed to resolve the standard Knot binary directory"@
        && binary_path@ == KNOT_DAEMON_BINARY_NAME@
        && error@ == "directories::ProjectDirs returned None"@
}

/// Launches `knotd` from Knot's standard per-user binary directory.
pub struct StandardDaemonLauncher {
    binary_path: String,
    args: Vec<String>,
}

impl StandardDaemonLauncher {
    /// The executable path.
    pub closed spec fn spec_binary(&self) -> Seq<char> {
        self.binary_path@
    }

    /// The arguments, in order.
    pub closed spec fn spec_args(&self) -> Seq<Seq<char>> {
        id_views(self.args@)
    }

    /// A launcher for `knotd` in the binary directory under `data_dir`; without a data
    /// directory the standard directory cannot be resolved.
    pub fn new_in(data_dir: Option<&str>) -> (r: Result<Self, ClientError>)
        ensures
            match binary_path_of(opt_str(data_dir), KNOT_DAEMON_BINARY_NAME@) {
                Ok(p) => r matches Ok(l) && l.spec_binary() == p && l.spec_args() == Seq::<Seq<char>>::empty(),
                Err(_) => r matches Err(e) && unresolved_directory(e),
            },
    {
        match binary_path_in(data_dir, KNOT_DAEMON_BINARY_NAME) {
            Ok(binary_path) => {
                let l = StandardDaemonLauncher { binary_path, args: Vec::new() };
                assert(id_views(l.args@) =~= Seq::<Seq<char>>::empty());
                Ok(l)
            },
            Err(_) => Err(ClientError::Daemon(DaemonLifecycleError::LaunchFailed {
                message: String::from_str("Failed to resolve the standard Knot binary directory"),
                binary_path: String::from_str(KNOT_DAEMON_BINARY_NAME),
                error: String::from_str("directories::ProjectDirs returned None"),
            })),
        }
    }

    /// A launcher for `knotd` in the standard binary directory of this user.
    pub fn new() -> (r: Result<Self, ClientError>)
        ensures
            r matches Ok(l) ==> exists|d: Option<Seq<char>>| binary_path_of(d, KNOT_DAEMON_BINARY_NAME@)
                == Ok::<Seq<char>, PathResolutionError>(l.spec_binary()),
            r matches Err(e) ==> unresolved_directory(e),
            exists|p: Result<String, PathResolutionError>| #[trigger] call_ensures(daemon_binary_path, (), p)
                && match p {
                    Ok(path) => r matches Ok(l) && l.spec_binary() == path@ && l.spec_args() == Seq::<Seq<char>>::empty(),
                    Err(_) => r is Err,
                },
    {
        match daemon_binary_path() {
            Ok(binary_path) => {
                let l = StandardDaemonLauncher { binary_path, args: Vec::new() };
                assert(id_views(l.args@) =~= Seq::<Seq<char>>::empty());
                Ok(l)
            },
            Err(_) => Err(ClientError::Daemon(DaemonLifecycleError::LaunchFailed {
                message: String::from_str("Failed to resolve the standard Knot binary directory"),
                binary_path: String::from_str(KNOT_DAEMON_BINARY_NAME),
                error: String::from_str("directories::ProjectDirs returned None"),
            })),
        }
    }

    /// Adds an argument for the daemon.
    pub fn arg(&mut self, value: &str) -> (r: &mut Self)
        ensures
            r.spec_binary() == old(self).spec_binary(),
            r.spec_args() == old(self).spec_args().push(value@),
            *final(self) == *final(r),
    {
        let ghost before = self.args@;
        self.args.push(String::from_str(value));
        assert(id_views(self.args@) =~= id_views(before).push(value@));
        self
    }

    /// The executable path.
    pub fn binary_path(&self) -> (p: &str)
        ensures
            p@ == self.spec_binary(),
    {
        self.binary_path.as_str()
    }

    /// The arguments.
    pub fn args(&self) -> (a: &Vec<String>)
        ensures
            id_views(a@) == self.spec_args(),
    {
        &self.args
    }

    /// The launcher that does the spawning, given whether the binary exists as a file;
    /// a missing binary is a launch failure.
    pub fn to_external(&self, is_file: bool) -> (r: Result<ExternalPathLauncher, ClientError>)
        ensures
            is_file ==> (r matches Ok(l) && l.spec_binary() == self.spec_binary() && l.spec_args() == self.spec_args()),
            !is_file ==> (r matches Err(ClientError::Daemon(DaemonLifecycleError::LaunchFailed { message, binary_path, error }))
                && message@ == "The knot daemon binary was not found in the standard Knot binary directory"@
                && binary_path@ == self.spec_binary() && error@ == "file does not exist"@),
    {
        if !is_file {
            return Err(ClientError::Daemon(DaemonLifecycleError::LaunchFailed {
                message: String::from_str("The knot daemon binary was not found in the standard Knot binary directory"),
                binary_path: self.binary_path.clone(),
                error: String::from_str("file does not exist"),
            }));
        }
        Ok(ExternalPathLauncher { binary_file_path: self.binary_path.clone(), args: copy_args(&self.args) })
    }
}

/// The launcher used by default: `knotd` in the standard binary directory, or plain
/// `knotd` when that directory cannot be resolved.
pub struct DefaultLauncher {
    default_path: String,
}

impl DefaultLauncher {
    /// The executable path.
    pub closed spec fn spec_binary(&self) -> Seq<char> {
        self.default_path@
    }

    /// The default launcher, given the user's data directory.
    pub fn new_in(data_dir: Option<&str>) -> (l: Self)
        ensures
            l.spec_binary() == match binary_path_of(opt_str(data_dir), KNOT_DAEMON_BINARY_NAME@) {
                Ok(p) => p,
                Err(_) => KNOT_DAEMON_BINARY_NAME@,
            },
    {
        match binary_path_in(data_dir, KNOT_DAEMON_BINARY_NAME) {
            Ok(p) => DefaultLauncher { default_path: p },
            Err(_) => DefaultLauncher { default_path: String::from_str(KNOT_DAEMON_BINARY_NAME) },
        }
    }

    /// The default launcher for this user.
    pub fn new() -> (l: Self)
        ensures
            l.spec_binary() == KNOT_DAEMON_BINARY_NAME@ || exists|d: Option<Seq<char>>|
                binary_path_of(d, KNOT_DAEMON_BINARY_NAME@) == Ok::<Seq<char>, PathResolutionError>(l.spec_binary()),
            exists|p: Result<String, PathResolutionError>| #[trigger] call_ensures(daemon_binary_path, (), p)
                && l.spec_binary() == match p {
                    Ok(path) => path@,
                    Err(_) => KNOT_DAEMON_BINARY_NAME@,
                },
    {
        match daemon_binary_path() {
            Ok(p) => DefaultLauncher { default_path: p },
            Err(_) => DefaultLauncher { default_path: String::from_str(KNOT_DAEMON_BINARY_NAME) },
        }
    }

    /// The executable path.
    pub fn binary_path(&self) -> (p: &str)
        ensures
            p@ == self.spec_binary(),
    {
        self.default_path.as_str()
    }

    /// The error a failed default launch reports: the daemon was not found, with the
    /// binary that was tried and the description of what went wrong.
    pub fn launch_failure(binary: &str, error: &ClientError) -> (e: ClientError)
        ensures
            e matches ClientError::Daemon(DaemonLifecycleError::LaunchFailed { message, binary_path, error: err })
                && message@ == "The knot daemon was not found. Install knotd into the standard Knot binary directory or manually specify the daemon executable path."@
                && binary_path@ == binary@ && err@ == client_message(*error),
    {
        ClientError::Daemon(DaemonLifecycleError::LaunchFailed {
            message: String::from_str("The knot daemon was not found. Install knotd into the standard Knot binary directory or manually specify the daemon executable path."),
            binary_path: String::from_str(binary),
            error: error.message(),
        })
    }
}

} // verus!
