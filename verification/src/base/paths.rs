use vstd::prelude::*;
use vstd::string::StringExecFns;
use crate::base::errors::PathResolutionError;
use crate::base::number::{decimal, to_decimal};

verus! {

/// The file name of the command-line binary.
pub const KNOT_CLI_BINARY_NAME: &'static str = "knot";

/// The file name of the daemon binary.
pub const KNOT_DAEMON_BINARY_NAME: &'static str = "knotd";

/// The path `std::path::Path::join` makes of `base` and `name` on Unix: an absolute
/// `name` replaces `base`; otherwise `name` follows `base`, after a `/` when `base` is
/// not empty and does not already end with one.
pub open spec fn path_joined(base: Seq<char>, name: Seq<char>) -> Seq<char> {
    if name.len() > 0 && name[0] == '/' {
        name
    } else if base.len() > 0 && base.last() != '/' {
        base + "/"@ + name
    } else {
        base + name
    }
}

/// `base` joined with `name` (`std::path::Path::join`), as text. The library only
/// builds on Unix, where joining follows [`path_joined`].
#[verifier::external_body]
pub(crate) fn join_path(base: &str, name: &str) -> (r: String)
    ensures
        r@ == path_joined(base@, name@),
{
    std::path::Path::new(base).join(name).to_string_lossy().into_owned()
}

/// A project name that the platform uses as it is: lower-case ASCII letters only.
pub open spec fn plain_project_name(name: Seq<char>) -> bool {
    name.len() > 0 && forall|i: int| 0 <= i < name.len() ==> 'a' <= #[trigger] name[i] && name[i] <= 'z'
}

/// A per-user data directory of project `application`: some base directory joined
/// with the project's name.
pub open spec fn data_dir_of_project(dir: Seq<char>, application: Seq<char>) -> bool {
    exists|base: Seq<char>| #[trigger] path_joined(base, application) == dir
}

/// The per-user data directory of an application (`directories::ProjectDirs::from`
/// followed by `data_dir`), as text; none when the platform reports no home directory.
/// On Unix, with no qualifier or organization and a name that is used as it is, it is
/// a base directory (`$XDG_DATA_HOME`, `~/.local/share` or `~/Library/Application
/// Support`) joined with the name; which base depends on the environment and is not stated.
#[verifier::external_body]
fn project_data_dir(qualifier: &str, organization: &str, application: &str) -> (r: Option<String>)
    requires
        qualifier@ == Seq::<char>::empty(),
        organization@ == Seq::<char>::empty(),
        plain_project_name(application@),
    ensures
        r matches Some(d) ==> data_dir_of_project(d@, application@),
{
    directories::ProjectDirs::from(qualifier, organization, application).map(
        |dirs| dirs.data_dir().to_string_lossy().into_owned(),
    )
}

/// A data directory of Knot, or none: what the platform may report.
pub open spec fn knot_data_dir(d: Option<Seq<char>>) -> bool {
    d matches Some(p) ==> data_dir_of_project(p, "knot"@)
}

/// The binary directory under a data directory, or the resolution error without one.
pub open spec fn binary_dir_of(data_dir: Option<Seq<char>>) -> Result<Seq<char>, PathResolutionError> {
    match data_dir {
        Some(d) => Ok(path_joined(d, "bin"@)),
        None => Err(PathResolutionError),
    }
}

/// The path of binary `name` under a data directory.
pub open spec fn binary_path_of(data_dir: Option<Seq<char>>, name: Seq<char>) -> Result<Seq<char>, PathResolutionError> {
    match binary_dir_of(data_dir) {
        Ok(dir) => Ok(path_joined(dir, name)),
        Err(e) => Err(e),
    }
}

/// The text view of a path result.
pub open spec fn path_result(r: Result<String, PathResolutionError>) -> Result<Seq<char>, PathResolutionError> {
    match r {
        Ok(p) => Ok(p@),
        Err(e) => Err(e),
    }
}

/// The text view of an optional string.
pub open spec fn opt_str(s: Option<&str>) -> Option<Seq<char>> {
    match s {
        Some(t) => Some(t@),
        None => None,
    }
}

/// The binary directory (`bin`) under the given application data directory.
pub fn binary_dir_in(data_dir: Option<&str>) -> (r: Result<String, PathResolutionError>)
    ensures
        path_result(r) == binary_dir_of(opt_str(data_dir)),
{
    match data_dir {
        Some(d) => Ok(join_path(d, "bin")),
        None => Err(PathResolutionError),
    }
}

/// The path of binary `name` in the binary directory under the given data directory.
pub fn binary_path_in(data_dir: Option<&str>, name: &str) -> (r: Result<String, PathResolutionError>)
    ensures
        path_result(r) == binary_path_of(opt_str(data_dir), name@),
{
    match binary_dir_in(data_dir) {
        Ok(dir) => Ok(join_path(dir.as_str(), name)),
        Err(e) => Err(e),
    }
}

/// `d` is an answer the platform can give for Knot's data directory: what
/// `directories::ProjectDirs` reports, through [`project_data_dir`], for Knot.
pub closed spec fn reported_data_dir(d: Option<String>) -> bool {
    call_ensures(project_data_dir, ("", "", "knot"), d)
}

/// Knot's data directory as the platform reports it.
fn knot_project_data_dir() -> (r: Option<String>)
    ensures
        knot_data_dir(opt_string(r)),
        reported_data_dir(r),
{
    let none = "";
    proof {
        reveal_strlit("");
        reveal_strlit("knot");
        assert(none@.len() == 0);
        assert(none@ =~= Seq::<char>::empty());
    }
    project_data_dir(none, none, "knot")
}

/// The text view of an optional owned string.
pub open spec fn opt_string(s: Option<String>) -> Option<Seq<char>> {
    match s {
        Some(t) => Some(t@),
        None => None,
    }
}

/// The standard per-user binary directory for Knot-managed executables: `bin` under
/// Knot's data directory, or the resolution error when the platform reports none.
pub fn binary_dir() -> (r: Result<String, PathResolutionError>)
    ensures
        exists|d: Option<Seq<char>>| knot_data_dir(d) && #[trigger] binary_dir_of(d) == path_result(r),
        exists|d: Option<String>| #[trigger] reported_data_dir(d)
            && path_result(r) == binary_dir_of(opt_string(d)),
{
    let data = knot_project_data_dir();
    let r = match &data {
        Some(d) => binary_dir_in(Some(d.as_str())),
        None => binary_dir_in(None),
    };
    proof {
        let d = opt_string(data);
        assert(binary_dir_of(d) == path_result(r));
    }
    r
}

/// The path of binary `name` in the standard binary directory.
fn standard_binary_path(name: &str) -> (r: Result<String, PathResolutionError>)
    ensures
        exists|d: Option<Seq<char>>| knot_data_dir(d) && #[trigger] binary_path_of(d, name@) == path_result(r),
        exists|d: Option<String>| #[trigger] reported_data_dir(d)
            && path_result(r) == binary_path_of(opt_string(d), name@),
{
    let data = knot_project_data_dir();
    let r = match &data {
        Some(d) => binary_path_in(Some(d.as_str()), name),
        None => binary_path_in(None, name),
    };
    proof {
        let d = opt_string(data);
        assert(binary_path_of(d, name@) == path_result(r));
    }
    r
}

/// The standard path of the command-line binary: `knot` in the binary directory.
pub fn cli_binary_path() -> (r: Result<String, PathResolutionError>)
    ensures
        exists|d: Option<Seq<char>>| knot_data_dir(d) && #[trigger] binary_path_of(d, KNOT_CLI_BINARY_NAME@)
            == path_result(r),
        exists|d: Option<String>| #[trigger] reported_data_dir(d)
            && path_result(r) == binary_path_of(opt_string(d), KNOT_CLI_BINARY_NAME@),
{
    standard_binary_path(KNOT_CLI_BINARY_NAME)
}

/// The standard path of the daemon binary: `knotd` in the binary directory.
pub fn daemon_binary_path() -> (r: Result<String, PathResolutionError>)
    ensures
        exists|d: Option<Seq<char>>| knot_data_dir(d) && #[trigger] binary_path_of(d, KNOT_DAEMON_BINARY_NAME@)
            == path_result(r),
        exists|d: Option<String>| #[trigger] reported_data_dir(d)
            && path_result(r) == binary_path_of(opt_string(d), KNOT_DAEMON_BINARY_NAME@),
{
    standard_binary_path(KNOT_DAEMON_BINARY_NAME)
}

/// Law: the binary directory and both binary paths are built from what the platform
/// reports for Knot's data directory: `bin` under it, and the binary's name in that
/// directory; with no data directory each is the resolution error.
pub proof fn lemma_binary_paths_follow_platform(
    dir: Result<String, PathResolutionError>,
    cli: Result<String, PathResolutionError>,
    daemon: Result<String, PathResolutionError>,
)
    requires
        call_ensures(binary_dir, (), dir),
        call_ensures(cli_binary_path, (), cli),
        call_ensures(daemon_binary_path, (), daemon),
    ensures
        exists|d: Option<String>| #[trigger] reported_data_dir(d) && path_result(dir) == match d {
            Some(p) => Ok::<Seq<char>, PathResolutionError>(path_joined(p@, "bin"@)),
            None => Err(PathResolutionError),
        },
        exists|d: Option<String>| #[trigger] reported_data_dir(d) && path_result(cli) == match d {
            Some(p) => Ok::<Seq<char>, PathResolutionError>(path_joined(path_joined(p@, "bin"@), KNOT_CLI_BINARY_NAME@)),
            None => Err(PathResolutionError),
        },
        exists|d: Option<String>| #[trigger] reported_data_dir(d) && path_result(daemon) == match d {
            Some(p) => Ok::<Seq<char>, PathResolutionError>(
                path_joined(path_joined(p@, "bin"@), KNOT_DAEMON_BINARY_NAME@),
            ),
            None => Err(PathResolutionError),
        },
{
}

/// Law: for one and the same data directory, both binary paths exist exactly when the
/// binary directory does; each is that directory, a `/`, and the binary's name, so the
/// two share their parent directory, have the file names `knot` and `knotd`, and differ.
pub proof fn lemma_binary_paths_share_dir(d: Option<Seq<char>>)
    ensures
        binary_path_of(d, KNOT_CLI_BINARY_NAME@) is Err <==> binary_dir_of(d) is Err,
        binary_path_of(d, KNOT_DAEMON_BINARY_NAME@) is Err <==> binary_dir_of(d) is Err,
        binary_dir_of(d) matches Ok(dir) ==> {
            &&& binary_path_of(d, KNOT_CLI_BINARY_NAME@) == Ok::<Seq<char>, PathResolutionError>(
                dir + "/"@ + KNOT_CLI_BINARY_NAME@,
            )
            &&& binary_path_of(d, KNOT_DAEMON_BINARY_NAME@) == Ok::<Seq<char>, PathResolutionError>(
                dir + "/"@ + KNOT_DAEMON_BINARY_NAME@,
            )
        },
        binary_dir_of(d) is Ok ==> binary_path_of(d, KNOT_CLI_BINARY_NAME@) != binary_path_of(
            d,
            KNOT_DAEMON_BINARY_NAME@,
        ),
{
    reveal_strlit("knot");
    reveal_strlit("knotd");
    reveal_strlit("bin");
    reveal_strlit("/");
    if let Some(p) = d {
        let dir = path_joined(p, "bin"@);
        assert(dir.len() > 0 && dir.last() == 'n') by {
            if p.len() > 0 && p.last() != '/' {
                assert(dir == p + "/"@ + "bin"@);
            } else {
                assert(dir == p + "bin"@);
            }
        }
        let cli = dir + "/"@ + KNOT_CLI_BINARY_NAME@;
        let daemon = dir + "/"@ + KNOT_DAEMON_BINARY_NAME@;
        assert(cli.len() != daemon.len());
    }
}

/// The daemon's runtime directory: `knot` under `$XDG_RUNTIME_DIR` when that is set,
/// otherwise `/run/user/<uid>/knot`.
pub open spec fn runtime_dir_of(xdg_runtime_dir: Option<Seq<char>>, uid: u32) -> Seq<char> {
    match xdg_runtime_dir {
        Some(d) => path_joined(d, "knot"@),
        None => "/run/user/"@ + decimal(uid as nat) + "/knot"@,
    }
}

/// The daemon's runtime directory, given the value of `XDG_RUNTIME_DIR` and the user id.
pub fn runtime_dir_for(xdg_runtime_dir: Option<&str>, uid: u32) -> (r: String)
    ensures
        r@ == runtime_dir_of(opt_str(xdg_runtime_dir), uid),
{
    match xdg_runtime_dir {
        Some(d) => join_path(d, "knot"),
        None => {
            let mut s = String::from_str("/run/user/");
            let n = to_decimal(uid);
            s.append(n.as_str());
            s.append("/knot");
            s
        },
    }
}

} // verus!
