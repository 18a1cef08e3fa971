use vstd::prelude::*;
use vstd::string::StringExecFns;

verus! {

/// No valid application data directory could be resolved for this platform and user.
#[derive(PartialEq, Eq, Structural, Clone, Copy, Debug)]
pub struct PathResolutionError;

/// The text of a [`PathResolutionError`].
pub open spec fn path_resolution_message() -> Seq<char> {
    "could not resolve a valid application data directory for this platform/user"@
}

impl PathResolutionError {
    /// The human-readable description of the error.
    pub fn message(&self) -> (s: String)
        ensures
            s@ == path_resolution_message(),
    {
        String::from_str("could not resolve a valid application data directory for this platform/user")
    }
}

} // verus!
