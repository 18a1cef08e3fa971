use vstd::prelude::*;
use vstd::string::StringExecFns;

verus! {

/// The plain content of an [`ErrorReport`].
pub struct ReportView {
    pub message: Seq<char>,
    pub context: Option<Seq<char>>,
    pub solution: Option<Seq<char>>,
}

/// The character sequence held by an optional string.
pub open spec fn opt_view(s: Option<String>) -> Option<Seq<char>> {
    match s {
        Some(t) => Some(t@),
        None => None,
    }
}

/// A context-rich diagnostic report for failed tasks or steps: a main message,
/// optional context (raw logs, paths) and an optional suggested solution.
pub struct ErrorReport {
    /// The primary error message summarizing the problem.
    pub message: String,
    /// Detailed contextual information.
    pub context: Option<String>,
    /// Suggested actions or solutions to fix the issue.
    pub solution: Option<String>,
}

impl View for ErrorReport {
    type V = ReportView;

    open spec fn view(&self) -> ReportView {
        ReportView { message: self.message@, context: opt_view(self.context), solution: opt_view(self.solution) }
    }
}

/// Copies an optional string.
pub fn clone_opt(s: &Option<String>) -> (r: Option<String>)
    ensures
        opt_view(r) == opt_view(*s),
{
    match s {
        Some(t) => Some(t.clone()),
        None => None,
    }
}

impl Clone for ErrorReport {
    fn clone(&self) -> (r: Self)
        ensures
            r@ == self@,
    {
        ErrorReport {
            message: self.message.clone(),
            context: clone_opt(&self.context),
            solution: clone_opt(&self.solution),
        }
    }
}

impl ErrorReport {
    /// Creates a report with a main message and nothing else.
    pub fn new(message: &str) -> (r: Self)
        ensures
            r@ == (ReportView { message: message@, context: None, solution: None }),
    {
        ErrorReport { message: String::from_str(message), context: None, solution: None }
    }

    /// Attaches context information, replacing any previous context.
    pub fn with_context(self, context: &str) -> (r: Self)
        ensures
            r@ == (ReportView { context: Some(context@), ..self@ }),
    {
        ErrorReport { context: Some(String::from_str(context)), ..self }
    }

    /// Attaches a suggested solution, replacing any previous one.
    pub fn with_solution(self, solution: &str) -> (r: Self)
        ensures
            r@ == (ReportView { solution: Some(solution@), ..self@ }),
    {
        ErrorReport { solution: Some(String::from_str(solution)), ..self }
    }
}

/// A report holding only the message `s`.
impl From<&str> for ErrorReport {
    fn from(s: &str) -> (r: Self)
        ensures
            r@ == (ReportView { message: s@, context: None, solution: None }),
    {
        ErrorReport::new(s)
    }
}

/// What `from` of a text gives is stated on the impl above, over the report's view:
/// a `String` field has no spec-level constructor to state it as a value here.
impl vstd::std_specs::convert::FromSpecImpl<&str> for ErrorReport {
    open spec fn obeys_from_spec() -> bool {
        false
    }

    open spec fn from_spec(v: &str) -> Self {
        choose|r: ErrorReport| r@ == (ReportView { message: v@, context: None, solution: None })
    }
}

/// A report holding only the message `s`.
impl From<String> for ErrorReport {
    fn from(s: String) -> (r: Self)
        ensures
            r@ == (ReportView { message: s@, context: None, solution: None }),
    {
        ErrorReport { message: s, context: None, solution: None }
    }
}

/// What `from` of a string gives is stated on the impl above, over the report's view.
impl vstd::std_specs::convert::FromSpecImpl<String> for ErrorReport {
    open spec fn obeys_from_spec() -> bool {
        false
    }

    open spec fn from_spec(v: String) -> Self {
        choose|r: ErrorReport| r@ == (ReportView { message: v@, context: None, solution: None })
    }
}

} // verus!
