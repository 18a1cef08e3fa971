use vstd::prelude::*;
use vstd::string::StringExecFns;
use crate::terminal::report::{ErrorReport, ReportView, opt_view};

verus! {

/// What a rendered line currently shows.
pub enum RenderStatus {
    /// Not started yet.
    Waiting,
    /// In progress, with an optional message.
    Running(Option<String>),
    /// Finished successfully with a message.
    Succeeded(String),
    /// Failed, with an optional report shown under the line.
    Failed(Option<ErrorReport>),
    /// Skipped with a message.
    Skipped(String),
}

/// The plain content of a [`RenderStatus`].
pub enum StatusView {
    Waiting,
    Running(Option<Seq<char>>),
    Succeeded(Seq<char>),
    Failed(Option<ReportView>),
    Skipped(Seq<char>),
}

impl View for RenderStatus {
    type V = StatusView;

    open spec fn view(&self) -> StatusView {
        match self {
            RenderStatus::Waiting => StatusView::Waiting,
            RenderStatus::Running(m) => StatusView::Running(opt_view(*m)),
            RenderStatus::Succeeded(m) => StatusView::Succeeded(m@),
            RenderStatus::Failed(r) => StatusView::Failed(
                match r {
                    Some(rep) => Some(rep@),
                    None => None,
                },
            ),
            RenderStatus::Skipped(m) => StatusView::Skipped(m@),
        }
    }
}

/// The plain content of a [`TaskRenderer`].
pub struct RendererView {
    pub name: Seq<char>,
    pub indent: nat,
    pub status: StatusView,
    pub frozen: bool,
}

/// The state of one rendered line: its title, indentation, what it shows,
/// and whether it has been frozen (finished without further updates).
pub struct TaskRenderer {
    pub name: String,
    pub indent: usize,
    pub status: RenderStatus,
    pub frozen: bool,
}

impl View for TaskRenderer {
    type V = RendererView;

    open spec fn view(&self) -> RendererView {
        RendererView { name: self.name@, indent: self.indent as nat, status: self.status@, frozen: self.frozen }
    }
}

impl TaskRenderer {
    /// A fresh line in the waiting state.
    pub fn new(name: &str, indent: usize) -> (r: Self)
        ensures
            r@ == (RendererView { name: name@, indent: indent as nat, status: StatusView::Waiting, frozen: false }),
    {
        TaskRenderer { name: String::from_str(name), indent, status: RenderStatus::Waiting, frozen: false }
    }

    /// Switches the line to a new status.
    pub fn show(&mut self, status: RenderStatus)
        ensures
            final(self)@ == (RendererView { status: status@, ..old(self)@ }),
    {
        self.status = status;
    }

    /// Freezes the line as it is.
    pub fn finish_silently(&mut self)
        ensures
            final(self)@ == (RendererView { frozen: true, ..old(self)@ }),
    {
        self.frozen = true;
    }
}

} // verus!
