use vstd::prelude::*;
use vstd::string::StringExecFns;
use crate::terminal::render::TaskRenderer;
use crate::terminal::sequence::{SequenceView, TaskSequence, activated};
use crate::terminal::style::{StyleView, TaskStyle, modern_style, plain_style};
use crate::terminal::task::{EntryView, Task, TaskEntry, TaskView, entry_views, stage_ids};
use crate::terminal::render::{RendererView, StatusView};

verus! {

/// How output is drawn: interactively on a terminal layout `L`, or as plain lines
/// through a writer `W` (for pipes and CI).
pub enum RenderMode<L, W> {
    Interactive(L),
    Plain(W),
}

/// The style that suits a render mode: the modern preset for a terminal, the plain one otherwise.
pub open spec fn style_for<L, W>(mode: RenderMode<L, W>) -> StyleView {
    match mode {
        RenderMode::Interactive(_) => modern_style(),
        RenderMode::Plain(_) => plain_style(),
    }
}

/// Whether output is drawn interactively: only when standard output is a terminal,
/// and never under CI (when the `CI` variable is set). Otherwise it is plain.
pub fn detect_interactive(ci_set: bool, stdout_is_terminal: bool) -> (interactive: bool)
    ensures
        interactive == (!ci_set && stdout_is_terminal),
{
    !ci_set && stdout_is_terminal
}

/// The coordinator of progress output: it holds the render mode and the style,
/// and creates tasks and sequences.
pub struct TaskEngine<L, W> {
    style: TaskStyle,
    mode: RenderMode<L, W>,
}

impl<L, W> TaskEngine<L, W> {
    /// The style used by this engine.
    pub closed spec fn style(&self) -> StyleView {
        self.style@
    }

    /// The render mode used by this engine.
    pub closed spec fn mode(&self) -> RenderMode<L, W> {
        self.mode
    }

    fn detect_style(mode: &RenderMode<L, W>) -> (s: TaskStyle)
        ensures
            s@ == style_for(*mode),
    {
        match mode {
            RenderMode::Interactive(_) => TaskStyle::modern(),
            RenderMode::Plain(_) => TaskStyle::plain(),
        }
    }

    /// An engine for the given mode, with the style that suits it.
    pub fn new(mode: RenderMode<L, W>) -> (e: Self)
        ensures
            e.mode() == mode,
            e.style() == style_for(mode),
    {
        let style = Self::detect_style(&mode);
        TaskEngine { style, mode }
    }

    /// Forces a render mode; the style follows the mode.
    pub fn with_render_mode(self, mode: RenderMode<L, W>) -> (e: Self)
        ensures
            e.mode() == mode,
            e.style() == style_for(mode),
    {
        let style = Self::detect_style(&mode);
        TaskEngine { style, mode }
    }

    /// Uses `writer` for plain output. In interactive mode nothing changes.
    pub fn with_plain_writer(self, writer: W) -> (e: Self)
        ensures
            e.style() == self.style(),
            e.mode() == match self.mode() {
                RenderMode::Plain(_) => RenderMode::Plain(writer),
                RenderMode::Interactive(l) => RenderMode::Interactive(l),
            },
    {
        match self.mode {
            RenderMode::Plain(_) => TaskEngine { style: self.style, mode: RenderMode::Plain(writer) },
            RenderMode::Interactive(l) => TaskEngine { style: self.style, mode: RenderMode::Interactive(l) },
        }
    }

    /// Replaces the style.
    pub fn with_style(self, style: TaskStyle) -> (e: Self)
        ensures
            e.style() == style@,
            e.mode() == self.mode(),
    {
        TaskEngine { style, mode: self.mode }
    }

    /// Whether a blank spacing line is to be inserted: only in interactive mode.
    pub fn space(&self) -> (insert: bool)
        ensures
            insert == self.mode() is Interactive,
    {
        match &self.mode {
            RenderMode::Interactive(_) => true,
            RenderMode::Plain(_) => false,
        }
    }

    /// A builder for a task named `name`, in this engine's style.
    pub fn task(&self, name: &str) -> (b: TaskBuilder)
        ensures
            b@ == (BuilderView { name: name@, style: self.style(), entries: Seq::empty() }),
    {
        TaskBuilder::new(name, self.style.clone())
    }

    /// A builder for a sequence named `name`, in this engine's style.
    pub fn sequence(&self, name: &str) -> (b: TaskSequenceBuilder)
        ensures
            b@ == (BuilderView { name: name@, style: self.style(), entries: Seq::empty() }),
    {
        TaskSequenceBuilder::new(self.task(name))
    }
}

/// The plain content of a task builder.
pub struct BuilderView {
    pub name: Seq<char>,
    pub style: StyleView,
    pub entries: Seq<EntryView>,
}

/// The task line of a new task named `name`.
pub open spec fn head_line(name: Seq<char>) -> RendererView {
    RendererView { name, indent: 0, status: StatusView::Waiting, frozen: false }
}

/// The task a builder produces.
pub open spec fn built_task(b: BuilderView) -> TaskView {
    TaskView {
        renderer: head_line(b.name),
        entries: b.entries,
        finished: Set::empty(),
        failed: Set::empty(),
        is_finished: false,
    }
}

/// Collects the stages of a task before it is shown.
pub struct TaskBuilder {
    name: String,
    style: TaskStyle,
    entries: Vec<TaskEntry>,
}

impl View for TaskBuilder {
    type V = BuilderView;

    closed spec fn view(&self) -> BuilderView {
        BuilderView { name: self.name@, style: self.style@, entries: entry_views(self.entries@) }
    }
}

impl TaskBuilder {
    /// A builder for a task named `name` without stages.
    pub fn new(name: &str, style: TaskStyle) -> (b: Self)
        ensures
            b@ == (BuilderView { name: name@, style: style@, entries: Seq::empty() }),
    {
        let b = TaskBuilder { name: String::from_str(name), style, entries: Vec::new() };
        assert(entry_views(b.entries@) =~= Seq::<EntryView>::empty());
        b
    }

    /// Adds a stage with identifier `id`, shown as `name` one level below the task.
    pub fn with_stage(self, id: &str, name: &str) -> (b: Self)
        ensures
            b@ == (BuilderView {
                entries: self@.entries.push(EntryView::Stage {
                    id: id@,
                    started: false,
                    renderer: RendererView { name: name@, indent: 2, status: StatusView::Waiting, frozen: false },
                }),
                ..self@
            }),
    {
        let mut b = self;
        let stage = crate::terminal::task::Stage::new(id, TaskRenderer::new(name, 2));
        b.entries.push(TaskEntry::Stage(stage));
        assert(entry_views(b.entries@) =~= entry_views(self.entries@).push(stage@));
        b
    }

    /// The task with the collected stages, none of them started.
    pub fn build(self) -> (t: Task)
        ensures
            t@ == built_task(self@),
    {
        Task::new(TaskRenderer::new(self.name.as_str(), 0), self.entries)
    }
}

/// Collects the stages of a sequence; each stage is identified by its name.
pub struct TaskSequenceBuilder {
    task: TaskBuilder,
}

impl View for TaskSequenceBuilder {
    type V = BuilderView;

    closed spec fn view(&self) -> BuilderView {
        self.task@
    }
}

impl TaskSequenceBuilder {
    /// A sequence builder over a task builder.
    pub fn new(task: TaskBuilder) -> (b: Self)
        ensures
            b@ == task@,
    {
        TaskSequenceBuilder { task }
    }

    /// Adds a stage named `name`, which is also its identifier.
    pub fn with_stage(self, name: &str) -> (b: Self)
        ensures
            b@ == (BuilderView {
                entries: self@.entries.push(EntryView::Stage {
                    id: name@,
                    started: false,
                    renderer: RendererView { name: name@, indent: 2, status: StatusView::Waiting, frozen: false },
                }),
                ..self@
            }),
    {
        TaskSequenceBuilder { task: self.task.with_stage(name, name) }
    }

    /// The sequence, with no stage started yet.
    pub fn build(self) -> (s: TaskSequence)
        ensures
            s.wf(),
            s@ == (SequenceView { inner: built_task(self@), current: 0, ids: stage_ids(self@.entries) }),
    {
        TaskSequence::new(self.task.build(), false)
    }

    /// The sequence, with its first stage running.
    pub fn start(self) -> (s: TaskSequence)
        ensures
            s.wf(),
            s@ == activated(SequenceView { inner: built_task(self@), current: 0, ids: stage_ids(self@.entries) }),
    {
        TaskSequence::new(self.task.build(), true)
    }
}

} // verus!
