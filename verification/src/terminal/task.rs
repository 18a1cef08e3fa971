use vstd::prelude::*;
use vstd::string::StringExecFns;
use crate::terminal::id_set::{StageIdSet, id_views};
use crate::terminal::render::{RenderStatus, RendererView, StatusView, TaskRenderer};
use crate::terminal::report::{ErrorReport, ReportView};

verus! {

/// One step of a [`Task`], identified by `id`.
pub struct Stage {
    /// The identifier by which the stage is addressed.
    pub id: String,
    /// The line that shows the stage.
    pub renderer: TaskRenderer,
    started: bool,
}

impl Stage {
    /// A stage that has not been started.
    pub fn new(id: &str, renderer: TaskRenderer) -> (s: Self)
        ensures
            s@ == (EntryView::Stage { id: id@, started: false, renderer: renderer@ }),
    {
        Stage { id: String::from_str(id), renderer, started: false }
    }

    /// Tells whether the stage has been given a start time, which happens when it is run.
    pub fn has_start_time(&self) -> (b: bool)
        ensures
            b == (self@ matches EntryView::Stage { started, .. } && started),
    {
        self.started
    }
}

/// An entry of a task: a stage, or an extra line (such as a group title).
pub enum TaskEntry {
    Stage(Stage),
    Extra(TaskRenderer),
}

/// The plain content of a task entry.
pub enum EntryView {
    Stage { id: Seq<char>, started: bool, renderer: RendererView },
    Extra { renderer: RendererView },
}

impl View for Stage {
    type V = EntryView;

    closed spec fn view(&self) -> EntryView {
        EntryView::Stage { id: self.id@, started: self.started, renderer: self.renderer@ }
    }
}

impl View for TaskEntry {
    type V = EntryView;

    open spec fn view(&self) -> EntryView {
        match self {
            TaskEntry::Stage(s) => s@,
            TaskEntry::Extra(r) => EntryView::Extra { renderer: r@ },
        }
    }
}

/// The plain content of a [`Task`].
pub struct TaskView {
    /// The task's own line.
    pub renderer: RendererView,
    /// Its stages and extra lines, in order.
    pub entries: Seq<EntryView>,
    /// The ids of the stages that are done (succeeded or skipped).
    pub finished: Set<Seq<char>>,
    /// The ids of the stages that failed.
    pub failed: Set<Seq<char>>,
    /// Whether the task itself has reached its final state.
    pub is_finished: bool,
}

/// The views of a list of entries.
pub open spec fn entry_views(es: Seq<TaskEntry>) -> Seq<EntryView> {
    es.map_values(|e: TaskEntry| e@)
}

/// The identifier of a stage entry; nothing for an extra line.
pub open spec fn entry_id(e: EntryView) -> Option<Seq<char>> {
    match e {
        EntryView::Stage { id, .. } => Some(id),
        EntryView::Extra { .. } => None,
    }
}

/// `e` is a stage with identifier `id`.
pub open spec fn is_stage_with(e: EntryView, id: Seq<char>) -> bool {
    e matches EntryView::Stage { id: i, .. } && i == id
}

/// Some entry is a stage with identifier `id`.
pub open spec fn has_stage(es: Seq<EntryView>, id: Seq<char>) -> bool {
    exists|k: int| 0 <= k < es.len() && #[trigger] is_stage_with(es[k], id)
}

/// `k` is the first entry that is a stage with identifier `id`.
pub open spec fn is_first_stage(es: Seq<EntryView>, id: Seq<char>, k: int) -> bool {
    &&& 0 <= k < es.len()
    &&& is_stage_with(es[k], id)
    &&& forall|j: int| 0 <= j < k ==> !#[trigger] is_stage_with(es[j], id)
}

/// The position of the first stage with identifier `id`.
pub open spec fn first_stage(es: Seq<EntryView>, id: Seq<char>) -> int {
    choose|k: int| is_first_stage(es, id, k)
}

/// The identifiers of the stages among `es`, in order.
pub open spec fn stage_ids(es: Seq<EntryView>) -> Seq<Seq<char>>
    decreases es.len(),
{
    if es.len() == 0 {
        Seq::empty()
    } else {
        let rest = stage_ids(es.drop_last());
        match es.last() {
            EntryView::Stage { id, .. } => rest.push(id),
            EntryView::Extra { .. } => rest,
        }
    }
}

/// Every stage among `es` has its identifier in `done`.
pub open spec fn all_stages_in(es: Seq<EntryView>, done: Set<Seq<char>>) -> bool {
    forall|k: int| 0 <= k < es.len() ==> (#[trigger] es[k] matches EntryView::Stage { id, .. } ==> done.contains(id))
}

/// A renderer showing a new status.
pub open spec fn with_status(r: RendererView, s: StatusView) -> RendererView {
    RendererView { status: s, ..r }
}

/// An entry frozen in place.
pub open spec fn freeze_entry(e: EntryView) -> EntryView {
    match e {
        EntryView::Stage { id, started, renderer } => EntryView::Stage {
            id,
            started,
            renderer: RendererView { frozen: true, ..renderer },
        },
        EntryView::Extra { renderer } => EntryView::Extra { renderer: RendererView { frozen: true, ..renderer } },
    }
}

/// The stage at `k` shows `status`, and is marked started when `start` holds.
pub open spec fn change_stage(es: Seq<EntryView>, k: int, status: StatusView, start: bool) -> Seq<EntryView> {
    match es[k] {
        EntryView::Stage { id, started, renderer } => es.update(
            k,
            EntryView::Stage { id, started: started || start, renderer: with_status(renderer, status) },
        ),
        EntryView::Extra { .. } => es,
    }
}

/// The task marked as succeeded with `msg`; its child lines are cleared.
/// A task that already reached its final state is left as it is.
pub open spec fn completed(t: TaskView, msg: Seq<char>) -> TaskView {
    if t.is_finished {
        t
    } else {
        TaskView {
            renderer: with_status(t.renderer, StatusView::Succeeded(msg)),
            entries: Seq::empty(),
            is_finished: true,
            ..t
        }
    }
}

/// The task brought to success with `msg` as its final message: an open task
/// succeeds with `msg`; a task that already succeeded shows `msg` in place of its
/// message; a failed task stays as it is.
pub open spec fn concluded(t: TaskView, msg: Seq<char>) -> TaskView {
    if !t.is_finished {
        completed(t, msg)
    } else if t.renderer.status is Succeeded {
        TaskView { renderer: with_status(t.renderer, StatusView::Succeeded(msg)), ..t }
    } else {
        t
    }
}

/// The task marked as failed; its child lines are frozen in place.
pub open spec fn failed_and_frozen(t: TaskView) -> TaskView {
    TaskView {
        renderer: with_status(t.renderer, StatusView::Failed(None)),
        entries: t.entries.map_values(|e: EntryView| freeze_entry(e)),
        is_finished: true,
        ..t
    }
}

/// The task marked as failed with report `r`; its child lines are cleared.
pub open spec fn failed_and_cleared(t: TaskView, r: ReportView) -> TaskView {
    TaskView {
        renderer: with_status(t.renderer, StatusView::Failed(Some(r))),
        entries: Seq::empty(),
        is_finished: true,
        ..t
    }
}

/// The task after re-evaluating its own state from its stages: a failed stage fails
/// it, and once every stage is done it succeeds.
pub open spec fn settled(t: TaskView) -> TaskView {
    if t.is_finished {
        t
    } else if t.failed != Set::<Seq<char>>::empty() {
        failed_and_frozen(t)
    } else if all_stages_in(t.entries, t.finished) {
        completed(t, "success"@)
    } else {
        t
    }
}

/// Stage `id` running with an optional message.
pub open spec fn run_by_id(t: TaskView, id: Seq<char>, msg: Option<Seq<char>>) -> TaskView {
    if !has_stage(t.entries, id) {
        t
    } else {
        settled(
            TaskView {
                entries: change_stage(t.entries, first_stage(t.entries, id), StatusView::Running(msg), true),
                finished: t.finished.remove(id),
                failed: t.failed.remove(id),
                ..t
            },
        )
    }
}

/// Stage `id` succeeded with `msg`.
pub open spec fn ok_by_id(t: TaskView, id: Seq<char>, msg: Seq<char>) -> TaskView {
    if !has_stage(t.entries, id) {
        t
    } else {
        settled(
            TaskView {
                entries: change_stage(t.entries, first_stage(t.entries, id), StatusView::Succeeded(msg), false),
                finished: t.finished.insert(id),
                failed: t.failed.remove(id),
                ..t
            },
        )
    }
}

/// Stage `id` failed with report `r`.
pub open spec fn fail_by_id(t: TaskView, id: Seq<char>, r: ReportView) -> TaskView {
    if !has_stage(t.entries, id) {
        t
    } else {
        settled(
            TaskView {
                entries: change_stage(t.entries, first_stage(t.entries, id), StatusView::Failed(Some(r)), false),
                finished: t.finished.remove(id),
                failed: t.failed.insert(id),
                ..t
            },
        )
    }
}

/// Stage `id` skipped with `msg`.
pub open spec fn skip_by_id(t: TaskView, id: Seq<char>, msg: Seq<char>) -> TaskView {
    if !has_stage(t.entries, id) {
        t
    } else {
        settled(
            TaskView {
                entries: change_stage(t.entries, first_stage(t.entries, id), StatusView::Skipped(msg), false),
                finished: t.finished.insert(id),
                failed: t.failed.remove(id),
                ..t
            },
        )
    }
}

/// `ok_by_id` applied to each of `ids` in turn.
pub open spec fn ok_each(t: TaskView, ids: Seq<Seq<char>>, msg: Seq<char>) -> TaskView
    decreases ids.len(),
{
    if ids.len() == 0 {
        t
    } else {
        ok_by_id(ok_each(t, ids.drop_last(), msg), ids.last(), msg)
    }
}

/// `fail_by_id` applied to each of `ids` in turn.
pub open spec fn fail_each(t: TaskView, ids: Seq<Seq<char>>, r: ReportView) -> TaskView
    decreases ids.len(),
{
    if ids.len() == 0 {
        t
    } else {
        fail_by_id(fail_each(t, ids.drop_last(), r), ids.last(), r)
    }
}

/// `run_by_id` applied to each of `ids` in turn.
pub open spec fn run_each(t: TaskView, ids: Seq<Seq<char>>, msg: Option<Seq<char>>) -> TaskView
    decreases ids.len(),
{
    if ids.len() == 0 {
        t
    } else {
        run_by_id(run_each(t, ids.drop_last(), msg), ids.last(), msg)
    }
}

/// `skip_by_id` applied to each of `ids` in turn.
pub open spec fn skip_each(t: TaskView, ids: Seq<Seq<char>>, msg: Seq<char>) -> TaskView
    decreases ids.len(),
{
    if ids.len() == 0 {
        t
    } else {
        skip_by_id(skip_each(t, ids.drop_last(), msg), ids.last(), msg)
    }
}

/// Every stage marked as succeeded; a task without stages succeeds with `msg` itself.
pub open spec fn perform_ok(t: TaskView, msg: Seq<char>) -> TaskView {
    if t.is_finished {
        t
    } else if stage_ids(t.entries).len() == 0 {
        completed(t, msg)
    } else {
        ok_each(t, stage_ids(t.entries), msg)
    }
}

/// Every stage marked as failed, then the task failed with `r` and cleared.
pub open spec fn perform_fail(t: TaskView, r: ReportView) -> TaskView {
    if t.is_finished {
        t
    } else {
        failed_and_cleared(fail_each(t, stage_ids(t.entries), r), r)
    }
}

/// Every stage marked as running.
pub open spec fn perform_run(t: TaskView, msg: Option<Seq<char>>) -> TaskView {
    if t.is_finished {
        t
    } else {
        run_each(t, stage_ids(t.entries), msg)
    }
}

/// Every stage marked as skipped.
pub open spec fn perform_skip(t: TaskView, msg: Seq<char>) -> TaskView {
    if t.is_finished {
        t
    } else {
        skip_each(t, stage_ids(t.entries), msg)
    }
}

/// Two first positions of the same stage are the same position.
pub proof fn lemma_first_stage_unique(es: Seq<EntryView>, id: Seq<char>, k: int)
    requires
        is_first_stage(es, id, k),
    ensures
        first_stage(es, id) == k,
        has_stage(es, id),
{
    let c = first_stage(es, id);
    assert(is_first_stage(es, id, c));
    if c < k {
        assert(!is_stage_with(es[c], id));
    } else if k < c {
        assert(!is_stage_with(es[k], id));
    }
}

/// A multi-step operation made of stages. The task succeeds once every stage is
/// done (succeeded or skipped) and fails as soon as any stage fails.
pub struct Task {
    renderer: TaskRenderer,
    entries: Vec<TaskEntry>,
    finished_stages: StageIdSet,
    failed_stages: StageIdSet,
    is_finished: bool,
}

impl View for Task {
    type V = TaskView;

    closed spec fn view(&self) -> TaskView {
        TaskView {
            renderer: self.renderer@,
            entries: entry_views(self.entries@),
            finished: self.finished_stages@,
            failed: self.failed_stages@,
            is_finished: self.is_finished,
        }
    }
}

impl Task {
    /// A task with its own line and its entries, in which no stage is done yet.
    pub fn new(renderer: TaskRenderer, entries: Vec<TaskEntry>) -> (t: Self)
        ensures
            t@ == (TaskView {
                renderer: renderer@,
                entries: entry_views(entries@),
                finished: Set::empty(),
                failed: Set::empty(),
                is_finished: false,
            }),
    {
        Task {
            renderer,
            entries,
            finished_stages: StageIdSet::new(),
            failed_stages: StageIdSet::new(),
            is_finished: false,
        }
    }

    /// The task's own line.
    pub fn renderer(&self) -> (r: &TaskRenderer)
        ensures
            r@ == self@.renderer,
    {
        &self.renderer
    }

    /// The task's entries.
    pub fn entries(&self) -> (r: &Vec<TaskEntry>)
        ensures
            entry_views(r@) == self@.entries,
    {
        &self.entries
    }

    /// The identifiers of the stages that are done.
    pub fn finished_stages(&self) -> (r: &StageIdSet)
        ensures
            r@ == self@.finished,
    {
        &self.finished_stages
    }

    /// The identifiers of the stages that failed.
    pub fn failed_stages(&self) -> (r: &StageIdSet)
        ensures
            r@ == self@.failed,
    {
        &self.failed_stages
    }

    /// Whether the task has reached its final state.
    pub fn is_finished(&self) -> (b: bool)
        ensures
            b == self@.is_finished,
    {
        self.is_finished
    }

    /// The position of the first stage with identifier `id`.
    fn find_stage(&self, id: &String) -> (r: Option<usize>)
        ensures
            match r {
                Some(k) => is_first_stage(self@.entries, id@, k as int),
                None => !has_stage(self@.entries, id@),
            },
    {
        let mut i: usize = 0;
        while i < self.entries.len()
            invariant
                i <= self.entries@.len(),
                forall|j: int| 0 <= j < i ==> !#[trigger] is_stage_with(self@.entries[j], id@),
            decreases self.entries@.len() - i,
        {
            match &self.entries[i] {
                TaskEntry::Stage(s) => {
                    if s.id == *id {
                        assert(is_stage_with(self@.entries[i as int], id@));
                        return Some(i);
                    }
                },
                TaskEntry::Extra(_) => {},
            }
            assert(!is_stage_with(self@.entries[i as int], id@));
            i = i + 1;
        }
        None
    }

    /// The first stage with identifier `id`, if there is one.
    pub fn get_stage(&self, id: &str) -> (r: Option<&Stage>)
        ensures
            r is Some == has_stage(self@.entries, id@),
            r matches Some(s) ==> s@ == self@.entries[first_stage(self@.entries, id@)],
    {
        let key = String::from_str(id);
        match self.find_stage(&key) {
            Some(k) => {
                proof { lemma_first_stage_unique(self@.entries, id@, k as int); }
                match &self.entries[k] {
                    TaskEntry::Stage(s) => Some(s),
                    TaskEntry::Extra(_) => None,
                }
            },
            None => None,
        }
    }

    /// The stage at `k` shows `status`, and is marked started when `start` holds.
    fn change_stage_at(&mut self, k: usize, status: RenderStatus, start: bool)
        requires
            k < old(self)@.entries.len(),
            old(self)@.entries[k as int] is Stage,
        ensures
            final(self)@ == (TaskView {
                entries: change_stage(old(self)@.entries, k as int, status@, start),
                ..old(self)@
            }),
    {
        let entry = self.entries.remove(k);
        let changed = match entry {
            TaskEntry::Stage(s) => {
                let mut s = s;
                s.started = s.started || start;
                s.renderer.show(status);
                TaskEntry::Stage(s)
            },
            TaskEntry::Extra(r) => TaskEntry::Extra(r),
        };
        self.entries.insert(k, changed);
        assert(entry_views(self.entries@) =~= change_stage(old(self)@.entries, k as int, status@, start));
    }

    /// Every entry frozen in place.
    fn finish_children(&mut self)
        ensures
            final(self)@ == (TaskView {
                entries: old(self)@.entries.map_values(|e: EntryView| freeze_entry(e)),
                ..old(self)@
            }),
    {
        let ghost before = self@;
        let mut i: usize = 0;
        while i < self.entries.len()
            invariant
                i <= self.entries@.len(),
                self.entries@.len() == before.entries.len(),
                self@ == (TaskView { entries: self@.entries, ..before }),
                forall|j: int| 0 <= j < i ==> self@.entries[j] == freeze_entry(#[trigger] before.entries[j]),
                forall|j: int| i <= j < self.entries@.len() ==> self@.entries[j] == #[trigger] before.entries[j],
            decreases self.entries@.len() - i,
        {
            let entry = self.entries.remove(i);
            let frozen = match entry {
                TaskEntry::Stage(s) => {
                    let mut s = s;
                    s.renderer.finish_silently();
                    TaskEntry::Stage(s)
                },
                TaskEntry::Extra(r) => {
                    let mut r = r;
                    r.finish_silently();
                    TaskEntry::Extra(r)
                },
            };
            self.entries.insert(i, frozen);
            i = i + 1;
        }
        assert(self@.entries =~= before.entries.map_values(|e: EntryView| freeze_entry(e)));
    }

    /// Removes every entry.
    fn clear_children(&mut self)
        ensures
            final(self)@ == (TaskView { entries: Seq::empty(), ..old(self)@ }),
    {
        self.entries.clear();
        assert(entry_views(self.entries@) =~= Seq::<EntryView>::empty());
    }

    /// Marks the task as succeeded with `msg` and clears its child lines.
    /// Does nothing to a task that already reached its final state.
    pub fn set_completed(&mut self, msg: &str)
        ensures
            final(self)@ == completed(old(self)@, msg@),
    {
        if self.is_finished {
            return;
        }
        self.renderer.show(RenderStatus::Succeeded(String::from_str(msg)));
        self.is_finished = true;
        self.clear_children();
    }

    /// Brings the task to success with `msg` as its final message; a failed task stays
    /// failed.
    pub fn conclude(&mut self, msg: &str)
        ensures
            final(self)@ == concluded(old(self)@, msg@),
    {
        if !self.is_finished {
            self.set_completed(msg);
        } else {
            let succeeded = match &self.renderer.status {
                RenderStatus::Succeeded(_) => true,
                _ => false,
            };
            if succeeded {
                self.renderer.show(RenderStatus::Succeeded(String::from_str(msg)));
            }
        }
    }

    /// Marks the task as failed and freezes its child lines.
    fn set_failed_and_freeze(&mut self)
        ensures
            final(self)@ == failed_and_frozen(old(self)@),
    {
        self.renderer.show(RenderStatus::Failed(None));
        self.is_finished = true;
        self.finish_children();
    }

    /// Marks the task as failed with `error` and clears its child lines.
    fn set_failed_and_clear(&mut self, error: ErrorReport)
        ensures
            final(self)@ == failed_and_cleared(old(self)@, error@),
    {
        self.renderer.show(RenderStatus::Failed(Some(error)));
        self.is_finished = true;
        self.clear_children();
    }

    /// Whether every stage is among the finished ones.
    fn all_stages_finished(&self) -> (b: bool)
        ensures
            b == all_stages_in(self@.entries, self@.finished),
    {
        let mut i: usize = 0;
        while i < self.entries.len()
            invariant
                i <= self.entries@.len(),
                forall|j: int| 0 <= j < i ==> (#[trigger] self@.entries[j] matches EntryView::Stage { id, .. }
                    ==> self@.finished.contains(id)),
            decreases self.entries@.len() - i,
        {
            match &self.entries[i] {
                TaskEntry::Stage(s) => {
                    if !self.finished_stages.contains(&s.id) {
                        assert(!all_stages_in(self@.entries, self@.finished)) by {
                            assert(self@.entries[i as int] matches EntryView::Stage { id, .. } && !self@.finished.contains(id));
                        }
                        return false;
                    }
                },
                TaskEntry::Extra(_) => {},
            }
            i = i + 1;
        }
        true
    }

    /// Re-evaluates the task's own state from the states of its stages.
    fn update_state(&mut self)
        ensures
            final(self)@ == settled(old(self)@),
    {
        if self.is_finished {
            return;
        }
        if !self.failed_stages.is_empty() {
            self.set_failed_and_freeze();
            return;
        }
        if self.all_stages_finished() {
            self.set_completed("success");
        }
    }

    /// Marks stage `id` as running, which forgets whether it was done or failed.
    /// Returns whether a stage with that identifier exists.
    pub fn run_by_id(&mut self, id: &str, msg: Option<&str>) -> (found: bool)
        ensures
            found == has_stage(old(self)@.entries, id@),
            final(self)@ == run_by_id(old(self)@, id@, match msg { Some(m) => Some(m@), None => None }),
    {
        let key = String::from_str(id);
        match self.find_stage(&key) {
            None => false,
            Some(k) => {
                proof { lemma_first_stage_unique(self@.entries, id@, k as int); }
                let shown = match msg {
                    Some(m) => Some(String::from_str(m)),
                    None => None,
                };
                self.change_stage_at(k, RenderStatus::Running(shown), true);
                self.finished_stages.remove(&key);
                self.failed_stages.remove(&key);
                self.update_state();
                true
            },
        }
    }

    /// Marks stage `id` as succeeded with `msg`.
    /// Returns whether a stage with that identifier exists.
    pub fn ok_by_id(&mut self, id: &str, msg: &str) -> (found: bool)
        ensures
            found == has_stage(old(self)@.entries, id@),
            final(self)@ == ok_by_id(old(self)@, id@, msg@),
    {
        let key = String::from_str(id);
        match self.find_stage(&key) {
            None => false,
            Some(k) => {
                proof { lemma_first_stage_unique(self@.entries, id@, k as int); }
                self.change_stage_at(k, RenderStatus::Succeeded(String::from_str(msg)), false);
                let again = key.clone();
                self.finished_stages.insert(again);
                self.failed_stages.remove(&key);
                self.update_state();
                true
            },
        }
    }

    /// Marks stage `id` as failed with `report`, which fails the task.
    /// Returns whether a stage with that identifier exists.
    pub fn fail_by_id(&mut self, id: &str, report: ErrorReport) -> (found: bool)
        ensures
            found == has_stage(old(self)@.entries, id@),
            final(self)@ == fail_by_id(old(self)@, id@, report@),
    {
        let key = String::from_str(id);
        match self.find_stage(&key) {
            None => false,
            Some(k) => {
                proof { lemma_first_stage_unique(self@.entries, id@, k as int); }
                self.change_stage_at(k, RenderStatus::Failed(Some(report)), false);
                self.finished_stages.remove(&key);
                let again = key.clone();
                self.failed_stages.insert(again);
                self.update_state();
                true
            },
        }
    }

    /// Marks stage `id` as skipped with `msg`; a skipped stage counts as done.
    /// Returns whether a stage with that identifier exists.
    pub fn skip_by_id(&mut self, id: &str, msg: &str) -> (found: bool)
        ensures
            found == has_stage(old(self)@.entries, id@),
            final(self)@ == skip_by_id(old(self)@, id@, msg@),
    {
        let key = String::from_str(id);
        match self.find_stage(&key) {
            None => false,
            Some(k) => {
                proof { lemma_first_stage_unique(self@.entries, id@, k as int); }
                self.change_stage_at(k, RenderStatus::Skipped(String::from_str(msg)), false);
                let again = key.clone();
                self.finished_stages.insert(again);
                self.failed_stages.remove(&key);
                self.update_state();
                true
            },
        }
    }

    /// The identifiers of the stages, in order.
    pub fn collect_stage_ids(&self) -> (ids: Vec<String>)
        ensures
            id_views(ids@) == stage_ids(self@.entries),
    {
        let mut ids: Vec<String> = Vec::new();
        let mut i: usize = 0;
        while i < self.entries.len()
            invariant
                i <= self.entries@.len(),
                id_views(ids@) == stage_ids(self@.entries.take(i as int)),
            decreases self.entries@.len() - i,
        {
            assert(self@.entries.take(i + 1).drop_last() =~= self@.entries.take(i as int));
            match &self.entries[i] {
                TaskEntry::Stage(s) => {
                    ids.push(s.id.clone());
                },
                TaskEntry::Extra(_) => {},
            }
            assert(id_views(ids@) =~= stage_ids(self@.entries.take(i + 1)));
            i = i + 1;
        }
        assert(self@.entries.take(i as int) =~= self@.entries);
        ids
    }

    /// Marks every stage as succeeded with `msg`. A task without stages succeeds with `msg`.
    pub fn perform_ok(&mut self, msg: &str)
        ensures
            final(self)@ == perform_ok(old(self)@, msg@),
    {
        if self.is_finished {
            return;
        }
        let ids = self.collect_stage_ids();
        if ids.len() == 0 {
            self.set_completed(msg);
            return;
        }
        let ghost start = self@;
        let ghost all = id_views(ids@);
        let mut i: usize = 0;
        while i < ids.len()
            invariant
                i <= ids@.len(),
                all == id_views(ids@),
                self@ == ok_each(start, all.take(i as int), msg@),
            decreases ids@.len() - i,
        {
            assert(all.take(i + 1).drop_last() =~= all.take(i as int));
            self.ok_by_id(ids[i].as_str(), msg);
            i = i + 1;
        }
        assert(all.take(i as int) =~= all);
    }

    /// Marks every stage as failed with `error`, then fails the task with it and clears it.
    pub fn perform_fail(&mut self, error: ErrorReport)
        ensures
            final(self)@ == perform_fail(old(self)@, error@),
    {
        if self.is_finished {
            return;
        }
        let ids = self.collect_stage_ids();
        let ghost start = self@;
        let ghost all = id_views(ids@);
        let mut i: usize = 0;
        while i < ids.len()
            invariant
                i <= ids@.len(),
                all == id_views(ids@),
                self@ == fail_each(start, all.take(i as int), error@),
            decreases ids@.len() - i,
        {
            assert(all.take(i + 1).drop_last() =~= all.take(i as int));
            self.fail_by_id(ids[i].as_str(), error.clone());
            i = i + 1;
        }
        assert(all.take(i as int) =~= all);
        self.set_failed_and_clear(error);
    }

    /// Marks every stage as running.
    pub fn perform_run(&mut self, msg: Option<&str>)
        ensures
            final(self)@ == perform_run(old(self)@, match msg { Some(m) => Some(m@), None => None }),
    {
        if self.is_finished {
            return;
        }
        let ids = self.collect_stage_ids();
        let ghost start = self@;
        let ghost all = id_views(ids@);
        let ghost shown = match msg { Some(m) => Some(m@), None => None };
        let mut i: usize = 0;
        while i < ids.len()
            invariant
                i <= ids@.len(),
                all == id_views(ids@),
                shown == match msg { Some(m) => Some(m@), None => None },
                self@ == run_each(start, all.take(i as int), shown),
            decreases ids@.len() - i,
        {
            assert(all.take(i + 1).drop_last() =~= all.take(i as int));
            self.run_by_id(ids[i].as_str(), msg);
            i = i + 1;
        }
        assert(all.take(i as int) =~= all);
    }

    /// Marks every stage as skipped with `msg`.
    pub fn perform_skip(&mut self, msg: &str)
        ensures
            final(self)@ == perform_skip(old(self)@, msg@),
    {
        if self.is_finished {
            return;
        }
        let ids = self.collect_stage_ids();
        let ghost start = self@;
        let ghost all = id_views(ids@);
        let mut i: usize = 0;
        while i < ids.len()
            invariant
                i <= ids@.len(),
                all == id_views(ids@),
                self@ == skip_each(start, all.take(i as int), msg@),
            decreases ids@.len() - i,
        {
            assert(all.take(i + 1).drop_last() =~= all.take(i as int));
            self.skip_by_id(ids[i].as_str(), msg);
            i = i + 1;
        }
        assert(all.take(i as int) =~= all);
    }

    /// Bulk operation: every stage succeeds; returns the task in its final form.
    pub fn ok(self, msg: &str) -> (t: Task)
        ensures
            t@ == perform_ok(self@, msg@),
    {
        let mut t = self;
        t.perform_ok(msg);
        t
    }

    /// Bulk operation: every stage fails; returns the task in its final form.
    pub fn fail(self, error: ErrorReport) -> (t: Task)
        ensures
            t@ == perform_fail(self@, error@),
    {
        let mut t = self;
        t.perform_fail(error);
        t
    }

    /// Bulk operation: every stage runs.
    pub fn run(&mut self, msg: Option<&str>)
        ensures
            final(self)@ == perform_run(old(self)@, match msg { Some(m) => Some(m@), None => None }),
    {
        self.perform_run(msg);
    }

    /// Bulk operation: every stage is skipped; returns the task in its final form.
    pub fn skip(self, msg: &str) -> (t: Task)
        ensures
            t@ == perform_skip(self@, msg@),
    {
        let mut t = self;
        t.perform_skip(msg);
        t
    }
}

} // verus!
