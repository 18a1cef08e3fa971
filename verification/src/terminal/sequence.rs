use vstd::prelude::*;
use vstd::string::StringExecFns;
use crate::terminal::id_set::id_views;
use crate::terminal::report::{ErrorReport, ReportView};
use crate::terminal::render::StatusView;
use crate::terminal::task::{
    EntryView, Task, TaskView, change_stage, completed, concluded, entry_id, fail_by_id, first_stage, has_stage,
    is_first_stage,
    is_stage_with, ok_by_id, run_by_id, skip_by_id, skip_each, stage_ids,
};
use crate::terminal::task_laws::{
    lemma_change_keeps_stages, lemma_failed_stage_fails_task, lemma_stage_ids_complete, lemma_stage_shows_outcome,
    first_shows, stage_shows, stage_started, lemma_final_state_is_kept, lemma_first_exists, same_stages,
};

verus! {

/// The plain content of a [`TaskSequence`].
pub struct SequenceView {
    /// The underlying task.
    pub inner: TaskView,
    /// The position of the stage that is due next.
    pub current: nat,
    /// The identifiers of the stages, in the order they run.
    pub ids: Seq<Seq<char>>,
}

/// The due stage, if any, marked as running.
pub open spec fn activated(s: SequenceView) -> SequenceView {
    if s.current < s.ids.len() {
        SequenceView { inner: run_by_id(s.inner, s.ids[s.current as int], None), ..s }
    } else {
        s
    }
}

/// After the due stage is done: the next one runs, or, past the last, the task succeeds.
pub open spec fn advanced(s: SequenceView, inner: TaskView) -> SequenceView {
    let next = SequenceView { inner, current: s.current + 1, ..s };
    if s.current + 1 < s.ids.len() {
        activated(next)
    } else {
        SequenceView { inner: completed(inner, "success"@), ..next }
    }
}

/// The stages from `from` on skipped with `msg`; the sequence is exhausted.
pub open spec fn skipped_from(s: SequenceView, from: nat, msg: Seq<char>) -> SequenceView {
    SequenceView {
        inner: skip_each(s.inner, s.ids.subrange(from as int, s.ids.len() as int), msg),
        current: s.ids.len(),
        ..s
    }
}

/// The due stage succeeded with `msg`.
pub open spec fn sequence_ok(s: SequenceView, msg: Seq<char>) -> SequenceView {
    if s.current < s.ids.len() {
        advanced(s, ok_by_id(s.inner, s.ids[s.current as int], msg))
    } else {
        s
    }
}

/// The due stage was skipped with `msg`.
pub open spec fn sequence_skip(s: SequenceView, msg: Seq<char>) -> SequenceView {
    if s.current < s.ids.len() {
        advanced(s, skip_by_id(s.inner, s.ids[s.current as int], msg))
    } else {
        s
    }
}

/// The due stage failed with `r`; every later stage is skipped.
pub open spec fn sequence_fail(s: SequenceView, r: ReportView) -> SequenceView {
    if s.current < s.ids.len() {
        let next = SequenceView {
            inner: fail_by_id(s.inner, s.ids[s.current as int], r),
            current: s.current + 1,
            ..s
        };
        if next.current < s.ids.len() {
            skipped_from(next, next.current, "skipped due to previous error"@)
        } else {
            next
        }
    } else {
        s
    }
}

/// The whole chain ends early: the remaining stages are skipped and a task that was
/// still open succeeds with `msg` as its final message (unless a stage failed); a task
/// that had already ended keeps its outcome.
pub open spec fn sequence_finish(s: SequenceView, msg: Seq<char>) -> SequenceView {
    let rest = if s.current < s.ids.len() {
        skipped_from(s, s.current, "skipped"@)
    } else {
        s
    };
    if s.inner.is_finished {
        rest
    } else {
        SequenceView { inner: concluded(rest.inner, msg), ..rest }
    }
}

/// A sequence state its operations can reach: the position never passes the end of
/// the chain, and while the task is open the chain is exactly the task's stages.
pub open spec fn sequence_consistent(s: SequenceView) -> bool {
    &&& s.current <= s.ids.len()
    &&& (s.inner.is_finished || stage_ids(s.inner.entries) == s.ids)
}

/// Runs the stages of a task strictly one after another. A failure or an early
/// finish skips every remaining stage; calls after the last stage change nothing.
pub struct TaskSequence {
    inner: Task,
    current_stage: usize,
    all_ids: Vec<String>,
}

impl View for TaskSequence {
    type V = SequenceView;

    closed spec fn view(&self) -> SequenceView {
        SequenceView { inner: self.inner@, current: self.current_stage as nat, ids: id_views(self.all_ids@) }
    }
}

impl TaskSequence {
    /// The sequence is consistent (see [`sequence_consistent`]).
    pub closed spec fn wf(&self) -> bool {
        sequence_consistent(self@)
    }

    /// Well-formedness as seen from outside.
    pub proof fn lemma_wf(&self)
        requires
            self.wf(),
        ensures
            sequence_consistent(self@),
    {
    }

    /// Marks the due stage, if any, as running.
    fn activate_current_stage(&mut self)
        ensures
            final(self)@ == activated(old(self)@),
    {
        if self.current_stage < self.all_ids.len() {
            self.inner.run_by_id(self.all_ids[self.current_stage].as_str(), None);
        }
    }

    /// A sequence over the stages of `task`; with `autostart` the first stage starts running.
    pub fn new(task: Task, autostart: bool) -> (s: Self)
        ensures
            s.wf(),
            s@ == (if autostart {
                activated(SequenceView { inner: task@, current: 0, ids: stage_ids(task@.entries) })
            } else {
                SequenceView { inner: task@, current: 0, ids: stage_ids(task@.entries) }
            }),
    {
        let all_ids = task.collect_stage_ids();
        let mut sequence = TaskSequence { inner: task, current_stage: 0, all_ids };
        let ghost start = sequence@;
        proof {
            lemma_sequence_stays_consistent(start, Seq::empty(), ReportView { message: Seq::empty(), context: None, solution: None }, 0);
        }
        if autostart {
            sequence.activate_current_stage();
        }
        sequence
    }

    /// The underlying task.
    pub fn task(&self) -> (t: &Task)
        ensures
            t@ == self@.inner,
    {
        &self.inner
    }

    /// The position of the stage that is due next.
    pub fn current_stage(&self) -> (n: usize)
        ensures
            n == self@.current,
    {
        self.current_stage
    }

    /// The due stage succeeded; the next one starts, or the task succeeds after the last.
    pub fn ok(&mut self, result_msg: &str)
        requires
            old(self).wf(),
        ensures
            final(self).wf(),
            final(self)@ == sequence_ok(old(self)@, result_msg@),
    {
        if self.current_stage < self.all_ids.len() {
            self.inner.ok_by_id(self.all_ids[self.current_stage].as_str(), result_msg);
            self.current_stage = self.current_stage + 1;
            if self.current_stage < self.all_ids.len() {
                self.activate_current_stage();
            } else {
                self.inner.set_completed("success");
            }
        }
        proof { lemma_sequence_stays_consistent(old(self)@, result_msg@, ReportView { message: Seq::empty(), context: None, solution: None }, 0); }
    }

    /// The due stage failed; every remaining stage is skipped.
    pub fn fail(&mut self, report: ErrorReport)
        requires
            old(self).wf(),
        ensures
            final(self).wf(),
            final(self)@ == sequence_fail(old(self)@, report@),
    {
        if self.current_stage < self.all_ids.len() {
            self.inner.fail_by_id(self.all_ids[self.current_stage].as_str(), report);
            self.current_stage = self.current_stage + 1;
            if self.current_stage < self.all_ids.len() {
                self.skip_stages(self.current_stage, "skipped due to previous error");
            }
        }
        proof { lemma_sequence_stays_consistent(old(self)@, Seq::empty(), report@, 0); }
    }

    /// The due stage was skipped; the next one starts, or the task succeeds after the last.
    pub fn skip(&mut self, result_msg: &str)
        requires
            old(self).wf(),
        ensures
            final(self).wf(),
            final(self)@ == sequence_skip(old(self)@, result_msg@),
    {
        if self.current_stage < self.all_ids.len() {
            self.inner.skip_by_id(self.all_ids[self.current_stage].as_str(), result_msg);
            self.current_stage = self.current_stage + 1;
            if self.current_stage < self.all_ids.len() {
                self.activate_current_stage();
            } else {
                self.inner.set_completed("success");
            }
        }
        proof { lemma_sequence_stays_consistent(old(self)@, result_msg@, ReportView { message: Seq::empty(), context: None, solution: None }, 0); }
    }

    /// Skips every stage from `start_from` on with `msg` and exhausts the sequence.
    fn skip_stages(&mut self, start_from: usize, msg: &str)
        requires
            start_from <= old(self)@.ids.len(),
        ensures
            final(self)@ == skipped_from(old(self)@, start_from as nat, msg@),
    {
        let ghost start = self@;
        let ghost rest = start.ids.subrange(start_from as int, start.ids.len() as int);
        let mut i: usize = start_from;
        while i < self.all_ids.len()
            invariant
                start_from <= i <= self.all_ids@.len(),
                self.current_stage == start.current,
                id_views(self.all_ids@) == start.ids,
                rest == start.ids.subrange(start_from as int, start.ids.len() as int),
                self@.inner == skip_each(start.inner, rest.take(i - start_from), msg@),
            decreases self.all_ids@.len() - i,
        {
            assert(rest.take(i + 1 - start_from).drop_last() =~= rest.take(i - start_from));
            assert(rest.take(i + 1 - start_from).last() == start.ids[i as int]);
            self.inner.skip_by_id(self.all_ids[i].as_str(), msg);
            i = i + 1;
        }
        assert(rest.take(i - start_from) =~= rest);
        self.current_stage = self.all_ids.len();
    }

    /// Ends the chain early: remaining stages are skipped and a task that was still open
    /// succeeds with `result_msg` as its final message.
    pub fn finish(&mut self, result_msg: &str)
        requires
            old(self).wf(),
        ensures
            final(self).wf(),
            final(self)@ == sequence_finish(old(self)@, result_msg@),
    {
        let was_finished = self.inner.is_finished();
        if self.current_stage < self.all_ids.len() {
            self.skip_stages(self.current_stage, "skipped");
        }
        if !was_finished {
            self.inner.conclude(result_msg);
        }
        proof { lemma_sequence_stays_consistent(old(self)@, result_msg@, ReportView { message: Seq::empty(), context: None, solution: None }, 0); }
    }
}

/// Skipping stages of a task that reached its final state keeps that state and its line.
proof fn lemma_skip_each_keeps_final(t: TaskView, ids: Seq<Seq<char>>, msg: Seq<char>)
    requires
        t.is_finished,
    ensures
        skip_each(t, ids, msg).is_finished,
        skip_each(t, ids, msg).renderer == t.renderer,
    decreases ids.len(),
{
    if ids.len() > 0 {
        lemma_skip_each_keeps_final(t, ids.drop_last(), msg);
        lemma_final_state_is_kept(skip_each(t, ids.drop_last(), msg), ids.last(), msg, None, ReportView {
            message: Seq::empty(),
            context: None,
            solution: None,
        });
    }
}

/// Law: the position of a sequence only moves forward and never passes the end;
/// success or skip of the due stage moves it by one, a failure or an early finish
/// exhausts the sequence, and once exhausted, success, skip and failure change nothing,
/// nor does a finish once the task has ended.
pub proof fn lemma_sequence_progress(s: SequenceView, msg: Seq<char>, r: ReportView)
    requires
        s.current <= s.ids.len(),
    ensures
        sequence_ok(s, msg).ids == s.ids,
        sequence_skip(s, msg).ids == s.ids,
        sequence_fail(s, r).ids == s.ids,
        sequence_finish(s, msg).ids == s.ids,
        sequence_ok(s, msg).current == if s.current < s.ids.len() { s.current + 1 } else { s.current },
        sequence_skip(s, msg).current == if s.current < s.ids.len() { s.current + 1 } else { s.current },
        sequence_fail(s, r).current == s.ids.len(),
        sequence_finish(s, msg).current == s.ids.len(),
        s.current == s.ids.len() ==> sequence_ok(s, msg) == s && sequence_skip(s, msg) == s && sequence_fail(s, r)
            == s,
        s.current == s.ids.len() && s.inner.is_finished ==> sequence_finish(s, msg) == s,
{
}

/// Law: in a sequence whose task is still open, a failure of the due stage fails the
/// whole task, which then shows the failure even though the remaining stages are
/// skipped; an early finish always leaves the task in its final state.
pub proof fn lemma_sequence_fail_and_finish_end_task(s: SequenceView, msg: Seq<char>, r: ReportView)
    requires
        sequence_consistent(s),
        s.current < s.ids.len(),
        !s.inner.is_finished,
    ensures
        sequence_fail(s, r).inner.is_finished,
        sequence_fail(s, r).inner.renderer.status == StatusView::Failed(None),
        sequence_finish(s, msg).inner.is_finished,
{
    let id = s.ids[s.current as int];
    lemma_stage_ids_complete(s.inner.entries);
    assert(has_stage(s.inner.entries, stage_ids(s.inner.entries)[s.current as int]));
    lemma_failed_stage_fails_task(s.inner, id, r);
    let failed = fail_by_id(s.inner, id, r);
    lemma_skip_each_keeps_final(failed, s.ids.subrange((s.current + 1) as int, s.ids.len() as int), "skipped due to previous error"@);
}

/// Skipping stages of a task that saw no failure leaves it without failure, and either
/// still open or succeeded.
proof fn lemma_skip_each_without_failure(t: TaskView, ids: Seq<Seq<char>>, msg: Seq<char>)
    requires
        t.failed == Set::<Seq<char>>::empty(),
        t.is_finished ==> t.renderer.status is Succeeded,
    ensures
        skip_each(t, ids, msg).failed == Set::<Seq<char>>::empty(),
        skip_each(t, ids, msg).is_finished ==> skip_each(t, ids, msg).renderer.status is Succeeded,
    decreases ids.len(),
{
    if ids.len() > 0 {
        let u = skip_each(t, ids.drop_last(), msg);
        lemma_skip_each_without_failure(t, ids.drop_last(), msg);
        assert(u.failed.remove(ids.last()) =~= Set::<Seq<char>>::empty());
    }
}

/// Law: in a sequence whose task has neither finished nor seen a failed stage, success
/// or a skip of the last stage completes the task successfully, and an early finish at
/// any point completes it with the finish's own message.
pub proof fn lemma_sequence_end_succeeds(s: SequenceView, msg: Seq<char>)
    requires
        s.current <= s.ids.len(),
        !s.inner.is_finished,
        s.inner.failed == Set::<Seq<char>>::empty(),
    ensures
        s.current + 1 == s.ids.len() ==> sequence_ok(s, msg).inner.is_finished
            && sequence_ok(s, msg).inner.renderer.status is Succeeded,
        s.current + 1 == s.ids.len() ==> sequence_skip(s, msg).inner.is_finished
            && sequence_skip(s, msg).inner.renderer.status is Succeeded,
        sequence_finish(s, msg).inner.is_finished,
        sequence_finish(s, msg).inner.renderer.status == StatusView::Succeeded(msg),
{
    if s.current < s.ids.len() {
        let id = s.ids[s.current as int];
        assert(s.inner.failed.remove(id) =~= Set::<Seq<char>>::empty());
        lemma_skip_each_without_failure(
            s.inner,
            s.ids.subrange(s.current as int, s.ids.len() as int),
            "skipped"@,
        );
    }
}

/// Lists of entries with the same stages list the same stage identifiers.
proof fn lemma_same_stages_same_ids(a: Seq<EntryView>, b: Seq<EntryView>)
    requires
        same_stages(a, b),
    ensures
        stage_ids(a) == stage_ids(b),
    decreases a.len(),
{
    if a.len() > 0 {
        assert(same_stages(a.drop_last(), b.drop_last())) by {
            assert forall|j: int| 0 <= j < a.drop_last().len() implies entry_id(#[trigger] a.drop_last()[j])
                == entry_id(b.drop_last()[j]) by {
                assert(entry_id(a[j]) == entry_id(b[j]));
            }
        }
        lemma_same_stages_same_ids(a.drop_last(), b.drop_last());
        assert(entry_id(a[a.len() - 1]) == entry_id(b[b.len() - 1]));
    }
}

/// A single-stage operation either ends the task or keeps its stage identifiers, and
/// never reopens an ended task.
proof fn lemma_op_keeps_chain(t: TaskView, id: Seq<char>, msg: Seq<char>, run_msg: Option<Seq<char>>, r: ReportView)
    ensures
        run_by_id(t, id, run_msg).is_finished || stage_ids(run_by_id(t, id, run_msg).entries) == stage_ids(t.entries),
        ok_by_id(t, id, msg).is_finished || stage_ids(ok_by_id(t, id, msg).entries) == stage_ids(t.entries),
        fail_by_id(t, id, r).is_finished || stage_ids(fail_by_id(t, id, r).entries) == stage_ids(t.entries),
        skip_by_id(t, id, msg).is_finished || stage_ids(skip_by_id(t, id, msg).entries) == stage_ids(t.entries),
        t.is_finished ==> run_by_id(t, id, run_msg).is_finished && ok_by_id(t, id, msg).is_finished
            && fail_by_id(t, id, r).is_finished && skip_by_id(t, id, msg).is_finished,
{
    if t.is_finished {
        lemma_final_state_is_kept(t, id, msg, run_msg, r);
    }
    if has_stage(t.entries, id) {
        let w = choose|w: int| 0 <= w < t.entries.len() && #[trigger] is_stage_with(t.entries[w], id);
        lemma_first_exists(t.entries, id, w);
        let k = first_stage(t.entries, id);
        let statuses = seq![
            StatusView::Running(run_msg),
            StatusView::Succeeded(msg),
            StatusView::Failed(Some(r)),
            StatusView::Skipped(msg),
        ];
        assert forall|i: int, start: bool| 0 <= i < 4 implies #[trigger] stage_ids(
            change_stage(t.entries, k, statuses[i], start),
        ) == stage_ids(t.entries) by {
            lemma_change_keeps_stages(t.entries, k, statuses[i], start);
            lemma_same_stages_same_ids(change_stage(t.entries, k, statuses[i], start), t.entries);
        }
        assert(stage_ids(change_stage(t.entries, k, statuses[0], true)) == stage_ids(t.entries));
        assert(stage_ids(change_stage(t.entries, k, statuses[1], false)) == stage_ids(t.entries));
        assert(stage_ids(change_stage(t.entries, k, statuses[2], false)) == stage_ids(t.entries));
        assert(stage_ids(change_stage(t.entries, k, statuses[3], false)) == stage_ids(t.entries));
    }
}

/// Skipping stages either ends the task or keeps its stage identifiers, and never
/// reopens an ended task.
proof fn lemma_skip_each_keeps_chain(t: TaskView, ids: Seq<Seq<char>>, msg: Seq<char>)
    ensures
        skip_each(t, ids, msg).is_finished || stage_ids(skip_each(t, ids, msg).entries) == stage_ids(t.entries),
        t.is_finished ==> skip_each(t, ids, msg).is_finished,
    decreases ids.len(),
{
    if ids.len() > 0 {
        let u = skip_each(t, ids.drop_last(), msg);
        lemma_skip_each_keeps_chain(t, ids.drop_last(), msg);
        lemma_op_keeps_chain(u, ids.last(), msg, None, ReportView { message: msg, context: None, solution: None });
    }
}

/// Law: every operation of a sequence keeps it consistent: its position stays within
/// the chain, and while its task is open the chain stays exactly the task's stages.
pub proof fn lemma_sequence_stays_consistent(s: SequenceView, msg: Seq<char>, r: ReportView, from: nat)
    requires
        sequence_consistent(s),
    ensures
        sequence_consistent(activated(s)),
        sequence_consistent(sequence_ok(s, msg)),
        sequence_consistent(sequence_skip(s, msg)),
        sequence_consistent(sequence_fail(s, r)),
        sequence_consistent(sequence_finish(s, msg)),
        from <= s.ids.len() ==> sequence_consistent(skipped_from(s, from, msg)),
{
    let none = ReportView { message: msg, context: None, solution: None };
    if s.current < s.ids.len() {
        let id = s.ids[s.current as int];
        lemma_op_keeps_chain(s.inner, id, msg, None, r);
        let after_ok = ok_by_id(s.inner, id, msg);
        let after_skip = skip_by_id(s.inner, id, msg);
        let after_fail = fail_by_id(s.inner, id, r);
        if s.current + 1 < s.ids.len() {
            let n = s.ids[s.current + 1 as int];
            lemma_op_keeps_chain(after_ok, n, msg, None, none);
            lemma_op_keeps_chain(after_skip, n, msg, None, none);
            lemma_skip_each_keeps_chain(
                after_fail,
                s.ids.subrange(s.current + 1 as int, s.ids.len() as int),
                "skipped due to previous error"@,
            );
        }
        lemma_skip_each_keeps_chain(s.inner, s.ids.subrange(s.current as int, s.ids.len() as int), "skipped"@);
    }
    lemma_skip_each_keeps_chain(s.inner, s.ids.subrange(from as int, s.ids.len() as int), msg);
}

/// Law: in a consistent sequence whose task is open, success or a skip of the due stage
/// moves to the next stage and, when one remains, starts it: that stage is started and
/// shows running with no message, unless the task has ended. The stage that was due
/// shows success or the skip with the given message.
pub proof fn lemma_sequence_advance_starts_next(s: SequenceView, msg: Seq<char>)
    requires
        sequence_consistent(s),
        !s.inner.is_finished,
        s.current + 1 < s.ids.len(),
    ensures
        sequence_ok(s, msg).current == s.current + 1,
        sequence_skip(s, msg).current == s.current + 1,
        !sequence_ok(s, msg).inner.is_finished ==> exists|k: int|
            #[trigger] is_first_stage(sequence_ok(s, msg).inner.entries, s.ids[s.current + 1 as int], k)
                && stage_shows(sequence_ok(s, msg).inner.entries[k], s.ids[s.current + 1 as int], StatusView::Running(None))
                && stage_started(sequence_ok(s, msg).inner.entries[k]),
        !sequence_skip(s, msg).inner.is_finished ==> exists|k: int|
            #[trigger] is_first_stage(sequence_skip(s, msg).inner.entries, s.ids[s.current + 1 as int], k)
                && stage_shows(sequence_skip(s, msg).inner.entries[k], s.ids[s.current + 1 as int], StatusView::Running(None))
                && stage_started(sequence_skip(s, msg).inner.entries[k]),
        first_shows(ok_by_id(s.inner, s.ids[s.current as int], msg), s.ids[s.current as int], StatusView::Succeeded(msg), false),
        first_shows(skip_by_id(s.inner, s.ids[s.current as int], msg), s.ids[s.current as int], StatusView::Skipped(msg), false),
{
    let id = s.ids[s.current as int];
    let n = s.ids[s.current + 1 as int];
    let none = ReportView { message: msg, context: None, solution: None };
    lemma_stage_ids_complete(s.inner.entries);
    assert(has_stage(s.inner.entries, stage_ids(s.inner.entries)[s.current as int]));
    assert(has_stage(s.inner.entries, stage_ids(s.inner.entries)[s.current + 1 as int]));
    lemma_stage_shows_outcome(s.inner, id, msg, None, none);
    lemma_op_keeps_chain(s.inner, id, msg, None, none);
    let after_ok = ok_by_id(s.inner, id, msg);
    let after_skip = skip_by_id(s.inner, id, msg);
    lemma_op_keeps_chain(after_ok, n, msg, None, none);
    lemma_op_keeps_chain(after_skip, n, msg, None, none);
    if !after_ok.is_finished {
        lemma_stage_ids_complete(after_ok.entries);
        assert(has_stage(after_ok.entries, stage_ids(after_ok.entries)[s.current + 1 as int]));
        lemma_stage_shows_outcome(after_ok, n, msg, None, none);
    }
    if !after_skip.is_finished {
        lemma_stage_ids_complete(after_skip.entries);
        assert(has_stage(after_skip.entries, stage_ids(after_skip.entries)[s.current + 1 as int]));
        lemma_stage_shows_outcome(after_skip, n, msg, None, none);
    }
}

} // verus!
