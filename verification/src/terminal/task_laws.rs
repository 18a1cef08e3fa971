use vstd::prelude::*;
use crate::terminal::render::StatusView;
use crate::terminal::report::ReportView;
use crate::terminal::task::{
    EntryView, TaskView, all_stages_in, entry_id, freeze_entry, change_stage, fail_by_id, fail_each, first_stage, has_stage,
    is_first_stage, is_stage_with, ok_by_id, ok_each, perform_fail, perform_ok, perform_run,
    perform_skip, run_by_id, run_each, skip_by_id, skip_each, stage_ids,
};

verus! {

/// No stage is both done and failed.
pub open spec fn marks_disjoint(t: TaskView) -> bool {
    t.finished.disjoint(t.failed)
}

/// Law: no stage is ever both done and failed. Each single-stage operation keeps
/// the two sets of marks apart.
pub proof fn lemma_marks_stay_disjoint(
    t: TaskView,
    id: Seq<char>,
    msg: Seq<char>,
    run_msg: Option<Seq<char>>,
    r: ReportView,
)
    requires
        marks_disjoint(t),
    ensures
        marks_disjoint(run_by_id(t, id, run_msg)),
        marks_disjoint(ok_by_id(t, id, msg)),
        marks_disjoint(fail_by_id(t, id, r)),
        marks_disjoint(skip_by_id(t, id, msg)),
{
}

/// Applying any one operation to a list of stages in turn keeps the marks apart.
proof fn lemma_each_keeps_disjoint(
    t: TaskView,
    ids: Seq<Seq<char>>,
    msg: Seq<char>,
    run_msg: Option<Seq<char>>,
    r: ReportView,
)
    requires
        marks_disjoint(t),
    ensures
        marks_disjoint(ok_each(t, ids, msg)),
        marks_disjoint(fail_each(t, ids, r)),
        marks_disjoint(run_each(t, ids, run_msg)),
        marks_disjoint(skip_each(t, ids, msg)),
    decreases ids.len(),
{
    if ids.len() > 0 {
        lemma_each_keeps_disjoint(t, ids.drop_last(), msg, run_msg, r);
        lemma_marks_stay_disjoint(ok_each(t, ids.drop_last(), msg), ids.last(), msg, run_msg, r);
        lemma_marks_stay_disjoint(fail_each(t, ids.drop_last(), r), ids.last(), msg, run_msg, r);
        lemma_marks_stay_disjoint(run_each(t, ids.drop_last(), run_msg), ids.last(), msg, run_msg, r);
        lemma_marks_stay_disjoint(skip_each(t, ids.drop_last(), msg), ids.last(), msg, run_msg, r);
    }
}

/// Law: the bulk operations keep done and failed marks apart as well.
pub proof fn lemma_bulk_marks_stay_disjoint(
    t: TaskView,
    msg: Seq<char>,
    run_msg: Option<Seq<char>>,
    r: ReportView,
)
    requires
        marks_disjoint(t),
    ensures
        marks_disjoint(perform_ok(t, msg)),
        marks_disjoint(perform_fail(t, r)),
        marks_disjoint(perform_run(t, run_msg)),
        marks_disjoint(perform_skip(t, msg)),
{
    lemma_each_keeps_disjoint(t, stage_ids(t.entries), msg, run_msg, r);
}

/// Law: a task that reached its final state stays there, and its own line keeps
/// showing that outcome, whatever is done to its stages afterwards.
pub proof fn lemma_final_state_is_kept(
    t: TaskView,
    id: Seq<char>,
    msg: Seq<char>,
    run_msg: Option<Seq<char>>,
    r: ReportView,
)
    requires
        t.is_finished,
    ensures
        run_by_id(t, id, run_msg).is_finished,
        run_by_id(t, id, run_msg).renderer == t.renderer,
        ok_by_id(t, id, msg).is_finished,
        ok_by_id(t, id, msg).renderer == t.renderer,
        fail_by_id(t, id, r).is_finished,
        fail_by_id(t, id, r).renderer == t.renderer,
        skip_by_id(t, id, msg).is_finished,
        skip_by_id(t, id, msg).renderer == t.renderer,
        perform_ok(t, msg) == t,
        perform_fail(t, r) == t,
        perform_run(t, run_msg) == t,
        perform_skip(t, msg) == t,
{
}

/// Law: a stage that fails makes the whole task fail at once; the task's line
/// shows the failure and the stages are frozen in place.
pub proof fn lemma_failed_stage_fails_task(t: TaskView, id: Seq<char>, r: ReportView)
    requires
        !t.is_finished,
        has_stage(t.entries, id),
    ensures
        fail_by_id(t, id, r).is_finished,
        fail_by_id(t, id, r).renderer.status == StatusView::Failed(None),
        fail_by_id(t, id, r).failed.contains(id),
        !fail_by_id(t, id, r).finished.contains(id),
{
    assert(t.failed.insert(id).contains(id));
}

/// Changing what one stage shows keeps every entry's kind and identifier.
pub proof fn lemma_change_keeps_stages(es: Seq<EntryView>, k: int, status: StatusView, start: bool)
    requires
        0 <= k < es.len(),
    ensures
        change_stage(es, k, status, start).len() == es.len(),
        forall|j: int| 0 <= j < es.len() ==>
            entry_id(#[trigger] change_stage(es, k, status, start)[j]) == entry_id(es[j]),
{
}

/// Whether every stage is done does not depend on what the stages show.
pub proof fn lemma_all_done_after_change(
    es: Seq<EntryView>,
    k: int,
    status: StatusView,
    start: bool,
    done: Set<Seq<char>>,
)
    requires
        0 <= k < es.len(),
    ensures
        all_stages_in(change_stage(es, k, status, start), done) == all_stages_in(es, done),
{
    let ch = change_stage(es, k, status, start);
    lemma_change_keeps_stages(es, k, status, start);
    if all_stages_in(es, done) {
        assert forall|j: int| 0 <= j < ch.len() implies (#[trigger] ch[j] matches EntryView::Stage { id, .. }
            ==> done.contains(id)) by {
            assert(es[j] matches EntryView::Stage { id, .. } ==> done.contains(id));
        }
    }
    if all_stages_in(ch, done) {
        assert forall|j: int| 0 <= j < es.len() implies (#[trigger] es[j] matches EntryView::Stage { id, .. }
            ==> done.contains(id)) by {
            assert(ch[j] matches EntryView::Stage { id, .. } ==> done.contains(id));
        }
    }
}

/// Law: marking a stage done (succeeded or skipped) finishes the task exactly when,
/// afterwards, some stage has failed or every stage is done; with no failed stage the
/// task's line then shows success.
pub proof fn lemma_done_stage_completes_exactly_when_all_done(
    t: TaskView,
    id: Seq<char>,
    msg: Seq<char>,
)
    requires
        !t.is_finished,
        has_stage(t.entries, id),
    ensures
        ok_by_id(t, id, msg).is_finished <==> (t.failed.remove(id) != Set::<Seq<char>>::empty()
            || all_stages_in(t.entries, t.finished.insert(id))),
        skip_by_id(t, id, msg).is_finished <==> (t.failed.remove(id) != Set::<Seq<char>>::empty()
            || all_stages_in(t.entries, t.finished.insert(id))),
        t.failed.remove(id) == Set::<Seq<char>>::empty() && all_stages_in(t.entries, t.finished.insert(id))
            ==> ok_by_id(t, id, msg).renderer.status == StatusView::Succeeded("success"@)
            && skip_by_id(t, id, msg).renderer.status == StatusView::Succeeded("success"@),
{
    let k = first_stage(t.entries, id);
    let w = choose|w: int| 0 <= w < t.entries.len() && #[trigger] is_stage_with(t.entries[w], id);
    assert(is_stage_with(t.entries[w], id));
    lemma_first_exists(t.entries, id, w);
    lemma_all_done_after_change(t.entries, k, StatusView::Succeeded(msg), false, t.finished.insert(id));
    lemma_all_done_after_change(t.entries, k, StatusView::Skipped(msg), false, t.finished.insert(id));
}

/// A stage with identifier `id` at `w` means there is a first one.
pub proof fn lemma_first_exists(es: Seq<EntryView>, id: Seq<char>, w: int)
    requires
        0 <= w < es.len(),
        is_stage_with(es[w], id),
    ensures
        is_first_stage(es, id, first_stage(es, id)),
        0 <= first_stage(es, id) < es.len(),
    decreases w,
{
    if forall|j: int| 0 <= j < w ==> !#[trigger] is_stage_with(es[j], id) {
        assert(is_first_stage(es, id, w));
    } else {
        let j = choose|j: int| 0 <= j < w && #[trigger] is_stage_with(es[j], id);
        lemma_first_exists(es, id, j);
    }
}

/// Law: running a stage forgets whether it was done or failed; skipping a stage
/// counts it as done.
pub proof fn lemma_run_resets_and_skip_counts_as_done(
    t: TaskView,
    id: Seq<char>,
    msg: Seq<char>,
    run_msg: Option<Seq<char>>,
)
    requires
        has_stage(t.entries, id),
    ensures
        !run_by_id(t, id, run_msg).finished.contains(id),
        !run_by_id(t, id, run_msg).failed.contains(id),
        skip_by_id(t, id, msg).finished.contains(id),
        !skip_by_id(t, id, msg).failed.contains(id),
        ok_by_id(t, id, msg).finished.contains(id),
        !ok_by_id(t, id, msg).failed.contains(id),
{
}

/// Two lists of entries with the same kinds and identifiers at every position.
pub open spec fn same_stages(a: Seq<EntryView>, b: Seq<EntryView>) -> bool {
    &&& a.len() == b.len()
    &&& forall|j: int| 0 <= j < a.len() ==> entry_id(#[trigger] a[j]) == entry_id(b[j])
}

/// Every listed identifier names a stage, and every stage is listed.
pub(crate) proof fn lemma_stage_ids_complete(es: Seq<EntryView>)
    ensures
        forall|i: int| 0 <= i < stage_ids(es).len() ==> has_stage(es, #[trigger] stage_ids(es)[i]),
        forall|k: int| 0 <= k < es.len() ==> (#[trigger] es[k] matches EntryView::Stage { id, .. }
            ==> stage_ids(es).contains(id)),
    decreases es.len(),
{
    if es.len() > 0 {
        let init = es.drop_last();
        lemma_stage_ids_complete(init);
        let ids = stage_ids(es);
        assert forall|i: int| 0 <= i < ids.len() implies has_stage(es, #[trigger] ids[i]) by {
            if i < stage_ids(init).len() {
                assert(has_stage(init, stage_ids(init)[i]));
                let w = choose|w: int| 0 <= w < init.len() && #[trigger] is_stage_with(init[w], stage_ids(init)[i]);
                assert(is_stage_with(es[w], ids[i]));
            } else {
                assert(is_stage_with(es[es.len() - 1], ids[i]));
            }
        }
        assert forall|k: int| 0 <= k < es.len() implies (#[trigger] es[k] matches EntryView::Stage { id, .. }
            ==> ids.contains(id)) by {
            if k < es.len() - 1 {
                assert(init[k] == es[k]);
                if let EntryView::Stage { id, .. } = es[k] {
                    let w = choose|w: int| 0 <= w < stage_ids(init).len() && stage_ids(init)[w] == id;
                    assert(ids[w] == id);
                }
            } else {
                if let EntryView::Stage { id, .. } = es[k] {
                    assert(ids[ids.len() - 1] == id);
                }
            }
        }
    }
}

/// A stage present in one list is present in a list with the same stages.
proof fn lemma_same_stages_has(a: Seq<EntryView>, b: Seq<EntryView>, id: Seq<char>)
    requires
        same_stages(a, b),
        has_stage(b, id),
    ensures
        has_stage(a, id),
{
    let w = choose|w: int| 0 <= w < b.len() && #[trigger] is_stage_with(b[w], id);
    assert(entry_id(a[w]) == entry_id(b[w]));
    assert(is_stage_with(a[w], id));
}

/// While marking the stages of `t` done one by one with no failure, the task either
/// has already succeeded, or keeps its stages and every stage marked so far is done.
proof fn lemma_done_prefix(t: TaskView, n: int, msg: Seq<char>, skip: bool)
    requires
        !t.is_finished,
        t.failed == Set::<Seq<char>>::empty(),
        0 <= n <= stage_ids(t.entries).len(),
    ensures
        ({
            let ids = stage_ids(t.entries);
            let u = if skip { skip_each(t, ids.take(n), msg) } else { ok_each(t, ids.take(n), msg) };
            &&& u.failed == Set::<Seq<char>>::empty()
            &&& (u.is_finished && u.renderer.status is Succeeded) || (!u.is_finished
                && same_stages(u.entries, t.entries) && (forall|j: int| 0 <= j < n ==> u.finished.contains(
                #[trigger] ids[j])) && (n > 0 ==> !all_stages_in(u.entries, u.finished)))
        }),
    decreases n,
{
    let ids = stage_ids(t.entries);
    if n == 0 {
        assert(ids.take(0) =~= Seq::<Seq<char>>::empty());
        assert(same_stages(t.entries, t.entries));
    } else {
        lemma_done_prefix(t, n - 1, msg, skip);
        assert(ids.take(n).drop_last() =~= ids.take(n - 1));
        let id = ids[n - 1];
        assert(ids.take(n).last() == id);
        let p = if skip { skip_each(t, ids.take(n - 1), msg) } else { ok_each(t, ids.take(n - 1), msg) };
        let status = if skip { StatusView::Skipped(msg) } else { StatusView::Succeeded(msg) };
        assert(p.failed.remove(id) =~= Set::<Seq<char>>::empty());
        if !p.is_finished {
            lemma_stage_ids_complete(t.entries);
            assert(has_stage(t.entries, ids[n - 1]));
            lemma_same_stages_has(p.entries, t.entries, id);
            let w = choose|w: int| 0 <= w < p.entries.len() && #[trigger] is_stage_with(p.entries[w], id);
            lemma_first_exists(p.entries, id, w);
            let k = first_stage(p.entries, id);
            lemma_change_keeps_stages(p.entries, k, status, false);
            let ch = change_stage(p.entries, k, status, false);
            assert(same_stages(ch, t.entries));
        }
    }
}

/// Law: marking every stage as succeeded, or every stage as skipped, on a task with
/// no failed stage makes the task succeed (bulk skipping needs at least one stage:
/// a task without stages is left as it is).
pub proof fn lemma_bulk_done_succeeds(t: TaskView, msg: Seq<char>)
    requires
        !t.is_finished,
        t.failed == Set::<Seq<char>>::empty(),
    ensures
        perform_ok(t, msg).is_finished,
        perform_ok(t, msg).renderer.status is Succeeded,
        stage_ids(t.entries).len() > 0 ==> perform_skip(t, msg).is_finished,
        stage_ids(t.entries).len() > 0 ==> perform_skip(t, msg).renderer.status is Succeeded,
{
    let ids = stage_ids(t.entries);
    lemma_stage_ids_complete(t.entries);
    if ids.len() == 0 {
        assert(all_stages_in(t.entries, t.finished)) by {
            assert forall|k: int| 0 <= k < t.entries.len() implies (#[trigger] t.entries[k] matches EntryView::Stage { id, .. }
                ==> t.finished.contains(id)) by {
                if let EntryView::Stage { id, .. } = t.entries[k] {
                    assert(ids.contains(id));
                }
            }
        }
    } else {
        assert(ids.take(ids.len() as int) =~= ids);
        let n = ids.len() as int;
        lemma_done_prefix(t, n, msg, false);
        lemma_done_prefix(t, n, msg, true);
        let a = ok_each(t, ids, msg);
        let b = skip_each(t, ids, msg);
        if !a.is_finished {
            assert(all_stages_in(a.entries, a.finished)) by {
                assert forall|k: int| 0 <= k < a.entries.len() implies (#[trigger] a.entries[k] matches EntryView::Stage { id, .. }
                    ==> a.finished.contains(id)) by {
                    assert(entry_id(a.entries[k]) == entry_id(t.entries[k]));
                    if let EntryView::Stage { id, .. } = t.entries[k] {
                        let w = choose|w: int| 0 <= w < ids.len() && ids[w] == id;
                        assert(a.finished.contains(ids[w]));
                    }
                }
            }
        }
        if !b.is_finished {
            assert(all_stages_in(b.entries, b.finished)) by {
                assert forall|k: int| 0 <= k < b.entries.len() implies (#[trigger] b.entries[k] matches EntryView::Stage { id, .. }
                    ==> b.finished.contains(id)) by {
                    assert(entry_id(b.entries[k]) == entry_id(t.entries[k]));
                    if let EntryView::Stage { id, .. } = t.entries[k] {
                        let w = choose|w: int| 0 <= w < ids.len() && ids[w] == id;
                        assert(b.finished.contains(ids[w]));
                    }
                }
            }
        }
    }
}

/// While failing the stages of `t` one by one, the task keeps its stages, and every
/// stage failed so far is marked failed and not done.
proof fn lemma_fail_prefix(t: TaskView, n: int, r: ReportView)
    requires
        0 <= n <= stage_ids(t.entries).len(),
    ensures
        ({
            let ids = stage_ids(t.entries);
            let u = fail_each(t, ids.take(n), r);
            &&& same_stages(u.entries, t.entries)
            &&& forall|j: int| 0 <= j < n ==> u.failed.contains(#[trigger] ids[j]) && !u.finished.contains(ids[j])
        }),
    decreases n,
{
    let ids = stage_ids(t.entries);
    if n == 0 {
        assert(ids.take(0) =~= Seq::<Seq<char>>::empty());
        assert(same_stages(t.entries, t.entries));
    } else {
        lemma_fail_prefix(t, n - 1, r);
        assert(ids.take(n).drop_last() =~= ids.take(n - 1));
        let id = ids[n - 1];
        assert(ids.take(n).last() == id);
        let p = fail_each(t, ids.take(n - 1), r);
        lemma_stage_ids_complete(t.entries);
        assert(has_stage(t.entries, ids[n - 1]));
        lemma_same_stages_has(p.entries, t.entries, id);
        let w = choose|w: int| 0 <= w < p.entries.len() && #[trigger] is_stage_with(p.entries[w], id);
        lemma_first_exists(p.entries, id, w);
        let k = first_stage(p.entries, id);
        lemma_change_keeps_stages(p.entries, k, StatusView::Failed(Some(r)), false);
        let ch = change_stage(p.entries, k, StatusView::Failed(Some(r)), false);
        assert(same_stages(ch, t.entries));
        let frozen = ch.map_values(|e: EntryView| freeze_entry(e));
        assert(same_stages(frozen, t.entries)) by {
            assert forall|j: int| 0 <= j < frozen.len() implies entry_id(#[trigger] frozen[j]) == entry_id(t.entries[j]) by {
                assert(entry_id(ch[j]) == entry_id(t.entries[j]));
            }
        }
        assert(p.failed.insert(id).contains(id));
        assert(p.failed.insert(id) != Set::<Seq<char>>::empty());
        let u = fail_each(t, ids.take(n), r);
        assert(u == fail_by_id(p, id, r));
        assert(u.failed == p.failed.insert(id));
        assert(u.finished == p.finished.remove(id));
        assert(same_stages(u.entries, t.entries));
    }
}

/// Law: failing a task in bulk fails it with the given report, clears its lines, and
/// leaves every one of its stages marked failed and none marked done.
pub proof fn lemma_bulk_fail_fails_every_stage(t: TaskView, r: ReportView)
    requires
        !t.is_finished,
    ensures
        perform_fail(t, r).is_finished,
        perform_fail(t, r).renderer.status == StatusView::Failed(Some(r)),
        perform_fail(t, r).entries.len() == 0,
        forall|i: int| 0 <= i < stage_ids(t.entries).len() ==> perform_fail(t, r).failed.contains(
            #[trigger] stage_ids(t.entries)[i]),
        forall|i: int| 0 <= i < stage_ids(t.entries).len() ==> !perform_fail(t, r).finished.contains(
            #[trigger] stage_ids(t.entries)[i]),
{
    let ids = stage_ids(t.entries);
    assert(ids.take(ids.len() as int) =~= ids);
    lemma_fail_prefix(t, ids.len() as int, r);
}

/// Every stage among `es` has its identifier in `ids`.
pub open spec fn stages_within(es: Seq<EntryView>, ids: Set<Seq<char>>) -> bool {
    forall|k: int| 0 <= k < es.len() ==> (#[trigger] entry_id(es[k]) matches Some(id) ==> ids.contains(id))
}

/// The identifiers of the stages among `es`.
pub open spec fn stage_set(es: Seq<EntryView>) -> Set<Seq<char>> {
    Set::new(|id: Seq<char>| has_stage(es, id))
}

/// A task state that its operations can reach from a task built with the stages
/// `ids`: no stage is both done and failed, both marks name only those stages, the
/// entries hold no other stage, and a failed stage means the task has ended.
pub open spec fn task_consistent(t: TaskView, ids: Set<Seq<char>>) -> bool {
    &&& marks_disjoint(t)
    &&& t.finished.subset_of(ids)
    &&& t.failed.subset_of(ids)
    &&& stages_within(t.entries, ids)
    &&& (t.failed != Set::<Seq<char>>::empty() ==> t.is_finished)
}

/// A stage present among entries within `ids` is one of `ids`.
proof fn lemma_present_stage_within(es: Seq<EntryView>, ids: Set<Seq<char>>, id: Seq<char>)
    requires
        stages_within(es, ids),
        has_stage(es, id),
    ensures
        ids.contains(id),
{
    let k = choose|k: int| 0 <= k < es.len() && #[trigger] is_stage_with(es[k], id);
    assert(entry_id(es[k]) == Some(id));
}

/// Changing what a stage shows, freezing the entries, or clearing them keeps the
/// entries within `ids`.
proof fn lemma_entry_changes_stay_within(es: Seq<EntryView>, ids: Set<Seq<char>>, k: int, status: StatusView, start: bool)
    requires
        stages_within(es, ids),
        0 <= k < es.len(),
    ensures
        stages_within(change_stage(es, k, status, start), ids),
        stages_within(change_stage(es, k, status, start).map_values(|e: EntryView| freeze_entry(e)), ids),
        stages_within(Seq::<EntryView>::empty(), ids),
{
    let ch = change_stage(es, k, status, start);
    lemma_change_keeps_stages(es, k, status, start);
    assert forall|j: int| 0 <= j < ch.len() implies (#[trigger] entry_id(ch[j]) matches Some(id) ==> ids.contains(id)) by {
        assert(entry_id(ch[j]) == entry_id(es[j]));
    }
    let fr = ch.map_values(|e: EntryView| freeze_entry(e));
    assert forall|j: int| 0 <= j < fr.len() implies (#[trigger] entry_id(fr[j]) matches Some(id) ==> ids.contains(id)) by {
        assert(entry_id(fr[j]) == entry_id(ch[j]));
    }
}

/// Law: a freshly built task is consistent with the stages it was built with.
pub proof fn lemma_built_task_consistent(t: TaskView)
    requires
        t.finished == Set::<Seq<char>>::empty(),
        t.failed == Set::<Seq<char>>::empty(),
    ensures
        task_consistent(t, stage_set(t.entries)),
{
    let ids = stage_set(t.entries);
    assert forall|k: int| 0 <= k < t.entries.len() implies (#[trigger] entry_id(t.entries[k]) matches Some(id)
        ==> ids.contains(id)) by {
        if let Some(id) = entry_id(t.entries[k]) {
            assert(is_stage_with(t.entries[k], id));
            assert(has_stage(t.entries, id));
        }
    }
}

/// Law: running, succeeding, failing or skipping a stage, with any identifier, keeps a
/// task consistent with the stages it was built with: the done and failed marks stay
/// apart and name only those stages, and a failed stage means the task has ended.
pub proof fn lemma_task_stays_consistent(
    t: TaskView,
    ids: Set<Seq<char>>,
    id: Seq<char>,
    msg: Seq<char>,
    run_msg: Option<Seq<char>>,
    r: ReportView,
)
    requires
        task_consistent(t, ids),
    ensures
        task_consistent(run_by_id(t, id, run_msg), ids),
        task_consistent(ok_by_id(t, id, msg), ids),
        task_consistent(fail_by_id(t, id, r), ids),
        task_consistent(skip_by_id(t, id, msg), ids),
{
    lemma_marks_stay_disjoint(t, id, msg, run_msg, r);
    if has_stage(t.entries, id) {
        lemma_present_stage_within(t.entries, ids, id);
        let k = first_stage(t.entries, id);
        let w = choose|w: int| 0 <= w < t.entries.len() && #[trigger] is_stage_with(t.entries[w], id);
        lemma_first_exists(t.entries, id, w);
        lemma_entry_changes_stay_within(t.entries, ids, k, StatusView::Running(run_msg), true);
        lemma_entry_changes_stay_within(t.entries, ids, k, StatusView::Succeeded(msg), false);
        lemma_entry_changes_stay_within(t.entries, ids, k, StatusView::Failed(Some(r)), false);
        lemma_entry_changes_stay_within(t.entries, ids, k, StatusView::Skipped(msg), false);
        assert(t.failed.remove(id).subset_of(ids));
        assert(t.failed.insert(id).subset_of(ids));
        assert(t.finished.remove(id).subset_of(ids));
        assert(t.finished.insert(id).subset_of(ids));
        assert(t.failed.insert(id) != Set::<Seq<char>>::empty()) by {
            assert(t.failed.insert(id).contains(id));
        }
        if t.failed.remove(id) != Set::<Seq<char>>::empty() {
            assert(t.failed != Set::<Seq<char>>::empty()) by {
                if t.failed == Set::<Seq<char>>::empty() {
                    assert(t.failed.remove(id) =~= Set::<Seq<char>>::empty());
                }
            }
        }
    }
}

/// One operation on a stage of a task, by identifier.
pub enum StageOp {
    Run(Seq<char>, Option<Seq<char>>),
    Succeed(Seq<char>, Seq<char>),
    Fail(Seq<char>, ReportView),
    Skip(Seq<char>, Seq<char>),
}

/// The task after one stage operation.
pub open spec fn apply_op(t: TaskView, op: StageOp) -> TaskView {
    match op {
        StageOp::Run(id, msg) => run_by_id(t, id, msg),
        StageOp::Succeed(id, msg) => ok_by_id(t, id, msg),
        StageOp::Fail(id, r) => fail_by_id(t, id, r),
        StageOp::Skip(id, msg) => skip_by_id(t, id, msg),
    }
}

/// The task after the stage operations `ops`, in order.
pub open spec fn apply_ops(t: TaskView, ops: Seq<StageOp>) -> TaskView
    decreases ops.len(),
{
    if ops.len() == 0 {
        t
    } else {
        apply_op(apply_ops(t, ops.drop_last()), ops.last())
    }
}

/// Operations applied in two runs give what they give in one.
proof fn lemma_apply_ops_split(t: TaskView, a: Seq<StageOp>, b: Seq<StageOp>)
    ensures
        apply_ops(t, a + b) == apply_ops(apply_ops(t, a), b),
    decreases b.len(),
{
    if b.len() == 0 {
        assert(a + b =~= a);
    } else {
        lemma_apply_ops_split(t, a, b.drop_last());
        assert((a + b).drop_last() =~= a + b.drop_last());
        assert((a + b).last() == b.last());
    }
}

/// Any run of operations keeps a task consistent, and never reopens an ended task.
proof fn lemma_apply_ops_consistent(t: TaskView, ids: Set<Seq<char>>, ops: Seq<StageOp>)
    ensures
        task_consistent(t, ids) ==> task_consistent(apply_ops(t, ops), ids),
        t.is_finished ==> apply_ops(t, ops).is_finished,
    decreases ops.len(),
{
    if ops.len() > 0 {
        let u = apply_ops(t, ops.drop_last());
        lemma_apply_ops_consistent(t, ids, ops.drop_last());
        let none = ReportView { message: Seq::empty(), context: None, solution: None };
        match ops.last() {
            StageOp::Run(id, msg) => {
                if task_consistent(u, ids) { lemma_task_stays_consistent(u, ids, id, Seq::empty(), msg, none); }
                if u.is_finished { lemma_final_state_is_kept(u, id, Seq::empty(), msg, none); }
            },
            StageOp::Succeed(id, msg) => {
                if task_consistent(u, ids) { lemma_task_stays_consistent(u, ids, id, msg, None, none); }
                if u.is_finished { lemma_final_state_is_kept(u, id, msg, None, none); }
            },
            StageOp::Fail(id, r) => {
                if task_consistent(u, ids) { lemma_task_stays_consistent(u, ids, id, Seq::empty(), None, r); }
                if u.is_finished { lemma_final_state_is_kept(u, id, Seq::empty(), None, r); }
            },
            StageOp::Skip(id, msg) => {
                if task_consistent(u, ids) { lemma_task_stays_consistent(u, ids, id, msg, None, none); }
                if u.is_finished { lemma_final_state_is_kept(u, id, msg, None, none); }
            },
        }
    }
}

/// Law: from a freshly built task, after any sequence of running, succeeding, failing
/// and skipping stages with arbitrary identifiers, the task stays consistent with the
/// stages it was built with (done and failed marks apart, naming only those stages, a
/// failed stage meaning the task has ended), and once ended it never reopens.
pub proof fn lemma_any_stage_calls_keep_task_consistent(t: TaskView, ops: Seq<StageOp>)
    requires
        t.finished == Set::<Seq<char>>::empty(),
        t.failed == Set::<Seq<char>>::empty(),
    ensures
        forall|k: int| 0 <= k <= ops.len() ==> task_consistent(#[trigger] apply_ops(t, ops.take(k)), stage_set(t.entries)),
        forall|j: int, k: int| 0 <= j <= k <= ops.len() && (#[trigger] apply_ops(t, ops.take(j))).is_finished
            ==> (#[trigger] apply_ops(t, ops.take(k))).is_finished,
{
    let ids = stage_set(t.entries);
    lemma_built_task_consistent(t);
    assert forall|k: int| 0 <= k <= ops.len() implies task_consistent(#[trigger] apply_ops(t, ops.take(k)), ids) by {
        lemma_apply_ops_consistent(t, ids, ops.take(k));
    }
    assert forall|j: int, k: int| 0 <= j <= k <= ops.len() && (#[trigger] apply_ops(t, ops.take(j))).is_finished
        implies (#[trigger] apply_ops(t, ops.take(k))).is_finished by {
        let a = ops.take(j);
        let b = ops.subrange(j, k);
        assert(ops.take(k) =~= a + b);
        lemma_apply_ops_split(t, a, b);
        lemma_apply_ops_consistent(apply_ops(t, a), ids, b);
    }
}

/// `e` is a stage with identifier `id` that shows `status`.
pub open spec fn stage_shows(e: EntryView, id: Seq<char>, status: StatusView) -> bool {
    e matches EntryView::Stage { id: i, renderer, .. } && i == id && renderer.status == status
}

/// `e` is a stage that has been started.
pub open spec fn stage_started(e: EntryView) -> bool {
    e matches EntryView::Stage { started, .. } && started
}

/// The first stage with identifier `id` among `es` shows `status` (and is started when
/// `started` holds), or the task ended and cleared its lines.
pub open spec fn first_shows(t: TaskView, id: Seq<char>, status: StatusView, started: bool) -> bool {
    ||| (t.is_finished && t.entries.len() == 0)
    ||| exists|k: int| #[trigger] is_first_stage(t.entries, id, k) && stage_shows(t.entries[k], id, status)
        && (started ==> stage_started(t.entries[k]))
}

/// Changing what the stage at `k` shows, and then possibly freezing every entry, keeps
/// `k` the first stage with its identifier and shows the new status there.
proof fn lemma_changed_stage_shows(es: Seq<EntryView>, id: Seq<char>, k: int, status: StatusView, start: bool)
    requires
        is_first_stage(es, id, k),
    ensures
        ({
            let ch = change_stage(es, k, status, start);
            &&& is_first_stage(ch, id, k)
            &&& stage_shows(ch[k], id, status)
            &&& (start ==> stage_started(ch[k]))
            &&& is_first_stage(ch.map_values(|e: EntryView| freeze_entry(e)), id, k)
            &&& stage_shows(ch.map_values(|e: EntryView| freeze_entry(e))[k], id, status)
            &&& (start ==> stage_started(ch.map_values(|e: EntryView| freeze_entry(e))[k]))
        }),
{
    let ch = change_stage(es, k, status, start);
    lemma_change_keeps_stages(es, k, status, start);
    let fr = ch.map_values(|e: EntryView| freeze_entry(e));
    assert forall|j: int| 0 <= j < k implies !#[trigger] is_stage_with(ch[j], id) by {
        assert(entry_id(ch[j]) == entry_id(es[j]));
        assert(!is_stage_with(es[j], id));
    }
    assert forall|j: int| 0 <= j < k implies !#[trigger] is_stage_with(fr[j], id) by {
        assert(entry_id(ch[j]) == entry_id(es[j]));
        assert(!is_stage_with(es[j], id));
    }
}

/// Law: running, succeeding, failing or skipping a stage the task has leaves that stage
/// (the first with the identifier) showing the outcome of that very operation: running
/// with the given message and started, succeeded with the message, failed with the
/// report, or skipped with the message; unless the task ended and cleared its lines.
pub proof fn lemma_stage_shows_outcome(t: TaskView, id: Seq<char>, msg: Seq<char>, run_msg: Option<Seq<char>>, r: ReportView)
    requires
        has_stage(t.entries, id),
    ensures
        first_shows(run_by_id(t, id, run_msg), id, StatusView::Running(run_msg), true),
        first_shows(ok_by_id(t, id, msg), id, StatusView::Succeeded(msg), false),
        first_shows(fail_by_id(t, id, r), id, StatusView::Failed(Some(r)), false),
        first_shows(skip_by_id(t, id, msg), id, StatusView::Skipped(msg), false),
{
    let w = choose|w: int| 0 <= w < t.entries.len() && #[trigger] is_stage_with(t.entries[w], id);
    lemma_first_exists(t.entries, id, w);
    let k = first_stage(t.entries, id);
    lemma_changed_stage_shows(t.entries, id, k, StatusView::Running(run_msg), true);
    lemma_changed_stage_shows(t.entries, id, k, StatusView::Succeeded(msg), false);
    lemma_changed_stage_shows(t.entries, id, k, StatusView::Failed(Some(r)), false);
    lemma_changed_stage_shows(t.entries, id, k, StatusView::Skipped(msg), false);
}

} // verus!
