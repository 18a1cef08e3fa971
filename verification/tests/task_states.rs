use knot::terminal::render::{RenderStatus, TaskRenderer};
use knot::terminal::report::ErrorReport;
use knot::terminal::task::{Stage, Task, TaskEntry};

fn task_with(ids: &[&str]) -> Task {
    let entries = ids
        .iter()
        .map(|id| TaskEntry::Stage(Stage::new(id, TaskRenderer::new(id, 2))))
        .collect();
    Task::new(TaskRenderer::new("Task", 0), entries)
}

fn stage_status(task: &Task, id: &str) -> String {
    match &task.get_stage(id).unwrap().renderer.status {
        RenderStatus::Waiting => "waiting".to_string(),
        RenderStatus::Running(m) => format!("running:{}", m.clone().unwrap_or_default()),
        RenderStatus::Succeeded(m) => format!("succeeded:{}", m),
        RenderStatus::Failed(r) => format!("failed:{}", r.as_ref().map(|r| r.message.clone()).unwrap_or_default()),
        RenderStatus::Skipped(m) => format!("skipped:{}", m),
    }
}

#[test]
fn task_succeeds_with_success_message_and_clears_lines_when_last_stage_done() {
    let mut task = task_with(&["a", "b"]);
    assert!(task.ok_by_id("a", "first"));
    assert!(!task.is_finished());
    assert_eq!(stage_status(&task, "a"), "succeeded:first");
    assert!(task.skip_by_id("b", "second"));
    assert!(task.is_finished());
    assert!(task.entries().is_empty());
    assert!(matches!(&task.renderer().status, RenderStatus::Succeeded(m) if m == "success"));
    // The stages are gone once the task succeeded.
    assert!(!task.ok_by_id("a", "again"));
}

#[test]
fn failed_stage_fails_task_and_freezes_lines() {
    let mut task = task_with(&["a", "b"]);
    assert!(task.fail_by_id("a", ErrorReport::new("boom")));
    assert!(task.is_finished());
    assert!(matches!(task.renderer().status, RenderStatus::Failed(None)));
    assert_eq!(task.entries().len(), 2);
    for entry in task.entries() {
        match entry {
            TaskEntry::Stage(s) => assert!(s.renderer.frozen),
            TaskEntry::Extra(r) => assert!(r.frozen),
        }
    }
    assert_eq!(stage_status(&task, "a"), "failed:boom");
    // The stage is still there and still found, but the task stays failed.
    assert!(task.ok_by_id("b", "late"));
    assert!(matches!(task.renderer().status, RenderStatus::Failed(None)));
}

#[test]
fn running_a_stage_clears_its_marks() {
    let mut task = task_with(&["a", "b"]);
    task.ok_by_id("a", "done");
    assert!(task.finished_stages().contains(&"a".to_string()));
    assert!(task.run_by_id("a", None));
    assert!(!task.finished_stages().contains(&"a".to_string()));
    assert!(!task.failed_stages().contains(&"a".to_string()));
    assert_eq!(stage_status(&task, "a"), "running:");
}

#[test]
fn bulk_fail_reports_error_on_task_line() {
    let mut task = task_with(&["a", "b", "c"]);
    task.perform_fail(ErrorReport::new("all failed").with_solution("retry"));
    assert!(task.is_finished());
    assert!(task.entries().is_empty());
    match &task.renderer().status {
        RenderStatus::Failed(Some(r)) => {
            assert_eq!(r.message, "all failed");
            assert_eq!(r.solution.as_deref(), Some("retry"));
        }
        _ => panic!("expected a failure with a report"),
    }
}

#[test]
fn bulk_ok_without_stages_uses_given_message() {
    let task = Task::new(TaskRenderer::new("Single", 0), vec![]);
    let task = task.ok("done");
    assert!(task.is_finished());
    assert!(matches!(&task.renderer().status, RenderStatus::Succeeded(m) if m == "done"));
}

#[test]
fn bulk_ok_with_stages_uses_success_message() {
    let task = task_with(&["a"]);
    let task = task.ok("done");
    assert!(matches!(&task.renderer().status, RenderStatus::Succeeded(m) if m == "success"));
}

#[test]
fn bulk_skip_without_stages_leaves_task_open() {
    let task = Task::new(TaskRenderer::new("Single", 0), vec![]);
    let task = task.skip("nothing");
    assert!(!task.is_finished());
}

#[test]
fn bulk_fail_consumes_task() {
    let task = task_with(&["a", "b"]);
    let task = task.fail(ErrorReport::new("x"));
    assert_eq!(task.failed_stages().len(), 2);
    assert!(task.is_finished());
}

#[test]
fn extra_lines_are_not_stages() {
    let entries = vec![
        TaskEntry::Extra(TaskRenderer::new("Group", 1)),
        TaskEntry::Stage(Stage::new("a", TaskRenderer::new("A", 2))),
    ];
    let mut task = Task::new(TaskRenderer::new("Task", 0), entries);
    assert_eq!(task.collect_stage_ids(), vec!["a".to_string()]);
    assert!(task.get_stage("Group").is_none());
    assert!(task.ok_by_id("a", "ok"));
    assert!(task.is_finished());
}

#[test]
fn set_completed_keeps_first_outcome() {
    let mut task = task_with(&["a"]);
    task.set_completed("first");
    task.set_completed("second");
    assert!(matches!(&task.renderer().status, RenderStatus::Succeeded(m) if m == "first"));
}

#[test]
fn run_marks_all_stages_running() {
    let mut task = task_with(&["a", "b"]);
    task.run(Some("go"));
    assert_eq!(stage_status(&task, "a"), "running:go");
    assert_eq!(stage_status(&task, "b"), "running:go");
}

#[test]
fn any_stage_calls_keep_marks_consistent() {
    let mut task = task_with(&["a", "b", "c"]);
    task.run_by_id("a", None);
    task.ok_by_id("a", "ok");
    task.skip_by_id("zzz", "unknown");
    assert!(!task.is_finished());
    assert!(!task.finished_stages().contains(&"zzz".to_string()));
    task.fail_by_id("b", ErrorReport::new("bad"));
    assert!(task.is_finished());
    task.run_by_id("b", None);
    task.ok_by_id("c", "late");
    assert!(task.is_finished());
    for id in ["a", "b", "c"] {
        let id = id.to_string();
        assert!(!(task.finished_stages().contains(&id) && task.failed_stages().contains(&id)));
    }
}
