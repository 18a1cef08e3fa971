use knot::terminal::render::TaskRenderer;
use knot::terminal::report::ErrorReport;
use knot::terminal::task::{Stage, Task, TaskEntry};

fn create_stage(id: &str) -> Stage {
    let renderer = TaskRenderer::new(&format!("Stage {}", id), 2);
    Stage::new(id, renderer)
}

fn create_test_task() -> Task {
    let stages = vec![
        TaskEntry::Stage(create_stage("stage_1")),
        TaskEntry::Stage(create_stage("stage_2")),
        TaskEntry::Stage(create_stage("stage_3")),
    ];
    Task::new(TaskRenderer::new("Test Task", 0), stages)
}

fn id(s: &str) -> String {
    s.to_string()
}

#[test]
fn test_task_initialization() {
    let task = create_test_task();

    assert_eq!(task.renderer().name, "Test Task");
    assert_eq!(task.entries().len(), 3);
    assert!(task.finished_stages().is_empty());
    assert!(task.failed_stages().is_empty());
}

#[test]
fn test_stage_initialization() {
    let stage = create_stage("test_id");

    assert_eq!(stage.id, "test_id");
    assert_eq!(stage.renderer.name, "Stage test_id");
    assert!(!stage.has_start_time(), "Start time should be None initially");
}

#[test]
fn test_invalid_id_returns_false() {
    let mut task = create_test_task();

    assert!(!task.run_by_id("invalid_id", None));
    assert!(!task.ok_by_id("invalid_id", "done"));
    assert!(!task.fail_by_id("invalid_id", ErrorReport::new("error")));
    assert!(!task.skip_by_id("invalid_id", "skip"));
}

#[test]
fn test_run_by_id_updates_state() {
    let mut task = create_test_task();

    let success = task.run_by_id("stage_1", Some("running"));
    assert!(success);

    let stage = task.get_stage("stage_1").unwrap();
    assert!(stage.has_start_time());
}

#[test]
fn test_ok_by_id_adds_to_finished() {
    let mut task = create_test_task();

    assert!(task.ok_by_id("stage_1", "success"));
    assert!(task.finished_stages().contains(&id("stage_1")));
    assert!(!task.failed_stages().contains(&id("stage_1")));
}

#[test]
fn test_fail_by_id_adds_to_failed() {
    let mut task = create_test_task();

    assert!(task.fail_by_id("stage_2", ErrorReport::new("error")));
    assert!(task.failed_stages().contains(&id("stage_2")));
    assert!(!task.finished_stages().contains(&id("stage_2")));
}

#[test]
fn test_skip_by_id_counts_as_finished() {
    let mut task = create_test_task();

    assert!(task.skip_by_id("stage_3", "skipped"));
    assert!(task.finished_stages().contains(&id("stage_3")));
    assert!(!task.failed_stages().contains(&id("stage_3")));
}

#[test]
fn test_task_completes_when_all_stages_finished() {
    let mut task = create_test_task();

    task.ok_by_id("stage_1", "ok");
    task.ok_by_id("stage_2", "ok");

    assert_eq!(task.finished_stages().len(), 2);

    task.ok_by_id("stage_3", "ok");
    assert_eq!(task.finished_stages().len(), 3);
    assert!(task.failed_stages().is_empty());
}

#[test]
fn test_task_completes_with_mixed_ok_and_skip() {
    let mut task = create_test_task();

    task.ok_by_id("stage_1", "ok");
    task.skip_by_id("stage_2", "skipped");
    task.ok_by_id("stage_3", "ok");

    assert_eq!(task.finished_stages().len(), 3);
}

#[test]
fn test_task_fails_if_any_stage_fails() {
    let mut task = create_test_task();

    task.ok_by_id("stage_1", "ok");
    task.fail_by_id("stage_2", ErrorReport::new("error"));
    assert!(task.failed_stages().contains(&id("stage_2")));
}

#[test]
fn test_bulk_ok() {
    let mut task = create_test_task();

    task.perform_ok("all done");

    assert_eq!(task.finished_stages().len(), 3);
    assert!(task.failed_stages().is_empty());
}

#[test]
fn test_bulk_fail() {
    let mut task = create_test_task();
    task.perform_fail(ErrorReport::new("all failed"));

    assert_eq!(task.failed_stages().len(), 3);
    assert!(task.finished_stages().is_empty());
}

#[test]
fn test_bulk_skip() {
    let mut task = create_test_task();
    task.perform_skip("all skipped");
    assert_eq!(task.finished_stages().len(), 3);
}

#[test]
fn test_bulk_run() {
    let mut task = create_test_task();

    task.perform_run(Some("running everywhere"));

    assert!(task.finished_stages().is_empty());
    assert!(task.failed_stages().is_empty());

    for entry in task.entries() {
        if let TaskEntry::Stage(stage) = entry {
            assert!(stage.has_start_time());
        } else {
            panic!("Wrong entry");
        }
    }
}

#[test]
fn test_single_task_without_stages_completion() {
    let mut task = Task::new(TaskRenderer::new("Single Task", 0), vec![]);

    task.perform_ok("done");
    assert!(task.finished_stages().is_empty());
    assert!(task.failed_stages().is_empty());
    assert!(task.entries().is_empty());
}

#[test]
fn test_single_task_without_stages_failure() {
    let mut task = Task::new(TaskRenderer::new("Single Task", 0), vec![]);

    task.perform_fail(ErrorReport::new("fail"));
    assert!(task.finished_stages().is_empty());
    assert!(task.failed_stages().is_empty());
}
