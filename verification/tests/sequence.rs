use knot::terminal::engine::{TaskBuilder, TaskSequenceBuilder};
use knot::terminal::render::RenderStatus;
use knot::terminal::report::ErrorReport;
use knot::terminal::sequence::TaskSequence;
use knot::terminal::style::TaskStyle;

fn setup_sequence(stages: &[&str]) -> TaskSequence {
    let builder = TaskBuilder::new("Test Flow", TaskStyle::modern());
    let mut builder = TaskSequenceBuilder::new(builder);
    for stage in stages {
        builder = builder.with_stage(stage);
    }
    builder.start()
}

#[test]
fn sequence_all_ok() {
    let mut seq = setup_sequence(&["A", "B", "C"]);
    assert_eq!(seq.current_stage(), 0);
    seq.ok("A done");
    assert_eq!(seq.current_stage(), 1);
    seq.ok("B done");
    assert_eq!(seq.current_stage(), 2);
    seq.ok("C done");
    assert_eq!(seq.current_stage(), 3);
    assert!(seq.task().is_finished());
    assert!(matches!(&seq.task().renderer().status, RenderStatus::Succeeded(m) if m == "success"));
}

#[test]
fn sequence_all_skipped() {
    let mut seq = setup_sequence(&["A", "B"]);
    seq.skip("Skip A");
    assert_eq!(seq.current_stage(), 1);
    seq.skip("Skip B");
    assert_eq!(seq.current_stage(), 2);
}

#[test]
fn sequence_fail_at_start_skips_everything() {
    let mut seq = setup_sequence(&["A", "B", "C"]);
    seq.fail(ErrorReport::new("Critical error on start"));
    assert_eq!(seq.current_stage(), 3);
    assert!(matches!(seq.task().renderer().status, RenderStatus::Failed(None)));
    assert!(seq.task().finished_stages().contains(&"B".to_string()));
    assert!(seq.task().finished_stages().contains(&"C".to_string()));
    assert!(seq.task().failed_stages().contains(&"A".to_string()));
}

#[test]
fn sequence_fail_in_middle() {
    let mut seq = setup_sequence(&["A", "B", "C", "D"]);
    seq.ok("A done");
    seq.fail(ErrorReport::new("B failed"));
    assert_eq!(seq.current_stage(), 4, "Remaining stages must be skipped");
}

#[test]
fn sequence_fail_on_last_stage() {
    let mut seq = setup_sequence(&["A", "B"]);
    seq.ok("A done");
    seq.fail(ErrorReport::new("B failed"));
    assert_eq!(seq.current_stage(), 2);
}

#[test]
fn sequence_finish_early() {
    let mut seq = setup_sequence(&["A", "B", "C"]);
    seq.ok("A done");
    seq.finish("Forced finish early");
    assert_eq!(seq.current_stage(), 3);
    assert!(seq.task().is_finished());
    assert!(matches!(&seq.task().renderer().status, RenderStatus::Succeeded(m) if m == "Forced finish early"));
}

#[test]
fn sequence_finish_on_last_stage() {
    let mut seq = setup_sequence(&["A", "B"]);
    seq.ok("A done");
    seq.finish("Finishing instead of OK");
    assert_eq!(seq.current_stage(), 2);
}

#[test]
fn sequence_mixed_ok_skip_ok() {
    let mut seq = setup_sequence(&["A", "B", "C"]);
    seq.ok("A done");
    seq.skip("B skipped");
    seq.ok("C done");
    assert_eq!(seq.current_stage(), 3);
}

#[test]
fn sequence_mixed_skip_fail() {
    let mut seq = setup_sequence(&["A", "B", "C"]);
    seq.skip("A skipped");
    seq.fail(ErrorReport::new("B failed"));
    assert_eq!(seq.current_stage(), 3, "Fail after skip should still exhaust the sequence");
}

#[test]
fn sequence_spam_calls_after_completion() {
    let mut seq = setup_sequence(&["A"]);
    seq.ok("A done");
    assert_eq!(seq.current_stage(), 1);
    seq.ok("Ghost call");
    seq.fail(ErrorReport::new("Ghost call"));
    seq.skip("Ghost call");
    seq.finish("Ghost call");
    assert_eq!(seq.current_stage(), 1, "State must freeze after sequence is exhausted");
}

#[test]
fn sequence_empty_sequence_safety() {
    let mut seq = setup_sequence(&[]);
    seq.ok("Nothing");
    seq.fail(ErrorReport::new("Nothing"));
    seq.skip("Nothing");
    seq.finish("Nothing");
    assert_eq!(seq.current_stage(), 0);
}

#[test]
fn sequence_spam_finish_calls() {
    let mut seq = setup_sequence(&["A", "B"]);
    seq.finish("Done early");
    assert_eq!(seq.current_stage(), 2);
    seq.finish("Again");
    seq.finish("And again");
    assert_eq!(seq.current_stage(), 2);
    assert!(matches!(&seq.task().renderer().status, RenderStatus::Succeeded(m) if m == "Done early"));
}

#[test]
fn sequence_single_task_without_stages_manual_finish() {
    let mut seq = setup_sequence(&[]);
    seq.finish("done without stages");
    assert_eq!(seq.current_stage(), 0);
    assert!(matches!(&seq.task().renderer().status, RenderStatus::Succeeded(m) if m == "done without stages"));
}

#[test]
fn sequence_autostart_true() {
    let builder = TaskBuilder::new("Auto Flow", TaskStyle::modern());
    let seq = TaskSequenceBuilder::new(builder).with_stage("A").start();
    assert!(seq.task().get_stage("A").unwrap().has_start_time());
}

#[test]
fn sequence_autostart_false() {
    let builder = TaskBuilder::new("Manual Flow", TaskStyle::modern());
    let seq = TaskSequenceBuilder::new(builder).with_stage("A").build();
    assert!(!seq.task().get_stage("A").unwrap().has_start_time());
}

#[test]
fn sequence_fail_skips_remaining_and_completes() {
    let mut seq = setup_sequence(&["A", "B", "C"]);
    seq.ok("A done");
    seq.fail(ErrorReport::new("B failed"));
    assert_eq!(seq.current_stage(), 3);
}

#[test]
fn sequence_ok_starts_next_stage() {
    let mut seq = setup_sequence(&["A", "B"]);
    seq.ok("A done");
    let b = seq.task().get_stage("B").unwrap();
    assert!(b.has_start_time());
    assert!(matches!(b.renderer.status, RenderStatus::Running(None)));
}

#[test]
fn sequence_finish_after_failure_keeps_the_failure() {
    let mut seq = setup_sequence(&["A", "B"]);
    seq.fail(ErrorReport::new("boom"));
    seq.finish("never mind");
    assert!(matches!(&seq.task().renderer().status, RenderStatus::Failed(_)));
}

#[test]
fn conclude_replaces_the_success_message_only() {
    let mut task = TaskBuilder::new("T", TaskStyle::plain()).with_stage("a", "A").build();
    task.ok_by_id("a", "done");
    assert!(matches!(&task.renderer().status, RenderStatus::Succeeded(m) if m == "success"));
    task.conclude("all done");
    assert!(matches!(&task.renderer().status, RenderStatus::Succeeded(m) if m == "all done"));
    let mut failed = TaskBuilder::new("F", TaskStyle::plain()).with_stage("a", "A").build();
    failed.fail_by_id("a", ErrorReport::new("x"));
    failed.conclude("ignored");
    assert!(matches!(&failed.renderer().status, RenderStatus::Failed(_)));
}
