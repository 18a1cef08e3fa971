use knot::terminal::anchor::TaskLayoutAnchor;
use knot::terminal::engine::{detect_interactive, RenderMode, TaskEngine};
use knot::terminal::report::ErrorReport;
use knot::terminal::report_layout::LineKind;
use knot::terminal::style::TaskStyle;
use knot::terminal::text::{remove_matches, trim, trim_end};
use knot::terminal::utils::format_indent;

#[test]
fn format_indent_repeats_spaces() {
    assert_eq!(format_indent(0), "");
    assert_eq!(format_indent(3), "   ");
}

#[test]
fn modern_and_plain_styles() {
    let m = TaskStyle::modern();
    assert_eq!(m.prefix_title, "▶");
    assert_eq!(m.prefix_success, "✔ ");
    assert_eq!(m.run_frame, "⠋⠙⠹⠸⠼⠴⠦⠧⠇⠏");
    let p = TaskStyle::plain();
    assert_eq!(p.prefix_title, "[TASK]");
    assert_eq!(p.prefix_fail, "[FAIL]");
    assert_eq!(p.run_frame, "[START]");
    assert_eq!(p.divider, "-");
    assert!(p.prefix_title.is_ascii() && p.run_frame.is_ascii() && p.divider.is_ascii());
}

#[test]
fn engine_picks_style_from_mode() {
    let engine: TaskEngine<u8, u8> = TaskEngine::new(RenderMode::Plain(1));
    assert!(!engine.space());
    let seq = engine.sequence("S").with_stage("x").build();
    assert_eq!(seq.task().renderer().name, "S");
    let engine = engine.with_render_mode(RenderMode::Interactive(7));
    assert!(engine.space());
    let task = engine.task("T").with_stage("id", "Name").build();
    assert_eq!(task.entries().len(), 1);
    assert_eq!(task.get_stage("id").unwrap().renderer.name, "Name");
}

#[test]
fn engine_plain_writer_only_in_plain_mode() {
    let engine: TaskEngine<u8, u8> = TaskEngine::new(RenderMode::Interactive(1));
    let engine = engine.with_plain_writer(5).with_style(TaskStyle::plain());
    assert!(engine.space());
}

#[test]
fn anchor_holds_node() {
    let mut anchor: TaskLayoutAnchor<u32> = TaskLayoutAnchor::new(None);
    assert!(anchor.get().is_none());
    anchor.set_anchor(4);
    assert_eq!(anchor.get(), Some(&4));
}

#[test]
fn error_report_builder() {
    let r = ErrorReport::new("m").with_context("c").with_solution("s");
    assert_eq!(r.message, "m");
    assert_eq!(r.context.as_deref(), Some("c"));
    assert_eq!(r.solution.as_deref(), Some("s"));
}

#[test]
fn report_layout_lines() {
    let r = ErrorReport::new("disk full").with_context("\\\\?\\C:\\data").with_solution("free space");
    let lines = r.layout(2, 100);
    let kinds: Vec<LineKind> = lines.iter().map(|l| l.kind).collect();
    assert_eq!(
        kinds,
        vec![LineKind::Border, LineKind::Issue, LineKind::Border, LineKind::Context, LineKind::Border, LineKind::Solution]
    );
    assert_eq!(lines[1].text, "disk full");
    assert_eq!(lines[3].text, "C:\\data");
    assert_eq!(lines[5].text, "free space");
}

#[test]
fn report_layout_wraps_to_content_width() {
    // 30 columns, indent 0: 30 - 12 = 18 columns for text.
    let r = ErrorReport::new("aaaa bbbb cccc dddd eeee");
    let lines = r.layout(0, 30);
    assert_eq!(lines.len(), 3);
    assert_eq!(lines[1].kind, LineKind::Issue);
    assert_eq!(lines[1].text, "aaaa bbbb cccc");
    assert_eq!(lines[2].kind, LineKind::IssueMore);
    assert_eq!(lines[2].text, "dddd eeee");
}

#[test]
fn report_print_has_labels() {
    let r = ErrorReport::new("broken").with_solution("fix it");
    let out = r.print(0);
    assert!(out.contains("issue:"));
    assert!(out.contains("broken"));
    assert!(out.contains("solution:"));
    assert!(out.contains("fix it"));
    assert!(!out.ends_with('\n'));
}

#[test]
fn text_helpers() {
    assert_eq!(remove_matches("a--b--c", "--"), "abc");
    assert_eq!(remove_matches("aaa", "aa"), "a");
    assert_eq!(remove_matches("abc", ""), "abc");
    assert_eq!(trim_end("  x \n\t"), "  x");
    assert_eq!(trim("  12 \n"), "12");
    assert_eq!(trim("\u{3000}x\u{a0}"), "x");
}

#[test]
fn interactive_only_on_terminal_outside_ci() {
    assert!(detect_interactive(false, true));
    assert!(!detect_interactive(true, true));
    assert!(!detect_interactive(false, false));
    assert!(!detect_interactive(true, false));
}

#[test]
fn report_print_for_width_lines() {
    // Colours are off when the test's output is not a terminal, and may be on when it is,
    // so only the text between escape codes is checked.
    let r = ErrorReport::new("disk full").with_context("\\\\?\\C:\\data").with_solution("free space");
    let out = r.print_for_width(2, 80);
    let lines: Vec<&str> = out.lines().collect();
    assert_eq!(lines.len(), 6);
    assert!(lines[0].contains("  │ "));
    assert!(lines[1].contains("issue:    ") && lines[1].contains("disk full"));
    assert!(lines[3].contains("context:  ") && lines[3].contains("C:\\data"));
    assert!(!lines[3].contains("\\\\?\\"));
    assert!(lines[5].contains("solution: ") && lines[5].ends_with("free space"));
    let narrow = ErrorReport::new("aaaa bbbb cccc").print_for_width(0, 18);
    let narrow_lines: Vec<&str> = narrow.lines().collect();
    assert_eq!(narrow_lines.len(), 4);
    assert!(narrow_lines[2].contains("          ") && narrow_lines[2].contains("bbbb"));
}

#[test]
fn error_report_from_text() {
    let a = ErrorReport::from("broken");
    assert_eq!(a.message, "broken");
    assert!(a.context.is_none() && a.solution.is_none());
    let b: ErrorReport = String::from("also broken").into();
    assert_eq!(b.message, "also broken");
    assert!(b.context.is_none() && b.solution.is_none());
}
