use vstd::prelude::*;
use vstd::string::StringExecFns;
use crate::terminal::id_set::id_views;
use crate::terminal::report::{ErrorReport, ReportView};
use crate::terminal::text::{is_white_space, remove_matches, trim_end, trimmed_end, without_matches};
use crate::terminal::utils::{format_indent, spaces};

verus! {

/// The role of one line of a printed report.
#[derive(PartialEq, Eq, Structural, Clone, Copy, Debug)]
pub enum LineKind {
    /// A line holding only the side border.
    Border,
    /// The first line of the message, after the `issue:` label.
    Issue,
    /// A further line of the message.
    IssueMore,
    /// The first line of the context, after the `context:` label.
    Context,
    /// A further line of the context.
    ContextMore,
    /// The first line of the solution, after the `solution:` label.
    Solution,
    /// A further line of the solution.
    SolutionMore,
}

/// One line of a printed report: its role and its text.
pub struct ReportLine {
    pub kind: LineKind,
    pub text: String,
}

/// The plain content of a [`ReportLine`].
pub struct LineView {
    pub kind: LineKind,
    pub text: Seq<char>,
}

impl View for ReportLine {
    type V = LineView;

    open spec fn view(&self) -> LineView {
        LineView { kind: self.kind, text: self.text@ }
    }
}

/// The lines that `textwrap::wrap` breaks `text` into for the given width.
pub uninterp spec fn wrapped(text: Seq<char>, width: nat) -> Seq<Seq<char>>;

/// Breaks `text` into lines of at most `width` columns (`textwrap::wrap`).
#[verifier::external_body]
fn wrap_text(text: &str, width: usize) -> (lines: Vec<String>)
    ensures
        id_views(lines@) == wrapped(text@, width as nat),
{
    textwrap::wrap(text, width).into_iter().map(|line| line.into_owned()).collect()
}

/// Wrapped lines tagged with a role: `first` for the first one, `more` for the others.
pub open spec fn tagged(lines: Seq<Seq<char>>, first: LineKind, more: LineKind) -> Seq<LineView> {
    Seq::new(lines.len(), |i: int| LineView { kind: if i == 0 { first } else { more }, text: lines[i] })
}

/// The width left for text once the border and the label column are drawn:
/// `term_width - (indent + 2 + 10)`, or zero.
pub open spec fn content_width(indent: nat, term_width: nat) -> nat {
    if term_width > indent + 12 {
        (term_width - indent - 12) as nat
    } else {
        0
    }
}

/// The verbatim path prefix that is taken out of report contexts.
pub open spec fn verbatim_prefix() -> Seq<char> {
    "\\\\?\\"@
}

/// A line holding only the border.
pub open spec fn border_line() -> LineView {
    LineView { kind: LineKind::Border, text: Seq::empty() }
}

/// The lines of a report wrapped to `width`: a border line, then the message; for a
/// context, a border line and the context without verbatim path prefixes; for a
/// solution, a border line and the solution.
pub open spec fn report_layout(r: ReportView, width: nat) -> Seq<LineView> {
    let issue = seq![border_line()] + tagged(wrapped(r.message, width), LineKind::Issue, LineKind::IssueMore);
    let context = match r.context {
        Some(c) => seq![border_line()] + tagged(
            wrapped(without_matches(c, verbatim_prefix()), width),
            LineKind::Context,
            LineKind::ContextMore,
        ),
        None => Seq::empty(),
    };
    let solution = match r.solution {
        Some(s) => seq![border_line()] + tagged(wrapped(s, width), LineKind::Solution, LineKind::SolutionMore),
        None => Seq::empty(),
    };
    issue + context + solution
}

/// No line of `lines` is of kind `f` or `m`.
pub open spec fn avoids(lines: Seq<LineView>, f: LineKind, m: LineKind) -> bool {
    forall|i: int| 0 <= i < lines.len() ==> (#[trigger] lines[i]).kind != f && lines[i].kind != m
}

/// Lines `a` up to `a + texts.len()` of `lines` hold `texts` in order, the first of kind
/// `f` and the others of kind `m`, and no other line is of either kind.
pub open spec fn block_at(lines: Seq<LineView>, texts: Seq<Seq<char>>, f: LineKind, m: LineKind, a: int) -> bool {
    &&& 0 <= a && a + texts.len() <= lines.len()
    &&& forall|i: int| 0 <= i < lines.len() ==> {
        &&& (a <= i < a + texts.len() ==> (#[trigger] lines[i]).text == texts[i - a] && lines[i].kind == (if i
            == a {
            f
        } else {
            m
        }))
        &&& (lines[i].kind == f || lines[i].kind == m ==> a <= i < a + texts.len())
    }
}

/// `lines` hold `texts` as one block of kinds `f` then `m`, and no other line is of
/// either kind.
pub open spec fn holds_block(lines: Seq<LineView>, texts: Seq<Seq<char>>, f: LineKind, m: LineKind) -> bool {
    exists|a: int| #[trigger] block_at(lines, texts, f, m, a)
}

proof fn lemma_avoids_concat(a: Seq<LineView>, b: Seq<LineView>, f: LineKind, m: LineKind)
    requires
        avoids(a, f, m),
        avoids(b, f, m),
    ensures
        avoids(a + b, f, m),
{
    assert forall|i: int| 0 <= i < (a + b).len() implies (#[trigger] (a + b)[i]).kind != f && (a + b)[i].kind != m by {
        if i < a.len() {
            assert((a + b)[i] == a[i]);
        } else {
            assert((a + b)[i] == b[i - a.len()]);
        }
    }
}

proof fn lemma_tagged_avoids(w: Seq<Seq<char>>, f2: LineKind, m2: LineKind, f: LineKind, m: LineKind)
    requires
        f2 != f && f2 != m && m2 != f && m2 != m,
    ensures
        avoids(tagged(w, f2, m2), f, m),
{
}

/// A part placed after `pre` and its border line, before `post`, holds its wrapped lines
/// as one block.
proof fn lemma_part_block(pre: Seq<LineView>, w: Seq<Seq<char>>, f: LineKind, m: LineKind, post: Seq<LineView>)
    requires
        f != m && f != LineKind::Border && m != LineKind::Border,
        avoids(pre, f, m),
        avoids(post, f, m),
    ensures
        block_at(pre + seq![border_line()] + tagged(w, f, m) + post, w, f, m, pre.len() + 1 as int),
{
    let t = tagged(w, f, m);
    let lines = pre + seq![border_line()] + t + post;
    let a = pre.len() + 1;
    assert forall|i: int| 0 <= i < lines.len() implies {
        &&& (a <= i < a + w.len() ==> (#[trigger] lines[i]).text == w[i - a] && lines[i].kind == (if i == a {
            f
        } else {
            m
        }))
        &&& (lines[i].kind == f || lines[i].kind == m ==> a <= i < a + w.len())
    } by {
        if i < pre.len() {
            assert(lines[i] == pre[i]);
        } else if i == pre.len() {
            assert(lines[i] == border_line());
        } else if i < a + w.len() {
            assert(lines[i] == t[i - a]);
        } else {
            assert(lines[i] == post[i - a - w.len()]);
        }
    }
}

/// Law: the lines of a report are its message, its context and its solution each
/// broken by `textwrap` at the given width: the message's wrapped lines form one
/// block (`issue:` first), the context's wrapped lines (with verbatim path prefixes
/// taken out) another, and the solution's a third, no other line being of their kinds;
/// a part that is absent has no line; border lines hold no text.
pub proof fn lemma_layout_wraps_each_part(r: ReportView, width: nat)
    ensures
        holds_block(report_layout(r, width), wrapped(r.message, width), LineKind::Issue, LineKind::IssueMore),
        holds_block(
            report_layout(r, width),
            match r.context {
                Some(c) => wrapped(without_matches(c, verbatim_prefix()), width),
                None => Seq::empty(),
            },
            LineKind::Context,
            LineKind::ContextMore,
        ),
        holds_block(
            report_layout(r, width),
            match r.solution {
                Some(c) => wrapped(c, width),
                None => Seq::empty(),
            },
            LineKind::Solution,
            LineKind::SolutionMore,
        ),
        forall|i: int| 0 <= i < report_layout(r, width).len() && (#[trigger] report_layout(r, width)[i]).kind
            == LineKind::Border ==> report_layout(r, width)[i].text == Seq::<char>::empty(),
{
    let b = seq![border_line()];
    let wi = wrapped(r.message, width);
    let ti = tagged(wi, LineKind::Issue, LineKind::IssueMore);
    let issue = b + ti;
    let context = match r.context {
        Some(c) => b + tagged(wrapped(without_matches(c, verbatim_prefix()), width), LineKind::Context, LineKind::ContextMore),
        None => Seq::<LineView>::empty(),
    };
    let solution = match r.solution {
        Some(c) => b + tagged(wrapped(c, width), LineKind::Solution, LineKind::SolutionMore),
        None => Seq::<LineView>::empty(),
    };
    let lines = report_layout(r, width);
    assert(lines == issue + context + solution);
    let e = Seq::<LineView>::empty();
    // Which kinds each part avoids.
    assert(avoids(b, LineKind::Issue, LineKind::IssueMore));
    assert(avoids(b, LineKind::Context, LineKind::ContextMore));
    assert(avoids(b, LineKind::Solution, LineKind::SolutionMore));
    lemma_tagged_avoids(wi, LineKind::Issue, LineKind::IssueMore, LineKind::Context, LineKind::ContextMore);
    lemma_tagged_avoids(wi, LineKind::Issue, LineKind::IssueMore, LineKind::Solution, LineKind::SolutionMore);
    lemma_avoids_concat(b, ti, LineKind::Context, LineKind::ContextMore);
    lemma_avoids_concat(b, ti, LineKind::Solution, LineKind::SolutionMore);
    match r.context {
        Some(c) => {
            let wc = wrapped(without_matches(c, verbatim_prefix()), width);
            lemma_tagged_avoids(wc, LineKind::Context, LineKind::ContextMore, LineKind::Issue, LineKind::IssueMore);
            lemma_tagged_avoids(wc, LineKind::Context, LineKind::ContextMore, LineKind::Solution, LineKind::SolutionMore);
            lemma_avoids_concat(b, tagged(wc, LineKind::Context, LineKind::ContextMore), LineKind::Issue, LineKind::IssueMore);
            lemma_avoids_concat(b, tagged(wc, LineKind::Context, LineKind::ContextMore), LineKind::Solution, LineKind::SolutionMore);
        },
        None => {},
    }
    match r.solution {
        Some(c) => {
            let ws = wrapped(c, width);
            lemma_tagged_avoids(ws, LineKind::Solution, LineKind::SolutionMore, LineKind::Issue, LineKind::IssueMore);
            lemma_tagged_avoids(ws, LineKind::Solution, LineKind::SolutionMore, LineKind::Context, LineKind::ContextMore);
            lemma_avoids_concat(b, tagged(ws, LineKind::Solution, LineKind::SolutionMore), LineKind::Issue, LineKind::IssueMore);
            lemma_avoids_concat(b, tagged(ws, LineKind::Solution, LineKind::SolutionMore), LineKind::Context, LineKind::ContextMore);
        },
        None => {},
    }
    // The message.
    lemma_avoids_concat(context, solution, LineKind::Issue, LineKind::IssueMore);
    lemma_part_block(e, wi, LineKind::Issue, LineKind::IssueMore, context + solution);
    assert(e + b + ti + (context + solution) =~= lines);
    assert(block_at(lines, wi, LineKind::Issue, LineKind::IssueMore, 1));
    // The context.
    lemma_avoids_concat(issue, solution, LineKind::Context, LineKind::ContextMore);
    match r.context {
        Some(c) => {
            let wc = wrapped(without_matches(c, verbatim_prefix()), width);
            lemma_part_block(issue, wc, LineKind::Context, LineKind::ContextMore, solution);
            assert(issue + b + tagged(wc, LineKind::Context, LineKind::ContextMore) + solution =~= lines);
            assert(block_at(lines, wc, LineKind::Context, LineKind::ContextMore, issue.len() + 1 as int));
        },
        None => {
            assert(issue + solution =~= lines);
            assert(block_at(lines, Seq::empty(), LineKind::Context, LineKind::ContextMore, 0));
        },
    }
    // The solution.
    lemma_avoids_concat(issue, context, LineKind::Solution, LineKind::SolutionMore);
    match r.solution {
        Some(c) => {
            let ws = wrapped(c, width);
            lemma_part_block(issue + context, ws, LineKind::Solution, LineKind::SolutionMore, e);
            assert(issue + context + b + tagged(ws, LineKind::Solution, LineKind::SolutionMore) + e =~= lines);
            assert(block_at(lines, ws, LineKind::Solution, LineKind::SolutionMore, (issue + context).len() + 1 as int));
        },
        None => {
            assert(issue + context =~= lines);
            assert(block_at(lines, Seq::empty(), LineKind::Solution, LineKind::SolutionMore, 0));
        },
    }
    // Border lines.
    assert forall|i: int| 0 <= i < lines.len() && (#[trigger] lines[i]).kind == LineKind::Border implies lines[i].text
        == Seq::<char>::empty() by {
        let ic = issue + context;
        if i < ic.len() {
            assert(lines[i] == ic[i]);
            if i < issue.len() {
                assert(ic[i] == issue[i]);
            } else {
                assert(ic[i] == context[i - issue.len()]);
            }
        } else {
            assert(lines[i] == solution[i - ic.len()]);
        }
    }
}

/// The views of a list of report lines.
pub open spec fn line_views(lines: Seq<ReportLine>) -> Seq<LineView> {
    lines.map_values(|l: ReportLine| l@)
}

/// Appends `text` broken into lines, tagged with `first` and `more`.
fn push_wrapped(out: &mut Vec<ReportLine>, text: &str, width: usize, first: LineKind, more: LineKind)
    ensures
        line_views(final(out)@) == line_views(old(out)@) + tagged(wrapped(text@, width as nat), first, more),
{
    let pieces = wrap_text(text, width);
    let ghost start = line_views(out@);
    let mut i: usize = 0;
    while i < pieces.len()
        invariant
            i <= pieces@.len(),
            id_views(pieces@) == wrapped(text@, width as nat),
            line_views(out@) == start + tagged(id_views(pieces@), first, more).take(i as int),
        decreases pieces@.len() - i,
    {
        let kind = if i == 0 { first } else { more };
        let ghost before = out@;
        let line = ReportLine { kind, text: pieces[i].clone() };
        assert(line@ == tagged(id_views(pieces@), first, more)[i as int]);
        out.push(line);
        assert(out@ == before.push(line));
        assert(line_views(out@) =~= line_views(before).push(line@));
        assert(tagged(id_views(pieces@), first, more).take(i + 1) =~= tagged(id_views(pieces@), first, more).take(i as int).push(line@));
        assert(line_views(out@) =~= start + tagged(id_views(pieces@), first, more).take(i + 1));
        i = i + 1;
    }
    assert(tagged(id_views(pieces@), first, more).take(i as int) =~= tagged(id_views(pieces@), first, more));
}

/// Appends a line holding only the border.
fn push_border(out: &mut Vec<ReportLine>)
    ensures
        line_views(final(out)@) == line_views(old(out)@) + seq![border_line()],
{
    let ghost start = line_views(out@);
    out.push(ReportLine { kind: LineKind::Border, text: String::new() });
    assert(line_views(out@) =~= start + seq![border_line()]);
}

impl ErrorReport {
    /// The lines of this report, wrapped for a terminal `term_width` columns wide
    /// with the block indented by `indent` spaces.
    pub fn layout(&self, indent: usize, term_width: usize) -> (lines: Vec<ReportLine>)
        ensures
            line_views(lines@) == report_layout(self@, content_width(indent as nat, term_width as nat)),
    {
        let width = term_width.saturating_sub(indent.saturating_add(12));
        assert(width == content_width(indent as nat, term_width as nat));
        let mut lines: Vec<ReportLine> = Vec::new();
        assert(line_views(lines@) =~= Seq::<LineView>::empty());
        push_border(&mut lines);
        push_wrapped(&mut lines, self.message.as_str(), width, LineKind::Issue, LineKind::IssueMore);
        let ghost after_issue = line_views(lines@);
        match &self.context {
            Some(c) => {
                push_border(&mut lines);
                let pat = "\\\\?\\";
                proof { reveal_strlit("\\\\?\\"); }
                let clean = remove_matches(c.as_str(), pat);
                push_wrapped(&mut lines, clean.as_str(), width, LineKind::Context, LineKind::ContextMore);
            },
            None => {},
        }
        let ghost after_context = line_views(lines@);
        match &self.solution {
            Some(s) => {
                push_border(&mut lines);
                push_wrapped(&mut lines, s.as_str(), width, LineKind::Solution, LineKind::SolutionMore);
            },
            None => {},
        }
        assert(line_views(lines@) =~= report_layout(self@, width as nat));
        lines
    }
}

/// The escape code that ends a styled text.
pub open spec fn reset_code() -> Seq<char> {
    "\u{1b}[0m"@
}

/// The escape code of red text.
pub open spec fn red_code() -> Seq<char> {
    "\u{1b}[31m"@
}

/// The escape code of green text.
pub open spec fn green_code() -> Seq<char> {
    "\u{1b}[32m"@
}

/// The escape code of yellow text.
pub open spec fn yellow_code() -> Seq<char> {
    "\u{1b}[33m"@
}

/// The escape code of bold text.
pub open spec fn bold_code() -> Seq<char> {
    "\u{1b}[1m"@
}

/// The escape code of dimmed text.
pub open spec fn dim_code() -> Seq<char> {
    "\u{1b}[2m"@
}

/// `r` is `s` styled with `code`: `s` as it is when colours are off, or `code`, then
/// `s`, then the reset code when they are on.
pub open spec fn styled(r: Seq<char>, s: Seq<char>, code: Seq<char>) -> bool {
    r == s || r == code + s + reset_code()
}

/// The width of the terminal in columns, or 80 when it cannot be told (`textwrap::termwidth`).
/// It depends on the terminal, so nothing is stated of it.
#[verifier::external_body]
fn terminal_width() -> usize {
    textwrap::termwidth()
}

/// `s` in red (`console::style(s).red()`, shown with `to_string`): when colours are
/// enabled, the red code, `s` and the reset code; otherwise `s` itself. Whether
/// colours are enabled depends on the terminal and may change between calls.
#[verifier::external_body]
fn paint_red(s: &str) -> (r: String)
    ensures
        styled(r@, s@, red_code()),
{
    console::style(s).red().to_string()
}

/// `s` in bold red (`console::style(s).red().bold()`): the red code, then the bold
/// code, `s` and the reset code, or `s` itself without colours.
#[verifier::external_body]
fn paint_red_bold(s: &str) -> (r: String)
    ensures
        styled(r@, s@, red_code() + bold_code()),
{
    console::style(s).red().bold().to_string()
}

/// `s` in bold (`console::style(s).bold()`), or `s` itself without colours.
#[verifier::external_body]
fn paint_bold(s: &str) -> (r: String)
    ensures
        styled(r@, s@, bold_code()),
{
    console::style(s).bold().to_string()
}

/// `s` in yellow (`console::style(s).yellow()`), or `s` itself without colours.
#[verifier::external_body]
fn paint_yellow(s: &str) -> (r: String)
    ensures
        styled(r@, s@, yellow_code()),
{
    console::style(s).yellow().to_string()
}

/// `s` dimmed (`console::style(s).dim()`), or `s` itself without colours.
#[verifier::external_body]
fn paint_dim(s: &str) -> (r: String)
    ensures
        styled(r@, s@, dim_code()),
{
    console::style(s).dim().to_string()
}

/// `s` in bold green (`console::style(s).green().bold()`): the green code, then the
/// bold code, `s` and the reset code, or `s` itself without colours.
#[verifier::external_body]
fn paint_green_bold(s: &str) -> (r: String)
    ensures
        styled(r@, s@, green_code() + bold_code()),
{
    console::style(s).green().bold().to_string()
}

/// Trimming twice changes nothing.
proof fn lemma_trimmed_end_idempotent(s: Seq<char>)
    ensures
        trimmed_end(trimmed_end(s)) == trimmed_end(s),
    decreases s.len(),
{
    if s.len() > 0 && is_white_space(s.last()) {
        lemma_trimmed_end_idempotent(s.drop_last());
    }
}

/// The label column of a printed line: on the first line of each part its label,
/// styled (bold red `issue:`, yellow `context:`, bold green `solution:`), ten blanks
/// on the further lines, nothing on a border line.
pub open spec fn label_shown(kind: LineKind, label: Seq<char>) -> bool {
    match kind {
        LineKind::Border => label == Seq::<char>::empty(),
        LineKind::Issue => styled(label, "issue:    "@, red_code() + bold_code()),
        LineKind::Context => styled(label, "context:  "@, yellow_code()),
        LineKind::Solution => styled(label, "solution: "@, green_code() + bold_code()),
        _ => label == "          "@,
    }
}

/// The text of a printed line: styled bold for the message and dimmed for the
/// context, as it is for the solution, nothing on a border line.
pub open spec fn body_shown(kind: LineKind, body: Seq<char>, text: Seq<char>) -> bool {
    match kind {
        LineKind::Border => body == Seq::<char>::empty(),
        LineKind::Solution | LineKind::SolutionMore => body == text,
        LineKind::Issue | LineKind::IssueMore => styled(body, text, bold_code()),
        _ => styled(body, text, dim_code()),
    }
}

/// What follows the border on a printed line: its label column, then its text.
pub open spec fn painted_line(piece: Seq<char>, line: LineView) -> bool {
    exists|label: Seq<char>, body: Seq<char>|
        #[trigger] label_shown(line.kind, label) && #[trigger] body_shown(line.kind, body, line.text)
            && piece == label + body
}

/// The lines, each made of the border, its piece and a line break.
pub open spec fn assembled(border: Seq<char>, pieces: Seq<Seq<char>>) -> Seq<char>
    decreases pieces.len(),
{
    if pieces.len() == 0 {
        Seq::empty()
    } else {
        assembled(border, pieces.drop_last()) + border + pieces.last() + "\n"@
    }
}

/// `out` is report `r` printed with indentation `indent` on a terminal `term_width`
/// columns wide: the lines of its layout for at most 100 columns, each after the
/// painted border, with trailing white space removed.
pub open spec fn printed_report(out: Seq<char>, r: ReportView, indent: nat, term_width: nat) -> bool {
    let layout = report_layout(r, content_width(indent, if term_width < 100 { term_width } else { 100 }));
    exists|border: Seq<char>, pieces: Seq<Seq<char>>|
        {
            &&& out == trimmed_end(#[trigger] assembled(border, pieces))
            &&& styled(border, spaces(indent) + "│ "@, red_code())
            &&& pieces.len() == layout.len()
            &&& forall|i: int| 0 <= i < pieces.len() ==> painted_line(#[trigger] pieces[i], layout[i])
        }
}

impl ErrorReport {
    /// The report as a styled block of lines for a terminal `term_width` columns wide
    /// (at most 100 are used), indented by `indent_space` spaces, without trailing
    /// white space. Whether colours are added depends on the terminal.
    pub fn print_for_width(&self, indent_space: usize, term_width: usize) -> (out: String)
        ensures
            printed_report(out@, self@, indent_space as nat, term_width as nat),
    {
        let tw = if term_width < 100 { term_width } else { 100 };
        let lines = self.layout(indent_space, tw);
        let ghost layout = line_views(lines@);
        let mut raw_border = format_indent(indent_space);
        raw_border.append("│ ");
        let border = paint_red(raw_border.as_str());
        let indent_spaces = "          ";
        let mut out = String::new();
        let ghost mut pieces: Seq<Seq<char>> = Seq::empty();
        let mut i: usize = 0;
        while i < lines.len()
            invariant
                i <= lines@.len(),
                layout == line_views(lines@),
                indent_spaces@ == "          "@,
                pieces.len() == i,
                out@ == assembled(border@, pieces),
                forall|j: int| 0 <= j < i ==> painted_line(#[trigger] pieces[j], layout[j]),
            decreases lines@.len() - i,
        {
            let ghost before = out@;
            out.append(border.as_str());
            let text = lines[i].text.as_str();
            let ghost line = layout[i as int];
            assert(line == lines@[i as int]@);
            let ghost mut label: Seq<char> = Seq::empty();
            let ghost mut body: Seq<char> = Seq::empty();
            match lines[i].kind {
                LineKind::Border => {},
                LineKind::Issue => {
                    let l = paint_red_bold("issue:    ");
                    let t = paint_bold(text);
                    out.append(l.as_str());
                    out.append(t.as_str());
                    proof { label = l@; body = t@; }
                },
                LineKind::IssueMore => {
                    let t = paint_bold(text);
                    out.append(indent_spaces);
                    out.append(t.as_str());
                    proof { label = indent_spaces@; body = t@; }
                },
                LineKind::Context => {
                    let l = paint_yellow("context:  ");
                    let t = paint_dim(text);
                    out.append(l.as_str());
                    out.append(t.as_str());
                    proof { label = l@; body = t@; }
                },
                LineKind::ContextMore => {
                    let t = paint_dim(text);
                    out.append(indent_spaces);
                    out.append(t.as_str());
                    proof { label = indent_spaces@; body = t@; }
                },
                LineKind::Solution => {
                    let l = paint_green_bold("solution: ");
                    out.append(l.as_str());
                    out.append(text);
                    proof { label = l@; body = text@; }
                },
                LineKind::SolutionMore => {
                    out.append(indent_spaces);
                    out.append(text);
                    proof { label = indent_spaces@; body = text@; }
                },
            }
            out.append("\n");
            proof {
                let piece = label + body;
                assert(label_shown(line.kind, label) && body_shown(line.kind, body, line.text));
                assert(painted_line(piece, line));
                let next = pieces.push(piece);
                assert(next.drop_last() =~= pieces);
                assert(out@ =~= assembled(border@, next));
                assert forall|j: int| 0 <= j < i + 1 implies painted_line(#[trigger] next[j], layout[j]) by {
                    if j < i {
                        assert(next[j] == pieces[j]);
                    }
                }
                pieces = next;
            }
            i = i + 1;
        }
        let trimmed = trim_end(out.as_str());
        proof {
            assert(styled(border@, raw_border@, red_code()));
        }
        trimmed
    }

    /// The report as a styled block of lines, indented by `indent_space` spaces and
    /// wrapped to the width of the terminal (at most 100 columns), without trailing
    /// white space. The width is the terminal's, so the result holds for some width.
    pub fn print(&self, indent_space: usize) -> (out: String)
        ensures
            exists|w: nat| #[trigger] printed_report(out@, self@, indent_space as nat, w),
    {
        let width = terminal_width();
        self.print_for_width(indent_space, width)
    }
}

} // verus!
