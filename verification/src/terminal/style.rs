use vstd::prelude::*;
use vstd::string::StringExecFns;

verus! {

/// Prefix characters, spinner frames and dividers used to draw tasks.
pub struct TaskStyle {
    /// Prefix icon for titles.
    pub prefix_title: String,
    /// Prefix icon of an active task or stage.
    pub prefix_active: String,
    /// Prefix icon of success.
    pub prefix_success: String,
    /// Prefix icon of failure.
    pub prefix_fail: String,
    /// Prefix icon of a skipped stage.
    pub prefix_skip: String,
    /// Prefix icon of a waiting stage.
    pub prefix_wait: String,
    /// The frames of the running spinner.
    pub run_frame: String,
    /// The character of horizontal dividers.
    pub divider: String,
}

/// The plain content of a [`TaskStyle`], field by field.
pub struct StyleView {
    pub prefix_title: Seq<char>,
    pub prefix_active: Seq<char>,
    pub prefix_success: Seq<char>,
    pub prefix_fail: Seq<char>,
    pub prefix_skip: Seq<char>,
    pub prefix_wait: Seq<char>,
    pub run_frame: Seq<char>,
    pub divider: Seq<char>,
}

impl View for TaskStyle {
    type V = StyleView;

    open spec fn view(&self) -> StyleView {
        StyleView {
            prefix_title: self.prefix_title@,
            prefix_active: self.prefix_active@,
            prefix_success: self.prefix_success@,
            prefix_fail: self.prefix_fail@,
            prefix_skip: self.prefix_skip@,
            prefix_wait: self.prefix_wait@,
            run_frame: self.run_frame@,
            divider: self.divider@,
        }
    }
}

/// The modern unicode preset.
pub open spec fn modern_style() -> StyleView {
    StyleView {
        prefix_title: "▶"@,
        prefix_active: "> "@,
        prefix_success: "✔ "@,
        prefix_fail: "✖ "@,
        prefix_skip: "↷ "@,
        prefix_wait: "· "@,
        run_frame: "⠋⠙⠹⠸⠼⠴⠦⠧⠇⠏"@,
        divider: "─"@,
    }
}

/// The plain ASCII preset, for text and CI environments: every piece is ASCII.
pub open spec fn plain_style() -> StyleView {
    StyleView {
        prefix_title: "[TASK]"@,
        prefix_active: "> "@,
        prefix_success: "[SUCCESS]"@,
        prefix_fail: "[FAIL]"@,
        prefix_skip: "[SKIP]"@,
        prefix_wait: "[WAIT]"@,
        run_frame: "[START]"@,
        divider: "-"@,
    }
}

impl Clone for TaskStyle {
    fn clone(&self) -> (r: Self)
        ensures
            r@ == self@,
    {
        TaskStyle {
            prefix_title: self.prefix_title.clone(),
            prefix_active: self.prefix_active.clone(),
            prefix_success: self.prefix_success.clone(),
            prefix_fail: self.prefix_fail.clone(),
            prefix_skip: self.prefix_skip.clone(),
            prefix_wait: self.prefix_wait.clone(),
            run_frame: self.run_frame.clone(),
            divider: self.divider.clone(),
        }
    }
}

impl TaskStyle {
    /// A modern unicode style with clean icons and a braille spinner.
    pub fn modern() -> (s: Self)
        ensures
            s@ == modern_style(),
    {
        TaskStyle {
            prefix_title: String::from_str("▶"),
            prefix_success: String::from_str("✔ "),
            prefix_active: String::from_str("> "),
            prefix_fail: String::from_str("✖ "),
            prefix_skip: String::from_str("↷ "),
            prefix_wait: String::from_str("· "),
            run_frame: String::from_str("⠋⠙⠹⠸⠼⠴⠦⠧⠇⠏"),
            divider: String::from_str("─"),
        }
    }

    /// A plain ASCII style for text and CI environments.
    pub fn plain() -> (s: Self)
        ensures
            s@ == plain_style(),
    {
        TaskStyle {
            prefix_title: String::from_str("[TASK]"),
            prefix_success: String::from_str("[SUCCESS]"),
            prefix_active: String::from_str("> "),
            prefix_fail: String::from_str("[FAIL]"),
            prefix_skip: String::from_str("[SKIP]"),
            prefix_wait: String::from_str("[WAIT]"),
            run_frame: String::from_str("[START]"),
            divider: String::from_str("-"),
        }
    }
}

} // verus!
