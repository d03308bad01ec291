//! Colours: of a pipeline's status, of a line of a job's log, and of text
//! on a terminal.

use vstd::prelude::*;
use vstd::string::StringExecFns;
use crate::text::{contains_text, has_text, occurs_at, same_text};

verus! {

/// A colour of text.
#[derive(Debug, Clone, Copy, PartialEq, Eq, Structural)]
pub enum Tint {
    Red,
    Yellow,
    Green,
}

/// How grave a line of a job's log is.
#[derive(Debug, Clone, Copy, PartialEq, Eq, Structural)]
pub enum Severity {
    Error,
    Warning,
    Info,
}

impl Severity {
    /// The colour in which a line of this severity is shown.
    pub open spec fn tint(self) -> Tint {
        match self {
            Severity::Error => Tint::Red,
            Severity::Warning => Tint::Yellow,
            Severity::Info => Tint::Green,
        }
    }

    /// The colour in which a line of this severity is shown.
    pub fn color(&self) -> (tint: Tint)
        ensures
            tint == self.tint(),
    {
        match self {
            Severity::Error => Tint::Red,
            Severity::Warning => Tint::Yellow,
            Severity::Info => Tint::Green,
        }
    }
}

/// The severity of `line`: an error where it holds `ERROR`, else a warning
/// where it holds `WARNING`, else plain information.
pub open spec fn severity_of(line: Seq<char>) -> Severity {
    if has_text(line, "ERROR"@) {
        Severity::Error
    } else if has_text(line, "WARNING"@) {
        Severity::Warning
    } else {
        Severity::Info
    }
}

/// Tells how grave a line of a job's log is.
pub fn classify_line(line: &str) -> (severity: Severity)
    ensures
        severity == severity_of(line@),
{
    if contains_text(line, "ERROR") {
        Severity::Error
    } else if contains_text(line, "WARNING") {
        Severity::Warning
    } else {
        Severity::Info
    }
}

/// A line that holds `ERROR` is red, also where it holds `WARNING` too; a
/// line that holds neither is green.
pub proof fn lemma_error_comes_first(line: Seq<char>)
    ensures
        has_text(line, "ERROR"@) ==> severity_of(line).tint() == Tint::Red,
        !has_text(line, "ERROR"@) && has_text(line, "WARNING"@) ==> severity_of(line).tint()
            == Tint::Yellow,
        !has_text(line, "ERROR"@) && !has_text(line, "WARNING"@) ==> severity_of(line).tint()
            == Tint::Green,
{
}

/// The mark of a pipeline that succeeded.
pub open spec fn success_mark() -> Seq<char> {
    "✅"@
}

/// The mark of a pipeline that failed.
pub open spec fn failure_mark() -> Seq<char> {
    "❌"@
}

/// How the status `label` of a pipeline is shown: `success` in green after
/// its mark, `failed` in red after its mark, any other status as it is.
pub open spec fn colored_status(label: Seq<char>) -> Seq<char> {
    if label == "success"@ {
        "\x1b[32m"@ + success_mark() + " success"@ + "\x1b[0m"@
    } else if label == "failed"@ {
        "\x1b[31m"@ + failure_mark() + " failed"@ + "\x1b[0m"@
    } else {
        label
    }
}

/// Shows the status of a pipeline in its colour.
pub fn colorize_status(status: &str) -> (shown: String)
    ensures
        shown@ == colored_status(status@),
{
    if same_text(status, "success") {
        let mut shown = String::from_str("\x1b[32m");
        shown.append("✅");
        shown.append(" success");
        shown.append("\x1b[0m");
        shown
    } else if same_text(status, "failed") {
        let mut shown = String::from_str("\x1b[31m");
        shown.append("❌");
        shown.append(" failed");
        shown.append("\x1b[0m");
        shown
    } else {
        String::from_str(status)
    }
}

/// The status `success` is shown with the mark of success, `failed` with
/// the mark of failure, and any other status unchanged.
pub proof fn lemma_status_marks(label: Seq<char>)
    ensures
        label == "success"@ ==> has_text(colored_status(label), success_mark()),
        label == "failed"@ ==> has_text(colored_status(label), failure_mark()),
        label != "success"@ && label != "failed"@ ==> colored_status(label) == label,
{
    let shown = colored_status(label);
    reveal_strlit("success");
    reveal_strlit("failed");
    assert("success"@.len() == 7 && "failed"@.len() == 6);
    if label == "success"@ {
        let at = "\x1b[32m"@.len() as int;
        assert(shown.subrange(at, at + success_mark().len()) =~= success_mark());
        assert(occurs_at(shown, success_mark(), at));
    } else if label == "failed"@ {
        let at = "\x1b[31m"@.len() as int;
        assert(shown.subrange(at, at + failure_mark().len()) =~= failure_mark());
        assert(occurs_at(shown, failure_mark(), at));
    }
}

/// The sequence that switches a terminal to the colour `tint`.
pub open spec fn tint_code(tint: Tint) -> Seq<char> {
    match tint {
        Tint::Red => "\x1b[31m"@,
        Tint::Yellow => "\x1b[33m"@,
        Tint::Green => "\x1b[32m"@,
    }
}

/// The sequence that switches a terminal back to its own colour.
pub open spec fn reset_code() -> Seq<char> {
    "\x1b[0m"@
}

/// `text` with `style` put in again after every reset sequence in it.
pub open spec fn restyled(text: Seq<char>, style: Seq<char>) -> Seq<char>
    decreases text.len(),
{
    if text.len() == 0 {
        text
    } else if text.len() >= 4 && text.subrange(0, 4) == reset_code() {
        reset_code() + style + restyled(text.skip(4), style)
    } else {
        seq![text[0]] + restyled(text.skip(1), style)
    }
}

/// `text` as it is written in the colour `tint` where colours are written:
/// after the colour's sequence and before the reset sequence, with the
/// colour's sequence again after every reset sequence that it holds itself.
pub open spec fn painted(text: Seq<char>, tint: Tint) -> Seq<char> {
    tint_code(tint) + restyled(text, tint_code(tint)) + reset_code()
}

/// A text that holds no reset sequence is written in colour as it is,
/// between the colour's sequence and the reset sequence.
pub proof fn lemma_painted_plain(text: Seq<char>, tint: Tint)
    requires
        !has_text(text, reset_code()),
    ensures
        painted(text, tint) == tint_code(tint) + text + reset_code(),
{
    lemma_restyled_plain(text, tint_code(tint));
}

proof fn lemma_restyled_plain(text: Seq<char>, style: Seq<char>)
    requires
        !has_text(text, reset_code()),
    ensures
        restyled(text, style) == text,
    decreases text.len(),
{
    reveal_strlit("\x1b[0m");
    assert(reset_code().len() == 4);
    if text.len() > 0 {
        assert(!occurs_at(text, reset_code(), 0));
        let rest = text.skip(1);
        assert forall|at: int| !occurs_at(rest, reset_code(), at) by {
            if occurs_at(rest, reset_code(), at) {
                assert(rest.subrange(at, at + 4) =~= text.subrange(at + 1, at + 5));
                assert(occurs_at(text, reset_code(), at + 1));
            }
        }
        lemma_restyled_plain(rest, style);
        assert(seq![text[0]] + rest =~= text);
    }
}

/// `text` as it is written to a terminal in the colour `tint`.
///
/// Trusted: `colored::Colorize::color` on a `&str`, and the `Display` of the
/// `ColoredString` it gives. Whether colours are written depends on the
/// environment, so either the text comes back as it is, or it comes back
/// after the colour's sequence and before the reset sequence, with the
/// colour's sequence put in again after every reset sequence of its own.
#[verifier::external_body]
pub(crate) fn paint(text: &str, tint: Tint) -> (shown: String)
    ensures
        shown@ == text@ || shown@ == painted(text@, tint),
{
    let color = match tint {
        Tint::Red => colored::Color::Red,
        Tint::Yellow => colored::Color::Yellow,
        Tint::Green => colored::Color::Green,
    };
    colored::Colorize::color(text, color).to_string()
}

} // verus!
