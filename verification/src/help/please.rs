//! Adding the line that starts the prompt to a shell's rc file: what the
//! line is, whether a file already holds it, and what is done next.

use crate::gfx::text::{bold, bold_text, green, green_text};
use crate::utils::strings::{chars_of, eq_ignore_ascii_case, same_ignoring_ascii_case, str_eq, string_of};
use vstd::prelude::*;
use vstd::string::StringExecFns;

verus! {

/// The line that starts the prompt in `shell`, for the program `cmd`.
pub open spec fn snippet_of(shell: Seq<char>, cmd: Seq<char>) -> Option<Seq<char>> {
    if shell == "bash"@ {
        Some("eval \"$("@ + cmd + " init bash)\""@)
    } else if shell == "zsh"@ {
        Some("eval \"$("@ + cmd + " init zsh)\""@)
    } else if shell == "fish"@ {
        Some(cmd + " init fish | source"@)
    } else {
        None
    }
}

/// The rc file of `shell`, from the home directory.
pub open spec fn rc_file_of(shell: Seq<char>) -> Option<Seq<char>> {
    if shell == "bash"@ {
        Some(".bashrc"@)
    } else if shell == "zsh"@ {
        Some(".zshrc"@)
    } else if shell == "fish"@ {
        Some(".config/fish/config.fish"@)
    } else {
        None
    }
}

pub fn snippet_and_file(shell: &str, cmd: &str) -> (found: Option<(String, &'static str)>)
    ensures
        match found {
            Some((snippet, file)) => snippet_of(shell@, cmd@) == Some(snippet@) && rc_file_of(shell@)
                == Some(file@),
            None => snippet_of(shell@, cmd@) is None && rc_file_of(shell@) is None,
        },
{
    if str_eq(shell, "bash") {
        let mut snippet = String::from_str("eval \"$(");
        snippet.append(cmd);
        snippet.append(" init bash)\"");
        Some((snippet, ".bashrc"))
    } else if str_eq(shell, "zsh") {
        let mut snippet = String::from_str("eval \"$(");
        snippet.append(cmd);
        snippet.append(" init zsh)\"");
        Some((snippet, ".zshrc"))
    } else if str_eq(shell, "fish") {
        let mut snippet = String::from_str(cmd);
        snippet.append(" init fish | source");
        Some((snippet, ".config/fish/config.fish"))
    } else {
        None
    }
}

/// Whether `c` is white space.
pub open spec fn is_whitespace(c: char) -> bool {
    ||| '\u{9}' <= c <= '\u{d}'
    ||| c == ' '
    ||| c == '\u{85}'
    ||| c == '\u{a0}'
    ||| c == '\u{1680}'
    ||| '\u{2000}' <= c <= '\u{200a}'
    ||| c == '\u{2028}'
    ||| c == '\u{2029}'
    ||| c == '\u{202f}'
    ||| c == '\u{205f}'
    ||| c == '\u{3000}'
}

/// The length of `s` without the white space at its end.
pub open spec fn trimmed_end(s: Seq<char>) -> nat
    decreases s.len(),
{
    if s.len() > 0 && is_whitespace(s.last()) {
        trimmed_end(s.drop_last())
    } else {
        s.len()
    }
}

/// The number of white space characters at the start of `s`.
pub open spec fn leading_whitespace(s: Seq<char>) -> nat
    decreases s.len(),
{
    if s.len() > 0 && is_whitespace(s[0]) {
        1 + leading_whitespace(s.drop_first())
    } else {
        0
    }
}

/// `s` without the white space at its start and at its end.
pub open spec fn trimmed(s: Seq<char>) -> Seq<char> {
    let body = s.take(trimmed_end(s) as int);
    body.skip(leading_whitespace(body) as int)
}

fn is_whitespace_char(c: char) -> (r: bool)
    ensures
        r == is_whitespace(c),
{
    ('\u{9}' <= c && c <= '\u{d}') || c == ' ' || c == '\u{85}' || c == '\u{a0}' || c == '\u{1680}'
        || ('\u{2000}' <= c && c <= '\u{200a}') || c == '\u{2028}' || c == '\u{2029}' || c
        == '\u{202f}' || c == '\u{205f}' || c == '\u{3000}'
}

/// Where what is left of `chars` after trimming starts and ends.
fn trim_bounds(chars: &Vec<char>) -> (bounds: (usize, usize))
    ensures
        bounds.0 <= bounds.1 <= chars.len(),
        chars@.subrange(bounds.0 as int, bounds.1 as int) == trimmed(chars@),
{
    let mut end: usize = chars.len();
    assert(chars@.take(end as int) == chars@);
    while end > 0 && is_whitespace_char(chars[end - 1])
        invariant
            end <= chars.len(),
            trimmed_end(chars@) == trimmed_end(chars@.take(end as int)),
        decreases end,
    {
        assert(chars@.take(end as int).drop_last() == chars@.take(end - 1));
        end -= 1;
    }
    let ghost body = chars@.take(end as int);
    let mut start: usize = 0;
    assert(body.skip(0) == body);
    while start < end && is_whitespace_char(chars[start])
        invariant
            start <= end <= chars.len(),
            body == chars@.take(end as int),
            start + leading_whitespace(body.skip(start as int)) == leading_whitespace(body),
        decreases end - start,
    {
        assert(body.skip(start as int).drop_first() == body.skip(start + 1));
        start += 1;
    }
    assert(body.skip(start as int) == chars@.subrange(start as int, end as int));
    (start, end)
}

/// Whether a line of an rc file holds the snippet: after the white space
/// that it starts with, the snippet stands.
pub open spec fn holds_snippet(line: Seq<char>, snippet: Seq<char>) -> bool {
    snippet.is_prefix_of(trimmed(line))
}

pub fn line_has_snippet(line: &str, snippet: &str) -> (holds: bool)
    ensures
        holds == holds_snippet(line@, snippet@),
{
    let chars = chars_of(line);
    let wanted = chars_of(snippet);
    let (start, end) = trim_bounds(&chars);
    let ghost body = trimmed(line@);
    if wanted.len() > end - start {
        return false;
    }
    let mut i: usize = 0;
    while i < wanted.len()
        invariant
            i <= wanted.len() <= end - start,
            start <= end <= chars.len(),
            body == chars@.subrange(start as int, end as int),
            body == trimmed(line@),
            wanted@ == snippet@,
            forall|j: int| 0 <= j < i ==> wanted[j] == body[j],
        decreases wanted.len() - i,
    {
        if chars[start + i] != wanted[i] {
            assert(body.subrange(0, snippet@.len() as int)[i as int] != snippet@[i as int]);
            return false;
        }
        i += 1;
    }
    assert(snippet@ =~= body.subrange(0, snippet@.len() as int));
    true
}

/// The line that is added to an rc file, after an empty one.
pub open spec fn snippet_line_of(snippet: Seq<char>, pkg: Seq<char>) -> Seq<char> {
    "\n"@ + snippet + " # Added by "@ + pkg + "\n"@
}

pub fn snippet_line(snippet: &str, pkg: &str) -> (line: String)
    ensures
        line@ == snippet_line_of(snippet@, pkg@),
{
    let mut line = String::from_str("\n");
    line.append(snippet);
    line.append(" # Added by ");
    line.append(pkg);
    line.append("\n");
    line
}

/// What an answer to the question whether to go on says: no for `no` and
/// `n` in any case, yes for an empty answer, and nothing for any other. The
/// white space around the answer does not count.
pub open spec fn answer_of(input: Seq<char>) -> Option<bool> {
    let answer = trimmed(input);
    if same_ignoring_ascii_case(answer, "no"@) || same_ignoring_ascii_case(answer, "n"@) {
        Some(false)
    } else if answer.len() == 0 {
        Some(true)
    } else {
        None
    }
}

pub fn classify_answer(input: &str) -> (answer: Option<bool>)
    ensures
        answer == answer_of(input@),
{
    let chars = chars_of(input);
    let (start, end) = trim_bounds(&chars);
    let answer = string_of(&chars, start, end);
    if eq_ignore_ascii_case(answer.as_str(), "no") || eq_ignore_ascii_case(answer.as_str(), "n") {
        Some(false)
    } else if start == end {
        Some(true)
    } else {
        None
    }
}

/// What is known while an rc file is being set up.
#[derive(Copy, Clone, Debug)]
pub struct RcKnown {
    /// Whether the home directory is known.
    pub has_home: bool,
    /// Whether the rc file holds the snippet, once it has been read.
    pub has_snippet: Option<bool>,
    /// Whether the user agreed, once asked.
    pub confirmed: Option<bool>,
    /// Whether the line has been added.
    pub appended: bool,
}

/// What to do next while an rc file is being set up.
#[derive(Debug)]
pub enum RcAction {
    /// Give up, with this message.
    Fail(String),
    /// Find out whether the file holds the snippet.
    Check { file: &'static str, snippet: String },
    /// Ask the user whether to go on.
    Ask { question: String },
    /// Add the line to the file.
    Append { file: &'static str, line: String },
    /// Stop, with this message.
    Done(String),
}

/// An action as a value.
pub ghost enum RcActionView {
    Fail(Seq<char>),
    Check { file: Seq<char>, snippet: Seq<char> },
    Ask { question: Seq<char> },
    Append { file: Seq<char>, line: Seq<char> },
    Done(Seq<char>),
}

impl View for RcAction {
    type V = RcActionView;

    open spec fn view(&self) -> RcActionView {
        match self {
            RcAction::Fail(message) => RcActionView::Fail(message@),
            RcAction::Check { file, snippet } => RcActionView::Check { file: file@, snippet: snippet@ },
            RcAction::Ask { question } => RcActionView::Ask { question: question@ },
            RcAction::Append { file, line } => RcActionView::Append { file: file@, line: line@ },
            RcAction::Done(message) => RcActionView::Done(message@),
        }
    }
}

/// The question that is asked before an rc file is changed.
pub open spec fn question_of(shell: Seq<char>, file: Seq<char>) -> Seq<char> {
    "📦 Adding the "@ + bold_text(shell) + " prompt line to your ~/"@ + bold_text(file) + "…"@
}

/// What to do next. Without a home directory or for a shell without an rc
/// file, give up. Else read the file; stop if it holds the snippet; ask;
/// stop if the answer is no; add the line; and stop.
pub open spec fn rc_action_of(shell: Seq<char>, pkg: Seq<char>, known: RcKnown) -> RcActionView {
    if !known.has_home {
        RcActionView::Fail("Could not determine your home directory"@)
    } else {
        match (snippet_of(shell, pkg), rc_file_of(shell)) {
            (Some(snippet), Some(file)) => match known.has_snippet {
                None => RcActionView::Check { file, snippet },
                Some(true) => RcActionView::Done(
                    "Your ~/"@ + file
                        + " already has the required line. The prompt should appear in your next terminal session."@,
                ),
                Some(false) => match known.confirmed {
                    None => RcActionView::Ask { question: question_of(shell, file) },
                    Some(false) => RcActionView::Done("Nothing changed."@),
                    Some(true) => if known.appended {
                        RcActionView::Done("Done!"@)
                    } else {
                        RcActionView::Append { file, line: snippet_line_of(snippet, pkg) }
                    },
                },
            },
            _ => RcActionView::Fail("The "@ + bold_text(shell) + " shell is not supported"@),
        }
    }
}

pub fn update_shell_rc(shell: &str, pkg: &str, known: &RcKnown) -> (action: RcAction)
    ensures
        action@ == rc_action_of(shell@, pkg@, *known),
{
    if !known.has_home {
        return RcAction::Fail(String::from_str("Could not determine your home directory"));
    }
    let (snippet, file) = match snippet_and_file(shell, pkg) {
        Some(found) => found,
        None => {
            let mut message = String::from_str("The ");
            message.append(bold(shell).as_str());
            message.append(" shell is not supported");
            return RcAction::Fail(message);
        },
    };
    match known.has_snippet {
        None => RcAction::Check { file, snippet },
        Some(true) => {
            let mut message = String::from_str("Your ~/");
            message.append(file);
            message.append(
                " already has the required line. The prompt should appear in your next terminal session.",
            );
            RcAction::Done(message)
        },
        Some(false) => match known.confirmed {
            None => {
                let mut question = String::from_str("📦 Adding the ");
                question.append(bold(shell).as_str());
                question.append(" prompt line to your ~/");
                question.append(bold(file).as_str());
                question.append("…");
                RcAction::Ask { question }
            },
            Some(false) => RcAction::Done(String::from_str("Nothing changed.")),
            Some(true) => if known.appended {
                RcAction::Done(String::from_str("Done!"))
            } else {
                RcAction::Append { file, line: snippet_line(snippet.as_str(), pkg) }
            },
        },
    }
}

/// What is said before an rc file is looked at.
pub open spec fn notices_of(shell: Seq<char>, pkg: Seq<char>) -> Seq<Seq<char>> {
    seq![
        "📦 Setting up "@ + pkg + " as your shell prompt"@,
        "📦 Your shell seems to be "@ + bold_text(shell),
    ]
}

pub fn update_notices(shell: &str, pkg: &str) -> (notices: (String, String))
    ensures
        seq![notices.0@, notices.1@] == notices_of(shell@, pkg@),
{
    let mut first = String::from_str("📦 Setting up ");
    first.append(pkg);
    first.append(" as your shell prompt");
    let mut second = String::from_str("📦 Your shell seems to be ");
    second.append(bold(shell).as_str());
    (first, second)
}

/// What is written before an answer is read.
pub fn confirm_prompt() -> (prompt: String)
    ensures
        prompt@ == green_text("Press Enter to continue or type \"no\" to cancel"@) + ": "@,
{
    let mut prompt = green("Press Enter to continue or type \"no\" to cancel");
    prompt.append(": ");
    prompt
}

/// The line that reports how the set-up ended: the message after a mark
/// for success or for failure.
pub open spec fn outcome_of(outcome: Result<Seq<char>, Seq<char>>) -> Seq<char> {
    match outcome {
        Ok(message) => "✅ "@ + message,
        Err(message) => "🆘 Error: "@ + message,
    }
}

pub fn outcome_line(outcome: Result<&str, &str>) -> (line: String)
    ensures
        line@ == outcome_of(
            match outcome {
                Ok(m) => Ok(m@),
                Err(m) => Err(m@),
            },
        ),
{
    match outcome {
        Ok(message) => {
            let mut line = String::from_str("✅ ");
            line.append(message);
            line
        },
        Err(message) => {
            let mut line = String::from_str("🆘 Error: ");
            line.append(message);
            line
        },
    }
}

/// The note on the terminal that follows the set-up, with an empty line
/// after it.
pub fn tips_note(tips: &str) -> (note: String)
    ensures
        note@ == "🔔 "@ + tips@ + "\n\n"@,
{
    let mut note = String::from_str("🔔 ");
    note.append(tips);
    note.append("\n\n");
    note
}

} // verus!
