//! The report that shows what the program found.

use crate::gfx::text::Rgb24;
use crate::utils::strings::{decimal, push_decimal};
use vstd::prelude::*;
use vstd::string::StringExecFns;

verus! {

/// What was found in a repository.
pub struct RepoFindings {
    /// The word for what is in progress there, if anything.
    pub state: Option<String>,
    /// The description of its head, if that is known.
    pub head: Option<String>,
    /// Whether it has changes.
    pub dirty: bool,
}

/// What the program found.
pub struct Findings {
    /// The current directory.
    pub current_path: Option<String>,
    /// The home directory.
    pub home: Option<String>,
    /// The working directory of the repository.
    pub workdir: Option<String>,
    /// The path that the prompt shows.
    pub display_path: Option<String>,
    /// The repository, if the current directory lies in one.
    pub repo: Option<RepoFindings>,
    /// The background color of the terminal.
    pub background: Option<Rgb24>,
    /// Whether the terminal shows 24-bit colors.
    pub truecolor: bool,
    /// Whether the terminal shows the 256-color palette.
    pub color256: bool,
}

/// How a truth value is written.
pub open spec fn bool_text(b: bool) -> Seq<char> {
    if b {
        "true"@
    } else {
        "false"@
    }
}

/// The text of a string that may be missing: nothing where it is.
pub open spec fn text_or_empty(text: Option<String>) -> Seq<char> {
    match text {
        Some(t) => t@,
        None => Seq::empty(),
    }
}

/// How a color is written: its three bytes in decimal.
pub open spec fn color_text(color: Option<Rgb24>) -> Seq<char> {
    match color {
        Some(c) => decimal(c.0 as nat) + ", "@ + decimal(c.1 as nat) + ", "@ + decimal(c.2 as nat),
        None => Seq::empty(),
    }
}

/// The lines on a repository: its state, or that it is clean; its head;
/// and whether it has changes.
pub open spec fn repo_lines(repo: Option<RepoFindings>) -> Seq<Seq<char>> {
    match repo {
        Some(r) => seq![
            "Repo state: "@ + (match r.state {
                Some(s) => s@,
                None => "Clean"@,
            }),
            "Repo head: "@ + text_or_empty(r.head),
            "Repo dirty: "@ + bool_text(r.dirty),
        ],
        None => Seq::empty(),
    }
}

/// The lines of the report, in order.
pub open spec fn report_of(found: Findings) -> Seq<Seq<char>> {
    seq![
        "Is in repo: "@ + bool_text(found.repo is Some),
        "Current path: "@ + text_or_empty(found.current_path),
        "Home directory: "@ + text_or_empty(found.home),
        "Working directory: "@ + text_or_empty(found.workdir),
        "Path to display: "@ + text_or_empty(found.display_path),
    ] + repo_lines(found.repo) + seq![
        "Terminal background: "@ + color_text(found.background),
        "Terminal supports truecolor: "@ + bool_text(found.truecolor),
        "Terminal supports xterm-256color: "@ + bool_text(found.color256),
    ]
}

/// The views of strings, in order.
pub open spec fn line_views(lines: Seq<String>) -> Seq<Seq<char>> {
    Seq::new(lines.len(), |i: int| lines[i]@)
}

fn labelled(label: &str, value: &Option<String>) -> (line: String)
    ensures
        line@ == label@ + text_or_empty(*value),
{
    let mut line = String::from_str(label);
    if let Some(v) = value {
        line.append(v.as_str());
    }
    line
}

fn labelled_bool(label: &str, value: bool) -> (line: String)
    ensures
        line@ == label@ + bool_text(value),
{
    let mut line = String::from_str(label);
    if value {
        line.append("true");
    } else {
        line.append("false");
    }
    line
}

pub fn debug_report(found: &Findings) -> (lines: Vec<String>)
    ensures
        line_views(lines@) == report_of(*found),
{
    let mut lines: Vec<String> = Vec::new();
    lines.push(labelled_bool("Is in repo: ", found.repo.is_some()));
    lines.push(labelled("Current path: ", &found.current_path));
    lines.push(labelled("Home directory: ", &found.home));
    lines.push(labelled("Working directory: ", &found.workdir));
    lines.push(labelled("Path to display: ", &found.display_path));
    let ghost head = seq![
        "Is in repo: "@ + bool_text(found.repo is Some),
        "Current path: "@ + text_or_empty(found.current_path),
        "Home directory: "@ + text_or_empty(found.home),
        "Working directory: "@ + text_or_empty(found.workdir),
        "Path to display: "@ + text_or_empty(found.display_path),
    ];
    assert(line_views(lines@) =~= head);
    if let Some(r) = &found.repo {
        let mut state = String::from_str("Repo state: ");
        match &r.state {
            Some(s) => state.append(s.as_str()),
            None => state.append("Clean"),
        }
        lines.push(state);
        lines.push(labelled("Repo head: ", &r.head));
        lines.push(labelled_bool("Repo dirty: ", r.dirty));
    }
    assert(line_views(lines@) =~= head + repo_lines(found.repo));
    let ghost middle = line_views(lines@);
    let mut background = String::from_str("Terminal background: ");
    if let Some(c) = found.background {
        push_decimal(&mut background, c.0 as u32);
        background.append(", ");
        push_decimal(&mut background, c.1 as u32);
        background.append(", ");
        push_decimal(&mut background, c.2 as u32);
    }
    assert(background@ =~= "Terminal background: "@ + color_text(found.background));
    lines.push(background);
    lines.push(labelled_bool("Terminal supports truecolor: ", found.truecolor));
    lines.push(labelled_bool("Terminal supports xterm-256color: ", found.color256));
    assert(line_views(lines@) =~= middle + seq![
        "Terminal background: "@ + color_text(found.background),
        "Terminal supports truecolor: "@ + bool_text(found.truecolor),
        "Terminal supports xterm-256color: "@ + bool_text(found.color256),
    ]);
    lines
}

} // verus!
