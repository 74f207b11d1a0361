//! The prompt: which fragments it is made of, in which colors, and what is
//! written to the shell.

use crate::gfx::colors::{prompt_256color_bg_colors, ramp_code};
use crate::gfx::text::{
    rendered, FragmentView, NonPrintingWrappers, Rgb24, Style, StyledText, TermColor, TextBuilder,
};
use crate::utils::strings::str_eq;
use vstd::prelude::*;
use vstd::string::StringExecFns;

verus! {

/// What the terminal can show.
#[derive(Copy, Clone, Debug)]
pub struct Capabilities {
    /// Whether it shows 24-bit colors.
    pub truecolor: bool,
    /// Whether it shows the 256-color palette.
    pub color256: bool,
}

/// What was derived from the terminal's background.
#[derive(Copy, Clone, Debug)]
pub struct Accents {
    /// Whether the background is dark.
    pub is_dark: bool,
    /// The primary and the secondary accent as direct colors.
    pub truecolor: (Rgb24, Rgb24),
    /// The gray levels of the primary and the secondary accent: lightness
    /// times the number of ramp steps plus the first ramp code, rounded.
    pub ramp: (i64, i64),
}

/// What is known of the repository that the shell stands in.
pub struct RepoStatus {
    /// What is in progress there, if anything.
    pub state: Option<String>,
    /// What the head points to, if that is known.
    pub head: Option<String>,
    /// Whether there are changes that are not committed.
    pub dirty: bool,
}

/// A repository's status as a value.
pub ghost struct RepoStatusView {
    pub state: Option<Seq<char>>,
    pub head: Option<Seq<char>>,
    pub dirty: bool,
}

impl View for RepoStatus {
    type V = RepoStatusView;

    open spec fn view(&self) -> RepoStatusView {
        RepoStatusView {
            state: match self.state {
                Some(s) => Some(s@),
                None => None,
            },
            head: match self.head {
                Some(h) => Some(h@),
                None => None,
            },
            dirty: self.dirty,
        }
    }
}

/// The backgrounds of the path segment and of the repository segment. A
/// terminal with direct colors gets the blended accents, one with the
/// 256-color palette gets two grays of its ramp, and any other gets two of
/// the sixteen base colors, chosen by whether the background is dark.
pub open spec fn bg_colors_for(accents: Accents, caps: Capabilities) -> (TermColor, TermColor) {
    if caps.truecolor {
        (TermColor::Rgb(accents.truecolor.0), TermColor::Rgb(accents.truecolor.1))
    } else if caps.color256 {
        (
            TermColor::Palette(ramp_code(accents.ramp.0 as int)),
            TermColor::Palette(ramp_code(accents.ramp.1 as int)),
        )
    } else if accents.is_dark {
        (TermColor::Palette(8), TermColor::Palette(0))
    } else {
        (TermColor::Palette(7), TermColor::Palette(15))
    }
}

pub fn prompt_bg_colors(accents: &Accents, caps: &Capabilities) -> (colors: (TermColor, TermColor))
    ensures
        colors == bg_colors_for(*accents, *caps),
{
    if caps.truecolor {
        (TermColor::Rgb(accents.truecolor.0), TermColor::Rgb(accents.truecolor.1))
    } else if caps.color256 {
        let (a, b) = prompt_256color_bg_colors(accents.ramp);
        (TermColor::Palette(a), TermColor::Palette(b))
    } else if accents.is_dark {
        (TermColor::Palette(8), TermColor::Palette(0))
    } else {
        (TermColor::Palette(7), TermColor::Palette(15))
    }
}

/// The markers that `shell` wants around escapes: bash and zsh each have
/// their own, other shells have none.
pub open spec fn wrappers_for(shell: Seq<char>) -> Option<NonPrintingWrappers> {
    if shell == "bash"@ {
        Some(("\\[", "\\]"))
    } else if shell == "zsh"@ {
        Some(("%{", "%}"))
    } else {
        None
    }
}

pub fn wrappers_for_shell(shell: &str) -> (wrappers: Option<NonPrintingWrappers>)
    ensures
        wrappers == wrappers_for(shell@),
{
    if str_eq(shell, "bash") {
        Some(("\\[", "\\]"))
    } else if str_eq(shell, "zsh") {
        Some(("%{", "%}"))
    } else {
        None
    }
}

/// The green of the status words: the bright one on a dark background.
pub open spec fn status_green(is_dark: bool) -> TermColor {
    if is_dark {
        TermColor::Palette(10)
    } else {
        TermColor::Palette(2)
    }
}

/// The fragments of the repository segment. There are none without a
/// repository or without a head. Else a leading mark, the state if there
/// is one, the head, and a mark if there are changes.
pub open spec fn repo_fragments(git_bg: TermColor, is_dark: bool, repo: Option<RepoStatusView>) -> Seq<
    FragmentView,
> {
    match repo {
        Some(RepoStatusView { state, head: Some(head), dirty }) => {
            let plain = Style { fg: None, bg: Some(git_bg), bold: false };
            let marked = Style { fg: Some(status_green(is_dark)), bg: Some(git_bg), bold: is_dark };
            seq![FragmentView { text: " 🌵 "@, style: plain }] + (match state {
                Some(s) => seq![FragmentView { text: s + " "@, style: marked }],
                None => Seq::empty(),
            }) + seq![FragmentView { text: head + " "@, style: plain }] + (if dirty {
                seq![FragmentView { text: "! "@, style: marked }]
            } else {
                Seq::empty()
            })
        },
        _ => Seq::empty(),
    }
}

/// The fragments of the prompt, in order: a cap in the path segment's
/// color, the path on that color, the turn to the repository segment's
/// color, the repository segment, the turn back to the default background,
/// and the prompt symbol in bold on a line of its own.
pub open spec fn prompt_fragments(
    colors: (TermColor, TermColor),
    is_dark: bool,
    path: Option<Seq<char>>,
    repo: Option<RepoStatusView>,
) -> Seq<FragmentView> {
    let path_bg = colors.0;
    let git_bg = colors.1;
    let shown = match path {
        Some(p) => p,
        None => "🆘"@,
    };
    seq![
        FragmentView { text: "\n\u{e0b6}"@, style: Style { fg: Some(path_bg), bg: None, bold: false } },
        FragmentView {
            text: " "@ + shown + " "@,
            style: Style { fg: None, bg: Some(path_bg), bold: false },
        },
        FragmentView {
            text: "\u{e0b0}"@,
            style: Style { fg: Some(path_bg), bg: Some(git_bg), bold: false },
        },
    ] + repo_fragments(git_bg, is_dark, repo) + seq![
        FragmentView { text: "\u{e0b0}\n"@, style: Style { fg: Some(git_bg), bg: None, bold: false } },
        FragmentView {
            text: "\u{276f} "@,
            style: Style { fg: Some(status_green(is_dark)), bg: None, bold: true },
        },
    ]
}

/// `text` with one space after it.
fn spaced(text: &str) -> (out: String)
    ensures
        out@ == text@ + " "@,
{
    let mut out = String::from_str(text);
    out.append(" ");
    out
}

/// The prompt as styled text.
pub fn prompt_text(
    colors: (TermColor, TermColor),
    is_dark: bool,
    path: Option<&str>,
    repo: Option<&RepoStatus>,
) -> (styled: StyledText)
    ensures
        styled@ == prompt_fragments(
            colors,
            is_dark,
            match path {
                Some(p) => Some(p@),
                None => None,
            },
            match repo {
                Some(r) => Some(r@),
                None => None,
            },
        ),
{
    let path_bg = colors.0;
    let git_bg = colors.1;
    let green = if is_dark {
        Some(TermColor::Palette(10))
    } else {
        Some(TermColor::Palette(2))
    };
    let mut b = TextBuilder::new();
    b.fg(Some(path_bg)).text("\n\u{e0b6}");

    let mut shown = String::from_str(" ");
    match path {
        Some(p) => shown.append(p),
        None => shown.append("🆘"),
    }
    shown.append(" ");
    b.fg(None).bg(Some(path_bg)).text(shown.as_str());

    b.fg(Some(path_bg)).bg(Some(git_bg)).text("\u{e0b0}");
    let ghost head_part = b@.fragments;

    if let Some(r) = repo {
        if let Some(head) = &r.head {
            b.fg(None).text(" 🌵 ");
            if let Some(s) = &r.state {
                b.bold(is_dark).fg(green).text(spaced(s.as_str()).as_str()).bold(false);
            }
            b.fg(None).text(spaced(head.as_str()).as_str());
            if r.dirty {
                b.bold(is_dark).fg(green).text("! ").bold(false);
            }
        }
    }
    assert(b@.fragments == head_part + repo_fragments(
        git_bg,
        is_dark,
        match repo {
            Some(r) => Some(r@),
            None => None,
        },
    ));
    assert(b@.style.bg == Some(git_bg) && !b@.style.bold);

    b.fg(Some(git_bg)).bg(None).text("\u{e0b0}\n");
    b.bold(true).fg(green).text("\u{276f} ");
    b.build()
}

/// What is written for the prompt: its fragments with the escapes between
/// them, each escape within the markers of `shell`.
pub fn render_prompt(
    shell: &str,
    colors: (TermColor, TermColor),
    is_dark: bool,
    path: Option<&str>,
    repo: Option<&RepoStatus>,
) -> (out: String)
    ensures
        out@ == rendered(
            prompt_fragments(
                colors,
                is_dark,
                match path {
                    Some(p) => Some(p@),
                    None => None,
                },
                match repo {
                    Some(r) => Some(r@),
                    None => None,
                },
            ),
            wrappers_for(shell@),
        ),
{
    prompt_text(colors, is_dark, path, repo).render(wrappers_for_shell(shell))
}

} // verus!
