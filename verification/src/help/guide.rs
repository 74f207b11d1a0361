//! Instructions for setting the prompt up, and notes on terminals.

use crate::help::please::{rc_file_of, snippet_and_file, snippet_of};
use crate::utils::strings::str_eq;
use crate::utils::version::Version;
use vstd::prelude::*;
use vstd::string::StringExecFns;

verus! {

/// How to make the program `cmd` the prompt of `shell`.
pub open spec fn instructions_of(shell: Seq<char>, cmd: Seq<char>) -> Seq<char> {
    match (snippet_of(shell, cmd), rc_file_of(shell)) {
        (Some(snippet), Some(file)) => "To use "@ + cmd + " as your "@ + shell
            + " prompt, put this line at the end of ~/"@ + file + ":\n\n\x1b[1m"@ + snippet
            + "\x1b[0m"@,
        _ => "No help available for "@ + shell + ". Check "@ + shell
            + "'s docs to see how to set your prompt. Tip: to make "@ + cmd
            + " render a prompt, just call it with no arguments."@,
    }
}

pub fn installation_instructions(shell: &str, cmd: &str) -> (text: String)
    ensures
        text@ == instructions_of(shell@, cmd@),
{
    match snippet_and_file(shell, cmd) {
        Some((snippet, file)) => {
            let mut text = String::from_str("To use ");
            text.append(cmd);
            text.append(" as your ");
            text.append(shell);
            text.append(" prompt, put this line at the end of ~/");
            text.append(file);
            text.append(":\n\n\x1b[1m");
            text.append(snippet.as_str());
            text.append("\x1b[0m");
            text
        },
        None => {
            let mut text = String::from_str("No help available for ");
            text.append(shell);
            text.append(". Check ");
            text.append(shell);
            text.append("'s docs to see how to set your prompt. Tip: to make ");
            text.append(cmd);
            text.append(" render a prompt, just call it with no arguments.");
            text
        },
    }
}

/// The first major version of Apple's terminal that draws the prompt well.
pub const APPLE_TERMINAL_FIXED: u32 = 460;

/// What a user of the terminal should know, if anything. `terminal` is the
/// name by which the terminal program makes itself known, `version` the
/// version it reports.
pub open spec fn tips_of(terminal: Option<Seq<char>>, version: Option<Version>) -> Option<Seq<char>> {
    match terminal {
        Some(name) => if name == "Apple_Terminal"@ && version is Some && version.unwrap().major
            < APPLE_TERMINAL_FIXED {
            Some(
                "Before macOS Tahoe, Apple's Terminal.app has poor support for fancy prompts. Its color support is limited, and it does not render special powerline characters properly."@,
            )
        } else if name == "WarpTerminal"@ {
            Some(
                "By default, Warp uses its own prompt. See the Warp documentation on how to enable a custom prompt."@,
            )
        } else if name == "iTerm.app"@ {
            Some(
                "To make sure that iTerm draws the prompt correctly, enable: Settings → Profiles → Text → Use built-in Powerline glyphs"@,
            )
        } else {
            None
        },
        None => None,
    }
}

pub fn terminal_emulator_tips(terminal: Option<&str>, version: Option<Version>) -> (tips: Option<
    &'static str,
>)
    ensures
        match tips {
            Some(t) => tips_of(
                match terminal {
                    Some(name) => Some(name@),
                    None => None,
                },
                version,
            ) == Some(t@),
            None => tips_of(
                match terminal {
                    Some(name) => Some(name@),
                    None => None,
                },
                version,
            ) is None,
        },
{
    let name = match terminal {
        Some(name) => name,
        None => {
            return None;
        },
    };
    let old_apple = match version {
        Some(v) => v.major < APPLE_TERMINAL_FIXED,
        None => false,
    };
    if str_eq(name, "Apple_Terminal") && old_apple {
        Some(
            "Before macOS Tahoe, Apple's Terminal.app has poor support for fancy prompts. Its color support is limited, and it does not render special powerline characters properly.",
        )
    } else if str_eq(name, "WarpTerminal") {
        Some(
            "By default, Warp uses its own prompt. See the Warp documentation on how to enable a custom prompt.",
        )
    } else if str_eq(name, "iTerm.app") {
        Some(
            "To make sure that iTerm draws the prompt correctly, enable: Settings → Profiles → Text → Use built-in Powerline glyphs",
        )
    } else {
        None
    }
}

/// The upper-case form of a string, as `str::to_uppercase` gives it.
pub uninterp spec fn uppercased(s: Seq<char>) -> Seq<char>;

/// `str::to_uppercase` gives the upper-case form of the string, which
/// depends on nothing but the string.
#[verifier::external_body]
fn to_uppercase(s: &str) -> (upper: String)
    ensures
        upper@ == uppercased(s@),
{
    s.to_uppercase()
}

/// A title line: the capitalized title, green and underlined, and an
/// empty line after it.
pub open spec fn title_block(capitalized: Seq<char>) -> Seq<char> {
    "\x1b[32;4m"@ + capitalized + "\x1b[0m\n\n"@
}

/// The title line for a title that is already in upper case.
pub fn title_of(capitalized: &str) -> (block: String)
    ensures
        block@ == title_block(capitalized@),
{
    let mut block = String::from_str("\x1b[32;4m");
    block.append(capitalized);
    block.append("\x1b[0m\n\n");
    block
}

/// The title line for `title`.
pub fn title_line(title: &str) -> (block: String)
    ensures
        block@ == title_block(uppercased(title@)),
{
    title_of(to_uppercase(title).as_str())
}

/// The guide: how to set the prompt up, and what to know of the terminal,
/// each under its title and with an empty line after it.
pub open spec fn guide_of(
    shell: Seq<char>,
    pkg: Seq<char>,
    terminal: Option<Seq<char>>,
    version: Option<Version>,
) -> Seq<char> {
    title_block(uppercased("Installation"@)) + instructions_of(shell, pkg) + "\n\n"@ + (match tips_of(
        terminal,
        version,
    ) {
        Some(tips) => title_block(uppercased("Notes about your terminal emulator"@)) + tips
            + "\n\n"@,
        None => Seq::empty(),
    })
}

pub fn guide_text(shell: &str, pkg: &str, terminal: Option<&str>, version: Option<Version>) -> (text:
    String)
    ensures
        text@ == guide_of(
            shell@,
            pkg@,
            match terminal {
                Some(name) => Some(name@),
                None => None,
            },
            version,
        ),
{
    let mut text = title_line("Installation");
    text.append(installation_instructions(shell, pkg).as_str());
    text.append("\n\n");
    if let Some(tips) = terminal_emulator_tips(terminal, version) {
        text.append(title_line("Notes about your terminal emulator").as_str());
        text.append(tips);
        text.append("\n\n");
    }
    text
}

} // verus!
