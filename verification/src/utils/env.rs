//! What the environment says of the shell and the terminal. The values of
//! the variables are handed in: a variable that is not set, or that holds
//! no text, is handed in as nothing.

use crate::utils::path::{components_of, file_name, last_name};
use crate::utils::strings::{
    contains_ignore_ascii_case, eq_ignore_ascii_case, holds_ignoring_ascii_case,
    same_ignoring_ascii_case, str_eq,
};
use crate::utils::version::{parsed_version, Version};
use vstd::prelude::*;

verus! {

/// The name of the program that a variable such as `SHELL` names by its
/// path.
pub open spec fn program_of(variable: Option<Seq<char>>) -> Option<Seq<char>> {
    match variable {
        Some(path) => last_name(components_of(path)),
        None => None,
    }
}

/// The shell, from the value of `SHELL`.
pub fn env_shell(shell: Option<&str>) -> (name: Option<String>)
    ensures
        match name {
            Some(n) => program_of(
                match shell {
                    Some(s) => Some(s@),
                    None => None,
                },
            ) == Some(n@),
            None => program_of(
                match shell {
                    Some(s) => Some(s@),
                    None => None,
                },
            ) is None,
        },
{
    match shell {
        Some(path) => file_name(path),
        None => None,
    }
}

/// The terminal program, from the value of `TERM_PROGRAM`.
pub fn env_term_program(term_program: Option<&str>) -> (name: Option<String>)
    ensures
        match name {
            Some(n) => program_of(
                match term_program {
                    Some(s) => Some(s@),
                    None => None,
                },
            ) == Some(n@),
            None => program_of(
                match term_program {
                    Some(s) => Some(s@),
                    None => None,
                },
            ) is None,
        },
{
    match term_program {
        Some(path) => file_name(path),
        None => None,
    }
}

/// The version of the terminal program, from the value of
/// `TERM_PROGRAM_VERSION`.
pub fn env_term_version(term_program_version: Option<&str>) -> (version: Option<Version>)
    ensures
        version == match term_program_version {
            Some(v) => parsed_version(v@),
            None => None,
        },
{
    match term_program_version {
        Some(v) => Version::parse(v),
        None => None,
    }
}

/// Whether the terminal shows 24-bit colors, from the value of
/// `COLORTERM`: it says `truecolor` or `24bit`, in any case.
pub fn supports_truecolor(colorterm: Option<&str>) -> (supported: bool)
    ensures
        supported == match colorterm {
            Some(v) => same_ignoring_ascii_case(v@, "truecolor"@) || same_ignoring_ascii_case(
                v@,
                "24bit"@,
            ),
            None => false,
        },
{
    match colorterm {
        Some(v) => eq_ignore_ascii_case(v, "truecolor") || eq_ignore_ascii_case(v, "24bit"),
        None => false,
    }
}

/// Whether the terminal shows the 256-color palette, from the value of
/// `TERM`: it holds `256color`, in any case.
pub fn supports_256color(term: Option<&str>) -> (supported: bool)
    ensures
        supported == match term {
            Some(v) => holds_ignoring_ascii_case(v@, "256color"@),
            None => false,
        },
{
    match term {
        Some(v) => contains_ignore_ascii_case(v, "256color"),
        None => false,
    }
}

/// Whether an argument says yes to every question.
pub open spec fn says_yes(arg: Seq<char>) -> bool {
    arg == "--yes"@ || arg == "-y"@ || arg == "--yolo"@
}

/// Whether one of the arguments says yes to every question.
pub fn yolo_mode(args: &Vec<String>) -> (yes: bool)
    ensures
        yes == exists|i: int| 0 <= i < args.len() && says_yes(#[trigger] args[i]@),
{
    let mut i: usize = 0;
    while i < args.len()
        invariant
            i <= args.len(),
            forall|j: int| 0 <= j < i ==> !says_yes(#[trigger] args[j]@),
        decreases args.len() - i,
    {
        let arg = args[i].as_str();
        if str_eq(arg, "--yes") || str_eq(arg, "-y") || str_eq(arg, "--yolo") {
            return true;
        }
        i += 1;
    }
    false
}

} // verus!
