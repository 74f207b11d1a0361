//! The lines that make a shell call the prompt.

use crate::utils::strings::str_eq;
use vstd::prelude::*;
use vstd::string::StringExecFns;

verus! {

/// The script that makes `shell` call the program `pkg` for its prompt,
/// each line with its line end. A shell that has no such script gets
/// nothing.
pub open spec fn init_script_of(shell: Seq<char>, pkg: Seq<char>) -> Seq<char> {
    if shell == "bash"@ {
        "PROMPT_COMMAND='PS1=\"$(command "@ + pkg + " bash)\"'\n"@
    } else if shell == "zsh"@ {
        "gigawatt_precmd() { PROMPT=\"$(command "@ + pkg + " zsh)\"; }\n"@
            + "autoload -Uz add-zsh-hook\n"@ + "add-zsh-hook precmd gigawatt_precmd\n"@
    } else if shell == "fish"@ {
        "function fish_prompt; command "@ + pkg + " fish; end\n"@
    } else {
        Seq::empty()
    }
}

pub fn init_script(shell: &str, pkg: &str) -> (script: String)
    ensures
        script@ == init_script_of(shell@, pkg@),
{
    let mut script = String::new();
    if str_eq(shell, "bash") {
        script.append("PROMPT_COMMAND='PS1=\"$(command ");
        script.append(pkg);
        script.append(" bash)\"'\n");
    } else if str_eq(shell, "zsh") {
        script.append("gigawatt_precmd() { PROMPT=\"$(command ");
        script.append(pkg);
        script.append(" zsh)\"; }\n");
        script.append("autoload -Uz add-zsh-hook\n");
        script.append("add-zsh-hook precmd gigawatt_precmd\n");
    } else if str_eq(shell, "fish") {
        script.append("function fish_prompt; command ");
        script.append(pkg);
        script.append(" fish; end\n");
    }
    script
}

} // verus!
