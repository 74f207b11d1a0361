//! The command line: which commands there are, how they are written, and
//! what an invocation asks for.

use crate::gfx::text::{green, green_text};
use crate::utils::strings::{
    eq_ignore_ascii_case, join_strs, joined, push_spaces, same_ignoring_ascii_case, spaces,
    str_views,
};
use vstd::prelude::*;
use vstd::string::StringExecFns;
use vstd::string::StringSliceAdditionalSpecFns;
use vstd::utf8::encode_utf8;

verus! {

/// What an invocation asks for.
#[derive(Debug)]
#[allow(inconsistent_fields)]
pub enum Invocation {
    /// A command that works for a shell. The prompt itself has no name.
    Shell { name: &'static str, shell: String },
    /// A command that needs no shell.
    Bare { name: &'static str },
    /// No command of ours.
    Unknown { name: String },
}

/// An invocation as a value.
pub ghost enum InvocationView {
    Shell { name: Seq<char>, shell: Seq<char> },
    Bare { name: Seq<char> },
    Unknown { name: Seq<char> },
}

impl View for Invocation {
    type V = InvocationView;

    open spec fn view(&self) -> InvocationView {
        match self {
            Invocation::Shell { name, shell } => InvocationView::Shell { name: name@, shell: shell@ },
            Invocation::Bare { name } => InvocationView::Bare { name: name@ },
            Invocation::Unknown { name } => InvocationView::Unknown { name: name@ },
        }
    }
}

/// A command: its name, other ways to write it, what it is for, and
/// whether it works for a shell.
pub struct Command {
    pub name: &'static str,
    pub aliases: Vec<&'static str>,
    pub description: &'static str,
    pub wants_shell: bool,
}

/// A command as a value.
pub ghost struct CommandView {
    pub name: Seq<char>,
    pub aliases: Seq<Seq<char>>,
    pub description: Seq<char>,
    pub wants_shell: bool,
}

impl View for Command {
    type V = CommandView;

    open spec fn view(&self) -> CommandView {
        CommandView {
            name: self.name@,
            aliases: str_views(self.aliases@),
            description: self.description@,
            wants_shell: self.wants_shell,
        }
    }
}

impl Command {
    pub fn new(name: &'static str, description: &'static str, wants_shell: bool) -> (command: Self)
        ensures
            command@ == (CommandView {
                name: name@,
                aliases: Seq::empty(),
                description: description@,
                wants_shell,
            }),
    {
        let command = Command { name, aliases: Vec::new(), description, wants_shell };
        assert(str_views(command.aliases@) == Seq::<Seq<char>>::empty());
        command
    }

    pub fn with_aliases(self, aliases: Vec<&'static str>) -> (command: Self)
        ensures
            command@ == (CommandView { aliases: str_views(aliases@), ..self@ }),
    {
        Command { name: self.name, aliases, description: self.description, wants_shell: self.wants_shell }
    }
}

/// The shells that the prompt is made for.
pub open spec fn shell_names() -> Seq<Seq<char>> {
    seq!["bash"@, "fish"@, "zsh"@]
}

/// The commands, in the order in which they are listed.
pub open spec fn command_table() -> Seq<CommandView> {
    seq![
        CommandView {
            name: ""@,
            aliases: Seq::empty(),
            description: "Prompt for the shell"@,
            wants_shell: true,
        },
        CommandView {
            name: "init"@,
            aliases: Seq::empty(),
            description: "Shell script to initialize the prompt"@,
            wants_shell: true,
        },
        CommandView {
            name: "guide"@,
            aliases: Seq::empty(),
            description: "Instructions for the shell"@,
            wants_shell: true,
        },
        CommandView {
            name: "please"@,
            aliases: Seq::empty(),
            description: "Add the init line to the shell rc file"@,
            wants_shell: true,
        },
        CommandView {
            name: "debug"@,
            aliases: Seq::empty(),
            description: "Debugging info"@,
            wants_shell: false,
        },
        CommandView {
            name: "help"@,
            aliases: seq!["-h"@, "--help"@],
            description: "Usage info"@,
            wants_shell: false,
        },
        CommandView {
            name: "version"@,
            aliases: seq!["-v"@, "--version"@],
            description: "Version info"@,
            wants_shell: false,
        },
    ]
}

/// The commands of a vector as values, in order.
pub open spec fn command_views(commands: Seq<Command>) -> Seq<CommandView> {
    Seq::new(commands.len(), |i: int| commands[i]@)
}

pub fn supported_shells() -> (shells: Vec<&'static str>)
    ensures
        str_views(shells@) == shell_names(),
{
    let mut shells: Vec<&'static str> = Vec::new();
    shells.push("bash");
    shells.push("fish");
    shells.push("zsh");
    assert(str_views(shells@) == shell_names());
    shells
}

pub fn commands() -> (table: Vec<Command>)
    ensures
        command_views(table@) == command_table(),
{
    let mut help: Vec<&'static str> = Vec::new();
    help.push("-h");
    help.push("--help");
    assert(str_views(help@) == seq!["-h"@, "--help"@]);
    let mut version: Vec<&'static str> = Vec::new();
    version.push("-v");
    version.push("--version");
    assert(str_views(version@) == seq!["-v"@, "--version"@]);
    let mut table: Vec<Command> = Vec::new();
    table.push(Command::new("", "Prompt for the shell", true));
    table.push(Command::new("init", "Shell script to initialize the prompt", true));
    table.push(Command::new("guide", "Instructions for the shell", true));
    table.push(Command::new("please", "Add the init line to the shell rc file", true));
    table.push(Command::new("debug", "Debugging info", false));
    table.push(Command::new("help", "Usage info", false).with_aliases(help));
    table.push(Command::new("version", "Version info", false).with_aliases(version));
    assert(command_views(table@) == command_table());
    table
}

/// Whether `name` is one of `names`, whatever the case of its letters.
pub open spec fn names_hold(names: Seq<Seq<char>>, name: Seq<char>) -> bool {
    exists|i: int| 0 <= i < names.len() && same_ignoring_ascii_case(#[trigger] names[i], name)
}

/// Whether `names[k]` is the first of `names` that is `name`, whatever the
/// case of its letters.
pub open spec fn is_first_name(names: Seq<Seq<char>>, name: Seq<char>, k: int) -> bool {
    &&& 0 <= k < names.len()
    &&& same_ignoring_ascii_case(names[k], name)
    &&& forall|j: int| 0 <= j < k ==> !same_ignoring_ascii_case(#[trigger] names[j], name)
}

/// The shell that `name` names, as it is listed.
pub open spec fn shell_named(name: Seq<char>) -> Option<Seq<char>> {
    if exists|k: int| is_first_name(shell_names(), name, k) {
        Some(shell_names()[choose|k: int| is_first_name(shell_names(), name, k)])
    } else {
        None
    }
}

/// Whether `name` names the command: by its name or by one of its aliases,
/// whatever the case of its letters.
pub open spec fn command_matches(command: CommandView, name: Seq<char>) -> bool {
    same_ignoring_ascii_case(command.name, name) || names_hold(command.aliases, name)
}

/// Whether `table[k]` is the first command that `name` names.
pub open spec fn is_first_command(table: Seq<CommandView>, name: Seq<char>, k: int) -> bool {
    &&& 0 <= k < table.len()
    &&& command_matches(table[k], name)
    &&& forall|j: int| 0 <= j < k ==> !command_matches(#[trigger] table[j], name)
}

/// The command that `name` names.
pub open spec fn command_named(name: Seq<char>) -> Option<CommandView> {
    if exists|k: int| is_first_command(command_table(), name, k) {
        Some(command_table()[choose|k: int| is_first_command(command_table(), name, k)])
    } else {
        None
    }
}

/// The place of the first of `names` that is `name`, whatever the case of
/// its letters.
fn first_name(names: &Vec<&'static str>, name: &str) -> (found: Option<usize>)
    ensures
        match found {
            Some(k) => is_first_name(str_views(names@), name@, k as int),
            None => !names_hold(str_views(names@), name@),
        },
{
    let ghost views = str_views(names@);
    let mut i: usize = 0;
    while i < names.len()
        invariant
            i <= names.len(),
            views == str_views(names@),
            forall|j: int| 0 <= j < i ==> !same_ignoring_ascii_case(#[trigger] views[j], name@),
        decreases names.len() - i,
    {
        if eq_ignore_ascii_case(names[i], name) {
            assert(views[i as int] == names[i as int]@);
            return Some(i);
        }
        assert(views[i as int] == names[i as int]@);
        i += 1;
    }
    None
}

pub fn find_shell_by_name(name: &str) -> (shell: Option<String>)
    ensures
        match shell {
            Some(s) => shell_named(name@) == Some(s@),
            None => shell_named(name@) is None,
        },
{
    let shells = supported_shells();
    match first_name(&shells, name) {
        Some(k) => {
            assert(str_views(shells@)[k as int] == shells[k as int]@);
            Some(String::from_str(shells[k]))
        },
        None => None,
    }
}

pub fn find_command_by_name(name: &str) -> (command: Option<Command>)
    ensures
        match command {
            Some(c) => command_named(name@) == Some(c@),
            None => command_named(name@) is None,
        },
{
    let mut table = commands();
    let ghost views = command_views(table@);
    let mut i: usize = 0;
    while i < table.len()
        invariant
            i <= table.len(),
            views == command_views(table@),
            views == command_table(),
            forall|j: int| 0 <= j < i ==> !command_matches(#[trigger] views[j], name@),
        decreases table.len() - i,
    {
        assert(views[i as int] == table[i as int]@);
        let by_name = eq_ignore_ascii_case(table[i].name, name);
        let by_alias = first_name(&table[i].aliases, name).is_some();
        if by_name || by_alias {
            assert(is_first_command(command_table(), name@, i as int));
            let command = table.swap_remove(i);
            return Some(command);
        }
        i += 1;
    }
    None
}

/// What the arguments ask for, where `args` holds what follows the
/// program's name and `env_shell` is the shell that the environment names.
/// There is no answer where a command works for a shell and neither the
/// arguments nor the environment name one.
pub open spec fn parsed_invocation(args: Seq<Seq<char>>, env_shell: Option<Seq<char>>) -> Option<
    InvocationView,
> {
    let command_name = if args.len() > 0 {
        args[0]
    } else {
        Seq::empty()
    };
    if command_name.len() == 0 {
        Some(InvocationView::Shell { name: Seq::empty(), shell: Seq::empty() })
    } else {
        match shell_named(command_name) {
            Some(shell) => Some(InvocationView::Shell { name: Seq::empty(), shell }),
            None => match command_named(command_name) {
                Some(command) => if command.wants_shell {
                    if args.len() > 1 {
                        Some(InvocationView::Shell { name: command.name, shell: args[1] })
                    } else {
                        match env_shell {
                            Some(shell) => Some(InvocationView::Shell { name: command.name, shell }),
                            None => None,
                        }
                    }
                } else {
                    Some(InvocationView::Bare { name: command.name })
                },
                None => Some(InvocationView::Unknown { name: command_name }),
            },
        }
    }
}

/// The views of strings, in order.
pub open spec fn string_views(strings: Seq<String>) -> Seq<Seq<char>> {
    Seq::new(strings.len(), |i: int| strings[i]@)
}

pub fn parse_args(args: &Vec<String>, env_shell: Option<&str>) -> (invocation: Option<Invocation>)
    ensures
        match invocation {
            Some(i) => parsed_invocation(
                string_views(args@),
                match env_shell {
                    Some(s) => Some(s@),
                    None => None,
                },
            ) == Some(i@),
            None => parsed_invocation(
                string_views(args@),
                match env_shell {
                    Some(s) => Some(s@),
                    None => None,
                },
            ) is None,
        },
{
    proof {
        reveal_strlit("");
        assert(""@ == Seq::<char>::empty());
        if args.len() > 0 {
            assert(string_views(args@)[0] == args[0]@);
        }
        if args.len() > 1 {
            assert(string_views(args@)[1] == args[1]@);
        }
    }
    if args.len() == 0 || args[0].as_str().is_empty() {
        return Some(Invocation::Shell { name: "", shell: String::new() });
    }
    let command_name = args[0].as_str();
    if let Some(shell) = find_shell_by_name(command_name) {
        return Some(Invocation::Shell { name: "", shell });
    }
    match find_command_by_name(command_name) {
        Some(command) => {
            let name = command.name;
            if command.wants_shell {
                if args.len() > 1 {
                    Some(Invocation::Shell { name, shell: args[1].clone() })
                } else {
                    match env_shell {
                        Some(shell) => Some(Invocation::Shell { name, shell: String::from_str(shell) }),
                        None => None,
                    }
                }
            } else {
                Some(Invocation::Bare { name })
            }
        },
        None => Some(Invocation::Unknown { name: args[0].clone() }),
    }
}

/// How a command is written in the usage text: the program's name and the
/// command's, then its aliases, then the shells where it works for one.
pub open spec fn syntax_of(pkg: Seq<char>, command: CommandView) -> Seq<char> {
    let full_name = if command.name.len() == 0 {
        pkg
    } else {
        pkg + " "@ + command.name
    };
    let names = if command.aliases.len() == 0 {
        full_name
    } else {
        full_name + ", "@ + joined(command.aliases, ", "@)
    };
    if command.wants_shell {
        names + " "@ + "["@ + joined(shell_names(), "|"@) + "]"@
    } else {
        names
    }
}

pub fn command_syntax(pkg: &str, command: &Command) -> (syntax: String)
    ensures
        syntax@ == syntax_of(pkg@, command@),
{
    let mut syntax = String::from_str(pkg);
    if !command.name.is_empty() {
        syntax.append(" ");
        syntax.append(command.name);
    }
    if command.aliases.len() > 0 {
        syntax.append(", ");
        let aliases = join_strs(&command.aliases, ", ");
        syntax.append(aliases.as_str());
    }
    if command.wants_shell {
        let shells = supported_shells();
        let listed = join_strs(&shells, "|");
        syntax.append(" ");
        syntax.append("[");
        syntax.append(listed.as_str());
        syntax.append("]");
    }
    syntax
}

/// The number of bytes that `s` takes.
pub open spec fn byte_len(s: Seq<char>) -> nat {
    encode_utf8(s).len()
}

/// The most bytes that one of the strings takes.
pub open spec fn widest(strings: Seq<Seq<char>>) -> nat
    decreases strings.len(),
{
    if strings.len() == 0 {
        0
    } else {
        let before = widest(strings.drop_last());
        if byte_len(strings.last()) > before {
            byte_len(strings.last())
        } else {
            before
        }
    }
}

/// How the commands are written, in the order of the table.
pub open spec fn syntaxes_of(pkg: Seq<char>) -> Seq<Seq<char>> {
    Seq::new(command_table().len(), |i: int| syntax_of(pkg, command_table()[i]))
}

/// A line of the usage text: how the command is written, in green, then its
/// description, in a column that starts two spaces after the widest of
/// them.
pub open spec fn usage_line(syntax: Seq<char>, width: nat, description: Seq<char>) -> Seq<char> {
    green_text(syntax) + spaces((width - byte_len(syntax)) as nat) + "  "@ + description
}

/// The usage text, a line for each command.
pub open spec fn usage_of(pkg: Seq<char>) -> Seq<Seq<char>> {
    Seq::new(
        command_table().len(),
        |i: int| usage_line(syntaxes_of(pkg)[i], widest(syntaxes_of(pkg)), command_table()[i].description),
    )
}

/// Each string takes no more bytes than the widest.
proof fn lemma_widest_bounds(strings: Seq<Seq<char>>, i: int)
    requires
        0 <= i < strings.len(),
    ensures
        byte_len(strings[i]) <= widest(strings),
    decreases strings.len(),
{
    if i < strings.len() - 1 {
        lemma_widest_bounds(strings.drop_last(), i);
    }
}

pub fn usage_lines(pkg: &str) -> (lines: Vec<String>)
    ensures
        string_views(lines@) == usage_of(pkg@),
{
    let table = commands();
    let ghost wanted = syntaxes_of(pkg@);
    let mut syntaxes: Vec<String> = Vec::new();
    let mut width: usize = 0;
    let mut i: usize = 0;
    while i < table.len()
        invariant
            i <= table.len(),
            command_views(table@) == command_table(),
            wanted == syntaxes_of(pkg@),
            syntaxes.len() == i,
            forall|j: int| 0 <= j < i ==> (#[trigger] syntaxes[j])@ == wanted[j],
            width == widest(wanted.take(i as int)),
        decreases table.len() - i,
    {
        assert(command_views(table@)[i as int] == table[i as int]@);
        let syntax = command_syntax(pkg, &table[i]);
        let len: usize = syntax.as_str().as_bytes().len();
        proof {
            let next = wanted.take(i + 1);
            assert(next.drop_last() == wanted.take(i as int));
            assert(next.last() == syntax@);
        }
        if len > width {
            width = len;
        }
        syntaxes.push(syntax);
        i += 1;
    }
    assert(wanted.take(i as int) == wanted);
    let mut lines: Vec<String> = Vec::new();
    let mut k: usize = 0;
    while k < table.len()
        invariant
            k <= table.len(),
            table.len() == syntaxes.len(),
            command_views(table@) == command_table(),
            wanted == syntaxes_of(pkg@),
            forall|j: int| 0 <= j < syntaxes.len() ==> (#[trigger] syntaxes[j])@ == wanted[j],
            width == widest(wanted),
            lines.len() == k,
            forall|j: int| 0 <= j < k ==> (#[trigger] lines[j])@ == usage_of(pkg@)[j],
        decreases table.len() - k,
    {
        assert(command_views(table@)[k as int] == table[k as int]@);
        proof {
            lemma_widest_bounds(wanted, k as int);
        }
        let syntax = syntaxes[k].as_str();
        let len: usize = syntax.as_bytes().len();
        let mut line = green(syntax);
        push_spaces(&mut line, width - len);
        line.append("  ");
        line.append(table[k].description);
        lines.push(line);
        k += 1;
    }
    assert(string_views(lines@) =~= usage_of(pkg@));
    lines
}

/// What is said of a command that is none of ours.
pub open spec fn unknown_command_text(pkg: Seq<char>, unknown: Seq<char>) -> Seq<char> {
    "🆘 Unknown command '"@ + pkg + " "@ + unknown + "'. Maybe try '"@ + pkg + " help'?"@
}

pub fn unknown_command_message(pkg: &str, unknown: &str) -> (message: String)
    ensures
        message@ == unknown_command_text(pkg@, unknown@),
{
    let mut message = String::from_str("🆘 Unknown command '");
    message.append(pkg);
    message.append(" ");
    message.append(unknown);
    message.append("'. Maybe try '");
    message.append(pkg);
    message.append(" help'?");
    message
}

/// The line that names the program and its version.
pub fn version_line(pkg: &str, version: &str) -> (line: String)
    ensures
        line@ == pkg@ + " "@ + version@,
{
    let mut line = String::from_str(pkg);
    line.append(" ");
    line.append(version);
    line
}

} // verus!
