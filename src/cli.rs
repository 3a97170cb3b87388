//! What the command line asks for, as plain values.
use vstd::prelude::*;
use crate::runner::views;

verus! {

/// The options of one invocation of the tool.
pub struct Cli {
    pub command: Commands,
    /// Overrides the stored engine path.
    pub engine_path: Option<String>,
    /// The file that the output of the commands run is appended to.
    pub save_logs: Option<String>,
    /// Only error lines are shown and logged.
    pub error_only: bool,
    /// Nothing is run: what would run is printed instead.
    pub dry_run: bool,
}

/// The subcommands of the tool. A missing path means the current directory.
pub enum Commands {
    /// Runs the editor without a project.
    Editor,
    /// Builds, cooks and packages a project.
    Build { path: Option<String>, output: Option<String>, generate_project: bool },
    /// Generates a project's files.
    GenerateProjectFiles { path: Option<String> },
    /// Builds a project's editor target and opens the project in the editor.
    EditorProject { path: Option<String>, generate_project: bool },
    /// Removes a project's generated files and directories.
    CleanProject { path: Option<String> },
    /// Stores a new engine path.
    SetEditor { name: String },
    /// Prints the stored settings.
    PrintConfig,
    /// Builds and packages a plugin.
    BuildPlugin { path: Option<String>, output: Option<String> },
    /// Builds the engine from its source.
    BuildEngine { path: Option<String> },
    /// Runs the automation tool with the words of `input`.
    UAT { input: String, path: Option<String> },
    /// Writes the completion script for a shell.
    GenerateCompletions { shell: Shell, action: Option<ActionToDo> },
}

/// What is done with a generated completion script.
#[derive(Clone, Copy, Debug, PartialEq, Eq, Structural)]
pub enum ActionToDo {
    Print,
    CopyToClipboard,
}

impl Default for ActionToDo {
    /// The script is printed.
    fn default() -> (r: ActionToDo)
        ensures
            r == ActionToDo::Print,
    {
        ActionToDo::Print
    }
}

/// A shell that completion scripts are written for.
#[derive(Clone, Copy, Debug, PartialEq, Eq, Structural)]
pub enum Shell {
    Bash,
    Elvish,
    Fish,
    Nushell,
    Powershell,
    Zsh,
}

/// The pieces of `s` between single spaces, where `cur` is the piece begun so
/// far. Two spaces in a row give an empty piece.
pub open spec fn split_from(s: Seq<char>, cur: Seq<char>) -> Seq<Seq<char>>
    decreases s.len(),
{
    if s.len() == 0 {
        seq![cur]
    } else if s[0] == ' ' {
        seq![cur] + split_from(s.drop_first(), Seq::empty())
    } else {
        split_from(s.drop_first(), cur.push(s[0]))
    }
}

/// The pieces of `s` between single spaces.
pub open spec fn split_spaces(s: Seq<char>) -> Seq<Seq<char>> {
    split_from(s, Seq::empty())
}

/// The arguments for the automation tool that `input` holds: the pieces
/// between single spaces.
pub fn uat_arguments(input: &str) -> (r: Vec<String>)
    ensures
        views(r@) == split_spaces(input@),
{
    let n = input.unicode_len();
    let mut r: Vec<String> = Vec::new();
    let mut start: usize = 0;
    let mut i: usize = 0;
    assert(input@.subrange(0, n as int) =~= input@);
    assert(input@.subrange(0, 0) =~= Seq::<char>::empty());
    assert(views(r@) =~= Seq::<Seq<char>>::empty());
    while i < n
        invariant
            n == input@.len(),
            start <= i <= n,
            views(r@) + split_from(
                input@.subrange(i as int, n as int),
                input@.subrange(start as int, i as int),
            ) == split_spaces(input@),
        decreases n - i,
    {
        let ghost rest = input@.subrange(i as int, n as int);
        let ghost cur = input@.subrange(start as int, i as int);
        assert(rest.drop_first() =~= input@.subrange(i + 1, n as int));
        if input.get_char(i) == ' ' {
            let piece = String::from_str(input.substring_char(start, i));
            let ghost before = r@;
            r.push(piece);
            assert(views(r@) =~= views(before).push(cur));
            assert(input@.subrange(i + 1, i + 1) =~= Seq::<char>::empty());
            assert(views(before) + (seq![cur] + split_from(rest.drop_first(), Seq::empty()))
                =~= views(r@) + split_from(rest.drop_first(), Seq::empty()));
            start = i + 1;
        } else {
            assert(cur.push(input@[i as int]) =~= input@.subrange(start as int, i + 1));
        }
        i = i + 1;
    }
    let ghost before = r@;
    let ghost cur = input@.subrange(start as int, n as int);
    r.push(String::from_str(input.substring_char(start, n)));
    assert(views(r@) =~= views(before).push(cur));
    assert(input@.subrange(n as int, n as int) =~= Seq::<char>::empty());
    assert(views(before) + seq![cur] =~= views(r@));
    r
}

} // verus!
