//! The two sides of every conversation with the host: the command lines that are handed
//! out to be run, and the reading of what came back.

use crate::text::{join, split, split_on, to_chars, trim, trimmed, views};
use vstd::prelude::*;
use vstd::string::StringExecFns;

verus! {

/// A program without which the library's commands cannot be run.
pub struct Dependency {
    pub command_name: &'static str,
    pub description: &'static str,
}

/// The mathematical content of a `Dependency`.
pub struct DependencyView {
    pub command_name: Seq<char>,
    pub description: Seq<char>,
}

impl View for Dependency {
    type V = DependencyView;

    open spec fn view(&self) -> DependencyView {
        DependencyView { command_name: self.command_name@, description: self.description@ }
    }
}

/// The programs that must be installed: `fzf`, which asks the user to choose.
pub open spec fn dependencies() -> Seq<DependencyView> {
    seq![
        DependencyView { command_name: "fzf"@, description: "A command-line fuzzy finder"@ },
    ]
}

/// Whether the probe at `index` succeeded, by the flags that the probes gave. A probe
/// without a flag counts as failed.
pub open spec fn is_present(present: Seq<bool>, index: int) -> bool {
    0 <= index < present.len() && present[index]
}

/// The position of the first of `count` dependencies that is absent, by the flags that
/// the probes gave; a dependency without a flag counts as absent.
pub open spec fn first_missing(count: int, present: Seq<bool>, from: int) -> Option<int>
    decreases count - from,
{
    if from < 0 || from >= count {
        None
    } else if !is_present(present, from) {
        Some(from)
    } else {
        first_missing(count, present, from + 1)
    }
}

/// The lines of a command's output: the output without the white space at its two
/// ends, cut at every line feed. Output that is empty, or all white space, is one
/// empty line.
pub open spec fn output_lines(output: Seq<char>) -> Seq<Seq<char>> {
    split_on(trimmed(output), '\n')
}

/// The command that tells whether `command` is installed: `"which {command}"`.
pub open spec fn exist_command(command: Seq<char>) -> Seq<char> {
    "which "@ + command
}

/// Whether the output of an `exist_command` says that the command is there: its first
/// line is not empty.
pub open spec fn exists_by(lines: Seq<Seq<char>>) -> bool {
    lines.len() > 0 && lines[0].len() > 0
}

/// The two characters, a backslash and an `n`, by which `echo -e` is told to break
/// the line.
pub open spec fn line_break() -> Seq<char> {
    seq!['\\', 'n']
}

/// The items as one argument of `echo -e`, with a line break between neighbours.
pub open spec fn multiline(items: Seq<Seq<char>>) -> Seq<char> {
    join(items, line_break())
}

/// The command that lets the user pick one of `options`:
/// `echo -e "{options}" | fzf`.
pub open spec fn prompt_command(options: Seq<Seq<char>>) -> Seq<char> {
    "echo -e \""@ + multiline(options) + "\" | fzf"@
}

/// What the user picked, by what the prompt printed: its first line; nothing where it
/// printed nothing, or could not be run at all.
pub open spec fn prompted_value(output: Option<Seq<Seq<char>>>) -> Seq<char> {
    match output {
        Some(lines) => if lines.len() > 0 {
            lines[0]
        } else {
            Seq::empty()
        },
        None => Seq::empty(),
    }
}

/// The lines of `output`, the text that a command printed.
pub fn get_list_from_output(output: &str) -> (lines: Vec<String>)
    ensures
        views(lines@) == output_lines(output@),
{
    let chars = to_chars(output);
    let (from, to) = trim(&chars);
    split(&chars, from, to, '\n')
}

/// The command to run in order to learn whether `command` is installed.
pub fn gen_exist_command(command: &str) -> (probe: String)
    ensures
        probe@ == exist_command(command@),
{
    let mut probe = String::from_str("which ");
    probe.append(command);
    probe
}

/// Whether a command exists, by the lines that its `gen_exist_command` printed.
pub fn does_exist(output: &Vec<String>) -> (exists: bool)
    ensures
        exists == exists_by(views(output@)),
{
    if output.len() == 0 {
        false
    } else {
        assert(views(output@)[0] == output[0]@);
        !output[0].as_str().is_empty()
    }
}

/// The items joined into one argument for `echo -e`.
pub fn get_multiline_string(items: &Vec<String>) -> (text: String)
    ensures
        text@ == multiline(views(items@)),
{
    if items.len() == 0 {
        return String::new();
    }
    proof {
        reveal_strlit("\\n");
        assert("\\n"@ =~= line_break());
        assert(views(items@).take(1) =~= seq![items[0]@]);
    }
    let mut text = String::from_str(items[0].as_str());
    let mut i: usize = 1;
    while i < items.len()
        invariant
            1 <= i <= items.len(),
            text@ == multiline(views(items@).take(i as int)),
            "\\n"@ == line_break(),
        decreases items.len() - i,
    {
        let ghost now = views(items@).take(i + 1);
        assert(now.drop_last() =~= views(items@).take(i as int));
        assert(now.last() == items[i as int]@);
        text.append("\\n");
        text.append(items[i].as_str());
        i += 1;
    }
    assert(views(items@).take(i as int) =~= views(items@));
    text
}

/// The command to run in order to let the user pick one of `options`.
pub fn gen_prompt_command(options: &Vec<String>) -> (command: String)
    ensures
        command@ == prompt_command(views(options@)),
{
    let mut command = String::from_str("echo -e \"");
    command.append(get_multiline_string(options).as_str());
    command.append("\" | fzf");
    command
}

/// What the user picked from the list, by the lines that the prompt printed; `None`
/// says that the prompt could not be run. Nothing picked is the empty string.
pub fn prompt_for_value_from_list(output: &Option<Vec<String>>) -> (value: String)
    ensures
        value@ == prompted_value(
            match output {
                Some(lines) => Some(views(lines@)),
                None => None,
            },
        ),
{
    match output {
        Some(lines) => {
            if lines.len() > 0 {
                assert(views(lines@)[0] == lines[0]@);
                lines[0].clone()
            } else {
                String::new()
            }
        },
        None => String::new(),
    }
}

/// The programs that must be installed before anything else is done.
pub fn get_dependencies() -> (list: Vec<Dependency>)
    ensures
        list@.map_values(|dependency: Dependency| dependency@) == dependencies(),
{
    let mut list: Vec<Dependency> = Vec::new();
    list.push(Dependency { command_name: "fzf", description: "A command-line fuzzy finder" });
    assert(list@.map_values(|dependency: Dependency| dependency@) =~= dependencies());
    list
}

/// The position of the first dependency that is not installed, if there is one.
/// `present[i]` says whether `dependencies[i]` was found.
pub fn check_for_dependencies(
    dependencies: &Vec<Dependency>,
    present: &Vec<bool>,
) -> (missing: Option<usize>)
    ensures
        match missing {
            Some(at) => at < dependencies.len() && first_missing(
                dependencies.len() as int,
                present@,
                0,
            ) == Some(at as int),
            None => first_missing(dependencies.len() as int, present@, 0) is None,
        },
{
    let mut i: usize = 0;
    while i < dependencies.len()
        invariant
            i <= dependencies.len(),
            first_missing(dependencies.len() as int, present@, 0) == first_missing(
                dependencies.len() as int,
                present@,
                i as int,
            ),
        decreases dependencies.len() - i,
    {
        if !(i < present.len() && present[i]) {
            return Some(i);
        }
        i += 1;
    }
    None
}

} // verus!
