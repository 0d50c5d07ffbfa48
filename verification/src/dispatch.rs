//! From a list of search results to the one command that acts on the user's choice.
//!
//! Nothing here runs a command or asks a question. Each function looks at what is known
//! so far and says, as a `Step`, what has to happen next; the caller does it and comes
//! back with the answer.

use crate::labels::{
    is_label_safe, label, lemma_label_inverts_split, parse_search_result, split_label,
};
use crate::package_managers::{
    descriptors, install_command, uninstall_command, Descriptor, Installer, PackageManager,
};
use crate::tasks::{aggregated, lemma_aggregated_round_trip, SearchOutputView};
use crate::text::views;
use vstd::prelude::*;
use vstd::string::StringExecFns;

verus! {

/// What is to be done with the chosen package.
#[derive(Clone, Copy, Debug, PartialEq, Eq, Structural)]
pub enum Operation {
    Install,
    Uninstall,
}

/// Why a choice cannot be acted upon. Each of them means that the caller handed over
/// something that the search never produced.
#[derive(Clone, Copy, Debug, PartialEq, Eq, Structural)]
pub enum Fault {
    /// The choice is none of the search results.
    NotOffered,
    /// The choice holds no separator, so it names no pair.
    Malformed,
    /// The choice names a manager that is not among the candidates.
    UnknownManager,
}

/// What has to happen next.
pub enum Step {
    /// Nothing was found: say so and stop.
    NotFound,
    /// Several packages were found: let the user choose one of `options`, then dispatch
    /// the answer.
    Ask { options: Vec<String> },
    /// The user chose nothing: stop.
    Cancelled,
    /// The choice cannot be acted upon: stop, loudly.
    Rejected { fault: Fault },
    /// Run `command`, which acts on `package` through `manager`.
    Run { manager: String, package: String, command: String },
}

/// The mathematical content of a `Step`.
pub enum StepView {
    NotFound,
    Ask { options: Seq<Seq<char>> },
    Cancelled,
    Rejected { fault: Fault },
    Run { manager: Seq<char>, package: Seq<char>, command: Seq<char> },
}

impl View for Step {
    type V = StepView;

    open spec fn view(&self) -> StepView {
        match self {
            Step::NotFound => StepView::NotFound,
            Step::Ask { options } => StepView::Ask { options: views(options@) },
            Step::Cancelled => StepView::Cancelled,
            Step::Rejected { fault } => StepView::Rejected { fault: *fault },
            Step::Run { manager, package, command } => StepView::Run {
                manager: manager@,
                package: package@,
                command: command@,
            },
        }
    }
}

/// The position, at or after `from`, of the first candidate whose command is `name`.
pub open spec fn position(managers: Seq<Descriptor>, name: Seq<char>, from: int) -> Option<int>
    decreases managers.len() - from,
{
    if from < 0 || from >= managers.len() {
        None
    } else if managers[from].command_name == name {
        Some(from)
    } else {
        position(managers, name, from + 1)
    }
}

/// The command by which `manager` performs `operation` on `package`.
pub open spec fn command_for(
    operation: Operation,
    manager: Descriptor,
    package: Seq<char>,
) -> Seq<char> {
    match operation {
        Operation::Install => install_command(manager, package),
        Operation::Uninstall => uninstall_command(manager, package),
    }
}

/// What follows from the user's `choice` among `results`.
///
/// An empty choice is a cancellation. Any other choice must be one of the results, must
/// split into manager and package, and must name one of the candidates; then the
/// command is the one of that candidate, for the package that was chosen.
pub open spec fn dispatched(
    managers: Seq<Descriptor>,
    results: Seq<Seq<char>>,
    choice: Seq<char>,
    operation: Operation,
) -> StepView {
    if choice.len() == 0 {
        StepView::Cancelled
    } else if !results.contains(choice) {
        StepView::Rejected { fault: Fault::NotOffered }
    } else {
        match split_label(choice) {
            None => StepView::Rejected { fault: Fault::Malformed },
            Some(pair) => match position(managers, pair.0, 0) {
                None => StepView::Rejected { fault: Fault::UnknownManager },
                Some(at) => StepView::Run {
                    manager: pair.0,
                    package: pair.1,
                    command: command_for(operation, managers[at], pair.1),
                },
            },
        }
    }
}

/// What follows from the search results: nothing found, a single result that is taken
/// without asking, or a question to the user with every result as an option.
pub open spec fn resolved(
    managers: Seq<Descriptor>,
    results: Seq<Seq<char>>,
    operation: Operation,
) -> StepView {
    if results.len() == 0 {
        StepView::NotFound
    } else if results.len() == 1 {
        dispatched(managers, results, results[0], operation)
    } else {
        StepView::Ask { options: results }
    }
}

/// `position` finds the first candidate of that name at or after `from`, if any.
pub proof fn lemma_position(managers: Seq<Descriptor>, name: Seq<char>, from: int)
    requires
        0 <= from,
    ensures
        match position(managers, name, from) {
            Some(at) => {
                &&& from <= at < managers.len()
                &&& managers[at].command_name == name
                &&& forall|earlier: int|
                    from <= earlier < at ==> (#[trigger] managers[earlier]).command_name != name
            },
            None => forall|at: int|
                from <= at < managers.len() ==> (#[trigger] managers[at]).command_name != name,
        },
    decreases managers.len() - from,
{
    if from < managers.len() && managers[from].command_name != name {
        lemma_position(managers, name, from + 1);
    }
}

/// No pairing is invented: whenever a choice leads to a command, the pair of manager
/// and package is one of the search results, the manager is one of the candidates, and
/// the command is that candidate's, for the package that was chosen.
pub proof fn lemma_run_was_offered(
    managers: Seq<Descriptor>,
    results: Seq<Seq<char>>,
    choice: Seq<char>,
    operation: Operation,
)
    ensures
        dispatched(managers, results, choice, operation) matches StepView::Run {
            manager,
            package,
            command,
        } ==> {
            &&& results.contains(label(manager, package))
            &&& exists|at: int|
                0 <= at < managers.len() && (#[trigger] managers[at]).command_name == manager
                    && command == command_for(operation, managers[at], package)
        },
{
    if dispatched(managers, results, choice, operation) is Run {
        lemma_label_inverts_split(choice);
        let pair = split_label(choice)->0;
        lemma_position(managers, pair.0, 0);
        let at = position(managers, pair.0, 0)->0;
        assert(managers[at].command_name == pair.0);
    }
}

/// The search results can be acted upon: where every manager that searched has a
/// label-safe name and is among the candidates, each aggregated label, handed back as
/// the choice, leads to a command, for the manager that printed the package and for
/// that package.
pub proof fn lemma_aggregated_choice_runs(
    managers: Seq<Descriptor>,
    outputs: Seq<SearchOutputView>,
    index: int,
    operation: Operation,
)
    requires
        0 <= index < aggregated(outputs).len(),
        forall|k: int| 0 <= k < outputs.len() ==> is_label_safe((#[trigger] outputs[k]).manager),
        forall|k: int|
            0 <= k < outputs.len() ==> position(managers, (#[trigger] outputs[k]).manager, 0)
                is Some,
    ensures
        dispatched(managers, aggregated(outputs), aggregated(outputs)[index], operation)
            matches StepView::Run { manager, package, .. } && exists|k: int|
            0 <= k < outputs.len() && manager == (#[trigger] outputs[k]).manager
                && outputs[k].lines.contains(package) && package.len() > 0,
{
    lemma_aggregated_round_trip(outputs, index);
    let choice = aggregated(outputs)[index];
    let pair = split_label(choice)->0;
    lemma_label_inverts_split(choice);
    assert(choice.len() > 0);
    assert(aggregated(outputs).contains(choice));
}

/// A copy of a list of strings.
fn copy_of(strings: &Vec<String>) -> (copy: Vec<String>)
    ensures
        views(copy@) == views(strings@),
{
    let mut copy: Vec<String> = Vec::new();
    let mut i: usize = 0;
    while i < strings.len()
        invariant
            i <= strings.len(),
            views(copy@) == views(strings@).take(i as int),
        decreases strings.len() - i,
    {
        let ghost before = views(copy@);
        let string = strings[i].clone();
        assert(string@ == strings[i as int]@);
        copy.push(string);
        assert(views(copy@) =~= before.push(string@));
        i += 1;
        assert(views(copy@) =~= views(strings@).take(i as int));
    }
    assert(views(strings@).take(i as int) =~= views(strings@));
    copy
}

/// Whether `choice` is one of `results`.
fn is_offered(results: &Vec<String>, choice: &String) -> (offered: bool)
    ensures
        offered == views(results@).contains(choice@),
{
    let mut i: usize = 0;
    while i < results.len()
        invariant
            i <= results.len(),
            forall|k: int| 0 <= k < i ==> views(results@)[k] != choice@,
        decreases results.len() - i,
    {
        if results[i] == *choice {
            assert(views(results@)[i as int] == choice@);
            return true;
        }
        i += 1;
    }
    false
}

/// The position of the first candidate whose command is `name`.
fn find_manager(package_managers: &Vec<PackageManager>, name: &String) -> (found: Option<usize>)
    ensures
        match found {
            Some(at) => position(descriptors(package_managers@), name@, 0) == Some(at as int)
                && at < package_managers.len(),
            None => position(descriptors(package_managers@), name@, 0) is None,
        },
{
    let mut i: usize = 0;
    while i < package_managers.len()
        invariant
            i <= package_managers.len(),
            position(descriptors(package_managers@), name@, 0) == position(
                descriptors(package_managers@),
                name@,
                i as int,
            ),
        decreases package_managers.len() - i,
    {
        assert(descriptors(package_managers@)[i as int] == package_managers[i as int]@);
        if String::from_str(package_managers[i].command_name) == *name {
            return Some(i);
        }
        i += 1;
    }
    None
}

/// What follows from the user's choice `result_pair` among `search_results`.
pub fn dispatch(
    package_managers: &Vec<PackageManager>,
    search_results: &Vec<String>,
    result_pair: &str,
    operation: Operation,
) -> (step: Step)
    ensures
        step@ == dispatched(
            descriptors(package_managers@),
            views(search_results@),
            result_pair@,
            operation,
        ),
{
    if result_pair.is_empty() {
        return Step::Cancelled;
    }
    if !is_offered(search_results, &String::from_str(result_pair)) {
        return Step::Rejected { fault: Fault::NotOffered };
    }
    match parse_search_result(result_pair) {
        None => Step::Rejected { fault: Fault::Malformed },
        Some(pair) => {
            let (manager, package) = pair;
            match find_manager(package_managers, &manager) {
                None => Step::Rejected { fault: Fault::UnknownManager },
                Some(at) => {
                    assert(descriptors(package_managers@)[at as int] == package_managers[at as int]@);
                    let command = match operation {
                        Operation::Install => package_managers[at].gen_install_command(
                            package.as_str(),
                        ),
                        Operation::Uninstall => package_managers[at].gen_uninstall_command(
                            package.as_str(),
                        ),
                    };
                    Step::Run { manager, package, command }
                },
            }
        },
    }
}

/// What follows from `search_results`: with none, nothing was found; a single one is
/// dispatched at once, without a question; with more, the user is asked.
pub fn resolve(
    package_managers: &Vec<PackageManager>,
    search_results: &Vec<String>,
    operation: Operation,
) -> (step: Step)
    ensures
        step@ == resolved(descriptors(package_managers@), views(search_results@), operation),
{
    if search_results.len() == 0 {
        Step::NotFound
    } else if search_results.len() == 1 {
        assert(views(search_results@)[0] == search_results[0]@);
        dispatch(package_managers, search_results, search_results[0].as_str(), operation)
    } else {
        Step::Ask { options: copy_of(search_results) }
    }
}

/// The first step of installing, once the search results are in.
pub fn install(
    package_managers: &Vec<PackageManager>,
    search_results: &Vec<String>,
) -> (step: Step)
    ensures
        step@ == resolved(
            descriptors(package_managers@),
            views(search_results@),
            Operation::Install,
        ),
{
    resolve(package_managers, search_results, Operation::Install)
}

/// The step that installs what the user chose.
pub fn install_from_selected_pair(
    package_managers: &Vec<PackageManager>,
    search_results: &Vec<String>,
    result_pair: &str,
) -> (step: Step)
    ensures
        step@ == dispatched(
            descriptors(package_managers@),
            views(search_results@),
            result_pair@,
            Operation::Install,
        ),
{
    dispatch(package_managers, search_results, result_pair, Operation::Install)
}

/// The first step of uninstalling, once the search results are in.
pub fn uninstall(
    package_managers: &Vec<PackageManager>,
    search_results: &Vec<String>,
) -> (step: Step)
    ensures
        step@ == resolved(
            descriptors(package_managers@),
            views(search_results@),
            Operation::Uninstall,
        ),
{
    resolve(package_managers, search_results, Operation::Uninstall)
}

/// The step that uninstalls what the user chose.
pub fn uninstall_from_selected_pair(
    package_managers: &Vec<PackageManager>,
    search_results: &Vec<String>,
    result_pair: &str,
) -> (step: Step)
    ensures
        step@ == dispatched(
            descriptors(package_managers@),
            views(search_results@),
            result_pair@,
            Operation::Uninstall,
        ),
{
    dispatch(package_managers, search_results, result_pair, Operation::Uninstall)
}

} // verus!
