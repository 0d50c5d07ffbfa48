//! What the user is told, as text for a terminal that understands ANSI colours.

use crate::dispatch::{Fault, Operation};
use vstd::prelude::*;
use vstd::string::StringExecFns;

verus! {

/// The colours in which the messages are painted.
#[derive(Clone, Copy, Debug, PartialEq, Eq, Structural)]
pub enum Tint {
    Red,
    Yellow,
    Blue,
}

/// The number by which ANSI names a colour for the foreground.
pub open spec fn tint_code(tint: Tint) -> Seq<char> {
    match tint {
        Tint::Red => seq!['3', '1'],
        Tint::Yellow => seq!['3', '3'],
        Tint::Blue => seq!['3', '4'],
    }
}

/// `text` between the escape sequence that sets the foreground colour and the one that
/// resets it: `ESC [ {code} m {text} ESC [ 0 m`.
pub open spec fn painted(tint: Tint, text: Seq<char>) -> Seq<char> {
    seq!['\u{1b}', '['] + tint_code(tint) + seq!['m'] + text + seq!['\u{1b}', '[', '0', 'm']
}

/// The word for an operation at the start of a sentence.
pub open spec fn doing(operation: Operation) -> Seq<char> {
    match operation {
        Operation::Install => "Installing"@,
        Operation::Uninstall => "Uninstalling"@,
    }
}

/// The complaint about an operation that failed.
pub open spec fn complaint(operation: Operation) -> Seq<char> {
    match operation {
        Operation::Install => "There was an error installing"@,
        Operation::Uninstall => "There was an error uninstalling"@,
    }
}

/// What is said of a fault.
pub open spec fn fault_text(fault: Fault) -> Seq<char> {
    match fault {
        Fault::NotOffered => "The selection is not one of the search results!"@,
        Fault::Malformed => "The selection does not name a package manager and a package!"@,
        Fault::UnknownManager => "The selection names a package manager that is not in use here!"@,
    }
}

/// `"Initializing more package sources.. ({Not implemented!})."`, the bracketed words
/// in red.
pub open spec fn init_text() -> Seq<char> {
    "Initializing more package sources.. ("@ + painted(Tint::Red, "Not implemented!"@) + ")."@
}

/// `"Searching {package}..."`, the package in yellow.
pub open spec fn searching_text(package: Seq<char>) -> Seq<char> {
    "Searching "@ + painted(Tint::Yellow, package) + "..."@
}

/// `"There were no results found for {package}"`, the sentence in red and the package
/// in yellow.
pub open spec fn no_results_text(package: Seq<char>) -> Seq<char> {
    painted(Tint::Red, "There were no results found for"@) + " "@ + painted(Tint::Yellow, package)
}

/// `"Installing {package} via {manager}..."`, the package in yellow; `"Uninstalling"`
/// for the other operation.
pub open spec fn starting_text(
    operation: Operation,
    package: Seq<char>,
    manager: Seq<char>,
) -> Seq<char> {
    doing(operation) + " "@ + painted(Tint::Yellow, package) + " via "@ + manager + "..."@
}

/// `"Operation complete!"` in blue where the command succeeded; otherwise the
/// complaint in red and the package in yellow.
pub open spec fn outcome_text(
    operation: Operation,
    package: Seq<char>,
    succeeded: bool,
) -> Seq<char> {
    if succeeded {
        painted(Tint::Blue, "Operation complete!"@)
    } else {
        painted(Tint::Red, complaint(operation)) + " "@ + painted(Tint::Yellow, package)
    }
}

/// `"This platform is not yet supported!"` in red.
pub open spec fn unsupported_platform_text() -> Seq<char> {
    painted(Tint::Red, "This platform is not yet supported!"@)
}

/// Two lines: `"The below dependency is required:"` in red, then
/// `"{name}  -  {description}"`.
pub open spec fn missing_dependency_text(name: Seq<char>, description: Seq<char>) -> Seq<char> {
    painted(Tint::Red, "The below dependency is required:"@) + "\n"@ + name + "  -  "@
        + description
}

/// `"Please run foraget with a command!"` in red.
pub open spec fn missing_command_text() -> Seq<char> {
    painted(Tint::Red, "Please run foraget with a command!"@)
}

/// What is said of a fault, in red.
pub open spec fn rejected_text(fault: Fault) -> Seq<char> {
    painted(Tint::Red, fault_text(fault))
}

/// `text` in the colour `tint`.
///
/// Trusted: `ansi_term::Colour::paint`, with the `Display` of the `ANSIString` that it
/// returns. The string is written as the style's prefix, the text and the style's
/// suffix. For a plain foreground colour the prefix is `ESC [`, the colour's code
/// (31 for red, 33 for yellow, 34 for blue) and `m`, and the suffix is the reset
/// sequence `ESC [ 0 m`.
#[verifier::external_body]
fn paint(tint: Tint, text: &str) -> (coloured: String)
    ensures
        coloured@ == painted(tint, text@),
{
    let colour = match tint {
        Tint::Red => ansi_term::Colour::Red,
        Tint::Yellow => ansi_term::Colour::Yellow,
        Tint::Blue => ansi_term::Colour::Blue,
    };
    colour.paint(text).to_string()
}

/// The message of the `init` command.
pub fn init_message() -> (text: String)
    ensures
        text@ == init_text(),
{
    let mut text = String::from_str("Initializing more package sources.. (");
    text.append(paint(Tint::Red, "Not implemented!").as_str());
    text.append(").");
    text
}

/// The message that opens a search for `package`.
pub fn searching_message(package: &str) -> (text: String)
    ensures
        text@ == searching_text(package@),
{
    let mut text = String::from_str("Searching ");
    text.append(paint(Tint::Yellow, package).as_str());
    text.append("...");
    text
}

/// The message that nothing was found for `package`.
pub fn no_results_message(package: &str) -> (text: String)
    ensures
        text@ == no_results_text(package@),
{
    let mut text = paint(Tint::Red, "There were no results found for");
    text.append(" ");
    text.append(paint(Tint::Yellow, package).as_str());
    text
}

/// The message that opens `operation` on `package` through `manager`.
pub fn starting_message(operation: Operation, package: &str, manager: &str) -> (text: String)
    ensures
        text@ == starting_text(operation, package@, manager@),
{
    let mut text = match operation {
        Operation::Install => String::from_str("Installing"),
        Operation::Uninstall => String::from_str("Uninstalling"),
    };
    text.append(" ");
    text.append(paint(Tint::Yellow, package).as_str());
    text.append(" via ");
    text.append(manager);
    text.append("...");
    text
}

/// The message that closes `operation` on `package`: `succeeded` says whether the
/// command could be run to its end.
pub fn outcome_message(operation: Operation, package: &str, succeeded: bool) -> (text: String)
    ensures
        text@ == outcome_text(operation, package@, succeeded),
{
    if succeeded {
        paint(Tint::Blue, "Operation complete!")
    } else {
        let mut text = match operation {
            Operation::Install => paint(Tint::Red, "There was an error installing"),
            Operation::Uninstall => paint(Tint::Red, "There was an error uninstalling"),
        };
        text.append(" ");
        text.append(paint(Tint::Yellow, package).as_str());
        text
    }
}

/// The message for a host that is not supported.
pub fn unsupported_platform_message() -> (text: String)
    ensures
        text@ == unsupported_platform_text(),
{
    paint(Tint::Red, "This platform is not yet supported!")
}

/// The message for a host that lacks the program `name`.
pub fn missing_dependency_message(name: &str, description: &str) -> (text: String)
    ensures
        text@ == missing_dependency_text(name@, description@),
{
    let mut text = paint(Tint::Red, "The below dependency is required:");
    text.append("\n");
    text.append(name);
    text.append("  -  ");
    text.append(description);
    text
}

/// The message for a call without a command.
pub fn missing_command_message() -> (text: String)
    ensures
        text@ == missing_command_text(),
{
    paint(Tint::Red, "Please run foraget with a command!")
}

/// The message for a choice that cannot be acted upon.
pub fn rejected_message(fault: Fault) -> (text: String)
    ensures
        text@ == rejected_text(fault),
{
    match fault {
        Fault::NotOffered => paint(Tint::Red, "The selection is not one of the search results!"),
        Fault::Malformed => paint(
            Tint::Red,
            "The selection does not name a package manager and a package!",
        ),
        Fault::UnknownManager => paint(
            Tint::Red,
            "The selection names a package manager that is not in use here!",
        ),
    }
}

} // verus!
