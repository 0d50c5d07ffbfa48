use foraget::dispatch::{Fault, Operation};
use foraget::messages::{
    init_message, missing_command_message, missing_dependency_message, no_results_message,
    outcome_message, rejected_message, searching_message, starting_message,
    unsupported_platform_message,
};

#[test]
fn searching_paints_the_package_yellow() {
    assert_eq!("Searching \u{1b}[33mneovim\u{1b}[0m...", searching_message("neovim"));
    assert_eq!("Searching \u{1b}[33m\u{1b}[0m...", searching_message(""));
}

#[test]
fn init_is_not_implemented() {
    assert_eq!(
        "Initializing more package sources.. (\u{1b}[31mNot implemented!\u{1b}[0m).",
        init_message()
    );
}

#[test]
fn no_results_for_a_package() {
    assert_eq!(
        "\u{1b}[31mThere were no results found for\u{1b}[0m \u{1b}[33mneovim\u{1b}[0m",
        no_results_message("neovim")
    );
}

#[test]
fn starting_names_package_and_manager() {
    assert_eq!(
        "Installing \u{1b}[33mneovim\u{1b}[0m via pacman...",
        starting_message(Operation::Install, "neovim", "pacman")
    );
    assert_eq!(
        "Uninstalling \u{1b}[33mneovim\u{1b}[0m via snap...",
        starting_message(Operation::Uninstall, "neovim", "snap")
    );
}

#[test]
fn outcome_of_a_command_that_succeeded() {
    assert_eq!(
        "\u{1b}[34mOperation complete!\u{1b}[0m",
        outcome_message(Operation::Install, "neovim", true)
    );
    assert_eq!(
        "\u{1b}[34mOperation complete!\u{1b}[0m",
        outcome_message(Operation::Uninstall, "neovim", true)
    );
}

#[test]
fn outcome_of_a_command_that_failed() {
    assert_eq!(
        "\u{1b}[31mThere was an error installing\u{1b}[0m \u{1b}[33mneovim\u{1b}[0m",
        outcome_message(Operation::Install, "neovim", false)
    );
    assert_eq!(
        "\u{1b}[31mThere was an error uninstalling\u{1b}[0m \u{1b}[33mneovim\u{1b}[0m",
        outcome_message(Operation::Uninstall, "neovim", false)
    );
}

#[test]
fn platform_is_not_supported() {
    assert_eq!(
        "\u{1b}[31mThis platform is not yet supported!\u{1b}[0m",
        unsupported_platform_message()
    );
}

#[test]
fn dependency_is_required() {
    assert_eq!(
        "\u{1b}[31mThe below dependency is required:\u{1b}[0m\nfzf  -  A command-line fuzzy finder",
        missing_dependency_message("fzf", "A command-line fuzzy finder")
    );
}

#[test]
fn command_is_missing() {
    assert_eq!(
        "\u{1b}[31mPlease run foraget with a command!\u{1b}[0m",
        missing_command_message()
    );
}

#[test]
fn faults_are_told_in_red() {
    assert_eq!(
        "\u{1b}[31mThe selection is not one of the search results!\u{1b}[0m",
        rejected_message(Fault::NotOffered)
    );
    assert_eq!(
        "\u{1b}[31mThe selection does not name a package manager and a package!\u{1b}[0m",
        rejected_message(Fault::Malformed)
    );
    assert_eq!(
        "\u{1b}[31mThe selection names a package manager that is not in use here!\u{1b}[0m",
        rejected_message(Fault::UnknownManager)
    );
}
