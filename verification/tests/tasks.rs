use foraget::labels::{break_pair_from_search_result, parse_search_result};
use foraget::package_managers::{get_package_managers_for_arch, PackageManager};
use foraget::tasks::{
    gen_search_requests, get_paired_search_results, get_search_results, SearchOutput,
};

fn strings(items: &[&str]) -> Vec<String> {
    items.iter().map(|item| item.to_string()).collect()
}

fn output(manager: &str, lines: &[&str]) -> SearchOutput {
    SearchOutput { manager: manager.to_string(), lines: strings(lines) }
}

fn pair(manager: &str, package: &str) -> Option<(String, String)> {
    Some((manager.to_string(), package.to_string()))
}

#[test]
fn get_paired_search_results_some_values() {
    assert_eq!(
        vec![
            String::from("pack-man -> One"),
            String::from("pack-man -> Two"),
            String::from("pack-man -> Three")
        ],
        get_paired_search_results(
            "pack-man",
            &vec![
                String::from("One"),
                String::from("Two"),
                String::from("Three")
            ]
        ),
        "Creates a string vector of pairs when supplied with a few values"
    );
}

#[test]
fn get_paired_search_results_no_value() {
    assert_eq!(
        Vec::<String>::new(),
        get_paired_search_results("pack-man", &Vec::<String>::new()),
        "Creates a string vector of pairs when supplied with no value"
    );
}

#[test]
fn break_pair_from_search_result_simple() {
    assert_eq!(
        (String::from("pack-man"), String::from("emacs")),
        break_pair_from_search_result("pack-man -> emacs"),
        "Breaks a search result into a pair"
    );
}

#[test]
fn get_paired_search_results_drops_empty_lines() {
    assert_eq!(
        strings(&["pacman -> vim"]),
        get_paired_search_results("pacman", &strings(&["", "vim", ""]))
    );
    assert_eq!(Vec::<String>::new(), get_paired_search_results("pacman", &strings(&["", ""])));
}

#[test]
fn get_paired_search_results_keeps_lines_of_spaces() {
    assert_eq!(
        strings(&["pacman ->  ", "pacman -> a b"]),
        get_paired_search_results("pacman", &strings(&[" ", "a b"]))
    );
}

#[test]
fn search_results_keep_the_order_of_the_managers() {
    assert_eq!(
        strings(&["A -> x", "B -> y"]),
        get_search_results(&vec![output("A", &["x"]), output("B", &["y"])])
    );
    assert_eq!(
        strings(&["B -> y", "A -> x"]),
        get_search_results(&vec![output("B", &["y"]), output("A", &["x"])])
    );
}

#[test]
fn search_results_keep_what_two_managers_both_offer() {
    assert_eq!(
        strings(&["pacman -> vim", "pacman -> gvim", "snap -> vim"]),
        get_search_results(&vec![
            output("pacman", &["vim", "", "gvim"]),
            output("paru", &[""]),
            output("snap", &["vim"]),
        ])
    );
}

#[test]
fn search_results_of_nothing() {
    assert_eq!(Vec::<String>::new(), get_search_results(&Vec::new()));
    assert_eq!(Vec::<String>::new(), get_search_results(&vec![output("pacman", &[])]));
}

#[test]
fn search_results_of_pacman_for_neovim() {
    assert_eq!(
        strings(&["pacman -> neovim", "pacman -> neovim-qt"]),
        get_search_results(&vec![output("pacman", &["neovim", "neovim-qt"])])
    );
}

#[test]
fn search_requests_pass_over_absent_managers() {
    let managers = get_package_managers_for_arch();
    let requests = gen_search_requests(&managers, &vec![true, false, false, true], "neovim");
    assert_eq!(2, requests.len());
    assert_eq!("pacman", requests[0].manager);
    assert_eq!("pacman -Ssq neovim", requests[0].command);
    assert_eq!("flatpak", requests[1].manager);
    assert_eq!("flatpak search neovim", requests[1].command);
}

#[test]
fn search_requests_for_every_manager_in_order() {
    let managers = get_package_managers_for_arch();
    let requests = gen_search_requests(&managers, &vec![true, true, true, true], "vim");
    let commands: Vec<&str> = requests.iter().map(|request| request.command.as_str()).collect();
    assert_eq!(
        vec!["pacman -Ssq vim", "paru -Ssq vim", "snap find vim", "flatpak search vim"],
        commands
    );
}

#[test]
fn search_requests_without_flags_or_managers() {
    let managers = get_package_managers_for_arch();
    assert_eq!(0, gen_search_requests(&managers, &Vec::new(), "vim").len());
    assert_eq!(0, gen_search_requests(&managers, &vec![false, false, false, false], "vim").len());
    assert_eq!(1, gen_search_requests(&managers, &vec![false, true], "vim").len());
    let none: Vec<PackageManager> = Vec::new();
    assert_eq!(0, gen_search_requests(&none, &vec![true, true], "vim").len());
}

#[test]
fn parse_search_result_splits_at_the_first_separator() {
    assert_eq!(pair("pacman", "neovim"), parse_search_result("pacman -> neovim"));
    assert_eq!(pair("a", "b -> c"), parse_search_result("a -> b -> c"));
    assert_eq!(pair("", ""), parse_search_result(" -> "));
    assert_eq!(pair("", "x"), parse_search_result(" -> x"));
    assert_eq!(pair("x", ""), parse_search_result("x -> "));
    assert_eq!(pair("snap", "héllo wörld"), parse_search_result("snap -> héllo wörld"));
}

#[test]
fn parse_search_result_without_separator() {
    assert_eq!(None, parse_search_result(""));
    assert_eq!(None, parse_search_result("pacman"));
    assert_eq!(None, parse_search_result("pacman->neovim"));
    assert_eq!(None, parse_search_result("pacman ->neovim"));
    assert_eq!(None, parse_search_result(" ->"));
}

#[test]
fn parse_search_result_gives_back_what_a_label_was_made_of() {
    for manager in ["pacman", "pack-man", "a b", "->", "x->"] {
        for package in ["neovim", "", " ", "a -> b", "-> x", " ->"] {
            let labels = get_paired_search_results(manager, &strings(&[package]));
            if package.is_empty() {
                assert!(labels.is_empty());
            } else {
                assert_eq!(pair(manager, package), parse_search_result(&labels[0]));
                assert_eq!(
                    (manager.to_string(), package.to_string()),
                    break_pair_from_search_result(&labels[0])
                );
            }
        }
    }
}

#[test]
fn parse_search_result_after_a_manager_that_ends_like_a_separator() {
    let labels = get_paired_search_results("x ->", &strings(&["t"]));
    assert_eq!(strings(&["x -> -> t"]), labels);
    assert_eq!(pair("x", "-> t"), parse_search_result(&labels[0]));
}
