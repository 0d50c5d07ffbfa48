use foraget::package_managers::PackageManager;
use foraget::platforms::{
    get_operating_platform, get_relevant_package_managers, next_probe, Platform,
};

fn command_names(managers: &Option<Vec<PackageManager>>) -> Option<Vec<&'static str>> {
    managers.as_ref().map(|list| list.iter().map(|manager| manager.command_name).collect())
}

/// Probes as `next_probe` asks, answering by `installed`, and returns the probes that
/// were made together with the package managers that came of them.
fn detect(platform: Platform, installed: &[&str]) -> (Vec<&'static str>, Option<Vec<&'static str>>) {
    let mut probes = Vec::new();
    let mut answers = Vec::new();
    while let Some(command) = next_probe(platform, &answers) {
        probes.push(command);
        answers.push(installed.contains(&command));
    }
    (probes, command_names(&get_relevant_package_managers(platform, &answers)))
}

#[test]
fn operating_platform_by_name() {
    assert_eq!(Platform::Linux, get_operating_platform("linux"));
    assert_eq!(Platform::MacOS, get_operating_platform("macos"));
    assert_eq!(Platform::Unknown, get_operating_platform("windows"));
    assert_eq!(Platform::Unknown, get_operating_platform(""));
    assert_eq!(Platform::Unknown, get_operating_platform("Linux"));
    assert_eq!(Platform::Unknown, get_operating_platform("linux "));
}

#[test]
fn macos_always_has_brew() {
    assert_eq!(
        Some(vec!["brew"]),
        command_names(&get_relevant_package_managers(Platform::MacOS, &Vec::new()))
    );
    assert_eq!(
        Some(vec!["brew"]),
        command_names(&get_relevant_package_managers(Platform::MacOS, &vec![true, true, true]))
    );
}

#[test]
fn unknown_platform_has_no_package_managers() {
    assert!(get_relevant_package_managers(Platform::Unknown, &vec![true, true, true]).is_none());
    assert!(get_relevant_package_managers(Platform::Unknown, &Vec::new()).is_none());
}

#[test]
fn linux_without_a_native_package_manager_is_not_supported() {
    assert!(get_relevant_package_managers(Platform::Linux, &vec![false, false, false]).is_none());
    assert!(get_relevant_package_managers(Platform::Linux, &Vec::new()).is_none());
    assert!(get_relevant_package_managers(Platform::Linux, &vec![false, false]).is_none());
    assert_eq!((vec!["pacman", "dnf", "apt"], None), detect(Platform::Linux, &[]));
    assert_eq!((vec!["pacman", "dnf", "apt"], None), detect(Platform::Linux, &["brew", "snap"]));
}

#[test]
fn linux_with_pacman_only() {
    assert_eq!(
        Some(vec!["pacman", "paru", "snap", "flatpak"]),
        command_names(&get_relevant_package_managers(Platform::Linux, &vec![true]))
    );
    assert_eq!(
        Some(vec!["pacman", "paru", "snap", "flatpak"]),
        command_names(&get_relevant_package_managers(Platform::Linux, &vec![true, false, false]))
    );
}

#[test]
fn linux_with_dnf_and_apt() {
    assert_eq!(
        Some(vec!["dnf", "snap", "flatpak"]),
        command_names(&get_relevant_package_managers(Platform::Linux, &vec![false, true, true]))
    );
    assert_eq!(
        Some(vec!["apt", "snap", "flatpak"]),
        command_names(&get_relevant_package_managers(Platform::Linux, &vec![false, false, true]))
    );
    assert_eq!(
        Some(vec!["apt", "snap", "flatpak"]),
        command_names(&get_relevant_package_managers(
            Platform::Linux,
            &vec![false, false, true, true]
        ))
    );
}

#[test]
fn probes_stop_at_the_first_that_succeeds() {
    assert_eq!(
        (vec!["pacman"], Some(vec!["pacman", "paru", "snap", "flatpak"])),
        detect(Platform::Linux, &["pacman", "dnf", "apt"])
    );
    assert_eq!(
        (vec!["pacman", "dnf"], Some(vec!["dnf", "snap", "flatpak"])),
        detect(Platform::Linux, &["dnf", "apt"])
    );
    assert_eq!(
        (vec!["pacman", "dnf", "apt"], Some(vec!["apt", "snap", "flatpak"])),
        detect(Platform::Linux, &["apt"])
    );
}

#[test]
fn probes_are_for_linux_only() {
    assert_eq!((Vec::new(), Some(vec!["brew"])), detect(Platform::MacOS, &["pacman"]));
    assert_eq!((Vec::new(), None), detect(Platform::Unknown, &["pacman"]));
    assert_eq!(None, next_probe(Platform::MacOS, &Vec::new()));
    assert_eq!(None, next_probe(Platform::Unknown, &vec![false]));
}

#[test]
fn next_probe_by_the_answers_so_far() {
    assert_eq!(Some("pacman"), next_probe(Platform::Linux, &Vec::new()));
    assert_eq!(Some("dnf"), next_probe(Platform::Linux, &vec![false]));
    assert_eq!(Some("apt"), next_probe(Platform::Linux, &vec![false, false]));
    assert_eq!(None, next_probe(Platform::Linux, &vec![false, false, false]));
    assert_eq!(None, next_probe(Platform::Linux, &vec![true]));
    assert_eq!(None, next_probe(Platform::Linux, &vec![false, true]));
    assert_eq!(None, next_probe(Platform::Linux, &vec![false, false, false, false]));
}
