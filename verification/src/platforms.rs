//! The platforms the library knows, and the package managers that belong to each.
//!
//! Linux has no name for its families that could be relied upon, so a family is told by
//! its native package manager. The host is probed for `pacman`, then `dnf`, then `apt`,
//! and the first that is found decides.

use crate::environment::is_present;
use crate::package_managers::{
    descriptors, get_package_managers_for_linux, get_package_managers_for_macos, linux_family,
    macos_family, well_formed_list, Descriptor, PackageManager,
};
use vstd::prelude::*;
use vstd::string::StringExecFns;

verus! {

/// The platforms that are told apart.
#[derive(Clone, Copy, Debug, PartialEq, Eq, Structural)]
pub enum Platform {
    Linux,
    MacOS,
    Unknown,
}

/// The platform that goes by the operating system name `os`.
pub open spec fn platform_of(os: Seq<char>) -> Platform {
    if os == "linux"@ {
        Platform::Linux
    } else if os == "macos"@ {
        Platform::MacOS
    } else {
        Platform::Unknown
    }
}

/// The commands for which a Linux host is probed, in the order of the probes.
pub open spec fn linux_probes() -> Seq<Seq<char>> {
    seq!["pacman"@, "dnf"@, "apt"@]
}

/// The command to probe for next, after the probes so far were answered by `answers`:
/// the next of `linux_probes`, as long as the platform is Linux, no probe succeeded yet
/// and one is left. `None` says that nothing more is to be asked.
pub open spec fn next_probe_of(platform: Platform, answers: Seq<bool>) -> Option<Seq<char>> {
    if platform == Platform::Linux && !answers.contains(true) && answers.len()
        < linux_probes().len() {
        Some(linux_probes()[answers.len() as int])
    } else {
        None
    }
}

/// The candidate list of a platform; `None` where the platform is not supported.
/// On Linux the answers to the probes tell the family, the first that succeeded
/// deciding; a probe that was not made counts as failed.
pub open spec fn candidates(platform: Platform, answers: Seq<bool>) -> Option<Seq<Descriptor>> {
    match platform {
        Platform::Linux => {
            let has_pacman = is_present(answers, 0);
            let has_dnf = is_present(answers, 1);
            let has_apt = is_present(answers, 2);
            if has_pacman || has_dnf || has_apt {
                Some(linux_family(has_pacman, has_dnf, has_apt))
            } else {
                None
            }
        },
        Platform::MacOS => Some(macos_family()),
        Platform::Unknown => None,
    }
}

/// The platform named by `os`, the operating system's name as the host reports it
/// (`"linux"`, `"macos"`, ...). Any other name is `Platform::Unknown`.
pub fn get_operating_platform(os: &str) -> (platform: Platform)
    ensures
        platform == platform_of(os@),
{
    let name = String::from_str(os);
    if name == String::from_str("linux") {
        Platform::Linux
    } else if name == String::from_str("macos") {
        Platform::MacOS
    } else {
        Platform::Unknown
    }
}

/// The command to probe the host for next, if any. `answers` holds what the probes
/// made so far have answered, in their order.
pub fn next_probe(platform: Platform, answers: &Vec<bool>) -> (probe: Option<&'static str>)
    ensures
        match next_probe_of(platform, answers@) {
            Some(command) => probe matches Some(found) && found@ == command,
            None => probe is None,
        },
{
    match platform {
        Platform::Linux => {},
        _ => {
            return None;
        },
    }
    let mut i: usize = 0;
    while i < answers.len()
        invariant
            i <= answers.len(),
            forall|k: int| 0 <= k < i ==> !answers[k],
        decreases answers.len() - i,
    {
        if answers[i] {
            assert(answers@.contains(answers[i as int]));
            return None;
        }
        i += 1;
    }
    if answers.len() == 0 {
        Some("pacman")
    } else if answers.len() == 1 {
        Some("dnf")
    } else if answers.len() == 2 {
        Some("apt")
    } else {
        None
    }
}

/// The package managers to ask on `platform`, given the answers to the probes that
/// `next_probe` called for. `None` means that the host is not supported.
pub fn get_relevant_package_managers(
    platform: Platform,
    answers: &Vec<bool>,
) -> (managers: Option<Vec<PackageManager>>)
    ensures
        match candidates(platform, answers@) {
            Some(expected) => managers matches Some(list) && descriptors(list@) == expected
                && well_formed_list(expected),
            None => managers is None,
        },
{
    match platform {
        Platform::Linux => get_package_managers_for_linux(
            answers.len() > 0 && answers[0],
            answers.len() > 1 && answers[1],
            answers.len() > 2 && answers[2],
        ),
        Platform::MacOS => Some(get_package_managers_for_macos()),
        Platform::Unknown => None,
    }
}

/// The probes come to an end, and decide: once nothing more is to be asked on Linux,
/// the host is supported exactly if one of the probes succeeded, and the family is
/// that of the one probe that did.
pub proof fn lemma_probes_decide(answers: Seq<bool>)
    requires
        next_probe_of(Platform::Linux, answers) is None,
        forall|k: int| 0 <= k < answers.len() - 1 ==> !answers[k],
        answers.len() <= linux_probes().len(),
    ensures
        candidates(Platform::Linux, answers) is Some <==> answers.len() > 0 && answers.last(),
        answers.len() > 0 && answers.last() ==> candidates(Platform::Linux, answers) == Some(
            linux_family(answers.len() == 1, answers.len() == 2, answers.len() == 3),
        ),
{
    if answers.len() > 0 && !answers.last() {
        assert forall|k: int| 0 <= k < answers.len() implies !answers[k] by {}
        assert(!answers.contains(true));
    }
}

} // verus!
