//! Package managers: what one is, which commands drive it, and which ones belong to each
//! family of systems.

use crate::labels::{is_label_safe, separator};
use crate::text::{occurs_at, starts_with};
use vstd::prelude::*;
use vstd::string::StringExecFns;

verus! {

/// A package manager, described by the words its command line takes.
pub struct PackageManager {
    pub command_name: &'static str,
    pub search_key: &'static str,
    pub install_key: &'static str,
    pub uninstall_key: &'static str,
    pub run_key: &'static str,
    pub no_confirm_key: &'static str,
    pub does_need_root: bool,
}

/// The mathematical content of a `PackageManager`.
pub struct Descriptor {
    pub command_name: Seq<char>,
    pub search_key: Seq<char>,
    pub install_key: Seq<char>,
    pub uninstall_key: Seq<char>,
    pub run_key: Seq<char>,
    pub no_confirm_key: Seq<char>,
    pub does_need_root: bool,
}

impl View for PackageManager {
    type V = Descriptor;

    open spec fn view(&self) -> Descriptor {
        Descriptor {
            command_name: self.command_name@,
            search_key: self.search_key@,
            install_key: self.install_key@,
            uninstall_key: self.uninstall_key@,
            run_key: self.run_key@,
            no_confirm_key: self.no_confirm_key@,
            does_need_root: self.does_need_root,
        }
    }
}

/// The single space that separates the words of a command.
pub open spec fn space() -> Seq<char> {
    seq![' ']
}

/// The word put in front of a command that must run as root, with its space.
pub open spec fn sudo() -> Seq<char> {
    seq!['s', 'u', 'd', 'o', ' ']
}

/// `"{command_name} {search_key} {package}"`.
pub open spec fn search_command(manager: Descriptor, package: Seq<char>) -> Seq<char> {
    manager.command_name + space() + manager.search_key + space() + package
}

/// `"{command_name} {key} {package}"`, with `"sudo "` in front where the manager needs
/// root, and followed by a space and the manager's no-confirm flag where it has one.
pub open spec fn privileged_command(
    manager: Descriptor,
    key: Seq<char>,
    package: Seq<char>,
) -> Seq<char> {
    let prefix = if manager.does_need_root {
        sudo()
    } else {
        Seq::<char>::empty()
    };
    let suffix = if manager.no_confirm_key.len() == 0 {
        Seq::<char>::empty()
    } else {
        space() + manager.no_confirm_key
    };
    prefix + manager.command_name + space() + key + space() + package + suffix
}

/// The command that installs `package`.
pub open spec fn install_command(manager: Descriptor, package: Seq<char>) -> Seq<char> {
    privileged_command(manager, manager.install_key, package)
}

/// The command that removes `package`.
pub open spec fn uninstall_command(manager: Descriptor, package: Seq<char>) -> Seq<char> {
    privileged_command(manager, manager.uninstall_key, package)
}

/// `"{command_name} {run_key} {package}"` where the manager has a run key; otherwise the
/// package's own name, which is then a program on the path.
pub open spec fn run_command(manager: Descriptor, package: Seq<char>) -> Seq<char> {
    if manager.run_key.len() == 0 {
        package
    } else {
        manager.command_name + space() + manager.run_key + space() + package
    }
}

/// A descriptor is well formed when it names a command.
pub open spec fn well_formed(manager: Descriptor) -> bool {
    manager.command_name.len() > 0
}

/// The descriptors of a candidate list, in order.
pub open spec fn descriptors(managers: Seq<PackageManager>) -> Seq<Descriptor> {
    managers.map_values(|manager: PackageManager| manager@)
}

/// A candidate list is well formed when each descriptor is, and no command name occurs
/// twice.
pub open spec fn well_formed_list(managers: Seq<Descriptor>) -> bool {
    &&& forall|i: int| 0 <= i < managers.len() ==> well_formed(#[trigger] managers[i])
    &&& forall|i: int, j: int|
        0 <= i < j < managers.len() ==> managers[i].command_name != managers[j].command_name
}

/// The commands that drive a package manager.
pub trait Installer {
    /// The command that searches for `package`.
    spec fn search_text(&self, package: Seq<char>) -> Seq<char>;

    /// The command that installs `package`.
    spec fn install_text(&self, package: Seq<char>) -> Seq<char>;

    /// The command that removes `package`.
    spec fn uninstall_text(&self, package: Seq<char>) -> Seq<char>;

    /// The command that runs `package`.
    spec fn run_text(&self, package: Seq<char>) -> Seq<char>;

    fn gen_search_command(&self, package: &str) -> (command: String)
        ensures
            command@ == self.search_text(package@),
    ;

    fn gen_install_command(&self, package: &str) -> (command: String)
        ensures
            command@ == self.install_text(package@),
    ;

    fn gen_uninstall_command(&self, package: &str) -> (command: String)
        ensures
            command@ == self.uninstall_text(package@),
    ;

    fn gen_run_command(&self, package: &str) -> (command: String)
        ensures
            command@ == self.run_text(package@),
    ;
}

impl PackageManager {
    /// Composes an install or uninstall command around `key`.
    fn gen_privileged_command(&self, key: &str, package: &str) -> (command: String)
        ensures
            command@ == privileged_command(self@, key@, package@),
    {
        proof {
            reveal_strlit("sudo ");
            reveal_strlit(" ");
            reveal_strlit("");
        }
        let mut command = if self.does_need_root {
            String::from_str("sudo ")
        } else {
            String::from_str("")
        };
        assert(command@ =~= if self.does_need_root {
            sudo()
        } else {
            Seq::<char>::empty()
        });
        command.append(self.command_name);
        command.append(" ");
        command.append(key);
        command.append(" ");
        command.append(package);
        if !self.no_confirm_key.is_empty() {
            command.append(" ");
            command.append(self.no_confirm_key);
        }
        assert(command@ =~= privileged_command(self@, key@, package@));
        command
    }
}

impl Installer for PackageManager {
    open spec fn search_text(&self, package: Seq<char>) -> Seq<char> {
        search_command(self@, package)
    }

    open spec fn install_text(&self, package: Seq<char>) -> Seq<char> {
        install_command(self@, package)
    }

    open spec fn uninstall_text(&self, package: Seq<char>) -> Seq<char> {
        uninstall_command(self@, package)
    }

    open spec fn run_text(&self, package: Seq<char>) -> Seq<char> {
        run_command(self@, package)
    }

    fn gen_search_command(&self, package: &str) -> (command: String) {
        proof {
            reveal_strlit(" ");
        }
        let mut command = String::from_str(self.command_name);
        command.append(" ");
        command.append(self.search_key);
        command.append(" ");
        command.append(package);
        assert(command@ =~= search_command(self@, package@));
        command
    }

    fn gen_install_command(&self, package: &str) -> (command: String) {
        self.gen_privileged_command(self.install_key, package)
    }

    fn gen_uninstall_command(&self, package: &str) -> (command: String) {
        self.gen_privileged_command(self.uninstall_key, package)
    }

    fn gen_run_command(&self, package: &str) -> (command: String) {
        proof {
            reveal_strlit(" ");
        }
        if self.run_key.is_empty() {
            String::from_str(package)
        } else {
            let mut command = String::from_str(self.command_name);
            command.append(" ");
            command.append(self.run_key);
            command.append(" ");
            command.append(package);
            assert(command@ =~= run_command(self@, package@));
            command
        }
    }
}

/// Whether an install or uninstall command begins with `"sudo "` is told by the
/// manager: one that needs root always does; one that does not never does, unless its
/// own name reads that way (the name `sudo`, or a name that begins with `"sudo "`).
pub proof fn lemma_sudo_prefix(manager: Descriptor, key: Seq<char>, package: Seq<char>)
    ensures
        manager.does_need_root ==> starts_with(privileged_command(manager, key, package), sudo()),
        !manager.does_need_root ==> (starts_with(privileged_command(manager, key, package), sudo())
            <==> starts_with(manager.command_name + space(), sudo())),
{
    let command = privileged_command(manager, key, package);
    let named = manager.command_name + space();
    let n = manager.command_name.len() as int;
    if manager.does_need_root {
        assert(command.subrange(0, 5) =~= sudo());
    } else {
        assert(forall|i: int| 0 <= i <= n ==> command[i] == named[i]);
        if n >= 4 {
            assert(command.subrange(0, 5) =~= named.subrange(0, 5));
        } else {
            if starts_with(command, sudo()) {
                assert(command.subrange(0, 5)[n] == sudo()[n]);
            }
        }
    }
}

/// An install command begins with `"sudo "` for every manager that needs root, and for
/// no manager that does not need it, unless the manager's own name reads as `"sudo "`.
pub proof fn lemma_install_sudo_prefix(manager: Descriptor, package: Seq<char>)
    ensures
        manager.does_need_root ==> starts_with(install_command(manager, package), sudo()),
        !manager.does_need_root && !starts_with(manager.command_name + space(), sudo())
            ==> !starts_with(install_command(manager, package), sudo()),
{
    lemma_sudo_prefix(manager, manager.install_key, package);
}

/// The descriptor of `pacman`.
pub open spec fn pacman() -> Descriptor {
    Descriptor {
        command_name: "pacman"@,
        search_key: "-Ssq"@,
        install_key: "-S"@,
        uninstall_key: "-R"@,
        run_key: ""@,
        no_confirm_key: "--noconfirm"@,
        does_need_root: true,
    }
}

/// The descriptor of `paru`, the helper for the Arch user repository.
pub open spec fn paru() -> Descriptor {
    Descriptor {
        command_name: "paru"@,
        search_key: "-Ssq"@,
        install_key: "-S"@,
        uninstall_key: "-R"@,
        run_key: ""@,
        no_confirm_key: "--noconfirm"@,
        does_need_root: false,
    }
}

/// The descriptor of `dnf`.
pub open spec fn dnf() -> Descriptor {
    Descriptor {
        command_name: "dnf"@,
        search_key: "search"@,
        install_key: "install"@,
        uninstall_key: "uninstall"@,
        run_key: ""@,
        no_confirm_key: "-y"@,
        does_need_root: true,
    }
}

/// The descriptor of `apt`.
pub open spec fn apt() -> Descriptor {
    Descriptor {
        command_name: "apt"@,
        search_key: "search"@,
        install_key: "install"@,
        uninstall_key: "uninstall"@,
        run_key: ""@,
        no_confirm_key: "-y"@,
        does_need_root: true,
    }
}

/// The descriptor of `snap`.
pub open spec fn snap() -> Descriptor {
    Descriptor {
        command_name: "snap"@,
        search_key: "find"@,
        install_key: "install"@,
        uninstall_key: "remove"@,
        run_key: ""@,
        no_confirm_key: ""@,
        does_need_root: false,
    }
}

/// The descriptor of `flatpak`.
pub open spec fn flatpak() -> Descriptor {
    Descriptor {
        command_name: "flatpak"@,
        search_key: "search"@,
        install_key: "install"@,
        uninstall_key: "uninstall"@,
        run_key: "run"@,
        no_confirm_key: ""@,
        does_need_root: false,
    }
}

/// The descriptor of `brew`.
pub open spec fn brew() -> Descriptor {
    Descriptor {
        command_name: "brew"@,
        search_key: "search"@,
        install_key: "install"@,
        uninstall_key: "uninstall"@,
        run_key: ""@,
        no_confirm_key: ""@,
        does_need_root: false,
    }
}

/// The candidates of the Arch family, in the order in which they are asked.
pub open spec fn arch_family() -> Seq<Descriptor> {
    seq![pacman(), paru(), snap(), flatpak()]
}

/// The candidates of the Red Hat family, in the order in which they are asked.
pub open spec fn redhat_family() -> Seq<Descriptor> {
    seq![dnf(), snap(), flatpak()]
}

/// The candidates of the Debian family, in the order in which they are asked.
pub open spec fn debian_family() -> Seq<Descriptor> {
    seq![apt(), snap(), flatpak()]
}

/// The candidates on macOS.
pub open spec fn macos_family() -> Seq<Descriptor> {
    seq![brew()]
}

/// What the names of the catalog hold.
proof fn lemma_catalog_names()
    ensures
        "pacman"@ == seq!['p', 'a', 'c', 'm', 'a', 'n'],
        "paru"@ == seq!['p', 'a', 'r', 'u'],
        "dnf"@ == seq!['d', 'n', 'f'],
        "apt"@ == seq!['a', 'p', 't'],
        "snap"@ == seq!['s', 'n', 'a', 'p'],
        "flatpak"@ == seq!['f', 'l', 'a', 't', 'p', 'a', 'k'],
        "brew"@ == seq!['b', 'r', 'e', 'w'],
{
    reveal_strlit("pacman");
    reveal_strlit("paru");
    reveal_strlit("dnf");
    reveal_strlit("apt");
    reveal_strlit("snap");
    reveal_strlit("flatpak");
    reveal_strlit("brew");
    assert("pacman"@ =~= seq!['p', 'a', 'c', 'm', 'a', 'n']);
    assert("paru"@ =~= seq!['p', 'a', 'r', 'u']);
    assert("dnf"@ =~= seq!['d', 'n', 'f']);
    assert("apt"@ =~= seq!['a', 'p', 't']);
    assert("snap"@ =~= seq!['s', 'n', 'a', 'p']);
    assert("flatpak"@ =~= seq!['f', 'l', 'a', 't', 'p', 'a', 'k']);
    assert("brew"@ =~= seq!['b', 'r', 'e', 'w']);
}

/// Every family of the catalog is a well-formed candidate list: each manager names a
/// command, and none is named twice.
pub proof fn lemma_families_well_formed()
    ensures
        well_formed_list(arch_family()),
        well_formed_list(redhat_family()),
        well_formed_list(debian_family()),
        well_formed_list(macos_family()),
{
    lemma_catalog_names();
    assert(pacman().command_name[2] != paru().command_name[2]);
    assert(paru().command_name[0] != snap().command_name[0]);
}

/// A name without a space is label-safe.
pub proof fn lemma_spaceless_is_label_safe(name: Seq<char>)
    requires
        forall|i: int| 0 <= i < name.len() ==> name[i] != ' ',
    ensures
        is_label_safe(name),
{
    assert forall|at: int| !occurs_at(name, separator(), at) by {
        if occurs_at(name, separator(), at) {
            assert(name.subrange(at, at + 4)[0] == ' ');
        }
    }
    let tail = seq![' ', '-', '>'];
    if occurs_at(name, tail, name.len() - 3) {
        assert(name.subrange(name.len() - 3, name.len() as int)[0] == ' ');
    }
}

/// Every manager of the catalog has a label-safe name, so that each label made with
/// it can be split again.
pub proof fn lemma_catalog_is_label_safe()
    ensures
        forall|i: int|
            0 <= i < arch_family().len() ==> is_label_safe((#[trigger] arch_family()[i]).command_name),
        forall|i: int|
            0 <= i < redhat_family().len() ==> is_label_safe(
                (#[trigger] redhat_family()[i]).command_name,
            ),
        forall|i: int|
            0 <= i < debian_family().len() ==> is_label_safe(
                (#[trigger] debian_family()[i]).command_name,
            ),
        forall|i: int|
            0 <= i < macos_family().len() ==> is_label_safe(
                (#[trigger] macos_family()[i]).command_name,
            ),
{
    lemma_catalog_names();
    lemma_spaceless_is_label_safe("pacman"@);
    lemma_spaceless_is_label_safe("paru"@);
    lemma_spaceless_is_label_safe("dnf"@);
    lemma_spaceless_is_label_safe("apt"@);
    lemma_spaceless_is_label_safe("snap"@);
    lemma_spaceless_is_label_safe("flatpak"@);
    lemma_spaceless_is_label_safe("brew"@);
}

fn get_pacman() -> (manager: PackageManager)
    ensures
        manager@ == pacman(),
{
    PackageManager {
        command_name: "pacman",
        search_key: "-Ssq",
        install_key: "-S",
        uninstall_key: "-R",
        run_key: "",
        no_confirm_key: "--noconfirm",
        does_need_root: true,
    }
}

fn get_paru() -> (manager: PackageManager)
    ensures
        manager@ == paru(),
{
    PackageManager {
        command_name: "paru",
        search_key: "-Ssq",
        install_key: "-S",
        uninstall_key: "-R",
        run_key: "",
        no_confirm_key: "--noconfirm",
        does_need_root: false,
    }
}

fn get_dnf() -> (manager: PackageManager)
    ensures
        manager@ == dnf(),
{
    PackageManager {
        command_name: "dnf",
        search_key: "search",
        install_key: "install",
        uninstall_key: "uninstall",
        run_key: "",
        no_confirm_key: "-y",
        does_need_root: true,
    }
}

fn get_apt() -> (manager: PackageManager)
    ensures
        manager@ == apt(),
{
    PackageManager {
        command_name: "apt",
        search_key: "search",
        install_key: "install",
        uninstall_key: "uninstall",
        run_key: "",
        no_confirm_key: "-y",
        does_need_root: true,
    }
}

fn get_snap() -> (manager: PackageManager)
    ensures
        manager@ == snap(),
{
    PackageManager {
        command_name: "snap",
        search_key: "find",
        install_key: "install",
        uninstall_key: "remove",
        run_key: "",
        no_confirm_key: "",
        does_need_root: false,
    }
}

fn get_flatpak() -> (manager: PackageManager)
    ensures
        manager@ == flatpak(),
{
    PackageManager {
        command_name: "flatpak",
        search_key: "search",
        install_key: "install",
        uninstall_key: "uninstall",
        run_key: "run",
        no_confirm_key: "",
        does_need_root: false,
    }
}

fn get_brew() -> (manager: PackageManager)
    ensures
        manager@ == brew(),
{
    PackageManager {
        command_name: "brew",
        search_key: "search",
        install_key: "install",
        uninstall_key: "uninstall",
        run_key: "",
        no_confirm_key: "",
        does_need_root: false,
    }
}

/// The candidates of the Arch family.
pub fn get_package_managers_for_arch() -> (managers: Vec<PackageManager>)
    ensures
        descriptors(managers@) == arch_family(),
        well_formed_list(descriptors(managers@)),
{
    let mut managers: Vec<PackageManager> = Vec::new();
    managers.push(get_pacman());
    managers.push(get_paru());
    managers.push(get_snap());
    managers.push(get_flatpak());
    proof {
        assert(descriptors(managers@) =~= arch_family());
        lemma_families_well_formed();
    }
    managers
}

/// The candidates of the Red Hat family.
pub fn get_package_managers_for_redhat() -> (managers: Vec<PackageManager>)
    ensures
        descriptors(managers@) == redhat_family(),
        well_formed_list(descriptors(managers@)),
{
    let mut managers: Vec<PackageManager> = Vec::new();
    managers.push(get_dnf());
    managers.push(get_snap());
    managers.push(get_flatpak());
    proof {
        assert(descriptors(managers@) =~= redhat_family());
        lemma_families_well_formed();
    }
    managers
}

/// The candidates of the Debian family.
pub fn get_package_managers_for_debian() -> (managers: Vec<PackageManager>)
    ensures
        descriptors(managers@) == debian_family(),
        well_formed_list(descriptors(managers@)),
{
    let mut managers: Vec<PackageManager> = Vec::new();
    managers.push(get_apt());
    managers.push(get_snap());
    managers.push(get_flatpak());
    proof {
        assert(descriptors(managers@) =~= debian_family());
        lemma_families_well_formed();
    }
    managers
}

/// The candidates on macOS.
pub fn get_package_managers_for_macos() -> (managers: Vec<PackageManager>)
    ensures
        descriptors(managers@) == macos_family(),
        well_formed_list(descriptors(managers@)),
{
    let mut managers: Vec<PackageManager> = Vec::new();
    managers.push(get_brew());
    proof {
        assert(descriptors(managers@) =~= macos_family());
        lemma_families_well_formed();
    }
    managers
}

/// The candidates on Linux, where the family is told by its native package manager:
/// `has_pacman`, `has_dnf` and `has_apt` say which of the three is installed, and the
/// first of them that is decides. With none of them there is no candidate list.
pub fn get_package_managers_for_linux(
    has_pacman: bool,
    has_dnf: bool,
    has_apt: bool,
) -> (managers: Option<Vec<PackageManager>>)
    ensures
        managers is Some <==> has_pacman || has_dnf || has_apt,
        managers matches Some(list) ==> {
            &&& descriptors(list@) == linux_family(has_pacman, has_dnf, has_apt)
            &&& well_formed_list(descriptors(list@))
        },
{
    if has_pacman {
        Some(get_package_managers_for_arch())
    } else if has_dnf {
        Some(get_package_managers_for_redhat())
    } else if has_apt {
        Some(get_package_managers_for_debian())
    } else {
        None
    }
}

/// The family that the three probes select; empty where none succeeded.
pub open spec fn linux_family(has_pacman: bool, has_dnf: bool, has_apt: bool) -> Seq<Descriptor> {
    if has_pacman {
        arch_family()
    } else if has_dnf {
        redhat_family()
    } else if has_apt {
        debian_family()
    } else {
        Seq::empty()
    }
}

} // verus!
