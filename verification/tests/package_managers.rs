use foraget::package_managers::{
    get_package_managers_for_arch, get_package_managers_for_debian,
    get_package_managers_for_linux, get_package_managers_for_macos,
    get_package_managers_for_redhat, Installer, PackageManager,
};

fn get_package_manager_with_root() -> PackageManager {
    PackageManager {
        command_name: "pack-man",
        search_key: "find",
        install_key: "add",
        uninstall_key: "remove",
        run_key: "start",
        no_confirm_key: "-y",
        does_need_root: true,
    }
}

fn get_package_manager_without_root() -> PackageManager {
    PackageManager {
        command_name: "pack-man",
        search_key: "find",
        install_key: "add",
        uninstall_key: "remove",
        run_key: "",
        no_confirm_key: "-y",
        does_need_root: false,
    }
}

fn names(managers: &Vec<PackageManager>) -> Vec<&'static str> {
    managers.iter().map(|manager| manager.command_name).collect()
}

#[test]
fn gen_search_command() {
    assert_eq!(
        String::from("pack-man find emacs"),
        get_package_manager_with_root().gen_search_command("emacs"),
        "Generates search command for a package manager"
    );
}

#[test]
fn gen_install_command_with_root() {
    assert_eq!(
        String::from("sudo pack-man add emacs -y"),
        get_package_manager_with_root().gen_install_command("emacs"),
        "Generates install command for a package manager with root"
    );
}

#[test]
fn gen_install_command_without_root() {
    assert_eq!(
        String::from("pack-man add emacs -y"),
        get_package_manager_without_root().gen_install_command("emacs"),
        "Generates install command for a package manager without root"
    );
}

#[test]
fn gen_uninstall_command_with_root() {
    assert_eq!(
        String::from("sudo pack-man remove emacs -y"),
        get_package_manager_with_root().gen_uninstall_command("emacs"),
        "Generates uninstall command for a package manager with root"
    );
}

#[test]
fn gen_uninstall_command_without_root() {
    assert_eq!(
        String::from("pack-man remove emacs -y"),
        get_package_manager_without_root().gen_uninstall_command("emacs"),
        "Generates uninstall command for a package manager without root"
    );
}

#[test]
fn gen_run_command_with_run_key() {
    assert_eq!(
        String::from("pack-man start emacs"),
        get_package_manager_with_root().gen_run_command("emacs"),
        "Generates run command for a package manager with a run key"
    );
}

#[test]
fn gen_run_command_without_run_key() {
    assert_eq!(
        String::from("emacs"),
        get_package_manager_without_root().gen_run_command("emacs"),
        "Generates run command for a package manager without a run key"
    );
}

#[test]
fn install_command_leaves_no_space_behind_without_no_confirm_key() {
    let managers = get_package_managers_for_macos();
    assert_eq!("brew install wget", managers[0].gen_install_command("wget"));
    assert_eq!("brew uninstall wget", managers[0].gen_uninstall_command("wget"));
}

#[test]
fn install_command_starts_with_sudo_exactly_for_root() {
    for manager in get_package_managers_for_arch() {
        let command = manager.gen_install_command("neovim");
        assert_eq!(manager.does_need_root, command.starts_with("sudo "));
    }
    for manager in get_package_managers_for_debian() {
        let command = manager.gen_uninstall_command("neovim");
        assert_eq!(manager.does_need_root, command.starts_with("sudo "));
    }
}

#[test]
fn install_command_of_a_manager_named_sudo() {
    let manager = PackageManager {
        command_name: "sudo",
        search_key: "find",
        install_key: "add",
        uninstall_key: "remove",
        run_key: "",
        no_confirm_key: "",
        does_need_root: false,
    };
    assert_eq!("sudo add emacs", manager.gen_install_command("emacs"));
}

#[test]
fn install_command_of_pacman() {
    let managers = get_package_managers_for_arch();
    assert_eq!("sudo pacman -S neovim --noconfirm", managers[0].gen_install_command("neovim"));
    assert_eq!("paru -S neovim --noconfirm", managers[1].gen_install_command("neovim"));
    assert_eq!("sudo pacman -R neovim --noconfirm", managers[0].gen_uninstall_command("neovim"));
    assert_eq!("pacman -Ssq neovim", managers[0].gen_search_command("neovim"));
}

#[test]
fn run_command_of_flatpak_and_snap() {
    let managers = get_package_managers_for_debian();
    assert_eq!("gimp", managers[1].gen_run_command("gimp"));
    assert_eq!("flatpak run gimp", managers[2].gen_run_command("gimp"));
}

#[test]
fn commands_with_an_empty_package() {
    let manager = get_package_manager_with_root();
    assert_eq!("pack-man find ", manager.gen_search_command(""));
    assert_eq!("sudo pack-man add  -y", manager.gen_install_command(""));
    assert_eq!("pack-man start ", manager.gen_run_command(""));
}

#[test]
fn families_in_order() {
    assert_eq!(vec!["pacman", "paru", "snap", "flatpak"], names(&get_package_managers_for_arch()));
    assert_eq!(vec!["dnf", "snap", "flatpak"], names(&get_package_managers_for_redhat()));
    assert_eq!(vec!["apt", "snap", "flatpak"], names(&get_package_managers_for_debian()));
    assert_eq!(vec!["brew"], names(&get_package_managers_for_macos()));
}

#[test]
fn catalog_entries() {
    let arch = get_package_managers_for_arch();
    assert_eq!("-Ssq", arch[1].search_key);
    assert_eq!("-S", arch[1].install_key);
    assert_eq!("-R", arch[1].uninstall_key);
    assert_eq!("", arch[1].run_key);
    assert_eq!("--noconfirm", arch[1].no_confirm_key);
    assert!(!arch[1].does_need_root);
    assert_eq!("find", arch[2].search_key);
    assert_eq!("remove", arch[2].uninstall_key);
    assert_eq!("run", arch[3].run_key);
    let redhat = get_package_managers_for_redhat();
    assert_eq!("sudo dnf install vim -y", redhat[0].gen_install_command("vim"));
    assert_eq!("dnf search vim", redhat[0].gen_search_command("vim"));
    let debian = get_package_managers_for_debian();
    assert_eq!("sudo apt uninstall vim -y", debian[0].gen_uninstall_command("vim"));
}

#[test]
fn linux_family_goes_by_the_first_probe_that_succeeds() {
    assert_eq!(
        vec!["pacman", "paru", "snap", "flatpak"],
        names(&get_package_managers_for_linux(true, true, true).unwrap())
    );
    assert_eq!(
        vec!["pacman", "paru", "snap", "flatpak"],
        names(&get_package_managers_for_linux(true, false, false).unwrap())
    );
    assert_eq!(
        vec!["dnf", "snap", "flatpak"],
        names(&get_package_managers_for_linux(false, true, true).unwrap())
    );
    assert_eq!(
        vec!["apt", "snap", "flatpak"],
        names(&get_package_managers_for_linux(false, false, true).unwrap())
    );
    assert!(get_package_managers_for_linux(false, false, false).is_none());
}
