use reconciler::chroot::{install_grub, install_important_packages, InstallError};
use reconciler::data_types::{
    DirectoriesDiff, DownloadsDiff, Fail2BanDiff, FilesDiff, GrubDiff, KeyboardDiff, LanguageDiff,
    MkinitcpioDiff, MonitorDiff, New, PackagesDiff, PacmanDiff, ServicesDiff, ShellDiff,
    SystemDiff, TimeDiff, UfwDiff, UserDiff,
};
use reconciler::entry::Entry;
use reconciler::function::{
    aggregate, chain, combine, create_groups, execute, execute_each, failures, hosts_text,
    jail_text, list_line_text, membership_command, monitor_text, Action, ActionError, Add, Remove,
};
use reconciler::item::Item;
use reconciler::get_diff::GetDiff;
use reconciler::helper::{replace_line, ExecutionContext};
use reconciler::probe::{Fault, Finding, Inquiry, Probe, ProbeError, Question};
use reconciler::setup::{setup_environment_on_installation, Setup, SetupError};
use reconciler::structure::{
    CreateDirs, CurlDownload, Disk, GitDownload, Keyboard, Language, Links, ManualInstallPackages,
    MonitorStruct, Packages, Pacman, Partition, Partitioning, ReownDirs, System, TextToFile, Unzip,
    User,
};

const ROOT: ExecutionContext = ExecutionContext { privileged: true };
const USER: ExecutionContext = ExecutionContext { privileged: false };

fn names(list: &[&str]) -> Vec<String> {
    list.iter().map(|s| s.to_string()).collect()
}

fn text(s: &str) -> Option<String> {
    Some(s.to_string())
}

fn run(command: &str) -> Action {
    Action::Execute { command: command.to_string(), dir: "/".to_string() }
}

fn run_in(command: &str, dir: &str) -> Action {
    Action::Execute { command: command.to_string(), dir: dir.to_string() }
}

fn replace(path: &str, old_str: &str, new_str: &str) -> Action {
    Action::ReplaceLine {
        path: path.to_string(),
        old_str: old_str.to_string(),
        new_str: new_str.to_string(),
    }
}

fn write(path: &str, content: &str) -> Action {
    Action::WriteFile { path: path.to_string(), content: content.to_string() }
}

fn flag(kind: Inquiry, subject: &str, ok: bool) -> Finding {
    Finding { question: Question { kind, subject: subject.to_string() }, ok, text: String::new() }
}

fn output(command: &str, content: &str) -> Finding {
    Finding {
        question: Question { kind: Inquiry::Output, subject: command.to_string() },
        ok: true,
        text: content.to_string(),
    }
}

fn ask(kind: Inquiry, subject: &str) -> Question {
    Question { kind, subject: subject.to_string() }
}

fn done(actions: Vec<Action>) -> Probe<Vec<Action>> {
    Probe::Done(actions)
}

/// Answers the questions of a plan from a prepared system.
fn plan<T: Add>(triple: &T, system: &[Finding], context: ExecutionContext) -> Vec<Action> {
    let mut findings: Vec<Finding> = Vec::new();
    loop {
        match triple.add(&findings, context) {
            Probe::Done(actions) => return actions,
            Probe::Ask(question) => {
                let answer = system
                    .iter()
                    .find(|f| f.question == question)
                    .unwrap_or_else(|| panic!("no answer prepared for {:?}", question));
                findings.push(answer.clone());
            }
            Probe::Failed(error) => panic!("plan failed: {:?}", error),
        }
    }
}

#[test]
fn hostname_change_is_applied_to_both_files() {
    let mut system = SystemDiff::new();
    system.config = System { hostname: text("node2") };
    system.system = System { hostname: text("node1") };
    system.get_diff();
    assert_eq!(
        system.add(&vec![], ROOT),
        done(vec![
            write("/etc/hostname", "node2"),
            write(
                "/etc/hosts",
                "127.0.0.1       localhost\n::1             localhost\n127.0.1.1       node2.localdomain node2"
            ),
        ])
    );
}

#[test]
fn the_table_of_hosts_names_the_machine_twice() {
    assert_eq!(
        hosts_text("node2"),
        "127.0.0.1       localhost\n::1             localhost\n127.0.1.1       node2.localdomain node2"
    );
}

#[test]
fn an_empty_delta_performs_no_action() {
    assert_eq!(SystemDiff::new().add(&vec![], ROOT), done(vec![]));
    assert_eq!(KeyboardDiff::new().add(&vec![], ROOT), done(vec![]));
    assert_eq!(TimeDiff::new().add(&vec![], ROOT), done(vec![]));
    assert_eq!(LanguageDiff::new().add(&vec![], ROOT), done(vec![]));
    assert_eq!(ShellDiff::new().add(&vec![], USER), done(vec![]));
    assert_eq!(UserDiff::new().add(&vec![], ROOT), done(vec![]));
    assert_eq!(UserDiff::new().remove(ROOT), vec![]);
    assert_eq!(PacmanDiff::new().add(&vec![], ROOT), done(vec![]));
    assert_eq!(PackagesDiff::new().add(&vec![], ROOT), done(vec![]));
    assert_eq!(PackagesDiff::new().remove(ROOT), vec![]);
    assert_eq!(ServicesDiff::new().add(&vec![], ROOT), done(vec![]));
    assert_eq!(ServicesDiff::new().remove(ROOT), vec![]);
    assert_eq!(DirectoriesDiff::new().add(&vec![], ROOT), done(vec![]));
    assert_eq!(GrubDiff::new().add(&vec![], ROOT), done(vec![]));
    assert_eq!(MkinitcpioDiff::new().add(&vec![], ROOT), done(vec![]));
    assert_eq!(UfwDiff::new().add(&vec![], ROOT), done(vec![]));
    assert_eq!(UfwDiff::new().remove(ROOT), vec![]);
    assert_eq!(Fail2BanDiff::new().add(&vec![], ROOT), done(vec![]));
    assert_eq!(Fail2BanDiff::new().remove(ROOT), vec![]);
    assert_eq!(DownloadsDiff::new().add(&vec![], USER), done(vec![]));
    assert_eq!(MonitorDiff::new().add(&vec![], USER), done(vec![]));
    assert_eq!(FilesDiff::new().add(&vec![], USER), done(vec![]));
}

#[test]
fn reconciling_a_state_against_itself_performs_no_action() {
    let mut packages = PackagesDiff::new();
    let state = Packages {
        pacman_packages: Some(names(&["git", "curl"])),
        aur_packages: None,
        manual_install_packages: None,
    };
    packages.config = state.clone();
    packages.system = state;
    packages.get_diff();
    assert_eq!(packages.add(&vec![], ROOT), done(vec![]));
    assert_eq!(packages.remove(ROOT), vec![]);
}

#[test]
fn a_domain_is_applied_in_the_context_that_manages_it() {
    let mut keyboard = KeyboardDiff::new();
    keyboard.diff.add.mkinitcpio = text("de-latin1");
    assert_eq!(keyboard.add(&vec![], USER), done(vec![]));
    let mut time = TimeDiff::new();
    time.diff.add.timezone = text("Europe/Berlin");
    assert_eq!(time.add(&vec![], USER), done(vec![]));
    let mut system = SystemDiff::new();
    system.diff.add.hostname = text("node2");
    assert_eq!(system.add(&vec![], USER), done(vec![]));
    let mut pacman = PacmanDiff::new();
    pacman.diff.add.parallel = Some(3);
    assert_eq!(pacman.add(&vec![], USER), done(vec![]));
    let mut users = UserDiff::new();
    users.diff.add.user_list = Some(names(&["falk"]));
    users.diff.remove.user_list = Some(names(&["mia"]));
    assert_eq!(users.add(&vec![], USER), done(vec![]));
    assert_eq!(users.remove(USER), vec![]);
    let mut ufw = UfwDiff::new();
    ufw.diff.add.rules = Some(names(&["22"]));
    ufw.diff.remove.rules = Some(names(&["23"]));
    assert_eq!(ufw.add(&vec![], USER), done(vec![]));
    assert_eq!(ufw.remove(USER), vec![]);
    let mut f2b = Fail2BanDiff::new();
    f2b.diff.add.bantime = Some(1);
    f2b.diff.remove.services = Some(names(&["sshd"]));
    assert_eq!(f2b.add(&vec![], USER), done(vec![]));
    assert_eq!(f2b.remove(USER), vec![]);
    let mut grub = GrubDiff::new();
    grub.diff.add.grub_cmdline_linux_default = Some(names(&["quiet"]));
    assert_eq!(grub.add(&vec![], USER), done(vec![]));
    let mut monitor = MonitorDiff::new();
    monitor.config.monitors = Some(vec![]);
    monitor.diff.remove.monitors = Some(vec![]);
    assert_eq!(monitor.add(&vec![], ROOT), done(vec![]));
    assert_ne!(monitor.add(&vec![], USER), done(vec![]));
}

#[test]
fn keyboard_sets_the_keymap_line() {
    let mut keyboard = KeyboardDiff::new();
    keyboard.diff.add.mkinitcpio = text("de-latin1");
    assert_eq!(
        keyboard.add(&vec![], ROOT),
        done(vec![replace("/etc/mkinitcpio.conf", "KEYMAP=", "KEYMAP=de-latin1")])
    );
}

#[test]
fn time_zone_is_set_by_the_time_service() {
    let mut time = TimeDiff::new();
    time.diff.add.timezone = text("Europe/Berlin");
    assert_eq!(time.add(&vec![], ROOT), done(vec![run("timedatectl set-timezone Europe/Berlin")]));
}

#[test]
fn language_writes_both_files_from_the_desired_state() {
    let mut language = LanguageDiff::new();
    language.config = Language { locale: text("de_DE.UTF-8"), character: text("UTF-8") };
    language.diff.add.locale = text("de_DE.UTF-8");
    assert_eq!(
        language.add(&vec![], ROOT),
        done(vec![
            write("/etc/locale.conf", "LANG=de_DE.UTF-8\n"),
            write("/etc/locale.gen", "de_DE.UTF-8 UTF-8\n"),
            run("locale-gen"),
        ])
    );
}

#[test]
fn language_does_nothing_without_a_desired_state() {
    let mut language = LanguageDiff::new();
    language.diff.add.locale = text("de_DE.UTF-8");
    assert_eq!(language.add(&vec![], ROOT), done(vec![]));
}

#[test]
fn shell_is_changed() {
    let mut shell = ShellDiff::new();
    shell.diff.add.default_shell = text("/usr/bin/zsh");
    assert_eq!(shell.add(&vec![], USER), done(vec![run("chsh -s /usr/bin/zsh")]));
}

#[test]
fn parallel_downloads_are_written_as_a_number() {
    let mut pacman = PacmanDiff::new();
    pacman.diff.add.parallel = Some(12);
    assert_eq!(
        pacman.add(&vec![], ROOT),
        done(vec![replace("/etc/pacman.conf", "ParallelDownloads", "ParallelDownloads = 12\n")])
    );
}

#[test]
fn packages_are_installed_with_one_command() {
    let mut packages = PackagesDiff::new();
    packages.diff.add.pacman_packages = Some(names(&["git", "vim"]));
    packages.diff.add.aur_packages = Some(names(&["yay"]));
    assert_eq!(packages.add(&vec![], ROOT), done(vec![run("pacman --noconfirm -S git vim ")]));
    assert_eq!(packages.add(&vec![], USER), done(vec![run("paru --noconfirm -S yay ")]));
}

#[test]
fn packages_are_removed_with_one_command() {
    let mut packages = PackagesDiff::new();
    packages.diff.remove.pacman_packages = Some(names(&["vim"]));
    packages.diff.remove.aur_packages = Some(names(&["yay", "paru"]));
    assert_eq!(packages.remove(ROOT), vec![run("pacman --noconfirm -Rns vim ")]);
    assert_eq!(packages.remove(USER), vec![run("paru --noconfirm -Rns yay paru ")]);
}

#[test]
fn packages_installed_by_hand_run_their_command_in_their_context() {
    let mine = ManualInstallPackages {
        name: "tool".to_string(),
        check: "which tool".to_string(),
        command: "install tool".to_string(),
        root: false,
    };
    let theirs = ManualInstallPackages {
        name: "driver".to_string(),
        check: "modinfo driver".to_string(),
        command: "install driver".to_string(),
        root: true,
    };
    let mut packages = PackagesDiff::new();
    packages.diff.add.manual_install_packages = Some(vec![mine, theirs]);
    assert_eq!(packages.add(&vec![], USER), done(vec![run("install tool")]));
    assert_eq!(packages.add(&vec![], ROOT), done(vec![run("install driver")]));
}

#[test]
fn services_are_enabled_and_disabled() {
    let mut services = ServicesDiff::new();
    services.diff.add.services = Some(names(&["sshd.service", "cups.service"]));
    services.diff.add.user_services = Some(names(&["pipewire.service"]));
    services.diff.remove.services = Some(names(&["bluetooth.service"]));
    services.diff.remove.user_services = Some(names(&["mpd.service"]));
    assert_eq!(
        services.add(&vec![], ROOT),
        done(vec![run("systemctl enable sshd.service"), run("systemctl enable cups.service")])
    );
    assert_eq!(services.add(&vec![], USER), done(vec![run("systemctl --user enable pipewire.service")]));
    assert_eq!(services.remove(ROOT), vec![run("systemctl disable bluetooth.service")]);
    assert_eq!(services.remove(USER), vec![run("systemctl --user disable mpd.service")]);
}

#[test]
fn users_are_created_and_put_into_their_groups() {
    let mut users = UserDiff::new();
    users.diff.add.user_list = Some(names(&["falk"]));
    users.diff.add.user_groups = Some(vec![User { name: "falk".to_string(), groups: names(&["wheel", "video"]) }]);
    let system = [
        output("getent group wheel", "wheel:x:998:\n"),
        output("getent group video", ""),
    ];
    assert_eq!(
        users.add(&vec![], ROOT),
        Probe::Ask(ask(Inquiry::Output, "getent group wheel"))
    );
    assert_eq!(
        plan(&users, &system, ROOT),
        vec![run("useradd falk"), run("groupadd video"), run("usermod -aG wheel,video falk")]
    );
}

#[test]
fn a_group_that_two_users_share_is_made_once() {
    let mut users = UserDiff::new();
    users.diff.add.user_list = Some(names(&["falk", "mia"]));
    users.diff.add.user_groups = Some(vec![
        User { name: "falk".to_string(), groups: names(&["video", "wheel"]) },
        User { name: "mia".to_string(), groups: names(&["lp", "video", "lp"]) },
    ]);
    let system = [
        output("getent group video", ""),
        output("getent group wheel", "wheel:x:998:\n"),
        output("getent group lp", ""),
    ];
    assert_eq!(
        plan(&users, &system, ROOT),
        vec![
            run("useradd falk"),
            run("useradd mia"),
            run("groupadd video"),
            run("usermod -aG video,wheel falk"),
            run("groupadd lp"),
            run("usermod -aG lp,video,lp mia"),
        ]
    );
}

#[test]
fn groups_dealt_with_before_are_not_made_again() {
    let findings = vec![output("getent group video", ""), output("getent group lp", "")];
    let mut seen = names(&["video"]);
    assert_eq!(
        create_groups(&findings, &mut seen, &names(&["lp", "video"])),
        Probe::Done(vec![run("groupadd lp")])
    );
    assert_eq!(seen, names(&["video", "lp", "video"]));
    let mut fresh: Vec<String> = Vec::new();
    assert_eq!(
        create_groups(&findings, &mut fresh, &names(&["video", "video"])),
        Probe::Done(vec![run("groupadd video")])
    );
}

#[test]
fn the_retry_limit_rewrites_its_own_line() {
    let mut f2b = Fail2BanDiff::new();
    f2b.diff.add.maxretry = Some(5);
    assert_eq!(
        f2b.add(&vec![], ROOT),
        done(vec![replace("/etc/fail2ban/jail.local", "maxretry =", "maxretry = 5")])
    );
}

#[test]
fn the_retry_limit_changes_its_line_and_no_other() {
    let mut f2b = Fail2BanDiff::new();
    f2b.diff.add.maxretry = Some(5);
    let actions = match f2b.add(&vec![], ROOT) {
        Probe::Done(actions) => actions,
        other => panic!("no plan: {:?}", other),
    };
    let mut content = "bantime = 600\nmaxretry = 3\n".to_string();
    for action in actions {
        match action {
            Action::ReplaceLine { old_str, new_str, .. } => {
                content = replace_line(&content, &old_str, &new_str);
            }
            other => panic!("unexpected action: {:?}", other),
        }
    }
    assert_eq!(content, "bantime = 600\nmaxretry = 5\n");
}

#[test]
fn the_console_layout_plans_nothing_on_a_running_system() {
    let mut keyboard = KeyboardDiff::new();
    keyboard.diff.add.keyboard_tty = text("de-latin1");
    assert_eq!(keyboard.add(&vec![], ROOT), done(vec![]));
}

#[test]
fn a_group_lookup_that_cannot_run_stops_the_plan() {
    let mut users = UserDiff::new();
    users.diff.add.user_groups = Some(vec![User { name: "falk".to_string(), groups: names(&["wheel"]) }]);
    let findings = vec![Finding {
        question: ask(Inquiry::Output, "getent group wheel"),
        ok: false,
        text: String::new(),
    }];
    assert_eq!(
        users.add(&findings, ROOT),
        Probe::Failed(ProbeError { fault: Fault::NotRun, subject: "getent group wheel".to_string() })
    );
}

#[test]
fn the_membership_command_lists_the_groups() {
    assert_eq!(
        membership_command(&User { name: "falk".to_string(), groups: names(&["a", "b"]) }),
        "usermod -aG a,b falk"
    );
    assert_eq!(
        membership_command(&User { name: "falk".to_string(), groups: vec![] }),
        "usermod -aG falk"
    );
}

#[test]
fn users_leave_their_groups_before_they_are_deleted() {
    let mut users = UserDiff::new();
    users.diff.remove.user_list = Some(names(&["mia"]));
    users.diff.remove.user_groups = Some(vec![User { name: "falk".to_string(), groups: names(&["lp", "audio"]) }]);
    assert_eq!(
        users.remove(ROOT),
        vec![run("gpasswd -d falk lp"), run("gpasswd -d falk audio"), run("userdel mia")]
    );
}

#[test]
fn kernel_parameters_are_written_from_the_desired_state() {
    let mut grub = GrubDiff::new();
    grub.config.grub_cmdline_linux_default = Some(names(&["quiet", "splash"]));
    grub.diff.add.grub_cmdline_linux_default = Some(names(&["splash"]));
    assert_eq!(
        grub.add(&vec![], ROOT),
        done(vec![replace(
            "/etc/default/grub",
            "GRUB_CMDLINE_LINUX_DEFAULT=",
            "GRUB_CMDLINE_LINUX_DEFAULT=\"quiet splash\""
        )])
    );
    let mut grub = GrubDiff::new();
    grub.diff.remove.grub_cmdline_linux_default = Some(names(&["quiet"]));
    assert_eq!(
        grub.add(&vec![], ROOT),
        done(vec![replace("/etc/default/grub", "GRUB_CMDLINE_LINUX_DEFAULT=", "GRUB_CMDLINE_LINUX_DEFAULT=\"\"")])
    );
}

#[test]
fn hooks_and_modules_are_written_from_the_desired_state() {
    let mut mkinitcpio = MkinitcpioDiff::new();
    mkinitcpio.config.hooks = Some(names(&["base", "udev"]));
    mkinitcpio.config.modules = Some(names(&["btrfs"]));
    mkinitcpio.diff.add.hooks = Some(names(&["udev"]));
    mkinitcpio.diff.remove.modules = Some(names(&["ext4"]));
    assert_eq!(
        mkinitcpio.add(&vec![], ROOT),
        done(vec![
            replace("/etc/mkinitcpio.conf", "HOOKS=(", "HOOKS=(base udev)"),
            replace("/etc/mkinitcpio.conf", "MODULES=(", "MODULES=(btrfs)"),
        ])
    );
    let mut mkinitcpio = MkinitcpioDiff::new();
    mkinitcpio.diff.remove.hooks = Some(names(&["udev"]));
    assert_eq!(mkinitcpio.add(&vec![], ROOT), done(vec![]));
}

#[test]
fn list_lines() {
    assert_eq!(list_line_text("HOOKS=(", &names(&["a", "b"]), ")"), "HOOKS=(a b)");
    assert_eq!(list_line_text("HOOKS=(", &vec![], ")"), "HOOKS=()");
}

#[test]
fn firewall_policies_and_rules() {
    let mut ufw = UfwDiff::new();
    ufw.diff.add.incoming = text("deny");
    ufw.diff.add.outgoing = text("allow");
    ufw.diff.add.rules = Some(names(&["22", "80/tcp"]));
    ufw.diff.remove.rules = Some(names(&["443"]));
    assert_eq!(
        ufw.add(&vec![], ROOT),
        done(vec![
            run("ufw default deny incoming"),
            run("ufw default allow outgoing"),
            run("ufw allow 22"),
            run("ufw allow 80/tcp"),
        ])
    );
    assert_eq!(ufw.remove(ROOT), vec![run("ufw delete allow 443")]);
}

#[test]
fn intrusion_prevention_settings_and_jails() {
    let path = "/etc/fail2ban/jail.local";
    let mut f2b = Fail2BanDiff::new();
    f2b.diff.add.ignoreip = text("127.0.0.1/8");
    f2b.diff.add.bantime = Some(600);
    f2b.diff.add.findtime = Some(60);
    f2b.diff.add.maxretry = Some(3);
    f2b.diff.add.services = Some(names(&["sshd"]));
    f2b.diff.remove.services = Some(names(&["nginx"]));
    assert_eq!(
        f2b.add(&vec![], ROOT),
        done(vec![
            replace(path, "ignoreip =", "ignoreip = 127.0.0.1/8"),
            replace(path, "bantime =", "bantime = 600"),
            replace(path, "findtime =", "findtime = 60"),
            replace(path, "maxretry =", "maxretry = 3"),
            Action::AppendToFile { path: path.to_string(), text: "\n[sshd]\nenabled = true".to_string() },
        ])
    );
    assert_eq!(
        f2b.remove(ROOT),
        vec![Action::RemoveFromFile {
            path: path.to_string(),
            text: "\n\n[nginx]\nenabled = true".to_string()
        }]
    );
    assert_eq!(jail_text("\n", "sshd"), "\n[sshd]\nenabled = true");
}

#[test]
fn directories_are_made_and_given_to_their_groups() {
    let mut directories = DirectoriesDiff::new();
    directories.diff.add.reown_dirs = Some(vec![
        ReownDirs { directory: "/srv/www".to_string(), group: "www".to_string() },
        ReownDirs { directory: "/srv/new".to_string(), group: "data".to_string() },
    ]);
    directories.diff.add.create_dirs = Some(vec![
        CreateDirs { path: "/srv/cache".to_string(), root: true },
        CreateDirs { path: "/home/falk/x".to_string(), root: false },
    ]);
    let system = [flag(Inquiry::Exists, "/srv/www", true), flag(Inquiry::Exists, "/srv/new", false)];
    assert_eq!(
        plan(&directories, &system, ROOT),
        vec![
            run("chown :www /srv/www"),
            run("mkdir -p /srv/new"),
            run("chown :data /srv/new"),
            run("mkdir -p /srv/cache"),
        ]
    );
    assert_eq!(plan(&directories, &[], USER), vec![run("mkdir -p /home/falk/x")]);
}

#[test]
fn entries_are_linked_into_the_destination() {
    let mut directories = DirectoriesDiff::new();
    directories.diff.add.links =
        Some(vec![Links { origin: "/dots".to_string(), destination: "/home/falk".to_string(), root: false }]);
    let system = [
        flag(Inquiry::IsDir, "/dots", true),
        output("ls -A /dots", ".zshrc\n.config\n"),
        flag(Inquiry::IsSymlink, "/home/falk", false),
        flag(Inquiry::IsDir, "/home/falk", true),
    ];
    assert_eq!(
        plan(&directories, &system, USER),
        vec![run("ln -sf /dots/.zshrc /home/falk"), run("ln -sf /dots/.config /home/falk")]
    );
    let missing = [
        flag(Inquiry::IsDir, "/dots", true),
        output("ls -A /dots", ".zshrc\n"),
        flag(Inquiry::IsSymlink, "/home/falk", false),
        flag(Inquiry::IsDir, "/home/falk", false),
    ];
    assert_eq!(
        plan(&directories, &missing, USER),
        vec![run("mkdir -p /home/falk"), run("ln -sf /dots/.zshrc /home/falk")]
    );
    assert_eq!(plan(&directories, &[flag(Inquiry::IsDir, "/dots", false)], USER), vec![]);
    assert_eq!(plan(&directories, &[], ROOT), vec![]);
}

#[test]
fn downloads_are_fetched_in_their_directories() {
    let mut downloads = DownloadsDiff::new();
    downloads.diff.add.curl = Some(vec![CurlDownload {
        url: "https://example.org/font.zip".to_string(),
        path: "/home/falk/fonts".to_string(),
        file_name: "font.zip".to_string(),
        root: false,
    }]);
    downloads.diff.add.git = Some(vec![GitDownload {
        url: "https://example.org/dotfiles.git".to_string(),
        path: "/home/falk/src".to_string(),
        root: false,
    }]);
    downloads.diff.add.unzip = Some(vec![Unzip { path: "/home/falk/fonts/font".to_string(), root: false }]);
    let system = [
        flag(Inquiry::IsDir, "/home/falk/fonts", false),
        flag(Inquiry::IsDir, "/home/falk/src", true),
        flag(Inquiry::IsDir, "/home/falk/fonts/font", false),
    ];
    assert_eq!(
        plan(&downloads, &system, USER),
        vec![
            run("mkdir -p /home/falk/fonts"),
            run("curl -L https://example.org/font.zip > /home/falk/fonts/font.zip"),
            run_in("git clone https://example.org/dotfiles.git", "/home/falk/src"),
            run("mkdir -p /home/falk/fonts/font"),
            run_in("unzip /home/falk/fonts/font.zip", "/home/falk/fonts/font"),
        ]
    );
    assert_eq!(plan(&downloads, &[], ROOT), vec![]);
}

#[test]
fn files_are_written_in_their_directories() {
    let mut files = FilesDiff::new();
    files.diff.add.files = Some(vec![
        TextToFile {
            write: "hello\n".to_string(),
            path: "/home/falk/notes".to_string(),
            file_name: "a.txt".to_string(),
            root: false,
        },
        TextToFile {
            write: "secret".to_string(),
            path: "/root".to_string(),
            file_name: "b.txt".to_string(),
            root: true,
        },
    ]);
    assert_eq!(
        plan(&files, &[flag(Inquiry::IsDir, "/home/falk/notes", false)], USER),
        vec![run("mkdir -p /home/falk/notes"), write("/home/falk/notes/a.txt", "hello\n")]
    );
    assert_eq!(plan(&files, &[flag(Inquiry::IsDir, "/root", true)], ROOT), vec![write("/root/b.txt", "secret")]);
}

#[test]
fn the_monitor_layout_is_written_anew() {
    let path = "/home/falk/.config/hypr/monitor.conf";
    let one = MonitorStruct {
        connection: "DP-1".to_string(),
        resolution: "2560x1440".to_string(),
        refreshrate: "144".to_string(),
        position: "0x0".to_string(),
        scale: "1".to_string(),
        workspaces: vec![1, 2],
    };
    let two = MonitorStruct {
        connection: "HDMI-A-1".to_string(),
        resolution: "1920x1080".to_string(),
        refreshrate: "60".to_string(),
        position: "2560x0".to_string(),
        scale: "1.5".to_string(),
        workspaces: vec![],
    };
    assert_eq!(
        monitor_text(&one),
        "monitor=DP-1, 2560x1440@144, 0x0, 1\nworkspace=1, monitor:DP-1\nworkspace=2, monitor:DP-1\n"
    );
    let mut monitor = MonitorDiff::new();
    monitor.config.monitors = Some(vec![one.clone(), two.clone()]);
    monitor.diff.add.monitors = Some(vec![two.clone()]);
    assert_eq!(
        monitor.add(&vec![], USER),
        done(vec![
            Action::CreateFile { path: path.to_string() },
            Action::PrependToFile { path: path.to_string(), text: monitor_text(&one) },
            Action::PrependToFile {
                path: path.to_string(),
                text: "monitor=HDMI-A-1, 1920x1080@60, 2560x0, 1.5\n".to_string()
            },
        ])
    );
}

#[test]
fn a_domain_has_succeeded_when_every_action_has() {
    assert!(aggregate(&vec![]));
    assert!(aggregate(&vec![true, true]));
    assert!(!aggregate(&vec![true, false, true]));
    assert!(!aggregate(&vec![false]));
}

#[test]
fn the_actions_that_failed_are_told() {
    let actions = vec![run("a"), run("b"), run("c")];
    let failed = failures(&actions, &vec![true, false, false]);
    assert_eq!(failed, vec![ActionError { action: run("b") }, ActionError { action: run("c") }]);
    assert_eq!(failures(&actions, &vec![true, true, true]), vec![]);
    assert_eq!(failures(&actions, &vec![false]), vec![ActionError { action: run("a") }]);
    assert_eq!(failures(&vec![], &vec![false]), vec![]);
    assert!(run("a").same(&run("a").duplicate()));
    assert!(!run("a").same(&write("a", "")));
}

#[test]
fn plans_are_put_one_after_another() {
    let a = done(vec![run("a")]);
    let b = done(vec![run("b")]);
    assert_eq!(chain(a.clone(), b.clone()), done(vec![run("a"), run("b")]));
    let asking: Probe<Vec<Action>> = Probe::Ask(ask(Inquiry::IsDir, "/x"));
    assert_eq!(chain(a.clone(), asking.clone()), asking);
    assert_eq!(chain(asking.clone(), b), asking);
    assert_eq!(execute(combine("ab", "cd")), run("abcd"));
    assert_eq!(execute_each("x ", &names(&["1", "2"])), vec![run("x 1"), run("x 2")]);
}

#[test]
fn entries_of_the_other_context_are_left_alone() {
    let dir = CreateDirs { path: "/x".to_string(), root: true };
    assert_eq!(dir.create(&vec![], USER), done(vec![]));
    assert_eq!(dir.is_found(&vec![], USER), Probe::Done(true));
    let reown = ReownDirs { directory: "/x".to_string(), group: "g".to_string() };
    assert_eq!(reown.create(&vec![], USER), done(vec![]));
}

#[test]
fn important_packages_are_installed_with_one_command() {
    assert_eq!(
        install_important_packages(names(&["grub", "efibootmgr", "lvm2"])),
        vec![run("pacman --noconfirm -S grub efibootmgr lvm2 ")]
    );
    assert_eq!(install_important_packages(vec![]), vec![run("pacman --noconfirm -S ")]);
}

fn partition(name: &str, kind: &str, mount_point: Option<&str>) -> Partition {
    Partition {
        name: name.to_string(),
        partition_type: kind.to_string(),
        start: "1MiB".to_string(),
        end: "513MiB".to_string(),
        crypt: None,
        file_system_type: None,
        update: false,
        mount_point: mount_point.map(|m| m.to_string()),
        volume_group: None,
    }
}

fn layout(partitions: Vec<Partition>) -> Partitioning {
    Partitioning {
        dual: Some(false),
        disks: Some(vec![Disk { name: "sda".to_string(), partitions }]),
        volume_groups: Some(vec![]),
    }
}

#[test]
fn the_boot_loader_goes_to_the_boot_partition() {
    let disks = layout(vec![partition("sda1", "fat32", Some("/boot")), partition("sda2", "ext4", Some("/"))]);
    assert_eq!(
        install_grub(&disks),
        Ok(run("grub-install --target=x86_64-efi --efi-directory=/boot --bootloader-id=GRUB"))
    );
}

#[test]
fn the_last_boot_partition_counts() {
    let disks = layout(vec![partition("sda1", "fat32", Some("/boot")), partition("sda2", "fat32", Some("/efi"))]);
    assert_eq!(
        install_grub(&disks),
        Ok(run("grub-install --target=x86_64-efi --efi-directory=/efi --bootloader-id=GRUB"))
    );
}

#[test]
fn the_boot_loader_needs_a_mounted_boot_partition() {
    assert_eq!(install_grub(&layout(vec![partition("sda1", "ext4", Some("/"))])), Err(InstallError::NoEfiPartition));
    assert_eq!(
        install_grub(&layout(vec![partition("sda1", "fat32", None), partition("sda2", "fat32", Some("/boot"))])),
        Err(InstallError::NoMountPoint)
    );
    assert_eq!(
        install_grub(&Partitioning { dual: None, disks: None, volume_groups: None }),
        Err(InstallError::NoDisks)
    );
    assert_eq!(InstallError::NoDisks.message(), "Error (panic): No partitions found in config");
    assert_eq!(InstallError::NoEfiPartition.message(), "Error (panic): No efi partition found");
    assert_eq!(
        InstallError::NoMountPoint.message(),
        "Error (panic): The fat32 partition does not have a mount point!"
    );
}

#[test]
fn the_live_medium_is_prepared() {
    let keyboard = Keyboard { keyboard_tty: text("de-latin1"), mkinitcpio: None };
    assert_eq!(
        setup_environment_on_installation(keyboard, Pacman { parallel: Some(5) }),
        Ok(Setup {
            required: vec![run("loadkeys de-latin1"), run("pacman -Sy"), run("timedatectl set-ntp true")],
            configuration: vec![replace(
                "/etc/pacman.conf",
                "ParallelDownloads",
                "ParallelDownloads = 5\n"
            )],
        })
    );
}

#[test]
fn the_live_medium_needs_keyboard_and_downloads() {
    assert_eq!(
        setup_environment_on_installation(
            Keyboard { keyboard_tty: None, mkinitcpio: None },
            Pacman { parallel: Some(5) }
        ),
        Err(SetupError::Incomplete)
    );
    assert_eq!(
        setup_environment_on_installation(
            Keyboard { keyboard_tty: text("de"), mkinitcpio: None },
            Pacman { parallel: None }
        ),
        Err(SetupError::Incomplete)
    );
    assert_eq!(
        SetupError::Incomplete.message(),
        "Error (panic): Failed to read keyboard, pacman and time from config!"
    );
}
