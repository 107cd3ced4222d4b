use reconciler::data_types::{
    DirectoriesDiff, DownloadsDiff, Fail2BanDiff, FilesDiff, GrubDiff, KeyboardDiff, LanguageDiff,
    MkinitcpioDiff, MonitorDiff, New, PackagesDiff, PacmanDiff, Populate, ServicesDiff, ShellDiff,
    SystemDiff, TimeDiff, UfwDiff, UserDiff,
};
use reconciler::entry::{owning_group, repository, Entry};
use reconciler::get_config::ConfigError;
use reconciler::get_system::{
    collect_allowed, collect_jailed, collect_packages, collect_services, read_list_variable,
    read_monitor, read_policy, report, word_at, GetSystem,
};
use reconciler::helper::ExecutionContext;
use reconciler::probe::{
    check, lookup, optional, require_text, Fault, Finding, Inquiry, Probe, ProbeError, Question,
};
use reconciler::structure::{
    CreateDirs, CurlDownload, Directories, Downloads, Fail2Ban, Files, GitDownload, Grub, Keyboard,
    Language, Links, ManualInstallPackages, Mkinitcpio, Monitor, MonitorStruct, Packages, Pacman,
    ReownDirs, Services, Shell, System, TextToFile, Time, Ufw, Unzip, User, Users,
};

const ROOT: ExecutionContext = ExecutionContext { privileged: true };
const USER: ExecutionContext = ExecutionContext { privileged: false };

fn names(list: &[&str]) -> Vec<String> {
    list.iter().map(|s| s.to_string()).collect()
}

fn text(s: &str) -> Option<String> {
    Some(s.to_string())
}

fn finding(kind: Inquiry, subject: &str, ok: bool, content: &str) -> Finding {
    Finding {
        question: Question { kind, subject: subject.to_string() },
        ok,
        text: content.to_string(),
    }
}

fn file(path: &str, content: &str) -> Finding {
    finding(Inquiry::ReadFile, path, true, content)
}

fn no_file(path: &str) -> Finding {
    finding(Inquiry::ReadFile, path, false, "")
}

fn output(command: &str, content: &str) -> Finding {
    finding(Inquiry::Output, command, true, content)
}

fn flag(kind: Inquiry, subject: &str, ok: bool) -> Finding {
    finding(kind, subject, ok, "")
}

fn ask(kind: Inquiry, subject: &str) -> Question {
    Question { kind, subject: subject.to_string() }
}

/// Answers the questions of a probe from a prepared system, one at a time,
/// and returns the questions in the order in which they were asked.
fn drive<T: GetSystem>(triple: &mut T, system: &[Finding], context: ExecutionContext) -> Vec<Question> {
    let mut findings: Vec<Finding> = Vec::new();
    let mut asked: Vec<Question> = Vec::new();
    loop {
        match triple.get_system(&findings, context) {
            Probe::Done(()) => return asked,
            Probe::Ask(question) => {
                let answer = system
                    .iter()
                    .find(|f| f.question == question)
                    .unwrap_or_else(|| panic!("no answer prepared for {:?}", question));
                assert!(!asked.contains(&question), "asked twice: {:?}", question);
                asked.push(question);
                findings.push(answer.clone());
            }
            Probe::Failed(error) => panic!("probe failed: {:?}", error),
        }
    }
}

#[test]
fn lookup_finds_the_first_answer() {
    let findings = vec![
        file("/a", "one"),
        flag(Inquiry::IsDir, "/a", true),
        file("/a", "two"),
    ];
    assert_eq!(lookup(&findings, Inquiry::ReadFile, "/a"), Some(&findings[0]));
    assert_eq!(lookup(&findings, Inquiry::IsDir, "/a"), Some(&findings[1]));
    assert_eq!(lookup(&findings, Inquiry::IsFile, "/a"), None);
    assert_eq!(lookup(&findings, Inquiry::ReadFile, "/b"), None);
}

#[test]
fn a_required_text_is_asked_for_taken_or_missed() {
    let none: Vec<Finding> = vec![];
    assert_eq!(
        require_text(&none, Inquiry::ReadFile, "/etc/x", Fault::Unreadable),
        Probe::Ask(ask(Inquiry::ReadFile, "/etc/x"))
    );
    assert_eq!(
        require_text(&vec![file("/etc/x", "content")], Inquiry::ReadFile, "/etc/x", Fault::Unreadable),
        Probe::Done("content".to_string())
    );
    assert_eq!(
        require_text(&vec![no_file("/etc/x")], Inquiry::ReadFile, "/etc/x", Fault::Unreadable),
        Probe::Failed(ProbeError { fault: Fault::Unreadable, subject: "/etc/x".to_string() })
    );
}

#[test]
fn an_optional_text_may_be_missing() {
    let none: Vec<Finding> = vec![];
    assert_eq!(optional(&none, Inquiry::ReadFile, "/x"), Probe::Ask(ask(Inquiry::ReadFile, "/x")));
    assert_eq!(optional(&vec![no_file("/x")], Inquiry::ReadFile, "/x"), Probe::Done(None));
    assert_eq!(optional(&vec![file("/x", "c")], Inquiry::ReadFile, "/x"), Probe::Done(text("c")));
}

#[test]
fn a_flag_is_asked_for_or_taken() {
    let none: Vec<Finding> = vec![];
    assert_eq!(check(&none, Inquiry::IsDir, "/x"), Probe::Ask(ask(Inquiry::IsDir, "/x")));
    assert_eq!(check(&vec![flag(Inquiry::IsDir, "/x", true)], Inquiry::IsDir, "/x"), Probe::Done(true));
    assert_eq!(check(&vec![flag(Inquiry::IsDir, "/x", false)], Inquiry::IsDir, "/x"), Probe::Done(false));
}

#[test]
fn keyboard_is_read_off_the_ramdisk_configuration() {
    let mut keyboard = KeyboardDiff::new();
    let system = [file("/etc/mkinitcpio.conf", "MODULES=()\nKEYMAP=de-latin1\n")];
    let asked = drive(&mut keyboard, &system, ROOT);
    assert_eq!(asked, vec![ask(Inquiry::ReadFile, "/etc/mkinitcpio.conf")]);
    assert_eq!(keyboard.system, Keyboard { keyboard_tty: None, mkinitcpio: text("de-latin1") });
}

#[test]
fn keyboard_needs_the_ramdisk_configuration() {
    let mut keyboard = KeyboardDiff::new();
    let before = keyboard.clone();
    assert_eq!(
        keyboard.get_system(&vec![no_file("/etc/mkinitcpio.conf")], ROOT),
        Probe::Failed(ProbeError {
            fault: Fault::Unreadable,
            subject: "/etc/mkinitcpio.conf".to_string()
        })
    );
    assert_eq!(keyboard, before);
}

#[test]
fn asking_leaves_the_triple_as_it_was() {
    let mut keyboard = KeyboardDiff::new();
    keyboard.system.mkinitcpio = text("stale");
    let before = keyboard.clone();
    assert_eq!(
        keyboard.get_system(&vec![], ROOT),
        Probe::Ask(ask(Inquiry::ReadFile, "/etc/mkinitcpio.conf"))
    );
    assert_eq!(keyboard, before);
}

#[test]
fn time_zone_is_read_off_the_time_service() {
    let mut time = TimeDiff::new();
    let system = [output("timedatectl show", "Timezone=Europe/Berlin\nLocalRTC=no\nNTP=yes\n")];
    drive(&mut time, &system, ROOT);
    assert_eq!(time.system, Time { timezone: text("Europe/Berlin") });
}

#[test]
fn a_command_that_cannot_run_fails_the_probe() {
    let mut time = TimeDiff::new();
    assert_eq!(
        time.get_system(&vec![finding(Inquiry::Output, "timedatectl show", false, "")], ROOT),
        Probe::Failed(ProbeError { fault: Fault::NotRun, subject: "timedatectl show".to_string() })
    );
}

#[test]
fn language_is_read_off_two_files() {
    let mut language = LanguageDiff::new();
    let system = [
        file("/etc/locale.conf", "LANG=en_US.UTF-8\n"),
        file("/etc/locale.gen", "en_US.UTF-8 UTF-8\n"),
    ];
    let asked = drive(&mut language, &system, ROOT);
    assert_eq!(
        asked,
        vec![ask(Inquiry::ReadFile, "/etc/locale.conf"), ask(Inquiry::ReadFile, "/etc/locale.gen")]
    );
    assert_eq!(language.system, Language { locale: text("en_US.UTF-8"), character: text("UTF-8") });
}

#[test]
fn language_without_its_files() {
    let mut language = LanguageDiff::new();
    drive(&mut language, &[no_file("/etc/locale.conf"), file("/etc/locale.gen", "de_DE ISO-8859-1")], ROOT);
    assert_eq!(language.system, Language { locale: None, character: text("ISO-8859-1") });
    drive(&mut language, &[file("/etc/locale.conf", "LANG=C\n"), no_file("/etc/locale.gen")], ROOT);
    assert_eq!(language.system, Language { locale: None, character: None });
    drive(&mut language, &[file("/etc/locale.conf", "LANG=C\n"), file("/etc/locale.gen", "C\n")], ROOT);
    assert_eq!(language.system, Language { locale: text("C"), character: None });
}

#[test]
fn hostname_is_the_trimmed_content_of_its_file() {
    let mut system = SystemDiff::new();
    drive(&mut system, &[file("/etc/hostname", "node1\n")], ROOT);
    assert_eq!(system.system, System { hostname: text("node1") });
    drive(&mut system, &[no_file("/etc/hostname")], ROOT);
    assert_eq!(system.system, System { hostname: None });
}

#[test]
fn shell_is_what_the_environment_names() {
    let mut shell = ShellDiff::new();
    drive(&mut shell, &[output("echo $SHELL", "/usr/bin/zsh\n")], USER);
    assert_eq!(shell.system, Shell { default_shell: text("/usr/bin/zsh") });
}

#[test]
fn parallel_downloads_are_read_as_a_number() {
    let mut pacman = PacmanDiff::new();
    drive(&mut pacman, &[file("/etc/pacman.conf", "[options]\nParallelDownloads = 5\nColor\n")], ROOT);
    assert_eq!(pacman.system, Pacman { parallel: Some(5) });
    drive(&mut pacman, &[file("/etc/pacman.conf", "[options]\n#ParallelDownloads = 5\n")], ROOT);
    assert_eq!(pacman.system, Pacman { parallel: None });
}

#[test]
fn parallel_downloads_that_are_no_number_are_malformed() {
    let mut pacman = PacmanDiff::new();
    assert_eq!(
        pacman.get_system(&vec![file("/etc/pacman.conf", "ParallelDownloads = many\n")], ROOT),
        Probe::Failed(ProbeError { fault: Fault::Malformed, subject: "many".to_string() })
    );
    assert_eq!(
        pacman.get_system(&vec![file("/etc/pacman.conf", "ParallelDownloads = 256\n")], ROOT),
        Probe::Failed(ProbeError { fault: Fault::Malformed, subject: "256".to_string() })
    );
}

#[test]
fn users_are_read_off_the_user_database() {
    let mut users = UserDiff::new();
    let system = [
        output(
            "getent passwd {1000..1401}",
            "falk:x:1000:1000::/home/falk:/usr/bin/zsh\njoel:x:1001:1002::/home/joel:/usr/bin/bash\n",
        ),
        output("groups falk", "falk wheel audio\n"),
        output("groups joel", "joel\n"),
    ];
    let asked = drive(&mut users, &system, ROOT);
    assert_eq!(
        asked,
        vec![
            ask(Inquiry::Output, "getent passwd {1000..1401}"),
            ask(Inquiry::Output, "groups falk"),
            ask(Inquiry::Output, "groups joel"),
        ]
    );
    assert_eq!(
        users.system,
        Users {
            user_list: Some(names(&["falk", "joel"])),
            user_groups: Some(vec![
                User { name: "falk".to_string(), groups: names(&["wheel", "audio"]) },
                User { name: "joel".to_string(), groups: vec![] },
            ]),
        }
    );
}

#[test]
fn no_users_are_absent() {
    let mut users = UserDiff::new();
    drive(&mut users, &[output("getent passwd {1000..1401}", "")], ROOT);
    assert_eq!(users.system, Users::absent());
}

#[test]
fn services_are_listed_for_the_context() {
    let listing = "UNIT FILE                 STATE   PRESET\n\
sshd.service              enabled disabled\n\
cups.service              enabled enabled\n\
fstrim.timer              enabled disabled\n\
\n3 unit files listed.\n";
    let mut services = ServicesDiff::new();
    drive(&mut services, &[output("systemctl list-unit-files --state=enabled", listing)], ROOT);
    assert_eq!(
        services.system,
        Services { user_services: None, services: Some(names(&["sshd.service"])) }
    );
    let mut services = ServicesDiff::new();
    drive(&mut services, &[output("systemctl --user list-unit-files --state=enabled", listing)], USER);
    assert_eq!(
        services.system,
        Services { user_services: Some(names(&["sshd.service", "cups.service"])), services: None }
    );
}

#[test]
fn collect_services_takes_the_first_word() {
    let listing = names(&["a.service enabled", "b.service disabled", "c.timer enabled", " d.service enabled"]);
    assert_eq!(collect_services(&listing, "enabled"), names(&["a.service", ""]));
}

#[test]
fn packages_are_listed_for_the_context() {
    let mut packages = PackagesDiff::new();
    drive(&mut packages, &[output("pacman -Qen", "base 3-2\ngit 2.45.0-1\nvim 9.1-1\n")], ROOT);
    assert_eq!(
        packages.system,
        Packages {
            pacman_packages: Some(names(&["base", "git", "vim"])),
            aur_packages: None,
            manual_install_packages: None
        }
    );
    let mut packages = PackagesDiff::new();
    drive(&mut packages, &[output("pacman -Qem", "paru 2.0-1\nyay 12.0-1\nparu-debug 2.0-1\n")], USER);
    assert_eq!(packages.system.aur_packages, Some(names(&["yay"])));
    assert_eq!(packages.system.pacman_packages, None);
}

#[test]
fn no_packages_are_absent() {
    let mut packages = PackagesDiff::new();
    drive(&mut packages, &[output("pacman -Qen", "\n")], ROOT);
    assert_eq!(packages.system, Packages::absent());
}

#[test]
fn collect_packages_leaves_out_what_is_barred() {
    let listing = names(&["paru 1", "yay 2", "x-paru 3"]);
    assert_eq!(collect_packages(&listing, None), names(&["paru", "yay", "x-paru"]));
    assert_eq!(collect_packages(&listing, Some("paru")), names(&["yay"]));
}

#[test]
fn packages_installed_by_hand_are_checked_in_their_context() {
    let mine = ManualInstallPackages {
        name: "tool".to_string(),
        check: "which tool".to_string(),
        command: "install tool".to_string(),
        root: false,
    };
    let theirs = ManualInstallPackages {
        name: "driver".to_string(),
        check: "modinfo driver".to_string(),
        command: "install driver".to_string(),
        root: true,
    };
    let missing = ManualInstallPackages {
        name: "gone".to_string(),
        check: "which gone".to_string(),
        command: "install gone".to_string(),
        root: false,
    };
    let mut packages = PackagesDiff::new();
    packages.config.manual_install_packages = Some(vec![mine.clone(), theirs.clone(), missing]);
    let system = [
        output("pacman -Qem", ""),
        flag(Inquiry::Succeeds, "which tool", true),
        flag(Inquiry::Succeeds, "which gone", false),
    ];
    let asked = drive(&mut packages, &system, USER);
    assert_eq!(asked.len(), 3);
    assert_eq!(packages.system.manual_install_packages, Some(vec![mine, theirs]));
}

#[test]
fn kernel_parameters_are_read_off_the_defaults() {
    let mut grub = GrubDiff::new();
    drive(
        &mut grub,
        &[file("/etc/default/grub", "GRUB_TIMEOUT=5\nGRUB_CMDLINE_LINUX_DEFAULT=\"quiet splash\"\n")],
        ROOT,
    );
    assert_eq!(grub.system, Grub { grub_cmdline_linux_default: Some(names(&["quiet", "splash"])) });
    drive(&mut grub, &[file("/etc/default/grub", "GRUB_CMDLINE_LINUX_DEFAULT=\"\"\n")], ROOT);
    assert_eq!(grub.system, Grub::absent());
    drive(&mut grub, &[file("/etc/default/grub", "GRUB_TIMEOUT=5\n")], ROOT);
    assert_eq!(grub.system, Grub::absent());
}

#[test]
fn modules_and_hooks_are_read_off_the_ramdisk_configuration() {
    let mut mkinitcpio = MkinitcpioDiff::new();
    drive(
        &mut mkinitcpio,
        &[file("/etc/mkinitcpio.conf", "MODULES=(btrfs)\nHOOKS=(base udev autodetect)\n")],
        ROOT,
    );
    assert_eq!(
        mkinitcpio.system,
        Mkinitcpio { modules: Some(names(&["btrfs"])), hooks: Some(names(&["base", "udev", "autodetect"])) }
    );
    drive(&mut mkinitcpio, &[file("/etc/mkinitcpio.conf", "MODULES=()\n")], ROOT);
    assert_eq!(mkinitcpio.system, Mkinitcpio::absent());
}

#[test]
fn list_variables_and_words() {
    assert_eq!(read_list_variable("X=(a b)\n", "X"), Some(names(&["a", "b"])));
    assert_eq!(read_list_variable("X=( a)\n", "X"), None);
    assert_eq!(read_list_variable("", "X"), None);
    assert_eq!(report(names(&["", "a"])), None);
    assert_eq!(report(vec![]), None);
    assert_eq!(report(names(&["a", ""])), Some(names(&["a", ""])));
    assert_eq!(word_at("a b c", 1), text("b"));
    assert_eq!(word_at("a b c", 3), None);
    assert_eq!(word_at("", 0), text(""));
}

#[test]
fn firewall_is_read_off_its_status() {
    let status = "Status: active\n\
Logging: on (low)\n\
Default: deny (incoming), allow (outgoing), disabled (routed)\n\
New profiles: skip\n\
\n\
To                         Action      From\n\
--                         ------      ----\n\
22                         ALLOW IN    Anywhere\n\
80/tcp                     ALLOW IN    Anywhere\n\
22 (v6)                    ALLOW IN    Anywhere (v6)\n";
    let mut ufw = UfwDiff::new();
    drive(&mut ufw, &[output("sudo ufw status verbose", status)], ROOT);
    assert_eq!(
        ufw.system,
        Ufw { incoming: text("deny"), outgoing: text("allow"), rules: Some(names(&["22", "80/tcp"])) }
    );
}

#[test]
fn an_inactive_firewall_shows_nothing() {
    let mut ufw = UfwDiff::new();
    drive(&mut ufw, &[output("sudo ufw status verbose", "Status: inactive\n")], ROOT);
    assert_eq!(ufw.system, Ufw::absent());
}

#[test]
fn policies_and_rules() {
    assert_eq!(read_policy("deny (incoming), allow (outgoing)", "(incoming)"), text("deny"));
    assert_eq!(read_policy("deny (incoming), allow (outgoing)", "(outgoing)"), text("allow"));
    assert_eq!(read_policy("deny (incoming)", "(routed)"), None);
    assert_eq!(read_policy("(incoming)", "(incoming)"), None);
    assert_eq!(collect_allowed(&names(&["22 ALLOW", "22 (v6) ALLOW", "nospace", "443/tcp  ALLOW"])), names(&["22", "443/tcp"]));
}

#[test]
fn intrusion_prevention_is_read_off_the_local_jails() {
    let jail = "[DEFAULT]\nignoreip = 127.0.0.1/8\nbantime = 600\nfindtime = 60\nmaxretry = 3\n\n[sshd]\nenabled = true\n\n[nginx]\nenabled = true\n";
    let mut f2b = Fail2BanDiff::new();
    drive(&mut f2b, &[file("/etc/fail2ban/jail.local", jail)], ROOT);
    assert_eq!(
        f2b.system,
        Fail2Ban {
            ignoreip: text("127.0.0.1/8"),
            bantime: Some(600),
            findtime: Some(60),
            maxretry: Some(3),
            services: Some(names(&["sshd", "nginx"])),
        }
    );
}

#[test]
fn intrusion_prevention_without_settings() {
    let mut f2b = Fail2BanDiff::new();
    drive(&mut f2b, &[file("/etc/fail2ban/jail.local", "[DEFAULT]\n")], ROOT);
    assert_eq!(
        f2b.system,
        Fail2Ban { ignoreip: text(""), bantime: Some(0), findtime: Some(0), maxretry: Some(0), services: None }
    );
    drive(&mut f2b, &[no_file("/etc/fail2ban/jail.local")], ROOT);
    assert_eq!(f2b.system, Fail2Ban::absent());
}

#[test]
fn a_setting_that_is_no_number_is_malformed() {
    let mut f2b = Fail2BanDiff::new();
    assert_eq!(
        f2b.get_system(&vec![file("/etc/fail2ban/jail.local", "bantime = 10m\n")], ROOT),
        Probe::Failed(ProbeError { fault: Fault::Malformed, subject: "10m".to_string() })
    );
}

#[test]
fn jails_are_named_between_brackets() {
    assert_eq!(collect_jailed(&names(&["[sshd]", "[DEFAULT]", "enabled = true", "x[a]y"])), names(&["sshd", "[a]"]));
}

#[test]
fn monitors_are_read_off_the_layout() {
    let layout = "monitor=DP-1, 2560x1440@144, 0x0, 1\n\
workspace=1, monitor:DP-1\n\
workspace=2, monitor:DP-1\n\
monitor=HDMI-A-1, 1920x1080@60, 2560x0, 1.5\n\
workspace=3, monitor:HDMI-A-1\n\
# a comment\n";
    let mut monitor = MonitorDiff::new();
    drive(&mut monitor, &[file("/home/falk/.config/hypr/monitor.conf", layout)], USER);
    assert_eq!(
        monitor.system,
        Monitor {
            monitors: Some(vec![
                MonitorStruct {
                    connection: "DP-1".to_string(),
                    resolution: "2560x1440".to_string(),
                    refreshrate: "144".to_string(),
                    position: "0x0".to_string(),
                    scale: "1".to_string(),
                    workspaces: vec![1, 2],
                },
                MonitorStruct {
                    connection: "HDMI-A-1".to_string(),
                    resolution: "1920x1080".to_string(),
                    refreshrate: "60".to_string(),
                    position: "2560x0".to_string(),
                    scale: "1.5".to_string(),
                    workspaces: vec![3],
                },
            ])
        }
    );
}

#[test]
fn a_monitor_with_parts_left_out() {
    assert_eq!(
        read_monitor("eDP-1"),
        MonitorStruct {
            connection: "eDP-1".to_string(),
            resolution: "".to_string(),
            refreshrate: "".to_string(),
            position: "".to_string(),
            scale: "1".to_string(),
            workspaces: vec![],
        }
    );
    assert_eq!(read_monitor("eDP-1, preferred, auto").resolution, "");
    assert_eq!(read_monitor("eDP-1, preferred, auto").position, "auto");
}

#[test]
fn a_workspace_that_is_no_number_is_malformed() {
    let mut monitor = MonitorDiff::new();
    assert_eq!(
        monitor.get_system(
            &vec![file("/home/falk/.config/hypr/monitor.conf", "workspace=one, monitor:DP-1\n")],
            USER
        ),
        Probe::Failed(ProbeError { fault: Fault::Malformed, subject: "one".to_string() })
    );
}

#[test]
fn no_layout_is_absent() {
    let mut monitor = MonitorDiff::new();
    drive(&mut monitor, &[no_file("/home/falk/.config/hypr/monitor.conf")], USER);
    assert_eq!(monitor.system, Monitor::absent());
    drive(&mut monitor, &[file("/home/falk/.config/hypr/monitor.conf", "\n")], USER);
    assert_eq!(monitor.system, Monitor::absent());
}

#[test]
fn directories_are_looked_for_one_by_one() {
    let mut directories = DirectoriesDiff::new();
    let there = CreateDirs { path: "/srv/there".to_string(), root: true };
    let missing = CreateDirs { path: "/srv/missing".to_string(), root: true };
    let other = CreateDirs { path: "/home/falk/x".to_string(), root: false };
    directories.config = Directories {
        reown_dirs: Some(vec![
            ReownDirs { directory: "/srv/www".to_string(), group: "www".to_string() },
            ReownDirs { directory: "/srv/data".to_string(), group: "data".to_string() },
            ReownDirs { directory: "/srv/none".to_string(), group: "none".to_string() },
        ]),
        links: None,
        create_dirs: Some(vec![there.clone(), missing, other.clone()]),
    };
    let system = [
        flag(Inquiry::IsDir, "/srv/www", true),
        output("ls -ld /srv/www", "drwxr-xr-x 2 root www 4096 Jan  1 00:00 /srv/www\n"),
        flag(Inquiry::IsDir, "/srv/data", true),
        output("ls -ld /srv/data", "drwxr-xr-x 2 root root 4096 Jan  1 00:00 /srv/data\n"),
        flag(Inquiry::IsDir, "/srv/none", false),
        flag(Inquiry::IsDir, "/srv/there", true),
        flag(Inquiry::IsDir, "/srv/missing", false),
    ];
    let asked = drive(&mut directories, &system, ROOT);
    assert_eq!(asked.len(), 7);
    assert_eq!(
        directories.system,
        Directories {
            reown_dirs: Some(vec![ReownDirs { directory: "/srv/www".to_string(), group: "www".to_string() }]),
            links: None,
            create_dirs: Some(vec![there, other]),
        }
    );
}

#[test]
fn directory_groups_are_not_observed_without_privilege() {
    let mut directories = DirectoriesDiff::new();
    directories.config.reown_dirs =
        Some(vec![ReownDirs { directory: "/srv/www".to_string(), group: "www".to_string() }]);
    let asked = drive(&mut directories, &[], USER);
    assert!(asked.is_empty());
    assert_eq!(directories.system, Directories::absent());
}

#[test]
fn a_listing_without_a_group_is_malformed() {
    let dir = ReownDirs { directory: "/srv".to_string(), group: "www".to_string() };
    let findings = vec![flag(Inquiry::IsDir, "/srv", true), output("ls -ld /srv", "short")];
    assert_eq!(
        dir.is_found(&findings, ROOT),
        Probe::Failed(ProbeError { fault: Fault::Malformed, subject: "short".to_string() })
    );
    assert_eq!(owning_group("a b c d e"), text("d"));
    assert_eq!(owning_group("a b c"), None);
}

#[test]
fn links_are_intact_when_every_entry_points_back() {
    let link = Links { origin: "/dots".to_string(), destination: "/home/falk".to_string(), root: false };
    let system = [
        output("ls -A /dots", ".zshrc\n.config\n"),
        flag(Inquiry::IsDir, "/dots", true),
        flag(Inquiry::IsSymlink, "/home/falk/.zshrc", true),
        flag(Inquiry::IsDir, "/home/falk/.zshrc", false),
        flag(Inquiry::IsFile, "/home/falk/.zshrc", true),
        output(
            "ls -lA1 /home/falk/.zshrc",
            "lrwxrwxrwx 1 falk falk 12 Jan  1 00:00 /home/falk/.zshrc -> /dots/.zshrc\n",
        ),
        flag(Inquiry::IsSymlink, "/home/falk/.config", true),
        flag(Inquiry::IsDir, "/home/falk/.config", true),
        output(
            "ls -ldA1 /home/falk/.config",
            "lrwxrwxrwx 1 falk falk 13 Jan  1 00:00 /home/falk/.config -> /dots/.config\n",
        ),
    ];
    let mut directories = DirectoriesDiff::new();
    directories.config.links = Some(vec![link.clone()]);
    let asked = drive(&mut directories, &system, USER);
    assert_eq!(asked.len(), system.len());
    assert_eq!(directories.system.links, Some(vec![link]));
}

#[test]
fn links_are_broken_when_an_entry_points_elsewhere() {
    let link = Links { origin: "/dots".to_string(), destination: "/home/falk".to_string(), root: false };
    let system = [
        output("ls -A /dots", ".zshrc\n"),
        flag(Inquiry::IsDir, "/dots", true),
        flag(Inquiry::IsSymlink, "/home/falk/.zshrc", true),
        flag(Inquiry::IsDir, "/home/falk/.zshrc", false),
        flag(Inquiry::IsFile, "/home/falk/.zshrc", true),
        output("ls -lA1 /home/falk/.zshrc", "l 1 /home/falk/.zshrc -> /elsewhere/.zshrc\n"),
    ];
    let mut directories = DirectoriesDiff::new();
    directories.config.links = Some(vec![link.clone()]);
    drive(&mut directories, &system, USER);
    assert_eq!(directories.system.links, None);
    let not_linked = [
        output("ls -A /dots", ".zshrc\n"),
        flag(Inquiry::IsDir, "/dots", true),
        flag(Inquiry::IsSymlink, "/home/falk/.zshrc", false),
    ];
    drive(&mut directories, &not_linked, USER);
    assert_eq!(directories.system.links, None);
}

#[test]
fn links_of_the_other_context_count_as_found() {
    let link = Links { origin: "/dots".to_string(), destination: "/root".to_string(), root: true };
    assert_eq!(link.is_found(&vec![], USER), Probe::Done(true));
}

#[test]
fn downloads_are_looked_for_one_by_one() {
    let git = GitDownload {
        url: "https://example.org/falk/dotfiles.git".to_string(),
        path: "/home/falk/src".to_string(),
        root: false,
    };
    let curl = CurlDownload {
        url: "https://example.org/font.zip".to_string(),
        path: "/home/falk/fonts".to_string(),
        file_name: "font.zip".to_string(),
        root: false,
    };
    let unzip = Unzip { path: "/home/falk/fonts/font".to_string(), root: false };
    let mut downloads = DownloadsDiff::new();
    downloads.config =
        Downloads { git: Some(vec![git.clone()]), curl: Some(vec![curl]), unzip: Some(vec![unzip.clone()]) };
    let system = [
        flag(Inquiry::IsDir, "/home/falk/src/dotfiles", true),
        flag(Inquiry::IsFile, "/home/falk/fonts/font.zip", false),
        flag(Inquiry::IsDir, "/home/falk/fonts/font", true),
    ];
    let asked = drive(&mut downloads, &system, USER);
    assert_eq!(asked.len(), 3);
    assert_eq!(downloads.system, Downloads { git: Some(vec![git]), curl: None, unzip: Some(vec![unzip]) });
}

#[test]
fn the_clone_of_a_repository_is_named_after_it() {
    assert_eq!(repository("https://example.org/falk/dotfiles.git"), text("dotfiles"));
    assert_eq!(repository("dotfiles.tar.git"), text("dotfiles"));
    assert_eq!(repository("https://example.org/falk/dotfiles"), None);
}

#[test]
fn a_repository_without_a_name_is_malformed() {
    let git = GitDownload { url: "https://example.org/x".to_string(), path: "/p".to_string(), root: false };
    assert_eq!(
        git.is_found(&vec![], USER),
        Probe::Failed(ProbeError { fault: Fault::Malformed, subject: "https://example.org/x".to_string() })
    );
}

#[test]
fn files_are_found_when_their_content_matches() {
    let same = TextToFile {
        write: "hello\n".to_string(),
        path: "/home/falk".to_string(),
        file_name: "a.txt".to_string(),
        root: false,
    };
    let differs = TextToFile {
        write: "hello".to_string(),
        path: "/home/falk".to_string(),
        file_name: "b.txt".to_string(),
        root: false,
    };
    let missing = TextToFile {
        write: "hello".to_string(),
        path: "/home/falk".to_string(),
        file_name: "c.txt".to_string(),
        root: false,
    };
    let mut files = FilesDiff::new();
    files.config = Files { files: Some(vec![same.clone(), differs, missing]) };
    let system = [
        flag(Inquiry::IsFile, "/home/falk/a.txt", true),
        file("/home/falk/a.txt", "  hello"),
        flag(Inquiry::IsFile, "/home/falk/b.txt", true),
        file("/home/falk/b.txt", "world"),
        flag(Inquiry::IsFile, "/home/falk/c.txt", false),
    ];
    drive(&mut files, &system, USER);
    assert_eq!(files.system, Files { files: Some(vec![same]) });
}

#[test]
fn a_file_that_cannot_be_read_fails_the_probe() {
    let entry = TextToFile {
        write: "x".to_string(),
        path: "/p".to_string(),
        file_name: "f".to_string(),
        root: false,
    };
    assert_eq!(
        entry.is_found(&vec![flag(Inquiry::IsFile, "/p/f", true), no_file("/p/f")], USER),
        Probe::Failed(ProbeError { fault: Fault::Unreadable, subject: "/p/f".to_string() })
    );
}

#[test]
fn a_pass_loads_observes_and_computes_the_delta() {
    let mut system = SystemDiff::new();
    let config = System { hostname: text("node2") };
    assert_eq!(
        system.populate(&config, &vec![], ROOT),
        Ok(Probe::Ask(ask(Inquiry::ReadFile, "/etc/hostname")))
    );
    assert_eq!(system, SystemDiff::new());
    assert_eq!(system.populate(&config, &vec![file("/etc/hostname", "node1\n")], ROOT), Ok(Probe::Done(())));
    assert_eq!(system.config.hostname, text("node2"));
    assert_eq!(system.system.hostname, text("node1"));
    assert_eq!(system.diff.add.hostname, text("node2"));
    assert_eq!(system.diff.remove.hostname, text("node1"));
}

#[test]
fn a_pass_refuses_a_bad_configuration_before_any_probe() {
    let mut time = TimeDiff::new();
    assert_eq!(time.populate(&Time { timezone: None }, &vec![], ROOT), Err(ConfigError::TimezoneMissing));
    assert_eq!(time, TimeDiff::new());
}

#[test]
fn a_pass_leaves_a_domain_of_the_other_context_alone() {
    let mut time = TimeDiff::new();
    assert_eq!(time.populate(&Time { timezone: None }, &vec![], USER), Ok(Probe::Done(())));
    assert_eq!(time, TimeDiff::new());
    let mut users = UserDiff::new();
    assert_eq!(users.populate(&Users::absent(), &vec![], USER), Ok(Probe::Done(())));
    assert_eq!(users, UserDiff::new());
    let mut monitor = MonitorDiff::new();
    assert_eq!(monitor.populate(&Monitor::absent(), &vec![], ROOT), Ok(Probe::Done(())));
    assert_eq!(monitor, MonitorDiff::new());
}

#[test]
fn a_pass_starts_from_a_fresh_triple() {
    let mut services = ServicesDiff::new();
    services.system.user_services = Some(names(&["stale.service"]));
    services.diff.remove.user_services = Some(names(&["stale.service"]));
    let config = Services { user_services: None, services: Some(names(&["sshd.service"])) };
    let findings = vec![output("systemctl list-unit-files --state=enabled", "")];
    assert_eq!(services.populate(&config, &findings, ROOT), Ok(Probe::Done(())));
    assert_eq!(services.system, Services::absent());
    assert_eq!(services.diff.add.services, Some(names(&["sshd.service"])));
    assert_eq!(services.diff.remove, Services::absent());
}

#[test]
fn a_failed_probe_leaves_the_triple_as_it_was() {
    let mut pacman = PacmanDiff::new();
    let findings = vec![no_file("/etc/pacman.conf")];
    assert_eq!(
        pacman.populate(&Pacman { parallel: Some(5) }, &findings, ROOT),
        Ok(Probe::Failed(ProbeError { fault: Fault::Unreadable, subject: "/etc/pacman.conf".to_string() }))
    );
    assert_eq!(pacman, PacmanDiff::new());
}
