use reconciler::data_types::{
    DirectoriesDiff, DownloadsDiff, Fail2BanDiff, FilesDiff, GrubDiff, KeyboardDiff, LanguageDiff,
    MkinitcpioDiff, MonitorDiff, New, PackagesDiff, PacmanDiff, ServicesDiff, ShellDiff,
    SystemDiff, TimeDiff, UfwDiff, UserDiff,
};
use reconciler::get_config::{is_given, ConfigError, GetConfig};
use reconciler::get_system_from_other::GetSystemFromOther;
use reconciler::helper::ExecutionContext;
use reconciler::structure::{
    CreateDirs, Directories, Downloads, Fail2Ban, Files, GitDownload, Grub, Keyboard, Language,
    Links, ManualInstallPackages, Mkinitcpio, Monitor, Packages, Pacman, ReownDirs, Services,
    Shell, System, TextToFile, Time, Ufw, User, Users,
};

const ROOT: ExecutionContext = ExecutionContext { privileged: true };
const USER: ExecutionContext = ExecutionContext { privileged: false };

fn names(list: &[&str]) -> Vec<String> {
    list.iter().map(|s| s.to_string()).collect()
}

fn text(s: &str) -> Option<String> {
    Some(s.to_string())
}

#[test]
fn missing_timezone_is_refused() {
    let mut time = TimeDiff::new();
    let before = time.clone();
    assert_eq!(time.get_config(&Time { timezone: None }, ROOT), Err(ConfigError::TimezoneMissing));
    assert_eq!(time, before);
}

#[test]
fn empty_timezone_is_refused() {
    let mut time = TimeDiff::new();
    assert_eq!(time.get_config(&Time { timezone: text("") }, ROOT), Err(ConfigError::TimezoneMissing));
}

#[test]
fn timezone_is_loaded() {
    let mut time = TimeDiff::new();
    assert_eq!(time.get_config(&Time { timezone: text("Europe/Berlin") }, ROOT), Ok(()));
    assert_eq!(time.config.timezone, text("Europe/Berlin"));
    assert_eq!(time.system, Time::absent());
}

#[test]
fn keyboard_wants_both_layouts() {
    let mut keyboard = KeyboardDiff::new();
    assert_eq!(
        keyboard.get_config(&Keyboard { keyboard_tty: None, mkinitcpio: text("de") }, ROOT),
        Err(ConfigError::KeyboardTtyMissing)
    );
    assert_eq!(
        keyboard.get_config(&Keyboard { keyboard_tty: text("de"), mkinitcpio: text("") }, ROOT),
        Err(ConfigError::KeymapMissing)
    );
    assert_eq!(
        keyboard.get_config(&Keyboard { keyboard_tty: None, mkinitcpio: None }, ROOT),
        Err(ConfigError::KeyboardTtyMissing)
    );
    assert_eq!(
        keyboard.get_config(&Keyboard { keyboard_tty: text("de"), mkinitcpio: text("de-latin1") }, ROOT),
        Ok(())
    );
    assert_eq!(keyboard.config.mkinitcpio, text("de-latin1"));
}

#[test]
fn language_wants_locale_and_character_set() {
    let mut language = LanguageDiff::new();
    assert_eq!(
        language.get_config(&Language { locale: None, character: text("UTF-8") }, ROOT),
        Err(ConfigError::LocaleMissing)
    );
    assert_eq!(
        language.get_config(&Language { locale: text("en_US.UTF-8"), character: None }, ROOT),
        Err(ConfigError::CharacterMissing)
    );
    assert_eq!(
        language.get_config(&Language { locale: text("en_US.UTF-8"), character: text("UTF-8") }, ROOT),
        Ok(())
    );
}

#[test]
fn hostname_is_mandatory_and_holds_no_space() {
    let mut system = SystemDiff::new();
    assert_eq!(system.get_config(&System { hostname: None }, ROOT), Err(ConfigError::HostnameMissing));
    assert_eq!(system.get_config(&System { hostname: text("") }, ROOT), Err(ConfigError::HostnameMissing));
    assert_eq!(
        system.get_config(&System { hostname: text("my host") }, ROOT),
        Err(ConfigError::HostnameWithSpace)
    );
    assert_eq!(system.get_config(&System { hostname: text("node2") }, ROOT), Ok(()));
    assert_eq!(system.config.hostname, text("node2"));
}

#[test]
fn users_want_a_groups_entry_for_each_user() {
    let mut users = UserDiff::new();
    let falk = User { name: "falk".to_string(), groups: names(&["wheel"]) };
    assert_eq!(
        users.get_config(&Users { user_list: None, user_groups: None }, ROOT),
        Err(ConfigError::UsersMissing)
    );
    assert_eq!(
        users.get_config(&Users { user_list: Some(vec![]), user_groups: Some(vec![falk.clone()]) }, ROOT),
        Err(ConfigError::UsersMissing)
    );
    assert_eq!(
        users.get_config(&Users { user_list: Some(names(&["falk"])), user_groups: None }, ROOT),
        Err(ConfigError::UserGroupsMismatch)
    );
    assert_eq!(
        users.get_config(
            &Users { user_list: Some(names(&["falk", "joel"])), user_groups: Some(vec![falk.clone()]) },
            ROOT
        ),
        Err(ConfigError::UserGroupsMismatch)
    );
    let good = Users { user_list: Some(names(&["falk"])), user_groups: Some(vec![falk]) };
    assert_eq!(users.get_config(&good, ROOT), Ok(()));
    assert_eq!(users.config, good);
}

#[test]
fn optional_scalars_are_copied() {
    let mut shell = ShellDiff::new();
    assert_eq!(shell.get_config(&Shell { default_shell: None }, USER), Ok(()));
    assert_eq!(shell.config.default_shell, None);
    assert_eq!(shell.get_config(&Shell { default_shell: text("/usr/bin/zsh") }, USER), Ok(()));
    assert_eq!(shell.config.default_shell, text("/usr/bin/zsh"));
    let mut pacman = PacmanDiff::new();
    assert_eq!(pacman.get_config(&Pacman { parallel: Some(5) }, ROOT), Ok(()));
    assert_eq!(pacman.config.parallel, Some(5));
}

#[test]
fn an_empty_list_loads_as_an_absent_field() {
    let mut with_empty = PackagesDiff::new();
    let mut with_absent = PackagesDiff::new();
    let empty = Packages {
        pacman_packages: Some(vec![]),
        aur_packages: Some(vec![]),
        manual_install_packages: Some(vec![]),
    };
    assert_eq!(with_empty.get_config(&empty, ROOT), Ok(()));
    assert_eq!(with_absent.get_config(&Packages::absent(), ROOT), Ok(()));
    assert_eq!(with_empty.config, with_absent.config);
    assert_eq!(with_empty.config, Packages::absent());
    assert_eq!(with_empty.get_config(&empty, USER), Ok(()));
    assert_eq!(with_empty.config, Packages::absent());
}

#[test]
fn empty_lists_load_as_absent_in_every_domain() {
    let mut grub = GrubDiff::new();
    grub.get_config(&Grub { grub_cmdline_linux_default: Some(vec![]) }, ROOT).unwrap();
    assert_eq!(grub.config, Grub::absent());
    let mut mkinitcpio = MkinitcpioDiff::new();
    mkinitcpio.get_config(&Mkinitcpio { modules: Some(vec![]), hooks: Some(vec![]) }, ROOT).unwrap();
    assert_eq!(mkinitcpio.config, Mkinitcpio::absent());
    let mut downloads = DownloadsDiff::new();
    downloads
        .get_config(&Downloads { git: Some(vec![]), curl: Some(vec![]), unzip: Some(vec![]) }, USER)
        .unwrap();
    assert_eq!(downloads.config, Downloads::absent());
    let mut ufw = UfwDiff::new();
    ufw.get_config(&Ufw { incoming: None, outgoing: None, rules: Some(vec![]) }, ROOT).unwrap();
    assert_eq!(ufw.config, Ufw::absent());
    let mut f2b = Fail2BanDiff::new();
    f2b.get_config(
        &Fail2Ban { ignoreip: None, bantime: None, findtime: None, maxretry: None, services: Some(vec![]) },
        ROOT,
    )
    .unwrap();
    assert_eq!(f2b.config, Fail2Ban::absent());
    let mut monitor = MonitorDiff::new();
    monitor.get_config(&Monitor { monitors: Some(vec![]) }, USER).unwrap();
    assert_eq!(monitor.config, Monitor::absent());
    let mut files = FilesDiff::new();
    files.get_config(&Files { files: Some(vec![]) }, USER).unwrap();
    assert_eq!(files.config, Files::absent());
    let mut directories = DirectoriesDiff::new();
    directories
        .get_config(
            &Directories { reown_dirs: Some(vec![]), links: Some(vec![]), create_dirs: Some(vec![]) },
            ROOT,
        )
        .unwrap();
    assert_eq!(directories.config, Directories::absent());
    let mut services = ServicesDiff::new();
    services.get_config(&Services { user_services: Some(vec![]), services: Some(vec![]) }, ROOT).unwrap();
    assert_eq!(services.config, Services::absent());
}

#[test]
fn services_are_loaded_for_one_context_only() {
    let config = Services {
        user_services: Some(names(&["pipewire.service"])),
        services: Some(names(&["sshd.service"])),
    };
    let mut services = ServicesDiff::new();
    services.get_config(&config, ROOT).unwrap();
    assert_eq!(services.config.services, Some(names(&["sshd.service"])));
    assert_eq!(services.config.user_services, None);
    services.get_config(&config, USER).unwrap();
    assert_eq!(services.config.services, None);
    assert_eq!(services.config.user_services, Some(names(&["pipewire.service"])));
}

#[test]
fn packages_are_loaded_for_one_context_only() {
    let manual = ManualInstallPackages {
        name: "paru".to_string(),
        check: "which paru".to_string(),
        command: "makepkg -si".to_string(),
        root: false,
    };
    let config = Packages {
        pacman_packages: Some(names(&["git"])),
        aur_packages: Some(names(&["yay"])),
        manual_install_packages: Some(vec![manual.clone()]),
    };
    let mut packages = PackagesDiff::new();
    packages.get_config(&config, ROOT).unwrap();
    assert_eq!(packages.config.pacman_packages, Some(names(&["git"])));
    assert_eq!(packages.config.aur_packages, None);
    assert_eq!(packages.config.manual_install_packages, Some(vec![manual.clone()]));
    packages.get_config(&config, USER).unwrap();
    assert_eq!(packages.config.pacman_packages, None);
    assert_eq!(packages.config.aur_packages, Some(names(&["yay"])));
    assert_eq!(packages.config.manual_install_packages, Some(vec![manual]));
}

#[test]
fn directory_groups_are_loaded_by_a_privileged_run_only() {
    let config = Directories {
        reown_dirs: Some(vec![ReownDirs { directory: "/srv".to_string(), group: "www".to_string() }]),
        links: Some(vec![Links { origin: "/a".to_string(), destination: "/b".to_string(), root: false }]),
        create_dirs: Some(vec![CreateDirs { path: "/c".to_string(), root: true }]),
    };
    let mut directories = DirectoriesDiff::new();
    directories.get_config(&config, ROOT).unwrap();
    assert_eq!(directories.config, config);
    directories.get_config(&config, USER).unwrap();
    assert_eq!(directories.config.reown_dirs, None);
    assert_eq!(directories.config.links, config.links);
    assert_eq!(directories.config.create_dirs, config.create_dirs);
}

#[test]
fn loading_leaves_observed_state_and_delta_alone() {
    let mut files = FilesDiff::new();
    let file = TextToFile {
        write: "x".to_string(),
        path: "/tmp".to_string(),
        file_name: "f".to_string(),
        root: false,
    };
    files.system.files = Some(vec![file.clone()]);
    files.diff.add.files = Some(vec![file.clone()]);
    let before = files.clone();
    files.get_config(&Files { files: None }, USER).unwrap();
    assert_eq!(files.system, before.system);
    assert_eq!(files.diff, before.diff);
}

#[test]
fn is_given_wants_a_text_that_is_not_empty() {
    assert!(is_given(&text("a")));
    assert!(!is_given(&text("")));
    assert!(!is_given(&None));
}

#[test]
fn every_refusal_has_its_message() {
    assert_eq!(ConfigError::TimezoneMissing.message(), "Config-Error: Timezone must be specified!");
    assert_eq!(ConfigError::KeyboardTtyMissing.message(), "Config-Error: Keyboard_tty must be specified!");
    assert_eq!(ConfigError::KeymapMissing.message(), "Config-Error: Mkinitcpio must be specified!");
    assert_eq!(ConfigError::LocaleMissing.message(), "Config-Error: Locale must be specified!");
    assert_eq!(ConfigError::CharacterMissing.message(), "Config-Error: Locale must be specified!");
    assert_eq!(ConfigError::HostnameMissing.message(), "Config-Error: Hostname must be specified!");
    assert_eq!(
        ConfigError::HostnameWithSpace.message(),
        "Config-Error: Hostname is not allowed to contain ' '!"
    );
    assert_eq!(ConfigError::UsersMissing.message(), "Config-Error: No user specified in config!");
    assert_eq!(
        ConfigError::UserGroupsMismatch.message(),
        "Config-Error: User_list and User_groups do not have the same length! Some groups are not specified for User(s)!"
    );
}

#[test]
fn another_configuration_stands_in_for_the_observed_state() {
    let mut system = SystemDiff::new();
    system.get_system_from_other(&System { hostname: text("node1") }, ROOT);
    assert_eq!(system.system.hostname, text("node1"));
    assert_eq!(system.config, System::absent());
    let mut grub = GrubDiff::new();
    grub.get_system_from_other(&Grub { grub_cmdline_linux_default: Some(vec![]) }, ROOT);
    assert_eq!(grub.system, Grub::absent());
    let mut downloads = DownloadsDiff::new();
    let git = GitDownload { url: "u".to_string(), path: "p".to_string(), root: false };
    downloads.get_system_from_other(
        &Downloads { git: Some(vec![git.clone()]), curl: None, unzip: Some(vec![]) },
        USER,
    );
    assert_eq!(downloads.system, Downloads { git: Some(vec![git]), curl: None, unzip: None });
}

#[test]
fn standing_in_respects_the_context() {
    let other = Services {
        user_services: Some(names(&["pipewire.service"])),
        services: Some(names(&["sshd.service"])),
    };
    let mut services = ServicesDiff::new();
    services.get_system_from_other(&other, ROOT);
    assert_eq!(services.system, Services { user_services: None, services: other.services.clone() });
    services.get_system_from_other(&other, USER);
    assert_eq!(services.system, Services { user_services: other.user_services.clone(), services: None });
    let packages = Packages {
        pacman_packages: Some(names(&["git"])),
        aur_packages: Some(names(&["yay"])),
        manual_install_packages: None,
    };
    let mut diff = PackagesDiff::new();
    diff.get_system_from_other(&packages, ROOT);
    assert_eq!(diff.system.aur_packages, None);
    assert_eq!(diff.system.pacman_packages, Some(names(&["git"])));
    diff.get_system_from_other(&packages, USER);
    assert_eq!(diff.system.pacman_packages, None);
    assert_eq!(diff.system.aur_packages, Some(names(&["yay"])));
}

#[test]
fn a_fresh_triple_holds_nothing() {
    let services = ServicesDiff::new();
    assert_eq!(services.config, Services::absent());
    assert_eq!(services.system, Services::absent());
    assert_eq!(services.diff.add, Services::absent());
    assert_eq!(services.diff.remove, Services::absent());
    let keyboard = KeyboardDiff::new();
    assert_eq!(keyboard.config, Keyboard { keyboard_tty: None, mkinitcpio: None });
}
