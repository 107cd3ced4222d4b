use reconciler::data_types::{
    Diff, Fail2BanDiff, KeyboardDiff, New, PackagesDiff, PacmanDiff, ServicesDiff, SystemDiff,
    UfwDiff, UserDiff,
};
use reconciler::get_diff::{diff_scalar, diff_set, difference, normalize, normalized, GetDiff};
use reconciler::item::{contains, Item};
use reconciler::structure::{Keyboard, ManualInstallPackages, Packages, System, User};

fn names(list: &[&str]) -> Vec<String> {
    list.iter().map(|s| s.to_string()).collect()
}

fn user(name: &str, groups: &[&str]) -> User {
    User { name: name.to_string(), groups: names(groups) }
}

#[test]
fn package_set_delta() {
    let mut packages = PackagesDiff::new();
    packages.config.pacman_packages = Some(names(&["git", "curl"]));
    packages.system.pacman_packages = Some(names(&["curl", "vim"]));
    packages.get_diff();
    assert_eq!(packages.diff.add.pacman_packages, Some(names(&["git"])));
    assert_eq!(packages.diff.remove.pacman_packages, Some(names(&["vim"])));
    assert_eq!(packages.diff.add.aur_packages, None);
    assert_eq!(packages.diff.remove.aur_packages, None);
}

#[test]
fn duplicate_desired_entries_are_kept() {
    let mut packages = PackagesDiff::new();
    packages.config.pacman_packages = Some(names(&["git", "git"]));
    packages.system.pacman_packages = None;
    packages.get_diff();
    assert_eq!(packages.diff.add.pacman_packages, Some(names(&["git", "git"])));
    assert_eq!(packages.diff.remove.pacman_packages, None);
}

#[test]
fn duplicate_desired_entries_against_an_empty_observation() {
    let delta = diff_set(&Some(names(&["git", "git"])), &Some(Vec::<String>::new()));
    assert_eq!(delta.add, Some(names(&["git", "git"])));
    assert_eq!(delta.remove, None);
}

#[test]
fn hostname_change_delta() {
    let mut system = SystemDiff::new();
    system.config = System { hostname: Some("node2".to_string()) };
    system.system = System { hostname: Some("node1".to_string()) };
    system.get_diff();
    assert_eq!(system.diff.add.hostname, Some("node2".to_string()));
    assert_eq!(system.diff.remove.hostname, Some("node1".to_string()));
}

#[test]
fn difference_keeps_order() {
    let a = names(&["c", "a", "b", "a"]);
    let b = names(&["b"]);
    assert_eq!(difference(&a, &b), names(&["c", "a", "a"]));
    assert_eq!(difference(&b, &a), Vec::<String>::new());
}

#[test]
fn difference_of_a_list_with_itself_is_empty() {
    let a = names(&["x", "y", "x"]);
    assert_eq!(difference(&a, &a), Vec::<String>::new());
}

#[test]
fn set_delta_is_empty_for_the_same_elements_in_another_order() {
    let delta = diff_set(&Some(names(&["a", "b", "b"])), &Some(names(&["b", "a"])));
    assert_eq!(delta, Diff { add: None, remove: None });
}

#[test]
fn set_delta_of_absent_and_present() {
    let desired: Option<Vec<String>> = None;
    let observed = Some(names(&["a", "b"]));
    assert_eq!(diff_set(&desired, &observed), Diff { add: None, remove: Some(names(&["a", "b"])) });
    assert_eq!(diff_set(&observed, &desired), Diff { add: Some(names(&["a", "b"])), remove: None });
    assert_eq!(diff_set(&desired, &desired), Diff { add: None, remove: None });
}

#[test]
fn set_delta_compares_whole_records() {
    let wanted = ManualInstallPackages {
        name: "paru".to_string(),
        check: "which paru".to_string(),
        command: "make install".to_string(),
        root: false,
    };
    let mut found = wanted.clone();
    found.command = "make".to_string();
    let delta = diff_set(&Some(vec![wanted.clone()]), &Some(vec![found.clone()]));
    assert_eq!(delta.add, Some(vec![wanted]));
    assert_eq!(delta.remove, Some(vec![found]));
}

#[test]
fn scalar_delta_replaces_as_a_whole() {
    let delta = diff_scalar(&Some("a".to_string()), &Some("b".to_string()));
    assert_eq!(delta, Diff { add: Some("a".to_string()), remove: Some("b".to_string()) });
    let delta = diff_scalar(&Some(5u8), &None);
    assert_eq!(delta, Diff { add: Some(5u8), remove: None });
    let delta = diff_scalar(&None, &Some(7usize));
    assert_eq!(delta, Diff { add: None, remove: Some(7usize) });
}

#[test]
fn scalar_delta_is_empty_for_equal_values() {
    assert_eq!(
        diff_scalar(&Some("same".to_string()), &Some("same".to_string())),
        Diff { add: None, remove: None }
    );
    assert_eq!(diff_scalar::<u8>(&None, &None), Diff { add: None, remove: None });
}

#[test]
fn keyboard_delta_follows_the_scalar_rule_in_both_fields() {
    let mut keyboard = KeyboardDiff::new();
    keyboard.config.keyboard_tty = Some("de".to_string());
    keyboard.config.mkinitcpio = Some("de-latin1".to_string());
    keyboard.system.mkinitcpio = Some("us".to_string());
    keyboard.get_diff();
    assert_eq!(keyboard.diff.add.keyboard_tty, Some("de".to_string()));
    assert_eq!(keyboard.diff.remove.keyboard_tty, None);
    assert_eq!(keyboard.diff.add.mkinitcpio, Some("de-latin1".to_string()));
    assert_eq!(keyboard.diff.remove.mkinitcpio, Some("us".to_string()));
}

#[test]
fn console_layout_is_added_when_none_is_observed() {
    let mut keyboard = KeyboardDiff::new();
    keyboard.config = Keyboard {
        keyboard_tty: Some("de-latin1".to_string()),
        mkinitcpio: Some("de".to_string()),
    };
    keyboard.system = Keyboard { keyboard_tty: None, mkinitcpio: Some("de".to_string()) };
    keyboard.get_diff();
    assert_eq!(keyboard.diff.add.keyboard_tty, Some("de-latin1".to_string()));
    assert_eq!(keyboard.diff.remove.keyboard_tty, None);
    assert_eq!(keyboard.diff.add.mkinitcpio, None);
    assert_eq!(keyboard.diff.remove.mkinitcpio, None);
}

#[test]
fn console_layout_is_replaced_or_left_alone() {
    let mut keyboard = KeyboardDiff::new();
    keyboard.config.keyboard_tty = Some("de".to_string());
    keyboard.system.keyboard_tty = Some("us".to_string());
    keyboard.get_diff();
    assert_eq!(keyboard.diff.add.keyboard_tty, Some("de".to_string()));
    assert_eq!(keyboard.diff.remove.keyboard_tty, Some("us".to_string()));
    keyboard.system.keyboard_tty = Some("de".to_string());
    keyboard.get_diff();
    assert_eq!(keyboard.diff.add, Keyboard::absent());
    assert_eq!(keyboard.diff.remove, Keyboard::absent());
}

#[test]
fn pacman_delta_is_scalar() {
    let mut pacman = PacmanDiff::new();
    pacman.config.parallel = Some(5);
    pacman.system.parallel = Some(1);
    pacman.get_diff();
    assert_eq!(pacman.diff.add.parallel, Some(5));
    assert_eq!(pacman.diff.remove.parallel, Some(1));
}

#[test]
fn firewall_delta_mixes_scalars_and_sets() {
    let mut ufw = UfwDiff::new();
    ufw.config.incoming = Some("deny".to_string());
    ufw.config.outgoing = Some("allow".to_string());
    ufw.config.rules = Some(names(&["22", "80"]));
    ufw.system.incoming = Some("deny".to_string());
    ufw.system.outgoing = Some("deny".to_string());
    ufw.system.rules = Some(names(&["80", "443"]));
    ufw.get_diff();
    assert_eq!(ufw.diff.add.incoming, None);
    assert_eq!(ufw.diff.add.outgoing, Some("allow".to_string()));
    assert_eq!(ufw.diff.remove.outgoing, Some("deny".to_string()));
    assert_eq!(ufw.diff.add.rules, Some(names(&["22"])));
    assert_eq!(ufw.diff.remove.rules, Some(names(&["443"])));
}

#[test]
fn fail2ban_delta_covers_every_field() {
    let mut f2b = Fail2BanDiff::new();
    f2b.config.ignoreip = Some("127.0.0.1".to_string());
    f2b.config.bantime = Some(600);
    f2b.config.findtime = Some(60);
    f2b.config.maxretry = Some(3);
    f2b.config.services = Some(names(&["sshd"]));
    f2b.system.ignoreip = Some("".to_string());
    f2b.system.bantime = Some(0);
    f2b.system.findtime = Some(60);
    f2b.system.maxretry = Some(0);
    f2b.get_diff();
    assert_eq!(f2b.diff.add.ignoreip, Some("127.0.0.1".to_string()));
    assert_eq!(f2b.diff.add.bantime, Some(600));
    assert_eq!(f2b.diff.add.findtime, None);
    assert_eq!(f2b.diff.add.maxretry, Some(3));
    assert_eq!(f2b.diff.remove.maxretry, Some(0));
    assert_eq!(f2b.diff.add.services, Some(names(&["sshd"])));
    assert_eq!(f2b.diff.remove.services, None);
}

#[test]
fn delta_leaves_desired_and_observed_alone() {
    let mut services = ServicesDiff::new();
    services.config.services = Some(names(&["sshd.service"]));
    services.system.services = Some(names(&["cups.service"]));
    let before = services.clone();
    services.get_diff();
    assert_eq!(services.config, before.config);
    assert_eq!(services.system, before.system);
}

#[test]
fn delta_overwrites_an_earlier_delta() {
    let mut services = ServicesDiff::new();
    services.diff.add.services = Some(names(&["stale.service"]));
    services.diff.remove.user_services = Some(names(&["stale.service"]));
    services.get_diff();
    assert_eq!(services.diff.add.services, None);
    assert_eq!(services.diff.remove.user_services, None);
}

#[test]
fn reconciling_a_state_against_itself_yields_no_delta() {
    let mut packages = PackagesDiff::new();
    let state = Packages {
        pacman_packages: Some(names(&["git", "curl"])),
        aur_packages: None,
        manual_install_packages: None,
    };
    packages.config = state.clone();
    packages.system = state;
    packages.get_diff();
    assert_eq!(packages.diff.add, Packages::absent());
    assert_eq!(packages.diff.remove, Packages::absent());
}

#[test]
fn user_list_follows_the_set_rule() {
    let mut users = UserDiff::new();
    users.config.user_list = Some(names(&["falk", "joel"]));
    users.system.user_list = Some(names(&["joel", "mia"]));
    users.get_diff();
    assert_eq!(users.diff.add.user_list, Some(names(&["falk"])));
    assert_eq!(users.diff.remove.user_list, Some(names(&["mia"])));
}

#[test]
fn memberships_are_compared_as_whole_records() {
    let mut users = UserDiff::new();
    users.config.user_list = Some(names(&["alice"]));
    users.system.user_list = Some(names(&["alice"]));
    users.config.user_groups = Some(vec![user("alice", &["wheel", "audio"])]);
    users.system.user_groups = Some(vec![user("alice", &["wheel"])]);
    users.get_diff();
    assert_eq!(users.diff.add.user_list, None);
    assert_eq!(users.diff.remove.user_list, None);
    assert_eq!(users.diff.add.user_groups, Some(vec![user("alice", &["wheel", "audio"])]));
    assert_eq!(users.diff.remove.user_groups, Some(vec![user("alice", &["wheel"])]));
}

#[test]
fn memberships_follow_the_set_rule() {
    let mut users = UserDiff::new();
    users.config.user_groups =
        Some(vec![user("falk", &["wheel", "audio"]), user("joel", &["video"])]);
    users.system.user_groups =
        Some(vec![user("joel", &["video"]), user("falk", &["audio", "wheel"]), user("mia", &[])]);
    users.get_diff();
    assert_eq!(users.diff.add.user_groups, Some(vec![user("falk", &["wheel", "audio"])]));
    assert_eq!(
        users.diff.remove.user_groups,
        Some(vec![user("falk", &["audio", "wheel"]), user("mia", &[])])
    );
}

#[test]
fn membership_delta_with_an_absent_side() {
    let some = Some(vec![user("falk", &["wheel"])]);
    assert_eq!(diff_set(&some, &None), Diff { add: some.clone(), remove: None });
    assert_eq!(diff_set(&None, &some), Diff { add: None, remove: some.clone() });
    assert_eq!(diff_set::<User>(&None, &None), Diff { add: None, remove: None });
    assert_eq!(diff_set(&some, &some), Diff { add: None, remove: None });
}

#[test]
fn users_delta_combines_both_fields() {
    let mut users = UserDiff::new();
    users.config.user_list = Some(names(&["falk"]));
    users.config.user_groups = Some(vec![user("falk", &["wheel"])]);
    users.system.user_list = Some(names(&["falk"]));
    users.system.user_groups = Some(vec![user("falk", &["audio"])]);
    users.get_diff();
    assert_eq!(users.diff.add.user_list, None);
    assert_eq!(users.diff.add.user_groups, Some(vec![user("falk", &["wheel"])]));
    assert_eq!(users.diff.remove.user_groups, Some(vec![user("falk", &["audio"])]));
}

#[test]
fn normalizing_turns_an_empty_list_into_an_absent_field() {
    assert_eq!(normalized(Vec::<String>::new()), None);
    assert_eq!(normalized(names(&["a"])), Some(names(&["a"])));
    assert_eq!(normalize(&Some(Vec::<String>::new())), None);
    assert_eq!(normalize::<String>(&None), None);
    assert_eq!(normalize(&Some(names(&["a"]))), Some(names(&["a"])));
}

#[test]
fn items_compare_and_copy_by_value() {
    let a = user("falk", &["wheel"]);
    let b = a.duplicate();
    assert!(a.same(&b));
    assert_eq!(a, b);
    assert!(!a.same(&user("falk", &["audio"])));
    assert!(Some(3u8).same(&Some(3u8)));
    assert!(!Some(3u8).same(&None));
    assert!(names(&["a", "b"]).same(&names(&["a", "b"])));
    assert!(!names(&["a", "b"]).same(&names(&["b", "a"])));
    assert!(contains(&names(&["a", "b"]), &"b".to_string()));
    assert!(!contains(&names(&["a", "b"]), &"c".to_string()));
}
