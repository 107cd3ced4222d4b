use reconciler::data_types::{LanguageDiff, New, SystemDiff};
use reconciler::args::{
    ChrootCommands, Cli, Commands, CurrentCommands, DeleteCommands, InstallOrUpdate,
    InstallationCommands, LastDel, Rollback, VersionCommands, VersionDel,
};
use reconciler::dispatch::{
    build_current, dispatch, important_packages, in_chroot, installation_part1,
    installation_part2, preparation, Choice, Domain, Job, Stage,
};
use reconciler::function::Action;
use reconciler::probe::{Fault, Finding, Inquiry, Probe, ProbeError, Question};

fn file(path: &str, content: &str) -> Finding {
    Finding {
        question: Question { kind: Inquiry::ReadFile, subject: path.to_string() },
        ok: true,
        text: content.to_string(),
    }
}

fn nothing_chosen() -> Choice {
    Choice {
        system: false,
        shell: false,
        user: false,
        services: false,
        packages: false,
        grub: false,
        mkinitcpio: false,
    }
}

#[test]
fn a_full_run_populates_every_domain_before_it_applies_any() {
    let stages = build_current();
    assert_eq!(stages.len(), 39);
    let first_applied = stages.iter().position(|s| !matches!(s, Stage::Populate(_))).unwrap();
    assert_eq!(first_applied, 17);
    assert!(stages[first_applied..].iter().all(|s| matches!(s, Stage::Add(_) | Stage::Remove(_))));
    assert_eq!(stages[0], Stage::Populate(Domain::Keyboard));
    assert_eq!(stages[16], Stage::Populate(Domain::Files));
    assert_eq!(stages[17], Stage::Add(Domain::Keyboard));
    assert_eq!(stages[38], Stage::Add(Domain::Monitor));
}

#[test]
fn a_domain_removes_before_it_adds() {
    let stages = build_current();
    for domain in [Domain::Users, Domain::Packages, Domain::Services, Domain::Ufw, Domain::Fail2Ban] {
        let removes = stages.iter().position(|s| *s == Stage::Remove(domain)).unwrap();
        let adds = stages.iter().position(|s| *s == Stage::Add(domain)).unwrap();
        assert_eq!(removes + 1, adds);
    }
}

#[test]
fn packages_come_before_services() {
    let stages = build_current();
    let packages = stages.iter().position(|s| *s == Stage::Add(Domain::Packages)).unwrap();
    let services = stages.iter().position(|s| *s == Stage::Add(Domain::Services)).unwrap();
    assert!(packages < services);
}

#[test]
fn the_first_part_does_what_was_chosen() {
    let setup = vec![
        Stage::Prepare,
        Stage::Populate(Domain::Keyboard),
        Stage::Populate(Domain::Time),
        Stage::Populate(Domain::Pacman),
        Stage::Add(Domain::Keyboard),
        Stage::Add(Domain::Time),
        Stage::Add(Domain::Pacman),
    ];
    let mut both = setup.clone();
    both.push(Stage::Partition);
    assert_eq!(installation_part1(false, false), both);
    assert_eq!(installation_part1(true, true), both);
    assert_eq!(installation_part1(true, false), setup);
    assert_eq!(installation_part1(false, true), vec![Stage::Partition]);
}

#[test]
fn the_second_part_without_a_choice_does_everything() {
    let stages = installation_part2(&nothing_chosen());
    assert_eq!(stages.len(), 23);
    assert_eq!(stages[0], Stage::Prepare);
    assert_eq!(stages[16], Stage::Remove(Domain::Users));
    assert_eq!(stages[17], Stage::Add(Domain::Users));
    assert_eq!(stages[22], Stage::Add(Domain::Mkinitcpio));
    assert!(!stages.contains(&Stage::ImportantPackages));
    assert!(!stages.contains(&Stage::Populate(Domain::Packages)));
}

#[test]
fn the_second_part_does_the_chosen_pieces_in_order() {
    let mut choice = nothing_chosen();
    choice.grub = true;
    choice.user = true;
    choice.packages = true;
    assert_eq!(
        installation_part2(&choice),
        vec![
            Stage::Populate(Domain::Users),
            Stage::Remove(Domain::Users),
            Stage::Add(Domain::Users),
            Stage::ImportantPackages,
            Stage::InstallGrub,
            Stage::Populate(Domain::Grub),
            Stage::Add(Domain::Grub),
        ]
    );
    let mut choice = nothing_chosen();
    choice.system = true;
    choice.mkinitcpio = true;
    assert_eq!(
        installation_part2(&choice),
        vec![
            Stage::Populate(Domain::System),
            Stage::Add(Domain::System),
            Stage::Populate(Domain::Mkinitcpio),
            Stage::Add(Domain::Mkinitcpio),
        ]
    );
}

#[test]
fn the_environment_is_prepared_by_two_commands() {
    assert_eq!(
        preparation(),
        vec![
            Action::Execute { command: "pacman -Sy".to_string(), dir: "/".to_string() },
            Action::Execute { command: "timedatectl set-ntp true".to_string(), dir: "/".to_string() },
        ]
    );
    assert_eq!(
        important_packages(),
        vec!["grub", "efibootmgr", "dosfstools", "os-prober", "networkmanager", "lvm2"]
    );
}

#[test]
fn the_locale_files_are_checked_against_each_other() {
    let mut language = LanguageDiff::new();
    language.system.locale = Some("en_US.UTF-8".to_string());
    assert_eq!(
        language.check(&vec![]),
        Probe::Ask(Question { kind: Inquiry::ReadFile, subject: "/etc/locale.gen".to_string() })
    );
    assert_eq!(language.check(&vec![file("/etc/locale.gen", "en_US.UTF-8 UTF-8\n")]), Probe::Done(true));
    assert_eq!(language.check(&vec![file("/etc/locale.gen", "de_DE.UTF-8 UTF-8\n")]), Probe::Done(false));
    assert_eq!(
        language.check(&vec![Finding {
            question: Question { kind: Inquiry::ReadFile, subject: "/etc/locale.gen".to_string() },
            ok: false,
            text: String::new()
        }]),
        Probe::Failed(ProbeError { fault: Fault::Unreadable, subject: "/etc/locale.gen".to_string() })
    );
}

#[test]
fn the_table_of_hosts_is_checked_against_the_host_name() {
    let mut system = SystemDiff::new();
    assert_eq!(system.check(&vec![]), Probe::Done(false));
    system.config.hostname = Some("node2".to_string());
    let good = "127.0.0.1       localhost\n::1             localhost\n127.0.1.1       node2.localdomain node2\n";
    assert_eq!(system.check(&vec![file("/etc/hosts", good)]), Probe::Done(true));
    assert_eq!(system.check(&vec![file("/etc/hosts", "127.0.0.1 localhost\n")]), Probe::Done(false));
}

fn job(command: Commands) -> Job {
    dispatch(&Cli { command })
}

#[test]
fn building_is_a_full_run() {
    let full = Job::Run { stages: build_current(), install: false };
    assert_eq!(job(Commands::Build), full);
    let current = VersionCommands::Current { command: CurrentCommands::Build };
    assert_eq!(job(Commands::Version { command: current }), full);
}

#[test]
fn the_commands_on_the_history_are_told_apart() {
    let version = |command| job(Commands::Version { command });
    let current = |command| version(VersionCommands::Current { command });
    assert_eq!(version(VersionCommands::List), Job::List);
    assert_eq!(version(VersionCommands::Align), Job::Align);
    assert_eq!(
        version(VersionCommands::Diff { old: 2, new: 5 }),
        Job::Diff { old: 2, new: 5, to_current: false }
    );
    assert_eq!(
        current(CurrentCommands::Diff { other: 4 }),
        Job::Diff { old: 0, new: 4, to_current: true }
    );
    assert_eq!(current(CurrentCommands::Commit), Job::Commit);
    assert_eq!(current(CurrentCommands::ToLatest), Job::ToLatest);
    assert_eq!(current(CurrentCommands::Rollback(Rollback { index: 3 })), Job::Rollback { index: 3 });
    assert_eq!(
        version(VersionCommands::Delete { command: DeleteCommands::Last(LastDel { number: 2 }) }),
        Job::DeleteLast { number: 2 }
    );
    assert_eq!(
        version(VersionCommands::Delete {
            command: DeleteCommands::Version(VersionDel { index: 7 })
        }),
        Job::DeleteVersion { index: 7 }
    );
}

#[test]
fn an_installation_runs_its_stages() {
    let part1 = |command, setup, partitioning| {
        job(Commands::Installation {
            command: InstallationCommands::Part1 { command, setup, partitioning },
        })
    };
    assert_eq!(
        part1(InstallOrUpdate::Install, false, true),
        Job::Run { stages: vec![Stage::Partition], install: true }
    );
    assert_eq!(
        part1(InstallOrUpdate::Update, false, false),
        Job::Run { stages: installation_part1(false, false), install: false }
    );
    let part2 = job(Commands::Installation {
        command: InstallationCommands::Part2 {
            setup: true,
            system: false,
            shell: true,
            user: false,
            services: false,
            packages: false,
            grub: false,
            mkinitcpio: false,
        },
    });
    assert_eq!(
        part2,
        Job::Run {
            stages: vec![Stage::Populate(Domain::Shell), Stage::Add(Domain::Shell)],
            install: false
        }
    );
}

#[test]
fn a_change_of_root_does_one_thing() {
    assert_eq!(in_chroot(ChrootCommands::InstallImportant), vec![Stage::ImportantPackages]);
    assert_eq!(in_chroot(ChrootCommands::InstallGrub), vec![Stage::InstallGrub]);
}
