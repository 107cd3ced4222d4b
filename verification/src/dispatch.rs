//! The order of a run: which domains are reconciled, and when each delta is
//! applied.
//!
//! The domains do not know of each other. What has to come first, such as
//! the packages before the services that they bring, is laid down here and
//! nowhere else. Within a domain, what is not wanted is removed before what
//! is missing is added.

use vstd::prelude::*;
use vstd::string::*;
use crate::args::{
    ChrootCommands, Cli, Commands, CurrentCommands, DeleteCommands, InstallOrUpdate,
    InstallationCommands, VersionCommands,
};
use crate::function::{execute, run, Action};

verus! {

/// The resource domains.
#[derive(Debug, PartialEq, Eq, Clone, Copy, Structural)]
pub enum Domain {
    Keyboard,
    Time,
    Language,
    System,
    Shell,
    Users,
    Pacman,
    Packages,
    Services,
    Directories,
    Grub,
    Mkinitcpio,
    Ufw,
    Fail2Ban,
    Downloads,
    Monitor,
    Files,
}

/// A stage of a run.
#[derive(Debug, PartialEq, Eq, Clone, Copy, Structural)]
pub enum Stage {
    /// Refresh the package databases and synchronise the clock.
    Prepare,
    /// Load, observe and compute the delta of the domain.
    Populate(Domain),
    /// Remove what the delta of the domain says is not wanted.
    Remove(Domain),
    /// Add what the delta of the domain says is missing.
    Add(Domain),
    /// Lay out the disks.
    Partition,
    /// Install the packages without which the system does not boot.
    ImportantPackages,
    /// Install the boot loader.
    InstallGrub,
}

/// The domains in the order in which a full run reconciles them.
pub open spec fn all_domains() -> Seq<Domain> {
    seq![
        Domain::Keyboard,
        Domain::Time,
        Domain::Language,
        Domain::System,
        Domain::Shell,
        Domain::Users,
        Domain::Pacman,
        Domain::Packages,
        Domain::Services,
        Domain::Directories,
        Domain::Grub,
        Domain::Mkinitcpio,
        Domain::Ufw,
        Domain::Fail2Ban,
        Domain::Downloads,
        Domain::Monitor,
        Domain::Files,
    ]
}

/// For each of the domains, the stage that populates it.
pub open spec fn populate_all(domains: Seq<Domain>) -> Seq<Stage> {
    Seq::new(domains.len(), |i: int| Stage::Populate(domains[i]))
}

/// The stages that apply the deltas of a full run.
pub open spec fn apply_everything() -> Seq<Stage> {
    seq![
        Stage::Add(Domain::Keyboard),
        Stage::Add(Domain::Time),
        Stage::Add(Domain::Language),
        Stage::Add(Domain::System),
        Stage::Add(Domain::Shell),
        Stage::Remove(Domain::Users),
        Stage::Add(Domain::Users),
        Stage::Add(Domain::Pacman),
        Stage::Remove(Domain::Packages),
        Stage::Add(Domain::Packages),
        Stage::Remove(Domain::Services),
        Stage::Add(Domain::Services),
        Stage::Add(Domain::Grub),
        Stage::Add(Domain::Mkinitcpio),
        Stage::Remove(Domain::Ufw),
        Stage::Add(Domain::Ufw),
        Stage::Remove(Domain::Fail2Ban),
        Stage::Add(Domain::Fail2Ban),
        Stage::Add(Domain::Directories),
        Stage::Add(Domain::Downloads),
        Stage::Add(Domain::Files),
        Stage::Add(Domain::Monitor),
    ]
}

/// The stages of a full run: every domain is populated, then every delta is
/// applied.
pub open spec fn full_run() -> Seq<Stage> {
    populate_all(all_domains()) + apply_everything()
}

/// The stages that set up the live medium: the environment is prepared, and
/// keyboard, time and package manager are reconciled.
pub open spec fn live_setup() -> Seq<Stage> {
    seq![
        Stage::Prepare,
        Stage::Populate(Domain::Keyboard),
        Stage::Populate(Domain::Time),
        Stage::Populate(Domain::Pacman),
        Stage::Add(Domain::Keyboard),
        Stage::Add(Domain::Time),
        Stage::Add(Domain::Pacman),
    ]
}

/// The stages of the first part of an installation. Without a choice both
/// the setup and the disks are done, otherwise what was chosen.
pub open spec fn first_part(setup: bool, partitioning: bool) -> Seq<Stage> {
    (if setup || !partitioning {
        live_setup()
    } else {
        Seq::empty()
    }) + (if partitioning || !setup {
        seq![Stage::Partition]
    } else {
        Seq::empty()
    })
}

/// The stages that reconcile one domain on its own.
pub open spec fn alone(domain: Domain, removes: bool) -> Seq<Stage> {
    if removes {
        seq![Stage::Populate(domain), Stage::Remove(domain), Stage::Add(domain)]
    } else {
        seq![Stage::Populate(domain), Stage::Add(domain)]
    }
}

/// The stages of the whole second part of an installation.
pub open spec fn whole_second_part() -> Seq<Stage> {
    seq![
        Stage::Prepare,
        Stage::Populate(Domain::Keyboard),
        Stage::Populate(Domain::Time),
        Stage::Populate(Domain::Pacman),
        Stage::Populate(Domain::Language),
        Stage::Populate(Domain::System),
        Stage::Populate(Domain::Shell),
        Stage::Populate(Domain::Users),
        Stage::Populate(Domain::Services),
        Stage::Populate(Domain::Grub),
        Stage::Populate(Domain::Mkinitcpio),
        Stage::Add(Domain::Keyboard),
        Stage::Add(Domain::Time),
        Stage::Add(Domain::Language),
        Stage::Add(Domain::System),
        Stage::Add(Domain::Shell),
        Stage::Remove(Domain::Users),
        Stage::Add(Domain::Users),
        Stage::Add(Domain::Pacman),
        Stage::Remove(Domain::Services),
        Stage::Add(Domain::Services),
        Stage::Add(Domain::Grub),
        Stage::Add(Domain::Mkinitcpio),
    ]
}

/// What was chosen of the second part of an installation.
#[derive(Debug, PartialEq, Eq, Clone, Copy, Structural)]
pub struct Choice {
    pub system: bool,
    pub shell: bool,
    pub user: bool,
    pub services: bool,
    pub packages: bool,
    pub grub: bool,
    pub mkinitcpio: bool,
}

/// The stages of one chosen piece: none when it was not chosen.
pub open spec fn chosen(wanted: bool, stages: Seq<Stage>) -> Seq<Stage> {
    if wanted {
        stages
    } else {
        Seq::empty()
    }
}

/// The stages of the second part of an installation. Without a choice the
/// whole part is done, otherwise the chosen pieces in a fixed order.
pub open spec fn second_part(choice: Choice) -> Seq<Stage> {
    if !choice.system && !choice.shell && !choice.user && !choice.services && !choice.packages
        && !choice.grub && !choice.mkinitcpio {
        whole_second_part()
    } else {
        chosen(choice.system, alone(Domain::System, false)) + chosen(
            choice.shell,
            alone(Domain::Shell, false),
        ) + chosen(choice.user, alone(Domain::Users, true)) + chosen(
            choice.services,
            alone(Domain::Services, true),
        ) + chosen(choice.packages, seq![Stage::ImportantPackages]) + chosen(
            choice.grub,
            seq![Stage::InstallGrub] + alone(Domain::Grub, false),
        ) + chosen(choice.mkinitcpio, alone(Domain::Mkinitcpio, false))
    }
}

/// The stages of a full run.
pub fn build_current() -> (stages: Vec<Stage>)
    ensures
        stages@ == full_run(),
{
    let stages = vec![
        Stage::Populate(Domain::Keyboard),
        Stage::Populate(Domain::Time),
        Stage::Populate(Domain::Language),
        Stage::Populate(Domain::System),
        Stage::Populate(Domain::Shell),
        Stage::Populate(Domain::Users),
        Stage::Populate(Domain::Pacman),
        Stage::Populate(Domain::Packages),
        Stage::Populate(Domain::Services),
        Stage::Populate(Domain::Directories),
        Stage::Populate(Domain::Grub),
        Stage::Populate(Domain::Mkinitcpio),
        Stage::Populate(Domain::Ufw),
        Stage::Populate(Domain::Fail2Ban),
        Stage::Populate(Domain::Downloads),
        Stage::Populate(Domain::Monitor),
        Stage::Populate(Domain::Files),
        Stage::Add(Domain::Keyboard),
        Stage::Add(Domain::Time),
        Stage::Add(Domain::Language),
        Stage::Add(Domain::System),
        Stage::Add(Domain::Shell),
        Stage::Remove(Domain::Users),
        Stage::Add(Domain::Users),
        Stage::Add(Domain::Pacman),
        Stage::Remove(Domain::Packages),
        Stage::Add(Domain::Packages),
        Stage::Remove(Domain::Services),
        Stage::Add(Domain::Services),
        Stage::Add(Domain::Grub),
        Stage::Add(Domain::Mkinitcpio),
        Stage::Remove(Domain::Ufw),
        Stage::Add(Domain::Ufw),
        Stage::Remove(Domain::Fail2Ban),
        Stage::Add(Domain::Fail2Ban),
        Stage::Add(Domain::Directories),
        Stage::Add(Domain::Downloads),
        Stage::Add(Domain::Files),
        Stage::Add(Domain::Monitor),
    ];
    assert(stages@ =~= full_run());
    stages
}

/// Puts the stages of `more` behind `stages`.
fn extend(stages: &mut Vec<Stage>, more: Vec<Stage>)
    ensures
        final(stages)@ == old(stages)@ + more@,
{
    let mut more = more;
    stages.append(&mut more);
}

/// The stages of the first part of an installation.
pub fn installation_part1(setup: bool, partitioning: bool) -> (stages: Vec<Stage>)
    ensures
        stages@ == first_part(setup, partitioning),
{
    let mut stages: Vec<Stage> = Vec::new();
    if setup || !partitioning {
        extend(
            &mut stages,
            vec![
                Stage::Prepare,
                Stage::Populate(Domain::Keyboard),
                Stage::Populate(Domain::Time),
                Stage::Populate(Domain::Pacman),
                Stage::Add(Domain::Keyboard),
                Stage::Add(Domain::Time),
                Stage::Add(Domain::Pacman),
            ],
        );
    }
    if partitioning || !setup {
        stages.push(Stage::Partition);
    }
    assert(stages@ =~= first_part(setup, partitioning));
    stages
}

/// The stages that reconcile one domain on its own.
fn on_its_own(domain: Domain, removes: bool) -> (stages: Vec<Stage>)
    ensures
        stages@ == alone(domain, removes),
{
    let stages = if removes {
        vec![Stage::Populate(domain), Stage::Remove(domain), Stage::Add(domain)]
    } else {
        vec![Stage::Populate(domain), Stage::Add(domain)]
    };
    assert(stages@ =~= alone(domain, removes));
    stages
}

/// The stages of the second part of an installation.
pub fn installation_part2(choice: &Choice) -> (stages: Vec<Stage>)
    ensures
        stages@ == second_part(*choice),
{
    if !choice.system && !choice.shell && !choice.user && !choice.services && !choice.packages
        && !choice.grub && !choice.mkinitcpio {
        let stages = vec![
            Stage::Prepare,
            Stage::Populate(Domain::Keyboard),
            Stage::Populate(Domain::Time),
            Stage::Populate(Domain::Pacman),
            Stage::Populate(Domain::Language),
            Stage::Populate(Domain::System),
            Stage::Populate(Domain::Shell),
            Stage::Populate(Domain::Users),
            Stage::Populate(Domain::Services),
            Stage::Populate(Domain::Grub),
            Stage::Populate(Domain::Mkinitcpio),
            Stage::Add(Domain::Keyboard),
            Stage::Add(Domain::Time),
            Stage::Add(Domain::Language),
            Stage::Add(Domain::System),
            Stage::Add(Domain::Shell),
            Stage::Remove(Domain::Users),
            Stage::Add(Domain::Users),
            Stage::Add(Domain::Pacman),
            Stage::Remove(Domain::Services),
            Stage::Add(Domain::Services),
            Stage::Add(Domain::Grub),
            Stage::Add(Domain::Mkinitcpio),
        ];
        assert(stages@ =~= whole_second_part());
        return stages;
    }
    let mut stages = pick(choice.system, on_its_own(Domain::System, false));
    pick_more(&mut stages, choice.shell, on_its_own(Domain::Shell, false));
    pick_more(&mut stages, choice.user, on_its_own(Domain::Users, true));
    pick_more(&mut stages, choice.services, on_its_own(Domain::Services, true));
    let packages = vec![Stage::ImportantPackages];
    assert(packages@ =~= seq![Stage::ImportantPackages]);
    pick_more(&mut stages, choice.packages, packages);
    let grub = vec![Stage::InstallGrub, Stage::Populate(Domain::Grub), Stage::Add(Domain::Grub)];
    assert(grub@ =~= seq![Stage::InstallGrub] + alone(Domain::Grub, false));
    pick_more(&mut stages, choice.grub, grub);
    pick_more(&mut stages, choice.mkinitcpio, on_its_own(Domain::Mkinitcpio, false));
    stages
}

/// The stages of one piece, where it was chosen.
fn pick(wanted: bool, stages: Vec<Stage>) -> (r: Vec<Stage>)
    ensures
        r@ == chosen(wanted, stages@),
{
    if wanted {
        stages
    } else {
        Vec::new()
    }
}

/// Puts the stages of one piece behind `stages`, where it was chosen.
fn pick_more(stages: &mut Vec<Stage>, wanted: bool, more: Vec<Stage>)
    ensures
        final(stages)@ == old(stages)@ + chosen(wanted, more@),
{
    if wanted {
        extend(stages, more);
    } else {
        assert(stages@ =~= old(stages)@ + Seq::<Stage>::empty());
    }
}

/// What a command comes to.
#[derive(Debug, PartialEq, Eq, Clone)]
pub enum Job {
    /// Carry out the stages; `install` tells whether the disks are made anew
    /// where they are laid out.
    Run { stages: Vec<Stage>, install: bool },
    /// List the versions.
    List,
    /// Tell how the version `old`, or the configuration in use where
    /// `to_current` is set, differs from the version `new`.
    Diff { old: usize, new: usize, to_current: bool },
    /// Archive the configuration in use as the new current version.
    Commit,
    /// Make the latest version the current one.
    ToLatest,
    /// Make the version with the index the current one.
    Rollback { index: usize },
    /// Number the versions anew.
    Align,
    /// Delete the last versions of the list.
    DeleteLast { number: usize },
    /// Delete the version with the index.
    DeleteVersion { index: usize },
}

/// The model of a [`Job`].
pub enum JobView {
    Run { stages: Seq<Stage>, install: bool },
    List,
    Diff { old: usize, new: usize, to_current: bool },
    Commit,
    ToLatest,
    Rollback { index: usize },
    Align,
    DeleteLast { number: usize },
    DeleteVersion { index: usize },
}

impl View for Job {
    type V = JobView;

    open spec fn view(&self) -> JobView {
        match self {
            Job::Run { stages, install } => JobView::Run { stages: stages@, install: *install },
            Job::List => JobView::List,
            Job::Diff { old, new, to_current } => JobView::Diff {
                old: *old,
                new: *new,
                to_current: *to_current,
            },
            Job::Commit => JobView::Commit,
            Job::ToLatest => JobView::ToLatest,
            Job::Rollback { index } => JobView::Rollback { index: *index },
            Job::Align => JobView::Align,
            Job::DeleteLast { number } => JobView::DeleteLast { number: *number },
            Job::DeleteVersion { index } => JobView::DeleteVersion { index: *index },
        }
    }
}

/// What a command on the history comes to. Building the current version is
/// a full run; the configuration in use is compared as the version before
/// all others.
pub open spec fn version_job(command: VersionCommands) -> JobView {
    match command {
        VersionCommands::List => JobView::List,
        VersionCommands::Diff { old, new } => JobView::Diff { old, new, to_current: false },
        VersionCommands::Current { command } => match command {
            CurrentCommands::Build => JobView::Run { stages: full_run(), install: false },
            CurrentCommands::Commit => JobView::Commit,
            CurrentCommands::Rollback(target) => JobView::Rollback { index: target.index },
            CurrentCommands::ToLatest => JobView::ToLatest,
            CurrentCommands::Diff { other } => JobView::Diff {
                old: 0,
                new: other,
                to_current: true,
            },
        },
        VersionCommands::Align => JobView::Align,
        VersionCommands::Delete { command } => match command {
            DeleteCommands::Last(last) => JobView::DeleteLast { number: last.number },
            DeleteCommands::Version(version) => JobView::DeleteVersion { index: version.index },
        },
    }
}

/// What a command of the installation comes to.
pub open spec fn installation_job(command: InstallationCommands) -> JobView {
    match command {
        InstallationCommands::Part1 { command, setup, partitioning } => JobView::Run {
            stages: first_part(setup, partitioning),
            install: command == InstallOrUpdate::Install,
        },
        InstallationCommands::Part2 {
            setup,
            system,
            shell,
            user,
            services,
            packages,
            grub,
            mkinitcpio,
        } => JobView::Run {
            stages: second_part(
                Choice { system, shell, user, services, packages, grub, mkinitcpio },
            ),
            install: false,
        },
    }
}

/// What a command comes to.
pub open spec fn job_of(command: Commands) -> JobView {
    match command {
        Commands::Version { command } => version_job(command),
        Commands::Build => JobView::Run { stages: full_run(), install: false },
        Commands::Installation { command } => installation_job(command),
    }
}

/// The stages of a command in a change of root.
pub open spec fn chroot_stages(command: ChrootCommands) -> Seq<Stage> {
    match command {
        ChrootCommands::InstallImportant => seq![Stage::ImportantPackages],
        ChrootCommands::InstallGrub => seq![Stage::InstallGrub],
    }
}

/// Decides what a command comes to.
pub fn dispatch(cli: &Cli) -> (job: Job)
    ensures
        job@ == job_of(cli.command),
{
    match cli.command {
        Commands::Version { command } => match command {
            VersionCommands::List => Job::List,
            VersionCommands::Diff { old, new } => Job::Diff { old, new, to_current: false },
            VersionCommands::Current { command } => match command {
                CurrentCommands::Build => Job::Run { stages: build_current(), install: false },
                CurrentCommands::Commit => Job::Commit,
                CurrentCommands::Rollback(target) => Job::Rollback { index: target.index },
                CurrentCommands::ToLatest => Job::ToLatest,
                CurrentCommands::Diff { other } => Job::Diff {
                    old: 0,
                    new: other,
                    to_current: true,
                },
            },
            VersionCommands::Align => Job::Align,
            VersionCommands::Delete { command } => match command {
                DeleteCommands::Last(last) => Job::DeleteLast { number: last.number },
                DeleteCommands::Version(version) => Job::DeleteVersion { index: version.index },
            },
        },
        Commands::Build => Job::Run { stages: build_current(), install: false },
        Commands::Installation { command } => match command {
            InstallationCommands::Part1 { command, setup, partitioning } => Job::Run {
                stages: installation_part1(setup, partitioning),
                install: command == InstallOrUpdate::Install,
            },
            InstallationCommands::Part2 {
                setup,
                system,
                shell,
                user,
                services,
                packages,
                grub,
                mkinitcpio,
            } => {
                let choice = Choice { system, shell, user, services, packages, grub, mkinitcpio };
                Job::Run { stages: installation_part2(&choice), install: false }
            },
        },
    }
}

/// Decides on the stages of a command in a change of root.
pub fn in_chroot(command: ChrootCommands) -> (stages: Vec<Stage>)
    ensures
        stages@ == chroot_stages(command),
{
    let stages = match command {
        ChrootCommands::InstallImportant => vec![Stage::ImportantPackages],
        ChrootCommands::InstallGrub => vec![Stage::InstallGrub],
    };
    assert(stages@ =~= chroot_stages(command));
    stages
}

/// The steps that prepare the environment. Each has to succeed before the
/// next is taken.
pub fn preparation() -> (steps: Vec<Action>)
    ensures
        steps.deep_view() == seq![run("pacman -Sy"@), run("timedatectl set-ntp true"@)],
{
    let mut steps: Vec<Action> = Vec::new();
    steps.push(execute(String::from_str("pacman -Sy")));
    steps.push(execute(String::from_str("timedatectl set-ntp true")));
    assert(steps.deep_view() =~= seq![run("pacman -Sy"@), run("timedatectl set-ntp true"@)]);
    steps
}

/// The packages without which a system does not boot.
pub fn important_packages() -> (packages: Vec<String>)
    ensures
        packages.deep_view() == seq![
            "grub"@,
            "efibootmgr"@,
            "dosfstools"@,
            "os-prober"@,
            "networkmanager"@,
            "lvm2"@,
        ],
{
    let mut packages: Vec<String> = Vec::new();
    packages.push(String::from_str("grub"));
    packages.push(String::from_str("efibootmgr"));
    packages.push(String::from_str("dosfstools"));
    packages.push(String::from_str("os-prober"));
    packages.push(String::from_str("networkmanager"));
    packages.push(String::from_str("lvm2"));
    assert(packages.deep_view() =~= seq![
        "grub"@,
        "efibootmgr"@,
        "dosfstools"@,
        "os-prober"@,
        "networkmanager"@,
        "lvm2"@,
    ]);
    packages
}

} // verus!
