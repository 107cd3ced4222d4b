//! The commands that a run can be asked for.

use vstd::prelude::*;

verus! {

/// What was asked for.
#[derive(Debug, PartialEq, Eq, Clone, Copy, Structural)]
pub struct Cli {
    pub command: Commands,
}

/// The commands.
#[derive(Debug, PartialEq, Eq, Clone, Copy, Structural)]
pub enum Commands {
    /// A command on the history of configurations.
    Version { command: VersionCommands },
    /// Reconcile the machine with the configuration in use.
    Build,
    /// A command of the installation from the live medium.
    Installation { command: InstallationCommands },
}

/// The two parts of an installation.
#[derive(Debug, PartialEq, Eq, Clone, Copy, Structural)]
pub enum InstallationCommands {
    /// What is done on the live medium: the setup and the disks.
    Part1 { command: InstallOrUpdate, setup: bool, partitioning: bool },
    /// What is done inside the new system. Without a choice, all of it.
    Part2 {
        setup: bool,
        system: bool,
        shell: bool,
        user: bool,
        services: bool,
        packages: bool,
        grub: bool,
        mkinitcpio: bool,
    },
}

/// Whether the disks are made anew.
#[derive(Debug, PartialEq, Eq, Clone, Copy, Structural)]
pub enum InstallOrUpdate {
    /// Wipe the whole system and partition anew.
    Install,
    /// Leave the partitions that matter and wipe everything else.
    Update,
}

/// What is done in a change of root.
#[derive(Debug, PartialEq, Eq, Clone, Copy, Structural)]
pub enum ChrootCommands {
    /// Install the packages without which the system does not boot.
    InstallImportant,
    /// Install the boot loader.
    InstallGrub,
}

/// The commands on the history.
#[derive(Debug, PartialEq, Eq, Clone, Copy, Structural)]
pub enum VersionCommands {
    /// List all versions.
    List,
    /// Tell how one version differs from another.
    Diff { old: usize, new: usize },
    /// A command on the current version.
    Current { command: CurrentCommands },
    /// Number the versions anew, so that no index is left out.
    Align,
    /// Delete versions.
    Delete { command: DeleteCommands },
}

/// The commands on the current version.
#[derive(Debug, PartialEq, Eq, Clone, Copy, Structural)]
pub enum CurrentCommands {
    /// Reconcile the machine with the configuration in use.
    Build,
    /// Archive the configuration in use as the new current version.
    Commit,
    /// Make an older version the current one.
    Rollback(Rollback),
    /// Make the latest version the current one.
    ToLatest,
    /// Tell how the configuration in use differs from a version.
    Diff { other: usize },
}

/// The version to jump to.
#[derive(Debug, PartialEq, Eq, Clone, Copy, Structural)]
pub struct SetCurrent {
    pub to: usize,
}

/// The version to roll back to.
#[derive(Debug, PartialEq, Eq, Clone, Copy, Structural)]
pub struct Rollback {
    pub index: usize,
}

/// What to delete.
#[derive(Debug, PartialEq, Eq, Clone, Copy, Structural)]
pub enum DeleteCommands {
    /// The last versions of the list.
    Last(LastDel),
    /// The version with an index.
    Version(VersionDel),
}

/// How many versions to delete.
#[derive(Debug, PartialEq, Eq, Clone, Copy, Structural)]
pub struct LastDel {
    pub number: usize,
}

/// The version to delete.
#[derive(Debug, PartialEq, Eq, Clone, Copy, Structural)]
pub struct VersionDel {
    pub index: usize,
}

} // verus!
