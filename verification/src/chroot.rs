//! What is done inside a freshly installed system before its first boot.

use vstd::prelude::*;
use vstd::string::*;
use crate::function::{combine, execute, execute_with_all, run, run_with_all, Action, ActionView};
use crate::structure::{DiskView, Partition, PartitionView, Partitioning, PartitioningView};
use crate::text::equal;

verus! {

/// The actions that install the packages without which the system does not
/// boot: one command of the package manager for all of them.
pub fn install_important_packages(important_packages: Vec<String>) -> (actions: Vec<Action>)
    ensures
        actions.deep_view() == run_with_all(
            "pacman --noconfirm -S "@,
            Some(important_packages.deep_view()),
        ),
{
    let mut actions: Vec<Action> = Vec::new();
    assert(actions.deep_view() =~= Seq::empty());
    let packages = Some(important_packages);
    execute_with_all(&mut actions, "pacman --noconfirm -S ", &packages);
    assert(actions.deep_view() =~= run_with_all(
        "pacman --noconfirm -S "@,
        packages.deep_view(),
    ));
    actions
}

/// Why the boot loader cannot be installed.
#[derive(Debug, PartialEq, Eq, Clone, Copy, Structural)]
pub enum InstallError {
    /// The configuration names no disks.
    NoDisks,
    /// A partition for the boot loader has no mount point.
    NoMountPoint,
    /// No partition is there for the boot loader.
    NoEfiPartition,
}

impl InstallError {
    /// The text of the message.
    pub open spec fn message_text(&self) -> Seq<char> {
        match self {
            InstallError::NoDisks => "Error (panic): No partitions found in config"@,
            InstallError::NoMountPoint => "Error (panic): The fat32 partition does not have a mount point!"@,
            InstallError::NoEfiPartition => "Error (panic): No efi partition found"@,
        }
    }

    /// The message that tells the user what is wrong.
    pub fn message(&self) -> (text: String)
        ensures
            text@ == self.message_text(),
    {
        match self {
            InstallError::NoDisks => String::from_str(
                "Error (panic): No partitions found in config",
            ),
            InstallError::NoMountPoint => String::from_str(
                "Error (panic): The fat32 partition does not have a mount point!",
            ),
            InstallError::NoEfiPartition => String::from_str(
                "Error (panic): No efi partition found",
            ),
        }
    }
}

/// Where the boot loader goes, going by `partitions` after `before` was
/// found on the partitions ahead of them: the mount point of the last
/// partition of type `fat32`. Such a partition without a mount point is an
/// error.
pub open spec fn boot_directory_after(
    before: Result<Option<Seq<char>>, InstallError>,
    partitions: Seq<PartitionView>,
) -> Result<Option<Seq<char>>, InstallError>
    decreases partitions.len(),
{
    if partitions.len() == 0 {
        before
    } else {
        match boot_directory_after(before, partitions.drop_last()) {
            Ok(found) => {
                let partition = partitions.last();
                if partition.partition_type == "fat32"@ {
                    match partition.mount_point {
                        Some(mount_point) => Ok(Some(mount_point)),
                        None => Err(InstallError::NoMountPoint),
                    }
                } else {
                    Ok(found)
                }
            },
            Err(error) => Err(error),
        }
    }
}

/// Where the boot loader goes on the given disks.
pub open spec fn boot_directory(disks: Seq<DiskView>) -> Result<Option<Seq<char>>, InstallError>
    decreases disks.len(),
{
    if disks.len() == 0 {
        Ok(None)
    } else {
        boot_directory_after(boot_directory(disks.drop_last()), disks.last().partitions)
    }
}

/// The command that installs the boot loader into `directory`.
pub open spec fn grub_install(directory: Seq<char>) -> Seq<char> {
    "grub-install --target=x86_64-efi --efi-directory="@ + directory + " --bootloader-id=GRUB"@
}

/// The action that installs the boot loader, or why there is none.
pub open spec fn grub_installation(partitioning: PartitioningView) -> Result<
    ActionView,
    InstallError,
> {
    match partitioning.disks {
        None => Err(InstallError::NoDisks),
        Some(disks) => match boot_directory(disks) {
            Ok(Some(directory)) => Ok(run(grub_install(directory))),
            Ok(None) => Err(InstallError::NoEfiPartition),
            Err(error) => Err(error),
        },
    }
}

/// Looks for the boot partition among `partitions`.
fn scan_partitions(before: Option<String>, partitions: &Vec<Partition>) -> (r: Result<
    Option<String>,
    InstallError,
>)
    ensures
        match boot_directory_after(Ok(before.deep_view()), partitions.deep_view()) {
            Ok(found) => r is Ok && r->Ok_0.deep_view() == found,
            Err(error) => r == Err::<Option<String>, InstallError>(error),
        },
{
    let mut found = before;
    let mut i: usize = 0;
    assert(partitions.deep_view().take(0) =~= Seq::empty());
    while i < partitions.len()
        invariant
            i <= partitions.len(),
            boot_directory_after(Ok(before.deep_view()), partitions.deep_view().take(i as int))
                == Ok::<Option<Seq<char>>, InstallError>(found.deep_view()),
        decreases partitions.len() - i,
    {
        let ghost next = partitions.deep_view().take(i + 1);
        proof {
            assert(next.drop_last() =~= partitions.deep_view().take(i as int));
            assert(next.last() == partitions@[i as int]@);
        }
        if equal(partitions[i].partition_type.as_str(), "fat32") {
            match &partitions[i].mount_point {
                Some(mount_point) => {
                    found = Some(mount_point.clone());
                },
                None => {
                    proof {
                        boot_error_stays(
                            Ok(before.deep_view()),
                            partitions.deep_view(),
                            i + 1,
                        );
                    }
                    return Err(InstallError::NoMountPoint);
                },
            }
        }
        i += 1;
    }
    assert(partitions.deep_view().take(partitions.len() as int) =~= partitions.deep_view());
    Ok(found)
}

/// An error met on a partition is the result, whatever partitions follow.
proof fn boot_error_stays(
    before: Result<Option<Seq<char>>, InstallError>,
    partitions: Seq<PartitionView>,
    n: int,
)
    requires
        0 <= n <= partitions.len(),
        boot_directory_after(before, partitions.take(n)) is Err,
    ensures
        boot_directory_after(before, partitions) == boot_directory_after(
            before,
            partitions.take(n),
        ),
    decreases partitions.len(),
{
    if n == partitions.len() {
        assert(partitions.take(n) =~= partitions);
    } else {
        assert(partitions.drop_last().take(n) =~= partitions.take(n));
        boot_error_stays(before, partitions.drop_last(), n);
    }
}

/// An error met on a disk is the result, whatever disks follow.
proof fn disk_error_stays(disks: Seq<DiskView>, n: int)
    requires
        0 <= n <= disks.len(),
        boot_directory(disks.take(n)) is Err,
    ensures
        boot_directory(disks) == boot_directory(disks.take(n)),
    decreases disks.len(),
{
    if n == disks.len() {
        assert(disks.take(n) =~= disks);
    } else {
        assert(disks.drop_last().take(n) =~= disks.take(n));
        disk_error_stays(disks.drop_last(), n);
        error_passes(boot_directory(disks.drop_last()), disks.last().partitions);
    }
}

/// An error found ahead of some partitions passes through them.
proof fn error_passes(
    before: Result<Option<Seq<char>>, InstallError>,
    partitions: Seq<PartitionView>,
)
    requires
        before is Err,
    ensures
        boot_directory_after(before, partitions) == before,
    decreases partitions.len(),
{
    if partitions.len() > 0 {
        error_passes(before, partitions.drop_last());
    }
}

/// Plans the installation of the boot loader: it goes to the mount point
/// of the last partition of type `fat32`.
pub fn install_grub(partitioning: &Partitioning) -> (r: Result<Action, InstallError>)
    ensures
        match grub_installation(partitioning@) {
            Ok(action) => r is Ok && r->Ok_0@ == action,
            Err(error) => r == Err::<Action, InstallError>(error),
        },
{
    let disks = match &partitioning.disks {
        Some(disks) => disks,
        None => {
            return Err(InstallError::NoDisks);
        },
    };
    let mut found: Option<String> = None;
    let mut i: usize = 0;
    assert(disks.deep_view().take(0) =~= Seq::empty());
    while i < disks.len()
        invariant
            i <= disks.len(),
            partitioning@.disks == Some(disks.deep_view()),
            boot_directory(disks.deep_view().take(i as int)) == Ok::<
                Option<Seq<char>>,
                InstallError,
            >(found.deep_view()),
        decreases disks.len() - i,
    {
        let ghost next = disks.deep_view().take(i + 1);
        proof {
            assert(next.drop_last() =~= disks.deep_view().take(i as int));
            assert(next.last() == disks@[i as int]@);
        }
        match scan_partitions(found, &disks[i].partitions) {
            Ok(now) => {
                found = now;
            },
            Err(error) => {
                proof {
                    disk_error_stays(disks.deep_view(), i + 1);
                }
                return Err(error);
            },
        }
        i += 1;
    }
    assert(disks.deep_view().take(disks.len() as int) =~= disks.deep_view());
    match found {
        Some(directory) => {
            let mut command = combine(
                "grub-install --target=x86_64-efi --efi-directory=",
                directory.as_str(),
            );
            command.append(" --bootloader-id=GRUB");
            Ok(execute(command))
        },
        None => Err(InstallError::NoEfiPartition),
    }
}

} // verus!
