//! Laying out the disks of a machine: partitions, encryption, volume groups,
//! logical volumes, file systems and mounts.
//!
//! The layout is planned as a list of steps, each of which has to succeed
//! before the next is taken. Every command is written out by `echo`, so
//! that a run shows what would be done to the disks.

use vstd::prelude::*;
use vstd::string::*;
use crate::function::{chain, combine, execute, followed_by, run, Action, ActionView};
use crate::probe::{
    check, flag, require_text, required_text, Fault, Finding, FindingView, Inquiry, Probe,
    ProbeView,
};
use crate::structure::{
    Disk, DiskView, LogicalVolume, LogicalVolumeView, Partition, PartitionView, Partitioning,
    PartitioningView, VolumeGroup, VolumeGroupView,
};
use crate::text::{contains, equal, includes};

verus! {

/// Why no layout can be planned.
#[derive(Debug, PartialEq, Eq, Clone, Copy, Structural)]
pub enum PartitioningError {
    /// The configuration does not say whether the machine is shared, or
    /// names no disks or no volume groups.
    Incomplete,
    /// A file system is asked for that cannot be made.
    UnknownFileSystem,
}

impl PartitioningError {
    /// The text of the message.
    pub open spec fn message_text(&self) -> Seq<char> {
        match self {
            PartitioningError::Incomplete => "Error (panic): Partitioning is not read correctly or the config has errors!"@,
            PartitioningError::UnknownFileSystem => "Error (panic): Failed to create filesystem due to bad file system type"@,
        }
    }

    /// The message that tells the user what is wrong.
    pub fn message(&self) -> (text: String)
        ensures
            text@ == self.message_text(),
    {
        match self {
            PartitioningError::Incomplete => String::from_str(
                "Error (panic): Partitioning is not read correctly or the config has errors!",
            ),
            PartitioningError::UnknownFileSystem => String::from_str(
                "Error (panic): Failed to create filesystem due to bad file system type",
            ),
        }
    }
}

/// A plan of steps, or why there is none.
pub type Steps = Result<Probe<Vec<Action>>, PartitioningError>;

/// The model of [`Steps`].
pub type StepsView = Result<ProbeView<Seq<ActionView>>, PartitioningError>;

/// The model of the steps `steps`.
pub open spec fn steps_view(steps: Steps) -> StepsView {
    match steps {
        Ok(plan) => Ok(plan.deep_view()),
        Err(error) => Err(error),
    }
}

/// One part of a plan after another: the steps of both, or what stops the
/// first of them that is not complete.
pub open spec fn and_then(first: StepsView, second: StepsView) -> StepsView {
    match first {
        Ok(ProbeView::Done(before)) => match second {
            Ok(plan) => Ok(followed_by(ProbeView::Done(before), plan)),
            Err(error) => Err(error),
        },
        _ => first,
    }
}

/// Puts one part of a plan behind another.
pub fn link(first: Steps, second: Steps) -> (r: Steps)
    ensures
        steps_view(r) == and_then(steps_view(first), steps_view(second)),
{
    match first {
        Ok(Probe::Done(before)) => match second {
            Ok(plan) => Ok(chain(Probe::Done(before), plan)),
            Err(error) => Err(error),
        },
        Ok(Probe::Ask(question)) => Ok(Probe::Ask(question)),
        Ok(Probe::Failed(error)) => Ok(Probe::Failed(error)),
        Err(error) => Err(error),
    }
}

/// The steps that are certain.
pub open spec fn sure(actions: Seq<ActionView>) -> StepsView {
    Ok(ProbeView::Done(actions))
}

/// The step that shows `command`.
pub open spec fn echo(command: Seq<char>) -> ActionView {
    run("echo "@ + command)
}

/// The step that shows `command`.
pub fn show(command: String) -> (action: Action)
    ensures
        action@ == echo(command@),
{
    execute(combine("echo ", command.as_str()))
}

/// The device of the disk or partition called `name`.
pub open spec fn device(name: Seq<char>) -> Seq<char> {
    "/dev/"@ + name
}

/// The device of a logical volume of a volume group, or of an opened
/// encrypted partition.
pub open spec fn mapped(name: Seq<char>) -> Seq<char> {
    "/dev/mapper/"@ + name
}

/// The device of the logical volume `volume` of the group `group`.
pub open spec fn volume_device(group: Seq<char>, volume: Seq<char>) -> Seq<char> {
    mapped(group + "-"@ + volume)
}

/// Writes the device of the logical volume `volume` of the group `group`.
pub fn volume_path(group: &str, volume: &str) -> (path: String)
    ensures
        path@ == volume_device(group@, volume@),
{
    let mut path = combine("/dev/mapper/", group);
    path.append("-");
    path.append(volume);
    assert(path@ =~= volume_device(group@, volume@));
    path
}

/// Whether volume groups are there: the tool that lists them succeeds.
pub open spec fn lvm_in_use(findings: Seq<FindingView>) -> ProbeView<bool> {
    flag(findings, Inquiry::Succeeds, "vgs"@)
}

/// Decides from the findings whether volume groups are there.
pub fn check_for_lvm(findings: &Vec<Finding>) -> (r: Probe<bool>)
    ensures
        r.deep_view() == lvm_in_use(findings.deep_view()),
{
    check(findings, Inquiry::Succeeds, "vgs")
}

/// The step that takes the volume groups out of use.
pub fn remove_lvm_structure() -> (action: Action)
    ensures
        action@ == echo("vgchange -a n"@),
{
    show(String::from_str("vgchange -a n"))
}

/// The step that gives the disk at `path_to_disk` an empty partition table.
pub fn set_label(path_to_disk: &str) -> (action: Action)
    ensures
        action@ == echo("parted -s "@ + path_to_disk@ + " mklabel gpt"@),
{
    let mut command = combine("parted -s ", path_to_disk);
    command.append(" mklabel gpt");
    show(command)
}

/// The command that makes a partition.
pub open spec fn partition_command(
    path_to_disk: Seq<char>,
    partition_type: Seq<char>,
    start: Seq<char>,
    end: Seq<char>,
) -> Seq<char> {
    "parted -s "@ + path_to_disk + " mkpart primary "@ + partition_type + " "@ + start + " "@ + end
}

/// The step that makes a partition of the disk at `path_to_disk`.
pub fn create_partition(path_to_disk: &str, partition_type: &str, start: &str, end: &str) -> (
    action: Action)
    ensures
        action@ == echo(partition_command(path_to_disk@, partition_type@, start@, end@)),
{
    let mut command = combine("parted -s ", path_to_disk);
    command.append(" mkpart primary ");
    command.append(partition_type);
    command.append(" ");
    command.append(start);
    command.append(" ");
    command.append(end);
    show(command)
}

/// A command made of a tool and two arguments.
pub open spec fn with_two(tool: Seq<char>, first: Seq<char>, second: Seq<char>) -> Seq<char> {
    tool + first + " "@ + second
}

/// The step that shows a command made of a tool and two arguments.
pub fn show_with_two(tool: &str, first: &str, second: &str) -> (action: Action)
    ensures
        action@ == echo(with_two(tool@, first@, second@)),
{
    let mut command = combine(tool, first);
    command.append(" ");
    command.append(second);
    show(command)
}

/// The step that encrypts the partition at `path_to_par`.
pub fn encrypt_partition(path_to_par: &str, crypt_name: &str) -> (action: Action)
    ensures
        action@ == echo(with_two("cryptsetup luksFormat "@, path_to_par@, crypt_name@)),
{
    show_with_two("cryptsetup luksFormat ", path_to_par, crypt_name)
}

/// The step that opens the encrypted partition at `path_to_par` under the
/// name `crypt_name`.
pub fn open_encrypted_partition(path_to_par: &str, crypt_name: &str) -> (action: Action)
    ensures
        action@ == echo(with_two("cryptsetup open "@, path_to_par@, crypt_name@)),
{
    show_with_two("cryptsetup open ", path_to_par, crypt_name)
}

/// The command that makes a file system of the given kind, where the kind
/// is known.
pub open spec fn filesystem_command(path_to_par: Seq<char>, file_system: Seq<char>) -> Option<
    Seq<char>,
> {
    if file_system == "fat-32"@ {
        Some("mkfs.fat -F32 "@ + path_to_par)
    } else if file_system == "swap"@ {
        Some("mkswap "@ + path_to_par)
    } else if file_system == "ext4"@ {
        Some("mkfs.ext4 -F "@ + path_to_par)
    } else if file_system == "exfat"@ {
        Some("mkfs.exfat "@ + path_to_par)
    } else {
        None
    }
}

/// The step that makes a file system on the device at `path_to_par`.
pub fn create_filesystem(path_to_par: &str, file_system: &str) -> (r: Result<
    Action,
    PartitioningError,
>)
    ensures
        match filesystem_command(path_to_par@, file_system@) {
            Some(command) => r is Ok && r->Ok_0@ == echo(command),
            None => r == Err::<Action, PartitioningError>(PartitioningError::UnknownFileSystem),
        },
{
    if equal(file_system, "fat-32") {
        Ok(show(combine("mkfs.fat -F32 ", path_to_par)))
    } else if equal(file_system, "swap") {
        Ok(show(combine("mkswap ", path_to_par)))
    } else if equal(file_system, "ext4") {
        Ok(show(combine("mkfs.ext4 -F ", path_to_par)))
    } else if equal(file_system, "exfat") {
        Ok(show(combine("mkfs.exfat ", path_to_par)))
    } else {
        Err(PartitioningError::UnknownFileSystem)
    }
}

/// The step that mounts the device at `path_to_par`.
pub fn mount_partition(path_to_par: &str, mount_point: &str) -> (action: Action)
    ensures
        action@ == echo(with_two("mount "@, path_to_par@, mount_point@)),
{
    show_with_two("mount ", path_to_par, mount_point)
}

/// The step that takes the device at `path_to_par` into use as swap space.
pub fn mount_swap_partition(path_to_par: &str) -> (action: Action)
    ensures
        action@ == echo("swapon "@ + path_to_par@),
{
    show(combine("swapon ", path_to_par))
}

/// The steps that make a physical volume of a device and wipe what it
/// held.
pub open spec fn physical_volume(path_to_par: Seq<char>) -> Seq<ActionView> {
    seq![echo("pvcreate "@ + path_to_par), echo("wipefs -a -f "@ + path_to_par)]
}

/// The steps that make a physical volume of the device at `path_to_par`.
pub fn create_physical_volume_and_wipefs(path_to_par: &str) -> (actions: Vec<Action>)
    ensures
        actions.deep_view() == physical_volume(path_to_par@),
{
    let mut actions: Vec<Action> = Vec::new();
    actions.push(show(combine("pvcreate ", path_to_par)));
    actions.push(show(combine("wipefs -a -f ", path_to_par)));
    assert(actions.deep_view() =~= physical_volume(path_to_par@));
    actions
}

/// Whether the volume group is there: the display of the volume groups
/// holds its name.
pub open spec fn volume_group_exists(findings: Seq<FindingView>, volume_group: Seq<char>)
    -> ProbeView<bool> {
    match required_text(findings, Inquiry::Output, "vgdisplay"@, Fault::NotRun) {
        ProbeView::Done(display) => ProbeView::Done(contains(display, volume_group)),
        ProbeView::Ask(question) => ProbeView::Ask(question),
        ProbeView::Failed(error) => ProbeView::Failed(error),
    }
}

/// Decides from the findings whether the volume group is there.
pub fn check_for_existing_volume_group(findings: &Vec<Finding>, volume_group: &str) -> (r: Probe<
    bool,
>)
    ensures
        r.deep_view() == volume_group_exists(findings.deep_view(), volume_group@),
{
    match require_text(findings, Inquiry::Output, "vgdisplay", Fault::NotRun) {
        Probe::Done(display) => Probe::Done(includes(display.as_str(), volume_group)),
        Probe::Ask(question) => Probe::Ask(question),
        Probe::Failed(error) => Probe::Failed(error),
    }
}

/// The step that makes a volume group of the device at `path_to_par`.
pub fn create_new_volume_group(path_to_par: &str, volume_group: &str) -> (action: Action)
    ensures
        action@ == echo(with_two("vgcreate "@, volume_group@, path_to_par@)),
{
    show_with_two("vgcreate ", volume_group, path_to_par)
}

/// The step that adds the device at `path_to_par` to a volume group.
pub fn extend_existing_volume_group(path_to_par: &str, volume_group: &str) -> (action: Action)
    ensures
        action@ == echo(with_two("vgextend "@, volume_group@, path_to_par@)),
{
    show_with_two("vgextend ", volume_group, path_to_par)
}

/// The command that makes a logical volume. A size that speaks of what is
/// free is given in extents, any other in bytes.
pub open spec fn logical_volume_command(
    volume_group: Seq<char>,
    volume_size: Seq<char>,
    volume_name: Seq<char>,
) -> Seq<char> {
    (if contains(volume_size, "FREE"@) {
        "lvcreate --yes -l "@
    } else {
        "lvcreate --yes -L "@
    }) + volume_size + " -n "@ + volume_name + " "@ + volume_group
}

/// The step that makes a logical volume.
pub fn create_logical_volume(volume_group: &str, volume_size: &str, volume_name: &str) -> (action:
    Action)
    ensures
        action@ == echo(logical_volume_command(volume_group@, volume_size@, volume_name@)),
{
    let mut command = if includes(volume_size, "FREE") {
        String::from_str("lvcreate --yes -l ")
    } else {
        String::from_str("lvcreate --yes -L ")
    };
    command.append(volume_size);
    command.append(" -n ");
    command.append(volume_name);
    command.append(" ");
    command.append(volume_group);
    show(command)
}

/// Whether the directory is there.
pub open spec fn directory_exists(findings: Seq<FindingView>, path_to_dir: Seq<char>) -> ProbeView<
    bool,
> {
    flag(findings, Inquiry::IsDir, path_to_dir)
}

/// Decides from the findings whether the directory is there.
pub fn check_if_directory_exists(findings: &Vec<Finding>, path_to_dir: &str) -> (r: Probe<bool>)
    ensures
        r.deep_view() == directory_exists(findings.deep_view(), path_to_dir@),
{
    check(findings, Inquiry::IsDir, path_to_dir)
}

/// The steps that make the file system `file_system` on the device at
/// `path`, where one is asked for and `wanted` says that it is to be made.
pub open spec fn file_system_steps(path: Seq<char>, file_system: Option<Seq<char>>, wanted: bool)
    -> StepsView {
    match file_system {
        Some(kind) => if wanted {
            match filesystem_command(path, kind) {
                Some(command) => sure(seq![echo(command)]),
                None => Err(PartitioningError::UnknownFileSystem),
            }
        } else {
            sure(Seq::empty())
        },
        None => sure(Seq::empty()),
    }
}

/// The step that mounts the device at `path` as the root of the new system,
/// where `mount_point` says that it is the root.
pub open spec fn root_mount(path: Seq<char>, mount_point: Option<Seq<char>>) -> Seq<ActionView> {
    if mount_point == Some("/"@) {
        seq![echo(with_two("mount "@, path, "/mnt"@))]
    } else {
        Seq::empty()
    }
}

/// The steps that bring the device at `path` into the volume group: a
/// physical volume is made of it, and it extends the group where the group
/// is there and founds it where it is not.
pub open spec fn grouping(findings: Seq<FindingView>, path: Seq<char>, volume_group: Seq<char>)
    -> StepsView {
    and_then(
        sure(physical_volume(path)),
        match volume_group_exists(findings, volume_group) {
            ProbeView::Done(exists) => sure(
                seq![
                    echo(
                        with_two(
                            if exists {
                                "vgextend "@
                            } else {
                                "vgcreate "@
                            },
                            volume_group,
                            path,
                        ),
                    ),
                ],
            ),
            ProbeView::Ask(question) => Ok(ProbeView::Ask(question)),
            ProbeView::Failed(error) => Ok(ProbeView::Failed(error)),
        },
    )
}

/// The steps for one partition of the disk called `disk`. On an
/// installation the partition is made, encrypted where a name for that is
/// given, and brought into its volume group. In any case an encrypted
/// partition is opened, the file system is made where the installation or
/// the partition itself asks for it, and the root is mounted.
pub open spec fn partition_steps(
    findings: Seq<FindingView>,
    disk: Seq<char>,
    partition: PartitionView,
    install: bool,
) -> StepsView {
    let path = device(partition.name);
    let made = if install {
        seq![
            echo(
                partition_command(
                    device(disk),
                    partition.partition_type,
                    partition.start,
                    partition.end,
                ),
            ),
        ]
    } else {
        Seq::empty()
    };
    let opened = match partition.crypt {
        Some(crypt_name) => (if install {
            seq![echo(with_two("cryptsetup luksFormat "@, path, crypt_name))]
        } else {
            Seq::empty()
        }) + seq![echo(with_two("cryptsetup open "@, path, crypt_name))],
        None => Seq::empty(),
    };
    let grouped = match partition.volume_group {
        Some(volume_group) => if install {
            grouping(
                findings,
                match partition.crypt {
                    Some(crypt_name) => mapped(crypt_name),
                    None => path,
                },
                volume_group,
            )
        } else {
            sure(Seq::empty())
        },
        None => sure(Seq::empty()),
    };
    and_then(
        and_then(
            and_then(
                sure(made + opened),
                file_system_steps(path, partition.file_system_type, partition.update || install),
            ),
            sure(root_mount(path, partition.mount_point)),
        ),
        grouped,
    )
}

/// The steps for the given partitions of the disk called `disk`, one
/// partition after another.
pub open spec fn partitions_steps(
    findings: Seq<FindingView>,
    disk: Seq<char>,
    partitions: Seq<PartitionView>,
    install: bool,
) -> StepsView
    decreases partitions.len(),
{
    if partitions.len() == 0 {
        sure(Seq::empty())
    } else {
        and_then(
            partitions_steps(findings, disk, partitions.drop_last(), install),
            partition_steps(findings, disk, partitions.last(), install),
        )
    }
}

/// The steps for one disk. On an installation the volume groups are taken
/// out of use where there are any, and the disk gets an empty partition
/// table. Then come the steps for its partitions.
pub open spec fn disk_steps(findings: Seq<FindingView>, disk: DiskView, install: bool)
    -> StepsView {
    let reset = if install {
        match lvm_in_use(findings) {
            ProbeView::Done(in_use) => sure(
                (if in_use {
                    seq![echo("vgchange -a n"@)]
                } else {
                    Seq::empty()
                }) + seq![echo("parted -s "@ + device(disk.name) + " mklabel gpt"@)],
            ),
            ProbeView::Ask(question) => Ok(ProbeView::Ask(question)),
            ProbeView::Failed(error) => Ok(ProbeView::Failed(error)),
        }
    } else {
        sure(Seq::empty())
    };
    and_then(reset, partitions_steps(findings, disk.name, disk.partitions, install))
}

/// The steps for the given disks, one disk after another.
pub open spec fn disks_steps(findings: Seq<FindingView>, disks: Seq<DiskView>, install: bool)
    -> StepsView
    decreases disks.len(),
{
    if disks.len() == 0 {
        sure(Seq::empty())
    } else {
        and_then(
            disks_steps(findings, disks.drop_last(), install),
            disk_steps(findings, disks.last(), install),
        )
    }
}

/// The steps for one logical volume of the group called `group`: on an
/// installation the volume is made; the file system is made where the
/// installation or the volume itself asks for it; the root is mounted.
pub open spec fn volume_steps(group: Seq<char>, volume: LogicalVolumeView, install: bool)
    -> StepsView {
    let path = volume_device(group, volume.name);
    and_then(
        and_then(
            sure(
                if install {
                    seq![echo(logical_volume_command(group, volume.size, volume.name))]
                } else {
                    Seq::empty()
                },
            ),
            file_system_steps(path, volume.file_system_type, volume.update || install),
        ),
        sure(root_mount(path, volume.mount_point)),
    )
}

/// The steps for the given logical volumes of the group called `group`.
pub open spec fn volumes_steps(group: Seq<char>, volumes: Seq<LogicalVolumeView>, install: bool)
    -> StepsView
    decreases volumes.len(),
{
    if volumes.len() == 0 {
        sure(Seq::empty())
    } else {
        and_then(
            volumes_steps(group, volumes.drop_last(), install),
            volume_steps(group, volumes.last(), install),
        )
    }
}

/// The steps that mount the device at `path` below the root of the new
/// system, making its mount point when that is missing. A device without a
/// mount point that holds swap space is taken into use as such.
pub open spec fn mount_steps(
    findings: Seq<FindingView>,
    path: Seq<char>,
    mount_point: Option<Seq<char>>,
    file_system: Option<Seq<char>>,
) -> StepsView {
    match mount_point {
        Some(place) => {
            let target = "/mnt"@ + place;
            match directory_exists(findings, target) {
                ProbeView::Done(there) => sure(
                    (if there {
                        Seq::empty()
                    } else {
                        seq![ActionView::CreateDir { path: target }]
                    }) + seq![echo(with_two("mount "@, path, target))],
                ),
                ProbeView::Ask(question) => Ok(ProbeView::Ask(question)),
                ProbeView::Failed(error) => Ok(ProbeView::Failed(error)),
            }
        },
        None => sure(
            if file_system == Some("swap"@) {
                seq![echo("swapon "@ + path)]
            } else {
                Seq::empty()
            },
        ),
    }
}

/// The steps that mount the given partitions.
pub open spec fn partitions_mounts(findings: Seq<FindingView>, partitions: Seq<PartitionView>)
    -> StepsView
    decreases partitions.len(),
{
    if partitions.len() == 0 {
        sure(Seq::empty())
    } else {
        let partition = partitions.last();
        and_then(
            partitions_mounts(findings, partitions.drop_last()),
            mount_steps(
                findings,
                device(partition.name),
                partition.mount_point,
                partition.file_system_type,
            ),
        )
    }
}

/// The steps that mount the partitions of the given disks.
pub open spec fn disks_mounts(findings: Seq<FindingView>, disks: Seq<DiskView>) -> StepsView
    decreases disks.len(),
{
    if disks.len() == 0 {
        sure(Seq::empty())
    } else {
        and_then(
            disks_mounts(findings, disks.drop_last()),
            partitions_mounts(findings, disks.last().partitions),
        )
    }
}

/// The steps that mount the given logical volumes of the group called
/// `group`.
pub open spec fn volumes_mounts(
    findings: Seq<FindingView>,
    group: Seq<char>,
    volumes: Seq<LogicalVolumeView>,
) -> StepsView
    decreases volumes.len(),
{
    if volumes.len() == 0 {
        sure(Seq::empty())
    } else {
        let volume = volumes.last();
        and_then(
            volumes_mounts(findings, group, volumes.drop_last()),
            mount_steps(
                findings,
                volume_device(group, volume.name),
                volume.mount_point,
                volume.file_system_type,
            ),
        )
    }
}

/// The steps that mount the logical volumes of the given groups.
pub open spec fn groups_mounts(findings: Seq<FindingView>, groups: Seq<VolumeGroupView>)
    -> StepsView
    decreases groups.len(),
{
    if groups.len() == 0 {
        sure(Seq::empty())
    } else {
        let group = groups.last();
        and_then(
            groups_mounts(findings, groups.drop_last()),
            volumes_mounts(findings, group.name, group.logical_volumes),
        )
    }
}

/// The steps for the given volume groups. After the steps for the logical
/// volumes of a group, every partition and every logical volume of the
/// whole layout is mounted.
pub open spec fn groups_steps(
    findings: Seq<FindingView>,
    groups: Seq<VolumeGroupView>,
    layout: PartitioningView,
    install: bool,
) -> StepsView
    decreases groups.len(),
{
    if groups.len() == 0 {
        sure(Seq::empty())
    } else {
        let group = groups.last();
        and_then(
            groups_steps(findings, groups.drop_last(), layout, install),
            and_then(
                and_then(
                    volumes_steps(group.name, group.logical_volumes, install),
                    disks_mounts(findings, layout.disks->0),
                ),
                groups_mounts(findings, layout.volume_groups->0),
            ),
        )
    }
}

/// The steps that lay out the disks: first the disks with their partitions,
/// then the volume groups. A layout has to say whether the machine is
/// shared and to name disks and volume groups.
pub open spec fn layout_steps(findings: Seq<FindingView>, layout: PartitioningView, install: bool)
    -> StepsView {
    if layout.dual is Some && layout.disks is Some && layout.volume_groups is Some {
        and_then(
            disks_steps(findings, layout.disks->0, install),
            groups_steps(findings, layout.volume_groups->0, layout, install),
        )
    } else {
        Err(PartitioningError::Incomplete)
    }
}

/// A part of a plan with no steps before it is that part.
pub proof fn nothing_before(steps: StepsView)
    ensures
        and_then(sure(Seq::empty()), steps) == steps,
{
    match steps {
        Ok(ProbeView::Done(actions)) => {
            assert(Seq::<ActionView>::empty() + actions =~= actions);
        },
        _ => {},
    }
}

/// A part of a plan with no steps behind it is that part.
pub proof fn nothing_behind(steps: StepsView)
    ensures
        and_then(steps, sure(Seq::empty())) == steps,
{
    match steps {
        Ok(ProbeView::Done(actions)) => {
            assert(actions + Seq::<ActionView>::empty() =~= actions);
        },
        _ => {},
    }
}

/// The steps that open an encrypted partition.
pub open spec fn opening(partition: PartitionView) -> Seq<ActionView> {
    match partition.crypt {
        Some(crypt_name) => seq![
            echo(with_two("cryptsetup open "@, device(partition.name), crypt_name)),
        ],
        None => Seq::empty(),
    }
}

/// An update leaves a partition as it is laid out: it opens the partition
/// where that is encrypted, makes the file system anew where the partition
/// asks for it, and mounts the root. Nothing is created, encrypted or
/// brought into a volume group.
pub proof fn update_of_partition(
    findings: Seq<FindingView>,
    disk: Seq<char>,
    partition: PartitionView,
)
    ensures
        partition_steps(findings, disk, partition, false) == and_then(
            and_then(
                sure(opening(partition)),
                file_system_steps(
                    device(partition.name),
                    partition.file_system_type,
                    partition.update,
                ),
            ),
            sure(root_mount(device(partition.name), partition.mount_point)),
        ),
{
    let path = device(partition.name);
    let spared = Seq::<ActionView>::empty();
    match partition.crypt {
        Some(crypt_name) => {
            assert(spared + (spared + seq![
                echo(with_two("cryptsetup open "@, path, crypt_name)),
            ]) =~= opening(partition));
        },
        None => {
            assert(spared + spared =~= opening(partition));
        },
    }
    nothing_behind(
        and_then(
            and_then(
                sure(opening(partition)),
                file_system_steps(path, partition.file_system_type, partition.update),
            ),
            sure(root_mount(path, partition.mount_point)),
        ),
    );
}

/// An update leaves the partition table of a disk as it is: its steps are
/// those for the partitions.
pub proof fn update_of_disk(findings: Seq<FindingView>, disk: DiskView)
    ensures
        disk_steps(findings, disk, false) == partitions_steps(
            findings,
            disk.name,
            disk.partitions,
            false,
        ),
{
    nothing_before(partitions_steps(findings, disk.name, disk.partitions, false));
}

/// An update makes no logical volume: it makes the file system anew where
/// the volume asks for it, and mounts the root.
pub proof fn update_of_volume(group: Seq<char>, volume: LogicalVolumeView)
    ensures
        volume_steps(group, volume, false) == and_then(
            file_system_steps(
                volume_device(group, volume.name),
                volume.file_system_type,
                volume.update,
            ),
            sure(root_mount(volume_device(group, volume.name), volume.mount_point)),
        ),
{
    nothing_before(
        file_system_steps(
            volume_device(group, volume.name),
            volume.file_system_type,
            volume.update,
        ),
    );
}

/// No steps.
fn none() -> (r: Steps)
    ensures
        steps_view(r) == sure(Seq::empty()),
{
    let actions: Vec<Action> = Vec::new();
    assert(actions.deep_view() =~= Seq::empty());
    Ok(Probe::Done(actions))
}

/// One step.
fn one(action: Action) -> (r: Steps)
    ensures
        steps_view(r) == sure(seq![action@]),
{
    let mut actions: Vec<Action> = Vec::new();
    actions.push(action);
    assert(actions.deep_view() =~= seq![action@]);
    Ok(Probe::Done(actions))
}

/// Plans the making of a file system.
fn plan_file_system(path: &str, file_system: &Option<String>, wanted: bool) -> (r: Steps)
    ensures
        steps_view(r) == file_system_steps(path@, file_system.deep_view(), wanted),
{
    match file_system {
        Some(kind) => {
            if wanted {
                match create_filesystem(path, kind.as_str()) {
                    Ok(action) => one(action),
                    Err(error) => Err(error),
                }
            } else {
                none()
            }
        },
        None => none(),
    }
}

/// Tests whether a mount point is the root.
fn is_root_mount(mount_point: &Option<String>) -> (r: bool)
    ensures
        r == (mount_point.deep_view() == Some("/"@)),
{
    match mount_point {
        Some(place) => equal(place.as_str(), "/"),
        None => false,
    }
}

/// Plans the mounting of the root.
fn plan_root_mount(path: &str, mount_point: &Option<String>) -> (r: Steps)
    ensures
        steps_view(r) == sure(root_mount(path@, mount_point.deep_view())),
{
    if is_root_mount(mount_point) {
        one(mount_partition(path, "/mnt"))
    } else {
        none()
    }
}

/// Plans bringing a device into a volume group.
fn plan_grouping(findings: &Vec<Finding>, path: &str, volume_group: &str) -> (r: Steps)
    ensures
        steps_view(r) == grouping(findings.deep_view(), path@, volume_group@),
{
    let join = match check_for_existing_volume_group(findings, volume_group) {
        Probe::Done(exists) => {
            if exists {
                one(extend_existing_volume_group(path, volume_group))
            } else {
                one(create_new_volume_group(path, volume_group))
            }
        },
        Probe::Ask(question) => Ok(Probe::Ask(question)),
        Probe::Failed(error) => Ok(Probe::Failed(error)),
    };
    link(Ok(Probe::Done(create_physical_volume_and_wipefs(path))), join)
}

/// Plans the steps for one partition.
fn plan_partition(findings: &Vec<Finding>, disk: &str, partition: &Partition, install: bool) -> (r:
    Steps)
    ensures
        steps_view(r) == partition_steps(findings.deep_view(), disk@, partition@, install),
{
    let path = combine("/dev/", partition.name.as_str());
    let mut first: Vec<Action> = Vec::new();
    if install {
        first.push(
            create_partition(
                combine("/dev/", disk).as_str(),
                partition.partition_type.as_str(),
                partition.start.as_str(),
                partition.end.as_str(),
            ),
        );
    }
    let ghost made = first.deep_view();
    match &partition.crypt {
        Some(crypt_name) => {
            if install {
                first.push(encrypt_partition(path.as_str(), crypt_name.as_str()));
            }
            first.push(open_encrypted_partition(path.as_str(), crypt_name.as_str()));
        },
        None => {},
    }
    proof {
        let opened = match partition@.crypt {
            Some(crypt_name) => (if install {
                seq![echo(with_two("cryptsetup luksFormat "@, path@, crypt_name))]
            } else {
                Seq::empty()
            }) + seq![echo(with_two("cryptsetup open "@, path@, crypt_name))],
            None => Seq::empty(),
        };
        assert(first.deep_view() =~= made + opened);
        assert(made =~= if install {
            seq![
                echo(
                    partition_command(
                        device(disk@),
                        partition@.partition_type,
                        partition@.start,
                        partition@.end,
                    ),
                ),
            ]
        } else {
            Seq::<ActionView>::empty()
        });
    }
    let grouped = match &partition.volume_group {
        Some(volume_group) => {
            if install {
                match &partition.crypt {
                    Some(crypt_name) => plan_grouping(
                        findings,
                        combine("/dev/mapper/", crypt_name.as_str()).as_str(),
                        volume_group.as_str(),
                    ),
                    None => plan_grouping(findings, path.as_str(), volume_group.as_str()),
                }
            } else {
                none()
            }
        },
        None => none(),
    };
    link(
        link(
            link(
                Ok(Probe::Done(first)),
                plan_file_system(
                    path.as_str(),
                    &partition.file_system_type,
                    partition.update || install,
                ),
            ),
            plan_root_mount(path.as_str(), &partition.mount_point),
        ),
        grouped,
    )
}

/// Plans the steps for the partitions of a disk.
fn plan_partitions(
    findings: &Vec<Finding>,
    disk: &str,
    partitions: &Vec<Partition>,
    install: bool,
) -> (r: Steps)
    ensures
        steps_view(r) == partitions_steps(
            findings.deep_view(),
            disk@,
            partitions.deep_view(),
            install,
        ),
{
    let mut steps = none();
    let mut i: usize = 0;
    assert(partitions.deep_view().take(0) =~= Seq::empty());
    while i < partitions.len()
        invariant
            i <= partitions.len(),
            steps_view(steps) == partitions_steps(
                findings.deep_view(),
                disk@,
                partitions.deep_view().take(i as int),
                install,
            ),
        decreases partitions.len() - i,
    {
        let ghost next = partitions.deep_view().take(i + 1);
        proof {
            assert(next.drop_last() =~= partitions.deep_view().take(i as int));
            assert(next.last() == partitions@[i as int]@);
        }
        steps = link(steps, plan_partition(findings, disk, &partitions[i], install));
        i += 1;
    }
    assert(partitions.deep_view().take(partitions.len() as int) =~= partitions.deep_view());
    steps
}

/// Plans the steps for one disk.
fn plan_disk(findings: &Vec<Finding>, disk: &Disk, install: bool) -> (r: Steps)
    ensures
        steps_view(r) == disk_steps(findings.deep_view(), disk@, install),
{
    let reset = if install {
        match check_for_lvm(findings) {
            Probe::Done(in_use) => {
                let mut actions: Vec<Action> = Vec::new();
                if in_use {
                    actions.push(remove_lvm_structure());
                }
                let ghost before = actions.deep_view();
                let label = set_label(combine("/dev/", disk.name.as_str()).as_str());
                actions.push(label);
                assert(actions.deep_view() =~= (if in_use {
                    seq![echo("vgchange -a n"@)]
                } else {
                    Seq::empty()
                }) + seq![echo("parted -s "@ + device(disk@.name) + " mklabel gpt"@)]);
                Ok(Probe::Done(actions))
            },
            Probe::Ask(question) => Ok(Probe::Ask(question)),
            Probe::Failed(error) => Ok(Probe::Failed(error)),
        }
    } else {
        none()
    };
    link(reset, plan_partitions(findings, disk.name.as_str(), &disk.partitions, install))
}

/// Plans the steps for the disks.
fn plan_disks(findings: &Vec<Finding>, disks: &Vec<Disk>, install: bool) -> (r: Steps)
    ensures
        steps_view(r) == disks_steps(findings.deep_view(), disks.deep_view(), install),
{
    let mut steps = none();
    let mut i: usize = 0;
    assert(disks.deep_view().take(0) =~= Seq::empty());
    while i < disks.len()
        invariant
            i <= disks.len(),
            steps_view(steps) == disks_steps(
                findings.deep_view(),
                disks.deep_view().take(i as int),
                install,
            ),
        decreases disks.len() - i,
    {
        let ghost next = disks.deep_view().take(i + 1);
        proof {
            assert(next.drop_last() =~= disks.deep_view().take(i as int));
            assert(next.last() == disks@[i as int]@);
        }
        steps = link(steps, plan_disk(findings, &disks[i], install));
        i += 1;
    }
    assert(disks.deep_view().take(disks.len() as int) =~= disks.deep_view());
    steps
}

/// Plans the steps for one logical volume.
fn plan_volume(group: &str, volume: &LogicalVolume, install: bool) -> (r: Steps)
    ensures
        steps_view(r) == volume_steps(group@, volume@, install),
{
    let path = volume_path(group, volume.name.as_str());
    let made = if install {
        one(create_logical_volume(group, volume.size.as_str(), volume.name.as_str()))
    } else {
        none()
    };
    link(
        link(
            made,
            plan_file_system(path.as_str(), &volume.file_system_type, volume.update || install),
        ),
        plan_root_mount(path.as_str(), &volume.mount_point),
    )
}

/// Plans the steps for the logical volumes of a group.
fn plan_volumes(group: &str, volumes: &Vec<LogicalVolume>, install: bool) -> (r: Steps)
    ensures
        steps_view(r) == volumes_steps(group@, volumes.deep_view(), install),
{
    let mut steps = none();
    let mut i: usize = 0;
    assert(volumes.deep_view().take(0) =~= Seq::empty());
    while i < volumes.len()
        invariant
            i <= volumes.len(),
            steps_view(steps) == volumes_steps(group@, volumes.deep_view().take(i as int), install),
        decreases volumes.len() - i,
    {
        let ghost next = volumes.deep_view().take(i + 1);
        proof {
            assert(next.drop_last() =~= volumes.deep_view().take(i as int));
            assert(next.last() == volumes@[i as int]@);
        }
        steps = link(steps, plan_volume(group, &volumes[i], install));
        i += 1;
    }
    assert(volumes.deep_view().take(volumes.len() as int) =~= volumes.deep_view());
    steps
}

/// Plans the mounting of a device.
fn plan_mount(
    findings: &Vec<Finding>,
    path: &str,
    mount_point: &Option<String>,
    file_system: &Option<String>,
) -> (r: Steps)
    ensures
        steps_view(r) == mount_steps(
            findings.deep_view(),
            path@,
            mount_point.deep_view(),
            file_system.deep_view(),
        ),
{
    match mount_point {
        Some(place) => {
            let target = combine("/mnt", place.as_str());
            match check_if_directory_exists(findings, target.as_str()) {
                Probe::Done(there) => {
                    let mut actions: Vec<Action> = Vec::new();
                    if !there {
                        actions.push(Action::CreateDir { path: target.clone() });
                    }
                    actions.push(mount_partition(path, target.as_str()));
                    assert(actions.deep_view() =~= (if there {
                        Seq::empty()
                    } else {
                        seq![ActionView::CreateDir { path: target@ }]
                    }) + seq![echo(with_two("mount "@, path@, target@))]);
                    Ok(Probe::Done(actions))
                },
                Probe::Ask(question) => Ok(Probe::Ask(question)),
                Probe::Failed(error) => Ok(Probe::Failed(error)),
            }
        },
        None => {
            let swap = match file_system {
                Some(kind) => equal(kind.as_str(), "swap"),
                None => false,
            };
            if swap {
                one(mount_swap_partition(path))
            } else {
                none()
            }
        },
    }
}

/// Plans the mounting of the partitions of the disks.
fn plan_disks_mounts(findings: &Vec<Finding>, disks: &Vec<Disk>) -> (r: Steps)
    ensures
        steps_view(r) == disks_mounts(findings.deep_view(), disks.deep_view()),
{
    let mut steps = none();
    let mut i: usize = 0;
    assert(disks.deep_view().take(0) =~= Seq::empty());
    while i < disks.len()
        invariant
            i <= disks.len(),
            steps_view(steps) == disks_mounts(
                findings.deep_view(),
                disks.deep_view().take(i as int),
            ),
        decreases disks.len() - i,
    {
        let ghost next = disks.deep_view().take(i + 1);
        proof {
            assert(next.drop_last() =~= disks.deep_view().take(i as int));
            assert(next.last() == disks@[i as int]@);
        }
        let partitions = &disks[i].partitions;
        let mut mounts = none();
        let mut j: usize = 0;
        assert(partitions.deep_view().take(0) =~= Seq::empty());
        while j < partitions.len()
            invariant
                j <= partitions.len(),
                steps_view(mounts) == partitions_mounts(
                    findings.deep_view(),
                    partitions.deep_view().take(j as int),
                ),
            decreases partitions.len() - j,
        {
            let ghost following = partitions.deep_view().take(j + 1);
            proof {
                assert(following.drop_last() =~= partitions.deep_view().take(j as int));
                assert(following.last() == partitions@[j as int]@);
            }
            let partition = &partitions[j];
            mounts = link(
                mounts,
                plan_mount(
                    findings,
                    combine("/dev/", partition.name.as_str()).as_str(),
                    &partition.mount_point,
                    &partition.file_system_type,
                ),
            );
            j += 1;
        }
        assert(partitions.deep_view().take(partitions.len() as int) =~= partitions.deep_view());
        steps = link(steps, mounts);
        i += 1;
    }
    assert(disks.deep_view().take(disks.len() as int) =~= disks.deep_view());
    steps
}

/// Plans the mounting of the logical volumes of the groups.
fn plan_groups_mounts(findings: &Vec<Finding>, groups: &Vec<VolumeGroup>) -> (r: Steps)
    ensures
        steps_view(r) == groups_mounts(findings.deep_view(), groups.deep_view()),
{
    let mut steps = none();
    let mut i: usize = 0;
    assert(groups.deep_view().take(0) =~= Seq::empty());
    while i < groups.len()
        invariant
            i <= groups.len(),
            steps_view(steps) == groups_mounts(
                findings.deep_view(),
                groups.deep_view().take(i as int),
            ),
        decreases groups.len() - i,
    {
        let ghost next = groups.deep_view().take(i + 1);
        proof {
            assert(next.drop_last() =~= groups.deep_view().take(i as int));
            assert(next.last() == groups@[i as int]@);
        }
        let group = &groups[i];
        let volumes = &group.logical_volumes;
        let mut mounts = none();
        let mut j: usize = 0;
        assert(volumes.deep_view().take(0) =~= Seq::empty());
        while j < volumes.len()
            invariant
                j <= volumes.len(),
                steps_view(mounts) == volumes_mounts(
                    findings.deep_view(),
                    group.name@,
                    volumes.deep_view().take(j as int),
                ),
            decreases volumes.len() - j,
        {
            let ghost following = volumes.deep_view().take(j + 1);
            proof {
                assert(following.drop_last() =~= volumes.deep_view().take(j as int));
                assert(following.last() == volumes@[j as int]@);
            }
            let volume = &volumes[j];
            mounts = link(
                mounts,
                plan_mount(
                    findings,
                    volume_path(group.name.as_str(), volume.name.as_str()).as_str(),
                    &volume.mount_point,
                    &volume.file_system_type,
                ),
            );
            j += 1;
        }
        assert(volumes.deep_view().take(volumes.len() as int) =~= volumes.deep_view());
        steps = link(steps, mounts);
        i += 1;
    }
    assert(groups.deep_view().take(groups.len() as int) =~= groups.deep_view());
    steps
}

impl Partitioning {
    /// Plans the layout of the disks, for an installation, which makes
    /// everything anew, or for an update, which keeps what is there and
    /// makes anew only what asks for it.
    pub fn install_or_update(&self, install: bool, findings: &Vec<Finding>) -> (r: Steps)
        ensures
            steps_view(r) == layout_steps(findings.deep_view(), self@, install),
    {
        match (&self.dual, &self.disks, &self.volume_groups) {
            (Some(_), Some(disks), Some(groups)) => {
                let mut steps = none();
                let mut i: usize = 0;
                assert(groups.deep_view().take(0) =~= Seq::empty());
                while i < groups.len()
                    invariant
                        i <= groups.len(),
                        self@.disks == Some(disks.deep_view()),
                        self@.volume_groups == Some(groups.deep_view()),
                        steps_view(steps) == groups_steps(
                            findings.deep_view(),
                            groups.deep_view().take(i as int),
                            self@,
                            install,
                        ),
                    decreases groups.len() - i,
                {
                    let ghost next = groups.deep_view().take(i + 1);
                    proof {
                        assert(next.drop_last() =~= groups.deep_view().take(i as int));
                        assert(next.last() == groups@[i as int]@);
                    }
                    let group = &groups[i];
                    steps = link(
                        steps,
                        link(
                            link(
                                plan_volumes(group.name.as_str(), &group.logical_volumes, install),
                                plan_disks_mounts(findings, disks),
                            ),
                            plan_groups_mounts(findings, groups),
                        ),
                    );
                    i += 1;
                }
                assert(groups.deep_view().take(groups.len() as int) =~= groups.deep_view());
                link(plan_disks(findings, disks, install), steps)
            },
            _ => Err(PartitioningError::Incomplete),
        }
    }
}

} // verus!
