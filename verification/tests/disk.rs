use reconciler::disk_management::{
    check_for_existing_volume_group, check_for_lvm, check_if_directory_exists, create_filesystem,
    create_logical_volume, create_new_volume_group, create_partition,
    create_physical_volume_and_wipefs, encrypt_partition, extend_existing_volume_group, link,
    mount_partition, mount_swap_partition, open_encrypted_partition, remove_lvm_structure,
    set_label, show, volume_path, PartitioningError, Steps,
};
use reconciler::function::Action;
use reconciler::helper::{is_user_root, ExecutionContext};
use reconciler::probe::{Fault, Finding, Inquiry, Probe, ProbeError, Question};
use reconciler::structure::{Disk, LogicalVolume, Partition, Partitioning, VolumeGroup};

fn text(s: &str) -> Option<String> {
    Some(s.to_string())
}

fn echo(command: &str) -> Action {
    Action::Execute { command: format!("echo {}", command), dir: "/".to_string() }
}

fn flag(kind: Inquiry, subject: &str, ok: bool) -> Finding {
    Finding { question: Question { kind, subject: subject.to_string() }, ok, text: String::new() }
}

fn output(command: &str, content: &str) -> Finding {
    Finding {
        question: Question { kind: Inquiry::Output, subject: command.to_string() },
        ok: true,
        text: content.to_string(),
    }
}

fn plan(layout: &Partitioning, install: bool, system: &[Finding]) -> Vec<Action> {
    let mut findings: Vec<Finding> = Vec::new();
    loop {
        match layout.install_or_update(install, &findings) {
            Ok(Probe::Done(actions)) => return actions,
            Ok(Probe::Ask(question)) => {
                let answer = system
                    .iter()
                    .find(|f| f.question == question)
                    .unwrap_or_else(|| panic!("no answer prepared for {:?}", question));
                findings.push(answer.clone());
            }
            other => panic!("no plan: {:?}", other),
        }
    }
}

fn boot() -> Partition {
    Partition {
        name: "sda1".to_string(),
        partition_type: "fat32".to_string(),
        start: "1MiB".to_string(),
        end: "513MiB".to_string(),
        crypt: None,
        file_system_type: text("fat-32"),
        update: false,
        mount_point: text("/boot"),
        volume_group: None,
    }
}

fn encrypted() -> Partition {
    Partition {
        name: "sda2".to_string(),
        partition_type: "ext4".to_string(),
        start: "513MiB".to_string(),
        end: "100%".to_string(),
        crypt: text("cryptlvm"),
        file_system_type: None,
        update: false,
        mount_point: None,
        volume_group: text("vg0"),
    }
}

fn volumes() -> VolumeGroup {
    VolumeGroup {
        name: "vg0".to_string(),
        logical_volumes: vec![
            LogicalVolume {
                name: "swap".to_string(),
                size: "8G".to_string(),
                file_system_type: text("swap"),
                update: false,
                mount_point: None,
            },
            LogicalVolume {
                name: "root".to_string(),
                size: "100%FREE".to_string(),
                file_system_type: text("ext4"),
                update: true,
                mount_point: text("/"),
            },
        ],
    }
}

fn layout() -> Partitioning {
    Partitioning {
        dual: Some(false),
        disks: Some(vec![Disk { name: "sda".to_string(), partitions: vec![boot(), encrypted()] }]),
        volume_groups: Some(vec![volumes()]),
    }
}

#[test]
fn the_steps_are_shown_by_echo() {
    assert_eq!(show("vgs".to_string()), echo("vgs"));
    assert_eq!(remove_lvm_structure(), echo("vgchange -a n"));
    assert_eq!(set_label("/dev/sda"), echo("parted -s /dev/sda mklabel gpt"));
    assert_eq!(
        create_partition("/dev/sda", "fat32", "1MiB", "513MiB"),
        echo("parted -s /dev/sda mkpart primary fat32 1MiB 513MiB")
    );
    assert_eq!(encrypt_partition("/dev/sda2", "crypt"), echo("cryptsetup luksFormat /dev/sda2 crypt"));
    assert_eq!(open_encrypted_partition("/dev/sda2", "crypt"), echo("cryptsetup open /dev/sda2 crypt"));
    assert_eq!(mount_partition("/dev/sda1", "/mnt/boot"), echo("mount /dev/sda1 /mnt/boot"));
    assert_eq!(mount_swap_partition("/dev/sda3"), echo("swapon /dev/sda3"));
    assert_eq!(
        create_physical_volume_and_wipefs("/dev/sda2"),
        vec![echo("pvcreate /dev/sda2"), echo("wipefs -a -f /dev/sda2")]
    );
    assert_eq!(create_new_volume_group("/dev/sda2", "vg0"), echo("vgcreate vg0 /dev/sda2"));
    assert_eq!(extend_existing_volume_group("/dev/sda2", "vg0"), echo("vgextend vg0 /dev/sda2"));
    assert_eq!(create_logical_volume("vg0", "8G", "swap"), echo("lvcreate --yes -L 8G -n swap vg0"));
    assert_eq!(
        create_logical_volume("vg0", "100%FREE", "root"),
        echo("lvcreate --yes -l 100%FREE -n root vg0")
    );
    assert_eq!(volume_path("vg0", "root"), "/dev/mapper/vg0-root");
}

#[test]
fn file_systems_are_made_by_their_tools() {
    assert_eq!(create_filesystem("/dev/sda1", "fat-32"), Ok(echo("mkfs.fat -F32 /dev/sda1")));
    assert_eq!(create_filesystem("/dev/sda1", "swap"), Ok(echo("mkswap /dev/sda1")));
    assert_eq!(create_filesystem("/dev/sda1", "ext4"), Ok(echo("mkfs.ext4 -F /dev/sda1")));
    assert_eq!(create_filesystem("/dev/sda1", "exfat"), Ok(echo("mkfs.exfat /dev/sda1")));
    assert_eq!(create_filesystem("/dev/sda1", "zfs"), Err(PartitioningError::UnknownFileSystem));
    assert_eq!(
        PartitioningError::UnknownFileSystem.message(),
        "Error (panic): Failed to create filesystem due to bad file system type"
    );
    assert_eq!(
        PartitioningError::Incomplete.message(),
        "Error (panic): Partitioning is not read correctly or the config has errors!"
    );
}

#[test]
fn the_state_of_the_disks_is_asked_for() {
    let none: Vec<Finding> = vec![];
    assert_eq!(
        check_for_lvm(&none),
        Probe::Ask(Question { kind: Inquiry::Succeeds, subject: "vgs".to_string() })
    );
    assert_eq!(check_for_lvm(&vec![flag(Inquiry::Succeeds, "vgs", true)]), Probe::Done(true));
    assert_eq!(
        check_for_existing_volume_group(&vec![output("vgdisplay", "  VG Name  vg0\n")], "vg0"),
        Probe::Done(true)
    );
    assert_eq!(
        check_for_existing_volume_group(&vec![output("vgdisplay", "  VG Name  vg0\n")], "vg1"),
        Probe::Done(false)
    );
    assert_eq!(
        check_for_existing_volume_group(
            &vec![Finding {
                question: Question { kind: Inquiry::Output, subject: "vgdisplay".to_string() },
                ok: false,
                text: String::new()
            }],
            "vg0"
        ),
        Probe::Failed(ProbeError { fault: Fault::NotRun, subject: "vgdisplay".to_string() })
    );
    assert_eq!(check_if_directory_exists(&vec![flag(Inquiry::IsDir, "/mnt", false)], "/mnt"), Probe::Done(false));
}

#[test]
fn an_installation_makes_everything_anew() {
    let system = [
        flag(Inquiry::Succeeds, "vgs", true),
        output("vgdisplay", ""),
        flag(Inquiry::IsDir, "/mnt/boot", false),
        flag(Inquiry::IsDir, "/mnt/", true),
    ];
    assert_eq!(
        plan(&layout(), true, &system),
        vec![
            echo("vgchange -a n"),
            echo("parted -s /dev/sda mklabel gpt"),
            echo("parted -s /dev/sda mkpart primary fat32 1MiB 513MiB"),
            echo("mkfs.fat -F32 /dev/sda1"),
            echo("parted -s /dev/sda mkpart primary ext4 513MiB 100%"),
            echo("cryptsetup luksFormat /dev/sda2 cryptlvm"),
            echo("cryptsetup open /dev/sda2 cryptlvm"),
            echo("pvcreate /dev/mapper/cryptlvm"),
            echo("wipefs -a -f /dev/mapper/cryptlvm"),
            echo("vgcreate vg0 /dev/mapper/cryptlvm"),
            echo("lvcreate --yes -L 8G -n swap vg0"),
            echo("mkswap /dev/mapper/vg0-swap"),
            echo("lvcreate --yes -l 100%FREE -n root vg0"),
            echo("mkfs.ext4 -F /dev/mapper/vg0-root"),
            echo("mount /dev/mapper/vg0-root /mnt"),
            Action::CreateDir { path: "/mnt/boot".to_string() },
            echo("mount /dev/sda1 /mnt/boot"),
            echo("swapon /dev/mapper/vg0-swap"),
            echo("mount /dev/mapper/vg0-root /mnt/"),
        ]
    );
}

#[test]
fn an_update_keeps_what_is_there() {
    let system = [flag(Inquiry::IsDir, "/mnt/boot", true), flag(Inquiry::IsDir, "/mnt/", true)];
    assert_eq!(
        plan(&layout(), false, &system),
        vec![
            echo("cryptsetup open /dev/sda2 cryptlvm"),
            echo("mkfs.ext4 -F /dev/mapper/vg0-root"),
            echo("mount /dev/mapper/vg0-root /mnt"),
            echo("mount /dev/sda1 /mnt/boot"),
            echo("swapon /dev/mapper/vg0-swap"),
            echo("mount /dev/mapper/vg0-root /mnt/"),
        ]
    );
}

#[test]
fn a_device_joins_a_group_that_is_there() {
    let mut disks = layout();
    disks.volume_groups = Some(vec![]);
    let system = [flag(Inquiry::Succeeds, "vgs", false), output("vgdisplay", "VG Name vg0")];
    let steps = plan(&disks, true, &system);
    assert_eq!(steps.last(), Some(&echo("vgextend vg0 /dev/mapper/cryptlvm")));
    assert!(!steps.contains(&echo("vgchange -a n")));
}

#[test]
fn a_layout_has_to_be_complete() {
    let mut disks = layout();
    disks.dual = None;
    assert_eq!(disks.install_or_update(true, &vec![]), Err(PartitioningError::Incomplete));
    let mut disks = layout();
    disks.volume_groups = None;
    assert_eq!(disks.install_or_update(false, &vec![]), Err(PartitioningError::Incomplete));
}

#[test]
fn an_unknown_file_system_is_refused() {
    let mut disks = layout();
    let mut odd = boot();
    odd.file_system_type = text("zfs");
    disks.disks = Some(vec![Disk { name: "sda".to_string(), partitions: vec![odd] }]);
    let findings = vec![flag(Inquiry::Succeeds, "vgs", false)];
    assert_eq!(disks.install_or_update(true, &findings), Err(PartitioningError::UnknownFileSystem));
}

#[test]
fn parts_of_a_plan_are_linked() {
    let a: Steps = Ok(Probe::Done(vec![echo("a")]));
    let b: Steps = Ok(Probe::Done(vec![echo("b")]));
    assert_eq!(link(a.clone(), b.clone()), Ok(Probe::Done(vec![echo("a"), echo("b")])));
    let refused: Steps = Err(PartitioningError::UnknownFileSystem);
    assert_eq!(link(a.clone(), refused.clone()), refused);
    assert_eq!(link(refused.clone(), b.clone()), refused);
    let asking: Steps = Ok(Probe::Ask(Question { kind: Inquiry::IsDir, subject: "/x".to_string() }));
    assert_eq!(link(asking.clone(), refused), asking);
    assert_eq!(link(a, asking.clone()), asking);
}

#[test]
fn the_context_is_that_of_the_process() {
    let context = ExecutionContext::current();
    assert_eq!(context.privileged, is_user_root());
    assert_eq!(is_user_root(), nix::unistd::Uid::effective().is_root());
    assert_eq!(is_user_root(), nix::unistd::Uid::effective().as_raw() == 0);
}
