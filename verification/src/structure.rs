//! The resource records: one data shape for each domain, and the small
//! structured records that their lists hold.
//!
//! A field is either a scalar or a list, and either may be absent. Each record
//! has a mathematical model, its view, in which text is a sequence of
//! characters and a list is a sequence; the contracts of the library speak of
//! these views.

use vstd::prelude::*;
use crate::item::Item;

verus! {

/// The keyboard layout.
#[derive(Debug, PartialEq, Eq, Clone)]
pub struct Keyboard {
    /// The layout of the console.
    pub keyboard_tty: Option<String>,
    /// The layout that the initial ramdisk is built with.
    pub mkinitcpio: Option<String>,
}

/// The model of [`Keyboard`].
pub struct KeyboardView {
    pub keyboard_tty: Option<Seq<char>>,
    pub mkinitcpio: Option<Seq<char>>,
}

impl DeepView for Keyboard {
    type V = KeyboardView;

    open spec fn deep_view(&self) -> KeyboardView {
        KeyboardView {
            keyboard_tty: self.keyboard_tty.deep_view(),
            mkinitcpio: self.mkinitcpio.deep_view(),
        }
    }
}

impl View for Keyboard {
    type V = KeyboardView;

    open spec fn view(&self) -> KeyboardView {
        self.deep_view()
    }
}

impl KeyboardView {
    /// The record in which every field is absent.
    pub open spec fn absent() -> KeyboardView {
        KeyboardView {
            keyboard_tty: None,
            mkinitcpio: None,
        }
    }
}

impl Keyboard {
    /// The record in which every field is absent.
    pub fn absent() -> (record: Keyboard)
        ensures
            record@ == KeyboardView::absent(),
    {
        Keyboard {
            keyboard_tty: None,
            mkinitcpio: None,
        }
    }
}

impl Item for Keyboard {
    fn same(&self, other: &Self) -> (r: bool) {
        self.keyboard_tty.same(&other.keyboard_tty)
            && self.mkinitcpio.same(&other.mkinitcpio)
    }

    fn duplicate(&self) -> (r: Self) {
        Keyboard {
            keyboard_tty: self.keyboard_tty.duplicate(),
            mkinitcpio: self.mkinitcpio.duplicate(),
        }
    }
}

/// The time settings.
#[derive(Debug, PartialEq, Eq, Clone)]
pub struct Time {
    /// The time zone, such as `Europe/Berlin`.
    pub timezone: Option<String>,
}

/// The model of [`Time`].
pub struct TimeView {
    pub timezone: Option<Seq<char>>,
}

impl DeepView for Time {
    type V = TimeView;

    open spec fn deep_view(&self) -> TimeView {
        TimeView {
            timezone: self.timezone.deep_view(),
        }
    }
}

impl View for Time {
    type V = TimeView;

    open spec fn view(&self) -> TimeView {
        self.deep_view()
    }
}

impl TimeView {
    /// The record in which every field is absent.
    pub open spec fn absent() -> TimeView {
        TimeView {
            timezone: None,
        }
    }
}

impl Time {
    /// The record in which every field is absent.
    pub fn absent() -> (record: Time)
        ensures
            record@ == TimeView::absent(),
    {
        Time {
            timezone: None,
        }
    }
}

impl Item for Time {
    fn same(&self, other: &Self) -> (r: bool) {
        self.timezone.same(&other.timezone)
    }

    fn duplicate(&self) -> (r: Self) {
        Time {
            timezone: self.timezone.duplicate(),
        }
    }
}

/// The language settings.
#[derive(Debug, PartialEq, Eq, Clone)]
pub struct Language {
    /// The locale, such as `en_US.UTF-8`.
    pub locale: Option<String>,
    /// The character set of the locale, such as `UTF-8`.
    pub character: Option<String>,
}

/// The model of [`Language`].
pub struct LanguageView {
    pub locale: Option<Seq<char>>,
    pub character: Option<Seq<char>>,
}

impl DeepView for Language {
    type V = LanguageView;

    open spec fn deep_view(&self) -> LanguageView {
        LanguageView {
            locale: self.locale.deep_view(),
            character: self.character.deep_view(),
        }
    }
}

impl View for Language {
    type V = LanguageView;

    open spec fn view(&self) -> LanguageView {
        self.deep_view()
    }
}

impl LanguageView {
    /// The record in which every field is absent.
    pub open spec fn absent() -> LanguageView {
        LanguageView {
            locale: None,
            character: None,
        }
    }
}

impl Language {
    /// The record in which every field is absent.
    pub fn absent() -> (record: Language)
        ensures
            record@ == LanguageView::absent(),
    {
        Language {
            locale: None,
            character: None,
        }
    }
}

impl Item for Language {
    fn same(&self, other: &Self) -> (r: bool) {
        self.locale.same(&other.locale)
            && self.character.same(&other.character)
    }

    fn duplicate(&self) -> (r: Self) {
        Language {
            locale: self.locale.duplicate(),
            character: self.character.duplicate(),
        }
    }
}

/// The identity of the machine.
#[derive(Debug, PartialEq, Eq, Clone)]
pub struct System {
    /// The host name.
    pub hostname: Option<String>,
}

/// The model of [`System`].
pub struct SystemView {
    pub hostname: Option<Seq<char>>,
}

impl DeepView for System {
    type V = SystemView;

    open spec fn deep_view(&self) -> SystemView {
        SystemView {
            hostname: self.hostname.deep_view(),
        }
    }
}

impl View for System {
    type V = SystemView;

    open spec fn view(&self) -> SystemView {
        self.deep_view()
    }
}

impl SystemView {
    /// The record in which every field is absent.
    pub open spec fn absent() -> SystemView {
        SystemView {
            hostname: None,
        }
    }
}

impl System {
    /// The record in which every field is absent.
    pub fn absent() -> (record: System)
        ensures
            record@ == SystemView::absent(),
    {
        System {
            hostname: None,
        }
    }
}

impl Item for System {
    fn same(&self, other: &Self) -> (r: bool) {
        self.hostname.same(&other.hostname)
    }

    fn duplicate(&self) -> (r: Self) {
        System {
            hostname: self.hostname.duplicate(),
        }
    }
}

/// A user together with the groups they belong to.
#[derive(Debug, PartialEq, Eq, Clone)]
pub struct User {
    /// The login name.
    pub name: String,
    /// The supplementary groups.
    pub groups: Vec<String>,
}

/// The model of [`User`].
pub struct UserView {
    pub name: Seq<char>,
    pub groups: Seq<Seq<char>>,
}

impl DeepView for User {
    type V = UserView;

    open spec fn deep_view(&self) -> UserView {
        UserView {
            name: self.name.deep_view(),
            groups: self.groups.deep_view(),
        }
    }
}

impl View for User {
    type V = UserView;

    open spec fn view(&self) -> UserView {
        self.deep_view()
    }
}

impl Item for User {
    fn same(&self, other: &Self) -> (r: bool) {
        self.name.same(&other.name)
            && self.groups.same(&other.groups)
    }

    fn duplicate(&self) -> (r: Self) {
        User {
            name: self.name.duplicate(),
            groups: self.groups.duplicate(),
        }
    }
}

/// The user accounts.
#[derive(Debug, PartialEq, Eq, Clone)]
pub struct Users {
    /// The login names.
    pub user_list: Option<Vec<String>>,
    /// For each user, the groups they belong to.
    pub user_groups: Option<Vec<User>>,
}

/// The model of [`Users`].
pub struct UsersView {
    pub user_list: Option<Seq<Seq<char>>>,
    pub user_groups: Option<Seq<UserView>>,
}

impl DeepView for Users {
    type V = UsersView;

    open spec fn deep_view(&self) -> UsersView {
        UsersView {
            user_list: self.user_list.deep_view(),
            user_groups: self.user_groups.deep_view(),
        }
    }
}

impl View for Users {
    type V = UsersView;

    open spec fn view(&self) -> UsersView {
        self.deep_view()
    }
}

impl UsersView {
    /// The record in which every field is absent.
    pub open spec fn absent() -> UsersView {
        UsersView {
            user_list: None,
            user_groups: None,
        }
    }
}

impl Users {
    /// The record in which every field is absent.
    pub fn absent() -> (record: Users)
        ensures
            record@ == UsersView::absent(),
    {
        Users {
            user_list: None,
            user_groups: None,
        }
    }
}

impl Item for Users {
    fn same(&self, other: &Self) -> (r: bool) {
        self.user_list.same(&other.user_list)
            && self.user_groups.same(&other.user_groups)
    }

    fn duplicate(&self) -> (r: Self) {
        Users {
            user_list: self.user_list.duplicate(),
            user_groups: self.user_groups.duplicate(),
        }
    }
}

/// The configuration of the package manager.
#[derive(Debug, PartialEq, Eq, Clone)]
pub struct Pacman {
    /// How many packages are downloaded at once.
    pub parallel: Option<u8>,
}

/// The model of [`Pacman`].
pub struct PacmanView {
    pub parallel: Option<u8>,
}

impl DeepView for Pacman {
    type V = PacmanView;

    open spec fn deep_view(&self) -> PacmanView {
        PacmanView {
            parallel: self.parallel.deep_view(),
        }
    }
}

impl View for Pacman {
    type V = PacmanView;

    open spec fn view(&self) -> PacmanView {
        self.deep_view()
    }
}

impl PacmanView {
    /// The record in which every field is absent.
    pub open spec fn absent() -> PacmanView {
        PacmanView {
            parallel: None,
        }
    }
}

impl Pacman {
    /// The record in which every field is absent.
    pub fn absent() -> (record: Pacman)
        ensures
            record@ == PacmanView::absent(),
    {
        Pacman {
            parallel: None,
        }
    }
}

impl Item for Pacman {
    fn same(&self, other: &Self) -> (r: bool) {
        self.parallel.same(&other.parallel)
    }

    fn duplicate(&self) -> (r: Self) {
        Pacman {
            parallel: self.parallel.duplicate(),
        }
    }
}

/// A partition of a disk.
#[derive(Debug, PartialEq, Eq, Clone)]
pub struct Partition {
    /// The device name, such as `sda1`.
    pub name: String,
    /// The type that the partition table records.
    pub partition_type: String,
    /// Where the partition starts.
    pub start: String,
    /// Where the partition ends.
    pub end: String,
    /// The name under which the partition is opened when it is encrypted.
    pub crypt: Option<String>,
    /// The file system to create on it.
    pub file_system_type: Option<String>,
    /// Whether the file system is created anew on an update.
    pub update: bool,
    /// Where the partition is mounted.
    pub mount_point: Option<String>,
    /// The volume group that the partition joins.
    pub volume_group: Option<String>,
}

/// The model of [`Partition`].
pub struct PartitionView {
    pub name: Seq<char>,
    pub partition_type: Seq<char>,
    pub start: Seq<char>,
    pub end: Seq<char>,
    pub crypt: Option<Seq<char>>,
    pub file_system_type: Option<Seq<char>>,
    pub update: bool,
    pub mount_point: Option<Seq<char>>,
    pub volume_group: Option<Seq<char>>,
}

impl DeepView for Partition {
    type V = PartitionView;

    open spec fn deep_view(&self) -> PartitionView {
        PartitionView {
            name: self.name.deep_view(),
            partition_type: self.partition_type.deep_view(),
            start: self.start.deep_view(),
            end: self.end.deep_view(),
            crypt: self.crypt.deep_view(),
            file_system_type: self.file_system_type.deep_view(),
            update: self.update.deep_view(),
            mount_point: self.mount_point.deep_view(),
            volume_group: self.volume_group.deep_view(),
        }
    }
}

impl View for Partition {
    type V = PartitionView;

    open spec fn view(&self) -> PartitionView {
        self.deep_view()
    }
}

impl Item for Partition {
    fn same(&self, other: &Self) -> (r: bool) {
        self.name.same(&other.name)
            && self.partition_type.same(&other.partition_type)
            && self.start.same(&other.start)
            && self.end.same(&other.end)
            && self.crypt.same(&other.crypt)
            && self.file_system_type.same(&other.file_system_type)
            && self.update.same(&other.update)
            && self.mount_point.same(&other.mount_point)
            && self.volume_group.same(&other.volume_group)
    }

    fn duplicate(&self) -> (r: Self) {
        Partition {
            name: self.name.duplicate(),
            partition_type: self.partition_type.duplicate(),
            start: self.start.duplicate(),
            end: self.end.duplicate(),
            crypt: self.crypt.duplicate(),
            file_system_type: self.file_system_type.duplicate(),
            update: self.update.duplicate(),
            mount_point: self.mount_point.duplicate(),
            volume_group: self.volume_group.duplicate(),
        }
    }
}

/// A disk and its partitions.
#[derive(Debug, PartialEq, Eq, Clone)]
pub struct Disk {
    /// The device name, such as `sda`.
    pub name: String,
    /// The partitions, in the order in which they are made.
    pub partitions: Vec<Partition>,
}

/// The model of [`Disk`].
pub struct DiskView {
    pub name: Seq<char>,
    pub partitions: Seq<PartitionView>,
}

impl DeepView for Disk {
    type V = DiskView;

    open spec fn deep_view(&self) -> DiskView {
        DiskView {
            name: self.name.deep_view(),
            partitions: self.partitions.deep_view(),
        }
    }
}

impl View for Disk {
    type V = DiskView;

    open spec fn view(&self) -> DiskView {
        self.deep_view()
    }
}

impl Item for Disk {
    fn same(&self, other: &Self) -> (r: bool) {
        self.name.same(&other.name)
            && self.partitions.same(&other.partitions)
    }

    fn duplicate(&self) -> (r: Self) {
        Disk {
            name: self.name.duplicate(),
            partitions: self.partitions.duplicate(),
        }
    }
}

/// A logical volume of a volume group.
#[derive(Debug, PartialEq, Eq, Clone)]
pub struct LogicalVolume {
    /// The name of the volume.
    pub name: String,
    /// The size, absolute or as a share of what is free.
    pub size: String,
    /// The file system to create on it.
    pub file_system_type: Option<String>,
    /// Whether the file system is created anew on an update.
    pub update: bool,
    /// Where the volume is mounted.
    pub mount_point: Option<String>,
}

/// The model of [`LogicalVolume`].
pub struct LogicalVolumeView {
    pub name: Seq<char>,
    pub size: Seq<char>,
    pub file_system_type: Option<Seq<char>>,
    pub update: bool,
    pub mount_point: Option<Seq<char>>,
}

impl DeepView for LogicalVolume {
    type V = LogicalVolumeView;

    open spec fn deep_view(&self) -> LogicalVolumeView {
        LogicalVolumeView {
            name: self.name.deep_view(),
            size: self.size.deep_view(),
            file_system_type: self.file_system_type.deep_view(),
            update: self.update.deep_view(),
            mount_point: self.mount_point.deep_view(),
        }
    }
}

impl View for LogicalVolume {
    type V = LogicalVolumeView;

    open spec fn view(&self) -> LogicalVolumeView {
        self.deep_view()
    }
}

impl Item for LogicalVolume {
    fn same(&self, other: &Self) -> (r: bool) {
        self.name.same(&other.name)
            && self.size.same(&other.size)
            && self.file_system_type.same(&other.file_system_type)
            && self.update.same(&other.update)
            && self.mount_point.same(&other.mount_point)
    }

    fn duplicate(&self) -> (r: Self) {
        LogicalVolume {
            name: self.name.duplicate(),
            size: self.size.duplicate(),
            file_system_type: self.file_system_type.duplicate(),
            update: self.update.duplicate(),
            mount_point: self.mount_point.duplicate(),
        }
    }
}

/// A volume group and its logical volumes.
#[derive(Debug, PartialEq, Eq, Clone)]
pub struct VolumeGroup {
    /// The name of the group.
    pub name: String,
    /// The volumes, in the order in which they are made.
    pub logical_volumes: Vec<LogicalVolume>,
}

/// The model of [`VolumeGroup`].
pub struct VolumeGroupView {
    pub name: Seq<char>,
    pub logical_volumes: Seq<LogicalVolumeView>,
}

impl DeepView for VolumeGroup {
    type V = VolumeGroupView;

    open spec fn deep_view(&self) -> VolumeGroupView {
        VolumeGroupView {
            name: self.name.deep_view(),
            logical_volumes: self.logical_volumes.deep_view(),
        }
    }
}

impl View for VolumeGroup {
    type V = VolumeGroupView;

    open spec fn view(&self) -> VolumeGroupView {
        self.deep_view()
    }
}

impl Item for VolumeGroup {
    fn same(&self, other: &Self) -> (r: bool) {
        self.name.same(&other.name)
            && self.logical_volumes.same(&other.logical_volumes)
    }

    fn duplicate(&self) -> (r: Self) {
        VolumeGroup {
            name: self.name.duplicate(),
            logical_volumes: self.logical_volumes.duplicate(),
        }
    }
}

/// The layout of the disks.
#[derive(Debug, PartialEq, Eq, Clone)]
pub struct Partitioning {
    /// Whether another system shares the machine.
    pub dual: Option<bool>,
    /// The disks.
    pub disks: Option<Vec<Disk>>,
    /// The volume groups.
    pub volume_groups: Option<Vec<VolumeGroup>>,
}

/// The model of [`Partitioning`].
pub struct PartitioningView {
    pub dual: Option<bool>,
    pub disks: Option<Seq<DiskView>>,
    pub volume_groups: Option<Seq<VolumeGroupView>>,
}

impl DeepView for Partitioning {
    type V = PartitioningView;

    open spec fn deep_view(&self) -> PartitioningView {
        PartitioningView {
            dual: self.dual.deep_view(),
            disks: self.disks.deep_view(),
            volume_groups: self.volume_groups.deep_view(),
        }
    }
}

impl View for Partitioning {
    type V = PartitioningView;

    open spec fn view(&self) -> PartitioningView {
        self.deep_view()
    }
}

impl Item for Partitioning {
    fn same(&self, other: &Self) -> (r: bool) {
        self.dual.same(&other.dual)
            && self.disks.same(&other.disks)
            && self.volume_groups.same(&other.volume_groups)
    }

    fn duplicate(&self) -> (r: Self) {
        Partitioning {
            dual: self.dual.duplicate(),
            disks: self.disks.duplicate(),
            volume_groups: self.volume_groups.duplicate(),
        }
    }
}

/// The logical volumes, as parallel lists.
#[derive(Debug, PartialEq, Eq, Clone)]
pub struct Lvm {
    /// The group of each volume.
    pub volume_groups: Option<Vec<String>>,
    /// The name of each volume.
    pub logical_volumes: Option<Vec<String>>,
    /// The size of each volume.
    pub sizes: Option<Vec<String>>,
    /// The file system of each volume.
    pub file_system_type: Option<Vec<String>>,
    /// The mount point of each volume.
    pub mount_points: Option<Vec<String>>,
    /// The rank in which each volume is mounted.
    pub hierarchy: Option<Vec<i8>>,
    /// Whether each volume is made anew on an update.
    pub update: Option<Vec<bool>>,
}

/// The model of [`Lvm`].
pub struct LvmView {
    pub volume_groups: Option<Seq<Seq<char>>>,
    pub logical_volumes: Option<Seq<Seq<char>>>,
    pub sizes: Option<Seq<Seq<char>>>,
    pub file_system_type: Option<Seq<Seq<char>>>,
    pub mount_points: Option<Seq<Seq<char>>>,
    pub hierarchy: Option<Seq<i8>>,
    pub update: Option<Seq<bool>>,
}

impl DeepView for Lvm {
    type V = LvmView;

    open spec fn deep_view(&self) -> LvmView {
        LvmView {
            volume_groups: self.volume_groups.deep_view(),
            logical_volumes: self.logical_volumes.deep_view(),
            sizes: self.sizes.deep_view(),
            file_system_type: self.file_system_type.deep_view(),
            mount_points: self.mount_points.deep_view(),
            hierarchy: self.hierarchy.deep_view(),
            update: self.update.deep_view(),
        }
    }
}

impl View for Lvm {
    type V = LvmView;

    open spec fn view(&self) -> LvmView {
        self.deep_view()
    }
}

impl Item for Lvm {
    fn same(&self, other: &Self) -> (r: bool) {
        self.volume_groups.same(&other.volume_groups)
            && self.logical_volumes.same(&other.logical_volumes)
            && self.sizes.same(&other.sizes)
            && self.file_system_type.same(&other.file_system_type)
            && self.mount_points.same(&other.mount_points)
            && self.hierarchy.same(&other.hierarchy)
            && self.update.same(&other.update)
    }

    fn duplicate(&self) -> (r: Self) {
        Lvm {
            volume_groups: self.volume_groups.duplicate(),
            logical_volumes: self.logical_volumes.duplicate(),
            sizes: self.sizes.duplicate(),
            file_system_type: self.file_system_type.duplicate(),
            mount_points: self.mount_points.duplicate(),
            hierarchy: self.hierarchy.duplicate(),
            update: self.update.duplicate(),
        }
    }
}

/// A package that is installed by a command of its own.
#[derive(Debug, PartialEq, Eq, Clone)]
pub struct ManualInstallPackages {
    /// The name of the package.
    pub name: String,
    /// A command that succeeds when the package is installed.
    pub check: String,
    /// The command that installs the package.
    pub command: String,
    /// Whether the package is installed with elevated privilege.
    pub root: bool,
}

/// The model of [`ManualInstallPackages`].
pub struct ManualInstallPackagesView {
    pub name: Seq<char>,
    pub check: Seq<char>,
    pub command: Seq<char>,
    pub root: bool,
}

impl DeepView for ManualInstallPackages {
    type V = ManualInstallPackagesView;

    open spec fn deep_view(&self) -> ManualInstallPackagesView {
        ManualInstallPackagesView {
            name: self.name.deep_view(),
            check: self.check.deep_view(),
            command: self.command.deep_view(),
            root: self.root.deep_view(),
        }
    }
}

impl View for ManualInstallPackages {
    type V = ManualInstallPackagesView;

    open spec fn view(&self) -> ManualInstallPackagesView {
        self.deep_view()
    }
}

impl Item for ManualInstallPackages {
    fn same(&self, other: &Self) -> (r: bool) {
        self.name.same(&other.name)
            && self.check.same(&other.check)
            && self.command.same(&other.command)
            && self.root.same(&other.root)
    }

    fn duplicate(&self) -> (r: Self) {
        ManualInstallPackages {
            name: self.name.duplicate(),
            check: self.check.duplicate(),
            command: self.command.duplicate(),
            root: self.root.duplicate(),
        }
    }
}

/// The installed packages.
#[derive(Debug, PartialEq, Eq, Clone)]
pub struct Packages {
    /// Packages from the official repositories.
    pub pacman_packages: Option<Vec<String>>,
    /// Packages from the user repository.
    pub aur_packages: Option<Vec<String>>,
    /// Packages installed by hand.
    pub manual_install_packages: Option<Vec<ManualInstallPackages>>,
}

/// The model of [`Packages`].
pub struct PackagesView {
    pub pacman_packages: Option<Seq<Seq<char>>>,
    pub aur_packages: Option<Seq<Seq<char>>>,
    pub manual_install_packages: Option<Seq<ManualInstallPackagesView>>,
}

impl DeepView for Packages {
    type V = PackagesView;

    open spec fn deep_view(&self) -> PackagesView {
        PackagesView {
            pacman_packages: self.pacman_packages.deep_view(),
            aur_packages: self.aur_packages.deep_view(),
            manual_install_packages: self.manual_install_packages.deep_view(),
        }
    }
}

impl View for Packages {
    type V = PackagesView;

    open spec fn view(&self) -> PackagesView {
        self.deep_view()
    }
}

impl PackagesView {
    /// The record in which every field is absent.
    pub open spec fn absent() -> PackagesView {
        PackagesView {
            pacman_packages: None,
            aur_packages: None,
            manual_install_packages: None,
        }
    }
}

impl Packages {
    /// The record in which every field is absent.
    pub fn absent() -> (record: Packages)
        ensures
            record@ == PackagesView::absent(),
    {
        Packages {
            pacman_packages: None,
            aur_packages: None,
            manual_install_packages: None,
        }
    }
}

impl Item for Packages {
    fn same(&self, other: &Self) -> (r: bool) {
        self.pacman_packages.same(&other.pacman_packages)
            && self.aur_packages.same(&other.aur_packages)
            && self.manual_install_packages.same(&other.manual_install_packages)
    }

    fn duplicate(&self) -> (r: Self) {
        Packages {
            pacman_packages: self.pacman_packages.duplicate(),
            aur_packages: self.aur_packages.duplicate(),
            manual_install_packages: self.manual_install_packages.duplicate(),
        }
    }
}

/// The enabled services.
#[derive(Debug, PartialEq, Eq, Clone)]
pub struct Services {
    /// Services of the user session.
    pub user_services: Option<Vec<String>>,
    /// Services of the system.
    pub services: Option<Vec<String>>,
}

/// The model of [`Services`].
pub struct ServicesView {
    pub user_services: Option<Seq<Seq<char>>>,
    pub services: Option<Seq<Seq<char>>>,
}

impl DeepView for Services {
    type V = ServicesView;

    open spec fn deep_view(&self) -> ServicesView {
        ServicesView {
            user_services: self.user_services.deep_view(),
            services: self.services.deep_view(),
        }
    }
}

impl View for Services {
    type V = ServicesView;

    open spec fn view(&self) -> ServicesView {
        self.deep_view()
    }
}

impl ServicesView {
    /// The record in which every field is absent.
    pub open spec fn absent() -> ServicesView {
        ServicesView {
            user_services: None,
            services: None,
        }
    }
}

impl Services {
    /// The record in which every field is absent.
    pub fn absent() -> (record: Services)
        ensures
            record@ == ServicesView::absent(),
    {
        Services {
            user_services: None,
            services: None,
        }
    }
}

impl Item for Services {
    fn same(&self, other: &Self) -> (r: bool) {
        self.user_services.same(&other.user_services)
            && self.services.same(&other.services)
    }

    fn duplicate(&self) -> (r: Self) {
        Services {
            user_services: self.user_services.duplicate(),
            services: self.services.duplicate(),
        }
    }
}

/// A directory that belongs to a group.
#[derive(Debug, PartialEq, Eq, Clone)]
pub struct ReownDirs {
    /// The path of the directory.
    pub directory: String,
    /// The group that owns it.
    pub group: String,
}

/// The model of [`ReownDirs`].
pub struct ReownDirsView {
    pub directory: Seq<char>,
    pub group: Seq<char>,
}

impl DeepView for ReownDirs {
    type V = ReownDirsView;

    open spec fn deep_view(&self) -> ReownDirsView {
        ReownDirsView {
            directory: self.directory.deep_view(),
            group: self.group.deep_view(),
        }
    }
}

impl View for ReownDirs {
    type V = ReownDirsView;

    open spec fn view(&self) -> ReownDirsView {
        self.deep_view()
    }
}

impl Item for ReownDirs {
    fn same(&self, other: &Self) -> (r: bool) {
        self.directory.same(&other.directory)
            && self.group.same(&other.group)
    }

    fn duplicate(&self) -> (r: Self) {
        ReownDirs {
            directory: self.directory.duplicate(),
            group: self.group.duplicate(),
        }
    }
}

/// A directory whose entries are linked into another.
#[derive(Debug, PartialEq, Eq, Clone)]
pub struct Links {
    /// The directory that holds the entries.
    pub origin: String,
    /// The directory that receives the links.
    pub destination: String,
    /// Whether the links are made with elevated privilege.
    pub root: bool,
}

/// The model of [`Links`].
pub struct LinksView {
    pub origin: Seq<char>,
    pub destination: Seq<char>,
    pub root: bool,
}

impl DeepView for Links {
    type V = LinksView;

    open spec fn deep_view(&self) -> LinksView {
        LinksView {
            origin: self.origin.deep_view(),
            destination: self.destination.deep_view(),
            root: self.root.deep_view(),
        }
    }
}

impl View for Links {
    type V = LinksView;

    open spec fn view(&self) -> LinksView {
        self.deep_view()
    }
}

impl Item for Links {
    fn same(&self, other: &Self) -> (r: bool) {
        self.origin.same(&other.origin)
            && self.destination.same(&other.destination)
            && self.root.same(&other.root)
    }

    fn duplicate(&self) -> (r: Self) {
        Links {
            origin: self.origin.duplicate(),
            destination: self.destination.duplicate(),
            root: self.root.duplicate(),
        }
    }
}

/// A directory that has to exist.
#[derive(Debug, PartialEq, Eq, Clone)]
pub struct CreateDirs {
    /// The path of the directory.
    pub path: String,
    /// Whether the directory is made with elevated privilege.
    pub root: bool,
}

/// The model of [`CreateDirs`].
pub struct CreateDirsView {
    pub path: Seq<char>,
    pub root: bool,
}

impl DeepView for CreateDirs {
    type V = CreateDirsView;

    open spec fn deep_view(&self) -> CreateDirsView {
        CreateDirsView {
            path: self.path.deep_view(),
            root: self.root.deep_view(),
        }
    }
}

impl View for CreateDirs {
    type V = CreateDirsView;

    open spec fn view(&self) -> CreateDirsView {
        self.deep_view()
    }
}

impl Item for CreateDirs {
    fn same(&self, other: &Self) -> (r: bool) {
        self.path.same(&other.path)
            && self.root.same(&other.root)
    }

    fn duplicate(&self) -> (r: Self) {
        CreateDirs {
            path: self.path.duplicate(),
            root: self.root.duplicate(),
        }
    }
}

/// The directories and links.
#[derive(Debug, PartialEq, Eq, Clone)]
pub struct Directories {
    /// Directories with a given group.
    pub reown_dirs: Option<Vec<ReownDirs>>,
    /// Linked directories.
    pub links: Option<Vec<Links>>,
    /// Directories that have to exist.
    pub create_dirs: Option<Vec<CreateDirs>>,
}

/// The model of [`Directories`].
pub struct DirectoriesView {
    pub reown_dirs: Option<Seq<ReownDirsView>>,
    pub links: Option<Seq<LinksView>>,
    pub create_dirs: Option<Seq<CreateDirsView>>,
}

impl DeepView for Directories {
    type V = DirectoriesView;

    open spec fn deep_view(&self) -> DirectoriesView {
        DirectoriesView {
            reown_dirs: self.reown_dirs.deep_view(),
            links: self.links.deep_view(),
            create_dirs: self.create_dirs.deep_view(),
        }
    }
}

impl View for Directories {
    type V = DirectoriesView;

    open spec fn view(&self) -> DirectoriesView {
        self.deep_view()
    }
}

impl DirectoriesView {
    /// The record in which every field is absent.
    pub open spec fn absent() -> DirectoriesView {
        DirectoriesView {
            reown_dirs: None,
            links: None,
            create_dirs: None,
        }
    }
}

impl Directories {
    /// The record in which every field is absent.
    pub fn absent() -> (record: Directories)
        ensures
            record@ == DirectoriesView::absent(),
    {
        Directories {
            reown_dirs: None,
            links: None,
            create_dirs: None,
        }
    }
}

impl Item for Directories {
    fn same(&self, other: &Self) -> (r: bool) {
        self.reown_dirs.same(&other.reown_dirs)
            && self.links.same(&other.links)
            && self.create_dirs.same(&other.create_dirs)
    }

    fn duplicate(&self) -> (r: Self) {
        Directories {
            reown_dirs: self.reown_dirs.duplicate(),
            links: self.links.duplicate(),
            create_dirs: self.create_dirs.duplicate(),
        }
    }
}

/// The configuration of the boot loader.
#[derive(Debug, PartialEq, Eq, Clone)]
pub struct Grub {
    /// The kernel parameters of a normal boot.
    pub grub_cmdline_linux_default: Option<Vec<String>>,
}

/// The model of [`Grub`].
pub struct GrubView {
    pub grub_cmdline_linux_default: Option<Seq<Seq<char>>>,
}

impl DeepView for Grub {
    type V = GrubView;

    open spec fn deep_view(&self) -> GrubView {
        GrubView {
            grub_cmdline_linux_default: self.grub_cmdline_linux_default.deep_view(),
        }
    }
}

impl View for Grub {
    type V = GrubView;

    open spec fn view(&self) -> GrubView {
        self.deep_view()
    }
}

impl GrubView {
    /// The record in which every field is absent.
    pub open spec fn absent() -> GrubView {
        GrubView {
            grub_cmdline_linux_default: None,
        }
    }
}

impl Grub {
    /// The record in which every field is absent.
    pub fn absent() -> (record: Grub)
        ensures
            record@ == GrubView::absent(),
    {
        Grub {
            grub_cmdline_linux_default: None,
        }
    }
}

impl Item for Grub {
    fn same(&self, other: &Self) -> (r: bool) {
        self.grub_cmdline_linux_default.same(&other.grub_cmdline_linux_default)
    }

    fn duplicate(&self) -> (r: Self) {
        Grub {
            grub_cmdline_linux_default: self.grub_cmdline_linux_default.duplicate(),
        }
    }
}

/// The configuration of the initial ramdisk.
#[derive(Debug, PartialEq, Eq, Clone)]
pub struct Mkinitcpio {
    /// The kernel modules.
    pub modules: Option<Vec<String>>,
    /// The build hooks.
    pub hooks: Option<Vec<String>>,
}

/// The model of [`Mkinitcpio`].
pub struct MkinitcpioView {
    pub modules: Option<Seq<Seq<char>>>,
    pub hooks: Option<Seq<Seq<char>>>,
}

impl DeepView for Mkinitcpio {
    type V = MkinitcpioView;

    open spec fn deep_view(&self) -> MkinitcpioView {
        MkinitcpioView {
            modules: self.modules.deep_view(),
            hooks: self.hooks.deep_view(),
        }
    }
}

impl View for Mkinitcpio {
    type V = MkinitcpioView;

    open spec fn view(&self) -> MkinitcpioView {
        self.deep_view()
    }
}

impl MkinitcpioView {
    /// The record in which every field is absent.
    pub open spec fn absent() -> MkinitcpioView {
        MkinitcpioView {
            modules: None,
            hooks: None,
        }
    }
}

impl Mkinitcpio {
    /// The record in which every field is absent.
    pub fn absent() -> (record: Mkinitcpio)
        ensures
            record@ == MkinitcpioView::absent(),
    {
        Mkinitcpio {
            modules: None,
            hooks: None,
        }
    }
}

impl Item for Mkinitcpio {
    fn same(&self, other: &Self) -> (r: bool) {
        self.modules.same(&other.modules)
            && self.hooks.same(&other.hooks)
    }

    fn duplicate(&self) -> (r: Self) {
        Mkinitcpio {
            modules: self.modules.duplicate(),
            hooks: self.hooks.duplicate(),
        }
    }
}

/// The firewall.
#[derive(Debug, PartialEq, Eq, Clone)]
pub struct Ufw {
    /// The default policy for incoming traffic.
    pub incoming: Option<String>,
    /// The default policy for outgoing traffic.
    pub outgoing: Option<String>,
    /// What is allowed in.
    pub rules: Option<Vec<String>>,
}

/// The model of [`Ufw`].
pub struct UfwView {
    pub incoming: Option<Seq<char>>,
    pub outgoing: Option<Seq<char>>,
    pub rules: Option<Seq<Seq<char>>>,
}

impl DeepView for Ufw {
    type V = UfwView;

    open spec fn deep_view(&self) -> UfwView {
        UfwView {
            incoming: self.incoming.deep_view(),
            outgoing: self.outgoing.deep_view(),
            rules: self.rules.deep_view(),
        }
    }
}

impl View for Ufw {
    type V = UfwView;

    open spec fn view(&self) -> UfwView {
        self.deep_view()
    }
}

impl UfwView {
    /// The record in which every field is absent.
    pub open spec fn absent() -> UfwView {
        UfwView {
            incoming: None,
            outgoing: None,
            rules: None,
        }
    }
}

impl Ufw {
    /// The record in which every field is absent.
    pub fn absent() -> (record: Ufw)
        ensures
            record@ == UfwView::absent(),
    {
        Ufw {
            incoming: None,
            outgoing: None,
            rules: None,
        }
    }
}

impl Item for Ufw {
    fn same(&self, other: &Self) -> (r: bool) {
        self.incoming.same(&other.incoming)
            && self.outgoing.same(&other.outgoing)
            && self.rules.same(&other.rules)
    }

    fn duplicate(&self) -> (r: Self) {
        Ufw {
            incoming: self.incoming.duplicate(),
            outgoing: self.outgoing.duplicate(),
            rules: self.rules.duplicate(),
        }
    }
}

/// The intrusion prevention policy.
#[derive(Debug, PartialEq, Eq, Clone)]
pub struct Fail2Ban {
    /// The addresses that are never banned.
    pub ignoreip: Option<String>,
    /// How long a ban lasts.
    pub bantime: Option<usize>,
    /// The window in which failures are counted.
    pub findtime: Option<usize>,
    /// How many failures lead to a ban.
    pub maxretry: Option<usize>,
    /// The services that are watched.
    pub services: Option<Vec<String>>,
}

/// The model of [`Fail2Ban`].
pub struct Fail2BanView {
    pub ignoreip: Option<Seq<char>>,
    pub bantime: Option<usize>,
    pub findtime: Option<usize>,
    pub maxretry: Option<usize>,
    pub services: Option<Seq<Seq<char>>>,
}

impl DeepView for Fail2Ban {
    type V = Fail2BanView;

    open spec fn deep_view(&self) -> Fail2BanView {
        Fail2BanView {
            ignoreip: self.ignoreip.deep_view(),
            bantime: self.bantime.deep_view(),
            findtime: self.findtime.deep_view(),
            maxretry: self.maxretry.deep_view(),
            services: self.services.deep_view(),
        }
    }
}

impl View for Fail2Ban {
    type V = Fail2BanView;

    open spec fn view(&self) -> Fail2BanView {
        self.deep_view()
    }
}

impl Fail2BanView {
    /// The record in which every field is absent.
    pub open spec fn absent() -> Fail2BanView {
        Fail2BanView {
            ignoreip: None,
            bantime: None,
            findtime: None,
            maxretry: None,
            services: None,
        }
    }
}

impl Fail2Ban {
    /// The record in which every field is absent.
    pub fn absent() -> (record: Fail2Ban)
        ensures
            record@ == Fail2BanView::absent(),
    {
        Fail2Ban {
            ignoreip: None,
            bantime: None,
            findtime: None,
            maxretry: None,
            services: None,
        }
    }
}

impl Item for Fail2Ban {
    fn same(&self, other: &Self) -> (r: bool) {
        self.ignoreip.same(&other.ignoreip)
            && self.bantime.same(&other.bantime)
            && self.findtime.same(&other.findtime)
            && self.maxretry.same(&other.maxretry)
            && self.services.same(&other.services)
    }

    fn duplicate(&self) -> (r: Self) {
        Fail2Ban {
            ignoreip: self.ignoreip.duplicate(),
            bantime: self.bantime.duplicate(),
            findtime: self.findtime.duplicate(),
            maxretry: self.maxretry.duplicate(),
            services: self.services.duplicate(),
        }
    }
}

/// A repository to clone.
#[derive(Debug, PartialEq, Eq, Clone)]
pub struct GitDownload {
    /// Where the repository is.
    pub url: String,
    /// The directory to clone it into.
    pub path: String,
    /// Whether it is cloned with elevated privilege.
    pub root: bool,
}

/// The model of [`GitDownload`].
pub struct GitDownloadView {
    pub url: Seq<char>,
    pub path: Seq<char>,
    pub root: bool,
}

impl DeepView for GitDownload {
    type V = GitDownloadView;

    open spec fn deep_view(&self) -> GitDownloadView {
        GitDownloadView {
            url: self.url.deep_view(),
            path: self.path.deep_view(),
            root: self.root.deep_view(),
        }
    }
}

impl View for GitDownload {
    type V = GitDownloadView;

    open spec fn view(&self) -> GitDownloadView {
        self.deep_view()
    }
}

impl Item for GitDownload {
    fn same(&self, other: &Self) -> (r: bool) {
        self.url.same(&other.url)
            && self.path.same(&other.path)
            && self.root.same(&other.root)
    }

    fn duplicate(&self) -> (r: Self) {
        GitDownload {
            url: self.url.duplicate(),
            path: self.path.duplicate(),
            root: self.root.duplicate(),
        }
    }
}

/// A file to download.
#[derive(Debug, PartialEq, Eq, Clone)]
pub struct CurlDownload {
    /// Where the file is.
    pub url: String,
    /// The directory to put it into.
    pub path: String,
    /// The name to store it under.
    pub file_name: String,
    /// Whether it is downloaded with elevated privilege.
    pub root: bool,
}

/// The model of [`CurlDownload`].
pub struct CurlDownloadView {
    pub url: Seq<char>,
    pub path: Seq<char>,
    pub file_name: Seq<char>,
    pub root: bool,
}

impl DeepView for CurlDownload {
    type V = CurlDownloadView;

    open spec fn deep_view(&self) -> CurlDownloadView {
        CurlDownloadView {
            url: self.url.deep_view(),
            path: self.path.deep_view(),
            file_name: self.file_name.deep_view(),
            root: self.root.deep_view(),
        }
    }
}

impl View for CurlDownload {
    type V = CurlDownloadView;

    open spec fn view(&self) -> CurlDownloadView {
        self.deep_view()
    }
}

impl Item for CurlDownload {
    fn same(&self, other: &Self) -> (r: bool) {
        self.url.same(&other.url)
            && self.path.same(&other.path)
            && self.file_name.same(&other.file_name)
            && self.root.same(&other.root)
    }

    fn duplicate(&self) -> (r: Self) {
        CurlDownload {
            url: self.url.duplicate(),
            path: self.path.duplicate(),
            file_name: self.file_name.duplicate(),
            root: self.root.duplicate(),
        }
    }
}

/// An archive to unpack.
#[derive(Debug, PartialEq, Eq, Clone)]
pub struct Unzip {
    /// The archive, without its extension; also where it is unpacked.
    pub path: String,
    /// Whether it is unpacked with elevated privilege.
    pub root: bool,
}

/// The model of [`Unzip`].
pub struct UnzipView {
    pub path: Seq<char>,
    pub root: bool,
}

impl DeepView for Unzip {
    type V = UnzipView;

    open spec fn deep_view(&self) -> UnzipView {
        UnzipView {
            path: self.path.deep_view(),
            root: self.root.deep_view(),
        }
    }
}

impl View for Unzip {
    type V = UnzipView;

    open spec fn view(&self) -> UnzipView {
        self.deep_view()
    }
}

impl Item for Unzip {
    fn same(&self, other: &Self) -> (r: bool) {
        self.path.same(&other.path)
            && self.root.same(&other.root)
    }

    fn duplicate(&self) -> (r: Self) {
        Unzip {
            path: self.path.duplicate(),
            root: self.root.duplicate(),
        }
    }
}

/// What is fetched from the network.
#[derive(Debug, PartialEq, Eq, Clone)]
pub struct Downloads {
    /// Repositories.
    pub git: Option<Vec<GitDownload>>,
    /// Files.
    pub curl: Option<Vec<CurlDownload>>,
    /// Archives.
    pub unzip: Option<Vec<Unzip>>,
}

/// The model of [`Downloads`].
pub struct DownloadsView {
    pub git: Option<Seq<GitDownloadView>>,
    pub curl: Option<Seq<CurlDownloadView>>,
    pub unzip: Option<Seq<UnzipView>>,
}

impl DeepView for Downloads {
    type V = DownloadsView;

    open spec fn deep_view(&self) -> DownloadsView {
        DownloadsView {
            git: self.git.deep_view(),
            curl: self.curl.deep_view(),
            unzip: self.unzip.deep_view(),
        }
    }
}

impl View for Downloads {
    type V = DownloadsView;

    open spec fn view(&self) -> DownloadsView {
        self.deep_view()
    }
}

impl DownloadsView {
    /// The record in which every field is absent.
    pub open spec fn absent() -> DownloadsView {
        DownloadsView {
            git: None,
            curl: None,
            unzip: None,
        }
    }
}

impl Downloads {
    /// The record in which every field is absent.
    pub fn absent() -> (record: Downloads)
        ensures
            record@ == DownloadsView::absent(),
    {
        Downloads {
            git: None,
            curl: None,
            unzip: None,
        }
    }
}

impl Item for Downloads {
    fn same(&self, other: &Self) -> (r: bool) {
        self.git.same(&other.git)
            && self.curl.same(&other.curl)
            && self.unzip.same(&other.unzip)
    }

    fn duplicate(&self) -> (r: Self) {
        Downloads {
            git: self.git.duplicate(),
            curl: self.curl.duplicate(),
            unzip: self.unzip.duplicate(),
        }
    }
}

/// A monitor and the workspaces shown on it.
#[derive(Debug, PartialEq, Eq, Clone)]
pub struct MonitorStruct {
    /// The connector, such as `DP-1`.
    pub connection: String,
    /// The resolution, such as `1920x1080`.
    pub resolution: String,
    /// The refresh rate.
    pub refreshrate: String,
    /// The position in the layout.
    pub position: String,
    /// The scale factor, in decimal notation.
    pub scale: String,
    /// The workspaces bound to the monitor.
    pub workspaces: Vec<u8>,
}

/// The model of [`MonitorStruct`].
pub struct MonitorStructView {
    pub connection: Seq<char>,
    pub resolution: Seq<char>,
    pub refreshrate: Seq<char>,
    pub position: Seq<char>,
    pub scale: Seq<char>,
    pub workspaces: Seq<u8>,
}

impl DeepView for MonitorStruct {
    type V = MonitorStructView;

    open spec fn deep_view(&self) -> MonitorStructView {
        MonitorStructView {
            connection: self.connection.deep_view(),
            resolution: self.resolution.deep_view(),
            refreshrate: self.refreshrate.deep_view(),
            position: self.position.deep_view(),
            scale: self.scale.deep_view(),
            workspaces: self.workspaces.deep_view(),
        }
    }
}

impl View for MonitorStruct {
    type V = MonitorStructView;

    open spec fn view(&self) -> MonitorStructView {
        self.deep_view()
    }
}

impl Item for MonitorStruct {
    fn same(&self, other: &Self) -> (r: bool) {
        self.connection.same(&other.connection)
            && self.resolution.same(&other.resolution)
            && self.refreshrate.same(&other.refreshrate)
            && self.position.same(&other.position)
            && self.scale.same(&other.scale)
            && self.workspaces.same(&other.workspaces)
    }

    fn duplicate(&self) -> (r: Self) {
        MonitorStruct {
            connection: self.connection.duplicate(),
            resolution: self.resolution.duplicate(),
            refreshrate: self.refreshrate.duplicate(),
            position: self.position.duplicate(),
            scale: self.scale.duplicate(),
            workspaces: self.workspaces.duplicate(),
        }
    }
}

/// The monitor layout.
#[derive(Debug, PartialEq, Eq, Clone)]
pub struct Monitor {
    /// The monitors.
    pub monitors: Option<Vec<MonitorStruct>>,
}

/// The model of [`Monitor`].
pub struct MonitorView {
    pub monitors: Option<Seq<MonitorStructView>>,
}

impl DeepView for Monitor {
    type V = MonitorView;

    open spec fn deep_view(&self) -> MonitorView {
        MonitorView {
            monitors: self.monitors.deep_view(),
        }
    }
}

impl View for Monitor {
    type V = MonitorView;

    open spec fn view(&self) -> MonitorView {
        self.deep_view()
    }
}

impl MonitorView {
    /// The record in which every field is absent.
    pub open spec fn absent() -> MonitorView {
        MonitorView {
            monitors: None,
        }
    }
}

impl Monitor {
    /// The record in which every field is absent.
    pub fn absent() -> (record: Monitor)
        ensures
            record@ == MonitorView::absent(),
    {
        Monitor {
            monitors: None,
        }
    }
}

impl Item for Monitor {
    fn same(&self, other: &Self) -> (r: bool) {
        self.monitors.same(&other.monitors)
    }

    fn duplicate(&self) -> (r: Self) {
        Monitor {
            monitors: self.monitors.duplicate(),
        }
    }
}

/// A file with a given content.
#[derive(Debug, PartialEq, Eq, Clone)]
pub struct TextToFile {
    /// The content.
    pub write: String,
    /// The directory of the file.
    pub path: String,
    /// The name of the file.
    pub file_name: String,
    /// Whether the file is written with elevated privilege.
    pub root: bool,
}

/// The model of [`TextToFile`].
pub struct TextToFileView {
    pub write: Seq<char>,
    pub path: Seq<char>,
    pub file_name: Seq<char>,
    pub root: bool,
}

impl DeepView for TextToFile {
    type V = TextToFileView;

    open spec fn deep_view(&self) -> TextToFileView {
        TextToFileView {
            write: self.write.deep_view(),
            path: self.path.deep_view(),
            file_name: self.file_name.deep_view(),
            root: self.root.deep_view(),
        }
    }
}

impl View for TextToFile {
    type V = TextToFileView;

    open spec fn view(&self) -> TextToFileView {
        self.deep_view()
    }
}

impl Item for TextToFile {
    fn same(&self, other: &Self) -> (r: bool) {
        self.write.same(&other.write)
            && self.path.same(&other.path)
            && self.file_name.same(&other.file_name)
            && self.root.same(&other.root)
    }

    fn duplicate(&self) -> (r: Self) {
        TextToFile {
            write: self.write.duplicate(),
            path: self.path.duplicate(),
            file_name: self.file_name.duplicate(),
            root: self.root.duplicate(),
        }
    }
}

/// The text files.
#[derive(Debug, PartialEq, Eq, Clone)]
pub struct Files {
    /// The files.
    pub files: Option<Vec<TextToFile>>,
}

/// The model of [`Files`].
pub struct FilesView {
    pub files: Option<Seq<TextToFileView>>,
}

impl DeepView for Files {
    type V = FilesView;

    open spec fn deep_view(&self) -> FilesView {
        FilesView {
            files: self.files.deep_view(),
        }
    }
}

impl View for Files {
    type V = FilesView;

    open spec fn view(&self) -> FilesView {
        self.deep_view()
    }
}

impl FilesView {
    /// The record in which every field is absent.
    pub open spec fn absent() -> FilesView {
        FilesView {
            files: None,
        }
    }
}

impl Files {
    /// The record in which every field is absent.
    pub fn absent() -> (record: Files)
        ensures
            record@ == FilesView::absent(),
    {
        Files {
            files: None,
        }
    }
}

impl Item for Files {
    fn same(&self, other: &Self) -> (r: bool) {
        self.files.same(&other.files)
    }

    fn duplicate(&self) -> (r: Self) {
        Files {
            files: self.files.duplicate(),
        }
    }
}

/// The shell settings.
#[derive(Debug, PartialEq, Eq, Clone)]
pub struct Shell {
    /// The login shell.
    pub default_shell: Option<String>,
}

/// The model of [`Shell`].
pub struct ShellView {
    pub default_shell: Option<Seq<char>>,
}

impl DeepView for Shell {
    type V = ShellView;

    open spec fn deep_view(&self) -> ShellView {
        ShellView {
            default_shell: self.default_shell.deep_view(),
        }
    }
}

impl View for Shell {
    type V = ShellView;

    open spec fn view(&self) -> ShellView {
        self.deep_view()
    }
}

impl ShellView {
    /// The record in which every field is absent.
    pub open spec fn absent() -> ShellView {
        ShellView {
            default_shell: None,
        }
    }
}

impl Shell {
    /// The record in which every field is absent.
    pub fn absent() -> (record: Shell)
        ensures
            record@ == ShellView::absent(),
    {
        Shell {
            default_shell: None,
        }
    }
}

impl Item for Shell {
    fn same(&self, other: &Self) -> (r: bool) {
        self.default_shell.same(&other.default_shell)
    }

    fn duplicate(&self) -> (r: Self) {
        Shell {
            default_shell: self.default_shell.duplicate(),
        }
    }
}

/// The whole desired state of a machine, one record for each domain.
#[derive(Debug, PartialEq, Eq, Clone)]
pub struct CargoToml {
    pub keyboard: Keyboard,
    pub time: Time,
    pub language: Language,
    pub system: System,
    pub shell: Shell,
    pub users: Users,
    pub pacman: Pacman,
    pub partitioning: Partitioning,
    pub lvm: Lvm,
    pub packages: Packages,
    pub services: Services,
    pub directories: Directories,
    pub grub: Grub,
    pub mkinitcpio: Mkinitcpio,
    pub ufw: Ufw,
    pub fail2ban: Fail2Ban,
    pub downloads: Downloads,
    pub monitor: Monitor,
    pub files: Files,
}

/// The model of [`CargoToml`].
pub struct CargoTomlView {
    pub keyboard: KeyboardView,
    pub time: TimeView,
    pub language: LanguageView,
    pub system: SystemView,
    pub shell: ShellView,
    pub users: UsersView,
    pub pacman: PacmanView,
    pub partitioning: PartitioningView,
    pub lvm: LvmView,
    pub packages: PackagesView,
    pub services: ServicesView,
    pub directories: DirectoriesView,
    pub grub: GrubView,
    pub mkinitcpio: MkinitcpioView,
    pub ufw: UfwView,
    pub fail2ban: Fail2BanView,
    pub downloads: DownloadsView,
    pub monitor: MonitorView,
    pub files: FilesView,
}

impl DeepView for CargoToml {
    type V = CargoTomlView;

    open spec fn deep_view(&self) -> CargoTomlView {
        CargoTomlView {
            keyboard: self.keyboard.deep_view(),
            time: self.time.deep_view(),
            language: self.language.deep_view(),
            system: self.system.deep_view(),
            shell: self.shell.deep_view(),
            users: self.users.deep_view(),
            pacman: self.pacman.deep_view(),
            partitioning: self.partitioning.deep_view(),
            lvm: self.lvm.deep_view(),
            packages: self.packages.deep_view(),
            services: self.services.deep_view(),
            directories: self.directories.deep_view(),
            grub: self.grub.deep_view(),
            mkinitcpio: self.mkinitcpio.deep_view(),
            ufw: self.ufw.deep_view(),
            fail2ban: self.fail2ban.deep_view(),
            downloads: self.downloads.deep_view(),
            monitor: self.monitor.deep_view(),
            files: self.files.deep_view(),
        }
    }
}

impl View for CargoToml {
    type V = CargoTomlView;

    open spec fn view(&self) -> CargoTomlView {
        self.deep_view()
    }
}

impl Item for CargoToml {
    fn same(&self, other: &Self) -> (r: bool) {
        self.keyboard.same(&other.keyboard)
            && self.time.same(&other.time)
            && self.language.same(&other.language)
            && self.system.same(&other.system)
            && self.shell.same(&other.shell)
            && self.users.same(&other.users)
            && self.pacman.same(&other.pacman)
            && self.partitioning.same(&other.partitioning)
            && self.lvm.same(&other.lvm)
            && self.packages.same(&other.packages)
            && self.services.same(&other.services)
            && self.directories.same(&other.directories)
            && self.grub.same(&other.grub)
            && self.mkinitcpio.same(&other.mkinitcpio)
            && self.ufw.same(&other.ufw)
            && self.fail2ban.same(&other.fail2ban)
            && self.downloads.same(&other.downloads)
            && self.monitor.same(&other.monitor)
            && self.files.same(&other.files)
    }

    fn duplicate(&self) -> (r: Self) {
        CargoToml {
            keyboard: self.keyboard.duplicate(),
            time: self.time.duplicate(),
            language: self.language.duplicate(),
            system: self.system.duplicate(),
            shell: self.shell.duplicate(),
            users: self.users.duplicate(),
            pacman: self.pacman.duplicate(),
            partitioning: self.partitioning.duplicate(),
            lvm: self.lvm.duplicate(),
            packages: self.packages.duplicate(),
            services: self.services.duplicate(),
            directories: self.directories.duplicate(),
            grub: self.grub.duplicate(),
            mkinitcpio: self.mkinitcpio.duplicate(),
            ufw: self.ufw.duplicate(),
            fail2ban: self.fail2ban.duplicate(),
            downloads: self.downloads.duplicate(),
            monitor: self.monitor.duplicate(),
            files: self.files.duplicate(),
        }
    }
}

} // verus!
