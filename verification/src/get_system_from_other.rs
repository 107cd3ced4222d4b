//! Comparing two configurations: the second one stands in for the observed
//! state, so that the delta tells how the first differs from it.

use vstd::prelude::*;
use crate::data_types::{
    DirectoriesDiff, DownloadsDiff, Fail2BanDiff, FilesDiff, GrubDiff, KeyboardDiff, LanguageDiff,
    MkinitcpioDiff, MonitorDiff, PackagesDiff, PacmanDiff, ServicesDiff, SystemDiff, TimeDiff,
    UfwDiff, UserDiff,
};
use crate::get_diff::{listed, normalize, present};
use crate::helper::ExecutionContext;
use crate::item::Item;
use crate::structure::{
    Directories, DirectoriesView, Downloads, DownloadsView, Fail2Ban, Fail2BanView, Files,
    FilesView, Grub, GrubView, Keyboard, KeyboardView, Language, LanguageView, Mkinitcpio,
    MkinitcpioView, Monitor, MonitorView, Packages, PackagesView, Pacman, PacmanView, Services,
    ServicesView, System, SystemView, Time, TimeView, Ufw, UfwView, Users, UsersView,
};

verus! {

/// Takes the observed state of a domain from another configuration instead
/// of the live system.
pub trait GetSystemFromOther<T>: Sized {
    /// Whether `after` is `before` with `other` standing in for the observed
    /// state in the given context; the desired state and the delta stay as
    /// they are.
    spec fn takes_over(before: Self, other: T, context: ExecutionContext, after: Self) -> bool;

    fn get_system_from_other(&mut self, other_config: &T, context: ExecutionContext)
        ensures
            Self::takes_over(*old(self), *other_config, context, *final(self)),
    ;
}

impl KeyboardView {
    /// The keyboard layout that another configuration stands for: its fields as
    /// they are, in either context.
    pub open spec fn taken_over(other: KeyboardView, context: ExecutionContext) -> KeyboardView {
        KeyboardView {
            keyboard_tty: other.keyboard_tty,
            mkinitcpio: other.mkinitcpio,
        }
    }
}

impl GetSystemFromOther<Keyboard> for KeyboardDiff {
    open spec fn takes_over(
        before: KeyboardDiff,
        other: Keyboard,
        context: ExecutionContext,
        after: KeyboardDiff,
    ) -> bool {
        &&& after.config == before.config
        &&& after.diff == before.diff
        &&& after.system@ == KeyboardView::taken_over(other@, context)
    }

    fn get_system_from_other(&mut self, other_config: &Keyboard, context: ExecutionContext) {
        self.system = Keyboard {
            keyboard_tty: other_config.keyboard_tty.duplicate(),
            mkinitcpio: other_config.mkinitcpio.duplicate(),
        };
    }
}

impl TimeView {
    /// The time settings that another configuration stands for: its fields as
    /// they are, in either context.
    pub open spec fn taken_over(other: TimeView, context: ExecutionContext) -> TimeView {
        TimeView {
            timezone: other.timezone,
        }
    }
}

impl GetSystemFromOther<Time> for TimeDiff {
    open spec fn takes_over(
        before: TimeDiff,
        other: Time,
        context: ExecutionContext,
        after: TimeDiff,
    ) -> bool {
        &&& after.config == before.config
        &&& after.diff == before.diff
        &&& after.system@ == TimeView::taken_over(other@, context)
    }

    fn get_system_from_other(&mut self, other_config: &Time, context: ExecutionContext) {
        self.system = Time {
            timezone: other_config.timezone.duplicate(),
        };
    }
}

impl LanguageView {
    /// The language settings that another configuration stands for: its fields as
    /// they are, in either context.
    pub open spec fn taken_over(other: LanguageView, context: ExecutionContext) -> LanguageView {
        LanguageView {
            locale: other.locale,
            character: other.character,
        }
    }
}

impl GetSystemFromOther<Language> for LanguageDiff {
    open spec fn takes_over(
        before: LanguageDiff,
        other: Language,
        context: ExecutionContext,
        after: LanguageDiff,
    ) -> bool {
        &&& after.config == before.config
        &&& after.diff == before.diff
        &&& after.system@ == LanguageView::taken_over(other@, context)
    }

    fn get_system_from_other(&mut self, other_config: &Language, context: ExecutionContext) {
        self.system = Language {
            locale: other_config.locale.duplicate(),
            character: other_config.character.duplicate(),
        };
    }
}

impl SystemView {
    /// The identity of the machine that another configuration stands for: its
    /// fields as they are, in either context.
    pub open spec fn taken_over(other: SystemView, context: ExecutionContext) -> SystemView {
        SystemView {
            hostname: other.hostname,
        }
    }
}

impl GetSystemFromOther<System> for SystemDiff {
    open spec fn takes_over(
        before: SystemDiff,
        other: System,
        context: ExecutionContext,
        after: SystemDiff,
    ) -> bool {
        &&& after.config == before.config
        &&& after.diff == before.diff
        &&& after.system@ == SystemView::taken_over(other@, context)
    }

    fn get_system_from_other(&mut self, other_config: &System, context: ExecutionContext) {
        self.system = System {
            hostname: other_config.hostname.duplicate(),
        };
    }
}

impl UsersView {
    /// The user accounts that another configuration stands for: its lists, with
    /// an empty list absent, in either context.
    pub open spec fn taken_over(other: UsersView, context: ExecutionContext) -> UsersView {
        UsersView {
            user_list: present(listed(other.user_list)),
            user_groups: present(listed(other.user_groups)),
        }
    }
}

impl GetSystemFromOther<Users> for UserDiff {
    open spec fn takes_over(
        before: UserDiff,
        other: Users,
        context: ExecutionContext,
        after: UserDiff,
    ) -> bool {
        &&& after.config == before.config
        &&& after.diff == before.diff
        &&& after.system@ == UsersView::taken_over(other@, context)
    }

    fn get_system_from_other(&mut self, other_config: &Users, context: ExecutionContext) {
        self.system = Users {
            user_list: normalize(&other_config.user_list),
            user_groups: normalize(&other_config.user_groups),
        };
    }
}

impl PacmanView {
    /// The package manager configuration that another configuration stands for:
    /// its fields as they are, in either context.
    pub open spec fn taken_over(other: PacmanView, context: ExecutionContext) -> PacmanView {
        PacmanView {
            parallel: other.parallel,
        }
    }
}

impl GetSystemFromOther<Pacman> for PacmanDiff {
    open spec fn takes_over(
        before: PacmanDiff,
        other: Pacman,
        context: ExecutionContext,
        after: PacmanDiff,
    ) -> bool {
        &&& after.config == before.config
        &&& after.diff == before.diff
        &&& after.system@ == PacmanView::taken_over(other@, context)
    }

    fn get_system_from_other(&mut self, other_config: &Pacman, context: ExecutionContext) {
        self.system = Pacman {
            parallel: other_config.parallel.duplicate(),
        };
    }
}

impl ServicesView {
    /// The enabled services that another configuration stands for in a given
    /// context: its fields as they are, with empty lists absent and the half
    /// that the context does not manage left out.
    pub open spec fn taken_over(other: ServicesView, context: ExecutionContext) -> ServicesView {
        ServicesView {
            user_services: if context.privileged {
                None
            } else {
                present(listed(other.user_services))
            },
            services: if context.privileged {
                present(listed(other.services))
            } else {
                None
            },
        }
    }
}

impl GetSystemFromOther<Services> for ServicesDiff {
    open spec fn takes_over(
        before: ServicesDiff,
        other: Services,
        context: ExecutionContext,
        after: ServicesDiff,
    ) -> bool {
        &&& after.config == before.config
        &&& after.diff == before.diff
        &&& after.system@ == ServicesView::taken_over(other@, context)
    }

    fn get_system_from_other(&mut self, other_config: &Services, context: ExecutionContext) {
        self.system = Services {
            user_services: if context.privileged {
                None
            } else {
                normalize(&other_config.user_services)
            },
            services: if context.privileged {
                normalize(&other_config.services)
            } else {
                None
            },
        };
    }
}

impl PackagesView {
    /// The installed packages that another configuration stands for in a given
    /// context: its fields as they are, with empty lists absent and the half
    /// that the context does not manage left out.
    pub open spec fn taken_over(other: PackagesView, context: ExecutionContext) -> PackagesView {
        PackagesView {
            pacman_packages: if context.privileged {
                present(listed(other.pacman_packages))
            } else {
                None
            },
            aur_packages: if context.privileged {
                None
            } else {
                present(listed(other.aur_packages))
            },
            manual_install_packages: present(listed(other.manual_install_packages)),
        }
    }
}

impl GetSystemFromOther<Packages> for PackagesDiff {
    open spec fn takes_over(
        before: PackagesDiff,
        other: Packages,
        context: ExecutionContext,
        after: PackagesDiff,
    ) -> bool {
        &&& after.config == before.config
        &&& after.diff == before.diff
        &&& after.system@ == PackagesView::taken_over(other@, context)
    }

    fn get_system_from_other(&mut self, other_config: &Packages, context: ExecutionContext) {
        self.system = Packages {
            pacman_packages: if context.privileged {
                normalize(&other_config.pacman_packages)
            } else {
                None
            },
            aur_packages: if context.privileged {
                None
            } else {
                normalize(&other_config.aur_packages)
            },
            manual_install_packages: normalize(&other_config.manual_install_packages),
        };
    }
}

impl DirectoriesView {
    /// The directories and links that another configuration stands for in a
    /// given context: its fields as they are, with empty lists absent and the
    /// half that the context does not manage left out.
    pub open spec fn taken_over(other: DirectoriesView, context: ExecutionContext)
        -> DirectoriesView {
        DirectoriesView {
            reown_dirs: if context.privileged {
                present(listed(other.reown_dirs))
            } else {
                None
            },
            links: present(listed(other.links)),
            create_dirs: present(listed(other.create_dirs)),
        }
    }
}

impl GetSystemFromOther<Directories> for DirectoriesDiff {
    open spec fn takes_over(
        before: DirectoriesDiff,
        other: Directories,
        context: ExecutionContext,
        after: DirectoriesDiff,
    ) -> bool {
        &&& after.config == before.config
        &&& after.diff == before.diff
        &&& after.system@ == DirectoriesView::taken_over(other@, context)
    }

    fn get_system_from_other(&mut self, other_config: &Directories, context: ExecutionContext) {
        self.system = Directories {
            reown_dirs: if context.privileged {
                normalize(&other_config.reown_dirs)
            } else {
                None
            },
            links: normalize(&other_config.links),
            create_dirs: normalize(&other_config.create_dirs),
        };
    }
}

impl GrubView {
    /// The boot loader configuration that another configuration stands for: its
    /// list, absent where it is empty, in either context.
    pub open spec fn taken_over(other: GrubView, context: ExecutionContext) -> GrubView {
        GrubView {
            grub_cmdline_linux_default: present(listed(other.grub_cmdline_linux_default)),
        }
    }
}

impl GetSystemFromOther<Grub> for GrubDiff {
    open spec fn takes_over(
        before: GrubDiff,
        other: Grub,
        context: ExecutionContext,
        after: GrubDiff,
    ) -> bool {
        &&& after.config == before.config
        &&& after.diff == before.diff
        &&& after.system@ == GrubView::taken_over(other@, context)
    }

    fn get_system_from_other(&mut self, other_config: &Grub, context: ExecutionContext) {
        self.system = Grub {
            grub_cmdline_linux_default: normalize(&other_config.grub_cmdline_linux_default),
        };
    }
}

impl MkinitcpioView {
    /// The initial ramdisk configuration that another configuration stands for:
    /// its lists, with an empty list absent, in either context.
    pub open spec fn taken_over(other: MkinitcpioView, context: ExecutionContext)
        -> MkinitcpioView {
        MkinitcpioView {
            modules: present(listed(other.modules)),
            hooks: present(listed(other.hooks)),
        }
    }
}

impl GetSystemFromOther<Mkinitcpio> for MkinitcpioDiff {
    open spec fn takes_over(
        before: MkinitcpioDiff,
        other: Mkinitcpio,
        context: ExecutionContext,
        after: MkinitcpioDiff,
    ) -> bool {
        &&& after.config == before.config
        &&& after.diff == before.diff
        &&& after.system@ == MkinitcpioView::taken_over(other@, context)
    }

    fn get_system_from_other(&mut self, other_config: &Mkinitcpio, context: ExecutionContext) {
        self.system = Mkinitcpio {
            modules: normalize(&other_config.modules),
            hooks: normalize(&other_config.hooks),
        };
    }
}

impl DownloadsView {
    /// The downloads that another configuration stands for: its lists, with an
    /// empty list absent, in either context.
    pub open spec fn taken_over(other: DownloadsView, context: ExecutionContext) -> DownloadsView {
        DownloadsView {
            git: present(listed(other.git)),
            curl: present(listed(other.curl)),
            unzip: present(listed(other.unzip)),
        }
    }
}

impl GetSystemFromOther<Downloads> for DownloadsDiff {
    open spec fn takes_over(
        before: DownloadsDiff,
        other: Downloads,
        context: ExecutionContext,
        after: DownloadsDiff,
    ) -> bool {
        &&& after.config == before.config
        &&& after.diff == before.diff
        &&& after.system@ == DownloadsView::taken_over(other@, context)
    }

    fn get_system_from_other(&mut self, other_config: &Downloads, context: ExecutionContext) {
        self.system = Downloads {
            git: normalize(&other_config.git),
            curl: normalize(&other_config.curl),
            unzip: normalize(&other_config.unzip),
        };
    }
}

impl UfwView {
    /// The firewall that another configuration stands for: its settings as they
    /// are and its list, absent where it is empty, in either context.
    pub open spec fn taken_over(other: UfwView, context: ExecutionContext) -> UfwView {
        UfwView {
            incoming: other.incoming,
            outgoing: other.outgoing,
            rules: present(listed(other.rules)),
        }
    }
}

impl GetSystemFromOther<Ufw> for UfwDiff {
    open spec fn takes_over(
        before: UfwDiff,
        other: Ufw,
        context: ExecutionContext,
        after: UfwDiff,
    ) -> bool {
        &&& after.config == before.config
        &&& after.diff == before.diff
        &&& after.system@ == UfwView::taken_over(other@, context)
    }

    fn get_system_from_other(&mut self, other_config: &Ufw, context: ExecutionContext) {
        self.system = Ufw {
            incoming: other_config.incoming.duplicate(),
            outgoing: other_config.outgoing.duplicate(),
            rules: normalize(&other_config.rules),
        };
    }
}

impl Fail2BanView {
    /// The intrusion prevention policy that another configuration stands for: its
    /// settings as they are and its list, absent where it is empty, in either
    /// context.
    pub open spec fn taken_over(other: Fail2BanView, context: ExecutionContext) -> Fail2BanView {
        Fail2BanView {
            ignoreip: other.ignoreip,
            bantime: other.bantime,
            findtime: other.findtime,
            maxretry: other.maxretry,
            services: present(listed(other.services)),
        }
    }
}

impl GetSystemFromOther<Fail2Ban> for Fail2BanDiff {
    open spec fn takes_over(
        before: Fail2BanDiff,
        other: Fail2Ban,
        context: ExecutionContext,
        after: Fail2BanDiff,
    ) -> bool {
        &&& after.config == before.config
        &&& after.diff == before.diff
        &&& after.system@ == Fail2BanView::taken_over(other@, context)
    }

    fn get_system_from_other(&mut self, other_config: &Fail2Ban, context: ExecutionContext) {
        self.system = Fail2Ban {
            ignoreip: other_config.ignoreip.duplicate(),
            bantime: other_config.bantime.duplicate(),
            findtime: other_config.findtime.duplicate(),
            maxretry: other_config.maxretry.duplicate(),
            services: normalize(&other_config.services),
        };
    }
}

impl MonitorView {
    /// The monitor layout that another configuration stands for: its list,
    /// absent where it is empty, in either context.
    pub open spec fn taken_over(other: MonitorView, context: ExecutionContext) -> MonitorView {
        MonitorView {
            monitors: present(listed(other.monitors)),
        }
    }
}

impl GetSystemFromOther<Monitor> for MonitorDiff {
    open spec fn takes_over(
        before: MonitorDiff,
        other: Monitor,
        context: ExecutionContext,
        after: MonitorDiff,
    ) -> bool {
        &&& after.config == before.config
        &&& after.diff == before.diff
        &&& after.system@ == MonitorView::taken_over(other@, context)
    }

    fn get_system_from_other(&mut self, other_config: &Monitor, context: ExecutionContext) {
        self.system = Monitor {
            monitors: normalize(&other_config.monitors),
        };
    }
}

impl FilesView {
    /// The text files that another configuration stands for: its list, absent
    /// where it is empty, in either context.
    pub open spec fn taken_over(other: FilesView, context: ExecutionContext) -> FilesView {
        FilesView {
            files: present(listed(other.files)),
        }
    }
}

impl GetSystemFromOther<Files> for FilesDiff {
    open spec fn takes_over(
        before: FilesDiff,
        other: Files,
        context: ExecutionContext,
        after: FilesDiff,
    ) -> bool {
        &&& after.config == before.config
        &&& after.diff == before.diff
        &&& after.system@ == FilesView::taken_over(other@, context)
    }

    fn get_system_from_other(&mut self, other_config: &Files, context: ExecutionContext) {
        self.system = Files {
            files: normalize(&other_config.files),
        };
    }
}

} // verus!
