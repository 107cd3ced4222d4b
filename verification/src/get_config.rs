//! Loading: how the desired state of a domain is taken out of the
//! configuration.
//!
//! Loading copies the fields that the domain manages in the given execution
//! context, turns empty lists into absent fields, and refuses a configuration
//! in which a mandatory field is missing.

use vstd::prelude::*;
use vstd::string::*;
use crate::data_types::{
    DirectoriesDiff, DownloadsDiff, Fail2BanDiff, FilesDiff, GrubDiff, KeyboardDiff, LanguageDiff,
    MkinitcpioDiff, MonitorDiff, PackagesDiff, PacmanDiff, ServicesDiff, ShellDiff, SystemDiff,
    TimeDiff, UfwDiff, UserDiff,
};
use crate::get_diff::{listed, normalize, present};
use crate::helper::ExecutionContext;
use crate::item::Item;
use crate::structure::{
    Directories, DirectoriesView, Downloads, DownloadsView, Fail2Ban, Fail2BanView, Files,
    FilesView, Grub, GrubView, Keyboard, KeyboardView, Language, LanguageView, Mkinitcpio,
    MkinitcpioView, Monitor, MonitorView, Packages, PackagesView, Pacman, PacmanView, Services,
    ServicesView, Shell, ShellView, System, SystemView, Time, TimeView, Ufw, UfwView, Users,
    UsersView,
};
use crate::text::{contains, includes};

verus! {

/// Why a configuration was refused.
#[derive(Debug, PartialEq, Eq, Clone, Copy, Structural)]
pub enum ConfigError {
    /// The layout of the console is missing or empty.
    KeyboardTtyMissing,
    /// The layout for the initial ramdisk is missing or empty.
    KeymapMissing,
    /// The time zone is missing or empty.
    TimezoneMissing,
    /// The locale is missing or empty.
    LocaleMissing,
    /// The character set is missing or empty.
    CharacterMissing,
    /// The host name is missing or empty.
    HostnameMissing,
    /// The host name holds a space.
    HostnameWithSpace,
    /// No users are given.
    UsersMissing,
    /// The users and the entries that give their groups differ in number.
    UserGroupsMismatch,
}

impl ConfigError {
    /// The message that tells the user what is wrong.
    pub fn message(&self) -> (text: String)
        ensures
            text@ == self.message_text(),
    {
        match self {
            ConfigError::KeyboardTtyMissing => String::from_str(
                "Config-Error: Keyboard_tty must be specified!",
            ),
            ConfigError::KeymapMissing => String::from_str(
                "Config-Error: Mkinitcpio must be specified!",
            ),
            ConfigError::TimezoneMissing => String::from_str(
                "Config-Error: Timezone must be specified!",
            ),
            ConfigError::LocaleMissing => String::from_str(
                "Config-Error: Locale must be specified!",
            ),
            ConfigError::CharacterMissing => String::from_str(
                "Config-Error: Locale must be specified!",
            ),
            ConfigError::HostnameMissing => String::from_str(
                "Config-Error: Hostname must be specified!",
            ),
            ConfigError::HostnameWithSpace => String::from_str(
                "Config-Error: Hostname is not allowed to contain ' '!",
            ),
            ConfigError::UsersMissing => String::from_str(
                "Config-Error: No user specified in config!",
            ),
            ConfigError::UserGroupsMismatch => String::from_str(
                "Config-Error: User_list and User_groups do not have the same length! Some groups are not specified for User(s)!",
            ),
        }
    }

    /// The text of the message.
    pub open spec fn message_text(&self) -> Seq<char> {
        match self {
            ConfigError::KeyboardTtyMissing => "Config-Error: Keyboard_tty must be specified!"@,
            ConfigError::KeymapMissing => "Config-Error: Mkinitcpio must be specified!"@,
            ConfigError::TimezoneMissing => "Config-Error: Timezone must be specified!"@,
            ConfigError::LocaleMissing => "Config-Error: Locale must be specified!"@,
            ConfigError::CharacterMissing => "Config-Error: Locale must be specified!"@,
            ConfigError::HostnameMissing => "Config-Error: Hostname must be specified!"@,
            ConfigError::HostnameWithSpace => "Config-Error: Hostname is not allowed to contain ' '!"@,
            ConfigError::UsersMissing => "Config-Error: No user specified in config!"@,
            ConfigError::UserGroupsMismatch => "Config-Error: User_list and User_groups do not have the same length! Some groups are not specified for User(s)!"@,
        }
    }
}

/// Whether a mandatory text is there: present and not empty.
pub open spec fn given(field: Option<Seq<char>>) -> bool {
    field is Some && field->0.len() > 0
}

/// Tests whether a mandatory text is there.
pub fn is_given(field: &Option<String>) -> (r: bool)
    ensures
        r == given(field.deep_view()),
{
    match field {
        Some(text) => !text.as_str().is_empty(),
        None => false,
    }
}

/// Takes the desired state of a domain out of its part of the configuration.
pub trait GetConfig<T>: Sized {
    /// Whether loading `config` into `before` in the given context ends with
    /// `r` and leaves `after`: on success the desired state is what the
    /// configuration yields, on refusal nothing has changed; the observed
    /// state and the delta stay as they are.
    spec fn loads(
        before: Self,
        config: T,
        context: ExecutionContext,
        after: Self,
        r: Result<(), ConfigError>,
    ) -> bool;

    fn get_config(&mut self, config: &T, context: ExecutionContext) -> (r: Result<
        (),
        ConfigError,
    >)
        ensures
            Self::loads(*old(self), *config, context, *final(self), r),
    ;
}

impl KeyboardView {
    /// What a configuration yields as the desired state of the keyboard layout
    /// in a given context. Both layouts are mandatory.
    pub open spec fn loaded(config: KeyboardView, context: ExecutionContext) -> Result<
        KeyboardView,
        ConfigError,
    > {
        if !given(config.keyboard_tty) {
            Err(ConfigError::KeyboardTtyMissing)
        } else if !given(config.mkinitcpio) {
            Err(ConfigError::KeymapMissing)
        } else {
            Ok(config)
        }
    }
}

impl GetConfig<Keyboard> for KeyboardDiff {
    open spec fn loads(
        before: KeyboardDiff,
        config: Keyboard,
        context: ExecutionContext,
        after: KeyboardDiff,
        r: Result<(), ConfigError>,
    ) -> bool {
        &&& after.system == before.system
        &&& after.diff == before.diff
        &&& match KeyboardView::loaded(config@, context) {
            Ok(loaded) => r is Ok && after.config@ == loaded,
            Err(e) => r == Err::<(), ConfigError>(e) && after.config == before.config,
        }
    }

    fn get_config(&mut self, config: &Keyboard, context: ExecutionContext) -> (r: Result<
        (),
        ConfigError,
    >) {
        if !is_given(&config.keyboard_tty) {
            return Err(ConfigError::KeyboardTtyMissing);
        }
        if !is_given(&config.mkinitcpio) {
            return Err(ConfigError::KeymapMissing);
        }
        self.config = config.duplicate();
        Ok(())
    }
}

impl TimeView {
    /// What a configuration yields as the desired state of the time settings in
    /// a given context. The time zone is mandatory.
    pub open spec fn loaded(config: TimeView, context: ExecutionContext) -> Result<
        TimeView,
        ConfigError,
    > {
        if !given(config.timezone) {
            Err(ConfigError::TimezoneMissing)
        } else {
            Ok(config)
        }
    }
}

impl GetConfig<Time> for TimeDiff {
    open spec fn loads(
        before: TimeDiff,
        config: Time,
        context: ExecutionContext,
        after: TimeDiff,
        r: Result<(), ConfigError>,
    ) -> bool {
        &&& after.system == before.system
        &&& after.diff == before.diff
        &&& match TimeView::loaded(config@, context) {
            Ok(loaded) => r is Ok && after.config@ == loaded,
            Err(e) => r == Err::<(), ConfigError>(e) && after.config == before.config,
        }
    }

    fn get_config(&mut self, config: &Time, context: ExecutionContext) -> (r: Result<
        (),
        ConfigError,
    >) {
        if !is_given(&config.timezone) {
            return Err(ConfigError::TimezoneMissing);
        }
        self.config = config.duplicate();
        Ok(())
    }
}

impl LanguageView {
    /// What a configuration yields as the desired state of the language
    /// settings in a given context. The locale and its character set are
    /// mandatory.
    pub open spec fn loaded(config: LanguageView, context: ExecutionContext) -> Result<
        LanguageView,
        ConfigError,
    > {
        if !given(config.locale) {
            Err(ConfigError::LocaleMissing)
        } else if !given(config.character) {
            Err(ConfigError::CharacterMissing)
        } else {
            Ok(config)
        }
    }
}

impl GetConfig<Language> for LanguageDiff {
    open spec fn loads(
        before: LanguageDiff,
        config: Language,
        context: ExecutionContext,
        after: LanguageDiff,
        r: Result<(), ConfigError>,
    ) -> bool {
        &&& after.system == before.system
        &&& after.diff == before.diff
        &&& match LanguageView::loaded(config@, context) {
            Ok(loaded) => r is Ok && after.config@ == loaded,
            Err(e) => r == Err::<(), ConfigError>(e) && after.config == before.config,
        }
    }

    fn get_config(&mut self, config: &Language, context: ExecutionContext) -> (r: Result<
        (),
        ConfigError,
    >) {
        if !is_given(&config.locale) {
            return Err(ConfigError::LocaleMissing);
        }
        if !is_given(&config.character) {
            return Err(ConfigError::CharacterMissing);
        }
        self.config = config.duplicate();
        Ok(())
    }
}

impl SystemView {
    /// What a configuration yields as the desired state of the identity of the
    /// machine in a given context. The host name is mandatory and holds no
    /// space.
    pub open spec fn loaded(config: SystemView, context: ExecutionContext) -> Result<
        SystemView,
        ConfigError,
    > {
        if !given(config.hostname) {
            Err(ConfigError::HostnameMissing)
        } else if contains(config.hostname->0, seq![' ']) {
            Err(ConfigError::HostnameWithSpace)
        } else {
            Ok(config)
        }
    }
}

impl GetConfig<System> for SystemDiff {
    open spec fn loads(
        before: SystemDiff,
        config: System,
        context: ExecutionContext,
        after: SystemDiff,
        r: Result<(), ConfigError>,
    ) -> bool {
        &&& after.system == before.system
        &&& after.diff == before.diff
        &&& match SystemView::loaded(config@, context) {
            Ok(loaded) => r is Ok && after.config@ == loaded,
            Err(e) => r == Err::<(), ConfigError>(e) && after.config == before.config,
        }
    }

    fn get_config(&mut self, config: &System, context: ExecutionContext) -> (r: Result<
        (),
        ConfigError,
    >) {
        if !is_given(&config.hostname) {
            return Err(ConfigError::HostnameMissing);
        }
        let spaced = match &config.hostname {
            Some(hostname) => includes(hostname.as_str(), " "),
            None => false,
        };
        proof {
            reveal_strlit(" ");
            assert(" "@ =~= seq![' ']);
        }
        if spaced {
            return Err(ConfigError::HostnameWithSpace);
        }
        self.config = config.duplicate();
        Ok(())
    }
}

impl ShellView {
    /// What a configuration yields as the desired state of the shell settings
    /// in a given context. The login shell is optional.
    pub open spec fn loaded(config: ShellView, context: ExecutionContext) -> Result<
        ShellView,
        ConfigError,
    > {
        Ok(
            ShellView {
                default_shell: config.default_shell,
            },
        )
    }
}

impl GetConfig<Shell> for ShellDiff {
    open spec fn loads(
        before: ShellDiff,
        config: Shell,
        context: ExecutionContext,
        after: ShellDiff,
        r: Result<(), ConfigError>,
    ) -> bool {
        &&& after.system == before.system
        &&& after.diff == before.diff
        &&& match ShellView::loaded(config@, context) {
            Ok(loaded) => r is Ok && after.config@ == loaded,
            Err(e) => r == Err::<(), ConfigError>(e) && after.config == before.config,
        }
    }

    fn get_config(&mut self, config: &Shell, context: ExecutionContext) -> (r: Result<
        (),
        ConfigError,
    >) {
        self.config = Shell {
            default_shell: config.default_shell.duplicate(),
        };
        Ok(())
    }
}

impl UsersView {
    /// What a configuration yields as the desired state of the user accounts in
    /// a given context. There is at least one user, and for each user one entry
    /// that gives their groups. An absent list counts as an empty one.
    pub open spec fn loaded(config: UsersView, context: ExecutionContext) -> Result<
        UsersView,
        ConfigError,
    > {
        if listed(config.user_list).len() == 0 {
            Err(ConfigError::UsersMissing)
        } else if listed(config.user_groups).len() != listed(config.user_list).len() {
            Err(ConfigError::UserGroupsMismatch)
        } else {
            Ok(config)
        }
    }
}

impl GetConfig<Users> for UserDiff {
    open spec fn loads(
        before: UserDiff,
        config: Users,
        context: ExecutionContext,
        after: UserDiff,
        r: Result<(), ConfigError>,
    ) -> bool {
        &&& after.system == before.system
        &&& after.diff == before.diff
        &&& match UsersView::loaded(config@, context) {
            Ok(loaded) => r is Ok && after.config@ == loaded,
            Err(e) => r == Err::<(), ConfigError>(e) && after.config == before.config,
        }
    }

    fn get_config(&mut self, config: &Users, context: ExecutionContext) -> (r: Result<
        (),
        ConfigError,
    >) {
        let users = match &config.user_list {
            Some(list) => list.len(),
            None => 0,
        };
        let groups = match &config.user_groups {
            Some(list) => list.len(),
            None => 0,
        };
        assert(users == listed(config@.user_list).len());
        assert(groups == listed(config@.user_groups).len());
        if users == 0 {
            Err(ConfigError::UsersMissing)
        } else if groups != users {
            Err(ConfigError::UserGroupsMismatch)
        } else {
            self.config = config.duplicate();
            Ok(())
        }
    }
}

impl PacmanView {
    /// What a configuration yields as the desired state of the package manager
    /// configuration in a given context. The number of parallel downloads is
    /// optional.
    pub open spec fn loaded(config: PacmanView, context: ExecutionContext) -> Result<
        PacmanView,
        ConfigError,
    > {
        Ok(
            PacmanView {
                parallel: config.parallel,
            },
        )
    }
}

impl GetConfig<Pacman> for PacmanDiff {
    open spec fn loads(
        before: PacmanDiff,
        config: Pacman,
        context: ExecutionContext,
        after: PacmanDiff,
        r: Result<(), ConfigError>,
    ) -> bool {
        &&& after.system == before.system
        &&& after.diff == before.diff
        &&& match PacmanView::loaded(config@, context) {
            Ok(loaded) => r is Ok && after.config@ == loaded,
            Err(e) => r == Err::<(), ConfigError>(e) && after.config == before.config,
        }
    }

    fn get_config(&mut self, config: &Pacman, context: ExecutionContext) -> (r: Result<
        (),
        ConfigError,
    >) {
        self.config = Pacman {
            parallel: config.parallel.duplicate(),
        };
        Ok(())
    }
}

impl ServicesView {
    /// What a configuration yields as the desired state of the enabled services
    /// in a given context. A privileged run manages the services of the system,
    /// an unprivileged one those of the user session; the other half stays
    /// absent.
    pub open spec fn loaded(config: ServicesView, context: ExecutionContext) -> Result<
        ServicesView,
        ConfigError,
    > {
        Ok(
            ServicesView {
                user_services: if context.privileged {
                    None
                } else {
                    present(listed(config.user_services))
                },
                services: if context.privileged {
                    present(listed(config.services))
                } else {
                    None
                },
            },
        )
    }
}

impl GetConfig<Services> for ServicesDiff {
    open spec fn loads(
        before: ServicesDiff,
        config: Services,
        context: ExecutionContext,
        after: ServicesDiff,
        r: Result<(), ConfigError>,
    ) -> bool {
        &&& after.system == before.system
        &&& after.diff == before.diff
        &&& match ServicesView::loaded(config@, context) {
            Ok(loaded) => r is Ok && after.config@ == loaded,
            Err(e) => r == Err::<(), ConfigError>(e) && after.config == before.config,
        }
    }

    fn get_config(&mut self, config: &Services, context: ExecutionContext) -> (r: Result<
        (),
        ConfigError,
    >) {
        self.config = Services {
            user_services: if context.privileged {
                None
            } else {
                normalize(&config.user_services)
            },
            services: if context.privileged {
                normalize(&config.services)
            } else {
                None
            },
        };
        Ok(())
    }
}

impl PackagesView {
    /// What a configuration yields as the desired state of the installed
    /// packages in a given context. A privileged run manages the packages of
    /// the official repositories, an unprivileged one those of the user
    /// repository; the other half stays absent. Packages installed by hand are
    /// managed by both.
    pub open spec fn loaded(config: PackagesView, context: ExecutionContext) -> Result<
        PackagesView,
        ConfigError,
    > {
        Ok(
            PackagesView {
                pacman_packages: if context.privileged {
                    present(listed(config.pacman_packages))
                } else {
                    None
                },
                aur_packages: if context.privileged {
                    None
                } else {
                    present(listed(config.aur_packages))
                },
                manual_install_packages: present(listed(config.manual_install_packages)),
            },
        )
    }
}

impl GetConfig<Packages> for PackagesDiff {
    open spec fn loads(
        before: PackagesDiff,
        config: Packages,
        context: ExecutionContext,
        after: PackagesDiff,
        r: Result<(), ConfigError>,
    ) -> bool {
        &&& after.system == before.system
        &&& after.diff == before.diff
        &&& match PackagesView::loaded(config@, context) {
            Ok(loaded) => r is Ok && after.config@ == loaded,
            Err(e) => r == Err::<(), ConfigError>(e) && after.config == before.config,
        }
    }

    fn get_config(&mut self, config: &Packages, context: ExecutionContext) -> (r: Result<
        (),
        ConfigError,
    >) {
        self.config = Packages {
            pacman_packages: if context.privileged {
                normalize(&config.pacman_packages)
            } else {
                None
            },
            aur_packages: if context.privileged {
                None
            } else {
                normalize(&config.aur_packages)
            },
            manual_install_packages: normalize(&config.manual_install_packages),
        };
        Ok(())
    }
}

impl DirectoriesView {
    /// What a configuration yields as the desired state of the directories and
    /// links in a given context. Only a privileged run manages the groups of
    /// directories.
    pub open spec fn loaded(config: DirectoriesView, context: ExecutionContext) -> Result<
        DirectoriesView,
        ConfigError,
    > {
        Ok(
            DirectoriesView {
                reown_dirs: if context.privileged {
                    present(listed(config.reown_dirs))
                } else {
                    None
                },
                links: present(listed(config.links)),
                create_dirs: present(listed(config.create_dirs)),
            },
        )
    }
}

impl GetConfig<Directories> for DirectoriesDiff {
    open spec fn loads(
        before: DirectoriesDiff,
        config: Directories,
        context: ExecutionContext,
        after: DirectoriesDiff,
        r: Result<(), ConfigError>,
    ) -> bool {
        &&& after.system == before.system
        &&& after.diff == before.diff
        &&& match DirectoriesView::loaded(config@, context) {
            Ok(loaded) => r is Ok && after.config@ == loaded,
            Err(e) => r == Err::<(), ConfigError>(e) && after.config == before.config,
        }
    }

    fn get_config(&mut self, config: &Directories, context: ExecutionContext) -> (r: Result<
        (),
        ConfigError,
    >) {
        self.config = Directories {
            reown_dirs: if context.privileged {
                normalize(&config.reown_dirs)
            } else {
                None
            },
            links: normalize(&config.links),
            create_dirs: normalize(&config.create_dirs),
        };
        Ok(())
    }
}

impl GrubView {
    /// What a configuration yields as the desired state of the boot loader
    /// configuration in a given context. An empty list of kernel parameters is
    /// absent.
    pub open spec fn loaded(config: GrubView, context: ExecutionContext) -> Result<
        GrubView,
        ConfigError,
    > {
        Ok(
            GrubView {
                grub_cmdline_linux_default: present(listed(config.grub_cmdline_linux_default)),
            },
        )
    }
}

impl GetConfig<Grub> for GrubDiff {
    open spec fn loads(
        before: GrubDiff,
        config: Grub,
        context: ExecutionContext,
        after: GrubDiff,
        r: Result<(), ConfigError>,
    ) -> bool {
        &&& after.system == before.system
        &&& after.diff == before.diff
        &&& match GrubView::loaded(config@, context) {
            Ok(loaded) => r is Ok && after.config@ == loaded,
            Err(e) => r == Err::<(), ConfigError>(e) && after.config == before.config,
        }
    }

    fn get_config(&mut self, config: &Grub, context: ExecutionContext) -> (r: Result<
        (),
        ConfigError,
    >) {
        self.config = Grub {
            grub_cmdline_linux_default: normalize(&config.grub_cmdline_linux_default),
        };
        Ok(())
    }
}

impl MkinitcpioView {
    /// What a configuration yields as the desired state of the initial ramdisk
    /// configuration in a given context. Empty lists are absent.
    pub open spec fn loaded(config: MkinitcpioView, context: ExecutionContext) -> Result<
        MkinitcpioView,
        ConfigError,
    > {
        Ok(
            MkinitcpioView {
                modules: present(listed(config.modules)),
                hooks: present(listed(config.hooks)),
            },
        )
    }
}

impl GetConfig<Mkinitcpio> for MkinitcpioDiff {
    open spec fn loads(
        before: MkinitcpioDiff,
        config: Mkinitcpio,
        context: ExecutionContext,
        after: MkinitcpioDiff,
        r: Result<(), ConfigError>,
    ) -> bool {
        &&& after.system == before.system
        &&& after.diff == before.diff
        &&& match MkinitcpioView::loaded(config@, context) {
            Ok(loaded) => r is Ok && after.config@ == loaded,
            Err(e) => r == Err::<(), ConfigError>(e) && after.config == before.config,
        }
    }

    fn get_config(&mut self, config: &Mkinitcpio, context: ExecutionContext) -> (r: Result<
        (),
        ConfigError,
    >) {
        self.config = Mkinitcpio {
            modules: normalize(&config.modules),
            hooks: normalize(&config.hooks),
        };
        Ok(())
    }
}

impl DownloadsView {
    /// What a configuration yields as the desired state of the downloads in a
    /// given context. Empty lists are absent.
    pub open spec fn loaded(config: DownloadsView, context: ExecutionContext) -> Result<
        DownloadsView,
        ConfigError,
    > {
        Ok(
            DownloadsView {
                git: present(listed(config.git)),
                curl: present(listed(config.curl)),
                unzip: present(listed(config.unzip)),
            },
        )
    }
}

impl GetConfig<Downloads> for DownloadsDiff {
    open spec fn loads(
        before: DownloadsDiff,
        config: Downloads,
        context: ExecutionContext,
        after: DownloadsDiff,
        r: Result<(), ConfigError>,
    ) -> bool {
        &&& after.system == before.system
        &&& after.diff == before.diff
        &&& match DownloadsView::loaded(config@, context) {
            Ok(loaded) => r is Ok && after.config@ == loaded,
            Err(e) => r == Err::<(), ConfigError>(e) && after.config == before.config,
        }
    }

    fn get_config(&mut self, config: &Downloads, context: ExecutionContext) -> (r: Result<
        (),
        ConfigError,
    >) {
        self.config = Downloads {
            git: normalize(&config.git),
            curl: normalize(&config.curl),
            unzip: normalize(&config.unzip),
        };
        Ok(())
    }
}

impl UfwView {
    /// What a configuration yields as the desired state of the firewall in a
    /// given context. The policies are optional; an empty list of rules is
    /// absent.
    pub open spec fn loaded(config: UfwView, context: ExecutionContext) -> Result<
        UfwView,
        ConfigError,
    > {
        Ok(
            UfwView {
                incoming: config.incoming,
                outgoing: config.outgoing,
                rules: present(listed(config.rules)),
            },
        )
    }
}

impl GetConfig<Ufw> for UfwDiff {
    open spec fn loads(
        before: UfwDiff,
        config: Ufw,
        context: ExecutionContext,
        after: UfwDiff,
        r: Result<(), ConfigError>,
    ) -> bool {
        &&& after.system == before.system
        &&& after.diff == before.diff
        &&& match UfwView::loaded(config@, context) {
            Ok(loaded) => r is Ok && after.config@ == loaded,
            Err(e) => r == Err::<(), ConfigError>(e) && after.config == before.config,
        }
    }

    fn get_config(&mut self, config: &Ufw, context: ExecutionContext) -> (r: Result<
        (),
        ConfigError,
    >) {
        self.config = Ufw {
            incoming: config.incoming.duplicate(),
            outgoing: config.outgoing.duplicate(),
            rules: normalize(&config.rules),
        };
        Ok(())
    }
}

impl Fail2BanView {
    /// What a configuration yields as the desired state of the intrusion
    /// prevention policy in a given context. The settings are optional; an
    /// empty list of services is absent.
    pub open spec fn loaded(config: Fail2BanView, context: ExecutionContext) -> Result<
        Fail2BanView,
        ConfigError,
    > {
        Ok(
            Fail2BanView {
                ignoreip: config.ignoreip,
                bantime: config.bantime,
                findtime: config.findtime,
                maxretry: config.maxretry,
                services: present(listed(config.services)),
            },
        )
    }
}

impl GetConfig<Fail2Ban> for Fail2BanDiff {
    open spec fn loads(
        before: Fail2BanDiff,
        config: Fail2Ban,
        context: ExecutionContext,
        after: Fail2BanDiff,
        r: Result<(), ConfigError>,
    ) -> bool {
        &&& after.system == before.system
        &&& after.diff == before.diff
        &&& match Fail2BanView::loaded(config@, context) {
            Ok(loaded) => r is Ok && after.config@ == loaded,
            Err(e) => r == Err::<(), ConfigError>(e) && after.config == before.config,
        }
    }

    fn get_config(&mut self, config: &Fail2Ban, context: ExecutionContext) -> (r: Result<
        (),
        ConfigError,
    >) {
        self.config = Fail2Ban {
            ignoreip: config.ignoreip.duplicate(),
            bantime: config.bantime.duplicate(),
            findtime: config.findtime.duplicate(),
            maxretry: config.maxretry.duplicate(),
            services: normalize(&config.services),
        };
        Ok(())
    }
}

impl MonitorView {
    /// What a configuration yields as the desired state of the monitor layout
    /// in a given context. An empty list of monitors is absent.
    pub open spec fn loaded(config: MonitorView, context: ExecutionContext) -> Result<
        MonitorView,
        ConfigError,
    > {
        Ok(
            MonitorView {
                monitors: present(listed(config.monitors)),
            },
        )
    }
}

impl GetConfig<Monitor> for MonitorDiff {
    open spec fn loads(
        before: MonitorDiff,
        config: Monitor,
        context: ExecutionContext,
        after: MonitorDiff,
        r: Result<(), ConfigError>,
    ) -> bool {
        &&& after.system == before.system
        &&& after.diff == before.diff
        &&& match MonitorView::loaded(config@, context) {
            Ok(loaded) => r is Ok && after.config@ == loaded,
            Err(e) => r == Err::<(), ConfigError>(e) && after.config == before.config,
        }
    }

    fn get_config(&mut self, config: &Monitor, context: ExecutionContext) -> (r: Result<
        (),
        ConfigError,
    >) {
        self.config = Monitor {
            monitors: normalize(&config.monitors),
        };
        Ok(())
    }
}

impl FilesView {
    /// What a configuration yields as the desired state of the text files in a
    /// given context. An empty list of files is absent.
    pub open spec fn loaded(config: FilesView, context: ExecutionContext) -> Result<
        FilesView,
        ConfigError,
    > {
        Ok(
            FilesView {
                files: present(listed(config.files)),
            },
        )
    }
}

impl GetConfig<Files> for FilesDiff {
    open spec fn loads(
        before: FilesDiff,
        config: Files,
        context: ExecutionContext,
        after: FilesDiff,
        r: Result<(), ConfigError>,
    ) -> bool {
        &&& after.system == before.system
        &&& after.diff == before.diff
        &&& match FilesView::loaded(config@, context) {
            Ok(loaded) => r is Ok && after.config@ == loaded,
            Err(e) => r == Err::<(), ConfigError>(e) && after.config == before.config,
        }
    }

    fn get_config(&mut self, config: &Files, context: ExecutionContext) -> (r: Result<
        (),
        ConfigError,
    >) {
        self.config = Files {
            files: normalize(&config.files),
        };
        Ok(())
    }
}

} // verus!
