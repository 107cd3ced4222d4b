//! What holds of the reconciliation as a whole, stated and proved.

use vstd::prelude::*;
use crate::entry::{creation_of, creation_of_all, Entry};
use crate::function::{
    group_creation, groups_of, membership, memberships, no_actions, nothing_planned, run,
    ActionView,
};
use crate::get_diff::{normalizing_is_idempotent, set_delta_is_set_difference};
use crate::helper::ExecutionContext;
use crate::probe::{FindingView, ProbeView};
use crate::structure::{
    CreateDirs, CreateDirsView, CurlDownload, CurlDownloadView, DirectoriesView, DownloadsView,
    Fail2BanView, FilesView, GitDownload, GitDownloadView, GrubView, KeyboardView, LanguageView,
    Links, LinksView, ManualInstallPackages, ManualInstallPackagesView, MkinitcpioView, MonitorView,
    PackagesView, PacmanView, ReownDirs, ReownDirsView, ServicesView, ShellView, SystemView,
    TextToFile, TextToFileView, TimeView, UfwView, Unzip, UnzipView, UserView, UsersView,
};

verus! {

/// Reconciling the keyboard layout against a desired state that equals the
/// observed one is a no-op: the delta is empty, and applying it performs no
/// action.
pub proof fn keyboard_noop(state: KeyboardView)
    ensures
        ({
            let d = KeyboardView::delta(state, state);
            &&& d.add == KeyboardView::absent()
            &&& d.remove == KeyboardView::absent()
            &&& KeyboardView::additions(d.add) == no_actions()
        }),
{
    let d = KeyboardView::delta(state, state);
    assert(d.add == KeyboardView::absent());
    assert(d.remove == KeyboardView::absent());
    assert(KeyboardView::additions(d.add) =~= no_actions());
}

/// Reconciling the time settings against a desired state that equals the
/// observed one is a no-op: the delta is empty, and applying it performs no
/// action.
pub proof fn time_noop(state: TimeView)
    ensures
        ({
            let d = TimeView::delta(state, state);
            &&& d.add == TimeView::absent()
            &&& d.remove == TimeView::absent()
            &&& TimeView::additions(d.add) == no_actions()
        }),
{
    let d = TimeView::delta(state, state);
    assert(d.add == TimeView::absent());
    assert(d.remove == TimeView::absent());
    assert(TimeView::additions(d.add) =~= no_actions());
}

/// Reconciling the language settings against a desired state that equals the
/// observed one is a no-op: the delta is empty, and applying it performs no
/// action.
pub proof fn language_noop(state: LanguageView)
    ensures
        ({
            let d = LanguageView::delta(state, state);
            &&& d.add == LanguageView::absent()
            &&& d.remove == LanguageView::absent()
            &&& LanguageView::additions(state, d.add) == no_actions()
        }),
{
    let d = LanguageView::delta(state, state);
    assert(d.add == LanguageView::absent());
    assert(d.remove == LanguageView::absent());
    assert(LanguageView::additions(state, d.add) =~= no_actions());
}

/// Reconciling the identity of the machine against a desired state that equals
/// the observed one is a no-op: the delta is empty, and applying it performs
/// no action.
pub proof fn system_noop(state: SystemView)
    ensures
        ({
            let d = SystemView::delta(state, state);
            &&& d.add == SystemView::absent()
            &&& d.remove == SystemView::absent()
            &&& SystemView::additions(d.add) == no_actions()
        }),
{
    let d = SystemView::delta(state, state);
    assert(d.add == SystemView::absent());
    assert(d.remove == SystemView::absent());
    assert(SystemView::additions(d.add) =~= no_actions());
}

/// Reconciling the shell settings against a desired state that equals the
/// observed one is a no-op: the delta is empty, and applying it performs no
/// action.
pub proof fn shell_noop(state: ShellView)
    ensures
        ({
            let d = ShellView::delta(state, state);
            &&& d.add == ShellView::absent()
            &&& d.remove == ShellView::absent()
            &&& ShellView::additions(d.add) == no_actions()
        }),
{
    let d = ShellView::delta(state, state);
    assert(d.add == ShellView::absent());
    assert(d.remove == ShellView::absent());
    assert(ShellView::additions(d.add) =~= no_actions());
}

/// Reconciling the user accounts against a desired state that equals the
/// observed one is a no-op: the delta is empty, and applying it performs no
/// action.
pub proof fn users_noop(state: UsersView, findings: Seq<FindingView>)
    ensures
        ({
            let d = UsersView::delta(state, state);
            &&& d.add == UsersView::absent()
            &&& d.remove == UsersView::absent()
            &&& UsersView::additions(d.add, findings) == nothing_planned()
            &&& UsersView::removals(d.remove) == no_actions()
        }),
{
    set_delta_is_set_difference(state.user_list, state.user_list);
    set_delta_is_set_difference(state.user_groups, state.user_groups);
    let d = UsersView::delta(state, state);
    assert(d.add == UsersView::absent());
    assert(d.remove == UsersView::absent());
    assert(UsersView::additions(d.add, findings) == nothing_planned()) by {
        assert(no_actions() + no_actions() =~= no_actions());
    }
    assert(UsersView::removals(d.remove) =~= no_actions());
}

/// Reconciling the package manager configuration against a desired state that
/// equals the observed one is a no-op: the delta is empty, and applying it
/// performs no action.
pub proof fn pacman_noop(state: PacmanView)
    ensures
        ({
            let d = PacmanView::delta(state, state);
            &&& d.add == PacmanView::absent()
            &&& d.remove == PacmanView::absent()
            &&& PacmanView::additions(d.add) == no_actions()
        }),
{
    let d = PacmanView::delta(state, state);
    assert(d.add == PacmanView::absent());
    assert(d.remove == PacmanView::absent());
    assert(PacmanView::additions(d.add) =~= no_actions());
}

/// Reconciling the enabled services against a desired state that equals the
/// observed one is a no-op: the delta is empty, and applying it performs no
/// action.
pub proof fn services_noop(state: ServicesView, context: ExecutionContext)
    ensures
        ({
            let d = ServicesView::delta(state, state);
            &&& d.add == ServicesView::absent()
            &&& d.remove == ServicesView::absent()
            &&& ServicesView::additions(d.add, context) == no_actions()
            &&& ServicesView::removals(d.remove, context) == no_actions()
        }),
{
    set_delta_is_set_difference(state.user_services, state.user_services);
    set_delta_is_set_difference(state.services, state.services);
    let d = ServicesView::delta(state, state);
    assert(d.add == ServicesView::absent());
    assert(d.remove == ServicesView::absent());
    assert(ServicesView::additions(d.add, context) =~= no_actions());
    assert(ServicesView::removals(d.remove, context) =~= no_actions());
}

/// Reconciling the installed packages against a desired state that equals the
/// observed one is a no-op: the delta is empty, and applying it performs no
/// action.
pub proof fn packages_noop(
    state: PackagesView,
    findings: Seq<FindingView>,
    context: ExecutionContext,
)
    ensures
        ({
            let d = PackagesView::delta(state, state);
            &&& d.add == PackagesView::absent()
            &&& d.remove == PackagesView::absent()
            &&& PackagesView::additions(d.add, findings, context) == nothing_planned()
            &&& PackagesView::removals(d.remove, context) == no_actions()
        }),
{
    set_delta_is_set_difference(state.pacman_packages, state.pacman_packages);
    set_delta_is_set_difference(state.aur_packages, state.aur_packages);
    set_delta_is_set_difference(state.manual_install_packages, state.manual_install_packages);
    let d = PackagesView::delta(state, state);
    assert(d.add == PackagesView::absent());
    assert(d.remove == PackagesView::absent());
    assert(PackagesView::additions(d.add, findings, context) == nothing_planned()) by {
        assert(no_actions() + no_actions() =~= no_actions());
    }
    assert(PackagesView::removals(d.remove, context) =~= no_actions());
}

/// Reconciling the directories and links against a desired state that equals
/// the observed one is a no-op: the delta is empty, and applying it performs
/// no action.
pub proof fn directories_noop(
    state: DirectoriesView,
    findings: Seq<FindingView>,
    context: ExecutionContext,
)
    ensures
        ({
            let d = DirectoriesView::delta(state, state);
            &&& d.add == DirectoriesView::absent()
            &&& d.remove == DirectoriesView::absent()
            &&& DirectoriesView::additions(d.add, findings, context) == nothing_planned()
        }),
{
    set_delta_is_set_difference(state.reown_dirs, state.reown_dirs);
    set_delta_is_set_difference(state.links, state.links);
    set_delta_is_set_difference(state.create_dirs, state.create_dirs);
    let d = DirectoriesView::delta(state, state);
    assert(d.add == DirectoriesView::absent());
    assert(d.remove == DirectoriesView::absent());
    assert(DirectoriesView::additions(d.add, findings, context) == nothing_planned()) by {
        assert(no_actions() + no_actions() =~= no_actions());
    }
}

/// Reconciling the boot loader configuration against a desired state that
/// equals the observed one is a no-op: the delta is empty, and applying it
/// performs no action.
pub proof fn grub_noop(state: GrubView)
    ensures
        ({
            let d = GrubView::delta(state, state);
            &&& d.add == GrubView::absent()
            &&& d.remove == GrubView::absent()
            &&& GrubView::additions(state, d.add, d.remove) == no_actions()
        }),
{
    set_delta_is_set_difference(state.grub_cmdline_linux_default, state.grub_cmdline_linux_default);
    let d = GrubView::delta(state, state);
    assert(d.add == GrubView::absent());
    assert(d.remove == GrubView::absent());
    assert(GrubView::additions(state, d.add, d.remove) =~= no_actions());
}

/// Reconciling the initial ramdisk configuration against a desired state that
/// equals the observed one is a no-op: the delta is empty, and applying it
/// performs no action.
pub proof fn mkinitcpio_noop(state: MkinitcpioView)
    ensures
        ({
            let d = MkinitcpioView::delta(state, state);
            &&& d.add == MkinitcpioView::absent()
            &&& d.remove == MkinitcpioView::absent()
            &&& MkinitcpioView::additions(state, d.add, d.remove) == no_actions()
        }),
{
    set_delta_is_set_difference(state.modules, state.modules);
    set_delta_is_set_difference(state.hooks, state.hooks);
    let d = MkinitcpioView::delta(state, state);
    assert(d.add == MkinitcpioView::absent());
    assert(d.remove == MkinitcpioView::absent());
    assert(MkinitcpioView::additions(state, d.add, d.remove) =~= no_actions());
}

/// Reconciling the downloads against a desired state that equals the
/// observed one is a no-op: the delta is empty, and applying it performs no
/// action.
pub proof fn downloads_noop(
    state: DownloadsView,
    findings: Seq<FindingView>,
    context: ExecutionContext,
)
    ensures
        ({
            let d = DownloadsView::delta(state, state);
            &&& d.add == DownloadsView::absent()
            &&& d.remove == DownloadsView::absent()
            &&& DownloadsView::additions(d.add, findings, context) == nothing_planned()
        }),
{
    set_delta_is_set_difference(state.git, state.git);
    set_delta_is_set_difference(state.curl, state.curl);
    set_delta_is_set_difference(state.unzip, state.unzip);
    let d = DownloadsView::delta(state, state);
    assert(d.add == DownloadsView::absent());
    assert(d.remove == DownloadsView::absent());
    assert(DownloadsView::additions(d.add, findings, context) == nothing_planned()) by {
        assert(no_actions() + no_actions() =~= no_actions());
    }
}

/// Reconciling the firewall against a desired state that equals the
/// observed one is a no-op: the delta is empty, and applying it performs no
/// action.
pub proof fn ufw_noop(state: UfwView)
    ensures
        ({
            let d = UfwView::delta(state, state);
            &&& d.add == UfwView::absent()
            &&& d.remove == UfwView::absent()
            &&& UfwView::additions(d.add) == no_actions()
            &&& UfwView::removals(d.remove) == no_actions()
        }),
{
    set_delta_is_set_difference(state.rules, state.rules);
    let d = UfwView::delta(state, state);
    assert(d.add == UfwView::absent());
    assert(d.remove == UfwView::absent());
    assert(UfwView::additions(d.add) =~= no_actions());
    assert(UfwView::removals(d.remove) =~= no_actions());
}

/// Reconciling the intrusion prevention policy against a desired state that
/// equals the observed one is a no-op: the delta is empty, and applying it
/// performs no action.
pub proof fn fail2ban_noop(state: Fail2BanView)
    ensures
        ({
            let d = Fail2BanView::delta(state, state);
            &&& d.add == Fail2BanView::absent()
            &&& d.remove == Fail2BanView::absent()
            &&& Fail2BanView::additions(d.add) == no_actions()
            &&& Fail2BanView::removals(d.remove) == no_actions()
        }),
{
    set_delta_is_set_difference(state.services, state.services);
    let d = Fail2BanView::delta(state, state);
    assert(d.add == Fail2BanView::absent());
    assert(d.remove == Fail2BanView::absent());
    assert(Fail2BanView::additions(d.add) =~= no_actions());
    assert(Fail2BanView::removals(d.remove) =~= no_actions());
}

/// Reconciling the monitor layout against a desired state that equals the
/// observed one is a no-op: the delta is empty, and applying it performs no
/// action.
pub proof fn monitor_noop(state: MonitorView)
    ensures
        ({
            let d = MonitorView::delta(state, state);
            &&& d.add == MonitorView::absent()
            &&& d.remove == MonitorView::absent()
            &&& MonitorView::additions(state, d.add, d.remove) == no_actions()
        }),
{
    set_delta_is_set_difference(state.monitors, state.monitors);
    let d = MonitorView::delta(state, state);
    assert(d.add == MonitorView::absent());
    assert(d.remove == MonitorView::absent());
    assert(MonitorView::additions(state, d.add, d.remove) =~= no_actions());
}

/// Reconciling the text files against a desired state that equals the
/// observed one is a no-op: the delta is empty, and applying it performs no
/// action.
pub proof fn files_noop(
    state: FilesView,
    findings: Seq<FindingView>,
    context: ExecutionContext,
)
    ensures
        ({
            let d = FilesView::delta(state, state);
            &&& d.add == FilesView::absent()
            &&& d.remove == FilesView::absent()
            &&& FilesView::additions(d.add, findings, context) == nothing_planned()
        }),
{
    set_delta_is_set_difference(state.files, state.files);
    let d = FilesView::delta(state, state);
    assert(d.add == FilesView::absent());
    assert(d.remove == FilesView::absent());
    assert(FilesView::additions(d.add, findings, context) == nothing_planned()) by {
        assert(no_actions() + no_actions() =~= no_actions());
    }
}

/// Loading the user accounts, an empty list and an absent one are the same:
/// whichever of the two a list-valued field holds, the result of loading is
/// the same.
pub proof fn users_empty_is_absent(config: UsersView, context: ExecutionContext)
    ensures
        ({
            let empty = UsersView { user_list: Some(Seq::empty()), ..config };
            let absent = UsersView { user_list: None, ..config };
            &&& UsersView::loaded(empty, context) == UsersView::loaded(absent, context)
        }),
        ({
            let empty = UsersView { user_groups: Some(Seq::empty()), ..config };
            let absent = UsersView { user_groups: None, ..config };
            &&& UsersView::loaded(empty, context) == UsersView::loaded(absent, context)
        }),
{
}

/// Loading the enabled services, an empty list and an absent one are the same:
/// whichever of the two a list-valued field holds, the result of loading is
/// the same, and in it the field is absent.
pub proof fn services_empty_is_absent(config: ServicesView, context: ExecutionContext)
    ensures
        ({
            let empty = ServicesView { user_services: Some(Seq::empty()), ..config };
            let absent = ServicesView { user_services: None, ..config };
            &&& ServicesView::loaded(empty, context) == ServicesView::loaded(absent, context)
            &&& ServicesView::loaded(absent, context)->Ok_0.user_services is None
        }),
        ({
            let empty = ServicesView { services: Some(Seq::empty()), ..config };
            let absent = ServicesView { services: None, ..config };
            &&& ServicesView::loaded(empty, context) == ServicesView::loaded(absent, context)
            &&& ServicesView::loaded(absent, context)->Ok_0.services is None
        }),
{
}

/// Loading the installed packages, an empty list and an absent one are the
/// same: whichever of the two a list-valued field holds, the result of loading
/// is the same, and in it the field is absent.
pub proof fn packages_empty_is_absent(config: PackagesView, context: ExecutionContext)
    ensures
        ({
            let empty = PackagesView { pacman_packages: Some(Seq::empty()), ..config };
            let absent = PackagesView { pacman_packages: None, ..config };
            &&& PackagesView::loaded(empty, context) == PackagesView::loaded(absent, context)
            &&& PackagesView::loaded(absent, context)->Ok_0.pacman_packages is None
        }),
        ({
            let empty = PackagesView { aur_packages: Some(Seq::empty()), ..config };
            let absent = PackagesView { aur_packages: None, ..config };
            &&& PackagesView::loaded(empty, context) == PackagesView::loaded(absent, context)
            &&& PackagesView::loaded(absent, context)->Ok_0.aur_packages is None
        }),
        ({
            let empty = PackagesView { manual_install_packages: Some(Seq::empty()), ..config };
            let absent = PackagesView { manual_install_packages: None, ..config };
            &&& PackagesView::loaded(empty, context) == PackagesView::loaded(absent, context)
            &&& PackagesView::loaded(absent, context)->Ok_0.manual_install_packages is None
        }),
{
}

/// Loading the directories and links, an empty list and an absent one are the
/// same: whichever of the two a list-valued field holds, the result of loading
/// is the same, and in it the field is absent.
pub proof fn directories_empty_is_absent(config: DirectoriesView, context: ExecutionContext)
    ensures
        ({
            let empty = DirectoriesView { reown_dirs: Some(Seq::empty()), ..config };
            let absent = DirectoriesView { reown_dirs: None, ..config };
            &&& DirectoriesView::loaded(empty, context) == DirectoriesView::loaded(absent, context)
            &&& DirectoriesView::loaded(absent, context)->Ok_0.reown_dirs is None
        }),
        ({
            let empty = DirectoriesView { links: Some(Seq::empty()), ..config };
            let absent = DirectoriesView { links: None, ..config };
            &&& DirectoriesView::loaded(empty, context) == DirectoriesView::loaded(absent, context)
            &&& DirectoriesView::loaded(absent, context)->Ok_0.links is None
        }),
        ({
            let empty = DirectoriesView { create_dirs: Some(Seq::empty()), ..config };
            let absent = DirectoriesView { create_dirs: None, ..config };
            &&& DirectoriesView::loaded(empty, context) == DirectoriesView::loaded(absent, context)
            &&& DirectoriesView::loaded(absent, context)->Ok_0.create_dirs is None
        }),
{
}

/// Loading the boot loader configuration, an empty list and an absent one are
/// the same: whichever of the two a list-valued field holds, the result of
/// loading is the same, and in it the field is absent.
pub proof fn grub_empty_is_absent(config: GrubView, context: ExecutionContext)
    ensures
        ({
            let empty = GrubView { grub_cmdline_linux_default: Some(Seq::empty()), ..config };
            let absent = GrubView { grub_cmdline_linux_default: None, ..config };
            &&& GrubView::loaded(empty, context) == GrubView::loaded(absent, context)
            &&& GrubView::loaded(absent, context)->Ok_0.grub_cmdline_linux_default is None
        }),
{
}

/// Loading the initial ramdisk configuration, an empty list and an absent one
/// are the same: whichever of the two a list-valued field holds, the result of
/// loading is the same, and in it the field is absent.
pub proof fn mkinitcpio_empty_is_absent(config: MkinitcpioView, context: ExecutionContext)
    ensures
        ({
            let empty = MkinitcpioView { modules: Some(Seq::empty()), ..config };
            let absent = MkinitcpioView { modules: None, ..config };
            &&& MkinitcpioView::loaded(empty, context) == MkinitcpioView::loaded(absent, context)
            &&& MkinitcpioView::loaded(absent, context)->Ok_0.modules is None
        }),
        ({
            let empty = MkinitcpioView { hooks: Some(Seq::empty()), ..config };
            let absent = MkinitcpioView { hooks: None, ..config };
            &&& MkinitcpioView::loaded(empty, context) == MkinitcpioView::loaded(absent, context)
            &&& MkinitcpioView::loaded(absent, context)->Ok_0.hooks is None
        }),
{
}

/// Loading the downloads, an empty list and an absent one are the same:
/// whichever of the two a list-valued field holds, the result of loading is
/// the same, and in it the field is absent.
pub proof fn downloads_empty_is_absent(config: DownloadsView, context: ExecutionContext)
    ensures
        ({
            let empty = DownloadsView { git: Some(Seq::empty()), ..config };
            let absent = DownloadsView { git: None, ..config };
            &&& DownloadsView::loaded(empty, context) == DownloadsView::loaded(absent, context)
            &&& DownloadsView::loaded(absent, context)->Ok_0.git is None
        }),
        ({
            let empty = DownloadsView { curl: Some(Seq::empty()), ..config };
            let absent = DownloadsView { curl: None, ..config };
            &&& DownloadsView::loaded(empty, context) == DownloadsView::loaded(absent, context)
            &&& DownloadsView::loaded(absent, context)->Ok_0.curl is None
        }),
        ({
            let empty = DownloadsView { unzip: Some(Seq::empty()), ..config };
            let absent = DownloadsView { unzip: None, ..config };
            &&& DownloadsView::loaded(empty, context) == DownloadsView::loaded(absent, context)
            &&& DownloadsView::loaded(absent, context)->Ok_0.unzip is None
        }),
{
}

/// Loading the firewall, an empty list and an absent one are the same:
/// whichever of the two a list-valued field holds, the result of loading is
/// the same, and in it the field is absent.
pub proof fn ufw_empty_is_absent(config: UfwView, context: ExecutionContext)
    ensures
        ({
            let empty = UfwView { rules: Some(Seq::empty()), ..config };
            let absent = UfwView { rules: None, ..config };
            &&& UfwView::loaded(empty, context) == UfwView::loaded(absent, context)
            &&& UfwView::loaded(absent, context)->Ok_0.rules is None
        }),
{
}

/// Loading the intrusion prevention policy, an empty list and an absent one
/// are the same: whichever of the two a list-valued field holds, the result of
/// loading is the same, and in it the field is absent.
pub proof fn fail2ban_empty_is_absent(config: Fail2BanView, context: ExecutionContext)
    ensures
        ({
            let empty = Fail2BanView { services: Some(Seq::empty()), ..config };
            let absent = Fail2BanView { services: None, ..config };
            &&& Fail2BanView::loaded(empty, context) == Fail2BanView::loaded(absent, context)
            &&& Fail2BanView::loaded(absent, context)->Ok_0.services is None
        }),
{
}

/// Loading the monitor layout, an empty list and an absent one are the same:
/// whichever of the two a list-valued field holds, the result of loading is
/// the same, and in it the field is absent.
pub proof fn monitor_empty_is_absent(config: MonitorView, context: ExecutionContext)
    ensures
        ({
            let empty = MonitorView { monitors: Some(Seq::empty()), ..config };
            let absent = MonitorView { monitors: None, ..config };
            &&& MonitorView::loaded(empty, context) == MonitorView::loaded(absent, context)
            &&& MonitorView::loaded(absent, context)->Ok_0.monitors is None
        }),
{
}

/// Loading the text files, an empty list and an absent one are the same:
/// whichever of the two a list-valued field holds, the result of loading is
/// the same, and in it the field is absent.
pub proof fn files_empty_is_absent(config: FilesView, context: ExecutionContext)
    ensures
        ({
            let empty = FilesView { files: Some(Seq::empty()), ..config };
            let absent = FilesView { files: None, ..config };
            &&& FilesView::loaded(empty, context) == FilesView::loaded(absent, context)
            &&& FilesView::loaded(absent, context)->Ok_0.files is None
        }),
{
}

/// Loading is idempotent for the keyboard layout: what was loaded loads as
/// itself.
pub proof fn keyboard_load_is_idempotent(config: KeyboardView, context: ExecutionContext)
    ensures
        match KeyboardView::loaded(config, context) {
            Ok(desired) => KeyboardView::loaded(desired, context) is Ok && KeyboardView::loaded(
                desired,
                context,
            )->Ok_0 == desired,
            Err(_) => true,
        },
{
}

/// Loading is idempotent for the time settings: what was loaded loads as
/// itself.
pub proof fn time_load_is_idempotent(config: TimeView, context: ExecutionContext)
    ensures
        match TimeView::loaded(config, context) {
            Ok(desired) => TimeView::loaded(desired, context) is Ok && TimeView::loaded(
                desired,
                context,
            )->Ok_0 == desired,
            Err(_) => true,
        },
{
}

/// Loading is idempotent for the language settings: what was loaded loads as
/// itself.
pub proof fn language_load_is_idempotent(config: LanguageView, context: ExecutionContext)
    ensures
        match LanguageView::loaded(config, context) {
            Ok(desired) => LanguageView::loaded(desired, context) is Ok && LanguageView::loaded(
                desired,
                context,
            )->Ok_0 == desired,
            Err(_) => true,
        },
{
}

/// Loading is idempotent for the identity of the machine: what was loaded loads as
/// itself.
pub proof fn system_load_is_idempotent(config: SystemView, context: ExecutionContext)
    ensures
        match SystemView::loaded(config, context) {
            Ok(desired) => SystemView::loaded(desired, context) is Ok && SystemView::loaded(
                desired,
                context,
            )->Ok_0 == desired,
            Err(_) => true,
        },
{
}

/// Loading is idempotent for the shell settings: what was loaded loads as
/// itself.
pub proof fn shell_load_is_idempotent(config: ShellView, context: ExecutionContext)
    ensures
        match ShellView::loaded(config, context) {
            Ok(desired) => ShellView::loaded(desired, context) is Ok && ShellView::loaded(
                desired,
                context,
            )->Ok_0 == desired,
            Err(_) => true,
        },
{
}

/// Loading is idempotent for the user accounts: what was loaded loads as
/// itself.
pub proof fn users_load_is_idempotent(config: UsersView, context: ExecutionContext)
    ensures
        match UsersView::loaded(config, context) {
            Ok(desired) => UsersView::loaded(desired, context) is Ok && UsersView::loaded(
                desired,
                context,
            )->Ok_0 == desired,
            Err(_) => true,
        },
{
}

/// Loading is idempotent for the package manager configuration: what was loaded loads as
/// itself.
pub proof fn pacman_load_is_idempotent(config: PacmanView, context: ExecutionContext)
    ensures
        match PacmanView::loaded(config, context) {
            Ok(desired) => PacmanView::loaded(desired, context) is Ok && PacmanView::loaded(
                desired,
                context,
            )->Ok_0 == desired,
            Err(_) => true,
        },
{
}

/// Loading is idempotent for the enabled services: what was loaded loads as
/// itself.
pub proof fn services_load_is_idempotent(config: ServicesView, context: ExecutionContext)
    ensures
        match ServicesView::loaded(config, context) {
            Ok(desired) => ServicesView::loaded(desired, context) is Ok && ServicesView::loaded(
                desired,
                context,
            )->Ok_0 == desired,
            Err(_) => true,
        },
{
    normalizing_is_idempotent(config.user_services);
    normalizing_is_idempotent(config.services);
}

/// Loading is idempotent for the installed packages: what was loaded loads as
/// itself.
pub proof fn packages_load_is_idempotent(config: PackagesView, context: ExecutionContext)
    ensures
        match PackagesView::loaded(config, context) {
            Ok(desired) => PackagesView::loaded(desired, context) is Ok && PackagesView::loaded(
                desired,
                context,
            )->Ok_0 == desired,
            Err(_) => true,
        },
{
    normalizing_is_idempotent(config.pacman_packages);
    normalizing_is_idempotent(config.aur_packages);
    normalizing_is_idempotent(config.manual_install_packages);
}

/// Loading is idempotent for the directories and links: what was loaded loads as
/// itself.
pub proof fn directories_load_is_idempotent(config: DirectoriesView, context: ExecutionContext)
    ensures
        match DirectoriesView::loaded(config, context) {
            Ok(desired) => DirectoriesView::loaded(desired, context) is Ok
                && DirectoriesView::loaded(desired, context)->Ok_0 == desired,
            Err(_) => true,
        },
{
    normalizing_is_idempotent(config.reown_dirs);
    normalizing_is_idempotent(config.links);
    normalizing_is_idempotent(config.create_dirs);
}

/// Loading is idempotent for the boot loader configuration: what was loaded loads as
/// itself.
pub proof fn grub_load_is_idempotent(config: GrubView, context: ExecutionContext)
    ensures
        match GrubView::loaded(config, context) {
            Ok(desired) => GrubView::loaded(desired, context) is Ok && GrubView::loaded(
                desired,
                context,
            )->Ok_0 == desired,
            Err(_) => true,
        },
{
    normalizing_is_idempotent(config.grub_cmdline_linux_default);
}

/// Loading is idempotent for the initial ramdisk configuration: what was loaded loads as
/// itself.
pub proof fn mkinitcpio_load_is_idempotent(config: MkinitcpioView, context: ExecutionContext)
    ensures
        match MkinitcpioView::loaded(config, context) {
            Ok(desired) => MkinitcpioView::loaded(desired, context) is Ok && MkinitcpioView::loaded(
                desired,
                context,
            )->Ok_0 == desired,
            Err(_) => true,
        },
{
    normalizing_is_idempotent(config.modules);
    normalizing_is_idempotent(config.hooks);
}

/// Loading is idempotent for the downloads: what was loaded loads as
/// itself.
pub proof fn downloads_load_is_idempotent(config: DownloadsView, context: ExecutionContext)
    ensures
        match DownloadsView::loaded(config, context) {
            Ok(desired) => DownloadsView::loaded(desired, context) is Ok && DownloadsView::loaded(
                desired,
                context,
            )->Ok_0 == desired,
            Err(_) => true,
        },
{
    normalizing_is_idempotent(config.git);
    normalizing_is_idempotent(config.curl);
    normalizing_is_idempotent(config.unzip);
}

/// Loading is idempotent for the firewall: what was loaded loads as
/// itself.
pub proof fn ufw_load_is_idempotent(config: UfwView, context: ExecutionContext)
    ensures
        match UfwView::loaded(config, context) {
            Ok(desired) => UfwView::loaded(desired, context) is Ok && UfwView::loaded(
                desired,
                context,
            )->Ok_0 == desired,
            Err(_) => true,
        },
{
    normalizing_is_idempotent(config.rules);
}

/// Loading is idempotent for the intrusion prevention policy: what was loaded loads as
/// itself.
pub proof fn fail2ban_load_is_idempotent(config: Fail2BanView, context: ExecutionContext)
    ensures
        match Fail2BanView::loaded(config, context) {
            Ok(desired) => Fail2BanView::loaded(desired, context) is Ok && Fail2BanView::loaded(
                desired,
                context,
            )->Ok_0 == desired,
            Err(_) => true,
        },
{
    normalizing_is_idempotent(config.services);
}

/// Loading is idempotent for the monitor layout: what was loaded loads as
/// itself.
pub proof fn monitor_load_is_idempotent(config: MonitorView, context: ExecutionContext)
    ensures
        match MonitorView::loaded(config, context) {
            Ok(desired) => MonitorView::loaded(desired, context) is Ok && MonitorView::loaded(
                desired,
                context,
            )->Ok_0 == desired,
            Err(_) => true,
        },
{
    normalizing_is_idempotent(config.monitors);
}

/// Loading is idempotent for the text files: what was loaded loads as
/// itself.
pub proof fn files_load_is_idempotent(config: FilesView, context: ExecutionContext)
    ensures
        match FilesView::loaded(config, context) {
            Ok(desired) => FilesView::loaded(desired, context) is Ok && FilesView::loaded(
                desired,
                context,
            )->Ok_0 == desired,
            Err(_) => true,
        },
{
    normalizing_is_idempotent(config.files);
}

/// The two halves of the services exclude each other: a privileged run
/// loads and observes no services of the user session, an unprivileged one
/// none of the system.
pub proof fn services_halves_exclude(
    config: ServicesView,
    findings: Seq<FindingView>,
    context: ExecutionContext,
)
    ensures
        match ServicesView::loaded(config, context) {
            Ok(desired) => (context.privileged ==> desired.user_services is None)
                && (!context.privileged ==> desired.services is None),
            Err(_) => false,
        },
        match ServicesView::observed(findings, context) {
            ProbeView::Done(system) => (context.privileged ==> system.user_services is None)
                && (!context.privileged ==> system.services is None),
            _ => true,
        },
        (context.privileged ==> ServicesView::taken_over(config, context).user_services is None)
            && (!context.privileged ==> ServicesView::taken_over(config, context).services
            is None),
{
}

/// The two repositories exclude each other: a privileged run loads and
/// observes no packages of the user repository, an unprivileged one none of
/// the official repositories.
pub proof fn packages_halves_exclude(
    config: PackagesView,
    findings: Seq<FindingView>,
    context: ExecutionContext,
)
    ensures
        match PackagesView::loaded(config, context) {
            Ok(desired) => (context.privileged ==> desired.aur_packages is None)
                && (!context.privileged ==> desired.pacman_packages is None),
            Err(_) => false,
        },
        match PackagesView::observed(config, findings, context) {
            ProbeView::Done(system) => (context.privileged ==> system.aur_packages is None)
                && (!context.privileged ==> system.pacman_packages is None),
            _ => true,
        },
        (context.privileged ==> PackagesView::taken_over(config, context).aur_packages is None)
            && (!context.privileged ==> PackagesView::taken_over(config, context).pacman_packages
            is None),
{
}

/// The groups of directories belong to the privileged half: an
/// unprivileged run neither loads nor observes them, and plans nothing for
/// them.
pub proof fn directory_groups_need_privilege(
    config: DirectoriesView,
    findings: Seq<FindingView>,
    context: ExecutionContext,
)
    requires
        !context.privileged,
    ensures
        DirectoriesView::loaded(config, context) is Ok,
        DirectoriesView::loaded(config, context)->Ok_0.reown_dirs is None,
        DirectoriesView::taken_over(config, context).reown_dirs is None,
        match DirectoriesView::observed(config, findings, context) {
            ProbeView::Done(system) => system.reown_dirs is None,
            _ => true,
        },
        creation_of::<ReownDirs>(config.reown_dirs, findings, context) == nothing_planned(),
{
    match config.reown_dirs {
        Some(list) => {
            nothing_for_unprivileged(list, findings, context);
        },
        None => {},
    }
}

/// An unprivileged run plans nothing for the groups of directories.
pub proof fn nothing_for_unprivileged(
    list: Seq<ReownDirsView>,
    findings: Seq<FindingView>,
    context: ExecutionContext,
)
    requires
        !context.privileged,
    ensures
        creation_of_all::<ReownDirs>(list, findings, context) == nothing_planned(),
    decreases list.len(),
{
    if list.len() > 0 {
        nothing_for_unprivileged(list.drop_last(), findings, context);
        assert(no_actions() + no_actions() =~= no_actions());
    }
}

/// An entry that belongs to the other execution context is left alone: it
/// counts as found whatever the system holds, and nothing is planned for
/// it. This holds of every kind of entry that says which context it belongs
/// to.
pub proof fn other_context_is_left_alone(
    findings: Seq<FindingView>,
    context: ExecutionContext,
    directory: CreateDirsView,
    link: LinksView,
    git: GitDownloadView,
    curl: CurlDownloadView,
    unzip: UnzipView,
    file: TextToFileView,
    package: ManualInstallPackagesView,
)
    ensures
        directory.root != context.privileged ==> CreateDirs::found(directory, findings, context)
            == ProbeView::Done(true) && CreateDirs::creation(directory, findings, context)
            == nothing_planned(),
        link.root != context.privileged ==> Links::found(link, findings, context)
            == ProbeView::Done(true) && Links::creation(link, findings, context)
            == nothing_planned(),
        git.root != context.privileged ==> GitDownload::found(git, findings, context)
            == ProbeView::Done(true) && GitDownload::creation(git, findings, context)
            == nothing_planned(),
        curl.root != context.privileged ==> CurlDownload::found(curl, findings, context)
            == ProbeView::Done(true) && CurlDownload::creation(curl, findings, context)
            == nothing_planned(),
        unzip.root != context.privileged ==> Unzip::found(unzip, findings, context)
            == ProbeView::Done(true) && Unzip::creation(unzip, findings, context)
            == nothing_planned(),
        file.root != context.privileged ==> TextToFile::found(file, findings, context)
            == ProbeView::Done(true) && TextToFile::creation(file, findings, context)
            == nothing_planned(),
        package.root != context.privileged ==> ManualInstallPackages::found(
            package,
            findings,
            context,
        ) == ProbeView::Done(true) && ManualInstallPackages::creation(package, findings, context)
            == nothing_planned(),
{
}

/// The user accounts belong to the privileged half as a whole: an
/// unprivileged run does not manage them.
pub proof fn users_need_privilege(context: ExecutionContext)
    ensures
        UsersView::managed(context) == context.privileged,
{
}

/// The action that makes `group`.
pub open spec fn making(group: Seq<char>) -> ActionView {
    run("groupadd "@ + group)
}

/// The group that an action makes, if it makes one.
pub open spec fn made_by(action: ActionView) -> Seq<char> {
    action->Execute_command.skip(9)
}

/// The action that makes a group names that group and no other.
pub proof fn making_names_its_group(group: Seq<char>)
    ensures
        made_by(making(group)) == group,
{
    reveal_strlit("groupadd ");
    assert(("groupadd "@ + group).skip(9) =~= group);
}

/// Putting a user into their groups makes no group.
pub proof fn joining_makes_no_group(user: UserView, group: Seq<char>)
    ensures
        run(membership(user)) != making(group),
{
    reveal_strlit("groupadd ");
    reveal_strlit("usermod -aG ");
    assert(membership(user)[0] == 'u');
    assert(("groupadd "@ + group)[0] == 'g');
}

/// Each action of a plan that makes groups makes one of the groups that it
/// was planned for, and none that the plan has dealt with before.
pub proof fn made_group_is_new(
    findings: Seq<FindingView>,
    earlier: Seq<Seq<char>>,
    groups: Seq<Seq<char>>,
    i: int,
)
    requires
        group_creation(findings, earlier, groups) is Done,
        0 <= i < group_creation(findings, earlier, groups)->Done_0.len(),
    ensures
        ({
            let action = group_creation(findings, earlier, groups)->Done_0[i];
            &&& action == making(made_by(action))
            &&& groups.contains(made_by(action))
            &&& !earlier.contains(made_by(action))
        }),
    decreases groups.len(),
{
    let front = groups.drop_last();
    let group = groups.last();
    let before = group_creation(findings, earlier, front)->Done_0;
    if i < before.len() {
        made_group_is_new(findings, earlier, front, i);
        let name = made_by(before[i]);
        let k = choose|k: int| 0 <= k < front.len() && front[k] == name;
        assert(groups[k] == name);
    } else {
        making_names_its_group(group);
        assert(groups[groups.len() - 1] == group);
        if earlier.contains(group) {
            let k = choose|k: int| 0 <= k < earlier.len() && earlier[k] == group;
            assert((earlier + front)[k] == group);
        }
    }
}

/// No two actions of a plan that makes groups make the same group.
pub proof fn made_groups_differ(
    findings: Seq<FindingView>,
    earlier: Seq<Seq<char>>,
    groups: Seq<Seq<char>>,
    i: int,
    j: int,
)
    requires
        group_creation(findings, earlier, groups) is Done,
        0 <= i < j < group_creation(findings, earlier, groups)->Done_0.len(),
    ensures
        ({
            let actions = group_creation(findings, earlier, groups)->Done_0;
            made_by(actions[i]) != made_by(actions[j])
        }),
    decreases groups.len(),
{
    let front = groups.drop_last();
    let group = groups.last();
    let before = group_creation(findings, earlier, front)->Done_0;
    if j < before.len() {
        made_groups_differ(findings, earlier, front, i, j);
    } else {
        making_names_its_group(group);
        made_group_is_new(findings, earlier, front, i);
        let name = made_by(before[i]);
        let k = choose|k: int| 0 <= k < front.len() && front[k] == name;
        assert((earlier + front)[earlier.len() + k] == name);
    }
}

/// A group that a plan for users makes is a group of one of these users.
pub proof fn planned_group_is_listed(findings: Seq<FindingView>, users: Seq<UserView>, i: int)
    requires
        memberships(findings, users) is Done,
        0 <= i < memberships(findings, users)->Done_0.len(),
        memberships(findings, users)->Done_0[i] == making(
            made_by(memberships(findings, users)->Done_0[i]),
        ),
    ensures
        groups_of(users).contains(made_by(memberships(findings, users)->Done_0[i])),
    decreases users.len(),
{
    let front = users.drop_last();
    let user = users.last();
    let before = memberships(findings, front)->Done_0;
    let made = group_creation(findings, groups_of(front), user.groups)->Done_0;
    let action = memberships(findings, users)->Done_0[i];
    let name = made_by(action);
    if i < before.len() {
        planned_group_is_listed(findings, front, i);
        let k = choose|k: int| 0 <= k < groups_of(front).len() && groups_of(front)[k] == name;
        assert(groups_of(users)[k] == name);
    } else if i < before.len() + made.len() {
        made_group_is_new(findings, groups_of(front), user.groups, i - before.len());
        let k = choose|k: int| 0 <= k < user.groups.len() && user.groups[k] == name;
        assert(groups_of(users)[groups_of(front).len() + k] == name);
    } else {
        joining_makes_no_group(user, name);
    }
}

/// A plan that puts users into their groups makes no group twice, in
/// whatever order users and groups are listed and however often a group
/// is named.
pub proof fn no_group_is_made_twice(
    findings: Seq<FindingView>,
    users: Seq<UserView>,
    i: int,
    j: int,
)
    requires
        memberships(findings, users) is Done,
        0 <= i < j < memberships(findings, users)->Done_0.len(),
        memberships(findings, users)->Done_0[i] == making(
            made_by(memberships(findings, users)->Done_0[i]),
        ),
    ensures
        memberships(findings, users)->Done_0[j] != memberships(findings, users)->Done_0[i],
    decreases users.len(),
{
    let front = users.drop_last();
    let user = users.last();
    let before = memberships(findings, front)->Done_0;
    let made = group_creation(findings, groups_of(front), user.groups)->Done_0;
    let name = made_by(memberships(findings, users)->Done_0[i]);
    if j < before.len() {
        no_group_is_made_twice(findings, front, i, j);
    } else if j < before.len() + made.len() {
        made_group_is_new(findings, groups_of(front), user.groups, j - before.len());
        if i < before.len() {
            planned_group_is_listed(findings, front, i);
        } else {
            made_groups_differ(
                findings,
                groups_of(front),
                user.groups,
                i - before.len(),
                j - before.len(),
            );
        }
    } else {
        joining_makes_no_group(user, name);
    }
}

} // verus!
