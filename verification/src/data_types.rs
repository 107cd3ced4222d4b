//! The snapshot triple of each resource domain: what is desired, what was
//! observed, and the delta between the two.

use vstd::prelude::*;
use crate::function::{hosts, hosts_text, HOSTS_PATH, LOCALE_GEN_PATH};
use crate::get_config::{ConfigError, GetConfig};
use crate::get_diff::GetDiff;
use crate::get_system::GetSystem;
use crate::helper::ExecutionContext;
use crate::item::Item;
use crate::probe::{
    ended_as, require_text, required_text, Fault, Finding, FindingView, Inquiry, Probe, ProbeView,
};
use crate::structure::{
    Directories, DirectoriesView, Downloads, DownloadsView, Fail2Ban, Fail2BanView, Files,
    FilesView, Grub, GrubView, Keyboard, KeyboardView, Language, LanguageView, Mkinitcpio,
    MkinitcpioView, Monitor, MonitorView, Packages, PackagesView, Pacman, PacmanView, Services,
    ServicesView, Shell, ShellView, System, SystemView, Time, TimeView, Ufw, UfwView, Users,
    UsersView,
};
use crate::text::{pieces, split, trim, trimmed};

verus! {

/// A delta: what has to be added and what has to be removed.
#[derive(Debug, PartialEq, Eq, Clone)]
pub struct Diff<T> {
    pub add: T,
    pub remove: T,
}

impl<T: DeepView> DeepView for Diff<T> {
    type V = Diff<T::V>;

    open spec fn deep_view(&self) -> Diff<T::V> {
        Diff { add: self.add.deep_view(), remove: self.remove.deep_view() }
    }
}

/// A snapshot triple in which nothing has been loaded, observed or
/// computed yet.
pub trait New<T> {
    /// Whether nothing has been loaded into `fresh`, observed in it or
    /// computed for it.
    spec fn is_new(fresh: T) -> bool;

    fn new() -> (fresh: T)
        ensures
            Self::is_new(fresh),
    ;
}

/// Runs a reconciliation pass up to the delta: the desired state is loaded
/// into a fresh triple, the observed state is established from the findings,
/// and the delta is computed. A domain that the execution context does not
/// manage is left alone. When the findings do not suffice, the next question
/// is asked and the triple is left as it was; the pass is then run again
/// with the answer.
pub trait Populate<T>: Sized {
    /// Whether a pass over `before` with the given configuration and
    /// findings ends with `r` and leaves `after`.
    spec fn populates(
        before: Self,
        config: T,
        findings: Seq<FindingView>,
        context: ExecutionContext,
        after: Self,
        r: Result<Probe<()>, ConfigError>,
    ) -> bool;

    fn populate(
        &mut self,
        config: &T,
        findings: &Vec<Finding>,
        context: ExecutionContext,
    ) -> (r: Result<Probe<()>, ConfigError>)
        ensures
            Self::populates(*old(self), *config, findings.deep_view(), context, *final(self), r),
    ;
}

/// The snapshot triple of the keyboard layout.
#[derive(Debug, PartialEq, Eq, Clone)]
pub struct KeyboardDiff {
    /// The desired state, as the configuration gives it.
    pub config: Keyboard,
    /// The observed state, as the system shows it.
    pub system: Keyboard,
    /// What leads from the observed state to the desired one.
    pub diff: Diff<Keyboard>,
}

impl New<KeyboardDiff> for KeyboardDiff {
    open spec fn is_new(fresh: KeyboardDiff) -> bool {
        &&& fresh.config@ == KeyboardView::absent()
        &&& fresh.system@ == KeyboardView::absent()
        &&& fresh.diff.add@ == KeyboardView::absent()
        &&& fresh.diff.remove@ == KeyboardView::absent()
    }

    fn new() -> (fresh: KeyboardDiff) {
        KeyboardDiff {
            config: Keyboard::absent(),
            system: Keyboard::absent(),
            diff: Diff { add: Keyboard::absent(), remove: Keyboard::absent() },
        }
    }
}

impl KeyboardView {
    /// Whether the keyboard layout is managed in the given context: by a
    /// privileged run only.
    pub open spec fn managed(context: ExecutionContext) -> bool {
        context.privileged
    }
}

impl Populate<Keyboard> for KeyboardDiff {
    open spec fn populates(
        before: KeyboardDiff,
        config: Keyboard,
        findings: Seq<FindingView>,
        context: ExecutionContext,
        after: KeyboardDiff,
        r: Result<Probe<()>, ConfigError>,
    ) -> bool {
        &&& !KeyboardView::managed(context) ==> r is Ok && r->Ok_0.deep_view()
            == ProbeView::Done(()) && after == before
        &&& KeyboardView::managed(context) ==> match KeyboardView::loaded(config@, context) {
            Err(error) => r == Err::<Probe<()>, ConfigError>(error) && after
                == before,
            Ok(desired) => r is Ok && ended_as(
                r->Ok_0,
                KeyboardView::observed(findings),
            ) && match KeyboardView::observed(findings) {
                ProbeView::Done(system) => after.config@ == desired
                    && after.system@ == system && after.diff.deep_view()
                    == KeyboardView::delta(desired, system),
                _ => after == before,
            },
        }
    }

    fn populate(
        &mut self,
        config: &Keyboard,
        findings: &Vec<Finding>,
        context: ExecutionContext,
    ) -> (r: Result<Probe<()>, ConfigError>) {
        if !context.privileged {
            return Ok(Probe::Done(()));
        }
        let mut fresh = KeyboardDiff::new();
        match fresh.get_config(config, context) {
            Ok(()) => {},
            Err(error) => {
                return Err(error);
            },
        }
        match fresh.get_system(findings, context) {
            Probe::Done(()) => {
                fresh.get_diff();
                *self = fresh;
                Ok(Probe::Done(()))
            },
            Probe::Ask(question) => Ok(Probe::Ask(question)),
            Probe::Failed(error) => Ok(Probe::Failed(error)),
        }
    }
}

/// The snapshot triple of the time settings.
#[derive(Debug, PartialEq, Eq, Clone)]
pub struct TimeDiff {
    /// The desired state, as the configuration gives it.
    pub config: Time,
    /// The observed state, as the system shows it.
    pub system: Time,
    /// What leads from the observed state to the desired one.
    pub diff: Diff<Time>,
}

impl New<TimeDiff> for TimeDiff {
    open spec fn is_new(fresh: TimeDiff) -> bool {
        &&& fresh.config@ == TimeView::absent()
        &&& fresh.system@ == TimeView::absent()
        &&& fresh.diff.add@ == TimeView::absent()
        &&& fresh.diff.remove@ == TimeView::absent()
    }

    fn new() -> (fresh: TimeDiff) {
        TimeDiff {
            config: Time::absent(),
            system: Time::absent(),
            diff: Diff { add: Time::absent(), remove: Time::absent() },
        }
    }
}

impl TimeView {
    /// Whether the time settings is managed in the given context: by a
    /// privileged run only.
    pub open spec fn managed(context: ExecutionContext) -> bool {
        context.privileged
    }
}

impl Populate<Time> for TimeDiff {
    open spec fn populates(
        before: TimeDiff,
        config: Time,
        findings: Seq<FindingView>,
        context: ExecutionContext,
        after: TimeDiff,
        r: Result<Probe<()>, ConfigError>,
    ) -> bool {
        &&& !TimeView::managed(context) ==> r is Ok && r->Ok_0.deep_view()
            == ProbeView::Done(()) && after == before
        &&& TimeView::managed(context) ==> match TimeView::loaded(config@, context) {
            Err(error) => r == Err::<Probe<()>, ConfigError>(error) && after
                == before,
            Ok(desired) => r is Ok && ended_as(
                r->Ok_0,
                TimeView::observed(findings),
            ) && match TimeView::observed(findings) {
                ProbeView::Done(system) => after.config@ == desired
                    && after.system@ == system && after.diff.deep_view()
                    == TimeView::delta(desired, system),
                _ => after == before,
            },
        }
    }

    fn populate(
        &mut self,
        config: &Time,
        findings: &Vec<Finding>,
        context: ExecutionContext,
    ) -> (r: Result<Probe<()>, ConfigError>) {
        if !context.privileged {
            return Ok(Probe::Done(()));
        }
        let mut fresh = TimeDiff::new();
        match fresh.get_config(config, context) {
            Ok(()) => {},
            Err(error) => {
                return Err(error);
            },
        }
        match fresh.get_system(findings, context) {
            Probe::Done(()) => {
                fresh.get_diff();
                *self = fresh;
                Ok(Probe::Done(()))
            },
            Probe::Ask(question) => Ok(Probe::Ask(question)),
            Probe::Failed(error) => Ok(Probe::Failed(error)),
        }
    }
}

/// The snapshot triple of the language settings.
#[derive(Debug, PartialEq, Eq, Clone)]
pub struct LanguageDiff {
    /// The desired state, as the configuration gives it.
    pub config: Language,
    /// The observed state, as the system shows it.
    pub system: Language,
    /// What leads from the observed state to the desired one.
    pub diff: Diff<Language>,
}

impl New<LanguageDiff> for LanguageDiff {
    open spec fn is_new(fresh: LanguageDiff) -> bool {
        &&& fresh.config@ == LanguageView::absent()
        &&& fresh.system@ == LanguageView::absent()
        &&& fresh.diff.add@ == LanguageView::absent()
        &&& fresh.diff.remove@ == LanguageView::absent()
    }

    fn new() -> (fresh: LanguageDiff) {
        LanguageDiff {
            config: Language::absent(),
            system: Language::absent(),
            diff: Diff { add: Language::absent(), remove: Language::absent() },
        }
    }
}

impl LanguageView {
    /// Whether the language settings is managed in the given context: by a
    /// privileged run only.
    pub open spec fn managed(context: ExecutionContext) -> bool {
        context.privileged
    }
}

impl Populate<Language> for LanguageDiff {
    open spec fn populates(
        before: LanguageDiff,
        config: Language,
        findings: Seq<FindingView>,
        context: ExecutionContext,
        after: LanguageDiff,
        r: Result<Probe<()>, ConfigError>,
    ) -> bool {
        &&& !LanguageView::managed(context) ==> r is Ok && r->Ok_0.deep_view()
            == ProbeView::Done(()) && after == before
        &&& LanguageView::managed(context) ==> match LanguageView::loaded(config@, context) {
            Err(error) => r == Err::<Probe<()>, ConfigError>(error) && after
                == before,
            Ok(desired) => r is Ok && ended_as(
                r->Ok_0,
                LanguageView::observed(findings),
            ) && match LanguageView::observed(findings) {
                ProbeView::Done(system) => after.config@ == desired
                    && after.system@ == system && after.diff.deep_view()
                    == LanguageView::delta(desired, system),
                _ => after == before,
            },
        }
    }

    fn populate(
        &mut self,
        config: &Language,
        findings: &Vec<Finding>,
        context: ExecutionContext,
    ) -> (r: Result<Probe<()>, ConfigError>) {
        if !context.privileged {
            return Ok(Probe::Done(()));
        }
        let mut fresh = LanguageDiff::new();
        match fresh.get_config(config, context) {
            Ok(()) => {},
            Err(error) => {
                return Err(error);
            },
        }
        match fresh.get_system(findings, context) {
            Probe::Done(()) => {
                fresh.get_diff();
                *self = fresh;
                Ok(Probe::Done(()))
            },
            Probe::Ask(question) => Ok(Probe::Ask(question)),
            Probe::Failed(error) => Ok(Probe::Failed(error)),
        }
    }
}

/// The snapshot triple of the identity of the machine.
#[derive(Debug, PartialEq, Eq, Clone)]
pub struct SystemDiff {
    /// The desired state, as the configuration gives it.
    pub config: System,
    /// The observed state, as the system shows it.
    pub system: System,
    /// What leads from the observed state to the desired one.
    pub diff: Diff<System>,
}

impl New<SystemDiff> for SystemDiff {
    open spec fn is_new(fresh: SystemDiff) -> bool {
        &&& fresh.config@ == SystemView::absent()
        &&& fresh.system@ == SystemView::absent()
        &&& fresh.diff.add@ == SystemView::absent()
        &&& fresh.diff.remove@ == SystemView::absent()
    }

    fn new() -> (fresh: SystemDiff) {
        SystemDiff {
            config: System::absent(),
            system: System::absent(),
            diff: Diff { add: System::absent(), remove: System::absent() },
        }
    }
}

impl SystemView {
    /// Whether the identity of the machine is managed in the given context: by a
    /// privileged run only.
    pub open spec fn managed(context: ExecutionContext) -> bool {
        context.privileged
    }
}

impl Populate<System> for SystemDiff {
    open spec fn populates(
        before: SystemDiff,
        config: System,
        findings: Seq<FindingView>,
        context: ExecutionContext,
        after: SystemDiff,
        r: Result<Probe<()>, ConfigError>,
    ) -> bool {
        &&& !SystemView::managed(context) ==> r is Ok && r->Ok_0.deep_view()
            == ProbeView::Done(()) && after == before
        &&& SystemView::managed(context) ==> match SystemView::loaded(config@, context) {
            Err(error) => r == Err::<Probe<()>, ConfigError>(error) && after
                == before,
            Ok(desired) => r is Ok && ended_as(
                r->Ok_0,
                SystemView::observed(findings),
            ) && match SystemView::observed(findings) {
                ProbeView::Done(system) => after.config@ == desired
                    && after.system@ == system && after.diff.deep_view()
                    == SystemView::delta(desired, system),
                _ => after == before,
            },
        }
    }

    fn populate(
        &mut self,
        config: &System,
        findings: &Vec<Finding>,
        context: ExecutionContext,
    ) -> (r: Result<Probe<()>, ConfigError>) {
        if !context.privileged {
            return Ok(Probe::Done(()));
        }
        let mut fresh = SystemDiff::new();
        match fresh.get_config(config, context) {
            Ok(()) => {},
            Err(error) => {
                return Err(error);
            },
        }
        match fresh.get_system(findings, context) {
            Probe::Done(()) => {
                fresh.get_diff();
                *self = fresh;
                Ok(Probe::Done(()))
            },
            Probe::Ask(question) => Ok(Probe::Ask(question)),
            Probe::Failed(error) => Ok(Probe::Failed(error)),
        }
    }
}

/// The snapshot triple of the shell settings.
#[derive(Debug, PartialEq, Eq, Clone)]
pub struct ShellDiff {
    /// The desired state, as the configuration gives it.
    pub config: Shell,
    /// The observed state, as the system shows it.
    pub system: Shell,
    /// What leads from the observed state to the desired one.
    pub diff: Diff<Shell>,
}

impl New<ShellDiff> for ShellDiff {
    open spec fn is_new(fresh: ShellDiff) -> bool {
        &&& fresh.config@ == ShellView::absent()
        &&& fresh.system@ == ShellView::absent()
        &&& fresh.diff.add@ == ShellView::absent()
        &&& fresh.diff.remove@ == ShellView::absent()
    }

    fn new() -> (fresh: ShellDiff) {
        ShellDiff {
            config: Shell::absent(),
            system: Shell::absent(),
            diff: Diff { add: Shell::absent(), remove: Shell::absent() },
        }
    }
}

impl ShellView {
    /// Whether the shell settings are managed in the given context: always.
    pub open spec fn managed(context: ExecutionContext) -> bool {
        true
    }
}

impl Populate<Shell> for ShellDiff {
    open spec fn populates(
        before: ShellDiff,
        config: Shell,
        findings: Seq<FindingView>,
        context: ExecutionContext,
        after: ShellDiff,
        r: Result<Probe<()>, ConfigError>,
    ) -> bool {
        &&& !ShellView::managed(context) ==> r is Ok && r->Ok_0.deep_view()
            == ProbeView::Done(()) && after == before
        &&& ShellView::managed(context) ==> match ShellView::loaded(config@, context) {
            Err(error) => r == Err::<Probe<()>, ConfigError>(error) && after
                == before,
            Ok(desired) => r is Ok && ended_as(
                r->Ok_0,
                ShellView::observed(findings),
            ) && match ShellView::observed(findings) {
                ProbeView::Done(system) => after.config@ == desired
                    && after.system@ == system && after.diff.deep_view()
                    == ShellView::delta(desired, system),
                _ => after == before,
            },
        }
    }

    fn populate(
        &mut self,
        config: &Shell,
        findings: &Vec<Finding>,
        context: ExecutionContext,
    ) -> (r: Result<Probe<()>, ConfigError>) {
        let mut fresh = ShellDiff::new();
        match fresh.get_config(config, context) {
            Ok(()) => {},
            Err(error) => {
                return Err(error);
            },
        }
        match fresh.get_system(findings, context) {
            Probe::Done(()) => {
                fresh.get_diff();
                *self = fresh;
                Ok(Probe::Done(()))
            },
            Probe::Ask(question) => Ok(Probe::Ask(question)),
            Probe::Failed(error) => Ok(Probe::Failed(error)),
        }
    }
}

/// The snapshot triple of the user accounts.
#[derive(Debug, PartialEq, Eq, Clone)]
pub struct UserDiff {
    /// The desired state, as the configuration gives it.
    pub config: Users,
    /// The observed state, as the system shows it.
    pub system: Users,
    /// What leads from the observed state to the desired one.
    pub diff: Diff<Users>,
}

impl New<UserDiff> for UserDiff {
    open spec fn is_new(fresh: UserDiff) -> bool {
        &&& fresh.config@ == UsersView::absent()
        &&& fresh.system@ == UsersView::absent()
        &&& fresh.diff.add@ == UsersView::absent()
        &&& fresh.diff.remove@ == UsersView::absent()
    }

    fn new() -> (fresh: UserDiff) {
        UserDiff {
            config: Users::absent(),
            system: Users::absent(),
            diff: Diff { add: Users::absent(), remove: Users::absent() },
        }
    }
}

impl UsersView {
    /// Whether the user accounts is managed in the given context: by a
    /// privileged run only.
    pub open spec fn managed(context: ExecutionContext) -> bool {
        context.privileged
    }
}

impl Populate<Users> for UserDiff {
    open spec fn populates(
        before: UserDiff,
        config: Users,
        findings: Seq<FindingView>,
        context: ExecutionContext,
        after: UserDiff,
        r: Result<Probe<()>, ConfigError>,
    ) -> bool {
        &&& !UsersView::managed(context) ==> r is Ok && r->Ok_0.deep_view()
            == ProbeView::Done(()) && after == before
        &&& UsersView::managed(context) ==> match UsersView::loaded(config@, context) {
            Err(error) => r == Err::<Probe<()>, ConfigError>(error) && after
                == before,
            Ok(desired) => r is Ok && ended_as(
                r->Ok_0,
                UsersView::observed(findings),
            ) && match UsersView::observed(findings) {
                ProbeView::Done(system) => after.config@ == desired
                    && after.system@ == system && after.diff.deep_view()
                    == UsersView::delta(desired, system),
                _ => after == before,
            },
        }
    }

    fn populate(
        &mut self,
        config: &Users,
        findings: &Vec<Finding>,
        context: ExecutionContext,
    ) -> (r: Result<Probe<()>, ConfigError>) {
        if !context.privileged {
            return Ok(Probe::Done(()));
        }
        let mut fresh = UserDiff::new();
        match fresh.get_config(config, context) {
            Ok(()) => {},
            Err(error) => {
                return Err(error);
            },
        }
        match fresh.get_system(findings, context) {
            Probe::Done(()) => {
                fresh.get_diff();
                *self = fresh;
                Ok(Probe::Done(()))
            },
            Probe::Ask(question) => Ok(Probe::Ask(question)),
            Probe::Failed(error) => Ok(Probe::Failed(error)),
        }
    }
}

/// The snapshot triple of the package manager configuration.
#[derive(Debug, PartialEq, Eq, Clone)]
pub struct PacmanDiff {
    /// The desired state, as the configuration gives it.
    pub config: Pacman,
    /// The observed state, as the system shows it.
    pub system: Pacman,
    /// What leads from the observed state to the desired one.
    pub diff: Diff<Pacman>,
}

impl New<PacmanDiff> for PacmanDiff {
    open spec fn is_new(fresh: PacmanDiff) -> bool {
        &&& fresh.config@ == PacmanView::absent()
        &&& fresh.system@ == PacmanView::absent()
        &&& fresh.diff.add@ == PacmanView::absent()
        &&& fresh.diff.remove@ == PacmanView::absent()
    }

    fn new() -> (fresh: PacmanDiff) {
        PacmanDiff {
            config: Pacman::absent(),
            system: Pacman::absent(),
            diff: Diff { add: Pacman::absent(), remove: Pacman::absent() },
        }
    }
}

impl PacmanView {
    /// Whether the package manager configuration is managed in the given context: by a
    /// privileged run only.
    pub open spec fn managed(context: ExecutionContext) -> bool {
        context.privileged
    }
}

impl Populate<Pacman> for PacmanDiff {
    open spec fn populates(
        before: PacmanDiff,
        config: Pacman,
        findings: Seq<FindingView>,
        context: ExecutionContext,
        after: PacmanDiff,
        r: Result<Probe<()>, ConfigError>,
    ) -> bool {
        &&& !PacmanView::managed(context) ==> r is Ok && r->Ok_0.deep_view()
            == ProbeView::Done(()) && after == before
        &&& PacmanView::managed(context) ==> match PacmanView::loaded(config@, context) {
            Err(error) => r == Err::<Probe<()>, ConfigError>(error) && after
                == before,
            Ok(desired) => r is Ok && ended_as(
                r->Ok_0,
                PacmanView::observed(findings),
            ) && match PacmanView::observed(findings) {
                ProbeView::Done(system) => after.config@ == desired
                    && after.system@ == system && after.diff.deep_view()
                    == PacmanView::delta(desired, system),
                _ => after == before,
            },
        }
    }

    fn populate(
        &mut self,
        config: &Pacman,
        findings: &Vec<Finding>,
        context: ExecutionContext,
    ) -> (r: Result<Probe<()>, ConfigError>) {
        if !context.privileged {
            return Ok(Probe::Done(()));
        }
        let mut fresh = PacmanDiff::new();
        match fresh.get_config(config, context) {
            Ok(()) => {},
            Err(error) => {
                return Err(error);
            },
        }
        match fresh.get_system(findings, context) {
            Probe::Done(()) => {
                fresh.get_diff();
                *self = fresh;
                Ok(Probe::Done(()))
            },
            Probe::Ask(question) => Ok(Probe::Ask(question)),
            Probe::Failed(error) => Ok(Probe::Failed(error)),
        }
    }
}

/// The snapshot triple of the enabled services.
#[derive(Debug, PartialEq, Eq, Clone)]
pub struct ServicesDiff {
    /// The desired state, as the configuration gives it.
    pub config: Services,
    /// The observed state, as the system shows it.
    pub system: Services,
    /// What leads from the observed state to the desired one.
    pub diff: Diff<Services>,
}

impl New<ServicesDiff> for ServicesDiff {
    open spec fn is_new(fresh: ServicesDiff) -> bool {
        &&& fresh.config@ == ServicesView::absent()
        &&& fresh.system@ == ServicesView::absent()
        &&& fresh.diff.add@ == ServicesView::absent()
        &&& fresh.diff.remove@ == ServicesView::absent()
    }

    fn new() -> (fresh: ServicesDiff) {
        ServicesDiff {
            config: Services::absent(),
            system: Services::absent(),
            diff: Diff { add: Services::absent(), remove: Services::absent() },
        }
    }
}

impl ServicesView {
    /// Whether the enabled services are managed in the given context: always.
    pub open spec fn managed(context: ExecutionContext) -> bool {
        true
    }
}

impl Populate<Services> for ServicesDiff {
    open spec fn populates(
        before: ServicesDiff,
        config: Services,
        findings: Seq<FindingView>,
        context: ExecutionContext,
        after: ServicesDiff,
        r: Result<Probe<()>, ConfigError>,
    ) -> bool {
        &&& !ServicesView::managed(context) ==> r is Ok && r->Ok_0.deep_view()
            == ProbeView::Done(()) && after == before
        &&& ServicesView::managed(context) ==> match ServicesView::loaded(config@, context) {
            Err(error) => r == Err::<Probe<()>, ConfigError>(error) && after
                == before,
            Ok(desired) => r is Ok && ended_as(
                r->Ok_0,
                ServicesView::observed(findings, context),
            ) && match ServicesView::observed(findings, context) {
                ProbeView::Done(system) => after.config@ == desired
                    && after.system@ == system && after.diff.deep_view()
                    == ServicesView::delta(desired, system),
                _ => after == before,
            },
        }
    }

    fn populate(
        &mut self,
        config: &Services,
        findings: &Vec<Finding>,
        context: ExecutionContext,
    ) -> (r: Result<Probe<()>, ConfigError>) {
        let mut fresh = ServicesDiff::new();
        match fresh.get_config(config, context) {
            Ok(()) => {},
            Err(error) => {
                return Err(error);
            },
        }
        match fresh.get_system(findings, context) {
            Probe::Done(()) => {
                fresh.get_diff();
                *self = fresh;
                Ok(Probe::Done(()))
            },
            Probe::Ask(question) => Ok(Probe::Ask(question)),
            Probe::Failed(error) => Ok(Probe::Failed(error)),
        }
    }
}

/// The snapshot triple of the installed packages.
#[derive(Debug, PartialEq, Eq, Clone)]
pub struct PackagesDiff {
    /// The desired state, as the configuration gives it.
    pub config: Packages,
    /// The observed state, as the system shows it.
    pub system: Packages,
    /// What leads from the observed state to the desired one.
    pub diff: Diff<Packages>,
}

impl New<PackagesDiff> for PackagesDiff {
    open spec fn is_new(fresh: PackagesDiff) -> bool {
        &&& fresh.config@ == PackagesView::absent()
        &&& fresh.system@ == PackagesView::absent()
        &&& fresh.diff.add@ == PackagesView::absent()
        &&& fresh.diff.remove@ == PackagesView::absent()
    }

    fn new() -> (fresh: PackagesDiff) {
        PackagesDiff {
            config: Packages::absent(),
            system: Packages::absent(),
            diff: Diff { add: Packages::absent(), remove: Packages::absent() },
        }
    }
}

impl PackagesView {
    /// Whether the installed packages are managed in the given context: always.
    pub open spec fn managed(context: ExecutionContext) -> bool {
        true
    }
}

impl Populate<Packages> for PackagesDiff {
    open spec fn populates(
        before: PackagesDiff,
        config: Packages,
        findings: Seq<FindingView>,
        context: ExecutionContext,
        after: PackagesDiff,
        r: Result<Probe<()>, ConfigError>,
    ) -> bool {
        &&& !PackagesView::managed(context) ==> r is Ok && r->Ok_0.deep_view()
            == ProbeView::Done(()) && after == before
        &&& PackagesView::managed(context) ==> match PackagesView::loaded(config@, context) {
            Err(error) => r == Err::<Probe<()>, ConfigError>(error) && after
                == before,
            Ok(desired) => r is Ok && ended_as(
                r->Ok_0,
                PackagesView::observed(desired, findings, context),
            ) && match PackagesView::observed(desired, findings, context) {
                ProbeView::Done(system) => after.config@ == desired
                    && after.system@ == system && after.diff.deep_view()
                    == PackagesView::delta(desired, system),
                _ => after == before,
            },
        }
    }

    fn populate(
        &mut self,
        config: &Packages,
        findings: &Vec<Finding>,
        context: ExecutionContext,
    ) -> (r: Result<Probe<()>, ConfigError>) {
        let mut fresh = PackagesDiff::new();
        match fresh.get_config(config, context) {
            Ok(()) => {},
            Err(error) => {
                return Err(error);
            },
        }
        match fresh.get_system(findings, context) {
            Probe::Done(()) => {
                fresh.get_diff();
                *self = fresh;
                Ok(Probe::Done(()))
            },
            Probe::Ask(question) => Ok(Probe::Ask(question)),
            Probe::Failed(error) => Ok(Probe::Failed(error)),
        }
    }
}

/// The snapshot triple of the directories and links.
#[derive(Debug, PartialEq, Eq, Clone)]
pub struct DirectoriesDiff {
    /// The desired state, as the configuration gives it.
    pub config: Directories,
    /// The observed state, as the system shows it.
    pub system: Directories,
    /// What leads from the observed state to the desired one.
    pub diff: Diff<Directories>,
}

impl New<DirectoriesDiff> for DirectoriesDiff {
    open spec fn is_new(fresh: DirectoriesDiff) -> bool {
        &&& fresh.config@ == DirectoriesView::absent()
        &&& fresh.system@ == DirectoriesView::absent()
        &&& fresh.diff.add@ == DirectoriesView::absent()
        &&& fresh.diff.remove@ == DirectoriesView::absent()
    }

    fn new() -> (fresh: DirectoriesDiff) {
        DirectoriesDiff {
            config: Directories::absent(),
            system: Directories::absent(),
            diff: Diff { add: Directories::absent(), remove: Directories::absent() },
        }
    }
}

impl DirectoriesView {
    /// Whether the directories and links are managed in the given context: always.
    pub open spec fn managed(context: ExecutionContext) -> bool {
        true
    }
}

impl Populate<Directories> for DirectoriesDiff {
    open spec fn populates(
        before: DirectoriesDiff,
        config: Directories,
        findings: Seq<FindingView>,
        context: ExecutionContext,
        after: DirectoriesDiff,
        r: Result<Probe<()>, ConfigError>,
    ) -> bool {
        &&& !DirectoriesView::managed(context) ==> r is Ok && r->Ok_0.deep_view()
            == ProbeView::Done(()) && after == before
        &&& DirectoriesView::managed(context) ==> match DirectoriesView::loaded(config@, context) {
            Err(error) => r == Err::<Probe<()>, ConfigError>(error) && after
                == before,
            Ok(desired) => r is Ok && ended_as(
                r->Ok_0,
                DirectoriesView::observed(desired, findings, context),
            ) && match DirectoriesView::observed(desired, findings, context) {
                ProbeView::Done(system) => after.config@ == desired
                    && after.system@ == system && after.diff.deep_view()
                    == DirectoriesView::delta(desired, system),
                _ => after == before,
            },
        }
    }

    fn populate(
        &mut self,
        config: &Directories,
        findings: &Vec<Finding>,
        context: ExecutionContext,
    ) -> (r: Result<Probe<()>, ConfigError>) {
        let mut fresh = DirectoriesDiff::new();
        match fresh.get_config(config, context) {
            Ok(()) => {},
            Err(error) => {
                return Err(error);
            },
        }
        match fresh.get_system(findings, context) {
            Probe::Done(()) => {
                fresh.get_diff();
                *self = fresh;
                Ok(Probe::Done(()))
            },
            Probe::Ask(question) => Ok(Probe::Ask(question)),
            Probe::Failed(error) => Ok(Probe::Failed(error)),
        }
    }
}

/// The snapshot triple of the boot loader configuration.
#[derive(Debug, PartialEq, Eq, Clone)]
pub struct GrubDiff {
    /// The desired state, as the configuration gives it.
    pub config: Grub,
    /// The observed state, as the system shows it.
    pub system: Grub,
    /// What leads from the observed state to the desired one.
    pub diff: Diff<Grub>,
}

impl New<GrubDiff> for GrubDiff {
    open spec fn is_new(fresh: GrubDiff) -> bool {
        &&& fresh.config@ == GrubView::absent()
        &&& fresh.system@ == GrubView::absent()
        &&& fresh.diff.add@ == GrubView::absent()
        &&& fresh.diff.remove@ == GrubView::absent()
    }

    fn new() -> (fresh: GrubDiff) {
        GrubDiff {
            config: Grub::absent(),
            system: Grub::absent(),
            diff: Diff { add: Grub::absent(), remove: Grub::absent() },
        }
    }
}

impl GrubView {
    /// Whether the boot loader configuration is managed in the given context: by a
    /// privileged run only.
    pub open spec fn managed(context: ExecutionContext) -> bool {
        context.privileged
    }
}

impl Populate<Grub> for GrubDiff {
    open spec fn populates(
        before: GrubDiff,
        config: Grub,
        findings: Seq<FindingView>,
        context: ExecutionContext,
        after: GrubDiff,
        r: Result<Probe<()>, ConfigError>,
    ) -> bool {
        &&& !GrubView::managed(context) ==> r is Ok && r->Ok_0.deep_view()
            == ProbeView::Done(()) && after == before
        &&& GrubView::managed(context) ==> match GrubView::loaded(config@, context) {
            Err(error) => r == Err::<Probe<()>, ConfigError>(error) && after
                == before,
            Ok(desired) => r is Ok && ended_as(
                r->Ok_0,
                GrubView::observed(findings),
            ) && match GrubView::observed(findings) {
                ProbeView::Done(system) => after.config@ == desired
                    && after.system@ == system && after.diff.deep_view()
                    == GrubView::delta(desired, system),
                _ => after == before,
            },
        }
    }

    fn populate(
        &mut self,
        config: &Grub,
        findings: &Vec<Finding>,
        context: ExecutionContext,
    ) -> (r: Result<Probe<()>, ConfigError>) {
        if !context.privileged {
            return Ok(Probe::Done(()));
        }
        let mut fresh = GrubDiff::new();
        match fresh.get_config(config, context) {
            Ok(()) => {},
            Err(error) => {
                return Err(error);
            },
        }
        match fresh.get_system(findings, context) {
            Probe::Done(()) => {
                fresh.get_diff();
                *self = fresh;
                Ok(Probe::Done(()))
            },
            Probe::Ask(question) => Ok(Probe::Ask(question)),
            Probe::Failed(error) => Ok(Probe::Failed(error)),
        }
    }
}

/// The snapshot triple of the initial ramdisk configuration.
#[derive(Debug, PartialEq, Eq, Clone)]
pub struct MkinitcpioDiff {
    /// The desired state, as the configuration gives it.
    pub config: Mkinitcpio,
    /// The observed state, as the system shows it.
    pub system: Mkinitcpio,
    /// What leads from the observed state to the desired one.
    pub diff: Diff<Mkinitcpio>,
}

impl New<MkinitcpioDiff> for MkinitcpioDiff {
    open spec fn is_new(fresh: MkinitcpioDiff) -> bool {
        &&& fresh.config@ == MkinitcpioView::absent()
        &&& fresh.system@ == MkinitcpioView::absent()
        &&& fresh.diff.add@ == MkinitcpioView::absent()
        &&& fresh.diff.remove@ == MkinitcpioView::absent()
    }

    fn new() -> (fresh: MkinitcpioDiff) {
        MkinitcpioDiff {
            config: Mkinitcpio::absent(),
            system: Mkinitcpio::absent(),
            diff: Diff { add: Mkinitcpio::absent(), remove: Mkinitcpio::absent() },
        }
    }
}

impl MkinitcpioView {
    /// Whether the initial ramdisk configuration is managed in the given context: by a
    /// privileged run only.
    pub open spec fn managed(context: ExecutionContext) -> bool {
        context.privileged
    }
}

impl Populate<Mkinitcpio> for MkinitcpioDiff {
    open spec fn populates(
        before: MkinitcpioDiff,
        config: Mkinitcpio,
        findings: Seq<FindingView>,
        context: ExecutionContext,
        after: MkinitcpioDiff,
        r: Result<Probe<()>, ConfigError>,
    ) -> bool {
        &&& !MkinitcpioView::managed(context) ==> r is Ok && r->Ok_0.deep_view()
            == ProbeView::Done(()) && after == before
        &&& MkinitcpioView::managed(context) ==> match MkinitcpioView::loaded(config@, context) {
            Err(error) => r == Err::<Probe<()>, ConfigError>(error) && after
                == before,
            Ok(desired) => r is Ok && ended_as(
                r->Ok_0,
                MkinitcpioView::observed(findings),
            ) && match MkinitcpioView::observed(findings) {
                ProbeView::Done(system) => after.config@ == desired
                    && after.system@ == system && after.diff.deep_view()
                    == MkinitcpioView::delta(desired, system),
                _ => after == before,
            },
        }
    }

    fn populate(
        &mut self,
        config: &Mkinitcpio,
        findings: &Vec<Finding>,
        context: ExecutionContext,
    ) -> (r: Result<Probe<()>, ConfigError>) {
        if !context.privileged {
            return Ok(Probe::Done(()));
        }
        let mut fresh = MkinitcpioDiff::new();
        match fresh.get_config(config, context) {
            Ok(()) => {},
            Err(error) => {
                return Err(error);
            },
        }
        match fresh.get_system(findings, context) {
            Probe::Done(()) => {
                fresh.get_diff();
                *self = fresh;
                Ok(Probe::Done(()))
            },
            Probe::Ask(question) => Ok(Probe::Ask(question)),
            Probe::Failed(error) => Ok(Probe::Failed(error)),
        }
    }
}

/// The snapshot triple of the downloads.
#[derive(Debug, PartialEq, Eq, Clone)]
pub struct DownloadsDiff {
    /// The desired state, as the configuration gives it.
    pub config: Downloads,
    /// The observed state, as the system shows it.
    pub system: Downloads,
    /// What leads from the observed state to the desired one.
    pub diff: Diff<Downloads>,
}

impl New<DownloadsDiff> for DownloadsDiff {
    open spec fn is_new(fresh: DownloadsDiff) -> bool {
        &&& fresh.config@ == DownloadsView::absent()
        &&& fresh.system@ == DownloadsView::absent()
        &&& fresh.diff.add@ == DownloadsView::absent()
        &&& fresh.diff.remove@ == DownloadsView::absent()
    }

    fn new() -> (fresh: DownloadsDiff) {
        DownloadsDiff {
            config: Downloads::absent(),
            system: Downloads::absent(),
            diff: Diff { add: Downloads::absent(), remove: Downloads::absent() },
        }
    }
}

impl DownloadsView {
    /// Whether the downloads are managed in the given context: always.
    pub open spec fn managed(context: ExecutionContext) -> bool {
        true
    }
}

impl Populate<Downloads> for DownloadsDiff {
    open spec fn populates(
        before: DownloadsDiff,
        config: Downloads,
        findings: Seq<FindingView>,
        context: ExecutionContext,
        after: DownloadsDiff,
        r: Result<Probe<()>, ConfigError>,
    ) -> bool {
        &&& !DownloadsView::managed(context) ==> r is Ok && r->Ok_0.deep_view()
            == ProbeView::Done(()) && after == before
        &&& DownloadsView::managed(context) ==> match DownloadsView::loaded(config@, context) {
            Err(error) => r == Err::<Probe<()>, ConfigError>(error) && after
                == before,
            Ok(desired) => r is Ok && ended_as(
                r->Ok_0,
                DownloadsView::observed(desired, findings, context),
            ) && match DownloadsView::observed(desired, findings, context) {
                ProbeView::Done(system) => after.config@ == desired
                    && after.system@ == system && after.diff.deep_view()
                    == DownloadsView::delta(desired, system),
                _ => after == before,
            },
        }
    }

    fn populate(
        &mut self,
        config: &Downloads,
        findings: &Vec<Finding>,
        context: ExecutionContext,
    ) -> (r: Result<Probe<()>, ConfigError>) {
        let mut fresh = DownloadsDiff::new();
        match fresh.get_config(config, context) {
            Ok(()) => {},
            Err(error) => {
                return Err(error);
            },
        }
        match fresh.get_system(findings, context) {
            Probe::Done(()) => {
                fresh.get_diff();
                *self = fresh;
                Ok(Probe::Done(()))
            },
            Probe::Ask(question) => Ok(Probe::Ask(question)),
            Probe::Failed(error) => Ok(Probe::Failed(error)),
        }
    }
}

/// The snapshot triple of the firewall.
#[derive(Debug, PartialEq, Eq, Clone)]
pub struct UfwDiff {
    /// The desired state, as the configuration gives it.
    pub config: Ufw,
    /// The observed state, as the system shows it.
    pub system: Ufw,
    /// What leads from the observed state to the desired one.
    pub diff: Diff<Ufw>,
}

impl New<UfwDiff> for UfwDiff {
    open spec fn is_new(fresh: UfwDiff) -> bool {
        &&& fresh.config@ == UfwView::absent()
        &&& fresh.system@ == UfwView::absent()
        &&& fresh.diff.add@ == UfwView::absent()
        &&& fresh.diff.remove@ == UfwView::absent()
    }

    fn new() -> (fresh: UfwDiff) {
        UfwDiff {
            config: Ufw::absent(),
            system: Ufw::absent(),
            diff: Diff { add: Ufw::absent(), remove: Ufw::absent() },
        }
    }
}

impl UfwView {
    /// Whether the firewall is managed in the given context: by a
    /// privileged run only.
    pub open spec fn managed(context: ExecutionContext) -> bool {
        context.privileged
    }
}

impl Populate<Ufw> for UfwDiff {
    open spec fn populates(
        before: UfwDiff,
        config: Ufw,
        findings: Seq<FindingView>,
        context: ExecutionContext,
        after: UfwDiff,
        r: Result<Probe<()>, ConfigError>,
    ) -> bool {
        &&& !UfwView::managed(context) ==> r is Ok && r->Ok_0.deep_view()
            == ProbeView::Done(()) && after == before
        &&& UfwView::managed(context) ==> match UfwView::loaded(config@, context) {
            Err(error) => r == Err::<Probe<()>, ConfigError>(error) && after
                == before,
            Ok(desired) => r is Ok && ended_as(
                r->Ok_0,
                UfwView::observed(findings),
            ) && match UfwView::observed(findings) {
                ProbeView::Done(system) => after.config@ == desired
                    && after.system@ == system && after.diff.deep_view()
                    == UfwView::delta(desired, system),
                _ => after == before,
            },
        }
    }

    fn populate(
        &mut self,
        config: &Ufw,
        findings: &Vec<Finding>,
        context: ExecutionContext,
    ) -> (r: Result<Probe<()>, ConfigError>) {
        if !context.privileged {
            return Ok(Probe::Done(()));
        }
        let mut fresh = UfwDiff::new();
        match fresh.get_config(config, context) {
            Ok(()) => {},
            Err(error) => {
                return Err(error);
            },
        }
        match fresh.get_system(findings, context) {
            Probe::Done(()) => {
                fresh.get_diff();
                *self = fresh;
                Ok(Probe::Done(()))
            },
            Probe::Ask(question) => Ok(Probe::Ask(question)),
            Probe::Failed(error) => Ok(Probe::Failed(error)),
        }
    }
}

/// The snapshot triple of the intrusion prevention policy.
#[derive(Debug, PartialEq, Eq, Clone)]
pub struct Fail2BanDiff {
    /// The desired state, as the configuration gives it.
    pub config: Fail2Ban,
    /// The observed state, as the system shows it.
    pub system: Fail2Ban,
    /// What leads from the observed state to the desired one.
    pub diff: Diff<Fail2Ban>,
}

impl New<Fail2BanDiff> for Fail2BanDiff {
    open spec fn is_new(fresh: Fail2BanDiff) -> bool {
        &&& fresh.config@ == Fail2BanView::absent()
        &&& fresh.system@ == Fail2BanView::absent()
        &&& fresh.diff.add@ == Fail2BanView::absent()
        &&& fresh.diff.remove@ == Fail2BanView::absent()
    }

    fn new() -> (fresh: Fail2BanDiff) {
        Fail2BanDiff {
            config: Fail2Ban::absent(),
            system: Fail2Ban::absent(),
            diff: Diff { add: Fail2Ban::absent(), remove: Fail2Ban::absent() },
        }
    }
}

impl Fail2BanView {
    /// Whether the intrusion prevention policy is managed in the given context: by a
    /// privileged run only.
    pub open spec fn managed(context: ExecutionContext) -> bool {
        context.privileged
    }
}

impl Populate<Fail2Ban> for Fail2BanDiff {
    open spec fn populates(
        before: Fail2BanDiff,
        config: Fail2Ban,
        findings: Seq<FindingView>,
        context: ExecutionContext,
        after: Fail2BanDiff,
        r: Result<Probe<()>, ConfigError>,
    ) -> bool {
        &&& !Fail2BanView::managed(context) ==> r is Ok && r->Ok_0.deep_view()
            == ProbeView::Done(()) && after == before
        &&& Fail2BanView::managed(context) ==> match Fail2BanView::loaded(config@, context) {
            Err(error) => r == Err::<Probe<()>, ConfigError>(error) && after
                == before,
            Ok(desired) => r is Ok && ended_as(
                r->Ok_0,
                Fail2BanView::observed(findings),
            ) && match Fail2BanView::observed(findings) {
                ProbeView::Done(system) => after.config@ == desired
                    && after.system@ == system && after.diff.deep_view()
                    == Fail2BanView::delta(desired, system),
                _ => after == before,
            },
        }
    }

    fn populate(
        &mut self,
        config: &Fail2Ban,
        findings: &Vec<Finding>,
        context: ExecutionContext,
    ) -> (r: Result<Probe<()>, ConfigError>) {
        if !context.privileged {
            return Ok(Probe::Done(()));
        }
        let mut fresh = Fail2BanDiff::new();
        match fresh.get_config(config, context) {
            Ok(()) => {},
            Err(error) => {
                return Err(error);
            },
        }
        match fresh.get_system(findings, context) {
            Probe::Done(()) => {
                fresh.get_diff();
                *self = fresh;
                Ok(Probe::Done(()))
            },
            Probe::Ask(question) => Ok(Probe::Ask(question)),
            Probe::Failed(error) => Ok(Probe::Failed(error)),
        }
    }
}

/// The snapshot triple of the monitor layout.
#[derive(Debug, PartialEq, Eq, Clone)]
pub struct MonitorDiff {
    /// The desired state, as the configuration gives it.
    pub config: Monitor,
    /// The observed state, as the system shows it.
    pub system: Monitor,
    /// What leads from the observed state to the desired one.
    pub diff: Diff<Monitor>,
}

impl New<MonitorDiff> for MonitorDiff {
    open spec fn is_new(fresh: MonitorDiff) -> bool {
        &&& fresh.config@ == MonitorView::absent()
        &&& fresh.system@ == MonitorView::absent()
        &&& fresh.diff.add@ == MonitorView::absent()
        &&& fresh.diff.remove@ == MonitorView::absent()
    }

    fn new() -> (fresh: MonitorDiff) {
        MonitorDiff {
            config: Monitor::absent(),
            system: Monitor::absent(),
            diff: Diff { add: Monitor::absent(), remove: Monitor::absent() },
        }
    }
}

impl MonitorView {
    /// Whether the monitor layout is managed in the given context: by an
    /// unprivileged run only.
    pub open spec fn managed(context: ExecutionContext) -> bool {
        !context.privileged
    }
}

impl Populate<Monitor> for MonitorDiff {
    open spec fn populates(
        before: MonitorDiff,
        config: Monitor,
        findings: Seq<FindingView>,
        context: ExecutionContext,
        after: MonitorDiff,
        r: Result<Probe<()>, ConfigError>,
    ) -> bool {
        &&& !MonitorView::managed(context) ==> r is Ok && r->Ok_0.deep_view()
            == ProbeView::Done(()) && after == before
        &&& MonitorView::managed(context) ==> match MonitorView::loaded(config@, context) {
            Err(error) => r == Err::<Probe<()>, ConfigError>(error) && after
                == before,
            Ok(desired) => r is Ok && ended_as(
                r->Ok_0,
                MonitorView::observed(findings),
            ) && match MonitorView::observed(findings) {
                ProbeView::Done(system) => after.config@ == desired
                    && after.system@ == system && after.diff.deep_view()
                    == MonitorView::delta(desired, system),
                _ => after == before,
            },
        }
    }

    fn populate(
        &mut self,
        config: &Monitor,
        findings: &Vec<Finding>,
        context: ExecutionContext,
    ) -> (r: Result<Probe<()>, ConfigError>) {
        if context.privileged {
            return Ok(Probe::Done(()));
        }
        let mut fresh = MonitorDiff::new();
        match fresh.get_config(config, context) {
            Ok(()) => {},
            Err(error) => {
                return Err(error);
            },
        }
        match fresh.get_system(findings, context) {
            Probe::Done(()) => {
                fresh.get_diff();
                *self = fresh;
                Ok(Probe::Done(()))
            },
            Probe::Ask(question) => Ok(Probe::Ask(question)),
            Probe::Failed(error) => Ok(Probe::Failed(error)),
        }
    }
}

/// The snapshot triple of the text files.
#[derive(Debug, PartialEq, Eq, Clone)]
pub struct FilesDiff {
    /// The desired state, as the configuration gives it.
    pub config: Files,
    /// The observed state, as the system shows it.
    pub system: Files,
    /// What leads from the observed state to the desired one.
    pub diff: Diff<Files>,
}

impl New<FilesDiff> for FilesDiff {
    open spec fn is_new(fresh: FilesDiff) -> bool {
        &&& fresh.config@ == FilesView::absent()
        &&& fresh.system@ == FilesView::absent()
        &&& fresh.diff.add@ == FilesView::absent()
        &&& fresh.diff.remove@ == FilesView::absent()
    }

    fn new() -> (fresh: FilesDiff) {
        FilesDiff {
            config: Files::absent(),
            system: Files::absent(),
            diff: Diff { add: Files::absent(), remove: Files::absent() },
        }
    }
}

impl FilesView {
    /// Whether the text files are managed in the given context: always.
    pub open spec fn managed(context: ExecutionContext) -> bool {
        true
    }
}

impl Populate<Files> for FilesDiff {
    open spec fn populates(
        before: FilesDiff,
        config: Files,
        findings: Seq<FindingView>,
        context: ExecutionContext,
        after: FilesDiff,
        r: Result<Probe<()>, ConfigError>,
    ) -> bool {
        &&& !FilesView::managed(context) ==> r is Ok && r->Ok_0.deep_view()
            == ProbeView::Done(()) && after == before
        &&& FilesView::managed(context) ==> match FilesView::loaded(config@, context) {
            Err(error) => r == Err::<Probe<()>, ConfigError>(error) && after
                == before,
            Ok(desired) => r is Ok && ended_as(
                r->Ok_0,
                FilesView::observed(desired, findings, context),
            ) && match FilesView::observed(desired, findings, context) {
                ProbeView::Done(system) => after.config@ == desired
                    && after.system@ == system && after.diff.deep_view()
                    == FilesView::delta(desired, system),
                _ => after == before,
            },
        }
    }

    fn populate(
        &mut self,
        config: &Files,
        findings: &Vec<Finding>,
        context: ExecutionContext,
    ) -> (r: Result<Probe<()>, ConfigError>) {
        let mut fresh = FilesDiff::new();
        match fresh.get_config(config, context) {
            Ok(()) => {},
            Err(error) => {
                return Err(error);
            },
        }
        match fresh.get_system(findings, context) {
            Probe::Done(()) => {
                fresh.get_diff();
                *self = fresh;
                Ok(Probe::Done(()))
            },
            Probe::Ask(question) => Ok(Probe::Ask(question)),
            Probe::Failed(error) => Ok(Probe::Failed(error)),
        }
    }
}

/// Whether the list of generated locales begins with the observed locale.
/// The list has to be readable.
pub open spec fn locales_agree(system: LanguageView, findings: Seq<FindingView>) -> ProbeView<
    bool,
> {
    match required_text(findings, Inquiry::ReadFile, LOCALE_GEN_PATH@, Fault::Unreadable) {
        ProbeView::Done(generated) => ProbeView::Done(
            Some(split(generated, " "@)[0]) == system.locale,
        ),
        ProbeView::Ask(question) => ProbeView::Ask(question),
        ProbeView::Failed(error) => ProbeView::Failed(error),
    }
}

/// Whether the table of hosts is the one that belongs to the desired host
/// name, the white space around it left aside. The table has to be
/// readable. Without a desired host name nothing agrees.
pub open spec fn hosts_agree(config: SystemView, findings: Seq<FindingView>) -> ProbeView<bool> {
    match config.hostname {
        Some(hostname) => match required_text(
            findings,
            Inquiry::ReadFile,
            HOSTS_PATH@,
            Fault::Unreadable,
        ) {
            ProbeView::Done(table) => ProbeView::Done(trim(table) == hosts(hostname)),
            ProbeView::Ask(question) => ProbeView::Ask(question),
            ProbeView::Failed(error) => ProbeView::Failed(error),
        },
        None => ProbeView::Done(false),
    }
}

impl LanguageDiff {
    /// Checks that the two files that hold the locale agree with each
    /// other.
    pub fn check(&self, findings: &Vec<Finding>) -> (r: Probe<bool>)
        ensures
            r.deep_view() == locales_agree(self.system@, findings.deep_view()),
    {
        match require_text(findings, Inquiry::ReadFile, LOCALE_GEN_PATH, Fault::Unreadable) {
            Probe::Done(generated) => {
                let words = pieces(generated.as_str(), " ");
                assert(words.deep_view()[0] == words@[0]@);
                let first = Some(words[0].clone());
                Probe::Done(first.same(&self.system.locale))
            },
            Probe::Ask(question) => Probe::Ask(question),
            Probe::Failed(error) => Probe::Failed(error),
        }
    }
}

impl SystemDiff {
    /// Checks that the table of hosts agrees with the desired host name.
    pub fn check(&self, findings: &Vec<Finding>) -> (r: Probe<bool>)
        ensures
            r.deep_view() == hosts_agree(self.config@, findings.deep_view()),
    {
        match &self.config.hostname {
            Some(hostname) => match require_text(
                findings,
                Inquiry::ReadFile,
                HOSTS_PATH,
                Fault::Unreadable,
            ) {
                Probe::Done(table) => {
                    let found = trimmed(table.as_str());
                    let supposed = hosts_text(hostname.as_str());
                    Probe::Done(found.same(&supposed))
                },
                Probe::Ask(question) => Probe::Ask(question),
                Probe::Failed(error) => Probe::Failed(error),
            },
            None => Probe::Done(false),
        }
    }
}

} // verus!
