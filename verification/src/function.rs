//! Applying a delta: which actions bring the system from its observed state
//! to the desired one.
//!
//! Nothing is done here. Each domain turns its delta into a list of actions,
//! in the order in which they are to be performed; the caller performs them
//! all, whatever the outcome of the earlier ones, and the domain has
//! succeeded when every action has.
//!
//! A domain plans actions only in the execution context that manages it,
//! and for a field only in the context that the field belongs to.

use vstd::prelude::*;
use vstd::string::*;
use crate::data_types::{
    DirectoriesDiff, DownloadsDiff, Fail2BanDiff, FilesDiff, GrubDiff, KeyboardDiff, LanguageDiff,
    MkinitcpioDiff, MonitorDiff, PackagesDiff, PacmanDiff, ServicesDiff, ShellDiff, SystemDiff,
    TimeDiff, UfwDiff, UserDiff,
};
use crate::entry::{create_entries, creation_of};
use crate::get_diff::listed;
use crate::helper::ExecutionContext;
use crate::item::{contains, Item};
use crate::probe::{
    require_text, required_text, Fault, Finding, FindingView, Inquiry, Probe, ProbeView,
};
use crate::structure::{
    CreateDirs, CurlDownload, DirectoriesView, DownloadsView, Fail2BanView, FilesView, GitDownload,
    GrubView, KeyboardView, LanguageView, Links, ManualInstallPackages, MkinitcpioView,
    MonitorStruct, MonitorStructView, MonitorView, PackagesView, Pacman, PacmanView, ReownDirs,
    ServicesView, ShellView, SystemView, TextToFile, TimeView, UfwView, Unzip, User, UserView,
    UsersView,
};
use crate::text::{decimal, decimal_text, join, joined};

verus! {

/// The configuration of the package manager.
pub const PACMAN_CONF_PATH: &'static str = "/etc/pacman.conf";

/// The locales that are generated.
pub const LOCALE_GEN_PATH: &'static str = "/etc/locale.gen";

/// The locale in use.
pub const LOCALE_CONF_PATH: &'static str = "/etc/locale.conf";

/// The host name.
pub const HOSTNAME_PATH: &'static str = "/etc/hostname";

/// The static table of hosts.
pub const HOSTS_PATH: &'static str = "/etc/hosts";

/// The defaults of the boot loader.
pub const GRUB_PATH: &'static str = "/etc/default/grub";

/// The configuration of the initial ramdisk.
pub const MKINITCPIO_PATH: &'static str = "/etc/mkinitcpio.conf";

/// The local jails of the intrusion prevention.
pub const FAIL2BAN_JAIL_LOCAL_PATH: &'static str = "/etc/fail2ban/jail.local";

/// The layout of the monitors, kept by the window manager of the user.
pub const HYPR_MONITOR_CONF_PATH: &'static str = "/home/falk/.config/hypr/monitor.conf";

/// An action on the system.
#[derive(Debug, PartialEq, Eq, Clone)]
pub enum Action {
    /// Run the shell command in the directory.
    Execute { command: String, dir: String },
    /// Give the file this content, creating it if need be.
    WriteFile { path: String, content: String },
    /// Replace every line of the file that begins with `old_str` by `new_str`.
    ReplaceLine { path: String, old_str: String, new_str: String },
    /// Put the text behind the content of the file, on a line of its own.
    AppendToFile { path: String, text: String },
    /// Put the text before the content of the file, on a line of its own.
    PrependToFile { path: String, text: String },
    /// Take every occurrence of the text out of the file.
    RemoveFromFile { path: String, text: String },
    /// Create the file, empty, and the directories above it.
    CreateFile { path: String },
    /// Create the directory and the directories above it.
    CreateDir { path: String },
    /// Delete the file.
    RemoveFile { path: String },
    /// Give the file at `from` the name `to`.
    Rename { from: String, to: String },
    /// Copy the file at `from` to `to`.
    Copy { from: String, to: String },
}

/// The model of an [`Action`].
pub enum ActionView {
    Execute { command: Seq<char>, dir: Seq<char> },
    WriteFile { path: Seq<char>, content: Seq<char> },
    ReplaceLine { path: Seq<char>, old_str: Seq<char>, new_str: Seq<char> },
    AppendToFile { path: Seq<char>, text: Seq<char> },
    PrependToFile { path: Seq<char>, text: Seq<char> },
    RemoveFromFile { path: Seq<char>, text: Seq<char> },
    CreateFile { path: Seq<char> },
    CreateDir { path: Seq<char> },
    RemoveFile { path: Seq<char> },
    Rename { from: Seq<char>, to: Seq<char> },
    Copy { from: Seq<char>, to: Seq<char> },
}

impl DeepView for Action {
    type V = ActionView;

    open spec fn deep_view(&self) -> ActionView {
        match self {
            Action::Execute { command, dir } => ActionView::Execute {
                command: command@,
                dir: dir@,
            },
            Action::WriteFile { path, content } => ActionView::WriteFile {
                path: path@,
                content: content@,
            },
            Action::ReplaceLine { path, old_str, new_str } => ActionView::ReplaceLine {
                path: path@,
                old_str: old_str@,
                new_str: new_str@,
            },
            Action::AppendToFile { path, text } => ActionView::AppendToFile {
                path: path@,
                text: text@,
            },
            Action::PrependToFile { path, text } => ActionView::PrependToFile {
                path: path@,
                text: text@,
            },
            Action::RemoveFromFile { path, text } => ActionView::RemoveFromFile {
                path: path@,
                text: text@,
            },
            Action::CreateFile { path } => ActionView::CreateFile { path: path@ },
            Action::CreateDir { path } => ActionView::CreateDir { path: path@ },
            Action::RemoveFile { path } => ActionView::RemoveFile { path: path@ },
            Action::Rename { from, to } => ActionView::Rename { from: from@, to: to@ },
            Action::Copy { from, to } => ActionView::Copy { from: from@, to: to@ },
        }
    }
}

impl View for Action {
    type V = ActionView;

    open spec fn view(&self) -> ActionView {
        self.deep_view()
    }
}

impl Item for Action {
    fn same(&self, other: &Self) -> (r: bool) {
        match (self, other) {
            (
                Action::Execute { command, dir },
                Action::Execute { command: other_command, dir: other_dir },
            ) => command.same(other_command) && dir.same(other_dir),
            (
                Action::WriteFile { path, content },
                Action::WriteFile { path: other_path, content: other_content },
            ) => path.same(other_path) && content.same(other_content),
            (
                Action::ReplaceLine { path, old_str, new_str },
                Action::ReplaceLine { path: other_path, old_str: other_old, new_str: other_new },
            ) => path.same(other_path) && old_str.same(other_old) && new_str.same(other_new),
            (
                Action::AppendToFile { path, text },
                Action::AppendToFile { path: other_path, text: other_text },
            ) => path.same(other_path) && text.same(other_text),
            (
                Action::PrependToFile { path, text },
                Action::PrependToFile { path: other_path, text: other_text },
            ) => path.same(other_path) && text.same(other_text),
            (
                Action::RemoveFromFile { path, text },
                Action::RemoveFromFile { path: other_path, text: other_text },
            ) => path.same(other_path) && text.same(other_text),
            (Action::CreateFile { path }, Action::CreateFile { path: other_path }) => path.same(
                other_path,
            ),
            (Action::CreateDir { path }, Action::CreateDir { path: other_path }) => path.same(
                other_path,
            ),
            (Action::RemoveFile { path }, Action::RemoveFile { path: other_path }) => path.same(
                other_path,
            ),
            (Action::Rename { from, to }, Action::Rename { from: other_from, to: other_to }) => {
                from.same(other_from) && to.same(other_to)
            },
            (Action::Copy { from, to }, Action::Copy { from: other_from, to: other_to }) => {
                from.same(other_from) && to.same(other_to)
            },
            _ => false,
        }
    }

    fn duplicate(&self) -> (r: Self) {
        match self {
            Action::Execute { command, dir } => Action::Execute {
                command: command.clone(),
                dir: dir.clone(),
            },
            Action::WriteFile { path, content } => Action::WriteFile {
                path: path.clone(),
                content: content.clone(),
            },
            Action::ReplaceLine { path, old_str, new_str } => Action::ReplaceLine {
                path: path.clone(),
                old_str: old_str.clone(),
                new_str: new_str.clone(),
            },
            Action::AppendToFile { path, text } => Action::AppendToFile {
                path: path.clone(),
                text: text.clone(),
            },
            Action::PrependToFile { path, text } => Action::PrependToFile {
                path: path.clone(),
                text: text.clone(),
            },
            Action::RemoveFromFile { path, text } => Action::RemoveFromFile {
                path: path.clone(),
                text: text.clone(),
            },
            Action::CreateFile { path } => Action::CreateFile { path: path.clone() },
            Action::CreateDir { path } => Action::CreateDir { path: path.clone() },
            Action::RemoveFile { path } => Action::RemoveFile { path: path.clone() },
            Action::Rename { from, to } => Action::Rename { from: from.clone(), to: to.clone() },
            Action::Copy { from, to } => Action::Copy { from: from.clone(), to: to.clone() },
        }
    }
}

/// Turns a delta into the actions that add what is missing. Where the plan
/// rests on the state of the system, the findings made so far are consulted,
/// and the next question is asked when they do not suffice.
pub trait Add {
    /// The plan that adds what is missing, as far as the findings tell.
    spec fn plan(&self, findings: Seq<FindingView>, context: ExecutionContext) -> ProbeView<
        Seq<ActionView>,
    >;

    fn add(&self, findings: &Vec<Finding>, context: ExecutionContext) -> (plan: Probe<
        Vec<Action>,
    >)
        ensures
            plan.deep_view() == self.plan(findings.deep_view(), context),
    ;
}

/// Turns a delta into the actions that remove what is not wanted.
pub trait Remove {
    /// The actions that remove what is not wanted.
    spec fn removal(&self, context: ExecutionContext) -> Seq<ActionView>;

    fn remove(&self, context: ExecutionContext) -> (actions: Vec<Action>)
        ensures
            actions.deep_view() == self.removal(context),
    ;
}

/// Whether every outcome in the list reports success.
pub open spec fn all_succeeded(outcomes: Seq<bool>) -> bool {
    forall|i: int| 0 <= i < outcomes.len() ==> outcomes[i]
}

/// Tells whether a domain was applied with success: it was when every one
/// of its actions succeeded.
pub fn aggregate(outcomes: &Vec<bool>) -> (ok: bool)
    ensures
        ok == all_succeeded(outcomes@),
{
    let mut i: usize = 0;
    while i < outcomes.len()
        invariant
            i <= outcomes.len(),
            forall|j: int| 0 <= j < i ==> outcomes@[j],
        decreases outcomes.len() - i,
    {
        if !outcomes[i] {
            return false;
        }
        i += 1;
    }
    true
}

/// An action that failed.
#[derive(Debug, PartialEq, Eq, Clone)]
pub struct ActionError {
    pub action: Action,
}

impl DeepView for ActionError {
    type V = ActionView;

    open spec fn deep_view(&self) -> ActionView {
        self.action@
    }
}

/// The actions that failed, going by the outcomes: an outcome belongs to
/// the action at the same place. Actions without an outcome were not
/// performed and have not failed.
pub open spec fn failed(actions: Seq<ActionView>, outcomes: Seq<bool>) -> Seq<ActionView>
    decreases actions.len(),
{
    if actions.len() == 0 {
        Seq::empty()
    } else {
        let before = failed(actions.drop_last(), outcomes);
        if actions.len() <= outcomes.len() && !outcomes[actions.len() - 1] {
            before.push(actions.last())
        } else {
            before
        }
    }
}

/// Collects the actions that failed.
pub fn failures(actions: &Vec<Action>, outcomes: &Vec<bool>) -> (errors: Vec<ActionError>)
    ensures
        errors.deep_view() == failed(actions.deep_view(), outcomes@),
{
    let mut errors: Vec<ActionError> = Vec::new();
    let mut i: usize = 0;
    assert(actions.deep_view().take(0) =~= Seq::empty());
    assert(errors.deep_view() =~= Seq::empty());
    while i < actions.len()
        invariant
            i <= actions.len(),
            errors.deep_view() == failed(actions.deep_view().take(i as int), outcomes@),
        decreases actions.len() - i,
    {
        let ghost next = actions.deep_view().take(i + 1);
        let ghost before = errors.deep_view();
        proof {
            assert(next.drop_last() =~= actions.deep_view().take(i as int));
            assert(next.last() == actions@[i as int]@);
        }
        if i < outcomes.len() && !outcomes[i] {
            errors.push(ActionError { action: actions[i].duplicate() });
            assert(errors.deep_view() =~= before.push(actions@[i as int]@));
        }
        i += 1;
    }
    assert(actions.deep_view().take(actions.len() as int) =~= actions.deep_view());
    errors
}

/// Where every action has its outcome, a domain was applied with success
/// exactly when no action failed.
pub proof fn success_means_no_failures(actions: Seq<ActionView>, outcomes: Seq<bool>)
    requires
        actions.len() == outcomes.len(),
    ensures
        all_succeeded(outcomes) <==> failed(actions, outcomes).len() == 0,
    decreases actions.len(),
{
    if actions.len() > 0 {
        let n = actions.len() - 1;
        success_means_no_failures(actions.drop_last(), outcomes.drop_last());
        same_failures(actions.drop_last(), outcomes, outcomes.drop_last());
        let front = outcomes.drop_last();
        if all_succeeded(outcomes) {
            assert forall|i: int| 0 <= i < front.len() implies front[i] by {
                assert(front[i] == outcomes[i]);
            }
        }
        if failed(actions, outcomes).len() == 0 {
            assert(outcomes[n]);
            assert forall|i: int| 0 <= i < outcomes.len() implies outcomes[i] by {
                if i < n {
                    assert(outcomes.drop_last()[i] == outcomes[i]);
                }
            }
        }
    }
}

/// Outcomes behind the last action do not matter.
proof fn same_failures(actions: Seq<ActionView>, longer: Seq<bool>, shorter: Seq<bool>)
    requires
        actions.len() <= shorter.len() <= longer.len(),
        forall|i: int| 0 <= i < shorter.len() ==> shorter[i] == longer[i],
    ensures
        failed(actions, longer) == failed(actions, shorter),
    decreases actions.len(),
{
    if actions.len() > 0 {
        same_failures(actions.drop_last(), longer, shorter);
    }
}

/// No actions.
pub open spec fn no_actions() -> Seq<ActionView> {
    Seq::empty()
}

/// A plan that is complete and holds no action.
pub open spec fn nothing_planned() -> ProbeView<Seq<ActionView>> {
    ProbeView::Done(Seq::empty())
}

/// One plan after another: the actions of both, or what stops the first of
/// them that is not complete.
pub open spec fn followed_by(
    first: ProbeView<Seq<ActionView>>,
    second: ProbeView<Seq<ActionView>>,
) -> ProbeView<Seq<ActionView>> {
    match first {
        ProbeView::Done(before) => match second {
            ProbeView::Done(after) => ProbeView::Done(before + after),
            ProbeView::Ask(question) => ProbeView::Ask(question),
            ProbeView::Failed(error) => ProbeView::Failed(error),
        },
        ProbeView::Ask(question) => ProbeView::Ask(question),
        ProbeView::Failed(error) => ProbeView::Failed(error),
    }
}

/// A plan that is complete and holds no action.
pub fn unplanned() -> (r: Probe<Vec<Action>>)
    ensures
        r.deep_view() == nothing_planned(),
{
    let actions: Vec<Action> = Vec::new();
    assert(actions.deep_view() =~= Seq::empty());
    Probe::Done(actions)
}

/// A plan that holds the given actions and asks nothing.
pub fn settled(actions: Vec<Action>) -> (r: Probe<Vec<Action>>)
    ensures
        r.deep_view() == ProbeView::Done(actions.deep_view()),
{
    Probe::Done(actions)
}

/// Puts one plan behind another.
pub fn chain(first: Probe<Vec<Action>>, second: Probe<Vec<Action>>) -> (r: Probe<Vec<Action>>)
    ensures
        r.deep_view() == followed_by(first.deep_view(), second.deep_view()),
{
    match first {
        Probe::Done(before) => match second {
            Probe::Done(after) => {
                let mut before = before;
                let mut after = after;
                let ghost head = before.deep_view();
                let ghost tail = after.deep_view();
                before.append(&mut after);
                assert(before.deep_view() =~= head + tail);
                Probe::Done(before)
            },
            Probe::Ask(question) => Probe::Ask(question),
            Probe::Failed(error) => Probe::Failed(error),
        },
        Probe::Ask(question) => Probe::Ask(question),
        Probe::Failed(error) => Probe::Failed(error),
    }
}

/// `a` followed by `b`.
pub fn combine(a: &str, b: &str) -> (r: String)
    ensures
        r@ == a@ + b@,
{
    let mut out = String::from_str(a);
    out.append(b);
    out
}

/// The action that runs `command` in the root directory.
pub open spec fn run(command: Seq<char>) -> ActionView {
    ActionView::Execute { command, dir: "/"@ }
}

/// The action that runs `command` in the root directory.
pub fn execute(command: String) -> (action: Action)
    ensures
        action@ == run(command@),
{
    Action::Execute { command, dir: String::from_str("/") }
}

/// For each element of `list`, the action that runs `prefix` followed by the
/// element.
pub open spec fn run_each(prefix: Seq<char>, list: Seq<Seq<char>>) -> Seq<ActionView> {
    Seq::new(list.len(), |i: int| run(prefix + list[i]))
}

/// For each element of `list`, the action that runs `prefix` followed by the
/// element.
pub fn execute_each(prefix: &str, list: &Vec<String>) -> (actions: Vec<Action>)
    ensures
        actions.deep_view() == run_each(prefix@, list.deep_view()),
{
    let mut actions: Vec<Action> = Vec::new();
    let mut i: usize = 0;
    while i < list.len()
        invariant
            i <= list.len(),
            actions.len() == i,
            forall|k: int| 0 <= k < i ==> actions@[k]@ == run(prefix@ + list@[k]@),
        decreases list.len() - i,
    {
        actions.push(execute(combine(prefix, list[i].as_str())));
        i += 1;
    }
    assert(actions.deep_view() =~= run_each(prefix@, list.deep_view()));
    actions
}

/// The actions of a list-valued field: for each element, `prefix` followed by
/// the element is run; nothing when the field is absent.
pub open spec fn run_for(prefix: Seq<char>, field: Option<Seq<Seq<char>>>) -> Seq<ActionView> {
    match field {
        Some(list) => run_each(prefix, list),
        None => Seq::empty(),
    }
}

/// Puts the actions of a list-valued field behind `actions`.
pub fn execute_for(actions: &mut Vec<Action>, prefix: &str, field: &Option<Vec<String>>)
    ensures
        final(actions).deep_view() == old(actions).deep_view() + run_for(
            prefix@,
            field.deep_view(),
        ),
{
    match field {
        Some(list) => {
            let mut more = execute_each(prefix, list);
            let ghost tail = more.deep_view();
            actions.append(&mut more);
            assert(actions.deep_view() =~= old(actions).deep_view() + tail);
        },
        None => {
            assert(actions.deep_view() =~= old(actions).deep_view() + Seq::empty());
        },
    }
}

/// Each element of the list followed by a space, one after another.
pub open spec fn spaced(list: Seq<Seq<char>>) -> Seq<char>
    decreases list.len(),
{
    if list.len() == 0 {
        Seq::empty()
    } else {
        spaced(list.drop_last()) + list.last() + " "@
    }
}

/// Writes each element of the list followed by a space behind `text`.
pub fn append_spaced(text: &mut String, list: &Vec<String>)
    ensures
        final(text)@ == old(text)@ + spaced(list.deep_view()),
{
    let mut i: usize = 0;
    assert(list.deep_view().take(0) =~= Seq::empty());
    assert(text@ =~= old(text)@ + Seq::<char>::empty());
    while i < list.len()
        invariant
            i <= list.len(),
            text@ == old(text)@ + spaced(list.deep_view().take(i as int)),
        decreases list.len() - i,
    {
        let ghost next = list.deep_view().take(i + 1);
        let ghost before = text@;
        proof {
            assert(next.drop_last() =~= list.deep_view().take(i as int));
            assert(next.last() == list@[i as int]@);
        }
        text.append(list[i].as_str());
        text.append(" ");
        assert(text@ =~= old(text)@ + (spaced(list.deep_view().take(i as int)) + list@[i as int]@
            + " "@));
        i += 1;
    }
    assert(list.deep_view().take(list.len() as int) =~= list.deep_view());
}

/// The action that hands a list of packages to a package manager: one
/// command for all of them; nothing when the list is absent.
pub open spec fn run_with_all(prefix: Seq<char>, field: Option<Seq<Seq<char>>>) -> Seq<
    ActionView,
> {
    match field {
        Some(list) => seq![run(prefix + spaced(list))],
        None => Seq::empty(),
    }
}

/// Puts the action that hands a list of packages to a package manager
/// behind `actions`.
pub fn execute_with_all(actions: &mut Vec<Action>, prefix: &str, field: &Option<Vec<String>>)
    ensures
        final(actions).deep_view() == old(actions).deep_view() + run_with_all(
            prefix@,
            field.deep_view(),
        ),
{
    match field {
        Some(list) => {
            let mut command = String::from_str(prefix);
            append_spaced(&mut command, list);
            actions.push(execute(command));
            assert(actions.deep_view() =~= old(actions).deep_view() + seq![
                run(prefix@ + spaced(list.deep_view())),
            ]);
        },
        None => {
            assert(actions.deep_view() =~= old(actions).deep_view() + Seq::empty());
        },
    }
}

impl KeyboardView {
    /// The actions that set the layout for the initial ramdisk. The layout
    /// of the console is loaded once, when a machine is set up, and no action
    /// sets it on a running system: a console layout to add plans nothing.
    pub open spec fn additions(add: KeyboardView) -> Seq<ActionView> {
        match add.mkinitcpio {
            Some(keymap) => seq![
                ActionView::ReplaceLine {
                    path: MKINITCPIO_PATH@,
                    old_str: "KEYMAP="@,
                    new_str: "KEYMAP="@ + keymap,
                },
            ],
            None => Seq::empty(),
        }
    }
}

impl Add for KeyboardDiff {
    open spec fn plan(&self, findings: Seq<FindingView>, context: ExecutionContext)
        -> ProbeView<Seq<ActionView>> {
        if KeyboardView::managed(context) {
            ProbeView::Done(KeyboardView::additions(self.diff.add@))
        } else {
            nothing_planned()
        }
    }

    fn add(&self, findings: &Vec<Finding>, context: ExecutionContext) -> (plan: Probe<
        Vec<Action>,
    >) {
        if !context.privileged {
            return unplanned();
        }
        let mut actions: Vec<Action> = Vec::new();
        match &self.diff.add.mkinitcpio {
            Some(keymap) => {
                actions.push(
                    Action::ReplaceLine {
                        path: String::from_str(MKINITCPIO_PATH),
                        old_str: String::from_str("KEYMAP="),
                        new_str: combine("KEYMAP=", keymap.as_str()),
                    },
                );
            },
            None => {},
        }
        assert(actions.deep_view() =~= KeyboardView::additions(self.diff.add@));
        Probe::Done(actions)
    }
}

impl TimeView {
    /// The actions that set the time zone.
    pub open spec fn additions(add: TimeView) -> Seq<ActionView> {
        match add.timezone {
            Some(timezone) => seq![run("timedatectl set-timezone "@ + timezone)],
            None => Seq::empty(),
        }
    }
}

impl Add for TimeDiff {
    open spec fn plan(&self, findings: Seq<FindingView>, context: ExecutionContext)
        -> ProbeView<Seq<ActionView>> {
        if TimeView::managed(context) {
            ProbeView::Done(TimeView::additions(self.diff.add@))
        } else {
            nothing_planned()
        }
    }

    fn add(&self, findings: &Vec<Finding>, context: ExecutionContext) -> (plan: Probe<
        Vec<Action>,
    >) {
        if !context.privileged {
            return unplanned();
        }
        let mut actions: Vec<Action> = Vec::new();
        match &self.diff.add.timezone {
            Some(timezone) => {
                actions.push(execute(combine("timedatectl set-timezone ", timezone.as_str())));
            },
            None => {},
        }
        assert(actions.deep_view() =~= TimeView::additions(self.diff.add@));
        Probe::Done(actions)
    }
}

impl LanguageView {
    /// The actions that set the locale. When the locale or its character set
    /// differs from what was observed, both files are written anew from the
    /// desired state and the locales are generated. Nothing is done when the
    /// desired state lacks either.
    pub open spec fn additions(config: LanguageView, add: LanguageView) -> Seq<ActionView> {
        if add.character is None && add.locale is None {
            Seq::empty()
        } else {
            match (config.locale, config.character) {
                (Some(locale), Some(character)) => seq![
                    ActionView::WriteFile {
                        path: LOCALE_CONF_PATH@,
                        content: "LANG="@ + locale + "\n"@,
                    },
                    ActionView::WriteFile {
                        path: LOCALE_GEN_PATH@,
                        content: locale + " "@ + character + "\n"@,
                    },
                    run("locale-gen"@),
                ],
                _ => Seq::empty(),
            }
        }
    }
}

impl Add for LanguageDiff {
    open spec fn plan(&self, findings: Seq<FindingView>, context: ExecutionContext)
        -> ProbeView<Seq<ActionView>> {
        if LanguageView::managed(context) {
            ProbeView::Done(LanguageView::additions(self.config@, self.diff.add@))
        } else {
            nothing_planned()
        }
    }

    fn add(&self, findings: &Vec<Finding>, context: ExecutionContext) -> (plan: Probe<
        Vec<Action>,
    >) {
        if !context.privileged {
            return unplanned();
        }
        let mut actions: Vec<Action> = Vec::new();
        if self.diff.add.character.is_some() || self.diff.add.locale.is_some() {
            match (&self.config.locale, &self.config.character) {
                (Some(locale), Some(character)) => {
                    let mut conf = combine("LANG=", locale.as_str());
                    conf.append("\n");
                    let mut generated = combine(locale.as_str(), " ");
                    generated.append(character.as_str());
                    generated.append("\n");
                    actions.push(
                        Action::WriteFile {
                            path: String::from_str(LOCALE_CONF_PATH),
                            content: conf,
                        },
                    );
                    actions.push(
                        Action::WriteFile {
                            path: String::from_str(LOCALE_GEN_PATH),
                            content: generated,
                        },
                    );
                    actions.push(execute(String::from_str("locale-gen")));
                },
                _ => {},
            }
        }
        assert(actions.deep_view() =~= LanguageView::additions(self.config@, self.diff.add@));
        Probe::Done(actions)
    }
}

/// The table of hosts of a machine called `hostname`.
pub open spec fn hosts(hostname: Seq<char>) -> Seq<char> {
    "127.0.0.1       localhost\n::1             localhost\n127.0.1.1       "@ + hostname
        + ".localdomain "@ + hostname
}

/// Writes the table of hosts of a machine called `hostname`.
pub fn hosts_text(hostname: &str) -> (table: String)
    ensures
        table@ == hosts(hostname@),
{
    let mut table = combine(
        "127.0.0.1       localhost\n::1             localhost\n127.0.1.1       ",
        hostname,
    );
    table.append(".localdomain ");
    table.append(hostname);
    table
}

impl SystemView {
    /// The actions that rename the machine: the host name is written to its
    /// file, and the table of hosts is written anew for it.
    pub open spec fn additions(add: SystemView) -> Seq<ActionView> {
        match add.hostname {
            Some(hostname) => seq![
                ActionView::WriteFile { path: HOSTNAME_PATH@, content: hostname },
                ActionView::WriteFile { path: HOSTS_PATH@, content: hosts(hostname) },
            ],
            None => Seq::empty(),
        }
    }
}

impl Add for SystemDiff {
    open spec fn plan(&self, findings: Seq<FindingView>, context: ExecutionContext)
        -> ProbeView<Seq<ActionView>> {
        if SystemView::managed(context) {
            ProbeView::Done(SystemView::additions(self.diff.add@))
        } else {
            nothing_planned()
        }
    }

    fn add(&self, findings: &Vec<Finding>, context: ExecutionContext) -> (plan: Probe<
        Vec<Action>,
    >) {
        if !context.privileged {
            return unplanned();
        }
        let mut actions: Vec<Action> = Vec::new();
        match &self.diff.add.hostname {
            Some(hostname) => {
                actions.push(
                    Action::WriteFile {
                        path: String::from_str(HOSTNAME_PATH),
                        content: hostname.clone(),
                    },
                );
                actions.push(
                    Action::WriteFile {
                        path: String::from_str(HOSTS_PATH),
                        content: hosts_text(hostname.as_str()),
                    },
                );
            },
            None => {},
        }
        assert(actions.deep_view() =~= SystemView::additions(self.diff.add@));
        Probe::Done(actions)
    }
}

impl ShellView {
    /// The actions that change the login shell.
    pub open spec fn additions(add: ShellView) -> Seq<ActionView> {
        match add.default_shell {
            Some(shell) => seq![run("chsh -s "@ + shell)],
            None => Seq::empty(),
        }
    }
}

impl Add for ShellDiff {
    open spec fn plan(&self, findings: Seq<FindingView>, context: ExecutionContext)
        -> ProbeView<Seq<ActionView>> {
        ProbeView::Done(ShellView::additions(self.diff.add@))
    }

    fn add(&self, findings: &Vec<Finding>, context: ExecutionContext) -> (plan: Probe<
        Vec<Action>,
    >) {
        let mut actions: Vec<Action> = Vec::new();
        match &self.diff.add.default_shell {
            Some(shell) => {
                actions.push(execute(combine("chsh -s ", shell.as_str())));
            },
            None => {},
        }
        assert(actions.deep_view() =~= ShellView::additions(self.diff.add@));
        Probe::Done(actions)
    }
}

/// The actions that make the groups among `groups` that the system does not
/// know: a group is unknown when looking it up prints nothing. A plan makes
/// a group once, where it first names it: a group that occurs among
/// `earlier`, the groups that the plan has dealt with before, or earlier
/// among `groups`, is not made again.
pub open spec fn group_creation(
    findings: Seq<FindingView>,
    earlier: Seq<Seq<char>>,
    groups: Seq<Seq<char>>,
) -> ProbeView<Seq<ActionView>>
    decreases groups.len(),
{
    if groups.len() == 0 {
        ProbeView::Done(Seq::empty())
    } else {
        let group = groups.last();
        followed_by(
            group_creation(findings, earlier, groups.drop_last()),
            match required_text(
                findings,
                Inquiry::Output,
                "getent group "@ + group,
                Fault::NotRun,
            ) {
                ProbeView::Done(entry) => ProbeView::Done(
                    if entry.len() == 0 && !(earlier + groups.drop_last()).contains(group) {
                        seq![run("groupadd "@ + group)]
                    } else {
                        Seq::empty()
                    },
                ),
                ProbeView::Ask(question) => ProbeView::Ask(question),
                ProbeView::Failed(error) => ProbeView::Failed(error),
            },
        )
    }
}

/// Plans the making of the unknown groups among `groups`. `seen` holds the
/// groups that the plan has dealt with before, and takes up `groups`.
pub fn create_groups(
    findings: &Vec<Finding>,
    seen: &mut Vec<String>,
    groups: &Vec<String>,
) -> (plan: Probe<Vec<Action>>)
    ensures
        plan.deep_view() == group_creation(
            findings.deep_view(),
            old(seen).deep_view(),
            groups.deep_view(),
        ),
        final(seen).deep_view() == old(seen).deep_view() + groups.deep_view(),
{
    let ghost earlier = seen.deep_view();
    let mut plan: Probe<Vec<Action>> = settled(Vec::new());
    let mut i: usize = 0;
    assert(groups.deep_view().take(0) =~= Seq::empty());
    assert(seen.deep_view() =~= earlier + groups.deep_view().take(0));
    assert(plan.deep_view() == ProbeView::Done(Seq::<ActionView>::empty())) by {
        assert(plan->Done_0.deep_view() =~= Seq::empty());
    }
    while i < groups.len()
        invariant
            i <= groups.len(),
            seen.deep_view() == earlier + groups.deep_view().take(i as int),
            plan.deep_view() == group_creation(
                findings.deep_view(),
                earlier,
                groups.deep_view().take(i as int),
            ),
        decreases groups.len() - i,
    {
        let ghost next = groups.deep_view().take(i + 1);
        let ghost before = seen.deep_view();
        proof {
            assert(next.drop_last() =~= groups.deep_view().take(i as int));
            assert(next.last() == groups@[i as int]@);
        }
        let planned = contains(seen, &groups[i]);
        let lookup = combine("getent group ", groups[i].as_str());
        let step = match require_text(findings, Inquiry::Output, lookup.as_str(), Fault::NotRun) {
            Probe::Done(entry) => {
                let mut actions: Vec<Action> = Vec::new();
                if entry.as_str().is_empty() && !planned {
                    actions.push(execute(combine("groupadd ", groups[i].as_str())));
                    assert(actions.deep_view() =~= seq![run("groupadd "@ + groups@[i as int]@)]);
                } else {
                    assert(actions.deep_view() =~= Seq::empty());
                }
                Probe::Done(actions)
            },
            Probe::Ask(question) => Probe::Ask(question),
            Probe::Failed(error) => Probe::Failed(error),
        };
        plan = chain(plan, step);
        seen.push(groups[i].duplicate());
        assert(seen.deep_view() =~= before.push(groups@[i as int]@));
        assert(seen.deep_view() =~= earlier + next);
        i += 1;
    }
    assert(groups.deep_view().take(groups.len() as int) =~= groups.deep_view());
    plan
}

/// The command that puts a user into their groups.
pub open spec fn membership(user: UserView) -> Seq<char> {
    if user.groups.len() == 0 {
        "usermod -aG "@ + user.name
    } else {
        "usermod -aG "@ + join(user.groups, ","@) + " "@ + user.name
    }
}

/// Writes the command that puts a user into their groups.
pub fn membership_command(user: &User) -> (command: String)
    ensures
        command@ == membership(user@),
{
    if user.groups.len() == 0 {
        assert(user@.groups.len() == 0);
        combine("usermod -aG ", user.name.as_str())
    } else {
        assert(user@.groups.len() == user.groups.len());
        let groups = joined(&user.groups, ",");
        let mut command = combine("usermod -aG ", groups.as_str());
        command.append(" ");
        command.append(user.name.as_str());
        command
    }
}

/// The groups of the users, one user's after the other's.
pub open spec fn groups_of(users: Seq<UserView>) -> Seq<Seq<char>>
    decreases users.len(),
{
    if users.len() == 0 {
        Seq::empty()
    } else {
        groups_of(users.drop_last()) + users.last().groups
    }
}

/// The actions that put the users into their groups: for each user, the
/// groups that are unknown and that no earlier step of the plan makes are
/// made, then the user joins all of their groups.
pub open spec fn memberships(findings: Seq<FindingView>, users: Seq<UserView>) -> ProbeView<
    Seq<ActionView>,
>
    decreases users.len(),
{
    if users.len() == 0 {
        ProbeView::Done(Seq::empty())
    } else {
        let user = users.last();
        followed_by(
            memberships(findings, users.drop_last()),
            followed_by(
                group_creation(findings, groups_of(users.drop_last()), user.groups),
                ProbeView::Done(seq![run(membership(user))]),
            ),
        )
    }
}

/// Plans putting the users into their groups.
pub fn create_memberships(findings: &Vec<Finding>, users: &Vec<User>) -> (plan: Probe<
    Vec<Action>,
>)
    ensures
        plan.deep_view() == memberships(findings.deep_view(), users.deep_view()),
{
    let mut plan: Probe<Vec<Action>> = settled(Vec::new());
    let mut seen: Vec<String> = Vec::new();
    let mut i: usize = 0;
    assert(users.deep_view().take(0) =~= Seq::empty());
    assert(seen.deep_view() =~= Seq::empty());
    assert(plan.deep_view() == ProbeView::Done(Seq::<ActionView>::empty())) by {
        assert(plan->Done_0.deep_view() =~= Seq::empty());
    }
    while i < users.len()
        invariant
            i <= users.len(),
            seen.deep_view() == groups_of(users.deep_view().take(i as int)),
            plan.deep_view() == memberships(findings.deep_view(), users.deep_view().take(i as int)),
        decreases users.len() - i,
    {
        let ghost next = users.deep_view().take(i + 1);
        proof {
            assert(next.drop_last() =~= users.deep_view().take(i as int));
            assert(next.last() == users@[i as int]@);
        }
        let mut join_groups: Vec<Action> = Vec::new();
        join_groups.push(execute(membership_command(&users[i])));
        assert(join_groups.deep_view() =~= seq![run(membership(users@[i as int]@))]);
        let make_groups = create_groups(findings, &mut seen, &users[i].groups);
        plan = chain(plan, chain(make_groups, settled(join_groups)));
        i += 1;
    }
    assert(users.deep_view().take(users.len() as int) =~= users.deep_view());
    plan
}

/// The actions that take the users out of the groups listed with them.
pub open spec fn dismissals(users: Seq<UserView>) -> Seq<ActionView>
    decreases users.len(),
{
    if users.len() == 0 {
        Seq::empty()
    } else {
        let user = users.last();
        dismissals(users.drop_last()) + run_each("gpasswd -d "@ + user.name + " "@, user.groups)
    }
}

/// Plans taking the users out of the groups listed with them.
pub fn dismiss(users: &Vec<User>) -> (actions: Vec<Action>)
    ensures
        actions.deep_view() == dismissals(users.deep_view()),
{
    let mut actions: Vec<Action> = Vec::new();
    let mut i: usize = 0;
    assert(users.deep_view().take(0) =~= Seq::empty());
    assert(actions.deep_view() =~= Seq::empty());
    while i < users.len()
        invariant
            i <= users.len(),
            actions.deep_view() == dismissals(users.deep_view().take(i as int)),
        decreases users.len() - i,
    {
        let ghost next = users.deep_view().take(i + 1);
        let ghost before = actions.deep_view();
        proof {
            assert(next.drop_last() =~= users.deep_view().take(i as int));
            assert(next.last() == users@[i as int]@);
        }
        let mut prefix = combine("gpasswd -d ", users[i].name.as_str());
        prefix.append(" ");
        let mut more = execute_each(prefix.as_str(), &users[i].groups);
        let ghost tail = more.deep_view();
        actions.append(&mut more);
        assert(actions.deep_view() =~= before + tail);
        i += 1;
    }
    assert(users.deep_view().take(users.len() as int) =~= users.deep_view());
    actions
}

impl UsersView {
    /// The actions that create the users and put them into their groups.
    pub open spec fn additions(add: UsersView, findings: Seq<FindingView>) -> ProbeView<
        Seq<ActionView>,
    > {
        followed_by(
            ProbeView::Done(run_for("useradd "@, add.user_list)),
            match add.user_groups {
                Some(users) => memberships(findings, users),
                None => ProbeView::Done(Seq::empty()),
            },
        )
    }

    /// The actions that take users out of groups and delete users, in this
    /// order.
    pub open spec fn removals(remove: UsersView) -> Seq<ActionView> {
        (match remove.user_groups {
            Some(users) => dismissals(users),
            None => Seq::empty(),
        }) + run_for("userdel "@, remove.user_list)
    }
}

impl Add for UserDiff {
    open spec fn plan(&self, findings: Seq<FindingView>, context: ExecutionContext)
        -> ProbeView<Seq<ActionView>> {
        if UsersView::managed(context) {
            UsersView::additions(self.diff.add@, findings)
        } else {
            nothing_planned()
        }
    }

    fn add(&self, findings: &Vec<Finding>, context: ExecutionContext) -> (plan: Probe<
        Vec<Action>,
    >) {
        if !context.privileged {
            return unplanned();
        }
        let mut actions: Vec<Action> = Vec::new();
        assert(actions.deep_view() =~= Seq::empty());
        execute_for(&mut actions, "useradd ", &self.diff.add.user_list);
        assert(actions.deep_view() =~= run_for("useradd "@, self.diff.add@.user_list));
        let groups = match &self.diff.add.user_groups {
            Some(users) => create_memberships(findings, users),
            None => {
                let none: Vec<Action> = Vec::new();
                assert(none.deep_view() =~= Seq::empty());
                settled(none)
            },
        };
        chain(settled(actions), groups)
    }
}

impl Remove for UserDiff {
    open spec fn removal(&self, context: ExecutionContext) -> Seq<ActionView> {
        if UsersView::managed(context) {
            UsersView::removals(self.diff.remove@)
        } else {
            no_actions()
        }
    }

    fn remove(&self, context: ExecutionContext) -> (actions: Vec<Action>) {
        if !context.privileged {
            let none: Vec<Action> = Vec::new();
            assert(none.deep_view() =~= no_actions());
            return none;
        }
        let mut actions: Vec<Action> = match &self.diff.remove.user_groups {
            Some(users) => dismiss(users),
            None => Vec::new(),
        };
        let ghost groups = actions.deep_view();
        assert(groups =~= match self.diff.remove@.user_groups {
            Some(users) => dismissals(users),
            None => Seq::empty(),
        });
        execute_for(&mut actions, "userdel ", &self.diff.remove.user_list);
        actions
    }
}

impl PacmanView {
    /// The actions that set the number of parallel downloads.
    pub open spec fn additions(add: PacmanView) -> Seq<ActionView> {
        match add.parallel {
            Some(parallel) => seq![
                ActionView::ReplaceLine {
                    path: PACMAN_CONF_PATH@,
                    old_str: "ParallelDownloads"@,
                    new_str: "ParallelDownloads = "@ + decimal(parallel as nat) + "\n"@,
                },
            ],
            None => Seq::empty(),
        }
    }
}

impl Add for PacmanDiff {
    open spec fn plan(&self, findings: Seq<FindingView>, context: ExecutionContext)
        -> ProbeView<Seq<ActionView>> {
        if PacmanView::managed(context) {
            ProbeView::Done(PacmanView::additions(self.diff.add@))
        } else {
            nothing_planned()
        }
    }

    fn add(&self, findings: &Vec<Finding>, context: ExecutionContext) -> (plan: Probe<
        Vec<Action>,
    >) {
        if !context.privileged {
            return unplanned();
        }
        Probe::Done(set_parallel_downloads(&self.diff.add))
    }
}

/// Plans setting the number of parallel downloads.
pub fn set_parallel_downloads(add: &Pacman) -> (actions: Vec<Action>)
    ensures
        actions.deep_view() == PacmanView::additions(add@),
{
    let mut actions: Vec<Action> = Vec::new();
    match add.parallel {
        Some(parallel) => {
            let number = decimal_text(parallel as usize);
            let mut line = combine("ParallelDownloads = ", number.as_str());
            line.append("\n");
            actions.push(
                Action::ReplaceLine {
                    path: String::from_str(PACMAN_CONF_PATH),
                    old_str: String::from_str("ParallelDownloads"),
                    new_str: line,
                },
            );
        },
        None => {},
    }
    assert(actions.deep_view() =~= PacmanView::additions(add@));
    actions
}

impl PackagesView {
    /// The actions that install packages: in a privileged run those of the
    /// official repositories, in an unprivileged one those of the user
    /// repository, in either with one command for all of them; then those
    /// installed by hand, each with its own command.
    pub open spec fn additions(
        add: PackagesView,
        findings: Seq<FindingView>,
        context: ExecutionContext,
    ) -> ProbeView<Seq<ActionView>> {
        followed_by(
            ProbeView::Done(
                if context.privileged {
                    run_with_all("pacman --noconfirm -S "@, add.pacman_packages)
                } else {
                    run_with_all("paru --noconfirm -S "@, add.aur_packages)
                },
            ),
            creation_of::<ManualInstallPackages>(add.manual_install_packages, findings, context),
        )
    }

    /// The actions that uninstall packages: in a privileged run those of
    /// the official repositories, in an unprivileged one those of the user
    /// repository. Packages installed by hand are never uninstalled.
    pub open spec fn removals(remove: PackagesView, context: ExecutionContext) -> Seq<
        ActionView,
    > {
        if context.privileged {
            run_with_all("pacman --noconfirm -Rns "@, remove.pacman_packages)
        } else {
            run_with_all("paru --noconfirm -Rns "@, remove.aur_packages)
        }
    }
}

impl Add for PackagesDiff {
    open spec fn plan(&self, findings: Seq<FindingView>, context: ExecutionContext)
        -> ProbeView<Seq<ActionView>> {
        PackagesView::additions(self.diff.add@, findings, context)
    }

    fn add(&self, findings: &Vec<Finding>, context: ExecutionContext) -> (plan: Probe<
        Vec<Action>,
    >) {
        let mut actions: Vec<Action> = Vec::new();
        assert(actions.deep_view() =~= Seq::empty());
        if context.privileged {
            execute_with_all(
                &mut actions,
                "pacman --noconfirm -S ",
                &self.diff.add.pacman_packages,
            );
            assert(actions.deep_view() =~= run_with_all(
                "pacman --noconfirm -S "@,
                self.diff.add@.pacman_packages,
            ));
        } else {
            execute_with_all(&mut actions, "paru --noconfirm -S ", &self.diff.add.aur_packages);
            assert(actions.deep_view() =~= run_with_all(
                "paru --noconfirm -S "@,
                self.diff.add@.aur_packages,
            ));
        }
        chain(
            settled(actions),
            create_entries(&self.diff.add.manual_install_packages, findings, context),
        )
    }
}

impl Remove for PackagesDiff {
    open spec fn removal(&self, context: ExecutionContext) -> Seq<ActionView> {
        PackagesView::removals(self.diff.remove@, context)
    }

    fn remove(&self, context: ExecutionContext) -> (actions: Vec<Action>) {
        let mut actions: Vec<Action> = Vec::new();
        assert(actions.deep_view() =~= Seq::empty());
        if context.privileged {
            execute_with_all(
                &mut actions,
                "pacman --noconfirm -Rns ",
                &self.diff.remove.pacman_packages,
            );
        } else {
            execute_with_all(
                &mut actions,
                "paru --noconfirm -Rns ",
                &self.diff.remove.aur_packages,
            );
        }
        assert(actions.deep_view() =~= PackagesView::removals(self.diff.remove@, context));
        actions
    }
}

impl ServicesView {
    /// The actions that enable services: in a privileged run those of the
    /// system, in an unprivileged one those of the user session.
    pub open spec fn additions(add: ServicesView, context: ExecutionContext) -> Seq<ActionView> {
        if context.privileged {
            run_for("systemctl enable "@, add.services)
        } else {
            run_for("systemctl --user enable "@, add.user_services)
        }
    }

    /// The actions that disable services: in a privileged run those of the
    /// system, in an unprivileged one those of the user session.
    pub open spec fn removals(remove: ServicesView, context: ExecutionContext) -> Seq<
        ActionView,
    > {
        if context.privileged {
            run_for("systemctl disable "@, remove.services)
        } else {
            run_for("systemctl --user disable "@, remove.user_services)
        }
    }
}

impl Add for ServicesDiff {
    open spec fn plan(&self, findings: Seq<FindingView>, context: ExecutionContext)
        -> ProbeView<Seq<ActionView>> {
        ProbeView::Done(ServicesView::additions(self.diff.add@, context))
    }

    fn add(&self, findings: &Vec<Finding>, context: ExecutionContext) -> (plan: Probe<
        Vec<Action>,
    >) {
        let mut actions: Vec<Action> = Vec::new();
        assert(actions.deep_view() =~= Seq::empty());
        if context.privileged {
            execute_for(&mut actions, "systemctl enable ", &self.diff.add.services);
        } else {
            execute_for(&mut actions, "systemctl --user enable ", &self.diff.add.user_services);
        }
        assert(actions.deep_view() =~= ServicesView::additions(self.diff.add@, context));
        Probe::Done(actions)
    }
}

impl Remove for ServicesDiff {
    open spec fn removal(&self, context: ExecutionContext) -> Seq<ActionView> {
        ServicesView::removals(self.diff.remove@, context)
    }

    fn remove(&self, context: ExecutionContext) -> (actions: Vec<Action>) {
        let mut actions: Vec<Action> = Vec::new();
        assert(actions.deep_view() =~= Seq::empty());
        if context.privileged {
            execute_for(&mut actions, "systemctl disable ", &self.diff.remove.services);
        } else {
            execute_for(&mut actions, "systemctl --user disable ", &self.diff.remove.user_services);
        }
        assert(actions.deep_view() =~= ServicesView::removals(self.diff.remove@, context));
        actions
    }
}

impl DirectoriesView {
    /// The actions that give directories to their groups, make directories
    /// and link directories, in this order.
    pub open spec fn additions(
        add: DirectoriesView,
        findings: Seq<FindingView>,
        context: ExecutionContext,
    ) -> ProbeView<Seq<ActionView>> {
        followed_by(
            followed_by(
                creation_of::<ReownDirs>(add.reown_dirs, findings, context),
                creation_of::<CreateDirs>(add.create_dirs, findings, context),
            ),
            creation_of::<Links>(add.links, findings, context),
        )
    }
}

impl Add for DirectoriesDiff {
    open spec fn plan(&self, findings: Seq<FindingView>, context: ExecutionContext)
        -> ProbeView<Seq<ActionView>> {
        DirectoriesView::additions(self.diff.add@, findings, context)
    }

    fn add(&self, findings: &Vec<Finding>, context: ExecutionContext) -> (plan: Probe<
        Vec<Action>,
    >) {
        chain(
            chain(
                create_entries(&self.diff.add.reown_dirs, findings, context),
                create_entries(&self.diff.add.create_dirs, findings, context),
            ),
            create_entries(&self.diff.add.links, findings, context),
        )
    }
}

/// The line that sets a list-valued variable: its name and opening, the
/// elements with a space between each two, and its closing.
pub open spec fn list_line(opening: Seq<char>, list: Seq<Seq<char>>, closing: Seq<char>) -> Seq<
    char,
> {
    opening + join(list, " "@) + closing
}

/// Writes the line that sets a list-valued variable.
pub fn list_line_text(opening: &str, list: &Vec<String>, closing: &str) -> (line: String)
    ensures
        line@ == list_line(opening@, list.deep_view(), closing@),
{
    let elements = joined(list, " ");
    let mut line = combine(opening, elements.as_str());
    line.append(closing);
    line
}

impl GrubView {
    /// The actions that set the kernel parameters. When the delta holds
    /// anything, the line is written anew from the desired state.
    pub open spec fn additions(config: GrubView, add: GrubView, remove: GrubView) -> Seq<
        ActionView,
    > {
        if add.grub_cmdline_linux_default is None && remove.grub_cmdline_linux_default is None {
            Seq::empty()
        } else {
            seq![
                ActionView::ReplaceLine {
                    path: GRUB_PATH@,
                    old_str: "GRUB_CMDLINE_LINUX_DEFAULT="@,
                    new_str: list_line(
                        "GRUB_CMDLINE_LINUX_DEFAULT=\""@,
                        listed(config.grub_cmdline_linux_default),
                        "\""@,
                    ),
                },
            ]
        }
    }
}

impl Add for GrubDiff {
    open spec fn plan(&self, findings: Seq<FindingView>, context: ExecutionContext)
        -> ProbeView<Seq<ActionView>> {
        if GrubView::managed(context) {
            ProbeView::Done(GrubView::additions(self.config@, self.diff.add@, self.diff.remove@))
        } else {
            nothing_planned()
        }
    }

    fn add(&self, findings: &Vec<Finding>, context: ExecutionContext) -> (plan: Probe<
        Vec<Action>,
    >) {
        if !context.privileged {
            return unplanned();
        }
        let mut actions: Vec<Action> = Vec::new();
        if self.diff.add.grub_cmdline_linux_default.is_some()
            || self.diff.remove.grub_cmdline_linux_default.is_some() {
            let none: Vec<String> = Vec::new();
            assert(none.deep_view() =~= Seq::empty());
            let arguments = match &self.config.grub_cmdline_linux_default {
                Some(list) => list,
                None => &none,
            };
            actions.push(
                Action::ReplaceLine {
                    path: String::from_str(GRUB_PATH),
                    old_str: String::from_str("GRUB_CMDLINE_LINUX_DEFAULT="),
                    new_str: list_line_text("GRUB_CMDLINE_LINUX_DEFAULT=\"", arguments, "\""),
                },
            );
        }
        assert(actions.deep_view() =~= GrubView::additions(
            self.config@,
            self.diff.add@,
            self.diff.remove@,
        ));
        Probe::Done(actions)
    }
}

/// The action that writes a list-valued variable of the initial ramdisk
/// anew from the desired state, when its delta holds anything and a list is
/// desired.
pub open spec fn ramdisk_line(
    opening: Seq<char>,
    config: Option<Seq<Seq<char>>>,
    add: Option<Seq<Seq<char>>>,
    remove: Option<Seq<Seq<char>>>,
) -> Seq<ActionView> {
    if add is None && remove is None {
        Seq::empty()
    } else {
        match config {
            Some(list) => seq![
                ActionView::ReplaceLine {
                    path: MKINITCPIO_PATH@,
                    old_str: opening,
                    new_str: list_line(opening, list, ")"@),
                },
            ],
            None => Seq::empty(),
        }
    }
}

/// Puts the action that writes a list-valued variable of the initial
/// ramdisk behind `actions`.
pub fn set_ramdisk_line(
    actions: &mut Vec<Action>,
    opening: &str,
    config: &Option<Vec<String>>,
    add: &Option<Vec<String>>,
    remove: &Option<Vec<String>>,
)
    ensures
        final(actions).deep_view() == old(actions).deep_view() + ramdisk_line(
            opening@,
            config.deep_view(),
            add.deep_view(),
            remove.deep_view(),
        ),
{
    if add.is_some() || remove.is_some() {
        match config {
            Some(list) => {
                let action = Action::ReplaceLine {
                    path: String::from_str(MKINITCPIO_PATH),
                    old_str: String::from_str(opening),
                    new_str: list_line_text(opening, list, ")"),
                };
                actions.push(action);
                assert(actions.deep_view() =~= old(actions).deep_view() + seq![action@]);
                return ;
            },
            None => {},
        }
    }
    assert(actions.deep_view() =~= old(actions).deep_view() + Seq::empty());
}

impl MkinitcpioView {
    /// The actions that set the hooks and the modules, in this order.
    pub open spec fn additions(
        config: MkinitcpioView,
        add: MkinitcpioView,
        remove: MkinitcpioView,
    ) -> Seq<ActionView> {
        ramdisk_line("HOOKS=("@, config.hooks, add.hooks, remove.hooks) + ramdisk_line(
            "MODULES=("@,
            config.modules,
            add.modules,
            remove.modules,
        )
    }
}

impl Add for MkinitcpioDiff {
    open spec fn plan(&self, findings: Seq<FindingView>, context: ExecutionContext)
        -> ProbeView<Seq<ActionView>> {
        if MkinitcpioView::managed(context) {
            ProbeView::Done(
                MkinitcpioView::additions(self.config@, self.diff.add@, self.diff.remove@),
            )
        } else {
            nothing_planned()
        }
    }

    fn add(&self, findings: &Vec<Finding>, context: ExecutionContext) -> (plan: Probe<
        Vec<Action>,
    >) {
        if !context.privileged {
            return unplanned();
        }
        let mut actions: Vec<Action> = Vec::new();
        assert(actions.deep_view() =~= Seq::empty());
        set_ramdisk_line(
            &mut actions,
            "HOOKS=(",
            &self.config.hooks,
            &self.diff.add.hooks,
            &self.diff.remove.hooks,
        );
        set_ramdisk_line(
            &mut actions,
            "MODULES=(",
            &self.config.modules,
            &self.diff.add.modules,
            &self.diff.remove.modules,
        );
        assert(actions.deep_view() =~= MkinitcpioView::additions(
            self.config@,
            self.diff.add@,
            self.diff.remove@,
        ));
        Probe::Done(actions)
    }
}

impl UfwView {
    /// The actions that set the default policies and allow what the rules
    /// name.
    pub open spec fn additions(add: UfwView) -> Seq<ActionView> {
        (match add.incoming {
            Some(incoming) => seq![run("ufw default "@ + incoming + " incoming"@)],
            None => Seq::empty(),
        }) + (match add.outgoing {
            Some(outgoing) => seq![run("ufw default "@ + outgoing + " outgoing"@)],
            None => Seq::empty(),
        }) + run_for("ufw allow "@, add.rules)
    }

    /// The actions that delete rules.
    pub open spec fn removals(remove: UfwView) -> Seq<ActionView> {
        run_for("ufw delete allow "@, remove.rules)
    }
}

impl Add for UfwDiff {
    open spec fn plan(&self, findings: Seq<FindingView>, context: ExecutionContext)
        -> ProbeView<Seq<ActionView>> {
        if UfwView::managed(context) {
            ProbeView::Done(UfwView::additions(self.diff.add@))
        } else {
            nothing_planned()
        }
    }

    fn add(&self, findings: &Vec<Finding>, context: ExecutionContext) -> (plan: Probe<
        Vec<Action>,
    >) {
        if !context.privileged {
            return unplanned();
        }
        let mut actions: Vec<Action> = Vec::new();
        match &self.diff.add.incoming {
            Some(incoming) => {
                let mut command = combine("ufw default ", incoming.as_str());
                command.append(" incoming");
                actions.push(execute(command));
            },
            None => {},
        }
        match &self.diff.add.outgoing {
            Some(outgoing) => {
                let mut command = combine("ufw default ", outgoing.as_str());
                command.append(" outgoing");
                actions.push(execute(command));
            },
            None => {},
        }
        execute_for(&mut actions, "ufw allow ", &self.diff.add.rules);
        assert(actions.deep_view() =~= UfwView::additions(self.diff.add@));
        Probe::Done(actions)
    }
}

impl Remove for UfwDiff {
    open spec fn removal(&self, context: ExecutionContext) -> Seq<ActionView> {
        if UfwView::managed(context) {
            UfwView::removals(self.diff.remove@)
        } else {
            no_actions()
        }
    }

    fn remove(&self, context: ExecutionContext) -> (actions: Vec<Action>) {
        if !context.privileged {
            let none: Vec<Action> = Vec::new();
            assert(none.deep_view() =~= no_actions());
            return none;
        }
        let mut actions: Vec<Action> = Vec::new();
        assert(actions.deep_view() =~= Seq::empty());
        execute_for(&mut actions, "ufw delete allow ", &self.diff.remove.rules);
        assert(actions.deep_view() =~= UfwView::removals(self.diff.remove@));
        actions
    }
}

/// The action that sets a variable of the intrusion prevention: every
/// line that begins with `old_str` becomes the name, an equals sign and the
/// value. Nothing when there is no value.
pub open spec fn jail_setting(old_str: Seq<char>, name: Seq<char>, value: Option<Seq<char>>)
    -> Seq<ActionView> {
    match value {
        Some(text) => seq![
            ActionView::ReplaceLine {
                path: FAIL2BAN_JAIL_LOCAL_PATH@,
                old_str,
                new_str: name + " = "@ + text,
            },
        ],
        None => Seq::empty(),
    }
}

/// Puts the action that sets a variable of the intrusion prevention behind
/// `actions`.
pub fn set_jail_setting(
    actions: &mut Vec<Action>,
    old_str: &str,
    name: &str,
    value: &Option<String>,
)
    ensures
        final(actions).deep_view() == old(actions).deep_view() + jail_setting(
            old_str@,
            name@,
            value.deep_view(),
        ),
{
    match value {
        Some(text) => {
            let mut line = combine(name, " = ");
            line.append(text.as_str());
            let action = Action::ReplaceLine {
                path: String::from_str(FAIL2BAN_JAIL_LOCAL_PATH),
                old_str: String::from_str(old_str),
                new_str: line,
            };
            actions.push(action);
            assert(actions.deep_view() =~= old(actions).deep_view() + seq![action@]);
        },
        None => {
            assert(actions.deep_view() =~= old(actions).deep_view() + Seq::empty());
        },
    }
}

/// A number as a setting's value.
pub open spec fn in_decimal(value: Option<usize>) -> Option<Seq<char>> {
    match value {
        Some(n) => Some(decimal(n as nat)),
        None => None,
    }
}

/// Writes a number as a setting's value.
pub fn to_decimal(value: &Option<usize>) -> (text: Option<String>)
    ensures
        text.deep_view() == in_decimal(*value),
{
    match value {
        Some(n) => Some(decimal_text(*n)),
        None => None,
    }
}

/// The block that enables the jail of a service, led by `lead`.
pub open spec fn jail(lead: Seq<char>, service: Seq<char>) -> Seq<char> {
    lead + "["@ + service + "]\nenabled = true"@
}

/// Writes the block that enables the jail of a service.
pub fn jail_text(lead: &str, service: &str) -> (block: String)
    ensures
        block@ == jail(lead@, service@),
{
    let mut block = combine(lead, "[");
    block.append(service);
    block.append("]\nenabled = true");
    block
}

/// The actions that add the jail of each service to the end of the file.
pub open spec fn jails_added(services: Seq<Seq<char>>) -> Seq<ActionView> {
    Seq::new(
        services.len(),
        |i: int|
            ActionView::AppendToFile {
                path: FAIL2BAN_JAIL_LOCAL_PATH@,
                text: jail("\n"@, services[i]),
            },
    )
}

/// The actions that take the jail of each service out of the file.
pub open spec fn jails_removed(services: Seq<Seq<char>>) -> Seq<ActionView> {
    Seq::new(
        services.len(),
        |i: int|
            ActionView::RemoveFromFile {
                path: FAIL2BAN_JAIL_LOCAL_PATH@,
                text: jail("\n\n"@, services[i]),
            },
    )
}

impl Fail2BanView {
    /// The actions that set the policy and add the jails of the services.
    /// Each setting rewrites the line that begins with its own name.
    pub open spec fn additions(add: Fail2BanView) -> Seq<ActionView> {
        jail_setting("ignoreip ="@, "ignoreip"@, add.ignoreip) + jail_setting(
            "bantime ="@,
            "bantime"@,
            in_decimal(add.bantime),
        ) + jail_setting("findtime ="@, "findtime"@, in_decimal(add.findtime)) + jail_setting(
            "maxretry ="@,
            "maxretry"@,
            in_decimal(add.maxretry),
        ) + jails_added(listed(add.services))
    }

    /// The actions that take the jails of services out of the file.
    pub open spec fn removals(remove: Fail2BanView) -> Seq<ActionView> {
        jails_removed(listed(remove.services))
    }
}

impl Add for Fail2BanDiff {
    open spec fn plan(&self, findings: Seq<FindingView>, context: ExecutionContext)
        -> ProbeView<Seq<ActionView>> {
        if Fail2BanView::managed(context) {
            ProbeView::Done(Fail2BanView::additions(self.diff.add@))
        } else {
            nothing_planned()
        }
    }

    fn add(&self, findings: &Vec<Finding>, context: ExecutionContext) -> (plan: Probe<
        Vec<Action>,
    >) {
        if !context.privileged {
            return unplanned();
        }
        let mut actions: Vec<Action> = Vec::new();
        assert(actions.deep_view() =~= Seq::empty());
        set_jail_setting(&mut actions, "ignoreip =", "ignoreip", &self.diff.add.ignoreip);
        set_jail_setting(&mut actions, "bantime =", "bantime", &to_decimal(&self.diff.add.bantime));
        set_jail_setting(
            &mut actions,
            "findtime =",
            "findtime",
            &to_decimal(&self.diff.add.findtime),
        );
        set_jail_setting(
            &mut actions,
            "maxretry =",
            "maxretry",
            &to_decimal(&self.diff.add.maxretry),
        );
        let ghost settings = actions.deep_view();
        match &self.diff.add.services {
            Some(services) => {
                let mut i: usize = 0;
                while i < services.len()
                    invariant
                        i <= services.len(),
                        actions.len() == settings.len() + i,
                        actions.deep_view().take(settings.len() as int) == settings,
                        forall|k: int|
                            0 <= k < i ==> actions@[settings.len() + k]@
                                == (ActionView::AppendToFile {
                                path: FAIL2BAN_JAIL_LOCAL_PATH@,
                                text: jail("\n"@, services@[k]@),
                            }),
                    decreases services.len() - i,
                {
                    let ghost before = actions.deep_view();
                    actions.push(
                        Action::AppendToFile {
                            path: String::from_str(FAIL2BAN_JAIL_LOCAL_PATH),
                            text: jail_text("\n", services[i].as_str()),
                        },
                    );
                    assert(actions.deep_view().take(settings.len() as int) =~= before.take(
                        settings.len() as int,
                    ));
                    i += 1;
                }
                assert(actions.deep_view() =~= settings + jails_added(services.deep_view()));
            },
            None => {
                assert(actions.deep_view() =~= settings + jails_added(Seq::empty()));
            },
        }
        assert(actions.deep_view() =~= Fail2BanView::additions(self.diff.add@));
        Probe::Done(actions)
    }
}

impl Remove for Fail2BanDiff {
    open spec fn removal(&self, context: ExecutionContext) -> Seq<ActionView> {
        if Fail2BanView::managed(context) {
            Fail2BanView::removals(self.diff.remove@)
        } else {
            no_actions()
        }
    }

    fn remove(&self, context: ExecutionContext) -> (actions: Vec<Action>) {
        if !context.privileged {
            let none: Vec<Action> = Vec::new();
            assert(none.deep_view() =~= no_actions());
            return none;
        }
        let mut actions: Vec<Action> = Vec::new();
        match &self.diff.remove.services {
            Some(services) => {
                let mut i: usize = 0;
                while i < services.len()
                    invariant
                        i <= services.len(),
                        actions.len() == i,
                        forall|k: int|
                            0 <= k < i ==> actions@[k]@ == (ActionView::RemoveFromFile {
                                path: FAIL2BAN_JAIL_LOCAL_PATH@,
                                text: jail("\n\n"@, services@[k]@),
                            }),
                    decreases services.len() - i,
                {
                    actions.push(
                        Action::RemoveFromFile {
                            path: String::from_str(FAIL2BAN_JAIL_LOCAL_PATH),
                            text: jail_text("\n\n", services[i].as_str()),
                        },
                    );
                    i += 1;
                }
                assert(actions.deep_view() =~= jails_removed(services.deep_view()));
            },
            None => {
                assert(actions.deep_view() =~= jails_removed(Seq::empty()));
            },
        }
        actions
    }
}

impl DownloadsView {
    /// The actions that download files, clone repositories and unpack
    /// archives, in this order.
    pub open spec fn additions(
        add: DownloadsView,
        findings: Seq<FindingView>,
        context: ExecutionContext,
    ) -> ProbeView<Seq<ActionView>> {
        followed_by(
            followed_by(
                creation_of::<CurlDownload>(add.curl, findings, context),
                creation_of::<GitDownload>(add.git, findings, context),
            ),
            creation_of::<Unzip>(add.unzip, findings, context),
        )
    }
}

impl Add for DownloadsDiff {
    open spec fn plan(&self, findings: Seq<FindingView>, context: ExecutionContext)
        -> ProbeView<Seq<ActionView>> {
        DownloadsView::additions(self.diff.add@, findings, context)
    }

    fn add(&self, findings: &Vec<Finding>, context: ExecutionContext) -> (plan: Probe<
        Vec<Action>,
    >) {
        chain(
            chain(
                create_entries(&self.diff.add.curl, findings, context),
                create_entries(&self.diff.add.git, findings, context),
            ),
            create_entries(&self.diff.add.unzip, findings, context),
        )
    }
}

/// The lines that bind workspaces to the monitor at `connection`.
pub open spec fn workspace_lines(workspaces: Seq<u8>, connection: Seq<char>) -> Seq<char>
    decreases workspaces.len(),
{
    if workspaces.len() == 0 {
        Seq::empty()
    } else {
        workspace_lines(workspaces.drop_last(), connection) + "workspace="@ + decimal(
            workspaces.last() as nat,
        ) + ", monitor:"@ + connection + "\n"@
    }
}

/// The lines that describe a monitor: the monitor itself, then its
/// workspaces.
pub open spec fn monitor_lines(monitor: MonitorStructView) -> Seq<char> {
    "monitor="@ + monitor.connection + ", "@ + monitor.resolution + "@"@ + monitor.refreshrate
        + ", "@ + monitor.position + ", "@ + monitor.scale + "\n"@ + workspace_lines(
        monitor.workspaces,
        monitor.connection,
    )
}

/// Writes the lines that describe a monitor.
pub fn monitor_text(monitor: &MonitorStruct) -> (text: String)
    ensures
        text@ == monitor_lines(monitor@),
{
    let mut text = combine("monitor=", monitor.connection.as_str());
    text.append(", ");
    text.append(monitor.resolution.as_str());
    text.append("@");
    text.append(monitor.refreshrate.as_str());
    text.append(", ");
    text.append(monitor.position.as_str());
    text.append(", ");
    text.append(monitor.scale.as_str());
    text.append("\n");
    let ghost head = text@;
    let mut i: usize = 0;
    assert(monitor.workspaces@.take(0) =~= Seq::empty());
    assert(text@ =~= head + Seq::<char>::empty());
    while i < monitor.workspaces.len()
        invariant
            i <= monitor.workspaces.len(),
            text@ == head + workspace_lines(
                monitor.workspaces@.take(i as int),
                monitor.connection@,
            ),
        decreases monitor.workspaces.len() - i,
    {
        let ghost next = monitor.workspaces@.take(i + 1);
        let ghost before = workspace_lines(monitor.workspaces@.take(i as int), monitor.connection@);
        proof {
            assert(next.drop_last() =~= monitor.workspaces@.take(i as int));
            assert(next.last() == monitor.workspaces@[i as int]);
        }
        let number = decimal_text(monitor.workspaces[i] as usize);
        text.append("workspace=");
        text.append(number.as_str());
        text.append(", monitor:");
        text.append(monitor.connection.as_str());
        text.append("\n");
        assert(text@ =~= head + (before + "workspace="@ + decimal(
            monitor.workspaces@[i as int] as nat,
        ) + ", monitor:"@ + monitor.connection@ + "\n"@));
        i += 1;
    }
    assert(monitor.workspaces@.take(monitor.workspaces.len() as int) =~= monitor.workspaces@);
    assert(monitor@.workspaces =~= monitor.workspaces@);
    text
}

/// The actions that put the lines of each monitor before what the file
/// holds.
pub open spec fn monitors_written(monitors: Seq<MonitorStructView>) -> Seq<ActionView> {
    Seq::new(
        monitors.len(),
        |i: int|
            ActionView::PrependToFile {
                path: HYPR_MONITOR_CONF_PATH@,
                text: monitor_lines(monitors[i]),
            },
    )
}

impl MonitorView {
    /// The actions that write the monitor layout. When the delta holds
    /// anything, the file is made anew and the lines of every desired
    /// monitor are put into it, each before those of the monitors listed
    /// earlier.
    pub open spec fn additions(config: MonitorView, add: MonitorView, remove: MonitorView) -> Seq<
        ActionView,
    > {
        if add.monitors is None && remove.monitors is None {
            Seq::empty()
        } else {
            match config.monitors {
                Some(monitors) => seq![ActionView::CreateFile { path: HYPR_MONITOR_CONF_PATH@ }]
                    + monitors_written(monitors),
                None => Seq::empty(),
            }
        }
    }
}

impl Add for MonitorDiff {
    open spec fn plan(&self, findings: Seq<FindingView>, context: ExecutionContext)
        -> ProbeView<Seq<ActionView>> {
        if MonitorView::managed(context) {
            ProbeView::Done(MonitorView::additions(self.config@, self.diff.add@, self.diff.remove@))
        } else {
            nothing_planned()
        }
    }

    fn add(&self, findings: &Vec<Finding>, context: ExecutionContext) -> (plan: Probe<
        Vec<Action>,
    >) {
        if context.privileged {
            return unplanned();
        }
        let mut actions: Vec<Action> = Vec::new();
        if self.diff.add.monitors.is_some() || self.diff.remove.monitors.is_some() {
            match &self.config.monitors {
                Some(monitors) => {
                    actions.push(
                        Action::CreateFile { path: String::from_str(HYPR_MONITOR_CONF_PATH) },
                    );
                    let mut i: usize = 0;
                    while i < monitors.len()
                        invariant
                            i <= monitors.len(),
                            actions.len() == i + 1,
                            actions@[0]@ == (ActionView::CreateFile {
                                path: HYPR_MONITOR_CONF_PATH@,
                            }),
                            forall|k: int|
                                0 <= k < i ==> actions@[k + 1]@ == (ActionView::PrependToFile {
                                    path: HYPR_MONITOR_CONF_PATH@,
                                    text: monitor_lines(monitors@[k]@),
                                }),
                        decreases monitors.len() - i,
                    {
                        actions.push(
                            Action::PrependToFile {
                                path: String::from_str(HYPR_MONITOR_CONF_PATH),
                                text: monitor_text(&monitors[i]),
                            },
                        );
                        i += 1;
                    }
                    assert(actions.deep_view() =~= seq![
                        ActionView::CreateFile { path: HYPR_MONITOR_CONF_PATH@ },
                    ] + monitors_written(monitors.deep_view()));
                },
                None => {},
            }
        }
        assert(actions.deep_view() =~= MonitorView::additions(
            self.config@,
            self.diff.add@,
            self.diff.remove@,
        ));
        Probe::Done(actions)
    }
}

impl FilesView {
    /// The actions that write the files.
    pub open spec fn additions(
        add: FilesView,
        findings: Seq<FindingView>,
        context: ExecutionContext,
    ) -> ProbeView<Seq<ActionView>> {
        creation_of::<TextToFile>(add.files, findings, context)
    }
}

impl Add for FilesDiff {
    open spec fn plan(&self, findings: Seq<FindingView>, context: ExecutionContext)
        -> ProbeView<Seq<ActionView>> {
        FilesView::additions(self.diff.add@, findings, context)
    }

    fn add(&self, findings: &Vec<Finding>, context: ExecutionContext) -> (plan: Probe<
        Vec<Action>,
    >) {
        create_entries(&self.diff.add.files, findings, context)
    }
}

} // verus!
