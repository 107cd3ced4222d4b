//! Probing: how the observed state of a domain is read off the live system.
//!
//! The system speaks in text: the content of configuration files and the
//! output of commands. Each domain says here which texts it needs and how it
//! reads its fields out of them. The texts themselves come in as findings.

use vstd::prelude::*;
use vstd::string::*;
use crate::data_types::{
    DirectoriesDiff, DownloadsDiff, Fail2BanDiff, FilesDiff, GrubDiff, KeyboardDiff, LanguageDiff,
    MkinitcpioDiff, MonitorDiff, PackagesDiff, PacmanDiff, ServicesDiff, ShellDiff, SystemDiff,
    TimeDiff, UfwDiff, UserDiff,
};
use crate::entry::{observe_entries, observed_entries};
use crate::function::{
    combine, FAIL2BAN_JAIL_LOCAL_PATH, GRUB_PATH, HOSTNAME_PATH, HYPR_MONITOR_CONF_PATH,
    LOCALE_CONF_PATH, LOCALE_GEN_PATH, MKINITCPIO_PATH, PACMAN_CONF_PATH,
};
use crate::get_diff::{difference, normalized, present, without};
use crate::helper::{read_in_variable, variable, ExecutionContext};
use crate::item::Item;
use crate::probe::{
    ended_as, failure, optional, optional_text, require_text, required_text, Fault, Finding,
    FindingView, Inquiry, Probe, ProbeError, ProbeView,
};
use crate::structure::{
    CreateDirs, CurlDownload, Directories, DirectoriesView, Downloads, DownloadsView, Fail2Ban,
    Fail2BanView, Files, FilesView, GitDownload, Grub, GrubView, Keyboard, KeyboardView, Language,
    LanguageView, Links, ManualInstallPackages, Mkinitcpio, MkinitcpioView, Monitor, MonitorStruct,
    MonitorStructView, MonitorView, Packages, PackagesView, Pacman, PacmanView, ReownDirs, Services,
    ServicesView, Shell, ShellView, System, SystemView, TextToFile, Time, TimeView, Ufw, UfwView,
    Unzip, User, UserView, Users, UsersView,
};
use crate::text::{
    contains, cut_once, equal, includes, inner, join, joined, line_list, lines, parse_number,
    parse_unsigned, pieces, split, split_once, strip_ends, trim, trimmed,
};

verus! {

/// Establishes the observed state of a snapshot triple from the findings
/// made so far. When they do not suffice, the next question is asked and the
/// triple is left as it was.
pub trait GetSystem: Sized {
    /// Whether probing `before` with the given findings ends with `r` and
    /// leaves `after`: when the findings suffice, the observed state is what
    /// they show, otherwise it has not changed; the desired state and the
    /// delta stay as they are.
    spec fn observes(
        before: Self,
        findings: Seq<FindingView>,
        context: ExecutionContext,
        after: Self,
        r: Probe<()>,
    ) -> bool;

    fn get_system(&mut self, findings: &Vec<Finding>, context: ExecutionContext) -> (r: Probe<()>)
        ensures
            Self::observes(*old(self), findings.deep_view(), context, *final(self), r),
    ;
}

/// The part at index `n` of the parts of `s` that single spaces separate.
pub open spec fn word(s: Seq<char>, n: int) -> Option<Seq<char>> {
    let words = split(s, " "@);
    if 0 <= n < words.len() {
        Some(words[n])
    } else {
        None
    }
}

/// Takes the part at index `n` of the parts of `s` that single spaces
/// separate.
pub fn word_at(s: &str, n: usize) -> (r: Option<String>)
    ensures
        r.deep_view() == word(s@, n as int),
{
    let words = pieces(s, " ");
    if n < words.len() {
        assert(words.deep_view()[n as int] == words@[n as int]@);
        Some(words[n].clone())
    } else {
        None
    }
}

/// The first of the parts of `line` that single spaces separate.
pub open spec fn first_word(line: Seq<char>) -> Seq<char> {
    split(line, " "@)[0]
}

/// Takes the first of the parts of `line` that single spaces separate.
pub fn first_word_of(line: &str) -> (r: String)
    ensures
        r@ == first_word(line@),
{
    let words = pieces(line, " ");
    assert(words.deep_view()[0] == words@[0]@);
    words[0].clone()
}

/// A list read off the system, as a field holds it: a list that is empty or
/// begins with an empty element is absent.
pub open spec fn reported(list: Seq<Seq<char>>) -> Option<Seq<Seq<char>>> {
    if list.len() > 0 && list[0].len() > 0 {
        Some(list)
    } else {
        None
    }
}

/// Turns a list read off the system into a field value.
pub fn report(list: Vec<String>) -> (field: Option<Vec<String>>)
    ensures
        field.deep_view() == reported(list.deep_view()),
{
    if list.len() > 0 {
        assert(list.deep_view()[0] == list@[0]@);
        if list[0].as_str().is_empty() {
            None
        } else {
            Some(list)
        }
    } else {
        None
    }
}

/// The elements of a list-valued variable of a configuration text: the
/// value between its opening and its closing character, cut at single
/// spaces. A variable that is not set has no elements.
pub open spec fn list_variable(content: Seq<char>, name: Seq<char>) -> Option<Seq<Seq<char>>> {
    let value = match variable(content, "="@, name) {
        Some(value) => value,
        None => "  "@,
    };
    reported(split(strip_ends(value), " "@))
}

/// Reads the elements of a list-valued variable out of a configuration
/// text.
pub fn read_list_variable(content: &str, name: &str) -> (list: Option<Vec<String>>)
    ensures
        list.deep_view() == list_variable(content@, name@),
{
    let value = match read_in_variable(content, "=", name) {
        Some(value) => value,
        None => String::from_str("  "),
    };
    let elements = inner(value.as_str());
    report(pieces(elements.as_str(), " "))
}

impl KeyboardView {
    /// The observed keyboard layout. The layout for the initial ramdisk is
    /// the variable `KEYMAP` of its configuration, which has to be
    /// readable; the layout of the console cannot be observed.
    pub open spec fn observed(findings: Seq<FindingView>) -> ProbeView<KeyboardView> {
        match required_text(findings, Inquiry::ReadFile, MKINITCPIO_PATH@, Fault::Unreadable) {
            ProbeView::Done(content) => ProbeView::Done(
                KeyboardView { keyboard_tty: None, mkinitcpio: variable(content, "="@, "KEYMAP"@) },
            ),
            ProbeView::Ask(question) => ProbeView::Ask(question),
            ProbeView::Failed(error) => ProbeView::Failed(error),
        }
    }
}

impl Keyboard {
    /// Reads the observed keyboard layout off the findings.
    pub fn observe(findings: &Vec<Finding>) -> (r: Probe<Keyboard>)
        ensures
            r.deep_view() == KeyboardView::observed(findings.deep_view()),
    {
        match require_text(findings, Inquiry::ReadFile, MKINITCPIO_PATH, Fault::Unreadable) {
            Probe::Done(content) => Probe::Done(
                Keyboard {
                    keyboard_tty: None,
                    mkinitcpio: read_in_variable(content.as_str(), "=", "KEYMAP"),
                },
            ),
            Probe::Ask(question) => Probe::Ask(question),
            Probe::Failed(error) => Probe::Failed(error),
        }
    }
}

impl GetSystem for KeyboardDiff {
    open spec fn observes(
        before: KeyboardDiff,
        findings: Seq<FindingView>,
        context: ExecutionContext,
        after: KeyboardDiff,
        r: Probe<()>,
    ) -> bool {
        &&& after.config == before.config
        &&& after.diff == before.diff
        &&& ended_as(r, KeyboardView::observed(findings))
        &&& match KeyboardView::observed(findings) {
            ProbeView::Done(system) => after.system@ == system,
            _ => after.system == before.system,
        }
    }

    fn get_system(&mut self, findings: &Vec<Finding>, context: ExecutionContext) -> (r: Probe<
        (),
    >) {
        match Keyboard::observe(findings) {
            Probe::Done(system) => {
                self.system = system;
                Probe::Done(())
            },
            Probe::Ask(question) => Probe::Ask(question),
            Probe::Failed(error) => Probe::Failed(error),
        }
    }
}

impl TimeView {
    /// The observed time settings: the time zone is the variable `Timezone`
    /// of what the time service shows.
    pub open spec fn observed(findings: Seq<FindingView>) -> ProbeView<TimeView> {
        match required_text(findings, Inquiry::Output, "timedatectl show"@, Fault::NotRun) {
            ProbeView::Done(output) => ProbeView::Done(
                TimeView { timezone: variable(output, "="@, "Timezone"@) },
            ),
            ProbeView::Ask(question) => ProbeView::Ask(question),
            ProbeView::Failed(error) => ProbeView::Failed(error),
        }
    }
}

impl Time {
    /// Reads the observed time settings off the findings.
    pub fn observe(findings: &Vec<Finding>) -> (r: Probe<Time>)
        ensures
            r.deep_view() == TimeView::observed(findings.deep_view()),
    {
        match require_text(findings, Inquiry::Output, "timedatectl show", Fault::NotRun) {
            Probe::Done(output) => Probe::Done(
                Time { timezone: read_in_variable(output.as_str(), "=", "Timezone") },
            ),
            Probe::Ask(question) => Probe::Ask(question),
            Probe::Failed(error) => Probe::Failed(error),
        }
    }
}

impl GetSystem for TimeDiff {
    open spec fn observes(
        before: TimeDiff,
        findings: Seq<FindingView>,
        context: ExecutionContext,
        after: TimeDiff,
        r: Probe<()>,
    ) -> bool {
        &&& after.config == before.config
        &&& after.diff == before.diff
        &&& ended_as(r, TimeView::observed(findings))
        &&& match TimeView::observed(findings) {
            ProbeView::Done(system) => after.system@ == system,
            _ => after.system == before.system,
        }
    }

    fn get_system(&mut self, findings: &Vec<Finding>, context: ExecutionContext) -> (r: Probe<
        (),
    >) {
        match Time::observe(findings) {
            Probe::Done(system) => {
                self.system = system;
                Probe::Done(())
            },
            Probe::Ask(question) => Probe::Ask(question),
            Probe::Failed(error) => Probe::Failed(error),
        }
    }
}

impl LanguageView {
    /// The observed language settings. The locale is the variable `LANG`
    /// of the locale configuration; the character set is the second word of
    /// the list of generated locales. Neither file has to be there, but
    /// without the list of generated locales nothing is observed at all.
    pub open spec fn observed(findings: Seq<FindingView>) -> ProbeView<LanguageView> {
        match optional_text(findings, Inquiry::ReadFile, LOCALE_CONF_PATH@) {
            ProbeView::Done(conf) => match optional_text(
                findings,
                Inquiry::ReadFile,
                LOCALE_GEN_PATH@,
            ) {
                ProbeView::Done(generated) => ProbeView::Done(
                    match generated {
                        Some(list) => LanguageView {
                            locale: match conf {
                                Some(content) => variable(content, "="@, "LANG"@),
                                None => None,
                            },
                            character: word(trim(list), 1),
                        },
                        None => LanguageView { locale: None, character: None },
                    },
                ),
                ProbeView::Ask(question) => ProbeView::Ask(question),
                ProbeView::Failed(error) => ProbeView::Failed(error),
            },
            ProbeView::Ask(question) => ProbeView::Ask(question),
            ProbeView::Failed(error) => ProbeView::Failed(error),
        }
    }
}

impl Language {
    /// Reads the observed language settings off the findings.
    pub fn observe(findings: &Vec<Finding>) -> (r: Probe<Language>)
        ensures
            r.deep_view() == LanguageView::observed(findings.deep_view()),
    {
        let conf = match optional(findings, Inquiry::ReadFile, LOCALE_CONF_PATH) {
            Probe::Done(conf) => conf,
            Probe::Ask(question) => {
                return Probe::Ask(question);
            },
            Probe::Failed(error) => {
                return Probe::Failed(error);
            },
        };
        match optional(findings, Inquiry::ReadFile, LOCALE_GEN_PATH) {
            Probe::Done(generated) => Probe::Done(
                match generated {
                    Some(list) => Language {
                        locale: match conf {
                            Some(content) => read_in_variable(content.as_str(), "=", "LANG"),
                            None => None,
                        },
                        character: word_at(trimmed(list.as_str()).as_str(), 1),
                    },
                    None => Language { locale: None, character: None },
                },
            ),
            Probe::Ask(question) => Probe::Ask(question),
            Probe::Failed(error) => Probe::Failed(error),
        }
    }
}

impl GetSystem for LanguageDiff {
    open spec fn observes(
        before: LanguageDiff,
        findings: Seq<FindingView>,
        context: ExecutionContext,
        after: LanguageDiff,
        r: Probe<()>,
    ) -> bool {
        &&& after.config == before.config
        &&& after.diff == before.diff
        &&& ended_as(r, LanguageView::observed(findings))
        &&& match LanguageView::observed(findings) {
            ProbeView::Done(system) => after.system@ == system,
            _ => after.system == before.system,
        }
    }

    fn get_system(&mut self, findings: &Vec<Finding>, context: ExecutionContext) -> (r: Probe<
        (),
    >) {
        match Language::observe(findings) {
            Probe::Done(system) => {
                self.system = system;
                Probe::Done(())
            },
            Probe::Ask(question) => Probe::Ask(question),
            Probe::Failed(error) => Probe::Failed(error),
        }
    }
}

impl SystemView {
    /// The observed identity of the machine: the host name is the content
    /// of its file without the white space around it, and absent when the
    /// file cannot be read.
    pub open spec fn observed(findings: Seq<FindingView>) -> ProbeView<SystemView> {
        match optional_text(findings, Inquiry::ReadFile, HOSTNAME_PATH@) {
            ProbeView::Done(content) => ProbeView::Done(
                SystemView {
                    hostname: match content {
                        Some(text) => Some(trim(text)),
                        None => None,
                    },
                },
            ),
            ProbeView::Ask(question) => ProbeView::Ask(question),
            ProbeView::Failed(error) => ProbeView::Failed(error),
        }
    }
}

impl System {
    /// Reads the observed identity of the machine off the findings.
    pub fn observe(findings: &Vec<Finding>) -> (r: Probe<System>)
        ensures
            r.deep_view() == SystemView::observed(findings.deep_view()),
    {
        match optional(findings, Inquiry::ReadFile, HOSTNAME_PATH) {
            Probe::Done(content) => Probe::Done(
                System {
                    hostname: match content {
                        Some(text) => Some(trimmed(text.as_str())),
                        None => None,
                    },
                },
            ),
            Probe::Ask(question) => Probe::Ask(question),
            Probe::Failed(error) => Probe::Failed(error),
        }
    }
}

impl GetSystem for SystemDiff {
    open spec fn observes(
        before: SystemDiff,
        findings: Seq<FindingView>,
        context: ExecutionContext,
        after: SystemDiff,
        r: Probe<()>,
    ) -> bool {
        &&& after.config == before.config
        &&& after.diff == before.diff
        &&& ended_as(r, SystemView::observed(findings))
        &&& match SystemView::observed(findings) {
            ProbeView::Done(system) => after.system@ == system,
            _ => after.system == before.system,
        }
    }

    fn get_system(&mut self, findings: &Vec<Finding>, context: ExecutionContext) -> (r: Probe<
        (),
    >) {
        match System::observe(findings) {
            Probe::Done(system) => {
                self.system = system;
                Probe::Done(())
            },
            Probe::Ask(question) => Probe::Ask(question),
            Probe::Failed(error) => Probe::Failed(error),
        }
    }
}

impl ShellView {
    /// The observed shell settings: the login shell is what the environment
    /// names, without the white space around it.
    pub open spec fn observed(findings: Seq<FindingView>) -> ProbeView<ShellView> {
        match required_text(findings, Inquiry::Output, "echo $SHELL"@, Fault::NotRun) {
            ProbeView::Done(output) => ProbeView::Done(
                ShellView { default_shell: Some(trim(output)) },
            ),
            ProbeView::Ask(question) => ProbeView::Ask(question),
            ProbeView::Failed(error) => ProbeView::Failed(error),
        }
    }
}

impl Shell {
    /// Reads the observed shell settings off the findings.
    pub fn observe(findings: &Vec<Finding>) -> (r: Probe<Shell>)
        ensures
            r.deep_view() == ShellView::observed(findings.deep_view()),
    {
        match require_text(findings, Inquiry::Output, "echo $SHELL", Fault::NotRun) {
            Probe::Done(output) => Probe::Done(
                Shell { default_shell: Some(trimmed(output.as_str())) },
            ),
            Probe::Ask(question) => Probe::Ask(question),
            Probe::Failed(error) => Probe::Failed(error),
        }
    }
}

impl GetSystem for ShellDiff {
    open spec fn observes(
        before: ShellDiff,
        findings: Seq<FindingView>,
        context: ExecutionContext,
        after: ShellDiff,
        r: Probe<()>,
    ) -> bool {
        &&& after.config == before.config
        &&& after.diff == before.diff
        &&& ended_as(r, ShellView::observed(findings))
        &&& match ShellView::observed(findings) {
            ProbeView::Done(system) => after.system@ == system,
            _ => after.system == before.system,
        }
    }

    fn get_system(&mut self, findings: &Vec<Finding>, context: ExecutionContext) -> (r: Probe<
        (),
    >) {
        match Shell::observe(findings) {
            Probe::Done(system) => {
                self.system = system;
                Probe::Done(())
            },
            Probe::Ask(question) => Probe::Ask(question),
            Probe::Failed(error) => Probe::Failed(error),
        }
    }
}

/// The name of the account that a line of the user database describes: what
/// stands before its first colon.
pub open spec fn account_name(line: Seq<char>) -> Seq<char> {
    split(line, ":"@)[0]
}

/// The groups that the output of `groups` lists for the user `name`,
/// without the group of the same name.
pub open spec fn other_groups(output: Seq<char>, name: Seq<char>) -> Seq<Seq<char>> {
    without(split(trim(output), " "@), seq![name])
}

/// The accounts that the lines of the user database describe, each with
/// the groups that the system lists for it.
pub open spec fn accounts(findings: Seq<FindingView>, listing: Seq<Seq<char>>) -> ProbeView<
    Seq<UserView>,
>
    decreases listing.len(),
{
    if listing.len() == 0 {
        ProbeView::Done(Seq::empty())
    } else {
        match accounts(findings, listing.drop_last()) {
            ProbeView::Done(before) => {
                let name = account_name(listing.last());
                match required_text(findings, Inquiry::Output, "groups "@ + name, Fault::NotRun) {
                    ProbeView::Done(output) => ProbeView::Done(
                        before.push(UserView { name, groups: other_groups(output, name) }),
                    ),
                    ProbeView::Ask(question) => ProbeView::Ask(question),
                    ProbeView::Failed(error) => ProbeView::Failed(error),
                }
            },
            ProbeView::Ask(question) => ProbeView::Ask(question),
            ProbeView::Failed(error) => ProbeView::Failed(error),
        }
    }
}

/// Once the groups of an account are missing, the accounts behind it do not
/// matter.
proof fn accounts_stop_at(findings: Seq<FindingView>, listing: Seq<Seq<char>>, n: int)
    requires
        0 <= n <= listing.len(),
        !(accounts(findings, listing.take(n)) is Done),
    ensures
        accounts(findings, listing) == accounts(findings, listing.take(n)),
    decreases listing.len(),
{
    if n == listing.len() {
        assert(listing.take(n) =~= listing);
    } else {
        assert(listing.drop_last().take(n) =~= listing.take(n));
        accounts_stop_at(findings, listing.drop_last(), n);
    }
}

/// Reads the accounts off the lines of the user database and the findings.
pub fn read_accounts(findings: &Vec<Finding>, listing: &Vec<String>) -> (r: Probe<Vec<User>>)
    ensures
        r.deep_view() == accounts(findings.deep_view(), listing.deep_view()),
{
    let mut users: Vec<User> = Vec::new();
    let mut i: usize = 0;
    assert(listing.deep_view().take(0) =~= Seq::empty());
    assert(users.deep_view() =~= Seq::empty());
    while i < listing.len()
        invariant
            i <= listing.len(),
            accounts(findings.deep_view(), listing.deep_view().take(i as int)) == ProbeView::Done(
                users.deep_view(),
            ),
        decreases listing.len() - i,
    {
        let ghost next = listing.deep_view().take(i + 1);
        let ghost before = users.deep_view();
        proof {
            assert(next.drop_last() =~= listing.deep_view().take(i as int));
            assert(next.last() == listing@[i as int]@);
        }
        let fields = pieces(listing[i].as_str(), ":");
        assert(fields.deep_view()[0] == fields@[0]@);
        let name = fields[0].clone();
        let command = combine("groups ", name.as_str());
        match require_text(findings, Inquiry::Output, command.as_str(), Fault::NotRun) {
            Probe::Done(output) => {
                let all = pieces(trimmed(output.as_str()).as_str(), " ");
                let mut own: Vec<String> = Vec::new();
                own.push(name.clone());
                assert(own.deep_view() =~= seq![name@]);
                let groups = difference(&all, &own);
                users.push(User { name, groups });
                assert(users.deep_view() =~= before.push(
                    UserView { name: name@, groups: other_groups(output@, name@) },
                ));
            },
            Probe::Ask(question) => {
                proof {
                    accounts_stop_at(findings.deep_view(), listing.deep_view(), i + 1);
                }
                return Probe::Ask(question);
            },
            Probe::Failed(error) => {
                proof {
                    accounts_stop_at(findings.deep_view(), listing.deep_view(), i + 1);
                }
                return Probe::Failed(error);
            },
        }
        i += 1;
    }
    assert(listing.deep_view().take(listing.len() as int) =~= listing.deep_view());
    Probe::Done(users)
}

/// The names of the given users.
pub open spec fn names_of(users: Seq<UserView>) -> Seq<Seq<char>> {
    Seq::new(users.len(), |i: int| users[i].name)
}

/// Copies out the names of the given users.
pub fn names(users: &Vec<User>) -> (list: Vec<String>)
    ensures
        list.deep_view() == names_of(users.deep_view()),
{
    let mut list: Vec<String> = Vec::new();
    let mut i: usize = 0;
    while i < users.len()
        invariant
            i <= users.len(),
            list.len() == i,
            forall|k: int| 0 <= k < i ==> list@[k]@ == users@[k]@.name,
        decreases users.len() - i,
    {
        list.push(users[i].name.clone());
        i += 1;
    }
    assert(list.deep_view() =~= names_of(users.deep_view()));
    list
}

impl UsersView {
    /// The observed user accounts: the accounts with an identifier from
    /// 1000 to 1401 that the user database knows, each with its groups.
    pub open spec fn observed(findings: Seq<FindingView>) -> ProbeView<UsersView> {
        match required_text(
            findings,
            Inquiry::Output,
            "getent passwd {1000..1401}"@,
            Fault::NotRun,
        ) {
            ProbeView::Done(output) => match accounts(findings, lines(output)) {
                ProbeView::Done(users) => ProbeView::Done(
                    UsersView { user_list: present(names_of(users)), user_groups: present(users) },
                ),
                ProbeView::Ask(question) => ProbeView::Ask(question),
                ProbeView::Failed(error) => ProbeView::Failed(error),
            },
            ProbeView::Ask(question) => ProbeView::Ask(question),
            ProbeView::Failed(error) => ProbeView::Failed(error),
        }
    }
}

impl Users {
    /// Reads the observed user accounts off the findings.
    pub fn observe(findings: &Vec<Finding>) -> (r: Probe<Users>)
        ensures
            r.deep_view() == UsersView::observed(findings.deep_view()),
    {
        match require_text(findings, Inquiry::Output, "getent passwd {1000..1401}", Fault::NotRun) {
            Probe::Done(output) => {
                let listing = line_list(output.as_str());
                match read_accounts(findings, &listing) {
                    Probe::Done(users) => {
                        let user_list = normalized(names(&users));
                        Probe::Done(Users { user_list, user_groups: normalized(users) })
                    },
                    Probe::Ask(question) => Probe::Ask(question),
                    Probe::Failed(error) => Probe::Failed(error),
                }
            },
            Probe::Ask(question) => Probe::Ask(question),
            Probe::Failed(error) => Probe::Failed(error),
        }
    }
}

impl GetSystem for UserDiff {
    open spec fn observes(
        before: UserDiff,
        findings: Seq<FindingView>,
        context: ExecutionContext,
        after: UserDiff,
        r: Probe<()>,
    ) -> bool {
        &&& after.config == before.config
        &&& after.diff == before.diff
        &&& ended_as(r, UsersView::observed(findings))
        &&& match UsersView::observed(findings) {
            ProbeView::Done(system) => after.system@ == system,
            _ => after.system == before.system,
        }
    }

    fn get_system(&mut self, findings: &Vec<Finding>, context: ExecutionContext) -> (r: Probe<
        (),
    >) {
        match Users::observe(findings) {
            Probe::Done(system) => {
                self.system = system;
                Probe::Done(())
            },
            Probe::Ask(question) => Probe::Ask(question),
            Probe::Failed(error) => Probe::Failed(error),
        }
    }
}

impl PacmanView {
    /// The observed configuration of the package manager: the number of
    /// parallel downloads is the variable `ParallelDownloads` of its
    /// configuration, which has to be readable. A value that is no number
    /// up to 255 is malformed.
    pub open spec fn observed(findings: Seq<FindingView>) -> ProbeView<PacmanView> {
        match required_text(findings, Inquiry::ReadFile, PACMAN_CONF_PATH@, Fault::Unreadable) {
            ProbeView::Done(content) => match variable(content, " = "@, "ParallelDownloads"@) {
                Some(value) => match parse_unsigned(value, 255) {
                    Some(parallel) => ProbeView::Done(
                        PacmanView { parallel: Some(parallel as u8) },
                    ),
                    None => ProbeView::Failed(failure(Fault::Malformed, value)),
                },
                None => ProbeView::Done(PacmanView { parallel: None }),
            },
            ProbeView::Ask(question) => ProbeView::Ask(question),
            ProbeView::Failed(error) => ProbeView::Failed(error),
        }
    }
}

impl Pacman {
    /// Reads the observed configuration of the package manager off the
    /// findings.
    pub fn observe(findings: &Vec<Finding>) -> (r: Probe<Pacman>)
        ensures
            r.deep_view() == PacmanView::observed(findings.deep_view()),
    {
        match require_text(findings, Inquiry::ReadFile, PACMAN_CONF_PATH, Fault::Unreadable) {
            Probe::Done(content) => match read_in_variable(
                content.as_str(),
                " = ",
                "ParallelDownloads",
            ) {
                Some(value) => match parse_number(value.as_str(), 255) {
                    Some(parallel) => Probe::Done(Pacman { parallel: Some(parallel as u8) }),
                    None => Probe::Failed(ProbeError { fault: Fault::Malformed, subject: value }),
                },
                None => Probe::Done(Pacman { parallel: None }),
            },
            Probe::Ask(question) => Probe::Ask(question),
            Probe::Failed(error) => Probe::Failed(error),
        }
    }
}

impl GetSystem for PacmanDiff {
    open spec fn observes(
        before: PacmanDiff,
        findings: Seq<FindingView>,
        context: ExecutionContext,
        after: PacmanDiff,
        r: Probe<()>,
    ) -> bool {
        &&& after.config == before.config
        &&& after.diff == before.diff
        &&& ended_as(r, PacmanView::observed(findings))
        &&& match PacmanView::observed(findings) {
            ProbeView::Done(system) => after.system@ == system,
            _ => after.system == before.system,
        }
    }

    fn get_system(&mut self, findings: &Vec<Finding>, context: ExecutionContext) -> (r: Probe<
        (),
    >) {
        match Pacman::observe(findings) {
            Probe::Done(system) => {
                self.system = system;
                Probe::Done(())
            },
            Probe::Ask(question) => Probe::Ask(question),
            Probe::Failed(error) => Probe::Failed(error),
        }
    }
}

/// The packages that a listing names: the first word of each line. Where
/// `barred` is given, the lines that hold it are left out.
pub open spec fn package_names(listing: Seq<Seq<char>>, barred: Option<Seq<char>>) -> Seq<
    Seq<char>,
>
    decreases listing.len(),
{
    if listing.len() == 0 {
        Seq::empty()
    } else {
        let before = package_names(listing.drop_last(), barred);
        let line = listing.last();
        if barred is Some && contains(line, barred->0) {
            before
        } else {
            before.push(first_word(line))
        }
    }
}

/// Collects the packages that a listing names.
pub fn collect_packages(listing: &Vec<String>, barred: Option<&str>) -> (packages: Vec<String>)
    ensures
        packages.deep_view() == package_names(
            listing.deep_view(),
            match barred {
                Some(text) => Some(text@),
                None => None,
            },
        ),
{
    let ghost skip: Option<Seq<char>> = match barred {
        Some(text) => Some(text@),
        None => None,
    };
    let mut packages: Vec<String> = Vec::new();
    let mut i: usize = 0;
    assert(listing.deep_view().take(0) =~= Seq::empty());
    assert(packages.deep_view() =~= Seq::empty());
    while i < listing.len()
        invariant
            i <= listing.len(),
            skip == match barred {
                Some(text) => Some(text@),
                None => None::<Seq<char>>,
            },
            packages.deep_view() == package_names(listing.deep_view().take(i as int), skip),
        decreases listing.len() - i,
    {
        let ghost next = listing.deep_view().take(i + 1);
        let ghost before = packages.deep_view();
        proof {
            assert(next.drop_last() =~= listing.deep_view().take(i as int));
            assert(next.last() == listing@[i as int]@);
        }
        let line = listing[i].as_str();
        let left_out = match barred {
            Some(text) => includes(line, text),
            None => false,
        };
        if !left_out {
            packages.push(first_word_of(line));
            assert(packages.deep_view() =~= before.push(first_word(listing@[i as int]@)));
        }
        i += 1;
    }
    assert(listing.deep_view().take(listing.len() as int) =~= listing.deep_view());
    packages
}

impl PackagesView {
    /// The observed packages. A privileged run lists the native packages
    /// that were installed on request, an unprivileged one the foreign
    /// ones, leaving out the helper that installs them; the other half is
    /// absent. Of the packages installed by hand, those are observed whose
    /// check succeeds.
    pub open spec fn observed(
        config: PackagesView,
        findings: Seq<FindingView>,
        context: ExecutionContext,
    ) -> ProbeView<PackagesView> {
        let command = if context.privileged {
            "pacman -Qen"@
        } else {
            "pacman -Qem"@
        };
        match required_text(findings, Inquiry::Output, command, Fault::NotRun) {
            ProbeView::Done(output) => match observed_entries::<ManualInstallPackages>(
                config.manual_install_packages,
                findings,
                context,
            ) {
                ProbeView::Done(manual_install_packages) => ProbeView::Done(
                    if context.privileged {
                        PackagesView {
                            pacman_packages: reported(package_names(lines(trim(output)), None)),
                            aur_packages: None,
                            manual_install_packages,
                        }
                    } else {
                        PackagesView {
                            pacman_packages: None,
                            aur_packages: reported(
                                package_names(lines(trim(output)), Some("paru"@)),
                            ),
                            manual_install_packages,
                        }
                    },
                ),
                ProbeView::Ask(question) => ProbeView::Ask(question),
                ProbeView::Failed(error) => ProbeView::Failed(error),
            },
            ProbeView::Ask(question) => ProbeView::Ask(question),
            ProbeView::Failed(error) => ProbeView::Failed(error),
        }
    }
}

impl Packages {
    /// Reads the observed packages off the findings.
    pub fn observe(config: &Packages, findings: &Vec<Finding>, context: ExecutionContext) -> (r:
        Probe<Packages>)
        ensures
            r.deep_view() == PackagesView::observed(config@, findings.deep_view(), context),
    {
        let command = if context.privileged {
            "pacman -Qen"
        } else {
            "pacman -Qem"
        };
        let output = match require_text(findings, Inquiry::Output, command, Fault::NotRun) {
            Probe::Done(output) => output,
            Probe::Ask(question) => {
                return Probe::Ask(question);
            },
            Probe::Failed(error) => {
                return Probe::Failed(error);
            },
        };
        match observe_entries(&config.manual_install_packages, findings, context) {
            Probe::Done(manual_install_packages) => {
                let listing = line_list(trimmed(output.as_str()).as_str());
                if context.privileged {
                    Probe::Done(
                        Packages {
                            pacman_packages: report(collect_packages(&listing, None)),
                            aur_packages: None,
                            manual_install_packages,
                        },
                    )
                } else {
                    Probe::Done(
                        Packages {
                            pacman_packages: None,
                            aur_packages: report(collect_packages(&listing, Some("paru"))),
                            manual_install_packages,
                        },
                    )
                }
            },
            Probe::Ask(question) => Probe::Ask(question),
            Probe::Failed(error) => Probe::Failed(error),
        }
    }
}

impl GetSystem for PackagesDiff {
    open spec fn observes(
        before: PackagesDiff,
        findings: Seq<FindingView>,
        context: ExecutionContext,
        after: PackagesDiff,
        r: Probe<()>,
    ) -> bool {
        &&& after.config == before.config
        &&& after.diff == before.diff
        &&& ended_as(r, PackagesView::observed(before.config@, findings, context))
        &&& match PackagesView::observed(before.config@, findings, context) {
            ProbeView::Done(system) => after.system@ == system,
            _ => after.system == before.system,
        }
    }

    fn get_system(&mut self, findings: &Vec<Finding>, context: ExecutionContext) -> (r: Probe<
        (),
    >) {
        match Packages::observe(&self.config, findings, context) {
            Probe::Done(system) => {
                self.system = system;
                Probe::Done(())
            },
            Probe::Ask(question) => Probe::Ask(question),
            Probe::Failed(error) => Probe::Failed(error),
        }
    }
}

/// The services that a listing of unit files shows in the given state: the
/// first word of each line that holds the state and names a service.
pub open spec fn services_in_state(listing: Seq<Seq<char>>, state: Seq<char>) -> Seq<Seq<char>>
    decreases listing.len(),
{
    if listing.len() == 0 {
        Seq::empty()
    } else {
        let before = services_in_state(listing.drop_last(), state);
        let line = listing.last();
        if contains(line, state) && contains(line, ".service"@) {
            before.push(first_word(line))
        } else {
            before
        }
    }
}

/// Collects the services that a listing of unit files shows in the given
/// state.
pub fn collect_services(listing: &Vec<String>, state: &str) -> (services: Vec<String>)
    ensures
        services.deep_view() == services_in_state(listing.deep_view(), state@),
{
    let mut services: Vec<String> = Vec::new();
    let mut i: usize = 0;
    assert(listing.deep_view().take(0) =~= Seq::empty());
    assert(services.deep_view() =~= Seq::empty());
    while i < listing.len()
        invariant
            i <= listing.len(),
            services.deep_view() == services_in_state(listing.deep_view().take(i as int), state@),
        decreases listing.len() - i,
    {
        let ghost next = listing.deep_view().take(i + 1);
        let ghost before = services.deep_view();
        proof {
            assert(next.drop_last() =~= listing.deep_view().take(i as int));
            assert(next.last() == listing@[i as int]@);
        }
        let line = listing[i].as_str();
        if includes(line, state) && includes(line, ".service") {
            services.push(first_word_of(line));
            assert(services.deep_view() =~= before.push(first_word(listing@[i as int]@)));
        }
        i += 1;
    }
    assert(listing.deep_view().take(listing.len() as int) =~= listing.deep_view());
    services
}

impl ServicesView {
    /// The observed services. A privileged run lists the enabled unit files
    /// of the system, an unprivileged one those of the user session; the
    /// other half is absent.
    pub open spec fn observed(findings: Seq<FindingView>, context: ExecutionContext) -> ProbeView<
        ServicesView,
    > {
        if context.privileged {
            match required_text(
                findings,
                Inquiry::Output,
                "systemctl list-unit-files --state=enabled"@,
                Fault::NotRun,
            ) {
                ProbeView::Done(output) => ProbeView::Done(
                    ServicesView {
                        user_services: None,
                        services: present(services_in_state(lines(output), "enabled disabled"@)),
                    },
                ),
                ProbeView::Ask(question) => ProbeView::Ask(question),
                ProbeView::Failed(error) => ProbeView::Failed(error),
            }
        } else {
            match required_text(
                findings,
                Inquiry::Output,
                "systemctl --user list-unit-files --state=enabled"@,
                Fault::NotRun,
            ) {
                ProbeView::Done(output) => ProbeView::Done(
                    ServicesView {
                        user_services: present(services_in_state(lines(output), "enabled"@)),
                        services: None,
                    },
                ),
                ProbeView::Ask(question) => ProbeView::Ask(question),
                ProbeView::Failed(error) => ProbeView::Failed(error),
            }
        }
    }
}

impl Services {
    /// Reads the observed services off the findings.
    pub fn observe(findings: &Vec<Finding>, context: ExecutionContext) -> (r: Probe<Services>)
        ensures
            r.deep_view() == ServicesView::observed(findings.deep_view(), context),
    {
        if context.privileged {
            match require_text(
                findings,
                Inquiry::Output,
                "systemctl list-unit-files --state=enabled",
                Fault::NotRun,
            ) {
                Probe::Done(output) => {
                    let listing = line_list(output.as_str());
                    Probe::Done(
                        Services {
                            user_services: None,
                            services: normalized(collect_services(&listing, "enabled disabled")),
                        },
                    )
                },
                Probe::Ask(question) => Probe::Ask(question),
                Probe::Failed(error) => Probe::Failed(error),
            }
        } else {
            match require_text(
                findings,
                Inquiry::Output,
                "systemctl --user list-unit-files --state=enabled",
                Fault::NotRun,
            ) {
                Probe::Done(output) => {
                    let listing = line_list(output.as_str());
                    Probe::Done(
                        Services {
                            user_services: normalized(collect_services(&listing, "enabled")),
                            services: None,
                        },
                    )
                },
                Probe::Ask(question) => Probe::Ask(question),
                Probe::Failed(error) => Probe::Failed(error),
            }
        }
    }
}

impl GetSystem for ServicesDiff {
    open spec fn observes(
        before: ServicesDiff,
        findings: Seq<FindingView>,
        context: ExecutionContext,
        after: ServicesDiff,
        r: Probe<()>,
    ) -> bool {
        &&& after.config == before.config
        &&& after.diff == before.diff
        &&& ended_as(r, ServicesView::observed(findings, context))
        &&& match ServicesView::observed(findings, context) {
            ProbeView::Done(system) => after.system@ == system,
            _ => after.system == before.system,
        }
    }

    fn get_system(&mut self, findings: &Vec<Finding>, context: ExecutionContext) -> (r: Probe<
        (),
    >) {
        match Services::observe(findings, context) {
            Probe::Done(system) => {
                self.system = system;
                Probe::Done(())
            },
            Probe::Ask(question) => Probe::Ask(question),
            Probe::Failed(error) => Probe::Failed(error),
        }
    }
}

impl DirectoriesView {
    /// The observed directories and links: of each desired list, the
    /// entries that are found. The groups of directories are observed by a
    /// privileged run only.
    pub open spec fn observed(
        config: DirectoriesView,
        findings: Seq<FindingView>,
        context: ExecutionContext,
    ) -> ProbeView<DirectoriesView> {
        match observed_entries::<ReownDirs>(
            if context.privileged {
                config.reown_dirs
            } else {
                None
            },
            findings,
            context,
        ) {
            ProbeView::Done(reown_dirs) => match observed_entries::<CreateDirs>(
                config.create_dirs,
                findings,
                context,
            ) {
                ProbeView::Done(create_dirs) => match observed_entries::<Links>(
                    config.links,
                    findings,
                    context,
                ) {
                    ProbeView::Done(links) => ProbeView::Done(
                        DirectoriesView { reown_dirs, links, create_dirs },
                    ),
                    ProbeView::Ask(question) => ProbeView::Ask(question),
                    ProbeView::Failed(error) => ProbeView::Failed(error),
                },
                ProbeView::Ask(question) => ProbeView::Ask(question),
                ProbeView::Failed(error) => ProbeView::Failed(error),
            },
            ProbeView::Ask(question) => ProbeView::Ask(question),
            ProbeView::Failed(error) => ProbeView::Failed(error),
        }
    }
}

impl Directories {
    /// Reads the observed directories and links off the findings.
    pub fn observe(config: &Directories, findings: &Vec<Finding>, context: ExecutionContext) -> (r:
        Probe<Directories>)
        ensures
            r.deep_view() == DirectoriesView::observed(config@, findings.deep_view(), context),
    {
        let none: Option<Vec<ReownDirs>> = None;
        let managed = if context.privileged {
            &config.reown_dirs
        } else {
            &none
        };
        let reown_dirs = match observe_entries(managed, findings, context) {
            Probe::Done(there) => there,
            Probe::Ask(question) => {
                return Probe::Ask(question);
            },
            Probe::Failed(error) => {
                return Probe::Failed(error);
            },
        };
        let create_dirs = match observe_entries(&config.create_dirs, findings, context) {
            Probe::Done(there) => there,
            Probe::Ask(question) => {
                return Probe::Ask(question);
            },
            Probe::Failed(error) => {
                return Probe::Failed(error);
            },
        };
        match observe_entries(&config.links, findings, context) {
            Probe::Done(links) => Probe::Done(Directories { reown_dirs, links, create_dirs }),
            Probe::Ask(question) => Probe::Ask(question),
            Probe::Failed(error) => Probe::Failed(error),
        }
    }
}

impl GetSystem for DirectoriesDiff {
    open spec fn observes(
        before: DirectoriesDiff,
        findings: Seq<FindingView>,
        context: ExecutionContext,
        after: DirectoriesDiff,
        r: Probe<()>,
    ) -> bool {
        &&& after.config == before.config
        &&& after.diff == before.diff
        &&& ended_as(r, DirectoriesView::observed(before.config@, findings, context))
        &&& match DirectoriesView::observed(before.config@, findings, context) {
            ProbeView::Done(system) => after.system@ == system,
            _ => after.system == before.system,
        }
    }

    fn get_system(&mut self, findings: &Vec<Finding>, context: ExecutionContext) -> (r: Probe<
        (),
    >) {
        match Directories::observe(&self.config, findings, context) {
            Probe::Done(system) => {
                self.system = system;
                Probe::Done(())
            },
            Probe::Ask(question) => Probe::Ask(question),
            Probe::Failed(error) => Probe::Failed(error),
        }
    }
}

impl GrubView {
    /// The observed configuration of the boot loader: the kernel parameters
    /// are the elements of the variable `GRUB_CMDLINE_LINUX_DEFAULT` of its
    /// defaults, which have to be readable.
    pub open spec fn observed(findings: Seq<FindingView>) -> ProbeView<GrubView> {
        match required_text(findings, Inquiry::ReadFile, GRUB_PATH@, Fault::Unreadable) {
            ProbeView::Done(content) => ProbeView::Done(
                GrubView {
                    grub_cmdline_linux_default: list_variable(
                        content,
                        "GRUB_CMDLINE_LINUX_DEFAULT"@,
                    ),
                },
            ),
            ProbeView::Ask(question) => ProbeView::Ask(question),
            ProbeView::Failed(error) => ProbeView::Failed(error),
        }
    }
}

impl Grub {
    /// Reads the observed configuration of the boot loader off the
    /// findings.
    pub fn observe(findings: &Vec<Finding>) -> (r: Probe<Grub>)
        ensures
            r.deep_view() == GrubView::observed(findings.deep_view()),
    {
        match require_text(findings, Inquiry::ReadFile, GRUB_PATH, Fault::Unreadable) {
            Probe::Done(content) => Probe::Done(
                Grub {
                    grub_cmdline_linux_default: read_list_variable(
                        content.as_str(),
                        "GRUB_CMDLINE_LINUX_DEFAULT",
                    ),
                },
            ),
            Probe::Ask(question) => Probe::Ask(question),
            Probe::Failed(error) => Probe::Failed(error),
        }
    }
}

impl GetSystem for GrubDiff {
    open spec fn observes(
        before: GrubDiff,
        findings: Seq<FindingView>,
        context: ExecutionContext,
        after: GrubDiff,
        r: Probe<()>,
    ) -> bool {
        &&& after.config == before.config
        &&& after.diff == before.diff
        &&& ended_as(r, GrubView::observed(findings))
        &&& match GrubView::observed(findings) {
            ProbeView::Done(system) => after.system@ == system,
            _ => after.system == before.system,
        }
    }

    fn get_system(&mut self, findings: &Vec<Finding>, context: ExecutionContext) -> (r: Probe<
        (),
    >) {
        match Grub::observe(findings) {
            Probe::Done(system) => {
                self.system = system;
                Probe::Done(())
            },
            Probe::Ask(question) => Probe::Ask(question),
            Probe::Failed(error) => Probe::Failed(error),
        }
    }
}

impl MkinitcpioView {
    /// The observed configuration of the initial ramdisk: the elements of
    /// the variables `MODULES` and `HOOKS` of its configuration, which has
    /// to be readable.
    pub open spec fn observed(findings: Seq<FindingView>) -> ProbeView<MkinitcpioView> {
        match required_text(findings, Inquiry::ReadFile, MKINITCPIO_PATH@, Fault::Unreadable) {
            ProbeView::Done(content) => ProbeView::Done(
                MkinitcpioView {
                    modules: list_variable(content, "MODULES"@),
                    hooks: list_variable(content, "HOOKS"@),
                },
            ),
            ProbeView::Ask(question) => ProbeView::Ask(question),
            ProbeView::Failed(error) => ProbeView::Failed(error),
        }
    }
}

impl Mkinitcpio {
    /// Reads the observed configuration of the initial ramdisk off the
    /// findings.
    pub fn observe(findings: &Vec<Finding>) -> (r: Probe<Mkinitcpio>)
        ensures
            r.deep_view() == MkinitcpioView::observed(findings.deep_view()),
    {
        match require_text(findings, Inquiry::ReadFile, MKINITCPIO_PATH, Fault::Unreadable) {
            Probe::Done(content) => Probe::Done(
                Mkinitcpio {
                    modules: read_list_variable(content.as_str(), "MODULES"),
                    hooks: read_list_variable(content.as_str(), "HOOKS"),
                },
            ),
            Probe::Ask(question) => Probe::Ask(question),
            Probe::Failed(error) => Probe::Failed(error),
        }
    }
}

impl GetSystem for MkinitcpioDiff {
    open spec fn observes(
        before: MkinitcpioDiff,
        findings: Seq<FindingView>,
        context: ExecutionContext,
        after: MkinitcpioDiff,
        r: Probe<()>,
    ) -> bool {
        &&& after.config == before.config
        &&& after.diff == before.diff
        &&& ended_as(r, MkinitcpioView::observed(findings))
        &&& match MkinitcpioView::observed(findings) {
            ProbeView::Done(system) => after.system@ == system,
            _ => after.system == before.system,
        }
    }

    fn get_system(&mut self, findings: &Vec<Finding>, context: ExecutionContext) -> (r: Probe<
        (),
    >) {
        match Mkinitcpio::observe(findings) {
            Probe::Done(system) => {
                self.system = system;
                Probe::Done(())
            },
            Probe::Ask(question) => Probe::Ask(question),
            Probe::Failed(error) => Probe::Failed(error),
        }
    }
}

/// The default policy for one direction, read off the line of defaults that
/// the firewall shows: the word before the mark of the direction.
pub open spec fn policy(defaults: Seq<char>, direction: Seq<char>) -> Option<Seq<char>> {
    match split_once(defaults, direction) {
        Some(halves) => {
            let word = split(trim(halves.0), " "@).last();
            if word.len() > 0 {
                Some(word)
            } else {
                None
            }
        },
        None => None,
    }
}

/// Reads the default policy for one direction off the line of defaults.
pub fn read_policy(defaults: &str, direction: &str) -> (r: Option<String>)
    ensures
        r.deep_view() == policy(defaults@, direction@),
{
    match cut_once(defaults, direction) {
        Some(halves) => {
            let words = pieces(trimmed(halves.0.as_str()).as_str(), " ");
            let word = &words[words.len() - 1];
            assert(words.deep_view().last() == word@);
            if word.as_str().is_empty() {
                None
            } else {
                Some(word.clone())
            }
        },
        None => None,
    }
}

/// What the rule lines of the firewall allow: the first word of each line
/// that holds a space and does not concern the newer protocol.
pub open spec fn allowed(listing: Seq<Seq<char>>) -> Seq<Seq<char>>
    decreases listing.len(),
{
    if listing.len() == 0 {
        Seq::empty()
    } else {
        let before = allowed(listing.drop_last());
        let line = listing.last();
        if contains(line, "(v6)"@) {
            before
        } else {
            match split_once(line, " "@) {
                Some(halves) => before.push(halves.0),
                None => before,
            }
        }
    }
}

/// Collects what the rule lines of the firewall allow.
pub fn collect_allowed(listing: &Vec<String>) -> (rules: Vec<String>)
    ensures
        rules.deep_view() == allowed(listing.deep_view()),
{
    let mut rules: Vec<String> = Vec::new();
    let mut i: usize = 0;
    assert(listing.deep_view().take(0) =~= Seq::empty());
    assert(rules.deep_view() =~= Seq::empty());
    while i < listing.len()
        invariant
            i <= listing.len(),
            rules.deep_view() == allowed(listing.deep_view().take(i as int)),
        decreases listing.len() - i,
    {
        let ghost next = listing.deep_view().take(i + 1);
        let ghost before = rules.deep_view();
        proof {
            assert(next.drop_last() =~= listing.deep_view().take(i as int));
            assert(next.last() == listing@[i as int]@);
        }
        let line = listing[i].as_str();
        if !includes(line, "(v6)") {
            match cut_once(line, " ") {
                Some(halves) => {
                    let ghost name = halves.0@;
                    rules.push(halves.0);
                    assert(rules.deep_view() =~= before.push(name));
                },
                None => {},
            }
        }
        i += 1;
    }
    assert(listing.deep_view().take(listing.len() as int) =~= listing.deep_view());
    rules
}

/// The rule lines in what the firewall shows: what follows its first seven
/// lines, read as lines once more.
pub open spec fn rule_lines(output: Seq<char>) -> Seq<Seq<char>> {
    lines(join(lines(output).skip(7), "\n"@))
}

/// Copies the elements of `list` from index `from` on.
fn from_index(list: &Vec<String>, from: usize) -> (rest: Vec<String>)
    requires
        from <= list.len(),
    ensures
        rest.deep_view() == list.deep_view().skip(from as int),
{
    let mut rest: Vec<String> = Vec::new();
    let mut i: usize = from;
    while i < list.len()
        invariant
            from <= i <= list.len(),
            rest.len() == i - from,
            forall|k: int| 0 <= k < i - from ==> rest@[k]@ == list@[from + k]@,
        decreases list.len() - i,
    {
        rest.push(list[i].clone());
        i += 1;
    }
    assert(rest.deep_view() =~= list.deep_view().skip(from as int));
    rest
}

impl UfwView {
    /// The observed firewall, read off what it shows of its state: the
    /// default policies stand in the line `Default`, the rules behind the
    /// first seven lines.
    pub open spec fn observed(findings: Seq<FindingView>) -> ProbeView<UfwView> {
        match required_text(findings, Inquiry::Output, "sudo ufw status verbose"@, Fault::NotRun) {
            ProbeView::Done(output) => {
                let defaults = match variable(output, ":"@, "Default"@) {
                    Some(value) => value,
                    None => Seq::empty(),
                };
                ProbeView::Done(
                    UfwView {
                        incoming: policy(defaults, "(incoming)"@),
                        outgoing: policy(defaults, "(outgoing)"@),
                        rules: if lines(output).len() > 7 {
                            present(allowed(rule_lines(output)))
                        } else {
                            None
                        },
                    },
                )
            },
            ProbeView::Ask(question) => ProbeView::Ask(question),
            ProbeView::Failed(error) => ProbeView::Failed(error),
        }
    }
}

impl Ufw {
    /// Reads the observed firewall off the findings.
    pub fn observe(findings: &Vec<Finding>) -> (r: Probe<Ufw>)
        ensures
            r.deep_view() == UfwView::observed(findings.deep_view()),
    {
        match require_text(findings, Inquiry::Output, "sudo ufw status verbose", Fault::NotRun) {
            Probe::Done(output) => {
                let defaults = match read_in_variable(output.as_str(), ":", "Default") {
                    Some(value) => value,
                    None => {
                        let none = String::new();
                        assert(none@ =~= Seq::<char>::empty());
                        none
                    },
                };
                let all = line_list(output.as_str());
                let rules = if all.len() > 7 {
                    let rest = from_index(&all, 7);
                    let listing = line_list(joined(&rest, "\n").as_str());
                    normalized(collect_allowed(&listing))
                } else {
                    None
                };
                Probe::Done(
                    Ufw {
                        incoming: read_policy(defaults.as_str(), "(incoming)"),
                        outgoing: read_policy(defaults.as_str(), "(outgoing)"),
                        rules,
                    },
                )
            },
            Probe::Ask(question) => Probe::Ask(question),
            Probe::Failed(error) => Probe::Failed(error),
        }
    }
}

impl GetSystem for UfwDiff {
    open spec fn observes(
        before: UfwDiff,
        findings: Seq<FindingView>,
        context: ExecutionContext,
        after: UfwDiff,
        r: Probe<()>,
    ) -> bool {
        &&& after.config == before.config
        &&& after.diff == before.diff
        &&& ended_as(r, UfwView::observed(findings))
        &&& match UfwView::observed(findings) {
            ProbeView::Done(system) => after.system@ == system,
            _ => after.system == before.system,
        }
    }

    fn get_system(&mut self, findings: &Vec<Finding>, context: ExecutionContext) -> (r: Probe<
        (),
    >) {
        match Ufw::observe(findings) {
            Probe::Done(system) => {
                self.system = system;
                Probe::Done(())
            },
            Probe::Ask(question) => Probe::Ask(question),
            Probe::Failed(error) => Probe::Failed(error),
        }
    }
}

/// A numeric setting of the intrusion prevention: the value of the variable
/// `name`, or zero where it is not set. A value that is no number is an
/// error.
pub open spec fn numeric_setting(content: Seq<char>, name: Seq<char>) -> Result<
    usize,
    Seq<char>,
> {
    match variable(content, " = "@, name) {
        Some(value) => match parse_unsigned(value, usize::MAX as nat) {
            Some(n) => Ok(n as usize),
            None => Err(value),
        },
        None => Ok(0),
    }
}

/// Reads a numeric setting of the intrusion prevention.
pub fn read_numeric_setting(content: &str, name: &str) -> (r: Result<usize, String>)
    ensures
        match numeric_setting(content@, name@) {
            Ok(n) => r == Ok::<usize, String>(n),
            Err(value) => r is Err && r->Err_0@ == value,
        },
{
    match read_in_variable(content, " = ", name) {
        Some(value) => match parse_number(value.as_str(), usize::MAX) {
            Some(n) => Ok(n),
            None => Err(value),
        },
        None => Ok(0),
    }
}

/// The services that have a jail: what stands between the first and the
/// last character of each line that holds both brackets, but for the
/// section of defaults.
pub open spec fn jailed(listing: Seq<Seq<char>>) -> Seq<Seq<char>>
    decreases listing.len(),
{
    if listing.len() == 0 {
        Seq::empty()
    } else {
        let before = jailed(listing.drop_last());
        let line = listing.last();
        if contains(line, "["@) && contains(line, "]"@) && !contains(line, "[DEFAULT]"@) {
            before.push(strip_ends(line))
        } else {
            before
        }
    }
}

/// Collects the services that have a jail.
pub fn collect_jailed(listing: &Vec<String>) -> (services: Vec<String>)
    ensures
        services.deep_view() == jailed(listing.deep_view()),
{
    let mut services: Vec<String> = Vec::new();
    let mut i: usize = 0;
    assert(listing.deep_view().take(0) =~= Seq::empty());
    assert(services.deep_view() =~= Seq::empty());
    while i < listing.len()
        invariant
            i <= listing.len(),
            services.deep_view() == jailed(listing.deep_view().take(i as int)),
        decreases listing.len() - i,
    {
        let ghost next = listing.deep_view().take(i + 1);
        let ghost before = services.deep_view();
        proof {
            assert(next.drop_last() =~= listing.deep_view().take(i as int));
            assert(next.last() == listing@[i as int]@);
        }
        let line = listing[i].as_str();
        if includes(line, "[") && includes(line, "]") && !includes(line, "[DEFAULT]") {
            services.push(inner(line));
            assert(services.deep_view() =~= before.push(strip_ends(listing@[i as int]@)));
        }
        i += 1;
    }
    assert(listing.deep_view().take(listing.len() as int) =~= listing.deep_view());
    services
}

impl Fail2BanView {
    /// The observed intrusion prevention policy, read off the local jails.
    /// Without that file nothing is observed. With it, every setting is
    /// observed: a text that is not set is empty, a number that is not set
    /// is zero.
    pub open spec fn observed(findings: Seq<FindingView>) -> ProbeView<Fail2BanView> {
        match optional_text(findings, Inquiry::ReadFile, FAIL2BAN_JAIL_LOCAL_PATH@) {
            ProbeView::Done(None) => ProbeView::Done(Fail2BanView::absent()),
            ProbeView::Done(Some(content)) => match numeric_setting(content, "bantime"@) {
                Ok(bantime) => match numeric_setting(content, "findtime"@) {
                    Ok(findtime) => match numeric_setting(content, "maxretry"@) {
                        Ok(maxretry) => ProbeView::Done(
                            Fail2BanView {
                                ignoreip: Some(
                                    match variable(content, " = "@, "ignoreip"@) {
                                        Some(value) => value,
                                        None => Seq::empty(),
                                    },
                                ),
                                bantime: Some(bantime),
                                findtime: Some(findtime),
                                maxretry: Some(maxretry),
                                services: present(jailed(lines(content))),
                            },
                        ),
                        Err(value) => ProbeView::Failed(failure(Fault::Malformed, value)),
                    },
                    Err(value) => ProbeView::Failed(failure(Fault::Malformed, value)),
                },
                Err(value) => ProbeView::Failed(failure(Fault::Malformed, value)),
            },
            ProbeView::Ask(question) => ProbeView::Ask(question),
            ProbeView::Failed(error) => ProbeView::Failed(error),
        }
    }
}

impl Fail2Ban {
    /// Reads the observed intrusion prevention policy off the findings.
    pub fn observe(findings: &Vec<Finding>) -> (r: Probe<Fail2Ban>)
        ensures
            r.deep_view() == Fail2BanView::observed(findings.deep_view()),
    {
        let content = match optional(findings, Inquiry::ReadFile, FAIL2BAN_JAIL_LOCAL_PATH) {
            Probe::Done(Some(content)) => content,
            Probe::Done(None) => {
                return Probe::Done(Fail2Ban::absent());
            },
            Probe::Ask(question) => {
                return Probe::Ask(question);
            },
            Probe::Failed(error) => {
                return Probe::Failed(error);
            },
        };
        let bantime = match read_numeric_setting(content.as_str(), "bantime") {
            Ok(n) => n,
            Err(value) => {
                return Probe::Failed(ProbeError { fault: Fault::Malformed, subject: value });
            },
        };
        let findtime = match read_numeric_setting(content.as_str(), "findtime") {
            Ok(n) => n,
            Err(value) => {
                return Probe::Failed(ProbeError { fault: Fault::Malformed, subject: value });
            },
        };
        let maxretry = match read_numeric_setting(content.as_str(), "maxretry") {
            Ok(n) => n,
            Err(value) => {
                return Probe::Failed(ProbeError { fault: Fault::Malformed, subject: value });
            },
        };
        let ignoreip = match read_in_variable(content.as_str(), " = ", "ignoreip") {
            Some(value) => value,
            None => {
                let none = String::new();
                assert(none@ =~= Seq::<char>::empty());
                none
            },
        };
        let listing = line_list(content.as_str());
        Probe::Done(
            Fail2Ban {
                ignoreip: Some(ignoreip),
                bantime: Some(bantime),
                findtime: Some(findtime),
                maxretry: Some(maxretry),
                services: normalized(collect_jailed(&listing)),
            },
        )
    }
}

impl GetSystem for Fail2BanDiff {
    open spec fn observes(
        before: Fail2BanDiff,
        findings: Seq<FindingView>,
        context: ExecutionContext,
        after: Fail2BanDiff,
        r: Probe<()>,
    ) -> bool {
        &&& after.config == before.config
        &&& after.diff == before.diff
        &&& ended_as(r, Fail2BanView::observed(findings))
        &&& match Fail2BanView::observed(findings) {
            ProbeView::Done(system) => after.system@ == system,
            _ => after.system == before.system,
        }
    }

    fn get_system(&mut self, findings: &Vec<Finding>, context: ExecutionContext) -> (r: Probe<
        (),
    >) {
        match Fail2Ban::observe(findings) {
            Probe::Done(system) => {
                self.system = system;
                Probe::Done(())
            },
            Probe::Ask(question) => Probe::Ask(question),
            Probe::Failed(error) => Probe::Failed(error),
        }
    }
}

impl DownloadsView {
    /// The observed downloads: of each desired list, the entries that are
    /// found.
    pub open spec fn observed(
        config: DownloadsView,
        findings: Seq<FindingView>,
        context: ExecutionContext,
    ) -> ProbeView<DownloadsView> {
        match observed_entries::<GitDownload>(config.git, findings, context) {
            ProbeView::Done(git) => match observed_entries::<CurlDownload>(
                config.curl,
                findings,
                context,
            ) {
                ProbeView::Done(curl) => match observed_entries::<Unzip>(
                    config.unzip,
                    findings,
                    context,
                ) {
                    ProbeView::Done(unzip) => ProbeView::Done(DownloadsView { git, curl, unzip }),
                    ProbeView::Ask(question) => ProbeView::Ask(question),
                    ProbeView::Failed(error) => ProbeView::Failed(error),
                },
                ProbeView::Ask(question) => ProbeView::Ask(question),
                ProbeView::Failed(error) => ProbeView::Failed(error),
            },
            ProbeView::Ask(question) => ProbeView::Ask(question),
            ProbeView::Failed(error) => ProbeView::Failed(error),
        }
    }
}

impl Downloads {
    /// Reads the observed downloads off the findings.
    pub fn observe(config: &Downloads, findings: &Vec<Finding>, context: ExecutionContext) -> (r:
        Probe<Downloads>)
        ensures
            r.deep_view() == DownloadsView::observed(config@, findings.deep_view(), context),
    {
        let git = match observe_entries(&config.git, findings, context) {
            Probe::Done(there) => there,
            Probe::Ask(question) => {
                return Probe::Ask(question);
            },
            Probe::Failed(error) => {
                return Probe::Failed(error);
            },
        };
        let curl = match observe_entries(&config.curl, findings, context) {
            Probe::Done(there) => there,
            Probe::Ask(question) => {
                return Probe::Ask(question);
            },
            Probe::Failed(error) => {
                return Probe::Failed(error);
            },
        };
        match observe_entries(&config.unzip, findings, context) {
            Probe::Done(unzip) => Probe::Done(Downloads { git, curl, unzip }),
            Probe::Ask(question) => Probe::Ask(question),
            Probe::Failed(error) => Probe::Failed(error),
        }
    }
}

impl GetSystem for DownloadsDiff {
    open spec fn observes(
        before: DownloadsDiff,
        findings: Seq<FindingView>,
        context: ExecutionContext,
        after: DownloadsDiff,
        r: Probe<()>,
    ) -> bool {
        &&& after.config == before.config
        &&& after.diff == before.diff
        &&& ended_as(r, DownloadsView::observed(before.config@, findings, context))
        &&& match DownloadsView::observed(before.config@, findings, context) {
            ProbeView::Done(system) => after.system@ == system,
            _ => after.system == before.system,
        }
    }

    fn get_system(&mut self, findings: &Vec<Finding>, context: ExecutionContext) -> (r: Probe<
        (),
    >) {
        match Downloads::observe(&self.config, findings, context) {
            Probe::Done(system) => {
                self.system = system;
                Probe::Done(())
            },
            Probe::Ask(question) => Probe::Ask(question),
            Probe::Failed(error) => Probe::Failed(error),
        }
    }
}

/// The part at index `n`, or the empty text where there is none.
pub open spec fn part(parts: Seq<Seq<char>>, n: int) -> Seq<char> {
    if 0 <= n < parts.len() {
        parts[n]
    } else {
        Seq::empty()
    }
}

/// Takes the part at index `n`, or the empty text where there is none.
fn part_at(parts: &Vec<String>, n: usize) -> (r: String)
    ensures
        r@ == part(parts.deep_view(), n as int),
{
    if n < parts.len() {
        assert(parts.deep_view()[n as int] == parts@[n as int]@);
        parts[n].clone()
    } else {
        let none = String::new();
        assert(none@ =~= Seq::<char>::empty());
        none
    }
}

/// The monitor that a description stands for. Its parts are separated by a
/// comma and a space: the connector, the resolution and the refresh rate
/// with an at sign between them, the position, and the scale, which is 1
/// where it is left out. No workspaces are bound to it yet.
pub open spec fn monitor_of(description: Seq<char>) -> MonitorStructView {
    let parts = split(description, ", "@);
    let mode = split_once(part(parts, 1), "@"@);
    MonitorStructView {
        connection: part(parts, 0),
        resolution: match mode {
            Some(halves) => if parts.len() > 1 {
                halves.0
            } else {
                Seq::empty()
            },
            None => Seq::empty(),
        },
        refreshrate: match mode {
            Some(halves) => if parts.len() > 1 {
                halves.1
            } else {
                Seq::empty()
            },
            None => Seq::empty(),
        },
        position: part(parts, 2),
        scale: if parts.len() > 3 {
            parts[3]
        } else {
            "1"@
        },
        workspaces: Seq::empty(),
    }
}

/// Reads a monitor off its description.
pub fn read_monitor(description: &str) -> (monitor: MonitorStruct)
    ensures
        monitor@ == monitor_of(description@),
{
    let parts = pieces(description, ", ");
    let second = part_at(&parts, 1);
    let (resolution, refreshrate) = match cut_once(second.as_str(), "@") {
        Some(halves) => {
            if parts.len() > 1 {
                halves
            } else {
                let a = String::new();
                let b = String::new();
                assert(a@ =~= Seq::<char>::empty());
                assert(b@ =~= Seq::<char>::empty());
                (a, b)
            }
        },
        None => {
            let a = String::new();
            let b = String::new();
            assert(a@ =~= Seq::<char>::empty());
            assert(b@ =~= Seq::<char>::empty());
            (a, b)
        },
    };
    let scale = if parts.len() > 3 {
        assert(parts.deep_view()[3] == parts@[3]@);
        parts[3].clone()
    } else {
        String::from_str("1")
    };
    let workspaces: Vec<u8> = Vec::new();
    assert(workspaces.deep_view() =~= Seq::empty());
    MonitorStruct {
        connection: part_at(&parts, 0),
        resolution,
        refreshrate,
        position: part_at(&parts, 2),
        scale,
        workspaces,
    }
}

/// The monitors after a workspace has been bound to `target`, which names a
/// monitor by `monitor:` and its connector.
pub open spec fn with_workspace(
    monitors: Seq<MonitorStructView>,
    workspace: u8,
    target: Seq<char>,
) -> Seq<MonitorStructView> {
    Seq::new(
        monitors.len(),
        |i: int|
            if "monitor:"@ + monitors[i].connection == target {
                MonitorStructView {
                    connection: monitors[i].connection,
                    resolution: monitors[i].resolution,
                    refreshrate: monitors[i].refreshrate,
                    position: monitors[i].position,
                    scale: monitors[i].scale,
                    workspaces: monitors[i].workspaces.push(workspace),
                }
            } else {
                monitors[i]
            },
    )
}

/// Binds a workspace to the monitor that `target` names.
pub fn bind_workspace(monitors: &Vec<MonitorStruct>, workspace: u8, target: &str) -> (bound: Vec<
    MonitorStruct,
>)
    ensures
        bound.deep_view() == with_workspace(monitors.deep_view(), workspace, target@),
{
    let mut bound: Vec<MonitorStruct> = Vec::new();
    let mut i: usize = 0;
    while i < monitors.len()
        invariant
            i <= monitors.len(),
            bound.len() == i,
            forall|k: int|
                0 <= k < i ==> bound@[k]@ == with_workspace(
                    monitors.deep_view(),
                    workspace,
                    target@,
                )[k],
        decreases monitors.len() - i,
    {
        let monitor = &monitors[i];
        assert(monitors.deep_view()[i as int] == monitor@);
        let name = combine("monitor:", monitor.connection.as_str());
        let mut workspaces = monitor.workspaces.duplicate();
        if equal(name.as_str(), target) {
            let ghost before = workspaces@;
            workspaces.push(workspace);
            assert(workspaces.deep_view() =~= monitor@.workspaces.push(workspace));
        }
        bound.push(
            MonitorStruct {
                connection: monitor.connection.clone(),
                resolution: monitor.resolution.clone(),
                refreshrate: monitor.refreshrate.clone(),
                position: monitor.position.clone(),
                scale: monitor.scale.clone(),
                workspaces,
            },
        );
        i += 1;
    }
    assert(bound.deep_view() =~= with_workspace(monitors.deep_view(), workspace, target@));
    bound
}

/// The monitors after one more line of the layout. A line that holds
/// `monitor=` describes a monitor behind its first equals sign. A line that
/// holds `workspace=` binds a workspace: behind its first equals sign stand
/// the number of the workspace, a comma and a space, and the monitor. A
/// number that is none up to 255 is an error. Other lines change nothing.
pub open spec fn after_line(monitors: Seq<MonitorStructView>, line: Seq<char>) -> Result<
    Seq<MonitorStructView>,
    Seq<char>,
> {
    if contains(line, "monitor="@) {
        match split_once(line, "="@) {
            Some(halves) => Ok(monitors.push(monitor_of(halves.1))),
            None => Ok(monitors),
        }
    } else if contains(line, "workspace="@) {
        match split_once(line, "="@) {
            Some(halves) => match split_once(halves.1, ", "@) {
                Some(binding) => match parse_unsigned(binding.0, 255) {
                    Some(workspace) => Ok(
                        with_workspace(monitors, workspace as u8, trim(binding.1)),
                    ),
                    None => Err(binding.0),
                },
                None => Ok(monitors),
            },
            None => Ok(monitors),
        }
    } else {
        Ok(monitors)
    }
}

/// Reads one more line of the layout.
pub fn read_line(monitors: Vec<MonitorStruct>, line: &str) -> (r: Result<
    Vec<MonitorStruct>,
    String,
>)
    ensures
        match after_line(monitors.deep_view(), line@) {
            Ok(after) => r is Ok && r->Ok_0.deep_view() == after,
            Err(number) => r is Err && r->Err_0@ == number,
        },
{
    let mut monitors = monitors;
    let ghost before = monitors.deep_view();
    if includes(line, "monitor=") {
        match cut_once(line, "=") {
            Some(halves) => {
                monitors.push(read_monitor(halves.1.as_str()));
                assert(monitors.deep_view() =~= before.push(monitor_of(halves.1@)));
                Ok(monitors)
            },
            None => Ok(monitors),
        }
    } else if includes(line, "workspace=") {
        match cut_once(line, "=") {
            Some(halves) => match cut_once(halves.1.as_str(), ", ") {
                Some(binding) => match parse_number(binding.0.as_str(), 255) {
                    Some(workspace) => {
                        let target = trimmed(binding.1.as_str());
                        Ok(bind_workspace(&monitors, workspace as u8, target.as_str()))
                    },
                    None => Err(binding.0),
                },
                None => Ok(monitors),
            },
            None => Ok(monitors),
        }
    } else {
        Ok(monitors)
    }
}

/// The monitors that the lines of a layout describe.
pub open spec fn layout(listing: Seq<Seq<char>>) -> Result<Seq<MonitorStructView>, Seq<char>>
    decreases listing.len(),
{
    if listing.len() == 0 {
        Ok(Seq::empty())
    } else {
        match layout(listing.drop_last()) {
            Ok(before) => after_line(before, listing.last()),
            Err(number) => Err(number),
        }
    }
}

/// Once a line is malformed, the lines behind it do not matter.
proof fn layout_stops_at(listing: Seq<Seq<char>>, n: int)
    requires
        0 <= n <= listing.len(),
        layout(listing.take(n)) is Err,
    ensures
        layout(listing) == layout(listing.take(n)),
    decreases listing.len(),
{
    if n == listing.len() {
        assert(listing.take(n) =~= listing);
    } else {
        assert(listing.drop_last().take(n) =~= listing.take(n));
        layout_stops_at(listing.drop_last(), n);
    }
}

/// Reads the monitors off the lines of a layout.
pub fn read_layout(listing: &Vec<String>) -> (r: Result<Vec<MonitorStruct>, String>)
    ensures
        match layout(listing.deep_view()) {
            Ok(monitors) => r is Ok && r->Ok_0.deep_view() == monitors,
            Err(number) => r is Err && r->Err_0@ == number,
        },
{
    let mut monitors: Vec<MonitorStruct> = Vec::new();
    let mut i: usize = 0;
    assert(listing.deep_view().take(0) =~= Seq::empty());
    assert(monitors.deep_view() =~= Seq::empty());
    while i < listing.len()
        invariant
            i <= listing.len(),
            layout(listing.deep_view().take(i as int)) == Ok::<Seq<MonitorStructView>, Seq<char>>(
                monitors.deep_view(),
            ),
        decreases listing.len() - i,
    {
        let ghost next = listing.deep_view().take(i + 1);
        proof {
            assert(next.drop_last() =~= listing.deep_view().take(i as int));
            assert(next.last() == listing@[i as int]@);
        }
        match read_line(monitors, listing[i].as_str()) {
            Ok(after) => {
                monitors = after;
            },
            Err(number) => {
                proof {
                    layout_stops_at(listing.deep_view(), i + 1);
                }
                return Err(number);
            },
        }
        i += 1;
    }
    assert(listing.deep_view().take(listing.len() as int) =~= listing.deep_view());
    Ok(monitors)
}

impl MonitorView {
    /// The observed monitor layout, read off the file that holds it. Without
    /// that file nothing is observed.
    pub open spec fn observed(findings: Seq<FindingView>) -> ProbeView<MonitorView> {
        match optional_text(findings, Inquiry::ReadFile, HYPR_MONITOR_CONF_PATH@) {
            ProbeView::Done(None) => ProbeView::Done(MonitorView { monitors: None }),
            ProbeView::Done(Some(content)) => match layout(lines(content)) {
                Ok(monitors) => ProbeView::Done(MonitorView { monitors: present(monitors) }),
                Err(number) => ProbeView::Failed(failure(Fault::Malformed, number)),
            },
            ProbeView::Ask(question) => ProbeView::Ask(question),
            ProbeView::Failed(error) => ProbeView::Failed(error),
        }
    }
}

impl Monitor {
    /// Reads the observed monitor layout off the findings.
    pub fn observe(findings: &Vec<Finding>) -> (r: Probe<Monitor>)
        ensures
            r.deep_view() == MonitorView::observed(findings.deep_view()),
    {
        match optional(findings, Inquiry::ReadFile, HYPR_MONITOR_CONF_PATH) {
            Probe::Done(None) => Probe::Done(Monitor { monitors: None }),
            Probe::Done(Some(content)) => {
                let listing = line_list(content.as_str());
                match read_layout(&listing) {
                    Ok(monitors) => Probe::Done(Monitor { monitors: normalized(monitors) }),
                    Err(number) => Probe::Failed(
                        ProbeError { fault: Fault::Malformed, subject: number },
                    ),
                }
            },
            Probe::Ask(question) => Probe::Ask(question),
            Probe::Failed(error) => Probe::Failed(error),
        }
    }
}

impl GetSystem for MonitorDiff {
    open spec fn observes(
        before: MonitorDiff,
        findings: Seq<FindingView>,
        context: ExecutionContext,
        after: MonitorDiff,
        r: Probe<()>,
    ) -> bool {
        &&& after.config == before.config
        &&& after.diff == before.diff
        &&& ended_as(r, MonitorView::observed(findings))
        &&& match MonitorView::observed(findings) {
            ProbeView::Done(system) => after.system@ == system,
            _ => after.system == before.system,
        }
    }

    fn get_system(&mut self, findings: &Vec<Finding>, context: ExecutionContext) -> (r: Probe<
        (),
    >) {
        match Monitor::observe(findings) {
            Probe::Done(system) => {
                self.system = system;
                Probe::Done(())
            },
            Probe::Ask(question) => Probe::Ask(question),
            Probe::Failed(error) => Probe::Failed(error),
        }
    }
}

impl FilesView {
    /// The observed text files: the desired files that are found with the
    /// desired content.
    pub open spec fn observed(
        config: FilesView,
        findings: Seq<FindingView>,
        context: ExecutionContext,
    ) -> ProbeView<FilesView> {
        match observed_entries::<TextToFile>(config.files, findings, context) {
            ProbeView::Done(files) => ProbeView::Done(FilesView { files }),
            ProbeView::Ask(question) => ProbeView::Ask(question),
            ProbeView::Failed(error) => ProbeView::Failed(error),
        }
    }
}

impl Files {
    /// Reads the observed text files off the findings.
    pub fn observe(config: &Files, findings: &Vec<Finding>, context: ExecutionContext) -> (r:
        Probe<Files>)
        ensures
            r.deep_view() == FilesView::observed(config@, findings.deep_view(), context),
    {
        match observe_entries(&config.files, findings, context) {
            Probe::Done(files) => Probe::Done(Files { files }),
            Probe::Ask(question) => Probe::Ask(question),
            Probe::Failed(error) => Probe::Failed(error),
        }
    }
}

impl GetSystem for FilesDiff {
    open spec fn observes(
        before: FilesDiff,
        findings: Seq<FindingView>,
        context: ExecutionContext,
        after: FilesDiff,
        r: Probe<()>,
    ) -> bool {
        &&& after.config == before.config
        &&& after.diff == before.diff
        &&& ended_as(r, FilesView::observed(before.config@, findings, context))
        &&& match FilesView::observed(before.config@, findings, context) {
            ProbeView::Done(system) => after.system@ == system,
            _ => after.system == before.system,
        }
    }

    fn get_system(&mut self, findings: &Vec<Finding>, context: ExecutionContext) -> (r: Probe<
        (),
    >) {
        match Files::observe(&self.config, findings, context) {
            Probe::Done(system) => {
                self.system = system;
                Probe::Done(())
            },
            Probe::Ask(question) => Probe::Ask(question),
            Probe::Failed(error) => Probe::Failed(error),
        }
    }
}

} // verus!
