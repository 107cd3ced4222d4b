//! The entries of the lists that are checked one by one: directories, links,
//! downloads, files and packages that a command of their own installs.
//!
//! Nobody can list everything of these kinds that a system holds, so they are
//! probed the other way round: each desired entry is looked for, and the
//! observed state is the list of those that were found. An entry that belongs
//! to the other execution context is taken as found, and nothing is ever done
//! for it.

use vstd::prelude::*;
use vstd::string::*;
use crate::function::{combine, execute, followed_by, run, unplanned, Action, ActionView};
use crate::get_diff::{normalized, present};
use crate::helper::ExecutionContext;
use crate::item::Item;
use crate::probe::{
    check, failure, flag, require_text, required_text, Fault, Finding, FindingView, Inquiry, Probe,
    ProbeError, ProbeView,
};
use crate::structure::{
    CreateDirs, CreateDirsView, CurlDownload, CurlDownloadView, GitDownload, GitDownloadView, Links,
    LinksView, ManualInstallPackages, ManualInstallPackagesView, ReownDirs, ReownDirsView,
    TextToFile, TextToFileView, Unzip, UnzipView,
};
use crate::text::{cut_once, line_list, lines, pieces, split, split_once, trim, trimmed};

verus! {

/// An entry that is looked for on the system and created when it is missing.
pub trait Entry: Item {
    /// Whether the findings show the entry to be there.
    spec fn found(entry: Self::V, findings: Seq<FindingView>, context: ExecutionContext)
        -> ProbeView<bool>;

    /// The actions that create the entry.
    spec fn creation(entry: Self::V, findings: Seq<FindingView>, context: ExecutionContext)
        -> ProbeView<Seq<ActionView>>;

    /// Decides from the findings whether the entry is there.
    fn is_found(&self, findings: &Vec<Finding>, context: ExecutionContext) -> (r: Probe<bool>)
        ensures
            r.deep_view() == Self::found(self.deep_view(), findings.deep_view(), context),
    ;

    /// Plans the actions that create the entry.
    fn create(&self, findings: &Vec<Finding>, context: ExecutionContext) -> (r: Probe<
        Vec<Action>,
    >)
        ensures
            r.deep_view() == Self::creation(self.deep_view(), findings.deep_view(), context),
    ;
}

/// The entries of `list` that the findings show to be there, in order. The
/// first entry of which the findings do not tell decides instead: its
/// question is asked, or its failure reported.
pub open spec fn found_among<E: Entry>(
    list: Seq<E::V>,
    findings: Seq<FindingView>,
    context: ExecutionContext,
) -> ProbeView<Seq<E::V>>
    decreases list.len(),
{
    if list.len() == 0 {
        ProbeView::Done(Seq::empty())
    } else {
        match found_among::<E>(list.drop_last(), findings, context) {
            ProbeView::Done(before) => match E::found(list.last(), findings, context) {
                ProbeView::Done(there) => ProbeView::Done(
                    if there {
                        before.push(list.last())
                    } else {
                        before
                    },
                ),
                ProbeView::Ask(question) => ProbeView::Ask(question),
                ProbeView::Failed(error) => ProbeView::Failed(error),
            },
            ProbeView::Ask(question) => ProbeView::Ask(question),
            ProbeView::Failed(error) => ProbeView::Failed(error),
        }
    }
}

/// The observed state of a list that is checked entry by entry: absent where
/// nothing is desired or nothing was found.
pub open spec fn observed_entries<E: Entry>(
    desired: Option<Seq<E::V>>,
    findings: Seq<FindingView>,
    context: ExecutionContext,
) -> ProbeView<Option<Seq<E::V>>> {
    match desired {
        None => ProbeView::Done(None),
        Some(list) => match found_among::<E>(list, findings, context) {
            ProbeView::Done(there) => ProbeView::Done(present(there)),
            ProbeView::Ask(question) => ProbeView::Ask(question),
            ProbeView::Failed(error) => ProbeView::Failed(error),
        },
    }
}

/// The actions that create the entries of `list`, entry after entry.
pub open spec fn creation_of_all<E: Entry>(
    list: Seq<E::V>,
    findings: Seq<FindingView>,
    context: ExecutionContext,
) -> ProbeView<Seq<ActionView>>
    decreases list.len(),
{
    if list.len() == 0 {
        ProbeView::Done(Seq::empty())
    } else {
        followed_by(
            creation_of_all::<E>(list.drop_last(), findings, context),
            E::creation(list.last(), findings, context),
        )
    }
}

/// The actions that create the entries of a field: none when it is absent.
pub open spec fn creation_of<E: Entry>(
    field: Option<Seq<E::V>>,
    findings: Seq<FindingView>,
    context: ExecutionContext,
) -> ProbeView<Seq<ActionView>> {
    match field {
        Some(list) => creation_of_all::<E>(list, findings, context),
        None => ProbeView::Done(Seq::empty()),
    }
}

/// Collects the entries of `list` that the findings show to be there.
pub fn find_entries<E: Entry>(list: &Vec<E>, findings: &Vec<Finding>, context: ExecutionContext)
    -> (r: Probe<Vec<E>>)
    ensures
        r.deep_view() == found_among::<E>(list.deep_view(), findings.deep_view(), context),
{
    let mut there: Vec<E> = Vec::new();
    let mut i: usize = 0;
    assert(list.deep_view().take(0) =~= Seq::empty());
    assert(there.deep_view() =~= Seq::empty());
    while i < list.len()
        invariant
            i <= list.len(),
            found_among::<E>(list.deep_view().take(i as int), findings.deep_view(), context)
                == ProbeView::Done(there.deep_view()),
        decreases list.len() - i,
    {
        let ghost next = list.deep_view().take(i + 1);
        let ghost before = there.deep_view();
        proof {
            assert(next.drop_last() =~= list.deep_view().take(i as int));
            assert(next.last() == list@[i as int].deep_view());
            assert(list.deep_view().take(list.len() as int) =~= list.deep_view());
        }
        match list[i].is_found(findings, context) {
            Probe::Done(found) => {
                if found {
                    there.push(list[i].duplicate());
                    assert(there.deep_view() =~= before.push(list@[i as int].deep_view()));
                }
            },
            Probe::Ask(question) => {
                proof {
                    stops_at::<E>(list.deep_view(), i + 1, findings.deep_view(), context);
                }
                return Probe::Ask(question);
            },
            Probe::Failed(error) => {
                proof {
                    stops_at::<E>(list.deep_view(), i + 1, findings.deep_view(), context);
                }
                return Probe::Failed(error);
            },
        }
        i += 1;
    }
    assert(list.deep_view().take(list.len() as int) =~= list.deep_view());
    Probe::Done(there)
}

/// Once the search has stopped at an entry, the entries behind it do not
/// matter.
proof fn stops_at<E: Entry>(
    list: Seq<E::V>,
    n: int,
    findings: Seq<FindingView>,
    context: ExecutionContext,
)
    requires
        0 <= n <= list.len(),
        !(found_among::<E>(list.take(n), findings, context) is Done),
    ensures
        found_among::<E>(list, findings, context) == found_among::<E>(
            list.take(n),
            findings,
            context,
        ),
    decreases list.len(),
{
    if n == list.len() {
        assert(list.take(n) =~= list);
    } else {
        assert(list.drop_last().take(n) =~= list.take(n));
        stops_at::<E>(list.drop_last(), n, findings, context);
    }
}

/// Establishes the observed state of a list that is checked entry by entry.
pub fn observe_entries<E: Entry>(
    desired: &Option<Vec<E>>,
    findings: &Vec<Finding>,
    context: ExecutionContext,
) -> (r: Probe<Option<Vec<E>>>)
    ensures
        r.deep_view() == observed_entries::<E>(
            desired.deep_view(),
            findings.deep_view(),
            context,
        ),
{
    match desired {
        None => Probe::Done(None),
        Some(list) => match find_entries(list, findings, context) {
            Probe::Done(there) => Probe::Done(normalized(there)),
            Probe::Ask(question) => Probe::Ask(question),
            Probe::Failed(error) => Probe::Failed(error),
        },
    }
}

/// Once a plan has stopped at an entry, the entries behind it do not matter.
proof fn plan_stops_at<E: Entry>(
    list: Seq<E::V>,
    n: int,
    findings: Seq<FindingView>,
    context: ExecutionContext,
)
    requires
        0 <= n <= list.len(),
        !(creation_of_all::<E>(list.take(n), findings, context) is Done),
    ensures
        creation_of_all::<E>(list, findings, context) == creation_of_all::<E>(
            list.take(n),
            findings,
            context,
        ),
    decreases list.len(),
{
    if n == list.len() {
        assert(list.take(n) =~= list);
    } else {
        assert(list.drop_last().take(n) =~= list.take(n));
        plan_stops_at::<E>(list.drop_last(), n, findings, context);
    }
}

/// Plans the creation of the entries of a field.
pub fn create_entries<E: Entry>(
    field: &Option<Vec<E>>,
    findings: &Vec<Finding>,
    context: ExecutionContext,
) -> (r: Probe<Vec<Action>>)
    ensures
        r.deep_view() == creation_of::<E>(field.deep_view(), findings.deep_view(), context),
{
    let mut actions: Vec<Action> = Vec::new();
    assert(actions.deep_view() =~= Seq::empty());
    let list = match field {
        Some(list) => list,
        None => {
            return Probe::Done(actions);
        },
    };
    let mut i: usize = 0;
    assert(list.deep_view().take(0) =~= Seq::empty());
    while i < list.len()
        invariant
            i <= list.len(),
            field.deep_view() == Some(list.deep_view()),
            creation_of_all::<E>(list.deep_view().take(i as int), findings.deep_view(), context)
                == ProbeView::Done(actions.deep_view()),
        decreases list.len() - i,
    {
        let ghost next = list.deep_view().take(i + 1);
        let ghost before = actions.deep_view();
        proof {
            assert(next.drop_last() =~= list.deep_view().take(i as int));
            assert(next.last() == list@[i as int].deep_view());
        }
        match list[i].create(findings, context) {
            Probe::Done(more) => {
                let mut more = more;
                let ghost tail = more.deep_view();
                actions.append(&mut more);
                assert(actions.deep_view() =~= before + tail);
            },
            Probe::Ask(question) => {
                proof {
                    plan_stops_at::<E>(list.deep_view(), i + 1, findings.deep_view(), context);
                }
                return Probe::Ask(question);
            },
            Probe::Failed(error) => {
                proof {
                    plan_stops_at::<E>(list.deep_view(), i + 1, findings.deep_view(), context);
                }
                return Probe::Failed(error);
            },
        }
        i += 1;
    }
    assert(list.deep_view().take(list.len() as int) =~= list.deep_view());
    Probe::Done(actions)
}

/// The action that makes the directory `path`, unless the findings show that
/// it is there.
pub open spec fn make_dir(findings: Seq<FindingView>, path: Seq<char>) -> ProbeView<
    Seq<ActionView>,
> {
    match flag(findings, Inquiry::IsDir, path) {
        ProbeView::Done(there) => ProbeView::Done(
            if there {
                Seq::empty()
            } else {
                seq![run("mkdir -p "@ + path)]
            },
        ),
        ProbeView::Ask(question) => ProbeView::Ask(question),
        ProbeView::Failed(error) => ProbeView::Failed(error),
    }
}

/// A directory and an entry in it, as one path.
pub open spec fn inside(directory: Seq<char>, name: Seq<char>) -> Seq<char> {
    directory + "/"@ + name
}

/// Writes the path of an entry in a directory.
pub fn path_inside(directory: &str, name: &str) -> (path: String)
    ensures
        path@ == inside(directory@, name@),
{
    let mut path = combine(directory, "/");
    path.append(name);
    path
}

/// Plans the making of the directory `path`, then the given action.
fn in_directory(findings: &Vec<Finding>, path: &str, action: Action) -> (r: Probe<Vec<Action>>)
    ensures
        r.deep_view() == followed_by(
            make_dir(findings.deep_view(), path@),
            ProbeView::Done(seq![action@]),
        ),
{
    let mut actions: Vec<Action> = Vec::new();
    match check(findings, Inquiry::IsDir, path) {
        Probe::Done(there) => {
            if !there {
                actions.push(execute(combine("mkdir -p ", path)));
            }
            let ghost before = actions.deep_view();
            actions.push(action);
            assert(actions.deep_view() =~= before + seq![action@]);
            assert(before =~= if there {
                Seq::<ActionView>::empty()
            } else {
                seq![run("mkdir -p "@ + path@)]
            });
            Probe::Done(actions)
        },
        Probe::Ask(question) => Probe::Ask(question),
        Probe::Failed(error) => Probe::Failed(error),
    }
}

/// One action.
fn only(action: Action) -> (r: Probe<Vec<Action>>)
    ensures
        r.deep_view() == ProbeView::Done(seq![action@]),
{
    let mut actions: Vec<Action> = Vec::new();
    actions.push(action);
    assert(actions.deep_view() =~= seq![action@]);
    Probe::Done(actions)
}

impl Entry for ManualInstallPackages {
    /// A package is there when its check succeeds.
    open spec fn found(
        entry: ManualInstallPackagesView,
        findings: Seq<FindingView>,
        context: ExecutionContext,
    ) -> ProbeView<bool> {
        if entry.root == context.privileged {
            flag(findings, Inquiry::Succeeds, entry.check)
        } else {
            ProbeView::Done(true)
        }
    }

    /// A package is installed by its command.
    open spec fn creation(
        entry: ManualInstallPackagesView,
        findings: Seq<FindingView>,
        context: ExecutionContext,
    ) -> ProbeView<Seq<ActionView>> {
        ProbeView::Done(
            if entry.root == context.privileged {
                seq![run(entry.command)]
            } else {
                Seq::empty()
            },
        )
    }

    fn is_found(&self, findings: &Vec<Finding>, context: ExecutionContext) -> (r: Probe<bool>) {
        if self.root == context.privileged {
            check(findings, Inquiry::Succeeds, self.check.as_str())
        } else {
            Probe::Done(true)
        }
    }

    fn create(&self, findings: &Vec<Finding>, context: ExecutionContext) -> (r: Probe<
        Vec<Action>,
    >) {
        if self.root == context.privileged {
            only(execute(self.command.clone()))
        } else {
            unplanned()
        }
    }
}

impl Entry for CreateDirs {
    /// A directory is there when its path is a directory.
    open spec fn found(
        entry: CreateDirsView,
        findings: Seq<FindingView>,
        context: ExecutionContext,
    ) -> ProbeView<bool> {
        if entry.root == context.privileged {
            flag(findings, Inquiry::IsDir, entry.path)
        } else {
            ProbeView::Done(true)
        }
    }

    /// A directory is made together with the directories above it.
    open spec fn creation(
        entry: CreateDirsView,
        findings: Seq<FindingView>,
        context: ExecutionContext,
    ) -> ProbeView<Seq<ActionView>> {
        ProbeView::Done(
            if entry.root == context.privileged {
                seq![run("mkdir -p "@ + entry.path)]
            } else {
                Seq::empty()
            },
        )
    }

    fn is_found(&self, findings: &Vec<Finding>, context: ExecutionContext) -> (r: Probe<bool>) {
        if self.root == context.privileged {
            check(findings, Inquiry::IsDir, self.path.as_str())
        } else {
            Probe::Done(true)
        }
    }

    fn create(&self, findings: &Vec<Finding>, context: ExecutionContext) -> (r: Probe<
        Vec<Action>,
    >) {
        if self.root == context.privileged {
            only(execute(combine("mkdir -p ", self.path.as_str())))
        } else {
            unplanned()
        }
    }
}

impl Entry for CurlDownload {
    /// A download is there when its file is.
    open spec fn found(
        entry: CurlDownloadView,
        findings: Seq<FindingView>,
        context: ExecutionContext,
    ) -> ProbeView<bool> {
        if entry.root == context.privileged {
            flag(findings, Inquiry::IsFile, inside(entry.path, entry.file_name))
        } else {
            ProbeView::Done(true)
        }
    }

    /// A file is downloaded into its directory, which is made first when it
    /// is missing.
    open spec fn creation(
        entry: CurlDownloadView,
        findings: Seq<FindingView>,
        context: ExecutionContext,
    ) -> ProbeView<Seq<ActionView>> {
        if entry.root == context.privileged {
            followed_by(
                make_dir(findings, entry.path),
                ProbeView::Done(
                    seq![
                        run(
                            "curl -L "@ + entry.url + " > "@ + inside(entry.path, entry.file_name),
                        ),
                    ],
                ),
            )
        } else {
            ProbeView::Done(Seq::empty())
        }
    }

    fn is_found(&self, findings: &Vec<Finding>, context: ExecutionContext) -> (r: Probe<bool>) {
        if self.root == context.privileged {
            let file = path_inside(self.path.as_str(), self.file_name.as_str());
            check(findings, Inquiry::IsFile, file.as_str())
        } else {
            Probe::Done(true)
        }
    }

    fn create(&self, findings: &Vec<Finding>, context: ExecutionContext) -> (r: Probe<
        Vec<Action>,
    >) {
        if self.root == context.privileged {
            let file = path_inside(self.path.as_str(), self.file_name.as_str());
            let mut command = combine("curl -L ", self.url.as_str());
            command.append(" > ");
            command.append(file.as_str());
            in_directory(findings, self.path.as_str(), execute(command))
        } else {
            unplanned()
        }
    }
}

impl Entry for Unzip {
    /// An archive counts as unpacked when its directory is there.
    open spec fn found(entry: UnzipView, findings: Seq<FindingView>, context: ExecutionContext)
        -> ProbeView<bool> {
        if entry.root == context.privileged {
            flag(findings, Inquiry::IsDir, entry.path)
        } else {
            ProbeView::Done(true)
        }
    }

    /// An archive is unpacked in its directory, which is made first when it
    /// is missing.
    open spec fn creation(
        entry: UnzipView,
        findings: Seq<FindingView>,
        context: ExecutionContext,
    ) -> ProbeView<Seq<ActionView>> {
        if entry.root == context.privileged {
            followed_by(
                make_dir(findings, entry.path),
                ProbeView::Done(
                    seq![
                        ActionView::Execute {
                            command: "unzip "@ + entry.path + ".zip"@,
                            dir: entry.path,
                        },
                    ],
                ),
            )
        } else {
            ProbeView::Done(Seq::empty())
        }
    }

    fn is_found(&self, findings: &Vec<Finding>, context: ExecutionContext) -> (r: Probe<bool>) {
        if self.root == context.privileged {
            check(findings, Inquiry::IsDir, self.path.as_str())
        } else {
            Probe::Done(true)
        }
    }

    fn create(&self, findings: &Vec<Finding>, context: ExecutionContext) -> (r: Probe<
        Vec<Action>,
    >) {
        if self.root == context.privileged {
            let mut command = combine("unzip ", self.path.as_str());
            command.append(".zip");
            in_directory(
                findings,
                self.path.as_str(),
                Action::Execute { command, dir: self.path.clone() },
            )
        } else {
            unplanned()
        }
    }
}

/// The name of the directory that a clone of the repository at `url` makes:
/// what stands behind the last slash, up to its first dot. A last part
/// without a dot names no directory.
pub open spec fn repository_name(url: Seq<char>) -> Option<Seq<char>> {
    match split_once(split(url, "/"@).last(), "."@) {
        Some(halves) => Some(halves.0),
        None => None,
    }
}

/// Reads the name of the directory that a clone makes off the address of the
/// repository.
pub fn repository(url: &str) -> (name: Option<String>)
    ensures
        name.deep_view() == repository_name(url@),
{
    let parts = pieces(url, "/");
    let last = &parts[parts.len() - 1];
    assert(parts.deep_view().last() == last@);
    match cut_once(last.as_str(), ".") {
        Some(halves) => Some(halves.0),
        None => None,
    }
}

impl Entry for GitDownload {
    /// A repository is there when the directory of its clone is.
    open spec fn found(
        entry: GitDownloadView,
        findings: Seq<FindingView>,
        context: ExecutionContext,
    ) -> ProbeView<bool> {
        if entry.root == context.privileged {
            match repository_name(entry.url) {
                Some(name) => flag(findings, Inquiry::IsDir, inside(entry.path, name)),
                None => ProbeView::Failed(failure(Fault::Malformed, entry.url)),
            }
        } else {
            ProbeView::Done(true)
        }
    }

    /// A repository is cloned in its directory, which is made first when it
    /// is missing.
    open spec fn creation(
        entry: GitDownloadView,
        findings: Seq<FindingView>,
        context: ExecutionContext,
    ) -> ProbeView<Seq<ActionView>> {
        if entry.root == context.privileged {
            followed_by(
                make_dir(findings, entry.path),
                ProbeView::Done(
                    seq![
                        ActionView::Execute {
                            command: "git clone "@ + entry.url,
                            dir: entry.path,
                        },
                    ],
                ),
            )
        } else {
            ProbeView::Done(Seq::empty())
        }
    }

    fn is_found(&self, findings: &Vec<Finding>, context: ExecutionContext) -> (r: Probe<bool>) {
        if self.root == context.privileged {
            match repository(self.url.as_str()) {
                Some(name) => {
                    let clone = path_inside(self.path.as_str(), name.as_str());
                    check(findings, Inquiry::IsDir, clone.as_str())
                },
                None => Probe::Failed(
                    ProbeError { fault: Fault::Malformed, subject: self.url.clone() },
                ),
            }
        } else {
            Probe::Done(true)
        }
    }

    fn create(&self, findings: &Vec<Finding>, context: ExecutionContext) -> (r: Probe<
        Vec<Action>,
    >) {
        if self.root == context.privileged {
            in_directory(
                findings,
                self.path.as_str(),
                Action::Execute {
                    command: combine("git clone ", self.url.as_str()),
                    dir: self.path.clone(),
                },
            )
        } else {
            unplanned()
        }
    }
}

impl Entry for TextToFile {
    /// A file is there when it exists and holds the desired content, the
    /// white space around either left aside.
    open spec fn found(
        entry: TextToFileView,
        findings: Seq<FindingView>,
        context: ExecutionContext,
    ) -> ProbeView<bool> {
        if entry.root == context.privileged {
            let file = inside(entry.path, entry.file_name);
            match flag(findings, Inquiry::IsFile, file) {
                ProbeView::Done(there) => if there {
                    match required_text(findings, Inquiry::ReadFile, file, Fault::Unreadable) {
                        ProbeView::Done(content) => ProbeView::Done(
                            trim(content) == trim(entry.write),
                        ),
                        ProbeView::Ask(question) => ProbeView::Ask(question),
                        ProbeView::Failed(error) => ProbeView::Failed(error),
                    }
                } else {
                    ProbeView::Done(false)
                },
                ProbeView::Ask(question) => ProbeView::Ask(question),
                ProbeView::Failed(error) => ProbeView::Failed(error),
            }
        } else {
            ProbeView::Done(true)
        }
    }

    /// A file is written into its directory, which is made first when it is
    /// missing.
    open spec fn creation(
        entry: TextToFileView,
        findings: Seq<FindingView>,
        context: ExecutionContext,
    ) -> ProbeView<Seq<ActionView>> {
        if entry.root == context.privileged {
            followed_by(
                make_dir(findings, entry.path),
                ProbeView::Done(
                    seq![
                        ActionView::WriteFile {
                            path: inside(entry.path, entry.file_name),
                            content: entry.write,
                        },
                    ],
                ),
            )
        } else {
            ProbeView::Done(Seq::empty())
        }
    }

    fn is_found(&self, findings: &Vec<Finding>, context: ExecutionContext) -> (r: Probe<bool>) {
        if self.root == context.privileged {
            let file = path_inside(self.path.as_str(), self.file_name.as_str());
            match check(findings, Inquiry::IsFile, file.as_str()) {
                Probe::Done(there) => {
                    if there {
                        match require_text(
                            findings,
                            Inquiry::ReadFile,
                            file.as_str(),
                            Fault::Unreadable,
                        ) {
                            Probe::Done(content) => {
                                let has = trimmed(content.as_str());
                                let wants = trimmed(self.write.as_str());
                                Probe::Done(has.same(&wants))
                            },
                            Probe::Ask(question) => Probe::Ask(question),
                            Probe::Failed(error) => Probe::Failed(error),
                        }
                    } else {
                        Probe::Done(false)
                    }
                },
                Probe::Ask(question) => Probe::Ask(question),
                Probe::Failed(error) => Probe::Failed(error),
            }
        } else {
            Probe::Done(true)
        }
    }

    fn create(&self, findings: &Vec<Finding>, context: ExecutionContext) -> (r: Probe<
        Vec<Action>,
    >) {
        if self.root == context.privileged {
            in_directory(
                findings,
                self.path.as_str(),
                Action::WriteFile {
                    path: path_inside(self.path.as_str(), self.file_name.as_str()),
                    content: self.write.clone(),
                },
            )
        } else {
            unplanned()
        }
    }
}

/// The group that owns a directory, read off its line in a long listing: the
/// fourth of the parts that single spaces separate.
pub open spec fn owner_group(listing: Seq<char>) -> Option<Seq<char>> {
    let columns = split(listing, " "@);
    if columns.len() > 3 {
        Some(columns[3])
    } else {
        None
    }
}

/// Reads the group that owns a directory off its line in a long listing.
pub fn owning_group(listing: &str) -> (group: Option<String>)
    ensures
        group.deep_view() == owner_group(listing@),
{
    let columns = pieces(listing, " ");
    if columns.len() > 3 {
        assert(columns.deep_view()[3] == columns@[3]@);
        Some(columns[3].clone())
    } else {
        None
    }
}

impl Entry for ReownDirs {
    /// A directory is there when it exists and belongs to the desired group.
    open spec fn found(
        entry: ReownDirsView,
        findings: Seq<FindingView>,
        context: ExecutionContext,
    ) -> ProbeView<bool> {
        if context.privileged {
            match flag(findings, Inquiry::IsDir, entry.directory) {
                ProbeView::Done(there) => if there {
                    let command = "ls -ld "@ + entry.directory;
                    match required_text(findings, Inquiry::Output, command, Fault::NotRun) {
                        ProbeView::Done(listing) => match owner_group(listing) {
                            Some(group) => ProbeView::Done(group == entry.group),
                            None => ProbeView::Failed(failure(Fault::Malformed, listing)),
                        },
                        ProbeView::Ask(question) => ProbeView::Ask(question),
                        ProbeView::Failed(error) => ProbeView::Failed(error),
                    }
                } else {
                    ProbeView::Done(false)
                },
                ProbeView::Ask(question) => ProbeView::Ask(question),
                ProbeView::Failed(error) => ProbeView::Failed(error),
            }
        } else {
            ProbeView::Done(true)
        }
    }

    /// A directory is made when nothing exists at its path, and given to the
    /// group.
    open spec fn creation(
        entry: ReownDirsView,
        findings: Seq<FindingView>,
        context: ExecutionContext,
    ) -> ProbeView<Seq<ActionView>> {
        if context.privileged {
            let reown = run("chown :"@ + entry.group + " "@ + entry.directory);
            match flag(findings, Inquiry::Exists, entry.directory) {
                ProbeView::Done(there) => ProbeView::Done(
                    if there {
                        seq![reown]
                    } else {
                        seq![run("mkdir -p "@ + entry.directory), reown]
                    },
                ),
                ProbeView::Ask(question) => ProbeView::Ask(question),
                ProbeView::Failed(error) => ProbeView::Failed(error),
            }
        } else {
            ProbeView::Done(Seq::empty())
        }
    }

    fn is_found(&self, findings: &Vec<Finding>, context: ExecutionContext) -> (r: Probe<bool>) {
        if !context.privileged {
            return Probe::Done(true);
        }
        match check(findings, Inquiry::IsDir, self.directory.as_str()) {
            Probe::Done(there) => {
                if !there {
                    return Probe::Done(false);
                }
                let command = combine("ls -ld ", self.directory.as_str());
                match require_text(findings, Inquiry::Output, command.as_str(), Fault::NotRun) {
                    Probe::Done(listing) => match owning_group(listing.as_str()) {
                        Some(group) => Probe::Done(group.same(&self.group)),
                        None => Probe::Failed(
                            ProbeError { fault: Fault::Malformed, subject: listing },
                        ),
                    },
                    Probe::Ask(question) => Probe::Ask(question),
                    Probe::Failed(error) => Probe::Failed(error),
                }
            },
            Probe::Ask(question) => Probe::Ask(question),
            Probe::Failed(error) => Probe::Failed(error),
        }
    }

    fn create(&self, findings: &Vec<Finding>, context: ExecutionContext) -> (r: Probe<
        Vec<Action>,
    >) {
        if !context.privileged {
            return unplanned();
        }
        match check(findings, Inquiry::Exists, self.directory.as_str()) {
            Probe::Done(there) => {
                let mut actions: Vec<Action> = Vec::new();
                if !there {
                    actions.push(execute(combine("mkdir -p ", self.directory.as_str())));
                }
                let mut command = combine("chown :", self.group.as_str());
                command.append(" ");
                command.append(self.directory.as_str());
                let ghost before = actions.deep_view();
                actions.push(execute(command));
                proof {
                    let reown = run("chown :"@ + self@.group + " "@ + self@.directory);
                    assert(actions.deep_view() =~= before.push(reown));
                    if there {
                        assert(actions.deep_view() =~= seq![reown]);
                    } else {
                        assert(actions.deep_view() =~= seq![
                            run("mkdir -p "@ + self@.directory),
                            reown,
                        ]);
                    }
                }
                Probe::Done(actions)
            },
            Probe::Ask(question) => Probe::Ask(question),
            Probe::Failed(error) => Probe::Failed(error),
        }
    }
}

/// The command that shows where the link at `link` points: one form for a
/// link to a directory, one for a link to a file, and the empty command for
/// a link to neither.
pub open spec fn link_listing(findings: Seq<FindingView>, link: Seq<char>) -> ProbeView<
    Seq<char>,
> {
    match flag(findings, Inquiry::IsDir, link) {
        ProbeView::Done(directory) => if directory {
            ProbeView::Done("ls -ldA1 "@ + link)
        } else {
            match flag(findings, Inquiry::IsFile, link) {
                ProbeView::Done(file) => ProbeView::Done(
                    if file {
                        "ls -lA1 "@ + link
                    } else {
                        Seq::empty()
                    },
                ),
                ProbeView::Ask(question) => ProbeView::Ask(question),
                ProbeView::Failed(error) => ProbeView::Failed(error),
            }
        },
        ProbeView::Ask(question) => ProbeView::Ask(question),
        ProbeView::Failed(error) => ProbeView::Failed(error),
    }
}

/// Where a listing says that a link points: what stands behind its last
/// arrow, without the white space around it.
pub open spec fn link_target(listing: Seq<char>) -> Seq<char> {
    trim(split(listing, "->"@).last())
}

/// Whether the entry `name` of `origin` is linked from `destination`: the
/// origin is a directory, and the entry of that name in the destination is a
/// symbolic link that points to the entry in the origin.
pub open spec fn link_intact(
    findings: Seq<FindingView>,
    origin: Seq<char>,
    destination: Seq<char>,
    name: Seq<char>,
) -> ProbeView<bool> {
    let link = inside(destination, name);
    match flag(findings, Inquiry::IsDir, origin) {
        ProbeView::Done(directory) => if directory {
            match flag(findings, Inquiry::IsSymlink, link) {
                ProbeView::Done(symlink) => if symlink {
                    match link_listing(findings, link) {
                        ProbeView::Done(command) => match required_text(
                            findings,
                            Inquiry::Output,
                            command,
                            Fault::NotRun,
                        ) {
                            ProbeView::Done(listing) => ProbeView::Done(
                                link_target(listing) == inside(origin, name),
                            ),
                            ProbeView::Ask(question) => ProbeView::Ask(question),
                            ProbeView::Failed(error) => ProbeView::Failed(error),
                        },
                        ProbeView::Ask(question) => ProbeView::Ask(question),
                        ProbeView::Failed(error) => ProbeView::Failed(error),
                    }
                } else {
                    ProbeView::Done(false)
                },
                ProbeView::Ask(question) => ProbeView::Ask(question),
                ProbeView::Failed(error) => ProbeView::Failed(error),
            }
        } else {
            ProbeView::Done(false)
        },
        ProbeView::Ask(question) => ProbeView::Ask(question),
        ProbeView::Failed(error) => ProbeView::Failed(error),
    }
}

/// Whether every entry of `origin` that `names` lists, a name on each line
/// with white space around it, is linked from `destination`.
pub open spec fn links_intact(
    findings: Seq<FindingView>,
    origin: Seq<char>,
    destination: Seq<char>,
    names: Seq<Seq<char>>,
) -> ProbeView<bool>
    decreases names.len(),
{
    if names.len() == 0 {
        ProbeView::Done(true)
    } else {
        match links_intact(findings, origin, destination, names.drop_last()) {
            ProbeView::Done(before) => match link_intact(
                findings,
                origin,
                destination,
                trim(names.last()),
            ) {
                ProbeView::Done(intact) => ProbeView::Done(before && intact),
                ProbeView::Ask(question) => ProbeView::Ask(question),
                ProbeView::Failed(error) => ProbeView::Failed(error),
            },
            ProbeView::Ask(question) => ProbeView::Ask(question),
            ProbeView::Failed(error) => ProbeView::Failed(error),
        }
    }
}

/// The actions that link the entries of `origin` that `names` lists into
/// `destination`, making the destination before each when `make` says so.
pub open spec fn link_all(
    origin: Seq<char>,
    destination: Seq<char>,
    names: Seq<Seq<char>>,
    make: bool,
) -> Seq<ActionView>
    decreases names.len(),
{
    if names.len() == 0 {
        Seq::empty()
    } else {
        link_all(origin, destination, names.drop_last(), make) + (if make {
            seq![run("mkdir -p "@ + destination)]
        } else {
            Seq::empty()
        }) + seq![run("ln -sf "@ + inside(origin, names.last()) + " "@ + destination)]
    }
}

/// Decides from the findings whether one entry is linked.
fn is_link_intact(findings: &Vec<Finding>, origin: &str, destination: &str, name: &str) -> (r:
    Probe<bool>)
    ensures
        r.deep_view() == link_intact(findings.deep_view(), origin@, destination@, name@),
{
    let link = path_inside(destination, name);
    match check(findings, Inquiry::IsDir, origin) {
        Probe::Done(directory) => {
            if !directory {
                return Probe::Done(false);
            }
        },
        Probe::Ask(question) => {
            return Probe::Ask(question);
        },
        Probe::Failed(error) => {
            return Probe::Failed(error);
        },
    }
    match check(findings, Inquiry::IsSymlink, link.as_str()) {
        Probe::Done(symlink) => {
            if !symlink {
                return Probe::Done(false);
            }
        },
        Probe::Ask(question) => {
            return Probe::Ask(question);
        },
        Probe::Failed(error) => {
            return Probe::Failed(error);
        },
    }
    let command = match check(findings, Inquiry::IsDir, link.as_str()) {
        Probe::Done(directory) => {
            if directory {
                combine("ls -ldA1 ", link.as_str())
            } else {
                match check(findings, Inquiry::IsFile, link.as_str()) {
                    Probe::Done(file) => {
                        if file {
                            combine("ls -lA1 ", link.as_str())
                        } else {
                            let none = String::new();
                            assert(none@ =~= Seq::<char>::empty());
                            none
                        }
                    },
                    Probe::Ask(question) => {
                        return Probe::Ask(question);
                    },
                    Probe::Failed(error) => {
                        return Probe::Failed(error);
                    },
                }
            }
        },
        Probe::Ask(question) => {
            return Probe::Ask(question);
        },
        Probe::Failed(error) => {
            return Probe::Failed(error);
        },
    };
    assert(link_listing(findings.deep_view(), link@) == ProbeView::Done(command@));
    match require_text(findings, Inquiry::Output, command.as_str(), Fault::NotRun) {
        Probe::Done(listing) => {
            let parts = pieces(listing.as_str(), "->");
            let last = &parts[parts.len() - 1];
            assert(parts.deep_view().last() == last@);
            let target = trimmed(last.as_str());
            let wanted = path_inside(origin, name);
            Probe::Done(target.same(&wanted))
        },
        Probe::Ask(question) => Probe::Ask(question),
        Probe::Failed(error) => Probe::Failed(error),
    }
}

/// Once an entry has stopped the check, the entries behind it do not matter.
proof fn links_stop_at(
    findings: Seq<FindingView>,
    origin: Seq<char>,
    destination: Seq<char>,
    names: Seq<Seq<char>>,
    n: int,
)
    requires
        0 <= n <= names.len(),
        !(links_intact(findings, origin, destination, names.take(n)) is Done),
    ensures
        links_intact(findings, origin, destination, names) == links_intact(
            findings,
            origin,
            destination,
            names.take(n),
        ),
    decreases names.len(),
{
    if n == names.len() {
        assert(names.take(n) =~= names);
    } else {
        assert(names.drop_last().take(n) =~= names.take(n));
        links_stop_at(findings, origin, destination, names.drop_last(), n);
    }
}

/// Decides from the findings whether all the listed entries are linked.
fn are_links_intact(findings: &Vec<Finding>, origin: &str, destination: &str, names: &Vec<String>)
    -> (r: Probe<bool>)
    ensures
        r.deep_view() == links_intact(
            findings.deep_view(),
            origin@,
            destination@,
            names.deep_view(),
        ),
{
    let mut all: bool = true;
    let mut i: usize = 0;
    assert(names.deep_view().take(0) =~= Seq::empty());
    while i < names.len()
        invariant
            i <= names.len(),
            links_intact(
                findings.deep_view(),
                origin@,
                destination@,
                names.deep_view().take(i as int),
            ) == ProbeView::Done(all),
        decreases names.len() - i,
    {
        let ghost next = names.deep_view().take(i + 1);
        proof {
            assert(next.drop_last() =~= names.deep_view().take(i as int));
            assert(next.last() == names@[i as int]@);
        }
        let name = trimmed(names[i].as_str());
        match is_link_intact(findings, origin, destination, name.as_str()) {
            Probe::Done(intact) => {
                all = all && intact;
            },
            Probe::Ask(question) => {
                proof {
                    links_stop_at(
                        findings.deep_view(),
                        origin@,
                        destination@,
                        names.deep_view(),
                        i + 1,
                    );
                }
                return Probe::Ask(question);
            },
            Probe::Failed(error) => {
                proof {
                    links_stop_at(
                        findings.deep_view(),
                        origin@,
                        destination@,
                        names.deep_view(),
                        i + 1,
                    );
                }
                return Probe::Failed(error);
            },
        }
        i += 1;
    }
    assert(names.deep_view().take(names.len() as int) =~= names.deep_view());
    Probe::Done(all)
}

/// Plans the linking of the listed entries.
fn link_entries(origin: &str, destination: &str, names: &Vec<String>, make: bool) -> (actions:
    Vec<Action>)
    ensures
        actions.deep_view() == link_all(origin@, destination@, names.deep_view(), make),
{
    let mut actions: Vec<Action> = Vec::new();
    let mut i: usize = 0;
    assert(names.deep_view().take(0) =~= Seq::empty());
    assert(actions.deep_view() =~= Seq::empty());
    while i < names.len()
        invariant
            i <= names.len(),
            actions.deep_view() == link_all(
                origin@,
                destination@,
                names.deep_view().take(i as int),
                make,
            ),
        decreases names.len() - i,
    {
        let ghost next = names.deep_view().take(i + 1);
        let ghost before = actions.deep_view();
        proof {
            assert(next.drop_last() =~= names.deep_view().take(i as int));
            assert(next.last() == names@[i as int]@);
        }
        if make {
            actions.push(execute(combine("mkdir -p ", destination)));
        }
        let entry = path_inside(origin, names[i].as_str());
        let mut command = combine("ln -sf ", entry.as_str());
        command.append(" ");
        command.append(destination);
        actions.push(execute(command));
        assert(actions.deep_view() =~= before + (if make {
            seq![run("mkdir -p "@ + destination@)]
        } else {
            Seq::empty()
        }) + seq![run("ln -sf "@ + inside(origin@, names@[i as int]@) + " "@ + destination@)]);
        i += 1;
    }
    assert(names.deep_view().take(names.len() as int) =~= names.deep_view());
    actions
}

impl Entry for Links {
    /// The links of a directory are there when the directory exists and
    /// every one of its entries is linked from the destination.
    open spec fn found(entry: LinksView, findings: Seq<FindingView>, context: ExecutionContext)
        -> ProbeView<bool> {
        if entry.root == context.privileged {
            match required_text(
                findings,
                Inquiry::Output,
                "ls -A "@ + entry.origin,
                Fault::NotRun,
            ) {
                ProbeView::Done(listing) => match links_intact(
                    findings,
                    entry.origin,
                    entry.destination,
                    lines(listing),
                ) {
                    ProbeView::Done(intact) => if intact {
                        flag(findings, Inquiry::IsDir, entry.origin)
                    } else {
                        ProbeView::Done(false)
                    },
                    ProbeView::Ask(question) => ProbeView::Ask(question),
                    ProbeView::Failed(error) => ProbeView::Failed(error),
                },
                ProbeView::Ask(question) => ProbeView::Ask(question),
                ProbeView::Failed(error) => ProbeView::Failed(error),
            }
        } else {
            ProbeView::Done(true)
        }
    }

    /// Every entry of the origin is linked into the destination, which is
    /// made when it is missing. Nothing is done when the origin is no
    /// directory, or when the destination is itself a symbolic link.
    open spec fn creation(
        entry: LinksView,
        findings: Seq<FindingView>,
        context: ExecutionContext,
    ) -> ProbeView<Seq<ActionView>> {
        if entry.root != context.privileged {
            ProbeView::Done(Seq::empty())
        } else {
            match flag(findings, Inquiry::IsDir, entry.origin) {
                ProbeView::Done(directory) => if !directory {
                    ProbeView::Done(Seq::empty())
                } else {
                    match required_text(
                        findings,
                        Inquiry::Output,
                        "ls -A "@ + entry.origin,
                        Fault::NotRun,
                    ) {
                        ProbeView::Done(listing) => match flag(
                            findings,
                            Inquiry::IsSymlink,
                            entry.destination,
                        ) {
                            ProbeView::Done(symlink) => if symlink {
                                ProbeView::Done(Seq::empty())
                            } else {
                                match flag(findings, Inquiry::IsDir, entry.destination) {
                                    ProbeView::Done(there) => ProbeView::Done(
                                        link_all(
                                            entry.origin,
                                            entry.destination,
                                            lines(listing),
                                            !there,
                                        ),
                                    ),
                                    ProbeView::Ask(question) => ProbeView::Ask(question),
                                    ProbeView::Failed(error) => ProbeView::Failed(error),
                                }
                            },
                            ProbeView::Ask(question) => ProbeView::Ask(question),
                            ProbeView::Failed(error) => ProbeView::Failed(error),
                        },
                        ProbeView::Ask(question) => ProbeView::Ask(question),
                        ProbeView::Failed(error) => ProbeView::Failed(error),
                    }
                },
                ProbeView::Ask(question) => ProbeView::Ask(question),
                ProbeView::Failed(error) => ProbeView::Failed(error),
            }
        }
    }

    fn is_found(&self, findings: &Vec<Finding>, context: ExecutionContext) -> (r: Probe<bool>) {
        if self.root != context.privileged {
            return Probe::Done(true);
        }
        let command = combine("ls -A ", self.origin.as_str());
        match require_text(findings, Inquiry::Output, command.as_str(), Fault::NotRun) {
            Probe::Done(listing) => {
                let names = line_list(listing.as_str());
                match are_links_intact(
                    findings,
                    self.origin.as_str(),
                    self.destination.as_str(),
                    &names,
                ) {
                    Probe::Done(intact) => {
                        if intact {
                            check(findings, Inquiry::IsDir, self.origin.as_str())
                        } else {
                            Probe::Done(false)
                        }
                    },
                    Probe::Ask(question) => Probe::Ask(question),
                    Probe::Failed(error) => Probe::Failed(error),
                }
            },
            Probe::Ask(question) => Probe::Ask(question),
            Probe::Failed(error) => Probe::Failed(error),
        }
    }

    fn create(&self, findings: &Vec<Finding>, context: ExecutionContext) -> (r: Probe<
        Vec<Action>,
    >) {
        if self.root != context.privileged {
            return unplanned();
        }
        match check(findings, Inquiry::IsDir, self.origin.as_str()) {
            Probe::Done(directory) => {
                if !directory {
                    return unplanned();
                }
            },
            Probe::Ask(question) => {
                return Probe::Ask(question);
            },
            Probe::Failed(error) => {
                return Probe::Failed(error);
            },
        }
        let command = combine("ls -A ", self.origin.as_str());
        let listing = match require_text(
            findings,
            Inquiry::Output,
            command.as_str(),
            Fault::NotRun,
        ) {
            Probe::Done(listing) => listing,
            Probe::Ask(question) => {
                return Probe::Ask(question);
            },
            Probe::Failed(error) => {
                return Probe::Failed(error);
            },
        };
        match check(findings, Inquiry::IsSymlink, self.destination.as_str()) {
            Probe::Done(symlink) => {
                if symlink {
                    return unplanned();
                }
            },
            Probe::Ask(question) => {
                return Probe::Ask(question);
            },
            Probe::Failed(error) => {
                return Probe::Failed(error);
            },
        }
        match check(findings, Inquiry::IsDir, self.destination.as_str()) {
            Probe::Done(there) => {
                let names = line_list(listing.as_str());
                Probe::Done(
                    link_entries(self.origin.as_str(), self.destination.as_str(), &names, !there),
                )
            },
            Probe::Ask(question) => Probe::Ask(question),
            Probe::Failed(error) => Probe::Failed(error),
        }
    }
}

} // verus!
