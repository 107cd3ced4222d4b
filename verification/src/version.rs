//! The history of configurations: archived copies of the configuration,
//! each under a name that holds its index, its label and the time when it
//! was made.
//!
//! The version with index 0 is the current one. A commit archives the
//! configuration as the new current version and moves the old one behind
//! all others; a rollback makes an older version current again.

use vstd::prelude::*;
use vstd::string::*;
use crate::data_types::{
    DirectoriesDiff, DownloadsDiff, Fail2BanDiff, FilesDiff, GrubDiff, KeyboardDiff, LanguageDiff,
    MkinitcpioDiff, MonitorDiff, New, PackagesDiff, PacmanDiff, ServicesDiff, SystemDiff, TimeDiff,
    UfwDiff, UserDiff,
};
use crate::entry::{inside, path_inside};
use crate::function::{combine, Action, ActionView};
use crate::get_config::{ConfigError, GetConfig};
use crate::get_diff::{listed, GetDiff};
use crate::get_system_from_other::GetSystemFromOther;
use crate::helper::ExecutionContext;
use crate::item::Item;
use crate::probe::{
    require_text, required_text, Fault, Finding, FindingView, Inquiry, Probe, ProbeView,
};
use crate::structure::{
    CargoToml, CargoTomlView, DirectoriesView, DownloadsView, Fail2BanView, FilesView, GrubView,
    KeyboardView, LanguageView, MkinitcpioView, MonitorView, PackagesView, PacmanView, ServicesView,
    SystemView, TimeView, UfwView, UsersView,
};
use crate::text::{
    contains, cut_once, decimal, decimal_text, equal, includes, line_list, lines, parse_number,
    parse_unsigned, pieces, split, split_once, trim, trimmed,
};

verus! {

/// The configuration in use.
pub const CONFIG_PATH: &'static str = "/home/falk/config.toml";

/// The directory of the archived configurations.
pub const CONFIG_DIR_PATH: &'static str = "/home/falk/.versions";

/// How the time of a version is written in the name of its file.
pub const FILE_TIME: &'static str = "%Y-%m-%d_%H-%M-%S.toml";

/// How the time of a commit is written.
pub const COMMIT_TIME: &'static str = "%Y-%m-%d_%H-%M-%S";

/// How the time of a version is shown.
pub const SHOWN_TIME: &'static str = "%Y-%m-%d %H:%M:%S%.f";

/// A point in time without a time zone: the seconds since the beginning of
/// 1970, not counting leap seconds, and the nanoseconds since the last whole
/// second.
#[derive(Debug, PartialEq, Eq, Clone, Copy, Structural)]
pub struct Moment {
    pub seconds: i64,
    pub nanos: u32,
}

impl Moment {
    /// Whether this moment is before `other`.
    pub open spec fn is_before(self, other: Moment) -> bool {
        self.seconds < other.seconds || (self.seconds == other.seconds && self.nanos
            < other.nanos)
    }

    /// Tests whether this moment is before `other`.
    pub fn before(&self, other: &Moment) -> (r: bool)
        ensures
            r == self.is_before(*other),
    {
        self.seconds < other.seconds || (self.seconds == other.seconds && self.nanos
            < other.nanos)
    }
}

/// The moment that `text` denotes when it is read in the format `format`, as
/// seconds and nanoseconds; nothing when the text does not fit the format or
/// denotes no moment.
pub uninterp spec fn parsed_moment(text: Seq<char>, format: Seq<char>) -> Option<(i64, u32)>;

/// The moment of the given seconds and nanoseconds written in the format
/// `format`; nothing when the numbers are out of range.
pub uninterp spec fn formatted_moment(seconds: i64, nanos: u32, format: Seq<char>) -> Option<
    Seq<char>,
>;

/// Reads a moment with `chrono::NaiveDateTime::parse_from_str`. What it
/// yields is not spelled out here: it is named `parsed_moment`, a function
/// of the text and the format alone. A text that cannot be read yields
/// nothing.
#[verifier::external_body]
fn parse_moment(text: &str, format: &str) -> (r: Option<Moment>)
    ensures
        r == match parsed_moment(text@, format@) {
            Some(read) => Some(Moment { seconds: read.0, nanos: read.1 }),
            None => None,
        },
{
    match chrono::NaiveDateTime::parse_from_str(text, format) {
        Ok(moment) => Some(
            Moment {
                seconds: moment.and_utc().timestamp(),
                nanos: moment.and_utc().timestamp_subsec_nanos(),
            },
        ),
        Err(_) => None,
    }
}

/// Writes a moment with `chrono::NaiveDateTime::format`, after
/// `chrono::DateTime::from_timestamp` has made it of its numbers. What it
/// yields is named `formatted_moment`, a function of the numbers and the
/// format alone. Only the two formats of this module are written, which
/// chrono accepts; numbers out of range yield nothing.
#[verifier::external_body]
fn format_moment(moment: Moment, format: &str) -> (r: Option<String>)
    requires
        format@ == COMMIT_TIME@ || format@ == SHOWN_TIME@,
    ensures
        r.deep_view() == formatted_moment(moment.seconds, moment.nanos, format@),
{
    match chrono::DateTime::from_timestamp(moment.seconds, moment.nanos) {
        Some(time) => Some(time.naive_utc().format(format).to_string()),
        None => None,
    }
}

/// Reads the clock with `chrono::Utc::now`. The answer is the time of the
/// call, so nothing is claimed of it.
#[verifier::external_body]
fn current_moment() -> (now: Moment) {
    let now = chrono::Utc::now();
    Moment { seconds: now.timestamp(), nanos: now.timestamp_subsec_nanos() }
}

impl Item for Moment {
    fn same(&self, other: &Self) -> (r: bool) {
        self.seconds == other.seconds && self.nanos == other.nanos
    }

    fn duplicate(&self) -> (r: Self) {
        *self
    }
}

impl DeepView for Moment {
    type V = Moment;

    open spec fn deep_view(&self) -> Moment {
        *self
    }
}

/// An archived configuration.
#[derive(Debug, PartialEq, Eq, Clone)]
pub struct Version {
    /// The label that the commit gave it.
    pub name: Option<String>,
    /// Its place in the history; 0 is the current version.
    pub index: Option<usize>,
    /// Whether it is marked.
    pub selected: bool,
    /// When it was made.
    pub last_use_date: Option<Moment>,
    /// Where its file is.
    pub config_path: Option<String>,
}

/// The model of a [`Version`].
pub struct VersionView {
    pub name: Option<Seq<char>>,
    pub index: Option<usize>,
    pub selected: bool,
    pub last_use_date: Option<Moment>,
    pub config_path: Option<Seq<char>>,
}

impl DeepView for Version {
    type V = VersionView;

    open spec fn deep_view(&self) -> VersionView {
        VersionView {
            name: self.name.deep_view(),
            index: self.index,
            selected: self.selected,
            last_use_date: self.last_use_date,
            config_path: self.config_path.deep_view(),
        }
    }
}

impl View for Version {
    type V = VersionView;

    open spec fn view(&self) -> VersionView {
        self.deep_view()
    }
}

impl Item for Version {
    fn same(&self, other: &Self) -> (r: bool) {
        self.name.same(&other.name) && self.index.same(&other.index) && self.selected
            == other.selected && self.last_use_date.same(&other.last_use_date)
            && self.config_path.same(&other.config_path)
    }

    fn duplicate(&self) -> (r: Self) {
        Version {
            name: self.name.duplicate(),
            index: self.index,
            selected: self.selected,
            last_use_date: self.last_use_date,
            config_path: self.config_path.duplicate(),
        }
    }
}

impl Version {
    /// A version of which nothing is known.
    pub fn new() -> (version: Version)
        ensures
            version@ == (VersionView {
                name: None,
                index: None,
                selected: false,
                last_use_date: None,
                config_path: None,
            }),
    {
        Version { name: None, index: None, selected: false, last_use_date: None, config_path: None }
    }
}

/// The history of configurations.
#[derive(Debug, PartialEq, Eq, Clone)]
pub struct AllVersions {
    /// The versions, in the order in which the directory lists them.
    pub versions: Option<Vec<Version>>,
    /// The marked version.
    pub selected: Option<Version>,
    /// The current version.
    pub current: Option<Version>,
}

/// The model of [`AllVersions`].
pub struct AllVersionsView {
    pub versions: Option<Seq<VersionView>>,
    pub selected: Option<VersionView>,
    pub current: Option<VersionView>,
}

impl DeepView for AllVersions {
    type V = AllVersionsView;

    open spec fn deep_view(&self) -> AllVersionsView {
        AllVersionsView {
            versions: self.versions.deep_view(),
            selected: self.selected.deep_view(),
            current: self.current.deep_view(),
        }
    }
}

impl View for AllVersions {
    type V = AllVersionsView;

    open spec fn view(&self) -> AllVersionsView {
        self.deep_view()
    }
}

impl New<AllVersions> for AllVersions {
    open spec fn is_new(fresh: AllVersions) -> bool {
        fresh@ == (AllVersionsView { versions: None, selected: None, current: None })
    }

    fn new() -> (history: AllVersions) {
        AllVersions { versions: None, selected: None, current: None }
    }
}

/// What can go wrong with the history.
#[derive(Debug, PartialEq, Eq, Clone, Copy, Structural)]
pub enum VersionError {
    /// The directory of the versions could not be listed.
    ListingFailed,
    /// The directory holds no versions.
    NoVersions,
    /// The name of a file lacks its label or its time.
    WrongFileName,
    /// The time in the name of a file cannot be read.
    BadTime,
    /// The index in the name of a file is no number.
    BadIndex,
    /// The same version was found twice.
    Duplicate,
    /// There is no version with index 0.
    NoCurrent,
    /// A version lacks what is to be read of it: its index, its label, its
    /// time or its path.
    Incomplete,
    /// The version with index 0 is asked for, which stays where it is.
    IndexZero,
    /// No version has the index that is asked for.
    NotFound,
    /// Nothing is to be deleted.
    NothingToDelete,
    /// So many versions are to be deleted that the current one would go.
    WouldDeleteCurrent,
    /// The configuration in use equals the current version.
    NoChanges,
    /// The configuration in use differs from the current version.
    UncommittedChanges,
    /// The two histories differ in length.
    LengthMismatch,
    /// The line that should give a commit its label holds nothing.
    EmptyMessage,
    /// The line that should give a commit its label holds two underscores
    /// in a row.
    MessageWithSeparator,
}

/// The version that the file called `file` holds, given the moment that
/// the time in its name denotes. The name of the file is made of the index,
/// the label and the time, with two underscores between each two.
pub open spec fn version_at(file: Seq<char>, moment: Option<Moment>) -> Result<
    VersionView,
    VersionError,
> {
    let parts = split(file, "__"@);
    if parts.len() < 3 {
        Err(VersionError::WrongFileName)
    } else {
        match moment {
            None => Err(VersionError::BadTime),
            Some(time) => match parse_unsigned(parts[0], usize::MAX as nat) {
                None => Err(VersionError::BadIndex),
                Some(index) => Ok(
                    VersionView {
                        name: Some(parts[1]),
                        index: Some(index as usize),
                        selected: false,
                        last_use_date: Some(time),
                        config_path: Some(inside(CONFIG_DIR_PATH@, file)),
                    },
                ),
            },
        }
    }
}

/// The moment that the time in the name of a file denotes: the third part
/// of the name, read as the time of a version.
pub open spec fn stated_moment(file: Seq<char>) -> Option<Moment> {
    let parts = split(file, "__"@);
    if parts.len() < 3 {
        None
    } else {
        match parsed_moment(parts[2], FILE_TIME@) {
            Some(read) => Some(Moment { seconds: read.0, nanos: read.1 }),
            None => None,
        }
    }
}

/// The version that the file called `file` holds.
pub open spec fn version_of(file: Seq<char>) -> Result<VersionView, VersionError> {
    version_at(file, stated_moment(file))
}

/// Makes the version that a file holds out of the name of the file and the
/// moment that the time in the name denotes.
pub fn version_from(file: &str, moment: Option<Moment>) -> (r: Result<Version, VersionError>)
    ensures
        match version_at(file@, moment) {
            Ok(version) => r is Ok && r->Ok_0@ == version,
            Err(error) => r == Err::<Version, VersionError>(error),
        },
{
    let parts = pieces(file, "__");
    if parts.len() < 3 {
        return Err(VersionError::WrongFileName);
    }
    assert(parts.deep_view()[0] == parts@[0]@);
    assert(parts.deep_view()[1] == parts@[1]@);
    let time = match moment {
        Some(time) => time,
        None => {
            return Err(VersionError::BadTime);
        },
    };
    let index = match parse_number(parts[0].as_str(), usize::MAX) {
        Some(index) => index,
        None => {
            return Err(VersionError::BadIndex);
        },
    };
    Ok(
        Version {
            name: Some(parts[1].clone()),
            index: Some(index),
            selected: false,
            last_use_date: Some(time),
            config_path: Some(path_inside(CONFIG_DIR_PATH, file)),
        },
    )
}

/// Reads the version that a file holds off the name of the file.
pub fn read_version(file: &str) -> (r: Result<Version, VersionError>)
    ensures
        match version_of(file@) {
            Ok(version) => r is Ok && r->Ok_0@ == version,
            Err(error) => r == Err::<Version, VersionError>(error),
        },
{
    let parts = pieces(file, "__");
    let moment = if parts.len() < 3 {
        None
    } else {
        assert(parts.deep_view()[2] == parts@[2]@);
        parse_moment(parts[2].as_str(), FILE_TIME)
    };
    version_from(file, moment)
}

/// The history after one more version has been taken in. A version with
/// index 0 becomes the current one. A version that is there already is an
/// error.
pub open spec fn with_version(history: AllVersionsView, version: VersionView) -> Result<
    AllVersionsView,
    VersionError,
> {
    let known = listed(history.versions);
    if known.contains(version) {
        Err(VersionError::Duplicate)
    } else {
        Ok(
            AllVersionsView {
                versions: Some(known.push(version)),
                selected: history.selected,
                current: if version.index == Some(0usize) {
                    Some(version)
                } else {
                    history.current
                },
            },
        )
    }
}

/// The history after the versions of the given files have been taken in,
/// one after another.
pub open spec fn taken_in(history: AllVersionsView, files: Seq<Seq<char>>) -> Result<
    AllVersionsView,
    VersionError,
>
    decreases files.len(),
{
    if files.len() == 0 {
        Ok(history)
    } else {
        match taken_in(history, files.drop_last()) {
            Ok(before) => match version_of(files.last()) {
                Ok(version) => with_version(before, version),
                Err(error) => Err(error),
            },
            Err(error) => Err(error),
        }
    }
}

/// The history after the listing of the directory has been read. The
/// listing has to be there without complaint and to name at least one
/// file, and a current version has to be among the versions.
pub open spec fn listed_versions(history: AllVersionsView, listing: Seq<char>, complaint: Seq<char>)
    -> Result<AllVersionsView, VersionError> {
    if complaint.len() > 0 {
        Err(VersionError::ListingFailed)
    } else if listing.len() == 0 {
        Err(VersionError::NoVersions)
    } else {
        match taken_in(history, lines(listing)) {
            Ok(after) => if after.current is None {
                Err(VersionError::NoCurrent)
            } else if after.versions is None {
                Err(VersionError::NoVersions)
            } else {
                Ok(after)
            },
            Err(error) => Err(error),
        }
    }
}

/// An error met on a file is the result, whatever files follow.
proof fn taking_in_stops(history: AllVersionsView, files: Seq<Seq<char>>, n: int)
    requires
        0 <= n <= files.len(),
        taken_in(history, files.take(n)) is Err,
    ensures
        taken_in(history, files) == taken_in(history, files.take(n)),
    decreases files.len(),
{
    if n == files.len() {
        assert(files.take(n) =~= files);
    } else {
        assert(files.drop_last().take(n) =~= files.take(n));
        taking_in_stops(history, files.drop_last(), n);
    }
}

impl AllVersions {
    /// Takes one more version into the history.
    pub fn take_in(&mut self, version: Version) -> (r: Result<(), VersionError>)
        ensures
            match with_version(old(self)@, version@) {
                Ok(history) => r is Ok && final(self)@ == history,
                Err(error) => r == Err::<(), VersionError>(error) && *final(self) == *old(self),
            },
    {
        let mut known: Vec<Version> = match &self.versions {
            Some(known) => known.duplicate(),
            None => Vec::new(),
        };
        assert(known.deep_view() =~= listed(old(self)@.versions));
        if crate::item::contains(&known, &version) {
            return Err(VersionError::Duplicate);
        }
        if version.index == Some(0) {
            self.current = Some(version.duplicate());
        }
        let ghost before = known.deep_view();
        known.push(version);
        assert(known.deep_view() =~= before.push(version@));
        self.versions = Some(known);
        Ok(())
    }

    /// Reads the versions off the listing of their directory: `listing` is
    /// what the listing printed, a file on each line, and `complaint` what
    /// it printed as an error.
    pub fn get_versions(&mut self, listing: &str, complaint: &str) -> (r: Result<(), VersionError>)
        ensures
            match listed_versions(old(self)@, listing@, complaint@) {
                Ok(history) => r is Ok && final(self)@ == history,
                Err(error) => r == Err::<(), VersionError>(error) && *final(self) == *old(self),
            },
    {
        if !complaint.is_empty() {
            return Err(VersionError::ListingFailed);
        }
        if listing.is_empty() {
            return Err(VersionError::NoVersions);
        }
        let files = line_list(listing);
        let mut history = AllVersions {
            versions: self.versions.duplicate(),
            selected: self.selected.duplicate(),
            current: self.current.duplicate(),
        };
        let mut i: usize = 0;
        assert(files.deep_view().take(0) =~= Seq::empty());
        while i < files.len()
            invariant
                i <= files.len(),
                complaint@.len() == 0,
                listing@.len() > 0,
                *self == *old(self),
                files.deep_view() == lines(listing@),
                taken_in(old(self)@, files.deep_view().take(i as int)) == Ok::<
                    AllVersionsView,
                    VersionError,
                >(history@),
            decreases files.len() - i,
        {
            let ghost next = files.deep_view().take(i + 1);
            proof {
                assert(next.drop_last() =~= files.deep_view().take(i as int));
                assert(next.last() == files@[i as int]@);
            }
            let taken = match read_version(files[i].as_str()) {
                Ok(version) => history.take_in(version),
                Err(error) => Err(error),
            };
            match taken {
                Ok(()) => {},
                Err(error) => {
                    proof {
                        taking_in_stops(old(self)@, files.deep_view(), i + 1);
                    }
                    return Err(error);
                },
            }
            i += 1;
        }
        assert(files.deep_view().take(files.len() as int) =~= files.deep_view());
        if history.current.is_none() {
            return Err(VersionError::NoCurrent);
        }
        if history.versions.is_none() {
            return Err(VersionError::NoVersions);
        }
        *self = history;
        Ok(())
    }
}

/// What a function reads of every version of a history.
#[derive(Debug, PartialEq, Eq, Clone, Copy, Structural)]
pub enum Needs {
    /// The index.
    Index,
    /// The index and the time.
    IndexTime,
    /// The index and the path.
    IndexPath,
    /// The path.
    Path,
    /// The index, the label and the time.
    IndexLabelTime,
}

/// Whether `version` holds what `needs` names.
pub open spec fn has(version: VersionView, needs: Needs) -> bool {
    match needs {
        Needs::Index => version.index is Some,
        Needs::IndexTime => version.index is Some && version.last_use_date is Some,
        Needs::IndexPath => version.index is Some && version.config_path is Some,
        Needs::Path => version.config_path is Some,
        Needs::IndexLabelTime => version.index is Some && version.name is Some
            && version.last_use_date is Some,
    }
}

/// Tests whether `version` holds what `needs` names.
pub fn holds(version: &Version, needs: Needs) -> (r: bool)
    ensures
        r == has(version@, needs),
{
    match needs {
        Needs::Index => version.index.is_some(),
        Needs::IndexTime => version.index.is_some() && version.last_use_date.is_some(),
        Needs::IndexPath => version.index.is_some() && version.config_path.is_some(),
        Needs::Path => version.config_path.is_some(),
        Needs::IndexLabelTime => version.index.is_some() && version.name.is_some()
            && version.last_use_date.is_some(),
    }
}

/// Whether every version holds what `needs` names.
pub open spec fn complete(versions: Seq<VersionView>, needs: Needs) -> bool {
    forall|i: int| 0 <= i < versions.len() ==> has(#[trigger] versions[i], needs)
}

/// Tests whether every version holds what `needs` names.
pub fn all_complete(versions: &Vec<Version>, needs: Needs) -> (r: bool)
    ensures
        r == complete(versions.deep_view(), needs),
{
    let mut i: usize = 0;
    while i < versions.len()
        invariant
            i <= versions.len(),
            forall|k: int| 0 <= k < i ==> has(#[trigger] versions.deep_view()[k], needs),
        decreases versions.len() - i,
    {
        let version = &versions[i];
        assert(versions.deep_view()[i as int] == version@);
        if !holds(version, needs) {
            return false;
        }
        i += 1;
    }
    true
}

/// The versions of a history that is fit for a use that reads `needs` of
/// every version: there are versions, and each holds that much. What a
/// version lacks beyond that does not matter.
pub open spec fn usable(history: AllVersionsView, needs: Needs) -> Result<
    Seq<VersionView>,
    VersionError,
> {
    match history.versions {
        None => Err(VersionError::NoVersions),
        Some(versions) => if complete(versions, needs) {
            Ok(versions)
        } else {
            Err(VersionError::Incomplete)
        },
    }
}

/// The line that shows a version: its index, its label and, in brackets,
/// its time, with a mark behind a version that is selected.
pub open spec fn line_of(index: usize, name: Seq<char>, time: Seq<char>, selected: bool) -> Seq<
    char,
> {
    decimal(index as nat) + ": "@ + name + " ("@ + time + ")"@ + (if selected {
        " * selected"@
    } else {
        Seq::empty()
    })
}

/// Writes the line that shows a version.
pub fn shown_line(index: usize, name: &str, time: &str, selected: bool) -> (line: String)
    ensures
        line@ == line_of(index, name@, time@, selected),
{
    let mut line = decimal_text(index);
    line.append(": ");
    line.append(name);
    line.append(" (");
    line.append(time);
    line.append(")");
    if selected {
        line.append(" * selected");
    }
    assert(line@ =~= line_of(index, name@, time@, selected));
    line
}

/// The line that shows a version whose index, label and time are known.
/// Nothing when its time is out of range.
pub open spec fn shown(version: VersionView) -> Option<Seq<char>> {
    match formatted_moment(
        version.last_use_date->0.seconds,
        version.last_use_date->0.nanos,
        SHOWN_TIME@,
    ) {
        Some(time) => Some(line_of(version.index->0, version.name->0, time, version.selected)),
        None => None,
    }
}

/// The lines that show the given versions, where each can be shown.
pub open spec fn all_shown(versions: Seq<VersionView>) -> Option<Seq<Seq<char>>>
    decreases versions.len(),
{
    if versions.len() == 0 {
        Some(Seq::empty())
    } else {
        match all_shown(versions.drop_last()) {
            Some(before) => match shown(versions.last()) {
                Some(line) => Some(before.push(line)),
                None => None,
            },
            None => None,
        }
    }
}

/// A version that cannot be shown keeps the list from being shown,
/// whatever versions follow.
proof fn showing_stops(versions: Seq<VersionView>, n: int)
    requires
        0 <= n <= versions.len(),
        all_shown(versions.take(n)) is None,
    ensures
        all_shown(versions) is None,
    decreases versions.len(),
{
    if n == versions.len() {
        assert(versions.take(n) =~= versions);
    } else {
        assert(versions.drop_last().take(n) =~= versions.take(n));
        showing_stops(versions.drop_last(), n);
    }
}

/// The actions that delete the files of the versions with the given index.
pub open spec fn deletions(versions: Seq<VersionView>, index: usize) -> Seq<ActionView>
    decreases versions.len(),
{
    if versions.len() == 0 {
        Seq::empty()
    } else {
        let before = deletions(versions.drop_last(), index);
        let version = versions.last();
        if version.index == Some(index) {
            before.push(ActionView::RemoveFile { path: version.config_path->0 })
        } else {
            before
        }
    }
}

/// The actions that delete the versions from the last one back to the one
/// at position `from`, each with all versions of its index. The current
/// version is never deleted.
pub open spec fn deletions_from(versions: Seq<VersionView>, from: int) -> Seq<ActionView>
    decreases versions.len() - from,
{
    if from < 0 || from >= versions.len() {
        Seq::empty()
    } else {
        let index = versions[from].index->0;
        deletions_from(versions, from + 1) + if index == 0 {
            Seq::empty()
        } else {
            deletions(versions, index)
        }
    }
}

/// Whether the versions from place `from` on all bear the index of the
/// current version.
pub open spec fn only_current(versions: Seq<VersionView>, from: int) -> bool {
    forall|i: int| from <= i < versions.len() ==> (#[trigger] versions[i]).index == Some(0usize)
}

/// The deletion of the last `number` versions of a history. At least one
/// version is to be deleted, and fewer than there are. The indexes of the
/// versions to be deleted are read; unless they all are that of the current
/// version, which stays, index and path of every version are read too.
pub open spec fn last_deletions(history: AllVersionsView, number: usize) -> Result<
    Seq<ActionView>,
    VersionError,
> {
    match history.versions {
        None => Err(VersionError::NoVersions),
        Some(versions) => if number == 0 {
            Err(VersionError::NothingToDelete)
        } else if number >= versions.len() {
            Err(VersionError::WouldDeleteCurrent)
        } else if only_current(versions, versions.len() - number) {
            Ok(Seq::empty())
        } else if complete(versions, Needs::IndexPath) {
            Ok(deletions_from(versions, versions.len() - number))
        } else {
            Err(VersionError::Incomplete)
        },
    }
}

/// The time of the last of the versions that has the given index.
pub open spec fn moment_of(versions: Seq<VersionView>, index: usize) -> Option<Moment>
    decreases versions.len(),
{
    if versions.len() == 0 {
        None
    } else if versions.last().index == Some(index) {
        versions.last().last_use_date
    } else {
        moment_of(versions.drop_last(), index)
    }
}

/// The index that the search for the latest version holds after it has
/// looked at the first `n` versions. The search begins with index 0 and
/// moves to the index of each version that is later than the version of
/// the index held.
pub open spec fn latest_among(versions: Seq<VersionView>, n: int) -> usize
    decreases n,
{
    if n <= 0 || n > versions.len() {
        0
    } else {
        let held = latest_among(versions, n - 1);
        let version = versions[n - 1];
        match moment_of(versions, held) {
            Some(moment) => if moment.is_before(version.last_use_date->0) {
                version.index->0
            } else {
                held
            },
            None => held,
        }
    }
}

/// Whether no two versions share an index and one of them is the current
/// version.
pub open spec fn numbered(versions: Seq<VersionView>) -> bool {
    &&& forall|i: int, j: int|
        0 <= i < j < versions.len() ==> versions[i].index != versions[j].index
    &&& exists|i: int| 0 <= i < versions.len() && versions[i].index == Some(0usize)
}

/// Whether the version at place `k` is as late as each of the first `n`
/// versions.
pub open spec fn none_later(versions: Seq<VersionView>, k: int, n: int) -> bool {
    forall|j: int|
        0 <= j < n && j < versions.len() ==> !versions[k].last_use_date->0.is_before(
            versions[j].last_use_date->0,
        )
}

/// Whether the current version and every version that stands before place
/// `k` are earlier than the version at place `k`.
pub open spec fn first_so_late(versions: Seq<VersionView>, k: int) -> bool {
    forall|j: int|
        0 <= j < versions.len() && (j < k || versions[j].index == Some(0usize))
            ==> versions[j].last_use_date->0.is_before(versions[k].last_use_date->0)
}

/// Whether `index` is that of the latest version: no version is later, and
/// among several that are as late it is the current one or else the first
/// in the list.
pub open spec fn is_latest(versions: Seq<VersionView>, index: usize) -> bool {
    exists|k: int|
        0 <= k < versions.len() && versions[k].index == Some(index) && #[trigger] none_later(
            versions,
            k,
            versions.len() as int,
        ) && (index == 0 || first_so_late(versions, k))
}

/// Where no two versions share an index, the time looked up under the index
/// of a version is the time of that version.
pub proof fn moment_of_found(versions: Seq<VersionView>, k: int, n: int)
    requires
        0 <= k < n <= versions.len(),
        versions[k].index is Some,
        forall|i: int, j: int|
            0 <= i < j < versions.len() ==> versions[i].index != versions[j].index,
    ensures
        moment_of(versions.take(n), versions[k].index->0) == versions[k].last_use_date,
    decreases n,
{
    let head = versions.take(n);
    assert(head.last() == versions[n - 1]);
    if n - 1 > k {
        assert(head.drop_last() =~= versions.take(n - 1));
        moment_of_found(versions, k, n - 1);
    }
}

/// The search for the latest version, as far as it has come, holds the
/// index of a version that is as late as each version looked at: the
/// current version, or the first that is later than all before it.
pub proof fn search_holds_latest(versions: Seq<VersionView>, n: int) -> (k: int)
    requires
        complete(versions, Needs::IndexTime),
        numbered(versions),
        0 <= n <= versions.len(),
    ensures
        0 <= k < versions.len(),
        versions[k].index == Some(latest_among(versions, n)),
        none_later(versions, k, n),
        latest_among(versions, n) == 0 || (k < n && first_so_late(versions, k)),
    decreases n,
{
    if n == 0 {
        choose|i: int| 0 <= i < versions.len() && versions[i].index == Some(0usize)
    } else {
        let held = search_holds_latest(versions, n - 1);
        moment_of_found(versions, held, versions.len() as int);
        assert(versions.take(versions.len() as int) =~= versions);
        let moment = versions[held].last_use_date->0;
        let version = versions[n - 1];
        if moment.is_before(version.last_use_date->0) {
            assert forall|j: int|
                0 <= j < versions.len() && (j < n - 1 || versions[j].index == Some(
                    0usize,
                )) implies versions[j].last_use_date->0.is_before(version.last_use_date->0) by {
                if j < n - 1 {
                    assert(!moment.is_before(versions[j].last_use_date->0));
                } else if versions[held].index == Some(0usize) {
                    assert(j == held) by {
                        if j < held {
                            assert(versions[j].index != versions[held].index);
                        } else if held < j {
                            assert(versions[held].index != versions[j].index);
                        }
                    }
                } else {
                    assert(versions[j].last_use_date->0.is_before(moment));
                }
            }
            n - 1
        } else {
            held
        }
    }
}

/// Finding the latest version finds a version than which none is later,
/// and among several that are as late the current one or else the first,
/// where no two versions share an index and one of them is the current one.
pub proof fn latest_is_latest(versions: Seq<VersionView>)
    requires
        complete(versions, Needs::IndexTime),
        numbered(versions),
    ensures
        is_latest(versions, latest_among(versions, versions.len() as int)),
{
    let latest = latest_among(versions, versions.len() as int);
    let k = search_holds_latest(versions, versions.len() as int);
    assert(0 <= k < versions.len() && versions[k].index == Some(latest) && none_later(
        versions,
        k,
        versions.len() as int,
    ) && (latest == 0 || first_so_late(versions, k)));
}

/// Tests whether the versions from place `from` on all bear the index of
/// the current version.
fn are_current(versions: &Vec<Version>, from: usize) -> (r: bool)
    requires
        from <= versions.len(),
    ensures
        r == only_current(versions.deep_view(), from as int),
{
    let mut i: usize = from;
    while i < versions.len()
        invariant
            from <= i <= versions.len(),
            forall|k: int|
                from <= k < i ==> (#[trigger] versions.deep_view()[k]).index == Some(0usize),
        decreases versions.len() - i,
    {
        assert(versions.deep_view()[i as int] == versions@[i as int]@);
        match versions[i].index {
            Some(0) => {},
            _ => {
                return false;
            },
        }
        i += 1;
    }
    true
}

/// Collects the actions that delete the files of the versions with the
/// given index.
fn delete_with_index(versions: &Vec<Version>, index: usize) -> (actions: Vec<Action>)
    requires
        complete(versions.deep_view(), Needs::IndexPath),
    ensures
        actions.deep_view() == deletions(versions.deep_view(), index),
{
    let mut actions: Vec<Action> = Vec::new();
    let mut i: usize = 0;
    assert(versions.deep_view().take(0) =~= Seq::empty());
    assert(actions.deep_view() =~= Seq::empty());
    while i < versions.len()
        invariant
            i <= versions.len(),
            complete(versions.deep_view(), Needs::IndexPath),
            actions.deep_view() == deletions(versions.deep_view().take(i as int), index),
        decreases versions.len() - i,
    {
        let ghost next = versions.deep_view().take(i + 1);
        let ghost before = actions.deep_view();
        proof {
            assert(next.drop_last() =~= versions.deep_view().take(i as int));
            assert(next.last() == versions@[i as int]@);
            assert(versions.deep_view()[i as int] == versions@[i as int]@);
        }
        let version = &versions[i];
        if version.index.unwrap() == index {
            let path = version.config_path.as_ref().unwrap();
            actions.push(Action::RemoveFile { path: path.clone() });
            assert(actions.deep_view() =~= before.push(ActionView::RemoveFile { path: path@ }));
        }
        i += 1;
    }
    assert(versions.deep_view().take(versions.len() as int) =~= versions.deep_view());
    actions
}

/// Looks up the time of the last of the versions that has the given index.
fn moment_with_index(versions: &Vec<Version>, index: usize) -> (r: Option<Moment>)
    ensures
        r == moment_of(versions.deep_view(), index),
{
    let mut i: usize = versions.len();
    assert(versions.deep_view().take(i as int) =~= versions.deep_view());
    while i > 0
        invariant
            i <= versions.len(),
            moment_of(versions.deep_view(), index) == moment_of(
                versions.deep_view().take(i as int),
                index,
            ),
        decreases i,
    {
        let ghost head = versions.deep_view().take(i as int);
        proof {
            assert(head.drop_last() =~= versions.deep_view().take(i - 1));
            assert(head.last() == versions@[i - 1]@);
        }
        let version = &versions[i - 1];
        if version.index == Some(index) {
            return version.last_use_date;
        }
        i -= 1;
    }
    None
}

impl AllVersions {
    /// The versions, where the history is fit for a use that reads `needs`
    /// of every version.
    pub fn usable_versions(&self, needs: Needs) -> (r: Result<&Vec<Version>, VersionError>)
        ensures
            match usable(self@, needs) {
                Ok(versions) => r is Ok && r->Ok_0.deep_view() == versions,
                Err(error) => r == Err::<&Vec<Version>, VersionError>(error),
            },
    {
        match &self.versions {
            None => Err(VersionError::NoVersions),
            Some(versions) => {
                if all_complete(versions, needs) {
                    Ok(versions)
                } else {
                    Err(VersionError::Incomplete)
                }
            },
        }
    }

    /// The lines that list the versions. Index, label and time of every
    /// version are read.
    pub fn list_versions(&self) -> (r: Result<Vec<String>, VersionError>)
        ensures
            match usable(self@, Needs::IndexLabelTime) {
                Ok(versions) => match all_shown(versions) {
                    Some(list) => r is Ok && r->Ok_0.deep_view() == list,
                    None => r == Err::<Vec<String>, VersionError>(VersionError::BadTime),
                },
                Err(error) => r == Err::<Vec<String>, VersionError>(error),
            },
    {
        let versions = match self.usable_versions(Needs::IndexLabelTime) {
            Ok(versions) => versions,
            Err(error) => {
                return Err(error);
            },
        };
        let mut list: Vec<String> = Vec::new();
        let mut i: usize = 0;
        assert(versions.deep_view().take(0) =~= Seq::empty());
        assert(list.deep_view() =~= Seq::empty());
        while i < versions.len()
            invariant
                i <= versions.len(),
                usable(self@, Needs::IndexLabelTime) == Ok::<Seq<VersionView>, VersionError>(
                    versions.deep_view(),
                ),
                complete(versions.deep_view(), Needs::IndexLabelTime),
                all_shown(versions.deep_view().take(i as int)) == Some(list.deep_view()),
            decreases versions.len() - i,
        {
            let ghost next = versions.deep_view().take(i + 1);
            let ghost before = list.deep_view();
            proof {
                assert(next.drop_last() =~= versions.deep_view().take(i as int));
                assert(next.last() == versions@[i as int]@);
                assert(versions.deep_view()[i as int] == versions@[i as int]@);
            }
            let version = &versions[i];
            let name = version.name.as_ref().unwrap();
            match format_moment(version.last_use_date.unwrap(), SHOWN_TIME) {
                Some(time) => {
                    list.push(
                        shown_line(
                            version.index.unwrap(),
                            name.as_str(),
                            time.as_str(),
                            version.selected,
                        ),
                    );
                    assert(list.deep_view() =~= before.push(shown(version@)->0));
                },
                None => {
                    proof {
                        showing_stops(versions.deep_view(), i + 1);
                    }
                    return Err(VersionError::BadTime);
                },
            }
            i += 1;
        }
        assert(versions.deep_view().take(versions.len() as int) =~= versions.deep_view());
        Ok(list)
    }

    /// Plans the deletion of the versions with the given index. The
    /// current version cannot be deleted. Index and path of every version
    /// are read.
    pub fn delete_version(&self, index: usize) -> (r: Result<Vec<Action>, VersionError>)
        ensures
            index == 0 ==> r == Err::<Vec<Action>, VersionError>(VersionError::IndexZero),
            index != 0 ==> match usable(self@, Needs::IndexPath) {
                Ok(versions) => if deletions(versions, index).len() == 0 {
                    r == Err::<Vec<Action>, VersionError>(VersionError::NotFound)
                } else {
                    r is Ok && r->Ok_0.deep_view() == deletions(versions, index)
                },
                Err(error) => r == Err::<Vec<Action>, VersionError>(error),
            },
    {
        if index == 0 {
            return Err(VersionError::IndexZero);
        }
        let versions = match self.usable_versions(Needs::IndexPath) {
            Ok(versions) => versions,
            Err(error) => {
                return Err(error);
            },
        };
        let actions = delete_with_index(versions, index);
        if actions.len() == 0 {
            Err(VersionError::NotFound)
        } else {
            Ok(actions)
        }
    }

    /// Plans the deletion of the last `number` versions of the list, each
    /// with all versions of its index. The current version stays.
    pub fn delete_last_versions(&self, number: usize) -> (r: Result<Vec<Action>, VersionError>)
        ensures
            match last_deletions(self@, number) {
                Ok(actions) => r is Ok && r->Ok_0.deep_view() == actions,
                Err(error) => r == Err::<Vec<Action>, VersionError>(error),
            },
    {
        let versions = match &self.versions {
            Some(versions) => versions,
            None => {
                return Err(VersionError::NoVersions);
            },
        };
        if number == 0 {
            return Err(VersionError::NothingToDelete);
        }
        if number >= versions.len() {
            return Err(VersionError::WouldDeleteCurrent);
        }
        if are_current(versions, versions.len() - number) {
            let nothing: Vec<Action> = Vec::new();
            assert(nothing.deep_view() =~= Seq::empty());
            return Ok(nothing);
        }
        if !all_complete(versions, Needs::IndexPath) {
            return Err(VersionError::Incomplete);
        }
        let first: usize = versions.len() - number;
        let mut actions: Vec<Action> = Vec::new();
        let mut i: usize = versions.len();
        assert(actions.deep_view() =~= Seq::empty());
        while i > first
            invariant
                first <= i <= versions.len(),
                complete(versions.deep_view(), Needs::IndexPath),
                actions.deep_view() == deletions_from(versions.deep_view(), i as int),
            decreases i,
        {
            let ghost before = actions.deep_view();
            let version = &versions[i - 1];
            assert(versions.deep_view()[i - 1] == version@);
            let index = version.index.unwrap();
            if index != 0 {
                let mut more = delete_with_index(versions, index);
                let ghost tail = more.deep_view();
                actions.append(&mut more);
                assert(actions.deep_view() =~= before + tail);
            } else {
                assert(actions.deep_view() =~= before + Seq::empty());
            }
            i -= 1;
        }
        Ok(actions)
    }

    /// The index of the latest version. Index and time of every version
    /// are read. Where no two versions share an index and one of them is
    /// the current one, no version is later than the one that is found, and
    /// among several that are as late the current one is found, or else
    /// the first.
    pub fn to_latest(&self) -> (r: Result<usize, VersionError>)
        ensures
            match usable(self@, Needs::IndexTime) {
                Ok(versions) => r == Ok::<usize, VersionError>(
                    latest_among(versions, versions.len() as int),
                ) && (numbered(versions) ==> is_latest(versions, r->Ok_0)),
                Err(error) => r == Err::<usize, VersionError>(error),
            },
    {
        let versions = match self.usable_versions(Needs::IndexTime) {
            Ok(versions) => versions,
            Err(error) => {
                return Err(error);
            },
        };
        let mut latest_index: usize = 0;
        let mut i: usize = 0;
        while i < versions.len()
            invariant
                i <= versions.len(),
                complete(versions.deep_view(), Needs::IndexTime),
                latest_index == latest_among(versions.deep_view(), i as int),
            decreases versions.len() - i,
        {
            let version = &versions[i];
            assert(versions.deep_view()[i as int] == version@);
            match moment_with_index(versions, latest_index) {
                Some(moment) => {
                    if moment.before(&version.last_use_date.unwrap()) {
                        latest_index = version.index.unwrap();
                    }
                },
                None => {},
            }
            i += 1;
        }
        proof {
            if numbered(versions.deep_view()) {
                latest_is_latest(versions.deep_view());
            }
        }
        Ok(latest_index)
    }
}

/// The versions in `sorted` with `version` put behind the last of them
/// whose index is not above its own.
pub open spec fn inserted(sorted: Seq<VersionView>, version: VersionView) -> Seq<VersionView>
    decreases sorted.len(),
{
    if sorted.len() == 0 || sorted.last().index->0 <= version.index->0 {
        sorted.push(version)
    } else {
        inserted(sorted.drop_last(), version).push(sorted.last())
    }
}

/// The versions in the order of their indexes; versions of the same index
/// keep the order that they had.
pub open spec fn sorted_by_index(versions: Seq<VersionView>) -> Seq<VersionView>
    decreases versions.len(),
{
    if versions.len() == 0 {
        Seq::empty()
    } else {
        inserted(sorted_by_index(versions.drop_last()), versions.last())
    }
}

/// The versions with their places in the list as their indexes.
pub open spec fn renumbered(versions: Seq<VersionView>) -> Seq<VersionView> {
    Seq::new(
        versions.len(),
        |i: int|
            VersionView {
                name: versions[i].name,
                index: Some(i as usize),
                selected: versions[i].selected,
                last_use_date: versions[i].last_use_date,
                config_path: versions[i].config_path,
            },
    )
}

/// Whether the indexes of the versions never fall from one version to the
/// next.
pub open spec fn ordered(versions: Seq<VersionView>) -> bool {
    forall|i: int, j: int|
        0 <= i <= j < versions.len() ==> versions[i].index->0 <= versions[j].index->0
}

/// A list with a version put into it holds that version and those that
/// were there, and no other.
pub proof fn inserted_holds(sorted: Seq<VersionView>, version: VersionView, other: VersionView)
    ensures
        inserted(sorted, version).contains(other) <==> other == version || sorted.contains(other),
        inserted(sorted, version).len() == sorted.len() + 1,
    decreases sorted.len(),
{
    let after = inserted(sorted, version);
    if sorted.len() == 0 || sorted.last().index->0 <= version.index->0 {
        if after.contains(other) {
            let k = choose|k: int| 0 <= k < after.len() && after[k] == other;
            if k < sorted.len() {
                assert(sorted[k] == other);
            }
        }
        if sorted.contains(other) {
            let k = choose|k: int| 0 <= k < sorted.len() && sorted[k] == other;
            assert(after[k] == other);
        }
        if other == version {
            assert(after[sorted.len() as int] == other);
        }
    } else {
        let front = sorted.drop_last();
        let middle = inserted(front, version);
        inserted_holds(front, version, other);
        if after.contains(other) {
            let k = choose|k: int| 0 <= k < after.len() && after[k] == other;
            if k < middle.len() {
                assert(middle[k] == other);
                assert(middle.contains(other));
                if other != version {
                    let m = choose|m: int| 0 <= m < front.len() && front[m] == other;
                    assert(sorted[m] == other);
                }
            } else {
                assert(sorted[sorted.len() - 1] == other);
            }
        }
        if other == version || front.contains(other) {
            assert(middle.contains(other));
            let m = choose|m: int| 0 <= m < middle.len() && middle[m] == other;
            assert(after[m] == other);
        }
        if sorted.contains(other) {
            let k = choose|k: int| 0 <= k < sorted.len() && sorted[k] == other;
            if k < front.len() {
                assert(front[k] == other);
                assert(front.contains(other));
            } else {
                assert(after[after.len() - 1] == other);
            }
        }
    }
}

/// Putting a version into an ordered list leaves the list ordered.
pub proof fn inserted_keeps_order(sorted: Seq<VersionView>, version: VersionView)
    requires
        ordered(sorted),
    ensures
        ordered(inserted(sorted, version)),
    decreases sorted.len(),
{
    let after = inserted(sorted, version);
    inserted_holds(sorted, version, version);
    if sorted.len() == 0 || sorted.last().index->0 <= version.index->0 {
        assert forall|i: int, j: int| 0 <= i <= j < after.len() implies after[i].index->0
            <= after[j].index->0 by {
            if j == sorted.len() && i < j {
                assert(sorted[i].index->0 <= sorted[sorted.len() - 1].index->0);
            }
        }
    } else {
        let front = sorted.drop_last();
        let middle = inserted(front, version);
        assert forall|i: int, j: int| 0 <= i <= j < front.len() implies front[i].index->0
            <= front[j].index->0 by {
            assert(front[i] == sorted[i] && front[j] == sorted[j]);
        }
        inserted_keeps_order(front, version);
        inserted_holds(front, version, version);
        assert forall|i: int, j: int| 0 <= i <= j < after.len() implies after[i].index->0
            <= after[j].index->0 by {
            if j == after.len() - 1 && i < j {
                assert(middle[i] == after[i]);
                assert(middle.contains(middle[i]));
                inserted_holds(front, version, middle[i]);
                if middle[i] != version {
                    let k = choose|k: int| 0 <= k < front.len() && front[k] == middle[i];
                    assert(sorted[k] == middle[i]);
                    assert(sorted[k].index->0 <= sorted[sorted.len() - 1].index->0);
                }
            } else if j < after.len() - 1 {
                assert(middle[i] == after[i] && middle[j] == after[j]);
            }
        }
    }
}

/// Sorting by index neither adds nor drops a version.
pub proof fn sorting_holds(versions: Seq<VersionView>, other: VersionView)
    ensures
        sorted_by_index(versions).contains(other) <==> versions.contains(other),
        sorted_by_index(versions).len() == versions.len(),
    decreases versions.len(),
{
    if versions.len() > 0 {
        let front = versions.drop_last();
        sorting_holds(front, other);
        inserted_holds(sorted_by_index(front), versions.last(), other);
        if versions.contains(other) {
            let k = choose|k: int| 0 <= k < versions.len() && versions[k] == other;
            if k < front.len() {
                assert(front[k] == other);
            }
        }
        if front.contains(other) {
            let k = choose|k: int| 0 <= k < front.len() && front[k] == other;
            assert(versions[k] == other);
        }
        assert(versions[versions.len() - 1] == versions.last());
    } else {
        assert(!sorted_by_index(versions).contains(other));
    }
}

/// Sorting by index orders the versions.
pub proof fn sorting_orders(versions: Seq<VersionView>)
    ensures
        ordered(sorted_by_index(versions)),
    decreases versions.len(),
{
    if versions.len() > 0 {
        sorting_orders(versions.drop_last());
        inserted_keeps_order(sorted_by_index(versions.drop_last()), versions.last());
    }
}

/// Tests whether the index of a version is above `index`.
fn is_above(version: &Version, index: usize) -> (r: bool)
    ensures
        r == (version@.index is Some && version@.index->0 > index),
{
    match version.index {
        Some(other) => other > index,
        None => false,
    }
}

/// Puts a version into a list that is sorted by index.
fn insert_by_index(sorted: &mut Vec<Version>, version: Version)
    requires
        complete(old(sorted).deep_view(), Needs::Index),
        version@.index is Some,
    ensures
        final(sorted).deep_view() == inserted(old(sorted).deep_view(), version@),
{
    let ghost list = sorted.deep_view();
    let index = version.index.unwrap();
    let mut place: usize = sorted.len();
    assert(list.take(place as int) =~= list);
    assert(list.skip(place as int) =~= Seq::empty());
    assert(inserted(list, version@) =~= inserted(list.take(place as int), version@)
        + list.skip(place as int));
    while place > 0 && is_above(&sorted[place - 1], index)
        invariant
            place <= sorted.len(),
            list == sorted.deep_view(),
            complete(list, Needs::Index),
            version@.index == Some(index),
            inserted(list, version@) == inserted(list.take(place as int), version@) + list.skip(
                place as int,
            ),
        decreases place,
    {
        let ghost head = list.take(place as int);
        proof {
            assert(head.last() == list[place - 1]);
            assert(list[place - 1] == sorted@[place - 1]@);
            assert(head.drop_last() =~= list.take(place - 1));
            assert(inserted(head, version@) == inserted(list.take(place - 1), version@).push(
                list[place - 1],
            ));
            assert(inserted(list.take(place - 1), version@).push(list[place - 1]) + list.skip(
                place as int,
            ) =~= inserted(list.take(place - 1), version@) + list.skip(place - 1));
        }
        place -= 1;
    }
    proof {
        let head = list.take(place as int);
        if place > 0 {
            assert(head.last() == list[place - 1]);
            assert(list[place - 1] == sorted@[place - 1]@);
        }
        assert(inserted(head, version@) == head.push(version@));
        assert(head.push(version@) + list.skip(place as int) =~= list.insert(
            place as int,
            version@,
        ));
    }
    sorted.insert(place, version);
    assert(sorted.deep_view() =~= list.insert(place as int, version@));
}

/// The name of a file after the index in it has been replaced: what
/// follows the first two underscores behind the last slash of `path`, led
/// by `index` and two underscores, in the directory of the versions. The
/// path stays as it is when it holds `index` already.
pub open spec fn path_with_index(path: Seq<char>, index: usize) -> Result<Seq<char>, VersionError> {
    match split_once(split(path, "/"@).last(), "__"@) {
        Some(halves) => match parse_unsigned(halves.0, usize::MAX as nat) {
            Some(found) => Ok(
                if found == index {
                    path
                } else {
                    inside(CONFIG_DIR_PATH@, decimal(index as nat) + "__"@ + halves.1)
                },
            ),
            None => Err(VersionError::BadIndex),
        },
        None => Err(VersionError::WrongFileName),
    }
}

/// Writes the name of a file after the index in it has been replaced.
pub fn replace_index(path: &str, index: usize) -> (r: Result<String, VersionError>)
    ensures
        match path_with_index(path@, index) {
            Ok(renamed) => r is Ok && r->Ok_0@ == renamed,
            Err(error) => r == Err::<String, VersionError>(error),
        },
{
    let parts = pieces(path, "/");
    let file = &parts[parts.len() - 1];
    assert(parts.deep_view().last() == file@);
    match cut_once(file.as_str(), "__") {
        Some(halves) => match parse_number(halves.0.as_str(), usize::MAX) {
            Some(found) => {
                if found == index {
                    Ok(String::from_str(path))
                } else {
                    let mut name = decimal_text(index);
                    name.append("__");
                    name.append(halves.1.as_str());
                    Ok(path_inside(CONFIG_DIR_PATH, name.as_str()))
                }
            },
            None => Err(VersionError::BadIndex),
        },
        None => Err(VersionError::WrongFileName),
    }
}

/// The versions with the paths that their indexes ask for.
pub open spec fn paths_updated(versions: Seq<VersionView>) -> Result<
    Seq<VersionView>,
    VersionError,
>
    decreases versions.len(),
{
    if versions.len() == 0 {
        Ok(Seq::empty())
    } else {
        match paths_updated(versions.drop_last()) {
            Ok(before) => {
                let version = versions.last();
                match path_with_index(version.config_path->0, version.index->0) {
                    Ok(path) => Ok(
                        before.push(
                            VersionView {
                                name: version.name,
                                index: version.index,
                                selected: version.selected,
                                last_use_date: version.last_use_date,
                                config_path: Some(path),
                            },
                        ),
                    ),
                    Err(error) => Err(error),
                }
            },
            Err(error) => Err(error),
        }
    }
}

/// A path that cannot be updated is the result, whatever versions follow.
proof fn updating_stops(versions: Seq<VersionView>, n: int)
    requires
        0 <= n <= versions.len(),
        paths_updated(versions.take(n)) is Err,
    ensures
        paths_updated(versions) == paths_updated(versions.take(n)),
    decreases versions.len(),
{
    if n == versions.len() {
        assert(versions.take(n) =~= versions);
    } else {
        assert(versions.drop_last().take(n) =~= versions.take(n));
        updating_stops(versions.drop_last(), n);
    }
}

/// The actions that give the file of each version of `before` the name of
/// the version at the same place in `after`.
pub open spec fn renames(before: Seq<VersionView>, after: Seq<VersionView>) -> Seq<ActionView> {
    Seq::new(
        before.len(),
        |i: int|
            ActionView::Rename { from: before[i].config_path->0, to: after[i].config_path->0 },
    )
}

/// The renaming of the files of the history `before` to the names of the
/// history `after`. Both have to hold versions, equally many, and the path
/// of each.
pub open spec fn renaming(after: AllVersionsView, before: AllVersionsView) -> Result<
    Seq<ActionView>,
    VersionError,
> {
    match (after.versions, before.versions) {
        (Some(new_versions), Some(old_versions)) => if old_versions.len() != new_versions.len() {
            Err(VersionError::LengthMismatch)
        } else if complete(new_versions, Needs::Path) && complete(old_versions, Needs::Path) {
            Ok(renames(old_versions, new_versions))
        } else {
            Err(VersionError::Incomplete)
        },
        _ => Err(VersionError::NoVersions),
    }
}

impl AllVersions {
    /// Puts the versions in the order of their indexes and numbers them
    /// anew from 0 on, so that no index is left out. Only the index of
    /// every version is read; what else a version holds, or lacks, stays.
    pub fn align_version_indexes(&mut self) -> (r: Result<(), VersionError>)
        ensures
            final(self).selected == old(self).selected,
            final(self).current == old(self).current,
            match usable(old(self)@, Needs::Index) {
                Ok(versions) => r is Ok && final(self)@.versions == Some(
                    renumbered(sorted_by_index(versions)),
                ),
                Err(error) => r == Err::<(), VersionError>(error) && final(self).versions == old(
                    self,
                ).versions,
            },
    {
        let versions = match self.usable_versions(Needs::Index) {
            Ok(versions) => versions,
            Err(error) => {
                return Err(error);
            },
        };
        let mut sorted: Vec<Version> = Vec::new();
        let mut i: usize = 0;
        assert(versions.deep_view().take(0) =~= Seq::empty());
        assert(sorted.deep_view() =~= Seq::empty());
        while i < versions.len()
            invariant
                i <= versions.len(),
                complete(versions.deep_view(), Needs::Index),
                complete(sorted.deep_view(), Needs::Index),
                sorted.deep_view() == sorted_by_index(versions.deep_view().take(i as int)),
            decreases versions.len() - i,
        {
            let ghost next = versions.deep_view().take(i + 1);
            let ghost before = sorted.deep_view();
            proof {
                assert(next.drop_last() =~= versions.deep_view().take(i as int));
                assert(next.last() == versions@[i as int]@);
                assert(versions.deep_view()[i as int] == versions@[i as int]@);
            }
            insert_by_index(&mut sorted, versions[i].duplicate());
            proof {
                let after = sorted.deep_view();
                assert forall|k: int| 0 <= k < after.len() implies has(
                    #[trigger] after[k],
                    Needs::Index,
                ) by {
                    assert(after.contains(after[k]));
                    inserted_holds(before, versions@[i as int]@, after[k]);
                    if after[k] != versions@[i as int]@ {
                        let m = choose|m: int| 0 <= m < before.len() && before[m] == after[k];
                        assert(before[m].index is Some);
                    }
                }
            }
            i += 1;
        }
        assert(versions.deep_view().take(versions.len() as int) =~= versions.deep_view());
        let mut aligned: Vec<Version> = Vec::new();
        let mut counter: usize = 0;
        while counter < sorted.len()
            invariant
                counter <= sorted.len(),
                aligned.len() == counter,
                forall|k: int|
                    0 <= k < counter ==> aligned@[k]@ == renumbered(sorted.deep_view())[k],
            decreases sorted.len() - counter,
        {
            let version = &sorted[counter];
            assert(sorted.deep_view()[counter as int] == version@);
            aligned.push(
                Version {
                    name: version.name.duplicate(),
                    index: Some(counter),
                    selected: version.selected,
                    last_use_date: version.last_use_date,
                    config_path: version.config_path.duplicate(),
                },
            );
            counter += 1;
        }
        assert(aligned.deep_view() =~= renumbered(sorted.deep_view()));
        self.versions = Some(aligned);
        Ok(())
    }

    /// Gives every version the path that its index asks for. Index and
    /// path of every version are read.
    pub fn update_indexes_to_path(&mut self) -> (r: Result<(), VersionError>)
        ensures
            final(self).selected == old(self).selected,
            final(self).current == old(self).current,
            match usable(old(self)@, Needs::IndexPath) {
                Ok(versions) => match paths_updated(versions) {
                    Ok(updated) => r is Ok && final(self)@.versions == Some(updated),
                    Err(error) => r == Err::<(), VersionError>(error) && final(self).versions
                        == old(self).versions,
                },
                Err(error) => r == Err::<(), VersionError>(error) && final(self).versions == old(
                    self,
                ).versions,
            },
    {
        let versions = match self.usable_versions(Needs::IndexPath) {
            Ok(versions) => versions,
            Err(error) => {
                return Err(error);
            },
        };
        let mut updated: Vec<Version> = Vec::new();
        let mut i: usize = 0;
        assert(versions.deep_view().take(0) =~= Seq::empty());
        assert(updated.deep_view() =~= Seq::empty());
        while i < versions.len()
            invariant
                i <= versions.len(),
                usable(old(self)@, Needs::IndexPath) == Ok::<Seq<VersionView>, VersionError>(
                    versions.deep_view(),
                ),
                *self == *old(self),
                complete(versions.deep_view(), Needs::IndexPath),
                paths_updated(versions.deep_view().take(i as int)) == Ok::<
                    Seq<VersionView>,
                    VersionError,
                >(updated.deep_view()),
            decreases versions.len() - i,
        {
            let ghost next = versions.deep_view().take(i + 1);
            let ghost before = updated.deep_view();
            proof {
                assert(next.drop_last() =~= versions.deep_view().take(i as int));
                assert(next.last() == versions@[i as int]@);
                assert(versions.deep_view()[i as int] == versions@[i as int]@);
            }
            let version = &versions[i];
            let path = version.config_path.as_ref().unwrap();
            match replace_index(path.as_str(), version.index.unwrap()) {
                Ok(renamed) => {
                    let ghost name = renamed@;
                    updated.push(
                        Version {
                            name: version.name.duplicate(),
                            index: version.index,
                            selected: version.selected,
                            last_use_date: version.last_use_date,
                            config_path: Some(renamed),
                        },
                    );
                    assert(updated.deep_view() =~= before.push(
                        VersionView {
                            name: version@.name,
                            index: version@.index,
                            selected: version@.selected,
                            last_use_date: version@.last_use_date,
                            config_path: Some(name),
                        },
                    ));
                },
                Err(error) => {
                    proof {
                        updating_stops(versions.deep_view(), i + 1);
                    }
                    return Err(error);
                },
            }
            i += 1;
        }
        assert(versions.deep_view().take(versions.len() as int) =~= versions.deep_view());
        self.versions = Some(updated);
        Ok(())
    }

    /// Plans the renaming of the files: `before` is the history as the
    /// directory holds it, this one the history as it should be, and the
    /// file of each version gets the name of the version at the same place.
    /// Only the path of every version is read.
    pub fn update_paths(&self, before: &AllVersions) -> (r: Result<Vec<Action>, VersionError>)
        ensures
            match renaming(self@, before@) {
                Ok(actions) => r is Ok && r->Ok_0.deep_view() == actions,
                Err(error) => r == Err::<Vec<Action>, VersionError>(error),
            },
    {
        let (after, old_versions) = match (&self.versions, &before.versions) {
            (Some(after), Some(old_versions)) => (after, old_versions),
            _ => {
                return Err(VersionError::NoVersions);
            },
        };
        if old_versions.len() != after.len() {
            return Err(VersionError::LengthMismatch);
        }
        if !all_complete(after, Needs::Path) || !all_complete(old_versions, Needs::Path) {
            return Err(VersionError::Incomplete);
        }
        let mut actions: Vec<Action> = Vec::new();
        let mut i: usize = 0;
        while i < after.len()
            invariant
                i <= after.len(),
                old_versions.len() == after.len(),
                complete(after.deep_view(), Needs::Path),
                complete(old_versions.deep_view(), Needs::Path),
                actions.len() == i,
                forall|k: int|
                    0 <= k < i ==> actions@[k]@ == renames(
                        old_versions.deep_view(),
                        after.deep_view(),
                    )[k],
            decreases after.len() - i,
        {
            assert(after.deep_view()[i as int] == after@[i as int]@);
            assert(old_versions.deep_view()[i as int] == old_versions@[i as int]@);
            let from = old_versions[i].config_path.as_ref().unwrap();
            let to = after[i].config_path.as_ref().unwrap();
            actions.push(Action::Rename { from: from.clone(), to: to.clone() });
            i += 1;
        }
        assert(actions.deep_view() =~= renames(old_versions.deep_view(), after.deep_view()));
        Ok(actions)
    }
}

/// The highest index among the versions; the current version does not
/// count.
pub open spec fn highest_index(versions: Seq<VersionView>) -> usize
    decreases versions.len(),
{
    if versions.len() == 0 {
        0
    } else {
        let before = highest_index(versions.drop_last());
        let index = versions.last().index->0;
        if index > before {
            index
        } else {
            before
        }
    }
}

/// The last of the versions that has the given index.
pub open spec fn last_with_index(versions: Seq<VersionView>, index: usize) -> Option<VersionView>
    decreases versions.len(),
{
    if versions.len() == 0 {
        None
    } else if versions.last().index == Some(index) {
        Some(versions.last())
    } else {
        last_with_index(versions.drop_last(), index)
    }
}

/// Finds the highest index among the versions.
fn find_highest(versions: &Vec<Version>) -> (highest: usize)
    requires
        complete(versions.deep_view(), Needs::Index),
    ensures
        highest == highest_index(versions.deep_view()),
{
    let mut highest: usize = 0;
    let mut i: usize = 0;
    assert(versions.deep_view().take(0) =~= Seq::empty());
    while i < versions.len()
        invariant
            i <= versions.len(),
            complete(versions.deep_view(), Needs::Index),
            highest == highest_index(versions.deep_view().take(i as int)),
        decreases versions.len() - i,
    {
        let ghost next = versions.deep_view().take(i + 1);
        proof {
            assert(next.drop_last() =~= versions.deep_view().take(i as int));
            assert(next.last() == versions@[i as int]@);
            assert(versions.deep_view()[i as int] == versions@[i as int]@);
        }
        let index = versions[i].index.unwrap();
        if index > highest {
            highest = index;
        }
        i += 1;
    }
    assert(versions.deep_view().take(versions.len() as int) =~= versions.deep_view());
    highest
}

/// Finds the last of the versions that has the given index.
fn find_last<'a>(versions: &'a Vec<Version>, index: usize) -> (r: Option<&'a Version>)
    ensures
        r.deep_view() == last_with_index(versions.deep_view(), index),
{
    let mut i: usize = versions.len();
    assert(versions.deep_view().take(i as int) =~= versions.deep_view());
    while i > 0
        invariant
            i <= versions.len(),
            last_with_index(versions.deep_view(), index) == last_with_index(
                versions.deep_view().take(i as int),
                index,
            ),
        decreases i,
    {
        let ghost head = versions.deep_view().take(i as int);
        proof {
            assert(head.drop_last() =~= versions.deep_view().take(i - 1));
            assert(head.last() == versions@[i - 1]@);
        }
        if versions[i - 1].index == Some(index) {
            return Some(&versions[i - 1]);
        }
        i -= 1;
    }
    None
}

/// The action that moves the current version behind all others: its file
/// keeps its label and its time, and gets the index behind the highest.
pub open spec fn archived(versions: Seq<VersionView>, current: VersionView) -> Result<
    ActionView,
    VersionError,
> {
    match split_once(current.config_path->0, "/0__"@) {
        Some(halves) => if highest_index(versions) == usize::MAX {
            Err(VersionError::BadIndex)
        } else {
            Ok(
                ActionView::Rename {
                    from: current.config_path->0,
                    to: inside(
                        CONFIG_DIR_PATH@,
                        decimal((highest_index(versions) + 1) as nat) + "__"@ + halves.1,
                    ),
                },
            )
        },
        None => Err(VersionError::WrongFileName),
    }
}

/// Plans moving the current version behind all others.
fn archive(versions: &Vec<Version>, current: &Version) -> (r: Result<Action, VersionError>)
    requires
        complete(versions.deep_view(), Needs::Index),
        current@.config_path is Some,
    ensures
        match archived(versions.deep_view(), current@) {
            Ok(action) => r is Ok && r->Ok_0@ == action,
            Err(error) => r == Err::<Action, VersionError>(error),
        },
{
    let path = current.config_path.as_ref().unwrap();
    match cut_once(path.as_str(), "/0__") {
        Some(halves) => {
            let highest = find_highest(versions);
            if highest == usize::MAX {
                return Err(VersionError::BadIndex);
            }
            let mut name = decimal_text(highest + 1);
            name.append("__");
            name.append(halves.1.as_str());
            Ok(
                Action::Rename {
                    from: path.clone(),
                    to: path_inside(CONFIG_DIR_PATH, name.as_str()),
                },
            )
        },
        None => Err(VersionError::WrongFileName),
    }
}

/// What is known of whether the configuration in use equals the current
/// version: both files have to be readable.
pub open spec fn unchanged(findings: Seq<FindingView>, current: VersionView) -> ProbeView<bool> {
    match required_text(findings, Inquiry::ReadFile, CONFIG_PATH@, Fault::Unreadable) {
        ProbeView::Done(config) => match required_text(
            findings,
            Inquiry::ReadFile,
            current.config_path->0,
            Fault::Unreadable,
        ) {
            ProbeView::Done(committed) => ProbeView::Done(config == committed),
            ProbeView::Ask(question) => ProbeView::Ask(question),
            ProbeView::Failed(error) => ProbeView::Failed(error),
        },
        ProbeView::Ask(question) => ProbeView::Ask(question),
        ProbeView::Failed(error) => ProbeView::Failed(error),
    }
}

/// Decides from the findings whether the configuration in use equals the
/// current version.
fn is_unchanged(findings: &Vec<Finding>, current: &Version) -> (r: Probe<bool>)
    requires
        current@.config_path is Some,
    ensures
        r.deep_view() == unchanged(findings.deep_view(), current@),
{
    let config = match require_text(findings, Inquiry::ReadFile, CONFIG_PATH, Fault::Unreadable) {
        Probe::Done(config) => config,
        Probe::Ask(question) => {
            return Probe::Ask(question);
        },
        Probe::Failed(error) => {
            return Probe::Failed(error);
        },
    };
    let path = current.config_path.as_ref().unwrap();
    match require_text(findings, Inquiry::ReadFile, path.as_str(), Fault::Unreadable) {
        Probe::Done(committed) => Probe::Done(config.same(&committed)),
        Probe::Ask(question) => Probe::Ask(question),
        Probe::Failed(error) => Probe::Failed(error),
    }
}

/// The label that a line typed by the user gives to a commit: the line
/// without the white space around it. A line that holds nothing, or that
/// holds two underscores in a row, gives none.
pub open spec fn label_of(line: Seq<char>) -> Result<Seq<char>, VersionError> {
    if line == "\n"@ {
        Err(VersionError::EmptyMessage)
    } else if contains(line, "__"@) {
        Err(VersionError::MessageWithSeparator)
    } else {
        Ok(trim(line))
    }
}

/// Reads the label of a commit off the line that the user typed.
pub fn commit_message(line: &str) -> (r: Result<String, VersionError>)
    ensures
        match label_of(line@) {
            Ok(label) => r is Ok && r->Ok_0@ == label,
            Err(error) => r == Err::<String, VersionError>(error),
        },
{
    if equal(line, "\n") {
        Err(VersionError::EmptyMessage)
    } else if includes(line, "__") {
        Err(VersionError::MessageWithSeparator)
    } else {
        Ok(trimmed(line))
    }
}

/// The file of a new current version with the given label, made at the
/// given time.
pub open spec fn new_current(message: Seq<char>, time: Seq<char>) -> Seq<char> {
    inside(CONFIG_DIR_PATH@, "0__"@ + message + "__"@ + time + ".toml"@)
}

/// A commit at a time that is written as `time`. The configuration in use
/// has to differ from the current version. The current version is moved
/// behind all others, and the configuration in use is archived as the new
/// current version, under the given label and the given time. The index of
/// every version is read, and the path of the current one.
pub open spec fn commit_plan_at(
    history: AllVersionsView,
    findings: Seq<FindingView>,
    message: Seq<char>,
    time: Seq<char>,
) -> Result<ProbeView<Seq<ActionView>>, VersionError> {
    match usable(history, Needs::Index) {
        Ok(versions) => match last_with_index(versions, 0) {
            Some(current) => if current.config_path is None {
                Err(VersionError::Incomplete)
            } else {
                match unchanged(findings, current) {
                    ProbeView::Done(same) => if same {
                        Err(VersionError::NoChanges)
                    } else {
                        match archived(versions, current) {
                            Ok(archive) => Ok(
                                ProbeView::Done(
                                    seq![
                                        archive,
                                        ActionView::Copy {
                                            from: CONFIG_PATH@,
                                            to: new_current(message, time),
                                        },
                                    ],
                                ),
                            ),
                            Err(error) => Err(error),
                        }
                    },
                    ProbeView::Ask(question) => Ok(ProbeView::Ask(question)),
                    ProbeView::Failed(error) => Ok(ProbeView::Failed(error)),
                }
            },
            None => Err(VersionError::NoCurrent),
        },
        Err(error) => Err(error),
    }
}

/// A commit where the time may not be writable: without a written time
/// there is no plan, but what stops the commit before the time is needed
/// stops it as ever.
pub open spec fn commit_plan_with(
    history: AllVersionsView,
    findings: Seq<FindingView>,
    message: Seq<char>,
    time: Option<Seq<char>>,
) -> Result<ProbeView<Seq<ActionView>>, VersionError> {
    match time {
        Some(written) => commit_plan_at(history, findings, message, written),
        None => match commit_plan_at(history, findings, message, Seq::empty()) {
            Ok(ProbeView::Done(_)) => Err(VersionError::BadTime),
            other => other,
        },
    }
}

/// A commit at the moment `now`.
pub open spec fn commit_plan(
    history: AllVersionsView,
    findings: Seq<FindingView>,
    message: Seq<char>,
    now: Moment,
) -> Result<ProbeView<Seq<ActionView>>, VersionError> {
    commit_plan_with(
        history,
        findings,
        message,
        formatted_moment(now.seconds, now.nanos, COMMIT_TIME@),
    )
}

/// The file of the version that a rollback makes current: what follows the
/// first two underscores of its path, as the version with index 0.
pub open spec fn restored(path: Seq<char>) -> Option<Seq<char>> {
    match split_once(path, "__"@) {
        Some(halves) => Some(inside(CONFIG_DIR_PATH@, "0__"@ + halves.1)),
        None => None,
    }
}

/// A rollback to the version with the given index, which is not 0 and has
/// to be there. The configuration in use has to equal the current
/// version. The current version is moved behind all others, the version
/// with the given index becomes the current one, and its file is copied to
/// the configuration in use. The index of every version is read, and the
/// paths of the current version and of the one to go back to.
pub open spec fn rollback_plan(history: AllVersionsView, findings: Seq<FindingView>, index: usize)
    -> Result<ProbeView<Seq<ActionView>>, VersionError> {
    if index == 0 {
        Err(VersionError::IndexZero)
    } else {
        match usable(history, Needs::Index) {
            Ok(versions) => match last_with_index(versions, index) {
                Some(target) => match last_with_index(versions, 0) {
                    Some(current) => if current.config_path is None || target.config_path
                        is None {
                        Err(VersionError::Incomplete)
                    } else {
                        match unchanged(findings, current) {
                            ProbeView::Done(same) => if !same {
                                Err(VersionError::UncommittedChanges)
                            } else {
                                match archived(versions, current) {
                                    Ok(archive) => match restored(target.config_path->0) {
                                        Some(path) => Ok(
                                            ProbeView::Done(
                                                seq![
                                                    archive,
                                                    ActionView::Rename {
                                                        from: target.config_path->0,
                                                        to: path,
                                                    },
                                                    ActionView::Copy {
                                                        from: path,
                                                        to: CONFIG_PATH@,
                                                    },
                                                ],
                                            ),
                                        ),
                                        None => Err(VersionError::WrongFileName),
                                    },
                                    Err(error) => Err(error),
                                }
                            },
                            ProbeView::Ask(question) => Ok(ProbeView::Ask(question)),
                            ProbeView::Failed(error) => Ok(ProbeView::Failed(error)),
                        }
                    },
                    None => Err(VersionError::NoCurrent),
                },
                None => Err(VersionError::NotFound),
            },
            Err(error) => Err(error),
        }
    }
}

/// The path of the last of the versions that has the given index, as far
/// as it is known: nothing where no version has the index, no path where the
/// version lacks its path.
pub open spec fn path_of(versions: Seq<VersionView>, index: usize) -> Option<Option<Seq<char>>> {
    match last_with_index(versions, index) {
        Some(version) => Some(version.config_path),
        None => None,
    }
}

/// The two files that a comparison of versions reads: the version with the
/// first index, or the configuration in use where `diff_to_current` says
/// so, and the version with the second index. The index of every version is
/// read, and the paths of the versions that are compared.
pub open spec fn compared_paths(
    history: AllVersionsView,
    index1: usize,
    index2: usize,
    diff_to_current: bool,
) -> Result<(Seq<char>, Seq<char>), VersionError> {
    match usable(history, Needs::Index) {
        Ok(versions) => {
            let first = if diff_to_current {
                Some(Some(CONFIG_PATH@))
            } else {
                path_of(versions, index1)
            };
            match (first, path_of(versions, index2)) {
                (Some(Some(one)), Some(Some(other))) => Ok((one, other)),
                (Some(_), Some(_)) => Err(VersionError::Incomplete),
                _ => Err(VersionError::NotFound),
            }
        },
        Err(error) => Err(error),
    }
}

impl AllVersions {
    /// Plans a commit under the given label at a time that is written as
    /// `time`.
    pub fn commit_at(&self, findings: &Vec<Finding>, message: &str, time: &str) -> (r: Result<
        Probe<Vec<Action>>,
        VersionError,
    >)
        ensures
            match commit_plan_at(self@, findings.deep_view(), message@, time@) {
                Ok(plan) => r is Ok && r->Ok_0.deep_view() == plan,
                Err(error) => r == Err::<Probe<Vec<Action>>, VersionError>(error),
            },
    {
        let versions = match self.usable_versions(Needs::Index) {
            Ok(versions) => versions,
            Err(error) => {
                return Err(error);
            },
        };
        let current = match find_last(versions, 0) {
            Some(current) => current,
            None => {
                return Err(VersionError::NoCurrent);
            },
        };
        if current.config_path.is_none() {
            return Err(VersionError::Incomplete);
        }
        match is_unchanged(findings, current) {
            Probe::Done(same) => {
                if same {
                    return Err(VersionError::NoChanges);
                }
            },
            Probe::Ask(question) => {
                return Ok(Probe::Ask(question));
            },
            Probe::Failed(error) => {
                return Ok(Probe::Failed(error));
            },
        }
        let archive_current = match archive(versions, current) {
            Ok(action) => action,
            Err(error) => {
                return Err(error);
            },
        };
        let mut name = combine("0__", message);
        name.append("__");
        name.append(time);
        name.append(".toml");
        let mut actions: Vec<Action> = Vec::new();
        actions.push(archive_current);
        actions.push(
            Action::Copy {
                from: String::from_str(CONFIG_PATH),
                to: path_inside(CONFIG_DIR_PATH, name.as_str()),
            },
        );
        assert(actions.deep_view() =~= seq![
            archive_current@,
            ActionView::Copy { from: CONFIG_PATH@, to: new_current(message@, time@) },
        ]);
        Ok(Probe::Done(actions))
    }

    /// Plans a commit under the given label, given the time as it could be
    /// written, if it could.
    pub fn commit_with(&self, findings: &Vec<Finding>, message: &str, time: Option<String>) -> (r:
        Result<Probe<Vec<Action>>, VersionError>)
        ensures
            match commit_plan_with(self@, findings.deep_view(), message@, time.deep_view()) {
                Ok(plan) => r is Ok && r->Ok_0.deep_view() == plan,
                Err(error) => r == Err::<Probe<Vec<Action>>, VersionError>(error),
            },
    {
        match time {
            Some(written) => self.commit_at(findings, message, written.as_str()),
            None => {
                let none = String::new();
                assert(none@ =~= Seq::<char>::empty());
                match self.commit_at(findings, message, none.as_str()) {
                    Ok(Probe::Done(_)) => Err(VersionError::BadTime),
                    other => other,
                }
            },
        }
    }

    /// Plans a commit under the given label at the given moment.
    pub fn commit(&self, findings: &Vec<Finding>, message: &str, now: Moment) -> (r: Result<
        Probe<Vec<Action>>,
        VersionError,
    >)
        ensures
            match commit_plan(self@, findings.deep_view(), message@, now) {
                Ok(plan) => r is Ok && r->Ok_0.deep_view() == plan,
                Err(error) => r == Err::<Probe<Vec<Action>>, VersionError>(error),
            },
    {
        self.commit_with(findings, message, format_moment(now, COMMIT_TIME))
    }

    /// Plans a commit under the given label at the time of the call,
    /// whatever that time is.
    pub fn commit_now(&self, findings: &Vec<Finding>, message: &str) -> (r: Result<
        Probe<Vec<Action>>,
        VersionError,
    >)
        ensures
            exists|now: Moment|
                match #[trigger] commit_plan(self@, findings.deep_view(), message@, now) {
                    Ok(plan) => r is Ok && r->Ok_0.deep_view() == plan,
                    Err(error) => r == Err::<Probe<Vec<Action>>, VersionError>(error),
                },
    {
        let now = current_moment();
        let r = self.commit(findings, message, now);
        assert(match commit_plan(self@, findings.deep_view(), message@, now) {
            Ok(plan) => r is Ok && r->Ok_0.deep_view() == plan,
            Err(error) => r == Err::<Probe<Vec<Action>>, VersionError>(error),
        });
        r
    }

    /// Plans a rollback to the version with the given index.
    pub fn rollback(&self, index: usize, findings: &Vec<Finding>) -> (r: Result<
        Probe<Vec<Action>>,
        VersionError,
    >)
        ensures
            match rollback_plan(self@, findings.deep_view(), index) {
                Ok(plan) => r is Ok && r->Ok_0.deep_view() == plan,
                Err(error) => r == Err::<Probe<Vec<Action>>, VersionError>(error),
            },
    {
        if index == 0 {
            return Err(VersionError::IndexZero);
        }
        let versions = match self.usable_versions(Needs::Index) {
            Ok(versions) => versions,
            Err(error) => {
                return Err(error);
            },
        };
        let target = match find_last(versions, index) {
            Some(target) => target,
            None => {
                return Err(VersionError::NotFound);
            },
        };
        let current = match find_last(versions, 0) {
            Some(current) => current,
            None => {
                return Err(VersionError::NoCurrent);
            },
        };
        if current.config_path.is_none() || target.config_path.is_none() {
            return Err(VersionError::Incomplete);
        }
        match is_unchanged(findings, current) {
            Probe::Done(same) => {
                if !same {
                    return Err(VersionError::UncommittedChanges);
                }
            },
            Probe::Ask(question) => {
                return Ok(Probe::Ask(question));
            },
            Probe::Failed(error) => {
                return Ok(Probe::Failed(error));
            },
        }
        let archive_current = match archive(versions, current) {
            Ok(action) => action,
            Err(error) => {
                return Err(error);
            },
        };
        let from = target.config_path.as_ref().unwrap();
        let to = match cut_once(from.as_str(), "__") {
            Some(halves) => path_inside(
                CONFIG_DIR_PATH,
                combine("0__", halves.1.as_str()).as_str(),
            ),
            None => {
                return Err(VersionError::WrongFileName);
            },
        };
        let mut actions: Vec<Action> = Vec::new();
        actions.push(archive_current);
        actions.push(Action::Rename { from: from.clone(), to: to.clone() });
        actions.push(Action::Copy { from: to, to: String::from_str(CONFIG_PATH) });
        assert(actions.deep_view() =~= seq![
            archive_current@,
            ActionView::Rename { from: from@, to: to@ },
            ActionView::Copy { from: to@, to: CONFIG_PATH@ },
        ]);
        Ok(Probe::Done(actions))
    }

    /// Finds the two files whose comparison is to be printed: the version
    /// with the first index, or the configuration in use, and the version
    /// with the second index.
    pub fn print_diff(&self, index1: usize, index2: usize, diff_to_current: bool) -> (r: Result<
        (String, String),
        VersionError,
    >)
        ensures
            match compared_paths(self@, index1, index2, diff_to_current) {
                Ok(paths) => r is Ok && r->Ok_0.0@ == paths.0 && r->Ok_0.1@ == paths.1,
                Err(error) => r == Err::<(String, String), VersionError>(error),
            },
    {
        let versions = match self.usable_versions(Needs::Index) {
            Ok(versions) => versions,
            Err(error) => {
                return Err(error);
            },
        };
        let first = if diff_to_current {
            Some(Some(String::from_str(CONFIG_PATH)))
        } else {
            match find_last(versions, index1) {
                Some(version) => Some(version.config_path.duplicate()),
                None => None,
            }
        };
        let second = match find_last(versions, index2) {
            Some(version) => Some(version.config_path.duplicate()),
            None => None,
        };
        match (first, second) {
            (Some(Some(one)), Some(Some(other))) => Ok((one, other)),
            (Some(_), Some(_)) => Err(VersionError::Incomplete),
            _ => Err(VersionError::NotFound),
        }
    }
}

impl KeyboardDiff {
    /// Whether this triple compares `first` with `second`: it holds `first`
    /// as loaded, `second` as standing in for the observed state, and the
    /// delta between the two.
    pub open spec fn compares(
        &self,
        first: KeyboardView,
        second: KeyboardView,
        context: ExecutionContext,
    ) -> bool {
        &&& self.config@ == KeyboardView::loaded(first, context)->Ok_0
        &&& self.system@ == KeyboardView::taken_over(second, context)
        &&& self.diff.deep_view() == KeyboardView::delta(self.config@, self.system@)
    }
}

impl TimeDiff {
    /// Whether this triple compares `first` with `second`: it holds `first`
    /// as loaded, `second` as standing in for the observed state, and the
    /// delta between the two.
    pub open spec fn compares(
        &self,
        first: TimeView,
        second: TimeView,
        context: ExecutionContext,
    ) -> bool {
        &&& self.config@ == TimeView::loaded(first, context)->Ok_0
        &&& self.system@ == TimeView::taken_over(second, context)
        &&& self.diff.deep_view() == TimeView::delta(self.config@, self.system@)
    }
}

impl LanguageDiff {
    /// Whether this triple compares `first` with `second`: it holds `first`
    /// as loaded, `second` as standing in for the observed state, and the
    /// delta between the two.
    pub open spec fn compares(
        &self,
        first: LanguageView,
        second: LanguageView,
        context: ExecutionContext,
    ) -> bool {
        &&& self.config@ == LanguageView::loaded(first, context)->Ok_0
        &&& self.system@ == LanguageView::taken_over(second, context)
        &&& self.diff.deep_view() == LanguageView::delta(self.config@, self.system@)
    }
}

impl SystemDiff {
    /// Whether this triple compares `first` with `second`: it holds `first`
    /// as loaded, `second` as standing in for the observed state, and the
    /// delta between the two.
    pub open spec fn compares(
        &self,
        first: SystemView,
        second: SystemView,
        context: ExecutionContext,
    ) -> bool {
        &&& self.config@ == SystemView::loaded(first, context)->Ok_0
        &&& self.system@ == SystemView::taken_over(second, context)
        &&& self.diff.deep_view() == SystemView::delta(self.config@, self.system@)
    }
}

impl UserDiff {
    /// Whether this triple compares `first` with `second`: it holds `first`
    /// as loaded, `second` as standing in for the observed state, and the
    /// delta between the two.
    pub open spec fn compares(
        &self,
        first: UsersView,
        second: UsersView,
        context: ExecutionContext,
    ) -> bool {
        &&& self.config@ == UsersView::loaded(first, context)->Ok_0
        &&& self.system@ == UsersView::taken_over(second, context)
        &&& self.diff.deep_view() == UsersView::delta(self.config@, self.system@)
    }
}

impl PacmanDiff {
    /// Whether this triple compares `first` with `second`: it holds `first`
    /// as loaded, `second` as standing in for the observed state, and the
    /// delta between the two.
    pub open spec fn compares(
        &self,
        first: PacmanView,
        second: PacmanView,
        context: ExecutionContext,
    ) -> bool {
        &&& self.config@ == PacmanView::loaded(first, context)->Ok_0
        &&& self.system@ == PacmanView::taken_over(second, context)
        &&& self.diff.deep_view() == PacmanView::delta(self.config@, self.system@)
    }
}

impl ServicesDiff {
    /// Whether this triple compares `first` with `second`: it holds `first`
    /// as loaded, `second` as standing in for the observed state, and the
    /// delta between the two.
    pub open spec fn compares(
        &self,
        first: ServicesView,
        second: ServicesView,
        context: ExecutionContext,
    ) -> bool {
        &&& self.config@ == ServicesView::loaded(first, context)->Ok_0
        &&& self.system@ == ServicesView::taken_over(second, context)
        &&& self.diff.deep_view() == ServicesView::delta(self.config@, self.system@)
    }
}

impl PackagesDiff {
    /// Whether this triple compares `first` with `second`: it holds `first`
    /// as loaded, `second` as standing in for the observed state, and the
    /// delta between the two.
    pub open spec fn compares(
        &self,
        first: PackagesView,
        second: PackagesView,
        context: ExecutionContext,
    ) -> bool {
        &&& self.config@ == PackagesView::loaded(first, context)->Ok_0
        &&& self.system@ == PackagesView::taken_over(second, context)
        &&& self.diff.deep_view() == PackagesView::delta(self.config@, self.system@)
    }
}

impl DirectoriesDiff {
    /// Whether this triple compares `first` with `second`: it holds `first`
    /// as loaded, `second` as standing in for the observed state, and the
    /// delta between the two.
    pub open spec fn compares(
        &self,
        first: DirectoriesView,
        second: DirectoriesView,
        context: ExecutionContext,
    ) -> bool {
        &&& self.config@ == DirectoriesView::loaded(first, context)->Ok_0
        &&& self.system@ == DirectoriesView::taken_over(second, context)
        &&& self.diff.deep_view() == DirectoriesView::delta(self.config@, self.system@)
    }
}

impl GrubDiff {
    /// Whether this triple compares `first` with `second`: it holds `first`
    /// as loaded, `second` as standing in for the observed state, and the
    /// delta between the two.
    pub open spec fn compares(
        &self,
        first: GrubView,
        second: GrubView,
        context: ExecutionContext,
    ) -> bool {
        &&& self.config@ == GrubView::loaded(first, context)->Ok_0
        &&& self.system@ == GrubView::taken_over(second, context)
        &&& self.diff.deep_view() == GrubView::delta(self.config@, self.system@)
    }
}

impl MkinitcpioDiff {
    /// Whether this triple compares `first` with `second`: it holds `first`
    /// as loaded, `second` as standing in for the observed state, and the
    /// delta between the two.
    pub open spec fn compares(
        &self,
        first: MkinitcpioView,
        second: MkinitcpioView,
        context: ExecutionContext,
    ) -> bool {
        &&& self.config@ == MkinitcpioView::loaded(first, context)->Ok_0
        &&& self.system@ == MkinitcpioView::taken_over(second, context)
        &&& self.diff.deep_view() == MkinitcpioView::delta(self.config@, self.system@)
    }
}

impl UfwDiff {
    /// Whether this triple compares `first` with `second`: it holds `first`
    /// as loaded, `second` as standing in for the observed state, and the
    /// delta between the two.
    pub open spec fn compares(
        &self,
        first: UfwView,
        second: UfwView,
        context: ExecutionContext,
    ) -> bool {
        &&& self.config@ == UfwView::loaded(first, context)->Ok_0
        &&& self.system@ == UfwView::taken_over(second, context)
        &&& self.diff.deep_view() == UfwView::delta(self.config@, self.system@)
    }
}

impl Fail2BanDiff {
    /// Whether this triple compares `first` with `second`: it holds `first`
    /// as loaded, `second` as standing in for the observed state, and the
    /// delta between the two.
    pub open spec fn compares(
        &self,
        first: Fail2BanView,
        second: Fail2BanView,
        context: ExecutionContext,
    ) -> bool {
        &&& self.config@ == Fail2BanView::loaded(first, context)->Ok_0
        &&& self.system@ == Fail2BanView::taken_over(second, context)
        &&& self.diff.deep_view() == Fail2BanView::delta(self.config@, self.system@)
    }
}

impl DownloadsDiff {
    /// Whether this triple compares `first` with `second`: it holds `first`
    /// as loaded, `second` as standing in for the observed state, and the
    /// delta between the two.
    pub open spec fn compares(
        &self,
        first: DownloadsView,
        second: DownloadsView,
        context: ExecutionContext,
    ) -> bool {
        &&& self.config@ == DownloadsView::loaded(first, context)->Ok_0
        &&& self.system@ == DownloadsView::taken_over(second, context)
        &&& self.diff.deep_view() == DownloadsView::delta(self.config@, self.system@)
    }
}

impl MonitorDiff {
    /// Whether this triple compares `first` with `second`: it holds `first`
    /// as loaded, `second` as standing in for the observed state, and the
    /// delta between the two.
    pub open spec fn compares(
        &self,
        first: MonitorView,
        second: MonitorView,
        context: ExecutionContext,
    ) -> bool {
        &&& self.config@ == MonitorView::loaded(first, context)->Ok_0
        &&& self.system@ == MonitorView::taken_over(second, context)
        &&& self.diff.deep_view() == MonitorView::delta(self.config@, self.system@)
    }
}

impl FilesDiff {
    /// Whether this triple compares `first` with `second`: it holds `first`
    /// as loaded, `second` as standing in for the observed state, and the
    /// delta between the two.
    pub open spec fn compares(
        &self,
        first: FilesView,
        second: FilesView,
        context: ExecutionContext,
    ) -> bool {
        &&& self.config@ == FilesView::loaded(first, context)->Ok_0
        &&& self.system@ == FilesView::taken_over(second, context)
        &&& self.diff.deep_view() == FilesView::delta(self.config@, self.system@)
    }
}

/// How one configuration differs from another, domain by domain.
#[derive(Debug, PartialEq, Eq, Clone)]
pub struct Comparison {
    pub keyboard: KeyboardDiff,
    pub time: TimeDiff,
    pub language: LanguageDiff,
    pub system: SystemDiff,
    pub users: UserDiff,
    pub pacman: PacmanDiff,
    pub services: ServicesDiff,
    pub packages: PackagesDiff,
    pub directories: DirectoriesDiff,
    pub grub: GrubDiff,
    pub mkinitcpio: MkinitcpioDiff,
    pub ufw: UfwDiff,
    pub fail2ban: Fail2BanDiff,
    pub downloads: DownloadsDiff,
    pub monitor: MonitorDiff,
    pub files: FilesDiff,
}

/// The first refusal that loading the domains of a configuration meets,
/// taking the domains in their order.
pub open spec fn first_refusal(config: CargoTomlView, context: ExecutionContext) -> Option<
    ConfigError,
> {
    if KeyboardView::loaded(config.keyboard, context) is Err {
        Some(KeyboardView::loaded(config.keyboard, context)->Err_0)
    } else if TimeView::loaded(config.time, context) is Err {
        Some(TimeView::loaded(config.time, context)->Err_0)
    } else if LanguageView::loaded(config.language, context) is Err {
        Some(LanguageView::loaded(config.language, context)->Err_0)
    } else if SystemView::loaded(config.system, context) is Err {
        Some(SystemView::loaded(config.system, context)->Err_0)
    } else if UsersView::loaded(config.users, context) is Err {
        Some(UsersView::loaded(config.users, context)->Err_0)
    } else if PacmanView::loaded(config.pacman, context) is Err {
        Some(PacmanView::loaded(config.pacman, context)->Err_0)
    } else if ServicesView::loaded(config.services, context) is Err {
        Some(ServicesView::loaded(config.services, context)->Err_0)
    } else if PackagesView::loaded(config.packages, context) is Err {
        Some(PackagesView::loaded(config.packages, context)->Err_0)
    } else if DirectoriesView::loaded(config.directories, context) is Err {
        Some(DirectoriesView::loaded(config.directories, context)->Err_0)
    } else if GrubView::loaded(config.grub, context) is Err {
        Some(GrubView::loaded(config.grub, context)->Err_0)
    } else if MkinitcpioView::loaded(config.mkinitcpio, context) is Err {
        Some(MkinitcpioView::loaded(config.mkinitcpio, context)->Err_0)
    } else if UfwView::loaded(config.ufw, context) is Err {
        Some(UfwView::loaded(config.ufw, context)->Err_0)
    } else if Fail2BanView::loaded(config.fail2ban, context) is Err {
        Some(Fail2BanView::loaded(config.fail2ban, context)->Err_0)
    } else if DownloadsView::loaded(config.downloads, context) is Err {
        Some(DownloadsView::loaded(config.downloads, context)->Err_0)
    } else if MonitorView::loaded(config.monitor, context) is Err {
        Some(MonitorView::loaded(config.monitor, context)->Err_0)
    } else if FilesView::loaded(config.files, context) is Err {
        Some(FilesView::loaded(config.files, context)->Err_0)
    } else {
        None
    }
}

/// Compares two configurations: in each domain the first is loaded as the
/// desired state, the second stands in for the observed state, and the
/// delta tells what the first has and the second lacks, and the other way
/// round. The first configuration has to be one that can be loaded.
pub fn compare(first: &CargoToml, second: &CargoToml, context: ExecutionContext) -> (r: Result<
    Comparison,
    ConfigError,
>)
    ensures
        match first_refusal(first@, context) {
            Some(error) => r == Err::<Comparison, ConfigError>(error),
            None => r is Ok && ({
                let c = r->Ok_0;
                &&& c.keyboard.compares(first@.keyboard, second@.keyboard, context)
                &&& c.time.compares(first@.time, second@.time, context)
                &&& c.language.compares(first@.language, second@.language, context)
                &&& c.system.compares(first@.system, second@.system, context)
                &&& c.users.compares(first@.users, second@.users, context)
                &&& c.pacman.compares(first@.pacman, second@.pacman, context)
                &&& c.services.compares(first@.services, second@.services, context)
                &&& c.packages.compares(first@.packages, second@.packages, context)
                &&& c.directories.compares(first@.directories, second@.directories, context)
                &&& c.grub.compares(first@.grub, second@.grub, context)
                &&& c.mkinitcpio.compares(first@.mkinitcpio, second@.mkinitcpio, context)
                &&& c.ufw.compares(first@.ufw, second@.ufw, context)
                &&& c.fail2ban.compares(first@.fail2ban, second@.fail2ban, context)
                &&& c.downloads.compares(first@.downloads, second@.downloads, context)
                &&& c.monitor.compares(first@.monitor, second@.monitor, context)
                &&& c.files.compares(first@.files, second@.files, context)
            }),
        },
{
    let mut keyboard = KeyboardDiff::new();
    match keyboard.get_config(&first.keyboard, context) {
        Ok(()) => {},
        Err(error) => {
            return Err(error);
        },
    }
    keyboard.get_system_from_other(&second.keyboard, context);
    keyboard.get_diff();
    let mut time = TimeDiff::new();
    match time.get_config(&first.time, context) {
        Ok(()) => {},
        Err(error) => {
            return Err(error);
        },
    }
    time.get_system_from_other(&second.time, context);
    time.get_diff();
    let mut language = LanguageDiff::new();
    match language.get_config(&first.language, context) {
        Ok(()) => {},
        Err(error) => {
            return Err(error);
        },
    }
    language.get_system_from_other(&second.language, context);
    language.get_diff();
    let mut system = SystemDiff::new();
    match system.get_config(&first.system, context) {
        Ok(()) => {},
        Err(error) => {
            return Err(error);
        },
    }
    system.get_system_from_other(&second.system, context);
    system.get_diff();
    let mut users = UserDiff::new();
    match users.get_config(&first.users, context) {
        Ok(()) => {},
        Err(error) => {
            return Err(error);
        },
    }
    users.get_system_from_other(&second.users, context);
    users.get_diff();
    let mut pacman = PacmanDiff::new();
    match pacman.get_config(&first.pacman, context) {
        Ok(()) => {},
        Err(error) => {
            return Err(error);
        },
    }
    pacman.get_system_from_other(&second.pacman, context);
    pacman.get_diff();
    let mut services = ServicesDiff::new();
    match services.get_config(&first.services, context) {
        Ok(()) => {},
        Err(error) => {
            return Err(error);
        },
    }
    services.get_system_from_other(&second.services, context);
    services.get_diff();
    let mut packages = PackagesDiff::new();
    match packages.get_config(&first.packages, context) {
        Ok(()) => {},
        Err(error) => {
            return Err(error);
        },
    }
    packages.get_system_from_other(&second.packages, context);
    packages.get_diff();
    let mut directories = DirectoriesDiff::new();
    match directories.get_config(&first.directories, context) {
        Ok(()) => {},
        Err(error) => {
            return Err(error);
        },
    }
    directories.get_system_from_other(&second.directories, context);
    directories.get_diff();
    let mut grub = GrubDiff::new();
    match grub.get_config(&first.grub, context) {
        Ok(()) => {},
        Err(error) => {
            return Err(error);
        },
    }
    grub.get_system_from_other(&second.grub, context);
    grub.get_diff();
    let mut mkinitcpio = MkinitcpioDiff::new();
    match mkinitcpio.get_config(&first.mkinitcpio, context) {
        Ok(()) => {},
        Err(error) => {
            return Err(error);
        },
    }
    mkinitcpio.get_system_from_other(&second.mkinitcpio, context);
    mkinitcpio.get_diff();
    let mut ufw = UfwDiff::new();
    match ufw.get_config(&first.ufw, context) {
        Ok(()) => {},
        Err(error) => {
            return Err(error);
        },
    }
    ufw.get_system_from_other(&second.ufw, context);
    ufw.get_diff();
    let mut fail2ban = Fail2BanDiff::new();
    match fail2ban.get_config(&first.fail2ban, context) {
        Ok(()) => {},
        Err(error) => {
            return Err(error);
        },
    }
    fail2ban.get_system_from_other(&second.fail2ban, context);
    fail2ban.get_diff();
    let mut downloads = DownloadsDiff::new();
    match downloads.get_config(&first.downloads, context) {
        Ok(()) => {},
        Err(error) => {
            return Err(error);
        },
    }
    downloads.get_system_from_other(&second.downloads, context);
    downloads.get_diff();
    let mut monitor = MonitorDiff::new();
    match monitor.get_config(&first.monitor, context) {
        Ok(()) => {},
        Err(error) => {
            return Err(error);
        },
    }
    monitor.get_system_from_other(&second.monitor, context);
    monitor.get_diff();
    let mut files = FilesDiff::new();
    match files.get_config(&first.files, context) {
        Ok(()) => {},
        Err(error) => {
            return Err(error);
        },
    }
    files.get_system_from_other(&second.files, context);
    files.get_diff();
    Ok(
        Comparison {
            keyboard,
            time,
            language,
            system,
            users,
            pacman,
            services,
            packages,
            directories,
            grub,
            mkinitcpio,
            ufw,
            fail2ban,
            downloads,
            monitor,
            files,
        },
    )
}

} // verus!
