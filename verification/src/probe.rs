//! What the library has to learn from the live system, and how it is told.
//!
//! The library never touches the system. Where a decision rests on the state
//! of the machine, it names a [`Question`]; the caller looks the answer up
//! and hands it back as a [`Finding`]. A function that needs findings takes
//! the ones made so far and either finishes or asks for the next one, so the
//! caller only ever repeats one step: answer, and call again.

use vstd::prelude::*;
use vstd::string::*;
use crate::item::Item;
use crate::text::equal;

verus! {

/// The kinds of question that can be put to the system.
#[derive(Debug, PartialEq, Eq, Clone, Copy, Structural)]
pub enum Inquiry {
    /// The content of the file. It is found when the file can be read.
    ReadFile,
    /// What the shell command prints to standard output when it is run in the
    /// root directory. It is found when the command can be run.
    Output,
    /// Whether the shell command, run in the root directory, ends in success.
    Succeeds,
    /// Whether the path is a directory.
    IsDir,
    /// Whether the path is a regular file.
    IsFile,
    /// Whether the path is a symbolic link.
    IsSymlink,
    /// Whether the path exists.
    Exists,
}

/// A question: its kind, and the path or command that it is about.
#[derive(Debug, PartialEq, Eq, Clone)]
pub struct Question {
    pub kind: Inquiry,
    pub subject: String,
}

/// The model of a [`Question`].
pub struct QuestionView {
    pub kind: Inquiry,
    pub subject: Seq<char>,
}

impl DeepView for Question {
    type V = QuestionView;

    open spec fn deep_view(&self) -> QuestionView {
        QuestionView { kind: self.kind, subject: self.subject@ }
    }
}

impl View for Question {
    type V = QuestionView;

    open spec fn view(&self) -> QuestionView {
        self.deep_view()
    }
}

impl Item for Question {
    fn same(&self, other: &Self) -> (r: bool) {
        self.kind == other.kind && self.subject.same(&other.subject)
    }

    fn duplicate(&self) -> (r: Self) {
        Question { kind: self.kind, subject: self.subject.duplicate() }
    }
}

/// An answer to a question. `ok` says whether the thing asked for holds or
/// could be had; `text` is the content or output, and empty for a question
/// that asks for neither.
#[derive(Debug, PartialEq, Eq, Clone)]
pub struct Finding {
    pub question: Question,
    pub ok: bool,
    pub text: String,
}

/// The model of a [`Finding`].
pub struct FindingView {
    pub question: QuestionView,
    pub ok: bool,
    pub text: Seq<char>,
}

impl DeepView for Finding {
    type V = FindingView;

    open spec fn deep_view(&self) -> FindingView {
        FindingView { question: self.question@, ok: self.ok, text: self.text@ }
    }
}

impl View for Finding {
    type V = FindingView;

    open spec fn view(&self) -> FindingView {
        self.deep_view()
    }
}

impl Item for Finding {
    fn same(&self, other: &Self) -> (r: bool) {
        self.question.same(&other.question) && self.ok == other.ok && self.text.same(&other.text)
    }

    fn duplicate(&self) -> (r: Self) {
        Finding {
            question: self.question.duplicate(),
            ok: self.ok,
            text: self.text.duplicate(),
        }
    }
}

/// The first finding among `findings` that answers `question`.
pub open spec fn answer(findings: Seq<FindingView>, question: QuestionView) -> Option<FindingView>
    decreases findings.len(),
{
    if findings.len() == 0 {
        None
    } else if findings[0].question == question {
        Some(findings[0])
    } else {
        answer(findings.skip(1), question)
    }
}

/// One more finding leaves the questions that were answered as they were
/// answered, and answers its own question where that was open.
pub proof fn findings_only_grow(
    findings: Seq<FindingView>,
    more: FindingView,
    question: QuestionView,
)
    ensures
        answer(findings, question) is Some ==> answer(findings.push(more), question) == answer(
            findings,
            question,
        ),
        answer(findings, more.question) is None ==> answer(findings.push(more), more.question)
            == Some(more),
        answer(findings, question) is None && question != more.question ==> answer(
            findings.push(more),
            question,
        ) is None,
    decreases findings.len(),
{
    let longer = findings.push(more);
    if findings.len() == 0 {
        assert(longer[0] == more);
        assert(longer.skip(1) =~= findings);
        assert(answer(longer.skip(1), question) is None);
    } else {
        assert(longer[0] == findings[0]);
        assert(longer.skip(1) =~= findings.skip(1).push(more));
        findings_only_grow(findings.skip(1), more, question);
        findings_only_grow(findings.skip(1), more, more.question);
    }
}

/// The question of the given kind about `subject`.
pub open spec fn ask(kind: Inquiry, subject: Seq<char>) -> QuestionView {
    QuestionView { kind, subject }
}

/// Looks up the first finding that answers the question of the given kind
/// about `subject`.
pub fn lookup<'a>(findings: &'a Vec<Finding>, kind: Inquiry, subject: &str) -> (found: Option<
    &'a Finding,
>)
    ensures
        found.deep_view() == answer(findings.deep_view(), ask(kind, subject@)),
{
    let mut i: usize = 0;
    assert(findings.deep_view().skip(0) =~= findings.deep_view());
    while i < findings.len()
        invariant
            i <= findings.len(),
            answer(findings.deep_view(), ask(kind, subject@)) == answer(
                findings.deep_view().skip(i as int),
                ask(kind, subject@),
            ),
        decreases findings.len() - i,
    {
        let ghost rest = findings.deep_view().skip(i as int);
        assert(rest[0] == findings@[i as int]@);
        if findings[i].question.kind == kind && equal(
            findings[i].question.subject.as_str(),
            subject,
        ) {
            return Some(&findings[i]);
        }
        assert(rest.skip(1) =~= findings.deep_view().skip(i + 1));
        i += 1;
    }
    None
}

/// Why the state of the system could not be established.
#[derive(Debug, PartialEq, Eq, Clone, Copy, Structural)]
pub enum Fault {
    /// A file that has to be there cannot be read.
    Unreadable,
    /// A command that has to run could not be run.
    NotRun,
    /// A text does not have the form that it should have.
    Malformed,
}

/// A failed probe: what went wrong, and with which path, command or text.
#[derive(Debug, PartialEq, Eq, Clone)]
pub struct ProbeError {
    pub fault: Fault,
    pub subject: String,
}

/// The model of a [`ProbeError`].
pub struct ProbeErrorView {
    pub fault: Fault,
    pub subject: Seq<char>,
}

impl DeepView for ProbeError {
    type V = ProbeErrorView;

    open spec fn deep_view(&self) -> ProbeErrorView {
        ProbeErrorView { fault: self.fault, subject: self.subject@ }
    }
}

impl View for ProbeError {
    type V = ProbeErrorView;

    open spec fn view(&self) -> ProbeErrorView {
        self.deep_view()
    }
}

/// Where a step that rests on findings stands: it needs one more answer, it
/// cannot go on, or it is done.
#[derive(Debug, PartialEq, Eq, Clone)]
pub enum Probe<T> {
    /// The answer to this question is needed next.
    Ask(Question),
    /// The findings show that the step cannot be completed.
    Failed(ProbeError),
    /// The findings suffice, and this is the result.
    Done(T),
}

/// The model of a [`Probe`].
pub enum ProbeView<V> {
    Ask(QuestionView),
    Failed(ProbeErrorView),
    Done(V),
}

impl<T: DeepView> DeepView for Probe<T> {
    type V = ProbeView<T::V>;

    open spec fn deep_view(&self) -> ProbeView<T::V> {
        match self {
            Probe::Ask(question) => ProbeView::Ask(question@),
            Probe::Failed(error) => ProbeView::Failed(error@),
            Probe::Done(result) => ProbeView::Done(result.deep_view()),
        }
    }
}

/// Whether a step that yields nothing of its own ended as `outcome` did: done
/// where that is done, asking its question where that asks, failed with its
/// error where that has failed.
pub open spec fn ended_as<V>(step: Probe<()>, outcome: ProbeView<V>) -> bool {
    match outcome {
        ProbeView::Done(_) => step.deep_view() == ProbeView::Done(()),
        ProbeView::Ask(question) => step.deep_view() == ProbeView::<()>::Ask(question),
        ProbeView::Failed(error) => step.deep_view() == ProbeView::<()>::Failed(error),
    }
}

/// The failure of the given kind about `subject`.
pub open spec fn failure(fault: Fault, subject: Seq<char>) -> ProbeErrorView {
    ProbeErrorView { fault, subject }
}

/// What is known of a text that the system has to supply: nothing yet, that
/// it cannot be had, or the text.
pub open spec fn required_text(
    findings: Seq<FindingView>,
    kind: Inquiry,
    subject: Seq<char>,
    fault: Fault,
) -> ProbeView<Seq<char>> {
    match answer(findings, ask(kind, subject)) {
        None => ProbeView::Ask(ask(kind, subject)),
        Some(finding) => if finding.ok {
            ProbeView::Done(finding.text)
        } else {
            ProbeView::Failed(failure(fault, subject))
        },
    }
}

/// What is known of a text that the system may supply: nothing yet, or the
/// text where there is one.
pub open spec fn optional_text(findings: Seq<FindingView>, kind: Inquiry, subject: Seq<char>)
    -> ProbeView<Option<Seq<char>>> {
    match answer(findings, ask(kind, subject)) {
        None => ProbeView::Ask(ask(kind, subject)),
        Some(finding) => if finding.ok {
            ProbeView::Done(Some(finding.text))
        } else {
            ProbeView::Done(None)
        },
    }
}

/// What is known of a yes-or-no question: nothing yet, or the answer.
pub open spec fn flag(findings: Seq<FindingView>, kind: Inquiry, subject: Seq<char>) -> ProbeView<
    bool,
> {
    match answer(findings, ask(kind, subject)) {
        None => ProbeView::Ask(ask(kind, subject)),
        Some(finding) => ProbeView::Done(finding.ok),
    }
}

/// Takes a text that the system has to supply out of the findings.
pub fn require_text(findings: &Vec<Finding>, kind: Inquiry, subject: &str, fault: Fault) -> (r:
    Probe<String>)
    ensures
        r.deep_view() == required_text(findings.deep_view(), kind, subject@, fault),
{
    match lookup(findings, kind, subject) {
        None => Probe::Ask(Question { kind, subject: String::from_str(subject) }),
        Some(finding) => if finding.ok {
            Probe::Done(finding.text.clone())
        } else {
            Probe::Failed(ProbeError { fault, subject: String::from_str(subject) })
        },
    }
}

/// Takes a text that the system may supply out of the findings.
pub fn optional(findings: &Vec<Finding>, kind: Inquiry, subject: &str) -> (r: Probe<
    Option<String>,
>)
    ensures
        r.deep_view() == optional_text(findings.deep_view(), kind, subject@),
{
    match lookup(findings, kind, subject) {
        None => Probe::Ask(Question { kind, subject: String::from_str(subject) }),
        Some(finding) => if finding.ok {
            Probe::Done(Some(finding.text.clone()))
        } else {
            Probe::Done(None)
        },
    }
}

/// Takes the answer to a yes-or-no question out of the findings.
pub fn check(findings: &Vec<Finding>, kind: Inquiry, subject: &str) -> (r: Probe<bool>)
    ensures
        r.deep_view() == flag(findings.deep_view(), kind, subject@),
{
    match lookup(findings, kind, subject) {
        None => Probe::Ask(Question { kind, subject: String::from_str(subject) }),
        Some(finding) => Probe::Done(finding.ok),
    }
}

} // verus!
