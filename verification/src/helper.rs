//! Helpers shared by the domains: the execution context, reading a variable
//! out of a configuration text, and the edits that are made to the content of
//! a file.

use vstd::prelude::*;
use vstd::string::*;
use crate::text::{
    begins_with, cut_once, line_list, lines, remove_all, split_once, starts_with, trim, trimmed,
    without_all,
};

verus! {

/// Whether the process runs with elevated privilege. It decides which half of
/// a domain is managed in this run.
#[derive(Debug, PartialEq, Eq, Clone, Copy)]
pub struct ExecutionContext {
    pub privileged: bool,
}

/// Asks the operating system, through `nix::unistd::geteuid`, for the
/// effective user of this process, and tells whether it is root. The answer
/// depends on how the process was started, so nothing is claimed of it.
#[verifier::external_body]
pub fn is_user_root() -> (root: bool) {
    nix::unistd::geteuid().is_root()
}

impl ExecutionContext {
    /// The context of this process, whatever it turns out to be.
    pub fn current() -> (context: ExecutionContext) {
        ExecutionContext { privileged: is_user_root() }
    }
}

/// The first of `list` that begins with `prefix`.
pub open spec fn first_starting_with(list: Seq<Seq<char>>, prefix: Seq<char>) -> Option<Seq<char>>
    decreases list.len(),
{
    if list.len() == 0 {
        None
    } else if starts_with(list[0], prefix) {
        Some(list[0])
    } else {
        first_starting_with(list.skip(1), prefix)
    }
}

/// What stands after the divider in a line, without the white space around
/// it; nothing when the line, without the white space around it, does not
/// hold the divider.
pub open spec fn value_after(line: Seq<char>, divider: Seq<char>) -> Option<Seq<char>> {
    match split_once(trim(line), divider) {
        Some(halves) => Some(trim(halves.1)),
        None => None,
    }
}

/// The value of the variable `name` in the text `s`: the first line that
/// begins with `name` and `divider` is cut once at the divider, and what
/// follows is the value, without the white space around it.
pub open spec fn variable(s: Seq<char>, divider: Seq<char>, name: Seq<char>) -> Option<Seq<char>> {
    match first_starting_with(lines(s), name + divider) {
        Some(line) => value_after(line, divider),
        None => None,
    }
}

/// Reads the value of the variable `name` out of the text `s`, in which a line
/// holds a name, the divider and a value.
pub fn read_in_variable(s: &str, divider: &str, name: &str) -> (value: Option<String>)
    ensures
        value.deep_view() == variable(s@, divider@, name@),
{
    let mut contained = String::from_str(name);
    contained.append(divider);
    let all = line_list(s);
    let mut i: usize = 0;
    assert(all.deep_view().skip(0) =~= all.deep_view());
    while i < all.len()
        invariant
            i <= all.len(),
            contained@ == name@ + divider@,
            all.deep_view() == lines(s@),
            first_starting_with(lines(s@), contained@) == first_starting_with(
                all.deep_view().skip(i as int),
                contained@,
            ),
        decreases all.len() - i,
    {
        let ghost rest = all.deep_view().skip(i as int);
        assert(rest[0] == all@[i as int]@);
        if begins_with(all[i].as_str(), contained.as_str()) {
            let stripped = trimmed(all[i].as_str());
            return match cut_once(stripped.as_str(), divider) {
                Some(halves) => Some(trimmed(halves.1.as_str())),
                None => None,
            };
        }
        assert(rest.skip(1) =~= all.deep_view().skip(i + 1));
        i += 1;
    }
    None
}

/// The lines of a text with every line that begins with `old_str` replaced by
/// `new_str`.
pub open spec fn replaced(list: Seq<Seq<char>>, old_str: Seq<char>, new_str: Seq<char>) -> Seq<
    Seq<char>,
> {
    Seq::new(
        list.len(),
        |i: int|
            if starts_with(list[i], old_str) {
                new_str
            } else {
                list[i]
            },
    )
}

/// Each line followed by a line feed, one after another.
pub open spec fn terminated(list: Seq<Seq<char>>) -> Seq<char>
    decreases list.len(),
{
    if list.len() == 0 {
        Seq::empty()
    } else {
        terminated(list.drop_last()) + list.last() + seq!['\n']
    }
}

/// The content of a file after every line that begins with `old_str` has been
/// replaced by `new_str`. Every line of the result ends with a line feed.
pub fn replace_line(content: &str, old_str: &str, new_str: &str) -> (result: String)
    ensures
        result@ == terminated(replaced(lines(content@), old_str@, new_str@)),
{
    let all = line_list(content);
    let mut out = String::new();
    let mut i: usize = 0;
    let ghost goal = replaced(lines(content@), old_str@, new_str@);
    assert(goal.take(0) =~= Seq::empty());
    proof {
        reveal_strlit("\n");
    }
    while i < all.len()
        invariant
            i <= all.len(),
            all.deep_view() == lines(content@),
            goal == replaced(lines(content@), old_str@, new_str@),
            out@ == terminated(goal.take(i as int)),
        decreases all.len() - i,
    {
        let ghost next = goal.take(i + 1);
        assert(next.drop_last() =~= goal.take(i as int));
        assert(all.deep_view()[i as int] == all@[i as int]@);
        if begins_with(all[i].as_str(), old_str) {
            out.append(new_str);
        } else {
            out.append(all[i].as_str());
        }
        out.append("\n");
        proof {
            reveal_strlit("\n");
            assert("\n"@ =~= seq!['\n']);
            assert(out@ =~= terminated(goal.take(i as int)) + next.last() + seq!['\n']);
        }
        i += 1;
    }
    assert(goal.take(all.len() as int) =~= goal);
    out
}

/// The content of a file after `s` has been put before it, on a line of its
/// own.
pub fn prepend_to_file(content: &str, s: &str) -> (result: String)
    ensures
        result@ == s@ + seq!['\n'] + content@,
{
    let mut out = String::from_str(s);
    out.append("\n");
    out.append(content);
    proof {
        reveal_strlit("\n");
        assert("\n"@ =~= seq!['\n']);
    }
    out
}

/// The content of a file after `s` has been put behind it, on a line of its
/// own.
pub fn append_to_file(content: &str, s: &str) -> (result: String)
    ensures
        result@ == content@ + seq!['\n'] + s@,
{
    let mut out = String::from_str(content);
    out.append("\n");
    out.append(s);
    proof {
        reveal_strlit("\n");
        assert("\n"@ =~= seq!['\n']);
    }
    out
}

/// The content of a file after every occurrence of `s` has been taken out of
/// it, and the white space around what is left.
pub fn remove_from_file(content: &str, s: &str) -> (result: String)
    ensures
        result@ == trim(remove_all(content@, s@)),
{
    let removed = without_all(content, s);
    trimmed(removed.as_str())
}

} // verus!
