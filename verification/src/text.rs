//! Text as sequences of characters.
//!
//! What the system tells about itself is text, and the library reads it with
//! a few operations: trimming, searching, cutting at a separator, cutting
//! into lines, reading and writing numbers. Each has a model over sequences
//! of characters, which says what the operation yields, and an executable
//! form that is proved to yield just that. Positions count characters.

use vstd::prelude::*;
use vstd::string::*;

verus! {

/// The characters of `s`, in order.
pub fn characters(s: &str) -> (chars: Vec<char>)
    ensures
        chars@ == s@,
{
    let mut chars: Vec<char> = Vec::new();
    for c in it: s.chars()
        invariant
            it.seq() == s@,
            chars@ == it.seq().take(it.index() as int),
    {
        chars.push(c);
        assert(it.seq().take(it.index() + 1) =~= it.seq().take(it.index() as int).push(c));
    }
    assert(s@.take(s@.len() as int) =~= s@);
    chars
}

/// Tests whether two texts hold the same characters.
pub fn equal(a: &str, b: &str) -> (r: bool)
    ensures
        r == (a@ == b@),
{
    let left = characters(a);
    let right = characters(b);
    if left.len() != right.len() {
        return false;
    }
    let mut i: usize = 0;
    while i < left.len()
        invariant
            i <= left.len(),
            left.len() == right.len(),
            left@ == a@,
            right@ == b@,
            forall|j: int| 0 <= j < i ==> left@[j] == right@[j],
        decreases left.len() - i,
    {
        if left[i] != right[i] {
            return false;
        }
        i += 1;
    }
    assert(left@ =~= right@);
    true
}

/// Copies the characters of `s` from index `from` up to index `to`.
fn piece(s: &str, from: usize, to: usize) -> (t: String)
    requires
        from <= to <= s@.len(),
    ensures
        t@ == s@.subrange(from as int, to as int),
{
    s.substring_char(from, to).to_owned()
}

/// Whether `c` is white space, as Unicode defines it.
pub open spec fn is_whitespace(c: char) -> bool {
    let n = c as u32;
    ||| 0x09 <= n <= 0x0d
    ||| n == 0x20
    ||| n == 0x85
    ||| n == 0xa0
    ||| n == 0x1680
    ||| 0x2000 <= n <= 0x200a
    ||| n == 0x2028
    ||| n == 0x2029
    ||| n == 0x202f
    ||| n == 0x205f
    ||| n == 0x3000
}

/// Tests a character for white space.
pub fn whitespace(c: char) -> (r: bool)
    ensures
        r == is_whitespace(c),
{
    let n: u32 = c as u32;
    (0x09 <= n && n <= 0x0d) || n == 0x20 || n == 0x85 || n == 0xa0 || n == 0x1680 || (0x2000 <= n
        && n <= 0x200a) || n == 0x2028 || n == 0x2029 || n == 0x202f || n == 0x205f || n == 0x3000
}

/// `s` without the white space it starts with.
pub open spec fn trim_start(s: Seq<char>) -> Seq<char>
    decreases s.len(),
{
    if s.len() > 0 && is_whitespace(s[0]) {
        trim_start(s.skip(1))
    } else {
        s
    }
}

/// `s` without the white space it ends with.
pub open spec fn trim_end(s: Seq<char>) -> Seq<char>
    decreases s.len(),
{
    if s.len() > 0 && is_whitespace(s.last()) {
        trim_end(s.drop_last())
    } else {
        s
    }
}

/// `s` without the white space around it.
pub open spec fn trim(s: Seq<char>) -> Seq<char> {
    trim_end(trim_start(s))
}

/// The part of `s` between the white space it starts with and the white
/// space it ends with.
pub fn trimmed(s: &str) -> (t: String)
    ensures
        t@ == trim(s@),
{
    let chars = characters(s);
    let n: usize = chars.len();
    let mut a: usize = 0;
    assert(s@.skip(0) =~= s@);
    while a < n && whitespace(chars[a])
        invariant
            a <= n,
            n == s@.len(),
            chars@ == s@,
            trim_start(s@) == trim_start(s@.skip(a as int)),
        decreases n - a,
    {
        assert(s@.skip(a as int).skip(1) =~= s@.skip(a + 1));
        a += 1;
    }
    assert(trim_start(s@) == s@.skip(a as int));
    let mut b: usize = n;
    assert(s@.subrange(a as int, n as int) =~= s@.skip(a as int));
    while b > a && whitespace(chars[b - 1])
        invariant
            a <= b <= n,
            n == s@.len(),
            chars@ == s@,
            trim(s@) == trim_end(s@.subrange(a as int, b as int)),
        decreases b,
    {
        assert(s@.subrange(a as int, b as int).drop_last() =~= s@.subrange(a as int, b - 1));
        b -= 1;
    }
    s.substring_char(a, b).to_owned()
}

/// A text without the white space that it starts with does not start with
/// white space, and is the end of the text.
pub proof fn trim_start_is_trimmed(s: Seq<char>)
    ensures
        trim_start(s).len() == 0 || !is_whitespace(trim_start(s)[0]),
        exists|k: int| 0 <= k <= s.len() && trim_start(s) == s.skip(k),
    decreases s.len(),
{
    if s.len() > 0 && is_whitespace(s[0]) {
        trim_start_is_trimmed(s.skip(1));
        let rest = s.skip(1);
        let k = choose|k: int| 0 <= k <= rest.len() && trim_start(rest) == rest.skip(k);
        assert(rest.skip(k) =~= s.skip(k + 1));
    } else {
        assert(s.skip(0) =~= s);
    }
}

/// A text without the white space that it ends with does not end with
/// white space, and is the beginning of the text.
pub proof fn trim_end_is_trimmed(s: Seq<char>)
    ensures
        trim_end(s).len() == 0 || !is_whitespace(trim_end(s).last()),
        exists|k: int| 0 <= k <= s.len() && trim_end(s) == s.take(k),
    decreases s.len(),
{
    if s.len() > 0 && is_whitespace(s.last()) {
        trim_end_is_trimmed(s.drop_last());
        let k = choose|k: int|
            0 <= k <= s.drop_last().len() && trim_end(s.drop_last()) == s.drop_last().take(k);
        assert(s.drop_last().take(k) =~= s.take(k));
    } else {
        assert(s.take(s.len() as int) =~= s);
    }
}

/// Trimming a trimmed text changes nothing.
pub proof fn trim_is_idempotent(s: Seq<char>)
    ensures
        trim(trim(s)) == trim(s),
{
    let t = trim_start(s);
    let u = trim_end(t);
    trim_start_is_trimmed(s);
    trim_end_is_trimmed(t);
    let k = choose|k: int| 0 <= k <= t.len() && u == t.take(k);
    if u.len() > 0 {
        assert(u[0] == t[0]);
    }
    assert(trim_start(u) == u);
    assert(trim_end(u) == u);
}

/// Whether `pat` stands in `s` at index `i`.
pub open spec fn occurs_at(s: Seq<char>, pat: Seq<char>, i: int) -> bool {
    0 <= i && i + pat.len() <= s.len() && s.subrange(i, i + pat.len()) == pat
}

/// The first index at or after `from` at which `pat` stands in `s`.
pub open spec fn find_from(s: Seq<char>, pat: Seq<char>, from: int) -> Option<int>
    decreases s.len() + 1 - from,
{
    if from < 0 || from + pat.len() > s.len() {
        None
    } else if occurs_at(s, pat, from) {
        Some(from)
    } else {
        find_from(s, pat, from + 1)
    }
}

/// The first index at which `pat` stands in `s`.
pub open spec fn find(s: Seq<char>, pat: Seq<char>) -> Option<int> {
    find_from(s, pat, 0)
}

/// What `find_from` finds is a place where `pat` stands, and the first such
/// place from `from` on.
pub proof fn find_from_is_first(s: Seq<char>, pat: Seq<char>, from: int)
    requires
        0 <= from,
    ensures
        match find_from(s, pat, from) {
            Some(i) => from <= i && occurs_at(s, pat, i) && forall|j: int|
                from <= j < i ==> !occurs_at(s, pat, j),
            None => forall|j: int| from <= j ==> !occurs_at(s, pat, j),
        },
    decreases s.len() + 1 - from,
{
    if from + pat.len() > s.len() {
    } else if occurs_at(s, pat, from) {
    } else {
        find_from_is_first(s, pat, from + 1);
    }
}

/// Whether `pat` stands in `chars` at index `at`.
fn matches_at(chars: &Vec<char>, pat: &Vec<char>, at: usize) -> (r: bool)
    requires
        at + pat.len() <= chars.len(),
    ensures
        r == occurs_at(chars@, pat@, at as int),
{
    let mut j: usize = 0;
    while j < pat.len()
        invariant
            j <= pat.len(),
            at + pat.len() <= chars.len(),
            forall|k: int| 0 <= k < j ==> chars@[at + k] == pat@[k],
        decreases pat.len() - j,
    {
        if chars[at + j] != pat[j] {
            assert(chars@.subrange(at as int, at + pat.len())[j as int] != pat@[j as int]);
            return false;
        }
        j += 1;
    }
    assert(chars@.subrange(at as int, at + pat.len()) =~= pat@);
    true
}

/// The first index at or after `from` at which `pat` stands in `chars`,
/// counted from `from`.
fn find_after(chars: &Vec<char>, pat: &Vec<char>, from: usize) -> (r: Option<usize>)
    requires
        from <= chars.len(),
    ensures
        match r {
            Some(i) => find(chars@.skip(from as int), pat@) == Some(i as int) && from + i
                + pat.len() <= chars.len(),
            None => find(chars@.skip(from as int), pat@) is None,
        },
{
    let ghost rest = chars@.skip(from as int);
    let n: usize = chars.len() - from;
    if pat.len() > n {
        return None;
    }
    let last: usize = n - pat.len();
    let mut i: usize = 0;
    loop
        invariant
            i <= last,
            last + pat.len() == n,
            n == chars.len() - from,
            from <= chars.len(),
            rest == chars@.skip(from as int),
            find(rest, pat@) == find_from(rest, pat@, i as int),
        decreases last - i,
    {
        let here = matches_at(chars, pat, from + i);
        assert(rest.subrange(i as int, i + pat.len()) =~= chars@.subrange(
            from + i,
            from + i + pat.len(),
        ));
        if here {
            return Some(i);
        }
        if i == last {
            assert(find_from(rest, pat@, i + 1) is None);
            return None;
        }
        i += 1;
    }
}

/// Finds the first place where `pat` stands in `s`.
pub fn position(s: &str, pat: &str) -> (r: Option<usize>)
    ensures
        match r {
            Some(i) => find(s@, pat@) == Some(i as int),
            None => find(s@, pat@) is None,
        },
{
    let chars = characters(s);
    let pattern = characters(pat);
    assert(s@.skip(0) =~= s@);
    find_after(&chars, &pattern, 0)
}

/// Whether `s` begins with `prefix`.
pub open spec fn starts_with(s: Seq<char>, prefix: Seq<char>) -> bool {
    occurs_at(s, prefix, 0)
}

/// Tests whether `s` begins with `prefix`.
pub fn begins_with(s: &str, prefix: &str) -> (r: bool)
    ensures
        r == starts_with(s@, prefix@),
{
    let chars = characters(s);
    let pattern = characters(prefix);
    if pattern.len() > chars.len() {
        return false;
    }
    matches_at(&chars, &pattern, 0)
}

/// Whether `pat` stands somewhere in `s`.
pub open spec fn contains(s: Seq<char>, pat: Seq<char>) -> bool {
    find(s, pat) is Some
}

/// Tests whether `pat` stands somewhere in `s`.
pub fn includes(s: &str, pat: &str) -> (r: bool)
    ensures
        r == contains(s@, pat@),
{
    position(s, pat).is_some()
}

/// `s` cut in two at the first place where `pat` stands: what is before it
/// and what is after it.
pub open spec fn split_once(s: Seq<char>, pat: Seq<char>) -> Option<(Seq<char>, Seq<char>)> {
    match find(s, pat) {
        Some(i) => Some((s.take(i), s.skip(i + pat.len()))),
        None => None,
    }
}

/// Cuts `s` in two at the first place where `pat` stands.
pub fn cut_once(s: &str, pat: &str) -> (r: Option<(String, String)>)
    ensures
        match r {
            Some(halves) => split_once(s@, pat@) == Some((halves.0@, halves.1@)),
            None => split_once(s@, pat@) is None,
        },
{
    let chars = characters(s);
    let pattern = characters(pat);
    assert(s@.skip(0) =~= s@);
    match find_after(&chars, &pattern, 0) {
        Some(i) => {
            assert(s@.take(i as int) =~= s@.subrange(0, i as int));
            assert(s@.skip(i + pattern.len()) =~= s@.subrange(i + pattern.len(), s@.len() as int));
            Some((piece(s, 0, i), piece(s, i + pattern.len(), chars.len())))
        },
        None => None,
    }
}

/// `s` cut at every place where `pat` stands, found from left to right. The
/// pieces between two neighbouring places, before the first and after the
/// last are all kept, empty ones too. An empty `pat` cuts nowhere.
pub open spec fn split(s: Seq<char>, pat: Seq<char>) -> Seq<Seq<char>>
    decreases s.len(),
{
    match find(s, pat) {
        Some(i) => if pat.len() > 0 && 0 <= i <= s.len() - pat.len() {
            seq![s.take(i)] + split(s.skip(i + pat.len()), pat)
        } else {
            seq![s]
        },
        None => seq![s],
    }
}

/// Cuts `s` at every place where `pat` stands.
pub fn pieces(s: &str, pat: &str) -> (r: Vec<String>)
    ensures
        r.deep_view() == split(s@, pat@),
        r.len() > 0,
{
    let chars = characters(s);
    let pattern = characters(pat);
    let n: usize = chars.len();
    let mut out: Vec<String> = Vec::new();
    let mut start: usize = 0;
    let mut done: bool = false;
    assert(s@.skip(0) =~= s@);
    assert(out.deep_view() =~= Seq::empty());
    while !done
        invariant
            start <= n,
            n == s@.len(),
            chars@ == s@,
            pattern@ == pat@,
            !done ==> split(s@, pat@) == out.deep_view() + split(s@.skip(start as int), pat@),
            done ==> split(s@, pat@) == out.deep_view(),
        decreases n - start + if done { 0int } else { 1int },
    {
        let ghost rest = s@.skip(start as int);
        let ghost before = out.deep_view();
        let found = if pattern.len() == 0 {
            None
        } else {
            find_after(&chars, &pattern, start)
        };
        match found {
            Some(i) => {
                let end: usize = start + i;
                out.push(piece(s, start, end));
                proof {
                    assert(rest.take(i as int) =~= s@.subrange(start as int, end as int));
                    assert(rest.skip(i + pattern.len()) =~= s@.skip(end + pattern.len()));
                    assert(out.deep_view() =~= before.push(rest.take(i as int)));
                    assert(before + (seq![rest.take(i as int)] + split(
                        s@.skip(end + pattern.len()),
                        pat@,
                    )) =~= before.push(rest.take(i as int)) + split(
                        s@.skip(end + pattern.len()),
                        pat@,
                    ));
                }
                start = end + pattern.len();
            },
            None => {
                out.push(piece(s, start, n));
                proof {
                    assert(rest =~= s@.subrange(start as int, n as int));
                    assert(out.deep_view() =~= before.push(rest));
                    assert(before + seq![rest] =~= before.push(rest));
                }
                done = true;
            },
        }
    }
    out
}

/// The parts written one after another with `sep` between each two.
pub open spec fn join(parts: Seq<Seq<char>>, sep: Seq<char>) -> Seq<char>
    decreases parts.len(),
{
    if parts.len() == 0 {
        Seq::empty()
    } else if parts.len() == 1 {
        parts[0]
    } else {
        join(parts.drop_last(), sep) + sep + parts.last()
    }
}

/// Writes the parts one after another with `sep` between each two.
pub fn joined(parts: &Vec<String>, sep: &str) -> (r: String)
    ensures
        r@ == join(parts.deep_view(), sep@),
{
    let mut out = String::new();
    let mut i: usize = 0;
    assert(parts.deep_view().take(0) =~= Seq::empty());
    while i < parts.len()
        invariant
            i <= parts.len(),
            out@ == join(parts.deep_view().take(i as int), sep@),
        decreases parts.len() - i,
    {
        let ghost done = parts.deep_view().take(i as int);
        let ghost next = parts.deep_view().take(i + 1);
        proof {
            assert(next.drop_last() =~= done);
            assert(next.last() == parts@[i as int]@);
        }
        if i > 0 {
            out.append(sep);
        } else {
            assert(out@ + parts@[i as int]@ =~= parts@[i as int]@);
            assert(next[0] == parts@[i as int]@);
        }
        out.append(parts[i].as_str());
        i += 1;
    }
    assert(parts.deep_view().take(parts.len() as int) =~= parts.deep_view());
    out
}

/// A part put before a list of parts joins them with one more separator.
proof fn join_behind(first: Seq<char>, rest: Seq<Seq<char>>, sep: Seq<char>)
    requires
        rest.len() > 0,
    ensures
        join(seq![first] + rest, sep) == first + sep + join(rest, sep),
    decreases rest.len(),
{
    let all = seq![first] + rest;
    if rest.len() == 1 {
        assert(all.drop_last() =~= seq![first]);
        assert(all.last() == rest[0]);
        assert(join(seq![first], sep) == first);
    } else {
        assert(all.drop_last() =~= seq![first] + rest.drop_last());
        assert(all.last() == rest.last());
        join_behind(first, rest.drop_last(), sep);
        assert(first + sep + join(rest.drop_last(), sep) + sep + rest.last() =~= first + sep + (
        join(rest.drop_last(), sep) + sep + rest.last()));
    }
}

/// Cutting a text at a separator and joining the pieces with the same
/// separator gives the text back.
pub proof fn joined_pieces_are_the_text(s: Seq<char>, pat: Seq<char>)
    ensures
        join(split(s, pat), pat) == s,
        split(s, pat).len() > 0,
    decreases s.len(),
{
    match find(s, pat) {
        Some(i) => {
            if pat.len() > 0 && 0 <= i <= s.len() - pat.len() {
                let rest = s.skip(i + pat.len());
                find_from_is_first(s, pat, 0);
                joined_pieces_are_the_text(rest, pat);
                join_behind(s.take(i), split(rest, pat), pat);
                assert(s.take(i) + s.subrange(i, i + pat.len()) + rest =~= s);
            }
        },
        None => {},
    }
}

/// Where `pat` stands nowhere in `s` before index `i`, it stands nowhere in
/// the first `i` characters of `s`.
proof fn prefix_holds_none(s: Seq<char>, pat: Seq<char>, i: int)
    requires
        pat.len() > 0,
        0 <= i <= s.len(),
        forall|j: int| 0 <= j < i ==> !occurs_at(s, pat, j),
    ensures
        !contains(s.take(i), pat),
{
    let head = s.take(i);
    find_from_is_first(head, pat, 0);
    match find(head, pat) {
        Some(j) => {
            assert(head.subrange(j, j + pat.len()) =~= s.subrange(j, j + pat.len()));
            assert(occurs_at(s, pat, j));
        },
        None => {},
    }
}

/// No piece of a text that was cut at a separator holds the separator.
pub proof fn pieces_hold_no_separator(s: Seq<char>, pat: Seq<char>, k: int)
    requires
        pat.len() > 0,
        0 <= k < split(s, pat).len(),
    ensures
        !contains(split(s, pat)[k], pat),
    decreases s.len(),
{
    find_from_is_first(s, pat, 0);
    match find(s, pat) {
        Some(i) => {
            if k == 0 {
                prefix_holds_none(s, pat, i);
            } else {
                pieces_hold_no_separator(s.skip(i + pat.len()), pat, k - 1);
            }
        },
        None => {},
    }
}

/// No line of a text holds a line feed.
pub proof fn lines_hold_no_line_feed(s: Seq<char>, k: int)
    requires
        0 <= k < lines(s).len(),
    ensures
        !contains(lines(s)[k], seq!['\n']),
    decreases s.len(),
{
    let feed = seq!['\n'];
    find_from_is_first(s, feed, 0);
    match find(s, feed) {
        Some(i) => {
            if k == 0 {
                prefix_holds_none(s, feed, i);
                let line = s.take(i);
                let stripped = strip_carriage_return(line);
                if stripped != line {
                    find_from_is_first(stripped, feed, 0);
                    match find(stripped, feed) {
                        Some(j) => {
                            find_from_is_first(line, feed, 0);
                            assert(stripped.subrange(j, j + 1) =~= line.subrange(j, j + 1));
                            assert(occurs_at(line, feed, j));
                        },
                        None => {},
                    }
                }
            } else {
                lines_hold_no_line_feed(s.skip(i + 1), k - 1);
            }
        },
        None => {},
    }
}

/// `s` with every place where `pat` stands taken out, the places found from
/// left to right.
pub open spec fn remove_all(s: Seq<char>, pat: Seq<char>) -> Seq<char> {
    join(split(s, pat), Seq::empty())
}

/// Takes every place where `pat` stands out of `s`.
pub fn without_all(s: &str, pat: &str) -> (r: String)
    ensures
        r@ == remove_all(s@, pat@),
{
    let parts = pieces(s, pat);
    let r = joined(&parts, "");
    proof {
        reveal_strlit("");
        assert(""@ =~= Seq::<char>::empty());
    }
    r
}

/// A line without the carriage return that may end it.
pub open spec fn strip_carriage_return(line: Seq<char>) -> Seq<char> {
    if line.len() > 0 && line.last() == '\r' {
        line.drop_last()
    } else {
        line
    }
}

/// The lines of `s`. A line ends with a line feed, or with a carriage return
/// and a line feed; neither belongs to the line. What follows the last line
/// feed is a line too, unless it is empty.
pub open spec fn lines(s: Seq<char>) -> Seq<Seq<char>>
    decreases s.len(),
{
    if s.len() == 0 {
        Seq::empty()
    } else {
        match find(s, seq!['\n']) {
            Some(i) => if 0 <= i < s.len() {
                seq![strip_carriage_return(s.take(i))] + lines(s.skip(i + 1))
            } else {
                seq![s]
            },
            None => seq![s],
        }
    }
}

/// Cuts `s` into its lines.
pub fn line_list(s: &str) -> (r: Vec<String>)
    ensures
        r.deep_view() == lines(s@),
{
    let chars = characters(s);
    let newline: Vec<char> = vec!['\n'];
    let n: usize = chars.len();
    let mut out: Vec<String> = Vec::new();
    let mut start: usize = 0;
    assert(s@.skip(0) =~= s@);
    assert(out.deep_view() =~= Seq::empty());
    assert(newline@ =~= seq!['\n']);
    while start < n
        invariant
            start <= n,
            n == s@.len(),
            chars@ == s@,
            newline@ == seq!['\n'],
            lines(s@) == out.deep_view() + lines(s@.skip(start as int)),
        decreases n - start,
    {
        let ghost rest = s@.skip(start as int);
        let ghost before = out.deep_view();
        match find_after(&chars, &newline, start) {
            Some(i) => {
                let end: usize = start + i;
                let stop: usize = if end > start && chars[end - 1] == '\r' {
                    end - 1
                } else {
                    end
                };
                out.push(piece(s, start, stop));
                proof {
                    let line = strip_carriage_return(rest.take(i as int));
                    assert(rest.take(i as int) =~= s@.subrange(start as int, end as int));
                    assert(line =~= s@.subrange(start as int, stop as int));
                    assert(rest.skip(i + 1) =~= s@.skip(end + 1));
                    assert(out.deep_view() =~= before.push(line));
                    assert(before + (seq![line] + lines(s@.skip(end + 1))) =~= before.push(line)
                        + lines(s@.skip(end + 1)));
                }
                start = end + 1;
            },
            None => {
                out.push(piece(s, start, n));
                proof {
                    assert(rest =~= s@.subrange(start as int, n as int));
                    assert(out.deep_view() =~= before.push(rest));
                    assert(s@.skip(n as int).len() == 0);
                    assert(before + seq![rest] =~= before.push(rest) + lines(s@.skip(n as int)));
                }
                start = n;
            },
        }
    }
    assert(out.deep_view() + lines(s@.skip(n as int)) =~= out.deep_view());
    out
}

/// `s` without its first and its last character: without its only
/// character when it has one, and empty when it is empty.
pub open spec fn strip_ends(s: Seq<char>) -> Seq<char> {
    if s.len() <= 1 {
        Seq::empty()
    } else {
        s.subrange(1, s.len() - 1)
    }
}

/// Takes the first and the last character off `s`.
pub fn inner(s: &str) -> (r: String)
    ensures
        r@ == strip_ends(s@),
{
    let n: usize = s.unicode_len();
    if n <= 1 {
        let r = String::new();
        assert(r@ =~= Seq::<char>::empty());
        r
    } else {
        piece(s, 1, n - 1)
    }
}

/// Whether `c` is one of the digits `0` to `9`.
pub open spec fn is_digit(c: char) -> bool {
    48 <= c as u32 <= 57
}

/// The number that the digit `c` stands for.
pub open spec fn digit_value(c: char) -> nat {
    (c as u32 - 48) as nat
}

/// The digit that stands for `d`.
pub open spec fn digit_char(d: nat) -> char {
    (d + 48) as char
}

/// Whether `s` holds digits only.
pub open spec fn all_digits(s: Seq<char>) -> bool {
    forall|i: int| 0 <= i < s.len() ==> is_digit(#[trigger] s[i])
}

/// The number that the digits of `s` denote in base ten.
pub open spec fn digits_value(s: Seq<char>) -> nat
    decreases s.len(),
{
    if s.len() == 0 {
        0
    } else {
        digits_value(s.drop_last()) * 10 + digit_value(s.last())
    }
}

/// The digits read so far never denote more than all the digits do.
pub proof fn digits_value_grows(s: Seq<char>, i: int)
    requires
        0 <= i <= s.len(),
    ensures
        digits_value(s.take(i)) <= digits_value(s),
    decreases s.len(),
{
    if i == s.len() {
        assert(s.take(i) =~= s);
    } else {
        assert(s.drop_last().take(i) =~= s.take(i));
        digits_value_grows(s.drop_last(), i);
    }
}

/// What is left of a number's text after the plus sign that may lead it.
pub open spec fn unsigned_digits(s: Seq<char>) -> Seq<char> {
    if s.len() > 0 && s[0] == '+' {
        s.skip(1)
    } else {
        s
    }
}

/// The number not above `max` that `s` denotes: at least one digit, led by
/// at most one plus sign, and nothing else.
pub open spec fn parse_unsigned(s: Seq<char>, max: nat) -> Option<nat> {
    let digits = unsigned_digits(s);
    if digits.len() > 0 && all_digits(digits) && digits_value(digits) <= max {
        Some(digits_value(digits))
    } else {
        None
    }
}

/// Reads the number not above `max` that `s` denotes.
pub fn parse_number(s: &str, max: usize) -> (r: Option<usize>)
    ensures
        match r {
            Some(v) => parse_unsigned(s@, max as nat) == Some(v as nat),
            None => parse_unsigned(s@, max as nat) is None,
        },
{
    let chars = characters(s);
    let n: usize = chars.len();
    let first: usize = if n > 0 && chars[0] == '+' {
        1
    } else {
        0
    };
    let ghost digits = unsigned_digits(s@);
    assert(digits =~= s@.skip(first as int));
    if first == n {
        return None;
    }
    let mut value: usize = 0;
    let mut i: usize = first;
    assert(digits.take(0) =~= Seq::<char>::empty());
    while i < n
        invariant
            first <= i <= n,
            n == s@.len(),
            chars@ == s@,
            digits == s@.skip(first as int),
            digits == unsigned_digits(s@),
            value <= max,
            value == digits_value(digits.take(i - first)),
            forall|j: int| 0 <= j < i - first ==> is_digit(#[trigger] digits[j]),
        decreases n - i,
    {
        let c: char = chars[i];
        let code: u32 = c as u32;
        assert(digits[i - first] == c);
        if code < 48 || code > 57 {
            assert(!is_digit(digits[i - first]));
            assert(!all_digits(digits));
            return None;
        }
        let d: usize = (code - 48) as usize;
        proof {
            let read = digits.take(i - first + 1);
            assert(read.drop_last() =~= digits.take(i - first));
            assert(read.last() == c);
            assert(digit_value(c) == d);
            assert(digits_value(read) == value * 10 + d);
            digits_value_grows(digits, i - first + 1);
        }
        if d > max || value > (max - d) / 10 {
            assert(value * 10 + d > max);
            return None;
        }
        value = value * 10 + d;
        i += 1;
    }
    assert(digits.take(n - first) =~= digits);
    Some(value)
}

/// `n` written in base ten.
pub open spec fn decimal(n: nat) -> Seq<char>
    decreases n,
{
    if n < 10 {
        seq![digit_char(n)]
    } else {
        decimal(n / 10).push(digit_char(n % 10))
    }
}

/// Writes `n` in base ten.
pub fn decimal_text(n: usize) -> (r: String)
    ensures
        r@ == decimal(n as nat),
    decreases n,
{
    let digits = "0123456789";
    proof {
        reveal_strlit("0123456789");
    }
    if n < 10 {
        let r = piece(digits, n, n + 1);
        assert(r@ =~= seq![digit_char(n as nat)]);
        r
    } else {
        let mut r = decimal_text(n / 10);
        let d: usize = n % 10;
        let last = digits.substring_char(d, d + 1);
        assert(last@ =~= seq![digit_char(d as nat)]);
        r.append(last);
        assert(r@ =~= decimal((n / 10) as nat).push(digit_char(d as nat)));
        r
    }
}

/// `decimal(n)` holds digits only, at least one, and denotes `n`.
pub proof fn decimal_is_digits(n: nat)
    ensures
        decimal(n).len() > 0,
        all_digits(decimal(n)),
        digits_value(decimal(n)) == n,
    decreases n,
{
    if n < 10 {
        assert(decimal(n).drop_last() =~= Seq::<char>::empty());
        assert(digits_value(decimal(n).drop_last()) == 0);
        assert(decimal(n).last() == digit_char(n));
    } else {
        decimal_is_digits(n / 10);
        assert(decimal(n).drop_last() =~= decimal(n / 10));
        assert(decimal(n).last() == digit_char(n % 10));
    }
}

/// A number written in base ten reads back as itself.
pub proof fn decimal_reads_back(n: nat, max: nat)
    requires
        n <= max,
    ensures
        parse_unsigned(decimal(n), max) == Some(n),
{
    decimal_is_digits(n);
}

} // verus!
