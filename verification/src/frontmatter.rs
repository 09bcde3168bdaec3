//! Splitting a raw document into its frontmatter block and its body.
//!
//! A document opens a frontmatter block when its literal first line is
//! `---` (with either line-ending style).  The block runs to the next line
//! that begins with `---`; everything after that marker, less one leading
//! line ending, is the body.  A document without the opening marker, or
//! with an opening marker but no closing one, is all body.

use vstd::prelude::*;
use vstd::string::*;

verus! {

/// The closing delimiter pattern: a line ending followed by `---`.
pub open spec fn close_pat() -> Seq<char> {
    seq!['\n', '-', '-', '-']
}

/// `pat` occurs in `s` at position `i`.
pub open spec fn matches_at(s: Seq<char>, pat: Seq<char>, i: int) -> bool {
    &&& 0 <= i
    &&& i + pat.len() <= s.len()
    &&& forall|k: int| 0 <= k < pat.len() ==> s[i + k] == pat[k]
}

/// The first position at or after `i` where `pat` occurs in `s`, if any.
pub open spec fn find_from(s: Seq<char>, pat: Seq<char>, i: int) -> Option<int>
    decreases s.len() - i + 1,
{
    if i < 0 || i + pat.len() > s.len() {
        None
    } else if matches_at(s, pat, i) {
        Some(i)
    } else {
        find_from(s, pat, i + 1)
    }
}

/// Length in characters of the opening delimiter line of `s`: 5 for
/// `---\r\n`, 4 for `---\n`, and 0 when `s` does not open with the marker.
pub open spec fn opening_len(s: Seq<char>) -> int {
    if s.len() >= 5 && s[0] == '-' && s[1] == '-' && s[2] == '-' && s[3] == '\r' && s[4] == '\n' {
        5
    } else if s.len() >= 4 && s[0] == '-' && s[1] == '-' && s[2] == '-' && s[3] == '\n' {
        4
    } else {
        0
    }
}

/// `s` with one leading line ending removed, so that a body that follows a
/// closing marker does not begin with a blank line.
pub open spec fn strip_one_newline(s: Seq<char>) -> Seq<char> {
    if s.len() >= 1 && s[0] == '\n' {
        s.subrange(1, s.len() as int)
    } else if s.len() >= 2 && s[0] == '\r' && s[1] == '\n' {
        s.subrange(2, s.len() as int)
    } else {
        s
    }
}

/// The frontmatter text and the body text of a raw document `s`.
///
/// Without an opening marker, or without a closing one, the frontmatter is
/// empty and the body is all of `s`.
pub open spec fn split_spec(s: Seq<char>) -> (Seq<char>, Seq<char>) {
    let p = opening_len(s);
    if p == 0 {
        (Seq::<char>::empty(), s)
    } else {
        let rest = s.subrange(p, s.len() as int);
        match find_from(rest, close_pat(), 0) {
            None => (Seq::<char>::empty(), s),
            Some(j) => (
                rest.subrange(0, j),
                strip_one_newline(rest.subrange(j + 4, rest.len() as int)),
            ),
        }
    }
}

/// Separates the frontmatter block (between `---` delimiter lines) from
/// the body of `input`.
#[verifier::loop_isolation(false)]
#[verifier::rlimit(60)]
pub fn split_frontmatter<'a>(input: &'a str) -> (r: (&'a str, &'a str))
    ensures
        r.0@ == split_spec(input@).0,
        r.1@ == split_spec(input@).1,
{
    let n: usize = input.unicode_len();

    let p: usize = if n >= 5 && input.get_char(0) == '-' && input.get_char(1) == '-'
        && input.get_char(2) == '-' && input.get_char(3) == '\r' && input.get_char(4) == '\n' {
        5
    } else if n >= 4 && input.get_char(0) == '-' && input.get_char(1) == '-'
        && input.get_char(2) == '-' && input.get_char(3) == '\n' {
        4
    } else {
        0
    };
    assert(p == opening_len(input@));

    if p == 0 {
        return (input.substring_char(0, 0), input);
    }

    let ghost rest = input@.subrange(p as int, n as int);
    let limit: usize = n - p;

    if limit < 4 {
        assert(find_from(rest, close_pat(), 0) is None);
        return (input.substring_char(0, 0), input);
    }

    let mut j: usize = 0;
    while j + 4 <= limit
        invariant
            j <= limit - 3,
            find_from(rest, close_pat(), 0) == find_from(rest, close_pat(), j as int),
        decreases limit - j,
    {
        if input.get_char(p + j) == '\n' && input.get_char(p + j + 1) == '-'
            && input.get_char(p + j + 2) == '-' && input.get_char(p + j + 3) == '-' {
            proof {
                let ji = j as int;
                assert(rest[ji] == input@[p + ji]);
                assert(rest[ji + 1] == input@[p + ji + 1]);
                assert(rest[ji + 2] == input@[p + ji + 2]);
                assert(rest[ji + 3] == input@[p + ji + 3]);
                assert(matches_at(rest, close_pat(), ji));
                assert(find_from(rest, close_pat(), ji) == Some(ji));
            }

            let fm = input.substring_char(p, p + j);
            assert(fm@ =~= rest.subrange(0, j as int));

            let after_start: usize = p + j + 4;
            let ghost after = rest.subrange(j as int + 4, limit as int);
            assert(after =~= input@.subrange(after_start as int, n as int));

            let body_start: usize = if after_start < n && input.get_char(after_start) == '\n' {
                after_start + 1
            } else if n - after_start >= 2 && input.get_char(after_start) == '\r'
                && input.get_char(after_start + 1) == '\n' {
                after_start + 2
            } else {
                after_start
            };
            let body = input.substring_char(body_start, n);
            assert(body@ =~= strip_one_newline(after));

            return (fm, body);
        }
        proof {
            let ji = j as int;
            assert(rest[ji] == input@[p + ji]);
            assert(rest[ji + 1] == input@[p + ji + 1]);
            assert(rest[ji + 2] == input@[p + ji + 2]);
            assert(rest[ji + 3] == input@[p + ji + 3]);
            assert(!matches_at(rest, close_pat(), ji)) by {
                if matches_at(rest, close_pat(), ji) {
                    assert(rest[ji + 0] == close_pat()[0]);
                    assert(rest[ji + 1] == close_pat()[1]);
                    assert(rest[ji + 2] == close_pat()[2]);
                    assert(rest[ji + 3] == close_pat()[3]);
                }
            }
            assert(find_from(rest, close_pat(), ji) == find_from(rest, close_pat(), ji + 1));
        }
        j = j + 1;
    }

    assert(find_from(rest, close_pat(), j as int) is None);
    (input.substring_char(0, 0), input)
}

/// A document that does not open with a frontmatter marker line is all
/// body, with empty frontmatter.
pub proof fn lemma_split_no_marker(s: Seq<char>)
    requires
        opening_len(s) == 0,
    ensures
        split_spec(s).0 == Seq::<char>::empty(),
        split_spec(s).1 == s,
{
}

/// `find_from` finds the first occurrence: a hit is a match with no
/// earlier match, and a miss means no position at or after `i` matches.
pub proof fn lemma_find_from_first(s: Seq<char>, pat: Seq<char>, i: int)
    ensures
        find_from(s, pat, i) matches Some(j) ==> i <= j && matches_at(s, pat, j)
            && forall|k: int| i <= k < j ==> !matches_at(s, pat, k),
        i >= 0 && find_from(s, pat, i) is None ==> forall|k: int| k >= i ==> !matches_at(s, pat, k),
    decreases s.len() - i + 1,
{
    if i < 0 || i + pat.len() > s.len() {
    } else if matches_at(s, pat, i) {
    } else {
        lemma_find_from_first(s, pat, i + 1);
    }
}

/// A document that opens with a frontmatter marker but never closes it —
/// no later line begins with `---` — is all body, with empty frontmatter:
/// no text is lost.
pub proof fn lemma_split_unclosed(s: Seq<char>)
    requires
        opening_len(s) != 0,
        forall|k: int|
            !matches_at(s.subrange(opening_len(s), s.len() as int), close_pat(), k),
    ensures
        split_spec(s).0 == Seq::<char>::empty(),
        split_spec(s).1 == s,
{
    let rest = s.subrange(opening_len(s), s.len() as int);
    lemma_find_from_first(rest, close_pat(), 0);
    assert(find_from(rest, close_pat(), 0) is None);
}

} // verus!
