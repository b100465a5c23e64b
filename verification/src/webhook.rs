//! The webhook handler's triggering decision: a comment body makes a
//! job exactly when it starts with the configured command prefix, and
//! the command is the body's first line only — content after the
//! first newline is ignored.

use vstd::prelude::*;
use vstd::string::StrSliceExecFns;

verus! {

/// Whether `s` begins with `p`.
pub open spec fn starts_with_spec(s: Seq<char>, p: Seq<char>) -> bool {
    s.len() >= p.len() && s.subrange(0, p.len() as int) == p
}

/// Position of the first newline in `s`, or `-1` when none occurs.
pub open spec fn newline_index(s: Seq<char>) -> int
    decreases s.len(),
{
    if s.len() == 0 {
        -1
    } else if s[0] == '\n' {
        0
    } else {
        let r = newline_index(s.skip(1));
        if r < 0 {
            -1
        } else {
            r + 1
        }
    }
}

/// Everything before the first newline; the whole of `s` when it has
/// none.
pub open spec fn first_line_spec(s: Seq<char>) -> Seq<char> {
    if newline_index(s) < 0 {
        s
    } else {
        s.subrange(0, newline_index(s))
    }
}

/// `newline_index` finds exactly the first newline.
proof fn lemma_newline_index_at(s: Seq<char>, i: int)
    requires
        0 <= i < s.len(),
        s[i] == '\n',
        forall|j: int| 0 <= j < i ==> s[j] != '\n',
    ensures
        newline_index(s) == i,
    decreases s.len(),
{
    if i > 0 {
        assert(forall|j: int| 0 <= j < i - 1 ==> s.skip(1)[j] != '\n');
        lemma_newline_index_at(s.skip(1), i - 1);
    }
}

/// Without a newline, `newline_index` reports `-1`.
proof fn lemma_newline_index_absent(s: Seq<char>)
    requires
        forall|j: int| 0 <= j < s.len() ==> s[j] != '\n',
    ensures
        newline_index(s) == -1,
    decreases s.len(),
{
    if s.len() > 0 {
        assert forall|j: int| 0 <= j < s.skip(1).len() implies s.skip(1)[j] != '\n' by {
            assert(s.skip(1)[j] == s[j + 1]);
        }
        lemma_newline_index_absent(s.skip(1));
    }
}

/// Whether `s` begins with `p`, by characters.
pub fn str_starts_with(s: &str, p: &str) -> (r: bool)
    ensures
        r == starts_with_spec(s@, p@),
{
    let n = p.unicode_len();
    if s.unicode_len() < n {
        return false;
    }
    let mut i: usize = 0;
    while i < n
        invariant
            i <= n,
            n == p@.len(),
            s@.len() >= n,
            forall|j: int| 0 <= j < i ==> s@[j] == p@[j],
        decreases n - i,
    {
        if s.get_char(i) != p.get_char(i) {
            assert(s@.subrange(0, p@.len() as int)[i as int] != p@[i as int]);
            return false;
        }
        i = i + 1;
    }
    assert(s@.subrange(0, p@.len() as int) =~= p@);
    true
}

/// Extracts the first line of `s`.
pub fn first_line(s: &str) -> (r: String)
    ensures
        r@ == first_line_spec(s@),
{
    let n = s.unicode_len();
    let mut i: usize = 0;
    while i < n
        invariant
            i <= n,
            n == s@.len(),
            forall|j: int| 0 <= j < i ==> s@[j] != '\n',
        decreases n - i,
    {
        if s.get_char(i) == '\n' {
            proof {
                lemma_newline_index_at(s@, i as int);
            }
            return s.substring_char(0, i).to_owned();
        }
        i = i + 1;
    }
    proof {
        lemma_newline_index_absent(s@);
    }
    s.to_owned()
}

/// The triggering decision: a body that starts with the command
/// prefix yields its first line as the job's command line; any other
/// body yields nothing and the event is dropped.
pub fn command_from_comment(body: &str, prefix: &str) -> (r: Option<String>)
    ensures
        starts_with_spec(body@, prefix@) ==> (r matches Some(c) && c@ == first_line_spec(body@)),
        !starts_with_spec(body@, prefix@) ==> r is None,
{
    if str_starts_with(body, prefix) {
        Some(first_line(body))
    } else {
        None
    }
}

} // verus!
